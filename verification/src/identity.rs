//! The identity by which the daemon is recognised in the process table, and
//! the selection of the rows that carry it.
//!
//! A row is matched by its resolved path where the system gave one, and by
//! its name where it gave none. A row whose name fits but whose resolved
//! path is another belongs to the enumeration and is no match.

use crate::system::{is_snapshot, opt_text, snapshot, ProcessEntry};
use crate::utils::{eq_ignore_ascii_case, eq_ignore_case, normalize_exe_name, normalized_name};
use vstd::prelude::*;

verus! {

/// The final component of a path, as `std::path::Path::file_name` gives it
/// on the platform that the library is built for; `None` where the path has
/// none, as when it ends in `..`.
pub uninterp spec fn path_file_name(path: Seq<char>) -> Option<Seq<char>>;

/// `std::path::Path::file_name`, on a path given as text. The component is
/// part of that text, so it is text itself.
#[verifier::external_body]
pub(crate) fn file_name_of(path: &str) -> (name: Option<String>)
    ensures
        opt_text(name) == path_file_name(path@),
{
    std::path::Path::new(path).file_name().and_then(|n| n.to_str()).map(|n| n.to_string())
}

/// How firmly a process is known to be the configured executable.
#[derive(Clone, Copy, Debug, PartialEq, Eq, Structural)]
pub enum MatchTier {
    /// The resolved path of the process equals the configured path.
    Strong,
    /// Only the base name equals, and the path could not be resolved. This
    /// is the degraded mode.
    Weak,
}

/// Which rows are picked out of a listing.
#[derive(Clone, Copy, Debug, PartialEq, Eq, Structural)]
pub enum Selection {
    /// Every row whose name fits, whatever its path.
    ByName,
    /// Every row that matches, strongly or weakly.
    ByIdentity,
}

/// What a process is matched by: the configured path and the base name taken
/// from it.
pub struct ProcessIdentity {
    pub executable_path: String,
    pub executable_name: String,
}

/// A row of the enumeration: a process whose base name fits, with its
/// resolved path and the tier at which it matches, if it does.
pub struct ProcessMatch {
    pub pid: u32,
    pub exe_path: Option<String>,
    pub tier: Option<MatchTier>,
}

/// The name that stands for a path: its final component without `.exe`, and
/// `syncthing` where the path has no final component.
pub open spec fn identity_name(file_name: Option<Seq<char>>) -> Seq<char> {
    match file_name {
        Some(n) => normalized_name(n),
        None => normalized_name("syncthing"@),
    }
}

/// Whether a process of this name carries the identity name: equal without
/// the extension and without regard to case.
pub open spec fn name_matches(identity_name: Seq<char>, process_name: Seq<char>) -> bool {
    eq_ignore_case(normalized_name(process_name), identity_name)
}

/// The path that the system resolved for a row. An empty path stands for
/// one that could not be read, as a missing one does.
pub open spec fn resolved(exe: Option<Seq<char>>) -> Option<Seq<char>> {
    match exe {
        Some(p) => if p.len() > 0 {
            Some(p)
        } else {
            None
        },
        None => None,
    }
}

/// Strong match: the resolved path equals the configured path, compared as
/// whole texts without regard to case.
pub open spec fn strong_match(path: Seq<char>, exe: Option<Seq<char>>) -> bool {
    resolved(exe) matches Some(p) && eq_ignore_case(p, path)
}

/// Weak match: the base name equals and no path was resolved.
pub open spec fn weak_match(name: Seq<char>, row_name: Seq<char>, exe: Option<Seq<char>>) -> bool {
    resolved(exe) is None && name_matches(name, row_name)
}

/// The tier at which a row matches, if it does.
pub open spec fn tier_of(
    path: Seq<char>,
    name: Seq<char>,
    row_name: Seq<char>,
    exe: Option<Seq<char>>,
) -> Option<MatchTier> {
    if strong_match(path, exe) {
        Some(MatchTier::Strong)
    } else if weak_match(name, row_name, exe) {
        Some(MatchTier::Weak)
    } else {
        None
    }
}

/// Whether a row belongs to the enumeration: its name fits, or its resolved
/// path is the configured one, whose base name then fits as well.
pub open spec fn listed(
    path: Seq<char>,
    name: Seq<char>,
    row_name: Seq<char>,
    exe: Option<Seq<char>>,
) -> bool {
    name_matches(name, row_name) || strong_match(path, exe)
}

/// Whether a selection picks a row of this name and path.
pub open spec fn picks_row(
    sel: Selection,
    path: Seq<char>,
    name: Seq<char>,
    row_name: Seq<char>,
    exe: Option<Seq<char>>,
) -> bool {
    match sel {
        Selection::ByName => name_matches(name, row_name),
        Selection::ByIdentity => tier_of(path, name, row_name, exe) is Some,
    }
}

/// Whether a selection picks a row.
pub open spec fn picks(sel: Selection, path: Seq<char>, name: Seq<char>, e: ProcessEntry) -> bool {
    picks_row(sel, path, name, e.name@, opt_text(e.exe_path))
}

/// The enumeration: the rows of `entries` that belong to it, in their
/// order, each with its process id, its path and its tier.
pub open spec fn matches_of(entries: Seq<ProcessEntry>, path: Seq<char>, name: Seq<char>) -> Seq<
    (u32, Option<Seq<char>>, Option<MatchTier>),
>
    decreases entries.len(),
{
    if entries.len() == 0 {
        Seq::empty()
    } else {
        let e = entries.last();
        let rest = matches_of(entries.drop_last(), path, name);
        if listed(path, name, e.name@, opt_text(e.exe_path)) {
            rest.push(
                (e.pid, opt_text(e.exe_path), tier_of(path, name, e.name@, opt_text(e.exe_path))),
            )
        } else {
            rest
        }
    }
}

/// The process ids of the rows of `entries` that a selection picks.
pub open spec fn matching_pids(
    entries: Seq<ProcessEntry>,
    path: Seq<char>,
    name: Seq<char>,
    sel: Selection,
) -> Set<u32> {
    Set::new(
        |pid: u32|
            exists|i: int|
                0 <= i < entries.len() && (#[trigger] entries[i]).pid == pid && picks(
                    sel,
                    path,
                    name,
                    entries[i],
                ),
    )
}

impl ProcessMatch {
    pub open spec fn view(&self) -> (u32, Option<Seq<char>>, Option<MatchTier>) {
        (self.pid, opt_text(self.exe_path), self.tier)
    }
}

/// The views of a list of matches.
pub open spec fn match_views(ms: Seq<ProcessMatch>) -> Seq<
    (u32, Option<Seq<char>>, Option<MatchTier>),
> {
    ms.map_values(|m: ProcessMatch| m@)
}

/// In the enumeration a row is strong exactly where its resolved path is the
/// configured one, and it is never weak where a path was resolved.
pub proof fn lemma_matches_tiered(entries: Seq<ProcessEntry>, path: Seq<char>, name: Seq<char>)
    ensures
        forall|k: int|
            0 <= k < matches_of(entries, path, name).len() ==> {
                let m = #[trigger] matches_of(entries, path, name)[k];
                &&& m.2 == Some(MatchTier::Strong) <==> strong_match(path, m.1)
                &&& m.2 == Some(MatchTier::Weak) ==> resolved(m.1) is None
            },
    decreases entries.len(),
{
    if entries.len() > 0 {
        lemma_matches_tiered(entries.drop_last(), path, name);
    }
}

/// The running processes whose base name is that of the executable at
/// `path`, each with its process id, its resolved path where the system
/// gave one, and the tier at which it matches: strong where that path is
/// `path`, weak where no path was resolved, and none where the path is
/// another. The result is the enumeration over one snapshot of the process
/// table: every row of the snapshot whose name fits, or whose resolved path
/// is `path`, is in it, and nothing else is.
pub fn enumerate(path: &str) -> (found: Vec<ProcessMatch>)
    ensures
        exists|entries: Seq<ProcessEntry>|
            is_snapshot(entries) && match_views(found@) == #[trigger] matches_of(
                entries,
                path@,
                identity_name(path_file_name(path@)),
            ),
        forall|k: int|
            0 <= k < found@.len() ==> {
                let m = #[trigger] found@[k];
                &&& m.tier == Some(MatchTier::Strong) <==> strong_match(path@, opt_text(m.exe_path))
                &&& m.tier == Some(MatchTier::Weak) ==> resolved(opt_text(m.exe_path)) is None
            },
{
    let entries = snapshot();
    let identity = ProcessIdentity::new(path);
    let found = identity.select(&entries);
    proof {
        assert(is_snapshot(entries@) && match_views(found@) == matches_of(
            entries@,
            path@,
            identity_name(path_file_name(path@)),
        ));
        lemma_matches_tiered(entries@, path@, identity.executable_name@);
        assert forall|k: int| 0 <= k < found@.len() implies {
            let m = #[trigger] found@[k];
            &&& m.tier == Some(MatchTier::Strong) <==> strong_match(path@, opt_text(m.exe_path))
            &&& m.tier == Some(MatchTier::Weak) ==> resolved(opt_text(m.exe_path)) is None
        } by {
            assert(match_views(found@)[k] == found@[k]@);
        }
    }
    found
}

impl ProcessIdentity {
    /// The identity of `path`, given the final component that was found in
    /// it.
    pub fn from_file_name(path: &str, file_name: Option<&str>) -> (id: ProcessIdentity)
        ensures
            id.executable_path@ == path@,
            id.executable_name@ == identity_name(
                match file_name {
                    Some(n) => Some(n@),
                    None => None,
                },
            ),
    {
        let name = match file_name {
            Some(n) => normalize_exe_name(n),
            None => normalize_exe_name("syncthing"),
        };
        ProcessIdentity { executable_path: path.to_owned(), executable_name: name.to_owned() }
    }

    /// The identity of the executable at `path`.
    pub fn new(path: &str) -> (id: ProcessIdentity)
        ensures
            id.executable_path@ == path@,
            id.executable_name@ == identity_name(path_file_name(path@)),
    {
        match file_name_of(path) {
            Some(n) => ProcessIdentity::from_file_name(path, Some(n.as_str())),
            None => ProcessIdentity::from_file_name(path, None),
        }
    }

    /// Whether a process of this name carries the identity's base name.
    pub fn matches_name(&self, process_name: &str) -> (r: bool)
        ensures
            r == name_matches(self.executable_name@, process_name@),
    {
        eq_ignore_ascii_case(normalize_exe_name(process_name), self.executable_name.as_str())
    }

    /// Whether a path equals the configured path, compared as whole texts
    /// without regard to case.
    pub fn matches_path(&self, resolved: &str) -> (r: bool)
        ensures
            r == eq_ignore_case(resolved@, self.executable_path@),
    {
        eq_ignore_ascii_case(resolved, self.executable_path.as_str())
    }

    /// Strong match: whether the path that the system resolved for a row is
    /// the configured one.
    pub fn matches_strongly(&self, exe_path: &Option<String>) -> (r: bool)
        ensures
            r == strong_match(self.executable_path@, opt_text(*exe_path)),
    {
        match exe_path {
            Some(p) => !p.as_str().is_empty() && self.matches_path(p.as_str()),
            None => false,
        }
    }

    /// The tier at which a row matches: strong where its resolved path is
    /// the configured one, weak where no path was resolved and its name
    /// fits, none otherwise.
    pub fn tier(&self, entry: &ProcessEntry) -> (t: Option<MatchTier>)
        ensures
            t == tier_of(
                self.executable_path@,
                self.executable_name@,
                entry.name@,
                opt_text(entry.exe_path),
            ),
    {
        if self.matches_strongly(&entry.exe_path) {
            Some(MatchTier::Strong)
        } else {
            let unresolved = match &entry.exe_path {
                Some(p) => p.as_str().is_empty(),
                None => true,
            };
            if unresolved && self.matches_name(entry.name.as_str()) {
                Some(MatchTier::Weak)
            } else {
                None
            }
        }
    }

    /// Whether a selection picks a row.
    pub fn picks(&self, entry: &ProcessEntry, sel: Selection) -> (r: bool)
        ensures
            r == picks(sel, self.executable_path@, self.executable_name@, *entry),
    {
        match sel {
            Selection::ByName => self.matches_name(entry.name.as_str()),
            Selection::ByIdentity => self.tier(entry).is_some(),
        }
    }

    /// The enumeration over a listing: the rows whose base name fits, in the
    /// listing's order, each with its process id, its resolved path and its
    /// tier.
    pub fn select(&self, entries: &Vec<ProcessEntry>) -> (found: Vec<ProcessMatch>)
        ensures
            match_views(found@) == matches_of(
                entries@,
                self.executable_path@,
                self.executable_name@,
            ),
    {
        let mut found: Vec<ProcessMatch> = Vec::new();
        let mut i: usize = 0;
        while i < entries.len()
            invariant
                i <= entries.len(),
                match_views(found@) == matches_of(
                    entries@.take(i as int),
                    self.executable_path@,
                    self.executable_name@,
                ),
            decreases entries.len() - i,
        {
            let e = &entries[i];
            proof {
                assert(entries@.take(i + 1).drop_last() == entries@.take(i as int));
                assert(entries@.take(i + 1).last() == entries@[i as int]);
            }
            if self.matches_name(e.name.as_str()) || self.matches_strongly(&e.exe_path) {
                let exe_path = match &e.exe_path {
                    Some(p) => Some(p.clone()),
                    None => None,
                };
                let tier = self.tier(e);
                let ghost before = found@;
                let m = ProcessMatch { pid: e.pid, exe_path, tier };
                found.push(m);
                assert(match_views(found@) == match_views(before).push(m@));
            }
            i += 1;
        }
        assert(entries@.take(entries.len() as int) == entries@);
        found
    }

    /// The process ids of the rows of a listing that a selection picks, each
    /// once.
    pub fn select_pids(&self, entries: &Vec<ProcessEntry>, sel: Selection) -> (pids: Vec<u32>)
        ensures
            pids@.no_duplicates(),
            pids@.to_set() == matching_pids(
                entries@,
                self.executable_path@,
                self.executable_name@,
                sel,
            ),
    {
        let mut pids: Vec<u32> = Vec::new();
        let mut i: usize = 0;
        while i < entries.len()
            invariant
                i <= entries.len(),
                pids@.no_duplicates(),
                pids@.to_set() == matching_pids(
                    entries@.take(i as int),
                    self.executable_path@,
                    self.executable_name@,
                    sel,
                ),
            decreases entries.len() - i,
        {
            let e = &entries[i];
            let ghost before = pids@;
            let ghost path = self.executable_path@;
            let ghost name = self.executable_name@;
            let ghost seen = entries@.take(i as int);
            let ghost next = entries@.take(i + 1);
            let hit = self.picks(e, sel);
            let known = contains_pid(&pids, e.pid);
            if hit && !known {
                pids.push(e.pid);
            }
            proof {
                assert forall|pid: u32|
                    pids@.to_set().contains(pid) <==> matching_pids(next, path, name, sel).contains(
                        pid,
                    ) by {
                    if pids@.contains(pid) {
                        if before.contains(pid) {
                            assert(before.to_set().contains(pid));
                            let k = choose|k: int|
                                0 <= k < seen.len() && (#[trigger] seen[k]).pid == pid && picks(
                                    sel,
                                    path,
                                    name,
                                    seen[k],
                                );
                            assert(next[k] == seen[k]);
                        } else {
                            let j = choose|j: int| 0 <= j < pids@.len() && pids@[j] == pid;
                            assert(j == before.len());
                            assert(next[i as int].pid == pid);
                        }
                    }
                    if matching_pids(next, path, name, sel).contains(pid) {
                        let k = choose|k: int|
                            0 <= k < next.len() && (#[trigger] next[k]).pid == pid && picks(
                                sel,
                                path,
                                name,
                                next[k],
                            );
                        if k < i {
                            assert(seen[k] == next[k]);
                            assert(matching_pids(seen, path, name, sel).contains(pid));
                            assert(before.to_set().contains(pid));
                            let j = choose|j: int| 0 <= j < before.len() && before[j] == pid;
                            assert(pids@[j] == pid);
                        } else {
                            if known {
                                let j = choose|j: int| 0 <= j < before.len() && before[j] == pid;
                                assert(pids@[j] == pid);
                            } else {
                                assert(pids@[before.len() as int] == pid);
                            }
                        }
                    }
                }
                assert(pids@.to_set() =~= matching_pids(next, path, name, sel));
            }
            i += 1;
        }
        assert(entries@.take(entries.len() as int) == entries@);
        pids
    }
}

/// Whether no process id comes twice in a list.
pub fn all_distinct(pids: &Vec<u32>) -> (r: bool)
    ensures
        r == pids@.no_duplicates(),
{
    let mut i: usize = 0;
    while i < pids.len()
        invariant
            i <= pids.len(),
            forall|a: int, b: int| 0 <= a < b < i ==> pids@[a] != pids@[b],
        decreases pids.len() - i,
    {
        let mut j: usize = 0;
        while j < i
            invariant
                j <= i < pids.len(),
                forall|a: int| 0 <= a < j ==> pids@[a] != pids@[i as int],
            decreases i - j,
        {
            if pids[j] == pids[i] {
                assert(pids@[j as int] == pids@[i as int]);
                return false;
            }
            j += 1;
        }
        i += 1;
    }
    assert forall|a: int, b: int|
        0 <= a < pids@.len() && 0 <= b < pids@.len() && a != b implies pids@[a] != pids@[b] by {
        if a < b {
            assert(pids@[a] != pids@[b]);
        } else {
            assert(pids@[b] != pids@[a]);
        }
    }
    true
}

/// Whether a list of process ids holds `pid`.
pub fn contains_pid(pids: &Vec<u32>, pid: u32) -> (r: bool)
    ensures
        r == pids@.contains(pid),
{
    let mut i: usize = 0;
    while i < pids.len()
        invariant
            i <= pids.len(),
            forall|j: int| 0 <= j < i ==> pids@[j] != pid,
        decreases pids.len() - i,
    {
        if pids[i] == pid {
            return true;
        }
        i += 1;
    }
    false
}

} // verus!
