//! The handle of the daemon process: one that this application started and
//! owns, or one that it found running and only watches.
//!
//! Starting a child and waiting on it are done by the application, which
//! reports what came of them; the handle decides what that means for its
//! own state. Looking processes up and killing them goes through the
//! process table of `sysinfo`, which the handle holds.
//!
//! Whether a process that was asked to go has ended is the operating
//! system's affair. What the handle answers for is which processes it
//! asked: it keeps a record of them, one entry for each kill request, and
//! the contracts say by what that record grows.

use crate::identity::{
    all_distinct, contains_pid, identity_name, matching_pids, path_file_name, picks, picks_row,
    tier_of, MatchTier, ProcessIdentity, Selection,
};
use crate::process_monitor::ProcessMonitorHandle;
use crate::system::{
    is_probe, is_snapshot, kill_process, list_processes, lists_table, new_system, opt_text, probe,
    process_table, refresh_processes, snapshot, ProcessEntry,
};
use sysinfo::System;
use vstd::prelude::*;

verus! {

/// Who started the process that a handle stands for. It is fixed when the
/// handle is made.
#[derive(Debug, Clone, Copy, PartialEq, Eq, Structural)]
pub enum Ownership {
    /// This application started it and may terminate its whole process tree.
    ManagedByApp,
    /// It was found running; only its main process is ever acted on.
    External,
}

/// What went wrong with a process operation.
#[derive(Debug)]
pub enum ProcessError {
    /// The handle already owns a live child.
    AlreadySpawned,
    /// The handle stands for a process that this application did not start,
    /// so nothing can be started through it.
    NotManaged,
    /// The operating system could not start the executable; its message.
    SpawnFailure(String),
    /// The main process of a managed handle could not be terminated.
    TerminationFailure,
    /// The operating system denied the termination of a process that this
    /// application did not start.
    PermissionDenied,
}

impl ProcessError {
    /// The error in words.
    pub open spec fn text(self) -> Seq<char> {
        match self {
            ProcessError::AlreadySpawned => "Process is already running"@,
            ProcessError::NotManaged => "Process was not started by this application"@,
            ProcessError::SpawnFailure(m) => m@,
            ProcessError::TerminationFailure => "Process could not be terminated"@,
            ProcessError::PermissionDenied => "Cannot stop external process"@,
        }
    }

    /// The error in words.
    pub fn message(&self) -> (m: String)
        ensures
            m@ == self.text(),
    {
        match self {
            ProcessError::AlreadySpawned => "Process is already running".to_owned(),
            ProcessError::NotManaged => "Process was not started by this application".to_owned(),
            ProcessError::SpawnFailure(m) => m.clone(),
            ProcessError::TerminationFailure => "Process could not be terminated".to_owned(),
            ProcessError::PermissionDenied => "Cannot stop external process".to_owned(),
        }
    }
}

/// What the application reports of an attempt to start the executable.
pub enum SpawnOutcome {
    /// A child was started; its process id.
    Spawned(u32),
    /// No child was started; the operating system's message.
    Failed(String),
}

/// What a non-blocking wait on an owned child found.
#[derive(Debug, Clone, Copy, PartialEq, Eq, Structural)]
pub enum ChildStatus {
    /// The child has not exited.
    Running,
    /// The child has exited.
    Exited,
    /// The wait itself failed; the child is taken to be gone.
    Unknown,
}

/// What came of one kill request.
#[derive(Debug, Clone, Copy, PartialEq, Eq, Structural)]
pub enum KillOutcome {
    /// The process table holds no such process: it is gone already.
    NotFound,
    /// The kill signal was sent.
    Sent,
    /// The operating system refused to send the signal.
    Refused,
}

/// The state of a handle, as plain values.
pub struct ProcessView {
    /// The configured path of the executable.
    pub path: Seq<char>,
    /// Who started the process.
    pub ownership: Ownership,
    /// The id of the main process, while it is believed to exist.
    pub pid: Option<u32>,
    /// The ids of the processes taken to belong to the process tree.
    pub tree: Seq<u32>,
    /// Whether the application holds a child for the handle.
    pub has_child: bool,
    /// The process for which an exit wait is registered.
    pub monitor: Option<u32>,
    /// The tier at which a detected process was matched.
    pub matched: Option<MatchTier>,
    /// The processes that the handle has asked the operating system to
    /// kill, one entry for each request, oldest first.
    pub asked: Seq<u32>,
}

impl ProcessView {
    /// What holds of every handle: the ids of the tree come once each; a
    /// handle for a process found running has no tree and owns no child; an
    /// owned child has a process id; without a process id there is no tree,
    /// no exit wait and no tier; and an exit wait is for the main process.
    pub open spec fn wf(self) -> bool {
        &&& self.tree.no_duplicates()
        &&& self.ownership == Ownership::External ==> self.tree.len() == 0 && !self.has_child
        &&& self.has_child ==> self.pid is Some
        &&& self.pid is None ==> self.tree.len() == 0 && self.monitor is None
            && self.matched is None
        &&& self.monitor matches Some(m) ==> self.pid == Some(m)
    }

    /// A handle that stands for no process yet and has asked for nothing.
    pub open spec fn idle(path: Seq<char>, ownership: Ownership) -> ProcessView {
        ProcessView {
            path,
            ownership,
            pid: None,
            tree: Seq::empty(),
            has_child: false,
            monitor: None,
            matched: None,
            asked: Seq::empty(),
        }
    }

    /// The handle once its process is known to be gone: path, ownership and
    /// the record of what was asked stay, everything else is given up.
    pub open spec fn cleared(self) -> ProcessView {
        ProcessView { asked: self.asked, ..ProcessView::idle(self.path, self.ownership) }
    }

    /// The handle after a stop: every target of the stop was asked to go, in
    /// the order of the targets, and the handle has given up its process.
    pub open spec fn stopped(self) -> ProcessView {
        ProcessView { asked: self.asked + stop_targets_of(self), ..self.cleared() }
    }

    /// Whether the process counts as alive, given whether the process table
    /// holds its main process. An owned child is alive until its owner
    /// reports its exit.
    pub open spec fn alive(self, in_table: bool) -> bool {
        self.pid is Some && (self.has_child || in_table)
    }

    /// The handle after it was held against the process table.
    pub open spec fn reconciled(self, in_table: bool) -> ProcessView {
        if self.alive(in_table) {
            self
        } else {
            self.cleared()
        }
    }

    /// The handle after a wait on its child was reported.
    pub open spec fn after_poll(self, status: ChildStatus) -> ProcessView {
        if self.has_child && status != ChildStatus::Running {
            self.cleared()
        } else {
            self
        }
    }
}

/// The handle of the daemon process.
pub struct SyncthingProcess {
    syncthing_path: String,
    ownership: Ownership,
    pid: Option<u32>,
    tracked_pids: Vec<u32>,
    has_child: bool,
    monitor: Option<ProcessMonitorHandle>,
    matched: Option<MatchTier>,
    asked: Vec<u32>,
    system: System,
}

impl View for SyncthingProcess {
    type V = ProcessView;

    closed spec fn view(&self) -> ProcessView {
        ProcessView {
            path: self.syncthing_path@,
            ownership: self.ownership,
            pid: self.pid,
            tree: self.tracked_pids@,
            has_child: self.has_child,
            monitor: match self.monitor {
                Some(m) => Some(m.watched()),
                None => None,
            },
            matched: self.matched,
            asked: self.asked@,
        }
    }
}

/// The process ids in a process table whose rows a selection picks.
pub open spec fn table_matches(
    table: Map<u32, (Seq<char>, Option<Seq<char>>)>,
    path: Seq<char>,
    name: Seq<char>,
    sel: Selection,
) -> Set<u32> {
    Set::new(
        |pid: u32|
            table.dom().contains(pid) && picks_row(sel, path, name, table[pid].0, table[pid].1),
    )
}

impl SyncthingProcess {
    /// Whether the handle is consistent: its state is, and an exit wait that
    /// it keeps is still registered.
    pub open spec fn wf(&self) -> bool {
        &&& self@.wf()
        &&& self.monitor_live()
    }

    /// Whether the exit wait that the handle keeps, if it keeps one, is
    /// still registered.
    pub closed spec fn monitor_live(&self) -> bool {
        self.monitor matches Some(m) ==> m.active()
    }

    /// The process table as the handle last saw it.
    pub closed spec fn snapshot(&self) -> Map<u32, (Seq<char>, Option<Seq<char>>)> {
        process_table(self.system)
    }

    /// A handle for a process that this application is about to start.
    pub fn new(path: &str) -> (p: SyncthingProcess)
        ensures
            p.wf(),
            p@ == ProcessView::idle(path@, Ownership::ManagedByApp),
    {
        SyncthingProcess {
            syncthing_path: path.to_owned(),
            ownership: Ownership::ManagedByApp,
            pid: None,
            tracked_pids: Vec::new(),
            has_child: false,
            monitor: None,
            matched: None,
            asked: Vec::new(),
            system: new_system(),
        }
    }

    /// A handle for a process that was found running under `pid`, with the
    /// tier at which it was matched, where that is known.
    pub fn external(path: &str, pid: u32, matched: Option<MatchTier>) -> (p: SyncthingProcess)
        ensures
            p.wf(),
            p@ == (ProcessView {
                pid: Some(pid),
                matched,
                ..ProcessView::idle(path@, Ownership::External)
            }),
    {
        SyncthingProcess {
            syncthing_path: path.to_owned(),
            ownership: Ownership::External,
            pid: Some(pid),
            tracked_pids: Vec::new(),
            has_child: false,
            monitor: None,
            matched,
            asked: Vec::new(),
            system: new_system(),
        }
    }

    /// A handle that owns no child and stands for process 12345 of
    /// `mock_syncthing`, with nothing tracked: for trying out what is decided
    /// about a handle without a process behind it.
    pub fn mock_for_testing(started_by_app: bool) -> (p: SyncthingProcess)
        ensures
            p.wf(),
            p@ == (ProcessView {
                pid: Some(12345u32),
                ..ProcessView::idle(
                    "mock_syncthing"@,
                    if started_by_app {
                        Ownership::ManagedByApp
                    } else {
                        Ownership::External
                    },
                )
            }),
    {
        SyncthingProcess {
            syncthing_path: "mock_syncthing".to_owned(),
            ownership: if started_by_app {
                Ownership::ManagedByApp
            } else {
                Ownership::External
            },
            pid: Some(12345),
            tracked_pids: Vec::new(),
            has_child: false,
            monitor: None,
            matched: None,
            asked: Vec::new(),
            system: new_system(),
        }
    }

    /// Whether the handle is consistent, for callers that cannot know.
    pub fn is_well_formed(&self) -> (ok: bool)
        ensures
            ok == self.wf(),
    {
        let distinct = all_distinct(&self.tracked_pids);
        let external_ok = match self.ownership {
            Ownership::External => self.tracked_pids.len() == 0 && !self.has_child,
            Ownership::ManagedByApp => true,
        };
        let child_ok = !self.has_child || self.pid.is_some();
        let idle_ok = self.pid.is_some() || (self.tracked_pids.len() == 0
            && self.monitor.is_none() && self.matched.is_none());
        let monitor_ok = match &self.monitor {
            Some(token) => token.is_registered() && match self.pid {
                Some(pid) => pid == token.pid(),
                None => false,
            },
            None => true,
        };
        distinct && external_ok && child_ok && idle_ok && monitor_ok
    }

    /// Whether this application started the process.
    pub fn is_started_by_app(&self) -> (r: bool)
        ensures
            r == (self@.ownership == Ownership::ManagedByApp),
    {
        match self.ownership {
            Ownership::ManagedByApp => true,
            Ownership::External => false,
        }
    }

    /// Who started the process.
    pub fn ownership(&self) -> (o: Ownership)
        ensures
            o == self@.ownership,
    {
        self.ownership
    }

    /// The id of the main process, while it is believed to exist.
    pub fn pid(&self) -> (pid: Option<u32>)
        ensures
            pid == self@.pid,
    {
        self.pid
    }

    /// The configured path of the executable.
    pub fn syncthing_path(&self) -> (path: &str)
        ensures
            path@ == self@.path,
    {
        self.syncthing_path.as_str()
    }

    /// The ids of the processes taken to belong to the process tree.
    pub fn tracked_pids(&self) -> (pids: &Vec<u32>)
        ensures
            pids@ == self@.tree,
    {
        &self.tracked_pids
    }

    /// Whether the application holds a child for this handle.
    pub fn owns_child(&self) -> (r: bool)
        ensures
            r == self@.has_child,
    {
        self.has_child
    }

    /// The tier at which the process was matched when it was detected. A
    /// weak match is the degraded mode, which callers are to make known.
    pub fn matched(&self) -> (tier: Option<MatchTier>)
        ensures
            tier == self@.matched,
    {
        self.matched
    }

    /// The processes that the handle has asked the operating system to
    /// kill, one entry for each request, oldest first.
    pub fn asked(&self) -> (pids: &Vec<u32>)
        ensures
            pids@ == self@.asked,
    {
        &self.asked
    }

    /// The process for which an exit wait is registered, if any.
    pub fn monitored_pid(&self) -> (pid: Option<u32>)
        ensures
            pid == self@.monitor,
    {
        match &self.monitor {
            Some(m) => Some(m.pid()),
            None => None,
        }
    }

    /// Gives up everything but path, ownership and the record of what was
    /// asked. The exit wait, if there is one, is released with it.
    fn clear(&mut self)
        ensures
            final(self).wf(),
            final(self)@ == old(self)@.cleared(),
            final(self).snapshot() == old(self).snapshot(),
    {
        self.pid = None;
        self.tracked_pids = Vec::new();
        self.has_child = false;
        self.monitor = None;
        self.matched = None;
    }

    /// Takes the token of an exit wait that was registered for the main
    /// process, in place of any earlier one. A token for another process, or
    /// one that was released, is not kept. Returns whether it was kept.
    pub fn attach_monitor(&mut self, token: ProcessMonitorHandle) -> (kept: bool)
        requires
            old(self).wf(),
        ensures
            final(self).wf(),
            kept == (token.active() && old(self)@.pid == Some(token.watched())),
            final(self)@ == (if kept {
                ProcessView { monitor: Some(token.watched()), ..old(self)@ }
            } else {
                old(self)@
            }),
            final(self).snapshot() == old(self).snapshot(),
    {
        let fits = match self.pid {
            Some(pid) => pid == token.pid(),
            None => false,
        };
        if fits && token.is_registered() {
            self.monitor = Some(token);
            true
        } else {
            false
        }
    }

    /// Releases the exit wait, if one is registered, and says for which
    /// process it was. Nothing else changes.
    pub fn release_monitor(&mut self) -> (released: Option<u32>)
        requires
            old(self).wf(),
        ensures
            final(self).wf(),
            released == old(self)@.monitor,
            final(self)@ == (ProcessView { monitor: None, ..old(self)@ }),
            final(self).snapshot() == old(self).snapshot(),
    {
        match self.monitor.take() {
            Some(mut token) => {
                token.release();
                Some(token.pid())
            },
            None => None,
        }
    }

    /// Takes note of a non-blocking wait on the owned child. Where the child
    /// has exited, or the wait failed, the handle gives up its process id and
    /// what it tracked. A handle that owns no child is left as it is.
    /// Returns whether the handle still stands for a process.
    pub fn child_polled(&mut self, status: ChildStatus) -> (running: bool)
        requires
            old(self).wf(),
        ensures
            final(self).wf(),
            final(self)@ == old(self)@.after_poll(status),
            running == (final(self)@.pid is Some),
            final(self).snapshot() == old(self).snapshot(),
    {
        if self.has_child {
            match status {
                ChildStatus::Running => {},
                ChildStatus::Exited => {
                    self.clear();
                },
                ChildStatus::Unknown => {
                    self.clear();
                },
            }
        }
        self.pid.is_some()
    }

    /// Holds the handle against the process table: `in_table` says whether
    /// the table holds the main process. A handle whose process is gone gives
    /// up its process id and what it tracked; one that has given them up
    /// already is left as it is. Returns whether the process is alive.
    pub fn reconcile(&mut self, in_table: bool) -> (running: bool)
        requires
            old(self).wf(),
        ensures
            final(self).wf(),
            running == old(self)@.alive(in_table),
            final(self)@ == old(self)@.reconciled(in_table),
            final(self).snapshot() == old(self).snapshot(),
    {
        if self.pid.is_some() && (self.has_child || in_table) {
            true
        } else {
            if self.pid.is_some() {
                self.clear();
            } else {
                assert(self@.tree =~= Seq::empty());
            }
            false
        }
    }
}

/// The name under which the executable at `path` is looked for.
pub open spec fn name_for(path: Seq<char>) -> Seq<char> {
    identity_name(path_file_name(path))
}

/// A selection picks the same processes from a listing of a process table
/// as from the table itself.
pub proof fn lemma_listing_matches(
    entries: Seq<ProcessEntry>,
    table: Map<u32, (Seq<char>, Option<Seq<char>>)>,
    path: Seq<char>,
    name: Seq<char>,
    sel: Selection,
)
    requires
        lists_table(entries, table),
    ensures
        matching_pids(entries, path, name, sel) == table_matches(table, path, name, sel),
{
    assert forall|pid: u32|
        matching_pids(entries, path, name, sel).contains(pid) <==> table_matches(
            table,
            path,
            name,
            sel,
        ).contains(pid) by {
        if matching_pids(entries, path, name, sel).contains(pid) {
            let i = choose|i: int|
                0 <= i < entries.len() && (#[trigger] entries[i]).pid == pid && picks(
                    sel,
                    path,
                    name,
                    entries[i],
                );
            assert(entries[i].is_row_of(table));
        }
        if table_matches(table, path, name, sel).contains(pid) {
            let i = choose|i: int| 0 <= i < entries.len() && (#[trigger] entries[i]).pid == pid;
            assert(entries[i].is_row_of(table));
        }
    }
    assert(matching_pids(entries, path, name, sel) =~= table_matches(table, path, name, sel));
}

/// What one kill request came to, from what the process table answered.
pub fn kill_outcome(sent: Option<bool>) -> (o: KillOutcome)
    ensures
        o == (match sent {
            None => KillOutcome::NotFound,
            Some(true) => KillOutcome::Sent,
            Some(false) => KillOutcome::Refused,
        }),
{
    match sent {
        None => KillOutcome::NotFound,
        Some(true) => KillOutcome::Sent,
        Some(false) => KillOutcome::Refused,
    }
}

/// What `stop` reports, given what came of the kill request for the main
/// process (`None` where none was made). Only a refusal there is a failure:
/// a process that is gone already, or one that the signal was sent to,
/// counts as terminated, and so does whatever happened to the rest of the
/// tree.
pub open spec fn stop_report(ownership: Ownership, primary: Option<KillOutcome>) -> Result<
    (),
    ProcessError,
> {
    if primary == Some(KillOutcome::Refused) {
        match ownership {
            Ownership::ManagedByApp => Err(ProcessError::TerminationFailure),
            Ownership::External => Err(ProcessError::PermissionDenied),
        }
    } else {
        Ok(())
    }
}

/// The processes that a stop asks to go, in the order in which they are
/// asked: for a process found running the main process alone, for a started
/// process the whole process tree, and none for a handle without a process
/// id.
pub open spec fn stop_targets_of(v: ProcessView) -> Seq<u32> {
    match v.pid {
        None => Seq::empty(),
        Some(p) => if v.ownership == Ownership::External {
            seq![p]
        } else {
            v.tree
        },
    }
}

/// Whether `r` is what a stop of the handle `v` may report: what
/// `stop_report` makes of the kill request for the main process, where such
/// a request is made exactly if the main process is among the targets of
/// the stop.
pub open spec fn stop_outcome(v: ProcessView, r: Result<(), ProcessError>) -> bool {
    exists|primary: Option<KillOutcome>|
        r == #[trigger] stop_report(v.ownership, primary) && (primary is Some <==> v.pid is Some
            && stop_targets_of(v).contains(v.pid->0))
}

/// Whether `running` is what one fresh look at process `pid` gives for the
/// executable at `path`: the process is alive exactly where the look found
/// a row for it and that row matches the identity of the executable.
pub open spec fn seen_by_a_probe(path: Seq<char>, pid: u32, running: bool) -> bool {
    exists|row: Option<ProcessEntry>|
        #[trigger] is_probe(row, pid) && running == (row matches Some(e) && row_tier(path, e)
            is Some)
}

/// What `stop` reports, given what came of the kill request for the main
/// process.
pub fn stop_result(ownership: Ownership, primary: Option<KillOutcome>) -> (r: Result<
    (),
    ProcessError,
>)
    ensures
        r == stop_report(ownership, primary),
{
    match primary {
        Some(KillOutcome::Refused) => match ownership {
            Ownership::ManagedByApp => Err(ProcessError::TerminationFailure),
            Ownership::External => Err(ProcessError::PermissionDenied),
        },
        _ => Ok(()),
    }
}

/// Looks `pid` up afresh and asks the operating system to kill it. The
/// request is made exactly where the refreshed snapshot holds the process;
/// where it holds none the process counts as gone already. Whether a request
/// that was made is honoured is the operating system's affair.
fn signal(sys: &mut System, pid: u32) -> (outcome: KillOutcome)
    ensures
        outcome == KillOutcome::NotFound <==> !process_table(*final(sys)).dom().contains(pid),
{
    refresh_processes(sys, Some(pid));
    kill_outcome(kill_process(sys, pid))
}

/// The processes to terminate when every process of the executable at
/// `path` is to go: those in the listing that match its identity, each
/// once, whatever the path is.
pub fn sweep_targets(path: &str, entries: &Vec<ProcessEntry>) -> (pids: Vec<u32>)
    ensures
        pids@.no_duplicates(),
        pids@.to_set() == matching_pids(
            entries@,
            path@,
            name_for(path@),
            Selection::ByIdentity,
        ),
{
    ProcessIdentity::new(path).select_pids(entries, Selection::ByIdentity)
}

/// Whether `asked` is what a sweep for the executable at `path` asks to go:
/// the processes that match its identity in one snapshot of the process
/// table, each once, and no others.
pub open spec fn is_sweep(path: Seq<char>, asked: Seq<u32>) -> bool {
    &&& asked.no_duplicates()
    &&& exists|entries: Seq<ProcessEntry>|
        is_snapshot(entries) && asked.to_set() == #[trigger] matching_pids(
            entries,
            path,
            name_for(path),
            Selection::ByIdentity,
        )
}

/// Asks the operating system to kill every process that matches the
/// identity of the executable at `path`, whoever started it: the processes
/// that `sweep_targets` names in a fresh listing of the process table. A
/// request that is refused is passed over: the sweep goes on and is no
/// failure.
///
/// The sweep never fails. It returns the processes that it asked to go, in
/// the order in which it asked them.
pub fn stop_external_syncthing_processes(path: &str) -> (r: Result<Vec<u32>, ProcessError>)
    ensures
        r matches Ok(asked) && is_sweep(path@, asked@),
{
    let mut system = new_system();
    refresh_processes(&mut system, None);
    let entries = list_processes(&system);
    assert(lists_table(entries@, process_table(system)));
    assert(is_snapshot(entries@));
    let pids = sweep_targets(path, &entries);
    let mut asked: Vec<u32> = Vec::new();
    let mut i: usize = 0;
    while i < pids.len()
        invariant
            i <= pids.len(),
            asked@ == pids@.take(i as int),
        decreases pids.len() - i,
    {
        let pid = pids[i];
        let _ = kill_process(&system, pid);
        asked.push(pid);
        assert(pids@.take(i + 1) =~= pids@.take(i as int).push(pid));
        i += 1;
    }
    assert(pids@.take(pids.len() as int) == pids@);
    assert(is_sweep(path@, asked@));
    Ok(asked)
}

/// The tier at which a row matches the identity of the executable at
/// `path`, if it does.
pub open spec fn row_tier(path: Seq<char>, e: ProcessEntry) -> Option<MatchTier> {
    tier_of(path, name_for(path), e.name@, opt_text(e.exe_path))
}

/// Whether row `i` is the first in a listing that matches the identity of
/// the executable at `path`.
pub open spec fn first_match(entries: Seq<ProcessEntry>, path: Seq<char>, i: int) -> bool {
    &&& 0 <= i < entries.len()
    &&& row_tier(path, entries[i]) is Some
    &&& forall|j: int| 0 <= j < i ==> row_tier(path, #[trigger] entries[j]) is None
}

/// Whether `found` is what detection makes of a listing: nothing where no
/// row matches the identity of the executable at `path`, and else a handle
/// for a process that this application did not start, with the process id
/// and the tier of the first row that matches.
pub open spec fn detection_of(
    entries: Seq<ProcessEntry>,
    path: Seq<char>,
    found: Option<SyncthingProcess>,
) -> bool {
    &&& found is None <==> forall|i: int|
        0 <= i < entries.len() ==> row_tier(path, #[trigger] entries[i]) is None
    &&& found matches Some(p) ==> p.wf() && exists|i: int|
        0 <= i < entries.len() && first_match(entries, path, i) && p@ == (ProcessView {
            pid: Some((#[trigger] entries[i]).pid),
            matched: row_tier(path, entries[i]),
            ..ProcessView::idle(path, Ownership::External)
        })
}

impl SyncthingProcess {
    /// The process found in a listing of the process table: the first row
    /// that matches the identity of the executable at `path`, as a handle for
    /// a process that this application did not start. The handle keeps the
    /// tier of the match.
    pub fn detect_in(path: &str, entries: &Vec<ProcessEntry>) -> (found: Option<SyncthingProcess>)
        ensures
            detection_of(entries@, path@, found),
    {
        let identity = ProcessIdentity::new(path);
        let mut i: usize = 0;
        while i < entries.len()
            invariant
                i <= entries.len(),
                identity.executable_path@ == path@,
                identity.executable_name@ == name_for(path@),
                forall|j: int| 0 <= j < i ==> row_tier(path@, #[trigger] entries@[j]) is None,
            decreases entries.len() - i,
        {
            let tier = identity.tier(&entries[i]);
            if tier.is_some() {
                assert(first_match(entries@, path@, i as int));
                return Some(SyncthingProcess::external(path, entries[i].pid, tier));
            }
            i += 1;
        }
        None
    }

    /// Looks through the process table for a running process of the
    /// executable at `path`. One that is found comes back as a handle for a
    /// process that this application did not start, with the tier of its
    /// match. The scan does not depend on the second argument, by which the
    /// caller says whether only foreign processes are of interest: a process
    /// that is found in the table is never taken for one of its own.
    ///
    /// The scan never fails. What it returns is what `detect_in` makes of
    /// one snapshot of the process table: nothing where no row of the
    /// snapshot matches, and else the handle for the first row that does.
    pub fn detect_process(path: &str, _external_only: bool) -> (r: Result<
        Option<SyncthingProcess>,
        ProcessError,
    >)
        ensures
            r is Ok,
            r matches Ok(found) ==> exists|entries: Seq<ProcessEntry>|
                is_snapshot(entries) && #[trigger] detection_of(entries, path@, found),
            r matches Ok(Some(p)) ==> p.wf() && p@.pid is Some && p@.matched is Some && p@ == (
            ProcessView {
                pid: p@.pid,
                matched: p@.matched,
                ..ProcessView::idle(path@, Ownership::External)
            }),
    {
        let entries = snapshot();
        let found = SyncthingProcess::detect_in(path, &entries);
        assert(is_snapshot(entries@) && detection_of(entries@, path@, found));
        Ok(found)
    }

    /// Refreshes the handle's view of the process table and returns the ids
    /// of the processes in it that carry the executable's name, each once.
    pub fn find_all_syncthing_processes(&mut self) -> (pids: Vec<u32>)
        requires
            old(self).wf(),
        ensures
            final(self).wf(),
            final(self)@ == old(self)@,
            pids@.no_duplicates(),
            pids@.to_set() == table_matches(
                final(self).snapshot(),
                old(self)@.path,
                name_for(old(self)@.path),
                Selection::ByName,
            ),
    {
        refresh_processes(&mut self.system, None);
        let entries = list_processes(&self.system);
        let identity = ProcessIdentity::new(self.syncthing_path.as_str());
        let pids = identity.select_pids(&entries, Selection::ByName);
        proof {
            lemma_listing_matches(
                entries@,
                self.snapshot(),
                identity.executable_path@,
                identity.executable_name@,
                Selection::ByName,
            );
        }
        pids
    }

    /// For a handle of a started process: looks through the process table
    /// again and takes every process that carries the executable's name,
    /// and was not known yet, into the process tree. Any other handle is
    /// left as it is.
    pub fn update_tracked_processes(&mut self)
        requires
            old(self).wf(),
        ensures
            final(self).wf(),
            final(self)@ == (ProcessView { tree: final(self)@.tree, ..old(self)@ }),
            old(self)@.ownership == Ownership::ManagedByApp && old(self)@.pid is Some
                ==> final(self)@.tree.to_set() == old(self)@.tree.to_set().union(
                table_matches(
                    final(self).snapshot(),
                    old(self)@.path,
                    name_for(old(self)@.path),
                    Selection::ByName,
                ),
            ),
            !(old(self)@.ownership == Ownership::ManagedByApp && old(self)@.pid is Some)
                ==> final(self)@.tree == old(self)@.tree && final(self).snapshot() == old(
                self,
            ).snapshot(),
    {
        if self.is_started_by_app() && self.pid.is_some() {
            let found = self.find_all_syncthing_processes();
            let ghost start = self.tracked_pids@;
            let ghost snap = self.snapshot();
            let mut i: usize = 0;
            while i < found.len()
                invariant
                    i <= found.len(),
                    self.wf(),
                    old(self)@.ownership == Ownership::ManagedByApp,
                    old(self)@.pid is Some,
                    start == old(self)@.tree,
                    self@ == (ProcessView { tree: self.tracked_pids@, ..old(self)@ }),
                    self.snapshot() == snap,
                    self.tracked_pids@.to_set() == start.to_set().union(
                        found@.take(i as int).to_set(),
                    ),
                decreases found.len() - i,
            {
                let pid = found[i];
                let ghost before = self.tracked_pids@;
                let known = contains_pid(&self.tracked_pids, pid);
                if !known {
                    self.tracked_pids.push(pid);
                }
                proof {
                    let now = self.tracked_pids@;
                    assert forall|a: int, b: int| 0 <= a < b < now.len() implies now[a] != now[b] by {
                        if b < before.len() {
                            assert(before[a] != before[b]);
                        }
                    }
                    let seen = found@.take(i as int);
                    let next = found@.take(i + 1);
                    assert(next == seen.push(pid));
                    assert forall|q: u32|
                        now.to_set().contains(q) <==> start.to_set().union(
                            next.to_set(),
                        ).contains(q) by {
                        if now.contains(q) {
                            if before.contains(q) {
                                assert(before.to_set().contains(q));
                                if seen.contains(q) {
                                    let k = choose|k: int| 0 <= k < seen.len() && seen[k] == q;
                                    assert(next[k] == q);
                                }
                            } else {
                                assert(q == pid);
                                assert(next[i as int] == pid);
                            }
                        }
                        if start.contains(q) {
                            assert(before.to_set().contains(q));
                            let k = choose|k: int| 0 <= k < before.len() && before[k] == q;
                            assert(now[k] == q);
                        }
                        if next.contains(q) {
                            let k = choose|k: int| 0 <= k < next.len() && next[k] == q;
                            if k < i {
                                assert(seen[k] == q);
                                assert(before.to_set().contains(q));
                                let j = choose|j: int| 0 <= j < before.len() && before[j] == q;
                                assert(now[j] == q);
                            } else if known {
                                let j = choose|j: int| 0 <= j < before.len() && before[j] == q;
                                assert(now[j] == q);
                            } else {
                                assert(now[before.len() as int] == q);
                            }
                        }
                    }
                    assert(now.to_set() =~= start.to_set().union(next.to_set()));
                }
                i += 1;
            }
            assert(found@.take(found.len() as int) == found@);
        }
    }

    /// What is to be started for this handle: the executable with `args` in
    /// their order. A handle that owns a live child, or that stands for a
    /// process found running, admits no start.
    pub fn spawn_request(&self, args: &Vec<String>) -> (r: Result<SpawnRequest, ProcessError>)
        ensures
            self@.ownership == Ownership::External ==> r matches Err(ProcessError::NotManaged),
            self@.ownership == Ownership::ManagedByApp && self@.has_child ==> r matches Err(
                ProcessError::AlreadySpawned,
            ),
            self@.ownership == Ownership::ManagedByApp && !self@.has_child ==> (r matches Ok(req)
                && req.program@ == self@.path && texts(req.args@) == texts(args@)),
    {
        if !self.is_started_by_app() {
            return Err(ProcessError::NotManaged);
        }
        if self.has_child {
            return Err(ProcessError::AlreadySpawned);
        }
        Ok(SpawnRequest { program: self.syncthing_path.clone(), args: clone_texts(args) })
    }

    /// Takes note of what came of starting the executable. For a child that
    /// was started, the handle takes its process id, owns it from now on,
    /// and takes it and every process that carries the executable's name
    /// into the process tree. No exit wait is registered yet. A handle that
    /// admits no start, or a start that failed, leaves the handle as it
    /// was.
    pub fn start(&mut self, spawned: SpawnOutcome) -> (r: Result<(), ProcessError>)
        requires
            old(self).wf(),
        ensures
            final(self).wf(),
            final(self)@.path == old(self)@.path,
            final(self)@.ownership == old(self)@.ownership,
            old(self)@.ownership == Ownership::External ==> r matches Err(
                ProcessError::NotManaged,
            ),
            old(self)@.ownership == Ownership::ManagedByApp && old(self)@.has_child ==> r matches Err(
                ProcessError::AlreadySpawned,
            ),
            old(self)@.ownership == Ownership::ManagedByApp && !old(self)@.has_child ==> (
            match spawned {
                SpawnOutcome::Spawned(pid) => r is Ok,
                SpawnOutcome::Failed(msg) => r matches Err(ProcessError::SpawnFailure(m)) && m
                    == msg,
            }),
            r is Err ==> final(self)@ == old(self)@,
            r is Ok ==> (spawned matches SpawnOutcome::Spawned(pid) && final(self)@ == (ProcessView {
                pid: Some(pid),
                has_child: true,
                monitor: None,
                tree: final(self)@.tree,
                ..old(self)@
            }) && final(self)@.tree.to_set() == table_matches(
                final(self).snapshot(),
                old(self)@.path,
                name_for(old(self)@.path),
                Selection::ByName,
            ).insert(pid)),
    {
        if !self.is_started_by_app() {
            return Err(ProcessError::NotManaged);
        }
        if self.has_child {
            return Err(ProcessError::AlreadySpawned);
        }
        match spawned {
            SpawnOutcome::Failed(msg) => Err(ProcessError::SpawnFailure(msg)),
            SpawnOutcome::Spawned(pid) => {
                self.monitor = None;
                self.pid = Some(pid);
                self.has_child = true;
                self.tracked_pids = Vec::new();
                self.tracked_pids.push(pid);
                let ghost first = self.tracked_pids@;
                assert(first =~= seq![pid]);
                self.update_tracked_processes();
                proof {
                    let matches = table_matches(
                        self.snapshot(),
                        old(self)@.path,
                        name_for(old(self)@.path),
                        Selection::ByName,
                    );
                    assert(first[0] == pid);
                    assert(first.to_set() =~= Set::<u32>::empty().insert(pid));
                    assert(self@.tree.to_set() =~= matches.insert(pid));
                }
                Ok(())
            },
        }
    }

    /// Terminates the process, as far as the operating system allows, and
    /// gives up the process id, the process tree, the child and the exit
    /// wait, whatever came of it.
    ///
    /// For a started process every process of the tree is asked to go; that
    /// one of them refuses does not keep the others from being asked. The
    /// call fails only where the main process is in the tree and the kill
    /// request for it was refused. For a process found running only the main
    /// process is asked, and a refusal is reported as a denied permission.
    /// A handle without a process id has nothing to terminate.
    ///
    /// The processes that are asked to go are those of `stop_targets`, in
    /// their order, each looked up afresh, and no others: the record of what
    /// the handle has asked grows by exactly them. What is reported is what
    /// `finish_stop` makes of the kill request for the main process, which
    /// was made exactly where the main process is among the targets.
    pub fn stop(&mut self) -> (r: Result<(), ProcessError>)
        requires
            old(self).wf(),
        ensures
            final(self).wf(),
            final(self)@ == old(self)@.stopped(),
            stop_outcome(old(self)@, r),
            old(self)@.pid is None ==> r is Ok,
            r is Err ==> r == stop_report(old(self)@.ownership, Some(KillOutcome::Refused)),
            r is Err && old(self)@.ownership == Ownership::ManagedByApp ==> old(
                self,
            )@.tree.contains(old(self)@.pid->0),
    {
        let targets = self.stop_targets();
        let mut primary_outcome: Option<KillOutcome> = None;
        let mut i: usize = 0;
        assert(old(self)@.asked + targets@.take(0) =~= old(self)@.asked);
        while i < targets.len()
            invariant
                i <= targets.len(),
                self.wf(),
                self@ == (ProcessView {
                    asked: old(self)@.asked + targets@.take(i as int),
                    ..old(self)@
                }),
                targets@ == stop_targets_of(old(self)@),
                primary_outcome is Some <==> old(self)@.pid is Some && targets@.take(
                    i as int,
                ).contains(old(self)@.pid->0),
            decreases targets.len() - i,
        {
            let pid = targets[i];
            let outcome = self.ask(pid);
            let is_primary = match self.pid {
                Some(primary) => primary == pid,
                None => false,
            };
            if is_primary {
                primary_outcome = Some(outcome);
            }
            proof {
                let seen = targets@.take(i as int);
                let next = targets@.take(i + 1);
                assert(next == seen.push(pid));
                assert((old(self)@.asked + seen).push(pid) =~= old(self)@.asked + next);
                if old(self)@.pid is Some {
                    let primary = old(self)@.pid->0;
                    if seen.contains(primary) {
                        let k = choose|k: int| 0 <= k < seen.len() && seen[k] == primary;
                        assert(next[k] == primary);
                    }
                    if is_primary {
                        assert(next[i as int] == primary);
                    }
                    if next.contains(primary) && !is_primary {
                        let k = choose|k: int| 0 <= k < next.len() && next[k] == primary;
                        assert(k < i);
                        assert(seen[k] == primary);
                    }
                }
            }
            i += 1;
        }
        assert(targets@.take(targets.len() as int) == targets@);
        let ghost before = self@;
        let r = self.finish_stop(primary_outcome);
        assert(r == stop_report(before.ownership, primary_outcome));
        r
    }

    /// Asks the operating system to kill `pid`, after a fresh look for it,
    /// and takes note that it was asked. Every kill request of the handle is
    /// made here.
    fn ask(&mut self, pid: u32) -> (outcome: KillOutcome)
        requires
            old(self).wf(),
        ensures
            final(self).wf(),
            final(self)@ == (ProcessView { asked: old(self)@.asked.push(pid), ..old(self)@ }),
    {
        let outcome = signal(&mut self.system, pid);
        self.asked.push(pid);
        outcome
    }

    /// The processes that a stop asks to go, in the order in which they are
    /// asked: for a process found running the main process alone, for a
    /// started process the whole process tree, and none for a handle without
    /// a process id.
    pub fn stop_targets(&self) -> (pids: Vec<u32>)
        requires
            self.wf(),
        ensures
            pids@ == stop_targets_of(self@),
    {
        let mut pids: Vec<u32> = Vec::new();
        match self.pid {
            None => {},
            Some(primary) => match self.ownership {
                Ownership::External => {
                    pids.push(primary);
                    assert(pids@ =~= seq![primary]);
                },
                Ownership::ManagedByApp => {
                    let mut i: usize = 0;
                    while i < self.tracked_pids.len()
                        invariant
                            i <= self.tracked_pids.len(),
                            pids@ == self.tracked_pids@.take(i as int),
                        decreases self.tracked_pids.len() - i,
                    {
                        pids.push(self.tracked_pids[i]);
                        assert(self.tracked_pids@.take(i + 1) =~= self.tracked_pids@.take(
                            i as int,
                        ).push(self.tracked_pids@[i as int]));
                        i += 1;
                    }
                    assert(self.tracked_pids@.take(self.tracked_pids.len() as int)
                        == self.tracked_pids@);
                },
            },
        }
        pids
    }

    /// The end of a stop: the handle gives up the process id, the process
    /// tree, the child and the exit wait, and reports what the stop came to,
    /// given what came of the kill request for the main process (`None`
    /// where none was made). The handle is cleared whatever is reported.
    pub fn finish_stop(&mut self, primary: Option<KillOutcome>) -> (r: Result<(), ProcessError>)
        requires
            old(self).wf(),
        ensures
            final(self).wf(),
            final(self)@ == old(self)@.cleared(),
            r == stop_report(old(self)@.ownership, primary),
            final(self).snapshot() == old(self).snapshot(),
    {
        let result = stop_result(self.ownership, primary);
        self.clear();
        result
    }

    /// Whether a fresh look at the main process found it: there is a row,
    /// and it matches the identity of the executable, strongly or, where its
    /// path could not be resolved, weakly. A row of another program that
    /// took over the process id is not the process.
    pub fn still_there(&self, row: &Option<ProcessEntry>) -> (found: bool)
        ensures
            found == (*row matches Some(e) && row_tier(self@.path, e) is Some),
    {
        match row {
            Some(e) => ProcessIdentity::new(self.syncthing_path.as_str()).tier(e).is_some(),
            None => false,
        }
    }

    /// Whether the process is alive. This is the one place where that is
    /// decided. An owned child is alive until its exit is reported through
    /// `child_polled`. A process known by its id alone is alive while a fresh
    /// look at the process table finds it there, as `still_there` says; once
    /// it is not found the handle gives up its process id and what belongs
    /// to it. A handle that has given them up is not alive and is left as it
    /// is.
    pub fn is_running(&mut self) -> (running: bool)
        requires
            old(self).wf(),
        ensures
            final(self).wf(),
            final(self)@ == (if running {
                old(self)@
            } else {
                old(self)@.cleared()
            }),
            old(self)@.has_child ==> running,
            old(self)@.pid is None ==> !running,
            old(self)@.pid is Some && !old(self)@.has_child ==> seen_by_a_probe(
                old(self)@.path,
                old(self)@.pid->0,
                running,
            ),
    {
        let in_table = match self.pid {
            Some(pid) => if self.has_child {
                true
            } else {
                let row = probe(pid);
                let found = self.still_there(&row);
                assert(is_probe(row, pid) && found == (row matches Some(e) && row_tier(
                    self@.path,
                    e,
                ) is Some));
                assert(seen_by_a_probe(self@.path, pid, found));
                found
            },
            None => false,
        };
        self.reconcile(in_table)
    }
}

/// What is handed to the operating system to start the daemon.
pub struct SpawnRequest {
    pub program: String,
    pub args: Vec<String>,
}

/// The texts of a list of strings.
pub open spec fn texts(v: Seq<String>) -> Seq<Seq<char>> {
    v.map_values(|s: String| s@)
}

/// A copy of a list of strings.
pub fn clone_texts(v: &Vec<String>) -> (r: Vec<String>)
    ensures
        texts(r@) == texts(v@),
{
    let mut r: Vec<String> = Vec::new();
    let mut i: usize = 0;
    while i < v.len()
        invariant
            i <= v.len(),
            texts(r@) == texts(v@.take(i as int)),
        decreases v.len() - i,
    {
        let ghost before = r@;
        r.push(v[i].clone());
        assert(texts(r@) =~= texts(before).push(v@[i as int]@));
        assert(texts(v@.take(i + 1)) =~= texts(v@.take(i as int)).push(v@[i as int]@));
        i += 1;
    }
    assert(v@.take(v.len() as int) == v@);
    r
}

/// Asking twice against the same process table gives the same answer, and
/// the second time changes nothing.
pub proof fn lemma_reconcile_idempotent(v: ProcessView, in_table: bool)
    requires
        v.wf(),
    ensures
        v.reconciled(in_table).alive(in_table) == v.alive(in_table),
        v.reconciled(in_table).reconciled(in_table) == v.reconciled(in_table),
        v.reconciled(in_table).wf(),
{
}

/// No step of a handle's life changes who started the process or where its
/// executable lies.
pub proof fn lemma_ownership_is_fixed(v: ProcessView, in_table: bool, status: ChildStatus)
    ensures
        v.cleared().ownership == v.ownership,
        v.reconciled(in_table).ownership == v.ownership,
        v.after_poll(status).ownership == v.ownership,
        v.stopped().ownership == v.ownership,
        v.cleared().path == v.path,
        v.reconciled(in_table).path == v.path,
        v.after_poll(status).path == v.path,
        v.stopped().path == v.path,
{
}

/// Only a stop asks a process to go: a look at the process table and the
/// report of a wait on the child leave the record of kill requests as it
/// is. A stop of a process found running asks its main process alone, and a
/// stop of a handle without a process id asks nothing.
pub proof fn lemma_only_a_stop_asks(v: ProcessView, in_table: bool, status: ChildStatus)
    ensures
        v.cleared().asked == v.asked,
        v.reconciled(in_table).asked == v.asked,
        v.after_poll(status).asked == v.asked,
        v.stopped().asked == v.asked + stop_targets_of(v),
        v.ownership == Ownership::External && v.pid is Some ==> v.stopped().asked == v.asked.push(
            v.pid->0,
        ),
        v.pid is None ==> v.stopped().asked == v.asked,
{
    assert(v.asked + seq![v.pid->0] =~= v.asked.push(v.pid->0));
    assert(v.asked + Seq::<u32>::empty() =~= v.asked);
}

} // verus!
