//! The configuration that the supervision reads, and how a stored
//! configuration with missing entries is completed.
//!
//! Reading and writing the file, and turning its text into values, is the
//! application's part. The library sees a stored configuration as a
//! [`PartialConfig`]: for each entry, whether it was there and what it held.

use crate::app_dirs::{path_from, path_of};
use crate::process::{clone_texts, texts};
use std::path::PathBuf;
use vstd::prelude::*;
use vstd::string::StrSliceExecFns;

verus! {

/// Which processes are terminated when the application exits.
#[derive(Debug, Clone, Copy, PartialEq, Eq, Structural)]
pub enum ProcessClosureBehavior {
    /// Every process of the daemon, whoever started it.
    CloseAll,
    /// Only what this application started.
    CloseManaged,
    /// Nothing.
    DontClose,
}

impl Default for ProcessClosureBehavior {
    fn default() -> (r: Self)
        ensures
            r == ProcessClosureBehavior::CloseManaged,
    {
        ProcessClosureBehavior::CloseManaged
    }
}

impl ProcessClosureBehavior {
    /// The name under which a policy is stored.
    pub open spec fn stored_name(self) -> Seq<char> {
        match self {
            ProcessClosureBehavior::CloseAll => "close_all"@,
            ProcessClosureBehavior::CloseManaged => "close_managed"@,
            ProcessClosureBehavior::DontClose => "dont_close"@,
        }
    }

    /// The name under which the policy is stored.
    pub fn as_str(&self) -> (name: &'static str)
        ensures
            name@ == self.stored_name(),
    {
        match self {
            ProcessClosureBehavior::CloseAll => "close_all",
            ProcessClosureBehavior::CloseManaged => "close_managed",
            ProcessClosureBehavior::DontClose => "dont_close",
        }
    }

    /// The policy stored under `name`, if it is the name of one.
    pub fn from_name(name: &str) -> (r: Option<ProcessClosureBehavior>)
        ensures
            r matches Some(b) ==> b.stored_name() == name@,
            r is None ==> forall|b: ProcessClosureBehavior| b.stored_name() != name@,
    {
        if str_eq(name, "close_all") {
            Some(ProcessClosureBehavior::CloseAll)
        } else if str_eq(name, "close_managed") {
            Some(ProcessClosureBehavior::CloseManaged)
        } else if str_eq(name, "dont_close") {
            Some(ProcessClosureBehavior::DontClose)
        } else {
            None
        }
    }
}

/// Whether two texts are equal.
pub fn str_eq(a: &str, b: &str) -> (r: bool)
    ensures
        r == (a@ == b@),
{
    let x = crate::utils::chars_of(a);
    let y = crate::utils::chars_of(b);
    if x.len() != y.len() {
        return false;
    }
    let mut i: usize = 0;
    while i < x.len()
        invariant
            x@ == a@,
            y@ == b@,
            x.len() == y.len(),
            i <= x.len(),
            forall|j: int| 0 <= j < i ==> x@[j] == y@[j],
        decreases x.len() - i,
    {
        if x[i] != y[i] {
            return false;
        }
        i += 1;
    }
    assert(a@ =~= b@);
    true
}

/// The position of the first `sep` in `s`, or the length of `s` where it
/// holds none.
pub open spec fn first_sep(s: Seq<char>, sep: char) -> int
    decreases s.len(),
{
    if s.len() == 0 || s[0] == sep {
        0
    } else {
        1 + first_sep(s.drop_first(), sep)
    }
}

/// The pieces of `s` between its separators, in order. A text without a
/// separator is one piece, and so is the empty text.
pub open spec fn split_on(s: Seq<char>, sep: char) -> Seq<Seq<char>>
    decreases s.len(),
{
    let i = first_sep(s, sep);
    if 0 <= i < s.len() {
        seq![s.subrange(0, i)] + split_on(s.subrange(i + 1, s.len() as int), sep)
    } else {
        seq![s]
    }
}

/// The first separator stands where nothing before it is one.
pub proof fn lemma_first_sep(s: Seq<char>, sep: char, j: int)
    requires
        0 <= j <= s.len(),
        forall|k: int| 0 <= k < j ==> s[k] != sep,
        j < s.len() ==> s[j] == sep,
    ensures
        first_sep(s, sep) == j,
    decreases s.len(),
{
    if s.len() == 0 || j == 0 {
    } else {
        let rest = s.drop_first();
        assert forall|k: int| 0 <= k < j - 1 implies rest[k] != sep by {
            assert(rest[k] == s[k + 1]);
        }
        if j < s.len() {
            assert(rest[j - 1] == s[j]);
        }
        lemma_first_sep(rest, sep, j - 1);
    }
}

/// The directories named by a search path: its pieces between semicolons,
/// in order.
pub fn search_path_dirs(path_var: &str) -> (dirs: Vec<String>)
    ensures
        texts(dirs@) == split_on(path_var@, ';'),
{
    let n: usize = path_var.unicode_len();
    let mut dirs: Vec<String> = Vec::new();
    let mut start: usize = 0;
    let mut i: usize = 0;
    proof {
        assert(path_var@.subrange(0, n as int) =~= path_var@);
        assert(texts(dirs@) + split_on(path_var@, ';') =~= split_on(path_var@, ';'));
    }
    while i < n
        invariant
            n == path_var@.len(),
            start <= i <= n,
            forall|k: int| start <= k < i ==> path_var@[k] != ';',
            texts(dirs@) + split_on(path_var@.subrange(start as int, n as int), ';') == split_on(
                path_var@,
                ';',
            ),
        decreases n - i,
    {
        if path_var.get_char(i) == ';' {
            let piece = path_var.substring_char(start, i);
            let ghost before = dirs@;
            let ghost tail = split_on(path_var@.subrange(i + 1, n as int), ';');
            proof {
                let rest = path_var@.subrange(start as int, n as int);
                let j = i - start;
                assert forall|k: int| 0 <= k < j implies rest[k] != ';' by {
                    assert(rest[k] == path_var@[start + k]);
                }
                assert(rest[j] == path_var@[i as int]);
                lemma_first_sep(rest, ';', j);
                assert(rest.subrange(0, j) =~= piece@);
                assert(rest.subrange(j + 1, rest.len() as int) =~= path_var@.subrange(
                    i + 1,
                    n as int,
                ));
                assert(split_on(rest, ';') == seq![piece@] + tail);
            }
            dirs.push(piece.to_owned());
            proof {
                assert(texts(dirs@) =~= texts(before).push(piece@));
                assert(texts(before).push(piece@) + tail =~= texts(before) + (seq![piece@] + tail));
            }
            start = i + 1;
        }
        i += 1;
    }
    let piece = path_var.substring_char(start, n);
    proof {
        let rest = path_var@.subrange(start as int, n as int);
        assert forall|k: int| 0 <= k < rest.len() implies rest[k] != ';' by {
            assert(rest[k] == path_var@[start + k]);
        }
        lemma_first_sep(rest, ';', rest.len() as int);
        assert(split_on(rest, ';') =~= seq![rest]);
    }
    let ghost before = dirs@;
    dirs.push(piece.to_owned());
    assert(texts(dirs@) =~= texts(before).push(piece@));
    assert(texts(before).push(piece@) =~= texts(before) + seq![piece@]);
    dirs
}

/// How the log is written.
#[derive(Debug)]
pub struct LogConfig {
    /// The level: trace, debug, info, warn or error.
    pub level: String,
    /// The log file.
    pub file_path: PathBuf,
    /// The size at which a log file is closed, in kilobytes.
    pub max_size_kb: u64,
    /// How many closed log files are kept.
    pub max_files: u32,
}

impl Default for LogConfig {
    fn default() -> (c: Self)
        ensures
            c.level@ == "info"@,
            c.file_path == path_of("logs/syncthingers.log"@),
            c.max_size_kb == 1024,
            c.max_files == 3,
    {
        LogConfig {
            level: "info".to_owned(),
            file_path: path_from("logs/syncthingers.log"),
            max_size_kb: 1024,
            max_files: 3,
        }
    }
}

/// How the application shows itself.
#[derive(Debug, Clone, Copy, PartialEq, Eq, Structural)]
pub struct UiConfig {
    /// Whether notifications are shown.
    pub show_notifications: bool,
    /// Whether the application starts in the tray.
    pub minimize_to_tray: bool,
    /// Whether the daemon is started with the application.
    pub start_syncthing_on_startup: bool,
}

impl Default for UiConfig {
    fn default() -> (c: Self)
        ensures
            c == (UiConfig {
                show_notifications: true,
                minimize_to_tray: true,
                start_syncthing_on_startup: true,
            }),
    {
        UiConfig { show_notifications: true, minimize_to_tray: true, start_syncthing_on_startup: true }
    }
}

/// The configuration.
#[derive(Debug)]
pub struct Config {
    pub log_level: String,
    pub syncthing_path: String,
    pub web_ui_url: String,
    pub startup_args: Vec<String>,
    pub process_closure_behavior: ProcessClosureBehavior,
    pub auto_launch_internal: bool,
}

/// A configuration as plain values.
pub struct ConfigView {
    pub log_level: Seq<char>,
    pub syncthing_path: Seq<char>,
    pub web_ui_url: Seq<char>,
    pub startup_args: Seq<Seq<char>>,
    pub process_closure_behavior: ProcessClosureBehavior,
    pub auto_launch_internal: bool,
}

impl View for Config {
    type V = ConfigView;

    open spec fn view(&self) -> ConfigView {
        ConfigView {
            log_level: self.log_level@,
            syncthing_path: self.syncthing_path@,
            web_ui_url: self.web_ui_url@,
            startup_args: texts(self.startup_args@),
            process_closure_behavior: self.process_closure_behavior,
            auto_launch_internal: self.auto_launch_internal,
        }
    }
}

/// The configuration of a first run, for a given path of the executable.
pub open spec fn default_config(syncthing_path: Seq<char>) -> ConfigView {
    ConfigView {
        log_level: "info"@,
        syncthing_path,
        web_ui_url: "http://localhost:8384"@,
        startup_args: seq!["-no-browser"@],
        process_closure_behavior: ProcessClosureBehavior::CloseManaged,
        auto_launch_internal: false,
    }
}

impl Default for Config {
    /// The configuration of a first run, with the executable at its usual
    /// place.
    fn default() -> (c: Self)
        ensures
            c@ == default_config("C:/Program Files/Syncthing/syncthing.exe"@),
    {
        Config::default_with_path(None)
    }
}

impl Clone for Config {
    fn clone(&self) -> (c: Self)
        ensures
            c@ == self@,
    {
        Config {
            log_level: self.log_level.clone(),
            syncthing_path: self.syncthing_path.clone(),
            web_ui_url: self.web_ui_url.clone(),
            startup_args: clone_texts(&self.startup_args),
            process_closure_behavior: self.process_closure_behavior,
            auto_launch_internal: self.auto_launch_internal,
        }
    }
}

/// One entry of a stored configuration.
#[derive(Debug)]
pub enum Stored<T> {
    /// The entry is not there.
    Absent,
    /// The entry is there and holds nothing.
    Null,
    /// The entry holds a value.
    Present(T),
}

/// A stored configuration, entry by entry.
#[derive(Debug)]
pub struct PartialConfig {
    pub log_level: Stored<String>,
    pub syncthing_path: Stored<String>,
    pub web_ui_url: Stored<String>,
    pub startup_args: Stored<Vec<String>>,
    pub process_closure_behavior: Stored<ProcessClosureBehavior>,
    pub auto_launch_internal: Stored<bool>,
}

/// The text of an entry that holds one, else the default.
pub open spec fn text_or(entry: Stored<String>, default: Seq<char>) -> Seq<char> {
    match entry {
        Stored::Present(s) => s@,
        _ => default,
    }
}

/// The texts of an entry that holds a list, else the default.
pub open spec fn texts_or(entry: Stored<Vec<String>>, default: Seq<Seq<char>>) -> Seq<Seq<char>> {
    match entry {
        Stored::Present(v) => texts(v@),
        _ => default,
    }
}

/// The value of an entry that holds one, else the default.
pub open spec fn value_or<T>(entry: Stored<T>, default: T) -> T {
    match entry {
        Stored::Present(v) => v,
        _ => default,
    }
}

impl PartialConfig {
    /// Whether an entry that was added later is not there at all. An entry
    /// that is there and holds nothing is not missing.
    pub open spec fn lacks_fields(self) -> bool {
        self.process_closure_behavior is Absent || self.auto_launch_internal is Absent
    }

    /// Whether every entry holds a value.
    pub open spec fn is_complete(self) -> bool {
        &&& self.log_level is Present
        &&& self.syncthing_path is Present
        &&& self.web_ui_url is Present
        &&& self.startup_args is Present
        &&& self.process_closure_behavior is Present
        &&& self.auto_launch_internal is Present
    }

    /// The defaults, with every entry that holds a value put in place of
    /// its default.
    pub open spec fn merged(self, defaults: ConfigView) -> ConfigView {
        ConfigView {
            log_level: text_or(self.log_level, defaults.log_level),
            syncthing_path: text_or(self.syncthing_path, defaults.syncthing_path),
            web_ui_url: text_or(self.web_ui_url, defaults.web_ui_url),
            startup_args: texts_or(self.startup_args, defaults.startup_args),
            process_closure_behavior: value_or(
                self.process_closure_behavior,
                defaults.process_closure_behavior,
            ),
            auto_launch_internal: value_or(
                self.auto_launch_internal,
                defaults.auto_launch_internal,
            ),
        }
    }
}

/// What loading a stored configuration comes to.
#[derive(Debug)]
pub struct Loaded {
    /// The configuration to run with.
    pub config: Config,
    /// Whether the stored configuration lacked entries, so that the
    /// completed one is to be written back.
    pub write_back: bool,
}

fn text_entry(entry: Stored<String>, default: &String) -> (r: String)
    ensures
        r@ == text_or(entry, default@),
{
    match entry {
        Stored::Present(s) => s,
        _ => default.clone(),
    }
}

impl Config {
    /// The configuration of a first run. The executable is taken to be at
    /// `found`, where one was found on the search path, and at its usual
    /// place otherwise.
    pub fn default_with_path(found: Option<String>) -> (c: Config)
        ensures
            c@ == default_config(
                match found {
                    Some(p) => p@,
                    None => "C:/Program Files/Syncthing/syncthing.exe"@,
                },
            ),
    {
        let syncthing_path = match found {
            Some(p) => p,
            None => "C:/Program Files/Syncthing/syncthing.exe".to_owned(),
        };
        let mut startup_args: Vec<String> = Vec::new();
        startup_args.push("-no-browser".to_owned());
        assert(texts(startup_args@) =~= seq!["-no-browser"@]);
        Config {
            log_level: "info".to_owned(),
            syncthing_path,
            web_ui_url: "http://localhost:8384".to_owned(),
            startup_args,
            process_closure_behavior: ProcessClosureBehavior::CloseManaged,
            auto_launch_internal: false,
        }
    }

    /// Whether a stored configuration lacks an entry that was added later:
    /// the closure policy or the automatic launch.
    pub fn check_missing_fields(existing: &PartialConfig) -> (missing: bool)
        ensures
            missing == existing.lacks_fields(),
    {
        let no_policy = match existing.process_closure_behavior {
            Stored::Absent => true,
            _ => false,
        };
        let no_launch = match existing.auto_launch_internal {
            Stored::Absent => true,
            _ => false,
        };
        no_policy || no_launch
    }

    /// Completes a stored configuration: what it holds stays, and what it
    /// lacks, or holds as nothing, is taken from `defaults`.
    pub fn merge_with_defaults(existing: PartialConfig, defaults: &Config) -> (c: Config)
        ensures
            c@ == existing.merged(defaults@),
    {
        let startup_args = match existing.startup_args {
            Stored::Present(v) => v,
            _ => clone_texts(&defaults.startup_args),
        };
        let process_closure_behavior = match existing.process_closure_behavior {
            Stored::Present(b) => b,
            _ => defaults.process_closure_behavior,
        };
        let auto_launch_internal = match existing.auto_launch_internal {
            Stored::Present(b) => b,
            _ => defaults.auto_launch_internal,
        };
        Config {
            log_level: text_entry(existing.log_level, &defaults.log_level),
            syncthing_path: text_entry(existing.syncthing_path, &defaults.syncthing_path),
            web_ui_url: text_entry(existing.web_ui_url, &defaults.web_ui_url),
            startup_args,
            process_closure_behavior,
            auto_launch_internal,
        }
    }

    /// The configuration that a stored one stands for, given the defaults.
    /// One that lacks a later entry is completed from the defaults and is
    /// to be written back. One that does not must hold a value in every
    /// entry, and is taken as it is; else it is refused as invalid.
    pub fn from_stored(existing: PartialConfig, defaults: &Config) -> (r: Option<Loaded>)
        ensures
            r is Some <==> existing.lacks_fields() || existing.is_complete(),
            r matches Some(l) ==> l.write_back == existing.lacks_fields() && l.config@
                == existing.merged(defaults@),
    {
        if Config::check_missing_fields(&existing) {
            Some(Loaded { config: Config::merge_with_defaults(existing, defaults), write_back: true })
        } else {
            let complete = match (
                &existing.log_level,
                &existing.syncthing_path,
                &existing.web_ui_url,
                &existing.startup_args,
                &existing.process_closure_behavior,
                &existing.auto_launch_internal,
            ) {
                (
                    Stored::Present(_),
                    Stored::Present(_),
                    Stored::Present(_),
                    Stored::Present(_),
                    Stored::Present(_),
                    Stored::Present(_),
                ) => true,
                _ => false,
            };
            if complete {
                Some(
                    Loaded {
                        config: Config::merge_with_defaults(existing, defaults),
                        write_back: false,
                    },
                )
            } else {
                None
            }
        }
    }
}

} // verus!
