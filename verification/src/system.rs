//! The operating system's process table, as `sysinfo` reports it.
//!
//! A `System` value is a snapshot: it holds what the last refresh found and
//! nothing newer. What a snapshot holds is named by [`process_table`]; what a
//! refresh will find, or whether a kill request is honoured, is the machine's
//! affair and is never claimed here.

use sysinfo::{Pid, ProcessesToUpdate, System};
use vstd::prelude::*;

verus! {

/// `sysinfo::System`, declared so that it can be held and handed on. Nothing
/// inside it is visible; what it holds is spoken of through
/// [`process_table`].
#[verifier::external_type_specification]
#[verifier::external_body]
pub struct ExSystem(sysinfo::System);

/// What a snapshot holds: for each process id in it, the process's name and,
/// where it could be resolved, the path of its executable. Both texts are
/// taken lossily: bytes that are not UTF-8 are replaced.
pub uninterp spec fn process_table(sys: System) -> Map<u32, (Seq<char>, Option<Seq<char>>)>;

/// One row of the process table, as plain values.
pub struct ProcessEntry {
    pub pid: u32,
    pub name: String,
    pub exe_path: Option<String>,
}

/// The text of an optional string.
pub open spec fn opt_text(s: Option<String>) -> Option<Seq<char>> {
    match s {
        Some(t) => Some(t@),
        None => None,
    }
}

impl ProcessEntry {
    /// The row as it stands in a process table: name and resolved path.
    pub open spec fn row(&self) -> (Seq<char>, Option<Seq<char>>) {
        (self.name@, opt_text(self.exe_path))
    }

    /// Whether this entry is a row of `table`.
    pub open spec fn is_row_of(&self, table: Map<u32, (Seq<char>, Option<Seq<char>>)>) -> bool {
        table.dom().contains(self.pid) && table[self.pid] == self.row()
    }
}

/// Whether `entries` lists `table` row by row: every entry is a row, every
/// row has its entry, and no process id comes twice. Nothing is said of the
/// order.
pub open spec fn lists_table(
    entries: Seq<ProcessEntry>,
    table: Map<u32, (Seq<char>, Option<Seq<char>>)>,
) -> bool {
    &&& forall|i: int| 0 <= i < entries.len() ==> (#[trigger] entries[i]).is_row_of(table)
    &&& forall|pid: u32| #[trigger]
        table.dom().contains(pid) ==> exists|i: int|
            0 <= i < entries.len() && (#[trigger] entries[i]).pid == pid
    &&& forall|i: int, j: int|
        0 <= i < j < entries.len() ==> (#[trigger] entries[i]).pid != (#[trigger] entries[j]).pid
}

/// Whether no process id comes twice in a listing.
pub open spec fn distinct_pids(entries: Seq<ProcessEntry>) -> bool {
    forall|i: int, j: int|
        0 <= i < j < entries.len() ==> (#[trigger] entries[i]).pid != (#[trigger] entries[j]).pid
}

/// Whether `entries` lists, row by row, what one snapshot of the process
/// table holds. Which snapshot that is, is the machine's affair.
pub open spec fn is_snapshot(entries: Seq<ProcessEntry>) -> bool {
    exists|sys: System| lists_table(entries, #[trigger] process_table(sys))
}

/// Whether `row` is what `table` holds under `pid`: its row there, and
/// nothing where it holds none.
pub open spec fn looked_up(
    row: Option<ProcessEntry>,
    pid: u32,
    table: Map<u32, (Seq<char>, Option<Seq<char>>)>,
) -> bool {
    match row {
        Some(e) => e.pid == pid && e.is_row_of(table),
        None => !table.dom().contains(pid),
    }
}

/// Whether `row` is what one snapshot of the process table holds under
/// `pid`.
pub open spec fn is_probe(row: Option<ProcessEntry>, pid: u32) -> bool {
    exists|sys: System| looked_up(row, pid, #[trigger] process_table(sys))
}

/// A fresh listing of the process table: every process that the operating
/// system reports now, each once, in no particular order. The rows are
/// those of one snapshot: none is left out and none is made up.
pub fn snapshot() -> (entries: Vec<ProcessEntry>)
    ensures
        is_snapshot(entries@),
        distinct_pids(entries@),
{
    let mut system = new_system();
    refresh_processes(&mut system, None);
    let entries = list_processes(&system);
    assert(lists_table(entries@, process_table(system)));
    entries
}

/// `sysinfo::System::new`: a snapshot with nothing loaded, so its process
/// table is empty until the first refresh.
#[verifier::external_body]
pub(crate) fn new_system() -> (sys: System)
    ensures
        process_table(sys).dom() == Set::<u32>::empty(),
{
    System::new()
}

/// `sysinfo::System::refresh_processes`, for all processes or for one, with
/// dead processes kept. Nothing is claimed of the snapshot afterwards: it
/// holds whatever the operating system reported.
#[verifier::external_body]
pub(crate) fn refresh_processes(sys: &mut System, only: Option<u32>) {
    match only {
        Some(pid) => sys.refresh_processes(ProcessesToUpdate::Some(&[Pid::from_u32(pid)]), false),
        None => sys.refresh_processes(ProcessesToUpdate::All, false),
    };
}

/// `sysinfo::System::processes`: the rows of the snapshot, each handed out as
/// plain values, in the order in which the underlying hash map is walked.
#[verifier::external_body]
pub(crate) fn list_processes(sys: &System) -> (entries: Vec<ProcessEntry>)
    ensures
        lists_table(entries@, process_table(*sys)),
{
    sys.processes().iter().map(|(pid, p)| ProcessEntry {
        pid: pid.as_u32(),
        name: p.name().to_string_lossy().into_owned(),
        exe_path: p.exe().map(|e| e.to_string_lossy().into_owned()),
    }).collect()
}

/// `sysinfo::System::process`: the row that the snapshot holds under `pid`,
/// handed out as plain values, and `None` where it holds none.
#[verifier::external_body]
pub(crate) fn lookup_process(sys: &System, pid: u32) -> (row: Option<ProcessEntry>)
    ensures
        row is Some <==> process_table(*sys).dom().contains(pid),
        row matches Some(e) ==> e.pid == pid && e.is_row_of(process_table(*sys)),
{
    sys.process(Pid::from_u32(pid)).map(|p| ProcessEntry {
        pid,
        name: p.name().to_string_lossy().into_owned(),
        exe_path: p.exe().map(|e| e.to_string_lossy().into_owned()),
    })
}

/// A fresh look at one process: the row that the operating system reports
/// for `pid` now, and `None` where it reports none. The answer is that of
/// one snapshot: a row is the snapshot's row for `pid`, and there is none
/// only where the snapshot holds no such process.
pub fn probe(pid: u32) -> (row: Option<ProcessEntry>)
    ensures
        is_probe(row, pid),
        row matches Some(e) ==> e.pid == pid,
{
    let mut system = new_system();
    refresh_processes(&mut system, Some(pid));
    let row = lookup_process(&system, pid);
    assert(looked_up(row, pid, process_table(system)));
    row
}

/// `sysinfo::Process::kill`, on the process that the snapshot holds under
/// `pid`: `None` where it holds none, else whether the kill signal could be
/// sent. That it was sent does not mean that the process has ended.
#[verifier::external_body]
pub(crate) fn kill_process(sys: &System, pid: u32) -> (sent: Option<bool>)
    ensures
        sent is Some <==> process_table(*sys).dom().contains(pid),
{
    sys.process(Pid::from_u32(pid)).map(|p| p.kill())
}

} // verus!
