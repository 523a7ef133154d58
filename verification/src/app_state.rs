//! The application state: the configuration, the one process that is
//! tracked, and the events that tell observers to look again.
//!
//! Every change goes through the methods here, one at a time. A method that
//! changes whether a process is tracked puts exactly one event into the
//! outbox; one that changes nothing puts none. The application sends the
//! outbox on after it has let go of the state.
//!
//! The state also keeps a record of the processes that it has asked the
//! operating system to kill, one entry for each request. What a stop or the
//! closure policy may ask for is stated over this record, and the
//! application takes it out to write it to its log.

use crate::app_dirs::AppDirs;
use crate::config::{Config, ProcessClosureBehavior};
use crate::error_handling::{process_failure, AppError};
use crate::process::{
    clone_texts, detection_of, first_match, is_sweep, row_tier, seen_by_a_probe,
    stop_external_syncthing_processes, stop_report, stop_targets_of, texts, ChildStatus,
    KillOutcome, Ownership, ProcessError, ProcessView, SpawnOutcome, SpawnRequest,
    SyncthingProcess,
};
use crate::process_monitor::{ProcessEvent, StateChangeReason};
use crate::system::{is_snapshot, ProcessEntry};
use vstd::prelude::*;

verus! {

/// What is terminated when the application exits.
#[derive(Debug, Clone, Copy, PartialEq, Eq, Structural)]
pub struct ClosurePlan {
    /// The tracked process is stopped through its handle.
    pub stop_tracked: bool,
    /// Every process that carries the executable's name is asked to go,
    /// tracked or not.
    pub sweep: bool,
}

/// The closure policy as a table: what is done under `policy` when a
/// process of the given ownership is tracked, or none is.
pub open spec fn closure_actions(
    policy: ProcessClosureBehavior,
    owner: Option<Ownership>,
) -> ClosurePlan {
    match policy {
        ProcessClosureBehavior::CloseAll => ClosurePlan {
            stop_tracked: owner == Some(Ownership::ManagedByApp),
            sweep: true,
        },
        ProcessClosureBehavior::CloseManaged => ClosurePlan {
            stop_tracked: owner == Some(Ownership::ManagedByApp),
            sweep: false,
        },
        ProcessClosureBehavior::DontClose => ClosurePlan { stop_tracked: false, sweep: false },
    }
}

/// What is terminated at exit under `policy`, given the ownership of the
/// tracked process, if one is tracked.
pub fn closure_plan(policy: ProcessClosureBehavior, owner: Option<Ownership>) -> (plan:
    ClosurePlan)
    ensures
        plan == closure_actions(policy, owner),
{
    let managed = match owner {
        Some(Ownership::ManagedByApp) => true,
        _ => false,
    };
    match policy {
        ProcessClosureBehavior::CloseAll => ClosurePlan { stop_tracked: managed, sweep: true },
        ProcessClosureBehavior::CloseManaged => ClosurePlan { stop_tracked: managed, sweep: false },
        ProcessClosureBehavior::DontClose => ClosurePlan { stop_tracked: false, sweep: false },
    }
}

/// The closure policy, row by row. A process found running is never stopped
/// through its handle; under `CloseAll` it goes with the sweep. Under
/// `DontClose` nothing is done, whatever is tracked.
pub proof fn lemma_closure_policy_table(policy: ProcessClosureBehavior, owner: Option<Ownership>)
    ensures
        closure_actions(policy, owner).stop_tracked <==> policy != ProcessClosureBehavior::DontClose
            && owner == Some(Ownership::ManagedByApp),
        closure_actions(policy, owner).sweep <==> policy == ProcessClosureBehavior::CloseAll,
        owner == Some(Ownership::External) ==> !closure_actions(policy, owner).stop_tracked,
        owner is None ==> !closure_actions(policy, owner).stop_tracked,
        policy == ProcessClosureBehavior::DontClose ==> closure_actions(policy, owner) == (
        ClosurePlan { stop_tracked: false, sweep: false }),
{
}

/// The events owed for a change of whether a process is tracked: one where
/// it changed, none where it did not.
pub open spec fn events_for(before: bool, after: bool, appeared: ProcessEvent) -> Seq<
    ProcessEvent,
> {
    if !before && after {
        seq![appeared]
    } else if before && !after {
        seq![ProcessEvent::Exited]
    } else {
        Seq::empty()
    }
}

/// What is reported where the stop of a process of this ownership was
/// refused by the operating system.
pub open spec fn stop_failure(ownership: Ownership) -> Seq<char> {
    "Failed to stop Syncthing"@ + ": "@ + (match ownership {
        Ownership::ManagedByApp => ProcessError::TerminationFailure.text(),
        Ownership::External => ProcessError::PermissionDenied.text(),
    })
}

/// Whether a look at a listing of the process table came to `hit` and
/// leaves `view` tracked: a process is found exactly where a row matches
/// the identity of the executable at `path`, and what is tracked then is a
/// process that this application did not start, with the process id and
/// the tier of the first row that matches.
pub open spec fn attached_from(
    entries: Seq<ProcessEntry>,
    path: Seq<char>,
    hit: bool,
    view: Option<ProcessView>,
) -> bool {
    &&& hit <==> exists|i: int|
        0 <= i < entries.len() && row_tier(path, #[trigger] entries[i]) is Some
    &&& hit ==> exists|i: int|
        #[trigger] first_match(entries, path, i) && view == Some(
            ProcessView {
                pid: Some(entries[i].pid),
                matched: row_tier(path, entries[i]),
                ..ProcessView::idle(path, Ownership::External)
            },
        )
}

/// Whether a look at one snapshot of the process table came to `hit` and
/// leaves `view` tracked.
pub open spec fn attached_from_a_snapshot(
    path: Seq<char>,
    hit: bool,
    view: Option<ProcessView>,
) -> bool {
    exists|entries: Seq<ProcessEntry>|
        is_snapshot(entries) && #[trigger] attached_from(entries, path, hit, view)
}

/// The tracked process that a handle makes, as plain values.
pub open spec fn view_of(found: Option<SyncthingProcess>) -> Option<ProcessView> {
    match found {
        Some(p) => Some(p@),
        None => None,
    }
}

/// What detection makes of a listing is what is tracked once it is
/// attached: something exactly where a row matches, and then the first such
/// row.
pub proof fn lemma_detection_attaches(
    listing: Seq<ProcessEntry>,
    path: Seq<char>,
    found: Option<SyncthingProcess>,
)
    requires
        detection_of(listing, path, found),
    ensures
        attached_from(listing, path, found is Some, view_of(found)),
{
    if found is Some {
        let p = found->0;
        let i = choose|i: int|
            0 <= i < listing.len() && first_match(listing, path, i) && p@ == (ProcessView {
                pid: Some((#[trigger] listing[i]).pid),
                matched: row_tier(path, listing[i]),
                ..ProcessView::idle(path, Ownership::External)
            });
        assert(row_tier(path, listing[i]) is Some);
        assert(first_match(listing, path, i));
    }
}

/// What a look for a running process comes to: what it found, and nothing
/// where the process table could not be read. A look that fails is no
/// failure of the application; it counts as one that found nothing.
pub fn found_or_nothing(looked: Result<Option<SyncthingProcess>, ProcessError>) -> (found: Option<
    SyncthingProcess,
>)
    ensures
        found == (match looked {
            Ok(f) => f,
            Err(_) => None,
        }),
{
    match looked {
        Ok(f) => f,
        Err(_) => None,
    }
}

/// Whether `ok` says rightly that a stop of the handle `v` succeeded: it
/// fails exactly where the kill request for the main process was refused,
/// and such a request is made exactly if the main process is among the
/// targets of the stop.
pub open spec fn stop_came_to(v: ProcessView, ok: bool) -> bool {
    exists|primary: Option<KillOutcome>|
        (ok <==> #[trigger] stop_report(v.ownership, primary) is Ok) && (primary is Some <==> v.pid
            is Some && stop_targets_of(v).contains(v.pid->0))
}

/// The ownership of what is tracked.
pub open spec fn owner_of(view: Option<ProcessView>) -> Option<Ownership> {
    match view {
        Some(v) => Some(v.ownership),
        None => None,
    }
}

/// The processes that a stop of what is tracked asks to go, in the order in
/// which they are asked: none where nothing is tracked.
pub open spec fn stop_requests(view: Option<ProcessView>) -> Seq<u32> {
    match view {
        Some(v) => stop_targets_of(v),
        None => Seq::empty(),
    }
}

/// The processes that are asked to go when `plan` is carried out on what is
/// tracked, in the order in which they are asked: first the targets of the
/// stop, where the plan names the tracked process, then `swept`, the
/// processes that the sweep found, where the plan names a sweep.
pub open spec fn closure_requests(
    plan: ClosurePlan,
    view: Option<ProcessView>,
    swept: Seq<u32>,
) -> Seq<u32> {
    (if plan.stop_tracked {
        stop_requests(view)
    } else {
        Seq::empty()
    }) + (if plan.sweep {
        swept
    } else {
        Seq::empty()
    })
}

/// Whether the record of kill requests grew from `before` to `after` by
/// what the closure policy asks for, given what was tracked: by the
/// requests of the plan that `closure_actions` gives, where a sweep goes by
/// one snapshot of the process table.
pub open spec fn closure_carried_out(
    policy: ProcessClosureBehavior,
    path: Seq<char>,
    view: Option<ProcessView>,
    before: Seq<u32>,
    after: Seq<u32>,
) -> bool {
    exists|swept: Seq<u32>|
        (closure_actions(policy, owner_of(view)).sweep ==> is_sweep(path, swept)) && after
            == before + #[trigger] closure_requests(
            closure_actions(policy, owner_of(view)),
            view,
            swept,
        )
}

/// The closure policy as it is carried out, row by row. Under `DontClose`
/// no process is asked to go, whatever is tracked. Under `CloseManaged` the
/// targets of the stop of a process that this application started are
/// asked, and nothing is where a process found running is tracked or none
/// is. Under `CloseAll` the same are asked, and after them every process
/// that one sweep finds.
pub proof fn lemma_closure_follows_the_policy(
    policy: ProcessClosureBehavior,
    path: Seq<char>,
    view: Option<ProcessView>,
    before: Seq<u32>,
    after: Seq<u32>,
)
    requires
        closure_carried_out(policy, path, view, before, after),
    ensures
        policy == ProcessClosureBehavior::DontClose ==> after == before,
        policy == ProcessClosureBehavior::CloseManaged ==> after == before + (if owner_of(view)
            == Some(Ownership::ManagedByApp) {
            stop_requests(view)
        } else {
            Seq::empty()
        }),
        policy == ProcessClosureBehavior::CloseAll ==> exists|swept: Seq<u32>| #[trigger]
            is_sweep(path, swept) && after == before + (if owner_of(view) == Some(
                Ownership::ManagedByApp,
            ) {
                stop_requests(view)
            } else {
                Seq::empty()
            }) + swept,
{
    let plan = closure_actions(policy, owner_of(view));
    let swept = choose|swept: Seq<u32>|
        (plan.sweep ==> is_sweep(path, swept)) && after == before + #[trigger] closure_requests(
            plan,
            view,
            swept,
        );
    let stopped = if owner_of(view) == Some(Ownership::ManagedByApp) {
        stop_requests(view)
    } else {
        Seq::empty()
    };
    if policy == ProcessClosureBehavior::DontClose {
        assert(after =~= before);
    }
    if policy == ProcessClosureBehavior::CloseManaged {
        assert(after =~= before + stopped);
    }
    if policy == ProcessClosureBehavior::CloseAll {
        assert(after =~= before + stopped + swept);
        assert(is_sweep(path, swept));
    }
}

/// The application state.
pub struct AppState {
    /// The configuration, which is only read.
    pub config: Config,
    /// The one process that is tracked, if any.
    pub syncthing_process: Option<SyncthingProcess>,
    /// Where the application keeps its files.
    pub app_dirs: AppDirs,
    /// The events that are waiting to be sent, oldest first.
    pub outbox: Vec<ProcessEvent>,
    /// The processes that the operating system was asked to kill and that
    /// were not handed out yet, one entry for each request, oldest first.
    pub asked: Vec<u32>,
}

impl AppState {
    /// Whether the state is consistent: a tracked handle is consistent and
    /// stands for a process. A handle whose process is gone is not kept.
    pub open spec fn wf(&self) -> bool {
        self.syncthing_process matches Some(p) ==> p.wf() && p@.pid is Some
    }

    /// The tracked process as plain values.
    pub open spec fn process_view(&self) -> Option<ProcessView> {
        match self.syncthing_process {
            Some(p) => Some(p@),
            None => None,
        }
    }

    /// Whether a process is tracked. This is what observers see as
    /// running.
    pub open spec fn running(&self) -> bool {
        self.syncthing_process is Some
    }

    /// The events that are waiting to be sent, oldest first.
    pub open spec fn pending(&self) -> Seq<ProcessEvent> {
        self.outbox@
    }

    /// The processes that the operating system was asked to kill and that
    /// were not handed out yet, one entry for each request, oldest first.
    pub open spec fn requested(&self) -> Seq<u32> {
        self.asked@
    }

    /// Everything but the tracked process, the outbox and the record of
    /// kill requests is as in `other`.
    pub open spec fn same_setup(&self, other: &AppState) -> bool {
        self.config == other.config && self.app_dirs == other.app_dirs
    }

    /// Whether the state is consistent, for callers that cannot know.
    pub fn is_well_formed(&self) -> (ok: bool)
        ensures
            ok == self.wf(),
    {
        match &self.syncthing_process {
            Some(process) => process.is_well_formed() && process.pid().is_some(),
            None => true,
        }
    }

    /// The state at start-up, given what the look for a running process
    /// found: that process is tracked, and nothing waits to be sent.
    pub fn with_detected(config: Config, app_dirs: AppDirs, detected: Option<SyncthingProcess>) -> (s:
        AppState)
        requires
            detected matches Some(p) ==> p.wf() && p@.pid is Some,
        ensures
            s.wf(),
            s.config == config,
            s.app_dirs == app_dirs,
            s.pending() == Seq::<ProcessEvent>::empty(),
            s.requested() == Seq::<u32>::empty(),
            s.syncthing_process == detected,
    {
        AppState {
            config,
            syncthing_process: detected,
            app_dirs,
            outbox: Vec::new(),
            asked: Vec::new(),
        }
    }

    /// The state at start-up. A process of the configured executable that is
    /// found running is tracked as one that this application did not start.
    /// The look goes by one snapshot of the process table: something is
    /// tracked exactly where a row of the snapshot matches the identity of
    /// the configured executable, and it is the first such row.
    pub fn new(config: Config, app_dirs: AppDirs) -> (s: AppState)
        ensures
            s.wf(),
            s.config == config,
            s.app_dirs == app_dirs,
            s.pending() == Seq::<ProcessEvent>::empty(),
            s.requested() == Seq::<u32>::empty(),
            attached_from_a_snapshot(config.syncthing_path@, s.running(), s.process_view()),
            s.process_view() matches Some(v) ==> v == (ProcessView {
                pid: v.pid,
                matched: v.matched,
                ..ProcessView::idle(config.syncthing_path@, Ownership::External)
            }),
    {
        let ghost path = config.syncthing_path@;
        let looked = SyncthingProcess::detect_process(config.syncthing_path.as_str(), true);
        let ghost listing = choose|entries: Seq<ProcessEntry>|
            is_snapshot(entries) && #[trigger] detection_of(entries, path, looked->Ok_0);
        let detected = found_or_nothing(looked);
        proof {
            lemma_detection_attaches(listing, path, detected);
        }
        let s = AppState::with_detected(config, app_dirs, detected);
        assert(is_snapshot(listing) && attached_from(listing, path, s.running(), s.process_view()));
        assert(attached_from_a_snapshot(path, s.running(), s.process_view()));
        s
    }

    /// Tracks `process` in place of whatever was tracked. The exit wait of
    /// the handle that gives way is released; the result says for which
    /// process it was registered, if it was. `appeared` is the event sent
    /// where nothing was tracked before.
    pub fn attach(&mut self, process: SyncthingProcess, appeared: ProcessEvent) -> (released: Option<
        u32,
    >)
        requires
            old(self).wf(),
            process.wf(),
            process@.pid is Some,
        ensures
            final(self).wf(),
            final(self).same_setup(old(self)),
            final(self).syncthing_process == Some(process),
            released == (match old(self).process_view() {
                Some(v) => v.monitor,
                None => None,
            }),
            final(self).pending() == old(self).pending() + events_for(
                old(self).running(),
                true,
                appeared,
            ),
            final(self).requested() == old(self).requested(),
    {
        let released = match self.syncthing_process.take() {
            Some(mut prior) => prior.release_monitor(),
            None => {
                self.outbox.push(appeared);
                None
            },
        };
        self.syncthing_process = Some(process);
        released
    }

    /// Looks for a running process of the configured executable and, where
    /// one is found, tracks it as one that this application did not start.
    /// Returns whether one was found.
    ///
    /// The look never fails. It goes by one snapshot of the process table:
    /// a process is found exactly where a row of the snapshot matches the
    /// identity of the configured executable, and what is tracked then is
    /// the first such row.
    pub fn detect_and_attach_external(&mut self) -> (r: Result<bool, AppError>)
        requires
            old(self).wf(),
        ensures
            final(self).wf(),
            final(self).same_setup(old(self)),
            final(self).requested() == old(self).requested(),
            r is Ok,
            r matches Ok(hit) ==> attached_from_a_snapshot(
                old(self).config.syncthing_path@,
                hit,
                final(self).process_view(),
            ),
            r matches Ok(false) ==> final(self).syncthing_process == old(self).syncthing_process
                && final(self).pending() == old(self).pending(),
            r matches Ok(true) ==> (final(self).process_view() matches Some(v) && v == (ProcessView {
                pid: v.pid,
                matched: v.matched,
                ..ProcessView::idle(old(self).config.syncthing_path@, Ownership::External)
            })) && final(self).pending() == old(self).pending() + events_for(
                old(self).running(),
                true,
                ProcessEvent::StateChanged(StateChangeReason::ExternalDetected),
            ),
    {
        let ghost path = self.config.syncthing_path@;
        let looked = SyncthingProcess::detect_process(self.config.syncthing_path.as_str(), true);
        let ghost listing = choose|entries: Seq<ProcessEntry>|
            is_snapshot(entries) && #[trigger] detection_of(entries, path, looked->Ok_0);
        let found = found_or_nothing(looked);
        proof {
            lemma_detection_attaches(listing, path, found);
        }
        match found {
            Some(process) => {
                self.attach(
                    process,
                    ProcessEvent::StateChanged(StateChangeReason::ExternalDetected),
                );
                assert(is_snapshot(listing) && attached_from(
                    listing,
                    path,
                    true,
                    self.process_view(),
                ));
                assert(attached_from_a_snapshot(path, true, self.process_view()));
                Ok(true)
            },
            None => {
                assert(is_snapshot(listing) && attached_from(
                    listing,
                    path,
                    false,
                    self.process_view(),
                ));
                assert(attached_from_a_snapshot(path, false, self.process_view()));
                Ok(false)
            },
        }
    }

    /// Drops the tracked handle if it no longer stands for a process, and
    /// says that the process is gone.
    fn settle(&mut self, process: SyncthingProcess) -> (running: bool)
        requires
            old(self).syncthing_process is None,
            process.wf(),
        ensures
            final(self).wf(),
            final(self).same_setup(old(self)),
            running == (process@.pid is Some),
            final(self).syncthing_process == (if running {
                Some(process)
            } else {
                None
            }),
            final(self).pending() == old(self).pending() + events_for(
                true,
                running,
                ProcessEvent::Exited,
            ),
            final(self).requested() == old(self).requested(),
    {
        if process.pid().is_some() {
            self.syncthing_process = Some(process);
            true
        } else {
            self.outbox.push(ProcessEvent::Exited);
            false
        }
    }

    /// Whether the tracked process is alive. A tracked process that is
    /// found gone is no longer tracked. No other process is looked for.
    pub fn syncthing_running(&mut self) -> (running: bool)
        requires
            old(self).wf(),
        ensures
            final(self).wf(),
            final(self).same_setup(old(self)),
            final(self).requested() == old(self).requested(),
            running == final(self).running(),
            running ==> final(self).process_view() == old(self).process_view(),
            final(self).pending() == old(self).pending() + events_for(
                old(self).running(),
                running,
                ProcessEvent::Exited,
            ),
            old(self).process_view() matches Some(v) ==> (if v.has_child {
                running
            } else {
                seen_by_a_probe(v.path, v.pid->0, running)
            }),
    {
        match self.syncthing_process.take() {
            Some(mut process) => {
                process.is_running();
                self.settle(process)
            },
            None => false,
        }
    }

    /// Takes note of a non-blocking wait on the child of the tracked
    /// process. Where the child is gone the process is no longer tracked.
    /// Returns whether a process is tracked afterwards.
    pub fn child_polled(&mut self, status: ChildStatus) -> (running: bool)
        requires
            old(self).wf(),
        ensures
            final(self).wf(),
            final(self).same_setup(old(self)),
            final(self).requested() == old(self).requested(),
            running == final(self).running(),
            final(self).process_view() == (match old(self).process_view() {
                Some(v) => if v.after_poll(status).pid is Some {
                    Some(v)
                } else {
                    None
                },
                None => None,
            }),
            final(self).pending() == old(self).pending() + events_for(
                old(self).running(),
                running,
                ProcessEvent::Exited,
            ),
    {
        match self.syncthing_process.take() {
            Some(mut process) => {
                process.child_polled(status);
                self.settle(process)
            },
            None => false,
        }
    }

    /// Takes note that the operating system reported the exit of process
    /// `pid`. Where that is the tracked main process it is no longer
    /// tracked; any other report, a repeated one too, changes nothing.
    pub fn handle_process_exit(&mut self, pid: u32)
        requires
            old(self).wf(),
        ensures
            final(self).wf(),
            final(self).same_setup(old(self)),
            final(self).requested() == old(self).requested(),
            final(self).process_view() == after_exit(old(self).process_view(), pid),
            final(self).pending() == old(self).pending() + exit_events(
                old(self).process_view(),
                pid,
            ),
            !exit_clears(old(self).process_view(), pid) ==> final(self).syncthing_process == old(
                self,
            ).syncthing_process,
    {
        let hit = match &self.syncthing_process {
            Some(process) => match process.pid() {
                Some(primary) => primary == pid,
                None => false,
            },
            None => false,
        };
        if hit {
            self.syncthing_process = None;
            self.outbox.push(ProcessEvent::Exited);
        }
    }

    /// What is handed to the operating system to start the daemon from the
    /// configuration.
    pub fn spawn_request(&self) -> (req: SpawnRequest)
        ensures
            req.program@ == self.config.syncthing_path@,
            texts(req.args@) == texts(self.config.startup_args@),
    {
        SpawnRequest {
            program: self.config.syncthing_path.clone(),
            args: clone_texts(&self.config.startup_args),
        }
    }

    /// Says whether the daemon is to be started: it is, with the request
    /// that is returned, unless a tracked process is alive.
    pub fn start_plan(&mut self) -> (plan: Option<SpawnRequest>)
        requires
            old(self).wf(),
        ensures
            final(self).wf(),
            final(self).same_setup(old(self)),
            final(self).requested() == old(self).requested(),
            plan is None <==> final(self).running(),
            final(self).running() ==> final(self).process_view() == old(self).process_view(),
            final(self).pending() == old(self).pending() + events_for(
                old(self).running(),
                final(self).running(),
                ProcessEvent::Exited,
            ),
            plan matches Some(req) ==> req.program@ == old(self).config.syncthing_path@ && texts(
                req.args@,
            ) == texts(old(self).config.startup_args@),
    {
        if self.syncthing_running() {
            None
        } else {
            Some(self.spawn_request())
        }
    }

    /// Takes note of what came of starting the daemon. A child that was
    /// started is tracked from now on, as a process that this application
    /// started, in place of whatever was tracked. A start that failed
    /// changes nothing and is reported.
    pub fn start_syncthing(&mut self, spawned: SpawnOutcome) -> (r: Result<(), AppError>)
        requires
            old(self).wf(),
        ensures
            final(self).wf(),
            final(self).same_setup(old(self)),
            final(self).requested() == old(self).requested(),
            match spawned {
                SpawnOutcome::Spawned(pid) => r is Ok && (final(self).process_view() matches Some(
                    v,
                ) && v == (ProcessView {
                    pid: Some(pid),
                    has_child: true,
                    tree: v.tree,
                    ..ProcessView::idle(
                        old(self).config.syncthing_path@,
                        Ownership::ManagedByApp,
                    )
                }) && v.tree.contains(pid)) && final(self).pending() == old(self).pending()
                    + events_for(old(self).running(), true, ProcessEvent::Started),
                SpawnOutcome::Failed(msg) => (r matches Err(AppError::Process(m)) && m@
                    == "Failed to start Syncthing"@ + ": "@ + msg@)
                    && final(self).syncthing_process == old(self).syncthing_process
                    && final(self).pending() == old(self).pending(),
            },
    {
        let mut process = SyncthingProcess::new(self.config.syncthing_path.as_str());
        match process.start(spawned) {
            Ok(()) => {
                proof {
                    assert(process@.tree.to_set().contains(process@.pid->0));
                }
                self.attach(process, ProcessEvent::Started);
                Ok(())
            },
            Err(e) => Err(process_failure("Failed to start Syncthing", e.message().as_str())),
        }
    }

    /// Takes the kill requests that `log` holds from position `from` on
    /// into the record of the state, in their order.
    fn note_requests(&mut self, log: &Vec<u32>, from: usize)
        requires
            from <= log.len(),
        ensures
            final(self).requested() == old(self).requested() + log@.skip(from as int),
            final(self).same_setup(old(self)),
            final(self).syncthing_process == old(self).syncthing_process,
            final(self).pending() == old(self).pending(),
    {
        let mut i: usize = from;
        assert(log@.subrange(from as int, from as int) =~= Seq::<u32>::empty());
        assert(self.asked@ + Seq::<u32>::empty() =~= self.asked@);
        while i < log.len()
            invariant
                from <= i <= log.len(),
                self.asked@ == old(self).asked@ + log@.subrange(from as int, i as int),
                self.same_setup(old(self)),
                self.syncthing_process == old(self).syncthing_process,
                self.outbox == old(self).outbox,
            decreases log.len() - i,
        {
            self.asked.push(log[i]);
            assert(log@.subrange(from as int, i + 1) =~= log@.subrange(from as int, i as int).push(
                log@[i as int],
            ));
            assert((old(self).asked@ + log@.subrange(from as int, i as int)).push(log@[i as int])
                =~= old(self).asked@ + log@.subrange(from as int, i + 1));
            i += 1;
        }
        assert(log@.subrange(from as int, log.len() as int) =~= log@.skip(from as int));
    }

    /// Stops the tracked process, if there is one, and tracks nothing
    /// afterwards, whatever came of the stop. A process that this
    /// application started is stopped with its process tree; of one found
    /// running only the main process is asked to go. A refusal by the
    /// operating system is reported.
    ///
    /// The record of kill requests grows by the targets of the stop, in
    /// their order, and by nothing else.
    pub fn stop_syncthing(&mut self) -> (r: Result<(), AppError>)
        requires
            old(self).wf(),
        ensures
            final(self).wf(),
            final(self).same_setup(old(self)),
            final(self).requested() == old(self).requested() + stop_requests(
                old(self).process_view(),
            ),
            final(self).syncthing_process is None,
            final(self).pending() == old(self).pending() + events_for(
                old(self).running(),
                false,
                ProcessEvent::Exited,
            ),
            !old(self).running() ==> r is Ok,
            old(self).process_view() matches Some(v) ==> stop_came_to(v, r is Ok),
            r matches Err(e) ==> (old(self).process_view() matches Some(v) && (
            e matches AppError::Process(m) && m@ == stop_failure(v.ownership))),
    {
        match self.syncthing_process.take() {
            Some(mut process) => {
                let ghost before = process@;
                let from = process.asked().len();
                let stopped = process.stop();
                self.note_requests(process.asked(), from);
                proof {
                    assert((before.asked + stop_targets_of(before)).skip(from as int)
                        =~= stop_targets_of(before));
                    let primary = choose|primary: Option<KillOutcome>|
                        stopped == #[trigger] stop_report(before.ownership, primary) && (primary
                            is Some <==> before.pid is Some && stop_targets_of(before).contains(
                            before.pid->0,
                        ));
                    assert((stopped is Ok <==> stop_report(before.ownership, primary) is Ok) && (
                    primary is Some <==> before.pid is Some && stop_targets_of(before).contains(
                        before.pid->0,
                    )));
                    assert(stop_came_to(before, stopped is Ok));
                }
                self.outbox.push(ProcessEvent::Exited);
                match stopped {
                    Ok(()) => Ok(()),
                    Err(e) => Err(
                        process_failure("Failed to stop Syncthing", e.message().as_str()),
                    ),
                }
            },
            None => {
                assert(self.asked@ + Seq::<u32>::empty() =~= self.asked@);
                Ok(())
            },
        }
    }

    /// Terminates at exit what the configured closure policy names, and
    /// tracks nothing afterwards. A termination that fails is passed over:
    /// the exit always goes on.
    ///
    /// What is asked to go is what `closure_plan` names for the policy and
    /// for who started the tracked process: where the plan names the
    /// tracked process, the targets of its stop; then, where the plan names
    /// a sweep, every process that matches the identity of the configured
    /// executable in a fresh snapshot of the process table. The record of
    /// kill requests grows by exactly these, in this order; under
    /// `DontClose` it does not grow.
    pub fn handle_exit_closure(&mut self) -> (r: Result<(), AppError>)
        requires
            old(self).wf(),
        ensures
            final(self).wf(),
            final(self).same_setup(old(self)),
            final(self).syncthing_process is None,
            final(self).pending() == old(self).pending(),
            r is Ok,
            closure_carried_out(
                old(self).config.process_closure_behavior,
                old(self).config.syncthing_path@,
                old(self).process_view(),
                old(self).requested(),
                final(self).requested(),
            ),
    {
        let owner = match &self.syncthing_process {
            Some(process) => Some(process.ownership()),
            None => None,
        };
        let plan = closure_plan(self.config.process_closure_behavior, owner);
        let ghost view = self.process_view();
        let ghost before = self.requested();
        let ghost path = self.config.syncthing_path@;
        let ghost nothing = Seq::<u32>::empty();
        match self.syncthing_process.take() {
            Some(mut process) => {
                if plan.stop_tracked {
                    let from = process.asked().len();
                    let _ = process.stop();
                    self.note_requests(process.asked(), from);
                    assert((view->0.asked + stop_targets_of(view->0)).skip(from as int)
                        =~= stop_targets_of(view->0));
                }
            },
            None => {},
        }
        let ghost stopped = if plan.stop_tracked {
            stop_requests(view)
        } else {
            nothing
        };
        assert(self.requested() =~= before + stopped);
        if plan.sweep {
            let swept = stop_external_syncthing_processes(self.config.syncthing_path.as_str());
            if let Ok(pids) = swept {
                self.note_requests(&pids, 0);
                assert(pids@.skip(0) =~= pids@);
                assert(self.requested() =~= before + closure_requests(plan, view, pids@));
                assert(closure_carried_out(
                    self.config.process_closure_behavior,
                    path,
                    view,
                    before,
                    self.requested(),
                ));
            }
        } else {
            assert(self.requested() =~= before + closure_requests(plan, view, nothing));
            assert(closure_carried_out(
                self.config.process_closure_behavior,
                path,
                view,
                before,
                self.requested(),
            ));
        }
        Ok(())
    }

    /// Says whether the daemon is to be started at start-up: it is, with
    /// the request that is returned, where the configuration asks for an
    /// automatic launch and no tracked process is alive.
    pub fn check_and_autostart_syncthing(&mut self) -> (plan: Option<SpawnRequest>)
        requires
            old(self).wf(),
        ensures
            final(self).wf(),
            final(self).same_setup(old(self)),
            final(self).requested() == old(self).requested(),
            !old(self).config.auto_launch_internal ==> plan is None
                && final(self).syncthing_process == old(self).syncthing_process
                && final(self).pending() == old(self).pending(),
            old(self).config.auto_launch_internal ==> (plan is None <==> final(self).running())
                && final(self).pending() == old(self).pending() + events_for(
                old(self).running(),
                final(self).running(),
                ProcessEvent::Exited,
            ),
            plan matches Some(req) ==> req.program@ == old(self).config.syncthing_path@ && texts(
                req.args@,
            ) == texts(old(self).config.startup_args@),
    {
        if self.config.auto_launch_internal {
            self.start_plan()
        } else {
            None
        }
    }

    /// Hands out the events that are waiting to be sent, oldest first, and
    /// empties the outbox.
    pub fn drain_events(&mut self) -> (events: Vec<ProcessEvent>)
        ensures
            events@ == old(self).pending(),
            final(self).pending() == Seq::<ProcessEvent>::empty(),
            final(self).same_setup(old(self)),
            final(self).syncthing_process == old(self).syncthing_process,
            final(self).requested() == old(self).requested(),
    {
        let mut events: Vec<ProcessEvent> = Vec::new();
        std::mem::swap(&mut events, &mut self.outbox);
        events
    }

    /// Hands out the record of kill requests, oldest first, and starts it
    /// afresh.
    pub fn drain_requests(&mut self) -> (pids: Vec<u32>)
        ensures
            pids@ == old(self).requested(),
            final(self).requested() == Seq::<u32>::empty(),
            final(self).same_setup(old(self)),
            final(self).syncthing_process == old(self).syncthing_process,
            final(self).pending() == old(self).pending(),
    {
        let mut pids: Vec<u32> = Vec::new();
        std::mem::swap(&mut pids, &mut self.asked);
        pids
    }
}

/// Whether the report of the exit of `pid` ends the tracking of `view`.
pub open spec fn exit_clears(view: Option<ProcessView>, pid: u32) -> bool {
    view matches Some(v) && v.pid == Some(pid)
}

/// What is tracked after the exit of `pid` was reported.
pub open spec fn after_exit(view: Option<ProcessView>, pid: u32) -> Option<ProcessView> {
    if exit_clears(view, pid) {
        None
    } else {
        view
    }
}

/// The events owed for the report of the exit of `pid`.
pub open spec fn exit_events(view: Option<ProcessView>, pid: u32) -> Seq<ProcessEvent> {
    if exit_clears(view, pid) {
        seq![ProcessEvent::Exited]
    } else {
        Seq::empty()
    }
}

/// A second report of the same exit changes nothing and owes no event, and
/// where nothing is tracked no report of any exit does.
pub proof fn lemma_duplicate_exit_is_harmless(view: Option<ProcessView>, pid: u32, again: u32)
    ensures
        after_exit(after_exit(view, pid), pid) == after_exit(view, pid),
        exit_events(after_exit(view, pid), pid) == Seq::<ProcessEvent>::empty(),
        after_exit(None, again) == None::<ProcessView>,
        exit_events(None, again) == Seq::<ProcessEvent>::empty(),
{
}

} // verus!
