//! What the status indicator shows and what its menu does, as decisions.
//!
//! Drawing the icon, blocking on the event channel and opening files are
//! the application's part. It hands in what happened and gets back what to
//! do.

use crate::app_dirs::joined;
use crate::app_state::{attached_from_a_snapshot, events_for, AppState};
use crate::process::{seen_by_a_probe, texts, Ownership, ProcessView, SpawnRequest};
use crate::process_monitor::{ProcessEvent, StateChangeReason};
use std::path::PathBuf;
use vstd::prelude::*;

verus! {

/// What the indicator shows.
#[derive(Copy, Clone, PartialEq, Eq, Debug, Structural)]
pub enum TrayState {
    Running,
    Stopped,
}

/// What can be chosen from the menu.
#[derive(Debug, Copy, Clone, PartialEq, Eq, Structural)]
pub enum TrayMenuAction {
    StartStop,
    OpenWebUI,
    OpenConfig,
    Exit,
}

/// What woke the loop that keeps the indicator up to date.
#[derive(Debug, Copy, Clone, PartialEq, Eq, Structural)]
pub enum ConsumerInput {
    /// An event arrived.
    Event(ProcessEvent),
    /// Nothing arrived within the poll interval.
    Timeout,
    /// Every sender is gone.
    Disconnected,
}

/// What the loop does once it is awake.
#[derive(Debug, Copy, Clone, PartialEq, Eq, Structural)]
pub enum Wake {
    /// Ask the application state for the current status.
    Recheck,
    /// Leave the loop.
    Shutdown,
}

/// What is to be done for a choice from the menu.
pub enum MenuStep {
    /// Stop the daemon.
    Stop,
    /// Start the daemon with this request.
    Start(SpawnRequest),
    /// Open this address in the browser.
    OpenWebUi(String),
    /// Open this file in the editor, if it exists.
    OpenConfig(PathBuf),
    /// Terminate what the closure policy names, then exit.
    Exit,
}

/// The status that the indicator shows for a state.
pub open spec fn status_of(running: bool) -> TrayState {
    if running {
        TrayState::Running
    } else {
        TrayState::Stopped
    }
}

/// The words for who started the process.
pub open spec fn origin_text(owner: Option<Ownership>) -> Seq<char> {
    match owner {
        Some(Ownership::ManagedByApp) => "started by app"@,
        Some(Ownership::External) => "external"@,
        None => "not running"@,
    }
}

/// What the loop does for what woke it. An event is only a reason to look
/// again, whatever it says; so is a timeout, which catches what no event
/// announced.
pub fn on_wake(input: ConsumerInput) -> (w: Wake)
    ensures
        w == (if input == ConsumerInput::Disconnected {
            Wake::Shutdown
        } else {
            Wake::Recheck
        }),
{
    match input {
        ConsumerInput::Disconnected => Wake::Shutdown,
        ConsumerInput::Event(_) => Wake::Recheck,
        ConsumerInput::Timeout => Wake::Recheck,
    }
}

/// What is to be drawn, given what was drawn last and the status that was
/// just derived: the status where it differs, nothing where it is the
/// same.
pub fn next_render(last: Option<TrayState>, derived: TrayState) -> (draw: Option<TrayState>)
    ensures
        draw == (if last == Some(derived) {
            None
        } else {
            Some(derived)
        }),
{
    match last {
        Some(shown) => if shown == derived {
            None
        } else {
            Some(derived)
        },
        None => Some(derived),
    }
}

/// The label of the first menu entry.
pub fn start_stop_label(state: TrayState) -> (label: &'static str)
    ensures
        label@ == (match state {
            TrayState::Running => "Stop Syncthing"@,
            TrayState::Stopped => "Start Syncthing"@,
        }),
{
    match state {
        TrayState::Running => "Stop Syncthing",
        TrayState::Stopped => "Start Syncthing",
    }
}

/// The name of the icon for a status.
pub fn icon_name(state: TrayState) -> (name: &'static str)
    ensures
        name@ == (match state {
            TrayState::Running => "syncthing_green"@,
            TrayState::Stopped => "syncthing_red"@,
        }),
{
    match state {
        TrayState::Running => "syncthing_green",
        TrayState::Stopped => "syncthing_red",
    }
}

/// The current status and who started the process, after the tracked
/// process was looked at again.
pub fn get_current_process_state(state: &mut AppState) -> (r: (TrayState, String))
    requires
        old(state).wf(),
    ensures
        final(state).wf(),
        final(state).same_setup(old(state)),
        final(state).requested() == old(state).requested(),
        r.0 == status_of(final(state).running()),
        r.1@ == origin_text(
            match final(state).process_view() {
                Some(v) => Some(v.ownership),
                None => None,
            },
        ),
        final(state).running() ==> final(state).process_view() == old(state).process_view(),
        final(state).pending() == old(state).pending() + events_for(
            old(state).running(),
            final(state).running(),
            ProcessEvent::Exited,
        ),
{
    if state.syncthing_running() {
        let started_by_app = match &state.syncthing_process {
            Some(process) => process.is_started_by_app(),
            None => false,
        };
        if started_by_app {
            (TrayState::Running, "started by app".to_owned())
        } else {
            (TrayState::Running, "external".to_owned())
        }
    } else {
        (TrayState::Stopped, "not running".to_owned())
    }
}

/// Whether a tracked process was found alive: it owns a child, or a fresh
/// look at its main process found it.
pub open spec fn found_alive(held: Option<ProcessView>) -> bool {
    held matches Some(v) && (v.has_child || seen_by_a_probe(v.path, v.pid->0, true))
}

/// Whether a tracked process, if there was one, was found gone: it owns no
/// child, and a fresh look at its main process did not find it.
pub open spec fn found_gone(held: Option<ProcessView>) -> bool {
    held matches Some(v) ==> !v.has_child && seen_by_a_probe(v.path, v.pid->0, false)
}

/// The status to show first: running where the tracked process is alive or
/// a process of the daemon is found and attached, stopped otherwise.
///
/// A tracked process that is found alive stays as it was, and nothing is
/// sent. Otherwise it is no longer tracked, and what is tracked then is
/// what a look at one snapshot of the process table leaves; its exit, if
/// there was one to lose, and the detection, if there was one, are
/// announced in that order.
pub fn detect_initial_state(state: &mut AppState) -> (r: TrayState)
    requires
        old(state).wf(),
    ensures
        final(state).wf(),
        final(state).same_setup(old(state)),
        final(state).requested() == old(state).requested(),
        r == status_of(final(state).running()),
        (found_alive(old(state).process_view()) && final(state).process_view() == old(
            state,
        ).process_view() && final(state).pending() == old(state).pending()) || (found_gone(
            old(state).process_view(),
        ) && attached_from_a_snapshot(
            old(state).config.syncthing_path@,
            final(state).running(),
            final(state).process_view(),
        ) && final(state).pending() == old(state).pending() + events_for(
            old(state).running(),
            false,
            ProcessEvent::Exited,
        ) + events_for(
            false,
            final(state).running(),
            ProcessEvent::StateChanged(StateChangeReason::ExternalDetected),
        )),
{
    if state.syncthing_running() {
        assert(state.pending() =~= old(state).pending());
        TrayState::Running
    } else {
        let ghost mid = state.pending();
        let found = state.detect_and_attach_external();
        assert(state.pending() =~= mid + events_for(
            false,
            state.running(),
            ProcessEvent::StateChanged(StateChangeReason::ExternalDetected),
        ));
        match found {
            Ok(true) => TrayState::Running,
            _ => TrayState::Stopped,
        }
    }
}

/// What is to be done for a choice from the menu. Start/Stop stops a
/// daemon that is alive and starts one otherwise.
pub fn plan_menu_action(state: &mut AppState, action: TrayMenuAction) -> (step: MenuStep)
    requires
        old(state).wf(),
    ensures
        final(state).wf(),
        final(state).same_setup(old(state)),
        final(state).requested() == old(state).requested(),
        match action {
            TrayMenuAction::StartStop => (if final(state).running() {
                step is Stop
            } else {
                step matches MenuStep::Start(req) && req.program@ == old(
                    state,
                ).config.syncthing_path@ && texts(req.args@) == texts(
                    old(state).config.startup_args@,
                )
            }) && final(state).pending() == old(state).pending() + events_for(
                old(state).running(),
                final(state).running(),
                ProcessEvent::Exited,
            ),
            TrayMenuAction::OpenWebUI => (step matches MenuStep::OpenWebUi(url) && url@ == old(
                state,
            ).config.web_ui_url@) && *final(state) == *old(state),
            TrayMenuAction::OpenConfig => (step matches MenuStep::OpenConfig(path) && path
                == joined(old(state).app_dirs.base(), "configuration.json"@)) && *final(state)
                == *old(state),
            TrayMenuAction::Exit => step is Exit && *final(state) == *old(state),
        },
{
    match action {
        TrayMenuAction::StartStop => match state.start_plan() {
            Some(req) => MenuStep::Start(req),
            None => MenuStep::Stop,
        },
        TrayMenuAction::OpenWebUI => MenuStep::OpenWebUi(state.config.web_ui_url.clone()),
        TrayMenuAction::OpenConfig => MenuStep::OpenConfig(state.app_dirs.config_file_path()),
        TrayMenuAction::Exit => MenuStep::Exit,
    }
}

} // verus!
