use std::path::PathBuf;
use syncthingers::app_dirs::AppDirs;
use syncthingers::app_state::{closure_plan, found_or_nothing, AppState, ClosurePlan};
use syncthingers::config::{Config, ProcessClosureBehavior};
use syncthingers::error_handling::AppError;
use syncthingers::process::{
    ChildStatus, Ownership, ProcessError, SpawnOutcome, SyncthingProcess,
};
use syncthingers::process_monitor::{
    register_process_exit_monitor, ProcessEvent, StateChangeReason,
};

/// A process id that no process in a test run has.
const NO_SUCH_PID: u32 = 3_999_998;

fn create_test_config(closure_behavior: ProcessClosureBehavior) -> Config {
    Config {
        process_closure_behavior: closure_behavior,
        ..Config::default()
    }
}

/// A state for an executable that no process on this machine runs.
fn quiet_state(closure_behavior: ProcessClosureBehavior) -> AppState {
    let config = Config {
        syncthing_path: "nonexistent_test_syncthing.exe".to_string(),
        startup_args: vec![],
        process_closure_behavior: closure_behavior,
        ..Config::default()
    };
    AppState::new(config, AppDirs::new(Some(PathBuf::from("/tmp/syncthingers"))).unwrap())
}

#[test]
fn test_handle_exit_closure_dont_close() {
    let config = create_test_config(ProcessClosureBehavior::DontClose);
    let mut app_state = AppState::new(config, AppDirs::new(None).unwrap());

    let result = app_state.handle_exit_closure();
    assert!(result.is_ok());
}

#[test]
fn test_handle_exit_closure_close_managed_no_process() {
    let config = create_test_config(ProcessClosureBehavior::CloseManaged);
    let mut app_state = AppState::new(config, AppDirs::new(None).unwrap());

    let result = app_state.handle_exit_closure();
    assert!(result.is_ok());
}

#[test]
fn test_handle_exit_closure_close_managed_with_external() {
    let config = create_test_config(ProcessClosureBehavior::CloseManaged);
    let mut app_state = AppState::new(config, AppDirs::new(None).unwrap());
    app_state.syncthing_process = Some(SyncthingProcess::mock_for_testing(false));

    let result = app_state.handle_exit_closure();
    assert!(result.is_ok());
}

#[test]
fn test_handle_exit_closure_close_managed_with_managed() {
    let config = create_test_config(ProcessClosureBehavior::CloseManaged);
    let mut app_state = AppState::new(config, AppDirs::new(None).unwrap());

    app_state.syncthing_process = Some(SyncthingProcess::mock_for_testing(true));

    let result = app_state.handle_exit_closure();
    assert!(result.is_ok());
    assert!(app_state.syncthing_process.is_none());
}

#[test]
fn test_handle_exit_closure_close_all() {
    let config = create_test_config(ProcessClosureBehavior::CloseAll);
    let mut app_state = AppState::new(config, AppDirs::new(None).unwrap());

    app_state.syncthing_process = Some(SyncthingProcess::mock_for_testing(false));

    let result = app_state.handle_exit_closure();
    assert!(result.is_ok());
    assert!(app_state.syncthing_process.is_none());
}

#[test]
fn closure_policy_table() {
    let managed = Some(Ownership::ManagedByApp);
    let external = Some(Ownership::External);
    let all = ProcessClosureBehavior::CloseAll;
    let own = ProcessClosureBehavior::CloseManaged;
    let none = ProcessClosureBehavior::DontClose;
    let plan = |stop_tracked, sweep| ClosurePlan { stop_tracked, sweep };

    assert_eq!(closure_plan(all, None), plan(false, true));
    assert_eq!(closure_plan(all, managed), plan(true, true));
    assert_eq!(closure_plan(all, external), plan(false, true));

    assert_eq!(closure_plan(own, None), plan(false, false));
    assert_eq!(closure_plan(own, managed), plan(true, false));
    assert_eq!(closure_plan(own, external), plan(false, false));

    assert_eq!(closure_plan(none, None), plan(false, false));
    assert_eq!(closure_plan(none, managed), plan(false, false));
    assert_eq!(closure_plan(none, external), plan(false, false));
}

#[test]
fn exit_closure_sends_no_event_and_keeps_the_configuration() {
    for policy in [
        ProcessClosureBehavior::CloseAll,
        ProcessClosureBehavior::CloseManaged,
        ProcessClosureBehavior::DontClose,
    ] {
        let mut state = quiet_state(policy);
        state.syncthing_process = Some(SyncthingProcess::mock_for_testing(false));
        assert!(state.handle_exit_closure().is_ok());
        assert!(state.syncthing_process.is_none());
        assert!(state.outbox.is_empty());
        assert_eq!(state.config.process_closure_behavior, policy);
        assert_eq!(state.config.syncthing_path, "nonexistent_test_syncthing.exe");
    }
}

#[test]
fn nothing_is_tracked_at_start_where_nothing_runs() {
    let state = quiet_state(ProcessClosureBehavior::CloseManaged);
    assert!(state.syncthing_process.is_none());
    assert!(state.outbox.is_empty());
}

#[test]
fn what_was_detected_is_tracked_whatever_the_path() {
    let config = Config {
        syncthing_path: "mock_syncthing".to_string(),
        ..Config::default()
    };
    let dirs = AppDirs::new(Some(PathBuf::from("/tmp/syncthingers"))).unwrap();
    let found = Some(SyncthingProcess::mock_for_testing(false));
    let state = AppState::with_detected(config, dirs, found);
    let process = state.syncthing_process.as_ref().unwrap();
    assert_eq!(process.pid(), Some(12345));
    assert_eq!(process.ownership(), Ownership::External);
    assert!(state.outbox.is_empty());
}

#[test]
fn a_failed_look_counts_as_nothing_found() {
    assert!(found_or_nothing(Ok(None)).is_none());
    assert!(found_or_nothing(Err(ProcessError::PermissionDenied)).is_none());
    let found = found_or_nothing(Ok(Some(SyncthingProcess::external("/opt/syncthing", 7, None))));
    assert_eq!(found.unwrap().pid(), Some(7));
}

#[test]
fn a_detected_process_is_attached_at_start() {
    let config = Config {
        syncthing_path: "/opt/syncthing".to_string(),
        ..Config::default()
    };
    let dirs = AppDirs::new(Some(PathBuf::from("/tmp/syncthingers"))).unwrap();
    let found = Some(SyncthingProcess::external("/opt/syncthing", NO_SUCH_PID, None));
    let state = AppState::with_detected(config, dirs, found);
    let process = state.syncthing_process.as_ref().unwrap();
    assert_eq!(process.pid(), Some(NO_SUCH_PID));
    assert_eq!(process.ownership(), Ownership::External);
    assert!(state.outbox.is_empty());
}

#[test]
fn attaching_replaces_the_prior_handle_and_releases_its_monitor() {
    let mut state = quiet_state(ProcessClosureBehavior::CloseManaged);

    let mut first = SyncthingProcess::external("a", 100, None);
    first.attach_monitor(register_process_exit_monitor(100, true).unwrap());
    assert_eq!(state.attach(first, ProcessEvent::Started), None);
    assert_eq!(state.syncthing_process.as_ref().unwrap().pid(), Some(100));
    assert_eq!(state.outbox, vec![ProcessEvent::Started]);

    // The second handle takes the place of the first; no second event.
    let second = SyncthingProcess::external("b", 200, None);
    assert_eq!(state.attach(second, ProcessEvent::Started), Some(100));
    let kept = state.syncthing_process.as_ref().unwrap();
    assert_eq!(kept.pid(), Some(200));
    assert_eq!(kept.syncthing_path(), "b");
    assert_eq!(state.outbox, vec![ProcessEvent::Started]);

    // A handle without a monitor has none to release.
    let third = SyncthingProcess::external("c", 300, None);
    assert_eq!(state.attach(third, ProcessEvent::Started), None);
    assert_eq!(state.syncthing_process.as_ref().unwrap().pid(), Some(300));
}

#[test]
fn duplicate_exit_reports_are_harmless() {
    let mut state = quiet_state(ProcessClosureBehavior::CloseManaged);
    state.attach(SyncthingProcess::external("a", 100, None), ProcessEvent::Started);
    state.drain_events();

    // The exit of another process changes nothing.
    state.handle_process_exit(101);
    assert_eq!(state.syncthing_process.as_ref().unwrap().pid(), Some(100));
    assert!(state.outbox.is_empty());

    state.handle_process_exit(100);
    assert!(state.syncthing_process.is_none());
    assert_eq!(state.outbox, vec![ProcessEvent::Exited]);

    // The same report again: nothing more.
    state.handle_process_exit(100);
    state.handle_process_exit(100);
    assert!(state.syncthing_process.is_none());
    assert_eq!(state.outbox, vec![ProcessEvent::Exited]);
    assert!(!state.syncthing_running());
    assert_eq!(state.outbox, vec![ProcessEvent::Exited]);
}

#[test]
fn start_tracks_the_child_and_sends_one_event() {
    let mut state = quiet_state(ProcessClosureBehavior::CloseManaged);
    let req = state.start_plan().expect("nothing is running");
    assert_eq!(req.program, "nonexistent_test_syncthing.exe");
    assert!(req.args.is_empty());

    assert!(state.start_syncthing(SpawnOutcome::Spawned(NO_SUCH_PID)).is_ok());
    let process = state.syncthing_process.as_ref().unwrap();
    assert_eq!(process.pid(), Some(NO_SUCH_PID));
    assert_eq!(process.ownership(), Ownership::ManagedByApp);
    assert!(process.owns_child());
    assert!(process.tracked_pids().contains(&NO_SUCH_PID));
    assert_eq!(state.outbox, vec![ProcessEvent::Started]);

    // Running now: no second start is planned and no event is sent.
    assert!(state.syncthing_running());
    assert!(state.start_plan().is_none());
    assert_eq!(state.outbox, vec![ProcessEvent::Started]);

    assert_eq!(state.drain_events(), vec![ProcessEvent::Started]);
    assert!(state.outbox.is_empty());
    assert!(state.drain_events().is_empty());
}

#[test]
fn a_failed_start_is_reported_and_sends_nothing() {
    let mut state = quiet_state(ProcessClosureBehavior::CloseManaged);
    let r = state.start_syncthing(SpawnOutcome::Failed("Access is denied".to_string()));
    match r {
        Err(AppError::Process(m)) => {
            assert_eq!(m, "Failed to start Syncthing: Access is denied")
        }
        _ => panic!("a process error was expected"),
    }
    assert!(state.syncthing_process.is_none());
    assert!(state.outbox.is_empty());
}

#[test]
fn the_exit_of_the_child_ends_the_tracking_with_one_event() {
    let mut state = quiet_state(ProcessClosureBehavior::CloseManaged);
    state.start_syncthing(SpawnOutcome::Spawned(NO_SUCH_PID)).unwrap();
    state.drain_events();

    assert!(state.child_polled(ChildStatus::Running));
    assert!(state.outbox.is_empty());

    assert!(!state.child_polled(ChildStatus::Exited));
    assert!(state.syncthing_process.is_none());
    assert_eq!(state.outbox, vec![ProcessEvent::Exited]);

    assert!(!state.child_polled(ChildStatus::Exited));
    assert!(!state.syncthing_running());
    assert_eq!(state.outbox, vec![ProcessEvent::Exited]);
}

#[test]
fn a_poll_finds_a_vanished_external_process() {
    let mut state = quiet_state(ProcessClosureBehavior::CloseManaged);
    state.attach(
        SyncthingProcess::external("a", NO_SUCH_PID, None),
        ProcessEvent::StateChanged(StateChangeReason::ExternalDetected),
    );
    assert_eq!(
        state.drain_events(),
        vec![ProcessEvent::StateChanged(StateChangeReason::ExternalDetected)]
    );
    assert!(!state.syncthing_running());
    assert!(state.syncthing_process.is_none());
    assert_eq!(state.outbox, vec![ProcessEvent::Exited]);
    assert!(!state.syncthing_running());
    assert_eq!(state.outbox, vec![ProcessEvent::Exited]);
}

#[test]
fn stop_ends_the_tracking_with_one_event() {
    let mut state = quiet_state(ProcessClosureBehavior::CloseManaged);
    // Nothing tracked: nothing to do, nothing to send.
    assert!(state.stop_syncthing().is_ok());
    assert!(state.outbox.is_empty());

    state.start_syncthing(SpawnOutcome::Spawned(NO_SUCH_PID)).unwrap();
    state.drain_events();
    assert!(state.stop_syncthing().is_ok());
    assert!(state.syncthing_process.is_none());
    assert_eq!(state.outbox, vec![ProcessEvent::Exited]);

    // A second stop finds nothing.
    assert!(state.stop_syncthing().is_ok());
    assert_eq!(state.outbox, vec![ProcessEvent::Exited]);
}

#[test]
fn stop_records_what_it_asked_to_go() {
    let mut state = quiet_state(ProcessClosureBehavior::CloseManaged);
    assert!(state.stop_syncthing().is_ok());
    assert!(state.asked.is_empty());

    state.start_syncthing(SpawnOutcome::Spawned(NO_SUCH_PID)).unwrap();
    assert!(state.asked.is_empty());
    assert!(state.stop_syncthing().is_ok());
    assert_eq!(state.asked, vec![NO_SUCH_PID]);

    state.attach(
        SyncthingProcess::external("nonexistent_test_syncthing.exe", NO_SUCH_PID - 1, None),
        ProcessEvent::StateChanged(StateChangeReason::ExternalDetected),
    );
    assert!(state.stop_syncthing().is_ok());
    assert_eq!(state.asked, vec![NO_SUCH_PID, NO_SUCH_PID - 1]);

    assert_eq!(state.drain_requests(), vec![NO_SUCH_PID, NO_SUCH_PID - 1]);
    assert!(state.asked.is_empty());
    assert!(state.drain_requests().is_empty());
    assert_eq!(
        state.drain_events(),
        vec![
            ProcessEvent::Started,
            ProcessEvent::Exited,
            ProcessEvent::StateChanged(StateChangeReason::ExternalDetected),
            ProcessEvent::Exited,
        ]
    );
}

#[test]
fn exit_closure_asks_what_the_policy_names() {
    let all = ProcessClosureBehavior::CloseAll;
    let own = ProcessClosureBehavior::CloseManaged;
    let none = ProcessClosureBehavior::DontClose;

    // Nothing tracked, and no process of the executable runs.
    for policy in [all, own, none] {
        let mut state = quiet_state(policy);
        assert!(state.handle_exit_closure().is_ok());
        assert!(state.asked.is_empty());
    }

    // A process that this application started.
    for (policy, expected) in [
        (all, vec![NO_SUCH_PID]),
        (own, vec![NO_SUCH_PID]),
        (none, vec![]),
    ] {
        let mut state = quiet_state(policy);
        state.start_syncthing(SpawnOutcome::Spawned(NO_SUCH_PID)).unwrap();
        assert!(state.handle_exit_closure().is_ok());
        assert!(state.syncthing_process.is_none());
        assert_eq!(state.asked, expected);
    }

    // A process that was found running: never stopped through its handle,
    // and gone from the process table, so that no sweep finds it.
    for policy in [all, own, none] {
        let mut state = quiet_state(policy);
        state.attach(
            SyncthingProcess::external("nonexistent_test_syncthing.exe", NO_SUCH_PID, None),
            ProcessEvent::StateChanged(StateChangeReason::ExternalDetected),
        );
        assert!(state.handle_exit_closure().is_ok());
        assert!(state.syncthing_process.is_none());
        assert!(state.asked.is_empty());
    }
}

#[test]
fn looking_and_starting_ask_for_nothing() {
    let mut state = quiet_state(ProcessClosureBehavior::CloseAll);
    state.start_syncthing(SpawnOutcome::Spawned(NO_SUCH_PID)).unwrap();
    assert!(state.syncthing_running());
    assert!(!state.child_polled(ChildStatus::Exited));
    assert!(!state.syncthing_running());
    assert!(matches!(state.detect_and_attach_external(), Ok(false)));
    state.handle_process_exit(NO_SUCH_PID);
    assert!(state.start_plan().is_some());
    assert!(state.asked.is_empty());
}

#[test]
fn detection_without_a_match_changes_nothing() {
    let mut state = quiet_state(ProcessClosureBehavior::CloseManaged);
    assert!(matches!(state.detect_and_attach_external(), Ok(false)));
    assert!(state.syncthing_process.is_none());
    assert!(state.outbox.is_empty());
}

#[test]
fn autostart_is_planned_only_where_configured() {
    let mut state = quiet_state(ProcessClosureBehavior::CloseManaged);
    assert!(state.check_and_autostart_syncthing().is_none());

    state.config.auto_launch_internal = true;
    state.config.startup_args = vec!["-no-browser".to_string()];
    let req = state.check_and_autostart_syncthing().unwrap();
    assert_eq!(req.program, "nonexistent_test_syncthing.exe");
    assert_eq!(req.args, vec!["-no-browser"]);

    state.start_syncthing(SpawnOutcome::Spawned(NO_SUCH_PID)).unwrap();
    assert!(state.check_and_autostart_syncthing().is_none());
}

#[test]
fn spawn_request_comes_from_the_configuration() {
    let mut state = quiet_state(ProcessClosureBehavior::CloseManaged);
    state.config.startup_args = vec!["a b".to_string(), "-c".to_string()];
    let req = state.spawn_request();
    assert_eq!(req.program, "nonexistent_test_syncthing.exe");
    assert_eq!(req.args, vec!["a b", "-c"]);
}
