use std::path::PathBuf;
use syncthingers::app_dirs::{AppDirs, AppDirsError};
use syncthingers::error_handling::{process_failure, AppError};
use syncthingers::logging::{log_level_from_str, LogLevel};
use syncthingers::singleton::{
    ensure_singleton, get_show_window_message, InstanceCheck, SingletonError, SingletonGuard,
    WM_USER,
};

#[test]
fn test_config_file_path() {
    let temp_dir = PathBuf::from("/tmp").join("test_app_dirs_config");
    let app_dirs = AppDirs::new(Some(temp_dir.clone())).unwrap();
    let config_path = app_dirs.config_file_path();
    assert_eq!(config_path, temp_dir.join("configuration.json"));
}

#[test]
fn test_log_file_path() {
    let temp_dir = PathBuf::from("/tmp").join("test_app_dirs_log");
    let app_dirs = AppDirs::new(Some(temp_dir.clone())).unwrap();
    let log_path = app_dirs.log_file_path();
    assert_eq!(log_path, temp_dir.join("syncthingers.log"));
}

#[test]
fn app_dirs_take_the_override_as_it_is() {
    let dir = PathBuf::from("relative/dir");
    let app_dirs = AppDirs::new(Some(dir.clone())).unwrap();
    assert_eq!(app_dirs.base_dir(), &dir);
    let app_dirs = AppDirs::resolve(Some(dir.clone()), Some(PathBuf::from("/data"))).unwrap();
    assert_eq!(app_dirs.base_dir(), &dir);
}

#[test]
fn app_dirs_default_lies_under_the_data_directory() {
    let app_dirs = AppDirs::resolve(None, Some(PathBuf::from("/data"))).unwrap();
    assert_eq!(app_dirs.base_dir(), &PathBuf::from("/data/Syncthingers"));
    assert_eq!(
        app_dirs.config_file_path(),
        PathBuf::from("/data/Syncthingers/configuration.json")
    );

    let from_environment = AppDirs::new(None).unwrap();
    assert!(from_environment.base_dir().ends_with("Syncthingers"));
}

#[test]
fn app_dirs_fail_without_any_directory() {
    assert!(matches!(
        AppDirs::resolve(None, None),
        Err(AppDirsError::NotFound)
    ));
}

#[test]
fn error_messages_name_their_origin() {
    assert_eq!(
        AppError::Config("bad file".to_string()).message(),
        "Configuration error: bad file"
    );
    assert_eq!(
        AppError::Process("no start".to_string()).message(),
        "Process error: no start"
    );
    assert_eq!(
        AppError::TrayUi("no icon".to_string()).message(),
        "Tray UI error: no icon"
    );
    assert_eq!(AppError::Process(String::new()).message(), "Process error: ");
}

#[test]
fn process_failures_join_context_and_cause() {
    match process_failure("Failed to stop Syncthing", "Cannot stop external process") {
        AppError::Process(m) => {
            assert_eq!(m, "Failed to stop Syncthing: Cannot stop external process")
        }
        _ => panic!("a process error was expected"),
    }
}

#[test]
fn log_levels_are_named_without_regard_to_case() {
    assert_eq!(log_level_from_str("off"), LogLevel::Off);
    assert_eq!(log_level_from_str("error"), LogLevel::Error);
    assert_eq!(log_level_from_str("warn"), LogLevel::Warn);
    assert_eq!(log_level_from_str("info"), LogLevel::Info);
    assert_eq!(log_level_from_str("debug"), LogLevel::Debug);
    assert_eq!(log_level_from_str("DEBUG"), LogLevel::Debug);
    assert_eq!(log_level_from_str("Warn"), LogLevel::Warn);
    assert_eq!(log_level_from_str("OFF"), LogLevel::Off);
}

#[test]
fn unknown_log_levels_stand_for_info() {
    assert_eq!(log_level_from_str("trace"), LogLevel::Info);
    assert_eq!(log_level_from_str(""), LogLevel::Info);
    assert_eq!(log_level_from_str("debug "), LogLevel::Info);
    assert_eq!(log_level_from_str("warning"), LogLevel::Info);
}

#[test]
fn the_guard_is_given_to_the_first_instance_only() {
    assert!(SingletonGuard::acquire(true, false).is_some());
    assert!(SingletonGuard::acquire(true, true).is_none());
    assert!(SingletonGuard::acquire(false, false).is_none());
    assert!(SingletonGuard::acquire(false, true).is_none());

    assert!(SingletonGuard::must_close(true, true));
    assert!(!SingletonGuard::must_close(true, false));
    assert!(!SingletonGuard::must_close(false, true));
    assert!(!SingletonGuard::must_close(false, false));
}

#[test]
fn the_first_instance_is_told_apart_from_a_second() {
    assert_eq!(ensure_singleton(InstanceCheck::KnownFirst), Ok(true));
    assert_eq!(ensure_singleton(InstanceCheck::NoneFound), Ok(true));
    assert_eq!(
        ensure_singleton(InstanceCheck::OtherFound { answered: true }),
        Ok(false)
    );
    assert_eq!(
        ensure_singleton(InstanceCheck::OtherFound { answered: false }),
        Err(SingletonError::NoAnswer)
    );
}

#[test]
fn the_show_window_message_follows_the_user_range() {
    assert_eq!(WM_USER, 0x0400);
    assert_eq!(get_show_window_message(), 1025);
}
