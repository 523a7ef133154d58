//! Supervision of a single long-running sync daemon: finding it in the
//! process table, tracking the handle of a started or detected process,
//! reconciling that handle with what the operating system reports, and
//! deciding what to terminate when the application exits.

pub mod app_dirs;
pub mod app_state;
pub mod config;
pub mod error_handling;
pub mod identity;
pub mod logging;
pub mod process;
pub mod process_monitor;
pub mod singleton;
pub mod system;
pub mod tray;
pub mod tray_ui;
pub mod utils;
