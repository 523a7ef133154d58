//! The actions of the plain tray menu, and what the tray shows for a
//! status text.

use crate::utils::{contains, contains_text};
use vstd::prelude::*;
use vstd::string::StringExecFns;

verus! {

/// What can be chosen from the plain tray menu.
#[derive(Debug, Clone, Copy, PartialEq, Eq, Structural)]
pub enum TrayAction {
    StartSyncthing,
    StopSyncthing,
    OpenWebUI,
    OpenConfig,
    Exit,
}

/// The icon shown while the daemon is not running.
pub const ICON_STOPPED: &'static str = "resources/icons/syncthing_stopped.ico";

/// The icon shown while the daemon is running.
pub const ICON_RUNNING: &'static str = "resources/icons/syncthing_running.ico";

/// The icon for whether the daemon is running.
pub fn icon_for(syncthing_running: bool) -> (icon: &'static str)
    ensures
        icon@ == (if syncthing_running {
            ICON_RUNNING@
        } else {
            ICON_STOPPED@
        }),
{
    if syncthing_running {
        ICON_RUNNING
    } else {
        ICON_STOPPED
    }
}

/// The status in words.
pub fn status_text(syncthing_running: bool) -> (text: &'static str)
    ensures
        text@ == (if syncthing_running {
            "Syncthing is running"@
        } else {
            "Syncthing is not running"@
        }),
{
    if syncthing_running {
        "Syncthing is running"
    } else {
        "Syncthing is not running"
    }
}

/// The title of the tray for a status text: the application's name, a
/// dash, and the status.
pub fn tooltip_title(status: &str) -> (title: String)
    ensures
        title@ == "Syncthingers - "@ + status@,
{
    String::from_str("Syncthingers - ").concat(status)
}

/// The icon that goes with a status text: the running icon where the text
/// holds the word `running`.
pub fn icon_for_status(status: &str) -> (icon: &'static str)
    ensures
        icon@ == (if contains_text(status@, "running"@) {
            ICON_RUNNING@
        } else {
            ICON_STOPPED@
        }),
{
    icon_for(contains(status, "running"))
}

} // verus!
