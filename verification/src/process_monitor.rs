//! Exit notification: the events that tell an observer to look again, and
//! the token that stands for a registered exit wait.
//!
//! The wait itself is registered with the operating system by the
//! application; the library keeps the token and decides when it is released.

use vstd::prelude::*;

verus! {

/// Why the observable state changed without a start or an exit.
#[derive(Debug, Clone, Copy, PartialEq, Eq, Structural)]
pub enum StateChangeReason {
    /// A process that this application did not start was found and is now
    /// tracked.
    ExternalDetected,
}

/// A signal that the running state may have changed. It carries no details
/// of the process: whoever receives it asks the application state again,
/// which may have moved on since the event was sent.
#[derive(Debug, Clone, Copy, PartialEq, Eq, Structural)]
pub enum ProcessEvent {
    /// A process was started by this application.
    Started,
    /// The tracked process is gone.
    Exited,
    /// The tracked process changed for another reason.
    StateChanged(StateChangeReason),
}

/// The registration of an exit wait for one process. Releasing it
/// unregisters the wait; releasing it again does nothing.
#[derive(Debug)]
pub struct ProcessMonitorHandle {
    pid: u32,
    registered: bool,
}

impl ProcessMonitorHandle {
    /// The process that the wait was registered for.
    pub closed spec fn watched(&self) -> u32 {
        self.pid
    }

    /// Whether the wait is still registered.
    pub closed spec fn active(&self) -> bool {
        self.registered
    }

    /// The process that the wait was registered for.
    pub fn pid(&self) -> (pid: u32)
        ensures
            pid == self.watched(),
    {
        self.pid
    }

    /// Whether the wait is still registered.
    pub fn is_registered(&self) -> (r: bool)
        ensures
            r == self.active(),
    {
        self.registered
    }

    /// Gives the registration up. Returns whether there was one to give up,
    /// which is so for the first call only.
    pub fn release(&mut self) -> (released: bool)
        ensures
            released == old(self).active(),
            !final(self).active(),
            final(self).watched() == old(self).watched(),
    {
        let was = self.registered;
        self.registered = false;
        was
    }
}

/// The token for an exit wait on `pid`, given whether the operating system
/// accepted the registration. Where it did not there is no token, and exits
/// are found by polling alone.
pub fn register_process_exit_monitor(pid: u32, accepted: bool) -> (token: Option<
    ProcessMonitorHandle,
>)
    ensures
        token is Some <==> accepted,
        token matches Some(t) ==> t.watched() == pid && t.active(),
{
    if accepted {
        Some(ProcessMonitorHandle { pid, registered: true })
    } else {
        None
    }
}

} // verus!
