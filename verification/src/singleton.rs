//! One instance of the application at a time.
//!
//! The named mutex is created by the application; the library decides from
//! what came of it whether this instance may run.

use vstd::prelude::*;

verus! {

/// The first number that a window message of the application's own may
/// have.
pub const WM_USER: u32 = 0x0400;

/// The proof that this is the only instance. It is held for as long as the
/// application runs.
#[derive(Debug)]
pub struct SingletonGuard {
    _private: (),
}

impl SingletonGuard {
    /// The guard for this instance, given what came of creating the named
    /// mutex: whether a handle was returned and whether the mutex was there
    /// already. There is none where no handle was returned or another
    /// instance holds the mutex.
    pub fn acquire(created: bool, already_exists: bool) -> (guard: Option<SingletonGuard>)
        ensures
            guard is Some <==> created && !already_exists,
    {
        if created && !already_exists {
            Some(SingletonGuard { _private: () })
        } else {
            None
        }
    }

    /// Whether the handle that creating the mutex returned is to be closed
    /// at once: it is where another instance holds the mutex.
    pub fn must_close(created: bool, already_exists: bool) -> (close: bool)
        ensures
            close == (created && already_exists),
    {
        created && already_exists
    }
}

/// What the look for another instance's window found.
#[derive(Debug, Clone, Copy, PartialEq, Eq, Structural)]
pub enum InstanceCheck {
    /// This process has established before that it is the first instance.
    KnownFirst,
    /// No window of another instance was found.
    NoneFound,
    /// Another instance's window was found and asked to show itself;
    /// whether it answered.
    OtherFound { answered: bool },
}

/// Why the instances could not be told apart.
#[derive(Debug, Clone, Copy, PartialEq, Eq, Structural)]
pub enum SingletonError {
    /// The other instance did not answer.
    NoAnswer,
}

/// Whether this is the first instance: it is where it was known to be or no
/// other was found, and it is not where another one answered. Another one
/// that does not answer is a failure.
pub fn ensure_singleton(check: InstanceCheck) -> (r: Result<bool, SingletonError>)
    ensures
        r == (match check {
            InstanceCheck::KnownFirst => Ok::<bool, SingletonError>(true),
            InstanceCheck::NoneFound => Ok(true),
            InstanceCheck::OtherFound { answered: true } => Ok(false),
            InstanceCheck::OtherFound { answered: false } => Err(SingletonError::NoAnswer),
        }),
{
    match check {
        InstanceCheck::KnownFirst => Ok(true),
        InstanceCheck::NoneFound => Ok(true),
        InstanceCheck::OtherFound { answered } => if answered {
            Ok(false)
        } else {
            Err(SingletonError::NoAnswer)
        },
    }
}

/// The number of the message that asks a running instance to show itself.
pub fn get_show_window_message() -> (id: u32)
    ensures
        id == WM_USER + 1,
{
    WM_USER + 1
}

} // verus!
