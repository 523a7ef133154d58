//! The errors that reach the user.

use vstd::prelude::*;
use vstd::string::StringExecFns;

verus! {

/// A failure, by the part of the application that it came from, with its
/// description.
#[derive(Debug)]
pub enum AppError {
    Config(String),
    Process(String),
    TrayUi(String),
}

impl AppError {
    /// The description without the part that it came from.
    pub open spec fn detail(self) -> Seq<char> {
        match self {
            AppError::Config(m) => m@,
            AppError::Process(m) => m@,
            AppError::TrayUi(m) => m@,
        }
    }

    /// What stands before the description in the message.
    pub open spec fn prefix(self) -> Seq<char> {
        match self {
            AppError::Config(_) => "Configuration error: "@,
            AppError::Process(_) => "Process error: "@,
            AppError::TrayUi(_) => "Tray UI error: "@,
        }
    }

    /// The message shown for this error: the part it came from, then its
    /// description.
    pub fn message(&self) -> (text: String)
        ensures
            text@ == self.prefix() + self.detail(),
    {
        match self {
            AppError::Config(m) => String::from_str("Configuration error: ").concat(m.as_str()),
            AppError::Process(m) => String::from_str("Process error: ").concat(m.as_str()),
            AppError::TrayUi(m) => String::from_str("Tray UI error: ").concat(m.as_str()),
        }
    }
}

/// A process failure whose description is `context`, a colon and a space,
/// and `cause`.
pub fn process_failure(context: &str, cause: &str) -> (e: AppError)
    ensures
        e matches AppError::Process(m) && m@ == context@ + ": "@ + cause@,
{
    AppError::Process(String::from_str(context).concat(": ").concat(cause))
}

} // verus!
