//! The log levels that the configuration and the command line can name.

use crate::utils::{eq_ignore_ascii_case, eq_ignore_case};
use vstd::prelude::*;

verus! {

/// How much is logged.
#[derive(Debug, Clone, Copy, PartialEq, Eq, Structural)]
pub enum LogLevel {
    Off,
    Error,
    Warn,
    Info,
    Debug,
}

/// The level that a word names, without regard to case. A word that names
/// none stands for `Info`.
pub open spec fn level_of(word: Seq<char>) -> LogLevel {
    if eq_ignore_case(word, "off"@) {
        LogLevel::Off
    } else if eq_ignore_case(word, "error"@) {
        LogLevel::Error
    } else if eq_ignore_case(word, "warn"@) {
        LogLevel::Warn
    } else if eq_ignore_case(word, "info"@) {
        LogLevel::Info
    } else if eq_ignore_case(word, "debug"@) {
        LogLevel::Debug
    } else {
        LogLevel::Info
    }
}

/// The level that `level` names, without regard to case; `Info` where it
/// names none.
pub fn log_level_from_str(level: &str) -> (l: LogLevel)
    ensures
        l == level_of(level@),
{
    if eq_ignore_ascii_case(level, "off") {
        LogLevel::Off
    } else if eq_ignore_ascii_case(level, "error") {
        LogLevel::Error
    } else if eq_ignore_ascii_case(level, "warn") {
        LogLevel::Warn
    } else if eq_ignore_ascii_case(level, "info") {
        LogLevel::Info
    } else if eq_ignore_ascii_case(level, "debug") {
        LogLevel::Debug
    } else {
        LogLevel::Info
    }
}

} // verus!
