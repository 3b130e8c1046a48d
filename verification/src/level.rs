//! The ordered severity scale and its numeric encoding.

use vstd::prelude::*;

verus! {

/// A message's severity, from least (`Verbose`) to most (`Error`) important.
#[derive(Clone, Copy, Debug, PartialEq, Eq, Structural)]
pub enum LogLevel {
    Verbose,
    Info,
    Debug,
    Warn,
    Error,
}

/// The rank of a severity: strictly increasing with importance, used only
/// for comparison when filtering.
pub open spec fn spec_rank(level: LogLevel) -> int {
    match level {
        LogLevel::Verbose => 1,
        LogLevel::Info => 2,
        LogLevel::Debug => 3,
        LogLevel::Warn => 4,
        LogLevel::Error => 5,
    }
}

/// The canonical uppercase name of a severity.
pub open spec fn name_of(level: LogLevel) -> Seq<char> {
    match level {
        LogLevel::Verbose => "VERBOSE"@,
        LogLevel::Info => "INFO"@,
        LogLevel::Debug => "DEBUG"@,
        LogLevel::Warn => "WARN"@,
        LogLevel::Error => "ERROR"@,
    }
}

/// The severity selected by a numeric verbosity argument: the recognized
/// codes pick their level, anything else falls back to the most permissive.
pub open spec fn spec_level_from_number(n: u8) -> LogLevel {
    if n == 5 {
        LogLevel::Error
    } else if n == 4 {
        LogLevel::Warn
    } else if n == 3 {
        LogLevel::Debug
    } else if n == 2 {
        LogLevel::Info
    } else {
        LogLevel::Verbose
    }
}

impl LogLevel {
    /// The numeric rank of this severity.
    pub fn rank(&self) -> (r: u8)
        ensures
            r == spec_rank(*self),
    {
        match self {
            LogLevel::Verbose => 1,
            LogLevel::Info => 2,
            LogLevel::Debug => 3,
            LogLevel::Warn => 4,
            LogLevel::Error => 5,
        }
    }

    /// The canonical uppercase name of this severity.
    pub fn to_string(&self) -> (r: &'static str)
        ensures
            r@ == name_of(*self),
    {
        match self {
            LogLevel::Verbose => "VERBOSE",
            LogLevel::Info => "INFO",
            LogLevel::Debug => "DEBUG",
            LogLevel::Warn => "WARN",
            LogLevel::Error => "ERROR",
        }
    }
}

/// Maps a numeric verbosity to its severity; unrecognized codes select
/// `Verbose`, the most permissive level.
pub fn level_from_number(n: u8) -> (r: LogLevel)
    ensures
        r == spec_level_from_number(n),
{
    match n {
        5 => LogLevel::Error,
        4 => LogLevel::Warn,
        3 => LogLevel::Debug,
        2 => LogLevel::Info,
        _ => LogLevel::Verbose,
    }
}

} // verus!
