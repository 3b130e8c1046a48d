//! The remote-call boundary: the named entry points a host process invokes,
//! over plain argument values. A malformed or missing argument never fails a
//! call; the handler leaves the configuration untouched and replies null.
//!
//! The caller looks each named argument up in the request and probes the
//! filesystem for `set_log_destination`; the decisions on those plain values
//! are made here.

use vstd::prelude::*;

use crate::level::{level_from_number, spec_level_from_number, LogLevel};
use crate::logger::{write_effect, Logger, WriteAction};

verus! {

/// A typed argument value of a remote call, as far as the handlers tell
/// values apart: a number is already narrowed to the byte the verbosity
/// mapping reads.
#[derive(Debug, PartialEq)]
pub enum CallValue {
    Null,
    Bool(bool),
    Number(u8),
    Text(String),
}

/// The severity a `set_log_destination` call asks for: its numeric
/// `verbosity` argument when one is given, else the most permissive level.
pub open spec fn requested_level(verbosity: Option<CallValue>) -> LogLevel {
    match verbosity {
        Some(CallValue::Number(n)) => spec_level_from_number(n),
        _ => LogLevel::Verbose,
    }
}

/// The backend a destination string resolves to: an existing regular file
/// selects the single-file backend, an existing directory the rotating one,
/// the literal `"none"` discards everything, and anything else falls back to
/// the console. The requested severity is installed together with the
/// destination.
pub open spec fn resolved(
    dest: Seq<char>,
    dest_is_file: bool,
    dest_is_dir: bool,
    level: LogLevel,
    l: Logger,
) -> bool {
    if dest_is_file {
        l matches Logger::File { verbosity, file_path } && verbosity == level && file_path@
            == dest
    } else if dest_is_dir {
        l matches Logger::Dir { verbosity, dir_path } && verbosity == level && dir_path@ == dest
    } else if dest == "none"@ {
        l is Discard
    } else {
        l == (Logger::Console { verbosity: level })
    }
}

/// Handles a `setVerbosity` call: a numeric argument re-ranks the active
/// backend in place; a missing or non-numeric one changes nothing. The
/// reply is always null.
pub fn set_verbosity(logger: &mut Logger, verbosity: Option<CallValue>) -> (r: CallValue)
    ensures
        r is Null,
        (match verbosity {
            Some(CallValue::Number(n)) => *final(logger) == old(logger).with_verbosity(
                spec_level_from_number(n),
            ),
            _ => *final(logger) == *old(logger),
        }),
{
    match verbosity {
        Some(CallValue::Number(n)) => {
            logger.set_verbosity(level_from_number(n));
        },
        _ => {},
    }
    CallValue::Null
}

/// Handles a `setLogDestination` call: a string destination replaces the
/// active backend wholesale with the backend it resolves to, given whether
/// the string names an existing file or directory; a missing or non-string
/// destination changes nothing. The reply is always null.
pub fn set_log_destination(
    logger: &mut Logger,
    destination: Option<CallValue>,
    verbosity: Option<CallValue>,
    dest_is_file: bool,
    dest_is_dir: bool,
) -> (r: CallValue)
    ensures
        r is Null,
        (match destination {
            Some(CallValue::Text(d)) => resolved(
                d@,
                dest_is_file,
                dest_is_dir,
                requested_level(verbosity),
                *final(logger),
            ),
            _ => *final(logger) == *old(logger),
        }),
{
    match destination {
        Some(CallValue::Text(d)) => {
            let level = match &verbosity {
                Some(CallValue::Number(n)) => level_from_number(*n),
                _ => LogLevel::Verbose,
            };
            let none_literal = String::from_str("none");
            let next = if dest_is_file {
                Logger::File { verbosity: level, file_path: d }
            } else if dest_is_dir {
                Logger::Dir { verbosity: level, dir_path: d }
            } else if d == none_literal {
                Logger::Discard
            } else {
                Logger::Console { verbosity: level }
            };
            *logger = next;
        },
        _ => {},
    }
    CallValue::Null
}

/// Handles a `verbose` call: a string `data` argument is dispatched to the
/// active backend at `Verbose` severity; anything else writes nothing. The
/// reply is always null.
pub fn verbose_log(logger: &Logger, data: Option<CallValue>) -> (r: (CallValue, WriteAction))
    ensures
        r.0 is Null,
        (match data {
            Some(CallValue::Text(d)) => write_effect(*logger, LogLevel::Verbose, d@, r.1),
            _ => r.1 is Nothing,
        }),
{
    match data {
        Some(CallValue::Text(d)) => (CallValue::Null, logger.verbose(d.as_str())),
        _ => (CallValue::Null, WriteAction::Nothing),
    }
}

/// Handles an `info` call: a string `data` argument is dispatched to the
/// active backend at `Info` severity; anything else writes nothing. The
/// reply is always null.
pub fn info_log(logger: &Logger, data: Option<CallValue>) -> (r: (CallValue, WriteAction))
    ensures
        r.0 is Null,
        (match data {
            Some(CallValue::Text(d)) => write_effect(*logger, LogLevel::Info, d@, r.1),
            _ => r.1 is Nothing,
        }),
{
    match data {
        Some(CallValue::Text(d)) => (CallValue::Null, logger.info(d.as_str())),
        _ => (CallValue::Null, WriteAction::Nothing),
    }
}

/// Handles a `debug` call: a string `data` argument is dispatched to the
/// active backend at `Debug` severity; anything else writes nothing. The
/// reply is always null.
pub fn debug_log(logger: &Logger, data: Option<CallValue>) -> (r: (CallValue, WriteAction))
    ensures
        r.0 is Null,
        (match data {
            Some(CallValue::Text(d)) => write_effect(*logger, LogLevel::Debug, d@, r.1),
            _ => r.1 is Nothing,
        }),
{
    match data {
        Some(CallValue::Text(d)) => (CallValue::Null, logger.debug(d.as_str())),
        _ => (CallValue::Null, WriteAction::Nothing),
    }
}

/// Handles a `warn` call: a string `data` argument is dispatched to the
/// active backend at `Warn` severity; anything else writes nothing. The
/// reply is always null.
pub fn warn_log(logger: &Logger, data: Option<CallValue>) -> (r: (CallValue, WriteAction))
    ensures
        r.0 is Null,
        (match data {
            Some(CallValue::Text(d)) => write_effect(*logger, LogLevel::Warn, d@, r.1),
            _ => r.1 is Nothing,
        }),
{
    match data {
        Some(CallValue::Text(d)) => (CallValue::Null, logger.warn(d.as_str())),
        _ => (CallValue::Null, WriteAction::Nothing),
    }
}

/// Handles an `error` call: a string `data` argument is dispatched to the
/// active backend at `Error` severity; anything else writes nothing. The
/// reply is always null.
pub fn error_log(logger: &Logger, data: Option<CallValue>) -> (r: (CallValue, WriteAction))
    ensures
        r.0 is Null,
        (match data {
            Some(CallValue::Text(d)) => write_effect(*logger, LogLevel::Error, d@, r.1),
            _ => r.1 is Nothing,
        }),
{
    match data {
        Some(CallValue::Text(d)) => (CallValue::Null, logger.error(d.as_str())),
        _ => (CallValue::Null, WriteAction::Nothing),
    }
}

} // verus!
