//! The logger state machine: the active backend, its severity filter, and
//! the dispatch of a leveled write to a pure description of the output.

use vstd::prelude::*;
use vstd::string::StringExecFns;

use crate::level::{name_of, spec_rank, LogLevel};

verus! {

/// The active backend: where a message that passes the severity filter goes.
///
/// Exactly one backend is active at a time; reconfiguration replaces the
/// whole value, so a reader never sees a destination paired with a severity
/// that was never set with it.
#[derive(Debug, PartialEq)]
pub enum Logger {
    /// Every message is dropped.
    Discard,
    /// Messages go to the process's standard output stream.
    Console { verbosity: LogLevel },
    /// Messages are appended to one named file.
    File { verbosity: LogLevel, file_path: String },
    /// Messages are appended to a file chosen inside a directory.
    Dir { verbosity: LogLevel, dir_path: String },
}

/// The output a single write call asks for. The caller performs it: console
/// output synchronously, file appends as detached tasks whose outcome is
/// never reported back.
#[derive(Debug, PartialEq)]
pub enum WriteAction {
    /// The message was filtered out or the backend discards everything.
    Nothing,
    /// Print `[NAME]: message` to standard output, the severity name set off
    /// visually per level.
    Console { level: LogLevel, message: String },
    /// Append `line` to the named file.
    AppendToFile { path: String, line: String },
    /// Append `line` to a file chosen inside the named directory by the
    /// caller's rotation policy.
    AppendInDir { dir_path: String, line: String },
}

/// The text of one log line: `[NAME]: message` and a terminating newline.
pub open spec fn line_of(level: LogLevel, data: Seq<char>) -> Seq<char> {
    "["@ + name_of(level) + "]: "@ + data + "\n"@
}

impl Logger {
    /// The minimum severity this backend emits, if it emits anything at all.
    pub open spec fn min_severity(self) -> Option<LogLevel> {
        match self {
            Logger::Discard => Option::None,
            Logger::Console { verbosity } => Some(verbosity),
            Logger::File { verbosity, .. } => Some(verbosity),
            Logger::Dir { verbosity, .. } => Some(verbosity),
        }
    }

    /// The file or directory this backend writes to, if it writes to one.
    pub open spec fn destination(self) -> Option<Seq<char>> {
        match self {
            Logger::Discard => Option::None,
            Logger::Console { .. } => Option::None,
            Logger::File { file_path, .. } => Some(file_path@),
            Logger::Dir { dir_path, .. } => Some(dir_path@),
        }
    }

    /// Whether a message of the given severity passes this backend's filter:
    /// it does exactly when its rank is at least the configured minimum.
    pub open spec fn emits(self, level: LogLevel) -> bool {
        match self.min_severity() {
            Some(m) => spec_rank(m) <= spec_rank(level),
            Option::None => false,
        }
    }

    /// The same backend with its minimum severity replaced and its
    /// destination kept; the discarding backend is left as it is.
    pub open spec fn with_verbosity(self, level: LogLevel) -> Logger {
        match self {
            Logger::Discard => Logger::Discard,
            Logger::Console { .. } => Logger::Console { verbosity: level },
            Logger::File { file_path, .. } => Logger::File { verbosity: level, file_path },
            Logger::Dir { dir_path, .. } => Logger::Dir { verbosity: level, dir_path },
        }
    }
}

/// What a write against backend `l` of a message `data` at severity `level`
/// produces: nothing when the filter rejects it, otherwise the one action
/// aimed at `l`'s destination and carrying the message's full line.
pub open spec fn write_effect(l: Logger, level: LogLevel, data: Seq<char>, r: WriteAction) -> bool {
    match l {
        Logger::Discard => r is Nothing,
        Logger::Console { verbosity } => if spec_rank(verbosity) <= spec_rank(level) {
            r matches WriteAction::Console { level: wl, message } && wl == level && message@
                == data
        } else {
            r is Nothing
        },
        Logger::File { verbosity, file_path } => if spec_rank(verbosity) <= spec_rank(level) {
            r matches WriteAction::AppendToFile { path, line } && path@ == file_path@ && line@
                == line_of(level, data)
        } else {
            r is Nothing
        },
        Logger::Dir { verbosity, dir_path } => if spec_rank(verbosity) <= spec_rank(level) {
            r matches WriteAction::AppendInDir { dir_path: p, line } && p@ == dir_path@ && line@
                == line_of(level, data)
        } else {
            r is Nothing
        },
    }
}

/// Builds the text of one log line for the given severity and message.
pub fn format_line(level: LogLevel, data: &str) -> (r: String)
    ensures
        r@ == line_of(level, data@),
{
    let mut line = String::from_str("[");
    line.append(level.to_string());
    line.append("]: ");
    line.append(data);
    line.append("\n");
    proof {
        assert(line@ =~= line_of(level, data@));
    }
    line
}

impl Logger {
    /// The initial backend: console output at the most permissive severity.
    pub fn default() -> (r: Logger)
        ensures
            r == (Logger::Console { verbosity: LogLevel::Verbose }),
    {
        Logger::Console { verbosity: LogLevel::Verbose }
    }

    /// A write at `Verbose` severity.
    pub fn verbose(&self, data: &str) -> (r: WriteAction)
        ensures
            write_effect(*self, LogLevel::Verbose, data@, r),
    {
        self.write(LogLevel::Verbose, data)
    }

    /// A write at `Info` severity.
    pub fn info(&self, data: &str) -> (r: WriteAction)
        ensures
            write_effect(*self, LogLevel::Info, data@, r),
    {
        self.write(LogLevel::Info, data)
    }

    /// A write at `Debug` severity.
    pub fn debug(&self, data: &str) -> (r: WriteAction)
        ensures
            write_effect(*self, LogLevel::Debug, data@, r),
    {
        self.write(LogLevel::Debug, data)
    }

    /// A write at `Warn` severity.
    pub fn warn(&self, data: &str) -> (r: WriteAction)
        ensures
            write_effect(*self, LogLevel::Warn, data@, r),
    {
        self.write(LogLevel::Warn, data)
    }

    /// A write at `Error` severity.
    pub fn error(&self, data: &str) -> (r: WriteAction)
        ensures
            write_effect(*self, LogLevel::Error, data@, r),
    {
        self.write(LogLevel::Error, data)
    }

    /// Replaces the minimum severity of the active backend in place, keeping
    /// its destination; does nothing when everything is being discarded.
    pub fn set_verbosity(&mut self, log_level: LogLevel)
        ensures
            *final(self) == old(self).with_verbosity(log_level),
    {
        let next = match &*self {
            Logger::Discard => Logger::Discard,
            Logger::Console { .. } => Logger::Console { verbosity: log_level },
            Logger::File { file_path, .. } => Logger::File {
                verbosity: log_level,
                file_path: file_path.clone(),
            },
            Logger::Dir { dir_path, .. } => Logger::Dir {
                verbosity: log_level,
                dir_path: dir_path.clone(),
            },
        };
        *self = next;
    }

    /// Dispatches one message: applies the severity filter of the active
    /// backend and describes the output to perform, without performing it.
    pub fn write(&self, log_level: LogLevel, data: &str) -> (r: WriteAction)
        ensures
            write_effect(*self, log_level, data@, r),
    {
        match self {
            Logger::Discard => WriteAction::Nothing,
            Logger::Console { verbosity } => {
                if verbosity.rank() <= log_level.rank() {
                    WriteAction::Console { level: log_level, message: String::from_str(data) }
                } else {
                    WriteAction::Nothing
                }
            },
            Logger::File { verbosity, file_path } => {
                if verbosity.rank() <= log_level.rank() {
                    WriteAction::AppendToFile {
                        path: file_path.clone(),
                        line: format_line(log_level, data),
                    }
                } else {
                    WriteAction::Nothing
                }
            },
            Logger::Dir { verbosity, dir_path } => {
                if verbosity.rank() <= log_level.rank() {
                    WriteAction::AppendInDir {
                        dir_path: dir_path.clone(),
                        line: format_line(log_level, data),
                    }
                } else {
                    WriteAction::Nothing
                }
            },
        }
    }
}

} // verus!
