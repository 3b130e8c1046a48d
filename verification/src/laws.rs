//! The guarantees the logger gives as a whole, stated over the same spec
//! functions its contracts use.

use vstd::prelude::*;

use crate::level::{spec_rank, LogLevel};
use crate::logger::{line_of, write_effect, Logger, WriteAction};
use crate::remote::resolved;

verus! {

/// The severity filter is a rank comparison and nothing else: against a
/// backend whose minimum severity is `s2`, a message at a strictly lower
/// rank is never emitted, and one at `s2` itself — or at any rank at least
/// as high — always is.
pub proof fn lemma_severity_filter(l: Logger, s1: LogLevel, s2: LogLevel)
    requires
        l.min_severity() == Some(s2),
        spec_rank(s1) <= spec_rank(s2),
    ensures
        spec_rank(s1) < spec_rank(s2) ==> !l.emits(s1),
        l.emits(s2),
        forall|s: LogLevel| spec_rank(s2) <= spec_rank(s) ==> l.emits(s),
{
}

/// Reconfiguration is all-or-nothing: whatever backend a destination
/// resolves to carries the requested minimum severity together with the
/// requested destination, so no write can observe a combination that was
/// never explicitly set.
pub proof fn lemma_reconfigure_atomic(
    dest: Seq<char>,
    dest_is_file: bool,
    dest_is_dir: bool,
    level: LogLevel,
    l: Logger,
)
    requires
        resolved(dest, dest_is_file, dest_is_dir, level, l),
    ensures
        l is Discard || l.min_severity() == Some(level),
        l is File ==> l.destination() == Some(dest),
        l is Dir ==> l.destination() == Some(dest),
        l is Discard <==> (!dest_is_file && !dest_is_dir && dest == "none"@),
        dest_is_file ==> l is File,
        !dest_is_file && dest_is_dir ==> l is Dir,
        !dest_is_file && !dest_is_dir && dest != "none"@ ==> l == (Logger::Console {
            verbosity: level,
        }),
{
}

/// Changing only the verbosity is a partial update that keeps everything
/// else: the backend's kind and destination survive, the new minimum
/// severity is installed wherever there is one, and the discarding backend
/// stays as it is.
pub proof fn lemma_set_verbosity_keeps_destination(l: Logger, level: LogLevel)
    ensures
        l.with_verbosity(level).destination() == l.destination(),
        l is Discard <==> l.with_verbosity(level) is Discard,
        l is Console <==> l.with_verbosity(level) is Console,
        l is File <==> l.with_verbosity(level) is File,
        l is Dir <==> l.with_verbosity(level) is Dir,
        !(l is Discard) ==> l.with_verbosity(level).min_severity() == Some(level),
{
}

/// Once the destination has resolved to the discarding backend — the
/// literal `"none"`, naming neither an existing file nor a directory — no
/// leveled write of any severity produces any output.
pub proof fn lemma_none_destination_discards(
    dest: Seq<char>,
    level: LogLevel,
    l: Logger,
    s: LogLevel,
    data: Seq<char>,
    r: WriteAction,
)
    requires
        dest == "none"@,
        resolved(dest, false, false, level, l),
        write_effect(l, s, data, r),
    ensures
        r is Nothing,
{
}

/// A write goes only to the backend active when it is dispatched: a console
/// backend never yields a file append, a file backend never yields console
/// output, and an emitted file append names the active backend's own
/// destination and carries the message's complete line.
pub proof fn lemma_write_targets_active_backend(
    l: Logger,
    s: LogLevel,
    data: Seq<char>,
    r: WriteAction,
)
    requires
        write_effect(l, s, data, r),
    ensures
        l is Console ==> (r is Nothing || (r matches WriteAction::Console {
            level,
            message,
        } && level == s && message@ == data)),
        l is File ==> (r is Nothing || (r matches WriteAction::AppendToFile {
            path,
            line,
        } && Some(path@) == l.destination() && line@ == line_of(s, data))),
        l is Dir ==> (r is Nothing || (r matches WriteAction::AppendInDir {
            dir_path,
            line,
        } && Some(dir_path@) == l.destination() && line@ == line_of(s, data))),
        l is Discard ==> r is Nothing,
        l.emits(s) <==> !(r is Nothing),
{
}

} // verus!
