//! The logging capability: guest code hands the host a level and a byte
//! range of its linear memory, and the host records the text found there in
//! the execution context.
//!
//! The range comes from untrusted code. It is checked against the current
//! size of the memory before anything is read; a range that does not fit is
//! ignored without any effect.

use crate::store::{LogEntry, LogLevel, WorkerContext};
use vstd::prelude::*;
use vstd::slice::slice_subrange;
use vstd::string::*;
use vstd::utf8::{decode_utf8, encode_utf8_decode_utf8, valid_utf8};

verus! {

/// The host side of the logging capability.
#[derive(Debug, Clone, Copy, PartialEq, Eq, Structural)]
pub struct LoggingHost;

/// The level that a number of the guest interface stands for: 0 is debug,
/// 2 is warn, 3 is error, and 1 and every other number is info.
pub open spec fn level_of(number: i32) -> LogLevel {
    if number == 0 {
        LogLevel::Debug
    } else if number == 2 {
        LogLevel::Warn
    } else if number == 3 {
        LogLevel::Error
    } else {
        LogLevel::Info
    }
}

/// The number of the guest interface that stands for a level.
pub open spec fn number_of(level: LogLevel) -> i32 {
    match level {
        LogLevel::Debug => 0,
        LogLevel::Info => 1,
        LogLevel::Warn => 2,
        LogLevel::Error => 3,
    }
}

/// Whether the range of `len` bytes at `ptr` lies in a memory of `size`
/// bytes: neither number is negative, their sum is an address, and the
/// range ends within the memory.
pub open spec fn range_is_valid(ptr: i32, len: i32, size: nat) -> bool {
    ptr >= 0 && len >= 0 && ptr + len <= usize::MAX && ptr + len <= size
}

/// The text of a message given as bytes: the text that the bytes encode,
/// or a placeholder where they are not UTF-8.
pub open spec fn message_text(bytes: Seq<u8>) -> Seq<char> {
    if valid_utf8(bytes) {
        decode_utf8(bytes)
    } else {
        "<invalid utf8>"@
    }
}

/// The message that a guest call refers to, or `None` where the call is to
/// be ignored: the guest exports no memory, or the range is not valid.
pub open spec fn guest_message(memory: Option<Seq<u8>>, ptr: i32, len: i32) -> Option<Seq<char>> {
    match memory {
        Some(data) => if range_is_valid(ptr, len, data.len()) {
            Some(message_text(data.subrange(ptr as int, ptr + len)))
        } else {
            None
        },
        None => None,
    }
}

/// The lines of a log buffer: the level and the text of each entry, in
/// order.
pub open spec fn lines_of(logs: Seq<LogEntry>) -> Seq<(LogLevel, Seq<char>)> {
    Seq::new(logs.len(), |i: int| (logs[i].level, logs[i].message@))
}

/// The lines of a log buffer after one call of the guest's `log` import
/// with a level number, referring to a message or to none.
pub open spec fn lines_after(
    lines: Seq<(LogLevel, Seq<char>)>,
    call: (i32, Option<Seq<char>>),
) -> Seq<(LogLevel, Seq<char>)> {
    match call.1 {
        Some(text) => lines.push((level_of(call.0), text)),
        None => lines,
    }
}

/// The lines of a log buffer after a run's calls, one after the other.
pub open spec fn lines_after_all(
    lines: Seq<(LogLevel, Seq<char>)>,
    calls: Seq<(i32, Option<Seq<char>>)>,
) -> Seq<(LogLevel, Seq<char>)>
    decreases calls.len(),
{
    if calls.len() == 0 {
        lines
    } else {
        lines_after(lines_after_all(lines, calls.drop_last()), calls.last())
    }
}

/// The calls that one of two runs makes, out of the calls of both in the
/// order in which they happen; each call is marked with whether the first
/// run makes it.
pub open spec fn calls_of(steps: Seq<(bool, (i32, Option<Seq<char>>))>, first: bool) -> Seq<
    (i32, Option<Seq<char>>),
>
    decreases steps.len(),
{
    if steps.len() == 0 {
        Seq::empty()
    } else if steps.last().0 == first {
        calls_of(steps.drop_last(), first).push(steps.last().1)
    } else {
        calls_of(steps.drop_last(), first)
    }
}

/// The lines of the log buffers of two runs after the calls of both, each
/// call served on the buffer of the run that makes it.
pub open spec fn lines_of_two_runs(
    first: Seq<(LogLevel, Seq<char>)>,
    second: Seq<(LogLevel, Seq<char>)>,
    steps: Seq<(bool, (i32, Option<Seq<char>>))>,
) -> (Seq<(LogLevel, Seq<char>)>, Seq<(LogLevel, Seq<char>)>)
    decreases steps.len(),
{
    if steps.len() == 0 {
        (first, second)
    } else {
        let before = lines_of_two_runs(first, second, steps.drop_last());
        if steps.last().0 {
            (lines_after(before.0, steps.last().1), before.1)
        } else {
            (before.0, lines_after(before.1, steps.last().1))
        }
    }
}

/// However the calls of two runs interleave, each run's log buffer ends up
/// with exactly what its own calls give when the run is alone: no entry of
/// the other run appears in it, and none of its own is lost or moved.
pub proof fn interleaved_runs_keep_their_own_logs(
    first: Seq<(LogLevel, Seq<char>)>,
    second: Seq<(LogLevel, Seq<char>)>,
    steps: Seq<(bool, (i32, Option<Seq<char>>))>,
)
    ensures
        lines_of_two_runs(first, second, steps).0 == lines_after_all(first, calls_of(steps, true)),
        lines_of_two_runs(first, second, steps).1 == lines_after_all(
            second,
            calls_of(steps, false),
        ),
    decreases steps.len(),
{
    if steps.len() > 0 {
        interleaved_runs_keep_their_own_logs(first, second, steps.drop_last());
        let own = calls_of(steps.drop_last(), steps.last().0);
        assert(own.push(steps.last().1).drop_last() =~= own);
    }
}

/// Every level survives the way through the guest interface's numbers.
pub proof fn level_numbers_round_trip(level: LogLevel)
    ensures
        level_of(number_of(level)) == level,
{
}

/// A number outside 0 to 3 stands for the info level.
pub proof fn unknown_numbers_mean_info(number: i32)
    requires
        number < 0 || number > 3,
    ensures
        level_of(number) == LogLevel::Info,
{
}

/// `core::str::from_utf8` of the standard library: the text that the bytes
/// encode, or `None` exactly where the bytes are not valid UTF-8.
#[verifier::external_body]
fn utf8_text(bytes: &[u8]) -> (r: Option<&str>)
    ensures
        r is Some <==> valid_utf8(bytes@),
        r matches Some(text) ==> text.spec_bytes() == bytes@,
{
    std::str::from_utf8(bytes).ok()
}

/// The level that a number of the guest interface stands for.
pub fn level_from_i32(level: i32) -> (r: LogLevel)
    ensures
        r == level_of(level),
{
    match level {
        0 => LogLevel::Debug,
        2 => LogLevel::Warn,
        3 => LogLevel::Error,
        _ => LogLevel::Info,
    }
}

/// The number of the guest interface that stands for a level.
pub fn level_to_i32(level: LogLevel) -> (r: i32)
    ensures
        r == number_of(level),
{
    match level {
        LogLevel::Debug => 0,
        LogLevel::Info => 1,
        LogLevel::Warn => 2,
        LogLevel::Error => 3,
    }
}

/// Reads the message that a guest call refers to out of the guest's memory.
pub fn read_guest_message(memory: Option<&[u8]>, ptr: i32, len: i32) -> (r: Option<String>)
    ensures
        match guest_message(
            match memory {
                Some(data) => Some(data@),
                None => None,
            },
            ptr,
            len,
        ) {
            Some(text) => r matches Some(message) && message@ == text,
            None => r is None,
        },
{
    if ptr < 0 || len < 0 {
        return None;
    }
    let data = match memory {
        Some(data) => data,
        None => {
            return None;
        },
    };
    let start = ptr as usize;
    let end = match start.checked_add(len as usize) {
        Some(end) => end,
        None => {
            return None;
        },
    };
    if end > data.len() {
        return None;
    }
    let bytes = slice_subrange(data, start, end);
    match utf8_text(bytes) {
        Some(text) => {
            proof {
                encode_utf8_decode_utf8(text@);
            }
            Some(String::from_str(text))
        },
        None => Some(String::from_str("<invalid utf8>")),
    }
}

impl LoggingHost {
    /// Records a message at a level in the context.
    pub fn log(ctx: &mut WorkerContext, level: LogLevel, message: &str)
        ensures
            final(ctx).logs@.len() == old(ctx).logs@.len() + 1,
            final(ctx).logs@.drop_last() == old(ctx).logs@,
            final(ctx).logs@.last().level == level,
            final(ctx).logs@.last().message@ == message@,
            final(ctx).request_id == old(ctx).request_id,
            final(ctx).metrics == old(ctx).metrics,
    {
        ctx.log(level, String::from_str(message));
    }

    /// Records a message at the debug level.
    pub fn log_debug(ctx: &mut WorkerContext, message: &str)
        ensures
            final(ctx).logs@.len() == old(ctx).logs@.len() + 1,
            final(ctx).logs@.drop_last() == old(ctx).logs@,
            final(ctx).logs@.last().level == LogLevel::Debug,
            final(ctx).logs@.last().message@ == message@,
            final(ctx).request_id == old(ctx).request_id,
            final(ctx).metrics == old(ctx).metrics,
    {
        Self::log(ctx, LogLevel::Debug, message);
    }

    /// Records a message at the info level.
    pub fn log_info(ctx: &mut WorkerContext, message: &str)
        ensures
            final(ctx).logs@.len() == old(ctx).logs@.len() + 1,
            final(ctx).logs@.drop_last() == old(ctx).logs@,
            final(ctx).logs@.last().level == LogLevel::Info,
            final(ctx).logs@.last().message@ == message@,
            final(ctx).request_id == old(ctx).request_id,
            final(ctx).metrics == old(ctx).metrics,
    {
        Self::log(ctx, LogLevel::Info, message);
    }

    /// Records a message at the warn level.
    pub fn log_warn(ctx: &mut WorkerContext, message: &str)
        ensures
            final(ctx).logs@.len() == old(ctx).logs@.len() + 1,
            final(ctx).logs@.drop_last() == old(ctx).logs@,
            final(ctx).logs@.last().level == LogLevel::Warn,
            final(ctx).logs@.last().message@ == message@,
            final(ctx).request_id == old(ctx).request_id,
            final(ctx).metrics == old(ctx).metrics,
    {
        Self::log(ctx, LogLevel::Warn, message);
    }

    /// Records a message at the error level.
    pub fn log_error(ctx: &mut WorkerContext, message: &str)
        ensures
            final(ctx).logs@.len() == old(ctx).logs@.len() + 1,
            final(ctx).logs@.drop_last() == old(ctx).logs@,
            final(ctx).logs@.last().level == LogLevel::Error,
            final(ctx).logs@.last().message@ == message@,
            final(ctx).request_id == old(ctx).request_id,
            final(ctx).metrics == old(ctx).metrics,
    {
        Self::log(ctx, LogLevel::Error, message);
    }

    /// Serves one call of the guest's `log` import: records the message
    /// that the call refers to at the level that its number stands for. A
    /// call that refers to no message changes nothing.
    pub fn guest_log(ctx: &mut WorkerContext, level: i32, ptr: i32, len: i32, memory: Option<&[u8]>)
        ensures
            match guest_message(
                match memory {
                    Some(data) => Some(data@),
                    None => None,
                },
                ptr,
                len,
            ) {
                Some(text) => {
                    &&& final(ctx).logs@.len() == old(ctx).logs@.len() + 1
                    &&& final(ctx).logs@.drop_last() == old(ctx).logs@
                    &&& final(ctx).logs@.last().level == level_of(level)
                    &&& final(ctx).logs@.last().message@ == text
                },
                None => final(ctx).logs == old(ctx).logs,
            },
            lines_of(final(ctx).logs@) == lines_after(
                lines_of(old(ctx).logs@),
                (
                    level,
                    guest_message(
                        match memory {
                            Some(data) => Some(data@),
                            None => None,
                        },
                        ptr,
                        len,
                    ),
                ),
            ),
            final(ctx).request_id == old(ctx).request_id,
            final(ctx).metrics == old(ctx).metrics,
            final(ctx).start_time == old(ctx).start_time,
    {
        match read_guest_message(memory, ptr, len) {
            Some(message) => {
                ctx.log(level_from_i32(level), message);
                assert(lines_of(ctx.logs@) =~= lines_of(old(ctx).logs@).push(
                    (level_of(level), message@),
                )) by {
                    assert(ctx.logs@.drop_last() == old(ctx).logs@);
                    assert forall|i: int| 0 <= i < old(ctx).logs@.len() implies ctx.logs@[i]
                        == old(ctx).logs@[i] by {
                        assert(ctx.logs@.drop_last()[i] == ctx.logs@[i]);
                    }
                }
            },
            None => {},
        }
    }
}

} // verus!
