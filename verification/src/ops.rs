//! The three tool operations: current time, RFC 2822 parsing, and timestamp
//! offsetting.  Each yields a two-field payload; failures are reported as
//! structured errors rather than aborting.

use vstd::prelude::*;
use crate::decimal::{dec_int, i64_to_string};
use crate::timefmt::{
    now_timestamp, parse_rfc2822, render_rfc2822, rfc2822_parse, rfc2822_render, RFC2822_MAX_LOCAL,
    RFC2822_MIN_LOCAL,
};

verus! {

/// Why an invocation failed.
#[derive(Clone, Copy, Debug, PartialEq, Eq, Structural)]
pub enum ToolError {
    /// The requested tool name matches none of the known tools.
    UnknownOperation,
    /// A required argument is absent or not of the expected type.
    MissingArgument,
    /// The given text is not a valid RFC 2822 date-time.
    MalformedTimestamp,
    /// The resulting instant falls outside the years RFC 2822 can express.
    TimestampOutOfRange,
}

impl ToolError {
    /// A human-readable message for the failure.
    pub fn message(&self) -> (m: String)
        ensures
            self is UnknownOperation ==> m@ == "unknown command"@,
            self is MissingArgument ==> m@ == "missing or ill-typed argument"@,
            self is MalformedTimestamp ==> m@ == "invalid RFC 2822 datetime"@,
            self is TimestampOutOfRange ==> m@ == "timestamp out of range"@,
    {
        match self {
            ToolError::UnknownOperation => "unknown command".to_owned(),
            ToolError::MissingArgument => "missing or ill-typed argument".to_owned(),
            ToolError::MalformedTimestamp => "invalid RFC 2822 datetime".to_owned(),
            ToolError::TimestampOutOfRange => "timestamp out of range".to_owned(),
        }
    }
}

/// The two-field payload every successful operation produces.
#[derive(Debug)]
pub struct TimePayload {
    /// The instant's timestamp, rendered in base 10.
    pub utc_time: String,
    /// The instant rendered as RFC 2822 text.
    pub utc_time_rfc2822: String,
}

/// The timestamp `time_offset` yields for a base timestamp and an offset.
pub open spec fn offset_result(t: int, o: int) -> int {
    t + o
}

/// Whether the instant `t` seconds after the Unix epoch, displayed at a UTC
/// offset of `off` seconds, can be rendered as RFC 2822 text.
pub open spec fn renderable(t: int, off: int) -> bool {
    &&& -86399 <= off <= 86399
    &&& RFC2822_MIN_LOCAL <= t + off <= RFC2822_MAX_LOCAL
}

/// Whether `p` is the payload for the instant `t` displayed at offset `off`.
pub open spec fn payload_is(p: TimePayload, t: int, off: int) -> bool {
    &&& p.utc_time@ == dec_int(t)
    &&& p.utc_time_rfc2822@ == rfc2822_render(t, off)
}

/// Builds the payload for a renderable instant.  For a whole-minute offset
/// the rendered RFC 2822 text parses back to the same instant and offset.
pub fn payload_for(t: i64, off: i32) -> (p: TimePayload)
    requires
        renderable(t as int, off as int),
    ensures
        payload_is(p, t as int, off as int),
        off % 60 == 0 ==> rfc2822_parse(p.utc_time_rfc2822@) == Some((t, off)),
{
    TimePayload { utc_time: i64_to_string(t), utc_time_rfc2822: render_rfc2822(t, off) }
}

/// Reads the clock and renders the current instant at UTC, by offsetting it
/// by zero seconds: `time_offset`'s contract fixes the outcome for every
/// value the clock can report.  Fails only if the clock reports an instant
/// outside the years RFC 2822 can express.
pub fn get_time_utc() -> (r: Result<TimePayload, ToolError>)
    ensures
        r matches Ok(p) ==> exists|t: int|
            renderable(t, 0) && payload_is(p, t, 0) && rfc2822_parse(p.utc_time_rfc2822@) == Some(
                (t as i64, 0i32),
            ),
        r matches Err(e) ==> e == ToolError::TimestampOutOfRange,
{
    let now = now_timestamp();
    let r = time_offset(now, 0);
    proof {
        if renderable(now as int, 0) {
            let p = r->Ok_0;
            assert(renderable(now as int, 0) && payload_is(p, now as int, 0) && rfc2822_parse(
                p.utc_time_rfc2822@,
            ) == Some((now, 0i32)));
        }
    }
    r
}

/// Parses RFC 2822 text and renders the parsed instant back, preserving its
/// UTC offset.  Fails on text that does not parse, or parses to an instant
/// whose local time falls outside the years RFC 2822 can express.  On
/// success, the rendered text parses to the same instant and offset as the
/// input did, so re-parsing it reproduces the timestamp.
pub fn parse_time(s: &str) -> (r: Result<TimePayload, ToolError>)
    ensures
        match rfc2822_parse(s@) {
            None => r == Err::<TimePayload, ToolError>(ToolError::MalformedTimestamp),
            Some(p) => if renderable(p.0 as int, p.1 as int) {
                r matches Ok(pl) && payload_is(pl, p.0 as int, p.1 as int) && rfc2822_parse(
                    pl.utc_time_rfc2822@,
                ) == rfc2822_parse(s@)
            } else {
                r == Err::<TimePayload, ToolError>(ToolError::TimestampOutOfRange)
            },
        },
{
    match parse_rfc2822(s) {
        None => Err(ToolError::MalformedTimestamp),
        Some((t, off)) => {
            match t.checked_add(off as i64) {
                Some(local) => {
                    if RFC2822_MIN_LOCAL <= local && local <= RFC2822_MAX_LOCAL {
                        Ok(payload_for(t, off))
                    } else {
                        Err(ToolError::TimestampOutOfRange)
                    }
                },
                None => Err(ToolError::TimestampOutOfRange),
            }
        },
    }
}

/// Applies a signed offset of `o` seconds to the timestamp `t` and renders
/// the result at UTC.  Fails only if the shifted instant falls outside the
/// years RFC 2822 can express.  On success, the rendered text parses back to
/// the shifted second count.
pub fn time_offset(t: i64, o: i64) -> (r: Result<TimePayload, ToolError>)
    ensures
        renderable(offset_result(t as int, o as int), 0) ==> (r matches Ok(p) && payload_is(
            p,
            offset_result(t as int, o as int),
            0,
        ) && rfc2822_parse(p.utc_time_rfc2822@) == Some(
            (offset_result(t as int, o as int) as i64, 0i32),
        )),
        !renderable(offset_result(t as int, o as int), 0) ==> r == Err::<
            TimePayload,
            ToolError,
        >(ToolError::TimestampOutOfRange),
{
    match t.checked_add(o) {
        Some(shifted) => {
            if RFC2822_MIN_LOCAL <= shifted && shifted <= RFC2822_MAX_LOCAL {
                Ok(payload_for(shifted, 0))
            } else {
                Err(ToolError::TimestampOutOfRange)
            }
        },
        None => Err(ToolError::TimestampOutOfRange),
    }
}

} // verus!
