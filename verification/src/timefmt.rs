//! The boundary to the `chrono` crate: reading the clock, parsing RFC 2822
//! text, and rendering a timestamp as RFC 2822 text.
//!
//! A timestamp is a signed count of seconds since the Unix epoch.  RFC 2822
//! can only express years 0 through 9999, so a timestamp is renderable at a
//! given UTC offset exactly when the local second count (timestamp plus
//! offset) falls between the first second of year 0 and the last second of
//! year 9999.

use vstd::prelude::*;

verus! {

/// The first second of year 0, as a count of seconds since the Unix epoch:
/// the earliest local time that RFC 2822 can express.
pub const RFC2822_MIN_LOCAL: i64 = -62167219200;

/// The last second of year 9999, as a count of seconds since the Unix epoch:
/// the latest local time that RFC 2822 can express.
pub const RFC2822_MAX_LOCAL: i64 = 253402300799;

/// What `chrono::DateTime::parse_from_rfc2822` yields on a given character
/// sequence: `None` where parsing fails, otherwise the parsed instant's
/// timestamp and its UTC offset in seconds.
pub uninterp spec fn rfc2822_parse(s: Seq<char>) -> Option<(i64, i32)>;

/// What `chrono`'s `to_rfc2822` yields for the instant `t` seconds after the
/// Unix epoch, displayed at a UTC offset of `off` seconds.
pub uninterp spec fn rfc2822_render(t: int, off: int) -> Seq<char>;

/// Relies on `chrono::DateTime::parse_from_rfc2822`: the result depends on
/// the characters of `s` alone; a successfully parsed UTC offset was
/// accepted by `FixedOffset::east_opt`, so it is below one day in magnitude;
/// and the scanner builds every offset from hours and minutes (named zones
/// are whole hours), so it is a whole number of minutes.
#[verifier::external_body]
pub(crate) fn parse_rfc2822(s: &str) -> (r: Option<(i64, i32)>)
    ensures
        r == rfc2822_parse(s@),
        r matches Some(p) ==> -86399 <= p.1 <= 86399 && p.1 % 60 == 0,
{
    match chrono::DateTime::parse_from_rfc2822(s) {
        Ok(dt) => Some((dt.timestamp(), dt.offset().local_minus_utc())),
        Err(_) => None,
    }
}

/// Relies on `chrono`'s `DateTime::from_timestamp`, `FixedOffset::east_opt`,
/// `DateTime::with_timezone` and `DateTime::to_rfc2822`: the rendering
/// depends on the timestamp and the offset alone, and it cannot fail, since
/// the offset is below one day in magnitude and the local time falls in a
/// year that RFC 2822 can express.  Further relies on
/// `DateTime::parse_from_rfc2822` reading the rendered text back: the
/// renderer emits the offset at minute precision (exactly for a whole-minute
/// offset) and every other field in full, and the parser accepts exactly
/// those fields, so for a whole-minute offset the rendered text parses back
/// to the same instant and offset.
#[verifier::external_body]
pub(crate) fn render_rfc2822(t: i64, off: i32) -> (r: String)
    requires
        -86399 <= off <= 86399,
        RFC2822_MIN_LOCAL <= t + off <= RFC2822_MAX_LOCAL,
    ensures
        r@ == rfc2822_render(t as int, off as int),
        off % 60 == 0 ==> rfc2822_parse(r@) == Some((t, off)),
{
    let utc = chrono::DateTime::from_timestamp(t, 0).unwrap();
    let zone = chrono::FixedOffset::east_opt(off).unwrap();
    utc.with_timezone(&zone).to_rfc2822()
}

/// Relies on `chrono::Utc::now`: the clock's current timestamp.  Nothing is
/// assumed of its value.
#[verifier::external_body]
pub(crate) fn now_timestamp() -> i64 {
    chrono::Utc::now().timestamp()
}

} // verus!
