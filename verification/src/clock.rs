//! Wall-clock time and RFC 3339 text, from the `time` crate.
use vstd::prelude::*;

use time::format_description::well_known::Rfc3339;
use time::OffsetDateTime;

verus! {

/// The RFC 3339 text of the UTC instant `unix_nanos` nanoseconds after the Unix epoch, or
/// `None` when the `time` crate cannot represent or write that instant.
pub uninterp spec fn rfc3339_utc(unix_nanos: i128) -> Option<Seq<char>>;

/// Whether the `time` crate represents the instant `unix_seconds` seconds after the epoch.
pub uninterp spec fn unix_time_in_range(unix_seconds: i64) -> bool;

/// `OffsetDateTime::now_utc()`, split into whole seconds since the Unix epoch
/// (`unix_timestamp()`) and the nanoseconds past that second (`nanosecond()`, below one
/// billion, as its documentation says). It depends on the clock; nothing else is stated.
#[verifier::external_body]
pub(crate) fn now_utc() -> (r: (i64, u32))
    ensures
        r.1 < 1_000_000_000,
{
    let t = OffsetDateTime::now_utc();
    (t.unix_timestamp(), t.nanosecond())
}

/// `OffsetDateTime::from_unix_timestamp_nanos(unix_nanos)` written with
/// `format(&Rfc3339)`: the text is a function of the instant alone, and so is failure
/// (out of range, or a year the format cannot write).
#[verifier::external_body]
pub(crate) fn format_rfc3339(unix_nanos: i128) -> (r: Result<String, String>)
    ensures
        match r {
            Ok(s) => rfc3339_utc(unix_nanos) == Some(s@),
            Err(_) => rfc3339_utc(unix_nanos) is None,
        },
{
    let t = OffsetDateTime::from_unix_timestamp_nanos(unix_nanos).map_err(|e| e.to_string())?;
    t.format(&Rfc3339).map_err(|e| e.to_string())
}

/// `OffsetDateTime::from_unix_timestamp(unix_seconds).is_ok()`.
#[verifier::external_body]
pub(crate) fn in_time_range(unix_seconds: i64) -> (r: bool)
    ensures
        r == unix_time_in_range(unix_seconds),
{
    OffsetDateTime::from_unix_timestamp(unix_seconds).is_ok()
}

/// The instant `secs` seconds and `sub` nanoseconds after the epoch, in nanoseconds.
pub open spec fn instant_nanos(secs: int, sub: int) -> int {
    secs * 1_000_000_000 + sub
}

/// `instant_nanos` on machine integers.
pub fn nanos_of(secs: i64, sub: u32) -> (r: i128)
    ensures
        r == instant_nanos(secs as int, sub as int),
{
    assert(-9223372036854775808 * 1_000_000_000 <= secs * 1_000_000_000 <= 9223372036854775807 * 1_000_000_000) by (nonlinear_arith)
        requires
            -9223372036854775808 <= secs <= 9223372036854775807;
    (secs as i128) * 1_000_000_000 + (sub as i128)
}

} // verus!
