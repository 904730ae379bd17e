//! The wall clock and RFC 3339 timestamps.

use vstd::prelude::*;

verus! {

/// Calls `chrono::Utc::now().timestamp()`. Trusted for nothing: the current
/// time in seconds since the Unix epoch may be any value.
#[verifier::external_body]
pub(crate) fn current_unix_time() -> (r: i64) {
    chrono::Utc::now().timestamp()
}

/// Calls `chrono::Utc::now().to_rfc3339()`. Trusted for nothing: the text
/// of the current time may be any string.
#[verifier::external_body]
pub(crate) fn current_rfc3339() -> (r: String) {
    chrono::Utc::now().to_rfc3339()
}

/// The date patterns this library formats with.
pub open spec fn known_pattern(pattern: Seq<char>) -> bool {
    pattern == "%Y-%m-%d %H:%M UTC"@ || pattern == "%Y-%m-%d"@ || pattern == "%Y-%m"@
        || pattern == "%Y-%m-%d %H:%M:%S UTC"@ || pattern == "%Y-%m%d"@ || pattern == "%Y%m%d-%H%M%S"@
}

/// Timestamps, in seconds since the Unix epoch, that `chrono` represents:
/// from the start of the year -262143 to the end of the year 262142.
pub open spec fn in_date_range(ts: int) -> bool {
    -8_334_601_228_800 <= ts <= 8_210_266_876_799
}

/// The text `chrono` renders for the UTC date-time `ts` (seconds since the
/// Unix epoch) under `pattern`.
pub uninterp spec fn spec_format_utc(ts: int, pattern: Seq<char>) -> Seq<char>;

/// Calls `chrono::DateTime::from_timestamp(ts, 0)` and formats the result
/// with `format(pattern).to_string()`. Trusted: where `chrono` represents the
/// time the text is `spec_format_utc` of the time and the pattern, and every
/// time in `in_date_range` is represented.
#[verifier::external_body]
pub(crate) fn format_utc(ts: i64, pattern: &str) -> (r: Option<String>)
    requires
        known_pattern(pattern@),
    ensures
        in_date_range(ts as int) ==> r is Some,
        r matches Some(s) ==> s@ == spec_format_utc(ts as int, pattern@),
{
    chrono::DateTime::from_timestamp(ts, 0).map(|d| d.format(pattern).to_string())
}

/// The RFC 3339 text `chrono` renders for the UTC date-time `ts` (seconds
/// since the Unix epoch).
pub uninterp spec fn spec_rfc3339_utc(ts: int) -> Seq<char>;

/// Calls `chrono::DateTime::from_timestamp(ts, 0)` and renders the result
/// with `to_rfc3339`. Trusted: where `chrono` represents the time the text is
/// `spec_rfc3339_utc` of it, and every time in `in_date_range` is
/// represented.
#[verifier::external_body]
pub(crate) fn rfc3339_utc(ts: i64) -> (r: Option<String>)
    ensures
        in_date_range(ts as int) ==> r is Some,
        r matches Some(s) ==> s@ == spec_rfc3339_utc(ts as int),
{
    chrono::DateTime::from_timestamp(ts, 0).map(|d| d.to_rfc3339())
}

/// Whether `chrono` accepts a text as an RFC 3339 date-time.
pub uninterp spec fn spec_is_rfc3339(text: Seq<char>) -> bool;

/// Calls `chrono::DateTime::parse_from_rfc3339` and reports whether it
/// succeeded. Trusted: the answer depends on the text alone.
#[verifier::external_body]
pub(crate) fn is_rfc3339(text: &str) -> (r: bool)
    ensures
        r == spec_is_rfc3339(text@),
{
    chrono::DateTime::parse_from_rfc3339(text).is_ok()
}

} // verus!
