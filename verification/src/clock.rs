//! The wall clock, read through `chrono`.

use vstd::prelude::*;

verus! {

/// Calls `chrono::Utc::now` and `DateTime::timestamp`: the seconds since the
/// Unix epoch at the moment of the call. Nothing is claimed of the value.
#[verifier::external_body]
pub(crate) fn utc_timestamp() -> (r: i64) {
    chrono::Utc::now().timestamp()
}

/// Calls `chrono::Utc::now` and `DateTime::timestamp_nanos_opt`: the
/// nanoseconds since the Unix epoch at the moment of the call, `None` where
/// they do not fit. Nothing is claimed of the value.
#[verifier::external_body]
pub(crate) fn utc_timestamp_nanos() -> (r: Option<i64>) {
    chrono::Utc::now().timestamp_nanos_opt()
}

/// Calls `chrono::Utc::now` and `DateTime::timestamp_millis`: the
/// milliseconds since the Unix epoch at the moment of the call. Nothing is
/// claimed of the value.
#[verifier::external_body]
pub(crate) fn utc_timestamp_millis() -> (r: i64) {
    chrono::Utc::now().timestamp_millis()
}

/// Calls `chrono::Utc::now` and `DateTime::to_rfc3339`: the moment of the
/// call as text. Nothing is claimed of the value.
#[verifier::external_body]
pub(crate) fn utc_rfc3339() -> (r: String) {
    chrono::Utc::now().to_rfc3339()
}

/// Calls `chrono::Utc::now` and `DateTime::timestamp_micros`: the
/// microseconds since the Unix epoch at the moment of the call. Nothing is
/// claimed of the value.
#[verifier::external_body]
pub(crate) fn utc_timestamp_micros() -> (r: i64) {
    chrono::Utc::now().timestamp_micros()
}

/// A moment on the standard library's monotonic clock, carried through as it
/// is.
#[verifier::external_type_specification]
#[verifier::external_body]
pub struct ExInstant(std::time::Instant);

/// Calls `std::time::Instant::now`. Nothing is claimed of the value.
#[verifier::external_body]
pub(crate) fn instant_now() -> (r: std::time::Instant) {
    std::time::Instant::now()
}

/// Calls `std::time::Instant::elapsed` and `Duration::as_micros`: the
/// microseconds gone by since `start`. Nothing is claimed of the value.
#[verifier::external_body]
pub(crate) fn elapsed_micros(start: &std::time::Instant) -> (r: u128) {
    start.elapsed().as_micros()
}

/// The duration that stands for a time gone by, in millionths of a second:
/// the microseconds gone by, and the longest duration there is where they are
/// more than that.
pub open spec fn elapsed_duration(elapsed: nat) -> int {
    if elapsed > i64::MAX {
        i64::MAX as int
    } else {
        elapsed as int
    }
}

/// The duration that stands for `elapsed` microseconds gone by, in millionths
/// of a second.
pub fn duration_from_elapsed(elapsed: u128) -> (r: i64)
    ensures
        r == elapsed_duration(elapsed as nat),
{
    if elapsed > i64::MAX as u128 {
        i64::MAX
    } else {
        elapsed as i64
    }
}

/// The microseconds since the Unix epoch that a time in the form of RFC 3339
/// stands for, as `chrono` reads it: `None` where the text is not of that
/// form.
pub uninterp spec fn rfc3339_micros(text: Seq<char>) -> Option<i64>;

/// Calls `chrono::DateTime::parse_from_rfc3339` and
/// `DateTime::timestamp_micros`. Trusted: the result is the moment that the
/// text stands for, in microseconds since the Unix epoch, and `None` where
/// `chrono` does not take the text.
#[verifier::external_body]
pub(crate) fn parse_rfc3339_micros(text: &str) -> (r: Option<i64>)
    ensures
        r == rfc3339_micros(text@),
{
    chrono::DateTime::parse_from_rfc3339(text).ok().map(|t| t.timestamp_micros())
}

} // verus!
