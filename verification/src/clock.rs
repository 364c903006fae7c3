//! Readings of the system clocks. Every reading depends on the time it is
//! taken, so nothing is promised of the values; the logic that uses them takes
//! them as arguments and is verified for every value.

use std::time::Instant;
use vstd::prelude::*;

verus! {

/// `std::time::Instant`, carried through as an opaque value.
#[verifier::external_type_specification]
#[verifier::external_body]
pub struct ExInstant(Instant);

/// Calls `Instant::now`: the current reading of the monotonic clock.
/// Nothing is stated of the result; it depends on the time of the call.
#[verifier::external_body]
pub fn monotonic_now() -> Instant {
    Instant::now()
}

/// Calls `Instant::elapsed` on `origin` and converts the duration to whole
/// milliseconds. Nothing is stated of the result; it depends on the time of
/// the call.
#[verifier::external_body]
pub fn millis_since(origin: &Instant) -> u128 {
    origin.elapsed().as_millis()
}

/// `std::time::SystemTime`, carried through as an opaque value.
#[verifier::external_type_specification]
#[verifier::external_body]
pub struct ExSystemTime(std::time::SystemTime);

/// Calls `SystemTime::now`: the current reading of the system clock.
/// Nothing is stated of the result; it depends on the time of the call.
#[verifier::external_body]
pub fn system_now() -> std::time::SystemTime {
    std::time::SystemTime::now()
}

/// Calls `SystemTime::duration_since(UNIX_EPOCH)` on `time` and converts the
/// duration to whole milliseconds; `None` when `time` is earlier than the
/// epoch. Nothing is stated of the result: it depends on the clock reading
/// that `time` carries, which is opaque here.
#[verifier::external_body]
pub fn millis_since_epoch(time: &std::time::SystemTime) -> Option<u128> {
    match time.duration_since(std::time::UNIX_EPOCH) {
        Ok(duration) => Some(duration.as_millis()),
        Err(_) => None,
    }
}

/// Narrows a millisecond count to `u64`, saturating at `u64::MAX`.
pub fn saturate_u64(value: u128) -> (r: u64)
    ensures
        r == (if value <= u64::MAX { value as int } else { u64::MAX as int }),
{
    if value <= u64::MAX as u128 {
        value as u64
    } else {
        u64::MAX
    }
}

/// Milliseconds since the Unix epoch, the observation timestamp that anchors
/// the keypress-to-audio latency timeline: 0 when the system clock reads
/// earlier than the epoch, `u64::MAX` when the count does not fit.
pub fn now_ms() -> (r: u64) {
    match millis_since_epoch(&system_now()) {
        Some(ms) => saturate_u64(ms),
        None => 0,
    }
}

} // verus!
