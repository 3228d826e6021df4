//! Monotonic clock readings.
use vstd::prelude::*;

verus! {

#[verifier::external_type_specification]
#[verifier::external_body]
pub struct ExInstant(std::time::Instant);

/// `Instant::now`: a reading of the monotonic clock. Nothing is stated of
/// the value; it depends on when the call is made.
#[verifier::external_body]
pub(crate) fn instant_now() -> std::time::Instant {
    std::time::Instant::now()
}

/// `Instant::elapsed`: the time since the reading. Nothing is stated of the
/// value; it depends on when the call is made.
#[verifier::external_body]
fn instant_elapsed(since: &std::time::Instant) -> std::time::Duration {
    since.elapsed()
}

/// `Duration::as_nanos`: the whole nanoseconds of the duration. The duration
/// is opaque here, so nothing is stated of the number.
#[verifier::external_body]
fn duration_as_nanos(d: &std::time::Duration) -> u128 {
    d.as_nanos()
}

/// A count of nanoseconds as a `u64`, saturating at `u64::MAX`.
pub open spec fn saturated_nanos(n: u128) -> u64 {
    if n > u64::MAX as u128 {
        u64::MAX
    } else {
        n as u64
    }
}

/// Narrows a count of nanoseconds to `u64`, saturating at `u64::MAX` (about
/// 584 years).
pub fn saturate_nanos(n: u128) -> (r: u64)
    ensures
        r == saturated_nanos(n),
{
    if n > u64::MAX as u128 {
        u64::MAX
    } else {
        n as u64
    }
}

/// Nanoseconds since the reading, saturating at `u64::MAX`. The value comes
/// from the clock, so nothing is stated of it.
pub(crate) fn elapsed_nanos(since: &std::time::Instant) -> u64 {
    saturate_nanos(duration_as_nanos(&instant_elapsed(since)))
}

} // verus!
