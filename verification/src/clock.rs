//! The monotonic clock the stage timings are taken from.
//!
//! Readings of the clock are opaque: nothing is promised of their
//! values, only that each stage's duration is whatever the clock
//! measured.  Everything downstream of a reading is verified for every
//! value the clock could return.

use vstd::prelude::*;
use std::time::Duration;
use std::time::Instant;

verus! {

#[verifier::external_type_specification]
#[verifier::external_body]
pub struct ExInstant(Instant);

/// Relies on `std::time::Instant::now`: an opaque reading of the
/// monotonic clock.
#[verifier::external_body]
pub(crate) fn monotonic_now() -> Instant {
    Instant::now()
}

/// Relies on `std::time::Instant::elapsed`: the time since `start`, or
/// zero when the clock has not advanced.
#[verifier::external_body]
pub(crate) fn elapsed_since(start: &Instant) -> Duration {
    start.elapsed()
}

/// Relies on `std::time::Duration::as_nanos`: the whole duration in
/// nanoseconds.
#[verifier::external_body]
pub(crate) fn duration_as_nanos(d: &Duration) -> u128 {
    d.as_nanos()
}

/// Clamp a nanosecond count into `u64`, saturating at the largest value.
pub(crate) fn saturate_nanos(n: u128) -> (r: u64)
    ensures
        n <= u64::MAX ==> r == n,
        n > u64::MAX ==> r == u64::MAX,
{
    if n > u64::MAX as u128 {
        u64::MAX
    } else {
        n as u64
    }
}

} // verus!
