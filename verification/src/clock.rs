//! The wall clock. Its readings depend on the moment of the call, so
//! nothing is claimed of them: callers are verified for every reading.

use std::time::{Duration, Instant};
use vstd::prelude::*;

verus! {

/// `std::time::Instant`, a point in time that can only be compared with
/// other such points. Nothing inside it is visible here.
#[verifier::external_type_specification]
#[verifier::external_body]
pub struct ExInstant(std::time::Instant);

/// Calls `std::time::Instant::now`. The result is the current moment;
/// the contract claims nothing of it.
#[verifier::external_body]
pub(crate) fn clock_now() -> Instant {
    Instant::now()
}

/// Calls `std::time::Instant::elapsed`. The result is the time that has
/// passed since `start`; the contract claims nothing of it.
#[verifier::external_body]
pub(crate) fn clock_elapsed(start: &Instant) -> Duration {
    start.elapsed()
}

/// Calls `std::time::Duration::as_nanos`. The result is the length of
/// the duration in nanoseconds; since a duration shows nothing of itself
/// here, the contract claims nothing of the number.
#[verifier::external_body]
pub(crate) fn duration_nanos(duration: &Duration) -> u128 {
    duration.as_nanos()
}

} // verus!
