//! Readings of the monotonic clock.

use vstd::prelude::*;
use std::time::Instant;

verus! {

#[verifier::external_type_specification]
#[verifier::external_body]
pub struct ExInstant(Instant);

/// Relies on `Instant::now`: a reading of the monotonic clock.
#[verifier::external_body]
pub(crate) fn clock_start() -> Instant {
    Instant::now()
}

/// Relies on `Instant::elapsed`: the time since `origin`, in whole
/// milliseconds. Nothing is promised of its value.
#[verifier::external_body]
pub(crate) fn millis_since(origin: &Instant) -> u64 {
    origin.elapsed().as_millis() as u64
}

} // verus!
