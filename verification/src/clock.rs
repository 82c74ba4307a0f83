//! The aggregator's clock: nanoseconds since the aggregator was made.

use std::time::Instant;
use vstd::prelude::*;

verus! {

#[verifier::external_type_specification]
#[verifier::external_body]
pub struct ExInstant(Instant);

/// Calls `std::time::Instant::now`. Nothing is claimed of the instant that comes back.
#[verifier::external_body]
pub(crate) fn instant_now() -> (now: Instant) {
    Instant::now()
}

/// Calls `std::time::Instant::elapsed` and hands on the nanoseconds of the duration it
/// returns. The reading depends on when the call is made, so nothing is claimed of it.
#[verifier::external_body]
pub(crate) fn nanos_since(origin: &Instant) -> (nanos: u128) {
    origin.elapsed().as_nanos()
}

/// Reads the clock whose zero is `origin`. A reading that does not fit becomes the
/// largest value.
pub(crate) fn read_clock(origin: &Instant) -> (now: u64) {
    clamp_nanos(nanos_since(origin))
}

/// The nanoseconds as a `u64`; what does not fit becomes the largest value.
pub open spec fn clamped(nanos: u128) -> u64 {
    if nanos > u64::MAX {
        u64::MAX
    } else {
        nanos as u64
    }
}

/// Brings a reading of the clock into a `u64`.
pub fn clamp_nanos(nanos: u128) -> (now: u64)
    ensures
        now == clamped(nanos),
{
    if nanos > u64::MAX as u128 {
        u64::MAX
    } else {
        nanos as u64
    }
}

} // verus!
