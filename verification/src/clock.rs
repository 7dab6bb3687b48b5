//! The monotonic clock by which the frame loop times its phases.

use vstd::prelude::*;
use std::time::Instant;
use core::time::Duration;

verus! {

/// `std::time::Instant`, a moment on the monotonic clock. Opaque.
#[verifier::external_type_specification]
#[verifier::external_body]
pub struct ExInstant(std::time::Instant);

/// `Instant::now`: the present moment. Nothing is claimed of it.
pub assume_specification[ std::time::Instant::now ]() -> (moment: std::time::Instant);

/// `Instant::elapsed`: the time since `moment`. Nothing is claimed of it.
pub assume_specification[ std::time::Instant::elapsed ](moment: &std::time::Instant) -> (spent:
    core::time::Duration);

/// `Duration::as_micros`: the whole microseconds in `span`. Nothing is
/// claimed of their number.
pub assume_specification[ core::time::Duration::as_micros ](span: &core::time::Duration) -> (micros:
    u128);

/// A count of microseconds as a sample: itself where it fits, else the
/// largest sample there is.
pub open spec fn clamped(micros: u128) -> u64 {
    if micros > u64::MAX {
        u64::MAX
    } else {
        micros as u64
    }
}

/// Narrows a count of microseconds to a sample.
pub fn clamp(micros: u128) -> (sample: u64)
    ensures
        sample == clamped(micros),
{
    if micros > u64::MAX as u128 {
        u64::MAX
    } else {
        micros as u64
    }
}

/// The microseconds that have passed since `start`.
pub(crate) fn micros_since(start: &Instant) -> (sample: u64) {
    let spent: Duration = start.elapsed();
    clamp(spent.as_micros())
}

} // verus!
