//! Wall-clock timing for the passes.
//!
//! The clock is outside the logic: nothing can be stated about what a reading
//! returns, so the wrappers promise nothing, and the accumulation that the
//! passes perform on the readings is verified for every possible reading.

use vstd::prelude::*;

verus! {

/// Declares the monotonic clock reading type so it can stand in signatures;
/// Verus sees nothing inside a value of it.
#[verifier::external_type_specification]
#[verifier::external_body]
pub struct ExInstant(std::time::Instant);

/// Relies on std::time::Instant::now: the clock reading at the call.
#[verifier::external_body]
pub(crate) fn clock_now() -> std::time::Instant {
    std::time::Instant::now()
}

/// Relies on std::time::Instant::elapsed: the time passed since `start`; any
/// duration may come back.
#[verifier::external_body]
pub(crate) fn clock_elapsed(start: &std::time::Instant) -> std::time::Duration {
    start.elapsed()
}

/// Relies on std::time::Duration::as_nanos: the duration as a count of whole
/// nanoseconds.
#[verifier::external_body]
pub(crate) fn duration_nanos(d: &std::time::Duration) -> u128 {
    d.as_nanos()
}

/// Adds one timed step to a running total, sticking at the top of the range
/// rather than wrapping: a duration accumulator never decreases.
pub fn accumulate_ns(total: u128, step: u128) -> (r: u128)
    ensures
        r as int == (if total + step <= u128::MAX {
            total + step
        } else {
            u128::MAX as int
        }),
        r >= total,
{
    if step <= u128::MAX - total {
        total + step
    } else {
        u128::MAX
    }
}

} // verus!
