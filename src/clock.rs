//! The monotonic clock that timestamps entries and exits.
use vstd::prelude::*;

verus! {

#[verifier::external_type_specification]
#[verifier::external_body]
pub struct ExClock(quanta::Clock);

/// Relies on quanta::Clock::new: builds the fastest clock available,
/// calibrated against the reference clock.
#[verifier::external_body]
pub(crate) fn new_clock() -> quanta::Clock {
    quanta::Clock::new()
}

/// Relies on quanta::Clock::now and quanta::Instant::as_u64: the current
/// time in nanoseconds. Nothing is stated of the value, which depends on when
/// the call is made.
#[verifier::external_body]
pub(crate) fn now_nanos(clock: &quanta::Clock) -> u64 {
    clock.now().as_u64()
}

} // verus!
