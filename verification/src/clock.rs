//! The monotonic clock source: a quanta clock read at enter and exit events.
//! A reading is an opaque point in time; nothing is promised of its value,
//! and every function that interprets one takes it as a plain argument.

use vstd::prelude::*;

verus! {

#[verifier::external_type_specification]
#[verifier::external_body]
pub struct ExClock(quanta::Clock);

/// Relies on `quanta::Clock::default`: builds a calibrated monotonic clock.
#[verifier::external_body]
pub(crate) fn default_clock() -> quanta::Clock {
    quanta::Clock::default()
}

/// Relies on `quanta::Clock::now` and `quanta::Instant::as_u64`: reads the
/// clock, scaled to reference time, as a nanosecond count. The value depends
/// on when the call runs, so nothing is promised of it.
#[verifier::external_body]
pub(crate) fn clock_now(clock: &quanta::Clock) -> u64 {
    clock.now().as_u64()
}

} // verus!
