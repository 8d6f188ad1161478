//! The run's clock.

use std::time::{Duration, Instant};
use vstd::prelude::*;

verus! {

/// `std`'s moment in time. Nothing inside it is visible here.
#[verifier::external_type_specification]
#[verifier::external_body]
pub struct ExInstant(std::time::Instant);

/// `Instant::now`: the present moment. Nothing is claimed of it.
#[verifier::external_body]
fn now() -> (moment: Instant) {
    Instant::now()
}

/// `Instant::elapsed`: the time that has passed since `start`. Nothing is
/// claimed of it.
#[verifier::external_body]
fn since(start: &Instant) -> (passed: Duration) {
    start.elapsed()
}

/// `Duration::as_micros`: the whole microseconds in `span`. Nothing is
/// claimed of the number.
#[verifier::external_body]
fn micros_of(span: &Duration) -> (micros: u128) {
    span.as_micros()
}

/// A clock that was started once and is read in microseconds.
pub(crate) struct Stopwatch {
    started: Instant,
}

impl Stopwatch {
    /// Starts a clock now.
    pub(crate) fn start() -> (clock: Self) {
        Stopwatch { started: now() }
    }

    /// The microseconds since the clock was started.
    pub(crate) fn elapsed_micros(&self) -> (micros: u128) {
        let passed = since(&self.started);
        micros_of(&passed)
    }
}

} // verus!
