//! The state that the workers of one run share: a counter of attempts and a
//! flag that ends the run.
//!
//! Both are atomics. What one of them holds can change between any two steps
//! of a caller, so no function here promises anything of a value read.

use crate::clock::Stopwatch;
use std::sync::atomic::{AtomicBool, AtomicU64, Ordering};
use vstd::prelude::*;

verus! {

/// The shared state of one run.
pub struct SearchCounters {
    attempts: AtomicU64,
    stop: AtomicBool,
    clock: Stopwatch,
}

impl SearchCounters {
    /// The counters of a run that begins now: no attempts, no stop.
    pub fn new() -> (counters: Self) {
        SearchCounters {
            attempts: AtomicU64::new(0),
            stop: AtomicBool::new(false),
            clock: Stopwatch::start(),
        }
    }

    /// Adds a batch of attempts and returns the counter's value after it. The
    /// counter wraps at `u64::MAX`.
    pub fn add_attempts(&self, batch: u64) -> (total: u64) {
        let before: u64 = self.attempts.fetch_add(batch, Ordering::Relaxed);
        before.wrapping_add(batch)
    }

    /// Reads the counter.
    pub fn total_attempts(&self) -> (total: u64) {
        self.attempts.load(Ordering::Relaxed)
    }

    /// Tells whether the run is to end.
    pub fn stop_requested(&self) -> (stop: bool) {
        self.stop.load(Ordering::Relaxed)
    }

    /// Ends the run: every worker that looks at the flag from now on stops.
    pub fn request_stop(&self) {
        self.stop.store(true, Ordering::Relaxed);
    }

    /// Ends the run and tells whether this call was the one that ended it.
    /// Of all calls on one value, and whatever else was called on it, at most
    /// one is told so: the first that found the flag down.
    pub fn try_publish(&self) -> (won: bool) {
        self.stop.compare_exchange(false, true, Ordering::SeqCst, Ordering::SeqCst).is_ok()
    }

    /// The microseconds since the run began.
    pub fn elapsed_micros(&self) -> (micros: u128) {
        self.clock.elapsed_micros()
    }
}

} // verus!
