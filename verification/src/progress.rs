//! Progress reports: what one holds and how seldom one is due.

use vstd::prelude::*;

verus! {

/// A worker adds its attempts to the shared counter in batches of this size.
pub const FLUSH_INTERVAL: u64 = 50_000;

/// A worker reports progress when the shared counter has grown by at least
/// this much since its last report.
pub const PROGRESS_INTERVAL: u64 = 5_000_000;

/// One progress report.
#[derive(Clone, Copy, Debug, PartialEq, Eq, Structural)]
pub struct ProgressEvent {
    /// The attempts of all workers so far.
    pub total_attempts: u64,
    /// The time since the run began, in microseconds.
    pub elapsed_micros: u128,
    /// Whole attempts per second over the run so far.
    pub attempts_per_second: u64,
}

/// Attempts per second, rounded down and capped at `u64::MAX`. Where no time
/// has passed the rate is the cap, or 0 where nothing was attempted either.
pub open spec fn spec_rate(total_attempts: u64, elapsed_micros: u128) -> nat {
    if elapsed_micros == 0 {
        if total_attempts == 0 {
            0
        } else {
            u64::MAX as nat
        }
    } else {
        let rate = (total_attempts * 1_000_000) / (elapsed_micros as int);
        if rate > u64::MAX {
            u64::MAX as nat
        } else {
            rate as nat
        }
    }
}

/// The report for a counter reading and a clock reading.
pub open spec fn spec_event(total_attempts: u64, elapsed_micros: u128) -> ProgressEvent {
    ProgressEvent {
        total_attempts,
        elapsed_micros,
        attempts_per_second: spec_rate(total_attempts, elapsed_micros) as u64,
    }
}

/// A report is due: the counter is at least [`PROGRESS_INTERVAL`] past the
/// reading of the last report.
pub open spec fn spec_due(total_attempts: u64, last_reported: u64) -> bool {
    total_attempts - last_reported >= PROGRESS_INTERVAL
}

/// Computes attempts per second from the attempts and the elapsed time.
pub fn throughput(total_attempts: u64, elapsed_micros: u128) -> (rate: u64)
    ensures
        rate == spec_rate(total_attempts, elapsed_micros),
{
    if elapsed_micros == 0 {
        if total_attempts == 0 {
            0
        } else {
            u64::MAX
        }
    } else {
        let scaled: u128 = (total_attempts as u128) * 1_000_000;
        let rate: u128 = scaled / elapsed_micros;
        if rate > u64::MAX as u128 {
            u64::MAX
        } else {
            rate as u64
        }
    }
}

/// Builds the report for a counter reading and a clock reading.
pub fn event_at(total_attempts: u64, elapsed_micros: u128) -> (event: ProgressEvent)
    ensures
        event == spec_event(total_attempts, elapsed_micros),
{
    ProgressEvent {
        total_attempts,
        elapsed_micros,
        attempts_per_second: throughput(total_attempts, elapsed_micros),
    }
}

/// Decides whether a report is due, and builds it if so.
pub fn sample_at(total_attempts: u64, last_reported: u64, elapsed_micros: u128) -> (event: Option<
    ProgressEvent,
>)
    ensures
        event == (if spec_due(total_attempts, last_reported) {
            Some(spec_event(total_attempts, elapsed_micros))
        } else {
            None
        }),
{
    if total_attempts >= last_reported && total_attempts - last_reported >= PROGRESS_INTERVAL {
        Some(event_at(total_attempts, elapsed_micros))
    } else {
        None
    }
}

/// The rate never overstates: that many attempts per second, kept up for the
/// elapsed time, stay within the attempts that were made.
pub proof fn lemma_rate_is_floor(total_attempts: u64, elapsed_micros: u128)
    requires
        elapsed_micros > 0,
    ensures
        spec_rate(total_attempts, elapsed_micros) * elapsed_micros <= total_attempts * 1_000_000,
        spec_rate(total_attempts, elapsed_micros) < u64::MAX ==> total_attempts * 1_000_000 < (
        spec_rate(total_attempts, elapsed_micros) + 1) * elapsed_micros,
{
    let n = total_attempts * 1_000_000;
    let d = elapsed_micros as int;
    vstd::arithmetic::div_mod::lemma_fundamental_div_mod(n, d);
    vstd::arithmetic::div_mod::lemma_mod_bound(n, d);
    let q = n / d;
    assert(n == d * q + n % d);
    assert(q >= 0) by {
        vstd::arithmetic::div_mod::lemma_div_pos_is_pos(n, d);
    }
    assert(d * q == q * d) by (nonlinear_arith);
    assert((q + 1) * d == q * d + d) by (nonlinear_arith);
    if q > u64::MAX {
        assert(u64::MAX * d <= q * d) by (nonlinear_arith)
            requires
                u64::MAX <= q,
                d > 0,
        ;
    }
}

} // verus!
