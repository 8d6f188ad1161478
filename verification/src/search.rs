//! The search itself: one chunk of a worker's loop, a worker's whole share,
//! the run across all workers, and how a run ends.

use crate::config::SearchConfig;
use crate::counters::SearchCounters;
use crate::keygen::Candidate;
use crate::parallel::find_map_any_below;
use crate::progress::{spec_event, ProgressEvent};
use crate::worker::{FlushVerdict, Gate, WorkerAction, WorkerState};
use vstd::prelude::*;
use vstd::utf8::encode_utf8;

verus! {

/// A candidate whose address satisfied the query.
#[derive(Debug)]
pub struct Discovery {
    /// The address, as text.
    pub address: String,
    /// The candidate's secret: the export of its key pair, or the text that
    /// it was given.
    pub private_key: String,
    /// The shared counter's value when the match was published.
    pub total_attempts: u64,
    /// The time from the start of the run to the match, in microseconds.
    pub elapsed_micros: u128,
}

/// How a run ended.
#[derive(Debug)]
pub enum MatchResult {
    /// A worker published a match.
    Found(Discovery),
    /// The attempt limit was reached without a match.
    Exhausted { total_attempts: u64, elapsed_micros: u128 },
    /// The run was stopped from outside, or ran out of candidates, before it
    /// found anything.
    Stopped,
}

/// What became of one chunk of a worker's work.
#[derive(Debug)]
pub enum ChunkOutcome {
    /// The chunk's candidates are tested and the run goes on.
    Unfinished,
    /// A progress report is due; the run goes on.
    Progress(ProgressEvent),
    /// This worker found a match and was the first to publish one.
    Found(Discovery),
    /// The attempt limit is reached; the run is told to stop.
    Exhausted,
    /// The run is over for this worker: it was told to stop (from outside, by
    /// a worker that reached the limit, or by a worker that published before
    /// this one could), or there are no more candidates.
    Stopped,
}

/// The result of a run from what its workers left behind.
pub open spec fn spec_conclude(
    winner: Option<Discovery>,
    max_attempts: u64,
    total_attempts: u64,
    elapsed_micros: u128,
) -> MatchResult {
    match winner {
        Some(found) => MatchResult::Found(found),
        None => if max_attempts > 0 && total_attempts >= max_attempts {
            MatchResult::Exhausted { total_attempts, elapsed_micros }
        } else {
            MatchResult::Stopped
        },
    }
}

/// Decides how a run ended: with the published match if there is one, else
/// exhausted where a limit was set and the counter has reached it, else
/// stopped.
pub fn conclude(
    winner: Option<Discovery>,
    max_attempts: u64,
    total_attempts: u64,
    elapsed_micros: u128,
) -> (result: MatchResult)
    ensures
        result == spec_conclude(winner, max_attempts, total_attempts, elapsed_micros),
{
    match winner {
        Some(found) => MatchResult::Found(found),
        None => if max_attempts > 0 && total_attempts >= max_attempts {
            MatchResult::Exhausted { total_attempts, elapsed_micros }
        } else {
            MatchResult::Stopped
        },
    }
}

/// `found` holds a candidate that `generate` handed out: its address, and
/// its secret where the candidate was given one as text.
pub open spec fn handed_out_by<G: Fn() -> Option<Candidate>>(generate: &G, found: Discovery) -> bool {
    exists|candidate: Candidate|
        {
            &&& #[trigger] call_ensures(generate, (), Some(candidate))
            &&& found.address@ == candidate.spec_address()
            &&& candidate.spec_given_secret() matches Some(secret) ==> found.private_key@
                == secret
        }
}

/// `n`, but at most `u64::MAX`.
pub open spec fn capped(n: int) -> u64 {
    if n > u64::MAX {
        u64::MAX
    } else {
        n as u64
    }
}

/// Runs one chunk of a worker's loop: draw a candidate from `generate`, test
/// its address, count the attempt, and hand batches of attempts to the shared
/// counter.
///
/// The chunk ends early when the run is told to stop, when the attempt limit
/// is reached (by this worker alone, or by the shared counter at a flush),
/// when `generate` has no more candidates, when a match is found, and when a
/// progress report is due. A match is published at most once per run: a
/// worker that finds one after another has published reports `Stopped` and
/// its match is dropped.
///
/// What `generate` hands out and what the other workers do is not known
/// here, so the outcome is not determined. Whatever it is: an address that is
/// reported was handed out by `generate` and satisfies the query, exhaustion
/// is reported only under a limit, a report carries the rate that belongs to
/// its readings, and the worker has counted at most one chunk of candidates:
/// a whole chunk where the outcome is `Unfinished`. After a match, a report
/// or exhaustion the worker holds no attempts back from the shared counter.
pub fn run_chunk<G: Fn() -> Option<Candidate>>(
    config: &SearchConfig,
    counters: &SearchCounters,
    state: &mut WorkerState,
    generate: &G,
) -> (outcome: ChunkOutcome)
    requires
        call_requires(generate, ()),
    ensures
        outcome matches ChunkOutcome::Found(found) ==> config@.accepts(
            encode_utf8(found.address@),
        ) && handed_out_by(generate, found),
        outcome is Exhausted ==> config@.max_attempts > 0,
        outcome matches ChunkOutcome::Progress(event) ==> event == spec_event(
            event.total_attempts,
            event.elapsed_micros,
        ) && final(state)@.last_progress == event.total_attempts,
        old(state)@.local_attempts <= final(state)@.local_attempts <= old(state)@.local_attempts
            + config@.budget(),
        outcome is Unfinished ==> final(state)@.local_attempts == capped(
            old(state)@.local_attempts + config@.budget(),
        ),
        outcome is Found || outcome is Progress ==> final(state)@.local_attempts >= capped(
            old(state)@.local_attempts + 1,
        ),
        outcome is Found || outcome is Exhausted || outcome is Progress ==> final(state)@.unflushed
            == 0,
        !(outcome is Progress) ==> final(state)@.last_progress == old(state)@.last_progress,
{
    let budget: usize = config.chunk_budget();
    let max_attempts: u64 = config.max_attempts();
    let mut spent: usize = 0;
    while spent < budget
        invariant
            spent <= budget,
            budget == config@.budget(),
            max_attempts == config@.max_attempts,
            call_requires(generate, ()),
            state@.local_attempts == capped(old(state)@.local_attempts + spent),
            state@.last_progress == old(state)@.last_progress,
        decreases budget - spent,
    {
        match state.gate(counters.stop_requested(), max_attempts) {
            Gate::Stop => {
                return ChunkOutcome::Stopped;
            },
            Gate::Exhaust => {
                let batch: u64 = state.drain();
                counters.add_attempts(batch);
                counters.request_stop();
                return ChunkOutcome::Exhausted;
            },
            Gate::Proceed => {},
        }
        let candidate = match generate() {
            Some(candidate) => candidate,
            None => {
                let batch: u64 = state.drain();
                counters.add_attempts(batch);
                return ChunkOutcome::Stopped;
            },
        };
        let matched = config.is_match(candidate.address());
        spent += 1;
        match state.record(matched) {
            WorkerAction::Publish { batch } => {
                let total_attempts: u64 = counters.add_attempts(batch);
                if counters.try_publish() {
                    let elapsed_micros: u128 = counters.elapsed_micros();
                    let (address, private_key) = candidate.export();
                    return ChunkOutcome::Found(
                        Discovery { address, private_key, total_attempts, elapsed_micros },
                    );
                }
                return ChunkOutcome::Stopped;
            },
            WorkerAction::Flush { batch } => {
                let total_attempts: u64 = counters.add_attempts(batch);
                let elapsed_micros: u128 = counters.elapsed_micros();
                match state.after_flush(total_attempts, max_attempts, elapsed_micros) {
                    FlushVerdict::Exhausted => {
                        counters.request_stop();
                        return ChunkOutcome::Exhausted;
                    },
                    FlushVerdict::Report(event) => {
                        return ChunkOutcome::Progress(event);
                    },
                    FlushVerdict::Continue => {},
                }
            },
            WorkerAction::Continue => {},
        }
    }
    ChunkOutcome::Unfinished
}

/// One worker's whole share of a run: chunk after chunk until the run ends
/// for this worker, with every progress report handed to `report`.
///
/// The worker gives back the match that it published, if it published one.
/// It retires without one when the run is told to stop, when the attempt
/// limit is reached, when `generate` has no more candidates, and after
/// `u64::MAX` candidates of its own.
pub fn work<G: Fn() -> Option<Candidate>, F: Fn(ProgressEvent)>(
    config: &SearchConfig,
    counters: &SearchCounters,
    generate: &G,
    report: &F,
) -> (found: Option<Discovery>)
    requires
        call_requires(generate, ()),
        forall|event: ProgressEvent| call_requires(report, (event,)),
    ensures
        found matches Some(d) ==> config@.accepts(encode_utf8(d.address@)) && handed_out_by(
            generate,
            d,
        ),
{
    let mut state = WorkerState::new();
    while state.local_attempts() < u64::MAX
        invariant
            call_requires(generate, ()),
            forall|event: ProgressEvent| call_requires(report, (event,)),
            config@.budget() >= 1,
        decreases u64::MAX - state@.local_attempts,
    {
        match run_chunk(config, counters, &mut state, generate) {
            ChunkOutcome::Unfinished => {},
            ChunkOutcome::Progress(event) => {
                report(event);
            },
            ChunkOutcome::Found(found) => {
                return Some(found);
            },
            ChunkOutcome::Exhausted => {
                return None;
            },
            ChunkOutcome::Stopped => {
                return None;
            },
        }
    }
    None
}

/// Runs the search: one worker per lane of the configuration on the current
/// thread pool, all drawing from `generate` and counting on `counters`, until
/// one of them publishes a match or the run ends without one.
///
/// The run ends without a match when the attempt limit is reached, when
/// `generate` has no more candidates, and when `counters` is told to stop
/// from outside. What `generate` hands out and in which order the workers
/// take their turns is not known here, so the result is not determined.
/// Whatever it is: an address that is found was handed out by `generate` and
/// satisfies the query, and the run is reported exhausted only under a limit
/// that the counter has reached.
pub fn search<G: Fn() -> Option<Candidate> + Sync, F: Fn(ProgressEvent) + Sync>(
    config: &SearchConfig,
    counters: &SearchCounters,
    generate: &G,
    report: &F,
) -> (result: MatchResult)
    requires
        call_requires(generate, ()),
        forall|event: ProgressEvent| call_requires(report, (event,)),
    ensures
        result matches MatchResult::Found(d) ==> config@.accepts(encode_utf8(d.address@))
            && handed_out_by(generate, d),
        result matches MatchResult::Exhausted { total_attempts, .. } ==> 0 < config@.max_attempts
            <= total_attempts,
{
    let worker = |lane: usize| -> (found: Option<Discovery>)
        ensures
            found matches Some(d) ==> config@.accepts(encode_utf8(d.address@)) && handed_out_by(
                generate,
                d,
            ),
        { work(config, counters, generate, report) };
    let winner = find_map_any_below(config.lanes(), worker);
    let total_attempts: u64 = counters.total_attempts();
    let elapsed_micros: u128 = counters.elapsed_micros();
    conclude(winner, config.max_attempts(), total_attempts, elapsed_micros)
}

} // verus!
