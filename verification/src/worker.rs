//! The bookkeeping of one worker: how many candidates it has tested, how many
//! of those the shared counter has not seen yet, and when it last reported.
//!
//! Nothing here touches shared state. A worker tells this state what happened
//! and is told what to do with the shared counter.

use crate::progress::{sample_at, spec_due, spec_event, ProgressEvent, FLUSH_INTERVAL};
use vstd::prelude::*;

verus! {

/// What a worker does after testing one candidate.
#[derive(Clone, Copy, Debug, PartialEq, Eq, Structural)]
pub enum WorkerAction {
    /// Test the next candidate.
    Continue,
    /// Add `batch` attempts to the shared counter, then test the next
    /// candidate.
    Flush { batch: u64 },
    /// The candidate matched: add `batch` attempts to the shared counter and
    /// try to publish the candidate.
    Publish { batch: u64 },
}

/// What a worker does before it generates the next candidate.
#[derive(Clone, Copy, Debug, PartialEq, Eq, Structural)]
pub enum Gate {
    /// Generate and test a candidate.
    Proceed,
    /// The run was told to stop: leave.
    Stop,
    /// This worker has reached the attempt limit: hand over the pending
    /// attempts, tell the run to stop, and leave.
    Exhaust,
}

/// What a worker does after it has added a full batch to the shared counter.
#[derive(Clone, Copy, Debug, PartialEq, Eq, Structural)]
pub enum FlushVerdict {
    /// Test the next candidate.
    Continue,
    /// Hand out this progress report, then test the next candidate.
    Report(ProgressEvent),
    /// The shared counter has reached the attempt limit: tell the run to
    /// stop, and leave.
    Exhausted,
}

/// What a worker's bookkeeping stands for.
pub struct WorkerView {
    /// Candidates tested since the worker began, capped at `u64::MAX`.
    pub local_attempts: u64,
    /// Tested candidates that the shared counter has not seen yet.
    pub unflushed: u64,
    /// The reading of the shared counter at this worker's last report.
    pub last_progress: u64,
}

/// `n + 1`, but `u64::MAX` stays.
pub open spec fn bump(n: u64) -> u64 {
    if n < u64::MAX {
        (n + 1) as u64
    } else {
        n
    }
}

impl WorkerView {
    /// The state of a worker that has tested nothing.
    pub open spec fn initial() -> WorkerView {
        WorkerView { local_attempts: 0, unflushed: 0, last_progress: 0 }
    }

    /// The attempt limit is set and this worker alone has reached it.
    pub open spec fn bound_reached(self, max_attempts: u64) -> bool {
        max_attempts > 0 && self.local_attempts >= max_attempts
    }

    /// What the worker does before the next candidate. A stop that was asked
    /// for counts before the limit.
    pub open spec fn gate(self, stop_requested: bool, max_attempts: u64) -> Gate {
        if stop_requested {
            Gate::Stop
        } else if self.bound_reached(max_attempts) {
            Gate::Exhaust
        } else {
            Gate::Proceed
        }
    }

    /// What the worker does after a flush that brought the shared counter to
    /// `total_attempts`. The limit counts before a report.
    pub open spec fn flush_verdict(
        self,
        total_attempts: u64,
        max_attempts: u64,
        elapsed_micros: u128,
    ) -> FlushVerdict {
        if max_attempts > 0 && total_attempts >= max_attempts {
            FlushVerdict::Exhausted
        } else if spec_due(total_attempts, self.last_progress) {
            FlushVerdict::Report(spec_event(total_attempts, elapsed_micros))
        } else {
            FlushVerdict::Continue
        }
    }

    /// A flush is due with the next candidate: the batch is then full.
    pub open spec fn batch_fills(self) -> bool {
        self.unflushed + 1 >= FLUSH_INTERVAL
    }

    /// What the worker does after one more candidate.
    pub open spec fn action(self, matched: bool) -> WorkerAction {
        if matched {
            WorkerAction::Publish { batch: (self.unflushed + 1) as u64 }
        } else if self.batch_fills() {
            WorkerAction::Flush { batch: (self.unflushed + 1) as u64 }
        } else {
            WorkerAction::Continue
        }
    }

    /// The state after one more candidate.
    pub open spec fn after(self, matched: bool) -> WorkerView {
        WorkerView {
            local_attempts: bump(self.local_attempts),
            unflushed: if matched || self.batch_fills() {
                0
            } else {
                (self.unflushed + 1) as u64
            },
            last_progress: self.last_progress,
        }
    }

    /// The attempts of this worker that the shared counter has seen.
    pub open spec fn flushed(self) -> int {
        self.local_attempts - self.unflushed
    }

    /// What every worker state holds: a batch that is not full yet, made of
    /// attempts that were counted.
    pub open spec fn valid(self) -> bool {
        self.unflushed < FLUSH_INTERVAL && (self.unflushed <= self.local_attempts)
    }
}

/// The attempts that an action hands to the shared counter.
pub open spec fn batch_of(action: WorkerAction) -> u64 {
    match action {
        WorkerAction::Continue => 0,
        WorkerAction::Flush { batch } => batch,
        WorkerAction::Publish { batch } => batch,
    }
}

/// Every tested candidate reaches the shared counter once: after a step the
/// attempts handed over so far have grown by exactly the batch of the step's
/// action, and no batch is larger than [`FLUSH_INTERVAL`].
pub proof fn lemma_each_attempt_flushed_once(w: WorkerView, matched: bool)
    requires
        w.valid(),
        w.local_attempts < u64::MAX,
    ensures
        w.after(matched).valid(),
        w.after(matched).flushed() == w.flushed() + batch_of(w.action(matched)),
        w.after(matched).local_attempts == w.local_attempts + 1,
        batch_of(w.action(matched)) <= FLUSH_INTERVAL,
        !matched ==> (w.action(matched) is Flush <==> w.unflushed + 1 == FLUSH_INTERVAL),
{
}

impl WorkerView {
    /// The state after `n` more candidates, none of which matched.
    pub open spec fn after_misses(self, n: nat) -> WorkerView
        decreases n,
    {
        if n == 0 {
            self
        } else {
            self.after_misses((n - 1) as nat).after(false)
        }
    }

    /// The attempts that the worker hands to the shared counter while it
    /// tests `n` more candidates, none of which matches.
    pub open spec fn flushed_by_misses(self, n: nat) -> int
        decreases n,
    {
        if n == 0 {
            0
        } else {
            self.flushed_by_misses((n - 1) as nat) + batch_of(
                self.after_misses((n - 1) as nat).action(false),
            )
        }
    }
}

/// A worker on its own, under a limit, whose candidates all miss: it is let
/// through to its next candidate until it has tested exactly `limit` of them
/// and is then told that the limit is reached; and what it has handed to the
/// shared counter by then, together with what it still holds back, is
/// exactly the number of candidates it tested.
pub proof fn lemma_lone_worker_counts_to_limit(limit: u64, n: nat)
    requires
        limit > 0,
        n <= limit,
    ensures
        WorkerView::initial().after_misses(n).valid(),
        WorkerView::initial().after_misses(n).local_attempts == n,
        WorkerView::initial().after_misses(n).gate(false, limit) == (if n == limit {
            Gate::Exhaust
        } else {
            Gate::Proceed
        }),
        WorkerView::initial().flushed_by_misses(n) + WorkerView::initial().after_misses(
            n,
        ).unflushed == n,
    decreases n,
{
    if n > 0 {
        let before = WorkerView::initial().after_misses((n - 1) as nat);
        lemma_lone_worker_counts_to_limit(limit, (n - 1) as nat);
        lemma_each_attempt_flushed_once(before, false);
    }
}

/// The bookkeeping of one worker.
pub struct WorkerState {
    local_attempts: u64,
    unflushed: u64,
    last_progress: u64,
}

impl View for WorkerState {
    type V = WorkerView;

    closed spec fn view(&self) -> WorkerView {
        WorkerView {
            local_attempts: self.local_attempts,
            unflushed: self.unflushed,
            last_progress: self.last_progress,
        }
    }
}

impl WorkerState {
    #[verifier::type_invariant]
    spec fn well_formed(&self) -> bool {
        self@.valid()
    }

    /// The state of a worker that has tested nothing.
    pub fn new() -> (state: Self)
        ensures
            state@ == WorkerView::initial(),
    {
        WorkerState { local_attempts: 0, unflushed: 0, last_progress: 0 }
    }

    /// The candidates tested so far.
    pub fn local_attempts(&self) -> (n: u64)
        ensures
            n == self@.local_attempts,
    {
        self.local_attempts
    }

    /// Tells whether the attempt limit is set and this worker alone has
    /// reached it. A limit of 0 is no limit.
    pub fn bound_reached(&self, max_attempts: u64) -> (r: bool)
        ensures
            r == self@.bound_reached(max_attempts),
    {
        max_attempts > 0 && self.local_attempts >= max_attempts
    }

    /// Decides what to do before the next candidate, from the shared stop
    /// flag as it was just read and the attempt limit.
    pub fn gate(&self, stop_requested: bool, max_attempts: u64) -> (gate: Gate)
        ensures
            gate == self@.gate(stop_requested, max_attempts),
    {
        if stop_requested {
            Gate::Stop
        } else if self.bound_reached(max_attempts) {
            Gate::Exhaust
        } else {
            Gate::Proceed
        }
    }

    /// Counts one tested candidate and says what to do next.
    pub fn record(&mut self, matched: bool) -> (action: WorkerAction)
        ensures
            action == old(self)@.action(matched),
            final(self)@ == old(self)@.after(matched),
            final(self)@.valid(),
    {
        proof {
            use_type_invariant(&*self);
        }
        self.local_attempts = self.local_attempts.saturating_add(1);
        let batch: u64 = self.unflushed + 1;
        if matched {
            self.unflushed = 0;
            WorkerAction::Publish { batch }
        } else if batch >= FLUSH_INTERVAL {
            self.unflushed = 0;
            WorkerAction::Flush { batch }
        } else {
            self.unflushed = batch;
            WorkerAction::Continue
        }
    }

    /// Hands over the attempts that the shared counter has not seen yet.
    pub fn drain(&mut self) -> (batch: u64)
        ensures
            batch == old(self)@.unflushed,
            final(self)@ == (WorkerView { unflushed: 0, ..old(self)@ }),
    {
        let batch: u64 = self.unflushed;
        self.unflushed = 0;
        batch
    }

    /// Decides, at a reading `total_attempts` of the shared counter taken
    /// `elapsed_micros` into the run, whether this worker reports progress.
    /// If so, the reading becomes the worker's last report.
    pub fn sample(&mut self, total_attempts: u64, elapsed_micros: u128) -> (event: Option<
        ProgressEvent,
    >)
        ensures
            event == (if spec_due(total_attempts, old(self)@.last_progress) {
                Some(spec_event(total_attempts, elapsed_micros))
            } else {
                None
            }),
            final(self)@ == (WorkerView {
                last_progress: if event is Some {
                    total_attempts
                } else {
                    old(self)@.last_progress
                },
                ..old(self)@
            }),
    {
        proof {
            use_type_invariant(&*self);
        }
        let event = sample_at(total_attempts, self.last_progress, elapsed_micros);
        if event.is_some() {
            self.last_progress = total_attempts;
        }
        event
    }

    /// Decides what to do after a flush that brought the shared counter to
    /// `total_attempts`, `elapsed_micros` into the run. A report that is
    /// handed out becomes the worker's last report.
    pub fn after_flush(&mut self, total_attempts: u64, max_attempts: u64, elapsed_micros: u128) -> (verdict:
        FlushVerdict)
        ensures
            verdict == old(self)@.flush_verdict(total_attempts, max_attempts, elapsed_micros),
            final(self)@ == (WorkerView {
                last_progress: if verdict is Report {
                    total_attempts
                } else {
                    old(self)@.last_progress
                },
                ..old(self)@
            }),
    {
        if max_attempts > 0 && total_attempts >= max_attempts {
            return FlushVerdict::Exhausted;
        }
        match self.sample(total_attempts, elapsed_micros) {
            Some(event) => FlushVerdict::Report(event),
            None => FlushVerdict::Continue,
        }
    }
}

} // verus!
