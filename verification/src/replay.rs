//! A run over a given stream of candidates, in place of freshly generated
//! ones.
//!
//! The candidates are dealt out to the workers in turn, a chunk at a time,
//! and tested in the order of the stream. The outcome is then a function of
//! the stream and the query alone.

use crate::config::{ConfigView, SearchConfig};
use vstd::prelude::*;
use vstd::utf8::encode_utf8;

verus! {

/// How a run over a stream ended.
#[derive(Clone, Copy, Debug, PartialEq, Eq, Structural)]
pub enum StreamOutcome {
    /// The candidate at `index` matched, as the `total_attempts`-th tested.
    Found { index: usize, total_attempts: u64 },
    /// The attempt limit was reached without a match.
    Exhausted { total_attempts: u64 },
    /// The stream ended before a match and before the limit.
    Stopped { total_attempts: u64 },
}

/// The bytes of each address of a stream.
pub open spec fn stream_bytes(addresses: Seq<String>) -> Seq<Seq<u8>> {
    Seq::new(addresses.len(), |i: int| encode_utf8(addresses[i]@))
}

/// None of the first `n` candidates satisfies the query.
pub open spec fn none_accepted(c: ConfigView, stream: Seq<Seq<u8>>, n: int) -> bool {
    forall|j: int| 0 <= j < n ==> !c.accepts(#[trigger] stream[j])
}

/// The candidates that a run may test: the whole stream, or as many as the
/// attempt limit allows where that is fewer.
pub open spec fn reach(c: ConfigView, stream: Seq<Seq<u8>>) -> nat {
    if c.max_attempts == 0 || stream.len() < c.max_attempts {
        stream.len()
    } else {
        c.max_attempts as nat
    }
}

impl StreamOutcome {
    /// `self` is how the run of `c` over `stream` ends.
    ///
    /// A match is found at the first candidate within reach that satisfies
    /// the query, and the attempts then count that candidate too. Without
    /// one, the run is exhausted after exactly `max_attempts` attempts where
    /// the stream is that long, and stopped at the stream's end otherwise.
    pub open spec fn is_outcome_of(self, c: ConfigView, stream: Seq<Seq<u8>>) -> bool {
        match self {
            StreamOutcome::Found { index, total_attempts } => {
                &&& index < reach(c, stream)
                &&& c.accepts(stream[index as int])
                &&& none_accepted(c, stream, index as int)
                &&& total_attempts == index + 1
            },
            StreamOutcome::Exhausted { total_attempts } => {
                &&& 0 < c.max_attempts <= stream.len()
                &&& none_accepted(c, stream, c.max_attempts as int)
                &&& total_attempts == c.max_attempts
            },
            StreamOutcome::Stopped { total_attempts } => {
                &&& c.max_attempts == 0 || stream.len() < c.max_attempts
                &&& none_accepted(c, stream, stream.len() as int)
                &&& total_attempts == stream.len()
            },
        }
    }
}

/// A run over a stream has one outcome.
pub proof fn lemma_outcome_is_unique(
    c: ConfigView,
    stream: Seq<Seq<u8>>,
    a: StreamOutcome,
    b: StreamOutcome,
)
    requires
        a.is_outcome_of(c, stream),
        b.is_outcome_of(c, stream),
    ensures
        a == b,
{
    match (a, b) {
        (
            StreamOutcome::Found { index: i, total_attempts: _ },
            StreamOutcome::Found { index: j, total_attempts: _ },
        ) => {
            if i < j {
                assert(!c.accepts(stream[i as int]));
            }
            if j < i {
                assert(!c.accepts(stream[j as int]));
            }
        },
        (StreamOutcome::Found { index: i, total_attempts: _ }, _) => {
            assert(!c.accepts(stream[i as int]));
        },
        (_, StreamOutcome::Found { index: j, total_attempts: _ }) => {
            assert(!c.accepts(stream[j as int]));
        },
        _ => {},
    }
}

/// The outcome does not depend on how the work is divided: two runs over one
/// stream whose configurations differ in nothing but the number of workers
/// and the chunk size end alike.
pub proof fn lemma_outcome_independent_of_workers(
    c: ConfigView,
    workers: usize,
    chunk_size: usize,
    stream: Seq<Seq<u8>>,
    a: StreamOutcome,
    b: StreamOutcome,
)
    requires
        a.is_outcome_of(c, stream),
        b.is_outcome_of(ConfigView { workers, chunk_size, ..c }, stream),
    ensures
        a == b,
{
    let d = ConfigView { workers, chunk_size, ..c };
    assert forall|bytes: Seq<u8>| c.accepts(bytes) == d.accepts(bytes) by {}
    assert(reach(c, stream) == reach(d, stream));
    assert(b.is_outcome_of(c, stream));
    lemma_outcome_is_unique(c, stream, a, b);
}

/// Under a limit of `max_attempts > 0`, a run over a stream of at least that
/// many candidates, none of which satisfies the query, is exhausted after
/// exactly `max_attempts` attempts.
pub proof fn lemma_limit_ends_run(c: ConfigView, stream: Seq<Seq<u8>>, outcome: StreamOutcome)
    requires
        c.max_attempts > 0,
        stream.len() >= c.max_attempts,
        none_accepted(c, stream, c.max_attempts as int),
        outcome.is_outcome_of(c, stream),
    ensures
        outcome == (StreamOutcome::Exhausted { total_attempts: c.max_attempts }),
{
    lemma_outcome_is_unique(
        c,
        stream,
        outcome,
        StreamOutcome::Exhausted { total_attempts: c.max_attempts },
    );
}

/// Runs the query over `addresses`, dealing the candidates out to the
/// configuration's workers in turn, one chunk each, and testing them in the
/// order of the stream.
pub fn search_stream(config: &SearchConfig, addresses: &Vec<String>) -> (outcome: StreamOutcome)
    ensures
        outcome.is_outcome_of(config@, stream_bytes(addresses@)),
{
    let lanes: usize = config.lanes();
    let budget: usize = config.chunk_budget();
    let max_attempts: u64 = config.max_attempts();
    let len: usize = addresses.len();
    let ghost stream = stream_bytes(addresses@);
    let mut cursor: usize = 0;
    loop
        invariant
            lanes >= 1,
            budget >= 1,
            max_attempts == config@.max_attempts,
            len == addresses@.len(),
            stream == stream_bytes(addresses@),
            cursor <= len,
            max_attempts > 0 ==> cursor <= max_attempts,
            none_accepted(config@, stream, cursor as int),
        decreases len - cursor,
    {
        let ghost round_start = cursor;
        let mut lane: usize = 0;
        while lane < lanes
            invariant
                lane <= lanes,
                budget >= 1,
                max_attempts == config@.max_attempts,
                len == addresses@.len(),
                stream == stream_bytes(addresses@),
                round_start <= cursor <= len,
                lane > 0 ==> round_start < cursor,
                max_attempts > 0 ==> cursor <= max_attempts,
                none_accepted(config@, stream, cursor as int),
            decreases lanes - lane,
        {
            let mut spent: usize = 0;
            while spent < budget
                invariant
                    spent <= budget,
                    max_attempts == config@.max_attempts,
                    len == addresses@.len(),
                    stream == stream_bytes(addresses@),
                    round_start <= cursor <= len,
                    spent > 0 ==> round_start < cursor,
                    max_attempts > 0 ==> cursor <= max_attempts,
                    none_accepted(config@, stream, cursor as int),
                decreases budget - spent,
            {
                if max_attempts > 0 && cursor as u64 >= max_attempts {
                    return StreamOutcome::Exhausted { total_attempts: max_attempts };
                }
                if cursor == len {
                    return StreamOutcome::Stopped { total_attempts: cursor as u64 };
                }
                let matched = config.is_match(addresses[cursor].as_str());
                assert(matched == config@.accepts(stream[cursor as int]));
                if matched {
                    return StreamOutcome::Found {
                        index: cursor,
                        total_attempts: (cursor as u64) + 1,
                    };
                }
                cursor += 1;
                spent += 1;
            }
            lane += 1;
        }
    }
}

} // verus!
