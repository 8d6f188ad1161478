use rayon::iter::{IntoParallelIterator, ParallelIterator};
use solana_sdk::signature::{Keypair, Signer};
use std::sync::atomic::{AtomicUsize, Ordering};
use vanity_search::config::SearchConfig;
use vanity_search::counters::SearchCounters;
use vanity_search::keygen::{fresh, Candidate};
use vanity_search::progress::ProgressEvent;
use vanity_search::search::{
    conclude, run_chunk, search, work, ChunkOutcome, Discovery, MatchResult,
};
use vanity_search::worker::WorkerState;

fn work_until_done(config: &SearchConfig, counters: &SearchCounters) -> ChunkOutcome {
    let mut state = WorkerState::new();
    loop {
        match run_chunk(config, counters, &mut state, &fresh) {
            ChunkOutcome::Unfinished | ChunkOutcome::Progress(_) => {}
            done => return done,
        }
    }
}

#[test]
fn generated_candidate_exports_its_own_key_pair() {
    let candidate = Candidate::generate();
    let shown = candidate.address().to_string();
    assert!(shown.len() >= 32 && shown.len() <= 44);
    let (address, secret) = candidate.export();
    assert_eq!(address, shown);
    assert_ne!(secret, address);
    let pair = Keypair::try_from_base58_string(&secret).unwrap();
    assert_eq!(pair.pubkey().to_string(), address);
}

#[test]
fn generated_candidates_differ() {
    let first = Candidate::generate();
    let second = Candidate::generate();
    assert_ne!(first.address(), second.address());
}

#[test]
fn worker_finds_an_address_that_satisfies_the_query() {
    let config = SearchConfig::new(None, "a", false, "upper", 1, 16, 0).unwrap();
    let counters = SearchCounters::new();
    match work_until_done(&config, &counters) {
        ChunkOutcome::Found(found) => {
            assert!(found.address.ends_with('a') || found.address.ends_with('A'));
            assert!(config.is_match(&found.address));
            assert!(found.total_attempts >= 1);
            assert_eq!(found.total_attempts, counters.total_attempts());
            let pair = Keypair::try_from_base58_string(&found.private_key).unwrap();
            assert_eq!(pair.pubkey().to_string(), found.address);
        }
        other => panic!("no match was found: {other:?}"),
    }
    assert!(counters.stop_requested());
}

#[test]
fn worker_stops_at_the_attempt_limit() {
    // No address holds the digit 0.
    let config = SearchConfig::new(Some("0"), "", false, "exact", 1, 3, 7).unwrap();
    let counters = SearchCounters::new();
    let mut state = WorkerState::new();
    assert!(matches!(run_chunk(&config, &counters, &mut state, &fresh), ChunkOutcome::Unfinished));
    assert_eq!(state.local_attempts(), 3);
    assert!(matches!(run_chunk(&config, &counters, &mut state, &fresh), ChunkOutcome::Unfinished));
    assert_eq!(state.local_attempts(), 6);
    assert_eq!(counters.total_attempts(), 0);
    assert!(!counters.stop_requested());
    assert!(matches!(run_chunk(&config, &counters, &mut state, &fresh), ChunkOutcome::Exhausted));
    assert_eq!(state.local_attempts(), 7);
    assert_eq!(counters.total_attempts(), 7);
    assert!(counters.stop_requested());
    let result = conclude(None, 7, counters.total_attempts(), counters.elapsed_micros());
    assert!(matches!(result, MatchResult::Exhausted { total_attempts: 7, .. }));
}

#[test]
fn worker_obeys_the_stop_flag() {
    let config = SearchConfig::new(Some("0"), "", false, "exact", 1, 1000, 0).unwrap();
    let counters = SearchCounters::new();
    counters.request_stop();
    let mut state = WorkerState::new();
    assert!(matches!(run_chunk(&config, &counters, &mut state, &fresh), ChunkOutcome::Stopped));
    assert_eq!(state.local_attempts(), 0);
    assert_eq!(counters.total_attempts(), 0);
}

#[test]
fn chunk_of_size_zero_tests_one_candidate() {
    let config = SearchConfig::new(Some("0"), "", false, "exact", 1, 0, 0).unwrap();
    let counters = SearchCounters::new();
    let mut state = WorkerState::new();
    assert!(matches!(run_chunk(&config, &counters, &mut state, &fresh), ChunkOutcome::Unfinished));
    assert_eq!(state.local_attempts(), 1);
}

#[test]
fn match_is_published_once_among_racing_workers() {
    for _ in 0..20 {
        let config = SearchConfig::new(None, "a", false, "upper", 8, 4, 0).unwrap();
        let counters = SearchCounters::new();
        let records = AtomicUsize::new(0);
        let pool = rayon::ThreadPoolBuilder::new().num_threads(8).build().unwrap();
        let outcomes: Vec<ChunkOutcome> = pool.install(|| {
            (0..8usize)
                .into_par_iter()
                .map(|_| {
                    let outcome = work_until_done(&config, &counters);
                    if let ChunkOutcome::Found(found) = &outcome {
                        assert!(config.is_match(&found.address));
                        records.fetch_add(1, Ordering::SeqCst);
                    }
                    outcome
                })
                .collect()
        });
        assert_eq!(outcomes.len(), 8);
        assert_eq!(records.load(Ordering::SeqCst), 1);
        for outcome in &outcomes {
            assert!(matches!(outcome, ChunkOutcome::Found(_) | ChunkOutcome::Stopped));
        }
        let winner = outcomes.into_iter().find_map(|o| match o {
            ChunkOutcome::Found(found) => Some(found),
            _ => None,
        });
        let total = counters.total_attempts();
        assert!(matches!(conclude(winner, 0, total, 1), MatchResult::Found(_)));
    }
}

#[test]
fn publishing_succeeds_once() {
    let counters = SearchCounters::new();
    assert!(!counters.stop_requested());
    let wins: usize = (0..64usize)
        .into_par_iter()
        .map(|_| if counters.try_publish() { 1 } else { 0 })
        .sum();
    assert_eq!(wins, 1);
    assert!(counters.stop_requested());
    assert!(!counters.try_publish());
}

#[test]
fn publishing_fails_after_a_stop() {
    let counters = SearchCounters::new();
    counters.request_stop();
    assert!(!counters.try_publish());
}

#[test]
fn counter_adds_up_batches() {
    let counters = SearchCounters::new();
    assert_eq!(counters.total_attempts(), 0);
    assert_eq!(counters.add_attempts(50_000), 50_000);
    assert_eq!(counters.add_attempts(3), 50_003);
    assert_eq!(counters.add_attempts(0), 50_003);
    assert_eq!(counters.total_attempts(), 50_003);
    let total: u64 = (0..100u64).into_par_iter().map(|_| counters.add_attempts(10)).max().unwrap();
    assert_eq!(total, 51_003);
    assert_eq!(counters.total_attempts(), 51_003);
}

#[test]
fn clock_does_not_run_backwards() {
    let counters = SearchCounters::new();
    let first = counters.elapsed_micros();
    let mut spin: u64 = 0;
    for step in 0..200_000u64 {
        spin = spin.wrapping_add(step * step);
    }
    assert_ne!(spin, 1);
    let second = counters.elapsed_micros();
    assert!(second >= first);
}

#[test]
fn run_ends_with_the_published_match() {
    let found = Discovery {
        address: "ABCD".to_string(),
        private_key: "secret".to_string(),
        total_attempts: 2,
        elapsed_micros: 15,
    };
    match conclude(Some(found), 10, 99, 500) {
        MatchResult::Found(d) => {
            assert_eq!(d.address, "ABCD");
            assert_eq!(d.private_key, "secret");
            assert_eq!(d.total_attempts, 2);
            assert_eq!(d.elapsed_micros, 15);
        }
        other => panic!("{other:?}"),
    }
}

#[test]
fn run_without_match_is_exhausted_or_stopped() {
    assert!(matches!(
        conclude(None, 10, 10, 500),
        MatchResult::Exhausted { total_attempts: 10, elapsed_micros: 500 }
    ));
    assert!(matches!(
        conclude(None, 10, 12, 500),
        MatchResult::Exhausted { total_attempts: 12, elapsed_micros: 500 }
    ));
    assert!(matches!(conclude(None, 10, 9, 500), MatchResult::Stopped));
    assert!(matches!(conclude(None, 0, 9, 500), MatchResult::Stopped));
    assert!(matches!(conclude(None, 0, u64::MAX, 500), MatchResult::Stopped));
}

fn no_report(_event: ProgressEvent) {}

#[test]
fn lone_worker_gives_back_its_match() {
    let config = SearchConfig::new(Some("a"), "", false, "lower", 1, 5, 0).unwrap();
    let counters = SearchCounters::new();
    let found = work(&config, &counters, &fresh, &no_report).unwrap();
    assert!(found.address.starts_with('a') || found.address.starts_with('A'));
    assert_eq!(found.total_attempts, counters.total_attempts());
    assert!(counters.stop_requested());
    assert!(work(&config, &counters, &fresh, &no_report).is_none());
}

#[test]
fn lone_worker_retires_at_the_limit() {
    let config = SearchConfig::new(Some("0"), "", false, "exact", 1, 4, 10).unwrap();
    let counters = SearchCounters::new();
    assert!(work(&config, &counters, &fresh, &no_report).is_none());
    assert_eq!(counters.total_attempts(), 10);
    assert!(counters.stop_requested());
}

#[test]
fn search_reports_one_match_of_eight_workers() {
    for _ in 0..10 {
        let config = SearchConfig::new(None, "z", false, "upper", 8, 2, 0).unwrap();
        let counters = SearchCounters::new();
        let records = AtomicUsize::new(0);
        match search(&config, &counters, &fresh, &no_report) {
            MatchResult::Found(found) => {
                records.fetch_add(1, Ordering::SeqCst);
                assert!(found.address.ends_with('z') || found.address.ends_with('Z'));
                assert!(found.total_attempts >= 1);
                assert!(found.total_attempts <= counters.total_attempts());
                let pair = Keypair::try_from_base58_string(&found.private_key).unwrap();
                assert_eq!(pair.pubkey().to_string(), found.address);
            }
            other => panic!("no match was found: {other:?}"),
        }
        assert_eq!(records.load(Ordering::SeqCst), 1);
        assert!(counters.stop_requested());
    }
}

#[test]
fn search_is_exhausted_at_the_limit() {
    let config = SearchConfig::new(Some("0"), "", false, "exact", 1, 3, 25).unwrap();
    let counters = SearchCounters::new();
    match search(&config, &counters, &fresh, &no_report) {
        MatchResult::Exhausted { total_attempts, .. } => assert_eq!(total_attempts, 25),
        other => panic!("{other:?}"),
    }
    assert_eq!(counters.total_attempts(), 25);
}

#[test]
fn search_with_many_workers_is_exhausted_near_the_limit() {
    let config = SearchConfig::new(Some("0"), "", false, "exact", 4, 3, 25).unwrap();
    let counters = SearchCounters::new();
    match search(&config, &counters, &fresh, &no_report) {
        MatchResult::Exhausted { total_attempts, .. } => {
            assert!(total_attempts >= 25 && total_attempts <= 100, "{total_attempts}");
        }
        other => panic!("{other:?}"),
    }
}

#[test]
fn search_that_is_stopped_from_outside_finds_nothing() {
    let config = SearchConfig::new(Some("a"), "", false, "upper", 4, 3, 0).unwrap();
    let counters = SearchCounters::new();
    counters.request_stop();
    assert!(matches!(search(&config, &counters, &fresh, &no_report), MatchResult::Stopped));
    assert_eq!(counters.total_attempts(), 0);
    let bounded = SearchConfig::new(Some("a"), "", false, "upper", 4, 3, 9).unwrap();
    assert!(matches!(search(&bounded, &counters, &fresh, &no_report), MatchResult::Stopped));
}

#[test]
fn fresh_generator_never_runs_dry() {
    for _ in 0..100 {
        assert!(fresh().is_some());
    }
}

#[test]
fn given_candidate_exports_what_it_was_given() {
    let candidate = Candidate::given("ABCD".to_string(), "secret".to_string());
    assert_eq!(candidate.address(), "ABCD");
    assert_eq!(candidate.export(), ("ABCD".to_string(), "secret".to_string()));
}
