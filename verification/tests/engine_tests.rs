use std::sync::atomic::{AtomicUsize, Ordering};
use std::sync::Mutex;
use vanity_search::config::SearchConfig;
use vanity_search::counters::SearchCounters;
use vanity_search::keygen::Candidate;
use vanity_search::progress::ProgressEvent;
use vanity_search::replay::{search_stream, StreamOutcome};
use vanity_search::search::{run_chunk, search, work, ChunkOutcome, Discovery, MatchResult};
use vanity_search::worker::WorkerState;

/// A generator that hands out the given addresses in order, each with a
/// secret that names it, and then runs dry.
struct Stream {
    addresses: Vec<String>,
    next: AtomicUsize,
}

impl Stream {
    fn of(addresses: &[&str]) -> Stream {
        Stream { addresses: addresses.iter().map(|a| a.to_string()).collect(), next: AtomicUsize::new(0) }
    }

    fn draw(&self) -> Option<Candidate> {
        let i = self.next.fetch_add(1, Ordering::SeqCst);
        self.addresses.get(i).map(|a| Candidate::given(a.clone(), format!("key of {a}")))
    }

    fn drawn(&self) -> usize {
        self.next.load(Ordering::SeqCst).min(self.addresses.len())
    }
}

fn never_matching() -> Option<Candidate> {
    Some(Candidate::given("nothing".to_string(), "none".to_string()))
}

fn no_report(_event: ProgressEvent) {}

fn expect_found(result: MatchResult) -> Discovery {
    match result {
        MatchResult::Found(found) => found,
        other => panic!("no match was found: {other:?}"),
    }
}

#[test]
fn prefix_run_finds_the_second_candidate_in_two_attempts() {
    let config = SearchConfig::new(Some("AB"), "", true, "exact", 1, 10_000, 0).unwrap();
    let counters = SearchCounters::new();
    let stream = Stream::of(&["XYAB", "ABCD", "ZZAB"]);
    let found = expect_found(search(&config, &counters, &|| stream.draw(), &no_report));
    assert_eq!(found.address, "ABCD");
    assert_eq!(found.private_key, "key of ABCD");
    assert_eq!(found.total_attempts, 2);
    assert_eq!(counters.total_attempts(), 2);
    assert_eq!(stream.drawn(), 2);
}

#[test]
fn run_finds_the_same_match_with_any_number_of_workers() {
    let addresses = [
        "1aaa", "2bbb", "3ccc", "4ddd", "5eee", "6fff", "7ggg", "8hPU", "9iii", "Ajjj", "Bkkk",
        "Clll", "Dmmm", "Ennn", "Fooo", "Gppp",
    ];
    let alone = SearchConfig::new(None, "PU", false, "exact", 1, 1, 0).unwrap();
    let stream = Stream::of(&addresses);
    let counters = SearchCounters::new();
    let expected = expect_found(search(&alone, &counters, &|| stream.draw(), &no_report));
    assert_eq!(expected.address, "8hPU");
    assert_eq!(expected.total_attempts, 8);
    for workers in [1, 2, 3, 4, 8, 16] {
        for chunk_size in [0, 1, 2, 5, 100] {
            let config =
                SearchConfig::new(None, "PU", false, "exact", workers, chunk_size, 0).unwrap();
            let stream = Stream::of(&addresses);
            let counters = SearchCounters::new();
            let found = expect_found(search(&config, &counters, &|| stream.draw(), &no_report));
            assert_eq!(found.address, expected.address, "{workers} {chunk_size}");
            assert_eq!(found.private_key, expected.private_key);
        }
    }
}

#[test]
fn run_agrees_with_the_replay_of_its_stream() {
    let addresses = ["aaPu", "bbpU", "ccpu", "ddPU", "eepu"];
    let texts: Vec<String> = addresses.iter().map(|a| a.to_string()).collect();
    for mode in ["exact", "upper", "lower", "mixed"] {
        for limit in [0u64, 1, 2, 3, 4, 5, 6] {
            let config = SearchConfig::new(None, "pu", false, mode, 1, 2, limit).unwrap();
            let stream = Stream::of(&addresses);
            let counters = SearchCounters::new();
            let result = search(&config, &counters, &|| stream.draw(), &no_report);
            match search_stream(&config, &texts) {
                StreamOutcome::Found { index, total_attempts } => {
                    let found = expect_found(result);
                    assert_eq!(found.address, addresses[index]);
                    assert_eq!(found.total_attempts, total_attempts);
                }
                StreamOutcome::Exhausted { total_attempts } => match result {
                    MatchResult::Exhausted { total_attempts: counted, .. } => {
                        assert_eq!(counted, total_attempts)
                    }
                    other => panic!("{mode} {limit}: {other:?}"),
                },
                StreamOutcome::Stopped { total_attempts } => {
                    assert!(matches!(result, MatchResult::Stopped), "{mode} {limit}");
                    assert_eq!(counters.total_attempts(), total_attempts);
                }
            }
        }
    }
}

#[test]
fn run_without_a_match_is_exhausted_after_the_limit() {
    for limit in [1u64, 2, 9, 10, 11, 1_000] {
        for chunk_size in [1, 3, 10, 10_000] {
            let config =
                SearchConfig::new(Some("zz"), "", false, "exact", 1, chunk_size, limit).unwrap();
            let counters = SearchCounters::new();
            match search(&config, &counters, &never_matching, &no_report) {
                MatchResult::Exhausted { total_attempts, .. } => assert_eq!(total_attempts, limit),
                other => panic!("{other:?}"),
            }
            assert_eq!(counters.total_attempts(), limit);
        }
    }
}

#[test]
fn run_is_exhausted_when_a_flush_reaches_the_limit() {
    let config = SearchConfig::new(Some("zz"), "", false, "exact", 1, 10_000, 75_000).unwrap();
    let counters = SearchCounters::new();
    assert_eq!(counters.add_attempts(30_000), 30_000);
    match search(&config, &counters, &never_matching, &no_report) {
        MatchResult::Exhausted { total_attempts, .. } => assert_eq!(total_attempts, 80_000),
        other => panic!("{other:?}"),
    }
}

#[test]
fn workers_together_stay_within_one_limit_each() {
    let config = SearchConfig::new(Some("zz"), "", false, "exact", 4, 7, 1_000).unwrap();
    let counters = SearchCounters::new();
    match search(&config, &counters, &never_matching, &no_report) {
        MatchResult::Exhausted { total_attempts, .. } => {
            assert!(total_attempts >= 1_000 && total_attempts <= 4_000, "{total_attempts}");
        }
        other => panic!("{other:?}"),
    }
}

#[test]
fn stream_that_runs_dry_stops_the_run() {
    let config = SearchConfig::new(Some("zz"), "", false, "exact", 3, 2, 0).unwrap();
    let counters = SearchCounters::new();
    let stream = Stream::of(&["aa", "bb", "cc", "dd", "ee"]);
    assert!(matches!(
        search(&config, &counters, &|| stream.draw(), &no_report),
        MatchResult::Stopped
    ));
    assert_eq!(counters.total_attempts(), 5);
    assert_eq!(stream.drawn(), 5);
}

#[test]
fn worker_reports_progress_after_the_interval() {
    let config = SearchConfig::new(Some("zz"), "", false, "exact", 1, 1_000, 0).unwrap();
    let counters = SearchCounters::new();
    let reports: Mutex<Vec<ProgressEvent>> = Mutex::new(Vec::new());
    let remaining = AtomicUsize::new(10_100_000);
    let generate = || {
        if remaining.fetch_sub(1, Ordering::SeqCst) == 0 {
            remaining.store(0, Ordering::SeqCst);
            None
        } else {
            never_matching()
        }
    };
    let report = |event: ProgressEvent| reports.lock().unwrap().push(event);
    assert!(work(&config, &counters, &generate, &report).is_none());
    assert_eq!(counters.total_attempts(), 10_100_000);
    let reports = reports.into_inner().unwrap();
    assert_eq!(reports.len(), 2);
    assert_eq!(reports[0].total_attempts, 5_000_000);
    assert_eq!(reports[1].total_attempts, 10_000_000);
    for event in &reports {
        let expected = u128::from(event.total_attempts) * 1_000_000 / event.elapsed_micros.max(1);
        if event.elapsed_micros > 0 {
            assert_eq!(u128::from(event.attempts_per_second), expected);
        }
    }
}

#[test]
fn chunk_reports_progress_at_a_flush() {
    let config = SearchConfig::new(Some("zz"), "", false, "exact", 1, 60_000, 0).unwrap();
    let counters = SearchCounters::new();
    counters.add_attempts(4_950_000);
    let mut state = WorkerState::new();
    match run_chunk(&config, &counters, &mut state, &never_matching) {
        ChunkOutcome::Progress(event) => assert_eq!(event.total_attempts, 5_000_000),
        other => panic!("{other:?}"),
    }
    assert_eq!(state.local_attempts(), 50_000);
    assert!(matches!(
        run_chunk(&config, &counters, &mut state, &never_matching),
        ChunkOutcome::Unfinished
    ));
    assert_eq!(state.local_attempts(), 110_000);
    assert_eq!(counters.total_attempts(), 5_050_000);
}

#[test]
fn match_after_a_stop_is_dropped() {
    let config = SearchConfig::new(Some("AB"), "", true, "exact", 1, 10, 0).unwrap();
    let counters = SearchCounters::new();
    let stream = Stream::of(&["xx", "ABCD"]);
    let mut state = WorkerState::new();
    assert!(counters.try_publish());
    assert!(matches!(
        run_chunk(&config, &counters, &mut state, &|| stream.draw()),
        ChunkOutcome::Stopped
    ));
    assert_eq!(stream.drawn(), 0);
}

#[test]
fn match_that_loses_the_race_is_dropped() {
    let config = SearchConfig::new(Some("AB"), "", true, "exact", 1, 10, 0).unwrap();
    let counters = SearchCounters::new();
    let generate = || {
        counters.try_publish();
        Some(Candidate::given("ABCD".to_string(), "key".to_string()))
    };
    let mut state = WorkerState::new();
    assert!(matches!(run_chunk(&config, &counters, &mut state, &generate), ChunkOutcome::Stopped));
    assert_eq!(state.local_attempts(), 1);
    assert_eq!(counters.total_attempts(), 1);
}
