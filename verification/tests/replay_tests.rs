use vanity_search::config::SearchConfig;
use vanity_search::replay::{search_stream, StreamOutcome};

fn stream(addresses: &[&str]) -> Vec<String> {
    addresses.iter().map(|a| a.to_string()).collect()
}

#[test]
fn prefix_search_reports_the_only_candidate_with_the_prefix() {
    let config = SearchConfig::new(Some("AB"), "", true, "exact", 1, 10_000, 0).unwrap();
    let candidates = stream(&["XYAB", "ABCD", "ZZAB"]);
    let outcome = search_stream(&config, &candidates);
    assert_eq!(outcome, StreamOutcome::Found { index: 1, total_attempts: 2 });
    assert_eq!(candidates[1], "ABCD");
}

#[test]
fn first_match_in_the_stream_wins() {
    let config = SearchConfig::new(None, "AB", false, "upper", 3, 2, 0).unwrap();
    let candidates = stream(&["ABxx", "xxab", "xxAB", "xxaB"]);
    assert_eq!(
        search_stream(&config, &candidates),
        StreamOutcome::Found { index: 1, total_attempts: 2 }
    );
    assert_eq!(
        search_stream(&config, &stream(&["zzAb"])),
        StreamOutcome::Found { index: 0, total_attempts: 1 }
    );
}

#[test]
fn outcome_is_the_same_for_any_number_of_workers() {
    let candidates = stream(&[
        "1aaa", "2bbb", "3ccc", "4ddd", "5eee", "6fff", "7ggg", "8hPU", "9iii", "xxPU", "yyPU",
    ]);
    let single = SearchConfig::new(None, "PU", false, "exact", 1, 1, 0).unwrap();
    let expected = StreamOutcome::Found { index: 7, total_attempts: 8 };
    assert_eq!(search_stream(&single, &candidates), expected);
    for workers in [0, 1, 2, 3, 4, 7, 8, 9, 32, 1000] {
        for chunk_size in [0, 1, 2, 3, 5, 8, 9, 10_000] {
            let config =
                SearchConfig::new(None, "PU", false, "exact", workers, chunk_size, 0).unwrap();
            assert_eq!(search_stream(&config, &candidates), expected, "{workers} {chunk_size}");
        }
    }
}

#[test]
fn limit_without_a_match_exhausts_the_run() {
    let candidates = stream(&["aa", "bb", "cc", "dd", "ee", "ff"]);
    for workers in [1, 2, 3, 8] {
        for chunk_size in [1, 2, 4, 100] {
            for limit in 1..=6u64 {
                let config =
                    SearchConfig::new(Some("zz"), "", false, "exact", workers, chunk_size, limit)
                        .unwrap();
                assert_eq!(
                    search_stream(&config, &candidates),
                    StreamOutcome::Exhausted { total_attempts: limit }
                );
            }
        }
    }
}

#[test]
fn match_beyond_the_limit_is_not_found() {
    let candidates = stream(&["aa", "bb", "zz", "dd"]);
    let config = SearchConfig::new(Some("zz"), "", false, "exact", 2, 1, 2).unwrap();
    assert_eq!(search_stream(&config, &candidates), StreamOutcome::Exhausted { total_attempts: 2 });
    let config = SearchConfig::new(Some("zz"), "", false, "exact", 2, 1, 3).unwrap();
    assert_eq!(
        search_stream(&config, &candidates),
        StreamOutcome::Found { index: 2, total_attempts: 3 }
    );
}

#[test]
fn stream_that_ends_stops_the_run() {
    let candidates = stream(&["aa", "bb", "cc"]);
    let unbounded = SearchConfig::new(Some("zz"), "", false, "exact", 2, 2, 0).unwrap();
    assert_eq!(search_stream(&unbounded, &candidates), StreamOutcome::Stopped { total_attempts: 3 });
    let bounded = SearchConfig::new(Some("zz"), "", false, "exact", 2, 2, 4).unwrap();
    assert_eq!(search_stream(&bounded, &candidates), StreamOutcome::Stopped { total_attempts: 3 });
    assert_eq!(search_stream(&unbounded, &Vec::new()), StreamOutcome::Stopped { total_attempts: 0 });
}

#[test]
fn short_candidates_never_match_in_a_stream() {
    let config = SearchConfig::new(Some("abcdef"), "", false, "mixed", 1, 1, 0).unwrap();
    let candidates = stream(&["", "a", "abcde", "zzzzz"]);
    assert_eq!(search_stream(&config, &candidates), StreamOutcome::Stopped { total_attempts: 4 });
}
