use vanity_search::config::{
    eq_ignoring_ascii_case, parse_case_sensitivity, parse_pattern, parse_thread_count,
    ConfigError, SearchConfig,
};
use vanity_search::coordinator::{Coordinator, Phase};
use vanity_search::matching::{check_vanity_string, starts_with_chars};
use vanity_search::progress::ProgressCounter;
use vanity_search::search::{examine, run_scripted, worker_step, Step};
use vanity_search::sink::ResultSink;
use vanity_search::store::{bytes_to_append, header_bytes, record_bytes, MatchRecord};

fn config(pattern: &str, case_sensitive: bool, worker_count: usize) -> SearchConfig {
    SearchConfig::new(pattern.to_string(), case_sensitive, worker_count).unwrap()
}

fn strings(items: &[&str]) -> Vec<String> {
    items.iter().map(|s| s.to_string()).collect()
}

#[test]
fn predicate_case_sensitive_is_prefix_test() {
    assert!(check_vanity_string("AbCdef", "AbC", true));
    assert!(!check_vanity_string("abCdef", "AbC", true));
    assert!(!check_vanity_string("xAbC", "AbC", true));
    assert!(!check_vanity_string("Ab", "AbC", true));
    assert!(check_vanity_string("AbC", "AbC", true));
}

#[test]
fn predicate_case_insensitive_folds_both_sides() {
    assert!(check_vanity_string("ABxyz", "Ab", false));
    assert!(check_vanity_string("abxyz", "AB", false));
    assert!(!check_vanity_string("xyz", "Ab", false));
    assert!(!check_vanity_string("xAB", "ab", false));
}

#[test]
fn predicate_is_total_on_edge_lengths() {
    assert!(check_vanity_string("abc", "", true));
    assert!(check_vanity_string("", "", false));
    assert!(!check_vanity_string("", "a", true));
    assert!(!check_vanity_string("abc", "abcdefghijk", false));
}

#[test]
fn starts_with_chars_counts_characters_not_bytes() {
    assert!(starts_with_chars("éa", "é"));
    assert!(!starts_with_chars("ea", "é"));
}

#[test]
fn config_accepts_bounds() {
    assert!(SearchConfig::new("a".to_string(), true, 1).is_ok());
    assert!(SearchConfig::new("abcdefghi".to_string(), false, 16).is_ok());
    let c = config("Ab", false, 4);
    assert_eq!(c.pattern, "Ab");
    assert!(!c.case_sensitive);
    assert_eq!(c.worker_count, 4);
}

#[test]
fn config_rejects_pattern_length() {
    assert_eq!(
        SearchConfig::new(String::new(), true, 1).err(),
        Some(ConfigError::PatternLength)
    );
    assert_eq!(
        SearchConfig::new("abcdefghij".to_string(), true, 1).err(),
        Some(ConfigError::PatternLength)
    );
    assert_eq!(
        SearchConfig::new(String::new(), true, 0).err(),
        Some(ConfigError::PatternLength)
    );
}

#[test]
fn config_rejects_zero_workers() {
    assert_eq!(
        SearchConfig::new("ab".to_string(), true, 0).err(),
        Some(ConfigError::WorkerCount)
    );
}

#[test]
fn pattern_line_is_trimmed() {
    assert_eq!(parse_pattern("  Ab \n"), "Ab");
    assert_eq!(parse_pattern("Ab"), "Ab");
}

#[test]
fn case_sensitivity_answer() {
    assert!(parse_case_sensitivity("yes\n"));
    assert!(parse_case_sensitivity("  YeS "));
    assert!(!parse_case_sensitivity("no\n"));
    assert!(!parse_case_sensitivity("y"));
    assert!(!parse_case_sensitivity("yess"));
    assert!(eq_ignoring_ascii_case("ABC", "abc"));
    assert!(!eq_ignoring_ascii_case("abd", "abc"));
}

#[test]
fn thread_count_parsing() {
    assert_eq!(parse_thread_count("4\n"), Ok(4));
    assert_eq!(parse_thread_count("  16  "), Ok(16));
    assert_eq!(parse_thread_count("+3"), Ok(3));
    assert_eq!(parse_thread_count("0"), Err(ConfigError::WorkerCount));
    assert_eq!(parse_thread_count("-1"), Err(ConfigError::WorkerCount));
    assert_eq!(parse_thread_count("four"), Err(ConfigError::WorkerCount));
    assert_eq!(parse_thread_count(""), Err(ConfigError::WorkerCount));
    assert_eq!(
        parse_thread_count("99999999999999999999999"),
        Err(ConfigError::WorkerCount)
    );
}

#[test]
fn progress_counter_counts_and_never_decreases() {
    let mut c = ProgressCounter::new();
    assert_eq!(c.get(), 0);
    let mut last = 0;
    for step in [1u64, 0, 5, 1, 100] {
        let v = if step == 1 { c.increment() } else { c.add(step) };
        assert!(v >= last);
        last = v;
    }
    assert_eq!(c.get(), 107);
}

#[test]
fn progress_counter_saturates() {
    let mut c = ProgressCounter::new();
    c.add(u64::MAX - 1);
    assert_eq!(c.increment(), u64::MAX);
    assert_eq!(c.increment(), u64::MAX);
    assert_eq!(c.add(10), u64::MAX);
}

#[test]
fn sink_keeps_first_record_only() {
    let mut sink = ResultSink::new();
    assert!(sink.winner().is_none());
    assert!(sink.submit(MatchRecord::found("Abc".to_string())));
    assert!(!sink.submit(MatchRecord::found("Abd".to_string())));
    assert!(!sink.submit(MatchRecord::found("Abe".to_string())));
    assert_eq!(sink.winner().unwrap().public_identifier, "Abc");
    let w = sink.into_winner().unwrap();
    assert_eq!(w.public_identifier, "Abc");
    assert_eq!(w.note, "Seed Phrase Not Stored");
}

#[test]
fn header_is_exact() {
    assert_eq!(header_bytes().unwrap(), b"Public Key,Note\n".to_vec());
}

#[test]
fn record_line_is_exact() {
    let rec = MatchRecord::found("ABxyz".to_string());
    assert_eq!(
        record_bytes(&rec).unwrap(),
        b"ABxyz,Seed Phrase Not Stored\n".to_vec()
    );
}

#[test]
fn record_line_quotes_special_fields() {
    let rec = MatchRecord::found("a,b".to_string());
    assert_eq!(
        record_bytes(&rec).unwrap(),
        b"\"a,b\",Seed Phrase Not Stored\n".to_vec()
    );
}

#[test]
fn append_adds_header_only_when_missing() {
    let rec = MatchRecord::found("ABxyz".to_string());
    assert_eq!(
        bytes_to_append(false, &rec).unwrap(),
        b"Public Key,Note\nABxyz,Seed Phrase Not Stored\n".to_vec()
    );
    assert_eq!(
        bytes_to_append(true, &rec).unwrap(),
        b"ABxyz,Seed Phrase Not Stored\n".to_vec()
    );
}

#[test]
fn two_runs_one_header_two_rows() {
    let mut store: Vec<u8> = Vec::new();
    for id in ["Abc", "Abd"] {
        let rec = MatchRecord::found(id.to_string());
        let mut add = bytes_to_append(!store.is_empty(), &rec).unwrap();
        store.append(&mut add);
    }
    let text = String::from_utf8(store).unwrap();
    let lines: Vec<&str> = text.lines().collect();
    assert_eq!(
        lines,
        vec![
            "Public Key,Note",
            "Abc,Seed Phrase Not Stored",
            "Abd,Seed Phrase Not Stored"
        ]
    );
}

#[test]
fn examine_returns_record_on_match() {
    let c = config("Ab", false, 1);
    assert!(examine(&c, "xyz".to_string()).is_none());
    let rec = examine(&c, "ABxyz".to_string()).unwrap();
    assert_eq!(rec.public_identifier, "ABxyz");
    assert_eq!(rec.note, "Seed Phrase Not Stored");
}

#[test]
fn scripted_scenario_ab_case_insensitive() {
    let c = config("Ab", false, 1);
    let out = run_scripted(&c, &strings(&["xyz", "ABxyz"]));
    assert!(out.stopped);
    assert_eq!(out.examined, 1);
    let w = out.winner.unwrap();
    assert_eq!(w.public_identifier, "ABxyz");
    assert_eq!(w.note, "Seed Phrase Not Stored");
    let mut store: Vec<u8> = Vec::new();
    let mut add = bytes_to_append(false, &w).unwrap();
    store.append(&mut add);
    assert_eq!(
        String::from_utf8(store).unwrap(),
        "Public Key,Note\nABxyz,Seed Phrase Not Stored\n"
    );
}

#[test]
fn scripted_search_stops_after_k_calls() {
    let c = config("Q", true, 4);
    let mut cands = strings(&["a1", "b2", "c3", "d4", "e5", "f6", "g7"]);
    cands.push("Qwin".to_string());
    cands.push("Qlate".to_string());
    let out = run_scripted(&c, &cands);
    assert!(out.stopped);
    assert_eq!(out.examined, 7);
    assert_eq!(out.winner.unwrap().public_identifier, "Qwin");
}

#[test]
fn scripted_search_without_match_examines_all() {
    let c = config("Z", true, 4);
    let out = run_scripted(&c, &strings(&["a", "b", "z"]));
    assert!(!out.stopped);
    assert!(out.winner.is_none());
    assert_eq!(out.examined, 3);
}

#[test]
fn one_record_per_run_for_each_worker_count() {
    for workers in [1usize, 4, 16] {
        let c = config("a", false, workers);
        let mut sink = ResultSink::new();
        let mut persisted = 0;
        // every worker draws a matching candidate in the same moment
        for w in 0..workers {
            if let Some(rec) = examine(&c, format!("A{}", w)) {
                if sink.submit(rec) {
                    persisted += 1;
                }
            }
        }
        assert_eq!(persisted, 1);
        assert_eq!(sink.winner().unwrap().public_identifier, "A0");
    }
}

#[test]
fn worker_step_stops_on_signal() {
    let c = config("a", true, 1);
    assert!(matches!(worker_step(&c, true), Step::Stop));
}

#[test]
fn worker_step_finds_one_character_pattern() {
    let c = config("a", false, 1);
    let mut misses = 0u32;
    loop {
        match worker_step(&c, false) {
            Step::Found(rec) => {
                assert!(rec.public_identifier.to_lowercase().starts_with('a'));
                assert!(rec.public_identifier.len() >= 32);
                break;
            }
            Step::Miss => misses += 1,
            Step::Stop => panic!("no stop was signalled"),
        }
        assert!(misses < 100_000);
    }
}

#[test]
fn coordinator_runs_idle_running_done() {
    let mut run = Coordinator::new(2);
    assert_eq!(run.phase(), Phase::Idle);
    run.worker_returned();
    assert_eq!(run.live(), 2);
    assert!(run.launch());
    assert!(!run.launch());
    assert_eq!(run.phase(), Phase::Running);
    run.worker_returned();
    assert_eq!(run.live(), 1);
    assert!(!run.no_live_workers());
    run.reporter_returned();
    assert_eq!(run.phase(), Phase::Running);
    run.worker_returned();
    assert!(run.no_live_workers());
    assert_eq!(run.phase(), Phase::Done);
    run.worker_returned();
    assert_eq!(run.live(), 0);
    assert_eq!(run.phase(), Phase::Done);
}

#[test]
fn coordinator_waits_for_reporter() {
    let mut run = Coordinator::new(1);
    run.launch();
    run.worker_returned();
    assert_eq!(run.phase(), Phase::Running);
    run.reporter_returned();
    assert_eq!(run.phase(), Phase::Done);
}
