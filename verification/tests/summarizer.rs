use launchdarkly_server_sdk::events::summarizer::EventSummary;

fn text(s: &str) -> String {
    s.to_string()
}

#[test]
fn new_summary_is_empty() {
    let mut summary = EventSummary::new();
    assert!(summary.is_empty());
    assert_eq!(summary.start_date(), None);
    assert_eq!(summary.end_date(), None);
    assert!(summary.counters().is_empty());
    assert!(summary.take().is_none());
}

#[test]
fn n_calls_on_the_same_key_count_n_and_window_spans_all_times() {
    let mut summary = EventSummary::new();
    let times = [50u64, 10, 30, 70, 20];
    for time in times {
        summary.accumulate(&text("flag"), Some(1), &text("true"), false, Some(7), time);
    }
    assert!(!summary.is_empty());
    assert_eq!(summary.counters().len(), 1);
    let counter = &summary.counters()[0];
    assert_eq!(counter.flag_key, "flag");
    assert_eq!(counter.variation, Some(1));
    assert!(!counter.is_default);
    assert_eq!(counter.count, 5);
    assert_eq!(counter.value, "true");
    assert_eq!(counter.version, Some(7));
    assert_eq!(summary.start_date(), Some(10));
    assert_eq!(summary.end_date(), Some(70));
}

#[test]
fn first_recording_creates_counter_at_one() {
    let mut summary = EventSummary::new();
    summary.accumulate(&text("flag"), None, &text("\"a\""), true, None, 5);
    assert_eq!(summary.counters().len(), 1);
    assert_eq!(summary.counters()[0].count, 1);
    assert_eq!(summary.counters()[0].variation, None);
    assert!(summary.counters()[0].is_default);
    assert_eq!(summary.start_date(), Some(5));
    assert_eq!(summary.end_date(), Some(5));
}

#[test]
fn different_keys_are_counted_apart() {
    let mut summary = EventSummary::new();
    summary.accumulate(&text("a"), Some(0), &text("1"), false, Some(1), 1);
    summary.accumulate(&text("a"), Some(1), &text("2"), false, Some(1), 2);
    summary.accumulate(&text("a"), Some(0), &text("1"), true, Some(1), 3);
    summary.accumulate(&text("b"), Some(0), &text("1"), false, Some(1), 4);
    summary.accumulate(&text("a"), None, &text("1"), false, Some(1), 5);
    summary.accumulate(&text("a"), Some(0), &text("9"), false, Some(2), 6);
    let counters = summary.counters();
    assert_eq!(counters.len(), 5);
    let first = counters
        .iter()
        .find(|c| c.flag_key == "a" && c.variation == Some(0) && !c.is_default)
        .unwrap();
    assert_eq!(first.count, 2);
    assert_eq!(first.value, "1");
    assert_eq!(first.version, Some(1));
    for counter in counters.iter().filter(|c| !(c.flag_key == "a" && c.variation == Some(0) && !c.is_default)) {
        assert_eq!(counter.count, 1);
    }
}

#[test]
fn take_hands_out_the_window_and_starts_over() {
    let mut summary = EventSummary::new();
    summary.accumulate(&text("flag"), Some(1), &text("true"), false, Some(7), 100);
    summary.accumulate(&text("flag"), Some(1), &text("true"), false, Some(7), 200);
    let taken = summary.take().expect("a summary of the window");
    assert_eq!(taken.start_date(), Some(100));
    assert_eq!(taken.end_date(), Some(200));
    assert_eq!(taken.counters().len(), 1);
    assert_eq!(taken.counters()[0].count, 2);
    assert!(summary.is_empty());
    assert!(summary.take().is_none());
    summary.accumulate(&text("flag"), Some(1), &text("true"), false, Some(7), 300);
    assert_eq!(summary.start_date(), Some(300));
    assert_eq!(summary.counters()[0].count, 1);
}
