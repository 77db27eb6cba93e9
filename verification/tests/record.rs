use spanmetrics::events::MetricEvent;
use spanmetrics::record::MetricData;

fn fresh() -> MetricData {
    MetricData::default()
}

#[test]
fn fresh_record_is_empty() {
    let r = fresh();
    assert_eq!(r.enter_count, 0);
    assert_eq!(r.entered, None);
    assert_eq!(r.exited, None);
}

#[test]
fn enter_exit_pairs_accumulate() {
    // Three enter/exit pairs: the count is 3, the first entry timestamp
    // survives, and the last exit timestamp wins.
    let mut r = fresh();
    r.mark_entered(100);
    r.mark_exited(110);
    r.mark_entered(200);
    r.mark_exited(210);
    r.mark_entered(300);
    r.mark_exited(310);
    assert_eq!(r.enter_count, 3);
    assert_eq!(r.entered, Some(100));
    assert_eq!(r.exited, Some(310));
}

#[test]
fn repeated_enters_keep_first_timestamp() {
    let mut r = fresh();
    r.mark_entered(7);
    r.mark_entered(9);
    r.mark_entered(11);
    assert_eq!(r.enter_count, 3);
    assert_eq!(r.entered, Some(7));
}

#[test]
fn repeated_exits_keep_last_timestamp() {
    let mut r = fresh();
    r.mark_entered(1);
    r.mark_exited(5);
    r.mark_exited(3);
    assert_eq!(r.exited, Some(3));
}

#[test]
fn flush_never_entered_emits_nothing() {
    let mut r = fresh();
    let events = r.flush("quiet");
    assert!(events.is_empty());
    assert_eq!(r.enter_count, 0);
    assert_eq!(r.entered, None);
    assert_eq!(r.exited, None);
}

#[test]
fn flush_emits_one_counter_and_one_duration() {
    let mut r = fresh();
    r.mark_entered(40);
    r.mark_exited(90);
    r.mark_entered(100);
    r.mark_exited(150);
    let events = r.flush("job");
    assert_eq!(events.len(), 2);
    match &events[0] {
        MetricEvent::Counter { name, value } => {
            assert_eq!(name.as_str(), "job");
            assert_eq!(*value, 2);
        },
        other => panic!("expected a counter event, got {:?}", other),
    }
    match &events[1] {
        MetricEvent::Duration { name, start, end } => {
            assert_eq!(name.as_str(), "job_ns");
            assert_eq!(*start, 40);
            assert_eq!(*end, 150);
        },
        other => panic!("expected a duration event, got {:?}", other),
    }
}

#[test]
fn flush_clears_timestamps_and_keeps_count() {
    let mut r = fresh();
    r.mark_entered(1);
    r.mark_exited(2);
    let _ = r.flush("once");
    assert_eq!(r.enter_count, 1);
    assert_eq!(r.entered, None);
    assert_eq!(r.exited, None);
}

#[test]
fn second_flush_is_a_no_op() {
    let mut r = fresh();
    r.mark_entered(1);
    r.mark_exited(2);
    let first = r.flush("twice");
    assert_eq!(first.len(), 2);
    let second = r.flush("twice");
    assert!(second.is_empty());
    assert_eq!(r.enter_count, 1);
}

#[test]
fn enter_count_can_reach_the_maximum() {
    // A record one step below the largest representable count still takes
    // one more enter, and flushes the full count.
    let mut r = MetricData { enter_count: u64::MAX - 1, entered: Some(1), exited: None };
    r.mark_entered(99);
    assert_eq!(r.enter_count, u64::MAX);
    assert_eq!(r.entered, Some(1));
    r.mark_exited(100);
    let events = r.flush("busy");
    match &events[0] {
        MetricEvent::Counter { name, value } => {
            assert_eq!(name.as_str(), "busy");
            assert_eq!(*value, u64::MAX);
        },
        other => panic!("expected a counter event, got {:?}", other),
    }
}

#[test]
fn flush_without_matching_exit_emits_nothing() {
    // An abandoned span: entered but never exited. The flush skips rather
    // than emit a malformed duration.
    let mut r = fresh();
    r.mark_entered(12);
    let events = r.flush("abandoned");
    assert!(events.is_empty());
    assert_eq!(r.entered, Some(12));
}
