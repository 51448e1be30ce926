use maiden_run::filter::{EventKind, RawEvent, TriggerFilter, DEFAULT_WINDOW_MS};

fn event(kind: EventKind, timestamp: u64) -> RawEvent {
    RawEvent { path: "/tmp/proj/sub/file.lua".to_string(), kind, timestamp }
}

#[test]
fn default_window_is_one_second() {
    assert_eq!(DEFAULT_WINDOW_MS, 1000);
    assert_eq!(TriggerFilter::new(DEFAULT_WINDOW_MS).window_ms(), 1000);
}

#[test]
fn new_filter_is_idle() {
    let filter = TriggerFilter::new(250);
    assert!(!filter.is_pending());
    assert_eq!(filter.time_left(0), None);
    assert_eq!(filter.time_left(u64::MAX), None);
}

#[test]
fn burst_of_two_yields_one_trigger() {
    let mut filter = TriggerFilter::new(1000);
    let mut triggers = 0;
    for timestamp in [5000, 5040] {
        if filter.observe(&event(EventKind::Modify, timestamp)) {
            triggers += 1;
        }
    }
    assert_eq!(triggers, 0);
    assert!(filter.is_pending());
    assert!(!filter.poll(6039));
    assert!(filter.poll(6040));
    assert!(!filter.is_pending());
    assert!(!filter.poll(7000));
    assert!(!filter.poll(60000));
}

#[test]
fn burst_of_many_yields_one_trigger() {
    let mut filter = TriggerFilter::new(1000);
    let mut triggers = 0;
    let mut timestamp = 100;
    for _ in 0..50 {
        if filter.observe(&event(EventKind::Modify, timestamp)) {
            triggers += 1;
        }
        timestamp += 999;
    }
    let last = timestamp - 999;
    if filter.poll(last + 1000) {
        triggers += 1;
    }
    assert_eq!(triggers, 1);
}

#[test]
fn each_qualifying_event_restarts_the_window() {
    let mut filter = TriggerFilter::new(1000);
    assert!(!filter.observe(&event(EventKind::Modify, 0)));
    assert_eq!(filter.time_left(400), Some(600));
    assert!(!filter.observe(&event(EventKind::Modify, 900)));
    assert_eq!(filter.time_left(900), Some(1000));
    assert!(!filter.poll(1000));
    assert!(!filter.poll(1899));
    assert!(filter.poll(1900));
}

#[test]
fn unqualified_events_yield_no_trigger() {
    let mut filter = TriggerFilter::new(1000);
    let kinds = [EventKind::Create, EventKind::Remove, EventKind::Other];
    let mut timestamp = 0;
    for round in 0..20 {
        let kind = kinds[round % kinds.len()];
        assert!(!filter.observe(&event(kind, timestamp)));
        assert!(!filter.is_pending());
        assert!(!filter.poll(timestamp + 5000));
        timestamp += 700;
    }
    assert!(!filter.flush());
}

#[test]
fn unqualified_events_do_not_restart_the_window() {
    let mut filter = TriggerFilter::new(1000);
    assert!(!filter.observe(&event(EventKind::Modify, 0)));
    assert!(!filter.observe(&event(EventKind::Create, 900)));
    assert_eq!(filter.time_left(900), Some(100));
    assert!(filter.observe(&event(EventKind::Remove, 1000)));
    assert!(!filter.is_pending());
}

#[test]
fn two_bursts_yield_two_triggers_in_order() {
    let mut filter = TriggerFilter::new(1000);
    let mut fired_at = Vec::new();
    for timestamp in [0, 10, 20] {
        assert!(!filter.observe(&event(EventKind::Modify, timestamp)));
    }
    if filter.poll(1020) {
        fired_at.push(1020);
    }
    for timestamp in [3000, 3500] {
        assert!(!filter.observe(&event(EventKind::Modify, timestamp)));
    }
    if filter.poll(4500) {
        fired_at.push(4500);
    }
    assert_eq!(fired_at, vec![1020, 4500]);
}

#[test]
fn late_event_closes_the_old_burst_and_opens_the_next() {
    let mut filter = TriggerFilter::new(1000);
    assert!(!filter.observe(&event(EventKind::Modify, 0)));
    assert!(filter.observe(&event(EventKind::Modify, 1000)));
    assert!(filter.is_pending());
    assert_eq!(filter.time_left(1000), Some(1000));
    assert!(filter.poll(2000));
}

#[test]
fn time_left_counts_down_and_stops_at_zero() {
    let mut filter = TriggerFilter::new(1000);
    filter.observe(&event(EventKind::Modify, 5000));
    assert_eq!(filter.time_left(5000), Some(1000));
    assert_eq!(filter.time_left(5001), Some(999));
    assert_eq!(filter.time_left(5999), Some(1));
    assert_eq!(filter.time_left(6000), Some(0));
    assert_eq!(filter.time_left(u64::MAX), Some(0));
}

#[test]
fn time_left_with_a_clock_behind_the_event() {
    let mut filter = TriggerFilter::new(1000);
    filter.observe(&event(EventKind::Modify, 5000));
    assert_eq!(filter.time_left(4000), Some(2000));
    assert_eq!(filter.time_left(0), Some(6000));
    assert!(!filter.poll(4000));
}

#[test]
fn time_left_never_overflows() {
    let mut filter = TriggerFilter::new(u64::MAX);
    filter.observe(&event(EventKind::Modify, u64::MAX));
    assert_eq!(filter.time_left(0), Some(u64::MAX));
    assert_eq!(filter.time_left(u64::MAX), Some(u64::MAX));
    assert!(!filter.poll(u64::MAX));
    let mut late = TriggerFilter::new(10);
    late.observe(&event(EventKind::Modify, u64::MAX - 3));
    assert_eq!(late.time_left(u64::MAX), Some(7));
    assert!(!late.poll(u64::MAX));
    assert!(late.flush());
}

#[test]
fn zero_window_fires_at_the_next_look() {
    let mut filter = TriggerFilter::new(0);
    assert!(!filter.observe(&event(EventKind::Modify, 10)));
    assert_eq!(filter.time_left(10), Some(0));
    assert!(filter.poll(10));
    assert!(!filter.observe(&event(EventKind::Modify, 10)));
    assert!(filter.observe(&event(EventKind::Modify, 10)));
}

#[test]
fn flush_turns_an_open_burst_into_a_trigger() {
    let mut filter = TriggerFilter::new(1000);
    assert!(!filter.flush());
    filter.observe(&event(EventKind::Modify, 1));
    assert!(filter.flush());
    assert!(!filter.is_pending());
    assert!(!filter.flush());
    assert_eq!(filter.window_ms(), 1000);
}

#[test]
fn the_path_plays_no_part() {
    let mut filter = TriggerFilter::new(1000);
    let first = RawEvent { path: "/tmp/a".to_string(), kind: EventKind::Modify, timestamp: 0 };
    let second = RawEvent { path: "/tmp/b".to_string(), kind: EventKind::Modify, timestamp: 500 };
    assert!(!filter.observe(&first));
    assert!(!filter.observe(&second));
    assert!(!filter.poll(1499));
    assert!(filter.poll(1500));
}
