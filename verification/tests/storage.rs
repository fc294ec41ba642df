use homemagic_application::memory::{upsert, EventLog, NoopDomainEventSink};

#[test]
fn event_log_assigns_contiguous_cursors_and_pages_after_a_cursor() {
    let mut log = EventLog::new();
    log.append(vec!["a", "b", "c"]);
    log.append(Vec::new());
    log.append(vec!["d"]);
    let cursors: Vec<u64> = log.events().iter().map(|e| e.cursor).collect();
    assert_eq!(cursors, vec![1, 2, 3, 4]);
    let (earliest, latest, page) = log.events_after(1, 2);
    assert_eq!((earliest, latest), (Some(1), Some(4)));
    assert_eq!(page.iter().map(|e| e.event).collect::<Vec<_>>(), vec!["b", "c"]);
    let (_, _, rest) = log.events_after(3, 10);
    assert_eq!(rest.iter().map(|e| e.cursor).collect::<Vec<_>>(), vec![4]);
    let (_, _, none) = log.events_after(4, 10);
    assert!(none.is_empty());
    let health = log.health();
    assert_eq!(health.backend, "memory");
    assert_eq!(health.integrity, "ok");
    assert_eq!((health.earliest_event_cursor, health.latest_event_cursor), (Some(1), Some(4)));
    assert!(NoopDomainEventSink.publish(&["x"]).is_ok());
}

#[test]
fn upsert_orders_by_key_and_keeps_the_latest_write() {
    let mut current = vec![(5, "five"), (2, "two")];
    upsert(&mut current, vec![(3, "three"), (5, "five again"), (3, "three again")]);
    assert_eq!(current, vec![(2, "two"), (3, "three again"), (5, "five again")]);
    let mut duplicates = vec![(1, "first"), (1, "second")];
    upsert(&mut duplicates, Vec::new());
    assert_eq!(duplicates, vec![(1, "second")]);
    let mut empty: Vec<(u64, &str)> = Vec::new();
    upsert(&mut empty, Vec::new());
    assert!(empty.is_empty());
}

#[test]
fn events_after_the_previous_latest_cursor_read_back_the_appended_batch() {
    let mut log = EventLog::new();
    log.append(vec!["a", "b"]);
    let (_, before_latest, _) = log.events_after(0, 10);
    let base = before_latest.expect("latest");
    log.append(vec!["c", "d", "e"]);
    let (_, latest, page) = log.events_after(base, 2);
    let read: Vec<(u64, &str)> = page.iter().map(|e| (e.cursor, e.event)).collect();
    assert_eq!(read, vec![(base + 1, "c"), (base + 2, "d")]);
    assert_eq!(latest, Some(base + 3));
    let (_, _, all) = log.events_after(base, 10);
    assert_eq!(all.iter().map(|e| e.event).collect::<Vec<_>>(), vec!["c", "d", "e"]);
}

#[test]
fn add_millis_sums_inside_chrono_range_and_refuses_overflow() {
    assert_eq!(homemagic_application::time::add_millis(1_000, 2_500), Some(3_500));
    assert_eq!(homemagic_application::time::add_millis(-5_000, 5_000), Some(0));
    assert_eq!(homemagic_application::time::add_millis(i64::MAX - 1, 10), None);
}

#[test]
fn add_millis_follows_chrono_range_exactly() {
    let max = homemagic_application::time::UTC_MAX_MILLIS;
    let min = homemagic_application::time::UTC_MIN_MILLIS;
    assert_eq!(homemagic_application::time::add_millis(max, 0), Some(max));
    assert_eq!(homemagic_application::time::add_millis(max - 5, 5), Some(max));
    assert_eq!(homemagic_application::time::add_millis(max, 1), None);
    assert_eq!(homemagic_application::time::add_millis(min, 0), Some(min));
    assert_eq!(homemagic_application::time::add_millis(min - 1, 1), None);
    assert_eq!(homemagic_application::time::add_millis(min, u64::MAX), None);
}
