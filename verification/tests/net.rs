use azrath::net::{Readiness, Source, SourceTable, READ, WRITE};

#[test]
fn test_reactor_poll_ready() {
    let mut source: Source<u32> = Source::new();
    let poll_result = source.poll_ready(READ, Some(1));
    assert!(matches!(poll_result, Readiness::Pending));
}

#[test]
fn event_wakes_registered_waker_once() {
    let mut source: Source<u32> = Source::new();
    assert_eq!(source.poll_ready(READ, Some(7)), Readiness::Pending);
    assert_eq!(source.registered_waker(READ), Some(&7));
    let mut wakers = Vec::new();
    source.record_event(true, false, &mut wakers);
    assert_eq!(wakers, vec![7]);
    assert!(source.is_triggered(READ));
    assert!(!source.is_triggered(WRITE));
    assert_eq!(source.registered_waker(READ), None);
    let mut again = Vec::new();
    source.record_event(true, true, &mut again);
    assert!(again.is_empty());
}

#[test]
fn triggered_direction_is_ready_until_cleared() {
    let mut source: Source<u32> = Source::new();
    let mut wakers = Vec::new();
    source.record_event(false, true, &mut wakers);
    assert_eq!(source.poll_ready(WRITE, Some(1)), Readiness::Ready);
    assert_eq!(source.registered_waker(WRITE), None);
    assert_eq!(source.after_attempt(WRITE, false), Readiness::Ready);
    assert!(source.is_triggered(WRITE));
    assert_eq!(source.after_attempt(WRITE, true), Readiness::Pending);
    assert!(!source.is_triggered(WRITE));
    assert_eq!(source.poll_ready(WRITE, Some(2)), Readiness::Pending);
    assert_eq!(source.registered_waker(WRITE), Some(&2));
    assert_eq!(source.poll_ready(WRITE, None), Readiness::Pending);
    assert_eq!(source.registered_waker(WRITE), Some(&2));
}

#[test]
fn events_hand_out_read_then_write_wakers() {
    let mut source: Source<&str> = Source::new();
    source.poll_ready(WRITE, Some("w"));
    source.poll_ready(READ, Some("r"));
    let mut wakers = Vec::new();
    source.record_event(true, true, &mut wakers);
    assert_eq!(wakers, vec!["r", "w"]);
    source.clear_trigger(READ);
    assert!(!source.is_triggered(READ));
    assert!(source.is_triggered(WRITE));
}

#[test]
fn source_table_hands_out_fresh_tokens() {
    let mut table: SourceTable<&str> = SourceTable::new();
    let a = table.allocate_token();
    table.insert(a, "a");
    let b = table.allocate_token();
    table.insert(b, "b");
    assert_eq!((a, b), (0, 1));
    assert_eq!(table.get(a), Some(&"a"));
    assert_eq!(table.get(b), Some(&"b"));
    assert_eq!(table.get(2), None);
    assert!(!table.is_empty());
}

#[test]
fn source_table_cleanup() {
    let mut table: SourceTable<u8> = SourceTable::new();
    {
        let token = table.allocate_token();
        table.insert(token, 1);
        assert_eq!(table.remove(token), Some(1));
    }
    assert!(table.is_empty());
    assert_eq!(table.remove(0), None);
}
