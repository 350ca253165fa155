use tracer::event_recorder::EventRecorder;
use tracer::events::EventBody;
use tracer::events::EventKind;
use tracer::events::EventRecord;

fn log_event(timestamp: u64, message: &str) -> EventRecord {
    EventRecord::new(timestamp, EventBody::Log { message: message.to_string() })
}

#[test]
fn a_new_log_is_empty() {
    let log = EventRecorder::new();
    assert!(log.is_empty());
    assert_eq!(log.len(), 0);
    assert!(log.get_events().is_empty());
}

#[test]
fn records_keep_the_order_of_appending() {
    let mut log = EventRecorder::new();
    log.record(log_event(1, "a"));
    log.record(log_event(2, "b"));
    log.record(log_event(3, "c"));
    assert_eq!(log.len(), 3);
    assert!(!log.is_empty());
    assert_eq!(
        log.get_events(),
        &vec![log_event(1, "a"), log_event(2, "b"), log_event(3, "c")]
    );
}

#[test]
fn equal_records_are_both_kept() {
    let mut log = EventRecorder::new();
    log.record(log_event(1, "a"));
    log.record(log_event(1, "a"));
    assert_eq!(log.len(), 2);
}

#[test]
fn extend_appends_behind_what_is_there() {
    let mut log = EventRecorder::new();
    log.record(log_event(1, "a"));
    log.extend(vec![log_event(2, "b"), log_event(3, "c")]);
    log.extend(vec![]);
    assert_eq!(
        log.get_events(),
        &vec![log_event(1, "a"), log_event(2, "b"), log_event(3, "c")]
    );
}

#[test]
fn drain_hands_everything_out_once() {
    let mut log = EventRecorder::new();
    log.record(log_event(1, "a"));
    log.record(log_event(2, "b"));
    let first = log.drain();
    assert_eq!(first, vec![log_event(1, "a"), log_event(2, "b")]);
    assert!(log.is_empty());
    let second = log.drain();
    assert!(second.is_empty());
    log.record(log_event(3, "c"));
    assert_eq!(log.drain(), vec![log_event(3, "c")]);
}

#[test]
fn clear_empties_the_log() {
    let mut log = EventRecorder::new();
    log.record(log_event(1, "a"));
    log.clear();
    assert!(log.is_empty());
    log.clear();
    assert!(log.is_empty());
}

#[test]
fn every_body_has_its_kind() {
    let bodies = vec![
        (
            EventBody::ProcessStart { name: "a".to_string(), pid: 1, start_time: 2 },
            EventKind::ProcessStart,
        ),
        (
            EventBody::ProcessEnd { name: "a".to_string(), pid: 1, exit_status: None },
            EventKind::ProcessEnd,
        ),
        (EventBody::Log { message: "m".to_string() }, EventKind::Log),
        (EventBody::Alert { message: "m".to_string() }, EventKind::Alert),
        (EventBody::TagUpdate { tags: vec![] }, EventKind::TagUpdate),
        (EventBody::RunStart, EventKind::RunStart),
        (EventBody::RunEnd, EventKind::RunEnd),
    ];
    for (body, kind) in bodies {
        assert_eq!(body.kind(), kind);
        assert_eq!(EventRecord::new(9, body).kind(), kind);
    }
}

#[test]
fn a_clone_of_a_record_equals_it() {
    let event = EventRecord::new(
        5,
        EventBody::TagUpdate { tags: vec!["x".to_string(), "y".to_string()] },
    );
    assert_eq!(event.clone(), event);
}
