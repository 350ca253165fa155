use tracer::event_recorder::EventRecorder;
use tracer::events::EventBody;
use tracer::events::EventKind;
use tracer::events::EventRecord;
use tracer::process_watcher::MonitoredProcess;
use tracer::process_watcher::ProcessInfo;
use tracer::process_watcher::ProcessWatcher;

fn process(pid: u32, name: &str, start_time: u64) -> ProcessInfo {
    ProcessInfo { pid, name: name.to_string(), start_time }
}

fn entry(pid: u32, name: &str, start_time: u64) -> MonitoredProcess {
    MonitoredProcess { pid, name: name.to_string(), start_time, target: name.to_string() }
}

fn started(now: u64, pid: u32, name: &str, start_time: u64) -> EventRecord {
    EventRecord::new(now, EventBody::ProcessStart { name: name.to_string(), pid, start_time })
}

fn ended(now: u64, pid: u32, name: &str) -> EventRecord {
    EventRecord::new(now, EventBody::ProcessEnd { name: name.to_string(), pid, exit_status: None })
}

fn sleep_watcher() -> ProcessWatcher {
    ProcessWatcher::new(vec!["sleep".to_string()])
}

#[test]
fn test_tool_exec() {
    let mut watcher = ProcessWatcher::new(vec!["sleep".to_string()]);
    let mut log = EventRecorder::new();
    watcher.poll_processes(&vec![process(1, "init", 0)], &mut log, 10);
    assert!(watcher.get_seen().is_empty());
    watcher.poll_processes(&vec![process(1, "init", 0), process(77, "sleep", 5)], &mut log, 20);
    assert!(!watcher.get_seen().is_empty());
}

#[test]
fn a_new_watcher_monitors_nothing() {
    let watcher = ProcessWatcher::new(vec!["sleep".to_string(), "bwa".to_string()]);
    assert!(watcher.get_seen().is_empty());
    assert_eq!(watcher.get_targets(), &vec!["sleep".to_string(), "bwa".to_string()]);
}

#[test]
fn a_match_is_followed_from_start_to_end() {
    let mut watcher = sleep_watcher();
    let mut log = EventRecorder::new();

    watcher.poll_processes(&vec![process(1, "init", 0)], &mut log, 100);
    assert!(watcher.get_seen().is_empty());
    assert!(log.is_empty());

    let running = vec![process(1, "init", 0), process(4242, "sleep", 150)];
    watcher.poll_processes(&running, &mut log, 200);
    assert_eq!(watcher.get_seen(), &vec![entry(4242, "sleep", 150)]);
    assert_eq!(log.get_events(), &vec![started(200, 4242, "sleep", 150)]);
    assert_eq!(log.get_events()[0].kind(), EventKind::ProcessStart);

    watcher.remove_completed_processes(&vec![process(1, "init", 0)], &mut log, 300);
    assert!(watcher.get_seen().is_empty());
    assert_eq!(
        log.get_events(),
        &vec![started(200, 4242, "sleep", 150), ended(300, 4242, "sleep")]
    );
    assert_eq!(log.get_events()[1].kind(), EventKind::ProcessEnd);
}

#[test]
fn a_process_seen_again_gets_no_second_start() {
    let mut watcher = sleep_watcher();
    let mut log = EventRecorder::new();
    let running = vec![process(7, "sleep", 1)];
    watcher.poll_processes(&running, &mut log, 10);
    watcher.poll_processes(&running, &mut log, 20);
    watcher.remove_completed_processes(&running, &mut log, 30);
    assert_eq!(watcher.get_seen(), &vec![entry(7, "sleep", 1)]);
    assert_eq!(log.get_events(), &vec![started(10, 7, "sleep", 1)]);
}

#[test]
fn a_poll_also_ends_what_is_gone() {
    let mut watcher = sleep_watcher();
    let mut log = EventRecorder::new();
    watcher.poll_processes(&vec![process(7, "sleep", 1)], &mut log, 10);
    watcher.poll_processes(&vec![process(8, "sleep", 2)], &mut log, 20);
    assert_eq!(watcher.get_seen(), &vec![entry(8, "sleep", 2)]);
    assert_eq!(
        log.get_events(),
        &vec![started(10, 7, "sleep", 1), started(20, 8, "sleep", 2), ended(20, 7, "sleep")]
    );
}

#[test]
fn cleanup_starts_nothing() {
    let mut watcher = sleep_watcher();
    let mut log = EventRecorder::new();
    watcher.remove_completed_processes(&vec![process(7, "sleep", 1)], &mut log, 10);
    assert!(watcher.get_seen().is_empty());
    assert!(log.is_empty());
}

#[test]
fn names_match_exactly() {
    let mut watcher = sleep_watcher();
    let mut log = EventRecorder::new();
    let running = vec![
        process(1, "sleeper", 0),
        process(2, "slee", 0),
        process(3, "Sleep", 0),
        process(4, "", 0),
        process(5, "sleep", 0),
    ];
    watcher.poll_processes(&running, &mut log, 10);
    assert_eq!(watcher.get_seen(), &vec![entry(5, "sleep", 0)]);
}

#[test]
fn entries_keep_the_order_of_first_sight() {
    let mut watcher = ProcessWatcher::new(vec!["a".to_string(), "b".to_string()]);
    let mut log = EventRecorder::new();
    watcher.poll_processes(&vec![process(3, "b", 0), process(1, "a", 0)], &mut log, 10);
    watcher.poll_processes(
        &vec![process(1, "a", 0), process(2, "a", 0), process(3, "b", 0)],
        &mut log,
        20,
    );
    assert_eq!(
        watcher.get_seen(),
        &vec![entry(3, "b", 0), entry(1, "a", 0), entry(2, "a", 0)]
    );
    assert_eq!(
        log.get_events(),
        &vec![started(10, 3, "b", 0), started(10, 1, "a", 0), started(20, 2, "a", 0)]
    );
}

#[test]
fn a_process_identifier_is_monitored_once() {
    let mut watcher = sleep_watcher();
    let mut log = EventRecorder::new();
    let twice = vec![process(7, "sleep", 1), process(7, "sleep", 2)];
    watcher.poll_processes(&twice, &mut log, 10);
    assert_eq!(watcher.get_seen(), &vec![entry(7, "sleep", 1)]);
    assert_eq!(log.len(), 1);
}

#[test]
fn ends_come_in_the_order_of_first_sight() {
    let mut watcher = sleep_watcher();
    let mut log = EventRecorder::new();
    let running = vec![process(9, "sleep", 0), process(3, "sleep", 0), process(5, "sleep", 0)];
    watcher.poll_processes(&running, &mut log, 10);
    log.clear();
    watcher.remove_completed_processes(&vec![process(3, "sleep", 0)], &mut log, 20);
    assert_eq!(watcher.get_seen(), &vec![entry(3, "sleep", 0)]);
    assert_eq!(log.get_events(), &vec![ended(20, 9, "sleep"), ended(20, 5, "sleep")]);
}

#[test]
fn an_empty_snapshot_ends_everything() {
    let mut watcher = sleep_watcher();
    let mut log = EventRecorder::new();
    watcher.poll_processes(&vec![process(1, "sleep", 0), process(2, "sleep", 0)], &mut log, 10);
    watcher.poll_processes(&vec![], &mut log, 20);
    assert!(watcher.get_seen().is_empty());
    assert_eq!(log.len(), 4);
}

#[test]
fn no_targets_match_nothing() {
    let mut watcher = ProcessWatcher::new(vec![]);
    let mut log = EventRecorder::new();
    watcher.poll_processes(&vec![process(1, "sleep", 0)], &mut log, 10);
    assert!(watcher.get_seen().is_empty());
    assert!(log.is_empty());
}

#[test]
fn a_command_reported_by_name_makes_one_record() {
    let record = ProcessWatcher::gather_short_lived_process_data("echo hello");
    assert_eq!(record.tool_name, "echo hello");
    assert_eq!(record.tool_pid, "");
    assert_eq!(record.duration_sec, "0");
}
