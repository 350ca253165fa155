use tracer::config_manager::Config;
use tracer::events::EventBody;
use tracer::events::EventKind;
use tracer::events::EventRecord;
use tracer::events::ShortLivedProcessLog;
use tracer::process_watcher::ProcessInfo;
use tracer::tracer_client::TracerClient;

fn test_config() -> Config {
    Config {
        api_key: "test_api_key".to_string(),
        process_polling_interval_ms: 200,
        batch_submission_interval_ms: 5000,
        service_url: "https://app.tracer.bio/api/data-collector-api".to_string(),
        targets: vec!["target1".to_string(), "target2".to_string()],
    }
}

fn record(name: &str) -> ShortLivedProcessLog {
    ShortLivedProcessLog {
        tool_name: name.to_string(),
        tool_pid: "1".to_string(),
        duration_sec: "0.5".to_string(),
    }
}

fn short_lived(now: u64, name: &str) -> EventRecord {
    EventRecord::new(now, EventBody::ShortLivedProcess { log: record(name) })
}

fn metric(now: u64, text: &str) -> EventRecord {
    EventRecord::new(now, EventBody::Log { message: text.to_string() })
}

fn process(pid: u32, name: &str) -> ProcessInfo {
    ProcessInfo { pid, name: name.to_string(), start_time: 1 }
}

#[test]
fn test_new() {
    let config = test_config();
    let tr = TracerClient::new(config, 0);
    assert_eq!(tr.get_api_key(), "test_api_key");
    assert_eq!(tr.get_service_url(), "https://app.tracer.bio/api/data-collector-api");
    assert_eq!(tr.get_polling_interval(), 200);
    assert_eq!(tr.get_submission_interval(), 5000);
    assert_eq!(tr.get_last_sent(), 0);
    assert!(tr.get_logs().is_empty());
    assert!(tr.get_process_watcher().get_seen().is_empty());
    assert_eq!(
        tr.get_process_watcher().get_targets(),
        &vec!["target1".to_string(), "target2".to_string()]
    );
}

#[test]
fn nothing_is_due_before_the_interval_has_passed() {
    let mut client = TracerClient::new(test_config(), 1000);
    assert!(!client.is_submission_due(1000));
    assert!(!client.is_submission_due(5999));
    assert!(client.is_submission_due(6000));
    assert!(client.is_submission_due(u64::MAX));
    assert!(!client.is_submission_due(0));
    client.fill_logs_with_short_lived_process(record("a"), 1500);
    assert_eq!(client.submit_batched_data(5999, vec![metric(5999, "m")]), None);
    assert_eq!(client.get_logs(), &vec![short_lived(1500, "a")]);
    assert_eq!(client.get_last_sent(), 1000);
}

#[test]
fn a_due_submission_hands_over_the_log_and_empties_it() {
    let mut client = TracerClient::new(test_config(), 1000);
    client.fill_logs_with_short_lived_process(record("a"), 1500);
    client.fill_logs_with_short_lived_process(record("b"), 1600);
    let batch = client.submit_batched_data(6000, vec![metric(6000, "cpu")]).unwrap();
    assert_eq!(
        batch.logs,
        vec![short_lived(1500, "a"), short_lived(1600, "b"), metric(6000, "cpu")]
    );
    assert_eq!(batch.service_url, "https://app.tracer.bio/api/data-collector-api");
    assert_eq!(batch.api_key, "test_api_key");
    assert!(client.get_logs().is_empty());
    assert_eq!(client.get_last_sent(), 6000);
}

#[test]
fn two_attempts_within_the_interval_give_one_batch() {
    let mut client = TracerClient::new(test_config(), 0);
    client.fill_logs_with_short_lived_process(record("a"), 10);
    let first = client.submit_batched_data(5000, vec![]);
    client.fill_logs_with_short_lived_process(record("b"), 5001);
    let second = client.submit_batched_data(9999, vec![]);
    assert!(first.is_some());
    assert!(second.is_none());
    assert_eq!(client.get_logs(), &vec![short_lived(5001, "b")]);
    let third = client.submit_batched_data(10000, vec![]).unwrap();
    assert_eq!(third.logs, vec![short_lived(5001, "b")]);
}

#[test]
fn a_due_submission_of_an_empty_log_still_gives_a_batch() {
    let mut client = TracerClient::new(test_config(), 0);
    let batch = client.submit_batched_data(5000, vec![]).unwrap();
    assert!(batch.logs.is_empty());
    assert_eq!(client.get_last_sent(), 5000);
}

#[test]
fn a_zero_interval_is_always_due() {
    let mut config = test_config();
    config.batch_submission_interval_ms = 0;
    let mut client = TracerClient::new(config, 100);
    assert!(client.is_submission_due(100));
    assert!(client.is_submission_due(50));
    assert!(client.submit_batched_data(50, vec![]).is_some());
    assert_eq!(client.get_last_sent(), 50);
}

#[test]
fn every_event_leaves_in_exactly_one_batch() {
    let mut client = TracerClient::new(test_config(), 0);
    let mut sent: Vec<EventRecord> = Vec::new();
    let mut expected: Vec<EventRecord> = Vec::new();
    let mut now = 0;
    for round in 0..20u64 {
        now += 1300;
        let name = format!("tool{}", round);
        client.fill_logs_with_short_lived_process(record(&name), now);
        expected.push(short_lived(now, &name));
        if let Some(batch) = client.submit_batched_data(now, vec![]) {
            sent.extend(batch.logs);
        }
    }
    sent.extend(client.get_logs().iter().cloned());
    assert_eq!(sent, expected);
}

#[test]
fn reload_changes_the_threshold_of_the_next_attempt() {
    let mut client = TracerClient::new(test_config(), 0);
    client.fill_logs_with_short_lived_process(record("a"), 10);
    assert!(!client.is_submission_due(1000));
    let mut reloaded = test_config();
    reloaded.batch_submission_interval_ms = 1000;
    client.reload_config_file(&reloaded);
    assert_eq!(client.get_submission_interval(), 1000);
    assert!(!client.is_submission_due(999));
    assert!(client.is_submission_due(1000));
    let batch = client.submit_batched_data(1000, vec![]).unwrap();
    assert_eq!(batch.logs, vec![short_lived(10, "a")]);
}

#[test]
fn reload_replaces_address_key_and_intervals_and_keeps_the_rest() {
    let mut client = TracerClient::new(test_config(), 7);
    client.fill_logs_with_short_lived_process(record("a"), 10);
    client.poll_processes(&vec![process(5, "target1")], 20);
    let reloaded = Config {
        api_key: "other_key".to_string(),
        service_url: "http://localhost:8080".to_string(),
        process_polling_interval_ms: 50,
        batch_submission_interval_ms: 60,
        targets: vec!["elsewhere".to_string()],
    };
    client.reload_config_file(&reloaded);
    assert_eq!(client.get_api_key(), "other_key");
    assert_eq!(client.get_service_url(), "http://localhost:8080");
    assert_eq!(client.get_polling_interval(), 50);
    assert_eq!(client.get_submission_interval(), 60);
    assert_eq!(client.get_last_sent(), 7);
    assert_eq!(client.get_logs().len(), 2);
    assert_eq!(client.get_process_watcher().get_seen().len(), 1);
    assert_eq!(
        client.get_process_watcher().get_targets(),
        &vec!["target1".to_string(), "target2".to_string()]
    );
}

#[test]
fn a_batch_carries_the_address_and_key_of_its_moment() {
    let mut client = TracerClient::new(test_config(), 0);
    let mut reloaded = test_config();
    reloaded.api_key = "second".to_string();
    client.reload_config_file(&reloaded);
    let batch = client.submit_batched_data(5000, vec![]).unwrap();
    assert_eq!(batch.api_key, "second");
}

#[test]
fn polling_and_cleanup_feed_the_log() {
    let mut client = TracerClient::new(test_config(), 0);
    client.poll_processes(&vec![process(1, "other")], 10);
    assert!(client.get_logs().is_empty());
    client.poll_processes(&vec![process(1, "other"), process(2, "target2")], 20);
    assert_eq!(client.get_logs().len(), 1);
    assert_eq!(client.get_logs()[0].kind(), EventKind::ProcessStart);
    assert_eq!(client.get_process_watcher().get_seen().len(), 1);
    client.remove_completed_processes(&vec![process(1, "other")], 30);
    assert_eq!(client.get_logs().len(), 2);
    assert_eq!(client.get_logs()[1].kind(), EventKind::ProcessEnd);
    assert_eq!(client.get_logs()[1].timestamp, 30);
    assert!(client.get_process_watcher().get_seen().is_empty());
}

#[test]
fn events_of_all_producers_share_one_order() {
    let mut client = TracerClient::new(test_config(), 0);
    client.fill_logs_with_short_lived_process(record("a"), 1);
    client.poll_processes(&vec![process(2, "target1")], 2);
    client.fill_logs_with_short_lived_process(record("b"), 3);
    client.remove_completed_processes(&vec![], 4);
    let kinds: Vec<EventKind> = client.get_logs().iter().map(|e| e.kind()).collect();
    assert_eq!(
        kinds,
        vec![
            EventKind::ShortLivedProcess,
            EventKind::ProcessStart,
            EventKind::ShortLivedProcess,
            EventKind::ProcessEnd,
        ]
    );
}
