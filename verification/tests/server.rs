use tracer::config_manager::Config;
use tracer::daemon_communication::server::handle_document;
use tracer::daemon_communication::server::handle_message;
use tracer::daemon_communication::server::handle_request;
use tracer::daemon_communication::server::parse_short_lived_log;
use tracer::daemon_communication::server::process_alert_command;
use tracer::daemon_communication::server::process_end_run_command;
use tracer::daemon_communication::server::process_log_command;
use tracer::daemon_communication::server::process_log_short_lived_process_command;
use tracer::daemon_communication::server::process_refresh_config_command;
use tracer::daemon_communication::server::process_start_run_command;
use tracer::daemon_communication::server::process_tag_command;
use tracer::daemon_communication::server::Command;
use tracer::daemon_communication::server::OutboundEvent;
use tracer::daemon_communication::server::Rejection;
use tracer::daemon_communication::server::ServerAction;
use tracer::events::EventBody;
use tracer::events::EventKind;
use tracer::events::EventRecord;
use tracer::events::ShortLivedProcessLog;
use tracer::json::JsonValue;
use tracer::tracer_client::TracerClient;

const URL: &str = "https://service.example/api";
const KEY: &str = "key-1";

fn config() -> Config {
    Config {
        api_key: KEY.to_string(),
        service_url: URL.to_string(),
        process_polling_interval_ms: 200,
        batch_submission_interval_ms: 5000,
        targets: vec!["sleep".to_string()],
    }
}

fn client() -> TracerClient {
    TracerClient::new(config(), 0)
}

fn text(s: &str) -> JsonValue {
    JsonValue::Text(s.to_string())
}

fn outbound(body: EventBody) -> OutboundEvent {
    OutboundEvent { service_url: URL.to_string(), api_key: KEY.to_string(), body }
}

fn echo_record() -> ShortLivedProcessLog {
    ShortLivedProcessLog {
        tool_name: "echo".to_string(),
        tool_pid: "1234".to_string(),
        duration_sec: "0.01".to_string(),
    }
}

#[test]
fn every_word_names_its_command() {
    assert_eq!(Command::from_word("log"), Command::Log);
    assert_eq!(Command::from_word("alert"), Command::Alert);
    assert_eq!(Command::from_word("start"), Command::Start);
    assert_eq!(Command::from_word("end"), Command::End);
    assert_eq!(Command::from_word("refresh_config"), Command::RefreshConfig);
    assert_eq!(Command::from_word("tag"), Command::Tag);
    assert_eq!(Command::from_word("log_short_lived_process"), Command::LogShortLivedProcess);
    assert_eq!(Command::from_word("terminate"), Command::Terminate);
    assert_eq!(Command::from_word("ping"), Command::Ping);
    assert_eq!(Command::from_word("upload"), Command::Unknown);
    assert_eq!(Command::from_word(""), Command::Unknown);
    assert_eq!(Command::from_word("Log"), Command::Unknown);
    assert_eq!(Command::from_word("logs"), Command::Unknown);
    assert_eq!(Command::from_word("pin"), Command::Unknown);
}

#[test]
fn malformed_messages_are_rejected_and_a_ping_still_succeeds() {
    let mut tracer = client();
    assert_eq!(
        handle_message(&mut tracer, "{not json", 1),
        ServerAction::Reject(Rejection::InvalidJson)
    );
    assert_eq!(handle_message(&mut tracer, "", 2), ServerAction::Reject(Rejection::InvalidJson));
    assert_eq!(
        handle_message(&mut tracer, "[\"command\", \"ping\"]", 3),
        ServerAction::Reject(Rejection::NotAnObject)
    );
    assert_eq!(
        handle_message(&mut tracer, "\"ping\"", 4),
        ServerAction::Reject(Rejection::NotAnObject)
    );
    assert_eq!(
        handle_message(&mut tracer, "{\"message\":\"hello\"}", 5),
        ServerAction::Reject(Rejection::MissingCommand)
    );
    assert_eq!(
        handle_message(&mut tracer, "{}", 6),
        ServerAction::Reject(Rejection::MissingCommand)
    );
    assert!(tracer.get_logs().is_empty());
    let action = handle_message(&mut tracer, "{\"command\":\"ping\"}", 7);
    assert_eq!(action, ServerAction::Idle);
    assert!(action.keeps_serving());
    assert!(tracer.get_logs().is_empty());
}

#[test]
fn a_command_that_is_no_string_is_rejected() {
    let mut tracer = client();
    for message in [
        "{\"command\":1}",
        "{\"command\":null}",
        "{\"command\":[\"ping\"]}",
        "{\"command\":{\"name\":\"ping\"}}",
        "{\"command\":true}",
    ] {
        assert_eq!(
            handle_message(&mut tracer, message, 1),
            ServerAction::Reject(Rejection::MissingCommand)
        );
    }
}

#[test]
fn an_unknown_command_is_rejected() {
    let mut tracer = client();
    let action = handle_message(&mut tracer, "{\"command\":\"dance\"}", 1);
    assert_eq!(action, ServerAction::Reject(Rejection::UnknownCommand));
    assert!(action.keeps_serving());
    assert!(!action.cancels());
    assert_eq!(
        handle_message(&mut tracer, "{\"command\":\"upload\"}", 1),
        ServerAction::Reject(Rejection::UnknownCommand)
    );
    assert_eq!(
        handle_message(&mut tracer, "{\"command\":\"\"}", 1),
        ServerAction::Reject(Rejection::UnknownCommand)
    );
}

#[test]
fn terminate_asks_for_the_shutdown() {
    let mut tracer = client();
    let action = handle_message(&mut tracer, "{\"command\":\"terminate\"}", 1);
    assert_eq!(action, ServerAction::Shutdown);
    assert!(!action.keeps_serving());
    assert!(action.cancels());
    assert!(tracer.get_logs().is_empty());
}

#[test]
fn only_the_shutdown_ends_the_loop() {
    let others = vec![
        ServerAction::Idle,
        ServerAction::Send(outbound(EventBody::RunStart)),
        ServerAction::ReloadConfig,
        ServerAction::Reject(Rejection::InvalidJson),
        ServerAction::Reject(Rejection::MissingField),
    ];
    for action in others {
        assert!(action.keeps_serving());
        assert!(!action.cancels());
    }
}

#[test]
fn log_and_alert_ask_to_send_their_message() {
    let mut tracer = client();
    assert_eq!(
        handle_message(&mut tracer, "{\"command\":\"log\",\"message\":\"step done\"}", 1),
        ServerAction::Send(outbound(EventBody::Log { message: "step done".to_string() }))
    );
    assert_eq!(
        handle_message(&mut tracer, "{\"message\":\"disk full\",\"command\":\"alert\"}", 1),
        ServerAction::Send(outbound(EventBody::Alert { message: "disk full".to_string() }))
    );
    assert_eq!(
        handle_message(&mut tracer, "{\"command\":\"log\",\"message\":\"\"}", 1),
        ServerAction::Send(outbound(EventBody::Log { message: "".to_string() }))
    );
    assert!(tracer.get_logs().is_empty());
}

#[test]
fn log_and_alert_without_a_message_are_rejected() {
    let mut tracer = client();
    for message in [
        "{\"command\":\"log\"}",
        "{\"command\":\"log\",\"message\":5}",
        "{\"command\":\"log\",\"message\":null}",
        "{\"command\":\"log\",\"Message\":\"x\"}",
        "{\"command\":\"alert\"}",
        "{\"command\":\"alert\",\"message\":[\"x\"]}",
    ] {
        assert_eq!(
            handle_message(&mut tracer, message, 1),
            ServerAction::Reject(Rejection::MissingField)
        );
    }
}

#[test]
fn start_and_end_ask_to_send_run_events() {
    let mut tracer = client();
    assert_eq!(
        handle_message(&mut tracer, "{\"command\":\"start\"}", 1),
        ServerAction::Send(outbound(EventBody::RunStart))
    );
    assert_eq!(
        handle_message(&mut tracer, "{\"command\":\"end\",\"extra\":1}", 1),
        ServerAction::Send(outbound(EventBody::RunEnd))
    );
}

#[test]
fn tag_asks_to_send_the_tags() {
    let mut tracer = client();
    assert_eq!(
        handle_message(&mut tracer, "{\"command\":\"tag\",\"tags\":[\"a\",\"b\"]}", 1),
        ServerAction::Send(outbound(EventBody::TagUpdate {
            tags: vec!["a".to_string(), "b".to_string()]
        }))
    );
    assert_eq!(
        handle_message(&mut tracer, "{\"command\":\"tag\",\"tags\":[]}", 1),
        ServerAction::Send(outbound(EventBody::TagUpdate { tags: vec![] }))
    );
}

#[test]
fn tag_without_a_list_of_strings_is_rejected() {
    let mut tracer = client();
    for message in [
        "{\"command\":\"tag\"}",
        "{\"command\":\"tag\",\"tags\":\"a\"}",
        "{\"command\":\"tag\",\"tags\":[\"a\",1]}",
        "{\"command\":\"tag\",\"tags\":{\"a\":\"b\"}}",
        "{\"command\":\"tag\",\"tags\":[[\"a\"]]}",
    ] {
        assert_eq!(
            handle_message(&mut tracer, message, 1),
            ServerAction::Reject(Rejection::MissingField)
        );
    }
}

#[test]
fn a_short_lived_process_joins_the_log_once() {
    let mut tracer = client();
    let message = "{\"command\":\"log_short_lived_process\",\"log\":{\"tool_name\":\"echo\",\"tool_pid\":\"1234\",\"duration_sec\":0.01}}";
    let action = handle_message(&mut tracer, message, 42);
    assert_eq!(action, ServerAction::Idle);
    assert_eq!(tracer.get_logs().len(), 1);
    assert_eq!(tracer.get_logs()[0].kind(), EventKind::ShortLivedProcess);
    assert_eq!(
        tracer.get_logs(),
        &vec![EventRecord::new(42, EventBody::ShortLivedProcess { log: echo_record() })]
    );
    assert!(tracer.get_process_watcher().get_seen().is_empty());
}

#[test]
fn a_short_lived_process_without_its_record_is_rejected() {
    let mut tracer = client();
    for message in [
        "{\"command\":\"log_short_lived_process\"}",
        "{\"command\":\"log_short_lived_process\",\"log\":\"echo\"}",
        "{\"command\":\"log_short_lived_process\",\"log\":{}}",
        "{\"command\":\"log_short_lived_process\",\"log\":{\"tool_name\":\"echo\",\"tool_pid\":\"1\"}}",
        "{\"command\":\"log_short_lived_process\",\"log\":{\"tool_name\":\"echo\",\"tool_pid\":1,\"duration_sec\":0.01}}",
        "{\"command\":\"log_short_lived_process\",\"log\":{\"tool_name\":\"echo\",\"tool_pid\":\"1\",\"duration_sec\":\"0.01\"}}",
        "{\"command\":\"log_short_lived_process\",\"log\":{\"tool_name\":null,\"tool_pid\":\"1\",\"duration_sec\":0.01}}",
    ] {
        assert_eq!(
            handle_message(&mut tracer, message, 1),
            ServerAction::Reject(Rejection::MissingField)
        );
    }
    assert!(tracer.get_logs().is_empty());
}

#[test]
fn refresh_config_asks_for_the_reload() {
    let mut tracer = client();
    let action = handle_message(&mut tracer, "{\"command\":\"refresh_config\"}", 1);
    assert_eq!(action, ServerAction::ReloadConfig);
    assert!(action.keeps_serving());
    assert_eq!(tracer.get_submission_interval(), 5000);
}

#[test]
fn a_reload_reaches_the_state_and_the_shared_copy() {
    let mut tracer = client();
    let mut shared = config();
    let mut on_disk = config();
    on_disk.batch_submission_interval_ms = 1000;
    on_disk.api_key = "key-2".to_string();
    assert!(!tracer.is_submission_due(1000));
    process_refresh_config_command(&mut tracer, &mut shared, &on_disk);
    assert_eq!(shared, on_disk);
    assert_eq!(tracer.get_submission_interval(), 1000);
    assert_eq!(tracer.get_api_key(), "key-2");
    assert!(tracer.is_submission_due(1000));
    assert!(!tracer.is_submission_due(999));
}

#[test]
fn events_are_sent_with_the_address_and_key_of_the_moment() {
    let mut tracer = client();
    let mut shared = config();
    let mut on_disk = config();
    on_disk.service_url = "http://other.example".to_string();
    on_disk.api_key = "key-2".to_string();
    process_refresh_config_command(&mut tracer, &mut shared, &on_disk);
    assert_eq!(
        handle_message(&mut tracer, "{\"command\":\"start\"}", 1),
        ServerAction::Send(OutboundEvent {
            service_url: "http://other.example".to_string(),
            api_key: "key-2".to_string(),
            body: EventBody::RunStart,
        })
    );
}

#[test]
fn documents_are_handled_as_their_text_is() {
    let mut tracer = client();
    let document = JsonValue::Object(vec![
        ("command".to_string(), text("log")),
        ("message".to_string(), text("hi")),
    ]);
    assert_eq!(
        handle_document(&mut tracer, &document, 1),
        ServerAction::Send(outbound(EventBody::Log { message: "hi".to_string() }))
    );
    assert_eq!(
        handle_document(&mut tracer, &JsonValue::Null, 1),
        ServerAction::Reject(Rejection::NotAnObject)
    );
    assert_eq!(
        handle_document(&mut tracer, &JsonValue::Array(vec![]), 1),
        ServerAction::Reject(Rejection::NotAnObject)
    );
    assert_eq!(
        handle_document(&mut tracer, &JsonValue::Object(vec![]), 1),
        ServerAction::Reject(Rejection::MissingCommand)
    );
}

#[test]
fn the_handlers_read_their_members() {
    let with_message = vec![("message".to_string(), text("m"))];
    let without = vec![("other".to_string(), text("m"))];
    assert_eq!(
        process_log_command(URL, KEY, &with_message),
        Some(outbound(EventBody::Log { message: "m".to_string() }))
    );
    assert_eq!(process_log_command(URL, KEY, &without), None);
    assert_eq!(
        process_alert_command(URL, KEY, &with_message),
        Some(outbound(EventBody::Alert { message: "m".to_string() }))
    );
    assert_eq!(process_alert_command(URL, KEY, &without), None);
    assert_eq!(process_start_run_command(URL, KEY), Some(outbound(EventBody::RunStart)));
    assert_eq!(process_end_run_command(URL, KEY), Some(outbound(EventBody::RunEnd)));
    let with_tags = vec![("tags".to_string(), JsonValue::Array(vec![text("x")]))];
    assert_eq!(
        process_tag_command(URL, KEY, &with_tags),
        Some(outbound(EventBody::TagUpdate { tags: vec!["x".to_string()] }))
    );
    assert_eq!(process_tag_command(URL, KEY, &without), None);
}

#[test]
fn the_short_lived_handler_logs_or_leaves_the_state() {
    let mut tracer = client();
    let record = JsonValue::Object(vec![
        ("tool_name".to_string(), text("echo")),
        ("tool_pid".to_string(), text("1234")),
        ("duration_sec".to_string(), JsonValue::Number("0.01".to_string())),
    ]);
    assert_eq!(parse_short_lived_log(&record), Some(echo_record()));
    assert_eq!(parse_short_lived_log(&text("echo")), None);
    let good = vec![("log".to_string(), record)];
    let bad = vec![("log".to_string(), JsonValue::Null)];
    assert!(!process_log_short_lived_process_command(&mut tracer, &bad, 5));
    assert!(tracer.get_logs().is_empty());
    assert!(process_log_short_lived_process_command(&mut tracer, &good, 6));
    assert!(process_log_short_lived_process_command(&mut tracer, &good, 7));
    assert_eq!(tracer.get_logs().len(), 2);
    assert_eq!(tracer.get_logs()[1].timestamp, 7);
}

#[test]
fn commands_and_captures_interleave_in_one_log() {
    let mut tracer = client();
    let message = "{\"command\":\"log_short_lived_process\",\"log\":{\"tool_name\":\"echo\",\"tool_pid\":\"1234\",\"duration_sec\":0.01}}";
    handle_message(&mut tracer, message, 1);
    handle_message(&mut tracer, "garbage", 2);
    handle_message(&mut tracer, "{\"command\":\"ping\"}", 3);
    handle_message(&mut tracer, message, 4);
    let batch = tracer.submit_batched_data(5000, vec![]).unwrap();
    assert_eq!(batch.logs.len(), 2);
    assert_eq!(batch.logs[0].timestamp, 1);
    assert_eq!(batch.logs[1].timestamp, 4);
    assert!(tracer.get_logs().is_empty());
    handle_message(&mut tracer, message, 5001);
    assert_eq!(tracer.submit_batched_data(5002, vec![]), None);
    let next = tracer.submit_batched_data(10000, vec![]).unwrap();
    assert_eq!(next.logs.len(), 1);
    assert_eq!(next.logs[0].timestamp, 5001);
}

#[test]
fn bytes_that_are_no_text_are_rejected() {
    let mut tracer = client();
    assert_eq!(
        handle_request(&mut tracer, &[0xff, 0xfe, 0xfd], 1),
        ServerAction::Reject(Rejection::NotUtf8)
    );
    let mut broken = b"{\"command\":\"ping\"}".to_vec();
    broken.push(0x80);
    assert_eq!(handle_request(&mut tracer, &broken, 2), ServerAction::Reject(Rejection::NotUtf8));
    assert!(tracer.get_logs().is_empty());
    assert_eq!(handle_request(&mut tracer, b"{\"command\":\"ping\"}", 3), ServerAction::Idle);
}

#[test]
fn bytes_are_handled_as_their_text_is() {
    let mut tracer = client();
    assert_eq!(handle_request(&mut tracer, b"", 1), ServerAction::Reject(Rejection::InvalidJson));
    assert_eq!(
        handle_request(&mut tracer, b"[1,2]", 1),
        ServerAction::Reject(Rejection::NotAnObject)
    );
    assert_eq!(
        handle_request(&mut tracer, "{\"command\":\"log\",\"message\":\"é\"}".as_bytes(), 1),
        ServerAction::Send(outbound(EventBody::Log { message: "é".to_string() }))
    );
    assert_eq!(
        handle_request(&mut tracer, b"{\"command\":\"terminate\"}", 1),
        ServerAction::Shutdown
    );
}

#[test]
fn a_stream_of_messages_is_served_until_terminate() {
    let mut tracer = client();
    let messages: Vec<&[u8]> = vec![
        b"{\"command\":\"ping\"}",
        b"\xff",
        b"nonsense",
        b"[]",
        b"{\"command\":\"start\"}",
        b"{\"command\":\"terminate\"}",
        b"{\"command\":\"ping\"}",
    ];
    let mut served = 0;
    for message in messages {
        let action = handle_request(&mut tracer, message, served);
        served += 1;
        if !action.keeps_serving() {
            break;
        }
    }
    assert_eq!(served, 6);
}
