use cloud_bridge::google::logging::{
    write_log_request, HttpRequest as WireRequest, Log, LogEntry, LogEntryOperation,
    LogEntrySourceLocation, LogSeverity, MonitoredResource, Payload, Timestamp, WriteLogEntries,
};
use cloud_bridge::labels::Labels;
use cloud_bridge::logging::{
    describe_current_resource, initialize_logger, reinterpret_u64, render_labels, Emission,
    HeaderText, HttpRequest, LogBuilder, LogContext, RequestHead,
};
use std::time::Duration;

fn labels(list: &[(&str, &str)]) -> Labels {
    let mut labels = Labels::new();
    for (name, value) in list {
        labels.insert(name.to_string(), value.to_string());
    }
    labels
}

fn request() -> HttpRequest {
    HttpRequest {
        request_method: "GET".to_string(),
        request_url: "http://example.com/some/info?color=red".to_string(),
        request_size: 12,
        user_agent: "agent".to_string(),
        remote_ip: None,
        referer: "ref".to_string(),
        latency: None,
        protocol: "HTTP/1.1".to_string(),
    }
}

fn wire(remote_ip: &str, latency: Option<Duration>) -> WireRequest {
    WireRequest {
        request_method: "GET".to_string(),
        request_url: "http://example.com/some/info?color=red".to_string(),
        request_size: 12,
        status: 0,
        response_size: 0,
        user_agent: "agent".to_string(),
        remote_ip: remote_ip.to_string(),
        server_ip: String::new(),
        referer: "ref".to_string(),
        latency,
        cache_lookup: false,
        cache_hit: false,
        cache_validated_with_origin_server: false,
        cache_fill_bytes: 0,
        protocol: "HTTP/1.1".to_string(),
    }
}

fn time() -> Timestamp {
    Timestamp::from_elapsed(1_600_000_000, 5).unwrap()
}

fn builder() -> LogBuilder {
    LogBuilder::at(time(), LogSeverity::Warning, 42, "src/main.rs", "app::run")
}

#[test]
fn severity_codes() {
    assert_eq!(LogSeverity::Default.code(), 0);
    assert_eq!(LogSeverity::Debug.code(), 100);
    assert_eq!(LogSeverity::Info.code(), 200);
    assert_eq!(LogSeverity::Notice.code(), 300);
    assert_eq!(LogSeverity::Warning.code(), 400);
    assert_eq!(LogSeverity::Error.code(), 500);
    assert_eq!(LogSeverity::Critical.code(), 600);
    assert_eq!(LogSeverity::Alert.code(), 700);
    assert_eq!(LogSeverity::Emergency.code(), 800);
}

#[test]
fn timestamp_keeps_seconds_and_nanoseconds() {
    let t = Timestamp::from_elapsed(5, 7).unwrap();
    assert_eq!((t.seconds(), t.nanos()), (5, 7));
    let t = Timestamp::from_elapsed(0, 0).unwrap();
    assert_eq!((t.seconds(), t.nanos()), (0, 0));
    let t = Timestamp::from_elapsed(i64::MAX as u64, 999_999_999).unwrap();
    assert_eq!((t.seconds(), t.nanos()), (i64::MAX, 999_999_999));
}

#[test]
fn timestamp_needs_seconds_that_fit() {
    assert_eq!(Timestamp::from_elapsed(i64::MAX as u64 + 1, 0), None);
    assert_eq!(Timestamp::from_elapsed(u64::MAX, 1), None);
}

#[test]
fn timestamp_needs_nanoseconds_within_the_second() {
    assert_eq!(Timestamp::from_elapsed(1, 1_000_000_000), None);
    assert_eq!(Timestamp::from_elapsed(0, u32::MAX), None);
}

#[test]
fn timestamp_now_is_after_the_epoch() {
    let now = Timestamp::now().unwrap();
    assert!(now.seconds() > 1_600_000_000);
    assert!(now.nanos() >= 0 && now.nanos() < 1_000_000_000);
}

#[test]
fn write_log_request_names_the_log() {
    let entry = builder().entry(Payload::Text("x".to_string()));
    let log = Log {
        project_id: "proj",
        log_name: "app",
        resource: Some(MonitoredResource {
            resource_type: "gce_instance".to_string(),
            labels: labels(&[("zone", "z")]),
        }),
        labels: labels(&[("a", "b")]),
        entries: vec![entry],
    };
    assert_eq!(
        write_log_request(log),
        WriteLogEntries {
            log_name: "projects/proj/logs/app".to_string(),
            resource: Some(MonitoredResource {
                resource_type: "gce_instance".to_string(),
                labels: labels(&[("zone", "z")]),
            }),
            labels: labels(&[("a", "b")]),
            entries: vec![builder().entry(Payload::Text("x".to_string()))],
            partial_success: true,
            dry_run: false,
        }
    );
}

#[test]
fn reinterpret_keeps_the_bits() {
    assert_eq!(reinterpret_u64(0), 0);
    assert_eq!(reinterpret_u64(12), 12);
    assert_eq!(reinterpret_u64(i64::MAX as u64), i64::MAX);
    assert_eq!(reinterpret_u64(i64::MAX as u64 + 1), i64::MIN);
    assert_eq!(reinterpret_u64(u64::MAX), -1);
    assert_eq!(reinterpret_u64(u64::MAX - 41), (u64::MAX - 41) as i64);
}

#[test]
fn header_text() {
    assert_eq!(HeaderText::Missing.into_text(), "");
    assert_eq!(HeaderText::Unreadable.into_text(), "");
    assert_eq!(HeaderText::Text("curl/8".to_string()).into_text(), "curl/8");
}

#[test]
fn request_from_head() {
    let head = RequestHead {
        method: "POST".to_string(),
        uri: "/submit?x=1".to_string(),
        body_size_hint: 77,
        user_agent: HeaderText::Text("curl/8".to_string()),
        referer: HeaderText::Missing,
        version: "HTTP/2.0".to_string(),
    };
    assert_eq!(
        HttpRequest::from(head),
        HttpRequest {
            request_method: "POST".to_string(),
            request_url: "/submit?x=1".to_string(),
            request_size: 77,
            user_agent: "curl/8".to_string(),
            remote_ip: None,
            referer: String::new(),
            latency: None,
            protocol: "HTTP/2.0".to_string(),
        }
    );
}

#[test]
fn request_from_head_with_unreadable_header() {
    let head = RequestHead {
        method: "GET".to_string(),
        uri: "/".to_string(),
        body_size_hint: u64::MAX,
        user_agent: HeaderText::Unreadable,
        referer: HeaderText::Text("http://a/".to_string()),
        version: "HTTP/1.1".to_string(),
    };
    let request: HttpRequest = head.into();
    assert_eq!(request.user_agent, "");
    assert_eq!(request.referer, "http://a/");
    assert_eq!(request.request_size, -1);
}

#[test]
fn with_latency_and_ip() {
    let r = request().with_latency(Duration::from_millis(1500));
    assert_eq!(r.latency, Some(Duration::new(1, 500_000_000)));
    assert_eq!(r.remote_ip, None);
    let r = r.with_ip("192.168.1.1".to_string());
    assert_eq!(
        r,
        HttpRequest {
            remote_ip: Some("192.168.1.1".to_string()),
            latency: Some(Duration::new(1, 500_000_000)),
            ..request()
        }
    );
    let r = r.with_ip("FE80::0202:B3FF:FE1E:8329".to_string()).with_latency(Duration::ZERO);
    assert_eq!(r.remote_ip, Some("FE80::0202:B3FF:FE1E:8329".to_string()));
    assert_eq!(r.latency, Some(Duration::ZERO));
}

#[test]
fn into_wire_fills_in_the_rest() {
    assert_eq!(request().into_wire(), wire("", None));
    assert_eq!(
        request().with_ip("10.0.0.1".to_string()).with_latency(Duration::from_secs(2)).into_wire(),
        wire("10.0.0.1", Some(Duration::from_secs(2)))
    );
}

#[test]
fn new_context_is_empty() {
    assert_eq!(LogContext::new(), LogContext::default());
    let entry = builder().context(LogContext::new()).entry(Payload::Text(String::new()));
    assert_eq!(entry.labels, Labels::new());
    assert_eq!(entry.http_request, None);
    assert_eq!(entry.operation, None);
}

#[test]
fn context_label_sets_and_replaces() {
    let context = LogContext::new()
        .label("user".to_string(), "ann".to_string())
        .label("shard".to_string(), "7".to_string())
        .label("user".to_string(), "bob".to_string());
    let entry = builder().context(context).entry(Payload::Text(String::new()));
    assert_eq!(entry.labels, labels(&[("user", "bob"), ("shard", "7")]));
    assert_eq!(entry.labels.len(), 2);
}

#[test]
fn context_request_is_written_for_the_wire() {
    let context = LogContext::new().request(request().with_ip("1.2.3.4".to_string()));
    let entry = builder().context(context).entry(Payload::Text(String::new()));
    assert_eq!(entry.http_request, Some(wire("1.2.3.4", None)));
}

#[test]
fn context_with_lays_the_other_over() {
    let base = LogContext::new()
        .label("a".to_string(), "1".to_string())
        .label("b".to_string(), "2".to_string())
        .request(request());
    let over = LogContext::new()
        .label("b".to_string(), "3".to_string())
        .label("c".to_string(), "4".to_string());
    let both = base.clone().with(over.clone());
    assert_eq!(
        both,
        LogContext::new()
            .label("a".to_string(), "1".to_string())
            .label("b".to_string(), "3".to_string())
            .label("c".to_string(), "4".to_string())
            .request(request())
    );
    let other = over.with(base.with(LogContext::new().request(request().with_ip("::1".to_string()))));
    let entry = builder().context(other).entry(Payload::Text(String::new()));
    assert_eq!(entry.labels, labels(&[("b", "2"), ("c", "4"), ("a", "1")]));
    assert_eq!(entry.http_request, Some(wire("::1", None)));
}

#[test]
fn context_with_empty_changes_nothing() {
    let base = LogContext::new().label("a".to_string(), "1".to_string()).request(request());
    assert_eq!(base.clone().with(LogContext::new()), base);
    assert_eq!(LogContext::new().with(base.clone()), base);
}

#[test]
fn builder_makes_the_entry() {
    let entry = builder()
        .label("k".to_string(), "v".to_string())
        .request(request())
        .label("k2".to_string(), "v2".to_string())
        .entry(Payload::Text("hello".to_string()));
    assert_eq!(
        entry,
        LogEntry {
            timestamp: time(),
            severity: LogSeverity::Warning,
            labels: labels(&[("k", "v"), ("k2", "v2")]),
            source_code_entry: LogEntrySourceLocation {
                file: "src/main.rs".to_string(),
                line: 42,
                function: "app::run".to_string(),
            },
            payload: Payload::Text("hello".to_string()),
            operation: None,
            http_request: Some(wire("", None)),
        }
    );
    let none: Option<LogEntryOperation> = None;
    assert_eq!(entry.operation, none);
}

#[test]
fn builder_context_replaces_what_was_there() {
    let entry = builder()
        .label("old".to_string(), "x".to_string())
        .request(request())
        .context(LogContext::new().label("new".to_string(), "y".to_string()))
        .entry(Payload::Text(String::new()));
    assert_eq!(entry.labels, labels(&[("new", "y")]));
    assert_eq!(entry.http_request, None);
}

#[test]
fn builder_new_reads_the_clock() {
    let entry = LogBuilder::new(LogSeverity::Info, 7, "a.rs", "f")
        .unwrap()
        .entry(Payload::Text("t".to_string()));
    assert!(entry.timestamp.seconds() > 1_600_000_000);
    assert_eq!(entry.severity, LogSeverity::Info);
    assert_eq!(
        entry.source_code_entry,
        LogEntrySourceLocation { file: "a.rs".to_string(), line: 7, function: "f".to_string() }
    );
    assert_eq!(entry.labels, Labels::new());
}

#[test]
fn console_line_of_a_plain_entry() {
    assert_eq!(
        builder().console_line("2020-09-13T12:26:40.000+00:00", "hello"),
        "src/main.rs:42                | app::run\n[2020-09-13T12:26:40.000+00:00] -> hello\n"
    );
}

#[test]
fn console_line_with_labels_and_lines() {
    let line = builder()
        .label("user".to_string(), "ann".to_string())
        .label("shard".to_string(), "7".to_string())
        .console_line("T", "first\nsecond\n\nlast");
    assert_eq!(
        line,
        "src/main.rs:42                | app::run\n[T][user = ann] [shard = 7] -> first\n>   second\n>   \n>   last\n"
    );
}

#[test]
fn console_line_does_not_cut_a_long_place() {
    let long = LogBuilder::at(
        time(),
        LogSeverity::Debug,
        -1234567,
        "src/a/very/long/path/to/a/file.rs",
        "f",
    );
    assert_eq!(long.console_line("", ""), "src/a/very/long/path/to/a/file.rs:-1234567 | f\n[] -> \n");
    let exact =
        LogBuilder::at(time(), LogSeverity::Debug, i64::MIN, "123456789", "f");
    assert_eq!(exact.console_line("", ""), "123456789:-9223372036854775808 | f\n[] -> \n");
    let short = LogBuilder::at(time(), LogSeverity::Debug, 0, "é", "f");
    assert_eq!(short.console_line("", ""), format!("é:0{} | f\n[] -> \n", " ".repeat(26)));
    let full = LogBuilder::at(time(), LogSeverity::Debug, i64::MAX, "src/lib.r", "f");
    assert_eq!(full.console_line("", ""), "src/lib.r:9223372036854775807 | f\n[] -> \n");
}

#[test]
fn labels_are_shown_in_brackets() {
    assert_eq!(render_labels(&Labels::new()), "");
    assert_eq!(render_labels(&labels(&[("a", "1")])), "[a = 1]");
    assert_eq!(render_labels(&labels(&[("a", "1"), ("b", ""), ("", "3")])), "[a = 1] [b = ] [ = 3]");
}

#[test]
fn logger_is_switched_on_by_the_word_true() {
    assert!(initialize_logger("p", "l", Some("true")).is_enabled());
    assert!(!initialize_logger("p", "l", Some("TRUE")).is_enabled());
    assert!(!initialize_logger("p", "l", Some("1")).is_enabled());
    assert!(!initialize_logger("p", "l", Some("")).is_enabled());
    assert!(!initialize_logger("p", "l", None).is_enabled());
    assert_eq!(initialize_logger("p", "l", Some("true")).pending(), 0);
}

#[test]
fn describe_current_resource_labels_instance_project_zone() {
    assert_eq!(
        describe_current_resource(
            "gce_instance".to_string(),
            "i-1".to_string(),
            "proj".to_string(),
            "europe-west1-b".to_string()
        ),
        MonitoredResource {
            resource_type: "gce_instance".to_string(),
            labels: labels(&[
                ("instance_id", "i-1"),
                ("project_id", "proj"),
                ("zone", "europe-west1-b")
            ]),
        }
    );
}

#[test]
fn resource_is_recorded_once() {
    let mut logger = initialize_logger("p", "l", Some("true"));
    let first = MonitoredResource { resource_type: "a".to_string(), labels: Labels::new() };
    let second = MonitoredResource { resource_type: "b".to_string(), labels: Labels::new() };
    assert_eq!(logger.set_resource(first.clone()), Ok(()));
    assert_eq!(logger.set_resource(second.clone()), Err(second));
    assert_eq!(logger.flush().resource, Some(first));
}

#[test]
fn enabled_logger_queues_and_flushes_in_order() {
    let mut logger = initialize_logger("proj", "app", Some("true"));
    assert_eq!(builder().send_text("one".to_string(), &mut logger), Emission::Queued);
    assert_eq!(
        builder().label("k".to_string(), "v".to_string()).send_text("two".to_string(), &mut logger),
        Emission::Queued
    );
    assert_eq!(logger.pending(), 2);
    let log = logger.flush();
    assert_eq!(logger.pending(), 0);
    assert_eq!(
        log,
        Log {
            project_id: "proj",
            log_name: "app",
            resource: None,
            labels: Labels::new(),
            entries: vec![
                builder().entry(Payload::Text("one".to_string())),
                builder()
                    .label("k".to_string(), "v".to_string())
                    .entry(Payload::Text("two".to_string())),
            ],
        }
    );
    assert_eq!(logger.flush().entries, vec![]);
}

#[test]
fn logger_push_appends() {
    let mut logger = initialize_logger("proj", "app", None);
    logger.push(builder().entry(Payload::Text("a".to_string())));
    logger.push(builder().entry(Payload::Text("b".to_string())));
    assert_eq!(logger.pending(), 2);
    let log = logger.flush();
    assert_eq!(log.entries[0].payload, Payload::Text("a".to_string()));
    assert_eq!(log.entries[1].payload, Payload::Text("b".to_string()));
}

#[test]
fn disabled_logger_hands_out_the_console_line() {
    let mut logger = initialize_logger("proj", "app", None);
    let line = match builder().send_text("hi\nthere".to_string(), &mut logger) {
        Emission::Console(line) => line,
        other => panic!("unexpected {:?}", other),
    };
    assert_eq!(logger.pending(), 0);
    let head = "src/main.rs:42                | app::run\n[";
    let tail = "] -> hi\n>   there\n";
    assert!(line.starts_with(head));
    assert!(line.ends_with(tail));
    let time = &line[head.len()..line.len() - tail.len()];
    assert_eq!(time.len(), "2020-09-13T12:26:40.000+00:00".len());
    assert!(time.ends_with("+00:00"));
    assert_eq!(builder().console_line(time, "hi\nthere"), line);
}

#[test]
fn json_object_is_a_json_payload() {
    let mut map = serde_json::Map::new();
    map.insert("a".to_string(), serde_json::Value::Bool(true));
    assert_eq!(
        Payload::from_json(serde_json::Value::Object(map.clone())),
        Payload::Json(map.clone())
    );
    let mut logger = initialize_logger("proj", "app", Some("true"));
    assert_eq!(
        builder().send_json(serde_json::Value::Object(map.clone()), &mut logger),
        Emission::Queued
    );
    assert_eq!(logger.flush().entries, vec![builder().entry(Payload::Json(map))]);
}

#[test]
fn other_json_is_a_text_payload() {
    assert_eq!(
        Payload::from_json(serde_json::Value::String("x\"y".to_string())),
        Payload::Text("\"x\\\"y\"".to_string())
    );
    assert_eq!(Payload::from_json(serde_json::Value::Null), Payload::Text("null".to_string()));
    assert_eq!(
        Payload::from_json(serde_json::Value::Array(vec![
            serde_json::Value::Bool(false),
            serde_json::Value::from(3)
        ])),
        Payload::Text("[false,3]".to_string())
    );
}

#[test]
fn json_payload_on_the_console() {
    assert_eq!(Payload::Text("as is".to_string()).into_text(), "as is");
    let mut map = serde_json::Map::new();
    map.insert("a".to_string(), serde_json::Value::from(1));
    assert_eq!(Payload::Json(map.clone()).into_text(), format!("{:?}", map));
    let mut logger = initialize_logger("proj", "app", Some("false"));
    let line = match builder().send_json(serde_json::Value::Object(map.clone()), &mut logger) {
        Emission::Console(line) => line,
        other => panic!("unexpected {:?}", other),
    };
    assert!(line.ends_with(&format!("] -> {:?}\n", map)));
    assert_eq!(logger.pending(), 0);
}

#[test]
fn payload_from_object_or_text() {
    let mut map = serde_json::Map::new();
    map.insert("k".to_string(), serde_json::Value::Null);
    assert_eq!(Payload::from_object_or_text(Ok(map.clone())), Payload::Json(map));
    assert_eq!(
        Payload::from_object_or_text(Ok(serde_json::Map::new())),
        Payload::Json(serde_json::Map::new())
    );
    assert_eq!(
        Payload::from_object_or_text(Err("[1,2]".to_string())),
        Payload::Text("[1,2]".to_string())
    );
    assert_eq!(Payload::from_object_or_text(Err(String::new())), Payload::Text(String::new()));
}

#[test]
fn send_json_of_a_number_or_a_string_queues_its_text() {
    let mut logger = initialize_logger("proj", "app", Some("true"));
    assert_eq!(builder().send_json(serde_json::Value::from(5), &mut logger), Emission::Queued);
    assert_eq!(
        builder().send_json(serde_json::Value::String("a".to_string()), &mut logger),
        Emission::Queued
    );
    let log = logger.flush();
    assert_eq!(log.entries.len(), 2);
    assert_eq!(log.entries[0].payload, Payload::Text("5".to_string()));
    assert_eq!(log.entries[1].payload, Payload::Text("\"a\"".to_string()));
}

#[test]
fn send_json_of_a_string_on_the_console() {
    let mut logger = initialize_logger("proj", "app", None);
    match builder().send_json(serde_json::Value::String("a".to_string()), &mut logger) {
        Emission::Console(line) => assert!(line.ends_with("] -> \"a\"\n")),
        other => panic!("unexpected {:?}", other),
    }
}

#[test]
fn console_time_has_milliseconds_and_an_offset() {
    let mut logger = initialize_logger("proj", "app", None);
    let line = match builder().send_text(String::new(), &mut logger) {
        Emission::Console(line) => line,
        other => panic!("unexpected {:?}", other),
    };
    let time = line.split('[').nth(1).unwrap().split(']').next().unwrap();
    let bytes = time.as_bytes();
    assert_eq!(bytes.len(), 29);
    assert_eq!(bytes[4], b'-');
    assert_eq!(bytes[10], b'T');
    assert_eq!(bytes[19], b'.');
    assert_eq!(&time[23..], "+00:00");
    assert!(&time[..4] >= "2020");
}
