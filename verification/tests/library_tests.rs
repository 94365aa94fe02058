use opencode_sdk::client::{idle_timeout_error, option_debug_text, remaining_wait};
use opencode_sdk::http::questions::{list_path, reject_path, reply_path};
use opencode_sdk::json::{parse_json, JsonValue};
use opencode_sdk::runtime::{
    is_session_api_ready, readiness_attempts, session_endpoint, READINESS_POLL_MS,
};
use opencode_sdk::text::{debug_quoted, is_whitespace, str_eq, trim, trim_end_char, trim_start};
use opencode_sdk::types::event::{Event, Part};
use opencode_sdk::{
    ClientBuilder, Duration, HttpClient, IdleStep, IdleTextCollector, ManagedRuntimeBuilder,
    OpencodeError, QuestionsApi, ServerOptions,
};

#[test]
fn duration_from_millis_splits_seconds() {
    let d = Duration::from_millis(1500);
    assert_eq!(d.as_secs(), 1);
    assert_eq!(d.subsec_nanos(), 500_000_000);
    assert_eq!(d.as_millis_saturating(), 1500);
}

#[test]
fn duration_new_carries_nanoseconds() {
    assert_eq!(Duration::new(1, 1_500_000_000), Duration::from_millis(2500));
    assert_eq!(Duration::from_millis(3000), Duration::from_secs(3));
}

#[test]
fn duration_millis_saturate() {
    assert_eq!(Duration::from_secs(u64::MAX).as_millis_saturating(), u64::MAX);
    assert_eq!(Duration::from_secs(7).as_millis_saturating(), 7000);
}

#[test]
fn text_trimming() {
    assert_eq!(trim_start("  \t[1]"), "[1]");
    assert_eq!(trim(" \n hello world \u{3000}"), "hello world");
    assert_eq!(trim("   "), "");
    assert_eq!(trim_end_char("http://a///", '/'), "http://a");
    assert_eq!(trim_end_char("///", '/'), "");
    assert_eq!(trim_end_char(trim_end_char("x//", '/'), '/'), "x");
    assert!(is_whitespace('\u{2028}'));
    assert!(!is_whitespace('a'));
    assert!(str_eq("abc", "abc"));
    assert!(!str_eq("abc", "abd"));
    assert!(!str_eq("abc", "ab"));
}

#[test]
fn json_lookup_follows_members() {
    let v = parse_json(r#"{"a":{"b":"c"},"n":12,"t":true}"#).unwrap();
    let inner = v.get("a").unwrap();
    assert_eq!(inner.get("b").unwrap().as_str(), Some("c"));
    assert!(v.get("missing").is_none());
    assert!(v.get("n").unwrap().as_str().is_none());
    assert!(matches!(v.get("n"), Some(JsonValue::Number(n)) if n == "12"));
    assert!(matches!(v.get("t"), Some(JsonValue::Bool(true))));
    assert!(parse_json("not-json").is_none());
}

#[test]
fn event_decoding_variants() {
    let removed = Event::parse(
        r#"{"type":"message.removed","properties":{"sessionId":"sess-a","messageId":"msg-1"}}"#,
    )
    .unwrap();
    assert!(
        matches!(&removed, Event::MessageRemoved { session_id, message_id } if session_id == "sess-a" && message_id == "msg-1")
    );
    assert_eq!(removed.session_id(), Some("sess-a"));

    let idle = Event::parse(r#"{"type":"session.idle","properties":{"sessionID":"s1"}}"#).unwrap();
    assert_eq!(idle.session_id(), Some("s1"));

    let status = Event::parse(
        r#"{"type":"session.status","properties":{"sessionID":"s1","status":{"type":"idle"}}}"#,
    )
    .unwrap();
    assert!(
        matches!(&status, Event::SessionStatus { properties } if properties.status_type.as_deref() == Some("idle"))
    );

    let other = Event::parse(r#"{"type":"file.changed","properties":{"path":"a"}}"#).unwrap();
    assert!(matches!(&other, Event::Other { event_type, .. } if event_type == "file.changed"));
    assert_eq!(other.session_id(), None);

    let diff = Event::parse(r#"{"type":"session.diff","properties":{"sessionID":"s9"}}"#).unwrap();
    assert!(matches!(&diff, Event::Other { event_type, .. } if event_type == "session.diff"));
    assert_eq!(diff.session_id(), Some("s9"));

    let part = Event::parse(
        r#"{"type":"message.part.updated","properties":{"part":{"type":"tool","sessionID":"s2"},"delta":"x"}}"#,
    )
    .unwrap();
    assert!(matches!(&part, Event::MessagePartUpdated { properties }
        if matches!(&properties.part, Some(Part::Other { part_type }) if part_type == "tool")
            && properties.session_id.as_deref() == Some("s2")));
}

#[test]
fn event_decoding_rejects_malformed_frames() {
    assert!(Event::parse("not-json").is_none());
    assert!(Event::parse(r#"{"type":"server.connected"}"#).is_none());
    assert!(Event::parse(r#"{"type":5,"properties":{}}"#).is_none());
    assert!(Event::parse(r#"{"type":"session.idle","properties":{}}"#).is_none());
    assert!(Event::parse(r#"{"type":"message.part.updated","properties":{"delta":3}}"#).is_none());
    assert!(Event::parse(r#"{"type":"server.connected","properties":[]}"#).is_none());
}

#[test]
fn http_config_strips_trailing_slashes() {
    let cfg = ClientBuilder::new().base_url("http://localhost:8080//").http_config();
    assert_eq!(cfg.base_url, "http://localhost:8080");
    assert_eq!(cfg.timeout, Duration::from_secs(300));
    assert!(cfg.directory.is_none());
}

#[test]
fn http_client_keeps_its_settings() {
    let cfg = ClientBuilder::new()
        .base_url("http://127.0.0.1:1/")
        .directory("/work")
        .timeout_secs(30)
        .http_config();
    let http = HttpClient::new(cfg).unwrap();
    assert_eq!(http.base(), "http://127.0.0.1:1");
    assert_eq!(http.directory(), Some("/work"));
    assert_eq!(http.timeout(), Duration::from_secs(30));
    let api = QuestionsApi::new(http);
    assert_eq!(api.http().base(), "http://127.0.0.1:1");
}

#[test]
fn question_paths() {
    assert_eq!(list_path(), "/question");
    assert_eq!(reply_path("q-1"), "/question/q-1/reply");
    assert_eq!(reject_path("q-2"), "/question/q-2/reject");
}

#[test]
fn error_not_found() {
    let e = OpencodeError::Http { status: 404, body: "{}".to_string() };
    assert!(e.is_not_found());
    let e = OpencodeError::Http { status: 500, body: String::new() };
    assert!(!e.is_not_found());
    assert!(!OpencodeError::StreamClosed.is_not_found());
}

fn parse(raw: &str) -> Event {
    Event::parse(raw).unwrap()
}

#[test]
fn idle_collector_concatenates_text_deltas() {
    let mut c = IdleTextCollector::new();
    let evs = [
        r#"{"type":"message.part.updated","properties":{"part":{"type":"text","text":""},"delta":"  Hello"}}"#,
        r#"{"type":"message.part.updated","properties":{"part":{"type":"tool"},"delta":"ignored"}}"#,
        r#"{"type":"server.heartbeat","properties":{}}"#,
        r#"{"type":"message.part.updated","properties":{"delta":"no part"}}"#,
        r#"{"type":"message.part.updated","properties":{"part":{"type":"text","text":""},"delta":", world  "}}"#,
        r#"{"type":"session.status","properties":{"status":{"type":"busy"}}}"#,
    ];
    for raw in evs {
        assert!(matches!(c.on_event(&parse(raw)), IdleStep::Continue));
    }
    let idle = parse(r#"{"type":"session.status","properties":{"status":{"type":"idle"}}}"#);
    assert!(matches!(c.on_event(&idle), IdleStep::Idle));
    assert_eq!(c.finish(), "Hello, world");
}

#[test]
fn idle_collector_stops_on_idle_and_error() {
    let mut c = IdleTextCollector::new();
    let idle = parse(r#"{"type":"session.idle","properties":{"sessionID":"s"}}"#);
    assert!(matches!(c.on_event(&idle), IdleStep::Idle));
    assert_eq!(c.finish(), "");

    let mut c = IdleTextCollector::new();
    let err = parse(r#"{"type":"session.error","properties":{"sessionID":"s","error":{"name":"APIError"}}}"#);
    match c.on_event(&err) {
        IdleStep::Failed(OpencodeError::State(m)) => {
            assert_eq!(m, "session.error: Some(\"APIError\")")
        }
        other => panic!("unexpected step {:?}", other),
    }
    let err = parse(r#"{"type":"session.error","properties":{}}"#);
    match IdleTextCollector::new().on_event(&err) {
        IdleStep::Failed(OpencodeError::State(m)) => assert_eq!(m, "session.error: None"),
        other => panic!("unexpected step {:?}", other),
    }
}

#[test]
fn idle_collector_fails_when_stream_closes() {
    let mut c = IdleTextCollector::new();
    let ev = parse(r#"{"type":"message.part.updated","properties":{"part":{"type":"text","text":""},"delta":"x"}}"#);
    assert!(matches!(c.on_receive(Some(ev)), IdleStep::Continue));
    assert!(matches!(c.on_receive(None), IdleStep::Failed(OpencodeError::StreamClosed)));
    assert_eq!(c.finish(), "x");
}

#[test]
fn session_error_message_uses_debug_form() {
    assert_eq!(option_debug_text(&Some("a\"b".to_string())), "Some(\"a\\\"b\")");
    assert_eq!(option_debug_text(&None), "None");
    assert_eq!(debug_quoted("line\n"), format!("{:?}", "line\n"));
    let name = Some("Provider Error".to_string());
    assert_eq!(option_debug_text(&name), format!("{:?}", name));
}

#[test]
fn remaining_wait_counts_down_to_timeout() {
    let timeout = Duration::from_millis(1500);
    match remaining_wait(Duration::from_millis(400), timeout) {
        Ok(d) => assert_eq!(d, Duration::from_millis(1100)),
        Err(e) => panic!("unexpected error {:?}", e),
    }
    match remaining_wait(Duration::from_millis(1500), timeout) {
        Err(OpencodeError::ServerTimeout { timeout_ms }) => assert_eq!(timeout_ms, 1500),
        other => panic!("unexpected result {:?}", other),
    }
    assert_eq!(Duration::new(2, 100).saturating_sub(Duration::new(1, 200)), Duration::new(0, 999_999_900));
    assert_eq!(Duration::from_secs(1).saturating_sub(Duration::from_secs(2)), Duration::from_secs(0));
    assert!(Duration::from_secs(1).is_at_least(&Duration::from_millis(1000)));
    assert!(!Duration::from_millis(999).is_at_least(&Duration::from_secs(1)));
}

#[test]
fn idle_timeout_reports_milliseconds() {
    match idle_timeout_error(Duration::from_millis(1234)) {
        OpencodeError::ServerTimeout { timeout_ms } => assert_eq!(timeout_ms, 1234),
        other => panic!("unexpected error {:?}", other),
    }
}

#[test]
fn readiness_polling() {
    assert_eq!(READINESS_POLL_MS, 250);
    assert_eq!(readiness_attempts(10_000), 40);
    assert_eq!(readiness_attempts(100), 1);
    assert_eq!(readiness_attempts(0), 1);
    assert_eq!(session_endpoint("http://127.0.0.1:4096/"), "http://127.0.0.1:4096/session");
    assert_eq!(session_endpoint("http://h"), "http://h/session");
    assert!(is_session_api_ready("  [ ]"));
    assert!(is_session_api_ready("\n{\"a\":1}"));
    assert!(!is_session_api_ready("   "));
    assert!(!is_session_api_ready("<html>"));
    assert!(!is_session_api_ready(""));
}

#[test]
fn runtime_builder_setters() {
    let b = ManagedRuntimeBuilder::new()
        .hostname("0.0.0.0")
        .port(8080)
        .startup_timeout(Duration::from_secs(2))
        .config_json("{}")
        .binary("/usr/bin/opencode")
        .request_directory("/req");
    assert_eq!(b.server_options.hostname, "0.0.0.0");
    assert_eq!(b.server_options.port, Some(8080));
    assert_eq!(b.server_options.startup_timeout_ms, 2000);
    assert_eq!(b.server_options.config_json.as_deref(), Some("{}"));
    assert_eq!(b.server_options.binary, "/usr/bin/opencode");
    assert_eq!(b.request_directory.as_deref(), Some("/req"));
    assert!(b.server_options.directory.is_none());
    let b = b.startup_timeout_ms(5);
    assert_eq!(b.server_options.startup_timeout_ms, 5);
}

#[test]
fn runtime_launch_resolution() {
    let (opts, dir) = ManagedRuntimeBuilder::new()
        .request_directory("/req")
        .resolve_launch(None)
        .unwrap();
    assert_eq!(dir, "/req");
    assert!(opts.directory.is_none());

    let (opts, dir) = ManagedRuntimeBuilder::new()
        .resolve_launch(Some("/cwd".to_string()))
        .unwrap();
    assert_eq!(dir, "/cwd");
    assert_eq!(opts.directory.as_deref(), Some("/cwd"));

    let mut b = ManagedRuntimeBuilder::new();
    b.server_options = b.server_options.directory("/srv");
    let (opts, dir) = b.resolve_launch(Some("/cwd".to_string())).unwrap();
    assert_eq!(dir, "/cwd");
    assert_eq!(opts.directory.as_deref(), Some("/srv"));

    assert!(ManagedRuntimeBuilder::new().resolve_launch(None).is_none());
}

#[test]
fn server_options_defaults() {
    let o = ServerOptions::new();
    assert_eq!(o.hostname, "127.0.0.1");
    assert!(o.port.is_none());
    assert_eq!(o.startup_timeout_ms, 5000);
    assert_eq!(o.binary, "opencode");
}
