use opencode_sdk::sse::{
    extract_session_id_for_routing, extract_session_id_from_raw_event, should_forward_event,
};
use opencode_sdk::{Duration, Event, SseOptions};

#[test]
fn test_sse_options_defaults() {
    let opts = SseOptions::default();
    assert_eq!(opts.capacity, 256);
    assert_eq!(opts.initial_interval, Duration::from_millis(250));
    assert_eq!(opts.max_interval, Duration::from_secs(30));
}

#[test]
fn test_extract_session_id_from_raw_event_accepts_session_id_variants() {
    let message_part_with_pascal =
        r#"{"type":"message.part.updated","properties":{"part":{"sessionID":"sess-a"}}}"#;
    assert_eq!(
        extract_session_id_from_raw_event(message_part_with_pascal),
        Some("sess-a".to_string())
    );

    let message_part_with_camel =
        r#"{"type":"message.part.updated","properties":{"part":{"sessionId":"sess-b"}}}"#;
    assert_eq!(
        extract_session_id_from_raw_event(message_part_with_camel),
        Some("sess-b".to_string())
    );

    let session_idle_with_camel = r#"{"type":"session.idle","properties":{"sessionId":"sess-c"}}"#;
    assert_eq!(
        extract_session_id_from_raw_event(session_idle_with_camel),
        Some("sess-c".to_string())
    );
}

#[test]
fn test_should_forward_event_drops_events_without_session_id_when_filtered() {
    let unknown_json = r#"{"type":"server.connected","properties":{}}"#;
    let event: Event = Event::parse(unknown_json).unwrap();

    assert!(should_forward_event(None, unknown_json, &event));
    assert!(!should_forward_event(Some("sess-123"), unknown_json, &event));
}

#[test]
fn test_should_forward_event_for_message_part_uses_raw_js_parity_fields() {
    let json =
        r#"{"type":"message.part.updated","properties":{"sessionId":"sess-top","delta":"hi"}}"#;
    let event: Event = Event::parse(json).unwrap();

    assert!(!should_forward_event(Some("sess-top"), json, &event));
}

#[test]
fn test_extract_session_id_for_routing_prefers_raw_parity_fields() {
    let json = r#"{"type":"message.part.updated","properties":{"part":{"type":"text","text":"","sessionID":"sess-nested"},"sessionId":"sess-top"}}"#;
    let event: Event = Event::parse(json).unwrap();

    assert_eq!(
        extract_session_id_for_routing(json, &event),
        Some("sess-nested".to_string())
    );
}

#[test]
fn test_extract_session_id_for_routing_falls_back_to_typed_fields() {
    let json = r#"{"type":"message.updated","properties":{"info":{"id":"m1","sessionId":"sess-typed","role":"assistant","time":{"created":1}}}}"#;
    let event: Event = Event::parse(json).unwrap();

    assert_eq!(
        extract_session_id_for_routing(json, &event),
        Some("sess-typed".to_string())
    );
}

#[test]
fn test_concurrent_session_filtering_no_delta_cross_contamination() {
    let raw_events = [
        r#"{"type":"message.part.updated","properties":{"part":{"type":"text","text":"","sessionID":"sess-a"},"delta":"alpha"}}"#,
        r#"{"type":"message.part.updated","properties":{"part":{"type":"text","text":"","sessionID":"sess-b"},"delta":"bravo"}}"#,
        r#"{"type":"server.heartbeat","properties":{}}"#,
        r#"{"type":"message.part.updated","properties":{"part":{"type":"text","text":"","sessionID":"sess-a"},"delta":"-2"}}"#,
        r#"{"type":"message.part.updated","properties":{"part":{"type":"text","text":"","sessionID":"sess-b"},"delta":"-2"}}"#,
    ];

    let mut a = String::new();
    let mut b = String::new();

    for raw in raw_events {
        let ev: Event = Event::parse(raw).unwrap();

        if should_forward_event(Some("sess-a"), raw, &ev) {
            if let Event::MessagePartUpdated { properties } = &ev {
                if let Some(delta) = &properties.delta {
                    a.push_str(delta);
                }
            }
        }

        if should_forward_event(Some("sess-b"), raw, &ev) {
            if let Event::MessagePartUpdated { properties } = &ev {
                if let Some(delta) = &properties.delta {
                    b.push_str(delta);
                }
            }
        }
    }

    assert_eq!(a, "alpha-2");
    assert_eq!(b, "bravo-2");
}
