use opencode_sdk::sse::{
    channel_action, event_endpoint, extract_session_id_for_routing, frame_event_id,
    global_event_endpoint, should_forward_event, on_raw_frame, on_session_recv,
    on_typed_frame, route_upstream_frame, ChannelAction, ForwardStep, RawStep, Routed, SessionRecv,
    StreamFrame, TypedStep,
};
use opencode_sdk::{Event, RawSseEvent, SessionEventRouterOptions, SseStreamStats};

fn msg(id: &str, data: &str) -> StreamFrame {
    StreamFrame::Message(RawSseEvent {
        id: id.to_string(),
        event: "message".to_string(),
        data: data.to_string(),
    })
}

fn accounted(s: &SseStreamStats) -> bool {
    s.events_in == s.events_out + s.dropped && s.parse_errors <= s.dropped
}

#[test]
fn typed_frames_count_parse_errors_and_drops() {
    let mut stats = SseStreamStats::default();
    let frames = [
        msg("1", r#"{"type":"server.connected","properties":{}}"#),
        msg("2", "not-json"),
        msg("3", r#"{"type":"server.heartbeat","properties":{}}"#),
    ];
    let mut delivered = Vec::new();
    for f in frames {
        match on_typed_frame(&mut stats, None, f) {
            TypedStep::Deliver(ev) => {
                assert!(stats.record_delivery(true));
                delivered.push(ev);
            }
            TypedStep::Skip => {}
            other => panic!("unexpected step {:?}", other),
        }
        assert!(accounted(&stats));
    }
    assert!(matches!(delivered[0], Event::ServerConnected { .. }));
    assert!(matches!(delivered[1], Event::ServerHeartbeat { .. }));
    assert_eq!(stats.events_in, 3);
    assert_eq!(stats.events_out, 2);
    assert_eq!(stats.dropped, 1);
    assert_eq!(stats.parse_errors, 1);
    assert_eq!(stats.last_event_id.as_deref(), Some("3"));
}

#[test]
fn typed_frames_filtered_by_session() {
    let mut stats = SseStreamStats::default();
    let a = msg("", r#"{"type":"session.idle","properties":{"sessionID":"sess-a"}}"#);
    let b = msg("", r#"{"type":"session.idle","properties":{"sessionID":"sess-b"}}"#);
    assert!(matches!(on_typed_frame(&mut stats, Some("sess-a"), a), TypedStep::Deliver(_)));
    assert!(matches!(on_typed_frame(&mut stats, Some("sess-a"), b), TypedStep::Skip));
    assert_eq!(stats.events_in, 2);
    assert_eq!(stats.dropped, 1);
    assert_eq!(stats.parse_errors, 0);
    assert_eq!(stats.last_event_id, None);
}

#[test]
fn typed_open_and_failure_frames() {
    let mut stats = SseStreamStats::default();
    assert!(matches!(on_typed_frame(&mut stats, None, StreamFrame::Open), TypedStep::ResetBackoff));
    assert!(matches!(on_typed_frame(&mut stats, None, StreamFrame::Failed), TypedStep::Reconnect));
    assert_eq!(stats, SseStreamStats::default());
    stats.record_reconnect();
    assert_eq!(stats.reconnects, 1);
}

#[test]
fn failed_delivery_ends_stream_and_drops() {
    let mut stats = SseStreamStats::default();
    let step = on_typed_frame(&mut stats, None, msg("7", r#"{"type":"server.connected","properties":{}}"#));
    assert!(matches!(step, TypedStep::Deliver(_)));
    assert!(!stats.record_delivery(false));
    assert_eq!(stats.dropped, 1);
    assert_eq!(stats.events_out, 0);
    assert!(accounted(&stats));
}

#[test]
fn raw_frames_are_delivered_and_counted() {
    let mut stats = SseStreamStats::default();
    for (id, data) in [("1", "server.connected"), ("2", "server.heartbeat")] {
        match on_raw_frame(&mut stats, msg(id, data)) {
            RawStep::Deliver(raw) => {
                assert_eq!(raw.id, id);
                assert_eq!(raw.event, "message");
                assert!(stats.record_delivery(true));
            }
            other => panic!("unexpected step {:?}", other),
        }
    }
    assert_eq!(stats.events_in, 2);
    assert_eq!(stats.events_out, 2);
    assert_eq!(stats.dropped, 0);
    assert_eq!(stats.parse_errors, 0);
    assert_eq!(stats.last_event_id.as_deref(), Some("2"));
    assert!(matches!(on_raw_frame(&mut stats, StreamFrame::Open), RawStep::ResetBackoff));
    assert!(matches!(on_raw_frame(&mut stats, StreamFrame::Failed), RawStep::Reconnect));
}

#[test]
fn frame_event_ids_to_resume_from() {
    assert_eq!(frame_event_id(&msg("4", "x")), Some("4".to_string()));
    assert_eq!(frame_event_id(&msg("", "x")), None);
    assert_eq!(frame_event_id(&StreamFrame::Open), None);
    assert_eq!(frame_event_id(&StreamFrame::Failed), None);
}

#[test]
fn other_events_route_by_their_session_id() {
    let raw = r#"{"type":"session.diff","properties":{"sessionID":"sess-d"}}"#;
    let ev = Event::parse(raw).unwrap();
    assert_eq!(extract_session_id_for_routing(raw, &ev), Some("sess-d".to_string()));
    assert!(should_forward_event(Some("sess-d"), raw, &ev));
    assert!(!should_forward_event(Some("sess-e"), raw, &ev));
}

#[test]
fn empty_event_id_keeps_last_one() {
    let mut stats = SseStreamStats::default();
    stats.set_last_event_id(Some("5".to_string()));
    let _ = on_raw_frame(&mut stats, msg("", "x"));
    assert_eq!(stats.last_event_id.as_deref(), Some("5"));
}

#[test]
fn session_subscription_steps() {
    let mut stats = SseStreamStats::default();
    let ev = Event::parse(r#"{"type":"server.heartbeat","properties":{}}"#).unwrap();
    assert!(matches!(on_session_recv(&mut stats, SessionRecv::Event(ev)), ForwardStep::Deliver(_)));
    assert!(stats.record_delivery(true));
    assert!(matches!(on_session_recv(&mut stats, SessionRecv::Lagged(5)), ForwardStep::Continue));
    assert!(matches!(on_session_recv(&mut stats, SessionRecv::Closed), ForwardStep::Stop));
    assert_eq!(stats.events_in, 1);
    assert_eq!(stats.events_out, 1);
    assert_eq!(stats.dropped, 5);
}

#[test]
fn router_routes_by_session() {
    let raw = RawSseEvent {
        id: "9".to_string(),
        event: "message".to_string(),
        data: r#"{"type":"message.removed","properties":{"sessionId":"sess-a","messageId":"msg-1"}}"#.to_string(),
    };
    match route_upstream_frame(&raw) {
        Routed::Session(sid, ev) => {
            assert_eq!(sid, "sess-a");
            assert!(matches!(ev, Event::MessageRemoved { .. }));
        }
        other => panic!("unexpected routing {:?}", other),
    }

    let unrouted = RawSseEvent {
        id: String::new(),
        event: "message".to_string(),
        data: r#"{"type":"server.heartbeat","properties":{}}"#.to_string(),
    };
    assert!(matches!(route_upstream_frame(&unrouted), Routed::Unrouted));
    let broken = RawSseEvent { id: String::new(), event: String::new(), data: "{".to_string() };
    assert!(matches!(route_upstream_frame(&broken), Routed::Unparsed));

    assert_eq!(channel_action(None), ChannelAction::Ignore);
    assert_eq!(channel_action(Some(0)), ChannelAction::Remove);
    assert_eq!(channel_action(Some(3)), ChannelAction::Send);
}

#[test]
fn endpoints_and_router_defaults() {
    assert_eq!(event_endpoint("http://h:1"), "http://h:1/event");
    assert_eq!(global_event_endpoint("http://h:1"), "http://h:1/global/event");
    let o = SessionEventRouterOptions::default();
    assert_eq!(o.session_capacity, 256);
    assert_eq!(o.subscriber_capacity, 256);
    assert_eq!(o.upstream.capacity, 256);
}
