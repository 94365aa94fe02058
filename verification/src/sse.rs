//! SSE stream logic: options, diagnostics counters, session routing of
//! events and the per-frame decisions of the streaming loops.

use vstd::prelude::*;
use crate::json::{JsonValue, json_text_value, parse_json, spec_deref, spec_named_session, spec_text_member};
use crate::text::str_eq;
use crate::types::event::{Event, lemma_event_tags_distinct, member_either, spec_member_either, spec_parse_event, spec_string_of};
use crate::duration::Duration;
use vstd::string::StringExecFns;
use vstd::wrapping::u64_specs::wrapping_add;

verus! {

/// The text view of an optional string.
pub open spec fn spec_opt_view(o: Option<String>) -> Option<Seq<char>> {
    match o {
        Some(s) => Some(s@),
        None => None,
    }
}

/// The text of the string held by `v`, if any.
pub open spec fn spec_str_view(v: Option<JsonValue>) -> Option<Seq<char>> {
    spec_opt_view(spec_string_of(v))
}

/// The session ID that a raw event document names in the fields the JS SDK
/// routes by: `properties.part.sessionID|sessionId` for
/// `message.part.updated`, `properties.sessionID|sessionId` for
/// `session.idle` and `session.error`, none for other types.
pub open spec fn spec_raw_session_id(v: JsonValue) -> Option<Seq<char>> {
    match (spec_str_view(v.spec_get("type"@)), v.spec_get("properties"@)) {
        (Some(t), Some(props)) => if t == "message.part.updated"@ {
            match props.spec_get("part"@) {
                Some(p) => spec_str_view(spec_member_either(p, "sessionID"@, "sessionId"@)),
                None => None,
            }
        } else if t == "session.idle"@ || t == "session.error"@ {
            spec_str_view(spec_member_either(props, "sessionID"@, "sessionId"@))
        } else {
            None
        },
        _ => None,
    }
}

/// The routing session ID of the raw text `raw`.
pub open spec fn spec_raw_text_session_id(raw: Seq<char>) -> Option<Seq<char>> {
    match json_text_value(raw) {
        Some(v) => spec_raw_session_id(v),
        None => None,
    }
}

/// Whether an event is routed by the raw JSON fields rather than its typed ones.
pub open spec fn spec_routed_by_raw(ev: Event) -> bool {
    ||| ev is MessagePartUpdated
    ||| ev is SessionIdle
    ||| ev is SessionError
}

/// The session an event belongs to for routing: the raw JSON fields for
/// part updates, idle and error events, the typed fields otherwise.
pub open spec fn spec_routing_session_id(raw: Seq<char>, ev: Event) -> Option<Seq<char>> {
    if spec_routed_by_raw(ev) {
        spec_raw_text_session_id(raw)
    } else {
        spec_opt_view(ev.spec_session_id())
    }
}

/// Whether a subscription with `filter` receives the event.
pub open spec fn spec_forwards(filter: Option<Seq<char>>, raw: Seq<char>, ev: Event) -> bool {
    match filter {
        None => true,
        Some(f) => spec_routing_session_id(raw, ev) == Some(f),
    }
}

/// The text view of an optional string slice.
pub open spec fn spec_opt_str_view(o: Option<&str>) -> Option<Seq<char>> {
    match o {
        Some(s) => Some(s@),
        None => None,
    }
}

fn str_member_view(v: Option<&JsonValue>) -> (r: Option<String>)
    ensures
        spec_opt_view(r) == spec_str_view(spec_deref(v)),
{
    match v {
        Some(JsonValue::Str(s)) => Some(s.clone()),
        _ => None,
    }
}

/// Reads the routing session ID from the raw JSON of an event, the way the
/// JS SDK routes token stream events.
pub fn extract_session_id_from_raw_event(raw: &str) -> (r: Option<String>)
    ensures
        spec_opt_view(r) == spec_raw_text_session_id(raw@),
{
    let value = match parse_json(raw) {
        Some(v) => v,
        None => return None,
    };
    let event_type = match str_member_view(value.get("type")) {
        Some(t) => t,
        None => return None,
    };
    let properties = match value.get("properties") {
        Some(p) => p,
        None => return None,
    };
    if str_eq(event_type.as_str(), "message.part.updated") {
        match properties.get("part") {
            Some(p) => str_member_view(member_either(p, "sessionID", "sessionId")),
            None => None,
        }
    } else if str_eq(event_type.as_str(), "session.idle") || str_eq(
        event_type.as_str(),
        "session.error",
    ) {
        str_member_view(member_either(properties, "sessionID", "sessionId"))
    } else {
        None
    }
}

/// The session an event belongs to for routing.
pub fn extract_session_id_for_routing(raw: &str, ev: &Event) -> (r: Option<String>)
    ensures
        spec_opt_view(r) == spec_routing_session_id(raw@, *ev),
{
    match ev {
        Event::MessagePartUpdated { .. } | Event::SessionIdle { .. } | Event::SessionError {
            ..
        } => {
            return extract_session_id_from_raw_event(raw);
        },
        _ => {},
    }
    match ev.session_id() {
        Some(s) => Some(s.to_string()),
        None => None,
    }
}

/// Whether a subscription filtered to `session_filter` receives the event;
/// an unfiltered subscription receives every event.
pub fn should_forward_event(session_filter: Option<&str>, raw: &str, ev: &Event) -> (r: bool)
    ensures
        r == spec_forwards(spec_opt_str_view(session_filter), raw@, *ev),
{
    match session_filter {
        None => true,
        Some(expected_session_id) => match extract_session_id_for_routing(raw, ev) {
            Some(actual_session_id) => str_eq(actual_session_id.as_str(), expected_session_id),
            None => false,
        },
    }
}

/// An unfiltered subscription receives every event.
pub proof fn lemma_unfiltered_forwards_all(raw: Seq<char>, ev: Event)
    ensures
        spec_forwards(None, raw, ev),
{
}

/// A filtered subscription receives exactly the events routed to its session.
pub proof fn lemma_filtered_forwards_own_session(session: Seq<char>, raw: Seq<char>, ev: Event)
    ensures
        spec_forwards(Some(session), raw, ev) <==> spec_routing_session_id(raw, ev) == Some(session),
{
}

/// No event reaches the subscriptions of two different sessions.
pub proof fn lemma_no_cross_session_delivery(a: Seq<char>, b: Seq<char>, raw: Seq<char>, ev: Event)
    requires
        spec_forwards(Some(a), raw, ev),
        spec_forwards(Some(b), raw, ev),
    ensures
        a == b,
{
}


/// Options for SSE subscription.
#[derive(Clone, Copy, Debug)]
pub struct SseOptions {
    /// Channel capacity (default: 256).
    pub capacity: usize,
    /// Initial backoff interval (default: 250ms).
    pub initial_interval: Duration,
    /// Max backoff interval (default: 30s).
    pub max_interval: Duration,
}

impl Default for SseOptions {
    fn default() -> (r: Self)
        ensures
            r.capacity == 256,
            r.initial_interval@ == 250 * 1_000_000,
            r.max_interval@ == 30 * 1_000_000_000,
    {
        SseOptions {
            capacity: 256,
            initial_interval: Duration::from_millis(250),
            max_interval: Duration::from_secs(30),
        }
    }
}

/// Options for a session event router.
#[derive(Clone, Copy, Debug)]
pub struct SessionEventRouterOptions {
    /// Upstream `/event` raw stream subscription options.
    pub upstream: SseOptions,
    /// Per-session fan-out channel capacity (default: 256).
    pub session_capacity: usize,
    /// Per-subscriber output channel capacity (default: 256).
    pub subscriber_capacity: usize,
}

impl Default for SessionEventRouterOptions {
    fn default() -> (r: Self)
        ensures
            r.upstream.capacity == 256,
            r.upstream.initial_interval@ == 250 * 1_000_000,
            r.upstream.max_interval@ == 30 * 1_000_000_000,
            r.session_capacity == 256,
            r.subscriber_capacity == 256,
    {
        SessionEventRouterOptions {
            upstream: SseOptions::default(),
            session_capacity: 256,
            subscriber_capacity: 256,
        }
    }
}

/// Raw SSE message frame as delivered by the `/event` endpoint.
#[derive(Debug, Clone, PartialEq, Eq)]
pub struct RawSseEvent {
    /// Last-Event-ID value from the server, if any.
    pub id: String,
    /// SSE event name from the server frame.
    pub event: String,
    /// Raw JSON payload in the `data:` frame.
    pub data: String,
}

/// Snapshot of SSE stream diagnostics counters.
#[derive(Debug, Clone, PartialEq, Eq)]
pub struct SseStreamStats {
    /// Number of SSE message frames received from the server.
    pub events_in: u64,
    /// Number of events successfully emitted to the subscription receiver.
    pub events_out: u64,
    /// Number of events dropped before delivery.
    pub dropped: u64,
    /// Number of JSON parse errors while decoding typed SSE events.
    pub parse_errors: u64,
    /// Number of reconnect attempts after stream interruption.
    pub reconnects: u64,
    /// Last observed `Last-Event-ID` value, if any.
    pub last_event_id: Option<String>,
}

impl Default for SseStreamStats {
    fn default() -> (r: Self)
        ensures
            r == SseStreamStats::spec_zero(),
    {
        SseStreamStats {
            events_in: 0,
            events_out: 0,
            dropped: 0,
            parse_errors: 0,
            reconnects: 0,
            last_event_id: None,
        }
    }
}

/// Something that the transport hands the streaming loop.
pub enum StreamFrame {
    /// The connection opened.
    Open,
    /// A message frame arrived.
    Message(RawSseEvent),
    /// The connection failed or ended with an error.
    Failed,
}

/// What the typed streaming loop does with a frame.
#[derive(Debug)]
pub enum TypedStep {
    /// Restart the backoff schedule.
    ResetBackoff,
    /// Hand the event to the subscriber.
    Deliver(Event),
    /// Go on with the next frame.
    Skip,
    /// Close the connection and reconnect after a backoff delay.
    Reconnect,
}

/// What the raw streaming loop does with a frame.
#[derive(Debug)]
pub enum RawStep {
    /// Restart the backoff schedule.
    ResetBackoff,
    /// Hand the frame to the subscriber.
    Deliver(RawSseEvent),
    /// Close the connection and reconnect after a backoff delay.
    Reconnect,
}

/// What a session subscription receives from its session channel.
pub enum SessionRecv {
    /// An event of the session.
    Event(Event),
    /// The subscription fell behind and missed this many events.
    Lagged(u64),
    /// The session channel closed.
    Closed,
}

/// What a session subscription's forwarding loop does next.
#[derive(Debug)]
pub enum ForwardStep {
    /// Hand the event to the subscriber.
    Deliver(Event),
    /// Wait for the next event.
    Continue,
    /// End the forwarding loop.
    Stop,
}

impl SseStreamStats {
    /// All counters zero, no event ID seen.
    pub open spec fn spec_zero() -> SseStreamStats {
        SseStreamStats {
            events_in: 0,
            events_out: 0,
            dropped: 0,
            parse_errors: 0,
            reconnects: 0,
            last_event_id: None,
        }
    }

    /// Every frame taken in was either delivered or dropped, and every parse
    /// error dropped its frame.
    pub open spec fn spec_accounted(self) -> bool {
        &&& self.events_in == self.events_out + self.dropped
        &&& self.parse_errors <= self.dropped
    }

    /// The counters after one more frame came in with event ID `id`; a
    /// non-empty ID becomes the last event ID.
    pub open spec fn spec_frame_in(self, id: String) -> SseStreamStats {
        SseStreamStats {
            events_in: wrapping_add(self.events_in, 1),
            last_event_id: if id@.len() > 0 { Some(id) } else { self.last_event_id },
            ..self
        }
    }

    /// The counters after one more delivery.
    pub open spec fn spec_delivered(self) -> SseStreamStats {
        SseStreamStats { events_out: wrapping_add(self.events_out, 1), ..self }
    }

    /// The counters after `n` more drops.
    pub open spec fn spec_dropped(self, n: u64) -> SseStreamStats {
        SseStreamStats { dropped: wrapping_add(self.dropped, n), ..self }
    }

    /// The counters after a frame that did not parse.
    pub open spec fn spec_parse_failed(self) -> SseStreamStats {
        SseStreamStats {
            parse_errors: wrapping_add(self.parse_errors, 1),
            dropped: wrapping_add(self.dropped, 1),
            ..self
        }
    }

    /// The counters after the outcome of handing an event to the subscriber.
    pub open spec fn spec_delivery(self, delivered: bool) -> SseStreamStats {
        if delivered {
            self.spec_delivered()
        } else {
            self.spec_dropped(1)
        }
    }

    /// Replaces the last event ID.
    pub fn set_last_event_id(&mut self, id: Option<String>)
        ensures
            *final(self) == (SseStreamStats { last_event_id: id, ..*old(self) }),
    {
        self.last_event_id = id;
    }

    /// Counts a frame that came in and records its non-empty event ID.
    pub fn record_frame_in(&mut self, id: &String)
        ensures
            *final(self) == old(self).spec_frame_in(*id),
    {
        self.events_in = self.events_in.wrapping_add(1);
        if !id.as_str().is_empty() {
            self.last_event_id = Some(id.clone());
        }
    }

    /// Counts an event handed to the subscriber.
    pub fn record_delivered(&mut self)
        ensures
            *final(self) == old(self).spec_delivered(),
    {
        self.events_out = self.events_out.wrapping_add(1);
    }

    /// Counts `n` events dropped before delivery.
    pub fn record_dropped(&mut self, n: u64)
        ensures
            *final(self) == old(self).spec_dropped(n),
    {
        self.dropped = self.dropped.wrapping_add(n);
    }

    /// Counts a frame whose payload did not parse; it is dropped.
    pub fn record_parse_error(&mut self)
        ensures
            *final(self) == old(self).spec_parse_failed(),
    {
        self.parse_errors = self.parse_errors.wrapping_add(1);
        self.dropped = self.dropped.wrapping_add(1);
    }

    /// Counts a reconnect attempt.
    pub fn record_reconnect(&mut self)
        ensures
            *final(self) == (SseStreamStats {
                reconnects: wrapping_add(old(self).reconnects, 1),
                ..*old(self)
            }),
    {
        self.reconnects = self.reconnects.wrapping_add(1);
    }

    /// Records whether handing an event to the subscriber succeeded; a failed
    /// hand-off drops the event and ends the stream. Returns whether the
    /// stream goes on.
    pub fn record_delivery(&mut self, delivered: bool) -> (go_on: bool)
        ensures
            go_on == delivered,
            *final(self) == old(self).spec_delivery(delivered),
    {
        if delivered {
            self.record_delivered();
        } else {
            self.record_dropped(1);
        }
        delivered
    }
}

/// The event ID that a frame asks to resume from: the non-empty ID of a
/// message frame.
pub open spec fn spec_frame_event_id(frame: StreamFrame) -> Option<String> {
    match frame {
        StreamFrame::Message(m) => if m.id@.len() > 0 { Some(m.id) } else { None },
        _ => None,
    }
}

/// The event ID to store for reconnecting after a frame, if the frame
/// carries one.
pub fn frame_event_id(frame: &StreamFrame) -> (r: Option<String>)
    ensures
        r == spec_frame_event_id(*frame),
{
    match frame {
        StreamFrame::Message(m) => if !m.id.as_str().is_empty() {
            Some(m.id.clone())
        } else {
            None
        },
        _ => None,
    }
}

/// The counters and the step of the typed loop for a frame.
pub open spec fn spec_typed_step(
    stats: SseStreamStats,
    filter: Option<Seq<char>>,
    frame: StreamFrame,
) -> (SseStreamStats, TypedStep) {
    match frame {
        StreamFrame::Open => (stats, TypedStep::ResetBackoff),
        StreamFrame::Failed => (stats, TypedStep::Reconnect),
        StreamFrame::Message(m) => {
            let s = stats.spec_frame_in(m.id);
            match spec_parse_event(m.data@) {
                None => (s.spec_parse_failed(), TypedStep::Skip),
                Some(ev) => if spec_forwards(filter, m.data@, ev) {
                    (s, TypedStep::Deliver(ev))
                } else {
                    (s.spec_dropped(1), TypedStep::Skip)
                },
            }
        },
    }
}

/// Decides what the typed streaming loop does with a frame, and counts it:
/// a message frame is counted in, its non-empty ID becomes the last event
/// ID, a payload that does not parse counts as a parse error and a drop, an
/// event that the filter rejects counts as a drop, and any other event is
/// delivered.
pub fn on_typed_frame(stats: &mut SseStreamStats, session_filter: Option<&str>, frame: StreamFrame) -> (step: TypedStep)
    ensures
        (*final(stats), step) == spec_typed_step(*old(stats), spec_opt_str_view(session_filter), frame),
{
    match frame {
        StreamFrame::Open => TypedStep::ResetBackoff,
        StreamFrame::Failed => TypedStep::Reconnect,
        StreamFrame::Message(m) => {
            stats.record_frame_in(&m.id);
            match Event::parse(m.data.as_str()) {
                None => {
                    stats.record_parse_error();
                    TypedStep::Skip
                },
                Some(ev) => {
                    if should_forward_event(session_filter, m.data.as_str(), &ev) {
                        TypedStep::Deliver(ev)
                    } else {
                        stats.record_dropped(1);
                        TypedStep::Skip
                    }
                },
            }
        },
    }
}

/// The counters and the step of the raw loop for a frame.
pub open spec fn spec_raw_step(stats: SseStreamStats, frame: StreamFrame) -> (SseStreamStats, RawStep) {
    match frame {
        StreamFrame::Open => (stats, RawStep::ResetBackoff),
        StreamFrame::Failed => (stats, RawStep::Reconnect),
        StreamFrame::Message(m) => (stats.spec_frame_in(m.id), RawStep::Deliver(m)),
    }
}

/// Decides what the raw streaming loop does with a frame: every message
/// frame is counted in and delivered.
pub fn on_raw_frame(stats: &mut SseStreamStats, frame: StreamFrame) -> (step: RawStep)
    ensures
        (*final(stats), step) == spec_raw_step(*old(stats), frame),
{
    match frame {
        StreamFrame::Open => RawStep::ResetBackoff,
        StreamFrame::Failed => RawStep::Reconnect,
        StreamFrame::Message(m) => {
            stats.record_frame_in(&m.id);
            RawStep::Deliver(m)
        },
    }
}

/// The counters and the step of a session subscription for what it received.
pub open spec fn spec_session_step(stats: SseStreamStats, recv: SessionRecv) -> (SseStreamStats, ForwardStep) {
    match recv {
        SessionRecv::Event(ev) => (
            SseStreamStats { events_in: wrapping_add(stats.events_in, 1), ..stats },
            ForwardStep::Deliver(ev),
        ),
        SessionRecv::Lagged(n) => (stats.spec_dropped(n), ForwardStep::Continue),
        SessionRecv::Closed => (stats, ForwardStep::Stop),
    }
}

/// Decides what a session subscription does with what its session channel
/// gave it: an event is counted in and delivered, missed events count as
/// drops, a closed channel ends the subscription.
pub fn on_session_recv(stats: &mut SseStreamStats, recv: SessionRecv) -> (step: ForwardStep)
    ensures
        (*final(stats), step) == spec_session_step(*old(stats), recv),
{
    match recv {
        SessionRecv::Event(ev) => {
            stats.events_in = stats.events_in.wrapping_add(1);
            ForwardStep::Deliver(ev)
        },
        SessionRecv::Lagged(n) => {
            stats.record_dropped(n);
            ForwardStep::Continue
        },
        SessionRecv::Closed => ForwardStep::Stop,
    }
}

/// Each message frame of the typed stream ends up delivered or dropped: the
/// counters stay balanced over a frame and the outcome of its hand-off.
pub proof fn lemma_typed_frame_accounted(
    stats: SseStreamStats,
    filter: Option<Seq<char>>,
    frame: StreamFrame,
    delivered: bool,
)
    requires
        stats.spec_accounted(),
        stats.events_in < u64::MAX,
    ensures
        ({
            let (s, step) = spec_typed_step(stats, filter, frame);
            match step {
                TypedStep::Deliver(_) => s.spec_delivery(delivered).spec_accounted(),
                _ => s.spec_accounted(),
            }
        }),
{
}

/// Each message frame of the raw stream ends up delivered or dropped.
pub proof fn lemma_raw_frame_accounted(stats: SseStreamStats, frame: StreamFrame, delivered: bool)
    requires
        stats.spec_accounted(),
        stats.events_in < u64::MAX,
    ensures
        ({
            let (s, step) = spec_raw_step(stats, frame);
            match step {
                RawStep::Deliver(_) => s.spec_delivery(delivered).spec_accounted(),
                _ => s.spec_accounted(),
            }
        }),
{
}

/// A session subscription never delivers more events than it received.
pub proof fn lemma_session_delivers_at_most_received(
    stats: SseStreamStats,
    recv: SessionRecv,
    delivered: bool,
)
    requires
        stats.events_out <= stats.events_in,
        stats.events_in < u64::MAX,
    ensures
        ({
            let (s, step) = spec_session_step(stats, recv);
            match step {
                ForwardStep::Deliver(_) => s.spec_delivery(delivered).events_out <= s.spec_delivery(delivered).events_in,
                _ => s.events_out <= s.events_in,
            }
        }),
{
}

/// The URL of the directory event stream under `base_url`.
pub fn event_endpoint(base_url: &str) -> (r: String)
    ensures
        r@ == base_url@ + "/event"@,
{
    base_url.to_string().concat("/event")
}

/// The URL of the global event stream under `base_url`.
pub fn global_event_endpoint(base_url: &str) -> (r: String)
    ensures
        r@ == base_url@ + "/global/event"@,
{
    base_url.to_string().concat("/global/event")
}

/// Where the session router sends an upstream frame.
#[derive(Debug)]
pub enum Routed {
    /// The payload is not an event; the frame is dropped.
    Unparsed,
    /// The event names no session; it is dropped.
    Unrouted,
    /// The event goes to the channel of this session.
    Session(String, Event),
}

/// Decides where the session router sends an upstream frame: the parsed
/// event goes to the session it is routed to.
pub fn route_upstream_frame(raw: &RawSseEvent) -> (r: Routed)
    ensures
        match spec_parse_event(raw.data@) {
            None => r is Unparsed,
            Some(ev) => match spec_routing_session_id(raw.data@, ev) {
                None => r is Unrouted,
                Some(sid) => r matches Routed::Session(s, e) && s@ == sid && e == ev,
            },
        },
{
    let event = match Event::parse(raw.data.as_str()) {
        Some(ev) => ev,
        None => return Routed::Unparsed,
    };
    match extract_session_id_for_routing(raw.data.as_str(), &event) {
        Some(sid) => Routed::Session(sid, event),
        None => Routed::Unrouted,
    }
}

/// What the router does with a session's channel for a routed event.
#[derive(Debug, PartialEq, Eq, Structural)]
pub enum ChannelAction {
    /// No subscription ever asked for the session: the event is dropped.
    Ignore,
    /// Nobody listens any more: the channel is removed and the event dropped.
    Remove,
    /// The event is sent on the channel.
    Send,
}

/// What to do with a session's channel, given how many receivers it has.
pub open spec fn spec_channel_action(receiver_count: Option<usize>) -> ChannelAction {
    match receiver_count {
        None => ChannelAction::Ignore,
        Some(0) => ChannelAction::Remove,
        Some(_) => ChannelAction::Send,
    }
}

/// Decides what to do with a session's channel, given how many receivers
/// it has (`None` when the session has no channel).
pub fn channel_action(receiver_count: Option<usize>) -> (r: ChannelAction)
    ensures
        r == spec_channel_action(receiver_count),
{
    match receiver_count {
        None => ChannelAction::Ignore,
        Some(0) => ChannelAction::Remove,
        Some(_) => ChannelAction::Send,
    }
}


/// A `session.idle` or `session.error` document is routed to the session
/// its properties name, and a subscription filtered to that session
/// receives the event.
pub proof fn lemma_session_events_route_to_named_session(raw: Seq<char>, v: JsonValue, s: Seq<char>)
    requires
        json_text_value(raw) == Some(v),
        spec_text_member(v, "type"@) == Some("session.idle"@) || spec_text_member(v, "type"@)
            == Some("session.error"@),
        v.spec_get("properties"@) is Some,
        spec_named_session(v.spec_get("properties"@)->0) == Some(s),
    ensures
        spec_raw_text_session_id(raw) == Some(s),
        spec_parse_event(raw) is Some,
        spec_routing_session_id(raw, spec_parse_event(raw)->0) == Some(s),
        spec_forwards(Some(s), raw, spec_parse_event(raw)->0),
{
    lemma_event_tags_distinct();
    let props = v.spec_get("properties"@)->0;
    assert(props is Object);
}

/// A `message.part.updated` document is routed to the session that its
/// part names.
pub proof fn lemma_part_updates_route_to_part_session(raw: Seq<char>, v: JsonValue, s: Seq<char>)
    requires
        json_text_value(raw) == Some(v),
        spec_text_member(v, "type"@) == Some("message.part.updated"@),
        v.spec_get("properties"@) is Some,
        v.spec_get("properties"@)->0.spec_get("part"@) is Some,
        spec_named_session(v.spec_get("properties"@)->0.spec_get("part"@)->0) == Some(s),
    ensures
        spec_raw_text_session_id(raw) == Some(s),
        spec_parse_event(raw) matches Some(ev) ==> spec_routing_session_id(raw, ev) == Some(s)
            && spec_forwards(Some(s), raw, ev),
{
    lemma_event_tags_distinct();
}

/// Under a session filter, a message frame is delivered only when it parses
/// and is routed to the filter's session, and then as the parsed event;
/// a parsed event routed elsewhere, or to no session, is skipped and
/// counted as dropped. Without a filter every parsed event is delivered.
pub proof fn lemma_typed_step_honours_filter(
    stats: SseStreamStats,
    filter: Option<Seq<char>>,
    m: RawSseEvent,
)
    ensures
        ({
            let (s, step) = spec_typed_step(stats, filter, StreamFrame::Message(m));
            &&& step is Deliver ==> (spec_parse_event(m.data@) == Some(step->Deliver_0) && match filter {
                Some(f) => spec_routing_session_id(m.data@, step->Deliver_0) == Some(f),
                None => true,
            })
            &&& step is Deliver ==> s.events_out == stats.events_out && s.dropped == stats.dropped
            &&& (filter is Some && spec_parse_event(m.data@) is Some && spec_routing_session_id(
                m.data@,
                spec_parse_event(m.data@)->0,
            ) != Some(filter->0)) ==> (step is Skip && s.dropped == wrapping_add(stats.dropped, 1))
            &&& (filter is None && spec_parse_event(m.data@) is Some) ==> step == TypedStep::Deliver(
                spec_parse_event(m.data@)->0,
            )
            &&& spec_parse_event(m.data@) is None ==> step is Skip
        }),
{
}

/// A session subscription hands on every event it receives, unchanged and
/// counted in, whatever its type; it stops only when its channel closes.
pub proof fn lemma_session_recv_delivers_every_event(stats: SseStreamStats, recv: SessionRecv)
    ensures
        ({
            let (s, step) = spec_session_step(stats, recv);
            &&& (step is Stop <==> recv is Closed)
            &&& recv is Event ==> (step == ForwardStep::Deliver(recv->Event_0)
                && s.events_in == wrapping_add(stats.events_in, 1)
                && s.events_out == stats.events_out && s.dropped == stats.dropped)
        }),
{
}


/// The raw stream hands on every message frame unchanged and counts it in;
/// a frame with a non-empty ID makes that ID the one to resume from, and
/// one with an empty ID keeps the previous one.
pub proof fn lemma_raw_step_delivers_every_frame(stats: SseStreamStats, m: RawSseEvent)
    ensures
        ({
            let (s, step) = spec_raw_step(stats, StreamFrame::Message(m));
            &&& step == RawStep::Deliver(m)
            &&& s.events_in == wrapping_add(stats.events_in, 1)
            &&& s.events_out == stats.events_out && s.dropped == stats.dropped
            &&& m.id@.len() > 0 ==> s.last_event_id == Some(m.id)
            &&& m.id@.len() == 0 ==> s.last_event_id == stats.last_event_id
        }),
{
}

/// The router sends a routed event exactly when its session has a channel
/// with at least one receiver, and drops a channel exactly when nobody
/// listens to it any more.
pub proof fn lemma_channel_action_by_receivers(receiver_count: Option<usize>)
    ensures
        (spec_channel_action(receiver_count) == ChannelAction::Send) <==> (receiver_count is Some
            && receiver_count->0 > 0),
        (spec_channel_action(receiver_count) == ChannelAction::Remove) <==> receiver_count == Some(
            0usize,
        ),
{
}

} // verus!
