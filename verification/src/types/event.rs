use vstd::prelude::*;
use crate::json::{
    JsonValue, json_text_value, parse_json, spec_deref, spec_named_session, spec_text_member,
};
use crate::text::str_eq;

verus! {

/// A part of a message, as far as stream consumers read it.
#[derive(Debug, Clone)]
pub enum Part {
    /// A text part.
    Text { text: String },
    /// Any other kind of part, with its `type` tag.
    Other { part_type: String },
}

/// Properties of a `message.part.updated` event.
#[derive(Debug, Clone)]
pub struct MessagePartUpdatedProps {
    /// The updated part, when the frame carries one.
    pub part: Option<Part>,
    /// Session ID recorded on the part.
    pub session_id: Option<String>,
    /// Newly streamed text.
    pub delta: Option<String>,
}

/// Properties of a `session.error` event.
#[derive(Debug, Clone)]
pub struct SessionErrorProps {
    /// Session that failed.
    pub session_id: Option<String>,
    /// Name of the reported error.
    pub error: Option<String>,
}

/// Properties of a `session.status` event.
#[derive(Debug, Clone)]
pub struct SessionStatusProps {
    /// Session whose status changed.
    pub session_id: Option<String>,
    /// The `status.type` tag (`idle`, `busy`, ...).
    pub status_type: Option<String>,
}

/// A typed event from the `/event` stream.
#[derive(Debug, Clone)]
#[allow(inconsistent_fields)]
pub enum Event {
    /// `server.connected`: the stream is connected.
    ServerConnected,
    /// `server.heartbeat`: keep-alive.
    ServerHeartbeat,
    /// `message.updated`: a message of the session changed.
    MessageUpdated { session_id: String },
    /// `message.removed`: a message was deleted.
    MessageRemoved { session_id: String, message_id: String },
    /// `message.part.updated`: a message part changed, possibly with newly
    /// streamed text.
    MessagePartUpdated { properties: MessagePartUpdatedProps },
    /// `session.idle`: the session finished its work.
    SessionIdle { session_id: String },
    /// `session.error`: the session failed.
    SessionError { properties: SessionErrorProps },
    /// `session.status`: the session's status changed.
    SessionStatus { properties: SessionStatusProps },
    /// An event type this library does not model further, with its `type`
    /// tag and the session ID in its properties (`sessionID`, else
    /// `sessionId`), if any.
    Other { event_type: String, session_id: Option<String> },
}

/// The member `k1` of `v`, or else its member `k2`.
pub open spec fn spec_member_either(v: JsonValue, k1: Seq<char>, k2: Seq<char>) -> Option<JsonValue> {
    match v.spec_get(k1) {
        Some(x) => Some(x),
        None => v.spec_get(k2),
    }
}

/// The string held by `v`, if any.
pub open spec fn spec_string_of(v: Option<JsonValue>) -> Option<String> {
    match v {
        Some(JsonValue::Str(s)) => Some(s),
        _ => None,
    }
}

/// The session ID member (`sessionID`, else `sessionId`) of `v` as a string.
pub open spec fn spec_session_member(v: JsonValue) -> Option<String> {
    spec_string_of(spec_member_either(v, "sessionID"@, "sessionId"@))
}

/// Reads an optional string member: `Some(None)` when it is absent or null,
/// `None` when it holds something else than a string.
pub open spec fn spec_optional_string(v: Option<JsonValue>) -> Option<Option<String>> {
    match v {
        None => Some(None),
        Some(JsonValue::Null) => Some(None),
        Some(JsonValue::Str(s)) => Some(Some(s)),
        _ => None,
    }
}

/// Decodes the `part` member of a `message.part.updated` event.
pub open spec fn spec_decode_part(v: Option<JsonValue>) -> Option<Option<Part>> {
    match v {
        None => Some(None),
        Some(JsonValue::Null) => Some(None),
        Some(p) => match spec_string_of(p.spec_get("type"@)) {
            Some(t) => if t@ == "text"@ {
                match spec_string_of(p.spec_get("text"@)) {
                    Some(text) => Some(Some(Part::Text { text })),
                    None => None,
                }
            } else {
                Some(Some(Part::Other { part_type: t }))
            },
            None => None,
        },
    }
}

/// Decodes the properties of an event of type `t`.
pub open spec fn spec_decode_properties(t: String, props: JsonValue) -> Option<Event> {
    if t@ == "server.connected"@ {
        Some(Event::ServerConnected)
    } else if t@ == "server.heartbeat"@ {
        Some(Event::ServerHeartbeat)
    } else if t@ == "message.updated"@ {
        match props.spec_get("info"@) {
            Some(info) => match spec_session_member(info) {
                Some(sid) => Some(Event::MessageUpdated { session_id: sid }),
                None => None,
            },
            None => None,
        }
    } else if t@ == "message.removed"@ {
        match (
            spec_session_member(props),
            spec_string_of(spec_member_either(props, "messageID"@, "messageId"@)),
        ) {
            (Some(sid), Some(mid)) => Some(Event::MessageRemoved { session_id: sid, message_id: mid }),
            _ => None,
        }
    } else if t@ == "message.part.updated"@ {
        let part_json = props.spec_get("part"@);
        match (spec_decode_part(part_json), spec_optional_string(props.spec_get("delta"@))) {
            (Some(part), Some(delta)) => Some(
                Event::MessagePartUpdated {
                    properties: MessagePartUpdatedProps {
                        part,
                        session_id: match part_json {
                            Some(p) => spec_session_member(p),
                            None => None,
                        },
                        delta,
                    },
                },
            ),
            _ => None,
        }
    } else if t@ == "session.idle"@ {
        match spec_session_member(props) {
            Some(sid) => Some(Event::SessionIdle { session_id: sid }),
            None => None,
        }
    } else if t@ == "session.error"@ {
        Some(
            Event::SessionError {
                properties: SessionErrorProps {
                    session_id: spec_session_member(props),
                    error: match props.spec_get("error"@) {
                        Some(e) => spec_string_of(e.spec_get("name"@)),
                        None => None,
                    },
                },
            },
        )
    } else if t@ == "session.status"@ {
        Some(
            Event::SessionStatus {
                properties: SessionStatusProps {
                    session_id: spec_session_member(props),
                    status_type: match props.spec_get("status"@) {
                        Some(s) => spec_string_of(s.spec_get("type"@)),
                        None => None,
                    },
                },
            },
        )
    } else {
        Some(Event::Other { event_type: t, session_id: spec_session_member(props) })
    }
}

/// Decodes a JSON document into a typed event: an object with a string
/// `type` and an object `properties`, whose members the event type requires.
pub open spec fn spec_decode_event(v: JsonValue) -> Option<Event> {
    match (spec_string_of(v.spec_get("type"@)), v.spec_get("properties"@)) {
        (Some(t), Some(props)) => match props {
            JsonValue::Object(_) => spec_decode_properties(t, props),
            _ => None,
        },
        _ => None,
    }
}

/// The typed event that the text `raw` carries.
pub open spec fn spec_parse_event(raw: Seq<char>) -> Option<Event> {
    match json_text_value(raw) {
        Some(v) => spec_decode_event(v),
        None => None,
    }
}


/// The member `k1` of `v`, or else its member `k2`.
pub(crate) fn member_either<'a>(v: &'a JsonValue, k1: &str, k2: &str) -> (r: Option<&'a JsonValue>)
    ensures
        spec_deref(r) == spec_member_either(*v, k1@, k2@),
{
    match v.get(k1) {
        Some(x) => Some(x),
        None => v.get(k2),
    }
}

/// A copy of the string held by `v`, if any.
fn string_of(v: Option<&JsonValue>) -> (r: Option<String>)
    ensures
        r == spec_string_of(spec_deref(v)),
{
    match v {
        Some(JsonValue::Str(s)) => Some(s.clone()),
        _ => None,
    }
}

/// The session ID member (`sessionID`, else `sessionId`) of `v`.
fn session_member(v: &JsonValue) -> (r: Option<String>)
    ensures
        r == spec_session_member(*v),
{
    string_of(member_either(v, "sessionID", "sessionId"))
}

fn optional_string(v: Option<&JsonValue>) -> (r: Option<Option<String>>)
    ensures
        r == spec_optional_string(spec_deref(v)),
{
    match v {
        None => Some(None),
        Some(JsonValue::Null) => Some(None),
        Some(JsonValue::Str(s)) => Some(Some(s.clone())),
        _ => None,
    }
}

fn decode_part(v: Option<&JsonValue>) -> (r: Option<Option<Part>>)
    ensures
        r == spec_decode_part(spec_deref(v)),
{
    match v {
        None => Some(None),
        Some(JsonValue::Null) => Some(None),
        Some(p) => match string_of(p.get("type")) {
            Some(t) => if str_eq(t.as_str(), "text") {
                match string_of(p.get("text")) {
                    Some(text) => Some(Some(Part::Text { text })),
                    None => None,
                }
            } else {
                Some(Some(Part::Other { part_type: t }))
            },
            None => None,
        },
    }
}

/// Decodes the properties of an event of type `t`.
fn decode_properties(t: String, props: &JsonValue) -> (r: Option<Event>)
    ensures
        r == spec_decode_properties(t, *props),
{
    if str_eq(t.as_str(), "server.connected") {
        Some(Event::ServerConnected)
    } else if str_eq(t.as_str(), "server.heartbeat") {
        Some(Event::ServerHeartbeat)
    } else if str_eq(t.as_str(), "message.updated") {
        match props.get("info") {
            Some(info) => match session_member(info) {
                Some(sid) => Some(Event::MessageUpdated { session_id: sid }),
                None => None,
            },
            None => None,
        }
    } else if str_eq(t.as_str(), "message.removed") {
        match (session_member(props), string_of(member_either(props, "messageID", "messageId"))) {
            (Some(sid), Some(mid)) => Some(Event::MessageRemoved { session_id: sid, message_id: mid }),
            _ => None,
        }
    } else if str_eq(t.as_str(), "message.part.updated") {
        let part_json = props.get("part");
        match (decode_part(part_json), optional_string(props.get("delta"))) {
            (Some(part), Some(delta)) => {
                let session_id = match part_json {
                    Some(p) => session_member(p),
                    None => None,
                };
                Some(
                    Event::MessagePartUpdated {
                        properties: MessagePartUpdatedProps { part, session_id, delta },
                    },
                )
            },
            _ => None,
        }
    } else if str_eq(t.as_str(), "session.idle") {
        match session_member(props) {
            Some(sid) => Some(Event::SessionIdle { session_id: sid }),
            None => None,
        }
    } else if str_eq(t.as_str(), "session.error") {
        let error = match props.get("error") {
            Some(e) => string_of(e.get("name")),
            None => None,
        };
        Some(
            Event::SessionError {
                properties: SessionErrorProps { session_id: session_member(props), error },
            },
        )
    } else if str_eq(t.as_str(), "session.status") {
        let status_type = match props.get("status") {
            Some(s) => string_of(s.get("type")),
            None => None,
        };
        Some(
            Event::SessionStatus {
                properties: SessionStatusProps { session_id: session_member(props), status_type },
            },
        )
    } else {
        Some(Event::Other { event_type: t, session_id: session_member(props) })
    }
}

/// Decodes a JSON document into a typed event.
pub fn decode_event(v: &JsonValue) -> (r: Option<Event>)
    ensures
        r == spec_decode_event(*v),
{
    match (string_of(v.get("type")), v.get("properties")) {
        (Some(t), Some(props)) => match props {
            JsonValue::Object(_) => decode_properties(t, props),
            _ => None,
        },
        _ => None,
    }
}

impl Event {
    /// Parses the JSON text of an SSE `data:` frame into a typed event;
    /// `None` where the text is no JSON or does not describe an event.
    pub fn parse(raw: &str) -> (r: Option<Event>)
        ensures
            r == spec_parse_event(raw@),
    {
        match parse_json(raw) {
            Some(v) => decode_event(&v),
            None => None,
        }
    }

    /// The session ID that the typed fields of the event carry.
    pub open spec fn spec_session_id(self) -> Option<String> {
        match self {
            Event::MessageUpdated { session_id } => Some(session_id),
            Event::MessageRemoved { session_id, .. } => Some(session_id),
            Event::MessagePartUpdated { properties } => properties.session_id,
            Event::SessionIdle { session_id } => Some(session_id),
            Event::SessionError { properties } => properties.session_id,
            Event::SessionStatus { properties } => properties.session_id,
            Event::Other { session_id, .. } => session_id,
            _ => None,
        }
    }

    /// The session ID that the typed fields of the event carry.
    pub fn session_id(&self) -> (r: Option<&str>)
        ensures
            r matches Some(s) ==> self.spec_session_id() matches Some(t) && s@ == t@,
            r is None ==> self.spec_session_id() is None,
    {
        match self {
            Event::MessageUpdated { session_id } => Some(session_id.as_str()),
            Event::MessageRemoved { session_id, .. } => Some(session_id.as_str()),
            Event::MessagePartUpdated { properties } => match &properties.session_id {
                Some(s) => Some(s.as_str()),
                None => None,
            },
            Event::SessionIdle { session_id } => Some(session_id.as_str()),
            Event::SessionError { properties } => match &properties.session_id {
                Some(s) => Some(s.as_str()),
                None => None,
            },
            Event::SessionStatus { properties } => match &properties.session_id {
                Some(s) => Some(s.as_str()),
                None => None,
            },
            Event::Other { session_id, .. } => match session_id {
                Some(s) => Some(s.as_str()),
                None => None,
            },
            _ => None,
        }
    }
}


/// The type tag of the `part` of a document's properties, if it has one.
pub open spec fn spec_part_type_tag(v: JsonValue) -> Option<Seq<char>> {
    match v.spec_get("properties"@) {
        Some(props) => match props.spec_get("part"@) {
            Some(p) => spec_text_member(p, "type"@),
            None => None,
        },
        None => None,
    }
}

/// Only a part whose type tag is exactly `text` decodes as a text part; a
/// part with any other type tag decodes as [`Part::Other`] carrying that
/// tag.
pub proof fn lemma_part_kind_follows_type_tag(v: JsonValue)
    ensures
        match spec_decode_event(v) {
            Some(Event::MessagePartUpdated { properties }) => {
                &&& (properties.part is Some && properties.part->0 is Text) ==> spec_part_type_tag(v)
                    == Some("text"@)
                &&& (properties.part is Some && properties.part->0 is Other) ==> (spec_part_type_tag(
                    v,
                ) == Some(properties.part->0->part_type@) && properties.part->0->part_type@
                    != "text"@)
                &&& (spec_part_type_tag(v) is Some && spec_part_type_tag(v)->0 != "text"@) ==> (
                properties.part is Some && properties.part->0 is Other
                    && properties.part->0->part_type@ == spec_part_type_tag(v)->0)
            },
            _ => true,
        },
{
}


/// The type tags of the modelled events are pairwise different.
pub proof fn lemma_event_tags_distinct()
    ensures
        "server.connected"@.len() == 16,
        "server.heartbeat"@.len() == 16,
        "server.connected"@[7] == 'c',
        "server.heartbeat"@[7] == 'h',
        "message.updated"@.len() == 15,
        "message.removed"@.len() == 15,
        "message.updated"@[8] == 'u',
        "message.removed"@[8] == 'r',
        "message.part.updated"@.len() == 20,
        "session.idle"@.len() == 12,
        "session.error"@.len() == 13,
        "session.status"@.len() == 14,
        "text"@.len() == 4,
{
    reveal_strlit("server.connected");
    reveal_strlit("server.heartbeat");
    reveal_strlit("message.updated");
    reveal_strlit("message.removed");
    reveal_strlit("message.part.updated");
    reveal_strlit("session.idle");
    reveal_strlit("session.error");
    reveal_strlit("session.status");
    reveal_strlit("text");
}


/// The session ID that a decoded event carries is the one its document
/// names: in `properties.info` for `message.updated`, in `properties.part`
/// for `message.part.updated`, none for the server events, and in
/// `properties` for every other type.
pub proof fn lemma_typed_session_id_from_document(v: JsonValue)
    requires
        spec_decode_event(v) is Some,
    ensures
        ({
            let sid = match spec_decode_event(v)->0.spec_session_id() {
                Some(x) => Some(x@),
                None => None,
            };
            let t = spec_text_member(v, "type"@)->0;
            let props = v.spec_get("properties"@)->0;
            sid == if t == "message.updated"@ {
                spec_named_session(props.spec_get("info"@)->0)
            } else if t == "message.part.updated"@ {
                match props.spec_get("part"@) {
                    Some(p) => spec_named_session(p),
                    None => None,
                }
            } else if t == "server.connected"@ || t == "server.heartbeat"@ {
                None
            } else {
                spec_named_session(props)
            }
        }),
{
    lemma_event_tags_distinct();
}

} // verus!
