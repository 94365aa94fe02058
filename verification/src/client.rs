//! Configuration of the OpenCode client and the text collection that waits
//! for a session to become idle.

use vstd::prelude::*;
use crate::duration::Duration;
use crate::error::OpencodeError;
use crate::text::{
    debug_quoted, spec_trim, spec_trim_end_char, str_debug_text, to_owned_string, trim, trim_end_char,
};
use crate::json::{JsonValue, spec_text_member};
use crate::types::event::{
    Event, Part, lemma_event_tags_distinct, lemma_part_kind_follows_type_tag, spec_decode_event, spec_part_type_tag,
};
use vstd::string::StringExecFns;

verus! {

/// Connection settings of the HTTP client.
#[derive(Debug, Clone)]
pub struct HttpConfig {
    /// Server base URL, without trailing `/`.
    pub base_url: String,
    /// Directory sent as `x-opencode-directory`, if any.
    pub directory: Option<String>,
    /// Total request timeout.
    pub timeout: Duration,
}

/// Builder for the OpenCode client.
#[derive(Debug, Clone)]
pub struct ClientBuilder {
    /// Base URL of the OpenCode server.
    pub base_url: String,
    /// Directory context for requests.
    pub directory: Option<String>,
    /// Request timeout.
    pub timeout: Duration,
}

impl Default for ClientBuilder {
    fn default() -> (r: Self)
        ensures
            r.base_url@ == "http://127.0.0.1:4096"@,
            r.directory is None,
            r.timeout@ == 300 * 1_000_000_000,
    {
        ClientBuilder {
            base_url: to_owned_string("http://127.0.0.1:4096"),
            directory: None,
            timeout: Duration::from_secs(300),
        }
    }
}

impl ClientBuilder {
    /// Creates a builder with the default settings: base URL
    /// `http://127.0.0.1:4096`, no directory, a timeout of 300 seconds.
    pub fn new() -> (r: Self)
        ensures
            r.base_url@ == "http://127.0.0.1:4096"@,
            r.directory is None,
            r.timeout@ == 300 * 1_000_000_000,
    {
        Self::default()
    }

    /// Sets the base URL of the OpenCode server.
    pub fn base_url(self, url: &str) -> (r: Self)
        ensures
            r.base_url@ == url@,
            r.directory == self.directory,
            r.timeout == self.timeout,
    {
        ClientBuilder { base_url: to_owned_string(url), ..self }
    }

    /// Sets the directory context (`x-opencode-directory`) of requests.
    pub fn directory(self, dir: &str) -> (r: Self)
        ensures
            r.base_url == self.base_url,
            r.directory matches Some(d) && d@ == dir@,
            r.timeout == self.timeout,
    {
        ClientBuilder { directory: Some(to_owned_string(dir)), ..self }
    }

    /// Sets the request timeout in seconds.
    pub fn timeout_secs(self, secs: u64) -> (r: Self)
        ensures
            r.base_url == self.base_url,
            r.directory == self.directory,
            r.timeout@ == secs * 1_000_000_000,
    {
        ClientBuilder { timeout: Duration::from_secs(secs), ..self }
    }

    /// The connection settings the client is built with: the base URL loses
    /// its trailing slashes, directory and timeout carry over.
    pub fn http_config(self) -> (r: HttpConfig)
        ensures
            r.base_url@ == spec_trim_end_char(self.base_url@, '/'),
            r.directory == self.directory,
            r.timeout == self.timeout,
    {
        let base_url = to_owned_string(trim_end_char(self.base_url.as_str(), '/'));
        HttpConfig { base_url, directory: self.directory, timeout: self.timeout }
    }
}

/// Where waiting for an idle session stands after an event.
#[derive(Debug)]
pub enum IdleStep {
    /// Keep waiting.
    Continue,
    /// The session is idle; the collected text is complete.
    Idle,
    /// The session reported an error.
    Failed(OpencodeError),
}

/// The streamed text that an event adds: the delta of an update to a text
/// part, nothing for other events.
pub open spec fn spec_text_delta(ev: Event) -> Seq<char> {
    match ev {
        Event::MessagePartUpdated { properties } => match (properties.delta, properties.part) {
            (Some(d), Some(Part::Text { .. })) => d@,
            _ => Seq::empty(),
        },
        _ => Seq::empty(),
    }
}

/// Whether an event says that the session is idle.
pub open spec fn spec_is_idle_event(ev: Event) -> bool {
    match ev {
        Event::SessionIdle { .. } => true,
        Event::SessionStatus { properties } => properties.status_type matches Some(t) && t@
            == "idle"@,
        _ => false,
    }
}

/// The `Debug` form of an optional error name: `None`, or `Some(..)`
/// around the quoted name.
pub open spec fn spec_option_debug(error: Option<String>) -> Seq<char> {
    match error {
        Some(name) => "Some("@ + str_debug_text(name@) + ")"@,
        None => "None"@,
    }
}

/// The message of the error for a `session.error` event: the `Debug` form
/// of the optional error after `session.error: `.
pub open spec fn spec_session_error_message(error: Option<String>) -> Seq<char> {
    "session.error: "@ + spec_option_debug(error)
}

/// Writes the `Debug` form of an optional error name.
pub fn option_debug_text(error: &Option<String>) -> (r: String)
    ensures
        r@ == spec_option_debug(*error),
{
    match error {
        Some(name) => to_owned_string("Some(").concat(debug_quoted(name.as_str()).as_str()).concat(")"),
        None => to_owned_string("None"),
    }
}

/// Collects the text that a session streams until it becomes idle.
pub struct IdleTextCollector {
    output: String,
}

impl IdleTextCollector {
    /// The text collected so far.
    pub closed spec fn spec_output(&self) -> Seq<char> {
        self.output@
    }

    /// Starts with no text.
    pub fn new() -> (r: Self)
        ensures
            r.spec_output() == Seq::<char>::empty(),
    {
        IdleTextCollector { output: String::new() }
    }

    /// Takes in one event of the session: the delta of a text part update is
    /// appended, an idle event or status ends the wait, a session error
    /// fails it, other events are passed over.
    pub fn on_event(&mut self, ev: &Event) -> (step: IdleStep)
        ensures
            ev is SessionError ==> (step matches IdleStep::Failed(OpencodeError::State(m))
                && m@ == spec_session_error_message(ev->SessionError_properties.error)),
            !(ev is SessionError) && spec_is_idle_event(*ev) ==> step is Idle,
            !(ev is SessionError) && !spec_is_idle_event(*ev) ==> step is Continue,
            final(self).spec_output() == old(self).spec_output() + spec_streamed_text(seq![*ev]),
    {
        proof {
            assert(seq![*ev].drop_last() =~= Seq::<Event>::empty());
            assert(seq![*ev].last() == *ev);
            assert(spec_streamed_text(Seq::<Event>::empty()) == Seq::<char>::empty());
            assert(spec_streamed_text(seq![*ev]) =~= Seq::<char>::empty() + spec_text_delta(*ev));
            assert(spec_streamed_text(seq![*ev]) =~= spec_text_delta(*ev));
        }
        match ev {
            Event::MessagePartUpdated { properties } => {
                match (&properties.delta, &properties.part) {
                    (Some(d), Some(Part::Text { .. })) => {
                        self.output.append(d.as_str());
                    },
                    _ => {
                        assert(spec_text_delta(*ev) =~= Seq::<char>::empty());
                    },
                }
                IdleStep::Continue
            },
            Event::SessionStatus { properties } => {
                assert(self.output@ + spec_text_delta(*ev) =~= self.output@);
                let is_idle = match &properties.status_type {
                    Some(t) => crate::text::str_eq(t.as_str(), "idle"),
                    None => false,
                };
                if is_idle {
                    IdleStep::Idle
                } else {
                    IdleStep::Continue
                }
            },
            Event::SessionIdle { .. } => {
                assert(self.output@ + spec_text_delta(*ev) =~= self.output@);
                IdleStep::Idle
            },
            Event::SessionError { properties } => {
                assert(self.output@ + spec_text_delta(*ev) =~= self.output@);
                let message = to_owned_string("session.error: ").concat(
                    option_debug_text(&properties.error).as_str(),
                );
                IdleStep::Failed(OpencodeError::State(message))
            },
            _ => {
                assert(self.output@ + spec_text_delta(*ev) =~= self.output@);
                IdleStep::Continue
            },
        }
    }

    /// Takes in what the subscription gave: an event is taken in as by
    /// [`Self::on_event`]; the end of the stream fails the wait with
    /// [`OpencodeError::StreamClosed`].
    pub fn on_receive(&mut self, received: Option<Event>) -> (step: IdleStep)
        ensures
            received is None ==> (step matches IdleStep::Failed(e) && e is StreamClosed)
                && final(self).spec_output() == old(self).spec_output(),
            received matches Some(ev) ==> {
                &&& ev is SessionError ==> (step matches IdleStep::Failed(OpencodeError::State(m))
                    && m@ == spec_session_error_message(ev->SessionError_properties.error))
                &&& !(ev is SessionError) && spec_is_idle_event(ev) ==> step is Idle
                &&& !(ev is SessionError) && !spec_is_idle_event(ev) ==> step is Continue
                &&& final(self).spec_output() == old(self).spec_output() + spec_streamed_text(seq![ev])
            },
    {
        match received {
            Some(ev) => self.on_event(&ev),
            None => IdleStep::Failed(OpencodeError::StreamClosed),
        }
    }

    /// The collected text without surrounding whitespace.
    pub fn finish(self) -> (r: String)
        ensures
            r@ == spec_trim(self.spec_output()),
    {
        to_owned_string(trim(self.output.as_str()))
    }
}

/// How much longer to wait for the session, `elapsed` into a wait of
/// `timeout`: the time left, or the timeout error once it has run out.
pub fn remaining_wait(elapsed: Duration, timeout: Duration) -> (r: Result<Duration, OpencodeError>)
    ensures
        elapsed@ >= timeout@ ==> r == Err::<Duration, OpencodeError>(
            OpencodeError::ServerTimeout { timeout_ms: timeout.spec_millis_saturating() },
        ),
        elapsed@ < timeout@ ==> (r matches Ok(d) && d@ == timeout@ - elapsed@),
{
    if elapsed.is_at_least(&timeout) {
        Err(idle_timeout_error(timeout))
    } else {
        Ok(timeout.saturating_sub(elapsed))
    }
}

/// The error for a wait that ran out of `timeout`.
pub fn idle_timeout_error(timeout: Duration) -> (e: OpencodeError)
    ensures
        e == (OpencodeError::ServerTimeout { timeout_ms: timeout.spec_millis_saturating() }),
{
    OpencodeError::ServerTimeout { timeout_ms: timeout.as_millis_saturating() }
}


/// The text that a run of events streams, in order.
pub open spec fn spec_streamed_text(evs: Seq<Event>) -> Seq<char>
    decreases evs.len(),
{
    if evs.len() == 0 {
        Seq::empty()
    } else {
        spec_streamed_text(evs.drop_last()) + spec_text_delta(evs.last())
    }
}

/// The text streamed by two runs of events one after the other is the text
/// of the first run followed by that of the second: deltas are collected in
/// the order they arrive, none lost and none repeated.
pub proof fn lemma_streamed_text_concat(a: Seq<Event>, b: Seq<Event>)
    ensures
        spec_streamed_text(a + b) == spec_streamed_text(a) + spec_streamed_text(b),
    decreases b.len(),
{
    if b.len() == 0 {
        assert(a + b =~= a);
        assert(spec_streamed_text(a) + spec_streamed_text(b) =~= spec_streamed_text(a));
    } else {
        lemma_streamed_text_concat(a, b.drop_last());
        assert((a + b).drop_last() =~= a + b.drop_last());
        assert((a + b).last() == b.last());
        assert(spec_streamed_text(a) + spec_streamed_text(b) =~= spec_streamed_text(a)
            + spec_streamed_text(b.drop_last()) + spec_text_delta(b.last()));
    }
}


/// The text an event adds is exactly the delta of an update to a text part:
/// an update without a delta, an update of another kind of part, and every
/// other event add nothing.
pub proof fn lemma_text_delta_is_text_part_delta(ev: Event)
    ensures
        match ev {
            Event::MessagePartUpdated { properties } => {
                &&& properties.delta is None ==> spec_text_delta(ev) == Seq::<char>::empty()
                &&& !(properties.part is Some && properties.part->0 is Text) ==> spec_text_delta(ev)
                    == Seq::<char>::empty()
                &&& (properties.delta is Some && properties.part is Some && properties.part->0 is Text)
                    ==> spec_text_delta(ev) == properties.delta->0@
            },
            _ => spec_text_delta(ev) == Seq::<char>::empty(),
        },
{
}

/// Streamed text comes only from `message.part.updated` documents whose
/// part is typed `text`, and is the string in their `delta` member; a
/// document without a delta streams nothing.
pub proof fn lemma_streamed_text_from_document(v: JsonValue)
    requires
        spec_decode_event(v) is Some,
    ensures
        spec_text_delta(spec_decode_event(v)->0).len() > 0 ==> {
            &&& spec_text_member(v, "type"@) == Some("message.part.updated"@)
            &&& spec_part_type_tag(v) == Some("text"@)
            &&& spec_text_member(v.spec_get("properties"@)->0, "delta"@) == Some(
                spec_text_delta(spec_decode_event(v)->0),
            )
        },
        (v.spec_get("properties"@) is Some && (v.spec_get("properties"@)->0.spec_get("delta"@) is None
            || v.spec_get("properties"@)->0.spec_get("delta"@) == Some(JsonValue::Null)))
            ==> spec_text_delta(spec_decode_event(v)->0) == Seq::<char>::empty(),
{
    lemma_part_kind_follows_type_tag(v);
}


/// A decoded event ends the wait as idle exactly when its document is a
/// `session.idle` event, or a `session.status` event whose `status.type` is
/// `idle`.
pub proof fn lemma_idle_events_from_document(v: JsonValue)
    requires
        spec_decode_event(v) is Some,
    ensures
        spec_is_idle_event(spec_decode_event(v)->0) <==> (spec_text_member(v, "type"@) == Some(
            "session.idle"@,
        ) || (spec_text_member(v, "type"@) == Some("session.status"@) && match v.spec_get(
            "properties"@,
        )->0.spec_get("status"@) {
            Some(st) => spec_text_member(st, "type"@) == Some("idle"@),
            None => false,
        })),
{
    lemma_event_tags_distinct();
}

} // verus!
