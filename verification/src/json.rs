use vstd::prelude::*;
use crate::text::str_eq;

verus! {

#[verifier::external_type_specification]
#[verifier::external_body]
pub struct ExSerdeJsonValue(serde_json::Value);

/// A JSON document as the SSE payloads carry it. Numbers keep their decimal
/// text; object members keep the order in which the parser hands them out.
#[derive(Debug)]
pub enum JsonValue {
    Null,
    Bool(bool),
    Number(String),
    Str(String),
    Array(Vec<JsonValue>),
    Object(Vec<(String, JsonValue)>),
}

/// The document that `serde_json::from_str::<serde_json::Value>` reads from
/// `text`, or `None` where it reports an error.
pub uninterp spec fn json_text_value(text: Seq<char>) -> Option<JsonValue>;

/// Parses `text` with `serde_json::from_str::<serde_json::Value>` and turns
/// the result into a [`JsonValue`]. The contract names the result
/// ([`json_text_value`]) and claims only that it depends on `text` alone;
/// what the parser accepts is not stated.
#[verifier::external_body]
pub fn parse_json(text: &str) -> (r: Option<JsonValue>)
    ensures
        r == json_text_value(text@),
{
    match serde_json::from_str::<serde_json::Value>(text) {
        Ok(v) => Some(json_from_serde(v)),
        Err(_) => None,
    }
}

/// Moves a `serde_json::Value` into a [`JsonValue`], variant by variant; a
/// number becomes its decimal text. Only [`parse_json`] calls it.
#[verifier::external_body]
fn json_from_serde(v: serde_json::Value) -> JsonValue {
    match v {
        serde_json::Value::Null => JsonValue::Null,
        serde_json::Value::Bool(b) => JsonValue::Bool(b),
        serde_json::Value::Number(n) => JsonValue::Number(n.to_string()),
        serde_json::Value::String(s) => JsonValue::Str(s),
        serde_json::Value::Array(a) => JsonValue::Array(a.into_iter().map(json_from_serde).collect()),
        serde_json::Value::Object(m) => JsonValue::Object(
            m.into_iter().map(|(k, v)| (k, json_from_serde(v))).collect(),
        ),
    }
}

/// The value of the first member of `entries` named `key`.
pub open spec fn spec_member(entries: Seq<(String, JsonValue)>, key: Seq<char>) -> Option<
    JsonValue,
>
    decreases entries.len(),
{
    if entries.len() == 0 {
        None
    } else if entries[0].0@ == key {
        Some(entries[0].1)
    } else {
        spec_member(entries.drop_first(), key)
    }
}

/// The value behind an optional reference.
pub open spec fn spec_deref(v: Option<&JsonValue>) -> Option<JsonValue> {
    match v {
        Some(x) => Some(*x),
        None => None,
    }
}

/// The text of the string member `key` of `v`, if `v` is an object whose
/// member `key` holds a string.
pub open spec fn spec_text_member(v: JsonValue, key: Seq<char>) -> Option<Seq<char>> {
    match v.spec_get(key) {
        Some(JsonValue::Str(s)) => Some(s@),
        _ => None,
    }
}

/// The session that an object names: its `sessionID` member when present
/// (a string, or no session at all), else its `sessionId` string member.
pub open spec fn spec_named_session(obj: JsonValue) -> Option<Seq<char>> {
    match obj.spec_get("sessionID"@) {
        Some(JsonValue::Str(s)) => Some(s@),
        Some(_) => None,
        None => spec_text_member(obj, "sessionId"@),
    }
}

impl JsonValue {
    /// The member `key` of an object; `None` for a missing member or a value
    /// that is not an object.
    pub open spec fn spec_get(self, key: Seq<char>) -> Option<JsonValue> {
        match self {
            JsonValue::Object(entries) => spec_member(entries@, key),
            _ => None,
        }
    }

    /// The text of a string value.
    pub open spec fn spec_as_str(self) -> Option<Seq<char>> {
        match self {
            JsonValue::Str(s) => Some(s@),
            _ => None,
        }
    }

    /// Looks up the member `key` of an object, like `serde_json::Value::get`
    /// with a `&str` index.
    pub fn get(&self, key: &str) -> (r: Option<&JsonValue>)
        ensures
            spec_deref(r) == self.spec_get(key@),
    {
        match self {
            JsonValue::Object(entries) => {
                let n = entries.len();
                let mut i: usize = 0;
                assert(entries@.skip(0) =~= entries@);
                while i < n
                    invariant
                        n == entries@.len(),
                        i <= n,
                        self.spec_get(key@) == spec_member(entries@, key@),
                        spec_member(entries@, key@) == spec_member(entries@.skip(i as int), key@),
                    decreases n - i,
                {
                    assert(entries@.skip(i as int)[0] == entries@[i as int]);
                    let entry = &entries[i];
                    if str_eq(entry.0.as_str(), key) {
                        assert(spec_member(entries@.skip(i as int), key@) == Some(entry.1));
                        return Some(&entry.1);
                    }
                    assert(entries@.skip(i as int).drop_first() =~= entries@.skip(i + 1));
                    i = i + 1;
                }
                None
            },
            _ => None,
        }
    }

    /// The text of a string value, like `serde_json::Value::as_str`.
    pub fn as_str(&self) -> (r: Option<&str>)
        ensures
            r matches Some(s) ==> self.spec_as_str() == Some(s@),
            r is None ==> self.spec_as_str() is None,
    {
        match self {
            JsonValue::Str(s) => Some(s.as_str()),
            _ => None,
        }
    }
}

} // verus!
