//! JSON as text: reading a document, writing one, and looking a value up by
//! a JSON Pointer, each done by `serde_json`.

use vstd::prelude::*;
use crate::value::{distinct_keys, JsonValue, JsonView, Number};

verus! {

#[verifier::external_type_specification]
#[verifier::external_body]
pub struct ExSerdeValue(serde_json::Value);

/// Turns a number into the `serde_json` value that holds it. A decimal whose
/// text `serde_json` does not read as a number becomes `null`.
#[verifier::external_body]
fn number_to_serde(n: &Number) -> serde_json::Value {
    match n {
        Number::PosInt(u) => serde_json::Value::from(*u),
        Number::NegInt(i) => serde_json::Value::from(*i),
        Number::Float(text) => text.parse::<serde_json::Number>().map_or(
            serde_json::Value::Null,
            serde_json::Value::Number,
        ),
    }
}

/// Turns a value into the `serde_json::Value` of the same shape, member by
/// member. The members of an object are collected into the map of
/// `serde_json`, which keeps of members with one key the last, as the lookups
/// of this library do.
#[verifier::external_body]
fn to_serde(v: &JsonValue) -> serde_json::Value {
    match v {
        JsonValue::Null => serde_json::Value::Null,
        JsonValue::Bool(b) => serde_json::Value::Bool(*b),
        JsonValue::Number(n) => number_to_serde(n),
        JsonValue::String(s) => serde_json::Value::String(s.clone()),
        JsonValue::Array(items) => serde_json::Value::Array(items.iter().map(to_serde).collect()),
        JsonValue::Object(members) => serde_json::Value::Object(
            members.iter().map(|m| (m.0.clone(), to_serde(&m.1))).collect(),
        ),
    }
}

/// Turns a `serde_json::Value` into the value of the same shape, member by
/// member, with the members of an object in the order in which the map
/// hands them out. A number becomes an integer where `Number::as_u64` or
/// `Number::as_i64` gives one, else its decimal text.
#[verifier::external_body]
fn from_serde(v: &serde_json::Value) -> JsonValue {
    match v {
        serde_json::Value::Null => JsonValue::Null,
        serde_json::Value::Bool(b) => JsonValue::Bool(*b),
        serde_json::Value::Number(n) => JsonValue::Number(
            n.as_u64().map(Number::PosInt).or(n.as_i64().map(Number::NegInt)).unwrap_or_else(
                || Number::Float(n.to_string()),
            ),
        ),
        serde_json::Value::String(s) => JsonValue::String(s.clone()),
        serde_json::Value::Array(items) => JsonValue::Array(items.iter().map(from_serde).collect()),
        serde_json::Value::Object(members) => JsonValue::Object(
            members.iter().map(|(k, m)| (k.clone(), from_serde(m))).collect(),
        ),
    }
}

/// What `serde_json::from_str` makes of a text: the document, or nothing
/// where the text is no JSON.
pub uninterp spec fn json_parsed(text: Seq<char>) -> Option<JsonView>;

/// What `serde_json` writes for a value: its compact JSON text.
pub uninterp spec fn json_text(value: JsonView) -> Seq<char>;

/// What `serde_json::Value::pointer` finds in a value under a JSON Pointer.
pub uninterp spec fn json_pointed(value: JsonView, pointer: Seq<char>) -> Option<JsonView>;

/// The view of an optional JSON value.
pub open spec fn json_option_view(v: Option<JsonValue>) -> Option<JsonView> {
    match v {
        Some(j) => Some(j@),
        None => None,
    }
}

/// Reads a JSON document with `serde_json::from_str`. The document is the
/// one that `serde_json` reads from the text; `None` stands for its error.
/// No object of the document holds a key twice, because `serde_json` holds
/// the members of an object in a map.
#[verifier::external_body]
pub(crate) fn parse_json(text: &str) -> (r: Option<JsonValue>)
    ensures
        json_option_view(r) == json_parsed(text@),
        r matches Some(v) ==> distinct_keys(v@),
{
    serde_json::from_str::<serde_json::Value>(text).ok().map(|v| from_serde(&v))
}

/// Writes a value as compact JSON text, as `serde_json::Value` displays it.
#[verifier::external_body]
pub(crate) fn json_to_string(value: &JsonValue) -> (r: String)
    ensures
        r@ == json_text(value@),
{
    to_serde(value).to_string()
}

/// Looks a value up by a JSON Pointer with `serde_json::Value::pointer`.
/// What is found is a part of a `serde_json::Value`, so none of its objects
/// holds a key twice.
#[verifier::external_body]
pub(crate) fn json_pointer(value: &JsonValue, pointer: &str) -> (r: Option<JsonValue>)
    ensures
        json_option_view(r) == json_pointed(value@, pointer@),
        r matches Some(v) ==> distinct_keys(v@),
{
    to_serde(value).pointer(pointer).map(from_serde)
}

impl JsonValue {
    /// Reads a JSON document from its text. No object of the document
    /// holds a key twice.
    pub fn parse(text: &str) -> (r: Option<JsonValue>)
        ensures
            json_option_view(r) == json_parsed(text@),
            r matches Some(v) ==> distinct_keys(v@),
    {
        parse_json(text)
    }

    /// The compact JSON text of this value.
    pub fn to_text(&self) -> (r: String)
        ensures
            r@ == json_text(self@),
    {
        json_to_string(self)
    }

    /// The value under a JSON Pointer. No object of it holds a key twice.
    pub fn pointer(&self, pointer: &str) -> (r: Option<JsonValue>)
        ensures
            json_option_view(r) == json_pointed(self@, pointer@),
            r matches Some(v) ==> distinct_keys(v@),
    {
        json_pointer(self, pointer)
    }
}

} // verus!
