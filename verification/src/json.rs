//! JSON values as the `serde_json` crate holds them, and the few operations of
//! that crate which the protocol needs. The functions in this file are not
//! proved: each states what the crate's own code does.

use vstd::prelude::*;

verus! {

/// `serde_json::Value`, a parsed JSON document. Its content is known to the
/// verifier only as [`json_of`].
#[verifier::external_type_specification]
#[verifier::external_body]
pub struct ExValue(serde_json::Value);

/// `serde_json::Number`, the number inside a JSON value. It is only carried along.
#[verifier::external_type_specification]
#[verifier::external_body]
pub struct ExNumber(serde_json::Number);

/// A JSON document as a mathematical value. An object is a map from its keys:
/// the crate keeps at most one member per key.
pub enum Json {
    Null,
    Bool(bool),
    Number(serde_json::Number),
    String(Seq<char>),
    Array(Seq<Json>),
    Object(Map<Seq<char>, Json>),
}

/// The member under `key` of a JSON object; nothing for an object without
/// that key, and for a document that is no object.
pub open spec fn member(doc: Json, key: Seq<char>) -> Option<Json> {
    match doc {
        Json::Object(m) => if m.contains_key(key) {
            Some(m[key])
        } else {
            None
        },
        _ => None,
    }
}

/// The document that a `serde_json::Value` holds.
pub uninterp spec fn json_of(v: serde_json::Value) -> Json;

/// What `serde_json::from_str::<Value>` makes of a text: the document, or
/// nothing where the text is not one JSON document.
pub uninterp spec fn json_parse(text: Seq<char>) -> Option<Json>;

/// What `serde_json::to_string` prints for a document: its compact text, or
/// nothing where the crate reports an error.
pub uninterp spec fn json_text(doc: Json) -> Option<Seq<char>>;

/// What `Value::as_i64` gives for a document: the number as an `i64` where
/// it is an integer in that range.
pub uninterp spec fn json_i64(doc: Json) -> Option<i64>;

/// What `Value::as_u64` gives for a document: the number as a `u64` where it
/// is an integer in that range.
pub uninterp spec fn json_u64(doc: Json) -> Option<u64>;

/// Calls `serde_json::from_str` for a `Value`. The result holds the document
/// named [`json_parse`]; a text that the crate rejects gives `None`.
#[verifier::external_body]
pub(crate) fn parse_value(text: &str) -> (r: Option<serde_json::Value>)
    ensures
        match r {
            Some(v) => json_parse(text@) == Some(json_of(v)),
            None => json_parse(text@).is_none(),
        },
{
    match serde_json::from_str::<serde_json::Value>(text) {
        Ok(v) => Some(v),
        Err(_) => None,
    }
}

/// Calls `Value::get` with a string key. It yields the member under that key
/// where the value is an object that has one, and `None` otherwise.
#[verifier::external_body]
pub(crate) fn value_get<'a>(v: &'a serde_json::Value, key: &str) -> (r: Option<&'a serde_json::Value>)
    ensures
        match r {
            Some(found) => member(json_of(*v), key@) == Some(json_of(*found)),
            None => member(json_of(*v), key@).is_none(),
        },
{
    v.get(key)
}

/// Calls `Value::as_str`. It yields the text where the value is a string, and
/// `None` otherwise.
#[verifier::external_body]
pub(crate) fn value_as_str<'a>(v: &'a serde_json::Value) -> (r: Option<&'a str>)
    ensures
        match r {
            Some(s) => json_of(*v) == Json::String(s@),
            None => !(json_of(*v) is String),
        },
{
    v.as_str()
}

/// Calls `Value::as_bool`. It yields the truth value where the value is a
/// boolean, and `None` otherwise.
#[verifier::external_body]
pub(crate) fn value_as_bool(v: &serde_json::Value) -> (r: Option<bool>)
    ensures
        match r {
            Some(b) => json_of(*v) == Json::Bool(b),
            None => !(json_of(*v) is Bool),
        },
{
    v.as_bool()
}

/// `Value::clone`: the copy holds the same document.
pub assume_specification[ <serde_json::Value as Clone>::clone ](v: &serde_json::Value) -> (r:
    serde_json::Value)
    ensures
        json_of(r) == json_of(*v),
;

/// Calls `Value::from` on a string slice. The result is the JSON string with
/// that text.
#[verifier::external_body]
pub(crate) fn value_from_str(s: &str) -> (r: serde_json::Value)
    ensures
        json_of(r) == Json::String(s@),
{
    serde_json::Value::from(s)
}

/// Calls `serde_json::to_string` on a `Value`. The result is the text named
/// [`json_text`]; an error of the crate gives `None`.
#[verifier::external_body]
pub(crate) fn value_to_text(v: &serde_json::Value) -> (r: Option<String>)
    ensures
        match r {
            Some(s) => json_text(json_of(*v)) == Some(s@),
            None => json_text(json_of(*v)).is_none(),
        },
{
    match serde_json::to_string(v) {
        Ok(s) => Some(s),
        Err(_) => None,
    }
}

/// Calls `Value::as_array`. It yields the elements where the value is an
/// array, and `None` otherwise.
#[verifier::external_body]
pub(crate) fn value_as_array<'a>(v: &'a serde_json::Value) -> (r: Option<&'a Vec<serde_json::Value>>)
    ensures
        match r {
            Some(items) => json_of(*v) == Json::Array(
                items@.map_values(|item: serde_json::Value| json_of(item)),
            ),
            None => !(json_of(*v) is Array),
        },
{
    v.as_array()
}

/// Calls `Value::as_i64`. The result is the one named [`json_i64`].
#[verifier::external_body]
pub(crate) fn value_as_i64(v: &serde_json::Value) -> (r: Option<i64>)
    ensures
        r == json_i64(json_of(*v)),
{
    v.as_i64()
}

/// Calls `Value::as_u64`. The result is the one named [`json_u64`].
#[verifier::external_body]
pub(crate) fn value_as_u64(v: &serde_json::Value) -> (r: Option<u64>)
    ensures
        r == json_u64(json_of(*v)),
{
    v.as_u64()
}

} // verus!
