//! JSON documents, read with `serde_json`.
//!
//! [`Json`] is the mathematical model of a document. The functions at the
//! end of this module hand one call each to `serde_json`; nothing is proved
//! of them, and their contracts say over the model what `serde_json`
//! documents of the call. The rest of the library reasons over the model.

use vstd::prelude::*;
use serde_json::Value;

verus! {

/// A JSON value.
pub ghost enum Json {
    /// `null`
    Null,
    /// `true` or `false`
    Bool(bool),
    /// A number, as the bit pattern of the double nearest to it.
    Number(u64),
    /// A string, as its characters.
    Text(Seq<char>),
    /// An array, as its elements in order.
    Array(Seq<Json>),
    /// An object, as its members by key.
    Object(Map<Seq<char>, Json>),
}

impl Json {
    /// The member under `key`, where this is an object that has one.
    pub open spec fn member(self, key: Seq<char>) -> Option<Json> {
        match self {
            Json::Object(members) => if members.contains_key(key) {
                Some(members[key])
            } else {
                None
            },
            _ => None,
        }
    }

    /// The characters, where this is a string.
    pub open spec fn text(self) -> Option<Seq<char>> {
        match self {
            Json::Text(characters) => Some(characters),
            _ => None,
        }
    }

    /// The bit pattern of the double, where this is a number.
    pub open spec fn number(self) -> Option<u64> {
        match self {
            Json::Number(bits) => Some(bits),
            _ => None,
        }
    }
}

/// `serde_json::Value`, a parsed JSON document or a part of one.
#[verifier::external_type_specification]
#[verifier::external_body]
pub struct ExValue(serde_json::Value);

/// The JSON value that a `serde_json::Value` holds.
pub uninterp spec fn json_value(value: Value) -> Json;

/// The document that `serde_json::from_str` reads from `text`, where it
/// accepts `text` as one JSON document.
pub uninterp spec fn json_parse(text: Seq<char>) -> Option<Json>;

/// The view of an optional reference to a `serde_json::Value`.
pub open spec fn json_view(found: Option<&Value>) -> Option<Json> {
    match found {
        Some(value) => Some(json_value(*value)),
        None => None,
    }
}

/// Parses `text` with `serde_json::from_str`, at the type `Value`.
///
/// Claimed: the value that comes back holds the document named by
/// [`json_parse`], and text that `serde_json` rejects gives `None`.
#[verifier::external_body]
pub(crate) fn parse_document(text: &str) -> (document: Option<Value>)
    ensures
        match document {
            Some(value) => json_parse(text@) == Some(json_value(value)),
            None => json_parse(text@).is_none(),
        },
{
    serde_json::from_str::<Value>(text).ok()
}

/// Looks `key` up with `Value::get`.
///
/// Claimed: a `Value` that is an object with a member under `key` gives
/// that member; an object without one, and a `Value` that is no object,
/// gives `None`.
#[verifier::external_body]
pub(crate) fn member<'a>(value: &'a Value, key: &str) -> (found: Option<&'a Value>)
    ensures
        json_view(found) == json_value(*value).member(key@),
{
    value.get(key)
}

/// Reads a string with `Value::as_str`.
///
/// Claimed: a `Value` that is a string gives its characters; any other
/// gives `None`.
#[verifier::external_body]
pub(crate) fn text_of(value: &Value) -> (text: Option<String>)
    ensures
        match text {
            Some(s) => json_value(*value).text() == Some(s@),
            None => json_value(*value).text().is_none(),
        },
{
    value.as_str().map(|s| s.to_owned())
}

/// Reads a number with `Value::as_f64` and takes the bit pattern of the
/// double.
///
/// Claimed: a `Value` that is a number gives the bit pattern of the double
/// that `as_f64` represents it as; any other gives `None`.
#[verifier::external_body]
pub(crate) fn number_of(value: &Value) -> (bits: Option<u64>)
    ensures
        bits == json_value(*value).number(),
{
    value.as_f64().map(|x| x.to_bits())
}

} // verus!
