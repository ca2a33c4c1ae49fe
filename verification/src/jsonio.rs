//! The trusted boundary to the JSON parser.
//!
//! The daemon speaks JSON; decoding it is the one job this crate hands
//! to an outside parser.  A parsed document is opaque here: these
//! declarations let the verified payload walkers hold such a document
//! and read it member by member, as plain values.

use vstd::prelude::*;

verus! {

#[verifier::external_type_specification]
#[verifier::external_body]
pub struct ExJsonValue(serde_json::Value);

/// Whether the bytes are one well-formed JSON document; a function of
/// the bytes alone.
pub uninterp spec fn json_parses(bytes: Seq<u8>) -> bool;

/// Relies on serde_json::from_slice::<serde_json::Value>: parses the
/// bytes as one JSON document, succeeding exactly on the well-formed
/// ones; a failure's diagnostic is carried as text.
#[verifier::external_body]
pub(crate) fn parse_json(bytes: &[u8]) -> (r: Result<serde_json::Value, String>)
    ensures
        r is Ok <==> json_parses(bytes@),
{
    match serde_json::from_slice(bytes) {
        Ok(v) => Ok(v),
        Err(e) => Err(e.to_string()),
    }
}

/// Relies on serde_json::Value::get with a string index: the member of
/// a JSON object under the key; `None` for an absent key or a
/// non-object.
#[verifier::external_body]
pub(crate) fn json_get<'a>(v: &'a serde_json::Value, key: &str) -> Option<&'a serde_json::Value> {
    v.get(key)
}

/// Relies on serde_json::Value::as_bool: the value of a JSON boolean,
/// `None` for anything else.
#[verifier::external_body]
pub(crate) fn json_bool(v: &serde_json::Value) -> Option<bool> {
    v.as_bool()
}

/// Relies on serde_json::Value::as_str: the text of a JSON string,
/// `None` for anything else.
#[verifier::external_body]
pub(crate) fn json_str(v: &serde_json::Value) -> Option<String> {
    match v.as_str() {
        Some(s) => Some(s.to_string()),
        None => None,
    }
}

/// Relies on serde_json::Value::as_array: the elements of a JSON
/// array, `None` for anything else.
#[verifier::external_body]
pub(crate) fn json_array<'a>(v: &'a serde_json::Value) -> Option<&'a Vec<serde_json::Value>> {
    v.as_array()
}

/// Relies on serde_json::Value::as_object and serde_json::Map::values:
/// the member values of a JSON object, `None` for anything else.
#[verifier::external_body]
pub(crate) fn json_object_values<'a>(v: &'a serde_json::Value) -> Option<
    Vec<&'a serde_json::Value>,
> {
    match v.as_object() {
        Some(m) => Some(m.values().collect()),
        None => None,
    }
}

/// Relies on serde_json::Value::is_null: whether the value is JSON
/// null.
#[verifier::external_body]
pub(crate) fn json_is_null(v: &serde_json::Value) -> bool {
    v.is_null()
}

} // verus!
