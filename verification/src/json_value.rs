//! Trusted boundary to serde_json: the opaque JSON value type and the few
//! probes that the reply and create-response readers compose. The readers
//! themselves are verified; only these single calls are taken on trust.

use vstd::prelude::*;

verus! {

#[verifier::external_type_specification]
#[verifier::external_body]
pub struct ExValue(serde_json::Value);

/// Whether the text is JSON: what serde_json::from_str accepts.
pub uninterp spec fn is_json_text(s: Seq<char>) -> bool;

/// Whether the bytes are JSON: what serde_json::from_slice accepts.
pub uninterp spec fn is_json_bytes(b: Seq<u8>) -> bool;

/// Relies on serde_json::from_str::<Value>: parsing succeeds exactly on text
/// that is JSON; a failure is carried as the parser's display text.
#[verifier::external_body]
pub fn parse_json(s: &str) -> (r: Result<serde_json::Value, String>)
    ensures
        r is Ok <==> is_json_text(s@),
{
    match serde_json::from_str::<serde_json::Value>(s) {
        Ok(v) => Ok(v),
        Err(e) => Err(e.to_string()),
    }
}

/// Relies on serde_json::from_slice::<Value>: parsing succeeds exactly on
/// bytes that are JSON; a failure is carried as the parser's display text.
#[verifier::external_body]
pub fn parse_json_bytes(b: &[u8]) -> (r: Result<serde_json::Value, String>)
    ensures
        r is Ok <==> is_json_bytes(b@),
{
    match serde_json::from_slice::<serde_json::Value>(b) {
        Ok(v) => Ok(v),
        Err(e) => Err(e.to_string()),
    }
}

/// Relies on Value::is_object.
#[verifier::external_body]
pub fn value_is_object(v: &serde_json::Value) -> bool {
    v.is_object()
}

/// Relies on Value::get: the member of an object under the given key; `None`
/// on a missing key or a non-object.
#[verifier::external_body]
pub fn value_get<'a>(v: &'a serde_json::Value, key: &str) -> Option<&'a serde_json::Value> {
    v.get(key)
}

/// Relies on Value::as_str, the borrowed text made owned.
#[verifier::external_body]
pub fn value_as_string(v: &serde_json::Value) -> Option<String> {
    match v.as_str() {
        Some(s) => Some(s.to_string()),
        None => None,
    }
}

/// Relies on Value::as_u64.
#[verifier::external_body]
pub fn value_as_u64(v: &serde_json::Value) -> Option<u64> {
    v.as_u64()
}

/// Relies on Value::as_array.
#[verifier::external_body]
pub fn value_as_array<'a>(v: &'a serde_json::Value) -> Option<&'a Vec<serde_json::Value>> {
    v.as_array()
}

} // verus!
