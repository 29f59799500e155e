//! Trusted boundary to `serde_json`: the parsed JSON value type and the few
//! operations the engine performs on it.
//!
//! A `serde_json::Value` is opaque to the verifier; the engine carries it
//! through and inspects it only through the wrappers below.

use vstd::prelude::*;

verus! {

#[verifier::external_type_specification]
#[verifier::external_body]
pub struct ExValue(serde_json::Value);

#[verifier::external_type_specification]
#[verifier::external_body]
pub struct ExJsonError(serde_json::Error);

/// Whether a byte sequence parses as one complete JSON document. Whether
/// `serde_json::from_slice` succeeds depends on the bytes alone.
pub uninterp spec fn json_parses(bytes: Seq<u8>) -> bool;

/// Relies on `serde_json::from_slice`: parses a byte slice as one JSON
/// document, failing exactly on syntactically invalid or trailing input —
/// a condition of the bytes alone, named [`json_parses`].
#[verifier::external_body]
pub fn parse_json(bytes: &Vec<u8>) -> (r: Result<serde_json::Value, serde_json::Error>)
    ensures
        r is Ok <==> json_parses(bytes@),
{
    serde_json::from_slice(bytes.as_slice())
}

/// Relies on `serde_json::Value::clone`: a clone is the same JSON value.
#[verifier::external_body]
pub fn clone_value(v: &serde_json::Value) -> (r: serde_json::Value)
    ensures
        r == v,
{
    v.clone()
}

/// Relies on `serde_json::Value::get`: the value under `key` when `v` is an
/// object with that key, `None` otherwise.
#[verifier::external_body]
pub fn json_get<'a>(v: &'a serde_json::Value, key: &str) -> Option<&'a serde_json::Value> {
    v.get(key)
}

/// Relies on `serde_json::Value::as_array`: the element vector when `v` is a
/// JSON array, `None` otherwise.
#[verifier::external_body]
pub fn json_as_array(v: &serde_json::Value) -> Option<Vec<serde_json::Value>> {
    match v.as_array() {
        Some(items) => Some(items.clone()),
        None => None,
    }
}

/// Relies on `serde_json::Value::as_u64`: the integer when `v` is a JSON
/// number representable as a `u64`, `None` otherwise.
#[verifier::external_body]
pub fn json_as_u64(v: &serde_json::Value) -> Option<u64> {
    v.as_u64()
}

/// Relies on `serde_json::Value::as_i64`: the integer when `v` is a JSON
/// number representable as an `i64`, `None` otherwise.
#[verifier::external_body]
pub fn json_as_i64(v: &serde_json::Value) -> Option<i64> {
    v.as_i64()
}

/// Relies on `serde_json::Value::as_str`: the text when `v` is a JSON
/// string, `None` otherwise.
#[verifier::external_body]
pub fn json_as_string(v: &serde_json::Value) -> Option<String> {
    match v.as_str() {
        Some(s) => Some(s.to_string()),
        None => None,
    }
}

/// Relies on `serde_json::Value::as_bool`: the boolean when `v` is a JSON
/// boolean, `None` otherwise.
#[verifier::external_body]
pub fn json_as_bool(v: &serde_json::Value) -> Option<bool> {
    v.as_bool()
}

} // verus!
