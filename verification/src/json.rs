//! Trusted access to JSON documents, used to normalize the raw output of
//! external analysis tools.
//!
//! A JSON value is opaque to the verifier; the wrappers below only move
//! values through, and every decision over their contents is made by
//! verified code.

use vstd::prelude::*;

verus! {

#[verifier::external_type_specification]
#[verifier::external_body]
pub struct ExValue(serde_json::Value);

/// Relies on serde_json::from_str for Value: `Some` exactly when the text
/// is a well-formed JSON document.
#[verifier::external_body]
pub fn json_parse(s: &str) -> (r: Option<serde_json::Value>) {
    serde_json::from_str::<serde_json::Value>(s).ok()
}

/// Relies on serde_json::Value::get: the member of a JSON object under a
/// key, when the value is an object holding that key.
#[verifier::external_body]
pub fn json_get<'a>(v: &'a serde_json::Value, key: &str) -> (r: Option<&'a serde_json::Value>) {
    v.get(key)
}

/// Relies on serde_json::Value::as_str: the borrowed text of a JSON
/// string value.
#[verifier::external_body]
pub fn json_as_str<'a>(v: &'a serde_json::Value) -> (r: Option<&'a str>) {
    v.as_str()
}

/// Relies on serde_json::Value::as_array: the borrowed element vector of
/// a JSON array value.
#[verifier::external_body]
pub fn json_as_array<'a>(v: &'a serde_json::Value) -> (r: Option<&'a Vec<serde_json::Value>>) {
    v.as_array()
}

/// Relies on serde_json::Value's Display implementation: the compact
/// JSON text of a value.
#[verifier::external_body]
pub fn json_to_string(v: &serde_json::Value) -> (r: String) {
    v.to_string()
}

/// Relies on serde_json::Value::as_u64: the numeric value of a JSON
/// number representable as a `u64`.
#[verifier::external_body]
pub fn json_as_u64(v: &serde_json::Value) -> (r: Option<u64>) {
    v.as_u64()
}

} // verus!
