//! Trusted access to the JSON codec.
//!
//! Response bodies arrive as text; `serde_json` turns them into tree values
//! and hands fields out.  Each item below wraps exactly one `serde_json`
//! function; a parsed `serde_json::Value` itself stays opaque to verification,
//! so everything the verified code learns about a body comes out of these
//! wrappers as plain values.

use vstd::prelude::*;

verus! {

#[verifier::external_type_specification]
#[verifier::external_body]
pub struct ExJsonValue(serde_json::Value);

/// Whether the codec parses this text as a JSON document.  Named rather than
/// spelled out: what parses is the codec's own definition, a function of the
/// text alone; `parse_json` ties the name to it.
pub uninterp spec fn json_ok(s: Seq<char>) -> bool;

/// Relies on serde_json::from_str::<serde_json::Value>: returns Some exactly
/// when the text is a well-formed JSON document; whether a given text is one
/// depends on the text alone.
#[verifier::external_body]
pub(crate) fn parse_json(s: &str) -> (r: Option<serde_json::Value>)
    ensures
        r is Some <==> json_ok(s@),
{
    match serde_json::from_str(s) {
        Ok(v) => Some(v),
        Err(_) => None,
    }
}

/// Relies on serde_json::Value::get with a string index: returns Some exactly
/// when the value is an object that has this key.
#[verifier::external_body]
pub(crate) fn json_get<'a>(v: &'a serde_json::Value, key: &str) -> Option<&'a serde_json::Value> {
    v.get(key)
}

/// Relies on serde_json::Value::as_str: returns Some exactly when the value is
/// a JSON string; the returned copy carries that string's characters.
#[verifier::external_body]
pub(crate) fn json_as_string(v: &serde_json::Value) -> Option<String> {
    match v.as_str() {
        Some(s) => Some(s.to_owned()),
        None => None,
    }
}

/// Relies on serde_json::Value::as_u64: returns Some exactly when the value is
/// an unsigned integer representable in 64 bits.
#[verifier::external_body]
pub(crate) fn json_as_u64(v: &serde_json::Value) -> Option<u64> {
    v.as_u64()
}

/// Relies on serde_json::Value::as_bool: returns Some exactly when the value
/// is a JSON boolean.
#[verifier::external_body]
pub(crate) fn json_as_bool(v: &serde_json::Value) -> Option<bool> {
    v.as_bool()
}

/// Relies on serde_json::Value::as_array: returns Some exactly when the value
/// is a JSON array.
#[verifier::external_body]
pub(crate) fn json_as_array<'a>(v: &'a serde_json::Value) -> Option<&'a Vec<serde_json::Value>> {
    v.as_array()
}

/// The string under `key`, if `v` is an object that maps `key` to a string.
pub(crate) fn get_string_field(v: &serde_json::Value, key: &str) -> Option<String> {
    match json_get(v, key) {
        Some(field) => json_as_string(field),
        None => None,
    }
}

/// The integer under `key`, if `v` is an object that maps `key` to an
/// unsigned integer.
pub(crate) fn get_u64_field(v: &serde_json::Value, key: &str) -> Option<u64> {
    match json_get(v, key) {
        Some(field) => json_as_u64(field),
        None => None,
    }
}

/// The boolean under `key`, if `v` is an object that maps `key` to a boolean.
pub(crate) fn get_bool_field(v: &serde_json::Value, key: &str) -> Option<bool> {
    match json_get(v, key) {
        Some(field) => json_as_bool(field),
        None => None,
    }
}

} // verus!
