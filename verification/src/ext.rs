//! The trusted boundary: every call into outside code stands here, behind
//! a small wrapper whose contract Verus believes.  Each wrapper names the
//! outside function it relies on.

use vstd::prelude::*;

verus! {

/// The lowercase conversion of a string, as `str::to_lowercase` computes
/// it; the result depends on the input characters alone.
pub uninterp spec fn lower_of(s: Seq<char>) -> Seq<char>;

/// Relies on `str::to_lowercase`: Unicode lowercase conversion, a pure
/// function of the input string.
#[verifier::external_body]
pub fn lowercase(s: &str) -> (r: String)
    ensures
        r@ == lower_of(s@),
{
    s.to_lowercase()
}

#[verifier::external_type_specification]
#[verifier::external_body]
pub struct ExValue(serde_json::Value);

/// Whether a string is a well-formed JSON document, as `serde_json`'s
/// parser decides it; a deterministic property of the input string.
pub uninterp spec fn json_parses(s: Seq<char>) -> bool;

/// Relies on `serde_json::from_str::<Value>`: parsing an arbitrary JSON
/// value from text succeeds exactly on well-formed JSON documents.
#[verifier::external_body]
pub fn parse_json(s: &str) -> (r: Option<serde_json::Value>)
    ensures
        r is Some <==> json_parses(s@),
{
    match serde_json::from_str::<serde_json::Value>(s) {
        Ok(v) => Some(v),
        Err(_) => None,
    }
}

/// Relies on `serde_json::Value::get` with a string index: the member of
/// a JSON object under that key, or `None` for a missing key or a
/// non-object value.
#[verifier::external_body]
pub fn value_get<'a>(v: &'a serde_json::Value, key: &str) -> (r: Option<&'a serde_json::Value>) {
    v.get(key)
}

/// Relies on `serde_json::Value::as_str`: the text of a JSON string
/// value, or `None` for any other kind of value.
#[verifier::external_body]
pub fn value_as_str<'a>(v: &'a serde_json::Value) -> (r: Option<&'a str>) {
    v.as_str()
}

/// Relies on `serde_json::Value::as_i64`: the value of a JSON integer
/// that fits in an `i64`, or `None`.
#[verifier::external_body]
pub fn value_as_i64(v: &serde_json::Value) -> (r: Option<i64>) {
    v.as_i64()
}

/// Relies on `serde_json::Value::as_bool`: the value of a JSON boolean,
/// or `None` for any other kind of value.
#[verifier::external_body]
pub fn value_as_bool(v: &serde_json::Value) -> (r: Option<bool>) {
    v.as_bool()
}

/// Relies on `serde_json::Value::as_array`: the elements of a JSON
/// array, or `None` for any other kind of value.
#[verifier::external_body]
pub fn value_as_array<'a>(v: &'a serde_json::Value) -> (r: Option<&'a Vec<serde_json::Value>>) {
    v.as_array()
}

/// Relies on `serde_json::to_string_pretty`: the pretty-printed text of a
/// JSON value; serializing a `Value` fails only for maps with non-string
/// keys, which a parsed `Value` cannot hold, and a failure is surfaced
/// here as `None`.
#[verifier::external_body]
pub fn to_pretty_json(v: &serde_json::Value) -> (r: Option<String>) {
    match serde_json::to_string_pretty(v) {
        Ok(s) => Some(s),
        Err(_) => None,
    }
}

/// Relies on `chrono::Utc::now` and `DateTime::format`: the current UTC
/// time rendered as `YYYY-MM-DD HH:MM:SS UTC`.  Nothing is promised of
/// the clock's value.  `Utc::now` panics when the system clock reads
/// before the Unix epoch: an environmental precondition that no contract
/// here can state.
#[verifier::external_body]
pub fn now_utc_string() -> (r: String) {
    chrono::Utc::now().format("%Y-%m-%d %H:%M:%S UTC").to_string()
}

} // verus!
