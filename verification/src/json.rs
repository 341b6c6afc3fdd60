//! Trusted bridge to the JSON decoder.
//!
//! The vendor descriptor files and the remote metadata bodies are JSON
//! documents; the engine reads single fields out of them through the small
//! functions below, which call into serde_json. Each reader's result is a
//! pure function of the document text and the path arguments alone, so it is
//! given a name here; everything the engine then does with those fields is
//! verified against the names.
use vstd::prelude::*;

verus! {

/// Whether the JSON decoder accepts the text as one well-formed document.
pub uninterp spec fn json_wf(s: Seq<char>) -> bool;

/// The string value at a top-level key of the document, if the document
/// parses, the key is present and its value is a string.
pub uninterp spec fn str_field_of(s: Seq<char>, key: Seq<char>) -> Option<Seq<char>>;

/// The unsigned integer value at a top-level key, under the same conditions.
pub uninterp spec fn u64_field_of(s: Seq<char>, key: Seq<char>) -> Option<u64>;

/// The signed integer value at a top-level key, under the same conditions.
pub uninterp spec fn i64_field_of(s: Seq<char>, key: Seq<char>) -> Option<i64>;

/// The boolean value at a top-level key, under the same conditions.
pub uninterp spec fn bool_field_of(s: Seq<char>, key: Seq<char>) -> Option<bool>;

/// The length of the array at a top-level key, under the same conditions.
pub uninterp spec fn list_len_of(s: Seq<char>, key: Seq<char>) -> Option<usize>;

/// The string value at key `sub` inside element `idx` of the array at a
/// top-level key, under the same conditions.
pub uninterp spec fn list_str_field_of(
    s: Seq<char>,
    key: Seq<char>,
    idx: usize,
    sub: Seq<char>,
) -> Option<Seq<char>>;

/// Relies on serde_json::from_str::<Value>: whether the text parses as JSON.
#[verifier::external_body]
pub fn text_is_json(text: &str) -> (r: bool)
    ensures
        r == json_wf(text@),
{
    serde_json::from_str::<serde_json::Value>(text).is_ok()
}

/// Relies on serde_json::from_str, Value::get and Value::as_str: the string
/// at a top-level key, or nothing when the text does not parse, the key is
/// absent, or the value is not a string.
#[verifier::external_body]
pub fn read_str_field(text: &str, key: &str) -> (r: Option<String>)
    ensures
        match r {
            Some(v) => str_field_of(text@, key@) == Some(v@),
            None => str_field_of(text@, key@) is None,
        },
        !json_wf(text@) ==> r is None,
{
    match serde_json::from_str::<serde_json::Value>(text) {
        Ok(doc) => doc.get(key).and_then(|v| v.as_str()).map(|s| s.to_string()),
        Err(_) => None,
    }
}

/// Relies on serde_json::from_str, Value::get and Value::as_u64: the
/// unsigned integer at a top-level key, or nothing.
#[verifier::external_body]
pub fn read_u64_field(text: &str, key: &str) -> (r: Option<u64>)
    ensures
        r == u64_field_of(text@, key@),
        !json_wf(text@) ==> r is None,
{
    match serde_json::from_str::<serde_json::Value>(text) {
        Ok(doc) => doc.get(key).and_then(|v| v.as_u64()),
        Err(_) => None,
    }
}

/// Relies on serde_json::from_str, Value::get and Value::as_i64: the signed
/// integer at a top-level key, or nothing.
#[verifier::external_body]
pub fn read_i64_field(text: &str, key: &str) -> (r: Option<i64>)
    ensures
        r == i64_field_of(text@, key@),
        !json_wf(text@) ==> r is None,
{
    match serde_json::from_str::<serde_json::Value>(text) {
        Ok(doc) => doc.get(key).and_then(|v| v.as_i64()),
        Err(_) => None,
    }
}

/// Relies on serde_json::from_str, Value::get and Value::as_bool: the
/// boolean at a top-level key, or nothing.
#[verifier::external_body]
pub fn read_bool_field(text: &str, key: &str) -> (r: Option<bool>)
    ensures
        r == bool_field_of(text@, key@),
        !json_wf(text@) ==> r is None,
{
    match serde_json::from_str::<serde_json::Value>(text) {
        Ok(doc) => doc.get(key).and_then(|v| v.as_bool()),
        Err(_) => None,
    }
}

/// Relies on serde_json::from_str, Value::get and Value::as_array: the
/// number of elements of the array at a top-level key, or nothing.
#[verifier::external_body]
pub fn read_list_len(text: &str, key: &str) -> (r: Option<usize>)
    ensures
        r == list_len_of(text@, key@),
        !json_wf(text@) ==> r is None,
{
    match serde_json::from_str::<serde_json::Value>(text) {
        Ok(doc) => doc.get(key).and_then(|v| v.as_array()).map(|a| a.len()),
        Err(_) => None,
    }
}

/// Relies on serde_json::from_str, Value::get and Value::as_str: the string
/// at key `sub` of element `idx` of the array at a top-level key, or nothing.
#[verifier::external_body]
pub fn read_list_str_field(text: &str, key: &str, idx: usize, sub: &str) -> (r: Option<String>)
    ensures
        match r {
            Some(v) => list_str_field_of(text@, key@, idx, sub@) == Some(v@),
            None => list_str_field_of(text@, key@, idx, sub@) is None,
        },
        !json_wf(text@) ==> r is None,
{
    match serde_json::from_str::<serde_json::Value>(text) {
        Ok(doc) => doc
            .get(key)
            .and_then(|a| a.get(idx))
            .and_then(|e| e.get(sub))
            .and_then(|v| v.as_str())
            .map(|s| s.to_string()),
        Err(_) => None,
    }
}

} // verus!
