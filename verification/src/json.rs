//! Trusted access to JSON documents. Parsing is done by `serde_json`; the
//! library sees the result only through the named functions below.

use vstd::prelude::*;

verus! {

/// The string value at `key` in the JSON object that `doc` encodes, or
/// `None` when `doc` is not a JSON object, the key is absent, or the value
/// at it is not a string. Parsing is deterministic: the same document and
/// key always give the same answer.
pub uninterp spec fn json_str_field(doc: Seq<char>, key: Seq<char>) -> Option<Seq<char>>;

/// The string value at `key` inside the object at `section` of the JSON
/// object that `doc` encodes; `None` when any step of that path is absent
/// or of the wrong shape.
pub uninterp spec fn json_nested_str_field(
    doc: Seq<char>,
    section: Seq<char>,
    key: Seq<char>,
) -> Option<Seq<char>>;

/// Relies on `serde_json::from_str` to parse `doc` and on
/// `serde_json::Value::get` / `Value::as_str` to pick the string value at
/// `key`; both are pure functions of their input.
#[verifier::external_body]
pub(crate) fn get_str_field(doc: &str, key: &str) -> (r: Option<String>)
    ensures
        match r {
            Some(s) => json_str_field(doc@, key@) == Some(s@),
            None => json_str_field(doc@, key@) is None,
        },
{
    let v: serde_json::Value = match serde_json::from_str(doc) {
        Ok(v) => v,
        Err(_) => return None,
    };
    match v.get(key) {
        Some(f) => f.as_str().map(|s| s.to_string()),
        None => None,
    }
}

/// Relies on `serde_json::from_str` to parse `doc` and on
/// `serde_json::Value::get` / `Value::as_str` to descend one section and
/// pick the string value at `key`; both are pure functions of their input.
#[verifier::external_body]
pub(crate) fn get_nested_str_field(doc: &str, section: &str, key: &str) -> (r: Option<String>)
    ensures
        match r {
            Some(s) => json_nested_str_field(doc@, section@, key@) == Some(s@),
            None => json_nested_str_field(doc@, section@, key@) is None,
        },
{
    let v: serde_json::Value = match serde_json::from_str(doc) {
        Ok(v) => v,
        Err(_) => return None,
    };
    match v.get(section) {
        Some(sec) => match sec.get(key) {
            Some(f) => f.as_str().map(|s| s.to_string()),
            None => None,
        },
        None => None,
    }
}

} // verus!
