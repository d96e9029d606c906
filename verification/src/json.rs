//! Trusted access to JSON text through serde_json.
//!
//! The downloader's metadata mode and the release feed both answer in
//! JSON.  What a parse returns is a function of the text alone, but far
//! too large to state, so each reading below is given a name (an
//! uninterpreted spec function of the text), and every wrapper's contract
//! speaks only through these names.  The verified logic of the crate then
//! works with the plain values the wrappers hand out.

use vstd::prelude::*;

use crate::strutil::view_opt;

verus! {

/// What parsing `s` as one JSON document reports: nothing when `s` is
/// well formed, otherwise the parse error's message.
pub uninterp spec fn json_parse_err(s: Seq<char>) -> Option<Seq<char>>;

/// `s` is one well-formed JSON document.
pub open spec fn json_parses(s: Seq<char>) -> bool {
    json_parse_err(s) is None
}

/// The string field named `k` of the JSON document `s`; absent when `s`
/// does not parse, is not an object, lacks `k`, or holds no string there.
pub uninterp spec fn json_str_field(s: Seq<char>, k: Seq<char>) -> Option<Seq<char>>;

/// The field named `k` of the JSON document `s`, when it is a number
/// representable as a `u64`.
pub uninterp spec fn json_u64_field(s: Seq<char>, k: Seq<char>) -> Option<u64>;

/// The length of the array field named `k` of the JSON document `s`;
/// absent when `s` does not parse or `k` is no array there.
pub uninterp spec fn json_arr_len(s: Seq<char>, k: Seq<char>) -> Option<usize>;

/// The string field named `k2` of element `i` of the array field `k` of
/// the JSON document `s`.
pub uninterp spec fn json_arr_str_field(s: Seq<char>, k: Seq<char>, i: int, k2: Seq<char>) -> Option<
    Seq<char>,
>;

/// The `u64` field named `k2` of element `i` of the array field `k` of
/// the JSON document `s`.
pub uninterp spec fn json_arr_u64_field(s: Seq<char>, k: Seq<char>, i: int, k2: Seq<char>) -> Option<
    u64,
>;

/// Relies on `serde_json::from_str::<Value>`: whether `line` is one
/// well-formed JSON document, and the parse error's message when not.
/// The outcome is a function of the text alone.
#[verifier::external_body]
pub fn json_check(line: &String) -> (r: Result<(), String>)
    ensures
        r is Ok <==> json_parses(line@),
        r matches Err(m) ==> json_parse_err(line@) == Some(m@),
{
    match serde_json::from_str::<serde_json::Value>(line) {
        Ok(_) => Ok(()),
        Err(e) => Err(e.to_string()),
    }
}

/// Relies on `serde_json::from_str::<Value>`, `Value::get` and
/// `Value::as_str`: the string field `k` of the document `line`, a
/// function of the text alone.
#[verifier::external_body]
pub fn json_get_str(line: &String, k: &str) -> (r: Option<String>)
    ensures
        view_opt(r) == json_str_field(line@, k@),
{
    let v: serde_json::Value = serde_json::from_str(line).ok()?;
    v.get(k)?.as_str().map(|t| t.to_string())
}

/// Relies on `serde_json::from_str::<Value>`, `Value::get` and
/// `Value::as_u64`: the `u64` field `k` of the document `line`, a
/// function of the text alone.
#[verifier::external_body]
pub fn json_get_u64(line: &String, k: &str) -> (r: Option<u64>)
    ensures
        r == json_u64_field(line@, k@),
{
    let v: serde_json::Value = serde_json::from_str(line).ok()?;
    v.get(k)?.as_u64()
}

/// Relies on `serde_json::from_str::<Value>`, `Value::get` and
/// `Value::as_array`: the length of the array field `k` of the document
/// `line`, a function of the text alone.
#[verifier::external_body]
pub fn json_get_arr_len(line: &String, k: &str) -> (r: Option<usize>)
    ensures
        r == json_arr_len(line@, k@),
{
    let v: serde_json::Value = serde_json::from_str(line).ok()?;
    Some(v.get(k)?.as_array()?.len())
}

/// Relies on `serde_json::from_str::<Value>`, `Value::get`,
/// `Value::as_array` and `Value::as_str`: the string field `k2` of
/// element `i` of the array field `k`, a function of the text alone.
#[verifier::external_body]
pub fn json_get_arr_str(line: &String, k: &str, i: usize, k2: &str) -> (r: Option<String>)
    ensures
        view_opt(r) == json_arr_str_field(line@, k@, i as int, k2@),
{
    let v: serde_json::Value = serde_json::from_str(line).ok()?;
    v.get(k)?.as_array()?.get(i)?.get(k2)?.as_str().map(|t| t.to_string())
}

/// Relies on `serde_json::from_str::<Value>`, `Value::get`,
/// `Value::as_array` and `Value::as_u64`: the `u64` field `k2` of
/// element `i` of the array field `k`, a function of the text alone.
#[verifier::external_body]
pub fn json_get_arr_u64(line: &String, k: &str, i: usize, k2: &str) -> (r: Option<u64>)
    ensures
        r == json_arr_u64_field(line@, k@, i as int, k2@),
{
    let v: serde_json::Value = serde_json::from_str(line).ok()?;
    v.get(k)?.as_array()?.get(i)?.get(k2)?.as_u64()
}

} // verus!
