//! The calls into serde_json that the engine makes on plain values.
use vstd::prelude::*;

verus! {

/// What serde_json writes for a string: a JSON string literal with its
/// escapes. It depends on the characters alone.
pub uninterp spec fn json_str_literal(s: Seq<char>) -> Seq<char>;

/// The fields of the JSON object that `s` holds, each key with the text of
/// its value, or `None` where `s` is not a JSON object.
pub uninterp spec fn json_raw_fields(s: Seq<char>) -> Option<Seq<(Seq<char>, Seq<char>)>>;

/// The string that the JSON text `s` holds, or `None` where it holds none.
pub uninterp spec fn json_string(s: Seq<char>) -> Option<Seq<char>>;

/// What the JSON text `s` holds when it is read as a string or `null`, or
/// `None` where it is neither.
pub uninterp spec fn json_opt_string(s: Seq<char>) -> Option<Option<Seq<char>>>;

/// What the JSON text `s` holds when it is read as an array of strings or
/// `null`, or `None` where it is neither.
pub uninterp spec fn json_opt_strings(s: Seq<char>) -> Option<Option<Seq<Seq<char>>>>;

pub open spec fn pairs_view(v: Seq<(String, String)>) -> Seq<(Seq<char>, Seq<char>)> {
    v.map_values(|p: (String, String)| (p.0@, p.1@))
}

/// Relies on serde_json::to_string on a `str`: it writes the string as one
/// JSON string literal, opened and closed by a double quote, and cannot fail.
#[verifier::external_body]
pub(crate) fn quote(s: &str) -> (r: String)
    ensures
        r@ == json_str_literal(s@),
        r@.len() >= 2,
        r@[0] == '"',
        r@.last() == '"',
{
    match serde_json::to_string(s) {
        Ok(t) => t,
        Err(_) => String::from("\"\""),
    }
}

/// Relies on serde_json::from_str into a `BTreeMap<String, Box<RawValue>>`:
/// it accepts a JSON object and keeps each value's text as it stood.
#[verifier::external_body]
pub(crate) fn parse_raw_fields(s: &str) -> (r: Option<Vec<(String, String)>>)
    ensures
        r is None <==> json_raw_fields(s@) is None,
        r is Some ==> pairs_view(r->0@) == json_raw_fields(s@)->0,
{
    serde_json::from_str::<std::collections::BTreeMap<String, Box<serde_json::value::RawValue>>>(s)
        .ok()
        .map(|m| m.into_iter().map(|(k, v)| (k, v.get().to_string())).collect())
}

/// Relies on serde_json::from_str into a `String`: it reads a JSON string.
#[verifier::external_body]
pub(crate) fn parse_string(s: &str) -> (r: Option<String>)
    ensures
        r is None <==> json_string(s@) is None,
        r is Some ==> r->0@ == json_string(s@)->0,
{
    serde_json::from_str::<String>(s).ok()
}

/// Relies on serde_json::from_str into an `Option<String>`: it reads a JSON
/// string, or `null` as `None`.
#[verifier::external_body]
pub(crate) fn parse_opt_string(s: &str) -> (r: Option<Option<String>>)
    ensures
        r is None <==> json_opt_string(s@) is None,
        r is Some ==> match (r->0, json_opt_string(s@)->0) {
            (Some(a), Some(b)) => a@ == b,
            (None, None) => true,
            _ => false,
        },
{
    serde_json::from_str::<Option<String>>(s).ok()
}

/// Relies on serde_json::from_str into an `Option<Vec<String>>`: it reads a
/// JSON array of strings in order, or `null` as `None`.
#[verifier::external_body]
pub(crate) fn parse_opt_strings(s: &str) -> (r: Option<Option<Vec<String>>>)
    ensures
        r is None <==> json_opt_strings(s@) is None,
        r is Some ==> match (r->0, json_opt_strings(s@)->0) {
            (Some(a), Some(b)) => a@.map_values(|x: String| x@) == b,
            (None, None) => true,
            _ => false,
        },
{
    serde_json::from_str::<Option<Vec<String>>>(s).ok()
}

} // verus!
