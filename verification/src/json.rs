//! A plain tree model of a parsed JSON document, and the trusted boundary
//! to the generic JSON parser and to string-escape decoding.
//!
//! The search-index format is decoded by verified code walking a `Json`
//! tree; only producing that tree from text is delegated to an outside
//! parser.

use vstd::prelude::*;

verus! {

/// A parsed JSON value as plain data.
///
/// Numbers are modeled as unsigned integers, which is all the search-index
/// encoding uses; any other number is kept as `BadNum` so that decoding can
/// reject it. Object members are kept as an ordered list of key/value pairs.
#[derive(Debug)]
pub enum Json {
    Null,
    Bool(bool),
    Num(u64),
    BadNum,
    Str(String),
    Arr(Vec<Json>),
    Obj(Vec<(String, Json)>),
}

/// The JSON tree a text parses to, if it is well-formed JSON; the parse
/// depends on the text alone.
pub uninterp spec fn json_of(s: Seq<char>) -> Option<Json>;

/// The string a backslash-escaped text decodes to, if every escape in it is
/// well-formed; the decoding depends on the characters alone.
pub uninterp spec fn unescaped(s: Seq<char>) -> Option<Seq<char>>;

/// Relies on unescape::unescape: decodes backslash escapes, returning None
/// on a malformed escape; the result depends on the input characters alone.
#[verifier::external_body]
pub(crate) fn unescape_str(s: &str) -> (r: Option<String>)
    ensures
        match r {
            Some(t) => unescaped(s@) == Some(t@),
            None => unescaped(s@) is None,
        },
{
    unescape::unescape(s)
}

#[verifier::external_type_specification]
#[verifier::external_body]
pub struct ExValue(serde_json::Value);

/// Relies on the serde_json::Value tree: maps each parsed variant to its
/// plain counterpart, one arm per variant; integers that do not fit u64
/// become BadNum.
#[verifier::external_body]
fn value_to_json(v: serde_json::Value) -> Json {
    match v {
        serde_json::Value::Null => Json::Null,
        serde_json::Value::Bool(b) => Json::Bool(b),
        serde_json::Value::Number(n) => match n.as_u64() {
            Some(u) => Json::Num(u),
            None => Json::BadNum,
        },
        serde_json::Value::String(s) => Json::Str(s),
        serde_json::Value::Array(a) => Json::Arr(a.into_iter().map(value_to_json).collect()),
        serde_json::Value::Object(o) => Json::Obj(o.into_iter().map(|(k, w)| (k, value_to_json(w))).collect()),
    }
}

/// Relies on serde_json::from_str::<Value>: parses a JSON text, failing
/// exactly on malformed JSON; the parsed tree depends on the text alone and
/// is handed back as a plain `Json` value.
#[verifier::external_body]
pub(crate) fn parse_json(s: &str) -> (r: Result<Json, String>)
    ensures
        (r is Ok) == (json_of(s@) is Some),
        r matches Ok(j) ==> json_of(s@) == Some(j),
{
    match serde_json::from_str::<serde_json::Value>(s) {
        Ok(v) => Ok(value_to_json(v)),
        Err(e) => Err(e.to_string()),
    }
}

} // verus!
