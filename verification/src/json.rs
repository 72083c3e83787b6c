//! A JSON document tree, as decoded from the wire: numbers by the text the
//! decoder prints them with, objects by their members sorted by name (a
//! repeated name keeps its last value).
use vstd::prelude::*;
use serde_json::Value;

verus! {

#[derive(Debug, PartialEq)]
pub enum Json {
    Null,
    Bool(bool),
    Number(String),
    Str(String),
    Array(Vec<Json>),
    Object(Vec<(String, Json)>),
}

impl Json {
    /// `Value::is_null`.
    pub fn is_null(&self) -> (r: bool)
        ensures
            r == (*self is Null),
    {
        match self {
            Json::Null => true,
            _ => false,
        }
    }
}


/// The views of a list of strings.
pub open spec fn views(v: Seq<String>) -> Seq<Seq<char>> {
    v.map_values(|s: String| s@)
}

/// What `serde_json::from_str::<Vec<String>>` makes of a text: the strings of
/// a JSON array of strings, or the message of the decoder's error.
pub uninterp spec fn decoded_string_list(text: Seq<char>) -> Result<Seq<Seq<char>>, Seq<char>>;

/// `serde_json::from_str::<Vec<String>>(text)`, its error given by its
/// message (`to_string`). The decoding and the message are functions of the
/// text alone.
#[verifier::external_body]
pub(crate) fn decode_string_list(text: &str) -> (r: Result<Vec<String>, String>)
    ensures
        match r {
            Ok(v) => decoded_string_list(text@) == Ok::<Seq<Seq<char>>, Seq<char>>(views(v@)),
            Err(e) => decoded_string_list(text@) == Err::<Seq<Seq<char>>, Seq<char>>(e@),
        },
{
    serde_json::from_str::<Vec<String>>(text).map_err(|e| e.to_string())
}

/// What `serde_json::from_str::<serde_json::Value>` makes of a text, as a
/// `Json` tree (numbers by their text, object members in the decoded map's
/// order), or the message of the decoder's error.
pub uninterp spec fn decoded_json(text: Seq<char>) -> Result<Json, Seq<char>>;

/// `serde_json::from_str::<serde_json::Value>(text)`, converted variant by
/// variant into a `Json` tree; its error given by its message (`to_string`).
/// Nested values are converted by decoding their own text again, which
/// always succeeds for a value the decoder produced. The result is a
/// function of the text alone.
#[verifier::external_body]
pub(crate) fn decode_json(text: &str) -> (r: Result<Json, String>)
    ensures
        match r {
            Ok(j) => decoded_json(text@) == Ok::<Json, Seq<char>>(j),
            Err(e) => decoded_json(text@) == Err::<Json, Seq<char>>(e@),
        },
{
    let nested = |x: &Value| decode_json(&x.to_string()).unwrap_or(Json::Null);
    serde_json::from_str::<Value>(text).map_err(|e| e.to_string()).map(|v| match v {
        Value::Null => Json::Null,
        Value::Bool(b) => Json::Bool(b),
        Value::Number(n) => Json::Number(n.to_string()),
        Value::String(s) => Json::Str(s),
        Value::Array(a) => Json::Array(a.iter().map(nested).collect()),
        Value::Object(o) => Json::Object(o.iter().map(|(k, x)| (k.clone(), nested(x))).collect()),
    })
}

} // verus!
