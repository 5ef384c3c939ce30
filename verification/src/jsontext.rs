//! Parsing and pretty-printing of JSON text, through `serde_json`.
//!
//! The two directions are named rather than specified: what a given text
//! parses to, and how a given value prints, are functions of the argument
//! alone, and the contracts of the callers speak of those names exactly.

use vstd::prelude::*;

use crate::json::{Jv, JsonValue};

verus! {

/// `serde_json::Value`, declared so that conversion helpers can name it.
#[verifier::external_type_specification]
#[verifier::external_body]
pub struct ExSerdeValue(serde_json::Value);

/// What a JSON text parses to: the shape of the parsed document, or the
/// parser's message. Parsing is a function of the text alone.
pub uninterp spec fn json_parse(s: Seq<char>) -> Result<Jv, Seq<char>>;

/// How a document prints with an indented layout: a function of the shape
/// alone.
pub uninterp spec fn json_pretty(v: Jv) -> Seq<char>;

/// Relies on `serde_json::Value` variant accessors: rebuilds the parsed
/// document as plain data, with each number kept in its printed form.
#[verifier::external_body]
fn from_serde(v: &serde_json::Value) -> JsonValue {
    match v {
        serde_json::Value::Null => JsonValue::Null,
        serde_json::Value::Bool(b) => JsonValue::Bool(*b),
        serde_json::Value::Number(n) => JsonValue::Number(n.to_string()),
        serde_json::Value::String(s) => JsonValue::Text(s.clone()),
        serde_json::Value::Array(xs) => JsonValue::Array(xs.iter().map(from_serde).collect()),
        serde_json::Value::Object(m) => JsonValue::Object(
            m.iter().map(|(k, x)| (k.clone(), from_serde(x))).collect(),
        ),
    }
}

/// Relies on `serde_json::Value` constructors: rebuilds plain data as a
/// `serde_json` document; a number whose text no longer reads as a JSON
/// number becomes null.
#[verifier::external_body]
fn to_serde(v: &JsonValue) -> serde_json::Value {
    match v {
        JsonValue::Null => serde_json::Value::Null,
        JsonValue::Bool(b) => serde_json::Value::Bool(*b),
        JsonValue::Number(n) => match serde_json::from_str::<serde_json::Number>(n.as_str()) {
            Result::Ok(num) => serde_json::Value::Number(num),
            Result::Err(_) => serde_json::Value::Null,
        },
        JsonValue::Text(s) => serde_json::Value::String(s.clone()),
        JsonValue::Array(xs) => serde_json::Value::Array(xs.iter().map(to_serde).collect()),
        JsonValue::Object(m) => serde_json::Value::Object(
            m.iter().map(|(k, x)| (k.clone(), to_serde(x))).collect(),
        ),
    }
}

/// Relies on `serde_json::from_str::<serde_json::Value>`: parses a JSON
/// text, returning the document named by [`json_parse`], or the parser's
/// message on the texts [`json_parse`] rejects.
#[verifier::external_body]
pub fn parse_json(text: &str) -> (r: Result<JsonValue, String>)
    ensures
        r is Ok <==> json_parse(text@) is Ok,
        r matches Result::Ok(v) ==> (json_parse(text@) matches Result::Ok(j) && v@ == j),
        r matches Result::Err(e) ==> (json_parse(text@) matches Result::Err(s) && e@ == s),
{
    match serde_json::from_str::<serde_json::Value>(text) {
        Result::Ok(v) => Result::Ok(from_serde(&v)),
        Result::Err(e) => Result::Err(e.to_string()),
    }
}

/// Relies on `serde_json::to_string_pretty`: prints a document with the
/// layout named by [`json_pretty`].
#[verifier::external_body]
pub fn to_pretty(v: &JsonValue) -> (r: String)
    ensures
        r@ == json_pretty(v@),
{
    match serde_json::to_string_pretty(&to_serde(v)) {
        Result::Ok(s) => s,
        Result::Err(_) => String::new(),
    }
}

} // verus!
