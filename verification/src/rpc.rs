//! JSON-RPC 2.0 shapes: field extraction, validity of requests and
//! responses, and the error envelopes the engine synthesizes.

use vstd::prelude::*;

use vstd::string::StringExecFns;

use crate::json::{jv_field_views, jv_get, lemma_jv_field_views, Jv, JsonValue};
use crate::text::eq_str;

verus! {

broadcast use vstd::std_specs::vec::group_vec_axioms, vstd::seq::group_seq_axioms;

/// The identifier a reply echoes: the request's, or null when it had none.
pub open spec fn id_or_null(id: Option<Jv>) -> Jv {
    match id {
        Option::Some(v) => v,
        Option::None => Jv::Null,
    }
}

/// A JSON-RPC error value: `{"code": code, "message": message}`.
pub open spec fn error_jv(code: Seq<char>, message: Seq<char>) -> Jv {
    Jv::Object(seq![("code"@, Jv::Number(code)), ("message"@, Jv::Text(message))])
}

/// A JSON-RPC error value carrying a diagnostic `data` member.
pub open spec fn error_jv_with_data(code: Seq<char>, message: Seq<char>, data: Jv) -> Jv {
    Jv::Object(
        seq![("code"@, Jv::Number(code)), ("message"@, Jv::Text(message)), ("data"@, data)],
    )
}

/// A complete JSON-RPC error reply body echoing `id`.
pub open spec fn envelope_jv(id: Option<Jv>, code: Seq<char>, message: Seq<char>) -> Jv {
    Jv::Object(
        seq![
            ("jsonrpc"@, Jv::Text("2.0"@)),
            ("id"@, id_or_null(id)),
            ("error"@, error_jv(code, message)),
        ],
    )
}

/// A complete JSON-RPC error reply body whose error carries `data`.
pub open spec fn envelope_jv_with_data(
    id: Option<Jv>,
    code: Seq<char>,
    message: Seq<char>,
    data: Jv,
) -> Jv {
    Jv::Object(
        seq![
            ("jsonrpc"@, Jv::Text("2.0"@)),
            ("id"@, id_or_null(id)),
            ("error"@, error_jv_with_data(code, message, data)),
        ],
    )
}

/// The document declares JSON-RPC 2.0.
pub open spec fn jv_is_v2(v: Jv) -> bool {
    jv_get(v, "jsonrpc"@) == Option::Some(Jv::Text("2.0"@))
}

/// The textual `method` member, when one is present as a string.
pub open spec fn method_text(v: Jv) -> Option<Seq<char>> {
    match jv_get(v, "method"@) {
        Option::Some(Jv::Text(t)) => Option::Some(t),
        _ => Option::None,
    }
}

/// Appends one named field to an object under construction.
pub fn push_field(fields: &mut Vec<(String, JsonValue)>, key: &str, value: JsonValue)
    ensures
        jv_field_views(final(fields)@) == jv_field_views(old(fields)@).push((key@, value@)),
{
    let ghost v = value@;
    fields.push((String::from_str(key), value));
    proof {
        lemma_jv_field_views(old(fields)@);
        lemma_jv_field_views(fields@);
        assert(jv_field_views(fields@) =~= jv_field_views(old(fields)@).push((key@, v)));
    }
}

/// A textual JSON value.
pub fn text_value(s: &str) -> (r: JsonValue)
    ensures
        r@ == Jv::Text(s@),
{
    JsonValue::Text(String::from_str(s))
}

/// A numeric JSON value, from its textual form.
pub fn number_value(s: &str) -> (r: JsonValue)
    ensures
        r@ == Jv::Number(s@),
{
    JsonValue::Number(String::from_str(s))
}

/// Whether the document declares JSON-RPC 2.0.
pub fn is_v2(v: &JsonValue) -> (r: bool)
    ensures
        r == jv_is_v2(v@),
{
    match v.object_get("jsonrpc") {
        Option::Some(x) => match x {
            JsonValue::Text(t) => eq_str(t.as_str(), "2.0"),
            _ => false,
        },
        Option::None => false,
    }
}

/// Whether the document holds a field named `key`.
pub fn has_field(v: &JsonValue, key: &str) -> (r: bool)
    ensures
        r == (jv_get(v@, key@) is Some),
{
    match v.object_get(key) {
        Option::Some(_) => true,
        Option::None => false,
    }
}

/// A copy of the field named `key`, when present.
pub fn get_field_copy(v: &JsonValue, key: &str) -> (r: Option<JsonValue>)
    ensures
        r.deep_view() == jv_get(v@, key@),
{
    match v.object_get(key) {
        Option::Some(x) => Option::Some(x.deep_copy()),
        Option::None => Option::None,
    }
}

/// A copy of the textual `method` member, when present.
pub fn get_method_text(v: &JsonValue) -> (r: Option<String>)
    ensures
        r.deep_view() == method_text(v@),
{
    match v.object_get("method") {
        Option::Some(x) => match x {
            JsonValue::Text(t) => Option::Some(t.clone()),
            _ => Option::None,
        },
        Option::None => Option::None,
    }
}

/// A JSON-RPC error value, per [`error_jv`].
pub fn error_value(code: &str, message: &str) -> (r: JsonValue)
    ensures
        r@ == error_jv(code@, message@),
{
    let mut fields: Vec<(String, JsonValue)> = Vec::new();
    proof {
        lemma_jv_field_views(fields@);
        assert(jv_field_views(fields@) =~= Seq::<(Seq<char>, Jv)>::empty());
    }
    push_field(&mut fields, "code", number_value(code));
    push_field(&mut fields, "message", text_value(message));
    proof {
        assert(jv_field_views(fields@) =~= seq![
            ("code"@, Jv::Number(code@)),
            ("message"@, Jv::Text(message@)),
        ]);
    }
    JsonValue::Object(fields)
}

/// A JSON-RPC error value carrying diagnostic data, per
/// [`error_jv_with_data`].
pub fn error_value_with_data(code: &str, message: &str, data: JsonValue) -> (r: JsonValue)
    ensures
        r@ == error_jv_with_data(code@, message@, data@),
{
    let ghost d = data@;
    let mut fields: Vec<(String, JsonValue)> = Vec::new();
    proof {
        lemma_jv_field_views(fields@);
        assert(jv_field_views(fields@) =~= Seq::<(Seq<char>, Jv)>::empty());
    }
    push_field(&mut fields, "code", number_value(code));
    push_field(&mut fields, "message", text_value(message));
    push_field(&mut fields, "data", data);
    proof {
        assert(jv_field_views(fields@) =~= seq![
            ("code"@, Jv::Number(code@)),
            ("message"@, Jv::Text(message@)),
            ("data"@, d),
        ]);
    }
    JsonValue::Object(fields)
}

/// The identifier a reply echoes, as a value.
pub fn id_or_null_value(id: &Option<JsonValue>) -> (r: JsonValue)
    ensures
        r@ == id_or_null(id.deep_view()),
{
    match id {
        Option::Some(v) => v.deep_copy(),
        Option::None => JsonValue::Null,
    }
}

/// A complete JSON-RPC error reply body, per [`envelope_jv`].
pub fn error_envelope(id: &Option<JsonValue>, code: &str, message: &str) -> (r: JsonValue)
    ensures
        r@ == envelope_jv(id.deep_view(), code@, message@),
{
    let mut fields: Vec<(String, JsonValue)> = Vec::new();
    proof {
        lemma_jv_field_views(fields@);
        assert(jv_field_views(fields@) =~= Seq::<(Seq<char>, Jv)>::empty());
    }
    push_field(&mut fields, "jsonrpc", text_value("2.0"));
    push_field(&mut fields, "id", id_or_null_value(id));
    push_field(&mut fields, "error", error_value(code, message));
    proof {
        assert(jv_field_views(fields@) =~= seq![
            ("jsonrpc"@, Jv::Text("2.0"@)),
            ("id"@, id_or_null(id.deep_view())),
            ("error"@, error_jv(code@, message@)),
        ]);
    }
    JsonValue::Object(fields)
}

/// A complete JSON-RPC error reply body with diagnostic data, per
/// [`envelope_jv_with_data`].
pub fn error_envelope_with_data(
    id: &Option<JsonValue>,
    code: &str,
    message: &str,
    data: JsonValue,
) -> (r: JsonValue)
    ensures
        r@ == envelope_jv_with_data(id.deep_view(), code@, message@, data@),
{
    let ghost d = data@;
    let mut fields: Vec<(String, JsonValue)> = Vec::new();
    proof {
        lemma_jv_field_views(fields@);
        assert(jv_field_views(fields@) =~= Seq::<(Seq<char>, Jv)>::empty());
    }
    push_field(&mut fields, "jsonrpc", text_value("2.0"));
    push_field(&mut fields, "id", id_or_null_value(id));
    push_field(&mut fields, "error", error_value_with_data(code, message, data));
    proof {
        assert(jv_field_views(fields@) =~= seq![
            ("jsonrpc"@, Jv::Text("2.0"@)),
            ("id"@, id_or_null(id.deep_view())),
            ("error"@, error_jv_with_data(code@, message@, d)),
        ]);
    }
    JsonValue::Object(fields)
}

} // verus!
