//! The upstream forwarder's logic: hop-by-hop header stripping,
//! classification of malformed upstream bodies, the diagnostic preview, and
//! the reply/record pair produced for every upstream outcome.

use vstd::prelude::*;

use vstd::string::StrSliceExecFns;
use vstd::string::StringExecFns;

use crate::json::{jv_get, Jv, JsonValue};
use crate::jsontext::{json_parse, parse_json};
use crate::model::{Headers, HeadersV, JsonRpcMessage, MessageDirection, MessageV, TransportType};
use crate::rpc::{
    envelope_jv, envelope_jv_with_data, error_envelope, error_envelope_with_data, error_jv,
    error_jv_with_data, error_value, error_value_with_data, get_field_copy, push_field,
    text_value,
};
use crate::text::{
    contains_char, contains_sub, dec_str, eq_str, has_substring, starts_with_char, trim_spec,
    trim_str, u64_to_string,
};

verus! {

broadcast use vstd::std_specs::vec::group_vec_axioms, vstd::seq::group_seq_axioms;

/// What `str::to_lowercase` returns: a function of the characters alone.
pub uninterp spec fn lower_of(s: Seq<char>) -> Seq<char>;

/// Relies on `str::to_lowercase`: the lowercase equivalent of the slice,
/// which depends on its characters alone.
#[verifier::external_body]
fn lowercase(s: &str) -> (r: String)
    ensures
        r@ == lower_of(s@),
{
    s.to_lowercase()
}

/// A hop-by-hop header name, lowered: meaningful only on one transport leg,
/// so never forwarded.
pub open spec fn is_hop_by_hop(lowered: Seq<char>) -> bool {
    ||| lowered == "host"@
    ||| lowered == "content-length"@
    ||| lowered == "transfer-encoding"@
    ||| lowered == "connection"@
}

/// Whether an already-lowered header name is on the hop-by-hop denylist.
pub fn is_hop_by_hop_name(lowered: &str) -> (r: bool)
    ensures
        r == is_hop_by_hop(lowered@),
{
    eq_str(lowered, "host") || eq_str(lowered, "content-length") || eq_str(
        lowered,
        "transfer-encoding",
    ) || eq_str(lowered, "connection")
}

/// Whether a header survives forwarding: everything but the hop-by-hop
/// denylist, compared case-insensitively.
pub fn should_forward_header(header_name: &str) -> (r: bool)
    ensures
        r == !is_hop_by_hop(lower_of(header_name@)),
{
    let lowered = lowercase(header_name);
    !is_hop_by_hop_name(lowered.as_str())
}

/// A header mapping with the hop-by-hop denylist removed, order kept.
pub open spec fn strip_hop(hs: HeadersV) -> HeadersV
    decreases hs.len(),
{
    if hs.len() == 0 {
        Seq::empty()
    } else {
        let rest = strip_hop(hs.drop_first());
        if is_hop_by_hop(lower_of(hs.first().0)) {
            rest
        } else {
            seq![hs.first()] + rest
        }
    }
}

/// The headers a forwarded request carries, per [`strip_hop`]. The denylist
/// is applied after any operator mutation.
#[verifier::loop_isolation(false)]
pub fn build_forward_headers(hs: &Headers) -> (r: Headers)
    ensures
        r.deep_view() == strip_hop(hs.deep_view()),
{
    let ghost dv = hs.deep_view();
    let mut out: Headers = Vec::new();
    let mut i: usize = 0;
    proof {
        assert(dv.skip(0) =~= dv);
        assert(out.deep_view() =~= Seq::<(Seq<char>, Seq<char>)>::empty());
        assert(out.deep_view() + strip_hop(dv) =~= strip_hop(dv));
    }
    while i < hs.len()
        invariant
            0 <= i <= hs@.len(),
            out.deep_view() + strip_hop(dv.skip(i as int)) == strip_hop(dv),
        decreases hs@.len() - i,
    {
        let ghost rest = dv.skip(i as int);
        let ghost before = out.deep_view();
        proof {
            assert(rest.first() == dv[i as int]);
            assert(rest.drop_first() =~= dv.skip(i as int + 1));
        }
        if should_forward_header(hs[i].0.as_str()) {
            out.push((hs[i].0.clone(), hs[i].1.clone()));
            proof {
                assert(out.deep_view() =~= before.push(dv[i as int]));
                assert(before.push(dv[i as int]) + strip_hop(dv.skip(i as int + 1)) =~= before + (
                seq![dv[i as int]] + strip_hop(dv.skip(i as int + 1))));
            }
        }
        i += 1;
    }
    proof {
        assert(dv.skip(dv.len() as int) =~= Seq::<(Seq<char>, Seq<char>)>::empty());
        assert(out.deep_view() + strip_hop(dv.skip(dv.len() as int)) =~= out.deep_view());
    }
    out
}

/// The value stored under `key` in a header mapping: the first entry whose
/// key matches exactly.
pub open spec fn headers_lookup(hs: HeadersV, key: Seq<char>) -> Option<Seq<char>>
    decreases hs.len(),
{
    if hs.len() == 0 {
        Option::None
    } else if hs.first().0 == key {
        Option::Some(hs.first().1)
    } else {
        headers_lookup(hs.drop_first(), key)
    }
}

/// Looks a key up in a header mapping, per [`headers_lookup`].
#[verifier::loop_isolation(false)]
pub fn lookup_header(hs: &Headers, key: &str) -> (r: Option<String>)
    ensures
        r.deep_view() == headers_lookup(hs.deep_view(), key@),
{
    let ghost dv = hs.deep_view();
    let mut i: usize = 0;
    proof {
        assert(dv.skip(0) =~= dv);
    }
    while i < hs.len()
        invariant
            0 <= i <= hs@.len(),
            headers_lookup(dv, key@) == headers_lookup(dv.skip(i as int), key@),
        decreases hs@.len() - i,
    {
        proof {
            assert(dv.skip(i as int).first() == dv[i as int]);
            assert(dv.skip(i as int).drop_first() =~= dv.skip(i as int + 1));
        }
        if eq_str(hs[i].0.as_str(), key) {
            return Option::Some(hs[i].1.clone());
        }
        i += 1;
    }
    proof {
        assert(dv.skip(dv.len() as int) =~= Seq::<(Seq<char>, Seq<char>)>::empty());
    }
    Option::None
}

/// The upstream content type as reported, or `unknown`.
pub open spec fn content_type_of(hs: HeadersV) -> Seq<char> {
    match headers_lookup(hs, "content-type"@) {
        Option::Some(v) => v,
        Option::None => "unknown"@,
    }
}

/// The diagnosis of an upstream body that was not JSON, in the order the
/// checks run: empty, binary, HTML by content type, JSON by content type,
/// unknown.
pub open spec fn classify_spec(text: Seq<char>, content_type: Seq<char>) -> Seq<char> {
    if trim_spec(text).len() == 0 {
        "empty_response"@
    } else if text.contains('\0') {
        "binary_data"@
    } else if has_substring(content_type, "text/html"@) {
        "html_response"@
    } else if has_substring(content_type, "application/json"@) {
        "malformed_json"@
    } else {
        "unknown_format"@
    }
}

/// Diagnoses an upstream body that was not JSON, per [`classify_spec`].
pub fn classify_response(text: &str, content_type: &str) -> (r: &'static str)
    ensures
        r@ == classify_spec(text@, content_type@),
{
    if trim_str(text).unicode_len() == 0 {
        "empty_response"
    } else if contains_char(text, '\0') {
        "binary_data"
    } else if contains_sub(content_type, "text/html") {
        "html_response"
    } else if contains_sub(content_type, "application/json") {
        "malformed_json"
    } else {
        "unknown_format"
    }
}

/// The lowercase hexadecimal digit for `d`.
pub open spec fn hex_digit(d: nat) -> char {
    if d < 10 {
        crate::text::digit_char(d)
    } else if d == 10 {
        'a'
    } else if d == 11 {
        'b'
    } else if d == 12 {
        'c'
    } else if d == 13 {
        'd'
    } else if d == 14 {
        'e'
    } else {
        'f'
    }
}

/// A byte as two lowercase hexadecimal digits.
pub open spec fn hex_byte(b: u8) -> Seq<char> {
    seq![hex_digit((b / 16) as nat), hex_digit((b % 16) as nat)]
}

/// Bytes as a bracketed, comma-separated hexadecimal list.
pub open spec fn hex_join(bs: Seq<u8>) -> Seq<char>
    decreases bs.len(),
{
    if bs.len() == 0 {
        Seq::empty()
    } else if bs.len() == 1 {
        hex_byte(bs[0])
    } else {
        hex_join(bs.drop_last()) + ", "@ + hex_byte(bs.last())
    }
}

/// The one-character slice for the hexadecimal digit `d`.
fn hex_digit_str(d: u8) -> (r: &'static str)
    requires
        d < 16,
    ensures
        r@ =~= seq![hex_digit(d as nat)],
{
    if d < 10 {
        crate::text::digit_str(d as u64)
    } else {
        proof {
            reveal_strlit("a");
            reveal_strlit("b");
            reveal_strlit("c");
            reveal_strlit("d");
            reveal_strlit("e");
            reveal_strlit("f");
        }
        if d == 10 {
            "a"
        } else if d == 11 {
            "b"
        } else if d == 12 {
            "c"
        } else if d == 13 {
            "d"
        } else if d == 14 {
            "e"
        } else {
            "f"
        }
    }
}

/// The number of preview bytes shown for a binary body.
pub open spec fn preview_byte_count(n: int) -> int {
    if n < 50 {
        n
    } else {
        50
    }
}

/// The safe-to-display preview of an upstream body that was not JSON: a
/// hexadecimal dump of the first bytes when the body holds a NUL byte, up
/// to 500 characters when the text looks JSON-shaped, up to 200 characters
/// otherwise.
pub open spec fn preview_of(text: Seq<char>) -> Seq<char> {
    let bytes = vstd::utf8::encode_utf8(text);
    if text.contains('\0') {
        "Binary data: ["@ + hex_join(bytes.take(preview_byte_count(bytes.len() as int)))
            + "]..."@
    } else if trim_spec(text).len() > 0 && (trim_spec(text)[0] == '{' || trim_spec(text)[0]
        == '[') {
        if text.len() > 500 {
            text.take(500) + "..."@
        } else {
            text
        }
    } else if text.len() > 200 {
        text.take(200) + "..."@
    } else {
        text
    }
}

/// Builds the display preview of a non-JSON upstream body, per
/// [`preview_of`].
#[verifier::loop_isolation(false)]
pub fn build_preview(text: &str) -> (r: String)
    ensures
        r@ == preview_of(text@),
{
    if contains_char(text, '\0') {
        let bytes = text.as_bytes_vec();
        let count = if bytes.len() < 50 {
            bytes.len()
        } else {
            50
        };
        let ghost shown = bytes@.take(count as int);
        let mut out = String::from_str("Binary data: [");
        let mut i: usize = 0;
        proof {
            assert(shown.take(0) =~= Seq::<u8>::empty());
        }
        while i < count
            invariant
                0 <= i <= count,
                count <= bytes@.len(),
                shown == bytes@.take(count as int),
                out@ == "Binary data: ["@ + hex_join(shown.take(i as int)),
            decreases count - i,
        {
            if i > 0 {
                out.append(", ");
            }
            let b = bytes[i];
            out.append(hex_digit_str(b / 16));
            out.append(hex_digit_str(b % 16));
            proof {
                assert(shown.take(i as int + 1).drop_last() =~= shown.take(i as int));
                assert(shown.take(i as int + 1).last() == shown[i as int]);
                assert(shown[i as int] == bytes@[i as int]);
                if i == 0 {
                    assert(hex_join(shown.take(1)) == hex_byte(shown.take(1)[0]));
                    assert(out@ =~= "Binary data: ["@ + hex_byte(bytes@[0]));
                } else {
                    assert(out@ =~= "Binary data: ["@ + (hex_join(shown.take(i as int)) + ", "@
                        + hex_byte(bytes@[i as int])));
                }
            }
            i += 1;
        }
        out.append("]...");
        proof {
            assert(shown.take(count as int) =~= shown);
            assert(out@ =~= "Binary data: ["@ + hex_join(shown) + "]..."@);
        }
        out
    } else {
        let trimmed = trim_str(text);
        let shaped = starts_with_char(trimmed, '{') || starts_with_char(trimmed, '[');
        let len = text.unicode_len();
        if shaped {
            if len > 500 {
                let mut out = String::from_str(text.substring_char(0, 500));
                out.append("...");
                proof {
                    assert(text@.subrange(0, 500) =~= text@.take(500));
                }
                out
            } else {
                String::from_str(text)
            }
        } else if len > 200 {
            let mut out = String::from_str(text.substring_char(0, 200));
            out.append("...");
            proof {
                assert(text@.subrange(0, 200) =~= text@.take(200));
            }
            out
        } else {
            String::from_str(text)
        }
    }
}

/// What came back from the attempt to reach the upstream: no connection at
/// all, a status whose body could not be read, or a status with headers and
/// the body text.
pub enum UpstreamOutcome {
    TransportFailure,
    BodyReadFailure(Headers),
    BodyReceived(u16, Headers, String),
}

/// Shape of an upstream outcome.
#[verifier::ext_equal]
pub enum UpstreamOutcomeV {
    TransportFailure,
    BodyReadFailure(HeadersV),
    BodyReceived(u16, HeadersV, Seq<char>),
}

impl View for UpstreamOutcome {
    type V = UpstreamOutcomeV;

    open spec fn view(&self) -> UpstreamOutcomeV {
        match self {
            UpstreamOutcome::TransportFailure => UpstreamOutcomeV::TransportFailure,
            UpstreamOutcome::BodyReadFailure(hs) => UpstreamOutcomeV::BodyReadFailure(
                hs.deep_view(),
            ),
            UpstreamOutcome::BodyReceived(status, hs, text) => UpstreamOutcomeV::BodyReceived(
                *status,
                hs.deep_view(),
                text@,
            ),
        }
    }
}

/// A response record as the forwarder emits it.
pub open spec fn response_message_v(
    id: Option<Jv>,
    result: Option<Jv>,
    error: Option<Jv>,
    timestamp: u64,
    headers: Option<HeadersV>,
) -> MessageV {
    MessageV {
        id,
        method: Option::None,
        params: Option::None,
        result,
        error,
        timestamp,
        direction: MessageDirection::Response,
        transport: TransportType::Http,
        headers,
    }
}

/// The operator-facing diagnostic stored for a malformed upstream body.
pub open spec fn diag_data_jv(
    text: Seq<char>,
    content_type: Seq<char>,
    parse_error: Seq<char>,
    target_url: Seq<char>,
) -> Jv {
    Jv::Object(
        seq![
            ("issue_type"@, Jv::Text(classify_spec(text, content_type))),
            ("content_type"@, Jv::Text(content_type)),
            ("response_preview"@, Jv::Text(preview_of(text))),
            ("response_length"@, Jv::Number(dec_str(text.len()))),
            ("has_null_bytes"@, Jv::Bool(text.contains('\0'))),
            ("parse_error"@, Jv::Text(parse_error)),
            ("target_url"@, Jv::Text(target_url)),
        ],
    )
}

/// The client-facing slice of that diagnostic.
pub open spec fn client_data_jv(text: Seq<char>, content_type: Seq<char>) -> Jv {
    Jv::Object(
        seq![
            ("issue_type"@, Jv::Text(classify_spec(text, content_type))),
            ("content_type"@, Jv::Text(content_type)),
            ("has_null_bytes"@, Jv::Bool(text.contains('\0'))),
        ],
    )
}

/// The message announcing a malformed upstream body.
pub open spec fn invalid_json_message(status: u16) -> Seq<char> {
    "Invalid JSON response from server (HTTP "@ + dec_str(status as nat) + ")"@
}

/// The record stored and the reply returned for each upstream outcome:
/// a transport failure turns into a synthetic `-32603` record and an HTTP
/// 502; an unreadable body into a `-32603` record carrying the response
/// headers and an HTTP 500; a JSON body into a response record with
/// `id`/`result`/`error` copied out, returned under the upstream's own
/// status; and a non-JSON body into a `-32700` record with the full
/// diagnostic, returned to the client as HTTP 200 with the diagnostic's
/// client-facing slice.
pub open spec fn upstream_spec(
    req_id: Option<Jv>,
    o: UpstreamOutcomeV,
    target_url: Seq<char>,
    timestamp: u64,
) -> (MessageV, u16, Jv) {
    match o {
        UpstreamOutcomeV::TransportFailure => (
            response_message_v(
                req_id,
                Option::None,
                Option::Some(error_jv("-32603"@, "Failed to connect to target server"@)),
                timestamp,
                Option::None,
            ),
            502,
            envelope_jv(req_id, "-32603"@, "Failed to connect to target server"@),
        ),
        UpstreamOutcomeV::BodyReadFailure(hs) => (
            response_message_v(
                req_id,
                Option::None,
                Option::Some(error_jv("-32603"@, "Internal error - failed to read response"@)),
                timestamp,
                Option::Some(hs),
            ),
            500,
            envelope_jv(req_id, "-32603"@, "Internal error - failed to read response"@),
        ),
        UpstreamOutcomeV::BodyReceived(status, hs, text) => match json_parse(text) {
            Result::Ok(v) => (
                response_message_v(
                    jv_get(v, "id"@),
                    jv_get(v, "result"@),
                    jv_get(v, "error"@),
                    timestamp,
                    Option::Some(hs),
                ),
                status,
                v,
            ),
            Result::Err(pe) => (
                response_message_v(
                    req_id,
                    Option::None,
                    Option::Some(
                        error_jv_with_data(
                            "-32700"@,
                            invalid_json_message(status),
                            diag_data_jv(text, content_type_of(hs), pe, target_url),
                        ),
                    ),
                    timestamp,
                    Option::Some(hs),
                ),
                200,
                envelope_jv_with_data(
                    req_id,
                    "-32700"@,
                    invalid_json_message(status),
                    client_data_jv(text, content_type_of(hs)),
                ),
            ),
        },
    }
}

/// Turns an upstream outcome into the stored response record, the HTTP
/// status for the client, and the client's reply body, per
/// [`upstream_spec`].
pub fn process_upstream(
    request_id: &Option<JsonValue>,
    outcome: UpstreamOutcome,
    target_url: &str,
    timestamp: u64,
) -> (r: (JsonRpcMessage, u16, JsonValue))
    ensures
        r.0@ == upstream_spec(request_id.deep_view(), outcome@, target_url@, timestamp).0,
        r.1 == upstream_spec(request_id.deep_view(), outcome@, target_url@, timestamp).1,
        r.2@ == upstream_spec(request_id.deep_view(), outcome@, target_url@, timestamp).2,
{
    match outcome {
        UpstreamOutcome::TransportFailure => {
            let msg = JsonRpcMessage {
                id: crate::model::copy_opt_json(request_id),
                method: Option::None,
                params: Option::None,
                result: Option::None,
                error: Option::Some(
                    error_value("-32603", "Failed to connect to target server"),
                ),
                timestamp,
                direction: MessageDirection::Response,
                transport: TransportType::Http,
                headers: Option::None,
            };
            let reply = error_envelope(request_id, "-32603", "Failed to connect to target server");
            proof {
                assert(msg@ =~= upstream_spec(
                    request_id.deep_view(),
                    outcome@,
                    target_url@,
                    timestamp,
                ).0);
            }
            (msg, 502, reply)
        },
        UpstreamOutcome::BodyReadFailure(hs) => {
            let ghost hv = hs.deep_view();
            let msg = JsonRpcMessage {
                id: crate::model::copy_opt_json(request_id),
                method: Option::None,
                params: Option::None,
                result: Option::None,
                error: Option::Some(
                    error_value("-32603", "Internal error - failed to read response"),
                ),
                timestamp,
                direction: MessageDirection::Response,
                transport: TransportType::Http,
                headers: Option::Some(hs),
            };
            let reply = error_envelope(
                request_id,
                "-32603",
                "Internal error - failed to read response",
            );
            proof {
                assert(msg@ =~= upstream_spec(
                    request_id.deep_view(),
                    outcome@,
                    target_url@,
                    timestamp,
                ).0);
            }
            (msg, 500, reply)
        },
        UpstreamOutcome::BodyReceived(status, hs, text) => {
            match parse_json(text.as_str()) {
                Result::Ok(v) => {
                    let msg = JsonRpcMessage {
                        id: get_field_copy(&v, "id"),
                        method: Option::None,
                        params: Option::None,
                        result: get_field_copy(&v, "result"),
                        error: get_field_copy(&v, "error"),
                        timestamp,
                        direction: MessageDirection::Response,
                        transport: TransportType::Http,
                        headers: Option::Some(hs),
                    };
                    proof {
                        assert(msg@ =~= upstream_spec(
                            request_id.deep_view(),
                            outcome@,
                            target_url@,
                            timestamp,
                        ).0);
                    }
                    (msg, status, v)
                },
                Result::Err(parse_error) => {
                    let content_type = match lookup_header(&hs, "content-type") {
                        Option::Some(v) => v,
                        Option::None => String::from_str("unknown"),
                    };
                    let issue = classify_response(text.as_str(), content_type.as_str());
                    let preview = build_preview(text.as_str());
                    let length_text = u64_to_string(text.as_str().unicode_len() as u64);
                    let has_null = contains_char(text.as_str(), '\0');
                    let mut message = String::from_str("Invalid JSON response from server (HTTP ");
                    message.append(u64_to_string(status as u64).as_str());
                    message.append(")");
                    let ghost ct = content_type_of(hs.deep_view());
                    let mut data_fields: Vec<(String, JsonValue)> = Vec::new();
                    proof {
                        crate::json::lemma_jv_field_views(data_fields@);
                        assert(crate::json::jv_field_views(data_fields@) =~= Seq::<
                            (Seq<char>, Jv),
                        >::empty());
                    }
                    push_field(&mut data_fields, "issue_type", text_value(issue));
                    push_field(&mut data_fields, "content_type", text_value(content_type.as_str()));
                    push_field(&mut data_fields, "response_preview", text_value(preview.as_str()));
                    push_field(
                        &mut data_fields,
                        "response_length",
                        JsonValue::Number(length_text),
                    );
                    push_field(&mut data_fields, "has_null_bytes", JsonValue::Bool(has_null));
                    push_field(&mut data_fields, "parse_error", text_value(parse_error.as_str()));
                    push_field(&mut data_fields, "target_url", text_value(target_url));
                    proof {
                        assert(crate::json::jv_field_views(data_fields@) =~= seq![
                            ("issue_type"@, Jv::Text(classify_spec(text@, ct))),
                            ("content_type"@, Jv::Text(ct)),
                            ("response_preview"@, Jv::Text(preview_of(text@))),
                            ("response_length"@, Jv::Number(dec_str(text@.len()))),
                            ("has_null_bytes"@, Jv::Bool(text@.contains('\0'))),
                            ("parse_error"@, Jv::Text(parse_error@)),
                            ("target_url"@, Jv::Text(target_url@)),
                        ]);
                    }
                    let data = JsonValue::Object(data_fields);
                    proof {
                        assert(data@ == diag_data_jv(text@, ct, parse_error@, target_url@));
                    }
                    let mut client_fields: Vec<(String, JsonValue)> = Vec::new();
                    proof {
                        crate::json::lemma_jv_field_views(client_fields@);
                        assert(crate::json::jv_field_views(client_fields@) =~= Seq::<
                            (Seq<char>, Jv),
                        >::empty());
                    }
                    push_field(&mut client_fields, "issue_type", text_value(issue));
                    push_field(
                        &mut client_fields,
                        "content_type",
                        text_value(content_type.as_str()),
                    );
                    push_field(&mut client_fields, "has_null_bytes", JsonValue::Bool(has_null));
                    proof {
                        assert(crate::json::jv_field_views(client_fields@) =~= seq![
                            ("issue_type"@, Jv::Text(classify_spec(text@, ct))),
                            ("content_type"@, Jv::Text(ct)),
                            ("has_null_bytes"@, Jv::Bool(text@.contains('\0'))),
                        ]);
                    }
                    let client_data = JsonValue::Object(client_fields);
                    proof {
                        assert(client_data@ == client_data_jv(text@, ct));
                    }
                    let msg = JsonRpcMessage {
                        id: crate::model::copy_opt_json(request_id),
                        method: Option::None,
                        params: Option::None,
                        result: Option::None,
                        error: Option::Some(
                            error_value_with_data("-32700", message.as_str(), data),
                        ),
                        timestamp,
                        direction: MessageDirection::Response,
                        transport: TransportType::Http,
                        headers: Option::Some(hs),
                    };
                    let reply = error_envelope_with_data(
                        request_id,
                        "-32700",
                        message.as_str(),
                        client_data,
                    );
                    proof {
                        assert(message@ == invalid_json_message(status));
                        assert(msg@ =~= upstream_spec(
                            request_id.deep_view(),
                            outcome@,
                            target_url@,
                            timestamp,
                        ).0);
                        assert(reply@ =~= upstream_spec(
                            request_id.deep_view(),
                            outcome@,
                            target_url@,
                            timestamp,
                        ).2);
                    }
                    (msg, 200, reply)
                },
            }
        },
    }
}

} // verus!
