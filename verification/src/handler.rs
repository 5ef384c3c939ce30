//! The per-request pipeline: building the captured request record at
//! ingress, acting on an operator decision, the broker's timeout reply, and
//! validation of operator-injected requests.

use vstd::prelude::*;

use vstd::string::StrSliceExecFns;
use vstd::string::StringExecFns;

use crate::app::App;
use crate::json::{jv_get, Jv, JsonValue};
use crate::jsontext::{json_parse, parse_json};
use crate::model::{
    AppMode, Headers, HeadersV, JsonRpcMessage, MessageDirection, MessageV, ProxyDecision,
    ProxyDecisionV, TransportType,
};
use crate::rpc::{
    envelope_jv, error_envelope, get_field_copy, get_method_text, has_field, id_or_null, is_v2,
    jv_is_v2, method_text,
};
use crate::text::{dec_str, trim_spec, trim_str, u64_to_string};

verus! {

broadcast use vstd::std_specs::vec::group_vec_axioms, vstd::seq::group_seq_axioms;

/// The record captured for an incoming request: its JSON-RPC fields copied
/// out, with the headers it arrived with.
pub open spec fn request_message_v(body: Jv, headers: HeadersV, timestamp: u64) -> MessageV {
    MessageV {
        id: jv_get(body, "id"@),
        method: method_text(body),
        params: jv_get(body, "params"@),
        result: Option::None,
        error: Option::None,
        timestamp,
        direction: MessageDirection::Request,
        transport: TransportType::Http,
        headers: Option::Some(headers),
    }
}

/// Builds the captured request record at ingress, per
/// [`request_message_v`].
pub fn build_request_message(body: &JsonValue, headers: Headers, timestamp: u64) -> (r:
    JsonRpcMessage)
    ensures
        r@ == request_message_v(body@, headers.deep_view(), timestamp),
{
    let ghost hv = headers.deep_view();
    let r = JsonRpcMessage {
        id: get_field_copy(body, "id"),
        method: get_method_text(body),
        params: get_field_copy(body, "params"),
        result: Option::None,
        error: Option::None,
        timestamp,
        direction: MessageDirection::Request,
        transport: TransportType::Http,
        headers: Option::Some(headers),
    };
    proof {
        assert(r@ =~= request_message_v(body@, hv, timestamp));
    }
    r
}

/// What the handler does after a decision: forward a (possibly replaced)
/// body under (possibly replaced) headers, answer the client directly, or
/// answer with an operator-synthesized response that is also recorded.
pub enum DecisionAction {
    Forward(JsonValue, Headers),
    Reply(u16, JsonValue),
    CompleteWith(JsonRpcMessage, u16, JsonValue),
}

/// Shape of a decision's outcome.
#[verifier::ext_equal]
pub enum DecisionActionV {
    Forward(Jv, HeadersV),
    Reply(u16, Jv),
    CompleteWith(MessageV, u16, Jv),
}

impl View for DecisionAction {
    type V = DecisionActionV;

    open spec fn view(&self) -> DecisionActionV {
        match self {
            DecisionAction::Forward(b, hs) => DecisionActionV::Forward(b@, hs.deep_view()),
            DecisionAction::Reply(status, b) => DecisionActionV::Reply(*status, b@),
            DecisionAction::CompleteWith(m, status, b) => DecisionActionV::CompleteWith(
                m@,
                *status,
                b@,
            ),
        }
    }
}

/// The record stored for an operator-completed request: the response's
/// fields, under headers that mark the synthesis.
pub open spec fn complete_message_v(response: Jv, timestamp: u64) -> MessageV {
    MessageV {
        id: jv_get(response, "id"@),
        method: Option::None,
        params: Option::None,
        result: jv_get(response, "result"@),
        error: jv_get(response, "error"@),
        timestamp,
        direction: MessageDirection::Response,
        transport: TransportType::Http,
        headers: Option::Some(
            seq![
                ("content-type"@, "application/json"@),
                ("x-proxy-completed"@, "true"@),
            ],
        ),
    }
}

/// What each decision does with the suspended request. `Allow` substitutes
/// the supplied body and header mapping (each a complete replacement) where
/// present; `Block` answers HTTP 200 with a `-32603` envelope echoing the
/// request's id and never reaches the upstream; `Complete` answers HTTP 200
/// with the operator's JSON and records it.
pub open spec fn decision_spec(
    d: ProxyDecisionV,
    original_body: Jv,
    original_headers: HeadersV,
    timestamp: u64,
) -> DecisionActionV {
    match d {
        ProxyDecisionV::Allow(body, headers) => DecisionActionV::Forward(
            match body {
                Option::Some(b) => b,
                Option::None => original_body,
            },
            match headers {
                Option::Some(hs) => hs,
                Option::None => original_headers,
            },
        ),
        ProxyDecisionV::Block => DecisionActionV::Reply(
            200,
            envelope_jv(jv_get(original_body, "id"@), "-32603"@, "Request blocked by user"@),
        ),
        ProxyDecisionV::Complete(response) => DecisionActionV::CompleteWith(
            complete_message_v(response, timestamp),
            200,
            response,
        ),
    }
}

/// Acts on an operator decision, per [`decision_spec`].
pub fn apply_decision(
    decision: ProxyDecision,
    original_body: JsonValue,
    original_headers: Headers,
    timestamp: u64,
) -> (r: DecisionAction)
    ensures
        r@ == decision_spec(
            decision@,
            original_body@,
            original_headers.deep_view(),
            timestamp,
        ),
{
    match decision {
        ProxyDecision::Allow(body, headers) => {
            let final_body = match body {
                Option::Some(b) => b,
                Option::None => original_body,
            };
            let final_headers = match headers {
                Option::Some(hs) => hs,
                Option::None => original_headers,
            };
            DecisionAction::Forward(final_body, final_headers)
        },
        ProxyDecision::Block => {
            let id = get_field_copy(&original_body, "id");
            DecisionAction::Reply(200, error_envelope(&id, "-32603", "Request blocked by user"))
        },
        ProxyDecision::Complete(response) => {
            let mut headers: Headers = Vec::new();
            headers.push(
                (String::from_str("content-type"), String::from_str("application/json")),
            );
            headers.push((String::from_str("x-proxy-completed"), String::from_str("true")));
            proof {
                assert(headers.deep_view() =~= seq![
                    ("content-type"@, "application/json"@),
                    ("x-proxy-completed"@, "true"@),
                ]);
            }
            let msg = JsonRpcMessage {
                id: get_field_copy(&response, "id"),
                method: Option::None,
                params: Option::None,
                result: get_field_copy(&response, "result"),
                error: get_field_copy(&response, "error"),
                timestamp,
                direction: MessageDirection::Response,
                transport: TransportType::Http,
                headers: Option::Some(headers),
            };
            proof {
                assert(msg@ =~= complete_message_v(response@, timestamp));
            }
            DecisionAction::CompleteWith(msg, 200, response)
        },
    }
}

/// The reply sent when no decision arrives in time or the decision channel
/// is dropped: HTTP 408 with a `-32603` timeout envelope echoing the
/// request's id.
pub fn timeout_reply(request_id: &Option<JsonValue>) -> (r: (u16, JsonValue))
    ensures
        r.0 == 408,
        r.1@ == envelope_jv(
            request_id.deep_view(),
            "-32603"@,
            "Request timed out waiting for user decision"@,
        ),
{
    (408, error_envelope(request_id, "-32603", "Request timed out waiting for user decision"))
}

/// Allowing a request with nothing replaced forwards exactly the captured
/// body and header mapping: what reaches the upstream differs from a direct
/// POST only by the hop-by-hop stripping that both paths apply.
pub proof fn lemma_allow_unchanged_is_passthrough(
    body: Jv,
    headers: HeadersV,
    timestamp: u64,
)
    ensures
        decision_spec(
            ProxyDecisionV::Allow(Option::None, Option::None),
            body,
            headers,
            timestamp,
        ) == DecisionActionV::Forward(body, headers),
{
}

/// The editable request JSON reproduces the captured request's observable
/// fields: its `id`, `method` and `params` members are exactly the
/// record's, with null standing for an absent id or params.
pub proof fn lemma_request_editor_fields(m: MessageV)
    ensures
        jv_get(crate::pending::request_editor_jv(m), "jsonrpc"@) == Option::Some(
            Jv::Text("2.0"@),
        ),
        jv_get(crate::pending::request_editor_jv(m), "method"@) == Option::Some(
            match m.method {
                Option::Some(t) => Jv::Text(t),
                Option::None => Jv::Null,
            },
        ),
        jv_get(crate::pending::request_editor_jv(m), "params"@) == Option::Some(
            id_or_null(m.params),
        ),
        jv_get(crate::pending::request_editor_jv(m), "id"@) == Option::Some(id_or_null(m.id)),
{
    reveal_with_fuel(crate::json::jv_fields_get, 5);
    let fs = match crate::pending::request_editor_jv(m) {
        Jv::Object(fields) => fields,
        _ => Seq::empty(),
    };
    assert(fs.len() == 4);
    let f1 = fs.drop_first();
    let f2 = f1.drop_first();
    let f3 = f2.drop_first();
    assert(f1 =~= fs.subrange(1, 4));
    assert(f2 =~= fs.subrange(2, 4));
    assert(f3 =~= fs.subrange(3, 4));
    assert(f3.drop_first() =~= fs.subrange(4, 4));
    reveal_strlit("jsonrpc");
    reveal_strlit("method");
    reveal_strlit("params");
    reveal_strlit("id");
    assert("jsonrpc"@ != "method"@ && "jsonrpc"@ != "params"@ && "jsonrpc"@ != "id"@) by {
        assert("jsonrpc"@.len() != "method"@.len());
        assert("jsonrpc"@.len() != "params"@.len());
        assert("jsonrpc"@.len() != "id"@.len());
    }
    assert("method"@ != "params"@) by {
        assert("method"@[0] != "params"@[0]);
    }
    assert("method"@ != "id"@ && "params"@ != "id"@) by {
        assert("method"@.len() != "id"@.len());
        assert("params"@.len() != "id"@.len());
    }
}

impl App {
    /// Validates an operator-injected request and chooses where to send it:
    /// the text must parse as JSON, declare `"jsonrpc": "2.0"`, and name a
    /// method, and a target must be configured. Under pause the request
    /// goes straight to the target (so it is not intercepted); otherwise it
    /// goes through the proxy's own listener for normal capture. The
    /// embedding program performs the POST to the returned URL.
    pub fn send_new_request(&self, request_json: &str) -> (r: Result<String, String>)
        ensures
            r is Ok <==> ((json_parse(request_json@) matches Result::Ok(j)
                && crate::pending::valid_request_jv(j)) && trim_spec(
                self.proxy_config.target_url@,
            ).len() > 0),
            match json_parse(request_json@) {
                Result::Err(pe) => r matches Result::Err(e) && e@ == "Invalid JSON: "@ + pe,
                Result::Ok(j) => if !jv_is_v2(j) {
                    r matches Result::Err(e) && e@ == "Missing or invalid 'jsonrpc' field"@
                } else if jv_get(j, "method"@) is None {
                    r matches Result::Err(e) && e@ == "Missing 'method' field"@
                } else if trim_spec(self.proxy_config.target_url@).len() == 0 {
                    r matches Result::Err(e) && e@
                        == "Target URL is not set. Press 't' to set a target URL first."@
                } else {
                    r matches Result::Ok(url) && url@ == if self.app_mode == AppMode::Paused
                        || self.app_mode == AppMode::Intercepting {
                        self.proxy_config.target_url@
                    } else {
                        "http://localhost:"@ + dec_str(self.proxy_config.listen_port as nat)
                    }
                },
            },
    {
        let parsed = match parse_json(request_json) {
            Result::Ok(v) => v,
            Result::Err(e) => {
                let mut msg = String::from_str("Invalid JSON: ");
                msg.append(e.as_str());
                return Result::Err(msg);
            },
        };
        if !is_v2(&parsed) {
            return Result::Err(String::from_str("Missing or invalid 'jsonrpc' field"));
        }
        if !has_field(&parsed, "method") {
            return Result::Err(String::from_str("Missing 'method' field"));
        }
        if trim_str(self.proxy_config.target_url.as_str()).unicode_len() == 0 {
            return Result::Err(
                String::from_str("Target URL is not set. Press 't' to set a target URL first."),
            );
        }
        if self.app_mode == AppMode::Paused || self.app_mode == AppMode::Intercepting {
            Result::Ok(self.proxy_config.target_url.clone())
        } else {
            let mut url = String::from_str("http://localhost:");
            url.append(u64_to_string(self.proxy_config.listen_port as u64).as_str());
            Result::Ok(url)
        }
    }
}

} // verus!
