//! Captured-traffic data model: messages, exchanges, decisions and modes.

use vstd::prelude::*;

use crate::json::{Jv, JsonValue};

verus! {

broadcast use vstd::std_specs::vec::group_vec_axioms, vstd::seq::group_seq_axioms;

/// Whether a captured record travelled towards the upstream or back.
#[derive(Clone, Copy, Debug, PartialEq, Eq, Structural)]
pub enum MessageDirection {
    Request,
    Response,
}

/// The transport a record was captured on. The engine only drives HTTP;
/// the WebSocket tag is reserved for records injected by other collaborators.
#[derive(Clone, Copy, Debug, PartialEq, Eq, Structural)]
pub enum TransportType {
    Http,
    WebSocket,
}

/// What the operator's input line is currently editing.
#[derive(Clone, Copy, Debug, PartialEq, Eq, Structural)]
pub enum InputMode {
    Normal,
    EditingTarget,
    FilteringRequests,
}

/// The controller's mode. Only `Paused`, as observed at request ingress,
/// causes interception; `Intercepting` is a display label.
#[derive(Clone, Copy, Debug, PartialEq, Eq, Structural)]
pub enum AppMode {
    Normal,
    Paused,
    Intercepting,
}

/// Header mapping: case-preserving keys paired with values, in order.
pub type Headers = Vec<(String, String)>;

/// Shape of a header mapping.
pub type HeadersV = Seq<(Seq<char>, Seq<char>)>;

/// A captured JSON-RPC record.
pub struct JsonRpcMessage {
    pub id: Option<JsonValue>,
    pub method: Option<String>,
    pub params: Option<JsonValue>,
    pub result: Option<JsonValue>,
    pub error: Option<JsonValue>,
    pub timestamp: u64,
    pub direction: MessageDirection,
    pub transport: TransportType,
    pub headers: Option<Headers>,
}

/// Mathematical shape of a captured record.
#[verifier::ext_equal]
pub struct MessageV {
    pub id: Option<Jv>,
    pub method: Option<Seq<char>>,
    pub params: Option<Jv>,
    pub result: Option<Jv>,
    pub error: Option<Jv>,
    pub timestamp: u64,
    pub direction: MessageDirection,
    pub transport: TransportType,
    pub headers: Option<HeadersV>,
}

impl DeepView for JsonValue {
    type V = Jv;

    open spec fn deep_view(&self) -> Jv {
        self.view()
    }
}

impl View for JsonRpcMessage {
    type V = MessageV;

    open spec fn view(&self) -> MessageV {
        MessageV {
            id: self.id.deep_view(),
            method: self.method.deep_view(),
            params: self.params.deep_view(),
            result: self.result.deep_view(),
            error: self.error.deep_view(),
            timestamp: self.timestamp,
            direction: self.direction,
            transport: self.transport,
            headers: self.headers.deep_view(),
        }
    }
}

impl DeepView for JsonRpcMessage {
    type V = MessageV;

    open spec fn deep_view(&self) -> MessageV {
        self.view()
    }
}

/// A request paired (perhaps half-paired) with its response.
pub struct JsonRpcExchange {
    pub id: Option<JsonValue>,
    pub method: Option<String>,
    pub request: Option<JsonRpcMessage>,
    pub response: Option<JsonRpcMessage>,
    pub timestamp: u64,
    pub transport: TransportType,
}

/// Mathematical shape of an exchange.
#[verifier::ext_equal]
pub struct ExchangeV {
    pub id: Option<Jv>,
    pub method: Option<Seq<char>>,
    pub request: Option<MessageV>,
    pub response: Option<MessageV>,
    pub timestamp: u64,
    pub transport: TransportType,
}

impl View for JsonRpcExchange {
    type V = ExchangeV;

    open spec fn view(&self) -> ExchangeV {
        ExchangeV {
            id: self.id.deep_view(),
            method: self.method.deep_view(),
            request: self.request.deep_view(),
            response: self.response.deep_view(),
            timestamp: self.timestamp,
            transport: self.transport,
        }
    }
}

impl DeepView for JsonRpcExchange {
    type V = ExchangeV;

    open spec fn deep_view(&self) -> ExchangeV {
        self.view()
    }
}

/// The operator's verdict on an intercepted request.
pub enum ProxyDecision {
    /// Let the request through, optionally with a replacement body and a
    /// complete replacement header mapping.
    Allow(Option<JsonValue>, Option<Headers>),
    /// Refuse the request; the client gets a synthesized error.
    Block,
    /// Answer the client with an operator-supplied response; the upstream
    /// never sees the request.
    Complete(JsonValue),
}

/// Shape of a decision.
#[verifier::ext_equal]
pub enum ProxyDecisionV {
    Allow(Option<Jv>, Option<HeadersV>),
    Block,
    Complete(Jv),
}

impl View for ProxyDecision {
    type V = ProxyDecisionV;

    open spec fn view(&self) -> ProxyDecisionV {
        match self {
            ProxyDecision::Allow(body, headers) => ProxyDecisionV::Allow(
                body.deep_view(),
                headers.deep_view(),
            ),
            ProxyDecision::Block => ProxyDecisionV::Block,
            ProxyDecision::Complete(body) => ProxyDecisionV::Complete(body.deep_view()),
        }
    }
}

/// A request intercepted under pause mode, waiting for a decision.
/// The single-use reply channel that answers the suspended handler is owned
/// by the embedding program and addressed through `id`.
pub struct PendingRequest {
    pub id: String,
    pub original_request: JsonRpcMessage,
    pub modified_request: Option<String>,
    pub modified_headers: Option<Headers>,
}

/// Shape of a pending entry.
#[verifier::ext_equal]
pub struct PendingV {
    pub id: Seq<char>,
    pub original_request: MessageV,
    pub modified_request: Option<Seq<char>>,
    pub modified_headers: Option<HeadersV>,
}

impl View for PendingRequest {
    type V = PendingV;

    open spec fn view(&self) -> PendingV {
        PendingV {
            id: self.id@,
            original_request: self.original_request@,
            modified_request: self.modified_request.deep_view(),
            modified_headers: self.modified_headers.deep_view(),
        }
    }
}

impl DeepView for PendingRequest {
    type V = PendingV;

    open spec fn deep_view(&self) -> PendingV {
        self.view()
    }
}

/// Listener and upstream configuration.
#[derive(Debug)]
pub struct ProxyConfig {
    pub listen_port: u16,
    pub target_url: String,
    pub transport: TransportType,
}

/// Copies an optional JSON value, preserving its shape.
pub fn copy_opt_json(v: &Option<JsonValue>) -> (r: Option<JsonValue>)
    ensures
        r.deep_view() == v.deep_view(),
{
    match v {
        Option::None => Option::None,
        Option::Some(j) => Option::Some(j.deep_copy()),
    }
}

/// Copies an optional string.
pub fn copy_opt_string(v: &Option<String>) -> (r: Option<String>)
    ensures
        r.deep_view() == v.deep_view(),
{
    match v {
        Option::None => Option::None,
        Option::Some(s) => Option::Some(s.clone()),
    }
}

/// Copies a header mapping, preserving keys, values and order.
pub fn copy_headers(h: &Headers) -> (r: Headers)
    ensures
        r.deep_view() == h.deep_view(),
{
    let mut out: Headers = Vec::new();
    let mut i: usize = 0;
    while i < h.len()
        invariant
            0 <= i <= h.len(),
            out.len() == i,
            forall|j: int| 0 <= j < i ==> out@[j] == h@[j],
        decreases h.len() - i,
    {
        out.push((h[i].0.clone(), h[i].1.clone()));
        i += 1;
    }
    proof {
        assert(out@ =~= h@);
    }
    out
}

/// Copies an optional header mapping.
pub fn copy_opt_headers(h: &Option<Headers>) -> (r: Option<Headers>)
    ensures
        r.deep_view() == h.deep_view(),
{
    match h {
        Option::None => Option::None,
        Option::Some(hs) => Option::Some(copy_headers(hs)),
    }
}

impl JsonRpcMessage {
    /// Copies a captured record, preserving its shape.
    pub fn deep_copy(&self) -> (r: JsonRpcMessage)
        ensures
            r@ == self@,
    {
        let r = JsonRpcMessage {
            id: copy_opt_json(&self.id),
            method: copy_opt_string(&self.method),
            params: copy_opt_json(&self.params),
            result: copy_opt_json(&self.result),
            error: copy_opt_json(&self.error),
            timestamp: self.timestamp,
            direction: self.direction,
            transport: self.transport,
            headers: copy_opt_headers(&self.headers),
        };
        proof {
            assert(r@ =~= self@);
        }
        r
    }
}

} // verus!
