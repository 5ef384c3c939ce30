use jsonrpc_debugger::app::App;
use jsonrpc_debugger::json::JsonValue;
use jsonrpc_debugger::model::{JsonRpcMessage, MessageDirection, TransportType};

fn num(n: &str) -> JsonValue {
    JsonValue::Number(n.to_string())
}

fn text(s: &str) -> JsonValue {
    JsonValue::Text(s.to_string())
}

fn obj(fields: Vec<(&str, JsonValue)>) -> JsonValue {
    JsonValue::Object(
        fields
            .into_iter()
            .map(|(k, v)| (k.to_string(), v))
            .collect(),
    )
}

fn arr(items: Vec<JsonValue>) -> JsonValue {
    JsonValue::Array(items)
}

fn opt_eq(a: &Option<JsonValue>, b: &Option<JsonValue>) -> bool {
    match (a, b) {
        (None, None) => true,
        (Some(x), Some(y)) => x.structural_eq(y),
        _ => false,
    }
}

#[test]
fn test_full_exchange_flow() {
    let mut app = App::new();
    let initial_count = app.exchanges.len();

    let request = JsonRpcMessage {
        id: Some(num("42")),
        method: Some("eth_blockNumber".to_string()),
        params: Some(arr(vec![])),
        result: None,
        error: None,
        timestamp: 0,
        direction: MessageDirection::Request,
        transport: TransportType::Http,
        headers: Some(vec![(
            "Content-Type".to_string(),
            "application/json".to_string(),
        )]),
    };

    app.add_message(request);

    let response = JsonRpcMessage {
        id: Some(num("42")),
        method: None,
        params: None,
        result: Some(text("0x1234567")),
        error: None,
        timestamp: 0,
        direction: MessageDirection::Response,
        transport: TransportType::Http,
        headers: Some(vec![
            ("Content-Type".to_string(), "application/json".to_string()),
            ("Content-Length".to_string(), "25".to_string()),
        ]),
    };

    app.add_message(response);

    assert_eq!(app.exchanges.len(), initial_count + 1);

    app.selected_exchange = app.exchanges.len() - 1;
    let selected_exchange = app.get_selected_exchange().unwrap();

    assert!(selected_exchange.request.is_some());
    assert!(selected_exchange.response.is_some());
    assert_eq!(selected_exchange.method, Some("eth_blockNumber".to_string()));

    let request_msg = selected_exchange.request.as_ref().unwrap();
    assert_eq!(request_msg.method, Some("eth_blockNumber".to_string()));
    assert!(matches!(request_msg.direction, MessageDirection::Request));

    let response_msg = selected_exchange.response.as_ref().unwrap();
    assert!(response_msg.result.is_some());
    assert!(matches!(response_msg.direction, MessageDirection::Response));

    assert!(opt_eq(&request_msg.id, &response_msg.id));
}

#[test]
fn test_websocket_vs_http_exchanges() {
    let mut app = App::new();

    let http_request = JsonRpcMessage {
        id: Some(num("1")),
        method: Some("eth_getBalance".to_string()),
        params: Some(arr(vec![text("0x123"), text("latest")])),
        result: None,
        error: None,
        timestamp: 0,
        direction: MessageDirection::Request,
        transport: TransportType::Http,
        headers: Some(vec![(
            "Authorization".to_string(),
            "Bearer token123".to_string(),
        )]),
    };

    let ws_request = JsonRpcMessage {
        id: Some(text("ws-456")),
        method: Some("eth_subscribe".to_string()),
        params: Some(arr(vec![text("newHeads")])),
        result: None,
        error: None,
        timestamp: 0,
        direction: MessageDirection::Request,
        transport: TransportType::WebSocket,
        headers: None,
    };

    app.add_message(http_request);
    app.add_message(ws_request);

    assert_eq!(app.exchanges.len(), 2);

    let http_exchange = &app.exchanges[0];
    let ws_exchange = &app.exchanges[1];

    assert!(http_exchange.request.as_ref().unwrap().headers.is_some());
    assert!(matches!(http_exchange.transport, TransportType::Http));

    assert!(ws_exchange.request.as_ref().unwrap().headers.is_none());
    assert!(matches!(ws_exchange.transport, TransportType::WebSocket));
}

#[test]
fn test_error_handling() {
    let mut app = App::new();

    let request = JsonRpcMessage {
        id: Some(num("999")),
        method: Some("invalid_method".to_string()),
        params: None,
        result: None,
        error: None,
        timestamp: 0,
        direction: MessageDirection::Request,
        transport: TransportType::Http,
        headers: None,
    };

    app.add_message(request);

    let error_response = JsonRpcMessage {
        id: Some(num("999")),
        method: None,
        params: None,
        result: None,
        error: Some(obj(vec![
            ("code", num("-32601")),
            ("message", text("Method not found")),
            ("data", text("The method 'invalid_method' does not exist")),
        ])),
        timestamp: 0,
        direction: MessageDirection::Response,
        transport: TransportType::Http,
        headers: None,
    };

    app.add_message(error_response);

    assert_eq!(app.exchanges.len(), 1);
    let exchange = app.exchanges.last().unwrap();

    assert!(exchange.request.is_some());
    assert!(exchange.response.is_some());

    let error_response = exchange.response.as_ref().unwrap();
    assert!(error_response.error.is_some());
    assert!(error_response.result.is_none());
    assert!(error_response.method.is_none());

    let error = error_response.error.as_ref().unwrap();
    assert!(error
        .object_get("code")
        .unwrap()
        .structural_eq(&num("-32601")));
    assert!(error
        .object_get("message")
        .unwrap()
        .structural_eq(&text("Method not found")));
}

#[test]
fn test_proxy_state_management() {
    let mut app = App::new();

    assert!(app.is_running);

    app.toggle_proxy();
    assert!(!app.is_running);

    app.toggle_proxy();
    assert!(app.is_running);

    let msg = JsonRpcMessage {
        id: Some(num("100")),
        method: Some("test_method".to_string()),
        params: None,
        result: None,
        error: None,
        timestamp: 0,
        direction: MessageDirection::Request,
        transport: TransportType::Http,
        headers: None,
    };

    app.add_message(msg);

    assert!(app.is_running);

    app.toggle_proxy();
    assert!(!app.is_running);

    assert!(!app.exchanges.is_empty());
}
