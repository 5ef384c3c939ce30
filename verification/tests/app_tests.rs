use jsonrpc_debugger::app::App;
use jsonrpc_debugger::json::JsonValue;
use jsonrpc_debugger::model::{
    InputMode, JsonRpcMessage, MessageDirection, ProxyConfig, TransportType,
};

fn num(n: &str) -> JsonValue {
    JsonValue::Number(n.to_string())
}

fn text(s: &str) -> JsonValue {
    JsonValue::Text(s.to_string())
}

fn obj(fields: Vec<(&str, JsonValue)>) -> JsonValue {
    JsonValue::Object(
        fields
            .into_iter()
            .map(|(k, v)| (k.to_string(), v))
            .collect(),
    )
}

fn arr(items: Vec<JsonValue>) -> JsonValue {
    JsonValue::Array(items)
}

fn opt_eq(a: &Option<JsonValue>, b: &Option<JsonValue>) -> bool {
    match (a, b) {
        (None, None) => true,
        (Some(x), Some(y)) => x.structural_eq(y),
        _ => false,
    }
}

fn request(id: Option<JsonValue>, method: Option<&str>, params: Option<JsonValue>) -> JsonRpcMessage {
    JsonRpcMessage {
        id,
        method: method.map(|m| m.to_string()),
        params,
        result: None,
        error: None,
        timestamp: 0,
        direction: MessageDirection::Request,
        transport: TransportType::Http,
        headers: None,
    }
}

#[test]
fn test_app_new_creates_empty() {
    let app = App::new();

    assert!(app.exchanges.is_empty());
    assert_eq!(app.selected_exchange, 0);
    assert!(app.is_running);
    assert_eq!(app.proxy_config.listen_port, 8080);
    assert_eq!(app.proxy_config.target_url, "");
}

#[test]
fn test_add_message() {
    let mut app = App::new();
    let initial_count = app.exchanges.len();

    let test_message = request(
        Some(num("999")),
        Some("test_method"),
        Some(obj(vec![("test", text("value"))])),
    );

    app.add_message(test_message);

    assert_eq!(app.exchanges.len(), initial_count + 1);
    let last_exchange = app.exchanges.last().unwrap();
    assert_eq!(last_exchange.method, Some("test_method".to_string()));
    assert!(opt_eq(&last_exchange.id, &Some(num("999"))));
    assert!(last_exchange.request.is_some());
    assert!(last_exchange.response.is_none());
}

#[test]
fn test_navigation() {
    let mut app = App::new();

    for i in 0..3 {
        let test_message = request(
            Some(num(&i.to_string())),
            Some(&format!("test_method_{}", i)),
            None,
        );
        app.add_message(test_message);
    }

    let exchange_count = app.exchanges.len();

    app.select_next();
    assert_eq!(app.selected_exchange, 1);

    app.selected_exchange = exchange_count - 1;
    app.select_next();
    assert_eq!(app.selected_exchange, 0);

    app.selected_exchange = 1;
    app.select_previous();
    assert_eq!(app.selected_exchange, 0);

    app.select_previous();
    assert_eq!(app.selected_exchange, exchange_count - 1);
}

#[test]
fn test_get_selected_exchange() {
    let mut app = App::new();

    assert!(app.get_selected_exchange().is_none());

    let test_message = request(Some(num("1")), Some("test_method"), None);
    app.add_message(test_message);

    let selected = app.get_selected_exchange();
    assert!(selected.is_some());
    assert_eq!(selected.unwrap().method, Some("test_method".to_string()));
}

#[test]
fn test_toggle_proxy() {
    let mut app = App::new();

    assert!(app.is_running);
    app.toggle_proxy();
    assert!(!app.is_running);
    app.toggle_proxy();
    assert!(app.is_running);
}

#[test]
fn test_request_response_pairing() {
    let mut app = App::new();

    let http_request = JsonRpcMessage {
        id: Some(num("1")),
        method: Some("eth_getBalance".to_string()),
        params: Some(arr(vec![text("0x123"), text("latest")])),
        result: None,
        error: None,
        timestamp: 0,
        direction: MessageDirection::Request,
        transport: TransportType::Http,
        headers: Some(vec![(
            "Content-Type".to_string(),
            "application/json".to_string(),
        )]),
    };
    app.add_message(http_request);

    let http_response = JsonRpcMessage {
        id: Some(num("1")),
        method: None,
        params: None,
        result: Some(text("0x1b1ae4d6e2ef500000")),
        error: None,
        timestamp: 0,
        direction: MessageDirection::Response,
        transport: TransportType::Http,
        headers: Some(vec![(
            "Content-Type".to_string(),
            "application/json".to_string(),
        )]),
    };
    app.add_message(http_response);

    let ws_request = JsonRpcMessage {
        id: Some(text("ws-123")),
        method: Some("eth_subscribe".to_string()),
        params: Some(arr(vec![text("newHeads")])),
        result: None,
        error: None,
        timestamp: 0,
        direction: MessageDirection::Request,
        transport: TransportType::WebSocket,
        headers: None,
    };
    app.add_message(ws_request);

    let error_response = JsonRpcMessage {
        id: Some(text("ws-123")),
        method: None,
        params: None,
        result: None,
        error: Some(obj(vec![
            ("code", num("-32602")),
            ("message", text("Invalid params")),
        ])),
        timestamp: 0,
        direction: MessageDirection::Response,
        transport: TransportType::WebSocket,
        headers: None,
    };
    app.add_message(error_response);

    assert_eq!(app.exchanges.len(), 2);

    let first_exchange = &app.exchanges[0];
    assert!(first_exchange.request.is_some());
    assert!(first_exchange.response.is_some());
    assert_eq!(first_exchange.method, Some("eth_getBalance".to_string()));
    assert!(matches!(first_exchange.transport, TransportType::Http));

    let second_exchange = &app.exchanges[1];
    assert!(second_exchange.request.is_some());
    assert!(second_exchange.response.is_some());
    assert_eq!(second_exchange.method, Some("eth_subscribe".to_string()));
    assert!(matches!(
        second_exchange.transport,
        TransportType::WebSocket
    ));

    let ws_response = second_exchange.response.as_ref().unwrap();
    assert!(ws_response.error.is_some());
    assert!(ws_response.result.is_none());
}

#[test]
fn test_json_rpc_message_creation() {
    let message = request(
        Some(num("42")),
        Some("test_method"),
        Some(obj(vec![("param1", text("value1"))])),
    );

    assert!(opt_eq(&message.id, &Some(num("42"))));
    assert_eq!(message.method, Some("test_method".to_string()));
    assert!(matches!(message.direction, MessageDirection::Request));
    assert!(matches!(message.transport, TransportType::Http));
}

#[test]
fn test_proxy_config() {
    let config = ProxyConfig {
        listen_port: 9090,
        target_url: "https://example.com".to_string(),
        transport: TransportType::Http,
    };

    assert_eq!(config.listen_port, 9090);
    assert_eq!(config.target_url, "https://example.com");
    assert!(matches!(config.transport, TransportType::Http));
}

#[test]
fn test_filtering_functionality() {
    let mut app = App::new();

    let methods = [
        "eth_getBalance",
        "eth_sendTransaction",
        "net_version",
        "eth_blockNumber",
    ];

    for (i, method) in methods.iter().enumerate() {
        let test_message = request(
            Some(num(&i.to_string())),
            Some(method),
            Some(obj(vec![("test", text(&format!("value_{}", i)))])),
        );
        app.add_message(test_message);
    }

    assert_eq!(app.filter_text, "");
    assert_eq!(app.exchanges.len(), 4);

    app.start_filtering_requests();
    assert_eq!(app.input_mode, InputMode::FilteringRequests);
    assert_eq!(app.input_buffer, "");

    app.handle_input_char('e');
    app.handle_input_char('t');
    app.handle_input_char('h');
    assert_eq!(app.input_buffer, "eth");

    app.apply_filter();
    assert_eq!(app.filter_text, "eth");
    assert_eq!(app.input_mode, InputMode::Normal);
    assert_eq!(app.input_buffer, "");

    let filtered_count = app
        .exchanges
        .iter()
        .filter(|exchange| {
            if app.filter_text.is_empty() {
                true
            } else {
                exchange
                    .method
                    .as_deref()
                    .unwrap_or("")
                    .contains(&app.filter_text)
            }
        })
        .count();

    assert_eq!(filtered_count, 3);

    app.start_filtering_requests();
    app.handle_input_char('n');
    app.handle_input_char('e');
    app.handle_input_char('t');
    app.cancel_filtering();
    assert_eq!(app.filter_text, "eth");
    assert_eq!(app.input_mode, InputMode::Normal);
    assert_eq!(app.input_buffer, "");

    app.start_filtering_requests();
    app.apply_filter();
    assert_eq!(app.filter_text, "");

    let all_count = app
        .exchanges
        .iter()
        .filter(|exchange| {
            if app.filter_text.is_empty() {
                true
            } else {
                exchange
                    .method
                    .as_deref()
                    .unwrap_or("")
                    .contains(&app.filter_text)
            }
        })
        .count();
    assert_eq!(all_count, 4);

    app.start_filtering_requests();
    app.handle_input_char('E');
    app.handle_input_char('T');
    app.handle_input_char('H');
    app.apply_filter();
    assert_eq!(app.filter_text, "ETH");

    let case_insensitive_count = app
        .exchanges
        .iter()
        .filter(|exchange| {
            if app.filter_text.is_empty() {
                true
            } else {
                exchange
                    .method
                    .as_deref()
                    .unwrap_or("")
                    .to_lowercase()
                    .contains(&app.filter_text.to_lowercase())
            }
        })
        .count();
    assert_eq!(case_insensitive_count, 3);
}
