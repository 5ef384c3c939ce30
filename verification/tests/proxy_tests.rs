use jsonrpc_debugger::app::App;
use jsonrpc_debugger::json::JsonValue;
use jsonrpc_debugger::model::{JsonRpcMessage, MessageDirection, TransportType};

fn num(n: &str) -> JsonValue {
    JsonValue::Number(n.to_string())
}

fn text(s: &str) -> JsonValue {
    JsonValue::Text(s.to_string())
}

fn obj(fields: Vec<(&str, JsonValue)>) -> JsonValue {
    JsonValue::Object(
        fields
            .into_iter()
            .map(|(k, v)| (k.to_string(), v))
            .collect(),
    )
}

fn opt_eq(a: &Option<JsonValue>, b: &Option<JsonValue>) -> bool {
    match (a, b) {
        (None, None) => true,
        (Some(x), Some(y)) => x.structural_eq(y),
        _ => false,
    }
}

#[test]
fn test_message_channel_integration() {
    let test_message = JsonRpcMessage {
        id: Some(num("123")),
        method: Some("test_method".to_string()),
        params: Some(obj(vec![("test", text("value"))])),
        result: None,
        error: None,
        timestamp: 0,
        direction: MessageDirection::Request,
        transport: TransportType::Http,
        headers: Some(vec![(
            "Content-Type".to_string(),
            "application/json".to_string(),
        )]),
    };

    let mut app = App::new();

    app.check_for_new_messages(vec![test_message]);

    assert_eq!(app.exchanges.len(), 1);
    let last_exchange = app.exchanges.last().unwrap();
    assert_eq!(last_exchange.method, Some("test_method".to_string()));
    assert!(opt_eq(&last_exchange.id, &Some(num("123"))));
    assert!(last_exchange.request.is_some());
    assert!(last_exchange.response.is_none());
}

#[test]
fn test_multiple_message_handling() {
    let mut app = App::new();

    let initial_count = app.exchanges.len();

    let mut batch = Vec::new();
    for i in 1..=5 {
        let message = JsonRpcMessage {
            id: Some(num(&i.to_string())),
            method: Some(format!("method_{}", i)),
            params: None,
            result: None,
            error: None,
            timestamp: 0,
            direction: MessageDirection::Request,
            transport: TransportType::Http,
            headers: None,
        };
        batch.push(message);
    }

    app.check_for_new_messages(batch);

    assert_eq!(app.exchanges.len(), initial_count + 5);

    let last_exchange = app.exchanges.last().unwrap();
    assert_eq!(last_exchange.method, Some("method_5".to_string()));
    assert!(opt_eq(&last_exchange.id, &Some(num("5"))));
    assert!(last_exchange.request.is_some());
    assert!(last_exchange.response.is_none());
}
