use jsonrpc_debugger::app::App;
use jsonrpc_debugger::forward::{
    build_forward_headers, build_preview, classify_response, process_upstream,
    should_forward_header, UpstreamOutcome,
};
use jsonrpc_debugger::handler::{
    apply_decision, build_request_message, timeout_reply, DecisionAction,
};
use jsonrpc_debugger::json::JsonValue;
use jsonrpc_debugger::jsontext::{parse_json, to_pretty};
use jsonrpc_debugger::model::{
    AppMode, JsonRpcMessage, MessageDirection, PendingRequest, ProxyDecision, TransportType,
};
use jsonrpc_debugger::text::{split_lines, trim_str, u64_to_string};

fn num(n: &str) -> JsonValue {
    JsonValue::Number(n.to_string())
}

fn text(s: &str) -> JsonValue {
    JsonValue::Text(s.to_string())
}

fn obj(fields: Vec<(&str, JsonValue)>) -> JsonValue {
    JsonValue::Object(
        fields
            .into_iter()
            .map(|(k, v)| (k.to_string(), v))
            .collect(),
    )
}

fn arr(items: Vec<JsonValue>) -> JsonValue {
    JsonValue::Array(items)
}

fn request(id: Option<JsonValue>, method: Option<&str>, params: Option<JsonValue>) -> JsonRpcMessage {
    JsonRpcMessage {
        id,
        method: method.map(|m| m.to_string()),
        params,
        result: None,
        error: None,
        timestamp: 0,
        direction: MessageDirection::Request,
        transport: TransportType::Http,
        headers: None,
    }
}

fn pending(id: &str, msg: JsonRpcMessage) -> PendingRequest {
    PendingRequest {
        id: id.to_string(),
        original_request: msg,
        modified_request: None,
        modified_headers: None,
    }
}

fn get<'a>(v: &'a JsonValue, key: &str) -> &'a JsonValue {
    v.object_get(key).unwrap()
}

fn err_of<T>(r: Result<T, String>) -> String {
    match r {
        Err(e) => e,
        Ok(_) => panic!("expected an error"),
    }
}

#[test]
fn test_pairing_is_lifo() {
    let mut app = App::new();
    app.add_message(request(Some(num("1")), Some("a"), None));
    app.add_message(request(Some(num("1")), Some("b"), None));

    let response = JsonRpcMessage {
        id: Some(num("1")),
        method: None,
        params: None,
        result: Some(text("ok")),
        error: None,
        timestamp: 0,
        direction: MessageDirection::Response,
        transport: TransportType::Http,
        headers: None,
    };
    app.add_message(response);

    assert_eq!(app.exchanges.len(), 2);
    assert!(app.exchanges[0].response.is_none());
    assert!(app.exchanges[1].response.is_some());
    assert_eq!(app.exchanges[1].method, Some("b".to_string()));
}

#[test]
fn test_unmatched_response_appends() {
    let mut app = App::new();
    app.add_message(request(Some(num("1")), Some("a"), None));

    let response = JsonRpcMessage {
        id: Some(num("2")),
        method: None,
        params: None,
        result: Some(text("ok")),
        error: None,
        timestamp: 0,
        direction: MessageDirection::Response,
        transport: TransportType::Http,
        headers: None,
    };
    app.add_message(response);

    assert_eq!(app.exchanges.len(), 2);
    assert!(app.exchanges[0].response.is_none());
    assert!(app.exchanges[1].request.is_none());
    assert!(app.exchanges[1].response.is_some());
}

#[test]
fn test_numeric_and_string_ids_are_distinct() {
    let mut app = App::new();
    app.add_message(request(Some(num("1")), Some("a"), None));

    let response = JsonRpcMessage {
        id: Some(text("1")),
        method: None,
        params: None,
        result: Some(text("ok")),
        error: None,
        timestamp: 0,
        direction: MessageDirection::Response,
        transport: TransportType::Http,
        headers: None,
    };
    app.add_message(response);

    assert_eq!(app.exchanges.len(), 2);
    assert!(app.exchanges[0].response.is_none());
}

#[test]
fn test_resume_all_requests() {
    let mut app = App::new();
    app.app_mode = AppMode::Paused;
    app.pending_requests
        .push(pending("p1", request(Some(num("1")), Some("a"), None)));
    app.pending_requests
        .push(pending("p2", request(Some(num("2")), Some("b"), None)));
    app.selected_pending = 1;

    let decisions = app.resume_all_requests();

    assert!(app.pending_requests.is_empty());
    assert_eq!(app.selected_pending, 0);
    assert_eq!(app.app_mode, AppMode::Normal);
    assert_eq!(decisions.len(), 2);
    assert_eq!(decisions[0].0, "p1");
    assert_eq!(decisions[1].0, "p2");
    for (_, d) in &decisions {
        assert!(matches!(d, ProxyDecision::Allow(None, None)));
    }
}

#[test]
fn test_apply_edited_json_rejects_bad_edits() {
    let mut app = App::new();
    app.pending_requests
        .push(pending("p1", request(Some(num("1")), Some("a"), None)));

    let r = app.apply_edited_json("not json".to_string());
    assert!(r.is_err());
    assert!(r.unwrap_err().starts_with("Invalid JSON: "));
    assert!(app.pending_requests[0].modified_request.is_none());

    let r = app.apply_edited_json("{\"method\": \"a\"}".to_string());
    assert_eq!(r.unwrap_err(), "Missing or invalid 'jsonrpc' field");
    assert!(app.pending_requests[0].modified_request.is_none());

    let r = app.apply_edited_json("{\"jsonrpc\": \"2.0\"}".to_string());
    assert_eq!(r.unwrap_err(), "Missing 'method' field");
    assert!(app.pending_requests[0].modified_request.is_none());

    let mut empty = App::new();
    let r = empty.apply_edited_json("{}".to_string());
    assert_eq!(r.unwrap_err(), "No pending request selected");
}

#[test]
fn test_apply_edited_json_success() {
    let mut app = App::new();
    app.pending_requests
        .push(pending("p1", request(Some(num("1")), Some("a"), None)));

    let edited = "{\"jsonrpc\":\"2.0\",\"method\":\"a\",\"params\":[2],\"id\":1}";
    let r = app.apply_edited_json(edited.to_string());
    assert!(r.is_ok());
    assert_eq!(
        app.pending_requests[0].modified_request.as_deref(),
        Some(edited)
    );
}

#[test]
fn test_sanitization_of_error_data() {
    let mut app = App::new();
    let mut noisy = String::new();
    noisy.push('\u{1b}');
    noisy.push_str("ok\n\t");
    noisy.push('\u{e9}');
    for _ in 0..600 {
        noisy.push('x');
    }
    let response = JsonRpcMessage {
        id: Some(num("1")),
        method: None,
        params: None,
        result: None,
        error: Some(obj(vec![
            ("code", num("-32000")),
            ("message", text("boom")),
            ("data", text(&noisy)),
        ])),
        timestamp: 0,
        direction: MessageDirection::Response,
        transport: TransportType::Http,
        headers: None,
    };
    app.add_message(response);

    let stored = app.exchanges[0].response.as_ref().unwrap();
    let data = get(stored.error.as_ref().unwrap(), "data");
    match data {
        JsonValue::Text(s) => {
            assert!(s.chars().count() <= 500);
            assert!(s
                .chars()
                .all(|c| c.is_ascii() && (!c.is_ascii_control() || c == '\n' || c == '\t')));
            assert!(s.starts_with("ok\n\t"));
            assert_eq!(s.chars().count(), 500);
        }
        _ => panic!("data is not text"),
    }
}

#[test]
fn test_request_editor_round_trip() {
    let mut app = App::new();
    app.pending_requests.push(pending(
        "p1",
        request(
            Some(num("7")),
            Some("eth_call"),
            Some(arr(vec![text("0xabc")])),
        ),
    ));

    let shown = app.get_pending_request_json().unwrap();
    let reparsed = parse_json(&shown).unwrap();

    assert!(get(&reparsed, "id").structural_eq(&num("7")));
    assert!(get(&reparsed, "method").structural_eq(&text("eth_call")));
    assert!(get(&reparsed, "params").structural_eq(&arr(vec![text("0xabc")])));
    assert!(get(&reparsed, "jsonrpc").structural_eq(&text("2.0")));
}

#[test]
fn test_serialize_reparse_preserves_shape() {
    let value = obj(vec![
        ("jsonrpc", text("2.0")),
        ("id", num("1")),
        ("params", arr(vec![num("1"), text("two"), JsonValue::Null])),
        ("flag", JsonValue::Bool(true)),
    ]);
    let printed = to_pretty(&value);
    let reparsed = parse_json(&printed).unwrap();
    assert!(get(&reparsed, "id").structural_eq(&num("1")));
    assert!(get(&reparsed, "flag").structural_eq(&JsonValue::Bool(true)));
    assert!(get(&reparsed, "params")
        .structural_eq(&arr(vec![num("1"), text("two"), JsonValue::Null])));
}

#[test]
fn test_allow_unchanged_is_passthrough() {
    let body = obj(vec![
        ("jsonrpc", text("2.0")),
        ("method", text("ping")),
        ("id", num("1")),
    ]);
    let headers = vec![
        ("Host".to_string(), "example.com".to_string()),
        ("Authorization".to_string(), "Bearer t".to_string()),
        ("Content-Length".to_string(), "12".to_string()),
        ("X-Custom".to_string(), "v".to_string()),
    ];
    let action = apply_decision(
        ProxyDecision::Allow(None, None),
        body.deep_copy(),
        headers.clone(),
        0,
    );
    match action {
        DecisionAction::Forward(b, hs) => {
            assert!(b.structural_eq(&body));
            assert_eq!(hs.len(), 4);
            let sent = build_forward_headers(&hs);
            assert_eq!(
                sent,
                vec![
                    ("Authorization".to_string(), "Bearer t".to_string()),
                    ("X-Custom".to_string(), "v".to_string()),
                ]
            );
        }
        _ => panic!("allow did not forward"),
    }
}

#[test]
fn test_should_forward_header_cases() {
    assert!(!should_forward_header("Host"));
    assert!(!should_forward_header("HOST"));
    assert!(!should_forward_header("content-length"));
    assert!(!should_forward_header("Transfer-Encoding"));
    assert!(!should_forward_header("Connection"));
    assert!(should_forward_header("content-type"));
    assert!(should_forward_header("Authorization"));
}

#[test]
fn test_pass_through_success() {
    let mut app = App::new();
    let client_body = parse_json("{\"jsonrpc\":\"2.0\",\"method\":\"ping\",\"id\":1}").unwrap();
    let req_msg = build_request_message(&client_body, vec![], 0);
    let req_id = req_msg.id.as_ref().map(|v| v.deep_copy());
    app.add_message(req_msg);

    let echo = "{\"jsonrpc\":\"2.0\",\"id\":1,\"result\":\"ok\"}";
    let (stored, status, reply) = process_upstream(
        &req_id,
        UpstreamOutcome::BodyReceived(
            200,
            vec![("content-type".to_string(), "application/json".to_string())],
            echo.to_string(),
        ),
        "http://upstream",
        0,
    );
    assert_eq!(status, 200);
    assert!(get(&reply, "result").structural_eq(&text("ok")));
    app.add_message(stored);

    assert_eq!(app.exchanges.len(), 1);
    let ex = &app.exchanges[0];
    assert!(ex.request.is_some());
    assert!(ex.response.is_some());
    assert_eq!(ex.method, Some("ping".to_string()));
}

#[test]
fn test_malformed_upstream_html() {
    let mut app = App::new();
    let client_body = parse_json("{\"jsonrpc\":\"2.0\",\"method\":\"m\",\"id\":2}").unwrap();
    let req_msg = build_request_message(&client_body, vec![], 0);
    let req_id = req_msg.id.as_ref().map(|v| v.deep_copy());
    app.add_message(req_msg);

    let (stored, status, reply) = process_upstream(
        &req_id,
        UpstreamOutcome::BodyReceived(
            200,
            vec![("content-type".to_string(), "text/html".to_string())],
            "<html><body>oops</body></html>".to_string(),
        ),
        "http://upstream",
        0,
    );
    assert_eq!(status, 200);
    let error = get(&reply, "error");
    assert!(get(error, "code").structural_eq(&num("-32700")));
    assert!(get(get(error, "data"), "issue_type").structural_eq(&text("html_response")));

    let stored_error = stored.error.as_ref().unwrap().deep_copy();
    app.add_message(stored);
    let ex = &app.exchanges[0];
    assert!(ex.response.is_some());
    let data = get(&stored_error, "data");
    match get(data, "response_preview") {
        JsonValue::Text(s) => assert!(!s.is_empty()),
        _ => panic!("preview missing"),
    }
}

#[test]
fn test_pause_allow_with_body_edit() {
    let mut app = App::new();
    app.app_mode = AppMode::Paused;
    let original = parse_json("{\"jsonrpc\":\"2.0\",\"method\":\"a\",\"params\":[1],\"id\":3}")
        .unwrap();
    app.pending_requests.push(pending(
        "p1",
        build_request_message(&original, vec![], 0),
    ));

    let edited = "{\"jsonrpc\":\"2.0\",\"method\":\"a\",\"params\":[2],\"id\":3}";
    app.apply_edited_json(edited.to_string()).unwrap();

    let (pid, decision) = app.allow_selected_request().unwrap();
    assert_eq!(pid, "p1");
    let action = apply_decision(decision, original.deep_copy(), vec![], 0);
    match action {
        DecisionAction::Forward(b, _) => {
            assert!(get(&b, "params").structural_eq(&arr(vec![num("2")])));
        }
        _ => panic!("allow did not forward"),
    }
    assert!(app.pending_requests.is_empty());
}

#[test]
fn test_pause_block() {
    let mut app = App::new();
    app.app_mode = AppMode::Paused;
    let original = parse_json("{\"jsonrpc\":\"2.0\",\"method\":\"a\",\"id\":9}").unwrap();
    app.add_message(build_request_message(&original, vec![], 0));
    app.pending_requests.push(pending(
        "p1",
        build_request_message(&original, vec![], 0),
    ));

    let (_, decision) = app.block_selected_request().unwrap();
    assert!(matches!(decision, ProxyDecision::Block));

    let action = apply_decision(decision, original, vec![], 0);
    match action {
        DecisionAction::Reply(status, body) => {
            assert_eq!(status, 200);
            let error = get(&body, "error");
            assert!(get(error, "code").structural_eq(&num("-32603")));
            assert!(get(error, "message").structural_eq(&text("Request blocked by user")));
            assert!(get(&body, "id").structural_eq(&num("9")));
        }
        _ => panic!("block did not reply"),
    }

    assert_eq!(app.exchanges.len(), 1);
    assert!(app.exchanges[0].response.is_none());
}

#[test]
fn test_pause_complete() {
    let mut app = App::new();
    app.app_mode = AppMode::Paused;
    let original = parse_json("{\"jsonrpc\":\"2.0\",\"method\":\"a\",\"id\":4}").unwrap();
    app.pending_requests.push(pending(
        "p1",
        build_request_message(&original, vec![], 0),
    ));

    let supplied = "{\"jsonrpc\":\"2.0\",\"id\":4,\"result\":42}";
    let (pid, decision) = app
        .complete_selected_request(supplied.to_string())
        .unwrap();
    assert_eq!(pid, "p1");
    assert!(app.pending_requests.is_empty());

    let action = apply_decision(decision, original, vec![], 0);
    match action {
        DecisionAction::CompleteWith(stored, status, body) => {
            assert_eq!(status, 200);
            assert!(body.structural_eq(&parse_json(supplied).unwrap()));
            assert!(stored.result.as_ref().unwrap().structural_eq(&num("42")));
            let headers = stored.headers.as_ref().unwrap();
            assert!(headers
                .iter()
                .any(|(k, v)| k == "x-proxy-completed" && v == "true"));
        }
        _ => panic!("complete did not synthesize"),
    }
}

#[test]
fn test_complete_validation_errors() {
    let mut app = App::new();
    app.pending_requests
        .push(pending("p1", request(Some(num("4")), Some("a"), None)));

    let r = app.complete_selected_request("garbage".to_string());
    assert!(err_of(r).starts_with("Invalid JSON: "));

    let r = app.complete_selected_request("{\"id\":4,\"result\":1}".to_string());
    assert_eq!(err_of(r), "Missing or invalid 'jsonrpc' field");

    let r = app.complete_selected_request("{\"jsonrpc\":\"2.0\",\"result\":1}".to_string());
    assert_eq!(err_of(r), "Missing 'id' field");

    let r = app.complete_selected_request("{\"jsonrpc\":\"2.0\",\"id\":4}".to_string());
    assert_eq!(
        err_of(r),
        "Response must have either 'result' or 'error' field"
    );

    let r = app.complete_selected_request(
        "{\"jsonrpc\":\"2.0\",\"id\":4,\"result\":1,\"error\":{}}".to_string(),
    );
    assert_eq!(
        err_of(r),
        "Response cannot have both 'result' and 'error' fields"
    );

    assert_eq!(app.pending_requests.len(), 1);
}

#[test]
fn test_timeout_reply() {
    let (status, body) = timeout_reply(&Some(num("5")));
    assert_eq!(status, 408);
    let error = get(&body, "error");
    assert!(get(error, "code").structural_eq(&num("-32603")));
    assert!(get(error, "message")
        .structural_eq(&text("Request timed out waiting for user decision")));
    assert!(get(&body, "id").structural_eq(&num("5")));
}

#[test]
fn test_transport_failure_reply() {
    let (stored, status, reply) = process_upstream(
        &Some(num("1")),
        UpstreamOutcome::TransportFailure,
        "http://nowhere",
        0,
    );
    assert_eq!(status, 502);
    let error = get(&reply, "error");
    assert!(get(error, "code").structural_eq(&num("-32603")));
    assert!(get(error, "message").structural_eq(&text("Failed to connect to target server")));
    assert!(stored.headers.is_none());
    assert!(matches!(stored.direction, MessageDirection::Response));
}

#[test]
fn test_body_read_failure_reply() {
    let hs = vec![("content-type".to_string(), "text/plain".to_string())];
    let (stored, status, reply) = process_upstream(
        &Some(num("1")),
        UpstreamOutcome::BodyReadFailure(hs.clone()),
        "http://nowhere",
        0,
    );
    assert_eq!(status, 500);
    let error = get(&reply, "error");
    assert!(get(error, "message")
        .structural_eq(&text("Internal error - failed to read response")));
    assert_eq!(stored.headers.as_ref().unwrap(), &hs);
}

#[test]
fn test_classify_variants() {
    assert_eq!(classify_response("   ", "text/plain"), "empty_response");
    assert_eq!(classify_response("a\0b", "text/plain"), "binary_data");
    assert_eq!(
        classify_response("<html>", "text/html; charset=utf-8"),
        "html_response"
    );
    assert_eq!(
        classify_response("{\"broken\":", "application/json"),
        "malformed_json"
    );
    assert_eq!(classify_response("plain", "text/plain"), "unknown_format");
}

#[test]
fn test_preview_shapes() {
    assert_eq!(build_preview("short"), "short");
    assert_eq!(build_preview("a\0"), "Binary data: [61, 00]...");
    let long: String = std::iter::repeat('x').take(250).collect();
    let p = build_preview(&long);
    assert_eq!(p.chars().count(), 203);
    assert!(p.ends_with("..."));
    let long_json = format!("{{\"k\":\"{}\"}}", "y".repeat(600));
    let pj = build_preview(&long_json);
    assert_eq!(pj.chars().count(), 503);
}

#[test]
fn test_apply_edited_headers() {
    let mut app = App::new();
    app.pending_requests
        .push(pending("p1", request(Some(num("1")), Some("a"), None)));

    let edit = "# comment line\n\nX-One: 1\nX-Two:  2  \nX-One: 3\n";
    app.apply_edited_headers(edit.to_string()).unwrap();
    let hs = app.pending_requests[0].modified_headers.as_ref().unwrap();
    assert_eq!(
        hs,
        &vec![
            ("X-One".to_string(), "3".to_string()),
            ("X-Two".to_string(), "2".to_string()),
        ]
    );

    let r = app.apply_edited_headers("broken line".to_string());
    assert_eq!(
        r.unwrap_err(),
        "Invalid header format: 'broken line'. Use 'key: value' format."
    );

    app.apply_edited_headers("".to_string()).unwrap();
    assert!(app.pending_requests[0]
        .modified_headers
        .as_ref()
        .unwrap()
        .is_empty());
}

#[test]
fn test_get_pending_request_headers_template() {
    let mut app = App::new();
    app.pending_requests
        .push(pending("p1", request(Some(num("1")), Some("a"), None)));
    assert_eq!(
        app.get_pending_request_headers().unwrap(),
        "# No headers\n# Add headers in the format:\n# header-name: header-value"
    );

    app.pending_requests[0].modified_headers = Some(vec![
        ("A".to_string(), "1".to_string()),
        ("B".to_string(), "2".to_string()),
    ]);
    assert_eq!(app.get_pending_request_headers().unwrap(), "A: 1\nB: 2");
}

#[test]
fn test_send_new_request_validation() {
    let mut app = App::new();

    let r = app.send_new_request("nope");
    assert!(r.unwrap_err().starts_with("Invalid JSON: "));

    let r = app.send_new_request("{\"method\":\"m\"}");
    assert_eq!(r.unwrap_err(), "Missing or invalid 'jsonrpc' field");

    let r = app.send_new_request("{\"jsonrpc\":\"2.0\"}");
    assert_eq!(r.unwrap_err(), "Missing 'method' field");

    let r = app.send_new_request("{\"jsonrpc\":\"2.0\",\"method\":\"m\"}");
    assert_eq!(
        r.unwrap_err(),
        "Target URL is not set. Press 't' to set a target URL first."
    );

    app.proxy_config.target_url = "http://up".to_string();
    let r = app.send_new_request("{\"jsonrpc\":\"2.0\",\"method\":\"m\"}");
    assert_eq!(r.unwrap(), "http://localhost:8080");

    app.app_mode = AppMode::Paused;
    let r = app.send_new_request("{\"jsonrpc\":\"2.0\",\"method\":\"m\"}");
    assert_eq!(r.unwrap(), "http://up");
}

#[test]
fn test_text_utilities() {
    assert_eq!(u64_to_string(0), "0");
    assert_eq!(u64_to_string(12034), "12034");
    assert_eq!(trim_str("  a b\t"), "a b");
    assert_eq!(split_lines("a\r\nb\nc"), vec!["a", "b", "c"]);
    assert_eq!(split_lines("a\n"), vec!["a"]);
    assert!(split_lines("").is_empty());
}

#[test]
fn test_exchange_passes_filter() {
    let mut app = App::new();
    app.add_message(request(Some(num("1")), Some("eth_getBalance"), None));
    app.add_message(request(Some(num("2")), Some("net_version"), None));
    app.add_message(request(Some(num("3")), None, None));

    assert!(app.exchange_passes_filter(0));
    assert!(app.exchange_passes_filter(2));

    app.filter_text = "eth".to_string();
    assert!(app.exchange_passes_filter(0));
    assert!(!app.exchange_passes_filter(1));
    assert!(!app.exchange_passes_filter(2));
}

#[test]
fn test_pending_navigation_wraps() {
    let mut app = App::new();
    app.pending_requests
        .push(pending("p1", request(Some(num("1")), Some("a"), None)));
    app.pending_requests
        .push(pending("p2", request(Some(num("2")), Some("b"), None)));

    app.select_next_pending();
    assert_eq!(app.selected_pending, 1);
    app.select_next_pending();
    assert_eq!(app.selected_pending, 0);
    app.select_previous_pending();
    assert_eq!(app.selected_pending, 1);
    assert_eq!(app.get_selected_pending().unwrap().id, "p2");
}

#[test]
fn test_details_content_lines() {
    let mut app = App::new();
    assert_eq!(app.get_details_content_lines(), 1);

    app.add_message(request(Some(num("1")), Some("m"), None));
    // 3 summary lines, request banner (2) + json header (2) + pretty body,
    // response placeholder (2); the body prints jsonrpc, id and method over
    // five lines.
    assert_eq!(app.get_details_content_lines(), 14);
}
