use opencore_jsonrpc_rust::protocol::{Request, Response};
use opencore_jsonrpc_rust::lines::request_text;
use opencore_jsonrpc_rust::server::BinaryServer;
use serde_json::{Map as JsonMap, Value};

type Handler = fn(Vec<Value>) -> Result<Value, String>;

fn new_server() -> BinaryServer<Handler> {
    BinaryServer::new()
}

fn test_handler_success(params: Vec<Value>) -> Result<Value, String> {
    let mut m = JsonMap::new();
    m.insert("received".to_string(), Value::from(params.len()));
    Ok(Value::Object(m))
}

fn test_handler_error(_params: Vec<Value>) -> Result<Value, String> {
    Err("intentional error".to_string())
}

fn add_handler(params: Vec<Value>) -> Result<Value, String> {
    if params.len() != 2 {
        return Err("Expected 2 parameters".into());
    }
    let a = params[0].as_i64().ok_or("Invalid number")?;
    let b = params[1].as_i64().ok_or("Invalid number")?;
    Ok(Value::from(a + b))
}

fn parse(text: &str) -> Value {
    serde_json::from_str(text).unwrap()
}

fn request(id: &str, action: &str, params: Vec<Value>) -> Request {
    Request { id: id.to_string(), action: action.to_string(), params }
}

/// What a host does with the text of an input line: it reads the request
/// fields, or reports why it cannot.
fn parse_request(text: &str) -> Result<Request, String> {
    let v: Value = serde_json::from_str(text).map_err(|e| e.to_string())?;
    let id = v["id"].as_str().ok_or("missing id")?.to_string();
    let action = v["action"].as_str().ok_or("missing action")?.to_string();
    let params = v["params"].as_array().ok_or("missing params")?.clone();
    Ok(Request { id, action, params })
}

#[test]
fn test_server_creation() {
    let server = new_server();
    assert_eq!(server.handler_count(), 0);
}

#[test]
fn test_server_default() {
    let server: BinaryServer<Handler> = BinaryServer::default();
    assert_eq!(server.handler_count(), 0);
}

#[test]
fn test_register_handler() {
    let mut server = new_server();
    server.register("test", test_handler_success);
    assert_eq!(server.handler_count(), 1);
    assert!(server.has_handler("test"));
}

#[test]
fn test_register_multiple_handlers() {
    let mut server = new_server();
    server.register("handler1", test_handler_success);
    server.register("handler2", test_handler_error);
    assert_eq!(server.handler_count(), 2);
}

#[test]
fn test_handle_request_success() {
    let mut server = new_server();
    server.register("test", test_handler_success);

    let response = server.handle_request(request("req-1", "test", vec![Value::from(1), Value::from(2)]));

    match response {
        Response::Success { id, result } => {
            assert_eq!(id, "req-1");
            assert_eq!(result, parse("{\"received\": 2}"));
        }
        _ => panic!("Expected Ok response"),
    }
}

#[test]
fn test_handle_request_handler_error() {
    let mut server = new_server();
    server.register("test", test_handler_error);

    let response = server.handle_request(request("req-2", "test", vec![]));

    match response {
        Response::Error { id, error } => {
            assert_eq!(id, "req-2");
            assert_eq!(error, "intentional error");
        }
        _ => panic!("Expected Error response"),
    }
}

#[test]
fn test_handle_request_unknown_action() {
    let server = new_server();

    let response = server.handle_request(request("req-3", "nonexistent", vec![]));

    match response {
        Response::Error { id, error } => {
            assert_eq!(id, "req-3");
            assert_eq!(error, "unknown action: nonexistent");
        }
        _ => panic!("Expected Error response"),
    }
}

#[test]
fn test_add_handler_success() {
    let mut server = new_server();
    server.register("add", add_handler);

    let response = server.handle_request(request("req-4", "add", vec![Value::from(5), Value::from(10)]));

    match response {
        Response::Success { id, result } => {
            assert_eq!(id, "req-4");
            assert_eq!(result, Value::from(15));
        }
        _ => panic!("Expected Ok response"),
    }
}

#[test]
fn test_add_handler_wrong_param_count() {
    let mut server = new_server();
    server.register("add", add_handler);

    let response = server.handle_request(request("req-5", "add", vec![Value::from(5)]));

    match response {
        Response::Error { id, error } => {
            assert_eq!(id, "req-5");
            assert_eq!(error, "Expected 2 parameters");
        }
        _ => panic!("Expected Error response"),
    }
}

#[test]
fn test_add_handler_invalid_type() {
    let mut server = new_server();
    server.register("add", add_handler);

    let response =
        server.handle_request(request("req-6", "add", vec![Value::from("not a number"), Value::from(10)]));

    match response {
        Response::Error { id, error } => {
            assert_eq!(id, "req-6");
            assert_eq!(error, "Invalid number");
        }
        _ => panic!("Expected Error response"),
    }
}

#[test]
fn test_emit_event() {
    let server = new_server();

    let line = server.emit_event("worker.ready", parse("{\"pid\": 42}")).unwrap();

    let parsed = parse(line.trim());
    assert_eq!(parsed["type"], "event");
    assert_eq!(parsed["event"], "worker.ready");
    assert_eq!(parsed["data"]["pid"], 42);
}

#[test]
fn test_emit_event_empty() {
    let server = new_server();

    let line = server.emit_event_empty("heartbeat").unwrap();

    let parsed = parse(line.trim());
    assert_eq!(parsed["type"], "event");
    assert_eq!(parsed["event"], "heartbeat");
    assert!(parsed.get("data").is_none());
}

#[test]
fn test_emitter_clone_writes_same_stream() {
    let server = new_server();
    let emitter = server.emitter();
    let mut content = String::new();

    content.push_str(&emitter.emit("worker.ready", parse("{\"pid\": 7}")).unwrap());
    content.push_str(&server.emit_event_empty("heartbeat").unwrap());

    let lines: Vec<&str> = content.lines().collect();
    assert_eq!(lines.len(), 2);

    let first = parse(lines[0]);
    let second = parse(lines[1]);
    assert_eq!(first["event"], "worker.ready");
    assert_eq!(second["event"], "heartbeat");
}

#[test]
fn test_run_writes_event_and_response() {
    let mut server = new_server();
    server.register("sum", |params| {
        let a = params[0].as_i64().ok_or("Invalid number")?;
        let b = params[1].as_i64().ok_or("Invalid number")?;
        Ok(Value::from(a + b))
    });

    let mut content = server.emit_event_empty("startup").unwrap();
    let input = "{\"id\":\"req-1\",\"action\":\"sum\",\"params\":[2,3]}\n";
    let text = request_text(input).unwrap();
    content.push_str(&server.reply(parse_request(text)));

    let lines: Vec<&str> = content.lines().collect();
    assert_eq!(lines.len(), 2);

    let event = parse(lines[0]);
    let response = parse(lines[1]);
    assert_eq!(event["type"], "event");
    assert_eq!(event["event"], "startup");
    assert_eq!(response["status"], "ok");
    assert_eq!(response["result"], 5);
}

#[test]
fn reregistering_replaces_the_handler() {
    let mut server = new_server();
    server.register("act", test_handler_success);
    server.register("act", test_handler_error);
    assert_eq!(server.handler_count(), 1);
    match server.handle_request(request("r", "act", vec![])) {
        Response::Error { id, error } => {
            assert_eq!(id, "r");
            assert_eq!(error, "intentional error");
        }
        _ => panic!("Expected Error response"),
    }
    server.register("other", add_handler);
    assert_eq!(server.handler_count(), 2);
    assert!(server.has_handler("act"));
    assert!(!server.has_handler("missing"));
}

#[test]
fn reply_to_unparsable_text_quotes_the_message() {
    let server = new_server();
    let line = server.reply(Err("expected value at line 1 column 1".to_string()));
    assert_eq!(line, "{\"status\":\"error\",\"error\":\"invalid json: expected value at line 1 column 1\"}\n");
}

#[test]
fn reply_lines_are_exact() {
    let mut server = new_server();
    server.register("add", add_handler);
    let line = server.reply(Ok(request("req-4", "add", vec![Value::from(5), Value::from(10)])));
    assert_eq!(line, "{\"status\":\"ok\",\"id\":\"req-4\",\"result\":15}\n");
    let line = server.reply(Ok(request("req-9", "nope", vec![])));
    assert_eq!(line, "{\"status\":\"error\",\"id\":\"req-9\",\"error\":\"unknown action: nope\"}\n");
    let line = server.reply(Ok(request("req-5", "add", vec![Value::from(5)])));
    assert_eq!(line, "{\"status\":\"error\",\"id\":\"req-5\",\"error\":\"Expected 2 parameters\"}\n");
}

#[test]
fn event_lines_end_with_one_line_break() {
    let server = new_server();
    let line = server.emit_event("tick", Value::from("a\nb")).unwrap();
    assert!(line.ends_with('\n'));
    assert_eq!(line.matches('\n').count(), 1);
    assert_eq!(line, "{\"type\":\"event\",\"event\":\"tick\",\"data\":\"a\\nb\"}\n");
}
