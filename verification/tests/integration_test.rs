//! Integration tests for the JSON-RPC library

use opencore_jsonrpc_rust::protocol::{Event, Response};
use serde_json::Value;

#[test]
fn test_response_serialization_roundtrip() {
    let response_ok = Response::Success {
        id: "test-ok".to_string(),
        result: serde_json::from_str("{\"data\": [1, 2, 3]}").unwrap(),
    };

    let json = response_ok.to_json().unwrap();
    let parsed: Value = serde_json::from_str(&json).unwrap();

    assert_eq!(parsed["status"], "ok");
    assert_eq!(parsed["id"], "test-ok");
    assert_eq!(parsed["result"]["data"][0], 1);

    let response_error = Response::Error {
        id: "test-error".to_string(),
        error: "Something went wrong".to_string(),
    };

    let json = response_error.to_json().unwrap();
    let parsed: Value = serde_json::from_str(&json).unwrap();

    assert_eq!(parsed["status"], "error");
    assert_eq!(parsed["id"], "test-error");
    assert_eq!(parsed["error"], "Something went wrong");
}

#[test]
fn test_event_roundtrip() {
    let event = Event::new("worker.ready", Some(serde_json::from_str("{\"pid\": 99}").unwrap()));

    let json = event.to_json().unwrap();
    let parsed: Value = serde_json::from_str(&json).unwrap();

    assert_eq!(parsed["type"], "event");
    assert_eq!(parsed["event"], "worker.ready");
    assert_eq!(parsed["data"]["pid"], 99);
}
