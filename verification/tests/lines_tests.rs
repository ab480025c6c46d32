use opencore_jsonrpc_rust::lines::{
    after_write, invalid_json_reply, next_step, request_text, serialization_failed_reply, LineStep, ReadOutcome,
};
use serde_json::Value;

#[test]
fn request_text_strips_line_terminators() {
    assert_eq!(request_text("abc\r\n"), Some("abc"));
    assert_eq!(request_text("abc\n\r\n"), Some("abc"));
    assert_eq!(request_text("a\rb\n"), Some("a\rb"));
    assert_eq!(request_text("abc"), Some("abc"));
    assert_eq!(request_text("é\n"), Some("é"));
    assert_eq!(request_text("  \n"), Some("  "));
    assert_eq!(request_text("\n"), None);
    assert_eq!(request_text("\r\n\r"), None);
    assert_eq!(request_text(""), None);
}

#[test]
fn request_text_is_idempotent() {
    let once = request_text("x\r\n").unwrap();
    assert_eq!(request_text(once), Some(once));
    assert_eq!(request_text("{\"id\":1}"), request_text("{\"id\":1}\r\n"));
}

#[test]
fn fixed_error_lines() {
    assert_eq!(
        serialization_failed_reply(),
        "{\"status\":\"error\",\"error\":\"serialization failed\"}\n"
    );
    assert_eq!(
        invalid_json_reply("EOF while parsing a value at line 1 column 0"),
        "{\"status\":\"error\",\"error\":\"invalid json: EOF while parsing a value at line 1 column 0\"}\n"
    );
}

#[test]
fn invalid_json_reply_escapes_the_message() {
    let msg = "invalid type: string \"x\", expected a sequence at line 1 column 46";
    let line = invalid_json_reply(msg);
    assert_eq!(
        line,
        "{\"status\":\"error\",\"error\":\"invalid json: invalid type: string \\\"x\\\", expected a sequence at line 1 column 46\"}\n"
    );
    let parsed: Value = serde_json::from_str(line.trim_end()).unwrap();
    assert_eq!(parsed["status"], "error");
    assert_eq!(parsed["error"], format!("invalid json: {}", msg));

    let line = invalid_json_reply("a\nb\u{1}");
    assert_eq!(line.matches('\n').count(), 1);
    let parsed: Value = serde_json::from_str(line.trim_end()).unwrap();
    assert_eq!(parsed["error"], "invalid json: a\nb\u{1}");
}

#[test]
fn next_step_decides_the_loop() {
    assert_eq!(next_step(ReadOutcome::InputUnavailable, "x\n"), LineStep::Stop);
    assert_eq!(next_step(ReadOutcome::Failed, "x\n"), LineStep::Skip);
    assert_eq!(next_step(ReadOutcome::Bytes(0), ""), LineStep::Stop);
    assert_eq!(next_step(ReadOutcome::Bytes(2), "\r\n"), LineStep::Skip);
    assert_eq!(next_step(ReadOutcome::Bytes(4), "abc\n"), LineStep::Handle("abc"));
}

#[test]
fn after_write_falls_back_only_for_requests() {
    assert_eq!(
        after_write(true, false),
        Some("{\"status\":\"error\",\"error\":\"serialization failed\"}\n".to_string())
    );
    assert_eq!(after_write(true, true), None);
    assert_eq!(after_write(false, false), None);
    assert_eq!(after_write(false, true), None);
}
