use agentctl::domain::ipc::Message;
use agentctl::domain::runner::protocol::{cancel_message, shutdown_message};
use agentctl::json::JsonValue;

fn obj(fields: Vec<(&str, JsonValue)>) -> JsonValue {
    JsonValue::Object(fields.into_iter().map(|(k, v)| (k.to_string(), v)).collect())
}

fn s(v: &str) -> JsonValue {
    JsonValue::Str(v.to_string())
}

#[test]
fn command_constructor_sets_correct_fields() {
    let msg = Message::command("cmd_1", "start_run", obj(vec![("workflow_path", s("/tmp/duos.js"))]));

    assert_eq!(msg.v, "v1");
    assert_eq!(msg.id, "cmd_1");
    assert_eq!(msg.kind, "command");
    assert_eq!(msg.name, "start_run");
    assert_eq!(msg.payload.get_str("workflow_path"), Some("/tmp/duos.js"));
}

#[test]
fn response_constructor_echoes_request_id() {
    let msg = Message::response("req_abc", "capability_request", obj(vec![]));

    assert_eq!(msg.id, "req_abc");
    assert_eq!(msg.kind, "response");
    assert_eq!(msg.name, "capability_request");
}

#[test]
fn error_response_carries_error_message() {
    let msg = Message::error_response("req_xyz", "capability_request", "something failed");

    assert_eq!(msg.id, "req_xyz");
    assert_eq!(msg.kind, "error");
    assert_eq!(msg.payload.get_str("error"), Some("something failed"));
}

#[test]
fn cancel_and_shutdown_commands() {
    let cancel = cancel_message(42);
    assert_eq!(cancel.name, "cancel_run");
    assert_eq!(cancel.id, "cmd_cancel");
    match cancel.payload.get("run_id") {
        Some(JsonValue::Number(n)) => assert_eq!(n, "42"),
        other => panic!("unexpected {other:?}"),
    }
    assert_eq!(cancel.payload.get_str("reason"), Some("user_requested"));
    let shutdown = shutdown_message();
    assert_eq!(shutdown.name, "shutdown");
    assert_eq!(shutdown.payload.get_str("reason"), Some("run_complete"));
}

#[test]
fn json_lookup_takes_the_first_matching_field() {
    let v = obj(vec![("a", s("1")), ("b", JsonValue::Null), ("a", s("2"))]);
    assert_eq!(v.get_str("a"), Some("1"));
    assert!(v.get("b").unwrap().is_null());
    assert!(v.get("c").is_none());
    assert!(s("x").get("a").is_none());
    assert_eq!(v.into_field("a").and_then(|f| f.as_str().map(str::to_string)), Some("1".to_string()));
}
