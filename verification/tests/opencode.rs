use agentctl::domain::opencode::{
    cancel_reply, latest_assistant_message_id, read_optional_json, read_string, read_trimmed_string, require_command,
    require_prompt, require_string, resolve_model, route_request, run_reply, GatewayRequest, MessageSummary,
    OpencodeError,
};
use agentctl::json::JsonValue;

fn obj(fields: Vec<(&str, JsonValue)>) -> JsonValue {
    JsonValue::Object(fields.into_iter().map(|(k, v)| (k.to_string(), v)).collect())
}

fn s(v: &str) -> JsonValue {
    JsonValue::Str(v.to_string())
}

#[test]
fn require_prompt_rejects_empty_string() {
    let error = require_prompt(&obj(vec![("prompt", s("   "))])).unwrap_err();
    assert!(error.message().contains("non-empty prompt"));
}

#[test]
fn require_prompt_trims_and_reports_missing_field() {
    assert_eq!(require_prompt(&obj(vec![("prompt", s("  hi \n"))])).unwrap(), "hi");
    let missing = require_prompt(&obj(vec![])).unwrap_err();
    assert_eq!(missing.message(), "opencode_run requires payload.prompt string field");
}

#[test]
fn resolve_model_reads_nested_model_object() {
    let payload = obj(vec![("model", obj(vec![("providerID", s("acme")), ("modelID", s("sonnet-large"))]))]);

    let model = resolve_model(&payload).unwrap();

    assert_eq!(model.provider_id, "acme");
    assert_eq!(model.model_id, "sonnet-large");
}

#[test]
fn resolve_model_reads_snake_case_top_level_fields() {
    let payload = obj(vec![("provider_id", s("openai")), ("model_id", s("gpt-5"))]);

    let model = resolve_model(&payload).unwrap();

    assert_eq!(model.provider_id, "openai");
    assert_eq!(model.model_id, "gpt-5");
}

#[test]
fn resolve_model_falls_back_and_gives_up() {
    let partial = obj(vec![("model", obj(vec![("providerID", s("a"))])), ("provider_id", s("b")), ("model_id", s("c"))]);
    let model = resolve_model(&partial).unwrap();
    assert_eq!(model.provider_id, "b");
    assert!(resolve_model(&obj(vec![("provider_id", s("b"))])).is_none());
    assert!(resolve_model(&obj(vec![("providerID", JsonValue::Null), ("provider_id", s("b")), ("model_id", s("c"))])).is_none());
}

#[test]
fn require_command_strips_leading_slash() {
    let command = require_command(&obj(vec![("command", s(" /review "))])).unwrap();

    assert_eq!(command, "review");
}

#[test]
fn require_command_rejects_empty_command() {
    let error = require_command(&obj(vec![("command", s(" /   "))])).unwrap_err();

    assert!(error.message().contains("non-empty command"));
}

#[test]
fn requests_are_routed_by_name() {
    assert_eq!(route_request("opencode_run").unwrap(), GatewayRequest::Run);
    assert_eq!(route_request("opencode_command").unwrap(), GatewayRequest::Command);
    assert_eq!(route_request("opencode_messages").unwrap(), GatewayRequest::Messages);
    assert_eq!(route_request("opencode_events").unwrap(), GatewayRequest::Events);
    assert_eq!(route_request("opencode_cancel").unwrap(), GatewayRequest::Cancel);
    match route_request("opencode_other") {
        Err(e @ OpencodeError::UnknownRequest(_)) => assert_eq!(e.message(), "unknown OpenCode request: opencode_other"),
        other => panic!("unexpected {other:?}"),
    }
}

#[test]
fn payload_readers() {
    let p = obj(vec![("a", s("  x ")), ("n", JsonValue::Null), ("b", JsonValue::Bool(true))]);
    assert_eq!(read_string(&p, "a"), Some("  x ".to_string()));
    assert_eq!(read_trimmed_string(&p, "a"), Some("x".to_string()));
    assert_eq!(read_trimmed_string(&obj(vec![("a", s("  "))]), "a"), None);
    assert!(read_optional_json(&p, "n").is_none());
    assert!(read_optional_json(&p, "b").is_some());
    assert_eq!(require_string(&p, "a", "req").unwrap(), "  x ");
    assert_eq!(require_string(&p, "b", "req").unwrap_err().message(), "req requires payload.b string field");
}

#[test]
fn latest_assistant_message_is_the_last_one() {
    let msgs = vec![
        MessageSummary { id: "m1".to_string(), role: "assistant".to_string() },
        MessageSummary { id: "m2".to_string(), role: "assistant".to_string() },
        MessageSummary { id: "m3".to_string(), role: "user".to_string() },
    ];
    assert_eq!(latest_assistant_message_id(&msgs), Some("m2".to_string()));
    assert_eq!(latest_assistant_message_id(&msgs[2..].iter().map(|m| MessageSummary { id: m.id.clone(), role: m.role.clone() }).collect()), None);
}

#[test]
fn replies() {
    let r = run_reply("sess_1", None, "done");
    assert_eq!(r.get_str("session_id"), Some("sess_1"));
    assert!(r.get("message_id").unwrap().is_null());
    assert_eq!(r.get_str("output"), Some("done"));
    assert_eq!(run_reply("s", Some("m"), "o").get_str("message_id"), Some("m"));
    let c = cancel_reply("sess_2");
    assert!(matches!(c.get("result"), Some(JsonValue::Bool(true))));
    assert_eq!(OpencodeError::EmptyPrompt.message(), "opencode_run requires a non-empty prompt");
    assert_eq!(OpencodeError::EmptyCommand.message(), "opencode_command requires a non-empty command");
}
