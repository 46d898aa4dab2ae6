use agentctl::db::entities::workflow_run::{RunStatus, WorkflowEnv};
use agentctl::domain::daemon::protocol::{cancel_message, shutdown_message};
use agentctl::domain::daemon::{handle_runner_line, parse_runtime_env, runner_js_path, stop_request_step, DaemonLine};
use agentctl::domain::ipc::Message;
use agentctl::domain::runner::ipc_loop::{ParsedLine, StoreAction};
use agentctl::domain::runner::protocol::ProtocolError;
use agentctl::json::JsonValue;

fn obj(fields: Vec<(&str, JsonValue)>) -> JsonValue {
    JsonValue::Object(fields.into_iter().map(|(k, v)| (k.to_string(), v)).collect())
}

fn s(v: &str) -> JsonValue {
    JsonValue::Str(v.to_string())
}

fn msg(kind: &str, name: &str, payload: JsonValue) -> Message {
    Message { v: "v1".to_string(), id: "x".to_string(), kind: kind.to_string(), name: name.to_string(), payload }
}

#[test]
fn daemon_runtime_names() {
    assert_eq!(parse_runtime_env("host").unwrap(), WorkflowEnv::Host);
    assert_eq!(parse_runtime_env("container").unwrap(), WorkflowEnv::Container);
    assert_eq!(parse_runtime_env("vm").unwrap_err(), "unknown runtime env: vm");
    assert_eq!(runner_js_path("/p"), "/p/.agents/.agentctl/lib/runner.js");
}

#[test]
fn daemon_routes_capability_requests() {
    let payload = obj(vec![
        ("capability", s("session_run")),
        ("params", obj(vec![("prompt", s("hi"))])),
        ("request_id", s("req_1")),
    ]);
    match handle_runner_line(1, ParsedLine::Parsed(msg("request", "capability_request", payload))).unwrap() {
        DaemonLine::Capability { request_id, capability, params } => {
            assert_eq!(request_id, "req_1");
            assert_eq!(capability, "session_run");
            assert_eq!(params.get_str("prompt"), Some("hi"));
        }
        other => panic!("unexpected {other:?}"),
    }
    let bad = handle_runner_line(1, ParsedLine::Parsed(msg("request", "capability_request", obj(vec![]))));
    assert_eq!(bad.unwrap_err(), ProtocolError::MissingCapability);
}

#[test]
fn daemon_records_events() {
    match handle_runner_line(2, ParsedLine::Parsed(msg("event", "run_finished", obj(vec![])))).unwrap() {
        DaemonLine::Record { actions, stop } => {
            assert!(stop);
            assert!(matches!(actions[1], StoreAction::SetStatus { run_id: 2, status: RunStatus::Completed }));
        }
        other => panic!("unexpected {other:?}"),
    }
    assert!(matches!(
        handle_runner_line(2, ParsedLine::Parsed(msg("other", "x", obj(vec![])))).unwrap(),
        DaemonLine::Skip
    ));
    assert!(matches!(handle_runner_line(2, ParsedLine::Blank).unwrap(), DaemonLine::Skip));
    match handle_runner_line(2, ParsedLine::Invalid("bad".to_string())).unwrap() {
        DaemonLine::Record { actions, stop } => {
            assert!(!stop);
            assert_eq!(actions.len(), 1);
        }
        other => panic!("unexpected {other:?}"),
    }
}

#[test]
fn daemon_commands() {
    let c = cancel_message("12");
    assert_eq!(c.payload.get_str("run_id"), Some("12"));
    assert_eq!(shutdown_message().payload.get_str("reason"), Some("run_complete"));
}

#[test]
fn daemon_names_the_first_missing_request_field() {
    let no_params = obj(vec![("capability", s("session_run")), ("request_id", s("req_1"))]);
    let r = handle_runner_line(1, ParsedLine::Parsed(msg("request", "capability_request", no_params)));
    assert_eq!(r.unwrap_err(), ProtocolError::MissingParams);
    let no_id = obj(vec![("capability", s("session_run")), ("params", obj(vec![]))]);
    let r = handle_runner_line(1, ParsedLine::Parsed(msg("request", "capability_request", no_id)));
    assert_eq!(r.unwrap_err(), ProtocolError::MissingRequestId);
    let only_id = obj(vec![("request_id", s("req_1"))]);
    let r = handle_runner_line(1, ParsedLine::Parsed(msg("request", "capability_request", only_id)));
    assert_eq!(r.unwrap_err(), ProtocolError::MissingCapability);
}

#[test]
fn daemon_relays_a_stop_request() {
    assert!(stop_request_step(9, RunStatus::Running).is_none());
    assert!(stop_request_step(9, RunStatus::Completed).is_none());
    let step = stop_request_step(9, RunStatus::Cancelled).unwrap();
    assert_eq!(step.cancel.kind, "command");
    assert_eq!(step.cancel.id, "cmd_cancel");
    assert_eq!(step.cancel.name, "cancel_run");
    assert_eq!(step.cancel.payload.get_str("run_id"), Some("9"));
    assert_eq!(step.cancel.payload.get_str("reason"), Some("user_requested"));
    assert!(matches!(step.action, StoreAction::SetStatus { run_id: 9, status: RunStatus::Cancelled }));
}
