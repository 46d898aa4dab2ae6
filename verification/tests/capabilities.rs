use agentctl::domain::capabilities::{capability_domain, dispatch, require_str, CapabilityRequest};
use agentctl::domain::daemon::protocol::parse_capability_request_payload;
use agentctl::domain::runner::protocol::ProtocolError;
use agentctl::json::JsonValue;

fn obj(fields: Vec<(&str, JsonValue)>) -> JsonValue {
    JsonValue::Object(fields.into_iter().map(|(k, v)| (k.to_string(), v)).collect())
}

fn s(v: &str) -> JsonValue {
    JsonValue::Str(v.to_string())
}

#[test]
fn unknown_domain_returns_error_response() {
    let params = obj(vec![]);
    let request = CapabilityRequest { capability: "bogus_thing", params: &params };

    let response = dispatch("req_1", &request, None);

    assert_eq!(response.kind, "error");
    assert!(response.payload.get_str("error").unwrap_or("").contains("unknown capability domain"));
}

#[test]
fn session_domain_relays_the_session_reply() {
    let params = obj(vec![]);
    let request = CapabilityRequest { capability: "session_run", params: &params };

    let ok = dispatch("req_2", &request, Some(Ok(obj(vec![("session_id", s("sess_1"))]))));
    assert_eq!(ok.kind, "response");
    assert_eq!(ok.id, "req_2");
    assert_eq!(ok.name, "capability_response");
    assert_eq!(ok.payload.get_str("session_id"), Some("sess_1"));

    let failed = dispatch("req_3", &request, Some(Err("boom".to_string())));
    assert_eq!(failed.kind, "error");
    assert_eq!(failed.payload.get_str("error"), Some("boom"));
}

#[test]
fn capability_domain_is_the_prefix_before_underscore() {
    assert_eq!(capability_domain("session_run"), "session");
    assert_eq!(capability_domain("plain"), "plain");
    assert_eq!(capability_domain("_x"), "");
}

#[test]
fn require_str_returns_value_when_present() {
    let params = obj(vec![("prompt", s("hello"))]);

    let value = require_str(&params, "prompt", "session_run").unwrap();

    assert_eq!(value, "hello");
}

#[test]
fn require_str_errors_when_key_missing() {
    let params = obj(vec![]);

    let err = require_str(&params, "prompt", "session_run").unwrap_err();

    assert!(err.message().contains("prompt"));
    assert_eq!(err.message(), "capability 'session_run' missing required param: prompt");
}

#[test]
fn parse_capability_request_payload_reads_nested_fields() {
    let payload = obj(vec![
        ("request_id", s("req_123")),
        ("capability", s("session_run")),
        ("params", obj(vec![("prompt", s("hello"))])),
    ]);

    let (capability, params, request_id) = parse_capability_request_payload(&payload).unwrap();

    assert_eq!(capability, "session_run");
    assert_eq!(request_id, "req_123");
    assert_eq!(params.get_str("prompt"), Some("hello"));
}

#[test]
fn parse_capability_request_payload_requires_request_id() {
    let payload = obj(vec![("capability", s("session_run")), ("params", obj(vec![("prompt", s("hello"))]))]);

    let error = parse_capability_request_payload(&payload).unwrap_err();

    assert!(error.message().contains("payload.request_id"));
}

#[test]
fn capability_payload_errors_in_field_order() {
    assert_eq!(parse_capability_request_payload(&obj(vec![])).unwrap_err(), ProtocolError::MissingCapability);
    assert_eq!(
        parse_capability_request_payload(&obj(vec![("capability", s("x"))])).unwrap_err(),
        ProtocolError::MissingParams
    );
    assert_eq!(
        ProtocolError::MissingCapability.message(),
        "capability_request missing payload.capability"
    );
    assert_eq!(ProtocolError::MissingParams.message(), "capability_request missing payload.params");
}
