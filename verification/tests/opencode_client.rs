use agentctl::domain::opencode::client::Client;
use agentctl::domain::opencode::server::{
    exited_early_message, map_spawn_error, serve_args, startup_step, timed_out_message, SpawnFailure,
    StartupStep, DEFAULT_HOST, DEFAULT_PORT,
};

#[test]
fn new_trims_trailing_slash() {
    let client = Client::new("http://localhost:4096/");
    assert_eq!(client.base_url, "http://localhost:4096");
}

#[test]
fn new_trims_every_trailing_slash_and_keeps_others() {
    assert_eq!(Client::new("http://h:1///").base_url, "http://h:1");
    assert_eq!(Client::new("http://h:1/api").base_url, "http://h:1/api");
}

#[test]
fn client_endpoints() {
    let client = Client::new("http://h:1/");
    assert_eq!(client.session_url(), "http://h:1/session");
    assert_eq!(client.message_url("sess_1"), "http://h:1/session/sess_1/message");
    assert_eq!(client.abort_url("sess_1"), "http://h:1/session/sess_1/abort");
    let body = Client::chat_body("Hello");
    let parts = body.get("parts").unwrap();
    match parts {
        agentctl::json::JsonValue::Array(items) => {
            assert_eq!(items.len(), 1);
            assert_eq!(items[0].get_str("type"), Some("text"));
            assert_eq!(items[0].get_str("text"), Some("Hello"));
        }
        other => panic!("unexpected {other:?}"),
    }
}

#[test]
fn serve_args_include_default_host_and_port() {
    let args = serve_args();

    assert_eq!(args[0], "serve");
    assert_eq!(args[1], "--hostname");
    assert_eq!(args[2], DEFAULT_HOST);
    assert_eq!(args[3], "--port");
    assert_eq!(args[4], DEFAULT_PORT.to_string());
}

#[test]
fn map_spawn_error_reports_missing_binary_clearly() {
    let error = map_spawn_error(&SpawnFailure::NotFound);

    assert!(error.contains("binary not found"));
}

#[test]
fn map_spawn_error_reports_other_failures() {
    assert_eq!(
        map_spawn_error(&SpawnFailure::Other("permission denied".to_string())),
        "failed to start OpenCode server: permission denied"
    );
}

#[test]
fn startup_steps() {
    assert_eq!(startup_step(true, None, false), StartupStep::Ready);
    assert_eq!(startup_step(false, None, false), StartupStep::Wait);
    assert_eq!(startup_step(false, Some("exit status: 1"), false), StartupStep::Exited("exit status: 1".to_string()));
    assert_eq!(startup_step(true, None, true), StartupStep::TimedOut);
    assert_eq!(
        exited_early_message("exit status: 1"),
        "OpenCode server exited before becoming ready (status: exit status: 1)"
    );
    assert_eq!(timed_out_message(), "timed out waiting for OpenCode server at http://127.0.0.1:4096");
}
