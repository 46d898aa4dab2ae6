use agentctl::app::commands::work::{
    print_summary, resolve_workflow, summary_label, validate_workflow_name, worker_result, workflow_candidate,
    WorkError,
};
use agentctl::app::output::{action, command, failure, path, success, warning};
use agentctl::db::entities::workflow_run::RunStatus;

#[test]
fn resolves_ts_workflow() {
    let resolved = resolve_workflow("/tmp/p", "duos", true).unwrap();

    assert_eq!(resolved, "/tmp/p/.agents/workflows/duos.ts");
}

#[test]
fn resolve_error_includes_workflows_directory() {
    let err = resolve_workflow("/tmp/p", "missing", false).unwrap_err();

    let msg = err.message();
    assert!(msg.contains(".agents/workflows"));
    assert_eq!(msg, "workflow 'missing' not found under /tmp/p/.agents/workflows");
}

#[test]
fn rejects_unsafe_workflow_names() {
    let slash = resolve_workflow("/tmp/p", "../escape", true);
    let backslash = resolve_workflow("/tmp/p", "..\\escape", true);
    let nested = resolve_workflow("/tmp/p", "nested/name", true);

    assert!(slash.is_err());
    assert!(backslash.is_err());
    assert!(nested.is_err());
}

#[test]
fn workflow_name_errors() {
    assert!(matches!(validate_workflow_name(""), Err(WorkError::EmptyName)));
    assert_eq!(WorkError::EmptyName.message(), "workflow name cannot be empty");
    match validate_workflow_name("a..b") {
        Err(e @ WorkError::UnsafeName(_)) => {
            assert_eq!(e.message(), "workflow name contains unsafe path characters: 'a..b'")
        }
        other => panic!("unexpected {other:?}"),
    }
    assert_eq!(workflow_candidate("/p", "w").unwrap(), "/p/.agents/workflows/w.ts");
}

#[test]
fn print_summary_labels_match_status() {
    assert!(print_summary("test", RunStatus::Completed).contains("completed"));
    assert!(print_summary("test", RunStatus::Cancelled).contains("cancelled"));
    assert!(print_summary("test", RunStatus::Failed).contains("failed"));
    assert!(print_summary("test", RunStatus::Running).contains("running"));
    assert!(print_summary("test", RunStatus::Pending).contains("pending"));
}

#[test]
fn worker_fails_only_for_failed_runs() {
    assert!(worker_result("duos", RunStatus::Completed).is_ok());
    match worker_result("duos", RunStatus::Failed) {
        Err(e @ WorkError::Failed(_)) => assert_eq!(e.message(), "workflow 'duos' failed"),
        other => panic!("unexpected {other:?}"),
    }
}

#[test]
fn output_styles_when_colouring_is_forced() {
    colored::control::set_override(true);
    assert_eq!(action("Go"), "\x1b[1;93mGo\x1b[0m");
    assert_eq!(success("Done"), "\x1b[1;92mDone\x1b[0m");
    assert_eq!(warning("Careful"), "\x1b[1;33mCareful\x1b[0m");
    assert_eq!(path("/p"), "\x1b[92m/p\x1b[0m");
    assert_eq!(command("run"), "\x1b[93mrun\x1b[0m");
    assert_eq!(failure("failed"), "\x1b[1;91mfailed\x1b[0m");
    assert_eq!(summary_label(RunStatus::Completed), "\x1b[1;92mcompleted\x1b[0m");
    assert_eq!(print_summary("w", RunStatus::Failed), "workflow '\x1b[92mw\x1b[0m' \x1b[1;91mfailed\x1b[0m");
    colored::control::set_override(false);
    assert_eq!(action("Go"), "Go");
    colored::control::unset_override();
}
