use agentctl::db::connection::{database_path, database_url};
use agentctl::db::db::project_database_path;
use agentctl::db::entities::workflow_run::{RunStatus, WorkflowEnv};
use agentctl::domain::runner::signal::{child_exit_result, should_kill, CancelState};
use agentctl::domain::runner::store::{
    append_run_event, create_workflow_session, is_stop_requested, new_run, new_workflow, set_status,
};
use agentctl::json::JsonValue;

#[test]
fn status_updates_record_completion_for_finished_runs_only() {
    let running = set_status(5, RunStatus::Running, 100);
    assert_eq!(running.completed_at, None);
    assert_eq!(running.updated_at, 100);
    for status in [RunStatus::Completed, RunStatus::Failed, RunStatus::Cancelled] {
        assert_eq!(set_status(5, status, 200).completed_at, Some(200));
    }
    assert_eq!(set_status(5, RunStatus::Pending, 1).completed_at, None);
}

#[test]
fn new_records() {
    let w = new_workflow("duos", "/p/duos.ts", 10);
    assert_eq!(w.hash, "dev-hash");
    assert_eq!(w.version, 1);
    let r = new_run(3, 999, WorkflowEnv::Container, 11);
    assert_eq!(r.status, RunStatus::Pending);
    assert_eq!(r.workflow_id, Some(3));
    assert_eq!(r.pid, Some(999));
    let e = append_run_event(4, "log", JsonValue::Null, 12);
    assert_eq!(e.entity_type, "workflow_run");
    assert_eq!(e.event_type, "log");
    let s = create_workflow_session(4, "sess_1", 13);
    assert_eq!(s.opencode_session_id, "sess_1");
    assert!(is_stop_requested(RunStatus::Cancelled));
    assert!(!is_stop_requested(RunStatus::Running));
}

#[test]
fn status_labels() {
    assert_eq!(RunStatus::Completed.label(), "Completed");
    assert_eq!(RunStatus::Pending.label(), "Pending");
    assert_eq!(WorkflowEnv::Container.label(), "Container");
    assert!(RunStatus::Failed.is_terminal());
    assert!(!RunStatus::Running.is_terminal());
}

#[test]
fn database_locations() {
    assert_eq!(database_path("/p"), "/p/.agents/.clankerflow/database.db");
    assert_eq!(project_database_path("/p"), "/p/.agents/.agentctl/database.db");
    assert_eq!(database_url("/p/db.db"), "sqlite:///p/db.db?mode=rwc");
}

#[test]
fn interrupts_escalate() {
    let mut c = CancelState::new();
    assert!(!c.on_interrupt());
    assert!(c.cancelled && !c.force_kill);
    assert!(c.on_interrupt());
    assert!(c.force_kill);
    assert!(should_kill(c, false));
    assert!(!should_kill(CancelState::new(), false));
    assert!(should_kill(CancelState::new(), true));
}

#[test]
fn runner_exit_codes() {
    assert!(child_exit_result(Some(0)).is_ok());
    assert!(child_exit_result(Some(130)).is_ok());
    assert_eq!(child_exit_result(Some(2)).unwrap_err(), "Node runner exited with status 2");
    assert_eq!(child_exit_result(None).unwrap_err(), "Node runner exited with status -1");
}
