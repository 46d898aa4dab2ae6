//! The records the run store writes for a run: new runs, status updates,
//! events and OpenCode sessions. Times are seconds since the Unix epoch.
use vstd::prelude::*;

use crate::db::entities::workflow_run::{RunStatus, WorkflowEnv};
use crate::json::JsonValue;
use crate::text;

verus! {

/// A new workflow record.
#[derive(Debug)]
pub struct NewWorkflow {
    pub name: String,
    pub save_file: String,
    pub hash: String,
    pub version: i32,
    pub created_at: i64,
}

/// A new run record.
#[derive(Debug)]
pub struct NewRun {
    pub workflow_id: Option<i64>,
    pub pid: Option<i64>,
    pub env: WorkflowEnv,
    pub status: RunStatus,
    pub created_at: i64,
    pub updated_at: i64,
}

/// A change of a run's status.
#[derive(Debug, Clone, Copy, PartialEq, Eq, Structural)]
pub struct StatusUpdate {
    pub id: i64,
    pub status: RunStatus,
    pub updated_at: i64,
    pub completed_at: Option<i64>,
}

/// A new event record of a run.
#[derive(Debug)]
pub struct NewEvent {
    pub entity_id: i64,
    pub entity_type: String,
    pub event_type: String,
    pub data: Option<JsonValue>,
    pub created_at: i64,
}

/// A new association of a run with an OpenCode session.
#[derive(Debug)]
pub struct NewWorkflowSession {
    pub workflow_run_id: i64,
    pub opencode_session_id: String,
    pub created_at: i64,
    pub updated_at: i64,
}

/// The workflow record created the first time a workflow name is run.
pub fn new_workflow(name: &str, path: &str, now: i64) -> (r: NewWorkflow)
    ensures
        r.name@ == name@,
        r.save_file@ == path@,
        r.hash@ == "dev-hash"@,
        r.version == 1,
        r.created_at == now,
{
    NewWorkflow {
        name: text::owned(name),
        save_file: text::owned(path),
        hash: text::owned("dev-hash"),
        version: 1,
        created_at: now,
    }
}

/// A run of `workflow_id` by process `pid`, pending.
pub fn new_run(workflow_id: i64, pid: i64, env: WorkflowEnv, now: i64) -> (r: NewRun)
    ensures
        r.workflow_id == Some(workflow_id),
        r.pid == Some(pid),
        r.env == env,
        r.status == RunStatus::Pending,
        r.created_at == now,
        r.updated_at == now,
{
    NewRun {
        workflow_id: Some(workflow_id),
        pid: Some(pid),
        env,
        status: RunStatus::Pending,
        created_at: now,
        updated_at: now,
    }
}

/// Sets run `id` to `status` at `now`; the completion time is recorded for
/// finished statuses only.
pub fn set_status(id: i64, status: RunStatus, now: i64) -> (r: StatusUpdate)
    ensures
        r.id == id,
        r.status == status,
        r.updated_at == now,
        r.completed_at == (if status.spec_is_terminal() {
            Some(now)
        } else {
            None::<i64>
        }),
{
    let completed_at = if status.is_terminal() {
        Some(now)
    } else {
        None
    };
    StatusUpdate { id, status, updated_at: now, completed_at }
}

/// An event of run `id`.
pub fn append_run_event(id: i64, event_type: &str, data: JsonValue, now: i64) -> (r: NewEvent)
    ensures
        r.entity_id == id,
        r.entity_type@ == "workflow_run"@,
        r.event_type@ == event_type@,
        r.data == Some(data),
        r.created_at == now,
{
    NewEvent {
        entity_id: id,
        entity_type: text::owned("workflow_run"),
        event_type: text::owned(event_type),
        data: Some(data),
        created_at: now,
    }
}

/// Links run `run_id` with OpenCode session `opencode_session_id`.
pub fn create_workflow_session(run_id: i64, opencode_session_id: &str, now: i64) -> (r:
    NewWorkflowSession)
    ensures
        r.workflow_run_id == run_id,
        r.opencode_session_id@ == opencode_session_id@,
        r.created_at == now,
        r.updated_at == now,
{
    NewWorkflowSession {
        workflow_run_id: run_id,
        opencode_session_id: text::owned(opencode_session_id),
        created_at: now,
        updated_at: now,
    }
}

/// Whether a run has been asked to stop: its stored status is `Cancelled`.
pub fn is_stop_requested(status: RunStatus) -> (r: bool)
    ensures
        r == (status == RunStatus::Cancelled),
{
    status == RunStatus::Cancelled
}

} // verus!
