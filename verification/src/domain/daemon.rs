//! The detached workflow daemon: its runner location, runtime names, and
//! what each runner line means for it, including capability requests.
pub mod protocol;

use vstd::prelude::*;

use crate::db::entities::workflow_run::{RunStatus, WorkflowEnv};
use crate::domain::ipc::Message;
use crate::domain::runner::ipc_loop::{self, ParsedLine, StoreAction};
use crate::domain::runner::protocol::ProtocolError;
use crate::json::JsonValue;
use crate::text;

verus! {

/// What the daemon does with one runner line.
#[derive(Debug)]
pub enum DaemonLine {
    /// Nothing (blank line or an ignored message kind).
    Skip,
    /// Store operations, and whether to keep reading afterwards.
    Record { actions: Vec<StoreAction>, stop: bool },
    /// Answer a capability request (see `capabilities::dispatch`).
    Capability { request_id: String, capability: String, params: JsonValue },
}

/// `<project_root>/.agents/.agentctl/lib/runner.js`.
pub fn runner_js_path(project_root: &str) -> (r: String)
    ensures
        r@ == text::join_path(project_root@, ".agents/.agentctl/lib/runner.js"@),
{
    text::join(project_root, ".agents/.agentctl/lib/runner.js")
}

/// Reads a runtime name: `host` or `container`; anything else is refused
/// with `unknown runtime env: <name>`.
pub fn parse_runtime_env(env: &str) -> (r: Result<WorkflowEnv, String>)
    ensures
        env@ == "host"@ ==> r == Ok::<WorkflowEnv, String>(WorkflowEnv::Host),
        env@ == "container"@ ==> r == Ok::<WorkflowEnv, String>(WorkflowEnv::Container),
        env@ != "host"@ && env@ != "container"@ ==> (r matches Err(e) && e@
            == "unknown runtime env: "@ + env@),
{
    proof {
        reveal_strlit("host");
        reveal_strlit("container");
        assert("host"@.len() != "container"@.len());
    }
    if text::str_eq(env, "host") {
        Ok(WorkflowEnv::Host)
    } else if text::str_eq(env, "container") {
        Ok(WorkflowEnv::Container)
    } else {
        Err(text::concat("unknown runtime env: ", env))
    }
}

/// Handles one runner line of run `run_id`. A blank line is skipped and a
/// line that is not a message is recorded as a parse error, as in the
/// runner loop. A `request` is a capability request; a malformed one is an
/// error that ends the loop, naming the first missing field (in the order
/// capability, params, request id). An `event` is recorded and may finish the run.
/// Other kinds are ignored.
pub fn handle_runner_line(run_id: i64, parsed: ParsedLine) -> (r: Result<DaemonLine, ProtocolError>)
    ensures
        match parsed {
            ParsedLine::Blank => r matches Ok(DaemonLine::Skip),
            ParsedLine::Invalid(error) => r matches Ok(DaemonLine::Record { actions, stop }) && !stop
                && actions@.len() == 1 && ipc_loop::appends_parse_error(actions@[0], run_id, error@),
            ParsedLine::Parsed(m) => if m.kind@ == "request"@ {
                match r {
                    Ok(DaemonLine::Capability { request_id, capability, params }) => {
                        &&& m.payload.str_field("capability"@) == Some(capability@)
                        &&& m.payload.field("params"@) == Some(params)
                        &&& m.payload.str_field("request_id"@) == Some(request_id@)
                    },
                    Err(e) => if m.payload.str_field("capability"@) is None {
                        e == ProtocolError::MissingCapability
                    } else if m.payload.field("params"@) is None {
                        e == ProtocolError::MissingParams
                    } else {
                        e == ProtocolError::MissingRequestId && m.payload.str_field("request_id"@)
                            is None
                    },
                    _ => false,
                }
            } else if m.kind@ == "event"@ {
                r matches Ok(DaemonLine::Record { actions, stop }) && {
                    &&& actions@.len() >= 1
                    &&& ipc_loop::appends(actions@[0], run_id, m.name@, m.payload)
                    &&& match ipc_loop::status_effect(m) {
                        Some((c, st)) => actions@.len() == 2 && ipc_loop::sets_status(
                            actions@[1],
                            run_id,
                            st,
                        ) && stop == (c == crate::domain::runner::protocol::LoopControl::Stop),
                        None => actions@.len() == 1 && !stop,
                    }
                }
            } else {
                r matches Ok(DaemonLine::Skip)
            },
        },
{
    match parsed {
        ParsedLine::Blank => Ok(DaemonLine::Skip),
        ParsedLine::Invalid(e) => {
            let out = ipc_loop::handle_runner_line(run_id, ParsedLine::Invalid(e));
            Ok(DaemonLine::Record { actions: out.actions, stop: false })
        },
        ParsedLine::Parsed(m) => {
            if text::str_eq(m.kind.as_str(), "request") {
                let (capability, request_id) = match crate::domain::runner::protocol::parse_capability_request_payload(
                    &m.payload,
                ) {
                    Ok((c, _, id)) => (text::owned(c), text::owned(id)),
                    Err(e) => return Err(e),
                };
                let ghost p0 = m.payload;
                let params = match m.payload.into_field("params") {
                    Some(p) => p,
                    None => {
                        proof {
                            assert(false);
                        }
                        JsonValue::Null
                    },
                };
                Ok(DaemonLine::Capability { request_id, capability, params })
            } else if text::str_eq(m.kind.as_str(), "event") {
                let effect = ipc_loop::update_run_status_for_event(&m);
                let Message { v: _, id: _, kind: _, name, payload } = m;
                let mut actions: Vec<StoreAction> = Vec::new();
                actions.push(StoreAction::AppendEvent { run_id, event_type: name, data: payload });
                match effect {
                    Some((control, status)) => {
                        actions.push(StoreAction::SetStatus { run_id, status });
                        let stop = match control {
                            crate::domain::runner::protocol::LoopControl::Stop => true,
                            crate::domain::runner::protocol::LoopControl::Continue => false,
                        };
                        Ok(DaemonLine::Record { actions, stop })
                    },
                    None => Ok(DaemonLine::Record { actions, stop: false }),
                }
            } else {
                Ok(DaemonLine::Skip)
            }
        },
    }
}

/// What the daemon does once a run has been asked to stop: the command that
/// tells the runner to cancel, and the store update that marks the run
/// cancelled.
#[derive(Debug)]
pub struct StopStep {
    pub cancel: Message,
    pub action: StoreAction,
}

/// Checks the stored status of run `run_id` before each runner line: a run
/// stored as `Cancelled` was asked to stop, so the daemon relays a cancel
/// (carrying the run id as text) and keeps the run cancelled; any other
/// status needs nothing.
pub fn stop_request_step(run_id: i64, status: RunStatus) -> (r: Option<StopStep>)
    ensures
        r is Some <==> status == RunStatus::Cancelled,
        r matches Some(step) ==> {
            &&& step.cancel.kind@ == "command"@
            &&& step.cancel.id@ == "cmd_cancel"@
            &&& step.cancel.name@ == "cancel_run"@
            &&& step.cancel.payload.str_field("run_id"@) == Some(text::int_decimal(run_id as int))
            &&& step.cancel.payload.str_field("reason"@) == Some("user_requested"@)
            &&& ipc_loop::sets_status(step.action, run_id, RunStatus::Cancelled)
        },
{
    if crate::domain::runner::store::is_stop_requested(status) {
        let id = text::fmt_i64(run_id);
        Some(
            StopStep {
                cancel: protocol::cancel_message(id.as_str()),
                action: StoreAction::SetStatus { run_id, status: RunStatus::Cancelled },
            },
        )
    } else {
        None
    }
}

} // verus!
