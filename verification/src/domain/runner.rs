//! Running a workflow: the worker command line, the runner process, the IPC
//! protocol and the run-status bookkeeping.
pub mod env;
pub mod ipc_loop;
pub mod protocol;
pub mod signal;
pub mod store;

use vstd::prelude::*;

use crate::app::types::RuntimeEnv;
use crate::domain::tmux;
use crate::text;

verus! {

/// Parameters of a workflow run.
#[derive(Debug, Clone, Copy)]
pub struct WorkflowArgs<'a> {
    pub project_root: &'a str,
    pub workflow_name: &'a str,
    pub workflow_path: &'a str,
    pub env: RuntimeEnv,
    pub yolo: bool,
}

/// Where a launched run can be found: its id and its tmux session and
/// window.
#[derive(Debug)]
pub struct RunLaunch {
    pub run_id: i64,
    pub project_session_name: String,
    pub run_window_name: String,
}

/// The shell command that runs the worker of `run_id` (the hidden `_run`
/// subcommand of `executable`).
pub open spec fn worker_command_of(args: WorkflowArgs, run_id: int, executable: Seq<char>) -> Seq<
    char,
> {
    tmux::shell_quoted(executable) + " _run --run-id "@ + text::int_decimal(run_id)
        + " --workflow-name "@ + tmux::shell_quoted(args.workflow_name@) + " --workflow-path "@
        + tmux::shell_quoted(args.workflow_path@) + " --env "@ + args.env.spec_as_str()
        + " --project-root "@ + tmux::shell_quoted(args.project_root@) + if args.yolo {
        " --yolo"@
    } else {
        ""@
    }
}

/// Quotes `value` for a shell.
pub fn shell_escape(value: &str) -> (r: String)
    ensures
        r@ == tmux::shell_quoted(value@),
{
    tmux::shell_escape(value)
}

/// The command line of the worker that runs `run_id`.
pub fn worker_command(args: &WorkflowArgs<'_>, run_id: i64, executable: &str) -> (r: String)
    ensures
        r@ == worker_command_of(*args, run_id as int, executable@),
{
    let mut r = shell_escape(executable);
    r.append(" _run --run-id ");
    r.append(text::fmt_i64(run_id).as_str());
    r.append(" --workflow-name ");
    r.append(shell_escape(args.workflow_name).as_str());
    r.append(" --workflow-path ");
    r.append(shell_escape(args.workflow_path).as_str());
    r.append(" --env ");
    r.append(args.env.as_str());
    r.append(" --project-root ");
    r.append(shell_escape(args.project_root).as_str());
    if args.yolo {
        r.append(" --yolo");
    } else {
        proof {
            reveal_strlit("");
        }
        assert(r@ + ""@ =~= r@);
    }
    r
}

} // verus!
