//! `work`: which workflow file a name designates, and the summary printed
//! when a worker finishes.
use vstd::prelude::*;

use crate::app::output;
use crate::app::types::RuntimeEnv;
use crate::db::entities::workflow_run::RunStatus;
use crate::text;

verus! {

/// What the hidden worker command runs.
#[derive(Debug)]
pub struct WorkerArgs {
    pub run_id: i64,
    pub workflow_name: String,
    pub workflow_path: String,
    pub env: RuntimeEnv,
    pub project_root: String,
    pub yolo: bool,
}

/// Why a workflow name does not designate a workflow.
#[derive(Debug)]
pub enum WorkError {
    /// The name is empty.
    EmptyName,
    /// The name holds `/`, `\` or `..`.
    UnsafeName(String),
    /// No such workflow file (name, workflows directory).
    NotFound(String, String),
    /// The worker finished and the run failed (workflow name).
    Failed(String),
}

impl WorkError {
    /// The error's text.
    pub fn message(&self) -> (r: String)
        ensures
            r@ == match self {
                WorkError::EmptyName => "workflow name cannot be empty"@,
                WorkError::UnsafeName(n) => "workflow name contains unsafe path characters: '"@ + n@
                    + "'"@,
                WorkError::NotFound(n, d) => "workflow '"@ + n@ + "' not found under "@ + d@,
                WorkError::Failed(n) => "workflow '"@ + n@ + "' failed"@,
            },
    {
        match self {
            WorkError::EmptyName => text::owned("workflow name cannot be empty"),
            WorkError::UnsafeName(n) => {
                let mut r = text::concat(
                    "workflow name contains unsafe path characters: '",
                    n.as_str(),
                );
                r.append("'");
                r
            },
            WorkError::NotFound(n, d) => {
                let mut r = text::concat("workflow '", n.as_str());
                r.append("' not found under ");
                r.append(d.as_str());
                r
            },
            WorkError::Failed(n) => {
                let mut r = text::concat("workflow '", n.as_str());
                r.append("' failed");
                r
            },
        }
    }
}

/// A workflow name that stays inside the workflows directory: not empty, no
/// `/`, no `\`, no `..`.
pub open spec fn safe_workflow_name(name: Seq<char>) -> bool {
    &&& name.len() > 0
    &&& !text::has_char(name, '/')
    &&& !text::has_char(name, '\\')
    &&& !text::contains(name, ".."@)
}

/// The workflows directory of a project.
pub open spec fn workflows_dir_of(project_root: Seq<char>) -> Seq<char> {
    text::join_path(text::join_path(project_root, ".agents"@), "workflows"@)
}

/// The file of a workflow.
pub open spec fn workflow_file_of(project_root: Seq<char>, name: Seq<char>) -> Seq<char> {
    text::join_path(workflows_dir_of(project_root), name + ".ts"@)
}

/// Checks a workflow name.
pub fn validate_workflow_name(name: &str) -> (r: Result<(), WorkError>)
    ensures
        r is Ok <==> safe_workflow_name(name@),
        name@.len() == 0 ==> r matches Err(WorkError::EmptyName),
        name@.len() > 0 && !safe_workflow_name(name@) ==> (r matches Err(WorkError::UnsafeName(n))
            && n@ == name@),
{
    if name.unicode_len() == 0 {
        return Err(WorkError::EmptyName);
    }
    if text::contains_char(name, '/') || text::contains_char(name, '\\') || text::contains_str(
        name,
        "..",
    ) {
        return Err(WorkError::UnsafeName(text::owned(name)));
    }
    Ok(())
}

/// `<project_root>/.agents/workflows`.
pub fn workflows_dir(project_root: &str) -> (r: String)
    ensures
        r@ == workflows_dir_of(project_root@),
{
    let a = text::join(project_root, ".agents");
    text::join(a.as_str(), "workflows")
}

/// The file a valid workflow name designates:
/// `<project_root>/.agents/workflows/<name>.ts`.
pub fn workflow_candidate(project_root: &str, name: &str) -> (r: Result<String, WorkError>)
    ensures
        match r {
            Ok(p) => safe_workflow_name(name@) && p@ == workflow_file_of(project_root@, name@),
            Err(e) => !safe_workflow_name(name@) && (e is EmptyName || e is UnsafeName),
        },
{
    validate_workflow_name(name)?;
    let dir = workflows_dir(project_root);
    let file = text::concat(name, ".ts");
    Ok(text::join(dir.as_str(), file.as_str()))
}

/// The workflow file of `name`, given whether that file exists; a missing
/// file is an error naming the workflows directory.
pub fn resolve_workflow(project_root: &str, name: &str, candidate_exists: bool) -> (r: Result<
    String,
    WorkError,
>)
    ensures
        !safe_workflow_name(name@) ==> (r matches Err(e) && (e is EmptyName || e is UnsafeName)),
        safe_workflow_name(name@) && candidate_exists ==> (r matches Ok(p) && p@ == workflow_file_of(
            project_root@,
            name@,
        )),
        safe_workflow_name(name@) && !candidate_exists ==> (r matches Err(WorkError::NotFound(n, d))
            && n@ == name@ && d@ == workflows_dir_of(project_root@)),
{
    let candidate = workflow_candidate(project_root, name)?;
    if candidate_exists {
        return Ok(candidate);
    }
    Err(WorkError::NotFound(text::owned(name), workflows_dir(project_root)))
}

/// The word the finish summary uses for a status.
pub open spec fn summary_word(status: RunStatus) -> Seq<char> {
    match status {
        RunStatus::Completed => "completed"@,
        RunStatus::Cancelled => "cancelled"@,
        RunStatus::Failed => "failed"@,
        RunStatus::Running => "running"@,
        RunStatus::Pending => "pending"@,
    }
}

/// The style of that word: success, warning, failure or action.
pub open spec fn summary_style(status: RunStatus) -> Seq<char> {
    match status {
        RunStatus::Completed => seq!['1', ';', '9', '2'],
        RunStatus::Cancelled => seq!['1', ';', '3', '3'],
        RunStatus::Failed => seq!['1', ';', '9', '1'],
        RunStatus::Running => seq!['1', ';', '9', '3'],
        RunStatus::Pending => seq!['1', ';', '3', '3'],
    }
}

/// The status label of the finish summary, styled by status.
pub fn summary_label(status: RunStatus) -> (r: String)
    ensures
        output::styled(r@, summary_word(status), summary_style(status)),
{
    match status {
        RunStatus::Completed => output::success("completed"),
        RunStatus::Cancelled => output::warning("cancelled"),
        RunStatus::Failed => output::failure("failed"),
        RunStatus::Running => output::action("running"),
        RunStatus::Pending => output::warning("pending"),
    }
}

/// The finish summary: `workflow '<name>' <status>`, the name and the
/// status styled.
pub fn print_summary(name: &str, status: RunStatus) -> (r: String)
    ensures
        exists|n: Seq<char>, l: Seq<char>|
            output::styled(n, name@, seq!['9', '2']) && output::styled(
                l,
                summary_word(status),
                summary_style(status),
            ) && r@ == "workflow '"@ + n + "' "@ + l,
{
    let n = output::path(name);
    let l = summary_label(status);
    let mut r = text::concat("workflow '", n.as_str());
    r.append("' ");
    r.append(l.as_str());
    assert(r@ == "workflow '"@ + n@ + "' "@ + l@);
    r
}

/// The worker's result: a failed run is an error naming the workflow.
pub fn worker_result(workflow_name: &str, final_status: RunStatus) -> (r: Result<(), WorkError>)
    ensures
        final_status == RunStatus::Failed ==> (r matches Err(WorkError::Failed(n)) && n@
            == workflow_name@),
        final_status != RunStatus::Failed ==> r is Ok,
{
    if final_status == RunStatus::Failed {
        Err(WorkError::Failed(text::owned(workflow_name)))
    } else {
        Ok(())
    }
}

} // verus!
