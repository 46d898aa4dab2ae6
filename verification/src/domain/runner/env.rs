//! How the runner process is started on the host or in the container.
use vstd::prelude::*;

use crate::app::types::RuntimeEnv;
use crate::db::entities::workflow_run::WorkflowEnv;
use crate::domain::tmux;
use crate::text;

verus! {

/// The program that runs the workflow runtime on the host, and its leading
/// arguments.
#[derive(Debug)]
pub struct HostRunnerExecutable {
    pub program: String,
    pub args: Vec<String>,
}

/// The stored runtime of a run started with `env`.
pub fn parse_runtime_env(env: RuntimeEnv) -> (r: WorkflowEnv)
    ensures
        r == (match env {
            RuntimeEnv::Host => WorkflowEnv::Host,
            RuntimeEnv::Container => WorkflowEnv::Container,
        }),
{
    match env {
        RuntimeEnv::Host => WorkflowEnv::Host,
        RuntimeEnv::Container => WorkflowEnv::Container,
    }
}

/// The project's `tsx` binary.
pub open spec fn tsx_bin_of(project_root: Seq<char>) -> Seq<char> {
    text::join_path(project_root, ".agents/.agentkata/lib/node_modules/.bin/tsx"@)
}

/// The project's runner entry point.
pub open spec fn runner_ts_of(project_root: Seq<char>) -> Seq<char> {
    text::join_path(project_root, ".agents/.agentkata/lib/src/runner.ts"@)
}

/// The project's TypeScript configuration.
pub open spec fn tsconfig_of(project_root: Seq<char>) -> Seq<char> {
    text::join_path(project_root, ".agents/tsconfig.json"@)
}

/// `<project_root>/.agents/.agentkata/lib/node_modules/.bin/tsx`.
pub fn tsx_bin_path(project_root: &str) -> (r: String)
    ensures
        r@ == tsx_bin_of(project_root@),
{
    text::join(project_root, ".agents/.agentkata/lib/node_modules/.bin/tsx")
}

/// `<project_root>/.agents/.agentkata/lib/src/runner.ts`.
pub fn runner_ts_path(project_root: &str) -> (r: String)
    ensures
        r@ == runner_ts_of(project_root@),
{
    text::join(project_root, ".agents/.agentkata/lib/src/runner.ts")
}

/// The host runtime: `node <bundle>` when a runner bundle is configured
/// (`AGENTKATA_HOST_RUNNER_BUNDLE`), otherwise the project's `tsx`.
pub fn host_runner_executable(project_root: &str, bundle: Option<&str>) -> (r: HostRunnerExecutable)
    ensures
        match bundle {
            Some(b) => r.program@ == "node"@ && tmux::views(r.args@) == seq![b@],
            None => r.program@ == tsx_bin_of(project_root@) && r.args@.len() == 0,
        },
{
    match bundle {
        Some(b) => {
            let mut args: Vec<String> = Vec::new();
            args.push(text::owned(b));
            assert(tmux::views(args@) =~= seq![b@]);
            HostRunnerExecutable { program: text::owned("node"), args }
        },
        None => HostRunnerExecutable { program: tsx_bin_path(project_root), args: Vec::new() },
    }
}

/// The runner script `tsx` runs; none when a bundle replaces it.
pub fn runner_entry_path(project_root: &str, bundle_configured: bool) -> (r: Option<String>)
    ensures
        bundle_configured ==> r is None,
        !bundle_configured ==> (r matches Some(p) && p@ == runner_ts_of(project_root@)),
{
    if bundle_configured {
        None
    } else {
        Some(runner_ts_path(project_root))
    }
}

/// The full host command line: the program and all its arguments.
pub fn host_runner_command(project_root: &str, bundle: Option<&str>) -> (r: (String, Vec<String>))
    ensures
        match bundle {
            Some(b) => r.0@ == "node"@ && tmux::views(r.1@) == seq![b@],
            None => r.0@ == tsx_bin_of(project_root@) && tmux::views(r.1@) == seq![
                "--tsconfig"@,
                tsconfig_of(project_root@),
                runner_ts_of(project_root@),
            ],
        },
{
    let exe = host_runner_executable(project_root, bundle);
    let mut args = exe.args;
    let entry = runner_entry_path(project_root, bundle.is_some());
    match entry {
        Some(p) => {
            args.push(text::owned("--tsconfig"));
            args.push(text::join(project_root, ".agents/tsconfig.json"));
            args.push(p);
            assert(tmux::views(args@) =~= seq![
                "--tsconfig"@,
                tsconfig_of(project_root@),
                runner_ts_of(project_root@),
            ]);
        },
        None => {},
    }
    (exe.program, args)
}

/// The `docker` arguments that start the runner inside the container
/// `container_id`, connecting back to the IPC `port`.
pub fn container_runner_args(container_id: &str, port: u16) -> (r: Vec<String>)
    ensures
        tmux::views(r@) == seq![
            "exec"@,
            "-e"@,
            "AGENTKATA_IPC_PORT="@ + text::nat_digits(port as nat),
            "-e"@,
            "AGENTKATA_CONTAINER=1"@,
            container_id@,
            "/workspace/.agents/.agentkata/lib/node_modules/.bin/tsx"@,
            "--tsconfig"@,
            "/workspace/.agents/tsconfig.json"@,
            "/workspace/.agents/.agentkata/lib/src/runner.ts"@,
        ],
{
    let mut r: Vec<String> = Vec::new();
    r.push(text::owned("exec"));
    r.push(text::owned("-e"));
    let mut port_env = text::owned("AGENTKATA_IPC_PORT=");
    text::push_decimal(&mut port_env, port as u64);
    r.push(port_env);
    r.push(text::owned("-e"));
    r.push(text::owned("AGENTKATA_CONTAINER=1"));
    r.push(text::owned(container_id));
    r.push(text::owned("/workspace/.agents/.agentkata/lib/node_modules/.bin/tsx"));
    r.push(text::owned("--tsconfig"));
    r.push(text::owned("/workspace/.agents/tsconfig.json"));
    r.push(text::owned("/workspace/.agents/.agentkata/lib/src/runner.ts"));
    assert(tmux::views(r@) =~= seq![
        "exec"@,
        "-e"@,
        "AGENTKATA_IPC_PORT="@ + text::nat_digits(port as nat),
        "-e"@,
        "AGENTKATA_CONTAINER=1"@,
        container_id@,
        "/workspace/.agents/.agentkata/lib/node_modules/.bin/tsx"@,
        "--tsconfig"@,
        "/workspace/.agents/tsconfig.json"@,
        "/workspace/.agents/.agentkata/lib/src/runner.ts"@,
    ]);
    r
}

} // verus!
