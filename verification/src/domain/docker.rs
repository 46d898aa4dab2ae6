//! The `docker compose` invocations that build, start, stop and inspect the
//! project's containment container, and how their output is read.
use vstd::prelude::*;

use crate::domain::tmux;
use crate::text;

verus! {

/// Entry point for the project's compose file.
pub struct Docker;

/// Which compose operation a command performs.
#[derive(Debug, Clone, Copy, PartialEq, Eq, Structural)]
pub enum ComposeAction {
    Build,
    Up,
    Down,
    Ps,
    ContainerId,
}

/// One `docker` invocation: its arguments, and the `CODEBASE_ID` it runs
/// with.
#[derive(Debug)]
pub struct ComposeCommand {
    pub action: ComposeAction,
    pub args: Vec<String>,
    pub codebase_id: String,
}

/// Why a compose operation failed.
#[derive(Debug, Clone, Copy, PartialEq, Eq, Structural)]
pub enum DockerError {
    BuildFailed,
    UpFailed,
    DownFailed,
    NoRunningContainer,
}

impl DockerError {
    /// The error's text.
    pub fn message(&self) -> (r: String)
        ensures
            r@ == match self {
                DockerError::BuildFailed => "docker compose build failed"@,
                DockerError::UpFailed => "docker compose up failed"@,
                DockerError::DownFailed => "docker compose down failed"@,
                DockerError::NoRunningContainer => "no running agent container found"@,
            },
    {
        match self {
            DockerError::BuildFailed => text::owned("docker compose build failed"),
            DockerError::UpFailed => text::owned("docker compose up failed"),
            DockerError::DownFailed => text::owned("docker compose down failed"),
            DockerError::NoRunningContainer => text::owned("no running agent container found"),
        }
    }
}

/// The compose file of a project.
pub open spec fn compose_file_of(project_root: Seq<char>) -> Seq<char> {
    text::join_path(project_root, ".agents/.agentctl/docker/agent.docker-compose.yaml"@)
}

/// The arguments after `docker` that an action runs: `compose -f <file>`,
/// then the subcommand.
pub open spec fn compose_args_of(project_root: Seq<char>, action: ComposeAction) -> Seq<Seq<char>> {
    seq!["compose"@, "-f"@, compose_file_of(project_root)] + match action {
        ComposeAction::Build => seq!["build"@],
        ComposeAction::Up => seq!["up"@, "-d"@],
        ComposeAction::Down => seq!["down"@],
        ComposeAction::Ps => seq!["ps"@, "-q"@, "--status=running"@],
        ComposeAction::ContainerId => seq!["ps"@, "-q"@, "--status=running"@, "agent"@],
    }
}

/// A command performs `action` for the project with `codebase_id`.
pub open spec fn is_compose(
    c: ComposeCommand,
    project_root: Seq<char>,
    codebase_id: Seq<char>,
    action: ComposeAction,
) -> bool {
    &&& c.action == action
    &&& tmux::views(c.args@) == compose_args_of(project_root, action)
    &&& c.codebase_id@ == codebase_id
}

/// The path of the project's compose file.
pub fn compose_file_path(project_root: &str) -> (r: String)
    ensures
        r@ == compose_file_of(project_root@),
{
    text::join(project_root, ".agents/.agentctl/docker/agent.docker-compose.yaml")
}

/// The arguments that select the project's compose file: `-f <file>`.
pub fn compose_args(project_root: &str) -> (r: Vec<String>)
    ensures
        tmux::views(r@) == seq!["-f"@, compose_file_of(project_root@)],
{
    let mut r: Vec<String> = Vec::new();
    r.push(text::owned("-f"));
    r.push(compose_file_path(project_root));
    assert(tmux::views(r@) =~= seq!["-f"@, compose_file_of(project_root@)]);
    r
}

fn compose_command(project_root: &str, codebase_id: &str, action: ComposeAction) -> (r:
    ComposeCommand)
    ensures
        is_compose(r, project_root@, codebase_id@, action),
{
    let mut args: Vec<String> = Vec::new();
    args.push(text::owned("compose"));
    args.push(text::owned("-f"));
    args.push(compose_file_path(project_root));
    match action {
        ComposeAction::Build => {
            args.push(text::owned("build"));
        },
        ComposeAction::Up => {
            args.push(text::owned("up"));
            args.push(text::owned("-d"));
        },
        ComposeAction::Down => {
            args.push(text::owned("down"));
        },
        ComposeAction::Ps => {
            args.push(text::owned("ps"));
            args.push(text::owned("-q"));
            args.push(text::owned("--status=running"));
        },
        ComposeAction::ContainerId => {
            args.push(text::owned("ps"));
            args.push(text::owned("-q"));
            args.push(text::owned("--status=running"));
            args.push(text::owned("agent"));
        },
    }
    assert(tmux::views(args@) =~= compose_args_of(project_root@, action));
    ComposeCommand { action, args, codebase_id: text::owned(codebase_id) }
}

impl Docker {
    /// `docker compose build` for the agent image.
    pub fn build(project_root: &str, codebase_id: &str) -> (r: ComposeCommand)
        ensures
            is_compose(r, project_root@, codebase_id@, ComposeAction::Build),
    {
        compose_command(project_root, codebase_id, ComposeAction::Build)
    }

    /// `docker compose up -d` for the agent container.
    pub fn up(project_root: &str, codebase_id: &str) -> (r: ComposeCommand)
        ensures
            is_compose(r, project_root@, codebase_id@, ComposeAction::Up),
    {
        compose_command(project_root, codebase_id, ComposeAction::Up)
    }

    /// `docker compose down` for the agent container.
    pub fn down(project_root: &str, codebase_id: &str) -> (r: ComposeCommand)
        ensures
            is_compose(r, project_root@, codebase_id@, ComposeAction::Down),
    {
        compose_command(project_root, codebase_id, ComposeAction::Down)
    }

    /// `docker compose ps -q --status=running`, whose output tells whether
    /// the container runs.
    pub fn is_running(project_root: &str, codebase_id: &str) -> (r: ComposeCommand)
        ensures
            is_compose(r, project_root@, codebase_id@, ComposeAction::Ps),
    {
        compose_command(project_root, codebase_id, ComposeAction::Ps)
    }

    /// `docker compose ps -q --status=running agent`, whose output is the
    /// container id.
    pub fn get_container_id(project_root: &str, codebase_id: &str) -> (r: ComposeCommand)
        ensures
            is_compose(r, project_root@, codebase_id@, ComposeAction::ContainerId),
    {
        compose_command(project_root, codebase_id, ComposeAction::ContainerId)
    }

    /// The commands that bring the container up when it is not running yet
    /// (build, then up), followed in every case by the container-id query.
    pub fn ensure_running(project_root: &str, codebase_id: &str, running: bool) -> (r: Vec<
        ComposeCommand,
    >)
        ensures
            running ==> r@.len() == 1 && is_compose(
                r@[0],
                project_root@,
                codebase_id@,
                ComposeAction::ContainerId,
            ),
            !running ==> r@.len() == 3 && is_compose(
                r@[0],
                project_root@,
                codebase_id@,
                ComposeAction::Build,
            ) && is_compose(r@[1], project_root@, codebase_id@, ComposeAction::Up) && is_compose(
                r@[2],
                project_root@,
                codebase_id@,
                ComposeAction::ContainerId,
            ),
    {
        let mut r: Vec<ComposeCommand> = Vec::new();
        if !running {
            r.push(Self::build(project_root, codebase_id));
            r.push(Self::up(project_root, codebase_id));
        }
        r.push(Self::get_container_id(project_root, codebase_id));
        r
    }

    /// Whether `ps -q` output names a running container: anything but white
    /// space.
    pub fn running_from_output(stdout: &str) -> (r: bool)
        ensures
            r == (text::trim(stdout@).len() > 0),
    {
        let t = text::trim_str(stdout);
        t.unicode_len() > 0
    }

    /// The container id in `ps -q ... agent` output (trimmed); no id at all
    /// is an error.
    pub fn container_id_from_output(stdout: &str) -> (r: Result<String, DockerError>)
        ensures
            match r {
                Ok(id) => id@ == text::trim(stdout@) && id@.len() > 0,
                Err(e) => e == DockerError::NoRunningContainer && text::trim(stdout@).len() == 0,
            },
    {
        let t = text::trim_str(stdout);
        if t.unicode_len() == 0 {
            Err(DockerError::NoRunningContainer)
        } else {
            Ok(t)
        }
    }

    /// What a finished command means: build, up and down fail when docker
    /// reports failure; the `ps` queries are read from their output instead.
    pub fn outcome(action: ComposeAction, success: bool) -> (r: Result<(), DockerError>)
        ensures
            r == (match action {
                ComposeAction::Build => if success { Ok(()) } else { Err(DockerError::BuildFailed) },
                ComposeAction::Up => if success { Ok(()) } else { Err(DockerError::UpFailed) },
                ComposeAction::Down => if success { Ok(()) } else { Err(DockerError::DownFailed) },
                _ => Ok(()),
            }),
    {
        match action {
            ComposeAction::Build => if success { Ok(()) } else { Err(DockerError::BuildFailed) },
            ComposeAction::Up => if success { Ok(()) } else { Err(DockerError::UpFailed) },
            ComposeAction::Down => if success { Ok(()) } else { Err(DockerError::DownFailed) },
            _ => Ok(()),
        }
    }
}

/// What each compose operation runs, spelled out: every command selects the
/// project's compose file, and the two queries ask for quiet output
/// (`-q`, ids only) of running containers, the container-id query for the
/// `agent` service alone.
pub proof fn law_compose_commands(c: ComposeCommand, project_root: Seq<char>, codebase_id: Seq<char>)
    ensures
        is_compose(c, project_root, codebase_id, ComposeAction::ContainerId) ==> tmux::views(c.args@)
            == seq![
            "compose"@,
            "-f"@,
            compose_file_of(project_root),
            "ps"@,
            "-q"@,
            "--status=running"@,
            "agent"@,
        ],
        is_compose(c, project_root, codebase_id, ComposeAction::Ps) ==> tmux::views(c.args@) == seq![
            "compose"@,
            "-f"@,
            compose_file_of(project_root),
            "ps"@,
            "-q"@,
            "--status=running"@,
        ],
        is_compose(c, project_root, codebase_id, ComposeAction::Build) ==> tmux::views(c.args@) == seq![
            "compose"@,
            "-f"@,
            compose_file_of(project_root),
            "build"@,
        ],
        is_compose(c, project_root, codebase_id, ComposeAction::Up) ==> tmux::views(c.args@) == seq![
            "compose"@,
            "-f"@,
            compose_file_of(project_root),
            "up"@,
            "-d"@,
        ],
        is_compose(c, project_root, codebase_id, ComposeAction::Down) ==> tmux::views(c.args@) == seq![
            "compose"@,
            "-f"@,
            compose_file_of(project_root),
            "down"@,
        ],
        is_compose(c, project_root, codebase_id, ComposeAction::ContainerId) ==> c.codebase_id@
            == codebase_id,
{
    let head = seq!["compose"@, "-f"@, compose_file_of(project_root)];
    assert(head + seq!["ps"@, "-q"@, "--status=running"@, "agent"@] =~= seq![
        "compose"@,
        "-f"@,
        compose_file_of(project_root),
        "ps"@,
        "-q"@,
        "--status=running"@,
        "agent"@,
    ]);
    assert(head + seq!["ps"@, "-q"@, "--status=running"@] =~= seq![
        "compose"@,
        "-f"@,
        compose_file_of(project_root),
        "ps"@,
        "-q"@,
        "--status=running"@,
    ]);
    assert(head + seq!["build"@] =~= seq!["compose"@, "-f"@, compose_file_of(project_root), "build"@]);
    assert(head + seq!["up"@, "-d"@] =~= seq![
        "compose"@,
        "-f"@,
        compose_file_of(project_root),
        "up"@,
        "-d"@,
    ]);
    assert(head + seq!["down"@] =~= seq!["compose"@, "-f"@, compose_file_of(project_root), "down"@]);
}

} // verus!
