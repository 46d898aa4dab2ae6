//! The command line: its commands and the rules that combine their flags.
use vstd::prelude::*;

use crate::app::types::{ContainmentCommands, MakeCommands, RuntimeEnv};
use crate::text;

verus! {

/// A parsed command line.
#[derive(Debug)]
pub struct Cli {
    pub command: Commands,
}

/// The commands.
#[derive(Debug)]
pub enum Commands {
    /// Initialize the project scaffold in the current directory.
    Init,
    /// Start a workflow run.
    Work { name: String, env: RuntimeEnv, yolo: bool, containment: bool },
    /// Open the run manager.
    Manage,
    /// Generate project artifacts.
    Make { command: MakeCommands },
    /// Manage the containment container.
    Containment { command: ContainmentCommands },
}

/// What the command line asks to be done, with the work flags resolved.
#[derive(Debug)]
pub enum Dispatch {
    Init,
    Work { name: String, env: RuntimeEnv, yolo: bool },
    Manage,
    MakeTicket,
    MakeWorktree { branch: String },
    ContainmentUp,
    ContainmentDown,
}

/// A refused combination of flags.
#[derive(Debug, Clone, Copy, PartialEq, Eq, Structural)]
pub enum CliError {
    /// `--containment` given together with `--env` or `--yolo`.
    ContainmentConflict,
}

impl CliError {
    /// The error's text.
    pub fn message(&self) -> (r: String)
        ensures
            r@ == "--containment cannot be combined with --env or --yolo"@,
    {
        text::owned("--containment cannot be combined with --env or --yolo")
    }
}

/// The runtime and safety mode a `work` command runs with, if its flags
/// combine.
pub open spec fn work_flags(env: RuntimeEnv, yolo: bool, containment: bool) -> Option<(RuntimeEnv, bool)> {
    if !containment {
        Some((env, yolo))
    } else if env != RuntimeEnv::Host || yolo {
        None
    } else {
        Some((RuntimeEnv::Container, true))
    }
}

/// `--containment` is shorthand for `--env container --yolo` and cannot be
/// combined with either; without it the flags stand as given.
pub fn resolve_work_flags(env: RuntimeEnv, yolo: bool, containment: bool) -> (r: Result<
    (RuntimeEnv, bool),
    CliError,
>)
    ensures
        match work_flags(env, yolo, containment) {
            Some(f) => r == Ok::<(RuntimeEnv, bool), CliError>(f),
            None => r == Err::<(RuntimeEnv, bool), CliError>(CliError::ContainmentConflict),
        },
{
    if !containment {
        return Ok((env, yolo));
    }
    if env != RuntimeEnv::Host || yolo {
        return Err(CliError::ContainmentConflict);
    }
    Ok((RuntimeEnv::Container, true))
}

/// What a command line asks for: each command maps to its action, with the
/// `work` flags resolved (a conflict is an error).
pub fn run(cli: Cli) -> (r: Result<Dispatch, CliError>)
    ensures
        match cli.command {
            Commands::Init => r matches Ok(Dispatch::Init),
            Commands::Work { name, env, yolo, containment } => match work_flags(
                env,
                yolo,
                containment,
            ) {
                Some((e, y)) => r matches Ok(Dispatch::Work { name: n, env: e2, yolo: y2 }) && n@
                    == name@ && e2 == e && y2 == y,
                None => r == Err::<Dispatch, CliError>(CliError::ContainmentConflict),
            },
            Commands::Manage => r matches Ok(Dispatch::Manage),
            Commands::Make { command: MakeCommands::Ticket } => r matches Ok(Dispatch::MakeTicket),
            Commands::Make { command: MakeCommands::Worktree { branch } } => r matches Ok(
                Dispatch::MakeWorktree { branch: b },
            ) && b@ == branch@,
            Commands::Containment { command: ContainmentCommands::Up } => r matches Ok(
                Dispatch::ContainmentUp,
            ),
            Commands::Containment { command: ContainmentCommands::Down } => r matches Ok(
                Dispatch::ContainmentDown,
            ),
        },
{
    match cli.command {
        Commands::Init => Ok(Dispatch::Init),
        Commands::Work { name, env, yolo, containment } => {
            let (e, y) = resolve_work_flags(env, yolo, containment)?;
            Ok(Dispatch::Work { name, env: e, yolo: y })
        },
        Commands::Manage => Ok(Dispatch::Manage),
        Commands::Make { command } => match command {
            MakeCommands::Ticket => Ok(Dispatch::MakeTicket),
            MakeCommands::Worktree { branch } => Ok(Dispatch::MakeWorktree { branch }),
        },
        Commands::Containment { command } => match command {
            ContainmentCommands::Up => Ok(Dispatch::ContainmentUp),
            ContainmentCommands::Down => Ok(Dispatch::ContainmentDown),
        },
    }
}

/// Resolving the work flags is idempotent: flags that came out of the
/// resolution, given again without `--containment`, stand unchanged; and
/// `--containment` always yields a container run in dangerous mode.
pub proof fn law_work_flags_settle(env: RuntimeEnv, yolo: bool, containment: bool)
    ensures
        work_flags(env, yolo, containment) matches Some((e, y)) ==> work_flags(e, y, false) == Some(
            (e, y),
        ),
        containment ==> (work_flags(env, yolo, containment) is None || work_flags(
            env,
            yolo,
            containment,
        ) == Some((RuntimeEnv::Container, true))),
{
}

} // verus!
