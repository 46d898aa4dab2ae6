//! The local OpenCode server: its address, how it is started, and how its
//! startup is awaited.
use vstd::prelude::*;

use crate::text;

verus! {

/// The address the server listens on.
pub const DEFAULT_HOST: &'static str = "127.0.0.1";

/// The port the server listens on.
pub const DEFAULT_PORT: u16 = 4096;

/// The server's base URL.
pub const DEFAULT_BASE_URL: &'static str = "http://127.0.0.1:4096";

/// Why starting the server failed: the binary is missing, or another error
/// (its text).
#[derive(Debug)]
pub enum SpawnFailure {
    NotFound,
    Other(String),
}

/// Where waiting for the server stands after one probe.
#[derive(Debug, Clone, PartialEq, Eq)]
pub enum StartupStep {
    /// The server accepts connections.
    Ready,
    /// The server process ended first (its exit status text).
    Exited(String),
    /// Probe again after the poll interval.
    Wait,
    /// The startup deadline passed.
    TimedOut,
}

/// `opencode serve --hostname 127.0.0.1 --port 4096`.
pub fn serve_args() -> (r: [String; 5])
    ensures
        r[0]@ == "serve"@,
        r[1]@ == "--hostname"@,
        r[2]@ == DEFAULT_HOST@,
        r[3]@ == "--port"@,
        r[4]@ == text::nat_digits(DEFAULT_PORT as nat),
{
    [
        text::owned("serve"),
        text::owned("--hostname"),
        text::owned(DEFAULT_HOST),
        text::owned("--port"),
        text::fmt_u64(DEFAULT_PORT as u64),
    ]
}

/// The error text for a failed server start; a missing binary gets an
/// install hint.
pub fn map_spawn_error(error: &SpawnFailure) -> (r: String)
    ensures
        match error {
            SpawnFailure::NotFound => r@
                == "`opencode` binary not found on PATH; install OpenCode CLI to run workflows"@,
            SpawnFailure::Other(e) => r@ == "failed to start OpenCode server: "@ + e@,
        },
{
    match error {
        SpawnFailure::NotFound => text::owned(
            "`opencode` binary not found on PATH; install OpenCode CLI to run workflows",
        ),
        SpawnFailure::Other(e) => text::concat("failed to start OpenCode server: ", e.as_str()),
    }
}

/// One step of waiting for the server: ready once it is reachable; an error
/// if its process exited; otherwise wait, until the deadline passes.
pub fn startup_step(reachable: bool, exited: Option<&str>, deadline_passed: bool) -> (r: StartupStep)
    ensures
        deadline_passed ==> r == StartupStep::TimedOut,
        !deadline_passed && reachable ==> r == StartupStep::Ready,
        !deadline_passed && !reachable ==> match exited {
            Some(s) => r matches StartupStep::Exited(t) && t@ == s@,
            None => r == StartupStep::Wait,
        },
{
    if deadline_passed {
        StartupStep::TimedOut
    } else if reachable {
        StartupStep::Ready
    } else {
        match exited {
            Some(s) => StartupStep::Exited(text::owned(s)),
            None => StartupStep::Wait,
        }
    }
}

/// The error text of a server that exited before becoming ready.
pub fn exited_early_message(status: &str) -> (r: String)
    ensures
        r@ == "OpenCode server exited before becoming ready (status: "@ + status@ + ")"@,
{
    let mut r = text::concat("OpenCode server exited before becoming ready (status: ", status);
    r.append(")");
    r
}

/// The error text of a server that did not come up in time.
pub fn timed_out_message() -> (r: String)
    ensures
        r@ == "timed out waiting for OpenCode server at "@ + DEFAULT_BASE_URL@,
{
    text::concat("timed out waiting for OpenCode server at ", DEFAULT_BASE_URL)
}

} // verus!
