//! Project settings, kept in `.agents/settings.json`.
use vstd::prelude::*;

use crate::domain::opencode::server;
use crate::text;

verus! {

/// Git identity and default branch.
#[derive(Debug, Clone)]
pub struct GitConfig {
    pub user_name: String,
    pub user_email: String,
    pub default_branch: String,
}

/// Workflow defaults.
#[derive(Debug, Clone)]
pub struct WorkflowConfig {
    pub default: String,
}

/// Where the OpenCode server is.
#[derive(Debug, Clone)]
pub struct OpencodeConfig {
    pub server_url: Option<String>,
}

/// The project settings.
#[derive(Debug, Clone)]
pub struct Settings {
    pub git: GitConfig,
    pub workflows: WorkflowConfig,
    pub opencode: Option<OpencodeConfig>,
}

/// `<project_root>/.agents/settings.json`.
pub fn settings_path(project_root: &str) -> (r: String)
    ensures
        r@ == text::join_path(project_root@, ".agents/settings.json"@),
{
    text::join(project_root, ".agents/settings.json")
}

impl Settings {
    /// The OpenCode server URL the settings name, if any.
    pub fn server_url(&self) -> (r: Option<&str>)
        ensures
            match self.opencode {
                Some(c) => match c.server_url {
                    Some(u) => r matches Some(s) && s@ == u@,
                    None => r is None,
                },
                None => r is None,
            },
    {
        match &self.opencode {
            Some(c) => match &c.server_url {
                Some(u) => Some(u.as_str()),
                None => None,
            },
            None => None,
        }
    }
}

/// The OpenCode URL a project uses: `opencode.server_url` from its settings
/// when that is set, the default local server otherwise.
pub open spec fn opencode_base_url_of(settings: Option<Settings>) -> Seq<char> {
    match settings {
        Some(s) => match s.opencode {
            Some(c) => match c.server_url {
                Some(u) => u@,
                None => server::DEFAULT_BASE_URL@,
            },
            None => server::DEFAULT_BASE_URL@,
        },
        None => server::DEFAULT_BASE_URL@,
    }
}

/// Picks the OpenCode URL from the project's settings (none when the project
/// has no settings file), falling back to the default local server.
pub fn opencode_base_url(settings: Option<&Settings>) -> (r: String)
    ensures
        r@ == opencode_base_url_of(
            match settings {
                Some(s) => Some(*s),
                None => None,
            },
        ),
{
    match settings {
        Some(s) => match s.server_url() {
            Some(u) => text::owned(u),
            None => text::owned(server::DEFAULT_BASE_URL),
        },
        None => text::owned(server::DEFAULT_BASE_URL),
    }
}

} // verus!
