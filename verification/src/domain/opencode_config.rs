//! The project's OpenCode configuration, `.opencode/opencode.json`.
use vstd::prelude::*;

use crate::text;

verus! {

/// The part of the OpenCode configuration the library reads.
#[derive(Debug, Clone)]
pub struct OpencodeConfig {
    pub server_url: Option<String>,
}

/// `<project_root>/.opencode/opencode.json`.
pub fn config_path(project_root: &str) -> (r: String)
    ensures
        r@ == text::join_path(project_root@, ".opencode/opencode.json"@),
{
    text::join(project_root, ".opencode/opencode.json")
}

} // verus!
