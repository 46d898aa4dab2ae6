//! The per-project database file.
use vstd::prelude::*;

use crate::text;

verus! {

/// `<project_root>/.agents/.agentctl/database.db`.
pub fn project_database_path(project_root: &str) -> (r: String)
    ensures
        r@ == text::join_path(project_root@, ".agents/.agentctl/database.db"@),
{
    text::join(project_root, ".agents/.agentctl/database.db")
}

} // verus!
