//! Where the run store lives and how it is addressed.
use vstd::prelude::*;

use crate::text;

verus! {

/// `<project_root>/.agents/.clankerflow/database.db`.
pub fn database_path(project_root: &str) -> (r: String)
    ensures
        r@ == text::join_path(project_root@, ".agents/.clankerflow/database.db"@),
{
    text::join(project_root, ".agents/.clankerflow/database.db")
}

/// The SQLite URL of a database file, opened read-write and created when
/// missing.
pub fn database_url(db_path: &str) -> (r: String)
    ensures
        r@ == "sqlite://"@ + db_path@ + "?mode=rwc"@,
{
    let mut r = text::concat("sqlite://", db_path);
    r.append("?mode=rwc");
    r
}

} // verus!
