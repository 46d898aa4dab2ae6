//! Where the Node runtime that runs workflows is found.
use vstd::prelude::*;

use crate::text;

verus! {

/// Why no Node runtime could be chosen.
#[derive(Debug)]
pub enum RuntimeError {
    /// Neither an override nor the bundled runtime (at this path) exists.
    NodeNotFound(String),
}

impl RuntimeError {
    /// The error's text.
    pub fn message(&self) -> (r: String)
        ensures
            match self {
                RuntimeError::NodeNotFound(p) => r@ == "bundled Node runtime not found at "@ + p@
                    + "; set AGENTCTL_NODE_BIN to override"@,
            },
    {
        match self {
            RuntimeError::NodeNotFound(p) => {
                let mut r = text::concat("bundled Node runtime not found at ", p.as_str());
                r.append("; set AGENTCTL_NODE_BIN to override");
                r
            },
        }
    }
}

/// The bundled Node binary beside the executable (Unix layout).
pub open spec fn bundled_node_of(exe_dir: Seq<char>) -> Seq<char> {
    text::join_path(text::join_path(text::join_path(exe_dir, "node"@), "bin"@), "node"@)
}

/// `<exe_dir>/node/bin/node`.
pub fn bundled_node_path(exe_dir: &str) -> (r: String)
    ensures
        r@ == bundled_node_of(exe_dir@),
{
    let a = text::join(exe_dir, "node");
    let b = text::join(a.as_str(), "bin");
    text::join(b.as_str(), "node")
}

/// Chooses the Node binary: the `AGENTCTL_NODE_BIN` override when it is set,
/// else the bundled binary when it exists, else an error naming where the
/// bundled binary was looked for.
pub fn resolve_node_bin_from(exe_dir: &str, override_bin: Option<&str>, bundled_exists: bool) -> (r:
    Result<String, RuntimeError>)
    ensures
        match override_bin {
            Some(o) => r matches Ok(p) && p@ == o@,
            None => if bundled_exists {
                r matches Ok(p) && p@ == bundled_node_of(exe_dir@)
            } else {
                r matches Err(RuntimeError::NodeNotFound(p)) && p@ == bundled_node_of(exe_dir@)
            },
        },
{
    match override_bin {
        Some(o) => Ok(text::owned(o)),
        None => {
            let bundled = bundled_node_path(exe_dir);
            if bundled_exists {
                Ok(bundled)
            } else {
                Err(RuntimeError::NodeNotFound(bundled))
            }
        },
    }
}

} // verus!
