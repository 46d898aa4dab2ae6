//! Locating the project root: the nearest directory, from the working
//! directory up, that holds an `.agents` directory.
use vstd::prelude::*;

use crate::text;

verus! {

/// What `Path::parent` returns for a path: the path without its final
/// component, or nothing for a root or the empty path.
pub uninterp spec fn path_parent(path: Seq<char>) -> Option<Seq<char>>;

/// `std::path::Path::parent`, converted to an owned string (lossless for a
/// path that came from a `&str`). The result is named `path_parent`; as std
/// documents it removes the final component, so it is shorter than the path.
#[verifier::external_body]
fn parent_of(path: &str) -> (r: Option<String>)
    ensures
        match r {
            Some(p) => path_parent(path@) == Some(p@) && p@.len() < path@.len(),
            None => path_parent(path@) is None,
        },
{
    std::path::Path::new(path).parent().map(|p| p.to_string_lossy().into_owned())
}

/// `chain` lists `start` and then each parent of the previous entry, up to
/// the entry that has no parent.
pub open spec fn is_ancestor_chain(start: Seq<char>, chain: Seq<Seq<char>>) -> bool {
    &&& chain.len() > 0
    &&& chain[0] == start
    &&& forall|i: int| 0 <= i < chain.len() - 1 ==> path_parent(#[trigger] chain[i]) == Some(chain[i + 1])
    &&& path_parent(chain.last()) is None
}

/// Why a command needs an initialized project and has none.
#[derive(Debug)]
pub enum ProjectError {
    /// No directory from this one up holds `.agents`.
    ProjectNotInitialized(String),
}

impl ProjectError {
    /// The error's text.
    pub fn message(&self) -> (r: String)
        ensures
            match self {
                ProjectError::ProjectNotInitialized(p) => r@ == "no .agents directory found from "@
                    + p@ + " upwards; run `init` first"@,
            },
    {
        match self {
            ProjectError::ProjectNotInitialized(p) => {
                let mut r = text::concat("no .agents directory found from ", p.as_str());
                r.append(" upwards; run `init` first");
                r
            },
        }
    }
}

/// `start` and all its ancestors, nearest first.
pub fn ancestors(start: &str) -> (r: Vec<String>)
    ensures
        is_ancestor_chain(start@, r@.map_values(|s: String| s@)),
{
    let mut r: Vec<String> = Vec::new();
    let mut cur = text::owned(start);
    loop
        invariant
            r@.len() == 0 ==> cur@ == start@,
            r@.len() > 0 ==> r@[0]@ == start@ && path_parent(r@.last()@) == Some(cur@),
            forall|i: int| 0 <= i < r@.len() - 1 ==> path_parent(#[trigger] r@[i]@) == Some(r@[i + 1]@),
        decreases cur@.len(),
    {
        let next = parent_of(cur.as_str());
        let ghost before = r@;
        match next {
            Some(p) => {
                r.push(cur);
                cur = p;
            },
            None => {
                r.push(cur);
                proof {
                    let c = r@.map_values(|s: String| s@);
                    assert forall|i: int| 0 <= i < c.len() - 1 implies path_parent(#[trigger] c[i]) == Some(c[i + 1]) by {
                        if i < before.len() - 1 {
                            assert(r@[i] == before[i]);
                            assert(r@[i + 1] == before[i + 1]);
                        } else {
                            assert(r@[i] == before[i]);
                        }
                    }
                }
                return r;
            },
        }
    }
}

/// The nearest ancestor (the chain's first entry whose flag is set) that
/// holds an `.agents` directory.
pub fn find_project_root(ancestors: &Vec<String>, has_agents_dir: &Vec<bool>) -> (r: Option<String>)
    requires
        ancestors.len() == has_agents_dir.len(),
    ensures
        match r {
            Some(root) => exists|i: int|
                0 <= i < ancestors.len() && has_agents_dir@[i] && root@ == ancestors@[i]@ && forall|
                    j: int,
                | 0 <= j < i ==> !(#[trigger] has_agents_dir@[j]),
            None => forall|i: int| 0 <= i < ancestors.len() ==> !(#[trigger] has_agents_dir@[i]),
        },
{
    let mut i: usize = 0;
    while i < ancestors.len()
        invariant
            i <= ancestors.len(),
            ancestors.len() == has_agents_dir.len(),
            forall|j: int| 0 <= j < i ==> !(#[trigger] has_agents_dir@[j]),
        decreases ancestors.len() - i,
    {
        if has_agents_dir[i] {
            return Some(ancestors[i].clone());
        }
        i = i + 1;
    }
    None
}

/// The project root found from `cwd`, or the error that names `cwd`.
pub fn require_project_root(cwd: &str, ancestors: &Vec<String>, has_agents_dir: &Vec<bool>) -> (r:
    Result<String, ProjectError>)
    requires
        ancestors.len() == has_agents_dir.len(),
    ensures
        match r {
            Ok(root) => exists|i: int|
                0 <= i < ancestors.len() && has_agents_dir@[i] && root@ == ancestors@[i]@ && forall|
                    j: int,
                | 0 <= j < i ==> !(#[trigger] has_agents_dir@[j]),
            Err(ProjectError::ProjectNotInitialized(p)) => p@ == cwd@ && forall|i: int|
                0 <= i < ancestors.len() ==> !(#[trigger] has_agents_dir@[i]),
        },
{
    match find_project_root(ancestors, has_agents_dir) {
        Some(root) => Ok(root),
        None => Err(ProjectError::ProjectNotInitialized(text::owned(cwd))),
    }
}

} // verus!
