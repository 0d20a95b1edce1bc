//! The path sandbox: a request may touch a file only if the file's resolved
//! path lies under the resolved path of the project it names.
//!
//! Paths arrive resolved (absolute, links followed) and split into their
//! components, so containment is a matter of one component list opening
//! the other.

use crate::report::{describe, described, outcome};
use vstd::prelude::*;
use vstd::string::*;

verus! {

/// The components of a path as plain texts.
pub open spec fn components(path: Seq<String>) -> Seq<Seq<char>> {
    Seq::new(path.len(), |i: int| path[i]@)
}

/// `path` is `root` itself or lies below it: the components of `root` open
/// those of `path`.
pub open spec fn lies_within(root: Seq<Seq<char>>, path: Seq<Seq<char>>) -> bool {
    &&& root.len() <= path.len()
    &&& forall|i: int| 0 <= i < root.len() ==> #[trigger] path[i] == root[i]
}

/// Whatever is appended to a root lies within it.
pub proof fn lemma_descendant_lies_within(root: Seq<Seq<char>>, below: Seq<Seq<char>>)
    ensures
        lies_within(root, root + below),
{
}

/// A path lies within a root only if it is the root with something, possibly
/// nothing, appended.
pub proof fn lemma_within_is_descendant(root: Seq<Seq<char>>, path: Seq<Seq<char>>)
    requires
        lies_within(root, path),
    ensures
        path == root + path.subrange(root.len() as int, path.len() as int),
{
    assert(path =~= root + path.subrange(root.len() as int, path.len() as int));
}

/// A path that leaves the root at some component does not lie within it.
pub proof fn lemma_escape_is_outside(root: Seq<Seq<char>>, path: Seq<Seq<char>>, at: int)
    requires
        0 <= at < root.len(),
        at >= path.len() || path[at] != root[at],
    ensures
        !lies_within(root, path),
{
}

/// Decides whether a resolved path lies within a resolved root.
pub fn is_within(root: &Vec<String>, path: &Vec<String>) -> (within: bool)
    ensures
        within == lies_within(components(root@), components(path@)),
{
    if root.len() > path.len() {
        return false;
    }
    let ghost root_parts = components(root@);
    let ghost path_parts = components(path@);
    let mut i: usize = 0;
    while i < root.len()
        invariant
            i <= root.len() <= path.len(),
            root_parts == components(root@),
            path_parts == components(path@),
            forall|k: int| 0 <= k < i ==> root_parts[k] == path_parts[k],
        decreases root.len() - i,
    {
        if root[i] != path[i] {
            proof {
                assert(root_parts[i as int] == root@[i as int]@);
                assert(path_parts[i as int] == path@[i as int]@);
                lemma_escape_is_outside(root_parts, path_parts, i as int);
            }
            return false;
        }
        proof {
            assert(root_parts[i as int] == root@[i as int]@);
            assert(path_parts[i as int] == path@[i as int]@);
        }
        i = i + 1;
    }
    true
}

/// The refusal given for a path outside the project.
pub open spec fn access_denied() -> Seq<char> {
    "Access denied: file is outside project directory"@
}

/// Resolving a path gives its components, or the reason it could not be
/// resolved.
pub type Resolved = Result<Vec<String>, String>;

/// A resolved path, or the reason it could not be resolved, as plain texts.
pub open spec fn resolved(path: Resolved) -> Result<Seq<Seq<char>>, Seq<char>> {
    match path {
        Ok(parts) => Ok(components(parts@)),
        Err(reason) => Err(reason@),
    }
}

/// What the sandbox says to a request, given how resolving the project
/// path and the path to check went: the first failure to resolve is
/// reported, then containment decides.
pub open spec fn access_decision(
    project: Result<Seq<Seq<char>>, Seq<char>>,
    target: Result<Seq<Seq<char>>, Seq<char>>,
) -> Result<(), Seq<char>> {
    match project {
        Err(reason) => Err(described("Invalid project path"@, reason)),
        Ok(root) => match target {
            Err(reason) => Err(described("Invalid file path"@, reason)),
            Ok(path) => if lies_within(root, path) {
                Ok(())
            } else {
                Err(access_denied())
            },
        },
    }
}

/// The sandbox accepts every path below the project root and the root
/// itself, and rejects every path that resolves anywhere else.
pub proof fn lemma_sandbox_accepts_descendants_only(
    root: Seq<Seq<char>>,
    below: Seq<Seq<char>>,
    path: Seq<Seq<char>>,
)
    ensures
        access_decision(Ok(root), Ok(root + below)) == Ok::<(), Seq<char>>(()),
        access_decision(Ok(root), Ok(path)) is Ok <==> exists|rest: Seq<Seq<char>>|
            path == root + rest,
        !lies_within(root, path) ==> access_decision(Ok(root), Ok(path)) == Err::<
            (),
            Seq<char>,
        >(access_denied()),
{
    lemma_descendant_lies_within(root, below);
    if lies_within(root, path) {
        lemma_within_is_descendant(root, path);
    }
    if exists|rest: Seq<Seq<char>>| path == root + rest {
        let rest = choose|rest: Seq<Seq<char>>| path == root + rest;
        lemma_descendant_lies_within(root, rest);
    }
}

/// Checks a request against the sandbox.
///
/// `project` and `target` are what resolving the project directory and the
/// path to check gave: the components of the resolved path, or the reason
/// it could not be resolved. Access is granted exactly when both resolved
/// and the target lies within the project.
pub fn check_access(project: &Resolved, target: &Resolved) -> (decision: Result<(), String>)
    ensures
        outcome(decision) == access_decision(resolved(*project), resolved(*target)),
        decision is Ok <==> (project matches Ok(root) && target matches Ok(path) && lies_within(
            components(root@),
            components(path@),
        )),
{
    match project {
        Err(reason) => Err(describe("Invalid project path", reason.as_str())),
        Ok(root) => match target {
            Err(reason) => Err(describe("Invalid file path", reason.as_str())),
            Ok(path) => {
                if is_within(root, path) {
                    Ok(())
                } else {
                    Err("Access denied: file is outside project directory".to_owned())
                }
            },
        },
    }
}

/// The path that stands for a file in the sandbox check before a write.
#[derive(Debug)]
pub enum WriteTarget {
    /// The file exists: what resolving it gave.
    Existing(Resolved),
    /// The file does not exist yet: what resolving the nearest existing
    /// directory above it gave, or `None` if there is no such directory.
    NewIn(Option<Resolved>),
}

/// The refusal given for a new file that no existing directory would hold.
pub open spec fn no_place() -> Seq<char> {
    "Invalid file path"@
}

/// What the sandbox says to a write: a project that does not resolve is
/// reported first, then a new file without a place, then the check of the
/// path that stands for the file.
pub open spec fn write_decision(
    project: Result<Seq<Seq<char>>, Seq<char>>,
    target: WriteTarget,
) -> Result<(), Seq<char>> {
    match project {
        Err(reason) => Err(described("Invalid project path"@, reason)),
        Ok(root) => match target {
            WriteTarget::Existing(file) => access_decision(project, resolved(file)),
            WriteTarget::NewIn(Some(directory)) => access_decision(project, resolved(directory)),
            WriteTarget::NewIn(None) => Err(no_place()),
        },
    }
}

/// Checks a read of a project file against the sandbox, given what
/// resolving the project directory and the file gave.
pub fn authorize_read(project: &Resolved, file: &Resolved) -> (decision: Result<(), String>)
    ensures
        outcome(decision) == access_decision(resolved(*project), resolved(*file)),
        decision is Ok <==> (project matches Ok(root) && file matches Ok(path) && lies_within(
            components(root@),
            components(path@),
        )),
{
    check_access(project, file)
}

/// Checks a write of a project file against the sandbox, given what
/// resolving the project directory gave and the path that stands for the
/// file.
pub fn authorize_write(project: &Resolved, target: &WriteTarget) -> (decision: Result<(), String>)
    ensures
        outcome(decision) == write_decision(resolved(*project), *target),
{
    match project {
        Err(reason) => Err(describe("Invalid project path", reason.as_str())),
        Ok(_) => match target {
            WriteTarget::Existing(file) => check_access(project, file),
            WriteTarget::NewIn(Some(directory)) => check_access(project, directory),
            WriteTarget::NewIn(None) => Err("Invalid file path".to_owned()),
        },
    }
}

} // verus!
