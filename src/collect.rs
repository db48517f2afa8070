//! The rules of path enumeration; the caller walks the file system.

use vstd::prelude::*;
use vstd::string::*;

use crate::lint::TodolintError;

verus! {

/// What a path is on disk.
#[derive(Debug, Clone, Copy, PartialEq, Eq)]
pub enum PathKind {
    File,
    Directory,
    SymbolicLink,
    Other,
}

/// How a root path is enumerated.
#[derive(Debug, Clone, Copy, PartialEq, Eq)]
pub enum RootPlan {
    /// The root itself is the one candidate.
    Include,
    /// The root is walked, entries in name order at each level.
    Walk,
}

/// A regular file root is a candidate and a directory root is walked; any
/// other kind of root (a device, a socket) is an error, never skipped.
pub fn plan_root(root: &str, kind: PathKind) -> (r: Result<RootPlan, TodolintError>)
    ensures
        kind is File ==> r matches Ok(RootPlan::Include),
        kind is Directory ==> r matches Ok(RootPlan::Walk),
        !(kind is File || kind is Directory) ==> (r matches Err(e) && e is UnsupportedPathError),
{
    match kind {
        PathKind::File => Ok(RootPlan::Include),
        PathKind::Directory => Ok(RootPlan::Walk),
        _ => {
            let message = String::from_str("unknown type of path: ").concat(root);
            Err(TodolintError::UnsupportedPathError(message))
        },
    }
}

/// Whether an entry met during a walk is a candidate: only regular files
/// are; directories, symbolic links (which are not followed), devices,
/// sockets and pipes never are.
pub fn is_candidate_entry(kind: PathKind) -> (r: bool)
    ensures
        r == (kind is File),
{
    match kind {
        PathKind::File => true,
        _ => false,
    }
}

} // verus!
