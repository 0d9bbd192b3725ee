//! Classified failures of the git core, precise enough for a boundary
//! layer to choose a distinct outward status for each kind.

use vstd::prelude::*;
use vstd::string::StringExecFns;

verus! {

/// What went wrong, by kind.
#[derive(Clone, Copy, Debug, PartialEq, Eq, Structural)]
pub enum GitError {
    /// The repository directory is absent or not a repository.
    RepositoryNotFound,
    /// Neither a local branch nor a matching remote-tracking branch exists.
    BranchNotFound,
    /// The path does not exist inside the tree.
    PathNotFound,
    /// The path names a blob where a directory was required.
    NotADirectory,
    /// The thing to operate on does not exist.
    NotFound,
    /// The repository name is empty or holds `/` or `..`.
    InvalidName,
    /// A repository of that name already exists.
    AlreadyExists,
    /// The merge has conflicting changes; nothing was written.
    MergeConflict,
    /// The base reference moved while merging; retrying is safe.
    RefMoved,
    /// The merge commit was written but the base reference was not
    /// advanced: fatal, surfaced, never retried.
    RefUpdateFailed,
    /// The filesystem or the object store failed.
    IoError,
    /// An unexpected object-store failure.
    Internal,
}

impl GitError {
    /// The fixed description of each error kind.
    pub open spec fn message_spec(&self) -> Seq<char> {
        match self {
            GitError::RepositoryNotFound => "repository not found"@,
            GitError::BranchNotFound => "branch not found"@,
            GitError::PathNotFound => "path not found in repository"@,
            GitError::NotADirectory => "path is not a directory"@,
            GitError::NotFound => "not found"@,
            GitError::InvalidName => "invalid repository name"@,
            GitError::AlreadyExists => "repository already exists"@,
            GitError::MergeConflict => "merge has conflicts"@,
            GitError::RefMoved => "base branch moved; retry the merge"@,
            GitError::RefUpdateFailed => "merge commit written but base branch not advanced"@,
            GitError::IoError => "filesystem operation failed"@,
            GitError::Internal => "unexpected object store failure"@,
        }
    }

    /// A short human-readable description.
    pub fn message(&self) -> (s: String)
        ensures
            s@ == self.message_spec(),
    {
        match self {
            GitError::RepositoryNotFound => String::from_str("repository not found"),
            GitError::BranchNotFound => String::from_str("branch not found"),
            GitError::PathNotFound => String::from_str("path not found in repository"),
            GitError::NotADirectory => String::from_str("path is not a directory"),
            GitError::NotFound => String::from_str("not found"),
            GitError::InvalidName => String::from_str("invalid repository name"),
            GitError::AlreadyExists => String::from_str("repository already exists"),
            GitError::MergeConflict => String::from_str("merge has conflicts"),
            GitError::RefMoved => String::from_str("base branch moved; retry the merge"),
            GitError::RefUpdateFailed => String::from_str(
                "merge commit written but base branch not advanced",
            ),
            GitError::IoError => String::from_str("filesystem operation failed"),
            GitError::Internal => String::from_str("unexpected object store failure"),
        }
    }

    /// Whether the caller may safely retry the operation as it was.
    pub fn is_retryable(&self) -> (r: bool)
        ensures
            r == (self is RefMoved),
    {
        match self {
            GitError::RefMoved => true,
            _ => false,
        }
    }
}

} // verus!
