use vstd::prelude::*;

use crate::oid::{hex_of, Oid};
use crate::sync::{SyncError, SyncState};

verus! {

/// The failures of the repository operations, each with its message.
#[derive(Debug)]
pub enum RepoError {
    /// HEAD does not point at a branch.
    NotABranch,
    /// The current branch has no counterpart on the remote.
    NoUpstream(String),
    /// The revision is not a strict descendant of the base commit.
    AlreadyPushed(Oid),
    /// A merge left conflicts for the user to resolve.
    MergeConflict { local: Oid, remote: Oid },
    /// A merge produced an empty tree.
    EmptyMerge,
    /// The remote branch of a published commit is gone and no remote commit is pinned.
    RemoteBranchMissing(String),
    /// Resuming was asked for with no reconciliation in progress.
    NoSyncInProgress,
    /// A fresh reconciliation was asked for while one is in progress.
    SyncInProgress,
    /// Conflicted entries remain where the user was to resolve them.
    UnresolvedConflicts,
    /// The commit cannot be cherry-picked on this commit.
    CherryPickConflict(Oid),
    /// The branch name made from the message is taken on the remote.
    BranchExists(String),
    /// The repository reported something that the reconciliation did not wait for.
    UnexpectedEvent,
}

pub open spec fn error_text(e: RepoError) -> Seq<char> {
    match e {
        RepoError::NotABranch => "Detached HEAD"@,
        RepoError::NoUpstream(b) => "No remote branch origin/"@ + b@,
        RepoError::AlreadyPushed(id) => "Commit "@ + hex_of(id@) + " is already pushed to the remote"@,
        RepoError::MergeConflict { local, remote } => "Unable to merge local commit ("@ + hex_of(local@)
            + ") with commit from remote ("@ + hex_of(remote@)
            + ")\nOnce all the conflicts has been resolved, run 'ubr sync --continue'\n"@,
        RepoError::EmptyMerge => "Merge produced an empty tree"@,
        RepoError::RemoteBranchMissing(b) => "Remote branch origin/"@ + b@
            + " is missing and no remote commit is recorded"@,
        RepoError::NoSyncInProgress => "No sync in progress"@,
        RepoError::SyncInProgress => "A sync is in progress, run 'ubr sync --continue'"@,
        RepoError::UnresolvedConflicts => "Conflicts remain unresolved"@,
        RepoError::CherryPickConflict(id) => "This commit cannot be cherry-picked on "@ + hex_of(
            id@,
        ),
        RepoError::BranchExists(b) => "Remote branch origin/"@ + b@ + " already exists"@,
        RepoError::UnexpectedEvent => "Unexpected report from the repository"@,
    }
}

impl RepoError {
    /// The message that reports this failure.
    pub fn message(&self) -> (r: String)
        ensures
            r@ == error_text(*self),
    {
        let mut r = String::new();
        match self {
            RepoError::NotABranch => r.append("Detached HEAD"),
            RepoError::NoUpstream(b) => {
                r.append("No remote branch origin/");
                r.append(b.as_str());
            },
            RepoError::AlreadyPushed(id) => {
                r.append("Commit ");
                r.append(id.to_hex().as_str());
                r.append(" is already pushed to the remote");
            },
            RepoError::MergeConflict { local, remote } => {
                r.append("Unable to merge local commit (");
                r.append(local.to_hex().as_str());
                r.append(") with commit from remote (");
                r.append(remote.to_hex().as_str());
                r.append(")\nOnce all the conflicts has been resolved, run 'ubr sync --continue'\n");
            },
            RepoError::EmptyMerge => r.append("Merge produced an empty tree"),
            RepoError::RemoteBranchMissing(b) => {
                r.append("Remote branch origin/");
                r.append(b.as_str());
                r.append(" is missing and no remote commit is recorded");
            },
            RepoError::NoSyncInProgress => r.append("No sync in progress"),
            RepoError::SyncInProgress => r.append(
                "A sync is in progress, run 'ubr sync --continue'",
            ),
            RepoError::UnresolvedConflicts => r.append("Conflicts remain unresolved"),
            RepoError::CherryPickConflict(id) => {
                r.append("This commit cannot be cherry-picked on ");
                r.append(id.to_hex().as_str());
            },
            RepoError::BranchExists(b) => {
                r.append("Remote branch origin/");
                r.append(b.as_str());
                r.append(" already exists");
            },
            RepoError::UnexpectedEvent => r.append("Unexpected report from the repository"),
        }
        assert(r@ =~= error_text(*self));
        r
    }

    /// The failure that a reconciliation halted with.
    pub fn from_sync(e: SyncError) -> (r: RepoError)
        ensures
            r == match e {
                SyncError::RemoteBranchMissing(b) => RepoError::RemoteBranchMissing(b),
                SyncError::EmptyMerge => RepoError::EmptyMerge,
                SyncError::UnexpectedEvent => RepoError::UnexpectedEvent,
            },
    {
        match e {
            SyncError::RemoteBranchMissing(b) => RepoError::RemoteBranchMissing(b),
            SyncError::EmptyMerge => RepoError::EmptyMerge,
            SyncError::UnexpectedEvent => RepoError::UnexpectedEvent,
        }
    }

    /// The conflict that a saved sync state records.
    pub fn conflict(state: &SyncState) -> (r: RepoError)
        ensures
            r == (RepoError::MergeConflict {
                local: state.main_commit_id,
                remote: state.remote_commit_id,
            }),
    {
        RepoError::MergeConflict { local: state.main_commit_id, remote: state.remote_commit_id }
    }
}

} // verus!
