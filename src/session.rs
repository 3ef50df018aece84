//! The decisions of the repository handle around the engine's work: which
//! branch is current, which revisions may be touched, how a command on the
//! reconciliation starts, and how the current branch is moved.
use vstd::prelude::*;

use crate::error::RepoError;
use crate::metadata::{reads_as_metadata, CommitMetadata};
use crate::sync::SyncState;
use crate::oid::{hex_of, Oid};
use crate::refs::{branch_of_ref, local_ref, local_ref_prefix};
use crate::stack::MainCommit;

verus! {

/// How the commands that reach the remote run.
#[derive(Clone, Copy, Debug, PartialEq, Eq, Structural)]
pub enum CommandOption {
    /// Verbose and interactive.
    Default,
    /// With output suppressed.
    Silent,
    /// Reports what would move, and moves nothing.
    DryRun,
}

/// The current branch, from the full name of the reference HEAD points at;
/// `None` when HEAD is detached.
pub fn current_branch(head_ref: Option<&str>) -> (r: Result<String, RepoError>)
    ensures
        match r {
            Ok(b) => head_ref is Some && local_ref_prefix() + b@ == head_ref->0@,
            Err(e) => e is NotABranch && (head_ref is None || !(head_ref->0@.len()
                >= local_ref_prefix().len() && head_ref->0@.take(local_ref_prefix().len() as int)
                == local_ref_prefix())),
        },
{
    match head_ref {
        None => Err(RepoError::NotABranch),
        Some(name) => match branch_of_ref(name) {
            Some(b) => Ok(b),
            None => Err(RepoError::NotABranch),
        },
    }
}

/// A revision may be worked on only when it is a strict descendant of the
/// base commit, that is not yet on the remote.
pub fn check_unpushed(id: Oid, descends_from_base: bool) -> (r: Result<Oid, RepoError>)
    ensures
        descends_from_base ==> r == Ok::<Oid, RepoError>(id),
        !descends_from_base ==> r == Err::<Oid, RepoError>(RepoError::AlreadyPushed(id)),
{
    if descends_from_base {
        Ok(id)
    } else {
        Err(RepoError::AlreadyPushed(id))
    }
}

pub open spec fn classified(c: MainCommit, id: Oid, note: Option<String>) -> bool {
    match note {
        None => c == MainCommit::UnTracked(id),
        Some(t) => if reads_as_metadata(t@) {
            c matches MainCommit::Published(p) && p.id == id && p.meta.wf() && p.meta.text() == t@
        } else {
            c == MainCommit::UnTracked(id)
        },
    }
}

/// The stack, from the commits between the base and the head, oldest first,
/// and the note attached to each: a commit is published when its note reads
/// as metadata, and untracked otherwise.
pub fn stack_of(ids: &Vec<Oid>, notes: &Vec<Option<String>>) -> (r: Vec<MainCommit>)
    requires
        ids@.len() == notes@.len(),
    ensures
        r@.len() == ids@.len(),
        forall|i: int| 0 <= i < r@.len() ==> classified(#[trigger] r@[i], ids@[i], notes@[i]),
{
    let mut v: Vec<MainCommit> = Vec::new();
    let mut i: usize = 0;
    while i < ids.len()
        invariant
            ids@.len() == notes@.len(),
            i <= ids@.len(),
            v@.len() == i,
            forall|j: int| 0 <= j < i ==> classified(#[trigger] v@[j], ids@[j], notes@[j]),
        decreases ids@.len() - i,
    {
        let note: Option<&str> = match &notes[i] {
            Some(t) => Some(t.as_str()),
            None => None,
        };
        v.push(MainCommit::classify(ids[i], note));
        i = i + 1;
    }
    v
}

/// The commit that the walk of the stack stops at, exclusive: during a
/// reconciliation halted on a conflict, the commit that conflicted, so that
/// the walk yields the commits above it; otherwise the base commit.
pub fn walk_boundary(state: Option<&SyncState>, base: Oid) -> (r: Oid)
    ensures
        r == match state {
            Some(s) => s.main_commit_id,
            None => base,
        },
{
    match state {
        Some(s) => s.main_commit_id,
        None => base,
    }
}

/// The message that the rebase step of commit `step` is given when the
/// metadata is written into the message of `target`: for that commit, its
/// message `message` with the metadata below it; for any other, none, and
/// the step keeps its own.
pub fn rebase_message(step: Oid, target: Oid, meta: &CommitMetadata, message: &str) -> (r: Option<
    String,
>)
    ensures
        step == target ==> (r matches Some(m) && m@ == message@ + "\nmeta:\n"@ + meta.text()),
        step != target ==> r is None,
{
    if step.eq_id(&target) {
        Some(meta.message_with(message))
    } else {
        None
    }
}

/// How a command on the reconciliation starts.
#[derive(Clone, Copy, Debug, PartialEq, Eq, Structural)]
pub enum SyncMode {
    /// A fresh run over the whole stack.
    Fresh,
    /// The resumption of the run that halted on a conflict.
    Resume,
}

/// Decides how `sync` starts. `cont` asks to resume; `in_progress` tells
/// whether a sync state is saved; `conflicted` counts the entries still in
/// conflict in the index.
pub fn sync_mode(cont: bool, in_progress: bool, conflicted: usize) -> (r: Result<
    SyncMode,
    RepoError,
>)
    ensures
        cont && !in_progress ==> r matches Err(RepoError::NoSyncInProgress),
        cont && in_progress && conflicted > 0 ==> r matches Err(RepoError::UnresolvedConflicts),
        cont && in_progress && conflicted == 0 ==> r == Ok::<SyncMode, RepoError>(SyncMode::Resume),
        !cont && in_progress ==> r matches Err(RepoError::SyncInProgress),
        !cont && !in_progress ==> r == Ok::<SyncMode, RepoError>(SyncMode::Fresh),
{
    if cont {
        if !in_progress {
            Err(RepoError::NoSyncInProgress)
        } else if conflicted > 0 {
            Err(RepoError::UnresolvedConflicts)
        } else {
            Ok(SyncMode::Resume)
        }
    } else if in_progress {
        Err(RepoError::SyncInProgress)
    } else {
        Ok(SyncMode::Fresh)
    }
}

/// One step of moving the current branch.
#[derive(Debug)]
pub enum RefStep {
    /// Make the working tree match this commit.
    Checkout(Oid),
    /// Point HEAD at this commit directly.
    DetachHead(Oid),
    /// Point the branch at this commit.
    MoveBranch { branch: String, head: Oid },
    /// Point HEAD at this reference.
    AttachHead(String),
    /// Print this line; nothing moves.
    Report(String),
}

pub open spec fn dry_run_report(branch: Seq<char>, head: Oid) -> Seq<char> {
    "Setting "@ + branch + " to point to "@ + hex_of(head@)
}

/// The steps that move the current branch `branch` to `head`. The engine
/// forbids moving the reference HEAD resolves to in place, so HEAD is
/// detached first and attached again last. A dry run only reports.
pub fn relocation_steps(option: CommandOption, branch: &str, head: Oid) -> (r: Vec<RefStep>)
    ensures
        option == CommandOption::DryRun ==> r@.len() == 1 && (r@[0] matches RefStep::Report(t)
            && t@ == dry_run_report(branch@, head)),
        option != CommandOption::DryRun ==> {
            &&& r@.len() == 4
            &&& r@[0] == RefStep::Checkout(head)
            &&& r@[1] == RefStep::DetachHead(head)
            &&& (r@[2] matches RefStep::MoveBranch { branch: b, head: h } && b@ == branch@ && h
                == head)
            &&& (r@[3] matches RefStep::AttachHead(t) && t@ == local_ref_prefix() + branch@)
        },
{
    let mut r: Vec<RefStep> = Vec::new();
    if option == CommandOption::DryRun {
        let mut t = String::new();
        t.append("Setting ");
        t.append(branch);
        t.append(" to point to ");
        t.append(head.to_hex().as_str());
        assert(t@ =~= dry_run_report(branch@, head));
        r.push(RefStep::Report(t));
    } else {
        r.push(RefStep::Checkout(head));
        r.push(RefStep::DetachHead(head));
        r.push(RefStep::MoveBranch { branch: branch.to_owned(), head });
        r.push(RefStep::AttachHead(local_ref(branch)));
    }
    r
}

} // verus!
