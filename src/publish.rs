//! The decisions of the publish engine: the remote branch a commit goes to,
//! the commit its changes are picked onto, and what to push.
use vstd::prelude::*;

use crate::error::RepoError;
use crate::metadata::CommitMetadata;
use crate::oid::{hex_of, Oid};
use crate::refs::{branch_name_for, is_branch_name_for};
use crate::stack::MainCommit;

verus! {

/// Where a commit is published: the remote branch, the commit that its
/// changes are cherry-picked onto, and the base commit of the stack.
#[derive(Debug)]
pub struct PublishTarget {
    pub branch: String,
    pub onto: Oid,
    pub base: Oid,
}

/// What publishing a commit comes to.
#[derive(Debug)]
pub enum PublishPlan {
    /// The remote branch already holds these changes: nothing is pushed and
    /// the metadata stays as it is.
    UpToDate,
    /// Commit the picked tree on top of `parent` with `message`, push it to
    /// `branch` and record `meta` on the local commit.
    Push { branch: String, parent: Oid, message: String, meta: CommitMetadata },
}

/// The remote branch of a commit: the recorded one when the commit is
/// published, else the one made from its message.
pub open spec fn publish_branch_ok(target: MainCommit, message: Seq<char>, r: Seq<char>) -> bool {
    match target {
        MainCommit::Published(t) => r == t.meta.remote_branch_name@,
        MainCommit::UnTracked(_) => is_branch_name_for(r, message),
    }
}

/// The remote tip that the changes of a commit go on top of, from the commit
/// below it: `parent` is that commit when it is part of the stack, and
/// `parent_branch_tip` the tip of its remote branch. Only a published parent
/// gives one; otherwise the changes go on the base.
pub fn stacked_onto(parent: Option<&MainCommit>, parent_branch_tip: Option<Oid>) -> (r: Option<Oid>)
    ensures
        r == match parent {
            Some(MainCommit::Published(_)) => parent_branch_tip,
            _ => None,
        },
{
    match parent {
        Some(MainCommit::Published(_)) => parent_branch_tip,
        _ => None,
    }
}

/// What `publish_target` returns on these inputs.
pub open spec fn target_ok(
    target: MainCommit,
    message: Seq<char>,
    branch_exists: bool,
    force: bool,
    base: Oid,
    parent_tip: Option<Oid>,
    r: Result<PublishTarget, RepoError>,
) -> bool {
    match r {
        Ok(p) => {
            &&& publish_branch_ok(target, message, p.branch@)
            &&& !(target is UnTracked && branch_exists && !force)
            &&& p.base == base
            &&& p.onto == match parent_tip {
                Some(t) => t,
                None => base,
            }
        },
        Err(RepoError::BranchExists(b)) => target is UnTracked && branch_exists && !force
            && is_branch_name_for(b@, message),
        Err(_) => false,
    }
}

/// Decides where `target` is published. `branch_exists` tells whether the
/// branch made from the message is already on the remote, which refuses an
/// unpublished commit unless `force` is set. `parent_tip` is the remote tip
/// of the commit below when that one is published: the changes go on top of
/// it, else on top of `base`.
pub fn publish_target(
    target: &MainCommit,
    message: &str,
    branch_exists: bool,
    force: bool,
    base: Oid,
    parent_tip: Option<Oid>,
) -> (r: Result<PublishTarget, RepoError>)
    ensures
        target_ok(*target, message@, branch_exists, force, base, parent_tip, r),
{
    let onto = match parent_tip {
        Some(t) => t,
        None => base,
    };
    match target {
        MainCommit::Published(t) => Ok(
            PublishTarget { branch: t.meta.remote_branch_name.clone(), onto, base },
        ),
        MainCommit::UnTracked(_) => {
            let branch = branch_name_for(message);
            if branch_exists && !force {
                Err(RepoError::BranchExists(branch))
            } else {
                Ok(PublishTarget { branch, onto, base })
            }
        },
    }
}

pub open spec fn fixup_message(tip: Oid) -> Seq<char> {
    "Fixup! "@ + hex_of(tip@)
}

/// What `publish_plan` returns on these inputs.
pub open spec fn plan_ok(
    target: PublishTarget,
    tip: Option<Oid>,
    changes: bool,
    message: Seq<char>,
    r: PublishPlan,
) -> bool {
    &&& !changes ==> r is UpToDate
    &&& changes ==> (r matches PublishPlan::Push { branch, parent, message: m, meta } && {
        &&& branch@ == target.branch@
        &&& meta.remote_branch_name@ == target.branch@
        &&& meta.remote_commit is None
        &&& parent == match tip {
            Some(t) => t,
            None => target.onto,
        }
        &&& m@ == if tip is Some && tip->0 != target.base {
            fixup_message(tip->0)
        } else {
            message
        }
    })
}

/// Decides what to push once the changes are picked onto `onto`. `tip` is
/// the current tip of the remote branch, if it exists; `changes` tells whether
/// the picked tree differs from the tree of the commit it would go on top of.
/// A commit that goes directly on the base keeps the commit's message; one
/// that goes on top of an earlier publication is a fixup of that tip.
pub fn publish_plan(target: &PublishTarget, tip: Option<Oid>, changes: bool, message: &str) -> (r:
    PublishPlan)
    ensures
        plan_ok(*target, tip, changes, message@, r),
{
    if !changes {
        return PublishPlan::UpToDate;
    }
    let (parent, m) = match tip {
        Some(t) => if t.eq_id(&target.base) {
            (t, message.to_owned())
        } else {
            let mut m = String::new();
            m.append("Fixup! ");
            m.append(t.to_hex().as_str());
            assert(m@ =~= fixup_message(t));
            (t, m)
        },
        None => (target.onto, message.to_owned()),
    };
    PublishPlan::Push {
        branch: target.branch.clone(),
        parent,
        message: m,
        meta: CommitMetadata::new(target.branch.clone(), None),
    }
}

/// Publishing a commit again once it is published is a no-op. After a push
/// the local commit carries the metadata `meta` of the plan. Seen through it,
/// the commit goes to the same branch, whatever the remote holds and without
/// `force`; and when picking its unchanged changes again yields the tree that
/// the pushed tip already has, nothing is pushed and nothing is recorded.
pub proof fn lemma_publish_again(
    first: PublishTarget,
    first_tip: Option<Oid>,
    message: Seq<char>,
    pushed: PublishPlan,
    id: Oid,
    branch_exists: bool,
    force: bool,
    base: Oid,
    parent_tip: Option<Oid>,
    again: Result<PublishTarget, RepoError>,
    tip: Option<Oid>,
    plan: PublishPlan,
)
    requires
        plan_ok(first, first_tip, true, message, pushed),
        target_ok(
            MainCommit::Published(
                crate::stack::TrackedCommit { id, meta: pushed->Push_meta },
            ),
            message,
            branch_exists,
            force,
            base,
            parent_tip,
            again,
        ),
        again is Ok ==> plan_ok(again->Ok_0, tip, false, message, plan),
    ensures
        again is Ok,
        again->Ok_0.branch@ == first.branch@,
        plan is UpToDate,
{
}

} // verus!
