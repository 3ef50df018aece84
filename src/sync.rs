use vstd::prelude::*;

use crate::metadata::CommitMetadata;
use crate::oid::Oid;
use crate::stack::{remote_source_of, MainCommit, TrackedCommit};

verus! {

/// The record of a reconciliation step interrupted by a merge conflict.
#[derive(Debug)]
pub struct SyncState {
    /// The local commit whose merge conflicted.
    pub main_commit_id: Oid,
    /// The remote commit it was merged with.
    pub remote_commit_id: Oid,
    /// The already reconciled commit that the result goes on top of.
    pub main_commit_parent_id: Oid,
    /// The branch being reconciled.
    pub main_branch_name: String,
}

/// What the engine reports of a merge of a local commit with a remote tip.
#[derive(Clone, Copy, Debug)]
pub enum MergeOutcome {
    /// A merge commit was made.
    Clean(Oid),
    /// The remote tip brings nothing that the local commit lacks.
    UpToDate,
    /// The merge left conflicts in the working tree.
    Conflict,
    /// The merge produced an empty tree.
    Empty,
}

/// What the engine hands back after performing an action.
#[derive(Clone, Copy, Debug)]
pub enum Event {
    /// The tip of the remote branch asked for, if the branch exists.
    RemoteTip(Option<Oid>),
    Merged(MergeOutcome),
    /// The commit made by a `Reapply`.
    Committed(Oid),
}

/// Why a reconciliation stopped without a conflict to resolve.
#[derive(Debug)]
pub enum SyncError {
    /// The remote branch of a published commit is gone and no remote commit is pinned.
    RemoteBranchMissing(String),
    /// A merge produced an empty tree.
    EmptyMerge,
    /// An event came that the current stage does not wait for.
    UnexpectedEvent,
}

/// What the engine is asked to do next.
#[derive(Debug)]
pub enum Action {
    /// Look up the tip of the remote branch of this name.
    FindRemoteTip { branch: String },
    /// Merge the local commit with the remote commit.
    Merge { local: Oid, remote: Oid },
    /// Make a commit on top of `onto` whose changes are those from `from` to
    /// `to`, with the message of `message_of`, and attach `note` to it.
    Reapply { from: Oid, to: Oid, onto: Oid, message_of: Oid, note: Option<CommitMetadata> },
    /// Move the current branch to `head`; the reconciliation is over.
    UpdateBranch { head: Oid },
    /// Persist the state and report the conflict; the reconciliation halts.
    SaveSyncState { state: SyncState },
    /// Report the error; the reconciliation halts.
    Fail { error: SyncError },
}

#[derive(Clone, Copy, Debug)]
pub enum Stage {
    /// About to look at the commit at the current position.
    Next,
    AwaitTip,
    AwaitMerge { remote: Oid },
    AwaitCommit,
    Done,
    Halted,
}

/// The reconciliation of a stack, one commit at a time, oldest first.
///
/// Commits before `pos` are reconciled; `onto` is the reconciled commit that
/// the commit at `pos` goes on top of, `parent` the commit it sits on now.
#[derive(Debug)]
pub struct Reconciler {
    pub branch: String,
    pub stack: Vec<MainCommit>,
    pub pos: usize,
    pub parent: Oid,
    pub onto: Oid,
    pub stage: Stage,
}

pub open spec fn terminal(s: Reconciler) -> bool {
    s.stage is Done || s.stage is Halted
}

pub open spec fn ends_run(a: Action) -> bool {
    a is UpdateBranch || a is SaveSyncState || a is Fail
}

/// The commit at the current position, as a published one.
pub open spec fn current(s: Reconciler) -> TrackedCommit {
    s.stack@[s.pos as int]->Published_0
}

/// Moves past the commit at the current position, which became `reconciled`.
pub open spec fn moved_past(s: Reconciler, reconciled: Oid) -> Reconciler {
    Reconciler {
        pos: (s.pos + 1) as usize,
        parent: s.stack@[s.pos as int].spec_id(),
        onto: reconciled,
        stage: Stage::Next,
        ..s
    }
}

/// From the current position on: the first commit that needs the engine, or
/// the branch update when none is left. An unpublished commit whose parent is
/// already in place is kept as it is.
pub open spec fn advance(s: Reconciler) -> (Reconciler, Action)
    decreases s.stack@.len() - s.pos when s.stack@.len() <= usize::MAX
{
    if s.pos >= s.stack@.len() {
        (Reconciler { stage: Stage::Done, ..s }, Action::UpdateBranch { head: s.onto })
    } else {
        match s.stack@[s.pos as int] {
            MainCommit::Published(t) => (
                Reconciler { stage: Stage::AwaitTip, ..s },
                Action::FindRemoteTip { branch: t.meta.remote_branch_name },
            ),
            MainCommit::UnTracked(id) => if s.parent == s.onto {
                advance(moved_past(s, id))
            } else {
                (
                    Reconciler { stage: Stage::AwaitCommit, ..s },
                    Action::Reapply { from: s.parent, to: id, onto: s.onto, message_of: id, note: None },
                )
            },
        }
    }
}

/// The merge of the current commit with `remote`.
pub open spec fn merge_with(s: Reconciler, remote: Oid) -> (Reconciler, Action) {
    (
        Reconciler { stage: Stage::AwaitMerge { remote }, ..s },
        Action::Merge { local: current(s).id, remote },
    )
}

/// The next state and action once the engine reports `e`.
pub open spec fn react(s: Reconciler, e: Event) -> (Reconciler, Action) {
    let halt = Reconciler { stage: Stage::Halted, ..s };
    match s.stage {
        Stage::AwaitTip => match e {
            Event::RemoteTip(tip) => match remote_source_of(current(s), tip) {
                Some(remote) => merge_with(s, remote),
                None => (
                    halt,
                    Action::Fail {
                        error: SyncError::RemoteBranchMissing(current(s).meta.remote_branch_name),
                    },
                ),
            },
            _ => (halt, Action::Fail { error: SyncError::UnexpectedEvent }),
        },
        Stage::AwaitMerge { remote } => match e {
            Event::Merged(MergeOutcome::Clean(m)) => (
                Reconciler { stage: Stage::AwaitCommit, ..s },
                Action::Reapply {
                    from: s.parent,
                    to: m,
                    onto: s.onto,
                    message_of: current(s).id,
                    note: Some(current(s).meta),
                },
            ),
            Event::Merged(MergeOutcome::UpToDate) => if s.parent == s.onto {
                advance(moved_past(s, current(s).id))
            } else {
                (
                    Reconciler { stage: Stage::AwaitCommit, ..s },
                    Action::Reapply {
                        from: s.parent,
                        to: current(s).id,
                        onto: s.onto,
                        message_of: current(s).id,
                        note: Some(current(s).meta),
                    },
                )
            },
            Event::Merged(MergeOutcome::Conflict) => (
                halt,
                Action::SaveSyncState {
                    state: SyncState {
                        main_commit_id: current(s).id,
                        remote_commit_id: remote,
                        main_commit_parent_id: s.onto,
                        main_branch_name: s.branch,
                    },
                },
            ),
            Event::Merged(MergeOutcome::Empty) => (halt, Action::Fail { error: SyncError::EmptyMerge }),
            _ => (halt, Action::Fail { error: SyncError::UnexpectedEvent }),
        },
        Stage::AwaitCommit => match e {
            Event::Committed(n) => advance(moved_past(s, n)),
            _ => (halt, Action::Fail { error: SyncError::UnexpectedEvent }),
        },
        _ => (halt, Action::Fail { error: SyncError::UnexpectedEvent }),
    }
}

impl Reconciler {
    /// The states that the machine passes through: the position is in the
    /// stack, and a stage that waits on a commit has one at the position.
    pub open spec fn wf(&self) -> bool {
        &&& self.pos <= self.stack@.len() <= usize::MAX
        &&& self.stage is Done ==> self.pos == self.stack@.len()
        &&& (self.stage is AwaitTip || self.stage is AwaitMerge) ==> self.pos < self.stack@.len()
            && self.stack@[self.pos as int] is Published
        &&& self.stage is AwaitCommit ==> self.pos < self.stack@.len()
    }

    /// A reconciliation of `stack`, oldest commit first, on top of `base`.
    pub fn new(branch: String, base: Oid, stack: Vec<MainCommit>) -> (r: Reconciler)
        ensures
            r == (Reconciler { branch, stack, pos: 0, parent: base, onto: base, stage: Stage::Next }),
            r.wf(),
    {
        proof {
            assert(stack@.len() == stack.len());
        }
        Reconciler { branch, stack, pos: 0, parent: base, onto: base, stage: Stage::Next }
    }

    /// Starts the reconciliation: the first action for the engine.
    pub fn start(&mut self) -> (a: Action)
        requires
            old(self).wf(),
            old(self).stage is Next,
        ensures
            (*final(self), a) == advance(*old(self)),
    {
        self.advance_exec()
    }

    fn advance_exec(&mut self) -> (a: Action)
        requires
            old(self).pos <= old(self).stack@.len() <= usize::MAX,
        ensures
            (*final(self), a) == advance(*old(self)),
    {
        loop
            invariant
                self.pos <= self.stack@.len() <= usize::MAX,
                advance(*self) == advance(*old(self)),
            decreases self.stack@.len() - self.pos,
        {
            if self.pos >= self.stack.len() {
                self.stage = Stage::Done;
                return Action::UpdateBranch { head: self.onto };
            }
            let published = self.stack[self.pos].is_published();
            let id = self.stack[self.pos].id();
            if published {
                let branch = match &self.stack[self.pos] {
                    MainCommit::Published(t) => t.meta.remote_branch_name.clone(),
                    MainCommit::UnTracked(_) => String::new(),
                };
                self.stage = Stage::AwaitTip;
                return Action::FindRemoteTip { branch };
            }
            if self.parent.eq_id(&self.onto) {
                proof {
                    assert(advance(*self) == advance(moved_past(*self, id)));
                }
                self.pos = self.pos + 1;
                self.parent = id;
                self.onto = id;
                self.stage = Stage::Next;
            } else {
                self.stage = Stage::AwaitCommit;
                return Action::Reapply {
                    from: self.parent,
                    to: id,
                    onto: self.onto,
                    message_of: id,
                    note: None,
                };
            }
        }
    }

    /// A copy of the commit at the current position.
    fn current_commit(&self) -> (r: TrackedCommit)
        requires
            self.pos < self.stack@.len(),
            self.stack@[self.pos as int] is Published,
        ensures
            r == current(*self),
    {
        match &self.stack[self.pos] {
            MainCommit::Published(t) => TrackedCommit { id: t.id, meta: t.meta.duplicate() },
            MainCommit::UnTracked(id) => TrackedCommit {
                id: *id,
                meta: CommitMetadata::new(String::new(), None),
            },
        }
    }

    fn merge_with_exec(&mut self, remote: Oid) -> (a: Action)
        requires
            old(self).pos < old(self).stack@.len(),
            old(self).stack@[old(self).pos as int] is Published,
        ensures
            (*final(self), a) == merge_with(*old(self), remote),
    {
        let local = self.current_commit().id;
        self.stage = Stage::AwaitMerge { remote };
        Action::Merge { local, remote }
    }

    fn halt(&mut self, error: SyncError) -> (a: Action)
        ensures
            *final(self) == (Reconciler { stage: Stage::Halted, ..*old(self) }),
            a == (Action::Fail { error }),
    {
        self.stage = Stage::Halted;
        Action::Fail { error }
    }

    fn move_past(&mut self, reconciled: Oid)
        requires
            old(self).pos < old(self).stack@.len() <= usize::MAX,
        ensures
            *final(self) == moved_past(*old(self), reconciled),
    {
        let id = self.stack[self.pos].id();
        self.pos = self.pos + 1;
        self.parent = id;
        self.onto = reconciled;
        self.stage = Stage::Next;
    }

    /// Takes what the engine reports and gives the next action.
    pub fn handle(&mut self, e: Event) -> (a: Action)
        requires
            old(self).wf(),
            !terminal(*old(self)),
        ensures
            (*final(self), a) == react(*old(self), e),
    {
        match self.stage {
            Stage::AwaitTip => match e {
                Event::RemoteTip(tip) => {
                    let t = self.current_commit();
                    match t.remote_source(tip) {
                        Some(r) => self.merge_with_exec(r),
                        None => self.halt(SyncError::RemoteBranchMissing(t.meta.remote_branch_name)),
                    }
                },
                _ => self.halt(SyncError::UnexpectedEvent),
            },
            Stage::AwaitMerge { remote } => match e {
                Event::Merged(MergeOutcome::Clean(m)) => {
                    let from = self.parent;
                    let onto = self.onto;
                    let t = self.current_commit();
                    self.stage = Stage::AwaitCommit;
                    Action::Reapply { from, to: m, onto, message_of: t.id, note: Some(t.meta) }
                },
                Event::Merged(MergeOutcome::UpToDate) => {
                    let t = self.current_commit();
                    if self.parent.eq_id(&self.onto) {
                        self.move_past(t.id);
                        self.advance_exec()
                    } else {
                        let from = self.parent;
                        let onto = self.onto;
                        self.stage = Stage::AwaitCommit;
                        Action::Reapply { from, to: t.id, onto, message_of: t.id, note: Some(t.meta) }
                    }
                },
                Event::Merged(MergeOutcome::Conflict) => {
                    let t = self.current_commit();
                    let state = SyncState {
                        main_commit_id: t.id,
                        remote_commit_id: remote,
                        main_commit_parent_id: self.onto,
                        main_branch_name: self.branch.clone(),
                    };
                    self.stage = Stage::Halted;
                    Action::SaveSyncState { state }
                },
                Event::Merged(MergeOutcome::Empty) => self.halt(SyncError::EmptyMerge),
                _ => self.halt(SyncError::UnexpectedEvent),
            },
            Stage::AwaitCommit => match e {
                Event::Committed(n) => {
                    self.move_past(n);
                    self.advance_exec()
                },
                _ => self.halt(SyncError::UnexpectedEvent),
            },
            _ => self.halt(SyncError::UnexpectedEvent),
        }
    }

    /// Picks up a reconciliation that halted on a conflict, once the conflict
    /// is resolved. `meta` is the metadata of the commit whose merge
    /// conflicted, `parent` the commit it sits on, `rest` the commits above it,
    /// oldest first, and `merge` the merge commit made from the resolved tree.
    pub fn resume(
        state: SyncState,
        meta: CommitMetadata,
        parent: Oid,
        rest: Vec<MainCommit>,
        merge: Oid,
    ) -> (r: (Reconciler, Action))
        requires
            rest@.len() < usize::MAX,
        ensures
            r.0.stack@ == seq![MainCommit::Published(TrackedCommit { id: state.main_commit_id, meta })]
                + rest@,
            r == react(
                Reconciler {
                    branch: state.main_branch_name,
                    stack: r.0.stack,
                    pos: 0,
                    parent,
                    onto: state.main_commit_parent_id,
                    stage: Stage::AwaitMerge { remote: state.remote_commit_id },
                },
                Event::Merged(MergeOutcome::Clean(merge)),
            ),
            r.0.wf(),
    {
        let mut stack = rest;
        stack.insert(0, MainCommit::Published(TrackedCommit { id: state.main_commit_id, meta }));
        proof {
            assert(stack@ =~= seq![MainCommit::Published(TrackedCommit { id: state.main_commit_id, meta })]
                + rest@);
            assert(stack@.len() == stack.len());
        }
        let mut s = Reconciler {
            branch: state.main_branch_name,
            stack,
            pos: 0,
            parent,
            onto: state.main_commit_parent_id,
            stage: Stage::AwaitMerge { remote: state.remote_commit_id },
        };
        let a = s.handle(Event::Merged(MergeOutcome::Clean(merge)));
        (s, a)
    }
}

} // verus!
