//! The course of a reconciliation: the actions it asks for, given what the
//! engine reports, and what holds of them.
use vstd::prelude::*;

use crate::oid::Oid;
use crate::stack::MainCommit;
use crate::sync::{
    advance, current, ends_run, moved_past, react, terminal, Action, Event, MergeOutcome, Reconciler,
    Stage,
};

verus! {

/// The states and actions that follow `s` as the engine reports `es`, up to
/// the action that ends the run.
pub open spec fn run(s: Reconciler, es: Seq<Event>) -> Seq<(Reconciler, Action)>
    decreases es.len(),
{
    if es.len() == 0 || terminal(s) {
        Seq::empty()
    } else {
        let (t, a) = react(s, es[0]);
        seq![(t, a)] + run(t, es.drop_first())
    }
}

/// A reconciliation of `stack` on top of `base`, before its first action.
pub open spec fn initial(branch: String, base: Oid, stack: Vec<MainCommit>) -> Reconciler {
    Reconciler { branch, stack, pos: 0, parent: base, onto: base, stage: Stage::Next }
}

/// The whole course of a run from `s`: its first action, then those that
/// follow the reports `es`.
pub open spec fn session(s: Reconciler, es: Seq<Event>) -> Seq<(Reconciler, Action)> {
    let (t, a) = advance(s);
    seq![(t, a)] + run(t, es)
}

pub open spec fn actions(tr: Seq<(Reconciler, Action)>) -> Seq<Action> {
    tr.map_values(|x: (Reconciler, Action)| x.1)
}

/// The note that a commit of the stack carries forward: its metadata when it
/// is published, none otherwise.
pub open spec fn carried_note(c: MainCommit) -> Option<crate::metadata::CommitMetadata> {
    match c {
        MainCommit::Published(t) => Some(t.meta),
        MainCommit::UnTracked(_) => None,
    }
}

/// What an action says of the state `t` it leaves the reconciliation in.
pub open spec fn sound_step(t: Reconciler, a: Action) -> bool {
    let n = t.stack@.len();
    &&& t.wf()
    &&& terminal(t) <==> ends_run(a)
    &&& a matches Action::UpdateBranch { head } ==> t.pos == n && head == t.onto
    &&& a matches Action::FindRemoteTip { branch } ==> t.pos < n && t.stack@[t.pos as int] is Published
        && branch == t.stack@[t.pos as int]->Published_0.meta.remote_branch_name
    &&& a matches Action::Merge { local, .. } ==> t.pos < n && t.stack@[t.pos as int] is Published
        && local == t.stack@[t.pos as int].spec_id()
    &&& a matches Action::Reapply { onto, message_of, note, .. } ==> t.pos < n && onto == t.onto
        && message_of == t.stack@[t.pos as int].spec_id() && note == carried_note(
        t.stack@[t.pos as int],
    )
    &&& a matches Action::SaveSyncState { state } ==> t.pos < n && t.stack@[t.pos as int] is Published
        && state.main_commit_id == t.stack@[t.pos as int].spec_id() && state.main_commit_parent_id
        == t.onto && state.main_branch_name == t.branch
}

/// The first action of a run, or the one after a commit is done with, is
/// sound, leaves a state that waits on the engine or has ended, and keeps the stack, the branch and the progress made.
pub proof fn lemma_advance(s: Reconciler)
    requires
        s.pos <= s.stack@.len() <= usize::MAX,
    ensures
        ({
            let (t, a) = advance(s);
            &&& sound_step(t, a)
            &&& settled(t)
            &&& t.stack == s.stack && t.branch == s.branch && s.pos <= t.pos
            &&& !(a is Merge) && !(a is SaveSyncState) && !(a is Fail)
        }),
    decreases s.stack@.len() - s.pos,
{
    if s.pos < s.stack@.len() {
        if let MainCommit::UnTracked(id) = s.stack@[s.pos as int] {
            if s.parent == s.onto {
                lemma_advance(moved_past(s, id));
            }
        }
    }
}

/// Every reaction to a report is sound, leaves a state that waits on the
/// engine or has ended, and keeps the stack, the branch and
/// the progress made.
pub proof fn lemma_react(s: Reconciler, e: Event)
    requires
        s.wf(),
        !terminal(s),
        s.stage !is Next,
    ensures
        ({
            let (t, a) = react(s, e);
            &&& sound_step(t, a)
            &&& settled(t)
            &&& t.stack == s.stack && t.branch == s.branch && s.pos <= t.pos
        }),
{
    match s.stage {
        Stage::AwaitMerge { .. } => {
            if e == Event::Merged(MergeOutcome::UpToDate) && s.parent == s.onto {
                lemma_advance(moved_past(s, current(s).id));
            }
        },
        Stage::AwaitCommit => {
            if let Event::Committed(n) = e {
                lemma_advance(moved_past(s, n));
            }
        },
        _ => {},
    }
}

/// The state waits on the engine or has ended.
pub open spec fn settled(t: Reconciler) -> bool {
    t.stage !is Next
}

/// The steps of a run on `stack` and `branch` from position `from` on: each
/// step is sound and waits on the engine or has ended, the position never
/// goes back, and an action that ends the run is the last one.
pub open spec fn orderly(
    tr: Seq<(Reconciler, Action)>,
    stack: Vec<MainCommit>,
    branch: String,
    from: int,
) -> bool {
    &&& forall|i: int|
        0 <= i < tr.len() ==> sound_step((#[trigger] tr[i]).0, tr[i].1) && settled(tr[i].0)
            && tr[i].0.stack == stack && tr[i].0.branch == branch && from <= tr[i].0.pos
    &&& forall|i: int, j: int| 0 <= i <= j < tr.len() ==> (#[trigger] tr[i]).0.pos <= (#[trigger] tr[j]).0.pos
    &&& forall|i: int| 0 <= i < tr.len() && ends_run(#[trigger] tr[i].1) ==> i == tr.len() - 1
}

/// The elements of `seq![x] + rest` after the first are those of `rest`.
proof fn lemma_cons_at<A>(x: A, rest: Seq<A>)
    ensures
        (seq![x] + rest).len() == rest.len() + 1,
        (seq![x] + rest)[0] == x,
        forall|i: int| 0 < i <= rest.len() ==> #[trigger] (seq![x] + rest)[i] == rest[i - 1],
{
}

/// One sound step in front of an orderly run keeps it orderly.
proof fn lemma_orderly_cons(
    t: Reconciler,
    a: Action,
    rest: Seq<(Reconciler, Action)>,
    stack: Vec<MainCommit>,
    branch: String,
    from: int,
)
    requires
        sound_step(t, a),
        settled(t),
        t.stack == stack,
        t.branch == branch,
        from <= t.pos,
        orderly(rest, stack, branch, t.pos as int),
        rest.len() > 0 ==> !terminal(t),
    ensures
        orderly(seq![(t, a)] + rest, stack, branch, from),
{
    lemma_cons_at((t, a), rest);
    let tr = seq![(t, a)] + rest;
    assert forall|i: int, j: int| 0 <= i <= j < tr.len() implies (#[trigger] tr[i]).0.pos <= (
    #[trigger] tr[j]).0.pos by {
        if j > 0 {
            assert(tr[j] == rest[j - 1]);
        }
        if i > 0 {
            assert(tr[i] == rest[i - 1]);
        }
    }
}

/// Along a run every step is sound, the position never goes back, and an
/// action that ends the run is the last one.
pub proof fn lemma_run(s: Reconciler, es: Seq<Event>)
    requires
        s.wf(),
        settled(s),
    ensures
        orderly(run(s, es), s.stack, s.branch, s.pos as int),
    decreases es.len(),
{
    if es.len() > 0 && !terminal(s) {
        let (t, a) = react(s, es[0]);
        lemma_react(s, es[0]);
        lemma_run(t, es.drop_first());
        lemma_orderly_cons(t, a, run(t, es.drop_first()), s.stack, s.branch, s.pos as int);
    }
}

/// A reconciliation works through its stack oldest commit first and never
/// goes back; it merges only published commits, each with the commit at its
/// position; it ends with one action at most, the last one. The branch is
/// moved only once every commit of the stack has been reconciled, onto the
/// last reconciled commit; a conflict at position `k` halts the run there
/// with the one sync state that names that commit, the remote commit and the
/// reconciled commit below it, and the branch stays where it is. Each commit
/// made for a published commit carries its metadata forward.
pub proof fn lemma_session_order(branch: String, base: Oid, stack: Vec<MainCommit>, es: Seq<Event>)
    requires
        stack@.len() <= usize::MAX,
    ensures
        orderly(session(initial(branch, base, stack), es), stack, branch, 0),
{
    let s = initial(branch, base, stack);
    let (t, a) = advance(s);
    lemma_advance(s);
    lemma_run(t, es);
    lemma_orderly_cons(t, a, run(t, es), stack, branch, 0);
}

/// Two states with the same road ahead: the same commits from their
/// positions on, and the same parent, base of the next commit, stage and branch.
pub open spec fn same_course(a: Reconciler, b: Reconciler) -> bool {
    &&& a.stack@.skip(a.pos as int) == b.stack@.skip(b.pos as int)
    &&& a.parent == b.parent
    &&& a.onto == b.onto
    &&& a.stage == b.stage
    &&& a.branch == b.branch
    &&& a.pos <= a.stack@.len() <= usize::MAX
    &&& b.pos <= b.stack@.len() <= usize::MAX
}

proof fn lemma_same_course_at(a: Reconciler, b: Reconciler)
    requires
        same_course(a, b),
    ensures
        (a.pos < a.stack@.len()) == (b.pos < b.stack@.len()),
        a.pos < a.stack@.len() ==> a.stack@[a.pos as int] == b.stack@[b.pos as int],
{
    assert(a.stack@.skip(a.pos as int).len() == a.stack@.len() - a.pos);
    if a.pos < a.stack@.len() {
        assert(a.stack@.skip(a.pos as int)[0] == a.stack@[a.pos as int]);
        assert(b.stack@.skip(b.pos as int)[0] == b.stack@[b.pos as int]);
    }
}

proof fn lemma_moved_past_same(a: Reconciler, b: Reconciler, n: Oid)
    requires
        same_course(a, b),
        a.pos < a.stack@.len(),
    ensures
        same_course(moved_past(a, n), moved_past(b, n)),
{
    lemma_same_course_at(a, b);
    assert(a.stack@.skip(a.pos + 1) =~= a.stack@.skip(a.pos as int).drop_first());
    assert(b.stack@.skip(b.pos + 1) =~= b.stack@.skip(b.pos as int).drop_first());
}

proof fn lemma_advance_same(a: Reconciler, b: Reconciler)
    requires
        same_course(a, b),
    ensures
        advance(a).1 == advance(b).1,
        same_course(advance(a).0, advance(b).0),
    decreases a.stack@.len() - a.pos,
{
    lemma_same_course_at(a, b);
    if a.pos < a.stack@.len() {
        if let MainCommit::UnTracked(id) = a.stack@[a.pos as int] {
            if a.parent == a.onto {
                lemma_moved_past_same(a, b, id);
                lemma_advance_same(moved_past(a, id), moved_past(b, id));
            }
        }
    }
}

proof fn lemma_react_same(a: Reconciler, b: Reconciler, e: Event)
    requires
        same_course(a, b),
        a.wf(),
        b.wf(),
    ensures
        react(a, e).1 == react(b, e).1,
        same_course(react(a, e).0, react(b, e).0),
{
    lemma_same_course_at(a, b);
    match a.stage {
        Stage::AwaitMerge { .. } => {
            if e == Event::Merged(MergeOutcome::UpToDate) && a.parent == a.onto {
                lemma_moved_past_same(a, b, current(a).id);
                lemma_advance_same(moved_past(a, current(a).id), moved_past(b, current(b).id));
            }
        },
        Stage::AwaitCommit => {
            if let Event::Committed(n) = e {
                lemma_moved_past_same(a, b, n);
                lemma_advance_same(moved_past(a, n), moved_past(b, n));
            }
        },
        _ => {},
    }
}

proof fn lemma_run_same(a: Reconciler, b: Reconciler, es: Seq<Event>)
    requires
        same_course(a, b),
        a.wf(),
        b.wf(),
        settled(a),
    ensures
        actions(run(a, es)) == actions(run(b, es)),
    decreases es.len(),
{
    if es.len() > 0 && !terminal(a) {
        lemma_react_same(a, b, es[0]);
        lemma_react(a, es[0]);
        lemma_react(b, es[0]);
        lemma_run_same(react(a, es[0]).0, react(b, es[0]).0, es.drop_first());
        let ra = run(a, es);
        let rb = run(b, es);
        let ta = run(react(a, es[0]).0, es.drop_first());
        let tb = run(react(b, es[0]).0, es.drop_first());
        assert(ra == seq![react(a, es[0])] + ta);
        assert(rb == seq![react(b, es[0])] + tb);
        assert(actions(ra) =~= seq![react(a, es[0]).1] + actions(ta));
        assert(actions(rb) =~= seq![react(b, es[0]).1] + actions(tb));
    } else {
        assert(terminal(a) == terminal(b));
    }
}

/// Resuming after a conflict takes the course that a run without the
/// conflict would have taken. Let `s` wait on the merge of the commit at its
/// position and report a conflict, which saves a sync state. A reconciliation
/// rebuilt from that state (the commit that conflicted, with its metadata,
/// then the commits above it; its parent; the reconciled commit below it),
/// given the merge commit made from the resolved tree, asks the engine for
/// the same actions, now and for any later reports, as `s` itself would have
/// had the merge produced that commit cleanly.
pub proof fn lemma_resume_same_course(s: Reconciler, p: Reconciler, merge: Oid, es: Seq<Event>)
    requires
        s.wf(),
        s.stage is AwaitMerge,
        react(s, Event::Merged(MergeOutcome::Conflict)).1 matches Action::SaveSyncState { state } && {
            &&& p.stack@ == seq![MainCommit::Published(
                crate::stack::TrackedCommit { id: state.main_commit_id, meta: current(s).meta },
            )] + s.stack@.skip(s.pos + 1)
            &&& p.pos == 0
            &&& p.parent == s.parent
            &&& p.onto == state.main_commit_parent_id
            &&& p.branch == state.main_branch_name
            &&& p.stage == (Stage::AwaitMerge { remote: state.remote_commit_id })
        },
        p.stack@.len() <= usize::MAX,
    ensures
        ({
            let clean = react(s, Event::Merged(MergeOutcome::Clean(merge)));
            let resumed = react(p, Event::Merged(MergeOutcome::Clean(merge)));
            &&& clean.1 == resumed.1
            &&& actions(run(clean.0, es)) == actions(run(resumed.0, es))
        }),
{
    assert(s.stack@.skip(s.pos as int) =~= seq![s.stack@[s.pos as int]] + s.stack@.skip(s.pos + 1));
    assert(p.stack@.skip(0) =~= p.stack@);
    assert(same_course(s, p));
    assert(p.wf());
    let e = Event::Merged(MergeOutcome::Clean(merge));
    lemma_react_same(s, p, e);
    lemma_react(s, e);
    lemma_react(p, e);
    lemma_run_same(react(s, e).0, react(p, e).0, es);
}

/// Reports in which the remote side brings nothing new: every merge finds
/// the remote tip already contained in the local commit.
pub open spec fn quiet(es: Seq<Event>) -> bool {
    forall|i: int|
        0 <= i < es.len() ==> (#[trigger] es[i]) is RemoteTip || es[i] == Event::Merged(
            MergeOutcome::UpToDate,
        )
}

/// The commit that the first `pos` commits of the stack end at.
pub open spec fn top(base: Oid, stack: Seq<MainCommit>, pos: int) -> Oid {
    if pos == 0 {
        base
    } else {
        stack[pos - 1].spec_id()
    }
}

/// Every commit before the position was kept as it is.
pub open spec fn kept(s: Reconciler, base: Oid) -> bool {
    s.parent == s.onto && s.onto == top(base, s.stack@, s.pos as int)
}

proof fn lemma_advance_kept(s: Reconciler, base: Oid)
    requires
        s.pos <= s.stack@.len() <= usize::MAX,
        kept(s, base),
    ensures
        !(advance(s).1 is Reapply),
        kept(advance(s).0, base),
    decreases s.stack@.len() - s.pos,
{
    if s.pos < s.stack@.len() {
        if let MainCommit::UnTracked(id) = s.stack@[s.pos as int] {
            lemma_advance_kept(moved_past(s, id), base);
        }
    }
}

proof fn lemma_react_kept(s: Reconciler, e: Event, base: Oid)
    requires
        s.wf(),
        !terminal(s),
        kept(s, base),
        e is RemoteTip || e == Event::Merged(MergeOutcome::UpToDate),
    ensures
        !(react(s, e).1 is Reapply),
        kept(react(s, e).0, base),
{
    if s.stage is AwaitMerge && e == Event::Merged(MergeOutcome::UpToDate) {
        lemma_advance_kept(moved_past(s, current(s).id), base);
    }
}

proof fn lemma_run_kept(s: Reconciler, es: Seq<Event>, base: Oid)
    requires
        s.wf(),
        settled(s),
        kept(s, base),
        quiet(es),
    ensures
        forall|i: int|
            0 <= i < run(s, es).len() ==> !((#[trigger] run(s, es)[i]).1 is Reapply) && kept(
                run(s, es)[i].0,
                base,
            ),
    decreases es.len(),
{
    if es.len() > 0 && !terminal(s) {
        let t = react(s, es[0]).0;
        lemma_react_kept(s, es[0], base);
        lemma_react(s, es[0]);
        assert(quiet(es.drop_first())) by {
            assert forall|i: int| 0 <= i < es.drop_first().len() implies (
            #[trigger] es.drop_first()[i]) is RemoteTip || es.drop_first()[i] == Event::Merged(
                MergeOutcome::UpToDate,
            ) by {
                assert(es.drop_first()[i] == es[i + 1]);
            }
        }
        lemma_run_kept(t, es.drop_first(), base);
        lemma_cons_at(react(s, es[0]), run(t, es.drop_first()));
    }
}

/// Reconciling again when the remote side brings nothing new changes
/// nothing: when every merge finds the remote tip already contained, no
/// commit is made and the branch, if moved at all, is moved to the commit it
/// already points at, the last commit of the stack.
pub proof fn lemma_quiet_session(branch: String, base: Oid, stack: Vec<MainCommit>, es: Seq<Event>)
    requires
        stack@.len() <= usize::MAX,
        quiet(es),
    ensures
        ({
            let tr = session(initial(branch, base, stack), es);
            &&& forall|i: int| 0 <= i < tr.len() ==> !((#[trigger] tr[i]).1 is Reapply)
            &&& forall|i: int|
                0 <= i < tr.len() ==> ((#[trigger] tr[i]).1 matches Action::UpdateBranch { head }
                    ==> head == top(base, stack@, stack@.len() as int))
        }),
{
    let s = initial(branch, base, stack);
    let (t, a) = advance(s);
    lemma_advance_kept(s, base);
    lemma_advance(s);
    lemma_run_kept(t, es, base);
    lemma_run(t, es);
    lemma_session_order(branch, base, stack, es);
    lemma_cons_at((t, a), run(t, es));
}

} // verus!
