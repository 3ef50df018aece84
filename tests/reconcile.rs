use unibranch::error::RepoError;
use unibranch::metadata::CommitMetadata;
use unibranch::oid::Oid;
use unibranch::stack::{MainCommit, TrackedCommit};
use unibranch::sync::{Action, Event, MergeOutcome, Reconciler, SyncError, SyncState};

fn oid(b: u8) -> Oid {
    Oid { bytes: [b; 20] }
}

fn published(id: u8, branch: &str) -> MainCommit {
    MainCommit::Published(TrackedCommit {
        id: oid(id),
        meta: CommitMetadata::new(branch.to_string(), None),
    })
}

fn head_of(a: &Action) -> Oid {
    match a {
        Action::UpdateBranch { head } => *head,
        other => panic!("expected a branch update, got {:?}", other),
    }
}

fn merged(a: &Action) -> (Oid, Oid) {
    match a {
        Action::Merge { local, remote } => (*local, *remote),
        other => panic!("expected a merge, got {:?}", other),
    }
}

fn reapplied(a: &Action) -> (Oid, Oid, Oid, Oid, Option<String>) {
    match a {
        Action::Reapply { from, to, onto, message_of, note } => (
            *from,
            *to,
            *onto,
            *message_of,
            note.as_ref().map(|m| m.remote_branch_name.clone()),
        ),
        other => panic!("expected a reapply, got {:?}", other),
    }
}

fn find_tip(a: &Action) -> String {
    match a {
        Action::FindRemoteTip { branch } => branch.clone(),
        other => panic!("expected a tip lookup, got {:?}", other),
    }
}

#[test]
fn empty_stack_moves_branch_to_base() {
    let mut r = Reconciler::new("master".to_string(), oid(1), vec![]);
    let a = r.start();
    assert!(head_of(&a).eq_id(&oid(1)));
}

#[test]
fn unpublished_commits_in_place_are_kept() {
    let mut r = Reconciler::new(
        "master".to_string(),
        oid(1),
        vec![MainCommit::UnTracked(oid(2)), MainCommit::UnTracked(oid(3))],
    );
    let a = r.start();
    assert!(head_of(&a).eq_id(&oid(3)));
}

// One published commit; the remote branch got an independent change. The
// merge is made, its changes go on top of the base with the commit's message
// and note, and the branch moves to the new commit. Nothing is asked of the
// remote branch itself.
#[test]
fn remote_change_folded_into_local_commit() {
    let mut r = Reconciler::new("master".to_string(), oid(1), vec![published(2, "pr-commit")]);
    let a = r.start();
    assert_eq!(find_tip(&a), "pr-commit");
    let a = r.handle(Event::RemoteTip(Some(oid(9))));
    let (local, remote) = merged(&a);
    assert!(local.eq_id(&oid(2)) && remote.eq_id(&oid(9)));
    let a = r.handle(Event::Merged(MergeOutcome::Clean(oid(10))));
    let (from, to, onto, message_of, note) = reapplied(&a);
    assert!(from.eq_id(&oid(1)) && to.eq_id(&oid(10)) && onto.eq_id(&oid(1)));
    assert!(message_of.eq_id(&oid(2)));
    assert_eq!(note.as_deref(), Some("pr-commit"));
    let a = r.handle(Event::Committed(oid(11)));
    assert!(head_of(&a).eq_id(&oid(11)));
}

// Three published commits reconciled oldest first, each on top of the one
// reconciled before it; the branch moves once, at the end.
#[test]
fn stack_reconciled_oldest_first() {
    let mut r = Reconciler::new(
        "master".to_string(),
        oid(1),
        vec![published(2, "a"), published(3, "b"), published(4, "c")],
    );
    let mut a = r.start();
    let mut onto = oid(1);
    let mut parent = oid(1);
    for (i, (id, branch)) in [(2u8, "a"), (3u8, "b"), (4u8, "c")].iter().enumerate() {
        assert_eq!(find_tip(&a), *branch);
        a = r.handle(Event::RemoteTip(Some(oid(20 + i as u8))));
        let (local, _) = merged(&a);
        assert!(local.eq_id(&oid(*id)));
        a = r.handle(Event::Merged(MergeOutcome::Clean(oid(30 + i as u8))));
        let (from, to, o, _, _) = reapplied(&a);
        assert!(from.eq_id(&parent) && to.eq_id(&oid(30 + i as u8)) && o.eq_id(&onto));
        a = r.handle(Event::Committed(oid(40 + i as u8)));
        onto = oid(40 + i as u8);
        parent = oid(*id);
    }
    assert!(head_of(&a).eq_id(&oid(42)));
}

// A conflict on the second of three commits halts the run there with one
// sync state, and the branch is never moved.
#[test]
fn conflict_halts_at_first_conflicting_commit() {
    let mut r = Reconciler::new(
        "master".to_string(),
        oid(1),
        vec![published(2, "a"), published(3, "b"), published(4, "c")],
    );
    r.start();
    r.handle(Event::RemoteTip(Some(oid(20))));
    r.handle(Event::Merged(MergeOutcome::Clean(oid(30))));
    r.handle(Event::Committed(oid(40)));
    r.handle(Event::RemoteTip(Some(oid(21))));
    let a = r.handle(Event::Merged(MergeOutcome::Conflict));
    match a {
        Action::SaveSyncState { state } => {
            assert!(state.main_commit_id.eq_id(&oid(3)));
            assert!(state.remote_commit_id.eq_id(&oid(21)));
            assert!(state.main_commit_parent_id.eq_id(&oid(40)));
            assert_eq!(state.main_branch_name, "master");
            let e = RepoError::conflict(&state);
            let text = e.message();
            assert!(text.contains(&oid(3).to_hex()));
            assert!(text.contains(&oid(21).to_hex()));
            assert!(text.contains("run 'ubr sync --continue'"));
        }
        other => panic!("expected a saved sync state, got {:?}", other),
    }
}

// Resuming after the conflict asks for what the run would have asked had the
// merge been clean.
#[test]
fn resume_continues_like_a_clean_run() {
    let stack = || vec![published(2, "a"), published(3, "b"), published(4, "c")];
    let run_to_second_merge = |r: &mut Reconciler| {
        r.start();
        r.handle(Event::RemoteTip(Some(oid(20))));
        r.handle(Event::Merged(MergeOutcome::Clean(oid(30))));
        r.handle(Event::Committed(oid(40)));
        r.handle(Event::RemoteTip(Some(oid(21))));
    };
    let mut clean = Reconciler::new("master".to_string(), oid(1), stack());
    run_to_second_merge(&mut clean);
    let mut conflicted = Reconciler::new("master".to_string(), oid(1), stack());
    run_to_second_merge(&mut conflicted);
    let state = match conflicted.handle(Event::Merged(MergeOutcome::Conflict)) {
        Action::SaveSyncState { state } => state,
        other => panic!("expected a saved sync state, got {:?}", other),
    };

    let a1 = clean.handle(Event::Merged(MergeOutcome::Clean(oid(31))));
    let (mut resumed, a2) = Reconciler::resume(
        state,
        CommitMetadata::new("b".to_string(), None),
        oid(2),
        vec![published(4, "c")],
        oid(31),
    );
    let r1 = reapplied(&a1);
    let r2 = reapplied(&a2);
    assert!(r1.0.eq_id(&r2.0) && r1.1.eq_id(&r2.1) && r1.2.eq_id(&r2.2) && r1.3.eq_id(&r2.3));
    assert_eq!(r1.4, r2.4);
    let mut last = None;
    for e in [
        Event::Committed(oid(41)),
        Event::RemoteTip(Some(oid(22))),
        Event::Merged(MergeOutcome::Clean(oid(32))),
        Event::Committed(oid(42)),
    ] {
        let x = clean.handle(e);
        let y = resumed.handle(e);
        assert_eq!(format!("{:?}", x), format!("{:?}", y));
        last = Some(y);
    }
    assert!(head_of(&last.unwrap()).eq_id(&oid(42)));
}

// A second run with nothing new on the remote makes no commit and leaves
// the branch where it is.
#[test]
fn second_sync_without_remote_changes_changes_nothing() {
    let mut r = Reconciler::new(
        "master".to_string(),
        oid(1),
        vec![published(2, "a"), MainCommit::UnTracked(oid(3)), published(4, "c")],
    );
    let mut a = r.start();
    assert_eq!(find_tip(&a), "a");
    a = r.handle(Event::RemoteTip(Some(oid(20))));
    merged(&a);
    a = r.handle(Event::Merged(MergeOutcome::UpToDate));
    assert_eq!(find_tip(&a), "c");
    a = r.handle(Event::RemoteTip(Some(oid(22))));
    merged(&a);
    a = r.handle(Event::Merged(MergeOutcome::UpToDate));
    assert!(head_of(&a).eq_id(&oid(4)));
}

#[test]
fn moved_unpublished_commit_is_reapplied_without_note() {
    let mut r = Reconciler::new(
        "master".to_string(),
        oid(1),
        vec![published(2, "a"), MainCommit::UnTracked(oid(3))],
    );
    r.start();
    r.handle(Event::RemoteTip(Some(oid(20))));
    r.handle(Event::Merged(MergeOutcome::Clean(oid(30))));
    let a = r.handle(Event::Committed(oid(40)));
    let (from, to, onto, message_of, note) = reapplied(&a);
    assert!(from.eq_id(&oid(2)) && to.eq_id(&oid(3)) && onto.eq_id(&oid(40)));
    assert!(message_of.eq_id(&oid(3)));
    assert_eq!(note, None);
    let a = r.handle(Event::Committed(oid(41)));
    assert!(head_of(&a).eq_id(&oid(41)));
}

#[test]
fn missing_remote_branch_uses_pinned_commit() {
    let pinned = MainCommit::Published(TrackedCommit {
        id: oid(2),
        meta: CommitMetadata::new("gone".to_string(), Some(oid(8))),
    });
    let mut r = Reconciler::new("master".to_string(), oid(1), vec![pinned]);
    r.start();
    let a = r.handle(Event::RemoteTip(None));
    let (local, remote) = merged(&a);
    assert!(local.eq_id(&oid(2)) && remote.eq_id(&oid(8)));
}

#[test]
fn missing_remote_branch_without_pin_fails() {
    let mut r = Reconciler::new("master".to_string(), oid(1), vec![published(2, "gone")]);
    r.start();
    match r.handle(Event::RemoteTip(None)) {
        Action::Fail { error: SyncError::RemoteBranchMissing(b) } => {
            assert_eq!(b, "gone");
            let e = RepoError::from_sync(SyncError::RemoteBranchMissing(b));
            assert!(matches!(e, RepoError::RemoteBranchMissing(_)));
        }
        other => panic!("expected a failure, got {:?}", other),
    }
}

#[test]
fn empty_merge_fails() {
    let mut r = Reconciler::new("master".to_string(), oid(1), vec![published(2, "a")]);
    r.start();
    r.handle(Event::RemoteTip(Some(oid(9))));
    assert!(matches!(
        r.handle(Event::Merged(MergeOutcome::Empty)),
        Action::Fail { error: SyncError::EmptyMerge }
    ));
}

#[test]
fn report_out_of_turn_fails() {
    let mut r = Reconciler::new("master".to_string(), oid(1), vec![published(2, "a")]);
    r.start();
    assert!(matches!(
        r.handle(Event::Committed(oid(5))),
        Action::Fail { error: SyncError::UnexpectedEvent }
    ));
}

#[test]
fn sync_state_fields() {
    let s = SyncState {
        main_commit_id: oid(1),
        remote_commit_id: oid(2),
        main_commit_parent_id: oid(3),
        main_branch_name: "master".to_string(),
    };
    assert!(matches!(RepoError::conflict(&s), RepoError::MergeConflict { .. }));
}

#[test]
fn remote_source_prefers_pinned_commit() {
    let t = TrackedCommit { id: oid(2), meta: CommitMetadata::new("b".to_string(), Some(oid(8))) };
    assert!(t.remote_source(Some(oid(9))).unwrap().eq_id(&oid(8)));
    assert!(t.remote_source(None).unwrap().eq_id(&oid(8)));
    let u = TrackedCommit { id: oid(2), meta: CommitMetadata::new("b".to_string(), None) };
    assert!(u.remote_source(Some(oid(9))).unwrap().eq_id(&oid(9)));
    assert!(u.remote_source(None).is_none());
}

#[test]
fn pinned_commit_wins_over_existing_branch() {
    let pinned = MainCommit::Published(TrackedCommit {
        id: oid(2),
        meta: CommitMetadata::new("b".to_string(), Some(oid(8))),
    });
    let mut r = Reconciler::new("master".to_string(), oid(1), vec![pinned]);
    r.start();
    let a = r.handle(Event::RemoteTip(Some(oid(9))));
    let (local, remote) = merged(&a);
    assert!(local.eq_id(&oid(2)) && remote.eq_id(&oid(8)));
}
