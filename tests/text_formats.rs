use unibranch::error::RepoError;
use unibranch::metadata::{CommitMetadata, MetadataError};
use unibranch::oid::Oid;
use unibranch::refs::{branch_name_for, branch_of_ref, local_ref, remote_branch, remote_tracking_ref};

fn oid(b: u8) -> Oid {
    Oid { bytes: [b; 20] }
}

#[test]
fn oid_prints_forty_lower_case_digits() {
    let mut bytes = [0u8; 20];
    for (i, b) in bytes.iter_mut().enumerate() {
        *b = (i as u8) * 13;
    }
    let id = Oid { bytes };
    assert_eq!(
        id.to_hex(),
        "000d1a2734414e5b6875828f9ca9b6c3d0ddeaf7"
    );
    assert_eq!(oid(0xab).to_hex(), "ab".repeat(20));
}

#[test]
fn oid_reads_back_its_printable_form() {
    let id = Oid { bytes: [0, 1, 2, 3, 4, 5, 6, 7, 8, 9, 250, 251, 252, 253, 254, 255, 16, 32, 64, 128] };
    let back = Oid::from_hex(&id.to_hex()).unwrap();
    assert_eq!(back.bytes, id.bytes);
}

#[test]
fn oid_reads_either_case_and_nothing_else() {
    let upper = "AB".repeat(20);
    assert_eq!(Oid::from_hex(&upper).unwrap().bytes, [0xab; 20]);
    assert!(Oid::from_hex(&"ab".repeat(19)).is_none());
    assert!(Oid::from_hex(&format!("{}a", "ab".repeat(20))).is_none());
    assert!(Oid::from_hex(&format!("{}zz", "ab".repeat(19))).is_none());
    assert!(Oid::from_hex("").is_none());
}

#[test]
fn oid_from_bytes_needs_twenty() {
    assert_eq!(Oid::from_bytes(&[7u8; 20]).unwrap().bytes, [7u8; 20]);
    assert!(Oid::from_bytes(&[7u8; 19]).is_none());
    assert!(oid(3).eq_id(&oid(3)));
    assert!(!oid(3).eq_id(&oid(4)));
}

#[test]
fn note_of_pinned_metadata() {
    let m = CommitMetadata::new("commit2".to_string(), Some(oid(0x1f)));
    assert_eq!(
        m.to_note(),
        format!("remote-branch: commit2\nremote-commit: {}\n", "1f".repeat(20))
    );
}

#[test]
fn note_of_unpinned_metadata() {
    let m = CommitMetadata::new("pr-commit".to_string(), None);
    assert_eq!(m.to_note(), "remote-branch: pr-commit\n");
}

#[test]
fn note_reads_back() {
    for m in [
        CommitMetadata::new("feature-1".to_string(), None),
        CommitMetadata::new("feature-1".to_string(), Some(oid(0xc4))),
        CommitMetadata::new(String::new(), None),
    ] {
        let back = CommitMetadata::parse(&m.to_note()).unwrap();
        assert_eq!(back.remote_branch_name, m.remote_branch_name);
        assert_eq!(back.remote_commit.map(|c| c.bytes), m.remote_commit.map(|c| c.bytes));
    }
}

#[test]
fn note_that_is_not_metadata() {
    assert_eq!(
        CommitMetadata::parse("hello\n").unwrap_err(),
        MetadataError::MissingRemoteBranch
    );
    assert_eq!(CommitMetadata::parse("").unwrap_err(), MetadataError::MissingRemoteBranch);
    assert_eq!(
        CommitMetadata::parse("remote-branch: x").unwrap_err(),
        MetadataError::Malformed
    );
    assert_eq!(
        CommitMetadata::parse("remote-branch: x\nremote-commit: 12\n").unwrap_err(),
        MetadataError::Malformed
    );
    let upper = format!("remote-branch: x\nremote-commit: {}\n", "AB".repeat(20));
    assert_eq!(CommitMetadata::parse(&upper).unwrap_err(), MetadataError::Malformed);
    let trailing = format!("remote-branch: x\nremote-commit: {}\nmore", "ab".repeat(20));
    assert_eq!(CommitMetadata::parse(&trailing).unwrap_err(), MetadataError::Malformed);
}

#[test]
fn branch_names_from_messages() {
    assert_eq!(branch_name_for("commit2\n"), "commit2");
    assert_eq!(branch_name_for("pr commit\n"), "pr-commit");
    assert_eq!(branch_name_for("feature 1"), "feature-1");
    assert_eq!(branch_name_for("Fix: a bug\n\nLonger text"), "Fix--a-bug");
    assert_eq!(branch_name_for(""), "");
}

#[test]
fn reference_names() {
    assert_eq!(local_ref("master"), "refs/heads/master");
    assert_eq!(remote_tracking_ref("master"), "refs/remotes/origin/master");
    assert_eq!(remote_branch("pr-commit"), "origin/pr-commit");
    assert_eq!(branch_of_ref("refs/heads/main").unwrap(), "main");
    assert!(branch_of_ref("refs/tags/v1").is_none());
    assert!(branch_of_ref("HEAD").is_none());
}

#[test]
fn conflict_message_names_both_commits() {
    let e = RepoError::MergeConflict { local: oid(0x11), remote: oid(0x22) };
    assert_eq!(
        e.message(),
        format!(
            "Unable to merge local commit ({}) with commit from remote ({})\nOnce all the conflicts has been resolved, run 'ubr sync --continue'\n",
            "11".repeat(20),
            "22".repeat(20)
        )
    );
}

#[test]
fn error_messages() {
    assert_eq!(RepoError::NotABranch.message(), "Detached HEAD");
    assert_eq!(
        RepoError::AlreadyPushed(oid(0x0a)).message(),
        format!("Commit {} is already pushed to the remote", "0a".repeat(20))
    );
    assert_eq!(
        RepoError::RemoteBranchMissing("gone".to_string()).message(),
        "Remote branch origin/gone is missing and no remote commit is recorded"
    );
    assert_eq!(RepoError::NoSyncInProgress.message(), "No sync in progress");
    assert_eq!(
        RepoError::BranchExists("pr-commit".to_string()).message(),
        "Remote branch origin/pr-commit already exists"
    );
    assert_eq!(
        RepoError::CherryPickConflict(oid(1)).message(),
        format!("This commit cannot be cherry-picked on {}", "01".repeat(20))
    );
}

#[test]
fn message_with_metadata_below() {
    let m = CommitMetadata::new("commit2".to_string(), None);
    assert_eq!(m.message_with("commit2"), "commit2\nmeta:\nremote-branch: commit2\n");
}
