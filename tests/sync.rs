use tron::{
    classify, file_hash, plan_transfer, sync_pair, Direction, FilePair, FileState, SyncStatus,
    Transfer,
};

fn present(text: &str, t: i128) -> FileState {
    FileState::present(text.as_bytes().to_vec(), t)
}

fn pair(repo: FileState, system: FileState) -> FilePair {
    FilePair { repo, system }
}

fn content(f: &FileState) -> Vec<u8> {
    f.content.clone().unwrap()
}

#[test]
fn hash_is_hex_sha256() {
    let h = file_hash(&Some(b"abc".to_vec())).unwrap();
    assert_eq!(h, "ba7816bf8f01cfea414140de5dae2223b00361a396177a9cb410ff61f20015ad");
    let e = file_hash(&Some(Vec::new())).unwrap();
    assert_eq!(e, "e3b0c44298fc1c149afbf4c8996fb92427ae41e4649b934ca495991b7852b855");
    let long = file_hash(&Some(vec![7u8; 1000])).unwrap();
    assert_eq!(long.len(), 64);
    assert!(long.chars().all(|c| c.is_ascii_hexdigit() && !c.is_ascii_uppercase()));
    assert_eq!(file_hash(&None), None);
}

#[test]
fn identical_content_is_synced_whatever_the_times() {
    assert_eq!(classify(&present("x", 1), &present("x", 9)), SyncStatus::Synced);
    assert_eq!(classify(&present("x", 9), &present("x", 1)), SyncStatus::Synced);
    assert_eq!(classify(&present("", 5), &present("", 5)), SyncStatus::Synced);
}

#[test]
fn missing_sides_are_classified() {
    let m = FileState::missing();
    assert_eq!(classify(&m, &present("a", 1)), SyncStatus::RepoMissing);
    assert_eq!(classify(&present("a", 1), &FileState::missing()), SyncStatus::SystemMissing);
    assert_eq!(classify(&FileState::missing(), &FileState::missing()), SyncStatus::BothMissing);
}

#[test]
fn differing_content_goes_by_time() {
    assert_eq!(classify(&present("a", 2), &present("b", 1)), SyncStatus::RepoNewer);
    assert_eq!(classify(&present("a", 1), &present("b", 2)), SyncStatus::SystemNewer);
    assert_eq!(classify(&present("a", 3), &present("b", 3)), SyncStatus::Conflict);
}

#[test]
fn unreadable_time_is_a_conflict() {
    let mut repo = present("a", 2);
    repo.modified = None;
    assert_eq!(classify(&repo, &present("b", 1)), SyncStatus::Conflict);
}

#[test]
fn deploy_without_force_skips_newer_system() {
    let mut p = pair(present("old", 1), present("new", 2));
    let t = sync_pair(&mut p, Direction::Deploy, false, false, 10);
    assert_eq!(t, Transfer::DestinationNewer);
    assert_eq!(t.note(Direction::Deploy), "system newer, use --force to overwrite");
    assert_eq!(content(&p.system), b"new".to_vec());
    assert_eq!(p.system.modified, Some(2));
    assert_eq!(content(&p.repo), b"old".to_vec());
}

#[test]
fn forced_deploy_overwrites_newer_system() {
    let mut p = pair(present("old", 1), present("new", 2));
    let t = sync_pair(&mut p, Direction::Deploy, false, true, 10);
    assert_eq!(t, Transfer::Proceed);
    assert_eq!(content(&p.system), b"old".to_vec());
    assert_eq!(p.system.modified, Some(10));
    assert_eq!(classify(&p.repo, &p.system), SyncStatus::Synced);
}

#[test]
fn dry_run_changes_nothing() {
    for force in [false, true] {
        for dir in [Direction::Deploy, Direction::Backup] {
            let mut p = pair(present("a", 2), present("b", 1));
            let t = sync_pair(&mut p, dir, true, force, 10);
            assert!(t != Transfer::Proceed);
            assert_eq!(content(&p.repo), b"a".to_vec());
            assert_eq!(content(&p.system), b"b".to_vec());
            assert_eq!(p.repo.modified, Some(2));
            assert_eq!(p.system.modified, Some(1));
        }
    }
    let mut p = pair(present("a", 2), FileState::missing());
    assert_eq!(sync_pair(&mut p, Direction::Deploy, true, false, 10), Transfer::DryRun);
    assert!(!p.system.exists);
}

#[test]
fn deploy_then_classify_is_synced() {
    let mut p = pair(present("a", 1), present("b", 1));
    assert_eq!(sync_pair(&mut p, Direction::Deploy, false, false, 7), Transfer::Proceed);
    assert_eq!(classify(&p.repo, &p.system), SyncStatus::Synced);
    let mut q = pair(present("a", 1), FileState::missing());
    assert_eq!(sync_pair(&mut q, Direction::Deploy, false, false, 7), Transfer::Proceed);
    assert_eq!(classify(&q.repo, &q.system), SyncStatus::Synced);
    let mut b = pair(present("a", 1), present("b", 5));
    assert_eq!(sync_pair(&mut b, Direction::Backup, false, false, 7), Transfer::Proceed);
    assert_eq!(content(&b.repo), b"b".to_vec());
    assert_eq!(classify(&b.repo, &b.system), SyncStatus::Synced);
}

#[test]
fn scenario_repo_newer_deploy_then_synced() {
    let mut p = pair(present("a\nb\nc\n", 20), present("a\nx\nc\n", 10));
    assert_eq!(classify(&p.repo, &p.system), SyncStatus::RepoNewer);
    let t = sync_pair(&mut p, Direction::Deploy, false, false, 30);
    assert_eq!(t, Transfer::Proceed);
    assert_eq!(content(&p.system), b"a\nb\nc\n".to_vec());
    assert_eq!(classify(&p.repo, &p.system), SyncStatus::Synced);
}

#[test]
fn scenario_repo_missing_deploy_skips_backup_copies() {
    let mut p = pair(FileState::missing(), present("sys", 4));
    let t = sync_pair(&mut p, Direction::Deploy, false, false, 9);
    assert_eq!(t, Transfer::SourceMissing);
    assert_eq!(t.note(Direction::Deploy), "repo file missing");
    assert_eq!(content(&p.system), b"sys".to_vec());
    assert!(!p.repo.exists);
    let b = sync_pair(&mut p, Direction::Backup, false, false, 9);
    assert_eq!(b, Transfer::Proceed);
    assert!(p.repo.exists);
    assert_eq!(content(&p.repo), b"sys".to_vec());
    assert_eq!(classify(&p.repo, &p.system), SyncStatus::Synced);
}

const DEPLOY: Direction = Direction::Deploy;
const BACKUP: Direction = Direction::Backup;

#[test]
fn decision_table() {
    assert_eq!(plan_transfer(DEPLOY, SyncStatus::Synced, false, true), Transfer::AlreadySynced);
    assert_eq!(plan_transfer(DEPLOY, SyncStatus::BothMissing, false, true), Transfer::SourceMissing);
    assert_eq!(plan_transfer(BACKUP, SyncStatus::SystemMissing, false, true), Transfer::SourceMissing);
    assert_eq!(plan_transfer(BACKUP, SyncStatus::RepoMissing, false, false), Transfer::Proceed);
    assert_eq!(plan_transfer(BACKUP, SyncStatus::RepoNewer, false, false), Transfer::DestinationNewer);
    assert_eq!(plan_transfer(BACKUP, SyncStatus::RepoNewer, true, true), Transfer::DryRun);
    assert_eq!(plan_transfer(DEPLOY, SyncStatus::Conflict, false, false), Transfer::Proceed);
    assert_eq!(plan_transfer(DEPLOY, SyncStatus::SystemMissing, true, false), Transfer::DryRun);
    assert_eq!(Transfer::SourceMissing.note(BACKUP), "system file missing");
    assert_eq!(Transfer::AlreadySynced.note(DEPLOY), "already synced");
}

#[test]
fn status_labels() {
    assert_eq!(SyncStatus::Synced.label(), "✓ synced");
    assert_eq!(SyncStatus::Conflict.label(), "⚡ conflict");
    assert_eq!(SyncStatus::BothMissing.label(), "✗ both missing");
}

#[test]
fn unreadable_copies_are_never_synced() {
    let unreadable = |t: i128| FileState { exists: true, content: None, modified: Some(t) };
    assert_eq!(classify(&unreadable(5), &unreadable(5)), SyncStatus::Conflict);
    assert_eq!(classify(&unreadable(6), &unreadable(5)), SyncStatus::RepoNewer);
    assert_eq!(classify(&unreadable(1), &present("x", 5)), SyncStatus::SystemNewer);
    assert_eq!(classify(&present("x", 5), &unreadable(5)), SyncStatus::Conflict);
}
