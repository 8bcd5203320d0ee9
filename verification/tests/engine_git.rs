use gist_sync::engine::{
    init_new_gist, push_changes, record_payload, resolve_credential, run_upload, ChainState,
};
use gist_sync::errors::UploadError;
use gist_sync::model::FilePayload;

fn payload(name: &str, content: &str) -> FilePayload {
    FilePayload { name: name.to_string(), content: content.as_bytes().to_vec() }
}

#[test]
fn engine_records_chained_commits() {
    let dir = tempfile::TempDir::new().unwrap();
    let ws = dir.path().to_str().unwrap().to_string();
    let repo = init_new_gist(&ws).unwrap();
    let s0 = record_payload(&repo, ChainState::NoHistory, &payload("a.txt", "hi")).unwrap();
    record_payload(&repo, s0, &payload("b.txt", "bye")).unwrap();

    let head = repo.head().unwrap().peel_to_commit().unwrap();
    assert_eq!(head.message().unwrap(), "Add b.txt");
    assert_eq!(head.parent_count(), 1);
    let parent = head.parent(0).unwrap();
    assert_eq!(parent.message().unwrap(), "Initial commit: a.txt");
    assert_eq!(parent.parent_count(), 0);

    // The tip's tree snapshot captures all files staged so far.
    let tree = head.tree().unwrap();
    let a = tree.get_name("a.txt").unwrap();
    let b = tree.get_name("b.txt").unwrap();
    assert_eq!(repo.find_blob(a.id()).unwrap().content(), b"hi");
    assert_eq!(repo.find_blob(b.id()).unwrap().content(), b"bye");
    // The root commit's snapshot holds only the first file.
    let parent_tree = parent.tree().unwrap();
    assert!(parent_tree.get_name("a.txt").is_some());
    assert!(parent_tree.get_name("b.txt").is_none());
}

#[test]
fn engine_collision_last_write_wins() {
    let dir = tempfile::TempDir::new().unwrap();
    let ws = dir.path().to_str().unwrap().to_string();
    let repo = init_new_gist(&ws).unwrap();
    let s0 = record_payload(&repo, ChainState::NoHistory, &payload("a.txt", "one")).unwrap();
    record_payload(&repo, s0, &payload("a.txt", "two")).unwrap();

    let head = repo.head().unwrap().peel_to_commit().unwrap();
    assert_eq!(head.message().unwrap(), "Add a.txt");
    assert_eq!(head.parent(0).unwrap().message().unwrap(), "Initial commit: a.txt");
    let tree = head.tree().unwrap();
    let a = tree.get_name("a.txt").unwrap();
    assert_eq!(repo.find_blob(a.id()).unwrap().content(), b"two");
}

#[test]
fn engine_pushes_and_rejects_non_fast_forward() {
    let bare_dir = tempfile::TempDir::new().unwrap();
    git2::Repository::init_bare(bare_dir.path()).unwrap();
    let bare_url = bare_dir.path().to_str().unwrap().to_string();
    let cred = resolve_credential(None);

    let ws1 = tempfile::TempDir::new().unwrap();
    let repo1 = init_new_gist(&ws1.path().to_str().unwrap().to_string()).unwrap();
    repo1.remote_set_url("origin", &bare_url).unwrap();
    record_payload(&repo1, ChainState::NoHistory, &payload("a.txt", "one")).unwrap();
    assert!(push_changes(&repo1, &cred).is_ok());

    let bare = git2::Repository::open(bare_dir.path()).unwrap();
    let tip = bare.find_reference("refs/heads/master").unwrap().peel_to_commit().unwrap();
    assert_eq!(tip.message().unwrap(), "Initial commit: a.txt");

    // A competing, unrelated root chain must be rejected as non-fast-forward
    // and the remote's recorded tip must be unchanged.
    let ws2 = tempfile::TempDir::new().unwrap();
    let repo2 = init_new_gist(&ws2.path().to_str().unwrap().to_string()).unwrap();
    repo2.remote_set_url("origin", &bare_url).unwrap();
    record_payload(&repo2, ChainState::NoHistory, &payload("z.txt", "zzz")).unwrap();
    let r = push_changes(&repo2, &cred);
    assert_eq!(r, Err(UploadError::NonFastForward));
    let tip_after = bare.find_reference("refs/heads/master").unwrap().peel_to_commit().unwrap();
    assert_eq!(tip_after.id(), tip.id());
}

#[test]
fn engine_empty_upload_succeeds_without_push() {
    // No commit and no push happen for an empty payload sequence, so the run
    // succeeds although the configured remote is not reachable at all.
    let cred = resolve_credential(None);
    let r = run_upload(&None, &cred, &Vec::new());
    assert!(r.is_ok());
}
