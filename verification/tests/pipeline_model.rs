use gist_sync::errors::UploadError;
use gist_sync::model::FilePayload;
use gist_sync::pipeline::run_pipeline;
use gist_sync::remote::{push_to_remote, resolve_repository, RemoteState, Transport};
use gist_sync::sequencer::{apply_payloads, latest_index_for, LocalRepo};

fn payload(name: &str, content: &str) -> FilePayload {
    FilePayload { name: name.to_string(), content: content.as_bytes().to_vec() }
}

#[test]
fn fresh_target_two_files() {
    // Brand-new target: root commit "Initial commit: a.txt", then "Add b.txt";
    // the push succeeds and the remote tip is the second commit.
    let mut remote = RemoteState::absent();
    let payloads = vec![payload("a.txt", "hi"), payload("b.txt", "bye")];
    let r = run_pipeline(&mut remote, false, Transport::Granted, Transport::Granted, &payloads);
    assert!(r.is_ok());
    assert!(remote.exists);
    assert_eq!(remote.commits.len(), 2);
    assert_eq!(remote.commits[0].message, "Initial commit: a.txt");
    assert_eq!(remote.commits[0].name, "a.txt");
    assert_eq!(remote.commits[0].content, b"hi".to_vec());
    assert_eq!(remote.commits[1].message, "Add b.txt");
    assert_eq!(remote.commits[1].name, "b.txt");
    assert_eq!(remote.commits[1].content, b"bye".to_vec());
    // The tip's tree snapshot holds both files.
    assert_eq!(latest_index_for(&remote.commits, 2, &"a.txt".to_string()), Some(0));
    assert_eq!(latest_index_for(&remote.commits, 2, &"b.txt".to_string()), Some(1));
    // The root commit's tree snapshot holds only a.txt.
    assert_eq!(latest_index_for(&remote.commits, 1, &"b.txt".to_string()), None);
}

#[test]
fn resumed_target_parents_on_prior_tip() {
    // Re-running on a previously-pushed remote parents the new chain on the
    // prior tip and never creates a second root commit.
    let mut remote = RemoteState::absent();
    let first = vec![payload("a.txt", "one")];
    assert!(run_pipeline(&mut remote, false, Transport::Granted, Transport::Granted, &first)
        .is_ok());
    assert_eq!(remote.commits.len(), 1);
    assert_eq!(remote.commits[0].message, "Initial commit: a.txt");

    let second = vec![payload("c.txt", "three"), payload("d.txt", "four")];
    assert!(run_pipeline(&mut remote, true, Transport::Granted, Transport::Granted, &second)
        .is_ok());
    assert_eq!(remote.commits.len(), 3);
    assert_eq!(remote.commits[0].message, "Initial commit: a.txt");
    assert_eq!(remote.commits[1].message, "Add c.txt");
    assert_eq!(remote.commits[2].message, "Add d.txt");
}

#[test]
fn empty_payloads_no_commit_no_push() {
    // An empty payload sequence is a no-op: the call succeeds trivially even
    // when the push transport would fail, because no push is attempted.
    let mut remote = RemoteState::absent();
    let none: Vec<FilePayload> = Vec::new();
    let r = run_pipeline(&mut remote, false, Transport::Granted, Transport::Unreachable, &none);
    assert!(r.is_ok());
    assert!(!remote.exists);
    assert_eq!(remote.commits.len(), 0);
}

#[test]
fn filename_collision_two_commits_last_wins() {
    // A collision yields two sequential commits; the final tree content for
    // the colliding name is the last payload's bytes.
    let mut remote = RemoteState::absent();
    let payloads = vec![payload("a.txt", "one"), payload("a.txt", "two")];
    assert!(run_pipeline(&mut remote, false, Transport::Granted, Transport::Granted, &payloads)
        .is_ok());
    assert_eq!(remote.commits.len(), 2);
    assert_eq!(remote.commits[0].message, "Initial commit: a.txt");
    assert_eq!(remote.commits[1].message, "Add a.txt");
    let latest = latest_index_for(&remote.commits, 2, &"a.txt".to_string());
    assert_eq!(latest, Some(1));
    assert_eq!(remote.commits[1].content, b"two".to_vec());
}

#[test]
fn non_fast_forward_leaves_remote_unchanged() {
    // A diverged remote rejects the push with exactly NonFastForward and its
    // recorded tip is unchanged: no partial update.
    let mut remote = RemoteState::absent();
    let first = vec![payload("a.txt", "one")];
    assert!(run_pipeline(&mut remote, false, Transport::Granted, Transport::Granted, &first)
        .is_ok());

    // A competing client starts from scratch and pushes a different root.
    let mut competing = LocalRepo::init();
    let other = vec![payload("z.txt", "zzz")];
    apply_payloads(&mut competing, &other);
    let r = push_to_remote(&mut remote, &competing, Transport::Granted);
    assert_eq!(r, Err(UploadError::NonFastForward));
    assert_eq!(remote.commits.len(), 1);
    assert_eq!(remote.commits[0].message, "Initial commit: a.txt");
    assert_eq!(remote.commits[0].content, b"one".to_vec());
}

#[test]
fn credential_rejection_distinct_from_unavailable() {
    // A rejected credential surfaces AuthFailure, distinctly from
    // RemoteUnavailable, and the remote state is unchanged either way.
    let mut remote = RemoteState::absent();
    let first = vec![payload("a.txt", "one")];
    assert!(run_pipeline(&mut remote, false, Transport::Granted, Transport::Granted, &first)
        .is_ok());

    let more = vec![payload("b.txt", "two")];
    let rejected =
        run_pipeline(&mut remote, true, Transport::Granted, Transport::CredentialRejected, &more);
    assert_eq!(rejected, Err(UploadError::AuthFailure));
    assert_eq!(remote.commits.len(), 1);

    let unreachable =
        run_pipeline(&mut remote, true, Transport::Granted, Transport::Unreachable, &more);
    assert_eq!(unreachable, Err(UploadError::RemoteUnavailable));
    assert_eq!(remote.commits.len(), 1);
    assert_ne!(rejected, unreachable);
}

#[test]
fn resolve_failures_classified() {
    // Resuming an identifier that does not exist is RemoteNotFound; a clone
    // that cannot reach or authenticate to the remote is RemoteUnavailable.
    let remote = RemoteState::absent();
    let not_found = resolve_repository(true, &remote, Transport::Granted);
    assert!(matches!(not_found, Err(UploadError::RemoteNotFound)));
    let unreachable = resolve_repository(true, &remote, Transport::Unreachable);
    assert!(matches!(unreachable, Err(UploadError::RemoteUnavailable)));
    let auth_at_clone = resolve_repository(true, &remote, Transport::CredentialRejected);
    assert!(matches!(auth_at_clone, Err(UploadError::RemoteUnavailable)));
    // Not resuming makes no network call and always yields a fresh history.
    let fresh = resolve_repository(false, &remote, Transport::Unreachable);
    assert!(fresh.is_ok());
    assert_eq!(fresh.unwrap().len(), 0);
}

#[test]
fn resolve_clone_copies_history() {
    let mut remote = RemoteState::absent();
    let first = vec![payload("a.txt", "one"), payload("b.txt", "two")];
    assert!(run_pipeline(&mut remote, false, Transport::Granted, Transport::Granted, &first)
        .is_ok());
    let local = resolve_repository(true, &remote, Transport::Granted).unwrap();
    assert_eq!(local.len(), 2);
    assert_eq!(local.commits[1].message, "Add b.txt");
}
