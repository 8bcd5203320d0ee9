use gist_sync::engine::{branch_refspec, gist_url, new_gist_url, resolve_credential};
use gist_sync::errors::{
    classify_commit_error, classify_push_error, classify_resolve_error, UploadError,
};
use gist_sync::model::{check_name, check_payloads, make_message, FilePayload};

#[test]
fn messages_exact() {
    assert_eq!(make_message(true, &"a.txt".to_string()), "Initial commit: a.txt");
    assert_eq!(make_message(false, &"b.txt".to_string()), "Add b.txt");
}

#[test]
fn resolve_error_classification() {
    // GIT_ENOTFOUND is -3; anything else during a clone is a transport or
    // credential problem.
    assert_eq!(classify_resolve_error(-3), UploadError::RemoteNotFound);
    assert_eq!(classify_resolve_error(-1), UploadError::RemoteUnavailable);
    assert_eq!(classify_resolve_error(-16), UploadError::RemoteUnavailable);
}

#[test]
fn commit_error_classification() {
    // GIT_ERROR_OS is class 2 and GIT_ERROR_FILESYSTEM is class 30; any
    // other class while staging or committing means backend corruption.
    assert_eq!(classify_commit_error(2), UploadError::IoFailure);
    assert_eq!(classify_commit_error(30), UploadError::IoFailure);
    assert_eq!(classify_commit_error(10), UploadError::RepositoryCorrupt);
}

#[test]
fn push_error_classification() {
    // GIT_ENONFASTFORWARD is -11, GIT_EAUTH is -16, GIT_ERROR_SSH is class 23.
    assert_eq!(classify_push_error(-11, 0), UploadError::NonFastForward);
    assert_eq!(classify_push_error(-16, 0), UploadError::AuthFailure);
    assert_eq!(classify_push_error(-1, 23), UploadError::AuthFailure);
    assert_eq!(classify_push_error(-1, 12), UploadError::RemoteUnavailable);
}

#[test]
fn name_validity() {
    assert!(check_name(&"a.txt".to_string()));
    assert!(check_name(&"..a".to_string()));
    assert!(!check_name(&"".to_string()));
    assert!(!check_name(&"dir/a.txt".to_string()));
    assert!(!check_name(&"dir\\a.txt".to_string()));
    assert!(!check_name(&".".to_string()));
    assert!(!check_name(&"..".to_string()));
}

#[test]
fn payload_validity() {
    let good = vec![
        FilePayload { name: "a.txt".to_string(), content: b"x".to_vec() },
        FilePayload { name: "b.txt".to_string(), content: Vec::new() },
    ];
    assert!(check_payloads(&good));
    let bad = vec![
        FilePayload { name: "a.txt".to_string(), content: b"x".to_vec() },
        FilePayload { name: "../a.txt".to_string(), content: b"x".to_vec() },
    ];
    assert!(!check_payloads(&bad));
}

#[test]
fn credential_resolution() {
    assert_eq!(resolve_credential(Some("/tmp/key".to_string())).key_path, "/tmp/key");
    assert_eq!(resolve_credential(None).key_path, "/root/.ssh/id_ed25519");
}

#[test]
fn urls_and_refspec() {
    assert_eq!(gist_url(&"abc123".to_string()), "git@gist.github.com:abc123.git");
    assert_eq!(new_gist_url(), "git@gist.github.com:new.git");
    assert_eq!(branch_refspec(), "refs/heads/master:refs/heads/master");
}
