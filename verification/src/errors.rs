use vstd::prelude::*;

verus! {

/// Classification of every failure the engine can surface.
///
/// - `IoFailure`: a local filesystem operation failed; fatal, never retried.
/// - `RepositoryCorrupt`: the backend violated an invariant while staging or
///   committing; fatal, never retried.
/// - `RemoteNotFound`: the target identifier does not exist on the remote side.
/// - `RemoteUnavailable`: the transport failed; the caller may retry with backoff.
/// - `AuthFailure`: the remote rejected the supplied credential; an operator
///   must intervene before a retry can succeed.
/// - `NonFastForward`: the remote diverged since the working copy was made;
///   the whole request may be retried.
/// - `ConfigMissing`: a required configuration value was absent.
#[derive(Clone, Copy, Debug, PartialEq, Eq, Structural)]
pub enum UploadError {
    IoFailure,
    RepositoryCorrupt,
    RemoteNotFound,
    RemoteUnavailable,
    AuthFailure,
    NonFastForward,
    ConfigMissing,
}

/// libgit2's `GIT_ENOTFOUND`: the requested object or remote does not exist.
pub const GIT_CODE_NOT_FOUND: i32 = -3;
/// libgit2's `GIT_ENONFASTFORWARD`: a reference update was not a fast-forward.
pub const GIT_CODE_NON_FAST_FORWARD: i32 = -11;
/// libgit2's `GIT_EAUTH`: authentication failed.
pub const GIT_CODE_AUTH: i32 = -16;
/// libgit2's error class `GIT_ERROR_OS`: an operating-system level failure.
pub const GIT_CLASS_OS: i32 = 2;
/// libgit2's error class `GIT_ERROR_SSH`.
pub const GIT_CLASS_SSH: i32 = 23;
/// libgit2's error class `GIT_ERROR_FILESYSTEM`.
pub const GIT_CLASS_FILESYSTEM: i32 = 30;

/// How a failure while resolving (cloning) a repository is classified:
/// a missing identifier is `RemoteNotFound`; every other failure to
/// authenticate or to reach the remote is `RemoteUnavailable`.
pub open spec fn resolve_error_class(code: int) -> UploadError {
    if code == GIT_CODE_NOT_FOUND {
        UploadError::RemoteNotFound
    } else {
        UploadError::RemoteUnavailable
    }
}

/// How a failure while staging or committing is classified: failures of the
/// operating system or of the filesystem are local I/O failures; anything
/// else means the backend could not maintain its own invariants.
pub open spec fn commit_error_class(class: int) -> UploadError {
    if class == GIT_CLASS_OS || class == GIT_CLASS_FILESYSTEM {
        UploadError::IoFailure
    } else {
        UploadError::RepositoryCorrupt
    }
}

/// How a failure while pushing is classified: a rejected reference update is
/// `NonFastForward`, a rejected credential is `AuthFailure`, and every other
/// failure is a transport problem, `RemoteUnavailable`.
pub open spec fn push_error_class(code: int, class: int) -> UploadError {
    if code == GIT_CODE_NON_FAST_FORWARD {
        UploadError::NonFastForward
    } else if code == GIT_CODE_AUTH || class == GIT_CLASS_SSH {
        UploadError::AuthFailure
    } else {
        UploadError::RemoteUnavailable
    }
}

/// Classify a raw backend error observed while resolving a repository.
pub fn classify_resolve_error(code: i32) -> (r: UploadError)
    ensures
        r == resolve_error_class(code as int),
{
    if code == GIT_CODE_NOT_FOUND {
        UploadError::RemoteNotFound
    } else {
        UploadError::RemoteUnavailable
    }
}

/// Classify a raw backend error observed while staging or committing.
pub fn classify_commit_error(class: i32) -> (r: UploadError)
    ensures
        r == commit_error_class(class as int),
{
    if class == GIT_CLASS_OS || class == GIT_CLASS_FILESYSTEM {
        UploadError::IoFailure
    } else {
        UploadError::RepositoryCorrupt
    }
}

/// Classify a raw backend error observed while pushing.
pub fn classify_push_error(code: i32, class: i32) -> (r: UploadError)
    ensures
        r == push_error_class(code as int, class as int),
{
    if code == GIT_CODE_NON_FAST_FORWARD {
        UploadError::NonFastForward
    } else if code == GIT_CODE_AUTH || class == GIT_CLASS_SSH {
        UploadError::AuthFailure
    } else {
        UploadError::RemoteUnavailable
    }
}

} // verus!
