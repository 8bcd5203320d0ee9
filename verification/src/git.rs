use vstd::prelude::*;

verus! {

// The version-control backend and the scoped workspace are reached through
// the trusted declarations and wrappers below.  Every value of these types is
// opaque to the verifier: the wrappers state nothing about what comes back,
// because every result depends on the machine, the clock or the remote, and
// the verified engine is proved for every possible outcome.

#[verifier::external_type_specification]
#[verifier::external_body]
pub struct ExRepository(git2::Repository);

#[verifier::external_type_specification]
#[verifier::external_body]
pub struct ExOid(git2::Oid);

#[verifier::external_type_specification]
#[verifier::external_body]
pub struct ExGitError(git2::Error);

#[verifier::external_type_specification]
#[verifier::external_body]
pub struct ExTempDir(tempfile::TempDir);

/// Relies on tempfile::TempDir::new: a fresh, exclusively-owned directory
/// that is removed with all its contents when the value is dropped, on every
/// exit path.  `None` reports the underlying I/O failure.
#[verifier::external_body]
pub(crate) fn ws_acquire() -> (r: Option<tempfile::TempDir>) {
    tempfile::TempDir::new().ok()
}

/// Relies on tempfile::TempDir::path: the location of the scoped directory.
/// `None` reports a path that is not valid Unicode.
#[verifier::external_body]
pub(crate) fn ws_path(dir: &tempfile::TempDir) -> (r: Option<String>) {
    dir.path().to_str().map(|s| s.to_string())
}

/// Relies on git2::Repository::init: creates an empty repository at `path`.
#[verifier::external_body]
pub(crate) fn git_init(path: &str) -> (r: Result<git2::Repository, git2::Error>) {
    git2::Repository::init(std::path::Path::new(path))
}

/// Relies on git2::Repository::remote: registers a remote named `name`
/// pointing at `url`.
#[verifier::external_body]
pub(crate) fn git_remote_add(repo: &git2::Repository, name: &str, url: &str) -> (r: Result<
    (),
    git2::Error,
>) {
    repo.remote(name, url).map(|_| ())
}

/// Relies on git2::build::RepoBuilder::clone, authenticating with
/// git2::Cred::ssh_key from the key file at `key_path`: clones the
/// repository at `url` into the directory `into`.
#[verifier::external_body]
pub(crate) fn git_clone(url: &str, into: &str, key_path: &str) -> (r: Result<
    git2::Repository,
    git2::Error,
>) {
    let key = std::path::PathBuf::from(key_path);
    let mut callbacks = git2::RemoteCallbacks::new();
    callbacks.credentials(move |_url, username, _allowed| {
        git2::Cred::ssh_key(username.unwrap_or("git"), None, &key, None)
    });
    let mut fetch = git2::FetchOptions::new();
    fetch.remote_callbacks(callbacks);
    git2::build::RepoBuilder::new().fetch_options(fetch).clone(url, std::path::Path::new(into))
}

/// Relies on git2::Repository::head, git2::Reference::peel_to_commit,
/// git2::Commit::id and git2::Commit::tree_id: the current branch tip's
/// commit and tree identifiers, or `None` for an unborn branch.
#[verifier::external_body]
pub(crate) fn git_head_info(repo: &git2::Repository) -> (r: Option<(git2::Oid, git2::Oid)>) {
    let head = repo.head().ok()?;
    let commit = head.peel_to_commit().ok()?;
    Some((commit.id(), commit.tree_id()))
}

/// Relies on git2::Repository::blob, git2::Repository::treebuilder and
/// git2::TreeBuilder::{insert, write}: records `content` as a blob, stages
/// it under `name` in a tree derived from `base` (or from an empty tree),
/// and returns the new tree's identifier.
#[verifier::external_body]
pub(crate) fn git_stage(
    repo: &git2::Repository,
    base: Option<&git2::Oid>,
    name: &str,
    content: &[u8],
) -> (r: Result<git2::Oid, git2::Error>) {
    let blob = repo.blob(content)?;
    let base_tree = match base {
        Some(t) => Some(repo.find_tree(*t)?),
        None => None,
    };
    let mut builder = repo.treebuilder(base_tree.as_ref())?;
    builder.insert(name, blob, 0o100644)?;
    builder.write()
}

/// Relies on git2::Repository::commit (with git2::Signature::now for the
/// fixed system identity): creates a commit of the tree `tree` with the
/// given message and zero or one parents, and advances the branch tip.
#[verifier::external_body]
pub(crate) fn git_commit_tree(
    repo: &git2::Repository,
    tree: &git2::Oid,
    parent: Option<&git2::Oid>,
    message: &str,
    author_name: &str,
    author_email: &str,
) -> (r: Result<git2::Oid, git2::Error>) {
    let tree_obj = repo.find_tree(*tree)?;
    let sig = git2::Signature::now(author_name, author_email)?;
    match parent {
        Some(p) => {
            let pc = repo.find_commit(*p)?;
            repo.commit(Some("HEAD"), &sig, &sig, message, &tree_obj, &[&pc])
        },
        None => repo.commit(Some("HEAD"), &sig, &sig, message, &tree_obj, &[]),
    }
}

/// Relies on git2::Remote::push, authenticating with git2::Cred::ssh_key
/// from the key file at `key_path`: pushes `refspec` to the remote named
/// `remote_name` as a single all-or-nothing reference update.
#[verifier::external_body]
pub(crate) fn git_push(
    repo: &git2::Repository,
    remote_name: &str,
    refspec: &str,
    key_path: &str,
) -> (r: Result<(), git2::Error>) {
    let key = std::path::PathBuf::from(key_path);
    let mut callbacks = git2::RemoteCallbacks::new();
    callbacks.credentials(move |_url, username, _allowed| {
        git2::Cred::ssh_key(username.unwrap_or("git"), None, &key, None)
    });
    let mut opts = git2::PushOptions::new();
    opts.remote_callbacks(callbacks);
    let mut remote = repo.find_remote(remote_name)?;
    remote.push(&[refspec], Some(&mut opts))
}

/// Relies on git2::Error::raw_code: the raw libgit2 error code of `e`.
#[verifier::external_body]
pub(crate) fn git_error_code(e: &git2::Error) -> (r: i32) {
    e.raw_code() as i32
}

/// Relies on git2::Error::raw_class: the raw libgit2 error class of `e`.
#[verifier::external_body]
pub(crate) fn git_error_class(e: &git2::Error) -> (r: i32) {
    e.raw_class() as i32
}

} // verus!
