use vstd::prelude::*;
use vstd::string::StringExecFns;

use crate::errors::{
    classify_commit_error, classify_push_error, classify_resolve_error, UploadError,
};
use crate::git::{
    git_clone, git_commit_tree, git_error_class, git_error_code, git_head_info, git_init,
    git_push, git_remote_add, git_stage, ws_acquire, ws_path,
};
use crate::model::{make_message, payload_views, valid_payloads, FilePayload};

verus! {

/// The commit-chaining state threaded through one request: either no commit
/// exists yet anywhere in the repository's history, or the branch tip is the
/// commit `commit` whose snapshot is the tree `tree`.  Every successful
/// commit moves the state to `HasTip`, so at most the very first commit of a
/// repository is a root commit.
pub enum ChainState {
    NoHistory,
    HasTip { commit: git2::Oid, tree: git2::Oid },
}

/// An SSH identity, resolved at call time and never cached across requests.
pub struct Credential {
    pub key_path: String,
}

/// Resolve the SSH identity: the configured key file path, or the well-known
/// default location when none is configured.
pub fn resolve_credential(configured: Option<String>) -> (c: Credential)
    ensures
        match configured {
            Some(p) => c.key_path@ == p@,
            None => c.key_path@ == "/root/.ssh/id_ed25519"@,
        },
{
    match configured {
        Some(p) => Credential { key_path: p },
        None => Credential { key_path: String::from_str("/root/.ssh/id_ed25519") },
    }
}

/// The SSH location of an existing target repository.
pub fn gist_url(gist_id: &String) -> (u: String)
    ensures
        u@ == "git@gist.github.com:"@ + gist_id@ + ".git"@,
{
    String::from_str("git@gist.github.com:").concat(gist_id.as_str()).concat(".git")
}

/// The SSH location a brand-new target repository is pushed to.
pub fn new_gist_url() -> (u: String)
    ensures
        u@ == "git@gist.github.com:new.git"@,
{
    String::from_str("git@gist.github.com:new.git")
}

/// The pushed branch, the same name on both sides.  The branch name is a
/// fixed configuration default, not derived from the repository's actual
/// default branch.
pub fn branch_refspec() -> (s: String)
    ensures
        s@ == "refs/heads/master:refs/heads/master"@,
{
    String::from_str("refs/heads/master:refs/heads/master")
}

/// Clone the existing remote repository for `gist_id` into the workspace at
/// `workspace`.  A failure is classified as the repository resolver demands:
/// an identifier that does not exist as `RemoteNotFound`, every failure to
/// authenticate or to reach the remote as `RemoteUnavailable`.
pub fn clone_gist(gist_id: &String, workspace: &String, cred: &Credential) -> (r: Result<
    git2::Repository,
    UploadError,
>)
    ensures
        r matches Err(e) ==> (e is RemoteNotFound || e is RemoteUnavailable),
{
    let url = gist_url(gist_id);
    match git_clone(url.as_str(), workspace.as_str(), cred.key_path.as_str()) {
        Ok(repo) => Ok(repo),
        Err(e) => Err(classify_resolve_error(git_error_code(&e))),
    }
}

/// Initialize an empty repository in the workspace and register its `origin`
/// remote.  No network call happens here: the remote repository itself is
/// created implicitly by the first push.
pub fn init_new_gist(workspace: &String) -> (r: Result<git2::Repository, UploadError>)
    ensures
        r matches Err(e) ==> (e is IoFailure || e is RepositoryCorrupt),
{
    let repo = match git_init(workspace.as_str()) {
        Ok(repo) => repo,
        Err(e) => {
            return Err(classify_commit_error(git_error_class(&e)));
        },
    };
    let url = new_gist_url();
    match git_remote_add(&repo, "origin", url.as_str()) {
        Ok(_) => Ok(repo),
        Err(e) => Err(classify_commit_error(git_error_class(&e))),
    }
}

/// Record one payload as one commit: stage its content in a tree derived
/// from the current tip's tree, then commit that tree with the current tip
/// as single parent — or as a root commit, with no parent and the root
/// message, exactly when no commit exists yet.  On success the chain state
/// advances to the new tip.
pub fn record_payload(repo: &git2::Repository, state: ChainState, payload: &FilePayload) -> (r:
    Result<ChainState, UploadError>)
    ensures
        r matches Ok(s) ==> s is HasTip,
        r matches Err(e) ==> (e is IoFailure || e is RepositoryCorrupt),
{
    let is_root = match &state {
        ChainState::NoHistory => true,
        ChainState::HasTip { .. } => false,
    };
    let message = make_message(is_root, &payload.name);
    let (parent, base_tree) = match &state {
        ChainState::NoHistory => (None, None),
        ChainState::HasTip { commit, tree } => (Some(commit), Some(tree)),
    };
    let new_tree = match git_stage(
        repo,
        base_tree,
        payload.name.as_str(),
        payload.content.as_slice(),
    ) {
        Ok(t) => t,
        Err(e) => {
            return Err(classify_commit_error(git_error_class(&e)));
        },
    };
    let new_commit = match git_commit_tree(
        repo,
        &new_tree,
        parent,
        message.as_str(),
        "gist-sync",
        "gist-sync@localhost",
    ) {
        Ok(c) => c,
        Err(e) => {
            return Err(classify_commit_error(git_error_class(&e)));
        },
    };
    Ok(ChainState::HasTip { commit: new_commit, tree: new_tree })
}

/// Push the local branch tip to `origin`, resolving the credential at call
/// time.  A failure is classified distinctly: a rejected credential as
/// `AuthFailure`, a diverged remote as `NonFastForward`, any other transport
/// failure as `RemoteUnavailable`; the engine itself never retries.
pub fn push_changes(repo: &git2::Repository, cred: &Credential) -> (r: Result<(), UploadError>)
    ensures
        r matches Err(e) ==> (e is AuthFailure || e is NonFastForward || e is RemoteUnavailable),
{
    let refspec = branch_refspec();
    match git_push(repo, "origin", refspec.as_str(), cred.key_path.as_str()) {
        Ok(_) => Ok(()),
        Err(e) => Err(classify_push_error(git_error_code(&e), git_error_class(&e))),
    }
}

/// Run one upload request against the real backend: acquire a scoped
/// workspace (destroyed on every exit path when this function returns),
/// resolve the repository — clone when `gist_id` names an existing target,
/// initialize otherwise — record one commit per payload in input order, and
/// push the new tip.  An empty payload sequence commits nothing and pushes
/// nothing, so a push-phase failure (`AuthFailure`, `NonFastForward`) can
/// never be reported for it.
pub fn run_upload(gist_id: &Option<String>, cred: &Credential, payloads: &Vec<FilePayload>) -> (r:
    Result<(), UploadError>)
    requires
        valid_payloads(payload_views(payloads@)),
    ensures
        r matches Err(e) ==> !(e is ConfigMissing),
        payloads@.len() == 0 ==> (r matches Err(e) ==> (e is IoFailure || e is RepositoryCorrupt
            || e is RemoteNotFound || e is RemoteUnavailable)),
        gist_id is None ==> (r matches Err(e) ==> !(e is RemoteNotFound)),
{
    let ws = match ws_acquire() {
        Some(w) => w,
        None => {
            return Err(UploadError::IoFailure);
        },
    };
    let path = match ws_path(&ws) {
        Some(p) => p,
        None => {
            return Err(UploadError::IoFailure);
        },
    };
    let (repo, state0) = match gist_id {
        Some(id) => {
            let repo = match clone_gist(id, &path, cred) {
                Ok(repo) => repo,
                Err(e) => {
                    return Err(e);
                },
            };
            let st = match git_head_info(&repo) {
                Some(tip) => ChainState::HasTip { commit: tip.0, tree: tip.1 },
                None => ChainState::NoHistory,
            };
            (repo, st)
        },
        None => {
            let repo = match init_new_gist(&path) {
                Ok(repo) => repo,
                Err(e) => {
                    return Err(e);
                },
            };
            (repo, ChainState::NoHistory)
        },
    };
    if payloads.len() == 0 {
        return Ok(());
    }
    let mut state = state0;
    let mut i: usize = 0;
    while i < payloads.len()
        invariant
            i <= payloads@.len(),
        decreases payloads@.len() - i,
    {
        state = match record_payload(&repo, state, &payloads[i]) {
            Ok(s) => s,
            Err(e) => {
                return Err(e);
            },
        };
        i += 1;
    }
    push_changes(&repo, cred)
}

} // verus!
