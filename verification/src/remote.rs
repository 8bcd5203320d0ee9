use vstd::prelude::*;

use crate::errors::UploadError;
use crate::model::{commit_views, CommitRecord, CommitView};
use crate::sequencer::LocalRepo;

verus! {

/// The observable state of the remote repository: whether it exists at all,
/// and the chain of commits reachable from its branch tip, oldest first.
pub struct RemoteState {
    pub exists: bool,
    pub commits: Vec<CommitRecord>,
}

/// Mathematical image of a `RemoteState`.
pub ghost struct RemoteView {
    pub exists: bool,
    pub commits: Seq<CommitView>,
}

impl View for RemoteState {
    type V = RemoteView;

    open spec fn view(&self) -> RemoteView {
        RemoteView { exists: self.exists, commits: commit_views(self.commits@) }
    }
}

impl RemoteState {
    /// A target identifier for which no remote repository exists yet.
    pub fn absent() -> (r: RemoteState)
        ensures
            !r@.exists,
            r@.commits == Seq::<CommitView>::empty(),
    {
        let r = RemoteState { exists: false, commits: Vec::new() };
        proof {
            assert(r@.commits =~= Seq::<CommitView>::empty());
        }
        r
    }
}

/// What the transport reports for one network operation against the remote.
/// Only the remote side knows which of these holds; the engine receives the
/// outcome and is verified for every value of it.
#[derive(Clone, Copy, Debug, PartialEq, Eq, Structural)]
pub enum Transport {
    /// The remote was reached and the credential was accepted.
    Granted,
    /// The remote was reached and rejected the credential.
    CredentialRejected,
    /// The remote could not be reached at all.
    Unreachable,
}

/// `a` is a prefix of `b`: `b` extends the history `a` without rewriting it,
/// so updating a branch tip from `a`'s head to `b`'s head is a fast-forward.
pub open spec fn is_prefix(a: Seq<CommitView>, b: Seq<CommitView>) -> bool {
    a.len() <= b.len() && a == b.take(a.len() as int)
}

/// Compare two byte vectors.
fn bytes_eq(a: &Vec<u8>, b: &Vec<u8>) -> (r: bool)
    ensures
        r == (a@ == b@),
{
    if a.len() != b.len() {
        return false;
    }
    let mut i: usize = 0;
    while i < a.len()
        invariant
            a@.len() == b@.len(),
            i <= a@.len(),
            forall|j: int| 0 <= j < i ==> a@[j] == b@[j],
        decreases a@.len() - i,
    {
        if a[i] != b[i] {
            return false;
        }
        i += 1;
    }
    proof {
        assert(a@ =~= b@);
    }
    true
}

/// Compare two commit records by their mathematical image.
fn commit_eq(a: &CommitRecord, b: &CommitRecord) -> (r: bool)
    ensures
        r == (a@ == b@),
{
    a.message.eq(&b.message) && a.name.eq(&b.name) && bytes_eq(&a.content, &b.content)
}

/// Decide whether the chain `a` is a prefix of the chain `b`.
fn is_prefix_exec(a: &Vec<CommitRecord>, b: &Vec<CommitRecord>) -> (r: bool)
    ensures
        r == is_prefix(commit_views(a@), commit_views(b@)),
{
    if a.len() > b.len() {
        return false;
    }
    let mut i: usize = 0;
    while i < a.len()
        invariant
            a@.len() <= b@.len(),
            i <= a@.len(),
            forall|j: int| 0 <= j < i ==> commit_views(a@)[j] == commit_views(b@)[j],
        decreases a@.len() - i,
    {
        if !commit_eq(&a[i], &b[i]) {
            proof {
                assert(commit_views(a@)[i as int] != commit_views(b@)[i as int]);
                assert(!is_prefix(commit_views(a@), commit_views(b@)));
            }
            return false;
        }
        i += 1;
    }
    proof {
        assert(commit_views(a@) =~= commit_views(b@).take(a@.len() as int));
    }
    true
}

/// Copy a chain of commit records.
fn clone_records(src: &Vec<CommitRecord>) -> (r: Vec<CommitRecord>)
    ensures
        commit_views(r@) == commit_views(src@),
{
    let mut out: Vec<CommitRecord> = Vec::new();
    let mut i: usize = 0;
    while i < src.len()
        invariant
            i <= src@.len(),
            out@.len() == i,
            commit_views(out@) == commit_views(src@).take(i as int),
        decreases src@.len() - i,
    {
        let ghost prev = out@;
        out.push(src[i].clone());
        proof {
            assert(out@.last()@ == src@[i as int]@);
            assert forall|j: int| 0 <= j < i + 1 implies #[trigger] commit_views(out@)[j]
                == commit_views(src@).take(i + 1)[j] by {
                if j < i {
                    assert(out@[j] == prev[j]);
                    assert(commit_views(prev)[j] == commit_views(src@).take(i as int)[j]);
                }
            }
            assert(commit_views(out@) =~= commit_views(src@).take(i + 1));
        }
        i += 1;
    }
    proof {
        assert(commit_views(src@).take(src@.len() as int) =~= commit_views(src@));
    }
    out
}

/// Push the local branch tip to the remote.  The reference update is
/// all-or-nothing: it succeeds, making the remote's chain equal to the local
/// chain, exactly when the transport grants access and the update is a
/// fast-forward; on every failure the remote is left unchanged and the
/// failure is classified distinctly.
pub fn push_to_remote(remote: &mut RemoteState, local: &LocalRepo, transport: Transport) -> (r:
    Result<(), UploadError>)
    ensures
        r is Ok <==> (transport is Granted && is_prefix(old(remote)@.commits, local@)),
        r is Ok ==> final(remote)@ == (RemoteView { exists: true, commits: local@ }),
        r is Err ==> final(remote)@ == old(remote)@,
        transport is Unreachable ==> r == Err::<(), UploadError>(UploadError::RemoteUnavailable),
        transport is CredentialRejected ==> r == Err::<(), UploadError>(UploadError::AuthFailure),
        transport is Granted && !is_prefix(old(remote)@.commits, local@) ==> r == Err::<(),
            UploadError,
        >(UploadError::NonFastForward),
{
    match transport {
        Transport::Unreachable => Err(UploadError::RemoteUnavailable),
        Transport::CredentialRejected => Err(UploadError::AuthFailure),
        Transport::Granted => {
            if is_prefix_exec(&remote.commits, &local.commits) {
                remote.commits = clone_records(&local.commits);
                remote.exists = true;
                Ok(())
            } else {
                Err(UploadError::NonFastForward)
            }
        },
    }
}

/// What resolving yields: either the history the local working copy starts
/// from, or a classified failure.  A request that does not resume an existing
/// target initializes an empty local repository and makes no network call;
/// a resumed target is cloned, and a clone that cannot authenticate or reach
/// the remote fails as `RemoteUnavailable`, while a clone of an identifier
/// that does not exist fails as `RemoteNotFound`.
pub open spec fn resolve_outcome(resume: bool, remote: RemoteView, transport: Transport) -> Result<
    Seq<CommitView>,
    UploadError,
> {
    if !resume {
        Ok(Seq::<CommitView>::empty())
    } else if transport is Unreachable || transport is CredentialRejected {
        Err(UploadError::RemoteUnavailable)
    } else if !remote.exists {
        Err(UploadError::RemoteNotFound)
    } else {
        Ok(remote.commits)
    }
}

/// Produce a ready-to-use local working copy for one request: clone the
/// remote when the target is known to exist, initialize a fresh repository
/// otherwise.  Exactly one of the two paths executes, decided once, before
/// any file is written.
pub fn resolve_repository(resume: bool, remote: &RemoteState, transport: Transport) -> (r: Result<
    LocalRepo,
    UploadError,
>)
    ensures
        match r {
            Ok(l) => resolve_outcome(resume, remote@, transport) matches Ok(base) && l@ == base,
            Err(e) => resolve_outcome(resume, remote@, transport) == Err::<Seq<CommitView>,
                UploadError,
            >(e),
        },
{
    if !resume {
        Ok(LocalRepo::init())
    } else {
        match transport {
            Transport::Unreachable => Err(UploadError::RemoteUnavailable),
            Transport::CredentialRejected => Err(UploadError::RemoteUnavailable),
            Transport::Granted => {
                if !remote.exists {
                    Err(UploadError::RemoteNotFound)
                } else {
                    Ok(LocalRepo { commits: clone_records(&remote.commits) })
                }
            },
        }
    }
}

} // verus!
