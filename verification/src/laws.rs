use vstd::prelude::*;

use crate::errors::UploadError;
use crate::model::{child_message, commit_message, planned, tree_of, PayloadView};
use crate::pipeline::pipeline_outcome;
use crate::remote::{resolve_outcome, RemoteView, Transport};
use crate::sequencer::lemma_tree_of_latest;

verus! {

/// After a successful run with a non-empty payload sequence, the remote's
/// branch-tip ancestry is the resolved history followed by exactly one new
/// commit per payload, in input order; each new commit carries the payload's
/// name and content, and the message `"Add {name}"`, except a true root
/// commit, which reads `"Initial commit: {name}"`.
pub proof fn lemma_successful_run_appends(
    remote: RemoteView,
    resume: bool,
    clone_transport: Transport,
    push_transport: Transport,
    ps: Seq<PayloadView>,
)
    requires
        ps.len() > 0,
        pipeline_outcome(remote, resume, clone_transport, push_transport, ps).0 is Ok,
    ensures
        resolve_outcome(resume, remote, clone_transport) matches Ok(base) && {
            let after = pipeline_outcome(remote, resume, clone_transport, push_transport, ps).1;
            &&& after.exists
            &&& after.commits.len() == base.len() + ps.len()
            &&& after.commits.take(base.len() as int) == base
            &&& forall|i: int|
                0 <= i < ps.len() ==> {
                    &&& (#[trigger] after.commits[base.len() + i]).name == ps[i].name
                    &&& after.commits[base.len() + i].content == ps[i].content
                    &&& after.commits[base.len() + i].message == commit_message(
                        base.len() + i == 0,
                        ps[i].name,
                    )
                }
        },
{
    let base = resolve_outcome(resume, remote, clone_transport)->Ok_0;
    let after = pipeline_outcome(remote, resume, clone_transport, push_transport, ps).1;
    assert(after.commits == base + planned(base.len() as int, ps));
    assert(after.commits.take(base.len() as int) =~= base);
}

/// Re-running the pipeline on a previously-pushed remote never creates a
/// second root commit: the prior history stays a prefix of the new one, so
/// the first new commit is parented on the prior tip, and every new commit's
/// message is a child message.
pub proof fn lemma_no_second_root(
    remote: RemoteView,
    clone_transport: Transport,
    push_transport: Transport,
    ps: Seq<PayloadView>,
)
    requires
        remote.commits.len() > 0,
        pipeline_outcome(remote, true, clone_transport, push_transport, ps).0 is Ok,
    ensures
        ({
            let after = pipeline_outcome(remote, true, clone_transport, push_transport, ps).1;
            &&& after.commits.take(remote.commits.len() as int) == remote.commits
            &&& forall|i: int|
                remote.commits.len() <= i < after.commits.len()
                    ==> (#[trigger] after.commits[i]).message == child_message(
                    after.commits[i].name,
                )
        }),
{
    let after = pipeline_outcome(remote, true, clone_transport, push_transport, ps).1;
    if ps.len() == 0 {
        assert(after.commits.take(remote.commits.len() as int) =~= remote.commits);
    } else {
        assert(after.commits == remote.commits + planned(remote.commits.len() as int, ps));
        assert(after.commits.take(remote.commits.len() as int) =~= remote.commits);
    }
}

/// An empty payload sequence is a no-op: when resolving succeeds, the run
/// succeeds trivially, no commit is made, and the remote is untouched.
pub proof fn lemma_empty_request_trivial(
    remote: RemoteView,
    resume: bool,
    clone_transport: Transport,
    push_transport: Transport,
)
    requires
        resolve_outcome(resume, remote, clone_transport) is Ok,
    ensures
        pipeline_outcome(remote, resume, clone_transport, push_transport, Seq::<
            PayloadView,
        >::empty()).0 is Ok,
        pipeline_outcome(remote, resume, clone_transport, push_transport, Seq::<
            PayloadView,
        >::empty()).1 == remote,
{
}

/// A filename collision within one request yields two sequential commits,
/// and the final tree snapshot's content for that name is the bytes of the
/// last colliding payload.
pub proof fn lemma_collision_last_write_wins(
    remote: RemoteView,
    resume: bool,
    clone_transport: Transport,
    push_transport: Transport,
    ps: Seq<PayloadView>,
    i: int,
    j: int,
)
    requires
        pipeline_outcome(remote, resume, clone_transport, push_transport, ps).0 is Ok,
        0 <= i < j < ps.len(),
        ps[i].name == ps[j].name,
        forall|k: int| j < k < ps.len() ==> (#[trigger] ps[k]).name != ps[j].name,
    ensures
        resolve_outcome(resume, remote, clone_transport) matches Ok(base) && {
            let after = pipeline_outcome(remote, resume, clone_transport, push_transport, ps).1;
            &&& after.commits[base.len() + i].name == ps[j].name
            &&& after.commits[base.len() + j].name == ps[j].name
            &&& tree_of(after.commits).contains_key(ps[j].name)
            &&& tree_of(after.commits)[ps[j].name] == ps[j].content
        },
{
    let base = resolve_outcome(resume, remote, clone_transport)->Ok_0;
    let after = pipeline_outcome(remote, resume, clone_transport, push_transport, ps).1;
    assert(after.commits == base + planned(base.len() as int, ps));
    let t = base.len() + j;
    assert(after.commits[t].name == ps[j].name);
    assert forall|k: int| t < k < after.commits.len() implies (#[trigger] after.commits[k]).name
        != after.commits[t].name by {
        assert(after.commits[k] == planned(base.len() as int, ps)[k - base.len()]);
        assert(after.commits[k].name == ps[k - base.len()].name);
    }
    lemma_tree_of_latest(after.commits, t);
}

/// A failed push leaves the remote's recorded state unchanged — no partial
/// update is possible — and the failure kinds are surfaced distinctly: a
/// rejected credential as `AuthFailure`, an unreachable remote as
/// `RemoteUnavailable`, and a diverged remote as `NonFastForward`.
pub proof fn lemma_failed_run_leaves_remote(
    remote: RemoteView,
    resume: bool,
    clone_transport: Transport,
    push_transport: Transport,
    ps: Seq<PayloadView>,
)
    requires
        pipeline_outcome(remote, resume, clone_transport, push_transport, ps).0 is Err,
    ensures
        pipeline_outcome(remote, resume, clone_transport, push_transport, ps).1 == remote,
        ps.len() > 0 && resolve_outcome(resume, remote, clone_transport) is Ok
            && push_transport is CredentialRejected ==> pipeline_outcome(
            remote,
            resume,
            clone_transport,
            push_transport,
            ps,
        ).0 == Err::<(), UploadError>(UploadError::AuthFailure),
        ps.len() > 0 && resolve_outcome(resume, remote, clone_transport) is Ok
            && push_transport is Unreachable ==> pipeline_outcome(
            remote,
            resume,
            clone_transport,
            push_transport,
            ps,
        ).0 == Err::<(), UploadError>(UploadError::RemoteUnavailable),
{
}

} // verus!
