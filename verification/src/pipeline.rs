use vstd::prelude::*;

use crate::errors::UploadError;
use crate::model::{payload_views, planned, valid_payloads, FilePayload, PayloadView};
use crate::remote::{
    is_prefix, push_to_remote, resolve_outcome, resolve_repository, RemoteState, RemoteView,
    Transport,
};
use crate::sequencer::apply_payloads;

verus! {

/// The complete behaviour of one upload request against a remote in state
/// `remote`: the classified result, and the remote's state afterwards.
///
/// Resolving decides once, before any file is written, between cloning an
/// existing target (`resume`) and initializing a fresh history.  An empty
/// payload sequence is a no-op: no commit is made, no push is attempted, and
/// the call succeeds trivially.  Otherwise one commit per payload is chained
/// onto the resolved history and the new tip is pushed; the push is a single
/// all-or-nothing reference update which succeeds exactly when the transport
/// grants access and the update is a fast-forward, and on any failure the
/// remote is unchanged.
pub open spec fn pipeline_outcome(
    remote: RemoteView,
    resume: bool,
    clone_transport: Transport,
    push_transport: Transport,
    ps: Seq<PayloadView>,
) -> (Result<(), UploadError>, RemoteView) {
    match resolve_outcome(resume, remote, clone_transport) {
        Err(e) => (Err(e), remote),
        Ok(base) => {
            if ps.len() == 0 {
                (Ok(()), remote)
            } else {
                let chain = base + planned(base.len() as int, ps);
                if push_transport is Unreachable {
                    (Err(UploadError::RemoteUnavailable), remote)
                } else if push_transport is CredentialRejected {
                    (Err(UploadError::AuthFailure), remote)
                } else if !is_prefix(remote.commits, chain) {
                    (Err(UploadError::NonFastForward), remote)
                } else {
                    (Ok(()), RemoteView { exists: true, commits: chain })
                }
            }
        },
    }
}

/// Run one upload request start to finish: resolve a local working copy,
/// record every payload as a commit in input order, and push the new tip.
/// The whole observable behaviour equals [`pipeline_outcome`]; in particular
/// every failure leaves the remote exactly as it was, and an empty payload
/// sequence commits nothing and pushes nothing.
pub fn run_pipeline(
    remote: &mut RemoteState,
    resume: bool,
    clone_transport: Transport,
    push_transport: Transport,
    payloads: &Vec<FilePayload>,
) -> (r: Result<(), UploadError>)
    requires
        valid_payloads(payload_views(payloads@)),
    ensures
        ({
            let outcome = pipeline_outcome(
                old(remote)@,
                resume,
                clone_transport,
                push_transport,
                payload_views(payloads@),
            ).0;
            match r {
                Ok(u) => outcome is Ok,
                Err(e) => outcome matches Err(e2) && e == e2,
            }
        }),
        final(remote)@ == pipeline_outcome(
            old(remote)@,
            resume,
            clone_transport,
            push_transport,
            payload_views(payloads@),
        ).1,
        r is Err ==> final(remote)@ == old(remote)@,
        payloads@.len() == 0 ==> final(remote)@ == old(remote)@,
{
    let local_r = resolve_repository(resume, remote, clone_transport);
    match local_r {
        Err(e) => Err(e),
        Ok(mut local) => {
            if payloads.len() == 0 {
                Ok(())
            } else {
                apply_payloads(&mut local, payloads);
                push_to_remote(remote, &local, push_transport)
            }
        },
    }
}

} // verus!
