//! Laws of the workflow that hold in every well-formed state, stated
//! and proved over the state invariant and the operation contracts.

use vstd::prelude::*;

use crate::engine::sign_outcome;
use crate::model::{executed_transfer_count, BlocksResources, Error, Identity,
    SIGNATURE_THRESHOLD};

verus! {

/// Law: a proposal is marked executed only with at least the quorum
/// threshold of signatures behind it. Together with the contract of
/// `sign_proposal` — the only operation that sets the flag, and only
/// when the signature it appends brings the count to the threshold —
/// this pins execution to the quorum-reaching signature.
pub proof fn lemma_executed_implies_quorum(s: BlocksResources, j: int)
    requires
        s.wf(),
        0 <= j < s.proposals@.len(),
        s.proposals@[j].executed,
    ensures
        s.proposals@[j].signatures@.len() >= SIGNATURE_THRESHOLD,
{
    assert(s.proposal_ok(j));
}

/// Law: a proposal's signature set never holds the same identity
/// twice, and every signature belongs to the signer directory. The
/// directory is append-only, so an identity that was a signer when it
/// signed is still in the directory now.
pub proof fn lemma_signatures_valid(s: BlocksResources, j: int)
    requires
        s.wf(),
        0 <= j < s.proposals@.len(),
    ensures
        s.proposals@[j].signatures@.no_duplicates(),
        forall|k: int|
            0 <= k < s.proposals@[j].signatures@.len() ==> s.signers().contains(
                #[trigger] s.proposals@[j].signatures@[k],
            ),
{
    assert(s.proposal_ok(j));
}

/// Law: a resource's tracking history holds exactly one entry per
/// execution that affected it — its length equals the number of
/// executed proposals that reference it, with no duplicates and no
/// drops.
pub proof fn lemma_history_length_counts_executions(s: BlocksResources, i: int)
    requires
        s.wf(),
        0 <= i < s.resources@.len(),
    ensures
        s.resources@[i].tracking_history@.len() == executed_transfer_count(
            s.proposals@,
            s.resources@[i].id,
        ),
{
    assert(s.resource_ok(i));
}

/// Law: an executed proposal cannot execute again. A signing attempt
/// on it is refused with `AlreadyExecuted` — and a refused call leaves
/// the state untouched, by the contract of `sign_proposal`.
pub proof fn lemma_no_reexecution(
    s: BlocksResources,
    signer: Identity,
    signer_auth: bool,
    proposal_id: u64,
)
    requires
        s.wf(),
        signer_auth,
        s.signers().contains(signer),
        proposal_id < s.proposals@.len(),
        s.proposals@[proposal_id as int].executed,
    ensures
        sign_outcome(s, signer, signer_auth, proposal_id) == Err::<(), Error>(
            Error::AlreadyExecuted,
        ),
{
}

/// Law: signing the same proposal twice with the same identity is
/// refused with `DuplicateSignature` — and a refused call leaves the
/// state untouched, by the contract of `sign_proposal`.
pub proof fn lemma_duplicate_signature_refused(
    s: BlocksResources,
    signer: Identity,
    signer_auth: bool,
    proposal_id: u64,
)
    requires
        s.wf(),
        signer_auth,
        s.signers().contains(signer),
        proposal_id < s.proposals@.len(),
        !s.proposals@[proposal_id as int].executed,
        s.proposals@[proposal_id as int].signatures@.contains(signer),
    ensures
        sign_outcome(s, signer, signer_auth, proposal_id) == Err::<(), Error>(
            Error::DuplicateSignature,
        ),
{
}

} // verus!
