use vstd::prelude::*;
use crate::error::MultiSigError;
use crate::processor::{approve_outcome, create_outcome, execute_outcome, propose_outcome};
use crate::state::{is_owner, Identity, MultiSig};

verus! {

/// Creation succeeds exactly when the threshold lies between one and the
/// number of owners; otherwise it fails with `InvalidConfiguration`.
pub proof fn lemma_create_threshold(owners: Vec<Identity>, threshold: u8)
    ensures
        create_outcome(owners, threshold) is Ok <==> 1 <= threshold <= owners@.len(),
        !(1 <= threshold <= owners@.len())
            ==> create_outcome(owners, threshold) == Err::<MultiSig, MultiSigError>(MultiSigError::InvalidConfiguration),
{
}

/// An approval succeeds exactly when the identity is an owner; otherwise it
/// fails with `NotOwner` and the count of approvals stays as it was.
pub proof fn lemma_approve_membership(m: MultiSig, id: Identity)
    ensures
        approve_outcome(m, id).1 is Ok <==> is_owner(m.owners@, id),
        !is_owner(m.owners@, id) ==> approve_outcome(m, id).1 == Err::<(), MultiSigError>(MultiSigError::NotOwner),
        !is_owner(m.owners@, id) ==> approve_outcome(m, id).0.approvals == m.approvals,
{
}

/// Execution succeeds exactly when the approvals reach the threshold; it
/// then marks the action executed, and otherwise leaves the record as it was.
pub proof fn lemma_execute_gate(m: MultiSig)
    ensures
        execute_outcome(m).1 is Ok <==> m.approvals >= m.threshold,
        execute_outcome(m).1 is Ok ==> execute_outcome(m).0.executed,
        execute_outcome(m).1 is Err ==> execute_outcome(m).0 == m,
{
}

/// A proposal leaves no approvals and an action not executed, whatever
/// the record held before.
pub proof fn lemma_propose_resets(m: MultiSig)
    ensures
        propose_outcome(m).approvals == 0,
        !propose_outcome(m).executed,
{
}

/// A transition that fails leaves the record exactly as it was.
pub proof fn lemma_failure_writes_nothing(m: MultiSig, id: Identity)
    ensures
        approve_outcome(m, id).1 is Err ==> approve_outcome(m, id).0 == m,
        execute_outcome(m).1 is Err ==> execute_outcome(m).0 == m,
{
}

/// Every transition that succeeds keeps the record well formed, and none
/// changes the owners or the threshold.
pub proof fn lemma_transitions_keep_wf(m: MultiSig, id: Identity)
    requires
        m.wf(),
        m.approvals < u8::MAX,
    ensures
        propose_outcome(m).wf(),
        approve_outcome(m, id).0.wf(),
        execute_outcome(m).0.wf(),
        propose_outcome(m).owners == m.owners && propose_outcome(m).threshold == m.threshold,
        approve_outcome(m, id).0.owners == m.owners && approve_outcome(m, id).0.threshold == m.threshold,
        execute_outcome(m).0.owners == m.owners && execute_outcome(m).0.threshold == m.threshold,
{
}

/// Approvals never decrease through an approval or an execution attempt.
pub proof fn lemma_approvals_monotone(m: MultiSig, id: Identity)
    requires
        m.approvals < u8::MAX,
    ensures
        approve_outcome(m, id).0.approvals >= m.approvals,
        execute_outcome(m).0.approvals == m.approvals,
{
}

} // verus!
