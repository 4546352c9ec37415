use vstd::prelude::*;
use crate::error::MultiSigError;
use crate::instruction::MultiSigInstruction;
use crate::state::{is_owner, valid_config, Identity, MultiSig};

verus! {

/// The outcome of creating a record from `owners` and `threshold`.
pub open spec fn create_outcome(owners: Vec<Identity>, threshold: u8) -> Result<MultiSig, MultiSigError> {
    if valid_config(owners@.len(), threshold as nat) {
        Ok(MultiSig { owners, threshold, approvals: 0, executed: false })
    } else {
        Err(MultiSigError::InvalidConfiguration)
    }
}

/// The record after a new proposal: the tally restarts, owners and threshold stay.
pub open spec fn propose_outcome(m: MultiSig) -> MultiSig {
    MultiSig { owners: m.owners, threshold: m.threshold, approvals: 0, executed: false }
}

/// The record and result of an approval by `id`.
pub open spec fn approve_outcome(m: MultiSig, id: Identity) -> (MultiSig, Result<(), MultiSigError>) {
    if is_owner(m.owners@, id) {
        (
            MultiSig {
                owners: m.owners,
                threshold: m.threshold,
                approvals: (m.approvals + 1) as u8,
                executed: m.executed,
            },
            Ok(()),
        )
    } else {
        (m, Err(MultiSigError::NotOwner))
    }
}

/// The record and result of an execution attempt.
pub open spec fn execute_outcome(m: MultiSig) -> (MultiSig, Result<(), MultiSigError>) {
    if m.approvals >= m.threshold {
        (
            MultiSig {
                owners: m.owners,
                threshold: m.threshold,
                approvals: m.approvals,
                executed: true,
            },
            Ok(()),
        )
    } else {
        (m, Err(MultiSigError::InsufficientApprovals))
    }
}

/// The four transitions of an authorization record.
pub struct Processor;

impl Processor {
    /// Routes a decoded request to its transition. On failure the record is
    /// left as it was.
    pub fn process(record: &mut MultiSig, instruction: MultiSigInstruction, signer: &Identity) -> (r: Result<(), MultiSigError>)
        requires
            instruction is Approve ==> old(record).approvals < u8::MAX,
        ensures
            match instruction {
                MultiSigInstruction::Initialize { owners, threshold } => match create_outcome(owners, threshold) {
                    Ok(m) => *final(record) == m && r is Ok,
                    Err(e) => *final(record) == *old(record) && r == Err::<(), MultiSigError>(e),
                },
                MultiSigInstruction::SubmitTransaction { .. } =>
                    *final(record) == propose_outcome(*old(record)) && r is Ok,
                MultiSigInstruction::Approve { .. } =>
                    (*final(record), r) == approve_outcome(*old(record), *signer),
                MultiSigInstruction::Execute { .. } =>
                    (*final(record), r) == execute_outcome(*old(record)),
            },
    {
        match instruction {
            MultiSigInstruction::Initialize { owners, threshold } => {
                match Self::process_initialize(owners, threshold) {
                    Ok(m) => {
                        *record = m;
                        Ok(())
                    },
                    Err(e) => Err(e),
                }
            },
            MultiSigInstruction::SubmitTransaction { transaction_id } => {
                Self::process_submit_transaction(record, transaction_id);
                Ok(())
            },
            MultiSigInstruction::Approve { transaction_id } => {
                Self::process_approve(record, signer, transaction_id)
            },
            MultiSigInstruction::Execute { transaction_id } => {
                Self::process_execute(record, transaction_id)
            },
        }
    }

    /// Creates a record with no approvals, refusing a threshold of zero or
    /// one above the number of owners.
    pub fn process_initialize(owners: Vec<Identity>, threshold: u8) -> (r: Result<MultiSig, MultiSigError>)
        ensures
            r == create_outcome(owners, threshold),
            r is Ok <==> valid_config(owners@.len(), threshold as nat),
            r is Ok ==> r->Ok_0.wf(),
    {
        if threshold == 0 || owners.len() < threshold as usize {
            return Err(MultiSigError::InvalidConfiguration);
        }
        Ok(MultiSig { owners, threshold, approvals: 0, executed: false })
    }

    /// Starts a new round of voting: the tally and the executed flag are
    /// reset whatever their state. The proposal's identifier is not kept.
    pub fn process_submit_transaction(record: &mut MultiSig, transaction_id: u64)
        ensures
            *final(record) == propose_outcome(*old(record)),
            old(record).wf() ==> final(record).wf(),
    {
        record.approvals = 0;
        record.executed = false;
    }

    /// Counts one approval by `signer`, who must be an owner.
    pub fn process_approve(record: &mut MultiSig, signer: &Identity, transaction_id: u64) -> (r: Result<(), MultiSigError>)
        requires
            old(record).approvals < u8::MAX,
        ensures
            (*final(record), r) == approve_outcome(*old(record), *signer),
            r is Ok <==> is_owner(old(record).owners@, *signer),
            old(record).wf() ==> final(record).wf(),
    {
        if !record.has_owner(signer) {
            return Err(MultiSigError::NotOwner);
        }
        record.approvals = record.approvals + 1;
        Ok(())
    }

    /// Marks the action executed once the approvals reach the threshold.
    pub fn process_execute(record: &mut MultiSig, transaction_id: u64) -> (r: Result<(), MultiSigError>)
        ensures
            (*final(record), r) == execute_outcome(*old(record)),
            r is Ok <==> old(record).approvals >= old(record).threshold,
            old(record).wf() ==> final(record).wf(),
    {
        if record.approvals < record.threshold {
            return Err(MultiSigError::InsufficientApprovals);
        }
        record.executed = true;
        Ok(())
    }
}

} // verus!
