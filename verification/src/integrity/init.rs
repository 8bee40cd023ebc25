//! The joining proof of the integrity rules: the first entry after genesis.
use vstd::prelude::*;
use crate::integrity::entry::{JoiningProof, JOINING_PROOF_CHAIN_INDEX};
use crate::integrity::error::{BaseError, Failure, Outcome};
use crate::integrity::record::{joining_proof_of, spec_joining_proof_of, Action, ActionKind, ValidateData};

verus! {

/// What confirming a joining proof's action gives: it is created at its
/// chain position and never updated or deleted.
pub open spec fn joining_proof_outcome(action: Action) -> Outcome {
    match action.kind {
        ActionKind::Create => if action.action_seq == JOINING_PROOF_CHAIN_INDEX {
            Outcome::Valid
        } else {
            Outcome::Invalid(Failure::Base(BaseError::JoiningProofPosition))
        },
        ActionKind::Update { .. } => Outcome::Invalid(Failure::Base(BaseError::UpdateJoiningProof)),
        ActionKind::Delete { .. } => Outcome::Invalid(Failure::Base(BaseError::DeleteJoiningProof)),
        _ => Outcome::Invalid(Failure::JoiningProofAction),
    }
}

/// Confirms the action that commits a joining proof.
pub fn confirm_action_joining_proof(action: &Action, joining_proof: &JoiningProof) -> (r: Outcome)
    ensures
        r == joining_proof_outcome(*action),
{
    match action.kind {
        ActionKind::Create => if action.action_seq == JOINING_PROOF_CHAIN_INDEX {
            Outcome::Valid
        } else {
            Outcome::Invalid(Failure::Base(BaseError::JoiningProofPosition))
        },
        ActionKind::Update { .. } => Outcome::Invalid(Failure::Base(BaseError::UpdateJoiningProof)),
        ActionKind::Delete { .. } => Outcome::Invalid(Failure::Base(BaseError::DeleteJoiningProof)),
        _ => Outcome::Invalid(Failure::JoiningProofAction),
    }
}

/// Validates a created joining proof.
pub fn validate_create_entry_joining_proof(validate_data: &ValidateData) -> (r: Outcome)
    ensures
        r == match spec_joining_proof_of(validate_data.element.entry, Failure::Base(BaseError::EntryMissing)) {
            Ok(_) => joining_proof_outcome(validate_data.element.action),
            Err(f) => Outcome::Invalid(f),
        },
{
    match joining_proof_of(&validate_data.element, Failure::Base(BaseError::EntryMissing)) {
        Ok(jp) => confirm_action_joining_proof(&validate_data.element.action, jp),
        Err(f) => Outcome::Invalid(f),
    }
}

} // verus!
