//! Validation of entry deletes.
use vstd::prelude::*;
use crate::bytes::bytes_eq;
use crate::outcome::{Checked, Fetched, HostError, Reason, Verdict};
use crate::types::{Delete, EntryTypes, EntryTypesUnit, KeyRegistration};
use crate::validation::update_entry::{registration_anchor, registration_key_anchor};

use crate::key_laws::anchors_key_of;

verus! {

/// What the host gives for the records that the validation of a delete reads.
pub struct DeleteDeps {
    /// The entry type of the deleted create action.
    pub original_unit: Fetched<EntryTypesUnit>,
    /// The entry of the deleted action.
    pub original_entry: Fetched<EntryTypes>,
    /// The entry of the delete's previous action.
    pub prev_entry: Fetched<EntryTypes>,
    /// The entry of the registration that the previous action revokes.
    pub revoked_entry: Fetched<EntryTypes>,
}

/// The rules for deleting a `KeyAnchor`: the previous action is a
/// `KeyRegistration::Delete` that revokes the registration of this anchor.
pub open spec fn anchor_delete_outcome(deps: DeleteDeps) -> Checked {
    match deps.original_entry {
        Err(e) => Err(e),
        Ok(EntryTypes::KeyAnchor(anchor)) => match deps.prev_entry {
            Err(e) => Err(e),
            Ok(EntryTypes::KeyRegistration(KeyRegistration::Delete(_))) => match deps.revoked_entry {
                Err(e) => Err(e),
                Ok(EntryTypes::KeyRegistration(prior_reg)) => match registration_anchor(prior_reg) {
                    Err(e) => Err(e),
                    Ok(bytes) => if bytes != anchor.bytes@ {
                        Ok(Verdict::Invalid(Reason::DeletedAnchorMismatch))
                    } else {
                        Ok(Verdict::Valid)
                    },
                },
                Ok(_) => Err(HostError::Guest(Reason::WrongEntryType)),
            },
            Ok(EntryTypes::KeyRegistration(_)) => Ok(Verdict::Invalid(Reason::AnchorDeleteNotAfterRegistration)),
            Ok(_) => Err(HostError::Guest(Reason::WrongEntryType)),
        },
        Ok(_) => Err(HostError::Guest(Reason::WrongEntryType)),
    }
}

/// The rules for deleting an entry of each type: only a `KeyAnchor` can be
/// deleted.
pub open spec fn delete_outcome(deps: DeleteDeps) -> Checked {
    match deps.original_unit {
        Err(e) => Err(e),
        Ok(EntryTypesUnit::KeysetRoot) => Ok(Verdict::Invalid(Reason::KeysetRootDelete)),
        Ok(EntryTypesUnit::ChangeRule) => Ok(Verdict::Invalid(Reason::ChangeRuleDelete)),
        Ok(EntryTypesUnit::KeyRegistration) => Ok(Verdict::Invalid(Reason::RegistrationDelete)),
        Ok(EntryTypesUnit::KeyAnchor) => anchor_delete_outcome(deps),
        Ok(EntryTypesUnit::KeyMeta) => Ok(Verdict::Invalid(Reason::KeyMetaDelete)),
        Ok(EntryTypesUnit::AppBinding) => Ok(Verdict::Invalid(Reason::AppBindingDelete)),
    }
}

fn validate_delete_anchor(deps: DeleteDeps) -> (r: Checked)
    ensures
        r == anchor_delete_outcome(deps),
        r == Ok::<Verdict, HostError>(Verdict::Valid) ==> {
            &&& deps.original_entry matches Ok(EntryTypes::KeyAnchor(deleted))
                && deps.revoked_entry matches Ok(EntryTypes::KeyRegistration(revoked))
                && anchors_key_of(deleted.bytes@, revoked)
            &&& deps.prev_entry matches Ok(EntryTypes::KeyRegistration(KeyRegistration::Delete(_)))
        },
{
    let anchor = match deps.original_entry {
        Err(e) => {
            return Err(e);
        },
        Ok(EntryTypes::KeyAnchor(anchor)) => anchor,
        Ok(_) => {
            return Err(HostError::Guest(Reason::WrongEntryType));
        },
    };
    match deps.prev_entry {
        Err(e) => {
            return Err(e);
        },
        Ok(EntryTypes::KeyRegistration(KeyRegistration::Delete(_))) => {},
        Ok(EntryTypes::KeyRegistration(_)) => {
            return Ok(Verdict::Invalid(Reason::AnchorDeleteNotAfterRegistration));
        },
        Ok(_) => {
            return Err(HostError::Guest(Reason::WrongEntryType));
        },
    }
    let prior_reg = match deps.revoked_entry {
        Err(e) => {
            return Err(e);
        },
        Ok(EntryTypes::KeyRegistration(prior_reg)) => prior_reg,
        Ok(_) => {
            return Err(HostError::Guest(Reason::WrongEntryType));
        },
    };
    let prior_anchor = match registration_key_anchor(&prior_reg) {
        Ok(a) => a,
        Err(e) => {
            return Err(e);
        },
    };
    if !bytes_eq(&prior_anchor.bytes, &anchor.bytes) {
        return Ok(Verdict::Invalid(Reason::DeletedAnchorMismatch));
    }
    Ok(Verdict::Valid)
}

/// Validates the delete of an entry.  `deps` holds what the host gives for
/// the records that the rules read.
pub fn validation(delete: &Delete, deps: DeleteDeps) -> (r: Checked)
    ensures
        r == delete_outcome(deps),
{
    let unit = match deps.original_unit {
        Err(e) => {
            return Err(e);
        },
        Ok(unit) => unit,
    };
    match unit {
        EntryTypesUnit::KeysetRoot => Ok(Verdict::Invalid(Reason::KeysetRootDelete)),
        EntryTypesUnit::ChangeRule => Ok(Verdict::Invalid(Reason::ChangeRuleDelete)),
        EntryTypesUnit::KeyRegistration => Ok(Verdict::Invalid(Reason::RegistrationDelete)),
        EntryTypesUnit::KeyAnchor => validate_delete_anchor(deps),
        EntryTypesUnit::KeyMeta => Ok(Verdict::Invalid(Reason::KeyMetaDelete)),
        EntryTypesUnit::AppBinding => Ok(Verdict::Invalid(Reason::AppBindingDelete)),
    }
}

} // verus!
