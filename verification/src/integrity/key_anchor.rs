//! The integrity rules for key anchors: each create, update
//! and delete of an anchor follows the registration that it mirrors.
use vstd::prelude::*;
use crate::authority::{key_core, keybytes_from_agentpubkey};
use crate::bytes::bytes_eq;
use crate::outcome::{failed_in_host, HostError, Reason};
use crate::integrity::entry::{KeyAnchor, KeyGeneration, KeyRegistration, KeyRevocation};
use crate::integrity::error::{alike_checked, then_checked, BaseError, Failure, KeyAnchorError, Outcome};
use crate::integrity::record::{
    key_anchor_of, key_registration_of, resolve_dependency, spec_key_anchor_of, spec_key_registration_of, ActionKind,
    Dependency, ValidateData,
};

verus! {

/// The refusal of a key anchor.
pub open spec fn refuse(e: KeyAnchorError) -> Outcome {
    Outcome::Invalid(Failure::KeyAnchor(e))
}

/// What the check that an anchor holds the generated key gives.
pub open spec fn anchor_generation_outcome(anchor: KeyAnchor, kg: KeyGeneration) -> Result<Outcome, HostError> {
    if kg.new_key@.len() != 39 {
        Err(HostError::Guest(Reason::MalformedBytes))
    } else if key_core(kg.new_key@) == anchor.bytes@ {
        Ok(Outcome::Valid)
    } else {
        Ok(refuse(KeyAnchorError::RegistrationWrongKey))
    }
}

/// Checks that an anchor holds the core of the generated key.
pub fn _validate_key_generation(proposed_key_anchor: &KeyAnchor, key_generation: &KeyGeneration) -> (r: Result<Outcome, HostError>)
    ensures
        r == anchor_generation_outcome(*proposed_key_anchor, *key_generation),
{
    let core = match keybytes_from_agentpubkey(&key_generation.new_key) {
        Ok(core) => core,
        Err(e) => {
            return Err(e);
        },
    };
    if bytes_eq(&core, &proposed_key_anchor.bytes) {
        Ok(Outcome::Valid)
    } else {
        Ok(Outcome::Invalid(Failure::KeyAnchor(KeyAnchorError::RegistrationWrongKey)))
    }
}

/// What the check of a revoked anchor against the revoked registration gives.
pub open spec fn anchor_revocation_outcome(anchor: KeyAnchor, kr: KeyRevocation, revoked: Dependency) -> Result<Outcome, HostError> {
    match revoked {
        Dependency::Missing => Ok(Outcome::Unresolved(kr.prior_key_registration)),
        Dependency::Found(el) => match spec_key_registration_of(el.entry, Failure::Base(BaseError::EntryMissing)) {
            Err(f) => Ok(Outcome::Invalid(f)),
            Ok(KeyRegistration::Create(kg)) => anchor_generation_outcome(anchor, kg),
            Ok(KeyRegistration::Update(_, kg)) => anchor_generation_outcome(anchor, kg),
            Ok(_) => Ok(refuse(KeyAnchorError::RegistrationWrongOp)),
        },
    }
}

/// Checks that a revoked anchor holds the key of the registration revoked.
pub fn _validate_key_revocation(revoked_key_anchor: &KeyAnchor, key_revocation: &KeyRevocation, revoked: &Dependency) -> (r: Result<Outcome, HostError>)
    ensures
        alike_checked(r, anchor_revocation_outcome(*revoked_key_anchor, *key_revocation, *revoked)),
{
    let el = match resolve_dependency(&key_revocation.prior_key_registration, revoked) {
        Ok(el) => el,
        Err(o) => {
            return Ok(o);
        },
    };
    match key_registration_of(el, Failure::Base(BaseError::EntryMissing)) {
        Err(f) => Ok(Outcome::Invalid(f)),
        Ok(KeyRegistration::Create(kg)) | Ok(KeyRegistration::Update(_, kg)) => _validate_key_generation(revoked_key_anchor, kg),
        Ok(_) => Ok(Outcome::Invalid(Failure::KeyAnchor(KeyAnchorError::RegistrationWrongOp))),
    }
}

/// What validating a created anchor gives: the action before it must
/// create a `Create` or `CreateOnly` registration of the anchored key.
pub open spec fn create_anchor_outcome(vd: ValidateData, previous: Dependency) -> Result<Outcome, HostError> {
    match spec_key_anchor_of(vd.element.entry, Failure::Base(BaseError::EntryMissing)) {
        Err(f) => Ok(Outcome::Invalid(f)),
        Ok(anchor) => match vd.element.action.prev_action {
            None => Ok(refuse(KeyAnchorError::RegistrationNone)),
            Some(prev) => match previous {
                Dependency::Missing => Ok(Outcome::Unresolved(prev)),
                Dependency::Found(pel) => match spec_key_registration_of(pel.entry, Failure::Base(BaseError::EntryMissing)) {
                    Err(f) => Ok(Outcome::Invalid(f)),
                    Ok(reg) => if !(pel.action.kind is Create) {
                        Ok(refuse(KeyAnchorError::RegistrationWrongHeader))
                    } else {
                        match reg {
                            KeyRegistration::Create(kg) => anchor_generation_outcome(anchor, kg),
                            KeyRegistration::CreateOnly(kg) => anchor_generation_outcome(anchor, kg),
                            _ => Ok(refuse(KeyAnchorError::RegistrationWrongOp)),
                        }
                    },
                },
            },
        },
    }
}

/// Validates a created key anchor.
pub fn validate_create_entry_key_anchor(validate_data: &ValidateData, previous: &Dependency) -> (r: Result<Outcome, HostError>)
    ensures
        alike_checked(r, create_anchor_outcome(*validate_data, *previous)),
{
    let anchor = match key_anchor_of(&validate_data.element, Failure::Base(BaseError::EntryMissing)) {
        Ok(a) => a,
        Err(f) => {
            return Ok(Outcome::Invalid(f));
        },
    };
    match &validate_data.element.action.prev_action {
        Some(prev) => {
            let pel = match resolve_dependency(prev, previous) {
                Ok(el) => el,
                Err(o) => {
                    return Ok(o);
                },
            };
            let reg = match key_registration_of(pel, Failure::Base(BaseError::EntryMissing)) {
                Ok(reg) => reg,
                Err(f) => {
                    return Ok(Outcome::Invalid(f));
                },
            };
            match pel.action.kind {
                ActionKind::Create => match reg {
                    KeyRegistration::Create(kg) | KeyRegistration::CreateOnly(kg) => _validate_key_generation(anchor, kg),
                    _ => Ok(Outcome::Invalid(Failure::KeyAnchor(KeyAnchorError::RegistrationWrongOp))),
                },
                _ => Ok(Outcome::Invalid(Failure::KeyAnchor(KeyAnchorError::RegistrationWrongHeader))),
            }
        },
        None => Ok(Outcome::Invalid(Failure::KeyAnchor(KeyAnchorError::RegistrationNone))),
    }
}

/// The records that the update of a key anchor reads.
pub struct AnchorUpdateDeps {
    /// The action before the anchor: the registration update.
    pub previous: Dependency,
    /// The anchor that the update replaces.
    pub original_anchor: Dependency,
    /// The registration that the registration update revokes.
    pub revoked_registration: Dependency,
}

/// What validating an updated anchor gives: the action before it must
/// update a registration with `Update`, whose new key the anchor holds and
/// whose revoked registration held the replaced anchor's key.
pub open spec fn update_anchor_outcome(vd: ValidateData, deps: AnchorUpdateDeps) -> Result<Outcome, HostError> {
    match spec_key_anchor_of(vd.element.entry, Failure::Base(BaseError::EntryMissing)) {
        Err(f) => Ok(Outcome::Invalid(f)),
        Ok(anchor) => match vd.element.action.prev_action {
            None => Ok(refuse(KeyAnchorError::RegistrationNone)),
            Some(prev) => match deps.previous {
                Dependency::Missing => Ok(Outcome::Unresolved(prev)),
                Dependency::Found(pel) => match spec_key_registration_of(pel.entry, Failure::Base(BaseError::EntryMissing)) {
                    Err(f) => Ok(Outcome::Invalid(f)),
                    Ok(reg) => if !(pel.action.kind is Update) {
                        Ok(refuse(KeyAnchorError::RegistrationWrongHeader))
                    } else {
                        match reg {
                            KeyRegistration::Update(kr, kg) => then_checked(
                                anchor_generation_outcome(anchor, kg),
                                match vd.element.action.kind {
                                    ActionKind::Update { original_action_address } => match deps.original_anchor {
                                        Dependency::Missing => Ok(Outcome::Unresolved(original_action_address)),
                                        Dependency::Found(oel) => match spec_key_anchor_of(oel.entry, Failure::Base(BaseError::EntryMissing)) {
                                            Err(f) => Ok(Outcome::Invalid(f)),
                                            Ok(updated) => anchor_revocation_outcome(updated, kr, deps.revoked_registration),
                                        },
                                    },
                                    _ => Ok(refuse(KeyAnchorError::RegistrationWrongHeader)),
                                },
                            ),
                            _ => Ok(refuse(KeyAnchorError::RegistrationWrongOp)),
                        }
                    },
                },
            },
        },
    }
}

/// Validates an updated key anchor.
pub fn validate_update_entry_key_anchor(validate_data: &ValidateData, deps: &AnchorUpdateDeps) -> (r: Result<Outcome, HostError>)
    ensures
        alike_checked(r, update_anchor_outcome(*validate_data, *deps)),
{
    let anchor = match key_anchor_of(&validate_data.element, Failure::Base(BaseError::EntryMissing)) {
        Ok(a) => a,
        Err(f) => {
            return Ok(Outcome::Invalid(f));
        },
    };
    let prev = match &validate_data.element.action.prev_action {
        Some(prev) => prev,
        None => {
            return Ok(Outcome::Invalid(Failure::KeyAnchor(KeyAnchorError::RegistrationNone)));
        },
    };
    let pel = match resolve_dependency(prev, &deps.previous) {
        Ok(el) => el,
        Err(o) => {
            return Ok(o);
        },
    };
    let reg = match key_registration_of(pel, Failure::Base(BaseError::EntryMissing)) {
        Ok(reg) => reg,
        Err(f) => {
            return Ok(Outcome::Invalid(f));
        },
    };
    if !matches!(pel.action.kind, ActionKind::Update { .. }) {
        return Ok(Outcome::Invalid(Failure::KeyAnchor(KeyAnchorError::RegistrationWrongHeader)));
    }
    match reg {
        KeyRegistration::Update(kr, kg) => {
            match _validate_key_generation(anchor, kg) {
                Ok(Outcome::Valid) => {},
                other => {
                    return other;
                },
            }
            match &validate_data.element.action.kind {
                ActionKind::Update { original_action_address } => {
                    let oel = match resolve_dependency(original_action_address, &deps.original_anchor) {
                        Ok(el) => el,
                        Err(o) => {
                            return Ok(o);
                        },
                    };
                    match key_anchor_of(oel, Failure::Base(BaseError::EntryMissing)) {
                        Ok(updated) => _validate_key_revocation(updated, kr, &deps.revoked_registration),
                        Err(f) => Ok(Outcome::Invalid(f)),
                    }
                },
                _ => Ok(Outcome::Invalid(Failure::KeyAnchor(KeyAnchorError::RegistrationWrongHeader))),
            }
        },
        _ => Ok(Outcome::Invalid(Failure::KeyAnchor(KeyAnchorError::RegistrationWrongOp))),
    }
}

/// The records that the delete of a key anchor reads.
pub struct AnchorDeleteDeps {
    /// The action before the delete: the delete of the registration revocation.
    pub previous: Dependency,
    /// The deleted anchor.
    pub deleted_anchor: Dependency,
    /// The registration that the previous action deletes.
    pub deleted_registration: Dependency,
    /// The registration that the deleted registration revokes.
    pub revoked_registration: Dependency,
}

/// What validating a deleted anchor gives: the action before it must delete
/// a registration update that is a `Delete`, whose revoked registration
/// held the deleted anchor's key.
pub open spec fn delete_anchor_outcome(vd: ValidateData, deps: AnchorDeleteDeps) -> Result<Outcome, HostError> {
    match vd.element.action.prev_action {
        None => Ok(refuse(KeyAnchorError::RegistrationNone)),
        Some(prev) => match deps.previous {
            Dependency::Missing => Ok(Outcome::Unresolved(prev)),
            Dependency::Found(pel) => match vd.element.action.kind {
                ActionKind::Delete { deletes_address } => match deps.deleted_anchor {
                    Dependency::Missing => Ok(Outcome::Unresolved(deletes_address)),
                    Dependency::Found(ael) => match spec_key_anchor_of(ael.entry, Failure::Base(BaseError::EntryMissing)) {
                        Err(f) => Ok(Outcome::Invalid(f)),
                        Ok(anchor) => match pel.action.kind {
                            ActionKind::Delete { deletes_address: reg_addr } => match deps.deleted_registration {
                                Dependency::Missing => Ok(Outcome::Unresolved(reg_addr)),
                                Dependency::Found(rel) => match spec_key_registration_of(rel.entry, Failure::Base(BaseError::EntryMissing)) {
                                    Err(f) => Ok(Outcome::Invalid(f)),
                                    Ok(reg) => if !(rel.action.kind is Update) {
                                        Ok(refuse(KeyAnchorError::RegistrationWrongHeader))
                                    } else {
                                        match reg {
                                            KeyRegistration::Delete(kr) => anchor_revocation_outcome(anchor, kr, deps.revoked_registration),
                                            _ => Ok(refuse(KeyAnchorError::RegistrationWrongOp)),
                                        }
                                    },
                                },
                            },
                            _ => Ok(refuse(KeyAnchorError::RegistrationWrongHeader)),
                        },
                    },
                },
                _ => Ok(refuse(KeyAnchorError::RegistrationWrongHeader)),
            },
        },
    }
}

/// Validates a deleted key anchor.
pub fn validate_delete_entry_key_anchor(validate_data: &ValidateData, deps: &AnchorDeleteDeps) -> (r: Result<Outcome, HostError>)
    ensures
        alike_checked(r, delete_anchor_outcome(*validate_data, *deps)),
{
    let prev = match &validate_data.element.action.prev_action {
        Some(prev) => prev,
        None => {
            return Ok(Outcome::Invalid(Failure::KeyAnchor(KeyAnchorError::RegistrationNone)));
        },
    };
    let pel = match resolve_dependency(prev, &deps.previous) {
        Ok(el) => el,
        Err(o) => {
            return Ok(o);
        },
    };
    let anchor = match &validate_data.element.action.kind {
        ActionKind::Delete { deletes_address } => {
            let ael = match resolve_dependency(deletes_address, &deps.deleted_anchor) {
                Ok(el) => el,
                Err(o) => {
                    return Ok(o);
                },
            };
            match key_anchor_of(ael, Failure::Base(BaseError::EntryMissing)) {
                Ok(a) => a,
                Err(f) => {
                    return Ok(Outcome::Invalid(f));
                },
            }
        },
        _ => {
            return Ok(Outcome::Invalid(Failure::KeyAnchor(KeyAnchorError::RegistrationWrongHeader)));
        },
    };
    match &pel.action.kind {
        ActionKind::Delete { deletes_address } => {
            let rel = match resolve_dependency(deletes_address, &deps.deleted_registration) {
                Ok(el) => el,
                Err(o) => {
                    return Ok(o);
                },
            };
            let reg = match key_registration_of(rel, Failure::Base(BaseError::EntryMissing)) {
                Ok(reg) => reg,
                Err(f) => {
                    return Ok(Outcome::Invalid(f));
                },
            };
            match rel.action.kind {
                ActionKind::Update { .. } => match reg {
                    KeyRegistration::Delete(kr) => _validate_key_revocation(anchor, kr, &deps.revoked_registration),
                    _ => Ok(Outcome::Invalid(Failure::KeyAnchor(KeyAnchorError::RegistrationWrongOp))),
                },
                _ => Ok(Outcome::Invalid(Failure::KeyAnchor(KeyAnchorError::RegistrationWrongHeader))),
            }
        },
        _ => Ok(Outcome::Invalid(Failure::KeyAnchor(KeyAnchorError::RegistrationWrongHeader))),
    }
}

impl KeyAnchor {
    /// The anchor of a generated key: the core of the new key.
    pub fn from_generation(key_generation: &KeyGeneration) -> (r: Result<KeyAnchor, HostError>)
        ensures
            key_generation.new_key@.len() == 39 ==> (r matches Ok(a) && a.bytes@ == key_core(key_generation.new_key@)),
            key_generation.new_key@.len() != 39 ==> (r matches Err(HostError::Guest(Reason::MalformedBytes))),
    {
        match keybytes_from_agentpubkey(&key_generation.new_key) {
            Ok(bytes) => Ok(KeyAnchor { bytes }),
            Err(e) => Err(e),
        }
    }

    /// The anchored bytes.
    pub fn as_ref(&self) -> (r: &Vec<u8>)
        ensures
            *r == self.bytes,
    {
        &self.bytes
    }
}

} // verus!
