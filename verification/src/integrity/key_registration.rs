//! The integrity rules for key registrations: a new key is
//! generated by the author's generator and signs the author; a revocation
//! is authorized under the change rule of the revoked key's generator.
use vstd::prelude::*;
use crate::authority::{key_core, keybytes_from_agentpubkey, signature_input_ok, verify_key_signature};
use crate::bytes::{bytes_eq, clone_bytes};
use crate::host::signature_verifies;
use crate::outcome::{failed_in_host, HostError, Reason};
use crate::integrity::entry::{ChangeRule, Generator, KeyGeneration, KeyRegistration, KeyRevocation};
use crate::integrity::error::{alike, alike_checked, then_checked, BaseError, ChangeRuleError, Failure, KeyRegistrationError, Outcome};
use crate::integrity::change_rule::{authorize_reaches_host, authorize_result, refused_by_host};
use crate::integrity::record::{
    change_rule_of, generator_of, key_registration_of, resolve_dependency, spec_change_rule_of, spec_generator_of,
    spec_key_registration_of, ActionKind, Dependency, Element, ValidateData,
};

verus! {

/// The refusal of a key registration.
pub open spec fn refuse(e: KeyRegistrationError) -> Outcome {
    Outcome::Invalid(Failure::KeyRegistration(e))
}

/// Whether the check that the new key signs the author asks the host: the
/// author is a 39-byte key, and the new key and its signature pass the
/// library's own checks.
pub open spec fn self_signing_reaches_host(vd: ValidateData, kg: KeyGeneration) -> bool {
    vd.element.action.author@.len() == 39 && signature_input_ok(kg.new_key@, kg.new_key_signing_of_author@)
}

/// What the check that the new key signs the author gives.
pub open spec fn self_signing_outcome(vd: ValidateData, kg: KeyGeneration) -> Result<Outcome, HostError> {
    let author = vd.element.action.author@;
    if !self_signing_reaches_host(vd, kg) {
        Err(HostError::Guest(Reason::MalformedBytes))
    } else if signature_verifies(kg.new_key@, kg.new_key_signing_of_author@, key_core(author)) {
        Ok(Outcome::Valid)
    } else {
        Ok(refuse(KeyRegistrationError::BadSelfSignature))
    }
}

/// Checks that the new key signs the author's key core.
pub fn _validate_key_self_signing(validate_data: &ValidateData, key_generation: &KeyGeneration) -> (r: Result<Outcome, HostError>)
    ensures
        r == self_signing_outcome(*validate_data, *key_generation)
            || (self_signing_reaches_host(*validate_data, *key_generation) && failed_in_host(r)),
{
    let author_core = match keybytes_from_agentpubkey(&validate_data.element.action.author) {
        Ok(core) => core,
        Err(e) => {
            return Err(e);
        },
    };
    match verify_key_signature(&key_generation.new_key, &key_generation.new_key_signing_of_author, author_core) {
        Ok(true) => Ok(Outcome::Valid),
        Ok(false) => Ok(Outcome::Invalid(Failure::KeyRegistration(KeyRegistrationError::BadSelfSignature))),
        Err(e) => Err(e),
    }
}

/// What the check that the generator signs the new key gives.
pub open spec fn generator_signature_outcome(g: Generator, kg: KeyGeneration) -> Result<Outcome, HostError> {
    if !signature_input_ok(g.change.new_key@, kg.generator_signature@) {
        Err(HostError::Guest(Reason::MalformedBytes))
    } else if signature_verifies(g.change.new_key@, kg.generator_signature@, kg.new_key@) {
        Ok(Outcome::Valid)
    } else {
        Ok(refuse(KeyRegistrationError::BadGeneratorSignature))
    }
}

/// What the check of a key generation gives: its generator must be had and
/// committed by the same author, the new key must sign the author, and the
/// generator's key must sign the new key.
pub open spec fn generation_outcome(vd: ValidateData, kg: KeyGeneration, generator: Dependency) -> Result<Outcome, HostError> {
    match generator {
        Dependency::Missing => Ok(Outcome::Unresolved(kg.generator)),
        Dependency::Found(gel) => match spec_generator_of(gel.entry, Failure::Base(BaseError::EntryMissing)) {
            Err(f) => Ok(Outcome::Invalid(f)),
            Ok(g) => if gel.action.author@ != vd.element.action.author@ {
                Ok(refuse(KeyRegistrationError::BadAuthor))
            } else {
                then_checked(self_signing_outcome(vd, kg), generator_signature_outcome(g, kg))
            },
        },
    }
}

/// Whether the check of a key generation asks the host: the generator is
/// had, decodes and has the same author, and the self-signing check is
/// reached.
pub open spec fn generation_reaches_host(vd: ValidateData, kg: KeyGeneration, generator: Dependency) -> bool {
    match generator {
        Dependency::Missing => false,
        Dependency::Found(gel) => spec_generator_of(gel.entry, Failure::Base(BaseError::EntryMissing)) is Ok
            && gel.action.author@ == vd.element.action.author@
            && self_signing_reaches_host(vd, kg),
    }
}

/// Checks a key generation against its generator.  A host failure can
/// only come once the signature checks are reached.
pub fn _validate_key_generation(validate_data: &ValidateData, key_generation: &KeyGeneration, generator: &Dependency) -> (r: Result<Outcome, HostError>)
    ensures
        alike_checked(r, generation_outcome(*validate_data, *key_generation, *generator))
            || (generation_reaches_host(*validate_data, *key_generation, *generator) && failed_in_host(r)),
{
    let generator_element = match resolve_dependency(&key_generation.generator, generator) {
        Ok(el) => el,
        Err(o) => {
            return Ok(o);
        },
    };
    let gen = match generator_of(generator_element, Failure::Base(BaseError::EntryMissing)) {
        Ok(g) => g,
        Err(f) => {
            return Ok(Outcome::Invalid(f));
        },
    };
    if !bytes_eq(&generator_element.action.author, &validate_data.element.action.author) {
        return Ok(Outcome::Invalid(Failure::KeyRegistration(KeyRegistrationError::BadAuthor)));
    }
    match _validate_key_self_signing(validate_data, key_generation) {
        Ok(Outcome::Valid) => {},
        other => {
            return other;
        },
    }
    match verify_key_signature(gen.as_change_ref().as_new_key_ref(), &key_generation.generator_signature, clone_bytes(&key_generation.new_key)) {
        Ok(true) => Ok(Outcome::Valid),
        Ok(false) => Ok(Outcome::Invalid(Failure::KeyRegistration(KeyRegistrationError::BadGeneratorSignature))),
        Err(e) => Err(e),
    }
}

/// What the check of a revocation under the revoked key's change rule
/// gives: the action must update the revoked registration, and the
/// revocation's signatures must authorize the core of the revoked
/// registration's hash under the rule.
pub open spec fn revocation_outcome(vd: ValidateData, rule: ChangeRule, kr: KeyRevocation) -> Result<Outcome, HostError> {
    match vd.element.action.kind {
        ActionKind::Update { original_action_address } => if original_action_address@ != kr.prior_key_registration@ {
            Ok(refuse(KeyRegistrationError::BadHeaderRef))
        } else if kr.prior_key_registration@.len() != 39 {
            Err(HostError::Guest(Reason::MalformedBytes))
        } else {
            match authorize_result(rule, kr.revocation_authorization@, key_core(kr.prior_key_registration@)) {
                Ok(_) => Ok(Outcome::Valid),
                Err(e) => Ok(Outcome::Invalid(Failure::ChangeRule(e))),
            }
        },
        _ => Ok(refuse(KeyRegistrationError::BadOp)),
    }
}

/// Whether the check of a revocation asks the host: the action updates the
/// revoked registration, whose address has 39 bytes, and the rule's
/// authorization reaches the host.
pub open spec fn revocation_reaches_host(vd: ValidateData, rule: ChangeRule, kr: KeyRevocation) -> bool {
    &&& (vd.element.action.kind matches ActionKind::Update { original_action_address }
        && original_action_address@ == kr.prior_key_registration@)
    &&& kr.prior_key_registration@.len() == 39
    &&& authorize_reaches_host(rule, kr.revocation_authorization@)
}

/// Checks a revocation under the change rule of the revoked key.  A host
/// failure can only come from the rule's signature checks.
pub fn _validate_key_revocation(validate_data: &ValidateData, prior_key_change_rule: &ChangeRule, key_revocation: &KeyRevocation) -> (r: Result<Outcome, HostError>)
    ensures
        r == revocation_outcome(*validate_data, *prior_key_change_rule, *key_revocation)
            || (revocation_reaches_host(*validate_data, *prior_key_change_rule, *key_revocation) && refused_by_host(r)),
{
    match &validate_data.element.action.kind {
        ActionKind::Update { original_action_address } => {
            if !bytes_eq(original_action_address, &key_revocation.prior_key_registration) {
                return Ok(Outcome::Invalid(Failure::KeyRegistration(KeyRegistrationError::BadHeaderRef)));
            }
        },
        _ => {
            return Ok(Outcome::Invalid(Failure::KeyRegistration(KeyRegistrationError::BadOp)));
        },
    }
    let revoked_core = match keybytes_from_agentpubkey(&key_revocation.prior_key_registration) {
        Ok(core) => core,
        Err(e) => {
            return Err(e);
        },
    };
    match prior_key_change_rule.authorize(&key_revocation.revocation_authorization, &revoked_core) {
        Ok(_) => Ok(Outcome::Valid),
        Err(e) => Ok(Outcome::Invalid(Failure::ChangeRule(e))),
    }
}

/// What validating a created key registration gives.
pub open spec fn create_registration_outcome(vd: ValidateData, generator: Dependency) -> Result<Outcome, HostError> {
    match spec_key_registration_of(vd.element.entry, Failure::Base(BaseError::EntryMissing)) {
        Err(f) => Ok(Outcome::Invalid(f)),
        Ok(KeyRegistration::Create(kg)) => generation_outcome(vd, kg, generator),
        Ok(KeyRegistration::CreateOnly(kg)) => generation_outcome(vd, kg, generator),
        Ok(_) => Ok(refuse(KeyRegistrationError::BadOp)),
    }
}

/// Whether validating a created key registration asks the host: it is a
/// `Create` or `CreateOnly` whose generation check reaches the host.
pub open spec fn create_registration_reaches_host(vd: ValidateData, generator: Dependency) -> bool {
    match spec_key_registration_of(vd.element.entry, Failure::Base(BaseError::EntryMissing)) {
        Ok(KeyRegistration::Create(kg)) => generation_reaches_host(vd, kg, generator),
        Ok(KeyRegistration::CreateOnly(kg)) => generation_reaches_host(vd, kg, generator),
        _ => false,
    }
}

/// Validates a created key registration: a `Create` or `CreateOnly` whose
/// generation checks out.  A host failure can only come from the signature
/// checks of the generation.
pub fn validate_create_entry_key_registration(validate_data: &ValidateData, generator: &Dependency) -> (r: Result<Outcome, HostError>)
    ensures
        alike_checked(r, create_registration_outcome(*validate_data, *generator))
            || (create_registration_reaches_host(*validate_data, *generator) && failed_in_host(r)),
{
    let proposed = match key_registration_of(&validate_data.element, Failure::Base(BaseError::EntryMissing)) {
        Ok(reg) => reg,
        Err(f) => {
            return Ok(Outcome::Invalid(f));
        },
    };
    match proposed {
        KeyRegistration::Create(kg) | KeyRegistration::CreateOnly(kg) => _validate_key_generation(validate_data, kg, generator),
        _ => Ok(Outcome::Invalid(Failure::KeyRegistration(KeyRegistrationError::BadOp))),
    }
}

/// The records that the update of a key registration reads.
pub struct RegistrationUpdateDeps {
    /// The revoked registration.
    pub prior_registration: Dependency,
    /// The generator of the revoked registration's key.
    pub prior_generator: Dependency,
    /// The change rule of that generator.
    pub prior_change_rule: Dependency,
    /// The generator of the new key, for an `Update`.
    pub generator: Dependency,
}

/// The revocation that an updated registration makes, if it makes one.
pub open spec fn revocation_of(reg: KeyRegistration) -> Option<KeyRevocation> {
    match reg {
        KeyRegistration::Update(kr, _) => Some(kr),
        KeyRegistration::Delete(kr) => Some(kr),
        _ => None,
    }
}

/// What the check of the revoked registration gives.
pub open spec fn prior_outcome(vd: ValidateData, kr: KeyRevocation, deps: RegistrationUpdateDeps) -> Result<Outcome, HostError> {
    match deps.prior_registration {
        Dependency::Missing => Ok(Outcome::Unresolved(kr.prior_key_registration)),
        Dependency::Found(pel) => match spec_key_registration_of(pel.entry, Failure::Base(BaseError::EntryMissing)) {
            Err(f) => Ok(Outcome::Invalid(f)),
            Ok(KeyRegistration::CreateOnly(_)) => Ok(refuse(KeyRegistrationError::CreateOnlyUpdate)),
            Ok(KeyRegistration::Delete(_)) => Ok(refuse(KeyRegistrationError::Tombstone)),
            Ok(prior) => {
                let pkg = match prior {
                    KeyRegistration::Update(_, g) => g,
                    KeyRegistration::Create(g) => g,
                    KeyRegistration::CreateOnly(g) => g,
                    KeyRegistration::Delete(_) => arbitrary(),
                };
                match deps.prior_generator {
                    Dependency::Missing => Ok(Outcome::Unresolved(pkg.generator)),
                    Dependency::Found(gel) => match spec_generator_of(gel.entry, Failure::Base(BaseError::EntryMissing)) {
                        Err(f) => Ok(Outcome::Invalid(f)),
                        Ok(g) => match deps.prior_change_rule {
                            Dependency::Missing => Ok(Outcome::Unresolved(g.change_rule)),
                            Dependency::Found(rel) => match spec_change_rule_of(rel.entry, Failure::Base(BaseError::EntryMissing)) {
                                Err(f) => Ok(Outcome::Invalid(f)),
                                Ok(rule) => revocation_outcome(vd, rule, kr),
                            },
                        },
                    },
                }
            },
        },
    }
}

/// What validating an updated key registration gives.
pub open spec fn update_registration_outcome(vd: ValidateData, deps: RegistrationUpdateDeps) -> Result<Outcome, HostError> {
    match spec_key_registration_of(vd.element.entry, Failure::Base(BaseError::EntryMissing)) {
        Err(f) => Ok(Outcome::Invalid(f)),
        Ok(proposed) => match revocation_of(proposed) {
            None => Ok(refuse(KeyRegistrationError::BadOp)),
            Some(kr) => then_checked(
                prior_outcome(vd, kr, deps),
                match proposed {
                    KeyRegistration::Update(_, kg) => generation_outcome(vd, kg, deps.generator),
                    _ => Ok(Outcome::Valid),
                },
            ),
        },
    }
}

/// Whether the check of the revoked registration asks the host: it and its
/// generator and change rule are had and decode, and the revocation's check
/// reaches the host.
pub open spec fn prior_reaches_host(vd: ValidateData, kr: KeyRevocation, deps: RegistrationUpdateDeps) -> bool {
    match deps.prior_registration {
        Dependency::Missing => false,
        Dependency::Found(pel) => match spec_key_registration_of(pel.entry, Failure::Base(BaseError::EntryMissing)) {
            Ok(KeyRegistration::Create(_)) | Ok(KeyRegistration::Update(_, _)) => match deps.prior_generator {
                Dependency::Missing => false,
                Dependency::Found(gel) => match spec_generator_of(gel.entry, Failure::Base(BaseError::EntryMissing)) {
                    Err(_) => false,
                    Ok(_) => match deps.prior_change_rule {
                        Dependency::Missing => false,
                        Dependency::Found(rel) => match spec_change_rule_of(rel.entry, Failure::Base(BaseError::EntryMissing)) {
                            Err(_) => false,
                            Ok(rule) => revocation_reaches_host(vd, rule, kr),
                        },
                    },
                },
            },
            _ => false,
        },
    }
}

/// Whether validating an updated key registration asks the host: the
/// revocation's check reaches it, or the revocation passes and the new
/// key's generation check reaches it.
pub open spec fn update_registration_reaches_host(vd: ValidateData, deps: RegistrationUpdateDeps) -> bool {
    match spec_key_registration_of(vd.element.entry, Failure::Base(BaseError::EntryMissing)) {
        Err(_) => false,
        Ok(proposed) => match revocation_of(proposed) {
            None => false,
            Some(kr) => prior_reaches_host(vd, kr, deps)
                || (prior_outcome(vd, kr, deps) == Ok::<Outcome, HostError>(Outcome::Valid)
                    && (proposed matches KeyRegistration::Update(_, kg) && generation_reaches_host(vd, kg, deps.generator))),
        },
    }
}

/// A result that a failure of the host decided: a host error, or a refusal
/// of the change rule check that reports one.
pub open spec fn host_decided(r: Result<Outcome, HostError>) -> bool {
    failed_in_host(r) || refused_by_host(r)
}

/// Validates an updated key registration: it must revoke a prior
/// registration that is neither `CreateOnly` nor itself a revocation, under
/// the change rule of that registration's generator; an `Update` must also
/// be a valid generation.  A host failure can only come from the signature
/// checks.
pub fn validate_update_entry_key_registration(validate_data: &ValidateData, deps: &RegistrationUpdateDeps) -> (r: Result<Outcome, HostError>)
    ensures
        alike_checked(r, update_registration_outcome(*validate_data, *deps))
            || (update_registration_reaches_host(*validate_data, *deps) && host_decided(r)),
{
    let proposed = match key_registration_of(&validate_data.element, Failure::Base(BaseError::EntryMissing)) {
        Ok(reg) => reg,
        Err(f) => {
            return Ok(Outcome::Invalid(f));
        },
    };
    let revocation = match proposed {
        KeyRegistration::Update(kr, _) => kr,
        KeyRegistration::Delete(kr) => kr,
        _ => {
            return Ok(Outcome::Invalid(Failure::KeyRegistration(KeyRegistrationError::BadOp)));
        },
    };
    let prior_element = match resolve_dependency(&revocation.prior_key_registration, &deps.prior_registration) {
        Ok(el) => el,
        Err(o) => {
            return Ok(o);
        },
    };
    let prior = match key_registration_of(prior_element, Failure::Base(BaseError::EntryMissing)) {
        Ok(reg) => reg,
        Err(f) => {
            return Ok(Outcome::Invalid(f));
        },
    };
    let prior_generation = match prior {
        KeyRegistration::CreateOnly(_) => {
            return Ok(Outcome::Invalid(Failure::KeyRegistration(KeyRegistrationError::CreateOnlyUpdate)));
        },
        KeyRegistration::Create(g) => g,
        KeyRegistration::Update(_, g) => g,
        KeyRegistration::Delete(_) => {
            return Ok(Outcome::Invalid(Failure::KeyRegistration(KeyRegistrationError::Tombstone)));
        },
    };
    let generator_element = match resolve_dependency(&prior_generation.generator, &deps.prior_generator) {
        Ok(el) => el,
        Err(o) => {
            return Ok(o);
        },
    };
    let prior_generator = match generator_of(generator_element, Failure::Base(BaseError::EntryMissing)) {
        Ok(g) => g,
        Err(f) => {
            return Ok(Outcome::Invalid(f));
        },
    };
    let rule_element = match resolve_dependency(prior_generator.as_change_rule_ref(), &deps.prior_change_rule) {
        Ok(el) => el,
        Err(o) => {
            return Ok(o);
        },
    };
    let prior_rule = match change_rule_of(rule_element, Failure::Base(BaseError::EntryMissing)) {
        Ok(rule) => rule,
        Err(f) => {
            return Ok(Outcome::Invalid(f));
        },
    };
    match _validate_key_revocation(validate_data, prior_rule, revocation) {
        Ok(Outcome::Valid) => {},
        other => {
            return other;
        },
    }
    if let KeyRegistration::Update(_, kg) = proposed {
        match _validate_key_generation(validate_data, kg, &deps.generator) {
            Ok(Outcome::Valid) => {},
            other => {
                return other;
            },
        }
    }
    Ok(Outcome::Valid)
}

/// What validating a deleted key registration gives.
pub open spec fn delete_registration_outcome(vd: ValidateData, deleted: Dependency) -> Outcome {
    match vd.element.action.kind {
        ActionKind::Delete { deletes_address } => match deleted {
            Dependency::Missing => Outcome::Unresolved(deletes_address),
            Dependency::Found(del) => match spec_key_registration_of(del.entry, Failure::Base(BaseError::EntryMissing)) {
                Err(f) => Outcome::Invalid(f),
                Ok(KeyRegistration::Delete(_)) => Outcome::Valid,
                Ok(_) => refuse(KeyRegistrationError::BadOp),
            },
        },
        _ => Outcome::Invalid(Failure::Base(BaseError::WrongHeader)),
    }
}

/// Validates the delete of a key registration: only a registration that is
/// itself a revocation (`Delete`) may be deleted.
pub fn validate_delete_entry_key_registration(validate_data: &ValidateData, deleted: &Dependency) -> (r: Outcome)
    ensures
        alike(r, delete_registration_outcome(*validate_data, *deleted)),
{
    match &validate_data.element.action.kind {
        ActionKind::Delete { deletes_address } => {
            let el = match resolve_dependency(deletes_address, deleted) {
                Ok(el) => el,
                Err(o) => {
                    return o;
                },
            };
            match key_registration_of(el, Failure::Base(BaseError::EntryMissing)) {
                Err(f) => Outcome::Invalid(f),
                Ok(KeyRegistration::Delete(_)) => Outcome::Valid,
                Ok(_) => Outcome::Invalid(Failure::KeyRegistration(KeyRegistrationError::BadOp)),
            }
        },
        _ => Outcome::Invalid(Failure::Base(BaseError::WrongHeader)),
    }
}

} // verus!
