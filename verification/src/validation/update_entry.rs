//! Validation of entry updates.
use vstd::prelude::*;
use crate::authority::{authorizations_outcome, authorizations_reach_host, authorities_result, check_authorities, keybytes_from_agentpubkey};
use crate::bytes::bytes_eq;
use crate::chain::{base_change_rule_addr, base_change_rule_spec, of_type, prev_change_rule, prev_change_rule_spec};
use crate::host::{host_serialize_authority_spec, msgpack_authority_spec, views};
use crate::outcome::{lemma_ok_unit, failed_in_host, Checked, Fetched, HostError, Reason, Verdict};
use crate::types::{Activity, ChangeRule, EntryTypes, EntryTypesUnit, RawHash, KeyAnchor, KeyRegistration, KeyRevocation, Update};
use crate::validation::create_entry::{anchor_of_key, key_generation_check, key_generation_reaches_host, validate_key_generation};

use crate::key_laws::{anchors_key_of, new_key_signed_author};

verus! {

/// What the host gives for the records that the validation of an update reads.
pub struct UpdateDeps {
    /// The entry of the updated (original) action.
    pub original_entry: Fetched<EntryTypes>,
    /// The entry of the update's previous action.
    pub prev_entry: Fetched<EntryTypes>,
    /// The author's chain activity below the update, newest first.
    pub chain: Fetched<Vec<Activity>>,
    /// The author of the registration that the update revokes.
    pub registrant: Fetched<RawHash>,
    /// The author's chain activity from the update's previous action down to
    /// the revoked registration, newest first.
    pub revocation_range: Fetched<Vec<Activity>>,
    /// The entry of the registration that the revocation names.
    pub revoked_entry: Fetched<EntryTypes>,
}

/// The anchor bytes of a registration's key; a `Delete` has none.
pub open spec fn registration_anchor(reg: KeyRegistration) -> Fetched<Seq<u8>> {
    match reg {
        KeyRegistration::Create(key_gen) | KeyRegistration::CreateOnly(key_gen) | KeyRegistration::Update(_, key_gen) =>
            anchor_of_key(key_gen.new_key@),
        KeyRegistration::Delete(_) => Err(HostError::Guest(Reason::RegistrationHasNoKey)),
    }
}

/// The anchor bytes of a registration's key.
pub fn registration_key_anchor(reg: &KeyRegistration) -> (r: Fetched<KeyAnchor>)
    ensures
        match (r, registration_anchor(*reg)) {
            (Ok(anchor), Ok(bytes)) => anchor.bytes@ == bytes,
            (Err(e), Err(spec_e)) => e == spec_e,
            _ => false,
        },
{
    match reg {
        KeyRegistration::Create(key_gen) | KeyRegistration::CreateOnly(key_gen) | KeyRegistration::Update(_, key_gen) =>
            match keybytes_from_agentpubkey(&key_gen.new_key) {
                Ok(bytes) => Ok(KeyAnchor { bytes }),
                Err(e) => Err(e),
            },
        KeyRegistration::Delete(_) => Err(HostError::Guest(Reason::RegistrationHasNoKey)),
    }
}

/// The scan, from position `i` on, for an earlier registration that
/// already revokes `target`.
pub open spec fn revocation_scan(range: Seq<Activity>, target: Seq<u8>, i: int) -> Fetched<()>
    decreases range.len() - i,
{
    if i < 0 || i >= range.len() {
        Ok(())
    } else if !of_type(range[i], EntryTypesUnit::KeyRegistration) {
        revocation_scan(range, target, i + 1)
    } else {
        match range[i].entry {
            Err(e) => Err(e),
            Ok(EntryTypes::KeyRegistration(reg)) => match reg {
                KeyRegistration::Update(rev, _) | KeyRegistration::Delete(rev) =>
                    if rev.prior_key_registration@ == target {
                        Err(HostError::Guest(Reason::AlreadyRevoked))
                    } else {
                        revocation_scan(range, target, i + 1)
                    },
                _ => revocation_scan(range, target, i + 1),
            },
            Ok(_) => Err(HostError::Guest(Reason::WrongEntryType)),
        }
    }
}

/// The count of a list of authorizations, as a `u8`.
pub open spec fn sig_count(n: nat) -> u8 {
    (n % 256) as u8
}

/// The rules for a key revocation: the revoker registered the key, no
/// earlier registration revokes it, and the current change rule's
/// authorities signed the revoked registration's address.
pub open spec fn revocation_outcome(
    key_rev: KeyRevocation,
    update: Update,
    registrant: Fetched<RawHash>,
    revocation_range: Fetched<Vec<Activity>>,
    chain: Fetched<Vec<Activity>>,
) -> Fetched<()> {
    match registrant {
        Err(e) => Err(e),
        Ok(registrant) => if registrant@ != update.author@ {
            Err(HostError::Guest(Reason::RevokerNotRegistrant))
        } else {
            match revocation_range {
                Err(e) => Err(e),
                Ok(range) => match revocation_scan(range@, key_rev.prior_key_registration@, 0) {
                    Err(e) => Err(e),
                    Ok(_) => match chain {
                        Err(e) => Err(e),
                        Ok(chain) => match prev_change_rule_spec(chain@) {
                            Err(e) => Err(e),
                            Ok(None) => Err(HostError::Guest(Reason::NoPriorChangeRule)),
                            Ok(Some(rule)) => {
                                let required = rule.spec_change.new_spec.sigs_required;
                                let count = sig_count(key_rev.revocation_authorization@.len());
                                if count < required {
                                    Err(HostError::Guest(Reason::NotEnoughSignatures { sig_count: count, sigs_required: required }))
                                } else {
                                    authorizations_outcome(
                                        rule.spec_change.new_spec.authorized_signers@,
                                        key_rev.revocation_authorization@,
                                        key_rev.prior_key_registration@,
                                        0,
                                    )
                                }
                            },
                        },
                    },
                },
            }
        },
    }
}

fn scan_revocations(range: &Vec<Activity>, target: &Vec<u8>) -> (r: Fetched<()>)
    ensures
        r == revocation_scan(range@, target@, 0),
{
    let mut i: usize = 0;
    while i < range.len()
        invariant
            i <= range@.len(),
            revocation_scan(range@, target@, 0) == revocation_scan(range@, target@, i as int),
        decreases range@.len() - i,
    {
        if range[i].entry_type == Some(EntryTypesUnit::KeyRegistration) {
            match &range[i].entry {
                Err(HostError::Host) => {
                    return Err(HostError::Host);
                },
                Err(HostError::Guest(reason)) => {
                    return Err(HostError::Guest(reason.duplicate()));
                },
                Ok(EntryTypes::KeyRegistration(reg)) => match reg {
                    KeyRegistration::Update(rev, _) | KeyRegistration::Delete(rev) => {
                        if bytes_eq(&rev.prior_key_registration, target) {
                            return Err(HostError::Guest(Reason::AlreadyRevoked));
                        }
                    },
                    _ => {},
                },
                Ok(_) => {
                    return Err(HostError::Guest(Reason::WrongEntryType));
                },
            }
        }
        i = i + 1;
    }
    Ok(())
}

/// Whether checking a key revocation asks the host to verify a signature:
/// every check before the authorizations passes, and the first
/// authorization passes the library's own checks.
pub open spec fn revocation_reaches_host(
    key_rev: KeyRevocation,
    update: Update,
    registrant: Fetched<RawHash>,
    revocation_range: Fetched<Vec<Activity>>,
    chain: Fetched<Vec<Activity>>,
) -> bool {
    match (registrant, revocation_range, chain) {
        (Ok(registrant), Ok(range), Ok(chain)) => {
            &&& registrant@ == update.author@
            &&& revocation_scan(range@, key_rev.prior_key_registration@, 0) is Ok
            &&& prev_change_rule_spec(chain@) matches Ok(Some(rule))
                && sig_count(key_rev.revocation_authorization@.len()) >= rule.spec_change.new_spec.sigs_required
                && authorizations_reach_host(rule.spec_change.new_spec.authorized_signers@, key_rev.revocation_authorization@)
        },
        _ => false,
    }
}

/// Checks a key revocation against the chain: the revoker registered the
/// key, no earlier registration revokes it, and the current change rule's
/// authorities signed the revoked registration's address, as many distinct
/// authorities as the rule requires.  A host failure can only come from the
/// signature checks.
pub fn validate_key_revocation(
    key_rev: &KeyRevocation,
    update: &Update,
    registrant: Fetched<RawHash>,
    revocation_range: Fetched<Vec<Activity>>,
    chain: Fetched<Vec<Activity>>,
) -> (r: Fetched<()>)
    ensures
        r == revocation_outcome(*key_rev, *update, registrant, revocation_range, chain)
            || (revocation_reaches_host(*key_rev, *update, registrant, revocation_range, chain) && failed_in_host(r)),
{
    let registrant = match registrant {
        Ok(a) => a,
        Err(e) => {
            return Err(e);
        },
    };
    if !bytes_eq(&registrant, &update.author) {
        return Err(HostError::Guest(Reason::RevokerNotRegistrant));
    }
    let range = match revocation_range {
        Ok(range) => range,
        Err(e) => {
            return Err(e);
        },
    };
    match scan_revocations(&range, &key_rev.prior_key_registration) {
        Ok(_) => {},
        Err(e) => {
            return Err(e);
        },
    }
    let chain = match chain {
        Ok(chain) => chain,
        Err(e) => {
            return Err(e);
        },
    };
    let rule = match prev_change_rule(chain) {
        Err(e) => {
            return Err(e);
        },
        Ok(None) => {
            return Err(HostError::Guest(Reason::NoPriorChangeRule));
        },
        Ok(Some(rule)) => rule,
    };
    let required = rule.spec_change.new_spec.sigs_required;
    let count = (key_rev.revocation_authorization.len() % 256) as u8;
    if count < required {
        return Err(HostError::Guest(Reason::NotEnoughSignatures { sig_count: count, sigs_required: required }));
    }
    match check_authorities(
        &rule.spec_change.new_spec.authorized_signers,
        &key_rev.revocation_authorization,
        &key_rev.prior_key_registration,
    ) {
        Ok(_) => {
            proof {
                lemma_ok_unit(authorizations_outcome(
                    rule.spec_change.new_spec.authorized_signers@,
                    key_rev.revocation_authorization@,
                    key_rev.prior_key_registration@,
                    0,
                ));
            }
            Ok(())
        },
        Err(e) => Err(e),
    }
}

/// Whether every key core of a list has 32 bytes.
pub open spec fn keys_well_formed(keys: Seq<Vec<u8>>) -> bool {
    forall|i: int| 0 <= i < keys.len() ==> (#[trigger] keys[i])@.len() == 32
}

/// Checks that every key core of a list has 32 bytes.
pub fn check_key_lengths(keys: &Vec<Vec<u8>>) -> (r: bool)
    ensures
        r == keys_well_formed(keys@),
{
    let mut i: usize = 0;
    while i < keys.len()
        invariant
            i <= keys@.len(),
            forall|j: int| 0 <= j < i ==> (#[trigger] keys@[j])@.len() == 32,
        decreases keys@.len() - i,
    {
        if keys[i].len() != 32 {
            return false;
        }
        i = i + 1;
    }
    true
}

/// The rules for updating a `ChangeRule`: same keyset root, an update of
/// the chain's `ChangeRule` create, a satisfiable new spec, and enough valid
/// authorizations of the new spec by the current rule's authorities.
pub open spec fn change_rule_update_outcome(
    rule: ChangeRule,
    original_action_hash: Seq<u8>,
    original_entry: Fetched<EntryTypes>,
    chain: Fetched<Vec<Activity>>,
) -> Checked {
    match original_entry {
        Err(e) => Err(e),
        Ok(EntryTypes::ChangeRule(base)) => if base.keyset_root@ != rule.keyset_root@ {
            Ok(Verdict::Invalid(Reason::ChangeRuleKeysetRootChanged))
        } else {
            match chain {
                Err(e) => Err(e),
                Ok(chain) => match base_change_rule_spec(chain@) {
                    Err(e) => Err(e),
                    Ok(create_addr) => {
                        let new_spec = rule.spec_change.new_spec;
                        let auths = rule.spec_change.authorization_of_new_spec;
                        if create_addr != original_action_hash {
                            Ok(Verdict::Invalid(Reason::ChangeRuleNotBase))
                        } else if new_spec.sigs_required == 0 {
                            Ok(Verdict::Invalid(Reason::ZeroSigsRequired))
                        } else if new_spec.sigs_required > new_spec.authorized_signers@.len() {
                            Ok(Verdict::Invalid(Reason::NotEnoughAuthorities {
                                authorities: new_spec.authorized_signers@.len() as usize,
                                sigs_required: new_spec.sigs_required,
                            }))
                        } else {
                            match prev_change_rule_spec(chain@) {
                                Err(e) => Err(e),
                                Ok(None) => Ok(Verdict::Invalid(Reason::NoPriorChangeRule)),
                                Ok(Some(prev)) => {
                                    let required = prev.spec_change.new_spec.sigs_required;
                                    let count = sig_count(auths@.len());
                                    if count < required {
                                        Ok(Verdict::Invalid(Reason::NotEnoughSignatures { sig_count: count, sigs_required: required }))
                                    } else if !keys_well_formed(new_spec.authorized_signers@) {
                                        Err(HostError::Guest(Reason::MalformedBytes))
                                    } else {
                                        let content = msgpack_authority_spec(new_spec.sigs_required, views(new_spec.authorized_signers@));
                                        match authorizations_outcome(prev.spec_change.new_spec.authorized_signers@, auths@, content, 0) {
                                            Ok(_) => Ok(Verdict::Valid),
                                            Err(e) => Err(e),
                                        }
                                    }
                                },
                            }
                        }
                    },
                },
            }
        },
        Ok(_) => Err(HostError::Guest(Reason::WrongEntryType)),
    }
}

/// Whether validating a `ChangeRule` update asks the host to verify a
/// signature: every check before the authorizations passes, and the first
/// authorization passes the library's own checks.
pub open spec fn change_rule_update_reaches_host(
    rule: ChangeRule,
    original_action_hash: Seq<u8>,
    original_entry: Fetched<EntryTypes>,
    chain: Fetched<Vec<Activity>>,
) -> bool {
    match (original_entry, chain) {
        (Ok(EntryTypes::ChangeRule(base)), Ok(chain)) => {
            let new_spec = rule.spec_change.new_spec;
            let auths = rule.spec_change.authorization_of_new_spec;
            &&& base.keyset_root@ == rule.keyset_root@
            &&& base_change_rule_spec(chain@) == Ok::<Seq<u8>, HostError>(original_action_hash)
            &&& new_spec.sigs_required != 0
            &&& new_spec.sigs_required <= new_spec.authorized_signers@.len()
            &&& prev_change_rule_spec(chain@) matches Ok(Some(prev))
                && sig_count(auths@.len()) >= prev.spec_change.new_spec.sigs_required
                && keys_well_formed(new_spec.authorized_signers@)
                && authorizations_reach_host(prev.spec_change.new_spec.authorized_signers@, auths@)
        },
        _ => false,
    }
}

fn validate_update_change_rule(
    rule: &ChangeRule,
    original_action_hash: &RawHash,
    original_entry: Fetched<EntryTypes>,
    chain: Fetched<Vec<Activity>>,
) -> (r: Checked)
    ensures
        r == change_rule_update_outcome(*rule, original_action_hash@, original_entry, chain)
            || (change_rule_update_reaches_host(*rule, original_action_hash@, original_entry, chain) && failed_in_host(r)),
{
    let base = match original_entry {
        Err(e) => {
            return Err(e);
        },
        Ok(EntryTypes::ChangeRule(base)) => base,
        Ok(_) => {
            return Err(HostError::Guest(Reason::WrongEntryType));
        },
    };
    if !bytes_eq(&base.keyset_root, &rule.keyset_root) {
        return Ok(Verdict::Invalid(Reason::ChangeRuleKeysetRootChanged));
    }
    let chain = match chain {
        Ok(chain) => chain,
        Err(e) => {
            return Err(e);
        },
    };
    let create_addr = match base_change_rule_addr(&chain) {
        Ok(addr) => addr,
        Err(e) => {
            return Err(e);
        },
    };
    if !bytes_eq(&create_addr, original_action_hash) {
        return Ok(Verdict::Invalid(Reason::ChangeRuleNotBase));
    }
    let new_spec = &rule.spec_change.new_spec;
    if new_spec.sigs_required == 0 {
        return Ok(Verdict::Invalid(Reason::ZeroSigsRequired));
    }
    if new_spec.sigs_required as usize > new_spec.authorized_signers.len() {
        return Ok(Verdict::Invalid(Reason::NotEnoughAuthorities {
            authorities: new_spec.authorized_signers.len(),
            sigs_required: new_spec.sigs_required,
        }));
    }
    let prev = match prev_change_rule(chain) {
        Err(e) => {
            return Err(e);
        },
        Ok(None) => {
            return Ok(Verdict::Invalid(Reason::NoPriorChangeRule));
        },
        Ok(Some(prev)) => prev,
    };
    let required = prev.spec_change.new_spec.sigs_required;
    let count = (rule.spec_change.authorization_of_new_spec.len() % 256) as u8;
    if count < required {
        return Ok(Verdict::Invalid(Reason::NotEnoughSignatures { sig_count: count, sigs_required: required }));
    }
    if !check_key_lengths(&new_spec.authorized_signers) {
        return Err(HostError::Guest(Reason::MalformedBytes));
    }
    let content = match host_serialize_authority_spec(new_spec.sigs_required, &new_spec.authorized_signers) {
        Ok(bytes) => bytes,
        Err(e) => {
            return Err(e);
        },
    };
    match check_authorities(
        &prev.spec_change.new_spec.authorized_signers,
        &rule.spec_change.authorization_of_new_spec,
        &content,
    ) {
        Ok(_) => Ok(Verdict::Valid),
        Err(e) => Err(e),
    }
}

/// The rules for updating a `KeyRegistration`: the prior registration was
/// not `CreateOnly`, the update is an `Update` or a `Delete`, its revocation
/// is valid, and an `Update`'s new key generation is valid.
pub open spec fn registration_update_outcome(reg: KeyRegistration, update: Update, deps: UpdateDeps) -> Checked {
    match deps.original_entry {
        Err(e) => Err(e),
        Ok(EntryTypes::KeyRegistration(prior)) => if prior is CreateOnly {
            Ok(Verdict::Invalid(Reason::CreateOnlyUpdated))
        } else {
            match reg {
                KeyRegistration::Create(_) | KeyRegistration::CreateOnly(_) =>
                    Ok(Verdict::Invalid(Reason::RegistrationNotUpdate)),
                KeyRegistration::Update(key_rev, key_gen) =>
                    match revocation_outcome(key_rev, update, deps.registrant, deps.revocation_range, deps.chain) {
                        Err(e) => Err(e),
                        Ok(_) => match key_generation_check(key_gen, update.author@) {
                            Err(e) => Err(e),
                            Ok(_) => Ok(Verdict::Valid),
                        },
                    },
                KeyRegistration::Delete(key_rev) =>
                    match revocation_outcome(key_rev, update, deps.registrant, deps.revocation_range, deps.chain) {
                        Err(e) => Err(e),
                        Ok(_) => Ok(Verdict::Valid),
                    },
            }
        },
        Ok(_) => Err(HostError::Guest(Reason::WrongEntryType)),
    }
}

/// Whether validating a `KeyRegistration` update asks the host: the
/// revocation's signature check is reached, or the revocation passes and
/// an `Update`'s key generation check is reached.
pub open spec fn registration_update_reaches_host(reg: KeyRegistration, update: Update, deps: UpdateDeps) -> bool {
    match deps.original_entry {
        Ok(EntryTypes::KeyRegistration(prior)) => !(prior is CreateOnly) && match reg {
            KeyRegistration::Update(key_rev, key_gen) =>
                revocation_reaches_host(key_rev, update, deps.registrant, deps.revocation_range, deps.chain)
                || (revocation_outcome(key_rev, update, deps.registrant, deps.revocation_range, deps.chain) is Ok
                    && key_generation_reaches_host(key_gen)),
            KeyRegistration::Delete(key_rev) =>
                revocation_reaches_host(key_rev, update, deps.registrant, deps.revocation_range, deps.chain),
            _ => false,
        },
        _ => false,
    }
}

fn validate_update_registration(reg: &KeyRegistration, update: &Update, deps: UpdateDeps) -> (r: Checked)
    ensures
        r == registration_update_outcome(*reg, *update, deps)
            || (registration_update_reaches_host(*reg, *update, deps) && failed_in_host(r)),
        r == Ok::<Verdict, HostError>(Verdict::Valid) ==> (*reg matches KeyRegistration::Update(_, g)
            ==> new_key_signed_author(g, update.author@)),
{
    let prior = match deps.original_entry {
        Err(e) => {
            return Err(e);
        },
        Ok(EntryTypes::KeyRegistration(prior)) => prior,
        Ok(_) => {
            return Err(HostError::Guest(Reason::WrongEntryType));
        },
    };
    if let KeyRegistration::CreateOnly(_) = prior {
        return Ok(Verdict::Invalid(Reason::CreateOnlyUpdated));
    }
    match reg {
        KeyRegistration::Create(_) | KeyRegistration::CreateOnly(_) => Ok(Verdict::Invalid(Reason::RegistrationNotUpdate)),
        KeyRegistration::Update(key_rev, key_gen) => {
            match validate_key_revocation(key_rev, update, deps.registrant, deps.revocation_range, deps.chain) {
                Ok(_) => {},
                Err(e) => {
                    return Err(e);
                },
            }
            match validate_key_generation(key_gen, &update.author) {
                Ok(_) => Ok(Verdict::Valid),
                Err(e) => Err(e),
            }
        },
        KeyRegistration::Delete(key_rev) => {
            match validate_key_revocation(key_rev, update, deps.registrant, deps.revocation_range, deps.chain) {
                Ok(_) => Ok(Verdict::Valid),
                Err(e) => Err(e),
            }
        },
    }
}

/// The rules for updating a `KeyAnchor`: the previous action is a
/// `KeyRegistration::Update` of the new key, and the replaced anchor is the
/// anchor of the registration that it revokes.
pub open spec fn anchor_update_outcome(anchor: KeyAnchor, deps: UpdateDeps) -> Checked {
    match deps.prev_entry {
        Err(e) => Err(e),
        Ok(EntryTypes::KeyRegistration(reg)) => match reg {
            KeyRegistration::Update(_, key_gen) => match anchor_of_key(key_gen.new_key@) {
                Err(e) => Err(e),
                Ok(bytes) => if bytes != anchor.bytes@ {
                    Ok(Verdict::Invalid(Reason::AnchorKeyMismatch))
                } else {
                    match deps.original_entry {
                        Err(e) => Err(e),
                        Ok(EntryTypes::KeyAnchor(prior_anchor)) => match deps.revoked_entry {
                            Err(e) => Err(e),
                            Ok(EntryTypes::KeyRegistration(prior_reg)) => match registration_anchor(prior_reg) {
                                Err(e) => Err(e),
                                Ok(prior_bytes) => if prior_bytes != prior_anchor.bytes@ {
                                    Ok(Verdict::Invalid(Reason::OriginalAnchorMismatch))
                                } else {
                                    Ok(Verdict::Valid)
                                },
                            },
                            Ok(_) => Err(HostError::Guest(Reason::WrongEntryType)),
                        },
                        Ok(_) => Err(HostError::Guest(Reason::WrongEntryType)),
                    }
                },
            },
            _ => Ok(Verdict::Invalid(Reason::AnchorUpdateNotAfterRegistration)),
        },
        Ok(_) => Err(HostError::Guest(Reason::WrongEntryType)),
    }
}

fn validate_update_anchor(anchor: &KeyAnchor, deps: UpdateDeps) -> (r: Checked)
    ensures
        r == anchor_update_outcome(*anchor, deps),
        r == Ok::<Verdict, HostError>(Verdict::Valid) ==> {
            &&& deps.prev_entry matches Ok(EntryTypes::KeyRegistration(reg)) && reg is Update && anchors_key_of(anchor.bytes@, reg)
            &&& deps.original_entry matches Ok(EntryTypes::KeyAnchor(replaced))
                && deps.revoked_entry matches Ok(EntryTypes::KeyRegistration(revoked))
                && anchors_key_of(replaced.bytes@, revoked)
        },
{
    let reg = match deps.prev_entry {
        Err(e) => {
            return Err(e);
        },
        Ok(EntryTypes::KeyRegistration(reg)) => reg,
        Ok(_) => {
            return Err(HostError::Guest(Reason::WrongEntryType));
        },
    };
    let key_gen = match reg {
        KeyRegistration::Update(_, key_gen) => key_gen,
        _ => {
            return Ok(Verdict::Invalid(Reason::AnchorUpdateNotAfterRegistration));
        },
    };
    let bytes = match keybytes_from_agentpubkey(&key_gen.new_key) {
        Ok(bytes) => bytes,
        Err(e) => {
            return Err(e);
        },
    };
    if !bytes_eq(&bytes, &anchor.bytes) {
        return Ok(Verdict::Invalid(Reason::AnchorKeyMismatch));
    }
    let prior_anchor = match deps.original_entry {
        Err(e) => {
            return Err(e);
        },
        Ok(EntryTypes::KeyAnchor(prior_anchor)) => prior_anchor,
        Ok(_) => {
            return Err(HostError::Guest(Reason::WrongEntryType));
        },
    };
    let prior_reg = match deps.revoked_entry {
        Err(e) => {
            return Err(e);
        },
        Ok(EntryTypes::KeyRegistration(prior_reg)) => prior_reg,
        Ok(_) => {
            return Err(HostError::Guest(Reason::WrongEntryType));
        },
    };
    let prior_reg_anchor = match registration_key_anchor(&prior_reg) {
        Ok(a) => a,
        Err(e) => {
            return Err(e);
        },
    };
    if !bytes_eq(&prior_reg_anchor.bytes, &prior_anchor.bytes) {
        return Ok(Verdict::Invalid(Reason::OriginalAnchorMismatch));
    }
    Ok(Verdict::Valid)
}

/// The rules for updating an entry of each type.
pub open spec fn update_outcome(app_entry: EntryTypes, update: Update, original_action_hash: Seq<u8>, deps: UpdateDeps) -> Checked {
    match app_entry {
        EntryTypes::KeysetRoot(_) => Ok(Verdict::Invalid(Reason::KeysetRootUpdate)),
        EntryTypes::ChangeRule(rule) => change_rule_update_outcome(rule, original_action_hash, deps.original_entry, deps.chain),
        EntryTypes::KeyRegistration(reg) => registration_update_outcome(reg, update, deps),
        EntryTypes::KeyAnchor(anchor) => anchor_update_outcome(anchor, deps),
        EntryTypes::KeyMeta(_) => Ok(Verdict::Invalid(Reason::KeyMetaUpdate)),
        EntryTypes::AppBinding(_) => Ok(Verdict::Invalid(Reason::AppBindingUpdate)),
    }
}

/// Whether validating an update asks the host to verify a signature.
pub open spec fn update_reaches_host(app_entry: EntryTypes, update: Update, original_action_hash: Seq<u8>, deps: UpdateDeps) -> bool {
    match app_entry {
        EntryTypes::ChangeRule(rule) => change_rule_update_reaches_host(rule, original_action_hash, deps.original_entry, deps.chain),
        EntryTypes::KeyRegistration(reg) => registration_update_reaches_host(reg, update, deps),
        _ => false,
    }
}

/// Validates the update of an entry.  `deps` holds what the host gives for
/// the records that the rules read.  The result is the one the rules give,
/// unless a signature check that the host is asked to make fails.
pub fn validation(app_entry: &EntryTypes, update: &Update, original_action_hash: &RawHash, deps: UpdateDeps) -> (r: Checked)
    ensures
        r == update_outcome(*app_entry, *update, original_action_hash@, deps)
            || (update_reaches_host(*app_entry, *update, original_action_hash@, deps) && failed_in_host(r)),
        app_entry is KeysetRoot || app_entry is KeyMeta || app_entry is AppBinding || app_entry is KeyAnchor
            ==> r == update_outcome(*app_entry, *update, original_action_hash@, deps),
{
    match app_entry {
        EntryTypes::KeysetRoot(_) => Ok(Verdict::Invalid(Reason::KeysetRootUpdate)),
        EntryTypes::ChangeRule(rule) => validate_update_change_rule(rule, original_action_hash, deps.original_entry, deps.chain),
        EntryTypes::KeyRegistration(reg) => validate_update_registration(reg, update, deps),
        EntryTypes::KeyAnchor(anchor) => validate_update_anchor(anchor, deps),
        EntryTypes::KeyMeta(_) => Ok(Verdict::Invalid(Reason::KeyMetaUpdate)),
        EntryTypes::AppBinding(_) => Ok(Verdict::Invalid(Reason::AppBindingUpdate)),
    }
}

} // verus!
