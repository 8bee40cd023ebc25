//! Validation of entry creates.
use vstd::prelude::*;
use crate::authority::{agent_key_of_core, key_core, keybytes_from_agentpubkey, signature_input_ok, verify_key_signature};
use crate::bytes::bytes_eq;
use crate::host::{host_agent_key_from_core, signature_verifies};
use crate::outcome::{failed_in_host, Checked, Fetched, HostError, Reason, Verdict};
use crate::types::{ChangeRule, Create, EntryTypes, KeyAnchor, KeyGeneration, KeyRegistration, KeysetRoot};

use crate::key_laws::new_key_signed_author;

verus! {

/// The chain position of the `KeysetRoot` create.
pub const KEYSET_ROOT_ACTION_SEQ: u32 = 3;
/// The chain position of the `ChangeRule` create.
pub const CHANGE_RULE_ACTION_SEQ: u32 = 4;

/// The anchor bytes of a key: the core of the agent key, or `MalformedBytes`.
pub open spec fn anchor_of_key(key: Seq<u8>) -> Fetched<Seq<u8>> {
    if key.len() == 39 {
        Ok(key_core(key))
    } else {
        Err(HostError::Guest(Reason::MalformedBytes))
    }
}

/// Whether a key generation's signature of the author can reach the host:
/// the new key is an agent key and the signature has 64 bytes.
pub open spec fn key_generation_reaches_host(key_gen: KeyGeneration) -> bool {
    signature_input_ok(key_gen.new_key@, key_gen.new_key_signing_of_author@)
}

/// A key generation is valid when the new key signed the author's key bytes.
pub open spec fn key_generation_check(key_gen: KeyGeneration, author: Seq<u8>) -> Fetched<()> {
    if !key_generation_reaches_host(key_gen) {
        Err(HostError::Guest(Reason::MalformedBytes))
    } else if !signature_verifies(key_gen.new_key@, key_gen.new_key_signing_of_author@, author) {
        Err(HostError::Guest(Reason::KeySignatureMismatch))
    } else {
        Ok(())
    }
}

/// Checks that the new key of a generation signed the author's key bytes.
pub fn validate_key_generation(key_gen: &KeyGeneration, author: &Vec<u8>) -> (r: Fetched<()>)
    ensures
        r == key_generation_check(*key_gen, author@)
            || (key_generation_reaches_host(*key_gen) && failed_in_host(r)),
{
    let valid = verify_key_signature(&key_gen.new_key, &key_gen.new_key_signing_of_author, crate::bytes::clone_bytes(author));
    match valid {
        Ok(true) => Ok(()),
        Ok(false) => Err(HostError::Guest(Reason::KeySignatureMismatch)),
        Err(e) => Err(e),
    }
}

/// The rules for creating a `KeysetRoot`: fourth chain position, a valid
/// signature of the FDA by the root key, and the FDA as author.
pub open spec fn keyset_root_create_outcome(ksr: KeysetRoot, create: Create) -> Checked {
    if create.action_seq != KEYSET_ROOT_ACTION_SEQ {
        Ok(Verdict::Invalid(Reason::KeysetRootWrongSeq { action_seq: create.action_seq }))
    } else if ksr.root_pub_key@.len() != 32 || ksr.signed_fda@.len() != 64 {
        Err(HostError::Guest(Reason::MalformedBytes))
    } else if !signature_verifies(agent_key_of_core(ksr.root_pub_key@), ksr.signed_fda@, ksr.first_deepkey_agent@) {
        Ok(Verdict::Invalid(Reason::KeysetRootBadSignature))
    } else if create.author@ != ksr.first_deepkey_agent@ {
        Ok(Verdict::Invalid(Reason::KeysetRootAuthorNotFda))
    } else {
        Ok(Verdict::Valid)
    }
}

/// The rules for creating the first `ChangeRule`: fifth chain position, the
/// keyset root as previous action, and a 1-of-1 spec whose authority is the
/// FDA of that keyset root.
pub open spec fn change_rule_create_outcome(rule: ChangeRule, create: Create, prev_entry: Fetched<EntryTypes>) -> Checked {
    if create.action_seq != CHANGE_RULE_ACTION_SEQ {
        Ok(Verdict::Invalid(Reason::ChangeRuleWrongSeq { action_seq: create.action_seq }))
    } else if create.prev_action@ != rule.keyset_root@ {
        Ok(Verdict::Invalid(Reason::ChangeRuleKeysetRootNotPrev))
    } else {
        match prev_entry {
            Err(e) => Err(e),
            Ok(EntryTypes::KeysetRoot(ksr)) => {
                let spec = rule.spec_change.new_spec;
                if ksr.first_deepkey_agent@.len() != 39 {
                    Err(HostError::Guest(Reason::MalformedBytes))
                } else if spec.sigs_required != 1 {
                    Ok(Verdict::Invalid(Reason::InitialRuleSigsRequired { sigs_required: spec.sigs_required }))
                } else if spec.authorized_signers@.len() != 1 {
                    Ok(Verdict::Invalid(Reason::InitialRuleAuthorityCount { count: spec.authorized_signers@.len() as usize }))
                } else if spec.authorized_signers@[0]@ != key_core(ksr.first_deepkey_agent@) {
                    Ok(Verdict::Invalid(Reason::InitialRuleAuthorityNotFda))
                } else {
                    Ok(Verdict::Valid)
                }
            },
            Ok(_) => Err(HostError::Guest(Reason::WrongEntryType)),
        }
    }
}

/// The rules for creating a `KeyRegistration`: a `Create` or `CreateOnly`
/// whose key generation is valid.
pub open spec fn registration_create_outcome(reg: KeyRegistration, create: Create) -> Checked {
    match reg {
        KeyRegistration::Create(key_gen) | KeyRegistration::CreateOnly(key_gen) =>
            match key_generation_check(key_gen, create.author@) {
                Ok(_) => Ok(Verdict::Valid),
                Err(e) => Err(e),
            },
        _ => Ok(Verdict::Invalid(Reason::RegistrationNotCreate)),
    }
}

/// The rules for creating a `KeyAnchor`: the previous action is a `Create`
/// or `CreateOnly` registration of the anchored key.
pub open spec fn anchor_create_outcome(anchor: KeyAnchor, prev_entry: Fetched<EntryTypes>) -> Checked {
    match prev_entry {
        Err(e) => Err(e),
        Ok(EntryTypes::KeyRegistration(reg)) => match reg {
            KeyRegistration::Create(key_gen) | KeyRegistration::CreateOnly(key_gen) =>
                match anchor_of_key(key_gen.new_key@) {
                    Err(e) => Err(e),
                    Ok(bytes) => if bytes != anchor.bytes@ {
                        Ok(Verdict::Invalid(Reason::AnchorKeyMismatch))
                    } else {
                        Ok(Verdict::Valid)
                    },
                },
            _ => Ok(Verdict::Invalid(Reason::AnchorCreateNotAfterRegistration)),
        },
        Ok(_) => Err(HostError::Guest(Reason::WrongEntryType)),
    }
}

/// The rules for creating an entry of each type.  `prev_entry` is the entry
/// of the create's previous action, as the host gives it.
pub open spec fn create_outcome(app_entry: EntryTypes, create: Create, prev_entry: Fetched<EntryTypes>) -> Checked {
    match app_entry {
        EntryTypes::KeysetRoot(ksr) => keyset_root_create_outcome(ksr, create),
        EntryTypes::ChangeRule(rule) => change_rule_create_outcome(rule, create, prev_entry),
        EntryTypes::KeyRegistration(reg) => registration_create_outcome(reg, create),
        EntryTypes::KeyAnchor(anchor) => anchor_create_outcome(anchor, prev_entry),
        EntryTypes::KeyMeta(_) => Ok(Verdict::Valid),
        EntryTypes::AppBinding(_) => Ok(Verdict::Valid),
    }
}

/// Whether validating a create asks the host to check a signature.
pub open spec fn create_reaches_host(app_entry: EntryTypes, create: Create) -> bool {
    match app_entry {
        EntryTypes::KeysetRoot(ksr) => create.action_seq == KEYSET_ROOT_ACTION_SEQ
            && ksr.root_pub_key@.len() == 32 && ksr.signed_fda@.len() == 64,
        EntryTypes::KeyRegistration(reg) => match reg {
            KeyRegistration::Create(key_gen) | KeyRegistration::CreateOnly(key_gen) => key_generation_reaches_host(key_gen),
            _ => false,
        },
        _ => false,
    }
}

fn validate_create_keyset_root(ksr: &KeysetRoot, create: &Create) -> (r: Checked)
    ensures
        r == keyset_root_create_outcome(*ksr, *create)
            || (create_reaches_host(EntryTypes::KeysetRoot(*ksr), *create) && failed_in_host(r)),
{
    if create.action_seq != KEYSET_ROOT_ACTION_SEQ {
        return Ok(Verdict::Invalid(Reason::KeysetRootWrongSeq { action_seq: create.action_seq }));
    }
    if ksr.root_pub_key.len() != 32 || ksr.signed_fda.len() != 64 {
        return Err(HostError::Guest(Reason::MalformedBytes));
    }
    let root_agent = host_agent_key_from_core(&ksr.root_pub_key);
    assert(root_agent@.subrange(0, 3) =~= crate::host::agent_prefix());
    let valid = verify_key_signature(&root_agent, &ksr.signed_fda, crate::bytes::clone_bytes(&ksr.first_deepkey_agent));
    match valid {
        Ok(true) => {},
        Ok(false) => {
            return Ok(Verdict::Invalid(Reason::KeysetRootBadSignature));
        },
        Err(e) => {
            return Err(e);
        },
    }
    if !bytes_eq(&create.author, &ksr.first_deepkey_agent) {
        return Ok(Verdict::Invalid(Reason::KeysetRootAuthorNotFda));
    }
    Ok(Verdict::Valid)
}

fn validate_create_change_rule(rule: &ChangeRule, create: &Create, prev_entry: Fetched<EntryTypes>) -> (r: Checked)
    ensures
        r == change_rule_create_outcome(*rule, *create, prev_entry),
{
    if create.action_seq != CHANGE_RULE_ACTION_SEQ {
        return Ok(Verdict::Invalid(Reason::ChangeRuleWrongSeq { action_seq: create.action_seq }));
    }
    if !bytes_eq(&create.prev_action, &rule.keyset_root) {
        return Ok(Verdict::Invalid(Reason::ChangeRuleKeysetRootNotPrev));
    }
    let ksr = match prev_entry {
        Err(e) => {
            return Err(e);
        },
        Ok(EntryTypes::KeysetRoot(ksr)) => ksr,
        Ok(_) => {
            return Err(HostError::Guest(Reason::WrongEntryType));
        },
    };
    let fda_key_bytes = match keybytes_from_agentpubkey(&ksr.first_deepkey_agent) {
        Ok(k) => k,
        Err(e) => {
            return Err(e);
        },
    };
    let new_spec = &rule.spec_change.new_spec;
    if new_spec.sigs_required != 1 {
        return Ok(Verdict::Invalid(Reason::InitialRuleSigsRequired { sigs_required: new_spec.sigs_required }));
    }
    if new_spec.authorized_signers.len() != 1 {
        return Ok(Verdict::Invalid(Reason::InitialRuleAuthorityCount { count: new_spec.authorized_signers.len() }));
    }
    if !bytes_eq(&new_spec.authorized_signers[0], &fda_key_bytes) {
        return Ok(Verdict::Invalid(Reason::InitialRuleAuthorityNotFda));
    }
    Ok(Verdict::Valid)
}

fn validate_create_registration(reg: &KeyRegistration, create: &Create) -> (r: Checked)
    ensures
        r == registration_create_outcome(*reg, *create)
            || (create_reaches_host(EntryTypes::KeyRegistration(*reg), *create) && failed_in_host(r)),
        r == Ok::<Verdict, HostError>(Verdict::Valid) ==> match *reg {
            KeyRegistration::Create(g) | KeyRegistration::CreateOnly(g) => new_key_signed_author(g, create.author@),
            _ => false,
        },
{
    match reg {
        KeyRegistration::Create(key_gen) | KeyRegistration::CreateOnly(key_gen) => {
            match validate_key_generation(key_gen, &create.author) {
                Ok(_) => Ok(Verdict::Valid),
                Err(e) => Err(e),
            }
        },
        _ => Ok(Verdict::Invalid(Reason::RegistrationNotCreate)),
    }
}

fn validate_create_anchor(anchor: &KeyAnchor, prev_entry: Fetched<EntryTypes>) -> (r: Checked)
    ensures
        r == anchor_create_outcome(*anchor, prev_entry),
{
    let reg = match prev_entry {
        Err(e) => {
            return Err(e);
        },
        Ok(EntryTypes::KeyRegistration(reg)) => reg,
        Ok(_) => {
            return Err(HostError::Guest(Reason::WrongEntryType));
        },
    };
    let key_gen = match reg {
        KeyRegistration::Create(key_gen) | KeyRegistration::CreateOnly(key_gen) => key_gen,
        _ => {
            return Ok(Verdict::Invalid(Reason::AnchorCreateNotAfterRegistration));
        },
    };
    let bytes = match keybytes_from_agentpubkey(&key_gen.new_key) {
        Ok(bytes) => bytes,
        Err(e) => {
            return Err(e);
        },
    };
    if !bytes_eq(&bytes, &anchor.bytes) {
        return Ok(Verdict::Invalid(Reason::AnchorKeyMismatch));
    }
    Ok(Verdict::Valid)
}

/// Validates the create of an entry.  `prev_entry` is the entry of the
/// create's previous action as the host gives it (read only for a
/// `ChangeRule` or a `KeyAnchor`).  The result is the one the rules give,
/// unless a signature check that the host makes fails.
pub fn validation(app_entry: &EntryTypes, create: &Create, prev_entry: Fetched<EntryTypes>) -> (r: Checked)
    ensures
        r == create_outcome(*app_entry, *create, prev_entry)
            || (create_reaches_host(*app_entry, *create) && failed_in_host(r)),
{
    match app_entry {
        EntryTypes::KeysetRoot(ksr) => validate_create_keyset_root(ksr, create),
        EntryTypes::ChangeRule(rule) => validate_create_change_rule(rule, create, prev_entry),
        EntryTypes::KeyRegistration(reg) => validate_create_registration(reg, create),
        EntryTypes::KeyAnchor(anchor) => validate_create_anchor(anchor, prev_entry),
        EntryTypes::KeyMeta(_) => Ok(Verdict::Valid),
        EntryTypes::AppBinding(_) => Ok(Verdict::Valid),
    }
}

} // verus!
