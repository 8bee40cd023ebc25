//! What the validation of change rules, key registrations and key anchors
//! guarantees, stated over the chain's order, the signatures the host
//! verifies and the key cores of the entries involved.
use vstd::prelude::*;
use crate::authority::{authorizations_outcome, key_core, signature_input_ok};
use crate::chain::{is_latest_of_type, of_type, prev_change_rule_spec};
use crate::host::{msgpack_authority_spec, signature_verifies, views};
use crate::outcome::{Checked, Fetched, HostError, Verdict};
use crate::types::{
    Activity, ChangeRule, Create, EntryTypes, EntryTypesUnit, KeyAnchor, KeyGeneration, KeyRegistration, KeyRevocation, RawHash,
    Update,
};
use crate::validation::create_entry::create_outcome;
use crate::validation::delete_entry::{delete_outcome, DeleteDeps};
use crate::validation::update_entry::{change_rule_update_outcome, revocation_outcome, update_outcome, UpdateDeps};

verus! {

/// Whether a result accepts the operation.
pub open spec fn accepts(r: Checked) -> bool {
    r == Ok::<Verdict, HostError>(Verdict::Valid)
}

/// The key that a registration registers, if it registers one.
pub open spec fn registered_key(reg: KeyRegistration) -> Option<Seq<u8>> {
    match reg {
        KeyRegistration::Create(g) | KeyRegistration::CreateOnly(g) | KeyRegistration::Update(_, g) => Some(g.new_key@),
        KeyRegistration::Delete(_) => None,
    }
}

/// Whether an anchor holds the key core of the key that a registration
/// registers.
pub open spec fn anchors_key_of(anchor_bytes: Seq<u8>, reg: KeyRegistration) -> bool {
    registered_key(reg) matches Some(key) && key.len() == 39 && key_core(key) == anchor_bytes
}

/// Whether a key generation's new key signed the author's key.
pub open spec fn new_key_signed_author(key_gen: KeyGeneration, author: Seq<u8>) -> bool {
    signature_input_ok(key_gen.new_key@, key_gen.new_key_signing_of_author@)
        && signature_verifies(key_gen.new_key@, key_gen.new_key_signing_of_author@, author)
}

/// The previous change rule read from an activity list (newest first) is
/// the entry of its first `ChangeRule` activity: no activity before that one
/// is a `ChangeRule` action.  There is none exactly when no activity is a
/// `ChangeRule` action.
pub proof fn previous_change_rule_is_the_newest(s: Seq<Activity>)
    ensures
        prev_change_rule_spec(s) matches Ok(Some(rule)) ==> exists|i: int| {
            &&& 0 <= i < s.len()
            &&& #[trigger] of_type(s[i], EntryTypesUnit::ChangeRule)
            &&& s[i].entry == Ok::<EntryTypes, HostError>(EntryTypes::ChangeRule(rule))
            &&& forall|j: int| 0 <= j < i ==> !of_type(#[trigger] s[j], EntryTypesUnit::ChangeRule)
        },
        (prev_change_rule_spec(s) == Ok::<Option<ChangeRule>, HostError>(None))
            <==> (forall|j: int| 0 <= j < s.len() ==> !of_type(#[trigger] s[j], EntryTypesUnit::ChangeRule)),
{
    if exists|i: int| is_latest_of_type(s, EntryTypesUnit::ChangeRule, i) {
        let i = choose|i: int| is_latest_of_type(s, EntryTypesUnit::ChangeRule, i);
        assert(of_type(s[i], EntryTypesUnit::ChangeRule));
        assert(!(forall|j: int| 0 <= j < s.len() ==> !of_type(#[trigger] s[j], EntryTypesUnit::ChangeRule)));
    } else {
        assert forall|j: int| 0 <= j < s.len() implies !of_type(#[trigger] s[j], EntryTypesUnit::ChangeRule) by {
            if of_type(s[j], EntryTypesUnit::ChangeRule) {
                lemma_a_first_exists(s, j);
            }
        }
    }
}

/// A list with a `ChangeRule` activity at `k` has a first one.
proof fn lemma_a_first_exists(s: Seq<Activity>, k: int)
    requires
        0 <= k < s.len(),
        of_type(s[k], EntryTypesUnit::ChangeRule),
    ensures
        exists|i: int| is_latest_of_type(s, EntryTypesUnit::ChangeRule, i),
    decreases k,
{
    if forall|j: int| 0 <= j < k ==> !of_type(#[trigger] s[j], EntryTypesUnit::ChangeRule) {
        assert(is_latest_of_type(s, EntryTypesUnit::ChangeRule, k));
    } else {
        let j = choose|j: int| 0 <= j < k && of_type(#[trigger] s[j], EntryTypesUnit::ChangeRule);
        lemma_a_first_exists(s, j);
    }
}

/// An accepted `ChangeRule` update is authorized by the newest change rule
/// on the author's chain: the entry of the first `ChangeRule` activity of
/// the list (newest first), whose authorities signed the serialized new
/// spec.
pub proof fn change_rule_update_signed_under_newest_rule(
    rule: ChangeRule,
    original_action_hash: Seq<u8>,
    original_entry: Fetched<EntryTypes>,
    chain: Fetched<Vec<Activity>>,
)
    requires
        accepts(change_rule_update_outcome(rule, original_action_hash, original_entry, chain)),
    ensures
        chain matches Ok(acts) && exists|i: int| {
            &&& 0 <= i < acts@.len()
            &&& #[trigger] of_type(acts@[i], EntryTypesUnit::ChangeRule)
            &&& forall|j: int| 0 <= j < i ==> !of_type(#[trigger] acts@[j], EntryTypesUnit::ChangeRule)
            &&& acts@[i].entry matches Ok(EntryTypes::ChangeRule(prev))
                && authorizations_outcome(
                    prev.spec_change.new_spec.authorized_signers@,
                    rule.spec_change.authorization_of_new_spec@,
                    msgpack_authority_spec(rule.spec_change.new_spec.sigs_required, views(rule.spec_change.new_spec.authorized_signers@)),
                    0,
                ) is Ok
        },
{
    if let Ok(acts) = chain {
        previous_change_rule_is_the_newest(acts@);
    }
}

/// An accepted key revocation is authorized by the newest change rule on
/// the author's chain: the entry of the first `ChangeRule` activity of the
/// list (newest first), whose authorities signed the revoked registration.
pub proof fn revocation_signed_under_newest_rule(
    key_rev: KeyRevocation,
    update: Update,
    registrant: Fetched<RawHash>,
    revocation_range: Fetched<Vec<Activity>>,
    chain: Fetched<Vec<Activity>>,
)
    requires
        revocation_outcome(key_rev, update, registrant, revocation_range, chain) is Ok,
    ensures
        chain matches Ok(acts) && exists|i: int| {
            &&& 0 <= i < acts@.len()
            &&& #[trigger] of_type(acts@[i], EntryTypesUnit::ChangeRule)
            &&& forall|j: int| 0 <= j < i ==> !of_type(#[trigger] acts@[j], EntryTypesUnit::ChangeRule)
            &&& acts@[i].entry matches Ok(EntryTypes::ChangeRule(rule))
                && authorizations_outcome(
                    rule.spec_change.new_spec.authorized_signers@,
                    key_rev.revocation_authorization@,
                    key_rev.prior_key_registration@,
                    0,
                ) is Ok
        },
{
    if let Ok(acts) = chain {
        previous_change_rule_is_the_newest(acts@);
    }
}

/// A key registration is created only as a `Create` or a `CreateOnly`, and
/// only when its new key signed the author's key.
pub proof fn created_registration_is_a_signed_generation(reg: KeyRegistration, create: Create, prev_entry: Fetched<EntryTypes>)
    requires
        accepts(create_outcome(EntryTypes::KeyRegistration(reg), create, prev_entry)),
    ensures
        reg is Create || reg is CreateOnly,
        match reg {
            KeyRegistration::Create(g) | KeyRegistration::CreateOnly(g) => new_key_signed_author(g, create.author@),
            _ => false,
        },
{
}

/// A key is replaced only when the new key signed the author's key, and
/// the revocation of the replaced registration is accepted.
pub proof fn replacing_key_signed_author(
    key_rev: KeyRevocation,
    key_gen: KeyGeneration,
    update: Update,
    original_action_hash: Seq<u8>,
    deps: UpdateDeps,
)
    requires
        accepts(update_outcome(EntryTypes::KeyRegistration(KeyRegistration::Update(key_rev, key_gen)), update, original_action_hash, deps)),
    ensures
        new_key_signed_author(key_gen, update.author@),
        revocation_outcome(key_rev, update, deps.registrant, deps.revocation_range, deps.chain) is Ok,
{
}

/// A key anchor is replaced only right after a `KeyRegistration::Update`
/// whose new key it anchors, and only when the replaced anchor holds the key
/// core of the registration that update revokes.
pub proof fn anchor_update_follows_the_replacement(anchor: KeyAnchor, update: Update, original_action_hash: Seq<u8>, deps: UpdateDeps)
    requires
        accepts(update_outcome(EntryTypes::KeyAnchor(anchor), update, original_action_hash, deps)),
    ensures
        deps.prev_entry matches Ok(EntryTypes::KeyRegistration(reg)) && reg is Update && anchors_key_of(anchor.bytes@, reg),
        deps.original_entry matches Ok(EntryTypes::KeyAnchor(replaced))
            && deps.revoked_entry matches Ok(EntryTypes::KeyRegistration(revoked))
            && anchors_key_of(replaced.bytes@, revoked),
{
}

/// A key anchor is deleted only right after a `KeyRegistration::Delete`,
/// and only when it holds the key core of the registration that delete
/// revokes.
pub proof fn anchor_delete_follows_the_revocation(deps: DeleteDeps)
    requires
        accepts(delete_outcome(deps)),
    ensures
        deps.original_entry matches Ok(EntryTypes::KeyAnchor(deleted))
            && deps.revoked_entry matches Ok(EntryTypes::KeyRegistration(revoked))
            && anchors_key_of(deleted.bytes@, revoked),
        deps.prev_entry matches Ok(EntryTypes::KeyRegistration(KeyRegistration::Delete(_))),
{
}

} // verus!
