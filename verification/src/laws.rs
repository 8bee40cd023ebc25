//! Properties of the validation rules that hold of every input.
use vstd::prelude::*;
use crate::authority::{agent_key_of_core, authorizations_outcome, distinct_signers, key_core, lemma_authorizations_ok_distinct};
use crate::chain::{base_change_rule_spec, of_type, prev_change_rule_spec};
use crate::host::{msgpack_authority_spec, signature_verifies, views};
use crate::outcome::{Checked, Fetched, HostError, Verdict};
use crate::types::{Activity, ChangeRule, Create, EntryTypes, EntryTypesUnit, KeyRegistration, KeyRevocation, KeysetRoot, LinkTypes, RawHash, Update};
use crate::validation::create_entry::create_outcome;
use crate::types::{AppBinding, KeyMeta};
use crate::csr::key_anchor::lineage_holds;
use crate::csr::key_meta::{lemma_max_key_index_bounds, max_key_index_in_app, meta_in_app, next_key_index};
use crate::integrity::change_rule::{authorize_result, lemma_authorized_signers_distinct, spec_bytes, update_rule_outcome};
use crate::integrity::entry::KeyRegistration as IntegrityRegistration;
use crate::integrity::error::Outcome;
use crate::integrity::key_registration::{revocation_of, update_registration_outcome, RegistrationUpdateDeps};
use crate::integrity::record::{spec_change_rule_of, spec_generator_of, spec_key_registration_of, ActionKind, Dependency, ValidateData};
use crate::integrity::error::{BaseError, ChangeRuleError, Failure};
use crate::validation::delete_entry::{delete_outcome, DeleteDeps};
use crate::validation::links::{delete_link_outcome, LinkOrigin};
use crate::validation::update_entry::{
    change_rule_update_outcome, revocation_outcome, revocation_scan, sig_count, update_outcome, UpdateDeps,
};

verus! {

/// Whether a validation result accepts the operation.
pub open spec fn accepted(r: Checked) -> bool {
    r == Ok::<Verdict, HostError>(Verdict::Valid)
}

/// A `KeysetRoot` is accepted only as the fourth action of its author's
/// chain, authored by the first deepkey agent it names, with a valid
/// signature of that agent's key by the root key; so a chain holds at most
/// one accepted `KeysetRoot` create.
pub proof fn keyset_root_only_at_fourth_position(ksr: KeysetRoot, create: Create, prev_entry: Fetched<EntryTypes>)
    requires
        accepted(create_outcome(EntryTypes::KeysetRoot(ksr), create, prev_entry)),
    ensures
        create.action_seq == 3,
        create.author@ == ksr.first_deepkey_agent@,
        signature_verifies(agent_key_of_core(ksr.root_pub_key@), ksr.signed_fda@, ksr.first_deepkey_agent@),
{
}

/// The first `ChangeRule` is accepted only as the fifth action of the chain,
/// right after the keyset root it names, as a 1-of-1 rule whose only
/// authority is the key of that keyset root's first deepkey agent.
pub proof fn initial_change_rule_is_fda_one_of_one(rule: ChangeRule, create: Create, prev_entry: Fetched<EntryTypes>)
    requires
        accepted(create_outcome(EntryTypes::ChangeRule(rule), create, prev_entry)),
    ensures
        create.action_seq == 4,
        create.prev_action@ == rule.keyset_root@,
        rule.spec_change.new_spec.sigs_required == 1,
        rule.spec_change.new_spec.authorized_signers@.len() == 1,
        prev_entry matches Ok(EntryTypes::KeysetRoot(ksr))
            && rule.spec_change.new_spec.authorized_signers@[0]@ == key_core(ksr.first_deepkey_agent@),
{
}

/// A `ChangeRule` update is accepted only when it updates the chain's
/// `ChangeRule` create, keeps the keyset root, sets a satisfiable spec, and
/// carries at least as many authorizations as the current rule requires,
/// each a valid signature of the serialized new spec by a current authority,
/// no two by the same authority.
pub proof fn change_rule_update_needs_current_authorities(
    rule: ChangeRule,
    original_action_hash: Seq<u8>,
    original_entry: Fetched<EntryTypes>,
    chain: Fetched<Vec<Activity>>,
)
    requires
        accepted(change_rule_update_outcome(rule, original_action_hash, original_entry, chain)),
    ensures
        original_entry matches Ok(EntryTypes::ChangeRule(base)) && base.keyset_root@ == rule.keyset_root@,
        chain matches Ok(activities) && {
            &&& base_change_rule_spec(activities@) == Ok::<Seq<u8>, HostError>(original_action_hash)
            &&& prev_change_rule_spec(activities@) matches Ok(Some(prev)) && {
                &&& sig_count(rule.spec_change.authorization_of_new_spec@.len()) >= prev.spec_change.new_spec.sigs_required
                &&& authorizations_outcome(
                    prev.spec_change.new_spec.authorized_signers@,
                    rule.spec_change.authorization_of_new_spec@,
                    msgpack_authority_spec(
                        rule.spec_change.new_spec.sigs_required,
                        views(rule.spec_change.new_spec.authorized_signers@),
                    ),
                    0,
                ) is Ok
            }
        },
        1 <= rule.spec_change.new_spec.sigs_required <= rule.spec_change.new_spec.authorized_signers@.len(),
        distinct_signers(rule.spec_change.authorization_of_new_spec@),
{
    if let Ok(activities) = chain {
        if let Ok(Some(prev)) = prev_change_rule_spec(activities@) {
            lemma_authorizations_ok_distinct(
                prev.spec_change.new_spec.authorized_signers@,
                rule.spec_change.authorization_of_new_spec@,
                msgpack_authority_spec(
                    rule.spec_change.new_spec.sigs_required,
                    views(rule.spec_change.new_spec.authorized_signers@),
                ),
            );
        }
    }
}

/// A revocation is accepted only when its author registered the revoked
/// key, and it carries at least as many authorizations as the current
/// change rule requires, each a valid signature of the revoked
/// registration's address by a current authority, no two by the same
/// authority.
pub proof fn revocation_needs_current_authorities(
    key_rev: KeyRevocation,
    update: Update,
    registrant: Fetched<RawHash>,
    revocation_range: Fetched<Vec<Activity>>,
    chain: Fetched<Vec<Activity>>,
)
    requires
        revocation_outcome(key_rev, update, registrant, revocation_range, chain) is Ok,
    ensures
        registrant matches Ok(a) && a@ == update.author@,
        chain matches Ok(activities) && prev_change_rule_spec(activities@) matches Ok(Some(rule)) && {
            &&& sig_count(key_rev.revocation_authorization@.len()) >= rule.spec_change.new_spec.sigs_required
            &&& authorizations_outcome(
                rule.spec_change.new_spec.authorized_signers@,
                key_rev.revocation_authorization@,
                key_rev.prior_key_registration@,
                0,
            ) is Ok
        },
        distinct_signers(key_rev.revocation_authorization@),
{
    if let Ok(activities) = chain {
        if let Ok(Some(rule)) = prev_change_rule_spec(activities@) {
            lemma_authorizations_ok_distinct(
                rule.spec_change.new_spec.authorized_signers@,
                key_rev.revocation_authorization@,
                key_rev.prior_key_registration@,
            );
        }
    }
}

proof fn lemma_scan_finds_no_prior_revocation(range: Seq<Activity>, target: Seq<u8>, i: int, k: int)
    requires
        0 <= i <= k < range.len(),
        revocation_scan(range, target, i) is Ok,
        of_type(range[k], EntryTypesUnit::KeyRegistration),
    ensures
        match range[k].entry {
            Ok(EntryTypes::KeyRegistration(KeyRegistration::Update(rev, _))) => rev.prior_key_registration@ != target,
            Ok(EntryTypes::KeyRegistration(KeyRegistration::Delete(rev))) => rev.prior_key_registration@ != target,
            _ => true,
        },
    decreases k - i,
{
    if i < k {
        lemma_scan_finds_no_prior_revocation(range, target, i + 1, k);
    }
}

/// A registration is revoked at most once: an accepted revocation finds no
/// earlier registration on its chain range that revokes the same
/// registration.
pub proof fn registration_revoked_at_most_once(
    key_rev: KeyRevocation,
    update: Update,
    registrant: Fetched<RawHash>,
    range: Vec<Activity>,
    chain: Fetched<Vec<Activity>>,
    k: int,
)
    requires
        revocation_outcome(key_rev, update, registrant, Ok(range), chain) is Ok,
        0 <= k < range@.len(),
        of_type(range@[k], EntryTypesUnit::KeyRegistration),
    ensures
        match range@[k].entry {
            Ok(EntryTypes::KeyRegistration(KeyRegistration::Update(rev, _))) =>
                rev.prior_key_registration@ != key_rev.prior_key_registration@,
            Ok(EntryTypes::KeyRegistration(KeyRegistration::Delete(rev))) =>
                rev.prior_key_registration@ != key_rev.prior_key_registration@,
            _ => true,
        },
{
    lemma_scan_finds_no_prior_revocation(range@, key_rev.prior_key_registration@, 0, k);
}

/// A key registered with `CreateOnly` is never updated.
pub proof fn create_only_never_updated(
    reg: KeyRegistration,
    update: Update,
    original_action_hash: Seq<u8>,
    deps: UpdateDeps,
)
    requires
        deps.original_entry matches Ok(EntryTypes::KeyRegistration(KeyRegistration::CreateOnly(_))),
    ensures
        !accepted(update_outcome(EntryTypes::KeyRegistration(reg), update, original_action_hash, deps)),
{
}

/// Keyset roots, key metas and app bindings are never updated.
pub proof fn fixed_entries_never_updated(
    app_entry: EntryTypes,
    update: Update,
    original_action_hash: Seq<u8>,
    deps: UpdateDeps,
)
    requires
        app_entry is KeysetRoot || app_entry is KeyMeta || app_entry is AppBinding,
    ensures
        update_outcome(app_entry, update, original_action_hash, deps) matches Ok(Verdict::Invalid(_)),
{
}

/// Only key anchors are ever deleted.
pub proof fn only_key_anchors_deleted(deps: DeleteDeps)
    requires
        accepted(delete_outcome(deps)),
    ensures
        deps.original_unit == Ok::<EntryTypesUnit, HostError>(EntryTypesUnit::KeyAnchor),
{
}

/// Only device-name links and app-binding-to-key-meta links are ever deleted.
pub proof fn only_some_links_deleted(removed: Fetched<LinkOrigin>)
    requires
        accepted(delete_link_outcome(removed)),
    ensures
        removed == Ok::<LinkOrigin, HostError>(LinkOrigin::CreateLink(Some(LinkTypes::DeviceName)))
            || removed == Ok::<LinkOrigin, HostError>(LinkOrigin::CreateLink(Some(LinkTypes::AppBindingToKeyMeta))),
{
}

/// The first change rule that init writes (a 1-of-1 spec whose only
/// authority is the FDA's key core, signed by the FDA, under the keyset
/// root) is accepted when it is the fifth action, right after that keyset
/// root, whose first deepkey agent is the FDA.
pub proof fn init_change_rule_is_accepted(rule: ChangeRule, ksr: KeysetRoot, create: Create)
    requires
        ksr.first_deepkey_agent@.len() == 39,
        rule.spec_change.new_spec.sigs_required == 1,
        rule.spec_change.new_spec.authorized_signers@.len() == 1,
        rule.spec_change.new_spec.authorized_signers@[0]@ == key_core(ksr.first_deepkey_agent@),
        create.action_seq == 4,
        create.prev_action@ == rule.keyset_root@,
    ensures
        accepted(create_outcome(EntryTypes::ChangeRule(rule), create, Ok(EntryTypes::KeysetRoot(ksr)))),
{
}

/// The app index that a new app gets is unused: when the app bindings hold
/// the indexes 0, 1, ... in order, their number (while it fits a `u32`) is
/// no binding's index.
pub proof fn next_app_index_is_unused(bindings: Seq<(RawHash, AppBinding)>)
    requires
        bindings.len() <= u32::MAX,
        forall|i: int| 0 <= i < bindings.len() ==> (#[trigger] bindings[i]).1.app_index == i,
    ensures
        forall|i: int| 0 <= i < bindings.len() ==> (#[trigger] bindings[i]).1.app_index != bindings.len() as u32,
{
}

/// The key index that the next key of an app gets is unused by the app's
/// keys: it is above every key index of the app's key metas (while the
/// largest is below `u32::MAX`).
pub proof fn next_key_index_is_unused(bindings: Seq<(RawHash, AppBinding)>, metas: Seq<KeyMeta>, app_index: u32)
    requires
        max_key_index_in_app(bindings, metas, app_index) matches Some(m) ==> m < u32::MAX,
    ensures
        forall|j: int| 0 <= j < metas.len() && meta_in_app(bindings, #[trigger] metas[j], app_index)
            ==> metas[j].key_index < next_key_index(bindings, metas, app_index),
{
    lemma_max_key_index_bounds(bindings, metas, app_index);
}

/// The keys that tracing a lineage back from the anchor at position `k` of
/// one linear update chain collects with `lineage_step`: the key at `k`,
/// then each key it replaced, back to the first (`chain` lists the chain's
/// keys from the first to the last).
pub open spec fn traced_back(chain: Seq<Vec<u8>>, k: int) -> Seq<Vec<u8>> {
    Seq::new((k + 1) as nat, |i: int| chain[k - i])
}

/// The keys that following the first update of each anchor forward from
/// position `k` collects with `lineage_step`: every later key, in order.
pub open spec fn followed_forward(chain: Seq<Vec<u8>>, k: int) -> Seq<Vec<u8>> {
    chain.subrange(k + 1, chain.len() as int)
}

/// The lineage that `assemble_lineage` builds from the key at position `k`.
pub open spec fn lineage_from(chain: Seq<Vec<u8>>, k: int) -> Seq<Vec<u8>> {
    traced_back(chain, k).reverse() + followed_forward(chain, k)
}

/// From any key of one linear update chain, the lineage is the whole chain,
/// first key to last.
pub proof fn lineage_of_any_member_is_the_chain(chain: Seq<Vec<u8>>, k: int)
    requires
        0 <= k < chain.len(),
    ensures
        lineage_from(chain, k) == chain,
{
    assert(traced_back(chain, k).reverse() =~= chain.subrange(0, k + 1));
    assert(lineage_from(chain, k) =~= chain);
}

/// `same_lineage` over the lineages of one linear update chain is
/// reflexive and symmetric on the chain's keys, and false for a key that is
/// not on the chain.
pub proof fn same_lineage_on_one_chain(chain: Seq<Vec<u8>>, k1: int, k2: int, other: Seq<u8>)
    requires
        0 <= k1 < chain.len(),
        0 <= k2 < chain.len(),
        forall|j: int| 0 <= j < chain.len() ==> (#[trigger] chain[j])@ != other,
    ensures
        lineage_holds(lineage_from(chain, k1), chain[k1]@),
        lineage_holds(lineage_from(chain, k1), chain[k2]@),
        lineage_holds(lineage_from(chain, k2), chain[k1]@),
        !lineage_holds(lineage_from(chain, k1), other),
{
    lineage_of_any_member_is_the_chain(chain, k1);
    lineage_of_any_member_is_the_chain(chain, k2);
    assert(lineage_from(chain, k1)[k1]@ == chain[k1]@);
    assert(lineage_from(chain, k1)[k2]@ == chain[k2]@);
    assert(lineage_from(chain, k2)[k1]@ == chain[k1]@);
}

/// Under the integrity rules, an update of a change rule is accepted only
/// when the update names a create, and the signatures on the new spec
/// authorize it under the rule it updates: as many as that rule requires,
/// each by a different one of its signers.
pub proof fn integrity_rule_update_needs_previous_signers(
    vd: ValidateData,
    keyset_root: Dependency,
    previous: Dependency,
    leaf: Dependency,
)
    requires
        update_rule_outcome(vd, keyset_root, previous, leaf) == Ok::<Outcome, HostError>(Outcome::Valid),
    ensures
        vd.element.action.kind is Update,
        previous matches Dependency::Found(pel) && pel.action.kind is Create
            && spec_change_rule_of(pel.entry, Failure::Base(BaseError::EntryMissing)) is Ok
            && spec_change_rule_of(vd.element.entry, Failure::ChangeRule(ChangeRuleError::EntryMissing)) is Ok
            && authorize_result(
                spec_change_rule_of(pel.entry, Failure::Base(BaseError::EntryMissing))->Ok_0,
                spec_change_rule_of(vd.element.entry, Failure::ChangeRule(ChangeRuleError::EntryMissing))->Ok_0.spec_change.authorization_of_new_spec@,
                spec_bytes(spec_change_rule_of(vd.element.entry, Failure::ChangeRule(ChangeRuleError::EntryMissing))->Ok_0.spec_change.new_spec),
            ) is Ok,
        distinct_signers(spec_change_rule_of(vd.element.entry, Failure::ChangeRule(ChangeRuleError::EntryMissing))->Ok_0.spec_change.authorization_of_new_spec@),
{
    if let Dependency::Found(pel) = previous {
        let proposed = spec_change_rule_of(vd.element.entry, Failure::ChangeRule(ChangeRuleError::EntryMissing))->Ok_0;
        lemma_authorized_signers_distinct(
            spec_change_rule_of(pel.entry, Failure::Base(BaseError::EntryMissing))->Ok_0,
            proposed.spec_change.authorization_of_new_spec@,
            spec_bytes(proposed.spec_change.new_spec),
        );
    }
}

/// Under the integrity rules, an updated key registration is accepted only
/// when it revokes a registration that is a `Create` or an `Update`, and the
/// revocation's signatures authorize that registration's hash under the
/// change rule of its generator, each by a different signer of that rule.
pub proof fn integrity_revocation_needs_prior_rule_signers(vd: ValidateData, deps: RegistrationUpdateDeps)
    requires
        update_registration_outcome(vd, deps) == Ok::<Outcome, HostError>(Outcome::Valid),
    ensures
        spec_key_registration_of(vd.element.entry, Failure::Base(BaseError::EntryMissing)) matches Ok(proposed)
            && revocation_of(proposed) is Some,
        deps.prior_registration matches Dependency::Found(pel)
            && spec_key_registration_of(pel.entry, Failure::Base(BaseError::EntryMissing)) matches Ok(prior)
            && (prior is Create || prior is Update),
        deps.prior_change_rule matches Dependency::Found(rel)
            && spec_change_rule_of(rel.entry, Failure::Base(BaseError::EntryMissing)) matches Ok(rule)
            && spec_key_registration_of(vd.element.entry, Failure::Base(BaseError::EntryMissing)) matches Ok(proposed)
            && revocation_of(proposed) matches Some(kr)
            && authorize_result(rule, kr.revocation_authorization@, key_core(kr.prior_key_registration@)) is Ok
            && distinct_signers(kr.revocation_authorization@),
{
    if let Dependency::Found(rel) = deps.prior_change_rule {
        if let Ok(rule) = spec_change_rule_of(rel.entry, Failure::Base(BaseError::EntryMissing)) {
            if let Ok(proposed) = spec_key_registration_of(vd.element.entry, Failure::Base(BaseError::EntryMissing)) {
                if let Some(kr) = revocation_of(proposed) {
                    if authorize_result(rule, kr.revocation_authorization@, key_core(kr.prior_key_registration@)) is Ok {
                        lemma_authorized_signers_distinct(rule, kr.revocation_authorization@, key_core(kr.prior_key_registration@));
                    }
                }
            }
        }
    }
}

} // verus!
