//! The integrity rules for change rules: the signatures
//! that authorize a new spec, the keyset leaf that a rule hangs from, and
//! the create, update and delete of a rule.
use vstd::prelude::*;
use crate::authority::{distinct_signers, repeated_before, signature_input_ok, verify_key_signature};
use crate::bytes::{bytes_eq, clone_bytes};
use crate::host::{host_encode_named_authority_spec, msgpack_named_authority_spec, signature_verifies, views};
use crate::outcome::{failed_in_host, from_host, HostError, Reason};
use crate::integrity::entry::{Authorization, AuthoritySpec, ChangeRule, KeysetRoot, UnitEntryTypes};
use crate::integrity::error::{alike, alike_checked, then, then_checked, BaseError, ChangeRuleError, Failure, Outcome};
use crate::integrity::record::{
    change_rule_of, device_invite_acceptance_of, keyset_root_of, resolve_dependency, spec_change_rule_of,
    spec_device_invite_acceptance_of, spec_keyset_root_of, ActionKind, Dependency, Element, ValidateData,
};

verus! {

/// The check of the signature at `i`: its position must name a signer that
/// no earlier signature used, and the signature of `data` must verify with
/// that signer's key.
pub open spec fn signature_check(signers: Seq<Vec<u8>>, auths: Seq<Authorization>, data: Seq<u8>, i: int) -> Result<(), ChangeRuleError> {
    let auth = auths[i];
    if (auth.0 as int) >= signers.len() {
        Err(ChangeRuleError::AuthorizedPositionOutOfBounds)
    } else if repeated_before(auths, i) {
        Err(ChangeRuleError::RepeatedSigner)
    } else if !signature_input_ok(signers[auth.0 as int]@, auth.1@) {
        Err(ChangeRuleError::Wasm(HostError::Guest(Reason::MalformedBytes)))
    } else if !signature_verifies(signers[auth.0 as int]@, auth.1@, data) {
        Err(ChangeRuleError::BadUpdateSignature)
    } else {
        Ok(())
    }
}

/// The checks of the signatures from position `i` on; the first that fails decides.
pub open spec fn signatures_check(signers: Seq<Vec<u8>>, auths: Seq<Authorization>, data: Seq<u8>, i: int) -> Result<(), ChangeRuleError>
    decreases auths.len() - i,
{
    if i < 0 || i >= auths.len() {
        Ok(())
    } else {
        match signature_check(signers, auths, data, i) {
            Ok(_) => signatures_check(signers, auths, data, i + 1),
            Err(e) => Err(e),
        }
    }
}

/// What authorizing `data` under a rule gives: exactly as many signatures as
/// the rule requires, each by a distinct signer of the rule.
pub open spec fn authorize_result(rule: ChangeRule, auths: Seq<Authorization>, data: Seq<u8>) -> Result<(), ChangeRuleError> {
    if auths.len() != rule.spec_change.new_spec.sigs_required as int {
        Err(ChangeRuleError::WrongNumberOfSignatures)
    } else {
        signatures_check(rule.spec_change.new_spec.authorized_signers@, auths, data, 0)
    }
}

/// Whether authorizing under a rule asks the host to verify a signature:
/// the number of signatures is right and the first one passes the
/// library's own checks.
pub open spec fn authorize_reaches_host(rule: ChangeRule, auths: Seq<Authorization>) -> bool {
    let signers = rule.spec_change.new_spec.authorized_signers@;
    &&& auths.len() == rule.spec_change.new_spec.sigs_required as int
    &&& auths.len() > 0
    &&& (auths[0].0 as int) < signers.len()
    &&& signature_input_ok(signers[auths[0].0 as int]@, auths[0].1@)
}

/// A failure that the host reported while a rule's check ran.
pub open spec fn host_failure(r: Result<(), ChangeRuleError>) -> bool {
    r matches Err(ChangeRuleError::Wasm(e)) && from_host(e)
}

/// When the checks from position `i` on pass, each of them passes.
proof fn lemma_signatures_ok_each(signers: Seq<Vec<u8>>, auths: Seq<Authorization>, data: Seq<u8>, i: int)
    requires
        0 <= i,
        signatures_check(signers, auths, data, i) is Ok,
    ensures
        forall|k: int| i <= k < auths.len() ==> (#[trigger] signature_check(signers, auths, data, k)) is Ok,
    decreases auths.len() - i,
{
    if i < auths.len() {
        lemma_signatures_ok_each(signers, auths, data, i + 1);
    }
}

/// Signatures that authorize under a rule come from distinct signers.
pub proof fn lemma_authorized_signers_distinct(rule: ChangeRule, auths: Seq<Authorization>, data: Seq<u8>)
    requires
        authorize_result(rule, auths, data) is Ok,
    ensures
        distinct_signers(auths),
{
    lemma_signatures_ok_each(rule.spec_change.new_spec.authorized_signers@, auths, data, 0);
    assert forall|i: int, j: int| 0 <= i < j < auths.len()
        implies (#[trigger] auths[i]).0 != (#[trigger] auths[j]).0 by {
        assert(signature_check(rule.spec_change.new_spec.authorized_signers@, auths, data, j) is Ok);
        if auths[i].0 == auths[j].0 {
            assert(repeated_before(auths, j));
        }
    }
}

/// Whether a signature before position `i` names the signer position of the
/// one at `i`.
fn repeated_signer(authorization: &Vec<Authorization>, i: usize) -> (r: bool)
    requires
        i < authorization@.len(),
    ensures
        r == repeated_before(authorization@, i as int),
{
    let position = authorization[i].0;
    let mut j: usize = 0;
    while j < i
        invariant
            j <= i,
            i < authorization@.len(),
            position == authorization@[i as int].0,
            forall|k: int| 0 <= k < j ==> (#[trigger] authorization@[k]).0 != position,
        decreases i - j,
    {
        if authorization[j].0 == position {
            assert(authorization@[j as int].0 == authorization@[i as int].0);
            return true;
        }
        j = j + 1;
    }
    false
}

impl ChangeRule {
    /// Checks that `authorization` signs `data` under this rule: as many
    /// signatures as the rule requires, each at a signer's position that no
    /// other signature uses, and valid for that signer.  Stops at the first
    /// that fails.  A host failure can only come once the count is right and
    /// the first signature passed the library's own checks.
    pub fn authorize(&self, authorization: &Vec<Authorization>, data: &Vec<u8>) -> (r: Result<(), ChangeRuleError>)
        ensures
            r == authorize_result(*self, authorization@, data@)
                || (authorize_reaches_host(*self, authorization@) && host_failure(r)),
    {
        let spec = &self.spec_change.new_spec;
        if authorization.len() != spec.sigs_required as usize {
            return Err(ChangeRuleError::WrongNumberOfSignatures);
        }
        let mut i: usize = 0;
        while i < authorization.len()
            invariant
                i <= authorization@.len(),
                spec == &self.spec_change.new_spec,
                authorization@.len() == spec.sigs_required as int,
                authorize_result(*self, authorization@, data@)
                    == signatures_check(spec.authorized_signers@, authorization@, data@, i as int),
                i > 0 ==> authorize_reaches_host(*self, authorization@),
            decreases authorization@.len() - i,
        {
            let position = authorization[i].0;
            if position as usize >= spec.authorized_signers.len() {
                return Err(ChangeRuleError::AuthorizedPositionOutOfBounds);
            }
            if repeated_signer(authorization, i) {
                return Err(ChangeRuleError::RepeatedSigner);
            }
            let agent = &spec.authorized_signers[position as usize];
            match verify_key_signature(agent, &authorization[i].1, clone_bytes(data)) {
                Ok(true) => {},
                Ok(false) => {
                    return Err(ChangeRuleError::BadUpdateSignature);
                },
                Err(e) => {
                    return Err(ChangeRuleError::Wasm(e));
                },
            }
            i = i + 1;
        }
        Ok(())
    }
}

/// The bytes that are signed to authorize a spec.
pub open spec fn spec_bytes(spec: AuthoritySpec) -> Seq<u8> {
    msgpack_named_authority_spec(spec.sigs_required, views(spec.authorized_signers@))
}

/// The refusal of a change rule.
pub open spec fn refuse(e: ChangeRuleError) -> Outcome {
    Outcome::Invalid(Failure::ChangeRule(e))
}

/// The number of device invite acceptances in a chain at or after a position.
pub open spec fn acceptances_since(pkg: Seq<Element>, seq: u32) -> nat
    decreases pkg.len(),
{
    if pkg.len() == 0 {
        0
    } else {
        acceptances_since(pkg.drop_last(), seq) + (if pkg.last().action.entry_type == Some(UnitEntryTypes::DeviceInviteAcceptance)
            && pkg.last().action.action_seq >= seq { 1nat } else { 0nat })
    }
}

/// What the check of a change rule's keyset leaf gives: the leaf record
/// must be had; a leaf other than the root must be a created acceptance
/// into the same keyset; and the chain must hold exactly one acceptance at
/// or after the leaf's position.
pub open spec fn keyset_leaf_outcome(vd: ValidateData, rule: ChangeRule, leaf: Dependency) -> Outcome {
    match leaf {
        Dependency::Missing => Outcome::Unresolved(rule.keyset_leaf),
        Dependency::Found(el) => {
            if rule.keyset_root@ != rule.keyset_leaf@ && !(el.action.kind is Create) {
                Outcome::Invalid(Failure::Base(BaseError::WrongHeader))
            } else if rule.keyset_root@ != rule.keyset_leaf@
                && spec_device_invite_acceptance_of(el.entry, Failure::Base(BaseError::EntryMissing)) is Err {
                Outcome::Invalid(spec_device_invite_acceptance_of(el.entry, Failure::Base(BaseError::EntryMissing))->Err_0)
            } else if rule.keyset_root@ != rule.keyset_leaf@
                && spec_device_invite_acceptance_of(el.entry, Failure::Base(BaseError::EntryMissing))->Ok_0.keyset_root_authority@
                    != rule.keyset_root@ {
                refuse(ChangeRuleError::BadKeysetLeaf)
            } else {
                match vd.validation_package {
                    None => refuse(ChangeRuleError::MissingValidationPackage),
                    Some(pkg) => if acceptances_since(pkg@, el.action.action_seq) != 1 {
                        refuse(ChangeRuleError::StaleKeysetLeaf)
                    } else {
                        Outcome::Valid
                    },
                }
            }
        },
    }
}

fn count_acceptances_since(pkg: &Vec<Element>, seq: u32) -> (r: usize)
    ensures
        r == acceptances_since(pkg@, seq),
{
    let mut count: usize = 0;
    let mut i: usize = 0;
    while i < pkg.len()
        invariant
            i <= pkg@.len(),
            count <= i,
            count == acceptances_since(pkg@.subrange(0, i as int), seq),
        decreases pkg@.len() - i,
    {
        assert(pkg@.subrange(0, i as int + 1).drop_last() =~= pkg@.subrange(0, i as int));
        let is_acceptance = match pkg[i].action.entry_type {
            Some(UnitEntryTypes::DeviceInviteAcceptance) => true,
            _ => false,
        };
        if is_acceptance && pkg[i].action.action_seq >= seq {
            count = count + 1;
        }
        i = i + 1;
    }
    assert(pkg@.subrange(0, pkg@.len() as int) =~= pkg@);
    count
}

/// Checks the keyset leaf that a change rule hangs from.
pub fn _validate_keyset_leaf(validate_data: &ValidateData, change_rule: &ChangeRule, leaf: &Dependency) -> (r: Outcome)
    ensures
        alike(r, keyset_leaf_outcome(*validate_data, *change_rule, *leaf)),
{
    let leaf_element = match resolve_dependency(change_rule.as_keyset_leaf_ref(), leaf) {
        Ok(el) => el,
        Err(o) => {
            return o;
        },
    };
    if !bytes_eq(&change_rule.keyset_root, &change_rule.keyset_leaf) {
        if !matches!(leaf_element.action.kind, ActionKind::Create) {
            return Outcome::Invalid(Failure::Base(BaseError::WrongHeader));
        }
        let acceptance = match device_invite_acceptance_of(leaf_element, Failure::Base(BaseError::EntryMissing)) {
            Ok(a) => a,
            Err(f) => {
                return Outcome::Invalid(f);
            },
        };
        if !bytes_eq(change_rule.as_keyset_root_ref(), acceptance.as_keyset_root_authority_ref()) {
            return Outcome::Invalid(Failure::ChangeRule(ChangeRuleError::BadKeysetLeaf));
        }
    }
    match &validate_data.validation_package {
        Some(elements) => {
            if count_acceptances_since(elements, leaf_element.action.action_seq) != 1 {
                return Outcome::Invalid(Failure::ChangeRule(ChangeRuleError::StaleKeysetLeaf));
            }
        },
        None => {
            return Outcome::Invalid(Failure::ChangeRule(ChangeRuleError::MissingValidationPackage));
        },
    }
    Outcome::Valid
}

/// What the check of a spec gives: at least one signature required, and no
/// more than there are signers.
pub open spec fn spec_outcome(rule: ChangeRule) -> Outcome {
    if rule.spec_change.new_spec.sigs_required as int > rule.spec_change.new_spec.authorized_signers@.len() {
        refuse(ChangeRuleError::NotEnoughSigners)
    } else if rule.spec_change.new_spec.sigs_required < 1 {
        refuse(ChangeRuleError::NotEnoughSignatures)
    } else {
        Outcome::Valid
    }
}

/// Checks the spec of a change rule.
pub fn _validate_spec(change_rule: &ChangeRule) -> (r: Outcome)
    ensures
        r == spec_outcome(*change_rule),
{
    let spec = &change_rule.spec_change.new_spec;
    if spec.sigs_required as usize > spec.authorized_signers.len() {
        Outcome::Invalid(Failure::ChangeRule(ChangeRuleError::NotEnoughSigners))
    } else if spec.sigs_required < 1 {
        Outcome::Invalid(Failure::ChangeRule(ChangeRuleError::NotEnoughSignatures))
    } else {
        Outcome::Valid
    }
}

/// What the check of a created rule against its keyset root gives: the
/// author must be the root's FDA, and the rule must follow the root.
pub open spec fn create_keyset_root_outcome(vd: ValidateData, rule: ChangeRule, ksr: KeysetRoot) -> Outcome {
    if ksr.first_deepkey_agent@ != vd.element.action.author@ {
        refuse(ChangeRuleError::AuthorNotFda)
    } else if !(vd.element.action.prev_action matches Some(p) && p@ == rule.keyset_root@) {
        refuse(ChangeRuleError::CreateNotAfterKeysetRoot)
    } else {
        Outcome::Valid
    }
}

/// Checks a created rule against its keyset root.
pub fn _validate_create_keyset_root(validate_data: &ValidateData, change_rule: &ChangeRule, keyset_root: &KeysetRoot) -> (r: Outcome)
    ensures
        r == create_keyset_root_outcome(*validate_data, *change_rule, *keyset_root),
{
    if !bytes_eq(keyset_root.as_first_deepkey_agent_ref(), &validate_data.element.action.author) {
        return Outcome::Invalid(Failure::ChangeRule(ChangeRuleError::AuthorNotFda));
    }
    let follows = match &validate_data.element.action.prev_action {
        Some(prev) => bytes_eq(prev, change_rule.as_keyset_root_ref()),
        None => false,
    };
    if !follows {
        return Outcome::Invalid(Failure::ChangeRule(ChangeRuleError::CreateNotAfterKeysetRoot));
    }
    Outcome::Valid
}

/// What the check of the signature on a created rule gives: exactly one
/// signature, by the keyset root's throwaway key, of the new spec.
pub open spec fn create_authorization_outcome(rule: ChangeRule, ksr: KeysetRoot) -> Result<Outcome, HostError> {
    let auths = rule.spec_change.authorization_of_new_spec@;
    if auths.len() > 1 {
        Ok(refuse(ChangeRuleError::MultipleCreateSignatures))
    } else if auths.len() == 0 {
        Ok(refuse(ChangeRuleError::NoCreateSignature))
    } else if !signature_input_ok(ksr.root_pub_key@, auths[0].1@) {
        Err(HostError::Guest(Reason::MalformedBytes))
    } else if signature_verifies(ksr.root_pub_key@, auths[0].1@, spec_bytes(rule.spec_change.new_spec)) {
        Ok(Outcome::Valid)
    } else {
        Ok(refuse(ChangeRuleError::BadCreateSignature))
    }
}

/// Whether the check of the signature on a created rule asks the host:
/// there is exactly one signature, and it and the root key pass the
/// library's own checks.
pub open spec fn create_authorization_reaches_host(rule: ChangeRule, ksr: KeysetRoot) -> bool {
    let auths = rule.spec_change.authorization_of_new_spec@;
    auths.len() == 1 && signature_input_ok(ksr.root_pub_key@, auths[0].1@)
}

/// Checks the signature on a created rule.
pub fn _validate_create_authorization(validate_data: &ValidateData, change_rule: &ChangeRule, keyset_root: &KeysetRoot) -> (r: Result<Outcome, HostError>)
    ensures
        r == create_authorization_outcome(*change_rule, *keyset_root)
            || (create_authorization_reaches_host(*change_rule, *keyset_root) && failed_in_host(r)),
{
    let auths = change_rule.as_spec_change_ref().as_authorization_of_new_spec_ref();
    if auths.len() > 1 {
        return Ok(Outcome::Invalid(Failure::ChangeRule(ChangeRuleError::MultipleCreateSignatures)));
    }
    if auths.len() == 0 {
        return Ok(Outcome::Invalid(Failure::ChangeRule(ChangeRuleError::NoCreateSignature)));
    }
    let signature = &auths[0].1;
    let spec = change_rule.as_spec_change_ref().as_new_spec_ref();
    let data = match host_encode_named_authority_spec(spec.sigs_required, &spec.authorized_signers) {
        Ok(data) => data,
        Err(e) => {
            return Err(e);
        },
    };
    match verify_key_signature(keyset_root.as_root_pub_key_ref(), signature, data) {
        Ok(true) => Ok(Outcome::Valid),
        Ok(false) => Ok(Outcome::Invalid(Failure::ChangeRule(ChangeRuleError::BadCreateSignature))),
        Err(e) => Err(e),
    }
}

/// What validating a created change rule gives.
pub open spec fn create_rule_outcome(vd: ValidateData, keyset_root: Dependency, leaf: Dependency) -> Result<Outcome, HostError> {
    match spec_change_rule_of(vd.element.entry, Failure::ChangeRule(ChangeRuleError::EntryMissing)) {
        Err(f) => Ok(Outcome::Invalid(f)),
        Ok(rule) => match keyset_root {
            Dependency::Missing => Ok(Outcome::Unresolved(rule.keyset_root)),
            Dependency::Found(el) => match spec_keyset_root_of(el.entry, Failure::Base(BaseError::EntryMissing)) {
                Err(f) => Ok(Outcome::Invalid(f)),
                Ok(ksr) => then_checked(
                    Ok(then(keyset_leaf_outcome(vd, rule, leaf), create_keyset_root_outcome(vd, rule, ksr))),
                    then_checked(create_authorization_outcome(rule, ksr), Ok(spec_outcome(rule))),
                ),
            },
        },
    }
}

/// Whether validating a created change rule asks the host to verify a
/// signature: the rule and its keyset root decode, the leaf and root checks
/// pass, and the signature check is reached.
pub open spec fn create_rule_reaches_host(vd: ValidateData, keyset_root: Dependency, leaf: Dependency) -> bool {
    match spec_change_rule_of(vd.element.entry, Failure::ChangeRule(ChangeRuleError::EntryMissing)) {
        Err(_) => false,
        Ok(rule) => match keyset_root {
            Dependency::Missing => false,
            Dependency::Found(el) => match spec_keyset_root_of(el.entry, Failure::Base(BaseError::EntryMissing)) {
                Err(_) => false,
                Ok(ksr) => then(keyset_leaf_outcome(vd, rule, leaf), create_keyset_root_outcome(vd, rule, ksr)) is Valid
                    && create_authorization_reaches_host(rule, ksr),
            },
        },
    }
}

/// Validates a created change rule: its keyset root must be had, its keyset
/// leaf must be current, it must follow the root on the FDA's chain, be
/// signed by the root's throwaway key, and have a sound spec.  A host
/// failure can only come from the signature check.
pub fn validate_create_entry_key_change_rule(validate_data: &ValidateData, keyset_root: &Dependency, leaf: &Dependency) -> (r: Result<Outcome, HostError>)
    ensures
        alike_checked(r, create_rule_outcome(*validate_data, *keyset_root, *leaf))
            || (create_rule_reaches_host(*validate_data, *keyset_root, *leaf) && failed_in_host(r)),
{
    let proposed = match change_rule_of(&validate_data.element, Failure::ChangeRule(ChangeRuleError::EntryMissing)) {
        Ok(rule) => rule,
        Err(f) => {
            return Ok(Outcome::Invalid(f));
        },
    };
    let ksr_element = match resolve_dependency(proposed.as_keyset_root_ref(), keyset_root) {
        Ok(el) => el,
        Err(o) => {
            return Ok(o);
        },
    };
    let ksr = match keyset_root_of(ksr_element, Failure::Base(BaseError::EntryMissing)) {
        Ok(k) => k,
        Err(f) => {
            return Ok(Outcome::Invalid(f));
        },
    };
    let leaf_outcome = _validate_keyset_leaf(validate_data, proposed, leaf);
    if !matches!(leaf_outcome, Outcome::Valid) {
        return Ok(leaf_outcome);
    }
    let root_outcome = _validate_create_keyset_root(validate_data, proposed, ksr);
    if !matches!(root_outcome, Outcome::Valid) {
        return Ok(root_outcome);
    }
    match _validate_create_authorization(validate_data, proposed, ksr) {
        Ok(Outcome::Valid) => {},
        other => {
            return other;
        },
    }
    Ok(_validate_spec(proposed))
}

/// What the check that an update keeps the keyset root gives.
pub open spec fn update_keyset_root_outcome(previous: ChangeRule, proposed: ChangeRule) -> Outcome {
    if proposed.keyset_root@ != previous.keyset_root@ {
        refuse(ChangeRuleError::KeysetRootMismatch)
    } else {
        Outcome::Valid
    }
}

/// Checks that an updated rule keeps the keyset root of the rule it updates.
pub fn _validate_update_keyset_root(validate_data: &ValidateData, previous_change_rule: &ChangeRule, proposed_change_rule: &ChangeRule) -> (r: Outcome)
    ensures
        r == update_keyset_root_outcome(*previous_change_rule, *proposed_change_rule),
{
    if !bytes_eq(proposed_change_rule.as_keyset_root_ref(), previous_change_rule.as_keyset_root_ref()) {
        Outcome::Invalid(Failure::ChangeRule(ChangeRuleError::KeysetRootMismatch))
    } else {
        Outcome::Valid
    }
}

/// What the check that the previous rule authorizes the new spec gives.
pub open spec fn update_authorization_outcome(previous: ChangeRule, proposed: ChangeRule) -> Outcome {
    match authorize_result(previous, proposed.spec_change.authorization_of_new_spec@, spec_bytes(proposed.spec_change.new_spec)) {
        Ok(_) => Outcome::Valid,
        Err(e) => refuse(e),
    }
}

/// A refusal of a change rule that reports a failure of the host.
pub open spec fn refused_by_host(r: Result<Outcome, HostError>) -> bool {
    r matches Ok(Outcome::Invalid(Failure::ChangeRule(ChangeRuleError::Wasm(e)))) && from_host(e)
}

/// Checks that the signatures on the new spec authorize it under the
/// previous rule.  A host failure can only come once the previous rule's
/// signature check reaches the host.
pub fn _validate_update_authorization(validate_data: &ValidateData, previous_change_rule: &ChangeRule, proposed_change_rule: &ChangeRule) -> (r: Result<Outcome, HostError>)
    ensures
        r == Ok::<Outcome, HostError>(update_authorization_outcome(*previous_change_rule, *proposed_change_rule))
            || (authorize_reaches_host(*previous_change_rule, proposed_change_rule.spec_change.authorization_of_new_spec@)
                && refused_by_host(r)),
{
    let spec = &proposed_change_rule.spec_change.new_spec;
    let data = match host_encode_named_authority_spec(spec.sigs_required, &spec.authorized_signers) {
        Ok(data) => data,
        Err(e) => {
            return Err(e);
        },
    };
    match previous_change_rule.authorize(&proposed_change_rule.spec_change.authorization_of_new_spec, &data) {
        Ok(_) => Ok(Outcome::Valid),
        Err(e) => Ok(Outcome::Invalid(Failure::ChangeRule(e))),
    }
}

/// What the check that an update names the first rule gives.
pub open spec fn flat_update_tree_outcome(previous: Element) -> Outcome {
    if previous.action.kind is Create {
        Outcome::Valid
    } else {
        refuse(ChangeRuleError::BranchingUpdates)
    }
}

/// Checks that the updated rule is the create at the root of the rule's
/// updates, so that every update hangs from it.
pub fn _validate_flat_update_tree(previous_change_rule_element: &Element) -> (r: Outcome)
    ensures
        r == flat_update_tree_outcome(*previous_change_rule_element),
{
    match previous_change_rule_element.action.kind {
        ActionKind::Create => Outcome::Valid,
        _ => Outcome::Invalid(Failure::ChangeRule(ChangeRuleError::BranchingUpdates)),
    }
}

/// What validating an updated change rule gives.
pub open spec fn update_rule_outcome(vd: ValidateData, keyset_root: Dependency, previous: Dependency, leaf: Dependency) -> Result<Outcome, HostError> {
    match spec_change_rule_of(vd.element.entry, Failure::ChangeRule(ChangeRuleError::EntryMissing)) {
        Err(f) => Ok(Outcome::Invalid(f)),
        Ok(rule) => match keyset_root {
            Dependency::Missing => Ok(Outcome::Unresolved(rule.keyset_root)),
            Dependency::Found(ksr_el) => if spec_keyset_root_of(ksr_el.entry, Failure::Base(BaseError::EntryMissing)) is Err {
                Ok(Outcome::Invalid(spec_keyset_root_of(ksr_el.entry, Failure::Base(BaseError::EntryMissing))->Err_0))
            } else {
                match vd.element.action.kind {
                    ActionKind::Update { original_action_address } => match previous {
                        Dependency::Missing => Ok(Outcome::Unresolved(original_action_address)),
                        Dependency::Found(prev_el) => match spec_change_rule_of(prev_el.entry, Failure::Base(BaseError::EntryMissing)) {
                            Err(f) => Ok(Outcome::Invalid(f)),
                            Ok(prev) => then_checked(
                                Ok(then(flat_update_tree_outcome(prev_el), then(keyset_leaf_outcome(vd, rule, leaf),
                                    then(update_keyset_root_outcome(prev, rule), update_authorization_outcome(prev, rule))))),
                                Ok(spec_outcome(rule)),
                            ),
                        },
                    },
                    ActionKind::Delete { .. } => Ok(refuse(ChangeRuleError::DeleteAttempted)),
                    _ => Ok(refuse(ChangeRuleError::WrongHeader)),
                }
            },
        },
    }
}

/// Whether validating an updated change rule asks the host to verify a
/// signature: every check before the previous rule's authorization passes,
/// and that authorization reaches the host.
pub open spec fn update_rule_reaches_host(vd: ValidateData, keyset_root: Dependency, previous: Dependency, leaf: Dependency) -> bool {
    match spec_change_rule_of(vd.element.entry, Failure::ChangeRule(ChangeRuleError::EntryMissing)) {
        Err(_) => false,
        Ok(rule) => match keyset_root {
            Dependency::Missing => false,
            Dependency::Found(ksr_el) => spec_keyset_root_of(ksr_el.entry, Failure::Base(BaseError::EntryMissing)) is Ok
                && match vd.element.action.kind {
                    ActionKind::Update { .. } => match previous {
                        Dependency::Missing => false,
                        Dependency::Found(prev_el) => match spec_change_rule_of(prev_el.entry, Failure::Base(BaseError::EntryMissing)) {
                            Err(_) => false,
                            Ok(prev) => then(flat_update_tree_outcome(prev_el), then(keyset_leaf_outcome(vd, rule, leaf),
                                    update_keyset_root_outcome(prev, rule))) is Valid
                                && authorize_reaches_host(prev, rule.spec_change.authorization_of_new_spec@),
                        },
                    },
                    _ => false,
                },
        },
    }
}

/// Validates an updated change rule under the rule it updates: the keyset
/// root must be had, the update must name the first rule, the leaf must be
/// current, the keyset root kept, the previous rule's signers must
/// authorize the new spec, and the new spec must be sound.  A host failure
/// can only come from the signature checks of the authorization.
pub fn validate_update_entry_key_change_rule(validate_data: &ValidateData, keyset_root: &Dependency, previous: &Dependency, leaf: &Dependency) -> (r: Result<Outcome, HostError>)
    ensures
        alike_checked(r, update_rule_outcome(*validate_data, *keyset_root, *previous, *leaf))
            || (update_rule_reaches_host(*validate_data, *keyset_root, *previous, *leaf) && refused_by_host(r)),
{
    let proposed = match change_rule_of(&validate_data.element, Failure::ChangeRule(ChangeRuleError::EntryMissing)) {
        Ok(rule) => rule,
        Err(f) => {
            return Ok(Outcome::Invalid(f));
        },
    };
    let ksr_element = match resolve_dependency(proposed.as_keyset_root_ref(), keyset_root) {
        Ok(el) => el,
        Err(o) => {
            return Ok(o);
        },
    };
    match keyset_root_of(ksr_element, Failure::Base(BaseError::EntryMissing)) {
        Ok(_) => {},
        Err(f) => {
            return Ok(Outcome::Invalid(f));
        },
    }
    match &validate_data.element.action.kind {
        ActionKind::Update { original_action_address } => {
            let previous_element = match resolve_dependency(original_action_address, previous) {
                Ok(el) => el,
                Err(o) => {
                    return Ok(o);
                },
            };
            let previous_rule = match change_rule_of(previous_element, Failure::Base(BaseError::EntryMissing)) {
                Ok(rule) => rule,
                Err(f) => {
                    return Ok(Outcome::Invalid(f));
                },
            };
            let flat = _validate_flat_update_tree(previous_element);
            if !matches!(flat, Outcome::Valid) {
                return Ok(flat);
            }
            let leaf_outcome = _validate_keyset_leaf(validate_data, proposed, leaf);
            if !matches!(leaf_outcome, Outcome::Valid) {
                return Ok(leaf_outcome);
            }
            let root_outcome = _validate_update_keyset_root(validate_data, previous_rule, proposed);
            if !matches!(root_outcome, Outcome::Valid) {
                return Ok(root_outcome);
            }
            match _validate_update_authorization(validate_data, previous_rule, proposed) {
                Ok(Outcome::Valid) => {},
                other => {
                    return other;
                },
            }
            Ok(_validate_spec(proposed))
        },
        ActionKind::Delete { .. } => Ok(Outcome::Invalid(Failure::ChangeRule(ChangeRuleError::DeleteAttempted))),
        _ => Ok(Outcome::Invalid(Failure::ChangeRule(ChangeRuleError::WrongHeader))),
    }
}

/// A change rule is never deleted.
pub fn validate_delete_entry_key_change_rule(validate_data: &ValidateData) -> (r: Outcome)
    ensures
        r == refuse(ChangeRuleError::DeleteAttempted),
{
    Outcome::Invalid(Failure::ChangeRule(ChangeRuleError::DeleteAttempted))
}

} // verus!
