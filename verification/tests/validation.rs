use deepkey::outcome::{HostError, Reason, Verdict};
use deepkey::types::{
    Activity, ActionType, AppBinding, AuthoritySpec, AuthorizedSpecChange, ChangeRule, Create, Delete, EntryTypes,
    EntryTypesUnit, KeyAnchor, KeyGeneration, KeyMeta, KeyRegistration, KeyRevocation, KeysetRoot, LinkTypes, Update,
};
use deepkey::validation::{validate, FlatOp, OpRecord};
use deepkey::validation::create_private_entry::validation as validate_key_meta;
use deepkey::validation::delete_entry::DeleteDeps;
use deepkey::validation::links::LinkOrigin;
use deepkey::validation::update_entry::UpdateDeps;
use deepkey::authority::check_authorities;
use hdi::prelude::{
    set_hdi, DnaInfo, Ed25519XSalsa20Poly1305Decrypt, EntryHashed, ExternResult, HashInput, HashOutput, HdiT,
    MustGetActionInput, MustGetAgentActivityInput, MustGetEntryInput, MustGetValidRecordInput, Record,
    RegisterAgentActivity, SignedActionHashed, TraceMsg, VerifySignature, X25519XSalsa20Poly1305Decrypt,
    XSalsa20Poly1305Data, XSalsa20Poly1305Decrypt, ZomeInfo,
};

/// A host whose signature check accepts a signature that starts with the
/// signer's key core and then holds the length of the signed data.
struct FakeHdi;

impl HdiT for FakeHdi {
    fn verify_signature(&self, v: VerifySignature) -> ExternResult<bool> {
        let sig = v.signature.0;
        Ok(sig[0..32] == *v.key.get_raw_32() && sig[32] == (v.data.len() % 256) as u8)
    }
    fn hash(&self, _: HashInput) -> ExternResult<HashOutput> { unreachable!() }
    fn must_get_entry(&self, _: MustGetEntryInput) -> ExternResult<EntryHashed> { unreachable!() }
    fn must_get_action(&self, _: MustGetActionInput) -> ExternResult<SignedActionHashed> { unreachable!() }
    fn must_get_valid_record(&self, _: MustGetValidRecordInput) -> ExternResult<Record> { unreachable!() }
    fn must_get_agent_activity(&self, _: MustGetAgentActivityInput) -> ExternResult<Vec<RegisterAgentActivity>> { unreachable!() }
    fn dna_info(&self, _: ()) -> ExternResult<DnaInfo> { unreachable!() }
    fn zome_info(&self, _: ()) -> ExternResult<ZomeInfo> { unreachable!() }
    fn trace(&self, _: TraceMsg) -> ExternResult<()> { unreachable!() }
    fn x_salsa20_poly1305_decrypt(&self, _: XSalsa20Poly1305Decrypt) -> ExternResult<Option<XSalsa20Poly1305Data>> { unreachable!() }
    fn x_25519_x_salsa20_poly1305_decrypt(&self, _: X25519XSalsa20Poly1305Decrypt) -> ExternResult<Option<XSalsa20Poly1305Data>> { unreachable!() }
    fn ed_25519_x_salsa20_poly1305_decrypt(&self, _: Ed25519XSalsa20Poly1305Decrypt) -> ExternResult<XSalsa20Poly1305Data> { unreachable!() }
}

fn install_host() {
    set_hdi(FakeHdi);
}

fn agent(n: u8) -> Vec<u8> {
    let mut v = vec![0x84, 0x20, 0x24];
    v.extend(vec![n; 32]);
    v.extend(vec![0, 0, 0, 0]);
    v
}

fn action_hash(n: u8) -> Vec<u8> {
    let mut v = vec![0x84, 0x29, 0x24];
    v.extend(vec![n; 32]);
    v.extend(vec![0, 0, 0, 0]);
    v
}

/// A signature that the fake host accepts from the agent with core `n` over
/// data of `len` bytes (or rejects, when `valid` is false).
fn signature(n: u8, len: usize, valid: bool) -> Vec<u8> {
    let mut v = vec![n; 32];
    v.push(if valid { (len % 256) as u8 } else { ((len + 1) % 256) as u8 });
    v.extend(vec![0; 31]);
    v
}


fn create(author: u8, seq: u32, prev: u8) -> Create {
    Create { author: agent(author), action_seq: seq, prev_action: action_hash(prev), timestamp: 0 }
}

fn create_op(entry: EntryTypes, action: Create, prev_entry: Result<EntryTypes, HostError>) -> FlatOp {
    FlatOp::StoreRecord(OpRecord::CreateEntry { app_entry: entry, action, prev_entry })
}

fn keyset_root(fda: u8, root: u8, valid: bool) -> KeysetRoot {
    KeysetRoot { first_deepkey_agent: agent(fda), root_pub_key: vec![root; 32], signed_fda: signature(root, 39, valid) }
}

fn spec_rule(ksr: u8, sigs: u8, cores: Vec<u8>, auths: Vec<(u8, Vec<u8>)>) -> ChangeRule {
    ChangeRule {
        keyset_root: action_hash(ksr),
        spec_change: AuthorizedSpecChange {
            new_spec: AuthoritySpec { sigs_required: sigs, authorized_signers: cores.into_iter().map(|c| vec![c; 32]).collect() },
            authorization_of_new_spec: auths,
        },
    }
}

fn invalid(r: Result<Verdict, HostError>) -> Option<Reason> {
    match r {
        Ok(Verdict::Invalid(reason)) => Some(reason),
        _ => None,
    }
}

fn valid(r: &Result<Verdict, HostError>) -> bool {
    matches!(r, Ok(Verdict::Valid))
}

#[test]
fn keyset_root_is_the_fourth_action_signed_by_the_root_key() {
    install_host();
    assert!(valid(&validate(create_op(EntryTypes::KeysetRoot(keyset_root(1, 2, true)), create(1, 3, 0), Err(HostError::Host)))));
    assert!(matches!(
        invalid(validate(create_op(EntryTypes::KeysetRoot(keyset_root(1, 2, true)), create(1, 5, 0), Err(HostError::Host)))),
        Some(Reason::KeysetRootWrongSeq { action_seq: 5 })
    ));
    assert!(matches!(
        invalid(validate(create_op(EntryTypes::KeysetRoot(keyset_root(1, 2, false)), create(1, 3, 0), Err(HostError::Host)))),
        Some(Reason::KeysetRootBadSignature)
    ));
    assert!(matches!(
        invalid(validate(create_op(EntryTypes::KeysetRoot(keyset_root(1, 2, true)), create(9, 3, 0), Err(HostError::Host)))),
        Some(Reason::KeysetRootAuthorNotFda)
    ));
}

#[test]
fn first_change_rule_is_one_of_one_by_the_fda() {
    install_host();
    let prev = || Ok(EntryTypes::KeysetRoot(keyset_root(1, 2, true)));
    assert!(valid(&validate(create_op(EntryTypes::ChangeRule(spec_rule(7, 1, vec![1], vec![])), create(1, 4, 7), prev()))));
    assert!(matches!(
        invalid(validate(create_op(EntryTypes::ChangeRule(spec_rule(7, 1, vec![1], vec![])), create(1, 6, 7), prev()))),
        Some(Reason::ChangeRuleWrongSeq { action_seq: 6 })
    ));
    assert!(matches!(
        invalid(validate(create_op(EntryTypes::ChangeRule(spec_rule(7, 1, vec![1], vec![])), create(1, 4, 8), prev()))),
        Some(Reason::ChangeRuleKeysetRootNotPrev)
    ));
    assert!(matches!(
        invalid(validate(create_op(EntryTypes::ChangeRule(spec_rule(7, 2, vec![1, 3], vec![])), create(1, 4, 7), prev()))),
        Some(Reason::InitialRuleSigsRequired { sigs_required: 2 })
    ));
    assert!(matches!(
        invalid(validate(create_op(EntryTypes::ChangeRule(spec_rule(7, 1, vec![1, 3], vec![])), create(1, 4, 7), prev()))),
        Some(Reason::InitialRuleAuthorityCount { count: 2 })
    ));
    assert!(matches!(
        invalid(validate(create_op(EntryTypes::ChangeRule(spec_rule(7, 1, vec![3], vec![])), create(1, 4, 7), prev()))),
        Some(Reason::InitialRuleAuthorityNotFda)
    ));
}

fn generation(key: u8, valid: bool) -> KeyGeneration {
    KeyGeneration { new_key: agent(key), new_key_signing_of_author: signature(key, 39, valid) }
}

#[test]
fn registrations_are_created_with_a_key_that_signs_the_author() {
    install_host();
    let reg = |r: KeyRegistration| create_op(EntryTypes::KeyRegistration(r), create(1, 8, 0), Err(HostError::Host));
    assert!(valid(&validate(reg(KeyRegistration::Create(generation(5, true))))));
    assert!(valid(&validate(reg(KeyRegistration::CreateOnly(generation(5, true))))));
    assert!(matches!(invalid(validate(reg(KeyRegistration::Create(generation(5, false))))), Some(Reason::KeySignatureMismatch)));
    let revocation = KeyRevocation { prior_key_registration: action_hash(3), revocation_authorization: vec![] };
    assert!(matches!(invalid(validate(reg(KeyRegistration::Delete(revocation)))), Some(Reason::RegistrationNotCreate)));
}

#[test]
fn anchors_follow_the_registration_of_their_key() {
    let anchor = |b: u8| EntryTypes::KeyAnchor(KeyAnchor { bytes: vec![b; 32] });
    let prev = |r: KeyRegistration| Ok(EntryTypes::KeyRegistration(r));
    assert!(valid(&validate(create_op(anchor(5), create(1, 9, 8), prev(KeyRegistration::Create(generation(5, true)))))));
    assert!(matches!(
        invalid(validate(create_op(anchor(6), create(1, 9, 8), prev(KeyRegistration::Create(generation(5, true)))))),
        Some(Reason::AnchorKeyMismatch)
    ));
    let revocation = KeyRevocation { prior_key_registration: action_hash(3), revocation_authorization: vec![] };
    assert!(matches!(
        invalid(validate(create_op(anchor(5), create(1, 9, 8), prev(KeyRegistration::Update(revocation, generation(5, true)))))),
        Some(Reason::AnchorCreateNotAfterRegistration)
    ));
}

fn no_update_deps() -> UpdateDeps {
    UpdateDeps {
        original_entry: Err(HostError::Host),
        prev_entry: Err(HostError::Host),
        chain: Err(HostError::Host),
        registrant: Err(HostError::Host),
        revocation_range: Err(HostError::Host),
        revoked_entry: Err(HostError::Host),
    }
}

fn update(seq: u32) -> Update {
    Update { author: agent(1), action_seq: seq, prev_action: action_hash(0), timestamp: 0, original_action_address: action_hash(5) }
}

#[test]
fn fixed_entries_are_never_updated() {
    let op = |e: EntryTypes| FlatOp::StoreRecord(OpRecord::UpdateEntry { app_entry: e, action: update(10), original_action_hash: action_hash(5), deps: no_update_deps() });
    assert!(matches!(invalid(validate(op(EntryTypes::KeysetRoot(keyset_root(1, 2, true))))), Some(Reason::KeysetRootUpdate)));
    let binding = AppBinding { app_index: 0, app_name: "a".to_string(), installed_app_id: "a".to_string(), dna_hashes: vec![], metadata: vec![] };
    assert!(matches!(invalid(validate(op(EntryTypes::AppBinding(binding)))), Some(Reason::AppBindingUpdate)));
    let meta = KeyMeta { app_binding_addr: action_hash(1), key_index: 0, key_registration_addr: action_hash(2), key_anchor_addr: action_hash(3), derivation_seed: None, derivation_bytes: None };
    assert!(matches!(invalid(validate(op(EntryTypes::KeyMeta(meta)))), Some(Reason::KeyMetaUpdate)));
}

fn rule_activity(addr: u8, rule: ChangeRule) -> Activity {
    Activity {
        action_address: action_hash(addr),
        author: agent(1),
        action_type: ActionType::Create,
        action_seq: 4,
        entry_type: Some(EntryTypesUnit::ChangeRule),
        has_entry_hash: true,
        entry: Ok(EntryTypes::ChangeRule(rule)),
    }
}

/// The serialized 1-of-1 spec with one 32-byte key core: a 2-element array
/// of the count and a 1-element array of a 32-byte byte string.
const ONE_KEY_SPEC_LEN: usize = 5 + 32;

#[test]
fn change_rule_update_is_signed_by_the_current_authorities() {
    install_host();
    let chain = || Ok(vec![rule_activity(5, spec_rule(7, 1, vec![3], vec![]))]);
    let op = |rule: ChangeRule| {
        let mut deps = no_update_deps();
        deps.original_entry = Ok(EntryTypes::ChangeRule(spec_rule(7, 1, vec![3], vec![])));
        deps.chain = chain();
        FlatOp::StoreRecord(OpRecord::UpdateEntry { app_entry: EntryTypes::ChangeRule(rule), action: update(10), original_action_hash: action_hash(5), deps })
    };
    assert!(valid(&validate(op(spec_rule(7, 1, vec![4], vec![(0, signature(3, ONE_KEY_SPEC_LEN, true))])))));
    assert!(matches!(
        invalid(validate(op(spec_rule(7, 1, vec![4], vec![(0, signature(3, ONE_KEY_SPEC_LEN, false))])))),
        Some(Reason::BadAuthorizationSignature)
    ));
    assert!(matches!(
        invalid(validate(op(spec_rule(7, 1, vec![4], vec![(2, signature(3, ONE_KEY_SPEC_LEN, true))])))),
        Some(Reason::AuthIndexOutOfRange { index: 2 })
    ));
    assert!(matches!(invalid(validate(op(spec_rule(7, 1, vec![4], vec![])))), Some(Reason::NotEnoughSignatures { sig_count: 0, sigs_required: 1 })));
    assert!(matches!(invalid(validate(op(spec_rule(7, 0, vec![4], vec![])))), Some(Reason::ZeroSigsRequired)));
    assert!(matches!(invalid(validate(op(spec_rule(7, 2, vec![4], vec![])))), Some(Reason::NotEnoughAuthorities { authorities: 1, sigs_required: 2 })));
    assert!(matches!(invalid(validate(op(spec_rule(8, 1, vec![4], vec![])))), Some(Reason::ChangeRuleKeysetRootChanged)));
}

#[test]
fn only_key_anchors_are_deleted() {
    let op = |unit: EntryTypesUnit, original: EntryTypes| FlatOp::StoreRecord(OpRecord::DeleteEntry {
        action: Delete { author: agent(1), action_seq: 11, prev_action: action_hash(0), timestamp: 0, deletes_address: action_hash(5) },
        deps: DeleteDeps {
            original_unit: Ok(unit),
            original_entry: Ok(original),
            prev_entry: Err(HostError::Host),
            revoked_entry: Err(HostError::Host),
        },
    });
    assert!(matches!(invalid(validate(op(EntryTypesUnit::KeysetRoot, EntryTypes::KeysetRoot(keyset_root(1, 2, true))))), Some(Reason::KeysetRootDelete)));
    assert!(matches!(invalid(validate(op(EntryTypesUnit::ChangeRule, EntryTypes::ChangeRule(spec_rule(7, 1, vec![1], vec![]))))), Some(Reason::ChangeRuleDelete)));
    let anchor = EntryTypes::KeyAnchor(KeyAnchor { bytes: vec![5; 32] });
    let revocation = KeyRevocation { prior_key_registration: action_hash(3), revocation_authorization: vec![] };
    let delete_anchor = FlatOp::StoreRecord(OpRecord::DeleteEntry {
        action: Delete { author: agent(1), action_seq: 11, prev_action: action_hash(0), timestamp: 0, deletes_address: action_hash(5) },
        deps: DeleteDeps {
            original_unit: Ok(EntryTypesUnit::KeyAnchor),
            original_entry: Ok(anchor),
            prev_entry: Ok(EntryTypes::KeyRegistration(KeyRegistration::Delete(revocation))),
            revoked_entry: Ok(EntryTypes::KeyRegistration(KeyRegistration::Create(generation(5, true)))),
        },
    });
    assert!(valid(&validate(delete_anchor)));
}

#[test]
fn links_and_other_ops() {
    assert!(valid(&validate(FlatOp::StoreRecord(OpRecord::CreateLink { link_type: LinkTypes::KSRToChangeRule }))));
    assert!(matches!(invalid(validate(FlatOp::StoreRecord(OpRecord::AgentValidationPkg))), Some(Reason::NoAgentValidation)));
    assert!(valid(&validate(FlatOp::StoreRecord(OpRecord::Other))));
    assert!(valid(&validate(FlatOp::RegisterAgentActivity)));
    assert!(matches!(
        invalid(validate(FlatOp::StoreRecord(OpRecord::DeleteLink { removed: Ok(LinkOrigin::NotCreateLink) }))),
        Some(Reason::DeleteLinkTargetNotCreateLink)
    ));
    assert!(matches!(validate(FlatOp::StoreRecord(OpRecord::DeleteLink { removed: Err(HostError::Host) })), Err(HostError::Host)));
}

#[test]
fn key_indexes_count_up_within_an_app() {
    let meta = |i: u32| KeyMeta { app_binding_addr: action_hash(1), key_index: i, key_registration_addr: action_hash(2), key_anchor_addr: action_hash(3), derivation_seed: None, derivation_bytes: None };
    assert!(matches!(validate_key_meta(&meta(0), None), Verdict::Valid));
    assert!(matches!(validate_key_meta(&meta(1), None), Verdict::Invalid(Reason::KeyMetaWrongIndex { expected: 0 })));
    assert!(matches!(validate_key_meta(&meta(4), Some(&meta(3))), Verdict::Valid));
    assert!(matches!(validate_key_meta(&meta(5), Some(&meta(3))), Verdict::Invalid(Reason::KeyMetaWrongIndex { expected: 4 })));
}

#[test]
fn authorities_sign_in_order() {
    install_host();
    let content = vec![1, 2, 3];
    let authorities = vec![vec![3; 32], vec![4; 32]];
    let count = check_authorities(&authorities, &vec![(0, signature(3, 3, true)), (1, signature(4, 3, true))], &content);
    assert!(matches!(count, Ok(2)));
    let bad = check_authorities(&authorities, &vec![(1, signature(3, 3, true))], &content);
    assert!(matches!(bad, Err(HostError::Guest(Reason::BadAuthorizationSignature))));
}

#[test]
fn one_authority_counts_once() {
    install_host();
    let content = vec![1, 2, 3];
    let authorities = vec![vec![3; 32], vec![4; 32]];
    let twice = check_authorities(&authorities, &vec![(0, signature(3, 3, true)), (0, signature(3, 3, true))], &content);
    assert!(matches!(twice, Err(HostError::Guest(Reason::RepeatedSigner { index: 0 }))));
}

#[test]
fn without_a_host_signature_checks_fail_in_the_host() {
    let content = vec![1, 2, 3];
    let r = check_authorities(&vec![vec![3; 32]], &vec![(0, signature(3, 3, true))], &content);
    assert!(matches!(r, Err(HostError::Guest(Reason::HostMessage(_)))));
}
