use deepkey::integrity::change_rule::{
    _validate_create_authorization, _validate_create_keyset_root, _validate_keyset_leaf, _validate_spec,
    _validate_update_authorization, _validate_update_keyset_root, validate_create_entry_key_change_rule,
    validate_delete_entry_key_change_rule, validate_update_entry_key_change_rule,
};
use deepkey::integrity::entry::{
    entry_def_index, AuthoritySpec, AuthorizedSpecChange, ChangeRule, DeviceInviteAcceptance, EntryTypes, Generator, Change,
    KeyGeneration, KeyRegistration, KeyRevocation, KeysetRoot, UnitEntryTypes, DEVICE_INVITE_INDEX, DNA_BINDING_INDEX,
    GENERATOR_INDEX, KEYSET_ROOT_INDEX, CHANGE_RULE_INDEX,
};
use deepkey::integrity::error::{BaseError, ChangeRuleError, Failure, KeyRegistrationError, Outcome};
use deepkey::integrity::key_registration::{
    _validate_key_generation, _validate_key_revocation, validate_create_entry_key_registration,
    validate_delete_entry_key_registration, validate_update_entry_key_registration, RegistrationUpdateDeps,
};
use deepkey::integrity::record::{Action, ActionKind, Dependency, Element, EntryContent, RecordEntry, ValidateData};
use hdi::prelude::{
    set_hdi, DnaInfo, Ed25519XSalsa20Poly1305Decrypt, EntryHashed, ExternResult, HashInput, HashOutput, HdiT,
    MustGetActionInput, MustGetAgentActivityInput, MustGetEntryInput, MustGetValidRecordInput, Record,
    RegisterAgentActivity, SignedActionHashed, TraceMsg, VerifySignature, X25519XSalsa20Poly1305Decrypt,
    XSalsa20Poly1305Data, XSalsa20Poly1305Decrypt, ZomeInfo,
};

/// A host whose signature check accepts a signature that starts with the
/// signer's key core and then holds the length of the signed data.
struct FakeHdi;

impl HdiT for FakeHdi {
    fn verify_signature(&self, v: VerifySignature) -> ExternResult<bool> {
        let sig = v.signature.0;
        Ok(sig[0..32] == *v.key.get_raw_32() && sig[32] == (v.data.len() % 256) as u8)
    }
    fn hash(&self, _: HashInput) -> ExternResult<HashOutput> { unreachable!() }
    fn must_get_entry(&self, _: MustGetEntryInput) -> ExternResult<EntryHashed> { unreachable!() }
    fn must_get_action(&self, _: MustGetActionInput) -> ExternResult<SignedActionHashed> { unreachable!() }
    fn must_get_valid_record(&self, _: MustGetValidRecordInput) -> ExternResult<Record> { unreachable!() }
    fn must_get_agent_activity(&self, _: MustGetAgentActivityInput) -> ExternResult<Vec<RegisterAgentActivity>> { unreachable!() }
    fn dna_info(&self, _: ()) -> ExternResult<DnaInfo> { unreachable!() }
    fn zome_info(&self, _: ()) -> ExternResult<ZomeInfo> { unreachable!() }
    fn trace(&self, _: TraceMsg) -> ExternResult<()> { unreachable!() }
    fn x_salsa20_poly1305_decrypt(&self, _: XSalsa20Poly1305Decrypt) -> ExternResult<Option<XSalsa20Poly1305Data>> { unreachable!() }
    fn x_25519_x_salsa20_poly1305_decrypt(&self, _: X25519XSalsa20Poly1305Decrypt) -> ExternResult<Option<XSalsa20Poly1305Data>> { unreachable!() }
    fn ed_25519_x_salsa20_poly1305_decrypt(&self, _: Ed25519XSalsa20Poly1305Decrypt) -> ExternResult<XSalsa20Poly1305Data> { unreachable!() }
}

fn install_host() {
    set_hdi(FakeHdi);
}

fn agent(n: u8) -> Vec<u8> {
    let mut v = vec![0x84, 0x20, 0x24];
    v.extend(vec![n; 32]);
    v.extend(vec![0, 0, 0, 0]);
    v
}

fn action_hash(n: u8) -> Vec<u8> {
    let mut v = vec![0x84, 0x29, 0x24];
    v.extend(vec![n; 32]);
    v.extend(vec![0, 0, 0, 0]);
    v
}

/// A signature that the fake host accepts from the agent with core `n` over
/// data of `len` bytes (or rejects, when `valid` is false).
fn signature(n: u8, len: usize, valid: bool) -> Vec<u8> {
    let mut v = vec![n; 32];
    v.push(if valid { (len % 256) as u8 } else { ((len + 1) % 256) as u8 });
    v.extend(vec![0; 31]);
    v
}

/// The MessagePack length of an authority spec of the integrity rules with
/// `n` (< 16) signers and fewer than 128 required signatures: the map
/// header, the two keys with their string headers, the count, the array
/// header, and each key as a 39-byte byte string.
fn named_spec_len(n: usize) -> usize {
    1 + (1 + 13) + 1 + (1 + 18) + 1 + n * (2 + 39)
}

fn action(kind: ActionKind, author: u8, seq: u32, prev: Option<Vec<u8>>, entry_type: Option<UnitEntryTypes>) -> Action {
    Action { kind, author: agent(author), action_seq: seq, prev_action: prev, entry_type }
}

fn element(action: Action, entry: RecordEntry) -> Element {
    Element { action, entry }
}

fn rule(root: u8, leaf: u8, sigs: u8, signers: Vec<u8>, auths: Vec<(u8, Vec<u8>)>) -> ChangeRule {
    ChangeRule::new(
        action_hash(root),
        action_hash(leaf),
        AuthorizedSpecChange::new(AuthoritySpec::new(sigs, signers.into_iter().map(agent).collect()), auths),
    )
}

fn rule_entry(r: ChangeRule) -> RecordEntry {
    RecordEntry::Present(EntryContent::Typed(EntryTypes::ChangeRule(r)))
}

fn acceptance(root: u8) -> RecordEntry {
    RecordEntry::Present(EntryContent::Typed(EntryTypes::DeviceInviteAcceptance(DeviceInviteAcceptance {
        keyset_root_authority: action_hash(root),
        invite: action_hash(99),
    })))
}

fn acceptance_element(seq: u32, root: u8) -> Element {
    element(action(ActionKind::Create, 1, seq, Some(action_hash(0)), Some(UnitEntryTypes::DeviceInviteAcceptance)), acceptance(root))
}

fn other_element(seq: u32) -> Element {
    element(action(ActionKind::Create, 1, seq, Some(action_hash(0)), Some(UnitEntryTypes::Generator)), RecordEntry::Hidden)
}

fn update_data(seq: u32, original: u8, entry: RecordEntry, package: Option<Vec<Element>>) -> ValidateData {
    ValidateData::new(
        element(action(ActionKind::Update { original_action_address: action_hash(original) }, 1, seq, Some(action_hash(49)), None), entry),
        package,
    )
}

fn is_unresolved(o: &Outcome, hash: &Vec<u8>) -> bool {
    matches!(o, Outcome::Unresolved(h) if h == hash)
}

#[test]
fn test_validate_keyset_leaf() {
    let validate_data = update_data(50, 7, RecordEntry::Hidden, None);
    let change_rule = rule(1, 2, 1, vec![3], vec![]);

    let r = _validate_keyset_leaf(&validate_data, &change_rule, &Dependency::Missing);
    assert!(is_unresolved(&r, &action_hash(2)));

    let leaf = element(action(ActionKind::Update { original_action_address: action_hash(8) }, 1, 25, Some(action_hash(0)), None), acceptance(5));
    let r = _validate_keyset_leaf(&validate_data, &change_rule, &Dependency::Found(leaf));
    assert!(matches!(r, Outcome::Invalid(Failure::Base(BaseError::WrongHeader))));

    let r = _validate_keyset_leaf(&validate_data, &change_rule, &Dependency::Found(acceptance_element(25, 5)));
    assert!(matches!(r, Outcome::Invalid(Failure::ChangeRule(ChangeRuleError::BadKeysetLeaf))));

    let r = _validate_keyset_leaf(&validate_data, &change_rule, &Dependency::Found(acceptance_element(25, 1)));
    assert!(matches!(r, Outcome::Invalid(Failure::ChangeRule(ChangeRuleError::MissingValidationPackage))));

    let newer = update_data(50, 7, RecordEntry::Hidden, Some(vec![other_element(1), acceptance_element(25, 1), other_element(2), acceptance_element(30, 1)]));
    let r = _validate_keyset_leaf(&newer, &change_rule, &Dependency::Found(acceptance_element(25, 1)));
    assert!(matches!(r, Outcome::Invalid(Failure::ChangeRule(ChangeRuleError::StaleKeysetLeaf))));

    let nothing_newer = update_data(50, 7, RecordEntry::Hidden, Some(vec![other_element(1), acceptance_element(25, 1), other_element(2)]));
    let r = _validate_keyset_leaf(&nothing_newer, &change_rule, &Dependency::Found(acceptance_element(25, 1)));
    assert!(matches!(r, Outcome::Valid));

    let older = update_data(50, 7, RecordEntry::Hidden, Some(vec![acceptance_element(10, 1), acceptance_element(25, 1)]));
    let r = _validate_keyset_leaf(&older, &change_rule, &Dependency::Found(acceptance_element(25, 1)));
    assert!(matches!(r, Outcome::Valid));
}

#[test]
fn test_validate_update() {
    install_host();
    let garbage = update_data(9, 7, RecordEntry::NotApplicable, None);
    let r = validate_update_entry_key_change_rule(&garbage, &Dependency::Missing, &Dependency::Missing, &Dependency::Missing);
    assert!(matches!(r, Ok(Outcome::Invalid(Failure::ChangeRule(ChangeRuleError::EntryMissing)))));

    let validate_data = update_data(9, 7, rule_entry(rule(1, 1, 1, vec![3], vec![])), None);
    let r = validate_update_entry_key_change_rule(&validate_data, &Dependency::Missing, &Dependency::Missing, &Dependency::Missing);
    assert!(matches!(r, Ok(ref o) if is_unresolved(o, &action_hash(1))));

    let ksr = element(
        action(ActionKind::Create, 1, 5, Some(action_hash(0)), Some(UnitEntryTypes::KeysetRoot)),
        RecordEntry::Present(EntryContent::Typed(EntryTypes::KeysetRoot(KeysetRoot::new(agent(1), agent(2), vec![0; 64])))),
    );
    let r = validate_update_entry_key_change_rule(&validate_data, &Dependency::Found(ksr), &Dependency::Missing, &Dependency::Missing);
    assert!(matches!(r, Ok(ref o) if is_unresolved(o, &action_hash(7))));
}

#[test]
fn test_validate_delete() {
    let validate_data = update_data(9, 7, RecordEntry::NotApplicable, None);
    let r = validate_delete_entry_key_change_rule(&validate_data);
    assert!(matches!(r, Outcome::Invalid(Failure::ChangeRule(ChangeRuleError::DeleteAttempted))));
}

#[test]
fn test_validate_create() {
    install_host();
    let create = |entry: RecordEntry| ValidateData::new_element_only(element(action(ActionKind::Create, 1, 6, Some(action_hash(1)), None), entry));
    let r = validate_create_entry_key_change_rule(&create(RecordEntry::Hidden), &Dependency::Missing, &Dependency::Missing);
    assert!(matches!(r, Ok(Outcome::Invalid(Failure::ChangeRule(ChangeRuleError::EntryMissing)))));

    let r = validate_create_entry_key_change_rule(&create(rule_entry(rule(1, 1, 1, vec![3], vec![]))), &Dependency::Missing, &Dependency::Missing);
    assert!(matches!(r, Ok(ref o) if is_unresolved(o, &action_hash(1))));
}

#[test]
fn test_validate_spec() {
    let r = _validate_spec(&rule(1, 1, 200, vec![3, 4], vec![]));
    assert!(matches!(r, Outcome::Invalid(Failure::ChangeRule(ChangeRuleError::NotEnoughSigners))));

    let r = _validate_spec(&rule(1, 1, 0, vec![3, 4], vec![]));
    assert!(matches!(r, Outcome::Invalid(Failure::ChangeRule(ChangeRuleError::NotEnoughSignatures))));

    let r = _validate_spec(&rule(1, 1, 3, vec![3, 4, 5], vec![]));
    assert!(matches!(r, Outcome::Valid));
}

#[test]
fn test_validate_create_keyset_root() {
    let change_rule = rule(1, 1, 1, vec![3], vec![]);
    let keyset_root = KeysetRoot::new(agent(4), agent(2), vec![0; 64]);
    let data = |author: u8, prev: u8| ValidateData::new_element_only(element(action(ActionKind::Create, author, 6, Some(action_hash(prev)), None), RecordEntry::Hidden));

    let r = _validate_create_keyset_root(&data(5, 9), &change_rule, &keyset_root);
    assert!(matches!(r, Outcome::Invalid(Failure::ChangeRule(ChangeRuleError::AuthorNotFda))));

    let r = _validate_create_keyset_root(&data(4, 9), &change_rule, &keyset_root);
    assert!(matches!(r, Outcome::Invalid(Failure::ChangeRule(ChangeRuleError::CreateNotAfterKeysetRoot))));

    let r = _validate_create_keyset_root(&data(4, 1), &change_rule, &keyset_root);
    assert!(matches!(r, Outcome::Valid));
}

#[test]
fn test_validate_create_authorization() {
    install_host();
    let validate_data = ValidateData::new_element_only(element(action(ActionKind::Create, 4, 6, Some(action_hash(1)), None), RecordEntry::Hidden));
    let keyset_root = KeysetRoot::new(agent(4), agent(2), vec![0; 64]);
    let len = named_spec_len(1);

    let r = _validate_create_authorization(&validate_data, &rule(1, 1, 1, vec![3], vec![(0, signature(2, len, true)), (0, signature(2, len, true))]), &keyset_root);
    assert!(matches!(r, Ok(Outcome::Invalid(Failure::ChangeRule(ChangeRuleError::MultipleCreateSignatures)))));

    let r = _validate_create_authorization(&validate_data, &rule(1, 1, 1, vec![3], vec![]), &keyset_root);
    assert!(matches!(r, Ok(Outcome::Invalid(Failure::ChangeRule(ChangeRuleError::NoCreateSignature)))));

    let r = _validate_create_authorization(&validate_data, &rule(1, 1, 1, vec![3], vec![(0, signature(2, len, false))]), &keyset_root);
    assert!(matches!(r, Ok(Outcome::Invalid(Failure::ChangeRule(ChangeRuleError::BadCreateSignature)))));

    let r = _validate_create_authorization(&validate_data, &rule(1, 1, 1, vec![3], vec![(0, signature(2, len, true))]), &keyset_root);
    assert!(matches!(r, Ok(Outcome::Valid)));
}

#[test]
fn test_validate_update_keyset_root() {
    let validate_data = update_data(9, 7, RecordEntry::Hidden, None);
    let previous = rule(1, 1, 1, vec![3], vec![]);
    let r = _validate_update_keyset_root(&validate_data, &previous, &rule(2, 2, 1, vec![3], vec![]));
    assert!(matches!(r, Outcome::Invalid(Failure::ChangeRule(ChangeRuleError::KeysetRootMismatch))));

    let r = _validate_update_keyset_root(&validate_data, &previous, &rule(1, 2, 1, vec![3], vec![]));
    assert!(matches!(r, Outcome::Valid));
}

#[test]
fn test_validate_update_authorization() {
    install_host();
    let validate_data = update_data(9, 7, RecordEntry::Hidden, None);
    let len = named_spec_len(1);
    let two = || vec![(0u8, signature(10, len, true)), (2u8, signature(12, len, true))];

    let r = _validate_update_authorization(&validate_data, &rule(1, 1, 3, vec![10, 11, 12], vec![]), &rule(1, 1, 1, vec![20], two()));
    assert!(matches!(r, Ok(Outcome::Invalid(Failure::ChangeRule(ChangeRuleError::WrongNumberOfSignatures)))));

    let r = _validate_update_authorization(&validate_data, &rule(1, 1, 1, vec![10, 11, 12], vec![]), &rule(1, 1, 1, vec![20], two()));
    assert!(matches!(r, Ok(Outcome::Invalid(Failure::ChangeRule(ChangeRuleError::WrongNumberOfSignatures)))));

    let bad = vec![(0u8, signature(10, len, true)), (2u8, signature(12, len, false))];
    let r = _validate_update_authorization(&validate_data, &rule(1, 1, 2, vec![10, 11, 12], vec![]), &rule(1, 1, 1, vec![20], bad));
    assert!(matches!(r, Ok(Outcome::Invalid(Failure::ChangeRule(ChangeRuleError::BadUpdateSignature)))));

    let r = _validate_update_authorization(&validate_data, &rule(1, 1, 2, vec![10, 11, 12], vec![]), &rule(1, 1, 1, vec![20], two()));
    assert!(matches!(r, Ok(Outcome::Valid)));
}

#[test]
fn authorize_position_out_of_bounds() {
    install_host();
    let validate_data = update_data(9, 7, RecordEntry::Hidden, None);
    let len = named_spec_len(1);
    let auths = vec![(50u8, signature(10, len, true)), (0u8, signature(10, len, true))];
    let r = _validate_update_authorization(&validate_data, &rule(1, 1, 2, vec![10, 11, 12], vec![]), &rule(1, 1, 1, vec![20], auths));
    assert!(matches!(r, Ok(Outcome::Invalid(Failure::ChangeRule(ChangeRuleError::AuthorizedPositionOutOfBounds)))));
}

#[test]
fn one_signer_supplies_one_signature() {
    install_host();
    let validate_data = update_data(9, 7, RecordEntry::Hidden, None);
    let len = named_spec_len(1);
    let twice = vec![(0u8, signature(10, len, true)), (0u8, signature(10, len, true))];
    let r = _validate_update_authorization(&validate_data, &rule(1, 1, 2, vec![10, 11, 12], vec![]), &rule(1, 1, 1, vec![20], twice));
    assert!(matches!(r, Ok(Outcome::Invalid(Failure::ChangeRule(ChangeRuleError::RepeatedSigner)))));
}

#[test]
fn device_invite_index_test() {
    assert_eq!(DEVICE_INVITE_INDEX, entry_def_index(UnitEntryTypes::DeviceInvite));
}

#[test]
fn dna_key_binding_index_test() {
    assert_eq!(DNA_BINDING_INDEX, entry_def_index(UnitEntryTypes::DnaBinding));
}

#[test]
fn generator_index_test() {
    assert_eq!(GENERATOR_INDEX, entry_def_index(UnitEntryTypes::Generator));
}

#[test]
fn keyset_root_index_test() {
    assert_eq!(KEYSET_ROOT_INDEX, entry_def_index(UnitEntryTypes::KeysetRoot));
}

#[test]
fn change_rule_index_matches_entry_order() {
    assert_eq!(CHANGE_RULE_INDEX, entry_def_index(UnitEntryTypes::ChangeRule));
}

/// A key generation of the key with core `new_key` from the generator at
/// `generator` whose key has core `gen_key`; the signatures verify as asked.
fn generation(new_key: u8, generator: u8, gen_key: u8, self_ok: bool, gen_ok: bool) -> KeyGeneration {
    KeyGeneration {
        new_key: agent(new_key),
        new_key_signing_of_author: signature(new_key, 32, self_ok),
        generator: action_hash(generator),
        generator_signature: signature(gen_key, 39, gen_ok),
    }
}

fn registration_entry(reg: KeyRegistration) -> RecordEntry {
    RecordEntry::Present(EntryContent::Typed(EntryTypes::KeyRegistration(reg)))
}

fn revocation(prior: u8) -> KeyRevocation {
    KeyRevocation::new(action_hash(prior), vec![(0, signature(3, 32, true))])
}

fn generator_element(author: u8, gen_key: u8, rule_addr: u8) -> Element {
    element(
        action(ActionKind::Create, author, 7, Some(action_hash(0)), Some(UnitEntryTypes::Generator)),
        RecordEntry::Present(EntryContent::Typed(EntryTypes::Generator(Generator::new(action_hash(rule_addr), Change::new(agent(gen_key), vec![]))))),
    )
}

#[test]
fn test_validate_create_entry_key_registration() {
    install_host();
    let data = |entry: RecordEntry| ValidateData::new_element_only(element(action(ActionKind::Create, 1, 8, Some(action_hash(0)), None), entry));

    let r = validate_create_entry_key_registration(&data(RecordEntry::NotApplicable), &Dependency::Missing);
    assert!(matches!(r, Ok(Outcome::Invalid(Failure::Base(BaseError::EntryMissing)))));

    let update = KeyRegistration::Update(revocation(5), generation(6, 7, 8, true, true));
    let r = validate_create_entry_key_registration(&data(registration_entry(update)), &Dependency::Missing);
    assert!(matches!(r, Ok(Outcome::Invalid(Failure::KeyRegistration(KeyRegistrationError::BadOp)))));

    let delete = KeyRegistration::Delete(revocation(5));
    let r = validate_create_entry_key_registration(&data(registration_entry(delete)), &Dependency::Missing);
    assert!(matches!(r, Ok(Outcome::Invalid(Failure::KeyRegistration(KeyRegistrationError::BadOp)))));
}

fn no_deps() -> RegistrationUpdateDeps {
    RegistrationUpdateDeps {
        prior_registration: Dependency::Missing,
        prior_generator: Dependency::Missing,
        prior_change_rule: Dependency::Missing,
        generator: Dependency::Missing,
    }
}

#[test]
fn test_validate_update_entry_key_registration() {
    install_host();
    let r = validate_update_entry_key_registration(&update_data(9, 5, RecordEntry::NotApplicable, None), &no_deps());
    assert!(matches!(r, Ok(Outcome::Invalid(Failure::Base(BaseError::EntryMissing)))));

    let create = registration_entry(KeyRegistration::Create(generation(6, 7, 8, true, true)));
    let r = validate_update_entry_key_registration(&update_data(9, 5, create, None), &no_deps());
    assert!(matches!(r, Ok(Outcome::Invalid(Failure::KeyRegistration(KeyRegistrationError::BadOp)))));

    let proposals = vec![
        KeyRegistration::Update(revocation(5), generation(6, 7, 8, true, true)),
        KeyRegistration::Delete(revocation(5)),
    ];
    for proposed in proposals {
        let validate_data = update_data(9, 5, registration_entry(proposed), None);
        let r = validate_update_entry_key_registration(&validate_data, &no_deps());
        assert!(matches!(r, Ok(ref o) if is_unresolved(o, &action_hash(5))));

        let prior = |reg: KeyRegistration| Dependency::Found(element(action(ActionKind::Create, 1, 8, Some(action_hash(0)), None), registration_entry(reg)));
        let mut deps = no_deps();
        deps.prior_registration = prior(KeyRegistration::Delete(revocation(4)));
        let r = validate_update_entry_key_registration(&validate_data, &deps);
        assert!(matches!(r, Ok(Outcome::Invalid(Failure::KeyRegistration(KeyRegistrationError::Tombstone)))));

        deps.prior_registration = prior(KeyRegistration::Create(generation(2, 11, 12, true, true)));
        let r = validate_update_entry_key_registration(&validate_data, &deps);
        assert!(matches!(r, Ok(ref o) if is_unresolved(o, &action_hash(11))));

        deps.prior_generator = Dependency::Found(generator_element(1, 12, 13));
        let r = validate_update_entry_key_registration(&validate_data, &deps);
        assert!(matches!(r, Ok(ref o) if is_unresolved(o, &action_hash(13))));
    }
}

#[test]
fn test_validate_delete_entry_key_registration() {
    let data = |kind: ActionKind, entry: RecordEntry| ValidateData::new_element_only(element(action(kind, 1, 9, Some(action_hash(0)), None), entry));
    let create = || KeyRegistration::Create(generation(6, 7, 8, true, true));
    let update = || KeyRegistration::Update(revocation(5), generation(6, 7, 8, true, true));
    let delete = || KeyRegistration::Delete(revocation(5));

    let r = validate_delete_entry_key_registration(&data(ActionKind::Create, registration_entry(create())), &Dependency::Missing);
    assert!(matches!(r, Outcome::Invalid(Failure::Base(BaseError::WrongHeader))));

    let r = validate_delete_entry_key_registration(&data(ActionKind::Update { original_action_address: action_hash(3) }, registration_entry(update())), &Dependency::Missing);
    assert!(matches!(r, Outcome::Invalid(Failure::Base(BaseError::WrongHeader))));

    let deleting = || data(ActionKind::Delete { deletes_address: action_hash(4) }, registration_entry(delete()));
    let r = validate_delete_entry_key_registration(&deleting(), &Dependency::Missing);
    assert!(is_unresolved(&r, &action_hash(4)));

    let deleted = |entry: RecordEntry| Dependency::Found(element(action(ActionKind::Delete { deletes_address: action_hash(2) }, 1, 3, Some(action_hash(0)), None), entry));
    let r = validate_delete_entry_key_registration(&deleting(), &deleted(RecordEntry::NotApplicable));
    assert!(matches!(r, Outcome::Invalid(Failure::Base(BaseError::EntryMissing))));

    let r = validate_delete_entry_key_registration(&deleting(), &deleted(registration_entry(create())));
    assert!(matches!(r, Outcome::Invalid(Failure::KeyRegistration(KeyRegistrationError::BadOp))));

    let r = validate_delete_entry_key_registration(&deleting(), &deleted(registration_entry(update())));
    assert!(matches!(r, Outcome::Invalid(Failure::KeyRegistration(KeyRegistrationError::BadOp))));

    let r = validate_delete_entry_key_registration(&deleting(), &deleted(registration_entry(delete())));
    assert!(matches!(r, Outcome::Valid));
}

#[test]
fn test_validate_key_generation() {
    install_host();
    let validate_data = ValidateData::new_element_only(element(action(ActionKind::Create, 1, 8, Some(action_hash(0)), None), RecordEntry::Hidden));

    let r = _validate_key_generation(&validate_data, &generation(6, 7, 8, true, true), &Dependency::Missing);
    assert!(matches!(r, Ok(ref o) if is_unresolved(o, &action_hash(7))));

    let r = _validate_key_generation(&validate_data, &generation(6, 7, 8, true, true), &Dependency::Found(generator_element(2, 8, 9)));
    assert!(matches!(r, Ok(Outcome::Invalid(Failure::KeyRegistration(KeyRegistrationError::BadAuthor)))));

    let r = _validate_key_generation(&validate_data, &generation(6, 7, 8, false, true), &Dependency::Found(generator_element(1, 8, 9)));
    assert!(matches!(r, Ok(Outcome::Invalid(Failure::KeyRegistration(KeyRegistrationError::BadSelfSignature)))));

    let r = _validate_key_generation(&validate_data, &generation(6, 7, 8, true, false), &Dependency::Found(generator_element(1, 8, 9)));
    assert!(matches!(r, Ok(Outcome::Invalid(Failure::KeyRegistration(KeyRegistrationError::BadGeneratorSignature)))));

    let r = _validate_key_generation(&validate_data, &generation(6, 7, 8, true, true), &Dependency::Found(generator_element(1, 8, 9)));
    assert!(matches!(r, Ok(Outcome::Valid)));
}

#[test]
fn test_validate_key_revocation() {
    install_host();
    let prior_rule = rule(1, 1, 1, vec![3], vec![]);
    let with_kind = |kind: ActionKind| ValidateData::new_element_only(element(action(kind, 1, 9, Some(action_hash(0)), None), RecordEntry::Hidden));

    let r = _validate_key_revocation(&with_kind(ActionKind::Create), &prior_rule, &revocation(5));
    assert!(matches!(r, Ok(Outcome::Invalid(Failure::KeyRegistration(KeyRegistrationError::BadOp)))));

    let r = _validate_key_revocation(&with_kind(ActionKind::Delete { deletes_address: action_hash(5) }), &prior_rule, &revocation(5));
    assert!(matches!(r, Ok(Outcome::Invalid(Failure::KeyRegistration(KeyRegistrationError::BadOp)))));

    let r = _validate_key_revocation(&with_kind(ActionKind::Update { original_action_address: action_hash(6) }), &prior_rule, &revocation(5));
    assert!(matches!(r, Ok(Outcome::Invalid(Failure::KeyRegistration(KeyRegistrationError::BadHeaderRef)))));

    let bad = KeyRevocation::new(action_hash(5), vec![(0, signature(3, 32, false))]);
    let r = _validate_key_revocation(&with_kind(ActionKind::Update { original_action_address: action_hash(5) }), &prior_rule, &bad);
    assert!(matches!(r, Ok(Outcome::Invalid(Failure::ChangeRule(ChangeRuleError::BadUpdateSignature)))));

    let r = _validate_key_revocation(&with_kind(ActionKind::Update { original_action_address: action_hash(5) }), &prior_rule, &revocation(5));
    assert!(matches!(r, Ok(Outcome::Valid)));
}
