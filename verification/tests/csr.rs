use deepkey::csr::app_binding::{
    query_app_binding_by_action, query_app_binding_by_index, query_app_binding_by_key, query_app_bindings,
    query_app_bindings_by_installed_app_id, query_key_info, query_next_app_index,
};
use deepkey::csr::change_rule::{
    construct_authority_spec, fda_authorization, get_current_change_rule_for_ksr, update_change_rule, AuthoritySpecInput,
};
use deepkey::csr::device::get_device_keys;
use deepkey::csr::device_invite_acceptance::{accept_invite, InviteLookup};
use deepkey::csr::error::CsrError;
use deepkey::csr::key_anchor::{
    assemble_lineage, lineage_start, lineage_step, query_action_addr_for_key_anchor, query_key_lineage, query_same_lineage,
    same_lineage, LineageDetails, LineageRecord,
};
use deepkey::csr::key_meta::{
    query_key_meta_for_key, query_key_meta_for_registration, query_key_metas, query_key_metas_for_app_binding,
    query_next_key_index_for_app_index,
};
use deepkey::csr::key_registration::{
    check_existing_derivation_details, create_key, delete_key_registration, get_key_derivation_details, key_anchor_of,
    next_derivation_details, revoke_key, update_key, AppBindingInput, CreateKeyInput, DerivationDetailsInput,
    RevokeKeyInput, UpdateKeyInput,
};
use deepkey::csr::key_state::{key_state, AnchorDetails, Evidence, KeyState};
use deepkey::csr::keyset_root::{fda_key_input, first_change_rule_spec, init_change_rule, keyset_root_from_ephemeral, query_apps_with_keys};
use deepkey::link::{agent_to_link_tag, link_tag_to_agent, AgentLinkTag, Error as LinkTagError};
use deepkey::csr::signal::{get_entry_for_action, signal_action, CommittedAction, RecordLookup, RemovedLink, Signal};
use deepkey::csr::source_of_authority::{query_keyset_authority_action_hash, query_keyset_root_action_hash, query_keyset_root_addr};
use deepkey::csr::utils::{get_chain_index, get_next_update, my_agent_validation_pkg, query_entry_type_first, query_entry_type_latest, IndexOneAction};
use deepkey::outcome::HostError;
use deepkey::types::{
    ActionType, AppBinding, DeviceInvite, DeviceInviteAcceptance, EntryTypes, KeyAnchor, KeyGeneration, KeyMeta,
    KeyRegistration, KeyRevocation, LinkTypes,
};

fn agent(n: u8) -> Vec<u8> {
    let mut v = vec![0x84, 0x20, 0x24];
    v.extend(vec![n; 32]);
    v.extend(vec![0, 0, 0, 0]);
    v
}

fn hash(n: u8) -> Vec<u8> {
    let mut v = vec![0x84, 0x29, 0x24];
    v.extend(vec![n; 32]);
    v.extend(vec![0, 0, 0, 0]);
    v
}

fn binding(index: u32, app: &str) -> AppBinding {
    AppBinding {
        app_index: index,
        app_name: app.to_string(),
        installed_app_id: app.to_string(),
        dna_hashes: vec![hash(200)],
        metadata: vec![],
    }
}

fn meta(binding_addr: u8, key_index: u32, reg: u8, anchor: u8) -> KeyMeta {
    KeyMeta {
        app_binding_addr: hash(binding_addr),
        key_index,
        key_registration_addr: hash(reg),
        key_anchor_addr: hash(anchor),
        derivation_seed: Some(vec![key_index as u8]),
        derivation_bytes: Some(vec![reg]),
    }
}

fn details(actions: Vec<i64>, updates: Vec<i64>, deletes: Vec<i64>) -> Option<AnchorDetails> {
    Some(AnchorDetails::Entry { actions, updates, deletes })
}

#[test]
fn key_state_follows_create_and_delete_times() {
    assert!(matches!(key_state(None, 10), Ok(KeyState::NotFound)));
    assert!(matches!(key_state(details(vec![5], vec![], vec![]), 10), Ok(KeyState::Valid(0))));
    assert!(matches!(key_state(details(vec![5], vec![], vec![]), 5), Ok(KeyState::Valid(0))));
    assert!(matches!(key_state(details(vec![15], vec![], vec![]), 10), Ok(KeyState::Invalid(None))));
    assert!(matches!(key_state(details(vec![5], vec![], vec![8]), 10), Ok(KeyState::Invalid(Some(Evidence::Delete(0))))));
    assert!(matches!(key_state(details(vec![5], vec![], vec![12]), 10), Ok(KeyState::Valid(0))));
    assert!(matches!(key_state(details(vec![5], vec![], vec![12, 9]), 10), Ok(KeyState::Invalid(Some(Evidence::Delete(1))))));
    assert!(matches!(key_state(details(vec![5], vec![7], vec![]), 10), Ok(KeyState::Invalid(Some(Evidence::Update(0))))));
    // A key replaced more than once is invalid from its earliest replacement on.
    assert!(matches!(key_state(details(vec![1], vec![20, 5], vec![]), 15), Ok(KeyState::Invalid(Some(Evidence::Update(1))))));
    assert!(matches!(key_state(details(vec![1], vec![20, 25], vec![]), 15), Ok(KeyState::Valid(0))));
    assert!(matches!(key_state(details(vec![5], vec![11], vec![]), 10), Ok(KeyState::Valid(0))));
    assert!(matches!(key_state(details(vec![], vec![], vec![]), 10), Err(CsrError::NoAnchorActions)));
    assert!(matches!(key_state(Some(AnchorDetails::Record), 10), Err(CsrError::UnexpectedDetails)));
}

#[test]
fn signals_follow_committed_actions() {
    let anchor = || EntryTypes::KeyAnchor(KeyAnchor { bytes: vec![1; 32] });
    assert!(matches!(signal_action(CommittedAction::Create { app_entry: Ok(Some(anchor())) }), Ok(Some(Signal::EntryCreated { .. }))));
    assert!(matches!(signal_action(CommittedAction::Create { app_entry: Ok(None) }), Ok(None)));
    assert!(matches!(signal_action(CommittedAction::Create { app_entry: Err(HostError::Host) }), Ok(None)));
    assert!(matches!(
        signal_action(CommittedAction::Update { app_entry: Ok(Some(anchor())), original_app_entry: Ok(Some(anchor())) }),
        Ok(Some(Signal::EntryUpdated { .. }))
    ));
    assert!(matches!(signal_action(CommittedAction::Update { app_entry: Ok(Some(anchor())), original_app_entry: Ok(None) }), Ok(None)));
    assert!(matches!(signal_action(CommittedAction::Delete { original_app_entry: Ok(Some(anchor())) }), Ok(Some(Signal::EntryDeleted { .. }))));
    assert!(matches!(
        signal_action(CommittedAction::CreateLink { link_type: Ok(Some(LinkTypes::DeviceToKeyAnchor)) }),
        Ok(Some(Signal::LinkCreated { link_type: LinkTypes::DeviceToKeyAnchor }))
    ));
    assert!(matches!(
        signal_action(CommittedAction::DeleteLink { removed: Ok(Some(RemovedLink::CreateLink { link_type: Ok(Some(LinkTypes::DeviceName)) })) }),
        Ok(Some(Signal::LinkDeleted { link_type: LinkTypes::DeviceName }))
    ));
    assert!(matches!(signal_action(CommittedAction::DeleteLink { removed: Ok(None) }), Err(CsrError::CreateLinkNotFound)));
    assert!(matches!(signal_action(CommittedAction::DeleteLink { removed: Ok(Some(RemovedLink::OtherAction)) }), Err(CsrError::NotACreateLink)));
    assert!(matches!(signal_action(CommittedAction::DeleteLink { removed: Err(HostError::Host) }), Err(CsrError::Host(HostError::Host))));
    assert!(matches!(signal_action(CommittedAction::Other), Ok(None)));
}

#[test]
fn entry_for_action_needs_an_app_entry() {
    assert!(matches!(get_entry_for_action(RecordLookup::NoRecord), Ok(None)));
    assert!(matches!(get_entry_for_action(RecordLookup::NoEntry), Ok(None)));
    assert!(matches!(get_entry_for_action(RecordLookup::NotAppEntry), Ok(None)));
    let anchor = EntryTypes::KeyAnchor(KeyAnchor { bytes: vec![1; 32] });
    assert!(matches!(get_entry_for_action(RecordLookup::AppEntry(Ok(Some(anchor)))), Ok(Some(EntryTypes::KeyAnchor(_)))));
}

fn bindings() -> Vec<(Vec<u8>, AppBinding)> {
    query_app_bindings(vec![(hash(1), Some(binding(0, "deepkey"))), (hash(2), None), (hash(3), Some(binding(1, "chat")))])
}

#[test]
fn app_bindings_are_queried_by_index_action_and_app() {
    let b = bindings();
    assert_eq!(b.len(), 2);
    assert_eq!(query_next_app_index(&b), 2);
    let (addr, found) = query_app_binding_by_index(&b, 1).unwrap();
    assert_eq!(*addr, hash(3));
    assert_eq!(found.installed_app_id, "chat");
    assert!(matches!(query_app_binding_by_index(&b, 7), Err(CsrError::NoAppBindingWithIndex { index: 7 })));
    assert_eq!(query_app_binding_by_action(&b, &hash(1)).unwrap().app_index, 0);
    assert!(matches!(query_app_binding_by_action(&b, &hash(2)), Err(CsrError::NoAppBindingWithAction)));
    let chat = query_app_bindings_by_installed_app_id(bindings(), &"chat".to_string());
    assert_eq!(chat.len(), 1);
    assert_eq!(chat[0].0, hash(3));
}

#[test]
fn key_metas_are_queried_by_binding_anchor_and_registration() {
    let metas = query_key_metas(vec![Some(meta(1, 0, 10, 20)), None, Some(meta(3, 0, 11, 21)), Some(meta(3, 1, 12, 22))]);
    assert_eq!(metas.len(), 3);
    assert_eq!(query_key_meta_for_key(&metas, &hash(21)).unwrap().key_registration_addr, hash(11));
    assert!(matches!(query_key_meta_for_key(&metas, &hash(99)), Err(CsrError::NoKeyMetaForAnchor)));
    assert_eq!(query_key_meta_for_registration(&metas, &hash(12)).unwrap().key_index, 1);
    assert!(matches!(query_key_meta_for_registration(&metas, &hash(99)), Err(CsrError::NoKeyMetaForRegistration)));
    let chat = query_key_metas_for_app_binding(metas, &hash(3));
    assert_eq!(chat.len(), 2);
    assert_eq!(chat[1].key_index, 1);
}

#[test]
fn next_key_index_follows_the_latest_key_of_the_app() {
    let b = bindings();
    let metas = vec![meta(1, 0, 10, 20), meta(3, 0, 11, 21), meta(3, 4, 12, 22), meta(1, 1, 13, 23)];
    assert_eq!(query_next_key_index_for_app_index(&b, &metas, 1), 5);
    assert_eq!(query_next_key_index_for_app_index(&b, &metas, 0), 2);
    assert_eq!(query_next_key_index_for_app_index(&b, &metas, 9), 0);
    let wrapped = vec![meta(3, u32::MAX, 11, 21)];
    assert_eq!(query_next_key_index_for_app_index(&b, &wrapped, 1), 0);
}

#[test]
fn app_binding_by_key_goes_through_its_meta() {
    let b = bindings();
    let metas = vec![meta(1, 0, 10, 20), meta(3, 0, 11, 21), meta(9, 0, 12, 22)];
    let (addr, found) = query_app_binding_by_key(&b, &metas, &hash(21)).unwrap();
    assert_eq!(addr, hash(3));
    assert_eq!(found.app_index, 1);
    assert!(matches!(query_app_binding_by_key(&b, &metas, &hash(50)), Err(CsrError::NoKeyMetaForAnchor)));
    assert!(matches!(query_app_binding_by_key(&b, &metas, &hash(22)), Err(CsrError::NoAppBindingWithAction)));

    let d = next_derivation_details(&b, &metas, &hash(21)).unwrap();
    assert_eq!((d.app_index, d.key_index), (1, 1));
    let d = get_key_derivation_details(&b, &metas, &hash(21)).unwrap();
    assert_eq!((d.app_index, d.key_index), (1, 0));
}

fn generation(n: u8) -> KeyGeneration {
    KeyGeneration { new_key: agent(n), new_key_signing_of_author: vec![n; 64] }
}

fn derivation(app_index: u32, key_index: u32) -> DerivationDetailsInput {
    DerivationDetailsInput { app_index, key_index, derivation_seed: vec![7], derivation_bytes: vec![8] }
}

fn app_input() -> AppBindingInput {
    AppBindingInput { app_name: "Example App".to_string(), installed_app_id: "example-app".to_string(), dna_hashes: vec![hash(200)], metadata: vec![] }
}

#[test]
fn creating_a_key_uses_the_next_app_index_and_key_index_zero() {
    let input = CreateKeyInput { key_generation: generation(5), app_binding: app_input(), derivation_details: Some(derivation(1, 0)), create_only: false };
    let plan = create_key(input, 3).unwrap();
    assert!(matches!(plan.registration, KeyRegistration::Create(_)));
    assert_eq!(plan.anchor.bytes, vec![5; 32]);
    assert_eq!(plan.app_binding.app_index, 3);
    assert_eq!(plan.app_binding.installed_app_id, "example-app");
    let m = plan.key_meta(hash(1), hash(2), hash(3));
    assert_eq!(m.key_index, 0);
    assert_eq!(m.app_binding_addr, hash(1));
    assert_eq!(m.derivation_seed, Some(vec![7]));
    assert_eq!(m.derivation_bytes, Some(vec![8]));

    let only = CreateKeyInput { key_generation: generation(5), app_binding: app_input(), derivation_details: None, create_only: true };
    let plan = create_key(only, 0).unwrap();
    assert!(matches!(plan.registration, KeyRegistration::CreateOnly(_)));
    assert_eq!(plan.key_meta(hash(1), hash(2), hash(3)).derivation_seed, None);

    let bad = CreateKeyInput {
        key_generation: KeyGeneration { new_key: vec![1; 10], new_key_signing_of_author: vec![0; 64] },
        app_binding: app_input(),
        derivation_details: None,
        create_only: false,
    };
    assert!(matches!(create_key(bad, 0), Err(CsrError::MalformedKey)));
    assert!(matches!(key_anchor_of(&vec![1; 38]), Err(CsrError::MalformedKey)));
}

fn revocation(prior: u8) -> KeyRevocation {
    KeyRevocation { prior_key_registration: hash(prior), revocation_authorization: vec![(0, vec![1; 64])] }
}

#[test]
fn replacing_a_key_keeps_its_app_and_advances_its_key_index() {
    let b = bindings();
    let metas = vec![meta(1, 0, 10, 20), meta(3, 0, 11, 21), meta(3, 1, 12, 22)];
    let input = UpdateKeyInput { key_revocation: revocation(12), key_generation: generation(6), derivation_details: None };
    let plan = update_key(input, &metas, &b).unwrap();
    assert_eq!(plan.app_binding_addr, hash(3));
    assert_eq!(plan.key_index, 2);
    assert_eq!(plan.anchor.bytes, vec![6; 32]);
    assert!(matches!(plan.registration, KeyRegistration::Update(_, _)));
    let m = plan.key_meta(hash(30), hash(31));
    assert_eq!((m.app_binding_addr.clone(), m.key_index, m.key_registration_addr.clone()), (hash(3), 2, hash(30)));

    let given = UpdateKeyInput { key_revocation: revocation(12), key_generation: generation(6), derivation_details: Some(derivation(1, 2)) };
    assert_eq!(update_key(given, &metas, &b).unwrap().key_index, 2);

    let wrong_index = UpdateKeyInput { key_revocation: revocation(12), key_generation: generation(6), derivation_details: Some(derivation(1, 9)) };
    assert!(matches!(update_key(wrong_index, &metas, &b), Err(CsrError::DerivationKeyIndexMismatch { given: 9, next: 2 })));

    // The next key index is one more than the largest of the app, not the latest's.
    let unordered = vec![meta(1, 0, 10, 20), meta(3, 3, 11, 21), meta(3, 2, 12, 22)];
    let input = UpdateKeyInput { key_revocation: revocation(12), key_generation: generation(6), derivation_details: None };
    assert_eq!(update_key(input, &unordered, &b).unwrap().key_index, 4);
    assert_eq!(query_next_key_index_for_app_index(&b, &unordered, 1), 4);

    let mismatch = UpdateKeyInput { key_revocation: revocation(12), key_generation: generation(6), derivation_details: Some(derivation(0, 9)) };
    assert!(matches!(update_key(mismatch, &metas, &b), Err(CsrError::DerivationAppIndexMismatch { given: 0, prior: 1 })));

    let unknown = UpdateKeyInput { key_revocation: revocation(99), key_generation: generation(6), derivation_details: None };
    assert!(matches!(update_key(unknown, &metas, &b), Err(CsrError::NoKeyMetaForRegistration)));
}

#[test]
fn revoking_a_key_writes_a_delete_registration() {
    assert!(matches!(revoke_key(RevokeKeyInput { key_revocation: revocation(4) }), KeyRegistration::Delete(ref r) if r.prior_key_registration == hash(4)));
    assert!(matches!(delete_key_registration(revocation(5)), KeyRegistration::Delete(ref r) if r.prior_key_registration == hash(5)));
}

#[test]
fn existing_derivations_are_found_by_bytes_or_by_app_and_seed() {
    let b = bindings();
    let metas = vec![meta(1, 0, 10, 20), meta(3, 0, 11, 21)];
    let by_bytes = DerivationDetailsInput { app_index: 5, key_index: 0, derivation_seed: vec![42], derivation_bytes: vec![11] };
    let (ab, m) = check_existing_derivation_details(&by_bytes, &metas, &b).unwrap().unwrap();
    assert_eq!((ab.app_index, m.key_registration_addr.clone()), (1, hash(11)));

    let by_seed = DerivationDetailsInput { app_index: 0, key_index: 0, derivation_seed: vec![0], derivation_bytes: vec![99] };
    let (ab, m) = check_existing_derivation_details(&by_seed, &metas, &b).unwrap().unwrap();
    assert_eq!((ab.app_index, m.key_registration_addr.clone()), (0, hash(10)));

    let none = DerivationDetailsInput { app_index: 7, key_index: 0, derivation_seed: vec![0], derivation_bytes: vec![99] };
    assert!(check_existing_derivation_details(&none, &metas, &b).unwrap().is_none());

    let orphan = vec![meta(9, 0, 10, 20)];
    assert!(matches!(check_existing_derivation_details(&none, &orphan, &b), Err(CsrError::NoAppBindingWithAction)));
}

#[test]
fn lineage_runs_from_the_first_key_to_the_latest() {
    let lineage = assemble_lineage(vec![vec![3], vec![2], vec![1]], vec![vec![4], vec![5]]);
    assert_eq!(lineage, vec![vec![1], vec![2], vec![3], vec![4], vec![5]]);
    assert!(same_lineage(&lineage, &vec![4]));
    assert!(!same_lineage(&lineage, &vec![9]));
    assert!(query_same_lineage(&lineage, &vec![1]));

    let (creation, next) = lineage_start(Some(LineageDetails::Entry { actions: vec![hash(1), hash(2)], updates: vec![hash(3)] })).unwrap();
    assert_eq!((creation, next), (hash(1), Some(hash(3))));
    assert!(matches!(lineage_start(None), Err(CsrError::RecordNotFound)));
    assert!(matches!(lineage_start(Some(LineageDetails::Record)), Err(CsrError::UnexpectedDetails)));
    assert!(matches!(lineage_start(Some(LineageDetails::Entry { actions: vec![], updates: vec![] })), Err(CsrError::NoAnchorActions)));

    let metas = vec![meta(1, 0, 10, 20), meta(3, 0, 11, 21), meta(3, 1, 12, 22)];
    let keys = query_key_lineage(metas, &hash(22)).unwrap();
    assert_eq!(keys.iter().map(|m| m.key_anchor_addr.clone()).collect::<Vec<_>>(), vec![hash(21), hash(22)]);
    assert!(matches!(query_key_lineage(vec![], &hash(22)), Err(CsrError::NoKeyMetaForAnchor)));

    let anchors = vec![(hash(20), None), (hash(21), Some(hash(70))), (hash(22), Some(hash(70)))];
    assert_eq!(*query_action_addr_for_key_anchor(&anchors, &hash(70)).unwrap(), hash(21));
    assert!(matches!(query_action_addr_for_key_anchor(&anchors, &hash(71)), Err(CsrError::NoKeyAnchorForHash)));
}

#[test]
fn authority_spec_is_serialized_as_a_pair() {
    let (spec, bytes) = construct_authority_spec(AuthoritySpecInput { sigs_required: 1, authorized_signers: vec![vec![9; 32]] }).unwrap();
    assert_eq!(spec.sigs_required, 1);
    let mut expected = vec![0x92, 0x01, 0x91, 0xc4, 0x20];
    expected.extend(vec![9; 32]);
    assert_eq!(bytes, expected);
    assert!(matches!(construct_authority_spec(AuthoritySpecInput { sigs_required: 1, authorized_signers: vec![vec![9; 31]] }), Err(CsrError::MalformedKey)));
}

#[test]
fn current_change_rule_is_the_latest_link_target() {
    let links = vec![(5, Some(hash(1))), (9, Some(hash(2))), (12, None), (9, Some(hash(3))), (3, Some(hash(4)))];
    assert_eq!(get_current_change_rule_for_ksr(links).unwrap(), hash(3));
    assert!(matches!(get_current_change_rule_for_ksr(vec![(1, None)]), Err(CsrError::NoChangeRulesForKsr)));
}

#[test]
fn next_update_is_the_latest() {
    assert_eq!(get_next_update(vec![(4, hash(1)), (8, hash(2)), (8, hash(3)), (2, hash(4))]), Some(hash(3)));
    assert_eq!(get_next_update(vec![]), None);
}

#[test]
fn change_rule_update_targets_the_first_rule() {
    let spec = || AuthoritySpecInput { sigs_required: 1, authorized_signers: vec![vec![9; 32], vec![8; 32]] };
    let auths = fda_authorization(vec![1; 64]);
    assert_eq!(auths.len(), 1);
    assert_eq!(auths[0].0, 0);
    let (target, rule) = update_change_rule(spec(), auths, &vec![(hash(5), true), (hash(6), true)], Some(hash(1))).unwrap();
    assert_eq!(target, hash(5));
    assert_eq!(rule.keyset_root, hash(1));
    assert_eq!(rule.spec_change.new_spec.authorized_signers.len(), 2);
    assert!(matches!(update_change_rule(spec(), vec![], &vec![], Some(hash(1))), Err(CsrError::NoChangeRuleToUpdate)));
    assert!(matches!(update_change_rule(spec(), vec![], &vec![(hash(5), false)], Some(hash(1))), Err(CsrError::NotAChangeRule)));
    assert!(matches!(update_change_rule(spec(), vec![], &vec![(hash(5), true)], None), Err(CsrError::NoKeysetRoot)));
}

#[test]
fn init_builds_keyset_root_rule_and_fda_key() {
    let ksr = keyset_root_from_ephemeral(agent(1), &agent(2), vec![vec![3; 64], vec![4; 64]]).unwrap();
    assert_eq!(ksr.first_deepkey_agent, agent(1));
    assert_eq!(ksr.root_pub_key, vec![2; 32]);
    assert_eq!(ksr.signed_fda, vec![3; 64]);
    assert!(matches!(keyset_root_from_ephemeral(agent(1), &agent(2), vec![]), Err(CsrError::NoEphemeralSignature)));

    let rule = init_change_rule(hash(7), 1, vec![vec![1; 32]], vec![5; 64]);
    assert_eq!(rule.keyset_root, hash(7));
    assert_eq!(rule.spec_change.new_spec.sigs_required, 1);
    assert_eq!(rule.spec_change.authorization_of_new_spec, vec![(0, vec![5; 64])]);

    let input = fda_key_input(agent(1), vec![6; 64], hash(200));
    assert_eq!(input.app_binding.app_name, "deepkey");
    assert_eq!(input.app_binding.installed_app_id, "deepkey");
    assert_eq!(input.app_binding.dna_hashes, vec![hash(200)]);
    let d = input.derivation_details.as_ref().unwrap();
    assert_eq!((d.app_index, d.key_index), (0, 0));
    assert!(!input.create_only);
}

#[test]
fn apps_are_listed_with_their_keys() {
    let records = vec![
        (hash(1), ActionType::Create, Some(binding(0, "deepkey"))),
        (hash(2), ActionType::Update, Some(binding(5, "old"))),
        (hash(3), ActionType::Create, Some(binding(1, "chat"))),
        (hash(4), ActionType::Create, None),
    ];
    let metas = vec![meta(1, 0, 10, 20), meta(3, 0, 11, 21), meta(3, 1, 12, 22)];
    let apps = query_apps_with_keys(records, &metas);
    assert_eq!(apps.len(), 2);
    assert_eq!(apps[0].0.app_index, 0);
    assert_eq!(apps[0].1.len(), 1);
    assert_eq!(apps[1].1.iter().map(|m| m.key_index).collect::<Vec<_>>(), vec![0, 1]);

    let infos = query_key_info(
        vec![(hash(1), Some(binding(0, "deepkey"))), (hash(3), Some(binding(1, "chat")))],
        &vec![
            (meta(1, 0, 10, 20), Some(KeyRegistration::Create(generation(1)))),
            (meta(3, 0, 11, 21), None),
            (meta(3, 1, 12, 22), Some(KeyRegistration::Delete(revocation(11)))),
        ],
    );
    assert_eq!(infos.len(), 2);
    assert_eq!(infos[0].1.len(), 1);
    assert_eq!(infos[1].1.len(), 1);
    assert!(matches!(infos[1].1[0].1, KeyRegistration::Delete(_)));
}

#[test]
fn keyset_authority_prefers_an_accepted_invite() {
    let dia = DeviceInviteAcceptance { keyset_root_authority: hash(8), invite: hash(9) };
    assert_eq!(query_keyset_authority_action_hash(Some(Some(dia)), Some(hash(1))).unwrap(), hash(8));
    assert_eq!(query_keyset_authority_action_hash(None, Some(hash(1))).unwrap(), hash(1));
    assert!(matches!(query_keyset_authority_action_hash(Some(None), Some(hash(1))), Err(CsrError::NotAnAcceptance)));
    assert!(matches!(query_keyset_authority_action_hash(None, None), Err(CsrError::NoKeysetRoot)));
    assert!(matches!(query_keyset_root_action_hash(None), Err(CsrError::NoKeysetRoot)));
    assert_eq!(query_keyset_root_addr(Some(hash(2))).unwrap(), hash(2));
}

#[test]
fn accepting_an_invite_links_root_and_invitee() {
    let dia = DeviceInviteAcceptance { keyset_root_authority: hash(8), invite: hash(9) };
    let invite = DeviceInvite { keyset_root_authority: hash(8), parent: hash(7), invitee: agent(5) };
    assert_eq!(accept_invite(&dia, InviteLookup::Invite(invite)).unwrap(), (hash(8), agent(5)));
    assert!(matches!(accept_invite(&dia, InviteLookup::NoRecord), Err(CsrError::InviteNotFound)));
    assert!(matches!(accept_invite(&dia, InviteLookup::NoEntry), Err(CsrError::InviteNotFound)));
    assert!(matches!(accept_invite(&dia, InviteLookup::Undecodable), Err(CsrError::NotADeviceInvite)));
}

#[test]
fn device_keys_keep_fetched_anchors() {
    let keys = get_device_keys(vec![
        Some((Some(hash(1)), Some(KeyAnchor { bytes: vec![1; 32] }))),
        None,
        Some((None, Some(KeyAnchor { bytes: vec![2; 32] }))),
        Some((Some(hash(4)), None)),
        Some((Some(hash(5)), Some(KeyAnchor { bytes: vec![5; 32] }))),
    ]);
    assert_eq!(keys.len(), 2);
    assert_eq!(keys[1].0, hash(5));
}

#[test]
fn chain_queries_take_the_last_record() {
    assert_eq!(query_entry_type_latest(vec![1, 2, 3]), Some(3));
    assert_eq!(query_entry_type_first(vec![1, 2, 3]), Some(3));
    assert_eq!(get_chain_index::<u8>(vec![]), None);
    assert_eq!(my_agent_validation_pkg(Some(IndexOneAction::AgentValidationPkg(7))).unwrap(), 7);
    assert!(matches!(my_agent_validation_pkg::<u8>(Some(IndexOneAction::Other)), Err(CsrError::IndexOneNotAgentValidationPkg)));
    assert!(matches!(my_agent_validation_pkg::<u8>(None), Err(CsrError::ChainMissingIndexOne)));
}


#[test]
fn a_lineage_step_appends_the_anchor_key_and_names_the_next_record() {
    let mut keys: Vec<Vec<u8>> = vec![vec![1; 32]];
    let next = lineage_step(&mut keys, LineageRecord { anchor: Some(KeyAnchor { bytes: vec![2; 32] }), next: Some(hash(7)) });
    assert!(matches!(next, Ok(Some(ref a)) if *a == hash(7)));
    assert_eq!(keys, vec![vec![1; 32], vec![2; 32]]);
    let last = lineage_step(&mut keys, LineageRecord { anchor: Some(KeyAnchor { bytes: vec![3; 32] }), next: None });
    assert!(matches!(last, Ok(None)));
    assert_eq!(keys.len(), 3);
    let refused = lineage_step(&mut keys, LineageRecord { anchor: None, next: Some(hash(8)) });
    assert!(matches!(refused, Err(CsrError::NotAKeyAnchor)));
    assert_eq!(keys.len(), 3);
}

#[test]
fn the_first_change_rule_is_one_of_one_with_the_fda_key() {
    let mut fda = vec![0x84, 0x20, 0x24];
    fda.extend(vec![9u8; 32]);
    fda.extend(vec![1, 2, 3, 4]);
    let spec = first_change_rule_spec(&fda).unwrap();
    assert_eq!(spec.sigs_required, 1);
    assert_eq!(spec.authorized_signers, vec![vec![9u8; 32]]);
    assert!(matches!(first_change_rule_spec(&vec![1; 32]), Err(CsrError::MalformedKey)));
}

#[test]
fn an_agent_link_tag_names_its_agent() {
    let agent = hash(5);
    let tag = agent_to_link_tag(7, &agent).unwrap();
    assert_eq!(tag.len(), 40);
    assert_eq!(tag[0], 7);
    assert_eq!(&tag[1..], &agent[..]);
    assert_eq!(link_tag_to_agent(7, tag.clone()).unwrap(), agent);
    assert!(matches!(link_tag_to_agent(8, tag.clone()), Err(LinkTagError::NotAgentTag)));
    assert!(matches!(link_tag_to_agent(7, vec![7; 12]), Err(LinkTagError::NotAgentTag)));
    assert!(matches!(agent_to_link_tag(7, &vec![1; 32]), Err(LinkTagError::NotAgentKey)));
    let read = AgentLinkTag::try_from_link_tag(7, tag).ok().unwrap();
    assert_eq!(read.agent(), agent);
}

/// Traces the lineage from position `k` of a chain of keys the way the
/// coordinator does: back along the replaced anchors, then forward along
/// the first updates.
fn trace(chain: &[Vec<u8>], k: usize) -> Vec<Vec<u8>> {
    let mut history = vec![];
    let mut at = Some(k);
    while let Some(i) = at {
        let next = if i > 0 { Some(hash(i as u8 - 1)) } else { None };
        let step = lineage_step(&mut history, LineageRecord { anchor: Some(KeyAnchor { bytes: chain[i].clone() }), next }).unwrap();
        at = step.map(|_| i - 1);
    }
    let mut evolutions = vec![];
    let mut at = if k + 1 < chain.len() { Some(k + 1) } else { None };
    while let Some(i) = at {
        let next = if i + 1 < chain.len() { Some(hash(i as u8 + 1)) } else { None };
        let step = lineage_step(&mut evolutions, LineageRecord { anchor: Some(KeyAnchor { bytes: chain[i].clone() }), next }).unwrap();
        at = step.map(|_| i + 1);
    }
    assemble_lineage(history, evolutions)
}

#[test]
fn keys_on_one_update_chain_share_a_lineage() {
    let chain = vec![vec![1u8; 32], vec![2u8; 32], vec![3u8; 32]];
    for k in 0..3 {
        assert_eq!(trace(&chain, k), chain);
    }
    let other = vec![9u8; 32];
    assert!(same_lineage(&trace(&chain, 0), &chain[2]));
    assert!(same_lineage(&trace(&chain, 2), &chain[0]));
    assert!(same_lineage(&trace(&chain, 1), &chain[1]));
    assert!(!same_lineage(&trace(&chain, 1), &other));
}
