//! The keyset root that the first deepkey agent (FDA) commits at init, the
//! first change rule, the registration of the FDA's own key, and the keys
//! of the keyset's apps.
use vstd::prelude::*;
use crate::authority::{key_core, keybytes_from_agentpubkey};
use crate::bytes::bytes_eq;
use crate::copies::same_meta;
use crate::csr::app_binding::query_app_bindings;
use crate::csr::error::CsrError;
use crate::csr::key_meta::metas_for_binding;
use crate::csr::key_registration::{AppBindingInput, CreateKeyInput, DerivationDetailsInput};
use crate::types::{ActionType, AppBinding, Authorization, AuthoritySpec, AuthorizedSpecChange, ChangeRule, KeyGeneration, KeyMeta, KeysetRoot, RawHash};

verus! {

/// The keyset root of an FDA from its ephemeral signing: the core of the
/// throwaway key, and the first signature, which signs the FDA's key.
pub fn keyset_root_from_ephemeral(fda: RawHash, ephemeral_key: &RawHash, signatures: Vec<Vec<u8>>) -> (r: Result<KeysetRoot, CsrError>)
    ensures
        signatures@.len() == 0 ==> r == Err::<KeysetRoot, CsrError>(CsrError::NoEphemeralSignature),
        signatures@.len() > 0 && ephemeral_key@.len() != 39 ==> r == Err::<KeysetRoot, CsrError>(CsrError::MalformedKey),
        signatures@.len() > 0 && ephemeral_key@.len() == 39 ==> (r matches Ok(ksr) && ksr.first_deepkey_agent == fda
            && ksr.root_pub_key@ == key_core(ephemeral_key@) && ksr.signed_fda == signatures@[0]),
{
    let mut signatures = signatures;
    if signatures.len() == 0 {
        return Err(CsrError::NoEphemeralSignature);
    }
    let signed_fda = signatures.swap_remove(0);
    let root_pub_key = match keybytes_from_agentpubkey(ephemeral_key) {
        Ok(core) => core,
        Err(_) => {
            return Err(CsrError::MalformedKey);
        },
    };
    Ok(KeysetRoot { first_deepkey_agent: fda, root_pub_key, signed_fda })
}

/// The spec of a keyset's first change rule: one signature required, and
/// the FDA's key core as the only authority.
pub fn first_change_rule_spec(fda: &RawHash) -> (r: Result<AuthoritySpec, CsrError>)
    ensures
        fda@.len() != 39 ==> r == Err::<AuthoritySpec, CsrError>(CsrError::MalformedKey),
        fda@.len() == 39 ==> (r matches Ok(spec) && spec.sigs_required == 1
            && spec.authorized_signers@.len() == 1 && spec.authorized_signers@[0]@ == key_core(fda@)),
{
    let core = match keybytes_from_agentpubkey(fda) {
        Ok(core) => core,
        Err(_) => {
            return Err(CsrError::MalformedKey);
        },
    };
    let mut authorized_signers: Vec<Vec<u8>> = Vec::new();
    authorized_signers.push(core);
    Ok(AuthoritySpec { sigs_required: 1, authorized_signers })
}

/// The first change rule of a keyset: the spec with the FDA's signature of
/// it at position 0, under the keyset root.
pub fn init_change_rule(ksr_addr: RawHash, sigs_required: u8, revocation_keys: Vec<Vec<u8>>, signature: Vec<u8>) -> (r: ChangeRule)
    ensures
        r.keyset_root == ksr_addr,
        r.spec_change.new_spec == (AuthoritySpec { sigs_required, authorized_signers: revocation_keys }),
        r.spec_change.authorization_of_new_spec@ == seq![(0u8, signature)],
{
    let mut authorizations: Vec<Authorization> = Vec::new();
    authorizations.push((0, signature));
    ChangeRule {
        keyset_root: ksr_addr,
        spec_change: AuthorizedSpecChange {
            new_spec: AuthoritySpec { sigs_required, authorized_signers: revocation_keys },
            authorization_of_new_spec: authorizations,
        },
    }
}

/// The name under which the FDA's own key is registered.
pub open spec fn deepkey_name() -> Seq<char> {
    "deepkey"@
}

/// The registration of the FDA's own key at init: the FDA signing its own
/// key, for the app "deepkey" of this DNA, derived at app index 0 and key
/// index 0 with an empty seed and empty bytes.
pub fn fda_key_input(fda: RawHash, fda_signing_of_author: Vec<u8>, dna_hash: RawHash) -> (r: CreateKeyInput)
    ensures
        r.key_generation == (KeyGeneration { new_key: fda, new_key_signing_of_author: fda_signing_of_author }),
        r.app_binding.app_name@ == deepkey_name(),
        r.app_binding.installed_app_id@ == deepkey_name(),
        r.app_binding.dna_hashes@ == seq![dna_hash],
        r.app_binding.metadata@.len() == 0,
        r.derivation_details matches Some(d) && d.app_index == 0 && d.key_index == 0
            && d.derivation_seed@.len() == 0 && d.derivation_bytes@.len() == 0,
        !r.create_only,
{
    let mut dna_hashes: Vec<RawHash> = Vec::new();
    dna_hashes.push(dna_hash);
    CreateKeyInput {
        key_generation: KeyGeneration { new_key: fda, new_key_signing_of_author: fda_signing_of_author },
        app_binding: AppBindingInput {
            app_name: "deepkey".to_owned(),
            installed_app_id: "deepkey".to_owned(),
            dna_hashes,
            metadata: Vec::new(),
        },
        derivation_details: Some(DerivationDetailsInput {
            app_index: 0,
            key_index: 0,
            derivation_seed: Vec::new(),
            derivation_bytes: Vec::new(),
        }),
        create_only: false,
    }
}

/// The app binding records that were created (not updated) and decode.
pub open spec fn created_bindings(records: Seq<(RawHash, ActionType, Option<AppBinding>)>) -> Seq<(RawHash, AppBinding)>
    decreases records.len(),
{
    if records.len() == 0 {
        Seq::empty()
    } else {
        let rest = created_bindings(records.drop_last());
        if records.last().1 == ActionType::Create && records.last().2 is Some {
            rest.push((records.last().0, records.last().2->Some_0))
        } else {
            rest
        }
    }
}

/// Whether two lists of key metas hold the same values.
pub open spec fn same_metas(a: Seq<KeyMeta>, b: Seq<KeyMeta>) -> bool {
    &&& a.len() == b.len()
    &&& forall|i: int| 0 <= i < a.len() ==> same_meta(#[trigger] a[i], b[i])
}

fn metas_of(metas: &Vec<KeyMeta>, addr: &RawHash) -> (r: Vec<KeyMeta>)
    ensures
        same_metas(r@, metas_for_binding(metas@, addr@)),
{
    let mut r: Vec<KeyMeta> = Vec::new();
    let mut i: usize = 0;
    while i < metas.len()
        invariant
            i <= metas@.len(),
            same_metas(r@, metas_for_binding(metas@.subrange(0, i as int), addr@)),
        decreases metas@.len() - i,
    {
        assert(metas@.subrange(0, i as int + 1).drop_last() =~= metas@.subrange(0, i as int));
        if bytes_eq(&metas[i].app_binding_addr, addr) {
            r.push(metas[i].duplicate());
        }
        i = i + 1;
    }
    assert(metas@.subrange(0, metas@.len() as int) =~= metas@);
    r
}

/// Every app binding created on the chain, with the key metas that name it.
pub fn query_apps_with_keys(
    binding_records: Vec<(RawHash, ActionType, Option<AppBinding>)>,
    metas: &Vec<KeyMeta>,
) -> (r: Vec<(AppBinding, Vec<KeyMeta>)>)
    ensures
        r@.len() == created_bindings(binding_records@).len(),
        forall|i: int| 0 <= i < r@.len() ==> (#[trigger] r@[i]).0 == created_bindings(binding_records@)[i].1
            && same_metas(r@[i].1@, metas_for_binding(metas@, created_bindings(binding_records@)[i].0@)),
{
    let ghost items = binding_records@;
    let n = binding_records.len();
    let mut rest = binding_records;
    let mut out: Vec<(AppBinding, Vec<KeyMeta>)> = Vec::new();
    let mut i: usize = 0;
    while rest.len() > 0
        invariant
            items.len() == n,
            i + rest@.len() == n,
            rest@ == items.subrange(i as int, n as int),
            out@.len() == created_bindings(items.subrange(0, i as int)).len(),
            forall|j: int| 0 <= j < out@.len() ==> (#[trigger] out@[j]).0 == created_bindings(items.subrange(0, i as int))[j].1
                && same_metas(out@[j].1@, metas_for_binding(metas@, created_bindings(items.subrange(0, i as int))[j].0@)),
        decreases rest@.len(),
    {
        assert(items.subrange(0, i as int + 1).drop_last() =~= items.subrange(0, i as int));
        let (addr, action_type, binding) = rest.remove(0);
        if action_type == ActionType::Create {
            if let Some(b) = binding {
                let keys = metas_of(metas, &addr);
                out.push((b, keys));
            }
        }
        i = i + 1;
        assert(rest@ =~= items.subrange(i as int, n as int));
    }
    assert(items.subrange(0, n as int) =~= items);
    out
}

} // verus!
