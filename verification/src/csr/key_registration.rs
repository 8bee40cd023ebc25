//! What registering, updating and revoking a key writes: the registration,
//! the key anchor, the app binding and the key meta.
use vstd::prelude::*;
use crate::authority::{key_core, keybytes_from_agentpubkey};
use crate::csr::app_binding::{binding_of_key, first_at_action, query_app_binding_by_action, query_app_binding_by_key};
use crate::csr::error::CsrError;
use crate::csr::key_meta::{first_for_anchor, query_key_meta_for_key, first_for_registration, next_key_index, query_key_meta_for_registration, query_next_key_index_for_app_index};
use crate::types::{AppBinding, KeyAnchor, KeyGeneration, KeyMeta, KeyRegistration, KeyRevocation, RawHash};

verus! {

/// The app that a new key is registered for.
pub struct AppBindingInput {
    pub app_name: String,
    pub installed_app_id: String,
    pub dna_hashes: Vec<RawHash>,
    pub metadata: Vec<(String, String)>,
}

/// How a key was derived.
pub struct DerivationDetailsInput {
    pub app_index: u32,
    pub key_index: u32,
    pub derivation_seed: Vec<u8>,
    pub derivation_bytes: Vec<u8>,
}

/// The app index and key index of a derived key.
pub struct DerivationDetails {
    pub app_index: u32,
    pub key_index: u32,
}

/// The registration of a new app and key.
pub struct CreateKeyInput {
    pub key_generation: KeyGeneration,
    pub app_binding: AppBindingInput,
    pub derivation_details: Option<DerivationDetailsInput>,
    /// Whether the key can never be updated.
    pub create_only: bool,
}

/// The replacement of a registered key by a new one.
pub struct UpdateKeyInput {
    pub key_revocation: KeyRevocation,
    pub key_generation: KeyGeneration,
    pub derivation_details: Option<DerivationDetailsInput>,
}

/// The revocation of a registered key.
pub struct RevokeKeyInput {
    pub key_revocation: KeyRevocation,
}

/// What registering a new key writes, before the key meta.
pub struct KeyCreation {
    pub registration: KeyRegistration,
    pub anchor: KeyAnchor,
    pub app_binding: AppBinding,
    pub derivation: Option<DerivationDetailsInput>,
}

/// The anchor of an agent key: its 32-byte core.
pub fn key_anchor_of(key: &RawHash) -> (r: Result<KeyAnchor, CsrError>)
    ensures
        key@.len() == 39 ==> (r matches Ok(a) && a.bytes@ == key_core(key@)),
        key@.len() != 39 ==> r == Err::<KeyAnchor, CsrError>(CsrError::MalformedKey),
{
    match keybytes_from_agentpubkey(key) {
        Ok(bytes) => Ok(KeyAnchor { bytes }),
        Err(_) => Err(CsrError::MalformedKey),
    }
}

/// Plans the registration of a new key for a new app: a `Create`
/// registration (`CreateOnly` when asked), the anchor of the new key, and
/// an app binding with the next app index.
pub fn create_key(input: CreateKeyInput, next_app_index: u32) -> (r: Result<KeyCreation, CsrError>)
    ensures
        input.key_generation.new_key@.len() != 39 ==> r == Err::<KeyCreation, CsrError>(CsrError::MalformedKey),
        input.key_generation.new_key@.len() == 39 ==> (r matches Ok(plan) && {
            &&& plan.registration == (if input.create_only {
                KeyRegistration::CreateOnly(input.key_generation)
            } else {
                KeyRegistration::Create(input.key_generation)
            })
            &&& plan.anchor.bytes@ == key_core(input.key_generation.new_key@)
            &&& plan.app_binding == (AppBinding {
                app_index: next_app_index,
                app_name: input.app_binding.app_name,
                installed_app_id: input.app_binding.installed_app_id,
                dna_hashes: input.app_binding.dna_hashes,
                metadata: input.app_binding.metadata,
            })
            &&& plan.derivation == input.derivation_details
        }),
{
    let anchor = match key_anchor_of(&input.key_generation.new_key) {
        Ok(a) => a,
        Err(e) => {
            return Err(e);
        },
    };
    let registration = if input.create_only {
        KeyRegistration::CreateOnly(input.key_generation)
    } else {
        KeyRegistration::Create(input.key_generation)
    };
    let app_binding = AppBinding {
        app_index: next_app_index,
        app_name: input.app_binding.app_name,
        installed_app_id: input.app_binding.installed_app_id,
        dna_hashes: input.app_binding.dna_hashes,
        metadata: input.app_binding.metadata,
    };
    Ok(KeyCreation { registration, anchor, app_binding, derivation: input.derivation_details })
}

/// The derivation seed and bytes that a key meta records.
pub open spec fn seed_of(d: Option<DerivationDetailsInput>) -> Option<Vec<u8>> {
    match d {
        Some(d) => Some(d.derivation_seed),
        None => None,
    }
}

/// The derivation bytes that a key meta records.
pub open spec fn bytes_of(d: Option<DerivationDetailsInput>) -> Option<Vec<u8>> {
    match d {
        Some(d) => Some(d.derivation_bytes),
        None => None,
    }
}

/// The key meta of a key, once its registration, anchor and app binding
/// are committed at these addresses.
pub open spec fn key_meta_spec(
    app_binding_addr: RawHash,
    key_index: u32,
    key_registration_addr: RawHash,
    key_anchor_addr: RawHash,
    derivation: Option<DerivationDetailsInput>,
) -> KeyMeta {
    KeyMeta {
        app_binding_addr,
        key_index,
        key_registration_addr,
        key_anchor_addr,
        derivation_seed: seed_of(derivation),
        derivation_bytes: bytes_of(derivation),
    }
}

fn build_key_meta(
    app_binding_addr: RawHash,
    key_index: u32,
    key_registration_addr: RawHash,
    key_anchor_addr: RawHash,
    derivation: Option<DerivationDetailsInput>,
) -> (r: KeyMeta)
    ensures
        r == key_meta_spec(app_binding_addr, key_index, key_registration_addr, key_anchor_addr, derivation),
{
    let (derivation_seed, derivation_bytes) = match derivation {
        Some(d) => (Some(d.derivation_seed), Some(d.derivation_bytes)),
        None => (None, None),
    };
    KeyMeta { app_binding_addr, key_index, key_registration_addr, key_anchor_addr, derivation_seed, derivation_bytes }
}

impl KeyCreation {
    /// The key meta of the new key: key index 0 under the new app binding,
    /// with the derivation seed and bytes of the input.
    pub fn key_meta(self, app_binding_addr: RawHash, key_registration_addr: RawHash, key_anchor_addr: RawHash) -> (r: KeyMeta)
        ensures
            r == key_meta_spec(app_binding_addr, 0, key_registration_addr, key_anchor_addr, self.derivation),
    {
        build_key_meta(app_binding_addr, 0, key_registration_addr, key_anchor_addr, self.derivation)
    }
}

/// What replacing a key writes, before the key meta.
pub struct KeyUpdate {
    pub registration: KeyRegistration,
    pub anchor: KeyAnchor,
    /// The app binding of the replaced key, which the new key keeps.
    pub app_binding_addr: RawHash,
    pub key_index: u32,
    pub derivation: Option<DerivationDetailsInput>,
}

/// Plans the replacement of a registered key: the key meta of the revoked
/// registration names the app binding, which the new key keeps; derivation
/// details must name that binding's app index and the app's next key index;
/// the new key gets the next key index of the app.
pub fn update_key(input: UpdateKeyInput, metas: &Vec<KeyMeta>, bindings: &Vec<(RawHash, AppBinding)>) -> (r: Result<KeyUpdate, CsrError>)
    ensures
        (forall|i: int| 0 <= i < metas@.len() ==> (#[trigger] metas@[i]).key_registration_addr@ != input.key_revocation.prior_key_registration@)
            ==> r == Err::<KeyUpdate, CsrError>(CsrError::NoKeyMetaForRegistration),
        forall|i: int| #[trigger] first_for_registration(metas@, input.key_revocation.prior_key_registration@, i) ==> {
            let prior = metas@[i];
            if forall|k: int| 0 <= k < bindings@.len() ==> (#[trigger] bindings@[k]).0@ != prior.app_binding_addr@ {
                r == Err::<KeyUpdate, CsrError>(CsrError::NoAppBindingWithAction)
            } else {
                forall|k: int| #[trigger] first_at_action(bindings@, prior.app_binding_addr@, k) ==> {
                    let app_index = bindings@[k].1.app_index;
                    if input.derivation_details is Some && input.derivation_details->Some_0.app_index != app_index {
                        r == Err::<KeyUpdate, CsrError>(CsrError::DerivationAppIndexMismatch {
                            given: input.derivation_details->Some_0.app_index,
                            prior: app_index,
                        })
                    } else if input.derivation_details is Some
                        && input.derivation_details->Some_0.key_index != next_key_index(bindings@, metas@, app_index) {
                        r == Err::<KeyUpdate, CsrError>(CsrError::DerivationKeyIndexMismatch {
                            given: input.derivation_details->Some_0.key_index,
                            next: next_key_index(bindings@, metas@, app_index),
                        })
                    } else if input.key_generation.new_key@.len() != 39 {
                        r == Err::<KeyUpdate, CsrError>(CsrError::MalformedKey)
                    } else {
                        r matches Ok(plan) && {
                            &&& plan.registration == KeyRegistration::Update(input.key_revocation, input.key_generation)
                            &&& plan.anchor.bytes@ == key_core(input.key_generation.new_key@)
                            &&& plan.app_binding_addr@ == prior.app_binding_addr@
                            &&& plan.key_index == next_key_index(bindings@, metas@, app_index)
                            &&& plan.derivation == input.derivation_details
                        }
                    }
                }
            }
        },
{
    let prior_meta = match query_key_meta_for_registration(metas, &input.key_revocation.prior_key_registration) {
        Ok(m) => m,
        Err(e) => {
            return Err(e);
        },
    };
    let app_binding = match query_app_binding_by_action(bindings, &prior_meta.app_binding_addr) {
        Ok(b) => b,
        Err(e) => {
            return Err(e);
        },
    };
    let next = query_next_key_index_for_app_index(bindings, metas, app_binding.app_index);
    if let Some(d) = &input.derivation_details {
        if d.app_index != app_binding.app_index {
            return Err(CsrError::DerivationAppIndexMismatch { given: d.app_index, prior: app_binding.app_index });
        }
        if d.key_index != next {
            return Err(CsrError::DerivationKeyIndexMismatch { given: d.key_index, next });
        }
    }
    let anchor = match key_anchor_of(&input.key_generation.new_key) {
        Ok(a) => a,
        Err(e) => {
            return Err(e);
        },
    };
    let key_index = next;
    let app_binding_addr = crate::bytes::clone_bytes(&prior_meta.app_binding_addr);
    Ok(KeyUpdate {
        registration: KeyRegistration::Update(input.key_revocation, input.key_generation),
        anchor,
        app_binding_addr,
        key_index,
        derivation: input.derivation_details,
    })
}

impl KeyUpdate {
    /// The key meta of the new key: the replaced key's app binding, the
    /// planned key index, and the derivation seed and bytes of the input.
    pub fn key_meta(self, key_registration_addr: RawHash, key_anchor_addr: RawHash) -> (r: KeyMeta)
        ensures
            r == key_meta_spec(self.app_binding_addr, self.key_index, key_registration_addr, key_anchor_addr, self.derivation),
    {
        build_key_meta(self.app_binding_addr, self.key_index, key_registration_addr, key_anchor_addr, self.derivation)
    }
}

/// The registration that revokes a key: a `Delete` with the revocation.
pub fn revoke_key(input: RevokeKeyInput) -> (r: KeyRegistration)
    ensures
        r == KeyRegistration::Delete(input.key_revocation),
{
    KeyRegistration::Delete(input.key_revocation)
}

/// The registration that a registration is updated with to delete it.
pub fn delete_key_registration(key_revocation: KeyRevocation) -> (r: KeyRegistration)
    ensures
        r == KeyRegistration::Delete(key_revocation),
{
    KeyRegistration::Delete(key_revocation)
}

/// The app index of a key's app and the key index that the app's next key
/// gets, by the action that committed the key's anchor.
pub fn next_derivation_details(
    bindings: &Vec<(RawHash, AppBinding)>,
    metas: &Vec<KeyMeta>,
    anchor_addr: &RawHash,
) -> (r: Result<DerivationDetails, CsrError>)
    ensures
        r matches Ok(d) ==> exists|addr: Seq<u8>, b: AppBinding| binding_of_key(bindings@, metas@, anchor_addr@, addr, b)
            && d.app_index == b.app_index && d.key_index == next_key_index(bindings@, metas@, b.app_index),
        r matches Err(e) ==> (e == CsrError::NoKeyMetaForAnchor
            && forall|i: int| 0 <= i < metas@.len() ==> (#[trigger] metas@[i]).key_anchor_addr@ != anchor_addr@)
            || (e == CsrError::NoAppBindingWithAction && exists|i: int| first_for_anchor(metas@, anchor_addr@, i)
            && forall|k: int| 0 <= k < bindings@.len() ==> (#[trigger] bindings@[k]).0@ != metas@[i].app_binding_addr@),
{
    let (addr, binding) = match query_app_binding_by_key(bindings, metas, anchor_addr) {
        Ok(found) => found,
        Err(e) => {
            return Err(e);
        },
    };
    let key_index = query_next_key_index_for_app_index(bindings, metas, binding.app_index);
    assert(binding_of_key(bindings@, metas@, anchor_addr@, addr@, *binding));
    Ok(DerivationDetails { app_index: binding.app_index, key_index })
}

/// The app index and key index of a registered key, by the action that
/// committed its anchor.
pub fn get_key_derivation_details(
    bindings: &Vec<(RawHash, AppBinding)>,
    metas: &Vec<KeyMeta>,
    anchor_addr: &RawHash,
) -> (r: Result<DerivationDetails, CsrError>)
    ensures
        r matches Ok(d) ==> exists|i: int, addr: Seq<u8>, b: AppBinding| first_for_anchor(metas@, anchor_addr@, i)
            && binding_of_key(bindings@, metas@, anchor_addr@, addr, b)
            && d.app_index == b.app_index && d.key_index == metas@[i].key_index,
        r matches Err(e) ==> (e == CsrError::NoKeyMetaForAnchor
            && forall|i: int| 0 <= i < metas@.len() ==> (#[trigger] metas@[i]).key_anchor_addr@ != anchor_addr@)
            || (e == CsrError::NoAppBindingWithAction && exists|i: int| first_for_anchor(metas@, anchor_addr@, i)
            && forall|k: int| 0 <= k < bindings@.len() ==> (#[trigger] bindings@[k]).0@ != metas@[i].app_binding_addr@),
{
    let meta = match query_key_meta_for_key(metas, anchor_addr) {
        Ok(m) => m,
        Err(e) => {
            return Err(e);
        },
    };
    let (addr, binding) = match query_app_binding_by_key(bindings, metas, anchor_addr) {
        Ok(found) => found,
        Err(e) => {
            return Err(e);
        },
    };
    let ghost i = choose|i: int| first_for_anchor(metas@, anchor_addr@, i) && *meta == metas@[i];
    assert(first_for_anchor(metas@, anchor_addr@, i) && binding_of_key(bindings@, metas@, anchor_addr@, addr@, *binding));
    Ok(DerivationDetails { app_index: binding.app_index, key_index: meta.key_index })
}

/// The position of the app binding committed at `addr`, if there is one.
pub open spec fn binding_at(bindings: Seq<(RawHash, AppBinding)>, addr: Seq<u8>) -> Option<int> {
    if exists|k: int| first_at_action(bindings, addr, k) {
        Some(choose|k: int| first_at_action(bindings, addr, k))
    } else {
        None
    }
}

/// Whether an optional byte string holds these bytes.
pub open spec fn holds(o: Option<Vec<u8>>, bytes: Seq<u8>) -> bool {
    o matches Some(x) && x@ == bytes
}

/// The key meta (and its app binding), from position `i` on, that already
/// records a derivation: the same derivation bytes, or the same app index
/// and seed.  Each key meta's app binding must be on the chain.
pub open spec fn existing_from(
    details: DerivationDetailsInput,
    metas: Seq<KeyMeta>,
    bindings: Seq<(RawHash, AppBinding)>,
    i: int,
) -> Result<Option<(int, int)>, CsrError>
    decreases metas.len() - i,
{
    if i < 0 || i >= metas.len() {
        Ok(None)
    } else {
        match binding_at(bindings, metas[i].app_binding_addr@) {
            None => Err(CsrError::NoAppBindingWithAction),
            Some(k) => if holds(metas[i].derivation_bytes, details.derivation_bytes@)
                || (details.app_index == bindings[k].1.app_index && holds(metas[i].derivation_seed, details.derivation_seed@)) {
                Ok(Some((i, k)))
            } else {
                existing_from(details, metas, bindings, i + 1)
            },
        }
    }
}

fn holds_bytes(o: &Option<Vec<u8>>, bytes: &Vec<u8>) -> (r: bool)
    ensures
        r == holds(*o, bytes@),
{
    match o {
        Some(x) => crate::bytes::bytes_eq(x, bytes),
        None => false,
    }
}

/// The key meta and app binding that already record a derivation, if any:
/// the first key meta with the same derivation bytes, or with the same seed
/// under an app binding of the same app index.
pub fn check_existing_derivation_details<'a, 'b>(
    derivation_details: &DerivationDetailsInput,
    metas: &'a Vec<KeyMeta>,
    bindings: &'b Vec<(RawHash, AppBinding)>,
) -> (r: Result<Option<(&'b AppBinding, &'a KeyMeta)>, CsrError>)
    ensures
        match existing_from(*derivation_details, metas@, bindings@, 0) {
            Ok(Some((i, k))) => r matches Ok(Some((b, m))) && *b == bindings@[k].1 && *m == metas@[i],
            Ok(None) => r matches Ok(None),
            Err(e) => r == Err::<Option<(&AppBinding, &KeyMeta)>, CsrError>(e),
        },
{
    let mut i: usize = 0;
    while i < metas.len()
        invariant
            i <= metas@.len(),
            existing_from(*derivation_details, metas@, bindings@, 0) == existing_from(*derivation_details, metas@, bindings@, i as int),
        decreases metas@.len() - i,
    {
        let meta = &metas[i];
        let binding = match query_app_binding_by_action(bindings, &meta.app_binding_addr) {
            Ok(b) => b,
            Err(e) => {
                assert(!exists|k: int| first_at_action(bindings@, meta.app_binding_addr@, k));
                return Err(e);
            },
        };
        let ghost k = choose|k: int| first_at_action(bindings@, meta.app_binding_addr@, k) && *binding == bindings@[k].1;
        proof {
            let c = choose|k: int| first_at_action(bindings@, meta.app_binding_addr@, k);
            assert(first_at_action(bindings@, meta.app_binding_addr@, c));
            if c < k {
                assert(bindings@[c].0@ == meta.app_binding_addr@);
            } else if k < c {
                assert(bindings@[k].0@ == meta.app_binding_addr@);
            }
            assert(c == k);
        }
        if holds_bytes(&meta.derivation_bytes, &derivation_details.derivation_bytes)
            || (derivation_details.app_index == binding.app_index && holds_bytes(&meta.derivation_seed, &derivation_details.derivation_seed)) {
            return Ok(Some((binding, meta)));
        }
        i = i + 1;
    }
    Ok(None)
}

} // verus!
