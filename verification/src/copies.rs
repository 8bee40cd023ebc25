//! Copies of the entries that the coordinator hands out more than once,
//! equal to the original in every byte.
use vstd::prelude::*;
use crate::bytes::{clone_bytes, clone_opt_bytes};
use crate::types::{Authorization, KeyGeneration, KeyMeta, KeyRegistration, KeyRevocation};

verus! {

/// Whether two optional byte strings hold the same bytes.
pub open spec fn same_opt_bytes(a: Option<Vec<u8>>, b: Option<Vec<u8>>) -> bool {
    match (a, b) {
        (Some(x), Some(y)) => x@ == y@,
        (None, None) => true,
        _ => false,
    }
}

/// Whether two key metas hold the same values.
pub open spec fn same_meta(a: KeyMeta, b: KeyMeta) -> bool {
    &&& a.app_binding_addr@ == b.app_binding_addr@
    &&& a.key_index == b.key_index
    &&& a.key_registration_addr@ == b.key_registration_addr@
    &&& a.key_anchor_addr@ == b.key_anchor_addr@
    &&& same_opt_bytes(a.derivation_seed, b.derivation_seed)
    &&& same_opt_bytes(a.derivation_bytes, b.derivation_bytes)
}

impl KeyMeta {
    /// A copy of the key meta.
    pub fn duplicate(&self) -> (r: KeyMeta)
        ensures
            same_meta(r, *self),
    {
        KeyMeta {
            app_binding_addr: clone_bytes(&self.app_binding_addr),
            key_index: self.key_index,
            key_registration_addr: clone_bytes(&self.key_registration_addr),
            key_anchor_addr: clone_bytes(&self.key_anchor_addr),
            derivation_seed: clone_opt_bytes(&self.derivation_seed),
            derivation_bytes: clone_opt_bytes(&self.derivation_bytes),
        }
    }
}

/// Whether two authorization lists hold the same positions and signatures.
pub open spec fn same_authorizations(a: Seq<Authorization>, b: Seq<Authorization>) -> bool {
    &&& a.len() == b.len()
    &&& forall|i: int| 0 <= i < a.len() ==> (#[trigger] a[i]).0 == b[i].0 && a[i].1@ == b[i].1@
}

fn copy_authorizations(a: &Vec<Authorization>) -> (r: Vec<Authorization>)
    ensures
        same_authorizations(r@, a@),
{
    let mut r: Vec<Authorization> = Vec::new();
    let mut i: usize = 0;
    while i < a.len()
        invariant
            i <= a@.len(),
            r@.len() == i,
            forall|j: int| 0 <= j < i ==> (#[trigger] r@[j]).0 == a@[j].0 && r@[j].1@ == a@[j].1@,
        decreases a@.len() - i,
    {
        r.push((a[i].0, clone_bytes(&a[i].1)));
        i = i + 1;
    }
    r
}

/// Whether two key generations hold the same values.
pub open spec fn same_generation(a: KeyGeneration, b: KeyGeneration) -> bool {
    a.new_key@ == b.new_key@ && a.new_key_signing_of_author@ == b.new_key_signing_of_author@
}

/// Whether two key revocations hold the same values.
pub open spec fn same_revocation(a: KeyRevocation, b: KeyRevocation) -> bool {
    a.prior_key_registration@ == b.prior_key_registration@
        && same_authorizations(a.revocation_authorization@, b.revocation_authorization@)
}

/// Whether two key registrations hold the same values.
pub open spec fn same_registration(a: KeyRegistration, b: KeyRegistration) -> bool {
    match (a, b) {
        (KeyRegistration::Create(x), KeyRegistration::Create(y)) => same_generation(x, y),
        (KeyRegistration::CreateOnly(x), KeyRegistration::CreateOnly(y)) => same_generation(x, y),
        (KeyRegistration::Update(r1, x), KeyRegistration::Update(r2, y)) => same_revocation(r1, r2) && same_generation(x, y),
        (KeyRegistration::Delete(r1), KeyRegistration::Delete(r2)) => same_revocation(r1, r2),
        _ => false,
    }
}

fn copy_generation(g: &KeyGeneration) -> (r: KeyGeneration)
    ensures
        same_generation(r, *g),
{
    KeyGeneration { new_key: clone_bytes(&g.new_key), new_key_signing_of_author: clone_bytes(&g.new_key_signing_of_author) }
}

fn copy_revocation(k: &KeyRevocation) -> (r: KeyRevocation)
    ensures
        same_revocation(r, *k),
{
    KeyRevocation {
        prior_key_registration: clone_bytes(&k.prior_key_registration),
        revocation_authorization: copy_authorizations(&k.revocation_authorization),
    }
}

impl KeyRegistration {
    /// A copy of the key registration.
    pub fn duplicate(&self) -> (r: KeyRegistration)
        ensures
            same_registration(r, *self),
    {
        match self {
            KeyRegistration::Create(g) => KeyRegistration::Create(copy_generation(g)),
            KeyRegistration::CreateOnly(g) => KeyRegistration::CreateOnly(copy_generation(g)),
            KeyRegistration::Update(k, g) => KeyRegistration::Update(copy_revocation(k), copy_generation(g)),
            KeyRegistration::Delete(k) => KeyRegistration::Delete(copy_revocation(k)),
        }
    }
}

} // verus!
