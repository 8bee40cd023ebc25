//! The entries of the integrity rules.  Agent keys and action hashes are held
//! as their raw 39 bytes, signatures as their 64 bytes.
use vstd::prelude::*;
use crate::types::RawHash;

verus! {

/// A signature by an authority, given with the authority's position.
pub type Authorization = (u8, Vec<u8>);

/// An M:N multisignature spec; 1:1 is a single signer.
pub struct AuthoritySpec {
    /// 1 for a single signer.
    pub sigs_required: u8,
    /// The agent keys of the signers.
    pub authorized_signers: Vec<RawHash>,
}

impl AuthoritySpec {
    pub fn new(sigs_required: u8, authorized_signers: Vec<RawHash>) -> (r: Self)
        ensures
            r.sigs_required == sigs_required,
            r.authorized_signers == authorized_signers,
    {
        AuthoritySpec { sigs_required, authorized_signers }
    }
}

/// A new authority spec with the signatures that authorize it.
pub struct AuthorizedSpecChange {
    pub new_spec: AuthoritySpec,
    /// Signatures of the new spec: by the throwaway root key on create, by
    /// the signers of the previous spec on update.
    pub authorization_of_new_spec: Vec<Authorization>,
}

impl AuthorizedSpecChange {
    pub fn new(new_spec: AuthoritySpec, authorization_of_new_spec: Vec<Authorization>) -> (r: Self)
        ensures
            r.new_spec == new_spec,
            r.authorization_of_new_spec == authorization_of_new_spec,
    {
        AuthorizedSpecChange { new_spec, authorization_of_new_spec }
    }

    pub fn as_new_spec_ref(&self) -> (r: &AuthoritySpec)
        ensures
            *r == self.new_spec,
    {
        &self.new_spec
    }

    pub fn as_authorization_of_new_spec_ref(&self) -> (r: &Vec<Authorization>)
        ensures
            *r == self.authorization_of_new_spec,
    {
        &self.authorization_of_new_spec
    }
}

/// The rules of authority over the keys under a keyset root.
pub struct ChangeRule {
    pub keyset_root: RawHash,
    /// The keyset root itself, or the device invite acceptance that joined
    /// this device to it.
    pub keyset_leaf: RawHash,
    pub spec_change: AuthorizedSpecChange,
}

impl ChangeRule {
    pub fn new(keyset_root: RawHash, keyset_leaf: RawHash, spec_change: AuthorizedSpecChange) -> (r: Self)
        ensures
            r.keyset_root == keyset_root,
            r.keyset_leaf == keyset_leaf,
            r.spec_change == spec_change,
    {
        ChangeRule { keyset_root, keyset_leaf, spec_change }
    }

    pub fn as_keyset_leaf_ref(&self) -> (r: &RawHash)
        ensures
            *r == self.keyset_leaf,
    {
        &self.keyset_leaf
    }

    pub fn as_keyset_root_ref(&self) -> (r: &RawHash)
        ensures
            *r == self.keyset_root,
    {
        &self.keyset_root
    }

    pub fn as_spec_change_ref(&self) -> (r: &AuthorizedSpecChange)
        ensures
            *r == self.spec_change,
    {
        &self.spec_change
    }
}

/// The anchor of a keyset, committed by its first deepkey agent (FDA).
pub struct KeysetRoot {
    pub first_deepkey_agent: RawHash,
    /// The public half of a throwaway key.
    pub root_pub_key: RawHash,
    pub fda_pubkey_signed_by_root_key: Vec<u8>,
}

impl KeysetRoot {
    pub fn new(first_deepkey_agent: RawHash, root_pub_key: RawHash, fda_pubkey_signed_by_root_key: Vec<u8>) -> (r: Self)
        ensures
            r.first_deepkey_agent == first_deepkey_agent,
            r.root_pub_key == root_pub_key,
            r.fda_pubkey_signed_by_root_key == fda_pubkey_signed_by_root_key,
    {
        KeysetRoot { first_deepkey_agent, root_pub_key, fda_pubkey_signed_by_root_key }
    }

    pub fn as_first_deepkey_agent_ref(&self) -> (r: &RawHash)
        ensures
            *r == self.first_deepkey_agent,
    {
        &self.first_deepkey_agent
    }

    pub fn as_root_pub_key_ref(&self) -> (r: &RawHash)
        ensures
            *r == self.root_pub_key,
    {
        &self.root_pub_key
    }

    pub fn as_fda_pubkey_signed_by_root_key_ref(&self) -> (r: &Vec<u8>)
        ensures
            *r == self.fda_pubkey_signed_by_root_key,
    {
        &self.fda_pubkey_signed_by_root_key
    }
}

/// An invitation of a device agent into a keyset.
pub struct DeviceInvite {
    pub keyset_root_authority: RawHash,
    /// The keyset root or the acceptance that the inviting device joined by.
    pub parent: RawHash,
    pub device_agent: RawHash,
}

impl DeviceInvite {
    pub fn new(keyset_root_authority: RawHash, parent: RawHash, device_agent: RawHash) -> (r: Self)
        ensures
            r.keyset_root_authority == keyset_root_authority,
            r.parent == parent,
            r.device_agent == device_agent,
    {
        DeviceInvite { keyset_root_authority, parent, device_agent }
    }

    pub fn as_keyset_root_authority_ref(&self) -> (r: &RawHash)
        ensures
            *r == self.keyset_root_authority,
    {
        &self.keyset_root_authority
    }

    pub fn as_parent_ref(&self) -> (r: &RawHash)
        ensures
            *r == self.parent,
    {
        &self.parent
    }

    pub fn as_device_agent_ref(&self) -> (r: &RawHash)
        ensures
            *r == self.device_agent,
    {
        &self.device_agent
    }
}

/// The acceptance of a device invitation.
pub struct DeviceInviteAcceptance {
    pub keyset_root_authority: RawHash,
    pub invite: RawHash,
}

impl DeviceInviteAcceptance {
    pub fn as_keyset_root_authority_ref(&self) -> (r: &RawHash)
        ensures
            *r == self.keyset_root_authority,
    {
        &self.keyset_root_authority
    }
}

/// The name of the app that a DNA binding is for.
pub struct AppName {
    pub bundle_name: String,
    pub cell_nick: String,
}

/// The binding of a key meta to a DNA.
pub struct DnaBinding {
    pub key_meta: RawHash,
    pub dna_hash: RawHash,
    pub app_name: AppName,
}

/// A key change under a change rule.
pub struct Change {
    pub new_key: RawHash,
    pub authorization: Vec<Authorization>,
}

impl Change {
    pub fn new(new_key: RawHash, authorization: Vec<Authorization>) -> (r: Self)
        ensures
            r.new_key == new_key,
            r.authorization == authorization,
    {
        Change { new_key, authorization }
    }

    pub fn as_new_key_ref(&self) -> (r: &RawHash)
        ensures
            *r == self.new_key,
    {
        &self.new_key
    }

    pub fn as_authorization_ref(&self) -> (r: &Vec<Authorization>)
        ensures
            *r == self.authorization,
    {
        &self.authorization
    }
}

/// The key that generates registrations, authorized under a change rule.
pub struct Generator {
    pub change_rule: RawHash,
    pub change: Change,
}

impl Generator {
    pub fn new(change_rule: RawHash, change: Change) -> (r: Self)
        ensures
            r.change_rule == change_rule,
            r.change == change,
    {
        Generator { change_rule, change }
    }

    pub fn as_change_rule_ref(&self) -> (r: &RawHash)
        ensures
            *r == self.change_rule,
    {
        &self.change_rule
    }

    pub fn as_change_ref(&self) -> (r: &Change)
        ensures
            *r == self.change,
    {
        &self.change
    }
}

/// A newly generated key, signed by its generator.
pub struct KeyGeneration {
    pub new_key: RawHash,
    /// The new key's signature of the author's key core.
    pub new_key_signing_of_author: Vec<u8>,
    pub generator: RawHash,
    /// The generator key's signature of the new key.
    pub generator_signature: Vec<u8>,
}

/// The revocation of a prior key registration.
pub struct KeyRevocation {
    pub prior_key_registration: RawHash,
    pub revocation_authorization: Vec<Authorization>,
}

impl KeyRevocation {
    pub fn new(prior_key_registration: RawHash, revocation_authorization: Vec<Authorization>) -> (r: Self)
        ensures
            r.prior_key_registration == prior_key_registration,
            r.revocation_authorization == revocation_authorization,
    {
        KeyRevocation { prior_key_registration, revocation_authorization }
    }
}

/// A key registration and how it changes the registrations before it.
pub enum KeyRegistration {
    Create(KeyGeneration),
    CreateOnly(KeyGeneration),
    Update(KeyRevocation, KeyGeneration),
    Delete(KeyRevocation),
}

/// The length of a key anchor.
pub const KEY_ANCHOR_BYTES: usize = 32;

/// The public anchor of a key: the 32-byte core of its agent key.
pub struct KeyAnchor {
    pub bytes: Vec<u8>,
}

/// Proof of work for a membrane.
pub struct ProofOfWork(pub [u8; 32]);

/// Proof of stake for a membrane.
pub struct ProofOfStake(pub [u8; 32]);

/// Proof of authority for a membrane.
pub struct ProofOfAuthority(pub [u8; 32]);

/// The proof that the agent may pass the network's membrane.
pub enum MembraneProof {
    /// No additional membrane.
    NoMembrane,
    ProofOfWork(ProofOfWork),
    ProofOfStake(ProofOfStake),
    ProofOfAuthority(ProofOfAuthority),
}

/// What the agent joins a keyset with.
pub enum KeysetProof {
    KeysetRoot(KeysetRoot),
    DeviceInviteAcceptance(DeviceInviteAcceptance),
}

/// The first entry after genesis: how the agent joins a keyset.
pub struct JoiningProof {
    pub keyset_proof: KeysetProof,
    pub membrane_proof: MembraneProof,
}

/// The length of a derivation path.
pub const DERIVATION_PATH_LEN: usize = 32;

/// What a derived key is used for.
pub enum KeyType {
    AppUI,
    AppSig,
    AppEncryption,
    TLS,
}

/// The path a key was derived along.
pub struct DerivationPath(pub [u8; 32]);

/// Private details of a registered key.
pub struct KeyMeta {
    pub new_key: KeyRegistration,
    pub derivation_path: DerivationPath,
    pub key_type: KeyType,
}

/// The entry types, in the order of their definitions.
pub enum EntryTypes {
    JoiningProof(JoiningProof),
    ChangeRule(ChangeRule),
    DeviceInvite(DeviceInvite),
    DeviceInviteAcceptance(DeviceInviteAcceptance),
    KeysetRoot(KeysetRoot),
    KeyMeta(KeyMeta),
    DnaBinding(DnaBinding),
    Generator(Generator),
    KeyRegistration(KeyRegistration),
}

/// The entry types without their content, in the same order.
#[derive(PartialEq, Eq, Structural, Clone, Copy)]
pub enum UnitEntryTypes {
    JoiningProof,
    ChangeRule,
    DeviceInvite,
    DeviceInviteAcceptance,
    KeysetRoot,
    KeyMeta,
    DnaBinding,
    Generator,
    KeyRegistration,
}

/// The position of an entry type among the entry definitions.
pub open spec fn spec_entry_def_index(unit: UnitEntryTypes) -> u8 {
    match unit {
        UnitEntryTypes::JoiningProof => 0,
        UnitEntryTypes::ChangeRule => 1,
        UnitEntryTypes::DeviceInvite => 2,
        UnitEntryTypes::DeviceInviteAcceptance => 3,
        UnitEntryTypes::KeysetRoot => 4,
        UnitEntryTypes::KeyMeta => 5,
        UnitEntryTypes::DnaBinding => 6,
        UnitEntryTypes::Generator => 7,
        UnitEntryTypes::KeyRegistration => 8,
    }
}

/// The entry definition index of an entry type.
pub fn entry_def_index(unit: UnitEntryTypes) -> (r: u8)
    ensures
        r == spec_entry_def_index(unit),
{
    match unit {
        UnitEntryTypes::JoiningProof => 0,
        UnitEntryTypes::ChangeRule => 1,
        UnitEntryTypes::DeviceInvite => 2,
        UnitEntryTypes::DeviceInviteAcceptance => 3,
        UnitEntryTypes::KeysetRoot => 4,
        UnitEntryTypes::KeyMeta => 5,
        UnitEntryTypes::DnaBinding => 6,
        UnitEntryTypes::Generator => 7,
        UnitEntryTypes::KeyRegistration => 8,
    }
}

/// The entry definition index of `ChangeRule`.
pub const CHANGE_RULE_INDEX: u8 = 1;
/// The entry definition index of `DeviceInvite`.
pub const DEVICE_INVITE_INDEX: u8 = 2;
/// The entry definition index of `KeysetRoot`.
pub const KEYSET_ROOT_INDEX: u8 = 4;
/// The entry definition index of `DnaBinding`.
pub const DNA_BINDING_INDEX: u8 = 6;
/// The entry definition index of `Generator`.
pub const GENERATOR_INDEX: u8 = 7;

/// The chain position of the joining proof: right after genesis.
pub const JOINING_PROOF_CHAIN_INDEX: u32 = 4;
/// The chain position of the keyset root: right after the joining proof.
pub const KEYSET_ROOT_CHAIN_INDEX: u32 = 5;

impl EntryTypes {
    /// The unit variant of an entry.
    pub open spec fn unit(self) -> UnitEntryTypes {
        match self {
            EntryTypes::JoiningProof(_) => UnitEntryTypes::JoiningProof,
            EntryTypes::ChangeRule(_) => UnitEntryTypes::ChangeRule,
            EntryTypes::DeviceInvite(_) => UnitEntryTypes::DeviceInvite,
            EntryTypes::DeviceInviteAcceptance(_) => UnitEntryTypes::DeviceInviteAcceptance,
            EntryTypes::KeysetRoot(_) => UnitEntryTypes::KeysetRoot,
            EntryTypes::KeyMeta(_) => UnitEntryTypes::KeyMeta,
            EntryTypes::DnaBinding(_) => UnitEntryTypes::DnaBinding,
            EntryTypes::Generator(_) => UnitEntryTypes::Generator,
            EntryTypes::KeyRegistration(_) => UnitEntryTypes::KeyRegistration,
        }
    }
}

} // verus!
