//! The entries, links and actions that the rules read.  Hashes, keys and
//! signatures are held as their raw bytes: an agent key or an action hash as
//! its 39 bytes, a key core (`KeyBytes`) as 32 bytes, a signature as 64 bytes.
use vstd::prelude::*;
use crate::outcome::Fetched;

verus! {

/// The raw 39 bytes of a hash or an agent key (prefix, 32-byte core, location).
pub type RawHash = Vec<u8>;

/// A signature by an authority, given with the authority's position in the
/// authority list.
pub type Authorization = (u8, Vec<u8>);

/// The length of a full hash or agent key.
pub const HASH_LEN: usize = 39;
/// The length of a key core.
pub const KEY_BYTES_LEN: usize = 32;
/// The length of a signature.
pub const SIGNATURE_LEN: usize = 64;

/// The anchor of a keyset, committed by the first deepkey agent (FDA).
pub struct KeysetRoot {
    pub first_deepkey_agent: RawHash,
    /// The core of a throwaway key whose private part is discarded.
    pub root_pub_key: Vec<u8>,
    /// The FDA's key bytes signed with the throwaway key.
    pub signed_fda: Vec<u8>,
}

/// An M-of-N multisignature rule.
pub struct AuthoritySpec {
    pub sigs_required: u8,
    /// Key cores of the authorities.
    pub authorized_signers: Vec<Vec<u8>>,
}

/// A new authority spec with the authorizations that sign it.
pub struct AuthorizedSpecChange {
    pub new_spec: AuthoritySpec,
    pub authorization_of_new_spec: Vec<Authorization>,
}

/// The rule that governs the changes of a keyset.
pub struct ChangeRule {
    pub keyset_root: RawHash,
    pub spec_change: AuthorizedSpecChange,
}

/// The registration of a newly generated key.
pub struct KeyGeneration {
    pub new_key: RawHash,
    pub new_key_signing_of_author: Vec<u8>,
}

/// The revocation of a prior key registration.
pub struct KeyRevocation {
    pub prior_key_registration: RawHash,
    pub revocation_authorization: Vec<Authorization>,
}

/// A key registration and how it changes the registrations before it.
pub enum KeyRegistration {
    Create(KeyGeneration),
    CreateOnly(KeyGeneration),
    Update(KeyRevocation, KeyGeneration),
    Delete(KeyRevocation),
}

/// The public anchor of a registered key: its 32-byte core.
pub struct KeyAnchor {
    pub bytes: Vec<u8>,
}

/// Private details of a registered key.
pub struct KeyMeta {
    pub app_binding_addr: RawHash,
    pub key_index: u32,
    pub key_registration_addr: RawHash,
    pub key_anchor_addr: RawHash,
    pub derivation_seed: Option<Vec<u8>>,
    pub derivation_bytes: Option<Vec<u8>>,
}

/// Private details of an app that keys are registered for.
pub struct AppBinding {
    pub app_index: u32,
    pub app_name: String,
    pub installed_app_id: String,
    pub dna_hashes: Vec<RawHash>,
    pub metadata: Vec<(String, String)>,
}

/// An invitation of another device into a keyset.
pub struct DeviceInvite {
    pub keyset_root_authority: RawHash,
    pub parent: RawHash,
    pub invitee: RawHash,
}

/// The acceptance of a device invitation.
pub struct DeviceInviteAcceptance {
    pub keyset_root_authority: RawHash,
    pub invite: RawHash,
}

/// What a keyset is anchored by.
pub enum SourceOfAuthority {
    KeysetRoot(KeysetRoot),
}

/// The entry types of the zome.
pub enum EntryTypes {
    KeysetRoot(KeysetRoot),
    ChangeRule(ChangeRule),
    KeyRegistration(KeyRegistration),
    KeyAnchor(KeyAnchor),
    KeyMeta(KeyMeta),
    AppBinding(AppBinding),
}

/// The entry types of the zome, without their content.
#[derive(PartialEq, Eq, Structural, Clone, Copy)]
pub enum EntryTypesUnit {
    KeysetRoot,
    ChangeRule,
    KeyRegistration,
    KeyAnchor,
    KeyMeta,
    AppBinding,
}

/// The link types of the zome.
#[derive(PartialEq, Eq, Structural, Clone, Copy, Debug)]
pub enum LinkTypes {
    KeysetRootToKeyAnchors,
    KSRToChangeRule,
    KeysetRootToDeviceInviteAcceptances,
    InviteeToDeviceInviteAcceptances,
    DeviceInviteToDeviceInviteAcceptances,
    DeviceToKeyAnchor,
    DeviceName,
    AppBindingToKeyMeta,
}

/// The kinds of chain actions.
#[derive(PartialEq, Eq, Structural, Clone, Copy)]
pub enum ActionType {
    Dna,
    AgentValidationPkg,
    InitZomesComplete,
    CreateLink,
    DeleteLink,
    OpenChain,
    CloseChain,
    Create,
    Update,
    Delete,
}

/// A create action, with the fields that the rules read.
pub struct Create {
    pub author: RawHash,
    pub action_seq: u32,
    pub prev_action: RawHash,
    pub timestamp: i64,
}

/// An update action, with the fields that the rules read.
pub struct Update {
    pub author: RawHash,
    pub action_seq: u32,
    pub prev_action: RawHash,
    pub timestamp: i64,
    pub original_action_address: RawHash,
}

/// A delete action, with the fields that the rules read.
pub struct Delete {
    pub author: RawHash,
    pub action_seq: u32,
    pub prev_action: RawHash,
    pub timestamp: i64,
    pub deletes_address: RawHash,
}

/// One action of an agent's chain, as the host reports it, with its entry
/// (cached with the activity, or fetched by its entry hash).
pub struct Activity {
    pub action_address: RawHash,
    pub author: RawHash,
    pub action_type: ActionType,
    pub action_seq: u32,
    /// The entry type when it is one of this zome's.
    pub entry_type: Option<EntryTypesUnit>,
    /// Whether the action names an entry hash.
    pub has_entry_hash: bool,
    /// The entry, decoded, or why it could not be had.
    pub entry: Fetched<EntryTypes>,
}

impl EntryTypes {
    /// The unit variant of an entry.
    pub open spec fn unit(self) -> EntryTypesUnit {
        match self {
            EntryTypes::KeysetRoot(_) => EntryTypesUnit::KeysetRoot,
            EntryTypes::ChangeRule(_) => EntryTypesUnit::ChangeRule,
            EntryTypes::KeyRegistration(_) => EntryTypesUnit::KeyRegistration,
            EntryTypes::KeyAnchor(_) => EntryTypesUnit::KeyAnchor,
            EntryTypes::KeyMeta(_) => EntryTypesUnit::KeyMeta,
            EntryTypes::AppBinding(_) => EntryTypesUnit::AppBinding,
        }
    }
}

} // verus!
