//! Why a call of the coordinator zome fails.
use vstd::prelude::*;
use crate::outcome::HostError;

verus! {

/// The failures of the coordinator's calls, each with the values that its
/// message names.
#[derive(Debug)]
pub enum CsrError {
    /// No app binding has this app index.
    NoAppBindingWithIndex { index: u32 },
    /// No app binding was committed by this action.
    NoAppBindingWithAction,
    /// No key meta names this key anchor action.
    NoKeyMetaForAnchor,
    /// No key meta names this registration action.
    NoKeyMetaForRegistration,
    /// No key anchor on the chain has this entry hash.
    NoKeyAnchorForHash,
    /// The derivation details name another app index than the app binding's.
    DerivationAppIndexMismatch { given: u32, prior: u32 },
    /// The derivation details name another key index than the app's next.
    DerivationKeyIndexMismatch { given: u32, next: u32 },
    /// The chain holds no change rule.
    NoChangeRuleToUpdate,
    /// The chain's first change rule record does not decode.
    NotAChangeRule,
    /// No change rule is linked from the keyset root.
    NoChangeRulesForKsr,
    /// The chain holds no keyset root.
    NoKeysetRoot,
    /// The chain has no action at index 1.
    ChainMissingIndexOne,
    /// The action at index 1 is not the agent validation package.
    IndexOneNotAgentValidationPkg,
    /// The host gave record details for an anchor entry.
    UnexpectedDetails,
    /// The details of a key anchor hold no create action.
    NoAnchorActions,
    /// The host knows no record for the key anchor.
    RecordNotFound,
    /// The ephemeral signing gave no signature.
    NoEphemeralSignature,
    /// A key is not the 32 bytes of a key core, or an agent key not its 39 bytes.
    MalformedKey,
    /// The latest device invite acceptance record does not decode.
    NotAnAcceptance,
    /// The invite to accept cannot be found.
    InviteNotFound,
    /// The invite record does not hold a device invite.
    NotADeviceInvite,
    /// A record along a key's lineage does not hold a key anchor.
    NotAKeyAnchor,
    /// The link that a link delete removes cannot be fetched.
    CreateLinkNotFound,
    /// The action that a link delete removes is not a link create.
    NotACreateLink,
    /// A failure of a host call.
    Host(HostError),
}

} // verus!
