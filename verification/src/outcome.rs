//! Outcomes of validation: a verdict, the reason for a refusal, and the
//! failures that a host call or a lookup can report.
use vstd::prelude::*;
use crate::types::LinkTypes;

verus! {

/// Why an action is refused.  Each reason carries the values that its
/// message names.
#[derive(Debug)]
pub enum Reason {
    /// A `KeysetRoot` committed at another chain position than the fourth.
    KeysetRootWrongSeq { action_seq: u32 },
    /// The signature of the first deepkey agent by the root key does not verify.
    KeysetRootBadSignature,
    /// The first deepkey agent named in a `KeysetRoot` is not its author.
    KeysetRootAuthorNotFda,
    /// A `ChangeRule` created at another chain position than the fifth.
    ChangeRuleWrongSeq { action_seq: u32 },
    /// The keyset root of a created `ChangeRule` is not the previous action.
    ChangeRuleKeysetRootNotPrev,
    /// The first `ChangeRule` does not require exactly one signature.
    InitialRuleSigsRequired { sigs_required: u8 },
    /// The first `ChangeRule` does not have exactly one authority.
    InitialRuleAuthorityCount { count: usize },
    /// The only authority of the first `ChangeRule` is not the first deepkey agent.
    InitialRuleAuthorityNotFda,
    /// A created `KeyRegistration` is an `Update` or a `Delete`.
    RegistrationNotCreate,
    /// A created `KeyAnchor` does not follow a `Create` or `CreateOnly` registration.
    AnchorCreateNotAfterRegistration,
    /// A `KeyAnchor` does not hold the key of the registration before it.
    AnchorKeyMismatch,
    /// An update of a `KeysetRoot`.
    KeysetRootUpdate,
    /// An updated `ChangeRule` names another keyset root than the one it updates.
    ChangeRuleKeysetRootChanged,
    /// An updated `ChangeRule` does not update the `ChangeRule` create of its chain.
    ChangeRuleNotBase,
    /// An authority spec requires no signature.
    ZeroSigsRequired,
    /// An authority spec requires more signatures than it has authorities.
    NotEnoughAuthorities { authorities: usize, sigs_required: u8 },
    /// No `ChangeRule` stands before the action on its chain.
    NoPriorChangeRule,
    /// Fewer authorizations than the current rule requires.
    NotEnoughSignatures { sig_count: u8, sigs_required: u8 },
    /// An update of a registration made with `CreateOnly`.
    CreateOnlyUpdated,
    /// An updated `KeyRegistration` is a `Create` or a `CreateOnly`.
    RegistrationNotUpdate,
    /// An updated `KeyAnchor` does not follow a `KeyRegistration::Update`.
    AnchorUpdateNotAfterRegistration,
    /// The `KeyAnchor` that an update replaces is not the revoked registration's anchor.
    OriginalAnchorMismatch,
    /// An update of a `KeyMeta`.
    KeyMetaUpdate,
    /// An update of an `AppBinding`.
    AppBindingUpdate,
    /// A delete of a `KeysetRoot`.
    KeysetRootDelete,
    /// A delete of a `ChangeRule`.
    ChangeRuleDelete,
    /// A delete of a `KeyRegistration`.
    RegistrationDelete,
    /// A deleted `KeyAnchor` does not follow a `KeyRegistration::Delete`.
    AnchorDeleteNotAfterRegistration,
    /// The deleted `KeyAnchor` is not the revoked registration's anchor.
    DeletedAnchorMismatch,
    /// A delete of a `KeyMeta`.
    KeyMetaDelete,
    /// A delete of an `AppBinding`.
    AppBindingDelete,
    /// A link of this type cannot be deleted.
    LinkNotDeletable { link_type: LinkTypes },
    /// The deleted link's action is not a `CreateLink`.
    DeleteLinkTargetNotCreateLink,
    /// The deleted link's type is not a type of this zome.
    UnknownLinkType,
    /// Agent validation packages are refused.
    NoAgentValidation,
    /// The new key's signature of the author does not verify.
    KeySignatureMismatch,
    /// An authorization names an authority position that does not exist.
    AuthIndexOutOfRange { index: u8 },
    /// A signer position that an earlier authorization already used: one
    /// key counts once.
    RepeatedSigner { index: u8 },
    /// An authorization's signature does not verify.
    BadAuthorizationSignature,
    /// A revocation of a key registered by another author.
    RevokerNotRegistrant,
    /// Another registration on the chain already revokes the same registration.
    AlreadyRevoked,
    /// The chain holds no `KeysetRoot`.
    MissingKeysetRoot,
    /// An action that should name an entry names none.
    MissingEntryHash,
    /// The chain holds no `ChangeRule` create action.
    MissingChangeRuleCreate,
    /// A byte string that stands for a key, a hash or a signature has the wrong length.
    MalformedBytes,
    /// A record does not hold an entry of the expected type.
    WrongEntryType,
    /// A `KeyMeta` breaks the sequence of key indexes of its app.
    KeyMetaWrongIndex { expected: u32 },
    /// A `KeyRegistration::Delete` names no key, so it has no anchor.
    RegistrationHasNoKey,
    /// An authority spec could not be serialized for signing.
    SerializeFailed,
    /// A guest error message reported by a host call.
    HostMessage(String),
}

impl Reason {
    /// A copy of the reason.
    pub fn duplicate(&self) -> (r: Reason)
        ensures
            r == *self,
    {
        match self {
            Reason::KeysetRootWrongSeq { action_seq } => Reason::KeysetRootWrongSeq { action_seq: *action_seq },
            Reason::KeysetRootBadSignature => Reason::KeysetRootBadSignature,
            Reason::KeysetRootAuthorNotFda => Reason::KeysetRootAuthorNotFda,
            Reason::ChangeRuleWrongSeq { action_seq } => Reason::ChangeRuleWrongSeq { action_seq: *action_seq },
            Reason::ChangeRuleKeysetRootNotPrev => Reason::ChangeRuleKeysetRootNotPrev,
            Reason::InitialRuleSigsRequired { sigs_required } => Reason::InitialRuleSigsRequired { sigs_required: *sigs_required },
            Reason::InitialRuleAuthorityCount { count } => Reason::InitialRuleAuthorityCount { count: *count },
            Reason::InitialRuleAuthorityNotFda => Reason::InitialRuleAuthorityNotFda,
            Reason::RegistrationNotCreate => Reason::RegistrationNotCreate,
            Reason::AnchorCreateNotAfterRegistration => Reason::AnchorCreateNotAfterRegistration,
            Reason::AnchorKeyMismatch => Reason::AnchorKeyMismatch,
            Reason::KeysetRootUpdate => Reason::KeysetRootUpdate,
            Reason::ChangeRuleKeysetRootChanged => Reason::ChangeRuleKeysetRootChanged,
            Reason::ChangeRuleNotBase => Reason::ChangeRuleNotBase,
            Reason::ZeroSigsRequired => Reason::ZeroSigsRequired,
            Reason::NotEnoughAuthorities { authorities, sigs_required } => Reason::NotEnoughAuthorities { authorities: *authorities, sigs_required: *sigs_required },
            Reason::NoPriorChangeRule => Reason::NoPriorChangeRule,
            Reason::NotEnoughSignatures { sig_count, sigs_required } => Reason::NotEnoughSignatures { sig_count: *sig_count, sigs_required: *sigs_required },
            Reason::CreateOnlyUpdated => Reason::CreateOnlyUpdated,
            Reason::RegistrationNotUpdate => Reason::RegistrationNotUpdate,
            Reason::AnchorUpdateNotAfterRegistration => Reason::AnchorUpdateNotAfterRegistration,
            Reason::OriginalAnchorMismatch => Reason::OriginalAnchorMismatch,
            Reason::KeyMetaUpdate => Reason::KeyMetaUpdate,
            Reason::AppBindingUpdate => Reason::AppBindingUpdate,
            Reason::KeysetRootDelete => Reason::KeysetRootDelete,
            Reason::ChangeRuleDelete => Reason::ChangeRuleDelete,
            Reason::RegistrationDelete => Reason::RegistrationDelete,
            Reason::AnchorDeleteNotAfterRegistration => Reason::AnchorDeleteNotAfterRegistration,
            Reason::DeletedAnchorMismatch => Reason::DeletedAnchorMismatch,
            Reason::KeyMetaDelete => Reason::KeyMetaDelete,
            Reason::AppBindingDelete => Reason::AppBindingDelete,
            Reason::LinkNotDeletable { link_type } => Reason::LinkNotDeletable { link_type: *link_type },
            Reason::DeleteLinkTargetNotCreateLink => Reason::DeleteLinkTargetNotCreateLink,
            Reason::UnknownLinkType => Reason::UnknownLinkType,
            Reason::NoAgentValidation => Reason::NoAgentValidation,
            Reason::KeySignatureMismatch => Reason::KeySignatureMismatch,
            Reason::AuthIndexOutOfRange { index } => Reason::AuthIndexOutOfRange { index: *index },
            Reason::RepeatedSigner { index } => Reason::RepeatedSigner { index: *index },
            Reason::BadAuthorizationSignature => Reason::BadAuthorizationSignature,
            Reason::RevokerNotRegistrant => Reason::RevokerNotRegistrant,
            Reason::AlreadyRevoked => Reason::AlreadyRevoked,
            Reason::MissingKeysetRoot => Reason::MissingKeysetRoot,
            Reason::MissingEntryHash => Reason::MissingEntryHash,
            Reason::MissingChangeRuleCreate => Reason::MissingChangeRuleCreate,
            Reason::MalformedBytes => Reason::MalformedBytes,
            Reason::WrongEntryType => Reason::WrongEntryType,
            Reason::KeyMetaWrongIndex { expected } => Reason::KeyMetaWrongIndex { expected: *expected },
            Reason::RegistrationHasNoKey => Reason::RegistrationHasNoKey,
            Reason::SerializeFailed => Reason::SerializeFailed,
            Reason::HostMessage(s) => Reason::HostMessage(s.clone()),
        }
    }
}

/// What a host call or a lookup can fail with: an error that the guest
/// reports (turned into a refusal at the top of validation), or a failure of
/// the host that validation hands back unchanged.
#[derive(Debug)]
pub enum HostError {
    Guest(Reason),
    Host,
}

/// A failure reported by a host call, rather than by a rule of the library.
pub open spec fn from_host(e: HostError) -> bool {
    ||| e is Host
    ||| e matches HostError::Guest(Reason::HostMessage(_))
}

/// Whether a result is a failure that comes from the host.
pub open spec fn failed_in_host<T>(r: Result<T, HostError>) -> bool {
    match r {
        Err(e) => from_host(e),
        Ok(_) => false,
    }
}

/// A successful result with no value is `Ok(())`.
pub proof fn lemma_ok_unit(r: Fetched<()>)
    ensures
        r is Ok ==> r == Ok::<(), HostError>(()),
{
    match r {
        Ok(u) => {
            assert(u == ());
        },
        Err(_) => {},
    }
}

/// The verdict of validation.
pub enum Verdict {
    Valid,
    Invalid(Reason),
}

/// A value fetched from the host, or the failure that the fetch reported.
pub type Fetched<T> = Result<T, HostError>;

/// The result of a validation step.
pub type Checked = Result<Verdict, HostError>;

} // verus!
