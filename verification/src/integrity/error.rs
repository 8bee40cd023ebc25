//! Why the integrity rules refuse an entry, by the part of the rules that
//! refuses it, and the result of a validation callback.
use vstd::prelude::*;
use crate::outcome::HostError;
use crate::types::RawHash;

verus! {

/// Refusals common to every entry.
pub enum BaseError {
    /// The record holds no entry.
    EntryMissing,
    /// The record has the wrong kind of action.
    WrongHeader,
    /// The keyset sequence is wrong.
    KeysetSeq,
    /// The key registration sequence is wrong.
    KeyRegistrationSeq,
    /// A keyset root not followed by a change rule.
    KeysetRootThenChangeRule,
    /// More than one joining proof.
    MultipleJoinProof,
    /// An update of a joining proof.
    UpdateJoiningProof,
    /// A delete of a joining proof.
    DeleteJoiningProof,
    /// A joining proof created at another chain position than its own.
    JoiningProofPosition,
    /// A failure reported by the host.
    Wasm(HostError),
}

/// Refusals of a change rule.
pub enum ChangeRuleError {
    /// The record holds no change rule.
    EntryMissing,
    /// A delete of a change rule.
    DeleteAttempted,
    /// An update of a change rule.
    UpdateAttempted,
    /// The author is not the FDA named in the keyset root.
    AuthorNotFda,
    /// More than one signature on a created change rule.
    MultipleCreateSignatures,
    /// No signature on a created change rule.
    NoCreateSignature,
    /// The signature on a created change rule does not verify.
    BadCreateSignature,
    /// The new change rule names another keyset root.
    KeysetRootMismatch,
    /// Not as many signatures as the rule requires.
    WrongNumberOfSignatures,
    /// A signature names an authority position that does not exist.
    AuthorizedPositionOutOfBounds,
    /// A signer position that an earlier signature already used: one signer
    /// supplies one of the signatures that the rule requires.
    RepeatedSigner,
    /// The keyset leaf does not belong to the keyset root.
    BadKeysetLeaf,
    /// The keyset leaf is not the latest device invite acceptance.
    StaleKeysetLeaf,
    /// No validation package came with the change rule.
    MissingValidationPackage,
    /// A signature of the new spec does not verify.
    BadUpdateSignature,
    /// Fewer authorized signers than the required signatures.
    NotEnoughSigners,
    /// The new spec requires no signature.
    NotEnoughSignatures,
    /// The update does not update the first change rule.
    BranchingUpdates,
    /// The created change rule does not follow its keyset root.
    CreateNotAfterKeysetRoot,
    /// The change rule record has the wrong kind of action.
    WrongHeader,
    /// A failure reported by the host.
    Wasm(HostError),
}

/// Refusals of a key registration.
pub enum KeyRegistrationError {
    /// The generator was committed by another author.
    BadAuthor,
    /// The registration variant does not fit the operation.
    BadOp,
    /// The revocation names another registration than the one the action updates.
    BadHeaderRef,
    /// The generator's signature of the new key does not verify.
    BadGeneratorSignature,
    /// A revocation of a revocation.
    Tombstone,
    /// An update of a `CreateOnly` registration.
    CreateOnlyUpdate,
    /// The registration does not match what the call expected.
    BadKeyRegistration,
    /// The updated key anchor could not be fetched.
    UpdatedKeyAnchorLookup,
    /// The updated key registration could not be fetched.
    UpdatedKeyRegistrationLookup,
    /// The new key's signature of the author does not verify.
    BadSelfSignature,
}

/// Refusals of a key anchor.
pub enum KeyAnchorError {
    /// The registration before the anchor has the wrong variant.
    RegistrationWrongOp,
    /// The anchor does not hold the registered key.
    RegistrationWrongKey,
    /// The registration before the anchor has the wrong kind of action.
    RegistrationWrongHeader,
    /// No action comes before the anchor.
    RegistrationNone,
}

/// Refusals of a generator.
pub enum GeneratorError {
    /// The generator's change rule has another author.
    ChangeRuleAuthor,
    /// An update of a generator.
    UpdateAttempted,
    /// A delete of a generator.
    DeleteAttempted,
    /// A failure reported by the host.
    Wasm(HostError),
}

/// Refusals of a device invite acceptance.
pub enum DeviceInviteAcceptanceError {
    /// The record has the wrong kind of action.
    WrongHeader,
    /// The author is not the invited device.
    WrongAuthor,
    /// The keyset root is not the invite's.
    WrongKeysetRoot,
    /// An update of an acceptance.
    UpdateAttempted,
    /// A delete of an acceptance.
    DeleteAttempted,
    /// The record holds no acceptance.
    EntryMissing,
    /// The accepted invite cannot be found.
    InviteNotFound,
    /// A failure reported by the host.
    Wasm(HostError),
}

/// Why a validation callback refuses.
pub enum Failure {
    Base(BaseError),
    ChangeRule(ChangeRuleError),
    KeyRegistration(KeyRegistrationError),
    KeyAnchor(KeyAnchorError),
    /// The entry could not be decoded; the decoder's message.
    Decode(String),
    /// The record holds an entry of another type than the one expected.
    WrongEntryType,
    /// A joining proof on an action that is not a create, update or delete.
    JoiningProofAction,
    /// A delete of an agent invite link.
    AgentInviteLinkDelete,
    /// A delete of an entry.
    EntryDelete,
}

/// The result of a validation callback.
pub enum Outcome {
    Valid,
    Invalid(Failure),
    /// The record with this hash is needed and could not be had.
    Unresolved(RawHash),
}

/// Whether two outcomes are alike: equal, with an unresolved dependency
/// compared by the bytes of its hash.
pub open spec fn alike(a: Outcome, b: Outcome) -> bool {
    match (a, b) {
        (Outcome::Unresolved(x), Outcome::Unresolved(y)) => x@ == y@,
        _ => a == b,
    }
}

/// Two checked outcomes alike: the same host failure, or alike outcomes.
pub open spec fn alike_checked(a: Result<Outcome, HostError>, b: Result<Outcome, HostError>) -> bool {
    match (a, b) {
        (Ok(x), Ok(y)) => alike(x, y),
        _ => a == b,
    }
}

/// The first outcome unless it is valid, else the rest.
pub open spec fn then(first: Outcome, rest: Outcome) -> Outcome {
    if first is Valid { rest } else { first }
}

/// `then` for checks that may fail in the host.
pub open spec fn then_checked(first: Result<Outcome, HostError>, rest: Result<Outcome, HostError>) -> Result<Outcome, HostError> {
    match first {
        Err(e) => Err(e),
        Ok(o) => if o is Valid { rest } else { Ok(o) },
    }
}

} // verus!
