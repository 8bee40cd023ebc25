//! Records as the integrity rules read them: an action, its entry, and the
//! classic validation package of the author's chain.
use vstd::prelude::*;
use crate::bytes::clone_bytes;
use crate::types::RawHash;
use crate::outcome::{Fetched, HostError};
use crate::integrity::entry::{ChangeRule, DeviceInviteAcceptance, EntryTypes, Generator, JoiningProof, KeyAnchor, KeyRegistration, KeysetRoot, UnitEntryTypes};
use crate::integrity::error::{alike, BaseError, Failure, Outcome};

verus! {

/// The kind of an action, with the address that an update or a delete names.
pub enum ActionKind {
    Dna,
    AgentValidationPkg,
    InitZomesComplete,
    CreateLink,
    DeleteLink,
    OpenChain,
    CloseChain,
    Create,
    Update { original_action_address: RawHash },
    Delete { deletes_address: RawHash },
}

/// An action, with the fields that the rules read.
pub struct Action {
    pub kind: ActionKind,
    pub author: RawHash,
    pub action_seq: u32,
    /// The previous action; only the DNA action has none.
    pub prev_action: Option<RawHash>,
    /// The entry type of a create or update of one of the zome's entries.
    pub entry_type: Option<UnitEntryTypes>,
}

/// A decoded entry.
pub enum EntryContent {
    Typed(EntryTypes),
    KeyAnchor(KeyAnchor),
}

/// The entry of a record.
pub enum RecordEntry {
    Present(EntryContent),
    /// The entry is there but does not decode; the decoder's message.
    Malformed(String),
    Hidden,
    NotApplicable,
    NotStored,
}

/// A record: an action and its entry.
pub struct Element {
    pub action: Action,
    pub entry: RecordEntry,
}

/// A record to validate, with the author's chain when the rule needs it.
pub struct ValidateData {
    pub element: Element,
    pub validation_package: Option<Vec<Element>>,
}

impl ValidateData {
    pub fn new(element: Element, validation_package: Option<Vec<Element>>) -> (r: Self)
        ensures
            r.element == element,
            r.validation_package == validation_package,
    {
        ValidateData { element, validation_package }
    }

    pub fn new_element_only(element: Element) -> (r: Self)
        ensures
            r.element == element,
            r.validation_package is None,
    {
        ValidateData { element, validation_package: None }
    }
}

/// What the host gave for a record that a rule depends on.
pub enum Dependency {
    Found(Element),
    Missing,
}

/// The record a rule depends on, or the outcome that asks for it.
pub fn resolve_dependency<'a>(hash: &RawHash, dep: &'a Dependency) -> (r: Result<&'a Element, Outcome>)
    ensures
        dep matches Dependency::Found(el) ==> (r matches Ok(x) && *x == el),
        dep is Missing ==> (r matches Err(o) && alike(o, Outcome::Unresolved(*hash))),
{
    match dep {
        Dependency::Found(el) => Ok(el),
        Dependency::Missing => Err(Outcome::Unresolved(clone_bytes(hash))),
    }
}

/// How decoding an entry fails: a malformed entry gives the decoder's
/// message, an absent one the given refusal.
pub open spec fn decode_failure(entry: RecordEntry, missing: Failure) -> Failure {
    match entry {
        RecordEntry::Malformed(m) => Failure::Decode(m),
        _ => missing,
    }
}

/// The content of a record's entry, or why it has none.
pub fn entry_content<'a>(el: &'a Element, missing: Failure) -> (r: Result<&'a EntryContent, Failure>)
    ensures
        el.entry matches RecordEntry::Present(c) ==> (r matches Ok(x) && *x == c),
        !(el.entry is Present) ==> r == Err::<&EntryContent, Failure>(decode_failure(el.entry, missing)),
{
    match &el.entry {
        RecordEntry::Present(c) => Ok(c),
        RecordEntry::Malformed(m) => Err(Failure::Decode(m.clone())),
        _ => Err(missing),
    }
}

/// How decoding a dependency's entry fails: the host found no entry, or it
/// does not decode.
pub open spec fn dependency_failure(entry: RecordEntry) -> Failure {
    decode_failure(entry, Failure::Base(BaseError::EntryMissing))
}

/// The records of an agent's chain as the host reports them, each with its
/// entry fetched when the entry is public.
pub struct ChainRecord {
    pub action: Action,
    /// Whether the action creates or updates an entry of public visibility.
    pub public_entry: bool,
    /// The entry fetched for a public entry.
    pub fetched: Fetched<EntryContent>,
}

/// Whether an action creates or updates an entry.
pub open spec fn writes_entry(kind: ActionKind) -> bool {
    kind is Create || kind is Update
}

/// The element that the classic package holds for a chain record.
pub open spec fn package_element(c: ChainRecord) -> Option<RecordEntry> {
    if !writes_entry(c.action.kind) {
        Some(RecordEntry::NotApplicable)
    } else if !c.public_entry {
        Some(RecordEntry::Hidden)
    } else {
        match c.fetched {
            Ok(content) => Some(RecordEntry::Present(content)),
            Err(_) => None,
        }
    }
}

/// The first chain record whose public entry could not be fetched.
pub open spec fn first_fetch_failure(chain: Seq<ChainRecord>, i: int) -> bool {
    &&& 0 <= i < chain.len()
    &&& package_element(chain[i]) is None
    &&& forall|j: int| 0 <= j < i ==> package_element(chain[j]) is Some
}

/// A package that holds the record and, for each chain record in order,
/// its action and the entry that the package gives it.
pub open spec fn packaged(vd: ValidateData, element: Element, chain: Seq<ChainRecord>) -> bool {
    &&& vd.element == element
    &&& vd.validation_package matches Some(p)
    &&& p@.len() == chain.len()
    &&& forall|j: int| 0 <= j < chain.len() ==> (#[trigger] p@[j]).action == chain[j].action
            && Some(p@[j].entry) == package_element(chain[j])
}

impl ValidateData {
    /// Builds the classic package from a record and the author's chain:
    /// actions without an entry carry none, private entries are hidden, and
    /// public entries are the ones fetched.  The first public entry that
    /// could not be fetched fails the whole package with its error.
    pub fn from_chain(element: Element, chain: Vec<ChainRecord>) -> (r: Fetched<ValidateData>)
        ensures
            (forall|j: int| 0 <= j < chain@.len() ==> package_element(#[trigger] chain@[j]) is Some) ==> (
                r matches Ok(vd) && packaged(vd, element, chain@)),
            forall|i: int| first_fetch_failure(chain@, i) ==> (r matches Err(e)
                && chain@[i].fetched == Err::<EntryContent, HostError>(e)),
    {
        let ghost items = chain@;
        let mut records: Vec<Element> = Vec::new();
        let n = chain.len();
        let mut rest = chain;
        let mut i: usize = 0;
        while rest.len() > 0
            invariant
                items.len() == n,
                items == chain@,
                i + rest@.len() == items.len(),
                rest@ == items.subrange(i as int, items.len() as int),
                records@.len() == i,
                forall|j: int| 0 <= j < i ==> package_element(#[trigger] items[j]) is Some,
                forall|j: int| 0 <= j < i ==> (#[trigger] records@[j]).action == items[j].action
                    && Some(records@[j].entry) == package_element(items[j]),
            decreases rest@.len(),
        {
            let c = rest.remove(0);
            assert(c == items[i as int]);
            let entry = if !(matches!(c.action.kind, ActionKind::Create) || matches!(c.action.kind, ActionKind::Update { .. })) {
                RecordEntry::NotApplicable
            } else if !c.public_entry {
                RecordEntry::Hidden
            } else {
                match c.fetched {
                    Ok(content) => RecordEntry::Present(content),
                    Err(e) => {
                        assert(first_fetch_failure(items, i as int));
                        assert(package_element(items[i as int]) is None);
                        return Err(e);
                    },
                }
            };
            records.push(Element { action: c.action, entry });
            i = i + 1;
            assert(rest@ =~= items.subrange(i as int, items.len() as int));
        }
        Ok(ValidateData { element, validation_package: Some(records) })
    }
}

/// The `KeysetRoot` that a record's entry decodes to, or why it does not.
pub open spec fn spec_keyset_root_of(entry: RecordEntry, missing: Failure) -> Result<KeysetRoot, Failure> {
    match entry {
        RecordEntry::Present(EntryContent::Typed(EntryTypes::KeysetRoot(x))) => Ok(x),
        RecordEntry::Present(_) => Err(Failure::WrongEntryType),
        _ => Err(decode_failure(entry, missing)),
    }
}

/// Decodes a record's entry as a `KeysetRoot`; an absent entry gives `missing`.
pub fn keyset_root_of<'a>(el: &'a Element, missing: Failure) -> (r: Result<&'a KeysetRoot, Failure>)
    ensures
        match spec_keyset_root_of(el.entry, missing) {
            Ok(x) => r matches Ok(y) && *y == x,
            Err(f) => r matches Err(g) && g == f,
        },
{
    match &el.entry {
        RecordEntry::Present(EntryContent::Typed(EntryTypes::KeysetRoot(x))) => Ok(x),
        RecordEntry::Present(_) => Err(Failure::WrongEntryType),
        RecordEntry::Malformed(m) => Err(Failure::Decode(m.clone())),
        _ => Err(missing),
    }
}

/// The `ChangeRule` that a record's entry decodes to, or why it does not.
pub open spec fn spec_change_rule_of(entry: RecordEntry, missing: Failure) -> Result<ChangeRule, Failure> {
    match entry {
        RecordEntry::Present(EntryContent::Typed(EntryTypes::ChangeRule(x))) => Ok(x),
        RecordEntry::Present(_) => Err(Failure::WrongEntryType),
        _ => Err(decode_failure(entry, missing)),
    }
}

/// Decodes a record's entry as a `ChangeRule`; an absent entry gives `missing`.
pub fn change_rule_of<'a>(el: &'a Element, missing: Failure) -> (r: Result<&'a ChangeRule, Failure>)
    ensures
        match spec_change_rule_of(el.entry, missing) {
            Ok(x) => r matches Ok(y) && *y == x,
            Err(f) => r matches Err(g) && g == f,
        },
{
    match &el.entry {
        RecordEntry::Present(EntryContent::Typed(EntryTypes::ChangeRule(x))) => Ok(x),
        RecordEntry::Present(_) => Err(Failure::WrongEntryType),
        RecordEntry::Malformed(m) => Err(Failure::Decode(m.clone())),
        _ => Err(missing),
    }
}

/// The `KeyRegistration` that a record's entry decodes to, or why it does not.
pub open spec fn spec_key_registration_of(entry: RecordEntry, missing: Failure) -> Result<KeyRegistration, Failure> {
    match entry {
        RecordEntry::Present(EntryContent::Typed(EntryTypes::KeyRegistration(x))) => Ok(x),
        RecordEntry::Present(_) => Err(Failure::WrongEntryType),
        _ => Err(decode_failure(entry, missing)),
    }
}

/// Decodes a record's entry as a `KeyRegistration`; an absent entry gives `missing`.
pub fn key_registration_of<'a>(el: &'a Element, missing: Failure) -> (r: Result<&'a KeyRegistration, Failure>)
    ensures
        match spec_key_registration_of(el.entry, missing) {
            Ok(x) => r matches Ok(y) && *y == x,
            Err(f) => r matches Err(g) && g == f,
        },
{
    match &el.entry {
        RecordEntry::Present(EntryContent::Typed(EntryTypes::KeyRegistration(x))) => Ok(x),
        RecordEntry::Present(_) => Err(Failure::WrongEntryType),
        RecordEntry::Malformed(m) => Err(Failure::Decode(m.clone())),
        _ => Err(missing),
    }
}

/// The `Generator` that a record's entry decodes to, or why it does not.
pub open spec fn spec_generator_of(entry: RecordEntry, missing: Failure) -> Result<Generator, Failure> {
    match entry {
        RecordEntry::Present(EntryContent::Typed(EntryTypes::Generator(x))) => Ok(x),
        RecordEntry::Present(_) => Err(Failure::WrongEntryType),
        _ => Err(decode_failure(entry, missing)),
    }
}

/// Decodes a record's entry as a `Generator`; an absent entry gives `missing`.
pub fn generator_of<'a>(el: &'a Element, missing: Failure) -> (r: Result<&'a Generator, Failure>)
    ensures
        match spec_generator_of(el.entry, missing) {
            Ok(x) => r matches Ok(y) && *y == x,
            Err(f) => r matches Err(g) && g == f,
        },
{
    match &el.entry {
        RecordEntry::Present(EntryContent::Typed(EntryTypes::Generator(x))) => Ok(x),
        RecordEntry::Present(_) => Err(Failure::WrongEntryType),
        RecordEntry::Malformed(m) => Err(Failure::Decode(m.clone())),
        _ => Err(missing),
    }
}

/// The `JoiningProof` that a record's entry decodes to, or why it does not.
pub open spec fn spec_joining_proof_of(entry: RecordEntry, missing: Failure) -> Result<JoiningProof, Failure> {
    match entry {
        RecordEntry::Present(EntryContent::Typed(EntryTypes::JoiningProof(x))) => Ok(x),
        RecordEntry::Present(_) => Err(Failure::WrongEntryType),
        _ => Err(decode_failure(entry, missing)),
    }
}

/// Decodes a record's entry as a `JoiningProof`; an absent entry gives `missing`.
pub fn joining_proof_of<'a>(el: &'a Element, missing: Failure) -> (r: Result<&'a JoiningProof, Failure>)
    ensures
        match spec_joining_proof_of(el.entry, missing) {
            Ok(x) => r matches Ok(y) && *y == x,
            Err(f) => r matches Err(g) && g == f,
        },
{
    match &el.entry {
        RecordEntry::Present(EntryContent::Typed(EntryTypes::JoiningProof(x))) => Ok(x),
        RecordEntry::Present(_) => Err(Failure::WrongEntryType),
        RecordEntry::Malformed(m) => Err(Failure::Decode(m.clone())),
        _ => Err(missing),
    }
}

/// The `DeviceInviteAcceptance` that a record's entry decodes to, or why it does not.
pub open spec fn spec_device_invite_acceptance_of(entry: RecordEntry, missing: Failure) -> Result<DeviceInviteAcceptance, Failure> {
    match entry {
        RecordEntry::Present(EntryContent::Typed(EntryTypes::DeviceInviteAcceptance(x))) => Ok(x),
        RecordEntry::Present(_) => Err(Failure::WrongEntryType),
        _ => Err(decode_failure(entry, missing)),
    }
}

/// Decodes a record's entry as a `DeviceInviteAcceptance`; an absent entry gives `missing`.
pub fn device_invite_acceptance_of<'a>(el: &'a Element, missing: Failure) -> (r: Result<&'a DeviceInviteAcceptance, Failure>)
    ensures
        match spec_device_invite_acceptance_of(el.entry, missing) {
            Ok(x) => r matches Ok(y) && *y == x,
            Err(f) => r matches Err(g) && g == f,
        },
{
    match &el.entry {
        RecordEntry::Present(EntryContent::Typed(EntryTypes::DeviceInviteAcceptance(x))) => Ok(x),
        RecordEntry::Present(_) => Err(Failure::WrongEntryType),
        RecordEntry::Malformed(m) => Err(Failure::Decode(m.clone())),
        _ => Err(missing),
    }
}

/// The `KeyAnchor` that a record's entry decodes to, or why it does not.
pub open spec fn spec_key_anchor_of(entry: RecordEntry, missing: Failure) -> Result<KeyAnchor, Failure> {
    match entry {
        RecordEntry::Present(EntryContent::KeyAnchor(x)) => Ok(x),
        RecordEntry::Present(_) => Err(Failure::WrongEntryType),
        _ => Err(decode_failure(entry, missing)),
    }
}

/// Decodes a record's entry as a `KeyAnchor`; an absent entry gives `missing`.
pub fn key_anchor_of<'a>(el: &'a Element, missing: Failure) -> (r: Result<&'a KeyAnchor, Failure>)
    ensures
        match spec_key_anchor_of(el.entry, missing) {
            Ok(x) => r matches Ok(y) && *y == x,
            Err(f) => r matches Err(g) && g == f,
        },
{
    match &el.entry {
        RecordEntry::Present(EntryContent::KeyAnchor(x)) => Ok(x),
        RecordEntry::Present(_) => Err(Failure::WrongEntryType),
        RecordEntry::Malformed(m) => Err(Failure::Decode(m.clone())),
        _ => Err(missing),
    }
}

} // verus!
