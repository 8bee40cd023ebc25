//! The signals that the coordinator emits for the actions it commits.
use vstd::prelude::*;
use crate::csr::error::CsrError;
use crate::outcome::Fetched;
use crate::types::{EntryTypes, LinkTypes};

verus! {

/// A signal about a committed action (the app sends it with the action).
pub enum Signal {
    EntryCreated { app_entry: EntryTypes },
    EntryUpdated { app_entry: EntryTypes, original_app_entry: EntryTypes },
    EntryDeleted { original_app_entry: EntryTypes },
    LinkCreated { link_type: LinkTypes },
    LinkDeleted { link_type: LinkTypes },
}

/// What the host reports of the record behind an action.
pub enum RecordLookup {
    /// The host gave no record details.
    NoRecord,
    /// The record has no entry.
    NoEntry,
    /// The record's entry type is not an app entry type.
    NotAppEntry,
    /// The entry of an app entry type, decoded by its type: `None` when the
    /// type is not one of this zome's.
    AppEntry(Fetched<Option<EntryTypes>>),
}

/// What looking up the zome entry of an action gives.
pub open spec fn entry_for_action(lookup: RecordLookup) -> Fetched<Option<EntryTypes>> {
    match lookup {
        RecordLookup::AppEntry(r) => r,
        _ => Ok(None),
    }
}

/// The zome entry behind an action: none when the host has no record of
/// it, the record has no entry or the entry is not an app entry.
pub fn get_entry_for_action(lookup: RecordLookup) -> (r: Fetched<Option<EntryTypes>>)
    ensures
        r == entry_for_action(lookup),
{
    match lookup {
        RecordLookup::AppEntry(r) => r,
        _ => Ok(None),
    }
}

/// The action that a link delete removes, as the host reports it.
pub enum RemovedLink {
    /// A link create, with its link type as one of this zome's (`None` for another zome's).
    CreateLink { link_type: Fetched<Option<LinkTypes>> },
    /// Some other action.
    OtherAction,
}

/// A committed action, with what the lookups that its signal needs gave.
pub enum CommittedAction {
    Create { app_entry: Fetched<Option<EntryTypes>> },
    Update { app_entry: Fetched<Option<EntryTypes>>, original_app_entry: Fetched<Option<EntryTypes>> },
    Delete { original_app_entry: Fetched<Option<EntryTypes>> },
    CreateLink { link_type: Fetched<Option<LinkTypes>> },
    /// A link delete, with the record of the link create it names (`None`
    /// when the host has none).
    DeleteLink { removed: Fetched<Option<RemovedLink>> },
    Other,
}

/// The signal for a committed action: one about the zome entry it writes
/// or deletes, or the zome link it creates or deletes, when that entry or
/// link type is found; none otherwise.  A link delete whose link create
/// cannot be had, or is no link create, fails.
pub open spec fn action_signal(action: CommittedAction) -> Result<Option<Signal>, CsrError> {
    match action {
        CommittedAction::Create { app_entry } => match app_entry {
            Ok(Some(e)) => Ok(Some(Signal::EntryCreated { app_entry: e })),
            _ => Ok(None),
        },
        CommittedAction::Update { app_entry, original_app_entry } => match (app_entry, original_app_entry) {
            (Ok(Some(e)), Ok(Some(o))) => Ok(Some(Signal::EntryUpdated { app_entry: e, original_app_entry: o })),
            _ => Ok(None),
        },
        CommittedAction::Delete { original_app_entry } => match original_app_entry {
            Ok(Some(o)) => Ok(Some(Signal::EntryDeleted { original_app_entry: o })),
            _ => Ok(None),
        },
        CommittedAction::CreateLink { link_type } => match link_type {
            Ok(Some(l)) => Ok(Some(Signal::LinkCreated { link_type: l })),
            _ => Ok(None),
        },
        CommittedAction::DeleteLink { removed } => match removed {
            Err(e) => Err(CsrError::Host(e)),
            Ok(None) => Err(CsrError::CreateLinkNotFound),
            Ok(Some(RemovedLink::OtherAction)) => Err(CsrError::NotACreateLink),
            Ok(Some(RemovedLink::CreateLink { link_type })) => match link_type {
                Ok(Some(l)) => Ok(Some(Signal::LinkDeleted { link_type: l })),
                _ => Ok(None),
            },
        },
        CommittedAction::Other => Ok(None),
    }
}

/// Decides the signal for a committed action.
pub fn signal_action(action: CommittedAction) -> (r: Result<Option<Signal>, CsrError>)
    ensures
        r == action_signal(action),
{
    match action {
        CommittedAction::Create { app_entry } => match app_entry {
            Ok(Some(e)) => Ok(Some(Signal::EntryCreated { app_entry: e })),
            _ => Ok(None),
        },
        CommittedAction::Update { app_entry, original_app_entry } => match (app_entry, original_app_entry) {
            (Ok(Some(e)), Ok(Some(o))) => Ok(Some(Signal::EntryUpdated { app_entry: e, original_app_entry: o })),
            _ => Ok(None),
        },
        CommittedAction::Delete { original_app_entry } => match original_app_entry {
            Ok(Some(o)) => Ok(Some(Signal::EntryDeleted { original_app_entry: o })),
            _ => Ok(None),
        },
        CommittedAction::CreateLink { link_type } => match link_type {
            Ok(Some(l)) => Ok(Some(Signal::LinkCreated { link_type: l })),
            _ => Ok(None),
        },
        CommittedAction::DeleteLink { removed } => match removed {
            Err(e) => Err(CsrError::Host(e)),
            Ok(None) => Err(CsrError::CreateLinkNotFound),
            Ok(Some(RemovedLink::OtherAction)) => Err(CsrError::NotACreateLink),
            Ok(Some(RemovedLink::CreateLink { link_type })) => match link_type {
                Ok(Some(l)) => Ok(Some(Signal::LinkDeleted { link_type: l })),
                _ => Ok(None),
            },
        },
        CommittedAction::Other => Ok(None),
    }
}

} // verus!
