//! The op dispatch of the integrity rules: which ops are valid outright,
//! which are refused, and which entry confirmation an op calls for.
use vstd::prelude::*;
use crate::integrity::entry::{EntryTypes, UnitEntryTypes};
use crate::integrity::error::{Failure, Outcome};
use crate::integrity::init::{confirm_action_joining_proof, joining_proof_outcome};
use crate::integrity::record::Action;

verus! {

/// The link types of the integrity rules.
#[derive(PartialEq, Eq, Structural, Clone, Copy)]
pub enum LinkTypes {
    AgentInvite,
    AgentInviteNotify,
}

/// What an update op registers.
#[derive(PartialEq, Eq, Structural, Clone, Copy)]
pub enum UpdateKind {
    Entry,
    PrivateEntry,
    Agent,
    CapClaim,
    CapGrant,
}

/// An op to validate, with the parts that the dispatch reads.
pub enum Op {
    /// Store a record; the entry when the record creates one of the zome's entries.
    StoreRecord { action: Action, created_entry: Option<EntryTypes> },
    /// Store an entry; the entry when it is one of the zome's, created or updated.
    StoreEntry { action: Action, entry: Option<EntryTypes> },
    RegisterCreateLink { link_type: LinkTypes },
    RegisterDeleteLink { link_type: LinkTypes },
    RegisterUpdate { kind: UpdateKind },
    RegisterDelete,
    /// Register an action on its author's chain; the entry type when the
    /// action creates or updates one of the zome's entries.
    RegisterAgentActivity { action: Action, written_entry_type: Option<UnitEntryTypes> },
}

/// What the dispatch decides: an outcome, or the confirmation of an entry
/// that the op calls for.
pub enum Step {
    Done(Outcome),
    ConfirmKeysetRoot,
    ConfirmDeviceInvite,
    ConfirmDeviceInviteAcceptance,
    /// The check of a device invite against its author's chain.
    ConfirmChainDeviceInvite,
}

/// What confirming a stored entry calls for.
pub open spec fn entry_step(action: Action, entry: Option<EntryTypes>) -> Step {
    match entry {
        Some(EntryTypes::JoiningProof(_)) => Step::Done(joining_proof_outcome(action)),
        Some(EntryTypes::KeysetRoot(_)) => Step::ConfirmKeysetRoot,
        Some(EntryTypes::DeviceInvite(_)) => Step::ConfirmDeviceInvite,
        Some(EntryTypes::DeviceInviteAcceptance(_)) => Step::ConfirmDeviceInviteAcceptance,
        _ => Step::Done(Outcome::Valid),
    }
}

fn confirm_entry(action: &Action, entry: &Option<EntryTypes>) -> (r: Step)
    ensures
        r == entry_step(*action, *entry),
{
    match entry {
        Some(EntryTypes::JoiningProof(jp)) => Step::Done(confirm_action_joining_proof(action, jp)),
        Some(EntryTypes::KeysetRoot(_)) => Step::ConfirmKeysetRoot,
        Some(EntryTypes::DeviceInvite(_)) => Step::ConfirmDeviceInvite,
        Some(EntryTypes::DeviceInviteAcceptance(_)) => Step::ConfirmDeviceInviteAcceptance,
        _ => Step::Done(Outcome::Valid),
    }
}

/// What the dispatch decides for an op.
pub open spec fn op_step(op: Op) -> Step {
    match op {
        Op::StoreRecord { action, created_entry } => entry_step(action, created_entry),
        Op::StoreEntry { action, entry } => entry_step(action, entry),
        Op::RegisterCreateLink { .. } => Step::Done(Outcome::Valid),
        Op::RegisterDeleteLink { link_type } => if link_type == LinkTypes::AgentInvite {
            Step::Done(Outcome::Invalid(Failure::AgentInviteLinkDelete))
        } else {
            Step::Done(Outcome::Valid)
        },
        Op::RegisterUpdate { .. } => Step::Done(Outcome::Valid),
        Op::RegisterDelete => Step::Done(Outcome::Invalid(Failure::EntryDelete)),
        Op::RegisterAgentActivity { written_entry_type, .. } => if written_entry_type == Some(UnitEntryTypes::DeviceInvite) {
            Step::ConfirmChainDeviceInvite
        } else {
            Step::Done(Outcome::Valid)
        },
    }
}

/// The genesis self-check accepts every agent.
pub fn genesis_self_check() -> (r: Outcome)
    ensures
        r == Outcome::Valid,
{
    Outcome::Valid
}

/// Dispatches an op: records and entries of the joining proof are
/// confirmed here, those of keyset roots, device invites and acceptances
/// call for their confirmation; agent invite links cannot be deleted, no
/// entry can be deleted, and every other op is valid.  Updates of private
/// entries, agents and capabilities are not handled.
pub fn validate(op: &Op) -> (r: Step)
    requires
        !(op matches Op::RegisterUpdate { kind } && kind != UpdateKind::Entry),
    ensures
        r == op_step(*op),
{
    match op {
        Op::StoreRecord { action, created_entry } => confirm_entry(action, created_entry),
        Op::StoreEntry { action, entry } => confirm_entry(action, entry),
        Op::RegisterCreateLink { .. } => Step::Done(Outcome::Valid),
        Op::RegisterDeleteLink { link_type } => match link_type {
            LinkTypes::AgentInvite => Step::Done(Outcome::Invalid(Failure::AgentInviteLinkDelete)),
            LinkTypes::AgentInviteNotify => Step::Done(Outcome::Valid),
        },
        Op::RegisterUpdate { .. } => Step::Done(Outcome::Valid),
        Op::RegisterDelete => Step::Done(Outcome::Invalid(Failure::EntryDelete)),
        Op::RegisterAgentActivity { written_entry_type, .. } => match written_entry_type {
            Some(UnitEntryTypes::DeviceInvite) => Step::ConfirmChainDeviceInvite,
            _ => Step::Done(Outcome::Valid),
        },
    }
}

} // verus!
