//! Validation of the operations of the zome: creates, updates and deletes of
//! entries, and creates and deletes of links.
use vstd::prelude::*;
use crate::outcome::{from_host, Checked, Fetched, HostError, Reason, Verdict};
use crate::types::{Create, Delete, EntryTypes, LinkTypes, RawHash, Update};
use crate::validation::delete_entry::{delete_outcome, DeleteDeps};
use crate::validation::links::{delete_link_outcome, LinkOrigin};
use crate::validation::update_entry::{update_outcome, update_reaches_host, UpdateDeps};
use crate::validation::create_entry::{create_outcome, create_reaches_host};

pub mod create_entry;
pub mod update_entry;
pub mod delete_entry;
pub mod links;
pub mod create_private_entry;

verus! {

/// A record operation, with what the host gives for the records that its
/// validation reads.
pub enum OpRecord {
    CreateEntry { app_entry: EntryTypes, action: Create, prev_entry: Fetched<EntryTypes> },
    UpdateEntry { app_entry: EntryTypes, action: Update, original_action_hash: RawHash, deps: UpdateDeps },
    DeleteEntry { action: Delete, deps: DeleteDeps },
    CreateLink { link_type: LinkTypes },
    DeleteLink { removed: Fetched<LinkOrigin> },
    AgentValidationPkg,
    /// Any other record operation.
    Other,
}

/// An operation to validate.
pub enum FlatOp {
    StoreRecord(OpRecord),
    RegisterAgentActivity,
    /// Any other operation.
    Other,
}

/// The rules for an operation, before guest errors are turned into refusals.
pub open spec fn op_outcome(op: FlatOp) -> Checked {
    match op {
        FlatOp::StoreRecord(record) => match record {
            OpRecord::CreateEntry { app_entry, action, prev_entry } => create_outcome(app_entry, action, prev_entry),
            OpRecord::UpdateEntry { app_entry, action, original_action_hash, deps } =>
                update_outcome(app_entry, action, original_action_hash@, deps),
            OpRecord::DeleteEntry { action, deps } => delete_outcome(deps),
            OpRecord::CreateLink { link_type } => Ok(Verdict::Valid),
            OpRecord::DeleteLink { removed } => delete_link_outcome(removed),
            OpRecord::AgentValidationPkg => Ok(Verdict::Invalid(Reason::NoAgentValidation)),
            OpRecord::Other => Ok(Verdict::Valid),
        },
        FlatOp::RegisterAgentActivity => Ok(Verdict::Valid),
        FlatOp::Other => Ok(Verdict::Valid),
    }
}

/// A guest error becomes a refusal with the same reason; a host failure
/// stays a failure.
pub open spec fn guest_errors_refuse(c: Checked) -> Checked {
    match c {
        Err(HostError::Guest(reason)) => Ok(Verdict::Invalid(reason)),
        _ => c,
    }
}

/// Whether a result stems from a failing host call rather than from the rules.
pub open spec fn host_deviation(r: Checked) -> bool {
    exists|e: HostError| from_host(e) && r == guest_errors_refuse(Err(e))
}

/// Whether validating an operation asks the host to verify a signature:
/// only creates and updates of entries can.
pub open spec fn op_reaches_host(op: FlatOp) -> bool {
    match op {
        FlatOp::StoreRecord(OpRecord::CreateEntry { app_entry, action, prev_entry }) => create_reaches_host(app_entry, action),
        FlatOp::StoreRecord(OpRecord::UpdateEntry { app_entry, action, original_action_hash, deps }) =>
            update_reaches_host(app_entry, action, original_action_hash@, deps),
        _ => false,
    }
}

/// Validates an operation of the zome.  Guest errors raised while checking
/// become refusals; a host failure is handed back.  The result is the one the
/// rules give, unless a signature check that the host is asked to make fails.
pub fn validate(op: FlatOp) -> (r: Checked)
    ensures
        r == guest_errors_refuse(op_outcome(op)) || (op_reaches_host(op) && host_deviation(r)),
        r matches Err(e) ==> e is Host,
{
    let result = match op {
        FlatOp::StoreRecord(record) => match record {
            OpRecord::CreateEntry { app_entry, action, prev_entry } =>
                create_entry::validation(&app_entry, &action, prev_entry),
            OpRecord::UpdateEntry { app_entry, action, original_action_hash, deps } =>
                update_entry::validation(&app_entry, &action, &original_action_hash, deps),
            OpRecord::DeleteEntry { action, deps } => delete_entry::validation(&action, deps),
            OpRecord::CreateLink { link_type } => links::validate_create_link(link_type),
            OpRecord::DeleteLink { removed } => links::validate_delete_link(removed),
            OpRecord::AgentValidationPkg => Ok(Verdict::Invalid(Reason::NoAgentValidation)),
            OpRecord::Other => Ok(Verdict::Valid),
        },
        FlatOp::RegisterAgentActivity => Ok(Verdict::Valid),
        FlatOp::Other => Ok(Verdict::Valid),
    };
    match result {
        Err(HostError::Guest(reason)) => Ok(Verdict::Invalid(reason)),
        other => other,
    }
}

} // verus!
