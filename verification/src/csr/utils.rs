//! Small decisions over what the chain and the DHT report.
use vstd::prelude::*;
use crate::csr::change_rule::{is_latest, latest_position};
use crate::csr::error::CsrError;
use crate::types::RawHash;

verus! {

/// The last of a list, if any.
pub open spec fn last_of<T>(s: Seq<T>) -> Option<T> {
    if s.len() > 0 { Some(s.last()) } else { None }
}

/// The record that a query of an entry type gives as the latest: the last
/// one it lists.
pub fn query_entry_type_latest<T>(records: Vec<T>) -> (r: Option<T>)
    ensures
        r == last_of(records@),
{
    let mut records = records;
    records.pop()
}

/// The record that a query of an entry type gives as the first: also the
/// last one it lists, which is what the query hands back.
pub fn query_entry_type_first<T>(records: Vec<T>) -> (r: Option<T>)
    ensures
        r == last_of(records@),
{
    let mut records = records;
    records.pop()
}

/// The record at a chain index: the last that the index query lists.
pub fn get_chain_index<T>(records: Vec<T>) -> (r: Option<T>)
    ensures
        r == last_of(records@),
{
    let mut records = records;
    records.pop()
}

/// The action at chain index 1.
pub enum IndexOneAction<T> {
    AgentValidationPkg(T),
    Other,
}

/// The agent's validation package: the action at chain index 1, which must
/// be there and be the package.
pub fn my_agent_validation_pkg<T>(index_one: Option<IndexOneAction<T>>) -> (r: Result<T, CsrError>)
    ensures
        index_one is None ==> r == Err::<T, CsrError>(CsrError::ChainMissingIndexOne),
        index_one matches Some(IndexOneAction::Other) ==> r == Err::<T, CsrError>(CsrError::IndexOneNotAgentValidationPkg),
        index_one matches Some(IndexOneAction::AgentValidationPkg(p)) ==> r == Ok::<T, CsrError>(p),
{
    match index_one {
        None => Err(CsrError::ChainMissingIndexOne),
        Some(IndexOneAction::AgentValidationPkg(p)) => Ok(p),
        Some(IndexOneAction::Other) => Err(CsrError::IndexOneNotAgentValidationPkg),
    }
}

/// The latest update of a record, from its updates by timestamp: the last
/// of those with the latest timestamp.
pub fn get_next_update(updates: Vec<(i64, RawHash)>) -> (r: Option<RawHash>)
    ensures
        updates@.len() == 0 ==> r is None,
        updates@.len() > 0 ==> (r matches Some(a) && exists|i: int| is_latest(updates@, i) && a == updates@[i].1),
{
    if updates.len() == 0 {
        return None;
    }
    let best = latest_position(&updates);
    let mut updates = updates;
    let (_, a) = updates.swap_remove(best);
    Some(a)
}

} // verus!
