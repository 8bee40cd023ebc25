//! The keyset that this agent's keys belong to: the one it joined by a
//! device invite acceptance, or the one whose root it committed.
use vstd::prelude::*;
use crate::csr::error::CsrError;
use crate::types::{DeviceInviteAcceptance, RawHash};

verus! {

/// The action address of the chain's latest keyset root record, if any.
pub fn query_keyset_root_action_hash(latest_keyset_root: Option<RawHash>) -> (r: Result<RawHash, CsrError>)
    ensures
        latest_keyset_root matches Some(a) ==> r == Ok::<RawHash, CsrError>(a),
        latest_keyset_root is None ==> r == Err::<RawHash, CsrError>(CsrError::NoKeysetRoot),
{
    match latest_keyset_root {
        Some(a) => Ok(a),
        None => Err(CsrError::NoKeysetRoot),
    }
}

/// The action address of the chain's keyset root.
pub fn query_keyset_root_addr(latest_keyset_root: Option<RawHash>) -> (r: Result<RawHash, CsrError>)
    ensures
        latest_keyset_root matches Some(a) ==> r == Ok::<RawHash, CsrError>(a),
        latest_keyset_root is None ==> r == Err::<RawHash, CsrError>(CsrError::NoKeysetRoot),
{
    query_keyset_root_action_hash(latest_keyset_root)
}

/// The keyset authority of this agent: the keyset root named by the latest
/// device invite acceptance on the chain (which must decode), or else the
/// chain's own keyset root.
pub fn query_keyset_authority_action_hash(
    latest_acceptance: Option<Option<DeviceInviteAcceptance>>,
    latest_keyset_root: Option<RawHash>,
) -> (r: Result<RawHash, CsrError>)
    ensures
        latest_acceptance matches Some(Some(dia)) ==> r == Ok::<RawHash, CsrError>(dia.keyset_root_authority),
        latest_acceptance matches Some(None) ==> r == Err::<RawHash, CsrError>(CsrError::NotAnAcceptance),
        latest_acceptance is None ==> (latest_keyset_root matches Some(a) ==> r == Ok::<RawHash, CsrError>(a)),
        latest_acceptance is None && latest_keyset_root is None ==> r == Err::<RawHash, CsrError>(CsrError::NoKeysetRoot),
{
    match latest_acceptance {
        Some(Some(dia)) => Ok(dia.keyset_root_authority),
        Some(None) => Err(CsrError::NotAnAcceptance),
        None => query_keyset_root_action_hash(latest_keyset_root),
    }
}

} // verus!
