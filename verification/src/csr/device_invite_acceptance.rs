//! Accepting a device invitation into a keyset.
use vstd::prelude::*;
use crate::csr::error::CsrError;
use crate::types::{DeviceInvite, DeviceInviteAcceptance, RawHash};

verus! {

/// What the host gives for the invite that an acceptance names.
pub enum InviteLookup {
    NoRecord,
    /// The record's entry does not decode as a device invite.
    Undecodable,
    NoEntry,
    Invite(DeviceInvite),
}

/// The bases of the links that accepting an invite writes: the keyset root
/// authority of the acceptance, and the invitee of the invite.
pub fn accept_invite(acceptance: &DeviceInviteAcceptance, invite: InviteLookup) -> (r: Result<(RawHash, RawHash), CsrError>)
    ensures
        (invite is NoRecord || invite is NoEntry) ==> r == Err::<(RawHash, RawHash), CsrError>(CsrError::InviteNotFound),
        invite is Undecodable ==> r == Err::<(RawHash, RawHash), CsrError>(CsrError::NotADeviceInvite),
        invite matches InviteLookup::Invite(i) ==> (r matches Ok((authority, invitee))
            && authority@ == acceptance.keyset_root_authority@ && invitee == i.invitee),
{
    match invite {
        InviteLookup::NoRecord | InviteLookup::NoEntry => Err(CsrError::InviteNotFound),
        InviteLookup::Undecodable => Err(CsrError::NotADeviceInvite),
        InviteLookup::Invite(i) => Ok((crate::bytes::clone_bytes(&acceptance.keyset_root_authority), i.invitee)),
    }
}

} // verus!
