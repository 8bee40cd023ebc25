//! Validation of link creates and deletes.
use vstd::prelude::*;
use crate::outcome::{Checked, Fetched, Reason, Verdict};
use crate::types::LinkTypes;

verus! {

/// What the action that a link delete names turned out to be.
pub enum LinkOrigin {
    /// A `CreateLink` of the given type of this zome, or of another zome.
    CreateLink(Option<LinkTypes>),
    /// Any other action.
    NotCreateLink,
}

/// Every link type may be created.
pub fn validate_create_link(link_type: LinkTypes) -> (r: Checked)
    ensures
        r == Ok::<Verdict, crate::outcome::HostError>(Verdict::Valid),
{
    match link_type {
        LinkTypes::KeysetRootToKeyAnchors => Ok(Verdict::Valid),
        LinkTypes::KSRToChangeRule
        | LinkTypes::KeysetRootToDeviceInviteAcceptances
        | LinkTypes::InviteeToDeviceInviteAcceptances
        | LinkTypes::DeviceInviteToDeviceInviteAcceptances
        | LinkTypes::DeviceToKeyAnchor
        | LinkTypes::DeviceName
        | LinkTypes::AppBindingToKeyMeta => Ok(Verdict::Valid),
    }
}

/// Whether links of a type may be deleted: only device names and the links
/// from an app binding to its key metas.
pub open spec fn link_deletable(link_type: LinkTypes) -> bool {
    link_type == LinkTypes::DeviceName || link_type == LinkTypes::AppBindingToKeyMeta
}

/// The rules for deleting a link.
pub open spec fn delete_link_outcome(removed: Fetched<LinkOrigin>) -> Checked {
    match removed {
        Err(e) => Err(e),
        Ok(LinkOrigin::NotCreateLink) => Ok(Verdict::Invalid(Reason::DeleteLinkTargetNotCreateLink)),
        Ok(LinkOrigin::CreateLink(None)) => Ok(Verdict::Invalid(Reason::UnknownLinkType)),
        Ok(LinkOrigin::CreateLink(Some(link_type))) => if link_deletable(link_type) {
            Ok(Verdict::Valid)
        } else {
            Ok(Verdict::Invalid(Reason::LinkNotDeletable { link_type }))
        },
    }
}

/// Validates the delete of a link, given what the deleted action is.
pub fn validate_delete_link(removed: Fetched<LinkOrigin>) -> (r: Checked)
    ensures
        r == delete_link_outcome(removed),
{
    let link_type = match removed {
        Err(e) => {
            return Err(e);
        },
        Ok(LinkOrigin::NotCreateLink) => {
            return Ok(Verdict::Invalid(Reason::DeleteLinkTargetNotCreateLink));
        },
        Ok(LinkOrigin::CreateLink(None)) => {
            return Ok(Verdict::Invalid(Reason::UnknownLinkType));
        },
        Ok(LinkOrigin::CreateLink(Some(link_type))) => link_type,
    };
    match link_type {
        LinkTypes::DeviceName => Ok(Verdict::Valid),
        LinkTypes::AppBindingToKeyMeta => Ok(Verdict::Valid),
        _ => Ok(Verdict::Invalid(Reason::LinkNotDeletable { link_type })),
    }
}

} // verus!
