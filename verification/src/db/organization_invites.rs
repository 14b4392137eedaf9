//! Pending invitations to join an organization.
use vstd::prelude::*;
use crate::domain::{OrganizationId, OrganizationRole, UserId};

verus! {

/// Database row for the organization_invites table.
#[derive(Debug, Clone)]
pub struct OrganizationInvite {
    pub id: String,
    pub organization_id: String,
    pub email: String,
    pub role: String,
    pub invited_by_user_id: String,
    pub token: String,
    pub expires_at: i64,
    pub created_at: i64,
}

/// Data for inserting a new organization invite.
#[derive(Debug, Clone)]
pub struct NewOrganizationInvite {
    pub id: String,
    pub organization_id: OrganizationId,
    pub email: String,
    pub role: OrganizationRole,
    pub invited_by_user_id: UserId,
    pub token: String,
    pub expires_at: i64,
    pub created_at: i64,
}

} // verus!
