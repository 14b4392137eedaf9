//! Organizations and their members.
use vstd::prelude::*;
use crate::domain::organization_role::role_named;
use crate::domain::{OrganizationId, OrganizationRole};

verus! {

/// Database row for the organizations table.
#[derive(Debug, Clone)]
pub struct Organization {
    pub id: String,
    pub name: String,
    pub created_at: i64,
}

/// Data for inserting a new organization.
#[derive(Debug, Clone)]
pub struct NewOrganization {
    pub id: OrganizationId,
    pub name: String,
}

/// A member of an organization with the user's email, names and picture.
#[derive(Debug, Clone)]
pub struct MemberWithEmail {
    pub user_id: String,
    pub email: String,
    pub first_name: String,
    pub last_name: String,
    pub profile_image_url: Option<String>,
    pub role: String,
}

/// The role read from a membership row: `None` when there is no row or the
/// stored text is not a role name.
pub fn member_role_from_row(row: Option<String>) -> (r: Option<OrganizationRole>)
    ensures
        r == (match row {
            Some(s) => role_named(s@),
            None => None,
        }),
{
    match row {
        Some(s) => match OrganizationRole::parse(s.as_str()) {
            Ok(role) => Some(role),
            Err(_) => None,
        },
        None => None,
    }
}

} // verus!
