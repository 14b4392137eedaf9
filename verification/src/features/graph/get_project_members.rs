//! The members of a project's organization (for the assignee list).
use vstd::prelude::*;
use crate::db::organizations::MemberWithEmail;
use crate::db::projects::Project;
use crate::domain::ulid::ulid_decoding;
use crate::domain::OrganizationId;
use crate::error::AppError;

verus! {

/// Member row for the assignee list.
#[derive(Debug, Clone)]
pub struct ProjectMemberItem {
    pub user_id: String,
    pub email: String,
    pub first_name: String,
    pub last_name: String,
    pub profile_image_url: Option<String>,
}

/// Response for listing the members of a project's organization.
#[derive(Debug, Clone)]
pub struct ProjectMembersResponse {
    pub members: Vec<ProjectMemberItem>,
}

/// The organization of a project; a project whose organization id is not a
/// ULID is not found.
pub fn project_organization(project: &Project) -> (r: Result<OrganizationId, AppError>)
    ensures
        r matches Ok(id) ==> ulid_decoding(project.organization_id@) == Some(id@),
        r is Err <==> ulid_decoding(project.organization_id@) is None,
        r matches Err(e) ==> e@ == crate::error::ErrorView::NotFound("Project not found"@),
{
    match OrganizationId::from_string(project.organization_id.as_str()) {
        Ok(id) => Ok(id),
        Err(_) => Err(AppError::not_found("Project not found")),
    }
}

/// Whether an item shows a member row.
pub open spec fn item_of(item: ProjectMemberItem, m: MemberWithEmail) -> bool {
    &&& item.user_id == m.user_id
    &&& item.email == m.email
    &&& item.first_name == m.first_name
    &&& item.last_name == m.last_name
    &&& item.profile_image_url == m.profile_image_url
}

/// The response listing the member rows, in their order.
pub fn members_response(rows: Vec<MemberWithEmail>) -> (r: ProjectMembersResponse)
    ensures
        r.members@.len() == rows@.len(),
        forall|i: int| 0 <= i < rows@.len() ==> item_of(#[trigger] r.members@[i], rows@[i]),
{
    let mut members: Vec<ProjectMemberItem> = Vec::new();
    let mut i: usize = 0;
    while i < rows.len()
        invariant
            i <= rows@.len(),
            members@.len() == i,
            forall|j: int| 0 <= j < i ==> item_of(#[trigger] members@[j], rows@[j]),
        decreases rows@.len() - i,
    {
        let m = &rows[i];
        members.push(
            ProjectMemberItem {
                user_id: m.user_id.clone(),
                email: m.email.clone(),
                first_name: m.first_name.clone(),
                last_name: m.last_name.clone(),
                profile_image_url: crate::text::clone_opt_string(&m.profile_image_url),
            },
        );
        i = i + 1;
    }
    ProjectMembersResponse { members }
}

} // verus!
