//! Creating a node (the variant where the project must be the user's own and
//! the title is limited in bytes).
use vstd::prelude::*;
use crate::db::nodes::{NewNode, Node};
use crate::db::projects::Project;
use crate::error::{result_view, AppError, ErrorView};
use crate::features::graph::update_node::{check_found, found_check};
use crate::features::graph::helpers::DEFAULT_STATUS_ID;
use crate::text::{chars_of, clone_opt_string, str_eq, string_of, utf8_len, utf8_len_exceeds};

verus! {

/// Request body for creating a node.
#[derive(Debug, Clone)]
pub struct CreateNodeRequest {
    pub node_type_id: String,
    pub title: String,
    pub description: Option<String>,
}

/// Response for a created node.
#[derive(Debug, Clone)]
pub struct NodeResponse {
    pub id: String,
    pub project_id: String,
    pub node_type_id: String,
    pub title: String,
    pub description: Option<String>,
    pub created_at: i64,
    pub updated_at: Option<i64>,
}

/// The outcome of checking that a looked-up project exists and belongs to the user.
pub open spec fn project_of_user_check(lookup: Result<Option<Project>, sqlx::Error>, user_id: Seq<
    char,
>) -> Result<Project, ErrorView> {
    match lookup {
        Err(_) => Err(ErrorView::Database),
        Ok(None) => Err(ErrorView::NotFound("Project not found"@)),
        Ok(Some(p)) => if p.user_id@ == user_id {
            Ok(p)
        } else {
            Err(ErrorView::NotFound("Project not found"@))
        },
    }
}

/// Ensures a user owns a project: a missing project, or another user's, is not found.
pub fn ensure_project_owned(lookup: Result<Option<Project>, sqlx::Error>, user_id: &str) -> (r:
    Result<Project, AppError>)
    ensures
        result_view(r) == project_of_user_check(lookup, user_id@),
{
    match lookup {
        Err(e) => Err(AppError::Database(e)),
        Ok(None) => Err(AppError::not_found("Project not found")),
        Ok(Some(p)) => {
            if str_eq(p.user_id.as_str(), user_id) {
                Ok(p)
            } else {
                Err(AppError::not_found("Project not found"))
            }
        },
    }
}

/// The outcome of checking a new node: its node type exists, then its
/// title has 1 to 255 bytes.
pub open spec fn create_titled_node_check(
    r: CreateNodeRequest,
    node_type_found: Result<bool, sqlx::Error>,
) -> Result<(), ErrorView> {
    match found_check(Some(node_type_found), "Invalid node_type_id"@) {
        Err(e) => Err(e),
        Ok(_) => if r.title@.len() == 0 || utf8_len(r.title@) > 255 {
            Err(ErrorView::Validation("Title must be 1-255 characters"@))
        } else {
            Ok(())
        },
    }
}

/// Decides a new node of a project: the checks, then the node to insert.
pub fn plan_create_node(
    project: &Project,
    request: &CreateNodeRequest,
    node_type_found: Result<bool, sqlx::Error>,
    new_node_id: String,
) -> (r: Result<NewNode, AppError>)
    ensures
        create_titled_node_check(*request, node_type_found) matches Err(e) ==> (r matches Err(x)
            && x@ == e),
        create_titled_node_check(*request, node_type_found) is Ok ==> (r matches Ok(n) && n.id
            == new_node_id && n.project_id == project.id && n.node_type_id == request.node_type_id
            && n.status_id@ == DEFAULT_STATUS_ID@ && n.title == request.title && n.description == request.description
            && n.estimated_minutes is None && n.slot_id is None && n.parent_id is None
            && n.assigned_user_id is None),
{
    check_found(Some(node_type_found), "Invalid node_type_id")?;
    let chars = chars_of(request.title.as_str());
    if chars.len() == 0 || utf8_len_exceeds(&chars, 255) {
        return Err(AppError::validation("Title must be 1-255 characters"));
    }
    Ok(
        NewNode {
            id: new_node_id,
            project_id: project.id.clone(),
            node_type_id: request.node_type_id.clone(),
            status_id: string_of(DEFAULT_STATUS_ID),
            title: request.title.clone(),
            description: clone_opt_string(&request.description),
            estimated_minutes: None,
            slot_id: None,
            parent_id: None,
            assigned_user_id: None,
        },
    )
}

impl NodeResponse {
    /// The response for a stored node.
    pub fn from_node(node: Node) -> (r: NodeResponse)
        ensures
            r.id == node.id,
            r.project_id == node.project_id,
            r.node_type_id == node.node_type_id,
            r.title == node.title,
            r.description == node.description,
            r.created_at == node.created_at,
            r.updated_at == node.updated_at,
    {
        NodeResponse {
            id: node.id,
            project_id: node.project_id,
            node_type_id: node.node_type_id,
            title: node.title,
            description: node.description,
            created_at: node.created_at,
            updated_at: node.updated_at,
        }
    }
}

} // verus!
