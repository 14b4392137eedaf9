//! Creating a node in a project.
use vstd::prelude::*;
use crate::db::nodes::{NewNode, Node};
use crate::db::projects::Project;
use crate::error::{AppError, ErrorView};
use crate::features::graph::helpers::{estimated_minutes_ok, validate_estimated_minutes, DEFAULT_STATUS_ID};
use crate::features::graph::update_node::{check_found, first_err, found_check};
use crate::features::validation::{has_length_between, length_between, InvalidInput};
use crate::text::{clone_opt_string, string_of};

verus! {

/// Request body for creating a node.
#[derive(Debug, Clone)]
pub struct CreateNodeRequest {
    pub node_type_id: String,
    pub title: String,
    pub description: Option<String>,
    pub status_id: Option<String>,
    pub estimated_minutes: Option<i64>,
}

/// Response for a created node.
#[derive(Debug, Clone)]
pub struct NodeResponse {
    pub id: String,
    pub project_id: String,
    pub node_type_id: String,
    pub status_id: String,
    pub title: String,
    pub description: Option<String>,
    pub created_at: i64,
    pub updated_at: Option<i64>,
    pub estimated_minutes: Option<i64>,
}

/// The field rules: a title of 1 to 255 characters, a description of at
/// most 2000, an estimate that is not negative.
pub open spec fn create_request_valid(r: CreateNodeRequest) -> bool {
    &&& length_between(r.title@, 1, 255)
    &&& (r.description matches Some(d) ==> length_between(d@, 0, 2000))
    &&& (r.estimated_minutes matches Some(v) ==> estimated_minutes_ok(v))
}

impl CreateNodeRequest {
    /// Checks the field rules.
    pub fn validate(&self) -> (r: Result<(), InvalidInput>)
        ensures
            r is Ok <==> create_request_valid(*self),
    {
        if !has_length_between(self.title.as_str(), 1, 255) {
            return Err(InvalidInput);
        }
        match &self.description {
            Some(d) => if !has_length_between(d.as_str(), 0, 2000) {
                return Err(InvalidInput);
            },
            None => {},
        }
        match self.estimated_minutes {
            Some(v) => if !validate_estimated_minutes(v) {
                return Err(InvalidInput);
            },
            None => {},
        }
        Ok(())
    }
}

/// The outcome of checking a new node: its fields, then its node type, then
/// its status when it names one.
pub open spec fn create_node_check(
    r: CreateNodeRequest,
    node_type_found: Result<bool, sqlx::Error>,
    status_found: Option<Result<bool, sqlx::Error>>,
) -> Result<(), ErrorView> {
    if !create_request_valid(r) {
        Err(ErrorView::Validation("Invalid input"@))
    } else {
        first_err(
            found_check(Some(node_type_found), "Invalid node_type_id"@),
            if r.status_id is Some {
                found_check(status_found, "Invalid status_id"@)
            } else {
                Ok(())
            },
        )
    }
}

/// Checks a new node; gives its node type and its status (the system
/// "To do" when it names none).
pub fn validate_create_node_request(
    request: &CreateNodeRequest,
    node_type_found: Result<bool, sqlx::Error>,
    status_found: Option<Result<bool, sqlx::Error>>,
) -> (r: Result<(String, String), AppError>)
    ensures
        create_node_check(*request, node_type_found, status_found) matches Err(e) ==> (r matches Err(
            x,
        ) && x@ == e),
        create_node_check(*request, node_type_found, status_found) is Ok ==> (r matches Ok(ids) && ids.0
            == request.node_type_id && ids.1@ == (match request.status_id {
            Some(s) => s@,
            None => DEFAULT_STATUS_ID@,
        })),
{
    if request.validate().is_err() {
        return Err(AppError::validation("Invalid input"));
    }
    check_found(Some(node_type_found), "Invalid node_type_id")?;
    let status_id = match &request.status_id {
        None => string_of(DEFAULT_STATUS_ID),
        Some(s) => {
            check_found(status_found, "Invalid status_id")?;
            s.clone()
        },
    };
    Ok((request.node_type_id.clone(), status_id))
}

/// The node to insert for a checked request.
pub fn new_node_for(
    project: &Project,
    request: &CreateNodeRequest,
    node_type_id: String,
    status_id: String,
    new_node_id: String,
) -> (n: NewNode)
    ensures
        n.id == new_node_id,
        n.project_id == project.id,
        n.node_type_id == node_type_id,
        n.status_id == status_id,
        n.title == request.title,
        n.description == request.description,
        n.estimated_minutes == request.estimated_minutes,
        n.slot_id is None,
        n.parent_id is None,
        n.assigned_user_id is None,
{
    NewNode {
        id: new_node_id,
        project_id: project.id.clone(),
        node_type_id,
        status_id,
        title: request.title.clone(),
        description: clone_opt_string(&request.description),
        estimated_minutes: request.estimated_minutes,
        slot_id: None,
        parent_id: None,
        assigned_user_id: None,
    }
}

impl NodeResponse {
    /// The response for a stored node.
    pub fn from_node(node: Node) -> (r: NodeResponse)
        ensures
            r.id == node.id,
            r.project_id == node.project_id,
            r.node_type_id == node.node_type_id,
            r.status_id == node.status_id,
            r.title == node.title,
            r.description == node.description,
            r.created_at == node.created_at,
            r.updated_at == node.updated_at,
            r.estimated_minutes == node.estimated_minutes,
    {
        NodeResponse {
            id: node.id,
            project_id: node.project_id,
            node_type_id: node.node_type_id,
            status_id: node.status_id,
            title: node.title,
            description: node.description,
            created_at: node.created_at,
            updated_at: node.updated_at,
            estimated_minutes: node.estimated_minutes,
        }
    }
}

} // verus!
