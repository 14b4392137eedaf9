//! Checks shared by the graph endpoints.
use vstd::prelude::*;
use crate::db::nodes::Node;
use crate::db::projects::Project;
use crate::error::{result_view, AppError, ErrorView};
use crate::text::str_eq;

verus! {

/// Id of the system "To do" status, given to a new node that names none.
pub const DEFAULT_STATUS_ID: &'static str = "01JTASKSTATUS000000TODO000";

/// The rule for an estimate in minutes: it may not be negative.
pub open spec fn estimated_minutes_ok(v: i64) -> bool {
    v >= 0
}

/// Checks an estimate in minutes.
pub fn validate_estimated_minutes(v: i64) -> (b: bool)
    ensures
        b == estimated_minutes_ok(v),
{
    v >= 0
}

/// The outcome of checking that a looked-up project exists and belongs to
/// the user within the organization.
pub open spec fn project_owned_check(
    lookup: Result<Option<Project>, sqlx::Error>,
    user_id: Seq<char>,
    organization_id: Seq<char>,
) -> Result<Project, ErrorView> {
    match lookup {
        Err(_) => Err(ErrorView::Database),
        Ok(None) => Err(ErrorView::NotFound("Project not found"@)),
        Ok(Some(p)) => if p.user_id@ == user_id && p.organization_id@ == organization_id {
            Ok(p)
        } else {
            Err(ErrorView::NotFound("Project not found"@))
        },
    }
}

/// Ensures a user owns a project: a missing project, or one of another user
/// or organization, is not found.
pub fn ensure_project_owned(
    lookup: Result<Option<Project>, sqlx::Error>,
    user_id: &str,
    organization_id: &str,
) -> (r: Result<Project, AppError>)
    ensures
        result_view(r) == project_owned_check(lookup, user_id@, organization_id@),
{
    match lookup {
        Err(e) => Err(AppError::Database(e)),
        Ok(None) => Err(AppError::not_found("Project not found")),
        Ok(Some(p)) => {
            if str_eq(p.user_id.as_str(), user_id) && str_eq(p.organization_id.as_str(), organization_id) {
                Ok(p)
            } else {
                Err(AppError::not_found("Project not found"))
            }
        },
    }
}

/// A project that passes the check belongs to the session's user and
/// organization: no request reaches another tenant's project.
pub proof fn law_owned_project_matches_session(
    lookup: Result<Option<Project>, sqlx::Error>,
    user_id: Seq<char>,
    organization_id: Seq<char>,
)
    ensures
        project_owned_check(lookup, user_id, organization_id) matches Ok(p) ==> p.user_id@ == user_id
            && p.organization_id@ == organization_id,
{
}

/// The outcome of checking that a looked-up node exists and belongs to the project.
pub open spec fn node_in_project_check(
    lookup: Result<Option<Node>, sqlx::Error>,
    project_id: Seq<char>,
) -> Result<Node, ErrorView> {
    match lookup {
        Err(_) => Err(ErrorView::Database),
        Ok(None) => Err(ErrorView::NotFound("Node not found"@)),
        Ok(Some(n)) => if n.project_id@ == project_id {
            Ok(n)
        } else {
            Err(ErrorView::NotFound("Node not found"@))
        },
    }
}

/// Checks that a looked-up node exists and belongs to the project.
pub fn node_in_project(lookup: Result<Option<Node>, sqlx::Error>, project_id: &str) -> (r: Result<
    Node,
    AppError,
>)
    ensures
        result_view(r) == node_in_project_check(lookup, project_id@),
{
    match lookup {
        Err(e) => Err(AppError::Database(e)),
        Ok(None) => Err(AppError::not_found("Node not found")),
        Ok(Some(n)) => {
            if str_eq(n.project_id.as_str(), project_id) {
                Ok(n)
            } else {
                Err(AppError::not_found("Node not found"))
            }
        },
    }
}

/// The outcome of checking both ends of an edge: each must exist and belong
/// to the project. Missing nodes are reported before foreign ones, the
/// parent before the child.
pub open spec fn edge_endpoints_check(
    parent: Result<Option<Node>, sqlx::Error>,
    child: Result<Option<Node>, sqlx::Error>,
    project_id: Seq<char>,
) -> Result<(Node, Node), ErrorView> {
    match parent {
        Err(_) => Err(ErrorView::Database),
        Ok(None) => Err(ErrorView::NotFound("Parent node not found"@)),
        Ok(Some(p)) => match child {
            Err(_) => Err(ErrorView::Database),
            Ok(None) => Err(ErrorView::NotFound("Child node not found"@)),
            Ok(Some(c)) => if p.project_id@ != project_id {
                Err(ErrorView::NotFound("Parent node not found"@))
            } else if c.project_id@ != project_id {
                Err(ErrorView::NotFound("Child node not found"@))
            } else {
                Ok((p, c))
            },
        },
    }
}

/// Checks both ends of an edge (looked up in that order).
pub fn check_edge_endpoints(
    parent: Result<Option<Node>, sqlx::Error>,
    child: Result<Option<Node>, sqlx::Error>,
    project_id: &str,
) -> (r: Result<(Node, Node), AppError>)
    ensures
        result_view(r) == edge_endpoints_check(parent, child, project_id@),
{
    let p = match parent {
        Err(e) => return Err(AppError::Database(e)),
        Ok(None) => return Err(AppError::not_found("Parent node not found")),
        Ok(Some(p)) => p,
    };
    let c = match child {
        Err(e) => return Err(AppError::Database(e)),
        Ok(None) => return Err(AppError::not_found("Child node not found")),
        Ok(Some(c)) => c,
    };
    if !str_eq(p.project_id.as_str(), project_id) {
        return Err(AppError::not_found("Parent node not found"));
    }
    if !str_eq(c.project_id.as_str(), project_id) {
        return Err(AppError::not_found("Child node not found"));
    }
    Ok((p, c))
}

} // verus!
