//! Deleting an edge: both ends must exist in the project; deleting a
//! missing edge succeeds.
use vstd::prelude::*;
use crate::db::nodes::Node;
use crate::error::AppError;
use crate::features::graph::helpers::{check_edge_endpoints, edge_endpoints_check};

verus! {

/// Request body naming the edge to delete.
#[derive(Debug, Clone)]
pub struct CreateEdgeRequest {
    pub parent_id: String,
    pub child_id: String,
}

/// Checks the looked-up ends of the edge to delete.
pub fn check_delete_edge(
    parent: Result<Option<Node>, sqlx::Error>,
    child: Result<Option<Node>, sqlx::Error>,
    project_id: &str,
) -> (r: Result<(), AppError>)
    ensures
        edge_endpoints_check(parent, child, project_id@) matches Err(e) ==> (r matches Err(x) && x@
            == e),
        edge_endpoints_check(parent, child, project_id@) is Ok ==> r is Ok,
{
    check_edge_endpoints(parent, child, project_id)?;
    Ok(())
}

} // verus!
