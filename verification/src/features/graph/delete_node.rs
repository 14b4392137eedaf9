//! Deleting a node of a project.
use vstd::prelude::*;
use crate::db::nodes::Node;
use crate::error::AppError;
use crate::features::graph::helpers::{node_in_project, node_in_project_check};

verus! {

/// The id of the node to delete, once it is found in the project.
pub fn node_to_delete(lookup: Result<Option<Node>, sqlx::Error>, project_id: &str) -> (r: Result<
    String,
    AppError,
>)
    ensures
        node_in_project_check(lookup, project_id@) matches Err(e) ==> (r matches Err(x) && x@ == e),
        node_in_project_check(lookup, project_id@) matches Ok(n) ==> r == Ok::<String, AppError>(
            n.id,
        ),
{
    let node = node_in_project(lookup, project_id)?;
    Ok(node.id)
}

} // verus!
