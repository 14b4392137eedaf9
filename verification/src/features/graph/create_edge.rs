//! Creating an edge between two nodes of a project.
use vstd::prelude::*;
use crate::db::node_edges::{NewNodeEdge, NodeEdge};
use crate::db::nodes::Node;
use crate::error::{AppError, ErrorView};
use crate::features::graph::helpers::{check_edge_endpoints, edge_endpoints_check};
use crate::text::str_eq;

verus! {

/// Request body for creating an edge.
#[derive(Debug, Clone)]
pub struct CreateEdgeRequest {
    pub parent_id: String,
    pub child_id: String,
}

/// Response for a created edge.
#[derive(Debug, Clone)]
pub struct EdgeResponse {
    pub parent_id: String,
    pub child_id: String,
    pub created_at: i64,
}

/// The outcome of checking a new edge: both ends exist in the project, and
/// the edge does not join a node to itself.
pub open spec fn create_edge_check(
    r: CreateEdgeRequest,
    parent: Result<Option<Node>, sqlx::Error>,
    child: Result<Option<Node>, sqlx::Error>,
    project_id: Seq<char>,
) -> Result<(), ErrorView> {
    match edge_endpoints_check(parent, child, project_id) {
        Err(e) => Err(e),
        Ok(_) => if r.parent_id@ == r.child_id@ {
            Err(ErrorView::Validation("Cannot create edge from node to itself"@))
        } else {
            Ok(())
        },
    }
}

/// Decides a new edge from the looked-up ends: the edge to insert.
pub fn plan_create_edge(
    request: &CreateEdgeRequest,
    parent: Result<Option<Node>, sqlx::Error>,
    child: Result<Option<Node>, sqlx::Error>,
    project_id: &str,
) -> (r: Result<NewNodeEdge, AppError>)
    ensures
        create_edge_check(*request, parent, child, project_id@) matches Err(e) ==> (r matches Err(x)
            && x@ == e),
        create_edge_check(*request, parent, child, project_id@) is Ok ==> (r matches Ok(edge)
            && edge.parent_id == request.parent_id && edge.child_id == request.child_id),
{
    check_edge_endpoints(parent, child, project_id)?;
    if str_eq(request.parent_id.as_str(), request.child_id.as_str()) {
        return Err(AppError::validation("Cannot create edge from node to itself"));
    }
    Ok(NewNodeEdge { parent_id: request.parent_id.clone(), child_id: request.child_id.clone() })
}

/// Whether an edge joins `parent` to `child`.
pub open spec fn edge_joins(e: NodeEdge, parent: Seq<char>, child: Seq<char>) -> bool {
    e.parent_id@ == parent && e.child_id@ == child
}

/// The response for the created edge: the first edge of the project that
/// joins `parent` to `child`, or an internal error when there is none.
pub fn find_created_edge(edges: Vec<NodeEdge>, parent: &str, child: &str) -> (r: Result<
    EdgeResponse,
    AppError,
>)
    ensures
        r is Err ==> (r matches Err(e) && e@ == ErrorView::Internal) && forall|i: int|
            0 <= i < edges@.len() ==> !edge_joins(#[trigger] edges@[i], parent@, child@),
        r matches Ok(resp) ==> exists|i: int|
            0 <= i < edges@.len() && edge_joins(#[trigger] edges@[i], parent@, child@) && (forall|j: int|
                0 <= j < i ==> !edge_joins(#[trigger] edges@[j], parent@, child@)) && resp.parent_id
                == edges@[i].parent_id && resp.child_id == edges@[i].child_id && resp.created_at
                == edges@[i].created_at,
{
    let mut i: usize = 0;
    while i < edges.len()
        invariant
            i <= edges@.len(),
            forall|j: int| 0 <= j < i ==> !edge_joins(#[trigger] edges@[j], parent@, child@),
        decreases edges@.len() - i,
    {
        let e = &edges[i];
        if str_eq(e.parent_id.as_str(), parent) && str_eq(e.child_id.as_str(), child) {
            let resp = EdgeResponse {
                parent_id: e.parent_id.clone(),
                child_id: e.child_id.clone(),
                created_at: e.created_at,
            };
            assert(edge_joins(edges@[i as int], parent@, child@));
            return Ok(resp);
        }
        i = i + 1;
    }
    Err(AppError::Internal)
}

} // verus!
