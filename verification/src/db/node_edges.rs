//! Directed edges between nodes of a project graph.
use vstd::prelude::*;

verus! {

/// Database row for the node_edges table.
#[derive(Debug, Clone)]
pub struct NodeEdge {
    pub parent_id: String,
    pub child_id: String,
    pub created_at: i64,
}

/// Data for inserting a new node edge.
#[derive(Debug, Clone)]
pub struct NewNodeEdge {
    pub parent_id: String,
    pub child_id: String,
}

} // verus!
