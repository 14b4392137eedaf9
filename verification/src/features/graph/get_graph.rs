//! The full graph of a project.
use vstd::prelude::*;
use crate::db::node_edges::NodeEdge;
use crate::db::nodes::Node;

verus! {

/// Response for the full graph (nodes and edges).
#[derive(Debug, Clone)]
pub struct GraphResponse {
    pub nodes: Vec<Node>,
    pub edges: Vec<NodeEdge>,
}

} // verus!
