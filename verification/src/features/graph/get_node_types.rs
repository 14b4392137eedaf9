//! The system node types.
use vstd::prelude::*;
use crate::db::node_types::NodeType;

verus! {

/// Response for node types.
#[derive(Debug, Clone)]
pub struct NodeTypesResponse {
    pub node_types: Vec<NodeType>,
}

} // verus!
