//! Kinds of nodes (task, bug, epic, ...).
use vstd::prelude::*;

verus! {

/// Database row for the node_types table.
#[derive(Debug, Clone)]
pub struct NodeType {
    pub id: String,
    pub user_id: Option<String>,
    pub name: String,
    pub color: String,
    pub created_at: i64,
}

/// Data for inserting a new node type.
#[derive(Debug, Clone)]
pub struct NewNodeType {
    pub id: String,
    pub user_id: Option<String>,
    pub name: String,
    pub color: String,
}

} // verus!
