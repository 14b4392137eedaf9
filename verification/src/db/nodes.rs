//! Nodes of a project graph.
use vstd::prelude::*;

verus! {

/// Database row for the nodes table.
#[derive(Debug, Clone)]
pub struct Node {
    pub id: String,
    pub project_id: String,
    pub node_type_id: String,
    pub status_id: String,
    pub title: String,
    pub description: Option<String>,
    pub created_at: i64,
    pub updated_at: Option<i64>,
    pub estimated_minutes: Option<i64>,
    pub slot_id: Option<String>,
    pub parent_id: Option<String>,
    pub assigned_user_id: Option<String>,
}

/// Data for inserting a new node.
#[derive(Debug, Clone)]
pub struct NewNode {
    pub id: String,
    pub project_id: String,
    pub node_type_id: String,
    pub status_id: String,
    pub title: String,
    pub description: Option<String>,
    pub estimated_minutes: Option<i64>,
    pub slot_id: Option<String>,
    pub parent_id: Option<String>,
    pub assigned_user_id: Option<String>,
}

} // verus!
