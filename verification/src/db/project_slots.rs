//! Named swimlanes ("slots") of a project.
use vstd::prelude::*;

verus! {

/// Database row for the project_slots table.
#[derive(Debug, Clone)]
pub struct ProjectSlot {
    pub id: String,
    pub project_id: String,
    pub name: String,
    pub sort_order: i64,
    pub created_at: i64,
}

/// Data for inserting a new project slot.
#[derive(Debug, Clone)]
pub struct NewProjectSlot {
    pub id: String,
    pub project_id: String,
    pub name: String,
    pub sort_order: i64,
}

} // verus!
