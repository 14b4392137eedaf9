//! Workflow statuses of tasks.
use vstd::prelude::*;

verus! {

/// Database row for the task_statuses table.
#[derive(Debug, Clone)]
pub struct TaskStatus {
    pub id: String,
    pub organization_id: Option<String>,
    pub name: String,
    pub sort_order: i64,
    pub created_at: i64,
}

/// Data for inserting a new task status.
#[derive(Debug, Clone)]
pub struct NewTaskStatus {
    pub id: String,
    pub organization_id: Option<String>,
    pub name: String,
    pub sort_order: i64,
}

} // verus!
