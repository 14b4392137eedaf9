//! The system task statuses.
use vstd::prelude::*;
use crate::db::task_statuses::TaskStatus;

verus! {

/// Response for task statuses.
#[derive(Debug, Clone)]
pub struct TaskStatusesResponse {
    pub task_statuses: Vec<TaskStatus>,
}

} // verus!
