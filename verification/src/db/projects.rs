//! Projects and their default view mode.
use vstd::prelude::*;
use crate::domain::project_view_mode::view_mode_named;
use crate::domain::ProjectViewMode;

verus! {

/// Database row for the projects table.
#[derive(Debug, Clone)]
pub struct Project {
    pub id: String,
    pub title: String,
    pub user_id: String,
    pub created_at: i64,
    pub organization_id: String,
    pub team_id: Option<String>,
    pub default_view_mode: String,
}

/// The view mode a stored text stands for, `Graph` for any other text.
pub open spec fn view_mode_or_graph(s: Seq<char>) -> ProjectViewMode {
    match view_mode_named(s) {
        Some(m) => m,
        None => ProjectViewMode::Graph,
    }
}

impl Project {
    /// The default view mode as a domain value; falls back to `Graph` for invalid values.
    pub fn default_view_mode(&self) -> (r: ProjectViewMode)
        ensures
            r == view_mode_or_graph(self.default_view_mode@),
    {
        match ProjectViewMode::parse(self.default_view_mode.as_str()) {
            Ok(m) => m,
            Err(_) => ProjectViewMode::Graph,
        }
    }
}

/// Data for inserting a new project.
#[derive(Debug, Clone)]
pub struct NewProject {
    pub id: String,
    pub title: String,
    pub user_id: String,
    pub organization_id: String,
    pub team_id: String,
}

} // verus!
