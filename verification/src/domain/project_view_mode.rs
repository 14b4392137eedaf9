//! How a project opens from the projects list.
use vstd::prelude::*;
use crate::domain::organization_role::ParseNameError;
use crate::text::str_eq;

verus! {

/// Per-project default view mode. Written and parsed as its lowercase name.
#[derive(Debug, Clone, Copy, PartialEq, Eq, Structural)]
pub enum ProjectViewMode {
    Graph,
    List,
}

/// The lowercase name of a view mode.
pub open spec fn view_mode_name(mode: ProjectViewMode) -> Seq<char> {
    match mode {
        ProjectViewMode::Graph => "graph"@,
        ProjectViewMode::List => "list"@,
    }
}

/// The view mode whose lowercase name is `s`, if any.
pub open spec fn view_mode_named(s: Seq<char>) -> Option<ProjectViewMode> {
    if s == "graph"@ {
        Some(ProjectViewMode::Graph)
    } else if s == "list"@ {
        Some(ProjectViewMode::List)
    } else {
        None
    }
}

impl Default for ProjectViewMode {
    fn default() -> (r: Self)
        ensures
            r == ProjectViewMode::Graph,
    {
        ProjectViewMode::Graph
    }
}

impl ProjectViewMode {
    /// The mode's lowercase name.
    pub fn as_str(&self) -> (r: &'static str)
        ensures
            r@ == view_mode_name(*self),
    {
        match self {
            ProjectViewMode::Graph => "graph",
            ProjectViewMode::List => "list",
        }
    }

    /// The mode's lowercase name, as an owned string.
    pub fn to_string(&self) -> (r: String)
        ensures
            r@ == view_mode_name(*self),
    {
        crate::text::string_of(self.as_str())
    }

    /// Parses a lowercase view mode name; any other text is refused.
    pub fn parse(s: &str) -> (res: Result<ProjectViewMode, ParseNameError>)
        ensures
            res matches Ok(m) ==> view_mode_named(s@) == Some(m),
            res is Err <==> view_mode_named(s@) is None,
    {
        if str_eq(s, "graph") {
            Ok(ProjectViewMode::Graph)
        } else if str_eq(s, "list") {
            Ok(ProjectViewMode::List)
        } else {
            Err(ParseNameError)
        }
    }
}

/// Parsing the name of a view mode gives the mode back.
pub proof fn law_view_mode_name_roundtrip(mode: ProjectViewMode)
    ensures
        view_mode_named(view_mode_name(mode)) == Some(mode),
{
    reveal_strlit("graph");
    reveal_strlit("list");
    assert("list"@[0] != "graph"@[0]);
}

} // verus!
