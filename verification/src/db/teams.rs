//! Teams within an organization.
use vstd::prelude::*;

verus! {

/// Database row for the teams table.
#[derive(Debug, Clone)]
pub struct Team {
    pub id: String,
    pub organization_id: String,
    pub name: String,
    pub created_at: i64,
}

/// Data for inserting a new team.
#[derive(Debug, Clone)]
pub struct NewTeam {
    pub id: String,
    pub organization_id: String,
    pub name: String,
}

} // verus!
