//! Members of teams.
use vstd::prelude::*;

verus! {

/// Database row for the team_members table.
#[derive(Debug, Clone)]
pub struct TeamMember {
    pub team_id: String,
    pub user_id: String,
    pub created_at: i64,
}

/// Data for inserting a new team member.
#[derive(Debug, Clone)]
pub struct NewTeamMember {
    pub team_id: String,
    pub user_id: String,
}

} // verus!
