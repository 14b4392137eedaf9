//! Login sessions.
use vstd::prelude::*;

verus! {

/// Database row for the sessions table.
#[derive(Debug, Clone)]
pub struct Session {
    pub id: String,
    pub user_id: String,
    pub expires_at: i64,
    pub created_at: i64,
}

/// Seconds a login session lasts: thirty days.
pub const SESSION_LIFETIME_SECS: i64 = 30 * 86400;

} // verus!
