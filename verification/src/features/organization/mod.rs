//! Organization settings: members and invitations.
pub mod settings;
