//! Accepting an invitation to an organization.
pub mod accept;
