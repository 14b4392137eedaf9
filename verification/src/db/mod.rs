//! Rows of the database tables and the values written to them.
pub mod email_verification;
pub mod integrations;
pub mod node_edges;
pub mod node_types;
pub mod nodes;
pub mod organization_invites;
pub mod organizations;
pub mod project_slots;
pub mod projects;
pub mod sessions;
pub mod task_statuses;
pub mod team_members;
pub mod teams;
pub mod users;

pub use users::{display_name, display_name_from_parts, NewUser, User};
