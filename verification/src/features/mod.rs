//! The application's features: what each page and API endpoint decides.
pub mod account;
pub mod auth;
pub mod dashboard;
pub mod graph;
pub mod integrations;
pub mod invites;
pub mod not_found;
pub mod organization;
pub mod validation;
