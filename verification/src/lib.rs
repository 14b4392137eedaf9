//! Boardtask: accounts, organizations with invitations, and project graphs
//! of tasks, with each rule stated and proved.
use vstd::prelude::*;

pub mod config;
pub mod db;
pub mod domain;
pub mod encoding;
pub mod error;
pub mod features;
pub mod text;

verus! {

/// The application's name, shown in pages and emails.
pub const APP_NAME: &'static str = "Boardtask";

} // verus!
