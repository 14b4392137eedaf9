//! The integrations page.
use vstd::prelude::*;
use crate::db::integrations::Integration;

verus! {

/// Integrations page: the allowed integrations, each "coming soon".
#[derive(Debug, Clone)]
pub struct IntegrationsTemplate {
    pub app_name: &'static str,
    pub integrations: Vec<Integration>,
}

} // verus!
