//! The registry of integrations and their per-organization links.
use vstd::prelude::*;

verus! {

/// Database row for the integrations table (registry of allowed integrations).
#[derive(Debug, Clone)]
pub struct Integration {
    pub id: String,
    pub slug: String,
    pub name: String,
    pub created_at: i64,
}

/// Data for inserting a new integration.
#[derive(Debug, Clone)]
pub struct NewIntegration {
    pub id: String,
    pub slug: String,
    pub name: String,
}

/// Database row for the organization_integrations table.
#[derive(Debug, Clone)]
pub struct OrganizationIntegration {
    pub organization_id: String,
    pub integration_id: String,
    pub enabled: i32,
    pub created_at: i64,
    pub updated_at: i64,
}

} // verus!
