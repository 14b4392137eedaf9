//! The dashboard page.
use vstd::prelude::*;
use crate::db::users::{display_name, display_name_spec, User};

verus! {

/// Dashboard page.
#[derive(Debug, Clone)]
pub struct DashboardTemplate {
    pub app_name: &'static str,
    pub display_name: String,
}

/// The dashboard of a user, greeting them by display name.
pub fn dashboard_page(app_name: &'static str, user: &User) -> (t: DashboardTemplate)
    ensures
        t.app_name == app_name,
        t.display_name@ == display_name_spec(user.first_name@, user.last_name@),
{
    DashboardTemplate { app_name, display_name: display_name(user) }
}

} // verus!
