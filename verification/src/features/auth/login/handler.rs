//! The login page variant that shows only an error.
use vstd::prelude::*;
use crate::error::{AppError, ErrorView};
use crate::text::string_of;

verus! {

/// Login page.
#[derive(Debug, Clone)]
pub struct LoginTemplate {
    pub app_name: &'static str,
    pub error: String,
}

/// The login page with an error (empty when first shown).
pub fn login_page(app_name: &'static str, error: &str) -> (t: LoginTemplate)
    ensures
        t.app_name == app_name,
        t.error@ == error@,
{
    LoginTemplate { app_name, error: string_of(error) }
}

/// The login page after failed credentials: an authentication message is
/// shown as it is, anything else as an internal error.
pub fn login_failure_page(app_name: &'static str, err: AppError) -> (t: LoginTemplate)
    ensures
        t.app_name == app_name,
        err@ matches ErrorView::Auth(m) ==> t.error@ == m,
        !(err@ is Auth) ==> t.error@ == "Internal server error"@,
{
    match err {
        AppError::Auth(msg) => LoginTemplate { app_name, error: msg },
        _ => login_page(app_name, "Internal server error"),
    }
}

} // verus!
