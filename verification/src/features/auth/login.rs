//! Logging in: the form, the credential checks and the failure pages.
use vstd::prelude::*;
use crate::db::users::User;
use crate::domain::email::{email_check, normalize_email};
use crate::domain::password::hash_matches;
use crate::domain::ulid::ulid_decoding;
use crate::domain::{Email, HashedPassword, OrganizationId, Password, UserId};
use crate::encoding::{push_url_encoded, url_encoded};
use crate::error::{AppError, ErrorView};
use crate::features::validation::{char_count, check_email_field, email_field_ok};
use crate::text::{str_eq, string_of};

pub mod handler;

verus! {

/// Login form data.
#[derive(Debug, Clone)]
pub struct LoginForm {
    pub email: String,
    pub password: String,
}

/// Login page.
#[derive(Debug, Clone)]
pub struct LoginTemplate {
    pub app_name: &'static str,
    pub error: String,
    pub email: String,
    pub resend_verification_url: String,
}

/// Message shown when a user must verify their email first.
pub const UNVERIFIED_MSG: &'static str =
    "Please verify your email before signing in. Check your inbox for the verification link.";

/// The field rules of the login form: an email field and a non-empty password.
pub open spec fn login_form_ok(f: LoginForm) -> bool {
    email_field_ok(f.email@) && f.password@.len() >= 1
}

impl LoginForm {
    /// Checks the field rules.
    pub fn validate(&self) -> (b: bool)
        ensures
            b == login_form_ok(*self),
    {
        check_email_field(self.email.as_str()) && char_count(self.password.as_str()) >= 1
    }
}

/// The login page as first shown.
pub fn login_page(app_name: &'static str) -> (t: LoginTemplate)
    ensures
        t.app_name == app_name,
        t.error@ == Seq::<char>::empty(),
        t.email@ == Seq::<char>::empty(),
        t.resend_verification_url@ == Seq::<char>::empty(),
{
    LoginTemplate {
        app_name,
        error: String::new(),
        email: String::new(),
        resend_verification_url: String::new(),
    }
}

fn error_page(app_name: &'static str, error: &str, email: &str) -> (t: LoginTemplate)
    ensures
        t.app_name == app_name,
        t.error@ == error@,
        t.email@ == email@,
        t.resend_verification_url@ == Seq::<char>::empty(),
{
    LoginTemplate {
        app_name,
        error: string_of(error),
        email: string_of(email),
        resend_verification_url: String::new(),
    }
}

/// Checks the login form; on failure, the page to show again (which does
/// not say whether the email exists).
pub fn check_login_form(app_name: &'static str, form: &LoginForm) -> (r: Result<Email, LoginTemplate>)
    ensures
        !login_form_ok(*form) ==> (r matches Err(t) && t.error@ == "Invalid form data"@),
        login_form_ok(*form) && email_check(normalize_email(form.email@)) is Err ==> (r matches Err(t)
            && t.error@ == "Invalid email or password"@),
        r matches Ok(e) ==> login_form_ok(*form) && email_check(normalize_email(form.email@))
            == Ok::<Seq<char>, crate::domain::EmailError>(e@),
        r matches Err(t) ==> t.app_name == app_name && t.email@ == form.email@
            && t.resend_verification_url@ == Seq::<char>::empty(),
        login_form_ok(*form) && email_check(normalize_email(form.email@)) is Ok ==> (r matches Ok(e)
            && e@ == normalize_email(form.email@)),
{
    if !form.validate() {
        return Err(error_page(app_name, "Invalid form data", form.email.as_str()));
    }
    match Email::new(form.email.clone()) {
        Ok(e) => Ok(e),
        Err(_) => Err(error_page(app_name, "Invalid email or password", form.email.as_str())),
    }
}

/// What the credential checks decide for a looked-up user and a typed password.
pub open spec fn credentials_check(user: Result<Option<User>, sqlx::Error>, password: Seq<char>) -> Result<
    (u128, u128),
    ErrorView,
> {
    match user {
        Err(_) => Err(ErrorView::Database),
        Ok(None) => Err(ErrorView::Auth("Invalid email or password"@)),
        Ok(Some(u)) => if !hash_matches(u.password_hash@, password) {
            Err(ErrorView::Auth("Invalid email or password"@))
        } else if u.email_verified_at is None {
            Err(ErrorView::Auth(UNVERIFIED_MSG@))
        } else {
            match (ulid_decoding(u.id@), ulid_decoding(u.organization_id@)) {
                (Some(uid), Some(oid)) => Ok((uid, oid)),
                _ => Err(ErrorView::Internal),
            }
        },
    }
}

/// A login for an email with no account is answered exactly as one with a
/// wrong password, so the answer does not tell which emails have accounts.
pub proof fn law_login_hides_unknown_emails(u: User, password: Seq<char>)
    requires
        !hash_matches(u.password_hash@, password),
    ensures
        credentials_check(Ok(None), password) == credentials_check(Ok(Some(u)), password),
{
}

/// A user whose email is not verified cannot log in, whatever the password.
pub proof fn law_unverified_cannot_log_in(u: User, password: Seq<char>)
    requires
        u.email_verified_at is None,
    ensures
        credentials_check(Ok(Some(u)), password) is Err,
{
}

/// Checks the credentials of a login: the user exists, the password
/// matches the stored hash, the email is verified; gives the ids for the
/// new session. A missing user and a wrong password get the same answer.
pub fn check_credentials(user: Result<Option<User>, sqlx::Error>, password: &Password) -> (r: Result<
    (UserId, OrganizationId),
    AppError,
>)
    ensures
        match credentials_check(user, password@) {
            Ok((uid, oid)) => r matches Ok((u, o)) && u@ == uid && o@ == oid,
            Err(e) => r matches Err(x) && x@ == e,
        },
{
    let u = match user {
        Err(e) => return Err(AppError::Database(e)),
        Ok(None) => return Err(AppError::auth("Invalid email or password")),
        Ok(Some(u)) => u,
    };
    let stored_hash = HashedPassword::from_string(u.password_hash);
    if stored_hash.verify(password).is_err() {
        return Err(AppError::auth("Invalid email or password"));
    }
    if u.email_verified_at.is_none() {
        return Err(AppError::auth(UNVERIFIED_MSG));
    }
    let user_id = match UserId::from_string(u.id.as_str()) {
        Ok(id) => id,
        Err(_) => return Err(AppError::Internal),
    };
    let organization_id = match OrganizationId::from_string(u.organization_id.as_str()) {
        Ok(id) => id,
        Err(_) => return Err(AppError::Internal),
    };
    Ok((user_id, organization_id))
}

/// The login page after failed credentials: an authentication message is
/// shown as it is (with a link to resend the verification email when the
/// email is unverified), anything else as an internal error.
pub fn login_failure_page(app_name: &'static str, email: &Email, err: AppError) -> (t: LoginTemplate)
    ensures
        t.app_name == app_name,
        t.email@ == email@,
        err@ matches ErrorView::Auth(m) ==> t.error@ == m && t.resend_verification_url@ == (if m
            == UNVERIFIED_MSG@ {
            "/resend-verification?email="@ + url_encoded(email@)
        } else {
            Seq::<char>::empty()
        }),
        !(err@ is Auth) ==> t.error@ == "Internal server error"@ && t.resend_verification_url@
            == Seq::<char>::empty(),
{
    match err {
        AppError::Auth(msg) => {
            let resend_verification_url = if str_eq(msg.as_str(), UNVERIFIED_MSG) {
                let mut u = string_of("/resend-verification?email=");
                push_url_encoded(&mut u, email.as_str());
                u
            } else {
                String::new()
            };
            LoginTemplate { app_name, error: msg, email: string_of(email.as_str()), resend_verification_url }
        },
        _ => error_page(app_name, "Internal server error", email.as_str()),
    }
}

} // verus!
