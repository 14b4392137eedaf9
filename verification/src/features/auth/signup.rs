//! Signing up: the form, the new account's checks and the verification email.
use vstd::prelude::*;
use crate::db::users::User;
use crate::domain::email::{email_check, normalize_email};
use crate::domain::password::{password_check, password_error_message};
use crate::domain::{Email, Password};
use crate::error::{AppError, ErrorView};
use crate::features::auth::password_reset::new_password_fields_ok;
use crate::features::validation::{check_email_field, email_field_ok, has_length_between};
use crate::text::{chars_of, push_str, string_of, string_of_chars, trim_end_char_seq};

verus! {

/// Signup form data.
#[derive(Debug, Clone)]
pub struct SignupForm {
    pub email: String,
    pub password: String,
    pub confirm_password: String,
}

/// Signup page.
#[derive(Debug, Clone)]
pub struct SignupTemplate {
    pub app_name: &'static str,
    pub error: String,
    pub email: String,
}

/// The field rules of the signup form.
pub open spec fn signup_form_ok(f: SignupForm) -> bool {
    email_field_ok(f.email@) && new_password_fields_ok(f.password@, f.confirm_password@)
}

impl SignupForm {
    /// Checks the field rules: an email field, and a password of 8 to 128
    /// characters typed twice alike.
    pub fn validate(&self) -> (b: bool)
        ensures
            b == signup_form_ok(*self),
    {
        check_email_field(self.email.as_str()) && has_length_between(self.password.as_str(), 8, 128)
            && self.confirm_password == self.password
    }
}

/// The signup page showing an error, keeping the typed email.
pub fn signup_page(app_name: &'static str, error: &str, email: &str) -> (t: SignupTemplate)
    ensures
        t.app_name == app_name,
        t.error@ == error@,
        t.email@ == email@,
{
    SignupTemplate { app_name, error: string_of(error), email: string_of(email) }
}

/// The message of the first rule a signup form breaks.
pub open spec fn signup_form_check(f: SignupForm) -> Result<(), Seq<char>> {
    if !signup_form_ok(f) {
        Err("Invalid form data"@)
    } else if email_check(normalize_email(f.email@)) is Err {
        Err("Invalid email address"@)
    } else {
        match password_check(f.password@) {
            Err(e) => Err(password_error_message(e)),
            Ok(_) => Ok(()),
        }
    }
}

/// Checks the signup form: the email and the password for the new account,
/// or the page to show again.
pub fn check_signup_form(app_name: &'static str, form: &SignupForm) -> (r: Result<
    (Email, Password),
    SignupTemplate,
>)
    ensures
        signup_form_check(*form) matches Err(m) ==> (r matches Err(t) && t.error@ == m),
        signup_form_check(*form) is Ok ==> (r matches Ok((e, p)) && email_check(
            normalize_email(form.email@),
        ) == Ok::<Seq<char>, crate::domain::EmailError>(e@) && p@ == form.password@),
        r matches Err(t) ==> t.app_name == app_name && t.email@ == form.email@,
{
    if !form.validate() {
        return Err(signup_page(app_name, "Invalid form data", form.email.as_str()));
    }
    let email = match Email::new(form.email.clone()) {
        Ok(e) => e,
        Err(_) => return Err(signup_page(app_name, "Invalid email address", form.email.as_str())),
    };
    let password = match Password::new(form.password.clone()) {
        Ok(p) => p,
        Err(e) => return Err(signup_page(app_name, e.message(), form.email.as_str())),
    };
    Ok((email, password))
}

/// Refuses a signup for an email that already has an account, without
/// saying so outright.
pub fn check_email_available(existing: Result<Option<User>, sqlx::Error>) -> (r: Result<(), AppError>)
    ensures
        existing is Err ==> (r matches Err(e) && e@ == ErrorView::Database),
        existing matches Ok(Some(_)) ==> (r matches Err(e) && e@ == ErrorView::Auth(
            "Unable to create account. If you already have an account, please log in."@,
        )),
        existing matches Ok(None) ==> r is Ok,
{
    match existing {
        Err(e) => Err(AppError::Database(e)),
        Ok(Some(_)) => Err(
            AppError::auth("Unable to create account. If you already have an account, please log in."),
        ),
        Ok(None) => Ok(()),
    }
}

/// Seconds the verification link of a new account stays valid: one day.
pub const SIGNUP_TOKEN_LIFETIME_SECS: i64 = 86400;

/// The verification link of the signup email: the base URL without its
/// trailing slashes, then the token.
pub fn signup_verify_url(app_url: &str, token: &str) -> (r: String)
    ensures
        r@ == trim_end_char_seq(app_url@, '/') + "/verify-email?token="@ + token@,
{
    let chars = chars_of(app_url);
    let mut j = chars.len();
    assert(chars@.take(j as int) =~= chars@);
    while j > 0 && chars[j - 1] == '/'
        invariant
            j <= chars@.len(),
            chars@ == app_url@,
            trim_end_char_seq(app_url@, '/') == trim_end_char_seq(chars@.take(j as int), '/'),
        decreases j,
    {
        assert(chars@.take(j as int).drop_last() =~= chars@.take(j - 1));
        j = j - 1;
    }
    let mut r = string_of_chars(&chars, 0, j);
    assert(chars@.subrange(0, j as int) =~= chars@.take(j as int));
    push_str(&mut r, "/verify-email?token=");
    push_str(&mut r, token);
    r
}

/// Where a completed signup goes: the check-email page with the email as it is.
pub fn signup_check_email_redirect(email: &Email) -> (r: String)
    ensures
        r@ == "/check-email?email="@ + email@,
{
    let mut r = string_of("/check-email?email=");
    push_str(&mut r, email.as_str());
    r
}

/// The signup page for a failed account creation: an authentication
/// message is shown as it is, anything else as an internal error.
pub fn signup_failure_page(app_name: &'static str, err: AppError, email: &str) -> (t: SignupTemplate)
    ensures
        t.app_name == app_name,
        t.email@ == email@,
        err@ matches ErrorView::Auth(m) ==> t.error@ == m,
        !(err@ is Auth) ==> t.error@ == "Internal server error"@,
{
    match err {
        AppError::Auth(msg) => SignupTemplate { app_name, error: msg, email: string_of(email) },
        _ => signup_page(app_name, "Internal server error", email),
    }
}

} // verus!
