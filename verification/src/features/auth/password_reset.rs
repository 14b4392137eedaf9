//! Forgotten passwords: asking for a reset link and setting a new password.
use vstd::prelude::*;
use crate::domain::email::{email_check, normalize_email};
use crate::domain::password::{hash_matches, password_check, password_error_message};
use crate::domain::{Email, HashedPassword, Password, UserId};
use crate::features::validation::{check_email_field, email_field_ok, has_length_between, length_between};
use crate::text::{push_str, string_of};

verus! {

/// Forgot-password form data.
#[derive(Debug, Clone)]
pub struct ForgotPasswordForm {
    pub email: String,
}

/// Forgot-password page.
#[derive(Debug, Clone)]
pub struct ForgotPasswordTemplate {
    pub app_name: &'static str,
    pub error: String,
    pub email: String,
    pub success: bool,
}

/// Reset-password form data.
#[derive(Debug, Clone)]
pub struct ResetPasswordForm {
    pub token: String,
    pub password: String,
    pub confirm_password: String,
}

/// Reset-password page.
#[derive(Debug, Clone)]
pub struct ResetPasswordTemplate {
    pub app_name: &'static str,
    pub error: String,
    pub token: String,
}

/// Query parameters of the forgot-password page (error feedback).
#[derive(Debug, Clone)]
pub struct ForgotQuery {
    pub error: Option<String>,
}

/// Query parameters of the reset-password page.
#[derive(Debug, Clone)]
pub struct ResetQuery {
    pub token: Option<String>,
}

impl ForgotPasswordForm {
    /// Whether the email field is 1 to 254 characters and an email address.
    pub fn validate(&self) -> (b: bool)
        ensures
            b == email_field_ok(self.email@),
    {
        check_email_field(self.email.as_str())
    }
}

/// The rules of a new-password form: 8 to 128 characters, typed twice alike.
pub open spec fn new_password_fields_ok(password: Seq<char>, confirm: Seq<char>) -> bool {
    length_between(password, 8, 128) && confirm == password
}

impl ResetPasswordForm {
    /// Checks the field rules.
    pub fn validate(&self) -> (b: bool)
        ensures
            b == new_password_fields_ok(self.password@, self.confirm_password@),
    {
        has_length_between(self.password.as_str(), 8, 128) && self.confirm_password == self.password
    }
}

/// The forgot-password page as first shown, with the error of the query.
pub fn forgot_page(app_name: &'static str, query: ForgotQuery) -> (t: ForgotPasswordTemplate)
    ensures
        t.app_name == app_name,
        t.error@ == (match query.error {
            Some(e) => e@,
            None => Seq::<char>::empty(),
        }),
        t.email@ == Seq::<char>::empty(),
        !t.success,
{
    let error = match query.error {
        Some(e) => e,
        None => String::new(),
    };
    ForgotPasswordTemplate { app_name, error, email: String::new(), success: false }
}

/// The forgot-password page after a request: always the same success,
/// whether the email belongs to a user or not.
pub fn forgot_success_page(app_name: &'static str) -> (t: ForgotPasswordTemplate)
    ensures
        t.app_name == app_name,
        t.error@ == Seq::<char>::empty(),
        t.email@ == Seq::<char>::empty(),
        t.success,
{
    ForgotPasswordTemplate { app_name, error: String::new(), email: String::new(), success: true }
}

/// Checks the forgot-password form; on failure, the page to show again.
pub fn check_forgot_form(app_name: &'static str, form: &ForgotPasswordForm) -> (r: Result<
    Email,
    ForgotPasswordTemplate,
>)
    ensures
        !email_field_ok(form.email@) ==> (r matches Err(t) && t.error@ == "Invalid form data"@),
        email_field_ok(form.email@) && email_check(normalize_email(form.email@)) is Err ==> (r matches Err(
            t,
        ) && t.error@ == "Invalid email address"@),
        r matches Ok(e) ==> email_check(normalize_email(form.email@)) == Ok::<Seq<char>, crate::domain::EmailError>(e@)
            && email_field_ok(form.email@),
        r matches Err(t) ==> t.app_name == app_name && t.email@ == form.email@ && !t.success,
        email_field_ok(form.email@) && email_check(normalize_email(form.email@)) is Ok ==> (r matches Ok(
            e,
        ) && e@ == normalize_email(form.email@)),
{
    if !form.validate() {
        return Err(
            ForgotPasswordTemplate {
                app_name,
                error: string_of("Invalid form data"),
                email: form.email.clone(),
                success: false,
            },
        );
    }
    match Email::new(form.email.clone()) {
        Ok(e) => Ok(e),
        Err(_) => Err(
            ForgotPasswordTemplate {
                app_name,
                error: string_of("Invalid email address"),
                email: form.email.clone(),
                success: false,
            },
        ),
    }
}

/// The password reset link.
pub fn reset_link(app_url_base: &str, token: &str) -> (r: String)
    ensures
        r@ == app_url_base@ + "/reset-password?token="@ + token@,
{
    let mut r = string_of(app_url_base);
    push_str(&mut r, "/reset-password?token=");
    push_str(&mut r, token);
    r
}

/// Seconds a password reset link stays valid: one hour.
pub const RESET_TOKEN_LIFETIME_SECS: i64 = 3600;

/// The subject of the password reset email.
pub const RESET_EMAIL_SUBJECT: &'static str = "Reset your Boardtask password";

/// The body of the password reset email.
pub fn reset_email_body(link: &str) -> (r: String)
    ensures
        r@ == "Click this link to reset your password: "@ + link@,
{
    let mut r = string_of("Click this link to reset your password: ");
    push_str(&mut r, link);
    r
}

/// Where an invalid reset link sends the browser.
pub const INVALID_RESET_PATH: &'static str = "/forgot-password?error=invalid";

/// Where a completed reset sends the browser.
pub const RESET_DONE_PATH: &'static str = "/login?reset=ok";

/// The reset token of the query: present and not empty.
pub fn reset_query_token(query: ResetQuery) -> (r: Option<String>)
    ensures
        r matches Some(t) ==> query.token == Some(t) && t@.len() > 0,
        r is None ==> !(query.token matches Some(t) && t@.len() > 0),
{
    match query.token {
        Some(t) => if t.as_str().is_empty() {
            None
        } else {
            Some(t)
        },
        None => None,
    }
}

/// The reset page for a token.
pub fn reset_page(app_name: &'static str, error: &str, token: &str) -> (t: ResetPasswordTemplate)
    ensures
        t.app_name == app_name,
        t.error@ == error@,
        t.token@ == token@,
{
    ResetPasswordTemplate { app_name, error: string_of(error), token: string_of(token) }
}

/// The message of the first rule a reset breaks, before its writes: the
/// fields, then the token, then the strength of the new password.
pub open spec fn reset_check(form: ResetPasswordForm, token_user: Result<Option<UserId>, sqlx::Error>) -> Result<
    (),
    Seq<char>,
> {
    if !new_password_fields_ok(form.password@, form.confirm_password@) {
        Err("Invalid form data"@)
    } else if !(token_user matches Ok(Some(_))) {
        Err("Invalid or expired reset token"@)
    } else {
        match password_check(form.password@) {
            Err(e) => Err(password_error_message(e)),
            Ok(_) => Ok(()),
        }
    }
}

/// Decides a reset from the form and the user its token names: the user and
/// the new hash (which verifies against the new password), or the page to show.
pub fn plan_reset(
    app_name: &'static str,
    form: &ResetPasswordForm,
    token_user: Result<Option<UserId>, sqlx::Error>,
) -> (r: Result<(UserId, HashedPassword), ResetPasswordTemplate>)
    ensures
        reset_check(*form, token_user) matches Err(m) ==> (r matches Err(t) && t.error@ == m),
        reset_check(*form, token_user) is Ok ==> r is Ok,
        r matches Ok((u, h)) ==> reset_check(*form, token_user) is Ok && token_user == Ok::<
            Option<UserId>,
            sqlx::Error,
        >(Some(u)) && hash_matches(h@, form.password@),
        r matches Err(t) ==> t.app_name == app_name && t.token@ == form.token@,
{
    if !form.validate() {
        return Err(reset_page(app_name, "Invalid form data", form.token.as_str()));
    }
    let user_id = match token_user {
        Ok(Some(id)) => id,
        _ => return Err(reset_page(app_name, "Invalid or expired reset token", form.token.as_str())),
    };
    let password = match Password::new(form.password.clone()) {
        Ok(p) => p,
        Err(e) => return Err(reset_page(app_name, e.message(), form.token.as_str())),
    };
    match HashedPassword::from_password(&password) {
        Ok(h) => Ok((user_id, h)),
        Err(_) => Err(reset_page(app_name, "Password hashing failed", form.token.as_str())),
    }
}

/// The writes of a reset, made in one transaction.
#[derive(Debug, Clone, Copy, PartialEq, Eq, Structural)]
pub enum ResetWrite {
    Begin,
    UpdatePassword,
    DeleteToken,
    Commit,
}

/// What follows a write of the reset: the next write, the failure page of
/// the write that failed (the transaction is then dropped uncommitted), or
/// the redirect to the login page once the commit went through.
#[derive(Debug, Clone, Copy, PartialEq, Eq, Structural)]
pub enum ResetNext {
    Write(ResetWrite),
    Fail(ResetWrite),
    Done,
}

/// The write after `w`, in the order begin, update, delete token, commit.
pub open spec fn reset_successor(w: ResetWrite) -> ResetNext {
    match w {
        ResetWrite::Begin => ResetNext::Write(ResetWrite::UpdatePassword),
        ResetWrite::UpdatePassword => ResetNext::Write(ResetWrite::DeleteToken),
        ResetWrite::DeleteToken => ResetNext::Write(ResetWrite::Commit),
        ResetWrite::Commit => ResetNext::Done,
    }
}

/// Decides what follows the write `w` of a reset, given whether it succeeded.
pub fn reset_next(w: ResetWrite, ok: bool) -> (r: ResetNext)
    ensures
        ok ==> r == reset_successor(w),
        !ok ==> r == ResetNext::Fail(w),
{
    if !ok {
        return ResetNext::Fail(w);
    }
    match w {
        ResetWrite::Begin => ResetNext::Write(ResetWrite::UpdatePassword),
        ResetWrite::UpdatePassword => ResetNext::Write(ResetWrite::DeleteToken),
        ResetWrite::DeleteToken => ResetNext::Write(ResetWrite::Commit),
        ResetWrite::Commit => ResetNext::Done,
    }
}

/// Where a reset ends when its writes, from `w` on, have the outcomes
/// `oks` in turn; `None` while writes remain.
pub open spec fn reset_run(w: ResetWrite, oks: Seq<bool>) -> Option<ResetNext>
    decreases oks.len(),
{
    if oks.len() == 0 {
        None
    } else {
        let next = if oks[0] {
            reset_successor(w)
        } else {
            ResetNext::Fail(w)
        };
        match next {
            ResetNext::Write(n) => reset_run(n, oks.drop_first()),
            _ => Some(next),
        }
    }
}

/// A reset ends in the redirect exactly when all four of its writes (begin,
/// update the password, delete the token, commit) succeeded; any failure ends
/// it on that write's failure page, before or without a successful commit.
pub proof fn law_reset_commits_all_or_nothing(oks: Seq<bool>)
    ensures
        reset_run(ResetWrite::Begin, oks) == Some(ResetNext::Done) <==> (oks.len() >= 4
            && oks[0] && oks[1] && oks[2] && oks[3]),
        reset_run(ResetWrite::Begin, oks) matches Some(ResetNext::Fail(w)) ==> exists|i: int|
            0 <= i < 4 && i < oks.len() && !oks[i] && (forall|j: int| 0 <= j < i ==> oks[j]),
{
    reveal_with_fuel(reset_run, 5);
    let o1 = oks.drop_first();
    let o2 = o1.drop_first();
    let o3 = o2.drop_first();
    if oks.len() >= 1 && oks[0] && oks.len() >= 2 {
        assert(o1[0] == oks[1]);
    }
    if oks.len() >= 3 {
        assert(o2[0] == oks[2]);
    }
    if oks.len() >= 4 {
        assert(o3[0] == oks[3]);
    }
    if reset_run(ResetWrite::Begin, oks) matches Some(ResetNext::Fail(w)) {
        if !oks[0] {
            assert(0 < oks.len() && !oks[0]);
        } else if !oks[1] {
            assert(forall|j: int| 0 <= j < 1 ==> oks[j]);
        } else if !oks[2] {
            assert(forall|j: int| 0 <= j < 2 ==> oks[j]);
        } else {
            assert(forall|j: int| 0 <= j < 3 ==> oks[j]);
        }
    }
}

/// The message shown when a write of the reset fails.
pub open spec fn reset_write_message(step: ResetWrite) -> Seq<char> {
    match step {
        ResetWrite::Begin => "Database error"@,
        ResetWrite::UpdatePassword => "Failed to update password"@,
        ResetWrite::DeleteToken => "Failed to invalidate reset token"@,
        ResetWrite::Commit => "Database transaction failed"@,
    }
}

/// The page shown when a write of the reset fails.
pub fn reset_write_failure(app_name: &'static str, step: ResetWrite, token: &str) -> (t:
    ResetPasswordTemplate)
    ensures
        t.app_name == app_name,
        t.error@ == reset_write_message(step),
        t.token@ == token@,
{
    let msg = match step {
        ResetWrite::Begin => "Database error",
        ResetWrite::UpdatePassword => "Failed to update password",
        ResetWrite::DeleteToken => "Failed to invalidate reset token",
        ResetWrite::Commit => "Database transaction failed",
    };
    reset_page(app_name, msg, token)
}

} // verus!
