//! The account page: profile facts, changing the password and the name.
use vstd::prelude::*;
use crate::db::users::User;
use crate::domain::password::{hash_matches, password_check, password_error_message};
use crate::domain::ulid::ulid_decoding;
use crate::domain::{HashedPassword, Password, UserId};
use crate::encoding::{push_url_encoded, url_encoded};
use crate::features::auth::password_reset::new_password_fields_ok;
use crate::features::validation::{char_count, has_length_between, length_between};
use crate::text::{string_of, trim, trim_seq};

verus! {

/// Query parameters of the account page (error and success feedback).
#[derive(Debug, Clone)]
pub struct AccountQuery {
    pub error: Option<String>,
    pub success: Option<String>,
}

/// Account page.
#[derive(Debug, Clone)]
pub struct AccountTemplate {
    pub app_name: &'static str,
    pub email: String,
    pub email_verified: bool,
    pub first_name_value: String,
    pub last_name_value: String,
    pub error: String,
    pub success: String,
}

/// Change-password form data.
#[derive(Debug, Clone)]
pub struct ChangePasswordForm {
    pub current_password: String,
    pub new_password: String,
    pub confirm_password: String,
}

/// Update-name form data.
#[derive(Debug, Clone)]
pub struct UpdateNameForm {
    pub first_name: String,
    pub last_name: String,
}

/// The account page with an error message.
pub open spec fn account_error_url(msg: Seq<char>) -> Seq<char> {
    "/app/account?error="@ + url_encoded(msg)
}

/// Builds the account page URL with an error message.
pub fn error_redirect(msg: &str) -> (r: String)
    ensures
        r@ == account_error_url(msg@),
{
    let mut r = string_of("/app/account?error=");
    push_url_encoded(&mut r, msg);
    r
}

/// The account page of a user, with the feedback of the query.
pub fn account_page(app_name: &'static str, user: User, query: AccountQuery) -> (t: AccountTemplate)
    ensures
        t.app_name == app_name,
        t.email == user.email,
        t.email_verified == user.email_verified_at is Some,
        t.first_name_value == user.first_name,
        t.last_name_value == user.last_name,
        t.error@ == (match query.error {
            Some(e) => e@,
            None => Seq::<char>::empty(),
        }),
        t.success@ == (match query.success {
            Some(s) => s@,
            None => Seq::<char>::empty(),
        }),
{
    let error = match query.error {
        Some(e) => e,
        None => String::new(),
    };
    let success = match query.success {
        Some(s) => s,
        None => String::new(),
    };
    AccountTemplate {
        app_name,
        email: user.email,
        email_verified: user.email_verified_at.is_some(),
        first_name_value: user.first_name,
        last_name_value: user.last_name,
        error,
        success,
    }
}

/// The field rules of the change-password form.
pub open spec fn change_password_form_ok(f: ChangePasswordForm) -> bool {
    f.current_password@.len() >= 1 && new_password_fields_ok(f.new_password@, f.confirm_password@)
}

impl ChangePasswordForm {
    /// Checks the field rules: a current password, and a new one of 8 to 128
    /// characters typed twice alike.
    pub fn validate(&self) -> (b: bool)
        ensures
            b == change_password_form_ok(*self),
    {
        char_count(self.current_password.as_str()) >= 1 && has_length_between(
            self.new_password.as_str(),
            8,
            128,
        ) && self.confirm_password == self.new_password
    }
}

/// The page of the first rule a new password breaks, if any.
pub open spec fn change_password_form_check(f: ChangePasswordForm) -> Result<(), Seq<char>> {
    if !change_password_form_ok(f) {
        Err(account_error_url("New password and confirmation must match and be 8–128 characters."@))
    } else if password_check(f.new_password@) is Err {
        Err(account_error_url(password_error_message(password_check(f.new_password@)->Err_0)))
    } else {
        Ok(())
    }
}

/// Decides a change of password before the user is read: the session's
/// user and the new hash (which verifies against the new password), or the
/// page to go to. The new password is checked and hashed first, without
/// touching the database; a broken session then goes to the login page.
pub fn plan_change_password(form: &ChangePasswordForm, session_user_id: &str) -> (r: Result<
    (UserId, HashedPassword),
    String,
>)
    ensures
        change_password_form_check(*form) matches Err(p) ==> (r matches Err(x) && x@ == p),
        change_password_form_check(*form) is Ok ==> (match r {
            Ok((u, h)) => ulid_decoding(session_user_id@) == Some(u@) && hash_matches(
                h@,
                form.new_password@,
            ),
            Err(x) => x@ == "/login"@ && ulid_decoding(session_user_id@) is None,
        }),
        change_password_form_check(*form) is Ok && ulid_decoding(session_user_id@) is None ==> r is Err,
        change_password_form_check(*form) is Ok && ulid_decoding(session_user_id@) is Some ==> r is Ok,
{
    if !form.validate() {
        return Err(error_redirect("New password and confirmation must match and be 8–128 characters."));
    }
    let new_password = match Password::new(form.new_password.clone()) {
        Ok(p) => p,
        Err(e) => return Err(error_redirect(e.message())),
    };
    let password_hash = match HashedPassword::from_password(&new_password) {
        Ok(h) => h,
        Err(_) => return Err(error_redirect("Password hashing failed.")),
    };
    let user_id = match UserId::from_string(session_user_id) {
        Ok(id) => id,
        Err(_) => return Err(string_of("/login")),
    };
    Ok((user_id, password_hash))
}

/// Checks the current password against the stored user: a missing user
/// goes to the login page, a wrong password back to the account page.
pub fn check_current_password(user: Result<Option<User>, sqlx::Error>, current: &Password) -> (r:
    Result<(), String>)
    ensures
        user is Err ==> (r matches Err(x) && x@ == account_error_url("Database error."@)),
        user matches Ok(None) ==> (r matches Err(x) && x@ == "/login"@),
        user matches Ok(Some(u)) ==> (match r {
            Ok(_) => hash_matches(u.password_hash@, current@),
            Err(x) => !hash_matches(u.password_hash@, current@) && x@ == account_error_url(
                "Current password is wrong."@,
            ),
        }),
{
    let u = match user {
        Ok(Some(u)) => u,
        Ok(None) => return Err(string_of("/login")),
        Err(_) => return Err(error_redirect("Database error.")),
    };
    let stored_hash = HashedPassword::from_string(u.password_hash);
    if stored_hash.verify(current).is_err() {
        return Err(error_redirect("Current password is wrong."));
    }
    Ok(())
}

/// Where a successful change of password goes.
pub const PASSWORD_CHANGED_PATH: &'static str = "/app/account?success=password_changed";

/// Where a successful change of name goes.
pub const NAME_UPDATED_PATH: &'static str = "/app/account?success=name_updated";

/// The field rules of the update-name form: each name has 1 to 100 characters.
pub open spec fn update_name_form_ok(f: UpdateNameForm) -> bool {
    length_between(f.first_name@, 1, 100) && length_between(f.last_name@, 1, 100)
}

/// Where a change of name goes before its write: the first failed rule's
/// page, or the session's user and the trimmed names.
pub open spec fn update_name_check(f: UpdateNameForm, session_user_id: Seq<char>) -> Result<
    (u128, Seq<char>, Seq<char>),
    Seq<char>,
> {
    if !update_name_form_ok(f) {
        Err(account_error_url("First and last name are required (1–100 characters each)."@))
    } else if ulid_decoding(session_user_id) is None {
        Err("/login"@)
    } else if trim_seq(f.first_name@).len() == 0 || trim_seq(f.last_name@).len() == 0 {
        Err(account_error_url("First and last name cannot be empty."@))
    } else {
        Ok((ulid_decoding(session_user_id).unwrap(), trim_seq(f.first_name@), trim_seq(f.last_name@)))
    }
}

/// Decides a change of name: the session's user and the trimmed names, or
/// the page to go to.
pub fn plan_update_name(form: &UpdateNameForm, session_user_id: &str) -> (r: Result<
    (UserId, String, String),
    String,
>)
    ensures
        match update_name_check(*form, session_user_id@) {
            Ok((u, f, l)) => r matches Ok((x, y, z)) && x@ == u && y@ == f && z@ == l,
            Err(p) => r matches Err(x) && x@ == p,
        },
{
    if !(has_length_between(form.first_name.as_str(), 1, 100) && has_length_between(
        form.last_name.as_str(),
        1,
        100,
    )) {
        return Err(error_redirect("First and last name are required (1–100 characters each)."));
    }
    let user_id = match UserId::from_string(session_user_id) {
        Ok(id) => id,
        Err(_) => return Err(string_of("/login")),
    };
    let first = trim(form.first_name.as_str());
    let last = trim(form.last_name.as_str());
    if first.as_str().is_empty() || last.as_str().is_empty() {
        return Err(error_redirect("First and last name cannot be empty."));
    }
    Ok((user_id, first, last))
}

} // verus!
