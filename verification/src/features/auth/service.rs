//! The login check used by the plain login handler: credentials only.
use vstd::prelude::*;
use crate::db::users::User;
use crate::domain::password::hash_matches;
use crate::domain::ulid::ulid_decoding;
use crate::domain::{HashedPassword, Password, UserId};
use crate::error::{AppError, ErrorView};

verus! {

/// What the plain login check decides for a looked-up user and a typed password.
pub open spec fn login_check(user: Result<Option<User>, sqlx::Error>, password: Seq<char>) -> Result<
    u128,
    ErrorView,
> {
    match user {
        Err(_) => Err(ErrorView::Database),
        Ok(None) => Err(ErrorView::Auth("Invalid email or password"@)),
        Ok(Some(u)) => if !hash_matches(u.password_hash@, password) {
            Err(ErrorView::Auth("Invalid email or password"@))
        } else {
            match ulid_decoding(u.id@) {
                Some(uid) => Ok(uid),
                None => Err(ErrorView::Internal),
            }
        },
    }
}

/// Checks a login: the user exists and the password matches the stored
/// hash; gives the user for the new session.
pub fn login(user: Result<Option<User>, sqlx::Error>, password: &Password) -> (r: Result<UserId, AppError>)
    ensures
        match login_check(user, password@) {
            Ok(uid) => r matches Ok(u) && u@ == uid,
            Err(e) => r matches Err(x) && x@ == e,
        },
{
    let u = match user {
        Err(e) => return Err(AppError::Database(e)),
        Ok(None) => return Err(AppError::auth("Invalid email or password")),
        Ok(Some(u)) => u,
    };
    let stored_hash = HashedPassword::from_string(u.password_hash);
    if stored_hash.verify(password).is_err() {
        return Err(AppError::auth("Invalid email or password"));
    }
    match UserId::from_string(u.id.as_str()) {
        Ok(id) => Ok(id),
        Err(_) => Err(AppError::Internal),
    }
}

} // verus!
