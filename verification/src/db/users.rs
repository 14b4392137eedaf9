//! Users, and how their names and bios are written.
use vstd::prelude::*;
use crate::domain::{Email, HashedPassword, OrganizationId, UserId};
use crate::text::{opt_str_view, push_str, trim, trim_seq};

verus! {

/// Database row for the users table.
#[derive(Debug, Clone)]
pub struct User {
    pub id: String,
    pub email: String,
    pub password_hash: String,
    pub created_at: i64,
    pub updated_at: i64,
    pub email_verified_at: Option<i64>,
    pub organization_id: String,
    pub first_name: String,
    pub last_name: String,
    pub profile_image_url: Option<String>,
    pub bio: Option<String>,
    pub email_notifications: i32,
    pub theme_mode: String,
    pub language: String,
}

/// Data for inserting a new user.
#[derive(Debug)]
pub struct NewUser {
    pub id: UserId,
    pub email: Email,
    pub password_hash: HashedPassword,
    pub organization_id: OrganizationId,
    pub first_name: String,
    pub last_name: String,
}

/// "First Last" from the two name parts, each trimmed, the whole trimmed again.
pub open spec fn display_name_spec(first: Seq<char>, last: Seq<char>) -> Seq<char> {
    trim_seq(trim_seq(first) + seq![' '] + trim_seq(last))
}

/// Display name of a user: "First Last".
pub fn display_name(user: &User) -> (r: String)
    ensures
        r@ == display_name_spec(user.first_name@, user.last_name@),
{
    display_name_from_parts(user.first_name.as_str(), user.last_name.as_str())
}

/// Display name from first and last name.
pub fn display_name_from_parts(first_name: &str, last_name: &str) -> (r: String)
    ensures
        r@ == display_name_spec(first_name@, last_name@),
{
    let mut joined = trim(first_name);
    let ghost first = joined@;
    crate::text::push_char(&mut joined, ' ');
    let last = trim(last_name);
    push_str(&mut joined, last.as_str());
    assert(joined@ =~= first + seq![' '] + last@);
    trim(joined.as_str())
}

/// The bio that is stored: the trimmed text, or nothing when it is blank.
pub open spec fn stored_bio(bio: Option<Seq<char>>) -> Option<Seq<char>> {
    match bio {
        Some(s) => if trim_seq(s).len() == 0 {
            None
        } else {
            Some(trim_seq(s))
        },
        None => None,
    }
}

/// Normalizes a bio before it is written: trimmed, and cleared when blank.
pub fn normalize_bio(bio: Option<&str>) -> (r: Option<String>)
    ensures
        r is Some <==> stored_bio(opt_str_view(bio)) is Some,
        r matches Some(t) ==> stored_bio(opt_str_view(bio)) == Some(t@),
{
    match bio {
        Some(s) => {
            let t = trim(s);
            if t.as_str().is_empty() {
                None
            } else {
                Some(t)
            }
        },
        None => None,
    }
}

} // verus!
