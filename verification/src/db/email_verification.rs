//! Email verification tokens.
use vstd::prelude::*;
use crate::domain::ulid::ulid_decoding;
use crate::domain::UserId;

verus! {

/// The user a token row points to: `None` when there is no row or the
/// stored id is not a ULID.
pub fn user_id_from_row(row: Option<String>) -> (r: Option<UserId>)
    ensures
        row is None ==> r is None,
        row matches Some(s) ==> (r is None <==> ulid_decoding(s@) is None),
        r matches Some(id) ==> ulid_decoding(row.unwrap()@) == Some(id@),
{
    match row {
        Some(s) => match UserId::from_string(s.as_str()) {
            Ok(id) => Some(id),
            Err(_) => None,
        },
        None => None,
    }
}

} // verus!
