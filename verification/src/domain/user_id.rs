//! User identifiers.
use vstd::prelude::*;
use crate::domain::ulid::{
    generate_ulid, lemma_ulid_text_decodes, ulid_decoding, ulid_from_string, ulid_text, ulid_to_string, IdParseError,
};

verus! {

/// User ID domain type: a ULID, non-sequential and sortable.
#[derive(Debug, Clone, Copy, PartialEq, Eq, Structural)]
pub struct UserId(u128);

impl View for UserId {
    type V = u128;

    closed spec fn view(&self) -> u128 {
        self.0
    }
}

impl UserId {
    /// A new random ULID.
    pub fn new() -> (r: UserId) {
        UserId(generate_ulid())
    }

    /// The ULID's 26-character text, for storage and display; parsing it gives the same id back.
    pub fn as_str(&self) -> (r: String)
        ensures
            r@ == ulid_text(self@),
            ulid_decoding(r@) == Some(self@),
    {
        proof {
            lemma_ulid_text_decodes(self.0);
        }
        ulid_to_string(self.0)
    }

    /// Parses a ULID text.
    pub fn from_string(s: &str) -> (res: Result<UserId, IdParseError>)
        ensures
            res matches Ok(id) ==> ulid_decoding(s@) == Some(id@),
            res is Err <==> ulid_decoding(s@) is None,
    {
        match ulid_from_string(s) {
            Ok(v) => Ok(UserId(v)),
            Err(_) => Err(IdParseError),
        }
    }

    /// The ULID's 128-bit value.
    pub fn inner(&self) -> (r: u128)
        ensures
            r == self@,
    {
        self.0
    }

    /// The id with the given 128-bit value.
    pub fn from_inner(v: u128) -> (r: UserId)
        ensures
            r@ == v,
    {
        UserId(v)
    }
}

} // verus!
