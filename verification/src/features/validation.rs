//! Form and request field rules.
use vstd::prelude::*;
use crate::text::chars_of;

verus! {

/// A form or request body broke one of its field rules.
#[derive(Debug, Clone, Copy, PartialEq, Eq, Structural)]
pub struct InvalidInput;

/// Whether `s` has between `min` and `max` characters (the `length` rule
/// counts characters).
pub open spec fn length_between(s: Seq<char>, min: nat, max: nat) -> bool {
    min <= s.len() <= max
}

/// Number of characters of `s`.
pub fn char_count(s: &str) -> (n: usize)
    ensures
        n == s@.len(),
{
    chars_of(s).len()
}

/// Whether `s` has between `min` and `max` characters.
pub fn has_length_between(s: &str, min: usize, max: usize) -> (b: bool)
    ensures
        b == length_between(s@, min as nat, max as nat),
{
    let n = char_count(s);
    min <= n && n <= max
}

/// Whether the `email` rule of the `validator` crate accepts a text.
pub uninterp spec fn validator_email_ok(s: Seq<char>) -> bool;

/// Calls `ValidateEmail::validate_email` of the `validator` crate (the
/// HTML5 address grammar, with an IDN fallback for the domain). Claims its
/// result is the named `validator_email_ok`, and that it refuses a text
/// that is empty or has no `@` (its first check).
#[verifier::external_body]
pub(crate) fn is_valid_email(s: &str) -> (r: bool)
    ensures
        r == validator_email_ok(s@),
        r ==> s@.len() > 0 && s@.contains('@'),
{
    validator::ValidateEmail::validate_email(&s)
}

/// The rules of an email field: 1 to 254 characters and the `email` rule.
pub open spec fn email_field_ok(s: Seq<char>) -> bool {
    length_between(s, 1, 254) && validator_email_ok(s)
}

/// Checks an email field: 1 to 254 characters and the `email` rule.
pub fn check_email_field(s: &str) -> (b: bool)
    ensures
        b == email_field_ok(s@),
{
    has_length_between(s, 1, 254) && is_valid_email(s)
}

} // verus!
