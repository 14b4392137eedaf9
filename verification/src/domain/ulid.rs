//! ULIDs as the identifiers of users, organizations and other records.
use vstd::prelude::*;
use vstd::arithmetic::power::pow;
use vstd::arithmetic::div_mod::{lemma_div_denominator, lemma_fundamental_div_mod};

verus! {

/// The Crockford base32 digit for `d` (below 32), as the `ulid` crate
/// writes it: the alphabet "0123456789ABCDEFGHJKMNPQRSTVWXYZ".
pub open spec fn crockford_char(d: int) -> char {
    if d < 10 {
        (('0' as int) + d) as char
    } else if d < 18 {
        (('A' as int) + d - 10) as char
    } else if d < 20 {
        (('J' as int) + d - 18) as char
    } else if d < 22 {
        (('M' as int) + d - 20) as char
    } else if d < 27 {
        (('P' as int) + d - 22) as char
    } else {
        (('V' as int) + d - 27) as char
    }
}

/// The 26-character text of a ULID value: digit `i` (from the left) is the
/// value's base-32 digit of weight `32^(25 - i)`.
pub open spec fn ulid_text(v: u128) -> Seq<char> {
    Seq::new(26, |i: int| crockford_char((v as int / pow(32, (25 - i) as nat)) % 32))
}

/// The value of a Crockford base32 digit as `Ulid::from_string` reads it
/// (the crate's lookup table): a digit or letter of the alphabet, or the
/// lowercase form of one of its letters.
pub open spec fn crockford_digit(c: char) -> Option<int> {
    let u = if 'a' <= c <= 'z' {
        (c as int) - 32
    } else {
        c as int
    };
    if ('0' as int) <= u <= ('9' as int) {
        Some(u - ('0' as int))
    } else if ('A' as int) <= u <= ('H' as int) {
        Some(u - ('A' as int) + 10)
    } else if ('J' as int) <= u <= ('K' as int) {
        Some(u - ('J' as int) + 18)
    } else if ('M' as int) <= u <= ('N' as int) {
        Some(u - ('M' as int) + 20)
    } else if ('P' as int) <= u <= ('T' as int) {
        Some(u - ('P' as int) + 22)
    } else if ('V' as int) <= u <= ('Z' as int) {
        Some(u - ('V' as int) + 27)
    } else {
        None
    }
}

/// The number the base32 digits of `s` write, most significant first.
pub open spec fn base32_value(s: Seq<char>) -> int
    decreases s.len(),
{
    if s.len() == 0 {
        0
    } else {
        base32_value(s.drop_last()) * 32 + match crockford_digit(s.last()) {
            Some(d) => d,
            None => 0,
        }
    }
}

/// What `Ulid::from_string` decodes a text to, if it accepts it: 26
/// base32 digits, whose value is taken modulo 2^128 (the crate shifts a
/// `u128` left by 5 bits per digit, dropping what overflows).
pub open spec fn ulid_decoding(s: Seq<char>) -> Option<u128> {
    if s.len() == 26 && forall|i: int| 0 <= i < 26 ==> (#[trigger] crockford_digit(s[i])) is Some {
        Some((base32_value(s) % 0x1_0000_0000_0000_0000_0000_0000_0000_0000int) as u128)
    } else {
        None
    }
}

/// The decoding error of the `ulid` crate, carried through as an opaque value.
#[verifier::external_type_specification]
#[verifier::external_body]
pub struct ExUlidDecodeError(ulid::DecodeError);

/// Calls `Ulid::new()`, which draws a fresh ULID from the clock and a random
/// number generator. Nothing is stated of the value.
#[verifier::external_body]
pub(crate) fn generate_ulid() -> (res: u128) {
    ulid::Ulid::new().0
}

/// Calls `Ulid::to_string`. Claims: the text is `ulid_text(v)` (the crate's
/// `encode_to_array` writes digit `v & 0x1f` at the end and shifts by 5 for
/// each position to the left).
#[verifier::external_body]
pub(crate) fn ulid_to_string(v: u128) -> (res: String)
    ensures
        res@ == ulid_text(v),
{
    ulid::Ulid(v).to_string()
}

/// Calls `Ulid::from_string`. Claims: it succeeds exactly on texts of 26
/// base32 digits (the crate checks for 26 bytes and looks each up in its
/// table, where bytes outside ASCII have no value), with the value that
/// `ulid_decoding` states.
#[verifier::external_body]
pub(crate) fn ulid_from_string(s: &str) -> (res: Result<u128, ulid::DecodeError>)
    ensures
        res matches Ok(v) ==> ulid_decoding(s@) == Some(v),
        res is Err ==> ulid_decoding(s@) is None,
{
    ulid::Ulid::from_string(s).map(|u| u.0)
}

/// A digit's character reads back as the digit.
pub proof fn lemma_crockford_digit_of_char(d: int)
    requires
        0 <= d < 32,
    ensures
        crockford_digit(crockford_char(d)) == Some(d),
{
}

/// The first `n` digits of a ULID value's text write the value divided by
/// the weight of the digits that follow.
proof fn lemma_ulid_text_prefix(v: u128, n: int)
    requires
        0 <= n <= 26,
    ensures
        base32_value(ulid_text(v).take(n)) == v as int / pow(32, (26 - n) as nat),
    decreases n,
{
    let t = ulid_text(v);
    if n == 0 {
        assert(t.take(0) =~= Seq::<char>::empty());
        assert(pow(32, 26) == 0x4_0000_0000_0000_0000_0000_0000_0000_0000int) by {
            reveal_with_fuel(pow, 27);
        }
        assert(v as int / pow(32, 26) == 0) by (nonlinear_arith)
            requires
                0 <= v < pow(32, 26),
        ;
    } else {
        lemma_ulid_text_prefix(v, n - 1);
        let e = (26 - n) as nat;
        let c = pow(32, e);
        vstd::arithmetic::power::lemma_pow_positive(32, e);
        assert(pow(32, (27 - n) as nat) == c * 32) by {
            vstd::arithmetic::power::lemma_pow_adds(32, e, 1);
            vstd::arithmetic::power::lemma_pow1(32);
        }
        let q = v as int / c;
        lemma_div_denominator(v as int, c, 32);
        lemma_fundamental_div_mod(q, 32);
        let d = q % 32;
        lemma_crockford_digit_of_char(d);
        assert(t.take(n).drop_last() =~= t.take(n - 1));
        assert(t.take(n).last() == crockford_char(d));
    }
}

/// The text of a ULID value decodes back to the value.
pub proof fn lemma_ulid_text_decodes(v: u128)
    ensures
        ulid_decoding(ulid_text(v)) == Some(v),
{
    let t = ulid_text(v);
    lemma_ulid_text_prefix(v, 26);
    assert(t.take(26) =~= t);
    assert forall|i: int| 0 <= i < 26 implies (#[trigger] crockford_digit(t[i])) is Some by {
        let d = (v as int / pow(32, (25 - i) as nat)) % 32;
        lemma_crockford_digit_of_char(d);
    }
    vstd::arithmetic::power::lemma_pow0(32);
}

/// The text is not a ULID.
#[derive(Debug, Clone, Copy, PartialEq, Eq, Structural)]
pub struct IdParseError;

} // verus!
