//! Percent-encoding, hex tokens and decimal numbers for URLs and messages.
use vstd::prelude::*;
use rand_core::RngCore;
use crate::text::push_char;

verus! {

/// Bytes that `urlencoding::encode` leaves as they are: ASCII letters and
/// digits and `-`, `.`, `_`, `~`.
pub open spec fn is_unreserved_byte(b: u8) -> bool {
    ||| 0x30 <= b <= 0x39
    ||| 0x41 <= b <= 0x5A
    ||| 0x61 <= b <= 0x7A
    ||| b == 0x2D
    ||| b == 0x2E
    ||| b == 0x5F
    ||| b == 0x7E
}

/// The uppercase hex digit of `n` (below 16).
pub open spec fn hex_digit_upper(n: int) -> char {
    if n < 10 {
        (('0' as int) + n) as char
    } else {
        (('A' as int) + n - 10) as char
    }
}

/// The lowercase hex digit of `n` (below 16).
pub open spec fn hex_digit_lower(n: int) -> char {
    if n < 10 {
        (('0' as int) + n) as char
    } else {
        (('a' as int) + n - 10) as char
    }
}

/// What one byte becomes in a percent-encoded string.
pub open spec fn percent_encode_byte(b: u8) -> Seq<char> {
    if is_unreserved_byte(b) {
        seq![(b as int) as char]
    } else {
        seq!['%', hex_digit_upper(b as int / 16), hex_digit_upper(b as int % 16)]
    }
}

/// Percent-encoding of a byte string, byte by byte.
pub open spec fn percent_encode_bytes(bs: Seq<u8>) -> Seq<char>
    decreases bs.len(),
{
    if bs.len() == 0 {
        Seq::empty()
    } else {
        percent_encode_bytes(bs.drop_last()) + percent_encode_byte(bs.last())
    }
}

/// Percent-encoding of the UTF-8 bytes of a text.
pub open spec fn url_encoded(s: Seq<char>) -> Seq<char> {
    percent_encode_bytes(vstd::utf8::encode_utf8(s))
}

/// Lowercase hex of a byte string, two digits per byte, high nibble first.
pub open spec fn hex_lower(bs: Seq<u8>) -> Seq<char>
    decreases bs.len(),
{
    if bs.len() == 0 {
        Seq::empty()
    } else {
        hex_lower(bs.drop_last()) + seq![
            hex_digit_lower(bs.last() as int / 16),
            hex_digit_lower(bs.last() as int % 16),
        ]
    }
}

/// Calls `urlencoding::encode`, which percent-encodes every UTF-8 byte of
/// `s` except ASCII letters, digits and `-`, `.`, `_`, `~`, writing `%`
/// and two uppercase hex digits for the others.
#[verifier::external_body]
pub fn url_encode(s: &str) -> (res: String)
    ensures
        res@ == url_encoded(s@),
{
    urlencoding::encode(s).into_owned()
}

/// Appends the percent-encoding of `t` to `s`.
pub fn push_url_encoded(s: &mut String, t: &str)
    ensures
        final(s)@ == old(s)@ + url_encoded(t@),
{
    let e = url_encode(t);
    crate::text::push_str(s, e.as_str());
}

/// Calls `hex::encode`: two lowercase hex digits per byte, high nibble first.
#[verifier::external_body]
fn hex_encode(bytes: &[u8]) -> (res: String)
    ensures
        res@ == hex_lower(bytes@),
{
    hex::encode(bytes)
}

/// Calls `OsRng.fill_bytes` on a 32-byte buffer. The bytes are random, so
/// only their number is stated; `fill_bytes` panics if the operating
/// system's generator fails, which no argument can rule out.
#[verifier::external_body]
fn random_bytes_32() -> (res: Vec<u8>)
    ensures
        res@.len() == 32,
{
    let mut bytes = [0u8; 32];
    rand_core::OsRng.fill_bytes(&mut bytes);
    bytes.to_vec()
}

/// A high-entropy token: 32 random bytes written as 64 lowercase hex digits.
pub fn generate_token() -> (r: String)
    ensures
        exists|bs: Seq<u8>| bs.len() == 32 && r@ == hex_lower(bs),
{
    let bytes = random_bytes_32();
    hex_encode(bytes.as_slice())
}

/// Decimal digits of `n`, most significant first, with no leading zeros.
pub open spec fn decimal_digits(n: nat) -> Seq<char>
    decreases n,
{
    if n < 10 {
        seq![(('0' as int) + n) as char]
    } else {
        decimal_digits(n / 10).push((('0' as int) + (n % 10)) as char)
    }
}

/// Appends the decimal digits of `n` to `s`.
pub fn push_decimal(s: &mut String, n: u64)
    ensures
        final(s)@ == old(s)@ + decimal_digits(n as nat),
    decreases n,
{
    if n >= 10 {
        push_decimal(s, n / 10);
    }
    let d: u8 = (n % 10) as u8;
    let c: char = (0x30u8 + d) as char;
    proof {
        assert(c == (('0' as int) + (n % 10)) as char);
    }
    push_char(s, c);
}

} // verus!
