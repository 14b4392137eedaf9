//! Passwords and their Argon2 hashes.
use vstd::prelude::*;
use argon2::{PasswordHasher, PasswordVerifier};
use crate::text::{
    char_is_lowercase, char_is_numeric, char_is_uppercase, chars_of, has_lowercase_property,
    has_numeric_property, has_uppercase_property, is_ascii_char, is_ascii_digit, is_ascii_lower,
    is_ascii_seq, is_ascii_upper, lemma_encode_utf8_len, utf8_len, utf8_len_exceeds,
};

verus! {

/// Fewest bytes a new password may have.
pub const MIN_PASSWORD_LEN: usize = 8;

/// Most bytes a new password may have.
pub const MAX_PASSWORD_LEN: usize = 128;

pub open spec fn has_uppercase(s: Seq<char>) -> bool {
    exists|i: int| 0 <= i < s.len() && has_uppercase_property(#[trigger] s[i])
}

pub open spec fn has_lowercase(s: Seq<char>) -> bool {
    exists|i: int| 0 <= i < s.len() && has_lowercase_property(#[trigger] s[i])
}

pub open spec fn has_digit(s: Seq<char>) -> bool {
    exists|i: int| 0 <= i < s.len() && has_numeric_property(#[trigger] s[i])
}

/// Why a new password was refused.
#[derive(Debug, Clone, Copy, PartialEq, Eq, Structural)]
pub enum PasswordError {
    /// Fewer than 8 bytes.
    TooShort,
    /// More than 128 bytes.
    TooLong,
    /// Lacks an uppercase letter, a lowercase letter or a digit.
    Weak,
}

/// The human-readable message of a password error.
pub open spec fn password_error_message(e: PasswordError) -> Seq<char> {
    match e {
        PasswordError::TooShort => "Password must be at least 8 characters"@,
        PasswordError::TooLong => "Password must be at most 128 characters"@,
        PasswordError::Weak => "Password must contain uppercase, lowercase, and digit"@,
    }
}

impl PasswordError {
    /// Machine-readable error code.
    pub fn code(&self) -> (r: &'static str)
        ensures
            *self == PasswordError::TooShort ==> r@ == "password_too_short"@,
            *self == PasswordError::TooLong ==> r@ == "password_too_long"@,
            *self == PasswordError::Weak ==> r@ == "weak_password"@,
    {
        match self {
            PasswordError::TooShort => "password_too_short",
            PasswordError::TooLong => "password_too_long",
            PasswordError::Weak => "weak_password",
        }
    }

    /// Human-readable message.
    pub fn message(&self) -> (r: &'static str)
        ensures
            r@ == password_error_message(*self),
    {
        match self {
            PasswordError::TooShort => "Password must be at least 8 characters",
            PasswordError::TooLong => "Password must be at most 128 characters",
            PasswordError::Weak => "Password must contain uppercase, lowercase, and digit",
        }
    }
}

/// The strength rules for a new password.
pub open spec fn password_check(s: Seq<char>) -> Result<(), PasswordError> {
    if utf8_len(s) < MIN_PASSWORD_LEN {
        Err(PasswordError::TooShort)
    } else if utf8_len(s) > MAX_PASSWORD_LEN {
        Err(PasswordError::TooLong)
    } else if !(has_uppercase(s) && has_lowercase(s) && has_digit(s)) {
        Err(PasswordError::Weak)
    } else {
        Ok(())
    }
}

/// The strength rules as they read for an ASCII password: the letters and
/// digits that count are `A`..`Z`, `a`..`z` and `0`..`9`.
pub open spec fn ascii_password_check(s: Seq<char>) -> Result<(), PasswordError> {
    if utf8_len(s) < MIN_PASSWORD_LEN {
        Err(PasswordError::TooShort)
    } else if utf8_len(s) > MAX_PASSWORD_LEN {
        Err(PasswordError::TooLong)
    } else if !((exists|i: int| 0 <= i < s.len() && is_ascii_upper(#[trigger] s[i]))
        && (exists|i: int| 0 <= i < s.len() && is_ascii_lower(#[trigger] s[i]))
        && (exists|i: int| 0 <= i < s.len() && is_ascii_digit(#[trigger] s[i]))) {
        Err(PasswordError::Weak)
    } else {
        Ok(())
    }
}

/// A plaintext password.
#[derive(Debug, Clone)]
pub struct Password(String);

impl View for Password {
    type V = Seq<char>;

    closed spec fn view(&self) -> Seq<char> {
        self.0@
    }
}

impl Password {
    /// A password for checking against a stored hash (login): no strength rules.
    pub fn for_verification(plaintext: String) -> (r: Password)
        ensures
            r@ == plaintext@,
    {
        Password(plaintext)
    }

    /// A new password, checked against the strength rules.
    pub fn new(password: String) -> (res: Result<Password, PasswordError>)
        ensures
            password_check(password@) is Ok <==> res is Ok,
            res matches Ok(p) ==> p@ == password@,
            res matches Err(e) ==> password_check(password@) == Err::<(), PasswordError>(e),
            is_ascii_seq(password@) ==> password_check(password@) == ascii_password_check(password@),
    {
        let chars = chars_of(password.as_str());
        if !utf8_len_exceeds(&chars, MIN_PASSWORD_LEN - 1) {
            return Err(PasswordError::TooShort);
        }
        if utf8_len_exceeds(&chars, MAX_PASSWORD_LEN) {
            return Err(PasswordError::TooLong);
        }
        let mut upper = false;
        let mut lower = false;
        let mut digit = false;
        let mut i: usize = 0;
        while i < chars.len()
            invariant
                i <= chars@.len(),
                chars@ == password@,
                upper == exists|k: int| 0 <= k < i && has_uppercase_property(#[trigger] chars@[k]),
                lower == exists|k: int| 0 <= k < i && has_lowercase_property(#[trigger] chars@[k]),
                digit == exists|k: int| 0 <= k < i && has_numeric_property(#[trigger] chars@[k]),
                forall|k: int|
                    0 <= k < i && is_ascii_char(#[trigger] chars@[k]) ==> (has_uppercase_property(
                        chars@[k],
                    ) <==> is_ascii_upper(chars@[k])) && (has_lowercase_property(chars@[k])
                        <==> is_ascii_lower(chars@[k])) && (has_numeric_property(chars@[k])
                        <==> is_ascii_digit(chars@[k])),
            decreases chars@.len() - i,
        {
            let c = chars[i];
            if char_is_uppercase(c) {
                upper = true;
            }
            if char_is_lowercase(c) {
                lower = true;
            }
            if char_is_numeric(c) {
                digit = true;
            }
            i = i + 1;
        }
        if !(upper && lower && digit) {
            return Err(PasswordError::Weak);
        }
        Ok(Password(password))
    }

    /// The password's UTF-8 bytes, for hashing.
    pub fn as_bytes(&self) -> (r: &[u8])
        ensures
            r@ == vstd::utf8::encode_utf8(self@),
    {
        self.0.as_str().as_bytes()
    }
}

/// Argon2 outcomes, named after the `argon2` calls that produce them.
/// `argon2_phc_string(password, salt)` is the PHC string that Argon2id with
/// default parameters makes of `password` and the base64 `salt`.
pub uninterp spec fn argon2_phc_string(password: Seq<u8>, salt: Seq<char>) -> Seq<char>;

/// Whether `PasswordHash::new(hash)` parses and `Argon2::default().verify_password(password, ..)` succeeds.
pub uninterp spec fn argon2_accepts(hash: Seq<char>, password: Seq<u8>) -> bool;

/// The error type of the `password-hash` crate (re-exported by `argon2`),
/// carried through as an opaque value.
#[verifier::external_type_specification]
#[verifier::external_body]
pub struct ExPasswordHashError(argon2::password_hash::Error);

/// What `SaltString::from_b64` followed by `decode_b64` (into a 64-byte
/// buffer) gives for a salt text: its bytes, or `None` when either fails.
pub uninterp spec fn salt_decoding(salt: Seq<char>) -> Option<Seq<u8>>;

/// Calls `SaltString::generate` with the OS random number generator and
/// returns the salt's base64 text. The bytes are random; what is stated is
/// the salt's form: `generate` B64-encodes 16 random bytes
/// (`Salt::RECOMMENDED_LENGTH`), a 22-character text that `from_b64` accepts
/// and that decodes back to those 16 bytes.
#[verifier::external_body]
fn generate_salt() -> (res: String)
    ensures
        salt_decoding(res@) is Some,
        salt_decoding(res@)->Some_0.len() == 16,
{
    argon2::password_hash::SaltString::generate(&mut rand_core::OsRng).as_str().to_string()
}

/// Whether a hash is an Argon2id PHC string: it begins with `$argon2id$`.
pub open spec fn is_argon2id_phc(h: Seq<char>) -> bool {
    h.len() >= 10 && h.take(10) == "$argon2id$"@
}

/// Calls `Argon2::default().hash_password` with the salt parsed by
/// `SaltString::from_b64`. Claims: a successful result is the PHC string named
/// `argon2_phc_string` of the password and salt, and `verify_password` accepts
/// it for the same password (that is how the PHC string is verified: it carries
/// the algorithm, parameters and salt that `verify_password` re-hashes with).
/// `Argon2::default()` uses `Algorithm::Argon2id`, whose identifier `argon2id`
/// the PHC string's display writes first, between `$` signs. Hashing with the
/// default parameters fails only when the salt does not parse or decode,
/// decodes to fewer than 8 bytes (`MIN_SALT_LEN`), or the password is longer
/// than `u32::MAX` bytes (`MAX_PWD_LEN`); otherwise it succeeds.
#[verifier::external_body]
fn argon2_hash(password: &[u8], salt: &str) -> (res: Result<String, argon2::password_hash::Error>)
    ensures
        res matches Ok(h) ==> h@ == argon2_phc_string(password@, salt@) && argon2_accepts(h@, password@)
            && is_argon2id_phc(h@),
        (salt_decoding(salt@) matches Some(b) && b.len() >= 8) && password@.len() <= u32::MAX
            ==> res is Ok,
{
    let salt = argon2::password_hash::SaltString::from_b64(salt)?;
    argon2::Argon2::default().hash_password(password, &salt).map(|h| h.to_string())
}

/// Calls `PasswordHash::new` on `hash` and then `Argon2::default().verify_password`.
/// Claims only that the outcome is a function of the two arguments, named `argon2_accepts`.
#[verifier::external_body]
fn argon2_verify(hash: &str, password: &[u8]) -> (res: Result<(), argon2::password_hash::Error>)
    ensures
        res is Ok <==> argon2_accepts(hash@, password@),
{
    let parsed = argon2::password_hash::PasswordHash::new(hash)?;
    argon2::Argon2::default().verify_password(password, &parsed)
}

/// Hashing or verification failed.
#[derive(Debug, Clone, Copy, PartialEq, Eq, Structural)]
pub struct HashError;

/// Whether the stored hash `hash` matches the plaintext `password`.
pub open spec fn hash_matches(hash: Seq<char>, password: Seq<char>) -> bool {
    argon2_accepts(hash, vstd::utf8::encode_utf8(password))
}

/// An Argon2 hash, stored as its PHC string.
#[derive(Debug, Clone)]
pub struct HashedPassword(String);

impl View for HashedPassword {
    type V = Seq<char>;

    closed spec fn view(&self) -> Seq<char> {
        self.0@
    }
}

impl HashedPassword {
    /// Hashes a password with Argon2id and a random salt. A hash that comes
    /// back always verifies against the same password, and hashing succeeds
    /// for every password of at most `u32::MAX` bytes.
    pub fn from_password(password: &Password) -> (res: Result<HashedPassword, HashError>)
        ensures
            res matches Ok(h) ==> hash_matches(h@, password@) && is_argon2id_phc(h@),
            utf8_len(password@) <= u32::MAX ==> res is Ok,
    {
        proof {
            lemma_encode_utf8_len(password@);
        }
        let salt = generate_salt();
        match argon2_hash(password.as_bytes(), salt.as_str()) {
            Ok(h) => Ok(HashedPassword(h)),
            Err(_) => Err(HashError),
        }
    }

    /// Verifies a password against this hash.
    pub fn verify(&self, password: &Password) -> (res: Result<(), HashError>)
        ensures
            res is Ok <==> hash_matches(self@, password@),
    {
        match argon2_verify(self.0.as_str(), password.as_bytes()) {
            Ok(()) => Ok(()),
            Err(_) => Err(HashError),
        }
    }

    /// A hash read back from storage.
    pub fn from_string(s: String) -> (r: HashedPassword)
        ensures
            r@ == s@,
    {
        HashedPassword(s)
    }

    /// The hash as a string, for storage.
    pub fn as_str(&self) -> (r: &str)
        ensures
            r@ == self@,
    {
        self.0.as_str()
    }
}

} // verus!
