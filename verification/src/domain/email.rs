//! Email addresses: trimmed, lowercased and checked for a basic `local@domain.tld` shape.
use vstd::prelude::*;
use crate::text::{
    after_first, before_first, chars_of, contains_between, find_first, utf8_len_exceeds, lemma_first_occurrence,
    lemma_no_occurrence, lowercase_of, to_lowercase, trim, trim_seq, utf8_len, ascii_lower_seq,
    is_ascii_seq, lemma_no_ascii_upper_is_ascii_lower, lemma_trim_idempotent, no_ascii_upper,
};

verus! {

/// Longest email accepted, in bytes (RFC 5321).
pub const MAX_EMAIL_LEN: usize = 254;

/// The part after the first `@` up to the next `@`, or `None` when there is no `@`.
pub open spec fn email_domain_part(s: Seq<char>) -> Option<Seq<char>> {
    match after_first(s, '@') {
        Some(rest) => Some(before_first(rest, '@')),
        None => None,
    }
}

/// The basic shape check: an `@` whose domain part contains a `.`.
pub open spec fn email_shape_ok(s: Seq<char>) -> bool {
    match email_domain_part(s) {
        Some(domain) => domain.contains('.'),
        None => false,
    }
}

/// What every stored email satisfies.
pub open spec fn email_valid(s: Seq<char>) -> bool {
    utf8_len(s) <= MAX_EMAIL_LEN && email_shape_ok(s)
}

/// The normalized form that `Email::new` checks and stores.
pub open spec fn normalize_email(raw: Seq<char>) -> Seq<char> {
    lowercase_of(trim_seq(raw))
}

/// Why an email was refused.
#[derive(Debug, Clone, Copy, PartialEq, Eq, Structural)]
pub enum EmailError {
    /// More than 254 bytes after normalization.
    TooLong,
    /// No `@`, or no `.` in the domain part.
    Invalid,
}

impl EmailError {
    /// Machine-readable error code.
    pub fn code(&self) -> (r: &'static str)
        ensures
            *self == EmailError::TooLong ==> r@ == "email_too_long"@,
            *self == EmailError::Invalid ==> r@ == "invalid_email"@,
    {
        match self {
            EmailError::TooLong => "email_too_long",
            EmailError::Invalid => "invalid_email",
        }
    }

    /// Human-readable message.
    pub fn message(&self) -> (r: &'static str)
        ensures
            *self == EmailError::TooLong ==> r@ == "Email address is too long"@,
            *self == EmailError::Invalid ==> r@ == "Invalid email address format"@,
    {
        match self {
            EmailError::TooLong => "Email address is too long",
            EmailError::Invalid => "Invalid email address format",
        }
    }
}

/// The outcome of checking an already normalized email.
pub open spec fn email_check(s: Seq<char>) -> Result<Seq<char>, EmailError> {
    if utf8_len(s) > MAX_EMAIL_LEN {
        Err(EmailError::TooLong)
    } else if email_shape_ok(s) {
        Ok(s)
    } else {
        Err(EmailError::Invalid)
    }
}

/// Email domain type. Once constructed it is valid, trimmed and lowercase
/// (what `str::to_lowercase` gives, so it holds no `A`..`Z`).
#[derive(Debug)]
pub struct Email(String);

impl Clone for Email {
    fn clone(&self) -> (r: Self)
        ensures
            r@ == self@,
    {
        proof {
            use_type_invariant(self);
        }
        Email(self.0.clone())
    }
}

impl View for Email {
    type V = Seq<char>;

    closed spec fn view(&self) -> Seq<char> {
        self.0@
    }
}

impl Email {
    #[verifier::type_invariant]
    closed spec fn inv(self) -> bool {
        email_valid(self.0@) && trim_seq(self.0@) == self.0@ && no_ascii_upper(self.0@)
    }

    /// Creates an email from raw input: trims white space, lowercases, then
    /// checks length and shape.
    pub fn new(email: String) -> (res: Result<Email, EmailError>)
        ensures
            res matches Ok(e) ==> email_check(normalize_email(email@)) == Ok::<Seq<char>, EmailError>(e@),
            res matches Err(err) ==> email_check(normalize_email(email@)) == Err::<Seq<char>, EmailError>(err),
            is_ascii_seq(trim_seq(email@)) ==> normalize_email(email@) == ascii_lower_seq(trim_seq(email@)),
    {
        let trimmed = trim(email.as_str());
        proof {
            lemma_trim_idempotent(email@);
        }
        let normalized = to_lowercase(trimmed.as_str());
        Email::from_normalized(normalized)
    }

    /// Checks an already trimmed and lowercased email (the second half of `new`).
    fn from_normalized(normalized: String) -> (res: Result<Email, EmailError>)
        requires
            trim_seq(normalized@) == normalized@,
            no_ascii_upper(normalized@),
        ensures
            res matches Ok(e) ==> email_check(normalized@) == Ok::<Seq<char>, EmailError>(e@),
            res matches Err(err) ==> email_check(normalized@) == Err::<Seq<char>, EmailError>(err),
    {
        let chars = chars_of(normalized.as_str());
        if utf8_len_exceeds(&chars, MAX_EMAIL_LEN) {
            return Err(EmailError::TooLong);
        }
        if shape_ok(normalized.as_str()) {
            Ok(Email(normalized))
        } else {
            Err(EmailError::Invalid)
        }
    }

    /// The email as a string slice.
    pub fn as_str(&self) -> (r: &str)
        ensures
            r@ == self@,
            email_valid(r@),
            trim_seq(r@) == r@,
            no_ascii_upper(r@),
    {
        proof {
            use_type_invariant(self);
        }
        self.0.as_str()
    }
}

/// Normalizing the stored text of an email again gives it back unchanged
/// when that text is ASCII: it is trimmed and holds no `A`..`Z`, so trimming
/// and (ASCII) lowercasing leave it as it is. `Email::new` states that its
/// normal form of an ASCII text is exactly this trimming and lowercasing.
pub proof fn law_ascii_email_normalization_idempotent(s: Seq<char>)
    requires
        trim_seq(s) == s,
        no_ascii_upper(s),
        is_ascii_seq(s),
    ensures
        is_ascii_seq(trim_seq(s)),
        ascii_lower_seq(trim_seq(s)) == s,
{
    lemma_no_ascii_upper_is_ascii_lower(s);
}

/// Whether `s` has an `@` whose domain part contains a `.`.
pub fn shape_ok(s: &str) -> (b: bool)
    ensures
        b == email_shape_ok(s@),
{
    let chars = chars_of(s);
    let n = chars.len();
    let at = find_first(&chars, 0, '@');
    if at == n {
        proof {
            lemma_no_occurrence(s@, '@');
        }
        return false;
    }
    proof {
        lemma_first_occurrence(s@, '@', at as int);
    }
    let end = find_first(&chars, at + 1, '@');
    let rest = Ghost(s@.skip(at + 1));
    proof {
        if end < n {
            assert(rest@[end - at - 1] == '@');
            lemma_first_occurrence(rest@, '@', end - at - 1);
        } else {
            lemma_no_occurrence(rest@, '@');
        }
        assert(before_first(rest@, '@') =~= chars@.subrange(at + 1, end as int));
    }
    contains_between(&chars, at + 1, end, '.')
}

} // verus!
