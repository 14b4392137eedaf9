//! Profile image URLs: trimmed, HTTPS, at most 2048 bytes, image extension.
use vstd::prelude::*;
use crate::domain::validation_helpers::{
    check_https_scheme, check_image_extension, is_allowed_image_extension, is_https,
    url_extension,
};
use crate::text::{chars_of, lemma_trim_idempotent, lowercase_of, trim, trim_seq, utf8_len, utf8_len_exceeds};

verus! {

/// Longest URL accepted, in bytes.
pub const MAX_URL_LEN: usize = 2048;

/// Whether a trimmed URL has an image extension.
pub open spec fn has_image_extension(t: Seq<char>) -> bool {
    url_extension(t).len() > 0 && is_allowed_image_extension(lowercase_of(url_extension(t)))
}

/// The first rule that a trimmed URL breaks, as its error message; `None` when it is valid.
pub open spec fn image_url_error(t: Seq<char>) -> Option<Seq<char>> {
    if t.len() == 0 {
        Some("Profile image URL cannot be empty."@)
    } else if !is_https(t) {
        Some("URL must use HTTPS."@)
    } else if utf8_len(t) > MAX_URL_LEN {
        Some("Profile image URL is too long."@)
    } else if !has_image_extension(t) {
        Some("URL must point to an image."@)
    } else {
        None
    }
}

/// Profile image URL domain type. Once constructed it is trimmed, HTTPS, at
/// most 2048 bytes and ends in an image extension.
#[derive(Debug)]
pub struct ProfileImageUrl(String);

impl View for ProfileImageUrl {
    type V = Seq<char>;

    closed spec fn view(&self) -> Seq<char> {
        self.0@
    }
}

impl Clone for ProfileImageUrl {
    fn clone(&self) -> (r: Self)
        ensures
            r@ == self@,
    {
        proof {
            use_type_invariant(self);
        }
        ProfileImageUrl(self.0.clone())
    }
}

impl ProfileImageUrl {
    #[verifier::type_invariant]
    closed spec fn inv(self) -> bool {
        image_url_error(self.0@) is None && trim_seq(self.0@) == self.0@
    }

    /// Creates a URL from raw input, trimming white space and checking the rules.
    pub fn new(url: &str) -> (res: Result<ProfileImageUrl, &'static str>)
        ensures
            res is Ok <==> image_url_error(trim_seq(url@)) is None,
            res matches Ok(u) ==> u@ == trim_seq(url@),
            res matches Err(e) ==> image_url_error(trim_seq(url@)) == Some(e@),
    {
        let t = trim(url);
        proof {
            lemma_trim_idempotent(url@);
        }
        if t.as_str().is_empty() {
            return Err("Profile image URL cannot be empty.");
        }
        match check_https_scheme(t.as_str()) {
            Ok(()) => {},
            Err(e) => return Err(e),
        }
        match ProfileImageUrl::check_length(t.as_str()) {
            Ok(()) => {},
            Err(e) => return Err(e),
        }
        match check_image_extension(t.as_str()) {
            Ok(()) => {},
            Err(e) => return Err(e),
        }
        Ok(ProfileImageUrl(t))
    }

    /// Checks that a URL takes at most 2048 bytes.
    pub fn check_length(t: &str) -> (res: Result<(), &'static str>)
        ensures
            res is Ok <==> utf8_len(t@) <= MAX_URL_LEN,
            res matches Err(e) ==> e@ == "Profile image URL is too long."@,
    {
        let chars = chars_of(t);
        if utf8_len_exceeds(&chars, MAX_URL_LEN) {
            Err("Profile image URL is too long.")
        } else {
            Ok(())
        }
    }

    /// The URL as a string slice.
    pub fn as_str(&self) -> (r: &str)
        ensures
            r@ == self@,
            image_url_error(r@) is None,
            trim_seq(r@) == r@,
    {
        proof {
            use_type_invariant(self);
        }
        self.0.as_str()
    }
}

} // verus!
