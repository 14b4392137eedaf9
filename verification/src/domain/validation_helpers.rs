//! Checks shared by the URL-holding domain types.
use vstd::prelude::*;
use crate::text::{
    after_last, before_first, chars_of, contains_between, find_first, lemma_first_occurrence,
    lemma_last_occurrence, lemma_no_occurrence, lowercase_of, starts_with, str_eq,
    string_of_chars, to_lowercase,
};

verus! {

/// The image extensions accepted, in lowercase.
pub open spec fn is_allowed_image_extension(ext: Seq<char>) -> bool {
    ||| ext == "jpg"@
    ||| ext == "jpeg"@
    ||| ext == "png"@
    ||| ext == "gif"@
    ||| ext == "webp"@
}

/// Whether `ext` (already lowercased) is one of the allowed image extensions.
pub fn allowed_image_extension(ext: &str) -> (b: bool)
    ensures
        b == is_allowed_image_extension(ext@),
{
    str_eq(ext, "jpg") || str_eq(ext, "jpeg") || str_eq(ext, "png") || str_eq(ext, "gif")
        || str_eq(ext, "webp")
}

/// The extension of a URL: the text after the last `.` of the last path
/// segment, once the query (`?..`) and fragment (`#..`) are cut off; empty
/// when that segment has no `.`.
pub open spec fn url_extension(t: Seq<char>) -> Seq<char> {
    let path = before_first(before_first(t, '?'), '#');
    let filename = after_last(path, '/');
    if filename.contains('.') {
        after_last(filename, '.')
    } else {
        Seq::empty()
    }
}

/// Whether `t` begins with `https://`.
pub open spec fn is_https(t: Seq<char>) -> bool {
    t.len() >= 8 && t.take(8) == "https://"@
}

/// Checks that a trimmed, non-empty URL uses the HTTPS scheme.
pub fn check_https_scheme(t: &str) -> (res: Result<(), &'static str>)
    ensures
        res is Ok <==> is_https(t@),
        res matches Err(e) ==> e@ == "URL must use HTTPS."@,
{
    proof {
        reveal_strlit("https://");
    }
    if starts_with(t, "https://") {
        Ok(())
    } else {
        Err("URL must use HTTPS.")
    }
}

/// Index where the text before the first `c` ends.
fn cut_at(chars: &Vec<char>, c: char) -> (r: usize)
    ensures
        r <= chars@.len(),
        chars@.take(r as int) == before_first(chars@, c),
{
    let r = find_first(chars, 0, c);
    proof {
        if r < chars@.len() {
            lemma_first_occurrence(chars@, c, r as int);
        } else {
            lemma_no_occurrence(chars@, c);
            assert(chars@.take(r as int) =~= chars@);
        }
    }
    r
}

/// Index where the text after the last `c` in `chars[..end]` starts.
fn start_after_last(chars: &Vec<char>, end: usize, c: char) -> (r: usize)
    requires
        end <= chars@.len(),
    ensures
        r <= end,
        chars@.subrange(r as int, end as int) == after_last(chars@.take(end as int), c),
{
    let ghost s = chars@.take(end as int);
    let mut j = end;
    while j > 0
        invariant
            j <= end <= chars@.len(),
            s == chars@.take(end as int),
            forall|k: int| j <= k < end ==> chars@[k] != c,
        decreases j,
    {
        if chars[j - 1] == c {
            proof {
                lemma_last_occurrence(s, c, j - 1);
                assert(s.skip(j as int) =~= chars@.subrange(j as int, end as int));
            }
            return j;
        }
        j = j - 1;
    }
    proof {
        lemma_no_occurrence(s, c);
        assert(s =~= chars@.subrange(0, end as int));
    }
    0
}

/// Checks that a trimmed, non-empty URL points to a common image extension.
pub fn check_image_extension(t: &str) -> (res: Result<(), &'static str>)
    ensures
        res is Ok <==> (url_extension(t@).len() > 0 && is_allowed_image_extension(
            lowercase_of(url_extension(t@)),
        )),
        res matches Err(e) ==> e@ == "URL must point to an image."@,
{
    let chars = chars_of(t);
    let q = cut_at(&chars, '?');
    let ghost before_q = chars@.take(q as int);
    let h = find_first(&chars, 0, '#');
    let path_end = if h < q { h } else { q };
    proof {
        if h < q {
            assert(before_q[h as int] == '#');
            assert forall|k: int| 0 <= k < h implies before_q[k] != '#' by {}
            lemma_first_occurrence(before_q, '#', h as int);
            assert(before_q.take(h as int) =~= chars@.take(h as int));
        } else {
            assert forall|k: int| 0 <= k < before_q.len() implies before_q[k] != '#' by {}
            lemma_no_occurrence(before_q, '#');
        }
    }
    let slash = start_after_last(&chars, path_end, '/');
    let ghost filename = chars@.subrange(slash as int, path_end as int);
    let file_chars = {
        let f = string_of_chars(&chars, slash, path_end);
        chars_of(f.as_str())
    };
    let dot = start_after_last(&file_chars, file_chars.len(), '.');
    proof {
        assert(file_chars@.take(file_chars@.len() as int) =~= filename);
    }
    let has_dot = contains_between(&file_chars, 0, file_chars.len(), '.');
    assert(file_chars@.subrange(0, file_chars@.len() as int) =~= filename);
    let ext = if has_dot {
        string_of_chars(&file_chars, dot, file_chars.len())
    } else {
        String::new()
    };
    let lower = to_lowercase(ext.as_str());
    if ext.as_str().is_empty() || !allowed_image_extension(lower.as_str()) {
        Err("URL must point to an image.")
    } else {
        Ok(())
    }
}

} // verus!
