//! The answer for unmatched routes.
use vstd::prelude::*;
use crate::text::{chars_of, starts_with};

verus! {

/// 404 page ("Lost in Transit").
#[derive(Debug, Clone)]
pub struct NotFoundTemplate {
    pub app_name: &'static str,
    pub current_user_avatar_url: String,
}

/// Whether `t` occurs in `s`.
pub open spec fn contains_text(s: Seq<char>, t: Seq<char>) -> bool {
    exists|i: int| 0 <= i <= s.len() - t.len() && #[trigger] s.subrange(i, i + t.len()) == t
}

/// Whether `t` occurs in `s` (`str::contains`).
pub fn text_contains(s: &str, t: &str) -> (b: bool)
    ensures
        b == contains_text(s@, t@),
{
    let a = chars_of(s);
    let p = chars_of(t);
    if p.len() > a.len() {
        return false;
    }
    let mut i: usize = 0;
    while i <= a.len() - p.len()
        invariant
            p@.len() <= a@.len(),
            i <= a@.len() - p@.len() + 1,
            a@ == s@,
            p@ == t@,
            forall|k: int| 0 <= k < i ==> #[trigger] s@.subrange(k, k + t@.len()) != t@,
        decreases a@.len() - i,
    {
        let mut j: usize = 0;
        let mut same = true;
        while j < p.len() && same
            invariant
                j <= p@.len(),
                i + p@.len() <= a@.len(),
                i + p@.len() <= usize::MAX,
                a@ == s@,
                p@ == t@,
                forall|k: int| 0 <= k < j ==> a@[i + k] == p@[k],
                !same ==> j < p@.len() && a@[i + j] != p@[j as int],
            decreases p@.len() - j, if same { 1int } else { 0int },
        {
            if a[i + j] == p[j] {
                j = j + 1;
            } else {
                same = false;
            }
        }
        if j == p.len() {
            assert(s@.subrange(i as int, i + t@.len()) =~= t@);
            return true;
        }
        assert(s@.subrange(i as int, i + t@.len())[j as int] != t@[j as int]);
        i = i + 1;
    }
    false
}

/// Whether an unmatched request gets JSON: it accepts `application/json`, or
/// its path is under `/api/`. Other requests get the HTML page.
pub fn wants_json(accept: Option<&str>, path: &str) -> (b: bool)
    ensures
        b == ((accept matches Some(a) && contains_text(a@, "application/json"@)) || (path@.len() >= 5
            && path@.take(5) == "/api/"@)),
{
    let prefers_json = match accept {
        Some(a) => text_contains(a, "application/json"),
        None => false,
    };
    proof {
        reveal_strlit("/api/");
    }
    prefers_json || starts_with(path, "/api/")
}

} // verus!
