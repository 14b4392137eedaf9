//! Resending the verification email, at most once a minute per address.
use vstd::prelude::*;
use crate::db::users::User;
use crate::encoding::{push_url_encoded, url_encoded};
use crate::features::auth::verify_email::{safe_or, safe_path};
use crate::features::validation::{check_email_field, email_field_ok};
use crate::text::{opt_string_view, push_str, str_eq, string_of};

verus! {

/// Resend form data.
#[derive(Debug, Clone)]
pub struct ResendVerificationForm {
    pub email: String,
    /// Optional path to go to after verifying (from the check-email page).
    pub next: Option<String>,
}

/// Resend verification page.
#[derive(Debug, Clone)]
pub struct ResendVerificationTemplate {
    pub app_name: &'static str,
    pub error: String,
    pub email: String,
    /// Safe next path for the hidden form field (empty when not set).
    pub next: String,
}

/// Query parameters of the resend page.
#[derive(Debug, Clone)]
pub struct ResendQuery {
    pub email: Option<String>,
    pub next: Option<String>,
}

/// The next path kept by the resend form: the requested one when it is safe, else empty.
pub fn safe_redirect_next(next: Option<String>) -> (r: String)
    ensures
        r@ == safe_or(opt_string_view(next), Seq::<char>::empty()),
{
    match next {
        Some(n) => {
            if safe_path(n.as_str()) {
                n
            } else {
                String::new()
            }
        },
        None => String::new(),
    }
}

impl ResendVerificationForm {
    /// Whether the email field is 1 to 254 characters and an email address.
    pub fn validate(&self) -> (b: bool)
        ensures
            b == email_field_ok(self.email@),
    {
        check_email_field(self.email.as_str())
    }
}

/// The resend page, optionally prefilled from the query.
pub fn resend_page(app_name: &'static str, query: ResendQuery) -> (t: ResendVerificationTemplate)
    ensures
        t.app_name == app_name,
        t.error@ == Seq::<char>::empty(),
        t.email@ == (match query.email {
            Some(e) => e@,
            None => Seq::<char>::empty(),
        }),
        t.next@ == safe_or(opt_string_view(query.next), Seq::<char>::empty()),
{
    let next = safe_redirect_next(query.next);
    let email = match query.email {
        Some(e) => e,
        None => String::new(),
    };
    ResendVerificationTemplate { app_name, error: String::new(), email, next }
}

/// The resend page showing an error, keeping what the user typed.
pub fn resend_error_page(app_name: &'static str, error: &str, email: &str, next: &str) -> (t:
    ResendVerificationTemplate)
    ensures
        t.app_name == app_name,
        t.error@ == error@,
        t.email@ == email@,
        t.next@ == next@,
{
    ResendVerificationTemplate {
        app_name,
        error: string_of(error),
        email: string_of(email),
        next: string_of(next),
    }
}

/// Nanoseconds that must pass between two verification emails to one address.
pub const RESEND_COOLDOWN_NANOS: u64 = 60_000_000_000;

/// Whether an email may be sent to `email` at time `now` (nanoseconds on a
/// monotonic clock), given when each address was last sent one: never, or
/// at least the cooldown ago. A last time after `now` counts as no time passed.
pub open spec fn cooldown_allows(sent: Map<Seq<char>, u64>, email: Seq<char>, now: u64) -> bool {
    !sent.contains_key(email) || (now >= sent[email] && now - sent[email] >= RESEND_COOLDOWN_NANOS)
}

/// The send times after a request: an allowed request records `now`.
pub open spec fn after_request(sent: Map<Seq<char>, u64>, email: Seq<char>, now: u64) -> Map<
    Seq<char>,
    u64,
> {
    if cooldown_allows(sent, email, now) {
        sent.insert(email, now)
    } else {
        sent
    }
}

/// When a verification email was last sent to each address.
pub struct ResendCooldown {
    entries: Vec<(String, u64)>,
    sent: Ghost<Map<Seq<char>, u64>>,
}

impl View for ResendCooldown {
    type V = Map<Seq<char>, u64>;

    closed spec fn view(&self) -> Map<Seq<char>, u64> {
        self.sent@
    }
}

impl ResendCooldown {
    /// Whether the entries hold each address once, with the times of the view.
    pub closed spec fn wf(self) -> bool {
        &&& forall|i: int, j: int|
            0 <= i < j < self.entries@.len() ==> (#[trigger] self.entries@[i]).0@ != (
            #[trigger] self.entries@[j]).0@
        &&& forall|i: int|
            0 <= i < self.entries@.len() ==> self.sent@.contains_key((#[trigger] self.entries@[i]).0@)
                && self.sent@[self.entries@[i].0@] == self.entries@[i].1
        &&& forall|k: Seq<char>|
            #[trigger] self.sent@.contains_key(k) ==> exists|i: int|
                0 <= i < self.entries@.len() && (#[trigger] self.entries@[i]).0@ == k
    }

    /// No address has been sent an email yet.
    pub fn new() -> (r: ResendCooldown)
        ensures
            r.wf(),
            r@ == Map::<Seq<char>, u64>::empty(),
    {
        ResendCooldown { entries: Vec::new(), sent: Ghost(Map::empty()) }
    }

    /// Decides whether a verification email may go to `email` at `now`
    /// (nanoseconds on a monotonic clock), and records `now` when it may.
    pub fn check_and_record(&mut self, email: &str, now: u64) -> (allowed: bool)
        requires
            old(self).wf(),
        ensures
            final(self).wf(),
            allowed == cooldown_allows(old(self)@, email@, now),
            final(self)@ == after_request(old(self)@, email@, now),
    {
        let mut i: usize = 0;
        while i < self.entries.len()
            invariant
                i <= self.entries@.len(),
                forall|j: int| 0 <= j < i ==> (#[trigger] self.entries@[j]).0@ != email@,
            ensures
                i <= self.entries@.len(),
                forall|j: int| 0 <= j < i ==> (#[trigger] self.entries@[j]).0@ != email@,
                i < self.entries@.len() ==> self.entries@[i as int].0@ == email@,
            decreases self.entries@.len() - i,
        {
            if str_eq(self.entries[i].0.as_str(), email) {
                break;
            }
            i = i + 1;
        }
        if i < self.entries.len() {
            let last = self.entries[i].1;
            proof {
                assert(self.entries@[i as int].0@ == email@);
                assert(self.sent@.contains_key(email@));
            }
            if now < last || now - last < RESEND_COOLDOWN_NANOS {
                return false;
            }
            let ghost old_entries = self.entries@;
            self.entries.set(i, (string_of(email), now));
            proof {
                self.sent@ = self.sent@.insert(email@, now);
                assert forall|k: Seq<char>| #[trigger] self.sent@.contains_key(k) implies exists|j: int|
                    0 <= j < self.entries@.len() && (#[trigger] self.entries@[j]).0@ == k by {
                    if k != email@ {
                        let j = choose|j: int| 0 <= j < old_entries.len() && (#[trigger] old_entries[j]).0@ == k;
                        assert(self.entries@[j].0@ == k);
                    } else {
                        assert(self.entries@[i as int].0@ == k);
                    }
                }
            }
            true
        } else {
            proof {
                if self.sent@.contains_key(email@) {
                    let j = choose|j: int| 0 <= j < self.entries@.len() && (#[trigger] self.entries@[j]).0@ == email@;
                    assert(false);
                }
            }
            let ghost old_entries = self.entries@;
            self.entries.push((string_of(email), now));
            proof {
                self.sent@ = self.sent@.insert(email@, now);
                assert forall|k: Seq<char>| #[trigger] self.sent@.contains_key(k) implies exists|j: int|
                    0 <= j < self.entries@.len() && (#[trigger] self.entries@[j]).0@ == k by {
                    if k != email@ {
                        let j = choose|j: int| 0 <= j < old_entries.len() && (#[trigger] old_entries[j]).0@ == k;
                        assert(self.entries@[j].0@ == k);
                    } else {
                        assert(self.entries@[old_entries.len() as int].0@ == k);
                    }
                }
            }
            true
        }
    }
}

/// After an email was allowed at `t1`, another to the same address is
/// refused until the cooldown has passed.
pub proof fn law_one_email_per_cooldown(sent: Map<Seq<char>, u64>, email: Seq<char>, t1: u64, t2: u64)
    requires
        cooldown_allows(sent, email, t1),
        t1 <= t2 < t1 + RESEND_COOLDOWN_NANOS,
    ensures
        !cooldown_allows(after_request(sent, email, t1), email, t2),
{
}

/// Once the cooldown has passed, an email to the same address is allowed again.
pub proof fn law_allowed_after_cooldown(sent: Map<Seq<char>, u64>, email: Seq<char>, t1: u64, t2: u64)
    requires
        t2 >= t1 + RESEND_COOLDOWN_NANOS,
    ensures
        cooldown_allows(sent.insert(email, t1), email, t2),
{
}

/// A request for one address does not change what another address may do.
pub proof fn law_cooldown_per_address(
    sent: Map<Seq<char>, u64>,
    e1: Seq<char>,
    e2: Seq<char>,
    t1: u64,
    t2: u64,
)
    requires
        e1 != e2,
    ensures
        cooldown_allows(after_request(sent, e1, t1), e2, t2) == cooldown_allows(sent, e2, t2),
{
}

/// The first request for an address is allowed.
pub proof fn law_first_request_allowed(sent: Map<Seq<char>, u64>, email: Seq<char>, now: u64)
    requires
        !sent.contains_key(email),
    ensures
        cooldown_allows(sent, email, now),
{
}

/// Whether the looked-up user still needs verifying: found, and not yet verified.
pub fn needs_verification(user: &Result<Option<User>, sqlx::Error>) -> (b: bool)
    ensures
        b == (user matches Ok(Some(u)) && u.email_verified_at is None),
{
    match user {
        Ok(Some(u)) => u.email_verified_at.is_none(),
        _ => false,
    }
}

/// Seconds a resent verification link stays valid: three days.
pub const RESEND_TOKEN_LIFETIME_SECS: i64 = 72 * 3600;

/// The subject of the verification email.
pub const VERIFICATION_EMAIL_SUBJECT: &'static str = "Verify your email";

/// The verification link of the email, carrying the next path when there is one.
pub open spec fn verify_link(app_url_base: Seq<char>, token: Seq<char>, next: Seq<char>) -> Seq<char> {
    if next.len() == 0 {
        app_url_base + "/verify-email?token="@ + token
    } else {
        app_url_base + "/verify-email?token="@ + token + "&next="@ + url_encoded(next)
    }
}

/// Builds the verification link.
pub fn build_verify_link(app_url_base: &str, token: &str, next: &str) -> (r: String)
    ensures
        r@ == verify_link(app_url_base@, token@, next@),
{
    let mut r = string_of(app_url_base);
    push_str(&mut r, "/verify-email?token=");
    push_str(&mut r, token);
    if !next.is_empty() {
        push_str(&mut r, "&next=");
        push_url_encoded(&mut r, next);
    }
    r
}

/// The body of the verification email.
pub fn verification_email_body(link: &str) -> (r: String)
    ensures
        r@ == "Click here to verify your account: "@ + link@,
{
    let mut r = string_of("Click here to verify your account: ");
    push_str(&mut r, link);
    r
}

/// The check-email page URL: the typed email, the `sent=1` flag when asked
/// for, and the next path when there is one.
pub open spec fn check_email_redirect(email: Seq<char>, sent: bool, next: Seq<char>) -> Seq<char> {
    "/check-email?email="@ + url_encoded(email) + (if sent {
        "&sent=1"@
    } else {
        Seq::<char>::empty()
    }) + (if next.len() == 0 {
        Seq::<char>::empty()
    } else {
        "&next="@ + url_encoded(next)
    })
}

/// Whether a verification email goes out: the cooldown allowed it, and the
/// address belongs to a user who still needs verifying.
pub fn should_send_verification(allowed: bool, user: &Result<Option<User>, sqlx::Error>) -> (b: bool)
    ensures
        b == (allowed && (user matches Ok(Some(u)) && u.email_verified_at is None)),
{
    allowed && needs_verification(user)
}

/// Where a valid resend request goes: the check-email page with the typed
/// email and the requested next path (kept only when safe), without the
/// `sent` flag. Neither the account nor the cooldown shows in the answer,
/// so it does not tell which addresses have an account.
pub fn resend_redirect(form: &ResendVerificationForm) -> (r: String)
    ensures
        r@ == check_email_redirect(
            form.email@,
            false,
            safe_or(opt_string_view(form.next), Seq::<char>::empty()),
        ),
{
    let next = safe_redirect_next(form.next.clone());
    build_check_email_redirect(form.email.as_str(), false, next.as_str())
}

/// Builds the check-email redirect.
pub fn build_check_email_redirect(email: &str, sent: bool, next: &str) -> (r: String)
    ensures
        r@ == check_email_redirect(email@, sent, next@),
{
    let mut r = string_of("/check-email?email=");
    push_url_encoded(&mut r, email);
    let ghost base = r@;
    if sent {
        push_str(&mut r, "&sent=1");
    } else {
        assert(r@ =~= base + Seq::<char>::empty());
    }
    let ghost mid = r@;
    if !next.is_empty() {
        push_str(&mut r, "&next=");
        push_url_encoded(&mut r, next);
        assert(r@ =~= mid + ("&next="@ + url_encoded(next@)));
    } else {
        assert(r@ =~= mid + Seq::<char>::empty());
    }
    r
}

} // verus!
