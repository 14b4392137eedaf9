//! Email verification: the check-email page and the verification link.
use vstd::prelude::*;
use crate::db::users::User;
use crate::domain::ulid::ulid_decoding;
use crate::domain::{OrganizationId, UserId};
use crate::encoding::{push_url_encoded, url_encoded};
use crate::error::{AppError, ErrorView};
use crate::text::{opt_string_view, starts_with, str_eq, string_of};

verus! {

/// The characters of an optional string reference.
pub open spec fn opt_ref_view(o: Option<&String>) -> Option<Seq<char>> {
    match o {
        Some(s) => Some(s@),
        None => None,
    }
}

} // verus!

verus! {

/// Query of the verification link.
#[derive(Debug, Clone)]
pub struct VerifyQuery {
    pub token: String,
    /// Optional path to go to after verifying (such as an invite confirmation).
    pub next: Option<String>,
}

/// The page shown when a verification link fails.
#[derive(Debug, Clone)]
pub struct VerifyEmailTemplate {
    pub app_name: &'static str,
    pub error: String,
}

/// The page shown after signup: check your inbox.
#[derive(Debug, Clone)]
pub struct CheckEmailTemplate {
    pub app_name: &'static str,
    pub email: String,
    pub sent: bool,
    /// Safe next path for the resend form (empty when not set).
    pub next: String,
    /// Login link: "/login" or "/login?next=..." with the next path encoded.
    pub login_url: String,
}

/// Whether a path is safe to redirect to: relative to this site (it starts
/// with `/` but not with `//`, which would name another host).
pub open spec fn is_safe_path(p: Seq<char>) -> bool {
    p.len() >= 1 && p[0] == '/' && !(p.len() >= 2 && p[1] == '/')
}

/// The requested path when it is safe, else `default`.
pub open spec fn safe_or(next: Option<Seq<char>>, default: Seq<char>) -> Seq<char> {
    match next {
        Some(n) => if is_safe_path(n) {
            n
        } else {
            default
        },
        None => default,
    }
}

/// Whether a path is safe to redirect to.
pub fn safe_path(p: &str) -> (b: bool)
    ensures
        b == is_safe_path(p@),
{
    let b = starts_with(p, "/") && !starts_with(p, "//");
    proof {
        reveal_strlit("/");
        reveal_strlit("//");
        assert("/"@.len() == 1 && "/"@[0] == '/');
        assert("//"@.len() == 2 && "//"@[0] == '/' && "//"@[1] == '/');
        if p@.len() >= 1 {
            if p@[0] == '/' {
                assert(p@.take(1) =~= "/"@);
            } else {
                assert(p@.take(1)[0] != "/"@[0]);
            }
        }
        if p@.len() >= 2 {
            if p@[0] == '/' && p@[1] == '/' {
                assert(p@.take(2) =~= "//"@);
            } else if p@[0] != '/' {
                assert(p@.take(2)[0] != "//"@[0]);
            } else {
                assert(p@.take(2)[1] != "//"@[1]);
            }
        }
    }
    b
}

/// Where to go after verifying: the requested path when it is safe, else "/app".
pub fn safe_redirect_next(next: Option<String>) -> (r: String)
    ensures
        r@ == safe_or(opt_string_view(next), "/app"@),
{
    match next {
        Some(n) => {
            if safe_path(n.as_str()) {
                n
            } else {
                string_of("/app")
            }
        },
        None => string_of("/app"),
    }
}

/// The next path kept on the check-email page: the requested one when it is safe, else empty.
pub fn safe_next(next: Option<&String>) -> (r: String)
    ensures
        r@ == safe_or(opt_ref_view(next), Seq::<char>::empty()),
{
    match next {
        Some(n) => {
            if safe_path(n.as_str()) {
                n.clone()
            } else {
                String::new()
            }
        },
        None => String::new(),
    }
}

/// Whatever was requested, the path redirected to after verification is
/// one of this site's own.
pub proof fn law_redirect_stays_on_site(next: Option<Seq<char>>)
    ensures
        is_safe_path(safe_or(next, "/app"@)),
{
    reveal_strlit("/app");
    assert("/app"@[0] == '/' && "/app"@[1] == 'a');
}

/// The login link of the check-email page.
pub open spec fn check_email_login_url(next: Seq<char>) -> Seq<char> {
    if next.len() == 0 {
        "/login"@
    } else {
        "/login?next="@ + url_encoded(next)
    }
}

/// The check-email page from its query parameters `email`, `sent` and `next`.
pub fn check_email_page(
    app_name: &'static str,
    email: Option<&String>,
    sent: Option<&String>,
    next: Option<&String>,
) -> (t: CheckEmailTemplate)
    ensures
        t.app_name == app_name,
        t.email@ == (match email {
            Some(e) => e@,
            None => "your email"@,
        }),
        t.sent == (sent matches Some(s) && s@ == "1"@),
        t.next@ == safe_or(opt_ref_view(next), Seq::<char>::empty()),
        t.login_url@ == check_email_login_url(t.next@),
{
    let email = match email {
        Some(e) => e.clone(),
        None => string_of("your email"),
    };
    let sent = match sent {
        Some(s) => str_eq(s.as_str(), "1"),
        None => false,
    };
    let next = safe_next(next);
    let login_url = if next.as_str().is_empty() {
        string_of("/login")
    } else {
        let mut u = string_of("/login?next=");
        push_url_encoded(&mut u, next.as_str());
        u
    };
    CheckEmailTemplate { app_name, email, sent, next, login_url }
}

/// Error of the verification route; shown as a page rather than JSON.
#[derive(Debug)]
pub enum VerifyError {
    BadRequest(String),
    Database,
}

impl VerifyError {
    /// The verification error for an application error: an authentication
    /// message is shown as it is; anything else is a database error.
    pub fn from(e: AppError) -> (r: VerifyError)
        ensures
            e@ matches ErrorView::Auth(m) ==> (r matches VerifyError::BadRequest(x) && x@ == m),
            !(e@ is Auth) ==> r is Database,
    {
        match e {
            AppError::Auth(msg) => VerifyError::BadRequest(msg),
            _ => VerifyError::Database,
        }
    }

    /// The message the error page shows.
    pub fn message(self) -> (r: String)
        ensures
            self matches VerifyError::BadRequest(m) ==> r@ == m@,
            self is Database ==> r@ == "An error occurred. Please try again."@,
    {
        match self {
            VerifyError::BadRequest(m) => m,
            VerifyError::Database => string_of("An error occurred. Please try again."),
        }
    }
}

/// Refuses an empty verification token.
pub fn check_token_present(token: &str) -> (r: Result<(), VerifyError>)
    ensures
        r is Ok <==> token@.len() > 0,
        r matches Err(e) ==> (e matches VerifyError::BadRequest(m) && m@ == "Missing verification token."@),
{
    if token.is_empty() {
        Err(VerifyError::BadRequest(string_of("Missing verification token.")))
    } else {
        Ok(())
    }
}

/// The user a verification token names, once found: a missing or expired
/// token is refused.
pub fn token_user(found: Result<Option<UserId>, sqlx::Error>) -> (r: Result<UserId, AppError>)
    ensures
        found matches Ok(Some(id)) ==> r == Ok::<UserId, AppError>(id),
        found matches Ok(None) ==> (r matches Err(e) && e@ == ErrorView::Auth(
            "Invalid or expired verification link."@,
        )),
        found is Err ==> (r matches Err(e) && e@ == ErrorView::Database),
{
    match found {
        Ok(Some(id)) => Ok(id),
        Ok(None) => Err(AppError::auth("Invalid or expired verification link.")),
        Err(e) => Err(AppError::Database(e)),
    }
}

/// The organization of the user being verified; a missing user or an
/// unparsable organization id is an internal error.
pub fn verified_user_organization(user: Result<Option<User>, sqlx::Error>) -> (r: Result<
    OrganizationId,
    AppError,
>)
    ensures
        user matches Ok(Some(u)) ==> (match ulid_decoding(u.organization_id@) {
            Some(v) => r matches Ok(o) && o@ == v,
            None => r matches Err(e) && e@ == ErrorView::Internal,
        }),
        user matches Ok(None) ==> (r matches Err(e) && e@ == ErrorView::Internal),
        user is Err ==> (r matches Err(e) && e@ == ErrorView::Database),
{
    match user {
        Ok(Some(u)) => match OrganizationId::from_string(u.organization_id.as_str()) {
            Ok(o) => Ok(o),
            Err(_) => Err(AppError::Internal),
        },
        Ok(None) => Err(AppError::Internal),
        Err(e) => Err(AppError::Database(e)),
    }
}

/// A requested path is kept exactly when it stays on this site: it starts
/// with `/` and not with `//`, whatever follows (a query string included);
/// any other request, or none, gives the default.
pub proof fn law_site_paths_are_kept(p: Seq<char>, default: Seq<char>)
    ensures
        p.len() >= 1 && p[0] == '/' && !(p.len() >= 2 && p[1] == '/') ==> safe_or(Some(p), default) == p,
        !(p.len() >= 1 && p[0] == '/') ==> safe_or(Some(p), default) == default,
        p.len() >= 2 && p[0] == '/' && p[1] == '/' ==> safe_or(Some(p), default) == default,
        safe_or(None, default) == default,
{
}

} // verus!
