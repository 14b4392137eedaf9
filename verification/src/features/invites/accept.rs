//! The invite acceptance pages: what the invite link shows, and what
//! confirming it after login does.
use vstd::prelude::*;
use crate::db::organization_invites::OrganizationInvite;
use crate::db::organizations::Organization;
use crate::domain::email::{email_check, normalize_email};
use crate::domain::organization_role::role_named;
use crate::domain::ulid::ulid_decoding;
use crate::domain::{Email, OrganizationId, OrganizationRole, UserId};
use crate::encoding::{push_url_encoded, url_encoded};
use crate::text::{lowercase_of, str_eq, string_of, to_lowercase};

verus! {

/// Query for GET /accept-invite.
#[derive(Debug, Clone)]
pub struct AcceptInviteQuery {
    pub token: Option<String>,
}

/// Query for GET /accept-invite/confirm.
#[derive(Debug, Clone)]
pub struct ConfirmInviteQuery {
    pub token: Option<String>,
}

/// Accept invite page: invalid or expired, new user (signup and login
/// links), or existing user (login link).
#[derive(Debug, Clone)]
pub struct AcceptInviteTemplate {
    pub app_name: &'static str,
    /// Set when the invite is invalid or expired.
    pub invalid_message: String,
    /// Set for a new user: organization name and links to sign up or log in.
    pub new_user_org_name: String,
    pub new_user_email: String,
    pub new_user_signup_url: String,
    pub new_user_login_url: String,
    /// Set when an existing user should log in.
    pub existing_org_name: String,
    pub existing_login_url: String,
}

/// What the accept page shows.
#[derive(Debug, Clone)]
pub enum AcceptInviteState {
    InvalidExpired { message: String },
    NewUser { org_name: String, email: String, signup_url: String, login_url: String },
    ExistingUser { org_name: String, login_url: String },
}

impl AcceptInviteTemplate {
    /// The page for a state: the state's fields in their places, the others empty.
    pub fn from_state(app_name: &'static str, state: AcceptInviteState) -> (t: Self)
        ensures
            t.app_name == app_name,
            t.invalid_message@ == (match state {
                AcceptInviteState::InvalidExpired { message } => message@,
                _ => Seq::<char>::empty(),
            }),
            t.new_user_org_name@ == (match state {
                AcceptInviteState::NewUser { org_name, .. } => org_name@,
                _ => Seq::<char>::empty(),
            }),
            t.new_user_email@ == (match state {
                AcceptInviteState::NewUser { email, .. } => email@,
                _ => Seq::<char>::empty(),
            }),
            t.new_user_signup_url@ == (match state {
                AcceptInviteState::NewUser { signup_url, .. } => signup_url@,
                _ => Seq::<char>::empty(),
            }),
            t.new_user_login_url@ == (match state {
                AcceptInviteState::NewUser { login_url, .. } => login_url@,
                _ => Seq::<char>::empty(),
            }),
            t.existing_org_name@ == (match state {
                AcceptInviteState::ExistingUser { org_name, .. } => org_name@,
                _ => Seq::<char>::empty(),
            }),
            t.existing_login_url@ == (match state {
                AcceptInviteState::ExistingUser { login_url, .. } => login_url@,
                _ => Seq::<char>::empty(),
            }),
    {
        match state {
            AcceptInviteState::InvalidExpired { message } => AcceptInviteTemplate {
                app_name,
                invalid_message: message,
                new_user_org_name: String::new(),
                new_user_email: String::new(),
                new_user_signup_url: String::new(),
                new_user_login_url: String::new(),
                existing_org_name: String::new(),
                existing_login_url: String::new(),
            },
            AcceptInviteState::NewUser { org_name, email, signup_url, login_url } =>
                AcceptInviteTemplate {
                app_name,
                invalid_message: String::new(),
                new_user_org_name: org_name,
                new_user_email: email,
                new_user_signup_url: signup_url,
                new_user_login_url: login_url,
                existing_org_name: String::new(),
                existing_login_url: String::new(),
            },
            AcceptInviteState::ExistingUser { org_name, login_url } => AcceptInviteTemplate {
                app_name,
                invalid_message: String::new(),
                new_user_org_name: String::new(),
                new_user_email: String::new(),
                new_user_signup_url: String::new(),
                new_user_login_url: String::new(),
                existing_org_name: org_name,
                existing_login_url: login_url,
            },
        }
    }
}

/// The path that confirms an invite after login.
pub open spec fn confirm_path(token: Seq<char>) -> Seq<char> {
    "/accept-invite/confirm?token="@ + url_encoded(token)
}

/// The login link that comes back to the confirmation.
pub open spec fn invite_login_url(token: Seq<char>) -> Seq<char> {
    "/login?next="@ + url_encoded(confirm_path(token))
}

/// The signup link, prefilled with the invited email, that comes back to the confirmation.
pub open spec fn invite_signup_url(email: Seq<char>, token: Seq<char>) -> Seq<char> {
    "/signup?email="@ + url_encoded(email) + "&next="@ + url_encoded(confirm_path(token))
}

/// Builds the confirmation path for a token.
pub fn build_confirm_path(token: &str) -> (r: String)
    ensures
        r@ == confirm_path(token@),
{
    let mut r = string_of("/accept-invite/confirm?token=");
    push_url_encoded(&mut r, token);
    r
}

/// Builds the login link for a token.
pub fn build_invite_login_url(token: &str) -> (r: String)
    ensures
        r@ == invite_login_url(token@),
{
    let path = build_confirm_path(token);
    let mut r = string_of("/login?next=");
    push_url_encoded(&mut r, path.as_str());
    r
}

/// Builds the signup link for an invited email and token.
pub fn build_invite_signup_url(email: &str, token: &str) -> (r: String)
    ensures
        r@ == invite_signup_url(email@, token@),
{
    let path = build_confirm_path(token);
    let mut r = string_of("/signup?email=");
    push_url_encoded(&mut r, email);
    crate::text::push_str(&mut r, "&next=");
    push_url_encoded(&mut r, path.as_str());
    proof {
        reveal_strlit("&next=");
    }
    r
}

/// What GET /accept-invite answers: a page, or a server error with its text.
#[derive(Debug, Clone)]
pub enum AcceptPage {
    Show(AcceptInviteState),
    ServerError(&'static str),
}

/// The accept page's state, by its texts.
pub enum AcceptStateView {
    InvalidExpired(Seq<char>),
    NewUser(Seq<char>, Seq<char>, Seq<char>, Seq<char>),
    ExistingUser(Seq<char>, Seq<char>),
}

/// The accept answer, by its texts.
pub enum AcceptPageView {
    Show(AcceptStateView),
    ServerError(Seq<char>),
}

impl View for AcceptInviteState {
    type V = AcceptStateView;

    open spec fn view(&self) -> AcceptStateView {
        match self {
            AcceptInviteState::InvalidExpired { message } => AcceptStateView::InvalidExpired(message@),
            AcceptInviteState::NewUser { org_name, email, signup_url, login_url } =>
                AcceptStateView::NewUser(org_name@, email@, signup_url@, login_url@),
            AcceptInviteState::ExistingUser { org_name, login_url } => AcceptStateView::ExistingUser(
                org_name@,
                login_url@,
            ),
        }
    }
}

impl View for AcceptPage {
    type V = AcceptPageView;

    open spec fn view(&self) -> AcceptPageView {
        match self {
            AcceptPage::Show(s) => AcceptPageView::Show(s@),
            AcceptPage::ServerError(m) => AcceptPageView::ServerError(m@),
        }
    }
}

/// The invite token of a query: present and not empty.
pub open spec fn query_token(token: Option<String>) -> Option<Seq<char>> {
    match token {
        Some(t) => if t@.len() > 0 {
            Some(t@)
        } else {
            None
        },
        None => None,
    }
}

/// An invalid-invite page with its message.
pub open spec fn invalid_page(msg: Seq<char>) -> AcceptPageView {
    AcceptPageView::Show(AcceptStateView::InvalidExpired(msg))
}

/// What GET /accept-invite shows, from the query token and the lookups made
/// for it: the invite by token, its organization (once its id parses), and
/// whether a user has the invited email (once it is a valid email).
pub open spec fn accept_page(
    token: Option<String>,
    invite: Option<Result<Option<OrganizationInvite>, sqlx::Error>>,
    org: Option<Result<Option<Organization>, sqlx::Error>>,
    user_exists: bool,
) -> AcceptPageView {
    match query_token(token) {
        None => invalid_page("Invalid or missing invite link."@),
        Some(t) => match invite {
            Some(Err(_)) => AcceptPageView::ServerError("Database error"@),
            Some(Ok(Some(inv))) => if ulid_decoding(inv.organization_id@) is None {
                AcceptPageView::ServerError("Invalid organization"@)
            } else {
                match org {
                    Some(Err(_)) => AcceptPageView::ServerError("Database error"@),
                    Some(Ok(Some(o))) => if email_check(normalize_email(inv.email@)) is Err {
                        invalid_page("Invalid invite."@)
                    } else if user_exists {
                        AcceptPageView::Show(AcceptStateView::ExistingUser(o.name@, invite_login_url(t)))
                    } else {
                        AcceptPageView::Show(
                            AcceptStateView::NewUser(
                                o.name@,
                                inv.email@,
                                invite_signup_url(inv.email@, t),
                                invite_login_url(t),
                            ),
                        )
                    },
                    _ => invalid_page("This invite is no longer valid."@),
                }
            },
            _ => invalid_page(
                "This invite is invalid or has expired. Ask your teammate to send a new one."@,
            ),
        },
    }
}

fn invalid(msg: &str) -> (p: AcceptPage)
    ensures
        p@ == invalid_page(msg@),
{
    AcceptPage::Show(AcceptInviteState::InvalidExpired { message: string_of(msg) })
}

/// Decides what GET /accept-invite shows.
pub fn decide_accept_page(
    token: Option<String>,
    invite: Option<Result<Option<OrganizationInvite>, sqlx::Error>>,
    org: Option<Result<Option<Organization>, sqlx::Error>>,
    user_exists: bool,
) -> (p: AcceptPage)
    ensures
        p@ == accept_page(token, invite, org, user_exists),
{
    let t = match token {
        Some(t) => {
            if t.as_str().is_empty() {
                return invalid("Invalid or missing invite link.");
            }
            t
        },
        None => return invalid("Invalid or missing invite link."),
    };
    let inv = match invite {
        Some(Err(_)) => return AcceptPage::ServerError("Database error"),
        Some(Ok(Some(inv))) => inv,
        _ => return invalid(
            "This invite is invalid or has expired. Ask your teammate to send a new one.",
        ),
    };
    if OrganizationId::from_string(inv.organization_id.as_str()).is_err() {
        return AcceptPage::ServerError("Invalid organization");
    }
    let o = match org {
        Some(Err(_)) => return AcceptPage::ServerError("Database error"),
        Some(Ok(Some(o))) => o,
        _ => return invalid("This invite is no longer valid."),
    };
    if Email::new(inv.email.clone()).is_err() {
        return invalid("Invalid invite.");
    }
    let login_url = build_invite_login_url(t.as_str());
    if user_exists {
        AcceptPage::Show(AcceptInviteState::ExistingUser { org_name: o.name, login_url })
    } else {
        let signup_url = build_invite_signup_url(inv.email.as_str(), t.as_str());
        AcceptPage::Show(
            AcceptInviteState::NewUser { org_name: o.name, email: inv.email, signup_url, login_url },
        )
    }
}

/// What confirming an invite decides before its writes.
#[derive(Debug, Clone)]
pub enum ConfirmStep {
    /// Send the browser to this path.
    Redirect(String),
    /// Answer with a server error and this text.
    ServerError(&'static str),
    /// Join the user to the organization with the role, then consume the invite.
    Accept { user_id: UserId, organization_id: OrganizationId, role: OrganizationRole, invite_id: String },
}

/// Whether confirming an invite must add the user to the organization: not
/// when the user is already a member (a failed lookup counts as not a member).
pub fn needs_membership(is_member: Result<bool, sqlx::Error>) -> (b: bool)
    ensures
        b == !(is_member matches Ok(true)),
{
    match is_member {
        Ok(m) => !m,
        Err(_) => true,
    }
}

/// A write of the confirmation that can fail, in the order they are made.
#[derive(Debug, Clone, Copy, PartialEq, Eq, Structural)]
pub enum ConfirmWrite {
    /// Opening the transaction.
    Begin,
    /// Adding the user to the organization.
    AddMember,
    /// Moving the user to the organization.
    UpdateOrganization,
    /// Deleting the accepted invite.
    DeleteInvite,
    /// Committing the transaction.
    Commit,
    /// Ending the old session.
    DeleteSession,
    /// Starting the new session.
    CreateSession,
}

/// The server-error text for each failed write of the confirmation.
pub open spec fn confirm_write_text(w: ConfirmWrite) -> Seq<char> {
    match w {
        ConfirmWrite::Begin => "Database error"@,
        ConfirmWrite::AddMember => "Failed to add to organization"@,
        ConfirmWrite::UpdateOrganization => "Failed to update organization"@,
        ConfirmWrite::DeleteInvite => "Failed to complete invite"@,
        ConfirmWrite::Commit => "Database error"@,
        ConfirmWrite::DeleteSession => "Failed to update session"@,
        ConfirmWrite::CreateSession => "Failed to create session"@,
    }
}

/// The server-error text for a failed write of the confirmation.
pub fn confirm_write_failure(w: ConfirmWrite) -> (r: &'static str)
    ensures
        r@ == confirm_write_text(w),
{
    match w {
        ConfirmWrite::Begin => "Database error",
        ConfirmWrite::AddMember => "Failed to add to organization",
        ConfirmWrite::UpdateOrganization => "Failed to update organization",
        ConfirmWrite::DeleteInvite => "Failed to complete invite",
        ConfirmWrite::Commit => "Database error",
        ConfirmWrite::DeleteSession => "Failed to update session",
        ConfirmWrite::CreateSession => "Failed to create session",
    }
}

/// The role an invite grants: its stored role, or `Member` when that is not a role name.
pub open spec fn invite_role(role: Seq<char>) -> OrganizationRole {
    match role_named(role) {
        Some(r) => r,
        None => OrganizationRole::Member,
    }
}

/// The confirmation step, by its texts and id values.
pub enum ConfirmView {
    Redirect(Seq<char>),
    ServerError(Seq<char>),
    Accept(u128, u128, OrganizationRole, Seq<char>),
}

impl View for ConfirmStep {
    type V = ConfirmView;

    open spec fn view(&self) -> ConfirmView {
        match self {
            ConfirmStep::Redirect(p) => ConfirmView::Redirect(p@),
            ConfirmStep::ServerError(m) => ConfirmView::ServerError(m@),
            ConfirmStep::Accept { user_id, organization_id, role, invite_id } => ConfirmView::Accept(
                user_id@,
                organization_id@,
                *role,
                invite_id@,
            ),
        }
    }
}

/// What confirming an invite decides, from the query token, the invite found
/// by it, the session's user id and that user's row: the invited email must
/// be the user's (compared in lowercase).
pub open spec fn confirm_step(
    token: Option<String>,
    invite: Option<Result<Option<OrganizationInvite>, sqlx::Error>>,
    session_user_id: Seq<char>,
    user: Option<Result<Option<crate::db::users::User>, sqlx::Error>>,
) -> ConfirmView {
    match query_token(token) {
        None => ConfirmView::Redirect("/app"@),
        Some(t) => match invite {
            Some(Err(_)) => ConfirmView::ServerError("Database error"@),
            Some(Ok(Some(inv))) => match ulid_decoding(session_user_id) {
                None => ConfirmView::Redirect("/app"@),
                Some(uid) => match user {
                    Some(Err(_)) => ConfirmView::ServerError("Database error"@),
                    Some(Ok(Some(u))) => if lowercase_of(u.email@) != lowercase_of(inv.email@) {
                        ConfirmView::Redirect("/accept-invite?token="@ + url_encoded(t))
                    } else {
                        match ulid_decoding(inv.organization_id@) {
                            None => ConfirmView::ServerError("Invalid organization"@),
                            Some(oid) => ConfirmView::Accept(uid, oid, invite_role(inv.role@), inv.id@),
                        }
                    },
                    _ => ConfirmView::Redirect("/app"@),
                },
            },
            _ => ConfirmView::Redirect("/accept-invite"@),
        },
    }
}

/// Decides the confirmation of an invite by a logged-in user.
pub fn decide_confirm_invite(
    token: Option<String>,
    invite: Option<Result<Option<OrganizationInvite>, sqlx::Error>>,
    session_user_id: &str,
    user: Option<Result<Option<crate::db::users::User>, sqlx::Error>>,
) -> (r: ConfirmStep)
    ensures
        r@ == confirm_step(token, invite, session_user_id@, user),
{
    let t = match token {
        Some(t) => {
            if t.as_str().is_empty() {
                return ConfirmStep::Redirect(string_of("/app"));
            }
            t
        },
        None => return ConfirmStep::Redirect(string_of("/app")),
    };
    let inv = match invite {
        Some(Err(_)) => return ConfirmStep::ServerError("Database error"),
        Some(Ok(Some(inv))) => inv,
        _ => return ConfirmStep::Redirect(string_of("/accept-invite")),
    };
    let user_id = match UserId::from_string(session_user_id) {
        Ok(id) => id,
        Err(_) => return ConfirmStep::Redirect(string_of("/app")),
    };
    let u = match user {
        Some(Err(_)) => return ConfirmStep::ServerError("Database error"),
        Some(Ok(Some(u))) => u,
        _ => return ConfirmStep::Redirect(string_of("/app")),
    };
    let a = to_lowercase(u.email.as_str());
    let b = to_lowercase(inv.email.as_str());
    if !str_eq(a.as_str(), b.as_str()) {
        let mut p = string_of("/accept-invite?token=");
        push_url_encoded(&mut p, t.as_str());
        return ConfirmStep::Redirect(p);
    }
    let organization_id = match OrganizationId::from_string(inv.organization_id.as_str()) {
        Ok(id) => id,
        Err(_) => return ConfirmStep::ServerError("Invalid organization"),
    };
    let role = match OrganizationRole::parse(inv.role.as_str()) {
        Ok(r) => r,
        Err(_) => OrganizationRole::Member,
    };
    ConfirmStep::Accept { user_id, organization_id, role, invite_id: inv.id }
}

/// Whether an account already has the invited email only decides which
/// page shows: an existing user gets the page a new user would get, without
/// the signup link, and its login link is the very login link of the
/// new-user page: the login page with `next` set to the URL-encoded
/// confirmation path of the token, so logging in comes back to confirm.
pub proof fn law_existing_user_login_returns_to_confirmation(
    token: Option<String>,
    invite: Option<Result<Option<OrganizationInvite>, sqlx::Error>>,
    org: Option<Result<Option<Organization>, sqlx::Error>>,
)
    ensures
        ({
            match (accept_page(token, invite, org, true), accept_page(token, invite, org, false)) {
                (
                    AcceptPageView::Show(AcceptStateView::ExistingUser(n1, u1)),
                    AcceptPageView::Show(AcceptStateView::NewUser(n2, _, _, u2)),
                ) => n1 == n2 && u1 == u2 && (token matches Some(t) && u1 == "/login?next="@
                    + url_encoded("/accept-invite/confirm?token="@ + url_encoded(t@))),
                (AcceptPageView::Show(AcceptStateView::ExistingUser(_, _)), _) => false,
                (_, AcceptPageView::Show(AcceptStateView::NewUser(_, _, _, _))) => false,
                (a, b) => a == b,
            }
        }),
{
}

/// What the accept page shows comes from the invite: a page for a user is
/// shown only for a non-empty token whose invite and organization were
/// found, with the organization's name; the new-user page shows the invited
/// email and a signup link prefilled with it that comes back to the
/// confirmation. A missing or empty token gives the invalid-link page.
pub proof fn law_accept_page_shows_the_invite(
    token: Option<String>,
    invite: Option<Result<Option<OrganizationInvite>, sqlx::Error>>,
    org: Option<Result<Option<Organization>, sqlx::Error>>,
    user_exists: bool,
)
    ensures
        (token is None || (token matches Some(t) && t@.len() == 0)) ==> accept_page(
            token,
            invite,
            org,
            user_exists,
        ) == AcceptPageView::Show(AcceptStateView::InvalidExpired("Invalid or missing invite link."@)),
        accept_page(token, invite, org, user_exists) matches AcceptPageView::Show(
            AcceptStateView::ExistingUser(n, _),
        ) ==> user_exists && (org matches Some(Ok(Some(o))) && n == o.name@) && (invite matches Some(
            Ok(Some(inv)),
        ) && email_check(normalize_email(inv.email@)) is Ok),
        accept_page(token, invite, org, user_exists) matches AcceptPageView::Show(
            AcceptStateView::NewUser(n, e, s, _),
        ) ==> !user_exists && (org matches Some(Ok(Some(o))) && n == o.name@) && (invite matches Some(
            Ok(Some(inv)),
        ) && e == inv.email@ && email_check(normalize_email(inv.email@)) is Ok && (token matches Some(t)
            && s == "/signup?email="@ + url_encoded(inv.email@) + "&next="@ + url_encoded(
            "/accept-invite/confirm?token="@ + url_encoded(t@),
        ))),
{
}

} // verus!
