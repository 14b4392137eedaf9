//! The organization settings page and the invitation actions of owners and admins.
use vstd::prelude::*;
use crate::db::organization_invites::{NewOrganizationInvite, OrganizationInvite};
use crate::db::organizations::MemberWithEmail;
use crate::db::users::{display_name_from_parts, display_name_spec};
use crate::domain::email::{email_check, normalize_email};
use crate::domain::organization_role::{law_role_name_roundtrip, law_role_named_is_name, role_name, role_named};
use crate::domain::ulid::ulid_decoding;
use crate::domain::{Email, OrganizationId, OrganizationRole, UserId};
use crate::encoding::{decimal_digits, push_decimal, push_url_encoded, url_encoded};
use crate::features::invites::accept::invite_role;
use crate::features::validation::{char_count, check_email_field, email_field_ok};
use crate::text::{
    chars_of, lowercase_of, push_str, push_uppercase, str_eq, string_of, to_lowercase, uppercase_all,
    uppercase_of, word_initials, word_initials_of,
};
use crate::APP_NAME;

verus! {

/// One row of the members table on the organization settings page.
#[derive(Debug, Clone)]
pub struct MemberRow {
    pub display_name: String,
    pub email: String,
    pub role_display: String,
    pub avatar_url: String,
    pub initials: String,
}

/// One row of the pending invites table.
#[derive(Debug, Clone)]
pub struct PendingInviteRow {
    pub id: String,
    pub email: String,
    pub role_display: String,
    pub sent_ago: String,
    pub expires_in: String,
}

/// Organization management page.
#[derive(Debug, Clone)]
pub struct OrganizationSettingsTemplate {
    pub app_name: &'static str,
    pub org_name: String,
    pub members: Vec<MemberRow>,
    pub members_total: usize,
    pub pending_invites: Vec<PendingInviteRow>,
    pub error: String,
    pub success: String,
    pub current_user_avatar_url: String,
}

/// Invite form data.
#[derive(Debug, Clone)]
pub struct InviteForm {
    pub email: String,
    pub role: String,
}

/// Query parameters of the settings page (error and success feedback).
#[derive(Debug, Clone)]
pub struct OrganizationSettingsQuery {
    pub error: Option<String>,
    pub success: Option<String>,
}

/// The label of a stored role (compared in lowercase); an unknown role is shown as it is.
pub open spec fn role_label(role: Seq<char>) -> Seq<char> {
    let l = lowercase_of(role);
    if l == "owner"@ {
        "Owner"@
    } else if l == "admin"@ {
        "Admin"@
    } else if l == "member"@ {
        "Member (Read/Write)"@
    } else if l == "viewer"@ {
        "Viewer"@
    } else {
        role
    }
}

/// Human-readable role label for the UI.
pub fn role_display(role: &str) -> (r: String)
    ensures
        r@ == role_label(role@),
{
    let l = to_lowercase(role);
    if str_eq(l.as_str(), "owner") {
        string_of("Owner")
    } else if str_eq(l.as_str(), "admin") {
        string_of("Admin")
    } else if str_eq(l.as_str(), "member") {
        string_of("Member (Read/Write)")
    } else if str_eq(l.as_str(), "viewer") {
        string_of("Viewer")
    } else {
        string_of(role)
    }
}

/// How long ago something was sent, from the seconds `diff` since then.
pub open spec fn sent_ago_text(diff: int) -> Seq<char> {
    if diff < 60 {
        "Just now"@
    } else if diff < 3600 {
        decimal_digits((diff / 60) as nat) + " minutes ago"@
    } else if diff < 86400 {
        decimal_digits((diff / 3600) as nat) + " hours ago"@
    } else {
        decimal_digits((diff / 86400) as nat) + " days ago"@
    }
}

/// "X minutes/hours/days ago" for something created at `created_at`, at time
/// `now` (Unix seconds); "Just now" under a minute or for a future time.
pub fn format_sent_ago(created_at: i64, now: i64) -> (r: String)
    requires
        i64::MIN <= now - created_at <= i64::MAX,
    ensures
        r@ == sent_ago_text(now - created_at),
{
    let diff = now - created_at;
    if diff < 60 {
        return string_of("Just now");
    }
    let mut r = String::new();
    let d = diff as u64;
    if diff < 3600 {
        push_decimal(&mut r, d / 60);
        push_str(&mut r, " minutes ago");
    } else if diff < 86400 {
        push_decimal(&mut r, d / 3600);
        push_str(&mut r, " hours ago");
    } else {
        push_decimal(&mut r, d / 86400);
        push_str(&mut r, " days ago");
    }
    r
}

/// When something expires, from the seconds `diff` left.
pub open spec fn expires_in_text(diff: int) -> Seq<char> {
    if diff <= 0 {
        "Expired"@
    } else if diff < 86400 {
        "Expires in "@ + decimal_digits((diff / 3600) as nat) + " hours"@
    } else {
        "Expires in "@ + decimal_digits((diff / 86400) as nat) + " days"@
    }
}

/// "Expires in X hours/days" for something that expires at `expires_at`, at
/// time `now` (Unix seconds); "Expired" once it has.
pub fn format_expires_in(expires_at: i64, now: i64) -> (r: String)
    requires
        i64::MIN <= expires_at - now <= i64::MAX,
    ensures
        r@ == expires_in_text(expires_at - now),
{
    let diff = expires_at - now;
    if diff <= 0 {
        return string_of("Expired");
    }
    let mut r = string_of("Expires in ");
    let d = diff as u64;
    if diff < 86400 {
        push_decimal(&mut r, d / 3600);
        push_str(&mut r, " hours");
    } else {
        push_decimal(&mut r, d / 86400);
        push_str(&mut r, " days");
    }
    r
}

/// The first two characters of `s` (all of them when it has fewer).
pub open spec fn first_two(s: Seq<char>) -> Seq<char> {
    if s.len() < 2 {
        s
    } else {
        s.take(2)
    }
}

/// Initials: the uppercased first letters of the first two words of the
/// name; with fewer words, the uppercased first two characters of the name,
/// or of the email when the name is empty.
pub open spec fn initials(name: Seq<char>, email: Seq<char>) -> Seq<char> {
    let w = word_initials(name);
    if w.len() >= 2 {
        uppercase_of(w[0]) + uppercase_of(w[1])
    } else if name.len() > 0 {
        uppercase_all(first_two(name))
    } else {
        uppercase_all(first_two(email))
    }
}

fn push_uppercase_first_two(out: &mut String, chars: &Vec<char>)
    ensures
        final(out)@ == old(out)@ + uppercase_all(first_two(chars@)),
{
    let ghost s = chars@;
    let ghost start = out@;
    if chars.len() == 0 {
        assert(uppercase_all(first_two(s)) =~= Seq::<char>::empty());
        assert(out@ =~= start + uppercase_all(first_two(s)));
        return;
    }
    push_uppercase(out, chars[0]);
    let ghost one = s.take(1);
    assert(one.drop_last() =~= Seq::<char>::empty());
    assert(uppercase_all(one.drop_last()) =~= Seq::<char>::empty());
    assert(one.last() == s[0]);
    assert(uppercase_all(one) =~= uppercase_of(s[0]));
    if chars.len() == 1 {
        assert(first_two(s) =~= one);
        assert(out@ =~= start + uppercase_all(first_two(s)));
        return;
    }
    push_uppercase(out, chars[1]);
    let ghost two = s.take(2);
    assert(two.drop_last() =~= one);
    assert(two.last() == s[1]);
    assert(uppercase_all(two) =~= uppercase_of(s[0]) + uppercase_of(s[1]));
    assert(first_two(s) =~= two);
    assert(out@ =~= start + uppercase_all(first_two(s)));
}

/// Initials from a display name or an email.
pub fn initials_from_name(name: &str, email: &str) -> (r: String)
    ensures
        r@ == initials(name@, email@),
{
    let chars = chars_of(name);
    let w = word_initials_of(&chars);
    let mut r = String::new();
    if w.len() >= 2 {
        push_uppercase(&mut r, w[0]);
        push_uppercase(&mut r, w[1]);
        assert(r@ =~= uppercase_of(w@[0]) + uppercase_of(w@[1]));
    } else if chars.len() > 0 {
        push_uppercase_first_two(&mut r, &chars);
        assert(r@ =~= uppercase_all(first_two(name@)));
    } else {
        let e = chars_of(email);
        push_uppercase_first_two(&mut r, &e);
        assert(r@ =~= uppercase_all(first_two(email@)));
    }
    r
}

/// Whether a role may manage invitations: owners and admins.
pub fn can_invite(role: OrganizationRole) -> (b: bool)
    ensures
        b == (role == OrganizationRole::Owner || role == OrganizationRole::Admin),
{
    match role {
        OrganizationRole::Owner | OrganizationRole::Admin => true,
        _ => false,
    }
}

/// The settings page URL carrying an error message.
pub fn invite_redirect_error(msg: &str) -> (r: String)
    ensures
        r@ == "/app/settings/organization?error="@ + url_encoded(msg@),
{
    let mut r = string_of("/app/settings/organization?error=");
    push_url_encoded(&mut r, msg);
    r
}

/// The settings page URL carrying a success message.
pub fn invite_redirect_success(msg: &str) -> (r: String)
    ensures
        r@ == "/app/settings/organization?success="@ + url_encoded(msg@),
{
    let mut r = string_of("/app/settings/organization?success=");
    push_url_encoded(&mut r, msg);
    r
}

/// A high-entropy invite token: 64 hex characters from 32 random bytes.
pub fn generate_invite_token() -> (r: String)
    ensures
        exists|bs: Seq<u8>| bs.len() == 32 && r@ == crate::encoding::hex_lower(bs),
{
    crate::encoding::generate_token()
}

/// A settings row for a member.
pub fn member_row(m: &MemberWithEmail) -> (r: MemberRow)
    ensures
        r.display_name@ == display_name_spec(m.first_name@, m.last_name@),
        r.email == m.email,
        r.role_display@ == role_label(m.role@),
        r.avatar_url@ == (match m.profile_image_url {
            Some(u) => u@,
            None => Seq::<char>::empty(),
        }),
        r.initials@ == initials(display_name_spec(m.first_name@, m.last_name@), m.email@),
{
    let display_name = display_name_from_parts(m.first_name.as_str(), m.last_name.as_str());
    let initials = initials_from_name(display_name.as_str(), m.email.as_str());
    let avatar_url = match &m.profile_image_url {
        Some(u) => u.clone(),
        None => String::new(),
    };
    MemberRow {
        display_name,
        email: m.email.clone(),
        role_display: role_display(m.role.as_str()),
        avatar_url,
        initials,
    }
}

/// A settings row for a pending invite, at time `now`.
pub fn pending_invite_row(i: &OrganizationInvite, now: i64) -> (r: PendingInviteRow)
    requires
        i64::MIN <= now - i.created_at <= i64::MAX,
        i64::MIN <= i.expires_at - now <= i64::MAX,
    ensures
        r.id == i.id,
        r.email == i.email,
        r.role_display@ == role_label(i.role@),
        r.sent_ago@ == sent_ago_text(now - i.created_at),
        r.expires_in@ == expires_in_text(i.expires_at - now),
{
    PendingInviteRow {
        id: i.id.clone(),
        email: i.email.clone(),
        role_display: role_display(i.role.as_str()),
        sent_ago: format_sent_ago(i.created_at, now),
        expires_in: format_expires_in(i.expires_at, now),
    }
}

/// The field rules of the invite form: an email field, and a role of at least one character.
pub open spec fn invite_form_ok(f: InviteForm) -> bool {
    email_field_ok(f.email@) && f.role@.len() >= 1
}

/// The outcome of checking an invitation request: the normalized email,
/// the role, and the session's organization and user ids, or the message
/// the settings page shows.
pub open spec fn invite_request_check(f: InviteForm, organization_id: Seq<char>, user_id: Seq<char>) -> Result<
    (Seq<char>, OrganizationRole, u128, u128),
    Seq<char>,
> {
    if !invite_form_ok(f) {
        Err("Invalid email or role."@)
    } else if email_check(normalize_email(f.email@)) is Err {
        Err("Invalid email address."@)
    } else if role_named(f.role@) is None {
        Err("Invalid role."@)
    } else if ulid_decoding(organization_id) is None {
        Err("Invalid organization."@)
    } else if ulid_decoding(user_id) is None {
        Err("Invalid session."@)
    } else {
        Ok(
            (
                normalize_email(f.email@),
                role_named(f.role@).unwrap(),
                ulid_decoding(organization_id).unwrap(),
                ulid_decoding(user_id).unwrap(),
            ),
        )
    }
}

/// Checks an invitation request in the session's organization.
pub fn check_invite_request(form: &InviteForm, organization_id: &str, user_id: &str) -> (r: Result<
    (Email, OrganizationRole, OrganizationId, UserId),
    &'static str,
>)
    ensures
        match r {
            Ok((e, role, o, u)) => invite_request_check(*form, organization_id@, user_id@) == Ok::<
                (Seq<char>, OrganizationRole, u128, u128),
                Seq<char>,
            >((e@, role, o@, u@)),
            Err(m) => invite_request_check(*form, organization_id@, user_id@) == Err::<
                (Seq<char>, OrganizationRole, u128, u128),
                Seq<char>,
            >(m@),
        },
{
    if !(check_email_field(form.email.as_str()) && char_count(form.role.as_str()) >= 1) {
        return Err("Invalid email or role.");
    }
    let email = match Email::new(form.email.clone()) {
        Ok(e) => e,
        Err(_) => return Err("Invalid email address."),
    };
    let role = match OrganizationRole::parse(form.role.as_str()) {
        Ok(r) => r,
        Err(_) => return Err("Invalid role."),
    };
    let org = match OrganizationId::from_string(organization_id) {
        Ok(o) => o,
        Err(_) => return Err("Invalid organization."),
    };
    let user = match UserId::from_string(user_id) {
        Ok(u) => u,
        Err(_) => return Err("Invalid session."),
    };
    Ok((email, role, org, user))
}

/// The id to look up for an existing user's membership: the stored id, or a
/// fresh one (which is nobody's) when it does not parse.
pub fn existing_member_id(stored_id: &str) -> (r: UserId)
    ensures
        ulid_decoding(stored_id@) matches Some(v) ==> r@ == v,
{
    match UserId::from_string(stored_id) {
        Ok(id) => id,
        Err(_) => UserId::new(),
    }
}

/// Whether a new invitation is refused because the invited email's user is
/// already a member (a failed membership lookup counts as not a member).
pub fn blocked_by_membership(is_member: Result<bool, sqlx::Error>) -> (b: bool)
    ensures
        b == (is_member matches Ok(true)),
{
    match is_member {
        Ok(m) => m,
        Err(_) => false,
    }
}

/// The pending invite to cancel before a new one is sent (a failed lookup
/// counts as none); sending after a cancel reports a resend.
pub fn pending_invite_to_cancel(lookup: Result<Option<OrganizationInvite>, sqlx::Error>) -> (r: Option<
    String,
>)
    ensures
        lookup matches Ok(Some(i)) ==> r == Some(i.id),
        !(lookup matches Ok(Some(_))) ==> r is None,
{
    match lookup {
        Ok(Some(i)) => Some(i.id),
        _ => None,
    }
}

/// Seconds an invitation stays valid: seven days.
pub const INVITE_LIFETIME_SECS: i64 = 604800;

/// The invite to insert, created at `now` and valid for seven days.
pub fn new_invite(
    id: String,
    organization_id: OrganizationId,
    email: String,
    role: OrganizationRole,
    invited_by_user_id: UserId,
    token: String,
    now: i64,
) -> (r: NewOrganizationInvite)
    requires
        now + INVITE_LIFETIME_SECS <= i64::MAX,
    ensures
        r.id == id,
        r.organization_id == organization_id,
        r.email == email,
        r.role == role,
        r.invited_by_user_id == invited_by_user_id,
        r.token == token,
        r.created_at == now,
        r.expires_at == now + INVITE_LIFETIME_SECS,
{
    NewOrganizationInvite {
        id,
        organization_id,
        email,
        role,
        invited_by_user_id,
        token,
        expires_at: now + INVITE_LIFETIME_SECS,
        created_at: now,
    }
}

/// The link an invitation email carries.
pub fn invite_url(app_url_base: &str, token: &str) -> (r: String)
    ensures
        r@ == app_url_base@ + "/accept-invite?token="@ + url_encoded(token@),
{
    let mut r = string_of(app_url_base);
    push_str(&mut r, "/accept-invite?token=");
    push_url_encoded(&mut r, token);
    r
}

/// The subject of an invitation email.
pub fn invite_email_subject(org_name: &str) -> (r: String)
    ensures
        r@ == "You're invited to join "@ + org_name@,
{
    let mut r = string_of("You're invited to join ");
    push_str(&mut r, org_name);
    r
}

/// The body of an invitation email.
pub fn invite_email_body(org_name: &str, url: &str) -> (r: String)
    ensures
        r@ == "You've been invited to join "@ + org_name@ + " on "@ + APP_NAME@
            + ". Click here to accept: "@ + url@,
{
    let mut r = string_of("You've been invited to join ");
    push_str(&mut r, org_name);
    push_str(&mut r, " on ");
    push_str(&mut r, APP_NAME);
    push_str(&mut r, ". Click here to accept: ");
    push_str(&mut r, url);
    r
}

/// A write or lookup of the invitation flows that can fail, by flow and step.
#[derive(Debug, Clone, Copy, PartialEq, Eq, Structural)]
pub enum InviteFailure {
    /// Creating: cancelling the earlier pending invite failed.
    CreateCancelPending,
    /// Creating: inserting the new invite failed.
    CreateInsert,
    /// Creating: the invite was stored but its email was not sent.
    CreateSendEmail,
    /// Resending: deleting the old invite failed.
    ResendDelete,
    /// Resending: inserting the new invite failed.
    ResendInsert,
    /// Resending: the new invite was stored but its email was not sent.
    ResendSendEmail,
    /// Revoking: deleting the invite failed.
    RevokeDelete,
    /// Creating or resending: the organization was not found for the email.
    OrganizationMissing,
}

/// The message shown for each failure of the invitation flows.
pub open spec fn invite_failure_text(f: InviteFailure) -> Seq<char> {
    match f {
        InviteFailure::CreateCancelPending => "Failed to update invite."@,
        InviteFailure::CreateInsert => "Failed to create invite."@,
        InviteFailure::CreateSendEmail => "Invite created but we couldn't send the email. Please try again."@,
        InviteFailure::ResendDelete => "Failed to resend invite."@,
        InviteFailure::ResendInsert => "Failed to resend invite."@,
        InviteFailure::ResendSendEmail => "Invite resent but email could not be sent. Please try again."@,
        InviteFailure::RevokeDelete => "Failed to revoke invite."@,
        InviteFailure::OrganizationMissing => "Organization not found."@,
    }
}

/// The message for a failure of the invitation flows.
pub fn invite_failure_message(f: InviteFailure) -> (r: &'static str)
    ensures
        r@ == invite_failure_text(f),
{
    match f {
        InviteFailure::CreateCancelPending => "Failed to update invite.",
        InviteFailure::CreateInsert => "Failed to create invite.",
        InviteFailure::CreateSendEmail => "Invite created but we couldn't send the email. Please try again.",
        InviteFailure::ResendDelete => "Failed to resend invite.",
        InviteFailure::ResendInsert => "Failed to resend invite.",
        InviteFailure::ResendSendEmail => "Invite resent but email could not be sent. Please try again.",
        InviteFailure::RevokeDelete => "Failed to revoke invite.",
        InviteFailure::OrganizationMissing => "Organization not found.",
    }
}

/// Where a failed step of the invitation flows redirects: the settings page
/// with that step's message.
pub fn invite_failure_redirect(f: InviteFailure) -> (r: String)
    ensures
        r@ == "/app/settings/organization?error="@ + url_encoded(invite_failure_text(f)),
{
    invite_redirect_error(invite_failure_message(f))
}

/// The message after an invitation was sent: whether an earlier pending
/// invite for the same email was cancelled.
pub fn invite_success_message(resend: bool) -> (r: &'static str)
    ensures
        resend ==> r@ == "Previous invite cancelled; new invite sent."@,
        !resend ==> r@ == "Invite sent."@,
{
    if resend {
        "Previous invite cancelled; new invite sent."
    } else {
        "Invite sent."
    }
}

/// Checks that a looked-up invite exists and belongs to the session's
/// organization; gives the invite or the message the settings page shows.
pub fn invite_of_organization(
    lookup: Result<Option<OrganizationInvite>, sqlx::Error>,
    organization_id: &str,
) -> (r: Result<OrganizationInvite, &'static str>)
    ensures
        r matches Ok(i) ==> lookup == Ok::<Option<OrganizationInvite>, sqlx::Error>(Some(i))
            && i.organization_id@ == organization_id@,
        r matches Err(m) ==> m@ == "Invite not found."@,
        r is Err <==> !(lookup matches Ok(Some(i)) && i.organization_id@ == organization_id@),
{
    match lookup {
        Ok(Some(i)) => {
            if str_eq(i.organization_id.as_str(), organization_id) {
                Ok(i)
            } else {
                Err("Invite not found.")
            }
        },
        _ => Err("Invite not found."),
    }
}

/// The outcome of checking a resend of an invite of the session's
/// organization: the organization and user ids, the invite's normalized
/// email and its role, or the message the settings page shows.
pub open spec fn resend_check(inv: OrganizationInvite, organization_id: Seq<char>, user_id: Seq<char>) -> Result<
    (u128, u128, Seq<char>, OrganizationRole),
    Seq<char>,
> {
    if ulid_decoding(organization_id) is None {
        Err("Invalid organization."@)
    } else if ulid_decoding(user_id) is None {
        Err("Invalid session."@)
    } else if email_check(normalize_email(inv.email@)) is Err {
        Err("Invalid invite email."@)
    } else {
        Ok(
            (
                ulid_decoding(organization_id).unwrap(),
                ulid_decoding(user_id).unwrap(),
                normalize_email(inv.email@),
                invite_role(inv.role@),
            ),
        )
    }
}

/// Checks a resend of an invite of the session's organization.
pub fn check_resend_invite(inv: &OrganizationInvite, organization_id: &str, user_id: &str) -> (r:
    Result<(OrganizationId, UserId, Email, OrganizationRole), &'static str>)
    ensures
        match r {
            Ok((o, u, e, role)) => resend_check(*inv, organization_id@, user_id@) == Ok::<
                (u128, u128, Seq<char>, OrganizationRole),
                Seq<char>,
            >((o@, u@, e@, role)),
            Err(m) => resend_check(*inv, organization_id@, user_id@) == Err::<
                (u128, u128, Seq<char>, OrganizationRole),
                Seq<char>,
            >(m@),
        },
{
    let org = match OrganizationId::from_string(organization_id) {
        Ok(o) => o,
        Err(_) => return Err("Invalid organization."),
    };
    let user = match UserId::from_string(user_id) {
        Ok(u) => u,
        Err(_) => return Err("Invalid session."),
    };
    let email = match Email::new(inv.email.clone()) {
        Ok(e) => e,
        Err(_) => return Err("Invalid invite email."),
    };
    let role = match OrganizationRole::parse(inv.role.as_str()) {
        Ok(r) => r,
        Err(_) => OrganizationRole::Member,
    };
    Ok((org, user, email, role))
}

/// An accepted invitation request carries the role that the form names: the
/// role whose lowercase name is the form's role text, with the normalized
/// email and the session's decoded ids; a role text that names no role is
/// refused.
pub proof fn law_invite_role_is_the_named_role(f: InviteForm, organization_id: Seq<char>, user_id: Seq<char>)
    ensures
        invite_request_check(f, organization_id, user_id) matches Ok((e, role, o, u)) ==> {
            &&& role_name(role) == f.role@
            &&& e == normalize_email(f.email@)
            &&& ulid_decoding(organization_id) == Some(o)
            &&& ulid_decoding(user_id) == Some(u)
        },
        (forall|x: OrganizationRole| role_name(x) != f.role@) ==> invite_request_check(
            f,
            organization_id,
            user_id,
        ) is Err,
{
    law_role_named_is_name(f.role@);
}

/// A well-formed request whose role text is a role's name, with a valid
/// email and a session whose ids decode, is accepted with exactly that role.
pub proof fn law_named_role_invite_is_accepted(
    f: InviteForm,
    organization_id: Seq<char>,
    user_id: Seq<char>,
    role: OrganizationRole,
)
    requires
        role_name(role) == f.role@,
        invite_form_ok(f),
        email_check(normalize_email(f.email@)) is Ok,
        ulid_decoding(organization_id) is Some,
        ulid_decoding(user_id) is Some,
    ensures
        invite_request_check(f, organization_id, user_id) == Ok::<
            (Seq<char>, OrganizationRole, u128, u128),
            Seq<char>,
        >(
            (
                normalize_email(f.email@),
                role,
                ulid_decoding(organization_id).unwrap(),
                ulid_decoding(user_id).unwrap(),
            ),
        ),
{
    law_role_name_roundtrip(role);
}

} // verus!
