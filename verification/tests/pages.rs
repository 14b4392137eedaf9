use boardtask::config::Config;
use boardtask::db::organization_invites::OrganizationInvite;
use boardtask::db::organizations::{member_role_from_row, MemberWithEmail, Organization};
use boardtask::db::users::{display_name, display_name_from_parts, normalize_bio, User};
use boardtask::db::email_verification::user_id_from_row;
use boardtask::domain::{Email, HashedPassword, OrganizationRole, Password, UserId};
use boardtask::encoding::{generate_token, url_encode};
use boardtask::error::AppError;
use boardtask::features::account::{error_redirect, plan_change_password, plan_update_name, ChangePasswordForm, UpdateNameForm, check_current_password};
use boardtask::features::auth::login::{check_credentials, check_login_form, login_failure_page, LoginForm, UNVERIFIED_MSG};
use boardtask::features::auth::password_reset::{plan_reset, reset_link, reset_next, ResetNext, ResetPasswordForm, ResetWrite};
use boardtask::features::auth::resend_verification::{build_check_email_redirect, build_verify_link, resend_redirect, should_send_verification, ResendCooldown, ResendVerificationForm, RESEND_COOLDOWN_NANOS};
use boardtask::features::auth::signup::{check_email_available, check_signup_form, signup_verify_url, SignupForm};
use boardtask::features::auth::verify_email::{check_email_page, safe_next, safe_redirect_next, VerifyError};
use boardtask::features::invites::accept::{confirm_write_failure, ConfirmWrite, needs_membership, decide_accept_page, decide_confirm_invite, AcceptInviteState, AcceptInviteTemplate, AcceptPage, ConfirmStep};
use boardtask::features::not_found::wants_json;
use boardtask::features::organization::settings::{invite_failure_message, invite_failure_redirect, InviteFailure, blocked_by_membership, pending_invite_to_cancel, can_invite, check_invite_request, format_expires_in, format_sent_ago, initials_from_name, invite_email_body, invite_redirect_error, role_display, InviteForm};
use boardtask::APP_NAME;

fn user(email: &str, hash: &str, verified: bool) -> User {
    User {
        id: UserId::new().as_str(),
        email: email.to_string(),
        password_hash: hash.to_string(),
        created_at: 0,
        updated_at: 0,
        email_verified_at: if verified { Some(1) } else { None },
        organization_id: boardtask::domain::OrganizationId::new().as_str(),
        first_name: "  Ada ".to_string(),
        last_name: " Lovelace".to_string(),
        profile_image_url: None,
        bio: None,
        email_notifications: 1,
        theme_mode: "light".to_string(),
        language: "en-US".to_string(),
    }
}

#[test]
fn display_names_are_trimmed() {
    assert_eq!(display_name_from_parts(" Ada ", " Lovelace "), "Ada Lovelace");
    assert_eq!(display_name_from_parts("", "Solo"), "Solo");
    assert_eq!(display_name(&user("a@b.co", "", true)), "Ada Lovelace");
}

#[test]
fn blank_bios_are_cleared() {
    assert_eq!(normalize_bio(Some("  hi  ")), Some("hi".to_string()));
    assert_eq!(normalize_bio(Some("   ")), None);
    assert_eq!(normalize_bio(None), None);
}

#[test]
fn rows_are_read_back() {
    assert_eq!(member_role_from_row(Some("admin".into())), Some(OrganizationRole::Admin));
    assert_eq!(member_role_from_row(Some("boss".into())), None);
    assert!(user_id_from_row(Some(UserId::new().as_str())).is_some());
    assert!(user_id_from_row(Some("x".into())).is_none());
}

#[test]
fn error_answers() {
    let r = AppError::Validation("bad".into()).into_response();
    assert_eq!((r.status, r.message.as_str()), (400, "bad"));
    let r = AppError::NotFound("gone".into()).into_response();
    assert_eq!((r.status, r.message.as_str()), (404, "gone"));
    let r = AppError::Database(sqlx::Error::RowNotFound).into_response();
    assert_eq!((r.status, r.message.as_str()), (500, "Internal server error"));
    let r = AppError::Internal.into_response();
    assert_eq!((r.status, r.message.as_str()), (500, "Internal server error"));
}

#[test]
fn url_encoding_and_tokens() {
    assert_eq!(url_encode("a b&c/é~"), "a%20b%26c%2F%C3%A9~");
    let t = generate_token();
    assert_eq!(t.len(), 64);
    assert!(t.chars().all(|c| c.is_ascii_hexdigit() && !c.is_ascii_uppercase()));
    assert_ne!(t, generate_token());
}

#[test]
fn role_labels_and_time_texts() {
    assert_eq!(role_display("OWNER"), "Owner");
    assert_eq!(role_display("member"), "Member (Read/Write)");
    assert_eq!(role_display("Guest"), "Guest");
    assert_eq!(format_sent_ago(1000, 1030), "Just now");
    assert_eq!(format_sent_ago(1000, 900), "Just now");
    assert_eq!(format_sent_ago(0, 125), "2 minutes ago");
    assert_eq!(format_sent_ago(0, 7200), "2 hours ago");
    assert_eq!(format_sent_ago(0, 86400 * 3 + 5), "3 days ago");
    assert_eq!(format_expires_in(10, 10), "Expired");
    assert_eq!(format_expires_in(3600 * 5, 0), "Expires in 5 hours");
    assert_eq!(format_expires_in(86400 * 7, 0), "Expires in 7 days");
    assert_eq!(format_expires_in(100, 0), "Expires in 0 hours");
}

#[test]
fn initials() {
    assert_eq!(initials_from_name("ada  lovelace king", "x@y.z"), "AL");
    assert_eq!(initials_from_name("  émile ", "x@y.z"), "  ");
    assert_eq!(initials_from_name("Zed", "x@y.z"), "ZE");
    assert_eq!(initials_from_name("", "bob@y.z"), "BO");
    assert_eq!(initials_from_name("", "ß@y.z"), "SS@");
    assert!(can_invite(OrganizationRole::Admin) && can_invite(OrganizationRole::Owner));
    assert!(!can_invite(OrganizationRole::Member) && !can_invite(OrganizationRole::Viewer));
}

#[test]
fn invite_request_checks() {
    let org = boardtask::domain::OrganizationId::new().as_str();
    let me = UserId::new().as_str();
    let form = InviteForm { email: "  New@Example.com".into(), role: "member".into() };
    assert_eq!(check_invite_request(&form, &org, &me).unwrap_err(), "Invalid email or role.");
    let form = InviteForm { email: "new@example.com".into(), role: "boss".into() };
    assert_eq!(check_invite_request(&form, &org, &me).unwrap_err(), "Invalid role.");
    let form = InviteForm { email: "new@example.com".into(), role: "viewer".into() };
    assert_eq!(check_invite_request(&form, "x", &me).unwrap_err(), "Invalid organization.");
    let (e, role, _, _) = check_invite_request(&form, &org, &me).unwrap();
    assert_eq!((e.as_str(), role), ("new@example.com", OrganizationRole::Viewer));
    assert_eq!(invite_redirect_error("Invite sent."), "/app/settings/organization?error=Invite%20sent.");
    assert_eq!(invite_email_body("Acme", "http://h/x"), "You've been invited to join Acme on Boardtask. Click here to accept: http://h/x");
}

fn invite(email: &str, org: &str) -> OrganizationInvite {
    OrganizationInvite {
        id: "inv1".into(),
        organization_id: org.into(),
        email: email.into(),
        role: "admin".into(),
        invited_by_user_id: "u".into(),
        token: "tok".into(),
        expires_at: 10,
        created_at: 0,
    }
}

#[test]
fn accept_page_states() {
    let org_id = boardtask::domain::OrganizationId::new().as_str();
    let org = Organization { id: org_id.clone(), name: "Acme".into(), created_at: 0 };
    match decide_accept_page(Some(String::new()), None, None, false) {
        AcceptPage::Show(AcceptInviteState::InvalidExpired { message }) => assert_eq!(message, "Invalid or missing invite link."),
        other => panic!("{other:?}"),
    }
    match decide_accept_page(Some("t k".into()), Some(Ok(Some(invite("a@b.co", &org_id)))), Some(Ok(Some(org.clone()))), false) {
        AcceptPage::Show(AcceptInviteState::NewUser { org_name, email, signup_url, login_url }) => {
            assert_eq!(org_name, "Acme");
            assert_eq!(email, "a@b.co");
            assert_eq!(login_url, "/login?next=%2Faccept-invite%2Fconfirm%3Ftoken%3Dt%2520k");
            assert_eq!(signup_url, "/signup?email=a%40b.co&next=%2Faccept-invite%2Fconfirm%3Ftoken%3Dt%2520k");
        }
        other => panic!("{other:?}"),
    }
    match decide_accept_page(Some("t".into()), Some(Ok(Some(invite("a@b.co", "bad")))), None, false) {
        AcceptPage::ServerError(m) => assert_eq!(m, "Invalid organization"),
        other => panic!("{other:?}"),
    }
    let page = decide_accept_page(Some("t".into()), Some(Ok(Some(invite("a@b.co", &org_id)))), Some(Ok(Some(org))), true);
    let AcceptPage::Show(state) = page else { panic!() };
    let t = AcceptInviteTemplate::from_state(APP_NAME, state);
    assert_eq!(t.existing_org_name, "Acme");
    assert_eq!(t.new_user_email, "");
    assert_eq!(t.invalid_message, "");
}

#[test]
fn confirming_an_invite() {
    let org_id = boardtask::domain::OrganizationId::new().as_str();
    let u = user("A@B.co", "", true);
    let sid = u.id.clone();
    match decide_confirm_invite(Some("tok".into()), Some(Ok(Some(invite("a@b.CO", &org_id)))), &sid, Some(Ok(Some(u.clone())))) {
        ConfirmStep::Accept { role, invite_id, .. } => {
            assert_eq!(role, OrganizationRole::Admin);
            assert_eq!(invite_id, "inv1");
        }
        other => panic!("{other:?}"),
    }
    match decide_confirm_invite(Some("t/k".into()), Some(Ok(Some(invite("other@b.co", &org_id)))), &sid, Some(Ok(Some(u.clone())))) {
        ConfirmStep::Redirect(p) => assert_eq!(p, "/accept-invite?token=t%2Fk"),
        other => panic!("{other:?}"),
    }
    match decide_confirm_invite(None, None, &sid, None) {
        ConfirmStep::Redirect(p) => assert_eq!(p, "/app"),
        other => panic!("{other:?}"),
    }
    match decide_confirm_invite(Some("t".into()), Some(Ok(None)), &sid, None) {
        ConfirmStep::Redirect(p) => assert_eq!(p, "/accept-invite"),
        other => panic!("{other:?}"),
    }
}

#[test]
fn safe_redirects() {
    assert_eq!(safe_redirect_next(Some("/app/x".into())), "/app/x");
    assert_eq!(safe_redirect_next(Some("//evil.com".into())), "/app");
    assert_eq!(safe_redirect_next(Some("https://evil.com".into())), "/app");
    assert_eq!(safe_redirect_next(None), "/app");
    assert_eq!(safe_next(Some(&"/p".to_string())), "/p");
    assert_eq!(safe_next(Some(&"p".to_string())), "");
    assert_eq!(boardtask::features::auth::resend_verification::safe_redirect_next(Some("//x".into())), "");
}

#[test]
fn check_email_page_fields() {
    let t = check_email_page(APP_NAME, None, Some(&"1".to_string()), Some(&"/a b".to_string()));
    assert_eq!(t.email, "your email");
    assert!(t.sent);
    assert_eq!(t.next, "/a b");
    assert_eq!(t.login_url, "/login?next=%2Fa%20b");
    let t = check_email_page(APP_NAME, Some(&"x@y.z".to_string()), Some(&"0".to_string()), None);
    assert!(!t.sent);
    assert_eq!(t.login_url, "/login");
    assert_eq!(VerifyError::from(AppError::Auth("m".into())).message(), "m");
    assert_eq!(VerifyError::from(AppError::Internal).message(), "An error occurred. Please try again.");
}

#[test]
fn resend_cooldown_is_per_address_and_per_minute() {
    let mut c = ResendCooldown::new();
    assert!(c.check_and_record("a@x.io", 0));
    assert!(!c.check_and_record("a@x.io", RESEND_COOLDOWN_NANOS - 1));
    assert!(c.check_and_record("b@x.io", 5));
    assert!(c.check_and_record("a@x.io", RESEND_COOLDOWN_NANOS));
    assert!(!c.check_and_record("a@x.io", RESEND_COOLDOWN_NANOS + 1));
    assert!(!c.check_and_record("b@x.io", 1));
}

#[test]
fn resend_links() {
    assert_eq!(build_verify_link("http://h", "T", ""), "http://h/verify-email?token=T");
    assert_eq!(build_verify_link("http://h", "T", "/n?x"), "http://h/verify-email?token=T&next=%2Fn%3Fx");
    assert_eq!(build_check_email_redirect("a+b@c.d", true, ""), "/check-email?email=a%2Bb%40c.d&sent=1");
    assert_eq!(build_check_email_redirect("a@c.d", false, "/n"), "/check-email?email=a%40c.d&next=%2Fn");
}

#[test]
fn login_checks() {
    let pw = Password::new("Secret123".to_string()).unwrap();
    let hash = HashedPassword::from_password(&pw).unwrap();
    let verified = user("a@b.co", hash.as_str(), true);
    assert!(check_credentials(Ok(Some(verified.clone())), &pw).is_ok());
    let wrong = Password::for_verification("Secret124".into());
    let e = check_credentials(Ok(Some(verified)), &wrong).unwrap_err();
    assert_eq!(e.into_response().message, "Invalid email or password");
    let e = check_credentials(Ok(None), &pw).unwrap_err();
    assert_eq!(e.into_response().message, "Invalid email or password");
    let unverified = user("a@b.co", hash.as_str(), false);
    let e = check_credentials(Ok(Some(unverified)), &pw).unwrap_err();
    let email = Email::new("a+1@b.co".into()).unwrap();
    let page = login_failure_page(APP_NAME, &email, e);
    assert_eq!(page.error, UNVERIFIED_MSG);
    assert_eq!(page.resend_verification_url, "/resend-verification?email=a%2B1%40b.co");
    let page = login_failure_page(APP_NAME, &email, AppError::Internal);
    assert_eq!((page.error.as_str(), page.resend_verification_url.as_str()), ("Internal server error", ""));
    let form = LoginForm { email: "nope".into(), password: "x".into() };
    assert_eq!(check_login_form(APP_NAME, &form).unwrap_err().error, "Invalid form data");
    let form = LoginForm { email: "a@b.co".into(), password: String::new() };
    assert_eq!(check_login_form(APP_NAME, &form).unwrap_err().error, "Invalid form data");
}

#[test]
fn signup_checks() {
    let form = SignupForm { email: "a@b.co".into(), password: "Password1".into(), confirm_password: "Password2".into() };
    assert_eq!(check_signup_form(APP_NAME, &form).unwrap_err().error, "Invalid form data");
    let form = SignupForm { email: "a@b.co".into(), password: "password1".into(), confirm_password: "password1".into() };
    assert_eq!(check_signup_form(APP_NAME, &form).unwrap_err().error, "Password must contain uppercase, lowercase, and digit");
    let form = SignupForm { email: "A@B.co".into(), password: "Password1".into(), confirm_password: "Password1".into() };
    let (e, _) = check_signup_form(APP_NAME, &form).unwrap();
    assert_eq!(e.as_str(), "a@b.co");
    assert!(check_email_available(Ok(None)).is_ok());
    let e = check_email_available(Ok(Some(user("a@b.co", "", true)))).unwrap_err();
    assert_eq!(e.into_response().message, "Unable to create account. If you already have an account, please log in.");
    assert_eq!(signup_verify_url("http://h//", "T"), "http://h/verify-email?token=T");
}

#[test]
fn reset_checks() {
    let id = UserId::new();
    let form = ResetPasswordForm { token: "tok".into(), password: "Password1".into(), confirm_password: "Password1".into() };
    let (u, h) = plan_reset(APP_NAME, &form, Ok(Some(id))).unwrap();
    assert_eq!(u.as_str(), id.as_str());
    assert!(h.verify(&Password::for_verification("Password1".into())).is_ok());
    let t = plan_reset(APP_NAME, &form, Ok(None)).unwrap_err();
    assert_eq!((t.error.as_str(), t.token.as_str()), ("Invalid or expired reset token", "tok"));
    let form = ResetPasswordForm { token: "tok".into(), password: "short".into(), confirm_password: "short".into() };
    assert_eq!(plan_reset(APP_NAME, &form, Ok(Some(id))).unwrap_err().error, "Invalid form data");
    assert_eq!(reset_link("http://h", "ab"), "http://h/reset-password?token=ab");
}

#[test]
fn account_checks() {
    let sid = UserId::new().as_str();
    let form = ChangePasswordForm { current_password: "x".into(), new_password: "password1".into(), confirm_password: "password1".into() };
    assert_eq!(plan_change_password(&form, &sid).unwrap_err(), error_redirect("Password must contain uppercase, lowercase, and digit"));
    let form = ChangePasswordForm { current_password: String::new(), new_password: "Password1".into(), confirm_password: "Password1".into() };
    assert_eq!(plan_change_password(&form, &sid).unwrap_err(), "/app/account?error=New%20password%20and%20confirmation%20must%20match%20and%20be%208%E2%80%93128%20characters.");
    let form = ChangePasswordForm { current_password: "x".into(), new_password: "Password1".into(), confirm_password: "Password1".into() };
    assert_eq!(plan_change_password(&form, "bad").unwrap_err(), "/login");
    let (_, h) = plan_change_password(&form, &sid).unwrap();
    let stored = user("a@b.co", h.as_str(), true);
    assert!(check_current_password(Ok(Some(stored.clone())), &Password::for_verification("Password1".into())).is_ok());
    assert_eq!(check_current_password(Ok(Some(stored)), &Password::for_verification("x".into())).unwrap_err(), error_redirect("Current password is wrong."));
    assert_eq!(check_current_password(Ok(None), &Password::for_verification("x".into())).unwrap_err(), "/login");
    let (_, f, l) = plan_update_name(&UpdateNameForm { first_name: " Ada ".into(), last_name: "L".into() }, &sid).unwrap();
    assert_eq!((f.as_str(), l.as_str()), ("Ada", "L"));
    assert_eq!(plan_update_name(&UpdateNameForm { first_name: "  ".into(), last_name: "L".into() }, &sid).unwrap_err(), error_redirect("First and last name cannot be empty."));
    assert_eq!(plan_update_name(&UpdateNameForm { first_name: String::new(), last_name: "L".into() }, &sid).unwrap_err(), error_redirect("First and last name are required (1–100 characters each)."));
}

#[test]
fn not_found_answers_json_to_api_clients() {
    assert!(wants_json(Some("text/html, application/json"), "/x"));
    assert!(wants_json(None, "/api/whatever"));
    assert!(!wants_json(Some("text/html"), "/apix"));
    assert!(!wants_json(None, "/"));
}

#[test]
fn members_are_listed_in_order() {
    let rows = vec![MemberWithEmail {
        user_id: "u".into(),
        email: "e@x.io".into(),
        first_name: "F".into(),
        last_name: "L".into(),
        profile_image_url: None,
        role: "owner".into(),
    }];
    let row = boardtask::features::organization::settings::member_row(&rows[0]);
    assert_eq!((row.display_name.as_str(), row.initials.as_str(), row.role_display.as_str(), row.avatar_url.as_str()), ("F L", "FL", "Owner", ""));
    let r = boardtask::features::graph::get_project_members::members_response(rows);
    assert_eq!(r.members.len(), 1);
    assert_eq!(r.members[0].email, "e@x.io");
}

#[test]
fn config_from_environment_values() {
    let c = Config::from_env_values(Some("sqlite::memory:".into()), Some("http://h///".into()), None, None, None, Some("+25".into()), None, None).unwrap();
    assert_eq!(c.smtp_port, 25);
    assert_eq!(c.app_url_base(), "http://h");
    assert_eq!(c.mail_adapter, "console");
    assert_eq!(Config::from_env_values(None, None, None, None, None, None, None, None).unwrap_err(), "DATABASE_URL must be set in .env");
    assert_eq!(Config::from_env_values(Some("d".into()), None, None, None, None, Some("70000".into()), None, None).unwrap_err(), "SMTP_PORT must be a valid port number");
    let t = Config::for_tests();
    assert_eq!((t.database_url.as_str(), t.smtp_port), ("sqlite::memory:", 587));
}

#[test]
fn resend_answer_does_not_depend_on_the_account() {
    let form = ResendVerificationForm { email: "a@b.co".into(), next: Some("/app".into()) };
    assert_eq!(resend_redirect(&form), "/check-email?email=a%40b.co&next=%2Fapp");
    let unknown: Result<Option<User>, sqlx::Error> = Ok(None);
    let unverified: Result<Option<User>, sqlx::Error> = Ok(Some(user("a@b.co", "h", false)));
    let verified: Result<Option<User>, sqlx::Error> = Ok(Some(user("a@b.co", "h", true)));
    assert!(!should_send_verification(true, &unknown));
    assert!(should_send_verification(true, &unverified));
    assert!(!should_send_verification(true, &verified));
    assert!(!should_send_verification(false, &unverified));
    let unsafe_next = ResendVerificationForm { email: "a@b.co".into(), next: Some("//evil".into()) };
    assert_eq!(resend_redirect(&unsafe_next), "/check-email?email=a%40b.co");
}

#[test]
fn membership_steps() {
    assert!(blocked_by_membership(Ok(true)));
    assert!(!blocked_by_membership(Ok(false)));
    assert!(!blocked_by_membership(Err(sqlx::Error::RowNotFound)));
    assert!(!needs_membership(Ok(true)));
    assert!(needs_membership(Ok(false)));
    assert!(needs_membership(Err(sqlx::Error::RowNotFound)));
    let org = boardtask::domain::OrganizationId::new().as_str();
    assert_eq!(pending_invite_to_cancel(Ok(Some(invite("a@b.co", &org)))), Some("inv1".to_string()));
    assert_eq!(pending_invite_to_cancel(Ok(None)), None);
    assert_eq!(pending_invite_to_cancel(Err(sqlx::Error::RowNotFound)), None);
}

#[test]
fn failure_messages_of_the_invitation_flows() {
    assert_eq!(invite_failure_message(InviteFailure::CreateCancelPending), "Failed to update invite.");
    assert_eq!(invite_failure_message(InviteFailure::CreateInsert), "Failed to create invite.");
    assert_eq!(invite_failure_message(InviteFailure::CreateSendEmail), "Invite created but we couldn't send the email. Please try again.");
    assert_eq!(invite_failure_message(InviteFailure::ResendDelete), "Failed to resend invite.");
    assert_eq!(invite_failure_message(InviteFailure::ResendSendEmail), "Invite resent but email could not be sent. Please try again.");
    assert_eq!(invite_failure_message(InviteFailure::RevokeDelete), "Failed to revoke invite.");
    assert_eq!(invite_failure_redirect(InviteFailure::OrganizationMissing), "/app/settings/organization?error=Organization%20not%20found.");
    assert_eq!(confirm_write_failure(ConfirmWrite::Begin), "Database error");
    assert_eq!(confirm_write_failure(ConfirmWrite::AddMember), "Failed to add to organization");
    assert_eq!(confirm_write_failure(ConfirmWrite::DeleteInvite), "Failed to complete invite");
    assert_eq!(confirm_write_failure(ConfirmWrite::CreateSession), "Failed to create session");
}

#[test]
fn reset_writes_run_in_order_and_stop_at_a_failure() {
    assert_eq!(reset_next(ResetWrite::Begin, true), ResetNext::Write(ResetWrite::UpdatePassword));
    assert_eq!(reset_next(ResetWrite::UpdatePassword, true), ResetNext::Write(ResetWrite::DeleteToken));
    assert_eq!(reset_next(ResetWrite::DeleteToken, true), ResetNext::Write(ResetWrite::Commit));
    assert_eq!(reset_next(ResetWrite::Commit, true), ResetNext::Done);
    assert_eq!(reset_next(ResetWrite::DeleteToken, false), ResetNext::Fail(ResetWrite::DeleteToken));
    assert_eq!(reset_next(ResetWrite::Commit, false), ResetNext::Fail(ResetWrite::Commit));
}
