use boardtask::domain::{Email, EmailError, HashedPassword, OrganizationId, OrganizationRole, Password, PasswordError, ProfileImageUrl, ProjectViewMode, UserId};
use boardtask::domain::validation_helpers::{check_https_scheme, check_image_extension};

#[test]
fn valid_email() {
    let email = Email::new("test@example.com".to_string()).unwrap();
    assert_eq!(email.as_str(), "test@example.com");
}

#[test]
fn email_trimmed_and_lowercased() {
    let email = Email::new("  TeSt@ExAmPlE.CoM  ".to_string()).unwrap();
    assert_eq!(email.as_str(), "test@example.com");
}

#[test]
fn invalid_email_format() {
    let result = Email::new("notanemail".to_string());
    assert!(result.is_err());
}

#[test]
fn email_too_long() {
    let long_email = "a".repeat(250) + "@example.com";
    let result = Email::new(long_email);
    assert!(result.is_err());
}

#[test]
fn email_errors_name_their_rule() {
    let long_email = "a".repeat(250) + "@example.com";
    assert_eq!(Email::new(long_email).unwrap_err(), EmailError::TooLong);
    assert_eq!(Email::new("user@localhost".to_string()).unwrap_err(), EmailError::Invalid);
    assert_eq!(EmailError::TooLong.code(), "email_too_long");
    assert_eq!(EmailError::Invalid.message(), "Invalid email address format");
}

#[test]
fn email_of_exactly_254_bytes_is_accepted() {
    let email = "a".repeat(242) + "@example.com";
    assert_eq!(email.len(), 254);
    assert!(Email::new(email).is_ok());
    let email = "a".repeat(243) + "@example.com";
    assert!(Email::new(email).is_err());
}

#[test]
fn email_domain_part_stops_at_second_at() {
    assert!(Email::new("a@b@c.d".to_string()).is_err());
    assert!(Email::new("a@b.c@d".to_string()).is_ok());
}

#[test]
fn valid_password() {
    let password = Password::new("Password1".to_string()).unwrap();
    assert_eq!(password.as_bytes(), b"Password1");
}

#[test]
fn password_too_short() {
    let result = Password::new("short".to_string());
    assert!(result.is_err());
}

#[test]
fn password_too_long() {
    let long_password = "a".repeat(129);
    let result = Password::new(long_password);
    assert!(result.is_err());
}

#[test]
fn weak_password_no_uppercase() {
    let result = Password::new("password1".to_string());
    assert!(result.is_err());
}

#[test]
fn weak_password_no_lowercase() {
    let result = Password::new("PASSWORD1".to_string());
    assert!(result.is_err());
}

#[test]
fn weak_password_no_digit() {
    let result = Password::new("Password".to_string());
    assert!(result.is_err());
}

#[test]
fn password_errors_in_order() {
    assert_eq!(Password::new("short".to_string()).unwrap_err(), PasswordError::TooShort);
    assert_eq!(Password::new("Aa1".repeat(43)).unwrap_err(), PasswordError::TooLong);
    assert_eq!(Password::new("password1".to_string()).unwrap_err(), PasswordError::Weak);
    assert_eq!(PasswordError::TooShort.message(), "Password must be at least 8 characters");
    assert_eq!(PasswordError::Weak.code(), "weak_password");
}

#[test]
fn password_length_is_counted_in_bytes() {
    // Five characters, eight bytes.
    assert_eq!("Ééé1a".len(), 8);
    assert!(Password::new("Ééé1a".to_string()).is_ok());
    assert_eq!(Password::new("Aa1".to_string()).unwrap_err(), PasswordError::TooShort);
}

#[test]
fn hash_and_verify() {
    let password = Password::new("TestPassword123".to_string()).unwrap();
    let hash = HashedPassword::from_password(&password).unwrap();
    assert!(hash.verify(&password).is_ok());
}

#[test]
fn hash_wrong_password() {
    let password = Password::new("TestPassword123".to_string()).unwrap();
    let wrong_password = Password::new("WrongPassword456".to_string()).unwrap();
    let hash = HashedPassword::from_password(&password).unwrap();
    assert!(hash.verify(&wrong_password).is_err());
}

#[test]
fn for_verification_allows_weak_passwords_for_login() {
    assert!(Password::new("password".to_string()).is_err());
    let weak = Password::for_verification("password".to_string());
    let hash = HashedPassword::from_password(&weak).unwrap();
    assert!(hash.verify(&weak).is_ok());
}

#[test]
fn hash_is_a_phc_string_and_round_trips_through_storage() {
    let password = Password::new("TestPassword123".to_string()).unwrap();
    let hash = HashedPassword::from_password(&password).unwrap();
    assert!(hash.as_str().starts_with("$argon2id$"));
    let stored = HashedPassword::from_string(hash.as_str().to_string());
    assert!(stored.verify(&password).is_ok());
    assert!(HashedPassword::from_string("not a hash".to_string()).verify(&password).is_err());
}

#[test]
fn valid_https_image_url() {
    let url = ProfileImageUrl::new("https://example.com/photo.jpg").unwrap();
    assert_eq!(url.as_str(), "https://example.com/photo.jpg");
}

#[test]
fn trims_whitespace() {
    let url = ProfileImageUrl::new("  https://example.com/avatar.png  ").unwrap();
    assert_eq!(url.as_str(), "https://example.com/avatar.png");
}

#[test]
fn rejects_http() {
    let result = ProfileImageUrl::new("http://example.com/photo.jpg");
    assert!(result.is_err());
}

#[test]
fn rejects_non_image_extension() {
    let result = ProfileImageUrl::new("https://example.com/document.pdf");
    assert!(result.is_err());
}

#[test]
fn rejects_empty() {
    let result = ProfileImageUrl::new("");
    assert!(result.is_err());
}

#[test]
fn accepts_webp_and_gif() {
    assert!(ProfileImageUrl::new("https://example.com/a.webp").is_ok());
    assert!(ProfileImageUrl::new("https://example.com/b.gif").is_ok());
}

#[test]
fn profile_image_url_errors_in_order() {
    assert_eq!(ProfileImageUrl::new("   ").unwrap_err(), "Profile image URL cannot be empty.");
    assert_eq!(ProfileImageUrl::new("ftp://x/a.png").unwrap_err(), "URL must use HTTPS.");
    let long = format!("https://example.com/{}.png", "a".repeat(2048));
    assert_eq!(ProfileImageUrl::new(&long).unwrap_err(), "Profile image URL is too long.");
    assert_eq!(ProfileImageUrl::new("https://example.com/a").unwrap_err(), "URL must point to an image.");
}

#[test]
fn image_extension_ignores_query_fragment_and_case() {
    assert!(ProfileImageUrl::new("https://example.com/a.JPG?size=2#top").is_ok());
    assert!(ProfileImageUrl::new("https://example.com/dir.png/file").is_err());
    assert_eq!(check_image_extension("https://x/p.jpeg"), Ok(()));
    assert_eq!(check_image_extension("https://x/p."), Err("URL must point to an image."));
    assert_eq!(check_image_extension("https://x/png"), Err("URL must point to an image."));
    assert_eq!(ProfileImageUrl::new("https://x.com/png").unwrap_err(), "URL must point to an image.");
    assert_eq!(ProfileImageUrl::new("https://x.com/jpeg?a.png").unwrap_err(), "URL must point to an image.");
    assert_eq!(check_https_scheme("https://x"), Ok(()));
    assert_eq!(check_https_scheme("HTTPS://x"), Err("URL must use HTTPS."));
    assert_eq!(ProfileImageUrl::check_length(&"a".repeat(2048)), Ok(()));
}

#[test]
fn generate_new_id() {
    let id1 = UserId::new();
    let id2 = UserId::new();
    assert_ne!(id1.as_str(), id2.as_str());
}

#[test]
fn parse_valid_ulid() {
    let original = UserId::new();
    let parsed = UserId::from_string(&original.as_str()).unwrap();
    assert_eq!(original.as_str(), parsed.as_str());
}

#[test]
fn parse_invalid_ulid() {
    let result = UserId::from_string("invalid");
    assert!(result.is_err());
}

#[test]
fn ulid_text_is_crockford_base32() {
    let id = UserId::from_inner(0);
    assert_eq!(id.as_str(), "00000000000000000000000000");
    let id = UserId::from_inner(31 * 32 + 31);
    assert_eq!(id.as_str(), "000000000000000000000000ZZ");
    let org = OrganizationId::from_string("01ARZ3NDEKTSV4RRFFQ69G5FAV").unwrap();
    assert_eq!(org.as_str(), "01ARZ3NDEKTSV4RRFFQ69G5FAV");
    assert_eq!(OrganizationId::from_inner(org.inner()).as_str(), org.as_str());
}

#[test]
fn roles_and_view_modes_round_trip_their_names() {
    for role in [OrganizationRole::Owner, OrganizationRole::Admin, OrganizationRole::Member, OrganizationRole::Viewer] {
        assert_eq!(OrganizationRole::parse(role.as_str()), Ok(role));
        assert_eq!(role.to_string(), role.as_str());
    }
    assert!(OrganizationRole::parse("Owner").is_err());
    assert_eq!(ProjectViewMode::parse("list"), Ok(ProjectViewMode::List));
    assert!(ProjectViewMode::parse("grid").is_err());
    assert_eq!(ProjectViewMode::default(), ProjectViewMode::Graph);
    assert_eq!(ProjectViewMode::List.to_string(), "list");
}

#[test]
fn normalizing_a_stored_email_again_changes_nothing() {
    let email = Email::new("  MiXeD@Example.ORG ".to_string()).unwrap();
    let again = Email::new(email.as_str().to_string()).unwrap();
    assert_eq!(again.as_str(), email.as_str());
}

#[test]
fn a_stored_profile_image_url_is_accepted_unchanged() {
    let url = ProfileImageUrl::new(" https://example.com/a.PNG ").unwrap();
    let again = ProfileImageUrl::new(url.as_str()).unwrap();
    assert_eq!(again.as_str(), url.as_str());
    assert_eq!(url.as_str(), url.as_str().trim());
}

#[test]
fn ascii_letters_and_digits_decide_password_strength() {
    assert!(Password::new("Password1".to_string()).is_ok());
    assert_eq!(Password::new("password1".to_string()).unwrap_err(), PasswordError::Weak);
    assert_eq!(Password::new("PASSWORD1".to_string()).unwrap_err(), PasswordError::Weak);
    assert_eq!(Password::new("Password!".to_string()).unwrap_err(), PasswordError::Weak);
}

#[test]
fn stored_emails_are_trimmed_lowercase_and_stable() {
    let email = Email::new(" \u{212A}ELVIN@Example.io ".to_string()).unwrap();
    assert_eq!(email.as_str(), "kelvin@example.io");
    assert_eq!(email.as_str(), email.as_str().trim());
    assert_eq!(email.as_str(), email.as_str().to_lowercase());
    let again = Email::new(email.as_str().to_string()).unwrap();
    assert_eq!(again.as_str(), email.as_str());
}

#[test]
fn hashing_a_valid_password_succeeds() {
    for pw in ["Password1", "Zz9zzzzz", "Ünïcödé1a"] {
        let p = Password::new(pw.to_string()).unwrap();
        let h = HashedPassword::from_password(&p).unwrap();
        assert!(h.as_str().starts_with("$argon2id$"));
        assert!(h.verify(&p).is_ok());
    }
}
