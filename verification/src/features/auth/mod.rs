//! Signing up, logging in and out, verifying emails and resetting passwords.
pub mod verify_email;
pub mod resend_verification;
pub mod password_reset;
pub mod login;
pub mod signup;
pub mod service;
