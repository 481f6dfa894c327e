//! Tests of the validated value types.

use auth_service::domain::Email;
use auth_service::domain::LoginAttemptId;
use auth_service::domain::Password;
use auth_service::domain::TwoFACode;
use auth_service::domain::User;

#[test]
fn email_parse_accepts_address_with_at() {
    let email = Email::parse("a@b.com".to_owned()).unwrap();
    assert_eq!(email.as_str(), "a@b.com");
}

#[test]
fn email_parse_rejects_address_without_at() {
    let r = Email::parse("ab.com".to_owned());
    assert!(matches!(r, Err(m) if m == "not valid email - missing @"));
}

#[test]
fn email_parse_rejects_empty_string() {
    assert!(Email::parse(String::new()).is_err());
}

#[test]
fn password_parse_rejects_short_password() {
    let r = Password::parse("short".to_owned());
    assert!(matches!(r, Err(m) if m == "Password too short"));
}

#[test]
fn password_parse_accepts_eight_bytes_or_more() {
    let password = Password::parse("password123".to_owned()).unwrap();
    assert_eq!(password.as_str(), "password123");

    // Exactly eight bytes is the boundary.
    assert!(Password::parse("12345678".to_owned()).is_ok());
    assert!(Password::parse("1234567".to_owned()).is_err());

    // The bound counts bytes: seven characters whose encoding is
    // eight bytes long pass.
    assert!(Password::parse("p\u{e4}ss123".to_owned()).is_ok());
}

#[test]
fn user_new_carries_the_given_fields() {
    let email = Email::parse("a@b.com".to_owned()).unwrap();
    let password = Password::parse("password123".to_owned()).unwrap();
    let user = User::new(email.clone(), password.clone(), true);

    assert_eq!(user.email, email);
    assert_eq!(user.password, password);
    assert!(user.require_2fa);
}

#[test]
fn login_attempt_id_parse_rejects_empty() {
    assert!(LoginAttemptId::parse(String::new()).is_err());
    let id = LoginAttemptId::parse("attempt-1".to_owned()).unwrap();
    assert_eq!(id.as_str(), "attempt-1");
}

#[test]
fn two_fa_code_parse_demands_six_digits() {
    let code = TwoFACode::parse("123456".to_owned()).unwrap();
    assert_eq!(code.as_str(), "123456");

    assert!(TwoFACode::parse("12345".to_owned()).is_err());
    assert!(TwoFACode::parse("1234567".to_owned()).is_err());
    assert!(TwoFACode::parse("12345a".to_owned()).is_err());
    assert!(TwoFACode::parse(String::new()).is_err());
}

#[test]
fn equality_follows_content() {
    let a = Email::parse("a@b.com".to_owned()).unwrap();
    let b = Email::parse("a@b.com".to_owned()).unwrap();
    let c = Email::parse("c@d.com".to_owned()).unwrap();
    assert_eq!(a, b);
    assert_ne!(a, c);

    let p = Password::parse("password123".to_owned()).unwrap();
    let q = Password::parse("password124".to_owned()).unwrap();
    assert_ne!(p, q);
}
