//! End-to-end scenarios over the orchestrator: signup, the two login
//! flavours, challenge verification and logout.

use auth_service::app_state::AppState;
use auth_service::domain::AuthAPIError;
use auth_service::domain::Email;
use auth_service::domain::LoginAttemptId;
use auth_service::domain::TwoFACode;
use auth_service::routes::login::login;
use auth_service::routes::login::LoginOutcome;
use auth_service::routes::login::LoginRequest;
use auth_service::routes::login::LoginResponse;
use auth_service::routes::logout::logout;
use auth_service::routes::signup::signup;
use auth_service::routes::signup::SignupRequest;
use auth_service::routes::verify_2fa::verify_2fa;
use auth_service::routes::verify_2fa::Verify2FARequest;
use auth_service::services::HashSetBannedTokenStore;
use auth_service::services::HashmapTwoFACodeStore;
use auth_service::services::HashmapUserStore;

fn fresh_state() -> AppState {
    AppState::new(
        HashmapUserStore::new(),
        HashSetBannedTokenStore::new(),
        HashmapTwoFACodeStore::new(),
    )
}

fn signup_request(require_2fa: bool) -> SignupRequest {
    SignupRequest {
        email: "a@b.com".to_owned(),
        password: "password123".to_owned(),
        require_2fa,
    }
}

fn login_request(password: &str) -> LoginRequest {
    LoginRequest { email: "a@b.com".to_owned(), password: password.to_owned() }
}

fn attempt_id(s: &str) -> LoginAttemptId {
    LoginAttemptId::parse(s.to_owned()).unwrap()
}

fn two_fa_code(s: &str) -> TwoFACode {
    TwoFACode::parse(s.to_owned()).unwrap()
}

fn verify_request(id: &str, code: &str) -> Verify2FARequest {
    Verify2FARequest {
        email: "a@b.com".to_owned(),
        login_attempt_id: id.to_owned(),
        two_fa_code: code.to_owned(),
    }
}

#[test]
fn signup_rejects_malformed_credentials() {
    let mut state = fresh_state();

    let r = signup(
        &mut state,
        SignupRequest {
            email: "invalid-email".to_owned(),
            password: "password123".to_owned(),
            require_2fa: false,
        },
    );
    assert_eq!(r, Err(AuthAPIError::InvalidCredentials));

    let r = signup(
        &mut state,
        SignupRequest {
            email: "a@b.com".to_owned(),
            password: "short".to_owned(),
            require_2fa: false,
        },
    );
    assert_eq!(r, Err(AuthAPIError::InvalidCredentials));
}

#[test]
fn signup_rejects_duplicate_email() {
    let mut state = fresh_state();

    assert_eq!(signup(&mut state, signup_request(false)), Ok(()));

    // Same email again, even with another password or flag.
    let r = signup(
        &mut state,
        SignupRequest {
            email: "a@b.com".to_owned(),
            password: "password124".to_owned(),
            require_2fa: true,
        },
    );
    assert_eq!(r, Err(AuthAPIError::UserAlreadyExists));
}

#[test]
fn login_rejects_malformed_credentials() {
    let mut state = fresh_state();
    signup(&mut state, signup_request(false)).unwrap();

    let r = login(
        &mut state,
        LoginRequest { email: "invalid-email".to_owned(), password: "password123".to_owned() },
        attempt_id("attempt-1"),
        two_fa_code("123456"),
    );
    assert!(matches!(r, Err(AuthAPIError::InvalidCredentials)));

    let r = login(
        &mut state,
        LoginRequest { email: "a@b.com".to_owned(), password: "short".to_owned() },
        attempt_id("attempt-1"),
        two_fa_code("123456"),
    );
    assert!(matches!(r, Err(AuthAPIError::InvalidCredentials)));
}

#[test]
fn credential_round_trip_without_2fa() {
    let mut state = fresh_state();
    signup(&mut state, signup_request(false)).unwrap();

    // The right password authenticates directly.
    let r = login(&mut state, login_request("password123"), attempt_id("attempt-1"), two_fa_code("123456"));
    assert!(matches!(
        r,
        Ok(LoginOutcome::Authenticated { email }) if email.as_str() == "a@b.com"
    ));

    // A wrong password and an unknown account are the same outcome.
    let r = login(&mut state, login_request("wrongPassword124"), attempt_id("attempt-1"), two_fa_code("123456"));
    assert!(matches!(r, Err(AuthAPIError::IncorrectCredentials)));

    let r = login(
        &mut state,
        LoginRequest { email: "nobody@b.com".to_owned(), password: "password123".to_owned() },
        attempt_id("attempt-1"),
        two_fa_code("123456"),
    );
    assert!(matches!(r, Err(AuthAPIError::IncorrectCredentials)));
}

#[test]
fn two_fa_round_trip() {
    let mut state = fresh_state();
    signup(&mut state, signup_request(true)).unwrap();

    // Login issues a challenge and returns only the attempt id.
    let r = login(&mut state, login_request("password123"), attempt_id("attempt-1"), two_fa_code("123456"));
    assert!(matches!(
        r,
        Ok(LoginOutcome::ChallengePending { login_attempt_id }) if login_attempt_id.as_str() == "attempt-1"
    ));

    // A wrong code is rejected and does not consume the challenge.
    let r = verify_2fa(&mut state, verify_request("attempt-1", "654321"));
    assert_eq!(r, Err(AuthAPIError::IncorrectCredentials));

    // A wrong attempt id is rejected too, with the right code.
    let r = verify_2fa(&mut state, verify_request("attempt-2", "123456"));
    assert_eq!(r, Err(AuthAPIError::IncorrectCredentials));

    // The exact pair authenticates.
    let r = verify_2fa(&mut state, verify_request("attempt-1", "123456"));
    assert_eq!(r, Ok(Email::parse("a@b.com".to_owned()).unwrap()));

    // The challenge is consumed: the same pair no longer verifies.
    let r = verify_2fa(&mut state, verify_request("attempt-1", "123456"));
    assert_eq!(r, Err(AuthAPIError::IncorrectCredentials));
}

#[test]
fn verify_2fa_rejects_malformed_fields() {
    let mut state = fresh_state();

    let r = verify_2fa(
        &mut state,
        Verify2FARequest {
            email: "invalid-email".to_owned(),
            login_attempt_id: "attempt-1".to_owned(),
            two_fa_code: "123456".to_owned(),
        },
    );
    assert_eq!(r, Err(AuthAPIError::InvalidCredentials));

    let r = verify_2fa(&mut state, verify_request("", "123456"));
    assert_eq!(r, Err(AuthAPIError::InvalidCredentials));

    let r = verify_2fa(&mut state, verify_request("attempt-1", "12x456"));
    assert_eq!(r, Err(AuthAPIError::InvalidCredentials));
}

#[test]
fn verify_2fa_without_pending_challenge_is_rejected() {
    let mut state = fresh_state();
    signup(&mut state, signup_request(true)).unwrap();

    let r = verify_2fa(&mut state, verify_request("attempt-1", "123456"));
    assert_eq!(r, Err(AuthAPIError::IncorrectCredentials));
}

#[test]
fn challenge_supersession() {
    let mut state = fresh_state();
    signup(&mut state, signup_request(true)).unwrap();

    // Two logins in sequence: the second challenge replaces the first.
    login(&mut state, login_request("password123"), attempt_id("attempt-1"), two_fa_code("111111"))
        .unwrap();
    login(&mut state, login_request("password123"), attempt_id("attempt-2"), two_fa_code("222222"))
        .unwrap();

    // The superseded pair no longer verifies.
    let r = verify_2fa(&mut state, verify_request("attempt-1", "111111"));
    assert_eq!(r, Err(AuthAPIError::IncorrectCredentials));

    // The second pair does.
    let r = verify_2fa(&mut state, verify_request("attempt-2", "222222"));
    assert_eq!(r, Ok(Email::parse("a@b.com".to_owned()).unwrap()));
}

#[test]
fn login_response_shape() {
    let outcome = LoginOutcome::Authenticated {
        email: Email::parse("a@b.com".to_owned()).unwrap(),
    };
    assert!(matches!(LoginResponse::of_outcome(&outcome), LoginResponse::RegularAuth));

    let outcome = LoginOutcome::ChallengePending { login_attempt_id: attempt_id("attempt-1") };
    assert!(matches!(
        LoginResponse::of_outcome(&outcome),
        LoginResponse::TwoFactorAuth(t)
            if t.message == "2FA required" && t.login_attempt_id == "attempt-1"
    ));
}

#[test]
fn logout_requires_a_token() {
    let mut state = fresh_state();
    assert_eq!(logout(&mut state, None, true), Err(AuthAPIError::MissingToken));
}

#[test]
fn logout_rejects_invalid_token() {
    let mut state = fresh_state();
    let r = logout(&mut state, Some("invalid".to_owned()), false);
    assert_eq!(r, Err(AuthAPIError::InvalidToken));
}

#[test]
fn logout_idempotence_boundary() {
    let mut state = fresh_state();
    let token = "session_token_123".to_owned();

    // The first logout revokes the token.
    assert_eq!(logout(&mut state, Some(token.clone()), true), Ok(()));

    // The second logout with the same token fails.
    assert_eq!(logout(&mut state, Some(token), true), Err(AuthAPIError::InvalidToken));
}

#[test]
fn revocation_effect() {
    let mut state = fresh_state();
    let token = "session_token_456".to_owned();

    assert_eq!(state.banned_token_store.contains(token.clone()), Ok(false));
    logout(&mut state, Some(token.clone()), true).unwrap();

    // The registry answers every later validation query with membership.
    assert_eq!(state.banned_token_store.contains(token.clone()), Ok(true));

    // So a validation-dependent operation is rejected even when the
    // external token service still accepts the signature.
    assert_eq!(logout(&mut state, Some(token), true), Err(AuthAPIError::InvalidToken));
}
