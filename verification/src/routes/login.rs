//! Login: validate the raw credentials, check them against the
//! directory, then either authenticate directly or issue a two-factor
//! challenge.
//!
//! A failed lookup and a wrong password are deliberately collapsed
//! into the single outcome `IncorrectCredentials`, so a caller cannot
//! probe which emails have accounts. The fresh attempt identifier and
//! code are drawn outside this core and handed in; the caller sends
//! the code over the notifier channel after the challenge is stored,
//! and the code is never part of the outcome.

use vstd::prelude::*;
use crate::app_state::AppModel;
use crate::app_state::AppState;
use crate::domain::email::email_ok;
use crate::domain::email::Email;
use crate::domain::errors::AuthAPIError;
use crate::domain::password::password_ok;
use crate::domain::password::Password;
use crate::domain::two_fa::LoginAttemptId;
use crate::domain::two_fa::TwoFACode;
use crate::services::hashmap_two_fa_code_store::ChallengeView;
use crate::services::hashmap_user_store::spec_validate_user;

verus! {

/// A login request, already decoded from the wire.
#[derive(Debug)]
pub struct LoginRequest {
    pub email: String,
    pub password: String,
}

/// The message body a transport layer sends back on a successful
/// login: nothing beyond the status for a direct authentication, or
/// the pending challenge's attempt identifier.
#[derive(Debug)]
pub enum LoginResponse {
    RegularAuth,
    TwoFactorAuth(TwoFactorAuthResponse),
}

/// The body returned when an account requires the two-factor
/// challenge. The code is never part of it.
#[derive(Debug)]
pub struct TwoFactorAuthResponse {
    pub message: String,
    pub login_attempt_id: String,
}

impl LoginResponse {
    /// Shapes a login decision into the message body: a direct
    /// authentication carries nothing, a pending challenge carries its
    /// attempt identifier and a fixed notice.
    pub fn of_outcome(outcome: &LoginOutcome) -> (r: LoginResponse)
        ensures
            outcome is Authenticated ==> r is RegularAuth,
            outcome matches LoginOutcome::ChallengePending { login_attempt_id } ==> (r matches
                LoginResponse::TwoFactorAuth(t) && t.login_attempt_id@ == login_attempt_id@
                && t.message@ == "2FA required"@),
    {
        match outcome {
            LoginOutcome::Authenticated { .. } => LoginResponse::RegularAuth,
            LoginOutcome::ChallengePending { login_attempt_id } => LoginResponse::TwoFactorAuth(
                TwoFactorAuthResponse {
                    message: "2FA required".to_owned(),
                    login_attempt_id: login_attempt_id.as_str().to_owned(),
                },
            ),
        }
    }
}

/// The decision a successful login ends in: either a session token is
/// owed to the account's email, or a challenge is pending and only its
/// attempt identifier goes back to the caller.
#[derive(Debug)]
pub enum LoginOutcome {
    Authenticated { email: Email },
    ChallengePending { login_attempt_id: LoginAttemptId },
}

/// Mathematical image of a login decision.
pub enum LoginOutcomeView {
    Authenticated { email: Seq<char> },
    ChallengePending { login_attempt_id: Seq<char> },
}

impl View for LoginOutcome {
    type V = LoginOutcomeView;

    open spec fn view(&self) -> LoginOutcomeView {
        match self {
            LoginOutcome::Authenticated { email } => LoginOutcomeView::Authenticated {
                email: email@,
            },
            LoginOutcome::ChallengePending { login_attempt_id } => LoginOutcomeView::ChallengePending {
                login_attempt_id: login_attempt_id@,
            },
        }
    }
}

/// The image of a login result: outcome by view, error unchanged.
pub open spec fn login_result_view(r: Result<LoginOutcome, AuthAPIError>) -> Result<
    LoginOutcomeView,
    AuthAPIError,
> {
    match r {
        Ok(o) => Ok(o@),
        Err(e) => Err(e),
    }
}

/// What login returns: malformed fields are rejected first; then both
/// a missing account and a password mismatch surface as
/// `IncorrectCredentials`; then the account's two-factor flag decides
/// between direct authentication and a pending challenge.
pub open spec fn spec_login_result(
    s: AppModel,
    e: Seq<char>,
    p: Seq<char>,
    attempt_id: Seq<char>,
) -> Result<LoginOutcomeView, AuthAPIError> {
    if !email_ok(e) || !password_ok(p) {
        Err(AuthAPIError::InvalidCredentials)
    } else if spec_validate_user(s.users, e, p) is Err {
        Err(AuthAPIError::IncorrectCredentials)
    } else if s.users[e].require_2fa {
        Ok(LoginOutcomeView::ChallengePending { login_attempt_id: attempt_id })
    } else {
        Ok(LoginOutcomeView::Authenticated { email: e })
    }
}

/// The state after login: exactly when a challenge is issued, it
/// replaces any pending challenge for that email; nothing else moves.
pub open spec fn spec_login_next(
    s: AppModel,
    e: Seq<char>,
    p: Seq<char>,
    attempt_id: Seq<char>,
    code: Seq<char>,
) -> AppModel {
    if spec_login_result(s, e, p, attempt_id) matches Ok(LoginOutcomeView::ChallengePending {
        ..
    }) {
        AppModel {
            users: s.users,
            challenges: s.challenges.insert(e, (ChallengeView { attempt_id, code })),
            banned_tokens: s.banned_tokens,
        }
    } else {
        s
    }
}

/// The two-factor branch: records the fresh challenge for the account
/// (replacing any pending one) and hands the attempt identifier back.
/// The caller still owes the code to the notifier channel; a delivery
/// failure leaves the challenge in place and the caller retries login.
fn handle_2fa(
    state: &mut AppState,
    email: &Email,
    attempt_id: LoginAttemptId,
    code: TwoFACode,
) -> (r: Result<LoginOutcome, AuthAPIError>)
    requires
        old(state).wf(),
    ensures
        final(state).wf(),
        r == Ok::<LoginOutcome, AuthAPIError>(
            LoginOutcome::ChallengePending { login_attempt_id: attempt_id },
        ),
        final(state).user_store == old(state).user_store,
        final(state).banned_token_store == old(state).banned_token_store,
        final(state).two_fa_code_store@ == old(state).two_fa_code_store@.insert(
            email@,
            (ChallengeView { attempt_id: attempt_id@, code: code@ }),
        ),
{
    if state.two_fa_code_store.add_code(email.clone(), attempt_id.clone(), code).is_err() {
        return Err(AuthAPIError::UnexpectedError);
    }

    Ok(LoginOutcome::ChallengePending { login_attempt_id: attempt_id })
}

/// The direct branch: the caller is authenticated as the account's
/// email and a session token is owed for it.
fn handle_no_2fa(email: &Email) -> (r: Result<LoginOutcome, AuthAPIError>)
    ensures
        r == Ok::<LoginOutcome, AuthAPIError>(LoginOutcome::Authenticated { email: *email }),
{
    Ok(LoginOutcome::Authenticated { email: email.clone() })
}

/// Drives a login request against the shared state. `attempt_id` and
/// `code` are the fresh values to record if a challenge is issued.
pub fn login(
    state: &mut AppState,
    request: LoginRequest,
    attempt_id: LoginAttemptId,
    code: TwoFACode,
) -> (r: Result<LoginOutcome, AuthAPIError>)
    requires
        old(state).wf(),
    ensures
        final(state).wf(),
        login_result_view(r) == spec_login_result(
            old(state)@,
            request.email@,
            request.password@,
            attempt_id@,
        ),
        final(state)@ == spec_login_next(
            old(state)@,
            request.email@,
            request.password@,
            attempt_id@,
            code@,
        ),
{
    let email = match Email::parse(request.email) {
        Ok(email) => email,
        Err(_) => { return Err(AuthAPIError::InvalidCredentials) },
    };

    let password = match Password::parse(request.password) {
        Ok(password) => password,
        Err(_) => { return Err(AuthAPIError::InvalidCredentials) },
    };

    if state.user_store.validate_user(&email, &password).is_err() {
        return Err(AuthAPIError::IncorrectCredentials);
    }

    let user = match state.user_store.get_user(&email) {
        Ok(user) => user,
        Err(_) => { return Err(AuthAPIError::UnexpectedError) },
    };

    match user.require_2fa {
        true => handle_2fa(state, &email, attempt_id, code),
        false => handle_no_2fa(&user.email),
    }
}

} // verus!
