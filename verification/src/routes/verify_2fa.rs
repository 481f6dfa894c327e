//! Two-factor verification: look up the pending challenge and demand
//! an exact match on both the attempt identifier and the code, with
//! no partial credit; a match consumes the challenge.

use vstd::prelude::*;
use crate::app_state::AppModel;
use crate::app_state::AppState;
use crate::domain::email::email_ok;
use crate::domain::email::Email;
use crate::domain::errors::AuthAPIError;
use crate::domain::two_fa::login_attempt_id_ok;
use crate::domain::two_fa::two_fa_code_ok;
use crate::domain::two_fa::LoginAttemptId;
use crate::domain::two_fa::TwoFACode;

verus! {

/// A verification request, already decoded from the wire.
#[derive(Debug)]
pub struct Verify2FARequest {
    pub email: String,
    pub login_attempt_id: String,
    pub two_fa_code: String,
}

/// The image of a verification result: the authenticated email by
/// view, error unchanged.
pub open spec fn verify_2fa_result_view(r: Result<Email, AuthAPIError>) -> Result<
    Seq<char>,
    AuthAPIError,
> {
    match r {
        Ok(e) => Ok(e@),
        Err(x) => Err(x),
    }
}

/// What verification returns: malformed fields are rejected first;
/// then a missing challenge, a wrong attempt identifier and a wrong
/// code all surface as `IncorrectCredentials`; an exact match on both
/// stored fields authenticates the email.
pub open spec fn spec_verify_2fa_result(
    s: AppModel,
    e: Seq<char>,
    attempt_id: Seq<char>,
    code: Seq<char>,
) -> Result<Seq<char>, AuthAPIError> {
    if !email_ok(e) || !login_attempt_id_ok(attempt_id) || !two_fa_code_ok(code) {
        Err(AuthAPIError::InvalidCredentials)
    } else if !s.challenges.contains_key(e) {
        Err(AuthAPIError::IncorrectCredentials)
    } else if s.challenges[e].attempt_id != attempt_id || s.challenges[e].code != code {
        Err(AuthAPIError::IncorrectCredentials)
    } else {
        Ok(e)
    }
}

/// The state after verification: exactly on a match the challenge is
/// destroyed, so it cannot be replayed; nothing else moves.
pub open spec fn spec_verify_2fa_next(
    s: AppModel,
    e: Seq<char>,
    attempt_id: Seq<char>,
    code: Seq<char>,
) -> AppModel {
    if spec_verify_2fa_result(s, e, attempt_id, code) is Ok {
        AppModel {
            users: s.users,
            challenges: s.challenges.remove(e),
            banned_tokens: s.banned_tokens,
        }
    } else {
        s
    }
}

/// Drives a verification request against the shared state; on success
/// the returned email is the account a session token is owed for.
pub fn verify_2fa(state: &mut AppState, request: Verify2FARequest) -> (r: Result<
    Email,
    AuthAPIError,
>)
    requires
        old(state).wf(),
    ensures
        final(state).wf(),
        verify_2fa_result_view(r) == spec_verify_2fa_result(
            old(state)@,
            request.email@,
            request.login_attempt_id@,
            request.two_fa_code@,
        ),
        final(state)@ == spec_verify_2fa_next(
            old(state)@,
            request.email@,
            request.login_attempt_id@,
            request.two_fa_code@,
        ),
{
    let email = match Email::parse(request.email) {
        Ok(email) => email,
        Err(_) => { return Err(AuthAPIError::InvalidCredentials) },
    };

    let login_attempt_id = match LoginAttemptId::parse(request.login_attempt_id) {
        Ok(attempt_id) => attempt_id,
        Err(_) => { return Err(AuthAPIError::InvalidCredentials) },
    };

    let two_fa_code = match TwoFACode::parse(request.two_fa_code) {
        Ok(code) => code,
        Err(_) => { return Err(AuthAPIError::InvalidCredentials) },
    };

    let two_fa_tuple = match state.two_fa_code_store.get_code(&email) {
        Ok(code) => code,
        Err(_) => { return Err(AuthAPIError::IncorrectCredentials) },
    };

    if !(two_fa_tuple.0 == login_attempt_id) || !(two_fa_tuple.1 == two_fa_code) {
        return Err(AuthAPIError::IncorrectCredentials);
    }

    if state.two_fa_code_store.remove_code(&email).is_err() {
        return Err(AuthAPIError::UnexpectedError);
    }

    Ok(email)
}

} // verus!
