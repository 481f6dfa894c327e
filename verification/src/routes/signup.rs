//! Signup: validate the raw credentials, then add the account in the
//! directory's single check-and-insert critical section.

use vstd::prelude::*;
use crate::app_state::AppModel;
use crate::app_state::AppState;
use crate::domain::email::email_ok;
use crate::domain::email::Email;
use crate::domain::errors::AuthAPIError;
use crate::domain::password::password_ok;
use crate::domain::password::Password;
use crate::domain::user::User;
use crate::domain::user::UserView;

verus! {

/// A signup request, already decoded from the wire.
#[derive(Debug)]
pub struct SignupRequest {
    pub email: String,
    pub password: String,
    pub require_2fa: bool,
}

/// The message body a transport layer sends back on success.
#[derive(Debug)]
pub struct SignupResponse {
    pub message: String,
}

/// What signup returns: malformed fields are rejected before any
/// store is touched, then an existing account for the email wins over
/// the insert.
pub open spec fn spec_signup_result(s: AppModel, e: Seq<char>, p: Seq<char>) -> Result<
    (),
    AuthAPIError,
> {
    if !email_ok(e) || !password_ok(p) {
        Err(AuthAPIError::InvalidCredentials)
    } else if s.users.contains_key(e) {
        Err(AuthAPIError::UserAlreadyExists)
    } else {
        Ok(())
    }
}

/// The state after signup: exactly the new account is added, and only
/// on success.
pub open spec fn spec_signup_next(
    s: AppModel,
    e: Seq<char>,
    p: Seq<char>,
    require_2fa: bool,
) -> AppModel {
    if spec_signup_result(s, e, p) is Ok {
        AppModel {
            users: s.users.insert(e, (UserView { email: e, password: p, require_2fa })),
            challenges: s.challenges,
            banned_tokens: s.banned_tokens,
        }
    } else {
        s
    }
}

/// Registers an account: parse the email and the password, construct
/// the record, and add it unless the email is taken.
pub fn signup(state: &mut AppState, request: SignupRequest) -> (r: Result<(), AuthAPIError>)
    requires
        old(state).wf(),
    ensures
        final(state).wf(),
        r == spec_signup_result(old(state)@, request.email@, request.password@),
        final(state)@ == spec_signup_next(
            old(state)@,
            request.email@,
            request.password@,
            request.require_2fa,
        ),
{
    let email = match Email::parse(request.email) {
        Ok(email) => email,
        Err(_) => { return Err(AuthAPIError::InvalidCredentials) },
    };
    let password = match Password::parse(request.password) {
        Ok(password) => password,
        Err(_) => { return Err(AuthAPIError::InvalidCredentials) },
    };

    let user = User::new(email, password, request.require_2fa);

    if state.user_store.get_user(&user.email).is_ok() {
        return Err(AuthAPIError::UserAlreadyExists);
    }

    match state.user_store.add_user(user) {
        Ok(_) => Ok(()),
        Err(_) => Err(AuthAPIError::UnexpectedError),
    }
}

} // verus!
