//! Logout: revoke the caller's session token. The caller presents the
//! token from its stored session reference, together with the verdict
//! of the external token service's signature check; this core adds the
//! registry's own test, so a token revoked once can never pass again.

use vstd::prelude::*;
use crate::app_state::AppModel;
use crate::app_state::AppState;
use crate::domain::errors::AuthAPIError;

verus! {

/// The image of an optional raw token.
pub open spec fn token_view(t: Option<String>) -> Option<Seq<char>> {
    match t {
        Some(s) => Some(s@),
        None => None,
    }
}

/// What logout returns: no token is `MissingToken`; a token the
/// external check rejects, or one already revoked, is `InvalidToken`;
/// any other token is revoked now.
pub open spec fn spec_logout_result(
    s: AppModel,
    token: Option<Seq<char>>,
    token_valid: bool,
) -> Result<(), AuthAPIError> {
    match token {
        None => Err(AuthAPIError::MissingToken),
        Some(t) => {
            if !token_valid {
                Err(AuthAPIError::InvalidToken)
            } else if s.banned_tokens.contains(t) {
                Err(AuthAPIError::InvalidToken)
            } else {
                Ok(())
            }
        },
    }
}

/// The state after logout: exactly on success the token joins the
/// revoked registry, permanently; nothing else moves.
pub open spec fn spec_logout_next(
    s: AppModel,
    token: Option<Seq<char>>,
    token_valid: bool,
) -> AppModel {
    if spec_logout_result(s, token, token_valid) is Ok {
        AppModel {
            users: s.users,
            challenges: s.challenges,
            banned_tokens: s.banned_tokens.insert(token->0),
        }
    } else {
        s
    }
}

/// Drives a logout request against the shared state. `token` is the
/// session token of the caller's stored session reference, if any;
/// `token_valid` is the verdict of the external token service on its
/// signature, which this core consumes as given.
pub fn logout(state: &mut AppState, token: Option<String>, token_valid: bool) -> (r: Result<
    (),
    AuthAPIError,
>)
    requires
        old(state).wf(),
    ensures
        final(state).wf(),
        r == spec_logout_result(old(state)@, token_view(token), token_valid),
        final(state)@ == spec_logout_next(old(state)@, token_view(token), token_valid),
{
    let token = match token {
        Some(token) => token,
        None => { return Err(AuthAPIError::MissingToken) },
    };

    if !token_valid {
        return Err(AuthAPIError::InvalidToken);
    }

    match state.banned_token_store.contains(token.clone()) {
        Ok(true) => { return Err(AuthAPIError::InvalidToken) },
        Ok(false) => {},
        Err(_) => { return Err(AuthAPIError::UnexpectedError) },
    }

    match state.banned_token_store.store(token) {
        Ok(_) => Ok(()),
        Err(_) => Err(AuthAPIError::UnexpectedError),
    }
}

} // verus!
