//! Laws of the authentication state machine, each proved once and for
//! all over the same transition functions that the executable routes
//! are verified against.

use vstd::prelude::*;
use crate::app_state::AppModel;
use crate::domain::email::email_ok;
use crate::domain::errors::AuthAPIError;
use crate::domain::password::password_ok;
use crate::domain::two_fa::login_attempt_id_ok;
use crate::domain::two_fa::two_fa_code_ok;
use crate::routes::login::spec_login_next;
use crate::routes::login::spec_login_result;
use crate::routes::login::LoginOutcomeView;
use crate::routes::logout::spec_logout_next;
use crate::routes::logout::spec_logout_result;
use crate::routes::signup::spec_signup_next;
use crate::routes::signup::spec_signup_result;
use crate::routes::verify_2fa::spec_verify_2fa_next;
use crate::routes::verify_2fa::spec_verify_2fa_result;

verus! {

/// Directory uniqueness: when no account exists for an email, a
/// signup for it succeeds, and from then on every further signup for
/// the same email fails with `UserAlreadyExists` and changes nothing.
/// Since the directory's check-and-insert is one critical section,
/// any number of concurrent signups for one email serialize into such
/// a chain: exactly one succeeds and the rest fail.
pub proof fn lemma_directory_uniqueness(
    s: AppModel,
    e: Seq<char>,
    p1: Seq<char>,
    b1: bool,
    p2: Seq<char>,
    b2: bool,
)
    requires
        email_ok(e),
        password_ok(p1),
        password_ok(p2),
        !s.users.contains_key(e),
    ensures
        spec_signup_result(s, e, p1) == Ok::<(), AuthAPIError>(()),
        spec_signup_result(spec_signup_next(s, e, p1, b1), e, p2) == Err::<(), AuthAPIError>(
            AuthAPIError::UserAlreadyExists,
        ),
        spec_signup_next(spec_signup_next(s, e, p1, b1), e, p2, b2) == spec_signup_next(
            s,
            e,
            p1,
            b1,
        ),
{
}

/// The state after a sequence of signup attempts for one email, first
/// attempt first; each attempt carries its password and two-factor
/// flag.
pub open spec fn run_signups(s: AppModel, e: Seq<char>, attempts: Seq<(Seq<char>, bool)>) -> AppModel
    decreases attempts.len(),
{
    if attempts.len() == 0 {
        s
    } else {
        run_signups(spec_signup_next(s, e, attempts[0].0, attempts[0].1), e, attempts.drop_first())
    }
}

proof fn lemma_signup_chain_stuck(s: AppModel, e: Seq<char>, attempts: Seq<(Seq<char>, bool)>)
    requires
        s.users.contains_key(e),
    ensures
        run_signups(s, e, attempts) == s,
    decreases attempts.len(),
{
    if attempts.len() > 0 {
        assert(spec_signup_next(s, e, attempts[0].0, attempts[0].1) == s);
        lemma_signup_chain_stuck(s, e, attempts.drop_first());
    }
}

/// Directory uniqueness, for any number of calls: of N well-formed
/// signup attempts for one fresh email, serialized in whatever order
/// the directory's critical section admits them, the first succeeds
/// and each of the other N − 1 fails with `UserAlreadyExists`; the
/// final state is the one the single success produced.
pub proof fn lemma_directory_uniqueness_serialized(
    s: AppModel,
    e: Seq<char>,
    attempts: Seq<(Seq<char>, bool)>,
)
    requires
        email_ok(e),
        attempts.len() > 0,
        forall|k: int| 0 <= k < attempts.len() ==> password_ok((#[trigger] attempts[k]).0),
        !s.users.contains_key(e),
    ensures
        spec_signup_result(s, e, attempts[0].0) == Ok::<(), AuthAPIError>(()),
        forall|k: int|
            1 <= k < attempts.len() ==> spec_signup_result(
                run_signups(s, e, attempts.take(k)),
                e,
                attempts[k].0,
            ) == Err::<(), AuthAPIError>(AuthAPIError::UserAlreadyExists),
        run_signups(s, e, attempts) == spec_signup_next(s, e, attempts[0].0, attempts[0].1),
{
    let s1 = spec_signup_next(s, e, attempts[0].0, attempts[0].1);
    assert(s1.users.contains_key(e));
    assert forall|k: int| 1 <= k < attempts.len() implies spec_signup_result(
        run_signups(s, e, attempts.take(k)),
        e,
        attempts[k].0,
    ) == Err::<(), AuthAPIError>(AuthAPIError::UserAlreadyExists) by {
        assert(attempts.take(k)[0] == attempts[0]);
        assert(run_signups(s, e, attempts.take(k)) == run_signups(
            s1,
            e,
            attempts.take(k).drop_first(),
        ));
        lemma_signup_chain_stuck(s1, e, attempts.take(k).drop_first());
    }
    lemma_signup_chain_stuck(s1, e, attempts.drop_first());
}

/// One request of the state machine, at the level of the model: the
/// four transitions with their inputs.
pub enum AuthEvent {
    Signup { e: Seq<char>, p: Seq<char>, require_2fa: bool },
    Login { e: Seq<char>, p: Seq<char>, attempt_id: Seq<char>, code: Seq<char> },
    Verify2FA { e: Seq<char>, attempt_id: Seq<char>, code: Seq<char> },
    Logout { token: Option<Seq<char>>, token_valid: bool },
}

/// The state after one request.
pub open spec fn step(s: AppModel, ev: AuthEvent) -> AppModel {
    match ev {
        AuthEvent::Signup { e, p, require_2fa } => spec_signup_next(s, e, p, require_2fa),
        AuthEvent::Login { e, p, attempt_id, code } => spec_login_next(s, e, p, attempt_id, code),
        AuthEvent::Verify2FA { e, attempt_id, code } => spec_verify_2fa_next(
            s,
            e,
            attempt_id,
            code,
        ),
        AuthEvent::Logout { token, token_valid } => spec_logout_next(s, token, token_valid),
    }
}

/// The state after a sequence of requests, first request first.
pub open spec fn run(s: AppModel, evs: Seq<AuthEvent>) -> AppModel
    decreases evs.len(),
{
    if evs.len() == 0 {
        s
    } else {
        run(step(s, evs[0]), evs.drop_first())
    }
}

/// Accounts and revocations persist: no transition of the state
/// machine removes an account from the directory or a token from the
/// revoked registry.
pub proof fn lemma_registries_monotonic(
    s: AppModel,
    e: Seq<char>,
    t: Seq<char>,
    e1: Seq<char>,
    p1: Seq<char>,
    b1: bool,
    id1: Seq<char>,
    c1: Seq<char>,
    tok: Option<Seq<char>>,
    tv: bool,
)
    requires
        s.users.contains_key(e),
        s.banned_tokens.contains(t),
    ensures
        spec_signup_next(s, e1, p1, b1).users.contains_key(e),
        spec_signup_next(s, e1, p1, b1).banned_tokens.contains(t),
        spec_login_next(s, e1, p1, id1, c1).users.contains_key(e),
        spec_login_next(s, e1, p1, id1, c1).banned_tokens.contains(t),
        spec_verify_2fa_next(s, e1, id1, c1).users.contains_key(e),
        spec_verify_2fa_next(s, e1, id1, c1).banned_tokens.contains(t),
        spec_logout_next(s, tok, tv).users.contains_key(e),
        spec_logout_next(s, tok, tv).banned_tokens.contains(t),
{
}

/// Lifts the persistence of accounts and revocations from one step to
/// a whole run of requests.
pub proof fn lemma_run_monotonic(s: AppModel, e: Seq<char>, t: Seq<char>, evs: Seq<AuthEvent>)
    ensures
        s.users.contains_key(e) ==> run(s, evs).users.contains_key(e),
        s.banned_tokens.contains(t) ==> run(s, evs).banned_tokens.contains(t),
    decreases evs.len(),
{
    if evs.len() > 0 {
        assert(s.users.contains_key(e) ==> step(s, evs[0]).users.contains_key(e));
        assert(s.banned_tokens.contains(t) ==> step(s, evs[0]).banned_tokens.contains(t));
        lemma_run_monotonic(step(s, evs[0]), e, t, evs.drop_first());
    }
}

/// Credential round trip: after a signup without the two-factor flag,
/// a login with the same credentials authenticates directly and moves
/// nothing, while a login with any other password is rejected as
/// `IncorrectCredentials`.
pub proof fn lemma_credential_round_trip(
    s: AppModel,
    e: Seq<char>,
    p: Seq<char>,
    wrong: Seq<char>,
    id: Seq<char>,
    c: Seq<char>,
)
    requires
        email_ok(e),
        password_ok(p),
        password_ok(wrong),
        wrong != p,
        !s.users.contains_key(e),
    ensures
        spec_signup_result(s, e, p) == Ok::<(), AuthAPIError>(()),
        spec_login_result(spec_signup_next(s, e, p, false), e, p, id) == Ok::<
            LoginOutcomeView,
            AuthAPIError,
        >((LoginOutcomeView::Authenticated { email: e })),
        spec_login_next(spec_signup_next(s, e, p, false), e, p, id, c) == spec_signup_next(
            s,
            e,
            p,
            false,
        ),
        spec_login_result(spec_signup_next(s, e, p, false), e, wrong, id) == Err::<
            LoginOutcomeView,
            AuthAPIError,
        >(AuthAPIError::IncorrectCredentials),
{
}

/// Two-factor round trip: after a signup with the two-factor flag, a
/// login leaves the challenge pending and returns only its attempt
/// identifier; a wrong code is rejected and leaves the challenge in
/// place; the exact pair authenticates and consumes the challenge;
/// and replaying the consumed pair is rejected again.
pub proof fn lemma_two_fa_round_trip(
    s: AppModel,
    e: Seq<char>,
    p: Seq<char>,
    id: Seq<char>,
    c: Seq<char>,
    wrong_c: Seq<char>,
)
    requires
        email_ok(e),
        password_ok(p),
        login_attempt_id_ok(id),
        two_fa_code_ok(c),
        two_fa_code_ok(wrong_c),
        wrong_c != c,
        !s.users.contains_key(e),
    ensures
        spec_login_result(spec_signup_next(s, e, p, true), e, p, id) == Ok::<
            LoginOutcomeView,
            AuthAPIError,
        >((LoginOutcomeView::ChallengePending { login_attempt_id: id })),
        spec_verify_2fa_result(
            spec_login_next(spec_signup_next(s, e, p, true), e, p, id, c),
            e,
            id,
            wrong_c,
        ) == Err::<Seq<char>, AuthAPIError>(AuthAPIError::IncorrectCredentials),
        spec_verify_2fa_next(
            spec_login_next(spec_signup_next(s, e, p, true), e, p, id, c),
            e,
            id,
            wrong_c,
        ) == spec_login_next(spec_signup_next(s, e, p, true), e, p, id, c),
        spec_verify_2fa_result(
            spec_login_next(spec_signup_next(s, e, p, true), e, p, id, c),
            e,
            id,
            c,
        ) == Ok::<Seq<char>, AuthAPIError>(e),
        spec_verify_2fa_result(
            spec_verify_2fa_next(
                spec_login_next(spec_signup_next(s, e, p, true), e, p, id, c),
                e,
                id,
                c,
            ),
            e,
            id,
            c,
        ) == Err::<Seq<char>, AuthAPIError>(AuthAPIError::IncorrectCredentials),
{
}

/// Challenge supersession: two logins for the same account in
/// sequence each issue their challenge, the second replacing the
/// first; afterwards the first pair no longer verifies and the second
/// does.
pub proof fn lemma_challenge_supersession(
    s: AppModel,
    e: Seq<char>,
    p: Seq<char>,
    id1: Seq<char>,
    c1: Seq<char>,
    id2: Seq<char>,
    c2: Seq<char>,
)
    requires
        email_ok(e),
        password_ok(p),
        login_attempt_id_ok(id1),
        two_fa_code_ok(c1),
        login_attempt_id_ok(id2),
        two_fa_code_ok(c2),
        id1 != id2 || c1 != c2,
        s.users.contains_key(e),
        s.users[e].password == p,
        s.users[e].require_2fa,
    ensures
        spec_login_result(s, e, p, id1) == Ok::<LoginOutcomeView, AuthAPIError>(
            (LoginOutcomeView::ChallengePending { login_attempt_id: id1 }),
        ),
        spec_login_result(spec_login_next(s, e, p, id1, c1), e, p, id2) == Ok::<
            LoginOutcomeView,
            AuthAPIError,
        >((LoginOutcomeView::ChallengePending { login_attempt_id: id2 })),
        spec_verify_2fa_result(
            spec_login_next(spec_login_next(s, e, p, id1, c1), e, p, id2, c2),
            e,
            id1,
            c1,
        ) == Err::<Seq<char>, AuthAPIError>(AuthAPIError::IncorrectCredentials),
        spec_verify_2fa_result(
            spec_login_next(spec_login_next(s, e, p, id1, c1), e, p, id2, c2),
            e,
            id2,
            c2,
        ) == Ok::<Seq<char>, AuthAPIError>(e),
{
}

/// Logout idempotence boundary: a token not yet revoked is revoked
/// exactly once; the second logout with the same token fails as
/// `InvalidToken` and changes nothing.
pub proof fn lemma_logout_idempotence_boundary(s: AppModel, t: Seq<char>)
    requires
        !s.banned_tokens.contains(t),
    ensures
        spec_logout_result(s, Some(t), true) == Ok::<(), AuthAPIError>(()),
        spec_logout_next(s, Some(t), true).banned_tokens.contains(t),
        spec_logout_result(spec_logout_next(s, Some(t), true), Some(t), true) == Err::<
            (),
            AuthAPIError,
        >(AuthAPIError::InvalidToken),
        spec_logout_next(spec_logout_next(s, Some(t), true), Some(t), true) == spec_logout_next(
            s,
            Some(t),
            true,
        ),
{
}

/// Revocation effect: once a token is in the revoked registry, every
/// operation that validates it is rejected as `InvalidToken`,
/// whatever the external token service answered, and the state does
/// not move. Together with the persistence of revocations this holds
/// at any later point of any run.
pub proof fn lemma_revocation_effect(s: AppModel, t: Seq<char>, token_valid: bool)
    requires
        s.banned_tokens.contains(t),
    ensures
        spec_logout_result(s, Some(t), token_valid) == Err::<(), AuthAPIError>(
            AuthAPIError::InvalidToken,
        ),
        spec_logout_next(s, Some(t), token_valid) == s,
{
}

/// Revocation is permanent: once a token is revoked, it is still
/// revoked after any sequence of requests whatsoever, and a logout
/// presenting it is still rejected as `InvalidToken`.
pub proof fn lemma_revocation_persists(
    s: AppModel,
    t: Seq<char>,
    evs: Seq<AuthEvent>,
    token_valid: bool,
)
    requires
        s.banned_tokens.contains(t),
    ensures
        run(s, evs).banned_tokens.contains(t),
        spec_logout_result(run(s, evs), Some(t), token_valid) == Err::<(), AuthAPIError>(
            AuthAPIError::InvalidToken,
        ),
{
    lemma_run_monotonic(s, Seq::<char>::empty(), t, evs);
}

} // verus!
