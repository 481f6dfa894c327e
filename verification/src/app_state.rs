//! The shared state of the authentication service: the three stores
//! the orchestrator coordinates. Each store is an independent shared
//! resource; callers guard the whole state with their own
//! synchronization and hand the orchestrator exclusive access for the
//! duration of one request's critical section.

use vstd::prelude::*;
use crate::domain::user::UserView;
use crate::services::hashmap_two_fa_code_store::ChallengeView;
use crate::services::HashSetBannedTokenStore;
use crate::services::HashmapTwoFACodeStore;
use crate::services::HashmapUserStore;

verus! {

/// Mathematical image of the whole shared state: the account
/// directory, the pending challenges, and the revoked tokens.
pub struct AppModel {
    pub users: Map<Seq<char>, UserView>,
    pub challenges: Map<Seq<char>, ChallengeView>,
    pub banned_tokens: Set<Seq<char>>,
}

/// The three stores of the service.
#[derive(Debug)]
pub struct AppState {
    pub user_store: HashmapUserStore,
    pub banned_token_store: HashSetBannedTokenStore,
    pub two_fa_code_store: HashmapTwoFACodeStore,
}

impl View for AppState {
    type V = AppModel;

    open spec fn view(&self) -> AppModel {
        AppModel {
            users: self.user_store@,
            challenges: self.two_fa_code_store@,
            banned_tokens: self.banned_token_store@,
        }
    }
}

impl AppState {
    /// The state's invariant: each keyed store holds at most one entry
    /// per email.
    pub open spec fn wf(&self) -> bool {
        self.user_store.wf() && self.two_fa_code_store.wf()
    }

    /// Bundles the three stores.
    pub fn new(
        user_store: HashmapUserStore,
        banned_token_store: HashSetBannedTokenStore,
        two_fa_code_store: HashmapTwoFACodeStore,
    ) -> (r: Self)
        ensures
            r.user_store == user_store,
            r.banned_token_store == banned_token_store,
            r.two_fa_code_store == two_fa_code_store,
    {
        Self { user_store, banned_token_store, two_fa_code_store }
    }
}

} // verus!
