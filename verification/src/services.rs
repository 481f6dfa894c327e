//! In-memory backing stores of the authentication core.

pub mod hashmap_user_store;
pub mod hashset_banned_token_store;
pub mod hashmap_two_fa_code_store;

pub use hashmap_user_store::HashmapUserStore;
pub use hashset_banned_token_store::HashSetBannedTokenStore;
pub use hashmap_two_fa_code_store::HashmapTwoFACodeStore;
