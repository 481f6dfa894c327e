//! Tests of the revoked-token registry.

use auth_service::services::HashSetBannedTokenStore;

#[test]
fn test_store_token() {
    let mut store = HashSetBannedTokenStore::default();
    let token = "banned_token_123".to_owned();

    // Storing a token succeeds.
    assert_eq!(store.store(token.clone()), Ok(()));

    // Storing the same token again still succeeds.
    assert_eq!(store.store(token), Ok(()));
}

#[test]
fn test_exists_token() {
    let mut store = HashSetBannedTokenStore::default();
    let token = "banned_token_456".to_owned();

    // The token is not in the registry initially.
    assert_eq!(store.contains(token.clone()), Ok(false));

    store.store(token.clone()).unwrap();

    // The token is in the registry now.
    assert_eq!(store.contains(token), Ok(true));

    // A different token is not.
    assert_eq!(store.contains("different_token".to_owned()), Ok(false));
}

#[test]
fn test_store_multiple_tokens() {
    let mut store = HashSetBannedTokenStore::default();
    let token1 = "token_one".to_owned();
    let token2 = "token_two".to_owned();
    let token3 = "token_three".to_owned();

    store.store(token1.clone()).unwrap();
    store.store(token2.clone()).unwrap();
    store.store(token3.clone()).unwrap();

    // All stored tokens are members.
    assert_eq!(store.contains(token1), Ok(true));
    assert_eq!(store.contains(token2), Ok(true));
    assert_eq!(store.contains(token3), Ok(true));

    // A token never stored is not.
    assert_eq!(store.contains("non_existent_token".to_owned()), Ok(false));
}
