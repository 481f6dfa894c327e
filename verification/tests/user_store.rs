//! Tests of the account directory.

use auth_service::domain::Email;
use auth_service::domain::Password;
use auth_service::domain::User;
use auth_service::domain::UserStoreError;
use auth_service::services::HashmapUserStore;

fn sample_user() -> User {
    User {
        email: Email::parse("test@example.com".to_owned()).unwrap(),
        password: Password::parse("password123".to_owned()).unwrap(),
        require_2fa: false,
    }
}

#[test]
fn test_add_user() {
    let mut store = HashmapUserStore::default();
    let user = sample_user();

    assert_eq!(store.add_user(user.clone()), Ok(()));
    assert_eq!(store.add_user(user), Err(UserStoreError::UserAlreadyExists));
}

#[test]
fn test_get_user() {
    let mut store = HashmapUserStore::default();
    let user = sample_user();

    store.add_user(user.clone()).unwrap();

    let retrieved_used = store.get_user(&Email::parse("test@example.com".to_owned()).unwrap());

    assert_eq!(retrieved_used, Ok(user));
}

#[test]
fn test_validate_user() {
    let mut store = HashmapUserStore::default();
    let user = sample_user();

    store.add_user(user.clone()).unwrap();

    let wrong_email = Email::parse("nonexistent@example.com".to_owned()).unwrap();
    let wrong_password = Password::parse("any_password".to_owned()).unwrap();

    assert_eq!(
        store.validate_user(&wrong_email, &wrong_password),
        Err(UserStoreError::UserNotFound)
    );

    assert_eq!(
        store.validate_user(
            &Email::parse("test@example.com".to_owned()).unwrap(),
            &wrong_password
        ),
        Err(UserStoreError::InvalidCredentials)
    );

    assert_eq!(
        store.validate_user(
            &Email::parse("test@example.com".to_owned()).unwrap(),
            &Password::parse("password123".to_owned()).unwrap()
        ),
        Ok(())
    );
}

#[test]
fn get_user_reports_missing_account() {
    let store = HashmapUserStore::new();
    let email = Email::parse("test@example.com".to_owned()).unwrap();

    assert_eq!(store.get_user(&email), Err(UserStoreError::UserNotFound));
}
