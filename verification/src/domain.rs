//! Value types and error taxonomy of the authentication core.

pub mod email;
pub mod password;
pub mod user;
pub mod errors;
pub mod two_fa;

pub use email::Email;
pub use password::Password;
pub use user::User;
pub use errors::AuthAPIError;
pub use errors::BannedTokenStoreError;
pub use errors::TwoFACodeStoreError;
pub use errors::UserStoreError;
pub use two_fa::LoginAttemptId;
pub use two_fa::TwoFACode;
