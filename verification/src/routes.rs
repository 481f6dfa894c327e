//! The orchestrator: one function per request kind, each the verified
//! decision core of its route. Transport decoding, token signing and
//! message delivery happen outside; these functions take plain values
//! and update the shared state in a single critical section.

pub mod signup;
pub mod login;
pub mod verify_2fa;
pub mod logout;

pub use signup::SignupRequest;
pub use signup::SignupResponse;
pub use login::LoginOutcome;
pub use login::LoginRequest;
pub use login::LoginResponse;
pub use login::TwoFactorAuthResponse;
pub use verify_2fa::Verify2FARequest;
