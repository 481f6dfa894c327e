//! Credential-and-session lifecycle core of a single-tenant
//! authentication service.
//!
//! The crate verifies the authentication state machine — account
//! signup, credential validation, the optional two-factor challenge,
//! and session token revocation — together with the three stores the
//! machine coordinates: the account directory, the pending-challenge
//! store, and the revoked-token registry. Wire transport, token
//! signing and message delivery are external collaborators and stay
//! outside; the orchestrator takes plain values and hands plain
//! values back.

pub mod domain;
pub mod services;
pub mod app_state;
pub mod routes;
pub mod laws;
