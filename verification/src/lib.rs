//! Passkey authentication for a small task server: a user directory, a
//! per-user store of enrolled credentials and in-flight ceremony state, the
//! state machine that drives registration and login ceremonies against an
//! external credential verifier, and the session guard that authorizes
//! requests once a ceremony has succeeded.
pub mod errors;
pub mod models;
pub mod auth_repo;
pub mod user_repo;
pub mod user_service;
pub mod ceremony;
pub mod auth_service;
pub mod session;
pub mod validation;
pub mod flows;
pub mod webauthn;
