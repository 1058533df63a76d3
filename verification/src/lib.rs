//! Core of a small meeting server: the pieces with a real protocol contract.
//!
//! - [`token`]: a codec that issues and verifies signed identity tokens.
//! - [`auth`]: the interceptor that holds every request behind a bearer token.
//! - [`session`]: the per-connection state machine of the streaming endpoint.

pub mod auth;
pub mod session;
pub mod token;
