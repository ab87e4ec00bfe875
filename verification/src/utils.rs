//! Session tokens and the constants of the service.

pub mod auth;
pub mod constants;

pub use auth::{generate_auth_claims, validate_token};
