//! Authentication core: accounts, second-factor challenges, revoked session
//! tokens, and the operations that combine them.

pub mod domain;
pub mod routes;
pub mod services;
pub mod utils;
