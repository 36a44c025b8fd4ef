//! Authentication and session lifecycle: password hashing, signed session
//! tokens, a revocation list and the authorization guard of protected routes.

pub mod identity;
pub mod error;
pub mod codec;
pub mod hasher;
pub mod revocation;
pub mod authority;
pub mod guard;
pub mod validation;
pub mod config;
pub mod accounts;
