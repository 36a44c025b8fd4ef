//! The failures of the authentication subsystem.

use vstd::prelude::*;

verus! {

/// Why an operation of the subsystem failed.
#[derive(Clone, Copy, Debug, PartialEq, Eq, Structural)]
pub enum AuthError {
    /// The password hash could not be derived (entropy or resources ran out).
    HashingFailure,
    /// The token is malformed or its signature does not verify.
    TokenInvalid,
    /// The token's expiry instant has passed.
    TokenExpired,
    /// The token was revoked before its expiry.
    TokenRevoked,
    /// The revocation store could not be consulted.
    StoreUnavailable,
}

} // verus!
