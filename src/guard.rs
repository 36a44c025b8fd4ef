//! The authorization guard that every protected request passes: it reads the
//! bearer credential, authorizes it once, and lets the request through with
//! the resolved identity or rejects it with an HTTP status.

use vstd::prelude::*;
use crate::accounts::opt_view;
use crate::authority::{authorize_result, checked_identity, concluded, SessionAuthority};
use crate::error::AuthError;
use crate::identity::Identity;
use crate::revocation::{revoked_in, RevocationStore};

verus! {

/// Why the guard turned a request away.
#[derive(Clone, Copy, Debug, PartialEq, Eq, Structural)]
pub enum Rejection {
    /// The request carried no authorization header.
    MissingCredential,
    /// The credential is invalid, expired or revoked.
    Unauthorized,
    /// The revocation store could not be consulted.
    ServiceUnavailable,
}

/// The terminal state of one request at the guard.
#[derive(Clone, Copy, Debug, PartialEq, Eq, Structural)]
pub enum GuardOutcome {
    Authorized(Identity),
    Rejected(Rejection),
}

/// Where one request stands at the guard after the storage-free step.
#[derive(Debug)]
pub enum GuardStep {
    /// The request is decided.
    Done(GuardOutcome),
    /// The token passed its checks as this identity; the revocation store's
    /// answer on it decides.
    Lookup(String, Identity),
}

/// The HTTP status of a rejection.
pub open spec fn status_of(r: Rejection) -> u16 {
    match r {
        Rejection::ServiceUnavailable => 503,
        _ => 401,
    }
}

impl Rejection {
    /// The HTTP status that answers the request: 503 where the store was
    /// unavailable, 401 otherwise.
    pub fn status(&self) -> (r: u16)
        ensures
            r == status_of(*self),
    {
        match self {
            Rejection::ServiceUnavailable => 503,
            _ => 401,
        }
    }
}

/// The scheme word that precedes a bearer credential, with its space.
pub open spec fn bearer_prefix() -> Seq<char> {
    seq!['B', 'e', 'a', 'r', 'e', 'r', ' ']
}

/// The view of an optional header value.
pub open spec fn header_view(header: Option<&str>) -> Option<Seq<char>> {
    match header {
        Some(h) => Some(h@),
        None => None,
    }
}

/// The bearer credential that a request carries: what follows the scheme
/// `"Bearer "` in the authorization header, and `None` where there is no
/// header or it does not start with that scheme.
pub open spec fn credential_of(header: Option<Seq<char>>) -> Option<Seq<char>> {
    match header {
        Some(h) => if h.len() >= 7 && h.subrange(0, 7) == bearer_prefix() {
            Some(h.subrange(7, h.len() as int))
        } else {
            None
        },
        None => None,
    }
}

/// The guard's verdict on an authorization result.
pub open spec fn outcome_of(result: Result<Identity, AuthError>) -> GuardOutcome {
    match result {
        Ok(i) => GuardOutcome::Authorized(i),
        Err(AuthError::StoreUnavailable) => GuardOutcome::Rejected(Rejection::ServiceUnavailable),
        Err(_) => GuardOutcome::Rejected(Rejection::Unauthorized),
    }
}

/// Whether the seven characters of `s` from char index `i` are `"Bearer "`.
fn bearer_at(s: &str, i: usize) -> (r: bool)
    requires
        i <= s@.len(),
    ensures
        r == (i + 7 <= s@.len() && s@.subrange(i as int, i + 7) == bearer_prefix()),
{
    let n = s.unicode_len();
    if n - i < 7 {
        return false;
    }
    let r = s.get_char(i) == 'B' && s.get_char(i + 1) == 'e' && s.get_char(i + 2) == 'a'
        && s.get_char(i + 3) == 'r' && s.get_char(i + 4) == 'e' && s.get_char(i + 5) == 'r'
        && s.get_char(i + 6) == ' ';
    if r {
        assert(s@.subrange(i as int, i + 7) =~= bearer_prefix());
    } else {
        assert(s@.subrange(i as int, i + 7) != bearer_prefix()) by {
            if s@.subrange(i as int, i + 7) == bearer_prefix() {
                assert(s@.subrange(i as int, i + 7)[0] == s@[i as int]);
                assert(s@.subrange(i as int, i + 7)[6] == s@[i + 6]);
            }
        }
    }
    r
}

/// The request stage that guards protected routes.
pub struct LoggerMiddleware;

impl LoggerMiddleware {
    /// Reads the bearer credential from the authorization header: the text
    /// after the scheme `"Bearer "`, if the header is there and has it.
    pub fn extract_bearer(header: Option<&str>) -> (r: Option<String>)
        ensures
            opt_view(r) == credential_of(header_view(header)),
    {
        match header {
            None => None,
            Some(h) => {
                if bearer_at(h, 0) {
                    let n = h.unicode_len();
                    let rest = h.substring_char(7, n);
                    Some(rest.to_owned())
                } else {
                    None
                }
            },
        }
    }

    /// The first step at the guard, which touches no storage: reads the
    /// credential and checks its signature and expiry at `now`. It ends the
    /// request, or asks for the revocation store's answer on the token.
    pub fn begin(authority: &SessionAuthority, header: Option<&str>, now: u64) -> (r: GuardStep)
        ensures
            match credential_of(header_view(header)) {
                None => r == GuardStep::Done(GuardOutcome::Rejected(Rejection::MissingCredential)),
                Some(t) => match checked_identity(t, authority.signing_key@, now) {
                    Err(e) => r == GuardStep::Done(outcome_of(Err(e))),
                    Ok(i) => r is Lookup && r->Lookup_0@ == t && r->Lookup_1 == i,
                },
            },
    {
        match LoggerMiddleware::extract_bearer(header) {
            None => GuardStep::Done(GuardOutcome::Rejected(Rejection::MissingCredential)),
            Some(token) => match authority.check_token(token.as_str(), now) {
                Err(e) => GuardStep::Done(LoggerMiddleware::outcome(Err(e))),
                Ok(i) => GuardStep::Lookup(token, i),
            },
        }
    }

    /// The second step at the guard: the verdict on a checked identity given
    /// the revocation store's answer, `None` where it could not be reached.
    pub fn finish(identity: Identity, lookup: Option<bool>) -> (r: GuardOutcome)
        ensures
            r == outcome_of(concluded(identity, lookup)),
    {
        LoggerMiddleware::outcome(SessionAuthority::conclude(identity, lookup))
    }

    /// The guard's verdict on the authorization result: through with the
    /// identity, 503 where the store was unavailable, 401 for any other
    /// failure.
    pub fn outcome(result: Result<Identity, AuthError>) -> (r: GuardOutcome)
        ensures
            r == outcome_of(result),
    {
        match result {
            Ok(i) => GuardOutcome::Authorized(i),
            Err(AuthError::StoreUnavailable) => GuardOutcome::Rejected(Rejection::ServiceUnavailable),
            Err(_) => GuardOutcome::Rejected(Rejection::Unauthorized),
        }
    }

    /// Evaluates one request at the instant `now` against the in-memory
    /// revocation list: a request without an authorization header is rejected
    /// without consulting the authority.
    pub fn handle(authority: &SessionAuthority, store: &RevocationStore, header: Option<&str>, now: u64) -> (r: GuardOutcome)
        requires
            store.wf(),
        ensures
            match credential_of(header_view(header)) {
                None => r == GuardOutcome::Rejected(Rejection::MissingCredential),
                Some(t) => r == outcome_of(
                    authorize_result(t, authority.signing_key@, now, Some(revoked_in(store@, t, now))),
                ),
            },
    {
        match LoggerMiddleware::begin(authority, header, now) {
            GuardStep::Done(outcome) => outcome,
            GuardStep::Lookup(token, identity) => {
                let revoked = store.is_revoked(token.as_str(), now);
                LoggerMiddleware::finish(identity, Some(revoked))
            },
        }
    }
}

} // verus!
