//! The session authority: issues tokens, authorizes them against their
//! signature, their expiry and the revocation list, and revokes them.

use vstd::prelude::*;
use crate::codec::{decode_result, jwt_token, token_claims, TokenCodec};
use crate::error::AuthError;
use crate::identity::{hyphenated, identity_of_text, Identity};
use crate::revocation::{recorded, revoked_in, RevocationStore};

verus! {

/// Whether `token` was issued under `key` for `identity`, expiring at `exp`:
/// its claims carry the identity's UUID text, which reads back as the identity.
pub open spec fn issued_for(token: Seq<char>, key: Seq<u8>, identity: Identity, exp: u64) -> bool {
    &&& token_claims(token, key) == Some((hyphenated(identity.value), exp))
    &&& identity_of_text(hyphenated(identity.value)) == Some(identity)
}

/// The first, storage-free step of authorization: the signature, the expiry
/// at `now`, and a subject that names an identity.
pub open spec fn checked_identity(token: Seq<char>, key: Seq<u8>, now: u64) -> Result<Identity, AuthError> {
    match decode_result(token, key, now) {
        Err(e) => Err(e),
        Ok((sub, _)) => match identity_of_text(sub) {
            Some(i) => Ok(i),
            None => Err(AuthError::TokenInvalid),
        },
    }
}

/// The decision on a token that passed the first step, given what the
/// revocation store answered (`None` where it could not be reached).
pub open spec fn concluded(identity: Identity, lookup: Option<bool>) -> Result<Identity, AuthError> {
    match lookup {
        None => Err(AuthError::StoreUnavailable),
        Some(true) => Err(AuthError::TokenRevoked),
        Some(false) => Ok(identity),
    }
}

/// The outcome of authorizing `token` at `now`, where `lookup` is what the
/// revocation store answers for it; the store is consulted only for a token
/// that passed the first step.
pub open spec fn authorize_result(token: Seq<char>, key: Seq<u8>, now: u64, lookup: Option<bool>) -> Result<Identity, AuthError> {
    match checked_identity(token, key, now) {
        Err(e) => Err(e),
        Ok(i) => concluded(i, lookup),
    }
}

/// What revoking a token that expires at `exp` does to the list: it is then
/// revoked at every instant before `exp`, and nothing else changes.
pub open spec fn revocation_effect(
    before: Seq<(Seq<char>, u64)>,
    after: Seq<(Seq<char>, u64)>,
    token: Seq<char>,
    exp: u64,
) -> bool {
    forall|t: Seq<char>, now: u64|
        revoked_in(after, t, now) == (revoked_in(before, t, now) || (t == token && exp > now))
}

/// Issues, authorizes and revokes session tokens with one signing secret and
/// one time-to-live for every token.
pub struct SessionAuthority {
    pub signing_key: Vec<u8>,
    pub ttl: u64,
}

impl SessionAuthority {
    /// An authority that signs with `signing_key` and issues tokens that live
    /// `ttl` seconds.
    pub fn new(signing_key: Vec<u8>, ttl: u64) -> (r: SessionAuthority)
        ensures
            r.signing_key@ == signing_key@,
            r.ttl == ttl,
    {
        SessionAuthority { signing_key, ttl }
    }

    /// Mints a token for `identity` at the instant `now`, expiring at
    /// `now + ttl`. The token is a function of the identity, the expiry and
    /// the signing key alone; no state is written.
    pub fn issue(&self, identity: Identity, now: u64) -> (r: String)
        requires
            now + self.ttl <= u64::MAX,
        ensures
            r@ == jwt_token(hyphenated(identity.value), (now + self.ttl) as u64, self.signing_key@),
            issued_for(r@, self.signing_key@, identity, (now + self.ttl) as u64),
    {
        let sub = identity.to_text();
        TokenCodec::encode(sub.as_str(), self.ttl, now, self.signing_key.as_slice())
    }

    /// The first step of authorization, which touches no storage: checks the
    /// signature and the expiry of `token` at `now` and reads its subject.
    pub fn check_token(&self, token: &str, now: u64) -> (r: Result<Identity, AuthError>)
        ensures
            r == checked_identity(token@, self.signing_key@, now),
    {
        match TokenCodec::decode(token, self.signing_key.as_slice(), now) {
            Err(e) => Err(e),
            Ok(claims) => match Identity::from_text(claims.sub.as_str()) {
                Some(i) => Ok(i),
                None => Err(AuthError::TokenInvalid),
            },
        }
    }

    /// The second step of authorization: the decision on a checked identity
    /// given the revocation store's answer, `None` where it could not be
    /// reached. An unreachable store rejects: it never lets a token through.
    pub fn conclude(identity: Identity, lookup: Option<bool>) -> (r: Result<Identity, AuthError>)
        ensures
            r == concluded(identity, lookup),
    {
        match lookup {
            None => Err(AuthError::StoreUnavailable),
            Some(true) => Err(AuthError::TokenRevoked),
            Some(false) => Ok(identity),
        }
    }

    /// Authorizes `token` at the instant `now` against the revocation list
    /// `store`: the identity it was issued for, or why it is not usable.
    pub fn authorize(&self, store: &RevocationStore, token: &str, now: u64) -> (r: Result<Identity, AuthError>)
        requires
            store.wf(),
        ensures
            r == authorize_result(token@, self.signing_key@, now, Some(revoked_in(store@, token@, now))),
    {
        match self.check_token(token, now) {
            Err(e) => Err(e),
            Ok(i) => {
                let revoked = store.is_revoked(token, now);
                SessionAuthority::conclude(i, Some(revoked))
            },
        }
    }

    /// What revoking `token` at `now` has to record: `Some(exp)` for a
    /// token that is still valid, `None` for one that has already expired
    /// and needs no record, and `TokenInvalid` for one that was never validly
    /// issued.
    pub fn revocation_expiry(&self, token: &str, now: u64) -> (r: Result<Option<u64>, AuthError>)
        ensures
            match decode_result(token@, self.signing_key@, now) {
                Ok((_, exp)) => r == Ok::<Option<u64>, AuthError>(Some(exp)),
                Err(AuthError::TokenExpired) => r == Ok::<Option<u64>, AuthError>(None),
                Err(e) => r == Err::<Option<u64>, AuthError>(e),
            },
    {
        match TokenCodec::decode(token, self.signing_key.as_slice(), now) {
            Ok(claims) => Ok(Some(claims.exp)),
            Err(AuthError::TokenExpired) => Ok(None),
            Err(e) => Err(e),
        }
    }

    /// Revokes `token` at `now` in `store`, until the token's own expiry.
    /// An expired token needs no revocation: that is a success with no
    /// change. A token whose signature does not verify is `TokenInvalid`.
    pub fn revoke(&self, store: &mut RevocationStore, token: &str, now: u64) -> (r: Result<(), AuthError>)
        requires
            old(store).wf(),
        ensures
            final(store).wf(),
            match decode_result(token@, self.signing_key@, now) {
                Ok((_, exp)) => r is Ok && recorded(old(store)@, final(store)@, token@, exp)
                    && revocation_effect(old(store)@, final(store)@, token@, exp),
                Err(AuthError::TokenExpired) => r is Ok && final(store)@ == old(store)@,
                Err(e) => r == Err::<(), AuthError>(e) && final(store)@ == old(store)@,
            },
    {
        match self.revocation_expiry(token, now) {
            Ok(Some(exp)) => {
                store.record(token, exp);
                Ok(())
            },
            Ok(None) => Ok(()),
            Err(e) => Err(e),
        }
    }
}

/// A token authorizes as the identity it was issued for at the instant of
/// issue, while the store holds no live revocation of it (and its
/// time-to-live is not zero).
pub proof fn lemma_issue_then_authorize(token: Seq<char>, key: Seq<u8>, identity: Identity, issued_at: u64, ttl: u64)
    requires
        issued_at + ttl <= u64::MAX,
        ttl > 0,
        issued_for(token, key, identity, (issued_at + ttl) as u64),
    ensures
        authorize_result(token, key, issued_at, Some(false)) == Ok::<Identity, AuthError>(identity),
{
}

/// A token whose signature does not verify under `key`, or whose claims
/// lack a string `sub` or an integer `exp`, fails with `TokenInvalid` at
/// every instant and whatever the store answers: never `TokenExpired`,
/// never success.
pub proof fn lemma_unverified_token_invalid(token: Seq<char>, key: Seq<u8>, now: u64, lookup: Option<bool>)
    requires
        token_claims(token, key) is None,
    ensures
        authorize_result(token, key, now, lookup) == Err::<Identity, AuthError>(AuthError::TokenInvalid),
{
}

/// A token issued to expire at `exp` fails with `TokenExpired` at every
/// instant from `exp` on, whatever the store answers, and authorizes as its
/// identity at every earlier instant at which it is not revoked.
pub proof fn lemma_expiry_boundary(token: Seq<char>, key: Seq<u8>, identity: Identity, exp: u64, now: u64, lookup: Option<bool>)
    requires
        issued_for(token, key, identity, exp),
    ensures
        now >= exp ==> authorize_result(token, key, now, lookup) == Err::<Identity, AuthError>(AuthError::TokenExpired),
        now < exp ==> authorize_result(token, key, now, Some(false)) == Ok::<Identity, AuthError>(identity),
{
}

/// After a valid token is revoked, authorizing it fails with `TokenRevoked`
/// at every instant before its expiry, and with `TokenExpired` from then on,
/// as for a token that was never revoked.
pub proof fn lemma_revoked_stays_revoked(
    before: Seq<(Seq<char>, u64)>,
    after: Seq<(Seq<char>, u64)>,
    token: Seq<char>,
    key: Seq<u8>,
    identity: Identity,
    exp: u64,
    now: u64,
)
    requires
        issued_for(token, key, identity, exp),
        revocation_effect(before, after, token, exp),
    ensures
        now < exp ==> authorize_result(token, key, now, Some(revoked_in(after, token, now)))
            == Err::<Identity, AuthError>(AuthError::TokenRevoked),
        now >= exp ==> authorize_result(token, key, now, Some(revoked_in(after, token, now)))
            == authorize_result(token, key, now, Some(false)),
        now >= exp ==> authorize_result(token, key, now, Some(revoked_in(after, token, now)))
            == Err::<Identity, AuthError>(AuthError::TokenExpired),
{
    assert(revoked_in(after, token, now) == (revoked_in(before, token, now) || exp > now));
}

/// Revoking a token a second time changes nothing that the first revocation
/// did not: the list answers alike for every token at every instant, so
/// every authorization has the same outcome.
pub proof fn lemma_revoke_idempotent(
    first: Seq<(Seq<char>, u64)>,
    once: Seq<(Seq<char>, u64)>,
    twice: Seq<(Seq<char>, u64)>,
    token: Seq<char>,
    key: Seq<u8>,
    exp: u64,
)
    requires
        revocation_effect(first, once, token, exp),
        revocation_effect(once, twice, token, exp),
    ensures
        forall|t: Seq<char>, now: u64| revoked_in(twice, t, now) == revoked_in(once, t, now),
        forall|now: u64|
            authorize_result(token, key, now, Some(revoked_in(twice, token, now)))
                == authorize_result(token, key, now, Some(revoked_in(once, token, now))),
{
    assert forall|t: Seq<char>, now: u64| revoked_in(twice, t, now) == revoked_in(once, t, now) by {
        assert(revoked_in(twice, t, now) == (revoked_in(once, t, now) || (t == token && exp > now)));
        assert(revoked_in(once, t, now) == (revoked_in(first, t, now) || (t == token && exp > now)));
    }
}

} // verus!
