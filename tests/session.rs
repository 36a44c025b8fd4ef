use session_auth::authority::SessionAuthority;
use session_auth::codec::TokenCodec;
use session_auth::error::AuthError;
use session_auth::guard::{GuardOutcome, LoggerMiddleware, Rejection};
use session_auth::identity::{validate_uuid, Identity};
use session_auth::revocation::RevocationStore;

const T0: u64 = 1_700_000_000;
const U1: u128 = 0xa1a2a3a4_b1b2_c1c2_d1d2_d3d4d5d6d7d8;

fn authority() -> SessionAuthority {
    SessionAuthority::new(b"a signing secret for tests".to_vec(), 3600)
}

fn flip_char(token: &str, at: usize) -> String {
    let mut chars: Vec<char> = token.chars().collect();
    chars[at] = if chars[at] == 'A' { 'B' } else { 'A' };
    chars.into_iter().collect()
}

#[test]
fn identity_text_is_hyphenated_lowercase() {
    let id = Identity { value: U1 };
    assert_eq!(id.to_text(), "a1a2a3a4-b1b2-c1c2-d1d2-d3d4d5d6d7d8");
    assert_eq!(Identity { value: 0 }.to_text(), "00000000-0000-0000-0000-000000000000");
}

#[test]
fn identity_text_reads_back() {
    let id = Identity { value: U1 };
    assert_eq!(Identity::from_text(&id.to_text()), Some(id));
    assert_eq!(Identity::from_text("A1A2A3A4-B1B2-C1C2-D1D2-D3D4D5D6D7D8"), Some(id));
    assert_eq!(Identity::from_text("not a uuid"), None);
}

#[test]
fn validate_uuid_accepts_and_rejects() {
    assert_eq!(validate_uuid("a1a2a3a4-b1b2-c1c2-d1d2-d3d4d5d6d7d8"), Ok(Identity { value: U1 }));
    assert_eq!(validate_uuid("1234"), Err("Invalid UUID format".to_string()));
}

#[test]
fn token_has_three_segments_and_round_trips() {
    let key = b"k1";
    let t = TokenCodec::encode("subject-1", 60, T0, key);
    assert_eq!(t.split('.').count(), 3);
    assert_ne!(t, "subject-1");
    let c = TokenCodec::decode(&t, key, T0).unwrap();
    assert_eq!(c.sub, "subject-1");
    assert_eq!(c.exp, T0 + 60);
}

#[test]
fn token_expiry_boundary_is_exclusive() {
    let key = b"k1";
    let t = TokenCodec::encode("s", 60, T0, key);
    assert!(TokenCodec::decode(&t, key, T0 + 59).is_ok());
    assert_eq!(TokenCodec::decode(&t, key, T0 + 60).unwrap_err(), AuthError::TokenExpired);
    assert_eq!(TokenCodec::decode(&t, key, T0 + 61).unwrap_err(), AuthError::TokenExpired);
}

#[test]
fn token_under_another_key_is_invalid() {
    let t = TokenCodec::encode("s", 60, T0, b"k1");
    assert_eq!(TokenCodec::decode(&t, b"k2", T0).unwrap_err(), AuthError::TokenInvalid);
}

#[test]
fn malformed_tokens_are_invalid() {
    let key = b"k1";
    assert_eq!(TokenCodec::decode("", key, T0).unwrap_err(), AuthError::TokenInvalid);
    assert_eq!(TokenCodec::decode("a.b", key, T0).unwrap_err(), AuthError::TokenInvalid);
    assert_eq!(TokenCodec::decode("a.b.c", key, T0).unwrap_err(), AuthError::TokenInvalid);
}

#[test]
fn issue_then_authorize_gives_identity() {
    let auth = authority();
    let store = RevocationStore::new();
    let id = Identity { value: U1 };
    let t = auth.issue(id, T0);
    assert_eq!(auth.authorize(&store, &t, T0), Ok(id));
}

#[test]
fn authorize_fails_expired_from_ttl_on() {
    let auth = authority();
    let store = RevocationStore::new();
    let id = Identity { value: 7 };
    let t = auth.issue(id, T0);
    assert_eq!(auth.authorize(&store, &t, T0 + 3599), Ok(id));
    assert_eq!(auth.authorize(&store, &t, T0 + 3600), Err(AuthError::TokenExpired));
    assert_eq!(auth.authorize(&store, &t, T0 + 100_000), Err(AuthError::TokenExpired));
}

#[test]
fn revoked_token_is_rejected_until_expiry() {
    let auth = authority();
    let mut store = RevocationStore::new();
    let id = Identity { value: 9 };
    let t = auth.issue(id, T0);
    assert_eq!(auth.revoke(&mut store, &t, T0 + 10), Ok(()));
    assert_eq!(auth.authorize(&store, &t, T0 + 11), Err(AuthError::TokenRevoked));
    assert_eq!(auth.authorize(&store, &t, T0 + 3599), Err(AuthError::TokenRevoked));
    assert_eq!(auth.authorize(&store, &t, T0 + 3600), Err(AuthError::TokenExpired));
}

#[test]
fn revocation_touches_only_that_token() {
    let auth = authority();
    let mut store = RevocationStore::new();
    let a = auth.issue(Identity { value: 1 }, T0);
    let b = auth.issue(Identity { value: 2 }, T0);
    auth.revoke(&mut store, &a, T0).unwrap();
    assert_eq!(auth.authorize(&store, &a, T0 + 1), Err(AuthError::TokenRevoked));
    assert_eq!(auth.authorize(&store, &b, T0 + 1), Ok(Identity { value: 2 }));
}

#[test]
fn tampered_claims_or_signature_are_invalid() {
    let auth = authority();
    let store = RevocationStore::new();
    let t = auth.issue(Identity { value: U1 }, T0);
    let first_dot = t.find('.').unwrap();
    let second_dot = t.rfind('.').unwrap();
    for at in [first_dot + 1, first_dot + 5, second_dot - 1, second_dot + 1, second_dot + 10, t.len() - 2] {
        let bad = flip_char(&t, at);
        assert_ne!(bad, t);
        assert_eq!(auth.authorize(&store, &bad, T0 + 1), Err(AuthError::TokenInvalid), "position {}", at);
    }
    let other = SessionAuthority::new(b"another secret".to_vec(), 3600);
    assert_eq!(other.authorize(&store, &t, T0 + 1), Err(AuthError::TokenInvalid));
}

#[test]
fn revoking_twice_is_like_once() {
    let auth = authority();
    let mut once = RevocationStore::new();
    let mut twice = RevocationStore::new();
    let t = auth.issue(Identity { value: 3 }, T0);
    auth.revoke(&mut once, &t, T0).unwrap();
    auth.revoke(&mut twice, &t, T0).unwrap();
    auth.revoke(&mut twice, &t, T0 + 5).unwrap();
    assert_eq!(twice.len(), 1);
    for now in [T0, T0 + 6, T0 + 3599, T0 + 3600, T0 + 4000] {
        assert_eq!(auth.authorize(&once, &t, now), auth.authorize(&twice, &t, now));
    }
}

#[test]
fn revoke_expired_is_noop_and_invalid_is_error() {
    let auth = authority();
    let mut store = RevocationStore::new();
    let t = auth.issue(Identity { value: 4 }, T0);
    assert_eq!(auth.revoke(&mut store, &t, T0 + 3600), Ok(()));
    assert_eq!(store.len(), 0);
    assert_eq!(auth.revoke(&mut store, "garbage", T0), Err(AuthError::TokenInvalid));
    assert_eq!(store.len(), 0);
}

#[test]
fn scenario_issue_expire_revoke() {
    let auth = authority();
    let mut store = RevocationStore::new();
    let u1 = Identity { value: U1 };
    let t1 = auth.issue(u1, T0);
    assert_eq!(auth.authorize(&store, &t1, T0 + 1), Ok(u1));
    assert_eq!(auth.authorize(&store, &t1, T0 + 3601), Err(AuthError::TokenExpired));
    let t2 = auth.issue(u1, T0 + 1);
    auth.revoke(&mut store, &t2, T0 + 1).unwrap();
    assert_eq!(auth.authorize(&store, &t2, T0 + 1), Err(AuthError::TokenRevoked));
}

#[test]
fn unreachable_store_fails_closed() {
    let auth = authority();
    let id = Identity { value: U1 };
    let t = auth.issue(id, T0);
    let checked = auth.check_token(&t, T0 + 1).unwrap();
    assert_eq!(checked, id);
    assert_eq!(SessionAuthority::conclude(checked, None), Err(AuthError::StoreUnavailable));
    assert_eq!(SessionAuthority::conclude(checked, Some(true)), Err(AuthError::TokenRevoked));
    assert_eq!(SessionAuthority::conclude(checked, Some(false)), Ok(id));
    let outcome = LoggerMiddleware::outcome(SessionAuthority::conclude(checked, None));
    assert_eq!(outcome, GuardOutcome::Rejected(Rejection::ServiceUnavailable));
    assert_eq!(Rejection::ServiceUnavailable.status(), 503);
}

#[test]
fn check_token_rejects_non_uuid_subject() {
    let auth = authority();
    let t = TokenCodec::encode("not-a-uuid", 60, T0, &auth.signing_key);
    assert_eq!(auth.check_token(&t, T0), Err(AuthError::TokenInvalid));
    assert_eq!(auth.check_token(&t, T0 + 60), Err(AuthError::TokenExpired));
}

#[test]
fn revocation_expiry_cases() {
    let auth = authority();
    let t = auth.issue(Identity { value: 5 }, T0);
    assert_eq!(auth.revocation_expiry(&t, T0), Ok(Some(T0 + 3600)));
    assert_eq!(auth.revocation_expiry(&t, T0 + 3600), Ok(None));
    assert_eq!(auth.revocation_expiry("x.y.z", T0), Err(AuthError::TokenInvalid));
}

#[test]
fn token_text_depends_on_claims_and_key_only() {
    let a = TokenCodec::encode("s", 60, T0, b"k1");
    let b = TokenCodec::encode("s", 30, T0 + 30, b"k1");
    assert_eq!(a, b);
    assert_ne!(a, TokenCodec::encode("s", 61, T0, b"k1"));
    assert_ne!(a, TokenCodec::encode("s", 60, T0, b"k2"));
    let auth = authority();
    assert_eq!(auth.issue(Identity { value: U1 }, T0), auth.issue(Identity { value: U1 }, T0));
}
