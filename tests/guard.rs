use session_auth::authority::SessionAuthority;
use session_auth::error::AuthError;
use session_auth::guard::{GuardOutcome, GuardStep, LoggerMiddleware, Rejection};
use session_auth::identity::Identity;
use session_auth::revocation::RevocationStore;

#[test]
fn bearer_prefix_is_taken_off() {
    assert_eq!(LoggerMiddleware::extract_bearer(None), None);
    assert_eq!(LoggerMiddleware::extract_bearer(Some("Bearer abc")), Some("abc".to_string()));
    assert_eq!(LoggerMiddleware::extract_bearer(Some("Bearer Bearer abc")), Some("Bearer abc".to_string()));
    assert_eq!(LoggerMiddleware::extract_bearer(Some("abc")), None);
    assert_eq!(LoggerMiddleware::extract_bearer(Some("bearer abc")), None);
    assert_eq!(LoggerMiddleware::extract_bearer(Some("Basic abc")), None);
    assert_eq!(LoggerMiddleware::extract_bearer(Some("Bearer ")), Some("".to_string()));
    assert_eq!(LoggerMiddleware::extract_bearer(Some("Bearér x")), None);
    assert_eq!(LoggerMiddleware::extract_bearer(Some("Bearer héllo")), Some("héllo".to_string()));
}

#[test]
fn outcome_maps_each_failure() {
    let id = Identity { value: 1 };
    assert_eq!(LoggerMiddleware::outcome(Ok(id)), GuardOutcome::Authorized(id));
    for e in [AuthError::TokenInvalid, AuthError::TokenExpired, AuthError::TokenRevoked] {
        assert_eq!(LoggerMiddleware::outcome(Err(e)), GuardOutcome::Rejected(Rejection::Unauthorized));
    }
    assert_eq!(
        LoggerMiddleware::outcome(Err(AuthError::StoreUnavailable)),
        GuardOutcome::Rejected(Rejection::ServiceUnavailable)
    );
}

#[test]
fn rejection_statuses() {
    assert_eq!(Rejection::MissingCredential.status(), 401);
    assert_eq!(Rejection::Unauthorized.status(), 401);
    assert_eq!(Rejection::ServiceUnavailable.status(), 503);
}

#[test]
fn handle_runs_the_whole_guard() {
    let auth = SessionAuthority::new(b"guard secret".to_vec(), 60);
    let mut store = RevocationStore::new();
    let id = Identity { value: 42 };
    let t = auth.issue(id, 1000);
    let header = format!("Bearer {}", t);
    assert_eq!(LoggerMiddleware::handle(&auth, &store, None, 1001), GuardOutcome::Rejected(Rejection::MissingCredential));
    assert_eq!(LoggerMiddleware::handle(&auth, &store, Some(&header), 1001), GuardOutcome::Authorized(id));
    assert_eq!(LoggerMiddleware::handle(&auth, &store, Some(&header), 1060), GuardOutcome::Rejected(Rejection::Unauthorized));
    assert_eq!(LoggerMiddleware::handle(&auth, &store, Some("Bearer junk"), 1001), GuardOutcome::Rejected(Rejection::Unauthorized));
    auth.revoke(&mut store, &t, 1001).unwrap();
    assert_eq!(LoggerMiddleware::handle(&auth, &store, Some(&header), 1002), GuardOutcome::Rejected(Rejection::Unauthorized));
}

#[test]
fn header_without_bearer_scheme_is_missing_credential() {
    let auth = SessionAuthority::new(b"gate secret".to_vec(), 60);
    let store = RevocationStore::new();
    let t = auth.issue(Identity { value: 42 }, 1000);
    assert_eq!(LoggerMiddleware::handle(&auth, &store, Some(&t), 1001), GuardOutcome::Rejected(Rejection::MissingCredential));
}

#[test]
fn begin_then_finish_steps() {
    let auth = SessionAuthority::new(b"step secret".to_vec(), 60);
    let id = Identity { value: 8 };
    let t = auth.issue(id, 1000);
    let header = format!("Bearer {}", t);
    match LoggerMiddleware::begin(&auth, None, 1001) {
        GuardStep::Done(o) => assert_eq!(o, GuardOutcome::Rejected(Rejection::MissingCredential)),
        GuardStep::Lookup(..) => panic!("no header must not reach the store"),
    }
    match LoggerMiddleware::begin(&auth, Some("Bearer forged"), 1001) {
        GuardStep::Done(o) => assert_eq!(o, GuardOutcome::Rejected(Rejection::Unauthorized)),
        GuardStep::Lookup(..) => panic!("a forged token must not reach the store"),
    }
    match LoggerMiddleware::begin(&auth, Some(&header), 1060) {
        GuardStep::Done(o) => assert_eq!(o, GuardOutcome::Rejected(Rejection::Unauthorized)),
        GuardStep::Lookup(..) => panic!("an expired token must not reach the store"),
    }
    match LoggerMiddleware::begin(&auth, Some(&header), 1001) {
        GuardStep::Done(_) => panic!("a valid token needs the store's answer"),
        GuardStep::Lookup(token, identity) => {
            assert_eq!(token, t);
            assert_eq!(identity, id);
            assert_eq!(LoggerMiddleware::finish(identity, Some(false)), GuardOutcome::Authorized(id));
            assert_eq!(LoggerMiddleware::finish(identity, Some(true)), GuardOutcome::Rejected(Rejection::Unauthorized));
            assert_eq!(LoggerMiddleware::finish(identity, None), GuardOutcome::Rejected(Rejection::ServiceUnavailable));
        }
    }
}
