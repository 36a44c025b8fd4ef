//! Signed session tokens: three dot-separated base64url segments (header,
//! claims, HMAC-SHA256 signature) whose claims carry `sub` and `exp`.

use vstd::prelude::*;
use crate::error::AuthError;

verus! {

#[verifier::external_type_specification]
#[verifier::external_body]
pub struct ExJwtError(jsonwebtoken::errors::Error);

/// The claims of a session token: the subject's identity as text and the
/// expiry instant in seconds since the Unix epoch.
#[derive(Clone, Debug)]
pub struct Claims {
    pub sub: String,
    pub exp: u64,
}

/// What `jsonwebtoken::decode` reads from `token` under the HMAC secret `key`,
/// with the expiry check left off: `None` where the token is malformed, its
/// signature does not verify or it lacks `sub` or `exp`; else the `sub` claim
/// if it is a string and the `exp` claim if it is an unsigned integer.
pub uninterp spec fn jwt_claims(token: Seq<char>, key: Seq<u8>) -> Option<(Option<Seq<char>>, Option<u64>)>;

/// The token text that `jsonwebtoken::encode` makes of the claims `sub` and
/// `exp` with an HS256 header under the HMAC secret `key`.
pub uninterp spec fn jwt_token(sub: Seq<char>, exp: u64, key: Seq<u8>) -> Seq<char>;

/// The `sub` and `exp` that a token carries under `key`, if it is well formed.
pub open spec fn token_claims(token: Seq<char>, key: Seq<u8>) -> Option<(Seq<char>, u64)> {
    match jwt_claims(token, key) {
        Some((Some(sub), Some(exp))) => Some((sub, exp)),
        _ => None,
    }
}

/// The result of decoding `token` under `key` at the instant `now`.
pub open spec fn decode_result(token: Seq<char>, key: Seq<u8>, now: u64) -> Result<(Seq<char>, u64), AuthError> {
    match token_claims(token, key) {
        None => Err(AuthError::TokenInvalid),
        Some((sub, exp)) => if now >= exp {
            Err(AuthError::TokenExpired)
        } else {
            Ok((sub, exp))
        },
    }
}

/// Relies on `jsonwebtoken::encode` with an HS256 header and
/// `EncodingKey::from_secret`: a token made of the claims `sub` and `exp`,
/// which `jsonwebtoken::decode` under the same secret reads back. With an
/// HMAC key, an HMAC header and claims that are a JSON object, none of its
/// error paths (key family, JSON serialization, signing) can be taken.
#[verifier::external_body]
fn jwt_encode(sub: &str, exp: u64, key: &[u8]) -> (r: Result<String, jsonwebtoken::errors::Error>)
    ensures
        r is Ok,
        r is Ok ==> r->Ok_0@ == jwt_token(sub@, exp, key@),
        r is Ok ==> jwt_claims(r->Ok_0@, key@) == Some((Some(sub@), Some(exp))),
{
    let mut claims = serde_json::Map::new();
    claims.insert("sub".to_string(), serde_json::Value::from(sub));
    claims.insert("exp".to_string(), serde_json::Value::from(exp));
    jsonwebtoken::encode(
        &jsonwebtoken::Header::new(jsonwebtoken::Algorithm::HS256),
        &serde_json::Value::Object(claims),
        &jsonwebtoken::EncodingKey::from_secret(key),
    )
}

/// Relies on `jsonwebtoken::decode` with `DecodingKey::from_secret` and an
/// HS256 validation that requires `sub` and `exp` and checks neither the
/// expiry nor an audience; the two claims are handed out as they were read.
#[verifier::external_body]
fn jwt_decode(token: &str, key: &[u8]) -> (r: Result<(Option<String>, Option<u64>), jsonwebtoken::errors::Error>)
    ensures
        match r {
            Ok((sub, exp)) => jwt_claims(token@, key@) == Some((
                match sub { Some(s) => Some(s@), None => None },
                exp,
            )),
            Err(_) => jwt_claims(token@, key@) is None,
        },
{
    let mut validation = jsonwebtoken::Validation::new(jsonwebtoken::Algorithm::HS256);
    validation.set_required_spec_claims(&["sub", "exp"]);
    validation.validate_exp = false;
    validation.validate_aud = false;
    let data = jsonwebtoken::decode::<serde_json::Value>(
        token,
        &jsonwebtoken::DecodingKey::from_secret(key),
        &validation,
    )?;
    Ok((data.claims["sub"].as_str().map(String::from), data.claims["exp"].as_u64()))
}

/// Encodes and decodes session tokens signed with a symmetric secret.
pub struct TokenCodec;

impl TokenCodec {
    /// Signs a token for `subject` that expires at `now + ttl`. The token
    /// is a function of the subject, the expiry and the key alone.
    pub fn encode(subject: &str, ttl: u64, now: u64, key: &[u8]) -> (r: String)
        requires
            now + ttl <= u64::MAX,
        ensures
            r@ == jwt_token(subject@, (now + ttl) as u64, key@),
            token_claims(r@, key@) == Some((subject@, (now + ttl) as u64)),
    {
        let exp: u64 = now + ttl;
        jwt_encode(subject, exp, key).unwrap()
    }

    /// Checks the signature and the expiry of `token` at the instant `now`
    /// and returns its claims. A token is valid up to, and not including,
    /// its expiry instant.
    pub fn decode(token: &str, key: &[u8], now: u64) -> (r: Result<Claims, AuthError>)
        ensures
            match decode_result(token@, key@, now) {
                Ok((sub, exp)) => r is Ok && r->Ok_0.sub@ == sub && r->Ok_0.exp == exp,
                Err(e) => r == Err::<Claims, AuthError>(e),
            },
    {
        match jwt_decode(token, key) {
            Err(_) => Err(AuthError::TokenInvalid),
            Ok((Some(sub), Some(exp))) => {
                if now >= exp {
                    Err(AuthError::TokenExpired)
                } else {
                    Ok(Claims { sub, exp })
                }
            },
            Ok(_) => Err(AuthError::TokenInvalid),
        }
    }
}

} // verus!
