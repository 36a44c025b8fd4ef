//! One-way password hashing with a fresh random salt per hash (bcrypt).

use vstd::prelude::*;
use crate::error::AuthError;

verus! {

#[verifier::external_type_specification]
#[verifier::external_body]
pub struct ExBcryptError(bcrypt::BcryptError);

/// The smallest and the largest work factor that bcrypt accepts.
pub const MIN_COST: u32 = 4;
pub const MAX_COST: u32 = 31;

/// What `bcrypt::verify` answers for `secret` against the stored `hash`:
/// `None` where the hash cannot be read, else whether the secret matches it.
pub uninterp spec fn bcrypt_verdict(secret: Seq<char>, hash: Seq<char>) -> Option<bool>;

/// The decimal digit `d` (`d < 10`) as a character.
pub open spec fn digit_char(d: nat) -> char {
    ((d + 48) as u8) as char
}

/// The head of a bcrypt hash of work factor `cost` (`cost < 100`): the
/// version `$2b$`, the cost as two decimal digits, and a `$`. The salt and
/// the digest follow it.
pub open spec fn hash_prefix(cost: u32) -> Seq<char> {
    seq!['$', '2', 'b', '$', digit_char((cost / 10) as nat), digit_char((cost % 10) as nat), '$']
}

/// Whether `hash` has the form of a bcrypt hash of work factor `cost`: sixty
/// characters, the head `$2b$` with the two-digit cost and a `$`, then
/// twenty-two of salt and thirty-one of digest.
pub open spec fn bcrypt_form(hash: Seq<char>, cost: u32) -> bool {
    hash.len() == 60 && hash.subrange(0, 7) == hash_prefix(cost)
}

/// Whether `secret` matches the stored `hash`.
pub open spec fn password_matches(secret: Seq<char>, hash: Seq<char>) -> bool {
    bcrypt_verdict(secret, hash) == Some(true)
}

/// Relies on `bcrypt::hash`: it fails on a cost outside `4..=31`, draws a
/// random salt, writes the hash as `$2b$`, the two-digit cost, `$`, the
/// 22-character salt and the 31-character digest, and `bcrypt::verify`
/// accepts the secret against what it returns.
#[verifier::external_body]
fn bcrypt_hash(secret: &str, cost: u32) -> (r: Result<String, bcrypt::BcryptError>)
    ensures
        !(MIN_COST <= cost <= MAX_COST) ==> r is Err,
        r is Ok ==> bcrypt_verdict(secret@, r->Ok_0@) == Some(true),
        r is Ok ==> bcrypt_form(r->Ok_0@, cost),
{
    bcrypt::hash(secret, cost)
}

/// Relies on `bcrypt::verify`: it recomputes the digest with the cost and the
/// salt read from `hash` and compares in constant time.
#[verifier::external_body]
fn bcrypt_verify(secret: &str, hash: &str) -> (r: Result<bool, bcrypt::BcryptError>)
    ensures
        match r {
            Ok(b) => bcrypt_verdict(secret@, hash@) == Some(b),
            Err(_) => bcrypt_verdict(secret@, hash@) is None,
        },
{
    bcrypt::verify(secret, hash)
}

/// Hashes and verifies passwords at a fixed work factor.
#[derive(Clone, Copy, Debug)]
pub struct CredentialHasher {
    pub cost: u32,
}

impl CredentialHasher {
    /// A hasher with the given work factor.
    pub fn new(cost: u32) -> (r: CredentialHasher)
        ensures
            r.cost == cost,
    {
        CredentialHasher { cost }
    }

    /// Whether the work factor is one that bcrypt accepts.
    pub open spec fn valid(&self) -> bool {
        MIN_COST <= self.cost <= MAX_COST
    }

    /// Derives a salted one-way hash of `secret` at the hasher's work
    /// factor. Every hash that comes back is a bcrypt hash of that work
    /// factor and verifies against `secret`; a work factor out of range fails.
    pub fn hash(&self, secret: &str) -> (r: Result<String, AuthError>)
        ensures
            match r {
                Ok(h) => password_matches(secret@, h@) && bcrypt_form(h@, self.cost),
                Err(e) => e == AuthError::HashingFailure,
            },
            !self.valid() ==> r is Err,
    {
        match bcrypt_hash(secret, self.cost) {
            Ok(h) => Ok(h),
            Err(_) => Err(AuthError::HashingFailure),
        }
    }

    /// Whether `secret` matches the stored `hash`; an unreadable hash is a
    /// mismatch, never an error.
    pub fn verify(secret: &str, hash: &str) -> (r: bool)
        ensures
            r == password_matches(secret@, hash@),
    {
        match bcrypt_verify(secret, hash) {
            Ok(b) => b,
            Err(_) => false,
        }
    }
}

} // verus!
