//! The account rules of the user service: registration, login and profile
//! edits, on account data that the caller has read from its store.

use vstd::prelude::*;
use crate::authority::{issued_for, SessionAuthority};
use crate::hasher::{bcrypt_form, password_matches, CredentialHasher};
use crate::identity::Identity;
use crate::validation::{email_pattern, regex_verdict, validate_email};

verus! {

/// What the store holds of an account for logging in.
pub struct Account {
    pub id: Identity,
    pub password_hash: String,
    pub is_active: bool,
}

/// The fields of a profile that an edit may change.
pub struct Profile {
    pub first_name: String,
    pub last_name: String,
    pub phone_number: Option<String>,
    pub mailing_address: Option<String>,
}

/// Why a registration was refused.
#[derive(Clone, Copy, Debug, PartialEq, Eq, Structural)]
pub enum RegisterError {
    InvalidEmail,
    HashingFailure,
}

/// Why a login was refused.
#[derive(Clone, Copy, Debug, PartialEq, Eq, Structural)]
pub enum LoginError {
    /// No active account has that e-mail address.
    UserNotFound,
    /// The password does not match the account's hash.
    InvalidPassword,
}

/// The view of an optional text.
pub open spec fn opt_view(s: Option<String>) -> Option<Seq<char>> {
    match s {
        Some(t) => Some(t@),
        None => None,
    }
}

/// The view of an optional borrowed text.
pub open spec fn opt_str_view(s: Option<&str>) -> Option<Seq<char>> {
    match s {
        Some(t) => Some(t@),
        None => None,
    }
}

/// An owned copy of an optional text.
fn to_owned_opt(s: Option<&str>) -> (r: Option<String>)
    ensures
        opt_view(r) == opt_str_view(s),
{
    match s {
        Some(t) => Some(t.to_owned()),
        None => None,
    }
}

/// Logs in with tokens from `authority` and checks passwords and hashes new
/// ones with `hasher`.
pub struct UserService {
    pub authority: SessionAuthority,
    pub hasher: CredentialHasher,
}

impl UserService {
    /// A service from its authority and its hasher.
    pub fn new(authority: SessionAuthority, hasher: CredentialHasher) -> (r: UserService)
        ensures
            r.authority == authority,
            r.hasher == hasher,
    {
        UserService { authority, hasher }
    }

    /// Checks a registration: the e-mail address must have the shape of one,
    /// and then the password is hashed at the hasher's work factor. Returns
    /// the hash to store, a bcrypt hash that the password verifies against.
    pub fn create_user(&self, email: &str, password: &str) -> (r: Result<String, RegisterError>)
        ensures
            regex_verdict(email_pattern(), email@) != Some(true) ==> r == Err::<String, RegisterError>(
                RegisterError::InvalidEmail,
            ),
            regex_verdict(email_pattern(), email@) == Some(true) ==> match r {
                Ok(h) => password_matches(password@, h@) && bcrypt_form(h@, self.hasher.cost),
                Err(e) => e == RegisterError::HashingFailure,
            },
            regex_verdict(email_pattern(), email@) == Some(true) && !self.hasher.valid() ==> r is Err,
    {
        if !validate_email(email) {
            return Err(RegisterError::InvalidEmail);
        }
        match self.hasher.hash(password) {
            Ok(h) => Ok(h),
            Err(_) => Err(RegisterError::HashingFailure),
        }
    }

    /// Logs in at the instant `now` with the account found for the e-mail
    /// address, if any: an active account whose hash the password matches
    /// gets a session token for its identity.
    pub fn authenticate_user(&self, account: Option<&Account>, password: &str, now: u64) -> (r: Result<String, LoginError>)
        requires
            now + self.authority.ttl <= u64::MAX,
        ensures
            match account {
                None => r == Err::<String, LoginError>(LoginError::UserNotFound),
                Some(a) => if !a.is_active {
                    r == Err::<String, LoginError>(LoginError::UserNotFound)
                } else if !password_matches(password@, a.password_hash@) {
                    r == Err::<String, LoginError>(LoginError::InvalidPassword)
                } else {
                    r is Ok && issued_for(r->Ok_0@, self.authority.signing_key@, a.id, (now + self.authority.ttl) as u64)
                },
            },
    {
        let a = match account {
            None => return Err(LoginError::UserNotFound),
            Some(a) => a,
        };
        if !a.is_active {
            return Err(LoginError::UserNotFound);
        }
        if !CredentialHasher::verify(password, a.password_hash.as_str()) {
            return Err(LoginError::InvalidPassword);
        }
        Ok(self.authority.issue(a.id, now))
    }

    /// Applies an edit to a profile: each given field replaces the stored
    /// one, and each absent field leaves it as it was.
    pub fn update_user(
        profile: &mut Profile,
        first_name: Option<&str>,
        last_name: Option<&str>,
        phone_number: Option<&str>,
        mailing_address: Option<&str>,
    )
        ensures
            final(profile).first_name@ == match first_name {
                Some(s) => s@,
                None => old(profile).first_name@,
            },
            final(profile).last_name@ == match last_name {
                Some(s) => s@,
                None => old(profile).last_name@,
            },
            opt_view(final(profile).phone_number) == match phone_number {
                Some(s) => Some(s@),
                None => opt_view(old(profile).phone_number),
            },
            opt_view(final(profile).mailing_address) == match mailing_address {
                Some(s) => Some(s@),
                None => opt_view(old(profile).mailing_address),
            },
    {
        if let Some(s) = first_name {
            profile.first_name = s.to_owned();
        }
        if let Some(s) = last_name {
            profile.last_name = s.to_owned();
        }
        if phone_number.is_some() {
            profile.phone_number = to_owned_opt(phone_number);
        }
        if mailing_address.is_some() {
            profile.mailing_address = to_owned_opt(mailing_address);
        }
    }
}

} // verus!
