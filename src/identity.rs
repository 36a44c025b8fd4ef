//! Principal identities: 128-bit values written as hyphenated UUID text.

use vstd::prelude::*;

verus! {

/// The identity of a principal, a 128-bit value owned by the account store.
#[derive(Clone, Copy, Debug, PartialEq, Eq, Structural)]
pub struct Identity {
    pub value: u128,
}

/// The lower-case hexadecimal digit of `d` (`d < 16`).
pub open spec fn hex_char(d: nat) -> char {
    if d < 10 {
        ((d + 48) as u8) as char
    } else {
        ((d + 87) as u8) as char
    }
}

/// The last `n` hexadecimal digits of `v`, most significant first.
pub open spec fn hex_digits(v: nat, n: nat) -> Seq<char>
    decreases n,
{
    if n == 0 {
        Seq::empty()
    } else {
        hex_digits(v / 16, (n - 1) as nat).push(hex_char(v % 16))
    }
}

/// The hyphenated form `xxxxxxxx-xxxx-xxxx-xxxx-xxxxxxxxxxxx` of a 128-bit value.
pub open spec fn hyphenated(v: u128) -> Seq<char> {
    let d = hex_digits(v as nat, 32);
    d.subrange(0, 8) + seq!['-'] + d.subrange(8, 12) + seq!['-'] + d.subrange(12, 16) + seq!['-']
        + d.subrange(16, 20) + seq!['-'] + d.subrange(20, 32)
}

/// What `uuid::Uuid::parse_str` makes of a text: the UUID's 128-bit value,
/// or `None` where the text is no UUID in any of the forms that it reads.
pub uninterp spec fn uuid_parsed(s: Seq<char>) -> Option<u128>;

/// Relies on `uuid::Uuid::from_u128` and the `Display` of `Uuid`: the text is
/// the hyphenated lower-case form, which `Uuid::parse_str` reads back.
#[verifier::external_body]
fn uuid_text(v: u128) -> (r: String)
    ensures
        r@ == hyphenated(v),
        uuid_parsed(r@) == Some(v),
{
    uuid::Uuid::from_u128(v).to_string()
}

/// Relies on `uuid::Uuid::parse_str` and `Uuid::as_u128`.
#[verifier::external_body]
fn uuid_parse(s: &str) -> (r: Option<u128>)
    ensures
        r == uuid_parsed(s@),
{
    match uuid::Uuid::parse_str(s) {
        Ok(u) => Some(u.as_u128()),
        Err(_) => None,
    }
}

impl Identity {
    /// The identity as hyphenated UUID text, the form carried in tokens.
    pub fn to_text(&self) -> (r: String)
        ensures
            r@ == hyphenated(self.value),
            uuid_parsed(r@) == Some(self.value),
    {
        uuid_text(self.value)
    }

    /// Reads an identity from UUID text; `None` where the text is no UUID.
    pub fn from_text(s: &str) -> (r: Option<Identity>)
        ensures
            r == identity_of_text(s@),
    {
        match uuid_parse(s) {
            Some(v) => Some(Identity { value: v }),
            None => None,
        }
    }
}

/// The identity that a text names, if it is a UUID.
pub open spec fn identity_of_text(s: Seq<char>) -> Option<Identity> {
    match uuid_parsed(s) {
        Some(v) => Some(Identity { value: v }),
        None => None,
    }
}

/// Reads a path parameter as an identity, with a message where it is no UUID.
pub fn validate_uuid(id: &str) -> (r: Result<Identity, String>)
    ensures
        match identity_of_text(id@) {
            Some(i) => r == Ok::<Identity, String>(i),
            None => r is Err && r->Err_0@ == "Invalid UUID format"@,
        },
{
    match Identity::from_text(id) {
        Some(i) => Ok(i),
        None => Err(String::from_str("Invalid UUID format")),
    }
}

} // verus!
