//! Shape checks on contact details given at registration.

use vstd::prelude::*;

verus! {

/// What the `regex` crate answers for `text` against `pattern`: `None` where
/// the pattern does not compile, else whether the text matches it.
pub uninterp spec fn regex_verdict(pattern: Seq<char>, text: Seq<char>) -> Option<bool>;

/// Relies on `regex::Regex::new` and `Regex::is_match`.
#[verifier::external_body]
fn regex_is_match(pattern: &str, text: &str) -> (r: Option<bool>)
    ensures
        r == regex_verdict(pattern@, text@),
{
    regex::Regex::new(pattern).ok().map(|re| re.is_match(text))
}

/// An e-mail address: word characters, dots and hyphens, an `@`, and a
/// domain that ends in a dot and word characters.
pub open spec fn email_pattern() -> Seq<char> {
    "^[\\w\\.-]+@[\\w\\.-]+\\.\\w+$"@
}

/// A telephone number in E.164 form: an optional `+`, a non-zero digit and
/// one to fourteen more digits.
pub open spec fn phone_pattern() -> Seq<char> {
    "^\\+?[1-9]\\d{1,14}$"@
}

/// Whether `email` has the shape of an e-mail address.
pub fn validate_email(email: &str) -> (r: bool)
    ensures
        r == (regex_verdict(email_pattern(), email@) == Some(true)),
{
    match regex_is_match("^[\\w\\.-]+@[\\w\\.-]+\\.\\w+$", email) {
        Some(b) => b,
        None => false,
    }
}

/// Whether `phone` is a telephone number in E.164 form.
pub fn validate_phone_number(phone: &str) -> (r: bool)
    ensures
        r == (regex_verdict(phone_pattern(), phone@) == Some(true)),
{
    match regex_is_match("^\\+?[1-9]\\d{1,14}$", phone) {
        Some(b) => b,
        None => false,
    }
}

} // verus!
