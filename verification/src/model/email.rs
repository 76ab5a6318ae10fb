//! Recognising e-mail addresses.
use vstd::prelude::*;

verus! {

/// Whether `email_address::EmailAddress::from_str` accepts a text.
pub uninterp spec fn email_accepted(text: Seq<char>) -> bool;

#[verifier::external_type_specification]
#[verifier::external_body]
pub struct ExEmailError(email_address::Error);

/// `EmailAddress::from_str`, then `EmailAddress::to_string`. The parser
/// keeps an accepted text as it was given, and its `Display` writes that
/// text, so what comes back is the argument.
#[verifier::external_body]
pub(crate) fn parse_email(text: &str) -> (r: Result<String, email_address::Error>)
    ensures
        r.is_ok() == email_accepted(text@),
        r matches Ok(s) ==> s@ == text@,
{
    <email_address::EmailAddress as std::str::FromStr>::from_str(text).map(|e| e.to_string())
}

/// The text of an error of the e-mail parser, as its `Display` writes it.
#[verifier::external_body]
pub(crate) fn email_error_text(error: &email_address::Error) -> (r: String)
{
    error.to_string()
}

} // verus!
