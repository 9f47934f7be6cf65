//! Errors of the Mailchimp client.
use vstd::prelude::*;

verus! {

/// `url::ParseError`, the error of URL parsing, carried through unchanged.
#[verifier::external_type_specification]
#[verifier::external_body]
pub struct ExUrlParseError(url::ParseError);

/// An error reported by the Mailchimp API in the body of a 4xx response.
pub struct MailchimError {
    pub status: u16,
    /// The `type` member of the API's error document.
    pub error_type: Option<String>,
    pub title: String,
    pub detail: String,
    pub instance: String,
}

/// Errors of the library's part of the client. Transport and JSON errors
/// arise where requests are sent and bodies decoded, outside the library.
pub enum Error {
    MalformedAPIKey,
    MalformedUrl(url::ParseError),
    Mailchimp(MailchimError),
    Number(String),
    InvalidMergeType(String),
}

impl Error {
    /// An error for an unexpected or invalid number given as text.
    pub fn number(value: &str) -> (r: Error)
        ensures
            r matches Error::Number(s) && s@ == value@,
    {
        Error::Number(value.to_owned())
    }

    /// Wraps an error document returned by the API.
    pub fn mailchimp(value: MailchimError) -> (r: Error)
        ensures
            r == Error::Mailchimp(value),
    {
        Error::Mailchimp(value)
    }
}

} // verus!
