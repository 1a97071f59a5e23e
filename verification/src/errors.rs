//! The relay's failure taxonomy and its user-facing messages.
//!
//! Every failure a caller can see is one variant here, and each variant maps
//! to exactly one message through [`error_message`], whose contract pins the
//! message character for character.

use vstd::prelude::*;
use crate::digits::decimal_digits;
use crate::digits::u16_decimal;

verus! {

/// Every way a relayed request can fail.
///
/// The upstream variants classify failures of the completion call;
/// `ConfigurationMissing` is raised before any upstream call is made, and
/// `MalformedResponse` when the upstream succeeds but returns no content
/// block to relay.
pub enum RelayError {
    /// The required API key is absent from the configuration.
    ConfigurationMissing,
    /// The upstream API could not be reached.
    ConnectionFailure,
    /// The upstream API rejected the credentials.
    AuthenticationFailure,
    /// The upstream API rejected the request as invalid; carries the
    /// upstream detail verbatim.
    BadRequest(String),
    /// The upstream API reported rate limiting.
    RateLimited,
    /// The upstream API returned a non-success status with no more
    /// specific category; carries the status code.
    StatusError(u16),
    /// Any other failure; carries the raw error text verbatim.
    Unknown(String),
    /// The upstream API reported success but sent no content block.
    MalformedResponse,
}

/// The user-facing message for each failure variant.
pub open spec fn error_message_spec(e: RelayError) -> Seq<char> {
    match e {
        RelayError::ConfigurationMissing => "ANTHROPIC_API_KEY not set"@,
        RelayError::ConnectionFailure => "Failed to connect to Anthropic API."@,
        RelayError::AuthenticationFailure => "Authentication failed. Check your API key."@,
        RelayError::BadRequest(detail) => "Bad request to Anthropic API: "@ + detail@,
        RelayError::RateLimited => "Rate limit exceeded."@,
        RelayError::StatusError(code) => "Anthropic API returned status code: "@ + decimal_digits(
            code as int,
        ),
        RelayError::Unknown(text) => "An unexpected error occurred: "@ + text@,
        RelayError::MalformedResponse => "Anthropic API returned no content."@,
    }
}

/// Renders the user-facing message for a failure.
pub fn error_message(e: &RelayError) -> (r: String)
    ensures
        r@ == error_message_spec(*e),
{
    match e {
        RelayError::ConfigurationMissing => "ANTHROPIC_API_KEY not set".to_owned(),
        RelayError::ConnectionFailure => "Failed to connect to Anthropic API.".to_owned(),
        RelayError::AuthenticationFailure => "Authentication failed. Check your API key.".to_owned(),
        RelayError::BadRequest(detail) => "Bad request to Anthropic API: ".to_owned().concat(
            detail.as_str(),
        ),
        RelayError::RateLimited => "Rate limit exceeded.".to_owned(),
        RelayError::StatusError(code) => {
            let digits = u16_decimal(*code);
            "Anthropic API returned status code: ".to_owned().concat(digits.as_str())
        },
        RelayError::Unknown(text) => "An unexpected error occurred: ".to_owned().concat(
            text.as_str(),
        ),
        RelayError::MalformedResponse => "Anthropic API returned no content.".to_owned(),
    }
}

} // verus!
