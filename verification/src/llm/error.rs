//! Errors of LLM operations.

use vstd::prelude::*;

use crate::text::{owned, push_decimal, decimal};

verus! {

/// Errors that can occur during LLM operations.
#[derive(Debug, Clone, PartialEq, Eq)]
pub enum LLMError {
    /// No API key was found for the provider.
    MissingApiKey,
    /// A required configuration value is missing.
    MissingConfig(String),
    /// The request could not be made or its body could not be read.
    RequestFailed(String),
    /// The API answered with an error status.
    ApiError { status: u16, message: String },
    /// The response could not be parsed.
    ParseError(String),
    /// The API refused the request for its rate limit.
    RateLimited,
    /// A transport error.
    Network(String),
    /// The configured provider name is not known.
    UnknownProvider(String),
}

/// The message of an LLM error.
pub open spec fn llm_error_message(e: LLMError) -> Seq<char> {
    match e {
        LLMError::MissingApiKey => "Missing API key. Set the appropriate environment variable for your provider."@,
        LLMError::MissingConfig(s) => "Missing configuration: "@ + s@,
        LLMError::RequestFailed(s) => "API request failed: "@ + s@,
        LLMError::ApiError { status, message } => "API returned error: "@ + decimal(status as nat)
            + " - "@ + message@,
        LLMError::ParseError(s) => "Failed to parse response: "@ + s@,
        LLMError::RateLimited => "Rate limited. Try again later."@,
        LLMError::Network(s) => "Network error: "@ + s@,
        LLMError::UnknownProvider(s) => "Unknown provider: "@ + s@,
    }
}

impl LLMError {
    /// The human-readable message of this error.
    pub fn to_display_string(&self) -> (r: String)
        ensures
            r@ == llm_error_message(*self),
    {
        match self {
            LLMError::MissingApiKey => owned(
                "Missing API key. Set the appropriate environment variable for your provider.",
            ),
            LLMError::MissingConfig(s) => {
                let mut r = owned("Missing configuration: ");
                r.append(s.as_str());
                r
            },
            LLMError::RequestFailed(s) => {
                let mut r = owned("API request failed: ");
                r.append(s.as_str());
                r
            },
            LLMError::ApiError { status, message } => {
                let mut r = owned("API returned error: ");
                push_decimal(&mut r, *status as usize);
                r.append(" - ");
                r.append(message.as_str());
                r
            },
            LLMError::ParseError(s) => {
                let mut r = owned("Failed to parse response: ");
                r.append(s.as_str());
                r
            },
            LLMError::RateLimited => owned("Rate limited. Try again later."),
            LLMError::Network(s) => {
                let mut r = owned("Network error: ");
                r.append(s.as_str());
                r
            },
            LLMError::UnknownProvider(s) => {
                let mut r = owned("Unknown provider: ");
                r.append(s.as_str());
                r
            },
        }
    }
}

} // verus!
