//! The SDK's error taxonomy. Transport and serialisation faults arrive
//! from the boundary as plain messages; everything the library itself
//! decides is constructed here.

use vstd::prelude::*;

verus! {

/// Main error type of the SDK.
#[derive(Debug, Clone, PartialEq, Eq)]
pub enum AfricasTalkingError {
    /// An HTTP request failed; the transport's description of why.
    Http(String),
    /// The API answered with an error response.
    Api {
        /// The API's error message.
        message: String,
        /// The API's error code, or the HTTP status standing in for it.
        code: String,
        /// A pointer to further documentation, when given.
        more_info: Option<String>,
    },
    /// Serialising or deserialising a payload failed.
    Serialization(String),
    /// The client configuration is unusable.
    Config(String),
    /// A request parameter failed validation.
    Validation(String),
    /// Authentication was rejected.
    Auth(String),
    /// The API asked to slow down.
    RateLimit {
        /// Seconds to wait before trying again.
        retry_after: u64,
    },
    /// The request timed out.
    Timeout,
    /// An internal fault.
    Internal(String),
}

/// Standard API error response structure.
#[derive(Debug, Clone, PartialEq, Eq)]
pub struct ApiErrorResponse {
    /// The API's error message.
    pub error_message: String,
    /// The API's error code, when given.
    pub error_code: Option<String>,
    /// A pointer to further documentation, when given.
    pub more_info: Option<String>,
}

impl AfricasTalkingError {
    /// An API error from its response fields.
    pub fn api_error(message: String, code: String, more_info: Option<String>) -> (r: Self)
        ensures
            r == (AfricasTalkingError::Api { message, code, more_info }),
    {
        AfricasTalkingError::Api { message, code, more_info }
    }

    /// A validation error with the given message.
    pub fn validation(message: &str) -> (r: Self)
        ensures
            r matches AfricasTalkingError::Validation(m) && m@ == message@,
    {
        AfricasTalkingError::Validation(message.to_owned())
    }

    /// A configuration error with the given message.
    pub fn config(message: &str) -> (r: Self)
        ensures
            r matches AfricasTalkingError::Config(m) && m@ == message@,
    {
        AfricasTalkingError::Config(message.to_owned())
    }

    /// True exactly for the transient faults worth retrying: transport
    /// failures, timeouts and rate limits.
    pub fn is_retryable(&self) -> (r: bool)
        ensures
            r == (*self is Http || *self is Timeout || *self is RateLimit),
    {
        match self {
            AfricasTalkingError::Http(_) => true,
            AfricasTalkingError::Timeout => true,
            AfricasTalkingError::RateLimit { .. } => true,
            _ => false,
        }
    }
}

} // verus!
