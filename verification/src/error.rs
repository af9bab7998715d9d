//! The failures that the gateway's authentication and authorization report.

use vstd::prelude::*;
use vstd::string::StringExecFns;

verus! {

/// Why a request was turned away, or why the key source could not be read.
#[derive(Debug, Clone, Copy, PartialEq, Eq, Structural)]
pub enum RestError {
    /// The key source answered with a status other than 200.
    BadStatusCode,
    /// No key set could be had from the key source.
    KeySourceUnavailable,
    /// The bearer token carries no readable key identifier.
    MalformedToken,
    /// The token's key identifier names no key of the current key set.
    UnknownKey,
    /// The key that the token names is not an RSA key.
    UnsupportedAlgorithm,
    /// Signature, expiry, not-before, audience or claim shape did not hold.
    InvalidToken,
    /// No cluster grant matches this server, or a capability check failed.
    UnauthorizedClient,
    /// A changing operation was asked of a read-only deployment.
    ReadOnly,
}

impl RestError {
    /// The JSON body that describes this failure.
    pub open spec fn message_text(self) -> Seq<char> {
        match self {
            RestError::BadStatusCode => "{\"error\": \"Bad status code\"}"@,
            RestError::KeySourceUnavailable => "{\"error\": \"Key source unavailable\"}"@,
            RestError::MalformedToken => "{\"error\": \"Malformed token\"}"@,
            RestError::UnknownKey => "{\"error\": \"Unknown key\"}"@,
            RestError::UnsupportedAlgorithm => "{\"error\": \"Unsupported algorithm\"}"@,
            RestError::InvalidToken => "{\"error\": \"Unable to decode JWT\"}"@,
            RestError::UnauthorizedClient => "{\"error\": \"Unauthorized\"}"@,
            RestError::ReadOnly => "{\"error\": \"Readonly cluster\"}"@,
        }
    }

    /// The HTTP status under which a handler reports this failure: 403,
    /// access denied, for a refused capability check and for a refused write
    /// on a read-only deployment; 500 for everything else.
    pub open spec fn status(self) -> int {
        if self == RestError::UnauthorizedClient || self == RestError::ReadOnly {
            403
        } else {
            500
        }
    }

    pub fn message(&self) -> (text: String)
        ensures
            text@ == self.message_text(),
    {
        match self {
            RestError::BadStatusCode => String::from_str("{\"error\": \"Bad status code\"}"),
            RestError::KeySourceUnavailable => String::from_str(
                "{\"error\": \"Key source unavailable\"}",
            ),
            RestError::MalformedToken => String::from_str("{\"error\": \"Malformed token\"}"),
            RestError::UnknownKey => String::from_str("{\"error\": \"Unknown key\"}"),
            RestError::UnsupportedAlgorithm => String::from_str(
                "{\"error\": \"Unsupported algorithm\"}",
            ),
            RestError::InvalidToken => String::from_str("{\"error\": \"Unable to decode JWT\"}"),
            RestError::UnauthorizedClient => String::from_str("{\"error\": \"Unauthorized\"}"),
            RestError::ReadOnly => String::from_str("{\"error\": \"Readonly cluster\"}"),
        }
    }

    pub fn status_code(&self) -> (code: u16)
        ensures
            code == self.status(),
    {
        match self {
            RestError::UnauthorizedClient => 403,
            RestError::ReadOnly => 403,
            _ => 500,
        }
    }
}

} // verus!
