//! The failures the relay reports to its callers.

use vstd::prelude::*;

verus! {

#[verifier::external_type_specification]
#[verifier::external_body]
pub struct ExIoError(std::io::Error);

#[verifier::external_type_specification]
#[verifier::external_body]
pub struct ExJsonError(serde_json::Error);

#[verifier::external_type_specification]
#[verifier::external_body]
pub struct ExErrorStack(openssl::error::ErrorStack);

/// Everything that can go wrong while serving a flow or handling key material.
#[derive(Debug)]
pub enum OAuthError {
    /// A file could not be read or written.
    IOError(std::io::Error),
    /// A JSON document could not be produced or understood.
    JSONError(serde_json::Error),
    /// The request is answered with this HTTP status code and no redirect.
    HTTPError(u16),
    /// The transport to a remote endpoint failed; the text is its message.
    HTTPClientError(String),
    /// The cryptographic provider failed.
    OpenSSLError(openssl::error::ErrorStack),
    /// The provider reported that the flow was finished or abandoned elsewhere.
    DifferentBrowserError(String),
    /// Any other failure; the text carries the diagnostics.
    UnknownError(String),
}

/// The status for a request that cannot be served because it is malformed.
pub const STATUS_BAD_REQUEST: u16 = 400;

/// The status for a request that failed inside the relay.
pub const STATUS_INTERNAL_ERROR: u16 = 500;

/// The status for a request that failed at a remote endpoint.
pub const STATUS_BAD_GATEWAY: u16 = 502;

/// The HTTP status with which a failure is answered. A failure that names
/// its status is answered with it; a flow that was finished elsewhere is a
/// malformed request; a failure of a remote endpoint or of the transport to
/// it is a bad gateway; everything else failed inside the relay.
pub open spec fn status_of(err: OAuthError) -> u16 {
    match err {
        OAuthError::HTTPError(status) => status,
        OAuthError::DifferentBrowserError(_) => STATUS_BAD_REQUEST,
        OAuthError::UnknownError(_) => STATUS_BAD_GATEWAY,
        OAuthError::HTTPClientError(_) => STATUS_BAD_GATEWAY,
        OAuthError::IOError(_) => STATUS_INTERNAL_ERROR,
        OAuthError::JSONError(_) => STATUS_INTERNAL_ERROR,
        OAuthError::OpenSSLError(_) => STATUS_INTERNAL_ERROR,
    }
}

/// The text that the answer to a failure carries: the diagnostics of an
/// unknown error, which for a remote endpoint is the body it sent, and the
/// provider's message for a flow that was finished elsewhere. Every other
/// failure is answered without a body.
pub open spec fn body_of(err: OAuthError) -> Option<String> {
    match err {
        OAuthError::UnknownError(body) => Some(body),
        OAuthError::DifferentBrowserError(message) => Some(message),
        _ => None,
    }
}

impl OAuthError {
    /// The HTTP status with which this failure is answered.
    pub fn status(&self) -> (status: u16)
        ensures
            status == status_of(*self),
    {
        match self {
            OAuthError::HTTPError(status) => *status,
            OAuthError::DifferentBrowserError(_) => STATUS_BAD_REQUEST,
            OAuthError::UnknownError(_) => STATUS_BAD_GATEWAY,
            OAuthError::HTTPClientError(_) => STATUS_BAD_GATEWAY,
            OAuthError::IOError(_) => STATUS_INTERNAL_ERROR,
            OAuthError::JSONError(_) => STATUS_INTERNAL_ERROR,
            OAuthError::OpenSSLError(_) => STATUS_INTERNAL_ERROR,
        }
    }

    /// The text that the answer to this failure carries, if any.
    pub fn body(&self) -> (body: Option<String>)
        ensures
            body == body_of(*self),
    {
        match self {
            OAuthError::UnknownError(body) => Some(body.clone()),
            OAuthError::DifferentBrowserError(message) => Some(message.clone()),
            _ => None,
        }
    }
}

impl From<std::io::Error> for OAuthError {
    fn from(err: std::io::Error) -> (res: OAuthError) {
        OAuthError::IOError(err)
    }
}

impl vstd::std_specs::convert::FromSpecImpl<std::io::Error> for OAuthError {
    open spec fn obeys_from_spec() -> bool {
        true
    }

    open spec fn from_spec(err: std::io::Error) -> OAuthError {
        OAuthError::IOError(err)
    }
}

impl From<serde_json::Error> for OAuthError {
    fn from(err: serde_json::Error) -> (res: OAuthError) {
        OAuthError::JSONError(err)
    }
}

impl vstd::std_specs::convert::FromSpecImpl<serde_json::Error> for OAuthError {
    open spec fn obeys_from_spec() -> bool {
        true
    }

    open spec fn from_spec(err: serde_json::Error) -> OAuthError {
        OAuthError::JSONError(err)
    }
}

impl From<u16> for OAuthError {
    fn from(status: u16) -> (res: OAuthError) {
        OAuthError::HTTPError(status)
    }
}

impl vstd::std_specs::convert::FromSpecImpl<u16> for OAuthError {
    open spec fn obeys_from_spec() -> bool {
        true
    }

    open spec fn from_spec(status: u16) -> OAuthError {
        OAuthError::HTTPError(status)
    }
}

impl From<openssl::error::ErrorStack> for OAuthError {
    fn from(err: openssl::error::ErrorStack) -> (res: OAuthError) {
        OAuthError::OpenSSLError(err)
    }
}

impl vstd::std_specs::convert::FromSpecImpl<openssl::error::ErrorStack> for OAuthError {
    open spec fn obeys_from_spec() -> bool {
        true
    }

    open spec fn from_spec(err: openssl::error::ErrorStack) -> OAuthError {
        OAuthError::OpenSSLError(err)
    }
}

impl From<String> for OAuthError {
    fn from(err: String) -> (res: OAuthError) {
        OAuthError::DifferentBrowserError(err)
    }
}

impl vstd::std_specs::convert::FromSpecImpl<String> for OAuthError {
    open spec fn obeys_from_spec() -> bool {
        true
    }

    open spec fn from_spec(err: String) -> OAuthError {
        OAuthError::DifferentBrowserError(err)
    }
}

} // verus!
