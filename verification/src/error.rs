//! The typed outcomes of building and dispatching a notification.
//!
//! Every failure is returned to the caller; nothing is retried or
//! swallowed. Errors raised by the transport stack are carried along
//! unchanged for the caller's diagnostics.

use vstd::prelude::*;

verus! {

#[verifier::external_type_specification]
#[verifier::external_body]
pub struct ExInvalidUri(hyper::http::uri::InvalidUri);

#[verifier::external_type_specification]
#[verifier::external_body]
pub struct ExHttpError(hyper::http::Error);

#[verifier::external_type_specification]
#[verifier::external_body]
pub struct ExHyperError(hyper::Error);

#[verifier::external_type_specification]
#[verifier::external_body]
pub struct ExSerdeJsonError(serde_json::Error);

/// Why a response body could not be turned into text: the read
/// failed at the transport level before all bytes arrived, or the
/// bytes arrived but were not valid UTF-8 (they are kept for the
/// caller's diagnostics).
#[derive(Debug)]
pub enum BodyReadFailure {
    Transport(hyper::Error),
    InvalidText(Vec<u8>),
}

/// What can go wrong while constructing a client or dispatching one
/// notification.
#[derive(Debug)]
pub enum FirebaseClientError {
    /// The project id did not form a well-formed target URI.
    InvalidUriError(hyper::http::uri::InvalidUri),
    /// A value could not be rendered to JSON.
    SerializeNotificationError(serde_json::Error),
    /// The outgoing request could not be constructed.
    BuildRequestError(hyper::http::Error),
    /// The server answered with a status other than 200 or 204; the
    /// status and the response body are kept for diagnostics.
    HttpRequestError { status_code: u16, body: String },
    /// The transport failed before any response arrived.
    ClientError(hyper::Error),
    /// A response arrived but its body could not be read, or could
    /// not be decoded as text.
    ReadBodyError(BodyReadFailure),
}

impl From<hyper::http::uri::InvalidUri> for FirebaseClientError {
    fn from(err: hyper::http::uri::InvalidUri) -> Self {
        FirebaseClientError::InvalidUriError(err)
    }
}

impl vstd::std_specs::convert::FromSpecImpl<hyper::http::uri::InvalidUri> for FirebaseClientError {
    open spec fn obeys_from_spec() -> bool {
        true
    }

    open spec fn from_spec(v: hyper::http::uri::InvalidUri) -> Self {
        FirebaseClientError::InvalidUriError(v)
    }
}

impl From<hyper::http::Error> for FirebaseClientError {
    fn from(err: hyper::http::Error) -> Self {
        FirebaseClientError::BuildRequestError(err)
    }
}

impl vstd::std_specs::convert::FromSpecImpl<hyper::http::Error> for FirebaseClientError {
    open spec fn obeys_from_spec() -> bool {
        true
    }

    open spec fn from_spec(v: hyper::http::Error) -> Self {
        FirebaseClientError::BuildRequestError(v)
    }
}

impl From<hyper::Error> for FirebaseClientError {
    fn from(err: hyper::Error) -> Self {
        FirebaseClientError::ClientError(err)
    }
}

impl vstd::std_specs::convert::FromSpecImpl<hyper::Error> for FirebaseClientError {
    open spec fn obeys_from_spec() -> bool {
        true
    }

    open spec fn from_spec(v: hyper::Error) -> Self {
        FirebaseClientError::ClientError(v)
    }
}

impl From<serde_json::Error> for FirebaseClientError {
    fn from(err: serde_json::Error) -> Self {
        FirebaseClientError::SerializeNotificationError(err)
    }
}

impl vstd::std_specs::convert::FromSpecImpl<serde_json::Error> for FirebaseClientError {
    open spec fn obeys_from_spec() -> bool {
        true
    }

    open spec fn from_spec(v: serde_json::Error) -> Self {
        FirebaseClientError::SerializeNotificationError(v)
    }
}

} // verus!
