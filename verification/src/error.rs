//! Errors of the client.

use vstd::prelude::*;

verus! {

/// What went wrong in an exchange that gave no usable response.
#[derive(Debug, Clone, Copy, PartialEq, Eq, Structural)]
pub enum FailureKind {
    /// The fixed time allowed for one request ran out.
    Timeout,
    /// No connection to the facilitator could be made.
    Connect,
    /// A response arrived, but its body is not the value that was expected.
    Decode,
    /// Any other failure of the transport.
    Other,
}

/// A failure of the transport, with the transport's own words.
#[derive(Debug, Clone)]
pub struct RequestFailure {
    /// The kind of failure.
    pub kind: FailureKind,
    /// The transport's description, for diagnostics.
    pub detail: String,
}

/// Errors that can occur when using the client.
#[derive(Debug)]
pub enum QweryError {
    /// The request could not be carried out, or its answer could not be read.
    /// After such a failure of a settlement the outcome is unknown.
    RequestError(RequestFailure),
    /// A value could not be written or read as JSON.
    JsonError(String),
    /// The facilitator answered outside the 2xx range; the text is the body
    /// of its answer, empty where the body could not be read.
    ApiError(String),
    /// Invalid configuration.
    ConfigError(String),
    /// The envelope has no signature slot for the key, or its message cannot
    /// be signed.
    SigningError(String),
    /// The transaction text is not base64.
    Base64Error(base64::DecodeError),
    /// The transaction bytes are not a transaction, or the transaction has
    /// no binary form.
    SolanaError(String),
}

impl From<RequestFailure> for QweryError {
    /// A failure of the transport is a `RequestError`.
    fn from(failure: RequestFailure) -> (e: Self) {
        QweryError::RequestError(failure)
    }
}

impl vstd::std_specs::convert::FromSpecImpl<RequestFailure> for QweryError {
    open spec fn obeys_from_spec() -> bool {
        true
    }

    open spec fn from_spec(failure: RequestFailure) -> Self {
        QweryError::RequestError(failure)
    }
}

impl From<base64::DecodeError> for QweryError {
    /// An error of the base64 engine is a `Base64Error`.
    fn from(error: base64::DecodeError) -> (e: Self) {
        QweryError::Base64Error(error)
    }
}

impl vstd::std_specs::convert::FromSpecImpl<base64::DecodeError> for QweryError {
    open spec fn obeys_from_spec() -> bool {
        true
    }

    open spec fn from_spec(error: base64::DecodeError) -> Self {
        QweryError::Base64Error(error)
    }
}

} // verus!
