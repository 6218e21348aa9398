//! The exchanges with the facilitator, as values: what is to be sent, what
//! came back, and what the caller gets for it. Sending and receiving are the
//! caller's part.

use crate::error::{FailureKind, QweryError, RequestFailure};
use crate::types::{PaymentRequest, SettleRequest, VerifyRequest};
use vstd::prelude::*;

verus! {

/// Path of the endpoint that creates a payment.
pub const CREATE_PATH: &'static str = "/payments/create";

/// Path of the endpoint that settles a payment.
pub const SETTLE_PATH: &'static str = "/payments/settle";

/// Path of the endpoint that verifies a payment.
pub const VERIFY_PATH: &'static str = "/payments/verify";

/// Path of the endpoint that reports the facilitator's health.
pub const HEALTH_PATH: &'static str = "/health";

/// Scheme of the credential in the `Authorization` header.
pub const BEARER_PREFIX: &'static str = "Bearer ";

/// Seconds allowed for one request.
pub const REQUEST_TIMEOUT_SECS: u64 = 30;

/// HTTP method of a request.
#[derive(Debug, Clone, Copy, PartialEq, Eq, Structural)]
pub enum Method {
    Get,
    Post,
}

/// The JSON body of a request.
#[derive(Debug, Clone)]
pub enum Payload {
    /// The request has no body.
    Empty,
    /// Body of a request to create a payment: the fields of `request` and
    /// `network`, side by side in one object. `metadata` is `null` where the
    /// request has none.
    Create { request: PaymentRequest, network: String },
    /// Body of a request to settle a payment.
    Settle(SettleRequest),
    /// Body of a request to verify a payment.
    Verify(VerifyRequest),
}

/// One request to the facilitator.
#[derive(Debug, Clone)]
pub struct ApiRequest {
    /// HTTP method.
    pub method: Method,
    /// Address of the endpoint.
    pub url: String,
    /// Value of the `Authorization` header; no such header where `None`.
    pub authorization: Option<String>,
    /// The body.
    pub body: Payload,
}

/// The text of an optional string.
pub open spec fn text_of(s: Option<String>) -> Option<Seq<char>> {
    match s {
        Some(s) => Some(s@),
        None => None,
    }
}

/// The body of a response, as far as the transport could read it.
#[derive(Debug)]
pub enum Body<T> {
    /// The body could not be read, or is not the value expected; the
    /// transport says why.
    Unreadable(RequestFailure),
    /// The body, as text.
    Text(String),
    /// The body, decoded.
    Value(T),
}

/// What the transport has to report of one request.
#[derive(Debug)]
pub enum Outcome<T> {
    /// No response: name resolution, TLS, timeout, a connection reset.
    Failed(RequestFailure),
    /// A response, with its status code.
    Answered { status: u16, body: Body<T> },
}

/// Whether a status code is a success: the range 200 to 299.
pub open spec fn is_success(status: u16) -> bool {
    200 <= status < 300
}

/// Whether the body of a response with this status is to be decoded as the
/// value that the request asks for. The body of any other response is read
/// as text, for diagnostics.
pub fn expects_value(status: u16) -> (decode: bool)
    ensures
        decode == is_success(status),
{
    200 <= status && status < 300
}

impl<T> Outcome<T> {
    /// What the caller of an operation gets for what the transport reports.
    ///
    /// - No response: `RequestError`, with the transport's failure.
    /// - A status outside 200 to 299: `ApiError` with the body's text, as it
    ///   is; with the empty text where the body was not read as text.
    /// - A status within 200 to 299: the decoded value; `RequestError` where
    ///   there is none, with the transport's failure, or of kind `Decode`
    ///   with the body's text where the body was only read as text.
    pub fn into_result(self) -> (r: Result<T, QweryError>)
        ensures
            match self {
                Outcome::Failed(failure) => r matches Err(QweryError::RequestError(f)) && f
                    == failure,
                Outcome::Answered { status, body } => if !is_success(status) {
                    match body {
                        Body::Text(text) => r matches Err(QweryError::ApiError(t)) && t == text,
                        _ => r matches Err(QweryError::ApiError(t)) && t@ == Seq::<char>::empty(),
                    }
                } else {
                    match body {
                        Body::Value(value) => r matches Ok(v) && v == value,
                        Body::Unreadable(failure) => r matches Err(QweryError::RequestError(f))
                            && f == failure,
                        Body::Text(text) => r matches Err(QweryError::RequestError(f)) && f.kind
                            == FailureKind::Decode && f.detail == text,
                    }
                },
            },
    {
        match self {
            Outcome::Failed(failure) => Err(QweryError::from(failure)),
            Outcome::Answered { status, body } => {
                if !expects_value(status) {
                    match body {
                        Body::Text(text) => Err(QweryError::ApiError(text)),
                        _ => Err(QweryError::ApiError(String::new())),
                    }
                } else {
                    match body {
                        Body::Value(value) => Ok(value),
                        Body::Unreadable(failure) => Err(QweryError::from(failure)),
                        Body::Text(text) => Err(
                            QweryError::RequestError(
                                RequestFailure { kind: FailureKind::Decode, detail: text },
                            ),
                        ),
                    }
                }
            },
        }
    }
}

} // verus!
