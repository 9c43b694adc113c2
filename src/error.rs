//! The errors of the library: the server's own error envelope and everything
//! that can go wrong while reading a response or validating a request.
use vstd::prelude::*;
use crate::duration::DurationError;
use crate::json::{DecodeError, JsonError};
use crate::text::text_eq;

verus! {

/// The kinds of error that the server reports. Kinds this library does not
/// know are kept as they were sent. `Execution` is sent as `execution`; the
/// short form `exec` is read as the same kind.
#[derive(Debug, Clone, PartialEq, Eq)]
pub enum PrometheusErrorType {
    BadData,
    Timeout,
    Canceled,
    Execution,
    BadResponse,
    Internal,
    Unavailable,
    NotFound,
    NotAcceptable,
    Other(String),
}

/// `k` is the kind that the token `s` names.
pub open spec fn error_type_named(k: PrometheusErrorType, s: Seq<char>) -> bool {
    match k {
        PrometheusErrorType::BadData => s == "bad_data"@,
        PrometheusErrorType::Timeout => s == "timeout"@,
        PrometheusErrorType::Canceled => s == "canceled"@,
        PrometheusErrorType::Execution => s == "execution"@ || s == "exec"@,
        PrometheusErrorType::BadResponse => s == "bad_response"@,
        PrometheusErrorType::Internal => s == "internal"@,
        PrometheusErrorType::Unavailable => s == "unavailable"@,
        PrometheusErrorType::NotFound => s == "not_found"@,
        PrometheusErrorType::NotAcceptable => s == "not_acceptable"@,
        PrometheusErrorType::Other(t) => {
            &&& t@ == s
            &&& s != "bad_data"@
            &&& s != "timeout"@
            &&& s != "canceled"@
            &&& s != "execution"@
            &&& s != "exec"@
            &&& s != "bad_response"@
            &&& s != "internal"@
            &&& s != "unavailable"@
            &&& s != "not_found"@
            &&& s != "not_acceptable"@
        },
    }
}

impl PrometheusErrorType {
    /// The kind that an `errorType` token names; an unknown token is kept.
    pub fn from_token(s: &str) -> (r: PrometheusErrorType)
        ensures
            error_type_named(r, s@),
    {
        if text_eq(s, "bad_data") {
            PrometheusErrorType::BadData
        } else if text_eq(s, "timeout") {
            PrometheusErrorType::Timeout
        } else if text_eq(s, "canceled") {
            PrometheusErrorType::Canceled
        } else if text_eq(s, "execution") || text_eq(s, "exec") {
            PrometheusErrorType::Execution
        } else if text_eq(s, "bad_response") {
            PrometheusErrorType::BadResponse
        } else if text_eq(s, "internal") {
            PrometheusErrorType::Internal
        } else if text_eq(s, "unavailable") {
            PrometheusErrorType::Unavailable
        } else if text_eq(s, "not_found") {
            PrometheusErrorType::NotFound
        } else if text_eq(s, "not_acceptable") {
            PrometheusErrorType::NotAcceptable
        } else {
            PrometheusErrorType::Other(s.to_string())
        }
    }
}

/// An error that the server reported in a well-formed error envelope.
#[derive(Debug, Clone, PartialEq, Eq)]
pub struct PrometheusError {
    pub error_type: PrometheusErrorType,
    pub message: String,
}

impl PrometheusError {
    /// The kind of error.
    pub fn error_type(&self) -> (r: &PrometheusErrorType)
        ensures
            *r == self.error_type,
    {
        &self.error_type
    }

    /// The server's message.
    pub fn message(&self) -> (r: &str)
        ensures
            r@ == self.message@,
    {
        self.message.as_str()
    }
}

/// Everything that a request or the reading of its response can fail with,
/// short of the transport itself.
#[derive(Debug, Clone, PartialEq, Eq)]
pub enum Error {
    /// The server answered with an error envelope.
    Prometheus(PrometheusError),
    /// The envelope's `status` is neither `success` nor `error`; holds it.
    UnknownResponseStatus(String),
    /// The document does not have the shape of the entity asked for.
    Decode(DecodeError),
    /// A duration given as a request parameter is malformed.
    InvalidDuration(DurationError),
    /// The body is not a JSON document.
    Json(JsonError),
}

} // verus!
