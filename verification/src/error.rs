//! The unified error taxonomy: body-encoding failures, transport failures,
//! URL-parse failures, and HTTP-response failures.

use vstd::prelude::*;

verus! {

/// Error raised while a descriptor's fields are serialized into query
/// parameters or a request body, before any network activity.
#[derive(Debug, Clone)]
pub enum BodyError {
    /// Error serializing form data
    UrlEncoding(String),
}

/// A builder was finished while a required field was still unset.
#[derive(Debug, Clone)]
pub struct BuilderError {
    /// The name of the unset field.
    pub field: String,
}

/// Failure to read a typed value out of an already parsed JSON value.
#[derive(Debug, Clone)]
pub struct DecodeError {
    /// What was missing or of the wrong shape.
    pub message: String,
}

/// Error in an HTTP response, after the transport returned one.
#[derive(Debug)]
pub enum ResponseError {
    /// The response body is not valid JSON.
    Parse(serde_json::Error),
    /// The response body is valid JSON but does not match the requested
    /// result shape; the raw JSON value is retained for inspection.
    DataType {
        /// What was missing or of the wrong shape.
        message: String,
        /// The parsed response body.
        value: serde_json::Value,
    },
    /// The server answered with a non-success status; the raw JSON value is
    /// retained for inspection.
    HttpStatus {
        /// The parsed response body.
        value: serde_json::Value,
        /// The HTTP status code.
        status: u16,
    },
}

/// Errors that originate from dispatching an endpoint, parameterized by the
/// transport's own error type.
#[derive(Debug)]
pub enum ApiError<E> {
    /// Error encoding the request before any network activity
    Body(BodyError),
    /// The transport encountered an error
    Client(E),
    /// The request URL failed to parse
    Parse(url::ParseError),
    /// Error in the HTTP response
    Response {
        /// Source of the error
        source: ResponseError,
        /// URL of the failing request
        url: String,
    },
}

} // verus!
