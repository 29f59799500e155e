//! The transport abstraction: a client resolves relative paths to absolute
//! request targets and executes prepared requests, returning raw responses.
//!
//! Requests and responses are modelled as plain values, so everything the
//! engine derives from them is visible to the verifier; an implementation
//! converts at its own boundary.

use vstd::prelude::*;

use crate::endpoint::Method;

verus! {

/// A prepared HTTP request: method, absolute URL (with query string),
/// optional content type, and body bytes.
#[derive(Debug, Clone)]
pub struct RestRequest {
    /// The HTTP method.
    pub method: Method,
    /// The absolute request target, query string included.
    pub url: String,
    /// The `Content-Type` header value, when a body is present.
    pub content_type: Option<String>,
    /// The request body bytes; empty when the endpoint has no body.
    pub body: Vec<u8>,
}

/// A raw HTTP response: status code and body bytes.
#[derive(Debug, Clone)]
pub struct RestResponse {
    /// The HTTP status code.
    pub status: u16,
    /// The response body bytes.
    pub body: Vec<u8>,
}

/// Whether an HTTP status code counts as success.
pub open spec fn is_success_status(status: u16) -> bool {
    200 <= status < 300
}

/// Whether an HTTP status code counts as success.
pub fn status_is_success(status: u16) -> (r: bool)
    ensures
        r == is_success_status(status),
{
    200 <= status && status < 300
}

/// A client that can resolve endpoint paths against its configured base URL.
/// Resolution fails only by failing to parse a URL; the dispatch layer wraps
/// that into the unified error type.
pub trait RestClient {
    /// The error type returned by this client's transport.
    type Error;

    /// Resolves a relative endpoint path to an absolute request target.
    fn rest_endpoint(&self, path: &str) -> Result<String, url::ParseError>;
}

/// A blocking client: executes a prepared request, blocking the calling
/// thread until the transport returns. A failure is the transport's own
/// error; the dispatch layer wraps it into the unified error type.
pub trait Client: RestClient {
    /// Sends the request and returns the raw response.
    fn rest(&self, request: &RestRequest) -> Result<RestResponse, Self::Error>;
}

} // verus!
