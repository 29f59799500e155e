//! The dispatch layer: build the wire request for a descriptor, execute it
//! against a transport, and classify the response.
//!
//! Classification is ordered: the body is parsed as JSON first, then the
//! HTTP status is checked, and only then is the parsed value coerced into
//! the caller's requested type. A non-success status and a mismatched shape
//! are tagged differently, and both retain the raw JSON value.

use vstd::prelude::*;
use vstd::string::StringExecFns;

use crate::client::{is_success_status, status_is_success, Client, RestClient, RestRequest,
    RestResponse};
use crate::common::{Collection, Pagination};
use crate::endpoint::Endpoint;
use crate::error::{ApiError, DecodeError, ResponseError};
use crate::json::{clone_value, json_as_array, json_as_u64, json_get, json_parses, parse_json};
use crate::params::{encode_query_suffix, query_suffix, QueryParams};

verus! {

/// A result type that can be read out of a parsed JSON value. Implemented by
/// the caller for each response type it wants back from a query.
pub trait Decode: Sized {
    /// Reads a value of this type out of `v`.
    fn decode(v: &serde_json::Value) -> Result<Self, DecodeError>;
}

impl Decode for serde_json::Value {
    /// The identity decoding: hands the parsed JSON value back unchanged.
    fn decode(v: &serde_json::Value) -> Result<Self, DecodeError> {
        Ok(clone_value(v))
    }
}

/// Appends the encoded query suffix of `params` to a resolved request URL.
pub fn build_target(resolved: String, params: &QueryParams) -> (r: String)
    ensures
        r@ == resolved@ + query_suffix(params@),
{
    let suffix = encode_query_suffix(params);
    resolved.concat(suffix.as_str())
}

/// Builds the wire request for a descriptor: the descriptor's path resolved
/// against the client's base, its encoded query parameters appended, its
/// method and body applied.
pub fn build_request<E: Endpoint, C: RestClient>(endpoint: &E, client: &C) -> (r: Result<
    RestRequest,
    ApiError<C::Error>,
>)
    ensures
        r matches Ok(req) ==> {
            &&& req.method == endpoint.method_spec()
            &&& endpoint.params_ok()
            &&& endpoint.body_ok()
            &&& (exists|base: Seq<char>|
                req.url@ == base + query_suffix(endpoint.params_spec()))
            &&& match endpoint.body_spec() {
                Option::Some(b) => {
                    &&& (req.content_type matches Some(ct) && ct@ == b.0)
                    &&& req.body@ == b.1
                },
                Option::None => req.content_type is None && req.body@ == Seq::<u8>::empty(),
            }
        },
        !endpoint.params_ok() ==> r is Err,
        !endpoint.body_ok() ==> r is Err,
        r matches Err(ApiError::Response { .. }) ==> false,
        r matches Err(ApiError::Client(_)) ==> false,
{
    let path = endpoint.endpoint();
    let resolved = match client.rest_endpoint(path.as_str()) {
        Ok(u) => u,
        Err(e) => return Err(ApiError::Parse(e)),
    };
    let ghost resolved_view = resolved@;
    let params = match endpoint.query_parameters() {
        Ok(p) => p,
        Err(e) => return Err(ApiError::Body(e)),
    };
    let url = build_target(resolved, &params);
    let b = match endpoint.body() {
        Ok(b) => b,
        Err(e) => return Err(ApiError::Body(e)),
    };
    let (content_type, body) = match b {
        Some(p) => (Some(p.0), p.1),
        None => (None, Vec::new()),
    };
    let req = RestRequest { method: endpoint.method(), url, content_type, body };
    proof {
        assert(req.url@ == resolved_view + query_suffix(endpoint.params_spec()));
    }
    Ok(req)
}

/// Applies the status check to a parsed response body: a success status
/// passes the value through; any other status is a response failure tagged
/// with that status, retaining the value.
pub fn check_status(status: u16, value: serde_json::Value) -> (r: Result<
    serde_json::Value,
    ResponseError,
>)
    ensures
        is_success_status(status) ==> (r matches Ok(v) && v == value),
        !is_success_status(status) ==> (r matches Err(ResponseError::HttpStatus { value: v, status: s })
            && v == value && s == status),
{
    if status_is_success(status) {
        Ok(value)
    } else {
        Err(ResponseError::HttpStatus { value, status })
    }
}

/// Turns the outcome of decoding a success response into the final result:
/// a decode failure becomes a response failure tagged as a type mismatch,
/// retaining the raw JSON value; missing data is never defaulted.
pub fn finish_decode<T>(value: serde_json::Value, decoded: Result<T, DecodeError>) -> (r: Result<
    T,
    ResponseError,
>)
    ensures
        decoded matches Ok(t) ==> (r matches Ok(rt) && rt == t),
        decoded matches Err(d) ==> (r matches Err(ResponseError::DataType { message: m, value: v })
            && m@ == d.message@ && v == value),
{
    match decoded {
        Ok(t) => Ok(t),
        Err(d) => Err(ResponseError::DataType { message: d.message, value }),
    }
}

/// Parses a raw response body as JSON, checks the HTTP status, and only then
/// attempts to read the caller's requested type out of the parsed value.
pub fn deserialize_response<T: Decode>(rsp: &RestResponse) -> (r: Result<T, ResponseError>)
    ensures
        !is_success_status(rsp.status) ==> !(r is Ok),
        r matches Err(ResponseError::Parse(_)) <==> !json_parses(rsp.body@),
        json_parses(rsp.body@) && !is_success_status(rsp.status) ==> (r matches Err(
            ResponseError::HttpStatus { .. },
        )),
        r matches Err(ResponseError::HttpStatus { status, .. }) ==> status == rsp.status
            && !is_success_status(rsp.status),
{
    let value = match parse_json(&rsp.body) {
        Ok(v) => v,
        Err(e) => return Err(ResponseError::Parse(e)),
    };
    let kept = clone_value(&value);
    let value = match check_status(rsp.status, value) {
        Ok(v) => v,
        Err(e) => return Err(e),
    };
    finish_decode(kept, T::decode(&value))
}

/// Dispatches a descriptor through a blocking client: builds the wire
/// request, executes it, and deserializes the response into the caller's
/// requested type, wrapping response failures with the request URL.
pub fn query_endpoint<E: Endpoint, T: Decode, C: Client>(endpoint: &E, client: &C) -> (r: Result<
    T,
    ApiError<C::Error>,
>)
    ensures
        !endpoint.params_ok() ==> r is Err,
        !endpoint.body_ok() ==> r is Err,
        r matches Err(ApiError::Response {
            source: ResponseError::HttpStatus { status, .. },
            ..
        }) ==> !is_success_status(status),
{
    let req = match build_request(endpoint, client) {
        Ok(r) => r,
        Err(e) => return Err(e),
    };
    let url = req.url.clone();
    let rsp = match client.rest(&req) {
        Ok(r) => r,
        Err(e) => return Err(ApiError::Client(e)),
    };
    match deserialize_response::<T>(&rsp) {
        Ok(t) => Ok(t),
        Err(source) => Err(ApiError::Response { source, url }),
    }
}

/// Query made to a blocking client.
pub trait Query<T, C: Client> {
    /// Performs the query against the client.
    fn query(&self, client: &C) -> Result<T, ApiError<C::Error>>;
}

impl<E: Endpoint, T: Decode, C: Client> Query<T, C> for E {
    /// Dispatches this descriptor as [`query_endpoint`] does.
    fn query(&self, client: &C) -> Result<T, ApiError<C::Error>> {
        query_endpoint(self, client)
    }
}

fn lookup_items(v: &serde_json::Value) -> Option<Vec<serde_json::Value>> {
    match json_get(v, "inner") {
        Some(x) => json_as_array(x),
        None => match json_get(v, "events") {
            Some(x) => json_as_array(x),
            None => match json_get(v, "matches") {
                Some(x) => json_as_array(x),
                None => match json_get(v, "games") {
                    Some(x) => json_as_array(x),
                    None => match json_get(v, "players") {
                        Some(x) => json_as_array(x),
                        None => match json_get(v, "teams") {
                            Some(x) => json_as_array(x),
                            None => match json_get(v, "records") {
                                Some(x) => json_as_array(x),
                                None => match json_get(v, "participants") {
                                    Some(x) => json_as_array(x),
                                    None => None,
                                },
                            },
                        },
                    },
                },
            },
        },
    }
}

fn get_usize_field(v: &serde_json::Value, key: &str) -> Option<usize> {
    match json_get(v, key) {
        Some(x) => match json_as_u64(x) {
            Some(n) => {
                if n <= usize::MAX as u64 {
                    Some(n as usize)
                } else {
                    None
                }
            },
            None => None,
        },
        None => None,
    }
}

fn parse_pagination(v: &serde_json::Value) -> Option<Pagination> {
    let page = get_usize_field(v, "page");
    let per_page = get_usize_field(v, "perPage");
    let page_size = get_usize_field(v, "pageSize");
    match (page, per_page, page_size) {
        (Some(page), Some(per_page), Some(page_size)) => Some(
            Pagination { page, per_page, page_size },
        ),
        _ => None,
    }
}

/// Reads a collection envelope out of a parsed JSON value: the item array
/// under `inner` or one of its resource-specific aliases, plus pagination
/// metadata when the flattened `page`/`perPage`/`pageSize` fields are all
/// present.
pub fn decode_collection<T: Decode>(v: &serde_json::Value) -> Result<Collection<T>, DecodeError> {
    let items = match lookup_items(v) {
        Some(it) => it,
        None => {
            return Err(
                DecodeError { message: "collection envelope without an item array".to_owned() },
            );
        },
    };
    let pagination = parse_pagination(v);
    let mut inner: Vec<T> = Vec::new();
    let mut i: usize = 0;
    while i < items.len()
        decreases items@.len() - i,
    {
        match T::decode(&items[i]) {
            Ok(t) => inner.push(t),
            Err(e) => return Err(e),
        }
        i = i + 1;
    }
    Ok(Collection { inner, pagination })
}

impl<T: Decode> Decode for Collection<T> {
    /// Reads a collection envelope as [`decode_collection`] does.
    fn decode(v: &serde_json::Value) -> Result<Self, DecodeError> {
        decode_collection(v)
    }
}

} // verus!
