//! The endpoint descriptor capability: every API resource describes itself
//! by a relative path, an HTTP method, a query parameter set, and an
//! optional request body.

use vstd::prelude::*;

use crate::error::BodyError;
use crate::params::QueryParams;

verus! {

/// HTTP request method.
#[derive(Debug, Clone, Copy, PartialEq, Eq, Structural)]
pub enum Method {
    Get,
    Post,
    Put,
    Delete,
}

impl Method {
    /// The method's name on the wire.
    pub open spec fn wire_str(self) -> Seq<char> {
        match self {
            Method::Get => "GET"@,
            Method::Post => "POST"@,
            Method::Put => "PUT"@,
            Method::Delete => "DELETE"@,
        }
    }

    /// The method's name on the wire.
    pub fn as_str(&self) -> (r: &'static str)
        ensures
            r@ == self.wire_str(),
    {
        match self {
            Method::Get => "GET",
            Method::Post => "POST",
            Method::Put => "PUT",
            Method::Delete => "DELETE",
        }
    }
}

/// The request body as the descriptor's mathematical model sees it:
/// a content type and the body bytes.
pub open spec fn body_view(b: &Option<(String, Vec<u8>)>) -> Option<(Seq<char>, Seq<u8>)> {
    match b {
        Option::Some(p) => Option::Some((p.0@, p.1@)),
        Option::None => Option::None,
    }
}

/// A descriptor of one API call. All four accessors are deterministic: each
/// is pinned to a specification function of the descriptor value, so the
/// dispatch layer may call them repeatedly and always sees the same answers.
pub trait Endpoint {
    /// The relative path, as a mathematical value.
    spec fn path_spec(&self) -> Seq<char>;

    /// The HTTP method, as a mathematical value.
    spec fn method_spec(&self) -> Method;

    /// The query parameters a successful encoding yields.
    spec fn params_spec(&self) -> Seq<(Seq<char>, Seq<char>)>;

    /// Whether parameter encoding succeeds for this descriptor value.
    spec fn params_ok(&self) -> bool;

    /// The request body, as a mathematical value.
    spec fn body_spec(&self) -> Option<(Seq<char>, Seq<u8>)>;

    /// Whether body encoding succeeds for this descriptor value.
    spec fn body_ok(&self) -> bool;

    /// The relative path of the endpoint, without a leading slash.
    fn endpoint(&self) -> (r: String)
        ensures
            r@ == self.path_spec(),
    ;

    /// The HTTP method of the endpoint.
    fn method(&self) -> (r: Method)
        ensures
            r == self.method_spec(),
    ;

    /// The query parameters of the endpoint, encoded from its present fields.
    fn query_parameters(&self) -> (r: Result<QueryParams, BodyError>)
        ensures
            r matches Ok(q) ==> q@ == self.params_spec(),
            r is Ok <==> self.params_ok(),
    ;

    /// The request body of the endpoint, if any, as content type and bytes.
    fn body(&self) -> (r: Result<Option<(String, Vec<u8>)>, BodyError>)
        ensures
            r matches Ok(b) ==> body_view(&b) == self.body_spec(),
            r is Ok <==> self.body_ok(),
    ;
}

/// Law: query parameter encoding is deterministic — two successful encodings
/// of the same (unmutated) descriptor yield identical parameter sets.
pub proof fn lemma_query_parameters_deterministic<E: Endpoint>(
    e: &E,
    q1: QueryParams,
    q2: QueryParams,
)
    requires
        q1@ == e.params_spec(),
        q2@ == e.params_spec(),
    ensures
        q1@ == q2@,
{
}

} // verus!
