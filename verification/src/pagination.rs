//! The pagination engine: wraps a pageable descriptor and exposes one
//! explicit page, or a pull-based traversal that hides page-boundary
//! bookkeeping.
//!
//! One page-advancement rule is shared by every consumption shape: after a
//! fetched page, an empty item sequence ends the traversal; otherwise the
//! items are drained in order and the traversal continues with the next page
//! exactly when the server returned as many items as were asked for
//! (`page_size >= per_page`).

use vstd::prelude::*;

use crate::client::{is_success_status, Client, RestClient, RestResponse};
use crate::common::{Collection, Pagination};
use crate::endpoint::Endpoint;
use crate::error::{ApiError, DecodeError, ResponseError};
use crate::params::{query_suffix, QueryParams};
use crate::json::json_parses;
use crate::query::{build_target, decode_collection, deserialize_response, Decode, Query};
use crate::strutil::{dec_str, usize_to_string};

verus! {

/// Marker trait to indicate that an endpoint is pageable.
pub trait Pageable {

}

/// Whether a page number is the default first page, which is never
/// explicitly encoded on the wire.
pub fn is_first_page(value: &usize) -> (r: bool)
    ensures
        r == (*value <= 1),
{
    *value <= 1
}

/// The parameter set of a page request: the descriptor's own parameters,
/// then `page` when it is past the first, then `perPage` when overridden.
/// Existing pairs are never clobbered or duplicated.
pub open spec fn page_params(
    base: Seq<(Seq<char>, Seq<char>)>,
    page: usize,
    per_page: Option<usize>,
) -> Seq<(Seq<char>, Seq<char>)> {
    base + (if page > 1 {
        seq![("page"@, dec_str(page as nat))]
    } else {
        Seq::empty()
    }) + (match per_page {
        Option::Some(p) => seq![("perPage"@, dec_str(p as nat))],
        Option::None => Seq::empty(),
    })
}

/// Law: extending a parameter set with the pagination overrides never
/// clobbers or duplicates the pairs already present — they stay, unchanged
/// and in order, as a prefix — and when both overrides are at their
/// defaults nothing is added at all.
pub proof fn lemma_page_extension_preserves_pairs(
    base: Seq<(Seq<char>, Seq<char>)>,
    page: usize,
    per_page: Option<usize>,
)
    ensures
        page_params(base, page, per_page).take(base.len() as int) == base,
        page <= 1 && per_page is None ==> page_params(base, page, per_page) == base,
{
    assert(page_params(base, page, per_page).take(base.len() as int) =~= base);
    if page <= 1 && per_page is None {
        assert(page_params(base, page, per_page) =~= base);
    }
}

/// Extends an encoded parameter set with the page and per-page overrides;
/// the pairs already present are kept unchanged, and no pagination key is
/// written unless its value differs from the default.
pub fn extend_with_page(params: &mut QueryParams, page: usize, per_page: Option<usize>)
    ensures
        final(params)@ == page_params(old(params)@, page, per_page),
{
    if !is_first_page(&page) {
        params.push("page", usize_to_string(page));
    }
    match per_page {
        Some(p) => params.push("perPage", usize_to_string(p)),
        None => {},
    }
    proof {
        assert(params@ =~= page_params(old(params)@, page, per_page));
    }
}

/// Builds the wire request for one page of a pageable descriptor: the
/// descriptor's own parameters extended with the page overrides.
pub fn build_page_request<E: Endpoint + Pageable, C: RestClient>(
    endpoint: &E,
    page: usize,
    per_page: Option<usize>,
    client: &C,
) -> (r: Result<crate::client::RestRequest, ApiError<C::Error>>)
    ensures
        r matches Ok(req) ==> {
            &&& req.method == endpoint.method_spec()
            &&& endpoint.params_ok()
            &&& endpoint.body_ok()
            &&& (exists|base: Seq<char>|
                req.url@ == base + query_suffix(
                    page_params(endpoint.params_spec(), page, per_page),
                ))
            &&& match endpoint.body_spec() {
                Option::Some(b) => {
                    &&& (req.content_type matches Some(ct) && ct@ == b.0)
                    &&& req.body@ == b.1
                },
                Option::None => req.content_type is None && req.body@ == Seq::<u8>::empty(),
            }
        },
        !endpoint.params_ok() ==> r is Err,
        !endpoint.body_ok() ==> r is Err,
        r matches Err(ApiError::Response { .. }) ==> false,
        r matches Err(ApiError::Client(_)) ==> false,
{
    let path = endpoint.endpoint();
    let resolved = match client.rest_endpoint(path.as_str()) {
        Ok(u) => u,
        Err(e) => return Err(ApiError::Parse(e)),
    };
    let ghost resolved_view = resolved@;
    let mut params = match endpoint.query_parameters() {
        Ok(p) => p,
        Err(e) => return Err(ApiError::Body(e)),
    };
    extend_with_page(&mut params, page, per_page);
    let url = build_target(resolved, &params);
    let b = match endpoint.body() {
        Ok(b) => b,
        Err(e) => return Err(ApiError::Body(e)),
    };
    let (content_type, body) = match b {
        Some(p) => (Some(p.0), p.1),
        None => (None, Vec::new()),
    };
    let req = crate::client::RestRequest { method: endpoint.method(), url, content_type, body };
    proof {
        assert(req.url@ == resolved_view + query_suffix(
            page_params(endpoint.params_spec(), page, per_page),
        ));
    }
    Ok(req)
}

/// Demands the pagination metadata of a collection fetched from a pageable
/// endpoint: its absence is a contract violation by the external API and is
/// a decode failure, never a silently empty result.
pub fn require_pagination<T>(coll: Collection<T>) -> (r: Result<(Vec<T>, Pagination), DecodeError>)
    ensures
        coll.pagination matches Some(p) ==> (r matches Ok(pair) && pair.0 == coll.inner && pair.1
            == p),
        r is Err <==> coll.pagination is None,
{
    match coll.pagination {
        Some(meta) => Ok((coll.inner, meta)),
        None => Err(
            DecodeError { message: "pagination metadata missing from page response".to_owned() },
        ),
    }
}

/// A page response whose pagination metadata must be present: the engine
/// treats its absence on a pageable endpoint as a response failure, not as a
/// silently empty result.
struct PagedResponse<T> {
    items: Vec<T>,
    meta: Pagination,
}

impl<T: Decode> Decode for PagedResponse<T> {
    /// Reads a collection envelope and demands its pagination metadata, as
    /// [`require_pagination`] does.
    fn decode(v: &serde_json::Value) -> Result<Self, DecodeError> {
        let coll: Collection<T> = match decode_collection(v) {
            Ok(c) => c,
            Err(e) => return Err(e),
        };
        match require_pagination(coll) {
            Ok((items, meta)) => Ok(PagedResponse { items, meta }),
            Err(e) => Err(e),
        }
    }
}

/// Classifies one page response for a traversal: parses the body, checks
/// the HTTP status, reads the collection envelope, and insists on its
/// pagination metadata; a response without it yields a type-mismatch
/// response failure that retains the raw JSON value.
pub fn decode_page_response<T: Decode>(rsp: &RestResponse) -> (r: Result<
    (Vec<T>, Pagination),
    ResponseError,
>)
    ensures
        !is_success_status(rsp.status) ==> !(r is Ok),
        r matches Err(ResponseError::Parse(_)) <==> !json_parses(rsp.body@),
        json_parses(rsp.body@) && !is_success_status(rsp.status) ==> (r matches Err(
            ResponseError::HttpStatus { .. },
        )),
        r matches Err(ResponseError::HttpStatus { status, .. }) ==> status == rsp.status
            && !is_success_status(rsp.status),
{
    match deserialize_response::<PagedResponse<T>>(rsp) {
        Ok(p) => Ok((p.items, p.meta)),
        Err(e) => Err(e),
    }
}

/// Fetches one page of a pageable descriptor and insists on its pagination
/// metadata; a response without it yields a type-mismatch response failure
/// that retains the raw JSON value.
fn fetch_page_meta<E: Endpoint + Pageable, T: Decode, C: Client>(
    endpoint: &E,
    page: usize,
    per_page: Option<usize>,
    client: &C,
) -> (r: Result<(Vec<T>, Pagination), ApiError<C::Error>>)
    ensures
        !endpoint.params_ok() ==> r is Err,
        !endpoint.body_ok() ==> r is Err,
        r matches Err(ApiError::Response {
            source: ResponseError::HttpStatus { status, .. },
            ..
        }) ==> !is_success_status(status),
{
    let req = match build_page_request(endpoint, page, per_page, client) {
        Ok(r) => r,
        Err(e) => return Err(e),
    };
    let url = req.url.clone();
    let rsp = match client.rest(&req) {
        Ok(r) => r,
        Err(e) => return Err(ApiError::Client(e)),
    };
    match decode_page_response::<T>(&rsp) {
        Ok(p) => Ok(p),
        Err(source) => Err(ApiError::Response { source, url }),
    }
}

/// Builder for the [`Page`] endpoint.
#[derive(Debug, Clone)]
pub struct PageBuilder<E> {
    inner: E,
    page: Option<usize>,
    per_page: Option<usize>,
}

impl<E> PageBuilder<E> {
    /// The wrapped descriptor.
    pub closed spec fn inner_spec(&self) -> E {
        self.inner
    }

    /// The page override, if set.
    pub closed spec fn page_spec(&self) -> Option<usize> {
        self.page
    }

    /// The per-page override, if set.
    pub closed spec fn per_page_spec(&self) -> Option<usize> {
        self.per_page
    }
}

impl<E: Endpoint + Pageable> PageBuilder<E> {
    /// Wraps a pageable descriptor with no overrides set.
    pub fn new(paged: E) -> (r: Self)
        ensures
            r.inner_spec() == paged,
            r.page_spec() is None,
            r.per_page_spec() is None,
    {
        PageBuilder { inner: paged, page: None, per_page: None }
    }

    /// Page number. The first page is `1`.
    pub fn page(self, value: usize) -> (r: Self)
        ensures
            r.inner_spec() == self.inner_spec(),
            r.page_spec() == Some(value),
            r.per_page_spec() == self.per_page_spec(),
    {
        PageBuilder { page: Some(value), ..self }
    }

    /// Results per page.
    pub fn per_page(self, value: usize) -> (r: Self)
        ensures
            r.inner_spec() == self.inner_spec(),
            r.page_spec() == self.page_spec(),
            r.per_page_spec() == Some(value),
    {
        PageBuilder { per_page: Some(value), ..self }
    }

    /// Returns a [`Page`] that can be queried for one set of elements; an
    /// unset page number defaults to the first page.
    pub fn build(self) -> (r: Page<E>)
        ensures
            r.inner_spec() == self.inner_spec(),
            r.page_num_spec() == (match self.page_spec() {
                Option::Some(p) => p,
                Option::None => 1usize,
            }),
            r.per_page_spec() == self.per_page_spec(),
    {
        let page = match self.page {
            Some(p) => p,
            None => 1,
        };
        Page { inner: self.inner, page, per_page: self.per_page }
    }
}

/// Represents a single page of results of a pageable descriptor.
#[derive(Debug, Clone)]
pub struct Page<E> {
    inner: E,
    page: usize,
    per_page: Option<usize>,
}

impl<E> Page<E> {
    /// The wrapped descriptor.
    pub closed spec fn inner_spec(&self) -> E {
        self.inner
    }

    /// The requested page number.
    pub closed spec fn page_num_spec(&self) -> usize {
        self.page
    }

    /// The per-page override, if set.
    pub closed spec fn per_page_spec(&self) -> Option<usize> {
        self.per_page
    }
}

impl<E> Page<E> {
    /// The wrapped descriptor, for building the page request.
    pub fn inner_ref(&self) -> (r: &E)
        ensures
            *r == self.inner_spec(),
    {
        &self.inner
    }

    /// The requested page number.
    pub fn page_number(&self) -> (r: usize)
        ensures
            r == self.page_num_spec(),
    {
        self.page
    }

    /// The per-page override, if set.
    pub fn per_page_value(&self) -> (r: Option<usize>)
        ensures
            r == self.per_page_spec(),
    {
        self.per_page
    }
}

impl<E: Endpoint + Pageable> Page<E> {
    /// Create a builder for a [`Page`].
    pub fn builder(paged: E) -> (r: PageBuilder<E>)
        ensures
            r.inner_spec() == paged,
            r.page_spec() is None,
            r.per_page_spec() is None,
    {
        PageBuilder::new(paged)
    }
}

/// Queries one explicit page of a pageable descriptor, returning the raw
/// collection envelope with whatever pagination metadata the server sent.
pub fn query_page<E: Endpoint + Pageable, T: Decode, C: Client>(page: &Page<E>, client: &C) -> (r:
    Result<Collection<T>, ApiError<C::Error>>)
    ensures
        !page.inner_spec().params_ok() ==> r is Err,
        !page.inner_spec().body_ok() ==> r is Err,
        r matches Err(ApiError::Response {
            source: ResponseError::HttpStatus { status, .. },
            ..
        }) ==> !is_success_status(status),
{
    let req = match build_page_request(&page.inner, page.page, page.per_page, client) {
        Ok(r) => r,
        Err(e) => return Err(e),
    };
    let url = req.url.clone();
    let rsp = match client.rest(&req) {
        Ok(r) => r,
        Err(e) => return Err(ApiError::Client(e)),
    };
    match deserialize_response::<Collection<T>>(&rsp) {
        Ok(c) => Ok(c),
        Err(source) => Err(ApiError::Response { source, url }),
    }
}

impl<E: Endpoint + Pageable, T: Decode, C: Client> Query<Collection<T>, C> for Page<E> {
    /// Queries this page as [`query_page`] does.
    fn query(&self, client: &C) -> Result<Collection<T>, ApiError<C::Error>> {
        query_page(self, client)
    }
}

/// A pull-based traversal over all pages of a pageable descriptor. The
/// transport is handed to each [`PagedIter::next`] call; every page fetch
/// blocks the calling thread at that page boundary.
#[derive(Debug)]
pub struct PagedIter<E, T> {
    endpoint: E,
    next_page: usize,
    exhausted: bool,
    buffer: Vec<T>,
}

impl<E, T> PagedIter<E, T> {
    /// The descriptor being traversed.
    pub closed spec fn endpoint_spec(&self) -> E {
        self.endpoint
    }

    /// The page the next fetch will request.
    pub closed spec fn next_page_spec(&self) -> usize {
        self.next_page
    }

    /// Whether the traversal is exhausted: once true, after the buffered
    /// items are drained, no further page is ever requested.
    pub closed spec fn exhausted_spec(&self) -> bool {
        self.exhausted
    }

    /// The items already fetched but not yet yielded, in yield order.
    pub closed spec fn queued_spec(&self) -> Seq<T> {
        Seq::new(self.buffer@.len(), |i: int| self.buffer@[self.buffer@.len() - 1 - i])
    }

    /// Whether two traversal values are the same traversal state: same
    /// descriptor, same next page, same exhaustion, same queued items.
    pub open spec fn same_traversal(self, other: Self) -> bool {
        &&& self.endpoint_spec() == other.endpoint_spec()
        &&& self.next_page_spec() == other.next_page_spec()
        &&& self.exhausted_spec() == other.exhausted_spec()
        &&& self.queued_spec() == other.queued_spec()
    }
}

impl<E, T> PagedIter<E, T> {
    /// The descriptor being traversed, for building the next page request.
    pub fn endpoint_ref(&self) -> (r: &E)
        ensures
            *r == self.endpoint_spec(),
    {
        &self.endpoint
    }

    /// Whether the traversal is exhausted: once the buffer is also empty,
    /// no further page is ever requested.
    pub fn is_exhausted(&self) -> (r: bool)
        ensures
            r == self.exhausted_spec(),
    {
        self.exhausted
    }

    /// The page number the next fetch will request.
    pub fn page_to_fetch(&self) -> (r: usize)
        ensures
            r == self.next_page_spec(),
    {
        self.next_page
    }

    /// Takes the next already fetched item, if one is buffered; the rest of
    /// the traversal state is untouched.
    pub fn pop_buffered(&mut self) -> (r: Option<T>)
        ensures
            final(self).endpoint_spec() == old(self).endpoint_spec(),
            final(self).exhausted_spec() == old(self).exhausted_spec(),
            final(self).next_page_spec() == old(self).next_page_spec(),
            old(self).queued_spec().len() > 0 ==> {
                &&& r == Some(old(self).queued_spec()[0])
                &&& final(self).queued_spec() == old(self).queued_spec().drop_first()
            },
            old(self).queued_spec().len() == 0 ==> r is None && final(self).same_traversal(
                *old(self),
            ),
    {
        let ghost pre = *self;
        match self.buffer.pop() {
            Some(t) => {
                proof {
                    assert(self.queued_spec() =~= pre.queued_spec().drop_first());
                }
                Some(t)
            },
            None => None,
        }
    }
}

impl<E: Endpoint + Pageable, T> PagedIter<E, T> {
    /// Starts a traversal at the first page with nothing buffered.
    pub fn new(paged: E) -> (r: Self)
        ensures
            r.endpoint_spec() == paged,
            r.next_page_spec() == 1,
            !r.exhausted_spec(),
            r.queued_spec() == Seq::<T>::empty(),
    {
        let r = PagedIter { endpoint: paged, next_page: 1, exhausted: false, buffer: Vec::new() };
        proof {
            assert(r.queued_spec() =~= Seq::<T>::empty());
        }
        r
    }

    /// Ingests the outcome of one page fetch, buffering its items and moving
    /// the traversal state exactly as the page-advancement rule says:
    /// a fetch failure is propagated as a single failed item with the state
    /// unchanged; an empty page exhausts the traversal with no item; a
    /// non-empty page yields its first item, queues the rest in order, and
    /// exhausts the traversal exactly when `page_size < per_page` (or the
    /// next page number would not be representable).
    pub fn ingest<CE>(&mut self, fetched: Result<(Vec<T>, Pagination), ApiError<CE>>) -> (r:
        Option<Result<T, ApiError<CE>>>)
        requires
            old(self).queued_spec().len() == 0,
            !old(self).exhausted_spec(),
        ensures
            final(self).endpoint_spec() == old(self).endpoint_spec(),
            fetched matches Err(e) ==> r == Some(Result::<T, ApiError<CE>>::Err(e))
                && final(self).same_traversal(*old(self)),
            fetched matches Ok(pair) ==> {
                &&& (pair.0@.len() == 0 ==> r is None && final(self).exhausted_spec()
                    && final(self).queued_spec().len() == 0)
                &&& (pair.0@.len() > 0 ==> {
                    &&& r == Some(Result::<T, ApiError<CE>>::Ok(pair.0@[0]))
                    &&& final(self).queued_spec() == pair.0@.drop_first()
                    &&& (pair.1.page_size < pair.1.per_page ==> final(self).exhausted_spec())
                    &&& (pair.1.page_size >= pair.1.per_page && pair.1.page < usize::MAX ==> {
                        &&& !final(self).exhausted_spec()
                        &&& final(self).next_page_spec() == pair.1.page + 1
                    })
                    &&& (pair.1.page_size >= pair.1.per_page && pair.1.page == usize::MAX
                        ==> final(self).exhausted_spec())
                })
            },
    {
        match fetched {
            Err(e) => Some(Err(e)),
            Ok((items, meta)) => {
                if items.len() == 0 {
                    self.exhausted = true;
                    proof {
                        assert(self.queued_spec().len() == 0);
                    }
                    None
                } else {
                    if meta.page_size < meta.per_page {
                        self.exhausted = true;
                    } else if meta.page == usize::MAX {
                        self.exhausted = true;
                    } else {
                        self.next_page = meta.page + 1;
                    }
                    let mut rest = items;
                    let ghost items0 = rest@;
                    let mut buf: Vec<T> = Vec::new();
                    while rest.len() > 1
                        invariant
                            rest@.len() >= 1,
                            rest@ == items0.take(rest@.len() as int),
                            buf@.len() == items0.len() - rest@.len(),
                            forall|i: int|
                                0 <= i < buf@.len() ==> buf@[i] == items0[items0.len() - 1 - i],
                        decreases rest@.len(),
                    {
                        let ghost n = rest@.len() as int;
                        let t = rest.pop().unwrap();
                        proof {
                            assert(items0.take(n)[n - 1] == items0[n - 1]);
                            assert(rest@ =~= items0.take(n - 1));
                        }
                        buf.push(t);
                    }
                    let first = rest.pop().unwrap();
                    proof {
                        assert(items0.take(1)[0] == items0[0]);
                    }
                    self.buffer = buf;
                    proof {
                        assert(self.queued_spec() =~= items0.drop_first());
                    }
                    Some(Ok(first))
                }
            },
        }
    }

    /// Yields the next item of the traversal: a buffered item if any is
    /// left, nothing once the traversal is exhausted, and otherwise the
    /// outcome of fetching the next page. A `None` is final: the traversal
    /// is exhausted and stays so. A fetch failure leaves the state
    /// unchanged, so the consumer decides whether to pull again.
    pub fn next<C: Client>(&mut self, client: &C) -> (r: Option<Result<T, ApiError<C::Error>>>)
        where T: Decode,
        ensures
            final(self).endpoint_spec() == old(self).endpoint_spec(),
            old(self).queued_spec().len() > 0 ==> {
                &&& r == Some(Result::<T, ApiError<C::Error>>::Ok(old(self).queued_spec()[0]))
                &&& final(self).queued_spec() == old(self).queued_spec().drop_first()
                &&& final(self).exhausted_spec() == old(self).exhausted_spec()
                &&& final(self).next_page_spec() == old(self).next_page_spec()
            },
            old(self).queued_spec().len() == 0 && old(self).exhausted_spec() ==> r is None
                && final(self).same_traversal(*old(self)),
            r is None ==> final(self).exhausted_spec() && final(self).queued_spec().len() == 0,
            r matches Some(Err(_)) ==> final(self).same_traversal(*old(self)),
            old(self).queued_spec().len() == 0 && !old(self).exhausted_spec() && !old(
                self,
            ).endpoint_spec().params_ok() ==> (r matches Some(Err(_))),
    {
        match self.pop_buffered() {
            Some(t) => return Some(Ok(t)),
            None => {},
        }
        if self.exhausted {
            return None;
        }
        let fetched = fetch_page_meta::<E, T, C>(&self.endpoint, self.next_page, None, client);
        self.ingest(fetched)
    }
}

/// Adapters specific to [`Pageable`] endpoints.
pub trait PagedEndpointExt: Endpoint + Pageable + Sized {
    /// Starts a pull-based traversal over the results of this descriptor.
    fn iter<T>(self) -> (r: PagedIter<Self, T>)
        ensures
            r.endpoint_spec() == self,
            r.next_page_spec() == 1,
            !r.exhausted_spec(),
            r.queued_spec() == Seq::<T>::empty(),
    ;

    /// Builds a single explicit page request for this descriptor.
    fn page(self) -> (r: PageBuilder<Self>)
        ensures
            r.inner_spec() == self,
            r.page_spec() is None,
            r.per_page_spec() is None,
    ;
}

impl<E: Endpoint + Pageable> PagedEndpointExt for E {
    fn iter<T>(self) -> (r: PagedIter<Self, T>) {
        PagedIter::new(self)
    }

    fn page(self) -> (r: PageBuilder<Self>) {
        PageBuilder::new(self)
    }
}

} // verus!
