//! The paginated traversal: page advancement, termination, item order, and
//! error propagation at page boundaries.

use std::cell::RefCell;

use octanezsr_api::client::{Client, RestClient, RestRequest, RestResponse};
use octanezsr_api::common::{Collection, Pagination};
use octanezsr_api::error::{ApiError, ResponseError};
use octanezsr_api::events::ListEvents;
use octanezsr_api::matches::ListMatches;
use octanezsr_api::pagination::{PagedEndpointExt, PagedIter};
use octanezsr_api::query::Query;

struct Mock {
    responses: RefCell<Vec<(u16, String)>>,
    requests: RefCell<Vec<RestRequest>>,
}

impl Mock {
    fn new(responses: Vec<(u16, String)>) -> Mock {
        Mock {
            responses: RefCell::new(responses),
            requests: RefCell::new(Vec::new()),
        }
    }

    fn urls(&self) -> Vec<String> {
        self.requests.borrow().iter().map(|r| r.url.clone()).collect()
    }
}

impl RestClient for Mock {
    type Error = String;

    fn rest_endpoint(&self, path: &str) -> Result<String, url::ParseError> {
        Ok(format!("https://zsr.test/{}", path))
    }
}

impl Client for Mock {
    fn rest(&self, request: &RestRequest) -> Result<RestResponse, String> {
        self.requests.borrow_mut().push(request.clone());
        let mut queue = self.responses.borrow_mut();
        if queue.is_empty() {
            return Err(String::from("no response scripted"));
        }
        let (status, body) = queue.remove(0);
        Ok(RestResponse {
            status,
            body: body.into_bytes(),
        })
    }
}

/// A page response holding the numbers `lo..hi` under the `events` key.
fn page_json(lo: usize, hi: usize, page: usize, per_page: usize) -> String {
    let items: Vec<String> = (lo..hi).map(|i| format!("{}", i)).collect();
    format!(
        "{{\"events\":[{}],\"page\":{},\"perPage\":{},\"pageSize\":{}}}",
        items.join(","),
        page,
        per_page,
        hi - lo
    )
}

fn drain(
    iter: &mut PagedIter<ListEvents, serde_json::Value>,
    mock: &Mock,
) -> Vec<serde_json::Value> {
    let mut out = Vec::new();
    loop {
        match iter.next(mock) {
            Some(r) => out.push(r.unwrap()),
            None => return out,
        }
    }
}

#[test]
fn three_pages_of_forty_five_items() {
    let mock = Mock::new(vec![
        (200, page_json(0, 20, 1, 20)),
        (200, page_json(20, 40, 2, 20)),
        (200, page_json(40, 45, 3, 20)),
    ]);
    let endpoint = ListEvents::builder().build().unwrap();
    let mut iter = endpoint.iter::<serde_json::Value>();
    let items = drain(&mut iter, &mock);
    assert_eq!(items.len(), 45);
    let expected: Vec<serde_json::Value> =
        (0..45u64).map(serde_json::Value::from).collect();
    assert_eq!(items, expected);
    // exactly three fetches: the short final page stops the traversal, and
    // page four is never requested
    assert_eq!(
        mock.urls(),
        vec![
            String::from("https://zsr.test/events"),
            String::from("https://zsr.test/events?page=2"),
            String::from("https://zsr.test/events?page=3"),
        ]
    );
    // the traversal stays exhausted
    assert!(iter.next(&mock).is_none());
    assert_eq!(mock.requests.borrow().len(), 3);
}

#[test]
fn empty_first_page_terminates_immediately() {
    // the empty page reports a full page size; emptiness alone terminates
    let mock = Mock::new(vec![(
        200,
        String::from("{\"events\":[],\"page\":1,\"perPage\":20,\"pageSize\":20}"),
    )]);
    let endpoint = ListEvents::builder().build().unwrap();
    let mut iter = endpoint.iter::<serde_json::Value>();
    assert!(iter.next(&mock).is_none());
    assert_eq!(mock.requests.borrow().len(), 1);
    // terminal: no further page is ever requested
    assert!(iter.next(&mock).is_none());
    assert_eq!(mock.requests.borrow().len(), 1);
}

#[test]
fn full_page_advances_to_next_page_number() {
    let mock = Mock::new(vec![
        (200, page_json(0, 2, 1, 2)),
        (200, page_json(2, 4, 2, 2)),
        (200, String::from("{\"events\":[],\"page\":3,\"perPage\":2,\"pageSize\":0}")),
    ]);
    let endpoint = ListEvents::builder().build().unwrap();
    let mut iter = endpoint.iter::<serde_json::Value>();
    let items = drain(&mut iter, &mock);
    assert_eq!(items.len(), 4);
    assert_eq!(
        mock.urls(),
        vec![
            String::from("https://zsr.test/events"),
            String::from("https://zsr.test/events?page=2"),
            String::from("https://zsr.test/events?page=3"),
        ]
    );
}

#[test]
fn short_page_terminates_after_draining() {
    let mock = Mock::new(vec![(200, page_json(0, 3, 1, 20))]);
    let endpoint = ListEvents::builder().build().unwrap();
    let mut iter = endpoint.iter::<serde_json::Value>();
    let items = drain(&mut iter, &mock);
    assert_eq!(items.len(), 3);
    assert_eq!(mock.requests.borrow().len(), 1);
}

#[test]
fn missing_pagination_metadata_is_a_fatal_response_error() {
    let mock = Mock::new(vec![(200, String::from("{\"events\":[1,2]}"))]);
    let endpoint = ListEvents::builder().build().unwrap();
    let mut iter = endpoint.iter::<serde_json::Value>();
    let expected: serde_json::Value = serde_json::from_str("{\"events\":[1,2]}").unwrap();
    match iter.next(&mock) {
        Some(Err(ApiError::Response {
            source: ResponseError::DataType { value, .. },
            ..
        })) => assert_eq!(value, expected),
        _ => panic!("expected a data type failure"),
    }
}

#[test]
fn fetch_failure_is_one_failed_item_and_state_is_kept() {
    let mock = Mock::new(vec![
        (500, String::from("{\"error\":\"down\"}")),
        (200, page_json(0, 1, 1, 20)),
    ]);
    let endpoint = ListEvents::builder().build().unwrap();
    let mut iter = endpoint.iter::<serde_json::Value>();
    match iter.next(&mock) {
        Some(Err(ApiError::Response {
            source: ResponseError::HttpStatus { status, .. },
            ..
        })) => assert_eq!(status, 500),
        _ => panic!("expected an HTTP status failure"),
    }
    // the consumer decides to pull again: the same page is refetched
    let items = drain(&mut iter, &mock);
    assert_eq!(items.len(), 1);
    assert_eq!(
        mock.urls(),
        vec![
            String::from("https://zsr.test/events"),
            String::from("https://zsr.test/events"),
        ]
    );
}

#[test]
fn explicit_page_request_bypasses_the_state_machine() {
    let mock = Mock::new(vec![(
        200,
        String::from("{\"matches\":[1,2,3],\"page\":3,\"perPage\":5,\"pageSize\":3}"),
    )]);
    let endpoint = ListMatches::builder().build().unwrap();
    let page = endpoint.page().page(3).per_page(5).build();
    let coll: Collection<serde_json::Value> = page.query(&mock).unwrap();
    assert_eq!(
        mock.urls(),
        vec![String::from("https://zsr.test/matches?page=3&perPage=5")]
    );
    let meta = coll.pagination.unwrap();
    assert_eq!(meta.page, 3);
    assert_eq!(meta.per_page, 5);
    assert_eq!(meta.page_size, 3);
    assert_eq!(coll.inner.len(), 3);
}

#[test]
fn first_page_number_is_not_encoded() {
    let mock = Mock::new(vec![(
        200,
        String::from("{\"matches\":[],\"page\":1,\"perPage\":20,\"pageSize\":0}"),
    )]);
    let endpoint = ListMatches::builder().build().unwrap();
    let page = endpoint.page().page(1).build();
    let _: Collection<serde_json::Value> = page.query(&mock).unwrap();
    assert_eq!(mock.urls(), vec![String::from("https://zsr.test/matches")]);
}

fn fresh_iter() -> PagedIter<ListEvents, serde_json::Value> {
    PagedIter::new(ListEvents::builder().build().unwrap())
}

#[test]
fn ingest_full_page_advances_to_reported_page_plus_one() {
    let mut iter = fresh_iter();
    let meta = Pagination { page: 7, per_page: 2, page_size: 2 };
    let items = vec![serde_json::Value::from(1u64), serde_json::Value::from(2u64)];
    let first = iter.ingest::<String>(Ok((items, meta)));
    assert!(matches!(first, Some(Ok(v)) if v == serde_json::Value::from(1u64)));
    assert!(!iter.is_exhausted());
    assert_eq!(iter.page_to_fetch(), 8);
    assert_eq!(iter.pop_buffered(), Some(serde_json::Value::from(2u64)));
    assert_eq!(iter.pop_buffered(), None);
}

#[test]
fn ingest_short_page_exhausts_after_draining() {
    let mut iter = fresh_iter();
    let meta = Pagination { page: 1, per_page: 20, page_size: 1 };
    let items = vec![serde_json::Value::from(5u64)];
    let first = iter.ingest::<String>(Ok((items, meta)));
    assert!(matches!(first, Some(Ok(v)) if v == serde_json::Value::from(5u64)));
    assert!(iter.is_exhausted());
    assert_eq!(iter.pop_buffered(), None);
}

#[test]
fn ingest_empty_page_exhausts_with_no_item_whatever_the_sizes_say() {
    let mut iter = fresh_iter();
    let meta = Pagination { page: 1, per_page: 20, page_size: 20 };
    let first = iter.ingest::<String>(Ok((Vec::new(), meta)));
    assert!(first.is_none());
    assert!(iter.is_exhausted());
}

#[test]
fn ingest_failure_keeps_the_traversal_state() {
    let mut iter = fresh_iter();
    let r = iter.ingest::<String>(Err(ApiError::Client(String::from("down"))));
    assert!(matches!(r, Some(Err(ApiError::Client(m))) if m == "down"));
    assert!(!iter.is_exhausted());
    assert_eq!(iter.page_to_fetch(), 1);
}
