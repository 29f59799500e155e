//! Dispatch through a scripted transport: request shape, status
//! classification, and type-mismatch handling.

use std::cell::RefCell;

use octanezsr_api::client::{Client, RestClient, RestRequest, RestResponse};
use octanezsr_api::common::Collection;
use octanezsr_api::endpoint::Method;
use octanezsr_api::error::{ApiError, ResponseError};
use octanezsr_api::events::{Event, EventId, ListEvents};
use octanezsr_api::query::{query_endpoint, Query};
use octanezsr_api::teams::ListActiveTeams;
use octanezsr_api::types::{Account, GameScore};
use octanezsr_api::urls::RestBase;

struct Mock {
    responses: RefCell<Vec<(u16, String)>>,
    requests: RefCell<Vec<RestRequest>>,
}

impl Mock {
    fn new(responses: Vec<(u16, &str)>) -> Mock {
        Mock {
            responses: RefCell::new(
                responses.into_iter().map(|(s, b)| (s, String::from(b))).collect(),
            ),
            requests: RefCell::new(Vec::new()),
        }
    }

    fn urls(&self) -> Vec<String> {
        self.requests.borrow().iter().map(|r| r.url.clone()).collect()
    }
}

impl RestClient for Mock {
    type Error = String;

    fn rest_endpoint(&self, path: &str) -> Result<String, url::ParseError> {
        Ok(format!("https://zsr.test/{}", path))
    }
}

impl Client for Mock {
    fn rest(&self, request: &RestRequest) -> Result<RestResponse, String> {
        self.requests.borrow_mut().push(request.clone());
        let mut queue = self.responses.borrow_mut();
        if queue.is_empty() {
            return Err(String::from("no response scripted"));
        }
        let (status, body) = queue.remove(0);
        Ok(RestResponse {
            status,
            body: body.into_bytes(),
        })
    }
}

fn event_descriptor() -> Event {
    Event::builder()
        .id(EventId::new(String::from("5f35882d53fbbb5894b43040")))
        .build()
        .unwrap()
}

#[test]
fn request_is_built_from_descriptor() {
    let mock = Mock::new(vec![(200, "{\"name\":\"RLCS\"}")]);
    let v: serde_json::Value = event_descriptor().query(&mock).unwrap();
    let expected: serde_json::Value = serde_json::from_str("{\"name\":\"RLCS\"}").unwrap();
    assert_eq!(v, expected);
    let reqs = mock.requests.borrow();
    assert_eq!(reqs.len(), 1);
    assert_eq!(reqs[0].url, "https://zsr.test/events/5f35882d53fbbb5894b43040");
    assert_eq!(reqs[0].method, Method::Get);
    assert!(reqs[0].content_type.is_none());
    assert!(reqs[0].body.is_empty());
}

#[test]
fn query_string_is_attached_to_url() {
    let mock = Mock::new(vec![(200, "{\"events\":[]}")]);
    let endpoint = ListEvents::builder().name(String::from("RLCS")).build().unwrap();
    let _: Collection<serde_json::Value> = endpoint.query(&mock).unwrap();
    assert_eq!(mock.urls(), vec![String::from("https://zsr.test/events?name=RLCS")]);
}

#[test]
fn non_success_status_yields_http_status_error_with_value() {
    let mock = Mock::new(vec![(404, "{\"error\":\"not found\"}")]);
    let r: Result<serde_json::Value, _> = query_endpoint(&event_descriptor(), &mock);
    let expected: serde_json::Value = serde_json::from_str("{\"error\":\"not found\"}").unwrap();
    match r {
        Err(ApiError::Response { source: ResponseError::HttpStatus { value, status }, url }) => {
            assert_eq!(status, 404);
            assert_eq!(value, expected);
            assert_eq!(url, "https://zsr.test/events/5f35882d53fbbb5894b43040");
        },
        other => panic!("expected an HTTP status failure, got {:?}", other.is_ok()),
    }
}

#[test]
fn mismatched_shape_yields_data_type_error_with_value() {
    let mock = Mock::new(vec![(200, "{\"blue\":3}")]);
    let r: Result<GameScore, _> = query_endpoint(&event_descriptor(), &mock);
    let expected: serde_json::Value = serde_json::from_str("{\"blue\":3}").unwrap();
    match r {
        Err(ApiError::Response { source: ResponseError::DataType { message, value }, .. }) => {
            assert_eq!(message, "missing required field: orange");
            assert_eq!(value, expected);
        },
        other => panic!("expected a data type failure, got {:?}", other.is_ok()),
    }
}

#[test]
fn unparsable_body_yields_parse_error() {
    let mock = Mock::new(vec![(200, "this is not json")]);
    let r: Result<serde_json::Value, _> = query_endpoint(&event_descriptor(), &mock);
    assert!(matches!(
        r,
        Err(ApiError::Response { source: ResponseError::Parse(_), .. })
    ));
}

#[test]
fn status_is_checked_before_shape() {
    let mock = Mock::new(vec![(500, "{\"blue\":3}")]);
    let r: Result<GameScore, _> = query_endpoint(&event_descriptor(), &mock);
    assert!(matches!(
        r,
        Err(ApiError::Response {
            source: ResponseError::HttpStatus { status: 500, .. },
            ..
        })
    ));
}

#[test]
fn transport_error_is_passed_through() {
    let mock = Mock::new(vec![]);
    let r: Result<serde_json::Value, _> = query_endpoint(&event_descriptor(), &mock);
    assert!(matches!(r, Err(ApiError::Client(_))));
}

#[test]
fn typed_decode_reads_fields() {
    let mock = Mock::new(vec![(
        200,
        "{\"_id\":\"g1\",\"blue\":3,\"orange\":2,\"duration\":321,\"overtime\":true}",
    )]);
    let score: GameScore = query_endpoint(&event_descriptor(), &mock).unwrap();
    assert_eq!(score.blue, 3);
    assert_eq!(score.orange, 2);
    assert_eq!(score.duration, Some(321));
    assert!(score.overtime);
    assert_eq!(score.id.map(|i| String::from(i.as_str())), Some(String::from("g1")));
}

#[test]
fn mistyped_present_field_is_a_decode_failure() {
    let mock = Mock::new(vec![(200, "{\"blue\":1,\"orange\":0,\"overtime\":\"yes\"}")]);
    let r: Result<GameScore, _> = query_endpoint(&event_descriptor(), &mock);
    match r {
        Err(ApiError::Response { source: ResponseError::DataType { message, .. }, .. }) => {
            assert_eq!(message, "field is not a boolean: overtime");
        },
        other => panic!("expected a data type failure, got {:?}", other.is_ok()),
    }
}

#[test]
fn missing_overtime_defaults_to_false() {
    let v: serde_json::Value = serde_json::from_str("{\"blue\":2,\"orange\":1}").unwrap();
    let score = <GameScore as octanezsr_api::query::Decode>::decode(&v).unwrap();
    assert!(!score.overtime);
}

#[test]
fn account_decode_defaults_nothing_required() {
    let v: serde_json::Value = serde_json::from_str("{\"platform\":\"steam\"}").unwrap();
    let a = <Account as octanezsr_api::query::Decode>::decode(&v).unwrap();
    assert_eq!(a.platform, Some(String::from("steam")));
    assert_eq!(a.id, None);
}

#[test]
fn collection_without_pagination_metadata() {
    let mock = Mock::new(vec![(200, "{\"teams\":[{\"name\":\"A\"},{\"name\":\"B\"}]}")]);
    let endpoint = ListActiveTeams::builder().build().unwrap();
    let coll: Collection<serde_json::Value> = endpoint.query(&mock).unwrap();
    assert!(coll.pagination.is_none());
    assert_eq!(coll.into_inner().len(), 2);
    assert_eq!(mock.urls(), vec![String::from("https://zsr.test/teams/active")]);
}

#[test]
fn collection_with_pagination_metadata() {
    let mock = Mock::new(vec![(
        200,
        "{\"events\":[1,2],\"page\":1,\"perPage\":20,\"pageSize\":2}",
    )]);
    let endpoint = ListEvents::builder().build().unwrap();
    let coll: Collection<serde_json::Value> = endpoint.query(&mock).unwrap();
    let meta = coll.pagination.unwrap();
    assert_eq!(meta.page, 1);
    assert_eq!(meta.per_page, 20);
    assert_eq!(meta.page_size, 2);
}

#[test]
fn rest_base_resolves_relative_paths() {
    let base = RestBase::new("https://zsr.octane.gg/").unwrap();
    assert_eq!(base.resolve("events").unwrap(), "https://zsr.octane.gg/events");
    assert_eq!(base.resolve("/events").unwrap(), "https://zsr.octane.gg/events");
    assert_eq!(
        base.resolve("events/5f35882d53fbbb5894b43040").unwrap(),
        "https://zsr.octane.gg/events/5f35882d53fbbb5894b43040"
    );
    assert!(RestBase::new("not a url").is_err());
}
