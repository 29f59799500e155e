//! Query parameter encoding: wire tokens, percent-encoding, sort values,
//! and the page/per-page extension.

use octanezsr_api::common::{BestOf, Direction, Mode, Region, Tier};
use octanezsr_api::datetime::DateTime;
use octanezsr_api::endpoint::Endpoint;
use octanezsr_api::pagination::{extend_with_page, is_first_page};
use octanezsr_api::params::{encode_query_suffix, sort_param, QueryParams};
use octanezsr_api::strutil::{bool_str, u64_to_string, usize_to_string};

#[test]
fn sort_param_is_field_colon_direction() {
    assert_eq!(sort_param("name", Direction::Asc), "name:asc");
    assert_eq!(sort_param("name", Direction::Desc), "name:desc");
    assert_eq!(sort_param("bestOf", Direction::Asc), "bestOf:asc");
}

#[test]
fn direction_tokens() {
    assert_eq!(Direction::Asc.as_str(), "asc");
    assert_eq!(Direction::Desc.as_str(), "desc");
}

#[test]
fn tier_tokens() {
    assert_eq!(Tier::S.as_str(), "S");
    assert_eq!(Tier::ShowMatch.as_str(), "Show Match");
    assert_eq!(Tier::Qualifier.as_str(), "Qualifier");
}

#[test]
fn region_tokens() {
    assert_eq!(Region::NorthAmerica.as_str(), "NA");
    assert_eq!(Region::Europe.as_str(), "EU");
    assert_eq!(Region::Oceania.as_str(), "OCE");
    assert_eq!(Region::SouthAmerica.as_str(), "SAM");
    assert_eq!(Region::Asia.as_str(), "ASIA");
    assert_eq!(Region::MiddleEast.as_str(), "ME");
    assert_eq!(Region::International.as_str(), "INT");
    assert_eq!(Region::Africa.as_str(), "AF");
}

#[test]
fn mode_and_best_of_tokens() {
    assert_eq!(Mode::One.as_str(), "1");
    assert_eq!(Mode::Three.as_str(), "3");
    assert_eq!(BestOf::Three.as_str(), "3");
    assert_eq!(BestOf::Seven.as_str(), "7");
}

#[test]
fn decimal_rendering() {
    assert_eq!(u64_to_string(0), "0");
    assert_eq!(u64_to_string(45), "45");
    assert_eq!(u64_to_string(12345), "12345");
    assert_eq!(usize_to_string(20), "20");
    assert_eq!(bool_str(true), "true");
    assert_eq!(bool_str(false), "false");
}

#[test]
fn empty_params_give_empty_suffix() {
    let q = QueryParams::new();
    assert_eq!(encode_query_suffix(&q), "");
}

#[test]
fn single_pair_suffix() {
    let mut q = QueryParams::new();
    q.push("name", String::from("RLCS"));
    assert_eq!(encode_query_suffix(&q), "?name=RLCS");
}

#[test]
fn pairs_are_ampersand_joined_in_order() {
    let mut q = QueryParams::new();
    q.push("tier", String::from("S"));
    q.push("region", String::from("NA"));
    q.push("mode", String::from("3"));
    assert_eq!(encode_query_suffix(&q), "?tier=S&region=NA&mode=3");
}

#[test]
fn space_becomes_plus_and_reserved_bytes_are_percent_encoded() {
    let mut q = QueryParams::new();
    q.push("tier", String::from("Show Match"));
    q.push("name", String::from("a&b=c"));
    assert_eq!(encode_query_suffix(&q), "?tier=Show+Match&name=a%26b%3Dc");
}

#[test]
fn non_ascii_is_percent_encoded_bytewise() {
    let mut q = QueryParams::new();
    q.push("name", String::from("caf\u{e9}"));
    assert_eq!(encode_query_suffix(&q), "?name=caf%C3%A9");
}

#[test]
fn unreserved_bytes_pass_through() {
    let mut q = QueryParams::new();
    q.push("name", String::from("A-z.0_9*"));
    assert_eq!(encode_query_suffix(&q), "?name=A-z.0_9*");
}

#[test]
fn first_page_is_one() {
    assert!(is_first_page(&0));
    assert!(is_first_page(&1));
    assert!(!is_first_page(&2));
}

#[test]
fn page_extension_skips_defaults() {
    let mut q = QueryParams::new();
    extend_with_page(&mut q, 1, None);
    assert_eq!(encode_query_suffix(&q), "");
}

#[test]
fn page_extension_writes_overrides() {
    let mut q = QueryParams::new();
    q.push("name", String::from("RLCS"));
    extend_with_page(&mut q, 3, Some(20));
    assert_eq!(encode_query_suffix(&q), "?name=RLCS&page=3&perPage=20");
}

#[test]
fn page_extension_keeps_existing_pairs() {
    let mut q = QueryParams::new();
    q.push("tier", String::from("S"));
    extend_with_page(&mut q, 2, None);
    assert_eq!(encode_query_suffix(&q), "?tier=S&page=2");
}

#[test]
fn datetime_renders_rfc3339() {
    let d = DateTime::new(2016, 12, 3, 0, 0, 0);
    assert_eq!(d.to_rfc3339(), "2016-12-03T00:00:00Z");
    let d = DateTime::new(2021, 6, 20, 9, 5, 59);
    assert_eq!(d.to_rfc3339(), "2021-06-20T09:05:59Z");
}

#[test]
fn encoding_is_deterministic() {
    let endpoint = octanezsr_api::events::ListEvents::builder()
        .name(String::from("RLCS"))
        .tier(Tier::S)
        .sort(octanezsr_api::events::EventSorting::Name, Direction::Desc)
        .build()
        .unwrap();
    let a = endpoint.query_parameters().unwrap();
    let b = endpoint.query_parameters().unwrap();
    assert_eq!(encode_query_suffix(&a), encode_query_suffix(&b));
}
