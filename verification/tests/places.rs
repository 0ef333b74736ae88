use serde_esri::places::query::client::{
    bearer, endpoint, endpoint_of, requested_fields, AUTHORIZATION_HEADER, PLACES_API_URL,
};
use serde_esri::places::query::place_search::{iteration_item, PageCursor, Step};
use serde_esri::places::query::responses::{
    ErrorDetails, ErrorResponse, ExpectedResponse, Pagination, PointResponse,
};

fn page(results: &[&str], next: Option<&str>) -> PointResponse<String> {
    PointResponse {
        results: results.iter().map(|s| s.to_string()).collect(),
        pagination: Some(Pagination { previous_url: None, next_url: next.map(|s| s.to_string()) }),
    }
}

fn failure() -> ErrorResponse {
    ErrorResponse {
        error: ErrorDetails {
            code: 498,
            message: "Invalid token".to_string(),
            details: vec!["expired".to_string()],
            rest_info_url: "https://example.org/rest/info".to_string(),
        },
    }
}

#[test]
fn open_on_a_page_starts_at_its_first_result() {
    let cursor = PageCursor::open(ExpectedResponse::Point(page(&["a", "b"], Some("next")))).unwrap();
    assert_eq!(cursor.results.iter().cloned().collect::<Vec<_>>(), vec!["a", "b"]);
    assert_eq!(cursor.next_page, Some("next".to_string()));
}

#[test]
fn open_without_pagination_has_no_next_page() {
    let first = PointResponse { results: vec![1u32, 2, 3], pagination: None };
    let cursor = PageCursor::open(ExpectedResponse::Point(first)).unwrap();
    assert_eq!(cursor.results.len(), 3);
    assert_eq!(cursor.next_page, None);
}

#[test]
fn open_on_an_error_reports_it() {
    let r = PageCursor::<String>::open(ExpectedResponse::Error(failure()));
    assert_eq!(r.err(), Some(failure()));
}

#[test]
fn advance_yields_then_fetches() {
    let mut cursor = PageCursor::open(ExpectedResponse::Point(page(&["a", "b"], Some("p2")))).unwrap();
    assert_eq!(cursor.advance(), Step::Yield("a".to_string()));
    assert_eq!(cursor.advance(), Step::Yield("b".to_string()));
    assert_eq!(cursor.advance(), Step::Fetch("p2".to_string()));
    assert_eq!(cursor.advance(), Step::Fetch("p2".to_string()));
    assert_eq!(cursor.next_page, Some("p2".to_string()));
    assert_eq!(cursor.results.len(), 0);
}

#[test]
fn advance_is_done_without_next_page() {
    let mut cursor = PageCursor::open(ExpectedResponse::Point(page(&["a"], None))).unwrap();
    assert_eq!(cursor.advance(), Step::Yield("a".to_string()));
    assert_eq!(cursor.advance(), Step::Done);
    assert_eq!(cursor.advance(), Step::Done);
}

#[test]
fn resume_hands_out_the_first_result_of_the_new_page() {
    let mut cursor = PageCursor::open(ExpectedResponse::Point(page(&[], Some("p2")))).unwrap();
    assert_eq!(cursor.advance(), Step::Fetch("p2".to_string()));
    assert_eq!(cursor.resume(page(&["c", "d", "e"], Some("p3"))), Some("c".to_string()));
    assert_eq!(cursor.next_page, Some("p3".to_string()));
    assert_eq!(cursor.advance(), Step::Yield("d".to_string()));
    assert_eq!(cursor.advance(), Step::Yield("e".to_string()));
    assert_eq!(cursor.advance(), Step::Fetch("p3".to_string()));
    assert_eq!(cursor.resume(page(&["f"], None)), Some("f".to_string()));
    assert_eq!(cursor.advance(), Step::Done);
}

#[test]
fn resume_with_an_empty_page_hands_out_nothing() {
    let mut cursor = PageCursor::open(ExpectedResponse::Point(page(&[], Some("p2")))).unwrap();
    assert_eq!(cursor.resume(page(&[], Some("p3"))), None);
    assert_eq!(cursor.next_page, Some("p3".to_string()));
    assert_eq!(cursor.advance(), Step::Fetch("p3".to_string()));
}

#[test]
fn iteration_item_maps_each_outcome() {
    assert_eq!(iteration_item::<u8, String>(Ok(Some(3))), Some(Ok(3)));
    assert_eq!(iteration_item::<u8, String>(Ok(None)), None);
    assert_eq!(iteration_item::<u8, String>(Err("down".to_string())), Some(Err("down".to_string())));
}

#[test]
fn endpoints_are_base_and_path() {
    assert_eq!(endpoint("https://h/v1", "/categories"), "https://h/v1/categories");
    assert_eq!(endpoint(PLACES_API_URL, "/places/near-point"),
        "https://places-api.arcgis.com/arcgis/rest/services/places-service/v1/places/near-point");
    assert_eq!(endpoint_of("https://h/v1", "/places", "abc123"), "https://h/v1/places/abc123");
    assert_eq!(endpoint_of("https://h/v1", "/categories", "17"), "https://h/v1/categories/17");
}

#[test]
fn bearer_prefixes_the_token() {
    assert_eq!(bearer("t0k3n"), "Bearer t0k3n");
    assert_eq!(bearer(""), "Bearer ");
    assert_eq!(AUTHORIZATION_HEADER, "X-Esri-Authorization");
}

#[test]
fn requested_fields_are_joined_by_commas() {
    assert_eq!(requested_fields(&vec![]), "");
    assert_eq!(requested_fields(&vec!["name".to_string()]), "name");
    assert_eq!(
        requested_fields(&vec!["name".to_string(), "address".to_string(), "hours".to_string()]),
        "name,address,hours"
    );
    assert_eq!(requested_fields(&vec!["".to_string(), "".to_string()]), ",");
}
