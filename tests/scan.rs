use square_fdw::error::{FdwError, Operation};
use square_fdw::fdw::{option_value, ExampleFdw};
use square_fdw::json::Json;
use square_fdw::page::{read_page, Paginator};
use square_fdw::projection::{Cell, Column, TypeTag};

fn opts(pairs: &[(&str, &str)]) -> Vec<(String, String)> {
    pairs.iter().map(|(k, v)| (k.to_string(), v.to_string())).collect()
}

fn ready_adapter() -> ExampleFdw {
    let mut fdw = ExampleFdw::new();
    fdw.init(&opts(&[("base_url", "https://api.test/v2"), ("access_token", "EAAAtoken123")]))
        .unwrap();
    fdw
}

/// Runs the page requests of a scan against canned responses, keyed by URL;
/// returns the URLs requested, in order.
fn fetch(fdw: &mut ExampleFdw, pages: &[(&str, u16, &str)]) -> Result<Vec<String>, FdwError> {
    let mut urls = Vec::new();
    while let Some(req) = fdw.next_request() {
        urls.push(req.url.clone());
        let (_, status, body) = pages
            .iter()
            .find(|(u, _, _)| *u == req.url)
            .unwrap_or_else(|| panic!("no page for {}", req.url));
        fdw.on_response(*status, body)?;
    }
    Ok(urls)
}

fn id_column() -> Vec<Column> {
    vec![Column::new("id".to_string(), TypeTag::String)]
}

fn next_id(fdw: &mut ExampleFdw) -> Option<String> {
    match fdw.iter_scan(&id_column()).unwrap() {
        Some(row) => match &row[0] {
            Cell::String(s) => Some(s.clone()),
            other => panic!("unexpected cell {:?}", other),
        },
        None => None,
    }
}

#[test]
fn init_without_access_token_fails() {
    let mut fdw = ExampleFdw::new();
    let err = fdw.init(&opts(&[("base_url", "https://api.test/v2")])).unwrap_err();
    assert!(matches!(err, FdwError::Config { ref option } if option == "access_token"));
    let err = fdw.init(&opts(&[])).unwrap_err();
    assert!(matches!(err, FdwError::Config { ref option } if option == "access_token"));
}

#[test]
fn init_defaults_base_url() {
    let mut fdw = ExampleFdw::new();
    fdw.init(&opts(&[("access_token", "tok")])).unwrap();
    fdw.begin_scan(&opts(&[("object", "list")])).unwrap();
    let req = fdw.next_request().unwrap();
    assert_eq!(req.url, "https://connect.squareup.com/v2/customers/list");
}

#[test]
fn token_hint_shows_at_most_five_characters() {
    let fdw = ready_adapter();
    assert_eq!(fdw.token_hint(), "EAAAt****");
    let mut short = ExampleFdw::new();
    short.init(&opts(&[("access_token", "ab")])).unwrap();
    assert_eq!(short.token_hint(), "ab****");
}

#[test]
fn option_lookup_takes_first_match() {
    let o = opts(&[("a", "1"), ("b", "2"), ("a", "3")]);
    assert_eq!(option_value(&o, "a"), Some("1".to_string()));
    assert_eq!(option_value(&o, "c"), None);
}

#[test]
fn begin_scan_requires_object() {
    let mut fdw = ready_adapter();
    let err = fdw.begin_scan(&opts(&[])).unwrap_err();
    assert!(matches!(err, FdwError::Config { ref option } if option == "object"));
    assert!(fdw.next_request().is_none());
}

#[test]
fn request_carries_headers() {
    let mut fdw = ready_adapter();
    fdw.begin_scan(&opts(&[("object", "customers")])).unwrap();
    let req = fdw.next_request().unwrap();
    assert_eq!(req.url, "https://api.test/v2/customers");
    assert_eq!(
        req.headers,
        vec![
            ("authorization".to_string(), "Bearer EAAAtoken123".to_string()),
            ("content-type".to_string(), "application/json".to_string()),
            ("user-agent".to_string(), "SquareCustomers FDW".to_string()),
        ]
    );
}

#[test]
fn single_page_with_null_cursor() {
    let mut fdw = ready_adapter();
    fdw.begin_scan(&opts(&[("object", "customers")])).unwrap();
    let urls = fetch(
        &mut fdw,
        &[(
            "https://api.test/v2/customers",
            200,
            r#"{"customers": [{"id": "A"}, {"id": "B"}], "cursor": null}"#,
        )],
    )
    .unwrap();
    assert_eq!(urls.len(), 1);
    assert_eq!(next_id(&mut fdw), Some("A".to_string()));
    assert_eq!(next_id(&mut fdw), Some("B".to_string()));
    assert_eq!(next_id(&mut fdw), None);
}

#[test]
fn pages_are_concatenated_in_request_order() {
    let mut fdw = ready_adapter();
    fdw.begin_scan(&opts(&[("object", "customers")])).unwrap();
    let urls = fetch(
        &mut fdw,
        &[
            ("https://api.test/v2/customers", 200, r#"{"customers": [{"id": "1"}], "cursor": "p2"}"#),
            ("https://api.test/v2/customers?cursor=p2", 200, r#"{"customers": [{"id": "2"}, {"id": "3"}], "cursor": "p3"}"#),
            ("https://api.test/v2/customers?cursor=p3", 200, r#"{"customers": [{"id": "4"}]}"#),
        ],
    )
    .unwrap();
    assert_eq!(
        urls,
        vec![
            "https://api.test/v2/customers".to_string(),
            "https://api.test/v2/customers?cursor=p2".to_string(),
            "https://api.test/v2/customers?cursor=p3".to_string(),
        ]
    );
    let mut ids = Vec::new();
    while let Some(id) = next_id(&mut fdw) {
        ids.push(id);
    }
    assert_eq!(ids, vec!["1", "2", "3", "4"]);
}

#[test]
fn non_string_cursor_ends_the_walk() {
    let mut p = Paginator::new("u".to_string());
    p.accept(200, r#"{"customers": [], "cursor": 17}"#).unwrap();
    assert!(p.is_done());
    assert_eq!(p.into_records().len(), 0);
}

#[test]
fn paginator_appends_cursor_to_url() {
    let mut p = Paginator::new("https://h/c".to_string());
    assert_eq!(p.next_url(), "https://h/c");
    p.accept(200, r#"{"customers": [1], "cursor": "abc"}"#).unwrap();
    assert!(!p.is_done());
    assert_eq!(p.next_url(), "https://h/c?cursor=abc");
    let err = p.accept(500, "").unwrap_err();
    assert!(matches!(err, FdwError::HttpStatus { code: 500 }));
    assert_eq!(p.next_url(), "https://h/c?cursor=abc");
    p.accept(200, r#"{"customers": [2, 3]}"#).unwrap();
    assert!(p.is_done());
    let records = p.into_records();
    assert!(matches!(records.as_slice(), [Json::Int(1), Json::Int(2), Json::Int(3)]));
}

#[test]
fn read_page_errors() {
    assert!(matches!(read_page(404, "{}"), Err(FdwError::HttpStatus { code: 404 })));
    assert!(matches!(read_page(201, r#"{"customers": []}"#), Err(FdwError::HttpStatus { code: 201 })));
    assert!(matches!(read_page(200, "not json"), Err(FdwError::Parse { .. })));
    match read_page(200, r#"{"customers": {"id": 1}}"#) {
        Err(FdwError::Schema { field }) => assert_eq!(field, "customers"),
        other => panic!("unexpected {:?}", other.map(|p| p.records.len())),
    }
    assert!(matches!(read_page(200, "[1, 2]"), Err(FdwError::Schema { .. })));
}

#[test]
fn read_page_extracts_records_and_cursor() {
    let page = read_page(200, r#"{"cursor": "next", "customers": [{"id": "x", "n": 5}]}"#).unwrap();
    assert_eq!(page.next_cursor, Some("next".to_string()));
    assert_eq!(page.records.len(), 1);
    match &page.records[0] {
        Json::Object(members) => {
            assert_eq!(members.len(), 2);
            assert!(members.iter().any(|(k, v)| k == "n" && matches!(v, Json::Int(5))));
        }
        other => panic!("unexpected record {:?}", other),
    }
}

#[test]
fn failed_page_fails_the_scan_and_keeps_nothing() {
    let mut fdw = ready_adapter();
    fdw.begin_scan(&opts(&[("object", "customers")])).unwrap();
    let err = fetch(
        &mut fdw,
        &[
            ("https://api.test/v2/customers", 200, r#"{"customers": [{"id": "1"}], "cursor": "p2"}"#),
            ("https://api.test/v2/customers?cursor=p2", 503, "busy"),
        ],
    )
    .unwrap_err();
    assert!(matches!(err, FdwError::HttpStatus { code: 503 }));
    assert!(fdw.next_request().is_none());
    assert_eq!(next_id(&mut fdw), None);
}

#[test]
fn transport_error_fails_the_scan() {
    let mut fdw = ready_adapter();
    fdw.begin_scan(&opts(&[("object", "customers")])).unwrap();
    let err = fdw.on_transport_error("connection refused".to_string());
    assert!(matches!(err, FdwError::Transport { ref message } if message == "connection refused"));
    assert!(fdw.next_request().is_none());
    assert_eq!(next_id(&mut fdw), None);
}

#[test]
fn exhaustion_is_reported_repeatedly() {
    let mut fdw = ready_adapter();
    fdw.begin_scan(&opts(&[("object", "customers")])).unwrap();
    fetch(
        &mut fdw,
        &[("https://api.test/v2/customers", 200, r#"{"customers": [{"id": "A"}]}"#)],
    )
    .unwrap();
    assert_eq!(next_id(&mut fdw), Some("A".to_string()));
    for _ in 0..3 {
        assert!(fdw.iter_scan(&id_column()).unwrap().is_none());
    }
    fdw.begin_scan(&opts(&[("object", "customers")])).unwrap();
    fetch(
        &mut fdw,
        &[("https://api.test/v2/customers", 200, r#"{"customers": [{"id": "B"}]}"#)],
    )
    .unwrap();
    assert_eq!(next_id(&mut fdw), Some("B".to_string()));
}

#[test]
fn projection_error_keeps_the_offset() {
    let mut fdw = ready_adapter();
    fdw.begin_scan(&opts(&[("object", "customers")])).unwrap();
    fetch(
        &mut fdw,
        &[("https://api.test/v2/customers", 200, r#"{"customers": [{"id": "A"}]}"#)],
    )
    .unwrap();
    let bad = vec![Column::new("email".to_string(), TypeTag::String)];
    assert!(fdw.iter_scan(&bad).is_err());
    assert_eq!(next_id(&mut fdw), Some("A".to_string()));
}

#[test]
fn end_scan_twice_is_a_no_op() {
    let mut fdw = ready_adapter();
    fdw.begin_scan(&opts(&[("object", "customers")])).unwrap();
    fetch(
        &mut fdw,
        &[("https://api.test/v2/customers", 200, r#"{"customers": [{"id": "A"}, {"id": "B"}]}"#)],
    )
    .unwrap();
    assert_eq!(next_id(&mut fdw), Some("A".to_string()));
    assert!(fdw.end_scan().is_ok());
    assert_eq!(next_id(&mut fdw), None);
    assert!(fdw.end_scan().is_ok());
    assert_eq!(next_id(&mut fdw), None);
    assert!(fdw.next_request().is_none());
}

#[test]
fn re_scan_always_fails() {
    let mut fdw = ExampleFdw::new();
    assert!(matches!(fdw.re_scan(), Err(FdwError::Unsupported { operation: Operation::ReScan })));
    fdw.init(&opts(&[("access_token", "t")])).unwrap();
    fdw.begin_scan(&opts(&[("object", "customers")])).unwrap();
    assert!(matches!(fdw.re_scan(), Err(FdwError::Unsupported { operation: Operation::ReScan })));
    fdw.on_response(200, r#"{"customers": []}"#).unwrap();
    assert!(matches!(fdw.re_scan(), Err(FdwError::Unsupported { operation: Operation::ReScan })));
    fdw.end_scan().unwrap();
    assert!(matches!(fdw.re_scan(), Err(FdwError::Unsupported { operation: Operation::ReScan })));
}

#[test]
fn writes_are_unsupported() {
    let fdw = ready_adapter();
    assert!(matches!(fdw.begin_modify(), Err(FdwError::Unsupported { operation: Operation::Modify })));
    assert!(matches!(fdw.insert(&vec![]), Err(FdwError::Unsupported { operation: Operation::Insert })));
    assert!(matches!(
        fdw.update(&Cell::I64(1), &vec![Cell::Null]),
        Err(FdwError::Unsupported { operation: Operation::Update })
    ));
    assert!(matches!(fdw.delete(&Cell::I64(1)), Err(FdwError::Unsupported { operation: Operation::Delete })));
    assert!(fdw.end_modify().is_ok());
}

#[test]
fn host_version_requirement_is_fixed() {
    assert_eq!(ExampleFdw::host_version_requirement(), "^0.1.0");
}

#[test]
fn missing_fields_option_gives_null_cells() {
    let mut fdw = ready_adapter();
    fdw.begin_scan(&opts(&[("object", "customers"), ("missing_fields", "null")])).unwrap();
    fetch(
        &mut fdw,
        &[("https://api.test/v2/customers", 200, r#"{"customers": [{"name": "A"}]}"#)],
    )
    .unwrap();
    let row = fdw.iter_scan(&id_column()).unwrap().unwrap();
    assert!(matches!(row[0], Cell::Null));
}
