use canvas_lms_sync::canvas_api::{build_url, i64_dec_string, u64_dec_string};
use canvas_lms_sync::canvas_api::{PageCursor, PageWalk, ResponsePagination};

/// A mock listing service: each page is its records plus the `Link`
/// header value the response would carry.
fn mock_page(url: &str) -> (Vec<&'static str>, Option<&'static str>) {
    match url {
        "https://h/api/v1/courses/7/files?page=1" => (
            vec!["r1", "r2"],
            Some("<https://h/api/v1/courses/7/files?page=2>; rel=\"next\", <https://h/api/v1/courses/7/files?page=1>; rel=\"current\""),
        ),
        "https://h/api/v1/courses/7/files?page=2" => (
            vec!["r3", "r4"],
            Some("<https://h/api/v1/courses/7/files?page=3>; rel=\"next\""),
        ),
        "https://h/api/v1/courses/7/files?page=3" => (
            vec!["r5", "r6"],
            Some("<https://h/api/v1/courses/7/files?page=2>; rel=\"prev\""),
        ),
        _ => panic!("unexpected request: {}", url),
    }
}

#[test]
fn pagination_walks_pages_in_order() {
    let mut walk: PageWalk<&'static str> =
        PageWalk::new("https://h/api/v1/courses/7/files?page=1".to_string());
    let mut requests = 0;
    while let Some(url) = walk.take_request() {
        requests += 1;
        assert!(requests <= 3);
        let (page, link) = mock_page(&url);
        let ok = walk.apply_page(200, link, page);
        assert!(ok);
    }
    assert!(!walk.cursor.failed);
    assert_eq!(walk.records, vec!["r1", "r2", "r3", "r4", "r5", "r6"]);
    assert_eq!(requests, 3);
}

#[test]
fn any_success_status_continues_the_walk() {
    let mut cursor = PageCursor::new("https://h/x".to_string());
    let ok = cursor.advance(204, Some("<https://h/x?page=2>; rel=\"next\""));
    assert!(ok);
    assert!(!cursor.failed);
    assert_eq!(cursor.take_request().as_deref(), Some("https://h/x?page=2"));
}

#[test]
fn failed_page_keeps_earlier_records() {
    let mut walk: PageWalk<&'static str> = PageWalk::new("https://h/x".to_string());
    assert!(walk.apply_page(200, Some("<https://h/y>; rel=\"next\""), vec!["r1"]));
    assert!(!walk.apply_page(500, None, vec!["dropped"]));
    assert!(walk.cursor.failed);
    assert!(walk.take_request().is_none());
    assert_eq!(walk.records, vec!["r1"]);
}

#[test]
fn failed_page_ends_the_walk() {
    let mut cursor = PageCursor::new("https://h/x".to_string());
    assert!(cursor.pending());
    let ok = cursor.advance(404, Some("<https://h/x?page=2>; rel=\"next\""));
    assert!(!ok);
    assert!(cursor.failed);
    assert!(!cursor.pending());
    assert_eq!(cursor.take_request(), None);
}

#[test]
fn missing_link_header_exhausts_the_walk() {
    let mut cursor = PageCursor::new("https://h/x".to_string());
    let ok = cursor.advance(200, None);
    assert!(ok);
    assert!(!cursor.failed);
    assert!(!cursor.pending());
}

#[test]
fn link_header_next_and_prev() {
    let p = ResponsePagination::from_header(
        "<https://h/x?page=2>; rel=\"next\", <https://h/x?page=1>; rel=\"prev\"",
    );
    assert_eq!(p.next.as_deref(), Some("https://h/x?page=2"));
    assert_eq!(p.prev.as_deref(), Some("https://h/x?page=1"));
    assert_eq!(p.current, "");
    assert_eq!(p.first, "");
    assert_eq!(p.last, "");
}

#[test]
fn link_header_all_relations() {
    let p = ResponsePagination::from_header(
        "<https://h/a>; rel=\"current\", <https://h/b>; rel=\"first\", <https://h/c>; rel=\"last\", <https://h/d>; rel=\"next\"",
    );
    assert_eq!(p.current, "https://h/a");
    assert_eq!(p.first, "https://h/b");
    assert_eq!(p.last, "https://h/c");
    assert_eq!(p.next.as_deref(), Some("https://h/d"));
    assert_eq!(p.prev, None);
}

#[test]
fn link_header_last_occurrence_wins() {
    let p = ResponsePagination::from_header(
        "<https://h/old>; rel=\"next\", <https://h/new>; rel=\"next\"",
    );
    assert_eq!(p.next.as_deref(), Some("https://h/new"));
}

#[test]
fn link_header_empty_and_malformed() {
    let p = ResponsePagination::from_header("");
    assert_eq!(p.next, None);
    assert_eq!(p.prev, None);
    assert_eq!(p.current, "");

    let p = ResponsePagination::from_header("no angle brackets at all");
    assert_eq!(p.next, None);

    let p = ResponsePagination::from_header("<https://h/x>; missing rel");
    assert_eq!(p.next, None);

    let p = ResponsePagination::from_header("<https://h/x>; rel=\"unknown\"");
    assert_eq!(p.next, None);
    assert_eq!(p.current, "");
}

#[test]
fn build_url_joins_with_one_slash() {
    assert_eq!(build_url("https://h", "/a/b"), "https://h/a/b");
    assert_eq!(build_url("https://h/", "/a/b"), "https://h/a/b");
    assert_eq!(build_url("https://h/", "a/b"), "https://h/a/b");
    assert_eq!(build_url("https://h", "a/b"), "https://h/a/b");
}

#[test]
fn decimal_rendering() {
    assert_eq!(u64_dec_string(0), "0");
    assert_eq!(u64_dec_string(7), "7");
    assert_eq!(u64_dec_string(1234567890123), "1234567890123");
    assert_eq!(i64_dec_string(0), "0");
    assert_eq!(i64_dec_string(42), "42");
    assert_eq!(i64_dec_string(-42), "-42");
    assert_eq!(i64_dec_string(i64::MIN), "-9223372036854775808");
}
