use yarws::http::build_response;
use yarws::http::decimal_string;
use yarws::http::response_plan;
use yarws::http::route_request;
use yarws::http::RequestKind;

#[test]
fn the_root_request_line_is_recognised() {
    assert!(matches!(route_request("GET / HTTP/1.1"), RequestKind::Root));
}

#[test]
fn the_sleep_request_line_is_recognised() {
    assert!(matches!(route_request("GET /sleep HTTP/1.1"), RequestKind::Sleep));
}

#[test]
fn other_request_lines_are_unknown() {
    assert!(matches!(route_request("GET /missing HTTP/1.1"), RequestKind::Unknown));
    assert!(matches!(route_request(""), RequestKind::Unknown));
    assert!(matches!(route_request("GET / HTTP/1.0"), RequestKind::Unknown));
    assert!(matches!(route_request("get / http/1.1"), RequestKind::Unknown));
}

#[test]
fn recognised_requests_get_the_hello_page_with_ok() {
    let (status, path) = response_plan(&RequestKind::Root);
    assert_eq!(status, "HTTP/1.1 200 OK\r\n\r\n");
    assert_eq!(path, "assets/hello.html");
    let (status, path) = response_plan(&RequestKind::Sleep);
    assert_eq!(status, "HTTP/1.1 200 OK\r\n\r\n");
    assert_eq!(path, "assets/hello.html");
}

#[test]
fn unknown_requests_get_the_not_found_page() {
    let (status, path) = response_plan(&RequestKind::Unknown);
    assert_eq!(status, "HTTP/1.1 404 NOT FOUND\r\n\r\n");
    assert_eq!(path, "assets/404.html");
}

#[test]
fn numbers_render_in_decimal() {
    assert_eq!(decimal_string(0), "0");
    assert_eq!(decimal_string(7), "7");
    assert_eq!(decimal_string(10), "10");
    assert_eq!(decimal_string(1204), "1204");
    assert_eq!(decimal_string(usize::MAX), format!("{}", usize::MAX));
}

#[test]
fn the_response_carries_the_body_and_its_byte_length() {
    let r = build_response("HTTP/1.1 200 OK\r\n\r\n", "hello");
    assert_eq!(
        r,
        "HTTP/1.1 200 OK\r\n\r\n\r\nContent-Type: text/html; charset=UTF-8\r\nContent-Length: 5\r\n\r\nhello"
    );
}

#[test]
fn the_content_length_counts_bytes_not_characters() {
    // A two-byte UTF-8 character must be counted as two bytes.
    let r = build_response("S", "é");
    assert_eq!(
        r,
        "S\r\nContent-Type: text/html; charset=UTF-8\r\nContent-Length: 2\r\n\r\né"
    );
}
