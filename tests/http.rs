use caching_proxy::{format_http_response, parse_path};

#[test]
fn test_parse_path() {
    assert_eq!(parse_path("GET / HTTP/1.1"), Some("/".to_string()));
}

#[test]
fn test_format_http_response() {
    let body = b"Hello, World!".to_vec();
    let cache_status = "HIT";
    let response = format_http_response(body.clone(), cache_status);

    let response_str = String::from_utf8_lossy(&response);

    assert!(response_str.contains("HTTP/1.1 200 OK"));
    assert!(response_str.contains(&format!("Content-Length: {}", body.len())));
    assert!(response_str.contains(&format!("X-Cache: {}", cache_status)));

    let expected_response = format!(
        "HTTP/1.1 200 OK\r\nContent-Length: {}\r\nX-Cache: {}\r\n\r\n{}",
        body.len(),
        cache_status,
        String::from_utf8_lossy(&body)
    );
    assert_eq!(response_str, expected_response);
}

#[test]
fn parse_path_reads_only_the_first_line() {
    let request = "GET /a?x=1&y=2 HTTP/1.1\r\nHost: example.test\r\n\r\n";
    assert_eq!(parse_path(request), Some("/a?x=1&y=2".to_string()));
}

#[test]
fn parse_path_without_a_second_word_is_none() {
    assert_eq!(parse_path(""), None);
    assert_eq!(parse_path("GET"), None);
    assert_eq!(parse_path("GET   \r\n/a HTTP/1.1"), None);
    assert_eq!(parse_path("\nGET /a HTTP/1.1"), None);
}

#[test]
fn parse_path_skips_any_white_space() {
    assert_eq!(parse_path("  GET \t /x  HTTP/1.1"), Some("/x".to_string()));
    assert_eq!(parse_path("GET\u{3000}/wide\u{a0}HTTP/1.1"), Some("/wide".to_string()));
    assert_eq!(parse_path("POST /clear-cache"), Some("/clear-cache".to_string()));
}

#[test]
fn parse_path_keeps_non_ascii_paths() {
    assert_eq!(parse_path("GET /café HTTP/1.1"), Some("/café".to_string()));
}

#[test]
fn content_length_counts_bytes() {
    let body = "é€".as_bytes().to_vec();
    let response = format_http_response(body.clone(), "MISS");
    let mut expected = b"HTTP/1.1 200 OK\r\nContent-Length: 5\r\nX-Cache: MISS\r\n\r\n".to_vec();
    expected.extend_from_slice(&body);
    assert_eq!(response, expected);
}

#[test]
fn content_length_of_empty_and_large_bodies() {
    let response = format_http_response(Vec::new(), "MISS");
    assert_eq!(response, b"HTTP/1.1 200 OK\r\nContent-Length: 0\r\nX-Cache: MISS\r\n\r\n".to_vec());

    let body = vec![7u8; 1234];
    let response = format_http_response(body.clone(), "HIT");
    let head = b"HTTP/1.1 200 OK\r\nContent-Length: 1234\r\nX-Cache: HIT\r\n\r\n".to_vec();
    assert_eq!(response.len(), head.len() + 1234);
    assert_eq!(&response[..head.len()], &head[..]);
    assert_eq!(&response[head.len()..], &body[..]);
}
