use caching_proxy::{CacheStore, CachingProxyServer, Step};

fn miss(body: &[u8]) -> Vec<u8> {
    let mut r = format!("HTTP/1.1 200 OK\r\nContent-Length: {}\r\nX-Cache: MISS\r\n\r\n", body.len())
        .into_bytes();
    r.extend_from_slice(body);
    r
}

fn hit(body: &[u8]) -> Vec<u8> {
    let mut r = format!("HTTP/1.1 200 OK\r\nContent-Length: {}\r\nX-Cache: HIT\r\n\r\n", body.len())
        .into_bytes();
    r.extend_from_slice(body);
    r
}

fn expect_fetch(step: Step) -> String {
    match step {
        Step::Fetch(url) => url,
        Step::Respond(_) => panic!("expected a fetch, got a response"),
        Step::Drop => panic!("expected a fetch, got a drop"),
    }
}

fn expect_response(step: Step) -> Vec<u8> {
    match step {
        Step::Respond(bytes) => bytes,
        Step::Fetch(url) => panic!("expected a response, got a fetch of {}", url),
        Step::Drop => panic!("expected a response, got a drop"),
    }
}

#[test]
fn end_to_end_miss_hit_clear_miss() {
    let mut server = CachingProxyServer::new("http://example.test".to_string());
    let url = expect_fetch(server.handle_request("GET /a HTTP/1.1"));
    assert_eq!(url, "http://example.test/a");
    let first = server.complete_fetch(url, Some(b"origin body of a".to_vec()));
    assert_eq!(first, Some(miss(b"origin body of a")));

    let again = expect_response(server.handle_request("GET /a HTTP/1.1"));
    assert_eq!(again, hit(b"origin body of a"));

    let cleared = expect_response(server.handle_request("GET /clear-cache HTTP/1.1"));
    assert_eq!(cleared, b"HTTP/1.1 200 OK\r\nContent-Length: 0\r\n\r\n".to_vec());

    let url = expect_fetch(server.handle_request("GET /a HTTP/1.1"));
    assert_eq!(url, "http://example.test/a");
}

#[test]
fn miss_then_every_repeat_hits_with_the_same_body() {
    let mut server = CachingProxyServer::new("http://o".to_string());
    let url = expect_fetch(server.handle_request("GET /p HTTP/1.1\r\n\r\n"));
    server.complete_fetch(url, Some(vec![1, 2, 3]));
    for _ in 0..3 {
        let r = expect_response(server.handle_request("GET /p HTTP/1.1\r\n\r\n"));
        assert_eq!(r, hit(&[1, 2, 3]));
    }
}

#[test]
fn clear_cache_call_forgets_every_entry() {
    let mut server = CachingProxyServer::new("http://o".to_string());
    for path in ["/x", "/y"] {
        let url = expect_fetch(server.handle_request(&format!("GET {} HTTP/1.1", path)));
        server.complete_fetch(url, Some(path.as_bytes().to_vec()));
    }
    server.clear_cache();
    assert_eq!(expect_fetch(server.handle_request("GET /x HTTP/1.1")), "http://o/x");
    assert_eq!(expect_fetch(server.handle_request("GET /y HTTP/1.1")), "http://o/y");
    assert_eq!(server.origin(), "http://o");
}

#[test]
fn post_to_the_control_path_clears_too() {
    let mut server = CachingProxyServer::new("http://o".to_string());
    let url = expect_fetch(server.handle_request("GET /x HTTP/1.1"));
    server.complete_fetch(url, Some(b"x".to_vec()));
    let r = expect_response(server.handle_request("POST /clear-cache HTTP/1.1"));
    assert_eq!(r, b"HTTP/1.1 200 OK\r\nContent-Length: 0\r\n\r\n".to_vec());
    expect_fetch(server.handle_request("GET /x HTTP/1.1"));
}

#[test]
fn near_control_paths_are_ordinary_paths() {
    let mut server = CachingProxyServer::new("http://o".to_string());
    assert_eq!(expect_fetch(server.handle_request("GET /clear-cache/ HTTP/1.1")), "http://o/clear-cache/");
    assert_eq!(expect_fetch(server.handle_request("GET /Clear-Cache HTTP/1.1")), "http://o/Clear-Cache");
}

#[test]
fn trailing_slash_is_another_key() {
    let mut server = CachingProxyServer::new("http://o".to_string());
    let url = expect_fetch(server.handle_request("GET /test HTTP/1.1"));
    server.complete_fetch(url, Some(b"t".to_vec()));
    let other = expect_fetch(server.handle_request("GET /test/ HTTP/1.1"));
    assert_eq!(other, "http://o/test/");
    let r = expect_response(server.handle_request("GET /test HTTP/1.1"));
    assert_eq!(r, hit(b"t"));
}

#[test]
fn concurrent_misses_may_both_fetch() {
    let mut server = CachingProxyServer::new("http://o".to_string());
    let first = expect_fetch(server.handle_request("GET /k HTTP/1.1"));
    let second = expect_fetch(server.handle_request("GET /k HTTP/1.1"));
    assert_eq!(first, second);
    assert_eq!(server.complete_fetch(first, Some(b"one".to_vec())), Some(miss(b"one")));
    assert_eq!(server.complete_fetch(second, Some(b"two".to_vec())), Some(miss(b"two")));
    let r = expect_response(server.handle_request("GET /k HTTP/1.1"));
    assert_eq!(r, hit(b"two"));
}

#[test]
fn failed_fetch_caches_nothing() {
    let mut server = CachingProxyServer::new("not a url".to_string());
    let url = expect_fetch(server.handle_request("GET /k HTTP/1.1"));
    assert_eq!(url, "not a url/k");
    assert_eq!(server.complete_fetch(url, None), None);
    expect_fetch(server.handle_request("GET /k HTTP/1.1"));
}

#[test]
fn request_without_path_is_dropped() {
    let mut server = CachingProxyServer::new("http://o".to_string());
    assert!(matches!(server.handle_request("GARBAGE"), Step::Drop));
    assert!(matches!(server.handle_request(""), Step::Drop));
}

#[test]
fn store_get_put_clear() {
    let mut store = CacheStore::new();
    let k = "http://o/a".to_string();
    assert_eq!(store.get(&k), None);
    store.put(k.clone(), b"1".to_vec());
    store.put("http://o/b".to_string(), b"2".to_vec());
    assert_eq!(store.get(&k), Some(b"1".to_vec()));
    store.put(k.clone(), b"3".to_vec());
    assert_eq!(store.get(&k), Some(b"3".to_vec()));
    assert_eq!(store.get(&"http://o/b".to_string()), Some(b"2".to_vec()));
    store.clear();
    assert_eq!(store.get(&k), None);
}
