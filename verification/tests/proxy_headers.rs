use kurp::clients::proxy_client::ProxyClient;
use kurp::clients::websocket_proxy_client::WebsocketProxyClient;
use kurp::call_history::CallHistory;
use kurp::handlers::upscale::{
    is_conditional_header, remove_uncached_conditional_headers, strip_conditional_headers,
    to_proxy_request,
};
use kurp::models::http::{Header, Request, Response};

fn header(name: &str, value: &str) -> Header {
    Header { name: name.to_string(), value: value.to_string() }
}

fn pairs(headers: &Vec<Header>) -> Vec<(String, String)> {
    headers.iter().map(|h| (h.name.clone(), h.value.clone())).collect()
}

#[test]
fn hop_headers_are_recognised_in_any_case() {
    let client = ProxyClient::new("http://upstream:8080".to_string());
    for name in [
        "Connection",
        "Keep-Alive",
        "Proxy-Authenticate",
        "Proxy-Authorization",
        "Te",
        "Trailers",
        "Transfer-Encoding",
        "Upgrade",
    ] {
        assert!(client.is_hop_header(name), "{}", name);
        assert!(client.is_hop_header(&name.to_lowercase()), "{}", name);
        assert!(client.is_hop_header(&name.to_uppercase()), "{}", name);
    }
}

#[test]
fn end_to_end_headers_are_not_hop_headers() {
    let client = ProxyClient::new("http://upstream:8080".to_string());
    for name in ["Content-Type", "Accept", "Connectio", "Connections", "T", "", "If-None-Match"] {
        assert!(!client.is_hop_header(name), "{}", name);
    }
}

#[test]
fn remove_hop_headers_keeps_the_rest_in_order() {
    let client = ProxyClient::new("http://upstream:8080".to_string());
    let headers = vec![
        header("accept", "image/webp"),
        header("connection", "keep-alive"),
        header("cookie", "SESSION=1"),
        header("TRANSFER-ENCODING", "chunked"),
        header("x-custom", "1"),
        header("upgrade", "websocket"),
    ];
    let kept = client.remove_hop_headers(&headers);
    assert_eq!(
        pairs(&kept),
        vec![
            ("accept".to_string(), "image/webp".to_string()),
            ("cookie".to_string(), "SESSION=1".to_string()),
            ("x-custom".to_string(), "1".to_string()),
        ]
    );
}

#[test]
fn remove_hop_headers_of_nothing_is_nothing() {
    let client = ProxyClient::new("http://upstream:8080".to_string());
    assert!(client.remove_hop_headers(&Vec::new()).is_empty());
}

#[test]
fn proxy_request_goes_to_base_url_plus_path_and_query() {
    let client = ProxyClient::new("http://upstream:8080".to_string());
    let request = Request {
        method: "GET".to_string(),
        path: "/api/v1/books/7/pages/2".to_string(),
        path_and_query: Some("/api/v1/books/7/pages/2?zero_based=true".to_string()),
        headers: vec![header("te", "trailers"), header("accept", "*/*")],
        body: vec![1, 2, 3],
    };
    let out = client.to_proxy_request(request);
    assert_eq!(out.url, "http://upstream:8080/api/v1/books/7/pages/2?zero_based=true");
    assert_eq!(out.method, "GET");
    assert_eq!(out.body, vec![1, 2, 3]);
    assert_eq!(pairs(&out.headers), vec![("accept".to_string(), "*/*".to_string())]);
}

#[test]
fn proxy_request_without_query_part_uses_the_path() {
    let client = ProxyClient::new("http://upstream:8080".to_string());
    let request = Request {
        method: "POST".to_string(),
        path: "/login".to_string(),
        path_and_query: None,
        headers: Vec::new(),
        body: Vec::new(),
    };
    let out = client.to_proxy_request(request);
    assert_eq!(out.url, "http://upstream:8080/login");
    assert_eq!(out.method, "POST");
}

#[test]
fn reply_keeps_status_and_body_and_drops_hop_headers() {
    let client = ProxyClient::new("http://upstream:8080".to_string());
    let response = Response {
        status: 404,
        headers: vec![header("keep-alive", "timeout=5"), header("content-type", "text/plain")],
        body: b"nope".to_vec(),
    };
    let reply = client.response_to_reply(response);
    assert_eq!(reply.status, 404);
    assert_eq!(reply.body, b"nope".to_vec());
    assert_eq!(pairs(&reply.headers), vec![("content-type".to_string(), "text/plain".to_string())]);
}

#[test]
fn websocket_url_is_base_plus_path_and_query() {
    let client = WebsocketProxyClient::new("ws://upstream:5000".to_string());
    assert_eq!(client.upstream_url("/hubs/messages?access_token=abc"), "ws://upstream:5000/hubs/messages?access_token=abc");
}

#[test]
fn conditional_headers_are_recognised_in_any_case() {
    assert!(is_conditional_header("If-Modified-Since"));
    assert!(is_conditional_header("if-none-match"));
    assert!(is_conditional_header("IF-NONE-MATCH"));
    assert!(!is_conditional_header("If-Match"));
    assert!(!is_conditional_header("If-Range"));
    assert!(!is_conditional_header(""));
}

#[test]
fn conditional_headers_are_stripped_for_a_path_never_upscaled() {
    let mut history = CallHistory::new(1000);
    let headers = vec![
        header("if-modified-since", "Wed, 21 Oct 2015 07:28:00 GMT"),
        header("accept", "image/*"),
        header("If-None-Match", "\"abc\""),
    ];
    let out = remove_uncached_conditional_headers(headers, &mut history, "/api/v1/books/1/pages/1");
    assert_eq!(pairs(&out), vec![("accept".to_string(), "image/*".to_string())]);
}

#[test]
fn conditional_headers_are_kept_once_the_path_was_upscaled() {
    let mut history = CallHistory::new(1000);
    history.record("/api/v1/books/1/pages/1".to_string());
    assert!(history.contains("/api/v1/books/1/pages/1"));
    assert!(!history.contains("/api/v1/books/1/pages/2"));
    let headers = vec![
        header("if-modified-since", "Wed, 21 Oct 2015 07:28:00 GMT"),
        header("accept", "image/*"),
        header("if-none-match", "\"abc\""),
    ];
    let out = remove_uncached_conditional_headers(headers, &mut history, "/api/v1/books/1/pages/1");
    assert_eq!(out.len(), 3);
    assert_eq!(out[0].name, "if-modified-since");
    assert_eq!(out[2].value, "\"abc\"");
}

#[test]
fn history_forgets_everything_on_invalidation() {
    let mut history = CallHistory::new(1000);
    history.record("/a".to_string());
    history.record("/b".to_string());
    assert!(history.contains("/a"));
    history.invalidate_all();
    assert!(!history.contains("/a"));
    assert!(!history.contains("/b"));
}

#[test]
fn upscale_request_keys_the_history_by_path_and_query() {
    let mut history = CallHistory::new(1000);
    history.record("/api/reader/image?chapterId=3&page=1".to_string());
    let known = Request {
        method: "GET".to_string(),
        path: "/api/reader/image".to_string(),
        path_and_query: Some("/api/reader/image?chapterId=3&page=1".to_string()),
        headers: vec![header("if-none-match", "x"), header("accept", "*/*")],
        body: Vec::new(),
    };
    let out = to_proxy_request(&mut history, known);
    assert_eq!(out.headers.len(), 2);
    assert_eq!(out.method, "GET");
    assert_eq!(out.path_and_query, Some("/api/reader/image?chapterId=3&page=1".to_string()));

    let unknown = Request {
        method: "GET".to_string(),
        path: "/api/reader/image".to_string(),
        path_and_query: Some("/api/reader/image?chapterId=3&page=2".to_string()),
        headers: vec![header("if-none-match", "x"), header("accept", "*/*")],
        body: vec![9],
    };
    let out = to_proxy_request(&mut history, unknown);
    assert_eq!(pairs(&out.headers), vec![("accept".to_string(), "*/*".to_string())]);
    assert_eq!(out.body, vec![9]);
    assert_eq!(out.path, "/api/reader/image");
}

#[test]
fn conditional_headers_follow_the_history_lookup() {
    let headers = || vec![header("If-None-Match", "x"), header("accept", "*/*"), header("if-modified-since", "y")];
    assert_eq!(pairs(&strip_conditional_headers(headers(), false)), vec![("accept".to_string(), "*/*".to_string())]);
    assert_eq!(pairs(&strip_conditional_headers(headers(), true)), pairs(&headers()));
    assert!(strip_conditional_headers(Vec::new(), false).is_empty());
}

#[test]
fn path_noted_last_is_remembered_whatever_the_capacity() {
    for capacity in [0u64, 1, 1000] {
        let mut history = CallHistory::new(capacity);
        assert!(!history.contains("/a"));
        history.record("/a".to_string());
        assert!(history.contains("/a"));
        history.record("/b".to_string());
        assert!(history.contains("/b"));
        history.invalidate_all();
        assert!(!history.contains("/a"));
        assert!(!history.contains("/b"));
    }
}
