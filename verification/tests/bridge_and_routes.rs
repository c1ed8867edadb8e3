use pages_rs::bridge::{header_value_text, Request, RequestError, Response};
use pages_rs::pipe::{AcceptAction, PipeListener, RETRY_DELAY_MILLIS};
use pages_rs::routes::{greeting_routes, server_address};

fn request(method: &str, url: &str, headers: &[(&str, &str)], body: Option<Vec<u8>>) -> Request {
    Request {
        method: method.to_string(),
        url: url.to_string(),
        headers: headers.iter().map(|(k, v)| (k.to_string(), v.to_string())).collect(),
        body,
    }
}

#[test]
fn http_builds_the_request() {
    let req = request("POST", "/api/hello?x=1", &[("Content-Type", "text/plain"), ("x-a", "1")], Some(b"hi".to_vec()));
    assert_eq!(req.validate(), Ok(()));
    let built = req.http();
    assert_eq!(built.head.method, b"POST".to_vec());
    assert_eq!(built.head.uri, b"/api/hello?x=1".to_vec());
    assert_eq!(
        built.head.headers,
        vec![
            (b"Content-Type".to_vec(), b"text/plain".to_vec()),
            (b"x-a".to_vec(), b"1".to_vec()),
        ]
    );
    assert_eq!(built.body, b"hi".to_vec());
}

#[test]
fn http_without_body_sends_an_empty_one() {
    let built = request("GET", "/api/abc", &[], None).http();
    assert_eq!(built.head.method, b"GET".to_vec());
    assert!(built.head.headers.is_empty());
    assert!(built.body.is_empty());
}

#[test]
fn http_keeps_repeated_header_names() {
    let built = request("GET", "/", &[("x-a", "1"), ("X-A", "2")], None).checked_http().unwrap();
    assert_eq!(
        built.head.headers,
        vec![(b"x-a".to_vec(), b"1".to_vec()), (b"X-A".to_vec(), b"2".to_vec())]
    );
}

#[test]
fn http_accepts_extension_methods() {
    let built = request("PURGE", "http://example.com/a", &[], None).checked_http().unwrap();
    assert_eq!(built.head.method, b"PURGE".to_vec());
    assert_eq!(built.head.uri, b"http://example.com/a".to_vec());
}

#[test]
fn http_keeps_non_ascii_header_values_as_utf8() {
    let built = request("GET", "/cafe", &[("x-name", "caf\u{e9}")], None).checked_http().unwrap();
    assert_eq!(built.head.uri, b"/cafe".to_vec());
    assert_eq!(built.head.headers, vec![(b"x-name".to_vec(), "caf\u{e9}".as_bytes().to_vec())]);
}

#[test]
fn http_rejects_an_invalid_method_first() {
    assert_eq!(request("GE T", "/", &[], None).checked_http().unwrap_err(), RequestError::InvalidMethod);
    assert_eq!(request("", "/", &[], None).validate(), Err(RequestError::InvalidMethod));
    assert_eq!(request("GET\n", "not a uri", &[("bad name", "v")], None).checked_http().unwrap_err(), RequestError::InvalidMethod);
}

#[test]
fn http_rejects_an_invalid_url() {
    assert_eq!(request("GET", "not a uri", &[], None).checked_http().unwrap_err(), RequestError::InvalidUri);
    assert_eq!(request("GET", "", &[], None).validate(), Err(RequestError::InvalidUri));
}

#[test]
fn http_reports_the_first_invalid_header() {
    let err = request("GET", "/", &[("ok", "v"), ("bad name", "v"), ("also", "\u{1}")], None).checked_http().unwrap_err();
    assert_eq!(err, RequestError::InvalidHeaderName(1));
    let err = request("GET", "/", &[("ok", "v"), ("also", "bad\nvalue"), ("bad name", "v")], None).checked_http().unwrap_err();
    assert_eq!(err, RequestError::InvalidHeaderValue(1));
    let err = request("GET", "/", &[("", "v")], None).validate().unwrap_err();
    assert_eq!(err, RequestError::InvalidHeaderName(0));
}

#[test]
fn header_value_text_keeps_visible_ascii_only() {
    assert_eq!(header_value_text(b"text/plain; charset=utf-8"), "text/plain; charset=utf-8");
    assert_eq!(header_value_text(b"a\tb"), "a\tb");
    assert_eq!(header_value_text(b""), "");
    assert_eq!(header_value_text("caf\u{e9}".as_bytes()), "");
    assert_eq!(header_value_text(b"a\x7fb"), "");
}

#[test]
fn from_parts_keeps_the_last_value_of_each_name() {
    let headers = vec![
        ("content-type".to_string(), b"text/plain".to_vec()),
        ("set-cookie".to_string(), b"a=1".to_vec()),
        ("set-cookie".to_string(), b"b=2".to_vec()),
        ("x-raw".to_string(), vec![0xff, 0x41]),
    ];
    let res = Response::from_parts(200, headers, Some(b"Hello, abc!".to_vec()));
    assert_eq!(res.status, 200);
    assert_eq!(res.body, Some(b"Hello, abc!".to_vec()));
    assert_eq!(
        res.headers,
        vec![
            ("content-type".to_string(), "text/plain".to_string()),
            ("set-cookie".to_string(), "b=2".to_string()),
            ("x-raw".to_string(), String::new()),
        ]
    );
}

#[test]
fn from_parts_passes_a_failed_body_on() {
    let res = Response::from_parts(404, Vec::new(), None);
    assert_eq!(res.status, 404);
    assert!(res.headers.is_empty());
    assert!(res.body.is_none());
}

#[test]
fn greeting_routes_are_registered_in_order() {
    let routes = greeting_routes();
    let pairs: Vec<(String, String)> = routes.into_iter().map(|r| (r.path, r.body)).collect();
    assert_eq!(
        pairs,
        vec![
            ("/api/abc".to_string(), "Hello, abc!".to_string()),
            ("/api/efg".to_string(), "Hello, efg!".to_string()),
            ("/api/hello".to_string(), "Hello, world!".to_string()),
        ]
    );
    let addr = server_address();
    assert_eq!((addr.ip, addr.port), (0, 9000));
}

#[test]
fn pipe_listener_tracks_the_first_instance() {
    let mut listener = PipeListener::bind(r"\\.\pipe\pages-1".to_string());
    assert!(listener.first_pipe_instance());
    assert_eq!(listener.path(), r"\\.\pipe\pages-1");
    listener.instance_created();
    assert!(!listener.first_pipe_instance());
    listener.instance_created();
    assert!(!listener.first_pipe_instance());
    assert_eq!(listener.local_addr(), r"\\.\pipe\pages-1");
}

#[test]
fn pipe_accept_retries_until_connected() {
    let listener = PipeListener::bind("p".to_string());
    assert!(matches!(listener.accept_outcome(false), AcceptAction::RetryAfter { millis: 1000 }));
    assert_eq!(RETRY_DELAY_MILLIS, 1000);
    assert!(matches!(listener.accept_outcome(true), AcceptAction::Deliver(p) if p == "p"));
}

#[test]
fn pipe_accept_loop_returns_at_the_first_connection() {
    let listener = PipeListener::bind(r"\\.\pipe\x".to_string());
    let attempts = [false, false, true, false];
    let mut waited: u64 = 0;
    let mut delivered = None;
    for (i, connected) in attempts.iter().enumerate() {
        match listener.accept_outcome(*connected) {
            AcceptAction::RetryAfter { millis } => waited += millis,
            AcceptAction::Deliver(addr) => {
                delivered = Some((i, addr));
                break;
            }
        }
    }
    assert_eq!(delivered, Some((2, r"\\.\pipe\x".to_string())));
    assert_eq!(waited, 2000);
    let never: Vec<bool> = vec![false; 5];
    assert!(never.iter().all(|c| matches!(listener.accept_outcome(*c), AcceptAction::RetryAfter { millis: 1000 })));
}

#[test]
fn pipe_listener_keeps_its_path_over_many_calls() {
    let mut listener = PipeListener::bind(r"\\.\pipe\y".to_string());
    for _ in 0..3 {
        assert!(listener.first_pipe_instance());
        assert!(matches!(listener.accept_outcome(false), AcceptAction::RetryAfter { .. }));
        assert_eq!(listener.local_addr(), r"\\.\pipe\y");
    }
    listener.instance_created();
    for _ in 0..3 {
        assert!(!listener.first_pipe_instance());
        assert_eq!(listener.path(), r"\\.\pipe\y");
        assert_eq!(listener.local_addr(), r"\\.\pipe\y");
        listener.instance_created();
    }
}
