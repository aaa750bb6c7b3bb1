use portaltech::headers::{
    header_text, is_blocked_request_name, is_blocked_response_name, is_host_header,
};
use portaltech::{is_safe_request_header, is_safe_response_header, Headers, RawHeader};

fn raw(name: &str, value: &[u8]) -> RawHeader {
    RawHeader { name: name.to_string(), value: value.to_vec() }
}

fn sorted(headers: &Headers) -> Vec<(String, String)> {
    let mut pairs = headers.pairs();
    pairs.sort();
    pairs
}

fn pair(name: &str, value: &str) -> (String, String) {
    (name.to_string(), value.to_string())
}

#[test]
fn request_headers_are_blocked_in_any_case() {
    for name in [
        "host", "x-portal-auth", "connection", "upgrade", "proxy-connection", "proxy-authorization",
        "Host", "HOST", "X-Portal-Auth", "Connection", "UPGRADE", "Proxy-Connection",
        "Proxy-Authorization",
    ] {
        assert!(!is_safe_request_header(name), "{}", name);
    }
}

#[test]
fn other_request_headers_are_safe() {
    for name in ["accept", "content-length", "Cookie", "authorization", "hosts", "", "h\u{f6}st", "server"] {
        assert!(is_safe_request_header(name), "{}", name);
    }
}

#[test]
fn response_headers_are_blocked_in_any_case() {
    for name in [
        "connection", "upgrade", "content-length", "transfer-encoding", "server", "date",
        "Connection", "Upgrade", "Content-Length", "TRANSFER-ENCODING", "Server", "Date",
    ] {
        assert!(!is_safe_response_header(name), "{}", name);
    }
}

#[test]
fn other_response_headers_are_safe() {
    for name in ["content-type", "Set-Cookie", "host", "x-portal-auth", "dates", "DAT\u{c9}"] {
        assert!(is_safe_response_header(name), "{}", name);
    }
}

#[test]
fn blocked_names_are_lower_case() {
    assert!(is_blocked_request_name("host"));
    assert!(!is_blocked_request_name("Host"));
    assert!(is_blocked_response_name("date"));
    assert!(!is_blocked_response_name("Date"));
}

#[test]
fn host_header_is_known_in_any_case() {
    assert!(is_host_header("host"));
    assert!(is_host_header("HoSt"));
    assert!(!is_host_header("hostname"));
}

#[test]
fn header_values_become_text() {
    assert_eq!(header_text(b"text/html; q=1\t~ !"), "text/html; q=1\t~ !");
    assert_eq!(header_text(b""), "");
    assert_eq!(header_text(b"caf\xe9"), "");
    assert_eq!(header_text(b"a\x7f"), "");
    assert_eq!(header_text(b"a\nb"), "");
}

#[test]
fn requests_keep_safe_headers_with_their_last_value() {
    let headers = Headers::for_request(&vec![
        raw("accept", b"text/html"),
        raw("host", b"example.org"),
        raw("cookie", b"a=1"),
        raw("X-Portal-Auth", b"secret"),
        raw("cookie", b"b=2"),
        raw("x-raw", b"\xff"),
    ]);
    assert_eq!(
        sorted(&headers),
        vec![pair("accept", "text/html"), pair("cookie", "b=2"), pair("x-raw", "")]
    );
}

#[test]
fn responses_keep_all_headers_with_their_last_value() {
    let headers = Headers::for_response(&vec![
        raw("date", b"today"),
        raw("set-cookie", b"a=1"),
        raw("set-cookie", b"b=2"),
    ]);
    assert_eq!(sorted(&headers), vec![pair("date", "today"), pair("set-cookie", "b=2")]);
}

#[test]
fn forwarding_drops_the_host_header_only() {
    let mut headers = Headers::new();
    headers.insert("Host".to_string(), "a".to_string());
    headers.insert("Connection".to_string(), "b".to_string());
    assert_eq!(sorted(&headers.forwarded()), vec![pair("Connection", "b")]);
}

#[test]
fn forwarding_keeps_what_the_relay_let_through() {
    let headers = Headers::for_request(&vec![raw("Host", b"x"), raw("a", b"1"), raw("b", b"2")]);
    assert_eq!(sorted(&headers.forwarded()), sorted(&headers));
}

#[test]
fn relaying_drops_unsafe_headers() {
    let mut headers = Headers::new();
    headers.insert("Content-Type".to_string(), "text/plain".to_string());
    headers.insert("Content-Length".to_string(), "9".to_string());
    headers.insert("date".to_string(), "today".to_string());
    assert_eq!(sorted(&headers.relayed()), vec![pair("Content-Type", "text/plain")]);
}

#[test]
fn inserting_replaces_the_value() {
    let mut headers = Headers::new();
    headers.insert("a".to_string(), "1".to_string());
    headers.insert("b".to_string(), "2".to_string());
    headers.insert("a".to_string(), "3".to_string());
    assert_eq!(headers.get("a"), Some(&"3".to_string()));
    assert_eq!(headers.get("A"), None);
    assert_eq!(sorted(&headers), vec![pair("a", "3"), pair("b", "2")]);
    assert_eq!(sorted(&headers.clone()), sorted(&headers));
}

#[test]
fn connection_and_upgrade_are_blocked_both_ways() {
    for name in [
        "host", "x-portal-auth", "connection", "upgrade", "proxy-connection", "proxy-authorization",
        "content-length", "transfer-encoding", "server", "date", "accept",
    ] {
        let both = !is_safe_request_header(name) && !is_safe_response_header(name);
        assert_eq!(both, name == "connection" || name == "upgrade", "{}", name);
    }
}
