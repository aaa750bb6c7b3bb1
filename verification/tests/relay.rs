use portaltech::ident::{new_client_id, new_request_id};
use portaltech::relay::{
    auth_header_name, auth_value, authorize, get_auth_token, not_found_text, relay_response,
    MAX_BODY_SIZE, MAX_MESSAGE_SIZE, RESPONSE_TIMEOUT_SECS,
};
use portaltech::{
    AppState, Headers, HttpReply, IncomingRequest, RawHeader, SocketEvent, SocketStep,
    TunnelMessage, TunnelResponse,
};

type State = AppState<u32, &'static str>;

fn incoming(client_id: &str, body: &[u8]) -> IncomingRequest {
    IncomingRequest {
        client_id: Some(client_id.to_string()),
        path: Some("a/b".to_string()),
        method: "POST".to_string(),
        headers: vec![
            RawHeader { name: "Host".to_string(), value: b"localhost".to_vec() },
            RawHeader { name: "accept".to_string(), value: b"*/*".to_vec() },
        ],
        body: body.to_vec(),
    }
}

fn response(request_id: &str) -> TunnelResponse {
    let mut headers = Headers::new();
    headers.insert("Content-Type".to_string(), "text/plain".to_string());
    headers.insert("Server".to_string(), "local".to_string());
    TunnelResponse {
        request_id: request_id.to_string(),
        status: 201,
        headers,
        body: Some("aGk=".to_string()),
    }
}

fn is_timeout(reply: &HttpReply) -> bool {
    matches!(reply, HttpReply::Plain { status: 504, text } if text == "Gateway Timeout")
}

fn refusal(state: &mut State, client_id: &str) -> String {
    match state.open_as("r".to_string(), incoming(client_id, b""), "caller") {
        Err(HttpReply::Plain { status: 404, text }) => text,
        _ => panic!("not refused"),
    }
}

#[test]
fn token_is_the_configured_one_or_the_default() {
    assert_eq!(get_auth_token(None), "portal-secret-123");
    assert_eq!(get_auth_token(Some("t".to_string())), "t");
    assert_eq!(get_auth_token(Some("".to_string())), "");
}

#[test]
fn clients_with_the_token_are_let_in() {
    assert!(authorize(Some(b"portal-secret-123"), &get_auth_token(None)).is_ok());
    assert!(authorize(Some(b"t"), "t").is_ok());
    assert!(authorize(Some(b""), "").is_ok());
}

#[test]
fn clients_without_the_token_are_refused() {
    let shown: Vec<Option<&[u8]>> =
        vec![None, Some(b"T"), Some(b"t "), Some(b""), Some(b"tt"), Some(b"t\xff")];
    for header in shown {
        match authorize(header, "t") {
            Err(HttpReply::Plain { status, text }) => {
                assert_eq!(status, 401);
                assert_eq!(text, "Unauthorized");
            }
            _ => panic!("let in"),
        }
    }
    assert!(authorize(None, "").is_err());
    assert!(authorize(Some("\u{e9}".as_bytes()), "\u{e9}").is_err());
}

#[test]
fn limits_are_five_and_ten_megabytes() {
    assert_eq!(MAX_BODY_SIZE, 5242880);
    assert_eq!(MAX_MESSAGE_SIZE, 10485760);
    assert_eq!(RESPONSE_TIMEOUT_SECS, 10);
}

#[test]
fn identifiers_have_their_lengths_and_letters() {
    for _ in 0..50 {
        let client = new_client_id();
        let request = new_request_id();
        assert_eq!(client.len(), 8);
        assert_eq!(request.len(), 21);
        for c in client.chars().chain(request.chars()) {
            assert!(c.is_ascii_alphanumeric() || c == '_' || c == '-');
        }
    }
}

#[test]
fn connecting_announces_the_address() {
    let mut state: State = AppState::new();
    match state.connect_as("abc".to_string(), 1) {
        TunnelMessage::Ready { url } => assert_eq!(url, "http://localhost:3000/tunnel/abc"),
        _ => panic!("not ready"),
    }
    let (id, message) = state.connect(2);
    assert_eq!(id.len(), 8);
    match message {
        TunnelMessage::Ready { url } => {
            assert_eq!(url, format!("http://localhost:3000/tunnel/{}", id))
        }
        _ => panic!("not ready"),
    }
    let opened = state.open(incoming(&id, b""), "caller").ok().unwrap();
    assert_eq!(opened.client, 2);
}

#[test]
fn opening_tells_the_client_of_the_request() {
    let mut state: State = AppState::default();
    state.connect_as("abc".to_string(), 7);
    let opened = state.open_as("r1".to_string(), incoming("abc", b"hello"), "caller").ok().unwrap();
    assert_eq!(opened.request_id, "r1");
    assert_eq!(opened.client, 7);
    match opened.message {
        TunnelMessage::Request(request) => {
            assert_eq!(request.id, "r1");
            assert_eq!(request.method, "POST");
            assert_eq!(request.path, "a/b");
            assert_eq!(request.headers.pairs(), vec![("accept".to_string(), "*/*".to_string())]);
            assert_eq!(request.body, Some("aGVsbG8=".to_string()));
            assert_eq!(request.get_body_bytes(), b"hello");
        }
        _ => panic!("no request"),
    }
}

#[test]
fn empty_bodies_and_paths_are_left_out() {
    let mut state: State = AppState::new();
    state.connect_as("".to_string(), 7);
    let request = IncomingRequest {
        client_id: None,
        path: None,
        method: "GET".to_string(),
        headers: vec![],
        body: vec![],
    };
    let opened = state.open(request, "caller").ok().unwrap();
    assert_eq!(opened.request_id.len(), 21);
    match opened.message {
        TunnelMessage::Request(request) => {
            assert_eq!(request.id, opened.request_id);
            assert_eq!(request.path, "");
            assert_eq!(request.body, None);
            assert!(request.headers.pairs().is_empty());
        }
        _ => panic!("no request"),
    }
}

#[test]
fn unknown_clients_are_refused() {
    let mut state: State = AppState::new();
    assert_eq!(refusal(&mut state, "zzz"), "Tunnel not found for ID: zzz. Active: []");
    state.connect_as("abc".to_string(), 1);
    assert_eq!(refusal(&mut state, "zzz"), "Tunnel not found for ID: zzz. Active: [\"abc\"]");
    assert_eq!(refusal(&mut state, "ABC"), "Tunnel not found for ID: ABC. Active: [\"abc\"]");
    state.connect_as("x_-9".to_string(), 2);
    let text = refusal(&mut state, "zzz");
    assert!(
        text == "Tunnel not found for ID: zzz. Active: [\"abc\", \"x_-9\"]"
            || text == "Tunnel not found for ID: zzz. Active: [\"x_-9\", \"abc\"]"
    );
    // A refused request waits for nothing.
    assert!(state.resolve(TunnelMessage::Response(response("r"))).is_none());
}

#[test]
fn identifiers_are_escaped_in_refusals() {
    let mut state: State = AppState::new();
    state.connect_as("a\"\n".to_string(), 1);
    assert_eq!(refusal(&mut state, "b"), "Tunnel not found for ID: b. Active: [\"a\\\"\\n\"]");
    state.connect_as("c".to_string(), 2);
    let text = refusal(&mut state, "b");
    assert!(
        text == "Tunnel not found for ID: b. Active: [\"a\\\"\\n\", \"c\"]"
            || text == "Tunnel not found for ID: b. Active: [\"c\", \"a\\\"\\n\"]"
    );
}

#[test]
fn refusals_name_the_client_and_the_active_ones() {
    assert_eq!(not_found_text("a", "[]"), "Tunnel not found for ID: a. Active: []");
    assert_eq!(not_found_text("", "x"), "Tunnel not found for ID: . Active: x");
}

#[test]
fn disconnecting_undoes_connecting() {
    let mut state: State = AppState::new();
    state.connect_as("abc".to_string(), 1);
    state.connect_as("def".to_string(), 2);
    state.disconnect("abc");
    assert_eq!(refusal(&mut state, "abc"), "Tunnel not found for ID: abc. Active: [\"def\"]");
    assert_eq!(state.open(incoming("def", b""), "caller").ok().unwrap().client, 2);
    state.disconnect("nobody");
    assert_eq!(refusal(&mut state, "abc"), "Tunnel not found for ID: abc. Active: [\"def\"]");
}

#[test]
fn reconnecting_replaces_the_client() {
    let mut state: State = AppState::new();
    state.connect_as("abc".to_string(), 1);
    state.connect_as("abc".to_string(), 2);
    assert_eq!(state.open(incoming("abc", b""), "caller").ok().unwrap().client, 2);
    state.disconnect("abc");
    assert_eq!(refusal(&mut state, "abc"), "Tunnel not found for ID: abc. Active: []");
}

#[test]
fn responses_find_their_callers_once() {
    let mut state: State = AppState::new();
    state.connect_as("abc".to_string(), 1);
    let _ = state.open_as("r1".to_string(), incoming("abc", b""), "first");
    let _ = state.open_as("r2".to_string(), incoming("abc", b""), "second");
    let (caller, res) = state.resolve(TunnelMessage::Response(response("r1"))).unwrap();
    assert_eq!(caller, "first");
    assert_eq!(res.request_id, "r1");
    assert_eq!(res.status, 201);
    assert!(state.resolve(TunnelMessage::Response(response("r1"))).is_none());
    let (caller, _) = state.resolve(TunnelMessage::Response(response("r2"))).unwrap();
    assert_eq!(caller, "second");
}

#[test]
fn requests_outlive_their_client() {
    let mut state: State = AppState::new();
    state.connect_as("abc".to_string(), 1);
    let _ = state.open_as("r1".to_string(), incoming("abc", b""), "first");
    state.disconnect("abc");
    assert!(state.resolve(TunnelMessage::Response(response("r1"))).is_some());
}

#[test]
fn other_messages_resolve_nothing() {
    let mut state: State = AppState::new();
    state.connect_as("abc".to_string(), 1);
    let opened = state.open_as("r1".to_string(), incoming("abc", b""), "first").ok().unwrap();
    assert!(state.resolve(opened.message).is_none());
    assert!(state.resolve(TunnelMessage::Ready { url: "r1".to_string() }).is_none());
    assert!(state.resolve(TunnelMessage::Response(response("r3"))).is_none());
    assert!(state.resolve(TunnelMessage::Response(response("r1"))).is_some());
}

#[test]
fn late_responses_are_dropped() {
    let mut state: State = AppState::new();
    state.connect_as("abc".to_string(), 1);
    let _ = state.open_as("r1".to_string(), incoming("abc", b""), "first");
    let _ = state.open_as("r2".to_string(), incoming("abc", b""), "second");
    assert!(is_timeout(&state.settle("r1", None)));
    assert!(state.resolve(TunnelMessage::Response(response("r1"))).is_none());
    assert!(state.resolve(TunnelMessage::Response(response("r2"))).is_some());
}

#[test]
fn settled_responses_are_relayed() {
    let mut state: State = AppState::new();
    state.connect_as("abc".to_string(), 1);
    let _ = state.open_as("r1".to_string(), incoming("abc", b""), "first");
    match state.settle("r1", Some(response("r1"))) {
        HttpReply::Relayed { status, headers, body } => {
            assert_eq!(status, 201);
            assert_eq!(
                headers.pairs(),
                vec![("Content-Type".to_string(), "text/plain".to_string())]
            );
            assert_eq!(body, b"hi");
        }
        _ => panic!("not relayed"),
    }
    // Only a timeout takes the request out.
    assert!(state.resolve(TunnelMessage::Response(response("r1"))).is_some());
}

#[test]
fn responses_without_base64_are_relayed_without_body() {
    let mut res = response("r1");
    res.body = Some("{\"error\": \"x\"}".to_string());
    match relay_response(&res) {
        HttpReply::Relayed { status, body, .. } => {
            assert_eq!(status, 201);
            assert!(body.is_empty());
        }
        _ => panic!("not relayed"),
    }
}

#[test]
fn a_connection_lasts_until_its_end() {
    let mut state: State = AppState::new();
    state.connect_as("other".to_string(), 2);
    state.connect_as("abc".to_string(), 1);
    let _ = state.open_as("r1".to_string(), incoming("abc", b""), "first");
    let _ = state.open_as("r2".to_string(), incoming("abc", b""), "second");

    assert!(matches!(state.receive("abc", SocketEvent::Ignored), SocketStep::Continue));
    let ready = TunnelMessage::Ready { url: "r1".to_string() };
    assert!(matches!(state.receive("abc", SocketEvent::Message(ready)), SocketStep::Continue));
    let stray = TunnelMessage::Response(response("r9"));
    assert!(matches!(state.receive("abc", SocketEvent::Message(stray)), SocketStep::Continue));
    match state.receive("abc", SocketEvent::Message(TunnelMessage::Response(response("r1")))) {
        SocketStep::Deliver { reply_to, response } => {
            assert_eq!(reply_to, "first");
            assert_eq!(response.request_id, "r1");
        }
        _ => panic!("not delivered"),
    }
    let again = TunnelMessage::Response(response("r1"));
    assert!(matches!(state.receive("abc", SocketEvent::Message(again)), SocketStep::Continue));
    assert!(matches!(state.receive("abc", SocketEvent::Ended), SocketStep::Stop));

    assert_eq!(refusal(&mut state, "abc"), "Tunnel not found for ID: abc. Active: [\"other\"]");
    assert!(state.resolve(TunnelMessage::Response(response("r1"))).is_none());
    assert!(state.resolve(TunnelMessage::Response(response("r2"))).is_some());
}

fn raw(name: &str, value: &[u8]) -> RawHeader {
    RawHeader { name: name.to_string(), value: value.to_vec() }
}

#[test]
fn the_first_token_header_counts() {
    assert_eq!(auth_header_name(), "X-Portal-Auth");
    let none: Option<&[u8]> = None;
    assert_eq!(auth_value(&vec![]), none);
    assert_eq!(auth_value(&vec![raw("authorization", b"t"), raw("x-portal-auth2", b"t")]), none);
    let headers = vec![raw("host", b"h"), raw("x-Portal-AUTH", b"one"), raw("x-portal-auth", b"two")];
    assert_eq!(auth_value(&headers), Some(&b"one"[..]));
    assert!(authorize(auth_value(&headers), "one").is_ok());
    assert!(authorize(auth_value(&headers), "two").is_err());
    let sent = vec![raw(auth_header_name(), b"t")];
    assert!(authorize(auth_value(&sent), "t").is_ok());
}

#[test]
fn a_connection_under_a_taken_identifier_ends_the_same_way() {
    let mut state: State = AppState::new();
    state.connect_as("abc".to_string(), 1);
    state.connect_as("abc".to_string(), 2);
    let _ = state.open_as("r1".to_string(), incoming("abc", b""), "first");
    let _ = state.open_as("r2".to_string(), incoming("abc", b""), "second");
    state.receive("abc", SocketEvent::Message(TunnelMessage::Response(response("r2"))));
    state.receive("abc", SocketEvent::Ended);
    assert_eq!(refusal(&mut state, "abc"), "Tunnel not found for ID: abc. Active: []");
    assert!(state.resolve(TunnelMessage::Response(response("r2"))).is_none());
    assert!(state.resolve(TunnelMessage::Response(response("r1"))).is_some());
}
