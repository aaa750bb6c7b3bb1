use portaltech::agent::{forward_method, respond};
use portaltech::message::encode_body;
use portaltech::relay::{relay_response, MAX_BODY_SIZE, MAX_MESSAGE_SIZE};
use portaltech::{
    Action, App, AppState, Event, Headers, HttpReply, IncomingRequest, LocalOutcome, LocalReply,
    RawHeader, TunnelMessage, TunnelRequest, TunnelResponse,
};

fn request(method: &str, path: &str, body: Option<&str>) -> TunnelRequest {
    let mut headers = Headers::new();
    headers.insert("HOST".to_string(), "example.org".to_string());
    headers.insert("accept".to_string(), "*/*".to_string());
    TunnelRequest {
        id: "r1".to_string(),
        method: method.to_string(),
        path: path.to_string(),
        headers,
        body: body.map(|b| b.to_string()),
    }
}

fn message(method: &str, path: &str) -> Event {
    Event::Message(TunnelMessage::Request(request(method, path, None)))
}

fn answered(status: u16, body: Option<Vec<u8>>) -> LocalOutcome {
    LocalOutcome::Answered(LocalReply {
        status,
        headers: vec![
            RawHeader { name: "content-type".to_string(), value: b"text/plain".to_vec() },
            RawHeader { name: "date".to_string(), value: b"today".to_vec() },
        ],
        body,
    })
}

fn relayed(response: &TunnelResponse) -> (u16, Vec<(String, String)>, Vec<u8>) {
    match relay_response(response) {
        HttpReply::Relayed { status, headers, body } => (status, headers.pairs(), body),
        _ => panic!("not relayed"),
    }
}

#[test]
fn a_new_client_is_connecting() {
    let app = App::new(8000);
    assert_eq!(app.port, 8000);
    assert_eq!(app.status, "Connecting...");
    assert_eq!(app.public_url, "Pending...");
    assert!(app.requests.is_empty());
    assert_eq!(app.local_address(), "http://localhost:8000");
}

#[test]
fn ports_are_shown_in_decimal() {
    assert_eq!(App::new(0).local_address(), "http://localhost:0");
    assert_eq!(App::new(9).local_address(), "http://localhost:9");
    assert_eq!(App::new(10).local_address(), "http://localhost:10");
    assert_eq!(App::new(65535).local_address(), "http://localhost:65535");
}

#[test]
fn connecting_changes_the_status() {
    let mut app = App::new(1);
    app.connected();
    assert_eq!(app.status, "Connected");
    assert_eq!(app.public_url, "Pending...");
}

#[test]
fn ready_shows_the_address() {
    let mut app = App::new(1);
    let ready = TunnelMessage::Ready { url: "http://x".to_string() };
    assert!(matches!(app.step(Event::Message(ready), false), Action::Continue));
    assert_eq!(app.status, "Active");
    assert_eq!(app.public_url, "http://x");
    assert!(app.requests.is_empty());
}

#[test]
fn requests_are_listed_newest_first() {
    let mut app = App::new(1);
    app.step(message("GET", "a"), false);
    app.step(Event::Unreadable, false);
    app.step(message("we ird", ""), false);
    assert_eq!(app.requests, vec!["we ird /".to_string(), "GET /a".to_string()]);
    assert_eq!(app.port, 1);
    assert_eq!(app.status, "Connecting...");
}

#[test]
fn requests_are_forwarded() {
    let mut app = App::new(8080);
    let event = Event::Message(TunnelMessage::Request(request("POST", "a/b", Some("aGk="))));
    match app.step(event, true) {
        Action::Forward(local) => {
            assert_eq!(local.request_id, "r1");
            assert_eq!(local.method, "POST");
            assert_eq!(local.url, "http://127.0.0.1:8080/a/b");
            assert_eq!(local.headers.pairs(), vec![("accept".to_string(), "*/*".to_string())]);
            assert_eq!(local.body, Some(b"hi".to_vec()));
        }
        _ => panic!("not forwarded"),
    }
}

#[test]
fn bodies_are_forwarded_where_there_are_any() {
    let app = App::new(1);
    assert_eq!(app.local_request(request("GET", "", None)).body, None);
    assert_eq!(app.local_request(request("GET", "", Some(""))).body, Some(vec![]));
    assert_eq!(app.local_request(request("GET", "", Some("{}"))).body, Some(vec![]));
    assert_eq!(app.local_request(request("GET", "", None)).url, "http://127.0.0.1:1/");
}

#[test]
fn methods_are_kept_if_they_can_be() {
    for name in ["GET", "QUERY", "get", "PROPFIND", "X!#$%&'*+-.^_`|~9", "A-METHOD-OF-MORE-THAN-FIFTEEN"] {
        assert_eq!(forward_method(name), name);
    }
    for name in ["", "G T", "GET/", "G\u{c9}T", "(", "A-METHOD-OF-MORE-THAN-FIFTEEN:"] {
        assert_eq!(forward_method(name), "GET");
    }
}

#[test]
fn responses_unreadable_text_and_other_frames_are_ignored() {
    let mut app = App::new(1);
    let response = respond("r".to_string(), answered(200, None));
    let event = Event::Message(TunnelMessage::Response(response));
    assert!(matches!(app.step(event, false), Action::Continue));
    assert!(matches!(app.step(Event::Unreadable, false), Action::Continue));
    assert!(matches!(app.step(Event::OtherFrame, false), Action::Continue));
    assert!(matches!(app.step(Event::OtherFrame, true), Action::Continue));
    assert!(app.requests.is_empty());
}

#[test]
fn the_client_quits_at_the_end_and_on_q() {
    let mut app = App::new(1);
    assert!(matches!(app.step(Event::Ended, true), Action::Quit));
    assert!(matches!(app.step(Event::Ended, false), Action::Quit));
    assert!(matches!(app.step(Event::Key(Some('q')), false), Action::Quit));
    assert!(matches!(app.step(Event::Key(Some('Q')), false), Action::Continue));
    assert!(matches!(app.step(Event::Key(None), false), Action::Continue));
    assert!(matches!(app.step(Event::Idle, true), Action::Continue));
    assert!(matches!(app.step(Event::Idle, false), Action::Quit));
}

#[test]
fn answers_go_back() {
    let response = respond("r1".to_string(), answered(204, Some(b"hi".to_vec())));
    assert_eq!(response.request_id, "r1");
    assert_eq!(response.status, 204);
    assert_eq!(response.headers.get("date"), Some(&"today".to_string()));
    assert_eq!(response.body, Some("aGk=".to_string()));
    assert_eq!(
        relayed(&response),
        (204, vec![("content-type".to_string(), "text/plain".to_string())], b"hi".to_vec())
    );
}

#[test]
fn answers_without_body_go_back_without() {
    assert_eq!(respond("r1".to_string(), answered(200, None)).body, None);
    assert_eq!(respond("r1".to_string(), answered(200, Some(vec![]))).body, None);
}

#[test]
fn the_largest_answer_goes_back_whole() {
    let body = vec![1u8; MAX_BODY_SIZE];
    let response = respond("r1".to_string(), answered(200, Some(body.clone())));
    assert_eq!(response.status, 200);
    assert_eq!(response.body.as_ref().unwrap().len(), 6990508);
    assert!(response.body.as_ref().unwrap().len() < MAX_MESSAGE_SIZE);
    assert!(relayed(&response).2 == body);
}

#[test]
fn larger_answers_are_refused() {
    let response = respond("r1".to_string(), answered(200, Some(vec![1u8; MAX_BODY_SIZE + 1])));
    assert_eq!(response.request_id, "r1");
    assert_eq!(response.status, 413);
    assert!(response.headers.pairs().is_empty());
    let text = "{\"error\": \"Response body too large: 5242881 bytes (limit 5MB)\"}";
    assert_eq!(
        response.body.as_deref(),
        Some("eyJlcnJvciI6ICJSZXNwb25zZSBib2R5IHRvbyBsYXJnZTogNTI0Mjg4MSBieXRlcyAobGltaXQgNU1CKSJ9")
    );
    assert_eq!(response.get_body_bytes(), text.as_bytes());
    assert_eq!(relayed(&response), (413, vec![], text.as_bytes().to_vec()));
}

#[test]
fn failures_are_reported() {
    let response = respond("r1".to_string(), LocalOutcome::Failed("refused".to_string()));
    assert_eq!(response.request_id, "r1");
    assert_eq!(response.status, 502);
    assert!(response.headers.pairs().is_empty());
    let text = "{\"error\": \"Local server unreachable: refused\"}";
    assert_eq!(response.body, encode_body(text.as_bytes()));
    assert_eq!(response.get_body_bytes(), text.as_bytes());
    assert_eq!(relayed(&response), (502, vec![], text.as_bytes().to_vec()));
}

#[test]
fn reasons_need_not_be_ascii() {
    let response = respond("r1".to_string(), LocalOutcome::Failed("h\u{e9} \u{1f980}".to_string()));
    let text = "{\"error\": \"Local server unreachable: h\u{e9} \u{1f980}\"}";
    assert_eq!(response.get_body_bytes(), text.as_bytes());
}

#[test]
fn a_request_goes_all_the_way_and_back() {
    let mut state: AppState<u8, &'static str> = AppState::new();
    let (client_id, ready) = state.connect(1);
    let mut app = App::new(3000);
    app.step(Event::Message(ready), true);
    assert_eq!(app.public_url, format!("http://localhost:3000/tunnel/{}", client_id));

    let incoming = IncomingRequest {
        client_id: Some(client_id),
        path: Some("x?".to_string()),
        method: "PUT".to_string(),
        headers: vec![
            RawHeader { name: "host".to_string(), value: b"public".to_vec() },
            RawHeader { name: "cookie".to_string(), value: b"a=1".to_vec() },
        ],
        body: vec![0, 1, 2, 255],
    };
    let opened = state.open(incoming, "caller").ok().unwrap();
    let local = match app.step(Event::Message(opened.message), true) {
        Action::Forward(local) => local,
        _ => panic!("not forwarded"),
    };
    assert_eq!(local.method, "PUT");
    assert_eq!(local.url, "http://127.0.0.1:3000/x?");
    assert_eq!(local.headers.pairs(), vec![("cookie".to_string(), "a=1".to_string())]);
    assert_eq!(local.body, Some(vec![0, 1, 2, 255]));

    let response = respond(local.request_id, answered(200, Some(vec![255, 0])));
    let (caller, response) = state.resolve(TunnelMessage::Response(response)).unwrap();
    assert_eq!(caller, "caller");
    match state.settle(&opened.request_id, Some(response)) {
        HttpReply::Relayed { status, body, .. } => {
            assert_eq!(status, 200);
            assert_eq!(body, vec![255, 0]);
        }
        _ => panic!("not relayed"),
    }
}

#[test]
fn cloned_messages_say_the_same() {
    let request = request("GET", "a", encode_body(b"x").as_deref());
    let copy = request.clone();
    assert_eq!(copy.id, request.id);
    assert_eq!(copy.method, request.method);
    assert_eq!(copy.path, request.path);
    assert_eq!(copy.headers.pairs(), request.headers.pairs());
    assert_eq!(copy.body, request.body);
    match (TunnelMessage::Ready { url: "u".to_string() }).clone() {
        TunnelMessage::Ready { url } => assert_eq!(url, "u"),
        _ => panic!("not ready"),
    }
}
