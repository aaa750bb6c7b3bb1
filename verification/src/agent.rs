//! The client: what it shows, what it asks of the local server, and what it tells the relay.

use vstd::prelude::*;
use vstd::utf8::*;

use crate::base64_text::base64_len;
use crate::headers::{answered_headers, forwarded_headers, raw_views, Headers, RawHeader};
use crate::message::{
    body_bytes, encode_body, encoded_body, text_opt, TunnelMessage, TunnelMessageView,
    TunnelRequest, TunnelRequestView, TunnelResponse, TunnelResponseView,
};
use crate::relay::MAX_BODY_SIZE;
use crate::text::{decimal, decimal_text, lemma_decimal, texts};

verus! {

/// `http::method::InvalidMethod`, the error for text that is not a request method. Nothing is
/// claimed of it.
#[verifier::external_type_specification]
#[verifier::external_body]
pub struct ExInvalidMethod(http::method::InvalidMethod);

/// A character that a request method may hold.
pub open spec fn is_method_char(c: char) -> bool {
    ||| 'A' <= c <= 'Z'
    ||| 'a' <= c <= 'z'
    ||| '0' <= c <= '9'
    ||| c == '!' || c == '#' || c == '$' || c == '%' || c == '&' || c == '\'' || c == '*'
    ||| c == '+' || c == '-' || c == '.' || c == '^' || c == '_' || c == '`' || c == '|' || c == '~'
}

/// Text that is a request method (RFC 9110, section 9.1).
pub open spec fn is_method(name: Seq<char>) -> bool {
    &&& name.len() > 0
    &&& forall|i: int| 0 <= i < name.len() ==> is_method_char(#[trigger] name[i])
}

/// `http::Method::from_bytes`, then `http::Method::as_str`. The contract says that every text that
/// is a request method comes back as it is, and that any other text is an error.
#[verifier::external_body]
fn parse_method(name: &str) -> (method: Result<String, http::method::InvalidMethod>)
    ensures
        match method {
            Ok(m) => is_method(name@) && m@ == name@,
            Err(_) => !is_method(name@),
        },
{
    match http::Method::from_bytes(name.as_bytes()) {
        Ok(method) => Ok(method.as_str().to_owned()),
        Err(error) => Err(error),
    }
}

/// The method for the local server: the one that was asked for, or `GET` if that is none.
pub open spec fn forwarded_method(name: Seq<char>) -> Seq<char> {
    if is_method(name) {
        name
    } else {
        "GET"@
    }
}

/// The method for the local server: the one that was asked for, or `GET` if that is none.
pub fn forward_method(name: &str) -> (method: String)
    ensures
        method@ == forwarded_method(name@),
{
    match parse_method(name) {
        Ok(method) => method,
        Err(_) => "GET".to_owned(),
    }
}

/// The address of the local server, as it is shown.
pub open spec fn local_address(port: u16) -> Seq<char> {
    "http://localhost:"@ + decimal(port as nat)
}

/// The address of a path of the local server.
pub open spec fn local_url(port: u16, path: Seq<char>) -> Seq<char> {
    "http://127.0.0.1:"@ + decimal(port as nat) + "/"@ + path
}

/// The line of the traffic list for a request.
pub open spec fn traffic_line(method: Seq<char>, path: Seq<char>) -> Seq<char> {
    method + " /"@ + path
}

/// A request for the local server.
#[derive(Debug)]
pub struct LocalRequest {
    /// The identifier of the tunnelled request.
    pub request_id: String,
    pub method: String,
    pub url: String,
    pub headers: Headers,
    pub body: Option<Vec<u8>>,
}

/// What a [`LocalRequest`] says.
pub struct LocalRequestView {
    pub request_id: Seq<char>,
    pub method: Seq<char>,
    pub url: Seq<char>,
    pub headers: Map<Seq<char>, Seq<char>>,
    pub body: Option<Seq<u8>>,
}

impl View for LocalRequest {
    type V = LocalRequestView;

    open spec fn view(&self) -> LocalRequestView {
        LocalRequestView {
            request_id: self.request_id@,
            method: self.method@,
            url: self.url@,
            headers: self.headers@,
            body: (match self.body {
                Some(bytes) => Some(bytes@),
                None => None,
            }),
        }
    }
}

/// What the local server is asked for a tunnelled request.
pub open spec fn local_request(port: u16, request: TunnelRequestView) -> LocalRequestView {
    LocalRequestView {
        request_id: request.id,
        method: forwarded_method(request.method),
        url: local_url(port, request.path),
        headers: forwarded_headers(request.headers),
        body: (match request.body {
            Some(_) => Some(body_bytes(request.body)),
            None => None,
        }),
    }
}

/// What the client shows.
#[derive(Debug)]
pub struct App {
    pub port: u16,
    pub status: String,
    pub public_url: String,
    /// The traffic list, newest first.
    pub requests: Vec<String>,
}

/// What an [`App`] shows.
#[verifier::ext_equal]
pub struct AppView {
    pub port: u16,
    pub status: Seq<char>,
    pub public_url: Seq<char>,
    pub requests: Seq<Seq<char>>,
}

impl View for App {
    type V = AppView;

    open spec fn view(&self) -> AppView {
        AppView {
            port: self.port,
            status: self.status@,
            public_url: self.public_url@,
            requests: texts(self.requests@),
        }
    }
}

/// What can happen to a client.
#[derive(Debug)]
pub enum Event {
    /// A message from the relay.
    Message(TunnelMessage),
    /// Text from the relay that is no message.
    Unreadable,
    /// A frame from the relay that is not text.
    OtherFrame,
    /// The end of what the relay sends, or an error.
    Ended,
    /// A key was pressed, with its character if it has one, or no key was pressed for a while.
    Key(Option<char>),
    /// There is nothing left to wait for.
    Idle,
}

/// What an [`Event`] says.
pub enum EventView {
    Message(TunnelMessageView),
    Unreadable,
    OtherFrame,
    Ended,
    Key(Option<char>),
    Idle,
}

impl View for Event {
    type V = EventView;

    open spec fn view(&self) -> EventView {
        match self {
            Event::Message(message) => EventView::Message(message@),
            Event::Unreadable => EventView::Unreadable,
            Event::OtherFrame => EventView::OtherFrame,
            Event::Ended => EventView::Ended,
            Event::Key(key) => EventView::Key(*key),
            Event::Idle => EventView::Idle,
        }
    }
}

/// What a client does next.
#[derive(Debug)]
pub enum Action {
    /// It waits for the next event.
    Continue,
    /// It asks the local server, and tells the relay what came back.
    Forward(LocalRequest),
    /// It stops.
    Quit,
}

/// What an [`Action`] says.
pub enum ActionView {
    Continue,
    Forward(LocalRequestView),
    Quit,
}

impl View for Action {
    type V = ActionView;

    open spec fn view(&self) -> ActionView {
        match self {
            Action::Continue => ActionView::Continue,
            Action::Forward(request) => ActionView::Forward(request@),
            Action::Quit => ActionView::Quit,
        }
    }
}

impl AppView {
    /// What a client shows before it is connected.
    pub open spec fn initial(port: u16) -> AppView {
        AppView {
            port,
            status: "Connecting..."@,
            public_url: "Pending..."@,
            requests: Seq::empty(),
        }
    }

    /// What a client shows after an event.
    pub open spec fn after(self, event: EventView) -> AppView {
        match event {
            EventView::Message(TunnelMessageView::Ready { url }) => AppView {
                port: self.port,
                status: "Active"@,
                public_url: url,
                requests: self.requests,
            },
            EventView::Message(TunnelMessageView::Request(request)) => AppView {
                port: self.port,
                status: self.status,
                public_url: self.public_url,
                requests: seq![traffic_line(request.method, request.path)] + self.requests,
            },
            _ => self,
        }
    }

    /// What a client does after an event. One without a screen has no keys, and does not stop for
    /// want of events.
    pub open spec fn action(self, event: EventView, headless: bool) -> ActionView {
        match event {
            EventView::Message(TunnelMessageView::Request(request)) => ActionView::Forward(
                local_request(self.port, request),
            ),
            EventView::Message(_) => ActionView::Continue,
            EventView::Unreadable => ActionView::Continue,
            EventView::OtherFrame => ActionView::Continue,
            EventView::Ended => ActionView::Quit,
            EventView::Key(key) => if key == Some('q') {
                ActionView::Quit
            } else {
                ActionView::Continue
            },
            EventView::Idle => if headless {
                ActionView::Continue
            } else {
                ActionView::Quit
            },
        }
    }
}

impl App {
    /// A client that is not connected yet, for the local server at `port`.
    pub fn new(port: u16) -> (app: App)
        ensures
            app@ == AppView::initial(port),
    {
        let app = App {
            port,
            status: "Connecting...".to_owned(),
            public_url: "Pending...".to_owned(),
            requests: Vec::new(),
        };
        assert(app@ =~= AppView::initial(port));
        app
    }

    /// Notes that the relay has let the client in.
    pub fn connected(&mut self)
        ensures
            final(self)@ == (AppView { status: "Connected"@, ..old(self)@ }),
    {
        self.status = "Connected".to_owned();
    }

    /// The address of the local server, as it is shown.
    pub fn local_address(&self) -> (address: String)
        ensures
            address@ == local_address(self@.port),
    {
        let mut address: String = "http://localhost:".to_owned();
        address.append(decimal_text(self.port as u64).as_str());
        address
    }

    /// What the local server is asked for a tunnelled request.
    pub fn local_request(&self, request: TunnelRequest) -> (local: LocalRequest)
        ensures
            local@ == local_request(self@.port, request@),
    {
        let method: String = forward_method(request.method.as_str());
        let mut url: String = "http://127.0.0.1:".to_owned();
        url.append(decimal_text(self.port as u64).as_str());
        url.append("/");
        url.append(request.path.as_str());
        let headers: Headers = request.headers.forwarded();
        let body: Option<Vec<u8>> = match request.body {
            Some(_) => Some(request.get_body_bytes()),
            None => None,
        };
        LocalRequest { request_id: request.id, method, url, headers, body }
    }

    /// Takes in an event, and decides what to do.
    pub fn step(&mut self, event: Event, headless: bool) -> (action: Action)
        ensures
            final(self)@ == old(self)@.after(event@),
            action@ == old(self)@.action(event@, headless),
    {
        match event {
            Event::Message(message) => match message {
                TunnelMessage::Ready { url } => {
                    self.public_url = url;
                    self.status = "Active".to_owned();
                    Action::Continue
                },
                TunnelMessage::Request(request) => {
                    let mut line: String = request.method.clone();
                    line.append(" /");
                    line.append(request.path.as_str());
                    self.requests.insert(0, line);
                    assert(texts(self.requests@) =~= seq![line@] + texts(old(self).requests@));
                    Action::Forward(self.local_request(request))
                },
                TunnelMessage::Response(_) => Action::Continue,
            },
            Event::Unreadable => Action::Continue,
            Event::OtherFrame => Action::Continue,
            Event::Ended => Action::Quit,
            Event::Key(key) => match key {
                Some(c) => if c == 'q' {
                    Action::Quit
                } else {
                    Action::Continue
                },
                None => Action::Continue,
            },
            Event::Idle => if headless {
                Action::Continue
            } else {
                Action::Quit
            },
        }
    }
}

/// What the local server answered.
#[derive(Debug)]
pub struct LocalReply {
    pub status: u16,
    pub headers: Vec<RawHeader>,
    /// Nothing if the body could not be read.
    pub body: Option<Vec<u8>>,
}

/// What came of a request to the local server.
#[derive(Debug)]
pub enum LocalOutcome {
    Answered(LocalReply),
    /// There was no answer, for this reason.
    Failed(String),
}

/// What a [`LocalOutcome`] says.
pub enum LocalOutcomeView {
    Answered { status: u16, headers: Seq<(Seq<char>, Seq<u8>)>, body: Seq<u8> },
    Failed(Seq<char>),
}

impl View for LocalOutcome {
    type V = LocalOutcomeView;

    open spec fn view(&self) -> LocalOutcomeView {
        match self {
            LocalOutcome::Answered(reply) => LocalOutcomeView::Answered {
                status: reply.status,
                headers: raw_views(reply.headers@),
                body: (match reply.body {
                    Some(bytes) => bytes@,
                    None => Seq::empty(),
                }),
            },
            LocalOutcome::Failed(reason) => LocalOutcomeView::Failed(reason@),
        }
    }
}

/// The error that stands in the response for an answer that is too large.
pub open spec fn too_large_text(size: nat) -> Seq<char> {
    "{\"error\": \"Response body too large: "@ + decimal(size) + " bytes (limit 5MB)\"}"@
}

/// The error that stands in the response for a local server that did not answer.
pub open spec fn unreachable_text(reason: Seq<char>) -> Seq<char> {
    "{\"error\": \"Local server unreachable: "@ + reason + "\"}"@
}

/// What the relay is told of a request to the local server. The body, be it the answer or an
/// error, is Base64.
pub open spec fn tunnel_response(
    request_id: Seq<char>,
    outcome: LocalOutcomeView,
) -> TunnelResponseView {
    match outcome {
        LocalOutcomeView::Answered { status, headers, body } => if body.len() > MAX_BODY_SIZE {
            TunnelResponseView {
                request_id,
                status: 413,
                headers: Map::empty(),
                body: encoded_body(encode_utf8(too_large_text(body.len()))),
            }
        } else {
            TunnelResponseView {
                request_id,
                status,
                headers: answered_headers(headers),
                body: encoded_body(body),
            }
        },
        LocalOutcomeView::Failed(reason) => TunnelResponseView {
            request_id,
            status: 502,
            headers: Map::empty(),
            body: encoded_body(encode_utf8(unreachable_text(reason))),
        },
    }
}

/// The error for an answer that is too large takes little room.
proof fn lemma_too_large_fits(size: nat)
    requires
        size <= usize::MAX,
    ensures
        base64_len(encode_utf8(too_large_text(size)).len() as int) <= isize::MAX,
{
    reveal_strlit("{\"error\": \"Response body too large: ");
    reveal_strlit(" bytes (limit 5MB)\"}");
    lemma_decimal(size);
    is_ascii_chars_encode_utf8(too_large_text(size));
}

/// What the relay is told of a request to the local server. The Base64 text of the error for a
/// local server that did not answer has to fit in memory that can be addressed.
pub fn respond(request_id: String, outcome: LocalOutcome) -> (response: TunnelResponse)
    requires
        outcome@ matches LocalOutcomeView::Failed(reason) ==> base64_len(
            encode_utf8(unreachable_text(reason)).len() as int,
        ) <= isize::MAX,
    ensures
        response@ == tunnel_response(request_id@, outcome@),
{
    match outcome {
        LocalOutcome::Answered(reply) => {
            let body: Vec<u8> = match reply.body {
                Some(bytes) => bytes,
                None => Vec::new(),
            };
            if body.len() > MAX_BODY_SIZE {
                let mut text: String = "{\"error\": \"Response body too large: ".to_owned();
                text.append(decimal_text(body.len() as u64).as_str());
                text.append(" bytes (limit 5MB)\"}");
                proof {
                    lemma_too_large_fits(body@.len());
                }
                TunnelResponse {
                    request_id,
                    status: 413,
                    headers: Headers::new(),
                    body: encode_body(text.as_str().as_bytes()),
                }
            } else {
                TunnelResponse {
                    request_id,
                    status: reply.status,
                    headers: Headers::for_response(&reply.headers),
                    body: encode_body(body.as_slice()),
                }
            }
        },
        LocalOutcome::Failed(reason) => {
            let mut text: String = "{\"error\": \"Local server unreachable: ".to_owned();
            text.append(reason.as_str());
            text.append("\"}");
            TunnelResponse {
                request_id,
                status: 502,
                headers: Headers::new(),
                body: encode_body(text.as_str().as_bytes()),
            }
        },
    }
}

} // verus!
