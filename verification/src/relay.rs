//! The relay: who may connect, which tunnels are open, which requests wait for a response, and
//! what callers are answered.

use vstd::prelude::*;

use crate::base64_text::base64_len;
use crate::headers::{
    ascii_chars, header_value_str, is_text_value, raw_views, relayed_headers, tunnelled_headers,
    Headers, RawHeader,
};
use crate::ident::{is_id_text, new_client_id, new_request_id, CLIENT_ID_LEN, REQUEST_ID_LEN};
use crate::message::{
    body_bytes, encode_body, encoded_body, text_opt, TunnelMessage, TunnelMessageView,
    TunnelRequest, TunnelRequestView, TunnelResponse, TunnelResponseView,
};
use crate::table::{lists_keys, Table};
use crate::text::{
    ascii_lowercase, debug_list, debug_text, escaped_text, lowercase, same_text, shown_text, texts,
};

verus! {

/// The largest body, in bytes, of a request or a response: 5 MB.
pub const MAX_BODY_SIZE: usize = 5 * 1024 * 1024;

/// The largest message, in bytes, between the relay and a client: 10 MB.
pub const MAX_MESSAGE_SIZE: usize = 10 * 1024 * 1024;

/// How long, in seconds, a caller waits for the response of a client.
pub const RESPONSE_TIMEOUT_SECS: u64 = 10;

/// The token that clients show when none was configured.
pub open spec fn default_token() -> Seq<char> {
    "portal-secret-123"@
}

/// The token that clients have to show: the configured one, or the default.
pub open spec fn effective_token(configured: Option<Seq<char>>) -> Seq<char> {
    match configured {
        Some(token) => token,
        None => default_token(),
    }
}

/// The token that clients have to show: the configured one, or the default.
pub fn get_auth_token(configured: Option<String>) -> (token: String)
    ensures
        token@ == effective_token(text_opt(configured)),
{
    match configured {
        Some(token) => token,
        None => "portal-secret-123".to_owned(),
    }
}

/// An answer to an HTTP request.
#[derive(Debug)]
pub enum HttpReply {
    /// A short text of the relay's own.
    Plain { status: u16, text: String },
    /// What the local server behind a tunnel answered.
    Relayed { status: u16, headers: Headers, body: Vec<u8> },
}

/// What an [`HttpReply`] says.
pub enum HttpReplyView {
    Plain { status: u16, text: Seq<char> },
    Relayed { status: u16, headers: Map<Seq<char>, Seq<char>>, body: Seq<u8> },
}

impl View for HttpReply {
    type V = HttpReplyView;

    open spec fn view(&self) -> HttpReplyView {
        match self {
            HttpReply::Plain { status, text } => HttpReplyView::Plain {
                status: *status,
                text: text@,
            },
            HttpReply::Relayed { status, headers, body } => HttpReplyView::Relayed {
                status: *status,
                headers: headers@,
                body: body@,
            },
        }
    }
}

/// The name of the header that carries the token, in whatever case it is written.
pub open spec fn names_auth(name: Seq<char>) -> bool {
    lowercase(name) == "x-portal-auth"@
}

/// The name under which a client sends the token.
pub fn auth_header_name() -> (name: &'static str)
    ensures
        name@ == "X-Portal-Auth"@,
        names_auth(name@),
{
    proof {
        reveal_strlit("X-Portal-Auth");
        reveal_strlit("x-portal-auth");
        assert(ascii_lowercase("X-Portal-Auth"@) =~= "x-portal-auth"@);
    }
    "X-Portal-Auth"
}

/// The value of the first of the headers that carries the token, if one does.
pub open spec fn first_auth_value(raw: Seq<(Seq<char>, Seq<u8>)>) -> Option<Seq<u8>>
    decreases raw.len(),
{
    if raw.len() == 0 {
        None
    } else if names_auth(raw[0].0) {
        Some(raw[0].1)
    } else {
        first_auth_value(raw.skip(1))
    }
}

/// The value of the first of the headers that carries the token, if one does.
pub fn auth_value(headers: &Vec<RawHeader>) -> (value: Option<&[u8]>)
    ensures
        value_opt(value) == first_auth_value(raw_views(headers@)),
{
    let ghost views = raw_views(headers@);
    let mut i: usize = 0;
    assert(views.skip(0) =~= views);
    while i < headers.len()
        invariant
            i <= headers@.len(),
            views == raw_views(headers@),
            first_auth_value(views) == first_auth_value(views.skip(i as int)),
        decreases headers@.len() - i,
    {
        assert(views.skip(i as int).skip(1) =~= views.skip(i + 1));
        let lower: String = headers[i].name.as_str().to_lowercase();
        if same_text(lower.as_str(), "x-portal-auth") {
            return Some(headers[i].value.as_slice());
        }
        i = i + 1;
    }
    None
}

/// The bytes of an optional header value.
pub open spec fn value_opt(header: Option<&[u8]>) -> Option<Seq<u8>> {
    match header {
        Some(value) => Some(value@),
        None => None,
    }
}

/// The authentication header is there, and its value is text and is the token.
pub open spec fn shows_token(header: Option<Seq<u8>>, token: Seq<char>) -> bool {
    match header {
        Some(value) => is_text_value(value) && ascii_chars(value) == token,
        None => false,
    }
}

/// The answer to a client without the token.
pub open spec fn unauthorized() -> HttpReplyView {
    HttpReplyView::Plain { status: 401, text: "Unauthorized"@ }
}

/// Lets a client in that shows the token in its authentication header, and refuses any other.
pub fn authorize(header: Option<&[u8]>, token: &str) -> (admitted: Result<(), HttpReply>)
    ensures
        match admitted {
            Ok(_) => shows_token(value_opt(header), token@),
            Err(reply) => !shows_token(value_opt(header), token@) && reply@ == unauthorized(),
        },
{
    let shown: bool = match header {
        Some(value) => match header_value_str(value) {
            Some(text) => same_text(text.as_str(), token),
            None => false,
        },
        None => false,
    };
    if shown {
        Ok(())
    } else {
        Err(HttpReply::Plain { status: 401, text: "Unauthorized".to_owned() })
    }
}

/// The public address of the tunnel to a client.
pub open spec fn tunnel_url(client_id: Seq<char>) -> Seq<char> {
    "http://localhost:3000/tunnel/"@ + client_id
}

/// The message that tells a client that its tunnel is open.
pub open spec fn ready_message(client_id: Seq<char>) -> TunnelMessageView {
    TunnelMessageView::Ready { url: tunnel_url(client_id) }
}

/// The text for a caller who names a client that has no tunnel; `active` shows those that have.
pub open spec fn tunnel_not_found(client_id: Seq<char>, active: Seq<char>) -> Seq<char> {
    "Tunnel not found for ID: "@ + client_id + ". Active: "@ + active
}

/// The text for a caller who names a client that has no tunnel; `active` shows those that have.
pub fn not_found_text(client_id: &str, active: &str) -> (text: String)
    ensures
        text@ == tunnel_not_found(client_id@, active@),
{
    let mut text: String = "Tunnel not found for ID: ".to_owned();
    text.append(client_id);
    text.append(". Active: ");
    text.append(active);
    text
}

/// An HTTP request for a tunnel.
pub struct IncomingRequest {
    pub client_id: Option<String>,
    pub path: Option<String>,
    pub method: String,
    pub headers: Vec<RawHeader>,
    pub body: Vec<u8>,
}

/// What an [`IncomingRequest`] says.
pub struct IncomingRequestView {
    pub client_id: Option<Seq<char>>,
    pub path: Option<Seq<char>>,
    pub method: Seq<char>,
    pub headers: Seq<(Seq<char>, Seq<u8>)>,
    pub body: Seq<u8>,
}

impl View for IncomingRequest {
    type V = IncomingRequestView;

    open spec fn view(&self) -> IncomingRequestView {
        IncomingRequestView {
            client_id: text_opt(self.client_id),
            path: text_opt(self.path),
            method: self.method@,
            headers: raw_views(self.headers@),
            body: self.body@,
        }
    }
}

/// A text, or the empty text.
pub open spec fn text_or_empty(text: Option<Seq<char>>) -> Seq<char> {
    match text {
        Some(t) => t,
        None => Seq::empty(),
    }
}

/// A text, or the empty text.
fn unwrap_text(text: Option<String>) -> (t: String)
    ensures
        t@ == text_or_empty(text_opt(text)),
{
    match text {
        Some(t) => t,
        None => String::new(),
    }
}

/// What a client is told of a request: its safe headers, and its body as Base64.
pub open spec fn tunnel_request(
    request_id: Seq<char>,
    incoming: IncomingRequestView,
) -> TunnelRequestView {
    TunnelRequestView {
        id: request_id,
        method: incoming.method,
        path: text_or_empty(incoming.path),
        headers: tunnelled_headers(incoming.headers),
        body: encoded_body(incoming.body),
    }
}

/// What a caller is answered when the client has responded.
pub open spec fn relayed_reply(response: TunnelResponseView) -> HttpReplyView {
    HttpReplyView::Relayed {
        status: response.status,
        headers: relayed_headers(response.headers),
        body: body_bytes(response.body),
    }
}

/// What a caller is answered when the client has not responded in time.
pub open spec fn gateway_timeout() -> HttpReplyView {
    HttpReplyView::Plain { status: 504, text: "Gateway Timeout"@ }
}

/// What a caller is answered, given the response of the client, if one came in time.
pub open spec fn settled_reply(outcome: Option<TunnelResponseView>) -> HttpReplyView {
    match outcome {
        Some(response) => relayed_reply(response),
        None => gateway_timeout(),
    }
}

/// The answer that carries a client's response to the caller.
pub fn relay_response(response: &TunnelResponse) -> (reply: HttpReply)
    ensures
        reply@ == relayed_reply(response@),
{
    HttpReply::Relayed {
        status: response.status,
        headers: response.headers.relayed(),
        body: response.get_body_bytes(),
    }
}

/// What can come from the socket of a client.
#[derive(Debug)]
pub enum SocketEvent {
    /// A message.
    Message(TunnelMessage),
    /// A frame that is not text, or text that is no message.
    Ignored,
    /// The end of what the client sends, or an error.
    Ended,
}

/// What a [`SocketEvent`] says.
pub enum SocketEventView {
    Message(TunnelMessageView),
    Ignored,
    Ended,
}

impl View for SocketEvent {
    type V = SocketEventView;

    open spec fn view(&self) -> SocketEventView {
        match self {
            SocketEvent::Message(message) => SocketEventView::Message(message@),
            SocketEvent::Ignored => SocketEventView::Ignored,
            SocketEvent::Ended => SocketEventView::Ended,
        }
    }
}

/// What the relay does next about the socket of a client.
pub enum SocketStep<P> {
    /// It waits for the next event.
    Continue,
    /// It gives the caller the response, and waits for the next event.
    Deliver { reply_to: P, response: TunnelResponse },
    /// It lets the client go.
    Stop,
}

/// What an optional response says.
pub open spec fn response_opt(response: Option<TunnelResponse>) -> Option<TunnelResponseView> {
    match response {
        Some(r) => Some(r@),
        None => None,
    }
}

/// The open tunnels and the requests that wait for a response. `C` is how a client is reached,
/// and `P` is how the caller that waits is reached.
pub struct AppState<C, P> {
    clients: Table<C>,
    pending_requests: Table<P>,
}

/// What an [`AppState`] holds, by client and by request.
#[verifier::ext_equal]
pub struct AppStateView<C, P> {
    pub clients: Map<Seq<char>, C>,
    pub pending: Map<Seq<char>, P>,
}

impl<C, P> View for AppState<C, P> {
    type V = AppStateView<C, P>;

    closed spec fn view(&self) -> AppStateView<C, P> {
        AppStateView { clients: self.clients@, pending: self.pending_requests@ }
    }
}

impl<C, P> AppStateView<C, P> {
    /// No tunnels and no requests.
    pub open spec fn empty() -> Self {
        AppStateView { clients: Map::empty(), pending: Map::empty() }
    }

    /// The state once a client has connected.
    pub open spec fn connected(self, client_id: Seq<char>, client: C) -> Self {
        AppStateView { clients: self.clients.insert(client_id, client), pending: self.pending }
    }

    /// The state once a client has gone.
    pub open spec fn disconnected(self, client_id: Seq<char>) -> Self {
        AppStateView { clients: self.clients.remove(client_id), pending: self.pending }
    }

    /// The state once a request waits for its response.
    pub open spec fn opened(self, request_id: Seq<char>, reply_to: P) -> Self {
        AppStateView { clients: self.clients, pending: self.pending.insert(request_id, reply_to) }
    }

    /// The state once a request no longer waits.
    pub open spec fn closed(self, request_id: Seq<char>) -> Self {
        AppStateView { clients: self.clients, pending: self.pending.remove(request_id) }
    }

    /// The caller that a message from a client answers, if there is one.
    pub open spec fn answers(self, message: TunnelMessageView) -> Option<P> {
        match message {
            TunnelMessageView::Response(response) => if self.pending.contains_key(
                response.request_id,
            ) {
                Some(self.pending[response.request_id])
            } else {
                None
            },
            _ => None,
        }
    }

    /// The state once a message from a client has come in.
    pub open spec fn after_message(self, message: TunnelMessageView) -> Self {
        match message {
            TunnelMessageView::Response(response) => self.closed(response.request_id),
            _ => self,
        }
    }

    /// The state once an event has come from the socket of a client.
    pub open spec fn after_event(self, client_id: Seq<char>, event: SocketEventView) -> Self {
        match event {
            SocketEventView::Message(message) => self.after_message(message),
            SocketEventView::Ignored => self,
            SocketEventView::Ended => self.disconnected(client_id),
        }
    }

    /// The caller that an event from the socket of a client answers, and with what, if any.
    pub open spec fn delivery(self, event: SocketEventView) -> Option<(P, TunnelResponseView)> {
        match event {
            SocketEventView::Message(TunnelMessageView::Response(response)) => match self.answers(
                TunnelMessageView::Response(response),
            ) {
                Some(reply_to) => Some((reply_to, response)),
                None => None,
            },
            _ => None,
        }
    }

    /// The state once a caller has been answered: without a response, its request no longer waits.
    pub open spec fn settled(
        self,
        request_id: Seq<char>,
        outcome: Option<TunnelResponseView>,
    ) -> Self {
        match outcome {
            Some(_) => self,
            None => self.closed(request_id),
        }
    }

    /// Every client has an identifier as the relay draws them.
    pub open spec fn well_named(self) -> bool {
        forall|client_id: Seq<char>| #[trigger]
            self.clients.contains_key(client_id) ==> client_id.len() == CLIENT_ID_LEN
                && is_id_text(client_id)
    }

    /// `reply` is an answer to a caller who names a client that has no tunnel.
    pub open spec fn not_found(self, client_id: Seq<char>, reply: HttpReplyView) -> bool {
        exists|active: Seq<Seq<char>>|
            {
                &&& #[trigger] lists_keys(active, self.clients)
                &&& reply == (HttpReplyView::Plain {
                    status: 404,
                    text: tunnel_not_found(client_id, debug_list(active)),
                })
            }
    }
}

/// A request that waits for its response.
pub struct Opened<C> {
    pub request_id: String,
    /// How the client is reached.
    pub client: C,
    /// What the client is to be sent.
    pub message: TunnelMessage,
}

impl<C, P> AppState<C, P> {
    /// No tunnels and no requests.
    pub fn new() -> (state: Self)
        ensures
            state@ == AppStateView::<C, P>::empty(),
    {
        AppState { clients: Table::new(), pending_requests: Table::new() }
    }

    /// Opens the tunnel to a client under the identifier `client_id`, in place of the client that
    /// had it, and returns what the client is to be sent.
    pub fn connect_as(&mut self, client_id: String, client: C) -> (message: TunnelMessage)
        ensures
            final(self)@ == old(self)@.connected(client_id@, client),
            message@ == ready_message(client_id@),
    {
        let mut url: String = "http://localhost:3000/tunnel/".to_owned();
        url.append(client_id.as_str());
        self.clients.insert(client_id, client);
        TunnelMessage::Ready { url }
    }

    /// Opens the tunnel to a client under an identifier drawn at random, and returns the
    /// identifier and what the client is to be sent.
    pub fn connect(&mut self, client: C) -> (connected: (String, TunnelMessage))
        ensures
            connected.0@.len() == CLIENT_ID_LEN,
            is_id_text(connected.0@),
            final(self)@ == old(self)@.connected(connected.0@, client),
            connected.1@ == ready_message(connected.0@),
    {
        let client_id: String = new_client_id();
        let message: TunnelMessage = self.connect_as(client_id.clone(), client);
        (client_id, message)
    }

    /// Closes the tunnel to a client. Requests that wait for it go on waiting.
    pub fn disconnect(&mut self, client_id: &str)
        ensures
            final(self)@ == old(self)@.disconnected(client_id@),
    {
        let _ = self.clients.remove(client_id);
    }

    /// Takes a message from a client. If it is the response to a request that waits, the request
    /// no longer waits, and the caller is returned with the response.
    pub fn resolve(&mut self, message: TunnelMessage) -> (resolved: Option<(P, TunnelResponse)>)
        ensures
            final(self)@ == old(self)@.after_message(message@),
            match resolved {
                Some((reply_to, response)) => {
                    &&& old(self)@.answers(message@) == Some(reply_to)
                    &&& message@ == TunnelMessageView::Response(response@)
                },
                None => old(self)@.answers(message@) is None && final(self)@ == old(self)@,
            },
    {
        match message {
            TunnelMessage::Response(response) => {
                match self.pending_requests.remove(response.request_id.as_str()) {
                    Some(reply_to) => Some((reply_to, response)),
                    None => None,
                }
            },
            _ => None,
        }
    }

    /// Takes in an event from the socket of a client, and decides what to do. Only the end or an
    /// error ends the connection, and then the tunnel of the client is closed.
    pub fn receive(&mut self, client_id: &str, event: SocketEvent) -> (step: SocketStep<P>)
        ensures
            final(self)@ == old(self)@.after_event(client_id@, event@),
            match step {
                SocketStep::Continue => {
                    &&& event@ !is Ended
                    &&& old(self)@.delivery(event@) is None
                    &&& final(self)@ == old(self)@
                },
                SocketStep::Deliver { reply_to, response } => old(self)@.delivery(event@) == Some(
                    (reply_to, response@),
                ),
                SocketStep::Stop => event@ is Ended,
            },
    {
        match event {
            SocketEvent::Message(message) => match self.resolve(message) {
                Some((reply_to, response)) => SocketStep::Deliver { reply_to, response },
                None => SocketStep::Continue,
            },
            SocketEvent::Ignored => SocketStep::Continue,
            SocketEvent::Ended => {
                self.disconnect(client_id);
                SocketStep::Stop
            },
        }
    }

    /// Answers a caller: with the response of the client, or, if none came in time, with a
    /// timeout, and then the request no longer waits.
    pub fn settle(&mut self, request_id: &str, outcome: Option<TunnelResponse>) -> (reply:
        HttpReply)
        ensures
            final(self)@ == old(self)@.settled(request_id@, response_opt(outcome)),
            reply@ == settled_reply(response_opt(outcome)),
    {
        match outcome {
            Some(response) => relay_response(&response),
            None => {
                let _ = self.pending_requests.remove(request_id);
                HttpReply::Plain { status: 504, text: "Gateway Timeout".to_owned() }
            },
        }
    }

    /// The answer to a caller who names a client that has no tunnel.
    fn refuse(&self, client_id: &str) -> (reply: HttpReply)
        ensures
            self@.not_found(client_id@, reply@),
    {
        let active: Vec<String> = self.clients.keys();
        let shown: String = debug_text(&active);
        let text: String = not_found_text(client_id, shown.as_str());
        proof {
            let keys = texts(active@);
            assert(lists_keys(keys, self@.clients));
            assert(shown@ == debug_list(keys)) by {
                assert(keys.map_values(
                    |item: Seq<char>|
                        if is_id_text(item) {
                            item
                        } else {
                            escaped_text(item)
                        },
                ) =~= keys.map_values(|text: Seq<char>| shown_text(text)));
            }
        }
        HttpReply::Plain { status: 404, text }
    }
}

impl<C: Clone, P> AppState<C, P> {
    /// Makes a request wait for its response under the identifier `request_id`, if the client that
    /// it names has a tunnel, and refuses it otherwise. The Base64 text of the body has to fit in
    /// memory that can be addressed.
    pub fn open_as(&mut self, request_id: String, incoming: IncomingRequest, reply_to: P) -> (opened:
        Result<Opened<C>, HttpReply>)
        requires
            base64_len(incoming.body@.len() as int) <= isize::MAX,
        ensures
            ({
                let client_id = text_or_empty(incoming@.client_id);
                match opened {
                    Ok(o) => {
                        &&& old(self)@.clients.contains_key(client_id)
                        &&& cloned(old(self)@.clients[client_id], o.client)
                        &&& final(self)@ == old(self)@.opened(request_id@, reply_to)
                        &&& o.request_id@ == request_id@
                        &&& o.message@ == TunnelMessageView::Request(
                            tunnel_request(request_id@, incoming@),
                        )
                    },
                    Err(reply) => {
                        &&& !old(self)@.clients.contains_key(client_id)
                        &&& final(self)@ == old(self)@
                        &&& old(self)@.not_found(client_id, reply@)
                    },
                }
            }),
    {
        let client_id: String = unwrap_text(incoming.client_id);
        let client: C = match self.clients.get(client_id.as_str()) {
            Some(client) => client.clone(),
            None => {
                return Err(self.refuse(client_id.as_str()));
            },
        };
        let headers: Headers = Headers::for_request(&incoming.headers);
        let body: Option<String> = encode_body(incoming.body.as_slice());
        let request = TunnelRequest {
            id: request_id.clone(),
            method: incoming.method,
            path: unwrap_text(incoming.path),
            headers,
            body,
        };
        self.pending_requests.insert(request_id.clone(), reply_to);
        Ok(Opened { request_id, client, message: TunnelMessage::Request(request) })
    }

    /// Makes a request wait for its response under an identifier drawn at random, if the client
    /// that it names has a tunnel, and refuses it otherwise. The Base64 text of the body has to
    /// fit in memory that can be addressed.
    pub fn open(&mut self, incoming: IncomingRequest, reply_to: P) -> (opened: Result<
        Opened<C>,
        HttpReply,
    >)
        requires
            base64_len(incoming.body@.len() as int) <= isize::MAX,
        ensures
            ({
                let client_id = text_or_empty(incoming@.client_id);
                match opened {
                    Ok(o) => {
                        &&& o.request_id@.len() == REQUEST_ID_LEN
                        &&& is_id_text(o.request_id@)
                        &&& old(self)@.clients.contains_key(client_id)
                        &&& cloned(old(self)@.clients[client_id], o.client)
                        &&& final(self)@ == old(self)@.opened(o.request_id@, reply_to)
                        &&& o.message@ == TunnelMessageView::Request(
                            tunnel_request(o.request_id@, incoming@),
                        )
                    },
                    Err(reply) => {
                        &&& !old(self)@.clients.contains_key(client_id)
                        &&& final(self)@ == old(self)@
                        &&& old(self)@.not_found(client_id, reply@)
                    },
                }
            }),
    {
        self.open_as(new_request_id(), incoming, reply_to)
    }
}

impl<C, P> Default for AppState<C, P> {
    fn default() -> (state: Self)
        ensures
            state@ == AppStateView::<C, P>::empty(),
    {
        AppState::new()
    }
}

} // verus!
