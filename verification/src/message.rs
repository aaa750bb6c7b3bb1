//! The messages that go through the tunnel.

use vstd::prelude::*;

use crate::base64_text::{
    base64_bytes, base64_len, base64_text, decode, encode, lemma_base64_round_trip,
};
use crate::headers::Headers;

verus! {

/// The characters of an optional text.
pub open spec fn text_opt(text: Option<String>) -> Option<Seq<char>> {
    match text {
        Some(t) => Some(t@),
        None => None,
    }
}

/// What bytes become as the body of a message: Base64 text, or nothing if there are none.
pub open spec fn encoded_body(bytes: Seq<u8>) -> Option<Seq<char>> {
    if bytes.len() == 0 {
        None
    } else {
        Some(base64_text(bytes))
    }
}

/// What the body of a message stands for: nothing if there is no body or it is not Base64.
pub open spec fn body_bytes(body: Option<Seq<char>>) -> Seq<u8> {
    match body {
        Some(text) => match base64_bytes(text) {
            Some(bytes) => bytes,
            None => Seq::empty(),
        },
        None => Seq::empty(),
    }
}

/// The bytes that the body of a message stands for.
pub fn decode_body(body: &Option<String>) -> (bytes: Vec<u8>)
    ensures
        bytes@ == body_bytes(text_opt(*body)),
{
    match body {
        Some(text) => match decode(text.as_str()) {
            Ok(bytes) => {
                proof {
                    lemma_base64_round_trip(bytes@);
                }
                bytes
            },
            Err(_) => Vec::new(),
        },
        None => Vec::new(),
    }
}

/// The body of a message that stands for `bytes`. The Base64 text has to fit in memory that can
/// be addressed.
pub fn encode_body(bytes: &[u8]) -> (body: Option<String>)
    requires
        base64_len(bytes@.len() as int) <= isize::MAX,
    ensures
        text_opt(body) == encoded_body(bytes@),
{
    if bytes.len() == 0 {
        None
    } else {
        Some(encode(bytes))
    }
}

/// A request on its way from the relay to a client.
#[derive(Debug)]
pub struct TunnelRequest {
    pub id: String,
    pub method: String,
    pub path: String,
    pub headers: Headers,
    /// Base64 text.
    pub body: Option<String>,
}

/// What a [`TunnelRequest`] says.
pub struct TunnelRequestView {
    pub id: Seq<char>,
    pub method: Seq<char>,
    pub path: Seq<char>,
    pub headers: Map<Seq<char>, Seq<char>>,
    pub body: Option<Seq<char>>,
}

impl View for TunnelRequest {
    type V = TunnelRequestView;

    open spec fn view(&self) -> TunnelRequestView {
        TunnelRequestView {
            id: self.id@,
            method: self.method@,
            path: self.path@,
            headers: self.headers@,
            body: text_opt(self.body),
        }
    }
}

impl TunnelRequest {
    /// The bytes of the body: empty if there is no body or it is not Base64.
    pub fn get_body_bytes(&self) -> (bytes: Vec<u8>)
        ensures
            bytes@ == body_bytes(self@.body),
    {
        decode_body(&self.body)
    }
}

impl Clone for TunnelRequest {
    fn clone(&self) -> (request: Self)
        ensures
            request@ == self@,
    {
        TunnelRequest {
            id: self.id.clone(),
            method: self.method.clone(),
            path: self.path.clone(),
            headers: self.headers.clone(),
            body: self.body.clone(),
        }
    }
}

/// A response on its way from a client to the relay.
#[derive(Debug)]
pub struct TunnelResponse {
    pub request_id: String,
    pub status: u16,
    pub headers: Headers,
    /// Base64 text.
    pub body: Option<String>,
}

/// What a [`TunnelResponse`] says.
pub struct TunnelResponseView {
    pub request_id: Seq<char>,
    pub status: u16,
    pub headers: Map<Seq<char>, Seq<char>>,
    pub body: Option<Seq<char>>,
}

impl View for TunnelResponse {
    type V = TunnelResponseView;

    open spec fn view(&self) -> TunnelResponseView {
        TunnelResponseView {
            request_id: self.request_id@,
            status: self.status,
            headers: self.headers@,
            body: text_opt(self.body),
        }
    }
}

impl TunnelResponse {
    /// The bytes of the body: empty if there is no body or it is not Base64.
    pub fn get_body_bytes(&self) -> (bytes: Vec<u8>)
        ensures
            bytes@ == body_bytes(self@.body),
    {
        decode_body(&self.body)
    }
}

impl Clone for TunnelResponse {
    fn clone(&self) -> (response: Self)
        ensures
            response@ == self@,
    {
        TunnelResponse {
            request_id: self.request_id.clone(),
            status: self.status,
            headers: self.headers.clone(),
            body: self.body.clone(),
        }
    }
}

/// A message between the relay and a client.
#[derive(Debug)]
pub enum TunnelMessage {
    /// The tunnel is open, at this address.
    Ready { url: String },
    Request(TunnelRequest),
    Response(TunnelResponse),
}

/// What a [`TunnelMessage`] says.
pub enum TunnelMessageView {
    Ready { url: Seq<char> },
    Request(TunnelRequestView),
    Response(TunnelResponseView),
}

impl View for TunnelMessage {
    type V = TunnelMessageView;

    open spec fn view(&self) -> TunnelMessageView {
        match self {
            TunnelMessage::Ready { url } => TunnelMessageView::Ready { url: url@ },
            TunnelMessage::Request(request) => TunnelMessageView::Request(request@),
            TunnelMessage::Response(response) => TunnelMessageView::Response(response@),
        }
    }
}

impl Clone for TunnelMessage {
    fn clone(&self) -> (message: Self)
        ensures
            message@ == self@,
    {
        match self {
            TunnelMessage::Ready { url } => TunnelMessage::Ready { url: url.clone() },
            TunnelMessage::Request(request) => TunnelMessage::Request(request.clone()),
            TunnelMessage::Response(response) => TunnelMessage::Response(response.clone()),
        }
    }
}

} // verus!
