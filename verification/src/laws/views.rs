//! Laws of views: what a value says is what each of its fields says.

use vstd::prelude::*;

use crate::agent::{
    Action, ActionView, App, Event, EventView, LocalOutcome, LocalOutcomeView, LocalReply,
    LocalRequest,
};
use crate::headers::RawHeader;
use crate::message::{
    TunnelMessage, TunnelMessageView, TunnelRequest, TunnelResponse, TunnelResponseView,
};
use crate::relay::{
    response_opt, value_opt, HttpReply, HttpReplyView, IncomingRequest, SocketEvent,
    SocketEventView,
};

verus! {

/// What a tunnelled request says is what its fields say.
pub proof fn law_tunnel_request_view(request: TunnelRequest)
    ensures
        request@.id == request.id@,
        request@.method == request.method@,
        request@.path == request.path@,
        request@.headers == request.headers@,
        request.body matches Some(text) ==> request@.body == Some(text@),
        request.body is None ==> request@.body is None,
{
}

/// What a tunnelled response says is what its fields say.
pub proof fn law_tunnel_response_view(response: TunnelResponse)
    ensures
        response@.request_id == response.request_id@,
        response@.status == response.status,
        response@.headers == response.headers@,
        response.body matches Some(text) ==> response@.body == Some(text@),
        response.body is None ==> response@.body is None,
        response_opt(Some(response)) == Some(response@),
        response_opt(None) == None::<TunnelResponseView>,
{
}

/// What a message says is what it carries, and of which kind it is.
pub proof fn law_tunnel_message_view(url: String, request: TunnelRequest, response: TunnelResponse)
    ensures
        (TunnelMessage::Ready { url })@ == (TunnelMessageView::Ready { url: url@ }),
        TunnelMessage::Request(request)@ == TunnelMessageView::Request(request@),
        TunnelMessage::Response(response)@ == TunnelMessageView::Response(response@),
{
}

/// What a raw header says is its name and its value.
pub proof fn law_raw_header_view(header: RawHeader)
    ensures
        header@ == (header.name@, header.value@),
{
}

/// What an answer says is what it carries, and of which kind it is.
pub proof fn law_http_reply_view(reply: HttpReply)
    ensures
        match reply {
            HttpReply::Plain { status, text } => reply@ == (HttpReplyView::Plain {
                status,
                text: text@,
            }),
            HttpReply::Relayed { status, headers, body } => reply@ == (HttpReplyView::Relayed {
                status,
                headers: headers@,
                body: body@,
            }),
        },
{
}

/// What an HTTP request says is what its fields say.
pub proof fn law_incoming_request_view(incoming: IncomingRequest)
    ensures
        incoming.client_id matches Some(client_id) ==> incoming@.client_id == Some(client_id@),
        incoming.client_id is None ==> incoming@.client_id is None,
        incoming.path matches Some(path) ==> incoming@.path == Some(path@),
        incoming.path is None ==> incoming@.path is None,
        incoming@.method == incoming.method@,
        incoming@.headers.len() == incoming.headers@.len(),
        forall|i: int|
            0 <= i < incoming.headers@.len() ==> #[trigger] incoming@.headers[i] == (
                incoming.headers@[i].name@,
                incoming.headers@[i].value@,
            ),
        incoming@.body == incoming.body@,
{
}

/// What an event of a socket says is what it carries, and of which kind it is.
pub proof fn law_socket_event_view(message: TunnelMessage)
    ensures
        SocketEvent::Message(message)@ == SocketEventView::Message(message@),
        SocketEvent::Ignored@ is Ignored,
        SocketEvent::Ended@ is Ended,
{
}

/// What an optional header value says is its bytes.
pub proof fn law_value_opt(value: &[u8])
    ensures
        value_opt(Some(value)) == Some(value@),
        value_opt(None) == None::<Seq<u8>>,
{
}

/// What a request for the local server says is what its fields say.
pub proof fn law_local_request_view(request: LocalRequest)
    ensures
        request@.request_id == request.request_id@,
        request@.method == request.method@,
        request@.url == request.url@,
        request@.headers == request.headers@,
        request.body matches Some(bytes) ==> request@.body == Some(bytes@),
        request.body is None ==> request@.body is None,
{
}

/// What a client shows is what its fields say.
pub proof fn law_app_view(app: App)
    ensures
        app@.port == app.port,
        app@.status == app.status@,
        app@.public_url == app.public_url@,
        app@.requests.len() == app.requests@.len(),
        forall|i: int|
            0 <= i < app.requests@.len() ==> #[trigger] app@.requests[i] == app.requests@[i]@,
{
}

/// What an event of a client says is what it carries, and of which kind it is.
pub proof fn law_event_view(message: TunnelMessage, key: Option<char>)
    ensures
        Event::Message(message)@ == EventView::Message(message@),
        Event::Unreadable@ is Unreadable,
        Event::OtherFrame@ is OtherFrame,
        Event::Ended@ is Ended,
        Event::Key(key)@ == EventView::Key(key),
        Event::Idle@ is Idle,
{
}

/// What an action says is what it carries, and of which kind it is.
pub proof fn law_action_view(request: LocalRequest)
    ensures
        Action::Continue@ is Continue,
        Action::Forward(request)@ == ActionView::Forward(request@),
        Action::Quit@ is Quit,
{
}

/// What came of a request to the local server says what the answer says, with an empty body if it
/// could not be read, or the reason.
pub proof fn law_local_outcome_view(reply: LocalReply, reason: String)
    ensures
        LocalOutcome::Answered(reply)@ matches LocalOutcomeView::Answered { status, headers, body }
            && {
            &&& status == reply.status
            &&& headers.len() == reply.headers@.len()
            &&& forall|i: int|
                0 <= i < headers.len() ==> #[trigger] headers[i] == (
                    reply.headers@[i].name@,
                    reply.headers@[i].value@,
                )
            &&& reply.body matches Some(bytes) ==> body == bytes@
            &&& reply.body is None ==> body.len() == 0
        },
        LocalOutcome::Failed(reason)@ == LocalOutcomeView::Failed(reason@),
{
}

} // verus!
