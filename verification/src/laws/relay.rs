//! Laws of the relay: whom it admits, what it passes on, and whom it answers.

use vstd::prelude::*;

use crate::agent::{tunnel_response, LocalOutcomeView};
use crate::base64_text::{base64_text, lemma_base64_round_trip};
use crate::headers::{ascii_chars, is_text_value, tunnelled_headers, value_text};
use crate::ident::is_id_text;
use crate::laws::headers::{
    is_called, law_header_is_relayed, law_no_header_is_made_up_for_responses, law_relayed_headers,
};
use crate::laws::law_response_returns;
use crate::message::{TunnelMessageView, TunnelResponseView};
use crate::relay::{
    effective_token, first_auth_value, ready_message, settled_reply, shows_token, tunnel_not_found,
    tunnel_request, unauthorized, AppStateView, HttpReplyView, IncomingRequestView, SocketEventView,
    MAX_BODY_SIZE, MAX_MESSAGE_SIZE, RESPONSE_TIMEOUT_SECS,
};
use crate::table::lists_keys;
use crate::text::{debug_list, escaped_text, quoted_items, shown_text};

verus! {

/// A body may have 5 MB and a message 10 MB, and a caller waits for 10 seconds.
pub proof fn law_limits()
    ensures
        MAX_BODY_SIZE == 5_242_880,
        MAX_MESSAGE_SIZE == 10_485_760,
        RESPONSE_TIMEOUT_SECS == 10,
{
}

/// The token that clients have to show is the configured one, whatever it is, or else the default.
pub proof fn law_effective_token(token: Seq<char>)
    ensures
        effective_token(Some(token)) == token,
        effective_token(None) == "portal-secret-123"@,
{
}

/// A value shows the token if and only if it has a byte for each character of the token, visible
/// ASCII, a space or a tab, with the same code. Without a value nothing is shown.
pub proof fn law_shows_token(value: Seq<u8>, token: Seq<char>)
    ensures
        shows_token(Some(value), token) <==> {
            &&& value.len() == token.len()
            &&& forall|i: int|
                0 <= i < value.len() ==> {
                    &&& 32 <= #[trigger] value[i] <= 126 || value[i] == 9
                    &&& value[i] as int == token[i] as int
                }
        },
        !shows_token(None, token),
{
    if value.len() == token.len() && forall|i: int|
        0 <= i < value.len() ==> {
            &&& 32 <= #[trigger] value[i] <= 126 || value[i] == 9
            &&& value[i] as int == token[i] as int
        } {
        assert forall|i: int| 0 <= i < value.len() implies #[trigger] ascii_chars(value)[i]
            == token[i] by {
            assert(value[i] as int == token[i] as int);
            assert(value[i] as char as int == token[i] as int);
        }
        assert(ascii_chars(value) =~= token);
        assert(is_text_value(value));
    }
    if shows_token(Some(value), token) {
        assert(ascii_chars(value).len() == value.len());
        assert forall|i: int| 0 <= i < value.len() implies {
            &&& 32 <= #[trigger] value[i] <= 126 || value[i] == 9
            &&& value[i] as int == token[i] as int
        } by {
            assert(ascii_chars(value)[i] == value[i] as char);
        }
    }
}

/// A client without the token is refused with status 401.
pub proof fn law_unauthorized()
    ensures
        unauthorized() == (HttpReplyView::Plain { status: 401, text: "Unauthorized"@ }),
{
}

/// The value that is looked at is that of the first header that is called `x-portal-auth`, in
/// whatever case, however many headers there are.
pub proof fn law_first_auth_value(raw: Seq<(Seq<char>, Seq<u8>)>, i: int)
    requires
        0 <= i < raw.len(),
        is_called(raw[i].0, "x-portal-auth"@),
        forall|j: int| 0 <= j < i ==> !is_called((#[trigger] raw[j]).0, "x-portal-auth"@),
    ensures
        first_auth_value(raw) == Some(raw[i].1),
    decreases i,
{
    if i > 0 {
        assert(!is_called(raw[0].0, "x-portal-auth"@));
        let rest = raw.skip(1);
        assert forall|j: int| 0 <= j < i - 1 implies !is_called(
            (#[trigger] rest[j]).0,
            "x-portal-auth"@,
        ) by {
            assert(!is_called(raw[j + 1].0, "x-portal-auth"@));
        }
        law_first_auth_value(rest, i - 1);
    }
}

/// Where no header is called `x-portal-auth`, in whatever case, no value is looked at.
pub proof fn law_no_auth_value(raw: Seq<(Seq<char>, Seq<u8>)>)
    requires
        forall|j: int| 0 <= j < raw.len() ==> !is_called((#[trigger] raw[j]).0, "x-portal-auth"@),
    ensures
        first_auth_value(raw) is None,
    decreases raw.len(),
{
    if raw.len() > 0 {
        assert(!is_called(raw[0].0, "x-portal-auth"@));
        let rest = raw.skip(1);
        assert forall|j: int| 0 <= j < rest.len() implies !is_called(
            (#[trigger] rest[j]).0,
            "x-portal-auth"@,
        ) by {
            assert(!is_called(raw[j + 1].0, "x-portal-auth"@));
        }
        law_no_auth_value(rest);
    }
}

/// A handshake with one header that is called `x-portal-auth`, in whatever case, among any others,
/// is admitted if and only if that header carries the token. One without is not admitted.
pub proof fn law_handshake(raw: Seq<(Seq<char>, Seq<u8>)>, i: int, token: Seq<char>)
    requires
        forall|j: int|
            0 <= j < raw.len() && j != i ==> !is_called((#[trigger] raw[j]).0, "x-portal-auth"@),
    ensures
        0 <= i < raw.len() && is_called(raw[i].0, "x-portal-auth"@) ==> (shows_token(
            first_auth_value(raw),
            token,
        ) <==> {
            &&& raw[i].1.len() == token.len()
            &&& forall|k: int|
                0 <= k < token.len() ==> {
                    &&& 32 <= #[trigger] token[k] as int <= 126 || token[k] as int == 9
                    &&& raw[i].1[k] as int == token[k] as int
                }
        }),
        !(0 <= i < raw.len() && is_called(raw[i].0, "x-portal-auth"@)) ==> !shows_token(
            first_auth_value(raw),
            token,
        ),
{
    if 0 <= i < raw.len() && is_called(raw[i].0, "x-portal-auth"@) {
        law_first_auth_value(raw, i);
        let value = raw[i].1;
        law_shows_token(value, token);
        if shows_token(first_auth_value(raw), token) {
            assert forall|k: int| 0 <= k < token.len() implies {
                &&& 32 <= #[trigger] token[k] as int <= 126 || token[k] as int == 9
                &&& value[k] as int == token[k] as int
            } by {
                assert(value[k] as int == token[k] as int);
            }
        } else if value.len() == token.len() {
            let k = choose|k: int|
                0 <= k < value.len() && !({
                    &&& 32 <= #[trigger] value[k] <= 126 || value[k] == 9
                    &&& value[k] as int == token[k] as int
                });
            assert(!({
                &&& 32 <= token[k] as int <= 126 || token[k] as int == 9
                &&& value[k] as int == token[k] as int
            }));
        }
    } else {
        law_no_auth_value(raw);
    }
}

/// A client that has connected is told its public address.
pub proof fn law_ready_message(client_id: Seq<char>)
    ensures
        ready_message(client_id) == (TunnelMessageView::Ready {
            url: "http://localhost:3000/tunnel/"@ + client_id,
        }),
{
}

/// What a client is told of a request: the method and the path as they came, an empty path if there
/// was none, and under each name that the caller used, and did not use again behind it, the text of
/// its value, unless the name is one of six.
pub proof fn law_tunnel_request(request_id: Seq<char>, incoming: IncomingRequestView, i: int)
    ensures
        ({
            let told = tunnel_request(request_id, incoming);
            &&& told.id == request_id
            &&& told.method == incoming.method
            &&& incoming.path matches Some(path) ==> told.path == path
            &&& incoming.path is None ==> told.path == ""@
            &&& incoming.body.len() == 0 ==> told.body is None
            &&& incoming.body.len() > 0 ==> told.body == Some(base64_text(incoming.body))
            &&& told.headers == tunnelled_headers(incoming.headers)
            &&& (0 <= i < incoming.headers.len() && (forall|j: int|
                i < j < incoming.headers.len() ==> (#[trigger] incoming.headers[j]).0
                    != incoming.headers[i].0)) ==> {
                let name = incoming.headers[i].0;
                &&& told.headers.contains_key(name) <==> {
                    &&& !is_called(name, "host"@)
                    &&& !is_called(name, "x-portal-auth"@)
                    &&& !is_called(name, "connection"@)
                    &&& !is_called(name, "upgrade"@)
                    &&& !is_called(name, "proxy-connection"@)
                    &&& !is_called(name, "proxy-authorization"@)
                }
                &&& told.headers.contains_key(name) ==> told.headers[name] == value_text(
                    incoming.headers[i].1,
                )
            }
        }),
{
    reveal_strlit("");
    if incoming.path is None {
        assert(tunnel_request(request_id, incoming).path =~= ""@);
    }
    if 0 <= i < incoming.headers.len() && forall|j: int|
        i < j < incoming.headers.len() ==> (#[trigger] incoming.headers[j]).0
            != incoming.headers[i].0 {
        crate::laws::headers::law_header_is_tunnelled(incoming.headers, i);
    }
}

/// What a caller is answered with a response: its status, each header but six, and the bytes of
/// which the body is the Base64 text, or none if it is the Base64 text of none.
pub proof fn law_settled_reply(response: TunnelResponseView, name: Seq<char>, bytes: Seq<u8>)
    ensures
        settled_reply(Some(response)) matches HttpReplyView::Relayed { status, headers, body } && {
            &&& status == response.status
            &&& headers.contains_key(name) <==> {
                &&& response.headers.contains_key(name)
                &&& !is_called(name, "connection"@)
                &&& !is_called(name, "upgrade"@)
                &&& !is_called(name, "content-length"@)
                &&& !is_called(name, "transfer-encoding"@)
                &&& !is_called(name, "server"@)
                &&& !is_called(name, "date"@)
            }
            &&& headers.contains_key(name) ==> headers[name] == response.headers[name]
            &&& response.body == Some(base64_text(bytes)) ==> body == bytes
            &&& (forall|b: Seq<u8>| response.body != Some(#[trigger] base64_text(b))) ==> body
                == Seq::<u8>::empty()
        },
{
    law_relayed_headers(response.headers, name);
    lemma_base64_round_trip(bytes);
}

/// A caller who has no response in time is answered with status 504.
pub proof fn law_timeout_reply()
    ensures
        settled_reply(None) == (HttpReplyView::Plain { status: 504, text: "Gateway Timeout"@ }),
{
}

/// A caller who names a client that has no tunnel is told so with status 404, and which clients
/// have one, in some order: between quotes, as they are if they hold only characters of
/// identifiers, and escaped otherwise.
pub proof fn law_not_found<C, P>(
    state: AppStateView<C, P>,
    client_id: Seq<char>,
    reply: HttpReplyView,
)
    requires
        state.not_found(client_id, reply),
    ensures
        exists|active: Seq<Seq<char>>|
            {
                &&& #[trigger] lists_keys(active, state.clients)
                &&& reply == (HttpReplyView::Plain {
                    status: 404,
                    text: "Tunnel not found for ID: "@ + client_id + ". Active: "@ + ("["@
                        + quoted_items(
                        active.map_values(
                            |id: Seq<char>|
                                if is_id_text(id) {
                                    id
                                } else {
                                    escaped_text(id)
                                },
                        ),
                    ) + "]"@),
                })
            },
{
    reveal_strlit("[");
    reveal_strlit("]");
    let active = choose|active: Seq<Seq<char>>|
        {
            &&& #[trigger] lists_keys(active, state.clients)
            &&& reply == (HttpReplyView::Plain {
                status: 404,
                text: tunnel_not_found(client_id, debug_list(active)),
            })
        };
    let shown = active.map_values(
        |id: Seq<char>|
            if is_id_text(id) {
                id
            } else {
                escaped_text(id)
            },
    );
    assert(active.map_values(|text: Seq<char>| shown_text(text)) =~= shown);
    assert(debug_list(active) =~= "["@ + quoted_items(shown) + "]"@);
    assert(lists_keys(active, state.clients));
}

/// The text for a client that has no tunnel names the client and the list.
pub proof fn law_not_found_text(client_id: Seq<char>, active: Seq<char>)
    ensures
        tunnel_not_found(client_id, active) == "Tunnel not found for ID: "@ + client_id
            + ". Active: "@ + active,
{
}

/// At the start there are no clients, and no requests wait.
pub proof fn law_empty_state<C, P>(key: Seq<char>)
    ensures
        !AppStateView::<C, P>::empty().clients.contains_key(key),
        !AppStateView::<C, P>::empty().pending.contains_key(key),
{
}

/// Connecting a client puts it under its identifier and changes nothing else; disconnecting one
/// takes its identifier out and changes nothing else.
pub proof fn law_clients_change<C, P>(
    state: AppStateView<C, P>,
    client_id: Seq<char>,
    client: C,
    key: Seq<char>,
)
    ensures
        ({
            let after = state.connected(client_id, client);
            &&& after.clients.contains_key(key) <==> key == client_id || state.clients.contains_key(key)
            &&& after.clients[client_id] == client
            &&& key != client_id ==> after.clients[key] == state.clients[key]
            &&& after.pending == state.pending
        }),
        ({
            let after = state.disconnected(client_id);
            &&& after.clients.contains_key(key) <==> key != client_id && state.clients.contains_key(key)
            &&& after.clients.contains_key(key) ==> after.clients[key] == state.clients[key]
            &&& after.pending == state.pending
        }),
{
}

/// Opening a request puts its caller under its identifier and changes nothing else; closing one
/// takes its identifier out and changes nothing else.
pub proof fn law_requests_change<C, P>(
    state: AppStateView<C, P>,
    request_id: Seq<char>,
    reply_to: P,
    key: Seq<char>,
)
    ensures
        ({
            let after = state.opened(request_id, reply_to);
            &&& after.pending.contains_key(key) <==> key == request_id
                || state.pending.contains_key(key)
            &&& after.pending[request_id] == reply_to
            &&& key != request_id ==> after.pending[key] == state.pending[key]
            &&& after.clients == state.clients
        }),
        ({
            let after = state.closed(request_id);
            &&& after.pending.contains_key(key) <==> key != request_id
                && state.pending.contains_key(key)
            &&& after.pending.contains_key(key) ==> after.pending[key] == state.pending[key]
            &&& after.clients == state.clients
        }),
{
}

/// A response, whatever it holds, is delivered as it is to the caller that waits for it, and to
/// nobody if none waits. No other event delivers anything.
pub proof fn law_delivery<C, P>(
    state: AppStateView<C, P>,
    response: TunnelResponseView,
    event: SocketEventView,
)
    ensures
        ({
            let message = TunnelMessageView::Response(response);
            let sent = SocketEventView::Message(message);
            &&& state.pending.contains_key(response.request_id) ==> {
                &&& state.delivery(sent) == Some((state.pending[response.request_id], response))
                &&& state.answers(message) == Some(state.pending[response.request_id])
            }
            &&& !state.pending.contains_key(response.request_id) ==> {
                &&& state.delivery(sent) is None
                &&& state.answers(message) is None
            }
        }),
        state.delivery(event) is Some ==> (event matches SocketEventView::Message(
            TunnelMessageView::Response(_),
        )),
        event matches SocketEventView::Message(message) ==> (message !is Response
            ==> state.answers(message) is None),
{
}

/// A response takes its request, and nothing else, out of those that wait. The end of a connection
/// takes its client, and nothing else, out of the clients. Nothing else changes the state.
pub proof fn law_events_change_state<C, P>(
    state: AppStateView<C, P>,
    client_id: Seq<char>,
    event: SocketEventView,
)
    ensures
        ({
            let after = state.after_event(client_id, event);
            match event {
                SocketEventView::Message(TunnelMessageView::Response(response)) => {
                    &&& after.clients == state.clients
                    &&& after.pending == state.pending.remove(response.request_id)
                },
                SocketEventView::Ended => {
                    &&& after.clients == state.clients.remove(client_id)
                    &&& after.pending == state.pending
                },
                _ => after == state,
            }
        }),
        event matches SocketEventView::Message(message) ==> state.after_message(message)
            == state.after_event(client_id, event),
{
}

/// Settling a request that was answered changes nothing; settling one that was not takes it, and
/// nothing else, out of those that wait.
pub proof fn law_settling_changes_state<C, P>(
    state: AppStateView<C, P>,
    request_id: Seq<char>,
    response: TunnelResponseView,
)
    ensures
        state.settled(request_id, Some(response)) == state,
        state.settled(request_id, None).clients == state.clients,
        state.settled(request_id, None).pending == state.pending.remove(request_id),
{
}

/// The answer of the local server, if its body has 5 MB at most, comes to the caller who asked: the
/// status, the body byte for byte, and under each name that the local server used, and did not use
/// again behind it, the text of its value, unless the name is one of six. No other header comes.
pub proof fn law_answer_reaches_caller<C, P>(
    state: AppStateView<C, P>,
    request_id: Seq<char>,
    reply_to: P,
    status: u16,
    headers: Seq<(Seq<char>, Seq<u8>)>,
    body: Seq<u8>,
    i: int,
    name: Seq<char>,
)
    requires
        body.len() <= 5_242_880,
    ensures
        ({
            let waiting = state.opened(request_id, reply_to);
            let sent = tunnel_response(
                request_id,
                LocalOutcomeView::Answered { status, headers, body },
            );
            &&& waiting.delivery(SocketEventView::Message(TunnelMessageView::Response(sent))) matches Some(
                (caller, response),
            )
            &&& caller == reply_to
            &&& settled_reply(Some(response)) matches HttpReplyView::Relayed {
                status: s,
                headers: h,
                body: b,
            }
            &&& s == status
            &&& b == body
            &&& (0 <= i < headers.len() && (forall|j: int|
                i < j < headers.len() ==> (#[trigger] headers[j]).0 != headers[i].0)) ==> {
                let sent_name = headers[i].0;
                &&& h.contains_key(sent_name) <==> {
                    &&& !is_called(sent_name, "connection"@)
                    &&& !is_called(sent_name, "upgrade"@)
                    &&& !is_called(sent_name, "content-length"@)
                    &&& !is_called(sent_name, "transfer-encoding"@)
                    &&& !is_called(sent_name, "server"@)
                    &&& !is_called(sent_name, "date"@)
                }
                &&& h.contains_key(sent_name) ==> h[sent_name] == value_text(headers[i].1)
            }
            &&& (forall|j: int| 0 <= j < headers.len() ==> (#[trigger] headers[j]).0 != name)
                ==> !h.contains_key(name)
        }),
{
    law_response_returns(request_id, status, headers, body);
    if 0 <= i < headers.len() && forall|j: int|
        i < j < headers.len() ==> (#[trigger] headers[j]).0 != headers[i].0 {
        law_header_is_relayed(headers, i);
    }
    if forall|j: int| 0 <= j < headers.len() ==> (#[trigger] headers[j]).0 != name {
        law_no_header_is_made_up_for_responses(headers, name);
    }
}

} // verus!
