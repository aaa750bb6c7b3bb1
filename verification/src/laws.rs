//! What holds of the tunnel as a whole, across calls and across its two ends.

pub mod agent;
pub mod headers;
pub mod relay;
pub mod text;
pub mod views;

use vstd::prelude::*;
use vstd::utf8::*;

use crate::agent::{
    is_method, local_request, local_url, too_large_text, tunnel_response, unreachable_text, AppView,
    EventView, LocalOutcomeView, LocalRequestView,
};
use crate::base64_text::{base64_bytes, base64_len, base64_text, lemma_base64_round_trip};
use crate::headers::{
    answered_headers, ascii_chars, collected, forwarded_headers, is_text_value, names_host,
    relayed_headers, safe_in_request, safe_in_response, tunnelled_headers, value_text,
};
use crate::ident::{is_id_text, CLIENT_ID_LEN};
use crate::message::{body_bytes, encoded_body, TunnelMessageView, TunnelResponseView};
use crate::relay::{
    settled_reply, shows_token, text_or_empty, tunnel_not_found, tunnel_request, tunnel_url,
    AppStateView, HttpReplyView, IncomingRequestView, SocketEventView, MAX_BODY_SIZE,
    MAX_MESSAGE_SIZE,
};
use crate::table::lists_keys;
use crate::text::{ascii_lowercase, debug_list, lowercase, quoted_items, shown_text};

verus! {

/// Decoding the body that stands for some bytes gives those bytes back.
pub proof fn law_body_round_trip(bytes: Seq<u8>)
    ensures
        body_bytes(encoded_body(bytes)) == bytes,
{
    if bytes.len() > 0 {
        lemma_base64_round_trip(bytes);
    } else {
        assert(bytes =~= Seq::empty());
    }
}

/// A client is sent no body if the caller sent none, and else the body as Base64, which stands for
/// what the caller sent, byte for byte.
pub proof fn law_request_body(request_id: Seq<char>, incoming: IncomingRequestView)
    ensures
        ({
            let body = tunnel_request(request_id, incoming).body;
            &&& body is None <==> incoming.body.len() == 0
            &&& incoming.body.len() > 0 ==> body == Some(base64_text(incoming.body))
            &&& body_bytes(body) == incoming.body
        }),
{
    law_body_round_trip(incoming.body);
}

/// The body of every response that a client sends is Base64, or there is none.
pub proof fn law_response_body_is_base64(request_id: Seq<char>, outcome: LocalOutcomeView)
    ensures
        tunnel_response(request_id, outcome).body matches Some(text) ==> base64_bytes(text) is Some,
{
    match outcome {
        LocalOutcomeView::Answered { status, headers, body } => {
            lemma_base64_round_trip(body);
            lemma_base64_round_trip(encode_utf8(too_large_text(body.len())));
        },
        LocalOutcomeView::Failed(reason) => {
            lemma_base64_round_trip(encode_utf8(unreachable_text(reason)));
        },
    }
}

/// The caller gets the status and the body of the local server's answer, and the headers that are
/// safe in a response, if the body is within the limit.
pub proof fn law_response_returns(
    request_id: Seq<char>,
    status: u16,
    headers: Seq<(Seq<char>, Seq<u8>)>,
    body: Seq<u8>,
)
    requires
        body.len() <= MAX_BODY_SIZE,
    ensures
        settled_reply(
            Some(tunnel_response(request_id, LocalOutcomeView::Answered { status, headers, body })),
        ) == (HttpReplyView::Relayed {
            status,
            headers: relayed_headers(answered_headers(headers)),
            body,
        }),
{
    law_body_round_trip(body);
}

/// No headers, filtered, are no headers.
proof fn lemma_no_headers()
    ensures
        relayed_headers(Map::empty()) == Map::<Seq<char>, Seq<char>>::empty(),
{
    assert(relayed_headers(Map::empty()) =~= Map::<Seq<char>, Seq<char>>::empty());
}

/// The caller gets status 413 without headers, and is told the size, if the local server's answer
/// has a body beyond the limit.
pub proof fn law_too_large_is_refused(
    request_id: Seq<char>,
    status: u16,
    headers: Seq<(Seq<char>, Seq<u8>)>,
    body: Seq<u8>,
)
    requires
        body.len() > MAX_BODY_SIZE,
    ensures
        settled_reply(
            Some(tunnel_response(request_id, LocalOutcomeView::Answered { status, headers, body })),
        ) == (HttpReplyView::Relayed {
            status: 413,
            headers: Map::empty(),
            body: encode_utf8(too_large_text(body.len())),
        }),
{
    law_body_round_trip(encode_utf8(too_large_text(body.len())));
    lemma_no_headers();
}

/// The caller gets status 502 without headers, and is told the reason, if the local server did not
/// answer.
pub proof fn law_unreachable_is_reported(request_id: Seq<char>, reason: Seq<char>)
    ensures
        settled_reply(Some(tunnel_response(request_id, LocalOutcomeView::Failed(reason)))) == (
        HttpReplyView::Relayed {
            status: 502,
            headers: Map::empty(),
            body: encode_utf8(unreachable_text(reason)),
        }),
{
    law_body_round_trip(encode_utf8(unreachable_text(reason)));
    lemma_no_headers();
}

/// A body within the limit, as Base64, takes less than a message may hold.
pub proof fn law_body_fits_message(bytes: Seq<u8>)
    requires
        bytes.len() <= MAX_BODY_SIZE,
    ensures
        encoded_body(bytes) matches Some(text) ==> {
            &&& text.len() == base64_len(bytes.len() as int)
            &&& text.len() < MAX_MESSAGE_SIZE
        },
{
}

/// The value of the last of the headers that has the name `name`, if one has it.
pub open spec fn last_value(raw: Seq<(Seq<char>, Seq<u8>)>, name: Seq<char>) -> Option<Seq<u8>>
    decreases raw.len(),
{
    if raw.len() == 0 {
        None
    } else if raw.last().0 == name {
        Some(raw.last().1)
    } else {
        last_value(raw.drop_last(), name)
    }
}

/// The table that raw headers make holds the names that are kept and that some header has, each
/// with the text of its last value.
pub proof fn lemma_collected(
    raw: Seq<(Seq<char>, Seq<u8>)>,
    keep: spec_fn(Seq<char>) -> bool,
    name: Seq<char>,
)
    ensures
        collected(raw, keep).contains_key(name) <==> keep(name) && last_value(raw, name) is Some,
        collected(raw, keep).contains_key(name) ==> collected(raw, keep)[name] == value_text(
            last_value(raw, name)->0,
        ),
    decreases raw.len(),
{
    if raw.len() > 0 {
        lemma_collected(raw.drop_last(), keep, name);
    }
}

/// A header goes into the tunnel if and only if the caller sent it and it is safe in a request.
/// Of a header that was sent more than once, the last value goes.
pub proof fn law_request_headers(raw: Seq<(Seq<char>, Seq<u8>)>, name: Seq<char>)
    ensures
        tunnelled_headers(raw).contains_key(name) <==> safe_in_request(name) && last_value(
            raw,
            name,
        ) is Some,
        tunnelled_headers(raw).contains_key(name) ==> tunnelled_headers(raw)[name] == value_text(
            last_value(raw, name)->0,
        ),
{
    lemma_collected(raw, |n: Seq<char>| safe_in_request(n), name);
}

/// A header reaches the caller if and only if the local server sent it and it is safe in a
/// response. Of a header that was sent more than once, the last value does.
pub proof fn law_response_headers(raw: Seq<(Seq<char>, Seq<u8>)>, name: Seq<char>)
    ensures
        ({
            let reached = relayed_headers(answered_headers(raw));
            &&& reached.contains_key(name) <==> safe_in_response(name) && last_value(raw, name) is Some
            &&& reached.contains_key(name) ==> reached[name] == value_text(last_value(raw, name)->0)
        }),
{
    lemma_collected(raw, |n: Seq<char>| true, name);
}

/// The client forwards every header that the relay put into a request.
pub proof fn law_request_headers_arrive(raw: Seq<(Seq<char>, Seq<u8>)>)
    ensures
        forwarded_headers(tunnelled_headers(raw)) == tunnelled_headers(raw),
{
    assert forall|name: Seq<char>| tunnelled_headers(raw).contains_key(name) implies !names_host(
        name,
    ) by {
        law_request_headers(raw, name);
    }
    assert(forwarded_headers(tunnelled_headers(raw)) =~= tunnelled_headers(raw));
}

/// The local server is asked what the caller asked: for the path, with the headers that are safe
/// in a request, and with the body byte for byte, or without one if it was empty. The method is
/// the caller's, if it is one.
pub proof fn law_request_arrives(port: u16, request_id: Seq<char>, incoming: IncomingRequestView)
    ensures
        local_request(port, tunnel_request(request_id, incoming)) == (LocalRequestView {
            request_id,
            method: (if is_method(incoming.method) {
                incoming.method
            } else {
                "GET"@
            }),
            url: local_url(port, text_or_empty(incoming.path)),
            headers: tunnelled_headers(incoming.headers),
            body: (if incoming.body.len() == 0 {
                None
            } else {
                Some(incoming.body)
            }),
        }),
{
    law_body_round_trip(incoming.body);
    law_request_headers_arrive(incoming.headers);
}

/// The token of a client, under whatever case of its header's name, goes into no request.
pub proof fn law_token_stays_out(raw: Seq<(Seq<char>, Seq<u8>)>, name: Seq<char>)
    requires
        is_ascii_chars(name),
        ascii_lowercase(name) == "x-portal-auth"@,
    ensures
        !tunnelled_headers(raw).contains_key(name),
{
    law_request_headers(raw, name);
}

/// The case of ASCII header names makes no difference to what may pass.
pub proof fn law_header_case(a: Seq<char>, b: Seq<char>)
    requires
        is_ascii_chars(a),
        is_ascii_chars(b),
        ascii_lowercase(a) == ascii_lowercase(b),
    ensures
        safe_in_request(a) == safe_in_request(b),
        safe_in_response(a) == safe_in_response(b),
        names_host(a) == names_host(b),
{
}

/// Two header names stay out of requests and of responses alike: those of the connection and of
/// its upgrade.
pub proof fn law_blocked_both_ways(name: Seq<char>)
    ensures
        !safe_in_request(name) && !safe_in_response(name) <==> lowercase(name) == "connection"@
            || lowercase(name) == "upgrade"@,
        is_ascii_chars(name) ==> (!safe_in_request(name) && !safe_in_response(name)
            <==> ascii_lowercase(name) == "connection"@ || ascii_lowercase(name) == "upgrade"@),
{
    reveal_strlit("host");
    reveal_strlit("x-portal-auth");
    reveal_strlit("proxy-connection");
    reveal_strlit("proxy-authorization");
    reveal_strlit("content-length");
    reveal_strlit("transfer-encoding");
    reveal_strlit("server");
    reveal_strlit("date");
    // The other blocked names of requests and of responses differ in length, but for two.
    assert("host"@[0] != "date"@[0]);
    assert("host"@.len() == 4 && "x-portal-auth"@.len() == 13 && "proxy-connection"@.len() == 16
        && "proxy-authorization"@.len() == 19);
    assert("date"@.len() == 4 && "server"@.len() == 6 && "content-length"@.len() == 14
        && "transfer-encoding"@.len() == 17);
}

/// One value at most is admitted as a token.
pub proof fn law_token_is_unique(a: Seq<u8>, b: Seq<u8>, token: Seq<char>)
    requires
        shows_token(Some(a), token),
        shows_token(Some(b), token),
    ensures
        a == b,
{
    assert(ascii_chars(a).len() == ascii_chars(b).len());
    assert forall|i: int| 0 <= i < a.len() implies #[trigger] a[i] == b[i] by {
        assert(ascii_chars(a)[i] == ascii_chars(b)[i]);
        assert(a[i] as char == b[i] as char);
    }
    assert(a =~= b);
}

/// A client that shows the token is admitted, if the token can be written in a header.
pub proof fn law_token_is_admitted(token: Seq<u8>)
    requires
        is_text_value(token),
    ensures
        shows_token(Some(token), ascii_chars(token)),
{
}

/// Whatever came of a request, the response goes to the caller that waits for it, and the request
/// waits no longer. If its identifier was new, the state is then what it was before the request.
pub proof fn law_response_finds_caller<C, P>(
    state: AppStateView<C, P>,
    request_id: Seq<char>,
    reply_to: P,
    outcome: LocalOutcomeView,
)
    ensures
        ({
            let waiting = state.opened(request_id, reply_to);
            let message = TunnelMessageView::Response(tunnel_response(request_id, outcome));
            &&& waiting.answers(message) == Some(reply_to)
            &&& !waiting.after_message(message).pending.contains_key(request_id)
            &&& !state.pending.contains_key(request_id) ==> waiting.after_message(message) == state
        }),
{
    let waiting = state.opened(request_id, reply_to);
    let message = TunnelMessageView::Response(tunnel_response(request_id, outcome));
    if !state.pending.contains_key(request_id) {
        assert(waiting.after_message(message) =~= state);
    }
}

/// A request is answered once: a second response to it finds no caller and changes nothing.
pub proof fn law_answered_once<C, P>(
    state: AppStateView<C, P>,
    first: TunnelResponseView,
    second: TunnelResponseView,
)
    requires
        first.request_id == second.request_id,
    ensures
        ({
            let answered = state.after_message(TunnelMessageView::Response(first));
            &&& answered.answers(TunnelMessageView::Response(second)) is None
            &&& answered.after_message(TunnelMessageView::Response(second)) == answered
        }),
{
    let answered = state.after_message(TunnelMessageView::Response(first));
    assert(answered.after_message(TunnelMessageView::Response(second)) =~= answered);
}

/// A response that comes after the timeout finds no caller and changes nothing. If the identifier
/// of the request was new, the timeout leaves the state as it was before the request.
pub proof fn law_late_response_is_dropped<C, P>(
    state: AppStateView<C, P>,
    request_id: Seq<char>,
    reply_to: P,
    late: TunnelResponseView,
)
    requires
        late.request_id == request_id,
    ensures
        ({
            let timed_out = state.opened(request_id, reply_to).settled(request_id, None);
            &&& timed_out.answers(TunnelMessageView::Response(late)) is None
            &&& timed_out.after_message(TunnelMessageView::Response(late)) == timed_out
            &&& !state.pending.contains_key(request_id) ==> timed_out == state
        }),
{
    let timed_out = state.opened(request_id, reply_to).settled(request_id, None);
    assert(timed_out.after_message(TunnelMessageView::Response(late)) =~= timed_out);
    if !state.pending.contains_key(request_id) {
        assert(timed_out =~= state);
    }
}

/// Requests do not disturb each other: opening one, its response and its timeout leave another
/// waiting, with its caller.
pub proof fn law_requests_are_independent<C, P>(
    state: AppStateView<C, P>,
    one: Seq<char>,
    other: Seq<char>,
    reply_to: P,
    response: TunnelResponseView,
)
    requires
        one != other,
        state.pending.contains_key(other),
        response.request_id == one,
    ensures
        ({
            let opened = state.opened(one, reply_to);
            let answered = opened.after_message(TunnelMessageView::Response(response));
            let timed_out = opened.settled(one, None);
            &&& opened.pending.contains_key(other) && opened.pending[other] == state.pending[other]
            &&& answered.pending.contains_key(other) && answered.pending[other]
                == state.pending[other]
            &&& timed_out.pending.contains_key(other) && timed_out.pending[other]
                == state.pending[other]
        }),
{
}

/// The state once the events from the socket of a client have come, up to the first end.
pub open spec fn served<C, P>(
    state: AppStateView<C, P>,
    client_id: Seq<char>,
    events: Seq<SocketEventView>,
) -> AppStateView<C, P>
    decreases events.len(),
{
    if events.len() == 0 {
        state
    } else if events[0] is Ended {
        state.after_event(client_id, events[0])
    } else {
        served(state.after_event(client_id, events[0]), client_id, events.skip(1))
    }
}

/// The callers that the events from the socket of a client answer, up to the first end, and with
/// what.
pub open spec fn delivered<C, P>(
    state: AppStateView<C, P>,
    client_id: Seq<char>,
    events: Seq<SocketEventView>,
) -> Seq<(P, TunnelResponseView)>
    decreases events.len(),
{
    if events.len() == 0 || events[0] is Ended {
        Seq::empty()
    } else {
        let rest = delivered(state.after_event(client_id, events[0]), client_id, events.skip(1));
        match state.delivery(events[0]) {
            Some(answer) => seq![answer] + rest,
            None => rest,
        }
    }
}

/// A frame that is not text, text that is no message, or a message that answers no request that
/// waits, changes nothing: with it and without it, the same requests wait, the same clients are
/// connected, and the same callers get the same responses. It does not end the connection.
pub proof fn law_stray_events_are_ignored<C, P>(
    state: AppStateView<C, P>,
    client_id: Seq<char>,
    before: Seq<SocketEventView>,
    stray: SocketEventView,
    after: Seq<SocketEventView>,
)
    requires
        stray !is Ended,
        served(state, client_id, before).delivery(stray) is None,
    ensures
        served(state, client_id, before + seq![stray] + after) == served(
            state,
            client_id,
            before + after,
        ),
        delivered(state, client_id, before + seq![stray] + after) == delivered(
            state,
            client_id,
            before + after,
        ),
    decreases before.len(),
{
    let with = before + seq![stray] + after;
    let without = before + after;
    if before.len() == 0 {
        assert(with.skip(1) =~= after);
        assert(without =~= after);
        assert(state.after_event(client_id, stray) =~= state);
    } else if before[0] !is Ended {
        let rest = before.skip(1);
        law_stray_events_are_ignored(
            state.after_event(client_id, before[0]),
            client_id,
            rest,
            stray,
            after,
        );
        assert(with.skip(1) =~= rest + seq![stray] + after);
        assert(without.skip(1) =~= rest + after);
    }
}

/// Some event is a response to the request `request_id`.
pub open spec fn responds(events: Seq<SocketEventView>, request_id: Seq<char>) -> bool {
    exists|i: int|
        0 <= i < events.len() && is_response_to(#[trigger] events[i], request_id)
}

/// An event is a response to the request `request_id`.
pub open spec fn is_response_to(event: SocketEventView, request_id: Seq<char>) -> bool {
    event matches SocketEventView::Message(TunnelMessageView::Response(response))
        && response.request_id == request_id
}

/// Once a client has sent what it sends and has gone, whatever identifier it had, it is no longer
/// among the clients, the others are as they were, and of the requests that waited exactly those
/// that it responded to no longer wait.
pub proof fn law_connection_end<C, P>(
    state: AppStateView<C, P>,
    client_id: Seq<char>,
    events: Seq<SocketEventView>,
)
    requires
        forall|i: int| 0 <= i < events.len() ==> (#[trigger] events[i]) !is Ended,
    ensures
        ({
            let end = served(state, client_id, events + seq![SocketEventView::Ended]);
            &&& end.clients == state.clients.remove(client_id)
            &&& forall|request_id: Seq<char>| #[trigger]
                end.pending.contains_key(request_id) <==> state.pending.contains_key(request_id)
                    && !responds(events, request_id)
            &&& forall|request_id: Seq<char>|
                end.pending.contains_key(request_id) ==> #[trigger] end.pending[request_id]
                    == state.pending[request_id]
        }),
    decreases events.len(),
{
    let all = events + seq![SocketEventView::Ended];
    let end = served(state, client_id, all);
    if events.len() > 0 {
        let rest = events.skip(1);
        let next = state.after_event(client_id, events[0]);
        law_connection_end(next, client_id, rest);
        assert(all.skip(1) =~= rest + seq![SocketEventView::Ended]);
        assert(end == served(next, client_id, all.skip(1)));
        assert forall|request_id: Seq<char>| #[trigger] responds(events, request_id) <==> (
        is_response_to(events[0], request_id) || responds(rest, request_id)) by {
            if responds(rest, request_id) {
                let i = choose|i: int|
                    0 <= i < rest.len() && is_response_to(#[trigger] rest[i], request_id);
                assert(is_response_to(events[i + 1], request_id));
            }
            if responds(events, request_id) {
                let i = choose|i: int|
                    0 <= i < events.len() && is_response_to(#[trigger] events[i], request_id);
                if i > 0 {
                    assert(is_response_to(rest[i - 1], request_id));
                }
            }
        }
    }
}

/// A whole connection: after a client has connected under a new identifier, has sent what it sends,
/// and has gone, the clients are as they were, and of the requests that waited exactly those that
/// it responded to no longer wait.
pub proof fn law_whole_connection<C, P>(
    state: AppStateView<C, P>,
    client_id: Seq<char>,
    client: C,
    events: Seq<SocketEventView>,
)
    requires
        !state.clients.contains_key(client_id),
        forall|i: int| 0 <= i < events.len() ==> (#[trigger] events[i]) !is Ended,
    ensures
        ({
            let end = served(
                state.connected(client_id, client),
                client_id,
                events + seq![SocketEventView::Ended],
            );
            &&& end.clients == state.clients
            &&& forall|request_id: Seq<char>| #[trigger]
                end.pending.contains_key(request_id) <==> state.pending.contains_key(request_id)
                    && !responds(events, request_id)
            &&& forall|request_id: Seq<char>|
                end.pending.contains_key(request_id) ==> #[trigger] end.pending[request_id]
                    == state.pending[request_id]
        }),
{
    law_connection_end(state.connected(client_id, client), client_id, events);
    assert(state.connected(client_id, client).clients.remove(client_id) =~= state.clients);
}

/// Closing a tunnel undoes opening it, if its identifier was new.
pub proof fn law_disconnect_undoes_connect<C, P>(
    state: AppStateView<C, P>,
    client_id: Seq<char>,
    client: C,
)
    requires
        !state.clients.contains_key(client_id),
    ensures
        state.connected(client_id, client).disconnected(client_id) == state,
{
    assert(state.connected(client_id, client).disconnected(client_id) =~= state);
}

/// A client that is connected is found, and no longer once it is gone; other clients stay as they
/// are.
pub proof fn law_clients_are_independent<C, P>(
    state: AppStateView<C, P>,
    client_id: Seq<char>,
    client: C,
    other: Seq<char>,
)
    requires
        client_id != other,
    ensures
        ({
            let connected = state.connected(client_id, client);
            let gone = connected.disconnected(client_id);
            &&& connected.clients.contains_key(client_id) && connected.clients[client_id] == client
            &&& !gone.clients.contains_key(client_id)
            &&& connected.clients.contains_key(other) == state.clients.contains_key(other)
            &&& gone.clients.contains_key(other) == state.clients.contains_key(other)
            &&& state.clients.contains_key(other) ==> connected.clients[other]
                == state.clients[other] && gone.clients[other] == state.clients[other]
        }),
{
}

/// Clients come and go without a change to the requests that wait, and requests come and go
/// without a change to the clients.
pub proof fn law_clients_and_requests_are_apart<C, P>(
    state: AppStateView<C, P>,
    client_id: Seq<char>,
    client: C,
    request_id: Seq<char>,
    reply_to: P,
    message: TunnelMessageView,
    outcome: Option<TunnelResponseView>,
)
    ensures
        state.connected(client_id, client).pending == state.pending,
        state.disconnected(client_id).pending == state.pending,
        state.opened(request_id, reply_to).clients == state.clients,
        state.after_message(message).clients == state.clients,
        state.settled(request_id, outcome).clients == state.clients,
{
}

/// Every client has an identifier as the relay draws them: at the start, and after each step.
pub proof fn law_clients_are_well_named<C, P>(
    state: AppStateView<C, P>,
    client_id: Seq<char>,
    client: C,
    request_id: Seq<char>,
    reply_to: P,
    message: TunnelMessageView,
    outcome: Option<TunnelResponseView>,
)
    requires
        state.well_named(),
        client_id.len() == CLIENT_ID_LEN,
        is_id_text(client_id),
    ensures
        AppStateView::<C, P>::empty().well_named(),
        state.connected(client_id, client).well_named(),
        state.disconnected(client_id).well_named(),
        state.opened(request_id, reply_to).well_named(),
        state.after_message(message).well_named(),
        state.settled(request_id, outcome).well_named(),
{
}

/// A caller who names a client that has no tunnel is told so with status 404, and which clients
/// have one, each once and between quotes.
pub proof fn law_not_found_lists_clients<C, P>(
    state: AppStateView<C, P>,
    client_id: Seq<char>,
    reply: HttpReplyView,
)
    requires
        state.well_named(),
        state.not_found(client_id, reply),
    ensures
        exists|active: Seq<Seq<char>>|
            {
                &&& #[trigger] lists_keys(active, state.clients)
                &&& reply == (HttpReplyView::Plain {
                    status: 404,
                    text: tunnel_not_found(
                        client_id,
                        seq!['['] + quoted_items(active) + seq![']'],
                    ),
                })
            },
{
    let active = choose|active: Seq<Seq<char>>|
        {
            &&& #[trigger] lists_keys(active, state.clients)
            &&& reply == (HttpReplyView::Plain {
                status: 404,
                text: tunnel_not_found(client_id, debug_list(active)),
            })
        };
    assert forall|i: int| 0 <= i < active.len() implies is_id_text(#[trigger] active[i]) by {
        assert(active.contains(active[i]));
    }
    assert(active.map_values(|text: Seq<char>| shown_text(text)) =~= active);
}

/// Different clients have different addresses.
pub proof fn law_addresses_differ(a: Seq<char>, b: Seq<char>)
    requires
        tunnel_url(a) == tunnel_url(b),
    ensures
        a == b,
{
    let base = "http://localhost:3000/tunnel/"@;
    assert(tunnel_url(a).skip(base.len() as int) =~= a);
    assert(tunnel_url(b).skip(base.len() as int) =~= b);
}

/// What a client shows after a run of events.
pub open spec fn run(app: AppView, events: Seq<EventView>) -> AppView
    decreases events.len(),
{
    if events.len() == 0 {
        app
    } else {
        run(app, events.drop_last()).after(events.last())
    }
}

/// How many of the events are requests.
pub open spec fn request_count(events: Seq<EventView>) -> nat
    decreases events.len(),
{
    if events.len() == 0 {
        0
    } else {
        request_count(events.drop_last()) + if events.last() matches EventView::Message(
            TunnelMessageView::Request(_),
        ) {
            1nat
        } else {
            0nat
        }
    }
}

/// Over any run of events the port stays, the traffic list gains one line for each request, in
/// front of the lines that were there, and none is lost.
pub proof fn law_traffic_list_grows(app: AppView, events: Seq<EventView>)
    ensures
        run(app, events).port == app.port,
        run(app, events).requests.len() == app.requests.len() + request_count(events),
        run(app, events).requests.skip(request_count(events) as int) == app.requests,
    decreases events.len(),
{
    if events.len() == 0 {
        assert(app.requests.skip(0) =~= app.requests);
    } else {
        let front = events.drop_last();
        law_traffic_list_grows(app, front);
        let before = run(app, front).requests;
        let after = run(app, events).requests;
        let n = request_count(events) as int;
        if n == request_count(front) {
            assert(after == before);
        } else {
            assert(after.skip(n) =~= before.skip(n - 1));
        }
    }
}

/// A client stops at the end of what the relay sends or at an error, when `q` is pressed, or, if it
/// has a screen, when there is nothing left to wait for, and at nothing else.
pub proof fn law_client_stops(app: AppView, event: EventView, headless: bool)
    ensures
        app.action(event, headless) is Quit <==> {
            ||| event is Ended
            ||| event == EventView::Key(Some('q'))
            ||| event is Idle && !headless
        },
{
}

} // verus!
