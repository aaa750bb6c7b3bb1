//! Laws of the client: what it asks of the local server, what it shows, and what it tells the
//! relay.

use vstd::prelude::*;
use vstd::utf8::*;

use crate::agent::{
    forwarded_method, is_method, is_method_char, local_address, local_request, local_url,
    tunnel_response, ActionView, AppView, EventView, LocalOutcomeView,
};
use crate::base64_text::{base64_text, lemma_base64_round_trip};
use crate::headers::{answered_headers, value_text};
use crate::laws::headers::{
    is_called, law_forwarded_headers, law_header_is_tunnelled,
    law_no_header_is_made_up_for_requests,
};
use crate::laws::law_request_arrives;
use crate::laws::text::{digits_value, is_number_text, law_decimal, law_decimal_is_unique};
use crate::message::{encoded_body, TunnelMessageView, TunnelRequestView};
use crate::relay::{tunnel_request, IncomingRequestView};
use crate::text::decimal;

verus! {

/// A character of the signs that a request method may hold besides letters and digits.
pub open spec fn is_method_sign(c: char) -> bool {
    "!#$%&'*+-.^_`|~"@.contains(c)
}

/// A method goes to the local server as it is if it has a character, and each is an ASCII letter,
/// an ASCII digit or one of fifteen signs. In place of any other goes `GET`.
pub proof fn law_forwarded_method(name: Seq<char>)
    ensures
        ({
            let good = name.len() > 0 && forall|i: int|
                0 <= i < name.len() ==> {
                    let c = #[trigger] name[i] as int;
                    48 <= c <= 57 || 65 <= c <= 90 || 97 <= c <= 122 || is_method_sign(name[i])
                };
            &&& good ==> forwarded_method(name) == name
            &&& !good ==> forwarded_method(name) == "GET"@
        }),
{
    reveal_strlit("!#$%&'*+-.^_`|~");
    let signs = "!#$%&'*+-.^_`|~"@;
    assert forall|c: char| #[trigger] is_method_char(c) <==> (48 <= c as int <= 57 || 65 <= c as int
        <= 90 || 97 <= c as int <= 122 || is_method_sign(c)) by {
        assert(signs.len() == 15);
        assert(signs[0] == '!' && signs[1] == '#' && signs[2] == '$' && signs[3] == '%' && signs[4]
            == '&' && signs[5] == '\'' && signs[6] == '*' && signs[7] == '+' && signs[8] == '-'
            && signs[9] == '.' && signs[10] == '^' && signs[11] == '_' && signs[12] == '`'
            && signs[13] == '|' && signs[14] == '~');
    }
    if is_method(name) {
        assert forall|i: int| 0 <= i < name.len() implies ({
            let c = #[trigger] name[i] as int;
            48 <= c <= 57 || 65 <= c <= 90 || 97 <= c <= 122 || is_method_sign(name[i])
        }) by {
            assert(is_method_char(name[i]));
        }
    } else if name.len() > 0 {
        let i = choose|i: int| 0 <= i < name.len() && !is_method_char(#[trigger] name[i]);
        assert(!is_method_char(name[i]));
    }
}

/// The local server is shown at, and asked at, the port in decimal, whatever port and path.
pub proof fn law_local_url(port: u16, path: Seq<char>, digits: Seq<char>)
    requires
        is_number_text(digits),
        digits_value(digits) == port,
    ensures
        local_address(port) == "http://localhost:"@ + digits,
        local_url(port, path) == "http://127.0.0.1:"@ + digits + "/"@ + path,
{
    law_decimal_is_unique(port as nat, digits);
}

/// For each port there is a text of digits that stands for it, and the addresses hold it.
pub proof fn law_local_url_has_port(port: u16, path: Seq<char>)
    ensures
        is_number_text(decimal(port as nat)),
        digits_value(decimal(port as nat)) == port,
        local_address(port) == "http://localhost:"@ + decimal(port as nat),
        local_url(port, path) == "http://127.0.0.1:"@ + decimal(port as nat) + "/"@ + path,
{
    law_decimal(port as nat);
    if port == 0 {
        reveal_strlit("0");
        assert("0"@.len() == 1);
    }
}

/// Different ports or paths have different addresses.
pub proof fn law_local_urls_differ(port: u16, path: Seq<char>, other: u16, other_path: Seq<char>)
    requires
        local_url(port, path) == local_url(other, other_path),
    ensures
        port == other,
        path == other_path,
{
    let base = "http://127.0.0.1:"@.len() as int;
    let a = decimal(port as nat);
    let b = decimal(other as nat);
    law_decimal(port as nat);
    law_decimal(other as nat);
    reveal_strlit("/");
    assert("/"@.len() == 1 && "/"@[0] == '/');
    let left = a + "/"@ + path;
    let right = b + "/"@ + other_path;
    assert(left =~= local_url(port, path).skip(base));
    assert(right =~= local_url(other, other_path).skip(base));
    assert(left[a.len() as int] == '/');
    assert(right[b.len() as int] == '/');
    if a.len() < b.len() {
        assert(right[a.len() as int] == b[a.len() as int]);
    }
    if b.len() < a.len() {
        assert(left[b.len() as int] == a[b.len() as int]);
    }
    assert(a =~= left.take(a.len() as int));
    assert(b =~= right.take(b.len() as int));
    assert(path =~= left.skip(a.len() as int + 1));
    assert(other_path =~= right.skip(b.len() as int + 1));
}

/// Before it is connected, a client shows that it is connecting, no address and no traffic.
pub proof fn law_initial(port: u16)
    ensures
        AppView::initial(port).port == port,
        AppView::initial(port).status == "Connecting..."@,
        AppView::initial(port).public_url == "Pending..."@,
        AppView::initial(port).requests.len() == 0,
{
}

/// What a client shows changes with two kinds of messages only: with its address, whatever it is,
/// and with a request, whatever it is, which puts its line in front of the traffic list.
pub proof fn law_after(app: AppView, url: Seq<char>, request: TunnelRequestView, event: EventView)
    ensures
        ({
            let after = app.after(EventView::Message(TunnelMessageView::Ready { url }));
            &&& after.port == app.port
            &&& after.status == "Active"@
            &&& after.public_url == url
            &&& after.requests == app.requests
        }),
        ({
            let after = app.after(EventView::Message(TunnelMessageView::Request(request)));
            &&& after.port == app.port
            &&& after.status == app.status
            &&& after.public_url == app.public_url
            &&& after.requests.len() == app.requests.len() + 1
            &&& after.requests[0] == request.method + " /"@ + request.path
            &&& forall|i: int|
                0 <= i < app.requests.len() ==> after.requests[i + 1] == #[trigger] app.requests[i]
        }),
        !(event matches EventView::Message(TunnelMessageView::Ready { url: _ })) && !(
        event matches EventView::Message(TunnelMessageView::Request(_))) ==> app.after(event) == app,
{
}

/// Every request, whatever it holds, is forwarded to the local server: under its identifier, to its
/// path, with each header but the host header, and with the bytes of which its body is the Base64
/// text, none if it is the Base64 text of none, and no body if it has none.
pub proof fn law_request_is_forwarded(
    app: AppView,
    request: TunnelRequestView,
    headless: bool,
    name: Seq<char>,
    bytes: Seq<u8>,
)
    ensures
        ({
            let event = EventView::Message(TunnelMessageView::Request(request));
            &&& app.action(event, headless) matches ActionView::Forward(local)
            &&& local == local_request(app.port, request)
            &&& local.request_id == request.id
            &&& local.method == forwarded_method(request.method)
            &&& local.url == "http://127.0.0.1:"@ + decimal(app.port as nat) + "/"@ + request.path
            &&& local.headers.contains_key(name) <==> request.headers.contains_key(name)
                && !is_called(name, "host"@)
            &&& local.headers.contains_key(name) ==> local.headers[name] == request.headers[name]
            &&& local.body is None <==> request.body is None
            &&& request.body == Some(base64_text(bytes)) ==> local.body == Some(bytes)
            &&& request.body is Some && (forall|b: Seq<u8>|
                request.body != Some(#[trigger] base64_text(b))) ==> local.body == Some(
                Seq::<u8>::empty(),
            )
        }),
{
    law_forwarded_headers(request.headers, name);
    lemma_base64_round_trip(bytes);
}

/// A client forwards for a request and for no other event, and stops, or waits for the next event,
/// as it otherwise has to.
pub proof fn law_action(app: AppView, event: EventView, headless: bool)
    ensures
        app.action(event, headless) is Forward <==> (event matches EventView::Message(
            TunnelMessageView::Request(_),
        )),
        app.action(event, headless) is Quit <==> {
            ||| event is Ended
            ||| event == EventView::Key(Some('q'))
            ||| event is Idle && !headless
        },
{
}

/// What a caller asks of the relay the client forwards, whatever it is: the method, if it is one,
/// the path, the body byte for byte or none if it is empty, and under each name that the caller
/// used, and did not use again behind it, the text of its value, unless the name is one of six. No
/// other header is forwarded.
pub proof fn law_incoming_request_is_forwarded(
    app: AppView,
    request_id: Seq<char>,
    incoming: IncomingRequestView,
    headless: bool,
    i: int,
    name: Seq<char>,
)
    ensures
        ({
            let message = TunnelMessageView::Request(tunnel_request(request_id, incoming));
            &&& app.action(EventView::Message(message), headless) matches ActionView::Forward(local)
            &&& local.request_id == request_id
            &&& local.method == forwarded_method(incoming.method)
            &&& incoming.path matches Some(path) ==> local.url == "http://127.0.0.1:"@ + decimal(
                app.port as nat,
            ) + "/"@ + path
            &&& incoming.path is None ==> local.url == "http://127.0.0.1:"@ + decimal(
                app.port as nat,
            ) + "/"@
            &&& incoming.body.len() == 0 ==> local.body is None
            &&& incoming.body.len() > 0 ==> local.body == Some(incoming.body)
            &&& (0 <= i < incoming.headers.len() && (forall|j: int|
                i < j < incoming.headers.len() ==> (#[trigger] incoming.headers[j]).0
                    != incoming.headers[i].0)) ==> {
                let sent = incoming.headers[i].0;
                &&& local.headers.contains_key(sent) <==> {
                    &&& !is_called(sent, "host"@)
                    &&& !is_called(sent, "x-portal-auth"@)
                    &&& !is_called(sent, "connection"@)
                    &&& !is_called(sent, "upgrade"@)
                    &&& !is_called(sent, "proxy-connection"@)
                    &&& !is_called(sent, "proxy-authorization"@)
                }
                &&& local.headers.contains_key(sent) ==> local.headers[sent] == value_text(
                    incoming.headers[i].1,
                )
            }
            &&& (forall|j: int|
                0 <= j < incoming.headers.len() ==> (#[trigger] incoming.headers[j]).0 != name)
                ==> !local.headers.contains_key(name)
        }),
{
    law_request_arrives(app.port, request_id, incoming);
    if 0 <= i < incoming.headers.len() && forall|j: int|
        i < j < incoming.headers.len() ==> (#[trigger] incoming.headers[j]).0
            != incoming.headers[i].0 {
        law_header_is_tunnelled(incoming.headers, i);
    }
    if forall|j: int|
        0 <= j < incoming.headers.len() ==> (#[trigger] incoming.headers[j]).0 != name {
        law_no_header_is_made_up_for_requests(incoming.headers, name);
    }
    if incoming.path is None {
        let url = "http://127.0.0.1:"@ + decimal(app.port as nat) + "/"@;
        assert(url + Seq::<char>::empty() =~= url);
    }
}

/// What the relay is told of an answer of at most 5 MB: its status, its headers and its body.
pub proof fn law_answer_is_told(
    request_id: Seq<char>,
    status: u16,
    headers: Seq<(Seq<char>, Seq<u8>)>,
    body: Seq<u8>,
)
    requires
        body.len() <= 5_242_880,
    ensures
        ({
            let told = tunnel_response(
                request_id,
                LocalOutcomeView::Answered { status, headers, body },
            );
            &&& told.request_id == request_id
            &&& told.status == status
            &&& told.headers == answered_headers(headers)
            &&& body.len() == 0 ==> told.body is None
            &&& body.len() > 0 ==> told.body == Some(base64_text(body))
        }),
{
}

/// What the relay is told of an answer of more than 5 MB, and of none: status 413 and the size, and
/// status 502 and the reason.
pub proof fn law_errors_are_told(
    request_id: Seq<char>,
    status: u16,
    headers: Seq<(Seq<char>, Seq<u8>)>,
    body: Seq<u8>,
    reason: Seq<char>,
    digits: Seq<char>,
)
    requires
        body.len() > 5_242_880,
        is_number_text(digits),
        digits_value(digits) == body.len(),
    ensures
        ({
            let told = tunnel_response(
                request_id,
                LocalOutcomeView::Answered { status, headers, body },
            );
            &&& told.request_id == request_id
            &&& told.status == 413
            &&& told.headers == Map::<Seq<char>, Seq<char>>::empty()
            &&& told.body == encoded_body(
                encode_utf8(
                    "{\"error\": \"Response body too large: "@ + digits
                        + " bytes (limit 5MB)\"}"@,
                ),
            )
        }),
        ({
            let told = tunnel_response(request_id, LocalOutcomeView::Failed(reason));
            &&& told.request_id == request_id
            &&& told.status == 502
            &&& told.headers == Map::<Seq<char>, Seq<char>>::empty()
            &&& told.body == encoded_body(
                encode_utf8("{\"error\": \"Local server unreachable: "@ + reason + "\"}"@),
            )
        }),
{
    law_decimal_is_unique(body.len(), digits);
}

} // verus!
