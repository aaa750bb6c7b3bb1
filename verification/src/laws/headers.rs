//! Laws of headers: which pass in which direction, and with which value.

use vstd::prelude::*;
use vstd::utf8::*;

use crate::headers::{
    answered_headers, blocks_request_name, blocks_response_name, forwarded_headers, names_host,
    raw_views, relayed_headers, safe_in_request, safe_in_response, tunnelled_headers, value_text,
    RawHeader,
};
use crate::laws::{last_value, law_request_headers, law_response_headers};
use crate::text::{ascii_lowercase, unicode_lowercase};

verus! {

/// A header name is, in lower case, the text `lower`: by ASCII if it is ASCII, and by the Unicode
/// tables otherwise.
pub open spec fn is_called(name: Seq<char>, lower: Seq<char>) -> bool {
    if is_ascii_chars(name) {
        ascii_lowercase(name) == lower
    } else {
        unicode_lowercase(name) == lower
    }
}

/// What an ASCII header name is called in lower case, character by character: the letters `A` to
/// `Z` are moved by 32, and the rest is kept.
pub proof fn law_is_called(name: Seq<char>, lower: Seq<char>)
    requires
        is_ascii_chars(name),
    ensures
        is_called(name, lower) <==> {
            &&& name.len() == lower.len()
            &&& forall|i: int|
                0 <= i < name.len() ==> #[trigger] lower[i] as int == name[i] as int + (if 65
                    <= name[i] as int <= 90 {
                    32int
                } else {
                    0int
                })
        },
{
    let own = ascii_lowercase(name);
    assert forall|i: int| 0 <= i < name.len() implies #[trigger] own[i] as int == name[i] as int + (
    if 65 <= name[i] as int <= 90 {
        32int
    } else {
        0int
    }) by {}
    if name.len() == lower.len() && forall|i: int|
        0 <= i < name.len() ==> #[trigger] lower[i] as int == name[i] as int + (if 65
            <= name[i] as int <= 90 {
            32int
        } else {
            0int
        }) {
        assert forall|i: int| 0 <= i < own.len() implies #[trigger] own[i] == lower[i] by {
            assert(own[i] as int == lower[i] as int);
        }
        assert(own =~= lower);
    }
}

/// A header is kept out of requests if and only if it is one of six, in whatever case.
pub proof fn law_safe_in_request(name: Seq<char>)
    ensures
        safe_in_request(name) <==> {
            &&& !is_called(name, "host"@)
            &&& !is_called(name, "x-portal-auth"@)
            &&& !is_called(name, "connection"@)
            &&& !is_called(name, "upgrade"@)
            &&& !is_called(name, "proxy-connection"@)
            &&& !is_called(name, "proxy-authorization"@)
        },
{
}

/// A header is kept out of responses if and only if it is one of six, in whatever case.
pub proof fn law_safe_in_response(name: Seq<char>)
    ensures
        safe_in_response(name) <==> {
            &&& !is_called(name, "connection"@)
            &&& !is_called(name, "upgrade"@)
            &&& !is_called(name, "content-length"@)
            &&& !is_called(name, "transfer-encoding"@)
            &&& !is_called(name, "server"@)
            &&& !is_called(name, "date"@)
        },
{
}

/// The lower-case names that are blocked are the six of requests and the six of responses.
pub proof fn law_blocked_names(lower: Seq<char>)
    ensures
        blocks_request_name(lower) <==> lower == "host"@ || lower == "x-portal-auth"@ || lower
            == "connection"@ || lower == "upgrade"@ || lower == "proxy-connection"@ || lower
            == "proxy-authorization"@,
        blocks_response_name(lower) <==> lower == "connection"@ || lower == "upgrade"@ || lower
            == "content-length"@ || lower == "transfer-encoding"@ || lower == "server"@ || lower
            == "date"@,
{
}

/// The host header is the one called so, in whatever case.
pub proof fn law_names_host(name: Seq<char>)
    ensures
        names_host(name) <==> is_called(name, "host"@),
{
}

/// A header value whose bytes are all visible ASCII, spaces or tabs becomes the text of the same
/// codes; any other value becomes the empty text.
pub proof fn law_value_text(value: Seq<u8>)
    ensures
        (forall|i: int| 0 <= i < value.len() ==> 32 <= #[trigger] value[i] <= 126 || value[i] == 9)
            ==> {
            &&& value_text(value).len() == value.len()
            &&& forall|i: int|
                0 <= i < value.len() ==> #[trigger] value_text(value)[i] as int == value[i] as int
        },
        (exists|i: int| 0 <= i < value.len() && !(32 <= #[trigger] value[i] <= 126 || value[i] == 9))
            ==> value_text(value) == Seq::<char>::empty(),
{
    if forall|i: int| 0 <= i < value.len() ==> 32 <= #[trigger] value[i] <= 126 || value[i] == 9 {
        assert forall|i: int| 0 <= i < value.len() implies crate::headers::is_visible_ascii(
            #[trigger] value[i],
        ) by {}
    }
}

/// Raw headers are looked at one by one, by name and value.
pub proof fn law_raw_views(raw: Seq<RawHeader>)
    ensures
        raw_views(raw).len() == raw.len(),
        forall|i: int|
            0 <= i < raw.len() ==> #[trigger] raw_views(raw)[i] == (raw[i].name@, raw[i].value@),
{
}

/// A name that no header has has no last value.
proof fn lemma_no_last_value(raw: Seq<(Seq<char>, Seq<u8>)>, name: Seq<char>)
    requires
        forall|i: int| 0 <= i < raw.len() ==> (#[trigger] raw[i]).0 != name,
    ensures
        last_value(raw, name) is None,
    decreases raw.len(),
{
    if raw.len() > 0 {
        assert(raw[raw.len() - 1].0 != name);
        let front = raw.drop_last();
        assert forall|i: int| 0 <= i < front.len() implies (#[trigger] front[i]).0 != name by {
            assert(raw[i].0 != name);
        }
        lemma_no_last_value(front, name);
    }
}

/// The last value of a name is that of the header behind which no other has it.
proof fn lemma_last_value_at(raw: Seq<(Seq<char>, Seq<u8>)>, i: int)
    requires
        0 <= i < raw.len(),
        forall|j: int| i < j < raw.len() ==> (#[trigger] raw[j]).0 != raw[i].0,
    ensures
        last_value(raw, raw[i].0) == Some(raw[i].1),
    decreases raw.len(),
{
    let last = raw.len() - 1;
    if i < last {
        assert(raw[last].0 != raw[i].0);
        let front = raw.drop_last();
        assert forall|j: int| i < j < front.len() implies (#[trigger] front[j]).0 != front[i].0 by {
            assert(raw[j].0 != raw[i].0);
        }
        lemma_last_value_at(front, i);
    }
}

/// A header that the caller sent, and did not send again behind it, goes into the tunnel with its
/// text, unless it is one of the six that are kept out of requests.
pub proof fn law_header_is_tunnelled(raw: Seq<(Seq<char>, Seq<u8>)>, i: int)
    requires
        0 <= i < raw.len(),
        forall|j: int| i < j < raw.len() ==> (#[trigger] raw[j]).0 != raw[i].0,
    ensures
        tunnelled_headers(raw).contains_key(raw[i].0) <==> {
            &&& !is_called(raw[i].0, "host"@)
            &&& !is_called(raw[i].0, "x-portal-auth"@)
            &&& !is_called(raw[i].0, "connection"@)
            &&& !is_called(raw[i].0, "upgrade"@)
            &&& !is_called(raw[i].0, "proxy-connection"@)
            &&& !is_called(raw[i].0, "proxy-authorization"@)
        },
        tunnelled_headers(raw).contains_key(raw[i].0) ==> tunnelled_headers(raw)[raw[i].0]
            == value_text(raw[i].1),
{
    lemma_last_value_at(raw, i);
    law_request_headers(raw, raw[i].0);
}

/// A header that the caller did not send does not go into the tunnel.
pub proof fn law_no_header_is_made_up_for_requests(
    raw: Seq<(Seq<char>, Seq<u8>)>,
    name: Seq<char>,
)
    requires
        forall|i: int| 0 <= i < raw.len() ==> (#[trigger] raw[i]).0 != name,
    ensures
        !tunnelled_headers(raw).contains_key(name),
{
    lemma_no_last_value(raw, name);
    law_request_headers(raw, name);
}

/// A header that the local server sent, and did not send again behind it, goes into the tunnel with
/// its text, and reaches the caller so, unless it is one of the six that are kept out of responses.
pub proof fn law_header_is_relayed(raw: Seq<(Seq<char>, Seq<u8>)>, i: int)
    requires
        0 <= i < raw.len(),
        forall|j: int| i < j < raw.len() ==> (#[trigger] raw[j]).0 != raw[i].0,
    ensures
        answered_headers(raw).contains_key(raw[i].0),
        answered_headers(raw)[raw[i].0] == value_text(raw[i].1),
        ({
            let reached = relayed_headers(answered_headers(raw));
            &&& reached.contains_key(raw[i].0) <==> {
                &&& !is_called(raw[i].0, "connection"@)
                &&& !is_called(raw[i].0, "upgrade"@)
                &&& !is_called(raw[i].0, "content-length"@)
                &&& !is_called(raw[i].0, "transfer-encoding"@)
                &&& !is_called(raw[i].0, "server"@)
                &&& !is_called(raw[i].0, "date"@)
            }
            &&& reached.contains_key(raw[i].0) ==> reached[raw[i].0] == value_text(raw[i].1)
        }),
{
    lemma_last_value_at(raw, i);
    law_response_headers(raw, raw[i].0);
    crate::laws::lemma_collected(raw, |n: Seq<char>| true, raw[i].0);
}

/// A header that the local server did not send reaches neither the tunnel nor the caller.
pub proof fn law_no_header_is_made_up_for_responses(
    raw: Seq<(Seq<char>, Seq<u8>)>,
    name: Seq<char>,
)
    requires
        forall|i: int| 0 <= i < raw.len() ==> (#[trigger] raw[i]).0 != name,
    ensures
        !answered_headers(raw).contains_key(name),
        !relayed_headers(answered_headers(raw)).contains_key(name),
{
    lemma_no_last_value(raw, name);
    law_response_headers(raw, name);
    crate::laws::lemma_collected(raw, |n: Seq<char>| true, name);
}

/// Of any table, all headers but the host header are forwarded, each with its value.
pub proof fn law_forwarded_headers(headers: Map<Seq<char>, Seq<char>>, name: Seq<char>)
    ensures
        forwarded_headers(headers).contains_key(name) <==> headers.contains_key(name)
            && !is_called(name, "host"@),
        forwarded_headers(headers).contains_key(name) ==> forwarded_headers(headers)[name]
            == headers[name],
{
}

/// Of any table, all headers but six are relayed, each with its value.
pub proof fn law_relayed_headers(headers: Map<Seq<char>, Seq<char>>, name: Seq<char>)
    ensures
        relayed_headers(headers).contains_key(name) <==> {
            &&& headers.contains_key(name)
            &&& !is_called(name, "connection"@)
            &&& !is_called(name, "upgrade"@)
            &&& !is_called(name, "content-length"@)
            &&& !is_called(name, "transfer-encoding"@)
            &&& !is_called(name, "server"@)
            &&& !is_called(name, "date"@)
        },
        relayed_headers(headers).contains_key(name) ==> relayed_headers(headers)[name]
            == headers[name],
{
}

} // verus!
