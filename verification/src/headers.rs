//! Header tables, and which headers may pass the tunnel.

use vstd::prelude::*;

use crate::table::{lists_keys, Table};
use crate::text::{lowercase, same_text};

verus! {

/// A header as it is on the wire: a name, and a value that need not be text.
#[derive(Debug)]
pub struct RawHeader {
    pub name: String,
    pub value: Vec<u8>,
}

impl View for RawHeader {
    type V = (Seq<char>, Seq<u8>);

    open spec fn view(&self) -> (Seq<char>, Seq<u8>) {
        (self.name@, self.value@)
    }
}

/// Names and values of raw headers.
pub open spec fn raw_views(raw: Seq<RawHeader>) -> Seq<(Seq<char>, Seq<u8>)> {
    raw.map_values(|header: RawHeader| header@)
}

/// A byte that is visible ASCII, a space or a tab.
pub open spec fn is_visible_ascii(byte: u8) -> bool {
    32 <= byte < 127 || byte == 9
}

/// A header value that is text.
pub open spec fn is_text_value(value: Seq<u8>) -> bool {
    forall|i: int| 0 <= i < value.len() ==> is_visible_ascii(#[trigger] value[i])
}

/// ASCII bytes as characters.
pub open spec fn ascii_chars(value: Seq<u8>) -> Seq<char> {
    value.map_values(|byte: u8| byte as char)
}

/// The text of a header value; empty if the value is not text.
pub open spec fn value_text(value: Seq<u8>) -> Seq<char> {
    if is_text_value(value) {
        ascii_chars(value)
    } else {
        Seq::empty()
    }
}

/// `http::HeaderValue::from_bytes`, then `http::HeaderValue::to_str`. The contract says that the
/// text comes back where all bytes are visible ASCII, spaces or tabs, and nothing otherwise.
#[verifier::external_body]
pub(crate) fn header_value_str(value: &[u8]) -> (text: Option<String>)
    ensures
        match text {
            Some(t) => is_text_value(value@) && t@ == ascii_chars(value@),
            None => !is_text_value(value@),
        },
{
    match http::HeaderValue::from_bytes(value) {
        Ok(value) => match value.to_str() {
            Ok(text) => Some(text.to_owned()),
            Err(_) => None,
        },
        Err(_) => None,
    }
}

/// The text of a header value; empty if the value is not text.
pub fn header_text(value: &[u8]) -> (text: String)
    ensures
        text@ == value_text(value@),
{
    match header_value_str(value) {
        Some(text) => text,
        None => String::new(),
    }
}

/// A lower-case name of a header that stays out of tunnelled requests.
pub open spec fn blocks_request_name(lower: Seq<char>) -> bool {
    ||| lower == "host"@
    ||| lower == "x-portal-auth"@
    ||| lower == "connection"@
    ||| lower == "upgrade"@
    ||| lower == "proxy-connection"@
    ||| lower == "proxy-authorization"@
}

/// A lower-case name of a header that stays out of relayed responses.
pub open spec fn blocks_response_name(lower: Seq<char>) -> bool {
    ||| lower == "connection"@
    ||| lower == "upgrade"@
    ||| lower == "content-length"@
    ||| lower == "transfer-encoding"@
    ||| lower == "server"@
    ||| lower == "date"@
}

/// A header name that may go into a tunnelled request, in whatever case it is written.
pub open spec fn safe_in_request(name: Seq<char>) -> bool {
    !blocks_request_name(lowercase(name))
}

/// A header name that may go into a relayed response, in whatever case it is written.
pub open spec fn safe_in_response(name: Seq<char>) -> bool {
    !blocks_response_name(lowercase(name))
}

/// The name of the host header, in whatever case it is written.
pub open spec fn names_host(name: Seq<char>) -> bool {
    lowercase(name) == "host"@
}

/// Whether a lower-case header name is kept out of tunnelled requests.
pub fn is_blocked_request_name(lower: &str) -> (blocked: bool)
    ensures
        blocked == blocks_request_name(lower@),
{
    same_text(lower, "host") || same_text(lower, "x-portal-auth") || same_text(lower, "connection")
        || same_text(lower, "upgrade") || same_text(lower, "proxy-connection") || same_text(
        lower,
        "proxy-authorization",
    )
}

/// Whether a lower-case header name is kept out of relayed responses.
pub fn is_blocked_response_name(lower: &str) -> (blocked: bool)
    ensures
        blocked == blocks_response_name(lower@),
{
    same_text(lower, "connection") || same_text(lower, "upgrade") || same_text(
        lower,
        "content-length",
    ) || same_text(lower, "transfer-encoding") || same_text(lower, "server") || same_text(
        lower,
        "date",
    )
}

/// Whether a header may go into a tunnelled request. Sensitive and hop-by-hop headers may not.
pub fn is_safe_request_header(name: &str) -> (safe: bool)
    ensures
        safe == safe_in_request(name@),
{
    let lower: String = name.to_lowercase();
    !is_blocked_request_name(lower.as_str())
}

/// Whether a header may go into a relayed response. Hop-by-hop headers and those that the relay
/// sets itself may not.
pub fn is_safe_response_header(name: &str) -> (safe: bool)
    ensures
        safe == safe_in_response(name@),
{
    let lower: String = name.to_lowercase();
    !is_blocked_response_name(lower.as_str())
}

/// Whether a header is the host header.
pub fn is_host_header(name: &str) -> (host: bool)
    ensures
        host == names_host(name@),
{
    let lower: String = name.to_lowercase();
    same_text(lower.as_str(), "host")
}

/// The table that raw headers make, one after the other: the names that `keep` admits, each with
/// the text of its last value.
pub open spec fn collected(
    raw: Seq<(Seq<char>, Seq<u8>)>,
    keep: spec_fn(Seq<char>) -> bool,
) -> Map<Seq<char>, Seq<char>>
    decreases raw.len(),
{
    if raw.len() == 0 {
        Map::empty()
    } else {
        let before = collected(raw.drop_last(), keep);
        if keep(raw.last().0) {
            before.insert(raw.last().0, value_text(raw.last().1))
        } else {
            before
        }
    }
}

/// The headers of a request that go into the tunnel.
pub open spec fn tunnelled_headers(raw: Seq<(Seq<char>, Seq<u8>)>) -> Map<Seq<char>, Seq<char>> {
    collected(raw, |name: Seq<char>| safe_in_request(name))
}

/// The headers of a local response that go into the tunnel: all of them.
pub open spec fn answered_headers(raw: Seq<(Seq<char>, Seq<u8>)>) -> Map<Seq<char>, Seq<char>> {
    collected(raw, |name: Seq<char>| true)
}

/// The headers of a tunnelled request that go to the local server.
pub open spec fn forwarded_headers(
    headers: Map<Seq<char>, Seq<char>>,
) -> Map<Seq<char>, Seq<char>> {
    headers.filter_keys(|name: Seq<char>| !names_host(name))
}

/// The headers of a tunnelled response that go to the caller.
pub open spec fn relayed_headers(headers: Map<Seq<char>, Seq<char>>) -> Map<Seq<char>, Seq<char>> {
    headers.filter_keys(|name: Seq<char>| safe_in_response(name))
}

/// Taking one element more adds it to the set of elements.
proof fn lemma_take_to_set(keys: Seq<Seq<char>>, i: int)
    requires
        0 <= i < keys.len(),
    ensures
        keys.take(i + 1).to_set() == keys.take(i).to_set().insert(keys[i]),
{
    broadcast use vstd::seq_lib::group_seq_properties;

    assert(keys.take(i + 1) =~= keys.take(i).push(keys[i]));
    assert(keys.take(i + 1).to_set() =~= keys.take(i).to_set().insert(keys[i]));
}

/// Headers by name, each with one value.
#[derive(Debug)]
pub struct Headers {
    table: Table<String>,
}

/// The characters of the values of a table.
spec fn text_map(map: Map<Seq<char>, String>) -> Map<Seq<char>, Seq<char>> {
    map.map_values(|value: String| value@)
}

impl View for Headers {
    type V = Map<Seq<char>, Seq<char>>;

    closed spec fn view(&self) -> Map<Seq<char>, Seq<char>> {
        text_map(self.table@)
    }
}

impl Headers {
    /// No headers.
    pub fn new() -> (headers: Self)
        ensures
            headers@ == Map::<Seq<char>, Seq<char>>::empty(),
    {
        let headers = Headers { table: Table::new() };
        assert(headers@ =~= Map::<Seq<char>, Seq<char>>::empty());
        headers
    }

    /// Sets the header `name`, in place of the value that it had.
    pub fn insert(&mut self, name: String, value: String)
        ensures
            final(self)@ == old(self)@.insert(name@, value@),
    {
        self.table.insert(name, value);
        assert(self@ =~= old(self)@.insert(name@, value@));
    }

    /// The value of the header `name`, if it is set.
    pub fn get(&self, name: &str) -> (value: Option<&String>)
        ensures
            match value {
                Some(v) => self@.contains_key(name@) && v@ == self@[name@],
                None => !self@.contains_key(name@),
            },
    {
        self.table.get(name)
    }

    /// The names and values, each name once.
    pub fn pairs(&self) -> (pairs: Vec<(String, String)>)
        ensures
            lists_keys(pairs@.map_values(|pair: (String, String)| pair.0@), self@),
            forall|i: int|
                0 <= i < pairs@.len() ==> (#[trigger] pairs@[i]).1@ == self@[pairs@[i].0@],
    {
        let n: usize = self.table.len();
        let mut pairs: Vec<(String, String)> = Vec::new();
        let mut i: usize = 0;
        while i < n
            invariant
                i <= n,
                n == self.table.key_seq().len(),
                pairs@.len() == i,
                forall|j: int|
                    0 <= j < i ==> {
                        &&& (#[trigger] pairs@[j]).0@ == self.table.key_seq()[j]
                        &&& self@.contains_key(pairs@[j].0@)
                        &&& pairs@[j].1@ == self@[pairs@[j].0@]
                    },
            decreases n - i,
        {
            pairs.push((self.table.key_at(i).clone(), self.table.value_at(i).clone()));
            i = i + 1;
        }
        assert(pairs@.map_values(|pair: (String, String)| pair.0@) =~= self.table.key_seq());
        pairs
    }

    /// The headers that raw headers make for a tunnelled request: the safe ones, each with the
    /// text of its last value.
    pub fn for_request(raw: &Vec<RawHeader>) -> (headers: Self)
        ensures
            headers@ == tunnelled_headers(raw_views(raw@)),
    {
        let ghost views = raw_views(raw@);
        let mut headers: Headers = Headers::new();
        let mut i: usize = 0;
        assert(views.take(0) =~= Seq::empty());
        while i < raw.len()
            invariant
                i <= raw@.len(),
                views == raw_views(raw@),
                headers@ == tunnelled_headers(views.take(i as int)),
            decreases raw@.len() - i,
        {
            assert(views.take(i + 1).drop_last() =~= views.take(i as int));
            if is_safe_request_header(raw[i].name.as_str()) {
                headers.insert(raw[i].name.clone(), header_text(raw[i].value.as_slice()));
            }
            i = i + 1;
        }
        assert(views.take(i as int) =~= views);
        headers
    }

    /// The headers that raw headers make for a tunnelled response: all of them, each with the
    /// text of its last value.
    pub fn for_response(raw: &Vec<RawHeader>) -> (headers: Self)
        ensures
            headers@ == answered_headers(raw_views(raw@)),
    {
        let ghost views = raw_views(raw@);
        let mut headers: Headers = Headers::new();
        let mut i: usize = 0;
        assert(views.take(0) =~= Seq::empty());
        while i < raw.len()
            invariant
                i <= raw@.len(),
                views == raw_views(raw@),
                headers@ == answered_headers(views.take(i as int)),
            decreases raw@.len() - i,
        {
            assert(views.take(i + 1).drop_last() =~= views.take(i as int));
            headers.insert(raw[i].name.clone(), header_text(raw[i].value.as_slice()));
            i = i + 1;
        }
        assert(views.take(i as int) =~= views);
        headers
    }

    /// The headers without the host header.
    pub fn forwarded(&self) -> (headers: Self)
        ensures
            headers@ == forwarded_headers(self@),
    {
        let n: usize = self.table.len();
        let ghost keys = self.table.key_seq();
        let mut headers: Headers = Headers::new();
        let mut i: usize = 0;
        while i < n
            invariant
                i <= n,
                n == keys.len(),
                keys == self.table.key_seq(),
                lists_keys(keys, self@),
                headers@ =~= forwarded_headers(self@).restrict(keys.take(i as int).to_set()),
            decreases n - i,
        {
            let name: &String = self.table.key_at(i);
            proof {
                lemma_take_to_set(keys, i as int);
            }
            if !is_host_header(name.as_str()) {
                headers.insert(name.clone(), self.table.value_at(i).clone());
            }
            i = i + 1;
        }
        assert(keys.take(i as int) =~= keys);
        assert(headers@ =~= forwarded_headers(self@));
        headers
    }

    /// The headers that are safe in a response.
    pub fn relayed(&self) -> (headers: Self)
        ensures
            headers@ == relayed_headers(self@),
    {
        let n: usize = self.table.len();
        let ghost keys = self.table.key_seq();
        let mut headers: Headers = Headers::new();
        let mut i: usize = 0;
        while i < n
            invariant
                i <= n,
                n == keys.len(),
                keys == self.table.key_seq(),
                lists_keys(keys, self@),
                headers@ =~= relayed_headers(self@).restrict(keys.take(i as int).to_set()),
            decreases n - i,
        {
            let name: &String = self.table.key_at(i);
            proof {
                lemma_take_to_set(keys, i as int);
            }
            if is_safe_response_header(name.as_str()) {
                headers.insert(name.clone(), self.table.value_at(i).clone());
            }
            i = i + 1;
        }
        assert(keys.take(i as int) =~= keys);
        assert(headers@ =~= relayed_headers(self@));
        headers
    }
}

impl Clone for Headers {
    fn clone(&self) -> (headers: Self)
        ensures
            headers@ == self@,
    {
        let n: usize = self.table.len();
        let ghost keys = self.table.key_seq();
        let mut headers: Headers = Headers::new();
        let mut i: usize = 0;
        while i < n
            invariant
                i <= n,
                n == keys.len(),
                keys == self.table.key_seq(),
                lists_keys(keys, self@),
                headers@ =~= self@.restrict(keys.take(i as int).to_set()),
            decreases n - i,
        {
            proof {
                lemma_take_to_set(keys, i as int);
            }
            headers.insert(self.table.key_at(i).clone(), self.table.value_at(i).clone());
            i = i + 1;
        }
        assert(keys.take(i as int) =~= keys);
        assert(headers@ =~= self@);
        headers
    }
}

} // verus!
