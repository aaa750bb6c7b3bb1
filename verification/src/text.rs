//! Text helpers: comparison, decimal numbers and lower case.

use vstd::prelude::*;
use vstd::utf8::*;

use crate::ident::is_id_text;

verus! {

/// The characters of each piece of text.
pub open spec fn texts(items: Seq<String>) -> Seq<Seq<char>> {
    items.map_values(|item: String| item@)
}

/// Whether two pieces of text hold the same characters.
pub fn same_text(a: &str, b: &str) -> (same: bool)
    ensures
        same == (a@ == b@),
{
    broadcast use encode_utf8_decode_utf8;

    let left: &[u8] = a.as_bytes();
    let right: &[u8] = b.as_bytes();
    if left.len() != right.len() {
        return false;
    }
    let mut i: usize = 0;
    while i < left.len()
        invariant
            i <= left.len(),
            left.len() == right.len(),
            left@ == encode_utf8(a@),
            right@ == encode_utf8(b@),
            forall|j: int| 0 <= j < i ==> left@[j] == right@[j],
        decreases left.len() - i,
    {
        if left[i] != right[i] {
            return false;
        }
        i = i + 1;
    }
    assert(left@ =~= right@);
    assert(decode_utf8(encode_utf8(a@)) == a@);
    assert(decode_utf8(encode_utf8(b@)) == b@);
    true
}

/// The character for a decimal digit.
pub open spec fn digit(d: int) -> char {
    ('0' as int + d) as char
}

/// `n` in decimal, without leading zeros.
pub open spec fn decimal(n: nat) -> Seq<char>
    decreases n,
{
    if n < 10 {
        seq![digit(n as int)]
    } else {
        decimal(n / 10).push(digit((n % 10) as int))
    }
}

/// Decimal text is ASCII, and far shorter than the number is large.
pub proof fn lemma_decimal(n: nat)
    ensures
        is_ascii_chars(decimal(n)),
        decimal(n).len() <= n / 10 + 1,
    decreases n,
{
    if n >= 10 {
        lemma_decimal(n / 10);
    }
}

/// A decimal digit as text.
fn digit_text(d: u64) -> (text: &'static str)
    requires
        d < 10,
    ensures
        text@ == seq![digit(d as int)],
{
    proof {
        reveal_strlit("0");
        reveal_strlit("1");
        reveal_strlit("2");
        reveal_strlit("3");
        reveal_strlit("4");
        reveal_strlit("5");
        reveal_strlit("6");
        reveal_strlit("7");
        reveal_strlit("8");
        reveal_strlit("9");
    }
    let text: &'static str = match d {
        0 => "0",
        1 => "1",
        2 => "2",
        3 => "3",
        4 => "4",
        5 => "5",
        6 => "6",
        7 => "7",
        8 => "8",
        _ => "9",
    };
    assert(text@ =~= seq![digit(d as int)]);
    text
}

/// `n` as decimal text.
pub fn decimal_text(n: u64) -> (text: String)
    ensures
        text@ == decimal(n as nat),
    decreases n,
{
    if n < 10 {
        digit_text(n).to_owned()
    } else {
        let mut text: String = decimal_text(n / 10);
        text.append(digit_text(n % 10));
        assert(text@ =~= decimal(n as nat));
        text
    }
}

/// `text` with the letters `A` to `Z` put in lower case.
pub open spec fn ascii_lowercase(text: Seq<char>) -> Seq<char> {
    text.map_values(
        |c: char|
            if 'A' <= c <= 'Z' {
                (c as int + 32) as char
            } else {
                c
            },
    )
}

/// The lower case of text that is not all ASCII, by the Unicode tables.
pub uninterp spec fn unicode_lowercase(text: Seq<char>) -> Seq<char>;

/// `text` in lower case.
pub open spec fn lowercase(text: Seq<char>) -> Seq<char> {
    if is_ascii_chars(text) {
        ascii_lowercase(text)
    } else {
        unicode_lowercase(text)
    }
}

/// `str::to_lowercase`. The contract says that the result is a function of the text alone, and
/// that of ASCII text it is the text with the letters `A` to `Z` put in lower case. What the
/// Unicode tables give for other text is not stated.
pub assume_specification[ str::to_lowercase ](text: &str) -> (lower: String)
    ensures
        is_ascii_chars(text@) ==> lower@ == ascii_lowercase(text@),
        !is_ascii_chars(text@) ==> lower@ == unicode_lowercase(text@),
;

/// `text` between quotes.
pub open spec fn quoted(text: Seq<char>) -> Seq<char> {
    seq!['"'] + text + seq!['"']
}

/// Texts between quotes, with a comma and a space between them.
pub open spec fn quoted_items(items: Seq<Seq<char>>) -> Seq<char>
    decreases items.len(),
{
    if items.len() == 0 {
        Seq::empty()
    } else if items.len() == 1 {
        quoted(items[0])
    } else {
        quoted_items(items.drop_last()) + seq![',', ' '] + quoted(items.last())
    }
}

/// A text that holds a character to escape, with its escapes, as `{:?}` shows it between quotes.
pub uninterp spec fn escaped_text(text: Seq<char>) -> Seq<char>;

/// A text as `{:?}` shows it between quotes. Characters of identifiers need no escape.
pub open spec fn shown_text(text: Seq<char>) -> Seq<char> {
    if is_id_text(text) {
        text
    } else {
        escaped_text(text)
    }
}

/// A list of texts as `{:?}` shows it: each between quotes, with commas between them and brackets
/// around.
pub open spec fn debug_list(items: Seq<Seq<char>>) -> Seq<char> {
    seq!['['] + quoted_items(items.map_values(|text: Seq<char>| shown_text(text))) + seq![']']
}

/// `std::fmt::Debug` of a `Vec<String>`, through `format!`. The contract says that each text comes
/// between quotes, with commas between them and brackets around, and that a text of characters of
/// identifiers comes as it is. How another text is escaped is a function of that text alone, and
/// is not stated.
#[verifier::external_body]
pub(crate) fn debug_text(items: &Vec<String>) -> (text: String)
    ensures
        text@ == seq!['['] + quoted_items(
            texts(items@).map_values(
                |item: Seq<char>|
                    if is_id_text(item) {
                        item
                    } else {
                        escaped_text(item)
                    },
            ),
        ) + seq![']'],
{
    format!("{:?}", items)
}

} // verus!
