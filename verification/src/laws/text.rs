//! Laws of texts: decimal numbers, lower case, lists, identifiers, Base64 and values that are
//! looked at through their characters.

use vstd::prelude::*;
use vstd::utf8::*;

use crate::base64_text::{base64_len, base64_text, lemma_base64_round_trip, sextet, symbol};
use crate::ident::{is_id_text, CLIENT_ID_LEN, REQUEST_ID_LEN};
use crate::message::{body_bytes, encoded_body, text_opt};
use crate::table::lists_keys;
use crate::text::{
    ascii_lowercase, debug_list, decimal, escaped_text, lowercase, quoted_items, texts,
    unicode_lowercase,
};

verus! {

/// The number that a text of decimal digits stands for.
pub open spec fn digits_value(digits: Seq<char>) -> int
    decreases digits.len(),
{
    if digits.len() == 0 {
        0
    } else {
        10 * digits_value(digits.drop_last()) + (digits.last() as int - '0' as int)
    }
}

/// Decimal text holds digits only, has no leading zero, and reads back as the number.
pub proof fn law_decimal(n: nat)
    ensures
        decimal(n).len() > 0,
        forall|i: int| 0 <= i < decimal(n).len() ==> '0' <= #[trigger] decimal(n)[i] <= '9',
        n > 0 ==> decimal(n)[0] != '0',
        n == 0 ==> decimal(n) == "0"@,
        digits_value(decimal(n)) == n,
    decreases n,
{
    let d = decimal(n);
    if n < 10 {
        reveal_strlit("0");
        assert(d.drop_last() =~= Seq::empty());
        assert(digits_value(d.drop_last()) == 0);
        if n == 0 {
            assert(d =~= "0"@);
        }
    } else {
        law_decimal(n / 10);
        assert(d.drop_last() =~= decimal(n / 10));
        assert(d[0] == decimal(n / 10)[0]);
    }
}

/// Different numbers have different decimal texts.
pub proof fn law_decimals_differ(a: nat, b: nat)
    requires
        decimal(a) == decimal(b),
    ensures
        a == b,
{
    law_decimal(a);
    law_decimal(b);
}

/// Text that is a number in decimal, without leading zeros.
pub open spec fn is_number_text(digits: Seq<char>) -> bool {
    &&& digits.len() > 0
    &&& forall|i: int| 0 <= i < digits.len() ==> '0' <= #[trigger] digits[i] <= '9'
    &&& digits.len() > 1 ==> digits[0] != '0'
}

/// A text of digits stands for no negative number, and for zero only if all are zeros.
proof fn lemma_digits_value(digits: Seq<char>)
    requires
        forall|i: int| 0 <= i < digits.len() ==> '0' <= #[trigger] digits[i] <= '9',
    ensures
        digits_value(digits) >= 0,
        digits.len() > 0 && digits[0] != '0' ==> digits_value(digits) > 0,
    decreases digits.len(),
{
    if digits.len() > 0 {
        let front = digits.drop_last();
        assert forall|i: int| 0 <= i < front.len() implies '0' <= #[trigger] front[i] <= '9' by {
            assert('0' <= digits[i] <= '9');
        }
        lemma_digits_value(front);
        assert('0' <= digits.last() <= '9');
    }
}

/// The decimal text of a number is the one text of digits without leading zeros that stands for
/// it.
pub proof fn law_decimal_is_unique(n: nat, digits: Seq<char>)
    requires
        is_number_text(digits),
        digits_value(digits) == n,
    ensures
        decimal(n) == digits,
    decreases digits.len(),
{
    let front = digits.drop_last();
    let last = digits.last() as int - '0' as int;
    assert('0' <= digits.last() <= '9');
    assert(crate::text::digit(last) == digits.last());
    if digits.len() == 1 {
        assert(front =~= Seq::empty());
        assert(digits_value(front) == 0);
        assert(decimal(n) =~= digits);
    } else {
        assert forall|i: int| 0 <= i < front.len() implies '0' <= #[trigger] front[i] <= '9' by {
            assert('0' <= digits[i] <= '9');
        }
        lemma_digits_value(front);
        assert(front[0] == digits[0]);
        let m = digits_value(front) as nat;
        assert(n == 10 * m + last);
        assert(n / 10 == m && n % 10 == last);
        law_decimal_is_unique(m, front);
        assert(decimal(n) =~= digits);
    }
}

/// ASCII lower case keeps the length, moves each letter `A` to `Z` by 32, and keeps the rest.
pub proof fn law_ascii_lowercase(text: Seq<char>, i: int)
    requires
        0 <= i < text.len(),
    ensures
        ascii_lowercase(text).len() == text.len(),
        65 <= text[i] as int <= 90 ==> ascii_lowercase(text)[i] as int == text[i] as int + 32,
        !(65 <= text[i] as int <= 90) ==> ascii_lowercase(text)[i] == text[i],
{
}

/// Lower case of ASCII text is ASCII lower case; of other text it is that of the Unicode tables.
pub proof fn law_lowercase(text: Seq<char>)
    ensures
        is_ascii_chars(text) ==> lowercase(text) == ascii_lowercase(text),
        !is_ascii_chars(text) ==> lowercase(text) == unicode_lowercase(text),
{
}

/// The lengths of identifiers are 8 and 21, and their alphabet is the 64 characters `A-Z`, `a-z`,
/// `0-9`, `_` and `-`.
pub proof fn law_identifiers(text: Seq<char>)
    ensures
        CLIENT_ID_LEN == 8,
        REQUEST_ID_LEN == 21,
        is_id_text(text) <==> forall|i: int|
            0 <= i < text.len() ==> {
                let c = #[trigger] text[i] as int;
                48 <= c <= 57 || 65 <= c <= 90 || 97 <= c <= 122 || c == 95 || c == 45
            },
{
    if forall|i: int|
        0 <= i < text.len() ==> {
            let c = #[trigger] text[i] as int;
            48 <= c <= 57 || 65 <= c <= 90 || 97 <= c <= 122 || c == 95 || c == 45
        } {
        assert forall|i: int| 0 <= i < text.len() implies crate::ident::is_id_char(
            #[trigger] text[i],
        ) by {
            let c = text[i] as int;
            assert(48 <= c <= 57 || 65 <= c <= 90 || 97 <= c <= 122 || c == 95 || c == 45);
        }
    }
}

/// Listed texts come between quotes, with a comma and a space between them.
pub proof fn law_quoted_items(items: Seq<Seq<char>>, item: Seq<char>)
    ensures
        quoted_items(Seq::empty()) == Seq::<char>::empty(),
        quoted_items(seq![item]) == "\""@ + item + "\""@,
        items.len() > 0 ==> quoted_items(items.push(item)) == quoted_items(items) + ", \""@ + item
            + "\""@,
{
    reveal_strlit("\"");
    reveal_strlit(", \"");
    assert(quoted_items(seq![item]) =~= "\""@ + item + "\""@);
    if items.len() > 0 {
        assert(items.push(item).drop_last() =~= items);
        assert(quoted_items(items.push(item)) =~= quoted_items(items) + ", \""@ + item + "\""@);
    }
}

/// A list is shown between brackets, with its texts quoted as they are if they hold only
/// characters of identifiers, and escaped otherwise.
pub proof fn law_debug_list(items: Seq<Seq<char>>, shown: Seq<Seq<char>>)
    requires
        shown.len() == items.len(),
        forall|i: int|
            0 <= i < items.len() ==> #[trigger] shown[i] == if is_id_text(items[i]) {
                items[i]
            } else {
                escaped_text(items[i])
            },
    ensures
        debug_list(items) == "["@ + quoted_items(shown) + "]"@,
{
    reveal_strlit("[");
    reveal_strlit("]");
    assert(items.map_values(|text: Seq<char>| crate::text::shown_text(text)) =~= shown);
    assert(debug_list(items) =~= "["@ + quoted_items(shown) + "]"@);
}

/// A list of keys holds each key once, and nothing else.
pub proof fn law_lists_keys<V>(keys: Seq<Seq<char>>, map: Map<Seq<char>, V>)
    ensures
        lists_keys(keys, map) <==> {
            &&& forall|i: int, j: int|
                0 <= i < j < keys.len() ==> #[trigger] keys[i] != #[trigger] keys[j]
            &&& forall|i: int| 0 <= i < keys.len() ==> map.contains_key(#[trigger] keys[i])
            &&& forall|key: Seq<char>| #[trigger]
                map.contains_key(key) ==> exists|i: int|
                    0 <= i < keys.len() && #[trigger] keys[i] == key
        },
{
    if lists_keys(keys, map) {
        assert forall|i: int| 0 <= i < keys.len() implies map.contains_key(#[trigger] keys[i]) by {
            assert(keys.contains(keys[i]));
        }
        assert forall|key: Seq<char>| #[trigger] map.contains_key(key) implies exists|i: int|
            0 <= i < keys.len() && #[trigger] keys[i] == key by {
            assert(keys.contains(key));
        }
    }
}

/// A list of texts is looked at text by text, and an optional text through its characters.
pub proof fn law_texts(items: Seq<String>, text: String)
    ensures
        texts(items).len() == items.len(),
        forall|i: int| 0 <= i < items.len() ==> #[trigger] texts(items)[i] == items[i]@,
        text_opt(Some(text)) == Some(text@),
        text_opt(None::<String>) is None,
{
}

/// A symbol of Base64 for each value of six bits.
pub proof fn law_base64_symbol(bits: int)
    requires
        0 <= bits < 64,
    ensures
        bits < 26 ==> symbol(bits) as int == 65 + bits,
        26 <= bits < 52 ==> symbol(bits) as int == 97 + (bits - 26),
        52 <= bits < 62 ==> symbol(bits) as int == 48 + (bits - 52),
        bits == 62 ==> symbol(bits) == '+',
        bits == 63 ==> symbol(bits) == '/',
{
}

/// Base64 text has four characters for each three bytes, the last group padded.
pub proof fn law_base64_length(bytes: Seq<u8>)
    ensures
        base64_text(bytes).len() % 4 == 0,
        3 * base64_text(bytes).len() >= 4 * bytes.len(),
        3 * base64_text(bytes).len() < 4 * bytes.len() + 12,
        base64_text(bytes).len() == base64_len(bytes.len() as int),
{
}

/// Three bytes in Base64 are four symbols, whose values, as digits of base 64, are the same number
/// as the bytes, as digits of base 256.
pub proof fn law_base64_group(bytes: Seq<u8>, q: int, s0: int, s1: int, s2: int, s3: int)
    requires
        0 <= q,
        3 * q + 2 < bytes.len(),
        0 <= s0 < 64 && 0 <= s1 < 64 && 0 <= s2 < 64 && 0 <= s3 < 64,
        s0 * 262144 + s1 * 4096 + s2 * 64 + s3 == bytes[3 * q] * 65536 + bytes[3 * q + 1] * 256
            + bytes[3 * q + 2],
    ensures
        base64_text(bytes)[4 * q] == symbol(s0),
        base64_text(bytes)[4 * q + 1] == symbol(s1),
        base64_text(bytes)[4 * q + 2] == symbol(s2),
        base64_text(bytes)[4 * q + 3] == symbol(s3),
{
    assert((4 * q) / 4 == q && (4 * q + 1) / 4 == q && (4 * q + 2) / 4 == q && (4 * q + 3) / 4
        == q);
    let b0 = bytes[3 * q] as int;
    let b1 = bytes[3 * q + 1] as int;
    let b2 = bytes[3 * q + 2] as int;
    assert(s0 == b0 / 4);
    assert(s1 == b0 % 4 * 16 + b1 / 16);
    assert(s2 == b1 % 16 * 4 + b2 / 64);
    assert(s3 == b2 % 64);
    assert(sextet(bytes, 4 * q) == s0);
    assert(sextet(bytes, 4 * q + 1) == s1);
    assert(sextet(bytes, 4 * q + 2) == s2);
    assert(sextet(bytes, 4 * q + 3) == s3);
}

/// One byte left at the end in Base64 is two symbols and two signs of padding.
pub proof fn law_base64_one_left(bytes: Seq<u8>, q: int, s0: int, s1: int)
    requires
        0 <= q,
        bytes.len() == 3 * q + 1,
        0 <= s0 < 64 && 0 <= s1 < 64,
        s0 * 64 + s1 == bytes[3 * q] * 16,
    ensures
        base64_text(bytes).len() == 4 * q + 4,
        base64_text(bytes)[4 * q] == symbol(s0),
        base64_text(bytes)[4 * q + 1] == symbol(s1),
        base64_text(bytes)[4 * q + 2] == '=',
        base64_text(bytes)[4 * q + 3] == '=',
{
    assert((4 * q) / 4 == q && (4 * q + 1) / 4 == q);
    let b0 = bytes[3 * q] as int;
    assert(s0 == b0 / 4);
    assert(s1 == b0 % 4 * 16);
    assert(sextet(bytes, 4 * q) == s0);
    assert(sextet(bytes, 4 * q + 1) == s1);
}

/// Two bytes left at the end in Base64 are three symbols and one sign of padding.
pub proof fn law_base64_two_left(bytes: Seq<u8>, q: int, s0: int, s1: int, s2: int)
    requires
        0 <= q,
        bytes.len() == 3 * q + 2,
        0 <= s0 < 64 && 0 <= s1 < 64 && 0 <= s2 < 64,
        s0 * 4096 + s1 * 64 + s2 == (bytes[3 * q] * 256 + bytes[3 * q + 1]) * 4,
    ensures
        base64_text(bytes).len() == 4 * q + 4,
        base64_text(bytes)[4 * q] == symbol(s0),
        base64_text(bytes)[4 * q + 1] == symbol(s1),
        base64_text(bytes)[4 * q + 2] == symbol(s2),
        base64_text(bytes)[4 * q + 3] == '=',
{
    assert((4 * q) / 4 == q && (4 * q + 1) / 4 == q && (4 * q + 2) / 4 == q);
    let b0 = bytes[3 * q] as int;
    let b1 = bytes[3 * q + 1] as int;
    assert(s0 == b0 / 4);
    assert(s1 == b0 % 4 * 16 + b1 / 16);
    assert(s2 == b1 % 16 * 4);
    assert(sextet(bytes, 4 * q) == s0);
    assert(sextet(bytes, 4 * q + 1) == s1);
    assert(sextet(bytes, 4 * q + 2) == s2);
}

/// A body stands for the bytes of which it is the Base64 text, whatever they are, and for nothing
/// if there is no body or it is the Base64 text of no bytes.
pub proof fn law_body_bytes(text: Seq<char>, bytes: Seq<u8>)
    ensures
        body_bytes(Some(base64_text(bytes))) == bytes,
        body_bytes(None) == Seq::<u8>::empty(),
        (forall|b: Seq<u8>| text != #[trigger] base64_text(b)) ==> body_bytes(Some(text))
            == Seq::<u8>::empty(),
{
    lemma_base64_round_trip(bytes);
}

/// Bytes become a body as their Base64 text, and no body if there are none.
pub proof fn law_encoded_body(bytes: Seq<u8>)
    ensures
        bytes.len() == 0 ==> encoded_body(bytes) is None,
        bytes.len() > 0 ==> encoded_body(bytes) == Some(base64_text(bytes)),
{
}

} // verus!
