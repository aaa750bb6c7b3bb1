//! Base64 text: what it is, and how bytes go to it and back.

use base64::engine::general_purpose::STANDARD;
use base64::Engine as _;
use vstd::prelude::*;

verus! {

/// `base64::DecodeError`, the reason why a piece of text is not Base64. Nothing is claimed of it.
#[verifier::external_type_specification]
#[verifier::external_body]
pub struct ExDecodeError(base64::DecodeError);

/// The byte at index `k`, or zero behind the end.
pub open spec fn octet(bytes: Seq<u8>, k: int) -> int {
    if 0 <= k < bytes.len() {
        bytes[k] as int
    } else {
        0
    }
}

/// The `i`-th group of six bits of `bytes`. Three bytes make four groups.
pub open spec fn sextet(bytes: Seq<u8>, i: int) -> int {
    let k = i / 4 * 3;
    if i % 4 == 0 {
        octet(bytes, k) / 4
    } else if i % 4 == 1 {
        octet(bytes, k) % 4 * 16 + octet(bytes, k + 1) / 16
    } else if i % 4 == 2 {
        octet(bytes, k + 1) % 16 * 4 + octet(bytes, k + 2) / 64
    } else {
        octet(bytes, k + 2) % 64
    }
}

/// The symbol for six bits: `A-Z`, `a-z`, `0-9`, `+`, `/`.
pub open spec fn symbol(bits: int) -> char {
    if bits < 26 {
        ('A' as int + bits) as char
    } else if bits < 52 {
        ('a' as int + bits - 26) as char
    } else if bits < 62 {
        ('0' as int + bits - 52) as char
    } else if bits == 62 {
        '+'
    } else {
        '/'
    }
}

/// How many characters of Base64 text `n` bytes take, padding and all.
pub open spec fn base64_len(n: int) -> int {
    (n + 2) / 3 * 4
}

/// `bytes` as Base64 text (RFC 4648, section 4): a symbol for each group of six bits that holds a
/// bit of `bytes`, then `=` until the length is a multiple of four.
pub open spec fn base64_text(bytes: Seq<u8>) -> Seq<char> {
    Seq::new(
        base64_len(bytes.len() as int) as nat,
        |i: int|
            if i * 6 < bytes.len() * 8 {
                symbol(sextet(bytes, i))
            } else {
                '='
            },
    )
}

/// `base64::Engine::encode` of the engine `STANDARD`, which pads. The contract says that it
/// returns the Base64 text of `bytes`. It panics where the text would not fit in memory that can
/// be addressed.
#[verifier::external_body]
pub(crate) fn encode(bytes: &[u8]) -> (text: String)
    requires
        base64_len(bytes@.len() as int) <= isize::MAX,
    ensures
        text@ == base64_text(bytes@),
{
    STANDARD.encode(bytes)
}

/// `base64::Engine::decode` of the engine `STANDARD`, which asks for canonical padding and for
/// zero bits behind the last byte. The contract says that it accepts exactly the texts that are
/// the Base64 text of some bytes, and returns those bytes.
#[verifier::external_body]
pub(crate) fn decode(text: &str) -> (bytes: Result<Vec<u8>, base64::DecodeError>)
    ensures
        match bytes {
            Ok(b) => text@ == base64_text(b@),
            Err(_) => forall|b: Seq<u8>| text@ != #[trigger] base64_text(b),
        },
{
    STANDARD.decode(text)
}

/// What a piece of Base64 text stands for; nothing if it is not Base64.
pub open spec fn base64_bytes(text: Seq<char>) -> Option<Seq<u8>> {
    if exists|b: Seq<u8>| text == #[trigger] base64_text(b) {
        Some(choose|b: Seq<u8>| text == #[trigger] base64_text(b))
    } else {
        None
    }
}

/// Six bits have one symbol, different six bits have different symbols, and none is `=`.
proof fn lemma_symbol(a: int, b: int)
    requires
        0 <= a < 64,
        0 <= b < 64,
    ensures
        symbol(a) == symbol(b) ==> a == b,
        symbol(a) != '=',
{
}

/// A group of six bits is in range.
proof fn lemma_sextet_range(bytes: Seq<u8>, i: int)
    requires
        0 <= i,
    ensures
        0 <= sextet(bytes, i) < 64,
{
}

/// Different bytes have different Base64 texts.
pub proof fn lemma_base64_injective(a: Seq<u8>, b: Seq<u8>)
    requires
        base64_text(a) == base64_text(b),
    ensures
        a == b,
{
    let t = base64_text(a);
    let u = base64_text(b);
    if a.len() < b.len() {
        lemma_base64_same_len(a, b);
    } else if b.len() < a.len() {
        lemma_base64_same_len(b, a);
    }
    let n = a.len() as int;
    assert forall|i: int| 0 <= i && i * 6 < n * 8 implies #[trigger] sextet(a, i) == sextet(b, i) by {
        assert(0 <= i < t.len());
        assert(t[i] == u[i]);
        lemma_sextet_range(a, i);
        lemma_sextet_range(b, i);
        lemma_symbol(sextet(a, i), sextet(b, i));
    }
    assert forall|k: int| 0 <= k < n implies #[trigger] a[k] == b[k] by {
        let q = k / 3;
        assert(sextet(a, 4 * q) == sextet(b, 4 * q));
        assert(sextet(a, 4 * q + 1) == sextet(b, 4 * q + 1));
        if k % 3 >= 1 {
            assert(sextet(a, 4 * q + 2) == sextet(b, 4 * q + 2));
        }
        if k % 3 == 2 {
            assert(sextet(a, 4 * q + 3) == sextet(b, 4 * q + 3));
        }
        assert((4 * q) / 4 == q && (4 * q + 1) / 4 == q && (4 * q + 2) / 4 == q && (4 * q + 3) / 4
            == q);
    }
    assert(a =~= b);
}

/// The padding tells the number of bytes.
proof fn lemma_base64_same_len(a: Seq<u8>, b: Seq<u8>)
    requires
        a.len() < b.len(),
    ensures
        base64_text(a) != base64_text(b),
{
    let t = base64_text(a);
    let u = base64_text(b);
    if t.len() == u.len() {
        // The first character that holds no bit of `a` holds a bit of `b`.
        let i = (a.len() as int * 8 + 5) / 6;
        assert(t[i] == '=');
        lemma_sextet_range(b, i);
        lemma_symbol(sextet(b, i), 0);
        assert(u[i] != '=');
    }
}

/// Decoding the Base64 text of some bytes gives those bytes back.
pub proof fn lemma_base64_round_trip(bytes: Seq<u8>)
    ensures
        base64_bytes(base64_text(bytes)) == Some(bytes),
{
    let text = base64_text(bytes);
    let back = choose|b: Seq<u8>| text == #[trigger] base64_text(b);
    lemma_base64_injective(bytes, back);
}

} // verus!
