//! Identifiers of clients and requests.

use vstd::prelude::*;

verus! {

/// How many characters a client identifier has.
pub const CLIENT_ID_LEN: usize = 8;

/// How many characters a request identifier has.
pub const REQUEST_ID_LEN: usize = 21;

/// A character that an identifier may hold: `A-Z`, `a-z`, `0-9`, `_` and `-`.
pub open spec fn is_id_char(c: char) -> bool {
    ||| 'A' <= c <= 'Z'
    ||| 'a' <= c <= 'z'
    ||| '0' <= c <= '9'
    ||| c == '_'
    ||| c == '-'
}

/// Text that holds only characters of identifiers.
pub open spec fn is_id_text(text: Seq<char>) -> bool {
    forall|i: int| 0 <= i < text.len() ==> is_id_char(#[trigger] text[i])
}

/// `nanoid::format` with the generator `nanoid::rngs::default` and the alphabet
/// `nanoid::alphabet::SAFE`. The contract says that the identifier has `size` characters, all of
/// that alphabet. Which ones is left to chance. It does not return for a size of zero.
#[verifier::external_body]
fn random_id(size: usize) -> (id: String)
    requires
        0 < size <= 255,
    ensures
        id@.len() == size,
        is_id_text(id@),
{
    nanoid::format(nanoid::rngs::default, &nanoid::alphabet::SAFE, size)
}

/// A client identifier drawn at random.
pub fn new_client_id() -> (id: String)
    ensures
        id@.len() == CLIENT_ID_LEN,
        is_id_text(id@),
{
    random_id(CLIENT_ID_LEN)
}

/// A request identifier drawn at random.
pub fn new_request_id() -> (id: String)
    ensures
        id@.len() == REQUEST_ID_LEN,
        is_id_text(id@),
{
    random_id(REQUEST_ID_LEN)
}

} // verus!
