//! The boundary to the `base64` crate: names for what its encoder and
//! decoder return, and the wrappers whose contracts the codec is proved
//! against.

use vstd::prelude::*;

use crate::text::is_space;

verus! {

/// A character of the standard base64 alphabet, or the padding character.
pub open spec fn is_base64_char(c: char) -> bool {
    ||| 'A' <= c && c <= 'Z'
    ||| 'a' <= c && c <= 'z'
    ||| '0' <= c && c <= '9'
    ||| c == '+'
    ||| c == '/'
    ||| c == '='
}

/// Base64 characters are neither whitespace nor the colon, so a payload
/// built by joining encoded segments with a colon splits back exactly where
/// it was joined.
pub proof fn lemma_base64_char_plain(c: char)
    requires
        is_base64_char(c),
    ensures
        !is_space(c),
        c != ':',
{
}

/// What `base64::encode` returns on the given bytes.
pub uninterp spec fn b64_encoding(bytes: Seq<u8>) -> Seq<char>;

/// What `base64::decode` returns on the given characters: the decoded bytes,
/// or nothing when the input is not well-formed base64.
pub uninterp spec fn b64_decoding(s: Seq<char>) -> Option<Seq<u8>>;

/// Relies on `base64::encode` (standard alphabet, padded): the result is
/// made of base64 characters only, and `base64::decode` accepts it and
/// returns the bytes it was built from.
#[verifier::external_body]
pub(crate) fn b64_encode(bytes: &[u8]) -> (r: String)
    ensures
        r@ == b64_encoding(bytes@),
        forall|i: int| 0 <= i < r@.len() ==> is_base64_char(#[trigger] r@[i]),
        b64_decoding(r@) == Some(bytes@),
{
    base64::encode(bytes)
}

/// Relies on `base64::decode` (standard alphabet): it accepts or rejects the
/// input as the crate decides, and on success returns the decoded bytes.
#[verifier::external_body]
pub(crate) fn b64_decode(s: &str) -> (r: Option<Vec<u8>>)
    ensures
        r is Some <==> b64_decoding(s@) is Some,
        r matches Some(v) ==> Some(v@) == b64_decoding(s@),
{
    base64::decode(s).ok()
}

} // verus!
