//! URL-safe base64 text, as the nonces and the key fields carry it.

use rustc_serialize::base64::{ToBase64, URL_SAFE};
use vstd::prelude::*;

verus! {

/// The URL-safe base64 text of a byte sequence, without padding and without
/// line breaks.
pub uninterp spec fn base64_url(bytes: Seq<u8>) -> Seq<char>;

/// Whether `c` belongs to the URL-safe base64 alphabet.
pub open spec fn is_url_safe(c: char) -> bool {
    ||| 'A' <= c <= 'Z'
    ||| 'a' <= c <= 'z'
    ||| '0' <= c <= '9'
    ||| c == '-'
    ||| c == '_'
}

/// Whether every character of `text` belongs to the URL-safe base64 alphabet.
pub open spec fn all_url_safe(text: Seq<char>) -> bool {
    forall|i: int| 0 <= i < text.len() ==> is_url_safe(#[trigger] text[i])
}

/// How many characters unpadded base64 needs for `n` bytes: four for every
/// three bytes, and two or three for a remainder of one or two.
pub open spec fn base64_len(n: nat) -> nat {
    ((4 * n + 2) / 3) as nat
}

/// Whether `text` is the URL-safe base64 text of `bytes`, with what holds of
/// every such text: it is drawn from the URL-safe alphabet, and it has four
/// characters for every three bytes and two or three for a remainder.
pub open spec fn is_base64_url_of(text: Seq<char>, bytes: Seq<u8>) -> bool {
    &&& text == base64_url(bytes)
    &&& all_url_safe(text)
    &&& text.len() == base64_len(bytes.len())
}

/// Encodes `bytes` with `rustc_serialize`'s `to_base64` under its `URL_SAFE`
/// configuration.
///
/// Trusted: the result is the text named `base64_url`; it is drawn from the
/// URL-safe alphabet only, carries no padding and no line breaks, and so has
/// `base64_len` characters.
#[verifier::external_body]
pub(crate) fn to_base64_url(bytes: &[u8]) -> (text: String)
    ensures
        text@ == base64_url(bytes@),
        all_url_safe(text@),
        text@.len() == base64_len(bytes@.len()),
{
    bytes.to_base64(URL_SAFE)
}

} // verus!
