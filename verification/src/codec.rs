//! Byte and string codecs provided by outside crates: base64 and JSON string literals.

use vstd::prelude::*;

verus! {

/// Text of base64's standard engine (`general_purpose::STANDARD`, padded) on the given bytes.
pub uninterp spec fn base64_text(data: Seq<u8>) -> Seq<char>;

/// What base64's standard engine decodes from the given text: the bytes, or `None` when the
/// text is not valid padded standard base64.
pub uninterp spec fn base64_decoded(text: Seq<u8>) -> Option<Seq<u8>>;

/// The JSON string literal that serde_json writes for the given text (quotes included).
pub uninterp spec fn json_string_text(s: Seq<char>) -> Seq<char>;

/// A character of the standard base64 alphabet (`A`-`Z`, `a`-`z`, `0`-`9`, `+`, `/`) or the
/// padding `=`.
pub open spec fn base64_char(c: char) -> bool {
    ('A' <= c <= 'Z') || ('a' <= c <= 'z') || ('0' <= c <= '9') || c == '+' || c == '/' || c == '='
}

/// `base64::Engine::encode` with the standard padded alphabet. The crate panics only when the
/// output length overflows `usize`, which the bound on the input excludes. The output has the
/// length `encoded_len` computes with padding, four characters for every started group of
/// three bytes; it is made of the alphabet's characters and padding; and the same engine
/// decodes it back to the input (the crate documents encoding and decoding as inverse).
#[verifier::external_body]
pub(crate) fn base64_encode(data: &[u8]) -> (r: String)
    requires
        (data@.len() / 3) * 4 + 4 <= usize::MAX,
    ensures
        r@ == base64_text(data@),
        r@.len() == 4 * ((data@.len() + 2) / 3),
        forall|i: int| 0 <= i < r@.len() ==> base64_char(#[trigger] r@[i]),
        base64_decoded(vstd::utf8::encode_utf8(r@)) == Some(data@),
{
    base64::Engine::encode(&base64::engine::general_purpose::STANDARD, data)
}

/// `base64::Engine::decode` with the standard padded alphabet; a decoding error becomes `None`.
#[verifier::external_body]
pub(crate) fn base64_decode(text: &[u8]) -> (r: Option<Vec<u8>>)
    ensures
        match r {
            Some(v) => base64_decoded(text@) == Some(v@),
            None => base64_decoded(text@) is None,
        },
{
    match base64::Engine::decode(&base64::engine::general_purpose::STANDARD, text) {
        Ok(v) => Some(v),
        Err(_) => None,
    }
}

/// `serde_json::to_string` of a string slice: the quoted, escaped JSON literal. Serializing a
/// string cannot fail, so the error arm never runs.
#[verifier::external_body]
pub(crate) fn json_string(s: &str) -> (r: String)
    ensures
        r@ == json_string_text(s@),
{
    match serde_json::to_string(s) {
        Ok(t) => t,
        Err(_) => String::new(),
    }
}

} // verus!
