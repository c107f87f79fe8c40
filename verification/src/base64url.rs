use base64::engine::general_purpose::URL_SAFE_NO_PAD;
use base64::{DecodeError, Engine};
use vstd::prelude::*;
use vstd::utf8::encode_utf8;

verus! {

/// `base64::DecodeError`, the reason why the decoder refused a text. It is
/// carried through and never looked into.
#[verifier::external_type_specification]
#[verifier::external_body]
pub struct ExDecodeError(DecodeError);

/// `Clone::clone` of `base64::DecodeError`, which the crate derives: the
/// copy is the same reason. The clone of a `ParseOatError` that carries a
/// reason calls it.
pub assume_specification[ <DecodeError as Clone>::clone ](reason: &DecodeError) -> (copy:
    DecodeError)
    ensures
        copy == *reason,
;

/// The text that base64 gives for `bytes` in the URL-safe alphabet, without
/// padding. It stands for what `Engine::encode` of
/// `base64::engine::general_purpose::URL_SAFE_NO_PAD` returns; nothing here
/// computes it.
pub uninterp spec fn url_safe_no_pad_encoding(bytes: Seq<u8>) -> Seq<char>;

/// The bytes that the text with the UTF-8 bytes `text` stands for in the
/// URL-safe alphabet without padding, or the decoder's reason for refusing
/// the text. It stands for what `Engine::decode` of
/// `base64::engine::general_purpose::URL_SAFE_NO_PAD` returns; nothing here
/// computes it.
pub uninterp spec fn url_safe_no_pad_decoding(text: Seq<u8>) -> Result<Seq<u8>, DecodeError>;

/// Whether `c` is one of the 64 symbols of the URL-safe alphabet: an ASCII
/// letter, a digit, `-` or `_`.
pub open spec fn url_safe_symbol(c: char) -> bool {
    ||| 'A' <= c <= 'Z'
    ||| 'a' <= c <= 'z'
    ||| '0' <= c <= '9'
    ||| c == '-'
    ||| c == '_'
}

/// Whether `text` holds symbols of the URL-safe alphabet only.
pub open spec fn url_safe_text(text: Seq<char>) -> bool {
    forall|i: int| 0 <= i < text.len() ==> url_safe_symbol(#[trigger] text[i])
}

/// Whether the decoder reads the text with the UTF-8 bytes `text` as
/// `bytes`.
pub open spec fn decodes_to(text: Seq<u8>, bytes: Seq<u8>) -> bool {
    url_safe_no_pad_decoding(text) matches Ok(back) && back == bytes
}

/// A decoder's answer as the model sees it: the bytes by their view, the
/// reason for a refusal as it is.
pub open spec fn decoded_view(decoded: Result<Vec<u8>, DecodeError>) -> Result<
    Seq<u8>,
    DecodeError,
> {
    match decoded {
        Ok(bytes) => Ok(bytes@),
        Err(e) => Err(e),
    }
}

/// Calls `Engine::encode` of `URL_SAFE_NO_PAD` on eight bytes.
///
/// Believed, not proved: the result is the encoding of the eight bytes; it
/// has 11 characters, as `base64::encoded_len` computes for 8 bytes without
/// padding; each is a symbol of the URL-safe alphabet, which is the
/// engine's table; and the same engine decodes it to the eight bytes again.
#[verifier::external_body]
pub(crate) fn encode_word(bytes: &[u8; 8]) -> (text: String)
    ensures
        text@ == url_safe_no_pad_encoding(bytes@),
        text@.len() == 11,
        url_safe_text(text@),
        decodes_to(encode_utf8(text@), bytes@),
{
    URL_SAFE_NO_PAD.encode(bytes)
}

/// Calls `Engine::decode` of `URL_SAFE_NO_PAD` on the bytes of a text.
///
/// Believed, not proved: whether the call succeeds, with which bytes, and
/// with which reason where it fails, depends on the text alone.
#[verifier::external_body]
pub(crate) fn decode_text(text: &[u8]) -> (r: Result<Vec<u8>, DecodeError>)
    ensures
        decoded_view(r) == url_safe_no_pad_decoding(text@),
{
    URL_SAFE_NO_PAD.decode(text)
}

} // verus!
