//! Bytes as text and back: hexadecimal, base64 and UTF-8.
//!
//! Hexadecimal is stated in full. Base64 is left to the `base64` crate, and
//! what it returns is named; UTF-8 is stated by `vstd::utf8`.

use crate::text::{hex_byte_text, hex_digit_char};
use vstd::prelude::*;
use vstd::string::*;
use vstd::utf8::{decode_utf8, valid_utf8};

verus! {

/// The lowercase hexadecimal digits of `bytes`, two for each byte.
pub open spec fn hex_text(bytes: Seq<u8>) -> Seq<char>
    decreases bytes.len(),
{
    if bytes.len() == 0 {
        Seq::empty()
    } else {
        hex_text(bytes.drop_last()) + hex_byte_text(bytes.last())
    }
}

/// The value of a hexadecimal digit, in either case of letters.
pub open spec fn hex_value(c: char) -> Option<int> {
    if '0' <= c && c <= '9' {
        Some(c as int - '0' as int)
    } else if 'a' <= c && c <= 'f' {
        Some(c as int - 'a' as int + 10)
    } else if 'A' <= c && c <= 'F' {
        Some(c as int - 'A' as int + 10)
    } else {
        None
    }
}

/// `text` is an even number of hexadecimal digits.
pub open spec fn hex_decodable(text: Seq<char>) -> bool {
    &&& text.len() % 2 == 0
    &&& forall|i: int| 0 <= i < text.len() ==> hex_value(#[trigger] text[i]) is Some
}

/// The bytes that an even number of hexadecimal digits stands for.
pub open spec fn hex_decoded(text: Seq<char>) -> Seq<u8> {
    Seq::new(text.len() / 2, |i: int| (16 * hex_value(text[2 * i])->0 + hex_value(text[2 * i + 1])->0) as u8)
}

/// The message of the error that `hex::decode` returns for `text`.
pub uninterp spec fn hex_decode_error(text: Seq<char>) -> Seq<char>;

/// The base64 text of `bytes`: standard alphabet, with padding.
pub uninterp spec fn base64_text(bytes: Seq<u8>) -> Seq<char>;

/// What decoding `text` as base64 gives, standard alphabet with padding
/// required: the bytes, or the message of the error.
pub uninterp spec fn base64_standard_decoding(text: Seq<char>) -> Result<Seq<u8>, Seq<char>>;

/// What decoding `text` as base64 gives, URL-safe alphabet with padding
/// refused: the bytes, or the message of the error.
pub uninterp spec fn base64_url_safe_decoding(text: Seq<char>) -> Result<Seq<u8>, Seq<char>>;

/// The message of the error that `String::from_utf8` returns for `bytes`.
pub uninterp spec fn utf8_error_text(bytes: Seq<u8>) -> Seq<char>;

/// The length of the base64 text of `len` bytes: four characters for every
/// three bytes or part of three.
pub open spec fn base64_len(len: nat) -> nat {
    (len / 3) * 4 + if len % 3 > 0 {
        4nat
    } else {
        0nat
    }
}

/// A result of bytes or a message, each side by its view.
pub open spec fn bytes_view(r: Result<Vec<u8>, String>) -> Result<Seq<u8>, Seq<char>> {
    match r {
        Ok(bytes) => Ok(bytes@),
        Err(message) => Err(message@),
    }
}

/// `r` is a success with the bytes `bytes`.
pub open spec fn gives_bytes(r: Result<Vec<u8>, String>, bytes: Seq<u8>) -> bool {
    bytes_view(r) == Ok::<Seq<u8>, Seq<char>>(bytes)
}

/// Calls `hex::encode`, which writes two lowercase hexadecimal digits for
/// each byte, the high half first.
#[verifier::external_body]
pub(crate) fn hex_encode(data: &[u8]) -> (r: String)
    ensures
        r@ == hex_text(data@),
{
    hex::encode(data)
}

/// Calls `hex::decode`. It succeeds exactly on an even number of
/// hexadecimal digits in either case of letters, and then gives one byte for
/// each pair, the high half first. Else it fails (a character outside ASCII
/// is no digit), and the message of its error is named by
/// [`hex_decode_error`].
#[verifier::external_body]
pub(crate) fn hex_decode(text: &str) -> (r: Result<Vec<u8>, String>)
    ensures
        bytes_view(r) == if hex_decodable(text@) {
            Ok::<Seq<u8>, Seq<char>>(hex_decoded(text@))
        } else {
            Err::<Seq<u8>, Seq<char>>(hex_decode_error(text@))
        },
{
    hex::decode(text).map_err(|e| e.to_string())
}

/// Calls `encode` of `base64::engine::general_purpose::STANDARD`. The text
/// is named by [`base64_text`]. The call stops the program where the length
/// of the text does not fit `usize`, which `requires` leaves out.
#[verifier::external_body]
pub(crate) fn base64_encode(data: &[u8]) -> (r: String)
    requires
        base64_len(data@.len()) <= usize::MAX,
    ensures
        r@ == base64_text(data@),
{
    base64::Engine::encode(&base64::engine::general_purpose::STANDARD, data)
}

/// Calls `decode` of `base64::engine::general_purpose::STANDARD`. What it
/// gives is named by [`base64_standard_decoding`]. One fact is stated of it:
/// it gives back the bytes of every text that `encode` of the same engine
/// writes.
#[verifier::external_body]
pub(crate) fn base64_decode_standard(text: &str) -> (r: Result<Vec<u8>, String>)
    ensures
        bytes_view(r) == base64_standard_decoding(text@),
        forall|bytes: Seq<u8>| text@ == #[trigger] base64_text(bytes) ==> gives_bytes(r, bytes),
{
    base64::Engine::decode(&base64::engine::general_purpose::STANDARD, text).map_err(|e| e.to_string())
}

/// Calls `decode` of `base64::engine::general_purpose::URL_SAFE_NO_PAD`.
/// What it gives is named by [`base64_url_safe_decoding`].
#[verifier::external_body]
pub(crate) fn base64_decode_url_safe(text: &str) -> (r: Result<Vec<u8>, String>)
    ensures
        bytes_view(r) == base64_url_safe_decoding(text@),
{
    base64::Engine::decode(&base64::engine::general_purpose::URL_SAFE_NO_PAD, text).map_err(|e| e.to_string())
}

/// A result of text or a message, each side by its view.
pub open spec fn text_view(r: Result<String, String>) -> Result<Seq<char>, Seq<char>> {
    match r {
        Ok(text) => Ok(text@),
        Err(message) => Err(message@),
    }
}

/// Calls `String::from_utf8`. It succeeds exactly on valid UTF-8, and then
/// gives the characters that the bytes encode. The message of its error is
/// named by [`utf8_error_text`].
#[verifier::external_body]
pub(crate) fn text_from_utf8(bytes: Vec<u8>) -> (r: Result<String, String>)
    ensures
        text_view(r) == if valid_utf8(bytes@) {
            Ok::<Seq<char>, Seq<char>>(decode_utf8(bytes@))
        } else {
            Err::<Seq<char>, Seq<char>>(utf8_error_text(bytes@))
        },
{
    String::from_utf8(bytes).map_err(|e| e.to_string())
}

/// The hexadecimal text of `bytes` has two characters for each byte: those
/// of byte `i` stand at `2 * i` and `2 * i + 1`.
pub proof fn lemma_hex_text(bytes: Seq<u8>)
    ensures
        hex_text(bytes).len() == 2 * bytes.len(),
        forall|i: int|
            0 <= i < bytes.len() ==> hex_text(bytes)[2 * i] == hex_digit_char((#[trigger] bytes[i] / 16) as nat)
                && hex_text(bytes)[2 * i + 1] == hex_digit_char((bytes[i] % 16) as nat),
    decreases bytes.len(),
{
    if bytes.len() > 0 {
        lemma_hex_text(bytes.drop_last());
        assert forall|i: int| 0 <= i < bytes.len() implies hex_text(bytes)[2 * i] == hex_digit_char(
            (#[trigger] bytes[i] / 16) as nat,
        ) && hex_text(bytes)[2 * i + 1] == hex_digit_char((bytes[i] % 16) as nat) by {
            if i < bytes.len() - 1 {
                assert(bytes.drop_last()[i] == bytes[i]);
            }
        }
    }
}

/// A hexadecimal digit stands for the value it was written for.
pub proof fn lemma_hex_digit_value(d: nat)
    requires
        d < 16,
    ensures
        hex_value(hex_digit_char(d)) == Some(d as int),
        hex_digit_char(d) != ' ',
{
}

/// Decoding the hexadecimal text of `bytes` gives `bytes` back.
pub proof fn lemma_hex_round_trip(bytes: Seq<u8>)
    ensures
        hex_decodable(hex_text(bytes)),
        hex_decoded(hex_text(bytes)) == bytes,
{
    lemma_hex_text(bytes);
    let text = hex_text(bytes);
    assert forall|i: int| 0 <= i < text.len() implies hex_value(#[trigger] text[i]) is Some by {
        let k = i / 2;
        lemma_hex_digit_value((bytes[k] / 16) as nat);
        lemma_hex_digit_value((bytes[k] % 16) as nat);
        if i % 2 == 0 {
            assert(text[2 * k] == text[i]);
        } else {
            assert(text[2 * k + 1] == text[i]);
        }
    }
    assert forall|i: int| 0 <= i < bytes.len() implies hex_decoded(text)[i] == bytes[i] by {
        lemma_hex_digit_value((bytes[i] / 16) as nat);
        lemma_hex_digit_value((bytes[i] % 16) as nat);
    }
    assert(hex_decoded(text) =~= bytes);
}

} // verus!
