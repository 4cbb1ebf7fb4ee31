//! The two text forms at the engine's boundary: text that goes in as a
//! terminated byte string, and bytes that come out and may or may not be
//! UTF-8.

use vstd::prelude::*;
use vstd::slice::slice_to_vec;
use vstd::utf8::{decode_utf8, encode_utf8, encode_utf8_decode_utf8, valid_utf8};

use crate::error::{ArchiveError, ArchiveResult};

verus! {

/// Whether a zero byte occurs in `bytes`. The engine takes text as a byte
/// string that ends at the first zero byte, so such bytes cannot be handed
/// over whole.
pub open spec fn has_nul(bytes: Seq<u8>) -> bool {
    exists|i: int| 0 <= i < bytes.len() && bytes[i] == 0u8
}

/// Whether the engine can take `text` as it stands.
pub open spec fn is_c_text(text: Seq<char>) -> bool {
    !has_nul(encode_utf8(text))
}

/// Tells whether a zero byte occurs in `bytes`.
pub fn contains_nul(bytes: &[u8]) -> (found: bool)
    ensures
        found == has_nul(bytes@),
{
    let mut i: usize = 0;
    while i < bytes.len()
        invariant
            i <= bytes.len(),
            forall|j: int| 0 <= j < i ==> bytes@[j] != 0u8,
        decreases bytes.len() - i,
    {
        if bytes[i] == 0 {
            return true;
        }
        i += 1;
    }
    false
}

/// The bytes to hand to the engine for `text`: its UTF-8 bytes, without a
/// terminator. Text with a zero byte in it is an `EncodingError`.
pub fn c_text(text: &str) -> (result: ArchiveResult<Vec<u8>>)
    ensures
        match result {
            Ok(bytes) => is_c_text(text@) && bytes@ == encode_utf8(text@),
            Err(error) => !is_c_text(text@) && error == ArchiveError::EncodingError,
        },
{
    let bytes = text.as_bytes();
    if contains_nul(bytes) {
        Err(ArchiveError::EncodingError)
    } else {
        Ok(slice_to_vec(bytes))
    }
}

/// `core::str::from_utf8`, with the error dropped: the bytes as text if they
/// are valid UTF-8, and nothing otherwise. The text has the same bytes.
#[verifier::external_body]
fn utf8_text(bytes: &[u8]) -> (text: Option<&str>)
    ensures
        text is Some <==> valid_utf8(bytes@),
        text matches Some(s) ==> encode_utf8(s@) == bytes@,
{
    core::str::from_utf8(bytes).ok()
}

/// Tells whether `bytes` are valid UTF-8.
pub fn is_text(bytes: &[u8]) -> (valid: bool)
    ensures
        valid == valid_utf8(bytes@),
{
    utf8_text(bytes).is_some()
}

/// Reads bytes that the engine handed out as text. Bytes that are not valid
/// UTF-8 are an `EncodingError`.
pub fn text(bytes: &[u8]) -> (result: ArchiveResult<&str>)
    ensures
        match result {
            Ok(s) => valid_utf8(bytes@) && s@ == decode_utf8(bytes@),
            Err(error) => !valid_utf8(bytes@) && error == ArchiveError::EncodingError,
        },
{
    match utf8_text(bytes) {
        Some(s) => {
            proof {
                encode_utf8_decode_utf8(s@);
            }
            Ok(s)
        },
        None => Err(ArchiveError::EncodingError),
    }
}

} // verus!
