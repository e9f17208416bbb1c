//! UTF-8 text from bytes, as `std` makes it.

use crate::error::Base64DecodeError;
use std::string::FromUtf8Error;
use vstd::prelude::*;
use vstd::utf8::decode_utf8;
use vstd::utf8::encode_utf8;
use vstd::utf8::encode_utf8_decode_utf8;
use vstd::utf8::encode_utf8_valid_utf8;
use vstd::utf8::valid_utf8;

verus! {

/// `std::string::FromUtf8Error`, which `String::from_utf8` returns for bytes
/// that are not UTF-8. Verus sees nothing inside it.
#[verifier::external_type_specification]
#[verifier::external_body]
pub struct ExFromUtf8Error(FromUtf8Error);

/// `String::from_utf8` returns a string made of the very bytes it was given
/// where they are valid UTF-8, and an error where they are not.
pub assume_specification[ String::from_utf8 ](vec: Vec<u8>) -> (r: Result<String, FromUtf8Error>)
    ensures
        r is Ok <==> valid_utf8(vec@),
        r matches Ok(text) ==> encode_utf8(text@) == vec@,
;

/// What reading `bytes` as UTF-8 gives: the string they encode, or the
/// failure of bytes that are not UTF-8.
pub open spec fn text_of(bytes: Seq<u8>) -> Result<Seq<char>, Base64DecodeError> {
    if valid_utf8(bytes) {
        Ok(decode_utf8(bytes))
    } else {
        Err(Base64DecodeError::Utf8Error)
    }
}

/// Reads `bytes` as UTF-8.
pub fn string_from_bytes(bytes: Vec<u8>) -> (r: Result<String, Base64DecodeError>)
    ensures
        text_of(bytes@) == (match r {
            Ok(text) => Ok(text@),
            Err(e) => Err(e),
        }),
{
    let ghost given = bytes@;
    match String::from_utf8(bytes) {
        Ok(text) => {
            proof {
                lemma_text_of_bytes(text@, given);
            }
            Ok(text)
        },
        Err(_) => Err(Base64DecodeError::Utf8Error),
    }
}

/// The only string whose UTF-8 bytes are `bytes` is the one that `bytes`
/// decode to.
pub proof fn lemma_text_of_bytes(text: Seq<char>, bytes: Seq<u8>)
    requires
        encode_utf8(text) == bytes,
    ensures
        valid_utf8(bytes),
        text == decode_utf8(bytes),
{
    encode_utf8_valid_utf8(text);
    encode_utf8_decode_utf8(text);
}

/// No character takes more than four bytes of UTF-8.
pub proof fn lemma_utf8_len_bound(chars: Seq<char>)
    ensures
        encode_utf8(chars).len() <= 4 * chars.len(),
    decreases chars.len(),
{
    if chars.len() > 0 {
        lemma_utf8_len_bound(chars.drop_first());
    }
}

} // verus!
