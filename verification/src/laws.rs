//! What holds of encoding and decoding, for every input and every variant.
//!
//! The laws on encoding speak of a value `encoded` of which
//! [`Variant::encodes`] holds: that is what the encoding functions of the
//! factory promise of the value they return. The law on padding speaks of
//! any text, as a value made by hand may hold it.

use crate::codec::encoded_len;
use crate::codec::is_pad;
use crate::codec::is_symbol;
use crate::codec::is_text;
use crate::error::Base64DecodeError;
use crate::magnitude::bytes_of;
use crate::magnitude::lemma_value_of_bytes_of;
use crate::magnitude::Endian;
use crate::padding::lemma_first_pad_some;
use crate::padding::lemma_pad_byte;
use crate::variant::Encoded;
use crate::variant::Variant;
use base64::CharacterSet;
use vstd::prelude::*;
use vstd::utf8::encode_utf8;
use vstd::utf8::encode_utf8_decode_utf8;
use vstd::utf8::encode_utf8_valid_utf8;
use vstd::utf8::is_ascii_chars;
use vstd::utf8::is_ascii_chars_encode_utf8;

verus! {

/// Bytes come back: under every variant, decoding what `bytes` were encoded
/// to succeeds and gives `bytes`. The variant that the value carries is the
/// one it was encoded under, so nothing but the value is needed to decode.
pub proof fn lemma_bytes_round_trip(variant: Variant, bytes: Seq<u8>, encoded: Encoded)
    requires
        variant.encodes(bytes, encoded),
    ensures
        encoded.variant == variant,
        encoded.decoded() == Ok::<Seq<u8>, Base64DecodeError>(bytes),
{
}

/// Strings come back: decoding to a string what the UTF-8 bytes of `text`
/// were encoded to succeeds and gives `text`.
pub proof fn lemma_string_round_trip(variant: Variant, text: Seq<char>, encoded: Encoded)
    requires
        variant.encodes(encode_utf8(text), encoded),
    ensures
        encoded.decoded_text() == Ok::<Seq<char>, Base64DecodeError>(text),
{
    encode_utf8_valid_utf8(text);
    encode_utf8_decode_utf8(text);
}

/// Integers that are not negative come back: decoding to an integer, in the
/// order `endian`, what the shortest bytes of `m` in that order were encoded
/// to succeeds and gives `m`.
pub proof fn lemma_integer_round_trip(variant: Variant, m: nat, endian: Endian, encoded: Encoded)
    requires
        variant.encodes(bytes_of(m, endian), encoded),
    ensures
        encoded.decoded_integer(endian) == Ok::<int, Base64DecodeError>(m as int),
{
    lemma_value_of_bytes_of(m, endian);
}

/// No bytes at all are encoded to the empty text, and decoding that value
/// gives no bytes.
pub proof fn lemma_empty_input(variant: Variant, encoded: Encoded)
    requires
        variant.encodes(Seq::<u8>::empty(), encoded),
    ensures
        encoded.value == Seq::<char>::empty(),
        encoded.decoded() == Ok::<Seq<u8>, Base64DecodeError>(Seq::<u8>::empty()),
{
    assert(encoded.value =~= Seq::<char>::empty());
}

/// The text of an encoded value is ASCII, so it has as many bytes as
/// characters: the number that Base64 has for so many bytes.
pub proof fn lemma_text_length(variant: Variant, bytes: Seq<u8>, encoded: Encoded)
    requires
        variant.encodes(bytes, encoded),
    ensures
        encode_utf8(encoded.value).len() == encoded_len(bytes.len(), variant.padding),
{
    assert(is_ascii_chars(encoded.value));
    is_ascii_chars_encode_utf8(encoded.value);
}

/// A text whose padding does not fit its variant is never decoded: either
/// the padding mode itself refuses it, or it holds a character that is not
/// Base64 at all, which the codec refuses.
pub proof fn lemma_misfit_padding(encoded: Encoded, char_set: CharacterSet)
    requires
        encoded.has_misfit_padding(),
        char_set == encoded.variant.char_set(),
    ensures
        encoded.padding_fault() is Some || !is_text(encoded.value, char_set),
{
    if encoded.variant.padding {
        if is_text(encoded.value, char_set) {
            assert(is_ascii_chars(encoded.value));
            is_ascii_chars_encode_utf8(encoded.value);
        }
    } else {
        let i = choose|i: int| 0 <= i < encoded.value.len() && is_pad(#[trigger] encoded.value[i]);
        let offset = lemma_pad_byte(encoded.value, i);
        lemma_first_pad_some(encode_utf8(encoded.value), offset);
    }
}

/// Where the standard text of some bytes holds `+` or `/`, the URL-safe
/// text of the same bytes is another text: it holds neither.
pub proof fn lemma_alphabets_differ(
    standard: Variant,
    url_safe: Variant,
    bytes: Seq<u8>,
    one: Encoded,
    other: Encoded,
    i: int,
)
    requires
        !standard.url_safe,
        url_safe.url_safe,
        standard.encodes(bytes, one),
        url_safe.encodes(bytes, other),
        0 <= i < one.value.len(),
        one.value[i] == '+' || one.value[i] == '/',
    ensures
        one.value != other.value,
{
    if one.value == other.value {
        assert(is_symbol(other.value[i], url_safe.char_set()) || is_pad(other.value[i]));
    }
}

/// Two values that the same bytes were encoded to under two variants decode
/// to the same bytes, each under the variant it carries.
pub proof fn lemma_variants_agree(
    first: Variant,
    second: Variant,
    bytes: Seq<u8>,
    one: Encoded,
    other: Encoded,
)
    requires
        first.encodes(bytes, one),
        second.encodes(bytes, other),
    ensures
        one.decoded() == other.decoded(),
{
}

} // verus!
