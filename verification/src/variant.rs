//! The mathematical model: a variant of Base64, a text under a variant, and
//! what encoding and decoding mean for them.

use crate::codec::base64_decoding;
use crate::codec::base64_encoding;
use crate::codec::encoded_len;
use crate::codec::is_text;
use crate::codec::is_unpadded;
use crate::error::Base64DecodeError;
use crate::error::CodecError;
use crate::magnitude::value_of;
use crate::magnitude::Endian;
use crate::padding::padding_fault;
use crate::text::text_of;
use base64::CharacterSet;
use vstd::prelude::*;
use vstd::utf8::encode_utf8;

verus! {

/// One variant of Base64: which alphabet, and whether the text is padded.
/// It is what a factory is, and what every encoded value carries.
pub struct Variant {
    /// `-` and `_` stand in place of `+` and `/`.
    pub url_safe: bool,
    /// The last group of the text is filled with `=`.
    pub padding: bool,
}

impl Variant {
    /// The alphabet of the codec that the variant selects.
    pub open spec fn char_set(self) -> CharacterSet {
        if self.url_safe {
            CharacterSet::UrlSafe
        } else {
            CharacterSet::Standard
        }
    }

    /// The Base64 text of `bytes` under this variant.
    pub open spec fn text_of(self, bytes: Seq<u8>) -> Seq<char> {
        base64_encoding(bytes, self.char_set(), self.padding)
    }

    /// Whether the text of `n` bytes can be held in memory: no `String` has
    /// more than `isize::MAX` bytes.
    pub open spec fn holds(self, n: nat) -> bool {
        encoded_len(n, self.padding) <= isize::MAX
    }

    /// Whether the text of the UTF-8 bytes of `text` can be held in memory.
    /// No character takes more than four bytes, so it is enough that the
    /// text of four bytes for each character can be held; that is the easier
    /// to show of a given string.
    pub open spec fn holds_text(self, text: Seq<char>) -> bool {
        self.holds(encode_utf8(text).len()) || self.holds(4 * text.len())
    }

    /// `encoded` is what encoding `bytes` under this variant gives: it
    /// carries this variant; its text is the codec's text of `bytes`, of the
    /// length that Base64 has for so many bytes, made of nothing but symbols
    /// of the alphabet and padding signs, and without a padding sign where
    /// the variant has no padding; and decoding it gives `bytes`.
    pub open spec fn encodes(self, bytes: Seq<u8>, encoded: Encoded) -> bool {
        &&& encoded.variant == self
        &&& encoded.value == self.text_of(bytes)
        &&& encoded.value.len() == encoded_len(bytes.len(), self.padding)
        &&& !encoded.has_foreign_char()
        &&& !self.padding ==> is_unpadded(encoded.value)
        &&& encoded.decoded() == Ok::<Seq<u8>, Base64DecodeError>(bytes)
    }
}

/// A text together with the variant it is to be read under.
pub struct Encoded {
    /// The text.
    pub value: Seq<char>,
    /// The variant.
    pub variant: Variant,
}

impl Encoded {
    /// Whether the text holds a character that is neither one of the 64
    /// symbols of the variant's alphabet nor the padding sign.
    pub open spec fn has_foreign_char(self) -> bool {
        !is_text(self.value, self.variant.char_set())
    }

    /// Whether the padding of the text does not fit the padding mode of its
    /// variant, as far as the characters tell: with padding, their number is
    /// not a multiple of four; without padding, one of them is `=`.
    pub open spec fn has_misfit_padding(self) -> bool {
        if self.variant.padding {
            self.value.len() % 4 != 0
        } else {
            !is_unpadded(self.value)
        }
    }

    /// What is wrong with the padding of the text under the padding mode of
    /// its variant: see [`padding_fault`]. The offset counts the bytes of
    /// the text, as the codec's offsets do.
    pub open spec fn padding_fault(self) -> Option<CodecError> {
        padding_fault(encode_utf8(self.value), self.variant.padding)
    }

    /// The bytes that the text stands for under its variant, or the reason
    /// for which it is refused. A text whose padding does not fit the
    /// padding mode of the variant is refused for that, before the codec is
    /// asked; any other text is what the codec makes of it.
    pub open spec fn decoded(self) -> Result<Seq<u8>, Base64DecodeError> {
        match self.padding_fault() {
            Some(fault) => Err(Base64DecodeError::DecodeError(fault)),
            None => match base64_decoding(
                self.value,
                self.variant.char_set(),
                self.variant.padding,
            ) {
                Ok(bytes) => Ok(bytes),
                Err(e) => Err(Base64DecodeError::DecodeError(CodecError::of(e))),
            },
        }
    }

    /// The string that the text stands for: the decoded bytes read as UTF-8.
    /// A text that the codec refuses fails as in [`Self::decoded`]; bytes
    /// that are not UTF-8 are a failure of their own.
    pub open spec fn decoded_text(self) -> Result<Seq<char>, Base64DecodeError> {
        match self.decoded() {
            Ok(bytes) => text_of(bytes),
            Err(e) => Err(e),
        }
    }

    /// The integer that the text stands for: the number that the decoded
    /// bytes spell in the order `endian`. It is never negative.
    pub open spec fn decoded_integer(self, endian: Endian) -> Result<int, Base64DecodeError> {
        match self.decoded() {
            Ok(bytes) => Ok(value_of(bytes, endian) as int),
            Err(e) => Err(e),
        }
    }
}

} // verus!
