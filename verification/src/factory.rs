//! The factory: one variant of Base64, and encoding under it.

use crate::codec::codec_encode;
use crate::codec::lemma_encoded_len_grows;
use crate::encoded::Base64String;
use crate::error::Base64DecodeError;
use crate::laws::lemma_integer_round_trip;
use crate::laws::lemma_string_round_trip;
use crate::magnitude::bigint_value;
use crate::magnitude::bytes_of;
use crate::magnitude::to_magnitude_bytes;
use crate::magnitude::Endian;
use crate::padding::lemma_written_text_fits;
use crate::text::lemma_utf8_len_bound;
use crate::variant::Variant;
use base64::CharacterSet;
use num_bigint::BigInt;
use vstd::math::abs;
use vstd::prelude::*;
use vstd::utf8::encode_utf8;

verus! {

/// Holds one variant of Base64 and encodes under it. Each encoding takes the
/// factory by move and leaves nothing behind; clone it to encode again.
#[derive(Debug)]
pub struct Base64StringFactory {
    url_safe: bool,
    padding: bool,
}

impl Clone for Base64StringFactory {
    fn clone(&self) -> (r: Self)
        ensures
            r@ == self@,
    {
        Self { url_safe: self.url_safe, padding: self.padding }
    }
}

impl View for Base64StringFactory {
    type V = Variant;

    closed spec fn view(&self) -> Variant {
        Variant { url_safe: self.url_safe, padding: self.padding }
    }
}

impl Default for Base64StringFactory {
    /// The standard alphabet, without padding.
    fn default() -> (r: Self)
        ensures
            r@ == (Variant { url_safe: false, padding: false }),
    {
        Self::new(false, false)
    }
}

impl Base64StringFactory {
    /// A factory for the variant with the given alphabet and padding.
    pub fn new(url_safe: bool, padding: bool) -> (r: Self)
        ensures
            r@ == (Variant { url_safe, padding }),
    {
        Self { url_safe, padding }
    }

    /// Encodes `input` under the alphabet and the padding of the factory,
    /// and hands both on to the value.
    fn encode(self, input: &[u8]) -> (r: Base64String)
        requires
            self@.holds(input@.len()),
        ensures
            self@.encodes(input@, r@),
    {
        let char_set = if self.url_safe {
            CharacterSet::UrlSafe
        } else {
            CharacterSet::Standard
        };
        let text = codec_encode(input, char_set, self.padding);
        proof {
            lemma_written_text_fits(text@, char_set, input@.len(), self.padding);
        }
        Base64String::new(text, self.url_safe, self.padding)
    }

    /// Encodes the UTF-8 bytes of `input`.
    ///
    /// The value that comes back carries the factory's variant, and
    /// decoding it to a string gives `input`. The text has to fit in memory;
    /// [`Self::can_encode`] tests that for the length of `input` in bytes.
    pub fn encode_from_string(self, input: &str) -> (r: Base64String)
        requires
            self@.holds_text(input@),
        ensures
            self@.encodes(encode_utf8(input@), r@),
            (r@.decoded_text() == Ok::<Seq<char>, Base64DecodeError>(input@)),
    {
        proof {
            lemma_utf8_len_bound(input@);
            lemma_encoded_len_grows(encode_utf8(input@).len(), 4 * input@.len(), self.padding);
        }
        let encoded = self.encode(input.as_bytes());
        proof {
            lemma_string_round_trip(self@, input@, encoded@);
        }
        encoded
    }

    /// Encodes `input`. No bytes at all give the empty text.
    ///
    /// The value that comes back carries the factory's variant, and
    /// decoding it gives `input`. The text has to fit in memory;
    /// [`Self::can_encode`] tests that for the length of `input`.
    pub fn encode_from_bytes(self, input: &[u8]) -> (r: Base64String)
        requires
            self@.holds(input@.len()),
        ensures
            self@.encodes(input@, r@),
            (r@.decoded() == Ok::<Seq<u8>, Base64DecodeError>(input@)),
            input@.len() == 0 ==> r@.value.len() == 0,
    {
        self.encode(input)
    }

    /// Whether the text of `len` bytes can be held in memory under this
    /// factory's variant: the test to make before encoding bytes of a
    /// length that is not known to be small.
    pub fn can_encode(&self, len: usize) -> (r: bool)
        ensures
            r == self@.holds(len as nat),
    {
        let groups: usize = len / 3;
        let rest: usize = len % 3;
        let tail: usize = if rest == 0 {
            0
        } else if self.padding {
            4
        } else {
            rest + 1
        };
        let limit: usize = isize::MAX as usize;
        groups <= (limit - tail) / 4
    }

    /// Encodes the magnitude of `input`: its shortest bytes in the order
    /// `endian`, a single zero byte for zero. The sign is not encoded.
    ///
    /// The value that comes back carries the factory's variant, and
    /// decoding it to an integer in the same order gives the magnitude of
    /// `input`. The text has to fit in memory; where that is not known of
    /// `input`, [`Self::checked_encode_with_endian_from_bigint`] finds out.
    pub fn encode_with_endian_from_bigint(self, input: &BigInt, endian: Endian) -> (r:
        Base64String)
        requires
            self@.holds(bytes_of(abs(bigint_value(*input)), endian).len()),
        ensures
            self@.encodes(bytes_of(abs(bigint_value(*input)), endian), r@),
            (r@.decoded_integer(endian) == Ok::<int, Base64DecodeError>(
                abs(bigint_value(*input)) as int,
            )),
    {
        let bytes = to_magnitude_bytes(input, endian);
        let encoded = self.encode(bytes.as_slice());
        proof {
            lemma_integer_round_trip(self@, abs(bigint_value(*input)), endian, encoded@);
        }
        encoded
    }

    /// Encodes the magnitude of `input` as
    /// [`Self::encode_with_endian_from_bigint`] does, where its text can be
    /// held in memory, and returns `None` where it cannot.
    pub fn checked_encode_with_endian_from_bigint(self, input: &BigInt, endian: Endian) -> (r:
        Option<Base64String>)
        ensures
            r is Some <==> self@.holds(bytes_of(abs(bigint_value(*input)), endian).len()),
            r matches Some(encoded) ==> self@.encodes(
                bytes_of(abs(bigint_value(*input)), endian),
                encoded@,
            ),
            r matches Some(encoded) ==> (encoded@.decoded_integer(endian) == Ok::<
                int,
                Base64DecodeError,
            >(abs(bigint_value(*input)) as int)),
    {
        let bytes = to_magnitude_bytes(input, endian);
        if self.can_encode(bytes.len()) {
            let encoded = self.encode(bytes.as_slice());
            proof {
                lemma_integer_round_trip(self@, abs(bigint_value(*input)), endian, encoded@);
            }
            Some(encoded)
        } else {
            None
        }
    }
}

} // verus!
