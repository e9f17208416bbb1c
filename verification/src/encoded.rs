//! A Base64 text that carries its variant, and its decoding.

use crate::codec::codec_decode;
use crate::error::Base64DecodeError;
use crate::error::CodecError;
use crate::magnitude::bigint_value;
use crate::magnitude::from_magnitude_bytes;
use crate::magnitude::Endian;
use crate::laws::lemma_misfit_padding;
use crate::padding::padding_fault_of;
use crate::text::string_from_bytes;
use crate::variant::Encoded;
use crate::variant::Variant;
use base64::CharacterSet;
use num_bigint::BigInt;
use vstd::prelude::*;
use vstd::string::StringExecFns;
use vstd::utf8::encode_utf8;

verus! {

/// A Base64 text together with the variant it was encoded under. The text is
/// not examined when the value is made: whether it is Base64 at all, and
/// whether its padding fits the variant, is found out by decoding.
///
/// Decoding takes the value by move; clone it first to keep it.
#[derive(Debug)]
pub struct Base64String {
    value: String,
    url_safe: bool,
    padding: bool,
}

impl Clone for Base64String {
    fn clone(&self) -> (r: Self)
        ensures
            r@ == self@,
    {
        Self { value: self.value.clone(), url_safe: self.url_safe, padding: self.padding }
    }
}

impl View for Base64String {
    type V = Encoded;

    closed spec fn view(&self) -> Encoded {
        Encoded {
            value: self.value@,
            variant: Variant { url_safe: self.url_safe, padding: self.padding },
        }
    }
}

/// `true` or `false`, as the rendering writes a flag.
pub open spec fn flag_text(flag: bool) -> Seq<char> {
    if flag {
        "true"@
    } else {
        "false"@
    }
}

/// The rendering of an encoded value for a reader:
/// `Base64String(value = .., url_safe = .., padding = ..)`.
pub open spec fn rendering(encoded: Encoded) -> Seq<char> {
    "Base64String(value = "@ + encoded.value + ", url_safe = "@ + flag_text(
        encoded.variant.url_safe,
    ) + ", padding = "@ + flag_text(encoded.variant.padding) + ")"@
}

fn flag_str(flag: bool) -> (r: &'static str)
    ensures
        r@ == flag_text(flag),
{
    if flag {
        "true"
    } else {
        "false"
    }
}

impl Base64String {
    /// Takes a text that is already encoded, with the variant to read it
    /// under.
    pub fn new(value: String, url_safe: bool, padding: bool) -> (r: Self)
        ensures
            r@ == (Encoded { value: value@, variant: Variant { url_safe, padding } }),
    {
        Self { value, url_safe, padding }
    }

    /// [`Self::is_url_safe`], for use in contracts.
    pub open spec fn spec_is_url_safe(&self) -> bool {
        self@.variant.url_safe
    }

    /// Whether the text uses the URL-safe alphabet.
    #[verifier::when_used_as_spec(spec_is_url_safe)]
    pub fn is_url_safe(&self) -> (r: bool)
        ensures
            r == self@.variant.url_safe,
    {
        self.url_safe
    }

    /// [`Self::is_padding`], for use in contracts.
    pub open spec fn spec_is_padding(&self) -> bool {
        self@.variant.padding
    }

    /// Whether the text is padded.
    #[verifier::when_used_as_spec(spec_is_padding)]
    pub fn is_padding(&self) -> (r: bool)
        ensures
            r == self@.variant.padding,
    {
        self.padding
    }

    /// The length of the text in bytes. Base64 text is ASCII, so for a text
    /// that the codec made this is the number of its characters.
    pub fn len(&self) -> (r: usize)
        ensures
            r == encode_utf8(self@.value).len(),
    {
        self.value.as_str().as_bytes().len()
    }

    /// The text.
    pub fn to_value(&self) -> (r: &str)
        ensures
            r@ == self@.value,
    {
        self.value.as_str()
    }

    /// Renders the value for a reader. The rendering is for diagnostics: the
    /// value cannot be read back from it.
    pub fn to_string(&self) -> (r: String)
        ensures
            r@ == rendering(self@),
    {
        let mut out = String::from_str("Base64String(value = ");
        out.append(self.value.as_str());
        out.append(", url_safe = ");
        out.append(flag_str(self.url_safe));
        out.append(", padding = ");
        out.append(flag_str(self.padding));
        out.append(")");
        out
    }

    /// Decodes the text under the variant that the value carries.
    ///
    /// The padding mode of the variant is held against the text first: with
    /// padding, a text whose length is not a multiple of four is refused
    /// with `InvalidLength`; without padding, a text that holds `=` is
    /// refused with `InvalidByte` at the first `=`. Any other text is handed
    /// to the codec: the bytes come back where it accepts the text, and its
    /// reason where it does not. A text that holds a character which is
    /// neither a symbol of the alphabet nor the padding sign is never
    /// accepted.
    pub fn decode_to_bytes(self) -> (r: Result<Vec<u8>, Base64DecodeError>)
        ensures
            self@.decoded() == (match r {
                Ok(bytes) => Ok(bytes@),
                Err(e) => Err(e),
            }),
            self@.has_foreign_char() || self@.has_misfit_padding() ==> r matches Err(
                Base64DecodeError::DecodeError(_),
            ),
    {
        match padding_fault_of(self.value.as_str(), self.padding) {
            Some(fault) => Err(Base64DecodeError::DecodeError(fault)),
            None => {
                let char_set = if self.url_safe {
                    CharacterSet::UrlSafe
                } else {
                    CharacterSet::Standard
                };
                proof {
                    if self@.has_misfit_padding() {
                        lemma_misfit_padding(self@, char_set);
                    }
                }
                match codec_decode(self.value.as_str(), char_set, self.padding) {
                    Ok(bytes) => Ok(bytes),
                    Err(e) => Err(Base64DecodeError::DecodeError(CodecError::from_codec(e))),
                }
            },
        }
    }

    /// Decodes the text and reads the bytes as UTF-8.
    ///
    /// Fails as [`Self::decode_to_bytes`] does, and with
    /// [`Base64DecodeError::Utf8Error`] where the text decodes to bytes that
    /// are not UTF-8.
    pub fn decode_to_string(self) -> (r: Result<String, Base64DecodeError>)
        ensures
            self@.decoded_text() == (match r {
                Ok(text) => Ok(text@),
                Err(e) => Err(e),
            }),
            self@.has_foreign_char() || self@.has_misfit_padding() ==> r matches Err(
                Base64DecodeError::DecodeError(_),
            ),
    {
        match self.decode_to_bytes() {
            Ok(bytes) => string_from_bytes(bytes),
            Err(e) => Err(e),
        }
    }

    /// Decodes the text and reads the bytes, in the order `endian`, as the
    /// magnitude of an integer. The integer is never negative; beyond what
    /// [`Self::decode_to_bytes`] refuses nothing fails.
    pub fn decode_with_endian_to_bigint(self, endian: Endian) -> (r: Result<
        BigInt,
        Base64DecodeError,
    >)
        ensures
            self@.decoded_integer(endian) == (match r {
                Ok(n) => Ok(bigint_value(n)),
                Err(e) => Err(e),
            }),
            self@.has_foreign_char() || self@.has_misfit_padding() ==> r matches Err(
                Base64DecodeError::DecodeError(_),
            ),
    {
        match self.decode_to_bytes() {
            Ok(bytes) => Ok(from_magnitude_bytes(bytes.as_slice(), endian)),
            Err(e) => Err(e),
        }
    }
}

} // verus!
