//! The ways in which decoding fails.

use base64::DecodeError;
use vstd::prelude::*;

verus! {

/// Why the codec refused a text.
#[derive(Debug, Clone, Copy, PartialEq, Eq, Structural)]
pub enum CodecError {
    /// A byte that the alphabet does not hold, or padding out of place:
    /// the offset of the byte in the text, and the byte.
    InvalidByte(usize, u8),
    /// The text has a length that no encoding has.
    InvalidLength,
    /// The last symbol holds bits that belong to no byte: its offset in the
    /// text, and the symbol.
    InvalidLastSymbol(usize, u8),
}

impl CodecError {
    /// The reason that stands for the codec's own `e`.
    pub open spec fn of(e: DecodeError) -> CodecError {
        match e {
            DecodeError::InvalidByte(offset, byte) => CodecError::InvalidByte(offset, byte),
            DecodeError::InvalidLength => CodecError::InvalidLength,
            DecodeError::InvalidLastSymbol(offset, byte) => CodecError::InvalidLastSymbol(
                offset,
                byte,
            ),
        }
    }

    /// Takes the offset and the byte over from the codec's own error.
    pub fn from_codec(e: DecodeError) -> (r: CodecError)
        ensures
            r == CodecError::of(e),
    {
        match e {
            DecodeError::InvalidByte(offset, byte) => CodecError::InvalidByte(offset, byte),
            DecodeError::InvalidLength => CodecError::InvalidLength,
            DecodeError::InvalidLastSymbol(offset, byte) => CodecError::InvalidLastSymbol(
                offset,
                byte,
            ),
        }
    }
}

/// Why a [`crate::Base64String`] could not be decoded. The two causes are
/// told apart by the variant.
#[derive(Debug, Clone, Copy, PartialEq, Eq, Structural)]
pub enum Base64DecodeError {
    /// The text is not Base64 under the variant that the value carries.
    DecodeError(CodecError),
    /// The text is Base64, but the bytes it stands for are not UTF-8.
    Utf8Error,
}

} // verus!
