//! The padding mode of a variant, held against a text before the codec sees
//! it. The codec itself reads padded and unpadded text alike.

use crate::codec::encoded_len;
use crate::codec::is_pad;
use crate::codec::is_unpadded;
use crate::codec::is_text;
use crate::error::CodecError;
use vstd::prelude::*;
use vstd::utf8::encode_scalar;
use vstd::utf8::encode_utf8;
use vstd::utf8::is_ascii_chars;
use vstd::utf8::is_ascii_chars_encode_utf8;

verus! {

/// The padding sign `=`, as a byte of the text.
pub const PAD: u8 = 61;

/// The offset of the first padding sign among `bytes`, where there is one.
pub open spec fn first_pad(bytes: Seq<u8>) -> Option<int>
    decreases bytes.len(),
{
    if bytes.len() == 0 {
        None
    } else if bytes[0] == PAD {
        Some(0)
    } else {
        match first_pad(bytes.drop_first()) {
            Some(offset) => Some(offset + 1),
            None => None,
        }
    }
}

/// What is wrong with a text of the bytes `bytes` under the padding mode
/// `padding`. With padding every group is full, so the length is a multiple
/// of four: any other length is `InvalidLength`. Without padding no padding
/// sign occurs: the first one is an `InvalidByte` at its offset.
pub open spec fn padding_fault(bytes: Seq<u8>, padding: bool) -> Option<CodecError> {
    if padding {
        if bytes.len() % 4 == 0 {
            None
        } else {
            Some(CodecError::InvalidLength)
        }
    } else {
        match first_pad(bytes) {
            Some(offset) => Some(CodecError::InvalidByte(offset as usize, PAD)),
            None => None,
        }
    }
}

/// Holds the text against the padding mode: see [`padding_fault`].
pub fn padding_fault_of(text: &str, padding: bool) -> (r: Option<CodecError>)
    ensures
        r == padding_fault(encode_utf8(text@), padding),
{
    let bytes = text.as_bytes();
    if padding {
        if bytes.len() % 4 == 0 {
            None
        } else {
            Some(CodecError::InvalidLength)
        }
    } else {
        let mut i: usize = 0;
        while i < bytes.len()
            invariant
                !padding,
                bytes@ == encode_utf8(text@),
                i <= bytes@.len(),
                forall|j: int| 0 <= j < i ==> bytes@[j] != PAD,
            decreases bytes@.len() - i,
        {
            if bytes[i] == PAD {
                proof {
                    lemma_first_pad_found(bytes@, i as int);
                }
                return Some(CodecError::InvalidByte(i, PAD));
            }
            i += 1;
        }
        proof {
            lemma_first_pad_none(bytes@);
        }
        None
    }
}

/// The first padding sign is the one before which there is none.
pub proof fn lemma_first_pad_found(bytes: Seq<u8>, offset: int)
    requires
        0 <= offset < bytes.len(),
        bytes[offset] == PAD,
        forall|j: int| 0 <= j < offset ==> bytes[j] != PAD,
    ensures
        first_pad(bytes) == Some(offset),
    decreases offset,
{
    if offset > 0 {
        lemma_first_pad_found(bytes.drop_first(), offset - 1);
    }
}

/// Bytes without a padding sign have no first one.
pub proof fn lemma_first_pad_none(bytes: Seq<u8>)
    requires
        forall|j: int| 0 <= j < bytes.len() ==> bytes[j] != PAD,
    ensures
        first_pad(bytes) is None,
    decreases bytes.len(),
{
    if bytes.len() > 0 {
        lemma_first_pad_none(bytes.drop_first());
    }
}

/// Bytes that hold a padding sign have a first one.
pub proof fn lemma_first_pad_some(bytes: Seq<u8>, offset: int)
    requires
        0 <= offset < bytes.len(),
        bytes[offset] == PAD,
    ensures
        first_pad(bytes) is Some,
    decreases bytes.len(),
{
    if bytes[0] != PAD {
        lemma_first_pad_some(bytes.drop_first(), offset - 1);
    }
}

/// The padding sign is a byte of its own in UTF-8: where `text` holds `=`,
/// its bytes hold the byte [`PAD`]. The place of that byte comes back.
pub proof fn lemma_pad_byte(text: Seq<char>, i: int) -> (offset: int)
    requires
        0 <= i < text.len(),
        is_pad(text[i]),
    ensures
        0 <= offset < encode_utf8(text).len(),
        encode_utf8(text)[offset] == PAD,
    decreases text.len(),
{
    let head = encode_scalar(text[0] as u32);
    let tail = encode_utf8(text.drop_first());
    assert(encode_utf8(text) == head + tail);
    if i == 0 {
        assert(text[0] as u32 == 61u32);
        assert((61u32 & 0x7F) as u8 == 61u8) by (bit_vector);
        0
    } else {
        let inner = lemma_pad_byte(text.drop_first(), i - 1);
        head.len() + inner
    }
}

/// A text as the codec writes it for `n` bytes fits the padding mode it was
/// written under: nothing but symbols and padding signs, of the length that
/// Base64 has for `n` bytes, and without a padding sign where none is asked
/// for.
pub proof fn lemma_written_text_fits(
    text: Seq<char>,
    char_set: base64::CharacterSet,
    n: nat,
    padding: bool,
)
    requires
        is_text(text, char_set),
        text.len() == encoded_len(n, padding),
        !padding ==> is_unpadded(text),
    ensures
        padding_fault(encode_utf8(text), padding) is None,
{
    assert(is_ascii_chars(text));
    is_ascii_chars_encode_utf8(text);
    let bytes = encode_utf8(text);
    if !padding {
        assert forall|j: int| 0 <= j < bytes.len() implies bytes[j] != PAD by {
            assert(!is_pad(text[j]));
            assert(text[j] as u8 == bytes[j]);
        }
        lemma_first_pad_none(bytes);
    }
}

} // verus!
