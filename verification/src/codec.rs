//! The Base64 codec of the `base64` crate, and what is taken on trust of it.

use base64::CharacterSet;
use base64::Config;
use base64::DecodeError;
use vstd::prelude::*;

verus! {

/// `base64::CharacterSet`, the alphabets that the codec offers. The enum has
/// no fields, and Verus reads its variants from the crate.
#[verifier::external_type_specification]
pub struct ExCharacterSet(CharacterSet);

/// `base64::DecodeError`, the reasons for which the codec refuses a text.
/// Verus reads its variants, and the offset and byte that two of them hold,
/// from the crate.
#[verifier::external_type_specification]
pub struct ExDecodeError(DecodeError);

/// The text that `base64::encode_config` returns for `bytes` under the
/// configuration `Config::new(char_set, pad)`.
pub uninterp spec fn base64_encoding(bytes: Seq<u8>, char_set: CharacterSet, pad: bool) -> Seq<char>;

/// What `base64::decode_config` returns for `text` under the configuration
/// `Config::new(char_set, pad)`: the bytes, or the reason for refusing. The
/// codec reads padded and unpadded text whatever `pad` is; the padding mode
/// is held against the text in [`crate::padding`].
pub uninterp spec fn base64_decoding(text: Seq<char>, char_set: CharacterSet, pad: bool) -> Result<
    Seq<u8>,
    DecodeError,
>;

/// The two alphabets that this library encodes under.
pub open spec fn is_plain(char_set: CharacterSet) -> bool {
    char_set is Standard || char_set is UrlSafe
}

/// Whether `c` is one of the 64 symbols of a plain alphabet: the letters and
/// digits, then `+` and `/` in the standard alphabet, `-` and `_` in the
/// URL-safe one.
pub open spec fn is_symbol(c: char, char_set: CharacterSet) -> bool {
    ||| 'A' <= c <= 'Z'
    ||| 'a' <= c <= 'z'
    ||| '0' <= c <= '9'
    ||| (char_set is Standard && (c == '+' || c == '/'))
    ||| (char_set is UrlSafe && (c == '-' || c == '_'))
}

/// The sign that fills the last group of a padded text.
pub open spec fn is_pad(c: char) -> bool {
    c == '='
}

/// Whether `text` holds no padding sign.
pub open spec fn is_unpadded(text: Seq<char>) -> bool {
    forall|i: int| 0 <= i < text.len() ==> !is_pad(#[trigger] text[i])
}

/// Whether every character of `text` is a symbol of the alphabet or the
/// padding sign. Nothing else occurs in Base64 text; where the signs stand
/// is not said here.
pub open spec fn is_text(text: Seq<char>, char_set: CharacterSet) -> bool {
    forall|i: int|
        0 <= i < text.len() ==> is_symbol(#[trigger] text[i], char_set) || is_pad(text[i])
}

/// How many characters the Base64 text for `n` bytes has: four for each full
/// group of three bytes; for a rest of one or two bytes four more with
/// padding, two or three more without.
pub open spec fn encoded_len(n: nat, pad: bool) -> nat {
    if n % 3 == 0 {
        n / 3 * 4
    } else if pad {
        n / 3 * 4 + 4
    } else {
        n / 3 * 4 + n % 3 + 1
    }
}

/// More bytes never have a shorter text.
pub proof fn lemma_encoded_len_grows(n: nat, m: nat, pad: bool)
    requires
        n <= m,
    ensures
        encoded_len(n, pad) <= encoded_len(m, pad),
{
}

/// Calls `base64::encode_config`.
///
/// Taken on trust of it: the text it returns is a function of the bytes and
/// of the configuration, here named [`base64_encoding`]; the text has
/// [`encoded_len`] characters, each a symbol of the alphabet or the padding
/// sign, and no padding sign at all where `pad` is off; and
/// `base64::decode_config` under the same configuration turns that text
/// back into the bytes. The codec panics where it cannot allocate the text,
/// so a text of more than `isize::MAX` characters is left out.
#[verifier::external_body]
pub(crate) fn codec_encode(input: &[u8], char_set: CharacterSet, pad: bool) -> (text: String)
    requires
        is_plain(char_set),
        encoded_len(input@.len(), pad) <= isize::MAX,
    ensures
        text@ == base64_encoding(input@, char_set, pad),
        text@.len() == encoded_len(input@.len(), pad),
        is_text(text@, char_set),
        !pad ==> is_unpadded(text@),
        (base64_decoding(text@, char_set, pad) == Ok::<Seq<u8>, DecodeError>(input@)),
{
    base64::encode_config(input, Config::new(char_set, pad))
}

/// Calls `base64::decode_config`.
///
/// Taken on trust of it: what it returns is a function of the text and of
/// the configuration, here named [`base64_decoding`]; and it refuses every
/// text that holds a character which is neither a symbol of the alphabet nor
/// the padding sign. A `str` never spans more than `isize::MAX` bytes, so
/// the sums over its length in the codec cannot overflow.
#[verifier::external_body]
pub(crate) fn codec_decode(text: &str, char_set: CharacterSet, pad: bool) -> (r: Result<
    Vec<u8>,
    DecodeError,
>)
    requires
        is_plain(char_set),
    ensures
        match r {
            Ok(bytes) => base64_decoding(text@, char_set, pad) == Ok::<Seq<u8>, DecodeError>(
                bytes@,
            ),
            Err(e) => base64_decoding(text@, char_set, pad) == Err::<Seq<u8>, DecodeError>(e),
        },
        r is Ok ==> is_text(text@, char_set),
{
    base64::decode_config(text, Config::new(char_set, pad))
}

} // verus!
