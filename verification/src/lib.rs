//! Base64 text that remembers how it was encoded.
//!
//! A [`Base64StringFactory`] holds one variant of Base64 (the alphabet, and
//! whether the text is padded) and encodes bytes, strings and big integers
//! under it. What it returns, a [`Base64String`], carries the text together
//! with that variant, so decoding never asks for the variant again: a text
//! whose padding does not fit the variant it carries is refused.
//!
//! ```
//! use base64_string_rs::Base64StringFactory;
//!
//! let encoded = Base64StringFactory::new(true, false).encode_from_bytes(&[0xfb, 0xff]);
//! assert_eq!(encoded.to_value(), "-_8");
//! assert!(encoded.is_url_safe());
//! assert_eq!(encoded.decode_to_bytes(), Ok(vec![0xfb, 0xff]));
//! ```
//!
//! The Base64 codec itself is the `base64` crate, and big integers are those
//! of `num-bigint`. What this library takes on trust of the two, and of
//! `String::from_utf8`, is declared in [`codec`], [`magnitude`] and [`text`];
//! everything else is proved.

pub mod codec;
pub mod encoded;
pub mod error;
pub mod factory;
pub mod laws;
pub mod magnitude;
pub mod padding;
pub mod text;
pub mod variant;

pub use crate::encoded::Base64String;
pub use crate::error::Base64DecodeError;
pub use crate::error::CodecError;
pub use crate::factory::Base64StringFactory;
pub use crate::magnitude::Endian;
