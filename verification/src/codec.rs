//! Base64 decoding of image data, done by the `base64` crate.

use crate::text::{decimal, decimal_text};
use base64::engine::general_purpose::STANDARD;
use base64::{DecodeError, Engine};
use vstd::prelude::*;
use vstd::string::*;

verus! {

/// Why a text is not standard base64.
#[derive(Debug, Clone, Copy, PartialEq, Eq, Structural)]
pub enum DecodeFailure {
    /// A byte that is no base64 symbol, or padding in the wrong place.
    InvalidByte { offset: usize, byte: u8 },
    /// A number of symbols that no encoding has.
    InvalidLength { length: usize },
    /// A last symbol whose unused bits are not zero.
    InvalidLastSymbol { offset: usize, byte: u8 },
    /// Padding that is missing or not canonical.
    InvalidPadding,
}

/// What decoding `text` as standard base64 (the alphabet of RFC 4648, with
/// canonical padding required) gives: the bytes, or why there are none.
pub uninterp spec fn standard_decoding(text: Seq<char>) -> Result<Seq<u8>, DecodeFailure>;

/// Decodes standard base64.
///
/// Calls `base64::Engine::decode` on `base64::engine::general_purpose::STANDARD`.
/// The contract names the outcome of that call and claims nothing else: the
/// bytes on success, and on failure the variant and fields of the crate's
/// `DecodeError`, carried over one for one.
#[verifier::external_body]
pub(crate) fn decode_standard(text: &str) -> (r: Result<Vec<u8>, DecodeFailure>)
    ensures
        match r {
            Ok(bytes) => standard_decoding(text@) == Ok::<Seq<u8>, DecodeFailure>(bytes@),
            Err(failure) => standard_decoding(text@) == Err::<Seq<u8>, DecodeFailure>(failure),
        },
{
    match STANDARD.decode(text) {
        Ok(bytes) => Ok(bytes),
        Err(DecodeError::InvalidByte(offset, byte)) => Err(DecodeFailure::InvalidByte { offset, byte }),
        Err(DecodeError::InvalidLength(length)) => Err(DecodeFailure::InvalidLength { length }),
        Err(DecodeError::InvalidLastSymbol(offset, byte)) => {
            Err(DecodeFailure::InvalidLastSymbol { offset, byte })
        },
        Err(DecodeError::InvalidPadding) => Err(DecodeFailure::InvalidPadding),
    }
}

impl DecodeFailure {
    /// The sentence that describes the failure.
    pub open spec fn text(self) -> Seq<char> {
        match self {
            DecodeFailure::InvalidByte { offset, byte } => "Invalid symbol "@ + decimal(byte as nat)
                + ", offset "@ + decimal(offset as nat) + "."@,
            DecodeFailure::InvalidLength { length } => "Invalid input length: "@ + decimal(
                length as nat,
            ),
            DecodeFailure::InvalidLastSymbol { offset, byte } => "Invalid last symbol "@ + decimal(
                byte as nat,
            ) + ", offset "@ + decimal(offset as nat) + "."@,
            DecodeFailure::InvalidPadding => "Invalid padding"@,
        }
    }

    /// Describes the failure in a sentence.
    pub fn describe(&self) -> (r: String)
        ensures
            r@ == self.text(),
    {
        match *self {
            DecodeFailure::InvalidByte { offset, byte } => {
                String::from_str("Invalid symbol ").concat(decimal_text(byte as u64).as_str()).concat(
                    ", offset ",
                ).concat(decimal_text(offset as u64).as_str()).concat(".")
            },
            DecodeFailure::InvalidLength { length } => {
                String::from_str("Invalid input length: ").concat(
                    decimal_text(length as u64).as_str(),
                )
            },
            DecodeFailure::InvalidLastSymbol { offset, byte } => {
                String::from_str("Invalid last symbol ").concat(
                    decimal_text(byte as u64).as_str(),
                ).concat(", offset ").concat(decimal_text(offset as u64).as_str()).concat(".")
            },
            DecodeFailure::InvalidPadding => String::from_str("Invalid padding"),
        }
    }
}

} // verus!
