//! The sum that a manifest declares for a file, from its hexadecimal form.

use crate::schema::manifest::Sha256;
use vstd::prelude::*;
use vstd::utf8::encode_utf8;

verus! {

/// An error that can happen when decoding a hexadecimal string.
#[derive(Debug, Clone, Copy, PartialEq, Eq, Structural)]
pub enum HexError {
    /// An invalid character was found. Valid ones are: `0...9`, `a...f` or
    /// `A...F`.
    InvalidHexCharacter {
        /// The byte that was found, as a character.
        c: char,
        /// The index of the byte in the string.
        index: usize,
    },
    /// A hex string's length needs to be even, as two digits correspond to
    /// one byte.
    OddLength,
    /// The string's length does not fit the container it is decoded into.
    InvalidStringLength,
}

/// The value of the hexadecimal digit `c`, where it is one.
pub open spec fn digit(c: u8) -> Option<u8> {
    if 0x41 <= c <= 0x46 {
        Some((c - 0x41 + 10) as u8)
    } else if 0x61 <= c <= 0x66 {
        Some((c - 0x61 + 10) as u8)
    } else if 0x30 <= c <= 0x39 {
        Some((c - 0x30) as u8)
    } else {
        None
    }
}

/// The index of the first byte at or after `from` that is no hexadecimal
/// digit, or the length of `bytes` where there is none.
pub open spec fn first_bad_digit(bytes: Seq<u8>, from: int) -> int
    decreases bytes.len() - from,
{
    if from < 0 || from >= bytes.len() {
        bytes.len() as int
    } else if digit(bytes[from]) is None {
        from
    } else {
        first_bad_digit(bytes, from + 1)
    }
}

/// What the bytes of a hexadecimal string stand for: one byte for each pair
/// of digits. A string of odd length stands for nothing, nor does one that
/// holds anything but digits: the first such byte is reported.
pub open spec fn decoded(bytes: Seq<u8>) -> Result<Seq<u8>, HexError> {
    if bytes.len() % 2 != 0 {
        Err(HexError::OddLength)
    } else if first_bad_digit(bytes, 0) < bytes.len() {
        Err(
            HexError::InvalidHexCharacter {
                c: bytes[first_bad_digit(bytes, 0)] as char,
                index: first_bad_digit(bytes, 0) as usize,
            },
        )
    } else {
        Ok(
            Seq::new(
                bytes.len() / 2,
                |i: int| (digit(bytes[2 * i])->0 * 16 + digit(bytes[2 * i + 1])->0) as u8,
            ),
        )
    }
}

/// Decodes with `hex::decode`, which takes the bytes of the string: it
/// refuses an odd number of them, then gives for each pair of digits, upper
/// or lower case, the byte they spell, and stops at the first byte that is
/// no digit, which it reports with its index.
#[verifier::external_body]
fn decode(text: &str) -> (r: Result<Vec<u8>, HexError>)
    ensures
        match r {
            Ok(bytes) => decoded(encode_utf8(text@)) == Ok::<Seq<u8>, HexError>(bytes@),
            Err(error) => decoded(encode_utf8(text@)) == Err::<Seq<u8>, HexError>(error),
        },
{
    match hex::decode(text) {
        Ok(bytes) => Ok(bytes),
        Err(hex::FromHexError::InvalidHexCharacter { c, index }) => Err(
            HexError::InvalidHexCharacter { c, index },
        ),
        Err(hex::FromHexError::OddLength) => Err(HexError::OddLength),
        Err(hex::FromHexError::InvalidStringLength) => Err(HexError::InvalidStringLength),
    }
}

/// The bytes of the sum that `sha256` spells.
pub fn parse_hash(sha256: &Sha256) -> (r: Result<Vec<u8>, HexError>)
    ensures
        match r {
            Ok(bytes) => decoded(encode_utf8(sha256.0@)) == Ok::<Seq<u8>, HexError>(bytes@),
            Err(error) => decoded(encode_utf8(sha256.0@)) == Err::<Seq<u8>, HexError>(
                error,
            ),
        },
{
    decode(sha256.0.as_str())
}

} // verus!
