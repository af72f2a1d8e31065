//! Contract addresses: their text form, their twenty bytes and their
//! lowercase form.

use alloy_primitives::hex::FromHexError;
use alloy_primitives::Address;
use std::str::FromStr;
use vstd::prelude::*;
use vstd::string::StringSliceAdditionalSpecFns;

verus! {

/// Why a text is not an address.
#[derive(Debug, Clone, Copy, PartialEq, Eq, Structural)]
pub enum AddressError {
    /// The text has an odd number of bytes.
    OddLength,
    /// The text, without its prefix, is not forty bytes long.
    InvalidLength,
    /// The byte at `index`, counted behind the prefix, is the first that is
    /// no hexadecimal digit; `character` is that byte as a character.
    InvalidCharacter { character: char, index: usize },
}

/// Whether `byte` is one of `0-9`, `A-F`, `a-f`.
pub open spec fn is_hex_byte(byte: u8) -> bool {
    (0x30 <= byte <= 0x39) || (0x41 <= byte <= 0x46) || (0x61 <= byte <= 0x66)
}

/// The number that the hexadecimal digit `byte` stands for.
pub open spec fn hex_value(byte: u8) -> int {
    if byte <= 0x39 {
        byte - 0x30
    } else if byte <= 0x46 {
        byte - 0x41 + 10
    } else {
        byte - 0x61 + 10
    }
}

/// `bytes` without a leading `0x` or `0X`.
pub open spec fn strip_hex_prefix(bytes: Seq<u8>) -> Seq<u8> {
    if bytes.len() >= 2 && bytes[0] == 0x30 && (bytes[1] == 0x78 || bytes[1] == 0x58) {
        bytes.skip(2)
    } else {
        bytes
    }
}

/// The index of the first byte of `digits` that is no hexadecimal digit, or
/// the length of `digits` if all are.
pub open spec fn first_non_hex(digits: Seq<u8>) -> int
    decreases digits.len(),
{
    if digits.len() == 0 || !is_hex_byte(digits[0]) {
        0
    } else {
        1 + first_non_hex(digits.skip(1))
    }
}

/// The bytes that the hexadecimal digits `digits` spell, two digits to a
/// byte, the high four bits first.
pub open spec fn decoded_hex(digits: Seq<u8>) -> Seq<u8> {
    Seq::new(
        digits.len() / 2,
        |i: int| (16 * hex_value(digits[2 * i]) + hex_value(digits[2 * i + 1])) as u8,
    )
}

/// The address that the text with the UTF-8 bytes `text` spells: forty
/// hexadecimal digits of either case, with or without a leading `0x`.
pub open spec fn parsed_address(text: Seq<u8>) -> Result<Seq<u8>, AddressError> {
    let digits = strip_hex_prefix(text);
    let bad = first_non_hex(digits);
    if text.len() % 2 != 0 {
        Err(AddressError::OddLength)
    } else if digits.len() / 2 != 20 {
        Err(AddressError::InvalidLength)
    } else if bad < digits.len() {
        Err(AddressError::InvalidCharacter { character: digits[bad] as char, index: bad as usize })
    } else {
        Ok(decoded_hex(digits))
    }
}

/// Calls `alloy_primitives::Address::from_str`, which decodes the text's
/// bytes with `const_hex::decode_to_array`: an odd number of bytes is refused
/// first; then a leading `0x` or `0X` is dropped and anything but forty bytes
/// refused; then the first byte outside `0-9`, `A-F`, `a-f` is reported with
/// its index behind the prefix; else each two digits give one byte, the high
/// four bits first.
#[verifier::external_body]
pub(crate) fn address_from_str(text: &str) -> (parsed: Result<[u8; 20], AddressError>)
    ensures
        match parsed {
            Ok(bytes) => parsed_address(text.spec_bytes()) == Ok::<Seq<u8>, AddressError>(bytes@),
            Err(error) => parsed_address(text.spec_bytes()) == Err::<Seq<u8>, AddressError>(error),
        },
{
    match Address::from_str(text) {
        Ok(address) => Ok(address.into_array()),
        Err(FromHexError::OddLength) => Err(AddressError::OddLength),
        Err(FromHexError::InvalidStringLength) => Err(AddressError::InvalidLength),
        Err(FromHexError::InvalidHexCharacter { c, index }) => {
            Err(AddressError::InvalidCharacter { character: c, index })
        },
    }
}

/// The lowercase form of `text` that `str::to_lowercase` gives.
pub uninterp spec fn lowercase_text(text: Seq<char>) -> Seq<char>;

/// Calls `str::to_lowercase`, which returns the lowercase equivalent of the
/// text as a new string.
#[verifier::external_body]
pub(crate) fn to_lowercase(text: &str) -> (lower: String)
    ensures
        lower@ == lowercase_text(text@),
{
    text.to_lowercase()
}

} // verus!
