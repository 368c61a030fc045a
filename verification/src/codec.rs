//! Decoders for the two encodings in which an older credential helper
//! wrapped the secrets that it stored: hexadecimal and standard Base64.
//!
//! Both decoders are those of the `hex` and `base64` crates. Verus does not
//! read them: what this module states of them is taken on trust.

use base64::Engine;
use vstd::prelude::*;

verus! {

/// Why a hexadecimal string was rejected.
#[derive(Debug, Clone, Copy, PartialEq, Eq)]
pub enum HexError {
    /// The byte at `index`, shown as the character `c`, is none of `0-9`,
    /// `a-f` and `A-F`.
    InvalidHexCharacter { c: char, index: usize },
    /// The string has an odd number of digits.
    OddLength,
    /// The string does not fill a container of fixed size. Decoding into a
    /// vector never fails this way.
    InvalidStringLength,
}

/// Why a Base64 string was rejected.
#[derive(Debug, Clone, Copy, PartialEq, Eq)]
pub enum Base64Error {
    /// The byte at the given offset is no symbol of the alphabet, or is a
    /// padding character that is followed by more input.
    InvalidByte(usize, u8),
    /// The number of symbols, given here, cannot encode whole bytes.
    InvalidLength(usize),
    /// The last symbol, at the given offset, has bits set that no byte takes up.
    InvalidLastSymbol(usize, u8),
    /// The padding is missing or is not the shortest that fills the last quad.
    InvalidPadding,
}

/// The view of a decoder's result: the decoded bytes as a sequence.
pub open spec fn decoded_view<E>(r: Result<Vec<u8>, E>) -> Result<Seq<u8>, E> {
    match r {
        Ok(bytes) => Ok(bytes@),
        Err(e) => Err(e),
    }
}

/// The value of a hexadecimal digit, in either case.
pub open spec fn hex_digit(c: u8) -> Option<u8> {
    if 0x30 <= c <= 0x39 {
        Some((c - 0x30) as u8)
    } else if 0x61 <= c <= 0x66 {
        Some((c - 0x61 + 10) as u8)
    } else if 0x41 <= c <= 0x46 {
        Some((c - 0x41 + 10) as u8)
    } else {
        None
    }
}

/// The number of hexadecimal digits with which `s` begins: the index of the
/// first byte that is no digit, or the length of `s` where all are digits.
pub open spec fn leading_hex_digits(s: Seq<u8>) -> nat
    decreases s.len(),
{
    if s.len() == 0 || hex_digit(s[0]) is None {
        0
    } else {
        1 + leading_hex_digits(s.drop_first())
    }
}

/// The byte that the two digits at `2 * i` and `2 * i + 1` of `s` stand for.
pub open spec fn hex_byte(s: Seq<u8>, i: int) -> u8 {
    (hex_digit(s[2 * i]).unwrap() * 16 + hex_digit(s[2 * i + 1]).unwrap()) as u8
}

/// What decoding the hexadecimal string `s` gives: an odd length is refused
/// first, then the first byte that is no digit; otherwise each pair of
/// digits gives one byte, the high digit first.
pub open spec fn hex_decoding(s: Seq<u8>) -> Result<Seq<u8>, HexError> {
    let digits = leading_hex_digits(s);
    if s.len() % 2 != 0 {
        Err(HexError::OddLength)
    } else if digits < s.len() {
        Err(HexError::InvalidHexCharacter { c: s[digits as int] as char, index: digits as usize })
    } else {
        Ok(Seq::new(s.len() / 2, |i: int| hex_byte(s, i)))
    }
}

/// The digits counted by `leading_hex_digits` are digits, and the byte that
/// follows them, if there is one, is none.
pub proof fn lemma_leading_hex_digits(s: Seq<u8>)
    ensures
        leading_hex_digits(s) <= s.len(),
        forall|j: int| 0 <= j < leading_hex_digits(s) ==> hex_digit(#[trigger] s[j]) is Some,
        leading_hex_digits(s) < s.len() ==> hex_digit(s[leading_hex_digits(s) as int]) is None,
    decreases s.len(),
{
    if s.len() == 0 || hex_digit(s[0]) is None {
    } else {
        let rest = s.drop_first();
        lemma_leading_hex_digits(rest);
        assert forall|j: int| 0 <= j < leading_hex_digits(s) implies hex_digit(
            #[trigger] s[j],
        ) is Some by {
            if j > 0 {
                assert(s[j] == rest[j - 1]);
            }
        }
        if leading_hex_digits(s) < s.len() {
            assert(s[leading_hex_digits(s) as int] == rest[leading_hex_digits(rest) as int]);
        }
    }
}

/// What the standard Base64 decoder gives for `encoded`: the alphabet of
/// RFC 4648 with `+` and `/`, and padding that must be present and canonical.
pub uninterp spec fn base64_standard_decoding(encoded: Seq<u8>) -> Result<Seq<u8>, Base64Error>;

/// Calls `hex::decode` of the `hex` crate.
///
/// Trusted: the result is `hex_decoding` of the input, and an error of the
/// crate is handed on as the variant of the same name with the same fields.
#[verifier::external_body]
pub(crate) fn hex_decode(data: &[u8]) -> (r: Result<Vec<u8>, HexError>)
    ensures
        decoded_view(r) == hex_decoding(data@),
{
    match hex::decode(data) {
        Ok(bytes) => Ok(bytes),
        Err(hex::FromHexError::InvalidHexCharacter { c, index }) => {
            Err(HexError::InvalidHexCharacter { c, index })
        },
        Err(hex::FromHexError::OddLength) => Err(HexError::OddLength),
        Err(hex::FromHexError::InvalidStringLength) => Err(HexError::InvalidStringLength),
    }
}

/// Calls `Engine::decode` of the `base64` crate on its `STANDARD` engine.
///
/// Trusted: the result depends on the input bytes alone, which is all that
/// `base64_standard_decoding` says of it. An error of the crate is handed on
/// as the variant of the same name with the same fields.
#[verifier::external_body]
pub(crate) fn base64_decode(encoded: &[u8]) -> (r: Result<Vec<u8>, Base64Error>)
    ensures
        decoded_view(r) == base64_standard_decoding(encoded@),
{
    match base64::engine::general_purpose::STANDARD.decode(encoded) {
        Ok(bytes) => Ok(bytes),
        Err(base64::DecodeError::InvalidByte(at, byte)) => Err(Base64Error::InvalidByte(at, byte)),
        Err(base64::DecodeError::InvalidLength(n)) => Err(Base64Error::InvalidLength(n)),
        Err(base64::DecodeError::InvalidLastSymbol(at, byte)) => {
            Err(Base64Error::InvalidLastSymbol(at, byte))
        },
        Err(base64::DecodeError::InvalidPadding) => Err(Base64Error::InvalidPadding),
    }
}

} // verus!
