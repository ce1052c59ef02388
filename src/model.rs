//! The mathematical model of hex text: what encoding writes and what
//! decoding accepts, over bytes and characters.

use hex::FromHexError;
use vstd::prelude::*;

use crate::error::{de_error_of, DeError};

verus! {

/// The sixteen lowercase digits, in order of value.
pub open spec fn lower_digits() -> Seq<char> {
    seq!['0', '1', '2', '3', '4', '5', '6', '7', '8', '9', 'a', 'b', 'c', 'd', 'e', 'f']
}

/// The characters of the lowercase hex text of `bytes`: two digits per byte,
/// the high nibble first, in byte order.
pub open spec fn encode_hex_spec(bytes: Seq<u8>) -> Seq<char> {
    Seq::new(
        2 * bytes.len(),
        |i: int|
            if i % 2 == 0 {
                lower_digits()[(bytes[i / 2] / 16) as int]
            } else {
                lower_digits()[(bytes[i / 2] % 16) as int]
            },
    )
}

/// A character that hex text may hold: `0-9`, `a-f` or `A-F`.
pub open spec fn is_hex_char(c: char) -> bool {
    ('0' <= c && c <= '9') || ('a' <= c && c <= 'f') || ('A' <= c && c <= 'F')
}

/// A byte that hex text may hold: the ASCII code of `0-9`, `a-f` or `A-F`.
pub open spec fn is_hex_byte(b: u8) -> bool {
    (48 <= b && b <= 57) || (97 <= b && b <= 102) || (65 <= b && b <= 70)
}

/// The byte `b` with an ASCII capital letter taken to its small letter.
pub open spec fn ascii_lower(b: u8) -> u8 {
    if 65 <= b && b <= 90 {
        (b + 32) as u8
    } else {
        b
    }
}

/// The value of the hex digit `b`, in either case.
pub open spec fn digit_value(b: u8) -> int {
    if b <= 57 {
        b - 48
    } else if b <= 70 {
        b - 55
    } else {
        b - 87
    }
}

/// The index of the first byte of `s` that is no hex digit, or `s.len()`
/// when every byte is one.
pub open spec fn first_non_digit(s: Seq<u8>) -> int
    decreases s.len(),
{
    if s.len() == 0 || !is_hex_byte(s[0]) {
        0
    } else {
        1 + first_non_digit(s.drop_first())
    }
}

/// The bytes that the pairs of hex digits of `s` stand for.
pub open spec fn decoded_bytes(s: Seq<u8>) -> Seq<u8> {
    Seq::new(
        s.len() / 2,
        |i: int| (16 * digit_value(s[2 * i]) + digit_value(s[2 * i + 1])) as u8,
    )
}

/// The error for the first byte of `s` that is no hex digit.
pub open spec fn bad_char_error(s: Seq<u8>) -> FromHexError {
    let k = first_non_digit(s);
    FromHexError::InvalidHexCharacter { c: s[k] as char, index: k as usize }
}

/// Decoding hex text of any length: an odd length is refused first, then the
/// first byte that is no hex digit.
pub open spec fn hex_decode(s: Seq<u8>) -> Result<Seq<u8>, FromHexError> {
    if s.len() % 2 != 0 {
        Err(FromHexError::OddLength)
    } else if first_non_digit(s) < s.len() {
        Err(bad_char_error(s))
    } else {
        Ok(decoded_bytes(s))
    }
}

/// Decoding hex text into exactly `n` bytes: an odd length is refused first,
/// then a number of digit pairs other than `n`, then the first byte that is no
/// hex digit.
pub open spec fn hex_decode_fixed(s: Seq<u8>, n: nat) -> Result<Seq<u8>, FromHexError> {
    if s.len() % 2 != 0 {
        Err(FromHexError::OddLength)
    } else if s.len() / 2 != n {
        Err(FromHexError::InvalidStringLength)
    } else {
        hex_decode(s)
    }
}

/// Reading a hex field of any length from the bytes `s` of its text.
pub open spec fn decode_field(s: Seq<u8>) -> Result<Seq<u8>, DeError> {
    match hex_decode(s) {
        Ok(b) => Ok(b),
        Err(e) => Err(de_error_of(e, s.len() as usize)),
    }
}

/// Reading a hex field of exactly `n` bytes from the bytes `s` of its text.
pub open spec fn decode_field_fixed(s: Seq<u8>, n: nat) -> Result<Seq<u8>, DeError> {
    match hex_decode_fixed(s, n) {
        Ok(b) => Ok(b),
        Err(e) => Err(de_error_of(e, s.len() as usize)),
    }
}

} // verus!
