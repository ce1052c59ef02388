//! Field-level decoding errors, and how each failure of the hex codec maps
//! onto them.

use hex::FromHexError;
use vstd::prelude::*;

verus! {

/// Why a hex string was refused for its length.
#[derive(Clone, Copy, Debug, PartialEq, Eq, Structural)]
pub enum LengthNote {
    /// The text pairs up, but into more or fewer bytes than the target holds.
    Unexpected,
    /// The text has an odd number of characters.
    Odd,
}

impl LengthNote {
    /// The human-readable note that goes with a refused length.
    pub fn message(&self) -> (r: &'static str)
        ensures
            r@ == match self {
                LengthNote::Unexpected => "Unexpected length of hex string"@,
                LengthNote::Odd => "Odd length of hex string"@,
            },
    {
        match self {
            LengthNote::Unexpected => "Unexpected length of hex string",
            LengthNote::Odd => "Odd length of hex string",
        }
    }
}

/// A hex field that could not be read.
#[derive(Clone, Copy, Debug, PartialEq, Eq, Structural)]
pub enum DeError {
    /// A value rejected: the character `c`, found at byte `index`, is no hex
    /// digit.
    InvalidValue { c: char, index: usize },
    /// A length rejected: `len` is the length of the text, in bytes.
    InvalidLength { len: usize, note: LengthNote },
}

/// The field-level error for a failure `e` of the hex codec on text of `len`
/// bytes.
pub open spec fn de_error_of(e: FromHexError, len: usize) -> DeError {
    match e {
        FromHexError::InvalidHexCharacter { c, index } => DeError::InvalidValue { c, index },
        FromHexError::InvalidStringLength => DeError::InvalidLength {
            len,
            note: LengthNote::Unexpected,
        },
        FromHexError::OddLength => DeError::InvalidLength { len, note: LengthNote::Odd },
    }
}

impl DeError {
    /// Translates a failure of the hex codec on text of `len` bytes.
    pub fn from_hex_error(e: FromHexError, len: usize) -> (r: DeError)
        ensures
            r == de_error_of(e, len),
    {
        match e {
            FromHexError::InvalidHexCharacter { c, index } => DeError::InvalidValue { c, index },
            FromHexError::InvalidStringLength => DeError::InvalidLength {
                len,
                note: LengthNote::Unexpected,
            },
            FromHexError::OddLength => DeError::InvalidLength { len, note: LengthNote::Odd },
        }
    }
}

} // verus!
