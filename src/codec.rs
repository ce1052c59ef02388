//! The calls into the `hex` crate, each with the contract its source shows.

use hex::{FromHex, FromHexError, ToHex};
use vstd::prelude::*;

use crate::model::{encode_hex_spec, hex_decode, hex_decode_fixed};

verus! {

/// The error of `hex`'s decoders; its variants and their fields are public
/// and are read as they stand.
#[verifier::external_type_specification]
pub struct ExFromHexError(FromHexError);

/// Relies on `hex::ToHex::encode_hex` collected into a `String`: for each
/// byte, the lowercase digit of its high nibble, then of its low nibble.
#[verifier::external_body]
pub(crate) fn encode_hex(data: &[u8]) -> (r: String)
    ensures
        r@ == encode_hex_spec(data@),
{
    data.encode_hex::<String>()
}

/// Relies on `<Vec<u8> as hex::FromHex>::from_hex`: an odd length is refused
/// first, then the first byte that is no hex digit (reported as that byte's
/// `char` and its index); else each pair of digits, in either case, gives one
/// byte, high nibble first.
#[verifier::external_body]
pub(crate) fn vec_from_hex(data: &[u8]) -> (r: Result<Vec<u8>, FromHexError>)
    ensures
        match r {
            Ok(b) => hex_decode(data@) == Ok::<Seq<u8>, FromHexError>(b@),
            Err(e) => hex_decode(data@) == Err::<Seq<u8>, FromHexError>(e),
        },
{
    <Vec<u8> as FromHex>::from_hex(data)
}

/// Relies on `hex::decode_to_slice`: an odd length is refused first, then a
/// number of digit pairs other than `out`'s length, then the first byte that
/// is no hex digit; else `out` is filled with the decoded bytes.
#[verifier::external_body]
pub(crate) fn decode_to_array<const N: usize>(data: &[u8], out: &mut [u8; N]) -> (r: Result<
    (),
    FromHexError,
>)
    ensures
        match hex_decode_fixed(data@, N as nat) {
            Ok(b) => r is Ok && final(out)@ == b,
            Err(e) => r == Err::<(), FromHexError>(e),
        },
{
    hex::decode_to_slice(data, out)
}

} // verus!
