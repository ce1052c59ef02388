//! The two adapters: bytes to hex text, and hex text to bytes.

use vstd::prelude::*;
use vstd::string::StringSliceAdditionalSpecFns;

use crate::codec::{decode_to_array, encode_hex, vec_from_hex};
use crate::error::DeError;
use crate::model::{decode_field, decode_field_fixed, encode_hex_spec, is_hex_char};

verus! {

/// Encodes `value` as lowercase hex text, two digits per byte.
pub fn serialize(value: &[u8]) -> (r: String)
    ensures
        r@ == encode_hex_spec(value@),
        r@.len() == 2 * value@.len(),
        forall|i: int| 0 <= i < r@.len() ==> is_hex_char(#[trigger] r@[i]),
{
    encode_hex(value)
}

/// Reads hex text, in either case, as a byte sequence of any length.
pub fn deserialize(v: &str) -> (r: Result<Vec<u8>, DeError>)
    ensures
        match r {
            Ok(b) => decode_field(v.spec_bytes()) == Ok::<Seq<u8>, DeError>(b@),
            Err(e) => decode_field(v.spec_bytes()) == Err::<Seq<u8>, DeError>(e),
        },
{
    match vec_from_hex(v.as_bytes()) {
        Ok(b) => Ok(b),
        Err(e) => Err(DeError::from_hex_error(e, v.len())),
    }
}

/// Reads hex text, in either case, as exactly `N` bytes.
pub fn deserialize_array<const N: usize>(v: &str) -> (r: Result<[u8; N], DeError>)
    ensures
        match r {
            Ok(b) => decode_field_fixed(v.spec_bytes(), N as nat) == Ok::<Seq<u8>, DeError>(b@),
            Err(e) => decode_field_fixed(v.spec_bytes(), N as nat) == Err::<Seq<u8>, DeError>(e),
        },
{
    let mut out = [0u8; N];
    match decode_to_array(v.as_bytes(), &mut out) {
        Ok(()) => Ok(out),
        Err(e) => Err(DeError::from_hex_error(e, v.len())),
    }
}

} // verus!
