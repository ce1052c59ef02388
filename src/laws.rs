//! What holds of encoding and decoding together, and of every input.

use vstd::prelude::*;
use vstd::utf8::{encode_utf8, is_ascii_chars_encode_utf8};

use crate::error::{DeError, LengthNote};
use crate::model::{
    decode_field, decode_field_fixed, decoded_bytes, digit_value, encode_hex_spec,
    ascii_lower, first_non_digit, is_hex_byte, lower_digits,
};

verus! {

/// `first_non_digit` is the index of the first byte that is no hex digit:
/// every byte before it is one, and the byte there (if any) is not.
pub proof fn lemma_first_non_digit(s: Seq<u8>)
    ensures
        0 <= first_non_digit(s) <= s.len(),
        forall|j: int| 0 <= j < first_non_digit(s) ==> is_hex_byte(#[trigger] s[j]),
        first_non_digit(s) < s.len() ==> !is_hex_byte(s[first_non_digit(s)]),
    decreases s.len(),
{
    if s.len() > 0 && is_hex_byte(s[0]) {
        lemma_first_non_digit(s.drop_first());
        assert forall|j: int| 0 <= j < first_non_digit(s) implies is_hex_byte(#[trigger] s[j]) by {
            if j > 0 {
                assert(s[j] == s.drop_first()[j - 1]);
            }
        }
    }
}

/// Each lowercase digit is an ASCII hex digit whose value is its position.
proof fn lemma_lower_digit(d: int)
    requires
        0 <= d < 16,
    ensures
        '\0' <= lower_digits()[d] <= '\u{7f}',
        is_hex_byte(lower_digits()[d] as u8),
        digit_value(lower_digits()[d] as u8) == d,
{
}

/// Text whose bytes are all hex digits has no byte that is not one.
proof fn lemma_all_hex_digits(s: Seq<u8>)
    requires
        forall|j: int| 0 <= j < s.len() ==> is_hex_byte(#[trigger] s[j]),
    ensures
        first_non_digit(s) == s.len(),
{
    lemma_first_non_digit(s);
}

/// Encoding, then decoding, gives back the bytes that were encoded, for a
/// field of any length and for one of exactly their length.
pub proof fn lemma_round_trip(b: Seq<u8>)
    ensures
        decode_field(encode_utf8(encode_hex_spec(b))) == Ok::<Seq<u8>, DeError>(b),
        decode_field_fixed(encode_utf8(encode_hex_spec(b)), b.len()) == Ok::<Seq<u8>, DeError>(b),
{
    let chars = encode_hex_spec(b);
    assert forall|i: int| 0 <= i < chars.len() implies '\0' <= #[trigger] chars[i] <= '\u{7f}'
        && is_hex_byte(chars[i] as u8) by {
        lemma_lower_digit((b[i / 2] / 16) as int);
        lemma_lower_digit((b[i / 2] % 16) as int);
    }
    is_ascii_chars_encode_utf8(chars);
    let s = encode_utf8(chars);
    assert forall|j: int| 0 <= j < s.len() implies is_hex_byte(#[trigger] s[j]) by {
        assert(chars[j] as u8 == s[j]);
    }
    lemma_all_hex_digits(s);
    assert forall|i: int| 0 <= i < b.len() implies #[trigger] decoded_bytes(s)[i] == b[i] by {
        assert(chars[2 * i] as u8 == s[2 * i]);
        assert(chars[2 * i + 1] as u8 == s[2 * i + 1]);
        lemma_lower_digit((b[i] / 16) as int);
        lemma_lower_digit((b[i] % 16) as int);
    }
    assert(decoded_bytes(s) =~= b);
}

/// Text of an even number of hex digits, in any mixture of cases, is
/// accepted, as a field of any length and as one of half its length.
pub proof fn lemma_accepts_any_case(s: Seq<u8>)
    requires
        s.len() % 2 == 0,
        forall|j: int| 0 <= j < s.len() ==> is_hex_byte(#[trigger] s[j]),
    ensures
        decode_field(s) == Ok::<Seq<u8>, DeError>(decoded_bytes(s)),
        decode_field_fixed(s, s.len() / 2) == Ok::<Seq<u8>, DeError>(decoded_bytes(s)),
{
    lemma_all_hex_digits(s);
}

/// The case of the letters in hex text does not change what is read: two
/// texts of hex digits that agree once lowercased decode alike.
pub proof fn lemma_case_insensitive(s: Seq<u8>, t: Seq<u8>, n: nat)
    requires
        s.len() == t.len(),
        forall|j: int| 0 <= j < s.len() ==> is_hex_byte(#[trigger] s[j]),
        forall|j: int| 0 <= j < s.len() ==> ascii_lower(#[trigger] s[j]) == ascii_lower(t[j]),
    ensures
        decode_field(s) == decode_field(t),
        decode_field_fixed(s, n) == decode_field_fixed(t, n),
{
    assert forall|j: int| 0 <= j < t.len() implies is_hex_byte(#[trigger] t[j]) && digit_value(t[j])
        == digit_value(s[j]) by {
        assert(ascii_lower(s[j]) == ascii_lower(t[j]));
    }
    lemma_all_hex_digits(s);
    lemma_all_hex_digits(t);
    assert(decoded_bytes(s) =~= decoded_bytes(t));
}

/// Text of an odd number of bytes is always refused for its odd length,
/// whatever it holds and whatever the target.
pub proof fn lemma_odd_length_rejected(s: Seq<u8>, n: nat)
    requires
        s.len() % 2 == 1,
    ensures
        decode_field(s) == Err::<Seq<u8>, DeError>(
            DeError::InvalidLength { len: s.len() as usize, note: LengthNote::Odd },
        ),
        decode_field_fixed(s, n) == Err::<Seq<u8>, DeError>(
            DeError::InvalidLength { len: s.len() as usize, note: LengthNote::Odd },
        ),
{
}

/// Text of even length with a byte at `i` that is no hex digit is refused for
/// a bad character: the first such byte, at or before `i`, with its index.
pub proof fn lemma_bad_char_rejected(s: Seq<u8>, i: int)
    requires
        s.len() <= usize::MAX,
        s.len() % 2 == 0,
        0 <= i < s.len(),
        !is_hex_byte(s[i]),
    ensures
        ({
            let k = first_non_digit(s);
            &&& 0 <= k <= i
            &&& !is_hex_byte(s[k])
            &&& forall|j: int| 0 <= j < k ==> is_hex_byte(#[trigger] s[j])
            &&& decode_field(s) == Err::<Seq<u8>, DeError>(
                DeError::InvalidValue { c: s[k] as char, index: k as usize },
            )
            &&& decode_field_fixed(s, s.len() / 2) == decode_field(s)
        }),
        (forall|j: int| 0 <= j < i ==> is_hex_byte(#[trigger] s[j])) ==> decode_field(s) == Err::<
            Seq<u8>,
            DeError,
        >(DeError::InvalidValue { c: s[i] as char, index: i as usize }),
{
    lemma_first_non_digit(s);
}

/// Text of even length that pairs into a number of bytes other than `n` is
/// refused for its length when `n` bytes are wanted, the length reported
/// being that of the text.
pub proof fn lemma_fixed_length_mismatch(s: Seq<u8>, n: nat)
    requires
        s.len() % 2 == 0,
        s.len() / 2 != n,
    ensures
        decode_field_fixed(s, n) == Err::<Seq<u8>, DeError>(
            DeError::InvalidLength { len: s.len() as usize, note: LengthNote::Unexpected },
        ),
{
}

} // verus!
