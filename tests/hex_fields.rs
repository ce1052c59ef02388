use hex::FromHexError;
use hex_serde::{deserialize, deserialize_array, serialize, DeError, LengthNote};

#[test]
fn serialize_writes_lowercase_pairs() {
    assert_eq!(serialize(&[0x00, 0xFF, 0x10]), "00ff10");
}

#[test]
fn serialize_empty() {
    assert_eq!(serialize(&[]), "");
}

#[test]
fn serialize_every_byte_as_two_hex_digits() {
    let bytes: Vec<u8> = (0..=255u8).collect();
    let text = serialize(&bytes);
    assert_eq!(text.len(), 2 * bytes.len());
    assert!(text.chars().all(|c| c.is_ascii_hexdigit() && !c.is_ascii_uppercase()));
    assert_eq!(&text[0..4], "0001");
    assert_eq!(&text[text.len() - 4..], "feff");
}

#[test]
fn deserialize_array_of_three() {
    assert_eq!(deserialize_array::<3>("00ff10"), Ok([0x00, 0xFF, 0x10]));
}

#[test]
fn deserialize_growable() {
    assert_eq!(deserialize("00ff10"), Ok(vec![0x00, 0xFF, 0x10]));
    assert_eq!(deserialize("666f6f626172"), Ok(b"foobar".to_vec()));
}

#[test]
fn deserialize_empty() {
    assert_eq!(deserialize(""), Ok(vec![]));
    assert_eq!(deserialize_array::<0>(""), Ok([]));
}

#[test]
fn round_trip_growable_and_fixed() {
    let cases: Vec<Vec<u8>> = vec![
        vec![],
        vec![0x00],
        vec![0xAB, 0xCD, 0xEF],
        (0..=255u8).collect(),
    ];
    for bytes in cases {
        assert_eq!(deserialize(&serialize(&bytes)), Ok(bytes.clone()));
    }
    let fixed: [u8; 4] = [0xDE, 0xAD, 0xBE, 0xEF];
    assert_eq!(deserialize_array::<4>(&serialize(&fixed)), Ok(fixed));
}

#[test]
fn upper_and_mixed_case_accepted() {
    assert_eq!(deserialize("00FF10"), Ok(vec![0x00, 0xFF, 0x10]));
    assert_eq!(deserialize("00fF10"), Ok(vec![0x00, 0xFF, 0x10]));
    assert_eq!(deserialize_array::<3>("aBcDeF"), Ok([0xAB, 0xCD, 0xEF]));
}

#[test]
fn odd_length_reports_text_length() {
    let odd = DeError::InvalidLength { len: 5, note: LengthNote::Odd };
    assert_eq!(deserialize("0ff10"), Err(odd));
    assert_eq!(deserialize_array::<3>("0ff10"), Err(odd));
}

#[test]
fn odd_length_wins_over_bad_characters() {
    let odd = DeError::InvalidLength { len: 3, note: LengthNote::Odd };
    assert_eq!(deserialize("zzz"), Err(odd));
    assert_eq!(deserialize_array::<1>("zzz"), Err(odd));
    assert_eq!(deserialize("\u{e9}a"), Err(odd));
}

#[test]
fn bad_character_reports_char_and_index() {
    assert_eq!(deserialize("zz"), Err(DeError::InvalidValue { c: 'z', index: 0 }));
}

#[test]
fn bad_character_later_in_text() {
    assert_eq!(deserialize("00fg"), Err(DeError::InvalidValue { c: 'g', index: 3 }));
    assert_eq!(deserialize("666f 6f62617"), Err(DeError::InvalidValue { c: ' ', index: 4 }));
    assert_eq!(deserialize_array::<2>("0x10"), Err(DeError::InvalidValue { c: 'x', index: 1 }));
}

#[test]
fn bad_character_beyond_ascii_is_reported_by_byte() {
    assert_eq!(
        deserialize("\u{e9}"),
        Err(DeError::InvalidValue { c: '\u{c3}', index: 0 })
    );
}

#[test]
fn wrong_length_reports_text_length() {
    assert_eq!(
        deserialize_array::<3>("00ff"),
        Err(DeError::InvalidLength { len: 4, note: LengthNote::Unexpected })
    );
    assert_eq!(
        deserialize_array::<2>("00ff10"),
        Err(DeError::InvalidLength { len: 6, note: LengthNote::Unexpected })
    );
}

#[test]
fn wrong_length_wins_over_bad_characters() {
    assert_eq!(
        deserialize_array::<3>("zzzz"),
        Err(DeError::InvalidLength { len: 4, note: LengthNote::Unexpected })
    );
}

#[test]
fn from_hex_error_maps_each_kind() {
    assert_eq!(
        DeError::from_hex_error(FromHexError::InvalidHexCharacter { c: 'q', index: 7 }, 10),
        DeError::InvalidValue { c: 'q', index: 7 }
    );
    assert_eq!(
        DeError::from_hex_error(FromHexError::InvalidStringLength, 8),
        DeError::InvalidLength { len: 8, note: LengthNote::Unexpected }
    );
    assert_eq!(
        DeError::from_hex_error(FromHexError::OddLength, 9),
        DeError::InvalidLength { len: 9, note: LengthNote::Odd }
    );
}

#[test]
fn length_notes_read_as_text() {
    assert_eq!(LengthNote::Unexpected.message(), "Unexpected length of hex string");
    assert_eq!(LengthNote::Odd.message(), "Odd length of hex string");
}
