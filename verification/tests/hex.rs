use strike_rs::hex::{decode, encode, Error};

#[test]
fn decode_reads_both_cases() {
    assert_eq!(decode(b"00ff7Fa0"), Ok(vec![0x00, 0xff, 0x7f, 0xa0]));
    assert_eq!(decode(b"DEADbeef"), Ok(vec![0xde, 0xad, 0xbe, 0xef]));
}

#[test]
fn decode_of_nothing_is_nothing() {
    assert_eq!(decode(b""), Ok(vec![]));
}

#[test]
fn decode_refuses_odd_length() {
    assert_eq!(decode(b"abc"), Err(Error::OddLength));
    assert_eq!(decode(b"zzz"), Err(Error::OddLength));
}

#[test]
fn decode_reports_first_bad_digit() {
    assert_eq!(decode(b"0g"), Err(Error::InvalidHexCharacter { c: b'g', index: 1 }));
    assert_eq!(decode(b"12x4y6"), Err(Error::InvalidHexCharacter { c: b'x', index: 2 }));
    assert_eq!(decode(&[0x31, 0xff]), Err(Error::InvalidHexCharacter { c: 0xff, index: 1 }));
}

#[test]
fn encode_writes_lower_case() {
    assert_eq!(encode(&[0x00, 0xff, 0x7f, 0xa0]), "00ff7fa0");
    assert_eq!(encode(&[]), "");
}

#[test]
fn decode_undoes_encode() {
    let bytes: Vec<u8> = (0..=255).collect();
    assert_eq!(decode(encode(&bytes).as_bytes()), Ok(bytes));
}
