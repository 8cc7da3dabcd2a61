//! Primitive decoding: LEB128 varints, names, sequences, optionals.

use wasm::values::{encode_leb128_u32, DecodeError, ErrorKind, Name, Parse};
use wasm::{Prefix, Suffix};

fn roundtrip(v: u32) {
    let enc = encode_leb128_u32(v);
    let (got, end) = u32::parse(&enc, 0).unwrap();
    assert_eq!(got, v);
    assert_eq!(end, enc.len());
}

#[test]
fn u32_round_trips() {
    roundtrip(0);
    roundtrip(1);
    roundtrip(42);
    roundtrip(127);
    roundtrip(128);
    roundtrip(300);
    roundtrip(624485);
    roundtrip(0xFFFF_FFFF);
}

#[test]
fn u32_exact_bytes() {
    assert_eq!(encode_leb128_u32(624485), vec![0xE5, 0x8E, 0x26]);
    let (v, end) = u32::parse(&[0xE5, 0x8E, 0x26, 0x99], 0).unwrap();
    assert_eq!(v, 624485);
    assert_eq!(end, 3);
}

#[test]
fn u32_nonterminal_zero_groups() {
    // A redundant but valid encoding of zero.
    let (v, end) = u32::parse(&[0x80, 0x00], 0).unwrap();
    assert_eq!(v, 0);
    assert_eq!(end, 2);
}

#[test]
fn u32_overflow_is_malformed() {
    // Five groups carrying 35 significant bits.
    let e = u32::parse(&[0xFF, 0xFF, 0xFF, 0xFF, 0x1F], 0).unwrap_err();
    assert_eq!(e, DecodeError { kind: ErrorKind::Malformed, offset: 0 });
    // A sixth continuation byte can never fit 32 bits.
    let e = u32::parse(&[0x80, 0x80, 0x80, 0x80, 0x80, 0x01], 0).unwrap_err();
    assert_eq!(e, DecodeError { kind: ErrorKind::Malformed, offset: 0 });
    // The largest value that does fit.
    let (v, end) = u32::parse(&[0xFF, 0xFF, 0xFF, 0xFF, 0x0F], 0).unwrap();
    assert_eq!(v, 0xFFFF_FFFF);
    assert_eq!(end, 5);
}

#[test]
fn u32_truncated_mid_varint() {
    let e = u32::parse(&[0x80], 0).unwrap_err();
    assert_eq!(e, DecodeError { kind: ErrorKind::Truncated, offset: 1 });
}

#[test]
fn u32_truncated_on_empty() {
    let e = u32::parse(&[], 0).unwrap_err();
    assert_eq!(e, DecodeError { kind: ErrorKind::Truncated, offset: 0 });
}

#[test]
fn i32_signed_values() {
    assert_eq!(i32::parse(&[0x7F], 0).unwrap(), (-1, 1));
    assert_eq!(i32::parse(&[0x3F], 0).unwrap(), (63, 1));
    assert_eq!(i32::parse(&[0x40], 0).unwrap(), (-64, 1));
    assert_eq!(i32::parse(&[0xC0, 0x00], 0).unwrap(), (64, 2));
    // -123456 encodes as C0 BB 78.
    assert_eq!(i32::parse(&[0xC0, 0xBB, 0x78], 0).unwrap(), (-123456, 3));
    // A redundant sign-extended encoding of -1 in five bytes.
    assert_eq!(i32::parse(&[0xFF, 0xFF, 0xFF, 0xFF, 0x7F], 0).unwrap(), (-1, 5));
}

#[test]
fn i32_out_of_range_is_malformed() {
    // 2^31 needs 33 significant bits as a signed value.
    let e = i32::parse(&[0x80, 0x80, 0x80, 0x80, 0x08], 0).unwrap_err();
    assert_eq!(e, DecodeError { kind: ErrorKind::Malformed, offset: 0 });
    // i32::MIN itself fits.
    assert_eq!(
        i32::parse(&[0x80, 0x80, 0x80, 0x80, 0x78], 0).unwrap(),
        (i32::MIN, 5)
    );
}

#[test]
fn i64_signed_values() {
    assert_eq!(i64::parse(&[0x7F], 0).unwrap(), (-1, 1));
    assert_eq!(i64::parse(&[0x2A], 0).unwrap(), (42, 1));
    assert_eq!(
        i64::parse(&[0xFF, 0xFF, 0xFF, 0xFF, 0xFF, 0xFF, 0xFF, 0xFF, 0xFF, 0x00], 0).unwrap(),
        (i64::MAX, 10)
    );
}

#[test]
fn name_stores_bytes_verbatim() {
    let (name, end) = Name::parse(&[0x03, 0x61, 0x62, 0x63], 0).unwrap();
    assert_eq!(name, Name(vec![0x61, 0x62, 0x63]));
    assert_eq!(end, 4);
    // Not valid UTF-8, still accepted: bytes are stored unchecked.
    let (name, end) = Name::parse(&[0x02, 0xFF, 0xFE], 0).unwrap();
    assert_eq!(name, Name(vec![0xFF, 0xFE]));
    assert_eq!(end, 3);
}

#[test]
fn vec_consumes_exactly_the_elements() {
    // Count 3, then three one-byte varints; the trailing byte is left.
    let bytes = [0x03, 0x01, 0x02, 0x03, 0xFF];
    let (v, end) = <Vec<u32>>::parse(&bytes, 0).unwrap();
    assert_eq!(v, vec![1, 2, 3]);
    assert_eq!(end, 4);
}

#[test]
fn vec_propagates_element_error() {
    // Count 2, first element fine, second truncated.
    let e = <Vec<u32>>::parse(&[0x02, 0x05], 0).unwrap_err();
    assert_eq!(e, DecodeError { kind: ErrorKind::Truncated, offset: 2 });
}

#[test]
fn vec_count_exceeding_input_fails_on_first_missing_element() {
    let e = <Vec<u32>>::parse(&[0xFF, 0xFF, 0xFF, 0xFF, 0x0F], 0).unwrap_err();
    assert_eq!(e, DecodeError { kind: ErrorKind::Truncated, offset: 5 });
}

#[test]
fn optional_failure_rewinds_cursor() {
    // The inner decode fails (truncated varint): None, cursor unmoved.
    let (v, end) = <Option<u32>>::parse(&[0x80], 0).unwrap();
    assert_eq!(v, None);
    assert_eq!(end, 0);
    // On empty input likewise.
    let (v, end) = <Option<u32>>::parse(&[], 0).unwrap();
    assert_eq!(v, None);
    assert_eq!(end, 0);
}

#[test]
fn expected_constant_markers() {
    let (_, end) = <Prefix<8>>::parse(&[0x08, 0x99], 0).unwrap();
    assert_eq!(end, 1);
    match <Prefix<8>>::parse(&[0x09], 0) {
        Ok(_) => panic!("a wrong constant must not decode"),
        Err(e) => assert_eq!(e, DecodeError { kind: ErrorKind::UnexpectedByte, offset: 0 }),
    }
    let (_, end) = <Suffix<0x00>>::parse(&[0x00], 0).unwrap();
    assert_eq!(end, 1);
    match <Suffix<0x00>>::parse(&[0x01], 0) {
        Ok(_) => panic!("a wrong reserved byte must not decode"),
        Err(e) => assert_eq!(
            e,
            DecodeError { kind: ErrorKind::ReservedFieldMismatch, offset: 0 }
        ),
    }
}

#[test]
fn optional_success_advances_cursor() {
    let (v, end) = <Option<u32>>::parse(&[0x07], 0).unwrap();
    assert_eq!(v, Some(7));
    assert_eq!(end, 1);
}
