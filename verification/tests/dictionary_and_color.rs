use pebble_rust_2026::color::{
    get_2bit_value, hex_literal_channels, make_argb, parse_hex_digit, parse_hex_literal, GColor, ParsedColor,
};
use pebble_rust_2026::dictionary::{
    to_write_result, DictionaryWrite, DictionaryWriteError, Tuple, Value, TUPLE_BYTE_ARRAY, TUPLE_CSTRING,
    TUPLE_INT, TUPLE_UINT,
};

#[test]
fn write_result_mapping() {
    assert_eq!(to_write_result(0), Ok(()));
    assert_eq!(to_write_result(2), Err(DictionaryWriteError::NotEnoughStorage));
    assert_eq!(to_write_result(4), Err(DictionaryWriteError::InvalidArgs));
    assert_eq!(to_write_result(8), Err(DictionaryWriteError::Unknown));
    assert_eq!(to_write_result(16), Err(DictionaryWriteError::Unknown));
}

#[test]
fn value_as_u32() {
    assert_eq!(Value::Uint(7).as_u32(), Some(7));
    assert_eq!(Value::Int(7).as_u32(), Some(7));
    assert_eq!(Value::Int(0).as_u32(), Some(0));
    assert_eq!(Value::Int(-1).as_u32(), None);
    assert_eq!(Value::Bytes(&[1, 2]).as_u32(), None);
    assert_eq!(Value::CStr(b"hi").as_u32(), None);
    let v = Value::from(300u16);
    let o: Option<u32> = Option::from(&v);
    assert_eq!(o, Some(300));
}

#[test]
fn value_from_integers() {
    assert!(matches!(Value::from(5u8), Value::Uint(5)));
    assert!(matches!(Value::from(70000u32), Value::Uint(70000)));
    assert!(matches!(Value::from(-5i8), Value::Int(-5)));
    assert!(matches!(Value::from(-500i16), Value::Int(-500)));
    assert!(matches!(Value::from(-70000i32), Value::Int(-70000)));
    let bytes: &[u8] = &[9, 8];
    assert!(matches!(Value::from(bytes), Value::Bytes(b) if b == [9, 8]));
}

#[test]
fn write_picks_smallest_width() {
    assert!(matches!(DictionaryWrite::for_value(Value::Uint(255)), Ok(DictionaryWrite::Uint8(255))));
    assert!(matches!(DictionaryWrite::for_value(Value::Uint(256)), Ok(DictionaryWrite::Uint16(256))));
    assert!(matches!(DictionaryWrite::for_value(Value::Uint(65535)), Ok(DictionaryWrite::Uint16(65535))));
    assert!(matches!(DictionaryWrite::for_value(Value::Uint(65536)), Ok(DictionaryWrite::Uint32(65536))));
    assert!(matches!(DictionaryWrite::for_value(Value::Int(-128)), Ok(DictionaryWrite::Int8(-128))));
    assert!(matches!(DictionaryWrite::for_value(Value::Int(127)), Ok(DictionaryWrite::Int8(127))));
    assert!(matches!(DictionaryWrite::for_value(Value::Int(128)), Ok(DictionaryWrite::Int16(128))));
    assert!(matches!(DictionaryWrite::for_value(Value::Int(-32769)), Ok(DictionaryWrite::Int32(-32769))));
    assert!(matches!(DictionaryWrite::for_value(Value::CStr(b"abc")), Ok(DictionaryWrite::CStr(b"abc"))));
}

#[test]
fn write_rejects_too_long_byte_array() {
    let big = vec![0u8; 65536];
    assert!(matches!(
        DictionaryWrite::for_value(Value::Bytes(&big)),
        Err(DictionaryWriteError::InvalidArgs)
    ));
    let ok = vec![0u8; 65535];
    assert!(matches!(DictionaryWrite::for_value(Value::Bytes(&ok)), Ok(DictionaryWrite::Bytes(_))));
}

#[test]
fn tuple_decodes_unsigned() {
    let t = Tuple { key: 3, tuple_type: TUPLE_UINT, data: &[0x34, 0x12] };
    assert_eq!(t.key(), 3);
    assert!(matches!(t.value(), Value::Uint(0x1234)));
    let t4 = Tuple { key: 1, tuple_type: TUPLE_UINT, data: &[0x78, 0x56, 0x34, 0x12] };
    assert!(matches!(t4.value(), Value::Uint(0x12345678)));
    let t1 = Tuple { key: 1, tuple_type: TUPLE_UINT, data: &[0xff] };
    assert!(matches!(t1.value(), Value::Uint(255)));
}

#[test]
fn tuple_decodes_signed() {
    let t1 = Tuple { key: 1, tuple_type: TUPLE_INT, data: &[0xff] };
    assert!(matches!(t1.value(), Value::Int(-1)));
    let t2 = Tuple { key: 1, tuple_type: TUPLE_INT, data: &[0x00, 0x80] };
    assert!(matches!(t2.value(), Value::Int(-32768)));
    let t4 = Tuple { key: 1, tuple_type: TUPLE_INT, data: &[0xfe, 0xff, 0xff, 0xff] };
    assert!(matches!(t4.value(), Value::Int(-2)));
    let p = Tuple { key: 1, tuple_type: TUPLE_INT, data: &[0x7f] };
    assert!(matches!(p.value(), Value::Int(127)));
}

#[test]
fn tuple_decodes_strings_and_bytes() {
    let s = Tuple { key: 1, tuple_type: TUPLE_CSTRING, data: b"hello\0" };
    assert!(matches!(s.value(), Value::CStr(b) if b == b"hello"));
    let b = Tuple { key: 1, tuple_type: TUPLE_BYTE_ARRAY, data: &[1, 0, 2] };
    assert!(matches!(b.value(), Value::Bytes(x) if x == [1, 0, 2]));
}

#[test]
fn write_then_read_integers() {
    for v in [0u32, 1, 255, 256, 65535, 65536, u32::MAX] {
        let (data, t) = match DictionaryWrite::for_value(Value::Uint(v)).unwrap() {
            DictionaryWrite::Uint8(x) => (x.to_le_bytes().to_vec(), TUPLE_UINT),
            DictionaryWrite::Uint16(x) => (x.to_le_bytes().to_vec(), TUPLE_UINT),
            DictionaryWrite::Uint32(x) => (x.to_le_bytes().to_vec(), TUPLE_UINT),
            _ => panic!("unsigned value written as another type"),
        };
        let tuple = Tuple { key: 0, tuple_type: t, data: &data };
        assert!(matches!(tuple.value(), Value::Uint(r) if r == v));
    }
    for v in [0i32, -1, 127, -128, 128, -129, 32767, -32768, 40000, i32::MIN, i32::MAX] {
        let (data, t) = match DictionaryWrite::for_value(Value::Int(v)).unwrap() {
            DictionaryWrite::Int8(x) => (x.to_le_bytes().to_vec(), TUPLE_INT),
            DictionaryWrite::Int16(x) => (x.to_le_bytes().to_vec(), TUPLE_INT),
            DictionaryWrite::Int32(x) => (x.to_le_bytes().to_vec(), TUPLE_INT),
            _ => panic!("signed value written as another type"),
        };
        let tuple = Tuple { key: 0, tuple_type: t, data: &data };
        assert!(matches!(tuple.value(), Value::Int(r) if r == v));
    }
}

#[test]
fn hex_digit_parsing() {
    assert_eq!(parse_hex_digit(b'f', b'f'), Some(255));
    assert_eq!(parse_hex_digit(b'A', b'a'), Some(170));
    assert_eq!(parse_hex_digit(b'0', b'9'), Some(9));
    assert_eq!(parse_hex_digit(b'+', b'a'), Some(10));
    assert_eq!(parse_hex_digit(b'-', b'a'), None);
    assert_eq!(parse_hex_digit(b'g', b'0'), None);
    assert_eq!(parse_hex_digit(b'a', b'+'), None);
    // The same as the standard library's reading of the two characters.
    for b1 in 0u8..=127 {
        for b2 in [b'0', b'a', b'F', b'+', b'z', b' '] {
            let s = [b1, b2];
            let expected = std::str::from_utf8(&s).ok().and_then(|t| u8::from_str_radix(t, 16).ok());
            assert_eq!(parse_hex_digit(b1, b2), expected, "{:?}", s);
        }
    }
}

#[test]
fn two_bit_values_and_packing() {
    assert_eq!(get_2bit_value(0xff), Some(3));
    assert_eq!(get_2bit_value(0xaa), Some(2));
    assert_eq!(get_2bit_value(0x55), Some(1));
    assert_eq!(get_2bit_value(0x00), Some(0));
    assert_eq!(get_2bit_value(0x12), None);
    assert_eq!(make_argb(0xff, 0xff, 0x00, 0xff), Some(0b11_11_00_11));
    assert_eq!(make_argb(0xff, 0x00, 0x00, 0x00), Some(GColor::black().argb));
    assert_eq!(make_argb(0xff, 0xff, 0xff, 0xff), Some(GColor::white().argb));
    assert_eq!(make_argb(0xff, 0x12, 0x00, 0x00), None);
}

#[test]
fn hex_literals() {
    assert_eq!(parse_hex_literal("\"#ff00ff\""), Some(ParsedColor { value: 0b11_11_00_11 }));
    assert_eq!(parse_hex_literal("#f0f"), Some(ParsedColor { value: 0b11_11_00_11 }));
    assert_eq!(parse_hex_literal("f0f5"), Some(ParsedColor { value: 0b01_11_00_11 }));
    assert_eq!(parse_hex_literal("\"ffaa5500\""), Some(ParsedColor { value: 0b00_11_10_01 }));
    assert_eq!(parse_hex_literal("\"\"##000000\"\""), Some(ParsedColor { value: 0b11_00_00_00 }));
    assert_eq!(parse_hex_literal("#12345"), None);
    assert_eq!(parse_hex_literal(""), None);
    assert_eq!(parse_hex_literal("#gg0000"), None);
}

#[test]
fn tuple_well_formedness() {
    let ok_str = Tuple { key: 1, tuple_type: TUPLE_CSTRING, data: b"hi\0" };
    assert!(ok_str.is_well_formed());
    let no_nul = Tuple { key: 1, tuple_type: TUPLE_CSTRING, data: b"hi" };
    assert!(!no_nul.is_well_formed());
    let inner_nul = Tuple { key: 1, tuple_type: TUPLE_CSTRING, data: b"h\0i\0" };
    assert!(!inner_nul.is_well_formed());
    let empty_str = Tuple { key: 1, tuple_type: TUPLE_CSTRING, data: b"" };
    assert!(!empty_str.is_well_formed());
    let three_bytes = Tuple { key: 1, tuple_type: TUPLE_UINT, data: &[1, 2, 3] };
    assert!(!three_bytes.is_well_formed());
    let four_bytes = Tuple { key: 1, tuple_type: TUPLE_INT, data: &[1, 2, 3, 4] };
    assert!(four_bytes.is_well_formed());
    let bytes = Tuple { key: 1, tuple_type: TUPLE_BYTE_ARRAY, data: &[] };
    assert!(bytes.is_well_formed());
    let unknown = Tuple { key: 1, tuple_type: 9, data: &[1] };
    assert!(!unknown.is_well_formed());
}

#[test]
fn hex_literal_channel_values() {
    assert_eq!(hex_literal_channels("\"#ff00aa\""), Some((0xff, 0xff, 0x00, 0xaa)));
    assert_eq!(hex_literal_channels("f0a5"), Some((0x55, 0xff, 0x00, 0xaa)));
    assert_eq!(hex_literal_channels("#123456"), Some((0xff, 0x12, 0x34, 0x56)));
    assert_eq!(hex_literal_channels("#12345"), None);
    assert_eq!(hex_literal_channels("#gg0000"), None);
}
