use packed_struct::common::{alloc_supported, include_debug_codegen};
use packed_struct::pack_parse::{BitNumbering, BitsPositionParsed, IntegerEndianness};
use packed_struct::pack_parse_attributes::{
    parse_num, parse_position_val, try_parse_num, try_parse_position_val, PackFieldAttribute,
    PackFieldAttributeKind, PackStructAttribute, PackStructAttributeKind, TyKind,
};

#[test]
fn numbers_in_decimal_and_hexadecimal() {
    assert_eq!(12, parse_num("12"));
    assert_eq!(12, parse_num("  12\t"));
    assert_eq!(31, parse_num("0x1F"));
    assert_eq!(31, parse_num("0X1f"));
    assert_eq!(7, parse_num("+7"));
    assert_eq!(0, parse_num("0"));
    assert_eq!(Some(usize::MAX), try_parse_num(&usize::MAX.to_string()));
    assert_eq!(None, try_parse_num(&format!("{}0", usize::MAX)));
    assert_eq!(None, try_parse_num(""));
    assert_eq!(None, try_parse_num("+"));
    assert_eq!(None, try_parse_num("-1"));
    assert_eq!(None, try_parse_num("1 2"));
    assert_eq!(None, try_parse_num("0x"));
    assert_eq!(None, try_parse_num("12a"));
    assert_eq!(None, try_parse_num("0:2"));
}

#[test]
fn positions_in_bits_and_bytes() {
    assert_eq!(BitsPositionParsed::Start(4), parse_position_val("4..", 1));
    assert_eq!(BitsPositionParsed::Start(40), parse_position_val(" 5.. ", 8));
    assert_eq!(BitsPositionParsed::Range(2, 17), parse_position_val("2..17", 1));
    assert_eq!(BitsPositionParsed::Range(8, 39), parse_position_val("1..4", 8));
    assert_eq!(BitsPositionParsed::Range(6, 6), parse_position_val("6", 1));
    assert_eq!(BitsPositionParsed::Range(0, 7), parse_position_val("0", 8));
    assert_eq!(BitsPositionParsed::Range(17, 2), parse_position_val("0x11 .. 2", 1));
    assert_eq!(None, try_parse_position_val("1..2..3", 1));
    assert_eq!(None, try_parse_position_val("..", 1));
    assert_eq!(None, try_parse_position_val("a..b", 1));
    assert_eq!(None, try_parse_position_val("1...2", 1));
    assert_eq!(None, try_parse_position_val(&format!("{}..", usize::MAX), 8));
    assert_eq!(BitsPositionParsed::Range(1, 5), BitsPositionParsed::range_in_order(5, 1));
    assert_eq!(BitsPositionParsed::Range(1, 5), BitsPositionParsed::range_in_order(1, 5));
}

#[test]
fn names_in_any_case() {
    assert_eq!(Some(BitNumbering::Lsb0), BitNumbering::from_str("LSB0"));
    assert_eq!(Some(BitNumbering::Msb0), BitNumbering::from_str("msb0"));
    assert_eq!(None, BitNumbering::from_str("msb"));
    assert_eq!(None, BitNumbering::from_lowercase("MSB0"));
    assert_eq!(Some(IntegerEndianness::Lsb), IntegerEndianness::from_str("LE"));
    assert_eq!(Some(IntegerEndianness::Lsb), IntegerEndianness::from_str("Lsb"));
    assert_eq!(Some(IntegerEndianness::Msb), IntegerEndianness::from_str("be"));
    assert_eq!(Some(IntegerEndianness::Msb), IntegerEndianness::from_str("MSB"));
    assert_eq!(None, IntegerEndianness::from_str("big"));
}

#[test]
fn attributes_of_structures() {
    assert_eq!(Ok(PackStructAttribute::SizeBytes(4)), PackStructAttribute::parse("size_bytes", "4"));
    assert_eq!(
        Ok(PackStructAttribute::DefaultIntEndianness(IntegerEndianness::Msb)),
        PackStructAttribute::parse("endian", "MSB")
    );
    assert_eq!(
        Ok(PackStructAttribute::BitNumbering(BitNumbering::Lsb0)),
        PackStructAttribute::parse("bit_numbering", "lsb0")
    );
    assert_eq!(Err(()), PackStructAttribute::parse("size_bits", "4"));
    assert_eq!(None, PackStructAttribute::try_parse("endian", "middle"));
    assert_eq!(None, PackStructAttribute::try_parse("size_bytes", "four"));
    let all = PackStructAttribute::parse_all(&vec![
        ("size_bytes".to_string(), "0x10".to_string()),
        ("derive".to_string(), "Debug".to_string()),
        ("endian".to_string(), "le".to_string()),
    ]);
    assert_eq!(
        vec![PackStructAttribute::SizeBytes(16), PackStructAttribute::DefaultIntEndianness(IntegerEndianness::Lsb)],
        all
    );
    assert_eq!("bit_numbering", PackStructAttributeKind::BitNumbering.get_attr_name());
}

#[test]
fn attributes_of_fields() {
    let parse = |n: &str, v: &str| PackFieldAttribute::parse(n, v);
    assert_eq!(Ok(PackFieldAttribute::IntEndiannes(IntegerEndianness::Lsb)), parse("endian", "lsb"));
    assert_eq!(Ok(PackFieldAttribute::BitPosition(BitsPositionParsed::Range(3, 4))), parse("bits", "3..4"));
    assert_eq!(Ok(PackFieldAttribute::BytePosition(BitsPositionParsed::Range(8, 15))), parse("bytes", "1"));
    assert_eq!(Ok(PackFieldAttribute::SizeBits(16)), parse("size_bytes", "2"));
    assert_eq!(Ok(PackFieldAttribute::SizeBits(2)), parse("size_bits", "2"));
    assert_eq!(Ok(PackFieldAttribute::ElementSizeBits(48)), parse("element_size_bytes", "6"));
    assert_eq!(Ok(PackFieldAttribute::ElementSizeBits(4)), parse("element_size_bits", "4"));
    assert_eq!(Ok(PackFieldAttribute::Ty(TyKind::Enum)), parse("ty", "enum"));
    assert_eq!(Err(()), parse("ty", "struct"));
    assert_eq!(Err(()), parse("name", "x"));
    assert_eq!(None, PackFieldAttribute::try_parse("bits", "x"));
    assert_eq!(None, PackFieldAttribute::try_parse("size_bytes", &usize::MAX.to_string()));
    let all = PackFieldAttribute::parse_all(&vec![
        ("doc".to_string(), "a field".to_string()),
        ("bits".to_string(), "7..".to_string()),
    ]);
    assert_eq!(vec![PackFieldAttribute::BitPosition(BitsPositionParsed::Start(7))], all);
    assert_eq!("element_size_bytes", PackFieldAttributeKind::ElementSizeBytes.get_attr_name());
}

#[test]
fn what_the_library_is_built_with() {
    assert!(alloc_supported());
    assert!(include_debug_codegen());
}
