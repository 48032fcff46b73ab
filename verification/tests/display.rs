use packed_struct::common::to_snake_case;
use packed_struct::debug_fmt::{
    packable_fmt_fields, push_byte_list, push_byte_text, ByteNotation, DebugBitField, PackedStructDebug,
    PackedStructDisplay,
};
use packed_struct::enum_variants::{detect, EnumError, VariantDecl};
use packed_struct::pack::{native_for, NativeInt};
use packed_struct::pack_parse::BitsPositionParsed;
use packed_struct::pack_parse_attributes::{enum_bits, try_parse_num, PackFieldAttribute, PackStructAttribute, TyKind};
use packed_struct::packing::{PackedStruct, PackedStructInfo, PackedStructSlice, PackingError, PackingResult};
use packed_struct::primitive_enum::{unknown_value_str, EnumCatchAll, PrimitiveEnum};

struct Pair {
    a: u8,
    b: u8,
}

impl PackedStructInfo for Pair {
    fn packed_bits() -> usize {
        16
    }
}

impl PackedStruct for Pair {
    type ByteArray = [u8; 2];

    fn pack(&self) -> PackingResult<[u8; 2]> {
        if self.a == 0xEE {
            return Err(PackingError::InvalidValue);
        }
        Ok([self.a, self.b])
    }

    fn unpack(src: &[u8; 2]) -> PackingResult<Self> {
        Ok(Pair { a: src[0], b: src[1] })
    }
}

impl PackedStructDebug for Pair {
    fn fmt_fields(&self) -> String {
        format!("a={} b={}\r\n", self.a, self.b)
    }

    fn packed_struct_display_header() -> String {
        "Pair (2 bytes)".to_string()
    }
}

#[test]
fn a_structure_shows_its_header_bytes_and_fields() {
    let pair = Pair { a: 7, b: 0xAB };
    let display = PackedStructDisplay::new(&pair);
    assert_eq!(
        "Pair (2 bytes)\r\n\r\n\
         Decimal\r\n[7, 171]\r\n\r\n\
         Hex\r\n[0x7, 0xAB]\r\n\r\n\
         Binary\r\n[0b00000111, 0b10101011]\r\n\r\n\
         a=7 b=171\r\n",
        display.display_string().unwrap()
    );
    let mut only_hex = PackedStructDisplay::new(&pair);
    only_hex.header = false;
    only_hex.raw_decimal = false;
    only_hex.raw_binary = false;
    only_hex.fields = false;
    assert_eq!("Hex\r\n[0x7, 0xAB]\r\n\r\n", only_hex.display_string().unwrap());
    let broken = Pair { a: 0xEE, b: 0 };
    assert_eq!(Err(PackingError::InvalidValue), PackedStructDisplay::new(&broken).display_string());
}

#[test]
fn bytes_in_each_notation() {
    for b in 0..=255u8 {
        let mut s = String::from(">");
        push_byte_text(&mut s, b, ByteNotation::Decimal);
        assert_eq!(format!(">{}", b), s);
        let mut s = String::new();
        push_byte_text(&mut s, b, ByteNotation::Hex);
        assert_eq!(format!("0x{:X}", b), s);
        let mut s = String::new();
        push_byte_text(&mut s, b, ByteNotation::Binary);
        assert_eq!(format!("0b{:08b}", b), s);
    }
    let mut s = String::from("x");
    push_byte_list(&mut s, &[], ByteNotation::Decimal);
    assert_eq!("xDecimal\r\n[]\r\n\r\n", s);
    let mut s = String::new();
    push_byte_list(&mut s, &[1, 20, 255], ByteNotation::Decimal);
    assert_eq!("Decimal\r\n[1, 20, 255]\r\n\r\n", s);
}

#[test]
fn names_in_snake_case() {
    assert_eq!("debug_field", to_snake_case("DebugField"));
    assert_eq!("control_register1", to_snake_case("ControlRegister1"));
    assert_eq!("already_snake", to_snake_case("already_snake"));
    assert_eq!("a_b_c", to_snake_case("ABC"));
    assert_eq!("", to_snake_case(""));
    assert_eq!("\u{e9}t\u{e9}", to_snake_case("\u{c9}t\u{e9}"));
    assert_eq!("x_i\u{307}", to_snake_case("x\u{130}"));
}

#[test]
fn the_smallest_type_for_a_width() {
    assert_eq!(NativeInt::U8, native_for(0));
    assert_eq!(NativeInt::U8, native_for(8));
    assert_eq!(NativeInt::U16, native_for(9));
    assert_eq!(NativeInt::U16, native_for(16));
    assert_eq!(NativeInt::U32, native_for(17));
    assert_eq!(NativeInt::U32, native_for(32));
    assert_eq!(NativeInt::U64, native_for(33));
    assert_eq!(NativeInt::U64, native_for(100));
}

#[test]
fn the_width_of_an_enum_field() {
    let ty = PackFieldAttribute::Ty(TyKind::Enum);
    assert_eq!(None, enum_bits(&vec![]));
    assert_eq!(None, enum_bits(&vec![PackFieldAttribute::SizeBits(3)]));
    assert_eq!(Some(64), enum_bits(&vec![ty]));
    assert_eq!(Some(3), enum_bits(&vec![PackFieldAttribute::SizeBits(3), ty]));
    assert_eq!(Some(5), enum_bits(&vec![ty, PackFieldAttribute::ElementSizeBits(5), PackFieldAttribute::SizeBits(3)]));
    assert_eq!(Some(4), enum_bits(&vec![ty, PackFieldAttribute::BitPosition(BitsPositionParsed::Range(0, 3))]));
    assert_eq!(Some(4), enum_bits(&vec![ty, PackFieldAttribute::BitPosition(BitsPositionParsed::Range(3, 0))]));
    assert_eq!(Some(16), enum_bits(&vec![ty, PackFieldAttribute::BytePosition(BitsPositionParsed::Range(8, 23))]));
    assert_eq!(
        Some(2),
        enum_bits(&vec![
            ty,
            PackFieldAttribute::BitPosition(BitsPositionParsed::Start(3)),
            PackFieldAttribute::BitPosition(BitsPositionParsed::Next),
            PackFieldAttribute::SizeBits(2),
        ])
    );
    assert_eq!(
        Some(usize::MAX),
        enum_bits(&vec![ty, PackFieldAttribute::BitPosition(BitsPositionParsed::Range(0, usize::MAX))])
    );
}

fn decls(v: &[Option<i128>]) -> Vec<VariantDecl> {
    v.iter().enumerate().map(|(i, d)| VariantDecl { name: format!("V{}", i), discriminant: *d, unit: true }).collect()
}

#[test]
fn the_first_type_that_holds_all_numbers() {
    assert_eq!(Some(NativeInt::U8), detect(&decls(&[None, None, Some(255)])));
    assert_eq!(Some(NativeInt::U16), detect(&decls(&[Some(255), None])));
    assert_eq!(Some(NativeInt::U32), detect(&decls(&[Some(65536)])));
    assert_eq!(Some(NativeInt::U64), detect(&decls(&[Some(u64::MAX as i128)])));
    assert_eq!(Some(NativeInt::I8), detect(&decls(&[Some(-128), Some(127)])));
    assert_eq!(Some(NativeInt::I16), detect(&decls(&[Some(-1), Some(128)])));
    assert_eq!(Some(NativeInt::I32), detect(&decls(&[Some(-32769)])));
    assert_eq!(Some(NativeInt::I64), detect(&decls(&[Some(i64::MIN as i128)])));
    assert_eq!(None, detect(&decls(&[Some(-1), Some(u64::MAX as i128)])));
    assert_eq!(None, detect(&decls(&[Some(1), Some(1)])));
    assert_eq!(Some(NativeInt::U8), detect(&decls(&[])));
}

#[test]
fn the_first_fault_of_an_enum_is_its_error() {
    assert_eq!(
        Err(EnumError::Duplicate { first: 0, second: 1 }),
        packed_struct::enum_variants::derive(&decls(&[Some(1), Some(1), Some(300)]), NativeInt::U8).map(|_| ())
    );
    assert_eq!(
        Err(EnumError::OutOfRange { variant: 1 }),
        packed_struct::enum_variants::derive(&decls(&[Some(1), Some(300), Some(1)]), NativeInt::U8).map(|_| ())
    );
}

#[test]
fn attributes_that_cannot_be_read_give_nothing() {
    let pairs = |v: &[(&str, &str)]| -> Vec<(String, String)> {
        v.iter().map(|(n, w)| (n.to_string(), w.to_string())).collect()
    };
    assert_eq!(
        Some(vec![PackStructAttribute::SizeBytes(16)]),
        PackStructAttribute::try_parse_all(&pairs(&[("size_bytes", "0x10"), ("derive", "Debug")]))
    );
    assert_eq!(None, PackStructAttribute::try_parse_all(&pairs(&[("size_bytes", "0x10"), ("endian", "middle")])));
    assert_eq!(Some(vec![]), PackStructAttribute::try_parse_all(&pairs(&[])));
    assert_eq!(
        Some(vec![PackFieldAttribute::BitPosition(BitsPositionParsed::Start(7)), PackFieldAttribute::SizeBits(8)]),
        PackFieldAttribute::try_parse_all(&pairs(&[("doc", "x"), ("bits", "7.."), ("size_bytes", "1")]))
    );
    assert_eq!(None, PackFieldAttribute::try_parse_all(&pairs(&[("bits", "7.."), ("size_bits", "many")])));
}

#[derive(PartialEq, Debug, Clone, Copy)]
enum Mode {
    Off,
    On,
}

impl PrimitiveEnum<u8> for Mode {
    fn from_primitive(val: u8) -> Option<Self> {
        match val {
            0 => Some(Mode::Off),
            1 => Some(Mode::On),
            _ => None,
        }
    }

    fn to_primitive(&self) -> u8 {
        match self {
            Mode::Off => 0,
            Mode::On => 1,
        }
    }

    fn to_display_str(&self) -> String {
        format!("{:?}", self)
    }

    fn from_str(s: &str) -> Option<Self> {
        Self::all_variants().into_iter().find(|v| v.to_display_str() == s)
    }

    fn from_str_lower(s: &str) -> Option<Self> {
        Self::all_variants().into_iter().find(|v| v.to_display_str().to_lowercase() == s)
    }

    fn all_variants() -> Vec<Self> {
        vec![Mode::Off, Mode::On]
    }
}

#[test]
fn catch_all_values_are_equal_by_their_number() {
    let on: EnumCatchAll<Mode, u8> = EnumCatchAll::Enum(Mode::On);
    let one: EnumCatchAll<Mode, u8> = EnumCatchAll::CatchAll(1);
    let nine: EnumCatchAll<Mode, u8> = EnumCatchAll::CatchAll(9);
    assert!(on == one);
    assert!(on == EnumCatchAll::Enum(Mode::On));
    assert!(on != EnumCatchAll::Enum(Mode::Off));
    assert!(one != nine);
    assert!(nine == EnumCatchAll::CatchAll(9));
}

#[test]
fn a_refused_buffer_is_left_as_it_was() {
    let pair = Pair { a: 1, b: 2 };
    let mut short = [9u8; 1];
    assert_eq!(Err(PackingError::BufferSizeMismatch { expected: 2, actual: 1 }), pair.pack_to_slice(&mut short));
    assert_eq!([9], short);
    let broken = Pair { a: 0xEE, b: 2 };
    let mut buf = [9u8; 2];
    assert_eq!(Err(PackingError::InvalidValue), broken.pack_to_slice(&mut buf));
    assert_eq!([9, 9], buf);
    let tuple = (3u8, vec![pair, broken]);
    let mut buf = [9u8; 5];
    assert_eq!(Err(PackingError::InvalidValue), tuple.pack_to_slice(&mut buf));
    assert_eq!([9; 5], buf);
    let items = vec![Pair { a: 1, b: 2 }, Pair { a: 0xEE, b: 0 }];
    let mut buf = [9u8; 4];
    assert_eq!(Err(PackingError::InvalidValue), items.pack_to_slice(&mut buf));
    assert_eq!([9; 4], buf);
    let mut buf = [9u8; 4];
    assert_eq!(Ok(()), vec![Pair { a: 1, b: 2 }, Pair { a: 3, b: 4 }].pack_to_slice(&mut buf));
    assert_eq!([1, 2, 3, 4], buf);
}

#[test]
fn numbers_that_are_no_variant_are_shown_in_decimal() {
    assert_eq!("Unknown value: 0", unknown_value_str(0));
    assert_eq!("Unknown value: 9", unknown_value_str(9));
    assert_eq!("Unknown value: 10", unknown_value_str(10));
    assert_eq!("Unknown value: -3", unknown_value_str(-3));
    assert_eq!(format!("Unknown value: {:?}", i128::MIN), unknown_value_str(i128::MIN));
    assert_eq!(format!("Unknown value: {:?}", i128::MAX), unknown_value_str(i128::MAX));
    assert_eq!(format!("Unknown value: {:?}", u64::MAX), unknown_value_str(u64::MAX as i128));
}

#[test]
fn white_space_is_twenty_five_characters() {
    let mut found = vec![];
    for n in 0..=0x10FFFFu32 {
        if let Some(c) = char::from_u32(n) {
            if try_parse_num(&format!("{}7{}", c, c)) == Some(7) {
                found.push(n);
            }
        }
    }
    let mut expected = vec![0x09, 0x0A, 0x0B, 0x0C, 0x0D, 0x20, 0x85, 0xA0, 0x1680];
    expected.extend(0x2000..=0x200A);
    expected.extend([0x2028, 0x2029, 0x202F, 0x205F, 0x3000]);
    // A plus sign in front of a number is read too.
    expected.retain(|n| *n != 0x2B);
    assert_eq!(25, expected.len());
    assert_eq!(expected, found);
}

#[test]
fn lines_of_the_table_are_aligned() {
    let field = |name: &str, bits: std::ops::Range<usize>, value: &str| DebugBitField {
        name: name.to_string(),
        bits,
        display_value: value.to_string(),
    };
    let bytes = [0u8; 200];
    assert_eq!(
        "    a | bits   0:7   | 0b00000000 | \"1\"\r\n\
         \u{20}long | bits   8:9   | 0b00       | \"x\"\r\n\
         \u{20}  \u{e9}\u{e9} | bits  98:99  | 0b00       | \"\\n\"\r\n\
         \u{20}   w | bits 100:107 | 0b00000000 | \"\"\r\n\
         \u{20}   v | bits 999:1000 | 0b00       | \"y\"\r\n",
        packable_fmt_fields(
            &bytes,
            &[
                field("a", 0..7, "1"),
                field("long", 8..9, "x"),
                field("\u{e9}\u{e9}", 98..99, "\n"),
                field("w", 100..107, ""),
                field("v", 999..1000, "y"),
            ]
        )
    );
    for (name, bits, value) in [("a", 0..7, "1"), ("long name", 3..3, "a\"b"), ("\u{e9}", 12..1012, "\t")] {
        let fields = [field(name, bits.clone(), value), field("other name", 0..40, "")];
        let table = packable_fmt_fields(&bytes, &fields);
        assert_eq!(format!("{:>11} | {:?}\r\n{:>11} | {:?}\r\n", name, value, "other name", ""), table);
    }
    let long = "n".repeat(70000);
    let table = packable_fmt_fields(&bytes, &[field(&long, 0..1, "1"), field("b", 0..1, "2")]);
    assert_eq!(format!(" {} | bits   0:1   | 0b00 | \"1\"\r\n{}b | bits   0:1   | 0b00 | \"2\"\r\n", long, " ".repeat(70000)), table);
}
