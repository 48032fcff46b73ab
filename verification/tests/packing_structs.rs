use packed_struct::pack::{FieldDecl, FieldKind, FieldRegular, FieldTy, LayoutError, NativeInt, PackStruct, WrapperChain};
use packed_struct::pack_fields::{pack_field, unpack_field};
use packed_struct::pack_fields::FieldValue;
use packed_struct::pack_parse::{parse_struct, BitsPositionParsed};
use packed_struct::pack_parse_attributes::{PackFieldAttribute, PackStructAttribute, TyKind};
use packed_struct::packing::PackingError;
use packed_struct::primitive_enum::{EnumCatchAll, PrimitiveEnum};
use packed_struct::types_bits::Bits;
use packed_struct::types_num::{Integer, SizedInteger};

fn pairs(attributes: &[(&str, &str)]) -> Vec<(String, String)> {
    attributes.iter().map(|(n, v)| (n.to_string(), v.to_string())).collect()
}

/// A field with the attributes as they are written.
fn field(ty: FieldTy, attributes: &[(&str, &str)]) -> FieldDecl {
    FieldDecl { ty, array_size: None, attributes: PackFieldAttribute::parse_all(&pairs(attributes)) }
}

/// A field from bit `first` to bit `last`.
fn at(ty: FieldTy, first: usize, last: usize, attributes: &[(&str, &str)]) -> FieldDecl {
    let mut f = field(ty, attributes);
    f.attributes.insert(0, PackFieldAttribute::BitPosition(BitsPositionParsed::Range(first, last)));
    f
}

fn array(mut f: FieldDecl, size: usize) -> FieldDecl {
    f.array_size = Some(size);
    f
}

fn layout(attributes: &[(&str, &str)], fields: Vec<FieldDecl>) -> PackStruct {
    parse_struct(&PackStructAttribute::parse_all(&pairs(attributes)), &fields).unwrap()
}

fn num(v: i128) -> FieldValue {
    FieldValue::Integer(v)
}

fn flag(b: bool) -> FieldValue {
    FieldValue::Bool(b)
}

fn enumeration(primitive: NativeInt) -> FieldTy {
    FieldTy::Other { primitive: Some(primitive) }
}

fn sized(native: NativeInt, bits: usize) -> FieldTy {
    FieldTy::Integer { native, bits }
}

const ENUM: (&str, &str) = ("ty", "enum");

#[derive(PartialEq, Debug, Clone, Copy)]
pub enum SelfTestMode {
    NormalMode,
    PositiveSignSelfTest,
    NegativeSignSelfTest,
    DebugMode,
}

impl PrimitiveEnum<u8> for SelfTestMode {
    fn from_primitive(val: u8) -> Option<Self> {
        Self::all_variants().into_iter().find(|v| v.to_primitive() == val)
    }

    fn to_primitive(&self) -> u8 {
        match self {
            SelfTestMode::NormalMode => 0,
            SelfTestMode::PositiveSignSelfTest => 1,
            SelfTestMode::NegativeSignSelfTest => 2,
            SelfTestMode::DebugMode => 3,
        }
    }

    fn to_display_str(&self) -> String {
        format!("{:?}", self)
    }

    fn from_str(s: &str) -> Option<Self> {
        Self::all_variants().into_iter().find(|v| v.to_display_str() == s)
    }

    fn from_str_lower(s: &str) -> Option<Self> {
        Self::all_variants().into_iter().find(|v| v.to_display_str().to_lowercase() == s)
    }

    fn all_variants() -> Vec<Self> {
        vec![
            SelfTestMode::NormalMode,
            SelfTestMode::PositiveSignSelfTest,
            SelfTestMode::NegativeSignSelfTest,
            SelfTestMode::DebugMode,
        ]
    }
}

#[test]
fn enum_packing_prim() {
    let a = SelfTestMode::DebugMode;
    assert_eq!(3, a.to_primitive());

    let test_pack = layout(
        &[("bit_numbering", "msb0")],
        vec![at(enumeration(NativeInt::U8), 2, 3, &[ENUM]), at(FieldTy::Bool, 6, 6, &[])],
    );
    let test = vec![num(SelfTestMode::DebugMode.to_primitive() as i128), flag(true)];

    let packed = test_pack.pack(&test).unwrap();
    assert_eq!([0b00110010], packed[..]);

    let unpacked = test_pack.unpack(&packed).unwrap();
    assert_eq!(unpacked, test);
    match unpacked[0] {
        FieldValue::Integer(v) => assert_eq!(Some(SelfTestMode::DebugMode), SelfTestMode::from_primitive(v as u8)),
        _ => panic!("no number"),
    }
}

#[test]
fn test_reg() {
    // Rate6_25Hz is the data rate with the number 2.
    let control_register_4 = layout(
        &[("bit_numbering", "msb0")],
        vec![at(enumeration(NativeInt::U8), 1, 4, &[ENUM]), at(FieldTy::Bool, 6, 6, &[])],
    );
    let r = vec![num(2), flag(true)];

    let b = control_register_4.pack(&r).unwrap();
    assert_eq!([0b00010010], b[..]);
}

#[test]
fn enum_packing_3() {
    let a = SelfTestMode::DebugMode;
    assert_eq!(3, a.to_primitive());

    let test_pack = layout(
        &[("endian", "msb")],
        vec![
            field(FieldTy::Native(NativeInt::I32), &[]),
            field(FieldTy::Native(NativeInt::I32), &[]),
            field(FieldTy::Native(NativeInt::I32), &[]),
            field(enumeration(NativeInt::U8), &[("size_bytes", "1"), ENUM]),
        ],
    );
    let test = vec![num(100), num(-100), num(131414), num(SelfTestMode::DebugMode.to_primitive() as i128)];

    let packed = test_pack.pack(&test).unwrap();
    let unpacked = test_pack.unpack(&packed).unwrap();
    assert_eq!(&test, &unpacked);

    let test_pack_mode = layout(&[], vec![field(enumeration(NativeInt::U8), &[("size_bytes", "1"), ENUM])]);
    let m = vec![num(a.to_primitive() as i128)];
    let p = test_pack_mode.pack(&m).unwrap();
    assert_eq!(&[3], &p[..]);
}

fn small(v: u8, bits_3: bool) -> i128 {
    if bits_3 {
        <Integer<u8, Bits<3>>>::from(v).to_primitive() as i128
    } else {
        <Integer<u8, Bits<2>>>::from(v).to_primitive() as i128
    }
}

#[test]
fn test_packing_bit_positions() {
    let small_ints = layout(
        &[("bit_numbering", "msb0")],
        vec![
            at(sized(NativeInt::U8, 3), 0, 2, &[]),
            at(sized(NativeInt::U8, 2), 3, 4, &[]),
            field(FieldTy::Bool, &[]),
            field(FieldTy::Bool, &[("bits", "6")]),
            field(FieldTy::Bool, &[("bits", "7..")]),
        ],
    );
    let a = vec![num(small(7, true)), num(small(3, false)), flag(true), flag(true), flag(true)];

    let packed = small_ints.pack(&a).unwrap();
    assert_eq!([255], packed[..]);

    let unpacked = small_ints.unpack(&packed).unwrap();
    assert_eq!(a, unpacked);
}

#[test]
fn test_packing_bit_positions_lsb() {
    let small_ints_lsb = layout(
        &[("size_bytes", "1"), ("bit_numbering", "lsb0")],
        vec![at(sized(NativeInt::U8, 3), 2, 0, &[]), field(FieldTy::Bool, &[("bits", "6")])],
    );
    let a = vec![num(small(0b111, true)), flag(true)];

    let packed = small_ints_lsb.pack(&a).unwrap();
    assert_eq!(&[0b01000111], &packed[..]);

    let unpacked = small_ints_lsb.unpack(&packed).unwrap();
    assert_eq!(a, unpacked);
}

/// This test should verify the packing/unpacking a hypothetical 32-bit register that contains 0xbeef0407
#[test]
fn test_packing_bit_positions_bigints_lsb() {
    let big_ints_lsb = layout(
        &[("size_bytes", "4"), ("bit_numbering", "lsb0"), ("endian", "lsb")],
        vec![
            at(sized(NativeInt::U8, 3), 26, 24, &[]),
            field(FieldTy::Bool, &[("bits", "18")]),
            at(sized(NativeInt::U16, 16), 15, 0, &[]),
        ],
    );
    let a = vec![num(7), flag(true), num(0xbeef)];

    let packed = big_ints_lsb.pack(&a).unwrap();
    assert_eq!(&[0x07u8, 0x04, 0xef, 0xbe], &packed[..], "mismatch received: {:?}", a);

    let unpacked = big_ints_lsb.unpack(&packed).unwrap();
    assert_eq!(a, unpacked);
}

#[test]
fn test_packing_byte_position() {
    let buffer_checksum = layout(
        &[("bit_numbering", "msb0"), ("endian", "msb")],
        vec![
            field(FieldTy::Native(NativeInt::U8), &[("bytes", "0")]),
            field(FieldTy::Native(NativeInt::U32), &[("bytes", "1..4")]),
            field(FieldTy::Native(NativeInt::U64), &[("bytes", "5..")]),
        ],
    );
    let b = vec![num(101), num(52748273), num(869034217895)];

    let packed = buffer_checksum.pack(&b).unwrap();
    assert_eq!(packed.len(), 13);

    let unpacked = buffer_checksum.unpack(&packed).unwrap();

    assert_eq!(b, unpacked);
}

#[test]
fn packing_codegen_1_test_serialization_codegen() {
    let bools = layout(
        &[("size_bytes", "4"), ("bit_numbering", "msb0")],
        vec![
            field(FieldTy::Bool, &[("bits", "0")]),
            at(FieldTy::Native(NativeInt::U8), 3, 10, &[]),
            at(FieldTy::Native(NativeInt::U8), 11, 18, &[]),
            field(FieldTy::Bool, &[("bits", "29")]),
            field(FieldTy::Bool, &[("bits", "31")]),
        ],
    );
    let b = vec![flag(true), num(0b10100101), num(0b01010101), flag(true), flag(true)];

    let packed = bools.pack(&b).unwrap();
    assert_eq!(&packed[..], &[0b10010100, 0b10101010, 0b10100000, 0b00000101]);

    let unpacked = bools.unpack(&packed).unwrap();
    assert_eq!(&unpacked, &b);
}

#[test]
fn test_packed_struct_u8() {
    let sample_register = layout(
        &[("bit_numbering", "msb0")],
        vec![
            field(FieldTy::Bool, &[("bits", "1")]),
            field(FieldTy::Bool, &[("bits", "3")]),
            field(FieldTy::Bool, &[("bits", "4..")]),
            field(FieldTy::Bool, &[]),
        ],
    );
    let reg = vec![flag(true), flag(true), flag(false), flag(true)];

    let packed = sample_register.pack(&reg).unwrap();
    assert_eq!(&[0b01010100], &packed[..]);
}

fn ints() -> PackStruct {
    layout(
        &[("size_bytes", "6"), ("bit_numbering", "msb0")],
        vec![
            field(FieldTy::Native(NativeInt::U16), &[("bits", "2..17"), ("endian", "msb")]),
            field(FieldTy::Bool, &[("bits", "18")]),
            field(FieldTy::Native(NativeInt::U16), &[("bits", "19..34"), ("endian", "lsb")]),
        ],
    )
}

#[test]
fn test_packed_struct_range() {
    {
        let i = vec![num(0b1110101010101010), flag(true), num(0b1101010111010101)];

        let packed = ints().pack(&i).unwrap();
        assert_eq!(&packed[..], &[0b00111010, 0b10101010, 0b10111010, 0b10111010, 0b10100000, 0]);
    }
}

#[test]
fn test_packed_primitives() {
    let i = vec![num(0b1010101010101010), flag(true), num(0b0101010111010101)];

    let packed = ints().pack(&i).unwrap();
    assert_eq!(&packed[..], &[0b00101010, 0b10101010, 0b10111010, 0b10101010, 0b10100000, 0]);
}

fn test_struct(endian: &str) -> PackStruct {
    layout(
        &[("endian", endian), ("size_bytes", "7")],
        vec![
            field(FieldTy::Native(NativeInt::U8), &[]),
            field(FieldTy::Native(NativeInt::U32), &[]),
            field(FieldTy::Native(NativeInt::U16), &[]),
        ],
    )
}

#[test]
fn test_struct_be_unpack() {
    let buf = &[0x11, 0x22, 0x33, 0x44, 0x55, 0x66, 0x77];
    let unpacked = test_struct("msb").unpack(buf).unwrap();
    assert_eq!(unpacked[0], num(0x11));
    assert_eq!(unpacked[1], num(0x22334455));
    assert_eq!(unpacked[2], num(0x6677));
}

#[test]
fn test_struct_le_unpack() {
    let buf = &[0x11, 0x22, 0x33, 0x44, 0x55, 0x66, 0x77];
    let unpacked = test_struct("lsb").unpack(buf).unwrap();
    assert_eq!(unpacked[0], num(0x11));
    assert_eq!(unpacked[1], num(0x55443322));
    assert_eq!(unpacked[2], num(0x7766));
}

#[test]
fn test_packed_compact_byte() {
    let reg_a = layout(
        &[("size_bytes", "1"), ("bit_numbering", "msb0")],
        vec![
            at(sized(NativeInt::U8, 3), 0, 2, &[]),
            at(sized(NativeInt::U8, 2), 3, 4, &[]),
            at(sized(NativeInt::U8, 3), 5, 7, &[]),
        ],
    );
    let reg = vec![num(small(0b101, true)), num(small(0b11, false)), num(small(0b010, true))];

    let packed = reg_a.pack(&reg).unwrap();
    assert_eq!(&packed[..], &[0b10111010]);

    let unpacked = reg_a.unpack(&packed).unwrap();
    assert_eq!(&unpacked, &reg);
}

#[test]
fn packing_enum_16bit_prim() {
    // The enum has the values 1, 1024 and 4096 in sixteen bits.
    let struct_with_bits_enum = layout(
        &[("size_bytes", "2"), ("bit_numbering", "msb0"), ("endian", "msb")],
        vec![at(enumeration(NativeInt::U16), 0, 15, &[ENUM])],
    );
    let st = vec![num(1024)];

    let packed = struct_with_bits_enum.pack(&st).unwrap();
    assert_eq!([0b0000_0100, 0b0000_0000], packed[..]);

    let unpacked = struct_with_bits_enum.unpack(&packed).unwrap();
    assert_eq!(st, unpacked);
}

#[test]
fn test_pos() {
    // both orders (high-low, low-high) should be supported!
    let ints_lsb_pos_bits = layout(
        &[("size_bytes", "1"), ("bit_numbering", "lsb0")],
        vec![at(sized(NativeInt::U8, 4), 0, 3, &[]), at(sized(NativeInt::U8, 4), 7, 4, &[])],
    );
    let num1: Integer<u8, Bits<4>> = 9.into();
    let num2: Integer<u8, Bits<4>> = 28.into();
    let s = vec![num(num1.to_primitive() as i128), num(num2.to_primitive() as i128)];

    let packed = ints_lsb_pos_bits.pack(&s).unwrap();
    let unpacked = ints_lsb_pos_bits.unpack(&packed).unwrap();

    assert_eq!(unpacked, s);
    assert_eq!(vec![num(9), num(12)], unpacked);
}

#[test]
fn test_packed_struct_msp() {
    let msp_status = layout(
        &[("size_bytes", "4"), ("endian", "lsb")],
        vec![field(FieldTy::Native(NativeInt::U16), &[]), field(FieldTy::Native(NativeInt::U16), &[])],
    );
    let reg = vec![num(0xAABB), num(1)];

    let packed = msp_status.pack(&reg).unwrap();
    assert_eq!(&packed[..], &[0xBB, 0xAA, 0x01, 0x00]);

    let unpacked = msp_status.unpack(&packed).unwrap();
    assert_eq!(&unpacked, &reg);
}

fn all_ints(endian: &str) -> PackStruct {
    layout(
        &[("endian", endian), ("bit_numbering", "msb0")],
        vec![
            field(FieldTy::Native(NativeInt::U8), &[("bytes", "0")]),
            field(FieldTy::Native(NativeInt::I8), &[("bytes", "1")]),
            field(FieldTy::Native(NativeInt::U16), &[]),
            field(FieldTy::Native(NativeInt::I16), &[]),
            field(FieldTy::Native(NativeInt::U32), &[]),
            field(FieldTy::Native(NativeInt::I32), &[]),
            field(FieldTy::Native(NativeInt::U64), &[]),
        ],
    )
}

#[test]
fn test_packed_int_msb_endian() {
    let i = vec![num(85), num(85), num(0), num(0), num(0), num(0), num(0)];

    let packed = all_ints("msb").pack(&i).unwrap();
    let unpacked = all_ints("msb").unpack(&packed).unwrap();
    assert_eq!(i, unpacked);
}

#[test]
fn test_packed_int_lsb_endian() {
    let i = vec![num(85), num(85), num(0), num(0), num(0), num(0), num(0)];

    let packed = all_ints("lsb").pack(&i).unwrap();
    let unpacked = all_ints("lsb").unpack(&packed).unwrap();
    assert_eq!(i, unpacked);
}

#[test]
fn test_packed_reserved_fields() {
    let struct_one = layout(
        &[("bit_numbering", "msb0")],
        vec![
            at(FieldTy::ReservedZero { bits: 4 }, 0, 3, &[]),
            field(FieldTy::Bool, &[("bits", "4")]),
            at(FieldTy::ReservedOne { bits: 3 }, 5, 7, &[]),
        ],
    );
    let s = vec![FieldValue::Reserved, flag(false), FieldValue::Reserved];
    let packed = struct_one.pack(&s).unwrap();
    assert_eq!([0b0000_0111], packed[..]);

    let unpacked = struct_one.unpack(&[0b1111_1000]).unwrap();
    assert_eq!(flag(true), unpacked[1]);
}

#[derive(PartialEq, Debug, Clone, Copy)]
pub enum Field {
    A,
    B,
    C,
}

impl PrimitiveEnum<u8> for Field {
    fn from_primitive(val: u8) -> Option<Self> {
        Self::all_variants().into_iter().find(|v| v.to_primitive() == val)
    }

    fn to_primitive(&self) -> u8 {
        match self {
            Field::A => 1,
            Field::B => 2,
            Field::C => 3,
        }
    }

    fn to_display_str(&self) -> String {
        format!("{:?}", self)
    }

    fn from_str(s: &str) -> Option<Self> {
        Self::all_variants().into_iter().find(|v| v.to_display_str() == s)
    }

    fn from_str_lower(s: &str) -> Option<Self> {
        Self::all_variants().into_iter().find(|v| v.to_display_str().to_lowercase() == s)
    }

    fn all_variants() -> Vec<Self> {
        vec![Field::A, Field::B, Field::C]
    }
}

#[test]
fn prim_catch_all() {
    assert_eq!(2, Field::B.to_primitive());

    // The field takes the four bits from bit 0 on.
    let register = layout(&[("bit_numbering", "msb0")], vec![at(enumeration(NativeInt::U8), 0, 3, &[ENUM])]);
    let field: EnumCatchAll<Field, u8> = Field::B.into();
    let r = vec![num(field.to_primitive() as i128)];
    let packed = register.pack(&r).unwrap();
    assert_eq!([0b0010_0000], packed[..]);
    assert_eq!(2, field.to_primitive());

    let packed_unknown_value = [0b0100_0000];
    let unpacked_unknown_value = register.unpack(&packed_unknown_value).unwrap();
    let unknown = match unpacked_unknown_value[0] {
        FieldValue::Integer(v) => <EnumCatchAll<Field, u8>>::from_primitive(v as u8).unwrap(),
        _ => panic!("no number"),
    };
    assert_eq!(0b0100, unknown.to_primitive());
    let repacked = register.pack(&unpacked_unknown_value).unwrap();
    assert_eq!([0b0100_0000], repacked[..]);

    println!("unknown: {:#?}", unknown);
}

#[test]
fn nostd_usage() {
    // LowPower is the power mode with the number 2.
    let control_register = layout(
        &[("bit_numbering", "msb0")],
        vec![
            at(enumeration(NativeInt::U8), 0, 1, &[ENUM]),
            at(sized(NativeInt::U8, 5), 3, 7, &[]),
            field(FieldTy::Bool, &[("bits", "8")]),
            array(at(FieldTy::Bool, 9, 12, &[]), 4),
            at(FieldTy::ReservedOne { bits: 3 }, 13, 15, &[]),
            at(FieldTy::Native(NativeInt::I16), 16, 31, &[("endian", "lsb")]),
        ],
    );
    let voltage: Integer<u8, Bits<5>> = 11.into();
    let reg = vec![
        num(2),
        num(voltage.to_primitive() as i128),
        flag(true),
        flag(true),
        flag(true),
        flag(false),
        flag(false),
        FieldValue::Reserved,
        num(-1503),
    ];

    let packed = control_register.pack(&reg).unwrap();
    assert_eq!([0x8B, 0xE7, 0x21, 0xFA], packed[..]);
    let unpacked = control_register.unpack(&[0x8B, 0xE7, 0x21, 0xFA]).unwrap();
    assert_eq!(unpacked, reg);
}

#[test]
fn test_packed_arrays() {
    let arrays = layout(&[("size_bytes", "7")], vec![array(field(FieldTy::Native(NativeInt::U8), &[]), 7)]);
    let a: Vec<FieldValue> = [1, 2, 3, 4, 5, 6, 7].iter().map(|v| num(*v)).collect();

    let packed = arrays.pack(&a).unwrap();
    assert_eq!(&packed[..], &[1, 2, 3, 4, 5, 6, 7]);

    let unpacked = arrays.unpack(&packed).unwrap();
    assert_eq!(&a, &unpacked);
}

#[test]
fn test_packed_array_of_structs() {
    let simple = layout(
        &[("size_bytes", "6"), ("endian", "msb")],
        vec![field(FieldTy::Native(NativeInt::U16), &[]), field(FieldTy::Native(NativeInt::U32), &[])],
    );
    let packaged = layout(
        &[],
        vec![array(field(FieldTy::Other { primitive: None }, &[("element_size_bytes", "6")]), 4)],
    );

    let items = [(1, 2), (50000, 6000000), (51000, 6200000), (23029, 75827424)];
    let p: Vec<FieldValue> = items
        .iter()
        .map(|(f1, f2)| FieldValue::Bytes(simple.pack(&vec![num(*f1), num(*f2)]).unwrap()))
        .collect();

    let packed = packaged.pack(&p).unwrap();
    assert_eq!(4 * 6, packed.len());

    let unpacked = packaged.unpack(&packed).unwrap();
    assert_eq!(&p, &unpacked);
    for (item, bytes) in items.iter().zip(unpacked.iter()) {
        match bytes {
            FieldValue::Bytes(b) => assert_eq!(vec![num(item.0), num(item.1)], simple.unpack(b).unwrap()),
            _ => panic!("no bytes"),
        }
    }
}

#[test]
fn test_serialization_autosize_msb0() {
    let bools = layout(
        &[("bit_numbering", "msb0")],
        vec![field(FieldTy::Bool, &[("bits", "8")]), field(FieldTy::Bool, &[("bits", "0")])],
    );
    let b = vec![flag(true), flag(true)];

    let packed = bools.pack(&b).unwrap();
    assert_eq!(&packed[..], &[0b10000000, 0b10000000]);

    let unpacked = bools.unpack(&packed).unwrap();
    assert_eq!(&unpacked, &b);
}

#[test]
fn test_serialization_autosize_lsb0() {
    let bools = layout(
        &[("size_bytes", "2"), ("bit_numbering", "lsb0")],
        vec![field(FieldTy::Bool, &[("bits", "15")]), field(FieldTy::Bool, &[("bits", "7")])],
    );
    let b = vec![flag(true), flag(true)];

    let packed = bools.pack(&b).unwrap();
    assert_eq!(&packed[..], &[0b10000000, 0b10000000]);

    let unpacked = bools.unpack(&packed).unwrap();
    assert_eq!(&unpacked, &b);
}

#[test]
fn test_tiny_flags() {
    let tiny_flags = layout(
        &[("bit_numbering", "msb0")],
        vec![
            field(FieldTy::Bool, &[("bits", "4")]),
            field(sized(NativeInt::U8, 2), &[]),
            field(FieldTy::Bool, &[]),
        ],
    );
    let flags = vec![flag(true), num(3), flag(false)];

    let packed = tiny_flags.pack(&flags).unwrap();
    assert_eq!([0b00001110], packed[..]);
    let unpacked = tiny_flags.unpack(&packed).unwrap();
    assert_eq!(unpacked, flags);

    let settings = layout(
        &[],
        vec![array(field(FieldTy::Other { primitive: None }, &[("element_size_bits", "4")]), 4)],
    );
    let values = [(true, 1, false), (true, 2, true), (false, 3, false), (true, 0, false)];
    let example: Vec<FieldValue> = values
        .iter()
        .map(|(a, b, c)| FieldValue::Bytes(tiny_flags.pack(&vec![flag(*a), num(*b), flag(*c)]).unwrap()))
        .collect();

    let packed = settings.pack(&example).unwrap();
    let unpacked = settings.unpack(&packed).unwrap();

    assert_eq!(example, unpacked);
}

#[test]
fn test_usb_pd_test_serialization_codegen() {
    let power_data_object_fixed = layout(
        &[("size_bytes", "4"), ("bit_numbering", "lsb0"), ("endian", "msb")],
        vec![
            at(sized(NativeInt::U8, 2), 31, 30, &[]),
            field(FieldTy::Bool, &[("bits", "29")]),
            field(FieldTy::Bool, &[("bits", "28")]),
            field(FieldTy::Bool, &[("bits", "27")]),
            field(FieldTy::Bool, &[("bits", "26")]),
            field(FieldTy::Bool, &[("bits", "25")]),
            at(sized(NativeInt::U8, 2), 21, 20, &[]),
            at(sized(NativeInt::U16, 10), 19, 10, &[]),
            at(sized(NativeInt::U16, 10), 9, 0, &[]),
        ],
    );
    let voltage: Integer<u16, Bits<10>> = 0b10_1111_1111.into();
    let maximum_current: Integer<u16, Bits<10>> = 0b10_1010_1010.into();
    let p = vec![
        num(0),
        flag(false),
        flag(false),
        flag(false),
        flag(false),
        flag(true),
        num(0),
        num(voltage.to_primitive() as i128),
        num(maximum_current.to_primitive() as i128),
    ];

    let packed = power_data_object_fixed.pack(&p).unwrap();
    assert_eq!([0b00000010, 0b0000_1011, 0b1111_1110, 0b10101010], packed[..]);

    let unpacked = power_data_object_fixed.unpack(&packed).unwrap();
    assert_eq!(flag(true), unpacked[5]);
    assert_eq!(num(voltage.to_primitive() as i128), unpacked[7]);
    assert_eq!(num(maximum_current.to_primitive() as i128), unpacked[8]);
}

#[test]
fn test_packed_struct_issue_10() {
    let nine = |first, last| at(sized(NativeInt::U16, 9), first, last, &[("endian", "msb")]);
    let led_driver_config = layout(
        &[("bit_numbering", "msb0")],
        vec![
            at(sized(NativeInt::U8, 2), 46, 47, &[]),
            at(sized(NativeInt::U8, 2), 44, 45, &[]),
            field(sized(NativeInt::U8, 1), &[("bits", "43")]),
            field(sized(NativeInt::U8, 1), &[("bits", "42")]),
            field(sized(NativeInt::U8, 1), &[("bits", "41")]),
            field(sized(NativeInt::U8, 1), &[("bits", "40")]),
            field(sized(NativeInt::U8, 1), &[("bits", "39")]),
            field(sized(NativeInt::U8, 1), &[("bits", "38")]),
            field(sized(NativeInt::U8, 1), &[("bits", "37")]),
            at(sized(NativeInt::U8, 3), 34, 36, &[]),
            nine(25, 33),
            nine(16, 24),
            nine(7, 15),
            at(sized(NativeInt::U8, 3), 4, 6, &[]),
            field(sized(NativeInt::U8, 1), &[("bits", "3")]),
            at(sized(NativeInt::U8, 3), 0, 2, &[]),
        ],
    );
    let data = [0xAA, 0xBB, 0xCC, 0xDD, 0xEE, 0xFF];
    let unpacked = led_driver_config.unpack(&data).unwrap();
    assert_eq!(16, unpacked.len());
    assert_eq!(data.to_vec(), led_driver_config.pack(&unpacked).unwrap());
}

#[test]
fn overlapping_fields_are_refused() {
    let r = parse_struct(
        &PackStructAttribute::parse_all(&pairs(&[("bit_numbering", "msb0")])),
        &vec![at(sized(NativeInt::U8, 4), 0, 3, &[]), at(sized(NativeInt::U8, 4), 2, 5, &[])],
    );
    assert_eq!(Err(LayoutError::Overlap { first: 0, second: 1 }), r.map(|_| ()));
}

#[test]
fn one_byte_of_three_fields() {
    // A 3-bit number, a 2-bit enum and a flag in one byte.
    let ps = layout(
        &[("bit_numbering", "msb0"), ("size_bytes", "1")],
        vec![
            at(sized(NativeInt::U8, 3), 0, 2, &[]),
            at(enumeration(NativeInt::U8), 3, 4, &[ENUM]),
            at(FieldTy::Bool, 7, 7, &[]),
        ],
    );
    let values = vec![num(5), num(3), flag(true)];
    let packed = ps.pack(&values).unwrap();
    assert_eq!([0b10111001], packed[..]);
    assert_eq!(values, ps.unpack(&packed).unwrap());
}

#[test]
fn thirty_two_bits_in_both_byte_orders() {
    let be = layout(&[("endian", "msb")], vec![field(FieldTy::Native(NativeInt::U32), &[])]);
    assert_eq!([0x11, 0x22, 0x33, 0x44], be.pack(&vec![num(0x11223344)]).unwrap()[..]);
    let le = layout(&[("endian", "lsb")], vec![field(FieldTy::Native(NativeInt::U32), &[])]);
    assert_eq!([0x44, 0x33, 0x22, 0x11], le.pack(&vec![num(0x11223344)]).unwrap()[..]);
}

#[test]
fn layout_errors() {
    let msb0 = PackStructAttribute::parse_all(&pairs(&[("bit_numbering", "msb0")]));
    let lsb0 = PackStructAttribute::parse_all(&pairs(&[("bit_numbering", "lsb0")]));
    let none: Vec<PackStructAttribute> = vec![];
    let fails = |attrs: &Vec<PackStructAttribute>, fields: Vec<FieldDecl>| parse_struct(attrs, &fields).map(|_| ()).unwrap_err();
    assert_eq!(LayoutError::Lsb0NeedsStructSize, fails(&lsb0, vec![at(FieldTy::Bool, 0, 0, &[])]));
    assert_eq!(LayoutError::Lsb0NeedsRange, fails(&lsb0, vec![field(FieldTy::Bool, &[])]));
    assert_eq!(LayoutError::BitNumberingRequired, fails(&none, vec![at(FieldTy::Bool, 0, 0, &[])]));
    assert_eq!(LayoutError::FirstFieldAlignment, fails(&none, vec![field(FieldTy::Bool, &[])]));
    assert_eq!(LayoutError::NoFields, fails(&none, vec![]));
    assert_eq!(LayoutError::UnknownWidth, fails(&none, vec![field(FieldTy::Other { primitive: None }, &[])]));
    assert_eq!(LayoutError::ArraySizeZero, fails(&none, vec![array(field(FieldTy::Bool, &[]), 0)]));
    assert_eq!(
        LayoutError::ArrayNeedsElementSize,
        fails(&none, vec![array(field(FieldTy::Bool, &[("size_bits", "2")]), 2)])
    );
    assert_eq!(
        LayoutError::MissingEndianness,
        fails(&none, vec![field(FieldTy::Native(NativeInt::U16), &[])])
    );
    assert_eq!(
        LayoutError::MissingEnumPrimitive,
        fails(&none, vec![field(FieldTy::Other { primitive: None }, &[("size_bits", "8"), ENUM])])
    );
    assert_eq!(LayoutError::EmptyField, fails(&msb0, vec![field(FieldTy::Bool, &[("size_bits", "0")])]));
    assert_eq!(LayoutError::ReversedRange, fails(&msb0, vec![at(FieldTy::Bool, 3, 1, &[])]));
    assert_eq!(LayoutError::TooLarge, fails(&msb0, vec![field(FieldTy::Bool, &[("bits", "5000")])]));
    assert_eq!(
        LayoutError::ElementSizeMismatch,
        fails(&msb0, vec![array(at(FieldTy::Bool, 0, 2, &[]), 4)])
    );
    assert_eq!(
        LayoutError::IntegerTooWide,
        fails(&msb0, vec![field(FieldTy::Native(NativeInt::U8), &[("size_bits", "9"), ("endian", "msb")])])
    );
    assert_eq!(LayoutError::WidthMismatch, fails(&msb0, vec![at(sized(NativeInt::U16, 9), 0, 3, &[])]));
    assert_eq!(LayoutError::WidthMismatch, fails(&msb0, vec![at(FieldTy::ReservedOne { bits: 9 }, 0, 3, &[])]));
    assert_eq!(
        LayoutError::LsbNeedsFullBytes,
        fails(&msb0, vec![at(FieldTy::Native(NativeInt::U16), 0, 9, &[("endian", "lsb")])])
    );
    assert_eq!(LayoutError::BoolTooWide, fails(&msb0, vec![at(FieldTy::Bool, 0, 8, &[])]));
    let sized_one = PackStructAttribute::parse_all(&pairs(&[("bit_numbering", "msb0"), ("size_bytes", "1")]));
    assert_eq!(LayoutError::OutOfBounds { field: 0 }, fails(&sized_one, vec![at(FieldTy::Bool, 8, 8, &[])]));
}

#[test]
fn packing_errors() {
    let ps = layout(&[("bit_numbering", "msb0")], vec![at(sized(NativeInt::U8, 4), 0, 3, &[]), at(FieldTy::Bool, 4, 4, &[])]);
    assert_eq!(Err(PackingError::InvalidValue), ps.pack(&vec![num(1)]));
    assert_eq!(Err(PackingError::InvalidValue), ps.pack(&vec![flag(true), flag(true)]));
    assert_eq!(Err(PackingError::InvalidValue), ps.pack(&vec![num(256), flag(true)]));
    assert_eq!(
        Err(PackingError::BufferSizeMismatch { expected: 1, actual: 2 }),
        ps.unpack(&[0, 0])
    );
    // A number that is too long for its field is cut down.
    assert_eq!(vec![0b1111_1000], ps.pack(&vec![num(0xFF), flag(true)]).unwrap());
    let _ = TyKind::Enum;
}

#[test]
fn fields_that_no_layout_gives() {
    // A native integer without a byte order is no field of a layout.
    let f = FieldRegular {
        field: 0,
        kind: FieldKind::Regular,
        ty: FieldTy::Native(NativeInt::U16),
        serialization_wrappers: WrapperChain { primitive_enum: false, integer: None, endian: None },
        bit_width: 16,
        bit_range: 0..15,
        bit_range_rust: 0..16,
    };
    assert_eq!(Err(PackingError::InternalError), pack_field(&f, &num(1)));
    assert_eq!(Err(PackingError::InternalError), unpack_field(&f, vec![0, 1]));
    assert_eq!(3, f.serialization_wrappers.wrappers().len() + 3);
    let ps = PackStruct { fields: vec![f.clone(), f], num_bytes: 2, num_bits: 16 };
    assert_eq!(Err(PackingError::InternalError), ps.unpack(&[0, 0]));
}
