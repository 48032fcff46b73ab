use packed_struct::packing::{PackedStruct, PackedStructInfo, PackedStructSlice};
use packed_struct::types_bits::Bits;
use packed_struct::types_num::{Integer, IntegerAsBytes, LsbInteger, MsbInteger, SizedInteger};

#[test]
fn types_num_test_u8() {
    let byte: Integer<u8, Bits<8>> = 0.into();
    assert_eq!(0, *byte);
    assert_eq!(0xFF, <Integer<u8, Bits<8>>>::value_bit_mask());
}

#[test]
fn test_u16() {
    let val = 0xABCD;
    let num: Integer<u16, Bits<16>> = val.into();
    assert_eq!(val, *num);
    assert_eq!([0xAB, 0xCD], num.to_msb_bytes().unwrap()[..]);
    assert_eq!([0xCD, 0xAB], num.to_lsb_bytes().unwrap()[..]);
}

#[test]
fn test_u32() {
    let val = 0x4589ABCD;
    let num: Integer<u32, Bits<32>> = val.into();
    assert_eq!(val, *num);
    assert_eq!([0x45, 0x89, 0xAB, 0xCD], num.to_msb_bytes().unwrap()[..]);
    assert_eq!([0xCD, 0xAB, 0x89, 0x45], num.to_lsb_bytes().unwrap()[..]);
}

#[test]
fn test_u64() {
    let val = 0x1122334455667788;
    let num: Integer<u64, Bits<64>> = val.into();
    assert_eq!(val, *num);
    assert_eq!([0x11, 0x22, 0x33, 0x44, 0x55, 0x66, 0x77, 0x88], num.to_msb_bytes().unwrap()[..]);
    assert_eq!([0x88, 0x77, 0x66, 0x55, 0x44, 0x33, 0x22, 0x11], num.to_lsb_bytes().unwrap()[..]);
}

fn four(bytes: &[u8]) -> [u8; 4] {
    [bytes[0], bytes[1], bytes[2], bytes[3]]
}

#[test]
fn test_roundtrip_u32() {
    let val = 0x11223344;
    let num: Integer<u32, Bits<32>> = val.into();
    let msb_bytes = num.to_msb_bytes().unwrap();
    let from_msb = u32::from_msb_bytes(&four(&msb_bytes));
    assert_eq!(val, from_msb);

    let lsb_bytes = num.to_lsb_bytes().unwrap();
    let from_lsb = u32::from_lsb_bytes(&four(&lsb_bytes));
    assert_eq!(val, from_lsb);
}

#[test]
fn test_roundtrip_u24() {
    let val = 0xCCBBAA;
    let num: Integer<u32, Bits<24>> = val.into();
    let msb_bytes = num.to_msb_bytes().unwrap();
    assert_eq!([0xCC, 0xBB, 0xAA], msb_bytes[..]);
    let from_msb = <Integer<u32, Bits<24>>>::from_msb_bytes(&msb_bytes).unwrap();
    assert_eq!(val, *from_msb);

    let lsb_bytes = num.to_lsb_bytes().unwrap();
    assert_eq!([0xAA, 0xBB, 0xCC], lsb_bytes[..]);
    let from_lsb = <Integer<u32, Bits<24>>>::from_lsb_bytes(&lsb_bytes).unwrap();
    assert_eq!(val, *from_lsb);
}

#[test]
fn test_roundtrip_u20() {
    let val = 0xFBBAA;
    let num: Integer<u32, Bits<20>> = val.into();
    let msb_bytes = num.to_msb_bytes().unwrap();
    assert_eq!([0x0F, 0xBB, 0xAA], msb_bytes[..]);
    let from_msb = <Integer<u32, Bits<20>>>::from_msb_bytes(&msb_bytes).unwrap();
    assert_eq!(val, *from_msb);
}

#[test]
fn test_packed_int_msb() {
    let val = 0xAABBCCDD;
    let typed: Integer<u32, Bits<32>> = val.into();
    let endian = typed.as_packed_msb();
    let packed = endian.pack().unwrap();
    assert_eq!([0xAA, 0xBB, 0xCC, 0xDD], packed[..]);

    let unpacked: MsbInteger<_, _, Integer<u32, Bits<32>>> = MsbInteger::unpack(&packed).unwrap();
    assert_eq!(val, **unpacked);
}

#[test]
fn test_packed_int_partial() {
    let val = 0b10_10101010;
    let typed: Integer<u16, Bits<10>> = val.into();
    let endian = typed.as_packed_msb();
    let packed = endian.pack().unwrap();
    assert_eq!([0b00000010, 0b10101010], packed[..]);

    let unpacked: MsbInteger<_, _, Integer<u16, Bits<10>>> = MsbInteger::unpack(&packed).unwrap();
    assert_eq!(val, **unpacked);
}

#[test]
fn test_packed_int_lsb() {
    let val = 0xAABBCCDD;
    let typed: Integer<u32, Bits<32>> = val.into();
    let endian = typed.as_packed_lsb();
    let packed = endian.pack().unwrap();
    assert_eq!([0xDD, 0xCC, 0xBB, 0xAA], packed[..]);

    let unpacked: LsbInteger<_, _, Integer<u32, Bits<32>>> = LsbInteger::unpack(&packed).unwrap();
    assert_eq!(val, **unpacked);
}

#[test]
fn test_struct_info() {
    fn get_bits<P: PackedStructInfo>(_s: &P) -> usize {
        P::packed_bits()
    }

    let typed: Integer<u32, Bits<30>> = 123.into();
    let msb = typed.as_packed_msb();
    assert_eq!(30, get_bits(&msb));
}

#[test]
fn test_slice_packing() {
    let mut data = vec![0xAA, 0xBB, 0xCC, 0xDD];
    let unpacked = <MsbInteger<_, _, Integer<u32, Bits<32>>>>::unpack_from_slice(&data).unwrap();
    assert_eq!(0xAABBCCDD, **unpacked);

    unpacked.pack_to_slice(&mut data).unwrap();
    assert_eq!(&[0xAA, 0xBB, 0xCC, 0xDD], &data[..]);
}

#[test]
fn test_packed_int_lsb_sub() {
    let val = 0xAABBCC;
    let typed: Integer<u32, Bits<24>> = val.into();
    let endian = typed.as_packed_lsb();
    let packed = endian.pack().unwrap();
    assert_eq!([0xCC, 0xBB, 0xAA], packed[..]);
}

#[test]
fn test_big_slice_unpacking() {
    let data = vec![0xAA, 0xBB, 0xCC, 0xDD];
    let unpacked = <MsbInteger<_, _, Integer<u32, Bits<32>>>>::unpack_from_slice(&data).unwrap();
    assert_eq!(0xAABBCCDD, **unpacked);
}

/// test if the value is properly first masked and then expanded for signedness
#[test]
fn test_sign_extension() {
    let val: Integer<i8, Bits<4>> = (127 as i8).into();
    assert_eq!(*val, -1);
    let val: Integer<i8, Bits<4>> = (63 as i8).into();
    assert_eq!(*val, -1);
    let val: Integer<i8, Bits<4>> = (31 as i8).into();
    assert_eq!(*val, -1);
    let val: Integer<i8, Bits<4>> = (15 as i8).into();
    assert_eq!(*val, -1);
}

/// test if sign extension conversion properly handles min and max values
#[test]
fn test_sign_extension_limits() {
    for i in -8..=7 {
        let val: Integer<i8, Bits<4>> = (i as i8).into();
        assert_eq!(i, *val);
    }

    for i in -64..=63 {
        let val: Integer<i8, Bits<7>> = (i as i8).into();
        assert_eq!(i, *val);
    }

    let val: Integer<i8, Bits<8>> = (i8::MIN).into();
    assert_eq!(*val, i8::MIN);
    let val: Integer<i8, Bits<8>> = (i8::MAX).into();
    assert_eq!(*val, i8::MAX);

    let val: Integer<i16, Bits<16>> = (i16::MIN).into();
    assert_eq!(*val, i16::MIN);
    let val: Integer<i16, Bits<16>> = (i16::MAX).into();
    assert_eq!(*val, i16::MAX);

    let val: Integer<i32, Bits<32>> = (i32::MIN).into();
    assert_eq!(*val, i32::MIN);
    let val: Integer<i32, Bits<32>> = (i32::MAX).into();
    assert_eq!(*val, i32::MAX);

    let val: Integer<i64, Bits<64>> = (i64::MIN).into();
    assert_eq!(*val, i64::MIN);
    let val: Integer<i64, Bits<64>> = (i64::MAX).into();
    assert_eq!(*val, i64::MAX);
}
