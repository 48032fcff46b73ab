use packed_struct::packing::{lib_get_slice, PackedStruct, PackedStructInfo, PackedStructSlice, PackingError};
use packed_struct::types_bits::{Bits, ByteArray, Bytes, NumberOfBits, NumberOfBytes};
use packed_struct::types_compact::{UIntBits3, UIntBits7};
use packed_struct::types_ints::{LsbI16, LsbI32, LsbU16, LsbU32, MsbI16, MsbI32, MsbU16, MsbU24, MsbU32, MsbU64};
use packed_struct::types_num::{
    Integer, IntegerAsBytes, SizedInteger, SizedIntegerSigned, SizedPrimitive,
};
use packed_struct::types_reserved::{BitOne, BitZero, ReservedBitValue, ReservedOne, ReservedZero};

#[test]
fn basic_types() {
    assert_eq!([1], true.pack().unwrap());
    assert_eq!([0], false.pack().unwrap());
    assert_eq!(Ok(true), bool::unpack(&[1]));
    assert_eq!(Ok(false), bool::unpack(&[0]));
    assert_eq!(Err(PackingError::InvalidValue), bool::unpack(&[2]));
    assert_eq!(1, bool::packed_bits());
    assert_eq!([0x80], (-128i8).pack().unwrap());
    assert_eq!(Ok(-1i8), i8::unpack(&[0xFF]));
    assert_eq!([7], 7u8.pack().unwrap());
    assert_eq!(Ok(7u8), u8::unpack(&[7]));
    assert_eq!(Err(PackingError::BufferSizeMismatch { expected: 1, actual: 2 }), u8::unpack_from_slice(&[7, 8]));
    assert_eq!([0u8; 0], ().pack().unwrap());
    assert_eq!(Ok(()), <()>::unpack(&[]));
    assert_eq!(0, <()>::packed_bits());
    assert_eq!([1, 2, 3], [1u8, 2, 3].pack().unwrap());
    assert_eq!(Ok([1u8, 2, 3]), <[u8; 3]>::unpack(&[1, 2, 3]));
    assert_eq!(24, <[u8; 3]>::packed_bits());
    assert_eq!(Ok(3), <[u8; 3]>::packed_bytes_size(None));
}

#[test]
fn integers_with_a_byte_order() {
    assert_eq!([0xAB, 0xCD], MsbU16(0xABCD).pack().unwrap());
    assert_eq!([0xCD, 0xAB], LsbU16(0xABCD).pack().unwrap());
    assert_eq!([0xFF, 0xFE], MsbI16(-2).pack().unwrap());
    assert_eq!([0xFE, 0xFF], LsbI16(-2).pack().unwrap());
    assert_eq!([0x11, 0x22, 0x33, 0x44], MsbU32(0x11223344).pack().unwrap());
    assert_eq!([0x44, 0x33, 0x22, 0x11], LsbU32(0x11223344).pack().unwrap());
    assert_eq!([0xFF, 0xFF, 0xFF, 0x85], MsbI32(-123).pack().unwrap());
    assert_eq!([0x85, 0xFF, 0xFF, 0xFF], LsbI32(-123).pack().unwrap());
    assert_eq!([0xCC, 0xBB, 0xAA], MsbU24(0xCCBBAA).pack().unwrap());
    assert_eq!([1, 2, 3, 4, 5, 6, 7, 8], MsbU64(0x0102030405060708).pack().unwrap());
    assert_eq!(Ok(MsbU16(0xABCD)), MsbU16::unpack(&[0xAB, 0xCD]));
    assert_eq!(Ok(LsbI16(-2)), LsbI16::unpack(&[0xFE, 0xFF]));
    assert_eq!(Ok(MsbI32(-123)), MsbI32::unpack(&[0xFF, 0xFF, 0xFF, 0x85]));
    assert_eq!(Ok(LsbI32(-123)), LsbI32::unpack_from_slice(&[0x85, 0xFF, 0xFF, 0xFF]));
    assert_eq!(Ok(MsbU24(0xCCBBAA)), MsbU24::unpack(&[0xCC, 0xBB, 0xAA]));
    assert_eq!(Ok(MsbU64(0x0102030405060708)), MsbU64::unpack(&[1, 2, 3, 4, 5, 6, 7, 8]));
    assert_eq!(Ok(LsbU32(0x11223344)), LsbU32::unpack(&[0x44, 0x33, 0x22, 0x11]));
    assert_eq!(Ok(MsbI16(-2)), MsbI16::unpack(&[0xFF, 0xFE]));
    assert_eq!(Ok(LsbU16(0xABCD)), LsbU16::unpack(&[0xCD, 0xAB]));
    assert_eq!(Ok(MsbU32(7)), MsbU32::unpack(&[0, 0, 0, 7]));
    assert_eq!(
        Err(PackingError::BufferSizeMismatch { expected: 3, actual: 4 }),
        MsbU24::unpack_from_slice(&[0, 0, 0, 7])
    );
    assert_eq!(24, MsbU24::packed_bits());
    assert_eq!(0xABCD, *MsbU16(0xABCD));
}

#[test]
fn native_integers_and_their_bytes() {
    assert_eq!([0x11, 0x22, 0x33, 0x44], 0x11223344u32.to_msb_bytes());
    assert_eq!([0x44, 0x33, 0x22, 0x11], 0x11223344u32.to_lsb_bytes());
    assert_eq!(0x11223344, u32::from_msb_bytes(&[0x11, 0x22, 0x33, 0x44]));
    assert_eq!(0x11223344, u32::from_lsb_bytes(&[0x44, 0x33, 0x22, 0x11]));
    assert_eq!([0x80], i8::MIN.to_msb_bytes());
    assert_eq!(i16::MIN, i16::from_lsb_bytes(&[0x00, 0x80]));
    assert_eq!(-2, i64::from_msb_bytes(&[0xFF, 0xFF, 0xFF, 0xFF, 0xFF, 0xFF, 0xFF, 0xFE]));
    for x in [0u64, 1, 0x0102030405060708, u64::MAX] {
        assert_eq!(x, u64::from_msb_bytes(&x.to_msb_bytes()));
        assert_eq!(x, u64::from_lsb_bytes(&x.to_lsb_bytes()));
        assert_eq!(x as i64, i64::from_lsb_bytes(&(x as i64).to_lsb_bytes()));
        assert_eq!(x as u16, u16::from_msb_bytes(&(x as u16).to_msb_bytes()));
        assert_eq!(x as i32, i32::from_msb_bytes(&(x as i32).to_msb_bytes()));
        assert_eq!(x as u8, u8::from_lsb_bytes(&(x as u8).to_lsb_bytes()));
    }
    assert_eq!(0x0F, u8::bit_mask(4));
    assert_eq!(-1, i8::bit_mask(8));
    assert_eq!(0x7F, i8::bit_mask(7));
    assert_eq!(u64::MAX, u64::bit_mask(64));
    assert_eq!(u32::MAX, u32::bit_mask(40));
    assert_eq!(-8, i8::sized(8, 4));
    assert_eq!(7, i8::sized(7, 4));
    assert_eq!(0, i32::sized(123, 0));
    assert_eq!(123, i32::sized(123, 32));
    assert_eq!(-3, i64::sized(0x1D, 5));
    assert_eq!(0x1D, u64::sized(0xFD, 5));
    assert_eq!(Some(200u8), u8::from_i128(200));
    assert_eq!(None, u8::from_i128(256));
    assert_eq!(None, i8::from_i128(128));
    assert_eq!(Some(-128i8), i8::from_i128(-128));
    assert_eq!(-5i128, (-5i16).to_i128());
}

#[test]
fn mask_twice_is_mask_once() {
    for bits in 0..=8usize {
        for x in 0..=255u8 {
            assert_eq!(u8::sized(x, bits), u8::sized(u8::sized(x, bits), bits));
            let s = x as i8;
            assert_eq!(i8::sized(s, bits), i8::sized(i8::sized(s, bits), bits));
            if bits >= 1 {
                let v = i8::sized(s, bits) as i16;
                assert!(-(1 << (bits - 1)) <= v && v < (1 << (bits - 1)));
                assert_eq!(<Integer<i8, Bits<7>>>::from_unpacked_to_signed(s), i8::sized(s, 7));
            }
        }
    }
}

#[test]
fn sized_integers_that_do_not_fit_their_type() {
    let wide: Integer<u8, Bits<9>> = 0xFF.into();
    assert_eq!(Err(PackingError::SliceIndexingError { slice_len: 1 }), wide.to_msb_bytes());
    assert_eq!(Err(PackingError::SliceIndexingError { slice_len: 1 }), wide.to_lsb_bytes());
    assert!(<Integer<u8, Bits<9>>>::from_msb_bytes(&[1, 2]).is_err());
    assert!(<Integer<u16, Bits<9>>>::from_lsb_bytes(&[1, 2, 3]).is_err());
    let short = <Integer<u32, Bits<24>>>::from_msb_bytes(&[1, 2]).unwrap();
    assert_eq!(0x0102, short.to_primitive());
    assert_eq!(Err(PackingError::SliceIndexingError { slice_len: 2 }), lib_get_slice(&[1, 2], 1, 3).map(|_| ()));
    assert_eq!(Ok(&[2u8][..]), lib_get_slice(&[1, 2], 1, 2));
    let b: u8 = wide.into();
    assert_eq!(0xFF, b);
}

#[test]
fn compact_integers_stand_at_the_top_of_their_byte() {
    let c: UIntBits3 = 0b101.into();
    assert_eq!([0b1010_0000], c.pack().unwrap());
    assert_eq!(0b101, *UIntBits3::unpack(&[0b1011_1111]).unwrap());
    assert_eq!(3, UIntBits3::packed_bits());
    let c: UIntBits7 = 0x7F.into();
    assert_eq!([0xFE], c.pack().unwrap());
    let b: u8 = c.into();
    assert_eq!(0x7F, b);
}

#[test]
fn reserved_bits() {
    let zero: ReservedZero<Bits<4>> = Default::default();
    assert_eq!([0], zero.pack().unwrap());
    let ones: ReservedOne<Bits<11>> = Default::default();
    assert_eq!([0xFF, 0xFF], ones.pack().unwrap());
    assert_eq!(11, <ReservedOne<Bits<11>>>::packed_bits());
    assert_eq!(Ok(ones), <ReservedOne<Bits<11>>>::unpack(&[0, 0]));
    assert_eq!(0xFF, BitOne::get_reserved_bit_value_byte());
    assert_eq!(0, BitZero::get_reserved_bit_value_byte());
}

#[test]
fn sizes_in_bits_and_bytes() {
    assert_eq!(12, <Bits<12>>::number_of_bits());
    assert_eq!(2, <Bits<12>>::byte_array_len());
    assert_eq!(5, <Bytes<5>>::number_of_bytes());
    assert_eq!(5, <[u8; 5] as ByteArray>::len());
    let mut a = <[u8; 4] as ByteArray>::new(7);
    assert_eq!([7, 7, 7, 7], a);
    a.as_mut_bytes_slice()[0] = 1;
    ByteArray::rotate_right(&mut a, 2);
    assert_eq!(&[0, 0, 1, 7], a.as_bytes_slice());
}

#[test]
fn vectors_of_items_of_one_size() {
    let v = vec![MsbU16(1), MsbU16(0x0203)];
    assert_eq!(vec![0, 1, 2, 3], v.pack_to_vec().unwrap());
    assert_eq!(Ok(4), <Vec<MsbU16>>::packed_bytes_size(Some(&v)));
    assert_eq!(Err(PackingError::InstanceRequiredForSize), <Vec<MsbU16>>::packed_bytes_size(None));
    assert_eq!(Ok(v), <Vec<MsbU16>>::unpack_from_slice(&[0, 1, 2, 3]));
    assert_eq!(
        Err(PackingError::BufferModMismatch { actual_size: 3, modulo_required: 2 }),
        <Vec<MsbU16>>::unpack_from_slice(&[0, 1, 2])
    );
    assert_eq!(Ok(vec![]), <Vec<MsbU16>>::unpack_from_slice(&[]));
    assert_eq!(Err(PackingError::InvalidValue), <Vec<bool>>::unpack_from_slice(&[1, 0, 2]));
    let mut out = [0u8; 3];
    assert_eq!(
        Err(PackingError::BufferSizeMismatch { expected: 2, actual: 3 }),
        vec![MsbU16(1)].pack_to_slice(&mut out)
    );
}
