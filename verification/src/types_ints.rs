//! Native integers with a byte order.

use vstd::prelude::*;
use crate::packing::{PackedStruct, PackedStructInfo, PackingError, PackingResult, byte_array_of};
use crate::types_bits::ByteArray;
use crate::types_num::{
    IntegerAsBytes,
    sized_from_lsb_bytes,
    sized_from_msb_bytes,
    sized_to_lsb_bytes,
    sized_to_msb_bytes,
    spec_sized_from_lsb_bytes,
    spec_sized_from_msb_bytes,
    spec_sized_to_lsb_bytes,
    spec_sized_to_msb_bytes,
};

verus! {

/// The Most Significant Byte is the first one, unsigned.
#[derive(Copy, Clone, Debug, Default, PartialEq)]
pub struct MsbU16(pub u16);

impl core::ops::Deref for MsbU16 {
    type Target = u16;

    #[inline]
    fn deref(&self) -> (r: &u16)
        ensures
            *r == self.0,
    {
        &self.0
    }
}

impl PackedStructInfo for MsbU16 {
    open spec fn spec_packed_bits() -> nat {
        16
    }

    #[inline]
    fn packed_bits() -> (bits: usize) {
        16
    }
}

impl PackedStruct for MsbU16 {
    type ByteArray = [u8; 2];

    open spec fn spec_pack(&self) -> PackingResult<Seq<u8>> {
        spec_sized_to_msb_bytes(self.0 as int, 16, 2)
    }

    open spec fn spec_unpacked(src: Seq<u8>, r: PackingResult<Self>) -> bool {
        r == (if src.len() != 2 {
            Err::<Self, PackingError>(
                PackingError::BufferSizeMismatch { expected: 2, actual: src.len() as usize },
            )
        } else {
            Ok(MsbU16(<u16 as IntegerAsBytes>::of_int(spec_sized_from_msb_bytes(src, 16, 2, false))))
        })
    }

    #[inline]
    fn pack(&self) -> (r: PackingResult<Self::ByteArray>) {
        match sized_to_msb_bytes(&self.0, 16) {
            Ok(v) => Ok(byte_array_of(v.as_slice())),
            Err(e) => Err(e),
        }
    }

    #[inline]
    fn unpack(src: &Self::ByteArray) -> (r: PackingResult<Self>) {
        let src: &[u8] = src.as_bytes_slice();
        match sized_from_msb_bytes::<u16>(src, 16) {
            Ok(v) => Ok(MsbU16(v)),
            Err(e) => Err(e),
        }
    }
}

/// The Most Significant Byte is the first one, signed.
#[derive(Copy, Clone, Debug, Default, PartialEq)]
pub struct MsbI16(pub i16);

impl core::ops::Deref for MsbI16 {
    type Target = i16;

    #[inline]
    fn deref(&self) -> (r: &i16)
        ensures
            *r == self.0,
    {
        &self.0
    }
}

impl PackedStructInfo for MsbI16 {
    open spec fn spec_packed_bits() -> nat {
        16
    }

    #[inline]
    fn packed_bits() -> (bits: usize) {
        16
    }
}

impl PackedStruct for MsbI16 {
    type ByteArray = [u8; 2];

    open spec fn spec_pack(&self) -> PackingResult<Seq<u8>> {
        spec_sized_to_msb_bytes(self.0 as int, 16, 2)
    }

    open spec fn spec_unpacked(src: Seq<u8>, r: PackingResult<Self>) -> bool {
        r == (if src.len() != 2 {
            Err::<Self, PackingError>(
                PackingError::BufferSizeMismatch { expected: 2, actual: src.len() as usize },
            )
        } else {
            Ok(MsbI16(<i16 as IntegerAsBytes>::of_int(spec_sized_from_msb_bytes(src, 16, 2, true))))
        })
    }

    #[inline]
    fn pack(&self) -> (r: PackingResult<Self::ByteArray>) {
        match sized_to_msb_bytes(&self.0, 16) {
            Ok(v) => Ok(byte_array_of(v.as_slice())),
            Err(e) => Err(e),
        }
    }

    #[inline]
    fn unpack(src: &Self::ByteArray) -> (r: PackingResult<Self>) {
        let src: &[u8] = src.as_bytes_slice();
        match sized_from_msb_bytes::<i16>(src, 16) {
            Ok(v) => Ok(MsbI16(v)),
            Err(e) => Err(e),
        }
    }
}

/// The Least Significant Byte is the first one, unsigned.
#[derive(Copy, Clone, Debug, Default, PartialEq)]
pub struct LsbU16(pub u16);

impl core::ops::Deref for LsbU16 {
    type Target = u16;

    #[inline]
    fn deref(&self) -> (r: &u16)
        ensures
            *r == self.0,
    {
        &self.0
    }
}

impl PackedStructInfo for LsbU16 {
    open spec fn spec_packed_bits() -> nat {
        16
    }

    #[inline]
    fn packed_bits() -> (bits: usize) {
        16
    }
}

impl PackedStruct for LsbU16 {
    type ByteArray = [u8; 2];

    open spec fn spec_pack(&self) -> PackingResult<Seq<u8>> {
        spec_sized_to_lsb_bytes(self.0 as int, 16, 2)
    }

    open spec fn spec_unpacked(src: Seq<u8>, r: PackingResult<Self>) -> bool {
        r == (if src.len() != 2 {
            Err::<Self, PackingError>(
                PackingError::BufferSizeMismatch { expected: 2, actual: src.len() as usize },
            )
        } else {
            Ok(LsbU16(<u16 as IntegerAsBytes>::of_int(spec_sized_from_lsb_bytes(src, 16, 2, false))))
        })
    }

    #[inline]
    fn pack(&self) -> (r: PackingResult<Self::ByteArray>) {
        match sized_to_lsb_bytes(&self.0, 16) {
            Ok(v) => Ok(byte_array_of(v.as_slice())),
            Err(e) => Err(e),
        }
    }

    #[inline]
    fn unpack(src: &Self::ByteArray) -> (r: PackingResult<Self>) {
        let src: &[u8] = src.as_bytes_slice();
        match sized_from_lsb_bytes::<u16>(src, 16) {
            Ok(v) => Ok(LsbU16(v)),
            Err(e) => Err(e),
        }
    }
}

/// The Least Significant Byte is the first one, signed.
#[derive(Copy, Clone, Debug, Default, PartialEq)]
pub struct LsbI16(pub i16);

impl core::ops::Deref for LsbI16 {
    type Target = i16;

    #[inline]
    fn deref(&self) -> (r: &i16)
        ensures
            *r == self.0,
    {
        &self.0
    }
}

impl PackedStructInfo for LsbI16 {
    open spec fn spec_packed_bits() -> nat {
        16
    }

    #[inline]
    fn packed_bits() -> (bits: usize) {
        16
    }
}

impl PackedStruct for LsbI16 {
    type ByteArray = [u8; 2];

    open spec fn spec_pack(&self) -> PackingResult<Seq<u8>> {
        spec_sized_to_lsb_bytes(self.0 as int, 16, 2)
    }

    open spec fn spec_unpacked(src: Seq<u8>, r: PackingResult<Self>) -> bool {
        r == (if src.len() != 2 {
            Err::<Self, PackingError>(
                PackingError::BufferSizeMismatch { expected: 2, actual: src.len() as usize },
            )
        } else {
            Ok(LsbI16(<i16 as IntegerAsBytes>::of_int(spec_sized_from_lsb_bytes(src, 16, 2, true))))
        })
    }

    #[inline]
    fn pack(&self) -> (r: PackingResult<Self::ByteArray>) {
        match sized_to_lsb_bytes(&self.0, 16) {
            Ok(v) => Ok(byte_array_of(v.as_slice())),
            Err(e) => Err(e),
        }
    }

    #[inline]
    fn unpack(src: &Self::ByteArray) -> (r: PackingResult<Self>) {
        let src: &[u8] = src.as_bytes_slice();
        match sized_from_lsb_bytes::<i16>(src, 16) {
            Ok(v) => Ok(LsbI16(v)),
            Err(e) => Err(e),
        }
    }
}

/// The Least Significant Byte is the first one, unsigned.
#[derive(Copy, Clone, Debug, Default, PartialEq)]
pub struct LsbU32(pub u32);

impl core::ops::Deref for LsbU32 {
    type Target = u32;

    #[inline]
    fn deref(&self) -> (r: &u32)
        ensures
            *r == self.0,
    {
        &self.0
    }
}

impl PackedStructInfo for LsbU32 {
    open spec fn spec_packed_bits() -> nat {
        32
    }

    #[inline]
    fn packed_bits() -> (bits: usize) {
        32
    }
}

impl PackedStruct for LsbU32 {
    type ByteArray = [u8; 4];

    open spec fn spec_pack(&self) -> PackingResult<Seq<u8>> {
        spec_sized_to_lsb_bytes(self.0 as int, 32, 4)
    }

    open spec fn spec_unpacked(src: Seq<u8>, r: PackingResult<Self>) -> bool {
        r == (if src.len() != 4 {
            Err::<Self, PackingError>(
                PackingError::BufferSizeMismatch { expected: 4, actual: src.len() as usize },
            )
        } else {
            Ok(LsbU32(<u32 as IntegerAsBytes>::of_int(spec_sized_from_lsb_bytes(src, 32, 4, false))))
        })
    }

    #[inline]
    fn pack(&self) -> (r: PackingResult<Self::ByteArray>) {
        match sized_to_lsb_bytes(&self.0, 32) {
            Ok(v) => Ok(byte_array_of(v.as_slice())),
            Err(e) => Err(e),
        }
    }

    #[inline]
    fn unpack(src: &Self::ByteArray) -> (r: PackingResult<Self>) {
        let src: &[u8] = src.as_bytes_slice();
        match sized_from_lsb_bytes::<u32>(src, 32) {
            Ok(v) => Ok(LsbU32(v)),
            Err(e) => Err(e),
        }
    }
}

/// The Least Significant Byte is the first one, signed.
#[derive(Copy, Clone, Debug, Default, PartialEq)]
pub struct LsbI32(pub i32);

impl core::ops::Deref for LsbI32 {
    type Target = i32;

    #[inline]
    fn deref(&self) -> (r: &i32)
        ensures
            *r == self.0,
    {
        &self.0
    }
}

impl PackedStructInfo for LsbI32 {
    open spec fn spec_packed_bits() -> nat {
        32
    }

    #[inline]
    fn packed_bits() -> (bits: usize) {
        32
    }
}

impl PackedStruct for LsbI32 {
    type ByteArray = [u8; 4];

    open spec fn spec_pack(&self) -> PackingResult<Seq<u8>> {
        spec_sized_to_lsb_bytes(self.0 as int, 32, 4)
    }

    open spec fn spec_unpacked(src: Seq<u8>, r: PackingResult<Self>) -> bool {
        r == (if src.len() != 4 {
            Err::<Self, PackingError>(
                PackingError::BufferSizeMismatch { expected: 4, actual: src.len() as usize },
            )
        } else {
            Ok(LsbI32(<i32 as IntegerAsBytes>::of_int(spec_sized_from_lsb_bytes(src, 32, 4, true))))
        })
    }

    #[inline]
    fn pack(&self) -> (r: PackingResult<Self::ByteArray>) {
        match sized_to_lsb_bytes(&self.0, 32) {
            Ok(v) => Ok(byte_array_of(v.as_slice())),
            Err(e) => Err(e),
        }
    }

    #[inline]
    fn unpack(src: &Self::ByteArray) -> (r: PackingResult<Self>) {
        let src: &[u8] = src.as_bytes_slice();
        match sized_from_lsb_bytes::<i32>(src, 32) {
            Ok(v) => Ok(LsbI32(v)),
            Err(e) => Err(e),
        }
    }
}

/// The Most Significant Byte is the first one, unsigned.
#[derive(Copy, Clone, Debug, Default, PartialEq)]
pub struct MsbU32(pub u32);

impl core::ops::Deref for MsbU32 {
    type Target = u32;

    #[inline]
    fn deref(&self) -> (r: &u32)
        ensures
            *r == self.0,
    {
        &self.0
    }
}

impl PackedStructInfo for MsbU32 {
    open spec fn spec_packed_bits() -> nat {
        32
    }

    #[inline]
    fn packed_bits() -> (bits: usize) {
        32
    }
}

impl PackedStruct for MsbU32 {
    type ByteArray = [u8; 4];

    open spec fn spec_pack(&self) -> PackingResult<Seq<u8>> {
        spec_sized_to_msb_bytes(self.0 as int, 32, 4)
    }

    open spec fn spec_unpacked(src: Seq<u8>, r: PackingResult<Self>) -> bool {
        r == (if src.len() != 4 {
            Err::<Self, PackingError>(
                PackingError::BufferSizeMismatch { expected: 4, actual: src.len() as usize },
            )
        } else {
            Ok(MsbU32(<u32 as IntegerAsBytes>::of_int(spec_sized_from_msb_bytes(src, 32, 4, false))))
        })
    }

    #[inline]
    fn pack(&self) -> (r: PackingResult<Self::ByteArray>) {
        match sized_to_msb_bytes(&self.0, 32) {
            Ok(v) => Ok(byte_array_of(v.as_slice())),
            Err(e) => Err(e),
        }
    }

    #[inline]
    fn unpack(src: &Self::ByteArray) -> (r: PackingResult<Self>) {
        let src: &[u8] = src.as_bytes_slice();
        match sized_from_msb_bytes::<u32>(src, 32) {
            Ok(v) => Ok(MsbU32(v)),
            Err(e) => Err(e),
        }
    }
}

/// The Most Significant Byte is the first one, unsigned.
#[derive(Copy, Clone, Debug, Default, PartialEq)]
pub struct MsbU64(pub u64);

impl core::ops::Deref for MsbU64 {
    type Target = u64;

    #[inline]
    fn deref(&self) -> (r: &u64)
        ensures
            *r == self.0,
    {
        &self.0
    }
}

impl PackedStructInfo for MsbU64 {
    open spec fn spec_packed_bits() -> nat {
        64
    }

    #[inline]
    fn packed_bits() -> (bits: usize) {
        64
    }
}

impl PackedStruct for MsbU64 {
    type ByteArray = [u8; 8];

    open spec fn spec_pack(&self) -> PackingResult<Seq<u8>> {
        spec_sized_to_msb_bytes(self.0 as int, 64, 8)
    }

    open spec fn spec_unpacked(src: Seq<u8>, r: PackingResult<Self>) -> bool {
        r == (if src.len() != 8 {
            Err::<Self, PackingError>(
                PackingError::BufferSizeMismatch { expected: 8, actual: src.len() as usize },
            )
        } else {
            Ok(MsbU64(<u64 as IntegerAsBytes>::of_int(spec_sized_from_msb_bytes(src, 64, 8, false))))
        })
    }

    #[inline]
    fn pack(&self) -> (r: PackingResult<Self::ByteArray>) {
        match sized_to_msb_bytes(&self.0, 64) {
            Ok(v) => Ok(byte_array_of(v.as_slice())),
            Err(e) => Err(e),
        }
    }

    #[inline]
    fn unpack(src: &Self::ByteArray) -> (r: PackingResult<Self>) {
        let src: &[u8] = src.as_bytes_slice();
        match sized_from_msb_bytes::<u64>(src, 64) {
            Ok(v) => Ok(MsbU64(v)),
            Err(e) => Err(e),
        }
    }
}

/// The Most Significant Byte is the first one, unsigned, three bytes.
#[derive(Copy, Clone, Debug, Default, PartialEq)]
pub struct MsbU24(pub u32);

impl core::ops::Deref for MsbU24 {
    type Target = u32;

    #[inline]
    fn deref(&self) -> (r: &u32)
        ensures
            *r == self.0,
    {
        &self.0
    }
}

impl PackedStructInfo for MsbU24 {
    open spec fn spec_packed_bits() -> nat {
        24
    }

    #[inline]
    fn packed_bits() -> (bits: usize) {
        24
    }
}

impl PackedStruct for MsbU24 {
    type ByteArray = [u8; 3];

    open spec fn spec_pack(&self) -> PackingResult<Seq<u8>> {
        spec_sized_to_msb_bytes(self.0 as int, 24, 4)
    }

    open spec fn spec_unpacked(src: Seq<u8>, r: PackingResult<Self>) -> bool {
        r == (if src.len() != 3 {
            Err::<Self, PackingError>(
                PackingError::BufferSizeMismatch { expected: 3, actual: src.len() as usize },
            )
        } else {
            Ok(MsbU24(<u32 as IntegerAsBytes>::of_int(spec_sized_from_msb_bytes(src, 24, 4, false))))
        })
    }

    #[inline]
    fn pack(&self) -> (r: PackingResult<Self::ByteArray>) {
        match sized_to_msb_bytes(&self.0, 24) {
            Ok(v) => Ok(byte_array_of(v.as_slice())),
            Err(e) => Err(e),
        }
    }

    #[inline]
    fn unpack(src: &Self::ByteArray) -> (r: PackingResult<Self>) {
        let src: &[u8] = src.as_bytes_slice();
        match sized_from_msb_bytes::<u32>(src, 24) {
            Ok(v) => Ok(MsbU24(v)),
            Err(e) => Err(e),
        }
    }
}

/// The Most Significant Byte is the first one, signed.
#[derive(Copy, Clone, Debug, Default, PartialEq)]
pub struct MsbI32(pub i32);

impl core::ops::Deref for MsbI32 {
    type Target = i32;

    #[inline]
    fn deref(&self) -> (r: &i32)
        ensures
            *r == self.0,
    {
        &self.0
    }
}

impl PackedStructInfo for MsbI32 {
    open spec fn spec_packed_bits() -> nat {
        32
    }

    #[inline]
    fn packed_bits() -> (bits: usize) {
        32
    }
}

impl PackedStruct for MsbI32 {
    type ByteArray = [u8; 4];

    open spec fn spec_pack(&self) -> PackingResult<Seq<u8>> {
        spec_sized_to_msb_bytes(self.0 as int, 32, 4)
    }

    open spec fn spec_unpacked(src: Seq<u8>, r: PackingResult<Self>) -> bool {
        r == (if src.len() != 4 {
            Err::<Self, PackingError>(
                PackingError::BufferSizeMismatch { expected: 4, actual: src.len() as usize },
            )
        } else {
            Ok(MsbI32(<i32 as IntegerAsBytes>::of_int(spec_sized_from_msb_bytes(src, 32, 4, true))))
        })
    }

    #[inline]
    fn pack(&self) -> (r: PackingResult<Self::ByteArray>) {
        match sized_to_msb_bytes(&self.0, 32) {
            Ok(v) => Ok(byte_array_of(v.as_slice())),
            Err(e) => Err(e),
        }
    }

    #[inline]
    fn unpack(src: &Self::ByteArray) -> (r: PackingResult<Self>) {
        let src: &[u8] = src.as_bytes_slice();
        match sized_from_msb_bytes::<i32>(src, 32) {
            Ok(v) => Ok(MsbI32(v)),
            Err(e) => Err(e),
        }
    }
}

} // verus!
