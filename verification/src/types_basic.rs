//! Packing of the basic types.

use vstd::prelude::*;
use crate::packing::{PackedStruct, PackedStructInfo, PackingError, PackingResult};
use crate::types_bits::ByteArray;
use crate::types_num::{IntegerAsBytes, be_bytes, be_value, native_value, unsigned_value};

verus! {

impl PackedStructInfo for bool {
    open spec fn spec_packed_bits() -> nat {
        1
    }

    #[inline]
    fn packed_bits() -> (bits: usize) {
        1
    }
}

impl PackedStruct for bool {
    type ByteArray = [u8; 1];

    open spec fn spec_pack(&self) -> PackingResult<Seq<u8>> {
        Ok(
            seq![if *self {
                1u8
            } else {
                0u8
            }],
        )
    }

    open spec fn spec_unpacked(src: Seq<u8>, r: PackingResult<Self>) -> bool {
        r == (if src.len() != 1 {
            Err::<bool, PackingError>(
                PackingError::BufferSizeMismatch { expected: 1, actual: src.len() as usize },
            )
        } else if src[0] == 1 {
            Ok(true)
        } else if src[0] == 0 {
            Ok(false)
        } else {
            Err(PackingError::InvalidValue)
        })
    }

    #[inline]
    fn pack(&self) -> (r: PackingResult<Self::ByteArray>) {
        let packed = [
            if *self {
                1u8
            } else {
                0u8
            },
        ];
        assert(packed@ =~= self.spec_pack()->Ok_0);
        Ok(packed)
    }

    #[inline]
    fn unpack(src: &Self::ByteArray) -> (r: PackingResult<Self>) {
        let src: &[u8] = src.as_bytes_slice();
        match src[0] {
            1 => Ok(true),
            0 => Ok(false),
            _ => Err(PackingError::InvalidValue),
        }
    }
}

impl PackedStructInfo for u8 {
    open spec fn spec_packed_bits() -> nat {
        8
    }

    #[inline]
    fn packed_bits() -> (bits: usize) {
        8
    }
}

impl PackedStruct for u8 {
    type ByteArray = [u8; 1];

    open spec fn spec_pack(&self) -> PackingResult<Seq<u8>> {
        Ok(seq![*self])
    }

    open spec fn spec_unpacked(src: Seq<u8>, r: PackingResult<Self>) -> bool {
        r == (if src.len() != 1 {
            Err::<u8, PackingError>(
                PackingError::BufferSizeMismatch { expected: 1, actual: src.len() as usize },
            )
        } else {
            Ok(src[0])
        })
    }

    #[inline]
    fn pack(&self) -> (r: PackingResult<Self::ByteArray>) {
        let packed = [*self];
        assert(packed@ =~= seq![*self]);
        Ok(packed)
    }

    #[inline]
    fn unpack(src: &Self::ByteArray) -> (r: PackingResult<Self>) {
        let src: &[u8] = src.as_bytes_slice();
        Ok(src[0])
    }
}

impl PackedStructInfo for i8 {
    open spec fn spec_packed_bits() -> nat {
        8
    }

    #[inline]
    fn packed_bits() -> (bits: usize) {
        8
    }
}

impl PackedStruct for i8 {
    type ByteArray = [u8; 1];

    open spec fn spec_pack(&self) -> PackingResult<Seq<u8>> {
        Ok(be_bytes(unsigned_value(*self as int, 8), 1))
    }

    open spec fn spec_unpacked(src: Seq<u8>, r: PackingResult<Self>) -> bool {
        if src.len() != 1 {
            r == Err::<i8, PackingError>(
                PackingError::BufferSizeMismatch { expected: 1, actual: src.len() as usize },
            )
        } else {
            r.is_ok() && r->Ok_0 as int == native_value(be_value(src), 8, true)
        }
    }

    #[inline]
    fn pack(&self) -> (r: PackingResult<Self::ByteArray>) {
        Ok(self.to_msb_bytes())
    }

    #[inline]
    fn unpack(src: &Self::ByteArray) -> (r: PackingResult<Self>) {
        Ok(i8::from_msb_bytes(src))
    }
}

impl PackedStructInfo for () {
    open spec fn spec_packed_bits() -> nat {
        0
    }

    #[inline]
    fn packed_bits() -> (bits: usize) {
        0
    }
}

impl PackedStruct for () {
    type ByteArray = [u8; 0];

    open spec fn spec_pack(&self) -> PackingResult<Seq<u8>> {
        Ok(Seq::<u8>::empty())
    }

    open spec fn spec_unpacked(src: Seq<u8>, r: PackingResult<Self>) -> bool {
        r == (if src.len() != 0 {
            Err::<(), PackingError>(
                PackingError::BufferSizeMismatch { expected: 0, actual: src.len() as usize },
            )
        } else {
            Ok(())
        })
    }

    #[inline]
    fn pack(&self) -> (r: PackingResult<Self::ByteArray>) {
        let packed: [u8; 0] = [];
        assert(packed@ =~= Seq::<u8>::empty());
        Ok(packed)
    }

    #[inline]
    fn unpack(src: &Self::ByteArray) -> (r: PackingResult<Self>) {
        let src: &[u8] = src.as_bytes_slice();
        Ok(())
    }
}

} // verus!
