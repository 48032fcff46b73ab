//! Byte arrays pack into themselves.

use vstd::prelude::*;
use crate::packing::{PackedStruct, PackedStructInfo, PackingError, PackingResult};

verus! {

impl<const N: usize> PackedStructInfo for [u8; N] {
    /// Eight bits for each byte, as far as the machine counts.
    open spec fn spec_packed_bits() -> nat {
        if N * 8 <= usize::MAX {
            (N * 8) as nat
        } else {
            usize::MAX as nat
        }
    }

    #[inline]
    fn packed_bits() -> (bits: usize) {
        match N.checked_mul(8) {
            Some(bits) => bits,
            None => usize::MAX,
        }
    }
}

impl<const N: usize> PackedStruct for [u8; N] {
    type ByteArray = [u8; N];

    open spec fn spec_pack(&self) -> PackingResult<Seq<u8>> {
        Ok(self@)
    }

    open spec fn spec_unpacked(src: Seq<u8>, r: PackingResult<Self>) -> bool {
        if src.len() != N {
            r == Err::<Self, PackingError>(
                PackingError::BufferSizeMismatch { expected: N, actual: src.len() as usize },
            )
        } else {
            r.is_ok() && r->Ok_0@ == src
        }
    }

    #[inline]
    fn pack(&self) -> (r: PackingResult<Self::ByteArray>) {
        Ok(*self)
    }

    #[inline]
    fn unpack(src: &Self::ByteArray) -> (r: PackingResult<Self>) {
        Ok(*src)
    }
}

} // verus!
