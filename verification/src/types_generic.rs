//! Slice packing for every structure that packs into bytes.

use vstd::prelude::*;
use crate::packing::{PackedStruct, PackedStructSlice, PackingError, PackingResult, byte_array_of, copy_into};
use crate::types_bits::ByteArray;

verus! {

/// Slice unpacking for byte arrays
impl<T: PackedStruct> PackedStructSlice for T {
    open spec fn spec_packed_bytes_size(opt_self: Option<&Self>) -> PackingResult<usize> {
        Ok(<T::ByteArray as ByteArray>::spec_len() as usize)
    }

    open spec fn spec_packed(&self) -> PackingResult<Seq<u8>> {
        self.spec_pack()
    }

    open spec fn spec_unpacked_from_slice(src: Seq<u8>, r: PackingResult<Self>) -> bool {
        if src.len() != <T::ByteArray as ByteArray>::spec_len() {
            r.is_err() && r->Err_0 == (PackingError::BufferSizeMismatch {
                expected: <T::ByteArray as ByteArray>::spec_len() as usize,
                actual: src.len() as usize,
            })
        } else {
            T::spec_unpacked(src, r)
        }
    }

    fn pack_to_slice(&self, output: &mut [u8]) -> (r: PackingResult<()>) {
        let len = <T::ByteArray as ByteArray>::len();
        if output.len() != len {
            return Err(PackingError::BufferSizeMismatch { expected: len, actual: output.len() });
        }
        let packed = match self.pack() {
            Ok(packed) => packed,
            Err(e) => {
                return Err(e);
            },
        };
        proof {
            packed.lemma_bytes_len();
        }
        copy_into(output, 0, packed.as_bytes_slice());
        assert(output@ =~= packed.bytes());
        Ok(())
    }

    fn unpack_from_slice(src: &[u8]) -> (r: PackingResult<Self>) {
        let len = <T::ByteArray as ByteArray>::len();
        if src.len() != len {
            return Err(PackingError::BufferSizeMismatch { expected: len, actual: src.len() });
        }
        let s: T::ByteArray = byte_array_of(src);
        T::unpack(&s)
    }

    fn packed_bytes_size(_opt_self: Option<&Self>) -> (r: PackingResult<usize>) {
        Ok(<T::ByteArray as ByteArray>::len())
    }
}

} // verus!
