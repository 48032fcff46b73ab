//! Reserved space in a packed structure, either just zeroes or ones.

use vstd::prelude::*;
use core::marker::PhantomData;
use crate::bits::spec_bytes_required_for_bits;
use crate::packing::{PackedStruct, PackedStructInfo, PackingError, PackingResult};
use crate::types_bits::{ByteArray, NumberOfBits, NumberOfBytes};

verus! {

/// Packs into a set of zeroes. Ignores the input when unpacking.
pub type ReservedZero<B> = ReservedBits<BitZero, B>;

pub type ReservedZeroes<B> = ReservedZero<B>;

/// Packs into a set of ones. Ignores the input when unpacking.
pub type ReservedOne<B> = ReservedBits<BitOne, B>;

pub type ReservedOnes<B> = ReservedOne<B>;

/// The byte that reserved bits are packed as.
pub trait ReservedBitValue: Sized {
    /// The byte: eight zeroes or eight ones.
    spec fn spec_reserved_bit_value_byte() -> u8;

    /// The value of the bits.
    spec fn spec_value() -> Self;

    fn get_reserved_bit_value_byte() -> (r: u8)
        ensures
            r == Self::spec_reserved_bit_value_byte(),
    ;

    /// The value of the bits.
    fn value() -> (r: Self)
        ensures
            r == Self::spec_value(),
    ;
}

#[derive(Copy, Clone, Debug, PartialEq, Eq, Hash)]
pub struct BitOne;

impl Default for BitOne {
    fn default() -> (r: Self)
        ensures
            r == BitOne,
    {
        BitOne
    }
}

impl ReservedBitValue for BitOne {
    open spec fn spec_reserved_bit_value_byte() -> u8 {
        0xFF
    }

    open spec fn spec_value() -> Self {
        BitOne
    }

    fn get_reserved_bit_value_byte() -> (r: u8) {
        0xFF
    }

    fn value() -> (r: Self) {
        BitOne
    }
}

#[derive(Copy, Clone, Debug, PartialEq, Eq, Hash)]
pub struct BitZero;

impl Default for BitZero {
    fn default() -> (r: Self)
        ensures
            r == BitZero,
    {
        BitZero
    }
}

impl ReservedBitValue for BitZero {
    open spec fn spec_reserved_bit_value_byte() -> u8 {
        0
    }

    open spec fn spec_value() -> Self {
        BitZero
    }

    fn get_reserved_bit_value_byte() -> (r: u8) {
        0
    }

    fn value() -> (r: Self) {
        BitZero
    }
}

/// Always packs into the associated bit value. Ignores the input when
/// unpacking.
#[derive(Debug, PartialEq, Eq, Hash)]
pub struct ReservedBits<V, B> {
    value: V,
    bits: PhantomData<B>,
}

impl<V: Copy, B> Clone for ReservedBits<V, B> {
    fn clone(&self) -> (r: Self) {
        ReservedBits { value: self.value, bits: PhantomData }
    }
}

impl<V: Copy, B> Copy for ReservedBits<V, B> {

}

impl<V: ReservedBitValue, B> Default for ReservedBits<V, B> {
    fn default() -> (r: Self)
        ensures
            r == Self::spec_default(),
    {
        ReservedBits { value: V::value(), bits: PhantomData }
    }
}

impl<V: ReservedBitValue, B> ReservedBits<V, B> {
    /// The one value of the type.
    pub closed spec fn spec_default() -> Self {
        ReservedBits { value: V::spec_value(), bits: PhantomData }
    }
}

impl<V: ReservedBitValue, B: NumberOfBits> PackedStructInfo for ReservedBits<V, B> {
    open spec fn spec_packed_bits() -> nat {
        B::spec_number_of_bits()
    }

    #[inline]
    fn packed_bits() -> (bits: usize) {
        B::number_of_bits()
    }
}

impl<V: ReservedBitValue, B: NumberOfBits> PackedStruct for ReservedBits<V, B> {
    type ByteArray = <<B as NumberOfBits>::Bytes as NumberOfBytes>::AsBytes;

    open spec fn spec_pack(&self) -> PackingResult<Seq<u8>> {
        Ok(
            Seq::new(
                spec_bytes_required_for_bits(B::spec_number_of_bits()),
                |i: int| V::spec_reserved_bit_value_byte(),
            ),
        )
    }

    open spec fn spec_unpacked(src: Seq<u8>, r: PackingResult<Self>) -> bool {
        r == Ok::<Self, PackingError>(Self::spec_default())
    }


    fn pack(&self) -> (r: PackingResult<Self::ByteArray>) {
        proof {
            B::lemma_number_of_bytes();
            <B::Bytes as NumberOfBytes>::lemma_as_bytes_len();
        }
        let r = <Self::ByteArray as ByteArray>::new(V::get_reserved_bit_value_byte());
        assert(r.bytes() =~= self.spec_pack()->Ok_0);
        Ok(r)
    }

    fn unpack(_src: &Self::ByteArray) -> (r: PackingResult<Self>) {
        Ok(Self::default())
    }
}

} // verus!
