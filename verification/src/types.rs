//! Implementations and wrappers for various packing types.

pub use crate::types_num::{
    Integer, IntegerAsBytes, LsbInteger, MsbInteger, SizedInteger, SizedIntegerSigned, SizedPrimitive,
};
pub use crate::types_reserved::{
    BitOne, BitZero, ReservedBitValue, ReservedBits, ReservedOne, ReservedOnes, ReservedZero, ReservedZeroes,
};

/// Types that specify the exact number of bits a packed integer should
/// occupy.
pub use crate::types_bits as bits;
