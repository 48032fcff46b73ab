//! Re-exports the most useful traits and types. Meant to be glob imported.

pub use crate::packing::{PackedStruct, PackedStructInfo, PackedStructSlice, PackingError, PackingResult};
pub use crate::primitive_enum::{EnumCatchAll, PrimitiveEnum};
pub use crate::types::{
    bits as packed_bits, BitOne, BitZero, Integer, IntegerAsBytes, LsbInteger, MsbInteger, ReservedBitValue,
    ReservedBits, ReservedOne, ReservedOnes, ReservedZero, ReservedZeroes, SizedInteger, SizedIntegerSigned,
    SizedPrimitive,
};
