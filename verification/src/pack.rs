//! What a structure's layout is made of.

use vstd::prelude::*;
use core::ops::Range;
use crate::bits::{bytes_required_for_bits, spec_bytes_required_for_bits};
use crate::pack_parse::{BitsPositionParsed, IntegerEndianness};
use crate::pack_parse_attributes::PackFieldAttribute;

verus! {

/// No structure holds more bits than this, and no bit has a higher
/// number.
pub const MAX_STRUCT_BITS: usize = 2048;

/// The native integer types.
#[derive(Clone, Copy, Debug, PartialEq, Eq, Structural)]
pub enum NativeInt {
    U8,
    I8,
    U16,
    I16,
    U32,
    I32,
    U64,
    I64,
}

impl NativeInt {
    /// Number of bits of the type.
    pub open spec fn spec_bits(self) -> nat {
        match self {
            NativeInt::U8 | NativeInt::I8 => 8,
            NativeInt::U16 | NativeInt::I16 => 16,
            NativeInt::U32 | NativeInt::I32 => 32,
            NativeInt::U64 | NativeInt::I64 => 64,
        }
    }

    /// Whether the type holds negative numbers.
    pub open spec fn spec_signed(self) -> bool {
        match self {
            NativeInt::I8 | NativeInt::I16 | NativeInt::I32 | NativeInt::I64 => true,
            _ => false,
        }
    }

    /// Number of bits of the type.
    pub fn bits(self) -> (n: usize)
        ensures
            n == self.spec_bits(),
    {
        match self {
            NativeInt::U8 | NativeInt::I8 => 8,
            NativeInt::U16 | NativeInt::I16 => 16,
            NativeInt::U32 | NativeInt::I32 => 32,
            NativeInt::U64 | NativeInt::I64 => 64,
        }
    }

    /// Whether the type holds negative numbers.
    pub fn signed(self) -> (s: bool)
        ensures
            s == self.spec_signed(),
    {
        match self {
            NativeInt::I8 | NativeInt::I16 | NativeInt::I32 | NativeInt::I64 => true,
            _ => false,
        }
    }
}

/// The smallest unsigned integer type for a field of `bits` bits; the
/// greatest where none is wide enough.
pub open spec fn spec_native_for(bits: usize) -> NativeInt {
    if bits <= 8 {
        NativeInt::U8
    } else if bits <= 16 {
        NativeInt::U16
    } else if bits <= 32 {
        NativeInt::U32
    } else {
        NativeInt::U64
    }
}

/// The smallest unsigned integer type for a field of `bits` bits; the
/// greatest where none is wide enough.
pub fn native_for(bits: usize) -> (r: NativeInt)
    ensures
        r == spec_native_for(bits),
{
    if bits <= 8 {
        NativeInt::U8
    } else if bits <= 16 {
        NativeInt::U16
    } else if bits <= 32 {
        NativeInt::U32
    } else {
        NativeInt::U64
    }
}

/// The type of a field, as far as the layout and the packing read it.
#[derive(Clone, Copy, Debug, PartialEq, Eq, Structural)]
pub enum FieldTy {
    Bool,
    /// A native integer.
    Native(NativeInt),
    /// An integer of `bits` bits in a native integer.
    Integer { native: NativeInt, bits: usize },
    /// `bits` bits that are packed as zeroes.
    ReservedZero { bits: usize },
    /// `bits` bits that are packed as ones.
    ReservedOne { bits: usize },
    /// A type that packs itself into bytes. Where it is an enum, this is
    /// the integer type of its values.
    Other { primitive: Option<NativeInt> },
}

/// The declaration of a field.
#[derive(Debug)]
pub struct FieldDecl {
    pub ty: FieldTy,
    /// The number of elements, where the field is an array.
    pub array_size: Option<usize>,
    pub attributes: Vec<PackFieldAttribute>,
}

/// The bit width and the position of a field, before it is placed.
#[derive(Clone, Copy, Debug, PartialEq, Eq, Structural)]
pub struct FieldMidPositioning {
    pub bit_width: usize,
    pub bits_position: BitsPositionParsed,
}

/// Whether a placed field is a field of its own or an element of an
/// array.
#[derive(Clone, Copy, Debug, PartialEq, Eq, Structural)]
pub enum FieldKind {
    Regular,
    Array { size: usize, index: usize },
}

/// One step from a field's value to its packed bytes.
#[derive(Clone, Copy, Debug, PartialEq, Eq, Structural)]
pub enum SerializationWrapper {
    /// The number is cut down to the field's bits in this native type.
    IntegerWrapper { integer: NativeInt },
    /// The bytes are given in this order.
    EndiannesWrapper { endian: IntegerEndianness },
    /// The value of an enum is taken as its number.
    PrimitiveEnumWrapper,
}

/// The steps from a field's value to its packed bytes: the enum's
/// number, the integer of the field's width, the byte order. A field
/// without any packs itself.
#[derive(Clone, Copy, Debug, PartialEq, Eq, Structural)]
pub struct WrapperChain {
    pub primitive_enum: bool,
    pub integer: Option<NativeInt>,
    pub endian: Option<IntegerEndianness>,
}

impl WrapperChain {
    /// The steps in the order in which packing takes them.
    pub open spec fn spec_wrappers(self) -> Seq<SerializationWrapper> {
        (if self.primitive_enum {
            seq![SerializationWrapper::PrimitiveEnumWrapper]
        } else {
            Seq::<SerializationWrapper>::empty()
        }) + (match self.integer {
            Some(integer) => seq![SerializationWrapper::IntegerWrapper { integer }],
            None => Seq::<SerializationWrapper>::empty(),
        }) + (match self.endian {
            Some(endian) => seq![SerializationWrapper::EndiannesWrapper { endian }],
            None => Seq::<SerializationWrapper>::empty(),
        })
    }

    /// The steps in the order in which packing takes them.
    pub fn wrappers(self) -> (r: Vec<SerializationWrapper>)
        ensures
            r@ == self.spec_wrappers(),
    {
        let mut r: Vec<SerializationWrapper> = Vec::new();
        if self.primitive_enum {
            r.push(SerializationWrapper::PrimitiveEnumWrapper);
        }
        if let Some(integer) = self.integer {
            r.push(SerializationWrapper::IntegerWrapper { integer });
        }
        if let Some(endian) = self.endian {
            r.push(SerializationWrapper::EndiannesWrapper { endian });
        }
        assert(r@ =~= self.spec_wrappers());
        r
    }
}

/// A placed field or element of an array.
#[derive(Debug, PartialEq, Eq)]
pub struct FieldRegular {
    /// Index of the declaration that the field comes from.
    pub field: usize,
    pub kind: FieldKind,
    pub ty: FieldTy,
    pub serialization_wrappers: WrapperChain,
    pub bit_width: usize,
    /// The range from the first to the last bit. A single byte: 0..7
    pub bit_range: Range<usize>,
    /// The range from the first bit to the bit after the last. A single
    /// byte: 0..8
    pub bit_range_rust: Range<usize>,
}

impl Clone for FieldRegular {
    fn clone(&self) -> (r: Self)
        ensures
            r == *self,
    {
        FieldRegular {
            field: self.field,
            kind: self.kind,
            ty: self.ty,
            serialization_wrappers: self.serialization_wrappers,
            bit_width: self.bit_width,
            bit_range: self.bit_range.start..self.bit_range.end,
            bit_range_rust: self.bit_range_rust.start..self.bit_range_rust.end,
        }
    }
}

impl FieldRegular {
    /// The field holds at least one bit below `MAX_STRUCT_BITS`, its
    /// width and both of its ranges agree, and its type fits its width.
    pub open spec fn wf(&self) -> bool {
        &&& self.bit_range.start <= self.bit_range.end < MAX_STRUCT_BITS
        &&& self.bit_width == self.bit_range.end - self.bit_range.start + 1
        &&& self.bit_range_rust.start == self.bit_range.start
        &&& self.bit_range_rust.end == self.bit_range.end + 1
        &&& self.type_error() is None
    }

    /// How a field that holds a number packs it: the native type, the
    /// number of bits and the byte order. A native integer or an enum
    /// has the bits of the field; a sized integer has its own.
    pub open spec fn integer_codec(&self) -> Option<(NativeInt, usize, IntegerEndianness)> {
        match self.serialization_wrappers.endian {
            None => None,
            Some(endian) => match self.serialization_wrappers.integer {
                Some(native) => Some((native, self.bit_width, endian)),
                None => match self.ty {
                    FieldTy::Integer { native, bits } => Some((native, bits, endian)),
                    _ => None,
                },
            },
        }
    }

    /// Why the type of the field does not fit its width, if it does
    /// not. An integer needs a native type of as many bytes as the
    /// width takes, no more bits of its own than the width and as many
    /// bytes for them, and whole bytes where its least significant byte
    /// comes first. A bool needs one byte at most, and reserved bits
    /// need as many bytes as the width takes.
    pub open spec fn type_error(&self) -> Option<LayoutError> {
        let width = self.bit_width as nat;
        let len = spec_bytes_required_for_bits(width);
        match self.integer_codec() {
            Some((native, bits, endian)) => if 8 * len > native.spec_bits() {
                Some(LayoutError::IntegerTooWide)
            } else if spec_bytes_required_for_bits(bits as nat) != len || bits > width {
                Some(LayoutError::WidthMismatch)
            } else if endian == IntegerEndianness::Lsb && width % 8 != 0 {
                Some(LayoutError::LsbNeedsFullBytes)
            } else {
                None
            },
            None => match self.ty {
                FieldTy::Bool => if width > 8 {
                    Some(LayoutError::BoolTooWide)
                } else {
                    None
                },
                FieldTy::ReservedZero { bits } => if spec_bytes_required_for_bits(bits as nat) != len {
                    Some(LayoutError::WidthMismatch)
                } else {
                    None
                },
                FieldTy::ReservedOne { bits } => if spec_bytes_required_for_bits(bits as nat) != len {
                    Some(LayoutError::WidthMismatch)
                } else {
                    None
                },
                _ => None,
            },
        }
    }

    /// How a field that holds a number packs it.
    pub fn get_integer_codec(&self) -> (r: Option<(NativeInt, usize, IntegerEndianness)>)
        ensures
            r == self.integer_codec(),
    {
        match self.serialization_wrappers.endian {
            None => None,
            Some(endian) => match self.serialization_wrappers.integer {
                Some(native) => Some((native, self.bit_width, endian)),
                None => match self.ty {
                    FieldTy::Integer { native, bits } => Some((native, bits, endian)),
                    _ => None,
                },
            },
        }
    }

    /// Why the type of the field does not fit its width, if it does
    /// not.
    pub fn get_type_error(&self) -> (r: Option<LayoutError>)
        requires
            self.bit_width <= MAX_STRUCT_BITS,
        ensures
            r == self.type_error(),
    {
        let len = bytes_required_for_bits(self.bit_width);
        match self.get_integer_codec() {
            Some((native, bits, endian)) => {
                if 8 * len > native.bits() {
                    Some(LayoutError::IntegerTooWide)
                } else if bytes_required_for_bits(bits) != len || bits > self.bit_width {
                    Some(LayoutError::WidthMismatch)
                } else if endian == IntegerEndianness::Lsb && self.bit_width % 8 != 0 {
                    Some(LayoutError::LsbNeedsFullBytes)
                } else {
                    None
                }
            },
            None => match self.ty {
                FieldTy::Bool => if self.bit_width > 8 {
                    Some(LayoutError::BoolTooWide)
                } else {
                    None
                },
                FieldTy::ReservedZero { bits } => if bytes_required_for_bits(bits) != len {
                    Some(LayoutError::WidthMismatch)
                } else {
                    None
                },
                FieldTy::ReservedOne { bits } => if bytes_required_for_bits(bits) != len {
                    Some(LayoutError::WidthMismatch)
                } else {
                    None
                },
                _ => None,
            },
        }
    }
}

/// The layout of a structure.
#[derive(Debug)]
pub struct PackStruct {
    /// The fields and the elements of arrays, in the order of their
    /// declaration.
    pub fields: Vec<FieldRegular>,
    pub num_bytes: usize,
    pub num_bits: usize,
}

/// Why a structure has no layout.
#[derive(Clone, Copy, Debug, PartialEq, Eq, Structural)]
pub enum LayoutError {
    /// Arrays sized 0 are not supported.
    ArraySizeZero,
    /// The size of an array is given by the size of its elements.
    ArrayNeedsElementSize,
    /// Neither the attributes nor the type give the width of the field.
    UnknownWidth,
    /// The width of an array is no multiple of the width of its elements.
    ElementSizeMismatch,
    /// An integer of more than eight bits needs a byte order, on the
    /// field or as the default of the structure.
    MissingEndianness,
    /// A field that is an enum names no integer type for its values.
    MissingEnumPrimitive,
    /// The field takes more bytes than its integer type has.
    IntegerTooWide,
    /// The bits of a sized integer or of reserved bits are more than the
    /// field has, or take another number of bytes.
    WidthMismatch,
    /// An integer whose least significant byte comes first is no number
    /// of whole bytes.
    LsbNeedsFullBytes,
    /// A bool takes more than one byte.
    BoolTooWide,
    /// With the bits numbered from the least significant one, each field
    /// needs its first and its last bit.
    Lsb0NeedsRange,
    /// With the bits numbered from the least significant one, the
    /// structure needs its size in bytes.
    Lsb0NeedsStructSize,
    /// A field with a position needs the bit numbering of the structure.
    BitNumberingRequired,
    /// The first field follows nothing, and the bits of the structure
    /// are no whole bytes: the position of the first field must be given.
    FirstFieldAlignment,
    /// Without fields and without a size there is no structure.
    NoFields,
    /// A field of no bits.
    EmptyField,
    /// The last bit of a field stands before its first.
    ReversedRange,
    /// A width, a position or a size beyond `MAX_STRUCT_BITS`.
    TooLarge,
    /// A bit of the field lies outside the structure.
    OutOfBounds { field: usize },
    /// Two fields claim the same bit.
    Overlap { first: usize, second: usize },
}

} // verus!
