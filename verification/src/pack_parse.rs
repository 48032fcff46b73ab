//! The layout of a structure: where each field stands, how many bytes
//! the whole takes, and that no two fields claim the same bit.

use vstd::prelude::*;
use core::ops::Range;
use crate::bit_ranges::{BitsRange, NextBits};
use crate::bits::{bytes_required_for_bits, spec_bytes_required_for_bits};
use crate::pack::{
    FieldDecl,
    FieldKind,
    FieldMidPositioning,
    FieldRegular,
    FieldTy,
    LayoutError,
    NativeInt,
    PackStruct,
    WrapperChain,
    MAX_STRUCT_BITS,
};
use crate::pack_parse_attributes::{
    PackFieldAttribute,
    PackStructAttribute,
    first_bit_numbering,
    first_bits_position,
    first_default_int_endianness,
    first_element_size_bits,
    first_enum_ty,
    first_int_endianness,
    first_size_bits,
    first_struct_size_bytes,
    spec_first_bit_numbering,
    spec_first_bits_position,
    spec_first_default_int_endianness,
    spec_first_element_size_bits,
    spec_first_enum_ty,
    spec_first_int_endianness,
    spec_first_size_bits,
    spec_first_struct_size_bytes,
};

verus! {

/// <https://en.wikipedia.org/wiki/Bit_numbering>
#[derive(Clone, Copy, Debug, PartialEq, Eq, Structural)]
pub enum BitNumbering {
    Lsb0,
    Msb0,
}

/// <https://en.wikipedia.org/wiki/Endianness>
#[derive(Clone, Copy, Debug, PartialEq, Eq, Structural)]
pub enum IntegerEndianness {
    Msb,
    Lsb,
}

/// The position of a field as its attribute gives it.
#[derive(Copy, Clone, Debug, PartialEq, Eq, Structural)]
pub enum BitsPositionParsed {
    /// After the field before it.
    Next,
    /// From the given bit on.
    Start(usize),
    /// From the first to the second bit, both of them in the field.
    Range(usize, usize),
}

impl BitsPositionParsed {
    /// The range between two bits, whichever of them comes first.
    pub fn range_in_order(a: usize, b: usize) -> (r: Self)
        ensures
            r == (if a <= b {
                BitsPositionParsed::Range(a, b)
            } else {
                BitsPositionParsed::Range(b, a)
            }),
    {
        if a <= b {
            BitsPositionParsed::Range(a, b)
        } else {
            BitsPositionParsed::Range(b, a)
        }
    }
}

impl BitsRange for BitsPositionParsed {
    open spec fn spec_range_start(&self, width: nat, prev: Option<Range<usize>>) -> int {
        match *self {
            BitsPositionParsed::Next => NextBits.spec_range_start(width, prev),
            BitsPositionParsed::Start(s) => s.spec_range_start(width, prev),
            BitsPositionParsed::Range(a, b) => a as int,
        }
    }

    open spec fn spec_range_end(&self, width: nat, prev: Option<Range<usize>>) -> int {
        match *self {
            BitsPositionParsed::Next => NextBits.spec_range_end(width, prev),
            BitsPositionParsed::Start(s) => s.spec_range_end(width, prev),
            BitsPositionParsed::Range(a, b) => b as int,
        }
    }

    fn get_bits_range(&self, packed_bit_width: usize, prev_range: &Option<Range<usize>>) -> (r: Range<
        usize,
    >) {
        match *self {
            BitsPositionParsed::Next => NextBits.get_bits_range(packed_bit_width, prev_range),
            BitsPositionParsed::Start(s) => s.get_bits_range(packed_bit_width, prev_range),
            BitsPositionParsed::Range(a, b) => (a..b).get_bits_range(packed_bit_width, prev_range),
        }
    }
}

/// The width that the type of a field gives, if it gives one.
pub open spec fn spec_builtin_type_bit_width(ty: FieldTy) -> Option<usize> {
    match ty {
        FieldTy::Bool => Some(1usize),
        FieldTy::Native(n) => Some(n.spec_bits() as usize),
        FieldTy::Integer { native, bits } => Some(bits),
        FieldTy::ReservedZero { bits } => Some(bits),
        FieldTy::ReservedOne { bits } => Some(bits),
        FieldTy::Other { .. } => None,
    }
}

/// The width that the type of a field gives, if it gives one.
pub fn get_builtin_type_bit_width(ty: &FieldTy) -> (r: Option<usize>)
    ensures
        r == spec_builtin_type_bit_width(*ty),
{
    match ty {
        FieldTy::Bool => Some(1),
        FieldTy::Native(n) => Some(n.bits()),
        FieldTy::Integer { native, bits } => Some(*bits),
        FieldTy::ReservedZero { bits } => Some(*bits),
        FieldTy::ReservedOne { bits } => Some(*bits),
        FieldTy::Other { .. } => None,
    }
}

/// The width of a field, from the first of these that is there: its
/// size, the size of its elements, its range of bits, its type.
pub open spec fn spec_field_width(
    ty: FieldTy,
    elements: nat,
    attrs: Seq<PackFieldAttribute>,
    position: BitsPositionParsed,
) -> Result<nat, LayoutError> {
    match spec_first_size_bits(attrs, 0) {
        Some(bits) => if elements > 1 {
            Err(LayoutError::ArrayNeedsElementSize)
        } else {
            Ok(bits as nat)
        },
        None => match spec_first_element_size_bits(attrs, 0) {
            Some(bits) => Ok((bits * elements) as nat),
            None => match position {
                BitsPositionParsed::Range(a, b) => Ok(
                    (if a <= b {
                        b - a + 1
                    } else {
                        a - b + 1
                    }) as nat,
                ),
                _ => match spec_builtin_type_bit_width(ty) {
                    Some(w) => Ok((w * elements) as nat),
                    None => Err(LayoutError::UnknownWidth),
                },
            },
        },
    }
}

/// The width and the position that a declaration gives.
pub open spec fn spec_mid_positioning(
    ty: FieldTy,
    array_size: Option<usize>,
    attrs: Seq<PackFieldAttribute>,
) -> Result<FieldMidPositioning, LayoutError> {
    if array_size == Some(0usize) {
        Err(LayoutError::ArraySizeZero)
    } else {
        let elements: nat = match array_size {
            Some(n) => n as nat,
            None => 1,
        };
        let position = match spec_first_bits_position(attrs, 0) {
            Some(p) => p,
            None => BitsPositionParsed::Next,
        };
        match spec_field_width(ty, elements, attrs, position) {
            Err(e) => Err(e),
            Ok(w) => if w > MAX_STRUCT_BITS {
                Err(LayoutError::TooLarge)
            } else {
                Ok(FieldMidPositioning { bit_width: w as usize, bits_position: position })
            },
        }
    }
}

/// `a * b`, or nothing where that is more than `MAX_STRUCT_BITS`.
fn capped_product(a: usize, b: usize) -> (r: Option<usize>)
    ensures
        a * b <= MAX_STRUCT_BITS ==> r == Some((a * b) as usize),
        a * b > MAX_STRUCT_BITS ==> r.is_none(),
{
    if a == 0 || b == 0 {
        assert(a * b == 0) by (nonlinear_arith)
            requires
                a == 0 || b == 0,
        ;
        return Some(0);
    }
    if a > MAX_STRUCT_BITS || b > MAX_STRUCT_BITS {
        assert(a * b > MAX_STRUCT_BITS) by (nonlinear_arith)
            requires
                a >= 1,
                b >= 1,
                a > MAX_STRUCT_BITS || b > MAX_STRUCT_BITS,
        ;
        return None;
    }
    assert(a * b <= MAX_STRUCT_BITS * MAX_STRUCT_BITS) by (nonlinear_arith)
        requires
            a <= MAX_STRUCT_BITS,
            b <= MAX_STRUCT_BITS,
    ;
    let p = a * b;
    if p > MAX_STRUCT_BITS {
        None
    } else {
        Some(p)
    }
}

/// The width and the position that a declaration gives.
pub fn get_field_mid_positioning(field: &FieldDecl) -> (r: Result<FieldMidPositioning, LayoutError>)
    ensures
        r == spec_mid_positioning(field.ty, field.array_size, field.attributes@),
{
    let mut array_size: usize = 1;
    if let Some(size) = field.array_size {
        if size == 0 {
            return Err(LayoutError::ArraySizeZero);
        }
        array_size = size;
    }
    let bit_width_builtin = get_builtin_type_bit_width(&field.ty);
    let bits_position = match first_bits_position(&field.attributes) {
        Some(p) => p,
        None => BitsPositionParsed::Next,
    };
    let bit_width: Option<usize> = if let Some(bits) = first_size_bits(&field.attributes) {
        if array_size > 1 {
            return Err(LayoutError::ArrayNeedsElementSize);
        }
        if bits > MAX_STRUCT_BITS {
            None
        } else {
            Some(bits)
        }
    } else if let Some(bits) = first_element_size_bits(&field.attributes) {
        capped_product(bits, array_size)
    } else if let BitsPositionParsed::Range(a, b) = bits_position {
        let d = if a <= b {
            b - a
        } else {
            a - b
        };
        if d >= MAX_STRUCT_BITS {
            None
        } else {
            Some(d + 1)
        }
    } else if let Some(bit_width_builtin) = bit_width_builtin {
        capped_product(bit_width_builtin, array_size)
    } else {
        return Err(LayoutError::UnknownWidth);
    };
    match bit_width {
        Some(bit_width) => Ok(FieldMidPositioning { bit_width, bits_position }),
        None => Err(LayoutError::TooLarge),
    }
}

/// The position of a field in bits numbered from the most significant
/// one. Bits numbered from the least significant one are counted back
/// from the end of the structure.
pub open spec fn spec_numbered_position(
    numbering: Option<BitNumbering>,
    size_bytes: Option<usize>,
    position: BitsPositionParsed,
    index: usize,
) -> Result<BitsPositionParsed, LayoutError> {
    match numbering {
        Some(BitNumbering::Lsb0) => match position {
            BitsPositionParsed::Range(start, end) => match size_bytes {
                None => Err(LayoutError::Lsb0NeedsStructSize),
                Some(size) => if size * 8 > MAX_STRUCT_BITS {
                    Err(LayoutError::TooLarge)
                } else if start >= size * 8 || end >= size * 8 {
                    Err(LayoutError::OutOfBounds { field: index })
                } else if start >= end {
                    Ok(
                        BitsPositionParsed::Range(
                            (size * 8 - 1 - start) as usize,
                            (size * 8 - 1 - end) as usize,
                        ),
                    )
                } else {
                    Ok(
                        BitsPositionParsed::Range(
                            (size * 8 - 1 - end) as usize,
                            (size * 8 - 1 - start) as usize,
                        ),
                    )
                },
            },
            _ => Err(LayoutError::Lsb0NeedsRange),
        },
        Some(BitNumbering::Msb0) => Ok(position),
        None => match position {
            BitsPositionParsed::Next => Ok(position),
            _ => Err(LayoutError::BitNumberingRequired),
        },
    }
}

/// The position of a field in bits numbered from the most significant
/// one.
pub fn numbered_position(
    numbering: Option<BitNumbering>,
    size_bytes: Option<usize>,
    position: BitsPositionParsed,
    index: usize,
) -> (r: Result<BitsPositionParsed, LayoutError>)
    ensures
        r == spec_numbered_position(numbering, size_bytes, position, index),
{
    match numbering {
        Some(BitNumbering::Lsb0) => match position {
            BitsPositionParsed::Range(start, end) => {
                if let Some(struct_size_bytes) = size_bytes {
                    if struct_size_bytes > MAX_STRUCT_BITS / 8 {
                        return Err(LayoutError::TooLarge);
                    }
                    let bits = struct_size_bytes * 8;
                    if start >= bits || end >= bits {
                        return Err(LayoutError::OutOfBounds { field: index });
                    }
                    Ok(BitsPositionParsed::range_in_order(bits - 1 - start, bits - 1 - end))
                } else {
                    Err(LayoutError::Lsb0NeedsStructSize)
                }
            },
            _ => Err(LayoutError::Lsb0NeedsRange),
        },
        Some(BitNumbering::Msb0) => Ok(position),
        None => match position {
            BitsPositionParsed::Next => Ok(position),
            _ => Err(LayoutError::BitNumberingRequired),
        },
    }
}

/// The bits that a field of `width` bits takes at `position`, after the
/// field `prev`.
pub open spec fn spec_bit_range(position: BitsPositionParsed, width: usize, prev: Option<Range<usize>>) -> Result<
    Range<usize>,
    LayoutError,
> {
    if width == 0 {
        Err(LayoutError::EmptyField)
    } else {
        let start = position.spec_range_start(width as nat, prev);
        let end = position.spec_range_end(width as nat, prev);
        if start >= MAX_STRUCT_BITS || end >= MAX_STRUCT_BITS {
            Err(LayoutError::TooLarge)
        } else if end < start {
            Err(LayoutError::ReversedRange)
        } else {
            Ok(start as usize..end as usize)
        }
    }
}

/// The bits that a field of `width` bits takes at `position`, after the
/// field `prev`.
pub fn bit_range(position: BitsPositionParsed, width: usize, prev: &Option<Range<usize>>) -> (r: Result<
    Range<usize>,
    LayoutError,
>)
    requires
        width <= MAX_STRUCT_BITS,
        prev matches Some(p) ==> p.end < MAX_STRUCT_BITS,
    ensures
        r == spec_bit_range(position, width, *prev),
{
    if width == 0 {
        return Err(LayoutError::EmptyField);
    }
    match position {
        BitsPositionParsed::Start(s) => {
            if s >= MAX_STRUCT_BITS {
                return Err(LayoutError::TooLarge);
            }
        },
        BitsPositionParsed::Range(a, b) => {
            if a >= MAX_STRUCT_BITS || b >= MAX_STRUCT_BITS {
                return Err(LayoutError::TooLarge);
            }
        },
        BitsPositionParsed::Next => {},
    }
    let range = position.get_bits_range(width, prev);
    if range.start >= MAX_STRUCT_BITS || range.end >= MAX_STRUCT_BITS {
        return Err(LayoutError::TooLarge);
    }
    if range.end < range.start {
        return Err(LayoutError::ReversedRange);
    }
    Ok(range)
}

/// The steps from a field's value to its bytes. A native integer and an
/// enum are cut down to the field's width; they and the sized integers
/// are given in a byte order, which for up to eight bits is always the
/// most significant byte first.
pub open spec fn spec_wrapper_chain(
    ty: FieldTy,
    attrs: Seq<PackFieldAttribute>,
    bit_width: nat,
    default_endianness: Option<IntegerEndianness>,
) -> Result<WrapperChain, LayoutError> {
    let is_enum_ty = spec_first_enum_ty(attrs, 0).is_some();
    let native = match ty {
        FieldTy::Native(n) => Some(n),
        _ => None,
    };
    let primitive = match ty {
        FieldTy::Other { primitive } => primitive,
        _ => None,
    };
    let sized = match ty {
        FieldTy::Integer { .. } => true,
        _ => false,
    };
    if is_enum_ty && primitive.is_none() {
        Err(LayoutError::MissingEnumPrimitive)
    } else {
        let integer = if is_enum_ty {
            primitive
        } else {
            native
        };
        if sized || integer.is_some() {
            let chosen = match spec_first_int_endianness(attrs, 0) {
                Some(e) => Some(e),
                None => default_endianness,
            };
            let endian = if bit_width <= 8 {
                Some(IntegerEndianness::Msb)
            } else {
                chosen
            };
            if endian.is_none() {
                Err(LayoutError::MissingEndianness)
            } else {
                Ok(WrapperChain { primitive_enum: is_enum_ty, integer, endian })
            }
        } else {
            Ok(WrapperChain { primitive_enum: false, integer: None, endian: None })
        }
    }
}

/// The field or element that is placed at `range`.
pub open spec fn spec_reg_field(
    ty: FieldTy,
    attrs: Seq<PackFieldAttribute>,
    range: Range<usize>,
    default_endianness: Option<IntegerEndianness>,
    index: usize,
    kind: FieldKind,
) -> Result<FieldRegular, LayoutError> {
    let bit_width = (range.end - range.start + 1) as nat;
    match spec_wrapper_chain(ty, attrs, bit_width, default_endianness) {
        Err(e) => Err(e),
        Ok(chain) => {
            let f = FieldRegular {
                field: index,
                kind,
                ty,
                serialization_wrappers: chain,
                bit_width: bit_width as usize,
                bit_range: range,
                bit_range_rust: range.start..(range.end + 1) as usize,
            };
            match f.type_error() {
                Some(e) => Err(e),
                None => Ok(f),
            }
        },
    }
}

/// The field or element that is placed at `bit_range`.
pub fn parse_reg_field(
    field: &FieldDecl,
    bit_range: &Range<usize>,
    default_endianness: Option<IntegerEndianness>,
    index: usize,
    kind: FieldKind,
) -> (r: Result<FieldRegular, LayoutError>)
    requires
        bit_range.start <= bit_range.end < MAX_STRUCT_BITS,
    ensures
        r == spec_reg_field(field.ty, field.attributes@, *bit_range, default_endianness, index, kind),
        r matches Ok(f) ==> f.wf(),
{
    let bit_width = (bit_range.end - bit_range.start) + 1;
    let is_enum_ty = first_enum_ty(&field.attributes).is_some();
    let mut integer: Option<NativeInt> = None;
    let mut sized = false;
    match field.ty {
        FieldTy::Native(n) => {
            integer = Some(n);
        },
        FieldTy::Integer { .. } => {
            sized = true;
        },
        _ => {},
    }
    if is_enum_ty {
        match field.ty {
            FieldTy::Other { primitive: Some(p) } => {
                integer = Some(p);
            },
            _ => {
                return Err(LayoutError::MissingEnumPrimitive);
            },
        }
    }
    let needs_int_wrap = integer.is_some();
    let needs_endiannes_wrap = sized || needs_int_wrap;
    let mut endian: Option<IntegerEndianness> = None;
    if needs_endiannes_wrap {
        let mut endiannes = match first_int_endianness(&field.attributes) {
            Some(e) => Some(e),
            None => default_endianness,
        };
        if bit_width <= 8 {
            endiannes = Some(IntegerEndianness::Msb);
        }
        if endiannes.is_none() {
            return Err(LayoutError::MissingEndianness);
        }
        endian = endiannes;
    }
    let f = FieldRegular {
        field: index,
        kind,
        ty: field.ty,
        serialization_wrappers: WrapperChain { primitive_enum: is_enum_ty, integer, endian },
        bit_width,
        bit_range: bit_range.start..bit_range.end,
        bit_range_rust: bit_range.start..(bit_range.end + 1),
    };
    match f.get_type_error() {
        Some(e) => Err(e),
        None => Ok(f),
    }
}

/// The bits of element `i` of an array that starts at bit `start` and
/// whose elements have `element_bits` bits.
pub open spec fn spec_element_range(start: usize, element_bits: nat, i: nat) -> Range<usize> {
    (start + i * element_bits) as usize..(start + i * element_bits + element_bits - 1) as usize
}

/// The placed field of a declaration, or the placed elements of an
/// array: each element has the width of the array divided by the number
/// of elements, and the elements follow one another from the first bit
/// of the array on.
pub open spec fn spec_field_elements(
    ty: FieldTy,
    array_size: Option<usize>,
    attrs: Seq<PackFieldAttribute>,
    bit_width: usize,
    range: Range<usize>,
    default_endianness: Option<IntegerEndianness>,
    index: usize,
) -> Result<Seq<FieldRegular>, LayoutError> {
    match array_size {
        None => match spec_reg_field(ty, attrs, range, default_endianness, index, FieldKind::Regular) {
            Err(e) => Err(e),
            Ok(f) => Ok(seq![f]),
        },
        Some(size) => {
            let element_bits = (bit_width as nat) / (size as nat);
            if element_bits == 0 || bit_width as nat % element_bits != 0 {
                Err(LayoutError::ElementSizeMismatch)
            } else if range.start + size * element_bits > MAX_STRUCT_BITS {
                Err(LayoutError::TooLarge)
            } else {
                match spec_reg_field(
                    ty,
                    attrs,
                    spec_element_range(range.start, element_bits, 0),
                    default_endianness,
                    index,
                    FieldKind::Array { size, index: 0 },
                ) {
                    Err(e) => Err(e),
                    Ok(_) => Ok(
                        Seq::new(
                            size as nat,
                            |i: int|
                                spec_reg_field(
                                    ty,
                                    attrs,
                                    spec_element_range(range.start, element_bits, i as nat),
                                    default_endianness,
                                    index,
                                    FieldKind::Array { size, index: i as usize },
                                )->Ok_0,
                        ),
                    ),
                }
            }
        },
    }
}

/// The placed field of a declaration, or the placed elements of an
/// array.
pub fn parse_field(
    field: &FieldDecl,
    mp: &FieldMidPositioning,
    bit_range: &Range<usize>,
    default_endianness: Option<IntegerEndianness>,
    index: usize,
) -> (r: Result<Vec<FieldRegular>, LayoutError>)
    requires
        field.array_size != Some(0usize),
        mp.bit_width <= MAX_STRUCT_BITS,
        bit_range.start <= bit_range.end < MAX_STRUCT_BITS,
    ensures
        match spec_field_elements(
            field.ty,
            field.array_size,
            field.attributes@,
            mp.bit_width,
            *bit_range,
            default_endianness,
            index,
        ) {
            Ok(s) => (r matches Ok(v) && v@ == s),
            Err(e) => r == Err::<Vec<FieldRegular>, LayoutError>(e),
        },
        r matches Ok(v) ==> forall|i: int| 0 <= i < v@.len() ==> (#[trigger] v@[i]).wf(),
{
    match field.array_size {
        None => {
            match parse_reg_field(field, bit_range, default_endianness, index, FieldKind::Regular) {
                Ok(f) => {
                    let mut v: Vec<FieldRegular> = Vec::new();
                    v.push(f);
                    assert(v@ =~= seq![f]);
                    Ok(v)
                },
                Err(e) => Err(e),
            }
        },
        Some(size) => {
            let element_size_bits: usize = mp.bit_width / size;
            if element_size_bits == 0 || (mp.bit_width % element_size_bits) != 0 {
                return Err(LayoutError::ElementSizeMismatch);
            }
            assert(size * element_size_bits <= mp.bit_width) by (nonlinear_arith)
                requires
                    size >= 1,
                    element_size_bits == mp.bit_width / size,
            ;
            let total = size * element_size_bits;
            if bit_range.start + total > MAX_STRUCT_BITS {
                return Err(LayoutError::TooLarge);
            }
            let mut elements: Vec<FieldRegular> = Vec::new();
            let mut i: usize = 0;
            while i < size
                invariant
                    i <= size,
                    size >= 1,
                    element_size_bits >= 1,
                    field.array_size == Some(size),
                    element_size_bits == mp.bit_width / size,
                    mp.bit_width % element_size_bits == 0,
                    total == size * element_size_bits,
                    bit_range.start + total <= MAX_STRUCT_BITS,
                    elements@.len() == i,
                    i > 0 ==> spec_reg_field(
                        field.ty,
                        field.attributes@,
                        spec_element_range(bit_range.start, element_size_bits as nat, 0),
                        default_endianness,
                        index,
                        FieldKind::Array { size, index: 0 },
                    ).is_ok(),
                    forall|k: int|
                        0 <= k < i ==> #[trigger] elements@[k] == spec_reg_field(
                            field.ty,
                            field.attributes@,
                            spec_element_range(bit_range.start, element_size_bits as nat, k as nat),
                            default_endianness,
                            index,
                            FieldKind::Array { size, index: k as usize },
                        )->Ok_0,
                    forall|k: int| 0 <= k < i ==> (#[trigger] elements@[k]).wf(),
                decreases size - i,
            {
                assert((i + 1) * element_size_bits <= size * element_size_bits) by (nonlinear_arith)
                    requires
                        i + 1 <= size,
                ;
                assert((i + 1) * element_size_bits == i * element_size_bits + element_size_bits)
                    by (nonlinear_arith);
                let s = bit_range.start + (i * element_size_bits);
                let element_bit_range = s..(s + element_size_bits - 1);
                assert(element_bit_range == spec_element_range(
                    bit_range.start,
                    element_size_bits as nat,
                    i as nat,
                ));
                assert(element_bit_range.end - element_bit_range.start + 1 == element_size_bits);
                match parse_reg_field(
                    field,
                    &element_bit_range,
                    default_endianness,
                    index,
                    FieldKind::Array { size, index: i },
                ) {
                    Ok(f) => {
                        elements.push(f);
                    },
                    Err(e) => {
                        return Err(e);
                    },
                }
                i += 1;
            }
            assert(elements@ =~= spec_field_elements(
                field.ty,
                field.array_size,
                field.attributes@,
                mp.bit_width,
                *bit_range,
                default_endianness,
                index,
            )->Ok_0);
            Ok(elements)
        },
    }
}

/// Whether bit `b` belongs to the field.
pub open spec fn field_has_bit(f: FieldRegular, b: int) -> bool {
    f.bit_range.start <= b <= f.bit_range.end
}

/// Whether one of the first `k` fields claims bit `b`.
pub open spec fn claimed_before(fields: Seq<FieldRegular>, k: int, b: int) -> bool {
    exists|j: int| 0 <= j < k && #[trigger] field_has_bit(fields[j], b)
}

/// Whether bit `b` lies inside a structure of `total` bits and none of
/// the first `k` fields claims it.
pub open spec fn bit_is_free(fields: Seq<FieldRegular>, k: int, total: nat, b: int) -> bool {
    b < total && !claimed_before(fields, k, b)
}

/// The first `n` fields lie inside a structure of `total` bits, and no
/// two of them claim the same bit.
pub open spec fn fields_disjoint(fields: Seq<FieldRegular>, n: int, total: nat) -> bool {
    forall|k: int, b: int|
        0 <= k < n && #[trigger] field_has_bit(fields[k], b) ==> bit_is_free(fields, k, total, b)
}

/// Field `k` is the first that claims a bit that is not free, and `b` is
/// the first such bit of it.
pub open spec fn first_conflict(fields: Seq<FieldRegular>, total: nat, k: int, b: int) -> bool {
    &&& 0 <= k < fields.len()
    &&& fields_disjoint(fields, k, total)
    &&& field_has_bit(fields[k], b)
    &&& !bit_is_free(fields, k, total, b)
    &&& forall|c: int| fields[k].bit_range.start <= c < b ==> #[trigger] bit_is_free(fields, k, total, c)
}

/// The first bit that is claimed and not free is bit `b` of field
/// `second`, and field `first`, which comes before, claims it too.
pub open spec fn overlap_at(fields: Seq<FieldRegular>, total: nat, first: usize, second: usize, b: int) -> bool {
    &&& first_conflict(fields, total, second as int, b)
    &&& b < total
    &&& first < second
    &&& field_has_bit(fields[first as int], b)
}

/// The first bit that is claimed and not free is bit `b` of field
/// `field`, and it lies outside the structure.
pub open spec fn out_of_bounds_at(fields: Seq<FieldRegular>, total: nat, field: usize, b: int) -> bool {
    &&& first_conflict(fields, total, field as int, b)
    &&& b >= total
}

/// `e` is the error for the first bit that is claimed and not free: the
/// bit lies outside the structure, or an earlier field, which the error
/// names first, claims it too.
pub open spec fn is_overlap_error(fields: Seq<FieldRegular>, total: nat, e: LayoutError) -> bool {
    match e {
        LayoutError::Overlap { first, second } => exists|b: int|
            overlap_at(fields, total, first, second, b),
        LayoutError::OutOfBounds { field } => exists|b: int|
            out_of_bounds_at(fields, total, field, b),
        _ => false,
    }
}

/// Checks that the fields lie inside a structure of `total_bits` bits and
/// that no two of them claim the same bit. Fails at the first bit, in
/// the order of the fields and of their bits, that is not free. The
/// last bit of a field must be below the greatest number of the
/// machine.
pub fn find_overlaps(fields: &Vec<FieldRegular>, total_bits: usize) -> (r: Result<(), LayoutError>)
    requires
        forall|i: int| 0 <= i < fields@.len() ==> (#[trigger] fields@[i]).bit_range.end < usize::MAX,
    ensures
        match r {
            Ok(_) => fields_disjoint(fields@, fields@.len() as int, total_bits as nat),
            Err(e) => is_overlap_error(fields@, total_bits as nat, e),
        },
{
    let mut bits: Vec<Option<usize>> = Vec::new();
    let mut n: usize = 0;
    while n < total_bits
        invariant
            n <= total_bits,
            bits@.len() == n,
            forall|b: int| 0 <= b < n ==> (#[trigger] bits@[b]).is_none(),
        decreases total_bits - n,
    {
        bits.push(None);
        n += 1;
    }
    let mut k: usize = 0;
    while k < fields.len()
        invariant
            k <= fields@.len(),
            bits@.len() == total_bits,
            forall|i: int| 0 <= i < fields@.len() ==> (#[trigger] fields@[i]).bit_range.end < usize::MAX,
            fields_disjoint(fields@, k as int, total_bits as nat),
            forall|b: int|
                0 <= b < total_bits ==> (match #[trigger] bits@[b] {
                    Some(j) => j < k && field_has_bit(fields@[j as int], b),
                    None => !claimed_before(fields@, k as int, b),
                }),
        decreases fields@.len() - k,
    {
        let start = fields[k].bit_range.start;
        let end = fields[k].bit_range.end;
        let mut b: usize = start;
        while b <= end
            invariant
                k < fields@.len(),
                start == fields@[k as int].bit_range.start,
                end == fields@[k as int].bit_range.end,
                start <= b,
                b <= end + 1 || b == start,
                end < usize::MAX,
                bits@.len() == total_bits,
                fields_disjoint(fields@, k as int, total_bits as nat),
                forall|c: int| start <= c < b ==> #[trigger] bit_is_free(
                    fields@,
                    k as int,
                    total_bits as nat,
                    c,
                ),
                forall|c: int|
                    0 <= c < total_bits ==> (match #[trigger] bits@[c] {
                        Some(j) => if start <= c < b {
                            j == k
                        } else {
                            j < k && field_has_bit(fields@[j as int], c)
                        },
                        None => !(start <= c < b) && !claimed_before(fields@, k as int, c),
                    }),
            decreases end + 1 - b,
        {
            if b >= total_bits {
                let e = LayoutError::OutOfBounds { field: k };
                assert(e matches LayoutError::OutOfBounds { field } && field == k);
                assert(out_of_bounds_at(fields@, total_bits as nat, k, b as int));
                assert(is_overlap_error(fields@, total_bits as nat, e));
                return Err(e);
            }
            if let Some(n) = bits[b] {
                assert(bits@[b as int] == Some(n));
                assert(field_has_bit(fields@[n as int], b as int));
                assert(claimed_before(fields@, k as int, b as int));
                let e = LayoutError::Overlap { first: n, second: k };
                assert(e matches LayoutError::Overlap { first, second } && first == n && second == k);
                assert(overlap_at(fields@, total_bits as nat, n, k, b as int));
                assert(is_overlap_error(fields@, total_bits as nat, e));
                return Err(e);
            }
            assert(bits@[b as int].is_none());
            bits[b] = Some(k);
            b += 1;
        }
        proof {
            assert forall|i: int, c: int| 0 <= i < k + 1 && #[trigger] field_has_bit(
                fields@[i],
                c,
            ) implies bit_is_free(fields@, i, total_bits as nat, c) by {
                if i == k {
                    assert(bit_is_free(fields@, k as int, total_bits as nat, c));
                }
            }
            assert forall|c: int| 0 <= c < total_bits implies (match #[trigger] bits@[c] {
                Some(j) => j < k + 1 && field_has_bit(fields@[j as int], c),
                None => !claimed_before(fields@, k + 1, c),
            }) by {
                match bits@[c] {
                    Some(j) => {},
                    None => {
                        assert(!field_has_bit(fields@[k as int], c));
                        if claimed_before(fields@, k + 1, c) {
                            let j = choose|j: int| 0 <= j < k + 1 && #[trigger] field_has_bit(fields@[j], c);
                            assert(j < k);
                            assert(claimed_before(fields@, k as int, c));
                        }
                    },
                }
            }
        }
        k += 1;
    }
    Ok(())
}

/// The fields and elements of the first `n` declarations, each placed
/// after the one before it, and the bits of the last of these
/// declarations.
pub open spec fn spec_place_fields(
    decls: Seq<FieldDecl>,
    numbering: Option<BitNumbering>,
    size_bytes: Option<usize>,
    default_endianness: Option<IntegerEndianness>,
    n: nat,
) -> Result<(Seq<FieldRegular>, Option<Range<usize>>), LayoutError>
    decreases n,
{
    if n == 0 {
        Ok((Seq::<FieldRegular>::empty(), None::<Range<usize>>))
    } else {
        match spec_place_fields(decls, numbering, size_bytes, default_endianness, (n - 1) as nat) {
            Err(e) => Err(e),
            Ok((placed, prev)) => {
                let d = decls[n - 1];
                match spec_mid_positioning(d.ty, d.array_size, d.attributes@) {
                    Err(e) => Err(e),
                    Ok(mp) => match spec_numbered_position(
                        numbering,
                        size_bytes,
                        mp.bits_position,
                        (n - 1) as usize,
                    ) {
                        Err(e) => Err(e),
                        Ok(position) => match spec_bit_range(position, mp.bit_width, prev) {
                            Err(e) => Err(e),
                            Ok(range) => match spec_field_elements(
                                d.ty,
                                d.array_size,
                                d.attributes@,
                                mp.bit_width,
                                range,
                                default_endianness,
                                (n - 1) as usize,
                            ) {
                                Err(e) => Err(e),
                                Ok(elements) => Ok((placed + elements, Some(range))),
                            },
                        },
                    },
                }
            },
        }
    }
}

/// Once a declaration has no place, the later ones change nothing.
pub proof fn lemma_place_error_sticks(
    decls: Seq<FieldDecl>,
    numbering: Option<BitNumbering>,
    size_bytes: Option<usize>,
    default_endianness: Option<IntegerEndianness>,
    n: nat,
    m: nat,
)
    requires
        n <= m,
        spec_place_fields(decls, numbering, size_bytes, default_endianness, n).is_err(),
    ensures
        spec_place_fields(decls, numbering, size_bytes, default_endianness, m) == spec_place_fields(
            decls,
            numbering,
            size_bytes,
            default_endianness,
            n,
        ),
    decreases m,
{
    if n < m {
        lemma_place_error_sticks(decls, numbering, size_bytes, default_endianness, n, (m - 1) as nat);
    }
}

/// The highest end of the first `n` fields.
pub open spec fn spec_max_end(fields: Seq<FieldRegular>, n: nat) -> nat
    decreases n,
{
    if n == 0 {
        0
    } else {
        let rest = spec_max_end(fields, (n - 1) as nat);
        let end = fields[n - 1].bit_range_rust.end as nat;
        if end > rest {
            end
        } else {
            rest
        }
    }
}

/// The number of bits of the structure: eight times its size in bytes
/// where that is given, else as many as its fields reach.
pub open spec fn spec_num_bits(size_bytes: Option<usize>, fields: Seq<FieldRegular>) -> Result<
    nat,
    LayoutError,
> {
    match size_bytes {
        Some(size) => if size * 8 > MAX_STRUCT_BITS {
            Err(LayoutError::TooLarge)
        } else {
            Ok((size * 8) as nat)
        },
        None => if fields.len() == 0 {
            Err(LayoutError::NoFields)
        } else {
            Ok(spec_max_end(fields, fields.len()))
        },
    }
}

/// The placed fields and the number of bits of the structure, before
/// the fields are checked for overlaps. The first field may follow
/// nothing only where the structure holds whole bytes or gives its size.
pub open spec fn spec_layout(attrs: Seq<PackStructAttribute>, decls: Seq<FieldDecl>) -> Result<
    (Seq<FieldRegular>, nat),
    LayoutError,
> {
    let numbering = spec_first_bit_numbering(attrs, 0);
    let default_endianness = spec_first_default_int_endianness(attrs, 0);
    let size_bytes = spec_first_struct_size_bytes(attrs, 0);
    match spec_place_fields(decls, numbering, size_bytes, default_endianness, decls.len()) {
        Err(e) => Err(e),
        Ok((fields, _)) => match spec_num_bits(size_bytes, fields) {
            Err(e) => Err(e),
            Ok(num_bits) => {
                let first_is_auto = decls.len() > 0 && spec_mid_positioning(
                    decls[0].ty,
                    decls[0].array_size,
                    decls[0].attributes@,
                )->Ok_0.bits_position == BitsPositionParsed::Next;
                if first_is_auto && num_bits % 8 != 0 && size_bytes.is_none() {
                    Err(LayoutError::FirstFieldAlignment)
                } else {
                    Ok((fields, num_bits))
                }
            },
        },
    }
}

impl PackStruct {
    /// The layout is sound: each field holds at least one bit, the fields
    /// lie inside the bytes of the structure, and no two of them claim
    /// the same bit.
    pub open spec fn wf(&self) -> bool {
        &&& forall|i: int| 0 <= i < self.fields@.len() ==> (#[trigger] self.fields@[i]).wf()
        &&& fields_disjoint(self.fields@, self.fields@.len() as int, 8 * (self.num_bytes as nat))
        &&& self.num_bytes == spec_bytes_required_for_bits(self.num_bits as nat)
        &&& self.num_bits <= MAX_STRUCT_BITS
    }
}

/// Lays out a structure: places each field, counts the bits and the
/// bytes of the whole, and checks that the fields lie inside the bytes
/// and that no two of them claim the same bit.
pub fn parse_struct(attributes: &Vec<PackStructAttribute>, fields: &Vec<FieldDecl>) -> (r: Result<
    PackStruct,
    LayoutError,
>)
    ensures
        match spec_layout(attributes@, fields@) {
            Err(e) => r == Err::<PackStruct, LayoutError>(e),
            Ok((placed, num_bits)) => match r {
                Ok(ps) => ps.fields@ == placed && ps.num_bits == num_bits && ps.wf(),
                Err(e) => is_overlap_error(placed, 8 * spec_bytes_required_for_bits(num_bits), e),
            },
        },
{
    let bit_positioning = first_bit_numbering(attributes);
    let default_int_endianness = first_default_int_endianness(attributes);
    let struct_size_bytes = first_struct_size_bytes(attributes);
    let ghost decls = fields@;
    let mut first_field_is_auto_positioned = false;
    if fields.len() > 0 {
        match get_field_mid_positioning(&fields[0]) {
            Ok(mp) => {
                first_field_is_auto_positioned = mp.bits_position == BitsPositionParsed::Next;
            },
            Err(e) => {
                proof {
                    assert(spec_place_fields(
                        decls,
                        bit_positioning,
                        struct_size_bytes,
                        default_int_endianness,
                        0,
                    ).is_ok());
                    assert(spec_place_fields(
                        decls,
                        bit_positioning,
                        struct_size_bytes,
                        default_int_endianness,
                        1,
                    ) == Err::<(Seq<FieldRegular>, Option<Range<usize>>), LayoutError>(e));
                    lemma_place_error_sticks(
                        decls,
                        bit_positioning,
                        struct_size_bytes,
                        default_int_endianness,
                        1,
                        decls.len(),
                    );
                }
                return Err(e);
            },
        }
    }
    let mut fields_parsed: Vec<FieldRegular> = Vec::new();
    let mut prev_bit_range: Option<Range<usize>> = None;
    let mut i: usize = 0;
    while i < fields.len()
        invariant
            i <= fields@.len(),
            decls == fields@,
            bit_positioning == spec_first_bit_numbering(attributes@, 0),
            default_int_endianness == spec_first_default_int_endianness(attributes@, 0),
            struct_size_bytes == spec_first_struct_size_bytes(attributes@, 0),
            spec_place_fields(
                decls,
                bit_positioning,
                struct_size_bytes,
                default_int_endianness,
                i as nat,
            ) == Ok::<(Seq<FieldRegular>, Option<Range<usize>>), LayoutError>(
                (fields_parsed@, prev_bit_range),
            ),
            prev_bit_range matches Some(p) ==> p.end < MAX_STRUCT_BITS,
            forall|k: int| 0 <= k < fields_parsed@.len() ==> (#[trigger] fields_parsed@[k]).wf(),
        decreases fields@.len() - i,
    {
        let field = &fields[i];
        let ghost before = fields_parsed@;
        let step: Result<Range<usize>, LayoutError> = match get_field_mid_positioning(field) {
            Err(e) => Err(e),
            Ok(mp) => match numbered_position(bit_positioning, struct_size_bytes, mp.bits_position, i) {
                Err(e) => Err(e),
                Ok(bits_position) => match bit_range(bits_position, mp.bit_width, &prev_bit_range) {
                    Err(e) => Err(e),
                    Ok(range) => match parse_field(field, &mp, &range, default_int_endianness, i) {
                        Err(e) => Err(e),
                        Ok(mut elements) => {
                            fields_parsed.append(&mut elements);
                            Ok(range)
                        },
                    },
                },
            },
        };
        match step {
            Ok(range) => {
                prev_bit_range = Some(range);
            },
            Err(e) => {
                proof {
                    assert(spec_place_fields(
                        decls,
                        bit_positioning,
                        struct_size_bytes,
                        default_int_endianness,
                        (i + 1) as nat,
                    ) == Err::<(Seq<FieldRegular>, Option<Range<usize>>), LayoutError>(e));
                    lemma_place_error_sticks(
                        decls,
                        bit_positioning,
                        struct_size_bytes,
                        default_int_endianness,
                        (i + 1) as nat,
                        decls.len(),
                    );
                }
                return Err(e);
            },
        }
        i += 1;
    }
    let num_bits: usize = if let Some(struct_size_bytes) = struct_size_bytes {
        if struct_size_bytes > MAX_STRUCT_BITS / 8 {
            return Err(LayoutError::TooLarge);
        }
        struct_size_bytes * 8
    } else {
        if fields_parsed.len() == 0 {
            return Err(LayoutError::NoFields);
        }
        let mut last_bit: usize = 0;
        let mut k: usize = 0;
        while k < fields_parsed.len()
            invariant
                k <= fields_parsed@.len(),
                last_bit == spec_max_end(fields_parsed@, k as nat),
                last_bit <= MAX_STRUCT_BITS,
                forall|j: int| 0 <= j < fields_parsed@.len() ==> (#[trigger] fields_parsed@[j]).wf(),
            decreases fields_parsed@.len() - k,
        {
            let end = fields_parsed[k].bit_range_rust.end;
            if end > last_bit {
                last_bit = end;
            }
            k += 1;
        }
        last_bit
    };
    let num_bytes = bytes_required_for_bits(num_bits);
    if first_field_is_auto_positioned && (num_bits % 8) != 0 && struct_size_bytes.is_none() {
        return Err(LayoutError::FirstFieldAlignment);
    }
    match find_overlaps(&fields_parsed, num_bytes * 8) {
        Ok(()) => {},
        Err(e) => {
            return Err(e);
        },
    }
    Ok(PackStruct { fields: fields_parsed, num_bytes, num_bits })
}

} // verus!
