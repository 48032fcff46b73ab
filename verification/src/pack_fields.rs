//! Packing the values of a structure's fields into its bytes, and
//! unpacking them again.

use vstd::prelude::*;
use vstd::arithmetic::power2::{pow2, lemma_pow2_pos, lemma_pow2_adds, lemma_pow2_strictly_increases, lemma2_to64};
use vstd::arithmetic::div_mod::{lemma_mod_bound, lemma_mod_breakdown, lemma_fundamental_div_mod_converse};
use crate::bits::{bit_at, byte_bit, low_mask, bytes_required_for_bits, spec_bytes_required_for_bits};
use crate::blit::{
    clear_padding,
    lemma_clear_padding_bits,
    field_padding,
    pack_bits,
    spec_pack_bits,
    spec_pack_bits_error,
    spec_packed_bit,
    spec_unpack_bits,
    spec_unpack_bits_error,
    spec_unpacked_bit,
    unpack_bits,
    zeroed,
    packed_into,
    unpacked_from,
    lemma_bits_determine_bytes,
    lemma_bits_joined,
    lemma_bits_masked,
    lemma_low_mask_values,
    lemma_spec_pack_bits,
    lemma_spec_unpack_bits,
    lemma_zero_bits,
};
use crate::pack::{FieldRegular, FieldTy, NativeInt, PackStruct, MAX_STRUCT_BITS};
use crate::pack_parse::{IntegerEndianness, field_has_bit, fields_disjoint, bit_is_free, claimed_before};
use crate::packing::{PackingError, PackingResult};
use crate::types_num::{
    SizedPrimitive,
    IntegerAsBytes,
    be_bytes,
    be_value,
    le_bytes,
    in_native_range,
    native_value,
    signed_value,
    unsigned_value,
    sized_from_lsb_bytes,
    sized_from_msb_bytes,
    sized_to_lsb_bytes,
    sized_to_msb_bytes,
    sized_value,
    spec_sized_from_lsb_bytes,
    spec_sized_from_msb_bytes,
    spec_sized_to_lsb_bytes,
    spec_sized_to_msb_bytes,
    lemma_signed_value_range,
    lemma_be_value_bound,
    lemma_be_value_of_be_bytes,
    lemma_pattern_low_bits,
    lemma_sized_of_pattern,
    lemma_sized_bytes_roundtrip,
    lemma_pow2_8_mul,
    lemma_pow2_double,
};

verus! {

/// The value of a field.
#[derive(Debug, PartialEq, Eq)]
pub enum FieldValue {
    Bool(bool),
    /// The number of an integer or of an enum.
    Integer(i128),
    /// Reserved bits hold no value.
    Reserved,
    /// The packed bytes of a value that packs itself.
    Bytes(Vec<u8>),
}

/// The value of a field, as contracts speak of it.
pub ghost enum FieldValueView {
    Bool(bool),
    Integer(int),
    Reserved,
    Bytes(Seq<u8>),
}

impl View for FieldValue {
    type V = FieldValueView;

    open spec fn view(&self) -> FieldValueView {
        match *self {
            FieldValue::Bool(b) => FieldValueView::Bool(b),
            FieldValue::Integer(v) => FieldValueView::Integer(v as int),
            FieldValue::Reserved => FieldValueView::Reserved,
            FieldValue::Bytes(b) => FieldValueView::Bytes(b@),
        }
    }
}

impl Clone for FieldValue {
    fn clone(&self) -> (r: Self)
        ensures
            r@ == self@,
    {
        match self {
            FieldValue::Bool(b) => FieldValue::Bool(*b),
            FieldValue::Integer(v) => FieldValue::Integer(*v),
            FieldValue::Reserved => FieldValue::Reserved,
            FieldValue::Bytes(b) => FieldValue::Bytes(b.clone()),
        }
    }
}

/// The values of a sequence of fields, as contracts speak of them.
pub open spec fn values_view(values: Seq<FieldValue>) -> Seq<FieldValueView> {
    Seq::new(values.len(), |i: int| values[i]@)
}

/// The bytes of the number `v` as an integer of `bits` bits in a native
/// type: `v` must be a number of the native type; it is cut down to
/// `bits` bits and given in as few bytes as hold them.
pub open spec fn spec_pack_integer(
    v: int,
    bits: nat,
    native_bytes: nat,
    signed: bool,
    endian: IntegerEndianness,
) -> PackingResult<Seq<u8>> {
    if !in_native_range(v, 8 * native_bytes, signed) {
        Err(PackingError::InvalidValue)
    } else {
        let s = sized_value(v, bits, 8 * native_bytes, signed);
        match endian {
            IntegerEndianness::Msb => spec_sized_to_msb_bytes(s, bits, native_bytes),
            IntegerEndianness::Lsb => spec_sized_to_lsb_bytes(s, bits, native_bytes),
        }
    }
}

/// The number that the bytes hold as an integer of `bits` bits in a
/// native type.
pub open spec fn spec_unpack_integer(
    bytes: Seq<u8>,
    bits: nat,
    native_bytes: nat,
    signed: bool,
    endian: IntegerEndianness,
) -> PackingResult<int> {
    if bytes.len() > native_bytes {
        Err(PackingError::SliceIndexingError { slice_len: native_bytes as usize })
    } else {
        Ok(
            match endian {
                IntegerEndianness::Msb => spec_sized_from_msb_bytes(bytes, bits, native_bytes, signed),
                IntegerEndianness::Lsb => spec_sized_from_lsb_bytes(bytes, bits, native_bytes, signed),
            },
        )
    }
}

/// Cutting a number of a native type down gives a number of that type.
pub proof fn lemma_sized_value_in_range(v: int, bits: nat, native: nat, signed: bool)
    requires
        native >= 1,
        in_native_range(v, native, signed),
    ensures
        in_native_range(sized_value(v, bits, native, signed), native, signed),
{
    if bits < native {
        lemma_pow2_pos(bits);
        lemma_mod_bound(v, pow2(bits) as int);
        if signed {
            if bits >= 1 {
                lemma_signed_value_range(v, bits);
                if bits < native {
                    if bits - 1 < native - 1 {
                        lemma_pow2_strictly_increases((bits - 1) as nat, (native - 1) as nat);
                    }
                }
            } else {
                lemma2_to64();
                lemma_pow2_pos((native - 1) as nat);
            }
        } else {
            lemma_pow2_strictly_increases(bits, native);
        }
    }
}

/// The value of a native type for a bit pattern is a number of that
/// type.
pub proof fn lemma_native_value_in_range(n: int, native: nat, signed: bool)
    requires
        native >= 1,
    ensures
        in_native_range(native_value(n, native, signed), native, signed),
{
    lemma_pow2_pos(native);
    lemma_mod_bound(n, pow2(native) as int);
    if signed {
        lemma_signed_value_range(n, native);
    }
}

/// The bytes of the number `v` as an integer of `bits` bits in the
/// native type `T`.
pub fn pack_integer<T: SizedPrimitive>(v: i128, bits: usize, endian: IntegerEndianness) -> (r: PackingResult<
    Vec<u8>,
>)
    ensures
        match spec_pack_integer(v as int, bits as nat, T::native_bytes(), T::signed(), endian) {
            Ok(s) => (r matches Ok(b) && b@ == s),
            Err(e) => r == Err::<Vec<u8>, PackingError>(e),
        },
{
    match T::from_i128(v) {
        None => Err(PackingError::InvalidValue),
        Some(n) => {
            proof {
                T::lemma_of_int(v as int);
            }
            let s = T::sized(n, bits);
            match endian {
                IntegerEndianness::Msb => sized_to_msb_bytes(&s, bits),
                IntegerEndianness::Lsb => sized_to_lsb_bytes(&s, bits),
            }
        },
    }
}

/// The number that the bytes hold as an integer of `bits` bits in the
/// native type `T`.
pub fn unpack_integer<T: SizedPrimitive>(bytes: &[u8], bits: usize, endian: IntegerEndianness) -> (r: PackingResult<
    i128,
>)
    ensures
        match spec_unpack_integer(bytes@, bits as nat, T::native_bytes(), T::signed(), endian) {
            Ok(v) => r == Ok::<i128, PackingError>(v as i128) && v == v as i128,
            Err(e) => r == Err::<i128, PackingError>(e),
        },
{
    proof {
        T::of_int(0).lemma_native();
        let w = 8 * T::native_bytes();
        lemma_native_value_in_range(be_value(bytes@), w, T::signed());
        lemma_native_value_in_range(crate::types_num::le_value(bytes@), w, T::signed());
        lemma_sized_value_in_range(
            native_value(be_value(bytes@), w, T::signed()),
            bits as nat,
            w,
            T::signed(),
        );
        lemma_sized_value_in_range(
            native_value(crate::types_num::le_value(bytes@), w, T::signed()),
            bits as nat,
            w,
            T::signed(),
        );
        T::lemma_of_int(spec_sized_from_msb_bytes(bytes@, bits as nat, T::native_bytes(), T::signed()));
        T::lemma_of_int(spec_sized_from_lsb_bytes(bytes@, bits as nat, T::native_bytes(), T::signed()));
    }
    let n = match endian {
        IntegerEndianness::Msb => sized_from_msb_bytes::<T>(bytes, bits),
        IntegerEndianness::Lsb => sized_from_lsb_bytes::<T>(bytes, bits),
    };
    match n {
        Ok(n) => Ok(n.to_i128()),
        Err(e) => Err(e),
    }
}

/// The bytes of the number `v` as an integer of `bits` bits in the
/// native type `native`.
pub fn pack_native(native: NativeInt, v: i128, bits: usize, endian: IntegerEndianness) -> (r: PackingResult<
    Vec<u8>,
>)
    ensures
        match spec_pack_integer(
            v as int,
            bits as nat,
            native.spec_bits() / 8,
            native.spec_signed(),
            endian,
        ) {
            Ok(s) => (r matches Ok(b) && b@ == s),
            Err(e) => r == Err::<Vec<u8>, PackingError>(e),
        },
{
    match native {
        NativeInt::U8 => pack_integer::<u8>(v, bits, endian),
        NativeInt::I8 => pack_integer::<i8>(v, bits, endian),
        NativeInt::U16 => pack_integer::<u16>(v, bits, endian),
        NativeInt::I16 => pack_integer::<i16>(v, bits, endian),
        NativeInt::U32 => pack_integer::<u32>(v, bits, endian),
        NativeInt::I32 => pack_integer::<i32>(v, bits, endian),
        NativeInt::U64 => pack_integer::<u64>(v, bits, endian),
        NativeInt::I64 => pack_integer::<i64>(v, bits, endian),
    }
}

/// The number that the bytes hold as an integer of `bits` bits in the
/// native type `native`.
pub fn unpack_native(native: NativeInt, bytes: &[u8], bits: usize, endian: IntegerEndianness) -> (r: PackingResult<
    i128,
>)
    ensures
        match spec_unpack_integer(
            bytes@,
            bits as nat,
            native.spec_bits() / 8,
            native.spec_signed(),
            endian,
        ) {
            Ok(v) => r == Ok::<i128, PackingError>(v as i128) && v == v as i128,
            Err(e) => r == Err::<i128, PackingError>(e),
        },
{
    match native {
        NativeInt::U8 => unpack_integer::<u8>(bytes, bits, endian),
        NativeInt::I8 => unpack_integer::<i8>(bytes, bits, endian),
        NativeInt::U16 => unpack_integer::<u16>(bytes, bits, endian),
        NativeInt::I16 => unpack_integer::<i16>(bytes, bits, endian),
        NativeInt::U32 => unpack_integer::<u32>(bytes, bits, endian),
        NativeInt::I32 => unpack_integer::<i32>(bytes, bits, endian),
        NativeInt::U64 => unpack_integer::<u64>(bytes, bits, endian),
        NativeInt::I64 => unpack_integer::<i64>(bytes, bits, endian),
    }
}

/// The packed bytes of a field's value. A number is packed as the
/// field's integer; a bool as the byte 1 or 0; reserved bits as bytes of
/// zeroes or of ones; a value that packs itself as its bytes.
#[verifier::opaque]
pub open spec fn spec_pack_field(f: FieldRegular, value: FieldValueView) -> PackingResult<Seq<u8>> {
    match f.integer_codec() {
        Some((native, bits, endian)) => match value {
            FieldValueView::Integer(v) => spec_pack_integer(
                v,
                bits as nat,
                native.spec_bits() / 8,
                native.spec_signed(),
                endian,
            ),
            _ => Err(PackingError::InvalidValue),
        },
        None => match f.ty {
            FieldTy::Bool => match value {
                FieldValueView::Bool(b) => Ok(
                    seq![if b {
                        1u8
                    } else {
                        0u8
                    }],
                ),
                _ => Err(PackingError::InvalidValue),
            },
            FieldTy::ReservedZero { bits } => match value {
                FieldValueView::Reserved => Ok(
                    Seq::new(spec_bytes_required_for_bits(bits as nat), |i: int| 0u8),
                ),
                _ => Err(PackingError::InvalidValue),
            },
            FieldTy::ReservedOne { bits } => match value {
                FieldValueView::Reserved => Ok(
                    Seq::new(spec_bytes_required_for_bits(bits as nat), |i: int| 0xFFu8),
                ),
                _ => Err(PackingError::InvalidValue),
            },
            FieldTy::Other { .. } => match value {
                FieldValueView::Bytes(b) => Ok(b),
                _ => Err(PackingError::InvalidValue),
            },
            _ => Err(PackingError::InternalError),
        },
    }
}

/// The value that a field's packed bytes hold. A bool is 1 or 0;
/// reserved bits are not read.
#[verifier::opaque]
pub open spec fn spec_unpack_field(f: FieldRegular, bytes: Seq<u8>) -> PackingResult<FieldValueView> {
    match f.integer_codec() {
        Some((native, bits, endian)) => match spec_unpack_integer(
            bytes,
            bits as nat,
            native.spec_bits() / 8,
            native.spec_signed(),
            endian,
        ) {
            Ok(v) => Ok(FieldValueView::Integer(v)),
            Err(e) => Err(e),
        },
        None => match f.ty {
            FieldTy::Bool => if bytes.len() != 1 {
                Err(PackingError::BufferSizeMismatch { expected: 1, actual: bytes.len() as usize })
            } else if bytes[0] == 1 {
                Ok(FieldValueView::Bool(true))
            } else if bytes[0] == 0 {
                Ok(FieldValueView::Bool(false))
            } else {
                Err(PackingError::InvalidValue)
            },
            FieldTy::ReservedZero { bits } => Ok(FieldValueView::Reserved),
            FieldTy::ReservedOne { bits } => Ok(FieldValueView::Reserved),
            FieldTy::Other { .. } => Ok(FieldValueView::Bytes(bytes)),
            _ => Err(PackingError::InternalError),
        },
    }
}

/// `len` bytes of `value`.
fn filled(len: usize, value: u8) -> (v: Vec<u8>)
    ensures
        v@ == Seq::new(len as nat, |i: int| value),
{
    let mut v: Vec<u8> = Vec::new();
    let mut i: usize = 0;
    while i < len
        invariant
            i <= len,
            v@ == Seq::new(i as nat, |i: int| value),
        decreases len - i,
    {
        v.push(value);
        assert(v@ =~= Seq::new((i + 1) as nat, |i: int| value));
        i += 1;
    }
    v
}

/// The packed bytes of a field's value.
pub fn pack_field(f: &FieldRegular, value: &FieldValue) -> (r: PackingResult<Vec<u8>>)
    ensures
        match spec_pack_field(*f, value@) {
            Ok(s) => (r matches Ok(b) && b@ == s),
            Err(e) => r == Err::<Vec<u8>, PackingError>(e),
        },
{
    reveal(spec_pack_field);
    if let Some((native, bits, endian)) = f.get_integer_codec() {
        return match value {
            FieldValue::Integer(v) => pack_native(native, *v, bits, endian),
            _ => Err(PackingError::InvalidValue),
        };
    }
    match f.ty {
        FieldTy::Bool => match value {
            FieldValue::Bool(b) => {
                let mut v: Vec<u8> = Vec::new();
                v.push(
                    if *b {
                        1
                    } else {
                        0
                    },
                );
                assert(v@ =~= seq![if *b {
                    1u8
                } else {
                    0u8
                }]);
                Ok(v)
            },
            _ => Err(PackingError::InvalidValue),
        },
        FieldTy::ReservedZero { bits } => match value {
            FieldValue::Reserved => Ok(filled(bytes_required_for_bits(bits), 0)),
            _ => Err(PackingError::InvalidValue),
        },
        FieldTy::ReservedOne { bits } => match value {
            FieldValue::Reserved => Ok(filled(bytes_required_for_bits(bits), 0xFF)),
            _ => Err(PackingError::InvalidValue),
        },
        FieldTy::Other { .. } => match value {
            FieldValue::Bytes(b) => Ok(b.clone()),
            _ => Err(PackingError::InvalidValue),
        },
        _ => Err(PackingError::InternalError),
    }
}

/// The value that a field's packed bytes hold.
pub fn unpack_field(f: &FieldRegular, bytes: Vec<u8>) -> (r: PackingResult<FieldValue>)
    ensures
        match spec_unpack_field(*f, bytes@) {
            Ok(v) => (r matches Ok(x) && x@ == v),
            Err(e) => r == Err::<FieldValue, PackingError>(e),
        },
{
    reveal(spec_unpack_field);
    if let Some((native, bits, endian)) = f.get_integer_codec() {
        return match unpack_native(native, bytes.as_slice(), bits, endian) {
            Ok(v) => Ok(FieldValue::Integer(v)),
            Err(e) => Err(e),
        };
    }
    match f.ty {
        FieldTy::Bool => {
            if bytes.len() != 1 {
                return Err(PackingError::BufferSizeMismatch { expected: 1, actual: bytes.len() });
            }
            match bytes[0] {
                1 => Ok(FieldValue::Bool(true)),
                0 => Ok(FieldValue::Bool(false)),
                _ => Err(PackingError::InvalidValue),
            }
        },
        FieldTy::ReservedZero { .. } => Ok(FieldValue::Reserved),
        FieldTy::ReservedOne { .. } => Ok(FieldValue::Reserved),
        FieldTy::Other { .. } => Ok(FieldValue::Bytes(bytes)),
        _ => Err(PackingError::InternalError),
    }
}

/// The bytes of a structure after the values of its first `n` fields
/// were packed into bytes of zero, one field after the other.
pub open spec fn spec_pack_fields(
    fields: Seq<FieldRegular>,
    values: Seq<FieldValueView>,
    num_bytes: nat,
    n: nat,
) -> PackingResult<Seq<u8>>
    decreases n,
{
    if n == 0 {
        Ok(Seq::new(num_bytes, |i: int| 0u8))
    } else {
        match spec_pack_fields(fields, values, num_bytes, (n - 1) as nat) {
            Err(e) => Err(e),
            Ok(buffer) => {
                let f = fields[n - 1];
                match spec_pack_field(f, values[n - 1]) {
                    Err(e) => Err(e),
                    Ok(packed) => match spec_pack_bits_error(
                        buffer.len(),
                        packed.len(),
                        f.bit_range.start as nat,
                        f.bit_width as nat,
                    ) {
                        Some(e) => Err(e),
                        None => Ok(
                            spec_pack_bits(buffer, packed, f.bit_range.start as nat, f.bit_width as nat),
                        ),
                    },
                }
            },
        }
    }
}

/// The values of the first `n` fields of a structure with the bytes
/// `src`.
pub open spec fn spec_unpack_fields(fields: Seq<FieldRegular>, src: Seq<u8>, n: nat) -> PackingResult<
    Seq<FieldValueView>,
>
    decreases n,
{
    if n == 0 {
        Ok(Seq::<FieldValueView>::empty())
    } else {
        match spec_unpack_fields(fields, src, (n - 1) as nat) {
            Err(e) => Err(e),
            Ok(values) => {
                let f = fields[n - 1];
                match spec_unpack_bits_error(src.len(), f.bit_range.start as nat, f.bit_width as nat) {
                    Some(e) => Err(e),
                    None => match spec_unpack_field(
                        f,
                        spec_unpack_bits(src, f.bit_range.start as nat, f.bit_width as nat),
                    ) {
                        Err(e) => Err(e),
                        Ok(v) => Ok(values.push(v)),
                    },
                }
            },
        }
    }
}

impl PackStruct {
    /// The bytes of the structure with the given values of its fields:
    /// one value for each field, or the values are refused.
    pub open spec fn spec_pack(&self, values: Seq<FieldValueView>) -> PackingResult<Seq<u8>> {
        if values.len() != self.fields@.len() {
            Err(PackingError::InvalidValue)
        } else {
            spec_pack_fields(self.fields@, values, self.num_bytes as nat, self.fields@.len())
        }
    }

    /// The values of the fields of the structure with the bytes `src`,
    /// which must be as many as the structure has.
    pub open spec fn spec_unpack(&self, src: Seq<u8>) -> PackingResult<Seq<FieldValueView>> {
        if src.len() != self.num_bytes {
            Err(PackingError::BufferSizeMismatch { expected: self.num_bytes, actual: src.len() as usize })
        } else {
            spec_unpack_fields(self.fields@, src, self.fields@.len())
        }
    }

    /// Packs the values of the fields into the bytes of the structure.
    pub fn pack(&self, values: &Vec<FieldValue>) -> (r: PackingResult<Vec<u8>>)
        ensures
            match self.spec_pack(values_view(values@)) {
                Ok(s) => (r matches Ok(b) && b@ == s),
                Err(e) => r == Err::<Vec<u8>, PackingError>(e),
            },
    {
        if values.len() != self.fields.len() {
            return Err(PackingError::InvalidValue);
        }
        let mut target = zeroed(self.num_bytes);
        let ghost vals = values_view(values@);
        let mut i: usize = 0;
        while i < self.fields.len()
            invariant
                i <= self.fields@.len(),
                values@.len() == self.fields@.len(),
                vals == values_view(values@),
                spec_pack_fields(self.fields@, vals, self.num_bytes as nat, i as nat) == Ok::<
                    Seq<u8>,
                    PackingError,
                >(target@),
            decreases self.fields@.len() - i,
        {
            let f = &self.fields[i];
            let step = match pack_field(f, &values[i]) {
                Err(e) => Err(e),
                Ok(packed) => pack_bits(
                    target.as_mut_slice(),
                    packed.as_slice(),
                    f.bit_range.start,
                    f.bit_width,
                ),
            };
            match step {
                Ok(()) => {},
                Err(e) => {
                    proof {
                        assert(spec_pack_fields(
                            self.fields@,
                            vals,
                            self.num_bytes as nat,
                            (i + 1) as nat,
                        ) == Err::<Seq<u8>, PackingError>(e));
                        lemma_pack_error_sticks(
                            self.fields@,
                            vals,
                            self.num_bytes as nat,
                            (i + 1) as nat,
                            self.fields@.len(),
                        );
                    }
                    return Err(e);
                },
            }
            i += 1;
        }
        Ok(target)
    }

    /// Unpacks the values of the fields from the bytes of the structure.
    pub fn unpack(&self, src: &[u8]) -> (r: PackingResult<Vec<FieldValue>>)
        ensures
            match self.spec_unpack(src@) {
                Ok(s) => (r matches Ok(v) && values_view(v@) == s),
                Err(e) => r == Err::<Vec<FieldValue>, PackingError>(e),
            },
    {
        if src.len() != self.num_bytes {
            return Err(
                PackingError::BufferSizeMismatch { expected: self.num_bytes, actual: src.len() },
            );
        }
        let mut values: Vec<FieldValue> = Vec::new();
        assert(values_view(values@) =~= Seq::<FieldValueView>::empty());
        let mut i: usize = 0;
        while i < self.fields.len()
            invariant
                i <= self.fields@.len(),
                values@.len() == i,
                src@.len() == self.num_bytes,
                spec_unpack_fields(self.fields@, src@, i as nat) == Ok::<
                    Seq<FieldValueView>,
                    PackingError,
                >(values_view(values@)),
            decreases self.fields@.len() - i,
        {
            let f = &self.fields[i];
            let ghost before = values_view(values@);
            let step = match unpack_bits(src, f.bit_range.start, f.bit_width) {
                Err(e) => Err(e),
                Ok(bytes) => unpack_field(f, bytes),
            };
            match step {
                Ok(v) => {
                    values.push(v);
                    assert(values_view(values@) =~= before.push(v@));
                },
                Err(e) => {
                    proof {
                        assert(spec_unpack_fields(self.fields@, src@, (i + 1) as nat) == Err::<
                            Seq<FieldValueView>,
                            PackingError,
                        >(e));
                        lemma_unpack_error_sticks(
                            self.fields@,
                            src@,
                            (i + 1) as nat,
                            self.fields@.len(),
                        );
                    }
                    return Err(e);
                },
            }
            i += 1;
        }
        Ok(values)
    }
}

/// Once a field cannot be packed, the later ones change nothing.
pub proof fn lemma_pack_error_sticks(
    fields: Seq<FieldRegular>,
    values: Seq<FieldValueView>,
    num_bytes: nat,
    n: nat,
    m: nat,
)
    requires
        n <= m,
        spec_pack_fields(fields, values, num_bytes, n).is_err(),
    ensures
        spec_pack_fields(fields, values, num_bytes, m) == spec_pack_fields(fields, values, num_bytes, n),
    decreases m,
{
    if n < m {
        lemma_pack_error_sticks(fields, values, num_bytes, n, (m - 1) as nat);
    }
}

/// Once a field cannot be unpacked, the later ones change nothing.
pub proof fn lemma_unpack_error_sticks(fields: Seq<FieldRegular>, src: Seq<u8>, n: nat, m: nat)
    requires
        n <= m,
        spec_unpack_fields(fields, src, n).is_err(),
    ensures
        spec_unpack_fields(fields, src, m) == spec_unpack_fields(fields, src, n),
    decreases m,
{
    if n < m {
        lemma_unpack_error_sticks(fields, src, n, (m - 1) as nat);
    }
}

/// Whether the value is one of the field: a number of the field's
/// integer type that fits the bits of the integer; a bool for a bool;
/// no value for reserved bits; for a type that packs itself as many
/// bytes as the field takes, with no bit set in front of the field's
/// bits.
#[verifier::opaque]
pub open spec fn value_fits(f: FieldRegular, v: FieldValueView) -> bool {
    let width = f.bit_width as nat;
    let len = spec_bytes_required_for_bits(width);
    match f.integer_codec() {
        Some((native, bits, endian)) => {
            &&& v matches FieldValueView::Integer(x)
            &&& in_native_range(x, native.spec_bits(), native.spec_signed())
            &&& sized_value(x, bits as nat, native.spec_bits(), native.spec_signed()) == x
        },
        None => match f.ty {
            FieldTy::Bool => v is Bool,
            FieldTy::ReservedZero { bits } => v is Reserved,
            FieldTy::ReservedOne { bits } => v is Reserved,
            FieldTy::Other { .. } => {
                &&& v matches FieldValueView::Bytes(b)
                &&& b.len() == len
                &&& forall|k: int| 0 <= k < field_padding(width) ==> !#[trigger] bit_at(b, k)
            },
            _ => false,
        },
    }
}

/// The number that bytes spell is the first byte times its weight plus
/// the number that the other bytes spell.
pub proof fn lemma_be_value_split_first(s: Seq<u8>)
    requires
        s.len() >= 1,
    ensures
        be_value(s) == s[0] * pow2((8 * (s.len() - 1)) as nat) + be_value(s.drop_first()),
    decreases s.len(),
{
    lemma2_to64();
    if s.len() == 1 {
        assert(s.drop_last() =~= Seq::<u8>::empty());
        assert(s.drop_first() =~= Seq::<u8>::empty());
        assert(be_value(Seq::<u8>::empty()) == 0);
        assert(be_value(s) == 256 * be_value(s.drop_last()) + s.last());
        assert(pow2(0) == 1);
        assert(be_value(s) == s[0]);
        assert(be_value(s.drop_first()) == 0);
        assert((8 * (s.len() - 1)) as nat == 0);
        assert(s[0] * pow2(0) == s[0]);
    } else {
        let init = s.drop_last();
        let tail = s.drop_first();
        lemma_be_value_split_first(init);
        assert(init.drop_first() =~= tail.drop_last());
        lemma_pow2_8_mul((s.len() - 2) as nat);
        let m = pow2((8 * (s.len() - 2)) as nat) as int;
        let a = s[0] as int;
        let b = be_value(init.drop_first());
        assert(init[0] == s[0]);
        assert(tail.last() == s.last());
        assert(be_value(init) == a * m + b);
        assert(be_value(s) == 256 * be_value(init) + s.last());
        assert(be_value(tail) == 256 * be_value(tail.drop_last()) + tail.last());
        assert(256 * (a * m + b) == a * (256 * m) + 256 * b) by (nonlinear_arith);
        assert(pow2((8 * (s.len() - 1)) as nat) == 256 * m);
        assert(be_value(s) == a * (256 * m) + be_value(tail));
        assert(s[0] * pow2((8 * (s.len() - 1)) as nat) == a * (256 * m)) by (nonlinear_arith)
            requires
                a == s[0],
                pow2((8 * (s.len() - 1)) as nat) == 256 * m,
        ;
    }
}

/// The number that the bytes spell after the padding was cleared is the
/// number of the field's bits.
pub proof fn lemma_clear_padding_value(bytes: Seq<u8>, width: nat)
    requires
        bytes.len() == spec_bytes_required_for_bits(width),
        width >= 1,
    ensures
        be_value(clear_padding(bytes, width)) == be_value(bytes) % (pow2(width) as int),
{
    let len = bytes.len();
    let pad = field_padding(width);
    let l = (8 - pad) as nat;
    let cleared = clear_padding(bytes, width);
    let m = pow2((8 * (len - 1)) as nat) as int;
    let p = pow2(l) as int;
    lemma2_to64();
    lemma_low_mask_values();
    vstd::bits::lemma_low_bits_mask_values();
    lemma_pow2_pos((8 * (len - 1)) as nat);
    lemma_pow2_pos(l);
    lemma_pow2_adds((8 * (len - 1)) as nat, l);
    assert(cleared[0] as int == bytes[0] as int % p) by {
        let b0 = bytes[0];
        assert(cleared[0] == b0 & low_mask(l as u8));
        if l < 8 {
            vstd::bits::lemma_u8_low_bits_mask_is_mod(b0, l);
            assert(low_mask(l as u8) == vstd::bits::low_bits_mask(l) as u8) by {
                if l == 1 {
                } else if l == 2 {
                } else if l == 3 {
                } else if l == 4 {
                } else if l == 5 {
                } else if l == 6 {
                } else if l == 7 {
                }
            }
            assert(p < 256) by {
                lemma_pow2_strictly_increases(l, 8);
            }
        } else {
            lemma_bits_masked(b0, 0, 8);
            vstd::arithmetic::div_mod::lemma_small_mod(b0 as nat, p as nat);
        }
    }
    lemma_be_value_split_first(bytes);
    lemma_be_value_split_first(cleared);
    assert(cleared.drop_first() =~= bytes.drop_first());
    let r = be_value(bytes.drop_first());
    lemma_be_value_bound(bytes.drop_first());
    let x = be_value(bytes);
    let a = bytes[0] as int;
    assert(x == a * m + r);
    assert(m * a + r == a * m + r) by (nonlinear_arith);
    lemma_fundamental_div_mod_converse(x, m, a, r);
    lemma_mod_breakdown(x, m, p);
    assert(m * (a % p) == (a % p) * m) by (nonlinear_arith);
}

/// A value that fits a field has packed bytes, as many as the field
/// asks for.
pub proof fn lemma_fitting_value_packs(f: FieldRegular, v: FieldValueView)
    requires
        f.wf(),
        value_fits(f, v),
    ensures
        spec_pack_field(f, v) matches Ok(bytes) && bytes.len() == spec_bytes_required_for_bits(
            f.bit_width as nat,
        ),
{
    reveal(spec_pack_field);
    reveal(value_fits);
}

/// A value that fits a field comes back from its packed bytes, whatever
/// stood in the padding in front of the field's bits.
pub proof fn lemma_field_roundtrip(f: FieldRegular, v: FieldValueView)
    requires
        f.wf(),
        value_fits(f, v),
    ensures
        spec_pack_field(f, v) matches Ok(bytes) && spec_unpack_field(
            f,
            clear_padding(bytes, f.bit_width as nat),
        ) == Ok::<FieldValueView, PackingError>(v),
{
    reveal(spec_pack_field);
    reveal(spec_unpack_field);
    reveal(value_fits);
    lemma_fitting_value_packs(f, v);
    let width = f.bit_width as nat;
    let len = spec_bytes_required_for_bits(width);
    let bytes = spec_pack_field(f, v)->Ok_0;
    let cleared = clear_padding(bytes, width);
    assert forall|k: int| 0 <= k < 8 * len implies bit_at(cleared, k) == (k >= field_padding(width)
        && #[trigger] bit_at(bytes, k)) by {
        lemma_clear_padding_bits(bytes, width, k);
    }
    match f.integer_codec() {
        Some((native, bits, endian)) => {
            let x = v->Integer_0;
            let nb = native.spec_bits() / 8;
            let w = native.spec_bits();
            let signed = native.spec_signed();
            assert(8 * nb == w);
            let pattern = unsigned_value(x, w);
            lemma_pow2_pos(w);
            lemma_mod_bound(x, pow2(w) as int);
            match endian {
                IntegerEndianness::Msb => {
                    assert(bytes == be_bytes(pattern, len));
                    lemma_be_value_of_be_bytes(pattern, len);
                    lemma_clear_padding_value(bytes, width);
                    lemma_pattern_low_bits(pattern, width, 8 * len);
                    let y = be_value(cleared);
                    assert(y == unsigned_value(pattern, width));
                    lemma_sized_of_pattern(x, y, bits as nat, width, w, signed);
                },
                IntegerEndianness::Lsb => {
                    assert(field_padding(width) == 0);
                    lemma_bits_determine_bytes(cleared, bytes);
                    lemma_sized_bytes_roundtrip(x, bits as nat, nb, signed);
                },
            }
        },
        None => {
            match f.ty {
                FieldTy::Bool => {
                    let b = bytes[0];
                    assert forall|k: int| 0 <= k < 8 implies bit_at(cleared, k) == bit_at(bytes, k) by {
                        lemma_bits_joined(0, 0, k as u8);
                    }
                    lemma_bits_determine_bytes(cleared, bytes);
                },
                FieldTy::Other { .. } => {
                    lemma_bits_determine_bytes(cleared, bytes);
                },
                _ => {},
            }
        },
    }
}

/// The packed bytes of field `i`.
pub open spec fn packed_of(fields: Seq<FieldRegular>, values: Seq<FieldValueView>, i: int) -> Seq<u8> {
    spec_pack_field(fields[i], values[i])->Ok_0
}

/// After the first `n` fields were packed, the buffer holds the bits of
/// each of them in its place and zeroes in every place that none of
/// them claims.
#[verifier::rlimit(60)]
pub proof fn lemma_pack_fields_bits(
    fields: Seq<FieldRegular>,
    values: Seq<FieldValueView>,
    num_bytes: nat,
    n: nat,
)
    requires
        n <= fields.len(),
        fields.len() == values.len(),
        forall|i: int| 0 <= i < fields.len() ==> (#[trigger] fields[i]).wf(),
        fields_disjoint(fields, fields.len() as int, 8 * num_bytes),
        forall|i: int| 0 <= i < n ==> value_fits(#[trigger] fields[i], values[i]),
    ensures
        spec_pack_fields(fields, values, num_bytes, n) matches Ok(buffer) && {
            &&& buffer.len() == num_bytes
            &&& forall|i: int, j: int|
                0 <= i < n && #[trigger] field_has_bit(fields[i], j) ==> bit_at(buffer, j) == bit_at(
                    packed_of(fields, values, i),
                    j - fields[i].bit_range.start + field_padding(fields[i].bit_width as nat),
                )
            &&& forall|j: int|
                0 <= j < 8 * num_bytes && !claimed_before(fields, n as int, j) ==> !#[trigger] bit_at(
                    buffer,
                    j,
                )
        },
    decreases n,
{
    if n == 0 {
        let zeros = Seq::new(num_bytes, |i: int| 0u8);
        assert forall|j: int| 0 <= j < 8 * num_bytes implies !#[trigger] bit_at(zeros, j) by {
            lemma_zero_bits(num_bytes, j);
        }
    } else {
        let m = (n - 1) as nat;
        lemma_pack_fields_bits(fields, values, num_bytes, m);
        let before = spec_pack_fields(fields, values, num_bytes, m)->Ok_0;
        let f = fields[m as int];
        lemma_fitting_value_packs(f, values[m as int]);
        let packed = packed_of(fields, values, m as int);
        let start = f.bit_range.start as nat;
        let width = f.bit_width as nat;
        assert(field_has_bit(f, f.bit_range.end as int));
        assert(bit_is_free(fields, m as int, 8 * num_bytes, f.bit_range.end as int));
        assert(spec_pack_bits_error(before.len(), packed.len(), start, width).is_none());
        let after = spec_pack_bits(before, packed, start, width);
        lemma_spec_pack_bits(before, packed, start, width);
        assert(spec_pack_fields(fields, values, num_bytes, n) == Ok::<Seq<u8>, PackingError>(after));
        assert forall|j: int| 0 <= j < 8 * num_bytes implies #[trigger] bit_at(after, j) == (if field_has_bit(
            f,
            j,
        ) {
            bit_at(packed, j - start + field_padding(width))
        } else {
            bit_at(before, j)
        }) by {
            assert(bit_at(after, j) == spec_packed_bit(before, packed, start, width, j));
            if field_has_bit(f, j) {
                assert(bit_is_free(fields, m as int, 8 * num_bytes, j));
                assert(!bit_at(before, j));
            }
        }
        assert forall|i: int, j: int| 0 <= i < n && #[trigger] field_has_bit(fields[i], j) implies bit_at(
            after,
            j,
        ) == bit_at(
            packed_of(fields, values, i),
            j - fields[i].bit_range.start + field_padding(fields[i].bit_width as nat),
        ) by {
            assert(bit_is_free(fields, i, 8 * num_bytes, j));
            if i < m {
                if field_has_bit(f, j) {
                    assert(bit_is_free(fields, m as int, 8 * num_bytes, j));
                    assert(claimed_before(fields, m as int, j));
                }
            }
        }
        assert forall|j: int|
            0 <= j < 8 * num_bytes && !claimed_before(fields, n as int, j) implies !#[trigger] bit_at(
            after,
            j,
        ) by {
            assert(!field_has_bit(f, j));
            if claimed_before(fields, m as int, j) {
                let i = choose|i: int| 0 <= i < m && #[trigger] field_has_bit(fields[i], j);
                assert(field_has_bit(fields[i], j));
            }
        }
    }
}

/// The values of the fields come back from the bytes that they were
/// packed into.
#[verifier::rlimit(60)]
pub proof fn lemma_unpack_packed_fields(
    fields: Seq<FieldRegular>,
    values: Seq<FieldValueView>,
    num_bytes: nat,
    n: nat,
)
    requires
        n <= fields.len(),
        fields.len() == values.len(),
        forall|i: int| 0 <= i < fields.len() ==> (#[trigger] fields[i]).wf(),
        fields_disjoint(fields, fields.len() as int, 8 * num_bytes),
        forall|i: int| 0 <= i < fields.len() ==> value_fits(#[trigger] fields[i], values[i]),
    ensures
        spec_pack_fields(fields, values, num_bytes, fields.len()) matches Ok(buffer)
            && spec_unpack_fields(fields, buffer, n) == Ok::<Seq<FieldValueView>, PackingError>(
            values.subrange(0, n as int),
        ),
    decreases n,
{
    lemma_pack_fields_bits(fields, values, num_bytes, fields.len());
    let buffer = spec_pack_fields(fields, values, num_bytes, fields.len())->Ok_0;
    if n == 0 {
        assert(values.subrange(0, 0) =~= Seq::<FieldValueView>::empty());
    } else {
        let m = (n - 1) as nat;
        lemma_unpack_packed_fields(fields, values, num_bytes, m);
        let f = fields[m as int];
        let start = f.bit_range.start as nat;
        let width = f.bit_width as nat;
        let pad = field_padding(width);
        assert(field_has_bit(f, f.bit_range.end as int));
        assert(bit_is_free(fields, m as int, 8 * num_bytes, f.bit_range.end as int));
        lemma_fitting_value_packs(f, values[m as int]);
        let packed = packed_of(fields, values, m as int);
        let field = spec_unpack_bits(buffer, start, width);
        lemma_spec_unpack_bits(buffer, start, width);
        let cleared = clear_padding(packed, width);
        assert forall|k: int| 0 <= k < 8 * field.len() implies bit_at(field, k) == bit_at(cleared, k) by {
            lemma_clear_padding_bits(packed, width, k);
            assert(bit_at(field, k) == spec_unpacked_bit(buffer, start, width, k));
            if k >= pad {
                assert(field_has_bit(f, start + k - pad));
            }
        }
        lemma_bits_determine_bytes(field, cleared);
        lemma_field_roundtrip(f, values[m as int]);
        assert(values.subrange(0, m as int).push(values[m as int]) =~= values.subrange(0, n as int));
    }
}

/// Round trip: the values of the fields of a sound layout, each of them
/// one that its field can hold, come back from the bytes that they pack
/// into.
pub proof fn lemma_pack_unpack_roundtrip(ps: PackStruct, values: Seq<FieldValueView>)
    requires
        ps.wf(),
        values.len() == ps.fields@.len(),
        forall|i: int| 0 <= i < values.len() ==> value_fits(#[trigger] ps.fields@[i], values[i]),
    ensures
        ps.spec_pack(values) matches Ok(bytes) && bytes.len() == ps.num_bytes && ps.spec_unpack(bytes)
            == Ok::<Seq<FieldValueView>, PackingError>(values),
{
    lemma_pack_fields_bits(ps.fields@, values, ps.num_bytes as nat, ps.fields@.len());
    lemma_unpack_packed_fields(ps.fields@, values, ps.num_bytes as nat, ps.fields@.len());
    assert(values.subrange(0, values.len() as int) =~= values);
}

} // verus!
