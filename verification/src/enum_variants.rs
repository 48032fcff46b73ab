//! Enums described by their variants: the names, and the numbers that
//! the variants stand for in a native integer type.

use vstd::prelude::*;
use crate::pack::NativeInt;
use crate::pack_parse_attributes::{chars_are, chars_of, lowercase_chars};

verus! {

/// The declaration of a variant.
#[derive(Debug)]
pub struct VariantDecl {
    pub name: String,
    /// The number of the variant, where the declaration gives one.
    pub discriminant: Option<i128>,
    /// Whether the variant holds no fields.
    pub unit: bool,
}

/// A variant and its number.
#[derive(Debug)]
pub struct Variant {
    pub name: String,
    pub value: i128,
}

/// An enum whose variants stand for numbers of a native integer type.
#[derive(Debug)]
pub struct PrimitiveEnumDef {
    pub prim_type: NativeInt,
    pub variants: Vec<Variant>,
}

/// Why an enum cannot be described.
#[derive(Clone, Copy, Debug, PartialEq, Eq, Structural)]
pub enum EnumError {
    /// The number of the variant is none of the integer type.
    OutOfRange { variant: usize },
    /// The number of the variant is that of an earlier one, which the
    /// error names first.
    Duplicate { first: usize, second: usize },
}

/// The number of variants, from the first on, that hold no fields.
pub open spec fn spec_unit_prefix(decls: Seq<VariantDecl>, i: int) -> int
    decreases decls.len() - i,
{
    if 0 <= i < decls.len() && decls[i].unit {
        spec_unit_prefix(decls, i + 1)
    } else {
        i
    }
}

/// The number of variant `i`: the one that its declaration gives, or
/// else one more than that of the variant before it, or zero for the
/// first.
pub open spec fn spec_discriminant(decls: Seq<VariantDecl>, i: nat) -> int
    decreases i,
{
    if decls[i as int].discriminant is Some {
        decls[i as int].discriminant->Some_0 as int
    } else if i == 0 {
        0
    } else {
        spec_discriminant(decls, (i - 1) as nat) + 1
    }
}

/// The least number of the integer type.
pub open spec fn spec_native_min(t: NativeInt) -> int {
    match t {
        NativeInt::U8 | NativeInt::U16 | NativeInt::U32 | NativeInt::U64 => 0,
        NativeInt::I8 => -0x80,
        NativeInt::I16 => -0x8000,
        NativeInt::I32 => -0x8000_0000,
        NativeInt::I64 => -0x8000_0000_0000_0000,
    }
}

/// The greatest number of the integer type.
pub open spec fn spec_native_max(t: NativeInt) -> int {
    match t {
        NativeInt::U8 => 0xFF,
        NativeInt::U16 => 0xFFFF,
        NativeInt::U32 => 0xFFFF_FFFF,
        NativeInt::U64 => 0xFFFF_FFFF_FFFF_FFFF,
        NativeInt::I8 => 0x7F,
        NativeInt::I16 => 0x7FFF,
        NativeInt::I32 => 0x7FFF_FFFF,
        NativeInt::I64 => 0x7FFF_FFFF_FFFF_FFFF,
    }
}

/// The least and the greatest number of the integer type.
pub fn native_range(t: NativeInt) -> (r: (i128, i128))
    ensures
        r.0 == spec_native_min(t),
        r.1 == spec_native_max(t),
{
    match t {
        NativeInt::U8 => (0, 0xFF),
        NativeInt::U16 => (0, 0xFFFF),
        NativeInt::U32 => (0, 0xFFFF_FFFF),
        NativeInt::U64 => (0, 0xFFFF_FFFF_FFFF_FFFF),
        NativeInt::I8 => (-0x80, 0x7F),
        NativeInt::I16 => (-0x8000, 0x7FFF),
        NativeInt::I32 => (-0x8000_0000, 0x7FFF_FFFF),
        NativeInt::I64 => (-0x8000_0000_0000_0000, 0x7FFF_FFFF_FFFF_FFFF),
    }
}

/// The variants from the first on that hold no fields.
pub fn get_unitary_enum(decls: &Vec<VariantDecl>) -> (n: usize)
    ensures
        n == spec_unit_prefix(decls@, 0),
        n <= decls@.len(),
{
    let mut n: usize = 0;
    while n < decls.len() && decls[n].unit
        invariant
            n <= decls@.len(),
            spec_unit_prefix(decls@, 0) == spec_unit_prefix(decls@, n as int),
        decreases decls@.len() - n,
    {
        n += 1;
    }
    n
}

impl PrimitiveEnumDef {
    /// The variants are those of the declarations that hold no fields, up
    /// to the first that holds some, with their names and their numbers;
    /// the numbers are numbers of the integer type, and no two are equal.
    pub open spec fn describes(&self, decls: Seq<VariantDecl>, prim_type: NativeInt) -> bool {
        &&& self.prim_type == prim_type
        &&& self.variants@.len() == spec_unit_prefix(decls, 0)
        &&& forall|i: int|
            0 <= i < self.variants@.len() ==> {
                &&& (#[trigger] self.variants@[i]).name@ == decls[i].name@
                &&& self.variants@[i].value == spec_discriminant(decls, i as nat)
            }
        &&& self.wf()
    }

    /// The numbers of the variants are numbers of the integer type, and
    /// no two of them are equal.
    pub open spec fn wf(&self) -> bool {
        &&& forall|i: int|
            0 <= i < self.variants@.len() ==> spec_native_min(self.prim_type) <= (
            #[trigger] self.variants@[i]).value <= spec_native_max(self.prim_type)
        &&& forall|i: int, j: int|
            0 <= i < j < self.variants@.len() ==> (#[trigger] self.variants@[i]).value != (
            #[trigger] self.variants@[j]).value
    }

    /// The index of the variant with the number `val`.
    pub fn from_primitive(&self, val: i128) -> (r: Option<usize>)
        ensures
            match r {
                Some(i) => i < self.variants@.len() && self.variants@[i as int].value == val
                    && forall|j: int| 0 <= j < i ==> (#[trigger] self.variants@[j]).value != val,
                None => forall|j: int|
                    0 <= j < self.variants@.len() ==> (#[trigger] self.variants@[j]).value != val,
            },
    {
        let mut i: usize = 0;
        while i < self.variants.len()
            invariant
                i <= self.variants@.len(),
                forall|j: int| 0 <= j < i ==> (#[trigger] self.variants@[j]).value != val,
            decreases self.variants@.len() - i,
        {
            if self.variants[i].value == val {
                return Some(i);
            }
            i += 1;
        }
        None
    }

    /// The number of the variant with the index `variant`.
    pub fn to_primitive(&self, variant: usize) -> (r: i128)
        requires
            variant < self.variants@.len(),
        ensures
            r == self.variants@[variant as int].value,
    {
        self.variants[variant].value
    }

    /// Display value, same as the name of a particular variant.
    pub fn to_display_str(&self, variant: usize) -> (r: String)
        requires
            variant < self.variants@.len(),
        ensures
            r@ == self.variants@[variant as int].name@,
    {
        self.variants[variant].name.clone()
    }

    /// The index of the first variant with the name `s`. Case sensitive.
    pub fn from_str(&self, s: &str) -> (r: Option<usize>)
        ensures
            match r {
                Some(i) => i < self.variants@.len() && self.variants@[i as int].name@ == s@
                    && forall|j: int| 0 <= j < i ==> (#[trigger] self.variants@[j]).name@ != s@,
                None => forall|j: int|
                    0 <= j < self.variants@.len() ==> (#[trigger] self.variants@[j]).name@ != s@,
            },
    {
        let chars = chars_of(s);
        let mut i: usize = 0;
        while i < self.variants.len()
            invariant
                i <= self.variants@.len(),
                chars@ == s@,
                forall|j: int| 0 <= j < i ==> (#[trigger] self.variants@[j]).name@ != s@,
            decreases self.variants@.len() - i,
        {
            if chars_are(&chars, self.variants[i].name.as_str()) {
                return Some(i);
            }
            i += 1;
        }
        None
    }

    /// The index of the first variant whose name in lowercase is `s`.
    pub fn from_str_lower(&self, s: &str) -> (r: Option<usize>)
        ensures
            match r {
                Some(i) => i < self.variants@.len() && crate::pack_parse_attributes::spec_to_lowercase(
                    self.variants@[i as int].name@,
                ) == s@ && forall|j: int|
                    0 <= j < i ==> crate::pack_parse_attributes::spec_to_lowercase(
                        (#[trigger] self.variants@[j]).name@,
                    ) != s@,
                None => forall|j: int|
                    0 <= j < self.variants@.len()
                        ==> crate::pack_parse_attributes::spec_to_lowercase(
                        (#[trigger] self.variants@[j]).name@,
                    ) != s@,
            },
    {
        let mut i: usize = 0;
        while i < self.variants.len()
            invariant
                i <= self.variants@.len(),
                forall|j: int|
                    0 <= j < i ==> crate::pack_parse_attributes::spec_to_lowercase(
                        (#[trigger] self.variants@[j]).name@,
                    ) != s@,
            decreases self.variants@.len() - i,
        {
            let lower = lowercase_chars(self.variants[i].name.as_str());
            if chars_are(&lower, s) {
                return Some(i);
            }
            i += 1;
        }
        None
    }

    /// The indices of all variants.
    pub fn all_variants(&self) -> (r: Vec<usize>)
        ensures
            r@ == Seq::new(self.variants@.len(), |i: int| i as usize),
    {
        let mut r: Vec<usize> = Vec::new();
        let mut i: usize = 0;
        while i < self.variants.len()
            invariant
                i <= self.variants@.len(),
                r@ == Seq::new(i as nat, |i: int| i as usize),
            decreases self.variants@.len() - i,
        {
            r.push(i);
            assert(r@ =~= Seq::new((i + 1) as nat, |i: int| i as usize));
            i += 1;
        }
        r
    }
}

/// `e` is the error for the first variant whose number is none of the
/// integer type or is that of an earlier variant.
pub open spec fn is_derive_error(decls: Seq<VariantDecl>, prim_type: NativeInt, e: EnumError) -> bool {
    match e {
        EnumError::OutOfRange { variant } => {
            &&& variant < spec_unit_prefix(decls, 0)
            &&& !(spec_native_min(prim_type) <= spec_discriminant(decls, variant as nat)
                <= spec_native_max(prim_type))
            &&& numbers_fit(decls, prim_type, variant as nat)
            &&& numbers_differ(decls, variant as nat)
        },
        EnumError::Duplicate { first, second } => {
            &&& first < second < spec_unit_prefix(decls, 0)
            &&& spec_discriminant(decls, first as nat) == spec_discriminant(decls, second as nat)
            &&& numbers_fit(decls, prim_type, (second + 1) as nat)
            &&& numbers_differ(decls, second as nat)
        },
    }
}

/// The numbers of the first `n` variants are numbers of the integer
/// type.
pub open spec fn numbers_fit(decls: Seq<VariantDecl>, prim_type: NativeInt, n: nat) -> bool {
    forall|i: nat|
        i < n ==> spec_native_min(prim_type) <= #[trigger] spec_discriminant(decls, i)
            <= spec_native_max(prim_type)
}

/// No two of the first `n` variants have the same number.
pub open spec fn numbers_differ(decls: Seq<VariantDecl>, n: nat) -> bool {
    forall|i: nat, j: nat|
        i < j < n ==> #[trigger] spec_discriminant(decls, i) != #[trigger] spec_discriminant(decls, j)
}

/// The numbers of the variants that hold no fields, up to the first
/// that holds some, are numbers of the integer type, and no two of them
/// are equal.
pub open spec fn spec_derivable(decls: Seq<VariantDecl>, prim_type: NativeInt) -> bool {
    &&& numbers_fit(decls, prim_type, spec_unit_prefix(decls, 0) as nat)
    &&& numbers_differ(decls, spec_unit_prefix(decls, 0) as nat)
}

/// The integer types in the order in which they are tried for an enum:
/// the unsigned ones from the smallest, then the signed ones.
pub open spec fn spec_candidates() -> Seq<NativeInt> {
    seq![
        NativeInt::U8,
        NativeInt::U16,
        NativeInt::U32,
        NativeInt::U64,
        NativeInt::I8,
        NativeInt::I16,
        NativeInt::I32,
        NativeInt::I64,
    ]
}

/// The first integer type, in the order of `spec_candidates()`, that
/// holds the numbers of all variants of an enum, if one does. No two of
/// the numbers may be equal.
pub fn detect(decls: &Vec<VariantDecl>) -> (r: Option<NativeInt>)
    ensures
        match r {
            Some(t) => exists|k: int|
                0 <= k < 8 && #[trigger] spec_candidates()[k] == t && spec_derivable(decls@, t) && forall|
                    j: int,
                |
                    0 <= j < k ==> !spec_derivable(decls@, #[trigger] spec_candidates()[j]),
            None => forall|j: int| 0 <= j < 8 ==> !spec_derivable(decls@, #[trigger] spec_candidates()[j]),
        },
{
    let candidates: Vec<NativeInt> = vec![
        NativeInt::U8,
        NativeInt::U16,
        NativeInt::U32,
        NativeInt::U64,
        NativeInt::I8,
        NativeInt::I16,
        NativeInt::I32,
        NativeInt::I64,
    ];
    assert(candidates@ =~= spec_candidates());
    let mut k: usize = 0;
    while k < candidates.len()
        invariant
            k <= 8,
            candidates@ == spec_candidates(),
            forall|j: int| 0 <= j < k ==> !spec_derivable(decls@, #[trigger] spec_candidates()[j]),
        decreases 8 - k,
    {
        let t = candidates[k];
        if self::derive(decls, t).is_ok() {
            assert(spec_candidates()[k as int] == t);
            return Some(t);
        }
        k += 1;
    }
    None
}

/// Describes an enum by the declarations of its variants: the variants
/// that hold no fields, up to the first that holds some. Each has the
/// number that its declaration gives, or else one more than the variant
/// before it. The numbers must be numbers of the integer type, and no
/// two may be equal: the error is that of the first variant for which
/// this fails.
pub fn derive(decls: &Vec<VariantDecl>, prim_type: NativeInt) -> (r: Result<PrimitiveEnumDef, EnumError>)
    ensures
        r is Ok <==> spec_derivable(decls@, prim_type),
        match r {
            Ok(def) => def.describes(decls@, prim_type),
            Err(e) => is_derive_error(decls@, prim_type, e),
        },
{
    let n = get_unitary_enum(decls);
    let (min, max) = native_range(prim_type);
    let mut def = PrimitiveEnumDef { prim_type, variants: Vec::new() };
    let mut prev: i128 = -1;
    let mut i: usize = 0;
    while i < n
        invariant
            i <= n,
            n == spec_unit_prefix(decls@, 0),
            n <= decls@.len(),
            min == spec_native_min(prim_type),
            max == spec_native_max(prim_type),
            def.prim_type == prim_type,
            def.variants@.len() == i,
            def.wf(),
            i == 0 ==> prev == -1,
            i > 0 ==> prev == spec_discriminant(decls@, (i - 1) as nat),
            numbers_fit(decls@, prim_type, i as nat),
            numbers_differ(decls@, i as nat),
            forall|k: int|
                0 <= k < i ==> {
                    &&& (#[trigger] def.variants@[k]).name@ == decls@[k].name@
                    &&& def.variants@[k].value == spec_discriminant(decls@, k as nat)
                },
        decreases n - i,
    {
        let value: i128 = match decls[i].discriminant {
            Some(d) => d,
            None => {
                if prev >= max {
                    let e = EnumError::OutOfRange { variant: i };
                    assert(e matches EnumError::OutOfRange { variant } && variant == i);
                    assert(is_derive_error(decls@, prim_type, e));
                    return Err(e);
                }
                prev + 1
            },
        };
        if value < min || value > max {
            let e = EnumError::OutOfRange { variant: i };
            assert(e matches EnumError::OutOfRange { variant } && variant == i);
            assert(is_derive_error(decls@, prim_type, e));
            return Err(e);
        }
        match def.from_primitive(value) {
            Some(first) => {
                let e = EnumError::Duplicate { first, second: i };
                assert(e matches EnumError::Duplicate { first: a, second: b } && a == first && b == i);
                assert(def.variants@[first as int].value == spec_discriminant(decls@, first as nat));
                assert(is_derive_error(decls@, prim_type, e));
                return Err(e);
            },
            None => {},
        }
        proof {
            assert forall|a: nat, b: nat| a < b < i + 1 implies #[trigger] spec_discriminant(
                decls@,
                a,
            ) != #[trigger] spec_discriminant(decls@, b) by {
                if b == i {
                    assert(def.variants@[a as int].value == spec_discriminant(decls@, a));
                }
            }
        }
        def.variants.push(Variant { name: decls[i].name.clone(), value });
        prev = value;
        i += 1;
    }
    Ok(def)
}

} // verus!
