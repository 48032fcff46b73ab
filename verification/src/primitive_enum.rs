//! Enums whose values are numbers of a native integer type.

use vstd::prelude::*;
use vstd::string::StringExecFns;
use crate::debug_fmt::{decimal_chars, spec_decimal};
use crate::types_num::{IntegerAsBytes, SizedPrimitive};

verus! {

/// An enum type that can be packed or unpacked from a simple primitive
/// integer.
pub trait PrimitiveEnum<T: SizedPrimitive>: Sized + Copy {
    /// What `from_primitive` gives.
    closed spec fn spec_from_primitive(val: T) -> Option<Self> {
        arbitrary()
    }

    /// What `to_primitive` gives.
    closed spec fn spec_to_primitive(&self) -> T {
        arbitrary()
    }

    /// What `to_display_str` gives.
    closed spec fn spec_to_display_str(&self) -> Seq<char> {
        arbitrary()
    }

    /// What `from_str` gives.
    closed spec fn spec_from_str(s: Seq<char>) -> Option<Self> {
        arbitrary()
    }

    /// What `from_str_lower` gives.
    closed spec fn spec_from_str_lower(s: Seq<char>) -> Option<Self> {
        arbitrary()
    }

    /// What `all_variants` gives.
    closed spec fn spec_all_variants() -> Seq<Self> {
        arbitrary()
    }

    /// Convert from a primitive, might fail.
    fn from_primitive(val: T) -> (r: Option<Self>)
        ensures
            r == Self::spec_from_primitive(val),
    ;

    /// Convert to a primitive value.
    fn to_primitive(&self) -> (r: T)
        ensures
            r == self.spec_to_primitive(),
    ;

    /// Display value, same as the name of a particular variant.
    fn to_display_str(&self) -> (r: String)
        ensures
            r@ == self.spec_to_display_str(),
    ;

    /// Convert from a string value representing the variant. Case sensitive.
    fn from_str(s: &str) -> (r: Option<Self>)
        ensures
            r == Self::spec_from_str(s@),
    ;

    /// Convert from a string value representing the variant. Lowercase.
    fn from_str_lower(s: &str) -> (r: Option<Self>)
        ensures
            r == Self::spec_from_str_lower(s@),
    ;

    /// A list all possible variants.
    fn all_variants() -> (r: Vec<Self>)
        ensures
            r@ == Self::spec_all_variants(),
    ;
}

/// A wrapper for primitive enums that supports catching and retaining any
/// values that don't have defined discriminants.
#[derive(Debug)]
pub enum EnumCatchAll<E, T> {
    /// A matched discriminant
    Enum(E),
    /// Some other value, stored as the primitive type
    CatchAll(T),
}

impl<E: Copy, T: Copy> Clone for EnumCatchAll<E, T> {
    fn clone(&self) -> (r: Self)
        ensures
            r == *self,
    {
        match *self {
            EnumCatchAll::Enum(e) => EnumCatchAll::Enum(e),
            EnumCatchAll::CatchAll(v) => EnumCatchAll::CatchAll(v),
        }
    }
}

impl<E: Copy, T: Copy> Copy for EnumCatchAll<E, T> {

}

/// Two values are equal where they stand for the same number, whether
/// as a variant of the enum or as a number that is none.
impl<T: SizedPrimitive, E: PrimitiveEnum<T>> PartialEq for EnumCatchAll<E, T> {
    fn eq(&self, other: &Self) -> (r: bool) {
        self.to_primitive().to_i128() == other.to_primitive().to_i128()
    }
}

impl<T: SizedPrimitive, E: PrimitiveEnum<T>> vstd::std_specs::cmp::PartialEqSpecImpl for EnumCatchAll<E, T> {
    open spec fn obeys_eq_spec() -> bool {
        true
    }

    open spec fn eq_spec(&self, other: &Self) -> bool {
        self.spec_to_primitive().as_int() == other.spec_to_primitive().as_int()
    }
}

impl<E, T> EnumCatchAll<E, T> {
    pub fn from_enum(v: E) -> (r: Self)
        ensures
            r == EnumCatchAll::<E, T>::Enum(v),
    {
        EnumCatchAll::Enum(v)
    }
}

impl<E, T> From<E> for EnumCatchAll<E, T> {
    fn from(v: E) -> (r: Self) {
        EnumCatchAll::Enum(v)
    }
}

impl<E, T> vstd::std_specs::convert::FromSpecImpl<E> for EnumCatchAll<E, T> {
    open spec fn obeys_from_spec() -> bool {
        true
    }

    open spec fn from_spec(v: E) -> Self {
        EnumCatchAll::Enum(v)
    }
}

/// The text that stands for a number that is no value of the enum:
/// `Unknown value: ` and the number in decimal digits, behind a minus
/// sign where it is negative.
pub open spec fn spec_unknown_value_str(v: int) -> Seq<char> {
    if v < 0 {
        "Unknown value: "@ + seq!['-'] + spec_decimal((-v) as nat)
    } else {
        "Unknown value: "@ + spec_decimal(v as nat)
    }
}

/// The text that stands for a number that is no value of the enum.
pub fn unknown_value_str(v: i128) -> (r: String)
    ensures
        r@ == spec_unknown_value_str(v as int),
{
    let mut r = String::new();
    r.append("Unknown value: ");
    let magnitude: u128 = if v < 0 {
        r.push('-');
        ((-(v + 1)) as u128) + 1
    } else {
        v as u128
    };
    let ghost start = r@;
    let digits = decimal_chars(magnitude);
    let mut i: usize = 0;
    while i < digits.len()
        invariant
            i <= digits@.len(),
            r@ == start + digits@.subrange(0, i as int),
        decreases digits@.len() - i,
    {
        r.push(digits[i]);
        assert(r@ =~= start + digits@.subrange(0, i + 1));
        i += 1;
    }
    assert(digits@.subrange(0, digits@.len() as int) =~= digits@);
    assert(r@ =~= spec_unknown_value_str(v as int));
    r
}

/// The variants of the enum as values of the wrapper.
pub open spec fn spec_wrap_variants<E, T>(variants: Seq<E>) -> Seq<EnumCatchAll<E, T>> {
    Seq::new(variants.len(), |i: int| EnumCatchAll::<E, T>::Enum(variants[i]))
}

impl<T: SizedPrimitive, E: PrimitiveEnum<T>> PrimitiveEnum<T> for EnumCatchAll<E, T> {
    open spec fn spec_from_primitive(val: T) -> Option<Self> {
        match E::spec_from_primitive(val) {
            Some(p) => Some(EnumCatchAll::Enum(p)),
            None => Some(EnumCatchAll::CatchAll(val)),
        }
    }

    open spec fn spec_to_primitive(&self) -> T {
        match *self {
            EnumCatchAll::Enum(p) => p.spec_to_primitive(),
            EnumCatchAll::CatchAll(v) => v,
        }
    }

    open spec fn spec_to_display_str(&self) -> Seq<char> {
        match *self {
            EnumCatchAll::Enum(p) => p.spec_to_display_str(),
            EnumCatchAll::CatchAll(v) => spec_unknown_value_str(v.as_int()),
        }
    }

    open spec fn spec_from_str(s: Seq<char>) -> Option<Self> {
        match E::spec_from_str(s) {
            Some(e) => Some(EnumCatchAll::Enum(e)),
            None => None,
        }
    }

    open spec fn spec_from_str_lower(s: Seq<char>) -> Option<Self> {
        match E::spec_from_str_lower(s) {
            Some(e) => Some(EnumCatchAll::Enum(e)),
            None => None,
        }
    }

    open spec fn spec_all_variants() -> Seq<Self> {
        spec_wrap_variants(E::spec_all_variants())
    }

    fn from_primitive(val: T) -> (r: Option<Self>) {
        match E::from_primitive(val) {
            Some(p) => Some(EnumCatchAll::Enum(p)),
            None => Some(EnumCatchAll::CatchAll(val)),
        }
    }

    fn to_primitive(&self) -> (r: T) {
        match *self {
            EnumCatchAll::Enum(p) => p.to_primitive(),
            EnumCatchAll::CatchAll(v) => v,
        }
    }

    /// Display value, same as the name of a particular variant.
    fn to_display_str(&self) -> (r: String) {
        match *self {
            EnumCatchAll::Enum(p) => p.to_display_str(),
            EnumCatchAll::CatchAll(v) => unknown_value_str(v.to_i128()),
        }
    }

    fn from_str(s: &str) -> (r: Option<Self>) {
        match E::from_str(s) {
            Some(e) => Some(EnumCatchAll::Enum(e)),
            None => None,
        }
    }

    fn from_str_lower(s: &str) -> (r: Option<Self>) {
        match E::from_str_lower(s) {
            Some(e) => Some(EnumCatchAll::Enum(e)),
            None => None,
        }
    }

    fn all_variants() -> (r: Vec<Self>) {
        let variants = E::all_variants();
        let mut l: Vec<Self> = Vec::new();
        let mut i: usize = 0;
        while i < variants.len()
            invariant
                i <= variants@.len(),
                variants@ == E::spec_all_variants(),
                l@ == spec_wrap_variants::<E, T>(variants@.subrange(0, i as int)),
            decreases variants@.len() - i,
        {
            l.push(EnumCatchAll::Enum(variants[i]));
            assert(l@ =~= spec_wrap_variants::<E, T>(variants@.subrange(0, i + 1)));
            i += 1;
        }
        assert(variants@.subrange(0, variants@.len() as int) =~= variants@);
        l
    }
}

} // verus!
