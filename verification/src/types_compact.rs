//! Unsigned integers of less than eight bits, packed into the upper bits
//! of one byte.

use vstd::prelude::*;
use crate::packing::{PackedStruct, PackedStructInfo, PackingError, PackingResult};
use crate::types_bits::ByteArray;

verus! {

/// An unsigned integer of 1 bit.
#[derive(Debug, Copy, Clone, PartialEq)]
pub struct UIntBits1(u8);

impl UIntBits1 {
    /// The number that is stored.
    pub closed spec fn num(&self) -> u8 {
        self.0
    }

    /// The integer that stores `v`.
    pub closed spec fn spec_new(v: u8) -> Self {
        UIntBits1(v)
    }

    /// `spec_new(v)` stores `v`.
    pub broadcast proof fn lemma_spec_new(v: u8)
        ensures
            (#[trigger] Self::spec_new(v)).num() == v,
    {
    }
}

impl PackedStructInfo for UIntBits1 {
    open spec fn spec_packed_bits() -> nat {
        1
    }

    #[inline]
    fn packed_bits() -> (bits: usize) {
        1
    }
}

impl PackedStruct for UIntBits1 {
    type ByteArray = [u8; 1];

    open spec fn spec_pack(&self) -> PackingResult<Seq<u8>> {
        Ok(seq![self.num() << 7u8])
    }

    open spec fn spec_unpacked(src: Seq<u8>, r: PackingResult<Self>) -> bool {
        if src.len() != 1 {
            r == Err::<Self, PackingError>(
                PackingError::BufferSizeMismatch { expected: 1, actual: src.len() as usize },
            )
        } else {
            r.is_ok() && r->Ok_0.num() == src[0] >> 7u8
        }
    }

    #[inline]
    fn pack(&self) -> (r: PackingResult<Self::ByteArray>) {
        let packed = [self.0 << 7u8];
        assert(packed@ =~= seq![self.0 << 7u8]);
        Ok(packed)
    }

    #[inline]
    fn unpack(src: &Self::ByteArray) -> (r: PackingResult<Self>) {
        let src: &[u8] = src.as_bytes_slice();
        let v = src[0] >> 7u8;
        Ok(UIntBits1(v))
    }
}

impl core::ops::Deref for UIntBits1 {
    type Target = u8;

    #[inline]
    fn deref(&self) -> (r: &u8)
        ensures
            *r == self.num(),
    {
        &self.0
    }
}

impl From<u8> for UIntBits1 {
    #[inline]
    fn from(v: u8) -> (r: Self) {
        UIntBits1(v)
    }
}

impl vstd::std_specs::convert::FromSpecImpl<u8> for UIntBits1 {
    open spec fn obeys_from_spec() -> bool {
        true
    }

    open spec fn from_spec(v: u8) -> Self {
        Self::spec_new(v)
    }
}

impl From<UIntBits1> for u8 {
    #[inline]
    fn from(v: UIntBits1) -> (r: Self) {
        v.0
    }
}

impl vstd::std_specs::convert::FromSpecImpl<UIntBits1> for u8 {
    open spec fn obeys_from_spec() -> bool {
        true
    }

    open spec fn from_spec(v: UIntBits1) -> Self {
        v.num()
    }
}

/// An unsigned integer of 2 bits.
#[derive(Debug, Copy, Clone, PartialEq)]
pub struct UIntBits2(u8);

impl UIntBits2 {
    /// The number that is stored.
    pub closed spec fn num(&self) -> u8 {
        self.0
    }

    /// The integer that stores `v`.
    pub closed spec fn spec_new(v: u8) -> Self {
        UIntBits2(v)
    }

    /// `spec_new(v)` stores `v`.
    pub broadcast proof fn lemma_spec_new(v: u8)
        ensures
            (#[trigger] Self::spec_new(v)).num() == v,
    {
    }
}

impl PackedStructInfo for UIntBits2 {
    open spec fn spec_packed_bits() -> nat {
        2
    }

    #[inline]
    fn packed_bits() -> (bits: usize) {
        2
    }
}

impl PackedStruct for UIntBits2 {
    type ByteArray = [u8; 1];

    open spec fn spec_pack(&self) -> PackingResult<Seq<u8>> {
        Ok(seq![self.num() << 6u8])
    }

    open spec fn spec_unpacked(src: Seq<u8>, r: PackingResult<Self>) -> bool {
        if src.len() != 1 {
            r == Err::<Self, PackingError>(
                PackingError::BufferSizeMismatch { expected: 1, actual: src.len() as usize },
            )
        } else {
            r.is_ok() && r->Ok_0.num() == src[0] >> 6u8
        }
    }

    #[inline]
    fn pack(&self) -> (r: PackingResult<Self::ByteArray>) {
        let packed = [self.0 << 6u8];
        assert(packed@ =~= seq![self.0 << 6u8]);
        Ok(packed)
    }

    #[inline]
    fn unpack(src: &Self::ByteArray) -> (r: PackingResult<Self>) {
        let src: &[u8] = src.as_bytes_slice();
        let v = src[0] >> 6u8;
        Ok(UIntBits2(v))
    }
}

impl core::ops::Deref for UIntBits2 {
    type Target = u8;

    #[inline]
    fn deref(&self) -> (r: &u8)
        ensures
            *r == self.num(),
    {
        &self.0
    }
}

impl From<u8> for UIntBits2 {
    #[inline]
    fn from(v: u8) -> (r: Self) {
        UIntBits2(v)
    }
}

impl vstd::std_specs::convert::FromSpecImpl<u8> for UIntBits2 {
    open spec fn obeys_from_spec() -> bool {
        true
    }

    open spec fn from_spec(v: u8) -> Self {
        Self::spec_new(v)
    }
}

impl From<UIntBits2> for u8 {
    #[inline]
    fn from(v: UIntBits2) -> (r: Self) {
        v.0
    }
}

impl vstd::std_specs::convert::FromSpecImpl<UIntBits2> for u8 {
    open spec fn obeys_from_spec() -> bool {
        true
    }

    open spec fn from_spec(v: UIntBits2) -> Self {
        v.num()
    }
}

/// An unsigned integer of 3 bits.
#[derive(Debug, Copy, Clone, PartialEq)]
pub struct UIntBits3(u8);

impl UIntBits3 {
    /// The number that is stored.
    pub closed spec fn num(&self) -> u8 {
        self.0
    }

    /// The integer that stores `v`.
    pub closed spec fn spec_new(v: u8) -> Self {
        UIntBits3(v)
    }

    /// `spec_new(v)` stores `v`.
    pub broadcast proof fn lemma_spec_new(v: u8)
        ensures
            (#[trigger] Self::spec_new(v)).num() == v,
    {
    }
}

impl PackedStructInfo for UIntBits3 {
    open spec fn spec_packed_bits() -> nat {
        3
    }

    #[inline]
    fn packed_bits() -> (bits: usize) {
        3
    }
}

impl PackedStruct for UIntBits3 {
    type ByteArray = [u8; 1];

    open spec fn spec_pack(&self) -> PackingResult<Seq<u8>> {
        Ok(seq![self.num() << 5u8])
    }

    open spec fn spec_unpacked(src: Seq<u8>, r: PackingResult<Self>) -> bool {
        if src.len() != 1 {
            r == Err::<Self, PackingError>(
                PackingError::BufferSizeMismatch { expected: 1, actual: src.len() as usize },
            )
        } else {
            r.is_ok() && r->Ok_0.num() == src[0] >> 5u8
        }
    }

    #[inline]
    fn pack(&self) -> (r: PackingResult<Self::ByteArray>) {
        let packed = [self.0 << 5u8];
        assert(packed@ =~= seq![self.0 << 5u8]);
        Ok(packed)
    }

    #[inline]
    fn unpack(src: &Self::ByteArray) -> (r: PackingResult<Self>) {
        let src: &[u8] = src.as_bytes_slice();
        let v = src[0] >> 5u8;
        Ok(UIntBits3(v))
    }
}

impl core::ops::Deref for UIntBits3 {
    type Target = u8;

    #[inline]
    fn deref(&self) -> (r: &u8)
        ensures
            *r == self.num(),
    {
        &self.0
    }
}

impl From<u8> for UIntBits3 {
    #[inline]
    fn from(v: u8) -> (r: Self) {
        UIntBits3(v)
    }
}

impl vstd::std_specs::convert::FromSpecImpl<u8> for UIntBits3 {
    open spec fn obeys_from_spec() -> bool {
        true
    }

    open spec fn from_spec(v: u8) -> Self {
        Self::spec_new(v)
    }
}

impl From<UIntBits3> for u8 {
    #[inline]
    fn from(v: UIntBits3) -> (r: Self) {
        v.0
    }
}

impl vstd::std_specs::convert::FromSpecImpl<UIntBits3> for u8 {
    open spec fn obeys_from_spec() -> bool {
        true
    }

    open spec fn from_spec(v: UIntBits3) -> Self {
        v.num()
    }
}

/// An unsigned integer of 4 bits.
#[derive(Debug, Copy, Clone, PartialEq)]
pub struct UIntBits4(u8);

impl UIntBits4 {
    /// The number that is stored.
    pub closed spec fn num(&self) -> u8 {
        self.0
    }

    /// The integer that stores `v`.
    pub closed spec fn spec_new(v: u8) -> Self {
        UIntBits4(v)
    }

    /// `spec_new(v)` stores `v`.
    pub broadcast proof fn lemma_spec_new(v: u8)
        ensures
            (#[trigger] Self::spec_new(v)).num() == v,
    {
    }
}

impl PackedStructInfo for UIntBits4 {
    open spec fn spec_packed_bits() -> nat {
        4
    }

    #[inline]
    fn packed_bits() -> (bits: usize) {
        4
    }
}

impl PackedStruct for UIntBits4 {
    type ByteArray = [u8; 1];

    open spec fn spec_pack(&self) -> PackingResult<Seq<u8>> {
        Ok(seq![self.num() << 4u8])
    }

    open spec fn spec_unpacked(src: Seq<u8>, r: PackingResult<Self>) -> bool {
        if src.len() != 1 {
            r == Err::<Self, PackingError>(
                PackingError::BufferSizeMismatch { expected: 1, actual: src.len() as usize },
            )
        } else {
            r.is_ok() && r->Ok_0.num() == src[0] >> 4u8
        }
    }

    #[inline]
    fn pack(&self) -> (r: PackingResult<Self::ByteArray>) {
        let packed = [self.0 << 4u8];
        assert(packed@ =~= seq![self.0 << 4u8]);
        Ok(packed)
    }

    #[inline]
    fn unpack(src: &Self::ByteArray) -> (r: PackingResult<Self>) {
        let src: &[u8] = src.as_bytes_slice();
        let v = src[0] >> 4u8;
        Ok(UIntBits4(v))
    }
}

impl core::ops::Deref for UIntBits4 {
    type Target = u8;

    #[inline]
    fn deref(&self) -> (r: &u8)
        ensures
            *r == self.num(),
    {
        &self.0
    }
}

impl From<u8> for UIntBits4 {
    #[inline]
    fn from(v: u8) -> (r: Self) {
        UIntBits4(v)
    }
}

impl vstd::std_specs::convert::FromSpecImpl<u8> for UIntBits4 {
    open spec fn obeys_from_spec() -> bool {
        true
    }

    open spec fn from_spec(v: u8) -> Self {
        Self::spec_new(v)
    }
}

impl From<UIntBits4> for u8 {
    #[inline]
    fn from(v: UIntBits4) -> (r: Self) {
        v.0
    }
}

impl vstd::std_specs::convert::FromSpecImpl<UIntBits4> for u8 {
    open spec fn obeys_from_spec() -> bool {
        true
    }

    open spec fn from_spec(v: UIntBits4) -> Self {
        v.num()
    }
}

/// An unsigned integer of 5 bits.
#[derive(Debug, Copy, Clone, PartialEq)]
pub struct UIntBits5(u8);

impl UIntBits5 {
    /// The number that is stored.
    pub closed spec fn num(&self) -> u8 {
        self.0
    }

    /// The integer that stores `v`.
    pub closed spec fn spec_new(v: u8) -> Self {
        UIntBits5(v)
    }

    /// `spec_new(v)` stores `v`.
    pub broadcast proof fn lemma_spec_new(v: u8)
        ensures
            (#[trigger] Self::spec_new(v)).num() == v,
    {
    }
}

impl PackedStructInfo for UIntBits5 {
    open spec fn spec_packed_bits() -> nat {
        5
    }

    #[inline]
    fn packed_bits() -> (bits: usize) {
        5
    }
}

impl PackedStruct for UIntBits5 {
    type ByteArray = [u8; 1];

    open spec fn spec_pack(&self) -> PackingResult<Seq<u8>> {
        Ok(seq![self.num() << 3u8])
    }

    open spec fn spec_unpacked(src: Seq<u8>, r: PackingResult<Self>) -> bool {
        if src.len() != 1 {
            r == Err::<Self, PackingError>(
                PackingError::BufferSizeMismatch { expected: 1, actual: src.len() as usize },
            )
        } else {
            r.is_ok() && r->Ok_0.num() == src[0] >> 3u8
        }
    }

    #[inline]
    fn pack(&self) -> (r: PackingResult<Self::ByteArray>) {
        let packed = [self.0 << 3u8];
        assert(packed@ =~= seq![self.0 << 3u8]);
        Ok(packed)
    }

    #[inline]
    fn unpack(src: &Self::ByteArray) -> (r: PackingResult<Self>) {
        let src: &[u8] = src.as_bytes_slice();
        let v = src[0] >> 3u8;
        Ok(UIntBits5(v))
    }
}

impl core::ops::Deref for UIntBits5 {
    type Target = u8;

    #[inline]
    fn deref(&self) -> (r: &u8)
        ensures
            *r == self.num(),
    {
        &self.0
    }
}

impl From<u8> for UIntBits5 {
    #[inline]
    fn from(v: u8) -> (r: Self) {
        UIntBits5(v)
    }
}

impl vstd::std_specs::convert::FromSpecImpl<u8> for UIntBits5 {
    open spec fn obeys_from_spec() -> bool {
        true
    }

    open spec fn from_spec(v: u8) -> Self {
        Self::spec_new(v)
    }
}

impl From<UIntBits5> for u8 {
    #[inline]
    fn from(v: UIntBits5) -> (r: Self) {
        v.0
    }
}

impl vstd::std_specs::convert::FromSpecImpl<UIntBits5> for u8 {
    open spec fn obeys_from_spec() -> bool {
        true
    }

    open spec fn from_spec(v: UIntBits5) -> Self {
        v.num()
    }
}

/// An unsigned integer of 6 bits.
#[derive(Debug, Copy, Clone, PartialEq)]
pub struct UIntBits6(u8);

impl UIntBits6 {
    /// The number that is stored.
    pub closed spec fn num(&self) -> u8 {
        self.0
    }

    /// The integer that stores `v`.
    pub closed spec fn spec_new(v: u8) -> Self {
        UIntBits6(v)
    }

    /// `spec_new(v)` stores `v`.
    pub broadcast proof fn lemma_spec_new(v: u8)
        ensures
            (#[trigger] Self::spec_new(v)).num() == v,
    {
    }
}

impl PackedStructInfo for UIntBits6 {
    open spec fn spec_packed_bits() -> nat {
        6
    }

    #[inline]
    fn packed_bits() -> (bits: usize) {
        6
    }
}

impl PackedStruct for UIntBits6 {
    type ByteArray = [u8; 1];

    open spec fn spec_pack(&self) -> PackingResult<Seq<u8>> {
        Ok(seq![self.num() << 2u8])
    }

    open spec fn spec_unpacked(src: Seq<u8>, r: PackingResult<Self>) -> bool {
        if src.len() != 1 {
            r == Err::<Self, PackingError>(
                PackingError::BufferSizeMismatch { expected: 1, actual: src.len() as usize },
            )
        } else {
            r.is_ok() && r->Ok_0.num() == src[0] >> 2u8
        }
    }

    #[inline]
    fn pack(&self) -> (r: PackingResult<Self::ByteArray>) {
        let packed = [self.0 << 2u8];
        assert(packed@ =~= seq![self.0 << 2u8]);
        Ok(packed)
    }

    #[inline]
    fn unpack(src: &Self::ByteArray) -> (r: PackingResult<Self>) {
        let src: &[u8] = src.as_bytes_slice();
        let v = src[0] >> 2u8;
        Ok(UIntBits6(v))
    }
}

impl core::ops::Deref for UIntBits6 {
    type Target = u8;

    #[inline]
    fn deref(&self) -> (r: &u8)
        ensures
            *r == self.num(),
    {
        &self.0
    }
}

impl From<u8> for UIntBits6 {
    #[inline]
    fn from(v: u8) -> (r: Self) {
        UIntBits6(v)
    }
}

impl vstd::std_specs::convert::FromSpecImpl<u8> for UIntBits6 {
    open spec fn obeys_from_spec() -> bool {
        true
    }

    open spec fn from_spec(v: u8) -> Self {
        Self::spec_new(v)
    }
}

impl From<UIntBits6> for u8 {
    #[inline]
    fn from(v: UIntBits6) -> (r: Self) {
        v.0
    }
}

impl vstd::std_specs::convert::FromSpecImpl<UIntBits6> for u8 {
    open spec fn obeys_from_spec() -> bool {
        true
    }

    open spec fn from_spec(v: UIntBits6) -> Self {
        v.num()
    }
}

/// An unsigned integer of 7 bits.
#[derive(Debug, Copy, Clone, PartialEq)]
pub struct UIntBits7(u8);

impl UIntBits7 {
    /// The number that is stored.
    pub closed spec fn num(&self) -> u8 {
        self.0
    }

    /// The integer that stores `v`.
    pub closed spec fn spec_new(v: u8) -> Self {
        UIntBits7(v)
    }

    /// `spec_new(v)` stores `v`.
    pub broadcast proof fn lemma_spec_new(v: u8)
        ensures
            (#[trigger] Self::spec_new(v)).num() == v,
    {
    }
}

impl PackedStructInfo for UIntBits7 {
    open spec fn spec_packed_bits() -> nat {
        7
    }

    #[inline]
    fn packed_bits() -> (bits: usize) {
        7
    }
}

impl PackedStruct for UIntBits7 {
    type ByteArray = [u8; 1];

    open spec fn spec_pack(&self) -> PackingResult<Seq<u8>> {
        Ok(seq![self.num() << 1u8])
    }

    open spec fn spec_unpacked(src: Seq<u8>, r: PackingResult<Self>) -> bool {
        if src.len() != 1 {
            r == Err::<Self, PackingError>(
                PackingError::BufferSizeMismatch { expected: 1, actual: src.len() as usize },
            )
        } else {
            r.is_ok() && r->Ok_0.num() == src[0] >> 1u8
        }
    }

    #[inline]
    fn pack(&self) -> (r: PackingResult<Self::ByteArray>) {
        let packed = [self.0 << 1u8];
        assert(packed@ =~= seq![self.0 << 1u8]);
        Ok(packed)
    }

    #[inline]
    fn unpack(src: &Self::ByteArray) -> (r: PackingResult<Self>) {
        let src: &[u8] = src.as_bytes_slice();
        let v = src[0] >> 1u8;
        Ok(UIntBits7(v))
    }
}

impl core::ops::Deref for UIntBits7 {
    type Target = u8;

    #[inline]
    fn deref(&self) -> (r: &u8)
        ensures
            *r == self.num(),
    {
        &self.0
    }
}

impl From<u8> for UIntBits7 {
    #[inline]
    fn from(v: u8) -> (r: Self) {
        UIntBits7(v)
    }
}

impl vstd::std_specs::convert::FromSpecImpl<u8> for UIntBits7 {
    open spec fn obeys_from_spec() -> bool {
        true
    }

    open spec fn from_spec(v: u8) -> Self {
        Self::spec_new(v)
    }
}

impl From<UIntBits7> for u8 {
    #[inline]
    fn from(v: UIntBits7) -> (r: Self) {
        v.0
    }
}

impl vstd::std_specs::convert::FromSpecImpl<UIntBits7> for u8 {
    open spec fn obeys_from_spec() -> bool {
        true
    }

    open spec fn from_spec(v: UIntBits7) -> Self {
        v.num()
    }
}

} // verus!
