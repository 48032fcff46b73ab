//! Integers that are limited by a bit width, with methods to store them
//! as a native type, packing and unpacking into byte arrays, with MSB/LSB
//! support.

use vstd::prelude::*;
use vstd::arithmetic::power2::{
    pow2,
    lemma_pow2_pos,
    lemma_pow2_adds,
    lemma_pow2_strictly_increases,
    lemma2_to64,
    lemma2_to64_rest,
};
use core::marker::PhantomData;
use crate::bits::{bytes_required_for_bits, spec_bytes_required_for_bits};
use crate::packing::{PackingError, PackingResult, PackedStruct, PackedStructInfo, byte_array_of, lib_get_slice};
use crate::types_bits::{ByteArray, NumberOfBits, NumberOfBytes, BitsFullBytes};
use vstd::arithmetic::div_mod::{
    lemma_div_denominator,
    lemma_mod_breakdown,
    lemma_small_mod,
    lemma_mod_multiples_vanish,
    lemma_hoist_over_denominator,
    lemma_mul_mod_noop_general,
    lemma_mod_mod,
    lemma_fundamental_div_mod,
    lemma_mod_bound,
};

verus! {

/// Byte `j` of the number `v`, counted from the least significant one:
/// the digits of `v` in base 256.
pub open spec fn byte_of(v: int, j: nat) -> u8 {
    ((v / (pow2(8 * j) as int)) % 256) as u8
}

/// The `n` lowest bytes of `v`, most significant first.
pub open spec fn be_bytes(v: int, n: nat) -> Seq<u8> {
    Seq::new(n, |k: int| byte_of(v, (n - 1 - k) as nat))
}

/// The `n` lowest bytes of `v`, least significant first.
pub open spec fn le_bytes(v: int, n: nat) -> Seq<u8> {
    Seq::new(n, |k: int| byte_of(v, k as nat))
}

/// The number that the bytes spell, most significant first.
pub open spec fn be_value(bytes: Seq<u8>) -> int
    decreases bytes.len(),
{
    if bytes.len() == 0 {
        0
    } else {
        256 * be_value(bytes.drop_last()) + bytes.last() as int
    }
}

/// The number that the bytes spell, least significant first.
pub open spec fn le_value(bytes: Seq<u8>) -> int {
    be_value(bytes.reverse())
}

/// The number from 0 up to `2^bits` with the same `bits` lowest bits as
/// `v`.
pub open spec fn unsigned_value(v: int, bits: nat) -> int {
    v % (pow2(bits) as int)
}

/// The number from `-2^(bits-1)` up to `2^(bits-1)` with the same `bits`
/// lowest bits as `v`: what sign extension from bit `bits - 1` gives.
pub open spec fn signed_value(v: int, bits: nat) -> int {
    let m = v % (pow2(bits) as int);
    if bits >= 1 && m >= pow2((bits - 1) as nat) {
        m - pow2(bits)
    } else {
        m
    }
}

/// What a native integer of `native` bits holds after it was cut down to
/// `bits` bits: itself where `bits` is no less than `native`, else the
/// number of the right sign with the same `bits` lowest bits.
pub open spec fn sized_value(v: int, bits: nat, native: nat, signed: bool) -> int {
    if bits >= native {
        v
    } else if signed {
        signed_value(v, bits)
    } else {
        unsigned_value(v, bits)
    }
}

/// The mask of the `bits` lowest bits as a native integer of `native`
/// bits: all ones is -1 for a signed type.
pub open spec fn mask_value(bits: nat, native: nat, signed: bool) -> int {
    if bits >= native {
        if signed {
            -1
        } else {
            pow2(native) - 1
        }
    } else {
        pow2(bits) - 1
    }
}

/// Whether `v` is a value of the native type of `native` bits.
pub open spec fn in_native_range(v: int, native: nat, signed: bool) -> bool {
    if signed {
        native >= 1 && -pow2((native - 1) as nat) <= v < pow2((native - 1) as nat)
    } else {
        0 <= v < pow2(native)
    }
}

/// The value of the native type of `native` bits whose bit pattern is
/// the number `n`.
pub open spec fn native_value(n: int, native: nat, signed: bool) -> int {
    if signed {
        signed_value(n, native)
    } else {
        unsigned_value(n, native)
    }
}

pub proof fn lemma_pow2_8_mul(n: nat)
    ensures
        pow2(8 * (n + 1)) == 256 * pow2(8 * n),
        pow2(8 * n) > 0,
{
    lemma2_to64();
    lemma_pow2_adds(8, 8 * n);
    lemma_pow2_pos(8 * n);
}

pub proof fn lemma_pow2_double(n: nat)
    requires
        n >= 1,
    ensures
        pow2(n) == 2 * pow2((n - 1) as nat),
        pow2((n - 1) as nat) > 0,
{
    lemma2_to64();
    lemma_pow2_adds(1, (n - 1) as nat);
    lemma_pow2_pos((n - 1) as nat);
}

/// Byte `j + 1` of `v` is byte `j` of `v / 256`.
pub proof fn lemma_byte_of_shift(v: int, j: nat)
    requires
        0 <= v,
    ensures
        byte_of(v, j + 1) == byte_of(v / 256, j),
{
    lemma_pow2_8_mul(j);
    lemma_div_denominator(v, 256, pow2(8 * j) as int);
}

/// The bytes of a number spell the number again, as far as they reach.
pub proof fn lemma_be_value_of_be_bytes(v: int, n: nat)
    requires
        0 <= v,
    ensures
        be_value(be_bytes(v, n)) == v % (pow2(8 * n) as int),
    decreases n,
{
    lemma2_to64();
    if n == 0 {
    } else {
        let m = (n - 1) as nat;
        let s = be_bytes(v, n);
        assert(s.drop_last() =~= be_bytes(v / 256, m)) by {
            assert forall|k: int| 0 <= k < m implies s.drop_last()[k] == be_bytes(v / 256, m)[k] by {
                lemma_byte_of_shift(v, (m - 1 - k) as nat);
            }
        }
        lemma_be_value_of_be_bytes(v / 256, m);
        lemma_pow2_8_mul(m);
        lemma_mod_breakdown(v, 256, pow2(8 * m) as int);
        assert(s.last() == byte_of(v, 0));
        assert(pow2(0) == 1);
        assert(v / 1 == v);
        assert(byte_of(v, 0) as int == v % 256);
    }
}

/// The same for the bytes in the other order.
pub proof fn lemma_le_value_of_le_bytes(v: int, n: nat)
    requires
        0 <= v,
    ensures
        le_value(le_bytes(v, n)) == v % (pow2(8 * n) as int),
{
    assert(le_bytes(v, n).reverse() =~= be_bytes(v, n));
    lemma_be_value_of_be_bytes(v, n);
}

/// Bytes spell a number from 0 up to `256^len`.
pub proof fn lemma_be_value_bound(bytes: Seq<u8>)
    ensures
        0 <= be_value(bytes) < pow2(8 * bytes.len()),
    decreases bytes.len(),
{
    lemma2_to64();
    if bytes.len() > 0 {
        lemma_be_value_bound(bytes.drop_last());
        lemma_pow2_8_mul((bytes.len() - 1) as nat);
    }
}

/// Zero bytes in front do not change the number.
pub proof fn lemma_be_value_leading_zeros(k: nat, bytes: Seq<u8>)
    ensures
        be_value(Seq::new(k, |i: int| 0u8) + bytes) == be_value(bytes),
    decreases bytes.len(), k,
{
    let zeros = Seq::new(k, |i: int| 0u8);
    if bytes.len() == 0 {
        assert(zeros + bytes =~= zeros);
        if k > 0 {
            assert(zeros.drop_last() =~= Seq::new((k - 1) as nat, |i: int| 0u8) + bytes);
            lemma_be_value_leading_zeros((k - 1) as nat, bytes);
        }
    } else {
        assert((zeros + bytes).drop_last() =~= zeros + bytes.drop_last());
        lemma_be_value_leading_zeros(k, bytes.drop_last());
    }
}

/// Zero bytes at the end do not change the number spelt from the least
/// significant byte on.
pub proof fn lemma_le_value_trailing_zeros(k: nat, bytes: Seq<u8>)
    ensures
        le_value(bytes + Seq::new(k, |i: int| 0u8)) == le_value(bytes),
{
    let zeros = Seq::new(k, |i: int| 0u8);
    assert((bytes + zeros).reverse() =~= zeros + bytes.reverse());
    lemma_be_value_leading_zeros(k, bytes.reverse());
}

/// Sign extension gives a number of the width's range.
pub proof fn lemma_signed_value_range(v: int, bits: nat)
    requires
        bits >= 1,
    ensures
        -pow2((bits - 1) as nat) <= signed_value(v, bits) < pow2((bits - 1) as nat),
{
    lemma_pow2_double(bits);
    lemma_mod_bound(v, pow2(bits) as int);
}

/// A number of the width's range is what sign extension gives for it.
pub proof fn lemma_signed_value_fixed(v: int, bits: nat)
    requires
        bits >= 1,
        -pow2((bits - 1) as nat) <= v < pow2((bits - 1) as nat),
    ensures
        signed_value(v, bits) == v,
{
    lemma_pow2_double(bits);
    let p = pow2(bits) as int;
    if v >= 0 {
        lemma_small_mod(v as nat, p as nat);
    } else {
        lemma_mod_multiples_vanish(1, v, p);
        lemma_small_mod((v + p) as nat, p as nat);
    }
}

/// A number from 0 up to `2^bits` is its own lowest `bits` bits.
pub proof fn lemma_unsigned_value_fixed(v: int, bits: nat)
    requires
        0 <= v < pow2(bits),
    ensures
        unsigned_value(v, bits) == v,
{
    lemma_small_mod(v as nat, pow2(bits));
}

/// Numbers that differ by a multiple of `2^bits` have the same lowest
/// `bits` bits, whatever their sign.
pub proof fn lemma_values_congruent(a: int, k: int, bits: nat)
    ensures
        unsigned_value(a + k * pow2(bits), bits) == unsigned_value(a, bits),
        signed_value(a + k * pow2(bits), bits) == signed_value(a, bits),
{
    lemma_pow2_pos(bits);
    lemma_mod_multiples_vanish(k, a, pow2(bits) as int);
    assert(pow2(bits) * k == k * pow2(bits)) by (nonlinear_arith);
}


/// Cutting a bit pattern of `native` bits down to fewer bits is cutting
/// the number down.
pub proof fn lemma_pattern_low_bits(v: int, bits: nat, native: nat)
    requires
        bits <= native,
    ensures
        unsigned_value(unsigned_value(v, native), bits) == unsigned_value(v, bits),
        signed_value(unsigned_value(v, native), bits) == signed_value(v, bits),
{
    lemma_pow2_pos(bits);
    lemma_pow2_pos((native - bits) as nat);
    lemma_pow2_adds(bits, (native - bits) as nat);
    lemma_mod_mod(v, pow2(bits) as int, pow2((native - bits) as nat) as int);
}

/// The numbers that one, two, four and eight bytes spell.
pub proof fn lemma_be_value_digits(s: Seq<u8>)
    ensures
        s.len() == 1 ==> be_value(s) == s[0],
        s.len() == 2 ==> be_value(s) == s[0] * 0x100 + s[1],
        s.len() == 4 ==> be_value(s) == s[0] * 0x1000000 + s[1] * 0x10000 + s[2] * 0x100 + s[3],
        s.len() == 8 ==> be_value(s) == s[0] * 0x100000000000000 + s[1] * 0x1000000000000 + s[2]
            * 0x10000000000 + s[3] * 0x100000000 + s[4] * 0x1000000 + s[5] * 0x10000 + s[6] * 0x100
            + s[7],
{
    reveal_with_fuel(be_value, 9);
    if s.len() == 8 {
        let s7 = s.drop_last();
        let s6 = s7.drop_last();
        let s5 = s6.drop_last();
        let s4 = s5.drop_last();
        let s3 = s4.drop_last();
        let s2 = s3.drop_last();
        let s1 = s2.drop_last();
        assert(be_value(s1) == s[0]);
        assert(be_value(s2) == 256 * be_value(s1) + s[1]);
        assert(be_value(s3) == 256 * be_value(s2) + s[2]);
        assert(be_value(s4) == 256 * be_value(s3) + s[3]);
        assert(be_value(s5) == 256 * be_value(s4) + s[4]);
        assert(be_value(s6) == 256 * be_value(s5) + s[5]);
        assert(be_value(s7) == 256 * be_value(s6) + s[6]);
        assert(be_value(s) == 256 * be_value(s7) + s[7]);
    }
}

/// The bytes of a number as quotients by powers of 256.
pub proof fn lemma_byte_of_digits(v: int)
    ensures
        byte_of(v, 0) == v % 256,
        byte_of(v, 1) == (v / 0x100) % 256,
        byte_of(v, 2) == (v / 0x10000) % 256,
        byte_of(v, 3) == (v / 0x1000000) % 256,
        byte_of(v, 4) == (v / 0x100000000) % 256,
        byte_of(v, 5) == (v / 0x10000000000) % 256,
        byte_of(v, 6) == (v / 0x1000000000000) % 256,
        byte_of(v, 7) == (v / 0x100000000000000) % 256,
{
    lemma2_to64();
    lemma2_to64_rest();
    assert(v / 1 == v);
    assert(pow2(8 * 0) == 1);
    assert(pow2(8 * 1) == 0x100);
    assert(pow2(8 * 2) == 0x10000);
    assert(pow2(8 * 3) == 0x1000000);
    assert(pow2(8 * 4) == 0x100000000);
    assert(pow2(8 * 5) == 0x10000000000);
    assert(pow2(8 * 6) == 0x1000000000000);
    assert(pow2(8 * 7) == 0x100000000000000);
}

/// The number with the `n` lowest bits set (all 64 for `n >= 64`).
pub open spec fn spec_ones(n: u64) -> u64 {
    if n == 0 {
        0
    } else if n >= 64 {
        0xFFFF_FFFF_FFFF_FFFFu64
    } else {
        ((1u64 << n) - 1) as u64
    }
}

/// A positive bit mask of the desired width: `ones(1)` is `0b1`,
/// `ones(2)` is `0b11`, `ones(3)` is `0b111`.
pub fn ones(n: u64) -> (r: u64)
    ensures
        r == spec_ones(n),
{
    if n == 0 {
        return 0;
    }
    if n >= 64 {
        return u64::MAX;
    }
    assert((1u64 << n) >= 1) by (bit_vector)
        requires
            n < 64,
    ;
    (1 << n) - 1
}

/// Convert a native platform integer type into a byte array.
pub trait IntegerAsBytes: Sized + Copy {
    /// The byte array type, for instance `[u8; 2]`.
    type AsBytes: ByteArray;

    /// The number that the value holds.
    spec fn as_int(&self) -> int;

    /// The number of bytes of the type.
    spec fn native_bytes() -> nat;

    /// Whether the type holds negative numbers.
    spec fn signed() -> bool;

    /// The value that holds the number `v`, where the type has one.
    spec fn of_int(v: int) -> Self;

    /// A number in the range of the type is held by a value of it.
    proof fn lemma_of_int(v: int)
        requires
            in_native_range(v, 8 * Self::native_bytes(), Self::signed()),
        ensures
            Self::of_int(v).as_int() == v,
    ;

    /// The type has one, two, four or eight bytes, its byte array has as
    /// many, and each value lies in the range of the type.
    proof fn lemma_native(&self)
        ensures
            Self::native_bytes() == 1 || Self::native_bytes() == 2 || Self::native_bytes() == 4
                || Self::native_bytes() == 8,
            <Self::AsBytes as ByteArray>::spec_len() == Self::native_bytes(),
            in_native_range(self.as_int(), 8 * Self::native_bytes(), Self::signed()),
    ;

    /// Values that hold the same number are the same value.
    proof fn lemma_as_int_injective(a: Self, b: Self)
        requires
            a.as_int() == b.as_int(),
        ensures
            a == b,
    ;

    /// Convert into a MSB byte array.
    fn to_msb_bytes(&self) -> (r: Self::AsBytes)
        ensures
            r.bytes() == be_bytes(
                unsigned_value(self.as_int(), 8 * Self::native_bytes()),
                Self::native_bytes(),
            ),
    ;

    /// Convert into a LSB byte array.
    fn to_lsb_bytes(&self) -> (r: Self::AsBytes)
        ensures
            r.bytes() == le_bytes(
                unsigned_value(self.as_int(), 8 * Self::native_bytes()),
                Self::native_bytes(),
            ),
    ;

    /// Convert from a MSB byte array.
    fn from_msb_bytes(bytes: &Self::AsBytes) -> (r: Self)
        ensures
            r.as_int() == native_value(
                be_value(bytes.bytes()),
                8 * Self::native_bytes(),
                Self::signed(),
            ),
    ;

    /// Convert from a LSB byte array.
    fn from_lsb_bytes(bytes: &Self::AsBytes) -> (r: Self)
        ensures
            r.as_int() == native_value(
                le_value(bytes.bytes()),
                8 * Self::native_bytes(),
                Self::signed(),
            ),
    ;
}

/// A native integer that can be cut down to a number of bits.
pub trait SizedPrimitive: IntegerAsBytes {
    /// The value that holds the number `v`, if the type has one.
    fn from_i128(v: i128) -> (r: Option<Self>)
        ensures
            in_native_range(v as int, 8 * Self::native_bytes(), Self::signed()) ==> r == Some(
                Self::of_int(v as int),
            ),
            !in_native_range(v as int, 8 * Self::native_bytes(), Self::signed()) ==> r.is_none(),
    ;

    /// The number that the value holds.
    fn to_i128(&self) -> (r: i128)
        ensures
            r == self.as_int(),
    ;

    /// The bit mask of the `bits` lowest bits. For 8 bits that is 0xFF.
    fn bit_mask(bits: usize) -> (m: Self)
        ensures
            m.as_int() == mask_value(bits as nat, 8 * Self::native_bytes(), Self::signed()),
    ;

    /// Keeps the `bits` lowest bits of `val` and, in a signed type,
    /// extends the sign from the highest of them.
    fn sized(val: Self, bits: usize) -> (r: Self)
        ensures
            r.as_int() == sized_value(
                val.as_int(),
                bits as nat,
                8 * Self::native_bytes(),
                Self::signed(),
            ),
    ;
}

proof fn lemma_u8_bit_facts(v: u8, n: u64, b0: u8)
    by (bit_vector)
    ensures
        ((v >> 0) as u8 & 0xFF) == v,
        v & 0xFFu8 == v,
        (spec_ones(n) as u8) == (if n >= 8 {
            0xFFu8
        } else {
            ((1u8 << n) - 1) as u8
        }),
        (((b0 as u8) << 0)) == b0,
{
}

impl IntegerAsBytes for u8 {
    type AsBytes = [u8; 1];

    open spec fn as_int(&self) -> int {
        *self as int
    }

    open spec fn native_bytes() -> nat {
        1
    }

    open spec fn signed() -> bool {
        false
    }

    open spec fn of_int(v: int) -> Self {
        v as u8
    }

    proof fn lemma_of_int(v: int) {
        lemma2_to64();
        lemma2_to64_rest();
    }

    proof fn lemma_native(&self) {
        lemma2_to64();
    }

    proof fn lemma_as_int_injective(a: Self, b: Self) {
    }

    #[inline]
    fn to_msb_bytes(&self) -> (r: [u8; 1]) {
        let v = *self;
        proof {
            lemma_byte_of_digits(v as int);
            lemma_u8_bit_facts(v, 0, 0);
            lemma_u8_pattern(v);
        }
        let r = [(#[verifier::truncate] ((v >> 0) as u8) & 0xFF)];
        assert(r@ =~= be_bytes(v as int, 1));
        r
    }

    #[inline]
    fn to_lsb_bytes(&self) -> (r: [u8; 1]) {
        let v = *self;
        proof {
            lemma_byte_of_digits(v as int);
            lemma_u8_bit_facts(v, 0, 0);
            lemma_u8_pattern(v);
        }
        let r = [(#[verifier::truncate] ((v >> 0) as u8) & 0xFF)];
        assert(r@ =~= le_bytes(v as int, 1));
        r
    }

    #[inline]
    fn from_msb_bytes(bytes: &[u8; 1]) -> (r: Self) {
        proof {
            lemma2_to64();
            lemma2_to64_rest();
            lemma_u8_bit_facts(0, 0, bytes[0]);
            lemma_be_value_digits(bytes@);
            lemma_be_value_bound(bytes@);
            lemma_unsigned_value_fixed(be_value(bytes@), 8);
        }
        ((bytes[0] as u8) << 0)
    }

    #[inline]
    fn from_lsb_bytes(bytes: &[u8; 1]) -> (r: Self) {
        proof {
            lemma2_to64();
            lemma2_to64_rest();
            lemma_u8_bit_facts(0, 0, bytes[0]);
            lemma_be_value_digits(bytes@.reverse());
            lemma_be_value_bound(bytes@.reverse());
            lemma_unsigned_value_fixed(le_value(bytes@), 8);
        }
        ((bytes[0] as u8) << 0)
    }
}

/// An unsigned number is its own bit pattern.
proof fn lemma_u8_pattern(v: u8)
    ensures
        unsigned_value(v as int, 8) == v,
{
    lemma2_to64();
    lemma2_to64_rest();
    lemma_unsigned_value_fixed(v as int, 8);
}

impl SizedPrimitive for u8 {
    fn from_i128(v: i128) -> (r: Option<Self>) {
        proof {
            lemma2_to64();
            lemma2_to64_rest();
        }
        if 0 <= v && v <= 0xFF {
            Some(v as u8)
        } else {
            None
        }
    }

    fn to_i128(&self) -> (r: i128) {
        *self as i128
    }

    fn bit_mask(bits: usize) -> (m: Self) {
        let n = bits as u64;
        proof {
            lemma2_to64();
            lemma2_to64_rest();
            lemma_u8_bit_facts(0, n, 0);
            if bits < 8 {
                vstd::bits::lemma_u8_pow2_no_overflow(bits as nat);
                vstd::bits::lemma_u8_shl_is_mul(1, bits as u8);
            }
        }
        #[verifier::truncate]
        (ones(n) as u8)
    }

    fn sized(val: Self, bits: usize) -> (r: Self) {
        let m = Self::bit_mask(bits);
        proof {
            lemma_u8_bit_facts(val, 0, 0);
            lemma2_to64();
            lemma2_to64_rest();
            if bits < 8 {
                lemma_pow2_pos(bits as nat);
                vstd::bits::lemma_u8_pow2_no_overflow(bits as nat);
                vstd::bits::lemma_u8_low_bits_mask_is_mod(val, bits as nat);
            }
        }
        val & m
    }
}

proof fn lemma_i8_bit_facts(v: i8, u: u8, n: u64)
    by (bit_vector)
    ensures
        (v as u8) == (if v < 0 {
            v + 0x100
        } else {
            v as int
        }),
        (u as i8) == (if u >= 128 {
            u - 0x100
        } else {
            u as int
        }),
        (spec_ones(n) as i8) == ((spec_ones(n) as u8) as i8),
        1 <= n < 8 ==> ({
            let low = spec_ones(n) as u8;
            let x = v & (low as i8);
            let s = (8 - n) as u64;
            let r = (x << s) >> s;
            let um = (v as u8) & low;
            let half = 1u8 << ((n - 1) as u64);
            r == (if um >= half {
                um - 2 * half
            } else {
                um as int
            })
        }),
{
}

impl IntegerAsBytes for i8 {
    type AsBytes = [u8; 1];

    open spec fn as_int(&self) -> int {
        *self as int
    }

    open spec fn native_bytes() -> nat {
        1
    }

    open spec fn signed() -> bool {
        true
    }

    open spec fn of_int(v: int) -> Self {
        v as i8
    }

    proof fn lemma_of_int(v: int) {
        lemma2_to64();
        lemma2_to64_rest();
    }

    proof fn lemma_native(&self) {
        lemma2_to64();
        lemma2_to64_rest();
    }

    proof fn lemma_as_int_injective(a: Self, b: Self) {
    }

    #[inline]
    fn to_msb_bytes(&self) -> (r: [u8; 1]) {
        proof {
            lemma_i8_pattern(*self);
        }
        (#[verifier::truncate] (*self as u8)).to_msb_bytes()
    }

    #[inline]
    fn to_lsb_bytes(&self) -> (r: [u8; 1]) {
        proof {
            lemma_i8_pattern(*self);
        }
        (#[verifier::truncate] (*self as u8)).to_lsb_bytes()
    }

    #[inline]
    fn from_msb_bytes(bytes: &[u8; 1]) -> (r: Self) {
        let u = u8::from_msb_bytes(bytes);
        proof {
            lemma_i8_of_pattern(u);
            lemma_be_value_bound(bytes@);
            lemma_unsigned_value_fixed(be_value(bytes@), 8);
        }
        #[verifier::truncate]
        (u as i8)
    }

    #[inline]
    fn from_lsb_bytes(bytes: &[u8; 1]) -> (r: Self) {
        let u = u8::from_lsb_bytes(bytes);
        proof {
            lemma_i8_of_pattern(u);
            lemma_be_value_bound(bytes@.reverse());
            lemma_unsigned_value_fixed(le_value(bytes@), 8);
        }
        #[verifier::truncate]
        (u as i8)
    }
}

/// The bit pattern of a signed number is the number modulo `2^8`.
proof fn lemma_i8_pattern(v: i8)
    ensures
        (v as u8) as int == unsigned_value(v as int, 8),
        unsigned_value((v as u8) as int, 8) == (v as u8) as int,
{
    lemma_u8_pattern(v as u8);
    lemma2_to64();
    lemma2_to64_rest();
    lemma_i8_bit_facts(v, 0, 0);
    if v < 0 {
        lemma_values_congruent(v as int, 1, 8);
        lemma_unsigned_value_fixed(v + 0x100, 8);
    } else {
        lemma_unsigned_value_fixed(v as int, 8);
    }
}

/// The signed number of a bit pattern is its sign extension.
proof fn lemma_i8_of_pattern(u: u8)
    ensures
        (u as i8) as int == signed_value(u as int, 8),
{
    lemma2_to64();
    lemma2_to64_rest();
    lemma_i8_bit_facts(0, u, 0);
    lemma_unsigned_value_fixed(u as int, 8);
}

impl SizedPrimitive for i8 {
    fn from_i128(v: i128) -> (r: Option<Self>) {
        proof {
            lemma2_to64();
            lemma2_to64_rest();
        }
        if -128 <= v && v < 128 {
            Some(v as i8)
        } else {
            None
        }
    }

    fn to_i128(&self) -> (r: i128) {
        *self as i128
    }

    fn bit_mask(bits: usize) -> (m: Self) {
        let n = bits as u64;
        proof {
            lemma2_to64();
            lemma2_to64_rest();
            lemma_i8_bit_facts(0, spec_ones(n) as u8, n);
            lemma_u8_bit_facts(0, n, 0);
            if bits < 8 {
                vstd::bits::lemma_u8_pow2_no_overflow(bits as nat);
                vstd::bits::lemma_u8_shl_is_mul(1, bits as u8);
                lemma_pow2_strictly_increases(bits as nat, 8);
                if bits < 7 {
                    lemma_pow2_strictly_increases(bits as nat, 7);
                }
            }
        }
        #[verifier::truncate]
        (ones(n) as i8)
    }

    fn sized(val: Self, bits: usize) -> (r: Self) {
        if bits == 0 {
            proof {
                lemma2_to64();
            }
            return 0;
        }
        if bits >= 8 {
            return val;
        }
        let m = Self::bit_mask(bits);
        let v = val & m;
        let s = 8 - bits;
        proof {
            let n = bits as u64;
            lemma2_to64();
            lemma2_to64_rest();
            lemma_i8_bit_facts(val, 0, n);
            lemma_u8_bit_facts(0, n, 0);
            lemma_i8_pattern(val);
            let pat = val as u8;
            vstd::bits::lemma_u8_pow2_no_overflow(bits as nat);
            vstd::bits::lemma_u8_pow2_no_overflow((bits - 1) as nat);
            vstd::bits::lemma_u8_shl_is_mul(1, bits as u8);
            vstd::bits::lemma_u8_shl_is_mul(1, (bits - 1) as u8);
            vstd::bits::lemma_u8_low_bits_mask_is_mod(pat, bits as nat);
            lemma_pow2_double(bits as nat);
            lemma_pattern_low_bits(val as int, bits as nat, 8);
        }
        (v << s) >> s
    }
}

proof fn lemma_u16_bit_facts(v: u16, n: u64, b0: u8, b1: u8)
    by (bit_vector)
    ensures
        ((v >> 8) as u8 & 0xFF) == (v / 0x100) % 256,
        ((v >> 0) as u8 & 0xFF) == v % 256,
        v & 0xFFFFu16 == v,
        (spec_ones(n) as u16) == (if n >= 16 {
            0xFFFFu16
        } else {
            ((1u16 << n) - 1) as u16
        }),
        (((b0 as u16) << 8) | ((b1 as u16) << 0)) == b0 * 0x100 + b1,
{
}

impl IntegerAsBytes for u16 {
    type AsBytes = [u8; 2];

    open spec fn as_int(&self) -> int {
        *self as int
    }

    open spec fn native_bytes() -> nat {
        2
    }

    open spec fn signed() -> bool {
        false
    }

    open spec fn of_int(v: int) -> Self {
        v as u16
    }

    proof fn lemma_of_int(v: int) {
        lemma2_to64();
        lemma2_to64_rest();
    }

    proof fn lemma_native(&self) {
        lemma2_to64();
    }

    proof fn lemma_as_int_injective(a: Self, b: Self) {
    }

    #[inline]
    fn to_msb_bytes(&self) -> (r: [u8; 2]) {
        let v = *self;
        proof {
            lemma_byte_of_digits(v as int);
            lemma_u16_bit_facts(v, 0, 0, 0);
            lemma_u16_pattern(v);
        }
        let r = [(#[verifier::truncate] ((v >> 8) as u8) & 0xFF), (#[verifier::truncate] ((v >> 0) as u8) & 0xFF)];
        assert(r@ =~= be_bytes(v as int, 2));
        r
    }

    #[inline]
    fn to_lsb_bytes(&self) -> (r: [u8; 2]) {
        let v = *self;
        proof {
            lemma_byte_of_digits(v as int);
            lemma_u16_bit_facts(v, 0, 0, 0);
            lemma_u16_pattern(v);
        }
        let r = [(#[verifier::truncate] ((v >> 0) as u8) & 0xFF), (#[verifier::truncate] ((v >> 8) as u8) & 0xFF)];
        assert(r@ =~= le_bytes(v as int, 2));
        r
    }

    #[inline]
    fn from_msb_bytes(bytes: &[u8; 2]) -> (r: Self) {
        proof {
            lemma2_to64();
            lemma2_to64_rest();
            lemma_u16_bit_facts(0, 0, bytes[0], bytes[1]);
            lemma_be_value_digits(bytes@);
            lemma_be_value_bound(bytes@);
            lemma_unsigned_value_fixed(be_value(bytes@), 16);
        }
        ((bytes[0] as u16) << 8) | ((bytes[1] as u16) << 0)
    }

    #[inline]
    fn from_lsb_bytes(bytes: &[u8; 2]) -> (r: Self) {
        proof {
            lemma2_to64();
            lemma2_to64_rest();
            lemma_u16_bit_facts(0, 0, bytes[1], bytes[0]);
            lemma_be_value_digits(bytes@.reverse());
            lemma_be_value_bound(bytes@.reverse());
            lemma_unsigned_value_fixed(le_value(bytes@), 16);
        }
        ((bytes[1] as u16) << 8) | ((bytes[0] as u16) << 0)
    }
}

/// An unsigned number is its own bit pattern.
proof fn lemma_u16_pattern(v: u16)
    ensures
        unsigned_value(v as int, 16) == v,
{
    lemma2_to64();
    lemma2_to64_rest();
    lemma_unsigned_value_fixed(v as int, 16);
}

impl SizedPrimitive for u16 {
    fn from_i128(v: i128) -> (r: Option<Self>) {
        proof {
            lemma2_to64();
            lemma2_to64_rest();
        }
        if 0 <= v && v <= 0xFFFF {
            Some(v as u16)
        } else {
            None
        }
    }

    fn to_i128(&self) -> (r: i128) {
        *self as i128
    }

    fn bit_mask(bits: usize) -> (m: Self) {
        let n = bits as u64;
        proof {
            lemma2_to64();
            lemma2_to64_rest();
            lemma_u16_bit_facts(0, n, 0, 0);
            if bits < 16 {
                vstd::bits::lemma_u16_pow2_no_overflow(bits as nat);
                vstd::bits::lemma_u16_shl_is_mul(1, bits as u16);
            }
        }
        #[verifier::truncate]
        (ones(n) as u16)
    }

    fn sized(val: Self, bits: usize) -> (r: Self) {
        let m = Self::bit_mask(bits);
        proof {
            lemma_u16_bit_facts(val, 0, 0, 0);
            lemma2_to64();
            lemma2_to64_rest();
            if bits < 16 {
                lemma_pow2_pos(bits as nat);
                vstd::bits::lemma_u16_pow2_no_overflow(bits as nat);
                vstd::bits::lemma_u16_low_bits_mask_is_mod(val, bits as nat);
            }
        }
        val & m
    }
}

proof fn lemma_i16_bit_facts(v: i16, u: u16, n: u64)
    by (bit_vector)
    ensures
        (v as u16) == (if v < 0 {
            v + 0x10000
        } else {
            v as int
        }),
        (u as i16) == (if u >= 0x8000 {
            u - 0x10000
        } else {
            u as int
        }),
        (spec_ones(n) as i16) == ((spec_ones(n) as u16) as i16),
        1 <= n < 16 ==> ({
            let low = spec_ones(n) as u16;
            let x = v & (low as i16);
            let s = (16 - n) as u64;
            let r = (x << s) >> s;
            let um = (v as u16) & low;
            let half = 1u16 << ((n - 1) as u64);
            r == (if um >= half {
                um - 2 * half
            } else {
                um as int
            })
        }),
{
}

impl IntegerAsBytes for i16 {
    type AsBytes = [u8; 2];

    open spec fn as_int(&self) -> int {
        *self as int
    }

    open spec fn native_bytes() -> nat {
        2
    }

    open spec fn signed() -> bool {
        true
    }

    open spec fn of_int(v: int) -> Self {
        v as i16
    }

    proof fn lemma_of_int(v: int) {
        lemma2_to64();
        lemma2_to64_rest();
    }

    proof fn lemma_native(&self) {
        lemma2_to64();
        lemma2_to64_rest();
    }

    proof fn lemma_as_int_injective(a: Self, b: Self) {
    }

    #[inline]
    fn to_msb_bytes(&self) -> (r: [u8; 2]) {
        proof {
            lemma_i16_pattern(*self);
        }
        (#[verifier::truncate] (*self as u16)).to_msb_bytes()
    }

    #[inline]
    fn to_lsb_bytes(&self) -> (r: [u8; 2]) {
        proof {
            lemma_i16_pattern(*self);
        }
        (#[verifier::truncate] (*self as u16)).to_lsb_bytes()
    }

    #[inline]
    fn from_msb_bytes(bytes: &[u8; 2]) -> (r: Self) {
        let u = u16::from_msb_bytes(bytes);
        proof {
            lemma_i16_of_pattern(u);
            lemma_be_value_bound(bytes@);
            lemma_unsigned_value_fixed(be_value(bytes@), 16);
        }
        #[verifier::truncate]
        (u as i16)
    }

    #[inline]
    fn from_lsb_bytes(bytes: &[u8; 2]) -> (r: Self) {
        let u = u16::from_lsb_bytes(bytes);
        proof {
            lemma_i16_of_pattern(u);
            lemma_be_value_bound(bytes@.reverse());
            lemma_unsigned_value_fixed(le_value(bytes@), 16);
        }
        #[verifier::truncate]
        (u as i16)
    }
}

/// The bit pattern of a signed number is the number modulo `2^16`.
proof fn lemma_i16_pattern(v: i16)
    ensures
        (v as u16) as int == unsigned_value(v as int, 16),
        unsigned_value((v as u16) as int, 16) == (v as u16) as int,
{
    lemma_u16_pattern(v as u16);
    lemma2_to64();
    lemma2_to64_rest();
    lemma_i16_bit_facts(v, 0, 0);
    if v < 0 {
        lemma_values_congruent(v as int, 1, 16);
        lemma_unsigned_value_fixed(v + 0x10000, 16);
    } else {
        lemma_unsigned_value_fixed(v as int, 16);
    }
}

/// The signed number of a bit pattern is its sign extension.
proof fn lemma_i16_of_pattern(u: u16)
    ensures
        (u as i16) as int == signed_value(u as int, 16),
{
    lemma2_to64();
    lemma2_to64_rest();
    lemma_i16_bit_facts(0, u, 0);
    lemma_unsigned_value_fixed(u as int, 16);
}

impl SizedPrimitive for i16 {
    fn from_i128(v: i128) -> (r: Option<Self>) {
        proof {
            lemma2_to64();
            lemma2_to64_rest();
        }
        if -0x8000 <= v && v < 0x8000 {
            Some(v as i16)
        } else {
            None
        }
    }

    fn to_i128(&self) -> (r: i128) {
        *self as i128
    }

    fn bit_mask(bits: usize) -> (m: Self) {
        let n = bits as u64;
        proof {
            lemma2_to64();
            lemma2_to64_rest();
            lemma_i16_bit_facts(0, spec_ones(n) as u16, n);
            lemma_u16_bit_facts(0, n, 0, 0);
            if bits < 16 {
                vstd::bits::lemma_u16_pow2_no_overflow(bits as nat);
                vstd::bits::lemma_u16_shl_is_mul(1, bits as u16);
                lemma_pow2_strictly_increases(bits as nat, 16);
                if bits < 15 {
                    lemma_pow2_strictly_increases(bits as nat, 15);
                }
            }
        }
        #[verifier::truncate]
        (ones(n) as i16)
    }

    fn sized(val: Self, bits: usize) -> (r: Self) {
        if bits == 0 {
            proof {
                lemma2_to64();
            }
            return 0;
        }
        if bits >= 16 {
            return val;
        }
        let m = Self::bit_mask(bits);
        let v = val & m;
        let s = 16 - bits;
        proof {
            let n = bits as u64;
            lemma2_to64();
            lemma2_to64_rest();
            lemma_i16_bit_facts(val, 0, n);
            lemma_u16_bit_facts(0, n, 0, 0);
            lemma_i16_pattern(val);
            let pat = val as u16;
            vstd::bits::lemma_u16_pow2_no_overflow(bits as nat);
            vstd::bits::lemma_u16_pow2_no_overflow((bits - 1) as nat);
            vstd::bits::lemma_u16_shl_is_mul(1, bits as u16);
            vstd::bits::lemma_u16_shl_is_mul(1, (bits - 1) as u16);
            vstd::bits::lemma_u16_low_bits_mask_is_mod(pat, bits as nat);
            lemma_pow2_double(bits as nat);
            lemma_pattern_low_bits(val as int, bits as nat, 16);
        }
        (v << s) >> s
    }
}

proof fn lemma_u32_bit_facts(v: u32, n: u64, b0: u8, b1: u8, b2: u8, b3: u8)
    by (bit_vector)
    ensures
        ((v >> 24) as u8 & 0xFF) == (v / 0x1000000) % 256,
        ((v >> 16) as u8 & 0xFF) == (v / 0x10000) % 256,
        ((v >> 8) as u8 & 0xFF) == (v / 0x100) % 256,
        ((v >> 0) as u8 & 0xFF) == v % 256,
        v & 0xFFFFFFFFu32 == v,
        (spec_ones(n) as u32) == (if n >= 32 {
            0xFFFFFFFFu32
        } else {
            ((1u32 << n) - 1) as u32
        }),
        (((b0 as u32) << 24) | ((b1 as u32) << 16) | ((b2 as u32) << 8) | ((b3 as u32) << 0)) == b0 * 0x1000000 + b1 * 0x10000 + b2 * 0x100 + b3,
{
}

impl IntegerAsBytes for u32 {
    type AsBytes = [u8; 4];

    open spec fn as_int(&self) -> int {
        *self as int
    }

    open spec fn native_bytes() -> nat {
        4
    }

    open spec fn signed() -> bool {
        false
    }

    open spec fn of_int(v: int) -> Self {
        v as u32
    }

    proof fn lemma_of_int(v: int) {
        lemma2_to64();
        lemma2_to64_rest();
    }

    proof fn lemma_native(&self) {
        lemma2_to64();
    }

    proof fn lemma_as_int_injective(a: Self, b: Self) {
    }

    #[inline]
    fn to_msb_bytes(&self) -> (r: [u8; 4]) {
        let v = *self;
        proof {
            lemma_byte_of_digits(v as int);
            lemma_u32_bit_facts(v, 0, 0, 0, 0, 0);
            lemma_u32_pattern(v);
        }
        let r = [(#[verifier::truncate] ((v >> 24) as u8) & 0xFF), (#[verifier::truncate] ((v >> 16) as u8) & 0xFF), (#[verifier::truncate] ((v >> 8) as u8) & 0xFF), (#[verifier::truncate] ((v >> 0) as u8) & 0xFF)];
        assert(r@ =~= be_bytes(v as int, 4));
        r
    }

    #[inline]
    fn to_lsb_bytes(&self) -> (r: [u8; 4]) {
        let v = *self;
        proof {
            lemma_byte_of_digits(v as int);
            lemma_u32_bit_facts(v, 0, 0, 0, 0, 0);
            lemma_u32_pattern(v);
        }
        let r = [(#[verifier::truncate] ((v >> 0) as u8) & 0xFF), (#[verifier::truncate] ((v >> 8) as u8) & 0xFF), (#[verifier::truncate] ((v >> 16) as u8) & 0xFF), (#[verifier::truncate] ((v >> 24) as u8) & 0xFF)];
        assert(r@ =~= le_bytes(v as int, 4));
        r
    }

    #[inline]
    fn from_msb_bytes(bytes: &[u8; 4]) -> (r: Self) {
        proof {
            lemma2_to64();
            lemma2_to64_rest();
            lemma_u32_bit_facts(0, 0, bytes[0], bytes[1], bytes[2], bytes[3]);
            lemma_be_value_digits(bytes@);
            lemma_be_value_bound(bytes@);
            lemma_unsigned_value_fixed(be_value(bytes@), 32);
        }
        ((bytes[0] as u32) << 24) | ((bytes[1] as u32) << 16) | ((bytes[2] as u32) << 8) | ((bytes[3] as u32) << 0)
    }

    #[inline]
    fn from_lsb_bytes(bytes: &[u8; 4]) -> (r: Self) {
        proof {
            lemma2_to64();
            lemma2_to64_rest();
            lemma_u32_bit_facts(0, 0, bytes[3], bytes[2], bytes[1], bytes[0]);
            lemma_be_value_digits(bytes@.reverse());
            lemma_be_value_bound(bytes@.reverse());
            lemma_unsigned_value_fixed(le_value(bytes@), 32);
        }
        ((bytes[3] as u32) << 24) | ((bytes[2] as u32) << 16) | ((bytes[1] as u32) << 8) | ((bytes[0] as u32) << 0)
    }
}

/// An unsigned number is its own bit pattern.
proof fn lemma_u32_pattern(v: u32)
    ensures
        unsigned_value(v as int, 32) == v,
{
    lemma2_to64();
    lemma2_to64_rest();
    lemma_unsigned_value_fixed(v as int, 32);
}

impl SizedPrimitive for u32 {
    fn from_i128(v: i128) -> (r: Option<Self>) {
        proof {
            lemma2_to64();
            lemma2_to64_rest();
        }
        if 0 <= v && v <= 0xFFFFFFFF {
            Some(v as u32)
        } else {
            None
        }
    }

    fn to_i128(&self) -> (r: i128) {
        *self as i128
    }

    fn bit_mask(bits: usize) -> (m: Self) {
        let n = bits as u64;
        proof {
            lemma2_to64();
            lemma2_to64_rest();
            lemma_u32_bit_facts(0, n, 0, 0, 0, 0);
            if bits < 32 {
                vstd::bits::lemma_u32_pow2_no_overflow(bits as nat);
                vstd::bits::lemma_u32_shl_is_mul(1, bits as u32);
            }
        }
        #[verifier::truncate]
        (ones(n) as u32)
    }

    fn sized(val: Self, bits: usize) -> (r: Self) {
        let m = Self::bit_mask(bits);
        proof {
            lemma_u32_bit_facts(val, 0, 0, 0, 0, 0);
            lemma2_to64();
            lemma2_to64_rest();
            if bits < 32 {
                lemma_pow2_pos(bits as nat);
                vstd::bits::lemma_u32_pow2_no_overflow(bits as nat);
                vstd::bits::lemma_u32_low_bits_mask_is_mod(val, bits as nat);
            }
        }
        val & m
    }
}

proof fn lemma_i32_bit_facts(v: i32, u: u32, n: u64)
    by (bit_vector)
    ensures
        (v as u32) == (if v < 0 {
            v + 0x100000000
        } else {
            v as int
        }),
        (u as i32) == (if u >= 0x80000000 {
            u - 0x100000000
        } else {
            u as int
        }),
        (spec_ones(n) as i32) == ((spec_ones(n) as u32) as i32),
        1 <= n < 32 ==> ({
            let low = spec_ones(n) as u32;
            let x = v & (low as i32);
            let s = (32 - n) as u64;
            let r = (x << s) >> s;
            let um = (v as u32) & low;
            let half = 1u32 << ((n - 1) as u64);
            r == (if um >= half {
                um - 2 * half
            } else {
                um as int
            })
        }),
{
}

impl IntegerAsBytes for i32 {
    type AsBytes = [u8; 4];

    open spec fn as_int(&self) -> int {
        *self as int
    }

    open spec fn native_bytes() -> nat {
        4
    }

    open spec fn signed() -> bool {
        true
    }

    open spec fn of_int(v: int) -> Self {
        v as i32
    }

    proof fn lemma_of_int(v: int) {
        lemma2_to64();
        lemma2_to64_rest();
    }

    proof fn lemma_native(&self) {
        lemma2_to64();
        lemma2_to64_rest();
    }

    proof fn lemma_as_int_injective(a: Self, b: Self) {
    }

    #[inline]
    fn to_msb_bytes(&self) -> (r: [u8; 4]) {
        proof {
            lemma_i32_pattern(*self);
        }
        (#[verifier::truncate] (*self as u32)).to_msb_bytes()
    }

    #[inline]
    fn to_lsb_bytes(&self) -> (r: [u8; 4]) {
        proof {
            lemma_i32_pattern(*self);
        }
        (#[verifier::truncate] (*self as u32)).to_lsb_bytes()
    }

    #[inline]
    fn from_msb_bytes(bytes: &[u8; 4]) -> (r: Self) {
        let u = u32::from_msb_bytes(bytes);
        proof {
            lemma_i32_of_pattern(u);
            lemma_be_value_bound(bytes@);
            lemma_unsigned_value_fixed(be_value(bytes@), 32);
        }
        #[verifier::truncate]
        (u as i32)
    }

    #[inline]
    fn from_lsb_bytes(bytes: &[u8; 4]) -> (r: Self) {
        let u = u32::from_lsb_bytes(bytes);
        proof {
            lemma_i32_of_pattern(u);
            lemma_be_value_bound(bytes@.reverse());
            lemma_unsigned_value_fixed(le_value(bytes@), 32);
        }
        #[verifier::truncate]
        (u as i32)
    }
}

/// The bit pattern of a signed number is the number modulo `2^32`.
proof fn lemma_i32_pattern(v: i32)
    ensures
        (v as u32) as int == unsigned_value(v as int, 32),
        unsigned_value((v as u32) as int, 32) == (v as u32) as int,
{
    lemma_u32_pattern(v as u32);
    lemma2_to64();
    lemma2_to64_rest();
    lemma_i32_bit_facts(v, 0, 0);
    if v < 0 {
        lemma_values_congruent(v as int, 1, 32);
        lemma_unsigned_value_fixed(v + 0x100000000, 32);
    } else {
        lemma_unsigned_value_fixed(v as int, 32);
    }
}

/// The signed number of a bit pattern is its sign extension.
proof fn lemma_i32_of_pattern(u: u32)
    ensures
        (u as i32) as int == signed_value(u as int, 32),
{
    lemma2_to64();
    lemma2_to64_rest();
    lemma_i32_bit_facts(0, u, 0);
    lemma_unsigned_value_fixed(u as int, 32);
}

impl SizedPrimitive for i32 {
    fn from_i128(v: i128) -> (r: Option<Self>) {
        proof {
            lemma2_to64();
            lemma2_to64_rest();
        }
        if -0x80000000 <= v && v < 0x80000000 {
            Some(v as i32)
        } else {
            None
        }
    }

    fn to_i128(&self) -> (r: i128) {
        *self as i128
    }

    fn bit_mask(bits: usize) -> (m: Self) {
        let n = bits as u64;
        proof {
            lemma2_to64();
            lemma2_to64_rest();
            lemma_i32_bit_facts(0, spec_ones(n) as u32, n);
            lemma_u32_bit_facts(0, n, 0, 0, 0, 0);
            if bits < 32 {
                vstd::bits::lemma_u32_pow2_no_overflow(bits as nat);
                vstd::bits::lemma_u32_shl_is_mul(1, bits as u32);
                lemma_pow2_strictly_increases(bits as nat, 32);
                if bits < 31 {
                    lemma_pow2_strictly_increases(bits as nat, 31);
                }
            }
        }
        #[verifier::truncate]
        (ones(n) as i32)
    }

    fn sized(val: Self, bits: usize) -> (r: Self) {
        if bits == 0 {
            proof {
                lemma2_to64();
            }
            return 0;
        }
        if bits >= 32 {
            return val;
        }
        let m = Self::bit_mask(bits);
        let v = val & m;
        let s = 32 - bits;
        proof {
            let n = bits as u64;
            lemma2_to64();
            lemma2_to64_rest();
            lemma_i32_bit_facts(val, 0, n);
            lemma_u32_bit_facts(0, n, 0, 0, 0, 0);
            lemma_i32_pattern(val);
            let pat = val as u32;
            vstd::bits::lemma_u32_pow2_no_overflow(bits as nat);
            vstd::bits::lemma_u32_pow2_no_overflow((bits - 1) as nat);
            vstd::bits::lemma_u32_shl_is_mul(1, bits as u32);
            vstd::bits::lemma_u32_shl_is_mul(1, (bits - 1) as u32);
            vstd::bits::lemma_u32_low_bits_mask_is_mod(pat, bits as nat);
            lemma_pow2_double(bits as nat);
            lemma_pattern_low_bits(val as int, bits as nat, 32);
        }
        (v << s) >> s
    }
}

proof fn lemma_u64_bit_facts(v: u64, n: u64, b0: u8, b1: u8, b2: u8, b3: u8, b4: u8, b5: u8, b6: u8, b7: u8)
    by (bit_vector)
    ensures
        ((v >> 56) as u8 & 0xFF) == (v / 0x100000000000000) % 256,
        ((v >> 48) as u8 & 0xFF) == (v / 0x1000000000000) % 256,
        ((v >> 40) as u8 & 0xFF) == (v / 0x10000000000) % 256,
        ((v >> 32) as u8 & 0xFF) == (v / 0x100000000) % 256,
        ((v >> 24) as u8 & 0xFF) == (v / 0x1000000) % 256,
        ((v >> 16) as u8 & 0xFF) == (v / 0x10000) % 256,
        ((v >> 8) as u8 & 0xFF) == (v / 0x100) % 256,
        ((v >> 0) as u8 & 0xFF) == v % 256,
        v & 0xFFFFFFFFFFFFFFFFu64 == v,
        (spec_ones(n) as u64) == (if n >= 64 {
            0xFFFFFFFFFFFFFFFFu64
        } else {
            ((1u64 << n) - 1) as u64
        }),
        (((b0 as u64) << 56) | ((b1 as u64) << 48) | ((b2 as u64) << 40) | ((b3 as u64) << 32) | ((b4 as u64) << 24) | ((b5 as u64) << 16) | ((b6 as u64) << 8) | ((b7 as u64) << 0)) == b0 * 0x100000000000000 + b1 * 0x1000000000000 + b2 * 0x10000000000 + b3 * 0x100000000 + b4 * 0x1000000 + b5 * 0x10000 + b6 * 0x100 + b7,
{
}

impl IntegerAsBytes for u64 {
    type AsBytes = [u8; 8];

    open spec fn as_int(&self) -> int {
        *self as int
    }

    open spec fn native_bytes() -> nat {
        8
    }

    open spec fn signed() -> bool {
        false
    }

    open spec fn of_int(v: int) -> Self {
        v as u64
    }

    proof fn lemma_of_int(v: int) {
        lemma2_to64();
        lemma2_to64_rest();
    }

    proof fn lemma_native(&self) {
        lemma2_to64();
    }

    proof fn lemma_as_int_injective(a: Self, b: Self) {
    }

    #[inline]
    fn to_msb_bytes(&self) -> (r: [u8; 8]) {
        let v = *self;
        proof {
            lemma_byte_of_digits(v as int);
            lemma_u64_bit_facts(v, 0, 0, 0, 0, 0, 0, 0, 0, 0);
            lemma_u64_pattern(v);
        }
        let r = [(#[verifier::truncate] ((v >> 56) as u8) & 0xFF), (#[verifier::truncate] ((v >> 48) as u8) & 0xFF), (#[verifier::truncate] ((v >> 40) as u8) & 0xFF), (#[verifier::truncate] ((v >> 32) as u8) & 0xFF), (#[verifier::truncate] ((v >> 24) as u8) & 0xFF), (#[verifier::truncate] ((v >> 16) as u8) & 0xFF), (#[verifier::truncate] ((v >> 8) as u8) & 0xFF), (#[verifier::truncate] ((v >> 0) as u8) & 0xFF)];
        assert(r@ =~= be_bytes(v as int, 8));
        r
    }

    #[inline]
    fn to_lsb_bytes(&self) -> (r: [u8; 8]) {
        let v = *self;
        proof {
            lemma_byte_of_digits(v as int);
            lemma_u64_bit_facts(v, 0, 0, 0, 0, 0, 0, 0, 0, 0);
            lemma_u64_pattern(v);
        }
        let r = [(#[verifier::truncate] ((v >> 0) as u8) & 0xFF), (#[verifier::truncate] ((v >> 8) as u8) & 0xFF), (#[verifier::truncate] ((v >> 16) as u8) & 0xFF), (#[verifier::truncate] ((v >> 24) as u8) & 0xFF), (#[verifier::truncate] ((v >> 32) as u8) & 0xFF), (#[verifier::truncate] ((v >> 40) as u8) & 0xFF), (#[verifier::truncate] ((v >> 48) as u8) & 0xFF), (#[verifier::truncate] ((v >> 56) as u8) & 0xFF)];
        assert(r@ =~= le_bytes(v as int, 8));
        r
    }

    #[inline]
    fn from_msb_bytes(bytes: &[u8; 8]) -> (r: Self) {
        proof {
            lemma2_to64();
            lemma2_to64_rest();
            lemma_u64_bit_facts(0, 0, bytes[0], bytes[1], bytes[2], bytes[3], bytes[4], bytes[5], bytes[6], bytes[7]);
            lemma_be_value_digits(bytes@);
            lemma_be_value_bound(bytes@);
            lemma_unsigned_value_fixed(be_value(bytes@), 64);
        }
        ((bytes[0] as u64) << 56) | ((bytes[1] as u64) << 48) | ((bytes[2] as u64) << 40) | ((bytes[3] as u64) << 32) | ((bytes[4] as u64) << 24) | ((bytes[5] as u64) << 16) | ((bytes[6] as u64) << 8) | ((bytes[7] as u64) << 0)
    }

    #[inline]
    fn from_lsb_bytes(bytes: &[u8; 8]) -> (r: Self) {
        proof {
            lemma2_to64();
            lemma2_to64_rest();
            lemma_u64_bit_facts(0, 0, bytes[7], bytes[6], bytes[5], bytes[4], bytes[3], bytes[2], bytes[1], bytes[0]);
            lemma_be_value_digits(bytes@.reverse());
            lemma_be_value_bound(bytes@.reverse());
            lemma_unsigned_value_fixed(le_value(bytes@), 64);
        }
        ((bytes[7] as u64) << 56) | ((bytes[6] as u64) << 48) | ((bytes[5] as u64) << 40) | ((bytes[4] as u64) << 32) | ((bytes[3] as u64) << 24) | ((bytes[2] as u64) << 16) | ((bytes[1] as u64) << 8) | ((bytes[0] as u64) << 0)
    }
}

/// An unsigned number is its own bit pattern.
proof fn lemma_u64_pattern(v: u64)
    ensures
        unsigned_value(v as int, 64) == v,
{
    lemma2_to64();
    lemma2_to64_rest();
    lemma_unsigned_value_fixed(v as int, 64);
}

impl SizedPrimitive for u64 {
    fn from_i128(v: i128) -> (r: Option<Self>) {
        proof {
            lemma2_to64();
            lemma2_to64_rest();
        }
        if 0 <= v && v <= 0xFFFFFFFFFFFFFFFF {
            Some(v as u64)
        } else {
            None
        }
    }

    fn to_i128(&self) -> (r: i128) {
        *self as i128
    }

    fn bit_mask(bits: usize) -> (m: Self) {
        let n = bits as u64;
        proof {
            lemma2_to64();
            lemma2_to64_rest();
            lemma_u64_bit_facts(0, n, 0, 0, 0, 0, 0, 0, 0, 0);
            if bits < 64 {
                vstd::bits::lemma_u64_pow2_no_overflow(bits as nat);
                vstd::bits::lemma_u64_shl_is_mul(1, bits as u64);
            }
        }
        #[verifier::truncate]
        (ones(n) as u64)
    }

    fn sized(val: Self, bits: usize) -> (r: Self) {
        let m = Self::bit_mask(bits);
        proof {
            lemma_u64_bit_facts(val, 0, 0, 0, 0, 0, 0, 0, 0, 0);
            lemma2_to64();
            lemma2_to64_rest();
            if bits < 64 {
                lemma_pow2_pos(bits as nat);
                vstd::bits::lemma_u64_pow2_no_overflow(bits as nat);
                vstd::bits::lemma_u64_low_bits_mask_is_mod(val, bits as nat);
            }
        }
        val & m
    }
}

proof fn lemma_i64_bit_facts(v: i64, u: u64, n: u64)
    by (bit_vector)
    ensures
        (v as u64) == (if v < 0 {
            v + 0x10000000000000000
        } else {
            v as int
        }),
        (u as i64) == (if u >= 0x8000000000000000 {
            u - 0x10000000000000000
        } else {
            u as int
        }),
        (spec_ones(n) as i64) == ((spec_ones(n) as u64) as i64),
        1 <= n < 64 ==> ({
            let low = spec_ones(n) as u64;
            let x = v & (low as i64);
            let s = (64 - n) as u64;
            let r = (x << s) >> s;
            let um = (v as u64) & low;
            let half = 1u64 << ((n - 1) as u64);
            r == (if um >= half {
                um - 2 * half
            } else {
                um as int
            })
        }),
{
}

impl IntegerAsBytes for i64 {
    type AsBytes = [u8; 8];

    open spec fn as_int(&self) -> int {
        *self as int
    }

    open spec fn native_bytes() -> nat {
        8
    }

    open spec fn signed() -> bool {
        true
    }

    open spec fn of_int(v: int) -> Self {
        v as i64
    }

    proof fn lemma_of_int(v: int) {
        lemma2_to64();
        lemma2_to64_rest();
    }

    proof fn lemma_native(&self) {
        lemma2_to64();
        lemma2_to64_rest();
    }

    proof fn lemma_as_int_injective(a: Self, b: Self) {
    }

    #[inline]
    fn to_msb_bytes(&self) -> (r: [u8; 8]) {
        proof {
            lemma_i64_pattern(*self);
        }
        (#[verifier::truncate] (*self as u64)).to_msb_bytes()
    }

    #[inline]
    fn to_lsb_bytes(&self) -> (r: [u8; 8]) {
        proof {
            lemma_i64_pattern(*self);
        }
        (#[verifier::truncate] (*self as u64)).to_lsb_bytes()
    }

    #[inline]
    fn from_msb_bytes(bytes: &[u8; 8]) -> (r: Self) {
        let u = u64::from_msb_bytes(bytes);
        proof {
            lemma_i64_of_pattern(u);
            lemma_be_value_bound(bytes@);
            lemma_unsigned_value_fixed(be_value(bytes@), 64);
        }
        #[verifier::truncate]
        (u as i64)
    }

    #[inline]
    fn from_lsb_bytes(bytes: &[u8; 8]) -> (r: Self) {
        let u = u64::from_lsb_bytes(bytes);
        proof {
            lemma_i64_of_pattern(u);
            lemma_be_value_bound(bytes@.reverse());
            lemma_unsigned_value_fixed(le_value(bytes@), 64);
        }
        #[verifier::truncate]
        (u as i64)
    }
}

/// The bit pattern of a signed number is the number modulo `2^64`.
proof fn lemma_i64_pattern(v: i64)
    ensures
        (v as u64) as int == unsigned_value(v as int, 64),
        unsigned_value((v as u64) as int, 64) == (v as u64) as int,
{
    lemma_u64_pattern(v as u64);
    lemma2_to64();
    lemma2_to64_rest();
    lemma_i64_bit_facts(v, 0, 0);
    if v < 0 {
        lemma_values_congruent(v as int, 1, 64);
        lemma_unsigned_value_fixed(v + 0x10000000000000000, 64);
    } else {
        lemma_unsigned_value_fixed(v as int, 64);
    }
}

/// The signed number of a bit pattern is its sign extension.
proof fn lemma_i64_of_pattern(u: u64)
    ensures
        (u as i64) as int == signed_value(u as int, 64),
{
    lemma2_to64();
    lemma2_to64_rest();
    lemma_i64_bit_facts(0, u, 0);
    lemma_unsigned_value_fixed(u as int, 64);
}

impl SizedPrimitive for i64 {
    fn from_i128(v: i128) -> (r: Option<Self>) {
        proof {
            lemma2_to64();
            lemma2_to64_rest();
        }
        if -0x8000000000000000 <= v && v < 0x8000000000000000 {
            Some(v as i64)
        } else {
            None
        }
    }

    fn to_i128(&self) -> (r: i128) {
        *self as i128
    }

    fn bit_mask(bits: usize) -> (m: Self) {
        let n = bits as u64;
        proof {
            lemma2_to64();
            lemma2_to64_rest();
            lemma_i64_bit_facts(0, spec_ones(n) as u64, n);
            lemma_u64_bit_facts(0, n, 0, 0, 0, 0, 0, 0, 0, 0);
            if bits < 64 {
                vstd::bits::lemma_u64_pow2_no_overflow(bits as nat);
                vstd::bits::lemma_u64_shl_is_mul(1, bits as u64);
                lemma_pow2_strictly_increases(bits as nat, 64);
                if bits < 63 {
                    lemma_pow2_strictly_increases(bits as nat, 63);
                }
            }
        }
        #[verifier::truncate]
        (ones(n) as i64)
    }

    fn sized(val: Self, bits: usize) -> (r: Self) {
        if bits == 0 {
            proof {
                lemma2_to64();
            }
            return 0;
        }
        if bits >= 64 {
            return val;
        }
        let m = Self::bit_mask(bits);
        let v = val & m;
        let s = 64 - bits;
        proof {
            let n = bits as u64;
            lemma2_to64();
            lemma2_to64_rest();
            lemma_i64_bit_facts(val, 0, n);
            lemma_u64_bit_facts(0, n, 0, 0, 0, 0, 0, 0, 0, 0);
            lemma_i64_pattern(val);
            let pat = val as u64;
            vstd::bits::lemma_u64_pow2_no_overflow(bits as nat);
            vstd::bits::lemma_u64_pow2_no_overflow((bits - 1) as nat);
            vstd::bits::lemma_u64_shl_is_mul(1, bits as u64);
            vstd::bits::lemma_u64_shl_is_mul(1, (bits - 1) as u64);
            vstd::bits::lemma_u64_low_bits_mask_is_mod(pat, bits as nat);
            lemma_pow2_double(bits as nat);
            lemma_pattern_low_bits(val as int, bits as nat, 64);
        }
        (v << s) >> s
    }
}

/// What `to_msb_bytes` gives for a number held in a native type of
/// `native` bytes and cut down to `bits` bits: the lowest bytes of it
/// that hold `bits` bits, or an error where the native type has fewer.
pub open spec fn spec_sized_to_msb_bytes(v: int, bits: nat, native: nat) -> PackingResult<Seq<u8>> {
    if spec_bytes_required_for_bits(bits) > native {
        Err(PackingError::SliceIndexingError { slice_len: native as usize })
    } else {
        Ok(be_bytes(unsigned_value(v, 8 * native), spec_bytes_required_for_bits(bits)))
    }
}

/// The same, least significant byte first.
pub open spec fn spec_sized_to_lsb_bytes(v: int, bits: nat, native: nat) -> PackingResult<Seq<u8>> {
    if spec_bytes_required_for_bits(bits) > native {
        Err(PackingError::SliceIndexingError { slice_len: native as usize })
    } else {
        Ok(le_bytes(unsigned_value(v, 8 * native), spec_bytes_required_for_bits(bits)))
    }
}

/// The number that `from_msb_bytes` gives: the bytes are read as a bit
/// pattern of the native type, which is then cut down to `bits` bits.
pub open spec fn spec_sized_from_msb_bytes(bytes: Seq<u8>, bits: nat, native: nat, signed: bool) -> int {
    sized_value(native_value(be_value(bytes), 8 * native, signed), bits, 8 * native, signed)
}

/// The same, least significant byte first.
pub open spec fn spec_sized_from_lsb_bytes(bytes: Seq<u8>, bits: nat, native: nat, signed: bool) -> int {
    sized_value(native_value(le_value(bytes), 8 * native, signed), bits, 8 * native, signed)
}

/// The `n` lowest bytes of a number are the last `n` of its bytes, most
/// significant first, and the first `n`, least significant first.
pub proof fn lemma_bytes_subrange(v: int, n: nat, len: nat)
    requires
        n <= len,
    ensures
        be_bytes(v, len).subrange(len - n, len as int) == be_bytes(v, n),
        le_bytes(v, len).subrange(0, n as int) == le_bytes(v, n),
{
    assert(be_bytes(v, len).subrange(len - n, len as int) =~= be_bytes(v, n));
    assert(le_bytes(v, len).subrange(0, n as int) =~= le_bytes(v, n));
}

/// The lowest bytes of `num` that hold `bits` bits, most significant
/// first.
pub fn sized_to_msb_bytes<T: SizedPrimitive>(num: &T, bits: usize) -> (r: PackingResult<Vec<u8>>)
    ensures
        match spec_sized_to_msb_bytes(num.as_int(), bits as nat, T::native_bytes()) {
            Ok(s) => (r matches Ok(v) && v@ == s),
            Err(e) => r == Err::<Vec<u8>, PackingError>(e),
        },
{
    let len = bytes_required_for_bits(bits);
    let b = num.to_msb_bytes();
    proof {
        num.lemma_native();
        b.lemma_bytes_len();
        if len <= T::native_bytes() {
            lemma_bytes_subrange(
                unsigned_value(num.as_int(), 8 * T::native_bytes()),
                len as nat,
                T::native_bytes(),
            );
        }
    }
    let bs = b.as_bytes_slice();
    if len > bs.len() {
        return Err(PackingError::SliceIndexingError { slice_len: bs.len() });
    }
    let skip = bs.len() - len;
    match lib_get_slice(bs, skip, bs.len()) {
        Ok(part) => Ok(vstd::slice::slice_to_vec(part)),
        Err(e) => Err(e),
    }
}

/// The lowest bytes of `num` that hold `bits` bits, least significant
/// first.
pub fn sized_to_lsb_bytes<T: SizedPrimitive>(num: &T, bits: usize) -> (r: PackingResult<Vec<u8>>)
    ensures
        match spec_sized_to_lsb_bytes(num.as_int(), bits as nat, T::native_bytes()) {
            Ok(s) => (r matches Ok(v) && v@ == s),
            Err(e) => r == Err::<Vec<u8>, PackingError>(e),
        },
{
    let take = bytes_required_for_bits(bits);
    let b = num.to_lsb_bytes();
    proof {
        num.lemma_native();
        b.lemma_bytes_len();
        if take <= T::native_bytes() {
            lemma_bytes_subrange(
                unsigned_value(num.as_int(), 8 * T::native_bytes()),
                take as nat,
                T::native_bytes(),
            );
        }
    }
    let bs = b.as_bytes_slice();
    match lib_get_slice(bs, 0, take) {
        Ok(part) => Ok(vstd::slice::slice_to_vec(part)),
        Err(e) => Err(e),
    }
}

/// Reads at most as many bytes as the native type has, most significant
/// first, and cuts the number down to `bits` bits.
pub fn sized_from_msb_bytes<T: SizedPrimitive>(bytes: &[u8], bits: usize) -> (r: PackingResult<T>)
    ensures
        bytes@.len() > T::native_bytes() ==> r == Err::<T, PackingError>(
            PackingError::SliceIndexingError { slice_len: T::native_bytes() as usize },
        ),
        bytes@.len() <= T::native_bytes() ==> r == Ok::<T, PackingError>(
            T::of_int(
                spec_sized_from_msb_bytes(bytes@, bits as nat, T::native_bytes(), T::signed()),
            ),
        ),
{
    let mut native_bytes = <T::AsBytes as ByteArray>::new(0);
    proof {
        native_bytes.lemma_bytes_len();
        T::of_int(0).lemma_native();
    }
    let n = <T::AsBytes as ByteArray>::len();
    if bytes.len() > n {
        return Err(PackingError::SliceIndexingError { slice_len: n });
    }
    let skip = n - bytes.len();
    {
        let dst = native_bytes.as_mut_bytes_slice();
        let mut i: usize = 0;
        while i < bytes.len()
            invariant
                i <= bytes@.len(),
                dst@.len() == n,
                skip == n - bytes@.len(),
                bytes@.len() <= n,
                forall|k: int| 0 <= k < skip ==> #[trigger] dst@[k] == 0u8,
                forall|k: int| skip <= k < skip + i ==> #[trigger] dst@[k] == bytes@[k - skip],
            decreases bytes@.len() - i,
        {
            dst[skip + i] = bytes[i];
            i += 1;
        }
    }
    proof {
        native_bytes.lemma_bytes_len();
        assert(native_bytes.bytes() =~= Seq::new(skip as nat, |i: int| 0u8) + bytes@);
        lemma_be_value_leading_zeros(skip as nat, bytes@);
    }
    let v = T::from_msb_bytes(&native_bytes);
    let r = T::sized(v, bits);
    proof {
        r.lemma_native();
        T::lemma_of_int(r.as_int());
        T::lemma_as_int_injective(r, T::of_int(r.as_int()));
    }
    Ok(r)
}

/// Reads at most as many bytes as the native type has, least
/// significant first, and cuts the number down to `bits` bits.
pub fn sized_from_lsb_bytes<T: SizedPrimitive>(bytes: &[u8], bits: usize) -> (r: PackingResult<T>)
    ensures
        bytes@.len() > T::native_bytes() ==> r == Err::<T, PackingError>(
            PackingError::SliceIndexingError { slice_len: T::native_bytes() as usize },
        ),
        bytes@.len() <= T::native_bytes() ==> r == Ok::<T, PackingError>(
            T::of_int(
                spec_sized_from_lsb_bytes(bytes@, bits as nat, T::native_bytes(), T::signed()),
            ),
        ),
{
    let mut native_bytes = <T::AsBytes as ByteArray>::new(0);
    proof {
        native_bytes.lemma_bytes_len();
        T::of_int(0).lemma_native();
    }
    let n = <T::AsBytes as ByteArray>::len();
    let take = bytes.len();
    if take > n {
        return Err(PackingError::SliceIndexingError { slice_len: n });
    }
    {
        let dst = native_bytes.as_mut_bytes_slice();
        let mut i: usize = 0;
        while i < take
            invariant
                i <= take,
                take == bytes@.len(),
                dst@.len() == n,
                take <= n,
                forall|k: int| 0 <= k < i ==> #[trigger] dst@[k] == bytes@[k],
                forall|k: int| i <= k < n ==> #[trigger] dst@[k] == 0u8,
            decreases take - i,
        {
            dst[i] = bytes[i];
            i += 1;
        }
    }
    proof {
        native_bytes.lemma_bytes_len();
        assert(native_bytes.bytes() =~= bytes@ + Seq::new((n - take) as nat, |i: int| 0u8));
        lemma_le_value_trailing_zeros((n - take) as nat, bytes@);
    }
    let v = T::from_lsb_bytes(&native_bytes);
    let r = T::sized(v, bits);
    proof {
        r.lemma_native();
        T::lemma_of_int(r.as_int());
        T::lemma_as_int_injective(r, T::of_int(r.as_int()));
    }
    Ok(r)
}

/// A bit-limited integer, stored in a native type that is at least as
/// many bits wide as the desired size.
#[derive(Default, Debug, PartialEq, Eq, Hash)]
pub struct Integer<T, B> {
    num: T,
    bits: PhantomData<B>,
}

impl<T: Copy, B> Clone for Integer<T, B> {
    fn clone(&self) -> (r: Self)
        ensures
            r.num() == self.num(),
    {
        Integer { num: self.num, bits: PhantomData }
    }
}

impl<T: Copy, B> Copy for Integer<T, B> {

}

impl<T, B> Integer<T, B> {
    /// The native value that is stored.
    pub closed spec fn num(&self) -> T {
        self.num
    }

    /// The integer that stores `num`.
    pub closed spec fn spec_new(num: T) -> Self {
        Integer { num, bits: PhantomData }
    }

    /// `spec_new(num)` stores `num`.
    pub broadcast proof fn lemma_spec_new(num: T)
        ensures
            (#[trigger] Self::spec_new(num)).num() == num,
    {
    }
}

impl<T: SizedPrimitive, B: NumberOfBits> Integer<T, B> {
    /// The value that an integer hands out is the number that it
    /// stores: what is said of the one holds of the other.
    pub broadcast proof fn lemma_to_primitive_is_num(&self)
        ensures
            #[trigger] self.spec_to_primitive() == self.num(),
    {
    }

    /// The integer that stores `num` hands out `num`.
    pub broadcast proof fn lemma_spec_new_to_primitive(num: T)
        ensures
            (#[trigger] Self::spec_new(num)).spec_to_primitive() == num,
    {
    }

    /// The stored number fits the bit width: nothing is left above its
    /// bits but, in a signed type, the copies of the sign.
    pub open spec fn wf(&self) -> bool {
        self.num().as_int() == sized_value(
            self.num().as_int(),
            B::spec_number_of_bits(),
            8 * T::native_bytes(),
            T::signed(),
        )
    }

    /// Number of bits that are to be used for signed integer's sign extension.
    pub fn sign_extend_bits() -> (n: usize)
        requires
            B::spec_number_of_bits() <= 8 * T::native_bytes(),
        ensures
            n == 8 * T::native_bytes() - B::spec_number_of_bits(),
    {
        proof {
            T::of_int(0).lemma_native();
        }
        let native_bit_count = 8 * <T::AsBytes as ByteArray>::len();
        native_bit_count - B::number_of_bits()
    }
}

impl<T: Copy, B> Integer<T, B> {
    /// Convert into a MSB packing helper
    pub fn as_packed_msb(&self) -> (r: MsbInteger<T, B, Self>)
        ensures
            r.0 == *self,
    {
        MsbInteger(*self, PhantomData, PhantomData)
    }

    /// Convert into a LSB packing helper
    pub fn as_packed_lsb(&self) -> (r: LsbInteger<T, B, Self>)
        ensures
            r.0 == *self,
    {
        LsbInteger(*self, PhantomData, PhantomData)
    }
}

/// Convert an integer of a specific bit width into native types.
pub trait SizedInteger<T: SizedPrimitive, B: NumberOfBits>: Sized {
    /// The native value that is stored.
    spec fn spec_to_primitive(&self) -> T;

    /// The bit mask that is used for all incoming values. For an integer
    /// of width 8, that is 0xFF.
    fn value_bit_mask() -> (m: T)
        ensures
            m.as_int() == mask_value(
                B::spec_number_of_bits(),
                8 * T::native_bytes(),
                T::signed(),
            ),
    ;

    /// Convert from the platform native type, applying the value mask and
    /// preserving the correct signedness.
    fn from_primitive(val: T) -> (r: Self)
        ensures
            r.spec_to_primitive() == T::of_int(
                sized_value(
                    val.as_int(),
                    B::spec_number_of_bits(),
                    8 * T::native_bytes(),
                    T::signed(),
                ),
            ),
    ;

    /// Convert to the platform's native type.
    fn to_primitive(&self) -> (r: T)
        ensures
            r == self.spec_to_primitive(),
    ;

    /// Convert to a MSB byte representation. 0xAABB is converted into
    /// [0xAA, 0xBB].
    fn to_msb_bytes(&self) -> (r: PackingResult<Vec<u8>>)
        ensures
            match spec_sized_to_msb_bytes(
                self.spec_to_primitive().as_int(),
                B::spec_number_of_bits(),
                T::native_bytes(),
            ) {
                Ok(s) => (r matches Ok(v) && v@ == s),
                Err(e) => r == Err::<Vec<u8>, PackingError>(e),
            },
    ;

    /// Convert to a LSB byte representation. 0xAABB is converted into
    /// [0xBB, 0xAA].
    fn to_lsb_bytes(&self) -> (r: PackingResult<Vec<u8>>)
        ensures
            match spec_sized_to_lsb_bytes(
                self.spec_to_primitive().as_int(),
                B::spec_number_of_bits(),
                T::native_bytes(),
            ) {
                Ok(s) => (r matches Ok(v) && v@ == s),
                Err(e) => r == Err::<Vec<u8>, PackingError>(e),
            },
    ;

    /// Convert from a MSB byte array.
    fn from_msb_bytes(bytes: &[u8]) -> (r: PackingResult<Self>)
        ensures
            bytes@.len() > T::native_bytes() ==> r.is_err() && r->Err_0
                == (PackingError::SliceIndexingError { slice_len: T::native_bytes() as usize }),
            bytes@.len() <= T::native_bytes() ==> r.is_ok() && r->Ok_0.spec_to_primitive()
                == T::of_int(
                spec_sized_from_msb_bytes(
                    bytes@,
                    B::spec_number_of_bits(),
                    T::native_bytes(),
                    T::signed(),
                ),
            ),
    ;

    /// Convert from a LSB byte array.
    fn from_lsb_bytes(bytes: &[u8]) -> (r: PackingResult<Self>)
        ensures
            bytes@.len() > T::native_bytes() ==> r.is_err() && r->Err_0
                == (PackingError::SliceIndexingError { slice_len: T::native_bytes() as usize }),
            bytes@.len() <= T::native_bytes() ==> r.is_ok() && r->Ok_0.spec_to_primitive()
                == T::of_int(
                spec_sized_from_lsb_bytes(
                    bytes@,
                    B::spec_number_of_bits(),
                    T::native_bytes(),
                    T::signed(),
                ),
            ),
    ;
}

impl<T: SizedPrimitive, B: NumberOfBits> SizedInteger<T, B> for Integer<T, B> {
    closed spec fn spec_to_primitive(&self) -> T {
        self.num
    }

    #[inline]
    fn value_bit_mask() -> (m: T) {
        T::bit_mask(B::number_of_bits())
    }

    #[inline]
    fn from_primitive(val: T) -> (r: Self) {
        let v = T::sized(val, B::number_of_bits());
        proof {
            v.lemma_native();
            T::lemma_of_int(v.as_int());
            T::lemma_as_int_injective(v, T::of_int(v.as_int()));
        }
        Integer { num: v, bits: PhantomData }
    }

    #[inline]
    fn to_primitive(&self) -> (r: T) {
        self.num
    }

    #[inline]
    fn to_msb_bytes(&self) -> (r: PackingResult<Vec<u8>>) {
        sized_to_msb_bytes(&self.num, B::number_of_bits())
    }

    #[inline]
    fn to_lsb_bytes(&self) -> (r: PackingResult<Vec<u8>>) {
        sized_to_lsb_bytes(&self.num, B::number_of_bits())
    }

    #[inline]
    fn from_msb_bytes(bytes: &[u8]) -> (r: PackingResult<Self>) {
        match sized_from_msb_bytes::<T>(bytes, B::number_of_bits()) {
            Ok(v) => Ok(Integer { num: v, bits: PhantomData }),
            Err(e) => Err(e),
        }
    }

    #[inline]
    fn from_lsb_bytes(bytes: &[u8]) -> (r: PackingResult<Self>) {
        match sized_from_lsb_bytes::<T>(bytes, B::number_of_bits()) {
            Ok(v) => Ok(Integer { num: v, bits: PhantomData }),
            Err(e) => Err(e),
        }
    }
}

/// A helper for converting specific bit width signed integers into the
/// native type.
pub trait SizedIntegerSigned<T: SizedPrimitive, B: NumberOfBits>: SizedInteger<T, B> {
    /// Sign-extends the packed value into a properly signed
    /// representation in two's complement.
    fn from_unpacked_to_signed(val: T) -> (r: T)
        ensures
            r.as_int() == sized_value(
                val.as_int(),
                B::spec_number_of_bits(),
                8 * T::native_bytes(),
                T::signed(),
            ),
    ;
}

impl<T: SizedPrimitive, B: NumberOfBits> From<T> for Integer<T, B> {
    fn from(v: T) -> (r: Self) {
        let r = Self::from_primitive(v);
        proof {
            Self::lemma_spec_new(r.num);
        }
        r
    }
}

impl<T: SizedPrimitive, B: NumberOfBits> vstd::std_specs::convert::FromSpecImpl<T> for Integer<T, B> {
    open spec fn obeys_from_spec() -> bool {
        true
    }

    open spec fn from_spec(v: T) -> Self {
        Self::spec_new(
            T::of_int(
                sized_value(
                    v.as_int(),
                    B::spec_number_of_bits(),
                    8 * T::native_bytes(),
                    T::signed(),
                ),
            ),
        )
    }
}

impl<T, B> core::ops::Deref for Integer<T, B> {
    type Target = T;

    fn deref(&self) -> (r: &T)
        ensures
            *r == self.num(),
    {
        &self.num
    }
}

impl<B: NumberOfBits> SizedIntegerSigned<i8, B> for Integer<i8, B> {
    fn from_unpacked_to_signed(val: i8) -> (r: i8) {
        <i8 as SizedPrimitive>::sized(val, B::number_of_bits())
    }
}

impl<B: NumberOfBits> SizedIntegerSigned<i16, B> for Integer<i16, B> {
    fn from_unpacked_to_signed(val: i16) -> (r: i16) {
        <i16 as SizedPrimitive>::sized(val, B::number_of_bits())
    }
}

impl<B: NumberOfBits> SizedIntegerSigned<i32, B> for Integer<i32, B> {
    fn from_unpacked_to_signed(val: i32) -> (r: i32) {
        <i32 as SizedPrimitive>::sized(val, B::number_of_bits())
    }
}

impl<B: NumberOfBits> SizedIntegerSigned<i64, B> for Integer<i64, B> {
    fn from_unpacked_to_signed(val: i64) -> (r: i64) {
        <i64 as SizedPrimitive>::sized(val, B::number_of_bits())
    }
}

impl<B: NumberOfBits> From<Integer<u8, B>> for u8 {
    fn from(v: Integer<u8, B>) -> (r: Self) {
        v.to_primitive()
    }
}

impl<B: NumberOfBits> vstd::std_specs::convert::FromSpecImpl<Integer<u8, B>> for u8 {
    open spec fn obeys_from_spec() -> bool {
        true
    }

    open spec fn from_spec(v: Integer<u8, B>) -> Self {
        v.num()
    }
}

impl<B: NumberOfBits> From<Integer<i8, B>> for i8 {
    fn from(v: Integer<i8, B>) -> (r: Self) {
        v.to_primitive()
    }
}

impl<B: NumberOfBits> vstd::std_specs::convert::FromSpecImpl<Integer<i8, B>> for i8 {
    open spec fn obeys_from_spec() -> bool {
        true
    }

    open spec fn from_spec(v: Integer<i8, B>) -> Self {
        v.num()
    }
}

impl<B: NumberOfBits> From<Integer<u16, B>> for u16 {
    fn from(v: Integer<u16, B>) -> (r: Self) {
        v.to_primitive()
    }
}

impl<B: NumberOfBits> vstd::std_specs::convert::FromSpecImpl<Integer<u16, B>> for u16 {
    open spec fn obeys_from_spec() -> bool {
        true
    }

    open spec fn from_spec(v: Integer<u16, B>) -> Self {
        v.num()
    }
}

impl<B: NumberOfBits> From<Integer<i16, B>> for i16 {
    fn from(v: Integer<i16, B>) -> (r: Self) {
        v.to_primitive()
    }
}

impl<B: NumberOfBits> vstd::std_specs::convert::FromSpecImpl<Integer<i16, B>> for i16 {
    open spec fn obeys_from_spec() -> bool {
        true
    }

    open spec fn from_spec(v: Integer<i16, B>) -> Self {
        v.num()
    }
}

impl<B: NumberOfBits> From<Integer<u32, B>> for u32 {
    fn from(v: Integer<u32, B>) -> (r: Self) {
        v.to_primitive()
    }
}

impl<B: NumberOfBits> vstd::std_specs::convert::FromSpecImpl<Integer<u32, B>> for u32 {
    open spec fn obeys_from_spec() -> bool {
        true
    }

    open spec fn from_spec(v: Integer<u32, B>) -> Self {
        v.num()
    }
}

impl<B: NumberOfBits> From<Integer<i32, B>> for i32 {
    fn from(v: Integer<i32, B>) -> (r: Self) {
        v.to_primitive()
    }
}

impl<B: NumberOfBits> vstd::std_specs::convert::FromSpecImpl<Integer<i32, B>> for i32 {
    open spec fn obeys_from_spec() -> bool {
        true
    }

    open spec fn from_spec(v: Integer<i32, B>) -> Self {
        v.num()
    }
}

impl<B: NumberOfBits> From<Integer<u64, B>> for u64 {
    fn from(v: Integer<u64, B>) -> (r: Self) {
        v.to_primitive()
    }
}

impl<B: NumberOfBits> vstd::std_specs::convert::FromSpecImpl<Integer<u64, B>> for u64 {
    open spec fn obeys_from_spec() -> bool {
        true
    }

    open spec fn from_spec(v: Integer<u64, B>) -> Self {
        v.num()
    }
}

impl<B: NumberOfBits> From<Integer<i64, B>> for i64 {
    fn from(v: Integer<i64, B>) -> (r: Self) {
        v.to_primitive()
    }
}

impl<B: NumberOfBits> vstd::std_specs::convert::FromSpecImpl<Integer<i64, B>> for i64 {
    open spec fn obeys_from_spec() -> bool {
        true
    }

    open spec fn from_spec(v: Integer<i64, B>) -> Self {
        v.num()
    }
}

/// A wrapper that packages the integer as a MSB packaged byte array.
pub struct MsbInteger<T, B, I>(pub I, pub PhantomData<T>, pub PhantomData<B>);

impl<T, B, I> core::ops::Deref for MsbInteger<T, B, I> {
    type Target = I;

    fn deref(&self) -> (r: &I)
        ensures
            *r == self.0,
    {
        &self.0
    }
}

impl<T, B, I> From<I> for MsbInteger<T, B, I> {
    fn from(i: I) -> (r: Self) {
        MsbInteger(i, PhantomData, PhantomData)
    }
}

impl<T, B, I> vstd::std_specs::convert::FromSpecImpl<I> for MsbInteger<T, B, I> {
    open spec fn obeys_from_spec() -> bool {
        true
    }

    open spec fn from_spec(i: I) -> Self {
        MsbInteger(i, PhantomData, PhantomData)
    }
}

impl<T: SizedPrimitive, B: NumberOfBits, I: SizedInteger<T, B>> PackedStructInfo for MsbInteger<
    T,
    B,
    I,
> {
    open spec fn spec_packed_bits() -> nat {
        B::spec_number_of_bits()
    }

    #[inline]
    fn packed_bits() -> (bits: usize) {
        B::number_of_bits()
    }
}

impl<T: SizedPrimitive, B: NumberOfBits, I: SizedInteger<T, B>> PackedStruct for MsbInteger<
    T,
    B,
    I,
> {
    type ByteArray = <<B as NumberOfBits>::Bytes as NumberOfBytes>::AsBytes;

    open spec fn spec_pack(&self) -> PackingResult<Seq<u8>> {
        spec_sized_to_msb_bytes(
            self.0.spec_to_primitive().as_int(),
            B::spec_number_of_bits(),
            T::native_bytes(),
        )
    }

    open spec fn spec_unpacked(src: Seq<u8>, r: PackingResult<Self>) -> bool {
        if src.len() > T::native_bytes() {
            r.is_err() && r->Err_0 == (PackingError::SliceIndexingError {
                slice_len: T::native_bytes() as usize,
            })
        } else {
            r.is_ok() && r->Ok_0.0.spec_to_primitive() == T::of_int(
                spec_sized_from_msb_bytes(
                    src,
                    B::spec_number_of_bits(),
                    T::native_bytes(),
                    T::signed(),
                ),
            )
        }
    }

    fn pack(&self) -> (r: PackingResult<Self::ByteArray>) {
        proof {
            B::lemma_number_of_bytes();
            <B::Bytes as NumberOfBytes>::lemma_as_bytes_len();
        }
        match self.0.to_msb_bytes() {
            Ok(v) => Ok(byte_array_of(v.as_slice())),
            Err(e) => Err(e),
        }
    }

    #[inline]
    fn unpack(src: &Self::ByteArray) -> (r: PackingResult<Self>) {
        let src: &[u8] = src.as_bytes_slice();
        match I::from_msb_bytes(src) {
            Ok(n) => Ok(MsbInteger(n, PhantomData, PhantomData)),
            Err(e) => Err(e),
        }
    }
}

/// A wrapper that packages the integer as a LSB packaged byte array.
pub struct LsbInteger<T, B, I>(pub I, pub PhantomData<T>, pub PhantomData<B>);

impl<T, B, I> core::ops::Deref for LsbInteger<T, B, I> {
    type Target = I;

    fn deref(&self) -> (r: &I)
        ensures
            *r == self.0,
    {
        &self.0
    }
}

impl<T, B, I> From<I> for LsbInteger<T, B, I> {
    fn from(i: I) -> (r: Self) {
        LsbInteger(i, PhantomData, PhantomData)
    }
}

impl<T, B, I> vstd::std_specs::convert::FromSpecImpl<I> for LsbInteger<T, B, I> {
    open spec fn obeys_from_spec() -> bool {
        true
    }

    open spec fn from_spec(i: I) -> Self {
        LsbInteger(i, PhantomData, PhantomData)
    }
}

impl<T: SizedPrimitive, B: NumberOfBits, I: SizedInteger<T, B>> PackedStructInfo for LsbInteger<
    T,
    B,
    I,
> {
    open spec fn spec_packed_bits() -> nat {
        B::spec_number_of_bits()
    }

    #[inline]
    fn packed_bits() -> (bits: usize) {
        B::number_of_bits()
    }
}

impl<T: SizedPrimitive, B: BitsFullBytes, I: SizedInteger<T, B>> PackedStruct for LsbInteger<
    T,
    B,
    I,
> {
    type ByteArray = <<B as NumberOfBits>::Bytes as NumberOfBytes>::AsBytes;

    open spec fn spec_pack(&self) -> PackingResult<Seq<u8>> {
        spec_sized_to_lsb_bytes(
            self.0.spec_to_primitive().as_int(),
            B::spec_number_of_bits(),
            T::native_bytes(),
        )
    }

    open spec fn spec_unpacked(src: Seq<u8>, r: PackingResult<Self>) -> bool {
        if src.len() > T::native_bytes() {
            r.is_err() && r->Err_0 == (PackingError::SliceIndexingError {
                slice_len: T::native_bytes() as usize,
            })
        } else {
            r.is_ok() && r->Ok_0.0.spec_to_primitive() == T::of_int(
                spec_sized_from_lsb_bytes(
                    src,
                    B::spec_number_of_bits(),
                    T::native_bytes(),
                    T::signed(),
                ),
            )
        }
    }

    fn pack(&self) -> (r: PackingResult<Self::ByteArray>) {
        proof {
            B::lemma_number_of_bytes();
            <B::Bytes as NumberOfBytes>::lemma_as_bytes_len();
        }
        match self.0.to_lsb_bytes() {
            Ok(v) => Ok(byte_array_of(v.as_slice())),
            Err(e) => Err(e),
        }
    }

    #[inline]
    fn unpack(src: &Self::ByteArray) -> (r: PackingResult<Self>) {
        let src: &[u8] = src.as_bytes_slice();
        match I::from_lsb_bytes(src) {
            Ok(n) => Ok(LsbInteger(n, PhantomData, PhantomData)),
            Err(e) => Err(e),
        }
    }
}

/// The number of the right sign with the `bits` lowest bits of `v` has
/// the same lowest bits as `v`, as far as any narrower width goes.
pub proof fn lemma_signed_low_bits(v: int, bits: nat, native: nat)
    requires
        bits <= native,
    ensures
        unsigned_value(signed_value(v, native), bits) == unsigned_value(v, bits),
        signed_value(signed_value(v, native), bits) == signed_value(v, bits),
{
    let u = unsigned_value(v, native);
    lemma_pattern_low_bits(v, bits, native);
    lemma_pow2_adds(bits, (native - bits) as nat);
    if signed_value(v, native) != u {
        let k = -(pow2((native - bits) as nat) as int);
        assert(k * pow2(bits) == -(pow2(native) as int)) by (nonlinear_arith)
            requires
                k == -(pow2((native - bits) as nat) as int),
                pow2(native) == pow2(bits) * pow2((native - bits) as nat),
        ;
        lemma_values_congruent(u, k, bits);
    }
}

/// Cutting a number down to a width a second time changes nothing.
pub proof fn lemma_sized_value_idempotent(v: int, bits: nat, native: nat, signed: bool)
    ensures
        sized_value(sized_value(v, bits, native, signed), bits, native, signed) == sized_value(
            v,
            bits,
            native,
            signed,
        ),
{
    if bits < native {
        lemma_pow2_pos(bits);
        if signed {
            if bits >= 1 {
                lemma_signed_value_range(v, bits);
                lemma_signed_value_fixed(signed_value(v, bits), bits);
            } else {
                lemma2_to64();
            }
        } else {
            lemma_mod_bound(v, pow2(bits) as int);
            lemma_unsigned_value_fixed(unsigned_value(v, bits), bits);
        }
    }
}

/// A signed field of `bits` bits holds the numbers from `-2^(bits-1)` to
/// `2^(bits-1) - 1`: cutting down gives a number of that range, keeps
/// each number of that range, and so keeps both of its ends.
pub proof fn lemma_signed_field_range(v: int, bits: nat, native: nat)
    requires
        1 <= bits <= native,
        in_native_range(v, native, true),
    ensures
        -pow2((bits - 1) as nat) <= sized_value(v, bits, native, true) <= pow2((bits - 1) as nat)
            - 1,
        -pow2((bits - 1) as nat) <= v <= pow2((bits - 1) as nat) - 1 ==> sized_value(
            v,
            bits,
            native,
            true,
        ) == v,
        sized_value(-pow2((bits - 1) as nat), bits, native, true) == -pow2((bits - 1) as nat),
        sized_value(pow2((bits - 1) as nat) - 1, bits, native, true) == pow2((bits - 1) as nat) - 1,
{
    lemma_pow2_double(bits);
    if bits < native {
        lemma_signed_value_range(v, bits);
        if -pow2((bits - 1) as nat) <= v <= pow2((bits - 1) as nat) - 1 {
            lemma_signed_value_fixed(v, bits);
        }
        lemma_signed_value_fixed(-pow2((bits - 1) as nat), bits);
        lemma_signed_value_fixed(pow2((bits - 1) as nat) - 1, bits);
    }
}

/// An unsigned field of `bits` bits holds the numbers from 0 to
/// `2^bits - 1`.
pub proof fn lemma_unsigned_field_range(v: int, bits: nat, native: nat)
    requires
        bits <= native,
        in_native_range(v, native, false),
    ensures
        0 <= sized_value(v, bits, native, false) <= pow2(bits) - 1,
        0 <= v <= pow2(bits) - 1 ==> sized_value(v, bits, native, false) == v,
{
    lemma_pow2_pos(bits);
    if bits < native {
        lemma_mod_bound(v, pow2(bits) as int);
        if 0 <= v <= pow2(bits) - 1 {
            lemma_unsigned_value_fixed(v, bits);
        }
    }
}

/// A native integer comes back from its bytes, in either byte order.
pub proof fn lemma_native_bytes_roundtrip(v: int, native_bytes: nat, signed: bool)
    requires
        native_bytes >= 1,
        in_native_range(v, 8 * native_bytes, signed),
    ensures
        native_value(
            be_value(be_bytes(unsigned_value(v, 8 * native_bytes), native_bytes)),
            8 * native_bytes,
            signed,
        ) == v,
        native_value(
            le_value(le_bytes(unsigned_value(v, 8 * native_bytes), native_bytes)),
            8 * native_bytes,
            signed,
        ) == v,
{
    let w = 8 * native_bytes;
    let u = unsigned_value(v, w);
    lemma_pow2_pos(w);
    lemma_mod_bound(v, pow2(w) as int);
    lemma_be_value_of_be_bytes(u, native_bytes);
    lemma_le_value_of_le_bytes(u, native_bytes);
    lemma_unsigned_value_fixed(u, w);
    lemma_pattern_low_bits(v, w, w);
    if signed {
        lemma_signed_value_fixed(v, w);
    } else {
        lemma_unsigned_value_fixed(v, w);
    }
}

/// Endianness symmetry: a value of a native integer type comes back
/// from the bytes that `to_msb_bytes` gives through `from_msb_bytes`, and
/// likewise with the least significant byte first.
pub proof fn lemma_integer_as_bytes_roundtrip<T: IntegerAsBytes>(x: T)
    ensures
        T::of_int(
            native_value(
                be_value(
                    be_bytes(unsigned_value(x.as_int(), 8 * T::native_bytes()), T::native_bytes()),
                ),
                8 * T::native_bytes(),
                T::signed(),
            ),
        ) == x,
        T::of_int(
            native_value(
                le_value(
                    le_bytes(unsigned_value(x.as_int(), 8 * T::native_bytes()), T::native_bytes()),
                ),
                8 * T::native_bytes(),
                T::signed(),
            ),
        ) == x,
{
    x.lemma_native();
    lemma_native_bytes_roundtrip(x.as_int(), T::native_bytes(), T::signed());
    T::lemma_of_int(x.as_int());
    T::lemma_as_int_injective(T::of_int(x.as_int()), x);
}

/// A number that fits `bits` bits comes back from the bytes that a
/// sized integer gives for it, in either byte order, whatever stands in
/// the bits of the first byte that are above the width.
pub proof fn lemma_sized_bytes_roundtrip(v: int, bits: nat, native_bytes: nat, signed: bool)
    requires
        native_bytes >= 1,
        spec_bytes_required_for_bits(bits) <= native_bytes,
        in_native_range(v, 8 * native_bytes, signed),
        sized_value(v, bits, 8 * native_bytes, signed) == v,
    ensures
        spec_sized_to_msb_bytes(v, bits, native_bytes) matches Ok(b) && spec_sized_from_msb_bytes(
            b,
            bits,
            native_bytes,
            signed,
        ) == v,
        spec_sized_to_lsb_bytes(v, bits, native_bytes) matches Ok(b) && spec_sized_from_lsb_bytes(
            b,
            bits,
            native_bytes,
            signed,
        ) == v,
{
    let w = 8 * native_bytes;
    let len = spec_bytes_required_for_bits(bits);
    let u = unsigned_value(v, w);
    lemma_pow2_pos(w);
    lemma_mod_bound(v, pow2(w) as int);
    lemma_be_value_of_be_bytes(u, len);
    lemma_le_value_of_le_bytes(u, len);
    let x = unsigned_value(u, 8 * len);
    assert(be_value(be_bytes(u, len)) == x);
    assert(le_value(le_bytes(u, len)) == x);
    lemma_sized_of_pattern(v, x, bits, 8 * len, w, signed);
}

/// Reading a bit pattern that agrees with `v` in its `mid` lowest bits
/// and cutting it down to `bits <= mid` bits gives `v`, where `v` fits
/// `bits` bits.
pub proof fn lemma_sized_of_pattern(v: int, x: int, bits: nat, mid: nat, native: nat, signed: bool)
    requires
        bits <= mid <= native,
        native >= 1,
        x == unsigned_value(unsigned_value(v, native), mid),
        in_native_range(v, native, signed),
        sized_value(v, bits, native, signed) == v,
    ensures
        sized_value(native_value(x, native, signed), bits, native, signed) == v,
{
    lemma_pattern_low_bits(v, mid, native);
    assert(x == unsigned_value(v, mid));
    lemma_pattern_low_bits(v, bits, mid);
    lemma_pow2_pos(mid);
    lemma_mod_bound(v, pow2(mid) as int);
    let n = native_value(x, native, signed);
    if signed {
        lemma_signed_low_bits(x, bits, native);
        lemma_signed_low_bits(x, native, native);
    } else {
        lemma_pattern_low_bits(x, bits, native);
        lemma_pattern_low_bits(x, native, native);
    }
    if bits >= native {
        assert(mid == native);
        if signed {
            lemma_signed_value_fixed(v, native);
            lemma_pattern_low_bits(v, native, native);
        } else {
            lemma_unsigned_value_fixed(v, native);
        }
    }
}

} // verus!
