//! Reading and writing short runs of bits inside bytes and byte slices.
//!
//! Bits are numbered from the most significant bit: bit 0 of a byte is its
//! top bit, bit 7 its lowest, and bit `8 * i + k` of a slice is bit `k` of
//! byte `i`.

use vstd::prelude::*;

verus! {

/// Errors of the bit accessors.
#[derive(Clone, Copy, Debug, PartialEq, Eq, Structural)]
pub enum BitsError {
    /// The addressed bits do not lie inside the value.
    OutOfBounds,
}

/// Bit `k` of `b`, counted from the most significant bit.
pub open spec fn byte_bit(b: u8, k: u8) -> bool {
    b & (0x80u8 >> k) != 0
}

/// The byte whose `n` lowest bits are set (all of them for `n >= 8`).
pub open spec fn low_mask(n: u8) -> u8 {
    if n >= 8 {
        0xFFu8
    } else {
        ((1u8 << n) - 1) as u8
    }
}

/// The `bits` bits of `byte` that start at bit `offset`, as a number.
pub open spec fn spec_get_bits(byte: u8, offset: u8, bits: u8) -> u8 {
    (byte >> ((8 - offset - bits) as u8)) & low_mask(bits)
}

/// `byte` with the `bits` bits from bit `offset` on replaced by the lowest
/// `bits` bits of `val`.
pub open spec fn spec_set_bits(byte: u8, offset: u8, bits: u8, val: u8) -> u8 {
    let shift = (8 - offset - bits) as u8;
    (byte & !(low_mask(bits) << shift)) | ((val & low_mask(bits)) << shift)
}

/// What `spec_get_bits` means bit by bit: the result holds the addressed
/// bits in its lowest places and zeroes above them.
pub proof fn lemma_get_bits_bitwise(byte: u8, offset: u8, bits: u8, k: u8)
    by (bit_vector)
    requires
        offset + bits <= 8,
        k < 8,
    ensures
        byte_bit(spec_get_bits(byte, offset, bits), k) == (k + bits >= 8 && byte_bit(
            byte,
            (offset + bits + k - 8) as u8,
        )),
{
}

/// What `spec_set_bits` means bit by bit: inside the addressed run the
/// result holds the lowest bits of `val`, outside it the bits of `byte`.
pub proof fn lemma_set_bits_bitwise(byte: u8, offset: u8, bits: u8, val: u8, k: u8)
    by (bit_vector)
    requires
        offset + bits <= 8,
        k < 8,
    ensures
        byte_bit(spec_set_bits(byte, offset, bits, val), k) == (if offset <= k && k < offset + bits {
            byte_bit(val, (8 - bits + k - offset) as u8)
        } else {
            byte_bit(byte, k)
        }),
{
}


/// Bit `i` of a byte sequence, counted from the most significant bit of
/// its first byte.
pub open spec fn bit_at(s: Seq<u8>, i: int) -> bool {
    byte_bit(s[i / 8], (i % 8) as u8)
}

/// Two bytes with the same eight bits are the same byte.
pub proof fn lemma_byte_ext(a: u8, b: u8)
    by (bit_vector)
    requires
        byte_bit(a, 0) == byte_bit(b, 0),
        byte_bit(a, 1) == byte_bit(b, 1),
        byte_bit(a, 2) == byte_bit(b, 2),
        byte_bit(a, 3) == byte_bit(b, 3),
        byte_bit(a, 4) == byte_bit(b, 4),
        byte_bit(a, 5) == byte_bit(b, 5),
        byte_bit(a, 6) == byte_bit(b, 6),
        byte_bit(a, 7) == byte_bit(b, 7),
    ensures
        a == b,
{
}

/// The number with the `n` lowest bits set (all 32 for `n >= 32`).
pub open spec fn spec_ones(n: u32) -> u32 {
    if n == 0 {
        0
    } else if n >= 32 {
        0xFFFF_FFFFu32
    } else {
        ((1u32 << n) - 1) as u32
    }
}

/// `spec_ones(n)` is `2^n - 1` for `n` up to 32.
pub proof fn lemma_ones_is_pow2_minus_one(n: u32)
    requires
        n <= 32,
    ensures
        spec_ones(n) == vstd::arithmetic::power2::pow2(n as nat) - 1,
{
    vstd::arithmetic::power2::lemma2_to64();
    if 0 < n < 32 {
        vstd::bits::lemma_u32_pow2_no_overflow(n as nat);
        vstd::bits::lemma_u32_shl_is_mul(1u32, n);
    }
}

/// A mask of the `n` lowest bits: `ones(1)` is `0b1`, `ones(3)` is `0b111`.
pub fn ones(n: u32) -> (r: u32)
    ensures
        r == spec_ones(n),
{
    if n == 0 {
        return 0;
    }
    if n >= 32 {
        return u32::MAX;
    }
    assert((1u32 << n) >= 1) by (bit_vector)
        requires
            n < 32,
    ;
    (1 << n) - 1
}

/// Least number of bytes that hold `bits` bits.
pub open spec fn spec_bytes_required_for_bits(bits: nat) -> nat {
    (bits + 7) / 8
}

/// Least number of bytes that hold `bits` bits.
pub fn bytes_required_for_bits(bits: usize) -> (n: usize)
    ensures
        n == spec_bytes_required_for_bits(bits as nat),
{
    let mut n: usize = bits / 8;
    if (bits % 8) > 0 {
        n += 1;
    }
    n
}

/// A run of bits inside one byte of a sequence.
#[derive(Clone, Copy, Debug, PartialEq, Eq, Structural)]
pub struct BitRange {
    /// Index of the byte.
    pub byte: usize,
    /// First bit of the run inside that byte.
    pub offset: usize,
    /// Number of bits, at most `8 - offset`.
    pub bits: usize,
}

/// When a run of `bits` bits from bit `offset` on can be addressed inside
/// `bytes` bytes: it is at most eight bits long, starts inside and ends
/// inside.
pub open spec fn range_in_bounds(bytes: nat, offset: nat, bits: nat) -> bool {
    offset < bytes * 8 && bits <= 8 && offset + bits <= bytes * 8
}

/// The part of the run that lies in the byte where it starts.
pub open spec fn spec_split_left(offset: nat, bits: nat) -> BitRange {
    let o = offset % 8;
    BitRange {
        byte: (offset / 8) as usize,
        offset: o as usize,
        bits: (if o + bits <= 8 {
            bits as int
        } else {
            8 - o
        }) as usize,
    }
}

/// The part of the run that lies in the following byte, if it reaches
/// that far.
pub open spec fn spec_split_right(offset: nat, bits: nat) -> Option<BitRange> {
    let o = offset % 8;
    if o + bits <= 8 {
        None
    } else {
        Some(BitRange { byte: (offset / 8 + 1) as usize, offset: 0, bits: (o + bits - 8) as usize })
    }
}

/// Splits a run of at most eight bits into the part in its first byte and
/// the part, if any, in the next.
pub fn split_ranges(bytes: usize, offset: usize, bits: usize) -> (r: Result<
    (BitRange, Option<BitRange>),
    BitsError,
>)
    ensures
        range_in_bounds(bytes as nat, offset as nat, bits as nat) ==> r == Ok::<
            (BitRange, Option<BitRange>),
            BitsError,
        >((spec_split_left(offset as nat, bits as nat), spec_split_right(offset as nat, bits as nat))),
        !range_in_bounds(bytes as nat, offset as nat, bits as nat) ==> r == Err::<
            (BitRange, Option<BitRange>),
            BitsError,
        >(BitsError::OutOfBounds),
{
    let byte_start = offset / 8;
    let o = offset % 8;
    if byte_start >= bytes {
        return Err(BitsError::OutOfBounds);
    }
    if bits > 8 {
        return Err(BitsError::OutOfBounds);
    }
    if o + bits <= 8 {
        return Ok((BitRange { byte: byte_start, offset: o, bits }, None));
    }
    if byte_start + 1 >= bytes {
        return Err(BitsError::OutOfBounds);
    }
    let end_bits = o + bits - 8;
    let start = BitRange { byte: byte_start, offset: o, bits: bits - end_bits };
    let end = BitRange { byte: byte_start + 1, offset: 0, bits: end_bits };
    Ok((start, Some(end)))
}


/// First bit of the `i`-th chunk when `bits` bits from bit `offset` on are
/// handed over eight at a time.
pub open spec fn chunk_offset(offset: nat, bits: nat, i: nat) -> nat {
    if 8 * i <= bits {
        offset + 8 * i
    } else {
        offset + bits
    }
}

/// Number of bits of the `i`-th chunk: eight until the bits run out.
pub open spec fn chunk_bits(bits: nat, i: nat) -> nat {
    if 8 * i + 8 <= bits {
        8
    } else if 8 * i <= bits {
        (bits - 8 * i) as nat
    } else {
        0
    }
}

/// Reading bits out of a value.
pub trait BitsGet {
    /// What `get_bits_msb` returns for each request.
    spec fn spec_get_bits_msb(&self, offset: nat, bits: nat) -> Result<u8, BitsError>;

    /// The `bits` bits that start at bit `offset`, as a number.
    fn get_bits_msb(&self, offset: usize, bits: usize) -> (r: Result<u8, BitsError>)
        ensures
            r == self.spec_get_bits_msb(offset as nat, bits as nat),
    ;

    /// Reads `bits` bits from bit `offset` on into `output`, eight bits to
    /// each byte of it. Stops at the first chunk that cannot be read.
    fn get_bits_msb_slice(&self, offset: usize, bits: usize, output: &mut [u8]) -> (r: Result<
        (),
        BitsError,
    >)
        requires
            offset + bits <= usize::MAX,
        ensures
            final(output)@.len() == old(output)@.len(),
            spec_bytes_required_for_bits(bits as nat) > old(output)@.len() ==> r.is_err() && final(output)@ == old(output)@,
            spec_bytes_required_for_bits(bits as nat) <= old(output)@.len() ==> exists|n: nat|
                {
                    &&& n <= old(output)@.len()
                    &&& r.is_ok() <==> n == old(output)@.len()
                    &&& n < old(output)@.len() ==> self.spec_get_bits_msb(
                        chunk_offset(offset as nat, bits as nat, n),
                        #[trigger] chunk_bits(bits as nat, n),
                    ).is_err()
                    &&& forall|i: int|
                        0 <= i < n ==> self.spec_get_bits_msb(
                            chunk_offset(offset as nat, bits as nat, i as nat),
                            chunk_bits(bits as nat, i as nat),
                        ) == Ok::<u8, BitsError>(#[trigger] final(output)@[i])
                    &&& forall|i: int|
                        n <= i < old(output)@.len() ==> #[trigger] final(output)@[i] == old(output)@[i]
                },
    {
        if bytes_required_for_bits(bits) > output.len() {
            return Err(BitsError::OutOfBounds);
        }
        let mut o: usize = offset;
        let mut b: usize = bits;
        let mut i: usize = 0;
        while i < output.len()
            invariant
                output@.len() == old(output)@.len(),
                spec_bytes_required_for_bits(bits as nat) <= output@.len(),
                i <= output@.len(),
                o == chunk_offset(offset as nat, bits as nat, i as nat),
                b == bits - (o - offset),
                bits >= o - offset,
                offset + bits <= usize::MAX,
                forall|j: int|
                    0 <= j < i ==> self.spec_get_bits_msb(
                        chunk_offset(offset as nat, bits as nat, j as nat),
                        chunk_bits(bits as nat, j as nat),
                    ) == Ok::<u8, BitsError>(#[trigger] output@[j]),
                forall|j: int| i <= j < output@.len() ==> #[trigger] output@[j] == old(output)@[j],
            decreases output@.len() - i,
        {
            let l: usize = if b < 8 {
                b
            } else {
                8
            };
            assert(l == chunk_bits(bits as nat, i as nat));
            match self.get_bits_msb(o, l) {
                Ok(v) => {
                    output[i] = v;
                },
                Err(e) => {
                    assert(chunk_bits(bits as nat, i as nat) == l);
                    return Err(e);
                },
            }
            o += l;
            b -= l;
            i += 1;
        }
        assert(chunk_bits(bits as nat, i as nat) <= 8);
        Ok(())
    }
}


/// Writing bits into a value.
pub trait BitsSet {
    /// The bytes of the value, first byte first.
    spec fn bytes_view(&self) -> Seq<u8>;

    /// What `set_bits_msb` makes of a value with the bytes `bytes`.
    spec fn spec_set_bits_msb(bytes: Seq<u8>, offset: nat, bits: nat, val: u8) -> Result<
        Seq<u8>,
        BitsError,
    >;

    /// Replaces the `bits` bits that start at bit `offset` by the lowest
    /// `bits` bits of `val`. On an error nothing is changed.
    fn set_bits_msb(&mut self, offset: usize, bits: usize, val: u8) -> (r: Result<(), BitsError>)
        ensures
            match Self::spec_set_bits_msb(old(self).bytes_view(), offset as nat, bits as nat, val) {
                Ok(s) => r.is_ok() && final(self).bytes_view() == s,
                Err(e) => r == Err::<(), BitsError>(e) && final(self).bytes_view() == old(self).bytes_view(),
            },
    ;

    /// Writes `bits` bits from bit `offset` on, eight from each byte of
    /// `val`, one call of `set_bits_msb` after the other. Stops at the
    /// first chunk that cannot be written and keeps what was written
    /// before it. `states` below are the values between the calls.
    fn set_bits_msb_slice(&mut self, offset: usize, bits: usize, val: &[u8]) -> (r: Result<
        (),
        BitsError,
    >)
        requires
            offset + bits <= usize::MAX,
        ensures
            exists|states: Seq<Seq<u8>>|
                {
                    &&& 1 <= #[trigger] states.len() <= val@.len() + 1
                    &&& states[0] == old(self).bytes_view()
                    &&& states[states.len() - 1] == final(self).bytes_view()
                    &&& forall|i: int|
                        0 <= i < states.len() - 1 ==> Self::spec_set_bits_msb(
                            #[trigger] states[i],
                            chunk_offset(offset as nat, bits as nat, i as nat),
                            chunk_bits(bits as nat, i as nat),
                            val@[i],
                        ) == Ok::<Seq<u8>, BitsError>(states[i + 1])
                    &&& r.is_ok() <==> states.len() == val@.len() + 1
                    &&& states.len() <= val@.len() ==> Self::spec_set_bits_msb(
                        states[states.len() - 1],
                        chunk_offset(offset as nat, bits as nat, (states.len() - 1) as nat),
                        chunk_bits(bits as nat, (states.len() - 1) as nat),
                        val@[states.len() - 1],
                    ).is_err()
                },
    {
        let mut o: usize = offset;
        let mut b: usize = bits;
        let mut i: usize = 0;
        let ghost mut states: Seq<Seq<u8>> = seq![self.bytes_view()];
        while i < val.len()
            invariant
                i <= val@.len(),
                o == chunk_offset(offset as nat, bits as nat, i as nat),
                b == bits - (o - offset),
                bits >= o - offset,
                offset + bits <= usize::MAX,
                states.len() == i + 1,
                states[0] == old(self).bytes_view(),
                states[i as int] == self.bytes_view(),
                forall|j: int|
                    0 <= j < i ==> Self::spec_set_bits_msb(
                        #[trigger] states[j],
                        chunk_offset(offset as nat, bits as nat, j as nat),
                        chunk_bits(bits as nat, j as nat),
                        val@[j],
                    ) == Ok::<Seq<u8>, BitsError>(states[j + 1]),
            decreases val@.len() - i,
        {
            let l: usize = if b < 8 {
                b
            } else {
                8
            };
            assert(l == chunk_bits(bits as nat, i as nat));
            match self.set_bits_msb(o, l, val[i]) {
                Ok(()) => {},
                Err(e) => {
                    return Err(e);
                },
            }
            proof {
                states = states.push(self.bytes_view());
            }
            o += l;
            b -= l;
            i += 1;
        }
        Ok(())
    }
}

/// What reading `bits` bits from bit `offset` of a byte gives.
pub open spec fn spec_byte_get(byte: u8, offset: nat, bits: nat) -> Result<u8, BitsError> {
    if offset >= 8 || offset + bits > 8 {
        Err(BitsError::OutOfBounds)
    } else if bits == 0 {
        Ok(0u8)
    } else {
        Ok(spec_get_bits(byte, offset as u8, bits as u8))
    }
}

/// What writing `val` into `bits` bits from bit `offset` of a byte gives.
pub open spec fn spec_byte_set(byte: u8, offset: nat, bits: nat, val: u8) -> Result<u8, BitsError> {
    if offset >= 8 || offset + bits > 8 {
        Err(BitsError::OutOfBounds)
    } else if bits == 0 {
        Ok(byte)
    } else {
        Ok(spec_set_bits(byte, offset as u8, bits as u8, val))
    }
}

proof fn lemma_get_bits_masked(byte: u8, offset: u8, bits: u8, m: u32, o: u32)
    by (bit_vector)
    requires
        1 <= bits,
        offset + bits <= 8,
        m == spec_ones(bits as u32),
        o == 8 - offset - bits,
    ensures
        (byte & ((m << o) as u8)) >> o == spec_get_bits(byte, offset, bits),
{
}

proof fn lemma_set_bits_masked(byte: u8, offset: u8, bits: u8, val: u8, m: u32, o: u32)
    by (bit_vector)
    requires
        1 <= bits,
        offset + bits <= 8,
        m == spec_ones(bits as u32),
        o == 8 - offset - bits,
    ensures
        (byte & !((m << o) as u8)) | ((((val & (m as u8)) as u32) << o) as u8) == spec_set_bits(
            byte,
            offset,
            bits,
            val,
        ),
{
}

impl BitsGet for u8 {
    open spec fn spec_get_bits_msb(&self, offset: nat, bits: nat) -> Result<u8, BitsError> {
        spec_byte_get(*self, offset, bits)
    }

    fn get_bits_msb(&self, offset: usize, bits: usize) -> (r: Result<u8, BitsError>) {
        if offset >= 8 {
            return Err(BitsError::OutOfBounds);
        }
        if bits > 8 || offset + bits > 8 {
            return Err(BitsError::OutOfBounds);
        }
        if bits == 0 {
            return Ok(0);
        }
        let o = 8 - offset - bits;
        let m = ones(bits as u32);
        proof {
            lemma_get_bits_masked(*self, offset as u8, bits as u8, m, o as u32);
        }
        let mask = (m << o) as u8;
        Ok((*self & mask) >> o)
    }
}

impl BitsSet for u8 {
    open spec fn bytes_view(&self) -> Seq<u8> {
        seq![*self]
    }

    open spec fn spec_set_bits_msb(bytes: Seq<u8>, offset: nat, bits: nat, val: u8) -> Result<
        Seq<u8>,
        BitsError,
    > {
        match spec_byte_set(bytes[0], offset, bits, val) {
            Ok(b) => Ok(seq![b]),
            Err(e) => Err(e),
        }
    }

    fn set_bits_msb(&mut self, offset: usize, bits: usize, val: u8) -> (r: Result<(), BitsError>) {
        if offset >= 8 {
            return Err(BitsError::OutOfBounds);
        }
        if bits > 8 || offset + bits > 8 {
            return Err(BitsError::OutOfBounds);
        }
        if bits == 0 {
            assert(seq![*self] =~= old(self).bytes_view());
            return Ok(());
        }
        let o = 8 - offset - bits;
        let b = ones(bits as u32);
        proof {
            lemma_set_bits_masked(*self, offset as u8, bits as u8, val, b, o as u32);
        }
        let mask = !((b << o) as u8);
        let s = *self & mask;
        let val = val & (b as u8);
        *self = s | ((val as u32) << o) as u8;
        Ok(())
    }
}


/// The `bits` bits (1 to 8) of `s` that start at bit `offset`, as a
/// number: where they cross into a second byte, the part in the first
/// byte is the upper part of the number.
pub open spec fn spec_slice_get_bits(s: Seq<u8>, offset: nat, bits: nat) -> u8 {
    let first = (offset / 8) as int;
    let o = offset % 8;
    if o + bits <= 8 {
        spec_get_bits(s[first], o as u8, bits as u8)
    } else {
        let right = (o + bits - 8) as u8;
        (spec_get_bits(s[first], o as u8, (8 - o) as u8) << right) | spec_get_bits(
            s[first + 1],
            0,
            right,
        )
    }
}

/// `s` with the `bits` bits (1 to 8) that start at bit `offset` replaced
/// by the lowest `bits` bits of `val`.
pub open spec fn spec_slice_set_bits(s: Seq<u8>, offset: nat, bits: nat, val: u8) -> Seq<u8> {
    let first = (offset / 8) as int;
    let o = offset % 8;
    if o + bits <= 8 {
        s.update(first, spec_set_bits(s[first], o as u8, bits as u8, val))
    } else {
        let right = (o + bits - 8) as u8;
        s.update(first, spec_set_bits(s[first], o as u8, (8 - o) as u8, val >> right)).update(
            first + 1,
            spec_set_bits(s[first + 1], 0, right, val & low_mask(right)),
        )
    }
}

/// What reading `bits` bits from bit `offset` of a byte sequence gives.
pub open spec fn spec_slice_get(s: Seq<u8>, offset: nat, bits: nat) -> Result<u8, BitsError> {
    if bits == 0 {
        Ok(0u8)
    } else if !range_in_bounds(s.len(), offset, bits) {
        Err(BitsError::OutOfBounds)
    } else {
        Ok(spec_slice_get_bits(s, offset, bits))
    }
}

/// What writing `val` into `bits` bits from bit `offset` of a byte
/// sequence gives.
pub open spec fn spec_slice_set(s: Seq<u8>, offset: nat, bits: nat, val: u8) -> Result<
    Seq<u8>,
    BitsError,
> {
    if bits == 0 {
        Ok(s)
    } else if !range_in_bounds(s.len(), offset, bits) {
        Err(BitsError::OutOfBounds)
    } else {
        Ok(spec_slice_set_bits(s, offset, bits, val))
    }
}

proof fn lemma_straddle_bits(x: u8, y: u8, o: u8, n: u8, val: u8, k: u8)
    by (bit_vector)
    requires
        o < 8,
        n <= 8,
        o + n > 8,
        k < 8,
    ensures
        byte_bit(
            (spec_get_bits(x, o, (8 - o) as u8) << ((o + n - 8) as u8)) | spec_get_bits(
                y,
                0,
                (o + n - 8) as u8,
            ),
            k,
        ) == (k + n >= 8 && (if o + n + k < 16 {
            byte_bit(x, (o + n + k - 8) as u8)
        } else {
            byte_bit(y, (o + n + k - 16) as u8)
        })),
        byte_bit(spec_set_bits(x, o, (8 - o) as u8, val >> ((o + n - 8) as u8)), k) == (if k >= o {
            byte_bit(val, (8 - n + k - o) as u8)
        } else {
            byte_bit(x, k)
        }),
        byte_bit(
            spec_set_bits(y, 0, (o + n - 8) as u8, val & low_mask((o + n - 8) as u8)),
            k,
        ) == (if k + 8 < o + n {
            byte_bit(val, (16 - n + k - o) as u8)
        } else {
            byte_bit(y, k)
        }),
{
}

/// What `spec_slice_get_bits` means bit by bit: the result holds the
/// addressed bits of the sequence in its lowest places and zeroes above
/// them.
pub proof fn lemma_slice_get_bits_bitwise(s: Seq<u8>, offset: nat, bits: nat, k: u8)
    requires
        1 <= bits <= 8,
        offset + bits <= 8 * s.len(),
        k < 8,
    ensures
        byte_bit(spec_slice_get_bits(s, offset, bits), k) == (k + bits >= 8 && bit_at(
            s,
            offset + bits + k - 8,
        )),
{
    let first = (offset / 8) as int;
    let o = offset % 8;
    if o + bits <= 8 {
        lemma_get_bits_bitwise(s[first], o as u8, bits as u8, k);
    } else {
        lemma_straddle_bits(s[first], s[first + 1], o as u8, bits as u8, 0, k);
    }
}

/// What `spec_slice_set_bits` means bit by bit: inside the addressed run
/// the result holds the lowest bits of `val`, outside it the bits of the
/// sequence.
pub proof fn lemma_slice_set_bits_bitwise(s: Seq<u8>, offset: nat, bits: nat, val: u8, i: int)
    requires
        1 <= bits <= 8,
        offset + bits <= 8 * s.len(),
        0 <= i < 8 * s.len(),
    ensures
        spec_slice_set_bits(s, offset, bits, val).len() == s.len(),
        bit_at(spec_slice_set_bits(s, offset, bits, val), i) == (if offset <= i < offset + bits {
            byte_bit(val, (8 - bits + i - offset) as u8)
        } else {
            bit_at(s, i)
        }),
{
    let first = (offset / 8) as int;
    let o = offset % 8;
    let k = (i % 8) as u8;
    if o + bits <= 8 {
        lemma_set_bits_bitwise(s[first], o as u8, bits as u8, val, k);
    } else {
        lemma_straddle_bits(s[first], s[first + 1], o as u8, bits as u8, val, k);
    }
}

proof fn lemma_low_mask_ones(n: u8, m: u32)
    by (bit_vector)
    requires
        n <= 8,
        m == spec_ones(n as u32),
    ensures
        m as u8 == low_mask(n),
{
}

impl BitsGet for [u8] {
    open spec fn spec_get_bits_msb(&self, offset: nat, bits: nat) -> Result<u8, BitsError> {
        spec_slice_get(self@, offset, bits)
    }

    fn get_bits_msb(&self, offset: usize, bits: usize) -> (r: Result<u8, BitsError>) {
        if bits == 0 {
            return Ok(0);
        }
        let l = self.len();
        if l == 0 {
            return Err(BitsError::OutOfBounds);
        }
        match split_ranges(l, offset, bits) {
            Err(e) => Err(e),
            Ok((l, None)) => self[l.byte].get_bits_msb(l.offset, l.bits),
            Ok((l, Some(r))) => {
                let msb = match self[l.byte].get_bits_msb(l.offset, l.bits) {
                    Ok(v) => v << r.bits,
                    Err(e) => {
                        return Err(e);
                    },
                };
                let lsb = match self[r.byte].get_bits_msb(r.offset, r.bits) {
                    Ok(v) => v,
                    Err(e) => {
                        return Err(e);
                    },
                };
                Ok(msb | lsb)
            },
        }
    }
}

impl BitsSet for [u8] {
    open spec fn bytes_view(&self) -> Seq<u8> {
        self@
    }

    open spec fn spec_set_bits_msb(bytes: Seq<u8>, offset: nat, bits: nat, val: u8) -> Result<
        Seq<u8>,
        BitsError,
    > {
        spec_slice_set(bytes, offset, bits, val)
    }

    fn set_bits_msb(&mut self, offset: usize, bits: usize, val: u8) -> (r: Result<(), BitsError>) {
        if bits == 0 {
            return Ok(());
        }
        let l = self.len();
        if l == 0 {
            return Err(BitsError::OutOfBounds);
        }
        match split_ranges(l, offset, bits) {
            Err(e) => Err(e),
            Ok((l, None)) => {
                let mut byte = self[l.byte];
                match byte.set_bits_msb(l.offset, l.bits, val) {
                    Ok(()) => {},
                    Err(e) => {
                        return Err(e);
                    },
                }
                assert(byte.bytes_view()[0] == byte);
                self[l.byte] = byte;
                assert(self@ =~= spec_slice_set_bits(old(self)@, offset as nat, bits as nat, val));
                Ok(())
            },
            Ok((l, Some(r))) => {
                let msb = val >> r.bits;
                let mut left = self[l.byte];
                match left.set_bits_msb(l.offset, l.bits, msb) {
                    Ok(()) => {},
                    Err(e) => {
                        return Err(e);
                    },
                }
                let m = ones(r.bits as u32);
                proof {
                    lemma_low_mask_ones(r.bits as u8, m);
                }
                let lsb = val & (#[verifier::truncate] (m as u8));
                let mut right = self[r.byte];
                match right.set_bits_msb(r.offset, r.bits, lsb) {
                    Ok(()) => {},
                    Err(e) => {
                        return Err(e);
                    },
                }
                assert(left.bytes_view()[0] == left);
                assert(right.bytes_view()[0] == right);
                self[l.byte] = left;
                self[r.byte] = right;
                assert(self@ =~= spec_slice_set_bits(old(self)@, offset as nat, bits as nat, val));
                Ok(())
            },
        }
    }
}


impl<const N: usize> BitsGet for [u8; N] {
    open spec fn spec_get_bits_msb(&self, offset: nat, bits: nat) -> Result<u8, BitsError> {
        spec_slice_get(self@, offset, bits)
    }

    fn get_bits_msb(&self, offset: usize, bits: usize) -> (r: Result<u8, BitsError>) {
        self.as_slice().get_bits_msb(offset, bits)
    }
}

impl<const N: usize> BitsSet for [u8; N] {
    open spec fn bytes_view(&self) -> Seq<u8> {
        self@
    }

    open spec fn spec_set_bits_msb(bytes: Seq<u8>, offset: nat, bits: nat, val: u8) -> Result<
        Seq<u8>,
        BitsError,
    > {
        spec_slice_set(bytes, offset, bits, val)
    }

    fn set_bits_msb(&mut self, offset: usize, bits: usize, val: u8) -> (r: Result<(), BitsError>) {
        let s: &mut [u8] = self;
        s.set_bits_msb(offset, bits, val)
    }
}

} // verus!
