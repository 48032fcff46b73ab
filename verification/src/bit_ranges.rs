//! Where a field's bits stand: at a given bit, in a given range, or
//! after the field before it. Ranges name their last bit: one byte is
//! `0..7`.

use vstd::prelude::*;
use core::ops::Range;
use crate::bits::{byte_bit, low_mask};

verus! {

/// Positions a field after the field before it.
pub struct NextBits;

/// The first and the last bit of a field.
pub trait BitsRange {
    /// First bit of a field of `width` bits that follows `prev`.
    spec fn spec_range_start(&self, width: nat, prev: Option<Range<usize>>) -> int;

    /// Last bit of a field of `width` bits that follows `prev`.
    spec fn spec_range_end(&self, width: nat, prev: Option<Range<usize>>) -> int;

    /// The range from the first to the last bit of a field of
    /// `packed_bit_width` bits. The bit after the last must be a number
    /// of the machine.
    fn get_bits_range(&self, packed_bit_width: usize, prev_range: &Option<Range<usize>>) -> (r: Range<
        usize,
    >)
        requires
            0 <= self.spec_range_start(packed_bit_width as nat, *prev_range) <= usize::MAX,
            0 <= self.spec_range_end(packed_bit_width as nat, *prev_range) < usize::MAX,
        ensures
            r.start == self.spec_range_start(packed_bit_width as nat, *prev_range),
            r.end == self.spec_range_end(packed_bit_width as nat, *prev_range),
    ;
}

impl BitsRange for usize {
    open spec fn spec_range_start(&self, width: nat, prev: Option<Range<usize>>) -> int {
        *self as int
    }

    open spec fn spec_range_end(&self, width: nat, prev: Option<Range<usize>>) -> int {
        *self + width - 1
    }

    fn get_bits_range(&self, packed_bit_width: usize, _prev_range: &Option<Range<usize>>) -> (r: Range<
        usize,
    >) {
        *self..(*self + packed_bit_width - 1)
    }
}

impl BitsRange for Range<usize> {
    open spec fn spec_range_start(&self, width: nat, prev: Option<Range<usize>>) -> int {
        self.start as int
    }

    open spec fn spec_range_end(&self, width: nat, prev: Option<Range<usize>>) -> int {
        self.end as int
    }

    fn get_bits_range(&self, _packed_bit_width: usize, _prev_range: &Option<Range<usize>>) -> (r: Range<
        usize,
    >) {
        self.start..self.end
    }
}

impl BitsRange for NextBits {
    open spec fn spec_range_start(&self, width: nat, prev: Option<Range<usize>>) -> int {
        match prev {
            Some(p) => p.end + 1,
            None => 0,
        }
    }

    open spec fn spec_range_end(&self, width: nat, prev: Option<Range<usize>>) -> int {
        match prev {
            Some(p) => p.end + 1 + width - 1,
            None => width - 1,
        }
    }

    fn get_bits_range(&self, packed_bit_width: usize, prev_range: &Option<Range<usize>>) -> (r: Range<
        usize,
    >) {
        if let Some(prev_range) = prev_range {
            (prev_range.end + 1)..((prev_range.end + 1) + packed_bit_width - 1)
        } else {
            0..(packed_bit_width - 1)
        }
    }
}

/// The byte whose `n` highest bits are set (all of them for `n >= 8`).
pub open spec fn spec_ones_u8(n: u8) -> u8 {
    if n >= 8 {
        0xFFu8
    } else {
        !low_mask((8 - n) as u8)
    }
}

/// Bit `k` of `spec_ones_u8(n)` is set exactly for `k < n`.
pub proof fn lemma_ones_u8_bits(n: u8, k: u8)
    by (bit_vector)
    requires
        k < 8,
    ensures
        byte_bit(spec_ones_u8(n), k) == (k < n),
{
}

proof fn lemma_ones_u8_values()
    by (bit_vector)
    ensures
        spec_ones_u8(0) == 0b00000000u8,
        spec_ones_u8(1) == 0b10000000u8,
        spec_ones_u8(2) == 0b11000000u8,
        spec_ones_u8(3) == 0b11100000u8,
        spec_ones_u8(4) == 0b11110000u8,
        spec_ones_u8(5) == 0b11111000u8,
        spec_ones_u8(6) == 0b11111100u8,
        spec_ones_u8(7) == 0b11111110u8,
{
}

/// A mask of the `n` highest bits of a byte.
pub fn ones_u8(n: u8) -> (r: u8)
    ensures
        r == spec_ones_u8(n),
{
    proof {
        lemma_ones_u8_values();
    }
    match n {
        0 => 0b00000000,
        1 => 0b10000000,
        2 => 0b11000000,
        3 => 0b11100000,
        4 => 0b11110000,
        5 => 0b11111000,
        6 => 0b11111100,
        7 => 0b11111110,
        _ => 0b11111111,
    }
}

} // verus!
