//! Shifting the bits of a sequence of bytes.

use vstd::prelude::*;
use bitvec::order::Msb0;
use bitvec::slice::BitSlice;
use crate::bits::bit_at;
use crate::packing::PackingError;

verus! {

/// The greatest number of bytes whose bits `bitvec` views as one run:
/// the bits of more bytes cannot be counted in the 61 bits, or the 29
/// bits of a smaller machine, that it keeps for the length of a run.
pub open spec fn spec_max_shift_bytes() -> nat {
    (usize::MAX / 64) as nat
}

/// `BitSlice::<u8, Msb0>::from_slice_mut` and `BitSlice::shift_end` of
/// `bitvec`: views the bytes as bits, the most significant bit of each
/// byte first, and moves the bits `by` places away from bit 0, clearing
/// the places that become free. The view panics for more bytes than
/// `bitvec` can view, the shift panics for more places than there are
/// bits.
#[verifier::external_body]
fn bits_shift_right(data: &mut [u8], by: usize)
    requires
        old(data)@.len() <= spec_max_shift_bytes(),
        by <= 8 * old(data)@.len(),
    ensures
        final(data)@.len() == old(data)@.len(),
        forall|i: int|
            0 <= i < 8 * old(data)@.len() ==> #[trigger] bit_at(final(data)@, i) == (i >= by && bit_at(
                old(data)@,
                i - by,
            )),
{
    BitSlice::<u8, Msb0>::from_slice_mut(data).shift_end(by)
}

/// `BitSlice::<u8, Msb0>::from_slice_mut` and `BitSlice::shift_start` of
/// `bitvec`: views the bytes as bits, the most significant bit of each
/// byte first, and moves the bits `by` places towards bit 0, clearing the
/// places that become free. The view panics for more bytes than `bitvec`
/// can view, the shift panics for more places than there are bits.
#[verifier::external_body]
fn bits_shift_left(data: &mut [u8], by: usize)
    requires
        old(data)@.len() <= spec_max_shift_bytes(),
        by <= 8 * old(data)@.len(),
    ensures
        final(data)@.len() == old(data)@.len(),
        forall|i: int|
            0 <= i < 8 * old(data)@.len() ==> #[trigger] bit_at(final(data)@, i) == (i + by < 8 * old(
                data,
            )@.len() && bit_at(old(data)@, i + by)),
{
    BitSlice::<u8, Msb0>::from_slice_mut(data).shift_start(by)
}

/// Bit `i` of bytes whose bits were moved by `shift` places: away from
/// bit 0 for a positive shift, towards it for a negative one. The
/// places that become free hold zeroes.
pub open spec fn spec_shifted_bit(src: Seq<u8>, shift: int, i: int) -> bool {
    0 <= i - shift < 8 * src.len() && bit_at(src, i - shift)
}

/// +1 shift to the right by one bit
/// -1 shift to the left by one bit
///
/// A shift to the right by as many bits as there are, or more, is an
/// error, and so is a shift of more bytes than `spec_max_shift_bytes()`.
/// A shift to the left must not be longer than the bytes.
pub fn shift_by_bits(src: &[u8], shift: isize) -> (r: Result<Vec<u8>, PackingError>)
    requires
        8 * src@.len() <= isize::MAX,
        -shift <= 8 * src@.len(),
    ensures
        r is Ok <==> shift == 0 || (shift < 8 * src@.len() && src@.len() <= spec_max_shift_bytes()),
        match r {
            Ok(v) => v@.len() == src@.len() && forall|i: int|
                0 <= i < 8 * src@.len() ==> #[trigger] bit_at(v@, i) == spec_shifted_bit(
                    src@,
                    shift as int,
                    i,
                ),
            Err(e) => e == PackingError::BitsError,
        },
{
    if shift == 0 {
        return Ok(vstd::slice::slice_to_vec(src));
    }
    let total = (src.len() * 8) as isize;
    if shift >= total {
        return Err(PackingError::BitsError);
    }
    if src.len() > usize::MAX / 64 {
        return Err(PackingError::BitsError);
    }
    let mut data = vstd::slice::slice_to_vec(src);
    if shift > 0 {
        bits_shift_right(data.as_mut_slice(), shift as usize);
    } else {
        bits_shift_left(data.as_mut_slice(), (-shift) as usize);
    }
    Ok(data)
}

} // verus!
