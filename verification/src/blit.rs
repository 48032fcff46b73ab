//! Embedding a field's packed bytes at a bit offset of a larger buffer,
//! and extracting them again.
//!
//! A field of `bit_width` bits is handed over in the least number of
//! bytes that hold it. The field stands at the end of these bytes: the
//! bits of the first byte that are too many are padding.

use vstd::prelude::*;
use crate::bits::{bit_at, byte_bit, low_mask, bytes_required_for_bits, spec_bytes_required_for_bits};
use crate::packing::PackingError;

verus! {

/// Number of padding bits in front of a packed field of `bit_width` bits.
pub open spec fn field_padding(bit_width: nat) -> nat {
    (8 * spec_bytes_required_for_bits(bit_width) - bit_width) as nat
}

/// Whether a field can be copied bytewise: it starts and ends at a byte
/// boundary and holds at least one byte.
pub open spec fn is_byte_copy(start_bit: nat, bit_width: nat) -> bool {
    start_bit % 8 == 0 && bit_width % 8 == 0 && bit_width >= 8
}

/// Bit `j` of a buffer after a field was packed into it: inside the field
/// the bit of the packed bytes, written over what was there when the
/// field is copied bytewise and joined by "or" otherwise; outside the
/// field the bit that was there.
pub open spec fn spec_packed_bit(
    before: Seq<u8>,
    packed: Seq<u8>,
    start_bit: nat,
    bit_width: nat,
    j: int,
) -> bool {
    if start_bit <= j < start_bit + bit_width {
        let field_bit = bit_at(packed, j - start_bit + field_padding(bit_width));
        if is_byte_copy(start_bit, bit_width) {
            field_bit
        } else {
            bit_at(before, j) || field_bit
        }
    } else {
        bit_at(before, j)
    }
}

/// `after` is `before` with the field packed into it.
pub open spec fn packed_into(
    before: Seq<u8>,
    packed: Seq<u8>,
    start_bit: nat,
    bit_width: nat,
    after: Seq<u8>,
) -> bool {
    &&& after.len() == before.len()
    &&& forall|j: int|
        0 <= j < 8 * before.len() ==> #[trigger] bit_at(after, j) == spec_packed_bit(
            before,
            packed,
            start_bit,
            bit_width,
            j,
        )
}

/// Bit `k` of the bytes that unpacking a field gives: the field's bits
/// at the end, zeroes for the padding in front.
pub open spec fn spec_unpacked_bit(src: Seq<u8>, start_bit: nat, bit_width: nat, k: int) -> bool {
    k >= field_padding(bit_width) && bit_at(src, start_bit + k - field_padding(bit_width))
}

/// `field` holds the field of `src` as unpacking gives it.
pub open spec fn unpacked_from(src: Seq<u8>, start_bit: nat, bit_width: nat, field: Seq<u8>) -> bool {
    &&& field.len() == spec_bytes_required_for_bits(bit_width)
    &&& forall|k: int|
        0 <= k < 8 * field.len() ==> #[trigger] bit_at(field, k) == spec_unpacked_bit(
            src,
            start_bit,
            bit_width,
            k,
        )
}

/// The byte with the given bits, the most significant first.
pub open spec fn byte_of_bits(
    b0: bool,
    b1: bool,
    b2: bool,
    b3: bool,
    b4: bool,
    b5: bool,
    b6: bool,
    b7: bool,
) -> u8 {
    (if b0 {
        0x80u8
    } else {
        0u8
    }) | (if b1 {
        0x40u8
    } else {
        0u8
    }) | (if b2 {
        0x20u8
    } else {
        0u8
    }) | (if b3 {
        0x10u8
    } else {
        0u8
    }) | (if b4 {
        0x08u8
    } else {
        0u8
    }) | (if b5 {
        0x04u8
    } else {
        0u8
    }) | (if b6 {
        0x02u8
    } else {
        0u8
    }) | (if b7 {
        0x01u8
    } else {
        0u8
    })
}

/// The bits of `byte_of_bits` are the given bits.
pub proof fn lemma_byte_of_bits(
    b0: bool,
    b1: bool,
    b2: bool,
    b3: bool,
    b4: bool,
    b5: bool,
    b6: bool,
    b7: bool,
)
    by (bit_vector)
    ensures
        byte_bit(byte_of_bits(b0, b1, b2, b3, b4, b5, b6, b7), 0) == b0,
        byte_bit(byte_of_bits(b0, b1, b2, b3, b4, b5, b6, b7), 1) == b1,
        byte_bit(byte_of_bits(b0, b1, b2, b3, b4, b5, b6, b7), 2) == b2,
        byte_bit(byte_of_bits(b0, b1, b2, b3, b4, b5, b6, b7), 3) == b3,
        byte_bit(byte_of_bits(b0, b1, b2, b3, b4, b5, b6, b7), 4) == b4,
        byte_bit(byte_of_bits(b0, b1, b2, b3, b4, b5, b6, b7), 5) == b5,
        byte_bit(byte_of_bits(b0, b1, b2, b3, b4, b5, b6, b7), 6) == b6,
        byte_bit(byte_of_bits(b0, b1, b2, b3, b4, b5, b6, b7), 7) == b7,
{
}

/// The bytes of a buffer after a field was packed into it.
#[verifier::opaque]
pub open spec fn spec_pack_bits(before: Seq<u8>, packed: Seq<u8>, start_bit: nat, bit_width: nat) -> Seq<
    u8,
> {
    Seq::new(
        before.len(),
        |i: int|
            byte_of_bits(
                spec_packed_bit(before, packed, start_bit, bit_width, 8 * i),
                spec_packed_bit(before, packed, start_bit, bit_width, 8 * i + 1),
                spec_packed_bit(before, packed, start_bit, bit_width, 8 * i + 2),
                spec_packed_bit(before, packed, start_bit, bit_width, 8 * i + 3),
                spec_packed_bit(before, packed, start_bit, bit_width, 8 * i + 4),
                spec_packed_bit(before, packed, start_bit, bit_width, 8 * i + 5),
                spec_packed_bit(before, packed, start_bit, bit_width, 8 * i + 6),
                spec_packed_bit(before, packed, start_bit, bit_width, 8 * i + 7),
            ),
    )
}

/// The bytes that unpacking a field gives.
#[verifier::opaque]
pub open spec fn spec_unpack_bits(src: Seq<u8>, start_bit: nat, bit_width: nat) -> Seq<u8> {
    Seq::new(
        spec_bytes_required_for_bits(bit_width),
        |i: int|
            byte_of_bits(
                spec_unpacked_bit(src, start_bit, bit_width, 8 * i),
                spec_unpacked_bit(src, start_bit, bit_width, 8 * i + 1),
                spec_unpacked_bit(src, start_bit, bit_width, 8 * i + 2),
                spec_unpacked_bit(src, start_bit, bit_width, 8 * i + 3),
                spec_unpacked_bit(src, start_bit, bit_width, 8 * i + 4),
                spec_unpacked_bit(src, start_bit, bit_width, 8 * i + 5),
                spec_unpacked_bit(src, start_bit, bit_width, 8 * i + 6),
                spec_unpacked_bit(src, start_bit, bit_width, 8 * i + 7),
            ),
    )
}

/// `spec_pack_bits` is the one buffer with the field packed into it.
pub proof fn lemma_spec_pack_bits(before: Seq<u8>, packed: Seq<u8>, start_bit: nat, bit_width: nat)
    ensures
        packed_into(before, packed, start_bit, bit_width, spec_pack_bits(before, packed, start_bit, bit_width)),
        forall|after: Seq<u8>| #[trigger]
            packed_into(before, packed, start_bit, bit_width, after) ==> after == spec_pack_bits(
                before,
                packed,
                start_bit,
                bit_width,
            ),
{
    reveal(spec_pack_bits);
    let r = spec_pack_bits(before, packed, start_bit, bit_width);
    assert forall|j: int| 0 <= j < 8 * before.len() implies #[trigger] bit_at(r, j) == spec_packed_bit(
        before,
        packed,
        start_bit,
        bit_width,
        j,
    ) by {
        let i = j / 8;
        lemma_byte_of_bits(
            spec_packed_bit(before, packed, start_bit, bit_width, 8 * i),
            spec_packed_bit(before, packed, start_bit, bit_width, 8 * i + 1),
            spec_packed_bit(before, packed, start_bit, bit_width, 8 * i + 2),
            spec_packed_bit(before, packed, start_bit, bit_width, 8 * i + 3),
            spec_packed_bit(before, packed, start_bit, bit_width, 8 * i + 4),
            spec_packed_bit(before, packed, start_bit, bit_width, 8 * i + 5),
            spec_packed_bit(before, packed, start_bit, bit_width, 8 * i + 6),
            spec_packed_bit(before, packed, start_bit, bit_width, 8 * i + 7),
        );
    }
    assert forall|after: Seq<u8>| #[trigger]
        packed_into(before, packed, start_bit, bit_width, after) implies after == r by {
        lemma_bits_determine_bytes(after, r);
    }
}

/// `spec_unpack_bits` is the one sequence of bytes that holds the field
/// as unpacking gives it.
pub proof fn lemma_spec_unpack_bits(src: Seq<u8>, start_bit: nat, bit_width: nat)
    ensures
        unpacked_from(src, start_bit, bit_width, spec_unpack_bits(src, start_bit, bit_width)),
        forall|field: Seq<u8>| #[trigger]
            unpacked_from(src, start_bit, bit_width, field) ==> field == spec_unpack_bits(
                src,
                start_bit,
                bit_width,
            ),
{
    reveal(spec_unpack_bits);
    let r = spec_unpack_bits(src, start_bit, bit_width);
    assert forall|k: int| 0 <= k < 8 * r.len() implies #[trigger] bit_at(r, k) == spec_unpacked_bit(
        src,
        start_bit,
        bit_width,
        k,
    ) by {
        let i = k / 8;
        lemma_byte_of_bits(
            spec_unpacked_bit(src, start_bit, bit_width, 8 * i),
            spec_unpacked_bit(src, start_bit, bit_width, 8 * i + 1),
            spec_unpacked_bit(src, start_bit, bit_width, 8 * i + 2),
            spec_unpacked_bit(src, start_bit, bit_width, 8 * i + 3),
            spec_unpacked_bit(src, start_bit, bit_width, 8 * i + 4),
            spec_unpacked_bit(src, start_bit, bit_width, 8 * i + 5),
            spec_unpacked_bit(src, start_bit, bit_width, 8 * i + 6),
            spec_unpacked_bit(src, start_bit, bit_width, 8 * i + 7),
        );
    }
    assert forall|field: Seq<u8>| #[trigger]
        unpacked_from(src, start_bit, bit_width, field) implies field == r by {
        lemma_bits_determine_bytes(field, r);
    }
}

/// The error of `pack_bits`, if any: the packed bytes must be as many as
/// the width asks for, and a field that holds a bit must lie inside the
/// buffer.
pub open spec fn spec_pack_bits_error(
    target_len: nat,
    packed_len: nat,
    start_bit: nat,
    bit_width: nat,
) -> Option<PackingError> {
    if packed_len != spec_bytes_required_for_bits(bit_width) {
        Some(
            PackingError::BufferSizeMismatch {
                expected: spec_bytes_required_for_bits(bit_width) as usize,
                actual: packed_len as usize,
            },
        )
    } else if bit_width > 0 && start_bit + bit_width > 8 * target_len {
        Some(PackingError::BitsError)
    } else {
        None
    }
}

/// The error of `unpack_bits`, if any.
pub open spec fn spec_unpack_bits_error(src_len: nat, start_bit: nat, bit_width: nat) -> Option<
    PackingError,
> {
    if bit_width > 0 && start_bit + bit_width > 8 * src_len {
        Some(PackingError::BitsError)
    } else {
        None
    }
}

/// Bytes of zero hold no bit.
pub proof fn lemma_zero_bits(n: nat, j: int)
    requires
        0 <= j < 8 * n,
    ensures
        !bit_at(Seq::new(n, |i: int| 0u8), j),
{
    lemma_bits_joined(0, 0, (j % 8) as u8);
}

/// Sequences of bytes with the same bits are the same sequence.
pub proof fn lemma_bits_determine_bytes(a: Seq<u8>, b: Seq<u8>)
    requires
        a.len() == b.len(),
        forall|j: int| 0 <= j < 8 * a.len() ==> bit_at(a, j) == bit_at(b, j),
    ensures
        a == b,
{
    assert forall|i: int| 0 <= i < a.len() implies a[i] == b[i] by {
        assert(bit_at(a, 8 * i) == bit_at(b, 8 * i));
        assert(bit_at(a, 8 * i + 1) == bit_at(b, 8 * i + 1));
        assert(bit_at(a, 8 * i + 2) == bit_at(b, 8 * i + 2));
        assert(bit_at(a, 8 * i + 3) == bit_at(b, 8 * i + 3));
        assert(bit_at(a, 8 * i + 4) == bit_at(b, 8 * i + 4));
        assert(bit_at(a, 8 * i + 5) == bit_at(b, 8 * i + 5));
        assert(bit_at(a, 8 * i + 6) == bit_at(b, 8 * i + 6));
        assert(bit_at(a, 8 * i + 7) == bit_at(b, 8 * i + 7));
        crate::bits::lemma_byte_ext(a[i], b[i]);
    }
    assert(a =~= b);
}

/// The bits of two bytes joined by "or", and of the byte zero.
pub proof fn lemma_bits_joined(x: u8, y: u8, k: u8)
    by (bit_vector)
    requires
        k < 8,
    ensures
        byte_bit(x | y, k) == (byte_bit(x, k) || byte_bit(y, k)),
        !byte_bit(0u8, k),
        byte_bit(1u8, k) == (k == 7),
{
}

/// The bits of a byte of which the `l` lowest bits are kept.
pub proof fn lemma_bits_masked(x: u8, k: u8, l: u8)
    by (bit_vector)
    requires
        k < 8,
        l <= 8,
    ensures
        byte_bit(x & low_mask(l), k) == (k + l >= 8 && byte_bit(x, k)),
        x & low_mask(8) == x,
{
}

/// The bits of a packed byte that is moved into its place in the buffer.
proof fn lemma_bits_packed(x: u8, k: u8, s: u8, l: u8)
    by (bit_vector)
    requires
        k < 8,
        s < 8,
        l <= 8,
    ensures
        byte_bit((x & low_mask(l)) << s, k) == (k + s < 8 && k + s + l >= 8 && byte_bit(
            x,
            (k + s) as u8,
        )),
        byte_bit((x & low_mask(l)) >> s, k) == (k >= s && k - s + l >= 8 && byte_bit(
            x,
            (k - s) as u8,
        )),
        s >= 1 ==> byte_bit(
            (((x & !low_mask((8 - s) as u8)) as u16) >> ((8 - s) as u8)) as u8,
            k,
        ) == (k + s >= 8 && byte_bit(x, (k + s - 8) as u8)),
        s >= 1 ==> byte_bit((((x & low_mask(s)) as u16) << ((8 - s) as u8)) as u8, k) == (k < s
            && byte_bit(x, (k + 8 - s) as u8)),
{
}

/// The bits of a byte of the buffer that is moved back into its place
/// in the packed bytes.
proof fn lemma_bits_unpacked(y: u8, k: u8, s: u8, l: u8)
    by (bit_vector)
    requires
        k < 8,
        s < 8,
        l <= 8,
    ensures
        byte_bit((y >> s) & low_mask(l), k) == (k >= s && k + l >= 8 && byte_bit(
            y,
            (k - s) as u8,
        )),
        byte_bit((y << s) & low_mask(l), k) == (k + s < 8 && k + l >= 8 && byte_bit(
            y,
            (k + s) as u8,
        )),
        s >= 1 ==> byte_bit(
            (((y as u16) >> ((8 - s) as u8)) & (low_mask(s) as u16)) as u8,
            k,
        ) == (k + s >= 8 && byte_bit(y, (k + s - 8) as u8)),
        s >= 1 ==> byte_bit(
            (((y as u16) << ((8 - s) as u8)) & ((!low_mask((8 - s) as u8)) as u16)) as u8,
            k,
        ) == (k < s && byte_bit(y, (k + 8 - s) as u8)),
{
}

/// The masks of the lowest bits of a byte.
pub proof fn lemma_low_mask_values()
    by (bit_vector)
    ensures
        low_mask(0) == 0b00000000u8,
        low_mask(1) == 0b00000001u8,
        low_mask(2) == 0b00000011u8,
        low_mask(3) == 0b00000111u8,
        low_mask(4) == 0b00001111u8,
        low_mask(5) == 0b00011111u8,
        low_mask(6) == 0b00111111u8,
        low_mask(7) == 0b01111111u8,
        low_mask(8) == 0b11111111u8,
{
}

/// The byte whose `n` lowest bits are set.
fn low_ones(n: usize) -> (m: u8)
    requires
        n <= 8,
    ensures
        m == low_mask(n as u8),
{
    proof {
        lemma_low_mask_values();
    }
    match n {
        0 => 0b00000000,
        1 => 0b00000001,
        2 => 0b00000011,
        3 => 0b00000111,
        4 => 0b00001111,
        5 => 0b00011111,
        6 => 0b00111111,
        7 => 0b01111111,
        _ => 0b11111111,
    }
}

/// Bit `j` of the buffer while the field is being joined in: the bits
/// below `done` hold the field already.
spec fn partly_packed_bit(
    before: Seq<u8>,
    packed: Seq<u8>,
    start_bit: nat,
    bit_width: nat,
    done: int,
    j: int,
) -> bool {
    if start_bit <= j < start_bit + bit_width && j < done {
        bit_at(before, j) || bit_at(packed, j - start_bit + field_padding(bit_width))
    } else {
        bit_at(before, j)
    }
}

/// Joins the field in where its bits stand as far to the right in the
/// packed bytes as in the buffer, or further: each packed byte moves
/// `shift` bits to the left, and the bits that fall out of it come from
/// the top of the next packed byte.
#[verifier::rlimit(60)]
fn blit_left(target: &mut [u8], packed: &[u8], start_byte: usize, o: usize, pad: usize)
    requires
        packed@.len() >= 1,
        o <= pad <= 7,
        pad > 0,
        8 * start_byte + o + 8 * packed@.len() - pad <= 8 * old(target)@.len(),
    ensures
        packed_into(
            old(target)@,
            packed@,
            (8 * start_byte + o) as nat,
            (8 * packed@.len() - pad) as nat,
            final(target)@,
        ),
{
    let len = packed.len();
    let n = target.len();
    let shift = pad - o;
    let ghost start = (8 * start_byte + o) as nat;
    let ghost width = (8 * len - pad) as nat;
    assert(field_padding(width) == pad);
    let mut i: usize = 0;
    while i < len
        invariant
            i <= len,
            len == packed@.len(),
            len >= 1,
            o <= pad <= 7,
            pad > 0,
            shift == pad - o,
            start == 8 * start_byte + o,
            width == 8 * len - pad,
            field_padding(width) == pad,
            start + width <= 8 * target@.len(),
            target@.len() == old(target)@.len(),
            n == target@.len(),
            forall|j: int|
                0 <= j < 8 * target@.len() ==> #[trigger] bit_at(target@, j) == partly_packed_bit(
                    old(target)@,
                    packed@,
                    start,
                    width,
                    8 * (start_byte + i),
                    j,
                ),
        decreases len - i,
    {
        let l: usize = if i == 0 {
            8 - pad
        } else {
            8
        };
        let src_mask = low_ones(l);
        let d = start_byte + i;
        let mut v = (packed[i] & src_mask) << shift;
        let ghost main = v;
        let ghost carry = 0u8;
        if shift > 0 && i + 1 < len {
            let carry_mask = !low_ones(8 - shift);
            let c = #[verifier::truncate] ((((packed[i + 1] & carry_mask) as u16) >> (8 - shift)) as u8);
            proof {
                carry = c;
            }
            v = v | c;
        }
        let ghost prev = target@;
        let cur = target[d];
        target[d] = cur | v;
        proof {
            assert forall|j: int| 0 <= j < 8 * target@.len() implies #[trigger] bit_at(target@, j)
                == partly_packed_bit(
                old(target)@,
                packed@,
                start,
                width,
                8 * (start_byte + i + 1),
                j,
            ) by {
                let t = j / 8;
                let k = (j % 8) as u8;
                assert(bit_at(prev, j) == partly_packed_bit(
                    old(target)@,
                    packed@,
                    start,
                    width,
                    8 * (start_byte + i),
                    j,
                ));
                if t == d {
                    lemma_bits_joined(cur, v, k);
                    lemma_bits_joined(main, carry, k);
                    lemma_bits_packed(packed@[i as int], k, shift as u8, l as u8);
                    if shift > 0 && i + 1 < len {
                        lemma_bits_packed(packed@[i + 1], k, shift as u8, 0);
                    }
                    let m = j - start + pad;
                    assert(m == 8 * i + k + shift);
                    if k + shift < 8 {
                        assert(m / 8 == i as int && m % 8 == k + shift);
                    } else {
                        assert(m / 8 == i + 1 && m % 8 == k + shift - 8);
                    }
                }
            }
        }
        i += 1;
    }
}

/// Joins the field in where its bits stand further to the right in the
/// buffer than in the packed bytes: each packed byte moves `s` bits to
/// the right, and the bits that fall out of it go to the top of the next
/// byte of the buffer.
#[verifier::rlimit(60)]
fn blit_right(target: &mut [u8], packed: &[u8], start_byte: usize, o: usize, pad: usize)
    requires
        packed@.len() >= 1,
        pad < o <= 7,
        8 * start_byte + o + 8 * packed@.len() - pad <= 8 * old(target)@.len(),
    ensures
        packed_into(
            old(target)@,
            packed@,
            (8 * start_byte + o) as nat,
            (8 * packed@.len() - pad) as nat,
            final(target)@,
        ),
{
    let len = packed.len();
    let n = target.len();
    let s = o - pad;
    let ghost start = (8 * start_byte + o) as nat;
    let ghost width = (8 * len - pad) as nat;
    assert(field_padding(width) == pad);
    let mut i: usize = 0;
    while i < len
        invariant
            i <= len,
            len == packed@.len(),
            len >= 1,
            pad < o <= 7,
            s == o - pad,
            start == 8 * start_byte + o,
            width == 8 * len - pad,
            field_padding(width) == pad,
            start + width <= 8 * target@.len(),
            target@.len() == old(target)@.len(),
            n == target@.len(),
            forall|j: int|
                0 <= j < 8 * target@.len() ==> #[trigger] bit_at(target@, j) == partly_packed_bit(
                    old(target)@,
                    packed@,
                    start,
                    width,
                    8 * (start_byte + i) + s,
                    j,
                ),
        decreases len - i,
    {
        let l: usize = if i == 0 {
            8 - pad
        } else {
            8
        };
        let src_mask = low_ones(l);
        let d = start_byte + i;
        let ghost prev = target@;
        let cur = target[d];
        let main = (packed[i] & src_mask) >> s;
        target[d] = cur | main;
        let spill_mask = low_ones(s);
        let next = target[d + 1];
        let spill = #[verifier::truncate] ((((packed[i] & spill_mask) as u16) << (8 - s)) as u8);
        target[d + 1] = next | spill;
        proof {
            assert forall|j: int| 0 <= j < 8 * target@.len() implies #[trigger] bit_at(target@, j)
                == partly_packed_bit(
                old(target)@,
                packed@,
                start,
                width,
                8 * (start_byte + i + 1) + s,
                j,
            ) by {
                let t = j / 8;
                let k = (j % 8) as u8;
                assert(bit_at(prev, j) == partly_packed_bit(
                    old(target)@,
                    packed@,
                    start,
                    width,
                    8 * (start_byte + i) + s,
                    j,
                ));
                let m = j - start + pad;
                if t == d {
                    lemma_bits_joined(cur, main, k);
                    lemma_bits_packed(packed@[i as int], k, s as u8, l as u8);
                    if k >= s {
                        assert(m == 8 * i + (k - s));
                        assert(m / 8 == i as int && m % 8 == k - s);
                    }
                } else if t == d + 1 {
                    lemma_bits_joined(next, spill, k);
                    lemma_bits_packed(packed@[i as int], k, s as u8, 0);
                    if k < s {
                        assert(m == 8 * i + (k + 8 - s));
                        assert(m / 8 == i as int && m % 8 == k + 8 - s);
                    }
                }
            }
        }
        i += 1;
    }
}

/// Packs a field into a buffer: the `bit_width` bits at the end of
/// `packed` go to the bits of `target` from `start_bit` on. A field that
/// starts and ends at a byte boundary is copied; any other is joined to
/// the bits that are there by "or". A field of no bits changes nothing.
pub fn pack_bits(target: &mut [u8], packed: &[u8], start_bit: usize, bit_width: usize) -> (r: Result<
    (),
    PackingError,
>)
    ensures
        match spec_pack_bits_error(
            old(target)@.len(),
            packed@.len(),
            start_bit as nat,
            bit_width as nat,
        ) {
            Some(e) => r == Err::<(), PackingError>(e) && final(target)@ == old(target)@,
            None => r.is_ok() && final(target)@ == spec_pack_bits(
                old(target)@,
                packed@,
                start_bit as nat,
                bit_width as nat,
            ),
        },
{
    proof {
        lemma_spec_pack_bits(old(target)@, packed@, start_bit as nat, bit_width as nat);
    }
    let packed_field_len = bytes_required_for_bits(bit_width);
    if packed.len() != packed_field_len {
        return Err(
            PackingError::BufferSizeMismatch { expected: packed_field_len, actual: packed.len() },
        );
    }
    if bit_width == 0 {
        assert(packed_into(old(target)@, packed@, start_bit as nat, bit_width as nat, target@));
        return Ok(());
    }
    let n = target.len();
    if (start_bit as u128) + (bit_width as u128) > 8 * (n as u128) {
        return Err(PackingError::BitsError);
    }
    let start_byte = start_bit / 8;
    let o = start_bit % 8;
    let pad = (8 - bit_width % 8) % 8;
    if o == 0 && pad == 0 {
        let mut i: usize = 0;
        while i < packed_field_len
            invariant
                i <= packed_field_len,
                packed_field_len == packed@.len(),
                bit_width == 8 * packed_field_len,
                start_bit == 8 * start_byte,
                start_bit + bit_width <= 8 * n,
                n == target@.len(),
                n == old(target)@.len(),
                forall|b: int| start_byte <= b < start_byte + i ==> #[trigger] target@[b] == packed@[b - start_byte],
                forall|b: int|
                    0 <= b < n && !(start_byte <= b < start_byte + i) ==> #[trigger] target@[b] == old(target)@[b],
            decreases packed_field_len - i,
        {
            target[start_byte + i] = packed[i];
            i += 1;
        }
        assert(field_padding(bit_width as nat) == 0);
        assert forall|j: int| 0 <= j < 8 * n implies #[trigger] bit_at(target@, j) == spec_packed_bit(
            old(target)@,
            packed@,
            start_bit as nat,
            bit_width as nat,
            j,
        ) by {
            if start_bit <= j < start_bit + bit_width {
                assert((j - start_bit) / 8 == j / 8 - start_byte);
                assert((j - start_bit) % 8 == j % 8);
            }
        }
        assert(packed_into(old(target)@, packed@, start_bit as nat, bit_width as nat, target@));
        return Ok(());
    }
    assert(field_padding(bit_width as nat) == pad);
    if pad >= o {
        blit_left(target, packed, start_byte, o, pad);
    } else {
        blit_right(target, packed, start_byte, o, pad);
    }
    assert(packed_into(old(target)@, packed@, start_bit as nat, bit_width as nat, target@));
    Ok(())
}

/// `len` bytes of zero.
pub fn zeroed(len: usize) -> (v: Vec<u8>)
    ensures
        v@ == Seq::new(len as nat, |i: int| 0u8),
{
    let mut v: Vec<u8> = Vec::new();
    let mut i: usize = 0;
    while i < len
        invariant
            i <= len,
            v@ == Seq::new(i as nat, |i: int| 0u8),
        decreases len - i,
    {
        v.push(0);
        assert(v@ =~= Seq::new((i + 1) as nat, |i: int| 0u8));
        i += 1;
    }
    v
}

/// Bit `k` of the field's bytes while the field is being extracted: the
/// bits below `done` are extracted already, the others are zero.
spec fn partly_unpacked_bit(src: Seq<u8>, start_bit: nat, bit_width: nat, done: int, k: int) -> bool {
    k < done && spec_unpacked_bit(src, start_bit, bit_width, k)
}

/// Extracts a field whose bits stand as far to the right in the packed
/// bytes as in the buffer, or further.
#[verifier::rlimit(60)]
fn extract_left(src: &[u8], len: usize, start_byte: usize, o: usize, pad: usize) -> (b: Vec<u8>)
    requires
        len >= 1,
        o <= pad <= 7,
        pad > 0,
        8 * start_byte + o + 8 * len - pad <= 8 * src@.len(),
    ensures
        unpacked_from(src@, (8 * start_byte + o) as nat, (8 * len - pad) as nat, b@),
{
    let shift = pad - o;
    let n = src.len();
    let ghost start = (8 * start_byte + o) as nat;
    let ghost width = (8 * len - pad) as nat;
    assert(field_padding(width) == pad);
    assert(spec_bytes_required_for_bits(width) == len);
    let mut b = zeroed(len);
    assert forall|k: int| 0 <= k < 8 * len implies !(#[trigger] bit_at(b@, k)) by {
        lemma_bits_joined(0, 0, (k % 8) as u8);
    }
    let mut i: usize = 0;
    while i < len
        invariant
            i <= len,
            len >= 1,
            o <= pad <= 7,
            pad > 0,
            shift == pad - o,
            start == 8 * start_byte + o,
            width == 8 * len - pad,
            field_padding(width) == pad,
            start + width <= 8 * n,
            n == src@.len(),
            b@.len() == len,
            forall|k: int|
                0 <= k < 8 * len ==> #[trigger] bit_at(b@, k) == partly_unpacked_bit(
                    src@,
                    start,
                    width,
                    8 * i + shift,
                    k,
                ),
        decreases len - i,
    {
        let l: usize = if i == 0 {
            8 - pad
        } else {
            8
        };
        let src_mask = low_ones(l);
        let d = start_byte + i;
        let ghost prev = b@;
        let cur = b[i];
        let main = (src[d] >> shift) & src_mask;
        b[i] = cur | main;
        let ghost next = 0u8;
        let ghost carry = 0u8;
        if shift > 0 && i + 1 < len {
            let carry_mask = !low_ones(8 - shift);
            let nx = b[i + 1];
            let c = #[verifier::truncate] ((((src[d] as u16) << (8 - shift)) & (carry_mask as u16)) as u8);
            proof {
                next = nx;
                carry = c;
            }
            b[i + 1] = nx | c;
        }
        proof {
            assert forall|k: int| 0 <= k < 8 * len implies #[trigger] bit_at(b@, k)
                == partly_unpacked_bit(src@, start, width, 8 * (i + 1) + shift, k) by {
                let t = k / 8;
                let kk = (k % 8) as u8;
                assert(bit_at(prev, k) == partly_unpacked_bit(src@, start, width, 8 * i + shift, k));
                let j = start + k - pad;
                if t == i {
                    lemma_bits_joined(cur, main, kk);
                    lemma_bits_unpacked(src@[d as int], kk, shift as u8, l as u8);
                    if kk >= shift {
                        assert(j == 8 * d + (kk - shift));
                        assert(j / 8 == d as int && j % 8 == kk - shift);
                    }
                } else if t == i + 1 && shift > 0 {
                    lemma_bits_joined(next, carry, kk);
                    lemma_bits_unpacked(src@[d as int], kk, shift as u8, 0);
                    if kk < shift {
                        assert(j == 8 * d + (kk + 8 - shift));
                        assert(j / 8 == d as int && j % 8 == kk + 8 - shift);
                    }
                }
            }
        }
        i += 1;
    }
    b
}

/// Extracts a field whose bits stand further to the right in the buffer
/// than in the packed bytes.
#[verifier::rlimit(60)]
fn extract_right(src: &[u8], len: usize, start_byte: usize, o: usize, pad: usize) -> (b: Vec<u8>)
    requires
        len >= 1,
        pad < o <= 7,
        8 * start_byte + o + 8 * len - pad <= 8 * src@.len(),
    ensures
        unpacked_from(src@, (8 * start_byte + o) as nat, (8 * len - pad) as nat, b@),
{
    let s = o - pad;
    let n = src.len();
    let ghost start = (8 * start_byte + o) as nat;
    let ghost width = (8 * len - pad) as nat;
    assert(field_padding(width) == pad);
    assert(spec_bytes_required_for_bits(width) == len);
    let mut b = zeroed(len);
    assert forall|k: int| 0 <= k < 8 * len implies !(#[trigger] bit_at(b@, k)) by {
        lemma_bits_joined(0, 0, (k % 8) as u8);
    }
    let mut i: usize = 0;
    while i < len
        invariant
            i <= len,
            len >= 1,
            pad < o <= 7,
            s == o - pad,
            start == 8 * start_byte + o,
            width == 8 * len - pad,
            field_padding(width) == pad,
            start + width <= 8 * n,
            n == src@.len(),
            b@.len() == len,
            forall|k: int|
                0 <= k < 8 * len ==> #[trigger] bit_at(b@, k) == partly_unpacked_bit(
                    src@,
                    start,
                    width,
                    8 * i,
                    k,
                ),
        decreases len - i,
    {
        let l: usize = if i == 0 {
            8 - pad
        } else {
            8
        };
        let src_mask = low_ones(l);
        let d = start_byte + i;
        let ghost prev = b@;
        let cur = b[i];
        let main = (src[d] << s) & src_mask;
        let spill_mask = low_ones(s);
        let spill = #[verifier::truncate] ((((src[d + 1] as u16) >> (8 - s)) & (spill_mask as u16)) as u8);
        b[i] = (cur | main) | spill;
        proof {
            assert forall|k: int| 0 <= k < 8 * len implies #[trigger] bit_at(b@, k)
                == partly_unpacked_bit(src@, start, width, 8 * (i + 1), k) by {
                let t = k / 8;
                let kk = (k % 8) as u8;
                assert(bit_at(prev, k) == partly_unpacked_bit(src@, start, width, 8 * i, k));
                let j = start + k - pad;
                if t == i {
                    lemma_bits_joined(cur | main, spill, kk);
                    lemma_bits_joined(cur, main, kk);
                    lemma_bits_unpacked(src@[d as int], kk, s as u8, l as u8);
                    lemma_bits_unpacked(src@[d + 1], kk, s as u8, 0);
                    if kk + s < 8 {
                        assert(j == 8 * d + (kk + s));
                        assert(j / 8 == d as int && j % 8 == kk + s);
                    } else {
                        assert(j == 8 * (d + 1) + (kk + s - 8));
                        assert(j / 8 == d + 1 && j % 8 == kk + s - 8);
                    }
                }
            }
        }
        i += 1;
    }
    b
}

/// Unpacks a field from a buffer: the `bit_width` bits of `src` from
/// `start_bit` on, at the end of the least number of bytes that hold
/// them, with zeroes in front.
pub fn unpack_bits(src: &[u8], start_bit: usize, bit_width: usize) -> (r: Result<Vec<u8>, PackingError>)
    ensures
        match spec_unpack_bits_error(src@.len(), start_bit as nat, bit_width as nat) {
            Some(e) => r == Err::<Vec<u8>, PackingError>(e),
            None => (r matches Ok(b) && b@ == spec_unpack_bits(src@, start_bit as nat, bit_width as nat)),
        },
{
    proof {
        lemma_spec_unpack_bits(src@, start_bit as nat, bit_width as nat);
    }
    if bit_width == 0 {
        let b: Vec<u8> = Vec::new();
        assert(unpacked_from(src@, start_bit as nat, bit_width as nat, b@));
        return Ok(b);
    }
    let n = src.len();
    if (start_bit as u128) + (bit_width as u128) > 8 * (n as u128) {
        return Err(PackingError::BitsError);
    }
    let packed_field_len = bytes_required_for_bits(bit_width);
    let start_byte = start_bit / 8;
    let o = start_bit % 8;
    let pad = (8 - bit_width % 8) % 8;
    assert(field_padding(bit_width as nat) == pad);
    if o == 0 && pad == 0 {
        let mut b: Vec<u8> = Vec::new();
        let mut i: usize = 0;
        while i < packed_field_len
            invariant
                i <= packed_field_len,
                bit_width == 8 * packed_field_len,
                start_bit == 8 * start_byte,
                start_bit + bit_width <= 8 * n,
                n == src@.len(),
                b@.len() == i,
                forall|k: int| 0 <= k < i ==> #[trigger] b@[k] == src@[start_byte + k],
            decreases packed_field_len - i,
        {
            b.push(src[start_byte + i]);
            i += 1;
        }
        assert forall|k: int| 0 <= k < 8 * b@.len() implies #[trigger] bit_at(b@, k)
            == spec_unpacked_bit(src@, start_bit as nat, bit_width as nat, k) by {
            assert((start_bit + k) / 8 == start_byte + k / 8);
            assert((start_bit + k) % 8 == k % 8);
        }
        assert(unpacked_from(src@, start_bit as nat, bit_width as nat, b@));
        return Ok(b);
    }
    let b = if pad >= o {
        extract_left(src, packed_field_len, start_byte, o, pad)
    } else {
        extract_right(src, packed_field_len, start_byte, o, pad)
    };
    assert(unpacked_from(src@, start_bit as nat, bit_width as nat, b@));
    Ok(b)
}

/// The packed bytes of a field with the padding in front of the field's
/// bits set to zero.
pub open spec fn clear_padding(bytes: Seq<u8>, width: nat) -> Seq<u8> {
    if bytes.len() == 0 {
        bytes
    } else {
        bytes.update(0, bytes[0] & low_mask((8 - field_padding(width)) as u8))
    }
}

/// The bits of `clear_padding`: those of the bytes, without the padding.
pub proof fn lemma_clear_padding_bits(bytes: Seq<u8>, width: nat, k: int)
    requires
        bytes.len() == spec_bytes_required_for_bits(width),
        0 <= k < 8 * bytes.len(),
    ensures
        bit_at(clear_padding(bytes, width), k) == (k >= field_padding(width) && bit_at(bytes, k)),
{
    let pad = field_padding(width);
    if k < 8 {
        lemma_bits_masked(bytes[0], k as u8, (8 - pad) as u8);
    }
}

/// Whether no bit of the field is set.
pub open spec fn field_is_clear(buffer: Seq<u8>, start_bit: nat, bit_width: nat) -> bool {
    forall|j: int| start_bit <= j < start_bit + bit_width ==> !#[trigger] bit_at(buffer, j)
}

/// A field comes back from the buffer that it was packed into, without
/// what stood in its padding, where the buffer held no bit of the field
/// before or the field is copied bytewise.
pub proof fn lemma_unpack_packed_bits(before: Seq<u8>, packed: Seq<u8>, start_bit: nat, bit_width: nat)
    requires
        packed.len() == spec_bytes_required_for_bits(bit_width),
        start_bit + bit_width <= 8 * before.len(),
        field_is_clear(before, start_bit, bit_width) || is_byte_copy(start_bit, bit_width),
    ensures
        spec_unpack_bits(spec_pack_bits(before, packed, start_bit, bit_width), start_bit, bit_width)
            == clear_padding(packed, bit_width),
{
    let after = spec_pack_bits(before, packed, start_bit, bit_width);
    let field = spec_unpack_bits(after, start_bit, bit_width);
    let cleared = clear_padding(packed, bit_width);
    lemma_spec_pack_bits(before, packed, start_bit, bit_width);
    lemma_spec_unpack_bits(after, start_bit, bit_width);
    assert forall|k: int| 0 <= k < 8 * field.len() implies bit_at(field, k) == bit_at(cleared, k) by {
        lemma_clear_padding_bits(packed, bit_width, k);
        assert(bit_at(field, k) == spec_unpacked_bit(after, start_bit, bit_width, k));
        let j = start_bit + k - field_padding(bit_width);
        if k >= field_padding(bit_width) {
            assert(bit_at(after, j) == spec_packed_bit(before, packed, start_bit, bit_width, j));
        }
    }
    lemma_bits_determine_bytes(field, cleared);
}

/// Packing a field leaves every field that shares no bit with it as it
/// was.
pub proof fn lemma_pack_keeps_other_fields(
    before: Seq<u8>,
    packed: Seq<u8>,
    start_bit: nat,
    bit_width: nat,
    other_start: nat,
    other_width: nat,
)
    requires
        other_start + other_width <= start_bit || start_bit + bit_width <= other_start,
        other_start + other_width <= 8 * before.len(),
    ensures
        spec_unpack_bits(
            spec_pack_bits(before, packed, start_bit, bit_width),
            other_start,
            other_width,
        ) == spec_unpack_bits(before, other_start, other_width),
{
    let after = spec_pack_bits(before, packed, start_bit, bit_width);
    let a = spec_unpack_bits(after, other_start, other_width);
    let b = spec_unpack_bits(before, other_start, other_width);
    lemma_spec_pack_bits(before, packed, start_bit, bit_width);
    lemma_spec_unpack_bits(after, other_start, other_width);
    lemma_spec_unpack_bits(before, other_start, other_width);
    assert forall|k: int| 0 <= k < 8 * a.len() implies bit_at(a, k) == bit_at(b, k) by {
        assert(bit_at(a, k) == spec_unpacked_bit(after, other_start, other_width, k));
        assert(bit_at(b, k) == spec_unpacked_bit(before, other_start, other_width, k));
        let j = other_start + k - field_padding(other_width);
        if k >= field_padding(other_width) {
            assert(bit_at(after, j) == spec_packed_bit(before, packed, start_bit, bit_width, j));
        }
    }
    lemma_bits_determine_bytes(a, b);
}

} // verus!
