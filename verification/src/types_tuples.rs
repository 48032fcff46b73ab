//! Tuples of types that can be packed together. Only byte-sized
//! structures can be chained together.
//!
//! Supports having one dynamically sized packed structure type within
//! the tuple: its length is what the other members leave of the bytes.

use vstd::prelude::*;
use core::ops::Range;
use crate::packing::{PackedStructSlice, PackingError, PackingResult, copy_into, lib_get_slice};

verus! {

/// No tuple has more members than this.
pub const MAX_TUPLE_MEMBERS: usize = 16;

/// The length of a member of a tuple.
#[derive(Debug, Copy, Clone, PartialEq, Eq, Structural)]
pub enum StructLength {
    Empty,
    /// The length is what the other members leave.
    Dynamic,
    Static(usize),
}

/// Collects the lengths of the members of a tuple.
pub struct StructLengthBuilder {
    lengths: Vec<StructLength>,
}

/// The length that a size, or the error of asking for it, stands for:
/// a member that needs a value for its size is dynamic.
pub open spec fn spec_length_of(size: PackingResult<usize>) -> PackingResult<StructLength> {
    match size {
        Err(PackingError::InstanceRequiredForSize) => Ok(StructLength::Dynamic),
        Err(e) => Err(e),
        Ok(s) => Ok(StructLength::Static(s)),
    }
}

/// The number of dynamic members among the first `n`.
pub open spec fn count_dynamic(lengths: Seq<StructLength>, n: nat) -> nat
    decreases n,
{
    if n == 0 {
        0
    } else {
        count_dynamic(lengths, (n - 1) as nat) + (if lengths[n - 1] == StructLength::Dynamic {
            1nat
        } else {
            0nat
        })
    }
}

/// The sum of the lengths of the static members among the first `n`.
pub open spec fn static_sum(lengths: Seq<StructLength>, n: nat) -> nat
    decreases n,
{
    if n == 0 {
        0
    } else {
        static_sum(lengths, (n - 1) as nat) + (match lengths[n - 1] {
            StructLength::Static(s) => s as nat,
            _ => 0nat,
        })
    }
}

/// Whether one of the first `n` members has no length.
pub open spec fn has_empty(lengths: Seq<StructLength>, n: nat) -> bool
    decreases n,
{
    if n == 0 {
        false
    } else {
        has_empty(lengths, (n - 1) as nat) || lengths[n - 1] == StructLength::Empty
    }
}

/// The lengths of the members of a tuple that takes `total` bytes: a
/// static member has its own length, and the one dynamic member, if
/// there is one, has what the static members leave of the total. More
/// than one dynamic member is an error, and so is a total that the
/// static members exceed or, without a dynamic member, do not meet.
pub open spec fn spec_resolved_lengths(lengths: Seq<StructLength>, total: usize) -> PackingResult<
    Seq<usize>,
> {
    let dynamic = count_dynamic(lengths, lengths.len());
    let sum = static_sum(lengths, lengths.len());
    if dynamic > 1 {
        Err(PackingError::MoreThanOneDynamicType)
    } else if (dynamic == 1 && sum > total) || (dynamic == 0 && sum != total) {
        Err(
            PackingError::BufferSizeMismatch {
                expected: if sum > usize::MAX {
                    usize::MAX
                } else {
                    sum as usize
                },
                actual: total,
            },
        )
    } else if has_empty(lengths, lengths.len()) {
        Err(PackingError::InternalError)
    } else {
        Ok(
            Seq::new(
                lengths.len(),
                |i: int|
                    match lengths[i] {
                        StructLength::Static(s) => s,
                        _ => (total - sum) as usize,
                    },
            ),
        )
    }
}

/// The sum of the first `n` lengths.
pub open spec fn prefix_sum(lengths: Seq<usize>, n: nat) -> nat
    decreases n,
{
    if n == 0 {
        0
    } else {
        prefix_sum(lengths, (n - 1) as nat) + lengths[n - 1] as nat
    }
}

/// The ranges of members with the given lengths that follow one
/// another.
pub open spec fn spec_ranges(lengths: Seq<usize>) -> Seq<Range<usize>> {
    Seq::new(
        lengths.len(),
        |i: int| prefix_sum(lengths, i as nat) as usize..prefix_sum(lengths, (i + 1) as nat) as usize,
    )
}

/// The lengths that were resolved add up to the total.
pub proof fn lemma_resolved_lengths_sum(lengths: Seq<StructLength>, total: usize)
    requires
        spec_resolved_lengths(lengths, total) is Ok,
    ensures
        prefix_sum(spec_resolved_lengths(lengths, total)->Ok_0, lengths.len()) == total,
{
    let resolved = spec_resolved_lengths(lengths, total)->Ok_0;
    let sum = static_sum(lengths, lengths.len());
    lemma_prefix_of_resolved(lengths, resolved, (total - sum) as usize, lengths.len());
    let dynamic = count_dynamic(lengths, lengths.len());
    assert(dynamic * (total - sum) == total - sum) by (nonlinear_arith)
        requires
            dynamic <= 1,
            dynamic == 0 ==> total - sum == 0,
    ;
}

/// The sum of resolved lengths: the static ones and, for each dynamic
/// member, its share.
pub proof fn lemma_prefix_of_resolved(
    lengths: Seq<StructLength>,
    resolved: Seq<usize>,
    share: usize,
    n: nat,
)
    requires
        n <= lengths.len(),
        resolved.len() == lengths.len(),
        !has_empty(lengths, n),
        forall|i: int|
            0 <= i < lengths.len() ==> #[trigger] resolved[i] == (match lengths[i] {
                StructLength::Static(s) => s,
                _ => share,
            }),
    ensures
        prefix_sum(resolved, n) == static_sum(lengths, n) + count_dynamic(lengths, n) * share,
    decreases n,
{
    if n > 0 {
        lemma_prefix_of_resolved(lengths, resolved, share, (n - 1) as nat);
        let c = count_dynamic(lengths, (n - 1) as nat);
        assert((c + 1) * share == c * share + share) by (nonlinear_arith);
        assert(resolved[n - 1] == (match lengths[n - 1] {
            StructLength::Static(s) => s,
            _ => share,
        }));
        assert(lengths[n - 1] != StructLength::Empty);
    } else {
        assert(0 * share == 0) by (nonlinear_arith);
    }
}

/// Sums of lengths grow with the number of lengths.
pub proof fn lemma_prefix_sum_grows(lengths: Seq<usize>, n: nat, m: nat)
    requires
        n <= m,
    ensures
        prefix_sum(lengths, n) <= prefix_sum(lengths, m),
    decreases m,
{
    if n < m {
        lemma_prefix_sum_grows(lengths, n, (m - 1) as nat);
    }
}

impl View for StructLengthBuilder {
    type V = Seq<StructLength>;

    closed spec fn view(&self) -> Seq<StructLength> {
        self.lengths@
    }
}

impl StructLengthBuilder {
    pub fn new() -> (r: Self)
        ensures
            r@ == Seq::<StructLength>::empty(),
    {
        StructLengthBuilder { lengths: Vec::new() }
    }

    /// Adds the length of a member whose size, or the error of asking
    /// for it, is `size`. A tuple takes `MAX_TUPLE_MEMBERS` at most.
    pub fn add_size(&mut self, size: PackingResult<usize>) -> (r: PackingResult<StructLength>)
        ensures
            match spec_length_of(size) {
                Err(e) => r == Err::<StructLength, PackingError>(e) && final(self)@ == old(self)@,
                Ok(len) => if old(self)@.len() >= MAX_TUPLE_MEMBERS {
                    r == Err::<StructLength, PackingError>(
                        PackingError::SliceIndexingError { slice_len: MAX_TUPLE_MEMBERS },
                    ) && final(self)@ == old(self)@
                } else {
                    r == Ok::<StructLength, PackingError>(len) && final(self)@ == old(self)@.push(len)
                },
            },
    {
        let len = match size {
            Err(PackingError::InstanceRequiredForSize) => StructLength::Dynamic,
            Err(e) => {
                return Err(e);
            },
            Ok(s) => StructLength::Static(s),
        };
        if self.lengths.len() >= MAX_TUPLE_MEMBERS {
            return Err(PackingError::SliceIndexingError { slice_len: MAX_TUPLE_MEMBERS });
        }
        self.lengths.push(len);
        Ok(len)
    }

    /// Adds the length of a member of the type `S`: of the given value,
    /// or of every value of the type.
    pub fn add<S: PackedStructSlice>(&mut self, st: Option<&S>) -> (r: PackingResult<StructLength>)
        ensures
            match spec_length_of(S::spec_packed_bytes_size(st)) {
                Err(e) => r == Err::<StructLength, PackingError>(e) && final(self)@ == old(self)@,
                Ok(len) => if old(self)@.len() >= MAX_TUPLE_MEMBERS {
                    r == Err::<StructLength, PackingError>(
                        PackingError::SliceIndexingError { slice_len: MAX_TUPLE_MEMBERS },
                    ) && final(self)@ == old(self)@
                } else {
                    r == Ok::<StructLength, PackingError>(len) && final(self)@ == old(self)@.push(len)
                },
            },
    {
        self.add_size(S::packed_bytes_size(st))
    }

    /// Resolves the lengths of the members of a tuple that takes
    /// `total_length` bytes, and gives the range of each member.
    pub fn build(self, total_length: usize) -> (r: PackingResult<StructLengths>)
        ensures
            match spec_resolved_lengths(self@, total_length) {
                Err(e) => r == Err::<StructLengths, PackingError>(e),
                Ok(lengths) => (r matches Ok(l) && l@ == spec_ranges(lengths)),
            },
    {
        // at most one can be dynamic!
        let n = self.lengths.len();
        let mut dy: usize = 0;
        let mut len_static: usize = 0;
        let mut overflow = false;
        let mut i: usize = 0;
        while i < n
            invariant
                i <= n,
                n == self.lengths@.len(),
                dy == count_dynamic(self.lengths@, i as nat),
                dy <= i,
                !overflow ==> len_static == static_sum(self.lengths@, i as nat),
                overflow ==> static_sum(self.lengths@, i as nat) > usize::MAX,
            decreases n - i,
        {
            match self.lengths[i] {
                StructLength::Dynamic => {
                    dy += 1;
                },
                StructLength::Static(s) => {
                    if !overflow {
                        match len_static.checked_add(s) {
                            Some(sum) => {
                                len_static = sum;
                            },
                            None => {
                                overflow = true;
                            },
                        }
                    }
                },
                StructLength::Empty => {},
            }
            i += 1;
        }
        if dy > 1 {
            return Err(PackingError::MoreThanOneDynamicType);
        }
        if overflow {
            return Err(
                PackingError::BufferSizeMismatch { expected: usize::MAX, actual: total_length },
            );
        }
        if (dy == 1 && len_static > total_length) || (dy == 0 && len_static != total_length) {
            return Err(
                PackingError::BufferSizeMismatch { expected: len_static, actual: total_length },
            );
        }
        let len_dy = total_length - len_static;
        let mut output_lengths: Vec<usize> = Vec::new();
        let mut i: usize = 0;
        while i < n
            invariant
                i <= n,
                n == self.lengths@.len(),
                dy == count_dynamic(self.lengths@, n as nat),
                dy <= 1,
                len_static == static_sum(self.lengths@, n as nat),
                !((dy == 1 && len_static > total_length) || (dy == 0 && len_static
                    != total_length)),
                len_dy == total_length - static_sum(self.lengths@, n as nat),
                output_lengths@.len() == i,
                !has_empty(self.lengths@, i as nat),
                forall|k: int|
                    0 <= k < i ==> #[trigger] output_lengths@[k] == (match self.lengths@[k] {
                        StructLength::Static(s) => s,
                        _ => len_dy,
                    }),
            decreases n - i,
        {
            let l = match self.lengths[i] {
                StructLength::Empty => {
                    proof {
                        lemma_has_empty_grows(self.lengths@, (i + 1) as nat, n as nat);
                    }
                    return Err(PackingError::InternalError);
                },
                StructLength::Dynamic => len_dy,
                StructLength::Static(s) => s,
            };
            output_lengths.push(l);
            i += 1;
        }
        proof {
            assert(output_lengths@ =~= spec_resolved_lengths(self@, total_length)->Ok_0);
            lemma_resolved_lengths_sum(self@, total_length);
        }
        StructLengths::new(&output_lengths)
    }
}

/// A member without a length stays one, whatever follows it.
pub proof fn lemma_has_empty_grows(lengths: Seq<StructLength>, n: nat, m: nat)
    requires
        n <= m,
        has_empty(lengths, n),
    ensures
        has_empty(lengths, m),
    decreases m,
{
    if n < m {
        lemma_has_empty_grows(lengths, n, (m - 1) as nat);
    }
}

/// The ranges of the members of a tuple.
pub struct StructLengths {
    ranges: Vec<Range<usize>>,
}

impl View for StructLengths {
    type V = Seq<Range<usize>>;

    closed spec fn view(&self) -> Seq<Range<usize>> {
        self.ranges@
    }
}

impl StructLengths {
    /// The ranges of members with the given lengths that follow one
    /// another. The lengths must add up to a number of the machine.
    pub fn new(lengths: &Vec<usize>) -> (r: PackingResult<Self>)
        requires
            prefix_sum(lengths@, lengths@.len()) <= usize::MAX,
        ensures
            r matches Ok(l) && l@ == spec_ranges(lengths@),
    {
        let len = lengths.len();
        let mut ranges: Vec<Range<usize>> = Vec::new();
        let mut n: usize = 0;
        let mut i: usize = 0;
        while i < len
            invariant
                i <= len,
                len == lengths@.len(),
                n == prefix_sum(lengths@, i as nat),
                prefix_sum(lengths@, len as nat) <= usize::MAX,
                ranges@.len() == i,
                forall|k: int| 0 <= k < i ==> #[trigger] ranges@[k] == spec_ranges(lengths@)[k],
            decreases len - i,
        {
            let l = lengths[i];
            proof {
                lemma_prefix_sum_grows(lengths@, (i + 1) as nat, len as nat);
            }
            ranges.push(n..(n + l));
            n += l;
            i += 1;
        }
        assert(ranges@ =~= spec_ranges(lengths@));
        Ok(StructLengths { ranges })
    }

    /// The ranges of the members.
    pub fn get_ranges(&self) -> (r: PackingResult<&[Range<usize>]>)
        ensures
            r matches Ok(s) && s@ == self@,
    {
        Ok(self.ranges.as_slice())
    }
}

/// The size that a member has as the value that it is.
pub open spec fn spec_own_size<S: PackedStructSlice>(s: S) -> usize {
    S::spec_packed_bytes_size(Some(&s))->Ok_0
}

/// What packing a member into `size` bytes gives: its packed bytes, or
/// the error of its size, of a size that is not its own, or of packing
/// it.
#[verifier::opaque]
pub open spec fn spec_item_packed<S: PackedStructSlice>(s: S, size: usize) -> PackingResult<Seq<u8>> {
    match S::spec_packed_bytes_size(Some(&s)) {
        Err(e) => Err(e),
        Ok(own) => if own != size {
            Err(PackingError::BufferSizeMismatch { expected: own, actual: size })
        } else {
            match s.spec_packed() {
                Err(e) => Err(e),
                Ok(b) => if b.len() == size {
                    Ok(b)
                } else {
                    Err(PackingError::InternalError)
                },
            }
        },
    }
}

/// Packs a member into `size` bytes and appends them to `packed`.
pub fn append_member<S: PackedStructSlice>(s: &S, size: usize, packed: &mut Vec<u8>) -> (r: PackingResult<
    (),
>)
    ensures
        match spec_item_packed(*s, size) {
            Ok(b) => r.is_ok() && b.len() == size && final(packed)@ == old(packed)@ + b,
            Err(e) => r == Err::<(), PackingError>(e) && final(packed)@ == old(packed)@,
        },
{
    reveal(spec_item_packed);
    let mut buf = crate::blit::zeroed(size);
    match s.pack_to_slice(buf.as_mut_slice()) {
        Ok(()) => {},
        Err(e) => {
            return Err(e);
        },
    }
    let ghost before = packed@;
    let mut i: usize = 0;
    while i < size
        invariant
            i <= size,
            buf@.len() == size,
            packed@ == before + buf@.subrange(0, i as int),
        decreases size - i,
    {
        packed.push(buf[i]);
        assert(packed@ =~= before + buf@.subrange(0, i + 1));
        i += 1;
    }
    assert(packed@ =~= before + buf@);
    Ok(())
}

/// The lengths of the first `n` members, or the first error of asking
/// for the size of one.
pub open spec fn spec_member_lengths(lengths: Seq<PackingResult<StructLength>>, n: nat) -> PackingResult<
    Seq<StructLength>,
>
    decreases n,
{
    if n == 0 {
        Ok(Seq::<StructLength>::empty())
    } else {
        match spec_member_lengths(lengths, (n - 1) as nat) {
            Err(e) => Err(e),
            Ok(rest) => match lengths[n - 1] {
                Err(e) => Err(e),
                Ok(l) => Ok(rest.push(l)),
            },
        }
    }
}

/// The ranges of members that follow one another lie inside the sum of
/// their lengths, each from its start to its end.
pub proof fn lemma_ranges_within(lengths: Seq<usize>)
    requires
        prefix_sum(lengths, lengths.len()) <= usize::MAX,
    ensures
        forall|i: int|
            0 <= i < lengths.len() ==> (#[trigger] spec_ranges(lengths)[i]).start <= spec_ranges(
                lengths,
            )[i].end <= prefix_sum(lengths, lengths.len()),
{
    assert forall|i: int| 0 <= i < lengths.len() implies (#[trigger] spec_ranges(lengths)[i]).start
        <= spec_ranges(lengths)[i].end <= prefix_sum(lengths, lengths.len()) by {
        lemma_prefix_sum_grows(lengths, i as nat, (i + 1) as nat);
        lemma_prefix_sum_grows(lengths, (i + 1) as nat, lengths.len());
    }
}

/// The lengths of the members of a tuple, member by member.
pub proof fn lemma_member_lengths(lengths: Seq<PackingResult<StructLength>>, n: nat)
    requires
        n <= MAX_TUPLE_MEMBERS,
    ensures
        spec_member_lengths(lengths, 0) == Ok::<Seq<StructLength>, PackingError>(
            Seq::<StructLength>::empty(),
        ),
        forall|k: nat|
            1 <= k <= n ==> #[trigger] spec_member_lengths(lengths, k) == (match spec_member_lengths(
                lengths,
                (k - 1) as nat,
            ) {
                Err(e) => Err::<Seq<StructLength>, PackingError>(e),
                Ok(rest) => match lengths[k - 1] {
                    Err(e) => Err(e),
                    Ok(l) => Ok(rest.push(l)),
                },
            }),
{
}

/// The first member of a tuple of 1, if a tuple is given.
pub open spec fn spec_member_0_of_1<A>(opt: Option<&(A,)>) -> Option<&A> {
    match opt {
        Some(s) => Some(&s.0),
        None => None,
    }
}

/// `r` is the tuple of the members.
#[verifier::opaque]
pub open spec fn spec_unpacked_from_1_of_1<A: PackedStructSlice>(
    src: Seq<u8>,
    lens: Seq<usize>,
    v0: A,
    r: PackingResult<(A,)>,
) -> bool {
    r == Ok::<(A,), PackingError>((v0,))
}

/// `r` is what unpacking a tuple of 1 gives once the members before
/// the first are unpacked: the error of the first member that cannot
/// be unpacked from its bytes, or the tuple of the members.
#[verifier::opaque]
pub open spec fn spec_unpacked_from_0_of_1<A: PackedStructSlice>(
    src: Seq<u8>,
    lens: Seq<usize>,
    r: PackingResult<(A,)>,
) -> bool {
    exists|r0: PackingResult<A>|
        #[trigger] A::spec_unpacked_from_slice(
            src.subrange(spec_ranges(lens)[0].start as int, spec_ranges(lens)[0].end as int),
            r0,
        ) && (match r0 {
            Err(e) => r == Err::<(A,), PackingError>(e),
            Ok(v0) => spec_unpacked_from_1_of_1(src, lens, v0, r),
        })
}

/// One step of unpacking a tuple of 1: what holds once the first
/// member is unpacked holds before it.
pub proof fn lemma_unpacked_step_0_of_1<A: PackedStructSlice>(
    src: Seq<u8>,
    lens: Seq<usize>,
    r0: PackingResult<A>,
    r: PackingResult<(A,)>,
)
    requires
        A::spec_unpacked_from_slice(
            src.subrange(spec_ranges(lens)[0].start as int, spec_ranges(lens)[0].end as int),
            r0,
        ),
        match r0 {
            Err(e) => r == Err::<(A,), PackingError>(e),
            Ok(v0) => spec_unpacked_from_1_of_1(src, lens, v0, r),
        },
    ensures
        spec_unpacked_from_0_of_1(src, lens, r),
{
    reveal(spec_unpacked_from_0_of_1);
}

/// The tuple of the members is what unpacking gives once all 1 are
/// unpacked.
pub proof fn lemma_unpacked_all_of_1<A: PackedStructSlice>(
    src: Seq<u8>,
    lens: Seq<usize>,
    v0: A,
)
    ensures
        spec_unpacked_from_1_of_1(src, lens, v0, Ok::<(A,), PackingError>((v0,))),
{
    reveal(spec_unpacked_from_1_of_1);
}

impl<A: PackedStructSlice> PackedStructSlice for (A,) {
    open spec fn spec_packed_bytes_size(opt_self: Option<&Self>) -> PackingResult<usize> {
        match A::spec_packed_bytes_size(spec_member_0_of_1(opt_self)) {
            Err(e) => Err(e),
            Ok(s0) => if s0 > usize::MAX {
                Err(PackingError::InternalError)
            } else {
                Ok((s0) as usize)
            },
        }
    }

    open spec fn spec_packed(&self) -> PackingResult<Seq<u8>> {
        match spec_item_packed(self.0, spec_own_size(self.0)) {
            Err(e) => Err(e),
            Ok(b0) => Ok(b0),
        }
    }

    open spec fn spec_unpacked_from_slice(src: Seq<u8>, r: PackingResult<Self>) -> bool {
        match spec_member_lengths(seq![spec_length_of(A::spec_packed_bytes_size(None))], 1) {
            Err(e) => r == Err::<Self, PackingError>(e),
            Ok(lengths) => match spec_resolved_lengths(lengths, src.len() as usize) {
                Err(e) => r == Err::<Self, PackingError>(e),
                Ok(lens) => spec_unpacked_from_0_of_1(src, lens, r),
            },
        }
    }

    fn pack_to_slice(&self, output: &mut [u8]) -> (r: PackingResult<()>) {
        let s0 = match A::packed_bytes_size(Some(&self.0)) {
            Ok(s) => s,
            Err(e) => {
                return Err(e);
            },
        };
        let mut total: usize = 0;
        total = match total.checked_add(s0) {
            Some(t) => t,
            None => {
                return Err(PackingError::InternalError);
            },
        };
        if total != output.len() {
            return Err(PackingError::BufferSizeMismatch { expected: total, actual: output.len() });
        }
        let mut packed: Vec<u8> = Vec::new();
        match append_member(&self.0, s0, &mut packed) {
            Ok(()) => {},
            Err(e) => {
                return Err(e);
            },
        }
        let ghost b0 = spec_item_packed(self.0, s0)->Ok_0;
        assert(packed@ == b0);
        copy_into(output, 0, packed.as_slice());
        assert(output@ =~= packed@);
        Ok(())
    }

    fn unpack_from_slice(src: &[u8]) -> (r: PackingResult<Self>) {
        let mut builder = StructLengthBuilder::new();
        let ghost sizes = seq![spec_length_of(A::spec_packed_bytes_size(None))];
        proof {
            lemma_member_lengths(sizes, 1);
        }
        match builder.add::<A>(None) {
            Ok(_) => {},
            Err(e) => {
                return Err(e);
            },
        }
        proof {
            assert(builder@ =~= spec_member_lengths(sizes, 1)->Ok_0);
        }
        let ghost lengths = builder@;
        let resolved = match builder.build(src.len()) {
            Ok(l) => l,
            Err(e) => {
                return Err(e);
            },
        };
        let ranges = match resolved.get_ranges() {
            Ok(r) => r,
            Err(e) => {
                return Err(e);
            },
        };
        let ghost lens = spec_resolved_lengths(lengths, src@.len() as usize)->Ok_0;
        proof {
            lemma_resolved_lengths_sum(lengths, src@.len() as usize);
            lemma_ranges_within(lens);
        }
        let v0 = match A::unpack_from_slice(
            match lib_get_slice(src, ranges[0].start, ranges[0].end) {
                Ok(s) => s,
                Err(e) => {
                    return Err(e);
                },
            },
        ) {
            Ok(v) => v,
            Err(e) => {
                let ghost res = Err::<(A,), PackingError>(e);
                proof {
                    lemma_unpacked_step_0_of_1::<A>(src@, lens, Err::<A, PackingError>(e), res);
                }
                return Err(e);
            },
        };
        proof {
            lemma_unpacked_all_of_1::<A>(src@, lens, v0);
        }
        let ghost res = Ok::<(A,), PackingError>((v0,));
        proof {
            lemma_unpacked_step_0_of_1::<A>(src@, lens, Ok::<A, PackingError>(v0), res);
        }
        Ok((v0,))
    }

    fn packed_bytes_size(opt_self: Option<&Self>) -> (r: PackingResult<usize>) {
        let s0 = match A::packed_bytes_size(
            match opt_self {
                Some(s) => Some(&s.0),
                None => None,
            },
        ) {
            Ok(s) => s,
            Err(e) => {
                return Err(e);
            },
        };
        let mut total: usize = 0;
        total = match total.checked_add(s0) {
            Some(t) => t,
            None => {
                return Err(PackingError::InternalError);
            },
        };
        Ok(total)
    }
}

/// The first member of a tuple of 2, if a tuple is given.
pub open spec fn spec_member_0_of_2<A, B>(opt: Option<&(A, B)>) -> Option<&A> {
    match opt {
        Some(s) => Some(&s.0),
        None => None,
    }
}

/// The second member of a tuple of 2, if a tuple is given.
pub open spec fn spec_member_1_of_2<A, B>(opt: Option<&(A, B)>) -> Option<&B> {
    match opt {
        Some(s) => Some(&s.1),
        None => None,
    }
}

/// `r` is the tuple of the members.
#[verifier::opaque]
pub open spec fn spec_unpacked_from_2_of_2<A: PackedStructSlice, B: PackedStructSlice>(
    src: Seq<u8>,
    lens: Seq<usize>,
    v0: A,
    v1: B,
    r: PackingResult<(A, B)>,
) -> bool {
    r == Ok::<(A, B), PackingError>((v0, v1))
}

/// `r` is what unpacking a tuple of 2 gives once the members before
/// the second are unpacked: the error of the first member that cannot
/// be unpacked from its bytes, or the tuple of the members.
#[verifier::opaque]
pub open spec fn spec_unpacked_from_1_of_2<A: PackedStructSlice, B: PackedStructSlice>(
    src: Seq<u8>,
    lens: Seq<usize>,
    v0: A,
    r: PackingResult<(A, B)>,
) -> bool {
    exists|r1: PackingResult<B>|
        #[trigger] B::spec_unpacked_from_slice(
            src.subrange(spec_ranges(lens)[1].start as int, spec_ranges(lens)[1].end as int),
            r1,
        ) && (match r1 {
            Err(e) => r == Err::<(A, B), PackingError>(e),
            Ok(v1) => spec_unpacked_from_2_of_2(src, lens, v0, v1, r),
        })
}

/// `r` is what unpacking a tuple of 2 gives once the members before
/// the first are unpacked: the error of the first member that cannot
/// be unpacked from its bytes, or the tuple of the members.
#[verifier::opaque]
pub open spec fn spec_unpacked_from_0_of_2<A: PackedStructSlice, B: PackedStructSlice>(
    src: Seq<u8>,
    lens: Seq<usize>,
    r: PackingResult<(A, B)>,
) -> bool {
    exists|r0: PackingResult<A>|
        #[trigger] A::spec_unpacked_from_slice(
            src.subrange(spec_ranges(lens)[0].start as int, spec_ranges(lens)[0].end as int),
            r0,
        ) && (match r0 {
            Err(e) => r == Err::<(A, B), PackingError>(e),
            Ok(v0) => spec_unpacked_from_1_of_2(src, lens, v0, r),
        })
}

/// One step of unpacking a tuple of 2: what holds once the first
/// member is unpacked holds before it.
pub proof fn lemma_unpacked_step_0_of_2<A: PackedStructSlice, B: PackedStructSlice>(
    src: Seq<u8>,
    lens: Seq<usize>,
    r0: PackingResult<A>,
    r: PackingResult<(A, B)>,
)
    requires
        A::spec_unpacked_from_slice(
            src.subrange(spec_ranges(lens)[0].start as int, spec_ranges(lens)[0].end as int),
            r0,
        ),
        match r0 {
            Err(e) => r == Err::<(A, B), PackingError>(e),
            Ok(v0) => spec_unpacked_from_1_of_2(src, lens, v0, r),
        },
    ensures
        spec_unpacked_from_0_of_2(src, lens, r),
{
    reveal(spec_unpacked_from_0_of_2);
}

/// One step of unpacking a tuple of 2: what holds once the second
/// member is unpacked holds before it.
pub proof fn lemma_unpacked_step_1_of_2<A: PackedStructSlice, B: PackedStructSlice>(
    src: Seq<u8>,
    lens: Seq<usize>,
    v0: A,
    r1: PackingResult<B>,
    r: PackingResult<(A, B)>,
)
    requires
        B::spec_unpacked_from_slice(
            src.subrange(spec_ranges(lens)[1].start as int, spec_ranges(lens)[1].end as int),
            r1,
        ),
        match r1 {
            Err(e) => r == Err::<(A, B), PackingError>(e),
            Ok(v1) => spec_unpacked_from_2_of_2(src, lens, v0, v1, r),
        },
    ensures
        spec_unpacked_from_1_of_2(src, lens, v0, r),
{
    reveal(spec_unpacked_from_1_of_2);
}

/// The tuple of the members is what unpacking gives once all 2 are
/// unpacked.
pub proof fn lemma_unpacked_all_of_2<A: PackedStructSlice, B: PackedStructSlice>(
    src: Seq<u8>,
    lens: Seq<usize>,
    v0: A,
    v1: B,
)
    ensures
        spec_unpacked_from_2_of_2(src, lens, v0, v1, Ok::<(A, B), PackingError>((v0, v1))),
{
    reveal(spec_unpacked_from_2_of_2);
}

impl<A: PackedStructSlice, B: PackedStructSlice> PackedStructSlice for (A, B) {
    open spec fn spec_packed_bytes_size(opt_self: Option<&Self>) -> PackingResult<usize> {
        match A::spec_packed_bytes_size(spec_member_0_of_2(opt_self)) {
            Err(e) => Err(e),
            Ok(s0) => match B::spec_packed_bytes_size(spec_member_1_of_2(opt_self)) {
                Err(e) => Err(e),
                Ok(s1) => if s0 + s1 > usize::MAX {
                    Err(PackingError::InternalError)
                } else {
                    Ok((s0 + s1) as usize)
                },
            },
        }
    }

    open spec fn spec_packed(&self) -> PackingResult<Seq<u8>> {
        match spec_item_packed(self.0, spec_own_size(self.0)) {
            Err(e) => Err(e),
            Ok(b0) => match spec_item_packed(self.1, spec_own_size(self.1)) {
                Err(e) => Err(e),
                Ok(b1) => Ok(b0 + b1),
            },
        }
    }

    open spec fn spec_unpacked_from_slice(src: Seq<u8>, r: PackingResult<Self>) -> bool {
        match spec_member_lengths(seq![spec_length_of(A::spec_packed_bytes_size(None)), spec_length_of(B::spec_packed_bytes_size(None))], 2) {
            Err(e) => r == Err::<Self, PackingError>(e),
            Ok(lengths) => match spec_resolved_lengths(lengths, src.len() as usize) {
                Err(e) => r == Err::<Self, PackingError>(e),
                Ok(lens) => spec_unpacked_from_0_of_2(src, lens, r),
            },
        }
    }

    fn pack_to_slice(&self, output: &mut [u8]) -> (r: PackingResult<()>) {
        let s0 = match A::packed_bytes_size(Some(&self.0)) {
            Ok(s) => s,
            Err(e) => {
                return Err(e);
            },
        };
        let s1 = match B::packed_bytes_size(Some(&self.1)) {
            Ok(s) => s,
            Err(e) => {
                return Err(e);
            },
        };
        let mut total: usize = 0;
        total = match total.checked_add(s0) {
            Some(t) => t,
            None => {
                return Err(PackingError::InternalError);
            },
        };
        total = match total.checked_add(s1) {
            Some(t) => t,
            None => {
                return Err(PackingError::InternalError);
            },
        };
        if total != output.len() {
            return Err(PackingError::BufferSizeMismatch { expected: total, actual: output.len() });
        }
        let mut packed: Vec<u8> = Vec::new();
        match append_member(&self.0, s0, &mut packed) {
            Ok(()) => {},
            Err(e) => {
                return Err(e);
            },
        }
        let ghost b0 = spec_item_packed(self.0, s0)->Ok_0;
        assert(packed@ == b0);
        match append_member(&self.1, s1, &mut packed) {
            Ok(()) => {},
            Err(e) => {
                return Err(e);
            },
        }
        let ghost b1 = spec_item_packed(self.1, s1)->Ok_0;
        assert(packed@ == b0 + b1);
        copy_into(output, 0, packed.as_slice());
        assert(output@ =~= packed@);
        Ok(())
    }

    fn unpack_from_slice(src: &[u8]) -> (r: PackingResult<Self>) {
        let mut builder = StructLengthBuilder::new();
        let ghost sizes = seq![spec_length_of(A::spec_packed_bytes_size(None)), spec_length_of(B::spec_packed_bytes_size(None))];
        proof {
            lemma_member_lengths(sizes, 2);
        }
        match builder.add::<A>(None) {
            Ok(_) => {},
            Err(e) => {
                return Err(e);
            },
        }
        match builder.add::<B>(None) {
            Ok(_) => {},
            Err(e) => {
                return Err(e);
            },
        }
        proof {
            assert(builder@ =~= spec_member_lengths(sizes, 2)->Ok_0);
        }
        let ghost lengths = builder@;
        let resolved = match builder.build(src.len()) {
            Ok(l) => l,
            Err(e) => {
                return Err(e);
            },
        };
        let ranges = match resolved.get_ranges() {
            Ok(r) => r,
            Err(e) => {
                return Err(e);
            },
        };
        let ghost lens = spec_resolved_lengths(lengths, src@.len() as usize)->Ok_0;
        proof {
            lemma_resolved_lengths_sum(lengths, src@.len() as usize);
            lemma_ranges_within(lens);
        }
        let v0 = match A::unpack_from_slice(
            match lib_get_slice(src, ranges[0].start, ranges[0].end) {
                Ok(s) => s,
                Err(e) => {
                    return Err(e);
                },
            },
        ) {
            Ok(v) => v,
            Err(e) => {
                let ghost res = Err::<(A, B), PackingError>(e);
                proof {
                    lemma_unpacked_step_0_of_2::<A, B>(src@, lens, Err::<A, PackingError>(e), res);
                }
                return Err(e);
            },
        };
        let v1 = match B::unpack_from_slice(
            match lib_get_slice(src, ranges[1].start, ranges[1].end) {
                Ok(s) => s,
                Err(e) => {
                    return Err(e);
                },
            },
        ) {
            Ok(v) => v,
            Err(e) => {
                let ghost res = Err::<(A, B), PackingError>(e);
                proof {
                    lemma_unpacked_step_1_of_2::<A, B>(src@, lens, v0, Err::<B, PackingError>(e), res);
                    lemma_unpacked_step_0_of_2::<A, B>(src@, lens, Ok::<A, PackingError>(v0), res);
                }
                return Err(e);
            },
        };
        proof {
            lemma_unpacked_all_of_2::<A, B>(src@, lens, v0, v1);
        }
        let ghost res = Ok::<(A, B), PackingError>((v0, v1));
        proof {
            lemma_unpacked_step_1_of_2::<A, B>(src@, lens, v0, Ok::<B, PackingError>(v1), res);
            lemma_unpacked_step_0_of_2::<A, B>(src@, lens, Ok::<A, PackingError>(v0), res);
        }
        Ok((v0, v1))
    }

    fn packed_bytes_size(opt_self: Option<&Self>) -> (r: PackingResult<usize>) {
        let s0 = match A::packed_bytes_size(
            match opt_self {
                Some(s) => Some(&s.0),
                None => None,
            },
        ) {
            Ok(s) => s,
            Err(e) => {
                return Err(e);
            },
        };
        let s1 = match B::packed_bytes_size(
            match opt_self {
                Some(s) => Some(&s.1),
                None => None,
            },
        ) {
            Ok(s) => s,
            Err(e) => {
                return Err(e);
            },
        };
        let mut total: usize = 0;
        total = match total.checked_add(s0) {
            Some(t) => t,
            None => {
                return Err(PackingError::InternalError);
            },
        };
        total = match total.checked_add(s1) {
            Some(t) => t,
            None => {
                return Err(PackingError::InternalError);
            },
        };
        Ok(total)
    }
}

/// The first member of a tuple of 3, if a tuple is given.
pub open spec fn spec_member_0_of_3<A, B, C>(opt: Option<&(A, B, C)>) -> Option<&A> {
    match opt {
        Some(s) => Some(&s.0),
        None => None,
    }
}

/// The second member of a tuple of 3, if a tuple is given.
pub open spec fn spec_member_1_of_3<A, B, C>(opt: Option<&(A, B, C)>) -> Option<&B> {
    match opt {
        Some(s) => Some(&s.1),
        None => None,
    }
}

/// The third member of a tuple of 3, if a tuple is given.
pub open spec fn spec_member_2_of_3<A, B, C>(opt: Option<&(A, B, C)>) -> Option<&C> {
    match opt {
        Some(s) => Some(&s.2),
        None => None,
    }
}

/// `r` is the tuple of the members.
#[verifier::opaque]
pub open spec fn spec_unpacked_from_3_of_3<A: PackedStructSlice, B: PackedStructSlice, C: PackedStructSlice>(
    src: Seq<u8>,
    lens: Seq<usize>,
    v0: A,
    v1: B,
    v2: C,
    r: PackingResult<(A, B, C)>,
) -> bool {
    r == Ok::<(A, B, C), PackingError>((v0, v1, v2))
}

/// `r` is what unpacking a tuple of 3 gives once the members before
/// the third are unpacked: the error of the first member that cannot
/// be unpacked from its bytes, or the tuple of the members.
#[verifier::opaque]
pub open spec fn spec_unpacked_from_2_of_3<A: PackedStructSlice, B: PackedStructSlice, C: PackedStructSlice>(
    src: Seq<u8>,
    lens: Seq<usize>,
    v0: A,
    v1: B,
    r: PackingResult<(A, B, C)>,
) -> bool {
    exists|r2: PackingResult<C>|
        #[trigger] C::spec_unpacked_from_slice(
            src.subrange(spec_ranges(lens)[2].start as int, spec_ranges(lens)[2].end as int),
            r2,
        ) && (match r2 {
            Err(e) => r == Err::<(A, B, C), PackingError>(e),
            Ok(v2) => spec_unpacked_from_3_of_3(src, lens, v0, v1, v2, r),
        })
}

/// `r` is what unpacking a tuple of 3 gives once the members before
/// the second are unpacked: the error of the first member that cannot
/// be unpacked from its bytes, or the tuple of the members.
#[verifier::opaque]
pub open spec fn spec_unpacked_from_1_of_3<A: PackedStructSlice, B: PackedStructSlice, C: PackedStructSlice>(
    src: Seq<u8>,
    lens: Seq<usize>,
    v0: A,
    r: PackingResult<(A, B, C)>,
) -> bool {
    exists|r1: PackingResult<B>|
        #[trigger] B::spec_unpacked_from_slice(
            src.subrange(spec_ranges(lens)[1].start as int, spec_ranges(lens)[1].end as int),
            r1,
        ) && (match r1 {
            Err(e) => r == Err::<(A, B, C), PackingError>(e),
            Ok(v1) => spec_unpacked_from_2_of_3(src, lens, v0, v1, r),
        })
}

/// `r` is what unpacking a tuple of 3 gives once the members before
/// the first are unpacked: the error of the first member that cannot
/// be unpacked from its bytes, or the tuple of the members.
#[verifier::opaque]
pub open spec fn spec_unpacked_from_0_of_3<A: PackedStructSlice, B: PackedStructSlice, C: PackedStructSlice>(
    src: Seq<u8>,
    lens: Seq<usize>,
    r: PackingResult<(A, B, C)>,
) -> bool {
    exists|r0: PackingResult<A>|
        #[trigger] A::spec_unpacked_from_slice(
            src.subrange(spec_ranges(lens)[0].start as int, spec_ranges(lens)[0].end as int),
            r0,
        ) && (match r0 {
            Err(e) => r == Err::<(A, B, C), PackingError>(e),
            Ok(v0) => spec_unpacked_from_1_of_3(src, lens, v0, r),
        })
}

/// One step of unpacking a tuple of 3: what holds once the first
/// member is unpacked holds before it.
pub proof fn lemma_unpacked_step_0_of_3<A: PackedStructSlice, B: PackedStructSlice, C: PackedStructSlice>(
    src: Seq<u8>,
    lens: Seq<usize>,
    r0: PackingResult<A>,
    r: PackingResult<(A, B, C)>,
)
    requires
        A::spec_unpacked_from_slice(
            src.subrange(spec_ranges(lens)[0].start as int, spec_ranges(lens)[0].end as int),
            r0,
        ),
        match r0 {
            Err(e) => r == Err::<(A, B, C), PackingError>(e),
            Ok(v0) => spec_unpacked_from_1_of_3(src, lens, v0, r),
        },
    ensures
        spec_unpacked_from_0_of_3(src, lens, r),
{
    reveal(spec_unpacked_from_0_of_3);
}

/// One step of unpacking a tuple of 3: what holds once the second
/// member is unpacked holds before it.
pub proof fn lemma_unpacked_step_1_of_3<A: PackedStructSlice, B: PackedStructSlice, C: PackedStructSlice>(
    src: Seq<u8>,
    lens: Seq<usize>,
    v0: A,
    r1: PackingResult<B>,
    r: PackingResult<(A, B, C)>,
)
    requires
        B::spec_unpacked_from_slice(
            src.subrange(spec_ranges(lens)[1].start as int, spec_ranges(lens)[1].end as int),
            r1,
        ),
        match r1 {
            Err(e) => r == Err::<(A, B, C), PackingError>(e),
            Ok(v1) => spec_unpacked_from_2_of_3(src, lens, v0, v1, r),
        },
    ensures
        spec_unpacked_from_1_of_3(src, lens, v0, r),
{
    reveal(spec_unpacked_from_1_of_3);
}

/// One step of unpacking a tuple of 3: what holds once the third
/// member is unpacked holds before it.
pub proof fn lemma_unpacked_step_2_of_3<A: PackedStructSlice, B: PackedStructSlice, C: PackedStructSlice>(
    src: Seq<u8>,
    lens: Seq<usize>,
    v0: A,
    v1: B,
    r2: PackingResult<C>,
    r: PackingResult<(A, B, C)>,
)
    requires
        C::spec_unpacked_from_slice(
            src.subrange(spec_ranges(lens)[2].start as int, spec_ranges(lens)[2].end as int),
            r2,
        ),
        match r2 {
            Err(e) => r == Err::<(A, B, C), PackingError>(e),
            Ok(v2) => spec_unpacked_from_3_of_3(src, lens, v0, v1, v2, r),
        },
    ensures
        spec_unpacked_from_2_of_3(src, lens, v0, v1, r),
{
    reveal(spec_unpacked_from_2_of_3);
}

/// The tuple of the members is what unpacking gives once all 3 are
/// unpacked.
pub proof fn lemma_unpacked_all_of_3<A: PackedStructSlice, B: PackedStructSlice, C: PackedStructSlice>(
    src: Seq<u8>,
    lens: Seq<usize>,
    v0: A,
    v1: B,
    v2: C,
)
    ensures
        spec_unpacked_from_3_of_3(src, lens, v0, v1, v2, Ok::<(A, B, C), PackingError>((v0, v1, v2))),
{
    reveal(spec_unpacked_from_3_of_3);
}

impl<A: PackedStructSlice, B: PackedStructSlice, C: PackedStructSlice> PackedStructSlice for (A, B, C) {
    open spec fn spec_packed_bytes_size(opt_self: Option<&Self>) -> PackingResult<usize> {
        match A::spec_packed_bytes_size(spec_member_0_of_3(opt_self)) {
            Err(e) => Err(e),
            Ok(s0) => match B::spec_packed_bytes_size(spec_member_1_of_3(opt_self)) {
                Err(e) => Err(e),
                Ok(s1) => match C::spec_packed_bytes_size(spec_member_2_of_3(opt_self)) {
                    Err(e) => Err(e),
                    Ok(s2) => if s0 + s1 + s2 > usize::MAX {
                        Err(PackingError::InternalError)
                    } else {
                        Ok((s0 + s1 + s2) as usize)
                    },
                },
            },
        }
    }

    open spec fn spec_packed(&self) -> PackingResult<Seq<u8>> {
        match spec_item_packed(self.0, spec_own_size(self.0)) {
            Err(e) => Err(e),
            Ok(b0) => match spec_item_packed(self.1, spec_own_size(self.1)) {
                Err(e) => Err(e),
                Ok(b1) => match spec_item_packed(self.2, spec_own_size(self.2)) {
                    Err(e) => Err(e),
                    Ok(b2) => Ok(b0 + b1 + b2),
                },
            },
        }
    }

    open spec fn spec_unpacked_from_slice(src: Seq<u8>, r: PackingResult<Self>) -> bool {
        match spec_member_lengths(seq![spec_length_of(A::spec_packed_bytes_size(None)), spec_length_of(B::spec_packed_bytes_size(None)), spec_length_of(C::spec_packed_bytes_size(None))], 3) {
            Err(e) => r == Err::<Self, PackingError>(e),
            Ok(lengths) => match spec_resolved_lengths(lengths, src.len() as usize) {
                Err(e) => r == Err::<Self, PackingError>(e),
                Ok(lens) => spec_unpacked_from_0_of_3(src, lens, r),
            },
        }
    }

    fn pack_to_slice(&self, output: &mut [u8]) -> (r: PackingResult<()>) {
        let s0 = match A::packed_bytes_size(Some(&self.0)) {
            Ok(s) => s,
            Err(e) => {
                return Err(e);
            },
        };
        let s1 = match B::packed_bytes_size(Some(&self.1)) {
            Ok(s) => s,
            Err(e) => {
                return Err(e);
            },
        };
        let s2 = match C::packed_bytes_size(Some(&self.2)) {
            Ok(s) => s,
            Err(e) => {
                return Err(e);
            },
        };
        let mut total: usize = 0;
        total = match total.checked_add(s0) {
            Some(t) => t,
            None => {
                return Err(PackingError::InternalError);
            },
        };
        total = match total.checked_add(s1) {
            Some(t) => t,
            None => {
                return Err(PackingError::InternalError);
            },
        };
        total = match total.checked_add(s2) {
            Some(t) => t,
            None => {
                return Err(PackingError::InternalError);
            },
        };
        if total != output.len() {
            return Err(PackingError::BufferSizeMismatch { expected: total, actual: output.len() });
        }
        let mut packed: Vec<u8> = Vec::new();
        match append_member(&self.0, s0, &mut packed) {
            Ok(()) => {},
            Err(e) => {
                return Err(e);
            },
        }
        let ghost b0 = spec_item_packed(self.0, s0)->Ok_0;
        assert(packed@ == b0);
        match append_member(&self.1, s1, &mut packed) {
            Ok(()) => {},
            Err(e) => {
                return Err(e);
            },
        }
        let ghost b1 = spec_item_packed(self.1, s1)->Ok_0;
        assert(packed@ == b0 + b1);
        match append_member(&self.2, s2, &mut packed) {
            Ok(()) => {},
            Err(e) => {
                return Err(e);
            },
        }
        let ghost b2 = spec_item_packed(self.2, s2)->Ok_0;
        assert(packed@ == b0 + b1 + b2);
        copy_into(output, 0, packed.as_slice());
        assert(output@ =~= packed@);
        Ok(())
    }

    fn unpack_from_slice(src: &[u8]) -> (r: PackingResult<Self>) {
        let mut builder = StructLengthBuilder::new();
        let ghost sizes = seq![spec_length_of(A::spec_packed_bytes_size(None)), spec_length_of(B::spec_packed_bytes_size(None)), spec_length_of(C::spec_packed_bytes_size(None))];
        proof {
            lemma_member_lengths(sizes, 3);
        }
        match builder.add::<A>(None) {
            Ok(_) => {},
            Err(e) => {
                return Err(e);
            },
        }
        match builder.add::<B>(None) {
            Ok(_) => {},
            Err(e) => {
                return Err(e);
            },
        }
        match builder.add::<C>(None) {
            Ok(_) => {},
            Err(e) => {
                return Err(e);
            },
        }
        proof {
            assert(builder@ =~= spec_member_lengths(sizes, 3)->Ok_0);
        }
        let ghost lengths = builder@;
        let resolved = match builder.build(src.len()) {
            Ok(l) => l,
            Err(e) => {
                return Err(e);
            },
        };
        let ranges = match resolved.get_ranges() {
            Ok(r) => r,
            Err(e) => {
                return Err(e);
            },
        };
        let ghost lens = spec_resolved_lengths(lengths, src@.len() as usize)->Ok_0;
        proof {
            lemma_resolved_lengths_sum(lengths, src@.len() as usize);
            lemma_ranges_within(lens);
        }
        let v0 = match A::unpack_from_slice(
            match lib_get_slice(src, ranges[0].start, ranges[0].end) {
                Ok(s) => s,
                Err(e) => {
                    return Err(e);
                },
            },
        ) {
            Ok(v) => v,
            Err(e) => {
                let ghost res = Err::<(A, B, C), PackingError>(e);
                proof {
                    lemma_unpacked_step_0_of_3::<A, B, C>(src@, lens, Err::<A, PackingError>(e), res);
                }
                return Err(e);
            },
        };
        let v1 = match B::unpack_from_slice(
            match lib_get_slice(src, ranges[1].start, ranges[1].end) {
                Ok(s) => s,
                Err(e) => {
                    return Err(e);
                },
            },
        ) {
            Ok(v) => v,
            Err(e) => {
                let ghost res = Err::<(A, B, C), PackingError>(e);
                proof {
                    lemma_unpacked_step_1_of_3::<A, B, C>(src@, lens, v0, Err::<B, PackingError>(e), res);
                    lemma_unpacked_step_0_of_3::<A, B, C>(src@, lens, Ok::<A, PackingError>(v0), res);
                }
                return Err(e);
            },
        };
        let v2 = match C::unpack_from_slice(
            match lib_get_slice(src, ranges[2].start, ranges[2].end) {
                Ok(s) => s,
                Err(e) => {
                    return Err(e);
                },
            },
        ) {
            Ok(v) => v,
            Err(e) => {
                let ghost res = Err::<(A, B, C), PackingError>(e);
                proof {
                    lemma_unpacked_step_2_of_3::<A, B, C>(src@, lens, v0, v1, Err::<C, PackingError>(e), res);
                    lemma_unpacked_step_1_of_3::<A, B, C>(src@, lens, v0, Ok::<B, PackingError>(v1), res);
                    lemma_unpacked_step_0_of_3::<A, B, C>(src@, lens, Ok::<A, PackingError>(v0), res);
                }
                return Err(e);
            },
        };
        proof {
            lemma_unpacked_all_of_3::<A, B, C>(src@, lens, v0, v1, v2);
        }
        let ghost res = Ok::<(A, B, C), PackingError>((v0, v1, v2));
        proof {
            lemma_unpacked_step_2_of_3::<A, B, C>(src@, lens, v0, v1, Ok::<C, PackingError>(v2), res);
            lemma_unpacked_step_1_of_3::<A, B, C>(src@, lens, v0, Ok::<B, PackingError>(v1), res);
            lemma_unpacked_step_0_of_3::<A, B, C>(src@, lens, Ok::<A, PackingError>(v0), res);
        }
        Ok((v0, v1, v2))
    }

    fn packed_bytes_size(opt_self: Option<&Self>) -> (r: PackingResult<usize>) {
        let s0 = match A::packed_bytes_size(
            match opt_self {
                Some(s) => Some(&s.0),
                None => None,
            },
        ) {
            Ok(s) => s,
            Err(e) => {
                return Err(e);
            },
        };
        let s1 = match B::packed_bytes_size(
            match opt_self {
                Some(s) => Some(&s.1),
                None => None,
            },
        ) {
            Ok(s) => s,
            Err(e) => {
                return Err(e);
            },
        };
        let s2 = match C::packed_bytes_size(
            match opt_self {
                Some(s) => Some(&s.2),
                None => None,
            },
        ) {
            Ok(s) => s,
            Err(e) => {
                return Err(e);
            },
        };
        let mut total: usize = 0;
        total = match total.checked_add(s0) {
            Some(t) => t,
            None => {
                return Err(PackingError::InternalError);
            },
        };
        total = match total.checked_add(s1) {
            Some(t) => t,
            None => {
                return Err(PackingError::InternalError);
            },
        };
        total = match total.checked_add(s2) {
            Some(t) => t,
            None => {
                return Err(PackingError::InternalError);
            },
        };
        Ok(total)
    }
}

/// The first member of a tuple of 4, if a tuple is given.
pub open spec fn spec_member_0_of_4<A, B, C, D>(opt: Option<&(A, B, C, D)>) -> Option<&A> {
    match opt {
        Some(s) => Some(&s.0),
        None => None,
    }
}

/// The second member of a tuple of 4, if a tuple is given.
pub open spec fn spec_member_1_of_4<A, B, C, D>(opt: Option<&(A, B, C, D)>) -> Option<&B> {
    match opt {
        Some(s) => Some(&s.1),
        None => None,
    }
}

/// The third member of a tuple of 4, if a tuple is given.
pub open spec fn spec_member_2_of_4<A, B, C, D>(opt: Option<&(A, B, C, D)>) -> Option<&C> {
    match opt {
        Some(s) => Some(&s.2),
        None => None,
    }
}

/// The fourth member of a tuple of 4, if a tuple is given.
pub open spec fn spec_member_3_of_4<A, B, C, D>(opt: Option<&(A, B, C, D)>) -> Option<&D> {
    match opt {
        Some(s) => Some(&s.3),
        None => None,
    }
}

/// `r` is the tuple of the members.
#[verifier::opaque]
pub open spec fn spec_unpacked_from_4_of_4<A: PackedStructSlice, B: PackedStructSlice, C: PackedStructSlice, D: PackedStructSlice>(
    src: Seq<u8>,
    lens: Seq<usize>,
    v0: A,
    v1: B,
    v2: C,
    v3: D,
    r: PackingResult<(A, B, C, D)>,
) -> bool {
    r == Ok::<(A, B, C, D), PackingError>((v0, v1, v2, v3))
}

/// `r` is what unpacking a tuple of 4 gives once the members before
/// the fourth are unpacked: the error of the first member that cannot
/// be unpacked from its bytes, or the tuple of the members.
#[verifier::opaque]
pub open spec fn spec_unpacked_from_3_of_4<A: PackedStructSlice, B: PackedStructSlice, C: PackedStructSlice, D: PackedStructSlice>(
    src: Seq<u8>,
    lens: Seq<usize>,
    v0: A,
    v1: B,
    v2: C,
    r: PackingResult<(A, B, C, D)>,
) -> bool {
    exists|r3: PackingResult<D>|
        #[trigger] D::spec_unpacked_from_slice(
            src.subrange(spec_ranges(lens)[3].start as int, spec_ranges(lens)[3].end as int),
            r3,
        ) && (match r3 {
            Err(e) => r == Err::<(A, B, C, D), PackingError>(e),
            Ok(v3) => spec_unpacked_from_4_of_4(src, lens, v0, v1, v2, v3, r),
        })
}

/// `r` is what unpacking a tuple of 4 gives once the members before
/// the third are unpacked: the error of the first member that cannot
/// be unpacked from its bytes, or the tuple of the members.
#[verifier::opaque]
pub open spec fn spec_unpacked_from_2_of_4<A: PackedStructSlice, B: PackedStructSlice, C: PackedStructSlice, D: PackedStructSlice>(
    src: Seq<u8>,
    lens: Seq<usize>,
    v0: A,
    v1: B,
    r: PackingResult<(A, B, C, D)>,
) -> bool {
    exists|r2: PackingResult<C>|
        #[trigger] C::spec_unpacked_from_slice(
            src.subrange(spec_ranges(lens)[2].start as int, spec_ranges(lens)[2].end as int),
            r2,
        ) && (match r2 {
            Err(e) => r == Err::<(A, B, C, D), PackingError>(e),
            Ok(v2) => spec_unpacked_from_3_of_4(src, lens, v0, v1, v2, r),
        })
}

/// `r` is what unpacking a tuple of 4 gives once the members before
/// the second are unpacked: the error of the first member that cannot
/// be unpacked from its bytes, or the tuple of the members.
#[verifier::opaque]
pub open spec fn spec_unpacked_from_1_of_4<A: PackedStructSlice, B: PackedStructSlice, C: PackedStructSlice, D: PackedStructSlice>(
    src: Seq<u8>,
    lens: Seq<usize>,
    v0: A,
    r: PackingResult<(A, B, C, D)>,
) -> bool {
    exists|r1: PackingResult<B>|
        #[trigger] B::spec_unpacked_from_slice(
            src.subrange(spec_ranges(lens)[1].start as int, spec_ranges(lens)[1].end as int),
            r1,
        ) && (match r1 {
            Err(e) => r == Err::<(A, B, C, D), PackingError>(e),
            Ok(v1) => spec_unpacked_from_2_of_4(src, lens, v0, v1, r),
        })
}

/// `r` is what unpacking a tuple of 4 gives once the members before
/// the first are unpacked: the error of the first member that cannot
/// be unpacked from its bytes, or the tuple of the members.
#[verifier::opaque]
pub open spec fn spec_unpacked_from_0_of_4<A: PackedStructSlice, B: PackedStructSlice, C: PackedStructSlice, D: PackedStructSlice>(
    src: Seq<u8>,
    lens: Seq<usize>,
    r: PackingResult<(A, B, C, D)>,
) -> bool {
    exists|r0: PackingResult<A>|
        #[trigger] A::spec_unpacked_from_slice(
            src.subrange(spec_ranges(lens)[0].start as int, spec_ranges(lens)[0].end as int),
            r0,
        ) && (match r0 {
            Err(e) => r == Err::<(A, B, C, D), PackingError>(e),
            Ok(v0) => spec_unpacked_from_1_of_4(src, lens, v0, r),
        })
}

/// One step of unpacking a tuple of 4: what holds once the first
/// member is unpacked holds before it.
pub proof fn lemma_unpacked_step_0_of_4<A: PackedStructSlice, B: PackedStructSlice, C: PackedStructSlice, D: PackedStructSlice>(
    src: Seq<u8>,
    lens: Seq<usize>,
    r0: PackingResult<A>,
    r: PackingResult<(A, B, C, D)>,
)
    requires
        A::spec_unpacked_from_slice(
            src.subrange(spec_ranges(lens)[0].start as int, spec_ranges(lens)[0].end as int),
            r0,
        ),
        match r0 {
            Err(e) => r == Err::<(A, B, C, D), PackingError>(e),
            Ok(v0) => spec_unpacked_from_1_of_4(src, lens, v0, r),
        },
    ensures
        spec_unpacked_from_0_of_4(src, lens, r),
{
    reveal(spec_unpacked_from_0_of_4);
}

/// One step of unpacking a tuple of 4: what holds once the second
/// member is unpacked holds before it.
pub proof fn lemma_unpacked_step_1_of_4<A: PackedStructSlice, B: PackedStructSlice, C: PackedStructSlice, D: PackedStructSlice>(
    src: Seq<u8>,
    lens: Seq<usize>,
    v0: A,
    r1: PackingResult<B>,
    r: PackingResult<(A, B, C, D)>,
)
    requires
        B::spec_unpacked_from_slice(
            src.subrange(spec_ranges(lens)[1].start as int, spec_ranges(lens)[1].end as int),
            r1,
        ),
        match r1 {
            Err(e) => r == Err::<(A, B, C, D), PackingError>(e),
            Ok(v1) => spec_unpacked_from_2_of_4(src, lens, v0, v1, r),
        },
    ensures
        spec_unpacked_from_1_of_4(src, lens, v0, r),
{
    reveal(spec_unpacked_from_1_of_4);
}

/// One step of unpacking a tuple of 4: what holds once the third
/// member is unpacked holds before it.
pub proof fn lemma_unpacked_step_2_of_4<A: PackedStructSlice, B: PackedStructSlice, C: PackedStructSlice, D: PackedStructSlice>(
    src: Seq<u8>,
    lens: Seq<usize>,
    v0: A,
    v1: B,
    r2: PackingResult<C>,
    r: PackingResult<(A, B, C, D)>,
)
    requires
        C::spec_unpacked_from_slice(
            src.subrange(spec_ranges(lens)[2].start as int, spec_ranges(lens)[2].end as int),
            r2,
        ),
        match r2 {
            Err(e) => r == Err::<(A, B, C, D), PackingError>(e),
            Ok(v2) => spec_unpacked_from_3_of_4(src, lens, v0, v1, v2, r),
        },
    ensures
        spec_unpacked_from_2_of_4(src, lens, v0, v1, r),
{
    reveal(spec_unpacked_from_2_of_4);
}

/// One step of unpacking a tuple of 4: what holds once the fourth
/// member is unpacked holds before it.
pub proof fn lemma_unpacked_step_3_of_4<A: PackedStructSlice, B: PackedStructSlice, C: PackedStructSlice, D: PackedStructSlice>(
    src: Seq<u8>,
    lens: Seq<usize>,
    v0: A,
    v1: B,
    v2: C,
    r3: PackingResult<D>,
    r: PackingResult<(A, B, C, D)>,
)
    requires
        D::spec_unpacked_from_slice(
            src.subrange(spec_ranges(lens)[3].start as int, spec_ranges(lens)[3].end as int),
            r3,
        ),
        match r3 {
            Err(e) => r == Err::<(A, B, C, D), PackingError>(e),
            Ok(v3) => spec_unpacked_from_4_of_4(src, lens, v0, v1, v2, v3, r),
        },
    ensures
        spec_unpacked_from_3_of_4(src, lens, v0, v1, v2, r),
{
    reveal(spec_unpacked_from_3_of_4);
}

/// The tuple of the members is what unpacking gives once all 4 are
/// unpacked.
pub proof fn lemma_unpacked_all_of_4<A: PackedStructSlice, B: PackedStructSlice, C: PackedStructSlice, D: PackedStructSlice>(
    src: Seq<u8>,
    lens: Seq<usize>,
    v0: A,
    v1: B,
    v2: C,
    v3: D,
)
    ensures
        spec_unpacked_from_4_of_4(src, lens, v0, v1, v2, v3, Ok::<(A, B, C, D), PackingError>((v0, v1, v2, v3))),
{
    reveal(spec_unpacked_from_4_of_4);
}

impl<A: PackedStructSlice, B: PackedStructSlice, C: PackedStructSlice, D: PackedStructSlice> PackedStructSlice for (A, B, C, D) {
    open spec fn spec_packed_bytes_size(opt_self: Option<&Self>) -> PackingResult<usize> {
        match A::spec_packed_bytes_size(spec_member_0_of_4(opt_self)) {
            Err(e) => Err(e),
            Ok(s0) => match B::spec_packed_bytes_size(spec_member_1_of_4(opt_self)) {
                Err(e) => Err(e),
                Ok(s1) => match C::spec_packed_bytes_size(spec_member_2_of_4(opt_self)) {
                    Err(e) => Err(e),
                    Ok(s2) => match D::spec_packed_bytes_size(spec_member_3_of_4(opt_self)) {
                        Err(e) => Err(e),
                        Ok(s3) => if s0 + s1 + s2 + s3 > usize::MAX {
                            Err(PackingError::InternalError)
                        } else {
                            Ok((s0 + s1 + s2 + s3) as usize)
                        },
                    },
                },
            },
        }
    }

    open spec fn spec_packed(&self) -> PackingResult<Seq<u8>> {
        match spec_item_packed(self.0, spec_own_size(self.0)) {
            Err(e) => Err(e),
            Ok(b0) => match spec_item_packed(self.1, spec_own_size(self.1)) {
                Err(e) => Err(e),
                Ok(b1) => match spec_item_packed(self.2, spec_own_size(self.2)) {
                    Err(e) => Err(e),
                    Ok(b2) => match spec_item_packed(self.3, spec_own_size(self.3)) {
                        Err(e) => Err(e),
                        Ok(b3) => Ok(b0 + b1 + b2 + b3),
                    },
                },
            },
        }
    }

    open spec fn spec_unpacked_from_slice(src: Seq<u8>, r: PackingResult<Self>) -> bool {
        match spec_member_lengths(seq![spec_length_of(A::spec_packed_bytes_size(None)), spec_length_of(B::spec_packed_bytes_size(None)), spec_length_of(C::spec_packed_bytes_size(None)), spec_length_of(D::spec_packed_bytes_size(None))], 4) {
            Err(e) => r == Err::<Self, PackingError>(e),
            Ok(lengths) => match spec_resolved_lengths(lengths, src.len() as usize) {
                Err(e) => r == Err::<Self, PackingError>(e),
                Ok(lens) => spec_unpacked_from_0_of_4(src, lens, r),
            },
        }
    }

    fn pack_to_slice(&self, output: &mut [u8]) -> (r: PackingResult<()>) {
        let s0 = match A::packed_bytes_size(Some(&self.0)) {
            Ok(s) => s,
            Err(e) => {
                return Err(e);
            },
        };
        let s1 = match B::packed_bytes_size(Some(&self.1)) {
            Ok(s) => s,
            Err(e) => {
                return Err(e);
            },
        };
        let s2 = match C::packed_bytes_size(Some(&self.2)) {
            Ok(s) => s,
            Err(e) => {
                return Err(e);
            },
        };
        let s3 = match D::packed_bytes_size(Some(&self.3)) {
            Ok(s) => s,
            Err(e) => {
                return Err(e);
            },
        };
        let mut total: usize = 0;
        total = match total.checked_add(s0) {
            Some(t) => t,
            None => {
                return Err(PackingError::InternalError);
            },
        };
        total = match total.checked_add(s1) {
            Some(t) => t,
            None => {
                return Err(PackingError::InternalError);
            },
        };
        total = match total.checked_add(s2) {
            Some(t) => t,
            None => {
                return Err(PackingError::InternalError);
            },
        };
        total = match total.checked_add(s3) {
            Some(t) => t,
            None => {
                return Err(PackingError::InternalError);
            },
        };
        if total != output.len() {
            return Err(PackingError::BufferSizeMismatch { expected: total, actual: output.len() });
        }
        let mut packed: Vec<u8> = Vec::new();
        match append_member(&self.0, s0, &mut packed) {
            Ok(()) => {},
            Err(e) => {
                return Err(e);
            },
        }
        let ghost b0 = spec_item_packed(self.0, s0)->Ok_0;
        assert(packed@ == b0);
        match append_member(&self.1, s1, &mut packed) {
            Ok(()) => {},
            Err(e) => {
                return Err(e);
            },
        }
        let ghost b1 = spec_item_packed(self.1, s1)->Ok_0;
        assert(packed@ == b0 + b1);
        match append_member(&self.2, s2, &mut packed) {
            Ok(()) => {},
            Err(e) => {
                return Err(e);
            },
        }
        let ghost b2 = spec_item_packed(self.2, s2)->Ok_0;
        assert(packed@ == b0 + b1 + b2);
        match append_member(&self.3, s3, &mut packed) {
            Ok(()) => {},
            Err(e) => {
                return Err(e);
            },
        }
        let ghost b3 = spec_item_packed(self.3, s3)->Ok_0;
        assert(packed@ == b0 + b1 + b2 + b3);
        copy_into(output, 0, packed.as_slice());
        assert(output@ =~= packed@);
        Ok(())
    }

    fn unpack_from_slice(src: &[u8]) -> (r: PackingResult<Self>) {
        let mut builder = StructLengthBuilder::new();
        let ghost sizes = seq![spec_length_of(A::spec_packed_bytes_size(None)), spec_length_of(B::spec_packed_bytes_size(None)), spec_length_of(C::spec_packed_bytes_size(None)), spec_length_of(D::spec_packed_bytes_size(None))];
        proof {
            lemma_member_lengths(sizes, 4);
        }
        match builder.add::<A>(None) {
            Ok(_) => {},
            Err(e) => {
                return Err(e);
            },
        }
        match builder.add::<B>(None) {
            Ok(_) => {},
            Err(e) => {
                return Err(e);
            },
        }
        match builder.add::<C>(None) {
            Ok(_) => {},
            Err(e) => {
                return Err(e);
            },
        }
        match builder.add::<D>(None) {
            Ok(_) => {},
            Err(e) => {
                return Err(e);
            },
        }
        proof {
            assert(builder@ =~= spec_member_lengths(sizes, 4)->Ok_0);
        }
        let ghost lengths = builder@;
        let resolved = match builder.build(src.len()) {
            Ok(l) => l,
            Err(e) => {
                return Err(e);
            },
        };
        let ranges = match resolved.get_ranges() {
            Ok(r) => r,
            Err(e) => {
                return Err(e);
            },
        };
        let ghost lens = spec_resolved_lengths(lengths, src@.len() as usize)->Ok_0;
        proof {
            lemma_resolved_lengths_sum(lengths, src@.len() as usize);
            lemma_ranges_within(lens);
        }
        let v0 = match A::unpack_from_slice(
            match lib_get_slice(src, ranges[0].start, ranges[0].end) {
                Ok(s) => s,
                Err(e) => {
                    return Err(e);
                },
            },
        ) {
            Ok(v) => v,
            Err(e) => {
                let ghost res = Err::<(A, B, C, D), PackingError>(e);
                proof {
                    lemma_unpacked_step_0_of_4::<A, B, C, D>(src@, lens, Err::<A, PackingError>(e), res);
                }
                return Err(e);
            },
        };
        let v1 = match B::unpack_from_slice(
            match lib_get_slice(src, ranges[1].start, ranges[1].end) {
                Ok(s) => s,
                Err(e) => {
                    return Err(e);
                },
            },
        ) {
            Ok(v) => v,
            Err(e) => {
                let ghost res = Err::<(A, B, C, D), PackingError>(e);
                proof {
                    lemma_unpacked_step_1_of_4::<A, B, C, D>(src@, lens, v0, Err::<B, PackingError>(e), res);
                    lemma_unpacked_step_0_of_4::<A, B, C, D>(src@, lens, Ok::<A, PackingError>(v0), res);
                }
                return Err(e);
            },
        };
        let v2 = match C::unpack_from_slice(
            match lib_get_slice(src, ranges[2].start, ranges[2].end) {
                Ok(s) => s,
                Err(e) => {
                    return Err(e);
                },
            },
        ) {
            Ok(v) => v,
            Err(e) => {
                let ghost res = Err::<(A, B, C, D), PackingError>(e);
                proof {
                    lemma_unpacked_step_2_of_4::<A, B, C, D>(src@, lens, v0, v1, Err::<C, PackingError>(e), res);
                    lemma_unpacked_step_1_of_4::<A, B, C, D>(src@, lens, v0, Ok::<B, PackingError>(v1), res);
                    lemma_unpacked_step_0_of_4::<A, B, C, D>(src@, lens, Ok::<A, PackingError>(v0), res);
                }
                return Err(e);
            },
        };
        let v3 = match D::unpack_from_slice(
            match lib_get_slice(src, ranges[3].start, ranges[3].end) {
                Ok(s) => s,
                Err(e) => {
                    return Err(e);
                },
            },
        ) {
            Ok(v) => v,
            Err(e) => {
                let ghost res = Err::<(A, B, C, D), PackingError>(e);
                proof {
                    lemma_unpacked_step_3_of_4::<A, B, C, D>(src@, lens, v0, v1, v2, Err::<D, PackingError>(e), res);
                    lemma_unpacked_step_2_of_4::<A, B, C, D>(src@, lens, v0, v1, Ok::<C, PackingError>(v2), res);
                    lemma_unpacked_step_1_of_4::<A, B, C, D>(src@, lens, v0, Ok::<B, PackingError>(v1), res);
                    lemma_unpacked_step_0_of_4::<A, B, C, D>(src@, lens, Ok::<A, PackingError>(v0), res);
                }
                return Err(e);
            },
        };
        proof {
            lemma_unpacked_all_of_4::<A, B, C, D>(src@, lens, v0, v1, v2, v3);
        }
        let ghost res = Ok::<(A, B, C, D), PackingError>((v0, v1, v2, v3));
        proof {
            lemma_unpacked_step_3_of_4::<A, B, C, D>(src@, lens, v0, v1, v2, Ok::<D, PackingError>(v3), res);
            lemma_unpacked_step_2_of_4::<A, B, C, D>(src@, lens, v0, v1, Ok::<C, PackingError>(v2), res);
            lemma_unpacked_step_1_of_4::<A, B, C, D>(src@, lens, v0, Ok::<B, PackingError>(v1), res);
            lemma_unpacked_step_0_of_4::<A, B, C, D>(src@, lens, Ok::<A, PackingError>(v0), res);
        }
        Ok((v0, v1, v2, v3))
    }

    fn packed_bytes_size(opt_self: Option<&Self>) -> (r: PackingResult<usize>) {
        let s0 = match A::packed_bytes_size(
            match opt_self {
                Some(s) => Some(&s.0),
                None => None,
            },
        ) {
            Ok(s) => s,
            Err(e) => {
                return Err(e);
            },
        };
        let s1 = match B::packed_bytes_size(
            match opt_self {
                Some(s) => Some(&s.1),
                None => None,
            },
        ) {
            Ok(s) => s,
            Err(e) => {
                return Err(e);
            },
        };
        let s2 = match C::packed_bytes_size(
            match opt_self {
                Some(s) => Some(&s.2),
                None => None,
            },
        ) {
            Ok(s) => s,
            Err(e) => {
                return Err(e);
            },
        };
        let s3 = match D::packed_bytes_size(
            match opt_self {
                Some(s) => Some(&s.3),
                None => None,
            },
        ) {
            Ok(s) => s,
            Err(e) => {
                return Err(e);
            },
        };
        let mut total: usize = 0;
        total = match total.checked_add(s0) {
            Some(t) => t,
            None => {
                return Err(PackingError::InternalError);
            },
        };
        total = match total.checked_add(s1) {
            Some(t) => t,
            None => {
                return Err(PackingError::InternalError);
            },
        };
        total = match total.checked_add(s2) {
            Some(t) => t,
            None => {
                return Err(PackingError::InternalError);
            },
        };
        total = match total.checked_add(s3) {
            Some(t) => t,
            None => {
                return Err(PackingError::InternalError);
            },
        };
        Ok(total)
    }
}

/// The first member of a tuple of 5, if a tuple is given.
pub open spec fn spec_member_0_of_5<A, B, C, D, E>(opt: Option<&(A, B, C, D, E)>) -> Option<&A> {
    match opt {
        Some(s) => Some(&s.0),
        None => None,
    }
}

/// The second member of a tuple of 5, if a tuple is given.
pub open spec fn spec_member_1_of_5<A, B, C, D, E>(opt: Option<&(A, B, C, D, E)>) -> Option<&B> {
    match opt {
        Some(s) => Some(&s.1),
        None => None,
    }
}

/// The third member of a tuple of 5, if a tuple is given.
pub open spec fn spec_member_2_of_5<A, B, C, D, E>(opt: Option<&(A, B, C, D, E)>) -> Option<&C> {
    match opt {
        Some(s) => Some(&s.2),
        None => None,
    }
}

/// The fourth member of a tuple of 5, if a tuple is given.
pub open spec fn spec_member_3_of_5<A, B, C, D, E>(opt: Option<&(A, B, C, D, E)>) -> Option<&D> {
    match opt {
        Some(s) => Some(&s.3),
        None => None,
    }
}

/// The fifth member of a tuple of 5, if a tuple is given.
pub open spec fn spec_member_4_of_5<A, B, C, D, E>(opt: Option<&(A, B, C, D, E)>) -> Option<&E> {
    match opt {
        Some(s) => Some(&s.4),
        None => None,
    }
}

/// `r` is the tuple of the members.
#[verifier::opaque]
pub open spec fn spec_unpacked_from_5_of_5<A: PackedStructSlice, B: PackedStructSlice, C: PackedStructSlice, D: PackedStructSlice, E: PackedStructSlice>(
    src: Seq<u8>,
    lens: Seq<usize>,
    v0: A,
    v1: B,
    v2: C,
    v3: D,
    v4: E,
    r: PackingResult<(A, B, C, D, E)>,
) -> bool {
    r == Ok::<(A, B, C, D, E), PackingError>((v0, v1, v2, v3, v4))
}

/// `r` is what unpacking a tuple of 5 gives once the members before
/// the fifth are unpacked: the error of the first member that cannot
/// be unpacked from its bytes, or the tuple of the members.
#[verifier::opaque]
pub open spec fn spec_unpacked_from_4_of_5<A: PackedStructSlice, B: PackedStructSlice, C: PackedStructSlice, D: PackedStructSlice, E: PackedStructSlice>(
    src: Seq<u8>,
    lens: Seq<usize>,
    v0: A,
    v1: B,
    v2: C,
    v3: D,
    r: PackingResult<(A, B, C, D, E)>,
) -> bool {
    exists|r4: PackingResult<E>|
        #[trigger] E::spec_unpacked_from_slice(
            src.subrange(spec_ranges(lens)[4].start as int, spec_ranges(lens)[4].end as int),
            r4,
        ) && (match r4 {
            Err(e) => r == Err::<(A, B, C, D, E), PackingError>(e),
            Ok(v4) => spec_unpacked_from_5_of_5(src, lens, v0, v1, v2, v3, v4, r),
        })
}

/// `r` is what unpacking a tuple of 5 gives once the members before
/// the fourth are unpacked: the error of the first member that cannot
/// be unpacked from its bytes, or the tuple of the members.
#[verifier::opaque]
pub open spec fn spec_unpacked_from_3_of_5<A: PackedStructSlice, B: PackedStructSlice, C: PackedStructSlice, D: PackedStructSlice, E: PackedStructSlice>(
    src: Seq<u8>,
    lens: Seq<usize>,
    v0: A,
    v1: B,
    v2: C,
    r: PackingResult<(A, B, C, D, E)>,
) -> bool {
    exists|r3: PackingResult<D>|
        #[trigger] D::spec_unpacked_from_slice(
            src.subrange(spec_ranges(lens)[3].start as int, spec_ranges(lens)[3].end as int),
            r3,
        ) && (match r3 {
            Err(e) => r == Err::<(A, B, C, D, E), PackingError>(e),
            Ok(v3) => spec_unpacked_from_4_of_5(src, lens, v0, v1, v2, v3, r),
        })
}

/// `r` is what unpacking a tuple of 5 gives once the members before
/// the third are unpacked: the error of the first member that cannot
/// be unpacked from its bytes, or the tuple of the members.
#[verifier::opaque]
pub open spec fn spec_unpacked_from_2_of_5<A: PackedStructSlice, B: PackedStructSlice, C: PackedStructSlice, D: PackedStructSlice, E: PackedStructSlice>(
    src: Seq<u8>,
    lens: Seq<usize>,
    v0: A,
    v1: B,
    r: PackingResult<(A, B, C, D, E)>,
) -> bool {
    exists|r2: PackingResult<C>|
        #[trigger] C::spec_unpacked_from_slice(
            src.subrange(spec_ranges(lens)[2].start as int, spec_ranges(lens)[2].end as int),
            r2,
        ) && (match r2 {
            Err(e) => r == Err::<(A, B, C, D, E), PackingError>(e),
            Ok(v2) => spec_unpacked_from_3_of_5(src, lens, v0, v1, v2, r),
        })
}

/// `r` is what unpacking a tuple of 5 gives once the members before
/// the second are unpacked: the error of the first member that cannot
/// be unpacked from its bytes, or the tuple of the members.
#[verifier::opaque]
pub open spec fn spec_unpacked_from_1_of_5<A: PackedStructSlice, B: PackedStructSlice, C: PackedStructSlice, D: PackedStructSlice, E: PackedStructSlice>(
    src: Seq<u8>,
    lens: Seq<usize>,
    v0: A,
    r: PackingResult<(A, B, C, D, E)>,
) -> bool {
    exists|r1: PackingResult<B>|
        #[trigger] B::spec_unpacked_from_slice(
            src.subrange(spec_ranges(lens)[1].start as int, spec_ranges(lens)[1].end as int),
            r1,
        ) && (match r1 {
            Err(e) => r == Err::<(A, B, C, D, E), PackingError>(e),
            Ok(v1) => spec_unpacked_from_2_of_5(src, lens, v0, v1, r),
        })
}

/// `r` is what unpacking a tuple of 5 gives once the members before
/// the first are unpacked: the error of the first member that cannot
/// be unpacked from its bytes, or the tuple of the members.
#[verifier::opaque]
pub open spec fn spec_unpacked_from_0_of_5<A: PackedStructSlice, B: PackedStructSlice, C: PackedStructSlice, D: PackedStructSlice, E: PackedStructSlice>(
    src: Seq<u8>,
    lens: Seq<usize>,
    r: PackingResult<(A, B, C, D, E)>,
) -> bool {
    exists|r0: PackingResult<A>|
        #[trigger] A::spec_unpacked_from_slice(
            src.subrange(spec_ranges(lens)[0].start as int, spec_ranges(lens)[0].end as int),
            r0,
        ) && (match r0 {
            Err(e) => r == Err::<(A, B, C, D, E), PackingError>(e),
            Ok(v0) => spec_unpacked_from_1_of_5(src, lens, v0, r),
        })
}

/// One step of unpacking a tuple of 5: what holds once the first
/// member is unpacked holds before it.
pub proof fn lemma_unpacked_step_0_of_5<A: PackedStructSlice, B: PackedStructSlice, C: PackedStructSlice, D: PackedStructSlice, E: PackedStructSlice>(
    src: Seq<u8>,
    lens: Seq<usize>,
    r0: PackingResult<A>,
    r: PackingResult<(A, B, C, D, E)>,
)
    requires
        A::spec_unpacked_from_slice(
            src.subrange(spec_ranges(lens)[0].start as int, spec_ranges(lens)[0].end as int),
            r0,
        ),
        match r0 {
            Err(e) => r == Err::<(A, B, C, D, E), PackingError>(e),
            Ok(v0) => spec_unpacked_from_1_of_5(src, lens, v0, r),
        },
    ensures
        spec_unpacked_from_0_of_5(src, lens, r),
{
    reveal(spec_unpacked_from_0_of_5);
}

/// One step of unpacking a tuple of 5: what holds once the second
/// member is unpacked holds before it.
pub proof fn lemma_unpacked_step_1_of_5<A: PackedStructSlice, B: PackedStructSlice, C: PackedStructSlice, D: PackedStructSlice, E: PackedStructSlice>(
    src: Seq<u8>,
    lens: Seq<usize>,
    v0: A,
    r1: PackingResult<B>,
    r: PackingResult<(A, B, C, D, E)>,
)
    requires
        B::spec_unpacked_from_slice(
            src.subrange(spec_ranges(lens)[1].start as int, spec_ranges(lens)[1].end as int),
            r1,
        ),
        match r1 {
            Err(e) => r == Err::<(A, B, C, D, E), PackingError>(e),
            Ok(v1) => spec_unpacked_from_2_of_5(src, lens, v0, v1, r),
        },
    ensures
        spec_unpacked_from_1_of_5(src, lens, v0, r),
{
    reveal(spec_unpacked_from_1_of_5);
}

/// One step of unpacking a tuple of 5: what holds once the third
/// member is unpacked holds before it.
pub proof fn lemma_unpacked_step_2_of_5<A: PackedStructSlice, B: PackedStructSlice, C: PackedStructSlice, D: PackedStructSlice, E: PackedStructSlice>(
    src: Seq<u8>,
    lens: Seq<usize>,
    v0: A,
    v1: B,
    r2: PackingResult<C>,
    r: PackingResult<(A, B, C, D, E)>,
)
    requires
        C::spec_unpacked_from_slice(
            src.subrange(spec_ranges(lens)[2].start as int, spec_ranges(lens)[2].end as int),
            r2,
        ),
        match r2 {
            Err(e) => r == Err::<(A, B, C, D, E), PackingError>(e),
            Ok(v2) => spec_unpacked_from_3_of_5(src, lens, v0, v1, v2, r),
        },
    ensures
        spec_unpacked_from_2_of_5(src, lens, v0, v1, r),
{
    reveal(spec_unpacked_from_2_of_5);
}

/// One step of unpacking a tuple of 5: what holds once the fourth
/// member is unpacked holds before it.
pub proof fn lemma_unpacked_step_3_of_5<A: PackedStructSlice, B: PackedStructSlice, C: PackedStructSlice, D: PackedStructSlice, E: PackedStructSlice>(
    src: Seq<u8>,
    lens: Seq<usize>,
    v0: A,
    v1: B,
    v2: C,
    r3: PackingResult<D>,
    r: PackingResult<(A, B, C, D, E)>,
)
    requires
        D::spec_unpacked_from_slice(
            src.subrange(spec_ranges(lens)[3].start as int, spec_ranges(lens)[3].end as int),
            r3,
        ),
        match r3 {
            Err(e) => r == Err::<(A, B, C, D, E), PackingError>(e),
            Ok(v3) => spec_unpacked_from_4_of_5(src, lens, v0, v1, v2, v3, r),
        },
    ensures
        spec_unpacked_from_3_of_5(src, lens, v0, v1, v2, r),
{
    reveal(spec_unpacked_from_3_of_5);
}

/// One step of unpacking a tuple of 5: what holds once the fifth
/// member is unpacked holds before it.
pub proof fn lemma_unpacked_step_4_of_5<A: PackedStructSlice, B: PackedStructSlice, C: PackedStructSlice, D: PackedStructSlice, E: PackedStructSlice>(
    src: Seq<u8>,
    lens: Seq<usize>,
    v0: A,
    v1: B,
    v2: C,
    v3: D,
    r4: PackingResult<E>,
    r: PackingResult<(A, B, C, D, E)>,
)
    requires
        E::spec_unpacked_from_slice(
            src.subrange(spec_ranges(lens)[4].start as int, spec_ranges(lens)[4].end as int),
            r4,
        ),
        match r4 {
            Err(e) => r == Err::<(A, B, C, D, E), PackingError>(e),
            Ok(v4) => spec_unpacked_from_5_of_5(src, lens, v0, v1, v2, v3, v4, r),
        },
    ensures
        spec_unpacked_from_4_of_5(src, lens, v0, v1, v2, v3, r),
{
    reveal(spec_unpacked_from_4_of_5);
}

/// The tuple of the members is what unpacking gives once all 5 are
/// unpacked.
pub proof fn lemma_unpacked_all_of_5<A: PackedStructSlice, B: PackedStructSlice, C: PackedStructSlice, D: PackedStructSlice, E: PackedStructSlice>(
    src: Seq<u8>,
    lens: Seq<usize>,
    v0: A,
    v1: B,
    v2: C,
    v3: D,
    v4: E,
)
    ensures
        spec_unpacked_from_5_of_5(src, lens, v0, v1, v2, v3, v4, Ok::<(A, B, C, D, E), PackingError>((v0, v1, v2, v3, v4))),
{
    reveal(spec_unpacked_from_5_of_5);
}

impl<A: PackedStructSlice, B: PackedStructSlice, C: PackedStructSlice, D: PackedStructSlice, E: PackedStructSlice> PackedStructSlice for (A, B, C, D, E) {
    open spec fn spec_packed_bytes_size(opt_self: Option<&Self>) -> PackingResult<usize> {
        match A::spec_packed_bytes_size(spec_member_0_of_5(opt_self)) {
            Err(e) => Err(e),
            Ok(s0) => match B::spec_packed_bytes_size(spec_member_1_of_5(opt_self)) {
                Err(e) => Err(e),
                Ok(s1) => match C::spec_packed_bytes_size(spec_member_2_of_5(opt_self)) {
                    Err(e) => Err(e),
                    Ok(s2) => match D::spec_packed_bytes_size(spec_member_3_of_5(opt_self)) {
                        Err(e) => Err(e),
                        Ok(s3) => match E::spec_packed_bytes_size(spec_member_4_of_5(opt_self)) {
                            Err(e) => Err(e),
                            Ok(s4) => if s0 + s1 + s2 + s3 + s4 > usize::MAX {
                                Err(PackingError::InternalError)
                            } else {
                                Ok((s0 + s1 + s2 + s3 + s4) as usize)
                            },
                        },
                    },
                },
            },
        }
    }

    open spec fn spec_packed(&self) -> PackingResult<Seq<u8>> {
        match spec_item_packed(self.0, spec_own_size(self.0)) {
            Err(e) => Err(e),
            Ok(b0) => match spec_item_packed(self.1, spec_own_size(self.1)) {
                Err(e) => Err(e),
                Ok(b1) => match spec_item_packed(self.2, spec_own_size(self.2)) {
                    Err(e) => Err(e),
                    Ok(b2) => match spec_item_packed(self.3, spec_own_size(self.3)) {
                        Err(e) => Err(e),
                        Ok(b3) => match spec_item_packed(self.4, spec_own_size(self.4)) {
                            Err(e) => Err(e),
                            Ok(b4) => Ok(b0 + b1 + b2 + b3 + b4),
                        },
                    },
                },
            },
        }
    }

    open spec fn spec_unpacked_from_slice(src: Seq<u8>, r: PackingResult<Self>) -> bool {
        match spec_member_lengths(seq![spec_length_of(A::spec_packed_bytes_size(None)), spec_length_of(B::spec_packed_bytes_size(None)), spec_length_of(C::spec_packed_bytes_size(None)), spec_length_of(D::spec_packed_bytes_size(None)), spec_length_of(E::spec_packed_bytes_size(None))], 5) {
            Err(e) => r == Err::<Self, PackingError>(e),
            Ok(lengths) => match spec_resolved_lengths(lengths, src.len() as usize) {
                Err(e) => r == Err::<Self, PackingError>(e),
                Ok(lens) => spec_unpacked_from_0_of_5(src, lens, r),
            },
        }
    }

    fn pack_to_slice(&self, output: &mut [u8]) -> (r: PackingResult<()>) {
        let s0 = match A::packed_bytes_size(Some(&self.0)) {
            Ok(s) => s,
            Err(e) => {
                return Err(e);
            },
        };
        let s1 = match B::packed_bytes_size(Some(&self.1)) {
            Ok(s) => s,
            Err(e) => {
                return Err(e);
            },
        };
        let s2 = match C::packed_bytes_size(Some(&self.2)) {
            Ok(s) => s,
            Err(e) => {
                return Err(e);
            },
        };
        let s3 = match D::packed_bytes_size(Some(&self.3)) {
            Ok(s) => s,
            Err(e) => {
                return Err(e);
            },
        };
        let s4 = match E::packed_bytes_size(Some(&self.4)) {
            Ok(s) => s,
            Err(e) => {
                return Err(e);
            },
        };
        let mut total: usize = 0;
        total = match total.checked_add(s0) {
            Some(t) => t,
            None => {
                return Err(PackingError::InternalError);
            },
        };
        total = match total.checked_add(s1) {
            Some(t) => t,
            None => {
                return Err(PackingError::InternalError);
            },
        };
        total = match total.checked_add(s2) {
            Some(t) => t,
            None => {
                return Err(PackingError::InternalError);
            },
        };
        total = match total.checked_add(s3) {
            Some(t) => t,
            None => {
                return Err(PackingError::InternalError);
            },
        };
        total = match total.checked_add(s4) {
            Some(t) => t,
            None => {
                return Err(PackingError::InternalError);
            },
        };
        if total != output.len() {
            return Err(PackingError::BufferSizeMismatch { expected: total, actual: output.len() });
        }
        let mut packed: Vec<u8> = Vec::new();
        match append_member(&self.0, s0, &mut packed) {
            Ok(()) => {},
            Err(e) => {
                return Err(e);
            },
        }
        let ghost b0 = spec_item_packed(self.0, s0)->Ok_0;
        assert(packed@ == b0);
        match append_member(&self.1, s1, &mut packed) {
            Ok(()) => {},
            Err(e) => {
                return Err(e);
            },
        }
        let ghost b1 = spec_item_packed(self.1, s1)->Ok_0;
        assert(packed@ == b0 + b1);
        match append_member(&self.2, s2, &mut packed) {
            Ok(()) => {},
            Err(e) => {
                return Err(e);
            },
        }
        let ghost b2 = spec_item_packed(self.2, s2)->Ok_0;
        assert(packed@ == b0 + b1 + b2);
        match append_member(&self.3, s3, &mut packed) {
            Ok(()) => {},
            Err(e) => {
                return Err(e);
            },
        }
        let ghost b3 = spec_item_packed(self.3, s3)->Ok_0;
        assert(packed@ == b0 + b1 + b2 + b3);
        match append_member(&self.4, s4, &mut packed) {
            Ok(()) => {},
            Err(e) => {
                return Err(e);
            },
        }
        let ghost b4 = spec_item_packed(self.4, s4)->Ok_0;
        assert(packed@ == b0 + b1 + b2 + b3 + b4);
        copy_into(output, 0, packed.as_slice());
        assert(output@ =~= packed@);
        Ok(())
    }

    fn unpack_from_slice(src: &[u8]) -> (r: PackingResult<Self>) {
        let mut builder = StructLengthBuilder::new();
        let ghost sizes = seq![spec_length_of(A::spec_packed_bytes_size(None)), spec_length_of(B::spec_packed_bytes_size(None)), spec_length_of(C::spec_packed_bytes_size(None)), spec_length_of(D::spec_packed_bytes_size(None)), spec_length_of(E::spec_packed_bytes_size(None))];
        proof {
            lemma_member_lengths(sizes, 5);
        }
        match builder.add::<A>(None) {
            Ok(_) => {},
            Err(e) => {
                return Err(e);
            },
        }
        match builder.add::<B>(None) {
            Ok(_) => {},
            Err(e) => {
                return Err(e);
            },
        }
        match builder.add::<C>(None) {
            Ok(_) => {},
            Err(e) => {
                return Err(e);
            },
        }
        match builder.add::<D>(None) {
            Ok(_) => {},
            Err(e) => {
                return Err(e);
            },
        }
        match builder.add::<E>(None) {
            Ok(_) => {},
            Err(e) => {
                return Err(e);
            },
        }
        proof {
            assert(builder@ =~= spec_member_lengths(sizes, 5)->Ok_0);
        }
        let ghost lengths = builder@;
        let resolved = match builder.build(src.len()) {
            Ok(l) => l,
            Err(e) => {
                return Err(e);
            },
        };
        let ranges = match resolved.get_ranges() {
            Ok(r) => r,
            Err(e) => {
                return Err(e);
            },
        };
        let ghost lens = spec_resolved_lengths(lengths, src@.len() as usize)->Ok_0;
        proof {
            lemma_resolved_lengths_sum(lengths, src@.len() as usize);
            lemma_ranges_within(lens);
        }
        let v0 = match A::unpack_from_slice(
            match lib_get_slice(src, ranges[0].start, ranges[0].end) {
                Ok(s) => s,
                Err(e) => {
                    return Err(e);
                },
            },
        ) {
            Ok(v) => v,
            Err(e) => {
                let ghost res = Err::<(A, B, C, D, E), PackingError>(e);
                proof {
                    lemma_unpacked_step_0_of_5::<A, B, C, D, E>(src@, lens, Err::<A, PackingError>(e), res);
                }
                return Err(e);
            },
        };
        let v1 = match B::unpack_from_slice(
            match lib_get_slice(src, ranges[1].start, ranges[1].end) {
                Ok(s) => s,
                Err(e) => {
                    return Err(e);
                },
            },
        ) {
            Ok(v) => v,
            Err(e) => {
                let ghost res = Err::<(A, B, C, D, E), PackingError>(e);
                proof {
                    lemma_unpacked_step_1_of_5::<A, B, C, D, E>(src@, lens, v0, Err::<B, PackingError>(e), res);
                    lemma_unpacked_step_0_of_5::<A, B, C, D, E>(src@, lens, Ok::<A, PackingError>(v0), res);
                }
                return Err(e);
            },
        };
        let v2 = match C::unpack_from_slice(
            match lib_get_slice(src, ranges[2].start, ranges[2].end) {
                Ok(s) => s,
                Err(e) => {
                    return Err(e);
                },
            },
        ) {
            Ok(v) => v,
            Err(e) => {
                let ghost res = Err::<(A, B, C, D, E), PackingError>(e);
                proof {
                    lemma_unpacked_step_2_of_5::<A, B, C, D, E>(src@, lens, v0, v1, Err::<C, PackingError>(e), res);
                    lemma_unpacked_step_1_of_5::<A, B, C, D, E>(src@, lens, v0, Ok::<B, PackingError>(v1), res);
                    lemma_unpacked_step_0_of_5::<A, B, C, D, E>(src@, lens, Ok::<A, PackingError>(v0), res);
                }
                return Err(e);
            },
        };
        let v3 = match D::unpack_from_slice(
            match lib_get_slice(src, ranges[3].start, ranges[3].end) {
                Ok(s) => s,
                Err(e) => {
                    return Err(e);
                },
            },
        ) {
            Ok(v) => v,
            Err(e) => {
                let ghost res = Err::<(A, B, C, D, E), PackingError>(e);
                proof {
                    lemma_unpacked_step_3_of_5::<A, B, C, D, E>(src@, lens, v0, v1, v2, Err::<D, PackingError>(e), res);
                    lemma_unpacked_step_2_of_5::<A, B, C, D, E>(src@, lens, v0, v1, Ok::<C, PackingError>(v2), res);
                    lemma_unpacked_step_1_of_5::<A, B, C, D, E>(src@, lens, v0, Ok::<B, PackingError>(v1), res);
                    lemma_unpacked_step_0_of_5::<A, B, C, D, E>(src@, lens, Ok::<A, PackingError>(v0), res);
                }
                return Err(e);
            },
        };
        let v4 = match E::unpack_from_slice(
            match lib_get_slice(src, ranges[4].start, ranges[4].end) {
                Ok(s) => s,
                Err(e) => {
                    return Err(e);
                },
            },
        ) {
            Ok(v) => v,
            Err(e) => {
                let ghost res = Err::<(A, B, C, D, E), PackingError>(e);
                proof {
                    lemma_unpacked_step_4_of_5::<A, B, C, D, E>(src@, lens, v0, v1, v2, v3, Err::<E, PackingError>(e), res);
                    lemma_unpacked_step_3_of_5::<A, B, C, D, E>(src@, lens, v0, v1, v2, Ok::<D, PackingError>(v3), res);
                    lemma_unpacked_step_2_of_5::<A, B, C, D, E>(src@, lens, v0, v1, Ok::<C, PackingError>(v2), res);
                    lemma_unpacked_step_1_of_5::<A, B, C, D, E>(src@, lens, v0, Ok::<B, PackingError>(v1), res);
                    lemma_unpacked_step_0_of_5::<A, B, C, D, E>(src@, lens, Ok::<A, PackingError>(v0), res);
                }
                return Err(e);
            },
        };
        proof {
            lemma_unpacked_all_of_5::<A, B, C, D, E>(src@, lens, v0, v1, v2, v3, v4);
        }
        let ghost res = Ok::<(A, B, C, D, E), PackingError>((v0, v1, v2, v3, v4));
        proof {
            lemma_unpacked_step_4_of_5::<A, B, C, D, E>(src@, lens, v0, v1, v2, v3, Ok::<E, PackingError>(v4), res);
            lemma_unpacked_step_3_of_5::<A, B, C, D, E>(src@, lens, v0, v1, v2, Ok::<D, PackingError>(v3), res);
            lemma_unpacked_step_2_of_5::<A, B, C, D, E>(src@, lens, v0, v1, Ok::<C, PackingError>(v2), res);
            lemma_unpacked_step_1_of_5::<A, B, C, D, E>(src@, lens, v0, Ok::<B, PackingError>(v1), res);
            lemma_unpacked_step_0_of_5::<A, B, C, D, E>(src@, lens, Ok::<A, PackingError>(v0), res);
        }
        Ok((v0, v1, v2, v3, v4))
    }

    fn packed_bytes_size(opt_self: Option<&Self>) -> (r: PackingResult<usize>) {
        let s0 = match A::packed_bytes_size(
            match opt_self {
                Some(s) => Some(&s.0),
                None => None,
            },
        ) {
            Ok(s) => s,
            Err(e) => {
                return Err(e);
            },
        };
        let s1 = match B::packed_bytes_size(
            match opt_self {
                Some(s) => Some(&s.1),
                None => None,
            },
        ) {
            Ok(s) => s,
            Err(e) => {
                return Err(e);
            },
        };
        let s2 = match C::packed_bytes_size(
            match opt_self {
                Some(s) => Some(&s.2),
                None => None,
            },
        ) {
            Ok(s) => s,
            Err(e) => {
                return Err(e);
            },
        };
        let s3 = match D::packed_bytes_size(
            match opt_self {
                Some(s) => Some(&s.3),
                None => None,
            },
        ) {
            Ok(s) => s,
            Err(e) => {
                return Err(e);
            },
        };
        let s4 = match E::packed_bytes_size(
            match opt_self {
                Some(s) => Some(&s.4),
                None => None,
            },
        ) {
            Ok(s) => s,
            Err(e) => {
                return Err(e);
            },
        };
        let mut total: usize = 0;
        total = match total.checked_add(s0) {
            Some(t) => t,
            None => {
                return Err(PackingError::InternalError);
            },
        };
        total = match total.checked_add(s1) {
            Some(t) => t,
            None => {
                return Err(PackingError::InternalError);
            },
        };
        total = match total.checked_add(s2) {
            Some(t) => t,
            None => {
                return Err(PackingError::InternalError);
            },
        };
        total = match total.checked_add(s3) {
            Some(t) => t,
            None => {
                return Err(PackingError::InternalError);
            },
        };
        total = match total.checked_add(s4) {
            Some(t) => t,
            None => {
                return Err(PackingError::InternalError);
            },
        };
        Ok(total)
    }
}

/// The first member of a tuple of 6, if a tuple is given.
pub open spec fn spec_member_0_of_6<A, B, C, D, E, F>(opt: Option<&(A, B, C, D, E, F)>) -> Option<&A> {
    match opt {
        Some(s) => Some(&s.0),
        None => None,
    }
}

/// The second member of a tuple of 6, if a tuple is given.
pub open spec fn spec_member_1_of_6<A, B, C, D, E, F>(opt: Option<&(A, B, C, D, E, F)>) -> Option<&B> {
    match opt {
        Some(s) => Some(&s.1),
        None => None,
    }
}

/// The third member of a tuple of 6, if a tuple is given.
pub open spec fn spec_member_2_of_6<A, B, C, D, E, F>(opt: Option<&(A, B, C, D, E, F)>) -> Option<&C> {
    match opt {
        Some(s) => Some(&s.2),
        None => None,
    }
}

/// The fourth member of a tuple of 6, if a tuple is given.
pub open spec fn spec_member_3_of_6<A, B, C, D, E, F>(opt: Option<&(A, B, C, D, E, F)>) -> Option<&D> {
    match opt {
        Some(s) => Some(&s.3),
        None => None,
    }
}

/// The fifth member of a tuple of 6, if a tuple is given.
pub open spec fn spec_member_4_of_6<A, B, C, D, E, F>(opt: Option<&(A, B, C, D, E, F)>) -> Option<&E> {
    match opt {
        Some(s) => Some(&s.4),
        None => None,
    }
}

/// The sixth member of a tuple of 6, if a tuple is given.
pub open spec fn spec_member_5_of_6<A, B, C, D, E, F>(opt: Option<&(A, B, C, D, E, F)>) -> Option<&F> {
    match opt {
        Some(s) => Some(&s.5),
        None => None,
    }
}

/// `r` is the tuple of the members.
#[verifier::opaque]
pub open spec fn spec_unpacked_from_6_of_6<A: PackedStructSlice, B: PackedStructSlice, C: PackedStructSlice, D: PackedStructSlice, E: PackedStructSlice, F: PackedStructSlice>(
    src: Seq<u8>,
    lens: Seq<usize>,
    v0: A,
    v1: B,
    v2: C,
    v3: D,
    v4: E,
    v5: F,
    r: PackingResult<(A, B, C, D, E, F)>,
) -> bool {
    r == Ok::<(A, B, C, D, E, F), PackingError>((v0, v1, v2, v3, v4, v5))
}

/// `r` is what unpacking a tuple of 6 gives once the members before
/// the sixth are unpacked: the error of the first member that cannot
/// be unpacked from its bytes, or the tuple of the members.
#[verifier::opaque]
pub open spec fn spec_unpacked_from_5_of_6<A: PackedStructSlice, B: PackedStructSlice, C: PackedStructSlice, D: PackedStructSlice, E: PackedStructSlice, F: PackedStructSlice>(
    src: Seq<u8>,
    lens: Seq<usize>,
    v0: A,
    v1: B,
    v2: C,
    v3: D,
    v4: E,
    r: PackingResult<(A, B, C, D, E, F)>,
) -> bool {
    exists|r5: PackingResult<F>|
        #[trigger] F::spec_unpacked_from_slice(
            src.subrange(spec_ranges(lens)[5].start as int, spec_ranges(lens)[5].end as int),
            r5,
        ) && (match r5 {
            Err(e) => r == Err::<(A, B, C, D, E, F), PackingError>(e),
            Ok(v5) => spec_unpacked_from_6_of_6(src, lens, v0, v1, v2, v3, v4, v5, r),
        })
}

/// `r` is what unpacking a tuple of 6 gives once the members before
/// the fifth are unpacked: the error of the first member that cannot
/// be unpacked from its bytes, or the tuple of the members.
#[verifier::opaque]
pub open spec fn spec_unpacked_from_4_of_6<A: PackedStructSlice, B: PackedStructSlice, C: PackedStructSlice, D: PackedStructSlice, E: PackedStructSlice, F: PackedStructSlice>(
    src: Seq<u8>,
    lens: Seq<usize>,
    v0: A,
    v1: B,
    v2: C,
    v3: D,
    r: PackingResult<(A, B, C, D, E, F)>,
) -> bool {
    exists|r4: PackingResult<E>|
        #[trigger] E::spec_unpacked_from_slice(
            src.subrange(spec_ranges(lens)[4].start as int, spec_ranges(lens)[4].end as int),
            r4,
        ) && (match r4 {
            Err(e) => r == Err::<(A, B, C, D, E, F), PackingError>(e),
            Ok(v4) => spec_unpacked_from_5_of_6(src, lens, v0, v1, v2, v3, v4, r),
        })
}

/// `r` is what unpacking a tuple of 6 gives once the members before
/// the fourth are unpacked: the error of the first member that cannot
/// be unpacked from its bytes, or the tuple of the members.
#[verifier::opaque]
pub open spec fn spec_unpacked_from_3_of_6<A: PackedStructSlice, B: PackedStructSlice, C: PackedStructSlice, D: PackedStructSlice, E: PackedStructSlice, F: PackedStructSlice>(
    src: Seq<u8>,
    lens: Seq<usize>,
    v0: A,
    v1: B,
    v2: C,
    r: PackingResult<(A, B, C, D, E, F)>,
) -> bool {
    exists|r3: PackingResult<D>|
        #[trigger] D::spec_unpacked_from_slice(
            src.subrange(spec_ranges(lens)[3].start as int, spec_ranges(lens)[3].end as int),
            r3,
        ) && (match r3 {
            Err(e) => r == Err::<(A, B, C, D, E, F), PackingError>(e),
            Ok(v3) => spec_unpacked_from_4_of_6(src, lens, v0, v1, v2, v3, r),
        })
}

/// `r` is what unpacking a tuple of 6 gives once the members before
/// the third are unpacked: the error of the first member that cannot
/// be unpacked from its bytes, or the tuple of the members.
#[verifier::opaque]
pub open spec fn spec_unpacked_from_2_of_6<A: PackedStructSlice, B: PackedStructSlice, C: PackedStructSlice, D: PackedStructSlice, E: PackedStructSlice, F: PackedStructSlice>(
    src: Seq<u8>,
    lens: Seq<usize>,
    v0: A,
    v1: B,
    r: PackingResult<(A, B, C, D, E, F)>,
) -> bool {
    exists|r2: PackingResult<C>|
        #[trigger] C::spec_unpacked_from_slice(
            src.subrange(spec_ranges(lens)[2].start as int, spec_ranges(lens)[2].end as int),
            r2,
        ) && (match r2 {
            Err(e) => r == Err::<(A, B, C, D, E, F), PackingError>(e),
            Ok(v2) => spec_unpacked_from_3_of_6(src, lens, v0, v1, v2, r),
        })
}

/// `r` is what unpacking a tuple of 6 gives once the members before
/// the second are unpacked: the error of the first member that cannot
/// be unpacked from its bytes, or the tuple of the members.
#[verifier::opaque]
pub open spec fn spec_unpacked_from_1_of_6<A: PackedStructSlice, B: PackedStructSlice, C: PackedStructSlice, D: PackedStructSlice, E: PackedStructSlice, F: PackedStructSlice>(
    src: Seq<u8>,
    lens: Seq<usize>,
    v0: A,
    r: PackingResult<(A, B, C, D, E, F)>,
) -> bool {
    exists|r1: PackingResult<B>|
        #[trigger] B::spec_unpacked_from_slice(
            src.subrange(spec_ranges(lens)[1].start as int, spec_ranges(lens)[1].end as int),
            r1,
        ) && (match r1 {
            Err(e) => r == Err::<(A, B, C, D, E, F), PackingError>(e),
            Ok(v1) => spec_unpacked_from_2_of_6(src, lens, v0, v1, r),
        })
}

/// `r` is what unpacking a tuple of 6 gives once the members before
/// the first are unpacked: the error of the first member that cannot
/// be unpacked from its bytes, or the tuple of the members.
#[verifier::opaque]
pub open spec fn spec_unpacked_from_0_of_6<A: PackedStructSlice, B: PackedStructSlice, C: PackedStructSlice, D: PackedStructSlice, E: PackedStructSlice, F: PackedStructSlice>(
    src: Seq<u8>,
    lens: Seq<usize>,
    r: PackingResult<(A, B, C, D, E, F)>,
) -> bool {
    exists|r0: PackingResult<A>|
        #[trigger] A::spec_unpacked_from_slice(
            src.subrange(spec_ranges(lens)[0].start as int, spec_ranges(lens)[0].end as int),
            r0,
        ) && (match r0 {
            Err(e) => r == Err::<(A, B, C, D, E, F), PackingError>(e),
            Ok(v0) => spec_unpacked_from_1_of_6(src, lens, v0, r),
        })
}

/// One step of unpacking a tuple of 6: what holds once the first
/// member is unpacked holds before it.
pub proof fn lemma_unpacked_step_0_of_6<A: PackedStructSlice, B: PackedStructSlice, C: PackedStructSlice, D: PackedStructSlice, E: PackedStructSlice, F: PackedStructSlice>(
    src: Seq<u8>,
    lens: Seq<usize>,
    r0: PackingResult<A>,
    r: PackingResult<(A, B, C, D, E, F)>,
)
    requires
        A::spec_unpacked_from_slice(
            src.subrange(spec_ranges(lens)[0].start as int, spec_ranges(lens)[0].end as int),
            r0,
        ),
        match r0 {
            Err(e) => r == Err::<(A, B, C, D, E, F), PackingError>(e),
            Ok(v0) => spec_unpacked_from_1_of_6(src, lens, v0, r),
        },
    ensures
        spec_unpacked_from_0_of_6(src, lens, r),
{
    reveal(spec_unpacked_from_0_of_6);
}

/// One step of unpacking a tuple of 6: what holds once the second
/// member is unpacked holds before it.
pub proof fn lemma_unpacked_step_1_of_6<A: PackedStructSlice, B: PackedStructSlice, C: PackedStructSlice, D: PackedStructSlice, E: PackedStructSlice, F: PackedStructSlice>(
    src: Seq<u8>,
    lens: Seq<usize>,
    v0: A,
    r1: PackingResult<B>,
    r: PackingResult<(A, B, C, D, E, F)>,
)
    requires
        B::spec_unpacked_from_slice(
            src.subrange(spec_ranges(lens)[1].start as int, spec_ranges(lens)[1].end as int),
            r1,
        ),
        match r1 {
            Err(e) => r == Err::<(A, B, C, D, E, F), PackingError>(e),
            Ok(v1) => spec_unpacked_from_2_of_6(src, lens, v0, v1, r),
        },
    ensures
        spec_unpacked_from_1_of_6(src, lens, v0, r),
{
    reveal(spec_unpacked_from_1_of_6);
}

/// One step of unpacking a tuple of 6: what holds once the third
/// member is unpacked holds before it.
pub proof fn lemma_unpacked_step_2_of_6<A: PackedStructSlice, B: PackedStructSlice, C: PackedStructSlice, D: PackedStructSlice, E: PackedStructSlice, F: PackedStructSlice>(
    src: Seq<u8>,
    lens: Seq<usize>,
    v0: A,
    v1: B,
    r2: PackingResult<C>,
    r: PackingResult<(A, B, C, D, E, F)>,
)
    requires
        C::spec_unpacked_from_slice(
            src.subrange(spec_ranges(lens)[2].start as int, spec_ranges(lens)[2].end as int),
            r2,
        ),
        match r2 {
            Err(e) => r == Err::<(A, B, C, D, E, F), PackingError>(e),
            Ok(v2) => spec_unpacked_from_3_of_6(src, lens, v0, v1, v2, r),
        },
    ensures
        spec_unpacked_from_2_of_6(src, lens, v0, v1, r),
{
    reveal(spec_unpacked_from_2_of_6);
}

/// One step of unpacking a tuple of 6: what holds once the fourth
/// member is unpacked holds before it.
pub proof fn lemma_unpacked_step_3_of_6<A: PackedStructSlice, B: PackedStructSlice, C: PackedStructSlice, D: PackedStructSlice, E: PackedStructSlice, F: PackedStructSlice>(
    src: Seq<u8>,
    lens: Seq<usize>,
    v0: A,
    v1: B,
    v2: C,
    r3: PackingResult<D>,
    r: PackingResult<(A, B, C, D, E, F)>,
)
    requires
        D::spec_unpacked_from_slice(
            src.subrange(spec_ranges(lens)[3].start as int, spec_ranges(lens)[3].end as int),
            r3,
        ),
        match r3 {
            Err(e) => r == Err::<(A, B, C, D, E, F), PackingError>(e),
            Ok(v3) => spec_unpacked_from_4_of_6(src, lens, v0, v1, v2, v3, r),
        },
    ensures
        spec_unpacked_from_3_of_6(src, lens, v0, v1, v2, r),
{
    reveal(spec_unpacked_from_3_of_6);
}

/// One step of unpacking a tuple of 6: what holds once the fifth
/// member is unpacked holds before it.
pub proof fn lemma_unpacked_step_4_of_6<A: PackedStructSlice, B: PackedStructSlice, C: PackedStructSlice, D: PackedStructSlice, E: PackedStructSlice, F: PackedStructSlice>(
    src: Seq<u8>,
    lens: Seq<usize>,
    v0: A,
    v1: B,
    v2: C,
    v3: D,
    r4: PackingResult<E>,
    r: PackingResult<(A, B, C, D, E, F)>,
)
    requires
        E::spec_unpacked_from_slice(
            src.subrange(spec_ranges(lens)[4].start as int, spec_ranges(lens)[4].end as int),
            r4,
        ),
        match r4 {
            Err(e) => r == Err::<(A, B, C, D, E, F), PackingError>(e),
            Ok(v4) => spec_unpacked_from_5_of_6(src, lens, v0, v1, v2, v3, v4, r),
        },
    ensures
        spec_unpacked_from_4_of_6(src, lens, v0, v1, v2, v3, r),
{
    reveal(spec_unpacked_from_4_of_6);
}

/// One step of unpacking a tuple of 6: what holds once the sixth
/// member is unpacked holds before it.
pub proof fn lemma_unpacked_step_5_of_6<A: PackedStructSlice, B: PackedStructSlice, C: PackedStructSlice, D: PackedStructSlice, E: PackedStructSlice, F: PackedStructSlice>(
    src: Seq<u8>,
    lens: Seq<usize>,
    v0: A,
    v1: B,
    v2: C,
    v3: D,
    v4: E,
    r5: PackingResult<F>,
    r: PackingResult<(A, B, C, D, E, F)>,
)
    requires
        F::spec_unpacked_from_slice(
            src.subrange(spec_ranges(lens)[5].start as int, spec_ranges(lens)[5].end as int),
            r5,
        ),
        match r5 {
            Err(e) => r == Err::<(A, B, C, D, E, F), PackingError>(e),
            Ok(v5) => spec_unpacked_from_6_of_6(src, lens, v0, v1, v2, v3, v4, v5, r),
        },
    ensures
        spec_unpacked_from_5_of_6(src, lens, v0, v1, v2, v3, v4, r),
{
    reveal(spec_unpacked_from_5_of_6);
}

/// The tuple of the members is what unpacking gives once all 6 are
/// unpacked.
pub proof fn lemma_unpacked_all_of_6<A: PackedStructSlice, B: PackedStructSlice, C: PackedStructSlice, D: PackedStructSlice, E: PackedStructSlice, F: PackedStructSlice>(
    src: Seq<u8>,
    lens: Seq<usize>,
    v0: A,
    v1: B,
    v2: C,
    v3: D,
    v4: E,
    v5: F,
)
    ensures
        spec_unpacked_from_6_of_6(src, lens, v0, v1, v2, v3, v4, v5, Ok::<(A, B, C, D, E, F), PackingError>((v0, v1, v2, v3, v4, v5))),
{
    reveal(spec_unpacked_from_6_of_6);
}

impl<A: PackedStructSlice, B: PackedStructSlice, C: PackedStructSlice, D: PackedStructSlice, E: PackedStructSlice, F: PackedStructSlice> PackedStructSlice for (A, B, C, D, E, F) {
    open spec fn spec_packed_bytes_size(opt_self: Option<&Self>) -> PackingResult<usize> {
        match A::spec_packed_bytes_size(spec_member_0_of_6(opt_self)) {
            Err(e) => Err(e),
            Ok(s0) => match B::spec_packed_bytes_size(spec_member_1_of_6(opt_self)) {
                Err(e) => Err(e),
                Ok(s1) => match C::spec_packed_bytes_size(spec_member_2_of_6(opt_self)) {
                    Err(e) => Err(e),
                    Ok(s2) => match D::spec_packed_bytes_size(spec_member_3_of_6(opt_self)) {
                        Err(e) => Err(e),
                        Ok(s3) => match E::spec_packed_bytes_size(spec_member_4_of_6(opt_self)) {
                            Err(e) => Err(e),
                            Ok(s4) => match F::spec_packed_bytes_size(spec_member_5_of_6(opt_self)) {
                                Err(e) => Err(e),
                                Ok(s5) => if s0 + s1 + s2 + s3 + s4 + s5 > usize::MAX {
                                    Err(PackingError::InternalError)
                                } else {
                                    Ok((s0 + s1 + s2 + s3 + s4 + s5) as usize)
                                },
                            },
                        },
                    },
                },
            },
        }
    }

    open spec fn spec_packed(&self) -> PackingResult<Seq<u8>> {
        match spec_item_packed(self.0, spec_own_size(self.0)) {
            Err(e) => Err(e),
            Ok(b0) => match spec_item_packed(self.1, spec_own_size(self.1)) {
                Err(e) => Err(e),
                Ok(b1) => match spec_item_packed(self.2, spec_own_size(self.2)) {
                    Err(e) => Err(e),
                    Ok(b2) => match spec_item_packed(self.3, spec_own_size(self.3)) {
                        Err(e) => Err(e),
                        Ok(b3) => match spec_item_packed(self.4, spec_own_size(self.4)) {
                            Err(e) => Err(e),
                            Ok(b4) => match spec_item_packed(self.5, spec_own_size(self.5)) {
                                Err(e) => Err(e),
                                Ok(b5) => Ok(b0 + b1 + b2 + b3 + b4 + b5),
                            },
                        },
                    },
                },
            },
        }
    }

    open spec fn spec_unpacked_from_slice(src: Seq<u8>, r: PackingResult<Self>) -> bool {
        match spec_member_lengths(seq![spec_length_of(A::spec_packed_bytes_size(None)), spec_length_of(B::spec_packed_bytes_size(None)), spec_length_of(C::spec_packed_bytes_size(None)), spec_length_of(D::spec_packed_bytes_size(None)), spec_length_of(E::spec_packed_bytes_size(None)), spec_length_of(F::spec_packed_bytes_size(None))], 6) {
            Err(e) => r == Err::<Self, PackingError>(e),
            Ok(lengths) => match spec_resolved_lengths(lengths, src.len() as usize) {
                Err(e) => r == Err::<Self, PackingError>(e),
                Ok(lens) => spec_unpacked_from_0_of_6(src, lens, r),
            },
        }
    }

    #[verifier::rlimit(60)]
    fn pack_to_slice(&self, output: &mut [u8]) -> (r: PackingResult<()>) {
        let s0 = match A::packed_bytes_size(Some(&self.0)) {
            Ok(s) => s,
            Err(e) => {
                return Err(e);
            },
        };
        let s1 = match B::packed_bytes_size(Some(&self.1)) {
            Ok(s) => s,
            Err(e) => {
                return Err(e);
            },
        };
        let s2 = match C::packed_bytes_size(Some(&self.2)) {
            Ok(s) => s,
            Err(e) => {
                return Err(e);
            },
        };
        let s3 = match D::packed_bytes_size(Some(&self.3)) {
            Ok(s) => s,
            Err(e) => {
                return Err(e);
            },
        };
        let s4 = match E::packed_bytes_size(Some(&self.4)) {
            Ok(s) => s,
            Err(e) => {
                return Err(e);
            },
        };
        let s5 = match F::packed_bytes_size(Some(&self.5)) {
            Ok(s) => s,
            Err(e) => {
                return Err(e);
            },
        };
        let mut total: usize = 0;
        total = match total.checked_add(s0) {
            Some(t) => t,
            None => {
                return Err(PackingError::InternalError);
            },
        };
        total = match total.checked_add(s1) {
            Some(t) => t,
            None => {
                return Err(PackingError::InternalError);
            },
        };
        total = match total.checked_add(s2) {
            Some(t) => t,
            None => {
                return Err(PackingError::InternalError);
            },
        };
        total = match total.checked_add(s3) {
            Some(t) => t,
            None => {
                return Err(PackingError::InternalError);
            },
        };
        total = match total.checked_add(s4) {
            Some(t) => t,
            None => {
                return Err(PackingError::InternalError);
            },
        };
        total = match total.checked_add(s5) {
            Some(t) => t,
            None => {
                return Err(PackingError::InternalError);
            },
        };
        if total != output.len() {
            return Err(PackingError::BufferSizeMismatch { expected: total, actual: output.len() });
        }
        let mut packed: Vec<u8> = Vec::new();
        match append_member(&self.0, s0, &mut packed) {
            Ok(()) => {},
            Err(e) => {
                return Err(e);
            },
        }
        let ghost b0 = spec_item_packed(self.0, s0)->Ok_0;
        assert(packed@ == b0);
        match append_member(&self.1, s1, &mut packed) {
            Ok(()) => {},
            Err(e) => {
                return Err(e);
            },
        }
        let ghost b1 = spec_item_packed(self.1, s1)->Ok_0;
        assert(packed@ == b0 + b1);
        match append_member(&self.2, s2, &mut packed) {
            Ok(()) => {},
            Err(e) => {
                return Err(e);
            },
        }
        let ghost b2 = spec_item_packed(self.2, s2)->Ok_0;
        assert(packed@ == b0 + b1 + b2);
        match append_member(&self.3, s3, &mut packed) {
            Ok(()) => {},
            Err(e) => {
                return Err(e);
            },
        }
        let ghost b3 = spec_item_packed(self.3, s3)->Ok_0;
        assert(packed@ == b0 + b1 + b2 + b3);
        match append_member(&self.4, s4, &mut packed) {
            Ok(()) => {},
            Err(e) => {
                return Err(e);
            },
        }
        let ghost b4 = spec_item_packed(self.4, s4)->Ok_0;
        assert(packed@ == b0 + b1 + b2 + b3 + b4);
        match append_member(&self.5, s5, &mut packed) {
            Ok(()) => {},
            Err(e) => {
                return Err(e);
            },
        }
        let ghost b5 = spec_item_packed(self.5, s5)->Ok_0;
        assert(packed@ == b0 + b1 + b2 + b3 + b4 + b5);
        copy_into(output, 0, packed.as_slice());
        assert(output@ =~= packed@);
        Ok(())
    }

    #[verifier::rlimit(60)]
    fn unpack_from_slice(src: &[u8]) -> (r: PackingResult<Self>) {
        let mut builder = StructLengthBuilder::new();
        let ghost sizes = seq![spec_length_of(A::spec_packed_bytes_size(None)), spec_length_of(B::spec_packed_bytes_size(None)), spec_length_of(C::spec_packed_bytes_size(None)), spec_length_of(D::spec_packed_bytes_size(None)), spec_length_of(E::spec_packed_bytes_size(None)), spec_length_of(F::spec_packed_bytes_size(None))];
        proof {
            lemma_member_lengths(sizes, 6);
        }
        match builder.add::<A>(None) {
            Ok(_) => {},
            Err(e) => {
                return Err(e);
            },
        }
        match builder.add::<B>(None) {
            Ok(_) => {},
            Err(e) => {
                return Err(e);
            },
        }
        match builder.add::<C>(None) {
            Ok(_) => {},
            Err(e) => {
                return Err(e);
            },
        }
        match builder.add::<D>(None) {
            Ok(_) => {},
            Err(e) => {
                return Err(e);
            },
        }
        match builder.add::<E>(None) {
            Ok(_) => {},
            Err(e) => {
                return Err(e);
            },
        }
        match builder.add::<F>(None) {
            Ok(_) => {},
            Err(e) => {
                return Err(e);
            },
        }
        proof {
            assert(builder@ =~= spec_member_lengths(sizes, 6)->Ok_0);
        }
        let ghost lengths = builder@;
        let resolved = match builder.build(src.len()) {
            Ok(l) => l,
            Err(e) => {
                return Err(e);
            },
        };
        let ranges = match resolved.get_ranges() {
            Ok(r) => r,
            Err(e) => {
                return Err(e);
            },
        };
        let ghost lens = spec_resolved_lengths(lengths, src@.len() as usize)->Ok_0;
        proof {
            lemma_resolved_lengths_sum(lengths, src@.len() as usize);
            lemma_ranges_within(lens);
        }
        let v0 = match A::unpack_from_slice(
            match lib_get_slice(src, ranges[0].start, ranges[0].end) {
                Ok(s) => s,
                Err(e) => {
                    return Err(e);
                },
            },
        ) {
            Ok(v) => v,
            Err(e) => {
                let ghost res = Err::<(A, B, C, D, E, F), PackingError>(e);
                proof {
                    lemma_unpacked_step_0_of_6::<A, B, C, D, E, F>(src@, lens, Err::<A, PackingError>(e), res);
                }
                return Err(e);
            },
        };
        let v1 = match B::unpack_from_slice(
            match lib_get_slice(src, ranges[1].start, ranges[1].end) {
                Ok(s) => s,
                Err(e) => {
                    return Err(e);
                },
            },
        ) {
            Ok(v) => v,
            Err(e) => {
                let ghost res = Err::<(A, B, C, D, E, F), PackingError>(e);
                proof {
                    lemma_unpacked_step_1_of_6::<A, B, C, D, E, F>(src@, lens, v0, Err::<B, PackingError>(e), res);
                    lemma_unpacked_step_0_of_6::<A, B, C, D, E, F>(src@, lens, Ok::<A, PackingError>(v0), res);
                }
                return Err(e);
            },
        };
        let v2 = match C::unpack_from_slice(
            match lib_get_slice(src, ranges[2].start, ranges[2].end) {
                Ok(s) => s,
                Err(e) => {
                    return Err(e);
                },
            },
        ) {
            Ok(v) => v,
            Err(e) => {
                let ghost res = Err::<(A, B, C, D, E, F), PackingError>(e);
                proof {
                    lemma_unpacked_step_2_of_6::<A, B, C, D, E, F>(src@, lens, v0, v1, Err::<C, PackingError>(e), res);
                    lemma_unpacked_step_1_of_6::<A, B, C, D, E, F>(src@, lens, v0, Ok::<B, PackingError>(v1), res);
                    lemma_unpacked_step_0_of_6::<A, B, C, D, E, F>(src@, lens, Ok::<A, PackingError>(v0), res);
                }
                return Err(e);
            },
        };
        let v3 = match D::unpack_from_slice(
            match lib_get_slice(src, ranges[3].start, ranges[3].end) {
                Ok(s) => s,
                Err(e) => {
                    return Err(e);
                },
            },
        ) {
            Ok(v) => v,
            Err(e) => {
                let ghost res = Err::<(A, B, C, D, E, F), PackingError>(e);
                proof {
                    lemma_unpacked_step_3_of_6::<A, B, C, D, E, F>(src@, lens, v0, v1, v2, Err::<D, PackingError>(e), res);
                    lemma_unpacked_step_2_of_6::<A, B, C, D, E, F>(src@, lens, v0, v1, Ok::<C, PackingError>(v2), res);
                    lemma_unpacked_step_1_of_6::<A, B, C, D, E, F>(src@, lens, v0, Ok::<B, PackingError>(v1), res);
                    lemma_unpacked_step_0_of_6::<A, B, C, D, E, F>(src@, lens, Ok::<A, PackingError>(v0), res);
                }
                return Err(e);
            },
        };
        let v4 = match E::unpack_from_slice(
            match lib_get_slice(src, ranges[4].start, ranges[4].end) {
                Ok(s) => s,
                Err(e) => {
                    return Err(e);
                },
            },
        ) {
            Ok(v) => v,
            Err(e) => {
                let ghost res = Err::<(A, B, C, D, E, F), PackingError>(e);
                proof {
                    lemma_unpacked_step_4_of_6::<A, B, C, D, E, F>(src@, lens, v0, v1, v2, v3, Err::<E, PackingError>(e), res);
                    lemma_unpacked_step_3_of_6::<A, B, C, D, E, F>(src@, lens, v0, v1, v2, Ok::<D, PackingError>(v3), res);
                    lemma_unpacked_step_2_of_6::<A, B, C, D, E, F>(src@, lens, v0, v1, Ok::<C, PackingError>(v2), res);
                    lemma_unpacked_step_1_of_6::<A, B, C, D, E, F>(src@, lens, v0, Ok::<B, PackingError>(v1), res);
                    lemma_unpacked_step_0_of_6::<A, B, C, D, E, F>(src@, lens, Ok::<A, PackingError>(v0), res);
                }
                return Err(e);
            },
        };
        let v5 = match F::unpack_from_slice(
            match lib_get_slice(src, ranges[5].start, ranges[5].end) {
                Ok(s) => s,
                Err(e) => {
                    return Err(e);
                },
            },
        ) {
            Ok(v) => v,
            Err(e) => {
                let ghost res = Err::<(A, B, C, D, E, F), PackingError>(e);
                proof {
                    lemma_unpacked_step_5_of_6::<A, B, C, D, E, F>(src@, lens, v0, v1, v2, v3, v4, Err::<F, PackingError>(e), res);
                    lemma_unpacked_step_4_of_6::<A, B, C, D, E, F>(src@, lens, v0, v1, v2, v3, Ok::<E, PackingError>(v4), res);
                    lemma_unpacked_step_3_of_6::<A, B, C, D, E, F>(src@, lens, v0, v1, v2, Ok::<D, PackingError>(v3), res);
                    lemma_unpacked_step_2_of_6::<A, B, C, D, E, F>(src@, lens, v0, v1, Ok::<C, PackingError>(v2), res);
                    lemma_unpacked_step_1_of_6::<A, B, C, D, E, F>(src@, lens, v0, Ok::<B, PackingError>(v1), res);
                    lemma_unpacked_step_0_of_6::<A, B, C, D, E, F>(src@, lens, Ok::<A, PackingError>(v0), res);
                }
                return Err(e);
            },
        };
        proof {
            lemma_unpacked_all_of_6::<A, B, C, D, E, F>(src@, lens, v0, v1, v2, v3, v4, v5);
        }
        let ghost res = Ok::<(A, B, C, D, E, F), PackingError>((v0, v1, v2, v3, v4, v5));
        proof {
            lemma_unpacked_step_5_of_6::<A, B, C, D, E, F>(src@, lens, v0, v1, v2, v3, v4, Ok::<F, PackingError>(v5), res);
            lemma_unpacked_step_4_of_6::<A, B, C, D, E, F>(src@, lens, v0, v1, v2, v3, Ok::<E, PackingError>(v4), res);
            lemma_unpacked_step_3_of_6::<A, B, C, D, E, F>(src@, lens, v0, v1, v2, Ok::<D, PackingError>(v3), res);
            lemma_unpacked_step_2_of_6::<A, B, C, D, E, F>(src@, lens, v0, v1, Ok::<C, PackingError>(v2), res);
            lemma_unpacked_step_1_of_6::<A, B, C, D, E, F>(src@, lens, v0, Ok::<B, PackingError>(v1), res);
            lemma_unpacked_step_0_of_6::<A, B, C, D, E, F>(src@, lens, Ok::<A, PackingError>(v0), res);
        }
        Ok((v0, v1, v2, v3, v4, v5))
    }

    fn packed_bytes_size(opt_self: Option<&Self>) -> (r: PackingResult<usize>) {
        let s0 = match A::packed_bytes_size(
            match opt_self {
                Some(s) => Some(&s.0),
                None => None,
            },
        ) {
            Ok(s) => s,
            Err(e) => {
                return Err(e);
            },
        };
        let s1 = match B::packed_bytes_size(
            match opt_self {
                Some(s) => Some(&s.1),
                None => None,
            },
        ) {
            Ok(s) => s,
            Err(e) => {
                return Err(e);
            },
        };
        let s2 = match C::packed_bytes_size(
            match opt_self {
                Some(s) => Some(&s.2),
                None => None,
            },
        ) {
            Ok(s) => s,
            Err(e) => {
                return Err(e);
            },
        };
        let s3 = match D::packed_bytes_size(
            match opt_self {
                Some(s) => Some(&s.3),
                None => None,
            },
        ) {
            Ok(s) => s,
            Err(e) => {
                return Err(e);
            },
        };
        let s4 = match E::packed_bytes_size(
            match opt_self {
                Some(s) => Some(&s.4),
                None => None,
            },
        ) {
            Ok(s) => s,
            Err(e) => {
                return Err(e);
            },
        };
        let s5 = match F::packed_bytes_size(
            match opt_self {
                Some(s) => Some(&s.5),
                None => None,
            },
        ) {
            Ok(s) => s,
            Err(e) => {
                return Err(e);
            },
        };
        let mut total: usize = 0;
        total = match total.checked_add(s0) {
            Some(t) => t,
            None => {
                return Err(PackingError::InternalError);
            },
        };
        total = match total.checked_add(s1) {
            Some(t) => t,
            None => {
                return Err(PackingError::InternalError);
            },
        };
        total = match total.checked_add(s2) {
            Some(t) => t,
            None => {
                return Err(PackingError::InternalError);
            },
        };
        total = match total.checked_add(s3) {
            Some(t) => t,
            None => {
                return Err(PackingError::InternalError);
            },
        };
        total = match total.checked_add(s4) {
            Some(t) => t,
            None => {
                return Err(PackingError::InternalError);
            },
        };
        total = match total.checked_add(s5) {
            Some(t) => t,
            None => {
                return Err(PackingError::InternalError);
            },
        };
        Ok(total)
    }
}

/// The first member of a tuple of 7, if a tuple is given.
pub open spec fn spec_member_0_of_7<A, B, C, D, E, F, G>(opt: Option<&(A, B, C, D, E, F, G)>) -> Option<&A> {
    match opt {
        Some(s) => Some(&s.0),
        None => None,
    }
}

/// The second member of a tuple of 7, if a tuple is given.
pub open spec fn spec_member_1_of_7<A, B, C, D, E, F, G>(opt: Option<&(A, B, C, D, E, F, G)>) -> Option<&B> {
    match opt {
        Some(s) => Some(&s.1),
        None => None,
    }
}

/// The third member of a tuple of 7, if a tuple is given.
pub open spec fn spec_member_2_of_7<A, B, C, D, E, F, G>(opt: Option<&(A, B, C, D, E, F, G)>) -> Option<&C> {
    match opt {
        Some(s) => Some(&s.2),
        None => None,
    }
}

/// The fourth member of a tuple of 7, if a tuple is given.
pub open spec fn spec_member_3_of_7<A, B, C, D, E, F, G>(opt: Option<&(A, B, C, D, E, F, G)>) -> Option<&D> {
    match opt {
        Some(s) => Some(&s.3),
        None => None,
    }
}

/// The fifth member of a tuple of 7, if a tuple is given.
pub open spec fn spec_member_4_of_7<A, B, C, D, E, F, G>(opt: Option<&(A, B, C, D, E, F, G)>) -> Option<&E> {
    match opt {
        Some(s) => Some(&s.4),
        None => None,
    }
}

/// The sixth member of a tuple of 7, if a tuple is given.
pub open spec fn spec_member_5_of_7<A, B, C, D, E, F, G>(opt: Option<&(A, B, C, D, E, F, G)>) -> Option<&F> {
    match opt {
        Some(s) => Some(&s.5),
        None => None,
    }
}

/// The seventh member of a tuple of 7, if a tuple is given.
pub open spec fn spec_member_6_of_7<A, B, C, D, E, F, G>(opt: Option<&(A, B, C, D, E, F, G)>) -> Option<&G> {
    match opt {
        Some(s) => Some(&s.6),
        None => None,
    }
}

/// `r` is the tuple of the members.
#[verifier::opaque]
pub open spec fn spec_unpacked_from_7_of_7<A: PackedStructSlice, B: PackedStructSlice, C: PackedStructSlice, D: PackedStructSlice, E: PackedStructSlice, F: PackedStructSlice, G: PackedStructSlice>(
    src: Seq<u8>,
    lens: Seq<usize>,
    v0: A,
    v1: B,
    v2: C,
    v3: D,
    v4: E,
    v5: F,
    v6: G,
    r: PackingResult<(A, B, C, D, E, F, G)>,
) -> bool {
    r == Ok::<(A, B, C, D, E, F, G), PackingError>((v0, v1, v2, v3, v4, v5, v6))
}

/// `r` is what unpacking a tuple of 7 gives once the members before
/// the seventh are unpacked: the error of the first member that cannot
/// be unpacked from its bytes, or the tuple of the members.
#[verifier::opaque]
pub open spec fn spec_unpacked_from_6_of_7<A: PackedStructSlice, B: PackedStructSlice, C: PackedStructSlice, D: PackedStructSlice, E: PackedStructSlice, F: PackedStructSlice, G: PackedStructSlice>(
    src: Seq<u8>,
    lens: Seq<usize>,
    v0: A,
    v1: B,
    v2: C,
    v3: D,
    v4: E,
    v5: F,
    r: PackingResult<(A, B, C, D, E, F, G)>,
) -> bool {
    exists|r6: PackingResult<G>|
        #[trigger] G::spec_unpacked_from_slice(
            src.subrange(spec_ranges(lens)[6].start as int, spec_ranges(lens)[6].end as int),
            r6,
        ) && (match r6 {
            Err(e) => r == Err::<(A, B, C, D, E, F, G), PackingError>(e),
            Ok(v6) => spec_unpacked_from_7_of_7(src, lens, v0, v1, v2, v3, v4, v5, v6, r),
        })
}

/// `r` is what unpacking a tuple of 7 gives once the members before
/// the sixth are unpacked: the error of the first member that cannot
/// be unpacked from its bytes, or the tuple of the members.
#[verifier::opaque]
pub open spec fn spec_unpacked_from_5_of_7<A: PackedStructSlice, B: PackedStructSlice, C: PackedStructSlice, D: PackedStructSlice, E: PackedStructSlice, F: PackedStructSlice, G: PackedStructSlice>(
    src: Seq<u8>,
    lens: Seq<usize>,
    v0: A,
    v1: B,
    v2: C,
    v3: D,
    v4: E,
    r: PackingResult<(A, B, C, D, E, F, G)>,
) -> bool {
    exists|r5: PackingResult<F>|
        #[trigger] F::spec_unpacked_from_slice(
            src.subrange(spec_ranges(lens)[5].start as int, spec_ranges(lens)[5].end as int),
            r5,
        ) && (match r5 {
            Err(e) => r == Err::<(A, B, C, D, E, F, G), PackingError>(e),
            Ok(v5) => spec_unpacked_from_6_of_7(src, lens, v0, v1, v2, v3, v4, v5, r),
        })
}

/// `r` is what unpacking a tuple of 7 gives once the members before
/// the fifth are unpacked: the error of the first member that cannot
/// be unpacked from its bytes, or the tuple of the members.
#[verifier::opaque]
pub open spec fn spec_unpacked_from_4_of_7<A: PackedStructSlice, B: PackedStructSlice, C: PackedStructSlice, D: PackedStructSlice, E: PackedStructSlice, F: PackedStructSlice, G: PackedStructSlice>(
    src: Seq<u8>,
    lens: Seq<usize>,
    v0: A,
    v1: B,
    v2: C,
    v3: D,
    r: PackingResult<(A, B, C, D, E, F, G)>,
) -> bool {
    exists|r4: PackingResult<E>|
        #[trigger] E::spec_unpacked_from_slice(
            src.subrange(spec_ranges(lens)[4].start as int, spec_ranges(lens)[4].end as int),
            r4,
        ) && (match r4 {
            Err(e) => r == Err::<(A, B, C, D, E, F, G), PackingError>(e),
            Ok(v4) => spec_unpacked_from_5_of_7(src, lens, v0, v1, v2, v3, v4, r),
        })
}

/// `r` is what unpacking a tuple of 7 gives once the members before
/// the fourth are unpacked: the error of the first member that cannot
/// be unpacked from its bytes, or the tuple of the members.
#[verifier::opaque]
pub open spec fn spec_unpacked_from_3_of_7<A: PackedStructSlice, B: PackedStructSlice, C: PackedStructSlice, D: PackedStructSlice, E: PackedStructSlice, F: PackedStructSlice, G: PackedStructSlice>(
    src: Seq<u8>,
    lens: Seq<usize>,
    v0: A,
    v1: B,
    v2: C,
    r: PackingResult<(A, B, C, D, E, F, G)>,
) -> bool {
    exists|r3: PackingResult<D>|
        #[trigger] D::spec_unpacked_from_slice(
            src.subrange(spec_ranges(lens)[3].start as int, spec_ranges(lens)[3].end as int),
            r3,
        ) && (match r3 {
            Err(e) => r == Err::<(A, B, C, D, E, F, G), PackingError>(e),
            Ok(v3) => spec_unpacked_from_4_of_7(src, lens, v0, v1, v2, v3, r),
        })
}

/// `r` is what unpacking a tuple of 7 gives once the members before
/// the third are unpacked: the error of the first member that cannot
/// be unpacked from its bytes, or the tuple of the members.
#[verifier::opaque]
pub open spec fn spec_unpacked_from_2_of_7<A: PackedStructSlice, B: PackedStructSlice, C: PackedStructSlice, D: PackedStructSlice, E: PackedStructSlice, F: PackedStructSlice, G: PackedStructSlice>(
    src: Seq<u8>,
    lens: Seq<usize>,
    v0: A,
    v1: B,
    r: PackingResult<(A, B, C, D, E, F, G)>,
) -> bool {
    exists|r2: PackingResult<C>|
        #[trigger] C::spec_unpacked_from_slice(
            src.subrange(spec_ranges(lens)[2].start as int, spec_ranges(lens)[2].end as int),
            r2,
        ) && (match r2 {
            Err(e) => r == Err::<(A, B, C, D, E, F, G), PackingError>(e),
            Ok(v2) => spec_unpacked_from_3_of_7(src, lens, v0, v1, v2, r),
        })
}

/// `r` is what unpacking a tuple of 7 gives once the members before
/// the second are unpacked: the error of the first member that cannot
/// be unpacked from its bytes, or the tuple of the members.
#[verifier::opaque]
pub open spec fn spec_unpacked_from_1_of_7<A: PackedStructSlice, B: PackedStructSlice, C: PackedStructSlice, D: PackedStructSlice, E: PackedStructSlice, F: PackedStructSlice, G: PackedStructSlice>(
    src: Seq<u8>,
    lens: Seq<usize>,
    v0: A,
    r: PackingResult<(A, B, C, D, E, F, G)>,
) -> bool {
    exists|r1: PackingResult<B>|
        #[trigger] B::spec_unpacked_from_slice(
            src.subrange(spec_ranges(lens)[1].start as int, spec_ranges(lens)[1].end as int),
            r1,
        ) && (match r1 {
            Err(e) => r == Err::<(A, B, C, D, E, F, G), PackingError>(e),
            Ok(v1) => spec_unpacked_from_2_of_7(src, lens, v0, v1, r),
        })
}

/// `r` is what unpacking a tuple of 7 gives once the members before
/// the first are unpacked: the error of the first member that cannot
/// be unpacked from its bytes, or the tuple of the members.
#[verifier::opaque]
pub open spec fn spec_unpacked_from_0_of_7<A: PackedStructSlice, B: PackedStructSlice, C: PackedStructSlice, D: PackedStructSlice, E: PackedStructSlice, F: PackedStructSlice, G: PackedStructSlice>(
    src: Seq<u8>,
    lens: Seq<usize>,
    r: PackingResult<(A, B, C, D, E, F, G)>,
) -> bool {
    exists|r0: PackingResult<A>|
        #[trigger] A::spec_unpacked_from_slice(
            src.subrange(spec_ranges(lens)[0].start as int, spec_ranges(lens)[0].end as int),
            r0,
        ) && (match r0 {
            Err(e) => r == Err::<(A, B, C, D, E, F, G), PackingError>(e),
            Ok(v0) => spec_unpacked_from_1_of_7(src, lens, v0, r),
        })
}

/// One step of unpacking a tuple of 7: what holds once the first
/// member is unpacked holds before it.
pub proof fn lemma_unpacked_step_0_of_7<A: PackedStructSlice, B: PackedStructSlice, C: PackedStructSlice, D: PackedStructSlice, E: PackedStructSlice, F: PackedStructSlice, G: PackedStructSlice>(
    src: Seq<u8>,
    lens: Seq<usize>,
    r0: PackingResult<A>,
    r: PackingResult<(A, B, C, D, E, F, G)>,
)
    requires
        A::spec_unpacked_from_slice(
            src.subrange(spec_ranges(lens)[0].start as int, spec_ranges(lens)[0].end as int),
            r0,
        ),
        match r0 {
            Err(e) => r == Err::<(A, B, C, D, E, F, G), PackingError>(e),
            Ok(v0) => spec_unpacked_from_1_of_7(src, lens, v0, r),
        },
    ensures
        spec_unpacked_from_0_of_7(src, lens, r),
{
    reveal(spec_unpacked_from_0_of_7);
}

/// One step of unpacking a tuple of 7: what holds once the second
/// member is unpacked holds before it.
pub proof fn lemma_unpacked_step_1_of_7<A: PackedStructSlice, B: PackedStructSlice, C: PackedStructSlice, D: PackedStructSlice, E: PackedStructSlice, F: PackedStructSlice, G: PackedStructSlice>(
    src: Seq<u8>,
    lens: Seq<usize>,
    v0: A,
    r1: PackingResult<B>,
    r: PackingResult<(A, B, C, D, E, F, G)>,
)
    requires
        B::spec_unpacked_from_slice(
            src.subrange(spec_ranges(lens)[1].start as int, spec_ranges(lens)[1].end as int),
            r1,
        ),
        match r1 {
            Err(e) => r == Err::<(A, B, C, D, E, F, G), PackingError>(e),
            Ok(v1) => spec_unpacked_from_2_of_7(src, lens, v0, v1, r),
        },
    ensures
        spec_unpacked_from_1_of_7(src, lens, v0, r),
{
    reveal(spec_unpacked_from_1_of_7);
}

/// One step of unpacking a tuple of 7: what holds once the third
/// member is unpacked holds before it.
pub proof fn lemma_unpacked_step_2_of_7<A: PackedStructSlice, B: PackedStructSlice, C: PackedStructSlice, D: PackedStructSlice, E: PackedStructSlice, F: PackedStructSlice, G: PackedStructSlice>(
    src: Seq<u8>,
    lens: Seq<usize>,
    v0: A,
    v1: B,
    r2: PackingResult<C>,
    r: PackingResult<(A, B, C, D, E, F, G)>,
)
    requires
        C::spec_unpacked_from_slice(
            src.subrange(spec_ranges(lens)[2].start as int, spec_ranges(lens)[2].end as int),
            r2,
        ),
        match r2 {
            Err(e) => r == Err::<(A, B, C, D, E, F, G), PackingError>(e),
            Ok(v2) => spec_unpacked_from_3_of_7(src, lens, v0, v1, v2, r),
        },
    ensures
        spec_unpacked_from_2_of_7(src, lens, v0, v1, r),
{
    reveal(spec_unpacked_from_2_of_7);
}

/// One step of unpacking a tuple of 7: what holds once the fourth
/// member is unpacked holds before it.
pub proof fn lemma_unpacked_step_3_of_7<A: PackedStructSlice, B: PackedStructSlice, C: PackedStructSlice, D: PackedStructSlice, E: PackedStructSlice, F: PackedStructSlice, G: PackedStructSlice>(
    src: Seq<u8>,
    lens: Seq<usize>,
    v0: A,
    v1: B,
    v2: C,
    r3: PackingResult<D>,
    r: PackingResult<(A, B, C, D, E, F, G)>,
)
    requires
        D::spec_unpacked_from_slice(
            src.subrange(spec_ranges(lens)[3].start as int, spec_ranges(lens)[3].end as int),
            r3,
        ),
        match r3 {
            Err(e) => r == Err::<(A, B, C, D, E, F, G), PackingError>(e),
            Ok(v3) => spec_unpacked_from_4_of_7(src, lens, v0, v1, v2, v3, r),
        },
    ensures
        spec_unpacked_from_3_of_7(src, lens, v0, v1, v2, r),
{
    reveal(spec_unpacked_from_3_of_7);
}

/// One step of unpacking a tuple of 7: what holds once the fifth
/// member is unpacked holds before it.
pub proof fn lemma_unpacked_step_4_of_7<A: PackedStructSlice, B: PackedStructSlice, C: PackedStructSlice, D: PackedStructSlice, E: PackedStructSlice, F: PackedStructSlice, G: PackedStructSlice>(
    src: Seq<u8>,
    lens: Seq<usize>,
    v0: A,
    v1: B,
    v2: C,
    v3: D,
    r4: PackingResult<E>,
    r: PackingResult<(A, B, C, D, E, F, G)>,
)
    requires
        E::spec_unpacked_from_slice(
            src.subrange(spec_ranges(lens)[4].start as int, spec_ranges(lens)[4].end as int),
            r4,
        ),
        match r4 {
            Err(e) => r == Err::<(A, B, C, D, E, F, G), PackingError>(e),
            Ok(v4) => spec_unpacked_from_5_of_7(src, lens, v0, v1, v2, v3, v4, r),
        },
    ensures
        spec_unpacked_from_4_of_7(src, lens, v0, v1, v2, v3, r),
{
    reveal(spec_unpacked_from_4_of_7);
}

/// One step of unpacking a tuple of 7: what holds once the sixth
/// member is unpacked holds before it.
pub proof fn lemma_unpacked_step_5_of_7<A: PackedStructSlice, B: PackedStructSlice, C: PackedStructSlice, D: PackedStructSlice, E: PackedStructSlice, F: PackedStructSlice, G: PackedStructSlice>(
    src: Seq<u8>,
    lens: Seq<usize>,
    v0: A,
    v1: B,
    v2: C,
    v3: D,
    v4: E,
    r5: PackingResult<F>,
    r: PackingResult<(A, B, C, D, E, F, G)>,
)
    requires
        F::spec_unpacked_from_slice(
            src.subrange(spec_ranges(lens)[5].start as int, spec_ranges(lens)[5].end as int),
            r5,
        ),
        match r5 {
            Err(e) => r == Err::<(A, B, C, D, E, F, G), PackingError>(e),
            Ok(v5) => spec_unpacked_from_6_of_7(src, lens, v0, v1, v2, v3, v4, v5, r),
        },
    ensures
        spec_unpacked_from_5_of_7(src, lens, v0, v1, v2, v3, v4, r),
{
    reveal(spec_unpacked_from_5_of_7);
}

/// One step of unpacking a tuple of 7: what holds once the seventh
/// member is unpacked holds before it.
pub proof fn lemma_unpacked_step_6_of_7<A: PackedStructSlice, B: PackedStructSlice, C: PackedStructSlice, D: PackedStructSlice, E: PackedStructSlice, F: PackedStructSlice, G: PackedStructSlice>(
    src: Seq<u8>,
    lens: Seq<usize>,
    v0: A,
    v1: B,
    v2: C,
    v3: D,
    v4: E,
    v5: F,
    r6: PackingResult<G>,
    r: PackingResult<(A, B, C, D, E, F, G)>,
)
    requires
        G::spec_unpacked_from_slice(
            src.subrange(spec_ranges(lens)[6].start as int, spec_ranges(lens)[6].end as int),
            r6,
        ),
        match r6 {
            Err(e) => r == Err::<(A, B, C, D, E, F, G), PackingError>(e),
            Ok(v6) => spec_unpacked_from_7_of_7(src, lens, v0, v1, v2, v3, v4, v5, v6, r),
        },
    ensures
        spec_unpacked_from_6_of_7(src, lens, v0, v1, v2, v3, v4, v5, r),
{
    reveal(spec_unpacked_from_6_of_7);
}

/// The tuple of the members is what unpacking gives once all 7 are
/// unpacked.
pub proof fn lemma_unpacked_all_of_7<A: PackedStructSlice, B: PackedStructSlice, C: PackedStructSlice, D: PackedStructSlice, E: PackedStructSlice, F: PackedStructSlice, G: PackedStructSlice>(
    src: Seq<u8>,
    lens: Seq<usize>,
    v0: A,
    v1: B,
    v2: C,
    v3: D,
    v4: E,
    v5: F,
    v6: G,
)
    ensures
        spec_unpacked_from_7_of_7(src, lens, v0, v1, v2, v3, v4, v5, v6, Ok::<(A, B, C, D, E, F, G), PackingError>((v0, v1, v2, v3, v4, v5, v6))),
{
    reveal(spec_unpacked_from_7_of_7);
}

impl<A: PackedStructSlice, B: PackedStructSlice, C: PackedStructSlice, D: PackedStructSlice, E: PackedStructSlice, F: PackedStructSlice, G: PackedStructSlice> PackedStructSlice for (A, B, C, D, E, F, G) {
    open spec fn spec_packed_bytes_size(opt_self: Option<&Self>) -> PackingResult<usize> {
        match A::spec_packed_bytes_size(spec_member_0_of_7(opt_self)) {
            Err(e) => Err(e),
            Ok(s0) => match B::spec_packed_bytes_size(spec_member_1_of_7(opt_self)) {
                Err(e) => Err(e),
                Ok(s1) => match C::spec_packed_bytes_size(spec_member_2_of_7(opt_self)) {
                    Err(e) => Err(e),
                    Ok(s2) => match D::spec_packed_bytes_size(spec_member_3_of_7(opt_self)) {
                        Err(e) => Err(e),
                        Ok(s3) => match E::spec_packed_bytes_size(spec_member_4_of_7(opt_self)) {
                            Err(e) => Err(e),
                            Ok(s4) => match F::spec_packed_bytes_size(spec_member_5_of_7(opt_self)) {
                                Err(e) => Err(e),
                                Ok(s5) => match G::spec_packed_bytes_size(spec_member_6_of_7(opt_self)) {
                                    Err(e) => Err(e),
                                    Ok(s6) => if s0 + s1 + s2 + s3 + s4 + s5 + s6 > usize::MAX {
                                        Err(PackingError::InternalError)
                                    } else {
                                        Ok((s0 + s1 + s2 + s3 + s4 + s5 + s6) as usize)
                                    },
                                },
                            },
                        },
                    },
                },
            },
        }
    }

    open spec fn spec_packed(&self) -> PackingResult<Seq<u8>> {
        match spec_item_packed(self.0, spec_own_size(self.0)) {
            Err(e) => Err(e),
            Ok(b0) => match spec_item_packed(self.1, spec_own_size(self.1)) {
                Err(e) => Err(e),
                Ok(b1) => match spec_item_packed(self.2, spec_own_size(self.2)) {
                    Err(e) => Err(e),
                    Ok(b2) => match spec_item_packed(self.3, spec_own_size(self.3)) {
                        Err(e) => Err(e),
                        Ok(b3) => match spec_item_packed(self.4, spec_own_size(self.4)) {
                            Err(e) => Err(e),
                            Ok(b4) => match spec_item_packed(self.5, spec_own_size(self.5)) {
                                Err(e) => Err(e),
                                Ok(b5) => match spec_item_packed(self.6, spec_own_size(self.6)) {
                                    Err(e) => Err(e),
                                    Ok(b6) => Ok(b0 + b1 + b2 + b3 + b4 + b5 + b6),
                                },
                            },
                        },
                    },
                },
            },
        }
    }

    open spec fn spec_unpacked_from_slice(src: Seq<u8>, r: PackingResult<Self>) -> bool {
        match spec_member_lengths(seq![spec_length_of(A::spec_packed_bytes_size(None)), spec_length_of(B::spec_packed_bytes_size(None)), spec_length_of(C::spec_packed_bytes_size(None)), spec_length_of(D::spec_packed_bytes_size(None)), spec_length_of(E::spec_packed_bytes_size(None)), spec_length_of(F::spec_packed_bytes_size(None)), spec_length_of(G::spec_packed_bytes_size(None))], 7) {
            Err(e) => r == Err::<Self, PackingError>(e),
            Ok(lengths) => match spec_resolved_lengths(lengths, src.len() as usize) {
                Err(e) => r == Err::<Self, PackingError>(e),
                Ok(lens) => spec_unpacked_from_0_of_7(src, lens, r),
            },
        }
    }

    #[verifier::rlimit(60)]
    fn pack_to_slice(&self, output: &mut [u8]) -> (r: PackingResult<()>) {
        let s0 = match A::packed_bytes_size(Some(&self.0)) {
            Ok(s) => s,
            Err(e) => {
                return Err(e);
            },
        };
        let s1 = match B::packed_bytes_size(Some(&self.1)) {
            Ok(s) => s,
            Err(e) => {
                return Err(e);
            },
        };
        let s2 = match C::packed_bytes_size(Some(&self.2)) {
            Ok(s) => s,
            Err(e) => {
                return Err(e);
            },
        };
        let s3 = match D::packed_bytes_size(Some(&self.3)) {
            Ok(s) => s,
            Err(e) => {
                return Err(e);
            },
        };
        let s4 = match E::packed_bytes_size(Some(&self.4)) {
            Ok(s) => s,
            Err(e) => {
                return Err(e);
            },
        };
        let s5 = match F::packed_bytes_size(Some(&self.5)) {
            Ok(s) => s,
            Err(e) => {
                return Err(e);
            },
        };
        let s6 = match G::packed_bytes_size(Some(&self.6)) {
            Ok(s) => s,
            Err(e) => {
                return Err(e);
            },
        };
        let mut total: usize = 0;
        total = match total.checked_add(s0) {
            Some(t) => t,
            None => {
                return Err(PackingError::InternalError);
            },
        };
        total = match total.checked_add(s1) {
            Some(t) => t,
            None => {
                return Err(PackingError::InternalError);
            },
        };
        total = match total.checked_add(s2) {
            Some(t) => t,
            None => {
                return Err(PackingError::InternalError);
            },
        };
        total = match total.checked_add(s3) {
            Some(t) => t,
            None => {
                return Err(PackingError::InternalError);
            },
        };
        total = match total.checked_add(s4) {
            Some(t) => t,
            None => {
                return Err(PackingError::InternalError);
            },
        };
        total = match total.checked_add(s5) {
            Some(t) => t,
            None => {
                return Err(PackingError::InternalError);
            },
        };
        total = match total.checked_add(s6) {
            Some(t) => t,
            None => {
                return Err(PackingError::InternalError);
            },
        };
        if total != output.len() {
            return Err(PackingError::BufferSizeMismatch { expected: total, actual: output.len() });
        }
        let mut packed: Vec<u8> = Vec::new();
        match append_member(&self.0, s0, &mut packed) {
            Ok(()) => {},
            Err(e) => {
                return Err(e);
            },
        }
        let ghost b0 = spec_item_packed(self.0, s0)->Ok_0;
        assert(packed@ == b0);
        match append_member(&self.1, s1, &mut packed) {
            Ok(()) => {},
            Err(e) => {
                return Err(e);
            },
        }
        let ghost b1 = spec_item_packed(self.1, s1)->Ok_0;
        assert(packed@ == b0 + b1);
        match append_member(&self.2, s2, &mut packed) {
            Ok(()) => {},
            Err(e) => {
                return Err(e);
            },
        }
        let ghost b2 = spec_item_packed(self.2, s2)->Ok_0;
        assert(packed@ == b0 + b1 + b2);
        match append_member(&self.3, s3, &mut packed) {
            Ok(()) => {},
            Err(e) => {
                return Err(e);
            },
        }
        let ghost b3 = spec_item_packed(self.3, s3)->Ok_0;
        assert(packed@ == b0 + b1 + b2 + b3);
        match append_member(&self.4, s4, &mut packed) {
            Ok(()) => {},
            Err(e) => {
                return Err(e);
            },
        }
        let ghost b4 = spec_item_packed(self.4, s4)->Ok_0;
        assert(packed@ == b0 + b1 + b2 + b3 + b4);
        match append_member(&self.5, s5, &mut packed) {
            Ok(()) => {},
            Err(e) => {
                return Err(e);
            },
        }
        let ghost b5 = spec_item_packed(self.5, s5)->Ok_0;
        assert(packed@ == b0 + b1 + b2 + b3 + b4 + b5);
        match append_member(&self.6, s6, &mut packed) {
            Ok(()) => {},
            Err(e) => {
                return Err(e);
            },
        }
        let ghost b6 = spec_item_packed(self.6, s6)->Ok_0;
        assert(packed@ == b0 + b1 + b2 + b3 + b4 + b5 + b6);
        copy_into(output, 0, packed.as_slice());
        assert(output@ =~= packed@);
        Ok(())
    }

    #[verifier::rlimit(60)]
    fn unpack_from_slice(src: &[u8]) -> (r: PackingResult<Self>) {
        let mut builder = StructLengthBuilder::new();
        let ghost sizes = seq![spec_length_of(A::spec_packed_bytes_size(None)), spec_length_of(B::spec_packed_bytes_size(None)), spec_length_of(C::spec_packed_bytes_size(None)), spec_length_of(D::spec_packed_bytes_size(None)), spec_length_of(E::spec_packed_bytes_size(None)), spec_length_of(F::spec_packed_bytes_size(None)), spec_length_of(G::spec_packed_bytes_size(None))];
        proof {
            lemma_member_lengths(sizes, 7);
        }
        match builder.add::<A>(None) {
            Ok(_) => {},
            Err(e) => {
                return Err(e);
            },
        }
        match builder.add::<B>(None) {
            Ok(_) => {},
            Err(e) => {
                return Err(e);
            },
        }
        match builder.add::<C>(None) {
            Ok(_) => {},
            Err(e) => {
                return Err(e);
            },
        }
        match builder.add::<D>(None) {
            Ok(_) => {},
            Err(e) => {
                return Err(e);
            },
        }
        match builder.add::<E>(None) {
            Ok(_) => {},
            Err(e) => {
                return Err(e);
            },
        }
        match builder.add::<F>(None) {
            Ok(_) => {},
            Err(e) => {
                return Err(e);
            },
        }
        match builder.add::<G>(None) {
            Ok(_) => {},
            Err(e) => {
                return Err(e);
            },
        }
        proof {
            assert(builder@ =~= spec_member_lengths(sizes, 7)->Ok_0);
        }
        let ghost lengths = builder@;
        let resolved = match builder.build(src.len()) {
            Ok(l) => l,
            Err(e) => {
                return Err(e);
            },
        };
        let ranges = match resolved.get_ranges() {
            Ok(r) => r,
            Err(e) => {
                return Err(e);
            },
        };
        let ghost lens = spec_resolved_lengths(lengths, src@.len() as usize)->Ok_0;
        proof {
            lemma_resolved_lengths_sum(lengths, src@.len() as usize);
            lemma_ranges_within(lens);
        }
        let v0 = match A::unpack_from_slice(
            match lib_get_slice(src, ranges[0].start, ranges[0].end) {
                Ok(s) => s,
                Err(e) => {
                    return Err(e);
                },
            },
        ) {
            Ok(v) => v,
            Err(e) => {
                let ghost res = Err::<(A, B, C, D, E, F, G), PackingError>(e);
                proof {
                    lemma_unpacked_step_0_of_7::<A, B, C, D, E, F, G>(src@, lens, Err::<A, PackingError>(e), res);
                }
                return Err(e);
            },
        };
        let v1 = match B::unpack_from_slice(
            match lib_get_slice(src, ranges[1].start, ranges[1].end) {
                Ok(s) => s,
                Err(e) => {
                    return Err(e);
                },
            },
        ) {
            Ok(v) => v,
            Err(e) => {
                let ghost res = Err::<(A, B, C, D, E, F, G), PackingError>(e);
                proof {
                    lemma_unpacked_step_1_of_7::<A, B, C, D, E, F, G>(src@, lens, v0, Err::<B, PackingError>(e), res);
                    lemma_unpacked_step_0_of_7::<A, B, C, D, E, F, G>(src@, lens, Ok::<A, PackingError>(v0), res);
                }
                return Err(e);
            },
        };
        let v2 = match C::unpack_from_slice(
            match lib_get_slice(src, ranges[2].start, ranges[2].end) {
                Ok(s) => s,
                Err(e) => {
                    return Err(e);
                },
            },
        ) {
            Ok(v) => v,
            Err(e) => {
                let ghost res = Err::<(A, B, C, D, E, F, G), PackingError>(e);
                proof {
                    lemma_unpacked_step_2_of_7::<A, B, C, D, E, F, G>(src@, lens, v0, v1, Err::<C, PackingError>(e), res);
                    lemma_unpacked_step_1_of_7::<A, B, C, D, E, F, G>(src@, lens, v0, Ok::<B, PackingError>(v1), res);
                    lemma_unpacked_step_0_of_7::<A, B, C, D, E, F, G>(src@, lens, Ok::<A, PackingError>(v0), res);
                }
                return Err(e);
            },
        };
        let v3 = match D::unpack_from_slice(
            match lib_get_slice(src, ranges[3].start, ranges[3].end) {
                Ok(s) => s,
                Err(e) => {
                    return Err(e);
                },
            },
        ) {
            Ok(v) => v,
            Err(e) => {
                let ghost res = Err::<(A, B, C, D, E, F, G), PackingError>(e);
                proof {
                    lemma_unpacked_step_3_of_7::<A, B, C, D, E, F, G>(src@, lens, v0, v1, v2, Err::<D, PackingError>(e), res);
                    lemma_unpacked_step_2_of_7::<A, B, C, D, E, F, G>(src@, lens, v0, v1, Ok::<C, PackingError>(v2), res);
                    lemma_unpacked_step_1_of_7::<A, B, C, D, E, F, G>(src@, lens, v0, Ok::<B, PackingError>(v1), res);
                    lemma_unpacked_step_0_of_7::<A, B, C, D, E, F, G>(src@, lens, Ok::<A, PackingError>(v0), res);
                }
                return Err(e);
            },
        };
        let v4 = match E::unpack_from_slice(
            match lib_get_slice(src, ranges[4].start, ranges[4].end) {
                Ok(s) => s,
                Err(e) => {
                    return Err(e);
                },
            },
        ) {
            Ok(v) => v,
            Err(e) => {
                let ghost res = Err::<(A, B, C, D, E, F, G), PackingError>(e);
                proof {
                    lemma_unpacked_step_4_of_7::<A, B, C, D, E, F, G>(src@, lens, v0, v1, v2, v3, Err::<E, PackingError>(e), res);
                    lemma_unpacked_step_3_of_7::<A, B, C, D, E, F, G>(src@, lens, v0, v1, v2, Ok::<D, PackingError>(v3), res);
                    lemma_unpacked_step_2_of_7::<A, B, C, D, E, F, G>(src@, lens, v0, v1, Ok::<C, PackingError>(v2), res);
                    lemma_unpacked_step_1_of_7::<A, B, C, D, E, F, G>(src@, lens, v0, Ok::<B, PackingError>(v1), res);
                    lemma_unpacked_step_0_of_7::<A, B, C, D, E, F, G>(src@, lens, Ok::<A, PackingError>(v0), res);
                }
                return Err(e);
            },
        };
        let v5 = match F::unpack_from_slice(
            match lib_get_slice(src, ranges[5].start, ranges[5].end) {
                Ok(s) => s,
                Err(e) => {
                    return Err(e);
                },
            },
        ) {
            Ok(v) => v,
            Err(e) => {
                let ghost res = Err::<(A, B, C, D, E, F, G), PackingError>(e);
                proof {
                    lemma_unpacked_step_5_of_7::<A, B, C, D, E, F, G>(src@, lens, v0, v1, v2, v3, v4, Err::<F, PackingError>(e), res);
                    lemma_unpacked_step_4_of_7::<A, B, C, D, E, F, G>(src@, lens, v0, v1, v2, v3, Ok::<E, PackingError>(v4), res);
                    lemma_unpacked_step_3_of_7::<A, B, C, D, E, F, G>(src@, lens, v0, v1, v2, Ok::<D, PackingError>(v3), res);
                    lemma_unpacked_step_2_of_7::<A, B, C, D, E, F, G>(src@, lens, v0, v1, Ok::<C, PackingError>(v2), res);
                    lemma_unpacked_step_1_of_7::<A, B, C, D, E, F, G>(src@, lens, v0, Ok::<B, PackingError>(v1), res);
                    lemma_unpacked_step_0_of_7::<A, B, C, D, E, F, G>(src@, lens, Ok::<A, PackingError>(v0), res);
                }
                return Err(e);
            },
        };
        let v6 = match G::unpack_from_slice(
            match lib_get_slice(src, ranges[6].start, ranges[6].end) {
                Ok(s) => s,
                Err(e) => {
                    return Err(e);
                },
            },
        ) {
            Ok(v) => v,
            Err(e) => {
                let ghost res = Err::<(A, B, C, D, E, F, G), PackingError>(e);
                proof {
                    lemma_unpacked_step_6_of_7::<A, B, C, D, E, F, G>(src@, lens, v0, v1, v2, v3, v4, v5, Err::<G, PackingError>(e), res);
                    lemma_unpacked_step_5_of_7::<A, B, C, D, E, F, G>(src@, lens, v0, v1, v2, v3, v4, Ok::<F, PackingError>(v5), res);
                    lemma_unpacked_step_4_of_7::<A, B, C, D, E, F, G>(src@, lens, v0, v1, v2, v3, Ok::<E, PackingError>(v4), res);
                    lemma_unpacked_step_3_of_7::<A, B, C, D, E, F, G>(src@, lens, v0, v1, v2, Ok::<D, PackingError>(v3), res);
                    lemma_unpacked_step_2_of_7::<A, B, C, D, E, F, G>(src@, lens, v0, v1, Ok::<C, PackingError>(v2), res);
                    lemma_unpacked_step_1_of_7::<A, B, C, D, E, F, G>(src@, lens, v0, Ok::<B, PackingError>(v1), res);
                    lemma_unpacked_step_0_of_7::<A, B, C, D, E, F, G>(src@, lens, Ok::<A, PackingError>(v0), res);
                }
                return Err(e);
            },
        };
        proof {
            lemma_unpacked_all_of_7::<A, B, C, D, E, F, G>(src@, lens, v0, v1, v2, v3, v4, v5, v6);
        }
        let ghost res = Ok::<(A, B, C, D, E, F, G), PackingError>((v0, v1, v2, v3, v4, v5, v6));
        proof {
            lemma_unpacked_step_6_of_7::<A, B, C, D, E, F, G>(src@, lens, v0, v1, v2, v3, v4, v5, Ok::<G, PackingError>(v6), res);
            lemma_unpacked_step_5_of_7::<A, B, C, D, E, F, G>(src@, lens, v0, v1, v2, v3, v4, Ok::<F, PackingError>(v5), res);
            lemma_unpacked_step_4_of_7::<A, B, C, D, E, F, G>(src@, lens, v0, v1, v2, v3, Ok::<E, PackingError>(v4), res);
            lemma_unpacked_step_3_of_7::<A, B, C, D, E, F, G>(src@, lens, v0, v1, v2, Ok::<D, PackingError>(v3), res);
            lemma_unpacked_step_2_of_7::<A, B, C, D, E, F, G>(src@, lens, v0, v1, Ok::<C, PackingError>(v2), res);
            lemma_unpacked_step_1_of_7::<A, B, C, D, E, F, G>(src@, lens, v0, Ok::<B, PackingError>(v1), res);
            lemma_unpacked_step_0_of_7::<A, B, C, D, E, F, G>(src@, lens, Ok::<A, PackingError>(v0), res);
        }
        Ok((v0, v1, v2, v3, v4, v5, v6))
    }

    fn packed_bytes_size(opt_self: Option<&Self>) -> (r: PackingResult<usize>) {
        let s0 = match A::packed_bytes_size(
            match opt_self {
                Some(s) => Some(&s.0),
                None => None,
            },
        ) {
            Ok(s) => s,
            Err(e) => {
                return Err(e);
            },
        };
        let s1 = match B::packed_bytes_size(
            match opt_self {
                Some(s) => Some(&s.1),
                None => None,
            },
        ) {
            Ok(s) => s,
            Err(e) => {
                return Err(e);
            },
        };
        let s2 = match C::packed_bytes_size(
            match opt_self {
                Some(s) => Some(&s.2),
                None => None,
            },
        ) {
            Ok(s) => s,
            Err(e) => {
                return Err(e);
            },
        };
        let s3 = match D::packed_bytes_size(
            match opt_self {
                Some(s) => Some(&s.3),
                None => None,
            },
        ) {
            Ok(s) => s,
            Err(e) => {
                return Err(e);
            },
        };
        let s4 = match E::packed_bytes_size(
            match opt_self {
                Some(s) => Some(&s.4),
                None => None,
            },
        ) {
            Ok(s) => s,
            Err(e) => {
                return Err(e);
            },
        };
        let s5 = match F::packed_bytes_size(
            match opt_self {
                Some(s) => Some(&s.5),
                None => None,
            },
        ) {
            Ok(s) => s,
            Err(e) => {
                return Err(e);
            },
        };
        let s6 = match G::packed_bytes_size(
            match opt_self {
                Some(s) => Some(&s.6),
                None => None,
            },
        ) {
            Ok(s) => s,
            Err(e) => {
                return Err(e);
            },
        };
        let mut total: usize = 0;
        total = match total.checked_add(s0) {
            Some(t) => t,
            None => {
                return Err(PackingError::InternalError);
            },
        };
        total = match total.checked_add(s1) {
            Some(t) => t,
            None => {
                return Err(PackingError::InternalError);
            },
        };
        total = match total.checked_add(s2) {
            Some(t) => t,
            None => {
                return Err(PackingError::InternalError);
            },
        };
        total = match total.checked_add(s3) {
            Some(t) => t,
            None => {
                return Err(PackingError::InternalError);
            },
        };
        total = match total.checked_add(s4) {
            Some(t) => t,
            None => {
                return Err(PackingError::InternalError);
            },
        };
        total = match total.checked_add(s5) {
            Some(t) => t,
            None => {
                return Err(PackingError::InternalError);
            },
        };
        total = match total.checked_add(s6) {
            Some(t) => t,
            None => {
                return Err(PackingError::InternalError);
            },
        };
        Ok(total)
    }
}

/// The first member of a tuple of 8, if a tuple is given.
pub open spec fn spec_member_0_of_8<A, B, C, D, E, F, G, H>(opt: Option<&(A, B, C, D, E, F, G, H)>) -> Option<&A> {
    match opt {
        Some(s) => Some(&s.0),
        None => None,
    }
}

/// The second member of a tuple of 8, if a tuple is given.
pub open spec fn spec_member_1_of_8<A, B, C, D, E, F, G, H>(opt: Option<&(A, B, C, D, E, F, G, H)>) -> Option<&B> {
    match opt {
        Some(s) => Some(&s.1),
        None => None,
    }
}

/// The third member of a tuple of 8, if a tuple is given.
pub open spec fn spec_member_2_of_8<A, B, C, D, E, F, G, H>(opt: Option<&(A, B, C, D, E, F, G, H)>) -> Option<&C> {
    match opt {
        Some(s) => Some(&s.2),
        None => None,
    }
}

/// The fourth member of a tuple of 8, if a tuple is given.
pub open spec fn spec_member_3_of_8<A, B, C, D, E, F, G, H>(opt: Option<&(A, B, C, D, E, F, G, H)>) -> Option<&D> {
    match opt {
        Some(s) => Some(&s.3),
        None => None,
    }
}

/// The fifth member of a tuple of 8, if a tuple is given.
pub open spec fn spec_member_4_of_8<A, B, C, D, E, F, G, H>(opt: Option<&(A, B, C, D, E, F, G, H)>) -> Option<&E> {
    match opt {
        Some(s) => Some(&s.4),
        None => None,
    }
}

/// The sixth member of a tuple of 8, if a tuple is given.
pub open spec fn spec_member_5_of_8<A, B, C, D, E, F, G, H>(opt: Option<&(A, B, C, D, E, F, G, H)>) -> Option<&F> {
    match opt {
        Some(s) => Some(&s.5),
        None => None,
    }
}

/// The seventh member of a tuple of 8, if a tuple is given.
pub open spec fn spec_member_6_of_8<A, B, C, D, E, F, G, H>(opt: Option<&(A, B, C, D, E, F, G, H)>) -> Option<&G> {
    match opt {
        Some(s) => Some(&s.6),
        None => None,
    }
}

/// The eighth member of a tuple of 8, if a tuple is given.
pub open spec fn spec_member_7_of_8<A, B, C, D, E, F, G, H>(opt: Option<&(A, B, C, D, E, F, G, H)>) -> Option<&H> {
    match opt {
        Some(s) => Some(&s.7),
        None => None,
    }
}

/// `r` is the tuple of the members.
#[verifier::opaque]
pub open spec fn spec_unpacked_from_8_of_8<A: PackedStructSlice, B: PackedStructSlice, C: PackedStructSlice, D: PackedStructSlice, E: PackedStructSlice, F: PackedStructSlice, G: PackedStructSlice, H: PackedStructSlice>(
    src: Seq<u8>,
    lens: Seq<usize>,
    v0: A,
    v1: B,
    v2: C,
    v3: D,
    v4: E,
    v5: F,
    v6: G,
    v7: H,
    r: PackingResult<(A, B, C, D, E, F, G, H)>,
) -> bool {
    r == Ok::<(A, B, C, D, E, F, G, H), PackingError>((v0, v1, v2, v3, v4, v5, v6, v7))
}

/// `r` is what unpacking a tuple of 8 gives once the members before
/// the eighth are unpacked: the error of the first member that cannot
/// be unpacked from its bytes, or the tuple of the members.
#[verifier::opaque]
pub open spec fn spec_unpacked_from_7_of_8<A: PackedStructSlice, B: PackedStructSlice, C: PackedStructSlice, D: PackedStructSlice, E: PackedStructSlice, F: PackedStructSlice, G: PackedStructSlice, H: PackedStructSlice>(
    src: Seq<u8>,
    lens: Seq<usize>,
    v0: A,
    v1: B,
    v2: C,
    v3: D,
    v4: E,
    v5: F,
    v6: G,
    r: PackingResult<(A, B, C, D, E, F, G, H)>,
) -> bool {
    exists|r7: PackingResult<H>|
        #[trigger] H::spec_unpacked_from_slice(
            src.subrange(spec_ranges(lens)[7].start as int, spec_ranges(lens)[7].end as int),
            r7,
        ) && (match r7 {
            Err(e) => r == Err::<(A, B, C, D, E, F, G, H), PackingError>(e),
            Ok(v7) => spec_unpacked_from_8_of_8(src, lens, v0, v1, v2, v3, v4, v5, v6, v7, r),
        })
}

/// `r` is what unpacking a tuple of 8 gives once the members before
/// the seventh are unpacked: the error of the first member that cannot
/// be unpacked from its bytes, or the tuple of the members.
#[verifier::opaque]
pub open spec fn spec_unpacked_from_6_of_8<A: PackedStructSlice, B: PackedStructSlice, C: PackedStructSlice, D: PackedStructSlice, E: PackedStructSlice, F: PackedStructSlice, G: PackedStructSlice, H: PackedStructSlice>(
    src: Seq<u8>,
    lens: Seq<usize>,
    v0: A,
    v1: B,
    v2: C,
    v3: D,
    v4: E,
    v5: F,
    r: PackingResult<(A, B, C, D, E, F, G, H)>,
) -> bool {
    exists|r6: PackingResult<G>|
        #[trigger] G::spec_unpacked_from_slice(
            src.subrange(spec_ranges(lens)[6].start as int, spec_ranges(lens)[6].end as int),
            r6,
        ) && (match r6 {
            Err(e) => r == Err::<(A, B, C, D, E, F, G, H), PackingError>(e),
            Ok(v6) => spec_unpacked_from_7_of_8(src, lens, v0, v1, v2, v3, v4, v5, v6, r),
        })
}

/// `r` is what unpacking a tuple of 8 gives once the members before
/// the sixth are unpacked: the error of the first member that cannot
/// be unpacked from its bytes, or the tuple of the members.
#[verifier::opaque]
pub open spec fn spec_unpacked_from_5_of_8<A: PackedStructSlice, B: PackedStructSlice, C: PackedStructSlice, D: PackedStructSlice, E: PackedStructSlice, F: PackedStructSlice, G: PackedStructSlice, H: PackedStructSlice>(
    src: Seq<u8>,
    lens: Seq<usize>,
    v0: A,
    v1: B,
    v2: C,
    v3: D,
    v4: E,
    r: PackingResult<(A, B, C, D, E, F, G, H)>,
) -> bool {
    exists|r5: PackingResult<F>|
        #[trigger] F::spec_unpacked_from_slice(
            src.subrange(spec_ranges(lens)[5].start as int, spec_ranges(lens)[5].end as int),
            r5,
        ) && (match r5 {
            Err(e) => r == Err::<(A, B, C, D, E, F, G, H), PackingError>(e),
            Ok(v5) => spec_unpacked_from_6_of_8(src, lens, v0, v1, v2, v3, v4, v5, r),
        })
}

/// `r` is what unpacking a tuple of 8 gives once the members before
/// the fifth are unpacked: the error of the first member that cannot
/// be unpacked from its bytes, or the tuple of the members.
#[verifier::opaque]
pub open spec fn spec_unpacked_from_4_of_8<A: PackedStructSlice, B: PackedStructSlice, C: PackedStructSlice, D: PackedStructSlice, E: PackedStructSlice, F: PackedStructSlice, G: PackedStructSlice, H: PackedStructSlice>(
    src: Seq<u8>,
    lens: Seq<usize>,
    v0: A,
    v1: B,
    v2: C,
    v3: D,
    r: PackingResult<(A, B, C, D, E, F, G, H)>,
) -> bool {
    exists|r4: PackingResult<E>|
        #[trigger] E::spec_unpacked_from_slice(
            src.subrange(spec_ranges(lens)[4].start as int, spec_ranges(lens)[4].end as int),
            r4,
        ) && (match r4 {
            Err(e) => r == Err::<(A, B, C, D, E, F, G, H), PackingError>(e),
            Ok(v4) => spec_unpacked_from_5_of_8(src, lens, v0, v1, v2, v3, v4, r),
        })
}

/// `r` is what unpacking a tuple of 8 gives once the members before
/// the fourth are unpacked: the error of the first member that cannot
/// be unpacked from its bytes, or the tuple of the members.
#[verifier::opaque]
pub open spec fn spec_unpacked_from_3_of_8<A: PackedStructSlice, B: PackedStructSlice, C: PackedStructSlice, D: PackedStructSlice, E: PackedStructSlice, F: PackedStructSlice, G: PackedStructSlice, H: PackedStructSlice>(
    src: Seq<u8>,
    lens: Seq<usize>,
    v0: A,
    v1: B,
    v2: C,
    r: PackingResult<(A, B, C, D, E, F, G, H)>,
) -> bool {
    exists|r3: PackingResult<D>|
        #[trigger] D::spec_unpacked_from_slice(
            src.subrange(spec_ranges(lens)[3].start as int, spec_ranges(lens)[3].end as int),
            r3,
        ) && (match r3 {
            Err(e) => r == Err::<(A, B, C, D, E, F, G, H), PackingError>(e),
            Ok(v3) => spec_unpacked_from_4_of_8(src, lens, v0, v1, v2, v3, r),
        })
}

/// `r` is what unpacking a tuple of 8 gives once the members before
/// the third are unpacked: the error of the first member that cannot
/// be unpacked from its bytes, or the tuple of the members.
#[verifier::opaque]
pub open spec fn spec_unpacked_from_2_of_8<A: PackedStructSlice, B: PackedStructSlice, C: PackedStructSlice, D: PackedStructSlice, E: PackedStructSlice, F: PackedStructSlice, G: PackedStructSlice, H: PackedStructSlice>(
    src: Seq<u8>,
    lens: Seq<usize>,
    v0: A,
    v1: B,
    r: PackingResult<(A, B, C, D, E, F, G, H)>,
) -> bool {
    exists|r2: PackingResult<C>|
        #[trigger] C::spec_unpacked_from_slice(
            src.subrange(spec_ranges(lens)[2].start as int, spec_ranges(lens)[2].end as int),
            r2,
        ) && (match r2 {
            Err(e) => r == Err::<(A, B, C, D, E, F, G, H), PackingError>(e),
            Ok(v2) => spec_unpacked_from_3_of_8(src, lens, v0, v1, v2, r),
        })
}

/// `r` is what unpacking a tuple of 8 gives once the members before
/// the second are unpacked: the error of the first member that cannot
/// be unpacked from its bytes, or the tuple of the members.
#[verifier::opaque]
pub open spec fn spec_unpacked_from_1_of_8<A: PackedStructSlice, B: PackedStructSlice, C: PackedStructSlice, D: PackedStructSlice, E: PackedStructSlice, F: PackedStructSlice, G: PackedStructSlice, H: PackedStructSlice>(
    src: Seq<u8>,
    lens: Seq<usize>,
    v0: A,
    r: PackingResult<(A, B, C, D, E, F, G, H)>,
) -> bool {
    exists|r1: PackingResult<B>|
        #[trigger] B::spec_unpacked_from_slice(
            src.subrange(spec_ranges(lens)[1].start as int, spec_ranges(lens)[1].end as int),
            r1,
        ) && (match r1 {
            Err(e) => r == Err::<(A, B, C, D, E, F, G, H), PackingError>(e),
            Ok(v1) => spec_unpacked_from_2_of_8(src, lens, v0, v1, r),
        })
}

/// `r` is what unpacking a tuple of 8 gives once the members before
/// the first are unpacked: the error of the first member that cannot
/// be unpacked from its bytes, or the tuple of the members.
#[verifier::opaque]
pub open spec fn spec_unpacked_from_0_of_8<A: PackedStructSlice, B: PackedStructSlice, C: PackedStructSlice, D: PackedStructSlice, E: PackedStructSlice, F: PackedStructSlice, G: PackedStructSlice, H: PackedStructSlice>(
    src: Seq<u8>,
    lens: Seq<usize>,
    r: PackingResult<(A, B, C, D, E, F, G, H)>,
) -> bool {
    exists|r0: PackingResult<A>|
        #[trigger] A::spec_unpacked_from_slice(
            src.subrange(spec_ranges(lens)[0].start as int, spec_ranges(lens)[0].end as int),
            r0,
        ) && (match r0 {
            Err(e) => r == Err::<(A, B, C, D, E, F, G, H), PackingError>(e),
            Ok(v0) => spec_unpacked_from_1_of_8(src, lens, v0, r),
        })
}

/// One step of unpacking a tuple of 8: what holds once the first
/// member is unpacked holds before it.
pub proof fn lemma_unpacked_step_0_of_8<A: PackedStructSlice, B: PackedStructSlice, C: PackedStructSlice, D: PackedStructSlice, E: PackedStructSlice, F: PackedStructSlice, G: PackedStructSlice, H: PackedStructSlice>(
    src: Seq<u8>,
    lens: Seq<usize>,
    r0: PackingResult<A>,
    r: PackingResult<(A, B, C, D, E, F, G, H)>,
)
    requires
        A::spec_unpacked_from_slice(
            src.subrange(spec_ranges(lens)[0].start as int, spec_ranges(lens)[0].end as int),
            r0,
        ),
        match r0 {
            Err(e) => r == Err::<(A, B, C, D, E, F, G, H), PackingError>(e),
            Ok(v0) => spec_unpacked_from_1_of_8(src, lens, v0, r),
        },
    ensures
        spec_unpacked_from_0_of_8(src, lens, r),
{
    reveal(spec_unpacked_from_0_of_8);
}

/// One step of unpacking a tuple of 8: what holds once the second
/// member is unpacked holds before it.
pub proof fn lemma_unpacked_step_1_of_8<A: PackedStructSlice, B: PackedStructSlice, C: PackedStructSlice, D: PackedStructSlice, E: PackedStructSlice, F: PackedStructSlice, G: PackedStructSlice, H: PackedStructSlice>(
    src: Seq<u8>,
    lens: Seq<usize>,
    v0: A,
    r1: PackingResult<B>,
    r: PackingResult<(A, B, C, D, E, F, G, H)>,
)
    requires
        B::spec_unpacked_from_slice(
            src.subrange(spec_ranges(lens)[1].start as int, spec_ranges(lens)[1].end as int),
            r1,
        ),
        match r1 {
            Err(e) => r == Err::<(A, B, C, D, E, F, G, H), PackingError>(e),
            Ok(v1) => spec_unpacked_from_2_of_8(src, lens, v0, v1, r),
        },
    ensures
        spec_unpacked_from_1_of_8(src, lens, v0, r),
{
    reveal(spec_unpacked_from_1_of_8);
}

/// One step of unpacking a tuple of 8: what holds once the third
/// member is unpacked holds before it.
pub proof fn lemma_unpacked_step_2_of_8<A: PackedStructSlice, B: PackedStructSlice, C: PackedStructSlice, D: PackedStructSlice, E: PackedStructSlice, F: PackedStructSlice, G: PackedStructSlice, H: PackedStructSlice>(
    src: Seq<u8>,
    lens: Seq<usize>,
    v0: A,
    v1: B,
    r2: PackingResult<C>,
    r: PackingResult<(A, B, C, D, E, F, G, H)>,
)
    requires
        C::spec_unpacked_from_slice(
            src.subrange(spec_ranges(lens)[2].start as int, spec_ranges(lens)[2].end as int),
            r2,
        ),
        match r2 {
            Err(e) => r == Err::<(A, B, C, D, E, F, G, H), PackingError>(e),
            Ok(v2) => spec_unpacked_from_3_of_8(src, lens, v0, v1, v2, r),
        },
    ensures
        spec_unpacked_from_2_of_8(src, lens, v0, v1, r),
{
    reveal(spec_unpacked_from_2_of_8);
}

/// One step of unpacking a tuple of 8: what holds once the fourth
/// member is unpacked holds before it.
pub proof fn lemma_unpacked_step_3_of_8<A: PackedStructSlice, B: PackedStructSlice, C: PackedStructSlice, D: PackedStructSlice, E: PackedStructSlice, F: PackedStructSlice, G: PackedStructSlice, H: PackedStructSlice>(
    src: Seq<u8>,
    lens: Seq<usize>,
    v0: A,
    v1: B,
    v2: C,
    r3: PackingResult<D>,
    r: PackingResult<(A, B, C, D, E, F, G, H)>,
)
    requires
        D::spec_unpacked_from_slice(
            src.subrange(spec_ranges(lens)[3].start as int, spec_ranges(lens)[3].end as int),
            r3,
        ),
        match r3 {
            Err(e) => r == Err::<(A, B, C, D, E, F, G, H), PackingError>(e),
            Ok(v3) => spec_unpacked_from_4_of_8(src, lens, v0, v1, v2, v3, r),
        },
    ensures
        spec_unpacked_from_3_of_8(src, lens, v0, v1, v2, r),
{
    reveal(spec_unpacked_from_3_of_8);
}

/// One step of unpacking a tuple of 8: what holds once the fifth
/// member is unpacked holds before it.
pub proof fn lemma_unpacked_step_4_of_8<A: PackedStructSlice, B: PackedStructSlice, C: PackedStructSlice, D: PackedStructSlice, E: PackedStructSlice, F: PackedStructSlice, G: PackedStructSlice, H: PackedStructSlice>(
    src: Seq<u8>,
    lens: Seq<usize>,
    v0: A,
    v1: B,
    v2: C,
    v3: D,
    r4: PackingResult<E>,
    r: PackingResult<(A, B, C, D, E, F, G, H)>,
)
    requires
        E::spec_unpacked_from_slice(
            src.subrange(spec_ranges(lens)[4].start as int, spec_ranges(lens)[4].end as int),
            r4,
        ),
        match r4 {
            Err(e) => r == Err::<(A, B, C, D, E, F, G, H), PackingError>(e),
            Ok(v4) => spec_unpacked_from_5_of_8(src, lens, v0, v1, v2, v3, v4, r),
        },
    ensures
        spec_unpacked_from_4_of_8(src, lens, v0, v1, v2, v3, r),
{
    reveal(spec_unpacked_from_4_of_8);
}

/// One step of unpacking a tuple of 8: what holds once the sixth
/// member is unpacked holds before it.
pub proof fn lemma_unpacked_step_5_of_8<A: PackedStructSlice, B: PackedStructSlice, C: PackedStructSlice, D: PackedStructSlice, E: PackedStructSlice, F: PackedStructSlice, G: PackedStructSlice, H: PackedStructSlice>(
    src: Seq<u8>,
    lens: Seq<usize>,
    v0: A,
    v1: B,
    v2: C,
    v3: D,
    v4: E,
    r5: PackingResult<F>,
    r: PackingResult<(A, B, C, D, E, F, G, H)>,
)
    requires
        F::spec_unpacked_from_slice(
            src.subrange(spec_ranges(lens)[5].start as int, spec_ranges(lens)[5].end as int),
            r5,
        ),
        match r5 {
            Err(e) => r == Err::<(A, B, C, D, E, F, G, H), PackingError>(e),
            Ok(v5) => spec_unpacked_from_6_of_8(src, lens, v0, v1, v2, v3, v4, v5, r),
        },
    ensures
        spec_unpacked_from_5_of_8(src, lens, v0, v1, v2, v3, v4, r),
{
    reveal(spec_unpacked_from_5_of_8);
}

/// One step of unpacking a tuple of 8: what holds once the seventh
/// member is unpacked holds before it.
pub proof fn lemma_unpacked_step_6_of_8<A: PackedStructSlice, B: PackedStructSlice, C: PackedStructSlice, D: PackedStructSlice, E: PackedStructSlice, F: PackedStructSlice, G: PackedStructSlice, H: PackedStructSlice>(
    src: Seq<u8>,
    lens: Seq<usize>,
    v0: A,
    v1: B,
    v2: C,
    v3: D,
    v4: E,
    v5: F,
    r6: PackingResult<G>,
    r: PackingResult<(A, B, C, D, E, F, G, H)>,
)
    requires
        G::spec_unpacked_from_slice(
            src.subrange(spec_ranges(lens)[6].start as int, spec_ranges(lens)[6].end as int),
            r6,
        ),
        match r6 {
            Err(e) => r == Err::<(A, B, C, D, E, F, G, H), PackingError>(e),
            Ok(v6) => spec_unpacked_from_7_of_8(src, lens, v0, v1, v2, v3, v4, v5, v6, r),
        },
    ensures
        spec_unpacked_from_6_of_8(src, lens, v0, v1, v2, v3, v4, v5, r),
{
    reveal(spec_unpacked_from_6_of_8);
}

/// One step of unpacking a tuple of 8: what holds once the eighth
/// member is unpacked holds before it.
pub proof fn lemma_unpacked_step_7_of_8<A: PackedStructSlice, B: PackedStructSlice, C: PackedStructSlice, D: PackedStructSlice, E: PackedStructSlice, F: PackedStructSlice, G: PackedStructSlice, H: PackedStructSlice>(
    src: Seq<u8>,
    lens: Seq<usize>,
    v0: A,
    v1: B,
    v2: C,
    v3: D,
    v4: E,
    v5: F,
    v6: G,
    r7: PackingResult<H>,
    r: PackingResult<(A, B, C, D, E, F, G, H)>,
)
    requires
        H::spec_unpacked_from_slice(
            src.subrange(spec_ranges(lens)[7].start as int, spec_ranges(lens)[7].end as int),
            r7,
        ),
        match r7 {
            Err(e) => r == Err::<(A, B, C, D, E, F, G, H), PackingError>(e),
            Ok(v7) => spec_unpacked_from_8_of_8(src, lens, v0, v1, v2, v3, v4, v5, v6, v7, r),
        },
    ensures
        spec_unpacked_from_7_of_8(src, lens, v0, v1, v2, v3, v4, v5, v6, r),
{
    reveal(spec_unpacked_from_7_of_8);
}

/// The tuple of the members is what unpacking gives once all 8 are
/// unpacked.
pub proof fn lemma_unpacked_all_of_8<A: PackedStructSlice, B: PackedStructSlice, C: PackedStructSlice, D: PackedStructSlice, E: PackedStructSlice, F: PackedStructSlice, G: PackedStructSlice, H: PackedStructSlice>(
    src: Seq<u8>,
    lens: Seq<usize>,
    v0: A,
    v1: B,
    v2: C,
    v3: D,
    v4: E,
    v5: F,
    v6: G,
    v7: H,
)
    ensures
        spec_unpacked_from_8_of_8(src, lens, v0, v1, v2, v3, v4, v5, v6, v7, Ok::<(A, B, C, D, E, F, G, H), PackingError>((v0, v1, v2, v3, v4, v5, v6, v7))),
{
    reveal(spec_unpacked_from_8_of_8);
}

impl<A: PackedStructSlice, B: PackedStructSlice, C: PackedStructSlice, D: PackedStructSlice, E: PackedStructSlice, F: PackedStructSlice, G: PackedStructSlice, H: PackedStructSlice> PackedStructSlice for (A, B, C, D, E, F, G, H) {
    open spec fn spec_packed_bytes_size(opt_self: Option<&Self>) -> PackingResult<usize> {
        match A::spec_packed_bytes_size(spec_member_0_of_8(opt_self)) {
            Err(e) => Err(e),
            Ok(s0) => match B::spec_packed_bytes_size(spec_member_1_of_8(opt_self)) {
                Err(e) => Err(e),
                Ok(s1) => match C::spec_packed_bytes_size(spec_member_2_of_8(opt_self)) {
                    Err(e) => Err(e),
                    Ok(s2) => match D::spec_packed_bytes_size(spec_member_3_of_8(opt_self)) {
                        Err(e) => Err(e),
                        Ok(s3) => match E::spec_packed_bytes_size(spec_member_4_of_8(opt_self)) {
                            Err(e) => Err(e),
                            Ok(s4) => match F::spec_packed_bytes_size(spec_member_5_of_8(opt_self)) {
                                Err(e) => Err(e),
                                Ok(s5) => match G::spec_packed_bytes_size(spec_member_6_of_8(opt_self)) {
                                    Err(e) => Err(e),
                                    Ok(s6) => match H::spec_packed_bytes_size(spec_member_7_of_8(opt_self)) {
                                        Err(e) => Err(e),
                                        Ok(s7) => if s0 + s1 + s2 + s3 + s4 + s5 + s6 + s7 > usize::MAX {
                                            Err(PackingError::InternalError)
                                        } else {
                                            Ok((s0 + s1 + s2 + s3 + s4 + s5 + s6 + s7) as usize)
                                        },
                                    },
                                },
                            },
                        },
                    },
                },
            },
        }
    }

    open spec fn spec_packed(&self) -> PackingResult<Seq<u8>> {
        match spec_item_packed(self.0, spec_own_size(self.0)) {
            Err(e) => Err(e),
            Ok(b0) => match spec_item_packed(self.1, spec_own_size(self.1)) {
                Err(e) => Err(e),
                Ok(b1) => match spec_item_packed(self.2, spec_own_size(self.2)) {
                    Err(e) => Err(e),
                    Ok(b2) => match spec_item_packed(self.3, spec_own_size(self.3)) {
                        Err(e) => Err(e),
                        Ok(b3) => match spec_item_packed(self.4, spec_own_size(self.4)) {
                            Err(e) => Err(e),
                            Ok(b4) => match spec_item_packed(self.5, spec_own_size(self.5)) {
                                Err(e) => Err(e),
                                Ok(b5) => match spec_item_packed(self.6, spec_own_size(self.6)) {
                                    Err(e) => Err(e),
                                    Ok(b6) => match spec_item_packed(self.7, spec_own_size(self.7)) {
                                        Err(e) => Err(e),
                                        Ok(b7) => Ok(b0 + b1 + b2 + b3 + b4 + b5 + b6 + b7),
                                    },
                                },
                            },
                        },
                    },
                },
            },
        }
    }

    open spec fn spec_unpacked_from_slice(src: Seq<u8>, r: PackingResult<Self>) -> bool {
        match spec_member_lengths(seq![spec_length_of(A::spec_packed_bytes_size(None)), spec_length_of(B::spec_packed_bytes_size(None)), spec_length_of(C::spec_packed_bytes_size(None)), spec_length_of(D::spec_packed_bytes_size(None)), spec_length_of(E::spec_packed_bytes_size(None)), spec_length_of(F::spec_packed_bytes_size(None)), spec_length_of(G::spec_packed_bytes_size(None)), spec_length_of(H::spec_packed_bytes_size(None))], 8) {
            Err(e) => r == Err::<Self, PackingError>(e),
            Ok(lengths) => match spec_resolved_lengths(lengths, src.len() as usize) {
                Err(e) => r == Err::<Self, PackingError>(e),
                Ok(lens) => spec_unpacked_from_0_of_8(src, lens, r),
            },
        }
    }

    #[verifier::rlimit(60)]
    fn pack_to_slice(&self, output: &mut [u8]) -> (r: PackingResult<()>) {
        let s0 = match A::packed_bytes_size(Some(&self.0)) {
            Ok(s) => s,
            Err(e) => {
                return Err(e);
            },
        };
        let s1 = match B::packed_bytes_size(Some(&self.1)) {
            Ok(s) => s,
            Err(e) => {
                return Err(e);
            },
        };
        let s2 = match C::packed_bytes_size(Some(&self.2)) {
            Ok(s) => s,
            Err(e) => {
                return Err(e);
            },
        };
        let s3 = match D::packed_bytes_size(Some(&self.3)) {
            Ok(s) => s,
            Err(e) => {
                return Err(e);
            },
        };
        let s4 = match E::packed_bytes_size(Some(&self.4)) {
            Ok(s) => s,
            Err(e) => {
                return Err(e);
            },
        };
        let s5 = match F::packed_bytes_size(Some(&self.5)) {
            Ok(s) => s,
            Err(e) => {
                return Err(e);
            },
        };
        let s6 = match G::packed_bytes_size(Some(&self.6)) {
            Ok(s) => s,
            Err(e) => {
                return Err(e);
            },
        };
        let s7 = match H::packed_bytes_size(Some(&self.7)) {
            Ok(s) => s,
            Err(e) => {
                return Err(e);
            },
        };
        let mut total: usize = 0;
        total = match total.checked_add(s0) {
            Some(t) => t,
            None => {
                return Err(PackingError::InternalError);
            },
        };
        total = match total.checked_add(s1) {
            Some(t) => t,
            None => {
                return Err(PackingError::InternalError);
            },
        };
        total = match total.checked_add(s2) {
            Some(t) => t,
            None => {
                return Err(PackingError::InternalError);
            },
        };
        total = match total.checked_add(s3) {
            Some(t) => t,
            None => {
                return Err(PackingError::InternalError);
            },
        };
        total = match total.checked_add(s4) {
            Some(t) => t,
            None => {
                return Err(PackingError::InternalError);
            },
        };
        total = match total.checked_add(s5) {
            Some(t) => t,
            None => {
                return Err(PackingError::InternalError);
            },
        };
        total = match total.checked_add(s6) {
            Some(t) => t,
            None => {
                return Err(PackingError::InternalError);
            },
        };
        total = match total.checked_add(s7) {
            Some(t) => t,
            None => {
                return Err(PackingError::InternalError);
            },
        };
        if total != output.len() {
            return Err(PackingError::BufferSizeMismatch { expected: total, actual: output.len() });
        }
        let mut packed: Vec<u8> = Vec::new();
        match append_member(&self.0, s0, &mut packed) {
            Ok(()) => {},
            Err(e) => {
                return Err(e);
            },
        }
        let ghost b0 = spec_item_packed(self.0, s0)->Ok_0;
        assert(packed@ == b0);
        match append_member(&self.1, s1, &mut packed) {
            Ok(()) => {},
            Err(e) => {
                return Err(e);
            },
        }
        let ghost b1 = spec_item_packed(self.1, s1)->Ok_0;
        assert(packed@ == b0 + b1);
        match append_member(&self.2, s2, &mut packed) {
            Ok(()) => {},
            Err(e) => {
                return Err(e);
            },
        }
        let ghost b2 = spec_item_packed(self.2, s2)->Ok_0;
        assert(packed@ == b0 + b1 + b2);
        match append_member(&self.3, s3, &mut packed) {
            Ok(()) => {},
            Err(e) => {
                return Err(e);
            },
        }
        let ghost b3 = spec_item_packed(self.3, s3)->Ok_0;
        assert(packed@ == b0 + b1 + b2 + b3);
        match append_member(&self.4, s4, &mut packed) {
            Ok(()) => {},
            Err(e) => {
                return Err(e);
            },
        }
        let ghost b4 = spec_item_packed(self.4, s4)->Ok_0;
        assert(packed@ == b0 + b1 + b2 + b3 + b4);
        match append_member(&self.5, s5, &mut packed) {
            Ok(()) => {},
            Err(e) => {
                return Err(e);
            },
        }
        let ghost b5 = spec_item_packed(self.5, s5)->Ok_0;
        assert(packed@ == b0 + b1 + b2 + b3 + b4 + b5);
        match append_member(&self.6, s6, &mut packed) {
            Ok(()) => {},
            Err(e) => {
                return Err(e);
            },
        }
        let ghost b6 = spec_item_packed(self.6, s6)->Ok_0;
        assert(packed@ == b0 + b1 + b2 + b3 + b4 + b5 + b6);
        match append_member(&self.7, s7, &mut packed) {
            Ok(()) => {},
            Err(e) => {
                return Err(e);
            },
        }
        let ghost b7 = spec_item_packed(self.7, s7)->Ok_0;
        assert(packed@ == b0 + b1 + b2 + b3 + b4 + b5 + b6 + b7);
        copy_into(output, 0, packed.as_slice());
        assert(output@ =~= packed@);
        Ok(())
    }

    #[verifier::rlimit(60)]
    fn unpack_from_slice(src: &[u8]) -> (r: PackingResult<Self>) {
        let mut builder = StructLengthBuilder::new();
        let ghost sizes = seq![spec_length_of(A::spec_packed_bytes_size(None)), spec_length_of(B::spec_packed_bytes_size(None)), spec_length_of(C::spec_packed_bytes_size(None)), spec_length_of(D::spec_packed_bytes_size(None)), spec_length_of(E::spec_packed_bytes_size(None)), spec_length_of(F::spec_packed_bytes_size(None)), spec_length_of(G::spec_packed_bytes_size(None)), spec_length_of(H::spec_packed_bytes_size(None))];
        proof {
            lemma_member_lengths(sizes, 8);
        }
        match builder.add::<A>(None) {
            Ok(_) => {},
            Err(e) => {
                return Err(e);
            },
        }
        match builder.add::<B>(None) {
            Ok(_) => {},
            Err(e) => {
                return Err(e);
            },
        }
        match builder.add::<C>(None) {
            Ok(_) => {},
            Err(e) => {
                return Err(e);
            },
        }
        match builder.add::<D>(None) {
            Ok(_) => {},
            Err(e) => {
                return Err(e);
            },
        }
        match builder.add::<E>(None) {
            Ok(_) => {},
            Err(e) => {
                return Err(e);
            },
        }
        match builder.add::<F>(None) {
            Ok(_) => {},
            Err(e) => {
                return Err(e);
            },
        }
        match builder.add::<G>(None) {
            Ok(_) => {},
            Err(e) => {
                return Err(e);
            },
        }
        match builder.add::<H>(None) {
            Ok(_) => {},
            Err(e) => {
                return Err(e);
            },
        }
        proof {
            assert(builder@ =~= spec_member_lengths(sizes, 8)->Ok_0);
        }
        let ghost lengths = builder@;
        let resolved = match builder.build(src.len()) {
            Ok(l) => l,
            Err(e) => {
                return Err(e);
            },
        };
        let ranges = match resolved.get_ranges() {
            Ok(r) => r,
            Err(e) => {
                return Err(e);
            },
        };
        let ghost lens = spec_resolved_lengths(lengths, src@.len() as usize)->Ok_0;
        proof {
            lemma_resolved_lengths_sum(lengths, src@.len() as usize);
            lemma_ranges_within(lens);
        }
        let v0 = match A::unpack_from_slice(
            match lib_get_slice(src, ranges[0].start, ranges[0].end) {
                Ok(s) => s,
                Err(e) => {
                    return Err(e);
                },
            },
        ) {
            Ok(v) => v,
            Err(e) => {
                let ghost res = Err::<(A, B, C, D, E, F, G, H), PackingError>(e);
                proof {
                    lemma_unpacked_step_0_of_8::<A, B, C, D, E, F, G, H>(src@, lens, Err::<A, PackingError>(e), res);
                }
                return Err(e);
            },
        };
        let v1 = match B::unpack_from_slice(
            match lib_get_slice(src, ranges[1].start, ranges[1].end) {
                Ok(s) => s,
                Err(e) => {
                    return Err(e);
                },
            },
        ) {
            Ok(v) => v,
            Err(e) => {
                let ghost res = Err::<(A, B, C, D, E, F, G, H), PackingError>(e);
                proof {
                    lemma_unpacked_step_1_of_8::<A, B, C, D, E, F, G, H>(src@, lens, v0, Err::<B, PackingError>(e), res);
                    lemma_unpacked_step_0_of_8::<A, B, C, D, E, F, G, H>(src@, lens, Ok::<A, PackingError>(v0), res);
                }
                return Err(e);
            },
        };
        let v2 = match C::unpack_from_slice(
            match lib_get_slice(src, ranges[2].start, ranges[2].end) {
                Ok(s) => s,
                Err(e) => {
                    return Err(e);
                },
            },
        ) {
            Ok(v) => v,
            Err(e) => {
                let ghost res = Err::<(A, B, C, D, E, F, G, H), PackingError>(e);
                proof {
                    lemma_unpacked_step_2_of_8::<A, B, C, D, E, F, G, H>(src@, lens, v0, v1, Err::<C, PackingError>(e), res);
                    lemma_unpacked_step_1_of_8::<A, B, C, D, E, F, G, H>(src@, lens, v0, Ok::<B, PackingError>(v1), res);
                    lemma_unpacked_step_0_of_8::<A, B, C, D, E, F, G, H>(src@, lens, Ok::<A, PackingError>(v0), res);
                }
                return Err(e);
            },
        };
        let v3 = match D::unpack_from_slice(
            match lib_get_slice(src, ranges[3].start, ranges[3].end) {
                Ok(s) => s,
                Err(e) => {
                    return Err(e);
                },
            },
        ) {
            Ok(v) => v,
            Err(e) => {
                let ghost res = Err::<(A, B, C, D, E, F, G, H), PackingError>(e);
                proof {
                    lemma_unpacked_step_3_of_8::<A, B, C, D, E, F, G, H>(src@, lens, v0, v1, v2, Err::<D, PackingError>(e), res);
                    lemma_unpacked_step_2_of_8::<A, B, C, D, E, F, G, H>(src@, lens, v0, v1, Ok::<C, PackingError>(v2), res);
                    lemma_unpacked_step_1_of_8::<A, B, C, D, E, F, G, H>(src@, lens, v0, Ok::<B, PackingError>(v1), res);
                    lemma_unpacked_step_0_of_8::<A, B, C, D, E, F, G, H>(src@, lens, Ok::<A, PackingError>(v0), res);
                }
                return Err(e);
            },
        };
        let v4 = match E::unpack_from_slice(
            match lib_get_slice(src, ranges[4].start, ranges[4].end) {
                Ok(s) => s,
                Err(e) => {
                    return Err(e);
                },
            },
        ) {
            Ok(v) => v,
            Err(e) => {
                let ghost res = Err::<(A, B, C, D, E, F, G, H), PackingError>(e);
                proof {
                    lemma_unpacked_step_4_of_8::<A, B, C, D, E, F, G, H>(src@, lens, v0, v1, v2, v3, Err::<E, PackingError>(e), res);
                    lemma_unpacked_step_3_of_8::<A, B, C, D, E, F, G, H>(src@, lens, v0, v1, v2, Ok::<D, PackingError>(v3), res);
                    lemma_unpacked_step_2_of_8::<A, B, C, D, E, F, G, H>(src@, lens, v0, v1, Ok::<C, PackingError>(v2), res);
                    lemma_unpacked_step_1_of_8::<A, B, C, D, E, F, G, H>(src@, lens, v0, Ok::<B, PackingError>(v1), res);
                    lemma_unpacked_step_0_of_8::<A, B, C, D, E, F, G, H>(src@, lens, Ok::<A, PackingError>(v0), res);
                }
                return Err(e);
            },
        };
        let v5 = match F::unpack_from_slice(
            match lib_get_slice(src, ranges[5].start, ranges[5].end) {
                Ok(s) => s,
                Err(e) => {
                    return Err(e);
                },
            },
        ) {
            Ok(v) => v,
            Err(e) => {
                let ghost res = Err::<(A, B, C, D, E, F, G, H), PackingError>(e);
                proof {
                    lemma_unpacked_step_5_of_8::<A, B, C, D, E, F, G, H>(src@, lens, v0, v1, v2, v3, v4, Err::<F, PackingError>(e), res);
                    lemma_unpacked_step_4_of_8::<A, B, C, D, E, F, G, H>(src@, lens, v0, v1, v2, v3, Ok::<E, PackingError>(v4), res);
                    lemma_unpacked_step_3_of_8::<A, B, C, D, E, F, G, H>(src@, lens, v0, v1, v2, Ok::<D, PackingError>(v3), res);
                    lemma_unpacked_step_2_of_8::<A, B, C, D, E, F, G, H>(src@, lens, v0, v1, Ok::<C, PackingError>(v2), res);
                    lemma_unpacked_step_1_of_8::<A, B, C, D, E, F, G, H>(src@, lens, v0, Ok::<B, PackingError>(v1), res);
                    lemma_unpacked_step_0_of_8::<A, B, C, D, E, F, G, H>(src@, lens, Ok::<A, PackingError>(v0), res);
                }
                return Err(e);
            },
        };
        let v6 = match G::unpack_from_slice(
            match lib_get_slice(src, ranges[6].start, ranges[6].end) {
                Ok(s) => s,
                Err(e) => {
                    return Err(e);
                },
            },
        ) {
            Ok(v) => v,
            Err(e) => {
                let ghost res = Err::<(A, B, C, D, E, F, G, H), PackingError>(e);
                proof {
                    lemma_unpacked_step_6_of_8::<A, B, C, D, E, F, G, H>(src@, lens, v0, v1, v2, v3, v4, v5, Err::<G, PackingError>(e), res);
                    lemma_unpacked_step_5_of_8::<A, B, C, D, E, F, G, H>(src@, lens, v0, v1, v2, v3, v4, Ok::<F, PackingError>(v5), res);
                    lemma_unpacked_step_4_of_8::<A, B, C, D, E, F, G, H>(src@, lens, v0, v1, v2, v3, Ok::<E, PackingError>(v4), res);
                    lemma_unpacked_step_3_of_8::<A, B, C, D, E, F, G, H>(src@, lens, v0, v1, v2, Ok::<D, PackingError>(v3), res);
                    lemma_unpacked_step_2_of_8::<A, B, C, D, E, F, G, H>(src@, lens, v0, v1, Ok::<C, PackingError>(v2), res);
                    lemma_unpacked_step_1_of_8::<A, B, C, D, E, F, G, H>(src@, lens, v0, Ok::<B, PackingError>(v1), res);
                    lemma_unpacked_step_0_of_8::<A, B, C, D, E, F, G, H>(src@, lens, Ok::<A, PackingError>(v0), res);
                }
                return Err(e);
            },
        };
        let v7 = match H::unpack_from_slice(
            match lib_get_slice(src, ranges[7].start, ranges[7].end) {
                Ok(s) => s,
                Err(e) => {
                    return Err(e);
                },
            },
        ) {
            Ok(v) => v,
            Err(e) => {
                let ghost res = Err::<(A, B, C, D, E, F, G, H), PackingError>(e);
                proof {
                    lemma_unpacked_step_7_of_8::<A, B, C, D, E, F, G, H>(src@, lens, v0, v1, v2, v3, v4, v5, v6, Err::<H, PackingError>(e), res);
                    lemma_unpacked_step_6_of_8::<A, B, C, D, E, F, G, H>(src@, lens, v0, v1, v2, v3, v4, v5, Ok::<G, PackingError>(v6), res);
                    lemma_unpacked_step_5_of_8::<A, B, C, D, E, F, G, H>(src@, lens, v0, v1, v2, v3, v4, Ok::<F, PackingError>(v5), res);
                    lemma_unpacked_step_4_of_8::<A, B, C, D, E, F, G, H>(src@, lens, v0, v1, v2, v3, Ok::<E, PackingError>(v4), res);
                    lemma_unpacked_step_3_of_8::<A, B, C, D, E, F, G, H>(src@, lens, v0, v1, v2, Ok::<D, PackingError>(v3), res);
                    lemma_unpacked_step_2_of_8::<A, B, C, D, E, F, G, H>(src@, lens, v0, v1, Ok::<C, PackingError>(v2), res);
                    lemma_unpacked_step_1_of_8::<A, B, C, D, E, F, G, H>(src@, lens, v0, Ok::<B, PackingError>(v1), res);
                    lemma_unpacked_step_0_of_8::<A, B, C, D, E, F, G, H>(src@, lens, Ok::<A, PackingError>(v0), res);
                }
                return Err(e);
            },
        };
        proof {
            lemma_unpacked_all_of_8::<A, B, C, D, E, F, G, H>(src@, lens, v0, v1, v2, v3, v4, v5, v6, v7);
        }
        let ghost res = Ok::<(A, B, C, D, E, F, G, H), PackingError>((v0, v1, v2, v3, v4, v5, v6, v7));
        proof {
            lemma_unpacked_step_7_of_8::<A, B, C, D, E, F, G, H>(src@, lens, v0, v1, v2, v3, v4, v5, v6, Ok::<H, PackingError>(v7), res);
            lemma_unpacked_step_6_of_8::<A, B, C, D, E, F, G, H>(src@, lens, v0, v1, v2, v3, v4, v5, Ok::<G, PackingError>(v6), res);
            lemma_unpacked_step_5_of_8::<A, B, C, D, E, F, G, H>(src@, lens, v0, v1, v2, v3, v4, Ok::<F, PackingError>(v5), res);
            lemma_unpacked_step_4_of_8::<A, B, C, D, E, F, G, H>(src@, lens, v0, v1, v2, v3, Ok::<E, PackingError>(v4), res);
            lemma_unpacked_step_3_of_8::<A, B, C, D, E, F, G, H>(src@, lens, v0, v1, v2, Ok::<D, PackingError>(v3), res);
            lemma_unpacked_step_2_of_8::<A, B, C, D, E, F, G, H>(src@, lens, v0, v1, Ok::<C, PackingError>(v2), res);
            lemma_unpacked_step_1_of_8::<A, B, C, D, E, F, G, H>(src@, lens, v0, Ok::<B, PackingError>(v1), res);
            lemma_unpacked_step_0_of_8::<A, B, C, D, E, F, G, H>(src@, lens, Ok::<A, PackingError>(v0), res);
        }
        Ok((v0, v1, v2, v3, v4, v5, v6, v7))
    }

    fn packed_bytes_size(opt_self: Option<&Self>) -> (r: PackingResult<usize>) {
        let s0 = match A::packed_bytes_size(
            match opt_self {
                Some(s) => Some(&s.0),
                None => None,
            },
        ) {
            Ok(s) => s,
            Err(e) => {
                return Err(e);
            },
        };
        let s1 = match B::packed_bytes_size(
            match opt_self {
                Some(s) => Some(&s.1),
                None => None,
            },
        ) {
            Ok(s) => s,
            Err(e) => {
                return Err(e);
            },
        };
        let s2 = match C::packed_bytes_size(
            match opt_self {
                Some(s) => Some(&s.2),
                None => None,
            },
        ) {
            Ok(s) => s,
            Err(e) => {
                return Err(e);
            },
        };
        let s3 = match D::packed_bytes_size(
            match opt_self {
                Some(s) => Some(&s.3),
                None => None,
            },
        ) {
            Ok(s) => s,
            Err(e) => {
                return Err(e);
            },
        };
        let s4 = match E::packed_bytes_size(
            match opt_self {
                Some(s) => Some(&s.4),
                None => None,
            },
        ) {
            Ok(s) => s,
            Err(e) => {
                return Err(e);
            },
        };
        let s5 = match F::packed_bytes_size(
            match opt_self {
                Some(s) => Some(&s.5),
                None => None,
            },
        ) {
            Ok(s) => s,
            Err(e) => {
                return Err(e);
            },
        };
        let s6 = match G::packed_bytes_size(
            match opt_self {
                Some(s) => Some(&s.6),
                None => None,
            },
        ) {
            Ok(s) => s,
            Err(e) => {
                return Err(e);
            },
        };
        let s7 = match H::packed_bytes_size(
            match opt_self {
                Some(s) => Some(&s.7),
                None => None,
            },
        ) {
            Ok(s) => s,
            Err(e) => {
                return Err(e);
            },
        };
        let mut total: usize = 0;
        total = match total.checked_add(s0) {
            Some(t) => t,
            None => {
                return Err(PackingError::InternalError);
            },
        };
        total = match total.checked_add(s1) {
            Some(t) => t,
            None => {
                return Err(PackingError::InternalError);
            },
        };
        total = match total.checked_add(s2) {
            Some(t) => t,
            None => {
                return Err(PackingError::InternalError);
            },
        };
        total = match total.checked_add(s3) {
            Some(t) => t,
            None => {
                return Err(PackingError::InternalError);
            },
        };
        total = match total.checked_add(s4) {
            Some(t) => t,
            None => {
                return Err(PackingError::InternalError);
            },
        };
        total = match total.checked_add(s5) {
            Some(t) => t,
            None => {
                return Err(PackingError::InternalError);
            },
        };
        total = match total.checked_add(s6) {
            Some(t) => t,
            None => {
                return Err(PackingError::InternalError);
            },
        };
        total = match total.checked_add(s7) {
            Some(t) => t,
            None => {
                return Err(PackingError::InternalError);
            },
        };
        Ok(total)
    }
}

/// The first member of a tuple of 9, if a tuple is given.
pub open spec fn spec_member_0_of_9<A, B, C, D, E, F, G, H, I>(opt: Option<&(A, B, C, D, E, F, G, H, I)>) -> Option<&A> {
    match opt {
        Some(s) => Some(&s.0),
        None => None,
    }
}

/// The second member of a tuple of 9, if a tuple is given.
pub open spec fn spec_member_1_of_9<A, B, C, D, E, F, G, H, I>(opt: Option<&(A, B, C, D, E, F, G, H, I)>) -> Option<&B> {
    match opt {
        Some(s) => Some(&s.1),
        None => None,
    }
}

/// The third member of a tuple of 9, if a tuple is given.
pub open spec fn spec_member_2_of_9<A, B, C, D, E, F, G, H, I>(opt: Option<&(A, B, C, D, E, F, G, H, I)>) -> Option<&C> {
    match opt {
        Some(s) => Some(&s.2),
        None => None,
    }
}

/// The fourth member of a tuple of 9, if a tuple is given.
pub open spec fn spec_member_3_of_9<A, B, C, D, E, F, G, H, I>(opt: Option<&(A, B, C, D, E, F, G, H, I)>) -> Option<&D> {
    match opt {
        Some(s) => Some(&s.3),
        None => None,
    }
}

/// The fifth member of a tuple of 9, if a tuple is given.
pub open spec fn spec_member_4_of_9<A, B, C, D, E, F, G, H, I>(opt: Option<&(A, B, C, D, E, F, G, H, I)>) -> Option<&E> {
    match opt {
        Some(s) => Some(&s.4),
        None => None,
    }
}

/// The sixth member of a tuple of 9, if a tuple is given.
pub open spec fn spec_member_5_of_9<A, B, C, D, E, F, G, H, I>(opt: Option<&(A, B, C, D, E, F, G, H, I)>) -> Option<&F> {
    match opt {
        Some(s) => Some(&s.5),
        None => None,
    }
}

/// The seventh member of a tuple of 9, if a tuple is given.
pub open spec fn spec_member_6_of_9<A, B, C, D, E, F, G, H, I>(opt: Option<&(A, B, C, D, E, F, G, H, I)>) -> Option<&G> {
    match opt {
        Some(s) => Some(&s.6),
        None => None,
    }
}

/// The eighth member of a tuple of 9, if a tuple is given.
pub open spec fn spec_member_7_of_9<A, B, C, D, E, F, G, H, I>(opt: Option<&(A, B, C, D, E, F, G, H, I)>) -> Option<&H> {
    match opt {
        Some(s) => Some(&s.7),
        None => None,
    }
}

/// The ninth member of a tuple of 9, if a tuple is given.
pub open spec fn spec_member_8_of_9<A, B, C, D, E, F, G, H, I>(opt: Option<&(A, B, C, D, E, F, G, H, I)>) -> Option<&I> {
    match opt {
        Some(s) => Some(&s.8),
        None => None,
    }
}

/// `r` is the tuple of the members.
#[verifier::opaque]
pub open spec fn spec_unpacked_from_9_of_9<A: PackedStructSlice, B: PackedStructSlice, C: PackedStructSlice, D: PackedStructSlice, E: PackedStructSlice, F: PackedStructSlice, G: PackedStructSlice, H: PackedStructSlice, I: PackedStructSlice>(
    src: Seq<u8>,
    lens: Seq<usize>,
    v0: A,
    v1: B,
    v2: C,
    v3: D,
    v4: E,
    v5: F,
    v6: G,
    v7: H,
    v8: I,
    r: PackingResult<(A, B, C, D, E, F, G, H, I)>,
) -> bool {
    r == Ok::<(A, B, C, D, E, F, G, H, I), PackingError>((v0, v1, v2, v3, v4, v5, v6, v7, v8))
}

/// `r` is what unpacking a tuple of 9 gives once the members before
/// the ninth are unpacked: the error of the first member that cannot
/// be unpacked from its bytes, or the tuple of the members.
#[verifier::opaque]
pub open spec fn spec_unpacked_from_8_of_9<A: PackedStructSlice, B: PackedStructSlice, C: PackedStructSlice, D: PackedStructSlice, E: PackedStructSlice, F: PackedStructSlice, G: PackedStructSlice, H: PackedStructSlice, I: PackedStructSlice>(
    src: Seq<u8>,
    lens: Seq<usize>,
    v0: A,
    v1: B,
    v2: C,
    v3: D,
    v4: E,
    v5: F,
    v6: G,
    v7: H,
    r: PackingResult<(A, B, C, D, E, F, G, H, I)>,
) -> bool {
    exists|r8: PackingResult<I>|
        #[trigger] I::spec_unpacked_from_slice(
            src.subrange(spec_ranges(lens)[8].start as int, spec_ranges(lens)[8].end as int),
            r8,
        ) && (match r8 {
            Err(e) => r == Err::<(A, B, C, D, E, F, G, H, I), PackingError>(e),
            Ok(v8) => spec_unpacked_from_9_of_9(src, lens, v0, v1, v2, v3, v4, v5, v6, v7, v8, r),
        })
}

/// `r` is what unpacking a tuple of 9 gives once the members before
/// the eighth are unpacked: the error of the first member that cannot
/// be unpacked from its bytes, or the tuple of the members.
#[verifier::opaque]
pub open spec fn spec_unpacked_from_7_of_9<A: PackedStructSlice, B: PackedStructSlice, C: PackedStructSlice, D: PackedStructSlice, E: PackedStructSlice, F: PackedStructSlice, G: PackedStructSlice, H: PackedStructSlice, I: PackedStructSlice>(
    src: Seq<u8>,
    lens: Seq<usize>,
    v0: A,
    v1: B,
    v2: C,
    v3: D,
    v4: E,
    v5: F,
    v6: G,
    r: PackingResult<(A, B, C, D, E, F, G, H, I)>,
) -> bool {
    exists|r7: PackingResult<H>|
        #[trigger] H::spec_unpacked_from_slice(
            src.subrange(spec_ranges(lens)[7].start as int, spec_ranges(lens)[7].end as int),
            r7,
        ) && (match r7 {
            Err(e) => r == Err::<(A, B, C, D, E, F, G, H, I), PackingError>(e),
            Ok(v7) => spec_unpacked_from_8_of_9(src, lens, v0, v1, v2, v3, v4, v5, v6, v7, r),
        })
}

/// `r` is what unpacking a tuple of 9 gives once the members before
/// the seventh are unpacked: the error of the first member that cannot
/// be unpacked from its bytes, or the tuple of the members.
#[verifier::opaque]
pub open spec fn spec_unpacked_from_6_of_9<A: PackedStructSlice, B: PackedStructSlice, C: PackedStructSlice, D: PackedStructSlice, E: PackedStructSlice, F: PackedStructSlice, G: PackedStructSlice, H: PackedStructSlice, I: PackedStructSlice>(
    src: Seq<u8>,
    lens: Seq<usize>,
    v0: A,
    v1: B,
    v2: C,
    v3: D,
    v4: E,
    v5: F,
    r: PackingResult<(A, B, C, D, E, F, G, H, I)>,
) -> bool {
    exists|r6: PackingResult<G>|
        #[trigger] G::spec_unpacked_from_slice(
            src.subrange(spec_ranges(lens)[6].start as int, spec_ranges(lens)[6].end as int),
            r6,
        ) && (match r6 {
            Err(e) => r == Err::<(A, B, C, D, E, F, G, H, I), PackingError>(e),
            Ok(v6) => spec_unpacked_from_7_of_9(src, lens, v0, v1, v2, v3, v4, v5, v6, r),
        })
}

/// `r` is what unpacking a tuple of 9 gives once the members before
/// the sixth are unpacked: the error of the first member that cannot
/// be unpacked from its bytes, or the tuple of the members.
#[verifier::opaque]
pub open spec fn spec_unpacked_from_5_of_9<A: PackedStructSlice, B: PackedStructSlice, C: PackedStructSlice, D: PackedStructSlice, E: PackedStructSlice, F: PackedStructSlice, G: PackedStructSlice, H: PackedStructSlice, I: PackedStructSlice>(
    src: Seq<u8>,
    lens: Seq<usize>,
    v0: A,
    v1: B,
    v2: C,
    v3: D,
    v4: E,
    r: PackingResult<(A, B, C, D, E, F, G, H, I)>,
) -> bool {
    exists|r5: PackingResult<F>|
        #[trigger] F::spec_unpacked_from_slice(
            src.subrange(spec_ranges(lens)[5].start as int, spec_ranges(lens)[5].end as int),
            r5,
        ) && (match r5 {
            Err(e) => r == Err::<(A, B, C, D, E, F, G, H, I), PackingError>(e),
            Ok(v5) => spec_unpacked_from_6_of_9(src, lens, v0, v1, v2, v3, v4, v5, r),
        })
}

/// `r` is what unpacking a tuple of 9 gives once the members before
/// the fifth are unpacked: the error of the first member that cannot
/// be unpacked from its bytes, or the tuple of the members.
#[verifier::opaque]
pub open spec fn spec_unpacked_from_4_of_9<A: PackedStructSlice, B: PackedStructSlice, C: PackedStructSlice, D: PackedStructSlice, E: PackedStructSlice, F: PackedStructSlice, G: PackedStructSlice, H: PackedStructSlice, I: PackedStructSlice>(
    src: Seq<u8>,
    lens: Seq<usize>,
    v0: A,
    v1: B,
    v2: C,
    v3: D,
    r: PackingResult<(A, B, C, D, E, F, G, H, I)>,
) -> bool {
    exists|r4: PackingResult<E>|
        #[trigger] E::spec_unpacked_from_slice(
            src.subrange(spec_ranges(lens)[4].start as int, spec_ranges(lens)[4].end as int),
            r4,
        ) && (match r4 {
            Err(e) => r == Err::<(A, B, C, D, E, F, G, H, I), PackingError>(e),
            Ok(v4) => spec_unpacked_from_5_of_9(src, lens, v0, v1, v2, v3, v4, r),
        })
}

/// `r` is what unpacking a tuple of 9 gives once the members before
/// the fourth are unpacked: the error of the first member that cannot
/// be unpacked from its bytes, or the tuple of the members.
#[verifier::opaque]
pub open spec fn spec_unpacked_from_3_of_9<A: PackedStructSlice, B: PackedStructSlice, C: PackedStructSlice, D: PackedStructSlice, E: PackedStructSlice, F: PackedStructSlice, G: PackedStructSlice, H: PackedStructSlice, I: PackedStructSlice>(
    src: Seq<u8>,
    lens: Seq<usize>,
    v0: A,
    v1: B,
    v2: C,
    r: PackingResult<(A, B, C, D, E, F, G, H, I)>,
) -> bool {
    exists|r3: PackingResult<D>|
        #[trigger] D::spec_unpacked_from_slice(
            src.subrange(spec_ranges(lens)[3].start as int, spec_ranges(lens)[3].end as int),
            r3,
        ) && (match r3 {
            Err(e) => r == Err::<(A, B, C, D, E, F, G, H, I), PackingError>(e),
            Ok(v3) => spec_unpacked_from_4_of_9(src, lens, v0, v1, v2, v3, r),
        })
}

/// `r` is what unpacking a tuple of 9 gives once the members before
/// the third are unpacked: the error of the first member that cannot
/// be unpacked from its bytes, or the tuple of the members.
#[verifier::opaque]
pub open spec fn spec_unpacked_from_2_of_9<A: PackedStructSlice, B: PackedStructSlice, C: PackedStructSlice, D: PackedStructSlice, E: PackedStructSlice, F: PackedStructSlice, G: PackedStructSlice, H: PackedStructSlice, I: PackedStructSlice>(
    src: Seq<u8>,
    lens: Seq<usize>,
    v0: A,
    v1: B,
    r: PackingResult<(A, B, C, D, E, F, G, H, I)>,
) -> bool {
    exists|r2: PackingResult<C>|
        #[trigger] C::spec_unpacked_from_slice(
            src.subrange(spec_ranges(lens)[2].start as int, spec_ranges(lens)[2].end as int),
            r2,
        ) && (match r2 {
            Err(e) => r == Err::<(A, B, C, D, E, F, G, H, I), PackingError>(e),
            Ok(v2) => spec_unpacked_from_3_of_9(src, lens, v0, v1, v2, r),
        })
}

/// `r` is what unpacking a tuple of 9 gives once the members before
/// the second are unpacked: the error of the first member that cannot
/// be unpacked from its bytes, or the tuple of the members.
#[verifier::opaque]
pub open spec fn spec_unpacked_from_1_of_9<A: PackedStructSlice, B: PackedStructSlice, C: PackedStructSlice, D: PackedStructSlice, E: PackedStructSlice, F: PackedStructSlice, G: PackedStructSlice, H: PackedStructSlice, I: PackedStructSlice>(
    src: Seq<u8>,
    lens: Seq<usize>,
    v0: A,
    r: PackingResult<(A, B, C, D, E, F, G, H, I)>,
) -> bool {
    exists|r1: PackingResult<B>|
        #[trigger] B::spec_unpacked_from_slice(
            src.subrange(spec_ranges(lens)[1].start as int, spec_ranges(lens)[1].end as int),
            r1,
        ) && (match r1 {
            Err(e) => r == Err::<(A, B, C, D, E, F, G, H, I), PackingError>(e),
            Ok(v1) => spec_unpacked_from_2_of_9(src, lens, v0, v1, r),
        })
}

/// `r` is what unpacking a tuple of 9 gives once the members before
/// the first are unpacked: the error of the first member that cannot
/// be unpacked from its bytes, or the tuple of the members.
#[verifier::opaque]
pub open spec fn spec_unpacked_from_0_of_9<A: PackedStructSlice, B: PackedStructSlice, C: PackedStructSlice, D: PackedStructSlice, E: PackedStructSlice, F: PackedStructSlice, G: PackedStructSlice, H: PackedStructSlice, I: PackedStructSlice>(
    src: Seq<u8>,
    lens: Seq<usize>,
    r: PackingResult<(A, B, C, D, E, F, G, H, I)>,
) -> bool {
    exists|r0: PackingResult<A>|
        #[trigger] A::spec_unpacked_from_slice(
            src.subrange(spec_ranges(lens)[0].start as int, spec_ranges(lens)[0].end as int),
            r0,
        ) && (match r0 {
            Err(e) => r == Err::<(A, B, C, D, E, F, G, H, I), PackingError>(e),
            Ok(v0) => spec_unpacked_from_1_of_9(src, lens, v0, r),
        })
}

/// One step of unpacking a tuple of 9: what holds once the first
/// member is unpacked holds before it.
pub proof fn lemma_unpacked_step_0_of_9<A: PackedStructSlice, B: PackedStructSlice, C: PackedStructSlice, D: PackedStructSlice, E: PackedStructSlice, F: PackedStructSlice, G: PackedStructSlice, H: PackedStructSlice, I: PackedStructSlice>(
    src: Seq<u8>,
    lens: Seq<usize>,
    r0: PackingResult<A>,
    r: PackingResult<(A, B, C, D, E, F, G, H, I)>,
)
    requires
        A::spec_unpacked_from_slice(
            src.subrange(spec_ranges(lens)[0].start as int, spec_ranges(lens)[0].end as int),
            r0,
        ),
        match r0 {
            Err(e) => r == Err::<(A, B, C, D, E, F, G, H, I), PackingError>(e),
            Ok(v0) => spec_unpacked_from_1_of_9(src, lens, v0, r),
        },
    ensures
        spec_unpacked_from_0_of_9(src, lens, r),
{
    reveal(spec_unpacked_from_0_of_9);
}

/// One step of unpacking a tuple of 9: what holds once the second
/// member is unpacked holds before it.
pub proof fn lemma_unpacked_step_1_of_9<A: PackedStructSlice, B: PackedStructSlice, C: PackedStructSlice, D: PackedStructSlice, E: PackedStructSlice, F: PackedStructSlice, G: PackedStructSlice, H: PackedStructSlice, I: PackedStructSlice>(
    src: Seq<u8>,
    lens: Seq<usize>,
    v0: A,
    r1: PackingResult<B>,
    r: PackingResult<(A, B, C, D, E, F, G, H, I)>,
)
    requires
        B::spec_unpacked_from_slice(
            src.subrange(spec_ranges(lens)[1].start as int, spec_ranges(lens)[1].end as int),
            r1,
        ),
        match r1 {
            Err(e) => r == Err::<(A, B, C, D, E, F, G, H, I), PackingError>(e),
            Ok(v1) => spec_unpacked_from_2_of_9(src, lens, v0, v1, r),
        },
    ensures
        spec_unpacked_from_1_of_9(src, lens, v0, r),
{
    reveal(spec_unpacked_from_1_of_9);
}

/// One step of unpacking a tuple of 9: what holds once the third
/// member is unpacked holds before it.
pub proof fn lemma_unpacked_step_2_of_9<A: PackedStructSlice, B: PackedStructSlice, C: PackedStructSlice, D: PackedStructSlice, E: PackedStructSlice, F: PackedStructSlice, G: PackedStructSlice, H: PackedStructSlice, I: PackedStructSlice>(
    src: Seq<u8>,
    lens: Seq<usize>,
    v0: A,
    v1: B,
    r2: PackingResult<C>,
    r: PackingResult<(A, B, C, D, E, F, G, H, I)>,
)
    requires
        C::spec_unpacked_from_slice(
            src.subrange(spec_ranges(lens)[2].start as int, spec_ranges(lens)[2].end as int),
            r2,
        ),
        match r2 {
            Err(e) => r == Err::<(A, B, C, D, E, F, G, H, I), PackingError>(e),
            Ok(v2) => spec_unpacked_from_3_of_9(src, lens, v0, v1, v2, r),
        },
    ensures
        spec_unpacked_from_2_of_9(src, lens, v0, v1, r),
{
    reveal(spec_unpacked_from_2_of_9);
}

/// One step of unpacking a tuple of 9: what holds once the fourth
/// member is unpacked holds before it.
pub proof fn lemma_unpacked_step_3_of_9<A: PackedStructSlice, B: PackedStructSlice, C: PackedStructSlice, D: PackedStructSlice, E: PackedStructSlice, F: PackedStructSlice, G: PackedStructSlice, H: PackedStructSlice, I: PackedStructSlice>(
    src: Seq<u8>,
    lens: Seq<usize>,
    v0: A,
    v1: B,
    v2: C,
    r3: PackingResult<D>,
    r: PackingResult<(A, B, C, D, E, F, G, H, I)>,
)
    requires
        D::spec_unpacked_from_slice(
            src.subrange(spec_ranges(lens)[3].start as int, spec_ranges(lens)[3].end as int),
            r3,
        ),
        match r3 {
            Err(e) => r == Err::<(A, B, C, D, E, F, G, H, I), PackingError>(e),
            Ok(v3) => spec_unpacked_from_4_of_9(src, lens, v0, v1, v2, v3, r),
        },
    ensures
        spec_unpacked_from_3_of_9(src, lens, v0, v1, v2, r),
{
    reveal(spec_unpacked_from_3_of_9);
}

/// One step of unpacking a tuple of 9: what holds once the fifth
/// member is unpacked holds before it.
pub proof fn lemma_unpacked_step_4_of_9<A: PackedStructSlice, B: PackedStructSlice, C: PackedStructSlice, D: PackedStructSlice, E: PackedStructSlice, F: PackedStructSlice, G: PackedStructSlice, H: PackedStructSlice, I: PackedStructSlice>(
    src: Seq<u8>,
    lens: Seq<usize>,
    v0: A,
    v1: B,
    v2: C,
    v3: D,
    r4: PackingResult<E>,
    r: PackingResult<(A, B, C, D, E, F, G, H, I)>,
)
    requires
        E::spec_unpacked_from_slice(
            src.subrange(spec_ranges(lens)[4].start as int, spec_ranges(lens)[4].end as int),
            r4,
        ),
        match r4 {
            Err(e) => r == Err::<(A, B, C, D, E, F, G, H, I), PackingError>(e),
            Ok(v4) => spec_unpacked_from_5_of_9(src, lens, v0, v1, v2, v3, v4, r),
        },
    ensures
        spec_unpacked_from_4_of_9(src, lens, v0, v1, v2, v3, r),
{
    reveal(spec_unpacked_from_4_of_9);
}

/// One step of unpacking a tuple of 9: what holds once the sixth
/// member is unpacked holds before it.
pub proof fn lemma_unpacked_step_5_of_9<A: PackedStructSlice, B: PackedStructSlice, C: PackedStructSlice, D: PackedStructSlice, E: PackedStructSlice, F: PackedStructSlice, G: PackedStructSlice, H: PackedStructSlice, I: PackedStructSlice>(
    src: Seq<u8>,
    lens: Seq<usize>,
    v0: A,
    v1: B,
    v2: C,
    v3: D,
    v4: E,
    r5: PackingResult<F>,
    r: PackingResult<(A, B, C, D, E, F, G, H, I)>,
)
    requires
        F::spec_unpacked_from_slice(
            src.subrange(spec_ranges(lens)[5].start as int, spec_ranges(lens)[5].end as int),
            r5,
        ),
        match r5 {
            Err(e) => r == Err::<(A, B, C, D, E, F, G, H, I), PackingError>(e),
            Ok(v5) => spec_unpacked_from_6_of_9(src, lens, v0, v1, v2, v3, v4, v5, r),
        },
    ensures
        spec_unpacked_from_5_of_9(src, lens, v0, v1, v2, v3, v4, r),
{
    reveal(spec_unpacked_from_5_of_9);
}

/// One step of unpacking a tuple of 9: what holds once the seventh
/// member is unpacked holds before it.
pub proof fn lemma_unpacked_step_6_of_9<A: PackedStructSlice, B: PackedStructSlice, C: PackedStructSlice, D: PackedStructSlice, E: PackedStructSlice, F: PackedStructSlice, G: PackedStructSlice, H: PackedStructSlice, I: PackedStructSlice>(
    src: Seq<u8>,
    lens: Seq<usize>,
    v0: A,
    v1: B,
    v2: C,
    v3: D,
    v4: E,
    v5: F,
    r6: PackingResult<G>,
    r: PackingResult<(A, B, C, D, E, F, G, H, I)>,
)
    requires
        G::spec_unpacked_from_slice(
            src.subrange(spec_ranges(lens)[6].start as int, spec_ranges(lens)[6].end as int),
            r6,
        ),
        match r6 {
            Err(e) => r == Err::<(A, B, C, D, E, F, G, H, I), PackingError>(e),
            Ok(v6) => spec_unpacked_from_7_of_9(src, lens, v0, v1, v2, v3, v4, v5, v6, r),
        },
    ensures
        spec_unpacked_from_6_of_9(src, lens, v0, v1, v2, v3, v4, v5, r),
{
    reveal(spec_unpacked_from_6_of_9);
}

/// One step of unpacking a tuple of 9: what holds once the eighth
/// member is unpacked holds before it.
pub proof fn lemma_unpacked_step_7_of_9<A: PackedStructSlice, B: PackedStructSlice, C: PackedStructSlice, D: PackedStructSlice, E: PackedStructSlice, F: PackedStructSlice, G: PackedStructSlice, H: PackedStructSlice, I: PackedStructSlice>(
    src: Seq<u8>,
    lens: Seq<usize>,
    v0: A,
    v1: B,
    v2: C,
    v3: D,
    v4: E,
    v5: F,
    v6: G,
    r7: PackingResult<H>,
    r: PackingResult<(A, B, C, D, E, F, G, H, I)>,
)
    requires
        H::spec_unpacked_from_slice(
            src.subrange(spec_ranges(lens)[7].start as int, spec_ranges(lens)[7].end as int),
            r7,
        ),
        match r7 {
            Err(e) => r == Err::<(A, B, C, D, E, F, G, H, I), PackingError>(e),
            Ok(v7) => spec_unpacked_from_8_of_9(src, lens, v0, v1, v2, v3, v4, v5, v6, v7, r),
        },
    ensures
        spec_unpacked_from_7_of_9(src, lens, v0, v1, v2, v3, v4, v5, v6, r),
{
    reveal(spec_unpacked_from_7_of_9);
}

/// One step of unpacking a tuple of 9: what holds once the ninth
/// member is unpacked holds before it.
pub proof fn lemma_unpacked_step_8_of_9<A: PackedStructSlice, B: PackedStructSlice, C: PackedStructSlice, D: PackedStructSlice, E: PackedStructSlice, F: PackedStructSlice, G: PackedStructSlice, H: PackedStructSlice, I: PackedStructSlice>(
    src: Seq<u8>,
    lens: Seq<usize>,
    v0: A,
    v1: B,
    v2: C,
    v3: D,
    v4: E,
    v5: F,
    v6: G,
    v7: H,
    r8: PackingResult<I>,
    r: PackingResult<(A, B, C, D, E, F, G, H, I)>,
)
    requires
        I::spec_unpacked_from_slice(
            src.subrange(spec_ranges(lens)[8].start as int, spec_ranges(lens)[8].end as int),
            r8,
        ),
        match r8 {
            Err(e) => r == Err::<(A, B, C, D, E, F, G, H, I), PackingError>(e),
            Ok(v8) => spec_unpacked_from_9_of_9(src, lens, v0, v1, v2, v3, v4, v5, v6, v7, v8, r),
        },
    ensures
        spec_unpacked_from_8_of_9(src, lens, v0, v1, v2, v3, v4, v5, v6, v7, r),
{
    reveal(spec_unpacked_from_8_of_9);
}

/// The tuple of the members is what unpacking gives once all 9 are
/// unpacked.
pub proof fn lemma_unpacked_all_of_9<A: PackedStructSlice, B: PackedStructSlice, C: PackedStructSlice, D: PackedStructSlice, E: PackedStructSlice, F: PackedStructSlice, G: PackedStructSlice, H: PackedStructSlice, I: PackedStructSlice>(
    src: Seq<u8>,
    lens: Seq<usize>,
    v0: A,
    v1: B,
    v2: C,
    v3: D,
    v4: E,
    v5: F,
    v6: G,
    v7: H,
    v8: I,
)
    ensures
        spec_unpacked_from_9_of_9(src, lens, v0, v1, v2, v3, v4, v5, v6, v7, v8, Ok::<(A, B, C, D, E, F, G, H, I), PackingError>((v0, v1, v2, v3, v4, v5, v6, v7, v8))),
{
    reveal(spec_unpacked_from_9_of_9);
}

impl<A: PackedStructSlice, B: PackedStructSlice, C: PackedStructSlice, D: PackedStructSlice, E: PackedStructSlice, F: PackedStructSlice, G: PackedStructSlice, H: PackedStructSlice, I: PackedStructSlice> PackedStructSlice for (A, B, C, D, E, F, G, H, I) {
    open spec fn spec_packed_bytes_size(opt_self: Option<&Self>) -> PackingResult<usize> {
        match A::spec_packed_bytes_size(spec_member_0_of_9(opt_self)) {
            Err(e) => Err(e),
            Ok(s0) => match B::spec_packed_bytes_size(spec_member_1_of_9(opt_self)) {
                Err(e) => Err(e),
                Ok(s1) => match C::spec_packed_bytes_size(spec_member_2_of_9(opt_self)) {
                    Err(e) => Err(e),
                    Ok(s2) => match D::spec_packed_bytes_size(spec_member_3_of_9(opt_self)) {
                        Err(e) => Err(e),
                        Ok(s3) => match E::spec_packed_bytes_size(spec_member_4_of_9(opt_self)) {
                            Err(e) => Err(e),
                            Ok(s4) => match F::spec_packed_bytes_size(spec_member_5_of_9(opt_self)) {
                                Err(e) => Err(e),
                                Ok(s5) => match G::spec_packed_bytes_size(spec_member_6_of_9(opt_self)) {
                                    Err(e) => Err(e),
                                    Ok(s6) => match H::spec_packed_bytes_size(spec_member_7_of_9(opt_self)) {
                                        Err(e) => Err(e),
                                        Ok(s7) => match I::spec_packed_bytes_size(spec_member_8_of_9(opt_self)) {
                                            Err(e) => Err(e),
                                            Ok(s8) => if s0 + s1 + s2 + s3 + s4 + s5 + s6 + s7 + s8 > usize::MAX {
                                                Err(PackingError::InternalError)
                                            } else {
                                                Ok((s0 + s1 + s2 + s3 + s4 + s5 + s6 + s7 + s8) as usize)
                                            },
                                        },
                                    },
                                },
                            },
                        },
                    },
                },
            },
        }
    }

    open spec fn spec_packed(&self) -> PackingResult<Seq<u8>> {
        match spec_item_packed(self.0, spec_own_size(self.0)) {
            Err(e) => Err(e),
            Ok(b0) => match spec_item_packed(self.1, spec_own_size(self.1)) {
                Err(e) => Err(e),
                Ok(b1) => match spec_item_packed(self.2, spec_own_size(self.2)) {
                    Err(e) => Err(e),
                    Ok(b2) => match spec_item_packed(self.3, spec_own_size(self.3)) {
                        Err(e) => Err(e),
                        Ok(b3) => match spec_item_packed(self.4, spec_own_size(self.4)) {
                            Err(e) => Err(e),
                            Ok(b4) => match spec_item_packed(self.5, spec_own_size(self.5)) {
                                Err(e) => Err(e),
                                Ok(b5) => match spec_item_packed(self.6, spec_own_size(self.6)) {
                                    Err(e) => Err(e),
                                    Ok(b6) => match spec_item_packed(self.7, spec_own_size(self.7)) {
                                        Err(e) => Err(e),
                                        Ok(b7) => match spec_item_packed(self.8, spec_own_size(self.8)) {
                                            Err(e) => Err(e),
                                            Ok(b8) => Ok(b0 + b1 + b2 + b3 + b4 + b5 + b6 + b7 + b8),
                                        },
                                    },
                                },
                            },
                        },
                    },
                },
            },
        }
    }

    open spec fn spec_unpacked_from_slice(src: Seq<u8>, r: PackingResult<Self>) -> bool {
        match spec_member_lengths(seq![spec_length_of(A::spec_packed_bytes_size(None)), spec_length_of(B::spec_packed_bytes_size(None)), spec_length_of(C::spec_packed_bytes_size(None)), spec_length_of(D::spec_packed_bytes_size(None)), spec_length_of(E::spec_packed_bytes_size(None)), spec_length_of(F::spec_packed_bytes_size(None)), spec_length_of(G::spec_packed_bytes_size(None)), spec_length_of(H::spec_packed_bytes_size(None)), spec_length_of(I::spec_packed_bytes_size(None))], 9) {
            Err(e) => r == Err::<Self, PackingError>(e),
            Ok(lengths) => match spec_resolved_lengths(lengths, src.len() as usize) {
                Err(e) => r == Err::<Self, PackingError>(e),
                Ok(lens) => spec_unpacked_from_0_of_9(src, lens, r),
            },
        }
    }

    #[verifier::rlimit(60)]
    fn pack_to_slice(&self, output: &mut [u8]) -> (r: PackingResult<()>) {
        let s0 = match A::packed_bytes_size(Some(&self.0)) {
            Ok(s) => s,
            Err(e) => {
                return Err(e);
            },
        };
        let s1 = match B::packed_bytes_size(Some(&self.1)) {
            Ok(s) => s,
            Err(e) => {
                return Err(e);
            },
        };
        let s2 = match C::packed_bytes_size(Some(&self.2)) {
            Ok(s) => s,
            Err(e) => {
                return Err(e);
            },
        };
        let s3 = match D::packed_bytes_size(Some(&self.3)) {
            Ok(s) => s,
            Err(e) => {
                return Err(e);
            },
        };
        let s4 = match E::packed_bytes_size(Some(&self.4)) {
            Ok(s) => s,
            Err(e) => {
                return Err(e);
            },
        };
        let s5 = match F::packed_bytes_size(Some(&self.5)) {
            Ok(s) => s,
            Err(e) => {
                return Err(e);
            },
        };
        let s6 = match G::packed_bytes_size(Some(&self.6)) {
            Ok(s) => s,
            Err(e) => {
                return Err(e);
            },
        };
        let s7 = match H::packed_bytes_size(Some(&self.7)) {
            Ok(s) => s,
            Err(e) => {
                return Err(e);
            },
        };
        let s8 = match I::packed_bytes_size(Some(&self.8)) {
            Ok(s) => s,
            Err(e) => {
                return Err(e);
            },
        };
        let mut total: usize = 0;
        total = match total.checked_add(s0) {
            Some(t) => t,
            None => {
                return Err(PackingError::InternalError);
            },
        };
        total = match total.checked_add(s1) {
            Some(t) => t,
            None => {
                return Err(PackingError::InternalError);
            },
        };
        total = match total.checked_add(s2) {
            Some(t) => t,
            None => {
                return Err(PackingError::InternalError);
            },
        };
        total = match total.checked_add(s3) {
            Some(t) => t,
            None => {
                return Err(PackingError::InternalError);
            },
        };
        total = match total.checked_add(s4) {
            Some(t) => t,
            None => {
                return Err(PackingError::InternalError);
            },
        };
        total = match total.checked_add(s5) {
            Some(t) => t,
            None => {
                return Err(PackingError::InternalError);
            },
        };
        total = match total.checked_add(s6) {
            Some(t) => t,
            None => {
                return Err(PackingError::InternalError);
            },
        };
        total = match total.checked_add(s7) {
            Some(t) => t,
            None => {
                return Err(PackingError::InternalError);
            },
        };
        total = match total.checked_add(s8) {
            Some(t) => t,
            None => {
                return Err(PackingError::InternalError);
            },
        };
        if total != output.len() {
            return Err(PackingError::BufferSizeMismatch { expected: total, actual: output.len() });
        }
        let mut packed: Vec<u8> = Vec::new();
        match append_member(&self.0, s0, &mut packed) {
            Ok(()) => {},
            Err(e) => {
                return Err(e);
            },
        }
        let ghost b0 = spec_item_packed(self.0, s0)->Ok_0;
        assert(packed@ == b0);
        match append_member(&self.1, s1, &mut packed) {
            Ok(()) => {},
            Err(e) => {
                return Err(e);
            },
        }
        let ghost b1 = spec_item_packed(self.1, s1)->Ok_0;
        assert(packed@ == b0 + b1);
        match append_member(&self.2, s2, &mut packed) {
            Ok(()) => {},
            Err(e) => {
                return Err(e);
            },
        }
        let ghost b2 = spec_item_packed(self.2, s2)->Ok_0;
        assert(packed@ == b0 + b1 + b2);
        match append_member(&self.3, s3, &mut packed) {
            Ok(()) => {},
            Err(e) => {
                return Err(e);
            },
        }
        let ghost b3 = spec_item_packed(self.3, s3)->Ok_0;
        assert(packed@ == b0 + b1 + b2 + b3);
        match append_member(&self.4, s4, &mut packed) {
            Ok(()) => {},
            Err(e) => {
                return Err(e);
            },
        }
        let ghost b4 = spec_item_packed(self.4, s4)->Ok_0;
        assert(packed@ == b0 + b1 + b2 + b3 + b4);
        match append_member(&self.5, s5, &mut packed) {
            Ok(()) => {},
            Err(e) => {
                return Err(e);
            },
        }
        let ghost b5 = spec_item_packed(self.5, s5)->Ok_0;
        assert(packed@ == b0 + b1 + b2 + b3 + b4 + b5);
        match append_member(&self.6, s6, &mut packed) {
            Ok(()) => {},
            Err(e) => {
                return Err(e);
            },
        }
        let ghost b6 = spec_item_packed(self.6, s6)->Ok_0;
        assert(packed@ == b0 + b1 + b2 + b3 + b4 + b5 + b6);
        match append_member(&self.7, s7, &mut packed) {
            Ok(()) => {},
            Err(e) => {
                return Err(e);
            },
        }
        let ghost b7 = spec_item_packed(self.7, s7)->Ok_0;
        assert(packed@ == b0 + b1 + b2 + b3 + b4 + b5 + b6 + b7);
        match append_member(&self.8, s8, &mut packed) {
            Ok(()) => {},
            Err(e) => {
                return Err(e);
            },
        }
        let ghost b8 = spec_item_packed(self.8, s8)->Ok_0;
        assert(packed@ == b0 + b1 + b2 + b3 + b4 + b5 + b6 + b7 + b8);
        copy_into(output, 0, packed.as_slice());
        assert(output@ =~= packed@);
        Ok(())
    }

    #[verifier::rlimit(60)]
    fn unpack_from_slice(src: &[u8]) -> (r: PackingResult<Self>) {
        let mut builder = StructLengthBuilder::new();
        let ghost sizes = seq![spec_length_of(A::spec_packed_bytes_size(None)), spec_length_of(B::spec_packed_bytes_size(None)), spec_length_of(C::spec_packed_bytes_size(None)), spec_length_of(D::spec_packed_bytes_size(None)), spec_length_of(E::spec_packed_bytes_size(None)), spec_length_of(F::spec_packed_bytes_size(None)), spec_length_of(G::spec_packed_bytes_size(None)), spec_length_of(H::spec_packed_bytes_size(None)), spec_length_of(I::spec_packed_bytes_size(None))];
        proof {
            lemma_member_lengths(sizes, 9);
        }
        match builder.add::<A>(None) {
            Ok(_) => {},
            Err(e) => {
                return Err(e);
            },
        }
        match builder.add::<B>(None) {
            Ok(_) => {},
            Err(e) => {
                return Err(e);
            },
        }
        match builder.add::<C>(None) {
            Ok(_) => {},
            Err(e) => {
                return Err(e);
            },
        }
        match builder.add::<D>(None) {
            Ok(_) => {},
            Err(e) => {
                return Err(e);
            },
        }
        match builder.add::<E>(None) {
            Ok(_) => {},
            Err(e) => {
                return Err(e);
            },
        }
        match builder.add::<F>(None) {
            Ok(_) => {},
            Err(e) => {
                return Err(e);
            },
        }
        match builder.add::<G>(None) {
            Ok(_) => {},
            Err(e) => {
                return Err(e);
            },
        }
        match builder.add::<H>(None) {
            Ok(_) => {},
            Err(e) => {
                return Err(e);
            },
        }
        match builder.add::<I>(None) {
            Ok(_) => {},
            Err(e) => {
                return Err(e);
            },
        }
        proof {
            assert(builder@ =~= spec_member_lengths(sizes, 9)->Ok_0);
        }
        let ghost lengths = builder@;
        let resolved = match builder.build(src.len()) {
            Ok(l) => l,
            Err(e) => {
                return Err(e);
            },
        };
        let ranges = match resolved.get_ranges() {
            Ok(r) => r,
            Err(e) => {
                return Err(e);
            },
        };
        let ghost lens = spec_resolved_lengths(lengths, src@.len() as usize)->Ok_0;
        proof {
            lemma_resolved_lengths_sum(lengths, src@.len() as usize);
            lemma_ranges_within(lens);
        }
        let v0 = match A::unpack_from_slice(
            match lib_get_slice(src, ranges[0].start, ranges[0].end) {
                Ok(s) => s,
                Err(e) => {
                    return Err(e);
                },
            },
        ) {
            Ok(v) => v,
            Err(e) => {
                let ghost res = Err::<(A, B, C, D, E, F, G, H, I), PackingError>(e);
                proof {
                    lemma_unpacked_step_0_of_9::<A, B, C, D, E, F, G, H, I>(src@, lens, Err::<A, PackingError>(e), res);
                }
                return Err(e);
            },
        };
        let v1 = match B::unpack_from_slice(
            match lib_get_slice(src, ranges[1].start, ranges[1].end) {
                Ok(s) => s,
                Err(e) => {
                    return Err(e);
                },
            },
        ) {
            Ok(v) => v,
            Err(e) => {
                let ghost res = Err::<(A, B, C, D, E, F, G, H, I), PackingError>(e);
                proof {
                    lemma_unpacked_step_1_of_9::<A, B, C, D, E, F, G, H, I>(src@, lens, v0, Err::<B, PackingError>(e), res);
                    lemma_unpacked_step_0_of_9::<A, B, C, D, E, F, G, H, I>(src@, lens, Ok::<A, PackingError>(v0), res);
                }
                return Err(e);
            },
        };
        let v2 = match C::unpack_from_slice(
            match lib_get_slice(src, ranges[2].start, ranges[2].end) {
                Ok(s) => s,
                Err(e) => {
                    return Err(e);
                },
            },
        ) {
            Ok(v) => v,
            Err(e) => {
                let ghost res = Err::<(A, B, C, D, E, F, G, H, I), PackingError>(e);
                proof {
                    lemma_unpacked_step_2_of_9::<A, B, C, D, E, F, G, H, I>(src@, lens, v0, v1, Err::<C, PackingError>(e), res);
                    lemma_unpacked_step_1_of_9::<A, B, C, D, E, F, G, H, I>(src@, lens, v0, Ok::<B, PackingError>(v1), res);
                    lemma_unpacked_step_0_of_9::<A, B, C, D, E, F, G, H, I>(src@, lens, Ok::<A, PackingError>(v0), res);
                }
                return Err(e);
            },
        };
        let v3 = match D::unpack_from_slice(
            match lib_get_slice(src, ranges[3].start, ranges[3].end) {
                Ok(s) => s,
                Err(e) => {
                    return Err(e);
                },
            },
        ) {
            Ok(v) => v,
            Err(e) => {
                let ghost res = Err::<(A, B, C, D, E, F, G, H, I), PackingError>(e);
                proof {
                    lemma_unpacked_step_3_of_9::<A, B, C, D, E, F, G, H, I>(src@, lens, v0, v1, v2, Err::<D, PackingError>(e), res);
                    lemma_unpacked_step_2_of_9::<A, B, C, D, E, F, G, H, I>(src@, lens, v0, v1, Ok::<C, PackingError>(v2), res);
                    lemma_unpacked_step_1_of_9::<A, B, C, D, E, F, G, H, I>(src@, lens, v0, Ok::<B, PackingError>(v1), res);
                    lemma_unpacked_step_0_of_9::<A, B, C, D, E, F, G, H, I>(src@, lens, Ok::<A, PackingError>(v0), res);
                }
                return Err(e);
            },
        };
        let v4 = match E::unpack_from_slice(
            match lib_get_slice(src, ranges[4].start, ranges[4].end) {
                Ok(s) => s,
                Err(e) => {
                    return Err(e);
                },
            },
        ) {
            Ok(v) => v,
            Err(e) => {
                let ghost res = Err::<(A, B, C, D, E, F, G, H, I), PackingError>(e);
                proof {
                    lemma_unpacked_step_4_of_9::<A, B, C, D, E, F, G, H, I>(src@, lens, v0, v1, v2, v3, Err::<E, PackingError>(e), res);
                    lemma_unpacked_step_3_of_9::<A, B, C, D, E, F, G, H, I>(src@, lens, v0, v1, v2, Ok::<D, PackingError>(v3), res);
                    lemma_unpacked_step_2_of_9::<A, B, C, D, E, F, G, H, I>(src@, lens, v0, v1, Ok::<C, PackingError>(v2), res);
                    lemma_unpacked_step_1_of_9::<A, B, C, D, E, F, G, H, I>(src@, lens, v0, Ok::<B, PackingError>(v1), res);
                    lemma_unpacked_step_0_of_9::<A, B, C, D, E, F, G, H, I>(src@, lens, Ok::<A, PackingError>(v0), res);
                }
                return Err(e);
            },
        };
        let v5 = match F::unpack_from_slice(
            match lib_get_slice(src, ranges[5].start, ranges[5].end) {
                Ok(s) => s,
                Err(e) => {
                    return Err(e);
                },
            },
        ) {
            Ok(v) => v,
            Err(e) => {
                let ghost res = Err::<(A, B, C, D, E, F, G, H, I), PackingError>(e);
                proof {
                    lemma_unpacked_step_5_of_9::<A, B, C, D, E, F, G, H, I>(src@, lens, v0, v1, v2, v3, v4, Err::<F, PackingError>(e), res);
                    lemma_unpacked_step_4_of_9::<A, B, C, D, E, F, G, H, I>(src@, lens, v0, v1, v2, v3, Ok::<E, PackingError>(v4), res);
                    lemma_unpacked_step_3_of_9::<A, B, C, D, E, F, G, H, I>(src@, lens, v0, v1, v2, Ok::<D, PackingError>(v3), res);
                    lemma_unpacked_step_2_of_9::<A, B, C, D, E, F, G, H, I>(src@, lens, v0, v1, Ok::<C, PackingError>(v2), res);
                    lemma_unpacked_step_1_of_9::<A, B, C, D, E, F, G, H, I>(src@, lens, v0, Ok::<B, PackingError>(v1), res);
                    lemma_unpacked_step_0_of_9::<A, B, C, D, E, F, G, H, I>(src@, lens, Ok::<A, PackingError>(v0), res);
                }
                return Err(e);
            },
        };
        let v6 = match G::unpack_from_slice(
            match lib_get_slice(src, ranges[6].start, ranges[6].end) {
                Ok(s) => s,
                Err(e) => {
                    return Err(e);
                },
            },
        ) {
            Ok(v) => v,
            Err(e) => {
                let ghost res = Err::<(A, B, C, D, E, F, G, H, I), PackingError>(e);
                proof {
                    lemma_unpacked_step_6_of_9::<A, B, C, D, E, F, G, H, I>(src@, lens, v0, v1, v2, v3, v4, v5, Err::<G, PackingError>(e), res);
                    lemma_unpacked_step_5_of_9::<A, B, C, D, E, F, G, H, I>(src@, lens, v0, v1, v2, v3, v4, Ok::<F, PackingError>(v5), res);
                    lemma_unpacked_step_4_of_9::<A, B, C, D, E, F, G, H, I>(src@, lens, v0, v1, v2, v3, Ok::<E, PackingError>(v4), res);
                    lemma_unpacked_step_3_of_9::<A, B, C, D, E, F, G, H, I>(src@, lens, v0, v1, v2, Ok::<D, PackingError>(v3), res);
                    lemma_unpacked_step_2_of_9::<A, B, C, D, E, F, G, H, I>(src@, lens, v0, v1, Ok::<C, PackingError>(v2), res);
                    lemma_unpacked_step_1_of_9::<A, B, C, D, E, F, G, H, I>(src@, lens, v0, Ok::<B, PackingError>(v1), res);
                    lemma_unpacked_step_0_of_9::<A, B, C, D, E, F, G, H, I>(src@, lens, Ok::<A, PackingError>(v0), res);
                }
                return Err(e);
            },
        };
        let v7 = match H::unpack_from_slice(
            match lib_get_slice(src, ranges[7].start, ranges[7].end) {
                Ok(s) => s,
                Err(e) => {
                    return Err(e);
                },
            },
        ) {
            Ok(v) => v,
            Err(e) => {
                let ghost res = Err::<(A, B, C, D, E, F, G, H, I), PackingError>(e);
                proof {
                    lemma_unpacked_step_7_of_9::<A, B, C, D, E, F, G, H, I>(src@, lens, v0, v1, v2, v3, v4, v5, v6, Err::<H, PackingError>(e), res);
                    lemma_unpacked_step_6_of_9::<A, B, C, D, E, F, G, H, I>(src@, lens, v0, v1, v2, v3, v4, v5, Ok::<G, PackingError>(v6), res);
                    lemma_unpacked_step_5_of_9::<A, B, C, D, E, F, G, H, I>(src@, lens, v0, v1, v2, v3, v4, Ok::<F, PackingError>(v5), res);
                    lemma_unpacked_step_4_of_9::<A, B, C, D, E, F, G, H, I>(src@, lens, v0, v1, v2, v3, Ok::<E, PackingError>(v4), res);
                    lemma_unpacked_step_3_of_9::<A, B, C, D, E, F, G, H, I>(src@, lens, v0, v1, v2, Ok::<D, PackingError>(v3), res);
                    lemma_unpacked_step_2_of_9::<A, B, C, D, E, F, G, H, I>(src@, lens, v0, v1, Ok::<C, PackingError>(v2), res);
                    lemma_unpacked_step_1_of_9::<A, B, C, D, E, F, G, H, I>(src@, lens, v0, Ok::<B, PackingError>(v1), res);
                    lemma_unpacked_step_0_of_9::<A, B, C, D, E, F, G, H, I>(src@, lens, Ok::<A, PackingError>(v0), res);
                }
                return Err(e);
            },
        };
        let v8 = match I::unpack_from_slice(
            match lib_get_slice(src, ranges[8].start, ranges[8].end) {
                Ok(s) => s,
                Err(e) => {
                    return Err(e);
                },
            },
        ) {
            Ok(v) => v,
            Err(e) => {
                let ghost res = Err::<(A, B, C, D, E, F, G, H, I), PackingError>(e);
                proof {
                    lemma_unpacked_step_8_of_9::<A, B, C, D, E, F, G, H, I>(src@, lens, v0, v1, v2, v3, v4, v5, v6, v7, Err::<I, PackingError>(e), res);
                    lemma_unpacked_step_7_of_9::<A, B, C, D, E, F, G, H, I>(src@, lens, v0, v1, v2, v3, v4, v5, v6, Ok::<H, PackingError>(v7), res);
                    lemma_unpacked_step_6_of_9::<A, B, C, D, E, F, G, H, I>(src@, lens, v0, v1, v2, v3, v4, v5, Ok::<G, PackingError>(v6), res);
                    lemma_unpacked_step_5_of_9::<A, B, C, D, E, F, G, H, I>(src@, lens, v0, v1, v2, v3, v4, Ok::<F, PackingError>(v5), res);
                    lemma_unpacked_step_4_of_9::<A, B, C, D, E, F, G, H, I>(src@, lens, v0, v1, v2, v3, Ok::<E, PackingError>(v4), res);
                    lemma_unpacked_step_3_of_9::<A, B, C, D, E, F, G, H, I>(src@, lens, v0, v1, v2, Ok::<D, PackingError>(v3), res);
                    lemma_unpacked_step_2_of_9::<A, B, C, D, E, F, G, H, I>(src@, lens, v0, v1, Ok::<C, PackingError>(v2), res);
                    lemma_unpacked_step_1_of_9::<A, B, C, D, E, F, G, H, I>(src@, lens, v0, Ok::<B, PackingError>(v1), res);
                    lemma_unpacked_step_0_of_9::<A, B, C, D, E, F, G, H, I>(src@, lens, Ok::<A, PackingError>(v0), res);
                }
                return Err(e);
            },
        };
        proof {
            lemma_unpacked_all_of_9::<A, B, C, D, E, F, G, H, I>(src@, lens, v0, v1, v2, v3, v4, v5, v6, v7, v8);
        }
        let ghost res = Ok::<(A, B, C, D, E, F, G, H, I), PackingError>((v0, v1, v2, v3, v4, v5, v6, v7, v8));
        proof {
            lemma_unpacked_step_8_of_9::<A, B, C, D, E, F, G, H, I>(src@, lens, v0, v1, v2, v3, v4, v5, v6, v7, Ok::<I, PackingError>(v8), res);
            lemma_unpacked_step_7_of_9::<A, B, C, D, E, F, G, H, I>(src@, lens, v0, v1, v2, v3, v4, v5, v6, Ok::<H, PackingError>(v7), res);
            lemma_unpacked_step_6_of_9::<A, B, C, D, E, F, G, H, I>(src@, lens, v0, v1, v2, v3, v4, v5, Ok::<G, PackingError>(v6), res);
            lemma_unpacked_step_5_of_9::<A, B, C, D, E, F, G, H, I>(src@, lens, v0, v1, v2, v3, v4, Ok::<F, PackingError>(v5), res);
            lemma_unpacked_step_4_of_9::<A, B, C, D, E, F, G, H, I>(src@, lens, v0, v1, v2, v3, Ok::<E, PackingError>(v4), res);
            lemma_unpacked_step_3_of_9::<A, B, C, D, E, F, G, H, I>(src@, lens, v0, v1, v2, Ok::<D, PackingError>(v3), res);
            lemma_unpacked_step_2_of_9::<A, B, C, D, E, F, G, H, I>(src@, lens, v0, v1, Ok::<C, PackingError>(v2), res);
            lemma_unpacked_step_1_of_9::<A, B, C, D, E, F, G, H, I>(src@, lens, v0, Ok::<B, PackingError>(v1), res);
            lemma_unpacked_step_0_of_9::<A, B, C, D, E, F, G, H, I>(src@, lens, Ok::<A, PackingError>(v0), res);
        }
        Ok((v0, v1, v2, v3, v4, v5, v6, v7, v8))
    }

    fn packed_bytes_size(opt_self: Option<&Self>) -> (r: PackingResult<usize>) {
        let s0 = match A::packed_bytes_size(
            match opt_self {
                Some(s) => Some(&s.0),
                None => None,
            },
        ) {
            Ok(s) => s,
            Err(e) => {
                return Err(e);
            },
        };
        let s1 = match B::packed_bytes_size(
            match opt_self {
                Some(s) => Some(&s.1),
                None => None,
            },
        ) {
            Ok(s) => s,
            Err(e) => {
                return Err(e);
            },
        };
        let s2 = match C::packed_bytes_size(
            match opt_self {
                Some(s) => Some(&s.2),
                None => None,
            },
        ) {
            Ok(s) => s,
            Err(e) => {
                return Err(e);
            },
        };
        let s3 = match D::packed_bytes_size(
            match opt_self {
                Some(s) => Some(&s.3),
                None => None,
            },
        ) {
            Ok(s) => s,
            Err(e) => {
                return Err(e);
            },
        };
        let s4 = match E::packed_bytes_size(
            match opt_self {
                Some(s) => Some(&s.4),
                None => None,
            },
        ) {
            Ok(s) => s,
            Err(e) => {
                return Err(e);
            },
        };
        let s5 = match F::packed_bytes_size(
            match opt_self {
                Some(s) => Some(&s.5),
                None => None,
            },
        ) {
            Ok(s) => s,
            Err(e) => {
                return Err(e);
            },
        };
        let s6 = match G::packed_bytes_size(
            match opt_self {
                Some(s) => Some(&s.6),
                None => None,
            },
        ) {
            Ok(s) => s,
            Err(e) => {
                return Err(e);
            },
        };
        let s7 = match H::packed_bytes_size(
            match opt_self {
                Some(s) => Some(&s.7),
                None => None,
            },
        ) {
            Ok(s) => s,
            Err(e) => {
                return Err(e);
            },
        };
        let s8 = match I::packed_bytes_size(
            match opt_self {
                Some(s) => Some(&s.8),
                None => None,
            },
        ) {
            Ok(s) => s,
            Err(e) => {
                return Err(e);
            },
        };
        let mut total: usize = 0;
        total = match total.checked_add(s0) {
            Some(t) => t,
            None => {
                return Err(PackingError::InternalError);
            },
        };
        total = match total.checked_add(s1) {
            Some(t) => t,
            None => {
                return Err(PackingError::InternalError);
            },
        };
        total = match total.checked_add(s2) {
            Some(t) => t,
            None => {
                return Err(PackingError::InternalError);
            },
        };
        total = match total.checked_add(s3) {
            Some(t) => t,
            None => {
                return Err(PackingError::InternalError);
            },
        };
        total = match total.checked_add(s4) {
            Some(t) => t,
            None => {
                return Err(PackingError::InternalError);
            },
        };
        total = match total.checked_add(s5) {
            Some(t) => t,
            None => {
                return Err(PackingError::InternalError);
            },
        };
        total = match total.checked_add(s6) {
            Some(t) => t,
            None => {
                return Err(PackingError::InternalError);
            },
        };
        total = match total.checked_add(s7) {
            Some(t) => t,
            None => {
                return Err(PackingError::InternalError);
            },
        };
        total = match total.checked_add(s8) {
            Some(t) => t,
            None => {
                return Err(PackingError::InternalError);
            },
        };
        Ok(total)
    }
}

/// The first member of a tuple of 10, if a tuple is given.
pub open spec fn spec_member_0_of_10<A, B, C, D, E, F, G, H, I, J>(opt: Option<&(A, B, C, D, E, F, G, H, I, J)>) -> Option<&A> {
    match opt {
        Some(s) => Some(&s.0),
        None => None,
    }
}

/// The second member of a tuple of 10, if a tuple is given.
pub open spec fn spec_member_1_of_10<A, B, C, D, E, F, G, H, I, J>(opt: Option<&(A, B, C, D, E, F, G, H, I, J)>) -> Option<&B> {
    match opt {
        Some(s) => Some(&s.1),
        None => None,
    }
}

/// The third member of a tuple of 10, if a tuple is given.
pub open spec fn spec_member_2_of_10<A, B, C, D, E, F, G, H, I, J>(opt: Option<&(A, B, C, D, E, F, G, H, I, J)>) -> Option<&C> {
    match opt {
        Some(s) => Some(&s.2),
        None => None,
    }
}

/// The fourth member of a tuple of 10, if a tuple is given.
pub open spec fn spec_member_3_of_10<A, B, C, D, E, F, G, H, I, J>(opt: Option<&(A, B, C, D, E, F, G, H, I, J)>) -> Option<&D> {
    match opt {
        Some(s) => Some(&s.3),
        None => None,
    }
}

/// The fifth member of a tuple of 10, if a tuple is given.
pub open spec fn spec_member_4_of_10<A, B, C, D, E, F, G, H, I, J>(opt: Option<&(A, B, C, D, E, F, G, H, I, J)>) -> Option<&E> {
    match opt {
        Some(s) => Some(&s.4),
        None => None,
    }
}

/// The sixth member of a tuple of 10, if a tuple is given.
pub open spec fn spec_member_5_of_10<A, B, C, D, E, F, G, H, I, J>(opt: Option<&(A, B, C, D, E, F, G, H, I, J)>) -> Option<&F> {
    match opt {
        Some(s) => Some(&s.5),
        None => None,
    }
}

/// The seventh member of a tuple of 10, if a tuple is given.
pub open spec fn spec_member_6_of_10<A, B, C, D, E, F, G, H, I, J>(opt: Option<&(A, B, C, D, E, F, G, H, I, J)>) -> Option<&G> {
    match opt {
        Some(s) => Some(&s.6),
        None => None,
    }
}

/// The eighth member of a tuple of 10, if a tuple is given.
pub open spec fn spec_member_7_of_10<A, B, C, D, E, F, G, H, I, J>(opt: Option<&(A, B, C, D, E, F, G, H, I, J)>) -> Option<&H> {
    match opt {
        Some(s) => Some(&s.7),
        None => None,
    }
}

/// The ninth member of a tuple of 10, if a tuple is given.
pub open spec fn spec_member_8_of_10<A, B, C, D, E, F, G, H, I, J>(opt: Option<&(A, B, C, D, E, F, G, H, I, J)>) -> Option<&I> {
    match opt {
        Some(s) => Some(&s.8),
        None => None,
    }
}

/// The tenth member of a tuple of 10, if a tuple is given.
pub open spec fn spec_member_9_of_10<A, B, C, D, E, F, G, H, I, J>(opt: Option<&(A, B, C, D, E, F, G, H, I, J)>) -> Option<&J> {
    match opt {
        Some(s) => Some(&s.9),
        None => None,
    }
}

/// `r` is the tuple of the members.
#[verifier::opaque]
pub open spec fn spec_unpacked_from_10_of_10<A: PackedStructSlice, B: PackedStructSlice, C: PackedStructSlice, D: PackedStructSlice, E: PackedStructSlice, F: PackedStructSlice, G: PackedStructSlice, H: PackedStructSlice, I: PackedStructSlice, J: PackedStructSlice>(
    src: Seq<u8>,
    lens: Seq<usize>,
    v0: A,
    v1: B,
    v2: C,
    v3: D,
    v4: E,
    v5: F,
    v6: G,
    v7: H,
    v8: I,
    v9: J,
    r: PackingResult<(A, B, C, D, E, F, G, H, I, J)>,
) -> bool {
    r == Ok::<(A, B, C, D, E, F, G, H, I, J), PackingError>((v0, v1, v2, v3, v4, v5, v6, v7, v8, v9))
}

/// `r` is what unpacking a tuple of 10 gives once the members before
/// the tenth are unpacked: the error of the first member that cannot
/// be unpacked from its bytes, or the tuple of the members.
#[verifier::opaque]
pub open spec fn spec_unpacked_from_9_of_10<A: PackedStructSlice, B: PackedStructSlice, C: PackedStructSlice, D: PackedStructSlice, E: PackedStructSlice, F: PackedStructSlice, G: PackedStructSlice, H: PackedStructSlice, I: PackedStructSlice, J: PackedStructSlice>(
    src: Seq<u8>,
    lens: Seq<usize>,
    v0: A,
    v1: B,
    v2: C,
    v3: D,
    v4: E,
    v5: F,
    v6: G,
    v7: H,
    v8: I,
    r: PackingResult<(A, B, C, D, E, F, G, H, I, J)>,
) -> bool {
    exists|r9: PackingResult<J>|
        #[trigger] J::spec_unpacked_from_slice(
            src.subrange(spec_ranges(lens)[9].start as int, spec_ranges(lens)[9].end as int),
            r9,
        ) && (match r9 {
            Err(e) => r == Err::<(A, B, C, D, E, F, G, H, I, J), PackingError>(e),
            Ok(v9) => spec_unpacked_from_10_of_10(src, lens, v0, v1, v2, v3, v4, v5, v6, v7, v8, v9, r),
        })
}

/// `r` is what unpacking a tuple of 10 gives once the members before
/// the ninth are unpacked: the error of the first member that cannot
/// be unpacked from its bytes, or the tuple of the members.
#[verifier::opaque]
pub open spec fn spec_unpacked_from_8_of_10<A: PackedStructSlice, B: PackedStructSlice, C: PackedStructSlice, D: PackedStructSlice, E: PackedStructSlice, F: PackedStructSlice, G: PackedStructSlice, H: PackedStructSlice, I: PackedStructSlice, J: PackedStructSlice>(
    src: Seq<u8>,
    lens: Seq<usize>,
    v0: A,
    v1: B,
    v2: C,
    v3: D,
    v4: E,
    v5: F,
    v6: G,
    v7: H,
    r: PackingResult<(A, B, C, D, E, F, G, H, I, J)>,
) -> bool {
    exists|r8: PackingResult<I>|
        #[trigger] I::spec_unpacked_from_slice(
            src.subrange(spec_ranges(lens)[8].start as int, spec_ranges(lens)[8].end as int),
            r8,
        ) && (match r8 {
            Err(e) => r == Err::<(A, B, C, D, E, F, G, H, I, J), PackingError>(e),
            Ok(v8) => spec_unpacked_from_9_of_10(src, lens, v0, v1, v2, v3, v4, v5, v6, v7, v8, r),
        })
}

/// `r` is what unpacking a tuple of 10 gives once the members before
/// the eighth are unpacked: the error of the first member that cannot
/// be unpacked from its bytes, or the tuple of the members.
#[verifier::opaque]
pub open spec fn spec_unpacked_from_7_of_10<A: PackedStructSlice, B: PackedStructSlice, C: PackedStructSlice, D: PackedStructSlice, E: PackedStructSlice, F: PackedStructSlice, G: PackedStructSlice, H: PackedStructSlice, I: PackedStructSlice, J: PackedStructSlice>(
    src: Seq<u8>,
    lens: Seq<usize>,
    v0: A,
    v1: B,
    v2: C,
    v3: D,
    v4: E,
    v5: F,
    v6: G,
    r: PackingResult<(A, B, C, D, E, F, G, H, I, J)>,
) -> bool {
    exists|r7: PackingResult<H>|
        #[trigger] H::spec_unpacked_from_slice(
            src.subrange(spec_ranges(lens)[7].start as int, spec_ranges(lens)[7].end as int),
            r7,
        ) && (match r7 {
            Err(e) => r == Err::<(A, B, C, D, E, F, G, H, I, J), PackingError>(e),
            Ok(v7) => spec_unpacked_from_8_of_10(src, lens, v0, v1, v2, v3, v4, v5, v6, v7, r),
        })
}

/// `r` is what unpacking a tuple of 10 gives once the members before
/// the seventh are unpacked: the error of the first member that cannot
/// be unpacked from its bytes, or the tuple of the members.
#[verifier::opaque]
pub open spec fn spec_unpacked_from_6_of_10<A: PackedStructSlice, B: PackedStructSlice, C: PackedStructSlice, D: PackedStructSlice, E: PackedStructSlice, F: PackedStructSlice, G: PackedStructSlice, H: PackedStructSlice, I: PackedStructSlice, J: PackedStructSlice>(
    src: Seq<u8>,
    lens: Seq<usize>,
    v0: A,
    v1: B,
    v2: C,
    v3: D,
    v4: E,
    v5: F,
    r: PackingResult<(A, B, C, D, E, F, G, H, I, J)>,
) -> bool {
    exists|r6: PackingResult<G>|
        #[trigger] G::spec_unpacked_from_slice(
            src.subrange(spec_ranges(lens)[6].start as int, spec_ranges(lens)[6].end as int),
            r6,
        ) && (match r6 {
            Err(e) => r == Err::<(A, B, C, D, E, F, G, H, I, J), PackingError>(e),
            Ok(v6) => spec_unpacked_from_7_of_10(src, lens, v0, v1, v2, v3, v4, v5, v6, r),
        })
}

/// `r` is what unpacking a tuple of 10 gives once the members before
/// the sixth are unpacked: the error of the first member that cannot
/// be unpacked from its bytes, or the tuple of the members.
#[verifier::opaque]
pub open spec fn spec_unpacked_from_5_of_10<A: PackedStructSlice, B: PackedStructSlice, C: PackedStructSlice, D: PackedStructSlice, E: PackedStructSlice, F: PackedStructSlice, G: PackedStructSlice, H: PackedStructSlice, I: PackedStructSlice, J: PackedStructSlice>(
    src: Seq<u8>,
    lens: Seq<usize>,
    v0: A,
    v1: B,
    v2: C,
    v3: D,
    v4: E,
    r: PackingResult<(A, B, C, D, E, F, G, H, I, J)>,
) -> bool {
    exists|r5: PackingResult<F>|
        #[trigger] F::spec_unpacked_from_slice(
            src.subrange(spec_ranges(lens)[5].start as int, spec_ranges(lens)[5].end as int),
            r5,
        ) && (match r5 {
            Err(e) => r == Err::<(A, B, C, D, E, F, G, H, I, J), PackingError>(e),
            Ok(v5) => spec_unpacked_from_6_of_10(src, lens, v0, v1, v2, v3, v4, v5, r),
        })
}

/// `r` is what unpacking a tuple of 10 gives once the members before
/// the fifth are unpacked: the error of the first member that cannot
/// be unpacked from its bytes, or the tuple of the members.
#[verifier::opaque]
pub open spec fn spec_unpacked_from_4_of_10<A: PackedStructSlice, B: PackedStructSlice, C: PackedStructSlice, D: PackedStructSlice, E: PackedStructSlice, F: PackedStructSlice, G: PackedStructSlice, H: PackedStructSlice, I: PackedStructSlice, J: PackedStructSlice>(
    src: Seq<u8>,
    lens: Seq<usize>,
    v0: A,
    v1: B,
    v2: C,
    v3: D,
    r: PackingResult<(A, B, C, D, E, F, G, H, I, J)>,
) -> bool {
    exists|r4: PackingResult<E>|
        #[trigger] E::spec_unpacked_from_slice(
            src.subrange(spec_ranges(lens)[4].start as int, spec_ranges(lens)[4].end as int),
            r4,
        ) && (match r4 {
            Err(e) => r == Err::<(A, B, C, D, E, F, G, H, I, J), PackingError>(e),
            Ok(v4) => spec_unpacked_from_5_of_10(src, lens, v0, v1, v2, v3, v4, r),
        })
}

/// `r` is what unpacking a tuple of 10 gives once the members before
/// the fourth are unpacked: the error of the first member that cannot
/// be unpacked from its bytes, or the tuple of the members.
#[verifier::opaque]
pub open spec fn spec_unpacked_from_3_of_10<A: PackedStructSlice, B: PackedStructSlice, C: PackedStructSlice, D: PackedStructSlice, E: PackedStructSlice, F: PackedStructSlice, G: PackedStructSlice, H: PackedStructSlice, I: PackedStructSlice, J: PackedStructSlice>(
    src: Seq<u8>,
    lens: Seq<usize>,
    v0: A,
    v1: B,
    v2: C,
    r: PackingResult<(A, B, C, D, E, F, G, H, I, J)>,
) -> bool {
    exists|r3: PackingResult<D>|
        #[trigger] D::spec_unpacked_from_slice(
            src.subrange(spec_ranges(lens)[3].start as int, spec_ranges(lens)[3].end as int),
            r3,
        ) && (match r3 {
            Err(e) => r == Err::<(A, B, C, D, E, F, G, H, I, J), PackingError>(e),
            Ok(v3) => spec_unpacked_from_4_of_10(src, lens, v0, v1, v2, v3, r),
        })
}

/// `r` is what unpacking a tuple of 10 gives once the members before
/// the third are unpacked: the error of the first member that cannot
/// be unpacked from its bytes, or the tuple of the members.
#[verifier::opaque]
pub open spec fn spec_unpacked_from_2_of_10<A: PackedStructSlice, B: PackedStructSlice, C: PackedStructSlice, D: PackedStructSlice, E: PackedStructSlice, F: PackedStructSlice, G: PackedStructSlice, H: PackedStructSlice, I: PackedStructSlice, J: PackedStructSlice>(
    src: Seq<u8>,
    lens: Seq<usize>,
    v0: A,
    v1: B,
    r: PackingResult<(A, B, C, D, E, F, G, H, I, J)>,
) -> bool {
    exists|r2: PackingResult<C>|
        #[trigger] C::spec_unpacked_from_slice(
            src.subrange(spec_ranges(lens)[2].start as int, spec_ranges(lens)[2].end as int),
            r2,
        ) && (match r2 {
            Err(e) => r == Err::<(A, B, C, D, E, F, G, H, I, J), PackingError>(e),
            Ok(v2) => spec_unpacked_from_3_of_10(src, lens, v0, v1, v2, r),
        })
}

/// `r` is what unpacking a tuple of 10 gives once the members before
/// the second are unpacked: the error of the first member that cannot
/// be unpacked from its bytes, or the tuple of the members.
#[verifier::opaque]
pub open spec fn spec_unpacked_from_1_of_10<A: PackedStructSlice, B: PackedStructSlice, C: PackedStructSlice, D: PackedStructSlice, E: PackedStructSlice, F: PackedStructSlice, G: PackedStructSlice, H: PackedStructSlice, I: PackedStructSlice, J: PackedStructSlice>(
    src: Seq<u8>,
    lens: Seq<usize>,
    v0: A,
    r: PackingResult<(A, B, C, D, E, F, G, H, I, J)>,
) -> bool {
    exists|r1: PackingResult<B>|
        #[trigger] B::spec_unpacked_from_slice(
            src.subrange(spec_ranges(lens)[1].start as int, spec_ranges(lens)[1].end as int),
            r1,
        ) && (match r1 {
            Err(e) => r == Err::<(A, B, C, D, E, F, G, H, I, J), PackingError>(e),
            Ok(v1) => spec_unpacked_from_2_of_10(src, lens, v0, v1, r),
        })
}

/// `r` is what unpacking a tuple of 10 gives once the members before
/// the first are unpacked: the error of the first member that cannot
/// be unpacked from its bytes, or the tuple of the members.
#[verifier::opaque]
pub open spec fn spec_unpacked_from_0_of_10<A: PackedStructSlice, B: PackedStructSlice, C: PackedStructSlice, D: PackedStructSlice, E: PackedStructSlice, F: PackedStructSlice, G: PackedStructSlice, H: PackedStructSlice, I: PackedStructSlice, J: PackedStructSlice>(
    src: Seq<u8>,
    lens: Seq<usize>,
    r: PackingResult<(A, B, C, D, E, F, G, H, I, J)>,
) -> bool {
    exists|r0: PackingResult<A>|
        #[trigger] A::spec_unpacked_from_slice(
            src.subrange(spec_ranges(lens)[0].start as int, spec_ranges(lens)[0].end as int),
            r0,
        ) && (match r0 {
            Err(e) => r == Err::<(A, B, C, D, E, F, G, H, I, J), PackingError>(e),
            Ok(v0) => spec_unpacked_from_1_of_10(src, lens, v0, r),
        })
}

/// One step of unpacking a tuple of 10: what holds once the first
/// member is unpacked holds before it.
pub proof fn lemma_unpacked_step_0_of_10<A: PackedStructSlice, B: PackedStructSlice, C: PackedStructSlice, D: PackedStructSlice, E: PackedStructSlice, F: PackedStructSlice, G: PackedStructSlice, H: PackedStructSlice, I: PackedStructSlice, J: PackedStructSlice>(
    src: Seq<u8>,
    lens: Seq<usize>,
    r0: PackingResult<A>,
    r: PackingResult<(A, B, C, D, E, F, G, H, I, J)>,
)
    requires
        A::spec_unpacked_from_slice(
            src.subrange(spec_ranges(lens)[0].start as int, spec_ranges(lens)[0].end as int),
            r0,
        ),
        match r0 {
            Err(e) => r == Err::<(A, B, C, D, E, F, G, H, I, J), PackingError>(e),
            Ok(v0) => spec_unpacked_from_1_of_10(src, lens, v0, r),
        },
    ensures
        spec_unpacked_from_0_of_10(src, lens, r),
{
    reveal(spec_unpacked_from_0_of_10);
}

/// One step of unpacking a tuple of 10: what holds once the second
/// member is unpacked holds before it.
pub proof fn lemma_unpacked_step_1_of_10<A: PackedStructSlice, B: PackedStructSlice, C: PackedStructSlice, D: PackedStructSlice, E: PackedStructSlice, F: PackedStructSlice, G: PackedStructSlice, H: PackedStructSlice, I: PackedStructSlice, J: PackedStructSlice>(
    src: Seq<u8>,
    lens: Seq<usize>,
    v0: A,
    r1: PackingResult<B>,
    r: PackingResult<(A, B, C, D, E, F, G, H, I, J)>,
)
    requires
        B::spec_unpacked_from_slice(
            src.subrange(spec_ranges(lens)[1].start as int, spec_ranges(lens)[1].end as int),
            r1,
        ),
        match r1 {
            Err(e) => r == Err::<(A, B, C, D, E, F, G, H, I, J), PackingError>(e),
            Ok(v1) => spec_unpacked_from_2_of_10(src, lens, v0, v1, r),
        },
    ensures
        spec_unpacked_from_1_of_10(src, lens, v0, r),
{
    reveal(spec_unpacked_from_1_of_10);
}

/// One step of unpacking a tuple of 10: what holds once the third
/// member is unpacked holds before it.
pub proof fn lemma_unpacked_step_2_of_10<A: PackedStructSlice, B: PackedStructSlice, C: PackedStructSlice, D: PackedStructSlice, E: PackedStructSlice, F: PackedStructSlice, G: PackedStructSlice, H: PackedStructSlice, I: PackedStructSlice, J: PackedStructSlice>(
    src: Seq<u8>,
    lens: Seq<usize>,
    v0: A,
    v1: B,
    r2: PackingResult<C>,
    r: PackingResult<(A, B, C, D, E, F, G, H, I, J)>,
)
    requires
        C::spec_unpacked_from_slice(
            src.subrange(spec_ranges(lens)[2].start as int, spec_ranges(lens)[2].end as int),
            r2,
        ),
        match r2 {
            Err(e) => r == Err::<(A, B, C, D, E, F, G, H, I, J), PackingError>(e),
            Ok(v2) => spec_unpacked_from_3_of_10(src, lens, v0, v1, v2, r),
        },
    ensures
        spec_unpacked_from_2_of_10(src, lens, v0, v1, r),
{
    reveal(spec_unpacked_from_2_of_10);
}

/// One step of unpacking a tuple of 10: what holds once the fourth
/// member is unpacked holds before it.
pub proof fn lemma_unpacked_step_3_of_10<A: PackedStructSlice, B: PackedStructSlice, C: PackedStructSlice, D: PackedStructSlice, E: PackedStructSlice, F: PackedStructSlice, G: PackedStructSlice, H: PackedStructSlice, I: PackedStructSlice, J: PackedStructSlice>(
    src: Seq<u8>,
    lens: Seq<usize>,
    v0: A,
    v1: B,
    v2: C,
    r3: PackingResult<D>,
    r: PackingResult<(A, B, C, D, E, F, G, H, I, J)>,
)
    requires
        D::spec_unpacked_from_slice(
            src.subrange(spec_ranges(lens)[3].start as int, spec_ranges(lens)[3].end as int),
            r3,
        ),
        match r3 {
            Err(e) => r == Err::<(A, B, C, D, E, F, G, H, I, J), PackingError>(e),
            Ok(v3) => spec_unpacked_from_4_of_10(src, lens, v0, v1, v2, v3, r),
        },
    ensures
        spec_unpacked_from_3_of_10(src, lens, v0, v1, v2, r),
{
    reveal(spec_unpacked_from_3_of_10);
}

/// One step of unpacking a tuple of 10: what holds once the fifth
/// member is unpacked holds before it.
pub proof fn lemma_unpacked_step_4_of_10<A: PackedStructSlice, B: PackedStructSlice, C: PackedStructSlice, D: PackedStructSlice, E: PackedStructSlice, F: PackedStructSlice, G: PackedStructSlice, H: PackedStructSlice, I: PackedStructSlice, J: PackedStructSlice>(
    src: Seq<u8>,
    lens: Seq<usize>,
    v0: A,
    v1: B,
    v2: C,
    v3: D,
    r4: PackingResult<E>,
    r: PackingResult<(A, B, C, D, E, F, G, H, I, J)>,
)
    requires
        E::spec_unpacked_from_slice(
            src.subrange(spec_ranges(lens)[4].start as int, spec_ranges(lens)[4].end as int),
            r4,
        ),
        match r4 {
            Err(e) => r == Err::<(A, B, C, D, E, F, G, H, I, J), PackingError>(e),
            Ok(v4) => spec_unpacked_from_5_of_10(src, lens, v0, v1, v2, v3, v4, r),
        },
    ensures
        spec_unpacked_from_4_of_10(src, lens, v0, v1, v2, v3, r),
{
    reveal(spec_unpacked_from_4_of_10);
}

/// One step of unpacking a tuple of 10: what holds once the sixth
/// member is unpacked holds before it.
pub proof fn lemma_unpacked_step_5_of_10<A: PackedStructSlice, B: PackedStructSlice, C: PackedStructSlice, D: PackedStructSlice, E: PackedStructSlice, F: PackedStructSlice, G: PackedStructSlice, H: PackedStructSlice, I: PackedStructSlice, J: PackedStructSlice>(
    src: Seq<u8>,
    lens: Seq<usize>,
    v0: A,
    v1: B,
    v2: C,
    v3: D,
    v4: E,
    r5: PackingResult<F>,
    r: PackingResult<(A, B, C, D, E, F, G, H, I, J)>,
)
    requires
        F::spec_unpacked_from_slice(
            src.subrange(spec_ranges(lens)[5].start as int, spec_ranges(lens)[5].end as int),
            r5,
        ),
        match r5 {
            Err(e) => r == Err::<(A, B, C, D, E, F, G, H, I, J), PackingError>(e),
            Ok(v5) => spec_unpacked_from_6_of_10(src, lens, v0, v1, v2, v3, v4, v5, r),
        },
    ensures
        spec_unpacked_from_5_of_10(src, lens, v0, v1, v2, v3, v4, r),
{
    reveal(spec_unpacked_from_5_of_10);
}

/// One step of unpacking a tuple of 10: what holds once the seventh
/// member is unpacked holds before it.
pub proof fn lemma_unpacked_step_6_of_10<A: PackedStructSlice, B: PackedStructSlice, C: PackedStructSlice, D: PackedStructSlice, E: PackedStructSlice, F: PackedStructSlice, G: PackedStructSlice, H: PackedStructSlice, I: PackedStructSlice, J: PackedStructSlice>(
    src: Seq<u8>,
    lens: Seq<usize>,
    v0: A,
    v1: B,
    v2: C,
    v3: D,
    v4: E,
    v5: F,
    r6: PackingResult<G>,
    r: PackingResult<(A, B, C, D, E, F, G, H, I, J)>,
)
    requires
        G::spec_unpacked_from_slice(
            src.subrange(spec_ranges(lens)[6].start as int, spec_ranges(lens)[6].end as int),
            r6,
        ),
        match r6 {
            Err(e) => r == Err::<(A, B, C, D, E, F, G, H, I, J), PackingError>(e),
            Ok(v6) => spec_unpacked_from_7_of_10(src, lens, v0, v1, v2, v3, v4, v5, v6, r),
        },
    ensures
        spec_unpacked_from_6_of_10(src, lens, v0, v1, v2, v3, v4, v5, r),
{
    reveal(spec_unpacked_from_6_of_10);
}

/// One step of unpacking a tuple of 10: what holds once the eighth
/// member is unpacked holds before it.
pub proof fn lemma_unpacked_step_7_of_10<A: PackedStructSlice, B: PackedStructSlice, C: PackedStructSlice, D: PackedStructSlice, E: PackedStructSlice, F: PackedStructSlice, G: PackedStructSlice, H: PackedStructSlice, I: PackedStructSlice, J: PackedStructSlice>(
    src: Seq<u8>,
    lens: Seq<usize>,
    v0: A,
    v1: B,
    v2: C,
    v3: D,
    v4: E,
    v5: F,
    v6: G,
    r7: PackingResult<H>,
    r: PackingResult<(A, B, C, D, E, F, G, H, I, J)>,
)
    requires
        H::spec_unpacked_from_slice(
            src.subrange(spec_ranges(lens)[7].start as int, spec_ranges(lens)[7].end as int),
            r7,
        ),
        match r7 {
            Err(e) => r == Err::<(A, B, C, D, E, F, G, H, I, J), PackingError>(e),
            Ok(v7) => spec_unpacked_from_8_of_10(src, lens, v0, v1, v2, v3, v4, v5, v6, v7, r),
        },
    ensures
        spec_unpacked_from_7_of_10(src, lens, v0, v1, v2, v3, v4, v5, v6, r),
{
    reveal(spec_unpacked_from_7_of_10);
}

/// One step of unpacking a tuple of 10: what holds once the ninth
/// member is unpacked holds before it.
pub proof fn lemma_unpacked_step_8_of_10<A: PackedStructSlice, B: PackedStructSlice, C: PackedStructSlice, D: PackedStructSlice, E: PackedStructSlice, F: PackedStructSlice, G: PackedStructSlice, H: PackedStructSlice, I: PackedStructSlice, J: PackedStructSlice>(
    src: Seq<u8>,
    lens: Seq<usize>,
    v0: A,
    v1: B,
    v2: C,
    v3: D,
    v4: E,
    v5: F,
    v6: G,
    v7: H,
    r8: PackingResult<I>,
    r: PackingResult<(A, B, C, D, E, F, G, H, I, J)>,
)
    requires
        I::spec_unpacked_from_slice(
            src.subrange(spec_ranges(lens)[8].start as int, spec_ranges(lens)[8].end as int),
            r8,
        ),
        match r8 {
            Err(e) => r == Err::<(A, B, C, D, E, F, G, H, I, J), PackingError>(e),
            Ok(v8) => spec_unpacked_from_9_of_10(src, lens, v0, v1, v2, v3, v4, v5, v6, v7, v8, r),
        },
    ensures
        spec_unpacked_from_8_of_10(src, lens, v0, v1, v2, v3, v4, v5, v6, v7, r),
{
    reveal(spec_unpacked_from_8_of_10);
}

/// One step of unpacking a tuple of 10: what holds once the tenth
/// member is unpacked holds before it.
pub proof fn lemma_unpacked_step_9_of_10<A: PackedStructSlice, B: PackedStructSlice, C: PackedStructSlice, D: PackedStructSlice, E: PackedStructSlice, F: PackedStructSlice, G: PackedStructSlice, H: PackedStructSlice, I: PackedStructSlice, J: PackedStructSlice>(
    src: Seq<u8>,
    lens: Seq<usize>,
    v0: A,
    v1: B,
    v2: C,
    v3: D,
    v4: E,
    v5: F,
    v6: G,
    v7: H,
    v8: I,
    r9: PackingResult<J>,
    r: PackingResult<(A, B, C, D, E, F, G, H, I, J)>,
)
    requires
        J::spec_unpacked_from_slice(
            src.subrange(spec_ranges(lens)[9].start as int, spec_ranges(lens)[9].end as int),
            r9,
        ),
        match r9 {
            Err(e) => r == Err::<(A, B, C, D, E, F, G, H, I, J), PackingError>(e),
            Ok(v9) => spec_unpacked_from_10_of_10(src, lens, v0, v1, v2, v3, v4, v5, v6, v7, v8, v9, r),
        },
    ensures
        spec_unpacked_from_9_of_10(src, lens, v0, v1, v2, v3, v4, v5, v6, v7, v8, r),
{
    reveal(spec_unpacked_from_9_of_10);
}

/// The tuple of the members is what unpacking gives once all 10 are
/// unpacked.
pub proof fn lemma_unpacked_all_of_10<A: PackedStructSlice, B: PackedStructSlice, C: PackedStructSlice, D: PackedStructSlice, E: PackedStructSlice, F: PackedStructSlice, G: PackedStructSlice, H: PackedStructSlice, I: PackedStructSlice, J: PackedStructSlice>(
    src: Seq<u8>,
    lens: Seq<usize>,
    v0: A,
    v1: B,
    v2: C,
    v3: D,
    v4: E,
    v5: F,
    v6: G,
    v7: H,
    v8: I,
    v9: J,
)
    ensures
        spec_unpacked_from_10_of_10(src, lens, v0, v1, v2, v3, v4, v5, v6, v7, v8, v9, Ok::<(A, B, C, D, E, F, G, H, I, J), PackingError>((v0, v1, v2, v3, v4, v5, v6, v7, v8, v9))),
{
    reveal(spec_unpacked_from_10_of_10);
}

impl<A: PackedStructSlice, B: PackedStructSlice, C: PackedStructSlice, D: PackedStructSlice, E: PackedStructSlice, F: PackedStructSlice, G: PackedStructSlice, H: PackedStructSlice, I: PackedStructSlice, J: PackedStructSlice> PackedStructSlice for (A, B, C, D, E, F, G, H, I, J) {
    open spec fn spec_packed_bytes_size(opt_self: Option<&Self>) -> PackingResult<usize> {
        match A::spec_packed_bytes_size(spec_member_0_of_10(opt_self)) {
            Err(e) => Err(e),
            Ok(s0) => match B::spec_packed_bytes_size(spec_member_1_of_10(opt_self)) {
                Err(e) => Err(e),
                Ok(s1) => match C::spec_packed_bytes_size(spec_member_2_of_10(opt_self)) {
                    Err(e) => Err(e),
                    Ok(s2) => match D::spec_packed_bytes_size(spec_member_3_of_10(opt_self)) {
                        Err(e) => Err(e),
                        Ok(s3) => match E::spec_packed_bytes_size(spec_member_4_of_10(opt_self)) {
                            Err(e) => Err(e),
                            Ok(s4) => match F::spec_packed_bytes_size(spec_member_5_of_10(opt_self)) {
                                Err(e) => Err(e),
                                Ok(s5) => match G::spec_packed_bytes_size(spec_member_6_of_10(opt_self)) {
                                    Err(e) => Err(e),
                                    Ok(s6) => match H::spec_packed_bytes_size(spec_member_7_of_10(opt_self)) {
                                        Err(e) => Err(e),
                                        Ok(s7) => match I::spec_packed_bytes_size(spec_member_8_of_10(opt_self)) {
                                            Err(e) => Err(e),
                                            Ok(s8) => match J::spec_packed_bytes_size(spec_member_9_of_10(opt_self)) {
                                                Err(e) => Err(e),
                                                Ok(s9) => if s0 + s1 + s2 + s3 + s4 + s5 + s6 + s7 + s8 + s9 > usize::MAX {
                                                    Err(PackingError::InternalError)
                                                } else {
                                                    Ok((s0 + s1 + s2 + s3 + s4 + s5 + s6 + s7 + s8 + s9) as usize)
                                                },
                                            },
                                        },
                                    },
                                },
                            },
                        },
                    },
                },
            },
        }
    }

    open spec fn spec_packed(&self) -> PackingResult<Seq<u8>> {
        match spec_item_packed(self.0, spec_own_size(self.0)) {
            Err(e) => Err(e),
            Ok(b0) => match spec_item_packed(self.1, spec_own_size(self.1)) {
                Err(e) => Err(e),
                Ok(b1) => match spec_item_packed(self.2, spec_own_size(self.2)) {
                    Err(e) => Err(e),
                    Ok(b2) => match spec_item_packed(self.3, spec_own_size(self.3)) {
                        Err(e) => Err(e),
                        Ok(b3) => match spec_item_packed(self.4, spec_own_size(self.4)) {
                            Err(e) => Err(e),
                            Ok(b4) => match spec_item_packed(self.5, spec_own_size(self.5)) {
                                Err(e) => Err(e),
                                Ok(b5) => match spec_item_packed(self.6, spec_own_size(self.6)) {
                                    Err(e) => Err(e),
                                    Ok(b6) => match spec_item_packed(self.7, spec_own_size(self.7)) {
                                        Err(e) => Err(e),
                                        Ok(b7) => match spec_item_packed(self.8, spec_own_size(self.8)) {
                                            Err(e) => Err(e),
                                            Ok(b8) => match spec_item_packed(self.9, spec_own_size(self.9)) {
                                                Err(e) => Err(e),
                                                Ok(b9) => Ok(b0 + b1 + b2 + b3 + b4 + b5 + b6 + b7 + b8 + b9),
                                            },
                                        },
                                    },
                                },
                            },
                        },
                    },
                },
            },
        }
    }

    open spec fn spec_unpacked_from_slice(src: Seq<u8>, r: PackingResult<Self>) -> bool {
        match spec_member_lengths(seq![spec_length_of(A::spec_packed_bytes_size(None)), spec_length_of(B::spec_packed_bytes_size(None)), spec_length_of(C::spec_packed_bytes_size(None)), spec_length_of(D::spec_packed_bytes_size(None)), spec_length_of(E::spec_packed_bytes_size(None)), spec_length_of(F::spec_packed_bytes_size(None)), spec_length_of(G::spec_packed_bytes_size(None)), spec_length_of(H::spec_packed_bytes_size(None)), spec_length_of(I::spec_packed_bytes_size(None)), spec_length_of(J::spec_packed_bytes_size(None))], 10) {
            Err(e) => r == Err::<Self, PackingError>(e),
            Ok(lengths) => match spec_resolved_lengths(lengths, src.len() as usize) {
                Err(e) => r == Err::<Self, PackingError>(e),
                Ok(lens) => spec_unpacked_from_0_of_10(src, lens, r),
            },
        }
    }

    #[verifier::rlimit(60)]
    fn pack_to_slice(&self, output: &mut [u8]) -> (r: PackingResult<()>) {
        let s0 = match A::packed_bytes_size(Some(&self.0)) {
            Ok(s) => s,
            Err(e) => {
                return Err(e);
            },
        };
        let s1 = match B::packed_bytes_size(Some(&self.1)) {
            Ok(s) => s,
            Err(e) => {
                return Err(e);
            },
        };
        let s2 = match C::packed_bytes_size(Some(&self.2)) {
            Ok(s) => s,
            Err(e) => {
                return Err(e);
            },
        };
        let s3 = match D::packed_bytes_size(Some(&self.3)) {
            Ok(s) => s,
            Err(e) => {
                return Err(e);
            },
        };
        let s4 = match E::packed_bytes_size(Some(&self.4)) {
            Ok(s) => s,
            Err(e) => {
                return Err(e);
            },
        };
        let s5 = match F::packed_bytes_size(Some(&self.5)) {
            Ok(s) => s,
            Err(e) => {
                return Err(e);
            },
        };
        let s6 = match G::packed_bytes_size(Some(&self.6)) {
            Ok(s) => s,
            Err(e) => {
                return Err(e);
            },
        };
        let s7 = match H::packed_bytes_size(Some(&self.7)) {
            Ok(s) => s,
            Err(e) => {
                return Err(e);
            },
        };
        let s8 = match I::packed_bytes_size(Some(&self.8)) {
            Ok(s) => s,
            Err(e) => {
                return Err(e);
            },
        };
        let s9 = match J::packed_bytes_size(Some(&self.9)) {
            Ok(s) => s,
            Err(e) => {
                return Err(e);
            },
        };
        let mut total: usize = 0;
        total = match total.checked_add(s0) {
            Some(t) => t,
            None => {
                return Err(PackingError::InternalError);
            },
        };
        total = match total.checked_add(s1) {
            Some(t) => t,
            None => {
                return Err(PackingError::InternalError);
            },
        };
        total = match total.checked_add(s2) {
            Some(t) => t,
            None => {
                return Err(PackingError::InternalError);
            },
        };
        total = match total.checked_add(s3) {
            Some(t) => t,
            None => {
                return Err(PackingError::InternalError);
            },
        };
        total = match total.checked_add(s4) {
            Some(t) => t,
            None => {
                return Err(PackingError::InternalError);
            },
        };
        total = match total.checked_add(s5) {
            Some(t) => t,
            None => {
                return Err(PackingError::InternalError);
            },
        };
        total = match total.checked_add(s6) {
            Some(t) => t,
            None => {
                return Err(PackingError::InternalError);
            },
        };
        total = match total.checked_add(s7) {
            Some(t) => t,
            None => {
                return Err(PackingError::InternalError);
            },
        };
        total = match total.checked_add(s8) {
            Some(t) => t,
            None => {
                return Err(PackingError::InternalError);
            },
        };
        total = match total.checked_add(s9) {
            Some(t) => t,
            None => {
                return Err(PackingError::InternalError);
            },
        };
        if total != output.len() {
            return Err(PackingError::BufferSizeMismatch { expected: total, actual: output.len() });
        }
        let mut packed: Vec<u8> = Vec::new();
        match append_member(&self.0, s0, &mut packed) {
            Ok(()) => {},
            Err(e) => {
                return Err(e);
            },
        }
        let ghost b0 = spec_item_packed(self.0, s0)->Ok_0;
        assert(packed@ == b0);
        match append_member(&self.1, s1, &mut packed) {
            Ok(()) => {},
            Err(e) => {
                return Err(e);
            },
        }
        let ghost b1 = spec_item_packed(self.1, s1)->Ok_0;
        assert(packed@ == b0 + b1);
        match append_member(&self.2, s2, &mut packed) {
            Ok(()) => {},
            Err(e) => {
                return Err(e);
            },
        }
        let ghost b2 = spec_item_packed(self.2, s2)->Ok_0;
        assert(packed@ == b0 + b1 + b2);
        match append_member(&self.3, s3, &mut packed) {
            Ok(()) => {},
            Err(e) => {
                return Err(e);
            },
        }
        let ghost b3 = spec_item_packed(self.3, s3)->Ok_0;
        assert(packed@ == b0 + b1 + b2 + b3);
        match append_member(&self.4, s4, &mut packed) {
            Ok(()) => {},
            Err(e) => {
                return Err(e);
            },
        }
        let ghost b4 = spec_item_packed(self.4, s4)->Ok_0;
        assert(packed@ == b0 + b1 + b2 + b3 + b4);
        match append_member(&self.5, s5, &mut packed) {
            Ok(()) => {},
            Err(e) => {
                return Err(e);
            },
        }
        let ghost b5 = spec_item_packed(self.5, s5)->Ok_0;
        assert(packed@ == b0 + b1 + b2 + b3 + b4 + b5);
        match append_member(&self.6, s6, &mut packed) {
            Ok(()) => {},
            Err(e) => {
                return Err(e);
            },
        }
        let ghost b6 = spec_item_packed(self.6, s6)->Ok_0;
        assert(packed@ == b0 + b1 + b2 + b3 + b4 + b5 + b6);
        match append_member(&self.7, s7, &mut packed) {
            Ok(()) => {},
            Err(e) => {
                return Err(e);
            },
        }
        let ghost b7 = spec_item_packed(self.7, s7)->Ok_0;
        assert(packed@ == b0 + b1 + b2 + b3 + b4 + b5 + b6 + b7);
        match append_member(&self.8, s8, &mut packed) {
            Ok(()) => {},
            Err(e) => {
                return Err(e);
            },
        }
        let ghost b8 = spec_item_packed(self.8, s8)->Ok_0;
        assert(packed@ == b0 + b1 + b2 + b3 + b4 + b5 + b6 + b7 + b8);
        match append_member(&self.9, s9, &mut packed) {
            Ok(()) => {},
            Err(e) => {
                return Err(e);
            },
        }
        let ghost b9 = spec_item_packed(self.9, s9)->Ok_0;
        assert(packed@ == b0 + b1 + b2 + b3 + b4 + b5 + b6 + b7 + b8 + b9);
        copy_into(output, 0, packed.as_slice());
        assert(output@ =~= packed@);
        Ok(())
    }

    #[verifier::rlimit(60)]
    fn unpack_from_slice(src: &[u8]) -> (r: PackingResult<Self>) {
        let mut builder = StructLengthBuilder::new();
        let ghost sizes = seq![spec_length_of(A::spec_packed_bytes_size(None)), spec_length_of(B::spec_packed_bytes_size(None)), spec_length_of(C::spec_packed_bytes_size(None)), spec_length_of(D::spec_packed_bytes_size(None)), spec_length_of(E::spec_packed_bytes_size(None)), spec_length_of(F::spec_packed_bytes_size(None)), spec_length_of(G::spec_packed_bytes_size(None)), spec_length_of(H::spec_packed_bytes_size(None)), spec_length_of(I::spec_packed_bytes_size(None)), spec_length_of(J::spec_packed_bytes_size(None))];
        proof {
            lemma_member_lengths(sizes, 10);
        }
        match builder.add::<A>(None) {
            Ok(_) => {},
            Err(e) => {
                return Err(e);
            },
        }
        match builder.add::<B>(None) {
            Ok(_) => {},
            Err(e) => {
                return Err(e);
            },
        }
        match builder.add::<C>(None) {
            Ok(_) => {},
            Err(e) => {
                return Err(e);
            },
        }
        match builder.add::<D>(None) {
            Ok(_) => {},
            Err(e) => {
                return Err(e);
            },
        }
        match builder.add::<E>(None) {
            Ok(_) => {},
            Err(e) => {
                return Err(e);
            },
        }
        match builder.add::<F>(None) {
            Ok(_) => {},
            Err(e) => {
                return Err(e);
            },
        }
        match builder.add::<G>(None) {
            Ok(_) => {},
            Err(e) => {
                return Err(e);
            },
        }
        match builder.add::<H>(None) {
            Ok(_) => {},
            Err(e) => {
                return Err(e);
            },
        }
        match builder.add::<I>(None) {
            Ok(_) => {},
            Err(e) => {
                return Err(e);
            },
        }
        match builder.add::<J>(None) {
            Ok(_) => {},
            Err(e) => {
                return Err(e);
            },
        }
        proof {
            assert(builder@ =~= spec_member_lengths(sizes, 10)->Ok_0);
        }
        let ghost lengths = builder@;
        let resolved = match builder.build(src.len()) {
            Ok(l) => l,
            Err(e) => {
                return Err(e);
            },
        };
        let ranges = match resolved.get_ranges() {
            Ok(r) => r,
            Err(e) => {
                return Err(e);
            },
        };
        let ghost lens = spec_resolved_lengths(lengths, src@.len() as usize)->Ok_0;
        proof {
            lemma_resolved_lengths_sum(lengths, src@.len() as usize);
            lemma_ranges_within(lens);
        }
        let v0 = match A::unpack_from_slice(
            match lib_get_slice(src, ranges[0].start, ranges[0].end) {
                Ok(s) => s,
                Err(e) => {
                    return Err(e);
                },
            },
        ) {
            Ok(v) => v,
            Err(e) => {
                let ghost res = Err::<(A, B, C, D, E, F, G, H, I, J), PackingError>(e);
                proof {
                    lemma_unpacked_step_0_of_10::<A, B, C, D, E, F, G, H, I, J>(src@, lens, Err::<A, PackingError>(e), res);
                }
                return Err(e);
            },
        };
        let v1 = match B::unpack_from_slice(
            match lib_get_slice(src, ranges[1].start, ranges[1].end) {
                Ok(s) => s,
                Err(e) => {
                    return Err(e);
                },
            },
        ) {
            Ok(v) => v,
            Err(e) => {
                let ghost res = Err::<(A, B, C, D, E, F, G, H, I, J), PackingError>(e);
                proof {
                    lemma_unpacked_step_1_of_10::<A, B, C, D, E, F, G, H, I, J>(src@, lens, v0, Err::<B, PackingError>(e), res);
                    lemma_unpacked_step_0_of_10::<A, B, C, D, E, F, G, H, I, J>(src@, lens, Ok::<A, PackingError>(v0), res);
                }
                return Err(e);
            },
        };
        let v2 = match C::unpack_from_slice(
            match lib_get_slice(src, ranges[2].start, ranges[2].end) {
                Ok(s) => s,
                Err(e) => {
                    return Err(e);
                },
            },
        ) {
            Ok(v) => v,
            Err(e) => {
                let ghost res = Err::<(A, B, C, D, E, F, G, H, I, J), PackingError>(e);
                proof {
                    lemma_unpacked_step_2_of_10::<A, B, C, D, E, F, G, H, I, J>(src@, lens, v0, v1, Err::<C, PackingError>(e), res);
                    lemma_unpacked_step_1_of_10::<A, B, C, D, E, F, G, H, I, J>(src@, lens, v0, Ok::<B, PackingError>(v1), res);
                    lemma_unpacked_step_0_of_10::<A, B, C, D, E, F, G, H, I, J>(src@, lens, Ok::<A, PackingError>(v0), res);
                }
                return Err(e);
            },
        };
        let v3 = match D::unpack_from_slice(
            match lib_get_slice(src, ranges[3].start, ranges[3].end) {
                Ok(s) => s,
                Err(e) => {
                    return Err(e);
                },
            },
        ) {
            Ok(v) => v,
            Err(e) => {
                let ghost res = Err::<(A, B, C, D, E, F, G, H, I, J), PackingError>(e);
                proof {
                    lemma_unpacked_step_3_of_10::<A, B, C, D, E, F, G, H, I, J>(src@, lens, v0, v1, v2, Err::<D, PackingError>(e), res);
                    lemma_unpacked_step_2_of_10::<A, B, C, D, E, F, G, H, I, J>(src@, lens, v0, v1, Ok::<C, PackingError>(v2), res);
                    lemma_unpacked_step_1_of_10::<A, B, C, D, E, F, G, H, I, J>(src@, lens, v0, Ok::<B, PackingError>(v1), res);
                    lemma_unpacked_step_0_of_10::<A, B, C, D, E, F, G, H, I, J>(src@, lens, Ok::<A, PackingError>(v0), res);
                }
                return Err(e);
            },
        };
        let v4 = match E::unpack_from_slice(
            match lib_get_slice(src, ranges[4].start, ranges[4].end) {
                Ok(s) => s,
                Err(e) => {
                    return Err(e);
                },
            },
        ) {
            Ok(v) => v,
            Err(e) => {
                let ghost res = Err::<(A, B, C, D, E, F, G, H, I, J), PackingError>(e);
                proof {
                    lemma_unpacked_step_4_of_10::<A, B, C, D, E, F, G, H, I, J>(src@, lens, v0, v1, v2, v3, Err::<E, PackingError>(e), res);
                    lemma_unpacked_step_3_of_10::<A, B, C, D, E, F, G, H, I, J>(src@, lens, v0, v1, v2, Ok::<D, PackingError>(v3), res);
                    lemma_unpacked_step_2_of_10::<A, B, C, D, E, F, G, H, I, J>(src@, lens, v0, v1, Ok::<C, PackingError>(v2), res);
                    lemma_unpacked_step_1_of_10::<A, B, C, D, E, F, G, H, I, J>(src@, lens, v0, Ok::<B, PackingError>(v1), res);
                    lemma_unpacked_step_0_of_10::<A, B, C, D, E, F, G, H, I, J>(src@, lens, Ok::<A, PackingError>(v0), res);
                }
                return Err(e);
            },
        };
        let v5 = match F::unpack_from_slice(
            match lib_get_slice(src, ranges[5].start, ranges[5].end) {
                Ok(s) => s,
                Err(e) => {
                    return Err(e);
                },
            },
        ) {
            Ok(v) => v,
            Err(e) => {
                let ghost res = Err::<(A, B, C, D, E, F, G, H, I, J), PackingError>(e);
                proof {
                    lemma_unpacked_step_5_of_10::<A, B, C, D, E, F, G, H, I, J>(src@, lens, v0, v1, v2, v3, v4, Err::<F, PackingError>(e), res);
                    lemma_unpacked_step_4_of_10::<A, B, C, D, E, F, G, H, I, J>(src@, lens, v0, v1, v2, v3, Ok::<E, PackingError>(v4), res);
                    lemma_unpacked_step_3_of_10::<A, B, C, D, E, F, G, H, I, J>(src@, lens, v0, v1, v2, Ok::<D, PackingError>(v3), res);
                    lemma_unpacked_step_2_of_10::<A, B, C, D, E, F, G, H, I, J>(src@, lens, v0, v1, Ok::<C, PackingError>(v2), res);
                    lemma_unpacked_step_1_of_10::<A, B, C, D, E, F, G, H, I, J>(src@, lens, v0, Ok::<B, PackingError>(v1), res);
                    lemma_unpacked_step_0_of_10::<A, B, C, D, E, F, G, H, I, J>(src@, lens, Ok::<A, PackingError>(v0), res);
                }
                return Err(e);
            },
        };
        let v6 = match G::unpack_from_slice(
            match lib_get_slice(src, ranges[6].start, ranges[6].end) {
                Ok(s) => s,
                Err(e) => {
                    return Err(e);
                },
            },
        ) {
            Ok(v) => v,
            Err(e) => {
                let ghost res = Err::<(A, B, C, D, E, F, G, H, I, J), PackingError>(e);
                proof {
                    lemma_unpacked_step_6_of_10::<A, B, C, D, E, F, G, H, I, J>(src@, lens, v0, v1, v2, v3, v4, v5, Err::<G, PackingError>(e), res);
                    lemma_unpacked_step_5_of_10::<A, B, C, D, E, F, G, H, I, J>(src@, lens, v0, v1, v2, v3, v4, Ok::<F, PackingError>(v5), res);
                    lemma_unpacked_step_4_of_10::<A, B, C, D, E, F, G, H, I, J>(src@, lens, v0, v1, v2, v3, Ok::<E, PackingError>(v4), res);
                    lemma_unpacked_step_3_of_10::<A, B, C, D, E, F, G, H, I, J>(src@, lens, v0, v1, v2, Ok::<D, PackingError>(v3), res);
                    lemma_unpacked_step_2_of_10::<A, B, C, D, E, F, G, H, I, J>(src@, lens, v0, v1, Ok::<C, PackingError>(v2), res);
                    lemma_unpacked_step_1_of_10::<A, B, C, D, E, F, G, H, I, J>(src@, lens, v0, Ok::<B, PackingError>(v1), res);
                    lemma_unpacked_step_0_of_10::<A, B, C, D, E, F, G, H, I, J>(src@, lens, Ok::<A, PackingError>(v0), res);
                }
                return Err(e);
            },
        };
        let v7 = match H::unpack_from_slice(
            match lib_get_slice(src, ranges[7].start, ranges[7].end) {
                Ok(s) => s,
                Err(e) => {
                    return Err(e);
                },
            },
        ) {
            Ok(v) => v,
            Err(e) => {
                let ghost res = Err::<(A, B, C, D, E, F, G, H, I, J), PackingError>(e);
                proof {
                    lemma_unpacked_step_7_of_10::<A, B, C, D, E, F, G, H, I, J>(src@, lens, v0, v1, v2, v3, v4, v5, v6, Err::<H, PackingError>(e), res);
                    lemma_unpacked_step_6_of_10::<A, B, C, D, E, F, G, H, I, J>(src@, lens, v0, v1, v2, v3, v4, v5, Ok::<G, PackingError>(v6), res);
                    lemma_unpacked_step_5_of_10::<A, B, C, D, E, F, G, H, I, J>(src@, lens, v0, v1, v2, v3, v4, Ok::<F, PackingError>(v5), res);
                    lemma_unpacked_step_4_of_10::<A, B, C, D, E, F, G, H, I, J>(src@, lens, v0, v1, v2, v3, Ok::<E, PackingError>(v4), res);
                    lemma_unpacked_step_3_of_10::<A, B, C, D, E, F, G, H, I, J>(src@, lens, v0, v1, v2, Ok::<D, PackingError>(v3), res);
                    lemma_unpacked_step_2_of_10::<A, B, C, D, E, F, G, H, I, J>(src@, lens, v0, v1, Ok::<C, PackingError>(v2), res);
                    lemma_unpacked_step_1_of_10::<A, B, C, D, E, F, G, H, I, J>(src@, lens, v0, Ok::<B, PackingError>(v1), res);
                    lemma_unpacked_step_0_of_10::<A, B, C, D, E, F, G, H, I, J>(src@, lens, Ok::<A, PackingError>(v0), res);
                }
                return Err(e);
            },
        };
        let v8 = match I::unpack_from_slice(
            match lib_get_slice(src, ranges[8].start, ranges[8].end) {
                Ok(s) => s,
                Err(e) => {
                    return Err(e);
                },
            },
        ) {
            Ok(v) => v,
            Err(e) => {
                let ghost res = Err::<(A, B, C, D, E, F, G, H, I, J), PackingError>(e);
                proof {
                    lemma_unpacked_step_8_of_10::<A, B, C, D, E, F, G, H, I, J>(src@, lens, v0, v1, v2, v3, v4, v5, v6, v7, Err::<I, PackingError>(e), res);
                    lemma_unpacked_step_7_of_10::<A, B, C, D, E, F, G, H, I, J>(src@, lens, v0, v1, v2, v3, v4, v5, v6, Ok::<H, PackingError>(v7), res);
                    lemma_unpacked_step_6_of_10::<A, B, C, D, E, F, G, H, I, J>(src@, lens, v0, v1, v2, v3, v4, v5, Ok::<G, PackingError>(v6), res);
                    lemma_unpacked_step_5_of_10::<A, B, C, D, E, F, G, H, I, J>(src@, lens, v0, v1, v2, v3, v4, Ok::<F, PackingError>(v5), res);
                    lemma_unpacked_step_4_of_10::<A, B, C, D, E, F, G, H, I, J>(src@, lens, v0, v1, v2, v3, Ok::<E, PackingError>(v4), res);
                    lemma_unpacked_step_3_of_10::<A, B, C, D, E, F, G, H, I, J>(src@, lens, v0, v1, v2, Ok::<D, PackingError>(v3), res);
                    lemma_unpacked_step_2_of_10::<A, B, C, D, E, F, G, H, I, J>(src@, lens, v0, v1, Ok::<C, PackingError>(v2), res);
                    lemma_unpacked_step_1_of_10::<A, B, C, D, E, F, G, H, I, J>(src@, lens, v0, Ok::<B, PackingError>(v1), res);
                    lemma_unpacked_step_0_of_10::<A, B, C, D, E, F, G, H, I, J>(src@, lens, Ok::<A, PackingError>(v0), res);
                }
                return Err(e);
            },
        };
        let v9 = match J::unpack_from_slice(
            match lib_get_slice(src, ranges[9].start, ranges[9].end) {
                Ok(s) => s,
                Err(e) => {
                    return Err(e);
                },
            },
        ) {
            Ok(v) => v,
            Err(e) => {
                let ghost res = Err::<(A, B, C, D, E, F, G, H, I, J), PackingError>(e);
                proof {
                    lemma_unpacked_step_9_of_10::<A, B, C, D, E, F, G, H, I, J>(src@, lens, v0, v1, v2, v3, v4, v5, v6, v7, v8, Err::<J, PackingError>(e), res);
                    lemma_unpacked_step_8_of_10::<A, B, C, D, E, F, G, H, I, J>(src@, lens, v0, v1, v2, v3, v4, v5, v6, v7, Ok::<I, PackingError>(v8), res);
                    lemma_unpacked_step_7_of_10::<A, B, C, D, E, F, G, H, I, J>(src@, lens, v0, v1, v2, v3, v4, v5, v6, Ok::<H, PackingError>(v7), res);
                    lemma_unpacked_step_6_of_10::<A, B, C, D, E, F, G, H, I, J>(src@, lens, v0, v1, v2, v3, v4, v5, Ok::<G, PackingError>(v6), res);
                    lemma_unpacked_step_5_of_10::<A, B, C, D, E, F, G, H, I, J>(src@, lens, v0, v1, v2, v3, v4, Ok::<F, PackingError>(v5), res);
                    lemma_unpacked_step_4_of_10::<A, B, C, D, E, F, G, H, I, J>(src@, lens, v0, v1, v2, v3, Ok::<E, PackingError>(v4), res);
                    lemma_unpacked_step_3_of_10::<A, B, C, D, E, F, G, H, I, J>(src@, lens, v0, v1, v2, Ok::<D, PackingError>(v3), res);
                    lemma_unpacked_step_2_of_10::<A, B, C, D, E, F, G, H, I, J>(src@, lens, v0, v1, Ok::<C, PackingError>(v2), res);
                    lemma_unpacked_step_1_of_10::<A, B, C, D, E, F, G, H, I, J>(src@, lens, v0, Ok::<B, PackingError>(v1), res);
                    lemma_unpacked_step_0_of_10::<A, B, C, D, E, F, G, H, I, J>(src@, lens, Ok::<A, PackingError>(v0), res);
                }
                return Err(e);
            },
        };
        proof {
            lemma_unpacked_all_of_10::<A, B, C, D, E, F, G, H, I, J>(src@, lens, v0, v1, v2, v3, v4, v5, v6, v7, v8, v9);
        }
        let ghost res = Ok::<(A, B, C, D, E, F, G, H, I, J), PackingError>((v0, v1, v2, v3, v4, v5, v6, v7, v8, v9));
        proof {
            lemma_unpacked_step_9_of_10::<A, B, C, D, E, F, G, H, I, J>(src@, lens, v0, v1, v2, v3, v4, v5, v6, v7, v8, Ok::<J, PackingError>(v9), res);
            lemma_unpacked_step_8_of_10::<A, B, C, D, E, F, G, H, I, J>(src@, lens, v0, v1, v2, v3, v4, v5, v6, v7, Ok::<I, PackingError>(v8), res);
            lemma_unpacked_step_7_of_10::<A, B, C, D, E, F, G, H, I, J>(src@, lens, v0, v1, v2, v3, v4, v5, v6, Ok::<H, PackingError>(v7), res);
            lemma_unpacked_step_6_of_10::<A, B, C, D, E, F, G, H, I, J>(src@, lens, v0, v1, v2, v3, v4, v5, Ok::<G, PackingError>(v6), res);
            lemma_unpacked_step_5_of_10::<A, B, C, D, E, F, G, H, I, J>(src@, lens, v0, v1, v2, v3, v4, Ok::<F, PackingError>(v5), res);
            lemma_unpacked_step_4_of_10::<A, B, C, D, E, F, G, H, I, J>(src@, lens, v0, v1, v2, v3, Ok::<E, PackingError>(v4), res);
            lemma_unpacked_step_3_of_10::<A, B, C, D, E, F, G, H, I, J>(src@, lens, v0, v1, v2, Ok::<D, PackingError>(v3), res);
            lemma_unpacked_step_2_of_10::<A, B, C, D, E, F, G, H, I, J>(src@, lens, v0, v1, Ok::<C, PackingError>(v2), res);
            lemma_unpacked_step_1_of_10::<A, B, C, D, E, F, G, H, I, J>(src@, lens, v0, Ok::<B, PackingError>(v1), res);
            lemma_unpacked_step_0_of_10::<A, B, C, D, E, F, G, H, I, J>(src@, lens, Ok::<A, PackingError>(v0), res);
        }
        Ok((v0, v1, v2, v3, v4, v5, v6, v7, v8, v9))
    }

    fn packed_bytes_size(opt_self: Option<&Self>) -> (r: PackingResult<usize>) {
        let s0 = match A::packed_bytes_size(
            match opt_self {
                Some(s) => Some(&s.0),
                None => None,
            },
        ) {
            Ok(s) => s,
            Err(e) => {
                return Err(e);
            },
        };
        let s1 = match B::packed_bytes_size(
            match opt_self {
                Some(s) => Some(&s.1),
                None => None,
            },
        ) {
            Ok(s) => s,
            Err(e) => {
                return Err(e);
            },
        };
        let s2 = match C::packed_bytes_size(
            match opt_self {
                Some(s) => Some(&s.2),
                None => None,
            },
        ) {
            Ok(s) => s,
            Err(e) => {
                return Err(e);
            },
        };
        let s3 = match D::packed_bytes_size(
            match opt_self {
                Some(s) => Some(&s.3),
                None => None,
            },
        ) {
            Ok(s) => s,
            Err(e) => {
                return Err(e);
            },
        };
        let s4 = match E::packed_bytes_size(
            match opt_self {
                Some(s) => Some(&s.4),
                None => None,
            },
        ) {
            Ok(s) => s,
            Err(e) => {
                return Err(e);
            },
        };
        let s5 = match F::packed_bytes_size(
            match opt_self {
                Some(s) => Some(&s.5),
                None => None,
            },
        ) {
            Ok(s) => s,
            Err(e) => {
                return Err(e);
            },
        };
        let s6 = match G::packed_bytes_size(
            match opt_self {
                Some(s) => Some(&s.6),
                None => None,
            },
        ) {
            Ok(s) => s,
            Err(e) => {
                return Err(e);
            },
        };
        let s7 = match H::packed_bytes_size(
            match opt_self {
                Some(s) => Some(&s.7),
                None => None,
            },
        ) {
            Ok(s) => s,
            Err(e) => {
                return Err(e);
            },
        };
        let s8 = match I::packed_bytes_size(
            match opt_self {
                Some(s) => Some(&s.8),
                None => None,
            },
        ) {
            Ok(s) => s,
            Err(e) => {
                return Err(e);
            },
        };
        let s9 = match J::packed_bytes_size(
            match opt_self {
                Some(s) => Some(&s.9),
                None => None,
            },
        ) {
            Ok(s) => s,
            Err(e) => {
                return Err(e);
            },
        };
        let mut total: usize = 0;
        total = match total.checked_add(s0) {
            Some(t) => t,
            None => {
                return Err(PackingError::InternalError);
            },
        };
        total = match total.checked_add(s1) {
            Some(t) => t,
            None => {
                return Err(PackingError::InternalError);
            },
        };
        total = match total.checked_add(s2) {
            Some(t) => t,
            None => {
                return Err(PackingError::InternalError);
            },
        };
        total = match total.checked_add(s3) {
            Some(t) => t,
            None => {
                return Err(PackingError::InternalError);
            },
        };
        total = match total.checked_add(s4) {
            Some(t) => t,
            None => {
                return Err(PackingError::InternalError);
            },
        };
        total = match total.checked_add(s5) {
            Some(t) => t,
            None => {
                return Err(PackingError::InternalError);
            },
        };
        total = match total.checked_add(s6) {
            Some(t) => t,
            None => {
                return Err(PackingError::InternalError);
            },
        };
        total = match total.checked_add(s7) {
            Some(t) => t,
            None => {
                return Err(PackingError::InternalError);
            },
        };
        total = match total.checked_add(s8) {
            Some(t) => t,
            None => {
                return Err(PackingError::InternalError);
            },
        };
        total = match total.checked_add(s9) {
            Some(t) => t,
            None => {
                return Err(PackingError::InternalError);
            },
        };
        Ok(total)
    }
}

} // verus!
