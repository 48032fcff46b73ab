//! Helpers for vectors of slice-packable structures

use vstd::prelude::*;
use crate::packing::{PackedStructSlice, PackingError, PackingResult, copy_into, lib_get_slice};
use crate::types_tuples::{append_member, spec_item_packed};

verus! {

/// The packed bytes of the first `n` items, each of them packed into
/// `size` bytes, or the first error of packing one.
pub open spec fn spec_items_packed<T: PackedStructSlice>(items: Seq<T>, size: usize, n: nat) -> PackingResult<
    Seq<u8>,
>
    decreases n,
{
    if n == 0 {
        Ok(Seq::<u8>::empty())
    } else {
        match spec_items_packed(items, size, (n - 1) as nat) {
            Err(e) => Err(e),
            Ok(bytes) => match spec_item_packed(items[n - 1], size) {
                Err(e) => Err(e),
                Ok(b) => Ok(bytes + b),
            },
        }
    }
}

/// The bytes of item `i` among bytes that hold items of `size` bytes.
pub open spec fn spec_chunk(src: Seq<u8>, size: usize, i: int) -> Seq<u8> {
    src.subrange(i * size, (i + 1) * size)
}

/// The first `n` items pack into `n * size` bytes.
pub proof fn lemma_items_packed_len<T: PackedStructSlice>(items: Seq<T>, size: usize, n: nat)
    requires
        spec_items_packed(items, size, n) is Ok,
    ensures
        spec_items_packed(items, size, n)->Ok_0.len() == n * size,
    decreases n,
{
    reveal(spec_item_packed);
    if n > 0 {
        lemma_items_packed_len(items, size, (n - 1) as nat);
        assert(n * size == (n - 1) * size + size) by (nonlinear_arith);
    } else {
        assert(0 * size == 0) by (nonlinear_arith);
    }
}

/// Once an item cannot be packed, the later ones change nothing.
pub proof fn lemma_items_error_sticks<T: PackedStructSlice>(items: Seq<T>, size: usize, n: nat, m: nat)
    requires
        n <= m,
        spec_items_packed(items, size, n) is Err,
    ensures
        spec_items_packed(items, size, m) == spec_items_packed(items, size, n),
    decreases m,
{
    if n < m {
        lemma_items_error_sticks(items, size, n, (m - 1) as nat);
    }
}

/// This can only be used as a vector of structures that have a statically
/// known size
impl<T: PackedStructSlice> PackedStructSlice for Vec<T> {
    open spec fn spec_packed_bytes_size(opt_self: Option<&Self>) -> PackingResult<usize> {
        match opt_self {
            None => Err(PackingError::InstanceRequiredForSize),
            Some(s) => match T::spec_packed_bytes_size(None) {
                Err(e) => Err(e),
                Ok(size) => if s@.len() * size > usize::MAX {
                    Err(PackingError::InternalError)
                } else {
                    Ok((s@.len() * size) as usize)
                },
            },
        }
    }

    open spec fn spec_packed(&self) -> PackingResult<Seq<u8>> {
        match T::spec_packed_bytes_size(None) {
            Err(e) => Err(e),
            Ok(size) => spec_items_packed(self@, size, self@.len()),
        }
    }

    open spec fn spec_unpacked_from_slice(src: Seq<u8>, r: PackingResult<Self>) -> bool {
        match T::spec_packed_bytes_size(None) {
            Err(e) => r == Err::<Self, PackingError>(e),
            Ok(item_size) => if item_size == 0 || src.len() == 0 {
                r is Ok && r->Ok_0@.len() == 0
            } else if src.len() % (item_size as nat) != 0 {
                r == Err::<Self, PackingError>(
                    PackingError::BufferModMismatch {
                        actual_size: src.len() as usize,
                        modulo_required: item_size,
                    },
                )
            } else {
                match r {
                    Ok(v) => v@.len() == src.len() / (item_size as nat) && forall|i: int|
                        0 <= i < v@.len() ==> T::spec_unpacked_from_slice(
                            #[trigger] spec_chunk(src, item_size, i),
                            Ok::<T, PackingError>(v@[i]),
                        ),
                    Err(e) => exists|i: int|
                        0 <= i < src.len() / (item_size as nat) && T::spec_unpacked_from_slice(
                            #[trigger] spec_chunk(src, item_size, i),
                            Err::<T, PackingError>(e),
                        ),
                }
            },
        }
    }

    fn pack_to_slice(&self, output: &mut [u8]) -> (r: PackingResult<()>) {
        let expected_size = match Self::packed_bytes_size(Some(self)) {
            Ok(size) => size,
            Err(e) => {
                return Err(e);
            },
        };
        if output.len() != expected_size {
            return Err(
                PackingError::BufferSizeMismatch { expected: expected_size, actual: output.len() },
            );
        }
        let size = match T::packed_bytes_size(None) {
            Ok(size) => size,
            Err(e) => {
                return Err(e);
            },
        };
        let n = self.len();
        let mut packed: Vec<u8> = Vec::new();
        let mut i: usize = 0;
        while i < n
            invariant
                i <= n,
                n == self@.len(),
                output@ == old(output)@,
                output@.len() == n * size,
                expected_size == n * size,
                T::spec_packed_bytes_size(None) == Ok::<usize, PackingError>(size),
                spec_items_packed(self@, size, i as nat) == Ok::<Seq<u8>, PackingError>(packed@),
            decreases n - i,
        {
            match append_member(&self[i], size, &mut packed) {
                Ok(()) => {},
                Err(e) => {
                    proof {
                        assert(spec_items_packed(self@, size, (i + 1) as nat) == Err::<
                            Seq<u8>,
                            PackingError,
                        >(e));
                        lemma_items_error_sticks(self@, size, (i + 1) as nat, n as nat);
                    }
                    return Err(e);
                },
            }
            i += 1;
        }
        proof {
            lemma_items_packed_len(self@, size, n as nat);
        }
        copy_into(output, 0, packed.as_slice());
        assert(output@ =~= packed@);
        Ok(())
    }

    fn unpack_from_slice(src: &[u8]) -> (r: PackingResult<Self>) {
        let item_size = match T::packed_bytes_size(None) {
            Ok(size) => size,
            Err(e) => {
                return Err(e);
            },
        };
        if item_size == 0 || src.len() == 0 {
            return Ok(Vec::new());
        }
        let modulo = src.len() % item_size;
        if modulo != 0 {
            return Err(
                PackingError::BufferModMismatch { actual_size: src.len(), modulo_required: item_size },
            );
        }
        let total = src.len();
        let n = src.len() / item_size;
        assert(n * item_size == src@.len()) by (nonlinear_arith)
            requires
                n == src@.len() / (item_size as nat),
                src@.len() % (item_size as nat) == 0,
                item_size > 0,
        ;
        let mut vec: Vec<T> = Vec::with_capacity(n);
        let mut i: usize = 0;
        while i < n
            invariant
                i <= n,
                item_size > 0,
                src@.len() > 0,
                src@.len() % (item_size as nat) == 0,
                T::spec_packed_bytes_size(None) == Ok::<usize, PackingError>(item_size),
                n == src@.len() / (item_size as nat),
                n * item_size == src@.len(),
                total == src@.len(),
                vec@.len() == i,
                forall|k: int|
                    0 <= k < i ==> T::spec_unpacked_from_slice(
                        #[trigger] spec_chunk(src@, item_size, k),
                        Ok::<T, PackingError>(vec@[k]),
                    ),
            decreases n - i,
        {
            proof {
                assert((i + 1) * item_size == i * item_size + item_size) by (nonlinear_arith);
                assert((i + 1) * item_size <= n * item_size) by (nonlinear_arith)
                    requires
                        i + 1 <= n,
                ;
                assert(0 <= i * item_size) by (nonlinear_arith)
                    requires
                        i >= 0,
                        item_size >= 0,
                ;
            }
            let item_src = match lib_get_slice(src, i * item_size, (i + 1) * item_size) {
                Ok(s) => s,
                Err(e) => {
                    return Err(e);
                },
            };
            assert(item_src@ == spec_chunk(src@, item_size, i as int));
            let item = match T::unpack_from_slice(item_src) {
                Ok(item) => item,
                Err(e) => {
                    assert(T::spec_unpacked_from_slice(
                        spec_chunk(src@, item_size, i as int),
                        Err::<T, PackingError>(e),
                    ));
                    return Err(e);
                },
            };
            vec.push(item);
            i += 1;
        }
        Ok(vec)
    }

    fn packed_bytes_size(opt_self: Option<&Self>) -> (r: PackingResult<usize>) {
        match opt_self {
            None => Err(PackingError::InstanceRequiredForSize),
            Some(s) => {
                let size = match T::packed_bytes_size(None) {
                    Ok(size) => size,
                    Err(e) => {
                        return Err(e);
                    },
                };
                match s.len().checked_mul(size) {
                    Some(n) => Ok(n),
                    None => Err(PackingError::InternalError),
                }
            },
        }
    }
}

} // verus!
