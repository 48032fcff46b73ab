//! The packing traits and the errors they share.

use vstd::prelude::*;
use crate::types_bits::ByteArray;

verus! {

/// Packing errors that might occur during packing or unpacking.
#[derive(Debug, PartialEq, Eq)]
pub enum PackingError {
    /// The bits do not stand for a value of the field's type.
    InvalidValue,
    /// A bit address lies outside the buffer.
    BitsError,
    BufferTooSmall,
    NotImplemented,
    /// The size depends on the value, and no value was given.
    InstanceRequiredForSize,
    /// A tuple holds more than one member of unknown size.
    MoreThanOneDynamicType,
    BufferSizeMismatch { expected: usize, actual: usize },
    BufferModMismatch { actual_size: usize, modulo_required: usize },
    SliceIndexingError { slice_len: usize },
    InternalError,
    UserError(String),
}

pub type PackingResult<T> = Result<T, PackingError>;

impl Clone for PackingError {
    fn clone(&self) -> (r: Self)
        ensures
            r == *self,
    {
        match self {
            PackingError::InvalidValue => PackingError::InvalidValue,
            PackingError::BitsError => PackingError::BitsError,
            PackingError::BufferTooSmall => PackingError::BufferTooSmall,
            PackingError::NotImplemented => PackingError::NotImplemented,
            PackingError::InstanceRequiredForSize => PackingError::InstanceRequiredForSize,
            PackingError::MoreThanOneDynamicType => PackingError::MoreThanOneDynamicType,
            PackingError::BufferSizeMismatch { expected, actual } => PackingError::BufferSizeMismatch {
                expected: *expected,
                actual: *actual,
            },
            PackingError::BufferModMismatch {
                actual_size,
                modulo_required,
            } => PackingError::BufferModMismatch {
                actual_size: *actual_size,
                modulo_required: *modulo_required,
            },
            PackingError::SliceIndexingError { slice_len } => PackingError::SliceIndexingError {
                slice_len: *slice_len,
            },
            PackingError::InternalError => PackingError::InternalError,
            PackingError::UserError(err) => PackingError::UserError(err.clone()),
        }
    }
}

impl PackingError {
    /// A short description of the error.
    pub fn description(&self) -> (r: String)
        ensures
            r@ == (match *self {
                PackingError::InvalidValue => "Invalid value"@,
                PackingError::BitsError => "Bits error"@,
                PackingError::BufferTooSmall => "Buffer too small"@,
                PackingError::BufferSizeMismatch { .. } => "Buffer size mismatched"@,
                PackingError::NotImplemented => "Not implemented"@,
                PackingError::InstanceRequiredForSize =>
                    "This structure's packing size can't be determined statically, an instance is required."@,
                PackingError::BufferModMismatch { .. } =>
                    "The structure's size is not a multiple of the item's size"@,
                PackingError::SliceIndexingError { .. } => "Failed to index into a slice"@,
                PackingError::MoreThanOneDynamicType =>
                    "Only one dynamically sized type is supported in the tuple"@,
                PackingError::InternalError => "Internal error"@,
                PackingError::UserError(err) => err@,
            }),
    {
        match self {
            PackingError::InvalidValue => "Invalid value".to_owned(),
            PackingError::BitsError => "Bits error".to_owned(),
            PackingError::BufferTooSmall => "Buffer too small".to_owned(),
            PackingError::BufferSizeMismatch { .. } => "Buffer size mismatched".to_owned(),
            PackingError::NotImplemented => "Not implemented".to_owned(),
            PackingError::InstanceRequiredForSize =>
                "This structure's packing size can't be determined statically, an instance is required.".to_owned(),
            PackingError::BufferModMismatch { .. } =>
                "The structure's size is not a multiple of the item's size".to_owned(),
            PackingError::SliceIndexingError { .. } => "Failed to index into a slice".to_owned(),
            PackingError::MoreThanOneDynamicType =>
                "Only one dynamically sized type is supported in the tuple".to_owned(),
            PackingError::InternalError => "Internal error".to_owned(),
            PackingError::UserError(err) => err.clone(),
        }
    }
}

/// The part of `src` from `start` up to `end`, or an indexing error.
pub fn lib_get_slice<'a>(src: &'a [u8], start: usize, end: usize) -> (r: PackingResult<&'a [u8]>)
    ensures
        start <= end <= src@.len() ==> (r matches Ok(s) && s@ == src@.subrange(
            start as int,
            end as int,
        )),
        !(start <= end <= src@.len()) ==> r == Err::<&[u8], PackingError>(
            PackingError::SliceIndexingError { slice_len: src@.len() as usize },
        ),
{
    let slice_len = src.len();
    if start <= end && end <= slice_len {
        Ok(vstd::slice::slice_subrange(src, start, end))
    } else {
        Err(PackingError::SliceIndexingError { slice_len })
    }
}

/// Infos about a particular type that can be packaged.
pub trait PackedStructInfo {
    /// Number of bits that a packed value occupies.
    closed spec fn spec_packed_bits() -> nat {
        arbitrary()
    }

    /// Number of bits that this structure occupies when being packed.
    fn packed_bits() -> (bits: usize)
        ensures
            bits == Self::spec_packed_bits(),
    ;
}

/// A structure that can be packed into bytes and unpacked from them.
///
/// A structure of fewer bits than its bytes hold is aligned to the end of
/// the bytes, and the leading bits are ignored: 10 bits pack into
/// `[0b00000011, 0b11111111]`.
pub trait PackedStruct: Sized {
    /// The appropriately sized byte array into which this structure will
    /// be packed, for example `[u8; 2]`.
    type ByteArray: ByteArray;

    /// The bytes that `pack` gives, or its error.
    closed spec fn spec_pack(&self) -> PackingResult<Seq<u8>> {
        arbitrary()
    }

    /// Whether `r` is what `unpack` gives for the bytes `src`.
    closed spec fn spec_unpacked(src: Seq<u8>, r: PackingResult<Self>) -> bool {
        arbitrary()
    }

    /// Packs the structure into a byte array.
    fn pack(&self) -> (r: PackingResult<Self::ByteArray>)
        ensures
            match self.spec_pack() {
                Ok(s) => (r matches Ok(v) && v.bytes() == s),
                Err(e) => r == Err::<Self::ByteArray, PackingError>(e),
            },
    ;

    /// Unpacks the structure from a byte array.
    fn unpack(src: &Self::ByteArray) -> (r: PackingResult<Self>)
        ensures
            Self::spec_unpacked(src.bytes(), r),
    ;
}

/// A structure that puts bytes in front of its packed data.
pub trait PackedStructHeader: PackedStruct + Sized {
    /// The appropriately sized byte array that holds the header, for
    /// example `[u8; 2]`.
    type HeaderByteArray: ByteArray;

    /// Whether `r` is the header for the packed data `data`.
    closed spec fn spec_header(&self, data: Seq<u8>, r: PackingResult<Seq<u8>>) -> bool {
        arbitrary()
    }

    /// Whether `r` is the verdict on bytes that begin with a header.
    /// Unless the structure says otherwise, every header is accepted.
    open spec fn spec_header_valid(src: Seq<u8>, r: PackingResult<()>) -> bool {
        r is Ok
    }

    /// Returns the header data to attach it to the front of the packed data
    fn get_header(&self, data: &[u8]) -> (r: PackingResult<Self::HeaderByteArray>)
        ensures
            self.spec_header(data@, spec_bytes_result(r)),
    ;

    /// Validates the structure/header from a byte array when unpacking.
    fn validate_header(src: &[u8]) -> (r: PackingResult<()>)
        ensures
            Self::spec_header_valid(src@, r),
    ;
}

/// A structure that puts bytes after its packed data.
pub trait PackedStructFooter: PackedStruct + Sized {
    /// The appropriately sized byte array that holds the footer, for
    /// example `[u8; 2]`.
    type FooterByteArray: ByteArray;

    /// Whether `r` is the footer for the packed data `data`.
    closed spec fn spec_footer(&self, data: Seq<u8>, r: PackingResult<Seq<u8>>) -> bool {
        arbitrary()
    }

    /// Whether `r` is the verdict on bytes that end with a footer.
    /// Unless the structure says otherwise, every footer is accepted.
    open spec fn spec_footer_valid(src: Seq<u8>, r: PackingResult<()>) -> bool {
        r is Ok
    }

    /// Returns the footer data to attach it to the end of the packed data
    fn get_footer(&self, data: &[u8]) -> (r: PackingResult<Self::FooterByteArray>)
        ensures
            self.spec_footer(data@, spec_bytes_result(r)),
    ;

    /// Validates the structure/footer from a byte array when unpacking.
    fn validate_footer(src: &[u8]) -> (r: PackingResult<()>)
        ensures
            Self::spec_footer_valid(src@, r),
    ;
}

/// A structure that can be packed and unpacked from a slice of bytes.
pub trait PackedStructSlice: Sized {
    /// The number of bytes of the packed form: of this value, or of
    /// every value of the type where none is given. The error where the
    /// type alone does not tell is `InstanceRequiredForSize`.
    closed spec fn spec_packed_bytes_size(opt_self: Option<&Self>) -> PackingResult<usize> {
        arbitrary()
    }

    /// The packed bytes of the value, or the error of packing it.
    closed spec fn spec_packed(&self) -> PackingResult<Seq<u8>> {
        arbitrary()
    }

    /// Whether `r` is what `unpack_from_slice` gives for the bytes `src`.
    closed spec fn spec_unpacked_from_slice(src: Seq<u8>, r: PackingResult<Self>) -> bool {
        arbitrary()
    }

    /// Pack the structure into an output buffer, which must have the size
    /// of the packed form. On an error the buffer is left as it was.
    fn pack_to_slice(&self, output: &mut [u8]) -> (r: PackingResult<()>)
        ensures
            final(output)@.len() == old(output)@.len(),
            r is Err ==> final(output)@ == old(output)@,
            match Self::spec_packed_bytes_size(Some(self)) {
                Err(e) => r == Err::<(), PackingError>(e),
                Ok(size) => if size != old(output)@.len() {
                    r == Err::<(), PackingError>(
                        PackingError::BufferSizeMismatch {
                            expected: size,
                            actual: old(output)@.len() as usize,
                        },
                    )
                } else {
                    match self.spec_packed() {
                        Ok(s) => r.is_ok() && final(output)@ == s,
                        Err(e) => r == Err::<(), PackingError>(e),
                    }
                },
            },
    ;

    /// Unpack the structure from a buffer.
    fn unpack_from_slice(src: &[u8]) -> (r: PackingResult<Self>)
        ensures
            Self::spec_unpacked_from_slice(src@, r),
    ;

    /// Number of bytes that the type or this particular instance of this
    /// structure demands for packing or unpacking.
    fn packed_bytes_size(opt_self: Option<&Self>) -> (r: PackingResult<usize>)
        ensures
            r == Self::spec_packed_bytes_size(opt_self),
    ;

    /// Packs the structure into a vector of the size of its packed form.
    fn pack_to_vec(&self) -> (r: PackingResult<Vec<u8>>)
        ensures
            match Self::spec_packed_bytes_size(Some(self)) {
                Err(e) => r == Err::<Vec<u8>, PackingError>(e),
                Ok(size) => match self.spec_packed() {
                    Ok(s) => (r matches Ok(v) && v@ == s && s.len() == size),
                    Err(e) => r == Err::<Vec<u8>, PackingError>(e),
                },
            },
    {
        let size = match Self::packed_bytes_size(Some(self)) {
            Ok(size) => size,
            Err(e) => {
                return Err(e);
            },
        };
        let mut buf = crate::blit::zeroed(size);
        match self.pack_to_slice(buf.as_mut_slice()) {
            Ok(()) => {},
            Err(e) => {
                return Err(e);
            },
        }
        Ok(buf)
    }
}

/// Copies `data` into `output` from index `start` on.
pub fn copy_into(output: &mut [u8], start: usize, data: &[u8])
    requires
        start + data@.len() <= old(output)@.len(),
    ensures
        final(output)@ == old(output)@.subrange(0, start as int) + data@ + old(output)@.subrange(
            start + data@.len(),
            old(output)@.len() as int,
        ),
{
    let n = data.len();
    let len = output.len();
    let mut i: usize = 0;
    while i < n
        invariant
            i <= n,
            n == data@.len(),
            len == output@.len(),
            start + n <= output@.len(),
            output@.len() == old(output)@.len(),
            forall|k: int| 0 <= k < start ==> #[trigger] output@[k] == old(output)@[k],
            forall|k: int| start <= k < start + i ==> #[trigger] output@[k] == data@[k - start],
            forall|k: int| start + i <= k < output@.len() ==> #[trigger] output@[k] == old(output)@[k],
        decreases n - i,
    {
        output[start + i] = data[i];
        i += 1;
    }
    assert(output@ =~= old(output)@.subrange(0, start as int) + data@ + old(output)@.subrange(
        start + data@.len(),
        old(output)@.len() as int,
    ));
}

/// The byte array that holds the bytes of `src`, which must be as many
/// as the array has.
pub fn byte_array_of<A: ByteArray>(src: &[u8]) -> (r: A)
    requires
        src@.len() == A::spec_len(),
    ensures
        r.bytes() == src@,
{
    let mut a = A::new(0);
    let s = a.as_mut_bytes_slice();
    copy_into(s, 0, src);
    assert(s@ =~= src@);
    a
}

/// `n` bytes of zero.
pub open spec fn spec_zeros(n: nat) -> Seq<u8> {
    Seq::new(n, |i: int| 0u8)
}

/// What packing with a header and a footer gives once the footer is
/// known.
pub open spec fn spec_footed(
    header: Seq<u8>,
    body: Seq<u8>,
    footer_size: nat,
    rf: PackingResult<Seq<u8>>,
    r: PackingResult<Seq<u8>>,
) -> bool {
    match rf {
        Err(e) => r == Err::<Seq<u8>, PackingError>(e),
        Ok(footer) => if footer.len() != footer_size {
            r == Err::<Seq<u8>, PackingError>(
                PackingError::BufferSizeMismatch {
                    expected: footer_size as usize,
                    actual: footer.len() as usize,
                },
            )
        } else {
            r == Ok::<Seq<u8>, PackingError>(header + body + footer)
        },
    }
}

/// What packing with a header and a footer gives once the header is
/// known: the footer is asked for with the header in its place.
pub open spec fn spec_headed<P: PackedStructHeader + PackedStructFooter>(
    p: P,
    body: Seq<u8>,
    header_size: nat,
    footer_size: nat,
    rh: PackingResult<Seq<u8>>,
    r: PackingResult<Seq<u8>>,
) -> bool {
    match rh {
        Err(e) => r == Err::<Seq<u8>, PackingError>(e),
        Ok(header) => if header.len() != header_size {
            r == Err::<Seq<u8>, PackingError>(
                PackingError::BufferSizeMismatch {
                    expected: header_size as usize,
                    actual: header.len() as usize,
                },
            )
        } else {
            exists|rf: PackingResult<Seq<u8>>| #[trigger]
                p.spec_footer(header + body + spec_zeros(footer_size), rf) && spec_footed(
                    header,
                    body,
                    footer_size,
                    rf,
                    r,
                )
        },
    }
}

/// `r` is what packing with a header and a footer gives: the header,
/// the packed structure and the footer, where the structure packs and
/// gives a header and a footer of the sizes that are asked for. The
/// header is asked for with zeroes in its place and in that of the
/// footer.
pub open spec fn spec_framed<P: PackedStructHeader + PackedStructFooter>(
    p: P,
    header_size: nat,
    footer_size: nat,
    r: PackingResult<Seq<u8>>,
) -> bool {
    match p.spec_pack() {
        Err(e) => r == Err::<Seq<u8>, PackingError>(e),
        Ok(body) => exists|rh: PackingResult<Seq<u8>>| #[trigger]
            p.spec_header(spec_zeros(header_size) + body + spec_zeros(footer_size), rh)
                && spec_headed(p, body, header_size, footer_size, rh, r),
    }
}

/// The result of packing, as contracts speak of it.
pub open spec fn spec_bytes_result<A: ByteArray>(r: PackingResult<A>) -> PackingResult<Seq<u8>> {
    match r {
        Ok(v) => Ok(v.bytes()),
        Err(e) => Err(e),
    }
}

/// The result of packing into a vector, as contracts speak of it.
pub open spec fn spec_vec_result(r: PackingResult<Vec<u8>>) -> PackingResult<Seq<u8>> {
    match r {
        Ok(v) => Ok(v@),
        Err(e) => Err(e),
    }
}

/// Packs a structure between its header and its footer.
pub fn pack_with_header_and_footer<P: PackedStructHeader + PackedStructFooter>(
    p: &P,
    header_size: usize,
    footer_size: usize,
) -> (r: PackingResult<Vec<u8>>)
    ensures
        spec_framed(*p, header_size as nat, footer_size as nat, spec_vec_result(r)),
{
    let packed = match p.pack() {
        Ok(b) => b,
        Err(e) => {
            return Err(e);
        },
    };
    let body = packed.as_bytes_slice();
    let mut data = crate::blit::zeroed(header_size);
    let mut i: usize = 0;
    while i < body.len()
        invariant
            i <= body@.len(),
            data@ == spec_zeros(header_size as nat) + body@.subrange(0, i as int),
        decreases body@.len() - i,
    {
        data.push(body[i]);
        assert(data@ =~= spec_zeros(header_size as nat) + body@.subrange(0, i + 1));
        i += 1;
    }
    let mut i: usize = 0;
    while i < footer_size
        invariant
            i <= footer_size,
            data@ == spec_zeros(header_size as nat) + body@ + spec_zeros(i as nat),
        decreases footer_size - i,
    {
        data.push(0);
        assert(data@ =~= spec_zeros(header_size as nat) + body@ + spec_zeros((i + 1) as nat));
        i += 1;
    }
    let header = p.get_header(data.as_slice());
    let ghost rh = spec_bytes_result(header);
    let header = match header {
        Ok(h) => h,
        Err(e) => {
            return Err(e);
        },
    };
    let header = header.as_bytes_slice();
    if header.len() != header_size {
        return Err(
            PackingError::BufferSizeMismatch { expected: header_size, actual: header.len() },
        );
    }
    copy_into(data.as_mut_slice(), 0, header);
    assert(data@ =~= header@ + body@ + spec_zeros(footer_size as nat));
    let footer = p.get_footer(data.as_slice());
    let ghost rf = spec_bytes_result(footer);
    let footer = match footer {
        Ok(f) => f,
        Err(e) => {
            assert(spec_footed(header@, body@, footer_size as nat, rf, Err(e)));
            return Err(e);
        },
    };
    let footer = footer.as_bytes_slice();
    if footer.len() != footer_size {
        let e = PackingError::BufferSizeMismatch { expected: footer_size, actual: footer.len() };
        assert(spec_footed(header@, body@, footer_size as nat, rf, Err(e)));
        return Err(e);
    }
    let start = data.len() - footer_size;
    copy_into(data.as_mut_slice(), start, footer);
    assert(data@ =~= header@ + body@ + footer@);
    assert(spec_footed(header@, body@, footer_size as nat, rf, Ok(data@)));
    Ok(data)
}

/// `r` is what unpacking between a header and a footer gives: the error
/// of the header or of the footer, that of bytes that are fewer than
/// both, or what unpacking the slice of the bytes between them gives.
pub open spec fn spec_unframed<P: PackedStructHeader + PackedStructFooter>(
    src: Seq<u8>,
    header_size: nat,
    footer_size: nat,
    r: PackingResult<P>,
) -> bool {
    exists|vh: PackingResult<()>| #[trigger]
        P::spec_header_valid(src, vh) && (match vh {
            Err(e) => r == Err::<P, PackingError>(e),
            Ok(_) => exists|vf: PackingResult<()>| #[trigger]
                P::spec_footer_valid(src, vf) && (match vf {
                    Err(e) => r == Err::<P, PackingError>(e),
                    Ok(_) => if src.len() < header_size + footer_size {
                        r == Err::<P, PackingError>(PackingError::BufferTooSmall)
                    } else {
                        P::spec_unpacked_from_slice(
                            src.subrange(header_size as int, src.len() - footer_size),
                            r,
                        )
                    },
                }),
        })
}

/// Unpacks a structure from between its header and its footer, once
/// both are found valid.
pub fn unpack_with_header_and_footer<P: PackedStructHeader + PackedStructFooter>(
    src: &[u8],
    header_size: usize,
    footer_size: usize,
) -> (r: PackingResult<P>)
    ensures
        spec_unframed(src@, header_size as nat, footer_size as nat, r),
{
    match P::validate_header(src) {
        Ok(()) => {},
        Err(e) => {
            return Err(e);
        },
    }
    match P::validate_footer(src) {
        Ok(()) => {},
        Err(e) => {
            return Err(e);
        },
    }
    let n = src.len();
    if n < header_size || n - header_size < footer_size {
        return Err(PackingError::BufferTooSmall);
    }
    P::unpack_from_slice(vstd::slice::slice_subrange(src, header_size, n - footer_size))
}

} // verus!
