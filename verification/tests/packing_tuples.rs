use packed_struct::packing::{PackedStructSlice, PackingError};
use packed_struct::types_tuples::{StructLength, StructLengthBuilder, StructLengths};

#[test]
fn test_tuple() {
    let p = [127, 127, 127];
    type T = (u8, u8, u8);
    let (a, b, c) = T::unpack_from_slice(&p).unwrap();
    assert_eq!(a, 127);
    assert_eq!(b, 127);
    assert_eq!(c, 127);
}

#[test]
fn test_tuple_undersized() {
    let p = [127];
    type T = (u8, u8, Vec<u8>);
    let res = T::unpack_from_slice(&p);
    assert!(res.is_err());
}

#[test]
fn tuple_with_one_vector_takes_what_is_left() {
    // Two members of four bytes around a vector: the vector takes the
    // total less the eight bytes of the others.
    type Message = (([u8; 4], Vec<u8>), [u8; 4]);
    let raw = [1, 2, 3, 4, 0x20, 0x21, 0x22, 0x23, 0x24, 5, 6, 7, 8];
    type Inner = ([u8; 4], Vec<u8>, [u8; 4]);
    let (head, body, tail) = Inner::unpack_from_slice(&raw).unwrap();
    assert_eq!([1, 2, 3, 4], head);
    assert_eq!(vec![0x20, 0x21, 0x22, 0x23, 0x24], body);
    assert_eq!(5, body.len());
    assert_eq!([5, 6, 7, 8], tail);
    let packed = (head, body, tail).pack_to_vec().unwrap();
    assert_eq!(&raw[..], &packed[..]);
    let _unused: Option<Message> = None;
}

#[test]
fn tuple_with_two_vectors_is_refused() {
    type T = (Vec<u8>, u8, Vec<u8>);
    let res = T::unpack_from_slice(&[1, 2, 3]);
    assert_eq!(Err(PackingError::MoreThanOneDynamicType), res);
}

#[test]
fn tuple_of_wrong_size_is_refused() {
    type T = (u8, u8);
    let res = T::unpack_from_slice(&[1, 2, 3]);
    assert_eq!(Err(PackingError::BufferSizeMismatch { expected: 2, actual: 3 }), res);
    let mut out = [0u8; 3];
    let res = (1u8, 2u8).pack_to_slice(&mut out);
    assert_eq!(Err(PackingError::BufferSizeMismatch { expected: 2, actual: 3 }), res);
}

#[test]
fn lengths_of_members() {
    let mut builder = StructLengthBuilder::new();
    assert_eq!(Ok(StructLength::Static(4)), builder.add_size(Ok(4)));
    assert_eq!(Ok(StructLength::Dynamic), builder.add_size(Err(PackingError::InstanceRequiredForSize)));
    assert_eq!(Err(PackingError::InvalidValue), builder.add_size(Err(PackingError::InvalidValue)));
    assert_eq!(Ok(StructLength::Static(4)), builder.add::<[u8; 4]>(None));
    let lengths = builder.build(13).unwrap();
    assert_eq!(&[0..4, 4..9, 9..13], lengths.get_ranges().unwrap());

    let mut builder = StructLengthBuilder::new();
    builder.add_size(Ok(4)).unwrap();
    builder.add_size(Ok(usize::MAX)).unwrap();
    assert_eq!(
        Err(PackingError::BufferSizeMismatch { expected: usize::MAX, actual: 20 }),
        builder.build(20).map(|_| ())
    );

    let mut builder = StructLengthBuilder::new();
    for _ in 0..16 {
        builder.add::<u8>(None).unwrap();
    }
    assert_eq!(Err(PackingError::SliceIndexingError { slice_len: 16 }), builder.add::<u8>(None));
    assert_eq!(16, builder.build(16).unwrap().get_ranges().unwrap().len());
    assert_eq!(vec![0..2, 2..2, 2..5], StructLengths::new(&vec![2, 0, 3]).unwrap().get_ranges().unwrap());
}

#[test]
fn tuples_of_one_to_ten_members() {
    assert_eq!(Ok((7u8,)), <(u8,)>::unpack_from_slice(&[7]));
    assert_eq!(vec![7], (7u8,).pack_to_vec().unwrap());
    type Ten = (u8, [u8; 2], u8, u8, Vec<u8>, u8, u8, bool, u8, [u8; 1]);
    let raw = [1, 2, 3, 4, 5, 60, 61, 62, 7, 8, 1, 9, 10];
    let t = Ten::unpack_from_slice(&raw).unwrap();
    assert_eq!((1, [2, 3], 4, 5, vec![60, 61, 62], 7, 8, true, 9, [10]), t);
    assert_eq!(raw.to_vec(), t.pack_to_vec().unwrap());
    assert_eq!(Err(PackingError::InstanceRequiredForSize), Ten::packed_bytes_size(None));
    assert_eq!(Ok(13), Ten::packed_bytes_size(Some(&t)));
    type Four = (u8, u8, u8, u8);
    assert_eq!(Ok(4), Four::packed_bytes_size(None));
    assert_eq!(
        Err(PackingError::BufferSizeMismatch { expected: 4, actual: 5 }),
        Four::unpack_from_slice(&[0; 5])
    );
}
