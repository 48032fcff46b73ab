use packed_struct::packing::PackingError;
use packed_struct::utils::shift_by_bits;

#[test]
fn test_bit_shift() {
    let a = [0b010];
    assert_eq!([0b001], shift_by_bits(&a, 1).unwrap()[..]);
    assert_eq!([0b100], shift_by_bits(&a, -1).unwrap()[..]);

    assert_eq!([0], shift_by_bits(&a, 2).unwrap()[..]);

    let b = [0b1, 0];
    assert_eq!([0, 0b1000_0000], shift_by_bits(&b, 1).unwrap()[..]);

    let c = [0, 0, 1, 2, 3, 0, 0];
    assert_eq!([0, 0, 0, 1, 2, 3, 0], shift_by_bits(&c, 8).unwrap()[..]);
    assert_eq!([0, 1, 2, 3, 0, 0, 0], shift_by_bits(&c, -8).unwrap()[..]);

    let d = [0b1000_0000, 0, 0, 0];
    assert_eq!([0, 0, 0, 0], shift_by_bits(&d, -1).unwrap()[..]);
    assert_eq!([0, 0b1000_0000, 0, 0], shift_by_bits(&d, 8).unwrap()[..]);
    assert_eq!([0, 0b0100_0000, 0, 0], shift_by_bits(&d, 9).unwrap()[..]);
    assert_eq!([0, 0, 0, 1], shift_by_bits(&d, 31).unwrap()[..]);

    let e = [0, 0, 0, 1];
    assert_eq!([0, 0, 0, 0], shift_by_bits(&e, 1).unwrap()[..]);
    assert_eq!([1, 0, 0, 0], shift_by_bits(&e, -24).unwrap()[..]);
    assert_eq!([0b1000_0000, 0, 0, 0], shift_by_bits(&e, -31).unwrap()[..]);
}

#[test]
fn shift_by_all_bits_or_more() {
    let a = [0xFFu8, 0xFF];
    assert_eq!(a.to_vec(), shift_by_bits(&a, 0).unwrap());
    assert_eq!(Err(PackingError::BitsError), shift_by_bits(&a, 16));
    assert_eq!(Err(PackingError::BitsError), shift_by_bits(&a, 17));
    assert_eq!(vec![0, 0], shift_by_bits(&a, -16).unwrap());
    assert_eq!(vec![0xFF, 0xFE], shift_by_bits(&a, -1).unwrap());
}
