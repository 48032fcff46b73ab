use packed_struct::bit_ranges::ones_u8;
use packed_struct::types_bits::bytes_rotate_right;
use packed_struct::types_compact::UIntBits1;

#[test]
fn test_ones_u8() {
    let t = [
        (0, 0),
        (1, 0b10000000),
        (2, 0b11000000),
        (3, 0b11100000),
        (4, 0b11110000),
        (5, 0b11111000),
        (6, 0b11111100),
        (7, 0b11111110),
        (8, 0b11111111),
        (9, 0b11111111),
    ];

    for &(n, expected) in &t {
        assert_eq!(expected, ones_u8(n));
    }
}

#[test]
fn test_conv() {
    let c: UIntBits1 = 1.into();
    let b: u8 = *c;

    assert_eq!(b, 1);
}

#[test]
fn test_byte_rotation() {
    let mut a = [0xCC, 0xBB, 0xAA, 0x00];
    bytes_rotate_right(&mut a, 1);
    assert_eq!([0x00, 0xCC, 0xBB, 0xAA], a);
}
