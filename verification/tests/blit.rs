use packed_struct::blit::{pack_bits, unpack_bits, zeroed};
use packed_struct::packing::PackingError;

/// The bits `start .. start + width` of the bytes as a number.
fn field_of(bytes: &[u8], start: usize, width: usize) -> u64 {
    let mut v = 0;
    for i in start..start + width {
        v = (v << 1) | ((bytes[i / 8] >> (7 - i % 8)) & 1) as u64;
    }
    v
}

#[test]
fn ten_bits_at_every_offset() {
    let patterns: [u16; 6] = [0, 0b11_1111_1111, 0b10_1010_1010, 0b01_0101_0101, 1, 0b10_0000_0000];
    for start in 0..=22 {
        for pattern in patterns.iter() {
            let packed = [(pattern >> 8) as u8, *pattern as u8];
            let mut target = zeroed(4);
            pack_bits(&mut target, &packed, start, 10).unwrap();
            assert_eq!(*pattern as u64, field_of(&target, start, 10));
            assert_eq!(0, field_of(&target, 0, start));
            assert_eq!(0, field_of(&target, start + 10, 22 - start));
            assert_eq!(packed.to_vec(), unpack_bits(&target, start, 10).unwrap());

            // What stands outside the field is kept, and is not read.
            let mut full = vec![0xFF; 4];
            for i in start..start + 10 {
                full[i / 8] &= !(0x80 >> (i % 8));
            }
            let before = full.clone();
            pack_bits(&mut full, &packed, start, 10).unwrap();
            assert_eq!(*pattern as u64, field_of(&full, start, 10));
            assert_eq!(field_of(&before, 0, start), field_of(&full, 0, start));
            assert_eq!(field_of(&before, start + 10, 22 - start), field_of(&full, start + 10, 22 - start));
            assert_eq!(packed.to_vec(), unpack_bits(&full, start, 10).unwrap());
        }
    }
}

#[test]
fn every_width_at_every_offset() {
    for width in 1..=40usize {
        let len = (width + 7) / 8;
        let packed: Vec<u8> = (0..len).map(|i| 0xA5u8.rotate_left(i as u32) ^ (width as u8)).collect();
        let mut cleared = packed.clone();
        if width % 8 != 0 {
            cleared[0] &= 0xFF >> (8 - width % 8);
        }
        for start in 0..=(64 - width) {
            let mut target = zeroed(8);
            pack_bits(&mut target, &packed, start, width).unwrap();
            assert_eq!(cleared, unpack_bits(&target, start, width).unwrap(), "width {} at {}", width, start);
            assert_eq!(0, field_of(&target, 0, start));
            assert_eq!(0, field_of(&target, start + width, 64 - start - width));
        }
    }
}

#[test]
fn whole_bytes_are_copied_and_other_bits_joined() {
    let mut target = vec![0xFF, 0xFF, 0xFF];
    pack_bits(&mut target, &[0x12], 8, 8).unwrap();
    assert_eq!(vec![0xFF, 0x12, 0xFF], target);
    let mut target = vec![0xF0, 0x0F];
    pack_bits(&mut target, &[0b0000_0101], 6, 3).unwrap();
    assert_eq!(vec![0xF2, 0x8F], target);
    pack_bits(&mut target, &[0x00], 4, 8).unwrap();
    assert_eq!(vec![0xF2, 0x8F], target);
}

#[test]
fn fields_that_do_not_fit() {
    let mut target = vec![0u8; 2];
    assert_eq!(Err(PackingError::BitsError), pack_bits(&mut target, &[1], 15, 2));
    assert_eq!(Err(PackingError::BitsError), pack_bits(&mut target, &[1, 2, 3], 0, 17));
    assert_eq!(
        Err(PackingError::BufferSizeMismatch { expected: 2, actual: 1 }),
        pack_bits(&mut target, &[1], 0, 9)
    );
    assert_eq!(
        Err(PackingError::BufferSizeMismatch { expected: 0, actual: 1 }),
        pack_bits(&mut target, &[1], 0, 0)
    );
    assert_eq!(Ok(()), pack_bits(&mut target, &[], 99, 0));
    assert_eq!(vec![0, 0], target);
    assert_eq!(Err(PackingError::BitsError), unpack_bits(&target, 9, 8));
    assert_eq!(Ok(vec![]), unpack_bits(&target, 99, 0));
    assert_eq!(Ok(vec![0]), unpack_bits(&target, 15, 1));
}
