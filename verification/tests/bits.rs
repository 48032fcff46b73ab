use packed_struct::bits::{bytes_required_for_bits, ones, BitsGet, BitsSet};

#[test]
fn bits_test_u8() {
    {
        let n: u8 = 0b10000001;

        let m = n.get_bits_msb(0, 1).unwrap();
        assert_eq!(1, m);

        let m = n.get_bits_msb(7, 1).unwrap();
        assert_eq!(1, m);
    }

    {
        let n: u8 = 0b00110100;

        let m = n.get_bits_msb(0, 4).unwrap();
        assert_eq!(0b0011, m);

        let m = n.get_bits_msb(2, 4).unwrap();
        assert_eq!(0b1101, m);

        let m = n.get_bits_msb(4, 4).unwrap();
        assert_eq!(0b0100, m);

        let m = n.get_bits_msb(0, 8).unwrap();
        assert_eq!(n, m);

        let m = n.get_bits_msb(0, 0).unwrap();
        assert_eq!(0, m);
    }

    {
        let mut n: u8 = 0;
        n.set_bits_msb(0, 1, 1).unwrap();
        assert_eq!(1 << 7, n);

        let mut n: u8 = 0;
        n.set_bits_msb(7, 1, 1).unwrap();
        assert_eq!(1, n);

        let mut n: u8 = 0;
        n.set_bits_msb(0, 8, 124).unwrap();
        assert_eq!(124, n);
    }

    {
        let mut n: u8 = 0b10101010;

        n.set_bits_msb(1, 1, 1).unwrap();
        assert_eq!(0b11101010, n);
    }
}

#[test]
fn test_u8_slice_read() {
    let n = [0b00010001, 0b11001100];
    assert_eq!(17, n[0]);
    assert_eq!(204, n[1]);

    assert_eq!(17, n.get_bits_msb(0, 8).unwrap());
    assert_eq!(204, n.get_bits_msb(8, 8).unwrap());

    assert_eq!(0b11, n.get_bits_msb(7, 2).unwrap());
    assert_eq!(0b0111, n.get_bits_msb(6, 4).unwrap());

    assert_eq!(0b00011100, n.get_bits_msb(4, 8).unwrap());

    assert_eq!(0b1, n.get_bits_msb(7, 1).unwrap());
    assert_eq!(0b1, n.get_bits_msb(8, 1).unwrap());
    assert_eq!(0b0, n.get_bits_msb(15, 1).unwrap());
}

#[test]
fn test_u8_slice_write() {
    {
        let mut n = [0, 0];
        n.set_bits_msb(6, 4, 0b1001).unwrap();
        assert_eq!(&[0b00000010, 0b01000000], &n);
    }

    {
        let mut n = [0b01000000, 0b00000010];
        n.set_bits_msb(6, 4, 0b1001).unwrap();
        assert_eq!(&[0b01000010, 0b01000010], &n);
    }
}

#[test]
fn test_large_write() {
    let mut n = [128; 32];
    n.set_bits_msb(0, 8, 255).unwrap();
    n.set_bits_msb(64 + 1, 1, 1).unwrap();
    n.set_bits_msb(72, 8, 133).unwrap();
    n.set_bits_msb((31 * 8) + 7, 1, 1).unwrap();
    assert_eq!(n[0], 255);
    assert_eq!(n[8], 128 + 64);
    assert_eq!(n[9], 133);
    assert_eq!(n[31], 129);
}

#[test]
fn test_slice_write() {
    {
        let mut n = [0, 0];
        n.set_bits_msb_slice(0, 16, &[0b10101010, 0b01010101]).unwrap();
        assert_eq!(&n, &[0b10101010, 0b01010101]);
    }

    {
        let mut n = [0; 4];
        n.set_bits_msb_slice(0, 32, &[255; 4]).unwrap();
        assert_eq!(&n, &[255; 4]);
    }
}

#[test]
fn test_slice_read() {
    {
        let n = [0b00001111, 0b11110000];
        let mut m = [0; 2];
        n.get_bits_msb_slice(0, 16, &mut m).unwrap();
        assert_eq!(&n, &m);
    }
}

#[test]
fn test_bits_slice() {
    let n = [128; 4];
    let s: &[u8] = &n;
    assert_eq!(128, s.get_bits_msb(0, 8).unwrap());
}

#[test]
fn test_ones() {
    for i in 0..33 {
        let n = ones(i);
        assert_eq!(i, n.count_ones());
    }
}

#[test]
fn bytes_required_rounds_up() {
    assert_eq!(0, bytes_required_for_bits(0));
    assert_eq!(1, bytes_required_for_bits(1));
    assert_eq!(1, bytes_required_for_bits(8));
    assert_eq!(2, bytes_required_for_bits(9));
    assert_eq!(256, bytes_required_for_bits(2048));
}

#[test]
fn slice_read_straddles_unevenly() {
    // Two bits in the first byte and one in the second.
    let n = [0b0000_0010u8, 0b1000_0000];
    assert_eq!(0b101, n.get_bits_msb(6, 3).unwrap());
    let mut m = [0u8, 0];
    m.set_bits_msb(6, 3, 0b101).unwrap();
    assert_eq!([0b0000_0010, 0b1000_0000], m);
    assert!(n.get_bits_msb(16, 1).is_err());
    assert!(n.get_bits_msb(0, 9).is_err());
    assert!(n.get_bits_msb(12, 5).is_err());
    assert_eq!(0, n.get_bits_msb(99, 0).unwrap());
}
