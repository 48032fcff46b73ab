use packed_struct::pack::{FieldDecl, FieldTy, NativeInt, PackStruct};
use packed_struct::pack_fields::FieldValue;
use packed_struct::pack_parse::parse_struct;
use packed_struct::pack_parse_attributes::{PackFieldAttribute, PackStructAttribute};

pub struct Rnd {
    seed: u64,
}

impl Rnd {
    pub fn new(seed: u64) -> Rnd {
        Rnd { seed }
    }

    pub fn rnd(&mut self) -> u64 {
        let r = self.seed;
        self.seed = (1103515245 * r + 12345) % (1 << 31);
        r
    }

    pub fn rnd_num(&mut self, max: u64) -> u64 {
        self.rnd() % max
    }
}

fn pairs(attributes: &[(&str, &str)]) -> Vec<(String, String)> {
    attributes.iter().map(|(n, v)| (n.to_string(), v.to_string())).collect()
}

fn field(native: NativeInt, attributes: &[(&str, &str)]) -> FieldDecl {
    FieldDecl {
        ty: FieldTy::Native(native),
        array_size: None,
        attributes: PackFieldAttribute::parse_all(&pairs(attributes)),
    }
}

fn bytes(size: usize) -> FieldDecl {
    FieldDecl { ty: FieldTy::Native(NativeInt::U8), array_size: Some(size), attributes: vec![] }
}

fn roundtrip_struct(first: &str, with_u64: bool) -> PackStruct {
    let mut fields = vec![
        field(NativeInt::U8, &[("bits", first)]),
        field(NativeInt::I8, &[]),
        field(NativeInt::U16, &[("endian", "msb")]),
        field(NativeInt::I16, &[("endian", "msb")]),
        field(NativeInt::U16, &[("endian", "lsb")]),
        field(NativeInt::I16, &[("endian", "lsb")]),
        field(NativeInt::U32, &[("endian", "msb")]),
        field(NativeInt::I32, &[("endian", "msb")]),
        field(NativeInt::U32, &[("endian", "lsb")]),
        field(NativeInt::I32, &[("endian", "lsb")]),
    ];
    if with_u64 {
        fields.push(field(NativeInt::U64, &[("endian", "msb")]));
    }
    fields.extend(vec![bytes(1), bytes(2), bytes(3), bytes(4)]);
    fields.push(FieldDecl { ty: FieldTy::Bool, array_size: None, attributes: vec![] });
    let attributes = PackStructAttribute::parse_all(&pairs(&[("bit_numbering", "msb0")]));
    parse_struct(&attributes, &fields).unwrap()
}

fn values(rnd: &mut Rnd, with_u64: bool) -> Vec<FieldValue> {
    let mut v = vec![
        FieldValue::Integer(rnd.rnd_num(u8::max_value() as u64) as u8 as i128),
        FieldValue::Integer(rnd.rnd_num(i8::max_value() as u64) as i8 as i128),
        FieldValue::Integer(rnd.rnd_num(u16::max_value() as u64) as u16 as i128),
        FieldValue::Integer(rnd.rnd_num(u16::max_value() as u64) as i16 as i128),
        FieldValue::Integer(rnd.rnd_num(u16::max_value() as u64) as u16 as i128),
        FieldValue::Integer(rnd.rnd_num(u16::max_value() as u64) as i16 as i128),
        FieldValue::Integer(rnd.rnd_num(u32::max_value() as u64) as u32 as i128),
        FieldValue::Integer(rnd.rnd_num(i32::max_value() as u64) as i32 as i128),
        FieldValue::Integer(rnd.rnd_num(u32::max_value() as u64) as u32 as i128),
        FieldValue::Integer(rnd.rnd_num(i32::max_value() as u64) as i32 as i128),
    ];
    if with_u64 {
        v.push(FieldValue::Integer(rnd.rnd_num(u64::max_value()) as i128));
    }
    for _ in 0..10 {
        v.push(FieldValue::Integer(rnd.rnd_num(u8::max_value() as u64) as u8 as i128));
    }
    v.push(FieldValue::Bool((rnd.rnd() % 2) == 0));
    v
}

#[test]
fn test_roundtrip_1() {
    let roundtrip_aligned = roundtrip_struct("0..", true);
    let mut rnd = Rnd::new(1);

    for _ in 0..100 {
        let s = values(&mut rnd, true);

        let packed = roundtrip_aligned.pack(&s).unwrap();

        let unpacked = roundtrip_aligned.unpack(&packed).unwrap();
        assert_eq!(&s, &unpacked);
    }
}

#[test]
fn test_roundtrip_2() {
    let roundtrip_unaligned = roundtrip_struct("1..", false);
    let mut rnd = Rnd::new(1);

    for _ in 0..100 {
        let s = values(&mut rnd, false);

        let packed = roundtrip_unaligned.pack(&s).unwrap();

        let unpacked = roundtrip_unaligned.unpack(&packed).unwrap();
        assert_eq!(&s, &unpacked);
    }
}

#[test]
fn signed_fields_at_both_ends_of_their_range() {
    for bits in 1..=16usize {
        let ps = parse_struct(
            &PackStructAttribute::parse_all(&pairs(&[("bit_numbering", "msb0"), ("endian", "msb")])),
            &vec![field(NativeInt::I16, &[("bits", "3.."), ("size_bits", &bits.to_string())])],
        )
        .unwrap();
        let min = -(1i128 << (bits - 1));
        let max = (1i128 << (bits - 1)) - 1;
        for v in [min, max, 0, -1] {
            let v = if bits == 1 && v == 0 { 0 } else { v };
            let packed = ps.pack(&vec![FieldValue::Integer(v)]).unwrap();
            assert_eq!(vec![FieldValue::Integer(v)], ps.unpack(&packed).unwrap(), "{} bits", bits);
        }
        // One more than the greatest number is the least.
        if bits < 16 {
            let packed = ps.pack(&vec![FieldValue::Integer(max + 1)]).unwrap();
            assert_eq!(vec![FieldValue::Integer(min)], ps.unpack(&packed).unwrap());
        }
    }
}
