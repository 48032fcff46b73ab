use packed_struct::pack::{FieldDecl, FieldTy, NativeInt, PackStruct};
use packed_struct::pack_fields::FieldValue;
use packed_struct::pack_parse::parse_struct;
use packed_struct::pack_parse_attributes::{PackFieldAttribute, PackStructAttribute};
use packed_struct::packing::{
    pack_with_header_and_footer, unpack_with_header_and_footer, PackedStruct, PackedStructFooter,
    PackedStructHeader, PackedStructInfo, PackingError, PackingResult,
};

fn pairs(attributes: &[(&str, &str)]) -> Vec<(String, String)> {
    attributes.iter().map(|(n, v)| (n.to_string(), v.to_string())).collect()
}

fn field(ty: FieldTy, attributes: &[(&str, &str)]) -> FieldDecl {
    FieldDecl { ty, array_size: None, attributes: PackFieldAttribute::try_parse_all(&pairs(attributes)).unwrap() }
}

fn flags(first_bit: usize) -> Vec<FieldDecl> {
    (0..8).map(|i| field(FieldTy::Bool, &[("bits", &(first_bit + i).to_string())])).collect()
}

fn bools(f: &[bool; 8]) -> Vec<FieldValue> {
    f.iter().map(|b| FieldValue::Bool(*b)).collect()
}

fn to_bools(values: &[FieldValue]) -> [bool; 8] {
    let mut f = [false; 8];
    for (i, v) in values.iter().enumerate() {
        f[i] = *v == FieldValue::Bool(true);
    }
    f
}

// Sometimes you want a static header or footer on a packed struct. For
// example when you want to send the packed struct as a command via serial
// and you need the command to have a header
#[derive(Debug, Copy, Clone, PartialEq)]
pub struct FunctionCommand {
    pub address: u16,
    pub f: [bool; 8],
}

impl FunctionCommand {
    fn layout() -> PackStruct {
        let mut fields = vec![field(FieldTy::Native(NativeInt::U16), &[("bytes", "0..1")])];
        fields.extend(flags(16));
        let attributes = PackStructAttribute::try_parse_all(&pairs(&[("bit_numbering", "msb0"), ("endian", "msb")])).unwrap();
        parse_struct(&attributes, &fields).unwrap()
    }
}

impl PackedStructInfo for FunctionCommand {
    fn packed_bits() -> usize {
        24
    }
}

impl PackedStruct for FunctionCommand {
    type ByteArray = [u8; 3];

    fn pack(&self) -> PackingResult<[u8; 3]> {
        let mut values = vec![FieldValue::Integer(self.address as i128)];
        values.extend(bools(&self.f));
        let packed = Self::layout().pack(&values)?;
        Ok([packed[0], packed[1], packed[2]])
    }

    fn unpack(src: &[u8; 3]) -> PackingResult<Self> {
        let values = Self::layout().unpack(&src[..])?;
        let address = match values[0] {
            FieldValue::Integer(v) => v as u16,
            _ => return Err(PackingError::InternalError),
        };
        Ok(FunctionCommand { address, f: to_bools(&values[1..]) })
    }
}

impl PackedStructHeader for FunctionCommand {
    type HeaderByteArray = [u8; 2];

    fn get_header(&self, _data: &[u8]) -> PackingResult<[u8; 2]> {
        Ok([0x80, 0x60])
    }

    fn validate_header(_src: &[u8]) -> PackingResult<()> {
        Ok(())
    }
}

impl PackedStructFooter for FunctionCommand {
    type FooterByteArray = [u8; 1];

    fn get_footer(&self, _data: &[u8]) -> PackingResult<[u8; 1]> {
        Ok([0x16])
    }

    fn validate_footer(_src: &[u8]) -> PackingResult<()> {
        Ok(())
    }
}

#[test]
fn test_static_header_and_footer() {
    let fun = FunctionCommand { address: 1, f: [true, false, true, false, false, true, false, true] };

    let packed = pack_with_header_and_footer(&fun, 2, 1).unwrap();
    assert_eq!(&packed[..], &[0x80 as u8, 0x60, 0x00, 0x01, 0b10100101, 0x16]);

    let unpacked: FunctionCommand =
        unpack_with_header_and_footer(&[0x80 as u8, 0x60, 0x00, 0x01, 0b10100101, 0x00], 2, 1).unwrap();
    assert_eq!(fun, unpacked);

    println!("{:?}", fun);
}

// Other times you might need to specify the header dynamically, for
// example if the header is different if all fields are false. You might
// also want to make sure your struct gets received correctly put an xor
// value in the footer
#[derive(Debug, Clone, PartialEq)]
pub struct DynamicCommand {
    pub f: [bool; 8],
}

impl PackedStructInfo for DynamicCommand {
    fn packed_bits() -> usize {
        8
    }
}

impl PackedStruct for DynamicCommand {
    type ByteArray = [u8; 1];

    fn pack(&self) -> PackingResult<[u8; 1]> {
        let attributes = PackStructAttribute::try_parse_all(&pairs(&[("bit_numbering", "msb0"), ("endian", "msb")])).unwrap();
        let packed = parse_struct(&attributes, &flags(0)).unwrap().pack(&bools(&self.f))?;
        Ok([packed[0]])
    }

    fn unpack(src: &[u8; 1]) -> PackingResult<Self> {
        let attributes = PackStructAttribute::try_parse_all(&pairs(&[("bit_numbering", "msb0"), ("endian", "msb")])).unwrap();
        let values = parse_struct(&attributes, &flags(0)).unwrap().unpack(&src[..])?;
        Ok(DynamicCommand { f: to_bools(&values) })
    }
}

impl PackedStructHeader for DynamicCommand {
    type HeaderByteArray = [u8; 1];

    fn get_header(&self, data: &[u8]) -> PackingResult<[u8; 1]> {
        let header = if data[1] == 0 { [0x00] } else { [0x80] };
        Ok(header)
    }

    fn validate_header(_src: &[u8]) -> PackingResult<()> {
        Ok(())
    }
}

impl PackedStructFooter for DynamicCommand {
    type FooterByteArray = [u8; 1];

    fn get_footer(&self, data: &[u8]) -> PackingResult<[u8; 1]> {
        // Note that the header is already part of the data at this point
        let mut xor: u8 = 0;
        data.into_iter().for_each(|value| xor ^= value);
        Ok([xor])
    }

    fn validate_footer(src: &[u8]) -> PackingResult<()> {
        let mut xor: u8 = 0;
        src[0..src.len()].into_iter().for_each(|value| xor ^= value);
        if src.ends_with(&[xor]) {
            Ok(())
        } else {
            Err(PackingError::UserError(format!("Invalid xor: {} to {:?}", xor, src.last().unwrap())))
        }
    }
}

#[test]
fn test_dynamic_header_and_footer() {
    let dy = DynamicCommand { f: [true, false, true, false, false, true, false, true] };

    let packed = pack_with_header_and_footer(&dy, 1, 1).unwrap();
    assert_eq!(&packed[..], &[0x80 as u8, 0b10100101, 0x25]);

    // We've set the footer to zero so it will fail to unpack
    let unpacked_result: PackingResult<DynamicCommand> =
        unpack_with_header_and_footer(&[0x80 as u8, 0b10100101, 0x00], 1, 1);

    assert_eq!(unpacked_result, Err(PackingError::UserError("Invalid xor: 37 to 0".to_owned())));

    println!("{:?}", dy);
}

#[test]
fn header_and_footer_of_wrong_size_are_refused() {
    let fun = FunctionCommand { address: 1, f: [false; 8] };
    assert_eq!(
        Err(PackingError::BufferSizeMismatch { expected: 3, actual: 2 }),
        pack_with_header_and_footer(&fun, 3, 1)
    );
    assert_eq!(
        Err(PackingError::BufferSizeMismatch { expected: 2, actual: 1 }),
        pack_with_header_and_footer(&fun, 2, 2)
    );
    let short: PackingResult<FunctionCommand> = unpack_with_header_and_footer(&[1, 2], 2, 1);
    assert_eq!(Err(PackingError::BufferTooSmall), short);
    assert_eq!("Buffer too small", PackingError::BufferTooSmall.description());
    assert_eq!("mine", PackingError::UserError("mine".to_string()).description());
}
