use packed_struct::debug_fmt::{packable_fmt_fields, DebugBinaryByteSlice, DebugBitField, PackedStructDisplay};
use packed_struct::pack::{FieldDecl, FieldTy, NativeInt};
use packed_struct::pack_fields::FieldValue;
use packed_struct::pack_parse::parse_struct;
use packed_struct::pack_parse_attributes::{PackFieldAttribute, PackStructAttribute};

fn pairs(attributes: &[(&str, &str)]) -> Vec<(String, String)> {
    attributes.iter().map(|(n, v)| (n.to_string(), v.to_string())).collect()
}

fn field(ty: FieldTy, attributes: &[(&str, &str)]) -> FieldDecl {
    FieldDecl { ty, array_size: None, attributes: PackFieldAttribute::try_parse_all(&pairs(attributes)).unwrap() }
}

fn table(attributes: &[(&str, &str)], names: &[&str], fields: Vec<FieldDecl>, values: &[FieldValue]) -> String {
    let ps = parse_struct(&PackStructAttribute::try_parse_all(&pairs(attributes)).unwrap(), &fields).unwrap();
    let packed = ps.pack(&values.to_vec()).unwrap();
    let debug: Vec<DebugBitField> = ps
        .fields
        .iter()
        .zip(values.iter())
        .map(|(f, v)| DebugBitField {
            name: match f.kind {
                packed_struct::pack::FieldKind::Regular => names[f.field].to_string(),
                packed_struct::pack::FieldKind::Array { index, .. } => format!("{}[{}]", names[f.field], index),
            },
            bits: f.bit_range.clone(),
            display_value: match v {
                FieldValue::Bool(b) => format!("{:?}", b),
                FieldValue::Integer(n) => format!("{:?}", n),
                other => format!("{:?}", other),
            },
        })
        .collect();
    packable_fmt_fields(&packed, &debug)
}

#[test]
fn test_debug_reg() {
    // Rate6_25Hz is the data rate with the number 2.
    let mut rate = field(FieldTy::Other { primitive: Some(NativeInt::U8) }, &[("bits", "0..3"), ("ty", "enum")]);
    rate.array_size = None;
    let r = table(
        &[("bit_numbering", "msb0")],
        &["output_data_rate", "x_axis_enabled", "y_axis_enabled", "z_axis_enabled"],
        vec![
            rate,
            field(FieldTy::Bool, &[("bits", "5")]),
            field(FieldTy::Bool, &[("bits", "6")]),
            field(FieldTy::Bool, &[("bits", "7")]),
        ],
        &[FieldValue::Integer(2), FieldValue::Bool(false), FieldValue::Bool(false), FieldValue::Bool(true)],
    );

    println!("{}", r);
    assert_eq!(
        concat_lines(&[
            " output_data_rate | bits   0:3   | 0b0010 | \"2\"",
            "   x_axis_enabled | bits   5:5   | 0b0    | \"false\"",
            "   y_axis_enabled | bits   6:6   | 0b0    | \"false\"",
            "   z_axis_enabled | bits   7:7   | 0b1    | \"true\"",
        ]),
        r
    );
}

fn concat_lines(lines: &[&str]) -> String {
    lines.iter().map(|l| format!("{}\r\n", l)).collect()
}

#[test]
fn test_debug_id() {
    let zero = FieldValue::Integer(0);
    let mut values = vec![zero.clone(), zero.clone(), zero.clone(), zero.clone()];
    values.extend((0..16).map(|_| zero.clone()));
    let mut data = field(FieldTy::Native(NativeInt::U8), &[]);
    data.array_size = Some(16);
    let id = table(
        &[("endian", "msb")],
        &["manufacturer", "memory_type", "memory_capacity", "customized_factory_data_length", "customized_factory_data"],
        vec![
            field(FieldTy::Native(NativeInt::U16), &[]),
            field(FieldTy::Native(NativeInt::U16), &[]),
            field(FieldTy::Native(NativeInt::U16), &[]),
            field(FieldTy::Native(NativeInt::U8), &[]),
            data,
        ],
        &values,
    );

    println!("{}", id);
    assert_eq!(20, id.lines().count());
    let first = format!("{:>31} | bits {:>3}:{:<3} | 0b{} | {:?}\r\n", "manufacturer", 0, 15, "0".repeat(16), "0");
    let last = format!(
        "{:>31} | bits {:>3}:{:<3} | 0b{}{} | {:?}\r\n",
        "customized_factory_data[15]",
        176,
        183,
        "0".repeat(8),
        " ".repeat(8),
        "0"
    );
    assert!(id.starts_with(&first));
    assert!(id.ends_with(&last));
}

#[test]
fn test_debug_jedec_id() {
    let fields = || {
        vec![
            field(FieldTy::Native(NativeInt::U8), &[]),
            field(FieldTy::Native(NativeInt::U8), &[]),
            field(FieldTy::Native(NativeInt::U8), &[]),
        ]
    };
    let jedec_id = parse_struct(&vec![], &fields()).unwrap();
    let id = jedec_id.unpack(&[50, 100, 150]).unwrap();

    let text = table(&[], &["manufacturer", "memory_type", "memory_capacity"], fields(), &id);
    println!("{}", text);
    assert_eq!(
        concat_lines(&[
            "    manufacturer | bits   0:7   | 0b00110010 | \"50\"",
            "     memory_type | bits   8:15  | 0b01100100 | \"100\"",
            " memory_capacity | bits  16:23  | 0b10010110 | \"150\"",
        ]),
        text
    );
}

#[test]
fn wide_fields_are_shown_without_bits() {
    let fields = [
        DebugBitField { name: "a".to_string(), bits: 0..40, display_value: "1".to_string() },
        DebugBitField { name: "long".to_string(), bits: 41..47, display_value: "x\"y".to_string() },
    ];
    assert_eq!("    a | \"1\"\r\n long | \"x\\\"y\"\r\n", packable_fmt_fields(&[0; 6], &fields));
    assert_eq!("", packable_fmt_fields(&[0; 6], &[]));
}

#[test]
fn binary_digits_of_a_range() {
    let bits = 6..9;
    let slice = [0b0000_0010u8, 0b1100_0000];
    assert_eq!("1011", DebugBinaryByteSlice { bits: &bits, slice: &slice }.to_binary_string());
    let display = PackedStructDisplay::new(&slice);
    assert!(display.header && display.raw_decimal && display.raw_hex && display.raw_binary && display.fields);
}
