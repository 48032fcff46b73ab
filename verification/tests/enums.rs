use packed_struct::enum_variants::{EnumError, PrimitiveEnumDef, VariantDecl};
use packed_struct::pack::NativeInt;

fn variant(name: &str, discriminant: Option<i128>) -> VariantDecl {
    VariantDecl { name: name.to_string(), discriminant, unit: true }
}

fn describe(prim_type: NativeInt, variants: &[(&str, Option<i128>)]) -> PrimitiveEnumDef {
    packed_struct::enum_variants::derive(&variants.iter().map(|(n, d)| variant(n, *d)).collect(), prim_type).unwrap()
}

fn self_test_mode() -> PrimitiveEnumDef {
    describe(
        NativeInt::U8,
        &[
            ("NormalMode", Some(0)),
            ("PositiveSignSelfTest", None),
            ("NegativeSignSelfTest", Some(2)),
            ("NotAllowed", Some(3)),
        ],
    )
}

#[test]
fn primitive_enum_prim() {
    let mode = self_test_mode();
    let a = mode.from_str("PositiveSignSelfTest").unwrap();
    assert_eq!(1, mode.to_primitive(a));

    let a = mode.from_primitive(1).unwrap();
    assert_eq!(mode.from_str("PositiveSignSelfTest").unwrap(), a);
    assert_eq!("PositiveSignSelfTest", mode.to_display_str(a));

    let a = mode.from_primitive(2).unwrap();
    assert_eq!(mode.from_str("NegativeSignSelfTest").unwrap(), a);
    assert_eq!("NegativeSignSelfTest", mode.to_display_str(a));

    let a = mode.from_str("NegativeSignSelfTest").unwrap();
    assert_eq!(2, a);

    let all = mode.all_variants();
    assert_eq!(&[0, 1, 2, 3], &all[..]);
    let names: Vec<String> = all.iter().map(|v| mode.to_display_str(*v)).collect();
    assert_eq!(vec!["NormalMode", "PositiveSignSelfTest", "NegativeSignSelfTest", "NotAllowed"], names);
}

#[test]
fn primitive_enum_consts_prim() {
    let a1: i128 = 0;
    let a2: i128 = 1;
    let b1: i128 = 100;
    let c1: i128 = 200;
    let const_enum = describe(
        NativeInt::U16,
        &[
            ("A1", Some(a1)),
            ("A2", Some(a2)),
            ("B1", Some(b1)),
            ("B2", None),
            ("C1", Some(c1)),
            ("C2", None),
            ("D1", Some(300)),
            ("D2", None),
        ],
    );
    let of = |name: &str| const_enum.to_primitive(const_enum.from_str(name).unwrap());
    assert_eq!(0, of("A1"));
    assert_eq!(1, of("A2"));
    assert_eq!(100, of("B1"));
    assert_eq!(101, of("B2"));
    assert_eq!(200, of("C1"));
    assert_eq!(201, of("C2"));
    assert_eq!(300, of("D1"));
    assert_eq!(301, of("D2"));
}

fn min_max(prim_type: NativeInt, min: i128, max: i128) -> (i128, i128) {
    let e = describe(prim_type, &[("VariantMin", Some(min)), ("VariantMax", Some(max))]);
    (e.to_primitive(0), e.to_primitive(1))
}

#[test]
fn prim_ty() {
    assert_eq!((0, 255), min_max(NativeInt::U8, 0, 255));
    assert_eq!((0, 65535), min_max(NativeInt::U16, 0, 65535));
    assert_eq!((0, 4294967295), min_max(NativeInt::U32, 0, 4294967295));
    assert_eq!((0, 1844674407370955165), min_max(NativeInt::U64, 0, 1844674407370955165));
    assert_eq!((-128, 127), min_max(NativeInt::I8, -128, 127));
    assert_eq!((-32768, 32767), min_max(NativeInt::I16, -32768, 32767));
    assert_eq!((-2147483648, 2147483647), min_max(NativeInt::I32, -2147483648, 2147483647));
    assert_eq!(
        (-9223372036854775808, 9223372036854775807),
        min_max(NativeInt::I64, -9223372036854775808, 9223372036854775807)
    );
}

#[test]
fn prim_var_ty() {
    let names = [
        "VariantMin",
        "VariantNegA",
        "VariantNegB",
        "VariantNegC",
        "VariantMidA",
        "VariantMidB",
        "VariantMidC",
        "VariantMidD",
        "VariantMidE",
        "VariantPosA",
        "VariantPosB",
        "VariantPosC",
        "VariantMax",
    ];
    let given = [
        Some(-128),
        Some(-110),
        None,
        None,
        Some(-2),
        None,
        None,
        None,
        None,
        Some(110),
        None,
        None,
        Some(127),
    ];
    let decls: Vec<(&str, Option<i128>)> = names.iter().cloned().zip(given.iter().cloned()).collect();
    let enum_i8 = describe(NativeInt::I8, &decls);
    let expected = [-128, -110, -109, -108, -2, -1, 0, 1, 2, 110, 111, 112, 127];
    for (i, name) in names.iter().enumerate() {
        let v = enum_i8.from_str(name).unwrap();
        assert_eq!(i, v);
        assert_eq!(expected[i], enum_i8.to_primitive(v));
    }
    for (i, value) in expected.iter().enumerate() {
        assert_eq!(Some(i), enum_i8.from_primitive(*value));
    }
    assert_eq!(None, enum_i8.from_primitive(3));
}

fn roundtrip(e: &PrimitiveEnumDef, positive: bool) {
    for (i, x) in e.all_variants().iter().enumerate() {
        let prim = e.to_primitive(*x);
        if positive {
            assert_eq!(prim, i as i128);
        }

        let from_prim = e.from_primitive(prim).unwrap();
        assert_eq!(from_prim, *x);

        let display_str = e.to_display_str(*x);
        let from_display_str = e.from_str(&display_str).unwrap();
        assert_eq!(from_display_str, *x);
        assert_eq!(Some(*x), e.from_str_lower(&display_str.to_lowercase()));
    }
}

#[test]
fn primitive_enum_roundtrip_prim() {
    let four = ["Zero", "One", "Two", "Three"];
    let with = |given: [Option<i128>; 4]| -> Vec<(&str, Option<i128>)> { four.iter().cloned().zip(given.iter().cloned()).collect() };
    roundtrip(&describe(NativeInt::U8, &with([None, None, None, None])), true);
    roundtrip(&describe(NativeInt::U8, &with([Some(0), None, None, None])), true);
    roundtrip(&describe(NativeInt::U8, &with([None, Some(1), None, None])), true);
    roundtrip(&describe(NativeInt::U8, &with([Some(0), None, Some(2), None])), true);

    roundtrip(
        &describe(
            NativeInt::I8,
            &[("MinusTwo", Some(-2)), ("MinusOne", Some(-1)), ("Zero", None), ("One", Some(1)), ("Two", Some(2))],
        ),
        false,
    );
    roundtrip(
        &describe(NativeInt::I8, &[("MinusOne", Some(-1)), ("Zero", None), ("One", None), ("Two", None)]),
        false,
    );
    roundtrip(
        &describe(
            NativeInt::I8,
            &[("MinusTwo", Some(-2)), ("MinusOne", None), ("Zero", None), ("One", None), ("Two", None)],
        ),
        false,
    );
}

#[test]
fn numbers_outside_the_type_and_twice_are_refused() {
    let decls = |v: &[(&str, Option<i128>)]| -> Vec<VariantDecl> { v.iter().map(|(n, d)| variant(n, *d)).collect() };
    assert_eq!(
        Err(EnumError::OutOfRange { variant: 1 }),
        packed_struct::enum_variants::derive(&decls(&[("A", Some(255)), ("B", None)]), NativeInt::U8).map(|_| ())
    );
    assert_eq!(
        Err(EnumError::OutOfRange { variant: 0 }),
        packed_struct::enum_variants::derive(&decls(&[("A", Some(-1))]), NativeInt::U16).map(|_| ())
    );
    assert_eq!(
        Err(EnumError::Duplicate { first: 0, second: 2 }),
        packed_struct::enum_variants::derive(&decls(&[("A", Some(1)), ("B", Some(0)), ("C", None)]), NativeInt::I8).map(|_| ())
    );
}

#[test]
fn variants_with_fields_end_the_enum() {
    let mut decls = vec![variant("A", None), variant("B", None), variant("C", None)];
    decls[1].unit = false;
    let e = packed_struct::enum_variants::derive(&decls, NativeInt::U8).unwrap();
    assert_eq!(vec![0], e.all_variants());
    assert_eq!(None, e.from_str("C"));
}
