use packed_struct::primitive_enum::{EnumCatchAll, PrimitiveEnum};

#[derive(PartialEq, Debug, Clone, Copy)]
pub enum SelfTestMode {
    NormalMode,
    PositiveSignSelfTest,
    NegativeSignSelfTest,
    NotAllowed,
}

impl PrimitiveEnum<u8> for SelfTestMode {
    fn from_primitive(val: u8) -> Option<Self> {
        match val {
            0 => Some(SelfTestMode::NormalMode),
            1 => Some(SelfTestMode::PositiveSignSelfTest),
            2 => Some(SelfTestMode::NegativeSignSelfTest),
            3 => Some(SelfTestMode::NotAllowed),
            _ => None,
        }
    }

    fn to_primitive(&self) -> u8 {
        *self as u8
    }

    fn to_display_str(&self) -> String {
        format!("{:?}", self)
    }

    fn from_str(s: &str) -> Option<Self> {
        Self::all_variants().into_iter().find(|v| v.to_display_str() == s)
    }

    fn from_str_lower(s: &str) -> Option<Self> {
        Self::all_variants().into_iter().find(|v| v.to_display_str().to_lowercase() == s)
    }

    fn all_variants() -> Vec<Self> {
        vec![
            SelfTestMode::NormalMode,
            SelfTestMode::PositiveSignSelfTest,
            SelfTestMode::NegativeSignSelfTest,
            SelfTestMode::NotAllowed,
        ]
    }
}

#[test]
fn hand_written_enum() {
    let a = SelfTestMode::PositiveSignSelfTest;
    assert_eq!(1, a as u8);

    let a = SelfTestMode::from_primitive(1).unwrap();
    assert_eq!(SelfTestMode::PositiveSignSelfTest, a);
    assert_eq!("PositiveSignSelfTest", a.to_display_str());

    let a = SelfTestMode::from_primitive(2).unwrap();
    assert_eq!(SelfTestMode::NegativeSignSelfTest, a);
    assert_eq!("NegativeSignSelfTest", a.to_display_str());

    let a = SelfTestMode::from_str("NegativeSignSelfTest").unwrap();
    assert_eq!(SelfTestMode::NegativeSignSelfTest, a);

    let all = SelfTestMode::all_variants();
    assert_eq!(
        &[
            SelfTestMode::NormalMode,
            SelfTestMode::PositiveSignSelfTest,
            SelfTestMode::NegativeSignSelfTest,
            SelfTestMode::NotAllowed
        ],
        &all[..]
    );
}

#[test]
fn catch_all_keeps_unknown_numbers() {
    let known = <EnumCatchAll<SelfTestMode, u8>>::from_primitive(2).unwrap();
    assert_eq!(2, known.to_primitive());
    assert_eq!("NegativeSignSelfTest", known.to_display_str());
    let unknown = <EnumCatchAll<SelfTestMode, u8>>::from_primitive(9).unwrap();
    assert_eq!(9, unknown.to_primitive());
    assert_eq!("Unknown value: 9", unknown.to_display_str());
    let wrapped: EnumCatchAll<SelfTestMode, u8> = EnumCatchAll::from_enum(SelfTestMode::NotAllowed);
    assert_eq!(3, wrapped.to_primitive());
    assert_eq!(4, <EnumCatchAll<SelfTestMode, u8>>::all_variants().len());
}
