use canstack::saelient::signal::{
    Command, Discrete, Param10, Param12, Param16, Param20, Param24, Param28, Param32, Param4,
    Param8, Signal,
};

#[test]
fn valid_range() {
    assert!(Param4::from(0x0).is_valid());
    assert!(Param8::from(0x0).is_valid());
    assert!(Param12::from(0x0).is_valid());
    assert!(Param16::from(0x0).is_valid());
    assert!(Param20::from(0x0).is_valid());
    assert!(Param24::from(0x0).is_valid());
    assert!(Param28::from(0x0).is_valid());
    assert!(Param32::from(0x0).is_valid());
}

#[test]
fn outside_signal() {
    assert!(Param4::from_raw(0xF + 1).is_none());
    assert!(Param10::from_raw(0x3FF + 1).is_none());
    assert!(Param12::from_raw(0xFFF + 1).is_none());
    assert!(Param20::from_raw(0xFFFFF + 1).is_none());
    assert!(Param24::from_raw(0xFFFFFF + 1).is_none());
    assert!(Param28::from_raw(0xFFFFFFF + 1).is_none());
}

#[test]
fn value() {
    assert_eq!(Param4::from_raw(0x0).unwrap().value(), Some(0x0));
    assert_eq!(Param4::from_raw(0xA).unwrap().value(), Some(0xA));
    assert_eq!(Param4::from_raw(0xF).unwrap().value(), None);
}

#[test]
fn from_to_raw() {
    assert_eq!(Param4::from_raw(0x1).unwrap().to_raw(), 0x1);
    assert_eq!(Param8::from_raw(0x1).unwrap().to_raw(), 0x1);
    assert_eq!(Param10::from_raw(0x1).unwrap().to_raw(), 0x1);
    assert_eq!(Param12::from_raw(0x1).unwrap().to_raw(), 0x1);
    assert_eq!(Param16::from_raw(0x1).unwrap().to_raw(), 0x1);
    assert_eq!(Param20::from_raw(0x1).unwrap().to_raw(), 0x1);
    assert_eq!(Param24::from_raw(0x1).unwrap().to_raw(), 0x1);
    assert_eq!(Param28::from_raw(0x1).unwrap().to_raw(), 0x1);
    assert_eq!(Param32::from_raw(0x1).unwrap().to_raw(), 0x1);
}

#[test]
fn each_raw_value_falls_in_one_class() {
    let s = Param8::from_raw(0xFB).unwrap();
    assert!(s.is_indicator() && !s.is_valid() && !s.is_error() && !s.is_not_present());
    assert_eq!(s.indicator(), Some(0xFB));
    let s = Param8::from_raw(0xFE).unwrap();
    assert!(s.is_error() && !s.is_valid() && !s.is_indicator() && !s.is_not_present());
    assert_eq!(s.error(), Some(0xFE));
    let s = Param8::from_raw(0xFF).unwrap();
    assert!(s.is_not_present() && !s.is_valid());
    assert_eq!(s.not_present(), Some(0xFF));
    assert_eq!(s.value(), None);
}

#[test]
fn gap_between_classes_is_no_signal() {
    assert!(Param8::from_raw(0xFC).is_none());
    assert!(Param12::from_raw(0xFC0).is_none());
    assert!(Param16::from_raw(0xFC00).is_none());
    assert!(Param32::from_raw(0xFC00_0000).is_none());
    assert!(Param12::from_raw(0xFB5).unwrap().is_indicator());
}

#[test]
fn base_conversions_are_inverse() {
    assert_eq!(u16::from(Param16::from(0x1234u16)), 0x1234);
    assert_eq!(u32::from(Param24::from(0xABCDEFu32)), 0xABCDEF);
}

#[test]
fn discrete_and_command_codes() {
    assert_eq!(Discrete::try_from(2), Ok(Discrete::ErrorIndicator));
    assert_eq!(Discrete::try_from(4), Err(4));
    assert_eq!(u8::from(Discrete::NotAvailable), 3);
    assert_eq!(Command::try_from(1), Ok(Command::Enable));
    assert_eq!(Command::try_from(9), Err(9));
    assert_eq!(u8::from(Command::Reserved), 2);
}
