use firmware_rs::adbms6830b::adbms6830b_pac::registers::table107::{FirstRowRegisters, VpvInner};
use firmware_rs::adbms6830b::chip::registers::config_a::types::{ComparisonThresholdVoltage, ReferenceOn};
use firmware_rs::adbms6830b::chip::registers::config_a::ConfigA;
use firmware_rs::adbms6830b::chip::registers::config_b::types::{OvervoltageThreshold, UndervoltageThreshold};

#[test]
fn config_a_bytes_round_trip() {
    let c = ConfigA::from_bits(0x0000_1234_5678_9abc);
    let bytes = c.to_bytes();
    assert_eq!(bytes, [0xbc, 0x9a, 0x78, 0x56, 0x34, 0x12]);
    assert_eq!(ConfigA::from_bytes(bytes), c);
}

#[test]
fn config_a_power_up_value() {
    let c = ConfigA::new();
    assert_eq!(c.into_bits(), 0x3ff000001);
    assert_eq!(c.cth(), ComparisonThresholdVoltage::Mv8_1);
    assert_eq!(c.refon(), ReferenceOn::Off);
}

#[test]
fn config_a_fields_are_independent() {
    let c = ConfigA::new().with_refon(ReferenceOn::On);
    assert_eq!(c.refon(), ReferenceOn::On);
    assert_eq!(c.cth(), ComparisonThresholdVoltage::Mv8_1);
    let c = c.with_cth(ComparisonThresholdVoltage::Mv5_1);
    assert_eq!(c.cth(), ComparisonThresholdVoltage::Mv5_1);
    assert_eq!(c.refon(), ReferenceOn::On);
}

#[test]
fn enum_codes_round_trip() {
    for code in 0u8..8 {
        assert_eq!(ComparisonThresholdVoltage::from_bits(code).into_bits(), code);
    }
    assert_eq!(ReferenceOn::from_bits(ReferenceOn::On.into_bits()), ReferenceOn::On);
}

#[test]
fn first_row_codes_and_voltages() {
    let r = FirstRowRegisters::from_bits(0);
    assert_eq!(r.as_microvolts(), 1_500_000);
    let r = FirstRowRegisters::from_bits(100);
    assert_eq!(r.as_microvolts(), 1_515_000);
    let back = FirstRowRegisters::from_microvolts(1_515_000).unwrap();
    assert_eq!(back.into_bits(), 100);
    assert!(FirstRowRegisters::from_microvolts(6_415_051).is_none());
    assert!(FirstRowRegisters::from_microvolts(-3_415_201).is_none());
    assert_eq!(FirstRowRegisters::from_bytes(r.to_bytes()).into_bits(), 100);
}

#[test]
fn vpv_codes_and_voltages() {
    let r = VpvInner::from_bits(0);
    assert_eq!(r.as_microvolts(), 37_500_000);
    let r = VpvInner::from_bits(2);
    assert_eq!(r.as_microvolts(), 37_507_500);
    assert_eq!(VpvInner::from_microvolts(37_507_500).unwrap().into_bits(), 2);
}

#[test]
fn threshold_codes_and_voltages() {
    assert_eq!(UndervoltageThreshold::from_bits(0x800).as_microvolts(), -3_415_200);
    assert_eq!(OvervoltageThreshold::from_bits(0x7FF).as_microvolts(), 6_412_800);
    assert_eq!(UndervoltageThreshold::from_bits(0x000).as_microvolts(), 1_500_000);
    for code in [0u16, 1, 0x7FF, 0x800, 0xFFF, 0x123] {
        let uv = UndervoltageThreshold::from_bits(code).as_microvolts();
        assert_eq!(UndervoltageThreshold::from_microvolts(uv).unwrap().value(), code);
    }
    assert_eq!(UndervoltageThreshold::from_microvolts(1_501_199).unwrap().value(), 0);
    assert_eq!(UndervoltageThreshold::from_microvolts(1_501_200).unwrap().value(), 1);
    assert!(OvervoltageThreshold::from_microvolts(6_412_801).is_none());
    assert!(OvervoltageThreshold::from_microvolts(-3_415_201).is_none());
}
