//! Status Registers.

use vstd::prelude::*;

pub mod types;

use crate::bits::{field, from_le6, get_bits, le_bytes6, of_le6, to_le6};
use crate::adbms6830b::chip::commands::{self, CommandFrame};
use crate::adbms6830b::chip::registers::{ReadableGroup, WritableGroup};

verus! {

/// Status Register Group A (STATA).
/// Contains six 1-byte registers (so 6 bytes total),but the last two bytes are all reserved.
///
/// See Table 89 on page 67 of the datasheet.
#[derive(Clone, Copy, Debug, PartialEq, Eq)]
pub struct StatusA(u64);

impl View for StatusA {
    type V = u64;

    /// The raw bits of the layout.
    closed spec fn view(&self) -> u64 {
        self.0
    }
}

impl StatusA {
    /// The value every field takes at power-up.
    pub fn new() -> (r: StatusA)
        ensures
            r@ == 0x7fff8000u64,
    {
        StatusA(0x7fff8000)
    }

    /// Wraps raw bits.
    pub fn from_bits(bits: u64) -> (r: StatusA)
        ensures
            r@ == bits,
    {
        StatusA(bits)
    }

    /// The raw bits.
    pub fn into_bits(self) -> (r: u64)
        ensures
            r == self@,
    {
        self.0
    }

    /// Serializes the register group into its six payload bytes, byte 0 first.
    pub fn to_bytes(self) -> (r: [u8; 6])
        ensures
            r@ == le_bytes6(self@),
    {
        to_le6(self.0)
    }

    /// Reconstructs the register group from its six payload bytes, byte 0 first.
    pub fn from_bytes(bytes: [u8; 6]) -> (r: StatusA)
        ensures
            r@ == from_le6(bytes@),
    {
        StatusA(of_le6(bytes))
    }

    /// Second reference voltage. Corresponds to `VREF2[15:0]`.
    pub fn vref2(&self) -> (r: types::a::Vref2)
        ensures
            r@ == get_bits(self@, 0, 0xffff) as u16,
    {
        let v = field(self.0, 0, 0xffff);
        types::a::Vref2::from_bits(v as u16)
    }

    /// Internal die temperature. Corresponds to `ITMP[15:0]`.
    pub fn itmp(&self) -> (r: types::a::InternalDieTemperature)
        ensures
            r@ == get_bits(self@, 16, 0xffff) as u16,
    {
        let v = field(self.0, 16, 0xffff);
        types::a::InternalDieTemperature::from_bits(v as u16)
    }
}

impl ReadableGroup for StatusA {
    open spec fn spec_read_command() -> (bool, u16) {
        (false, 0b00000110000u16)
    }

    fn read_command() -> (r: CommandFrame) {
        commands::status::rdstata().frame()
    }

    fn from_bytes(bytes: [u8; 6]) -> (r: StatusA) {
        StatusA::from_bytes(bytes)
    }
}

/// Status Register Group B (STATB). Contains six 1-byte registers (so 6 bytes total).
///
/// See Table 90 on pages 67-68 of the datasheet.
#[derive(Clone, Copy, Debug, PartialEq, Eq)]
pub struct StatusB(u64);

impl View for StatusB {
    type V = u64;

    /// The raw bits of the layout.
    closed spec fn view(&self) -> u64 {
        self.0
    }
}

impl StatusB {
    /// The value every field takes at power-up.
    pub fn new() -> (r: StatusB)
        ensures
            r@ == 0x7fff7fff7fffu64,
    {
        StatusB(0x7fff7fff7fff)
    }

    /// Wraps raw bits.
    pub fn from_bits(bits: u64) -> (r: StatusB)
        ensures
            r@ == bits,
    {
        StatusB(bits)
    }

    /// The raw bits.
    pub fn into_bits(self) -> (r: u64)
        ensures
            r == self@,
    {
        self.0
    }

    /// Serializes the register group into its six payload bytes, byte 0 first.
    pub fn to_bytes(self) -> (r: [u8; 6])
        ensures
            r@ == le_bytes6(self@),
    {
        to_le6(self.0)
    }

    /// Reconstructs the register group from its six payload bytes, byte 0 first.
    pub fn from_bytes(bytes: [u8; 6]) -> (r: StatusB)
        ensures
            r@ == from_le6(bytes@),
    {
        StatusB(of_le6(bytes))
    }

    /// Digital power supply voltage. Corresponds to `VD[15:0]`.
    pub fn vd(&self) -> (r: types::b::DigitalPowerSupplyVoltage)
        ensures
            r@ == get_bits(self@, 0, 0xffff) as u16,
    {
        let v = field(self.0, 0, 0xffff);
        types::b::DigitalPowerSupplyVoltage::from_bits(v as u16)
    }

    /// Analog power supply voltage. Corresponds to `VA[15:0]`.
    pub fn va(&self) -> (r: types::b::AnalogPowerSupplyVoltage)
        ensures
            r@ == get_bits(self@, 16, 0xffff) as u16,
    {
        let v = field(self.0, 16, 0xffff);
        types::b::AnalogPowerSupplyVoltage::from_bits(v as u16)
    }

    /// VREF2 voltage across resistor. Corresponds to `VRES[15:0]`.
    pub fn vres(&self) -> (r: types::b::Vres)
        ensures
            r@ == get_bits(self@, 32, 0xffff) as u16,
    {
        let v = field(self.0, 32, 0xffff);
        types::b::Vres::from_bits(v as u16)
    }
}

impl ReadableGroup for StatusB {
    open spec fn spec_read_command() -> (bool, u16) {
        (false, 0b00000110001u16)
    }

    fn read_command() -> (r: CommandFrame) {
        commands::status::rdstatb().frame()
    }

    fn from_bytes(bytes: [u8; 6]) -> (r: StatusB) {
        StatusB::from_bytes(bytes)
    }
}

/// Status Register Group C (STATC). Contains six 1-byte registers (so 6 bytes total).
///
/// See Table 91 on page 68 of the datasheet.
#[derive(Clone, Copy, Debug, PartialEq, Eq)]
pub struct StatusC(u64);

impl View for StatusC {
    type V = u64;

    /// The raw bits of the layout.
    closed spec fn view(&self) -> u64 {
        self.0
    }
}

impl StatusC {
    /// The value every field takes at power-up.
    pub fn new() -> (r: StatusC)
        ensures
            r@ == 0xdbff0000ffffu64,
    {
        StatusC(0xdbff0000ffff)
    }

    /// Wraps raw bits.
    pub fn from_bits(bits: u64) -> (r: StatusC)
        ensures
            r@ == bits,
    {
        StatusC(bits)
    }

    /// The raw bits.
    pub fn into_bits(self) -> (r: u64)
        ensures
            r == self@,
    {
        self.0
    }

    /// Serializes the register group into its six payload bytes, byte 0 first.
    pub fn to_bytes(self) -> (r: [u8; 6])
        ensures
            r@ == le_bytes6(self@),
    {
        to_le6(self.0)
    }

    /// Reconstructs the register group from its six payload bytes, byte 0 first.
    pub fn from_bytes(bytes: [u8; 6]) -> (r: StatusC)
        ensures
            r@ == from_le6(bytes@),
    {
        StatusC(of_le6(bytes))
    }

    /// Comparison fault for Channel 1. Corresponds to `CS1FLT`.
    pub fn cs1flt(&self) -> (r: types::c::ComparisonFault)
        ensures
            r == types::c::ComparisonFault::spec_from_bits(get_bits(self@, 0, 0x1) as u8),
    {
        let v = field(self.0, 0, 0x1);
        types::c::ComparisonFault::from_bits(v as u8)
    }

    /// Comparison fault for Channel 2. Corresponds to `CS2FLT`.
    pub fn cs2flt(&self) -> (r: types::c::ComparisonFault)
        ensures
            r == types::c::ComparisonFault::spec_from_bits(get_bits(self@, 1, 0x1) as u8),
    {
        let v = field(self.0, 1, 0x1);
        types::c::ComparisonFault::from_bits(v as u8)
    }

    /// Comparison fault for Channel 3. Corresponds to `CS3FLT`.
    pub fn cs3flt(&self) -> (r: types::c::ComparisonFault)
        ensures
            r == types::c::ComparisonFault::spec_from_bits(get_bits(self@, 2, 0x1) as u8),
    {
        let v = field(self.0, 2, 0x1);
        types::c::ComparisonFault::from_bits(v as u8)
    }

    /// Comparison fault for Channel 4. Corresponds to `CS4FLT`.
    pub fn cs4flt(&self) -> (r: types::c::ComparisonFault)
        ensures
            r == types::c::ComparisonFault::spec_from_bits(get_bits(self@, 3, 0x1) as u8),
    {
        let v = field(self.0, 3, 0x1);
        types::c::ComparisonFault::from_bits(v as u8)
    }

    /// Comparison fault for Channel 5. Corresponds to `CS5FLT`.
    pub fn cs5flt(&self) -> (r: types::c::ComparisonFault)
        ensures
            r == types::c::ComparisonFault::spec_from_bits(get_bits(self@, 4, 0x1) as u8),
    {
        let v = field(self.0, 4, 0x1);
        types::c::ComparisonFault::from_bits(v as u8)
    }

    /// Comparison fault for Channel 6. Corresponds to `CS6FLT`.
    pub fn cs6flt(&self) -> (r: types::c::ComparisonFault)
        ensures
            r == types::c::ComparisonFault::spec_from_bits(get_bits(self@, 5, 0x1) as u8),
    {
        let v = field(self.0, 5, 0x1);
        types::c::ComparisonFault::from_bits(v as u8)
    }

    /// Comparison fault for Channel 7. Corresponds to `CS7FLT`.
    pub fn cs7flt(&self) -> (r: types::c::ComparisonFault)
        ensures
            r == types::c::ComparisonFault::spec_from_bits(get_bits(self@, 6, 0x1) as u8),
    {
        let v = field(self.0, 6, 0x1);
        types::c::ComparisonFault::from_bits(v as u8)
    }

    /// Comparison fault for Channel 8. Corresponds to `CS8FLT`.
    pub fn cs8flt(&self) -> (r: types::c::ComparisonFault)
        ensures
            r == types::c::ComparisonFault::spec_from_bits(get_bits(self@, 7, 0x1) as u8),
    {
        let v = field(self.0, 7, 0x1);
        types::c::ComparisonFault::from_bits(v as u8)
    }

    /// Comparison fault for Channel 9. Corresponds to `CS9FLT`.
    pub fn cs9flt(&self) -> (r: types::c::ComparisonFault)
        ensures
            r == types::c::ComparisonFault::spec_from_bits(get_bits(self@, 8, 0x1) as u8),
    {
        let v = field(self.0, 8, 0x1);
        types::c::ComparisonFault::from_bits(v as u8)
    }

    /// Comparison fault for Channel 10. Corresponds to `CS10FLT`.
    pub fn cs10flt(&self) -> (r: types::c::ComparisonFault)
        ensures
            r == types::c::ComparisonFault::spec_from_bits(get_bits(self@, 9, 0x1) as u8),
    {
        let v = field(self.0, 9, 0x1);
        types::c::ComparisonFault::from_bits(v as u8)
    }

    /// Comparison fault for Channel 11. Corresponds to `CS11FLT`.
    pub fn cs11flt(&self) -> (r: types::c::ComparisonFault)
        ensures
            r == types::c::ComparisonFault::spec_from_bits(get_bits(self@, 10, 0x1) as u8),
    {
        let v = field(self.0, 10, 0x1);
        types::c::ComparisonFault::from_bits(v as u8)
    }

    /// Comparison fault for Channel 12. Corresponds to `CS12FLT`.
    pub fn cs12flt(&self) -> (r: types::c::ComparisonFault)
        ensures
            r == types::c::ComparisonFault::spec_from_bits(get_bits(self@, 11, 0x1) as u8),
    {
        let v = field(self.0, 11, 0x1);
        types::c::ComparisonFault::from_bits(v as u8)
    }

    /// Comparison fault for Channel 13. Corresponds to `CS13FLT`.
    pub fn cs13flt(&self) -> (r: types::c::ComparisonFault)
        ensures
            r == types::c::ComparisonFault::spec_from_bits(get_bits(self@, 12, 0x1) as u8),
    {
        let v = field(self.0, 12, 0x1);
        types::c::ComparisonFault::from_bits(v as u8)
    }

    /// Comparison fault for Channel 14. Corresponds to `CS14FLT`.
    pub fn cs14flt(&self) -> (r: types::c::ComparisonFault)
        ensures
            r == types::c::ComparisonFault::spec_from_bits(get_bits(self@, 13, 0x1) as u8),
    {
        let v = field(self.0, 13, 0x1);
        types::c::ComparisonFault::from_bits(v as u8)
    }

    /// Comparison fault for Channel 15. Corresponds to `CS15FLT`.
    pub fn cs15flt(&self) -> (r: types::c::ComparisonFault)
        ensures
            r == types::c::ComparisonFault::spec_from_bits(get_bits(self@, 14, 0x1) as u8),
    {
        let v = field(self.0, 14, 0x1);
        types::c::ComparisonFault::from_bits(v as u8)
    }

    /// Comparison fault for Channel 16. Corresponds to `CS16FLT`.
    pub fn cs16flt(&self) -> (r: types::c::ComparisonFault)
        ensures
            r == types::c::ComparisonFault::spec_from_bits(get_bits(self@, 15, 0x1) as u8),
    {
        let v = field(self.0, 15, 0x1);
        types::c::ComparisonFault::from_bits(v as u8)
    }

    /// Upper 5 bits of the Conversions Counter. Corresponds to `CT[10:6]`.
    ///
    /// Combine with `ct_lower` in `ConversionsCounter::new()` to get a real combined/usable conversions counter value.
    pub fn ct_upper(&self) -> (r: types::c::ConversionsCounterUpper)
        ensures
            r@ == get_bits(self@, 16, 0x1f) as u8,
    {
        let v = field(self.0, 16, 0x1f);
        types::c::ConversionsCounterUpper::from_bits(v as u8)
    }

    /// Conversions Subcounter. Corresponds to `CTS[1:0]`.
    pub fn cts(&self) -> (r: types::c::ConversionsSubcounter)
        ensures
            r@ == get_bits(self@, 24, 0x3) as u16,
    {
        let v = field(self.0, 24, 0x3);
        types::c::ConversionsSubcounter::from_bits(v as u16)
    }

    /// Lower 6 bits of the Conversions Counter. Corresponds to `CT[5:0]`.
    ///
    /// Combine with `ct_upper` in `ConversionsCounter::new()` to get a real combined/usable conversions counter value.
    pub fn ct_lower(&self) -> (r: types::c::ConversionsCounterLower)
        ensures
            r@ == get_bits(self@, 26, 0x3f) as u8,
    {
        let v = field(self.0, 26, 0x3f);
        types::c::ConversionsCounterLower::from_bits(v as u8)
    }

    /// S-trim multiple error detection. Corresponds to `SMED`.
    pub fn smed(&self) -> (r: types::c::STrimMultipleError)
        ensures
            r == types::c::STrimMultipleError::spec_from_bits(get_bits(self@, 32, 0x1) as u8),
    {
        let v = field(self.0, 32, 0x1);
        types::c::STrimMultipleError::from_bits(v as u8)
    }

    /// S-trim error detection. Corresponds to `SED`.
    pub fn sed(&self) -> (r: types::c::STrimError)
        ensures
            r == types::c::STrimError::spec_from_bits(get_bits(self@, 33, 0x1) as u8),
    {
        let v = field(self.0, 33, 0x1);
        types::c::STrimError::from_bits(v as u8)
    }

    /// C-trim multiple error detection. Corresponds to `CMED`.
    pub fn cmed(&self) -> (r: types::c::CTrimMultipleError)
        ensures
            r == types::c::CTrimMultipleError::spec_from_bits(get_bits(self@, 34, 0x1) as u8),
    {
        let v = field(self.0, 34, 0x1);
        types::c::CTrimMultipleError::from_bits(v as u8)
    }

    /// C-trim error detection. Corresponds to `CED`.
    pub fn ced(&self) -> (r: types::c::CTrimError)
        ensures
            r == types::c::CTrimError::spec_from_bits(get_bits(self@, 35, 0x1) as u8),
    {
        let v = field(self.0, 35, 0x1);
        types::c::CTrimError::from_bits(v as u8)
    }

    /// Digital rail undervoltage. Corresponds to `VD_UV`.
    pub fn vd_uv(&self) -> (r: types::c::DigitalRailUndervoltage)
        ensures
            r == types::c::DigitalRailUndervoltage::spec_from_bits(get_bits(self@, 36, 0x1) as u8),
    {
        let v = field(self.0, 36, 0x1);
        types::c::DigitalRailUndervoltage::from_bits(v as u8)
    }

    /// Digital rail overvoltage. Corresponds to `VD_OV`.
    pub fn vd_ov(&self) -> (r: types::c::DigitalRailOvervoltage)
        ensures
            r == types::c::DigitalRailOvervoltage::spec_from_bits(get_bits(self@, 37, 0x1) as u8),
    {
        let v = field(self.0, 37, 0x1);
        types::c::DigitalRailOvervoltage::from_bits(v as u8)
    }

    /// Analog rail undervoltage. Corresponds to `VA_UV`.
    pub fn va_uv(&self) -> (r: types::c::AnalogRailUndervoltage)
        ensures
            r == types::c::AnalogRailUndervoltage::spec_from_bits(get_bits(self@, 38, 0x1) as u8),
    {
        let v = field(self.0, 38, 0x1);
        types::c::AnalogRailUndervoltage::from_bits(v as u8)
    }

    /// Analog rail overvoltage. Corresponds to `VA_OV`.
    pub fn va_ov(&self) -> (r: types::c::AnalogRailOvervoltage)
        ensures
            r == types::c::AnalogRailOvervoltage::spec_from_bits(get_bits(self@, 39, 0x1) as u8),
    {
        let v = field(self.0, 39, 0x1);
        types::c::AnalogRailOvervoltage::from_bits(v as u8)
    }

    /// Oscillator check. Corresponds to `OSCCHK`.
    pub fn oscchk(&self) -> (r: types::c::OscillatorCheck)
        ensures
            r == types::c::OscillatorCheck::spec_from_bits(get_bits(self@, 40, 0x1) as u8),
    {
        let v = field(self.0, 40, 0x1);
        types::c::OscillatorCheck::from_bits(v as u8)
    }

    /// Test mode detection. Corresponds to `TMODCHK`.
    pub fn tmodchk(&self) -> (r: types::c::TestModeDetection)
        ensures
            r == types::c::TestModeDetection::spec_from_bits(get_bits(self@, 41, 0x1) as u8),
    {
        let v = field(self.0, 41, 0x1);
        types::c::TestModeDetection::from_bits(v as u8)
    }

    /// Thermal shutdown status. Corresponds to `THSD`.
    pub fn thsd(&self) -> (r: types::c::ThermalShutdownStatus)
        ensures
            r == types::c::ThermalShutdownStatus::spec_from_bits(get_bits(self@, 42, 0x1) as u8),
    {
        let v = field(self.0, 42, 0x1);
        types::c::ThermalShutdownStatus::from_bits(v as u8)
    }

    /// Sleep mode detection. Corresponds to `SLEEP`.
    pub fn sleep(&self) -> (r: types::c::SleepModeDetection)
        ensures
            r == types::c::SleepModeDetection::spec_from_bits(get_bits(self@, 43, 0x1) as u8),
    {
        let v = field(self.0, 43, 0x1);
        types::c::SleepModeDetection::from_bits(v as u8)
    }

    /// SPI fault detection. Corresponds to `SPIFLT`.
    pub fn spiflt(&self) -> (r: types::c::SpiFault)
        ensures
            r == types::c::SpiFault::spec_from_bits(get_bits(self@, 44, 0x1) as u8),
    {
        let v = field(self.0, 44, 0x1);
        types::c::SpiFault::from_bits(v as u8)
    }

    /// Comparison active indicator. Corresponds to `COMP`.
    pub fn comp(&self) -> (r: types::c::ComparisonActive)
        ensures
            r == types::c::ComparisonActive::spec_from_bits(get_bits(self@, 45, 0x1) as u8),
    {
        let v = field(self.0, 45, 0x1);
        types::c::ComparisonActive::from_bits(v as u8)
    }

    /// Supply rail delta. Corresponds to `VDE`.
    pub fn vde(&self) -> (r: types::c::SupplyRailDelta)
        ensures
            r == types::c::SupplyRailDelta::spec_from_bits(get_bits(self@, 46, 0x1) as u8),
    {
        let v = field(self.0, 46, 0x1);
        types::c::SupplyRailDelta::from_bits(v as u8)
    }

    /// Supply rail latent delta. Corresponds to `VDEL`.
    pub fn vdel(&self) -> (r: types::c::SupplyRailDeltaLatent)
        ensures
            r == types::c::SupplyRailDeltaLatent::spec_from_bits(get_bits(self@, 47, 0x1) as u8),
    {
        let v = field(self.0, 47, 0x1);
        types::c::SupplyRailDeltaLatent::from_bits(v as u8)
    }
}

impl ReadableGroup for StatusC {
    open spec fn spec_read_command() -> (bool, u16) {
        (false, 0b00000110010u16)
    }

    fn read_command() -> (r: CommandFrame) {
        commands::status::rdstatc().frame()
    }

    fn from_bytes(bytes: [u8; 6]) -> (r: StatusC) {
        StatusC::from_bytes(bytes)
    }
}

} // verus!
