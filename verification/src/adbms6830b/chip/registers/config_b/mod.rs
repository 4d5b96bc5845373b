//! Register Layouts and Bit Descriptions for Configuration Register Group B.
//!
//! For more info about these registers, see Table 103 on page 71 of the datasheet
//! and Table 56 on page 61 of the datasheet.

use vstd::prelude::*;

pub mod types;

use crate::bits::{field, from_le6, get_bits, le_bytes6, of_le6, put, set_bits, to_le6};
use crate::adbms6830b::chip::commands::{self, CommandFrame};
use crate::adbms6830b::chip::registers::{ReadableGroup, WritableGroup};

verus! {

/// Configuration Register Group B (CFGB). Contains six 1-byte registers (so 6 bytes total).
///
/// See Table 56 on page 61 of the datasheet.
#[derive(Clone, Copy, Debug, PartialEq, Eq)]
pub struct ConfigB(u64);

impl View for ConfigB {
    type V = u64;

    /// The raw bits of the layout.
    closed spec fn view(&self) -> u64 {
        self.0
    }
}

impl ConfigB {
    /// The value every field takes at power-up.
    pub fn new() -> (r: ConfigB)
        ensures
            r@ == 0x7ff800u64,
    {
        ConfigB(0x7ff800)
    }

    /// Wraps raw bits.
    pub fn from_bits(bits: u64) -> (r: ConfigB)
        ensures
            r@ == bits,
    {
        ConfigB(bits)
    }

    /// The raw bits.
    pub fn into_bits(self) -> (r: u64)
        ensures
            r == self@,
    {
        self.0
    }

    /// Serializes the register group into its six payload bytes, byte 0 first.
    pub fn to_bytes(self) -> (r: [u8; 6])
        ensures
            r@ == le_bytes6(self@),
    {
        to_le6(self.0)
    }

    /// Reconstructs the register group from its six payload bytes, byte 0 first.
    pub fn from_bytes(bytes: [u8; 6]) -> (r: ConfigB)
        ensures
            r@ == from_le6(bytes@),
    {
        ConfigB(of_le6(bytes))
    }

    /// UV threshold/comparison voltage (VUV). Cell undervoltage threshold = VUV x 16 x 150uV + 1.5V. 12-bit field. Corresponds to `VUV[11:0]`.
    pub fn vuv(&self) -> (r: types::UndervoltageThreshold)
        ensures
            r@ == get_bits(self@, 0, 0xfff) as u16,
    {
        let v = field(self.0, 0, 0xfff);
        types::UndervoltageThreshold::from_bits(v as u16)
    }

    /// This layout with the `vuv` field replaced.
    pub fn with_vuv(self, v: types::UndervoltageThreshold) -> (r: ConfigB)
        ensures
            r@ == set_bits(self@, 0, 0xfff, v@ as u64),
    {
        ConfigB(put(self.0, 0, 0xfff, v.into_bits() as u64))
    }

    /// OV threshold/comparison voltage (VOV). Cell overvoltage threshold = VOV × 16 × 150 μV + 1.5 V. 12-bit field. Corresponds to `VOV[11:0]`.
    pub fn vov(&self) -> (r: types::OvervoltageThreshold)
        ensures
            r@ == get_bits(self@, 12, 0xfff) as u16,
    {
        let v = field(self.0, 12, 0xfff);
        types::OvervoltageThreshold::from_bits(v as u16)
    }

    /// This layout with the `vov` field replaced.
    pub fn with_vov(self, v: types::OvervoltageThreshold) -> (r: ConfigB)
        ensures
            r@ == set_bits(self@, 12, 0xfff, v@ as u64),
    {
        ConfigB(put(self.0, 12, 0xfff, v.into_bits() as u64))
    }

    /// Status of the discharge timer. Corresponds to `DCTO[5:0]`.
    pub fn dcto(&self) -> (r: types::DischargeTimerStatus)
        ensures
            r@ == get_bits(self@, 24, 0x3f) as u8,
    {
        let v = field(self.0, 24, 0x3f);
        types::DischargeTimerStatus::from_bits(v as u8)
    }

    /// This layout with the `dcto` field replaced.
    pub fn with_dcto(self, v: types::DischargeTimerStatus) -> (r: ConfigB)
        ensures
            r@ == set_bits(self@, 24, 0x3f, v@ as u64),
    {
        ConfigB(put(self.0, 24, 0x3f, v.into_bits() as u64))
    }

    /// Range of the discharge timer.
    pub fn dtrng(&self) -> (r: types::DischargeTimerRange)
        ensures
            r == types::DischargeTimerRange::spec_from_bits(get_bits(self@, 30, 0x1) as u8),
    {
        let v = field(self.0, 30, 0x1);
        types::DischargeTimerRange::from_bits(v as u8)
    }

    /// This layout with the `dtrng` field replaced.
    pub fn with_dtrng(self, v: types::DischargeTimerRange) -> (r: ConfigB)
        ensures
            r@ == set_bits(self@, 30, 0x1, v@ as u64),
    {
        ConfigB(put(self.0, 30, 0x1, v.into_bits() as u64))
    }

    /// Enable/disable discharge timer monitoring.
    pub fn dtmen(&self) -> (r: types::DischargeTimerMonitor)
        ensures
            r == types::DischargeTimerMonitor::spec_from_bits(get_bits(self@, 31, 0x1) as u8),
    {
        let v = field(self.0, 31, 0x1);
        types::DischargeTimerMonitor::from_bits(v as u8)
    }

    /// This layout with the `dtmen` field replaced.
    pub fn with_dtmen(self, v: types::DischargeTimerMonitor) -> (r: ConfigB)
        ensures
            r@ == set_bits(self@, 31, 0x1, v@ as u64),
    {
        ConfigB(put(self.0, 31, 0x1, v.into_bits() as u64))
    }

    /// Discharge Cell 1 Configuration
    pub fn dcc1(&self) -> (r: types::DischargeCellConfig)
        ensures
            r == types::DischargeCellConfig::spec_from_bits(get_bits(self@, 32, 0x1) as u8),
    {
        let v = field(self.0, 32, 0x1);
        types::DischargeCellConfig::from_bits(v as u8)
    }

    /// This layout with the `dcc1` field replaced.
    pub fn with_dcc1(self, v: types::DischargeCellConfig) -> (r: ConfigB)
        ensures
            r@ == set_bits(self@, 32, 0x1, v@ as u64),
    {
        ConfigB(put(self.0, 32, 0x1, v.into_bits() as u64))
    }

    /// Discharge Cell 2 Configuration
    pub fn dcc2(&self) -> (r: types::DischargeCellConfig)
        ensures
            r == types::DischargeCellConfig::spec_from_bits(get_bits(self@, 33, 0x1) as u8),
    {
        let v = field(self.0, 33, 0x1);
        types::DischargeCellConfig::from_bits(v as u8)
    }

    /// This layout with the `dcc2` field replaced.
    pub fn with_dcc2(self, v: types::DischargeCellConfig) -> (r: ConfigB)
        ensures
            r@ == set_bits(self@, 33, 0x1, v@ as u64),
    {
        ConfigB(put(self.0, 33, 0x1, v.into_bits() as u64))
    }

    /// Discharge Cell 3 Configuration
    pub fn dcc3(&self) -> (r: types::DischargeCellConfig)
        ensures
            r == types::DischargeCellConfig::spec_from_bits(get_bits(self@, 34, 0x1) as u8),
    {
        let v = field(self.0, 34, 0x1);
        types::DischargeCellConfig::from_bits(v as u8)
    }

    /// This layout with the `dcc3` field replaced.
    pub fn with_dcc3(self, v: types::DischargeCellConfig) -> (r: ConfigB)
        ensures
            r@ == set_bits(self@, 34, 0x1, v@ as u64),
    {
        ConfigB(put(self.0, 34, 0x1, v.into_bits() as u64))
    }

    /// Discharge Cell 4 Configuration
    pub fn dcc4(&self) -> (r: types::DischargeCellConfig)
        ensures
            r == types::DischargeCellConfig::spec_from_bits(get_bits(self@, 35, 0x1) as u8),
    {
        let v = field(self.0, 35, 0x1);
        types::DischargeCellConfig::from_bits(v as u8)
    }

    /// This layout with the `dcc4` field replaced.
    pub fn with_dcc4(self, v: types::DischargeCellConfig) -> (r: ConfigB)
        ensures
            r@ == set_bits(self@, 35, 0x1, v@ as u64),
    {
        ConfigB(put(self.0, 35, 0x1, v.into_bits() as u64))
    }

    /// Discharge Cell 5 Configuration
    pub fn dcc5(&self) -> (r: types::DischargeCellConfig)
        ensures
            r == types::DischargeCellConfig::spec_from_bits(get_bits(self@, 36, 0x1) as u8),
    {
        let v = field(self.0, 36, 0x1);
        types::DischargeCellConfig::from_bits(v as u8)
    }

    /// This layout with the `dcc5` field replaced.
    pub fn with_dcc5(self, v: types::DischargeCellConfig) -> (r: ConfigB)
        ensures
            r@ == set_bits(self@, 36, 0x1, v@ as u64),
    {
        ConfigB(put(self.0, 36, 0x1, v.into_bits() as u64))
    }

    /// Discharge Cell 6 Configuration
    pub fn dcc6(&self) -> (r: types::DischargeCellConfig)
        ensures
            r == types::DischargeCellConfig::spec_from_bits(get_bits(self@, 37, 0x1) as u8),
    {
        let v = field(self.0, 37, 0x1);
        types::DischargeCellConfig::from_bits(v as u8)
    }

    /// This layout with the `dcc6` field replaced.
    pub fn with_dcc6(self, v: types::DischargeCellConfig) -> (r: ConfigB)
        ensures
            r@ == set_bits(self@, 37, 0x1, v@ as u64),
    {
        ConfigB(put(self.0, 37, 0x1, v.into_bits() as u64))
    }

    /// Discharge Cell 7 Configuration
    pub fn dcc7(&self) -> (r: types::DischargeCellConfig)
        ensures
            r == types::DischargeCellConfig::spec_from_bits(get_bits(self@, 38, 0x1) as u8),
    {
        let v = field(self.0, 38, 0x1);
        types::DischargeCellConfig::from_bits(v as u8)
    }

    /// This layout with the `dcc7` field replaced.
    pub fn with_dcc7(self, v: types::DischargeCellConfig) -> (r: ConfigB)
        ensures
            r@ == set_bits(self@, 38, 0x1, v@ as u64),
    {
        ConfigB(put(self.0, 38, 0x1, v.into_bits() as u64))
    }

    /// Discharge Cell 8 Configuration
    pub fn dcc8(&self) -> (r: types::DischargeCellConfig)
        ensures
            r == types::DischargeCellConfig::spec_from_bits(get_bits(self@, 39, 0x1) as u8),
    {
        let v = field(self.0, 39, 0x1);
        types::DischargeCellConfig::from_bits(v as u8)
    }

    /// This layout with the `dcc8` field replaced.
    pub fn with_dcc8(self, v: types::DischargeCellConfig) -> (r: ConfigB)
        ensures
            r@ == set_bits(self@, 39, 0x1, v@ as u64),
    {
        ConfigB(put(self.0, 39, 0x1, v.into_bits() as u64))
    }

    /// Discharge Cell 9 Configuration
    pub fn dcc9(&self) -> (r: types::DischargeCellConfig)
        ensures
            r == types::DischargeCellConfig::spec_from_bits(get_bits(self@, 40, 0x1) as u8),
    {
        let v = field(self.0, 40, 0x1);
        types::DischargeCellConfig::from_bits(v as u8)
    }

    /// This layout with the `dcc9` field replaced.
    pub fn with_dcc9(self, v: types::DischargeCellConfig) -> (r: ConfigB)
        ensures
            r@ == set_bits(self@, 40, 0x1, v@ as u64),
    {
        ConfigB(put(self.0, 40, 0x1, v.into_bits() as u64))
    }

    /// Discharge Cell 10 Configuration
    pub fn dcc10(&self) -> (r: types::DischargeCellConfig)
        ensures
            r == types::DischargeCellConfig::spec_from_bits(get_bits(self@, 41, 0x1) as u8),
    {
        let v = field(self.0, 41, 0x1);
        types::DischargeCellConfig::from_bits(v as u8)
    }

    /// This layout with the `dcc10` field replaced.
    pub fn with_dcc10(self, v: types::DischargeCellConfig) -> (r: ConfigB)
        ensures
            r@ == set_bits(self@, 41, 0x1, v@ as u64),
    {
        ConfigB(put(self.0, 41, 0x1, v.into_bits() as u64))
    }

    /// Discharge Cell 11 Configuration
    pub fn dcc11(&self) -> (r: types::DischargeCellConfig)
        ensures
            r == types::DischargeCellConfig::spec_from_bits(get_bits(self@, 42, 0x1) as u8),
    {
        let v = field(self.0, 42, 0x1);
        types::DischargeCellConfig::from_bits(v as u8)
    }

    /// This layout with the `dcc11` field replaced.
    pub fn with_dcc11(self, v: types::DischargeCellConfig) -> (r: ConfigB)
        ensures
            r@ == set_bits(self@, 42, 0x1, v@ as u64),
    {
        ConfigB(put(self.0, 42, 0x1, v.into_bits() as u64))
    }

    /// Discharge Cell 12 Configuration
    pub fn dcc12(&self) -> (r: types::DischargeCellConfig)
        ensures
            r == types::DischargeCellConfig::spec_from_bits(get_bits(self@, 43, 0x1) as u8),
    {
        let v = field(self.0, 43, 0x1);
        types::DischargeCellConfig::from_bits(v as u8)
    }

    /// This layout with the `dcc12` field replaced.
    pub fn with_dcc12(self, v: types::DischargeCellConfig) -> (r: ConfigB)
        ensures
            r@ == set_bits(self@, 43, 0x1, v@ as u64),
    {
        ConfigB(put(self.0, 43, 0x1, v.into_bits() as u64))
    }

    /// Discharge Cell 13 Configuration
    pub fn dcc13(&self) -> (r: types::DischargeCellConfig)
        ensures
            r == types::DischargeCellConfig::spec_from_bits(get_bits(self@, 44, 0x1) as u8),
    {
        let v = field(self.0, 44, 0x1);
        types::DischargeCellConfig::from_bits(v as u8)
    }

    /// This layout with the `dcc13` field replaced.
    pub fn with_dcc13(self, v: types::DischargeCellConfig) -> (r: ConfigB)
        ensures
            r@ == set_bits(self@, 44, 0x1, v@ as u64),
    {
        ConfigB(put(self.0, 44, 0x1, v.into_bits() as u64))
    }

    /// Discharge Cell 14 Configuration
    pub fn dcc14(&self) -> (r: types::DischargeCellConfig)
        ensures
            r == types::DischargeCellConfig::spec_from_bits(get_bits(self@, 45, 0x1) as u8),
    {
        let v = field(self.0, 45, 0x1);
        types::DischargeCellConfig::from_bits(v as u8)
    }

    /// This layout with the `dcc14` field replaced.
    pub fn with_dcc14(self, v: types::DischargeCellConfig) -> (r: ConfigB)
        ensures
            r@ == set_bits(self@, 45, 0x1, v@ as u64),
    {
        ConfigB(put(self.0, 45, 0x1, v.into_bits() as u64))
    }

    /// Discharge Cell 15 Configuration
    pub fn dcc15(&self) -> (r: types::DischargeCellConfig)
        ensures
            r == types::DischargeCellConfig::spec_from_bits(get_bits(self@, 46, 0x1) as u8),
    {
        let v = field(self.0, 46, 0x1);
        types::DischargeCellConfig::from_bits(v as u8)
    }

    /// This layout with the `dcc15` field replaced.
    pub fn with_dcc15(self, v: types::DischargeCellConfig) -> (r: ConfigB)
        ensures
            r@ == set_bits(self@, 46, 0x1, v@ as u64),
    {
        ConfigB(put(self.0, 46, 0x1, v.into_bits() as u64))
    }

    /// Discharge Cell 16 Configuration
    pub fn dcc16(&self) -> (r: types::DischargeCellConfig)
        ensures
            r == types::DischargeCellConfig::spec_from_bits(get_bits(self@, 47, 0x1) as u8),
    {
        let v = field(self.0, 47, 0x1);
        types::DischargeCellConfig::from_bits(v as u8)
    }

    /// This layout with the `dcc16` field replaced.
    pub fn with_dcc16(self, v: types::DischargeCellConfig) -> (r: ConfigB)
        ensures
            r@ == set_bits(self@, 47, 0x1, v@ as u64),
    {
        ConfigB(put(self.0, 47, 0x1, v.into_bits() as u64))
    }
}

impl Default for ConfigB {
    fn default() -> (r: ConfigB)
        ensures
            r@ == 0x7ff800u64,
    {
        ConfigB::new()
    }
}

impl ReadableGroup for ConfigB {
    open spec fn spec_read_command() -> (bool, u16) {
        (false, 0b00000100110u16)
    }

    fn read_command() -> (r: CommandFrame) {
        commands::config::rdcfgb().frame()
    }

    fn from_bytes(bytes: [u8; 6]) -> (r: ConfigB) {
        ConfigB::from_bytes(bytes)
    }
}

impl WritableGroup for ConfigB {
    open spec fn spec_write_command() -> (bool, u16) {
        (true, 0b00000100100u16)
    }

    fn write_command() -> (r: CommandFrame) {
        commands::config::wrcfgb().frame()
    }

    fn to_bytes(self) -> (r: [u8; 6]) {
        ConfigB::to_bytes(self)
    }
}

} // verus!
