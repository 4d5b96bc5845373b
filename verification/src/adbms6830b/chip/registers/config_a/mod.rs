//! Register Layouts and Bit Descriptions for Configuration Register Group A.
//!
//! For more info about these registers, see Table 102 on page 70 of the datasheet
//! and Table 55 on page 61 of the datasheet.

use vstd::prelude::*;

pub mod types;

use crate::bits::{field, from_le6, get_bits, le_bytes6, of_le6, put, set_bits, to_le6};
use crate::adbms6830b::chip::commands::{self, CommandFrame};
use crate::adbms6830b::chip::registers::{ReadableGroup, WritableGroup};

verus! {

/// Configuration Register Group A (CFGA). Contains six 1-byte registers (so 6 bytes total).
///
/// See Table 55 on page 61 of the datasheet.
#[derive(Clone, Copy, Debug, PartialEq, Eq)]
pub struct ConfigA(u64);

impl View for ConfigA {
    type V = u64;

    /// The raw bits of the layout.
    closed spec fn view(&self) -> u64 {
        self.0
    }
}

impl ConfigA {
    /// The value every field takes at power-up.
    pub fn new() -> (r: ConfigA)
        ensures
            r@ == 0x3ff000001u64,
    {
        ConfigA(0x3ff000001)
    }

    /// Wraps raw bits.
    pub fn from_bits(bits: u64) -> (r: ConfigA)
        ensures
            r@ == bits,
    {
        ConfigA(bits)
    }

    /// The raw bits.
    pub fn into_bits(self) -> (r: u64)
        ensures
            r == self@,
    {
        self.0
    }

    /// Serializes the register group into its six payload bytes, byte 0 first.
    pub fn to_bytes(self) -> (r: [u8; 6])
        ensures
            r@ == le_bytes6(self@),
    {
        to_le6(self.0)
    }

    /// Reconstructs the register group from its six payload bytes, byte 0 first.
    pub fn from_bytes(bytes: [u8; 6]) -> (r: ConfigA)
        ensures
            r@ == from_le6(bytes@),
    {
        ConfigA(of_le6(bytes))
    }

    /// C-ADC vs. S-ADC comparison voltage theshold. Three-bit field.
    pub fn cth(&self) -> (r: types::ComparisonThresholdVoltage)
        ensures
            r == types::ComparisonThresholdVoltage::spec_from_bits(get_bits(self@, 0, 0x7) as u8),
    {
        let v = field(self.0, 0, 0x7);
        types::ComparisonThresholdVoltage::from_bits(v as u8)
    }

    /// This layout with the `cth` field replaced.
    pub fn with_cth(self, v: types::ComparisonThresholdVoltage) -> (r: ConfigA)
        ensures
            r@ == set_bits(self@, 0, 0x7, v@ as u64),
    {
        ConfigA(put(self.0, 0, 0x7, v.into_bits() as u64))
    }

    /// Reference powered up (REFON). One-bit field.
    pub fn refon(&self) -> (r: types::ReferenceOn)
        ensures
            r == types::ReferenceOn::spec_from_bits(get_bits(self@, 7, 0x1) as u8),
    {
        let v = field(self.0, 7, 0x1);
        types::ReferenceOn::from_bits(v as u8)
    }

    /// This layout with the `refon` field replaced.
    pub fn with_refon(self, v: types::ReferenceOn) -> (r: ConfigA)
        ensures
            r@ == set_bits(self@, 7, 0x1, v@ as u64),
    {
        ConfigA(put(self.0, 7, 0x1, v.into_bits() as u64))
    }

    /// Forces oscillator counter fast.
    pub fn force_oscillator_counter_fast(&self) -> (r: bool)
        ensures
            r == (get_bits(self@, 8, 0x1) == 1),
    {
        let v = field(self.0, 8, 0x1);
        v == 1
    }

    /// This layout with the `force_oscillator_counter_fast` field replaced.
    pub fn with_force_oscillator_counter_fast(self, v: bool) -> (r: ConfigA)
        ensures
            r@ == set_bits(self@, 8, 0x1, (if v { 1u64 } else { 0u64 })),
    {
        ConfigA(put(self.0, 8, 0x1, if v { 1 } else { 0 }))
    }

    /// Forces oscillator counter slow.
    pub fn force_oscillator_counter_slow(&self) -> (r: bool)
        ensures
            r == (get_bits(self@, 9, 0x1) == 1),
    {
        let v = field(self.0, 9, 0x1);
        v == 1
    }

    /// This layout with the `force_oscillator_counter_slow` field replaced.
    pub fn with_force_oscillator_counter_slow(self, v: bool) -> (r: ConfigA)
        ensures
            r@ == set_bits(self@, 9, 0x1, (if v { 1u64 } else { 0u64 })),
    {
        ConfigA(put(self.0, 9, 0x1, if v { 1 } else { 0 }))
    }

    /// Forces supply error detection.
    pub fn force_supply_error_detection(&self) -> (r: bool)
        ensures
            r == (get_bits(self@, 10, 0x1) == 1),
    {
        let v = field(self.0, 10, 0x1);
        v == 1
    }

    /// This layout with the `force_supply_error_detection` field replaced.
    pub fn with_force_supply_error_detection(self, v: bool) -> (r: ConfigA)
        ensures
            r@ == set_bits(self@, 10, 0x1, (if v { 1u64 } else { 0u64 })),
    {
        ConfigA(put(self.0, 10, 0x1, if v { 1 } else { 0 }))
    }

    /// `true` selects supply OV and delta detection. `false` selects UV.
    pub fn ov_uv(&self) -> (r: bool)
        ensures
            r == (get_bits(self@, 11, 0x1) == 1),
    {
        let v = field(self.0, 11, 0x1);
        v == 1
    }

    /// This layout with the `ov_uv` field replaced.
    pub fn with_ov_uv(self, v: bool) -> (r: ConfigA)
        ensures
            r@ == set_bits(self@, 11, 0x1, (if v { 1u64 } else { 0u64 })),
    {
        ConfigA(put(self.0, 11, 0x1, if v { 1 } else { 0 }))
    }

    /// Sets THSD.
    pub fn thsd(&self) -> (r: bool)
        ensures
            r == (get_bits(self@, 12, 0x1) == 1),
    {
        let v = field(self.0, 12, 0x1);
        v == 1
    }

    /// This layout with the `thsd` field replaced.
    pub fn with_thsd(self, v: bool) -> (r: ConfigA)
        ensures
            r@ == set_bits(self@, 12, 0x1, (if v { 1u64 } else { 0u64 })),
    {
        ConfigA(put(self.0, 12, 0x1, if v { 1 } else { 0 }))
    }

    /// Forces nonvolatile memory (NVM) error detection (ED). Sets CED and SED.
    pub fn force_nvmed(&self) -> (r: bool)
        ensures
            r == (get_bits(self@, 13, 0x1) == 1),
    {
        let v = field(self.0, 13, 0x1);
        v == 1
    }

    /// This layout with the `force_nvmed` field replaced.
    pub fn with_force_nvmed(self, v: bool) -> (r: ConfigA)
        ensures
            r@ == set_bits(self@, 13, 0x1, (if v { 1u64 } else { 0u64 })),
    {
        ConfigA(put(self.0, 13, 0x1, if v { 1 } else { 0 }))
    }

    /// Forces NVM multiple error detection (MED). Sets CMED and SMED.
    pub fn force_nvmmed(&self) -> (r: bool)
        ensures
            r == (get_bits(self@, 14, 0x1) == 1),
    {
        let v = field(self.0, 14, 0x1);
        v == 1
    }

    /// This layout with the `force_nvmmed` field replaced.
    pub fn with_force_nvmmed(self, v: bool) -> (r: ConfigA)
        ensures
            r@ == set_bits(self@, 14, 0x1, (if v { 1u64 } else { 0u64 })),
    {
        ConfigA(put(self.0, 14, 0x1, if v { 1 } else { 0 }))
    }

    /// Forces TMODCHK.
    pub fn force_tomdchk(&self) -> (r: bool)
        ensures
            r == (get_bits(self@, 15, 0x1) == 1),
    {
        let v = field(self.0, 15, 0x1);
        v == 1
    }

    /// This layout with the `force_tomdchk` field replaced.
    pub fn with_force_tomdchk(self, v: bool) -> (r: ConfigA)
        ensures
            r@ == set_bits(self@, 15, 0x1, (if v { 1u64 } else { 0u64 })),
    {
        ConfigA(put(self.0, 15, 0x1, if v { 1 } else { 0 }))
    }

    /// Open wire soak times, for AUX commands.
    pub fn owa(&self) -> (r: types::OpenWireSoakTimeMultiplier)
        ensures
            r == types::OpenWireSoakTimeMultiplier::spec_from_bits(get_bits(self@, 19, 0x7) as u8),
    {
        let v = field(self.0, 19, 0x7);
        types::OpenWireSoakTimeMultiplier::from_bits(v as u8)
    }

    /// This layout with the `owa` field replaced.
    pub fn with_owa(self, v: types::OpenWireSoakTimeMultiplier) -> (r: ConfigA)
        ensures
            r@ == set_bits(self@, 19, 0x7, v@ as u64),
    {
        ConfigA(put(self.0, 19, 0x7, v.into_bits() as u64))
    }

    /// Soak time range.
    pub fn owrng(&self) -> (r: types::SoakTimeRange)
        ensures
            r == types::SoakTimeRange::spec_from_bits(get_bits(self@, 22, 0x1) as u8),
    {
        let v = field(self.0, 22, 0x1);
        types::SoakTimeRange::from_bits(v as u8)
    }

    /// This layout with the `owrng` field replaced.
    pub fn with_owrng(self, v: types::SoakTimeRange) -> (r: ConfigA)
        ensures
            r@ == set_bits(self@, 22, 0x1, v@ as u64),
    {
        ConfigA(put(self.0, 22, 0x1, v.into_bits() as u64))
    }

    /// Soak time enabled/disabled.
    pub fn soakon(&self) -> (r: types::SoakTimeOn)
        ensures
            r == types::SoakTimeOn::spec_from_bits(get_bits(self@, 23, 0x1) as u8),
    {
        let v = field(self.0, 23, 0x1);
        types::SoakTimeOn::from_bits(v as u8)
    }

    /// This layout with the `soakon` field replaced.
    pub fn with_soakon(self, v: types::SoakTimeOn) -> (r: ConfigA)
        ensures
            r@ == set_bits(self@, 23, 0x1, v@ as u64),
    {
        ConfigA(put(self.0, 23, 0x1, v.into_bits() as u64))
    }

    /// Pull-up/pull-down config for GPIO1.
    pub fn gpio1(&self) -> (r: types::GpioPullDownConfig)
        ensures
            r == types::GpioPullDownConfig::spec_from_bits(get_bits(self@, 24, 0x1) as u8),
    {
        let v = field(self.0, 24, 0x1);
        types::GpioPullDownConfig::from_bits(v as u8)
    }

    /// This layout with the `gpio1` field replaced.
    pub fn with_gpio1(self, v: types::GpioPullDownConfig) -> (r: ConfigA)
        ensures
            r@ == set_bits(self@, 24, 0x1, v@ as u64),
    {
        ConfigA(put(self.0, 24, 0x1, v.into_bits() as u64))
    }

    /// Pull-up/pull-down config for GPIO2.
    pub fn gpio2(&self) -> (r: types::GpioPullDownConfig)
        ensures
            r == types::GpioPullDownConfig::spec_from_bits(get_bits(self@, 25, 0x1) as u8),
    {
        let v = field(self.0, 25, 0x1);
        types::GpioPullDownConfig::from_bits(v as u8)
    }

    /// This layout with the `gpio2` field replaced.
    pub fn with_gpio2(self, v: types::GpioPullDownConfig) -> (r: ConfigA)
        ensures
            r@ == set_bits(self@, 25, 0x1, v@ as u64),
    {
        ConfigA(put(self.0, 25, 0x1, v.into_bits() as u64))
    }

    /// Pull-up/pull-down config for GPIO3.
    pub fn gpio3(&self) -> (r: types::GpioPullDownConfig)
        ensures
            r == types::GpioPullDownConfig::spec_from_bits(get_bits(self@, 26, 0x1) as u8),
    {
        let v = field(self.0, 26, 0x1);
        types::GpioPullDownConfig::from_bits(v as u8)
    }

    /// This layout with the `gpio3` field replaced.
    pub fn with_gpio3(self, v: types::GpioPullDownConfig) -> (r: ConfigA)
        ensures
            r@ == set_bits(self@, 26, 0x1, v@ as u64),
    {
        ConfigA(put(self.0, 26, 0x1, v.into_bits() as u64))
    }

    /// Pull-up/pull-down config for GPIO4.
    pub fn gpio4(&self) -> (r: types::GpioPullDownConfig)
        ensures
            r == types::GpioPullDownConfig::spec_from_bits(get_bits(self@, 27, 0x1) as u8),
    {
        let v = field(self.0, 27, 0x1);
        types::GpioPullDownConfig::from_bits(v as u8)
    }

    /// This layout with the `gpio4` field replaced.
    pub fn with_gpio4(self, v: types::GpioPullDownConfig) -> (r: ConfigA)
        ensures
            r@ == set_bits(self@, 27, 0x1, v@ as u64),
    {
        ConfigA(put(self.0, 27, 0x1, v.into_bits() as u64))
    }

    /// Pull-up/pull-down config for GPIO5.
    pub fn gpio5(&self) -> (r: types::GpioPullDownConfig)
        ensures
            r == types::GpioPullDownConfig::spec_from_bits(get_bits(self@, 28, 0x1) as u8),
    {
        let v = field(self.0, 28, 0x1);
        types::GpioPullDownConfig::from_bits(v as u8)
    }

    /// This layout with the `gpio5` field replaced.
    pub fn with_gpio5(self, v: types::GpioPullDownConfig) -> (r: ConfigA)
        ensures
            r@ == set_bits(self@, 28, 0x1, v@ as u64),
    {
        ConfigA(put(self.0, 28, 0x1, v.into_bits() as u64))
    }

    /// Pull-up/pull-down config for GPIO6.
    pub fn gpio6(&self) -> (r: types::GpioPullDownConfig)
        ensures
            r == types::GpioPullDownConfig::spec_from_bits(get_bits(self@, 29, 0x1) as u8),
    {
        let v = field(self.0, 29, 0x1);
        types::GpioPullDownConfig::from_bits(v as u8)
    }

    /// This layout with the `gpio6` field replaced.
    pub fn with_gpio6(self, v: types::GpioPullDownConfig) -> (r: ConfigA)
        ensures
            r@ == set_bits(self@, 29, 0x1, v@ as u64),
    {
        ConfigA(put(self.0, 29, 0x1, v.into_bits() as u64))
    }

    /// Pull-up/pull-down config for GPIO7.
    pub fn gpio7(&self) -> (r: types::GpioPullDownConfig)
        ensures
            r == types::GpioPullDownConfig::spec_from_bits(get_bits(self@, 30, 0x1) as u8),
    {
        let v = field(self.0, 30, 0x1);
        types::GpioPullDownConfig::from_bits(v as u8)
    }

    /// This layout with the `gpio7` field replaced.
    pub fn with_gpio7(self, v: types::GpioPullDownConfig) -> (r: ConfigA)
        ensures
            r@ == set_bits(self@, 30, 0x1, v@ as u64),
    {
        ConfigA(put(self.0, 30, 0x1, v.into_bits() as u64))
    }

    /// Pull-up/pull-down config for GPIO8.
    pub fn gpio8(&self) -> (r: types::GpioPullDownConfig)
        ensures
            r == types::GpioPullDownConfig::spec_from_bits(get_bits(self@, 31, 0x1) as u8),
    {
        let v = field(self.0, 31, 0x1);
        types::GpioPullDownConfig::from_bits(v as u8)
    }

    /// This layout with the `gpio8` field replaced.
    pub fn with_gpio8(self, v: types::GpioPullDownConfig) -> (r: ConfigA)
        ensures
            r@ == set_bits(self@, 31, 0x1, v@ as u64),
    {
        ConfigA(put(self.0, 31, 0x1, v.into_bits() as u64))
    }

    /// Pull-up/pull-down config for GPIO9.
    pub fn gpio9(&self) -> (r: types::GpioPullDownConfig)
        ensures
            r == types::GpioPullDownConfig::spec_from_bits(get_bits(self@, 32, 0x1) as u8),
    {
        let v = field(self.0, 32, 0x1);
        types::GpioPullDownConfig::from_bits(v as u8)
    }

    /// This layout with the `gpio9` field replaced.
    pub fn with_gpio9(self, v: types::GpioPullDownConfig) -> (r: ConfigA)
        ensures
            r@ == set_bits(self@, 32, 0x1, v@ as u64),
    {
        ConfigA(put(self.0, 32, 0x1, v.into_bits() as u64))
    }

    /// Pull-up/pull-down config for GPIO10.
    pub fn gpio10(&self) -> (r: types::GpioPullDownConfig)
        ensures
            r == types::GpioPullDownConfig::spec_from_bits(get_bits(self@, 33, 0x1) as u8),
    {
        let v = field(self.0, 33, 0x1);
        types::GpioPullDownConfig::from_bits(v as u8)
    }

    /// This layout with the `gpio10` field replaced.
    pub fn with_gpio10(self, v: types::GpioPullDownConfig) -> (r: ConfigA)
        ensures
            r@ == set_bits(self@, 33, 0x1, v@ as u64),
    {
        ConfigA(put(self.0, 33, 0x1, v.into_bits() as u64))
    }

    /// Infinite Impulse Response (IIR) filter configuration.
    pub fn fc(&self) -> (r: types::IirFilterConfig)
        ensures
            r == types::IirFilterConfig::spec_from_bits(get_bits(self@, 40, 0x7) as u8),
    {
        let v = field(self.0, 40, 0x7);
        types::IirFilterConfig::from_bits(v as u8)
    }

    /// This layout with the `fc` field replaced.
    pub fn with_fc(self, v: types::IirFilterConfig) -> (r: ConfigA)
        ensures
            r@ == set_bits(self@, 40, 0x7, v@ as u64),
    {
        ConfigA(put(self.0, 40, 0x7, v.into_bits() as u64))
    }

    /// Communication Break configuration.
    pub fn comm_bk(&self) -> (r: types::CommunicationBreak)
        ensures
            r == types::CommunicationBreak::spec_from_bits(get_bits(self@, 43, 0x1) as u8),
    {
        let v = field(self.0, 43, 0x1);
        types::CommunicationBreak::from_bits(v as u8)
    }

    /// This layout with the `comm_bk` field replaced.
    pub fn with_comm_bk(self, v: types::CommunicationBreak) -> (r: ConfigA)
        ensures
            r@ == set_bits(self@, 43, 0x1, v@ as u64),
    {
        ConfigA(put(self.0, 43, 0x1, v.into_bits() as u64))
    }

    /// Mute status configuration.
    pub fn mute_st(&self) -> (r: types::MuteStatus)
        ensures
            r == types::MuteStatus::spec_from_bits(get_bits(self@, 44, 0x1) as u8),
    {
        let v = field(self.0, 44, 0x1);
        types::MuteStatus::from_bits(v as u8)
    }

    /// This layout with the `mute_st` field replaced.
    pub fn with_mute_st(self, v: types::MuteStatus) -> (r: ConfigA)
        ensures
            r@ == set_bits(self@, 44, 0x1, v@ as u64),
    {
        ConfigA(put(self.0, 44, 0x1, v.into_bits() as u64))
    }

    /// Snapshot status configuration.
    pub fn snap_st(&self) -> (r: types::SnapshotStatus)
        ensures
            r == types::SnapshotStatus::spec_from_bits(get_bits(self@, 45, 0x1) as u8),
    {
        let v = field(self.0, 45, 0x1);
        types::SnapshotStatus::from_bits(v as u8)
    }

    /// This layout with the `snap_st` field replaced.
    pub fn with_snap_st(self, v: types::SnapshotStatus) -> (r: ConfigA)
        ensures
            r@ == set_bits(self@, 45, 0x1, v@ as u64),
    {
        ConfigA(put(self.0, 45, 0x1, v.into_bits() as u64))
    }
}

impl Default for ConfigA {
    fn default() -> (r: ConfigA)
        ensures
            r@ == 0x3ff000001u64,
    {
        ConfigA::new()
    }
}

impl ReadableGroup for ConfigA {
    open spec fn spec_read_command() -> (bool, u16) {
        (false, 0b00000000010u16)
    }

    fn read_command() -> (r: CommandFrame) {
        commands::config::rdcfga().frame()
    }

    fn from_bytes(bytes: [u8; 6]) -> (r: ConfigA) {
        ConfigA::from_bytes(bytes)
    }
}

impl WritableGroup for ConfigA {
    open spec fn spec_write_command() -> (bool, u16) {
        (true, 0b00000000001u16)
    }

    fn write_command() -> (r: CommandFrame) {
        commands::config::wrcfga().frame()
    }

    fn to_bytes(self) -> (r: [u8; 6]) {
        ConfigA::to_bytes(self)
    }
}

} // verus!
