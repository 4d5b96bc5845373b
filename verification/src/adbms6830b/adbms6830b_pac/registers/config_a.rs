//! Register Layouts and Bit Descriptions for Configuration Register A. See Table 102 of the datasheet.

use vstd::prelude::*;

use crate::bits::{field8, get_bits8, put8, set_bits8};
use super::{RegisterGroup, RegisterKind};

verus! {

/// Reference powered up (REFON). One-bit field.
#[derive(Clone, Copy, Debug, PartialEq, Eq, Structural)]
pub enum ReferenceOn {
    /// Reference remains powered up until watchdog timeout.
    On,
    /// Reference shuts down after conversions (default).
    Off,
}

impl View for ReferenceOn {
    type V = u8;

    /// The raw field value of this code.
    open spec fn view(&self) -> u8 {
        match self {
            ReferenceOn::On => 1u8,
            ReferenceOn::Off => 0u8,
        }
    }
}

impl ReferenceOn {
    /// Every variant stands for the field value the datasheet gives it.
    pub proof fn lemma_codes()
        ensures
            ReferenceOn::On@ == 1u8,
            ReferenceOn::Off@ == 0u8,
    {
    }
}

impl ReferenceOn {
    /// The power-up value of this field.
    pub const DEFAULT: ReferenceOn = ReferenceOn::Off;

    /// The code a raw field value decodes to; values with no code of their own decode to `Off`.
    pub open spec fn spec_from_bits(bits: u8) -> ReferenceOn {
        if bits % 2 == 1 {
            ReferenceOn::On
        } else {
            ReferenceOn::Off
        }
    }

    /// Decodes a raw field value (only its low bits count).
    pub fn from_bits(bits: u8) -> (r: ReferenceOn)
        ensures
            r == ReferenceOn::spec_from_bits(bits),
    {
        proof {
            crate::bits::lemma_u8_low_masks(bits);
        }
        let v = bits & 1;
        if v == 1 {
            ReferenceOn::On
        } else {
            ReferenceOn::Off
        }
    }

    /// The raw field value of this code.
    pub fn into_bits(self) -> (r: u8)
        ensures
            r == self@,
            r <= 1,
    {
        match self {
            ReferenceOn::On => 1,
            ReferenceOn::Off => 0,
        }
    }

    /// Decoding the raw value of a code gives the code back.
    pub proof fn lemma_roundtrip(self)
        ensures
            ReferenceOn::spec_from_bits(self@) == self,
    {
    }
}

impl Default for ReferenceOn {
    fn default() -> (r: ReferenceOn)
        ensures
            r == ReferenceOn::Off,
    {
        ReferenceOn::Off
    }
}

/// C-ADC vs. S-ADC comparison voltage theshold. Three-bit field.
#[derive(Clone, Copy, Debug, PartialEq, Eq, Structural)]
pub enum ComparisonThresholdVoltage {
    /// 5.1 mV
    Mv5_1,
    /// 8.1 mV (default)
    Mv8_1,
    /// 9.0 mV
    Mv9_0,
    /// 10.05 mV
    Mv10_05,
    /// 15.00 mV
    Mv15_00,
    /// 19.95 mV
    Mv19_95,
    /// 25.05 mV
    Mv25_05,
    /// 40.05 mV
    Mv40_05,
}

impl View for ComparisonThresholdVoltage {
    type V = u8;

    /// The raw field value of this code.
    open spec fn view(&self) -> u8 {
        match self {
            ComparisonThresholdVoltage::Mv5_1 => 0u8,
            ComparisonThresholdVoltage::Mv8_1 => 1u8,
            ComparisonThresholdVoltage::Mv9_0 => 2u8,
            ComparisonThresholdVoltage::Mv10_05 => 3u8,
            ComparisonThresholdVoltage::Mv15_00 => 4u8,
            ComparisonThresholdVoltage::Mv19_95 => 5u8,
            ComparisonThresholdVoltage::Mv25_05 => 6u8,
            ComparisonThresholdVoltage::Mv40_05 => 7u8,
        }
    }
}

impl ComparisonThresholdVoltage {
    /// Every variant stands for the field value the datasheet gives it.
    pub proof fn lemma_codes()
        ensures
            ComparisonThresholdVoltage::Mv5_1@ == 0u8,
            ComparisonThresholdVoltage::Mv8_1@ == 1u8,
            ComparisonThresholdVoltage::Mv9_0@ == 2u8,
            ComparisonThresholdVoltage::Mv10_05@ == 3u8,
            ComparisonThresholdVoltage::Mv15_00@ == 4u8,
            ComparisonThresholdVoltage::Mv19_95@ == 5u8,
            ComparisonThresholdVoltage::Mv25_05@ == 6u8,
            ComparisonThresholdVoltage::Mv40_05@ == 7u8,
    {
    }
}

impl ComparisonThresholdVoltage {
    /// The power-up value of this field.
    pub const DEFAULT: ComparisonThresholdVoltage = ComparisonThresholdVoltage::Mv8_1;

    /// The code a raw field value decodes to; values with no code of their own decode to `Mv8_1`.
    pub open spec fn spec_from_bits(bits: u8) -> ComparisonThresholdVoltage {
        if bits % 8 == 0 {
            ComparisonThresholdVoltage::Mv5_1
        } else if bits % 8 == 2 {
            ComparisonThresholdVoltage::Mv9_0
        } else if bits % 8 == 3 {
            ComparisonThresholdVoltage::Mv10_05
        } else if bits % 8 == 4 {
            ComparisonThresholdVoltage::Mv15_00
        } else if bits % 8 == 5 {
            ComparisonThresholdVoltage::Mv19_95
        } else if bits % 8 == 6 {
            ComparisonThresholdVoltage::Mv25_05
        } else if bits % 8 == 7 {
            ComparisonThresholdVoltage::Mv40_05
        } else {
            ComparisonThresholdVoltage::Mv8_1
        }
    }

    /// Decodes a raw field value (only its low bits count).
    pub fn from_bits(bits: u8) -> (r: ComparisonThresholdVoltage)
        ensures
            r == ComparisonThresholdVoltage::spec_from_bits(bits),
    {
        proof {
            crate::bits::lemma_u8_low_masks(bits);
        }
        let v = bits & 7;
        if v == 0 {
            ComparisonThresholdVoltage::Mv5_1
        } else if v == 2 {
            ComparisonThresholdVoltage::Mv9_0
        } else if v == 3 {
            ComparisonThresholdVoltage::Mv10_05
        } else if v == 4 {
            ComparisonThresholdVoltage::Mv15_00
        } else if v == 5 {
            ComparisonThresholdVoltage::Mv19_95
        } else if v == 6 {
            ComparisonThresholdVoltage::Mv25_05
        } else if v == 7 {
            ComparisonThresholdVoltage::Mv40_05
        } else {
            ComparisonThresholdVoltage::Mv8_1
        }
    }

    /// The raw field value of this code.
    pub fn into_bits(self) -> (r: u8)
        ensures
            r == self@,
            r <= 7,
    {
        match self {
            ComparisonThresholdVoltage::Mv5_1 => 0,
            ComparisonThresholdVoltage::Mv8_1 => 1,
            ComparisonThresholdVoltage::Mv9_0 => 2,
            ComparisonThresholdVoltage::Mv10_05 => 3,
            ComparisonThresholdVoltage::Mv15_00 => 4,
            ComparisonThresholdVoltage::Mv19_95 => 5,
            ComparisonThresholdVoltage::Mv25_05 => 6,
            ComparisonThresholdVoltage::Mv40_05 => 7,
        }
    }

    /// Decoding the raw value of a code gives the code back.
    pub proof fn lemma_roundtrip(self)
        ensures
            ComparisonThresholdVoltage::spec_from_bits(self@) == self,
    {
    }
}

impl Default for ComparisonThresholdVoltage {
    fn default() -> (r: ComparisonThresholdVoltage)
        ensures
            r == ComparisonThresholdVoltage::Mv8_1,
    {
        ComparisonThresholdVoltage::Mv8_1
    }
}

/// First register in Configuration Register Group A (CFGAR0). 1 byte. See Table 55 on page 61 of the datasheet.
#[derive(Clone, Copy, Debug, PartialEq, Eq)]
pub struct ConfigA0(u8);

impl View for ConfigA0 {
    type V = u8;

    /// The raw bits of the layout.
    closed spec fn view(&self) -> u8 {
        self.0
    }
}

impl ConfigA0 {
    /// The value every field takes at power-up.
    pub fn new() -> (r: ConfigA0)
        ensures
            r@ == 0x0u8,
    {
        ConfigA0(0x0)
    }

    /// Wraps raw bits.
    pub fn from_bits(bits: u8) -> (r: ConfigA0)
        ensures
            r@ == bits,
    {
        ConfigA0(bits)
    }

    /// The raw bits.
    pub fn into_bits(self) -> (r: u8)
        ensures
            r == self@,
    {
        self.0
    }

    /// The `cth` field.
    pub fn cth(&self) -> (r: ComparisonThresholdVoltage)
        ensures
            r == ComparisonThresholdVoltage::spec_from_bits(get_bits8(self@, 0, 0x7) as u8),
    {
        let v = field8(self.0, 0, 0x7);
        ComparisonThresholdVoltage::from_bits(v as u8)
    }

    /// This layout with the `cth` field replaced.
    pub fn with_cth(self, v: ComparisonThresholdVoltage) -> (r: ConfigA0)
        ensures
            r@ == set_bits8(self@, 0, 0x7, v@ as u8),
    {
        ConfigA0(put8(self.0, 0, 0x7, v.into_bits() as u8))
    }

    /// The `refon` field.
    pub fn refon(&self) -> (r: ReferenceOn)
        ensures
            r == ReferenceOn::spec_from_bits(get_bits8(self@, 7, 0x1) as u8),
    {
        let v = field8(self.0, 7, 0x1);
        ReferenceOn::from_bits(v as u8)
    }

    /// This layout with the `refon` field replaced.
    pub fn with_refon(self, v: ReferenceOn) -> (r: ConfigA0)
        ensures
            r@ == set_bits8(self@, 7, 0x1, v@ as u8),
    {
        ConfigA0(put8(self.0, 7, 0x1, v.into_bits() as u8))
    }
}

impl RegisterGroup for ConfigA0 {
    /// Both parts of Config A can be read and written.
    open spec fn spec_kind() -> RegisterKind {
        RegisterKind::ReadWrite
    }

    fn kind() -> (r: RegisterKind) {
        RegisterKind::ReadWrite
    }
}

/// Second register in Configuration Register Group A (CFGAR1). 1 byte. See Table 55 on page 61 of the datasheet.
#[derive(Clone, Copy, Debug, PartialEq, Eq)]
pub struct ConfigA1(u8);

impl View for ConfigA1 {
    type V = u8;

    /// The raw bits of the layout.
    closed spec fn view(&self) -> u8 {
        self.0
    }
}

impl ConfigA1 {
    /// The value every field takes at power-up.
    pub fn new() -> (r: ConfigA1)
        ensures
            r@ == 0x0u8,
    {
        ConfigA1(0x0)
    }

    /// Wraps raw bits.
    pub fn from_bits(bits: u8) -> (r: ConfigA1)
        ensures
            r@ == bits,
    {
        ConfigA1(bits)
    }

    /// The raw bits.
    pub fn into_bits(self) -> (r: u8)
        ensures
            r == self@,
    {
        self.0
    }

    /// Forces oscillator counter fast.
    pub fn force_oscillator_counter_fast(&self) -> (r: bool)
        ensures
            r == (get_bits8(self@, 0, 0x1) == 1),
    {
        let v = field8(self.0, 0, 0x1);
        v == 1
    }

    /// This layout with the `force_oscillator_counter_fast` field replaced.
    pub fn with_force_oscillator_counter_fast(self, v: bool) -> (r: ConfigA1)
        ensures
            r@ == set_bits8(self@, 0, 0x1, (if v { 1u8 } else { 0u8 })),
    {
        ConfigA1(put8(self.0, 0, 0x1, if v { 1 } else { 0 }))
    }

    /// Forces oscillator counter slow.
    pub fn force_oscillator_counter_slow(&self) -> (r: bool)
        ensures
            r == (get_bits8(self@, 1, 0x1) == 1),
    {
        let v = field8(self.0, 1, 0x1);
        v == 1
    }

    /// This layout with the `force_oscillator_counter_slow` field replaced.
    pub fn with_force_oscillator_counter_slow(self, v: bool) -> (r: ConfigA1)
        ensures
            r@ == set_bits8(self@, 1, 0x1, (if v { 1u8 } else { 0u8 })),
    {
        ConfigA1(put8(self.0, 1, 0x1, if v { 1 } else { 0 }))
    }

    /// Forces supply error detection.
    pub fn force_supply_error_detection(&self) -> (r: bool)
        ensures
            r == (get_bits8(self@, 2, 0x1) == 1),
    {
        let v = field8(self.0, 2, 0x1);
        v == 1
    }

    /// This layout with the `force_supply_error_detection` field replaced.
    pub fn with_force_supply_error_detection(self, v: bool) -> (r: ConfigA1)
        ensures
            r@ == set_bits8(self@, 2, 0x1, (if v { 1u8 } else { 0u8 })),
    {
        ConfigA1(put8(self.0, 2, 0x1, if v { 1 } else { 0 }))
    }

    /// `true` selects supply OV and delta detection. `false` selects UV.
    pub fn ov_uv(&self) -> (r: bool)
        ensures
            r == (get_bits8(self@, 3, 0x1) == 1),
    {
        let v = field8(self.0, 3, 0x1);
        v == 1
    }

    /// This layout with the `ov_uv` field replaced.
    pub fn with_ov_uv(self, v: bool) -> (r: ConfigA1)
        ensures
            r@ == set_bits8(self@, 3, 0x1, (if v { 1u8 } else { 0u8 })),
    {
        ConfigA1(put8(self.0, 3, 0x1, if v { 1 } else { 0 }))
    }

    /// Sets THSD.
    pub fn thsd(&self) -> (r: bool)
        ensures
            r == (get_bits8(self@, 4, 0x1) == 1),
    {
        let v = field8(self.0, 4, 0x1);
        v == 1
    }

    /// This layout with the `thsd` field replaced.
    pub fn with_thsd(self, v: bool) -> (r: ConfigA1)
        ensures
            r@ == set_bits8(self@, 4, 0x1, (if v { 1u8 } else { 0u8 })),
    {
        ConfigA1(put8(self.0, 4, 0x1, if v { 1 } else { 0 }))
    }

    /// Forces nonvolatile memory (NVM) error detection (ED). Sets CED and SED.
    pub fn force_nvmed(&self) -> (r: bool)
        ensures
            r == (get_bits8(self@, 5, 0x1) == 1),
    {
        let v = field8(self.0, 5, 0x1);
        v == 1
    }

    /// This layout with the `force_nvmed` field replaced.
    pub fn with_force_nvmed(self, v: bool) -> (r: ConfigA1)
        ensures
            r@ == set_bits8(self@, 5, 0x1, (if v { 1u8 } else { 0u8 })),
    {
        ConfigA1(put8(self.0, 5, 0x1, if v { 1 } else { 0 }))
    }

    /// Forces NVM multiple error detection (MED). Sets CMED and SMED.
    pub fn force_nvmmed(&self) -> (r: bool)
        ensures
            r == (get_bits8(self@, 6, 0x1) == 1),
    {
        let v = field8(self.0, 6, 0x1);
        v == 1
    }

    /// This layout with the `force_nvmmed` field replaced.
    pub fn with_force_nvmmed(self, v: bool) -> (r: ConfigA1)
        ensures
            r@ == set_bits8(self@, 6, 0x1, (if v { 1u8 } else { 0u8 })),
    {
        ConfigA1(put8(self.0, 6, 0x1, if v { 1 } else { 0 }))
    }

    /// Forces TMODCHK.
    pub fn force_tomdchk(&self) -> (r: bool)
        ensures
            r == (get_bits8(self@, 7, 0x1) == 1),
    {
        let v = field8(self.0, 7, 0x1);
        v == 1
    }

    /// This layout with the `force_tomdchk` field replaced.
    pub fn with_force_tomdchk(self, v: bool) -> (r: ConfigA1)
        ensures
            r@ == set_bits8(self@, 7, 0x1, (if v { 1u8 } else { 0u8 })),
    {
        ConfigA1(put8(self.0, 7, 0x1, if v { 1 } else { 0 }))
    }
}

impl RegisterGroup for ConfigA1 {
    /// Both parts of Config A can be read and written.
    open spec fn spec_kind() -> RegisterKind {
        RegisterKind::ReadWrite
    }

    fn kind() -> (r: RegisterKind) {
        RegisterKind::ReadWrite
    }
}

} // verus!
