//! PWM register groups A and B.

use vstd::prelude::*;

pub mod types;

use crate::bits::{field, from_le6, get_bits, le_bytes6, of_le6, put, set_bits, to_le6};
use crate::adbms6830b::chip::commands::{self, CommandFrame};
use crate::adbms6830b::chip::registers::{ReadableGroup, WritableGroup};

verus! {

/// PWM Register Group A (PWMA). Contains six 1-byte registers (so 6 bytes total).
///
/// This contains PWM1 through PWM12
///
/// See Table 95 on page 68 of the datasheet.
#[derive(Clone, Copy, Debug, PartialEq, Eq)]
pub struct PwmA(u64);

impl View for PwmA {
    type V = u64;

    /// The raw bits of the layout.
    closed spec fn view(&self) -> u64 {
        self.0
    }
}

impl PwmA {
    /// The value every field takes at power-up.
    pub fn new() -> (r: PwmA)
        ensures
            r@ == 0x0u64,
    {
        PwmA(0x0)
    }

    /// Wraps raw bits.
    pub fn from_bits(bits: u64) -> (r: PwmA)
        ensures
            r@ == bits,
    {
        PwmA(bits)
    }

    /// The raw bits.
    pub fn into_bits(self) -> (r: u64)
        ensures
            r == self@,
    {
        self.0
    }

    /// Serializes the register group into its six payload bytes, byte 0 first.
    pub fn to_bytes(self) -> (r: [u8; 6])
        ensures
            r@ == le_bytes6(self@),
    {
        to_le6(self.0)
    }

    /// Reconstructs the register group from its six payload bytes, byte 0 first.
    pub fn from_bytes(bytes: [u8; 6]) -> (r: PwmA)
        ensures
            r@ == from_le6(bytes@),
    {
        PwmA(of_le6(bytes))
    }

    /// Cell 1 PWM Duty Cycle config. Corresponds to `PWM1[3:0]`.
    pub fn pwm1(&self) -> (r: types::PwmDutyCycleConfig)
        ensures
            r == types::PwmDutyCycleConfig::spec_from_bits(get_bits(self@, 0, 0xf) as u8),
    {
        let v = field(self.0, 0, 0xf);
        types::PwmDutyCycleConfig::from_bits(v as u8)
    }

    /// This layout with the `pwm1` field replaced.
    pub fn with_pwm1(self, v: types::PwmDutyCycleConfig) -> (r: PwmA)
        ensures
            r@ == set_bits(self@, 0, 0xf, v@ as u64),
    {
        PwmA(put(self.0, 0, 0xf, v.into_bits() as u64))
    }

    /// Cell 2 PWM Duty Cycle config. Corresponds to `PWM2[3:0]`.
    pub fn pwm2(&self) -> (r: types::PwmDutyCycleConfig)
        ensures
            r == types::PwmDutyCycleConfig::spec_from_bits(get_bits(self@, 4, 0xf) as u8),
    {
        let v = field(self.0, 4, 0xf);
        types::PwmDutyCycleConfig::from_bits(v as u8)
    }

    /// This layout with the `pwm2` field replaced.
    pub fn with_pwm2(self, v: types::PwmDutyCycleConfig) -> (r: PwmA)
        ensures
            r@ == set_bits(self@, 4, 0xf, v@ as u64),
    {
        PwmA(put(self.0, 4, 0xf, v.into_bits() as u64))
    }

    /// Cell 3 PWM Duty Cycle config. Corresponds to `PWM3[3:0]`.
    pub fn pwm3(&self) -> (r: types::PwmDutyCycleConfig)
        ensures
            r == types::PwmDutyCycleConfig::spec_from_bits(get_bits(self@, 8, 0xf) as u8),
    {
        let v = field(self.0, 8, 0xf);
        types::PwmDutyCycleConfig::from_bits(v as u8)
    }

    /// This layout with the `pwm3` field replaced.
    pub fn with_pwm3(self, v: types::PwmDutyCycleConfig) -> (r: PwmA)
        ensures
            r@ == set_bits(self@, 8, 0xf, v@ as u64),
    {
        PwmA(put(self.0, 8, 0xf, v.into_bits() as u64))
    }

    /// Cell 4 PWM Duty Cycle config. Corresponds to `PWM4[3:0]`.
    pub fn pwm4(&self) -> (r: types::PwmDutyCycleConfig)
        ensures
            r == types::PwmDutyCycleConfig::spec_from_bits(get_bits(self@, 12, 0xf) as u8),
    {
        let v = field(self.0, 12, 0xf);
        types::PwmDutyCycleConfig::from_bits(v as u8)
    }

    /// This layout with the `pwm4` field replaced.
    pub fn with_pwm4(self, v: types::PwmDutyCycleConfig) -> (r: PwmA)
        ensures
            r@ == set_bits(self@, 12, 0xf, v@ as u64),
    {
        PwmA(put(self.0, 12, 0xf, v.into_bits() as u64))
    }

    /// Cell 5 PWM Duty Cycle config. Corresponds to `PWM5[3:0]`.
    pub fn pwm5(&self) -> (r: types::PwmDutyCycleConfig)
        ensures
            r == types::PwmDutyCycleConfig::spec_from_bits(get_bits(self@, 16, 0xf) as u8),
    {
        let v = field(self.0, 16, 0xf);
        types::PwmDutyCycleConfig::from_bits(v as u8)
    }

    /// This layout with the `pwm5` field replaced.
    pub fn with_pwm5(self, v: types::PwmDutyCycleConfig) -> (r: PwmA)
        ensures
            r@ == set_bits(self@, 16, 0xf, v@ as u64),
    {
        PwmA(put(self.0, 16, 0xf, v.into_bits() as u64))
    }

    /// Cell 6 PWM Duty Cycle config. Corresponds to `PWM6[3:0]`.
    pub fn pwm6(&self) -> (r: types::PwmDutyCycleConfig)
        ensures
            r == types::PwmDutyCycleConfig::spec_from_bits(get_bits(self@, 20, 0xf) as u8),
    {
        let v = field(self.0, 20, 0xf);
        types::PwmDutyCycleConfig::from_bits(v as u8)
    }

    /// This layout with the `pwm6` field replaced.
    pub fn with_pwm6(self, v: types::PwmDutyCycleConfig) -> (r: PwmA)
        ensures
            r@ == set_bits(self@, 20, 0xf, v@ as u64),
    {
        PwmA(put(self.0, 20, 0xf, v.into_bits() as u64))
    }

    /// Cell 7 PWM Duty Cycle config. Corresponds to `PWM7[3:0]`.
    pub fn pwm7(&self) -> (r: types::PwmDutyCycleConfig)
        ensures
            r == types::PwmDutyCycleConfig::spec_from_bits(get_bits(self@, 24, 0xf) as u8),
    {
        let v = field(self.0, 24, 0xf);
        types::PwmDutyCycleConfig::from_bits(v as u8)
    }

    /// This layout with the `pwm7` field replaced.
    pub fn with_pwm7(self, v: types::PwmDutyCycleConfig) -> (r: PwmA)
        ensures
            r@ == set_bits(self@, 24, 0xf, v@ as u64),
    {
        PwmA(put(self.0, 24, 0xf, v.into_bits() as u64))
    }

    /// Cell 8 PWM Duty Cycle config. Corresponds to `PWM8[3:0]`.
    pub fn pwm8(&self) -> (r: types::PwmDutyCycleConfig)
        ensures
            r == types::PwmDutyCycleConfig::spec_from_bits(get_bits(self@, 28, 0xf) as u8),
    {
        let v = field(self.0, 28, 0xf);
        types::PwmDutyCycleConfig::from_bits(v as u8)
    }

    /// This layout with the `pwm8` field replaced.
    pub fn with_pwm8(self, v: types::PwmDutyCycleConfig) -> (r: PwmA)
        ensures
            r@ == set_bits(self@, 28, 0xf, v@ as u64),
    {
        PwmA(put(self.0, 28, 0xf, v.into_bits() as u64))
    }

    /// Cell 9 PWM Duty Cycle config. Corresponds to `PWM9[3:0]`.
    pub fn pwm9(&self) -> (r: types::PwmDutyCycleConfig)
        ensures
            r == types::PwmDutyCycleConfig::spec_from_bits(get_bits(self@, 32, 0xf) as u8),
    {
        let v = field(self.0, 32, 0xf);
        types::PwmDutyCycleConfig::from_bits(v as u8)
    }

    /// This layout with the `pwm9` field replaced.
    pub fn with_pwm9(self, v: types::PwmDutyCycleConfig) -> (r: PwmA)
        ensures
            r@ == set_bits(self@, 32, 0xf, v@ as u64),
    {
        PwmA(put(self.0, 32, 0xf, v.into_bits() as u64))
    }

    /// Cell 10 PWM Duty Cycle config. Corresponds to `PWM10[3:0]`.
    pub fn pwm10(&self) -> (r: types::PwmDutyCycleConfig)
        ensures
            r == types::PwmDutyCycleConfig::spec_from_bits(get_bits(self@, 36, 0xf) as u8),
    {
        let v = field(self.0, 36, 0xf);
        types::PwmDutyCycleConfig::from_bits(v as u8)
    }

    /// This layout with the `pwm10` field replaced.
    pub fn with_pwm10(self, v: types::PwmDutyCycleConfig) -> (r: PwmA)
        ensures
            r@ == set_bits(self@, 36, 0xf, v@ as u64),
    {
        PwmA(put(self.0, 36, 0xf, v.into_bits() as u64))
    }

    /// Cell 11 PWM Duty Cycle config. Corresponds to `PWM11[3:0]`.
    pub fn pwm11(&self) -> (r: types::PwmDutyCycleConfig)
        ensures
            r == types::PwmDutyCycleConfig::spec_from_bits(get_bits(self@, 40, 0xf) as u8),
    {
        let v = field(self.0, 40, 0xf);
        types::PwmDutyCycleConfig::from_bits(v as u8)
    }

    /// This layout with the `pwm11` field replaced.
    pub fn with_pwm11(self, v: types::PwmDutyCycleConfig) -> (r: PwmA)
        ensures
            r@ == set_bits(self@, 40, 0xf, v@ as u64),
    {
        PwmA(put(self.0, 40, 0xf, v.into_bits() as u64))
    }

    /// Cell 12 PWM Duty Cycle config. Corresponds to `PWM12[3:0]`.
    pub fn pwm12(&self) -> (r: types::PwmDutyCycleConfig)
        ensures
            r == types::PwmDutyCycleConfig::spec_from_bits(get_bits(self@, 44, 0xf) as u8),
    {
        let v = field(self.0, 44, 0xf);
        types::PwmDutyCycleConfig::from_bits(v as u8)
    }

    /// This layout with the `pwm12` field replaced.
    pub fn with_pwm12(self, v: types::PwmDutyCycleConfig) -> (r: PwmA)
        ensures
            r@ == set_bits(self@, 44, 0xf, v@ as u64),
    {
        PwmA(put(self.0, 44, 0xf, v.into_bits() as u64))
    }
}

impl Default for PwmA {
    fn default() -> (r: PwmA)
        ensures
            r@ == 0x0u64,
    {
        PwmA::new()
    }
}

impl ReadableGroup for PwmA {
    open spec fn spec_read_command() -> (bool, u16) {
        (false, 0b00000100010u16)
    }

    fn read_command() -> (r: CommandFrame) {
        commands::pwm::rdpwma().frame()
    }

    fn from_bytes(bytes: [u8; 6]) -> (r: PwmA) {
        PwmA::from_bytes(bytes)
    }
}

impl WritableGroup for PwmA {
    open spec fn spec_write_command() -> (bool, u16) {
        (true, 0b00000100000u16)
    }

    fn write_command() -> (r: CommandFrame) {
        commands::pwm::wrpwma().frame()
    }

    fn to_bytes(self) -> (r: [u8; 6]) {
        PwmA::to_bytes(self)
    }
}

/// PWM Register Group B (PWMB). Contains six 1-byte registers (so 6 bytes total), but the last 4 bytes are reserved (constant 1s).
///
/// This contains PWM13 through PWM16.
///
/// See Table 96 on page 69 of the datasheet.
#[derive(Clone, Copy, Debug, PartialEq, Eq)]
pub struct PwmB(u64);

impl View for PwmB {
    type V = u64;

    /// The raw bits of the layout.
    closed spec fn view(&self) -> u64 {
        self.0
    }
}

impl PwmB {
    /// The value every field takes at power-up.
    pub fn new() -> (r: PwmB)
        ensures
            r@ == 0xffffffff0000u64,
    {
        PwmB(0xffffffff0000)
    }

    /// Wraps raw bits.
    pub fn from_bits(bits: u64) -> (r: PwmB)
        ensures
            r@ == bits,
    {
        PwmB(bits)
    }

    /// The raw bits.
    pub fn into_bits(self) -> (r: u64)
        ensures
            r == self@,
    {
        self.0
    }

    /// Serializes the register group into its six payload bytes, byte 0 first.
    pub fn to_bytes(self) -> (r: [u8; 6])
        ensures
            r@ == le_bytes6(self@),
    {
        to_le6(self.0)
    }

    /// Reconstructs the register group from its six payload bytes, byte 0 first.
    pub fn from_bytes(bytes: [u8; 6]) -> (r: PwmB)
        ensures
            r@ == from_le6(bytes@),
    {
        PwmB(of_le6(bytes))
    }

    /// Cell 13 PWM Duty Cycle config. Corresponds to `PWM13[3:0]`.
    pub fn pwm13(&self) -> (r: types::PwmDutyCycleConfig)
        ensures
            r == types::PwmDutyCycleConfig::spec_from_bits(get_bits(self@, 0, 0xf) as u8),
    {
        let v = field(self.0, 0, 0xf);
        types::PwmDutyCycleConfig::from_bits(v as u8)
    }

    /// This layout with the `pwm13` field replaced.
    pub fn with_pwm13(self, v: types::PwmDutyCycleConfig) -> (r: PwmB)
        ensures
            r@ == set_bits(self@, 0, 0xf, v@ as u64),
    {
        PwmB(put(self.0, 0, 0xf, v.into_bits() as u64))
    }

    /// Cell 14 PWM Duty Cycle config. Corresponds to `PWM14[3:0]`.
    pub fn pwm14(&self) -> (r: types::PwmDutyCycleConfig)
        ensures
            r == types::PwmDutyCycleConfig::spec_from_bits(get_bits(self@, 4, 0xf) as u8),
    {
        let v = field(self.0, 4, 0xf);
        types::PwmDutyCycleConfig::from_bits(v as u8)
    }

    /// This layout with the `pwm14` field replaced.
    pub fn with_pwm14(self, v: types::PwmDutyCycleConfig) -> (r: PwmB)
        ensures
            r@ == set_bits(self@, 4, 0xf, v@ as u64),
    {
        PwmB(put(self.0, 4, 0xf, v.into_bits() as u64))
    }

    /// Cell 15 PWM Duty Cycle config. Corresponds to `PWM15[3:0]`.
    pub fn pwm15(&self) -> (r: types::PwmDutyCycleConfig)
        ensures
            r == types::PwmDutyCycleConfig::spec_from_bits(get_bits(self@, 8, 0xf) as u8),
    {
        let v = field(self.0, 8, 0xf);
        types::PwmDutyCycleConfig::from_bits(v as u8)
    }

    /// This layout with the `pwm15` field replaced.
    pub fn with_pwm15(self, v: types::PwmDutyCycleConfig) -> (r: PwmB)
        ensures
            r@ == set_bits(self@, 8, 0xf, v@ as u64),
    {
        PwmB(put(self.0, 8, 0xf, v.into_bits() as u64))
    }

    /// Cell 16 PWM Duty Cycle config. Corresponds to `PWM16[3:0]`.
    pub fn pwm16(&self) -> (r: types::PwmDutyCycleConfig)
        ensures
            r == types::PwmDutyCycleConfig::spec_from_bits(get_bits(self@, 12, 0xf) as u8),
    {
        let v = field(self.0, 12, 0xf);
        types::PwmDutyCycleConfig::from_bits(v as u8)
    }

    /// This layout with the `pwm16` field replaced.
    pub fn with_pwm16(self, v: types::PwmDutyCycleConfig) -> (r: PwmB)
        ensures
            r@ == set_bits(self@, 12, 0xf, v@ as u64),
    {
        PwmB(put(self.0, 12, 0xf, v.into_bits() as u64))
    }
}

impl Default for PwmB {
    fn default() -> (r: PwmB)
        ensures
            r@ == 0xffffffff0000u64,
    {
        PwmB::new()
    }
}

impl ReadableGroup for PwmB {
    open spec fn spec_read_command() -> (bool, u16) {
        (false, 0b00000100011u16)
    }

    fn read_command() -> (r: CommandFrame) {
        commands::pwm::rdpwmb().frame()
    }

    fn from_bytes(bytes: [u8; 6]) -> (r: PwmB) {
        PwmB::from_bytes(bytes)
    }
}

impl WritableGroup for PwmB {
    open spec fn spec_write_command() -> (bool, u16) {
        (true, 0b00000100001u16)
    }

    fn write_command() -> (r: CommandFrame) {
        commands::pwm::wrpwmb().frame()
    }

    fn to_bytes(self) -> (r: [u8; 6]) {
        PwmB::to_bytes(self)
    }
}

} // verus!
