//! PWM register groups A and B; a PWM value runs from 0 to 100 percent over 0 to 15.

use vstd::prelude::*;

use crate::bits::{field, get_bits, put, set_bits};
use crate::adbms6830::registers::{AdbmsReadableRegister, AdbmsWritableRegister};

verus! {

/// PWM Register Group A.
#[derive(Clone, Copy, Debug, PartialEq, Eq)]
pub struct PwmA(u64);

impl View for PwmA {
    type V = u64;

    /// The raw bits of the layout.
    closed spec fn view(&self) -> u64 {
        self.0
    }
}

impl PwmA {
    /// The layout with every field at its default.
    pub fn new() -> (r: PwmA)
        ensures
            r@ == 0x0u64,
    {
        PwmA(0x0)
    }

    /// Wraps raw bits.
    pub fn from_bits(bits: u64) -> (r: PwmA)
        ensures
            r@ == bits,
    {
        PwmA(bits)
    }

    /// The raw bits.
    pub fn into_bits(self) -> (r: u64)
        ensures
            r == self@,
    {
        self.0
    }

    /// The `pwm1` field.
    pub fn pwm1(&self) -> (r: u8)
        ensures
            r == get_bits(self@, 0, 0xf) as u8,
    {
        let v = field(self.0, 0, 0xf);
        v as u8
    }

    /// This layout with the `pwm1` field replaced.
    pub fn with_pwm1(self, v: u8) -> (r: PwmA)
        ensures
            r@ == set_bits(self@, 0, 0xf, v as u64),
    {
        PwmA(put(self.0, 0, 0xf, v as u64))
    }

    /// The `pwm2` field.
    pub fn pwm2(&self) -> (r: u8)
        ensures
            r == get_bits(self@, 4, 0xf) as u8,
    {
        let v = field(self.0, 4, 0xf);
        v as u8
    }

    /// This layout with the `pwm2` field replaced.
    pub fn with_pwm2(self, v: u8) -> (r: PwmA)
        ensures
            r@ == set_bits(self@, 4, 0xf, v as u64),
    {
        PwmA(put(self.0, 4, 0xf, v as u64))
    }

    /// The `pwm3` field.
    pub fn pwm3(&self) -> (r: u8)
        ensures
            r == get_bits(self@, 8, 0xf) as u8,
    {
        let v = field(self.0, 8, 0xf);
        v as u8
    }

    /// This layout with the `pwm3` field replaced.
    pub fn with_pwm3(self, v: u8) -> (r: PwmA)
        ensures
            r@ == set_bits(self@, 8, 0xf, v as u64),
    {
        PwmA(put(self.0, 8, 0xf, v as u64))
    }

    /// The `pwm4` field.
    pub fn pwm4(&self) -> (r: u8)
        ensures
            r == get_bits(self@, 12, 0xf) as u8,
    {
        let v = field(self.0, 12, 0xf);
        v as u8
    }

    /// This layout with the `pwm4` field replaced.
    pub fn with_pwm4(self, v: u8) -> (r: PwmA)
        ensures
            r@ == set_bits(self@, 12, 0xf, v as u64),
    {
        PwmA(put(self.0, 12, 0xf, v as u64))
    }

    /// The `pwm5` field.
    pub fn pwm5(&self) -> (r: u8)
        ensures
            r == get_bits(self@, 16, 0xf) as u8,
    {
        let v = field(self.0, 16, 0xf);
        v as u8
    }

    /// This layout with the `pwm5` field replaced.
    pub fn with_pwm5(self, v: u8) -> (r: PwmA)
        ensures
            r@ == set_bits(self@, 16, 0xf, v as u64),
    {
        PwmA(put(self.0, 16, 0xf, v as u64))
    }

    /// The `pwm6` field.
    pub fn pwm6(&self) -> (r: u8)
        ensures
            r == get_bits(self@, 20, 0xf) as u8,
    {
        let v = field(self.0, 20, 0xf);
        v as u8
    }

    /// This layout with the `pwm6` field replaced.
    pub fn with_pwm6(self, v: u8) -> (r: PwmA)
        ensures
            r@ == set_bits(self@, 20, 0xf, v as u64),
    {
        PwmA(put(self.0, 20, 0xf, v as u64))
    }

    /// The `pwm7` field.
    pub fn pwm7(&self) -> (r: u8)
        ensures
            r == get_bits(self@, 24, 0xf) as u8,
    {
        let v = field(self.0, 24, 0xf);
        v as u8
    }

    /// This layout with the `pwm7` field replaced.
    pub fn with_pwm7(self, v: u8) -> (r: PwmA)
        ensures
            r@ == set_bits(self@, 24, 0xf, v as u64),
    {
        PwmA(put(self.0, 24, 0xf, v as u64))
    }

    /// The `pwm8` field.
    pub fn pwm8(&self) -> (r: u8)
        ensures
            r == get_bits(self@, 28, 0xf) as u8,
    {
        let v = field(self.0, 28, 0xf);
        v as u8
    }

    /// This layout with the `pwm8` field replaced.
    pub fn with_pwm8(self, v: u8) -> (r: PwmA)
        ensures
            r@ == set_bits(self@, 28, 0xf, v as u64),
    {
        PwmA(put(self.0, 28, 0xf, v as u64))
    }

    /// The `pwm9` field.
    pub fn pwm9(&self) -> (r: u8)
        ensures
            r == get_bits(self@, 32, 0xf) as u8,
    {
        let v = field(self.0, 32, 0xf);
        v as u8
    }

    /// This layout with the `pwm9` field replaced.
    pub fn with_pwm9(self, v: u8) -> (r: PwmA)
        ensures
            r@ == set_bits(self@, 32, 0xf, v as u64),
    {
        PwmA(put(self.0, 32, 0xf, v as u64))
    }

    /// The `pwm10` field.
    pub fn pwm10(&self) -> (r: u8)
        ensures
            r == get_bits(self@, 36, 0xf) as u8,
    {
        let v = field(self.0, 36, 0xf);
        v as u8
    }

    /// This layout with the `pwm10` field replaced.
    pub fn with_pwm10(self, v: u8) -> (r: PwmA)
        ensures
            r@ == set_bits(self@, 36, 0xf, v as u64),
    {
        PwmA(put(self.0, 36, 0xf, v as u64))
    }

    /// The `pwm11` field.
    pub fn pwm11(&self) -> (r: u8)
        ensures
            r == get_bits(self@, 40, 0xf) as u8,
    {
        let v = field(self.0, 40, 0xf);
        v as u8
    }

    /// This layout with the `pwm11` field replaced.
    pub fn with_pwm11(self, v: u8) -> (r: PwmA)
        ensures
            r@ == set_bits(self@, 40, 0xf, v as u64),
    {
        PwmA(put(self.0, 40, 0xf, v as u64))
    }

    /// The `pwm12` field.
    pub fn pwm12(&self) -> (r: u8)
        ensures
            r == get_bits(self@, 44, 0xf) as u8,
    {
        let v = field(self.0, 44, 0xf);
        v as u8
    }

    /// This layout with the `pwm12` field replaced.
    pub fn with_pwm12(self, v: u8) -> (r: PwmA)
        ensures
            r@ == set_bits(self@, 44, 0xf, v as u64),
    {
        PwmA(put(self.0, 44, 0xf, v as u64))
    }
}

impl From<u64> for PwmA {
    fn from(bits: u64) -> (r: PwmA) {
        PwmA(bits)
    }
}

impl vstd::std_specs::convert::FromSpecImpl<u64> for PwmA {
    open spec fn obeys_from_spec() -> bool {
        true
    }

    open spec fn from_spec(bits: u64) -> PwmA {
        PwmA::from_bits_spec(bits)
    }
}

impl From<PwmA> for u64 {
    fn from(reg: PwmA) -> (r: u64) {
        reg.0
    }
}

impl vstd::std_specs::convert::FromSpecImpl<PwmA> for u64 {
    open spec fn obeys_from_spec() -> bool {
        true
    }

    open spec fn from_spec(reg: PwmA) -> u64 {
        reg@
    }
}

impl PwmA {
    /// The layout holding `bits`, as a value in specifications.
    pub closed spec fn from_bits_spec(bits: u64) -> PwmA {
        PwmA(bits)
    }

    /// A layout is its bits.
    pub proof fn lemma_from_bits_spec(bits: u64)
        ensures
            #[trigger] PwmA::from_bits_spec(bits)@ == bits,
    {
    }
}

impl AdbmsReadableRegister for PwmA {
    open spec fn spec_read_cmd() -> (u8, u8) {
        (0x00u8, 0x22u8)
    }

    fn read_cmd() -> (r: [u8; 2]) {
        [0x00, 0x22]
    }

    fn from_raw(bits: u64) -> (r: PwmA) {
        PwmA(bits)
    }
}

impl AdbmsWritableRegister for PwmA {
    open spec fn spec_write_cmd() -> (u8, u8) {
        (0x00u8, 0x20u8)
    }

    fn write_cmd() -> (r: [u8; 2]) {
        [0x00, 0x20]
    }

    fn into_raw(self) -> (r: u64) {
        self.0
    }
}


/// PWM Register Group B.
#[derive(Clone, Copy, Debug, PartialEq, Eq)]
pub struct PwmB(u64);

impl View for PwmB {
    type V = u64;

    /// The raw bits of the layout.
    closed spec fn view(&self) -> u64 {
        self.0
    }
}

impl PwmB {
    /// The layout with every field at its default.
    pub fn new() -> (r: PwmB)
        ensures
            r@ == 0x0u64,
    {
        PwmB(0x0)
    }

    /// Wraps raw bits.
    pub fn from_bits(bits: u64) -> (r: PwmB)
        ensures
            r@ == bits,
    {
        PwmB(bits)
    }

    /// The raw bits.
    pub fn into_bits(self) -> (r: u64)
        ensures
            r == self@,
    {
        self.0
    }

    /// The `pwm13` field.
    pub fn pwm13(&self) -> (r: u8)
        ensures
            r == get_bits(self@, 0, 0xf) as u8,
    {
        let v = field(self.0, 0, 0xf);
        v as u8
    }

    /// This layout with the `pwm13` field replaced.
    pub fn with_pwm13(self, v: u8) -> (r: PwmB)
        ensures
            r@ == set_bits(self@, 0, 0xf, v as u64),
    {
        PwmB(put(self.0, 0, 0xf, v as u64))
    }

    /// The `pwm14` field.
    pub fn pwm14(&self) -> (r: u8)
        ensures
            r == get_bits(self@, 4, 0xf) as u8,
    {
        let v = field(self.0, 4, 0xf);
        v as u8
    }

    /// This layout with the `pwm14` field replaced.
    pub fn with_pwm14(self, v: u8) -> (r: PwmB)
        ensures
            r@ == set_bits(self@, 4, 0xf, v as u64),
    {
        PwmB(put(self.0, 4, 0xf, v as u64))
    }

    /// The `pwm15` field.
    pub fn pwm15(&self) -> (r: u8)
        ensures
            r == get_bits(self@, 8, 0xf) as u8,
    {
        let v = field(self.0, 8, 0xf);
        v as u8
    }

    /// This layout with the `pwm15` field replaced.
    pub fn with_pwm15(self, v: u8) -> (r: PwmB)
        ensures
            r@ == set_bits(self@, 8, 0xf, v as u64),
    {
        PwmB(put(self.0, 8, 0xf, v as u64))
    }

    /// The `pwm16` field.
    pub fn pwm16(&self) -> (r: u8)
        ensures
            r == get_bits(self@, 12, 0xf) as u8,
    {
        let v = field(self.0, 12, 0xf);
        v as u8
    }

    /// This layout with the `pwm16` field replaced.
    pub fn with_pwm16(self, v: u8) -> (r: PwmB)
        ensures
            r@ == set_bits(self@, 12, 0xf, v as u64),
    {
        PwmB(put(self.0, 12, 0xf, v as u64))
    }
}

impl From<u64> for PwmB {
    fn from(bits: u64) -> (r: PwmB) {
        PwmB(bits)
    }
}

impl vstd::std_specs::convert::FromSpecImpl<u64> for PwmB {
    open spec fn obeys_from_spec() -> bool {
        true
    }

    open spec fn from_spec(bits: u64) -> PwmB {
        PwmB::from_bits_spec(bits)
    }
}

impl From<PwmB> for u64 {
    fn from(reg: PwmB) -> (r: u64) {
        reg.0
    }
}

impl vstd::std_specs::convert::FromSpecImpl<PwmB> for u64 {
    open spec fn obeys_from_spec() -> bool {
        true
    }

    open spec fn from_spec(reg: PwmB) -> u64 {
        reg@
    }
}

impl PwmB {
    /// The layout holding `bits`, as a value in specifications.
    pub closed spec fn from_bits_spec(bits: u64) -> PwmB {
        PwmB(bits)
    }

    /// A layout is its bits.
    pub proof fn lemma_from_bits_spec(bits: u64)
        ensures
            #[trigger] PwmB::from_bits_spec(bits)@ == bits,
    {
    }
}

impl AdbmsReadableRegister for PwmB {
    open spec fn spec_read_cmd() -> (u8, u8) {
        (0x00u8, 0x23u8)
    }

    fn read_cmd() -> (r: [u8; 2]) {
        [0x00, 0x23]
    }

    fn from_raw(bits: u64) -> (r: PwmB) {
        PwmB(bits)
    }
}

impl AdbmsWritableRegister for PwmB {
    open spec fn spec_write_cmd() -> (u8, u8) {
        (0x00u8, 0x21u8)
    }

    fn write_cmd() -> (r: [u8; 2]) {
        [0x00, 0x21]
    }

    fn into_raw(self) -> (r: u64) {
        self.0
    }
}


} // verus!
