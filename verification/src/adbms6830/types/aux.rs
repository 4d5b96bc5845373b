//! Auxiliary measurement register groups (`RDAUXx`, `RDRAXx`) and commands.

use vstd::prelude::*;

use crate::bits::{field, get_bits, put, set_bits};
use crate::adbms6830::registers::{AdbmsCommand, AdbmsReadableRegister};
use super::{AdbmsCellVoltage, AdbmsChipVoltage};

verus! {

/// Clears the auxiliary, redundant auxiliary and status A/B register groups to 0x8000 (CLRAUX).
#[derive(Clone, Copy, Debug)]
pub struct ClrAux {}

impl AdbmsCommand for ClrAux {
    open spec fn spec_command(&self) -> u16 {
        0b11100010010u16
    }

    fn get_command(&self) -> (r: u16) {
        0b11100010010
    }
}


/// The channels the ADAX command can convert.
#[derive(Clone, Copy, Debug, PartialEq, Eq, Structural)]
pub enum AdaxChannels {
    /// Every channel.
    All,
    /// Channel GPIO1.
    GPIO1,
    /// Channel GPIO2.
    GPIO2,
    /// Channel GPIO3.
    GPIO3,
    /// Channel GPIO4.
    GPIO4,
    /// Channel GPIO5.
    GPIO5,
    /// Channel GPIO6.
    GPIO6,
    /// Channel GPIO7.
    GPIO7,
    /// Channel GPIO8.
    GPIO8,
    /// Channel GPIO9.
    GPIO9,
    /// Channel GPIO10.
    GPIO10,
    /// Channel VREF2.
    VREF2,
    /// Channel VD.
    VD,
    /// Channel VA.
    VA,
    /// Channel ITEMP.
    ITEMP,
    /// Channel VPV.
    VPV,
    /// Channel VMV.
    VMV,
    /// Channel VRES.
    VRES,
}

impl View for AdaxChannels {
    type V = u8;

    /// The raw field value of this code.
    open spec fn view(&self) -> u8 {
        match self {
            AdaxChannels::All => 0u8,
            AdaxChannels::GPIO1 => 1u8,
            AdaxChannels::GPIO2 => 2u8,
            AdaxChannels::GPIO3 => 3u8,
            AdaxChannels::GPIO4 => 4u8,
            AdaxChannels::GPIO5 => 5u8,
            AdaxChannels::GPIO6 => 6u8,
            AdaxChannels::GPIO7 => 7u8,
            AdaxChannels::GPIO8 => 8u8,
            AdaxChannels::GPIO9 => 9u8,
            AdaxChannels::GPIO10 => 10u8,
            AdaxChannels::VREF2 => 11u8,
            AdaxChannels::VD => 12u8,
            AdaxChannels::VA => 13u8,
            AdaxChannels::ITEMP => 14u8,
            AdaxChannels::VPV => 15u8,
            AdaxChannels::VMV => 16u8,
            AdaxChannels::VRES => 17u8,
        }
    }
}

impl AdaxChannels {
    /// Every variant stands for the field value the datasheet gives it.
    pub proof fn lemma_codes()
        ensures
            AdaxChannels::All@ == 0u8,
            AdaxChannels::GPIO1@ == 1u8,
            AdaxChannels::GPIO2@ == 2u8,
            AdaxChannels::GPIO3@ == 3u8,
            AdaxChannels::GPIO4@ == 4u8,
            AdaxChannels::GPIO5@ == 5u8,
            AdaxChannels::GPIO6@ == 6u8,
            AdaxChannels::GPIO7@ == 7u8,
            AdaxChannels::GPIO8@ == 8u8,
            AdaxChannels::GPIO9@ == 9u8,
            AdaxChannels::GPIO10@ == 10u8,
            AdaxChannels::VREF2@ == 11u8,
            AdaxChannels::VD@ == 12u8,
            AdaxChannels::VA@ == 13u8,
            AdaxChannels::ITEMP@ == 14u8,
            AdaxChannels::VPV@ == 15u8,
            AdaxChannels::VMV@ == 16u8,
            AdaxChannels::VRES@ == 17u8,
    {
    }
}

impl AdaxChannels {
    /// The raw field value of this code.
    pub fn into_bits(self) -> (r: u8)
        ensures
            r == self@,
            r <= 31,
    {
        match self {
            AdaxChannels::All => 0,
            AdaxChannels::GPIO1 => 1,
            AdaxChannels::GPIO2 => 2,
            AdaxChannels::GPIO3 => 3,
            AdaxChannels::GPIO4 => 4,
            AdaxChannels::GPIO5 => 5,
            AdaxChannels::GPIO6 => 6,
            AdaxChannels::GPIO7 => 7,
            AdaxChannels::GPIO8 => 8,
            AdaxChannels::GPIO9 => 9,
            AdaxChannels::GPIO10 => 10,
            AdaxChannels::VREF2 => 11,
            AdaxChannels::VD => 12,
            AdaxChannels::VA => 13,
            AdaxChannels::ITEMP => 14,
            AdaxChannels::VPV => 15,
            AdaxChannels::VMV => 16,
            AdaxChannels::VRES => 17,
        }
    }
}


/// Starts an auxiliary conversion (ADAX).
#[derive(Clone, Copy, Debug)]
pub struct Adax {
    /// Open-wire detection.
    pub ow: bool,
    /// Open-wire pull-up (pull-down when false).
    pub pup: bool,
    /// The channels to convert.
    pub ch: AdaxChannels,
}

impl AdbmsCommand for Adax {
    open spec fn spec_command(&self) -> u16 {
        0b10000010000u16 | ((if self.ow { 1u16 } else { 0u16 }) << 9u16) | ((if self.pup { 1u16 } else { 0u16 }) << 8u16) | (((self.ch@ as u16) >> 4u16) << 7u16) | ((self.ch@ as u16) & 0b1111u16)
    }

    fn get_command(&self) -> (r: u16) {
        let ch = self.ch.into_bits() as u16;
        let mut buf: u16 = 0b10000010000;
        buf = buf | ((if self.ow { 1u16 } else { 0u16 }) << 9u16);
        buf = buf | ((if self.pup { 1u16 } else { 0u16 }) << 8u16);
        buf = buf | ((ch >> 4u16) << 7u16);
        buf = buf | (ch & 0b1111u16);
        buf
    }
}


/// The channels the ADAX2 command can convert.
#[derive(Clone, Copy, Debug, PartialEq, Eq, Structural)]
pub enum Adax2Channels {
    /// Every channel.
    All,
    /// Channel GPIO1.
    GPIO1,
    /// Channel GPIO2.
    GPIO2,
    /// Channel GPIO3.
    GPIO3,
    /// Channel GPIO4.
    GPIO4,
    /// Channel GPIO5.
    GPIO5,
    /// Channel GPIO6.
    GPIO6,
    /// Channel GPIO7.
    GPIO7,
    /// Channel GPIO8.
    GPIO8,
    /// Channel GPIO9.
    GPIO9,
    /// Channel GPIO10.
    GPIO10,
}

impl View for Adax2Channels {
    type V = u8;

    /// The raw field value of this code.
    open spec fn view(&self) -> u8 {
        match self {
            Adax2Channels::All => 0u8,
            Adax2Channels::GPIO1 => 1u8,
            Adax2Channels::GPIO2 => 2u8,
            Adax2Channels::GPIO3 => 3u8,
            Adax2Channels::GPIO4 => 4u8,
            Adax2Channels::GPIO5 => 5u8,
            Adax2Channels::GPIO6 => 6u8,
            Adax2Channels::GPIO7 => 7u8,
            Adax2Channels::GPIO8 => 8u8,
            Adax2Channels::GPIO9 => 9u8,
            Adax2Channels::GPIO10 => 10u8,
        }
    }
}

impl Adax2Channels {
    /// Every variant stands for the field value the datasheet gives it.
    pub proof fn lemma_codes()
        ensures
            Adax2Channels::All@ == 0u8,
            Adax2Channels::GPIO1@ == 1u8,
            Adax2Channels::GPIO2@ == 2u8,
            Adax2Channels::GPIO3@ == 3u8,
            Adax2Channels::GPIO4@ == 4u8,
            Adax2Channels::GPIO5@ == 5u8,
            Adax2Channels::GPIO6@ == 6u8,
            Adax2Channels::GPIO7@ == 7u8,
            Adax2Channels::GPIO8@ == 8u8,
            Adax2Channels::GPIO9@ == 9u8,
            Adax2Channels::GPIO10@ == 10u8,
    {
    }
}

impl Adax2Channels {
    /// The raw field value of this code.
    pub fn into_bits(self) -> (r: u8)
        ensures
            r == self@,
            r <= 15,
    {
        match self {
            Adax2Channels::All => 0,
            Adax2Channels::GPIO1 => 1,
            Adax2Channels::GPIO2 => 2,
            Adax2Channels::GPIO3 => 3,
            Adax2Channels::GPIO4 => 4,
            Adax2Channels::GPIO5 => 5,
            Adax2Channels::GPIO6 => 6,
            Adax2Channels::GPIO7 => 7,
            Adax2Channels::GPIO8 => 8,
            Adax2Channels::GPIO9 => 9,
            Adax2Channels::GPIO10 => 10,
        }
    }
}


/// Starts a redundant auxiliary conversion (ADAX2).
#[derive(Clone, Copy, Debug)]
pub struct Adax2 {
    /// The channels to convert.
    pub ch: Adax2Channels,
}

impl AdbmsCommand for Adax2 {
    open spec fn spec_command(&self) -> u16 {
        0b10000000000u16 | (self.ch@ as u16)
    }

    fn get_command(&self) -> (r: u16) {
        let mut buf: u16 = 0b10000000000;
        buf = buf | (self.ch.into_bits() as u16);
        buf
    }
}


/// Auxiliary Register Group A
#[derive(Clone, Copy, Debug, PartialEq, Eq)]
pub struct AuxA(u64);

impl View for AuxA {
    type V = u64;

    /// The raw bits of the layout.
    closed spec fn view(&self) -> u64 {
        self.0
    }
}

impl AuxA {
    /// The layout with every field at its default.
    pub fn new() -> (r: AuxA)
        ensures
            r@ == 0x0u64,
    {
        AuxA(0x0)
    }

    /// Wraps raw bits.
    pub fn from_bits(bits: u64) -> (r: AuxA)
        ensures
            r@ == bits,
    {
        AuxA(bits)
    }

    /// The raw bits.
    pub fn into_bits(self) -> (r: u64)
        ensures
            r == self@,
    {
        self.0
    }

    /// The `g1v` field.
    pub fn g1v(&self) -> (r: AdbmsCellVoltage)
        ensures
            r == AdbmsCellVoltage(get_bits(self@, 0, 0xffff) as u16),
    {
        let v = field(self.0, 0, 0xffff);
        AdbmsCellVoltage::from_bits(v as u16)
    }

    /// This layout with the `g1v` field replaced.
    pub fn with_g1v(self, v: AdbmsCellVoltage) -> (r: AuxA)
        ensures
            r@ == set_bits(self@, 0, 0xffff, v.spec_into_bits() as u64),
    {
        AuxA(put(self.0, 0, 0xffff, v.into_bits() as u64))
    }

    /// The `g2v` field.
    pub fn g2v(&self) -> (r: AdbmsCellVoltage)
        ensures
            r == AdbmsCellVoltage(get_bits(self@, 16, 0xffff) as u16),
    {
        let v = field(self.0, 16, 0xffff);
        AdbmsCellVoltage::from_bits(v as u16)
    }

    /// This layout with the `g2v` field replaced.
    pub fn with_g2v(self, v: AdbmsCellVoltage) -> (r: AuxA)
        ensures
            r@ == set_bits(self@, 16, 0xffff, v.spec_into_bits() as u64),
    {
        AuxA(put(self.0, 16, 0xffff, v.into_bits() as u64))
    }

    /// The `g3v` field.
    pub fn g3v(&self) -> (r: AdbmsCellVoltage)
        ensures
            r == AdbmsCellVoltage(get_bits(self@, 32, 0xffff) as u16),
    {
        let v = field(self.0, 32, 0xffff);
        AdbmsCellVoltage::from_bits(v as u16)
    }

    /// This layout with the `g3v` field replaced.
    pub fn with_g3v(self, v: AdbmsCellVoltage) -> (r: AuxA)
        ensures
            r@ == set_bits(self@, 32, 0xffff, v.spec_into_bits() as u64),
    {
        AuxA(put(self.0, 32, 0xffff, v.into_bits() as u64))
    }
}

impl From<u64> for AuxA {
    fn from(bits: u64) -> (r: AuxA) {
        AuxA(bits)
    }
}

impl vstd::std_specs::convert::FromSpecImpl<u64> for AuxA {
    open spec fn obeys_from_spec() -> bool {
        true
    }

    open spec fn from_spec(bits: u64) -> AuxA {
        AuxA::from_bits_spec(bits)
    }
}

impl From<AuxA> for u64 {
    fn from(reg: AuxA) -> (r: u64) {
        reg.0
    }
}

impl vstd::std_specs::convert::FromSpecImpl<AuxA> for u64 {
    open spec fn obeys_from_spec() -> bool {
        true
    }

    open spec fn from_spec(reg: AuxA) -> u64 {
        reg@
    }
}

impl AuxA {
    /// The layout holding `bits`, as a value in specifications.
    pub closed spec fn from_bits_spec(bits: u64) -> AuxA {
        AuxA(bits)
    }

    /// A layout is its bits.
    pub proof fn lemma_from_bits_spec(bits: u64)
        ensures
            #[trigger] AuxA::from_bits_spec(bits)@ == bits,
    {
    }
}

impl AdbmsReadableRegister for AuxA {
    open spec fn spec_read_cmd() -> (u8, u8) {
        (0x00u8, 0x19u8)
    }

    fn read_cmd() -> (r: [u8; 2]) {
        [0x00, 0x19]
    }

    fn from_raw(bits: u64) -> (r: AuxA) {
        AuxA(bits)
    }
}


/// Auxiliary Register Group B
#[derive(Clone, Copy, Debug, PartialEq, Eq)]
pub struct AuxB(u64);

impl View for AuxB {
    type V = u64;

    /// The raw bits of the layout.
    closed spec fn view(&self) -> u64 {
        self.0
    }
}

impl AuxB {
    /// The layout with every field at its default.
    pub fn new() -> (r: AuxB)
        ensures
            r@ == 0x0u64,
    {
        AuxB(0x0)
    }

    /// Wraps raw bits.
    pub fn from_bits(bits: u64) -> (r: AuxB)
        ensures
            r@ == bits,
    {
        AuxB(bits)
    }

    /// The raw bits.
    pub fn into_bits(self) -> (r: u64)
        ensures
            r == self@,
    {
        self.0
    }

    /// The `g4v` field.
    pub fn g4v(&self) -> (r: AdbmsCellVoltage)
        ensures
            r == AdbmsCellVoltage(get_bits(self@, 0, 0xffff) as u16),
    {
        let v = field(self.0, 0, 0xffff);
        AdbmsCellVoltage::from_bits(v as u16)
    }

    /// This layout with the `g4v` field replaced.
    pub fn with_g4v(self, v: AdbmsCellVoltage) -> (r: AuxB)
        ensures
            r@ == set_bits(self@, 0, 0xffff, v.spec_into_bits() as u64),
    {
        AuxB(put(self.0, 0, 0xffff, v.into_bits() as u64))
    }

    /// The `g5v` field.
    pub fn g5v(&self) -> (r: AdbmsCellVoltage)
        ensures
            r == AdbmsCellVoltage(get_bits(self@, 16, 0xffff) as u16),
    {
        let v = field(self.0, 16, 0xffff);
        AdbmsCellVoltage::from_bits(v as u16)
    }

    /// This layout with the `g5v` field replaced.
    pub fn with_g5v(self, v: AdbmsCellVoltage) -> (r: AuxB)
        ensures
            r@ == set_bits(self@, 16, 0xffff, v.spec_into_bits() as u64),
    {
        AuxB(put(self.0, 16, 0xffff, v.into_bits() as u64))
    }

    /// The `g6v` field.
    pub fn g6v(&self) -> (r: AdbmsCellVoltage)
        ensures
            r == AdbmsCellVoltage(get_bits(self@, 32, 0xffff) as u16),
    {
        let v = field(self.0, 32, 0xffff);
        AdbmsCellVoltage::from_bits(v as u16)
    }

    /// This layout with the `g6v` field replaced.
    pub fn with_g6v(self, v: AdbmsCellVoltage) -> (r: AuxB)
        ensures
            r@ == set_bits(self@, 32, 0xffff, v.spec_into_bits() as u64),
    {
        AuxB(put(self.0, 32, 0xffff, v.into_bits() as u64))
    }
}

impl From<u64> for AuxB {
    fn from(bits: u64) -> (r: AuxB) {
        AuxB(bits)
    }
}

impl vstd::std_specs::convert::FromSpecImpl<u64> for AuxB {
    open spec fn obeys_from_spec() -> bool {
        true
    }

    open spec fn from_spec(bits: u64) -> AuxB {
        AuxB::from_bits_spec(bits)
    }
}

impl From<AuxB> for u64 {
    fn from(reg: AuxB) -> (r: u64) {
        reg.0
    }
}

impl vstd::std_specs::convert::FromSpecImpl<AuxB> for u64 {
    open spec fn obeys_from_spec() -> bool {
        true
    }

    open spec fn from_spec(reg: AuxB) -> u64 {
        reg@
    }
}

impl AuxB {
    /// The layout holding `bits`, as a value in specifications.
    pub closed spec fn from_bits_spec(bits: u64) -> AuxB {
        AuxB(bits)
    }

    /// A layout is its bits.
    pub proof fn lemma_from_bits_spec(bits: u64)
        ensures
            #[trigger] AuxB::from_bits_spec(bits)@ == bits,
    {
    }
}

impl AdbmsReadableRegister for AuxB {
    open spec fn spec_read_cmd() -> (u8, u8) {
        (0x00u8, 0x1Au8)
    }

    fn read_cmd() -> (r: [u8; 2]) {
        [0x00, 0x1A]
    }

    fn from_raw(bits: u64) -> (r: AuxB) {
        AuxB(bits)
    }
}


/// Auxiliary Register Group C
#[derive(Clone, Copy, Debug, PartialEq, Eq)]
pub struct AuxC(u64);

impl View for AuxC {
    type V = u64;

    /// The raw bits of the layout.
    closed spec fn view(&self) -> u64 {
        self.0
    }
}

impl AuxC {
    /// The layout with every field at its default.
    pub fn new() -> (r: AuxC)
        ensures
            r@ == 0x0u64,
    {
        AuxC(0x0)
    }

    /// Wraps raw bits.
    pub fn from_bits(bits: u64) -> (r: AuxC)
        ensures
            r@ == bits,
    {
        AuxC(bits)
    }

    /// The raw bits.
    pub fn into_bits(self) -> (r: u64)
        ensures
            r == self@,
    {
        self.0
    }

    /// The `g7v` field.
    pub fn g7v(&self) -> (r: AdbmsCellVoltage)
        ensures
            r == AdbmsCellVoltage(get_bits(self@, 0, 0xffff) as u16),
    {
        let v = field(self.0, 0, 0xffff);
        AdbmsCellVoltage::from_bits(v as u16)
    }

    /// This layout with the `g7v` field replaced.
    pub fn with_g7v(self, v: AdbmsCellVoltage) -> (r: AuxC)
        ensures
            r@ == set_bits(self@, 0, 0xffff, v.spec_into_bits() as u64),
    {
        AuxC(put(self.0, 0, 0xffff, v.into_bits() as u64))
    }

    /// The `g8v` field.
    pub fn g8v(&self) -> (r: AdbmsCellVoltage)
        ensures
            r == AdbmsCellVoltage(get_bits(self@, 16, 0xffff) as u16),
    {
        let v = field(self.0, 16, 0xffff);
        AdbmsCellVoltage::from_bits(v as u16)
    }

    /// This layout with the `g8v` field replaced.
    pub fn with_g8v(self, v: AdbmsCellVoltage) -> (r: AuxC)
        ensures
            r@ == set_bits(self@, 16, 0xffff, v.spec_into_bits() as u64),
    {
        AuxC(put(self.0, 16, 0xffff, v.into_bits() as u64))
    }

    /// The `g9v` field.
    pub fn g9v(&self) -> (r: AdbmsCellVoltage)
        ensures
            r == AdbmsCellVoltage(get_bits(self@, 32, 0xffff) as u16),
    {
        let v = field(self.0, 32, 0xffff);
        AdbmsCellVoltage::from_bits(v as u16)
    }

    /// This layout with the `g9v` field replaced.
    pub fn with_g9v(self, v: AdbmsCellVoltage) -> (r: AuxC)
        ensures
            r@ == set_bits(self@, 32, 0xffff, v.spec_into_bits() as u64),
    {
        AuxC(put(self.0, 32, 0xffff, v.into_bits() as u64))
    }
}

impl From<u64> for AuxC {
    fn from(bits: u64) -> (r: AuxC) {
        AuxC(bits)
    }
}

impl vstd::std_specs::convert::FromSpecImpl<u64> for AuxC {
    open spec fn obeys_from_spec() -> bool {
        true
    }

    open spec fn from_spec(bits: u64) -> AuxC {
        AuxC::from_bits_spec(bits)
    }
}

impl From<AuxC> for u64 {
    fn from(reg: AuxC) -> (r: u64) {
        reg.0
    }
}

impl vstd::std_specs::convert::FromSpecImpl<AuxC> for u64 {
    open spec fn obeys_from_spec() -> bool {
        true
    }

    open spec fn from_spec(reg: AuxC) -> u64 {
        reg@
    }
}

impl AuxC {
    /// The layout holding `bits`, as a value in specifications.
    pub closed spec fn from_bits_spec(bits: u64) -> AuxC {
        AuxC(bits)
    }

    /// A layout is its bits.
    pub proof fn lemma_from_bits_spec(bits: u64)
        ensures
            #[trigger] AuxC::from_bits_spec(bits)@ == bits,
    {
    }
}

impl AdbmsReadableRegister for AuxC {
    open spec fn spec_read_cmd() -> (u8, u8) {
        (0x00u8, 0x1Bu8)
    }

    fn read_cmd() -> (r: [u8; 2]) {
        [0x00, 0x1B]
    }

    fn from_raw(bits: u64) -> (r: AuxC) {
        AuxC(bits)
    }
}


/// Auxiliary Register Group D
#[derive(Clone, Copy, Debug, PartialEq, Eq)]
pub struct AuxD(u64);

impl View for AuxD {
    type V = u64;

    /// The raw bits of the layout.
    closed spec fn view(&self) -> u64 {
        self.0
    }
}

impl AuxD {
    /// The layout with every field at its default.
    pub fn new() -> (r: AuxD)
        ensures
            r@ == 0x0u64,
    {
        AuxD(0x0)
    }

    /// Wraps raw bits.
    pub fn from_bits(bits: u64) -> (r: AuxD)
        ensures
            r@ == bits,
    {
        AuxD(bits)
    }

    /// The raw bits.
    pub fn into_bits(self) -> (r: u64)
        ensures
            r == self@,
    {
        self.0
    }

    /// The `g10v` field.
    pub fn g10v(&self) -> (r: AdbmsCellVoltage)
        ensures
            r == AdbmsCellVoltage(get_bits(self@, 0, 0xffff) as u16),
    {
        let v = field(self.0, 0, 0xffff);
        AdbmsCellVoltage::from_bits(v as u16)
    }

    /// This layout with the `g10v` field replaced.
    pub fn with_g10v(self, v: AdbmsCellVoltage) -> (r: AuxD)
        ensures
            r@ == set_bits(self@, 0, 0xffff, v.spec_into_bits() as u64),
    {
        AuxD(put(self.0, 0, 0xffff, v.into_bits() as u64))
    }

    /// S1N to V− measurement
    ///
    /// 16-bit ADC measurement value of S1N to V− = VMV × 150 μV + 1.5 V.
    /// Reset to 0x8000 after power-up, sleep, or clear command (CLRAUX).
    pub fn vmv(&self) -> (r: AdbmsCellVoltage)
        ensures
            r == AdbmsCellVoltage(get_bits(self@, 16, 0xffff) as u16),
    {
        let v = field(self.0, 16, 0xffff);
        AdbmsCellVoltage::from_bits(v as u16)
    }

    /// This layout with the `vmv` field replaced.
    pub fn with_vmv(self, v: AdbmsCellVoltage) -> (r: AuxD)
        ensures
            r@ == set_bits(self@, 16, 0xffff, v.spec_into_bits() as u64),
    {
        AuxD(put(self.0, 16, 0xffff, v.into_bits() as u64))
    }

    /// V+ to V− measurement
    ///
    /// 16-bit ADC measurement value of V+ to V− = 25 × (VPV × 150 μV + 1.5 V).
    /// Reset to 0x8000 after power-up, sleep, or clear command (CLRAUX).
    pub fn vpv(&self) -> (r: AdbmsChipVoltage)
        ensures
            r == AdbmsChipVoltage(get_bits(self@, 32, 0xffff) as u16),
    {
        let v = field(self.0, 32, 0xffff);
        AdbmsChipVoltage::from_bits(v as u16)
    }

    /// This layout with the `vpv` field replaced.
    pub fn with_vpv(self, v: AdbmsChipVoltage) -> (r: AuxD)
        ensures
            r@ == set_bits(self@, 32, 0xffff, v.spec_into_bits() as u64),
    {
        AuxD(put(self.0, 32, 0xffff, v.into_bits() as u64))
    }
}

impl From<u64> for AuxD {
    fn from(bits: u64) -> (r: AuxD) {
        AuxD(bits)
    }
}

impl vstd::std_specs::convert::FromSpecImpl<u64> for AuxD {
    open spec fn obeys_from_spec() -> bool {
        true
    }

    open spec fn from_spec(bits: u64) -> AuxD {
        AuxD::from_bits_spec(bits)
    }
}

impl From<AuxD> for u64 {
    fn from(reg: AuxD) -> (r: u64) {
        reg.0
    }
}

impl vstd::std_specs::convert::FromSpecImpl<AuxD> for u64 {
    open spec fn obeys_from_spec() -> bool {
        true
    }

    open spec fn from_spec(reg: AuxD) -> u64 {
        reg@
    }
}

impl AuxD {
    /// The layout holding `bits`, as a value in specifications.
    pub closed spec fn from_bits_spec(bits: u64) -> AuxD {
        AuxD(bits)
    }

    /// A layout is its bits.
    pub proof fn lemma_from_bits_spec(bits: u64)
        ensures
            #[trigger] AuxD::from_bits_spec(bits)@ == bits,
    {
    }
}

impl AdbmsReadableRegister for AuxD {
    open spec fn spec_read_cmd() -> (u8, u8) {
        (0x00u8, 0x1Fu8)
    }

    fn read_cmd() -> (r: [u8; 2]) {
        [0x00, 0x1F]
    }

    fn from_raw(bits: u64) -> (r: AuxD) {
        AuxD(bits)
    }
}


/// Redundant Auxiliary Register Group A.
#[derive(Clone, Copy, Debug, PartialEq, Eq)]
pub struct RedundantAuxA(u64);

impl View for RedundantAuxA {
    type V = u64;

    /// The raw bits of the layout.
    closed spec fn view(&self) -> u64 {
        self.0
    }
}

impl RedundantAuxA {
    /// The layout with every field at its default.
    pub fn new() -> (r: RedundantAuxA)
        ensures
            r@ == 0x0u64,
    {
        RedundantAuxA(0x0)
    }

    /// Wraps raw bits.
    pub fn from_bits(bits: u64) -> (r: RedundantAuxA)
        ensures
            r@ == bits,
    {
        RedundantAuxA(bits)
    }

    /// The raw bits.
    pub fn into_bits(self) -> (r: u64)
        ensures
            r == self@,
    {
        self.0
    }

    /// The `r_g1v` field.
    pub fn r_g1v(&self) -> (r: AdbmsCellVoltage)
        ensures
            r == AdbmsCellVoltage(get_bits(self@, 0, 0xffff) as u16),
    {
        let v = field(self.0, 0, 0xffff);
        AdbmsCellVoltage::from_bits(v as u16)
    }

    /// This layout with the `r_g1v` field replaced.
    pub fn with_r_g1v(self, v: AdbmsCellVoltage) -> (r: RedundantAuxA)
        ensures
            r@ == set_bits(self@, 0, 0xffff, v.spec_into_bits() as u64),
    {
        RedundantAuxA(put(self.0, 0, 0xffff, v.into_bits() as u64))
    }

    /// The `r_g2v` field.
    pub fn r_g2v(&self) -> (r: AdbmsCellVoltage)
        ensures
            r == AdbmsCellVoltage(get_bits(self@, 16, 0xffff) as u16),
    {
        let v = field(self.0, 16, 0xffff);
        AdbmsCellVoltage::from_bits(v as u16)
    }

    /// This layout with the `r_g2v` field replaced.
    pub fn with_r_g2v(self, v: AdbmsCellVoltage) -> (r: RedundantAuxA)
        ensures
            r@ == set_bits(self@, 16, 0xffff, v.spec_into_bits() as u64),
    {
        RedundantAuxA(put(self.0, 16, 0xffff, v.into_bits() as u64))
    }

    /// The `r_g3v` field.
    pub fn r_g3v(&self) -> (r: AdbmsCellVoltage)
        ensures
            r == AdbmsCellVoltage(get_bits(self@, 32, 0xffff) as u16),
    {
        let v = field(self.0, 32, 0xffff);
        AdbmsCellVoltage::from_bits(v as u16)
    }

    /// This layout with the `r_g3v` field replaced.
    pub fn with_r_g3v(self, v: AdbmsCellVoltage) -> (r: RedundantAuxA)
        ensures
            r@ == set_bits(self@, 32, 0xffff, v.spec_into_bits() as u64),
    {
        RedundantAuxA(put(self.0, 32, 0xffff, v.into_bits() as u64))
    }
}

impl From<u64> for RedundantAuxA {
    fn from(bits: u64) -> (r: RedundantAuxA) {
        RedundantAuxA(bits)
    }
}

impl vstd::std_specs::convert::FromSpecImpl<u64> for RedundantAuxA {
    open spec fn obeys_from_spec() -> bool {
        true
    }

    open spec fn from_spec(bits: u64) -> RedundantAuxA {
        RedundantAuxA::from_bits_spec(bits)
    }
}

impl From<RedundantAuxA> for u64 {
    fn from(reg: RedundantAuxA) -> (r: u64) {
        reg.0
    }
}

impl vstd::std_specs::convert::FromSpecImpl<RedundantAuxA> for u64 {
    open spec fn obeys_from_spec() -> bool {
        true
    }

    open spec fn from_spec(reg: RedundantAuxA) -> u64 {
        reg@
    }
}

impl RedundantAuxA {
    /// The layout holding `bits`, as a value in specifications.
    pub closed spec fn from_bits_spec(bits: u64) -> RedundantAuxA {
        RedundantAuxA(bits)
    }

    /// A layout is its bits.
    pub proof fn lemma_from_bits_spec(bits: u64)
        ensures
            #[trigger] RedundantAuxA::from_bits_spec(bits)@ == bits,
    {
    }
}

impl AdbmsReadableRegister for RedundantAuxA {
    open spec fn spec_read_cmd() -> (u8, u8) {
        (0x00u8, 0x1Cu8)
    }

    fn read_cmd() -> (r: [u8; 2]) {
        [0x00, 0x1C]
    }

    fn from_raw(bits: u64) -> (r: RedundantAuxA) {
        RedundantAuxA(bits)
    }
}


/// Redundant Auxiliary Register Group B.
#[derive(Clone, Copy, Debug, PartialEq, Eq)]
pub struct RedundantAuxB(u64);

impl View for RedundantAuxB {
    type V = u64;

    /// The raw bits of the layout.
    closed spec fn view(&self) -> u64 {
        self.0
    }
}

impl RedundantAuxB {
    /// The layout with every field at its default.
    pub fn new() -> (r: RedundantAuxB)
        ensures
            r@ == 0x0u64,
    {
        RedundantAuxB(0x0)
    }

    /// Wraps raw bits.
    pub fn from_bits(bits: u64) -> (r: RedundantAuxB)
        ensures
            r@ == bits,
    {
        RedundantAuxB(bits)
    }

    /// The raw bits.
    pub fn into_bits(self) -> (r: u64)
        ensures
            r == self@,
    {
        self.0
    }

    /// The `r_g4v` field.
    pub fn r_g4v(&self) -> (r: AdbmsCellVoltage)
        ensures
            r == AdbmsCellVoltage(get_bits(self@, 0, 0xffff) as u16),
    {
        let v = field(self.0, 0, 0xffff);
        AdbmsCellVoltage::from_bits(v as u16)
    }

    /// This layout with the `r_g4v` field replaced.
    pub fn with_r_g4v(self, v: AdbmsCellVoltage) -> (r: RedundantAuxB)
        ensures
            r@ == set_bits(self@, 0, 0xffff, v.spec_into_bits() as u64),
    {
        RedundantAuxB(put(self.0, 0, 0xffff, v.into_bits() as u64))
    }

    /// The `r_g5v` field.
    pub fn r_g5v(&self) -> (r: AdbmsCellVoltage)
        ensures
            r == AdbmsCellVoltage(get_bits(self@, 16, 0xffff) as u16),
    {
        let v = field(self.0, 16, 0xffff);
        AdbmsCellVoltage::from_bits(v as u16)
    }

    /// This layout with the `r_g5v` field replaced.
    pub fn with_r_g5v(self, v: AdbmsCellVoltage) -> (r: RedundantAuxB)
        ensures
            r@ == set_bits(self@, 16, 0xffff, v.spec_into_bits() as u64),
    {
        RedundantAuxB(put(self.0, 16, 0xffff, v.into_bits() as u64))
    }

    /// The `r_g6v` field.
    pub fn r_g6v(&self) -> (r: AdbmsCellVoltage)
        ensures
            r == AdbmsCellVoltage(get_bits(self@, 32, 0xffff) as u16),
    {
        let v = field(self.0, 32, 0xffff);
        AdbmsCellVoltage::from_bits(v as u16)
    }

    /// This layout with the `r_g6v` field replaced.
    pub fn with_r_g6v(self, v: AdbmsCellVoltage) -> (r: RedundantAuxB)
        ensures
            r@ == set_bits(self@, 32, 0xffff, v.spec_into_bits() as u64),
    {
        RedundantAuxB(put(self.0, 32, 0xffff, v.into_bits() as u64))
    }
}

impl From<u64> for RedundantAuxB {
    fn from(bits: u64) -> (r: RedundantAuxB) {
        RedundantAuxB(bits)
    }
}

impl vstd::std_specs::convert::FromSpecImpl<u64> for RedundantAuxB {
    open spec fn obeys_from_spec() -> bool {
        true
    }

    open spec fn from_spec(bits: u64) -> RedundantAuxB {
        RedundantAuxB::from_bits_spec(bits)
    }
}

impl From<RedundantAuxB> for u64 {
    fn from(reg: RedundantAuxB) -> (r: u64) {
        reg.0
    }
}

impl vstd::std_specs::convert::FromSpecImpl<RedundantAuxB> for u64 {
    open spec fn obeys_from_spec() -> bool {
        true
    }

    open spec fn from_spec(reg: RedundantAuxB) -> u64 {
        reg@
    }
}

impl RedundantAuxB {
    /// The layout holding `bits`, as a value in specifications.
    pub closed spec fn from_bits_spec(bits: u64) -> RedundantAuxB {
        RedundantAuxB(bits)
    }

    /// A layout is its bits.
    pub proof fn lemma_from_bits_spec(bits: u64)
        ensures
            #[trigger] RedundantAuxB::from_bits_spec(bits)@ == bits,
    {
    }
}

impl AdbmsReadableRegister for RedundantAuxB {
    open spec fn spec_read_cmd() -> (u8, u8) {
        (0x00u8, 0x1Du8)
    }

    fn read_cmd() -> (r: [u8; 2]) {
        [0x00, 0x1D]
    }

    fn from_raw(bits: u64) -> (r: RedundantAuxB) {
        RedundantAuxB(bits)
    }
}


/// Redundant Auxiliary Register Group C.
#[derive(Clone, Copy, Debug, PartialEq, Eq)]
pub struct RedundantAuxC(u64);

impl View for RedundantAuxC {
    type V = u64;

    /// The raw bits of the layout.
    closed spec fn view(&self) -> u64 {
        self.0
    }
}

impl RedundantAuxC {
    /// The layout with every field at its default.
    pub fn new() -> (r: RedundantAuxC)
        ensures
            r@ == 0x0u64,
    {
        RedundantAuxC(0x0)
    }

    /// Wraps raw bits.
    pub fn from_bits(bits: u64) -> (r: RedundantAuxC)
        ensures
            r@ == bits,
    {
        RedundantAuxC(bits)
    }

    /// The raw bits.
    pub fn into_bits(self) -> (r: u64)
        ensures
            r == self@,
    {
        self.0
    }

    /// The `r_g7v` field.
    pub fn r_g7v(&self) -> (r: AdbmsCellVoltage)
        ensures
            r == AdbmsCellVoltage(get_bits(self@, 0, 0xffff) as u16),
    {
        let v = field(self.0, 0, 0xffff);
        AdbmsCellVoltage::from_bits(v as u16)
    }

    /// This layout with the `r_g7v` field replaced.
    pub fn with_r_g7v(self, v: AdbmsCellVoltage) -> (r: RedundantAuxC)
        ensures
            r@ == set_bits(self@, 0, 0xffff, v.spec_into_bits() as u64),
    {
        RedundantAuxC(put(self.0, 0, 0xffff, v.into_bits() as u64))
    }

    /// The `r_g8v` field.
    pub fn r_g8v(&self) -> (r: AdbmsCellVoltage)
        ensures
            r == AdbmsCellVoltage(get_bits(self@, 16, 0xffff) as u16),
    {
        let v = field(self.0, 16, 0xffff);
        AdbmsCellVoltage::from_bits(v as u16)
    }

    /// This layout with the `r_g8v` field replaced.
    pub fn with_r_g8v(self, v: AdbmsCellVoltage) -> (r: RedundantAuxC)
        ensures
            r@ == set_bits(self@, 16, 0xffff, v.spec_into_bits() as u64),
    {
        RedundantAuxC(put(self.0, 16, 0xffff, v.into_bits() as u64))
    }

    /// The `r_g9v` field.
    pub fn r_g9v(&self) -> (r: AdbmsCellVoltage)
        ensures
            r == AdbmsCellVoltage(get_bits(self@, 32, 0xffff) as u16),
    {
        let v = field(self.0, 32, 0xffff);
        AdbmsCellVoltage::from_bits(v as u16)
    }

    /// This layout with the `r_g9v` field replaced.
    pub fn with_r_g9v(self, v: AdbmsCellVoltage) -> (r: RedundantAuxC)
        ensures
            r@ == set_bits(self@, 32, 0xffff, v.spec_into_bits() as u64),
    {
        RedundantAuxC(put(self.0, 32, 0xffff, v.into_bits() as u64))
    }
}

impl From<u64> for RedundantAuxC {
    fn from(bits: u64) -> (r: RedundantAuxC) {
        RedundantAuxC(bits)
    }
}

impl vstd::std_specs::convert::FromSpecImpl<u64> for RedundantAuxC {
    open spec fn obeys_from_spec() -> bool {
        true
    }

    open spec fn from_spec(bits: u64) -> RedundantAuxC {
        RedundantAuxC::from_bits_spec(bits)
    }
}

impl From<RedundantAuxC> for u64 {
    fn from(reg: RedundantAuxC) -> (r: u64) {
        reg.0
    }
}

impl vstd::std_specs::convert::FromSpecImpl<RedundantAuxC> for u64 {
    open spec fn obeys_from_spec() -> bool {
        true
    }

    open spec fn from_spec(reg: RedundantAuxC) -> u64 {
        reg@
    }
}

impl RedundantAuxC {
    /// The layout holding `bits`, as a value in specifications.
    pub closed spec fn from_bits_spec(bits: u64) -> RedundantAuxC {
        RedundantAuxC(bits)
    }

    /// A layout is its bits.
    pub proof fn lemma_from_bits_spec(bits: u64)
        ensures
            #[trigger] RedundantAuxC::from_bits_spec(bits)@ == bits,
    {
    }
}

impl AdbmsReadableRegister for RedundantAuxC {
    open spec fn spec_read_cmd() -> (u8, u8) {
        (0x00u8, 0x1Eu8)
    }

    fn read_cmd() -> (r: [u8; 2]) {
        [0x00, 0x1E]
    }

    fn from_raw(bits: u64) -> (r: RedundantAuxC) {
        RedundantAuxC(bits)
    }
}


/// Redundant Auxiliary Register Group D.
#[derive(Clone, Copy, Debug, PartialEq, Eq)]
pub struct RedundantAuxD(u64);

impl View for RedundantAuxD {
    type V = u64;

    /// The raw bits of the layout.
    closed spec fn view(&self) -> u64 {
        self.0
    }
}

impl RedundantAuxD {
    /// The layout with every field at its default.
    pub fn new() -> (r: RedundantAuxD)
        ensures
            r@ == 0x0u64,
    {
        RedundantAuxD(0x0)
    }

    /// Wraps raw bits.
    pub fn from_bits(bits: u64) -> (r: RedundantAuxD)
        ensures
            r@ == bits,
    {
        RedundantAuxD(bits)
    }

    /// The raw bits.
    pub fn into_bits(self) -> (r: u64)
        ensures
            r == self@,
    {
        self.0
    }

    /// The `r_g10v` field.
    pub fn r_g10v(&self) -> (r: AdbmsCellVoltage)
        ensures
            r == AdbmsCellVoltage(get_bits(self@, 0, 0xffff) as u16),
    {
        let v = field(self.0, 0, 0xffff);
        AdbmsCellVoltage::from_bits(v as u16)
    }

    /// This layout with the `r_g10v` field replaced.
    pub fn with_r_g10v(self, v: AdbmsCellVoltage) -> (r: RedundantAuxD)
        ensures
            r@ == set_bits(self@, 0, 0xffff, v.spec_into_bits() as u64),
    {
        RedundantAuxD(put(self.0, 0, 0xffff, v.into_bits() as u64))
    }
}

impl From<u64> for RedundantAuxD {
    fn from(bits: u64) -> (r: RedundantAuxD) {
        RedundantAuxD(bits)
    }
}

impl vstd::std_specs::convert::FromSpecImpl<u64> for RedundantAuxD {
    open spec fn obeys_from_spec() -> bool {
        true
    }

    open spec fn from_spec(bits: u64) -> RedundantAuxD {
        RedundantAuxD::from_bits_spec(bits)
    }
}

impl From<RedundantAuxD> for u64 {
    fn from(reg: RedundantAuxD) -> (r: u64) {
        reg.0
    }
}

impl vstd::std_specs::convert::FromSpecImpl<RedundantAuxD> for u64 {
    open spec fn obeys_from_spec() -> bool {
        true
    }

    open spec fn from_spec(reg: RedundantAuxD) -> u64 {
        reg@
    }
}

impl RedundantAuxD {
    /// The layout holding `bits`, as a value in specifications.
    pub closed spec fn from_bits_spec(bits: u64) -> RedundantAuxD {
        RedundantAuxD(bits)
    }

    /// A layout is its bits.
    pub proof fn lemma_from_bits_spec(bits: u64)
        ensures
            #[trigger] RedundantAuxD::from_bits_spec(bits)@ == bits,
    {
    }
}

impl AdbmsReadableRegister for RedundantAuxD {
    open spec fn spec_read_cmd() -> (u8, u8) {
        (0x00u8, 0x25u8)
    }

    fn read_cmd() -> (r: [u8; 2]) {
        [0x00, 0x25]
    }

    fn from_raw(bits: u64) -> (r: RedundantAuxD) {
        RedundantAuxD(bits)
    }
}


} // verus!
