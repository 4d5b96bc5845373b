//! Cell voltage result register groups and conversion commands.

use vstd::prelude::*;

use crate::bits::{field, get_bits, put, set_bits};
use crate::adbms6830::registers::{AdbmsCommand, AdbmsReadableRegister};
use super::AdbmsCellVoltage;

verus! {

/// Starts a cell voltage conversion (ADCV).
#[derive(Clone, Copy, Debug)]
pub struct Adcv {
    /// Redundant measurement with the S-ADC.
    pub rd: bool,
    /// Discharge permitted during the measurement.
    pub dcp: bool,
    /// Continuous conversion.
    pub cont: bool,
    /// Reset the IIR filter.
    pub rstf: bool,
    /// Open-wire switches.
    pub ow: OwSettings,
}

impl AdbmsCommand for Adcv {
    open spec fn spec_command(&self) -> u16 {
        0b0100110000u16 | ((if self.rd { 1u16 } else { 0u16 }) << 8u16) | ((if self.cont { 1u16 } else { 0u16 }) << 7u16) | ((if self.dcp { 1u16 } else { 0u16 }) << 4u16) | ((if self.rstf { 1u16 } else { 0u16 }) << 2u16) | (self.ow@ as u16)
    }

    fn get_command(&self) -> (r: u16) {
        let mut buf: u16 = 0b0100110000;
        buf = buf | ((if self.rd { 1u16 } else { 0u16 }) << 8u16);
        buf = buf | ((if self.cont { 1u16 } else { 0u16 }) << 7u16);
        buf = buf | ((if self.dcp { 1u16 } else { 0u16 }) << 4u16);
        buf = buf | ((if self.rstf { 1u16 } else { 0u16 }) << 2u16);
        buf = buf | (self.ow.into_bits() as u16);
        buf
    }
}


/// Open-wire switch settings of a cell conversion.
#[derive(Clone, Copy, Debug, PartialEq, Eq, Structural)]
pub enum OwSettings {
    /// Open-wire switches off.
    Off,
    /// Switches on even channels.
    EvenOn,
    /// Switches on odd channels.
    OddOn,
    /// Switches on every channel.
    BothOn,
}

impl View for OwSettings {
    type V = u8;

    /// The raw field value of this code.
    open spec fn view(&self) -> u8 {
        match self {
            OwSettings::Off => 0u8,
            OwSettings::EvenOn => 1u8,
            OwSettings::OddOn => 2u8,
            OwSettings::BothOn => 3u8,
        }
    }
}

impl OwSettings {
    /// Every variant stands for the field value the datasheet gives it.
    pub proof fn lemma_codes()
        ensures
            OwSettings::Off@ == 0u8,
            OwSettings::EvenOn@ == 1u8,
            OwSettings::OddOn@ == 2u8,
            OwSettings::BothOn@ == 3u8,
    {
    }
}

impl OwSettings {
    /// The raw field value of this code.
    pub fn into_bits(self) -> (r: u8)
        ensures
            r == self@,
            r <= 3,
    {
        match self {
            OwSettings::Off => 0,
            OwSettings::EvenOn => 1,
            OwSettings::OddOn => 2,
            OwSettings::BothOn => 3,
        }
    }
}


/// Starts an S-ADC cell conversion (ADSV).
#[derive(Clone, Copy, Debug)]
pub struct Adsv {
    /// Discharge permitted during the measurement.
    pub dcp: bool,
    /// Continuous conversion.
    pub cont: bool,
    /// Open-wire switches.
    pub ow: OwSettings,
}

impl AdbmsCommand for Adsv {
    open spec fn spec_command(&self) -> u16 {
        0b00101101000u16 | ((if self.cont { 1u16 } else { 0u16 }) << 7u16) | ((if self.dcp { 1u16 } else { 0u16 }) << 4u16) | (self.ow@ as u16)
    }

    fn get_command(&self) -> (r: u16) {
        let mut buf: u16 = 0b00101101000;
        buf = buf | ((if self.cont { 1u16 } else { 0u16 }) << 7u16);
        buf = buf | ((if self.dcp { 1u16 } else { 0u16 }) << 4u16);
        buf = buf | (self.ow.into_bits() as u16);
        buf
    }
}


/// Clears the cell voltage registers (CLRCELL).
#[derive(Clone, Copy, Debug)]
pub struct ClrCell {}

impl AdbmsCommand for ClrCell {
    open spec fn spec_command(&self) -> u16 {
        0b11100010001u16
    }

    fn get_command(&self) -> (r: u16) {
        0b11100010001
    }
}


/// Clears the filtered cell voltage registers (CLRFC).
#[derive(Clone, Copy, Debug)]
pub struct ClrFc {}

impl AdbmsCommand for ClrFc {
    open spec fn spec_command(&self) -> u16 {
        0b11100010100u16
    }

    fn get_command(&self) -> (r: u16) {
        0b11100010100
    }
}


/// Clears the S-voltage registers (CLRSPIN).
#[derive(Clone, Copy, Debug)]
pub struct ClrSpin {}

impl AdbmsCommand for ClrSpin {
    open spec fn spec_command(&self) -> u16 {
        0b11100010110u16
    }

    fn get_command(&self) -> (r: u16) {
        0b11100010110
    }
}


/// Cell Voltage Register Group A.
#[derive(Clone, Copy, Debug, PartialEq, Eq)]
pub struct CellVoltageA(u64);

impl View for CellVoltageA {
    type V = u64;

    /// The raw bits of the layout.
    closed spec fn view(&self) -> u64 {
        self.0
    }
}

impl CellVoltageA {
    /// The layout with every field at its default.
    pub fn new() -> (r: CellVoltageA)
        ensures
            r@ == 0x0u64,
    {
        CellVoltageA(0x0)
    }

    /// Wraps raw bits.
    pub fn from_bits(bits: u64) -> (r: CellVoltageA)
        ensures
            r@ == bits,
    {
        CellVoltageA(bits)
    }

    /// The raw bits.
    pub fn into_bits(self) -> (r: u64)
        ensures
            r == self@,
    {
        self.0
    }

    /// The `c1v` field.
    pub fn c1v(&self) -> (r: AdbmsCellVoltage)
        ensures
            r == AdbmsCellVoltage(get_bits(self@, 0, 0xffff) as u16),
    {
        let v = field(self.0, 0, 0xffff);
        AdbmsCellVoltage::from_bits(v as u16)
    }

    /// This layout with the `c1v` field replaced.
    pub fn with_c1v(self, v: AdbmsCellVoltage) -> (r: CellVoltageA)
        ensures
            r@ == set_bits(self@, 0, 0xffff, v.spec_into_bits() as u64),
    {
        CellVoltageA(put(self.0, 0, 0xffff, v.into_bits() as u64))
    }

    /// The `c2v` field.
    pub fn c2v(&self) -> (r: AdbmsCellVoltage)
        ensures
            r == AdbmsCellVoltage(get_bits(self@, 16, 0xffff) as u16),
    {
        let v = field(self.0, 16, 0xffff);
        AdbmsCellVoltage::from_bits(v as u16)
    }

    /// This layout with the `c2v` field replaced.
    pub fn with_c2v(self, v: AdbmsCellVoltage) -> (r: CellVoltageA)
        ensures
            r@ == set_bits(self@, 16, 0xffff, v.spec_into_bits() as u64),
    {
        CellVoltageA(put(self.0, 16, 0xffff, v.into_bits() as u64))
    }

    /// The `c3v` field.
    pub fn c3v(&self) -> (r: AdbmsCellVoltage)
        ensures
            r == AdbmsCellVoltage(get_bits(self@, 32, 0xffff) as u16),
    {
        let v = field(self.0, 32, 0xffff);
        AdbmsCellVoltage::from_bits(v as u16)
    }

    /// This layout with the `c3v` field replaced.
    pub fn with_c3v(self, v: AdbmsCellVoltage) -> (r: CellVoltageA)
        ensures
            r@ == set_bits(self@, 32, 0xffff, v.spec_into_bits() as u64),
    {
        CellVoltageA(put(self.0, 32, 0xffff, v.into_bits() as u64))
    }
}

impl From<u64> for CellVoltageA {
    fn from(bits: u64) -> (r: CellVoltageA) {
        CellVoltageA(bits)
    }
}

impl vstd::std_specs::convert::FromSpecImpl<u64> for CellVoltageA {
    open spec fn obeys_from_spec() -> bool {
        true
    }

    open spec fn from_spec(bits: u64) -> CellVoltageA {
        CellVoltageA::from_bits_spec(bits)
    }
}

impl From<CellVoltageA> for u64 {
    fn from(reg: CellVoltageA) -> (r: u64) {
        reg.0
    }
}

impl vstd::std_specs::convert::FromSpecImpl<CellVoltageA> for u64 {
    open spec fn obeys_from_spec() -> bool {
        true
    }

    open spec fn from_spec(reg: CellVoltageA) -> u64 {
        reg@
    }
}

impl CellVoltageA {
    /// The layout holding `bits`, as a value in specifications.
    pub closed spec fn from_bits_spec(bits: u64) -> CellVoltageA {
        CellVoltageA(bits)
    }

    /// A layout is its bits.
    pub proof fn lemma_from_bits_spec(bits: u64)
        ensures
            #[trigger] CellVoltageA::from_bits_spec(bits)@ == bits,
    {
    }
}

impl AdbmsReadableRegister for CellVoltageA {
    open spec fn spec_read_cmd() -> (u8, u8) {
        (0x00u8, 0x04u8)
    }

    fn read_cmd() -> (r: [u8; 2]) {
        [0x00, 0x04]
    }

    fn from_raw(bits: u64) -> (r: CellVoltageA) {
        CellVoltageA(bits)
    }
}


/// Cell Voltage Register Group B.
#[derive(Clone, Copy, Debug, PartialEq, Eq)]
pub struct CellVoltageB(u64);

impl View for CellVoltageB {
    type V = u64;

    /// The raw bits of the layout.
    closed spec fn view(&self) -> u64 {
        self.0
    }
}

impl CellVoltageB {
    /// The layout with every field at its default.
    pub fn new() -> (r: CellVoltageB)
        ensures
            r@ == 0x0u64,
    {
        CellVoltageB(0x0)
    }

    /// Wraps raw bits.
    pub fn from_bits(bits: u64) -> (r: CellVoltageB)
        ensures
            r@ == bits,
    {
        CellVoltageB(bits)
    }

    /// The raw bits.
    pub fn into_bits(self) -> (r: u64)
        ensures
            r == self@,
    {
        self.0
    }

    /// The `c4v` field.
    pub fn c4v(&self) -> (r: AdbmsCellVoltage)
        ensures
            r == AdbmsCellVoltage(get_bits(self@, 0, 0xffff) as u16),
    {
        let v = field(self.0, 0, 0xffff);
        AdbmsCellVoltage::from_bits(v as u16)
    }

    /// This layout with the `c4v` field replaced.
    pub fn with_c4v(self, v: AdbmsCellVoltage) -> (r: CellVoltageB)
        ensures
            r@ == set_bits(self@, 0, 0xffff, v.spec_into_bits() as u64),
    {
        CellVoltageB(put(self.0, 0, 0xffff, v.into_bits() as u64))
    }

    /// The `c5v` field.
    pub fn c5v(&self) -> (r: AdbmsCellVoltage)
        ensures
            r == AdbmsCellVoltage(get_bits(self@, 16, 0xffff) as u16),
    {
        let v = field(self.0, 16, 0xffff);
        AdbmsCellVoltage::from_bits(v as u16)
    }

    /// This layout with the `c5v` field replaced.
    pub fn with_c5v(self, v: AdbmsCellVoltage) -> (r: CellVoltageB)
        ensures
            r@ == set_bits(self@, 16, 0xffff, v.spec_into_bits() as u64),
    {
        CellVoltageB(put(self.0, 16, 0xffff, v.into_bits() as u64))
    }

    /// The `c6v` field.
    pub fn c6v(&self) -> (r: AdbmsCellVoltage)
        ensures
            r == AdbmsCellVoltage(get_bits(self@, 32, 0xffff) as u16),
    {
        let v = field(self.0, 32, 0xffff);
        AdbmsCellVoltage::from_bits(v as u16)
    }

    /// This layout with the `c6v` field replaced.
    pub fn with_c6v(self, v: AdbmsCellVoltage) -> (r: CellVoltageB)
        ensures
            r@ == set_bits(self@, 32, 0xffff, v.spec_into_bits() as u64),
    {
        CellVoltageB(put(self.0, 32, 0xffff, v.into_bits() as u64))
    }
}

impl From<u64> for CellVoltageB {
    fn from(bits: u64) -> (r: CellVoltageB) {
        CellVoltageB(bits)
    }
}

impl vstd::std_specs::convert::FromSpecImpl<u64> for CellVoltageB {
    open spec fn obeys_from_spec() -> bool {
        true
    }

    open spec fn from_spec(bits: u64) -> CellVoltageB {
        CellVoltageB::from_bits_spec(bits)
    }
}

impl From<CellVoltageB> for u64 {
    fn from(reg: CellVoltageB) -> (r: u64) {
        reg.0
    }
}

impl vstd::std_specs::convert::FromSpecImpl<CellVoltageB> for u64 {
    open spec fn obeys_from_spec() -> bool {
        true
    }

    open spec fn from_spec(reg: CellVoltageB) -> u64 {
        reg@
    }
}

impl CellVoltageB {
    /// The layout holding `bits`, as a value in specifications.
    pub closed spec fn from_bits_spec(bits: u64) -> CellVoltageB {
        CellVoltageB(bits)
    }

    /// A layout is its bits.
    pub proof fn lemma_from_bits_spec(bits: u64)
        ensures
            #[trigger] CellVoltageB::from_bits_spec(bits)@ == bits,
    {
    }
}

impl AdbmsReadableRegister for CellVoltageB {
    open spec fn spec_read_cmd() -> (u8, u8) {
        (0x00u8, 0x06u8)
    }

    fn read_cmd() -> (r: [u8; 2]) {
        [0x00, 0x06]
    }

    fn from_raw(bits: u64) -> (r: CellVoltageB) {
        CellVoltageB(bits)
    }
}


/// Cell Voltage Register Group C.
#[derive(Clone, Copy, Debug, PartialEq, Eq)]
pub struct CellVoltageC(u64);

impl View for CellVoltageC {
    type V = u64;

    /// The raw bits of the layout.
    closed spec fn view(&self) -> u64 {
        self.0
    }
}

impl CellVoltageC {
    /// The layout with every field at its default.
    pub fn new() -> (r: CellVoltageC)
        ensures
            r@ == 0x0u64,
    {
        CellVoltageC(0x0)
    }

    /// Wraps raw bits.
    pub fn from_bits(bits: u64) -> (r: CellVoltageC)
        ensures
            r@ == bits,
    {
        CellVoltageC(bits)
    }

    /// The raw bits.
    pub fn into_bits(self) -> (r: u64)
        ensures
            r == self@,
    {
        self.0
    }

    /// The `c7v` field.
    pub fn c7v(&self) -> (r: AdbmsCellVoltage)
        ensures
            r == AdbmsCellVoltage(get_bits(self@, 0, 0xffff) as u16),
    {
        let v = field(self.0, 0, 0xffff);
        AdbmsCellVoltage::from_bits(v as u16)
    }

    /// This layout with the `c7v` field replaced.
    pub fn with_c7v(self, v: AdbmsCellVoltage) -> (r: CellVoltageC)
        ensures
            r@ == set_bits(self@, 0, 0xffff, v.spec_into_bits() as u64),
    {
        CellVoltageC(put(self.0, 0, 0xffff, v.into_bits() as u64))
    }

    /// The `c8v` field.
    pub fn c8v(&self) -> (r: AdbmsCellVoltage)
        ensures
            r == AdbmsCellVoltage(get_bits(self@, 16, 0xffff) as u16),
    {
        let v = field(self.0, 16, 0xffff);
        AdbmsCellVoltage::from_bits(v as u16)
    }

    /// This layout with the `c8v` field replaced.
    pub fn with_c8v(self, v: AdbmsCellVoltage) -> (r: CellVoltageC)
        ensures
            r@ == set_bits(self@, 16, 0xffff, v.spec_into_bits() as u64),
    {
        CellVoltageC(put(self.0, 16, 0xffff, v.into_bits() as u64))
    }

    /// The `c9v` field.
    pub fn c9v(&self) -> (r: AdbmsCellVoltage)
        ensures
            r == AdbmsCellVoltage(get_bits(self@, 32, 0xffff) as u16),
    {
        let v = field(self.0, 32, 0xffff);
        AdbmsCellVoltage::from_bits(v as u16)
    }

    /// This layout with the `c9v` field replaced.
    pub fn with_c9v(self, v: AdbmsCellVoltage) -> (r: CellVoltageC)
        ensures
            r@ == set_bits(self@, 32, 0xffff, v.spec_into_bits() as u64),
    {
        CellVoltageC(put(self.0, 32, 0xffff, v.into_bits() as u64))
    }
}

impl From<u64> for CellVoltageC {
    fn from(bits: u64) -> (r: CellVoltageC) {
        CellVoltageC(bits)
    }
}

impl vstd::std_specs::convert::FromSpecImpl<u64> for CellVoltageC {
    open spec fn obeys_from_spec() -> bool {
        true
    }

    open spec fn from_spec(bits: u64) -> CellVoltageC {
        CellVoltageC::from_bits_spec(bits)
    }
}

impl From<CellVoltageC> for u64 {
    fn from(reg: CellVoltageC) -> (r: u64) {
        reg.0
    }
}

impl vstd::std_specs::convert::FromSpecImpl<CellVoltageC> for u64 {
    open spec fn obeys_from_spec() -> bool {
        true
    }

    open spec fn from_spec(reg: CellVoltageC) -> u64 {
        reg@
    }
}

impl CellVoltageC {
    /// The layout holding `bits`, as a value in specifications.
    pub closed spec fn from_bits_spec(bits: u64) -> CellVoltageC {
        CellVoltageC(bits)
    }

    /// A layout is its bits.
    pub proof fn lemma_from_bits_spec(bits: u64)
        ensures
            #[trigger] CellVoltageC::from_bits_spec(bits)@ == bits,
    {
    }
}

impl AdbmsReadableRegister for CellVoltageC {
    open spec fn spec_read_cmd() -> (u8, u8) {
        (0x00u8, 0x08u8)
    }

    fn read_cmd() -> (r: [u8; 2]) {
        [0x00, 0x08]
    }

    fn from_raw(bits: u64) -> (r: CellVoltageC) {
        CellVoltageC(bits)
    }
}


/// Cell Voltage Register Group D.
#[derive(Clone, Copy, Debug, PartialEq, Eq)]
pub struct CellVoltageD(u64);

impl View for CellVoltageD {
    type V = u64;

    /// The raw bits of the layout.
    closed spec fn view(&self) -> u64 {
        self.0
    }
}

impl CellVoltageD {
    /// The layout with every field at its default.
    pub fn new() -> (r: CellVoltageD)
        ensures
            r@ == 0x0u64,
    {
        CellVoltageD(0x0)
    }

    /// Wraps raw bits.
    pub fn from_bits(bits: u64) -> (r: CellVoltageD)
        ensures
            r@ == bits,
    {
        CellVoltageD(bits)
    }

    /// The raw bits.
    pub fn into_bits(self) -> (r: u64)
        ensures
            r == self@,
    {
        self.0
    }

    /// The `c10v` field.
    pub fn c10v(&self) -> (r: AdbmsCellVoltage)
        ensures
            r == AdbmsCellVoltage(get_bits(self@, 0, 0xffff) as u16),
    {
        let v = field(self.0, 0, 0xffff);
        AdbmsCellVoltage::from_bits(v as u16)
    }

    /// This layout with the `c10v` field replaced.
    pub fn with_c10v(self, v: AdbmsCellVoltage) -> (r: CellVoltageD)
        ensures
            r@ == set_bits(self@, 0, 0xffff, v.spec_into_bits() as u64),
    {
        CellVoltageD(put(self.0, 0, 0xffff, v.into_bits() as u64))
    }

    /// The `c11v` field.
    pub fn c11v(&self) -> (r: AdbmsCellVoltage)
        ensures
            r == AdbmsCellVoltage(get_bits(self@, 16, 0xffff) as u16),
    {
        let v = field(self.0, 16, 0xffff);
        AdbmsCellVoltage::from_bits(v as u16)
    }

    /// This layout with the `c11v` field replaced.
    pub fn with_c11v(self, v: AdbmsCellVoltage) -> (r: CellVoltageD)
        ensures
            r@ == set_bits(self@, 16, 0xffff, v.spec_into_bits() as u64),
    {
        CellVoltageD(put(self.0, 16, 0xffff, v.into_bits() as u64))
    }

    /// The `c12v` field.
    pub fn c12v(&self) -> (r: AdbmsCellVoltage)
        ensures
            r == AdbmsCellVoltage(get_bits(self@, 32, 0xffff) as u16),
    {
        let v = field(self.0, 32, 0xffff);
        AdbmsCellVoltage::from_bits(v as u16)
    }

    /// This layout with the `c12v` field replaced.
    pub fn with_c12v(self, v: AdbmsCellVoltage) -> (r: CellVoltageD)
        ensures
            r@ == set_bits(self@, 32, 0xffff, v.spec_into_bits() as u64),
    {
        CellVoltageD(put(self.0, 32, 0xffff, v.into_bits() as u64))
    }
}

impl From<u64> for CellVoltageD {
    fn from(bits: u64) -> (r: CellVoltageD) {
        CellVoltageD(bits)
    }
}

impl vstd::std_specs::convert::FromSpecImpl<u64> for CellVoltageD {
    open spec fn obeys_from_spec() -> bool {
        true
    }

    open spec fn from_spec(bits: u64) -> CellVoltageD {
        CellVoltageD::from_bits_spec(bits)
    }
}

impl From<CellVoltageD> for u64 {
    fn from(reg: CellVoltageD) -> (r: u64) {
        reg.0
    }
}

impl vstd::std_specs::convert::FromSpecImpl<CellVoltageD> for u64 {
    open spec fn obeys_from_spec() -> bool {
        true
    }

    open spec fn from_spec(reg: CellVoltageD) -> u64 {
        reg@
    }
}

impl CellVoltageD {
    /// The layout holding `bits`, as a value in specifications.
    pub closed spec fn from_bits_spec(bits: u64) -> CellVoltageD {
        CellVoltageD(bits)
    }

    /// A layout is its bits.
    pub proof fn lemma_from_bits_spec(bits: u64)
        ensures
            #[trigger] CellVoltageD::from_bits_spec(bits)@ == bits,
    {
    }
}

impl AdbmsReadableRegister for CellVoltageD {
    open spec fn spec_read_cmd() -> (u8, u8) {
        (0x00u8, 0x0Au8)
    }

    fn read_cmd() -> (r: [u8; 2]) {
        [0x00, 0x0A]
    }

    fn from_raw(bits: u64) -> (r: CellVoltageD) {
        CellVoltageD(bits)
    }
}


/// Cell Voltage Register Group E.
#[derive(Clone, Copy, Debug, PartialEq, Eq)]
pub struct CellVoltageE(u64);

impl View for CellVoltageE {
    type V = u64;

    /// The raw bits of the layout.
    closed spec fn view(&self) -> u64 {
        self.0
    }
}

impl CellVoltageE {
    /// The layout with every field at its default.
    pub fn new() -> (r: CellVoltageE)
        ensures
            r@ == 0x0u64,
    {
        CellVoltageE(0x0)
    }

    /// Wraps raw bits.
    pub fn from_bits(bits: u64) -> (r: CellVoltageE)
        ensures
            r@ == bits,
    {
        CellVoltageE(bits)
    }

    /// The raw bits.
    pub fn into_bits(self) -> (r: u64)
        ensures
            r == self@,
    {
        self.0
    }

    /// The `c13v` field.
    pub fn c13v(&self) -> (r: AdbmsCellVoltage)
        ensures
            r == AdbmsCellVoltage(get_bits(self@, 0, 0xffff) as u16),
    {
        let v = field(self.0, 0, 0xffff);
        AdbmsCellVoltage::from_bits(v as u16)
    }

    /// This layout with the `c13v` field replaced.
    pub fn with_c13v(self, v: AdbmsCellVoltage) -> (r: CellVoltageE)
        ensures
            r@ == set_bits(self@, 0, 0xffff, v.spec_into_bits() as u64),
    {
        CellVoltageE(put(self.0, 0, 0xffff, v.into_bits() as u64))
    }

    /// The `c14v` field.
    pub fn c14v(&self) -> (r: AdbmsCellVoltage)
        ensures
            r == AdbmsCellVoltage(get_bits(self@, 16, 0xffff) as u16),
    {
        let v = field(self.0, 16, 0xffff);
        AdbmsCellVoltage::from_bits(v as u16)
    }

    /// This layout with the `c14v` field replaced.
    pub fn with_c14v(self, v: AdbmsCellVoltage) -> (r: CellVoltageE)
        ensures
            r@ == set_bits(self@, 16, 0xffff, v.spec_into_bits() as u64),
    {
        CellVoltageE(put(self.0, 16, 0xffff, v.into_bits() as u64))
    }

    /// The `c15v` field.
    pub fn c15v(&self) -> (r: AdbmsCellVoltage)
        ensures
            r == AdbmsCellVoltage(get_bits(self@, 32, 0xffff) as u16),
    {
        let v = field(self.0, 32, 0xffff);
        AdbmsCellVoltage::from_bits(v as u16)
    }

    /// This layout with the `c15v` field replaced.
    pub fn with_c15v(self, v: AdbmsCellVoltage) -> (r: CellVoltageE)
        ensures
            r@ == set_bits(self@, 32, 0xffff, v.spec_into_bits() as u64),
    {
        CellVoltageE(put(self.0, 32, 0xffff, v.into_bits() as u64))
    }
}

impl From<u64> for CellVoltageE {
    fn from(bits: u64) -> (r: CellVoltageE) {
        CellVoltageE(bits)
    }
}

impl vstd::std_specs::convert::FromSpecImpl<u64> for CellVoltageE {
    open spec fn obeys_from_spec() -> bool {
        true
    }

    open spec fn from_spec(bits: u64) -> CellVoltageE {
        CellVoltageE::from_bits_spec(bits)
    }
}

impl From<CellVoltageE> for u64 {
    fn from(reg: CellVoltageE) -> (r: u64) {
        reg.0
    }
}

impl vstd::std_specs::convert::FromSpecImpl<CellVoltageE> for u64 {
    open spec fn obeys_from_spec() -> bool {
        true
    }

    open spec fn from_spec(reg: CellVoltageE) -> u64 {
        reg@
    }
}

impl CellVoltageE {
    /// The layout holding `bits`, as a value in specifications.
    pub closed spec fn from_bits_spec(bits: u64) -> CellVoltageE {
        CellVoltageE(bits)
    }

    /// A layout is its bits.
    pub proof fn lemma_from_bits_spec(bits: u64)
        ensures
            #[trigger] CellVoltageE::from_bits_spec(bits)@ == bits,
    {
    }
}

impl AdbmsReadableRegister for CellVoltageE {
    open spec fn spec_read_cmd() -> (u8, u8) {
        (0x00u8, 0x09u8)
    }

    fn read_cmd() -> (r: [u8; 2]) {
        [0x00, 0x09]
    }

    fn from_raw(bits: u64) -> (r: CellVoltageE) {
        CellVoltageE(bits)
    }
}


/// Cell Voltage Register Group F.
#[derive(Clone, Copy, Debug, PartialEq, Eq)]
pub struct CellVoltageF(u64);

impl View for CellVoltageF {
    type V = u64;

    /// The raw bits of the layout.
    closed spec fn view(&self) -> u64 {
        self.0
    }
}

impl CellVoltageF {
    /// The layout with every field at its default.
    pub fn new() -> (r: CellVoltageF)
        ensures
            r@ == 0x0u64,
    {
        CellVoltageF(0x0)
    }

    /// Wraps raw bits.
    pub fn from_bits(bits: u64) -> (r: CellVoltageF)
        ensures
            r@ == bits,
    {
        CellVoltageF(bits)
    }

    /// The raw bits.
    pub fn into_bits(self) -> (r: u64)
        ensures
            r == self@,
    {
        self.0
    }

    /// The `c16v` field.
    pub fn c16v(&self) -> (r: AdbmsCellVoltage)
        ensures
            r == AdbmsCellVoltage(get_bits(self@, 0, 0xffff) as u16),
    {
        let v = field(self.0, 0, 0xffff);
        AdbmsCellVoltage::from_bits(v as u16)
    }

    /// This layout with the `c16v` field replaced.
    pub fn with_c16v(self, v: AdbmsCellVoltage) -> (r: CellVoltageF)
        ensures
            r@ == set_bits(self@, 0, 0xffff, v.spec_into_bits() as u64),
    {
        CellVoltageF(put(self.0, 0, 0xffff, v.into_bits() as u64))
    }
}

impl From<u64> for CellVoltageF {
    fn from(bits: u64) -> (r: CellVoltageF) {
        CellVoltageF(bits)
    }
}

impl vstd::std_specs::convert::FromSpecImpl<u64> for CellVoltageF {
    open spec fn obeys_from_spec() -> bool {
        true
    }

    open spec fn from_spec(bits: u64) -> CellVoltageF {
        CellVoltageF::from_bits_spec(bits)
    }
}

impl From<CellVoltageF> for u64 {
    fn from(reg: CellVoltageF) -> (r: u64) {
        reg.0
    }
}

impl vstd::std_specs::convert::FromSpecImpl<CellVoltageF> for u64 {
    open spec fn obeys_from_spec() -> bool {
        true
    }

    open spec fn from_spec(reg: CellVoltageF) -> u64 {
        reg@
    }
}

impl CellVoltageF {
    /// The layout holding `bits`, as a value in specifications.
    pub closed spec fn from_bits_spec(bits: u64) -> CellVoltageF {
        CellVoltageF(bits)
    }

    /// A layout is its bits.
    pub proof fn lemma_from_bits_spec(bits: u64)
        ensures
            #[trigger] CellVoltageF::from_bits_spec(bits)@ == bits,
    {
    }
}

impl AdbmsReadableRegister for CellVoltageF {
    open spec fn spec_read_cmd() -> (u8, u8) {
        (0x00u8, 0x0Bu8)
    }

    fn read_cmd() -> (r: [u8; 2]) {
        [0x00, 0x0B]
    }

    fn from_raw(bits: u64) -> (r: CellVoltageF) {
        CellVoltageF(bits)
    }
}


/// Averaged Cell Voltage Register Group A.
#[derive(Clone, Copy, Debug, PartialEq, Eq)]
pub struct AvgCellVoltageA(u64);

impl View for AvgCellVoltageA {
    type V = u64;

    /// The raw bits of the layout.
    closed spec fn view(&self) -> u64 {
        self.0
    }
}

impl AvgCellVoltageA {
    /// The layout with every field at its default.
    pub fn new() -> (r: AvgCellVoltageA)
        ensures
            r@ == 0x0u64,
    {
        AvgCellVoltageA(0x0)
    }

    /// Wraps raw bits.
    pub fn from_bits(bits: u64) -> (r: AvgCellVoltageA)
        ensures
            r@ == bits,
    {
        AvgCellVoltageA(bits)
    }

    /// The raw bits.
    pub fn into_bits(self) -> (r: u64)
        ensures
            r == self@,
    {
        self.0
    }

    /// The `ac1v` field.
    pub fn ac1v(&self) -> (r: AdbmsCellVoltage)
        ensures
            r == AdbmsCellVoltage(get_bits(self@, 0, 0xffff) as u16),
    {
        let v = field(self.0, 0, 0xffff);
        AdbmsCellVoltage::from_bits(v as u16)
    }

    /// This layout with the `ac1v` field replaced.
    pub fn with_ac1v(self, v: AdbmsCellVoltage) -> (r: AvgCellVoltageA)
        ensures
            r@ == set_bits(self@, 0, 0xffff, v.spec_into_bits() as u64),
    {
        AvgCellVoltageA(put(self.0, 0, 0xffff, v.into_bits() as u64))
    }

    /// The `ac2v` field.
    pub fn ac2v(&self) -> (r: AdbmsCellVoltage)
        ensures
            r == AdbmsCellVoltage(get_bits(self@, 16, 0xffff) as u16),
    {
        let v = field(self.0, 16, 0xffff);
        AdbmsCellVoltage::from_bits(v as u16)
    }

    /// This layout with the `ac2v` field replaced.
    pub fn with_ac2v(self, v: AdbmsCellVoltage) -> (r: AvgCellVoltageA)
        ensures
            r@ == set_bits(self@, 16, 0xffff, v.spec_into_bits() as u64),
    {
        AvgCellVoltageA(put(self.0, 16, 0xffff, v.into_bits() as u64))
    }

    /// The `ac3v` field.
    pub fn ac3v(&self) -> (r: AdbmsCellVoltage)
        ensures
            r == AdbmsCellVoltage(get_bits(self@, 32, 0xffff) as u16),
    {
        let v = field(self.0, 32, 0xffff);
        AdbmsCellVoltage::from_bits(v as u16)
    }

    /// This layout with the `ac3v` field replaced.
    pub fn with_ac3v(self, v: AdbmsCellVoltage) -> (r: AvgCellVoltageA)
        ensures
            r@ == set_bits(self@, 32, 0xffff, v.spec_into_bits() as u64),
    {
        AvgCellVoltageA(put(self.0, 32, 0xffff, v.into_bits() as u64))
    }
}

impl From<u64> for AvgCellVoltageA {
    fn from(bits: u64) -> (r: AvgCellVoltageA) {
        AvgCellVoltageA(bits)
    }
}

impl vstd::std_specs::convert::FromSpecImpl<u64> for AvgCellVoltageA {
    open spec fn obeys_from_spec() -> bool {
        true
    }

    open spec fn from_spec(bits: u64) -> AvgCellVoltageA {
        AvgCellVoltageA::from_bits_spec(bits)
    }
}

impl From<AvgCellVoltageA> for u64 {
    fn from(reg: AvgCellVoltageA) -> (r: u64) {
        reg.0
    }
}

impl vstd::std_specs::convert::FromSpecImpl<AvgCellVoltageA> for u64 {
    open spec fn obeys_from_spec() -> bool {
        true
    }

    open spec fn from_spec(reg: AvgCellVoltageA) -> u64 {
        reg@
    }
}

impl AvgCellVoltageA {
    /// The layout holding `bits`, as a value in specifications.
    pub closed spec fn from_bits_spec(bits: u64) -> AvgCellVoltageA {
        AvgCellVoltageA(bits)
    }

    /// A layout is its bits.
    pub proof fn lemma_from_bits_spec(bits: u64)
        ensures
            #[trigger] AvgCellVoltageA::from_bits_spec(bits)@ == bits,
    {
    }
}

impl AdbmsReadableRegister for AvgCellVoltageA {
    open spec fn spec_read_cmd() -> (u8, u8) {
        (0x00u8, 0x44u8)
    }

    fn read_cmd() -> (r: [u8; 2]) {
        [0x00, 0x44]
    }

    fn from_raw(bits: u64) -> (r: AvgCellVoltageA) {
        AvgCellVoltageA(bits)
    }
}


/// Averaged Cell Voltage Register Group B.
#[derive(Clone, Copy, Debug, PartialEq, Eq)]
pub struct AvgCellVoltageB(u64);

impl View for AvgCellVoltageB {
    type V = u64;

    /// The raw bits of the layout.
    closed spec fn view(&self) -> u64 {
        self.0
    }
}

impl AvgCellVoltageB {
    /// The layout with every field at its default.
    pub fn new() -> (r: AvgCellVoltageB)
        ensures
            r@ == 0x0u64,
    {
        AvgCellVoltageB(0x0)
    }

    /// Wraps raw bits.
    pub fn from_bits(bits: u64) -> (r: AvgCellVoltageB)
        ensures
            r@ == bits,
    {
        AvgCellVoltageB(bits)
    }

    /// The raw bits.
    pub fn into_bits(self) -> (r: u64)
        ensures
            r == self@,
    {
        self.0
    }

    /// The `ac4v` field.
    pub fn ac4v(&self) -> (r: AdbmsCellVoltage)
        ensures
            r == AdbmsCellVoltage(get_bits(self@, 0, 0xffff) as u16),
    {
        let v = field(self.0, 0, 0xffff);
        AdbmsCellVoltage::from_bits(v as u16)
    }

    /// This layout with the `ac4v` field replaced.
    pub fn with_ac4v(self, v: AdbmsCellVoltage) -> (r: AvgCellVoltageB)
        ensures
            r@ == set_bits(self@, 0, 0xffff, v.spec_into_bits() as u64),
    {
        AvgCellVoltageB(put(self.0, 0, 0xffff, v.into_bits() as u64))
    }

    /// The `ac5v` field.
    pub fn ac5v(&self) -> (r: AdbmsCellVoltage)
        ensures
            r == AdbmsCellVoltage(get_bits(self@, 16, 0xffff) as u16),
    {
        let v = field(self.0, 16, 0xffff);
        AdbmsCellVoltage::from_bits(v as u16)
    }

    /// This layout with the `ac5v` field replaced.
    pub fn with_ac5v(self, v: AdbmsCellVoltage) -> (r: AvgCellVoltageB)
        ensures
            r@ == set_bits(self@, 16, 0xffff, v.spec_into_bits() as u64),
    {
        AvgCellVoltageB(put(self.0, 16, 0xffff, v.into_bits() as u64))
    }

    /// The `ac6v` field.
    pub fn ac6v(&self) -> (r: AdbmsCellVoltage)
        ensures
            r == AdbmsCellVoltage(get_bits(self@, 32, 0xffff) as u16),
    {
        let v = field(self.0, 32, 0xffff);
        AdbmsCellVoltage::from_bits(v as u16)
    }

    /// This layout with the `ac6v` field replaced.
    pub fn with_ac6v(self, v: AdbmsCellVoltage) -> (r: AvgCellVoltageB)
        ensures
            r@ == set_bits(self@, 32, 0xffff, v.spec_into_bits() as u64),
    {
        AvgCellVoltageB(put(self.0, 32, 0xffff, v.into_bits() as u64))
    }
}

impl From<u64> for AvgCellVoltageB {
    fn from(bits: u64) -> (r: AvgCellVoltageB) {
        AvgCellVoltageB(bits)
    }
}

impl vstd::std_specs::convert::FromSpecImpl<u64> for AvgCellVoltageB {
    open spec fn obeys_from_spec() -> bool {
        true
    }

    open spec fn from_spec(bits: u64) -> AvgCellVoltageB {
        AvgCellVoltageB::from_bits_spec(bits)
    }
}

impl From<AvgCellVoltageB> for u64 {
    fn from(reg: AvgCellVoltageB) -> (r: u64) {
        reg.0
    }
}

impl vstd::std_specs::convert::FromSpecImpl<AvgCellVoltageB> for u64 {
    open spec fn obeys_from_spec() -> bool {
        true
    }

    open spec fn from_spec(reg: AvgCellVoltageB) -> u64 {
        reg@
    }
}

impl AvgCellVoltageB {
    /// The layout holding `bits`, as a value in specifications.
    pub closed spec fn from_bits_spec(bits: u64) -> AvgCellVoltageB {
        AvgCellVoltageB(bits)
    }

    /// A layout is its bits.
    pub proof fn lemma_from_bits_spec(bits: u64)
        ensures
            #[trigger] AvgCellVoltageB::from_bits_spec(bits)@ == bits,
    {
    }
}

impl AdbmsReadableRegister for AvgCellVoltageB {
    open spec fn spec_read_cmd() -> (u8, u8) {
        (0x00u8, 0x46u8)
    }

    fn read_cmd() -> (r: [u8; 2]) {
        [0x00, 0x46]
    }

    fn from_raw(bits: u64) -> (r: AvgCellVoltageB) {
        AvgCellVoltageB(bits)
    }
}


/// Averaged Cell Voltage Register Group C.
#[derive(Clone, Copy, Debug, PartialEq, Eq)]
pub struct AvgCellVoltageC(u64);

impl View for AvgCellVoltageC {
    type V = u64;

    /// The raw bits of the layout.
    closed spec fn view(&self) -> u64 {
        self.0
    }
}

impl AvgCellVoltageC {
    /// The layout with every field at its default.
    pub fn new() -> (r: AvgCellVoltageC)
        ensures
            r@ == 0x0u64,
    {
        AvgCellVoltageC(0x0)
    }

    /// Wraps raw bits.
    pub fn from_bits(bits: u64) -> (r: AvgCellVoltageC)
        ensures
            r@ == bits,
    {
        AvgCellVoltageC(bits)
    }

    /// The raw bits.
    pub fn into_bits(self) -> (r: u64)
        ensures
            r == self@,
    {
        self.0
    }

    /// The `ac7v` field.
    pub fn ac7v(&self) -> (r: AdbmsCellVoltage)
        ensures
            r == AdbmsCellVoltage(get_bits(self@, 0, 0xffff) as u16),
    {
        let v = field(self.0, 0, 0xffff);
        AdbmsCellVoltage::from_bits(v as u16)
    }

    /// This layout with the `ac7v` field replaced.
    pub fn with_ac7v(self, v: AdbmsCellVoltage) -> (r: AvgCellVoltageC)
        ensures
            r@ == set_bits(self@, 0, 0xffff, v.spec_into_bits() as u64),
    {
        AvgCellVoltageC(put(self.0, 0, 0xffff, v.into_bits() as u64))
    }

    /// The `ac8v` field.
    pub fn ac8v(&self) -> (r: AdbmsCellVoltage)
        ensures
            r == AdbmsCellVoltage(get_bits(self@, 16, 0xffff) as u16),
    {
        let v = field(self.0, 16, 0xffff);
        AdbmsCellVoltage::from_bits(v as u16)
    }

    /// This layout with the `ac8v` field replaced.
    pub fn with_ac8v(self, v: AdbmsCellVoltage) -> (r: AvgCellVoltageC)
        ensures
            r@ == set_bits(self@, 16, 0xffff, v.spec_into_bits() as u64),
    {
        AvgCellVoltageC(put(self.0, 16, 0xffff, v.into_bits() as u64))
    }

    /// The `ac9v` field.
    pub fn ac9v(&self) -> (r: AdbmsCellVoltage)
        ensures
            r == AdbmsCellVoltage(get_bits(self@, 32, 0xffff) as u16),
    {
        let v = field(self.0, 32, 0xffff);
        AdbmsCellVoltage::from_bits(v as u16)
    }

    /// This layout with the `ac9v` field replaced.
    pub fn with_ac9v(self, v: AdbmsCellVoltage) -> (r: AvgCellVoltageC)
        ensures
            r@ == set_bits(self@, 32, 0xffff, v.spec_into_bits() as u64),
    {
        AvgCellVoltageC(put(self.0, 32, 0xffff, v.into_bits() as u64))
    }
}

impl From<u64> for AvgCellVoltageC {
    fn from(bits: u64) -> (r: AvgCellVoltageC) {
        AvgCellVoltageC(bits)
    }
}

impl vstd::std_specs::convert::FromSpecImpl<u64> for AvgCellVoltageC {
    open spec fn obeys_from_spec() -> bool {
        true
    }

    open spec fn from_spec(bits: u64) -> AvgCellVoltageC {
        AvgCellVoltageC::from_bits_spec(bits)
    }
}

impl From<AvgCellVoltageC> for u64 {
    fn from(reg: AvgCellVoltageC) -> (r: u64) {
        reg.0
    }
}

impl vstd::std_specs::convert::FromSpecImpl<AvgCellVoltageC> for u64 {
    open spec fn obeys_from_spec() -> bool {
        true
    }

    open spec fn from_spec(reg: AvgCellVoltageC) -> u64 {
        reg@
    }
}

impl AvgCellVoltageC {
    /// The layout holding `bits`, as a value in specifications.
    pub closed spec fn from_bits_spec(bits: u64) -> AvgCellVoltageC {
        AvgCellVoltageC(bits)
    }

    /// A layout is its bits.
    pub proof fn lemma_from_bits_spec(bits: u64)
        ensures
            #[trigger] AvgCellVoltageC::from_bits_spec(bits)@ == bits,
    {
    }
}

impl AdbmsReadableRegister for AvgCellVoltageC {
    open spec fn spec_read_cmd() -> (u8, u8) {
        (0x00u8, 0x48u8)
    }

    fn read_cmd() -> (r: [u8; 2]) {
        [0x00, 0x48]
    }

    fn from_raw(bits: u64) -> (r: AvgCellVoltageC) {
        AvgCellVoltageC(bits)
    }
}


/// Averaged Cell Voltage Register Group D.
#[derive(Clone, Copy, Debug, PartialEq, Eq)]
pub struct AvgCellVoltageD(u64);

impl View for AvgCellVoltageD {
    type V = u64;

    /// The raw bits of the layout.
    closed spec fn view(&self) -> u64 {
        self.0
    }
}

impl AvgCellVoltageD {
    /// The layout with every field at its default.
    pub fn new() -> (r: AvgCellVoltageD)
        ensures
            r@ == 0x0u64,
    {
        AvgCellVoltageD(0x0)
    }

    /// Wraps raw bits.
    pub fn from_bits(bits: u64) -> (r: AvgCellVoltageD)
        ensures
            r@ == bits,
    {
        AvgCellVoltageD(bits)
    }

    /// The raw bits.
    pub fn into_bits(self) -> (r: u64)
        ensures
            r == self@,
    {
        self.0
    }

    /// The `ac10v` field.
    pub fn ac10v(&self) -> (r: AdbmsCellVoltage)
        ensures
            r == AdbmsCellVoltage(get_bits(self@, 0, 0xffff) as u16),
    {
        let v = field(self.0, 0, 0xffff);
        AdbmsCellVoltage::from_bits(v as u16)
    }

    /// This layout with the `ac10v` field replaced.
    pub fn with_ac10v(self, v: AdbmsCellVoltage) -> (r: AvgCellVoltageD)
        ensures
            r@ == set_bits(self@, 0, 0xffff, v.spec_into_bits() as u64),
    {
        AvgCellVoltageD(put(self.0, 0, 0xffff, v.into_bits() as u64))
    }

    /// The `ac11v` field.
    pub fn ac11v(&self) -> (r: AdbmsCellVoltage)
        ensures
            r == AdbmsCellVoltage(get_bits(self@, 16, 0xffff) as u16),
    {
        let v = field(self.0, 16, 0xffff);
        AdbmsCellVoltage::from_bits(v as u16)
    }

    /// This layout with the `ac11v` field replaced.
    pub fn with_ac11v(self, v: AdbmsCellVoltage) -> (r: AvgCellVoltageD)
        ensures
            r@ == set_bits(self@, 16, 0xffff, v.spec_into_bits() as u64),
    {
        AvgCellVoltageD(put(self.0, 16, 0xffff, v.into_bits() as u64))
    }

    /// The `ac12v` field.
    pub fn ac12v(&self) -> (r: AdbmsCellVoltage)
        ensures
            r == AdbmsCellVoltage(get_bits(self@, 32, 0xffff) as u16),
    {
        let v = field(self.0, 32, 0xffff);
        AdbmsCellVoltage::from_bits(v as u16)
    }

    /// This layout with the `ac12v` field replaced.
    pub fn with_ac12v(self, v: AdbmsCellVoltage) -> (r: AvgCellVoltageD)
        ensures
            r@ == set_bits(self@, 32, 0xffff, v.spec_into_bits() as u64),
    {
        AvgCellVoltageD(put(self.0, 32, 0xffff, v.into_bits() as u64))
    }
}

impl From<u64> for AvgCellVoltageD {
    fn from(bits: u64) -> (r: AvgCellVoltageD) {
        AvgCellVoltageD(bits)
    }
}

impl vstd::std_specs::convert::FromSpecImpl<u64> for AvgCellVoltageD {
    open spec fn obeys_from_spec() -> bool {
        true
    }

    open spec fn from_spec(bits: u64) -> AvgCellVoltageD {
        AvgCellVoltageD::from_bits_spec(bits)
    }
}

impl From<AvgCellVoltageD> for u64 {
    fn from(reg: AvgCellVoltageD) -> (r: u64) {
        reg.0
    }
}

impl vstd::std_specs::convert::FromSpecImpl<AvgCellVoltageD> for u64 {
    open spec fn obeys_from_spec() -> bool {
        true
    }

    open spec fn from_spec(reg: AvgCellVoltageD) -> u64 {
        reg@
    }
}

impl AvgCellVoltageD {
    /// The layout holding `bits`, as a value in specifications.
    pub closed spec fn from_bits_spec(bits: u64) -> AvgCellVoltageD {
        AvgCellVoltageD(bits)
    }

    /// A layout is its bits.
    pub proof fn lemma_from_bits_spec(bits: u64)
        ensures
            #[trigger] AvgCellVoltageD::from_bits_spec(bits)@ == bits,
    {
    }
}

impl AdbmsReadableRegister for AvgCellVoltageD {
    open spec fn spec_read_cmd() -> (u8, u8) {
        (0x00u8, 0x4Au8)
    }

    fn read_cmd() -> (r: [u8; 2]) {
        [0x00, 0x4A]
    }

    fn from_raw(bits: u64) -> (r: AvgCellVoltageD) {
        AvgCellVoltageD(bits)
    }
}


/// Averaged Cell Voltage Register Group E.
#[derive(Clone, Copy, Debug, PartialEq, Eq)]
pub struct AvgCellVoltageE(u64);

impl View for AvgCellVoltageE {
    type V = u64;

    /// The raw bits of the layout.
    closed spec fn view(&self) -> u64 {
        self.0
    }
}

impl AvgCellVoltageE {
    /// The layout with every field at its default.
    pub fn new() -> (r: AvgCellVoltageE)
        ensures
            r@ == 0x0u64,
    {
        AvgCellVoltageE(0x0)
    }

    /// Wraps raw bits.
    pub fn from_bits(bits: u64) -> (r: AvgCellVoltageE)
        ensures
            r@ == bits,
    {
        AvgCellVoltageE(bits)
    }

    /// The raw bits.
    pub fn into_bits(self) -> (r: u64)
        ensures
            r == self@,
    {
        self.0
    }

    /// The `ac13v` field.
    pub fn ac13v(&self) -> (r: AdbmsCellVoltage)
        ensures
            r == AdbmsCellVoltage(get_bits(self@, 0, 0xffff) as u16),
    {
        let v = field(self.0, 0, 0xffff);
        AdbmsCellVoltage::from_bits(v as u16)
    }

    /// This layout with the `ac13v` field replaced.
    pub fn with_ac13v(self, v: AdbmsCellVoltage) -> (r: AvgCellVoltageE)
        ensures
            r@ == set_bits(self@, 0, 0xffff, v.spec_into_bits() as u64),
    {
        AvgCellVoltageE(put(self.0, 0, 0xffff, v.into_bits() as u64))
    }

    /// The `ac14v` field.
    pub fn ac14v(&self) -> (r: AdbmsCellVoltage)
        ensures
            r == AdbmsCellVoltage(get_bits(self@, 16, 0xffff) as u16),
    {
        let v = field(self.0, 16, 0xffff);
        AdbmsCellVoltage::from_bits(v as u16)
    }

    /// This layout with the `ac14v` field replaced.
    pub fn with_ac14v(self, v: AdbmsCellVoltage) -> (r: AvgCellVoltageE)
        ensures
            r@ == set_bits(self@, 16, 0xffff, v.spec_into_bits() as u64),
    {
        AvgCellVoltageE(put(self.0, 16, 0xffff, v.into_bits() as u64))
    }

    /// The `ac15v` field.
    pub fn ac15v(&self) -> (r: AdbmsCellVoltage)
        ensures
            r == AdbmsCellVoltage(get_bits(self@, 32, 0xffff) as u16),
    {
        let v = field(self.0, 32, 0xffff);
        AdbmsCellVoltage::from_bits(v as u16)
    }

    /// This layout with the `ac15v` field replaced.
    pub fn with_ac15v(self, v: AdbmsCellVoltage) -> (r: AvgCellVoltageE)
        ensures
            r@ == set_bits(self@, 32, 0xffff, v.spec_into_bits() as u64),
    {
        AvgCellVoltageE(put(self.0, 32, 0xffff, v.into_bits() as u64))
    }
}

impl From<u64> for AvgCellVoltageE {
    fn from(bits: u64) -> (r: AvgCellVoltageE) {
        AvgCellVoltageE(bits)
    }
}

impl vstd::std_specs::convert::FromSpecImpl<u64> for AvgCellVoltageE {
    open spec fn obeys_from_spec() -> bool {
        true
    }

    open spec fn from_spec(bits: u64) -> AvgCellVoltageE {
        AvgCellVoltageE::from_bits_spec(bits)
    }
}

impl From<AvgCellVoltageE> for u64 {
    fn from(reg: AvgCellVoltageE) -> (r: u64) {
        reg.0
    }
}

impl vstd::std_specs::convert::FromSpecImpl<AvgCellVoltageE> for u64 {
    open spec fn obeys_from_spec() -> bool {
        true
    }

    open spec fn from_spec(reg: AvgCellVoltageE) -> u64 {
        reg@
    }
}

impl AvgCellVoltageE {
    /// The layout holding `bits`, as a value in specifications.
    pub closed spec fn from_bits_spec(bits: u64) -> AvgCellVoltageE {
        AvgCellVoltageE(bits)
    }

    /// A layout is its bits.
    pub proof fn lemma_from_bits_spec(bits: u64)
        ensures
            #[trigger] AvgCellVoltageE::from_bits_spec(bits)@ == bits,
    {
    }
}

impl AdbmsReadableRegister for AvgCellVoltageE {
    open spec fn spec_read_cmd() -> (u8, u8) {
        (0x00u8, 0x49u8)
    }

    fn read_cmd() -> (r: [u8; 2]) {
        [0x00, 0x49]
    }

    fn from_raw(bits: u64) -> (r: AvgCellVoltageE) {
        AvgCellVoltageE(bits)
    }
}


/// Averaged Cell Voltage Register Group F.
#[derive(Clone, Copy, Debug, PartialEq, Eq)]
pub struct AvgCellVoltageF(u64);

impl View for AvgCellVoltageF {
    type V = u64;

    /// The raw bits of the layout.
    closed spec fn view(&self) -> u64 {
        self.0
    }
}

impl AvgCellVoltageF {
    /// The layout with every field at its default.
    pub fn new() -> (r: AvgCellVoltageF)
        ensures
            r@ == 0x0u64,
    {
        AvgCellVoltageF(0x0)
    }

    /// Wraps raw bits.
    pub fn from_bits(bits: u64) -> (r: AvgCellVoltageF)
        ensures
            r@ == bits,
    {
        AvgCellVoltageF(bits)
    }

    /// The raw bits.
    pub fn into_bits(self) -> (r: u64)
        ensures
            r == self@,
    {
        self.0
    }

    /// The `ac16v` field.
    pub fn ac16v(&self) -> (r: AdbmsCellVoltage)
        ensures
            r == AdbmsCellVoltage(get_bits(self@, 0, 0xffff) as u16),
    {
        let v = field(self.0, 0, 0xffff);
        AdbmsCellVoltage::from_bits(v as u16)
    }

    /// This layout with the `ac16v` field replaced.
    pub fn with_ac16v(self, v: AdbmsCellVoltage) -> (r: AvgCellVoltageF)
        ensures
            r@ == set_bits(self@, 0, 0xffff, v.spec_into_bits() as u64),
    {
        AvgCellVoltageF(put(self.0, 0, 0xffff, v.into_bits() as u64))
    }
}

impl From<u64> for AvgCellVoltageF {
    fn from(bits: u64) -> (r: AvgCellVoltageF) {
        AvgCellVoltageF(bits)
    }
}

impl vstd::std_specs::convert::FromSpecImpl<u64> for AvgCellVoltageF {
    open spec fn obeys_from_spec() -> bool {
        true
    }

    open spec fn from_spec(bits: u64) -> AvgCellVoltageF {
        AvgCellVoltageF::from_bits_spec(bits)
    }
}

impl From<AvgCellVoltageF> for u64 {
    fn from(reg: AvgCellVoltageF) -> (r: u64) {
        reg.0
    }
}

impl vstd::std_specs::convert::FromSpecImpl<AvgCellVoltageF> for u64 {
    open spec fn obeys_from_spec() -> bool {
        true
    }

    open spec fn from_spec(reg: AvgCellVoltageF) -> u64 {
        reg@
    }
}

impl AvgCellVoltageF {
    /// The layout holding `bits`, as a value in specifications.
    pub closed spec fn from_bits_spec(bits: u64) -> AvgCellVoltageF {
        AvgCellVoltageF(bits)
    }

    /// A layout is its bits.
    pub proof fn lemma_from_bits_spec(bits: u64)
        ensures
            #[trigger] AvgCellVoltageF::from_bits_spec(bits)@ == bits,
    {
    }
}

impl AdbmsReadableRegister for AvgCellVoltageF {
    open spec fn spec_read_cmd() -> (u8, u8) {
        (0x00u8, 0x4Bu8)
    }

    fn read_cmd() -> (r: [u8; 2]) {
        [0x00, 0x4B]
    }

    fn from_raw(bits: u64) -> (r: AvgCellVoltageF) {
        AvgCellVoltageF(bits)
    }
}


/// Filtered Cell Voltage Register Group A.
#[derive(Clone, Copy, Debug, PartialEq, Eq)]
pub struct FilteredCellVoltageA(u64);

impl View for FilteredCellVoltageA {
    type V = u64;

    /// The raw bits of the layout.
    closed spec fn view(&self) -> u64 {
        self.0
    }
}

impl FilteredCellVoltageA {
    /// The layout with every field at its default.
    pub fn new() -> (r: FilteredCellVoltageA)
        ensures
            r@ == 0x0u64,
    {
        FilteredCellVoltageA(0x0)
    }

    /// Wraps raw bits.
    pub fn from_bits(bits: u64) -> (r: FilteredCellVoltageA)
        ensures
            r@ == bits,
    {
        FilteredCellVoltageA(bits)
    }

    /// The raw bits.
    pub fn into_bits(self) -> (r: u64)
        ensures
            r == self@,
    {
        self.0
    }

    /// The `fc1v` field.
    pub fn fc1v(&self) -> (r: AdbmsCellVoltage)
        ensures
            r == AdbmsCellVoltage(get_bits(self@, 0, 0xffff) as u16),
    {
        let v = field(self.0, 0, 0xffff);
        AdbmsCellVoltage::from_bits(v as u16)
    }

    /// This layout with the `fc1v` field replaced.
    pub fn with_fc1v(self, v: AdbmsCellVoltage) -> (r: FilteredCellVoltageA)
        ensures
            r@ == set_bits(self@, 0, 0xffff, v.spec_into_bits() as u64),
    {
        FilteredCellVoltageA(put(self.0, 0, 0xffff, v.into_bits() as u64))
    }

    /// The `fc2v` field.
    pub fn fc2v(&self) -> (r: AdbmsCellVoltage)
        ensures
            r == AdbmsCellVoltage(get_bits(self@, 16, 0xffff) as u16),
    {
        let v = field(self.0, 16, 0xffff);
        AdbmsCellVoltage::from_bits(v as u16)
    }

    /// This layout with the `fc2v` field replaced.
    pub fn with_fc2v(self, v: AdbmsCellVoltage) -> (r: FilteredCellVoltageA)
        ensures
            r@ == set_bits(self@, 16, 0xffff, v.spec_into_bits() as u64),
    {
        FilteredCellVoltageA(put(self.0, 16, 0xffff, v.into_bits() as u64))
    }

    /// The `fc3v` field.
    pub fn fc3v(&self) -> (r: AdbmsCellVoltage)
        ensures
            r == AdbmsCellVoltage(get_bits(self@, 32, 0xffff) as u16),
    {
        let v = field(self.0, 32, 0xffff);
        AdbmsCellVoltage::from_bits(v as u16)
    }

    /// This layout with the `fc3v` field replaced.
    pub fn with_fc3v(self, v: AdbmsCellVoltage) -> (r: FilteredCellVoltageA)
        ensures
            r@ == set_bits(self@, 32, 0xffff, v.spec_into_bits() as u64),
    {
        FilteredCellVoltageA(put(self.0, 32, 0xffff, v.into_bits() as u64))
    }
}

impl From<u64> for FilteredCellVoltageA {
    fn from(bits: u64) -> (r: FilteredCellVoltageA) {
        FilteredCellVoltageA(bits)
    }
}

impl vstd::std_specs::convert::FromSpecImpl<u64> for FilteredCellVoltageA {
    open spec fn obeys_from_spec() -> bool {
        true
    }

    open spec fn from_spec(bits: u64) -> FilteredCellVoltageA {
        FilteredCellVoltageA::from_bits_spec(bits)
    }
}

impl From<FilteredCellVoltageA> for u64 {
    fn from(reg: FilteredCellVoltageA) -> (r: u64) {
        reg.0
    }
}

impl vstd::std_specs::convert::FromSpecImpl<FilteredCellVoltageA> for u64 {
    open spec fn obeys_from_spec() -> bool {
        true
    }

    open spec fn from_spec(reg: FilteredCellVoltageA) -> u64 {
        reg@
    }
}

impl FilteredCellVoltageA {
    /// The layout holding `bits`, as a value in specifications.
    pub closed spec fn from_bits_spec(bits: u64) -> FilteredCellVoltageA {
        FilteredCellVoltageA(bits)
    }

    /// A layout is its bits.
    pub proof fn lemma_from_bits_spec(bits: u64)
        ensures
            #[trigger] FilteredCellVoltageA::from_bits_spec(bits)@ == bits,
    {
    }
}

impl AdbmsReadableRegister for FilteredCellVoltageA {
    open spec fn spec_read_cmd() -> (u8, u8) {
        (0x00u8, 0x12u8)
    }

    fn read_cmd() -> (r: [u8; 2]) {
        [0x00, 0x12]
    }

    fn from_raw(bits: u64) -> (r: FilteredCellVoltageA) {
        FilteredCellVoltageA(bits)
    }
}


/// Filtered Cell Voltage Register Group B.
#[derive(Clone, Copy, Debug, PartialEq, Eq)]
pub struct FilteredCellVoltageB(u64);

impl View for FilteredCellVoltageB {
    type V = u64;

    /// The raw bits of the layout.
    closed spec fn view(&self) -> u64 {
        self.0
    }
}

impl FilteredCellVoltageB {
    /// The layout with every field at its default.
    pub fn new() -> (r: FilteredCellVoltageB)
        ensures
            r@ == 0x0u64,
    {
        FilteredCellVoltageB(0x0)
    }

    /// Wraps raw bits.
    pub fn from_bits(bits: u64) -> (r: FilteredCellVoltageB)
        ensures
            r@ == bits,
    {
        FilteredCellVoltageB(bits)
    }

    /// The raw bits.
    pub fn into_bits(self) -> (r: u64)
        ensures
            r == self@,
    {
        self.0
    }

    /// The `fc4v` field.
    pub fn fc4v(&self) -> (r: AdbmsCellVoltage)
        ensures
            r == AdbmsCellVoltage(get_bits(self@, 0, 0xffff) as u16),
    {
        let v = field(self.0, 0, 0xffff);
        AdbmsCellVoltage::from_bits(v as u16)
    }

    /// This layout with the `fc4v` field replaced.
    pub fn with_fc4v(self, v: AdbmsCellVoltage) -> (r: FilteredCellVoltageB)
        ensures
            r@ == set_bits(self@, 0, 0xffff, v.spec_into_bits() as u64),
    {
        FilteredCellVoltageB(put(self.0, 0, 0xffff, v.into_bits() as u64))
    }

    /// The `fc5v` field.
    pub fn fc5v(&self) -> (r: AdbmsCellVoltage)
        ensures
            r == AdbmsCellVoltage(get_bits(self@, 16, 0xffff) as u16),
    {
        let v = field(self.0, 16, 0xffff);
        AdbmsCellVoltage::from_bits(v as u16)
    }

    /// This layout with the `fc5v` field replaced.
    pub fn with_fc5v(self, v: AdbmsCellVoltage) -> (r: FilteredCellVoltageB)
        ensures
            r@ == set_bits(self@, 16, 0xffff, v.spec_into_bits() as u64),
    {
        FilteredCellVoltageB(put(self.0, 16, 0xffff, v.into_bits() as u64))
    }

    /// The `fc6v` field.
    pub fn fc6v(&self) -> (r: AdbmsCellVoltage)
        ensures
            r == AdbmsCellVoltage(get_bits(self@, 32, 0xffff) as u16),
    {
        let v = field(self.0, 32, 0xffff);
        AdbmsCellVoltage::from_bits(v as u16)
    }

    /// This layout with the `fc6v` field replaced.
    pub fn with_fc6v(self, v: AdbmsCellVoltage) -> (r: FilteredCellVoltageB)
        ensures
            r@ == set_bits(self@, 32, 0xffff, v.spec_into_bits() as u64),
    {
        FilteredCellVoltageB(put(self.0, 32, 0xffff, v.into_bits() as u64))
    }
}

impl From<u64> for FilteredCellVoltageB {
    fn from(bits: u64) -> (r: FilteredCellVoltageB) {
        FilteredCellVoltageB(bits)
    }
}

impl vstd::std_specs::convert::FromSpecImpl<u64> for FilteredCellVoltageB {
    open spec fn obeys_from_spec() -> bool {
        true
    }

    open spec fn from_spec(bits: u64) -> FilteredCellVoltageB {
        FilteredCellVoltageB::from_bits_spec(bits)
    }
}

impl From<FilteredCellVoltageB> for u64 {
    fn from(reg: FilteredCellVoltageB) -> (r: u64) {
        reg.0
    }
}

impl vstd::std_specs::convert::FromSpecImpl<FilteredCellVoltageB> for u64 {
    open spec fn obeys_from_spec() -> bool {
        true
    }

    open spec fn from_spec(reg: FilteredCellVoltageB) -> u64 {
        reg@
    }
}

impl FilteredCellVoltageB {
    /// The layout holding `bits`, as a value in specifications.
    pub closed spec fn from_bits_spec(bits: u64) -> FilteredCellVoltageB {
        FilteredCellVoltageB(bits)
    }

    /// A layout is its bits.
    pub proof fn lemma_from_bits_spec(bits: u64)
        ensures
            #[trigger] FilteredCellVoltageB::from_bits_spec(bits)@ == bits,
    {
    }
}

impl AdbmsReadableRegister for FilteredCellVoltageB {
    open spec fn spec_read_cmd() -> (u8, u8) {
        (0x00u8, 0x13u8)
    }

    fn read_cmd() -> (r: [u8; 2]) {
        [0x00, 0x13]
    }

    fn from_raw(bits: u64) -> (r: FilteredCellVoltageB) {
        FilteredCellVoltageB(bits)
    }
}


/// Filtered Cell Voltage Register Group C.
#[derive(Clone, Copy, Debug, PartialEq, Eq)]
pub struct FilteredCellVoltageC(u64);

impl View for FilteredCellVoltageC {
    type V = u64;

    /// The raw bits of the layout.
    closed spec fn view(&self) -> u64 {
        self.0
    }
}

impl FilteredCellVoltageC {
    /// The layout with every field at its default.
    pub fn new() -> (r: FilteredCellVoltageC)
        ensures
            r@ == 0x0u64,
    {
        FilteredCellVoltageC(0x0)
    }

    /// Wraps raw bits.
    pub fn from_bits(bits: u64) -> (r: FilteredCellVoltageC)
        ensures
            r@ == bits,
    {
        FilteredCellVoltageC(bits)
    }

    /// The raw bits.
    pub fn into_bits(self) -> (r: u64)
        ensures
            r == self@,
    {
        self.0
    }

    /// The `fc7v` field.
    pub fn fc7v(&self) -> (r: AdbmsCellVoltage)
        ensures
            r == AdbmsCellVoltage(get_bits(self@, 0, 0xffff) as u16),
    {
        let v = field(self.0, 0, 0xffff);
        AdbmsCellVoltage::from_bits(v as u16)
    }

    /// This layout with the `fc7v` field replaced.
    pub fn with_fc7v(self, v: AdbmsCellVoltage) -> (r: FilteredCellVoltageC)
        ensures
            r@ == set_bits(self@, 0, 0xffff, v.spec_into_bits() as u64),
    {
        FilteredCellVoltageC(put(self.0, 0, 0xffff, v.into_bits() as u64))
    }

    /// The `fc8v` field.
    pub fn fc8v(&self) -> (r: AdbmsCellVoltage)
        ensures
            r == AdbmsCellVoltage(get_bits(self@, 16, 0xffff) as u16),
    {
        let v = field(self.0, 16, 0xffff);
        AdbmsCellVoltage::from_bits(v as u16)
    }

    /// This layout with the `fc8v` field replaced.
    pub fn with_fc8v(self, v: AdbmsCellVoltage) -> (r: FilteredCellVoltageC)
        ensures
            r@ == set_bits(self@, 16, 0xffff, v.spec_into_bits() as u64),
    {
        FilteredCellVoltageC(put(self.0, 16, 0xffff, v.into_bits() as u64))
    }

    /// The `fc9v` field.
    pub fn fc9v(&self) -> (r: AdbmsCellVoltage)
        ensures
            r == AdbmsCellVoltage(get_bits(self@, 32, 0xffff) as u16),
    {
        let v = field(self.0, 32, 0xffff);
        AdbmsCellVoltage::from_bits(v as u16)
    }

    /// This layout with the `fc9v` field replaced.
    pub fn with_fc9v(self, v: AdbmsCellVoltage) -> (r: FilteredCellVoltageC)
        ensures
            r@ == set_bits(self@, 32, 0xffff, v.spec_into_bits() as u64),
    {
        FilteredCellVoltageC(put(self.0, 32, 0xffff, v.into_bits() as u64))
    }
}

impl From<u64> for FilteredCellVoltageC {
    fn from(bits: u64) -> (r: FilteredCellVoltageC) {
        FilteredCellVoltageC(bits)
    }
}

impl vstd::std_specs::convert::FromSpecImpl<u64> for FilteredCellVoltageC {
    open spec fn obeys_from_spec() -> bool {
        true
    }

    open spec fn from_spec(bits: u64) -> FilteredCellVoltageC {
        FilteredCellVoltageC::from_bits_spec(bits)
    }
}

impl From<FilteredCellVoltageC> for u64 {
    fn from(reg: FilteredCellVoltageC) -> (r: u64) {
        reg.0
    }
}

impl vstd::std_specs::convert::FromSpecImpl<FilteredCellVoltageC> for u64 {
    open spec fn obeys_from_spec() -> bool {
        true
    }

    open spec fn from_spec(reg: FilteredCellVoltageC) -> u64 {
        reg@
    }
}

impl FilteredCellVoltageC {
    /// The layout holding `bits`, as a value in specifications.
    pub closed spec fn from_bits_spec(bits: u64) -> FilteredCellVoltageC {
        FilteredCellVoltageC(bits)
    }

    /// A layout is its bits.
    pub proof fn lemma_from_bits_spec(bits: u64)
        ensures
            #[trigger] FilteredCellVoltageC::from_bits_spec(bits)@ == bits,
    {
    }
}

impl AdbmsReadableRegister for FilteredCellVoltageC {
    open spec fn spec_read_cmd() -> (u8, u8) {
        (0x00u8, 0x14u8)
    }

    fn read_cmd() -> (r: [u8; 2]) {
        [0x00, 0x14]
    }

    fn from_raw(bits: u64) -> (r: FilteredCellVoltageC) {
        FilteredCellVoltageC(bits)
    }
}


/// Filtered Cell Voltage Register Group D.
#[derive(Clone, Copy, Debug, PartialEq, Eq)]
pub struct FilteredCellVoltageD(u64);

impl View for FilteredCellVoltageD {
    type V = u64;

    /// The raw bits of the layout.
    closed spec fn view(&self) -> u64 {
        self.0
    }
}

impl FilteredCellVoltageD {
    /// The layout with every field at its default.
    pub fn new() -> (r: FilteredCellVoltageD)
        ensures
            r@ == 0x0u64,
    {
        FilteredCellVoltageD(0x0)
    }

    /// Wraps raw bits.
    pub fn from_bits(bits: u64) -> (r: FilteredCellVoltageD)
        ensures
            r@ == bits,
    {
        FilteredCellVoltageD(bits)
    }

    /// The raw bits.
    pub fn into_bits(self) -> (r: u64)
        ensures
            r == self@,
    {
        self.0
    }

    /// The `fc10v` field.
    pub fn fc10v(&self) -> (r: AdbmsCellVoltage)
        ensures
            r == AdbmsCellVoltage(get_bits(self@, 0, 0xffff) as u16),
    {
        let v = field(self.0, 0, 0xffff);
        AdbmsCellVoltage::from_bits(v as u16)
    }

    /// This layout with the `fc10v` field replaced.
    pub fn with_fc10v(self, v: AdbmsCellVoltage) -> (r: FilteredCellVoltageD)
        ensures
            r@ == set_bits(self@, 0, 0xffff, v.spec_into_bits() as u64),
    {
        FilteredCellVoltageD(put(self.0, 0, 0xffff, v.into_bits() as u64))
    }

    /// The `fc11v` field.
    pub fn fc11v(&self) -> (r: AdbmsCellVoltage)
        ensures
            r == AdbmsCellVoltage(get_bits(self@, 16, 0xffff) as u16),
    {
        let v = field(self.0, 16, 0xffff);
        AdbmsCellVoltage::from_bits(v as u16)
    }

    /// This layout with the `fc11v` field replaced.
    pub fn with_fc11v(self, v: AdbmsCellVoltage) -> (r: FilteredCellVoltageD)
        ensures
            r@ == set_bits(self@, 16, 0xffff, v.spec_into_bits() as u64),
    {
        FilteredCellVoltageD(put(self.0, 16, 0xffff, v.into_bits() as u64))
    }

    /// The `fc12v` field.
    pub fn fc12v(&self) -> (r: AdbmsCellVoltage)
        ensures
            r == AdbmsCellVoltage(get_bits(self@, 32, 0xffff) as u16),
    {
        let v = field(self.0, 32, 0xffff);
        AdbmsCellVoltage::from_bits(v as u16)
    }

    /// This layout with the `fc12v` field replaced.
    pub fn with_fc12v(self, v: AdbmsCellVoltage) -> (r: FilteredCellVoltageD)
        ensures
            r@ == set_bits(self@, 32, 0xffff, v.spec_into_bits() as u64),
    {
        FilteredCellVoltageD(put(self.0, 32, 0xffff, v.into_bits() as u64))
    }
}

impl From<u64> for FilteredCellVoltageD {
    fn from(bits: u64) -> (r: FilteredCellVoltageD) {
        FilteredCellVoltageD(bits)
    }
}

impl vstd::std_specs::convert::FromSpecImpl<u64> for FilteredCellVoltageD {
    open spec fn obeys_from_spec() -> bool {
        true
    }

    open spec fn from_spec(bits: u64) -> FilteredCellVoltageD {
        FilteredCellVoltageD::from_bits_spec(bits)
    }
}

impl From<FilteredCellVoltageD> for u64 {
    fn from(reg: FilteredCellVoltageD) -> (r: u64) {
        reg.0
    }
}

impl vstd::std_specs::convert::FromSpecImpl<FilteredCellVoltageD> for u64 {
    open spec fn obeys_from_spec() -> bool {
        true
    }

    open spec fn from_spec(reg: FilteredCellVoltageD) -> u64 {
        reg@
    }
}

impl FilteredCellVoltageD {
    /// The layout holding `bits`, as a value in specifications.
    pub closed spec fn from_bits_spec(bits: u64) -> FilteredCellVoltageD {
        FilteredCellVoltageD(bits)
    }

    /// A layout is its bits.
    pub proof fn lemma_from_bits_spec(bits: u64)
        ensures
            #[trigger] FilteredCellVoltageD::from_bits_spec(bits)@ == bits,
    {
    }
}

impl AdbmsReadableRegister for FilteredCellVoltageD {
    open spec fn spec_read_cmd() -> (u8, u8) {
        (0x00u8, 0x15u8)
    }

    fn read_cmd() -> (r: [u8; 2]) {
        [0x00, 0x15]
    }

    fn from_raw(bits: u64) -> (r: FilteredCellVoltageD) {
        FilteredCellVoltageD(bits)
    }
}


/// Filtered Cell Voltage Register Group E.
#[derive(Clone, Copy, Debug, PartialEq, Eq)]
pub struct FilteredCellVoltageE(u64);

impl View for FilteredCellVoltageE {
    type V = u64;

    /// The raw bits of the layout.
    closed spec fn view(&self) -> u64 {
        self.0
    }
}

impl FilteredCellVoltageE {
    /// The layout with every field at its default.
    pub fn new() -> (r: FilteredCellVoltageE)
        ensures
            r@ == 0x0u64,
    {
        FilteredCellVoltageE(0x0)
    }

    /// Wraps raw bits.
    pub fn from_bits(bits: u64) -> (r: FilteredCellVoltageE)
        ensures
            r@ == bits,
    {
        FilteredCellVoltageE(bits)
    }

    /// The raw bits.
    pub fn into_bits(self) -> (r: u64)
        ensures
            r == self@,
    {
        self.0
    }

    /// The `fc13v` field.
    pub fn fc13v(&self) -> (r: AdbmsCellVoltage)
        ensures
            r == AdbmsCellVoltage(get_bits(self@, 0, 0xffff) as u16),
    {
        let v = field(self.0, 0, 0xffff);
        AdbmsCellVoltage::from_bits(v as u16)
    }

    /// This layout with the `fc13v` field replaced.
    pub fn with_fc13v(self, v: AdbmsCellVoltage) -> (r: FilteredCellVoltageE)
        ensures
            r@ == set_bits(self@, 0, 0xffff, v.spec_into_bits() as u64),
    {
        FilteredCellVoltageE(put(self.0, 0, 0xffff, v.into_bits() as u64))
    }

    /// The `fc14v` field.
    pub fn fc14v(&self) -> (r: AdbmsCellVoltage)
        ensures
            r == AdbmsCellVoltage(get_bits(self@, 16, 0xffff) as u16),
    {
        let v = field(self.0, 16, 0xffff);
        AdbmsCellVoltage::from_bits(v as u16)
    }

    /// This layout with the `fc14v` field replaced.
    pub fn with_fc14v(self, v: AdbmsCellVoltage) -> (r: FilteredCellVoltageE)
        ensures
            r@ == set_bits(self@, 16, 0xffff, v.spec_into_bits() as u64),
    {
        FilteredCellVoltageE(put(self.0, 16, 0xffff, v.into_bits() as u64))
    }

    /// The `fc15v` field.
    pub fn fc15v(&self) -> (r: AdbmsCellVoltage)
        ensures
            r == AdbmsCellVoltage(get_bits(self@, 32, 0xffff) as u16),
    {
        let v = field(self.0, 32, 0xffff);
        AdbmsCellVoltage::from_bits(v as u16)
    }

    /// This layout with the `fc15v` field replaced.
    pub fn with_fc15v(self, v: AdbmsCellVoltage) -> (r: FilteredCellVoltageE)
        ensures
            r@ == set_bits(self@, 32, 0xffff, v.spec_into_bits() as u64),
    {
        FilteredCellVoltageE(put(self.0, 32, 0xffff, v.into_bits() as u64))
    }
}

impl From<u64> for FilteredCellVoltageE {
    fn from(bits: u64) -> (r: FilteredCellVoltageE) {
        FilteredCellVoltageE(bits)
    }
}

impl vstd::std_specs::convert::FromSpecImpl<u64> for FilteredCellVoltageE {
    open spec fn obeys_from_spec() -> bool {
        true
    }

    open spec fn from_spec(bits: u64) -> FilteredCellVoltageE {
        FilteredCellVoltageE::from_bits_spec(bits)
    }
}

impl From<FilteredCellVoltageE> for u64 {
    fn from(reg: FilteredCellVoltageE) -> (r: u64) {
        reg.0
    }
}

impl vstd::std_specs::convert::FromSpecImpl<FilteredCellVoltageE> for u64 {
    open spec fn obeys_from_spec() -> bool {
        true
    }

    open spec fn from_spec(reg: FilteredCellVoltageE) -> u64 {
        reg@
    }
}

impl FilteredCellVoltageE {
    /// The layout holding `bits`, as a value in specifications.
    pub closed spec fn from_bits_spec(bits: u64) -> FilteredCellVoltageE {
        FilteredCellVoltageE(bits)
    }

    /// A layout is its bits.
    pub proof fn lemma_from_bits_spec(bits: u64)
        ensures
            #[trigger] FilteredCellVoltageE::from_bits_spec(bits)@ == bits,
    {
    }
}

impl AdbmsReadableRegister for FilteredCellVoltageE {
    open spec fn spec_read_cmd() -> (u8, u8) {
        (0x00u8, 0x16u8)
    }

    fn read_cmd() -> (r: [u8; 2]) {
        [0x00, 0x16]
    }

    fn from_raw(bits: u64) -> (r: FilteredCellVoltageE) {
        FilteredCellVoltageE(bits)
    }
}


/// Filtered Cell Voltage Register Group F.
#[derive(Clone, Copy, Debug, PartialEq, Eq)]
pub struct FilteredCellVoltageF(u64);

impl View for FilteredCellVoltageF {
    type V = u64;

    /// The raw bits of the layout.
    closed spec fn view(&self) -> u64 {
        self.0
    }
}

impl FilteredCellVoltageF {
    /// The layout with every field at its default.
    pub fn new() -> (r: FilteredCellVoltageF)
        ensures
            r@ == 0x0u64,
    {
        FilteredCellVoltageF(0x0)
    }

    /// Wraps raw bits.
    pub fn from_bits(bits: u64) -> (r: FilteredCellVoltageF)
        ensures
            r@ == bits,
    {
        FilteredCellVoltageF(bits)
    }

    /// The raw bits.
    pub fn into_bits(self) -> (r: u64)
        ensures
            r == self@,
    {
        self.0
    }

    /// The `fc16v` field.
    pub fn fc16v(&self) -> (r: AdbmsCellVoltage)
        ensures
            r == AdbmsCellVoltage(get_bits(self@, 0, 0xffff) as u16),
    {
        let v = field(self.0, 0, 0xffff);
        AdbmsCellVoltage::from_bits(v as u16)
    }

    /// This layout with the `fc16v` field replaced.
    pub fn with_fc16v(self, v: AdbmsCellVoltage) -> (r: FilteredCellVoltageF)
        ensures
            r@ == set_bits(self@, 0, 0xffff, v.spec_into_bits() as u64),
    {
        FilteredCellVoltageF(put(self.0, 0, 0xffff, v.into_bits() as u64))
    }
}

impl From<u64> for FilteredCellVoltageF {
    fn from(bits: u64) -> (r: FilteredCellVoltageF) {
        FilteredCellVoltageF(bits)
    }
}

impl vstd::std_specs::convert::FromSpecImpl<u64> for FilteredCellVoltageF {
    open spec fn obeys_from_spec() -> bool {
        true
    }

    open spec fn from_spec(bits: u64) -> FilteredCellVoltageF {
        FilteredCellVoltageF::from_bits_spec(bits)
    }
}

impl From<FilteredCellVoltageF> for u64 {
    fn from(reg: FilteredCellVoltageF) -> (r: u64) {
        reg.0
    }
}

impl vstd::std_specs::convert::FromSpecImpl<FilteredCellVoltageF> for u64 {
    open spec fn obeys_from_spec() -> bool {
        true
    }

    open spec fn from_spec(reg: FilteredCellVoltageF) -> u64 {
        reg@
    }
}

impl FilteredCellVoltageF {
    /// The layout holding `bits`, as a value in specifications.
    pub closed spec fn from_bits_spec(bits: u64) -> FilteredCellVoltageF {
        FilteredCellVoltageF(bits)
    }

    /// A layout is its bits.
    pub proof fn lemma_from_bits_spec(bits: u64)
        ensures
            #[trigger] FilteredCellVoltageF::from_bits_spec(bits)@ == bits,
    {
    }
}

impl AdbmsReadableRegister for FilteredCellVoltageF {
    open spec fn spec_read_cmd() -> (u8, u8) {
        (0x00u8, 0x17u8)
    }

    fn read_cmd() -> (r: [u8; 2]) {
        [0x00, 0x17]
    }

    fn from_raw(bits: u64) -> (r: FilteredCellVoltageF) {
        FilteredCellVoltageF(bits)
    }
}


/// S-Voltage Register Group A.
#[derive(Clone, Copy, Debug, PartialEq, Eq)]
pub struct SVoltageA(u64);

impl View for SVoltageA {
    type V = u64;

    /// The raw bits of the layout.
    closed spec fn view(&self) -> u64 {
        self.0
    }
}

impl SVoltageA {
    /// The layout with every field at its default.
    pub fn new() -> (r: SVoltageA)
        ensures
            r@ == 0x0u64,
    {
        SVoltageA(0x0)
    }

    /// Wraps raw bits.
    pub fn from_bits(bits: u64) -> (r: SVoltageA)
        ensures
            r@ == bits,
    {
        SVoltageA(bits)
    }

    /// The raw bits.
    pub fn into_bits(self) -> (r: u64)
        ensures
            r == self@,
    {
        self.0
    }

    /// The `s1v` field.
    pub fn s1v(&self) -> (r: AdbmsCellVoltage)
        ensures
            r == AdbmsCellVoltage(get_bits(self@, 0, 0xffff) as u16),
    {
        let v = field(self.0, 0, 0xffff);
        AdbmsCellVoltage::from_bits(v as u16)
    }

    /// This layout with the `s1v` field replaced.
    pub fn with_s1v(self, v: AdbmsCellVoltage) -> (r: SVoltageA)
        ensures
            r@ == set_bits(self@, 0, 0xffff, v.spec_into_bits() as u64),
    {
        SVoltageA(put(self.0, 0, 0xffff, v.into_bits() as u64))
    }

    /// The `s2v` field.
    pub fn s2v(&self) -> (r: AdbmsCellVoltage)
        ensures
            r == AdbmsCellVoltage(get_bits(self@, 16, 0xffff) as u16),
    {
        let v = field(self.0, 16, 0xffff);
        AdbmsCellVoltage::from_bits(v as u16)
    }

    /// This layout with the `s2v` field replaced.
    pub fn with_s2v(self, v: AdbmsCellVoltage) -> (r: SVoltageA)
        ensures
            r@ == set_bits(self@, 16, 0xffff, v.spec_into_bits() as u64),
    {
        SVoltageA(put(self.0, 16, 0xffff, v.into_bits() as u64))
    }

    /// The `s3v` field.
    pub fn s3v(&self) -> (r: AdbmsCellVoltage)
        ensures
            r == AdbmsCellVoltage(get_bits(self@, 32, 0xffff) as u16),
    {
        let v = field(self.0, 32, 0xffff);
        AdbmsCellVoltage::from_bits(v as u16)
    }

    /// This layout with the `s3v` field replaced.
    pub fn with_s3v(self, v: AdbmsCellVoltage) -> (r: SVoltageA)
        ensures
            r@ == set_bits(self@, 32, 0xffff, v.spec_into_bits() as u64),
    {
        SVoltageA(put(self.0, 32, 0xffff, v.into_bits() as u64))
    }
}

impl From<u64> for SVoltageA {
    fn from(bits: u64) -> (r: SVoltageA) {
        SVoltageA(bits)
    }
}

impl vstd::std_specs::convert::FromSpecImpl<u64> for SVoltageA {
    open spec fn obeys_from_spec() -> bool {
        true
    }

    open spec fn from_spec(bits: u64) -> SVoltageA {
        SVoltageA::from_bits_spec(bits)
    }
}

impl From<SVoltageA> for u64 {
    fn from(reg: SVoltageA) -> (r: u64) {
        reg.0
    }
}

impl vstd::std_specs::convert::FromSpecImpl<SVoltageA> for u64 {
    open spec fn obeys_from_spec() -> bool {
        true
    }

    open spec fn from_spec(reg: SVoltageA) -> u64 {
        reg@
    }
}

impl SVoltageA {
    /// The layout holding `bits`, as a value in specifications.
    pub closed spec fn from_bits_spec(bits: u64) -> SVoltageA {
        SVoltageA(bits)
    }

    /// A layout is its bits.
    pub proof fn lemma_from_bits_spec(bits: u64)
        ensures
            #[trigger] SVoltageA::from_bits_spec(bits)@ == bits,
    {
    }
}

impl AdbmsReadableRegister for SVoltageA {
    open spec fn spec_read_cmd() -> (u8, u8) {
        (0x00u8, 0x03u8)
    }

    fn read_cmd() -> (r: [u8; 2]) {
        [0x00, 0x03]
    }

    fn from_raw(bits: u64) -> (r: SVoltageA) {
        SVoltageA(bits)
    }
}


/// S-Voltage Register Group B.
#[derive(Clone, Copy, Debug, PartialEq, Eq)]
pub struct SVoltageB(u64);

impl View for SVoltageB {
    type V = u64;

    /// The raw bits of the layout.
    closed spec fn view(&self) -> u64 {
        self.0
    }
}

impl SVoltageB {
    /// The layout with every field at its default.
    pub fn new() -> (r: SVoltageB)
        ensures
            r@ == 0x0u64,
    {
        SVoltageB(0x0)
    }

    /// Wraps raw bits.
    pub fn from_bits(bits: u64) -> (r: SVoltageB)
        ensures
            r@ == bits,
    {
        SVoltageB(bits)
    }

    /// The raw bits.
    pub fn into_bits(self) -> (r: u64)
        ensures
            r == self@,
    {
        self.0
    }

    /// The `s4v` field.
    pub fn s4v(&self) -> (r: AdbmsCellVoltage)
        ensures
            r == AdbmsCellVoltage(get_bits(self@, 0, 0xffff) as u16),
    {
        let v = field(self.0, 0, 0xffff);
        AdbmsCellVoltage::from_bits(v as u16)
    }

    /// This layout with the `s4v` field replaced.
    pub fn with_s4v(self, v: AdbmsCellVoltage) -> (r: SVoltageB)
        ensures
            r@ == set_bits(self@, 0, 0xffff, v.spec_into_bits() as u64),
    {
        SVoltageB(put(self.0, 0, 0xffff, v.into_bits() as u64))
    }

    /// The `s5v` field.
    pub fn s5v(&self) -> (r: AdbmsCellVoltage)
        ensures
            r == AdbmsCellVoltage(get_bits(self@, 16, 0xffff) as u16),
    {
        let v = field(self.0, 16, 0xffff);
        AdbmsCellVoltage::from_bits(v as u16)
    }

    /// This layout with the `s5v` field replaced.
    pub fn with_s5v(self, v: AdbmsCellVoltage) -> (r: SVoltageB)
        ensures
            r@ == set_bits(self@, 16, 0xffff, v.spec_into_bits() as u64),
    {
        SVoltageB(put(self.0, 16, 0xffff, v.into_bits() as u64))
    }

    /// The `s6v` field.
    pub fn s6v(&self) -> (r: AdbmsCellVoltage)
        ensures
            r == AdbmsCellVoltage(get_bits(self@, 32, 0xffff) as u16),
    {
        let v = field(self.0, 32, 0xffff);
        AdbmsCellVoltage::from_bits(v as u16)
    }

    /// This layout with the `s6v` field replaced.
    pub fn with_s6v(self, v: AdbmsCellVoltage) -> (r: SVoltageB)
        ensures
            r@ == set_bits(self@, 32, 0xffff, v.spec_into_bits() as u64),
    {
        SVoltageB(put(self.0, 32, 0xffff, v.into_bits() as u64))
    }
}

impl From<u64> for SVoltageB {
    fn from(bits: u64) -> (r: SVoltageB) {
        SVoltageB(bits)
    }
}

impl vstd::std_specs::convert::FromSpecImpl<u64> for SVoltageB {
    open spec fn obeys_from_spec() -> bool {
        true
    }

    open spec fn from_spec(bits: u64) -> SVoltageB {
        SVoltageB::from_bits_spec(bits)
    }
}

impl From<SVoltageB> for u64 {
    fn from(reg: SVoltageB) -> (r: u64) {
        reg.0
    }
}

impl vstd::std_specs::convert::FromSpecImpl<SVoltageB> for u64 {
    open spec fn obeys_from_spec() -> bool {
        true
    }

    open spec fn from_spec(reg: SVoltageB) -> u64 {
        reg@
    }
}

impl SVoltageB {
    /// The layout holding `bits`, as a value in specifications.
    pub closed spec fn from_bits_spec(bits: u64) -> SVoltageB {
        SVoltageB(bits)
    }

    /// A layout is its bits.
    pub proof fn lemma_from_bits_spec(bits: u64)
        ensures
            #[trigger] SVoltageB::from_bits_spec(bits)@ == bits,
    {
    }
}

impl AdbmsReadableRegister for SVoltageB {
    open spec fn spec_read_cmd() -> (u8, u8) {
        (0x00u8, 0x05u8)
    }

    fn read_cmd() -> (r: [u8; 2]) {
        [0x00, 0x05]
    }

    fn from_raw(bits: u64) -> (r: SVoltageB) {
        SVoltageB(bits)
    }
}


/// S-Voltage Register Group C.
#[derive(Clone, Copy, Debug, PartialEq, Eq)]
pub struct SVoltageC(u64);

impl View for SVoltageC {
    type V = u64;

    /// The raw bits of the layout.
    closed spec fn view(&self) -> u64 {
        self.0
    }
}

impl SVoltageC {
    /// The layout with every field at its default.
    pub fn new() -> (r: SVoltageC)
        ensures
            r@ == 0x0u64,
    {
        SVoltageC(0x0)
    }

    /// Wraps raw bits.
    pub fn from_bits(bits: u64) -> (r: SVoltageC)
        ensures
            r@ == bits,
    {
        SVoltageC(bits)
    }

    /// The raw bits.
    pub fn into_bits(self) -> (r: u64)
        ensures
            r == self@,
    {
        self.0
    }

    /// The `s7v` field.
    pub fn s7v(&self) -> (r: AdbmsCellVoltage)
        ensures
            r == AdbmsCellVoltage(get_bits(self@, 0, 0xffff) as u16),
    {
        let v = field(self.0, 0, 0xffff);
        AdbmsCellVoltage::from_bits(v as u16)
    }

    /// This layout with the `s7v` field replaced.
    pub fn with_s7v(self, v: AdbmsCellVoltage) -> (r: SVoltageC)
        ensures
            r@ == set_bits(self@, 0, 0xffff, v.spec_into_bits() as u64),
    {
        SVoltageC(put(self.0, 0, 0xffff, v.into_bits() as u64))
    }

    /// The `s8v` field.
    pub fn s8v(&self) -> (r: AdbmsCellVoltage)
        ensures
            r == AdbmsCellVoltage(get_bits(self@, 16, 0xffff) as u16),
    {
        let v = field(self.0, 16, 0xffff);
        AdbmsCellVoltage::from_bits(v as u16)
    }

    /// This layout with the `s8v` field replaced.
    pub fn with_s8v(self, v: AdbmsCellVoltage) -> (r: SVoltageC)
        ensures
            r@ == set_bits(self@, 16, 0xffff, v.spec_into_bits() as u64),
    {
        SVoltageC(put(self.0, 16, 0xffff, v.into_bits() as u64))
    }

    /// The `s9v` field.
    pub fn s9v(&self) -> (r: AdbmsCellVoltage)
        ensures
            r == AdbmsCellVoltage(get_bits(self@, 32, 0xffff) as u16),
    {
        let v = field(self.0, 32, 0xffff);
        AdbmsCellVoltage::from_bits(v as u16)
    }

    /// This layout with the `s9v` field replaced.
    pub fn with_s9v(self, v: AdbmsCellVoltage) -> (r: SVoltageC)
        ensures
            r@ == set_bits(self@, 32, 0xffff, v.spec_into_bits() as u64),
    {
        SVoltageC(put(self.0, 32, 0xffff, v.into_bits() as u64))
    }
}

impl From<u64> for SVoltageC {
    fn from(bits: u64) -> (r: SVoltageC) {
        SVoltageC(bits)
    }
}

impl vstd::std_specs::convert::FromSpecImpl<u64> for SVoltageC {
    open spec fn obeys_from_spec() -> bool {
        true
    }

    open spec fn from_spec(bits: u64) -> SVoltageC {
        SVoltageC::from_bits_spec(bits)
    }
}

impl From<SVoltageC> for u64 {
    fn from(reg: SVoltageC) -> (r: u64) {
        reg.0
    }
}

impl vstd::std_specs::convert::FromSpecImpl<SVoltageC> for u64 {
    open spec fn obeys_from_spec() -> bool {
        true
    }

    open spec fn from_spec(reg: SVoltageC) -> u64 {
        reg@
    }
}

impl SVoltageC {
    /// The layout holding `bits`, as a value in specifications.
    pub closed spec fn from_bits_spec(bits: u64) -> SVoltageC {
        SVoltageC(bits)
    }

    /// A layout is its bits.
    pub proof fn lemma_from_bits_spec(bits: u64)
        ensures
            #[trigger] SVoltageC::from_bits_spec(bits)@ == bits,
    {
    }
}

impl AdbmsReadableRegister for SVoltageC {
    open spec fn spec_read_cmd() -> (u8, u8) {
        (0x00u8, 0x07u8)
    }

    fn read_cmd() -> (r: [u8; 2]) {
        [0x00, 0x07]
    }

    fn from_raw(bits: u64) -> (r: SVoltageC) {
        SVoltageC(bits)
    }
}


/// S-Voltage Register Group D.
#[derive(Clone, Copy, Debug, PartialEq, Eq)]
pub struct SVoltageD(u64);

impl View for SVoltageD {
    type V = u64;

    /// The raw bits of the layout.
    closed spec fn view(&self) -> u64 {
        self.0
    }
}

impl SVoltageD {
    /// The layout with every field at its default.
    pub fn new() -> (r: SVoltageD)
        ensures
            r@ == 0x0u64,
    {
        SVoltageD(0x0)
    }

    /// Wraps raw bits.
    pub fn from_bits(bits: u64) -> (r: SVoltageD)
        ensures
            r@ == bits,
    {
        SVoltageD(bits)
    }

    /// The raw bits.
    pub fn into_bits(self) -> (r: u64)
        ensures
            r == self@,
    {
        self.0
    }

    /// The `s10v` field.
    pub fn s10v(&self) -> (r: AdbmsCellVoltage)
        ensures
            r == AdbmsCellVoltage(get_bits(self@, 0, 0xffff) as u16),
    {
        let v = field(self.0, 0, 0xffff);
        AdbmsCellVoltage::from_bits(v as u16)
    }

    /// This layout with the `s10v` field replaced.
    pub fn with_s10v(self, v: AdbmsCellVoltage) -> (r: SVoltageD)
        ensures
            r@ == set_bits(self@, 0, 0xffff, v.spec_into_bits() as u64),
    {
        SVoltageD(put(self.0, 0, 0xffff, v.into_bits() as u64))
    }

    /// The `s11v` field.
    pub fn s11v(&self) -> (r: AdbmsCellVoltage)
        ensures
            r == AdbmsCellVoltage(get_bits(self@, 16, 0xffff) as u16),
    {
        let v = field(self.0, 16, 0xffff);
        AdbmsCellVoltage::from_bits(v as u16)
    }

    /// This layout with the `s11v` field replaced.
    pub fn with_s11v(self, v: AdbmsCellVoltage) -> (r: SVoltageD)
        ensures
            r@ == set_bits(self@, 16, 0xffff, v.spec_into_bits() as u64),
    {
        SVoltageD(put(self.0, 16, 0xffff, v.into_bits() as u64))
    }

    /// The `s12v` field.
    pub fn s12v(&self) -> (r: AdbmsCellVoltage)
        ensures
            r == AdbmsCellVoltage(get_bits(self@, 32, 0xffff) as u16),
    {
        let v = field(self.0, 32, 0xffff);
        AdbmsCellVoltage::from_bits(v as u16)
    }

    /// This layout with the `s12v` field replaced.
    pub fn with_s12v(self, v: AdbmsCellVoltage) -> (r: SVoltageD)
        ensures
            r@ == set_bits(self@, 32, 0xffff, v.spec_into_bits() as u64),
    {
        SVoltageD(put(self.0, 32, 0xffff, v.into_bits() as u64))
    }
}

impl From<u64> for SVoltageD {
    fn from(bits: u64) -> (r: SVoltageD) {
        SVoltageD(bits)
    }
}

impl vstd::std_specs::convert::FromSpecImpl<u64> for SVoltageD {
    open spec fn obeys_from_spec() -> bool {
        true
    }

    open spec fn from_spec(bits: u64) -> SVoltageD {
        SVoltageD::from_bits_spec(bits)
    }
}

impl From<SVoltageD> for u64 {
    fn from(reg: SVoltageD) -> (r: u64) {
        reg.0
    }
}

impl vstd::std_specs::convert::FromSpecImpl<SVoltageD> for u64 {
    open spec fn obeys_from_spec() -> bool {
        true
    }

    open spec fn from_spec(reg: SVoltageD) -> u64 {
        reg@
    }
}

impl SVoltageD {
    /// The layout holding `bits`, as a value in specifications.
    pub closed spec fn from_bits_spec(bits: u64) -> SVoltageD {
        SVoltageD(bits)
    }

    /// A layout is its bits.
    pub proof fn lemma_from_bits_spec(bits: u64)
        ensures
            #[trigger] SVoltageD::from_bits_spec(bits)@ == bits,
    {
    }
}

impl AdbmsReadableRegister for SVoltageD {
    open spec fn spec_read_cmd() -> (u8, u8) {
        (0x00u8, 0x0Du8)
    }

    fn read_cmd() -> (r: [u8; 2]) {
        [0x00, 0x0D]
    }

    fn from_raw(bits: u64) -> (r: SVoltageD) {
        SVoltageD(bits)
    }
}


/// S-Voltage Register Group E.
#[derive(Clone, Copy, Debug, PartialEq, Eq)]
pub struct SVoltageE(u64);

impl View for SVoltageE {
    type V = u64;

    /// The raw bits of the layout.
    closed spec fn view(&self) -> u64 {
        self.0
    }
}

impl SVoltageE {
    /// The layout with every field at its default.
    pub fn new() -> (r: SVoltageE)
        ensures
            r@ == 0x0u64,
    {
        SVoltageE(0x0)
    }

    /// Wraps raw bits.
    pub fn from_bits(bits: u64) -> (r: SVoltageE)
        ensures
            r@ == bits,
    {
        SVoltageE(bits)
    }

    /// The raw bits.
    pub fn into_bits(self) -> (r: u64)
        ensures
            r == self@,
    {
        self.0
    }

    /// The `s13v` field.
    pub fn s13v(&self) -> (r: AdbmsCellVoltage)
        ensures
            r == AdbmsCellVoltage(get_bits(self@, 0, 0xffff) as u16),
    {
        let v = field(self.0, 0, 0xffff);
        AdbmsCellVoltage::from_bits(v as u16)
    }

    /// This layout with the `s13v` field replaced.
    pub fn with_s13v(self, v: AdbmsCellVoltage) -> (r: SVoltageE)
        ensures
            r@ == set_bits(self@, 0, 0xffff, v.spec_into_bits() as u64),
    {
        SVoltageE(put(self.0, 0, 0xffff, v.into_bits() as u64))
    }

    /// The `s14v` field.
    pub fn s14v(&self) -> (r: AdbmsCellVoltage)
        ensures
            r == AdbmsCellVoltage(get_bits(self@, 16, 0xffff) as u16),
    {
        let v = field(self.0, 16, 0xffff);
        AdbmsCellVoltage::from_bits(v as u16)
    }

    /// This layout with the `s14v` field replaced.
    pub fn with_s14v(self, v: AdbmsCellVoltage) -> (r: SVoltageE)
        ensures
            r@ == set_bits(self@, 16, 0xffff, v.spec_into_bits() as u64),
    {
        SVoltageE(put(self.0, 16, 0xffff, v.into_bits() as u64))
    }

    /// The `s15v` field.
    pub fn s15v(&self) -> (r: AdbmsCellVoltage)
        ensures
            r == AdbmsCellVoltage(get_bits(self@, 32, 0xffff) as u16),
    {
        let v = field(self.0, 32, 0xffff);
        AdbmsCellVoltage::from_bits(v as u16)
    }

    /// This layout with the `s15v` field replaced.
    pub fn with_s15v(self, v: AdbmsCellVoltage) -> (r: SVoltageE)
        ensures
            r@ == set_bits(self@, 32, 0xffff, v.spec_into_bits() as u64),
    {
        SVoltageE(put(self.0, 32, 0xffff, v.into_bits() as u64))
    }
}

impl From<u64> for SVoltageE {
    fn from(bits: u64) -> (r: SVoltageE) {
        SVoltageE(bits)
    }
}

impl vstd::std_specs::convert::FromSpecImpl<u64> for SVoltageE {
    open spec fn obeys_from_spec() -> bool {
        true
    }

    open spec fn from_spec(bits: u64) -> SVoltageE {
        SVoltageE::from_bits_spec(bits)
    }
}

impl From<SVoltageE> for u64 {
    fn from(reg: SVoltageE) -> (r: u64) {
        reg.0
    }
}

impl vstd::std_specs::convert::FromSpecImpl<SVoltageE> for u64 {
    open spec fn obeys_from_spec() -> bool {
        true
    }

    open spec fn from_spec(reg: SVoltageE) -> u64 {
        reg@
    }
}

impl SVoltageE {
    /// The layout holding `bits`, as a value in specifications.
    pub closed spec fn from_bits_spec(bits: u64) -> SVoltageE {
        SVoltageE(bits)
    }

    /// A layout is its bits.
    pub proof fn lemma_from_bits_spec(bits: u64)
        ensures
            #[trigger] SVoltageE::from_bits_spec(bits)@ == bits,
    {
    }
}

impl AdbmsReadableRegister for SVoltageE {
    open spec fn spec_read_cmd() -> (u8, u8) {
        (0x00u8, 0x0Eu8)
    }

    fn read_cmd() -> (r: [u8; 2]) {
        [0x00, 0x0E]
    }

    fn from_raw(bits: u64) -> (r: SVoltageE) {
        SVoltageE(bits)
    }
}


/// S-Voltage Register Group F.
#[derive(Clone, Copy, Debug, PartialEq, Eq)]
pub struct SVoltageF(u64);

impl View for SVoltageF {
    type V = u64;

    /// The raw bits of the layout.
    closed spec fn view(&self) -> u64 {
        self.0
    }
}

impl SVoltageF {
    /// The layout with every field at its default.
    pub fn new() -> (r: SVoltageF)
        ensures
            r@ == 0x0u64,
    {
        SVoltageF(0x0)
    }

    /// Wraps raw bits.
    pub fn from_bits(bits: u64) -> (r: SVoltageF)
        ensures
            r@ == bits,
    {
        SVoltageF(bits)
    }

    /// The raw bits.
    pub fn into_bits(self) -> (r: u64)
        ensures
            r == self@,
    {
        self.0
    }

    /// The `s16v` field.
    pub fn s16v(&self) -> (r: AdbmsCellVoltage)
        ensures
            r == AdbmsCellVoltage(get_bits(self@, 0, 0xffff) as u16),
    {
        let v = field(self.0, 0, 0xffff);
        AdbmsCellVoltage::from_bits(v as u16)
    }

    /// This layout with the `s16v` field replaced.
    pub fn with_s16v(self, v: AdbmsCellVoltage) -> (r: SVoltageF)
        ensures
            r@ == set_bits(self@, 0, 0xffff, v.spec_into_bits() as u64),
    {
        SVoltageF(put(self.0, 0, 0xffff, v.into_bits() as u64))
    }
}

impl From<u64> for SVoltageF {
    fn from(bits: u64) -> (r: SVoltageF) {
        SVoltageF(bits)
    }
}

impl vstd::std_specs::convert::FromSpecImpl<u64> for SVoltageF {
    open spec fn obeys_from_spec() -> bool {
        true
    }

    open spec fn from_spec(bits: u64) -> SVoltageF {
        SVoltageF::from_bits_spec(bits)
    }
}

impl From<SVoltageF> for u64 {
    fn from(reg: SVoltageF) -> (r: u64) {
        reg.0
    }
}

impl vstd::std_specs::convert::FromSpecImpl<SVoltageF> for u64 {
    open spec fn obeys_from_spec() -> bool {
        true
    }

    open spec fn from_spec(reg: SVoltageF) -> u64 {
        reg@
    }
}

impl SVoltageF {
    /// The layout holding `bits`, as a value in specifications.
    pub closed spec fn from_bits_spec(bits: u64) -> SVoltageF {
        SVoltageF(bits)
    }

    /// A layout is its bits.
    pub proof fn lemma_from_bits_spec(bits: u64)
        ensures
            #[trigger] SVoltageF::from_bits_spec(bits)@ == bits,
    {
    }
}

impl AdbmsReadableRegister for SVoltageF {
    open spec fn spec_read_cmd() -> (u8, u8) {
        (0x00u8, 0x0Fu8)
    }

    fn read_cmd() -> (r: [u8; 2]) {
        [0x00, 0x0F]
    }

    fn from_raw(bits: u64) -> (r: SVoltageF) {
        SVoltageF(bits)
    }
}


} // verus!
