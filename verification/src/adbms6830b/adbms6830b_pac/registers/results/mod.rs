//! Register Layouts and Bit Descriptions for the Result Register groups (cell voltages, averaged
//! cell voltages, filtered cell voltages, S-voltages and auxiliary voltages).
//!
//! For more info about these registers, see Table 104 on page 71 of the datasheet
//! and Tables 57 through 88 on pages 61 through 67 of the datasheet.

use vstd::prelude::*;

pub mod types;

use crate::bits::{field, from_le6, get_bits, le_bytes6, of_le6, to_le6};
use crate::adbms6830b::chip::commands::{self, CommandFrame};
use crate::adbms6830b::chip::registers::ReadableGroup;

verus! {

/// Cell Voltage Register Group A (CVA). Contains six 1-byte registers (so 6 bytes total).
///
/// Contains cells 1 through 3.
///
/// See Table 57 on page 61 of the datasheet.
#[derive(Clone, Copy, Debug, PartialEq, Eq)]
pub struct CellVoltagesA(u64);

impl View for CellVoltagesA {
    type V = u64;

    /// The raw bits of the layout.
    closed spec fn view(&self) -> u64 {
        self.0
    }
}

impl CellVoltagesA {
    /// The value every field takes at power-up.
    pub fn new() -> (r: CellVoltagesA)
        ensures
            r@ == 0x800080008000u64,
    {
        CellVoltagesA(0x800080008000)
    }

    /// Wraps raw bits.
    pub fn from_bits(bits: u64) -> (r: CellVoltagesA)
        ensures
            r@ == bits,
    {
        CellVoltagesA(bits)
    }

    /// The raw bits.
    pub fn into_bits(self) -> (r: u64)
        ensures
            r == self@,
    {
        self.0
    }

    /// Serializes the register group into its six payload bytes, byte 0 first.
    pub fn to_bytes(self) -> (r: [u8; 6])
        ensures
            r@ == le_bytes6(self@),
    {
        to_le6(self.0)
    }

    /// Reconstructs the register group from its six payload bytes, byte 0 first.
    pub fn from_bytes(bytes: [u8; 6]) -> (r: CellVoltagesA)
        ensures
            r@ == from_le6(bytes@),
    {
        CellVoltagesA(of_le6(bytes))
    }

    /// Cell 1 Voltage Result. Corresponds to `C1V[15:0]`.
    pub fn c1v(&self) -> (r: types::CellVoltage)
        ensures
            r@ == get_bits(self@, 0, 0xffff) as u16,
    {
        let v = field(self.0, 0, 0xffff);
        types::CellVoltage::from_bits(v as u16)
    }

    /// Cell 2 Voltage Result. Corresponds to `C2V[15:0]`.
    pub fn c2v(&self) -> (r: types::CellVoltage)
        ensures
            r@ == get_bits(self@, 16, 0xffff) as u16,
    {
        let v = field(self.0, 16, 0xffff);
        types::CellVoltage::from_bits(v as u16)
    }

    /// Cell 3 Voltage Result. Corresponds to `C3V[15:0]`.
    pub fn c3v(&self) -> (r: types::CellVoltage)
        ensures
            r@ == get_bits(self@, 32, 0xffff) as u16,
    {
        let v = field(self.0, 32, 0xffff);
        types::CellVoltage::from_bits(v as u16)
    }
}

impl Default for CellVoltagesA {
    fn default() -> (r: CellVoltagesA)
        ensures
            r@ == 0x800080008000u64,
    {
        CellVoltagesA::new()
    }
}

impl ReadableGroup for CellVoltagesA {
    open spec fn spec_read_command() -> (bool, u16) {
        (false, 0b00000000100u16)
    }

    fn read_command() -> (r: CommandFrame) {
        commands::cell_voltage::rdcva().frame()
    }

    fn from_bytes(bytes: [u8; 6]) -> (r: CellVoltagesA) {
        CellVoltagesA::from_bytes(bytes)
    }
}

/// Cell Voltage Register Group B (CVB). Contains six 1-byte registers (so 6 bytes total).
///
/// Contains cells 4 through 6.
///
/// See Table 58 on page 61 of the datasheet.
#[derive(Clone, Copy, Debug, PartialEq, Eq)]
pub struct CellVoltagesB(u64);

impl View for CellVoltagesB {
    type V = u64;

    /// The raw bits of the layout.
    closed spec fn view(&self) -> u64 {
        self.0
    }
}

impl CellVoltagesB {
    /// The value every field takes at power-up.
    pub fn new() -> (r: CellVoltagesB)
        ensures
            r@ == 0x800080008000u64,
    {
        CellVoltagesB(0x800080008000)
    }

    /// Wraps raw bits.
    pub fn from_bits(bits: u64) -> (r: CellVoltagesB)
        ensures
            r@ == bits,
    {
        CellVoltagesB(bits)
    }

    /// The raw bits.
    pub fn into_bits(self) -> (r: u64)
        ensures
            r == self@,
    {
        self.0
    }

    /// Serializes the register group into its six payload bytes, byte 0 first.
    pub fn to_bytes(self) -> (r: [u8; 6])
        ensures
            r@ == le_bytes6(self@),
    {
        to_le6(self.0)
    }

    /// Reconstructs the register group from its six payload bytes, byte 0 first.
    pub fn from_bytes(bytes: [u8; 6]) -> (r: CellVoltagesB)
        ensures
            r@ == from_le6(bytes@),
    {
        CellVoltagesB(of_le6(bytes))
    }

    /// Cell 4 Voltage Result. Corresponds to `C4V[15:0]`.
    pub fn c4v(&self) -> (r: types::CellVoltage)
        ensures
            r@ == get_bits(self@, 0, 0xffff) as u16,
    {
        let v = field(self.0, 0, 0xffff);
        types::CellVoltage::from_bits(v as u16)
    }

    /// Cell 5 Voltage Result. Corresponds to `C5V[15:0]`.
    pub fn c5v(&self) -> (r: types::CellVoltage)
        ensures
            r@ == get_bits(self@, 16, 0xffff) as u16,
    {
        let v = field(self.0, 16, 0xffff);
        types::CellVoltage::from_bits(v as u16)
    }

    /// Cell 6 Voltage Result. Corresponds to `C6V[15:0]`.
    pub fn c6v(&self) -> (r: types::CellVoltage)
        ensures
            r@ == get_bits(self@, 32, 0xffff) as u16,
    {
        let v = field(self.0, 32, 0xffff);
        types::CellVoltage::from_bits(v as u16)
    }
}

impl Default for CellVoltagesB {
    fn default() -> (r: CellVoltagesB)
        ensures
            r@ == 0x800080008000u64,
    {
        CellVoltagesB::new()
    }
}

impl ReadableGroup for CellVoltagesB {
    open spec fn spec_read_command() -> (bool, u16) {
        (false, 0b00000000110u16)
    }

    fn read_command() -> (r: CommandFrame) {
        commands::cell_voltage::rdcvb().frame()
    }

    fn from_bytes(bytes: [u8; 6]) -> (r: CellVoltagesB) {
        CellVoltagesB::from_bytes(bytes)
    }
}

/// Cell Voltage Register Group C (CVC). Contains six 1-byte registers (so 6 bytes total).
///
/// Contains cells 7 through 9.
///
/// See Table 59 on page 62 of the datasheet.
#[derive(Clone, Copy, Debug, PartialEq, Eq)]
pub struct CellVoltagesC(u64);

impl View for CellVoltagesC {
    type V = u64;

    /// The raw bits of the layout.
    closed spec fn view(&self) -> u64 {
        self.0
    }
}

impl CellVoltagesC {
    /// The value every field takes at power-up.
    pub fn new() -> (r: CellVoltagesC)
        ensures
            r@ == 0x800080008000u64,
    {
        CellVoltagesC(0x800080008000)
    }

    /// Wraps raw bits.
    pub fn from_bits(bits: u64) -> (r: CellVoltagesC)
        ensures
            r@ == bits,
    {
        CellVoltagesC(bits)
    }

    /// The raw bits.
    pub fn into_bits(self) -> (r: u64)
        ensures
            r == self@,
    {
        self.0
    }

    /// Serializes the register group into its six payload bytes, byte 0 first.
    pub fn to_bytes(self) -> (r: [u8; 6])
        ensures
            r@ == le_bytes6(self@),
    {
        to_le6(self.0)
    }

    /// Reconstructs the register group from its six payload bytes, byte 0 first.
    pub fn from_bytes(bytes: [u8; 6]) -> (r: CellVoltagesC)
        ensures
            r@ == from_le6(bytes@),
    {
        CellVoltagesC(of_le6(bytes))
    }

    /// Cell 7 Voltage Result. Corresponds to `C7V[15:0]`.
    pub fn c7v(&self) -> (r: types::CellVoltage)
        ensures
            r@ == get_bits(self@, 0, 0xffff) as u16,
    {
        let v = field(self.0, 0, 0xffff);
        types::CellVoltage::from_bits(v as u16)
    }

    /// Cell 8 Voltage Result. Corresponds to `C8V[15:0]`.
    pub fn c8v(&self) -> (r: types::CellVoltage)
        ensures
            r@ == get_bits(self@, 16, 0xffff) as u16,
    {
        let v = field(self.0, 16, 0xffff);
        types::CellVoltage::from_bits(v as u16)
    }

    /// Cell 9 Voltage Result. Corresponds to `C9V[15:0]`.
    pub fn c9v(&self) -> (r: types::CellVoltage)
        ensures
            r@ == get_bits(self@, 32, 0xffff) as u16,
    {
        let v = field(self.0, 32, 0xffff);
        types::CellVoltage::from_bits(v as u16)
    }
}

impl Default for CellVoltagesC {
    fn default() -> (r: CellVoltagesC)
        ensures
            r@ == 0x800080008000u64,
    {
        CellVoltagesC::new()
    }
}

impl ReadableGroup for CellVoltagesC {
    open spec fn spec_read_command() -> (bool, u16) {
        (false, 0b00000001000u16)
    }

    fn read_command() -> (r: CommandFrame) {
        commands::cell_voltage::rdcvc().frame()
    }

    fn from_bytes(bytes: [u8; 6]) -> (r: CellVoltagesC) {
        CellVoltagesC::from_bytes(bytes)
    }
}

/// Cell Voltage Register Group D (CVD). Contains six 1-byte registers (so 6 bytes total).
///
/// Contains cells 10 through 12.
///
/// See Table 60 on page 62 of the datasheet.
#[derive(Clone, Copy, Debug, PartialEq, Eq)]
pub struct CellVoltagesD(u64);

impl View for CellVoltagesD {
    type V = u64;

    /// The raw bits of the layout.
    closed spec fn view(&self) -> u64 {
        self.0
    }
}

impl CellVoltagesD {
    /// The value every field takes at power-up.
    pub fn new() -> (r: CellVoltagesD)
        ensures
            r@ == 0x800080008000u64,
    {
        CellVoltagesD(0x800080008000)
    }

    /// Wraps raw bits.
    pub fn from_bits(bits: u64) -> (r: CellVoltagesD)
        ensures
            r@ == bits,
    {
        CellVoltagesD(bits)
    }

    /// The raw bits.
    pub fn into_bits(self) -> (r: u64)
        ensures
            r == self@,
    {
        self.0
    }

    /// Serializes the register group into its six payload bytes, byte 0 first.
    pub fn to_bytes(self) -> (r: [u8; 6])
        ensures
            r@ == le_bytes6(self@),
    {
        to_le6(self.0)
    }

    /// Reconstructs the register group from its six payload bytes, byte 0 first.
    pub fn from_bytes(bytes: [u8; 6]) -> (r: CellVoltagesD)
        ensures
            r@ == from_le6(bytes@),
    {
        CellVoltagesD(of_le6(bytes))
    }

    /// Cell 10 Voltage Result. Corresponds to `C10V[15:0]`.
    pub fn c10v(&self) -> (r: types::CellVoltage)
        ensures
            r@ == get_bits(self@, 0, 0xffff) as u16,
    {
        let v = field(self.0, 0, 0xffff);
        types::CellVoltage::from_bits(v as u16)
    }

    /// Cell 11 Voltage Result. Corresponds to `C11V[15:0]`.
    pub fn c11v(&self) -> (r: types::CellVoltage)
        ensures
            r@ == get_bits(self@, 16, 0xffff) as u16,
    {
        let v = field(self.0, 16, 0xffff);
        types::CellVoltage::from_bits(v as u16)
    }

    /// Cell 12 Voltage Result. Corresponds to `C12V[15:0]`.
    pub fn c12v(&self) -> (r: types::CellVoltage)
        ensures
            r@ == get_bits(self@, 32, 0xffff) as u16,
    {
        let v = field(self.0, 32, 0xffff);
        types::CellVoltage::from_bits(v as u16)
    }
}

impl Default for CellVoltagesD {
    fn default() -> (r: CellVoltagesD)
        ensures
            r@ == 0x800080008000u64,
    {
        CellVoltagesD::new()
    }
}

impl ReadableGroup for CellVoltagesD {
    open spec fn spec_read_command() -> (bool, u16) {
        (false, 0b00000001010u16)
    }

    fn read_command() -> (r: CommandFrame) {
        commands::cell_voltage::rdcvd().frame()
    }

    fn from_bytes(bytes: [u8; 6]) -> (r: CellVoltagesD) {
        CellVoltagesD::from_bytes(bytes)
    }
}

/// Cell Voltage Register Group E (CVE). Contains six 1-byte registers (so 6 bytes total).
///
/// Contains cells 13 through 15.
///
/// See Table 61 on page 62 of the datasheet.
#[derive(Clone, Copy, Debug, PartialEq, Eq)]
pub struct CellVoltagesE(u64);

impl View for CellVoltagesE {
    type V = u64;

    /// The raw bits of the layout.
    closed spec fn view(&self) -> u64 {
        self.0
    }
}

impl CellVoltagesE {
    /// The value every field takes at power-up.
    pub fn new() -> (r: CellVoltagesE)
        ensures
            r@ == 0x800080008000u64,
    {
        CellVoltagesE(0x800080008000)
    }

    /// Wraps raw bits.
    pub fn from_bits(bits: u64) -> (r: CellVoltagesE)
        ensures
            r@ == bits,
    {
        CellVoltagesE(bits)
    }

    /// The raw bits.
    pub fn into_bits(self) -> (r: u64)
        ensures
            r == self@,
    {
        self.0
    }

    /// Serializes the register group into its six payload bytes, byte 0 first.
    pub fn to_bytes(self) -> (r: [u8; 6])
        ensures
            r@ == le_bytes6(self@),
    {
        to_le6(self.0)
    }

    /// Reconstructs the register group from its six payload bytes, byte 0 first.
    pub fn from_bytes(bytes: [u8; 6]) -> (r: CellVoltagesE)
        ensures
            r@ == from_le6(bytes@),
    {
        CellVoltagesE(of_le6(bytes))
    }

    /// Cell 13 Voltage Result. Corresponds to `C13V[15:0]`.
    pub fn c13v(&self) -> (r: types::CellVoltage)
        ensures
            r@ == get_bits(self@, 0, 0xffff) as u16,
    {
        let v = field(self.0, 0, 0xffff);
        types::CellVoltage::from_bits(v as u16)
    }

    /// Cell 14 Voltage Result. Corresponds to `C14[15:0]`.
    pub fn c14v(&self) -> (r: types::CellVoltage)
        ensures
            r@ == get_bits(self@, 16, 0xffff) as u16,
    {
        let v = field(self.0, 16, 0xffff);
        types::CellVoltage::from_bits(v as u16)
    }

    /// Cell 15 Voltage Result. Corresponds to `C15V[15:0]`.
    pub fn c15v(&self) -> (r: types::CellVoltage)
        ensures
            r@ == get_bits(self@, 32, 0xffff) as u16,
    {
        let v = field(self.0, 32, 0xffff);
        types::CellVoltage::from_bits(v as u16)
    }
}

impl Default for CellVoltagesE {
    fn default() -> (r: CellVoltagesE)
        ensures
            r@ == 0x800080008000u64,
    {
        CellVoltagesE::new()
    }
}

impl ReadableGroup for CellVoltagesE {
    open spec fn spec_read_command() -> (bool, u16) {
        (false, 0b00000001001u16)
    }

    fn read_command() -> (r: CommandFrame) {
        commands::cell_voltage::rdcve().frame()
    }

    fn from_bytes(bytes: [u8; 6]) -> (r: CellVoltagesE) {
        CellVoltagesE::from_bytes(bytes)
    }
}

/// Cell Voltage Register Group F (CVF). Contains six 1-byte registers (so 6 bytes total).
///
/// Just contains cell 16.
///
/// See Table 62 on page 62 of the datasheet.
#[derive(Clone, Copy, Debug, PartialEq, Eq)]
pub struct CellVoltagesF(u64);

impl View for CellVoltagesF {
    type V = u64;

    /// The raw bits of the layout.
    closed spec fn view(&self) -> u64 {
        self.0
    }
}

impl CellVoltagesF {
    /// The value every field takes at power-up.
    pub fn new() -> (r: CellVoltagesF)
        ensures
            r@ == 0xffffffff8000u64,
    {
        CellVoltagesF(0xffffffff8000)
    }

    /// Wraps raw bits.
    pub fn from_bits(bits: u64) -> (r: CellVoltagesF)
        ensures
            r@ == bits,
    {
        CellVoltagesF(bits)
    }

    /// The raw bits.
    pub fn into_bits(self) -> (r: u64)
        ensures
            r == self@,
    {
        self.0
    }

    /// Serializes the register group into its six payload bytes, byte 0 first.
    pub fn to_bytes(self) -> (r: [u8; 6])
        ensures
            r@ == le_bytes6(self@),
    {
        to_le6(self.0)
    }

    /// Reconstructs the register group from its six payload bytes, byte 0 first.
    pub fn from_bytes(bytes: [u8; 6]) -> (r: CellVoltagesF)
        ensures
            r@ == from_le6(bytes@),
    {
        CellVoltagesF(of_le6(bytes))
    }

    /// Cell 16 Voltage Result. Corresponds to `C16V[15:0]`.
    pub fn c16v(&self) -> (r: types::CellVoltage)
        ensures
            r@ == get_bits(self@, 0, 0xffff) as u16,
    {
        let v = field(self.0, 0, 0xffff);
        types::CellVoltage::from_bits(v as u16)
    }
}

impl Default for CellVoltagesF {
    fn default() -> (r: CellVoltagesF)
        ensures
            r@ == 0xffffffff8000u64,
    {
        CellVoltagesF::new()
    }
}

impl ReadableGroup for CellVoltagesF {
    open spec fn spec_read_command() -> (bool, u16) {
        (false, 0b00000001011u16)
    }

    fn read_command() -> (r: CommandFrame) {
        commands::cell_voltage::rdcvf().frame()
    }

    fn from_bytes(bytes: [u8; 6]) -> (r: CellVoltagesF) {
        CellVoltagesF::from_bytes(bytes)
    }
}

/// Avergage Cell Voltage Register Group A (ACA). Contains six 1-byte registers (so 6 bytes total).
///
/// Contains cells 1-3.
///
/// See Table 63 on page 62 of the datasheet.
#[derive(Clone, Copy, Debug, PartialEq, Eq)]
pub struct AverageCellVoltagesA(u64);

impl View for AverageCellVoltagesA {
    type V = u64;

    /// The raw bits of the layout.
    closed spec fn view(&self) -> u64 {
        self.0
    }
}

impl AverageCellVoltagesA {
    /// The value every field takes at power-up.
    pub fn new() -> (r: AverageCellVoltagesA)
        ensures
            r@ == 0x800080008000u64,
    {
        AverageCellVoltagesA(0x800080008000)
    }

    /// Wraps raw bits.
    pub fn from_bits(bits: u64) -> (r: AverageCellVoltagesA)
        ensures
            r@ == bits,
    {
        AverageCellVoltagesA(bits)
    }

    /// The raw bits.
    pub fn into_bits(self) -> (r: u64)
        ensures
            r == self@,
    {
        self.0
    }

    /// Serializes the register group into its six payload bytes, byte 0 first.
    pub fn to_bytes(self) -> (r: [u8; 6])
        ensures
            r@ == le_bytes6(self@),
    {
        to_le6(self.0)
    }

    /// Reconstructs the register group from its six payload bytes, byte 0 first.
    pub fn from_bytes(bytes: [u8; 6]) -> (r: AverageCellVoltagesA)
        ensures
            r@ == from_le6(bytes@),
    {
        AverageCellVoltagesA(of_le6(bytes))
    }

    /// Cell 1 Average Voltage Result. Corresponds to `AC1V[15:0]`.
    pub fn ac1v(&self) -> (r: types::AverageCellVoltage)
        ensures
            r@ == get_bits(self@, 0, 0xffff) as u16,
    {
        let v = field(self.0, 0, 0xffff);
        types::AverageCellVoltage::from_bits(v as u16)
    }

    /// Cell 2 Average Voltage Result. Corresponds to `AC2V[15:0]`.
    pub fn ac2v(&self) -> (r: types::AverageCellVoltage)
        ensures
            r@ == get_bits(self@, 16, 0xffff) as u16,
    {
        let v = field(self.0, 16, 0xffff);
        types::AverageCellVoltage::from_bits(v as u16)
    }

    /// Cell 3 Average Voltage Result. Corresponds to `AC3V[15:0]`.
    pub fn ac3v(&self) -> (r: types::AverageCellVoltage)
        ensures
            r@ == get_bits(self@, 32, 0xffff) as u16,
    {
        let v = field(self.0, 32, 0xffff);
        types::AverageCellVoltage::from_bits(v as u16)
    }
}

impl Default for AverageCellVoltagesA {
    fn default() -> (r: AverageCellVoltagesA)
        ensures
            r@ == 0x800080008000u64,
    {
        AverageCellVoltagesA::new()
    }
}

impl ReadableGroup for AverageCellVoltagesA {
    open spec fn spec_read_command() -> (bool, u16) {
        (false, 0b00001000100u16)
    }

    fn read_command() -> (r: CommandFrame) {
        commands::avg_cell_voltage::rdaca().frame()
    }

    fn from_bytes(bytes: [u8; 6]) -> (r: AverageCellVoltagesA) {
        AverageCellVoltagesA::from_bytes(bytes)
    }
}

/// Avergage Cell Voltage Register Group B (ACB). Contains six 1-byte registers (so 6 bytes total).
///
/// Contains cells 4-6.
///
/// See Table 64 on page 63 of the datasheet.
#[derive(Clone, Copy, Debug, PartialEq, Eq)]
pub struct AverageCellVoltagesB(u64);

impl View for AverageCellVoltagesB {
    type V = u64;

    /// The raw bits of the layout.
    closed spec fn view(&self) -> u64 {
        self.0
    }
}

impl AverageCellVoltagesB {
    /// The value every field takes at power-up.
    pub fn new() -> (r: AverageCellVoltagesB)
        ensures
            r@ == 0x800080008000u64,
    {
        AverageCellVoltagesB(0x800080008000)
    }

    /// Wraps raw bits.
    pub fn from_bits(bits: u64) -> (r: AverageCellVoltagesB)
        ensures
            r@ == bits,
    {
        AverageCellVoltagesB(bits)
    }

    /// The raw bits.
    pub fn into_bits(self) -> (r: u64)
        ensures
            r == self@,
    {
        self.0
    }

    /// Serializes the register group into its six payload bytes, byte 0 first.
    pub fn to_bytes(self) -> (r: [u8; 6])
        ensures
            r@ == le_bytes6(self@),
    {
        to_le6(self.0)
    }

    /// Reconstructs the register group from its six payload bytes, byte 0 first.
    pub fn from_bytes(bytes: [u8; 6]) -> (r: AverageCellVoltagesB)
        ensures
            r@ == from_le6(bytes@),
    {
        AverageCellVoltagesB(of_le6(bytes))
    }

    /// Cell 4 Average Voltage Result. Corresponds to `AC4V[15:0]`.
    pub fn ac4v(&self) -> (r: types::AverageCellVoltage)
        ensures
            r@ == get_bits(self@, 0, 0xffff) as u16,
    {
        let v = field(self.0, 0, 0xffff);
        types::AverageCellVoltage::from_bits(v as u16)
    }

    /// Cell 5 Average Voltage Result. Corresponds to `AC5V[15:0]`.
    pub fn ac5v(&self) -> (r: types::AverageCellVoltage)
        ensures
            r@ == get_bits(self@, 16, 0xffff) as u16,
    {
        let v = field(self.0, 16, 0xffff);
        types::AverageCellVoltage::from_bits(v as u16)
    }

    /// Cell 6 Average Voltage Result. Corresponds to `AC6V[15:0]`.
    pub fn ac6v(&self) -> (r: types::AverageCellVoltage)
        ensures
            r@ == get_bits(self@, 32, 0xffff) as u16,
    {
        let v = field(self.0, 32, 0xffff);
        types::AverageCellVoltage::from_bits(v as u16)
    }
}

impl Default for AverageCellVoltagesB {
    fn default() -> (r: AverageCellVoltagesB)
        ensures
            r@ == 0x800080008000u64,
    {
        AverageCellVoltagesB::new()
    }
}

impl ReadableGroup for AverageCellVoltagesB {
    open spec fn spec_read_command() -> (bool, u16) {
        (false, 0b00001000110u16)
    }

    fn read_command() -> (r: CommandFrame) {
        commands::avg_cell_voltage::rdacb().frame()
    }

    fn from_bytes(bytes: [u8; 6]) -> (r: AverageCellVoltagesB) {
        AverageCellVoltagesB::from_bytes(bytes)
    }
}

/// Avergage Cell Voltage Register Group C (ACC). Contains six 1-byte registers (so 6 bytes total).
///
/// Contains cells 7-9.
///
/// See Table 65 on page 63 of the datasheet.
#[derive(Clone, Copy, Debug, PartialEq, Eq)]
pub struct AverageCellVoltagesC(u64);

impl View for AverageCellVoltagesC {
    type V = u64;

    /// The raw bits of the layout.
    closed spec fn view(&self) -> u64 {
        self.0
    }
}

impl AverageCellVoltagesC {
    /// The value every field takes at power-up.
    pub fn new() -> (r: AverageCellVoltagesC)
        ensures
            r@ == 0x800080008000u64,
    {
        AverageCellVoltagesC(0x800080008000)
    }

    /// Wraps raw bits.
    pub fn from_bits(bits: u64) -> (r: AverageCellVoltagesC)
        ensures
            r@ == bits,
    {
        AverageCellVoltagesC(bits)
    }

    /// The raw bits.
    pub fn into_bits(self) -> (r: u64)
        ensures
            r == self@,
    {
        self.0
    }

    /// Serializes the register group into its six payload bytes, byte 0 first.
    pub fn to_bytes(self) -> (r: [u8; 6])
        ensures
            r@ == le_bytes6(self@),
    {
        to_le6(self.0)
    }

    /// Reconstructs the register group from its six payload bytes, byte 0 first.
    pub fn from_bytes(bytes: [u8; 6]) -> (r: AverageCellVoltagesC)
        ensures
            r@ == from_le6(bytes@),
    {
        AverageCellVoltagesC(of_le6(bytes))
    }

    /// Cell 7 Average Voltage Result. Corresponds to `AC7V[15:0]`.
    pub fn ac7v(&self) -> (r: types::AverageCellVoltage)
        ensures
            r@ == get_bits(self@, 0, 0xffff) as u16,
    {
        let v = field(self.0, 0, 0xffff);
        types::AverageCellVoltage::from_bits(v as u16)
    }

    /// Cell 8 Average Voltage Result. Corresponds to `AC8V[15:0]`.
    pub fn ac8v(&self) -> (r: types::AverageCellVoltage)
        ensures
            r@ == get_bits(self@, 16, 0xffff) as u16,
    {
        let v = field(self.0, 16, 0xffff);
        types::AverageCellVoltage::from_bits(v as u16)
    }

    /// Cell 9 Average Voltage Result. Corresponds to `AC9V[15:0]`.
    pub fn ac9v(&self) -> (r: types::AverageCellVoltage)
        ensures
            r@ == get_bits(self@, 32, 0xffff) as u16,
    {
        let v = field(self.0, 32, 0xffff);
        types::AverageCellVoltage::from_bits(v as u16)
    }
}

impl Default for AverageCellVoltagesC {
    fn default() -> (r: AverageCellVoltagesC)
        ensures
            r@ == 0x800080008000u64,
    {
        AverageCellVoltagesC::new()
    }
}

impl ReadableGroup for AverageCellVoltagesC {
    open spec fn spec_read_command() -> (bool, u16) {
        (false, 0b00001001000u16)
    }

    fn read_command() -> (r: CommandFrame) {
        commands::avg_cell_voltage::rdacc().frame()
    }

    fn from_bytes(bytes: [u8; 6]) -> (r: AverageCellVoltagesC) {
        AverageCellVoltagesC::from_bytes(bytes)
    }
}

/// Avergage Cell Voltage Register Group D (ACD). Contains six 1-byte registers (so 6 bytes total).
///
/// Contains cells 10-12.
///
/// See Table 66 on page 63 of the datasheet.
#[derive(Clone, Copy, Debug, PartialEq, Eq)]
pub struct AverageCellVoltagesD(u64);

impl View for AverageCellVoltagesD {
    type V = u64;

    /// The raw bits of the layout.
    closed spec fn view(&self) -> u64 {
        self.0
    }
}

impl AverageCellVoltagesD {
    /// The value every field takes at power-up.
    pub fn new() -> (r: AverageCellVoltagesD)
        ensures
            r@ == 0x800080008000u64,
    {
        AverageCellVoltagesD(0x800080008000)
    }

    /// Wraps raw bits.
    pub fn from_bits(bits: u64) -> (r: AverageCellVoltagesD)
        ensures
            r@ == bits,
    {
        AverageCellVoltagesD(bits)
    }

    /// The raw bits.
    pub fn into_bits(self) -> (r: u64)
        ensures
            r == self@,
    {
        self.0
    }

    /// Serializes the register group into its six payload bytes, byte 0 first.
    pub fn to_bytes(self) -> (r: [u8; 6])
        ensures
            r@ == le_bytes6(self@),
    {
        to_le6(self.0)
    }

    /// Reconstructs the register group from its six payload bytes, byte 0 first.
    pub fn from_bytes(bytes: [u8; 6]) -> (r: AverageCellVoltagesD)
        ensures
            r@ == from_le6(bytes@),
    {
        AverageCellVoltagesD(of_le6(bytes))
    }

    /// Cell 10 Average Voltage Result. Corresponds to `AC10V[15:0]`.
    pub fn ac10v(&self) -> (r: types::AverageCellVoltage)
        ensures
            r@ == get_bits(self@, 0, 0xffff) as u16,
    {
        let v = field(self.0, 0, 0xffff);
        types::AverageCellVoltage::from_bits(v as u16)
    }

    /// Cell 11 Average Voltage Result. Corresponds to `AC11V[15:0]`.
    pub fn ac11v(&self) -> (r: types::AverageCellVoltage)
        ensures
            r@ == get_bits(self@, 16, 0xffff) as u16,
    {
        let v = field(self.0, 16, 0xffff);
        types::AverageCellVoltage::from_bits(v as u16)
    }

    /// Cell 12 Average Voltage Result. Corresponds to `AC12V[15:0]`.
    pub fn ac12v(&self) -> (r: types::AverageCellVoltage)
        ensures
            r@ == get_bits(self@, 32, 0xffff) as u16,
    {
        let v = field(self.0, 32, 0xffff);
        types::AverageCellVoltage::from_bits(v as u16)
    }
}

impl Default for AverageCellVoltagesD {
    fn default() -> (r: AverageCellVoltagesD)
        ensures
            r@ == 0x800080008000u64,
    {
        AverageCellVoltagesD::new()
    }
}

impl ReadableGroup for AverageCellVoltagesD {
    open spec fn spec_read_command() -> (bool, u16) {
        (false, 0b00001001010u16)
    }

    fn read_command() -> (r: CommandFrame) {
        commands::avg_cell_voltage::rdacd().frame()
    }

    fn from_bytes(bytes: [u8; 6]) -> (r: AverageCellVoltagesD) {
        AverageCellVoltagesD::from_bytes(bytes)
    }
}

/// Avergage Cell Voltage Register Group E (ACE). Contains six 1-byte registers (so 6 bytes total).
///
/// Contains cells 13-15.
///
/// See Table 67 on page 63 of the datasheet.
#[derive(Clone, Copy, Debug, PartialEq, Eq)]
pub struct AverageCellVoltagesE(u64);

impl View for AverageCellVoltagesE {
    type V = u64;

    /// The raw bits of the layout.
    closed spec fn view(&self) -> u64 {
        self.0
    }
}

impl AverageCellVoltagesE {
    /// The value every field takes at power-up.
    pub fn new() -> (r: AverageCellVoltagesE)
        ensures
            r@ == 0x800080008000u64,
    {
        AverageCellVoltagesE(0x800080008000)
    }

    /// Wraps raw bits.
    pub fn from_bits(bits: u64) -> (r: AverageCellVoltagesE)
        ensures
            r@ == bits,
    {
        AverageCellVoltagesE(bits)
    }

    /// The raw bits.
    pub fn into_bits(self) -> (r: u64)
        ensures
            r == self@,
    {
        self.0
    }

    /// Serializes the register group into its six payload bytes, byte 0 first.
    pub fn to_bytes(self) -> (r: [u8; 6])
        ensures
            r@ == le_bytes6(self@),
    {
        to_le6(self.0)
    }

    /// Reconstructs the register group from its six payload bytes, byte 0 first.
    pub fn from_bytes(bytes: [u8; 6]) -> (r: AverageCellVoltagesE)
        ensures
            r@ == from_le6(bytes@),
    {
        AverageCellVoltagesE(of_le6(bytes))
    }

    /// Cell 13 Average Voltage Result. Corresponds to `AC13V[15:0]`.
    pub fn ac13v(&self) -> (r: types::AverageCellVoltage)
        ensures
            r@ == get_bits(self@, 0, 0xffff) as u16,
    {
        let v = field(self.0, 0, 0xffff);
        types::AverageCellVoltage::from_bits(v as u16)
    }

    /// Cell 14 Average Voltage Result. Corresponds to `AC14V[15:0]`.
    pub fn ac14v(&self) -> (r: types::AverageCellVoltage)
        ensures
            r@ == get_bits(self@, 16, 0xffff) as u16,
    {
        let v = field(self.0, 16, 0xffff);
        types::AverageCellVoltage::from_bits(v as u16)
    }

    /// Cell 15 Average Voltage Result. Corresponds to `AC15V[15:0]`.
    pub fn ac15v(&self) -> (r: types::AverageCellVoltage)
        ensures
            r@ == get_bits(self@, 32, 0xffff) as u16,
    {
        let v = field(self.0, 32, 0xffff);
        types::AverageCellVoltage::from_bits(v as u16)
    }
}

impl Default for AverageCellVoltagesE {
    fn default() -> (r: AverageCellVoltagesE)
        ensures
            r@ == 0x800080008000u64,
    {
        AverageCellVoltagesE::new()
    }
}

impl ReadableGroup for AverageCellVoltagesE {
    open spec fn spec_read_command() -> (bool, u16) {
        (false, 0b00001001001u16)
    }

    fn read_command() -> (r: CommandFrame) {
        commands::avg_cell_voltage::rdace().frame()
    }

    fn from_bytes(bytes: [u8; 6]) -> (r: AverageCellVoltagesE) {
        AverageCellVoltagesE::from_bytes(bytes)
    }
}

/// Average Cell Voltage Register Group F (ACF). Contains six 1-byte registers (so 6 bytes total).
///
/// Just contains cell 16.
///
/// See Table 68 on page 63 of the datasheet.
#[derive(Clone, Copy, Debug, PartialEq, Eq)]
pub struct AverageCellVoltagesF(u64);

impl View for AverageCellVoltagesF {
    type V = u64;

    /// The raw bits of the layout.
    closed spec fn view(&self) -> u64 {
        self.0
    }
}

impl AverageCellVoltagesF {
    /// The value every field takes at power-up.
    pub fn new() -> (r: AverageCellVoltagesF)
        ensures
            r@ == 0xffffffff8000u64,
    {
        AverageCellVoltagesF(0xffffffff8000)
    }

    /// Wraps raw bits.
    pub fn from_bits(bits: u64) -> (r: AverageCellVoltagesF)
        ensures
            r@ == bits,
    {
        AverageCellVoltagesF(bits)
    }

    /// The raw bits.
    pub fn into_bits(self) -> (r: u64)
        ensures
            r == self@,
    {
        self.0
    }

    /// Serializes the register group into its six payload bytes, byte 0 first.
    pub fn to_bytes(self) -> (r: [u8; 6])
        ensures
            r@ == le_bytes6(self@),
    {
        to_le6(self.0)
    }

    /// Reconstructs the register group from its six payload bytes, byte 0 first.
    pub fn from_bytes(bytes: [u8; 6]) -> (r: AverageCellVoltagesF)
        ensures
            r@ == from_le6(bytes@),
    {
        AverageCellVoltagesF(of_le6(bytes))
    }

    /// Cell 16 Average Voltage Result. Corresponds to `AC16V[15:0]`.
    pub fn ac16v(&self) -> (r: types::AverageCellVoltage)
        ensures
            r@ == get_bits(self@, 0, 0xffff) as u16,
    {
        let v = field(self.0, 0, 0xffff);
        types::AverageCellVoltage::from_bits(v as u16)
    }
}

impl Default for AverageCellVoltagesF {
    fn default() -> (r: AverageCellVoltagesF)
        ensures
            r@ == 0xffffffff8000u64,
    {
        AverageCellVoltagesF::new()
    }
}

impl ReadableGroup for AverageCellVoltagesF {
    open spec fn spec_read_command() -> (bool, u16) {
        (false, 0b00001001011u16)
    }

    fn read_command() -> (r: CommandFrame) {
        commands::avg_cell_voltage::rdacf().frame()
    }

    fn from_bytes(bytes: [u8; 6]) -> (r: AverageCellVoltagesF) {
        AverageCellVoltagesF::from_bytes(bytes)
    }
}

/// Filtered Cell Voltage Register Group A (FCA). Contains six 1-byte registers (so 6 bytes total).
///
/// Contains cells 1-3.
///
/// See Table 69 on page 63 of the datasheet.
#[derive(Clone, Copy, Debug, PartialEq, Eq)]
pub struct FilteredCellVoltagesA(u64);

impl View for FilteredCellVoltagesA {
    type V = u64;

    /// The raw bits of the layout.
    closed spec fn view(&self) -> u64 {
        self.0
    }
}

impl FilteredCellVoltagesA {
    /// The value every field takes at power-up.
    pub fn new() -> (r: FilteredCellVoltagesA)
        ensures
            r@ == 0x800080008000u64,
    {
        FilteredCellVoltagesA(0x800080008000)
    }

    /// Wraps raw bits.
    pub fn from_bits(bits: u64) -> (r: FilteredCellVoltagesA)
        ensures
            r@ == bits,
    {
        FilteredCellVoltagesA(bits)
    }

    /// The raw bits.
    pub fn into_bits(self) -> (r: u64)
        ensures
            r == self@,
    {
        self.0
    }

    /// Serializes the register group into its six payload bytes, byte 0 first.
    pub fn to_bytes(self) -> (r: [u8; 6])
        ensures
            r@ == le_bytes6(self@),
    {
        to_le6(self.0)
    }

    /// Reconstructs the register group from its six payload bytes, byte 0 first.
    pub fn from_bytes(bytes: [u8; 6]) -> (r: FilteredCellVoltagesA)
        ensures
            r@ == from_le6(bytes@),
    {
        FilteredCellVoltagesA(of_le6(bytes))
    }

    /// Cell 1 Filtered Voltage Result. Corresponds to `FC1V[15:0]`.
    pub fn fc1v(&self) -> (r: types::FilteredCellVoltage)
        ensures
            r@ == get_bits(self@, 0, 0xffff) as u16,
    {
        let v = field(self.0, 0, 0xffff);
        types::FilteredCellVoltage::from_bits(v as u16)
    }

    /// Cell 2 Filtered Voltage Result. Corresponds to `FC2V[15:0]`.
    pub fn fc2v(&self) -> (r: types::FilteredCellVoltage)
        ensures
            r@ == get_bits(self@, 16, 0xffff) as u16,
    {
        let v = field(self.0, 16, 0xffff);
        types::FilteredCellVoltage::from_bits(v as u16)
    }

    /// Cell 3 Filtered Voltage Result. Corresponds to `FC3V[15:0]`.
    pub fn fc3v(&self) -> (r: types::FilteredCellVoltage)
        ensures
            r@ == get_bits(self@, 32, 0xffff) as u16,
    {
        let v = field(self.0, 32, 0xffff);
        types::FilteredCellVoltage::from_bits(v as u16)
    }
}

impl Default for FilteredCellVoltagesA {
    fn default() -> (r: FilteredCellVoltagesA)
        ensures
            r@ == 0x800080008000u64,
    {
        FilteredCellVoltagesA::new()
    }
}

impl ReadableGroup for FilteredCellVoltagesA {
    open spec fn spec_read_command() -> (bool, u16) {
        (false, 0b00000010010u16)
    }

    fn read_command() -> (r: CommandFrame) {
        commands::filtered_cell_voltage::rdfca().frame()
    }

    fn from_bytes(bytes: [u8; 6]) -> (r: FilteredCellVoltagesA) {
        FilteredCellVoltagesA::from_bytes(bytes)
    }
}

/// Filtered Cell Voltage Register Group B (FCB). Contains six 1-byte registers (so 6 bytes total).
///
/// Contains cells 4-6.
///
/// See Table 70 on page 64 of the datasheet.
#[derive(Clone, Copy, Debug, PartialEq, Eq)]
pub struct FilteredCellVoltagesB(u64);

impl View for FilteredCellVoltagesB {
    type V = u64;

    /// The raw bits of the layout.
    closed spec fn view(&self) -> u64 {
        self.0
    }
}

impl FilteredCellVoltagesB {
    /// The value every field takes at power-up.
    pub fn new() -> (r: FilteredCellVoltagesB)
        ensures
            r@ == 0x800080008000u64,
    {
        FilteredCellVoltagesB(0x800080008000)
    }

    /// Wraps raw bits.
    pub fn from_bits(bits: u64) -> (r: FilteredCellVoltagesB)
        ensures
            r@ == bits,
    {
        FilteredCellVoltagesB(bits)
    }

    /// The raw bits.
    pub fn into_bits(self) -> (r: u64)
        ensures
            r == self@,
    {
        self.0
    }

    /// Serializes the register group into its six payload bytes, byte 0 first.
    pub fn to_bytes(self) -> (r: [u8; 6])
        ensures
            r@ == le_bytes6(self@),
    {
        to_le6(self.0)
    }

    /// Reconstructs the register group from its six payload bytes, byte 0 first.
    pub fn from_bytes(bytes: [u8; 6]) -> (r: FilteredCellVoltagesB)
        ensures
            r@ == from_le6(bytes@),
    {
        FilteredCellVoltagesB(of_le6(bytes))
    }

    /// Cell 4 Filtered Voltage Result. Corresponds to `FC4V[15:0]`.
    pub fn fc4v(&self) -> (r: types::FilteredCellVoltage)
        ensures
            r@ == get_bits(self@, 0, 0xffff) as u16,
    {
        let v = field(self.0, 0, 0xffff);
        types::FilteredCellVoltage::from_bits(v as u16)
    }

    /// Cell 5 Filtered Voltage Result. Corresponds to `FC5V[15:0]`.
    pub fn fc5v(&self) -> (r: types::FilteredCellVoltage)
        ensures
            r@ == get_bits(self@, 16, 0xffff) as u16,
    {
        let v = field(self.0, 16, 0xffff);
        types::FilteredCellVoltage::from_bits(v as u16)
    }

    /// Cell 6 Filtered Voltage Result. Corresponds to `FC6V[15:0]`.
    pub fn fc6v(&self) -> (r: types::FilteredCellVoltage)
        ensures
            r@ == get_bits(self@, 32, 0xffff) as u16,
    {
        let v = field(self.0, 32, 0xffff);
        types::FilteredCellVoltage::from_bits(v as u16)
    }
}

impl Default for FilteredCellVoltagesB {
    fn default() -> (r: FilteredCellVoltagesB)
        ensures
            r@ == 0x800080008000u64,
    {
        FilteredCellVoltagesB::new()
    }
}

impl ReadableGroup for FilteredCellVoltagesB {
    open spec fn spec_read_command() -> (bool, u16) {
        (false, 0b00000010011u16)
    }

    fn read_command() -> (r: CommandFrame) {
        commands::filtered_cell_voltage::rdfcb().frame()
    }

    fn from_bytes(bytes: [u8; 6]) -> (r: FilteredCellVoltagesB) {
        FilteredCellVoltagesB::from_bytes(bytes)
    }
}

/// Filtered Cell Voltage Register Group C (FCC). Contains six 1-byte registers (so 6 bytes total).
///
/// Contains cells 7-9.
///
/// See Table 71 on page 64 of the datasheet.
#[derive(Clone, Copy, Debug, PartialEq, Eq)]
pub struct FilteredCellVoltagesC(u64);

impl View for FilteredCellVoltagesC {
    type V = u64;

    /// The raw bits of the layout.
    closed spec fn view(&self) -> u64 {
        self.0
    }
}

impl FilteredCellVoltagesC {
    /// The value every field takes at power-up.
    pub fn new() -> (r: FilteredCellVoltagesC)
        ensures
            r@ == 0x800080008000u64,
    {
        FilteredCellVoltagesC(0x800080008000)
    }

    /// Wraps raw bits.
    pub fn from_bits(bits: u64) -> (r: FilteredCellVoltagesC)
        ensures
            r@ == bits,
    {
        FilteredCellVoltagesC(bits)
    }

    /// The raw bits.
    pub fn into_bits(self) -> (r: u64)
        ensures
            r == self@,
    {
        self.0
    }

    /// Serializes the register group into its six payload bytes, byte 0 first.
    pub fn to_bytes(self) -> (r: [u8; 6])
        ensures
            r@ == le_bytes6(self@),
    {
        to_le6(self.0)
    }

    /// Reconstructs the register group from its six payload bytes, byte 0 first.
    pub fn from_bytes(bytes: [u8; 6]) -> (r: FilteredCellVoltagesC)
        ensures
            r@ == from_le6(bytes@),
    {
        FilteredCellVoltagesC(of_le6(bytes))
    }

    /// Cell 7 Filtered Voltage Result. Corresponds to `FC7V[15:0]`.
    pub fn fc7v(&self) -> (r: types::FilteredCellVoltage)
        ensures
            r@ == get_bits(self@, 0, 0xffff) as u16,
    {
        let v = field(self.0, 0, 0xffff);
        types::FilteredCellVoltage::from_bits(v as u16)
    }

    /// Cell 8 Filtered Voltage Result. Corresponds to `FC8V[15:0]`.
    pub fn fc8v(&self) -> (r: types::FilteredCellVoltage)
        ensures
            r@ == get_bits(self@, 16, 0xffff) as u16,
    {
        let v = field(self.0, 16, 0xffff);
        types::FilteredCellVoltage::from_bits(v as u16)
    }

    /// Cell 9 Filtered Voltage Result. Corresponds to `FC9V[15:0]`.
    pub fn fc9v(&self) -> (r: types::FilteredCellVoltage)
        ensures
            r@ == get_bits(self@, 32, 0xffff) as u16,
    {
        let v = field(self.0, 32, 0xffff);
        types::FilteredCellVoltage::from_bits(v as u16)
    }
}

impl Default for FilteredCellVoltagesC {
    fn default() -> (r: FilteredCellVoltagesC)
        ensures
            r@ == 0x800080008000u64,
    {
        FilteredCellVoltagesC::new()
    }
}

impl ReadableGroup for FilteredCellVoltagesC {
    open spec fn spec_read_command() -> (bool, u16) {
        (false, 0b00000010100u16)
    }

    fn read_command() -> (r: CommandFrame) {
        commands::filtered_cell_voltage::rdfcc().frame()
    }

    fn from_bytes(bytes: [u8; 6]) -> (r: FilteredCellVoltagesC) {
        FilteredCellVoltagesC::from_bytes(bytes)
    }
}

/// Filtered Cell Voltage Register Group D (FCD). Contains six 1-byte registers (so 6 bytes total).
///
/// Contains cells 10-12.
///
/// See Table 72 on page 64 of the datasheet.
#[derive(Clone, Copy, Debug, PartialEq, Eq)]
pub struct FilteredCellVoltagesD(u64);

impl View for FilteredCellVoltagesD {
    type V = u64;

    /// The raw bits of the layout.
    closed spec fn view(&self) -> u64 {
        self.0
    }
}

impl FilteredCellVoltagesD {
    /// The value every field takes at power-up.
    pub fn new() -> (r: FilteredCellVoltagesD)
        ensures
            r@ == 0x800080008000u64,
    {
        FilteredCellVoltagesD(0x800080008000)
    }

    /// Wraps raw bits.
    pub fn from_bits(bits: u64) -> (r: FilteredCellVoltagesD)
        ensures
            r@ == bits,
    {
        FilteredCellVoltagesD(bits)
    }

    /// The raw bits.
    pub fn into_bits(self) -> (r: u64)
        ensures
            r == self@,
    {
        self.0
    }

    /// Serializes the register group into its six payload bytes, byte 0 first.
    pub fn to_bytes(self) -> (r: [u8; 6])
        ensures
            r@ == le_bytes6(self@),
    {
        to_le6(self.0)
    }

    /// Reconstructs the register group from its six payload bytes, byte 0 first.
    pub fn from_bytes(bytes: [u8; 6]) -> (r: FilteredCellVoltagesD)
        ensures
            r@ == from_le6(bytes@),
    {
        FilteredCellVoltagesD(of_le6(bytes))
    }

    /// Cell 10 Filtered Voltage Result. Corresponds to `FC10V[15:0]`.
    pub fn fc10v(&self) -> (r: types::FilteredCellVoltage)
        ensures
            r@ == get_bits(self@, 0, 0xffff) as u16,
    {
        let v = field(self.0, 0, 0xffff);
        types::FilteredCellVoltage::from_bits(v as u16)
    }

    /// Cell 11 Filtered Voltage Result. Corresponds to `FC11V[15:0]`.
    pub fn fc11v(&self) -> (r: types::FilteredCellVoltage)
        ensures
            r@ == get_bits(self@, 16, 0xffff) as u16,
    {
        let v = field(self.0, 16, 0xffff);
        types::FilteredCellVoltage::from_bits(v as u16)
    }

    /// Cell 12 Filtered Voltage Result. Corresponds to `FC12V[15:0]`.
    pub fn fc12v(&self) -> (r: types::FilteredCellVoltage)
        ensures
            r@ == get_bits(self@, 32, 0xffff) as u16,
    {
        let v = field(self.0, 32, 0xffff);
        types::FilteredCellVoltage::from_bits(v as u16)
    }
}

impl Default for FilteredCellVoltagesD {
    fn default() -> (r: FilteredCellVoltagesD)
        ensures
            r@ == 0x800080008000u64,
    {
        FilteredCellVoltagesD::new()
    }
}

impl ReadableGroup for FilteredCellVoltagesD {
    open spec fn spec_read_command() -> (bool, u16) {
        (false, 0b00000010101u16)
    }

    fn read_command() -> (r: CommandFrame) {
        commands::filtered_cell_voltage::rdfcd().frame()
    }

    fn from_bytes(bytes: [u8; 6]) -> (r: FilteredCellVoltagesD) {
        FilteredCellVoltagesD::from_bytes(bytes)
    }
}

/// Filtered Cell Voltage Register Group E (FCE). Contains six 1-byte registers (so 6 bytes total).
///
/// Contains cells 13-15.
///
/// See Table 73 on page 64 of the datasheet.
#[derive(Clone, Copy, Debug, PartialEq, Eq)]
pub struct FilteredCellVoltagesE(u64);

impl View for FilteredCellVoltagesE {
    type V = u64;

    /// The raw bits of the layout.
    closed spec fn view(&self) -> u64 {
        self.0
    }
}

impl FilteredCellVoltagesE {
    /// The value every field takes at power-up.
    pub fn new() -> (r: FilteredCellVoltagesE)
        ensures
            r@ == 0x800080008000u64,
    {
        FilteredCellVoltagesE(0x800080008000)
    }

    /// Wraps raw bits.
    pub fn from_bits(bits: u64) -> (r: FilteredCellVoltagesE)
        ensures
            r@ == bits,
    {
        FilteredCellVoltagesE(bits)
    }

    /// The raw bits.
    pub fn into_bits(self) -> (r: u64)
        ensures
            r == self@,
    {
        self.0
    }

    /// Serializes the register group into its six payload bytes, byte 0 first.
    pub fn to_bytes(self) -> (r: [u8; 6])
        ensures
            r@ == le_bytes6(self@),
    {
        to_le6(self.0)
    }

    /// Reconstructs the register group from its six payload bytes, byte 0 first.
    pub fn from_bytes(bytes: [u8; 6]) -> (r: FilteredCellVoltagesE)
        ensures
            r@ == from_le6(bytes@),
    {
        FilteredCellVoltagesE(of_le6(bytes))
    }

    /// Cell 13 Filtered Voltage Result. Corresponds to `FC13V[15:0]`.
    pub fn fc13v(&self) -> (r: types::FilteredCellVoltage)
        ensures
            r@ == get_bits(self@, 0, 0xffff) as u16,
    {
        let v = field(self.0, 0, 0xffff);
        types::FilteredCellVoltage::from_bits(v as u16)
    }

    /// Cell 14 Filtered Voltage Result. Corresponds to `FC14V[15:0]`.
    pub fn fc14v(&self) -> (r: types::FilteredCellVoltage)
        ensures
            r@ == get_bits(self@, 16, 0xffff) as u16,
    {
        let v = field(self.0, 16, 0xffff);
        types::FilteredCellVoltage::from_bits(v as u16)
    }

    /// Cell 15 Filtered Voltage Result. Corresponds to `FC15V[15:0]`.
    pub fn fc15v(&self) -> (r: types::FilteredCellVoltage)
        ensures
            r@ == get_bits(self@, 32, 0xffff) as u16,
    {
        let v = field(self.0, 32, 0xffff);
        types::FilteredCellVoltage::from_bits(v as u16)
    }
}

impl Default for FilteredCellVoltagesE {
    fn default() -> (r: FilteredCellVoltagesE)
        ensures
            r@ == 0x800080008000u64,
    {
        FilteredCellVoltagesE::new()
    }
}

impl ReadableGroup for FilteredCellVoltagesE {
    open spec fn spec_read_command() -> (bool, u16) {
        (false, 0b00000010110u16)
    }

    fn read_command() -> (r: CommandFrame) {
        commands::filtered_cell_voltage::rdfce().frame()
    }

    fn from_bytes(bytes: [u8; 6]) -> (r: FilteredCellVoltagesE) {
        FilteredCellVoltagesE::from_bytes(bytes)
    }
}

/// Filtered Cell Voltage Register Group F (FCF). Contains six 1-byte registers (so 6 bytes total).
///
/// Just contains cell 16.
///
/// See Table 74 on page 64 of the datasheet.
#[derive(Clone, Copy, Debug, PartialEq, Eq)]
pub struct FilteredCellVoltagesF(u64);

impl View for FilteredCellVoltagesF {
    type V = u64;

    /// The raw bits of the layout.
    closed spec fn view(&self) -> u64 {
        self.0
    }
}

impl FilteredCellVoltagesF {
    /// The value every field takes at power-up.
    pub fn new() -> (r: FilteredCellVoltagesF)
        ensures
            r@ == 0xffffffff8000u64,
    {
        FilteredCellVoltagesF(0xffffffff8000)
    }

    /// Wraps raw bits.
    pub fn from_bits(bits: u64) -> (r: FilteredCellVoltagesF)
        ensures
            r@ == bits,
    {
        FilteredCellVoltagesF(bits)
    }

    /// The raw bits.
    pub fn into_bits(self) -> (r: u64)
        ensures
            r == self@,
    {
        self.0
    }

    /// Serializes the register group into its six payload bytes, byte 0 first.
    pub fn to_bytes(self) -> (r: [u8; 6])
        ensures
            r@ == le_bytes6(self@),
    {
        to_le6(self.0)
    }

    /// Reconstructs the register group from its six payload bytes, byte 0 first.
    pub fn from_bytes(bytes: [u8; 6]) -> (r: FilteredCellVoltagesF)
        ensures
            r@ == from_le6(bytes@),
    {
        FilteredCellVoltagesF(of_le6(bytes))
    }

    /// Cell 16 Filtered Voltage Result. Corresponds to `FC16V[15:0]`.
    pub fn fc16v(&self) -> (r: types::FilteredCellVoltage)
        ensures
            r@ == get_bits(self@, 0, 0xffff) as u16,
    {
        let v = field(self.0, 0, 0xffff);
        types::FilteredCellVoltage::from_bits(v as u16)
    }
}

impl Default for FilteredCellVoltagesF {
    fn default() -> (r: FilteredCellVoltagesF)
        ensures
            r@ == 0xffffffff8000u64,
    {
        FilteredCellVoltagesF::new()
    }
}

impl ReadableGroup for FilteredCellVoltagesF {
    open spec fn spec_read_command() -> (bool, u16) {
        (false, 0b00000010111u16)
    }

    fn read_command() -> (r: CommandFrame) {
        commands::filtered_cell_voltage::rdfcf().frame()
    }

    fn from_bytes(bytes: [u8; 6]) -> (r: FilteredCellVoltagesF) {
        FilteredCellVoltagesF::from_bytes(bytes)
    }
}

/// S-Voltage Register Group A (SCA). Contains six 1-byte registers (so 6 bytes total).
///
/// Contains S pins 1-3.
///
/// See Table 75 on page 65 of the datasheet.
#[derive(Clone, Copy, Debug, PartialEq, Eq)]
pub struct SVoltagesA(u64);

impl View for SVoltagesA {
    type V = u64;

    /// The raw bits of the layout.
    closed spec fn view(&self) -> u64 {
        self.0
    }
}

impl SVoltagesA {
    /// The value every field takes at power-up.
    pub fn new() -> (r: SVoltagesA)
        ensures
            r@ == 0x800080008000u64,
    {
        SVoltagesA(0x800080008000)
    }

    /// Wraps raw bits.
    pub fn from_bits(bits: u64) -> (r: SVoltagesA)
        ensures
            r@ == bits,
    {
        SVoltagesA(bits)
    }

    /// The raw bits.
    pub fn into_bits(self) -> (r: u64)
        ensures
            r == self@,
    {
        self.0
    }

    /// Serializes the register group into its six payload bytes, byte 0 first.
    pub fn to_bytes(self) -> (r: [u8; 6])
        ensures
            r@ == le_bytes6(self@),
    {
        to_le6(self.0)
    }

    /// Reconstructs the register group from its six payload bytes, byte 0 first.
    pub fn from_bytes(bytes: [u8; 6]) -> (r: SVoltagesA)
        ensures
            r@ == from_le6(bytes@),
    {
        SVoltagesA(of_le6(bytes))
    }

    /// Cell 1 S-Voltage Result. Corresponds to `S1V[15:0]`.
    pub fn s1v(&self) -> (r: types::SVoltage)
        ensures
            r@ == get_bits(self@, 0, 0xffff) as u16,
    {
        let v = field(self.0, 0, 0xffff);
        types::SVoltage::from_bits(v as u16)
    }

    /// Cell 2 S-Voltage Result. Corresponds to `S2V[15:0]`.
    pub fn s2v(&self) -> (r: types::SVoltage)
        ensures
            r@ == get_bits(self@, 16, 0xffff) as u16,
    {
        let v = field(self.0, 16, 0xffff);
        types::SVoltage::from_bits(v as u16)
    }

    /// Cell 3 S-Voltage Result. Corresponds to `S3V[15:0]`.
    pub fn s3v(&self) -> (r: types::SVoltage)
        ensures
            r@ == get_bits(self@, 32, 0xffff) as u16,
    {
        let v = field(self.0, 32, 0xffff);
        types::SVoltage::from_bits(v as u16)
    }
}

impl Default for SVoltagesA {
    fn default() -> (r: SVoltagesA)
        ensures
            r@ == 0x800080008000u64,
    {
        SVoltagesA::new()
    }
}

impl ReadableGroup for SVoltagesA {
    open spec fn spec_read_command() -> (bool, u16) {
        (false, 0b00000000011u16)
    }

    fn read_command() -> (r: CommandFrame) {
        commands::s_voltage::rdsva().frame()
    }

    fn from_bytes(bytes: [u8; 6]) -> (r: SVoltagesA) {
        SVoltagesA::from_bytes(bytes)
    }
}

/// S-Voltage Register Group B (SCB). Contains six 1-byte registers (so 6 bytes total).
///
/// Contains S pins 4-6.
///
/// See Table 76 on page 65 of the datasheet.
#[derive(Clone, Copy, Debug, PartialEq, Eq)]
pub struct SVoltagesB(u64);

impl View for SVoltagesB {
    type V = u64;

    /// The raw bits of the layout.
    closed spec fn view(&self) -> u64 {
        self.0
    }
}

impl SVoltagesB {
    /// The value every field takes at power-up.
    pub fn new() -> (r: SVoltagesB)
        ensures
            r@ == 0x800080008000u64,
    {
        SVoltagesB(0x800080008000)
    }

    /// Wraps raw bits.
    pub fn from_bits(bits: u64) -> (r: SVoltagesB)
        ensures
            r@ == bits,
    {
        SVoltagesB(bits)
    }

    /// The raw bits.
    pub fn into_bits(self) -> (r: u64)
        ensures
            r == self@,
    {
        self.0
    }

    /// Serializes the register group into its six payload bytes, byte 0 first.
    pub fn to_bytes(self) -> (r: [u8; 6])
        ensures
            r@ == le_bytes6(self@),
    {
        to_le6(self.0)
    }

    /// Reconstructs the register group from its six payload bytes, byte 0 first.
    pub fn from_bytes(bytes: [u8; 6]) -> (r: SVoltagesB)
        ensures
            r@ == from_le6(bytes@),
    {
        SVoltagesB(of_le6(bytes))
    }

    /// Cell 4 S-Voltage Result. Corresponds to `S4V[15:0]`.
    pub fn s4v(&self) -> (r: types::SVoltage)
        ensures
            r@ == get_bits(self@, 0, 0xffff) as u16,
    {
        let v = field(self.0, 0, 0xffff);
        types::SVoltage::from_bits(v as u16)
    }

    /// Cell 5 S-Voltage Result. Corresponds to `S5V[15:0]`.
    pub fn s5v(&self) -> (r: types::SVoltage)
        ensures
            r@ == get_bits(self@, 16, 0xffff) as u16,
    {
        let v = field(self.0, 16, 0xffff);
        types::SVoltage::from_bits(v as u16)
    }

    /// Cell 6 S-Voltage Result. Corresponds to `S6V[15:0]`.
    pub fn s6v(&self) -> (r: types::SVoltage)
        ensures
            r@ == get_bits(self@, 32, 0xffff) as u16,
    {
        let v = field(self.0, 32, 0xffff);
        types::SVoltage::from_bits(v as u16)
    }
}

impl Default for SVoltagesB {
    fn default() -> (r: SVoltagesB)
        ensures
            r@ == 0x800080008000u64,
    {
        SVoltagesB::new()
    }
}

impl ReadableGroup for SVoltagesB {
    open spec fn spec_read_command() -> (bool, u16) {
        (false, 0b00000000101u16)
    }

    fn read_command() -> (r: CommandFrame) {
        commands::s_voltage::rdsvb().frame()
    }

    fn from_bytes(bytes: [u8; 6]) -> (r: SVoltagesB) {
        SVoltagesB::from_bytes(bytes)
    }
}

/// S-Voltage Register Group C (SCC). Contains six 1-byte registers (so 6 bytes total).
///
/// Contains S pins 7-9.
///
/// See Table 77 on page 65 of the datasheet.
#[derive(Clone, Copy, Debug, PartialEq, Eq)]
pub struct SVoltagesC(u64);

impl View for SVoltagesC {
    type V = u64;

    /// The raw bits of the layout.
    closed spec fn view(&self) -> u64 {
        self.0
    }
}

impl SVoltagesC {
    /// The value every field takes at power-up.
    pub fn new() -> (r: SVoltagesC)
        ensures
            r@ == 0x800080008000u64,
    {
        SVoltagesC(0x800080008000)
    }

    /// Wraps raw bits.
    pub fn from_bits(bits: u64) -> (r: SVoltagesC)
        ensures
            r@ == bits,
    {
        SVoltagesC(bits)
    }

    /// The raw bits.
    pub fn into_bits(self) -> (r: u64)
        ensures
            r == self@,
    {
        self.0
    }

    /// Serializes the register group into its six payload bytes, byte 0 first.
    pub fn to_bytes(self) -> (r: [u8; 6])
        ensures
            r@ == le_bytes6(self@),
    {
        to_le6(self.0)
    }

    /// Reconstructs the register group from its six payload bytes, byte 0 first.
    pub fn from_bytes(bytes: [u8; 6]) -> (r: SVoltagesC)
        ensures
            r@ == from_le6(bytes@),
    {
        SVoltagesC(of_le6(bytes))
    }

    /// Cell 7 S-Voltage Result. Corresponds to `S7V[15:0]`.
    pub fn s7v(&self) -> (r: types::SVoltage)
        ensures
            r@ == get_bits(self@, 0, 0xffff) as u16,
    {
        let v = field(self.0, 0, 0xffff);
        types::SVoltage::from_bits(v as u16)
    }

    /// Cell 8 S-Voltage Result. Corresponds to `S8V[15:0]`.
    pub fn s8v(&self) -> (r: types::SVoltage)
        ensures
            r@ == get_bits(self@, 16, 0xffff) as u16,
    {
        let v = field(self.0, 16, 0xffff);
        types::SVoltage::from_bits(v as u16)
    }

    /// Cell 9 S-Voltage Result. Corresponds to `S9V[15:0]`.
    pub fn s9v(&self) -> (r: types::SVoltage)
        ensures
            r@ == get_bits(self@, 32, 0xffff) as u16,
    {
        let v = field(self.0, 32, 0xffff);
        types::SVoltage::from_bits(v as u16)
    }
}

impl Default for SVoltagesC {
    fn default() -> (r: SVoltagesC)
        ensures
            r@ == 0x800080008000u64,
    {
        SVoltagesC::new()
    }
}

impl ReadableGroup for SVoltagesC {
    open spec fn spec_read_command() -> (bool, u16) {
        (false, 0b00000000111u16)
    }

    fn read_command() -> (r: CommandFrame) {
        commands::s_voltage::rdsvc().frame()
    }

    fn from_bytes(bytes: [u8; 6]) -> (r: SVoltagesC) {
        SVoltagesC::from_bytes(bytes)
    }
}

/// S-Voltage Register Group D (SCD). Contains six 1-byte registers (so 6 bytes total).
///
/// Contains S pins 10-12.
///
/// See Table 78 on page 65 of the datasheet.
#[derive(Clone, Copy, Debug, PartialEq, Eq)]
pub struct SVoltagesD(u64);

impl View for SVoltagesD {
    type V = u64;

    /// The raw bits of the layout.
    closed spec fn view(&self) -> u64 {
        self.0
    }
}

impl SVoltagesD {
    /// The value every field takes at power-up.
    pub fn new() -> (r: SVoltagesD)
        ensures
            r@ == 0x800080008000u64,
    {
        SVoltagesD(0x800080008000)
    }

    /// Wraps raw bits.
    pub fn from_bits(bits: u64) -> (r: SVoltagesD)
        ensures
            r@ == bits,
    {
        SVoltagesD(bits)
    }

    /// The raw bits.
    pub fn into_bits(self) -> (r: u64)
        ensures
            r == self@,
    {
        self.0
    }

    /// Serializes the register group into its six payload bytes, byte 0 first.
    pub fn to_bytes(self) -> (r: [u8; 6])
        ensures
            r@ == le_bytes6(self@),
    {
        to_le6(self.0)
    }

    /// Reconstructs the register group from its six payload bytes, byte 0 first.
    pub fn from_bytes(bytes: [u8; 6]) -> (r: SVoltagesD)
        ensures
            r@ == from_le6(bytes@),
    {
        SVoltagesD(of_le6(bytes))
    }

    /// Cell 10 S-Voltage Result. Corresponds to `S10V[15:0]`.
    pub fn s10v(&self) -> (r: types::SVoltage)
        ensures
            r@ == get_bits(self@, 0, 0xffff) as u16,
    {
        let v = field(self.0, 0, 0xffff);
        types::SVoltage::from_bits(v as u16)
    }

    /// Cell 11 S-Voltage Result. Corresponds to `S11V[15:0]`.
    pub fn s11v(&self) -> (r: types::SVoltage)
        ensures
            r@ == get_bits(self@, 16, 0xffff) as u16,
    {
        let v = field(self.0, 16, 0xffff);
        types::SVoltage::from_bits(v as u16)
    }

    /// Cell 12 S-Voltage Result. Corresponds to `S12V[15:0]`.
    pub fn s12v(&self) -> (r: types::SVoltage)
        ensures
            r@ == get_bits(self@, 32, 0xffff) as u16,
    {
        let v = field(self.0, 32, 0xffff);
        types::SVoltage::from_bits(v as u16)
    }
}

impl Default for SVoltagesD {
    fn default() -> (r: SVoltagesD)
        ensures
            r@ == 0x800080008000u64,
    {
        SVoltagesD::new()
    }
}

impl ReadableGroup for SVoltagesD {
    open spec fn spec_read_command() -> (bool, u16) {
        (false, 0b00000001101u16)
    }

    fn read_command() -> (r: CommandFrame) {
        commands::s_voltage::rdsvd().frame()
    }

    fn from_bytes(bytes: [u8; 6]) -> (r: SVoltagesD) {
        SVoltagesD::from_bytes(bytes)
    }
}

/// S-Voltage Register Group E (SCE). Contains six 1-byte registers (so 6 bytes total).
///
/// Contains S pins 13-15.
///
/// See Table 79 on page 65 of the datasheet.
#[derive(Clone, Copy, Debug, PartialEq, Eq)]
pub struct SVoltagesE(u64);

impl View for SVoltagesE {
    type V = u64;

    /// The raw bits of the layout.
    closed spec fn view(&self) -> u64 {
        self.0
    }
}

impl SVoltagesE {
    /// The value every field takes at power-up.
    pub fn new() -> (r: SVoltagesE)
        ensures
            r@ == 0x800080008000u64,
    {
        SVoltagesE(0x800080008000)
    }

    /// Wraps raw bits.
    pub fn from_bits(bits: u64) -> (r: SVoltagesE)
        ensures
            r@ == bits,
    {
        SVoltagesE(bits)
    }

    /// The raw bits.
    pub fn into_bits(self) -> (r: u64)
        ensures
            r == self@,
    {
        self.0
    }

    /// Serializes the register group into its six payload bytes, byte 0 first.
    pub fn to_bytes(self) -> (r: [u8; 6])
        ensures
            r@ == le_bytes6(self@),
    {
        to_le6(self.0)
    }

    /// Reconstructs the register group from its six payload bytes, byte 0 first.
    pub fn from_bytes(bytes: [u8; 6]) -> (r: SVoltagesE)
        ensures
            r@ == from_le6(bytes@),
    {
        SVoltagesE(of_le6(bytes))
    }

    /// Cell 13 S-Voltage Result. Corresponds to `S13V[15:0]`.
    pub fn s13v(&self) -> (r: types::SVoltage)
        ensures
            r@ == get_bits(self@, 0, 0xffff) as u16,
    {
        let v = field(self.0, 0, 0xffff);
        types::SVoltage::from_bits(v as u16)
    }

    /// Cell 14 S-Voltage Result. Corresponds to `S14V[15:0]`.
    pub fn s14v(&self) -> (r: types::SVoltage)
        ensures
            r@ == get_bits(self@, 16, 0xffff) as u16,
    {
        let v = field(self.0, 16, 0xffff);
        types::SVoltage::from_bits(v as u16)
    }

    /// Cell 15 S-Voltage Result. Corresponds to `S15V[15:0]`.
    pub fn s15v(&self) -> (r: types::SVoltage)
        ensures
            r@ == get_bits(self@, 32, 0xffff) as u16,
    {
        let v = field(self.0, 32, 0xffff);
        types::SVoltage::from_bits(v as u16)
    }
}

impl Default for SVoltagesE {
    fn default() -> (r: SVoltagesE)
        ensures
            r@ == 0x800080008000u64,
    {
        SVoltagesE::new()
    }
}

impl ReadableGroup for SVoltagesE {
    open spec fn spec_read_command() -> (bool, u16) {
        (false, 0b00000001110u16)
    }

    fn read_command() -> (r: CommandFrame) {
        commands::s_voltage::rdsve().frame()
    }

    fn from_bytes(bytes: [u8; 6]) -> (r: SVoltagesE) {
        SVoltagesE::from_bytes(bytes)
    }
}

/// S-Voltage Register Group F (FCF). Contains six 1-byte registers (so 6 bytes total).
///
/// Just S pin 16.
///
/// See Table 80 on page 66 of the datasheet.
#[derive(Clone, Copy, Debug, PartialEq, Eq)]
pub struct SVoltagesF(u64);

impl View for SVoltagesF {
    type V = u64;

    /// The raw bits of the layout.
    closed spec fn view(&self) -> u64 {
        self.0
    }
}

impl SVoltagesF {
    /// The value every field takes at power-up.
    pub fn new() -> (r: SVoltagesF)
        ensures
            r@ == 0xffffffff8000u64,
    {
        SVoltagesF(0xffffffff8000)
    }

    /// Wraps raw bits.
    pub fn from_bits(bits: u64) -> (r: SVoltagesF)
        ensures
            r@ == bits,
    {
        SVoltagesF(bits)
    }

    /// The raw bits.
    pub fn into_bits(self) -> (r: u64)
        ensures
            r == self@,
    {
        self.0
    }

    /// Serializes the register group into its six payload bytes, byte 0 first.
    pub fn to_bytes(self) -> (r: [u8; 6])
        ensures
            r@ == le_bytes6(self@),
    {
        to_le6(self.0)
    }

    /// Reconstructs the register group from its six payload bytes, byte 0 first.
    pub fn from_bytes(bytes: [u8; 6]) -> (r: SVoltagesF)
        ensures
            r@ == from_le6(bytes@),
    {
        SVoltagesF(of_le6(bytes))
    }

    /// Cell 16 S-Voltage Result. Corresponds to `S16V[15:0]`.
    pub fn s16v(&self) -> (r: types::SVoltage)
        ensures
            r@ == get_bits(self@, 0, 0xffff) as u16,
    {
        let v = field(self.0, 0, 0xffff);
        types::SVoltage::from_bits(v as u16)
    }
}

impl Default for SVoltagesF {
    fn default() -> (r: SVoltagesF)
        ensures
            r@ == 0xffffffff8000u64,
    {
        SVoltagesF::new()
    }
}

impl ReadableGroup for SVoltagesF {
    open spec fn spec_read_command() -> (bool, u16) {
        (false, 0b00000001111u16)
    }

    fn read_command() -> (r: CommandFrame) {
        commands::s_voltage::rdsvf().frame()
    }

    fn from_bytes(bytes: [u8; 6]) -> (r: SVoltagesF) {
        SVoltagesF::from_bytes(bytes)
    }
}

/// Auxillary Register Group A (AUXA). Contains six 1-byte registers (so 6 bytes total).
///
/// Contains GPIOs 1-3.
///
/// See Table 81 on page 66 of the datasheet.
#[derive(Clone, Copy, Debug, PartialEq, Eq)]
pub struct AuxillaryA(u64);

impl View for AuxillaryA {
    type V = u64;

    /// The raw bits of the layout.
    closed spec fn view(&self) -> u64 {
        self.0
    }
}

impl AuxillaryA {
    /// The value every field takes at power-up.
    pub fn new() -> (r: AuxillaryA)
        ensures
            r@ == 0x800080008000u64,
    {
        AuxillaryA(0x800080008000)
    }

    /// Wraps raw bits.
    pub fn from_bits(bits: u64) -> (r: AuxillaryA)
        ensures
            r@ == bits,
    {
        AuxillaryA(bits)
    }

    /// The raw bits.
    pub fn into_bits(self) -> (r: u64)
        ensures
            r == self@,
    {
        self.0
    }

    /// Serializes the register group into its six payload bytes, byte 0 first.
    pub fn to_bytes(self) -> (r: [u8; 6])
        ensures
            r@ == le_bytes6(self@),
    {
        to_le6(self.0)
    }

    /// Reconstructs the register group from its six payload bytes, byte 0 first.
    pub fn from_bytes(bytes: [u8; 6]) -> (r: AuxillaryA)
        ensures
            r@ == from_le6(bytes@),
    {
        AuxillaryA(of_le6(bytes))
    }

    /// GPIO 1 Voltage Result. Corresponds to `G1V[15:0]`.
    pub fn g1v(&self) -> (r: types::GpioVoltage)
        ensures
            r@ == get_bits(self@, 0, 0xffff) as u16,
    {
        let v = field(self.0, 0, 0xffff);
        types::GpioVoltage::from_bits(v as u16)
    }

    /// GPIO 2 Voltage Result. Corresponds to `G2V[15:0]`.
    pub fn g2v(&self) -> (r: types::GpioVoltage)
        ensures
            r@ == get_bits(self@, 16, 0xffff) as u16,
    {
        let v = field(self.0, 16, 0xffff);
        types::GpioVoltage::from_bits(v as u16)
    }

    /// GPIO 3 Voltage Result. Corresponds to `G3V[15:0]`.
    pub fn g3v(&self) -> (r: types::GpioVoltage)
        ensures
            r@ == get_bits(self@, 32, 0xffff) as u16,
    {
        let v = field(self.0, 32, 0xffff);
        types::GpioVoltage::from_bits(v as u16)
    }
}

impl Default for AuxillaryA {
    fn default() -> (r: AuxillaryA)
        ensures
            r@ == 0x800080008000u64,
    {
        AuxillaryA::new()
    }
}

impl ReadableGroup for AuxillaryA {
    open spec fn spec_read_command() -> (bool, u16) {
        (false, 0b00000011001u16)
    }

    fn read_command() -> (r: CommandFrame) {
        commands::aux::rdauxa().frame()
    }

    fn from_bytes(bytes: [u8; 6]) -> (r: AuxillaryA) {
        AuxillaryA::from_bytes(bytes)
    }
}

/// Auxillary Register Group B (AUXB). Contains six 1-byte registers (so 6 bytes total).
///
/// Contains GPIOs 4-6.
///
/// See Table 82 on page 66 of the datasheet.
#[derive(Clone, Copy, Debug, PartialEq, Eq)]
pub struct AuxillaryB(u64);

impl View for AuxillaryB {
    type V = u64;

    /// The raw bits of the layout.
    closed spec fn view(&self) -> u64 {
        self.0
    }
}

impl AuxillaryB {
    /// The value every field takes at power-up.
    pub fn new() -> (r: AuxillaryB)
        ensures
            r@ == 0x800080008000u64,
    {
        AuxillaryB(0x800080008000)
    }

    /// Wraps raw bits.
    pub fn from_bits(bits: u64) -> (r: AuxillaryB)
        ensures
            r@ == bits,
    {
        AuxillaryB(bits)
    }

    /// The raw bits.
    pub fn into_bits(self) -> (r: u64)
        ensures
            r == self@,
    {
        self.0
    }

    /// Serializes the register group into its six payload bytes, byte 0 first.
    pub fn to_bytes(self) -> (r: [u8; 6])
        ensures
            r@ == le_bytes6(self@),
    {
        to_le6(self.0)
    }

    /// Reconstructs the register group from its six payload bytes, byte 0 first.
    pub fn from_bytes(bytes: [u8; 6]) -> (r: AuxillaryB)
        ensures
            r@ == from_le6(bytes@),
    {
        AuxillaryB(of_le6(bytes))
    }

    /// GPIO 4 Voltage Result. Corresponds to `G4V[15:0]`.
    pub fn g4v(&self) -> (r: types::GpioVoltage)
        ensures
            r@ == get_bits(self@, 0, 0xffff) as u16,
    {
        let v = field(self.0, 0, 0xffff);
        types::GpioVoltage::from_bits(v as u16)
    }

    /// GPIO 5 Voltage Result. Corresponds to `G5V[15:0]`.
    pub fn g5v(&self) -> (r: types::GpioVoltage)
        ensures
            r@ == get_bits(self@, 16, 0xffff) as u16,
    {
        let v = field(self.0, 16, 0xffff);
        types::GpioVoltage::from_bits(v as u16)
    }

    /// GPIO 6 Voltage Result. Corresponds to `G6V[15:0]`.
    pub fn g6v(&self) -> (r: types::GpioVoltage)
        ensures
            r@ == get_bits(self@, 32, 0xffff) as u16,
    {
        let v = field(self.0, 32, 0xffff);
        types::GpioVoltage::from_bits(v as u16)
    }
}

impl Default for AuxillaryB {
    fn default() -> (r: AuxillaryB)
        ensures
            r@ == 0x800080008000u64,
    {
        AuxillaryB::new()
    }
}

impl ReadableGroup for AuxillaryB {
    open spec fn spec_read_command() -> (bool, u16) {
        (false, 0b00000011010u16)
    }

    fn read_command() -> (r: CommandFrame) {
        commands::aux::rdauxb().frame()
    }

    fn from_bytes(bytes: [u8; 6]) -> (r: AuxillaryB) {
        AuxillaryB::from_bytes(bytes)
    }
}

/// Auxillary Register Group C (AUXC). Contains six 1-byte registers (so 6 bytes total).
///
/// Contains GPIOs 7-9.
///
/// See Table 83 on page 66 of the datasheet.
#[derive(Clone, Copy, Debug, PartialEq, Eq)]
pub struct AuxillaryC(u64);

impl View for AuxillaryC {
    type V = u64;

    /// The raw bits of the layout.
    closed spec fn view(&self) -> u64 {
        self.0
    }
}

impl AuxillaryC {
    /// The value every field takes at power-up.
    pub fn new() -> (r: AuxillaryC)
        ensures
            r@ == 0x800080008000u64,
    {
        AuxillaryC(0x800080008000)
    }

    /// Wraps raw bits.
    pub fn from_bits(bits: u64) -> (r: AuxillaryC)
        ensures
            r@ == bits,
    {
        AuxillaryC(bits)
    }

    /// The raw bits.
    pub fn into_bits(self) -> (r: u64)
        ensures
            r == self@,
    {
        self.0
    }

    /// Serializes the register group into its six payload bytes, byte 0 first.
    pub fn to_bytes(self) -> (r: [u8; 6])
        ensures
            r@ == le_bytes6(self@),
    {
        to_le6(self.0)
    }

    /// Reconstructs the register group from its six payload bytes, byte 0 first.
    pub fn from_bytes(bytes: [u8; 6]) -> (r: AuxillaryC)
        ensures
            r@ == from_le6(bytes@),
    {
        AuxillaryC(of_le6(bytes))
    }

    /// GPIO 7 Voltage Result. Corresponds to `G7V[15:0]`.
    pub fn g7v(&self) -> (r: types::GpioVoltage)
        ensures
            r@ == get_bits(self@, 0, 0xffff) as u16,
    {
        let v = field(self.0, 0, 0xffff);
        types::GpioVoltage::from_bits(v as u16)
    }

    /// GPIO 8 Voltage Result. Corresponds to `G8V[15:0]`.
    pub fn g8v(&self) -> (r: types::GpioVoltage)
        ensures
            r@ == get_bits(self@, 16, 0xffff) as u16,
    {
        let v = field(self.0, 16, 0xffff);
        types::GpioVoltage::from_bits(v as u16)
    }

    /// GPIO 9 Voltage Result. Corresponds to `G9V[15:0]`.
    pub fn g9v(&self) -> (r: types::GpioVoltage)
        ensures
            r@ == get_bits(self@, 32, 0xffff) as u16,
    {
        let v = field(self.0, 32, 0xffff);
        types::GpioVoltage::from_bits(v as u16)
    }
}

impl Default for AuxillaryC {
    fn default() -> (r: AuxillaryC)
        ensures
            r@ == 0x800080008000u64,
    {
        AuxillaryC::new()
    }
}

impl ReadableGroup for AuxillaryC {
    open spec fn spec_read_command() -> (bool, u16) {
        (false, 0b00000011011u16)
    }

    fn read_command() -> (r: CommandFrame) {
        commands::aux::rdauxc().frame()
    }

    fn from_bytes(bytes: [u8; 6]) -> (r: AuxillaryC) {
        AuxillaryC::from_bytes(bytes)
    }
}

/// Auxillary Register Group D (AUXD). Contains six 1-byte registers (so 6 bytes total).
///
/// Contains GPIO 10, and VMV/VPV.
///
/// See Table 84 on page 66 of the datasheet.
#[derive(Clone, Copy, Debug, PartialEq, Eq)]
pub struct AuxillaryD(u64);

impl View for AuxillaryD {
    type V = u64;

    /// The raw bits of the layout.
    closed spec fn view(&self) -> u64 {
        self.0
    }
}

impl AuxillaryD {
    /// The value every field takes at power-up.
    pub fn new() -> (r: AuxillaryD)
        ensures
            r@ == 0x800080008000u64,
    {
        AuxillaryD(0x800080008000)
    }

    /// Wraps raw bits.
    pub fn from_bits(bits: u64) -> (r: AuxillaryD)
        ensures
            r@ == bits,
    {
        AuxillaryD(bits)
    }

    /// The raw bits.
    pub fn into_bits(self) -> (r: u64)
        ensures
            r == self@,
    {
        self.0
    }

    /// Serializes the register group into its six payload bytes, byte 0 first.
    pub fn to_bytes(self) -> (r: [u8; 6])
        ensures
            r@ == le_bytes6(self@),
    {
        to_le6(self.0)
    }

    /// Reconstructs the register group from its six payload bytes, byte 0 first.
    pub fn from_bytes(bytes: [u8; 6]) -> (r: AuxillaryD)
        ensures
            r@ == from_le6(bytes@),
    {
        AuxillaryD(of_le6(bytes))
    }

    /// GPIO 10 Voltage Result. Corresponds to `G10V[15:0]`.
    pub fn g10v(&self) -> (r: types::GpioVoltage)
        ensures
            r@ == get_bits(self@, 0, 0xffff) as u16,
    {
        let v = field(self.0, 0, 0xffff);
        types::GpioVoltage::from_bits(v as u16)
    }

    /// VMV Voltage Result. Corresponds to `VMV[15:0]`.
    pub fn vmv(&self) -> (r: types::VMinusVoltage)
        ensures
            r@ == get_bits(self@, 16, 0xffff) as u16,
    {
        let v = field(self.0, 16, 0xffff);
        types::VMinusVoltage::from_bits(v as u16)
    }

    /// VPV Voltage Result. Corresponds to `VPV[15:0]`.
    pub fn vpv(&self) -> (r: types::VPlusVoltage)
        ensures
            r@ == get_bits(self@, 32, 0xffff) as u16,
    {
        let v = field(self.0, 32, 0xffff);
        types::VPlusVoltage::from_bits(v as u16)
    }
}

impl Default for AuxillaryD {
    fn default() -> (r: AuxillaryD)
        ensures
            r@ == 0x800080008000u64,
    {
        AuxillaryD::new()
    }
}

impl ReadableGroup for AuxillaryD {
    open spec fn spec_read_command() -> (bool, u16) {
        (false, 0b00000011111u16)
    }

    fn read_command() -> (r: CommandFrame) {
        commands::aux::rdauxd().frame()
    }

    fn from_bytes(bytes: [u8; 6]) -> (r: AuxillaryD) {
        AuxillaryD::from_bytes(bytes)
    }
}

/// Redundant Auxillary Register Group A (RAXA). Contains six 1-byte registers (so 6 bytes total).
///
/// Contains GPIOs 1-3.
///
/// See Table 85 on page 66 of the datasheet.
#[derive(Clone, Copy, Debug, PartialEq, Eq)]
pub struct RedundantAuxillaryA(u64);

impl View for RedundantAuxillaryA {
    type V = u64;

    /// The raw bits of the layout.
    closed spec fn view(&self) -> u64 {
        self.0
    }
}

impl RedundantAuxillaryA {
    /// The value every field takes at power-up.
    pub fn new() -> (r: RedundantAuxillaryA)
        ensures
            r@ == 0x800080008000u64,
    {
        RedundantAuxillaryA(0x800080008000)
    }

    /// Wraps raw bits.
    pub fn from_bits(bits: u64) -> (r: RedundantAuxillaryA)
        ensures
            r@ == bits,
    {
        RedundantAuxillaryA(bits)
    }

    /// The raw bits.
    pub fn into_bits(self) -> (r: u64)
        ensures
            r == self@,
    {
        self.0
    }

    /// Serializes the register group into its six payload bytes, byte 0 first.
    pub fn to_bytes(self) -> (r: [u8; 6])
        ensures
            r@ == le_bytes6(self@),
    {
        to_le6(self.0)
    }

    /// Reconstructs the register group from its six payload bytes, byte 0 first.
    pub fn from_bytes(bytes: [u8; 6]) -> (r: RedundantAuxillaryA)
        ensures
            r@ == from_le6(bytes@),
    {
        RedundantAuxillaryA(of_le6(bytes))
    }

    /// GPIO 1 Voltage Result. Corresponds to `R_G1V[15:0]`.
    pub fn r_g1v(&self) -> (r: types::RedundantGpioVoltage)
        ensures
            r@ == get_bits(self@, 0, 0xffff) as u16,
    {
        let v = field(self.0, 0, 0xffff);
        types::RedundantGpioVoltage::from_bits(v as u16)
    }

    /// GPIO 2 Voltage Result. Corresponds to `R_G2V[15:0]`.
    pub fn r_g2v(&self) -> (r: types::RedundantGpioVoltage)
        ensures
            r@ == get_bits(self@, 16, 0xffff) as u16,
    {
        let v = field(self.0, 16, 0xffff);
        types::RedundantGpioVoltage::from_bits(v as u16)
    }

    /// GPIO 3 Voltage Result. Corresponds to `R_G3V[15:0]`.
    pub fn r_g3v(&self) -> (r: types::RedundantGpioVoltage)
        ensures
            r@ == get_bits(self@, 32, 0xffff) as u16,
    {
        let v = field(self.0, 32, 0xffff);
        types::RedundantGpioVoltage::from_bits(v as u16)
    }
}

impl Default for RedundantAuxillaryA {
    fn default() -> (r: RedundantAuxillaryA)
        ensures
            r@ == 0x800080008000u64,
    {
        RedundantAuxillaryA::new()
    }
}

impl ReadableGroup for RedundantAuxillaryA {
    open spec fn spec_read_command() -> (bool, u16) {
        (false, 0b00000011100u16)
    }

    fn read_command() -> (r: CommandFrame) {
        commands::redundant_aux::rdraxa().frame()
    }

    fn from_bytes(bytes: [u8; 6]) -> (r: RedundantAuxillaryA) {
        RedundantAuxillaryA::from_bytes(bytes)
    }
}

/// Redundant Auxillary Register Group B (RAXB). Contains six 1-byte registers (so 6 bytes total).
///
/// Contains GPIOs 4-6.
///
/// See Table 86 on page 67 of the datasheet.
#[derive(Clone, Copy, Debug, PartialEq, Eq)]
pub struct RedundantAuxillaryB(u64);

impl View for RedundantAuxillaryB {
    type V = u64;

    /// The raw bits of the layout.
    closed spec fn view(&self) -> u64 {
        self.0
    }
}

impl RedundantAuxillaryB {
    /// The value every field takes at power-up.
    pub fn new() -> (r: RedundantAuxillaryB)
        ensures
            r@ == 0x800080008000u64,
    {
        RedundantAuxillaryB(0x800080008000)
    }

    /// Wraps raw bits.
    pub fn from_bits(bits: u64) -> (r: RedundantAuxillaryB)
        ensures
            r@ == bits,
    {
        RedundantAuxillaryB(bits)
    }

    /// The raw bits.
    pub fn into_bits(self) -> (r: u64)
        ensures
            r == self@,
    {
        self.0
    }

    /// Serializes the register group into its six payload bytes, byte 0 first.
    pub fn to_bytes(self) -> (r: [u8; 6])
        ensures
            r@ == le_bytes6(self@),
    {
        to_le6(self.0)
    }

    /// Reconstructs the register group from its six payload bytes, byte 0 first.
    pub fn from_bytes(bytes: [u8; 6]) -> (r: RedundantAuxillaryB)
        ensures
            r@ == from_le6(bytes@),
    {
        RedundantAuxillaryB(of_le6(bytes))
    }

    /// GPIO 4 Voltage Result. Corresponds to `R_G4V[15:0]`.
    pub fn r_g4v(&self) -> (r: types::RedundantGpioVoltage)
        ensures
            r@ == get_bits(self@, 0, 0xffff) as u16,
    {
        let v = field(self.0, 0, 0xffff);
        types::RedundantGpioVoltage::from_bits(v as u16)
    }

    /// GPIO 5 Voltage Result. Corresponds to `R_G5V[15:0]`.
    pub fn r_g5v(&self) -> (r: types::RedundantGpioVoltage)
        ensures
            r@ == get_bits(self@, 16, 0xffff) as u16,
    {
        let v = field(self.0, 16, 0xffff);
        types::RedundantGpioVoltage::from_bits(v as u16)
    }

    /// GPIO 6 Voltage Result. Corresponds to `R_G6V[15:0]`.
    pub fn r_g6v(&self) -> (r: types::RedundantGpioVoltage)
        ensures
            r@ == get_bits(self@, 32, 0xffff) as u16,
    {
        let v = field(self.0, 32, 0xffff);
        types::RedundantGpioVoltage::from_bits(v as u16)
    }
}

impl Default for RedundantAuxillaryB {
    fn default() -> (r: RedundantAuxillaryB)
        ensures
            r@ == 0x800080008000u64,
    {
        RedundantAuxillaryB::new()
    }
}

impl ReadableGroup for RedundantAuxillaryB {
    open spec fn spec_read_command() -> (bool, u16) {
        (false, 0b00000011101u16)
    }

    fn read_command() -> (r: CommandFrame) {
        commands::redundant_aux::rdraxb().frame()
    }

    fn from_bytes(bytes: [u8; 6]) -> (r: RedundantAuxillaryB) {
        RedundantAuxillaryB::from_bytes(bytes)
    }
}

/// Redundant Auxillary Register Group C (RAXC). Contains six 1-byte registers (so 6 bytes total).
///
/// Contains GPIOs 7-9.
///
/// See Table 87 on page 67 of the datasheet.
#[derive(Clone, Copy, Debug, PartialEq, Eq)]
pub struct RedundantAuxillaryC(u64);

impl View for RedundantAuxillaryC {
    type V = u64;

    /// The raw bits of the layout.
    closed spec fn view(&self) -> u64 {
        self.0
    }
}

impl RedundantAuxillaryC {
    /// The value every field takes at power-up.
    pub fn new() -> (r: RedundantAuxillaryC)
        ensures
            r@ == 0x800080008000u64,
    {
        RedundantAuxillaryC(0x800080008000)
    }

    /// Wraps raw bits.
    pub fn from_bits(bits: u64) -> (r: RedundantAuxillaryC)
        ensures
            r@ == bits,
    {
        RedundantAuxillaryC(bits)
    }

    /// The raw bits.
    pub fn into_bits(self) -> (r: u64)
        ensures
            r == self@,
    {
        self.0
    }

    /// Serializes the register group into its six payload bytes, byte 0 first.
    pub fn to_bytes(self) -> (r: [u8; 6])
        ensures
            r@ == le_bytes6(self@),
    {
        to_le6(self.0)
    }

    /// Reconstructs the register group from its six payload bytes, byte 0 first.
    pub fn from_bytes(bytes: [u8; 6]) -> (r: RedundantAuxillaryC)
        ensures
            r@ == from_le6(bytes@),
    {
        RedundantAuxillaryC(of_le6(bytes))
    }

    /// GPIO 7 Voltage Result. Corresponds to `R_G7V[15:0]`.
    pub fn r_g7v(&self) -> (r: types::RedundantGpioVoltage)
        ensures
            r@ == get_bits(self@, 0, 0xffff) as u16,
    {
        let v = field(self.0, 0, 0xffff);
        types::RedundantGpioVoltage::from_bits(v as u16)
    }

    /// GPIO 8 Voltage Result. Corresponds to `R_G8V[15:0]`.
    pub fn r_g8v(&self) -> (r: types::RedundantGpioVoltage)
        ensures
            r@ == get_bits(self@, 16, 0xffff) as u16,
    {
        let v = field(self.0, 16, 0xffff);
        types::RedundantGpioVoltage::from_bits(v as u16)
    }

    /// GPIO 9 Voltage Result. Corresponds to `R_G9V[15:0]`.
    pub fn r_g9v(&self) -> (r: types::RedundantGpioVoltage)
        ensures
            r@ == get_bits(self@, 32, 0xffff) as u16,
    {
        let v = field(self.0, 32, 0xffff);
        types::RedundantGpioVoltage::from_bits(v as u16)
    }
}

impl Default for RedundantAuxillaryC {
    fn default() -> (r: RedundantAuxillaryC)
        ensures
            r@ == 0x800080008000u64,
    {
        RedundantAuxillaryC::new()
    }
}

impl ReadableGroup for RedundantAuxillaryC {
    open spec fn spec_read_command() -> (bool, u16) {
        (false, 0b00000011110u16)
    }

    fn read_command() -> (r: CommandFrame) {
        commands::redundant_aux::rdraxc().frame()
    }

    fn from_bytes(bytes: [u8; 6]) -> (r: RedundantAuxillaryC) {
        RedundantAuxillaryC::from_bytes(bytes)
    }
}

/// Redundant Auxillary Register Group D (RAXD). Contains six 1-byte registers (so 6 bytes total).
///
/// Just contains GPIO 10.
///
/// See Table 88 on page 67 of the datasheet.
#[derive(Clone, Copy, Debug, PartialEq, Eq)]
pub struct RedundantAuxillaryD(u64);

impl View for RedundantAuxillaryD {
    type V = u64;

    /// The raw bits of the layout.
    closed spec fn view(&self) -> u64 {
        self.0
    }
}

impl RedundantAuxillaryD {
    /// The value every field takes at power-up.
    pub fn new() -> (r: RedundantAuxillaryD)
        ensures
            r@ == 0xffffffff8000u64,
    {
        RedundantAuxillaryD(0xffffffff8000)
    }

    /// Wraps raw bits.
    pub fn from_bits(bits: u64) -> (r: RedundantAuxillaryD)
        ensures
            r@ == bits,
    {
        RedundantAuxillaryD(bits)
    }

    /// The raw bits.
    pub fn into_bits(self) -> (r: u64)
        ensures
            r == self@,
    {
        self.0
    }

    /// Serializes the register group into its six payload bytes, byte 0 first.
    pub fn to_bytes(self) -> (r: [u8; 6])
        ensures
            r@ == le_bytes6(self@),
    {
        to_le6(self.0)
    }

    /// Reconstructs the register group from its six payload bytes, byte 0 first.
    pub fn from_bytes(bytes: [u8; 6]) -> (r: RedundantAuxillaryD)
        ensures
            r@ == from_le6(bytes@),
    {
        RedundantAuxillaryD(of_le6(bytes))
    }

    /// GPIO 10 Voltage Result. Corresponds to `R_G10V[15:0]`.
    pub fn r_g10v(&self) -> (r: types::RedundantGpioVoltage)
        ensures
            r@ == get_bits(self@, 0, 0xffff) as u16,
    {
        let v = field(self.0, 0, 0xffff);
        types::RedundantGpioVoltage::from_bits(v as u16)
    }
}

impl Default for RedundantAuxillaryD {
    fn default() -> (r: RedundantAuxillaryD)
        ensures
            r@ == 0xffffffff8000u64,
    {
        RedundantAuxillaryD::new()
    }
}

impl ReadableGroup for RedundantAuxillaryD {
    open spec fn spec_read_command() -> (bool, u16) {
        (false, 0b00000100101u16)
    }

    fn read_command() -> (r: CommandFrame) {
        commands::redundant_aux::rdraxd().frame()
    }

    fn from_bytes(bytes: [u8; 6]) -> (r: RedundantAuxillaryD) {
        RedundantAuxillaryD::from_bytes(bytes)
    }
}

/// All cell voltage results (Cell Voltage Register Group A through F).
#[derive(Clone, Copy, Debug)]
pub struct CellVoltagesAll {
    /// Cells 1–3 (Cell Voltage Register Group A).
    pub a: CellVoltagesA,
    /// Cells 4–6 (Cell Voltage Register Group B).
    pub b: CellVoltagesB,
    /// Cells 7–9 (Cell Voltage Register Group C).
    pub c: CellVoltagesC,
    /// Cells 10–12 (Cell Voltage Register Group D).
    pub d: CellVoltagesD,
    /// Cells 13–15 (Cell Voltage Register Group E).
    pub e: CellVoltagesE,
    /// Cell 16 (Cell Voltage Register Group F).
    ///
    /// There's only 1 cell in Cell Voltage Register Group F, so this type has to be `types::CellVoltage` instead of `CellVoltagesF`.
    /// Otherwise the serialization would get messed up. Sad! This is bothering me but I may have OCD.
    pub f: types::CellVoltage,
}

/// All average cell voltage results (Average Cell Voltage Register Group A through F).
#[derive(Clone, Copy, Debug)]
pub struct AverageCellVoltagesAll {
    /// Cells 1–3 (Average Cell Voltage Register Group A).
    pub a: AverageCellVoltagesA,
    /// Cells 4–6 (Average Cell Voltage Register Group B).
    pub b: AverageCellVoltagesB,
    /// Cells 7–9 (Average Cell Voltage Register Group C).
    pub c: AverageCellVoltagesC,
    /// Cells 10–12 (Average Cell Voltage Register Group D).
    pub d: AverageCellVoltagesD,
    /// Cells 13–15 (Average Cell Voltage Register Group E).
    pub e: AverageCellVoltagesE,
    /// Cell 16 (Average Cell Voltage Register Group F).
    ///
    /// There's only 1 cell in Average Cell Voltage Register Group F, so this type has to be `types::AverageCellVoltage` instead of `AverageCellVoltagesF`.
    /// Otherwise the serialization would get messed up. Sad! This is bothering me but I may have OCD.
    pub f: types::AverageCellVoltage,
}

/// All filtered cell voltage results (Filtered Cell Voltage Register Group A through F).
#[derive(Clone, Copy, Debug)]
pub struct FilteredCellVoltagesAll {
    /// Cells 1–3 (Filtered Cell Voltage Register Group A).
    pub a: FilteredCellVoltagesA,
    /// Cells 4–6 (Filtered Cell Voltage Register Group B).
    pub b: FilteredCellVoltagesB,
    /// Cells 7–9 (Filtered Cell Voltage Register Group C).
    pub c: FilteredCellVoltagesC,
    /// Cells 10–12 (Filtered Cell Voltage Register Group D).
    pub d: FilteredCellVoltagesD,
    /// Cells 13–15 (Filtered Cell Voltage Register Group E).
    pub e: FilteredCellVoltagesE,
    /// Cell 16 (Filtered Cell Voltage Register Group F).
    ///
    /// There's only 1 cell in Filtered Cell Voltage Register Group F, so this type has to be `types::FilteredCellVoltage` instead of `FilteredCellVoltagesF`.
    /// Otherwise the serialization would get messed up. Sad! This is bothering me but I may have OCD.
    pub f: types::FilteredCellVoltage,
}

/// All S-voltage results (S-Voltage Register Group A through F).
#[derive(Clone, Copy, Debug)]
pub struct SVoltagesAll {
    /// Cells/Pins 1–3 (S-Voltage Register Group A).
    pub a: SVoltagesA,
    /// Cells/Pins 4–6 (S-Voltage Register Group B).
    pub b: SVoltagesB,
    /// Cells/Pins 7–9 (S-Voltage Register Group C).
    pub c: SVoltagesC,
    /// Cells/Pins 10–12 (S-Voltage Register Group D).
    pub d: SVoltagesD,
    /// Cells 13–15 (S-Voltage Register Group E).
    pub e: SVoltagesE,
    /// Cell/Pin 16 (S-Voltage Register Group F).
    ///
    /// There's only 1 cell in S-Voltage Register Group F, so this type has to be `types::SVoltage` instead of `SVoltagesF`.
    /// Otherwise the serialization would get messed up. Sad! This is bothering me but I may have OCD.
    pub f: types::SVoltage,
}

} // verus!
