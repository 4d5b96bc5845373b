//! COMM Register!
//!
//! See the "COMM REGISTER" section on page 42 of the datasheet, as well as the "I2C/SPI MASTER USING GPIOS" section directly above it.

use vstd::prelude::*;

pub mod types;

use crate::bits::{field, from_le6, get_bits, le_bytes6, of_le6, put, set_bits, to_le6};
use crate::adbms6830b::chip::commands::{self, CommandFrame};
use crate::adbms6830b::chip::registers::{ReadableGroup, WritableGroup};
use crate::adbms6830b::chip::commands::frame_bytes_of;

verus! {

/// Write COMM Register for I2C Master.
///
/// See Table 32 on page 42 of the datasheet, and Table 33 on page 42 of the datasheet.
#[derive(Clone, Copy, Debug, PartialEq, Eq)]
pub struct WriteCommI2c(u64);

impl View for WriteCommI2c {
    type V = u64;

    /// The raw bits of the layout.
    closed spec fn view(&self) -> u64 {
        self.0
    }
}

impl WriteCommI2c {
    /// The value every field takes at power-up.
    pub fn new() -> (r: WriteCommI2c)
        ensures
            r@ == 0x0u64,
    {
        WriteCommI2c(0x0)
    }

    /// Wraps raw bits.
    pub fn from_bits(bits: u64) -> (r: WriteCommI2c)
        ensures
            r@ == bits,
    {
        WriteCommI2c(bits)
    }

    /// The raw bits.
    pub fn into_bits(self) -> (r: u64)
        ensures
            r == self@,
    {
        self.0
    }

    /// Serializes the register group into its six payload bytes, byte 0 first.
    pub fn to_bytes(self) -> (r: [u8; 6])
        ensures
            r@ == le_bytes6(self@),
    {
        to_le6(self.0)
    }

    /// Reconstructs the register group from its six payload bytes, byte 0 first.
    pub fn from_bytes(bytes: [u8; 6]) -> (r: WriteCommI2c)
        ensures
            r@ == from_le6(bytes@),
    {
        WriteCommI2c(of_le6(bytes))
    }

    /// FCOM0[3:0]
    pub fn fcom0(&self) -> (r: types::FcomI2cWriteCode)
        ensures
            r == types::FcomI2cWriteCode::spec_from_bits(get_bits(self@, 0, 0xf) as u8),
    {
        let v = field(self.0, 0, 0xf);
        types::FcomI2cWriteCode::from_bits(v as u8)
    }

    /// This layout with the `fcom0` field replaced.
    pub fn with_fcom0(self, v: types::FcomI2cWriteCode) -> (r: WriteCommI2c)
        ensures
            r@ == set_bits(self@, 0, 0xf, v@ as u64),
    {
        WriteCommI2c(put(self.0, 0, 0xf, v.into_bits() as u64))
    }

    /// ICOM0[3:0]
    pub fn icom0(&self) -> (r: types::IcomI2cWriteCode)
        ensures
            r == types::IcomI2cWriteCode::spec_from_bits(get_bits(self@, 4, 0xf) as u8),
    {
        let v = field(self.0, 4, 0xf);
        types::IcomI2cWriteCode::from_bits(v as u8)
    }

    /// This layout with the `icom0` field replaced.
    pub fn with_icom0(self, v: types::IcomI2cWriteCode) -> (r: WriteCommI2c)
        ensures
            r@ == set_bits(self@, 4, 0xf, v@ as u64),
    {
        WriteCommI2c(put(self.0, 4, 0xf, v.into_bits() as u64))
    }

    /// Data Byte 0 (D0[7:0])
    pub fn data0(&self) -> (r: u8)
        ensures
            r == get_bits(self@, 8, 0xff) as u8,
    {
        let v = field(self.0, 8, 0xff);
        v as u8
    }

    /// This layout with the `data0` field replaced.
    pub fn with_data0(self, v: u8) -> (r: WriteCommI2c)
        ensures
            r@ == set_bits(self@, 8, 0xff, v as u64),
    {
        WriteCommI2c(put(self.0, 8, 0xff, v as u64))
    }

    /// FCOM1[3:0]
    pub fn fcom1(&self) -> (r: types::FcomI2cWriteCode)
        ensures
            r == types::FcomI2cWriteCode::spec_from_bits(get_bits(self@, 16, 0xf) as u8),
    {
        let v = field(self.0, 16, 0xf);
        types::FcomI2cWriteCode::from_bits(v as u8)
    }

    /// This layout with the `fcom1` field replaced.
    pub fn with_fcom1(self, v: types::FcomI2cWriteCode) -> (r: WriteCommI2c)
        ensures
            r@ == set_bits(self@, 16, 0xf, v@ as u64),
    {
        WriteCommI2c(put(self.0, 16, 0xf, v.into_bits() as u64))
    }

    /// ICOM1[3:0]
    pub fn icom1(&self) -> (r: types::IcomI2cWriteCode)
        ensures
            r == types::IcomI2cWriteCode::spec_from_bits(get_bits(self@, 20, 0xf) as u8),
    {
        let v = field(self.0, 20, 0xf);
        types::IcomI2cWriteCode::from_bits(v as u8)
    }

    /// This layout with the `icom1` field replaced.
    pub fn with_icom1(self, v: types::IcomI2cWriteCode) -> (r: WriteCommI2c)
        ensures
            r@ == set_bits(self@, 20, 0xf, v@ as u64),
    {
        WriteCommI2c(put(self.0, 20, 0xf, v.into_bits() as u64))
    }

    /// Data Byte 1 (D1[7:0])
    pub fn data1(&self) -> (r: u8)
        ensures
            r == get_bits(self@, 24, 0xff) as u8,
    {
        let v = field(self.0, 24, 0xff);
        v as u8
    }

    /// This layout with the `data1` field replaced.
    pub fn with_data1(self, v: u8) -> (r: WriteCommI2c)
        ensures
            r@ == set_bits(self@, 24, 0xff, v as u64),
    {
        WriteCommI2c(put(self.0, 24, 0xff, v as u64))
    }

    /// FCOM2[3:0]
    pub fn fcom2(&self) -> (r: types::FcomI2cWriteCode)
        ensures
            r == types::FcomI2cWriteCode::spec_from_bits(get_bits(self@, 32, 0xf) as u8),
    {
        let v = field(self.0, 32, 0xf);
        types::FcomI2cWriteCode::from_bits(v as u8)
    }

    /// This layout with the `fcom2` field replaced.
    pub fn with_fcom2(self, v: types::FcomI2cWriteCode) -> (r: WriteCommI2c)
        ensures
            r@ == set_bits(self@, 32, 0xf, v@ as u64),
    {
        WriteCommI2c(put(self.0, 32, 0xf, v.into_bits() as u64))
    }

    /// ICOM2[3:0]
    pub fn icom2(&self) -> (r: types::IcomI2cWriteCode)
        ensures
            r == types::IcomI2cWriteCode::spec_from_bits(get_bits(self@, 36, 0xf) as u8),
    {
        let v = field(self.0, 36, 0xf);
        types::IcomI2cWriteCode::from_bits(v as u8)
    }

    /// This layout with the `icom2` field replaced.
    pub fn with_icom2(self, v: types::IcomI2cWriteCode) -> (r: WriteCommI2c)
        ensures
            r@ == set_bits(self@, 36, 0xf, v@ as u64),
    {
        WriteCommI2c(put(self.0, 36, 0xf, v.into_bits() as u64))
    }

    /// Data Byte 2 D2[7:0]
    pub fn data2(&self) -> (r: u8)
        ensures
            r == get_bits(self@, 40, 0xff) as u8,
    {
        let v = field(self.0, 40, 0xff);
        v as u8
    }

    /// This layout with the `data2` field replaced.
    pub fn with_data2(self, v: u8) -> (r: WriteCommI2c)
        ensures
            r@ == set_bits(self@, 40, 0xff, v as u64),
    {
        WriteCommI2c(put(self.0, 40, 0xff, v as u64))
    }
}

impl Default for WriteCommI2c {
    fn default() -> (r: WriteCommI2c)
        ensures
            r@ == 0x0u64,
    {
        WriteCommI2c::new()
    }
}

impl WritableGroup for WriteCommI2c {
    open spec fn spec_write_command() -> (bool, u16) {
        (true, 0b11100100001u16)
    }

    fn write_command() -> (r: CommandFrame) {
        commands::comm::wrcomm().frame()
    }

    fn to_bytes(self) -> (r: [u8; 6]) {
        WriteCommI2c::to_bytes(self)
    }
}

/// Write COMM Register for SPI Master.
///
/// See Table 32 on page 42 of the datasheet, and Table 34 on page 42 of the datasheet.
#[derive(Clone, Copy, Debug, PartialEq, Eq)]
pub struct WriteCommSpi(u64);

impl View for WriteCommSpi {
    type V = u64;

    /// The raw bits of the layout.
    closed spec fn view(&self) -> u64 {
        self.0
    }
}

impl WriteCommSpi {
    /// The value every field takes at power-up.
    pub fn new() -> (r: WriteCommSpi)
        ensures
            r@ == 0x8000800080u64,
    {
        WriteCommSpi(0x8000800080)
    }

    /// Wraps raw bits.
    pub fn from_bits(bits: u64) -> (r: WriteCommSpi)
        ensures
            r@ == bits,
    {
        WriteCommSpi(bits)
    }

    /// The raw bits.
    pub fn into_bits(self) -> (r: u64)
        ensures
            r == self@,
    {
        self.0
    }

    /// Serializes the register group into its six payload bytes, byte 0 first.
    pub fn to_bytes(self) -> (r: [u8; 6])
        ensures
            r@ == le_bytes6(self@),
    {
        to_le6(self.0)
    }

    /// Reconstructs the register group from its six payload bytes, byte 0 first.
    pub fn from_bytes(bytes: [u8; 6]) -> (r: WriteCommSpi)
        ensures
            r@ == from_le6(bytes@),
    {
        WriteCommSpi(of_le6(bytes))
    }

    /// FCOM0[3:0]
    pub fn fcom0(&self) -> (r: types::FcomSpiWriteCode)
        ensures
            r == types::FcomSpiWriteCode::spec_from_bits(get_bits(self@, 0, 0xf) as u8),
    {
        let v = field(self.0, 0, 0xf);
        types::FcomSpiWriteCode::from_bits(v as u8)
    }

    /// This layout with the `fcom0` field replaced.
    pub fn with_fcom0(self, v: types::FcomSpiWriteCode) -> (r: WriteCommSpi)
        ensures
            r@ == set_bits(self@, 0, 0xf, v@ as u64),
    {
        WriteCommSpi(put(self.0, 0, 0xf, v.into_bits() as u64))
    }

    /// ICOM0[3:0]
    pub fn icom0(&self) -> (r: types::IcomSpiWriteCode)
        ensures
            r == types::IcomSpiWriteCode::spec_from_bits(get_bits(self@, 4, 0xf) as u8),
    {
        let v = field(self.0, 4, 0xf);
        types::IcomSpiWriteCode::from_bits(v as u8)
    }

    /// This layout with the `icom0` field replaced.
    pub fn with_icom0(self, v: types::IcomSpiWriteCode) -> (r: WriteCommSpi)
        ensures
            r@ == set_bits(self@, 4, 0xf, v@ as u64),
    {
        WriteCommSpi(put(self.0, 4, 0xf, v.into_bits() as u64))
    }

    /// Data Byte 0 (D0[7:0])
    pub fn data0(&self) -> (r: u8)
        ensures
            r == get_bits(self@, 8, 0xff) as u8,
    {
        let v = field(self.0, 8, 0xff);
        v as u8
    }

    /// This layout with the `data0` field replaced.
    pub fn with_data0(self, v: u8) -> (r: WriteCommSpi)
        ensures
            r@ == set_bits(self@, 8, 0xff, v as u64),
    {
        WriteCommSpi(put(self.0, 8, 0xff, v as u64))
    }

    /// FCOM1[3:0]
    pub fn fcom1(&self) -> (r: types::FcomSpiWriteCode)
        ensures
            r == types::FcomSpiWriteCode::spec_from_bits(get_bits(self@, 16, 0xf) as u8),
    {
        let v = field(self.0, 16, 0xf);
        types::FcomSpiWriteCode::from_bits(v as u8)
    }

    /// This layout with the `fcom1` field replaced.
    pub fn with_fcom1(self, v: types::FcomSpiWriteCode) -> (r: WriteCommSpi)
        ensures
            r@ == set_bits(self@, 16, 0xf, v@ as u64),
    {
        WriteCommSpi(put(self.0, 16, 0xf, v.into_bits() as u64))
    }

    /// ICOM1[3:0]
    pub fn icom1(&self) -> (r: types::IcomSpiWriteCode)
        ensures
            r == types::IcomSpiWriteCode::spec_from_bits(get_bits(self@, 20, 0xf) as u8),
    {
        let v = field(self.0, 20, 0xf);
        types::IcomSpiWriteCode::from_bits(v as u8)
    }

    /// This layout with the `icom1` field replaced.
    pub fn with_icom1(self, v: types::IcomSpiWriteCode) -> (r: WriteCommSpi)
        ensures
            r@ == set_bits(self@, 20, 0xf, v@ as u64),
    {
        WriteCommSpi(put(self.0, 20, 0xf, v.into_bits() as u64))
    }

    /// Data Byte 1 (D1[7:0])
    pub fn data1(&self) -> (r: u8)
        ensures
            r == get_bits(self@, 24, 0xff) as u8,
    {
        let v = field(self.0, 24, 0xff);
        v as u8
    }

    /// This layout with the `data1` field replaced.
    pub fn with_data1(self, v: u8) -> (r: WriteCommSpi)
        ensures
            r@ == set_bits(self@, 24, 0xff, v as u64),
    {
        WriteCommSpi(put(self.0, 24, 0xff, v as u64))
    }

    /// FCOM2[3:0]
    pub fn fcom2(&self) -> (r: types::FcomSpiWriteCode)
        ensures
            r == types::FcomSpiWriteCode::spec_from_bits(get_bits(self@, 32, 0xf) as u8),
    {
        let v = field(self.0, 32, 0xf);
        types::FcomSpiWriteCode::from_bits(v as u8)
    }

    /// This layout with the `fcom2` field replaced.
    pub fn with_fcom2(self, v: types::FcomSpiWriteCode) -> (r: WriteCommSpi)
        ensures
            r@ == set_bits(self@, 32, 0xf, v@ as u64),
    {
        WriteCommSpi(put(self.0, 32, 0xf, v.into_bits() as u64))
    }

    /// ICOM2[3:0]
    pub fn icom2(&self) -> (r: types::IcomSpiWriteCode)
        ensures
            r == types::IcomSpiWriteCode::spec_from_bits(get_bits(self@, 36, 0xf) as u8),
    {
        let v = field(self.0, 36, 0xf);
        types::IcomSpiWriteCode::from_bits(v as u8)
    }

    /// This layout with the `icom2` field replaced.
    pub fn with_icom2(self, v: types::IcomSpiWriteCode) -> (r: WriteCommSpi)
        ensures
            r@ == set_bits(self@, 36, 0xf, v@ as u64),
    {
        WriteCommSpi(put(self.0, 36, 0xf, v.into_bits() as u64))
    }

    /// Data Byte 2 D2[7:0]
    pub fn data2(&self) -> (r: u8)
        ensures
            r == get_bits(self@, 40, 0xff) as u8,
    {
        let v = field(self.0, 40, 0xff);
        v as u8
    }

    /// This layout with the `data2` field replaced.
    pub fn with_data2(self, v: u8) -> (r: WriteCommSpi)
        ensures
            r@ == set_bits(self@, 40, 0xff, v as u64),
    {
        WriteCommSpi(put(self.0, 40, 0xff, v as u64))
    }
}

impl Default for WriteCommSpi {
    fn default() -> (r: WriteCommSpi)
        ensures
            r@ == 0x8000800080u64,
    {
        WriteCommSpi::new()
    }
}

impl WritableGroup for WriteCommSpi {
    open spec fn spec_write_command() -> (bool, u16) {
        (true, 0b11100100001u16)
    }

    fn write_command() -> (r: CommandFrame) {
        commands::comm::wrcomm().frame()
    }

    fn to_bytes(self) -> (r: [u8; 6]) {
        WriteCommSpi::to_bytes(self)
    }
}

/// Read COMM Register for I2C Master.
///
/// See Table 32 on page 42 of the datasheet, and Table 35 on page 43 of the datasheet.
#[derive(Clone, Copy, Debug, PartialEq, Eq)]
pub struct ReadCommI2c(u64);

impl View for ReadCommI2c {
    type V = u64;

    /// The raw bits of the layout.
    closed spec fn view(&self) -> u64 {
        self.0
    }
}

impl ReadCommI2c {
    /// The value every field takes at power-up.
    pub fn new() -> (r: ReadCommI2c)
        ensures
            r@ == 0x8800880088u64,
    {
        ReadCommI2c(0x8800880088)
    }

    /// Wraps raw bits.
    pub fn from_bits(bits: u64) -> (r: ReadCommI2c)
        ensures
            r@ == bits,
    {
        ReadCommI2c(bits)
    }

    /// The raw bits.
    pub fn into_bits(self) -> (r: u64)
        ensures
            r == self@,
    {
        self.0
    }

    /// Serializes the register group into its six payload bytes, byte 0 first.
    pub fn to_bytes(self) -> (r: [u8; 6])
        ensures
            r@ == le_bytes6(self@),
    {
        to_le6(self.0)
    }

    /// Reconstructs the register group from its six payload bytes, byte 0 first.
    pub fn from_bytes(bytes: [u8; 6]) -> (r: ReadCommI2c)
        ensures
            r@ == from_le6(bytes@),
    {
        ReadCommI2c(of_le6(bytes))
    }

    /// FCOM0[3:0]
    pub fn fcom0(&self) -> (r: types::FcomI2cReadCode)
        ensures
            r == types::FcomI2cReadCode::spec_from_bits(get_bits(self@, 0, 0xf) as u8),
    {
        let v = field(self.0, 0, 0xf);
        types::FcomI2cReadCode::from_bits(v as u8)
    }

    /// ICOM0[3:0]
    pub fn icom0(&self) -> (r: types::IcomI2cReadCode)
        ensures
            r == types::IcomI2cReadCode::spec_from_bits(get_bits(self@, 4, 0xf) as u8),
    {
        let v = field(self.0, 4, 0xf);
        types::IcomI2cReadCode::from_bits(v as u8)
    }

    /// Data Byte 0 (D0[7:0])
    pub fn data0(&self) -> (r: u8)
        ensures
            r == get_bits(self@, 8, 0xff) as u8,
    {
        let v = field(self.0, 8, 0xff);
        v as u8
    }

    /// FCOM1[3:0]
    pub fn fcom1(&self) -> (r: types::FcomI2cReadCode)
        ensures
            r == types::FcomI2cReadCode::spec_from_bits(get_bits(self@, 16, 0xf) as u8),
    {
        let v = field(self.0, 16, 0xf);
        types::FcomI2cReadCode::from_bits(v as u8)
    }

    /// ICOM1[3:0]
    pub fn icom1(&self) -> (r: types::IcomI2cReadCode)
        ensures
            r == types::IcomI2cReadCode::spec_from_bits(get_bits(self@, 20, 0xf) as u8),
    {
        let v = field(self.0, 20, 0xf);
        types::IcomI2cReadCode::from_bits(v as u8)
    }

    /// Data Byte 1 (D1[7:0])
    pub fn data1(&self) -> (r: u8)
        ensures
            r == get_bits(self@, 24, 0xff) as u8,
    {
        let v = field(self.0, 24, 0xff);
        v as u8
    }

    /// FCOM2[3:0]
    pub fn fcom2(&self) -> (r: types::FcomI2cReadCode)
        ensures
            r == types::FcomI2cReadCode::spec_from_bits(get_bits(self@, 32, 0xf) as u8),
    {
        let v = field(self.0, 32, 0xf);
        types::FcomI2cReadCode::from_bits(v as u8)
    }

    /// ICOM2[3:0]
    pub fn icom2(&self) -> (r: types::IcomI2cReadCode)
        ensures
            r == types::IcomI2cReadCode::spec_from_bits(get_bits(self@, 36, 0xf) as u8),
    {
        let v = field(self.0, 36, 0xf);
        types::IcomI2cReadCode::from_bits(v as u8)
    }

    /// Data Byte 2 D2[7:0]
    pub fn data2(&self) -> (r: u8)
        ensures
            r == get_bits(self@, 40, 0xff) as u8,
    {
        let v = field(self.0, 40, 0xff);
        v as u8
    }
}

impl Default for ReadCommI2c {
    fn default() -> (r: ReadCommI2c)
        ensures
            r@ == 0x8800880088u64,
    {
        ReadCommI2c::new()
    }
}

impl ReadableGroup for ReadCommI2c {
    open spec fn spec_read_command() -> (bool, u16) {
        (false, 0b11100100010u16)
    }

    fn read_command() -> (r: CommandFrame) {
        commands::comm::rdcomm().frame()
    }

    fn from_bytes(bytes: [u8; 6]) -> (r: ReadCommI2c) {
        ReadCommI2c::from_bytes(bytes)
    }
}

/// Read COMM Register for SPI Master.
///
/// See Table 32 on page 42 of the datasheet. There's no table specifically for the SPI read ICOM/FCOM values
/// since the datasheet says that they are always ICOMx[3:0]=0b0111 and FCOMx[3:0]=0b1111 respectively for SPI
/// reads (see near the top right of page 43 of the datasheet).
#[derive(Clone, Copy, Debug, PartialEq, Eq)]
pub struct ReadCommSpi(u64);

impl View for ReadCommSpi {
    type V = u64;

    /// The raw bits of the layout.
    closed spec fn view(&self) -> u64 {
        self.0
    }
}

impl ReadCommSpi {
    /// The value every field takes at power-up.
    pub fn new() -> (r: ReadCommSpi)
        ensures
            r@ == 0x0u64,
    {
        ReadCommSpi(0x0)
    }

    /// Wraps raw bits.
    pub fn from_bits(bits: u64) -> (r: ReadCommSpi)
        ensures
            r@ == bits,
    {
        ReadCommSpi(bits)
    }

    /// The raw bits.
    pub fn into_bits(self) -> (r: u64)
        ensures
            r == self@,
    {
        self.0
    }

    /// Serializes the register group into its six payload bytes, byte 0 first.
    pub fn to_bytes(self) -> (r: [u8; 6])
        ensures
            r@ == le_bytes6(self@),
    {
        to_le6(self.0)
    }

    /// Reconstructs the register group from its six payload bytes, byte 0 first.
    pub fn from_bytes(bytes: [u8; 6]) -> (r: ReadCommSpi)
        ensures
            r@ == from_le6(bytes@),
    {
        ReadCommSpi(of_le6(bytes))
    }

    /// FCOM0[3:0]
    pub fn fcom0(&self) -> (r: types::FcomSpiReadCode)
        ensures
            r == types::FcomSpiReadCode::spec_from_bits(get_bits(self@, 0, 0xf) as u8),
    {
        let v = field(self.0, 0, 0xf);
        types::FcomSpiReadCode::from_bits(v as u8)
    }

    /// ICOM0[3:0]
    pub fn icom0(&self) -> (r: types::IcomSpiReadCode)
        ensures
            r == types::IcomSpiReadCode::spec_from_bits(get_bits(self@, 4, 0xf) as u8),
    {
        let v = field(self.0, 4, 0xf);
        types::IcomSpiReadCode::from_bits(v as u8)
    }

    /// Data Byte 0 (D0[7:0])
    pub fn data0(&self) -> (r: u8)
        ensures
            r == get_bits(self@, 8, 0xff) as u8,
    {
        let v = field(self.0, 8, 0xff);
        v as u8
    }

    /// FCOM1[3:0]
    pub fn fcom1(&self) -> (r: types::FcomSpiReadCode)
        ensures
            r == types::FcomSpiReadCode::spec_from_bits(get_bits(self@, 16, 0xf) as u8),
    {
        let v = field(self.0, 16, 0xf);
        types::FcomSpiReadCode::from_bits(v as u8)
    }

    /// ICOM1[3:0]
    pub fn icom1(&self) -> (r: types::IcomSpiReadCode)
        ensures
            r == types::IcomSpiReadCode::spec_from_bits(get_bits(self@, 20, 0xf) as u8),
    {
        let v = field(self.0, 20, 0xf);
        types::IcomSpiReadCode::from_bits(v as u8)
    }

    /// Data Byte 1 (D1[7:0])
    pub fn data1(&self) -> (r: u8)
        ensures
            r == get_bits(self@, 24, 0xff) as u8,
    {
        let v = field(self.0, 24, 0xff);
        v as u8
    }

    /// FCOM2[3:0]
    pub fn fcom2(&self) -> (r: types::FcomSpiReadCode)
        ensures
            r == types::FcomSpiReadCode::spec_from_bits(get_bits(self@, 32, 0xf) as u8),
    {
        let v = field(self.0, 32, 0xf);
        types::FcomSpiReadCode::from_bits(v as u8)
    }

    /// ICOM2[3:0]
    pub fn icom2(&self) -> (r: types::IcomSpiReadCode)
        ensures
            r == types::IcomSpiReadCode::spec_from_bits(get_bits(self@, 36, 0xf) as u8),
    {
        let v = field(self.0, 36, 0xf);
        types::IcomSpiReadCode::from_bits(v as u8)
    }

    /// Data Byte 2 D2[7:0]
    pub fn data2(&self) -> (r: u8)
        ensures
            r == get_bits(self@, 40, 0xff) as u8,
    {
        let v = field(self.0, 40, 0xff);
        v as u8
    }
}

impl Default for ReadCommSpi {
    fn default() -> (r: ReadCommSpi)
        ensures
            r@ == 0x0u64,
    {
        ReadCommSpi::new()
    }
}

impl ReadableGroup for ReadCommSpi {
    open spec fn spec_read_command() -> (bool, u16) {
        (false, 0b11100100010u16)
    }

    fn read_command() -> (r: CommandFrame) {
        commands::comm::rdcomm().frame()
    }

    fn from_bytes(bytes: [u8; 6]) -> (r: ReadCommSpi) {
        ReadCommSpi::from_bytes(bytes)
    }
}

/// A complete protocol frame for the `STCOMM` command, which starts the I2C/SPI transaction that
/// `WRCOMM` staged in the COMM register.
#[derive(Clone, Copy, Debug)]
pub struct StCommFrame {
    command: commands::CommandFrame,
}

impl View for StCommFrame {
    type V = (bool, u16);

    /// The command the frame carries.
    closed spec fn view(&self) -> (bool, u16) {
        self.command@
    }
}

impl StCommFrame {
    /// Number of data byte slots in the COMM register (`D0`, `D1`, `D2`).
    pub const DATA_SLOTS: usize = 3;
    /// Clock cycles the device needs to shift each data byte out of the GPIO port.
    /// See page 43 of the datasheet, and figure 25/26.
    pub const CLOCKS_PER_DATA_SLOT: usize = 24;
    /// Bytes of trailing clocking that must follow the command: `3 * 24 / 8` = 9.
    pub const TRAILING_BYTES: usize = 9;
    /// Total length of the frame. It is four command bytes plus the trailing clocking.
    pub const BYTES: usize = 13;

    /// The frame is the STCOMM command with its own PEC.
    pub closed spec fn well_formed(self) -> bool {
        self.command.well_formed()
    }

    /// Builds an `StCommFrame`.
    pub fn new() -> (r: StCommFrame)
        ensures
            r@ == (true, 0b11100100011u16),
            r.well_formed(),
    {
        StCommFrame { command: commands::comm::stcomm().frame() }
    }

    /// Serializes the frame into bytes, for sending.
    ///
    /// Transmit all of these in a single transfer with CSB held low, and then raise CSB.
    pub fn to_bytes(self) -> (r: [u8; 13])
        requires
            self.well_formed(),
        ensures
            r@ == frame_bytes_of(self@.1) + seq![0u8, 0, 0, 0, 0, 0, 0, 0, 0],
    {
        let b = self.command.to_bytes();
        let r = [b[0], b[1], b[2], b[3], 0, 0, 0, 0, 0, 0, 0, 0, 0];
        assert(r@ =~= frame_bytes_of(self@.1) + seq![0u8, 0, 0, 0, 0, 0, 0, 0, 0]);
        r
    }

    /// The command portion of this frame.
    pub fn command(&self) -> (r: commands::CommandFrame)
        ensures
            r@ == self@,
            self.well_formed() ==> r.well_formed(),
    {
        self.command
    }
}

impl Default for StCommFrame {
    fn default() -> (r: StCommFrame)
        ensures
            r@ == (true, 0b11100100011u16),
            r.well_formed(),
    {
        StCommFrame::new()
    }
}

} // verus!
