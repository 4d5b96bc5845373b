//! Communication register (`WRCOMM` / `RDCOMM`) and commands.

use vstd::prelude::*;

pub mod codes;

use crate::bits::{field, get_bits, put, set_bits};
use crate::adbms6830::registers::{AdbmsCommand, AdbmsReadableRegister, AdbmsWritableRegister};

verus! {

/// Starts the communication of the COMM register group (STCOMM).
#[derive(Clone, Copy, Debug)]
pub struct Stcomm {}

impl AdbmsCommand for Stcomm {
    open spec fn spec_command(&self) -> u16 {
        0b11100100011u16
    }

    fn get_command(&self) -> (r: u16) {
        0b11100100011
    }
}


/// COMM Register Group.
#[derive(Clone, Copy, Debug, PartialEq, Eq)]
pub struct Comm(u64);

impl View for Comm {
    type V = u64;

    /// The raw bits of the layout.
    closed spec fn view(&self) -> u64 {
        self.0
    }
}

impl Comm {
    /// The layout with every field at its default.
    pub fn new() -> (r: Comm)
        ensures
            r@ == 0x0u64,
    {
        Comm(0x0)
    }

    /// Wraps raw bits.
    pub fn from_bits(bits: u64) -> (r: Comm)
        ensures
            r@ == bits,
    {
        Comm(bits)
    }

    /// The raw bits.
    pub fn into_bits(self) -> (r: u64)
        ensures
            r == self@,
    {
        self.0
    }

    /// Final control nibble of byte 0. See `codes` when writing.
    pub fn fcom0(&self) -> (r: u8)
        ensures
            r == get_bits(self@, 0, 0xf) as u8,
    {
        let v = field(self.0, 0, 0xf);
        v as u8
    }

    /// This layout with the `fcom0` field replaced.
    pub fn with_fcom0(self, v: u8) -> (r: Comm)
        ensures
            r@ == set_bits(self@, 0, 0xf, v as u64),
    {
        Comm(put(self.0, 0, 0xf, v as u64))
    }

    /// Initial control nibble of byte 0. See `codes` when writing.
    pub fn icom0(&self) -> (r: u8)
        ensures
            r == get_bits(self@, 4, 0xf) as u8,
    {
        let v = field(self.0, 4, 0xf);
        v as u8
    }

    /// This layout with the `icom0` field replaced.
    pub fn with_icom0(self, v: u8) -> (r: Comm)
        ensures
            r@ == set_bits(self@, 4, 0xf, v as u64),
    {
        Comm(put(self.0, 4, 0xf, v as u64))
    }

    /// Data byte 0.
    pub fn d0(&self) -> (r: u8)
        ensures
            r == get_bits(self@, 8, 0xff) as u8,
    {
        let v = field(self.0, 8, 0xff);
        v as u8
    }

    /// This layout with the `d0` field replaced.
    pub fn with_d0(self, v: u8) -> (r: Comm)
        ensures
            r@ == set_bits(self@, 8, 0xff, v as u64),
    {
        Comm(put(self.0, 8, 0xff, v as u64))
    }

    /// The `fcom1` field.
    pub fn fcom1(&self) -> (r: u8)
        ensures
            r == get_bits(self@, 16, 0xf) as u8,
    {
        let v = field(self.0, 16, 0xf);
        v as u8
    }

    /// This layout with the `fcom1` field replaced.
    pub fn with_fcom1(self, v: u8) -> (r: Comm)
        ensures
            r@ == set_bits(self@, 16, 0xf, v as u64),
    {
        Comm(put(self.0, 16, 0xf, v as u64))
    }

    /// The `icom1` field.
    pub fn icom1(&self) -> (r: u8)
        ensures
            r == get_bits(self@, 20, 0xf) as u8,
    {
        let v = field(self.0, 20, 0xf);
        v as u8
    }

    /// This layout with the `icom1` field replaced.
    pub fn with_icom1(self, v: u8) -> (r: Comm)
        ensures
            r@ == set_bits(self@, 20, 0xf, v as u64),
    {
        Comm(put(self.0, 20, 0xf, v as u64))
    }

    /// The `d1` field.
    pub fn d1(&self) -> (r: u8)
        ensures
            r == get_bits(self@, 24, 0xff) as u8,
    {
        let v = field(self.0, 24, 0xff);
        v as u8
    }

    /// This layout with the `d1` field replaced.
    pub fn with_d1(self, v: u8) -> (r: Comm)
        ensures
            r@ == set_bits(self@, 24, 0xff, v as u64),
    {
        Comm(put(self.0, 24, 0xff, v as u64))
    }

    /// The `fcom2` field.
    pub fn fcom2(&self) -> (r: u8)
        ensures
            r == get_bits(self@, 32, 0xf) as u8,
    {
        let v = field(self.0, 32, 0xf);
        v as u8
    }

    /// This layout with the `fcom2` field replaced.
    pub fn with_fcom2(self, v: u8) -> (r: Comm)
        ensures
            r@ == set_bits(self@, 32, 0xf, v as u64),
    {
        Comm(put(self.0, 32, 0xf, v as u64))
    }

    /// The `icom2` field.
    pub fn icom2(&self) -> (r: u8)
        ensures
            r == get_bits(self@, 36, 0xf) as u8,
    {
        let v = field(self.0, 36, 0xf);
        v as u8
    }

    /// This layout with the `icom2` field replaced.
    pub fn with_icom2(self, v: u8) -> (r: Comm)
        ensures
            r@ == set_bits(self@, 36, 0xf, v as u64),
    {
        Comm(put(self.0, 36, 0xf, v as u64))
    }

    /// The `d2` field.
    pub fn d2(&self) -> (r: u8)
        ensures
            r == get_bits(self@, 40, 0xff) as u8,
    {
        let v = field(self.0, 40, 0xff);
        v as u8
    }

    /// This layout with the `d2` field replaced.
    pub fn with_d2(self, v: u8) -> (r: Comm)
        ensures
            r@ == set_bits(self@, 40, 0xff, v as u64),
    {
        Comm(put(self.0, 40, 0xff, v as u64))
    }
}

impl From<u64> for Comm {
    fn from(bits: u64) -> (r: Comm) {
        Comm(bits)
    }
}

impl vstd::std_specs::convert::FromSpecImpl<u64> for Comm {
    open spec fn obeys_from_spec() -> bool {
        true
    }

    open spec fn from_spec(bits: u64) -> Comm {
        Comm::from_bits_spec(bits)
    }
}

impl From<Comm> for u64 {
    fn from(reg: Comm) -> (r: u64) {
        reg.0
    }
}

impl vstd::std_specs::convert::FromSpecImpl<Comm> for u64 {
    open spec fn obeys_from_spec() -> bool {
        true
    }

    open spec fn from_spec(reg: Comm) -> u64 {
        reg@
    }
}

impl Comm {
    /// The layout holding `bits`, as a value in specifications.
    pub closed spec fn from_bits_spec(bits: u64) -> Comm {
        Comm(bits)
    }

    /// A layout is its bits.
    pub proof fn lemma_from_bits_spec(bits: u64)
        ensures
            #[trigger] Comm::from_bits_spec(bits)@ == bits,
    {
    }
}

impl AdbmsReadableRegister for Comm {
    open spec fn spec_read_cmd() -> (u8, u8) {
        (0x07u8, 0x22u8)
    }

    fn read_cmd() -> (r: [u8; 2]) {
        [0x07, 0x22]
    }

    fn from_raw(bits: u64) -> (r: Comm) {
        Comm(bits)
    }
}

impl AdbmsWritableRegister for Comm {
    open spec fn spec_write_cmd() -> (u8, u8) {
        (0x07u8, 0x21u8)
    }

    fn write_cmd() -> (r: [u8; 2]) {
        [0x07, 0x21]
    }

    fn into_raw(self) -> (r: u64) {
        self.0
    }
}


} // verus!
