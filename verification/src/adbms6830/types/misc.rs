//! Miscellaneous registers: the serial ID (read-only) and the 48-bit retention register.

use vstd::prelude::*;

use crate::bits::{field, get_bits, put, set_bits};
use crate::adbms6830::registers::{AdbmsCommand, AdbmsReadableRegister, AdbmsWritableRegister};

verus! {

/// Serial ID Register Group (`RDSID`).
///
/// 48 bits total: a unique per-chip ID plus a 6-bit device identification
/// (datasheet Table 54). The whole field is exposed as a single `u64` for
/// downstream hashing / logging; [`SerialId::device_id`] extracts the 6
/// identification bits (expected value `0b000011` for the ADBMS6830B).
#[derive(Clone, Copy, Debug, PartialEq, Eq)]
pub struct SerialId(u64);

impl View for SerialId {
    type V = u64;

    /// The raw bits of the layout.
    closed spec fn view(&self) -> u64 {
        self.0
    }
}

impl SerialId {
    /// The layout with every field at its default.
    pub fn new() -> (r: SerialId)
        ensures
            r@ == 0x0u64,
    {
        SerialId(0x0)
    }

    /// Wraps raw bits.
    pub fn from_bits(bits: u64) -> (r: SerialId)
        ensures
            r@ == bits,
    {
        SerialId(bits)
    }

    /// The raw bits.
    pub fn into_bits(self) -> (r: u64)
        ensures
            r == self@,
    {
        self.0
    }

    /// Raw 48-bit ID, byte 0 in the low bits and byte 5 in the high bits.
    pub fn raw(&self) -> (r: u64)
        ensures
            r == get_bits(self@, 0, 0xffffffffffff),
    {
        let v = field(self.0, 0, 0xffffffffffff);
        v
    }

    /// This layout with the `raw` field replaced.
    pub fn with_raw(self, v: u64) -> (r: SerialId)
        ensures
            r@ == set_bits(self@, 0, 0xffffffffffff, v as u64),
    {
        SerialId(put(self.0, 0, 0xffffffffffff, v as u64))
    }

    /// The device identifier in `SIDR1`.
    pub fn device_id(&self) -> (r: u8)
        ensures
            r == ((get_bits(self@, 0, 0xffffffffffff) >> 9u64) & 0x3F) as u8,
    {
        ((self.raw() >> 9u64) & 0x3F) as u8
    }
}

impl From<u64> for SerialId {
    fn from(bits: u64) -> (r: SerialId) {
        SerialId(bits)
    }
}

impl vstd::std_specs::convert::FromSpecImpl<u64> for SerialId {
    open spec fn obeys_from_spec() -> bool {
        true
    }

    open spec fn from_spec(bits: u64) -> SerialId {
        SerialId::from_bits_spec(bits)
    }
}

impl From<SerialId> for u64 {
    fn from(reg: SerialId) -> (r: u64) {
        reg.0
    }
}

impl vstd::std_specs::convert::FromSpecImpl<SerialId> for u64 {
    open spec fn obeys_from_spec() -> bool {
        true
    }

    open spec fn from_spec(reg: SerialId) -> u64 {
        reg@
    }
}

impl SerialId {
    /// The layout holding `bits`, as a value in specifications.
    pub closed spec fn from_bits_spec(bits: u64) -> SerialId {
        SerialId(bits)
    }

    /// A layout is its bits.
    pub proof fn lemma_from_bits_spec(bits: u64)
        ensures
            #[trigger] SerialId::from_bits_spec(bits)@ == bits,
    {
    }
}

impl AdbmsReadableRegister for SerialId {
    open spec fn spec_read_cmd() -> (u8, u8) {
        (0x00u8, 0x2Cu8)
    }

    fn read_cmd() -> (r: [u8; 2]) {
        [0x00, 0x2C]
    }

    fn from_raw(bits: u64) -> (r: SerialId) {
        SerialId(bits)
    }
}


/// Retention Register Group (`ULRR` / `WRRR` / `RDRR`).
///
/// 48 bits of scratch storage that survives sleep. Writes require the
/// register to be unlocked via the `ULRR` command first.
#[derive(Clone, Copy, Debug, PartialEq, Eq)]
pub struct Retention(u64);

impl View for Retention {
    type V = u64;

    /// The raw bits of the layout.
    closed spec fn view(&self) -> u64 {
        self.0
    }
}

impl Retention {
    /// The layout with every field at its default.
    pub fn new() -> (r: Retention)
        ensures
            r@ == 0x0u64,
    {
        Retention(0x0)
    }

    /// Wraps raw bits.
    pub fn from_bits(bits: u64) -> (r: Retention)
        ensures
            r@ == bits,
    {
        Retention(bits)
    }

    /// The raw bits.
    pub fn into_bits(self) -> (r: u64)
        ensures
            r == self@,
    {
        self.0
    }

    /// Raw 48-bit retention data.
    pub fn raw(&self) -> (r: u64)
        ensures
            r == get_bits(self@, 0, 0xffffffffffff),
    {
        let v = field(self.0, 0, 0xffffffffffff);
        v
    }

    /// This layout with the `raw` field replaced.
    pub fn with_raw(self, v: u64) -> (r: Retention)
        ensures
            r@ == set_bits(self@, 0, 0xffffffffffff, v as u64),
    {
        Retention(put(self.0, 0, 0xffffffffffff, v as u64))
    }
}

impl From<u64> for Retention {
    fn from(bits: u64) -> (r: Retention) {
        Retention(bits)
    }
}

impl vstd::std_specs::convert::FromSpecImpl<u64> for Retention {
    open spec fn obeys_from_spec() -> bool {
        true
    }

    open spec fn from_spec(bits: u64) -> Retention {
        Retention::from_bits_spec(bits)
    }
}

impl From<Retention> for u64 {
    fn from(reg: Retention) -> (r: u64) {
        reg.0
    }
}

impl vstd::std_specs::convert::FromSpecImpl<Retention> for u64 {
    open spec fn obeys_from_spec() -> bool {
        true
    }

    open spec fn from_spec(reg: Retention) -> u64 {
        reg@
    }
}

impl Retention {
    /// The layout holding `bits`, as a value in specifications.
    pub closed spec fn from_bits_spec(bits: u64) -> Retention {
        Retention(bits)
    }

    /// A layout is its bits.
    pub proof fn lemma_from_bits_spec(bits: u64)
        ensures
            #[trigger] Retention::from_bits_spec(bits)@ == bits,
    {
    }
}

impl AdbmsReadableRegister for Retention {
    open spec fn spec_read_cmd() -> (u8, u8) {
        (0x00u8, 0x3Au8)
    }

    fn read_cmd() -> (r: [u8; 2]) {
        [0x00, 0x3A]
    }

    fn from_raw(bits: u64) -> (r: Retention) {
        Retention(bits)
    }
}

impl AdbmsWritableRegister for Retention {
    open spec fn spec_write_cmd() -> (u8, u8) {
        (0x00u8, 0x39u8)
    }

    fn write_cmd() -> (r: [u8; 2]) {
        [0x00, 0x39]
    }

    fn into_raw(self) -> (r: u64) {
        self.0
    }
}


/// Unlocks the retention register (ULRR).
#[derive(Clone, Copy, Debug)]
pub struct Ulrr {}

impl AdbmsCommand for Ulrr {
    open spec fn spec_command(&self) -> u16 {
        0b00000111000u16
    }

    fn get_command(&self) -> (r: u16) {
        0b00000111000
    }
}


} // verus!
