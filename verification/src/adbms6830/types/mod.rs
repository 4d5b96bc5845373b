//! Typed register layouts for the ADBMS6830.
//!
//! Each register group is one 6-byte payload per IC, held in the low 48 bits of a `u64`; the
//! first field occupies bit 0, so byte 0 of the wire payload is the least significant byte. The
//! top 16 bits are padding and never reach the wire.

use vstd::prelude::*;

pub mod aux;
pub mod comm;
pub mod config;
pub mod misc;
pub mod pwm;
pub mod status;
pub mod voltage;

pub use aux::{ClrAux, AdaxChannels, Adax, Adax2Channels, Adax2, AuxA, AuxB, AuxC, AuxD, RedundantAuxA, RedundantAuxB, RedundantAuxC, RedundantAuxD};
pub use comm::{Stcomm, Comm};
pub use config::{ConfigA, ConfigB, CompThreshold, IirCorner};
pub use misc::{SerialId, Retention, Ulrr};
pub use pwm::{PwmA, PwmB};
pub use status::{ClrFlag, ClOvUv, StatusA, StatusB, StatusC, StatusD, StatusE};
pub use voltage::{Adcv, OwSettings, Adsv, ClrCell, ClrFc, ClrSpin, CellVoltageA, CellVoltageB, CellVoltageC, CellVoltageD, CellVoltageE, CellVoltageF, AvgCellVoltageA, AvgCellVoltageB, AvgCellVoltageC, AvgCellVoltageD, AvgCellVoltageE, AvgCellVoltageF, FilteredCellVoltageA, FilteredCellVoltageB, FilteredCellVoltageC, FilteredCellVoltageD, FilteredCellVoltageE, FilteredCellVoltageF, SVoltageA, SVoltageB, SVoltageC, SVoltageD, SVoltageE, SVoltageF};

verus! {

/// A cell-format voltage code from one of the ADCs: 150 µV per count around 1.5 V; `0x8000` means
/// no valid measurement.
#[derive(Copy, Clone, Debug, PartialEq, Eq, Structural)]
pub struct AdbmsCellVoltage(pub u16);

impl AdbmsCellVoltage {
    /// The raw code.
    pub fn raw(self) -> (r: u16)
        ensures
            r == self.0,
    {
        self.0
    }

    /// Whether the code is `0x8000`, what the chip returns after power-up and after a clear
    /// command: no valid measurement yet.
    pub fn is_cleared(self) -> (r: bool)
        ensures
            r == (self.0 == 0x8000),
    {
        self.0 == 0x8000
    }

    /// The bits the code takes in a register group, as a value in specifications.
    pub open spec fn spec_into_bits(self) -> u16 {
        self.0
    }

    /// The bits the code takes in a register group.
    pub fn into_bits(self) -> (r: u16)
        ensures
            r == self.spec_into_bits(),
    {
        self.0
    }

    /// The code held in register bits.
    pub fn from_bits(bits: u16) -> (r: AdbmsCellVoltage)
        ensures
            r.0 == bits,
    {
        AdbmsCellVoltage(bits)
    }
}

impl Default for AdbmsCellVoltage {
    fn default() -> (r: AdbmsCellVoltage)
        ensures
            r.0 == 0,
    {
        AdbmsCellVoltage(0)
    }
}

/// A chip voltage code: 3.75 mV per count around 37.5 V (the 25x divider undone); `0x8000` after a
/// clear.
#[derive(Copy, Clone, Debug, PartialEq, Eq, Structural)]
pub struct AdbmsChipVoltage(pub u16);

impl AdbmsChipVoltage {
    /// The raw code.
    pub fn raw(self) -> (r: u16)
        ensures
            r == self.0,
    {
        self.0
    }

    /// Whether the code is `0x8000`, what the chip returns after power-up and after a clear
    /// command: no valid measurement yet.
    pub fn is_cleared(self) -> (r: bool)
        ensures
            r == (self.0 == 0x8000),
    {
        self.0 == 0x8000
    }

    /// The bits the code takes in a register group, as a value in specifications.
    pub open spec fn spec_into_bits(self) -> u16 {
        self.0
    }

    /// The bits the code takes in a register group.
    pub fn into_bits(self) -> (r: u16)
        ensures
            r == self.spec_into_bits(),
    {
        self.0
    }

    /// The code held in register bits.
    pub fn from_bits(bits: u16) -> (r: AdbmsChipVoltage)
        ensures
            r.0 == bits,
    {
        AdbmsChipVoltage(bits)
    }
}

impl Default for AdbmsChipVoltage {
    fn default() -> (r: AdbmsChipVoltage)
        ensures
            r.0 == 0,
    {
        AdbmsChipVoltage(0)
    }
}

/// The internal die temperature code: 0.02 °C per count from -73 °C; `0x8000` after `CLRAUX`.
#[derive(Copy, Clone, Debug, PartialEq, Eq, Structural)]
pub struct DieTemp(pub u16);

impl DieTemp {
    /// The raw code.
    pub fn raw(self) -> (r: u16)
        ensures
            r == self.0,
    {
        self.0
    }

    /// Whether the code is `0x8000`, what the chip returns after power-up and after a clear
    /// command: no valid measurement yet.
    pub fn is_cleared(self) -> (r: bool)
        ensures
            r == (self.0 == 0x8000),
    {
        self.0 == 0x8000
    }

    /// The bits the code takes in a register group, as a value in specifications.
    pub open spec fn spec_into_bits(self) -> u16 {
        self.0
    }

    /// The bits the code takes in a register group.
    pub fn into_bits(self) -> (r: u16)
        ensures
            r == self.spec_into_bits(),
    {
        self.0
    }

    /// The code held in register bits.
    pub fn from_bits(bits: u16) -> (r: DieTemp)
        ensures
            r.0 == bits,
    {
        DieTemp(bits)
    }
}

impl Default for DieTemp {
    fn default() -> (r: DieTemp)
        ensures
            r.0 == 0,
    {
        DieTemp(0)
    }
}

/// A 12-bit comparison threshold code: 2.4 mV per count above 1.5 V.
#[derive(Copy, Clone, Debug, PartialEq, Eq, Structural)]
pub struct Threshold(pub u16);

impl Threshold {
    /// The 12-bit code.
    pub fn raw(self) -> (r: u16)
        ensures
            r == self.0 & 0x0FFF,
    {
        self.0 & 0x0FFF
    }

    /// The bits the code takes in a register group, as a value in specifications.
    pub open spec fn spec_into_bits(self) -> u16 {
        self.0 & 0x0FFF
    }

    /// The bits the code takes in a register group: its low 12 bits.
    pub fn into_bits(self) -> (r: u16)
        ensures
            r == self.spec_into_bits(),
    {
        self.0 & 0x0FFF
    }

    /// The code held in register bits.
    pub fn from_bits(bits: u16) -> (r: Threshold)
        ensures
            r.0 == bits,
    {
        Threshold(bits)
    }
}

impl Default for Threshold {
    fn default() -> (r: Threshold)
        ensures
            r.0 == 0,
    {
        Threshold(0)
    }
}

} // verus!
