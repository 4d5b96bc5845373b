//! Field types relavent to Status Register A. See Table 105 on page 71 of the datasheet.

use vstd::prelude::*;

use crate::bits::{field16, get_bits16};
use crate::adbms6830b::adbms6830b_pac::registers::table107::FirstRowRegisters;

verus! {

/// Second reference voltage (VREF2). See Table 105 on page 71 of the datasheet.
///
/// 16-bit ADC measurement value for second reference voltage for second reference = VREF2 × 150 μV +1.5 V.
/// Normal range is within 2.988 V to 3.012 V considering data sheet limits, thermal hysteresis, and long-term drift.
/// Reset to 0x8000 after power-up, sleep, or clear command (CLRAUX)
#[derive(Clone, Copy, Debug, PartialEq, Eq)]
pub struct Vref2 {
    inner: FirstRowRegisters,
}

impl View for Vref2 {
    type V = u16;

    /// The raw 16-bit code.
    closed spec fn view(&self) -> u16 {
        self.inner@
    }
}

impl Vref2 {
    /// The number of protocol bytes this result value occupies.
    pub const BYTES: usize = 2;
    /// Min voltage the register can represent, in microvolts.
    pub const MIN_MICROVOLTS: i32 = FirstRowRegisters::MIN_MICROVOLTS;
    /// Max voltage the register can represent, in microvolts.
    pub const MAX_MICROVOLTS: i32 = FirstRowRegisters::MAX_MICROVOLTS;

    /// The power-up value of the register.
    pub fn new() -> (r: Vref2)
        ensures
            r@ == 0x8000,
    {
        Vref2 { inner: FirstRowRegisters::from_bits(0x8000) }
    }

    /// Serializes into protocol bytes (little-endian) since this is the datasheet register order.
    pub fn to_bytes(self) -> (r: [u8; 2])
        ensures
            r@ == seq![(self@ % 256) as u8, (self@ / 256) as u8],
    {
        self.inner.to_bytes()
    }

    /// Reconstructs from protocol bytes (little-endian).
    pub fn from_bytes(bytes: [u8; 2]) -> (r: Vref2)
        ensures
            r@ == bytes[0] + 256 * bytes[1],
    {
        Vref2 { inner: FirstRowRegisters::from_bytes(bytes) }
    }

    /// Convert from bits.
    pub fn from_bits(bits: u16) -> (r: Vref2)
        ensures
            r@ == bits,
    {
        Vref2 { inner: FirstRowRegisters::from_bits(bits) }
    }

    /// Convert into bits.
    pub fn into_bits(self) -> (r: u16)
        ensures
            r == self@,
    {
        self.inner.into_bits()
    }

    /// Converts a `Vref2` to microvolts.
    pub fn as_microvolts(&self) -> (r: i32)
        ensures
            r == FirstRowRegisters::spec_to_microvolts(self@),
    {
        self.inner.as_microvolts()
    }

    /// Creates a new `Vref2` from an input value in uV.
    ///
    /// This function will return `None` if your input is outside the `MIN_MICROVOLTS`
    /// to `MAX_MICROVOLTS` range.
    pub fn from_microvolts(microvolts: i32) -> (r: Option<Vref2>)
        ensures
            match FirstRowRegisters::spec_from_microvolts(microvolts) {
                Some(code) => r matches Some(v) && v@ == code,
                None => r is None,
            },
    {
        match FirstRowRegisters::from_microvolts(microvolts) {
            Some(inner) => Some(Vref2 { inner }),
            None => None,
        }
    }
}

/// Internal die temperature (ITMP). See Table 105 on page 72 of the datasheet.
///
/// 16-bit ADC measurement value of Internal Die temperature. Temperature measurement voltage = (ITMP × 150
/// μV + 1.5 V)/7.5 mV/°C – 273°C. Reset to 0x7FFF after power-up, sleep, and to 0x8000 after clear command
/// (CLRAUX).
#[derive(Clone, Copy, Debug, PartialEq, Eq)]
pub struct InternalDieTemperature(u16);

impl View for InternalDieTemperature {
    type V = u16;

    /// The raw bits of the layout.
    closed spec fn view(&self) -> u16 {
        self.0
    }
}

impl InternalDieTemperature {
    /// The value every field takes at power-up.
    pub fn new() -> (r: InternalDieTemperature)
        ensures
            r@ == 0x7fffu16,
    {
        InternalDieTemperature(0x7fff)
    }

    /// Wraps raw bits.
    pub fn from_bits(bits: u16) -> (r: InternalDieTemperature)
        ensures
            r@ == bits,
    {
        InternalDieTemperature(bits)
    }

    /// The raw bits.
    pub fn into_bits(self) -> (r: u16)
        ensures
            r == self@,
    {
        self.0
    }

    /// The raw 16-bit code.
    pub fn inner(&self) -> (r: u16)
        ensures
            r == get_bits16(self@, 0, 0xffff),
    {
        let v = field16(self.0, 0, 0xffff);
        v
    }
}

} // verus!
