//! Field types relavent to Status Register B. See Table 106 on page 71 of the datasheet.

use vstd::prelude::*;

use crate::adbms6830b::adbms6830b_pac::registers::table107::FirstRowRegisters;

verus! {

/// Digital power supply voltage (VD). See Table 106 on page 71 of the datasheet.
/// VD is off in sleep.
///
/// 16-bit ADC measurement value of digital power supply voltage. Digital power supply voltage = VD × 150 μV +
/// 1.5 V. Normal range is within 2.7 V to 3.6 V. Reset to 0x7FFF after power-up, sleep, and to 0x8000 after clear
/// command (CLRAUX).
#[derive(Clone, Copy, Debug, PartialEq, Eq)]
pub struct DigitalPowerSupplyVoltage {
    inner: FirstRowRegisters,
}

impl View for DigitalPowerSupplyVoltage {
    type V = u16;

    /// The raw 16-bit code.
    closed spec fn view(&self) -> u16 {
        self.inner@
    }
}

impl DigitalPowerSupplyVoltage {
    /// The number of protocol bytes this result value occupies.
    pub const BYTES: usize = 2;
    /// Min voltage the register can represent, in microvolts.
    pub const MIN_MICROVOLTS: i32 = FirstRowRegisters::MIN_MICROVOLTS;
    /// Max voltage the register can represent, in microvolts.
    pub const MAX_MICROVOLTS: i32 = FirstRowRegisters::MAX_MICROVOLTS;

    /// The power-up value of the register.
    pub fn new() -> (r: DigitalPowerSupplyVoltage)
        ensures
            r@ == 0x7fff,
    {
        DigitalPowerSupplyVoltage { inner: FirstRowRegisters::from_bits(0x7fff) }
    }

    /// Serializes into protocol bytes (little-endian) since this is the datasheet register order.
    pub fn to_bytes(self) -> (r: [u8; 2])
        ensures
            r@ == seq![(self@ % 256) as u8, (self@ / 256) as u8],
    {
        self.inner.to_bytes()
    }

    /// Reconstructs from protocol bytes (little-endian).
    pub fn from_bytes(bytes: [u8; 2]) -> (r: DigitalPowerSupplyVoltage)
        ensures
            r@ == bytes[0] + 256 * bytes[1],
    {
        DigitalPowerSupplyVoltage { inner: FirstRowRegisters::from_bytes(bytes) }
    }

    /// Convert from bits.
    pub fn from_bits(bits: u16) -> (r: DigitalPowerSupplyVoltage)
        ensures
            r@ == bits,
    {
        DigitalPowerSupplyVoltage { inner: FirstRowRegisters::from_bits(bits) }
    }

    /// Convert into bits.
    pub fn into_bits(self) -> (r: u16)
        ensures
            r == self@,
    {
        self.inner.into_bits()
    }

    /// Converts a `DigitalPowerSupplyVoltage` to microvolts.
    pub fn as_microvolts(&self) -> (r: i32)
        ensures
            r == FirstRowRegisters::spec_to_microvolts(self@),
    {
        self.inner.as_microvolts()
    }

    /// Creates a new `DigitalPowerSupplyVoltage` from an input value in uV.
    ///
    /// This function will return `None` if your input is outside the `MIN_MICROVOLTS`
    /// to `MAX_MICROVOLTS` range.
    pub fn from_microvolts(microvolts: i32) -> (r: Option<DigitalPowerSupplyVoltage>)
        ensures
            match FirstRowRegisters::spec_from_microvolts(microvolts) {
                Some(code) => r matches Some(v) && v@ == code,
                None => r is None,
            },
    {
        match FirstRowRegisters::from_microvolts(microvolts) {
            Some(inner) => Some(DigitalPowerSupplyVoltage { inner }),
            None => None,
        }
    }
}

/// Analog power supply voltage (VA). See Table 106 on page 71 of the datasheet.
/// voltage = voltage at the V_REG pin. VD is off in sleep.
///
/// Note: "VD is off in sleep" is taken directly from the datasheet but maybe whoever wrote the datasheet meant to say "VA is off in sleep"? Or maybe not. I do not know
///
/// 6-bit ADC measurement value of analog power supply voltage. Analog power supply voltage = VA × 150 μV + 1.5
/// V. The value of VA is set by external components and must be in the range of 4.5 V to 5.5 V for normal operation.
/// Reset to 0x7FFF after power-up, sleep, and to 0x8000 after clear command (CLRAUX).
#[derive(Clone, Copy, Debug, PartialEq, Eq)]
pub struct AnalogPowerSupplyVoltage {
    inner: FirstRowRegisters,
}

impl View for AnalogPowerSupplyVoltage {
    type V = u16;

    /// The raw 16-bit code.
    closed spec fn view(&self) -> u16 {
        self.inner@
    }
}

impl AnalogPowerSupplyVoltage {
    /// The number of protocol bytes this result value occupies.
    pub const BYTES: usize = 2;
    /// Min voltage the register can represent, in microvolts.
    pub const MIN_MICROVOLTS: i32 = FirstRowRegisters::MIN_MICROVOLTS;
    /// Max voltage the register can represent, in microvolts.
    pub const MAX_MICROVOLTS: i32 = FirstRowRegisters::MAX_MICROVOLTS;

    /// The power-up value of the register.
    pub fn new() -> (r: AnalogPowerSupplyVoltage)
        ensures
            r@ == 0x7fff,
    {
        AnalogPowerSupplyVoltage { inner: FirstRowRegisters::from_bits(0x7fff) }
    }

    /// Serializes into protocol bytes (little-endian) since this is the datasheet register order.
    pub fn to_bytes(self) -> (r: [u8; 2])
        ensures
            r@ == seq![(self@ % 256) as u8, (self@ / 256) as u8],
    {
        self.inner.to_bytes()
    }

    /// Reconstructs from protocol bytes (little-endian).
    pub fn from_bytes(bytes: [u8; 2]) -> (r: AnalogPowerSupplyVoltage)
        ensures
            r@ == bytes[0] + 256 * bytes[1],
    {
        AnalogPowerSupplyVoltage { inner: FirstRowRegisters::from_bytes(bytes) }
    }

    /// Convert from bits.
    pub fn from_bits(bits: u16) -> (r: AnalogPowerSupplyVoltage)
        ensures
            r@ == bits,
    {
        AnalogPowerSupplyVoltage { inner: FirstRowRegisters::from_bits(bits) }
    }

    /// Convert into bits.
    pub fn into_bits(self) -> (r: u16)
        ensures
            r == self@,
    {
        self.inner.into_bits()
    }

    /// Converts a `AnalogPowerSupplyVoltage` to microvolts.
    pub fn as_microvolts(&self) -> (r: i32)
        ensures
            r == FirstRowRegisters::spec_to_microvolts(self@),
    {
        self.inner.as_microvolts()
    }

    /// Creates a new `AnalogPowerSupplyVoltage` from an input value in uV.
    ///
    /// This function will return `None` if your input is outside the `MIN_MICROVOLTS`
    /// to `MAX_MICROVOLTS` range.
    pub fn from_microvolts(microvolts: i32) -> (r: Option<AnalogPowerSupplyVoltage>)
        ensures
            match FirstRowRegisters::spec_from_microvolts(microvolts) {
                Some(code) => r matches Some(v) && v@ == code,
                None => r is None,
            },
    {
        match FirstRowRegisters::from_microvolts(microvolts) {
            Some(inner) => Some(AnalogPowerSupplyVoltage { inner }),
            None => None,
        }
    }
}

/// VREF2 across resistor (VRES). See Table 106 on page 71 of the datasheet.
///
/// 16-bit ADC value of VREF2 with series resistor for open wire check. Voltage = VRES × 150 μV + 1.5 V. Reset to
/// 0x7FFF after power-up, sleep, and to 0x8000 after clear command (CLRAUX).
#[derive(Clone, Copy, Debug, PartialEq, Eq)]
pub struct Vres {
    inner: FirstRowRegisters,
}

impl View for Vres {
    type V = u16;

    /// The raw 16-bit code.
    closed spec fn view(&self) -> u16 {
        self.inner@
    }
}

impl Vres {
    /// The number of protocol bytes this result value occupies.
    pub const BYTES: usize = 2;
    /// Min voltage the register can represent, in microvolts.
    pub const MIN_MICROVOLTS: i32 = FirstRowRegisters::MIN_MICROVOLTS;
    /// Max voltage the register can represent, in microvolts.
    pub const MAX_MICROVOLTS: i32 = FirstRowRegisters::MAX_MICROVOLTS;

    /// The power-up value of the register.
    pub fn new() -> (r: Vres)
        ensures
            r@ == 0x7fff,
    {
        Vres { inner: FirstRowRegisters::from_bits(0x7fff) }
    }

    /// Serializes into protocol bytes (little-endian) since this is the datasheet register order.
    pub fn to_bytes(self) -> (r: [u8; 2])
        ensures
            r@ == seq![(self@ % 256) as u8, (self@ / 256) as u8],
    {
        self.inner.to_bytes()
    }

    /// Reconstructs from protocol bytes (little-endian).
    pub fn from_bytes(bytes: [u8; 2]) -> (r: Vres)
        ensures
            r@ == bytes[0] + 256 * bytes[1],
    {
        Vres { inner: FirstRowRegisters::from_bytes(bytes) }
    }

    /// Convert from bits.
    pub fn from_bits(bits: u16) -> (r: Vres)
        ensures
            r@ == bits,
    {
        Vres { inner: FirstRowRegisters::from_bits(bits) }
    }

    /// Convert into bits.
    pub fn into_bits(self) -> (r: u16)
        ensures
            r == self@,
    {
        self.inner.into_bits()
    }

    /// Converts a `Vres` to microvolts.
    pub fn as_microvolts(&self) -> (r: i32)
        ensures
            r == FirstRowRegisters::spec_to_microvolts(self@),
    {
        self.inner.as_microvolts()
    }

    /// Creates a new `Vres` from an input value in uV.
    ///
    /// This function will return `None` if your input is outside the `MIN_MICROVOLTS`
    /// to `MAX_MICROVOLTS` range.
    pub fn from_microvolts(microvolts: i32) -> (r: Option<Vres>)
        ensures
            match FirstRowRegisters::spec_from_microvolts(microvolts) {
                Some(code) => r matches Some(v) && v@ == code,
                None => r is None,
            },
    {
        match FirstRowRegisters::from_microvolts(microvolts) {
            Some(inner) => Some(Vres { inner }),
            None => None,
        }
    }
}

} // verus!
