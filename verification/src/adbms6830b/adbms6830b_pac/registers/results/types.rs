//! Field types relavent to the Result Register groups. See Table 104 on page 71 of the datasheet.

use vstd::prelude::*;

use super::super::table107::{FirstRowRegisters, VpvInner};

verus! {

/// Represents a cell voltage result (CxV). The voltage represented by this struct can be returned via `as_microvolts()`.
///
/// This is a 16-bit ADC measurement value for Cell `x`. Cell voltage for Cell `x` = CxV x 150uV + 1.5V.
/// CxV is reset to 0x8000 on power-up and after clear command (CLRCELL), which corresponds to -3,415,200 uV / -3.4152 V.
#[derive(Clone, Copy, Debug, PartialEq, Eq)]
pub struct CellVoltage {
    inner: FirstRowRegisters,
}

impl View for CellVoltage {
    type V = u16;

    /// The raw 16-bit code.
    closed spec fn view(&self) -> u16 {
        self.inner@
    }
}

impl CellVoltage {
    /// The number of protocol bytes this result value occupies.
    pub const BYTES: usize = 2;
    /// Min voltage the register can represent, in microvolts.
    pub const MIN_MICROVOLTS: i32 = FirstRowRegisters::MIN_MICROVOLTS;
    /// Max voltage the register can represent, in microvolts.
    pub const MAX_MICROVOLTS: i32 = FirstRowRegisters::MAX_MICROVOLTS;

    /// The power-up value of the register.
    pub fn new() -> (r: CellVoltage)
        ensures
            r@ == 0x8000,
    {
        CellVoltage { inner: FirstRowRegisters::from_bits(0x8000) }
    }

    /// Serializes into protocol bytes (little-endian) since this is the datasheet register order.
    pub fn to_bytes(self) -> (r: [u8; 2])
        ensures
            r@ == seq![(self@ % 256) as u8, (self@ / 256) as u8],
    {
        self.inner.to_bytes()
    }

    /// Reconstructs from protocol bytes (little-endian).
    pub fn from_bytes(bytes: [u8; 2]) -> (r: CellVoltage)
        ensures
            r@ == bytes[0] + 256 * bytes[1],
    {
        CellVoltage { inner: FirstRowRegisters::from_bytes(bytes) }
    }

    /// Convert from bits.
    pub fn from_bits(bits: u16) -> (r: CellVoltage)
        ensures
            r@ == bits,
    {
        CellVoltage { inner: FirstRowRegisters::from_bits(bits) }
    }

    /// Convert into bits.
    pub fn into_bits(self) -> (r: u16)
        ensures
            r == self@,
    {
        self.inner.into_bits()
    }

    /// Converts a `CellVoltage` to microvolts.
    pub fn as_microvolts(&self) -> (r: i32)
        ensures
            r == FirstRowRegisters::spec_to_microvolts(self@),
    {
        self.inner.as_microvolts()
    }

    /// Creates a new `CellVoltage` from an input value in uV.
    ///
    /// This function will return `None` if your input is outside the `MIN_MICROVOLTS`
    /// to `MAX_MICROVOLTS` range.
    pub fn from_microvolts(microvolts: i32) -> (r: Option<CellVoltage>)
        ensures
            match FirstRowRegisters::spec_from_microvolts(microvolts) {
                Some(code) => r matches Some(v) && v@ == code,
                None => r is None,
            },
    {
        match FirstRowRegisters::from_microvolts(microvolts) {
            Some(inner) => Some(CellVoltage { inner }),
            None => None,
        }
    }
}

/// Represents an average cell voltage result (ACxV). The voltage represented by this struct can be returned via `as_microvolts()`.
///
/// This is a 16-bit average of 8 conversion results for value Cell `x`. Averaged Cell voltage for Cell `x` = CxV x 150uV + 1.5V.
/// ACxV is reset to 0x8000 on power-up and after clear command (CLRCELL), which corresponds to -3,415,200 uV / -3.4152 V.
#[derive(Clone, Copy, Debug, PartialEq, Eq)]
pub struct AverageCellVoltage {
    inner: FirstRowRegisters,
}

impl View for AverageCellVoltage {
    type V = u16;

    /// The raw 16-bit code.
    closed spec fn view(&self) -> u16 {
        self.inner@
    }
}

impl AverageCellVoltage {
    /// The number of protocol bytes this result value occupies.
    pub const BYTES: usize = 2;
    /// Min voltage the register can represent, in microvolts.
    pub const MIN_MICROVOLTS: i32 = FirstRowRegisters::MIN_MICROVOLTS;
    /// Max voltage the register can represent, in microvolts.
    pub const MAX_MICROVOLTS: i32 = FirstRowRegisters::MAX_MICROVOLTS;

    /// The power-up value of the register.
    pub fn new() -> (r: AverageCellVoltage)
        ensures
            r@ == 0x8000,
    {
        AverageCellVoltage { inner: FirstRowRegisters::from_bits(0x8000) }
    }

    /// Serializes into protocol bytes (little-endian) since this is the datasheet register order.
    pub fn to_bytes(self) -> (r: [u8; 2])
        ensures
            r@ == seq![(self@ % 256) as u8, (self@ / 256) as u8],
    {
        self.inner.to_bytes()
    }

    /// Reconstructs from protocol bytes (little-endian).
    pub fn from_bytes(bytes: [u8; 2]) -> (r: AverageCellVoltage)
        ensures
            r@ == bytes[0] + 256 * bytes[1],
    {
        AverageCellVoltage { inner: FirstRowRegisters::from_bytes(bytes) }
    }

    /// Convert from bits.
    pub fn from_bits(bits: u16) -> (r: AverageCellVoltage)
        ensures
            r@ == bits,
    {
        AverageCellVoltage { inner: FirstRowRegisters::from_bits(bits) }
    }

    /// Convert into bits.
    pub fn into_bits(self) -> (r: u16)
        ensures
            r == self@,
    {
        self.inner.into_bits()
    }

    /// Converts a `AverageCellVoltage` to microvolts.
    pub fn as_microvolts(&self) -> (r: i32)
        ensures
            r == FirstRowRegisters::spec_to_microvolts(self@),
    {
        self.inner.as_microvolts()
    }

    /// Creates a new `AverageCellVoltage` from an input value in uV.
    ///
    /// This function will return `None` if your input is outside the `MIN_MICROVOLTS`
    /// to `MAX_MICROVOLTS` range.
    pub fn from_microvolts(microvolts: i32) -> (r: Option<AverageCellVoltage>)
        ensures
            match FirstRowRegisters::spec_from_microvolts(microvolts) {
                Some(code) => r matches Some(v) && v@ == code,
                None => r is None,
            },
    {
        match FirstRowRegisters::from_microvolts(microvolts) {
            Some(inner) => Some(AverageCellVoltage { inner }),
            None => None,
        }
    }
}

/// Represents an filtered cell voltage result (FCxV). The voltage represented by this struct can be returned via `as_microvolts()`.
///
/// This is a 16-bit IIR filtered measurement value for Cell `x`. Filtered Cell voltage for Cell `x` = CxV x 150uV + 1.5V.
/// FCxV is reset to 0x8000 on power-up and after clear command (CLRCELL), which corresponds to -3,415,200 uV / -3.4152 V.
#[derive(Clone, Copy, Debug, PartialEq, Eq)]
pub struct FilteredCellVoltage {
    inner: FirstRowRegisters,
}

impl View for FilteredCellVoltage {
    type V = u16;

    /// The raw 16-bit code.
    closed spec fn view(&self) -> u16 {
        self.inner@
    }
}

impl FilteredCellVoltage {
    /// The number of protocol bytes this result value occupies.
    pub const BYTES: usize = 2;
    /// Min voltage the register can represent, in microvolts.
    pub const MIN_MICROVOLTS: i32 = FirstRowRegisters::MIN_MICROVOLTS;
    /// Max voltage the register can represent, in microvolts.
    pub const MAX_MICROVOLTS: i32 = FirstRowRegisters::MAX_MICROVOLTS;

    /// The power-up value of the register.
    pub fn new() -> (r: FilteredCellVoltage)
        ensures
            r@ == 0x8000,
    {
        FilteredCellVoltage { inner: FirstRowRegisters::from_bits(0x8000) }
    }

    /// Serializes into protocol bytes (little-endian) since this is the datasheet register order.
    pub fn to_bytes(self) -> (r: [u8; 2])
        ensures
            r@ == seq![(self@ % 256) as u8, (self@ / 256) as u8],
    {
        self.inner.to_bytes()
    }

    /// Reconstructs from protocol bytes (little-endian).
    pub fn from_bytes(bytes: [u8; 2]) -> (r: FilteredCellVoltage)
        ensures
            r@ == bytes[0] + 256 * bytes[1],
    {
        FilteredCellVoltage { inner: FirstRowRegisters::from_bytes(bytes) }
    }

    /// Convert from bits.
    pub fn from_bits(bits: u16) -> (r: FilteredCellVoltage)
        ensures
            r@ == bits,
    {
        FilteredCellVoltage { inner: FirstRowRegisters::from_bits(bits) }
    }

    /// Convert into bits.
    pub fn into_bits(self) -> (r: u16)
        ensures
            r == self@,
    {
        self.inner.into_bits()
    }

    /// Converts a `FilteredCellVoltage` to microvolts.
    pub fn as_microvolts(&self) -> (r: i32)
        ensures
            r == FirstRowRegisters::spec_to_microvolts(self@),
    {
        self.inner.as_microvolts()
    }

    /// Creates a new `FilteredCellVoltage` from an input value in uV.
    ///
    /// This function will return `None` if your input is outside the `MIN_MICROVOLTS`
    /// to `MAX_MICROVOLTS` range.
    pub fn from_microvolts(microvolts: i32) -> (r: Option<FilteredCellVoltage>)
        ensures
            match FirstRowRegisters::spec_from_microvolts(microvolts) {
                Some(code) => r matches Some(v) && v@ == code,
                None => r is None,
            },
    {
        match FirstRowRegisters::from_microvolts(microvolts) {
            Some(inner) => Some(FilteredCellVoltage { inner }),
            None => None,
        }
    }
}

/// Represents an S-pin voltage result (SxV). The voltage represented by this struct can be returned via `as_microvolts()`.
///
/// This is a 16-bit ADC measurement value for Sx pin from ADSV or ADCV commands. S-pin voltage for channel `x` = SxV x 150uV + 1.5V.
/// SxV is reset to 0x8000 on power-up and after clear command (CLRCELL), which corresponds to -3,415,200 uV / -3.4152 V.
#[derive(Clone, Copy, Debug, PartialEq, Eq)]
pub struct SVoltage {
    inner: FirstRowRegisters,
}

impl View for SVoltage {
    type V = u16;

    /// The raw 16-bit code.
    closed spec fn view(&self) -> u16 {
        self.inner@
    }
}

impl SVoltage {
    /// The number of protocol bytes this result value occupies.
    pub const BYTES: usize = 2;
    /// Min voltage the register can represent, in microvolts.
    pub const MIN_MICROVOLTS: i32 = FirstRowRegisters::MIN_MICROVOLTS;
    /// Max voltage the register can represent, in microvolts.
    pub const MAX_MICROVOLTS: i32 = FirstRowRegisters::MAX_MICROVOLTS;

    /// The power-up value of the register.
    pub fn new() -> (r: SVoltage)
        ensures
            r@ == 0x8000,
    {
        SVoltage { inner: FirstRowRegisters::from_bits(0x8000) }
    }

    /// Serializes into protocol bytes (little-endian) since this is the datasheet register order.
    pub fn to_bytes(self) -> (r: [u8; 2])
        ensures
            r@ == seq![(self@ % 256) as u8, (self@ / 256) as u8],
    {
        self.inner.to_bytes()
    }

    /// Reconstructs from protocol bytes (little-endian).
    pub fn from_bytes(bytes: [u8; 2]) -> (r: SVoltage)
        ensures
            r@ == bytes[0] + 256 * bytes[1],
    {
        SVoltage { inner: FirstRowRegisters::from_bytes(bytes) }
    }

    /// Convert from bits.
    pub fn from_bits(bits: u16) -> (r: SVoltage)
        ensures
            r@ == bits,
    {
        SVoltage { inner: FirstRowRegisters::from_bits(bits) }
    }

    /// Convert into bits.
    pub fn into_bits(self) -> (r: u16)
        ensures
            r == self@,
    {
        self.inner.into_bits()
    }

    /// Converts a `SVoltage` to microvolts.
    pub fn as_microvolts(&self) -> (r: i32)
        ensures
            r == FirstRowRegisters::spec_to_microvolts(self@),
    {
        self.inner.as_microvolts()
    }

    /// Creates a new `SVoltage` from an input value in uV.
    ///
    /// This function will return `None` if your input is outside the `MIN_MICROVOLTS`
    /// to `MAX_MICROVOLTS` range.
    pub fn from_microvolts(microvolts: i32) -> (r: Option<SVoltage>)
        ensures
            match FirstRowRegisters::spec_from_microvolts(microvolts) {
                Some(code) => r matches Some(v) && v@ == code,
                None => r is None,
            },
    {
        match FirstRowRegisters::from_microvolts(microvolts) {
            Some(inner) => Some(SVoltage { inner }),
            None => None,
        }
    }
}

/// Represents a GPIO voltage result (GxV). The voltage represented by this struct can be returned via `as_microvolts()`.
///
/// This is a 16-bit ADC measurement value for GPIOx voltage for GPIOx = GxV x 150 uV + 1.5 V.
///
/// Note: This type is essentially identical to `RedundantGpioVoltage`, and only exists for verbosity and to be
/// consistent with the datasheet. So, `GpioVoltage` and `RedundantGpioVoltage` both implement `From` so they can be converted to and from each other
/// at will. Importantly, even though these two types are identical in what kind of value they represent, they are not identical in meaning and
/// come from different register groups.
///
/// Also, if you're in a `const` context, prefer using `from_redundant()` instead of the `From`/`.into()` trait stuff.
#[derive(Clone, Copy, Debug, PartialEq, Eq)]
pub struct GpioVoltage {
    inner: FirstRowRegisters,
}

impl View for GpioVoltage {
    type V = u16;

    /// The raw 16-bit code.
    closed spec fn view(&self) -> u16 {
        self.inner@
    }
}

impl GpioVoltage {
    /// The number of protocol bytes this result value occupies.
    pub const BYTES: usize = 2;
    /// Min voltage the register can represent, in microvolts.
    pub const MIN_MICROVOLTS: i32 = FirstRowRegisters::MIN_MICROVOLTS;
    /// Max voltage the register can represent, in microvolts.
    pub const MAX_MICROVOLTS: i32 = FirstRowRegisters::MAX_MICROVOLTS;

    /// The power-up value of the register.
    pub fn new() -> (r: GpioVoltage)
        ensures
            r@ == 0x8000,
    {
        GpioVoltage { inner: FirstRowRegisters::from_bits(0x8000) }
    }

    /// Serializes into protocol bytes (little-endian) since this is the datasheet register order.
    pub fn to_bytes(self) -> (r: [u8; 2])
        ensures
            r@ == seq![(self@ % 256) as u8, (self@ / 256) as u8],
    {
        self.inner.to_bytes()
    }

    /// Reconstructs from protocol bytes (little-endian).
    pub fn from_bytes(bytes: [u8; 2]) -> (r: GpioVoltage)
        ensures
            r@ == bytes[0] + 256 * bytes[1],
    {
        GpioVoltage { inner: FirstRowRegisters::from_bytes(bytes) }
    }

    /// Convert from bits.
    pub fn from_bits(bits: u16) -> (r: GpioVoltage)
        ensures
            r@ == bits,
    {
        GpioVoltage { inner: FirstRowRegisters::from_bits(bits) }
    }

    /// Convert into bits.
    pub fn into_bits(self) -> (r: u16)
        ensures
            r == self@,
    {
        self.inner.into_bits()
    }

    /// Converts a `GpioVoltage` to microvolts.
    pub fn as_microvolts(&self) -> (r: i32)
        ensures
            r == FirstRowRegisters::spec_to_microvolts(self@),
    {
        self.inner.as_microvolts()
    }

    /// Creates a new `GpioVoltage` from an input value in uV.
    ///
    /// This function will return `None` if your input is outside the `MIN_MICROVOLTS`
    /// to `MAX_MICROVOLTS` range.
    pub fn from_microvolts(microvolts: i32) -> (r: Option<GpioVoltage>)
        ensures
            match FirstRowRegisters::spec_from_microvolts(microvolts) {
                Some(code) => r matches Some(v) && v@ == code,
                None => r is None,
            },
    {
        match FirstRowRegisters::from_microvolts(microvolts) {
            Some(inner) => Some(GpioVoltage { inner }),
            None => None,
        }
    }
}

/// Represents a Redundant GPIO voltage result (R_GxV). The voltage represented by this struct can be returned via `as_microvolts()`.
///
/// This is a 16-bit ADC measurement value for GPIOx voltage for GPIOx = GxV x 150 uV + 1.5 V.
///
/// Note: This type is essentially identical to `GpioVoltage`, and only exists for verbosity and to be
/// consistent with the datasheet. So, `GpioVoltage` and `RedundantGpioVoltage` both implement `From` so they can be converted to and from each other
/// at will. Importantly, even though these two types are identical in what kind of value they represent, they are not identical in meaning and
/// come from different register groups.
///
/// Also, if you're in a `const` context, prefer using `from_standard()` instead of the `From`/`.into()` trait stuff.
#[derive(Clone, Copy, Debug, PartialEq, Eq)]
pub struct RedundantGpioVoltage {
    inner: FirstRowRegisters,
}

impl View for RedundantGpioVoltage {
    type V = u16;

    /// The raw 16-bit code.
    closed spec fn view(&self) -> u16 {
        self.inner@
    }
}

impl RedundantGpioVoltage {
    /// The number of protocol bytes this result value occupies.
    pub const BYTES: usize = 2;
    /// Min voltage the register can represent, in microvolts.
    pub const MIN_MICROVOLTS: i32 = FirstRowRegisters::MIN_MICROVOLTS;
    /// Max voltage the register can represent, in microvolts.
    pub const MAX_MICROVOLTS: i32 = FirstRowRegisters::MAX_MICROVOLTS;

    /// The power-up value of the register.
    pub fn new() -> (r: RedundantGpioVoltage)
        ensures
            r@ == 0x8000,
    {
        RedundantGpioVoltage { inner: FirstRowRegisters::from_bits(0x8000) }
    }

    /// Serializes into protocol bytes (little-endian) since this is the datasheet register order.
    pub fn to_bytes(self) -> (r: [u8; 2])
        ensures
            r@ == seq![(self@ % 256) as u8, (self@ / 256) as u8],
    {
        self.inner.to_bytes()
    }

    /// Reconstructs from protocol bytes (little-endian).
    pub fn from_bytes(bytes: [u8; 2]) -> (r: RedundantGpioVoltage)
        ensures
            r@ == bytes[0] + 256 * bytes[1],
    {
        RedundantGpioVoltage { inner: FirstRowRegisters::from_bytes(bytes) }
    }

    /// Convert from bits.
    pub fn from_bits(bits: u16) -> (r: RedundantGpioVoltage)
        ensures
            r@ == bits,
    {
        RedundantGpioVoltage { inner: FirstRowRegisters::from_bits(bits) }
    }

    /// Convert into bits.
    pub fn into_bits(self) -> (r: u16)
        ensures
            r == self@,
    {
        self.inner.into_bits()
    }

    /// Converts a `RedundantGpioVoltage` to microvolts.
    pub fn as_microvolts(&self) -> (r: i32)
        ensures
            r == FirstRowRegisters::spec_to_microvolts(self@),
    {
        self.inner.as_microvolts()
    }

    /// Creates a new `RedundantGpioVoltage` from an input value in uV.
    ///
    /// This function will return `None` if your input is outside the `MIN_MICROVOLTS`
    /// to `MAX_MICROVOLTS` range.
    pub fn from_microvolts(microvolts: i32) -> (r: Option<RedundantGpioVoltage>)
        ensures
            match FirstRowRegisters::spec_from_microvolts(microvolts) {
                Some(code) => r matches Some(v) && v@ == code,
                None => r is None,
            },
    {
        match FirstRowRegisters::from_microvolts(microvolts) {
            Some(inner) => Some(RedundantGpioVoltage { inner }),
            None => None,
        }
    }
}

/// Represents a voltage measurement from S1N to V- (VMV). The voltage represented by this struct can be returned via `as_microvolts()`.
///
/// This is a 16-bit ADC measurement value for S1N to V- = VMV x 150 uV + 1.5 V).
///
/// Reset to 0x8000 after power-up, sleep, or clear command (CLRAUX).
#[derive(Clone, Copy, Debug, PartialEq, Eq)]
pub struct VMinusVoltage {
    inner: FirstRowRegisters,
}

impl View for VMinusVoltage {
    type V = u16;

    /// The raw 16-bit code.
    closed spec fn view(&self) -> u16 {
        self.inner@
    }
}

impl VMinusVoltage {
    /// The number of protocol bytes this result value occupies.
    pub const BYTES: usize = 2;
    /// Min voltage the register can represent, in microvolts.
    pub const MIN_MICROVOLTS: i32 = FirstRowRegisters::MIN_MICROVOLTS;
    /// Max voltage the register can represent, in microvolts.
    pub const MAX_MICROVOLTS: i32 = FirstRowRegisters::MAX_MICROVOLTS;

    /// The power-up value of the register.
    pub fn new() -> (r: VMinusVoltage)
        ensures
            r@ == 0x8000,
    {
        VMinusVoltage { inner: FirstRowRegisters::from_bits(0x8000) }
    }

    /// Serializes into protocol bytes (little-endian) since this is the datasheet register order.
    pub fn to_bytes(self) -> (r: [u8; 2])
        ensures
            r@ == seq![(self@ % 256) as u8, (self@ / 256) as u8],
    {
        self.inner.to_bytes()
    }

    /// Reconstructs from protocol bytes (little-endian).
    pub fn from_bytes(bytes: [u8; 2]) -> (r: VMinusVoltage)
        ensures
            r@ == bytes[0] + 256 * bytes[1],
    {
        VMinusVoltage { inner: FirstRowRegisters::from_bytes(bytes) }
    }

    /// Convert from bits.
    pub fn from_bits(bits: u16) -> (r: VMinusVoltage)
        ensures
            r@ == bits,
    {
        VMinusVoltage { inner: FirstRowRegisters::from_bits(bits) }
    }

    /// Convert into bits.
    pub fn into_bits(self) -> (r: u16)
        ensures
            r == self@,
    {
        self.inner.into_bits()
    }

    /// Converts a `VMinusVoltage` to microvolts.
    pub fn as_microvolts(&self) -> (r: i32)
        ensures
            r == FirstRowRegisters::spec_to_microvolts(self@),
    {
        self.inner.as_microvolts()
    }

    /// Creates a new `VMinusVoltage` from an input value in uV.
    ///
    /// This function will return `None` if your input is outside the `MIN_MICROVOLTS`
    /// to `MAX_MICROVOLTS` range.
    pub fn from_microvolts(microvolts: i32) -> (r: Option<VMinusVoltage>)
        ensures
            match FirstRowRegisters::spec_from_microvolts(microvolts) {
                Some(code) => r matches Some(v) && v@ == code,
                None => r is None,
            },
    {
        match FirstRowRegisters::from_microvolts(microvolts) {
            Some(inner) => Some(VMinusVoltage { inner }),
            None => None,
        }
    }
}

/// Represents a voltage measurement from V+ to V- voltage result (VPV). The voltage represented by this struct can be returned via `as_microvolts()`.
///
/// This is a 16-bit ADC measurement value for V+ to V- = 25 x (VPV x 150 uV + 1.5 V).
///
/// Reset to 0x8000 after power-up, sleep, or clear command (CLRAUX).
#[derive(Clone, Copy, Debug, PartialEq, Eq)]
pub struct VPlusVoltage {
    inner: VpvInner,
}

impl View for VPlusVoltage {
    type V = u16;

    /// The raw 16-bit code.
    closed spec fn view(&self) -> u16 {
        self.inner@
    }
}

impl VPlusVoltage {
    /// The number of protocol bytes this result value occupies.
    pub const BYTES: usize = 2;
    /// Min voltage the register can represent, in microvolts.
    pub const VPV_MIN_MICROVOLTS: i32 = VpvInner::VPV_MIN_MICROVOLTS;
    /// Max voltage the register can represent, in microvolts.
    pub const VPV_MAX_MICROVOLTS: i32 = VpvInner::VPV_MAX_MICROVOLTS;

    /// The power-up value of the register.
    pub fn new() -> (r: VPlusVoltage)
        ensures
            r@ == 0x8000,
    {
        VPlusVoltage { inner: VpvInner::from_bits(0x8000) }
    }

    /// Serializes into protocol bytes (little-endian) since this is the datasheet register order.
    pub fn to_bytes(self) -> (r: [u8; 2])
        ensures
            r@ == seq![(self@ % 256) as u8, (self@ / 256) as u8],
    {
        self.inner.to_bytes()
    }

    /// Reconstructs from protocol bytes (little-endian).
    pub fn from_bytes(bytes: [u8; 2]) -> (r: VPlusVoltage)
        ensures
            r@ == bytes[0] + 256 * bytes[1],
    {
        VPlusVoltage { inner: VpvInner::from_bytes(bytes) }
    }

    /// Convert from bits.
    pub fn from_bits(bits: u16) -> (r: VPlusVoltage)
        ensures
            r@ == bits,
    {
        VPlusVoltage { inner: VpvInner::from_bits(bits) }
    }

    /// Convert into bits.
    pub fn into_bits(self) -> (r: u16)
        ensures
            r == self@,
    {
        self.inner.into_bits()
    }

    /// Converts a `VPlusVoltage` to microvolts.
    pub fn as_microvolts(&self) -> (r: i32)
        ensures
            r == VpvInner::spec_to_microvolts(self@),
    {
        self.inner.as_microvolts()
    }

    /// Creates a new `VPlusVoltage` from an input value in uV.
    ///
    /// This function will return `None` if your input is outside the `VPV_MIN_MICROVOLTS`
    /// to `VPV_MAX_MICROVOLTS` range.
    pub fn from_microvolts(microvolts: i32) -> (r: Option<VPlusVoltage>)
        ensures
            match VpvInner::spec_from_microvolts(microvolts) {
                Some(code) => r matches Some(v) && v@ == code,
                None => r is None,
            },
    {
        match VpvInner::from_microvolts(microvolts) {
            Some(inner) => Some(VPlusVoltage { inner }),
            None => None,
        }
    }
}

impl GpioVoltage {
    /// Creates a `GpioVoltage` from a `RedundantGpioVoltage`: the same code.
    pub fn from_redundant(value: RedundantGpioVoltage) -> (r: GpioVoltage)
        ensures
            r@ == value@,
    {
        GpioVoltage::from_bits(value.into_bits())
    }
}

impl From<RedundantGpioVoltage> for GpioVoltage {
    fn from(value: RedundantGpioVoltage) -> (r: GpioVoltage) {
        GpioVoltage { inner: FirstRowRegisters::from_bits(value.into_bits()) }
    }
}

impl vstd::std_specs::convert::FromSpecImpl<RedundantGpioVoltage> for GpioVoltage {
    open spec fn obeys_from_spec() -> bool {
        true
    }

    open spec fn from_spec(value: RedundantGpioVoltage) -> GpioVoltage {
        GpioVoltage::code(value@)
    }
}

impl RedundantGpioVoltage {
    /// Creates a `RedundantGpioVoltage` from a standard `GpioVoltage`: the same code.
    pub fn from_standard(value: GpioVoltage) -> (r: RedundantGpioVoltage)
        ensures
            r@ == value@,
    {
        RedundantGpioVoltage::from_bits(value.into_bits())
    }
}

impl From<GpioVoltage> for RedundantGpioVoltage {
    fn from(value: GpioVoltage) -> (r: RedundantGpioVoltage) {
        RedundantGpioVoltage { inner: FirstRowRegisters::from_bits(value.into_bits()) }
    }
}

impl vstd::std_specs::convert::FromSpecImpl<GpioVoltage> for RedundantGpioVoltage {
    open spec fn obeys_from_spec() -> bool {
        true
    }

    open spec fn from_spec(value: GpioVoltage) -> RedundantGpioVoltage {
        RedundantGpioVoltage::code(value@)
    }
}

impl GpioVoltage {
    /// The voltage result holding `code`, as a value in specifications.
    pub closed spec fn code(code: u16) -> GpioVoltage {
        GpioVoltage { inner: FirstRowRegisters::spec_from_bits(code) }
    }
}

impl RedundantGpioVoltage {
    /// The voltage result holding `code`, as a value in specifications.
    pub closed spec fn code(code: u16) -> RedundantGpioVoltage {
        RedundantGpioVoltage { inner: FirstRowRegisters::spec_from_bits(code) }
    }
}

} // verus!
