//! Field types relavent to Status Register C. See Table 108 on pages 72-73 of the datasheet.

use vstd::prelude::*;

use crate::bits::{field16, field8, get_bits16, get_bits8, put16, put8, set_bits16, set_bits8};

verus! {

/// C-ADC vs. S-ADC fault of Channel `X` (CSxFLT). One-bit field.
///
/// There are 16 channels (so this corresponds to CS1FLT through CS16FLT).
///
/// This fault condition is related to the `ComparisonThreshold` setting from Configuration Register A.
/// Also, this bit defaults to `1`, meaning every channel powers up as indicating a mismatch.
#[derive(Clone, Copy, Debug, PartialEq, Eq, Structural)]
pub enum ComparisonFault {
    /// A mismatch between C-ADC and S-ADC measurement on Channel `X` occurred.
    MismatchOccured,
    /// No mismatch between C-ADC and S-ADC measurement on Channel `X` occurred.
    Okay,
}

impl View for ComparisonFault {
    type V = u8;

    /// The raw field value of this code.
    open spec fn view(&self) -> u8 {
        match self {
            ComparisonFault::MismatchOccured => 1u8,
            ComparisonFault::Okay => 0u8,
        }
    }
}

impl ComparisonFault {
    /// Every variant stands for the field value the datasheet gives it.
    pub proof fn lemma_codes()
        ensures
            ComparisonFault::MismatchOccured@ == 1u8,
            ComparisonFault::Okay@ == 0u8,
    {
    }
}

impl ComparisonFault {
    /// The power-up value of this field.
    pub const DEFAULT: ComparisonFault = ComparisonFault::MismatchOccured;

    /// The code a raw field value decodes to; values with no code of their own decode to `MismatchOccured`.
    pub open spec fn spec_from_bits(bits: u8) -> ComparisonFault {
        if bits % 2 == 0 {
            ComparisonFault::Okay
        } else {
            ComparisonFault::MismatchOccured
        }
    }

    /// Decodes a raw field value (only its low bits count).
    pub fn from_bits(bits: u8) -> (r: ComparisonFault)
        ensures
            r == ComparisonFault::spec_from_bits(bits),
    {
        proof {
            crate::bits::lemma_u8_low_masks(bits);
        }
        let v = bits & 1;
        if v == 0 {
            ComparisonFault::Okay
        } else {
            ComparisonFault::MismatchOccured
        }
    }

    /// The raw field value of this code.
    pub fn into_bits(self) -> (r: u8)
        ensures
            r == self@,
            r <= 1,
    {
        match self {
            ComparisonFault::MismatchOccured => 1,
            ComparisonFault::Okay => 0,
        }
    }

    /// Decoding the raw value of a code gives the code back.
    pub proof fn lemma_roundtrip(self)
        ensures
            ComparisonFault::spec_from_bits(self@) == self,
    {
    }
}

impl Default for ComparisonFault {
    fn default() -> (r: ComparisonFault)
        ensures
            r == ComparisonFault::MismatchOccured,
    {
        ComparisonFault::MismatchOccured
    }
}

/// 5V analog rail OV (VA_OV). One-bit field. This bit defaults to `1`.
///
/// This bit can be cleared to 0 by using the CLRFLAG command with CL_VAOV = 1.
#[derive(Clone, Copy, Debug, PartialEq, Eq, Structural)]
pub enum AnalogRailOvervoltage {
    /// Overvoltage event detected on the main 5 V analog power rail during an ADC operation.
    OvervoltageEventDetected,
    /// No overvoltage event detected on the analog power rail.
    Okay,
}

impl View for AnalogRailOvervoltage {
    type V = u8;

    /// The raw field value of this code.
    open spec fn view(&self) -> u8 {
        match self {
            AnalogRailOvervoltage::OvervoltageEventDetected => 1u8,
            AnalogRailOvervoltage::Okay => 0u8,
        }
    }
}

impl AnalogRailOvervoltage {
    /// Every variant stands for the field value the datasheet gives it.
    pub proof fn lemma_codes()
        ensures
            AnalogRailOvervoltage::OvervoltageEventDetected@ == 1u8,
            AnalogRailOvervoltage::Okay@ == 0u8,
    {
    }
}

impl AnalogRailOvervoltage {
    /// The power-up value of this field.
    pub const DEFAULT: AnalogRailOvervoltage = AnalogRailOvervoltage::OvervoltageEventDetected;

    /// The code a raw field value decodes to; values with no code of their own decode to `OvervoltageEventDetected`.
    pub open spec fn spec_from_bits(bits: u8) -> AnalogRailOvervoltage {
        if bits % 2 == 0 {
            AnalogRailOvervoltage::Okay
        } else {
            AnalogRailOvervoltage::OvervoltageEventDetected
        }
    }

    /// Decodes a raw field value (only its low bits count).
    pub fn from_bits(bits: u8) -> (r: AnalogRailOvervoltage)
        ensures
            r == AnalogRailOvervoltage::spec_from_bits(bits),
    {
        proof {
            crate::bits::lemma_u8_low_masks(bits);
        }
        let v = bits & 1;
        if v == 0 {
            AnalogRailOvervoltage::Okay
        } else {
            AnalogRailOvervoltage::OvervoltageEventDetected
        }
    }

    /// The raw field value of this code.
    pub fn into_bits(self) -> (r: u8)
        ensures
            r == self@,
            r <= 1,
    {
        match self {
            AnalogRailOvervoltage::OvervoltageEventDetected => 1,
            AnalogRailOvervoltage::Okay => 0,
        }
    }

    /// Decoding the raw value of a code gives the code back.
    pub proof fn lemma_roundtrip(self)
        ensures
            AnalogRailOvervoltage::spec_from_bits(self@) == self,
    {
    }
}

impl Default for AnalogRailOvervoltage {
    fn default() -> (r: AnalogRailOvervoltage)
        ensures
            r == AnalogRailOvervoltage::OvervoltageEventDetected,
    {
        AnalogRailOvervoltage::OvervoltageEventDetected
    }
}

/// 5V analog rail UV (VA_UV). One-bit field. This bit defaults to `1`.
///
/// This bit can be cleared to 0 by using the CLRFLAG command with CL_VAUV = 1. Because VA is derived from
/// V_REG, VA_UV is set when entering standby from sleep.
#[derive(Clone, Copy, Debug, PartialEq, Eq, Structural)]
pub enum AnalogRailUndervoltage {
    /// Undervoltage event detected on the main 5 V analog power rail during an ADC operation.
    UndervoltageEventDetected,
    /// No undervoltage event detected on the analog power rail.
    Okay,
}

impl View for AnalogRailUndervoltage {
    type V = u8;

    /// The raw field value of this code.
    open spec fn view(&self) -> u8 {
        match self {
            AnalogRailUndervoltage::UndervoltageEventDetected => 1u8,
            AnalogRailUndervoltage::Okay => 0u8,
        }
    }
}

impl AnalogRailUndervoltage {
    /// Every variant stands for the field value the datasheet gives it.
    pub proof fn lemma_codes()
        ensures
            AnalogRailUndervoltage::UndervoltageEventDetected@ == 1u8,
            AnalogRailUndervoltage::Okay@ == 0u8,
    {
    }
}

impl AnalogRailUndervoltage {
    /// The power-up value of this field.
    pub const DEFAULT: AnalogRailUndervoltage = AnalogRailUndervoltage::UndervoltageEventDetected;

    /// The code a raw field value decodes to; values with no code of their own decode to `UndervoltageEventDetected`.
    pub open spec fn spec_from_bits(bits: u8) -> AnalogRailUndervoltage {
        if bits % 2 == 0 {
            AnalogRailUndervoltage::Okay
        } else {
            AnalogRailUndervoltage::UndervoltageEventDetected
        }
    }

    /// Decodes a raw field value (only its low bits count).
    pub fn from_bits(bits: u8) -> (r: AnalogRailUndervoltage)
        ensures
            r == AnalogRailUndervoltage::spec_from_bits(bits),
    {
        proof {
            crate::bits::lemma_u8_low_masks(bits);
        }
        let v = bits & 1;
        if v == 0 {
            AnalogRailUndervoltage::Okay
        } else {
            AnalogRailUndervoltage::UndervoltageEventDetected
        }
    }

    /// The raw field value of this code.
    pub fn into_bits(self) -> (r: u8)
        ensures
            r == self@,
            r <= 1,
    {
        match self {
            AnalogRailUndervoltage::UndervoltageEventDetected => 1,
            AnalogRailUndervoltage::Okay => 0,
        }
    }

    /// Decoding the raw value of a code gives the code back.
    pub proof fn lemma_roundtrip(self)
        ensures
            AnalogRailUndervoltage::spec_from_bits(self@) == self,
    {
    }
}

impl Default for AnalogRailUndervoltage {
    fn default() -> (r: AnalogRailUndervoltage)
        ensures
            r == AnalogRailUndervoltage::UndervoltageEventDetected,
    {
        AnalogRailUndervoltage::UndervoltageEventDetected
    }
}

/// 3V digital rail OV (VD_OV). One-bit field. This bit defaults to `1`.
///
/// This bit can be cleared to 0 by using the CLRFLAG command with CL_VDOV = 1
#[derive(Clone, Copy, Debug, PartialEq, Eq, Structural)]
pub enum DigitalRailOvervoltage {
    /// Overvoltage event detected on the digital power rail during an ADC operation.
    OvervoltageEventDetected,
    /// No overvoltage event detected on the digital power rail.
    Okay,
}

impl View for DigitalRailOvervoltage {
    type V = u8;

    /// The raw field value of this code.
    open spec fn view(&self) -> u8 {
        match self {
            DigitalRailOvervoltage::OvervoltageEventDetected => 1u8,
            DigitalRailOvervoltage::Okay => 0u8,
        }
    }
}

impl DigitalRailOvervoltage {
    /// Every variant stands for the field value the datasheet gives it.
    pub proof fn lemma_codes()
        ensures
            DigitalRailOvervoltage::OvervoltageEventDetected@ == 1u8,
            DigitalRailOvervoltage::Okay@ == 0u8,
    {
    }
}

impl DigitalRailOvervoltage {
    /// The power-up value of this field.
    pub const DEFAULT: DigitalRailOvervoltage = DigitalRailOvervoltage::OvervoltageEventDetected;

    /// The code a raw field value decodes to; values with no code of their own decode to `OvervoltageEventDetected`.
    pub open spec fn spec_from_bits(bits: u8) -> DigitalRailOvervoltage {
        if bits % 2 == 0 {
            DigitalRailOvervoltage::Okay
        } else {
            DigitalRailOvervoltage::OvervoltageEventDetected
        }
    }

    /// Decodes a raw field value (only its low bits count).
    pub fn from_bits(bits: u8) -> (r: DigitalRailOvervoltage)
        ensures
            r == DigitalRailOvervoltage::spec_from_bits(bits),
    {
        proof {
            crate::bits::lemma_u8_low_masks(bits);
        }
        let v = bits & 1;
        if v == 0 {
            DigitalRailOvervoltage::Okay
        } else {
            DigitalRailOvervoltage::OvervoltageEventDetected
        }
    }

    /// The raw field value of this code.
    pub fn into_bits(self) -> (r: u8)
        ensures
            r == self@,
            r <= 1,
    {
        match self {
            DigitalRailOvervoltage::OvervoltageEventDetected => 1,
            DigitalRailOvervoltage::Okay => 0,
        }
    }

    /// Decoding the raw value of a code gives the code back.
    pub proof fn lemma_roundtrip(self)
        ensures
            DigitalRailOvervoltage::spec_from_bits(self@) == self,
    {
    }
}

impl Default for DigitalRailOvervoltage {
    fn default() -> (r: DigitalRailOvervoltage)
        ensures
            r == DigitalRailOvervoltage::OvervoltageEventDetected,
    {
        DigitalRailOvervoltage::OvervoltageEventDetected
    }
}

/// 3V digital rail UV (VD_UV). One-bit field. This bit defaults to `1`.
///
/// This bit can be cleared to 0 by using the CLRFLAG command with CL_VDUV = 1. Because VD is derived from
/// V_REG, VD_UV is set when entering standby from sleep.
#[derive(Clone, Copy, Debug, PartialEq, Eq, Structural)]
pub enum DigitalRailUndervoltage {
    /// Undervoltage event detected on the digital power rail during an ADC operation.
    UndervoltageEventDetected,
    /// No undervoltage event detected on the digital power rail.
    Okay,
}

impl View for DigitalRailUndervoltage {
    type V = u8;

    /// The raw field value of this code.
    open spec fn view(&self) -> u8 {
        match self {
            DigitalRailUndervoltage::UndervoltageEventDetected => 1u8,
            DigitalRailUndervoltage::Okay => 0u8,
        }
    }
}

impl DigitalRailUndervoltage {
    /// Every variant stands for the field value the datasheet gives it.
    pub proof fn lemma_codes()
        ensures
            DigitalRailUndervoltage::UndervoltageEventDetected@ == 1u8,
            DigitalRailUndervoltage::Okay@ == 0u8,
    {
    }
}

impl DigitalRailUndervoltage {
    /// The power-up value of this field.
    pub const DEFAULT: DigitalRailUndervoltage = DigitalRailUndervoltage::UndervoltageEventDetected;

    /// The code a raw field value decodes to; values with no code of their own decode to `UndervoltageEventDetected`.
    pub open spec fn spec_from_bits(bits: u8) -> DigitalRailUndervoltage {
        if bits % 2 == 0 {
            DigitalRailUndervoltage::Okay
        } else {
            DigitalRailUndervoltage::UndervoltageEventDetected
        }
    }

    /// Decodes a raw field value (only its low bits count).
    pub fn from_bits(bits: u8) -> (r: DigitalRailUndervoltage)
        ensures
            r == DigitalRailUndervoltage::spec_from_bits(bits),
    {
        proof {
            crate::bits::lemma_u8_low_masks(bits);
        }
        let v = bits & 1;
        if v == 0 {
            DigitalRailUndervoltage::Okay
        } else {
            DigitalRailUndervoltage::UndervoltageEventDetected
        }
    }

    /// The raw field value of this code.
    pub fn into_bits(self) -> (r: u8)
        ensures
            r == self@,
            r <= 1,
    {
        match self {
            DigitalRailUndervoltage::UndervoltageEventDetected => 1,
            DigitalRailUndervoltage::Okay => 0,
        }
    }

    /// Decoding the raw value of a code gives the code back.
    pub proof fn lemma_roundtrip(self)
        ensures
            DigitalRailUndervoltage::spec_from_bits(self@) == self,
    {
    }
}

impl Default for DigitalRailUndervoltage {
    fn default() -> (r: DigitalRailUndervoltage)
        ensures
            r == DigitalRailUndervoltage::UndervoltageEventDetected,
    {
        DigitalRailUndervoltage::UndervoltageEventDetected
    }
}

/// C-trim error detection (CED). One-bit field. This bit defaults to `1`.
///
/// The ADBMS6830B can correct single trim errors.
#[derive(Clone, Copy, Debug, PartialEq, Eq, Structural)]
pub enum CTrimError {
    /// Trim error detected in C-NVM.
    CTrimErrorDetected,
    /// No trim error detected in C-NVM.
    Okay,
}

impl View for CTrimError {
    type V = u8;

    /// The raw field value of this code.
    open spec fn view(&self) -> u8 {
        match self {
            CTrimError::CTrimErrorDetected => 1u8,
            CTrimError::Okay => 0u8,
        }
    }
}

impl CTrimError {
    /// Every variant stands for the field value the datasheet gives it.
    pub proof fn lemma_codes()
        ensures
            CTrimError::CTrimErrorDetected@ == 1u8,
            CTrimError::Okay@ == 0u8,
    {
    }
}

impl CTrimError {
    /// The power-up value of this field.
    pub const DEFAULT: CTrimError = CTrimError::CTrimErrorDetected;

    /// The code a raw field value decodes to; values with no code of their own decode to `CTrimErrorDetected`.
    pub open spec fn spec_from_bits(bits: u8) -> CTrimError {
        if bits % 2 == 0 {
            CTrimError::Okay
        } else {
            CTrimError::CTrimErrorDetected
        }
    }

    /// Decodes a raw field value (only its low bits count).
    pub fn from_bits(bits: u8) -> (r: CTrimError)
        ensures
            r == CTrimError::spec_from_bits(bits),
    {
        proof {
            crate::bits::lemma_u8_low_masks(bits);
        }
        let v = bits & 1;
        if v == 0 {
            CTrimError::Okay
        } else {
            CTrimError::CTrimErrorDetected
        }
    }

    /// The raw field value of this code.
    pub fn into_bits(self) -> (r: u8)
        ensures
            r == self@,
            r <= 1,
    {
        match self {
            CTrimError::CTrimErrorDetected => 1,
            CTrimError::Okay => 0,
        }
    }

    /// Decoding the raw value of a code gives the code back.
    pub proof fn lemma_roundtrip(self)
        ensures
            CTrimError::spec_from_bits(self@) == self,
    {
    }
}

impl Default for CTrimError {
    fn default() -> (r: CTrimError)
        ensures
            r == CTrimError::CTrimErrorDetected,
    {
        CTrimError::CTrimErrorDetected
    }
}

/// C-trim multiple error detection (CMED). One-bit field. This bit defaults to `1`.
///
/// Multiple trim errors can lead to parameters out of specification.
#[derive(Clone, Copy, Debug, PartialEq, Eq, Structural)]
pub enum CTrimMultipleError {
    /// Multiple trim errors detected in C-NVM.
    CTrimMultipleErrorsDetected,
    /// No multiple trim errors detected in C-NVM.
    Okay,
}

impl View for CTrimMultipleError {
    type V = u8;

    /// The raw field value of this code.
    open spec fn view(&self) -> u8 {
        match self {
            CTrimMultipleError::CTrimMultipleErrorsDetected => 1u8,
            CTrimMultipleError::Okay => 0u8,
        }
    }
}

impl CTrimMultipleError {
    /// Every variant stands for the field value the datasheet gives it.
    pub proof fn lemma_codes()
        ensures
            CTrimMultipleError::CTrimMultipleErrorsDetected@ == 1u8,
            CTrimMultipleError::Okay@ == 0u8,
    {
    }
}

impl CTrimMultipleError {
    /// The power-up value of this field.
    pub const DEFAULT: CTrimMultipleError = CTrimMultipleError::CTrimMultipleErrorsDetected;

    /// The code a raw field value decodes to; values with no code of their own decode to `CTrimMultipleErrorsDetected`.
    pub open spec fn spec_from_bits(bits: u8) -> CTrimMultipleError {
        if bits % 2 == 0 {
            CTrimMultipleError::Okay
        } else {
            CTrimMultipleError::CTrimMultipleErrorsDetected
        }
    }

    /// Decodes a raw field value (only its low bits count).
    pub fn from_bits(bits: u8) -> (r: CTrimMultipleError)
        ensures
            r == CTrimMultipleError::spec_from_bits(bits),
    {
        proof {
            crate::bits::lemma_u8_low_masks(bits);
        }
        let v = bits & 1;
        if v == 0 {
            CTrimMultipleError::Okay
        } else {
            CTrimMultipleError::CTrimMultipleErrorsDetected
        }
    }

    /// The raw field value of this code.
    pub fn into_bits(self) -> (r: u8)
        ensures
            r == self@,
            r <= 1,
    {
        match self {
            CTrimMultipleError::CTrimMultipleErrorsDetected => 1,
            CTrimMultipleError::Okay => 0,
        }
    }

    /// Decoding the raw value of a code gives the code back.
    pub proof fn lemma_roundtrip(self)
        ensures
            CTrimMultipleError::spec_from_bits(self@) == self,
    {
    }
}

impl Default for CTrimMultipleError {
    fn default() -> (r: CTrimMultipleError)
        ensures
            r == CTrimMultipleError::CTrimMultipleErrorsDetected,
    {
        CTrimMultipleError::CTrimMultipleErrorsDetected
    }
}

/// S-trim error detection (SED). One-bit field. This bit defaults to `1`.
///
/// The ADBMS6830B can correct single trim errors.
#[derive(Clone, Copy, Debug, PartialEq, Eq, Structural)]
pub enum STrimError {
    /// Trim error detected in S-NVM.
    STrimErrorDetected,
    /// No trim error detected in S-NVM.
    Okay,
}

impl View for STrimError {
    type V = u8;

    /// The raw field value of this code.
    open spec fn view(&self) -> u8 {
        match self {
            STrimError::STrimErrorDetected => 1u8,
            STrimError::Okay => 0u8,
        }
    }
}

impl STrimError {
    /// Every variant stands for the field value the datasheet gives it.
    pub proof fn lemma_codes()
        ensures
            STrimError::STrimErrorDetected@ == 1u8,
            STrimError::Okay@ == 0u8,
    {
    }
}

impl STrimError {
    /// The power-up value of this field.
    pub const DEFAULT: STrimError = STrimError::STrimErrorDetected;

    /// The code a raw field value decodes to; values with no code of their own decode to `STrimErrorDetected`.
    pub open spec fn spec_from_bits(bits: u8) -> STrimError {
        if bits % 2 == 0 {
            STrimError::Okay
        } else {
            STrimError::STrimErrorDetected
        }
    }

    /// Decodes a raw field value (only its low bits count).
    pub fn from_bits(bits: u8) -> (r: STrimError)
        ensures
            r == STrimError::spec_from_bits(bits),
    {
        proof {
            crate::bits::lemma_u8_low_masks(bits);
        }
        let v = bits & 1;
        if v == 0 {
            STrimError::Okay
        } else {
            STrimError::STrimErrorDetected
        }
    }

    /// The raw field value of this code.
    pub fn into_bits(self) -> (r: u8)
        ensures
            r == self@,
            r <= 1,
    {
        match self {
            STrimError::STrimErrorDetected => 1,
            STrimError::Okay => 0,
        }
    }

    /// Decoding the raw value of a code gives the code back.
    pub proof fn lemma_roundtrip(self)
        ensures
            STrimError::spec_from_bits(self@) == self,
    {
    }
}

impl Default for STrimError {
    fn default() -> (r: STrimError)
        ensures
            r == STrimError::STrimErrorDetected,
    {
        STrimError::STrimErrorDetected
    }
}

/// S-trim multiple error detection (SMED). One-bit field. This bit defaults to `1`.
///
/// Multiple trim errors can lead to parameters out of specification.
#[derive(Clone, Copy, Debug, PartialEq, Eq, Structural)]
pub enum STrimMultipleError {
    /// Multiple trim errors detected in S-NVM.
    STrimMultipleErrorsDetected,
    /// No multiple trim errors detected in S-NVM.
    Okay,
}

impl View for STrimMultipleError {
    type V = u8;

    /// The raw field value of this code.
    open spec fn view(&self) -> u8 {
        match self {
            STrimMultipleError::STrimMultipleErrorsDetected => 1u8,
            STrimMultipleError::Okay => 0u8,
        }
    }
}

impl STrimMultipleError {
    /// Every variant stands for the field value the datasheet gives it.
    pub proof fn lemma_codes()
        ensures
            STrimMultipleError::STrimMultipleErrorsDetected@ == 1u8,
            STrimMultipleError::Okay@ == 0u8,
    {
    }
}

impl STrimMultipleError {
    /// The power-up value of this field.
    pub const DEFAULT: STrimMultipleError = STrimMultipleError::STrimMultipleErrorsDetected;

    /// The code a raw field value decodes to; values with no code of their own decode to `STrimMultipleErrorsDetected`.
    pub open spec fn spec_from_bits(bits: u8) -> STrimMultipleError {
        if bits % 2 == 0 {
            STrimMultipleError::Okay
        } else {
            STrimMultipleError::STrimMultipleErrorsDetected
        }
    }

    /// Decodes a raw field value (only its low bits count).
    pub fn from_bits(bits: u8) -> (r: STrimMultipleError)
        ensures
            r == STrimMultipleError::spec_from_bits(bits),
    {
        proof {
            crate::bits::lemma_u8_low_masks(bits);
        }
        let v = bits & 1;
        if v == 0 {
            STrimMultipleError::Okay
        } else {
            STrimMultipleError::STrimMultipleErrorsDetected
        }
    }

    /// The raw field value of this code.
    pub fn into_bits(self) -> (r: u8)
        ensures
            r == self@,
            r <= 1,
    {
        match self {
            STrimMultipleError::STrimMultipleErrorsDetected => 1,
            STrimMultipleError::Okay => 0,
        }
    }

    /// Decoding the raw value of a code gives the code back.
    pub proof fn lemma_roundtrip(self)
        ensures
            STrimMultipleError::spec_from_bits(self@) == self,
    {
    }
}

impl Default for STrimMultipleError {
    fn default() -> (r: STrimMultipleError)
        ensures
            r == STrimMultipleError::STrimMultipleErrorsDetected,
    {
        STrimMultipleError::STrimMultipleErrorsDetected
    }
}

/// Supply rail delta (VDE). One-bit field. This bit defaults to `1`.
///
/// This flag indicates if ANY of the 5V supplies differ from VREG by more than 0.5 V.
/// This is different from `SupplyRailDeltaLatent`, which indicates if ALL of the 5V supplies
/// differ from VREG by more than 0.5 V.
///
/// This bit can be cleared to 0 by using the CLRFLAG command with CL_VDE = 1.
#[derive(Clone, Copy, Debug, PartialEq, Eq, Structural)]
pub enum SupplyRailDelta {
    /// Any of the 5 V supplies differ from VREG by more than 0.5 V.
    AnyDeltaDetected,
    /// No delta of 5 V supplies detected
    Okay,
}

impl View for SupplyRailDelta {
    type V = u8;

    /// The raw field value of this code.
    open spec fn view(&self) -> u8 {
        match self {
            SupplyRailDelta::AnyDeltaDetected => 1u8,
            SupplyRailDelta::Okay => 0u8,
        }
    }
}

impl SupplyRailDelta {
    /// Every variant stands for the field value the datasheet gives it.
    pub proof fn lemma_codes()
        ensures
            SupplyRailDelta::AnyDeltaDetected@ == 1u8,
            SupplyRailDelta::Okay@ == 0u8,
    {
    }
}

impl SupplyRailDelta {
    /// The power-up value of this field.
    pub const DEFAULT: SupplyRailDelta = SupplyRailDelta::AnyDeltaDetected;

    /// The code a raw field value decodes to; values with no code of their own decode to `AnyDeltaDetected`.
    pub open spec fn spec_from_bits(bits: u8) -> SupplyRailDelta {
        if bits % 2 == 0 {
            SupplyRailDelta::Okay
        } else {
            SupplyRailDelta::AnyDeltaDetected
        }
    }

    /// Decodes a raw field value (only its low bits count).
    pub fn from_bits(bits: u8) -> (r: SupplyRailDelta)
        ensures
            r == SupplyRailDelta::spec_from_bits(bits),
    {
        proof {
            crate::bits::lemma_u8_low_masks(bits);
        }
        let v = bits & 1;
        if v == 0 {
            SupplyRailDelta::Okay
        } else {
            SupplyRailDelta::AnyDeltaDetected
        }
    }

    /// The raw field value of this code.
    pub fn into_bits(self) -> (r: u8)
        ensures
            r == self@,
            r <= 1,
    {
        match self {
            SupplyRailDelta::AnyDeltaDetected => 1,
            SupplyRailDelta::Okay => 0,
        }
    }

    /// Decoding the raw value of a code gives the code back.
    pub proof fn lemma_roundtrip(self)
        ensures
            SupplyRailDelta::spec_from_bits(self@) == self,
    {
    }
}

impl Default for SupplyRailDelta {
    fn default() -> (r: SupplyRailDelta)
        ensures
            r == SupplyRailDelta::AnyDeltaDetected,
    {
        SupplyRailDelta::AnyDeltaDetected
    }
}

/// Supply rail delta latent (VDEL). One-bit field. This bit defaults to `1`.
///
/// This flag indicates if ALL of the 5V supplies differ from VREG by more than 0.5 V.
/// This is different from `SupplyRailDelta`, which indicates if ANY of the 5V supplies
/// differ from VREG by more than 0.5 V.
///
/// This bit can be cleared to 0 by using the CLRFLAG command with CL_VDEL = 1. VDEL allows to check supply rail
/// monitors for latent faults.
#[derive(Clone, Copy, Debug, PartialEq, Eq, Structural)]
pub enum SupplyRailDeltaLatent {
    /// All the 5 V supplies differed from VREG by more than 0.5 V.
    DeltaDetectedForAll,
    /// Not all the 5 V supplies differed from VREG by more than 0.5 V.
    Okay,
}

impl View for SupplyRailDeltaLatent {
    type V = u8;

    /// The raw field value of this code.
    open spec fn view(&self) -> u8 {
        match self {
            SupplyRailDeltaLatent::DeltaDetectedForAll => 1u8,
            SupplyRailDeltaLatent::Okay => 0u8,
        }
    }
}

impl SupplyRailDeltaLatent {
    /// Every variant stands for the field value the datasheet gives it.
    pub proof fn lemma_codes()
        ensures
            SupplyRailDeltaLatent::DeltaDetectedForAll@ == 1u8,
            SupplyRailDeltaLatent::Okay@ == 0u8,
    {
    }
}

impl SupplyRailDeltaLatent {
    /// The power-up value of this field.
    pub const DEFAULT: SupplyRailDeltaLatent = SupplyRailDeltaLatent::DeltaDetectedForAll;

    /// The code a raw field value decodes to; values with no code of their own decode to `DeltaDetectedForAll`.
    pub open spec fn spec_from_bits(bits: u8) -> SupplyRailDeltaLatent {
        if bits % 2 == 0 {
            SupplyRailDeltaLatent::Okay
        } else {
            SupplyRailDeltaLatent::DeltaDetectedForAll
        }
    }

    /// Decodes a raw field value (only its low bits count).
    pub fn from_bits(bits: u8) -> (r: SupplyRailDeltaLatent)
        ensures
            r == SupplyRailDeltaLatent::spec_from_bits(bits),
    {
        proof {
            crate::bits::lemma_u8_low_masks(bits);
        }
        let v = bits & 1;
        if v == 0 {
            SupplyRailDeltaLatent::Okay
        } else {
            SupplyRailDeltaLatent::DeltaDetectedForAll
        }
    }

    /// The raw field value of this code.
    pub fn into_bits(self) -> (r: u8)
        ensures
            r == self@,
            r <= 1,
    {
        match self {
            SupplyRailDeltaLatent::DeltaDetectedForAll => 1,
            SupplyRailDeltaLatent::Okay => 0,
        }
    }

    /// Decoding the raw value of a code gives the code back.
    pub proof fn lemma_roundtrip(self)
        ensures
            SupplyRailDeltaLatent::spec_from_bits(self@) == self,
    {
    }
}

impl Default for SupplyRailDeltaLatent {
    fn default() -> (r: SupplyRailDeltaLatent)
        ensures
            r == SupplyRailDeltaLatent::DeltaDetectedForAll,
    {
        SupplyRailDeltaLatent::DeltaDetectedForAll
    }
}

/// ComparisonActive (COMP). One-bit field. This bit defaults to `0`.
///
/// Indicates that the comparison between C-ADC and S-ADC results is active.
#[derive(Clone, Copy, Debug, PartialEq, Eq, Structural)]
pub enum ComparisonActive {
    /// Indicates that the comparison between C-ADC and S-ADC results is active.
    ComparisonActive,
    /// C-ADC vs. S-ADC comparison off.
    ComparisonOff,
}

impl View for ComparisonActive {
    type V = u8;

    /// The raw field value of this code.
    open spec fn view(&self) -> u8 {
        match self {
            ComparisonActive::ComparisonActive => 1u8,
            ComparisonActive::ComparisonOff => 0u8,
        }
    }
}

impl ComparisonActive {
    /// Every variant stands for the field value the datasheet gives it.
    pub proof fn lemma_codes()
        ensures
            ComparisonActive::ComparisonActive@ == 1u8,
            ComparisonActive::ComparisonOff@ == 0u8,
    {
    }
}

impl ComparisonActive {
    /// The power-up value of this field.
    pub const DEFAULT: ComparisonActive = ComparisonActive::ComparisonOff;

    /// The code a raw field value decodes to; values with no code of their own decode to `ComparisonOff`.
    pub open spec fn spec_from_bits(bits: u8) -> ComparisonActive {
        if bits % 2 == 1 {
            ComparisonActive::ComparisonActive
        } else {
            ComparisonActive::ComparisonOff
        }
    }

    /// Decodes a raw field value (only its low bits count).
    pub fn from_bits(bits: u8) -> (r: ComparisonActive)
        ensures
            r == ComparisonActive::spec_from_bits(bits),
    {
        proof {
            crate::bits::lemma_u8_low_masks(bits);
        }
        let v = bits & 1;
        if v == 1 {
            ComparisonActive::ComparisonActive
        } else {
            ComparisonActive::ComparisonOff
        }
    }

    /// The raw field value of this code.
    pub fn into_bits(self) -> (r: u8)
        ensures
            r == self@,
            r <= 1,
    {
        match self {
            ComparisonActive::ComparisonActive => 1,
            ComparisonActive::ComparisonOff => 0,
        }
    }

    /// Decoding the raw value of a code gives the code back.
    pub proof fn lemma_roundtrip(self)
        ensures
            ComparisonActive::spec_from_bits(self@) == self,
    {
    }
}

impl Default for ComparisonActive {
    fn default() -> (r: ComparisonActive)
        ensures
            r == ComparisonActive::ComparisonOff,
    {
        ComparisonActive::ComparisonOff
    }
}

/// SPI fault (SPIFLT). One-bit field. This bit defaults to `1`.
#[derive(Clone, Copy, Debug, PartialEq, Eq, Structural)]
pub enum SpiFault {
    /// A mismatch between redundant SPI slave outputs occurred.
    MismatchOccured,
    /// No mismatch between redundant SPI slave outputs occurred.
    Okay,
}

impl View for SpiFault {
    type V = u8;

    /// The raw field value of this code.
    open spec fn view(&self) -> u8 {
        match self {
            SpiFault::MismatchOccured => 1u8,
            SpiFault::Okay => 0u8,
        }
    }
}

impl SpiFault {
    /// Every variant stands for the field value the datasheet gives it.
    pub proof fn lemma_codes()
        ensures
            SpiFault::MismatchOccured@ == 1u8,
            SpiFault::Okay@ == 0u8,
    {
    }
}

impl SpiFault {
    /// The power-up value of this field.
    pub const DEFAULT: SpiFault = SpiFault::MismatchOccured;

    /// The code a raw field value decodes to; values with no code of their own decode to `MismatchOccured`.
    pub open spec fn spec_from_bits(bits: u8) -> SpiFault {
        if bits % 2 == 0 {
            SpiFault::Okay
        } else {
            SpiFault::MismatchOccured
        }
    }

    /// Decodes a raw field value (only its low bits count).
    pub fn from_bits(bits: u8) -> (r: SpiFault)
        ensures
            r == SpiFault::spec_from_bits(bits),
    {
        proof {
            crate::bits::lemma_u8_low_masks(bits);
        }
        let v = bits & 1;
        if v == 0 {
            SpiFault::Okay
        } else {
            SpiFault::MismatchOccured
        }
    }

    /// The raw field value of this code.
    pub fn into_bits(self) -> (r: u8)
        ensures
            r == self@,
            r <= 1,
    {
        match self {
            SpiFault::MismatchOccured => 1,
            SpiFault::Okay => 0,
        }
    }

    /// Decoding the raw value of a code gives the code back.
    pub proof fn lemma_roundtrip(self)
        ensures
            SpiFault::spec_from_bits(self@) == self,
    {
    }
}

impl Default for SpiFault {
    fn default() -> (r: SpiFault)
        ensures
            r == SpiFault::MismatchOccured,
    {
        SpiFault::MismatchOccured
    }
}

/// Sleep mode detection (SLEEP). One-bit field. This bit defaults to `1`.
///
/// This bit can be cleared to 0 by using the CLRFLAG command with CL_SLEEP = 1.
#[derive(Clone, Copy, Debug, PartialEq, Eq, Structural)]
pub enum SleepModeDetection {
    /// The device has previously power cycled or entered sleep mode.
    SleepModeDetected,
    /// The device has not power cycled or entered sleep mode.
    SleepModeNotDetected,
}

impl View for SleepModeDetection {
    type V = u8;

    /// The raw field value of this code.
    open spec fn view(&self) -> u8 {
        match self {
            SleepModeDetection::SleepModeDetected => 1u8,
            SleepModeDetection::SleepModeNotDetected => 0u8,
        }
    }
}

impl SleepModeDetection {
    /// Every variant stands for the field value the datasheet gives it.
    pub proof fn lemma_codes()
        ensures
            SleepModeDetection::SleepModeDetected@ == 1u8,
            SleepModeDetection::SleepModeNotDetected@ == 0u8,
    {
    }
}

impl SleepModeDetection {
    /// The power-up value of this field.
    pub const DEFAULT: SleepModeDetection = SleepModeDetection::SleepModeDetected;

    /// The code a raw field value decodes to; values with no code of their own decode to `SleepModeDetected`.
    pub open spec fn spec_from_bits(bits: u8) -> SleepModeDetection {
        if bits % 2 == 0 {
            SleepModeDetection::SleepModeNotDetected
        } else {
            SleepModeDetection::SleepModeDetected
        }
    }

    /// Decodes a raw field value (only its low bits count).
    pub fn from_bits(bits: u8) -> (r: SleepModeDetection)
        ensures
            r == SleepModeDetection::spec_from_bits(bits),
    {
        proof {
            crate::bits::lemma_u8_low_masks(bits);
        }
        let v = bits & 1;
        if v == 0 {
            SleepModeDetection::SleepModeNotDetected
        } else {
            SleepModeDetection::SleepModeDetected
        }
    }

    /// The raw field value of this code.
    pub fn into_bits(self) -> (r: u8)
        ensures
            r == self@,
            r <= 1,
    {
        match self {
            SleepModeDetection::SleepModeDetected => 1,
            SleepModeDetection::SleepModeNotDetected => 0,
        }
    }

    /// Decoding the raw value of a code gives the code back.
    pub proof fn lemma_roundtrip(self)
        ensures
            SleepModeDetection::spec_from_bits(self@) == self,
    {
    }
}

impl Default for SleepModeDetection {
    fn default() -> (r: SleepModeDetection)
        ensures
            r == SleepModeDetection::SleepModeDetected,
    {
        SleepModeDetection::SleepModeDetected
    }
}

/// Thermal shutdown status (THSD). One-bit field. This bit defaults to `0`.
///
/// THSD bit cleared to 0 by using the CLRFLAG command with CL_THSD = 1.
#[derive(Clone, Copy, Debug, PartialEq, Eq, Structural)]
pub enum ThermalShutdownStatus {
    /// Thermal shutdown occurred.
    Occurred,
    /// Thermal shutdown did not occur.
    DidNotOccur,
}

impl View for ThermalShutdownStatus {
    type V = u8;

    /// The raw field value of this code.
    open spec fn view(&self) -> u8 {
        match self {
            ThermalShutdownStatus::Occurred => 1u8,
            ThermalShutdownStatus::DidNotOccur => 0u8,
        }
    }
}

impl ThermalShutdownStatus {
    /// Every variant stands for the field value the datasheet gives it.
    pub proof fn lemma_codes()
        ensures
            ThermalShutdownStatus::Occurred@ == 1u8,
            ThermalShutdownStatus::DidNotOccur@ == 0u8,
    {
    }
}

impl ThermalShutdownStatus {
    /// The power-up value of this field.
    pub const DEFAULT: ThermalShutdownStatus = ThermalShutdownStatus::DidNotOccur;

    /// The code a raw field value decodes to; values with no code of their own decode to `DidNotOccur`.
    pub open spec fn spec_from_bits(bits: u8) -> ThermalShutdownStatus {
        if bits % 2 == 1 {
            ThermalShutdownStatus::Occurred
        } else {
            ThermalShutdownStatus::DidNotOccur
        }
    }

    /// Decodes a raw field value (only its low bits count).
    pub fn from_bits(bits: u8) -> (r: ThermalShutdownStatus)
        ensures
            r == ThermalShutdownStatus::spec_from_bits(bits),
    {
        proof {
            crate::bits::lemma_u8_low_masks(bits);
        }
        let v = bits & 1;
        if v == 1 {
            ThermalShutdownStatus::Occurred
        } else {
            ThermalShutdownStatus::DidNotOccur
        }
    }

    /// The raw field value of this code.
    pub fn into_bits(self) -> (r: u8)
        ensures
            r == self@,
            r <= 1,
    {
        match self {
            ThermalShutdownStatus::Occurred => 1,
            ThermalShutdownStatus::DidNotOccur => 0,
        }
    }

    /// Decoding the raw value of a code gives the code back.
    pub proof fn lemma_roundtrip(self)
        ensures
            ThermalShutdownStatus::spec_from_bits(self@) == self,
    {
    }
}

impl Default for ThermalShutdownStatus {
    fn default() -> (r: ThermalShutdownStatus)
        ensures
            r == ThermalShutdownStatus::DidNotOccur,
    {
        ThermalShutdownStatus::DidNotOccur
    }
}

/// Test mode detection (TMODCHK). One-bit field. This bit defaults to `1`.
///
/// This bit can be cleared to 0 by using the CLRFLAG command with CL_TMODE = 1.
#[derive(Clone, Copy, Debug, PartialEq, Eq, Structural)]
pub enum TestModeDetection {
    /// The device has previously activated a test mode.
    TestModeDetected,
    /// The device has not activated a test mode.
    TestModeNotDetected,
}

impl View for TestModeDetection {
    type V = u8;

    /// The raw field value of this code.
    open spec fn view(&self) -> u8 {
        match self {
            TestModeDetection::TestModeDetected => 1u8,
            TestModeDetection::TestModeNotDetected => 0u8,
        }
    }
}

impl TestModeDetection {
    /// Every variant stands for the field value the datasheet gives it.
    pub proof fn lemma_codes()
        ensures
            TestModeDetection::TestModeDetected@ == 1u8,
            TestModeDetection::TestModeNotDetected@ == 0u8,
    {
    }
}

impl TestModeDetection {
    /// The power-up value of this field.
    pub const DEFAULT: TestModeDetection = TestModeDetection::TestModeDetected;

    /// The code a raw field value decodes to; values with no code of their own decode to `TestModeDetected`.
    pub open spec fn spec_from_bits(bits: u8) -> TestModeDetection {
        if bits % 2 == 0 {
            TestModeDetection::TestModeNotDetected
        } else {
            TestModeDetection::TestModeDetected
        }
    }

    /// Decodes a raw field value (only its low bits count).
    pub fn from_bits(bits: u8) -> (r: TestModeDetection)
        ensures
            r == TestModeDetection::spec_from_bits(bits),
    {
        proof {
            crate::bits::lemma_u8_low_masks(bits);
        }
        let v = bits & 1;
        if v == 0 {
            TestModeDetection::TestModeNotDetected
        } else {
            TestModeDetection::TestModeDetected
        }
    }

    /// The raw field value of this code.
    pub fn into_bits(self) -> (r: u8)
        ensures
            r == self@,
            r <= 1,
    {
        match self {
            TestModeDetection::TestModeDetected => 1,
            TestModeDetection::TestModeNotDetected => 0,
        }
    }

    /// Decoding the raw value of a code gives the code back.
    pub proof fn lemma_roundtrip(self)
        ensures
            TestModeDetection::spec_from_bits(self@) == self,
    {
    }
}

impl Default for TestModeDetection {
    fn default() -> (r: TestModeDetection)
        ensures
            r == TestModeDetection::TestModeDetected,
    {
        TestModeDetection::TestModeDetected
    }
}

/// Oscillator check (OSCCHK). One-bit field. This bit defaults to `1`.
///
/// This bit can be cleared to 0 by using the CLRFLAG command with CL_OSCCHK = 1.
#[derive(Clone, Copy, Debug, PartialEq, Eq, Structural)]
pub enum OscillatorCheck {
    /// An out of range oscillator count is detected during an ADC operation.
    OutOfRangeOscillatorDetected,
    /// No out of range oscillator counts are detected.
    Okay,
}

impl View for OscillatorCheck {
    type V = u8;

    /// The raw field value of this code.
    open spec fn view(&self) -> u8 {
        match self {
            OscillatorCheck::OutOfRangeOscillatorDetected => 1u8,
            OscillatorCheck::Okay => 0u8,
        }
    }
}

impl OscillatorCheck {
    /// Every variant stands for the field value the datasheet gives it.
    pub proof fn lemma_codes()
        ensures
            OscillatorCheck::OutOfRangeOscillatorDetected@ == 1u8,
            OscillatorCheck::Okay@ == 0u8,
    {
    }
}

impl OscillatorCheck {
    /// The power-up value of this field.
    pub const DEFAULT: OscillatorCheck = OscillatorCheck::OutOfRangeOscillatorDetected;

    /// The code a raw field value decodes to; values with no code of their own decode to `OutOfRangeOscillatorDetected`.
    pub open spec fn spec_from_bits(bits: u8) -> OscillatorCheck {
        if bits % 2 == 0 {
            OscillatorCheck::Okay
        } else {
            OscillatorCheck::OutOfRangeOscillatorDetected
        }
    }

    /// Decodes a raw field value (only its low bits count).
    pub fn from_bits(bits: u8) -> (r: OscillatorCheck)
        ensures
            r == OscillatorCheck::spec_from_bits(bits),
    {
        proof {
            crate::bits::lemma_u8_low_masks(bits);
        }
        let v = bits & 1;
        if v == 0 {
            OscillatorCheck::Okay
        } else {
            OscillatorCheck::OutOfRangeOscillatorDetected
        }
    }

    /// The raw field value of this code.
    pub fn into_bits(self) -> (r: u8)
        ensures
            r == self@,
            r <= 1,
    {
        match self {
            OscillatorCheck::OutOfRangeOscillatorDetected => 1,
            OscillatorCheck::Okay => 0,
        }
    }

    /// Decoding the raw value of a code gives the code back.
    pub proof fn lemma_roundtrip(self)
        ensures
            OscillatorCheck::spec_from_bits(self@) == self,
    {
    }
}

impl Default for OscillatorCheck {
    fn default() -> (r: OscillatorCheck)
        ensures
            r == OscillatorCheck::OutOfRangeOscillatorDetected,
    {
        OscillatorCheck::OutOfRangeOscillatorDetected
    }
}
/// Struct representing the upper 5 bits (CT[10:6]) of the conversion counter.
/// Pass this struct into `ConversionsCounter::new()` alongside a `ConversionsCounterLower` instance
/// to construct a real `ConversionsCounter`.
///
/// This type needs to exist because `CT[10:0]` is a non-contiguous field inside Status Register Group C (see Table 91 on page 68 of the datasheet).
/// Because of that, the lower 6 bits (`CT[4:0]`) and upper 5 bits (`CT[10:6]`) need to be represented separately for the initial
/// SPI read and then combined into a real `ConversionsCounter` value.
#[derive(Clone, Copy, Debug, PartialEq, Eq)]
pub struct ConversionsCounterUpper(u8);

impl View for ConversionsCounterUpper {
    type V = u8;

    /// The raw bits of the layout.
    closed spec fn view(&self) -> u8 {
        self.0
    }
}

impl ConversionsCounterUpper {
    /// The value every field takes at power-up.
    pub fn new() -> (r: ConversionsCounterUpper)
        ensures
            r@ == 0x0u8,
    {
        ConversionsCounterUpper(0x0)
    }

    /// Wraps raw bits.
    pub fn from_bits(bits: u8) -> (r: ConversionsCounterUpper)
        ensures
            r@ == bits,
    {
        ConversionsCounterUpper(bits)
    }

    /// The raw bits.
    pub fn into_bits(self) -> (r: u8)
        ensures
            r == self@,
    {
        self.0
    }

    /// (CT[10:6]).
    ///
    /// This is private outside of this submodule since it isn't really
    /// meant to be accessed directly. This type as a whole should only be used
    /// to construct a real `ConversionsCounter`.
    pub fn value(&self) -> (r: u8)
        ensures
            r == get_bits8(self@, 0, 0x1f),
    {
        let v = field8(self.0, 0, 0x1f);
        v
    }

    /// This layout with the `value` field replaced.
    pub fn with_value(self, v: u8) -> (r: ConversionsCounterUpper)
        ensures
            r@ == set_bits8(self@, 0, 0x1f, v as u8),
    {
        ConversionsCounterUpper(put8(self.0, 0, 0x1f, v as u8))
    }
}

impl Default for ConversionsCounterUpper {
    fn default() -> (r: ConversionsCounterUpper)
        ensures
            r@ == 0x0u8,
    {
        ConversionsCounterUpper::new()
    }
}

/// Struct representing the lower 6 bits (CT[5:0]) of the conversion counter.
/// Pass this struct into `ConversionsCounter::new()` alongside a `ConversionsCounterUpper` instance
/// to construct a real `ConversionsCounter`.
///
/// This type needs to exist because `CT[10:0]` is a non-contiguous field inside Status Register Group C (see Table 91 on page 68 of the datasheet).
/// Because of that, the lower 6 bits (`CT[5:0]`) and upper 5 bits (`CT[10:6]`) need to be represented separately for the initial
/// SPI read and then combined into a real `ConversionsCounter` value.
#[derive(Clone, Copy, Debug, PartialEq, Eq)]
pub struct ConversionsCounterLower(u8);

impl View for ConversionsCounterLower {
    type V = u8;

    /// The raw bits of the layout.
    closed spec fn view(&self) -> u8 {
        self.0
    }
}

impl ConversionsCounterLower {
    /// The value every field takes at power-up.
    pub fn new() -> (r: ConversionsCounterLower)
        ensures
            r@ == 0x0u8,
    {
        ConversionsCounterLower(0x0)
    }

    /// Wraps raw bits.
    pub fn from_bits(bits: u8) -> (r: ConversionsCounterLower)
        ensures
            r@ == bits,
    {
        ConversionsCounterLower(bits)
    }

    /// The raw bits.
    pub fn into_bits(self) -> (r: u8)
        ensures
            r == self@,
    {
        self.0
    }

    /// (CT[5:0]).
    ///
    /// This is private outside of this submodule since it isn't really
    /// meant to be accessed directly. This type as a whole should only be used
    /// to construct a real `ConversionsCounter`.
    pub fn value(&self) -> (r: u8)
        ensures
            r == get_bits8(self@, 0, 0x3f),
    {
        let v = field8(self.0, 0, 0x3f);
        v
    }

    /// This layout with the `value` field replaced.
    pub fn with_value(self, v: u8) -> (r: ConversionsCounterLower)
        ensures
            r@ == set_bits8(self@, 0, 0x3f, v as u8),
    {
        ConversionsCounterLower(put8(self.0, 0, 0x3f, v as u8))
    }
}

impl Default for ConversionsCounterLower {
    fn default() -> (r: ConversionsCounterLower)
        ensures
            r@ == 0x0u8,
    {
        ConversionsCounterLower::new()
    }
}

/// Conversions subcounter (CTS[1:0]). 2-bit field. Default is 0.
///
/// This is a free running C-ADC subsample conversion counter. Four increments per sample. Resets with every ADCV
/// command. Rolls over after maximum value.
///
/// CT[10:0], CTS[1:0] can be treated as a 13-bit counter CCTS[12:0] that
/// increments four times per sample. Can be read coherently to CADC results using the SNAP command to identify
/// new or old samples. Coherency to SADC results is guaranteed only when CCTS is not 31, 32, 63, 64, …
#[derive(Clone, Copy, Debug, PartialEq, Eq)]
pub struct ConversionsSubcounter(u16);

impl View for ConversionsSubcounter {
    type V = u16;

    /// The raw bits of the layout.
    closed spec fn view(&self) -> u16 {
        self.0
    }
}

impl ConversionsSubcounter {
    /// The value every field takes at power-up.
    pub fn new() -> (r: ConversionsSubcounter)
        ensures
            r@ == 0x0u16,
    {
        ConversionsSubcounter(0x0)
    }

    /// Wraps raw bits.
    pub fn from_bits(bits: u16) -> (r: ConversionsSubcounter)
        ensures
            r@ == bits,
    {
        ConversionsSubcounter(bits)
    }

    /// The raw bits.
    pub fn into_bits(self) -> (r: u16)
        ensures
            r == self@,
    {
        self.0
    }

    /// The 2-bit conversions subcounter value.
    pub fn value(&self) -> (r: u8)
        ensures
            r == get_bits16(self@, 0, 0x3) as u8,
    {
        let v = field16(self.0, 0, 0x3);
        v as u8
    }

    /// This layout with the `value` field replaced.
    pub fn with_value(self, v: u8) -> (r: ConversionsSubcounter)
        ensures
            r@ == set_bits16(self@, 0, 0x3, v as u16),
    {
        ConversionsSubcounter(put16(self.0, 0, 0x3, v as u16))
    }
}

impl Default for ConversionsSubcounter {
    fn default() -> (r: ConversionsSubcounter)
        ensures
            r@ == 0x0u16,
    {
        ConversionsSubcounter::new()
    }
}

/// Conversions counter (CT[10:0]). 11-bit field. Default is 0.
///
/// This is a free-running C-ADC conversion counter. Resets with every ADCV command. Rolls over after the maximum value.
///
/// This struct needs to be constructed manually from a `ConversionsCounterLower` and `ConversionsCounterUpper`, via the `ConversionsCounter::new()` function.
#[derive(Clone, Copy, Debug, PartialEq, Eq)]
pub struct ConversionsCounter(u16);

impl View for ConversionsCounter {
    type V = u16;

    /// The raw bits of the layout.
    closed spec fn view(&self) -> u16 {
        self.0
    }
}

impl ConversionsCounter {
    /// Wraps raw bits.
    pub fn from_bits(bits: u16) -> (r: ConversionsCounter)
        ensures
            r@ == bits,
    {
        ConversionsCounter(bits)
    }

    /// The raw bits.
    pub fn into_bits(self) -> (r: u16)
        ensures
            r == self@,
    {
        self.0
    }

    /// Lower 6 bits (`CT[5:0]` of the Conversion Counter
    pub fn lower(&self) -> (r: ConversionsCounterLower)
        ensures
            r@ == get_bits16(self@, 0, 0x3f) as u8,
    {
        let v = field16(self.0, 0, 0x3f);
        ConversionsCounterLower::from_bits(v as u8)
    }

    /// This layout with the `lower` field replaced.
    pub fn with_lower(self, v: ConversionsCounterLower) -> (r: ConversionsCounter)
        ensures
            r@ == set_bits16(self@, 0, 0x3f, v@ as u16),
    {
        ConversionsCounter(put16(self.0, 0, 0x3f, v.into_bits() as u16))
    }

    /// Upper 5 bits (`CT[10:6]` of the Conversion Counter
    pub fn upper(&self) -> (r: ConversionsCounterUpper)
        ensures
            r@ == get_bits16(self@, 6, 0x1f) as u8,
    {
        let v = field16(self.0, 6, 0x1f);
        ConversionsCounterUpper::from_bits(v as u8)
    }

    /// This layout with the `upper` field replaced.
    pub fn with_upper(self, v: ConversionsCounterUpper) -> (r: ConversionsCounter)
        ensures
            r@ == set_bits16(self@, 6, 0x1f, v@ as u16),
    {
        ConversionsCounter(put16(self.0, 6, 0x1f, v.into_bits() as u16))
    }

    /// Creates a new `ConversionsCounter` from a `ConversionsCounterLower` and `ConversionsCounterUpper`
    pub fn new(lower: ConversionsCounterLower, upper: ConversionsCounterUpper) -> (r: ConversionsCounter)
        ensures
            r@ == set_bits16(set_bits16(0, 0, 0x3f, lower@ as u16), 6, 0x1f, upper@ as u16),
    {
        let me: ConversionsCounter = ConversionsCounter(0);
        me.with_lower(lower).with_upper(upper)
    }

    /// The 11-bit Conversions Counter value (`CT[10:0]`).
    pub fn value(&self) -> (r: u16)
        ensures
            r == 64 * get_bits16(self@, 6, 0x1f) + get_bits16(self@, 0, 0x3f),
    {
        let lo = field16(self.0, 0, 0x3f);
        let hi = field16(self.0, 6, 0x1f);
        hi * 64 + lo
    }
}

} // verus!
