//! Field types relavent to the Communication register. See Tables 32-35 on pages 42-43 of the datasheet.

use vstd::prelude::*;


verus! {

/// Write code for initial communication control bits (`ICOMx[3:0]`) on I2C Master. Four-bit field.
///
/// See Table 33 on page 42 of the datasheet.
#[derive(Clone, Copy, Debug, PartialEq, Eq, Structural)]
pub enum IcomI2cWriteCode {
    /// Action: Start.
    ///
    /// Generates a start signal on the I2C port followed by data transmission.
    Start,
    /// Action: Stop.
    ///
    /// Generates a stop signal on the I2C port.
    Stop,
    /// Action: Blank.
    ///
    /// Proceeds directly to data transmission on I2C port.
    Blank,
    /// Action: No transmit.
    ///
    /// Releases SDA and SCL and ignores the rest of the data.
    NoTransmit,
}

impl View for IcomI2cWriteCode {
    type V = u8;

    /// The raw field value of this code.
    open spec fn view(&self) -> u8 {
        match self {
            IcomI2cWriteCode::Start => 6u8,
            IcomI2cWriteCode::Stop => 1u8,
            IcomI2cWriteCode::Blank => 0u8,
            IcomI2cWriteCode::NoTransmit => 7u8,
        }
    }
}

impl IcomI2cWriteCode {
    /// Every variant stands for the field value the datasheet gives it.
    pub proof fn lemma_codes()
        ensures
            IcomI2cWriteCode::Start@ == 6u8,
            IcomI2cWriteCode::Stop@ == 1u8,
            IcomI2cWriteCode::Blank@ == 0u8,
            IcomI2cWriteCode::NoTransmit@ == 7u8,
    {
    }
}

impl IcomI2cWriteCode {
    /// The power-up value of this field.
    pub const DEFAULT: IcomI2cWriteCode = IcomI2cWriteCode::Blank;

    /// The code a raw field value decodes to; values with no code of their own decode to `Blank`.
    pub open spec fn spec_from_bits(bits: u8) -> IcomI2cWriteCode {
        if bits % 8 == 6 {
            IcomI2cWriteCode::Start
        } else if bits % 8 == 1 {
            IcomI2cWriteCode::Stop
        } else if bits % 8 == 7 {
            IcomI2cWriteCode::NoTransmit
        } else {
            IcomI2cWriteCode::Blank
        }
    }

    /// Decodes a raw field value (only its low bits count).
    pub fn from_bits(bits: u8) -> (r: IcomI2cWriteCode)
        ensures
            r == IcomI2cWriteCode::spec_from_bits(bits),
    {
        proof {
            crate::bits::lemma_u8_low_masks(bits);
        }
        let v = bits & 7;
        if v == 6 {
            IcomI2cWriteCode::Start
        } else if v == 1 {
            IcomI2cWriteCode::Stop
        } else if v == 7 {
            IcomI2cWriteCode::NoTransmit
        } else {
            IcomI2cWriteCode::Blank
        }
    }

    /// The raw field value of this code.
    pub fn into_bits(self) -> (r: u8)
        ensures
            r == self@,
            r <= 7,
    {
        match self {
            IcomI2cWriteCode::Start => 6,
            IcomI2cWriteCode::Stop => 1,
            IcomI2cWriteCode::Blank => 0,
            IcomI2cWriteCode::NoTransmit => 7,
        }
    }

    /// Decoding the raw value of a code gives the code back.
    pub proof fn lemma_roundtrip(self)
        ensures
            IcomI2cWriteCode::spec_from_bits(self@) == self,
    {
    }
}

impl Default for IcomI2cWriteCode {
    fn default() -> (r: IcomI2cWriteCode)
        ensures
            r == IcomI2cWriteCode::Blank,
    {
        IcomI2cWriteCode::Blank
    }
}

/// Write code for final communication control bits (`FCOMx[3:0]`) on I2C Master. Four-bit field.
///
/// See Table 33 on page 42 of the datasheet.
#[derive(Clone, Copy, Debug, PartialEq, Eq, Structural)]
pub enum FcomI2cWriteCode {
    /// Action: Master acknowledge.
    ///
    /// Master generates an acknowledge signal on the ninth clock cycle.
    MasterAcknowledge,
    /// Action: Master no acknowledge.
    ///
    /// Master generates a no acknowledge signal on the ninth clock cycle.
    MasterNoAcknowledge,
    /// Action: Master no acknowledge and stop.
    ///
    /// Master generates a no acknowledge signal followed by a stop signal.
    MasterNoAcknowledgeAndStop,
}

impl View for FcomI2cWriteCode {
    type V = u8;

    /// The raw field value of this code.
    open spec fn view(&self) -> u8 {
        match self {
            FcomI2cWriteCode::MasterAcknowledge => 0u8,
            FcomI2cWriteCode::MasterNoAcknowledge => 8u8,
            FcomI2cWriteCode::MasterNoAcknowledgeAndStop => 9u8,
        }
    }
}

impl FcomI2cWriteCode {
    /// Every variant stands for the field value the datasheet gives it.
    pub proof fn lemma_codes()
        ensures
            FcomI2cWriteCode::MasterAcknowledge@ == 0u8,
            FcomI2cWriteCode::MasterNoAcknowledge@ == 8u8,
            FcomI2cWriteCode::MasterNoAcknowledgeAndStop@ == 9u8,
    {
    }
}

impl FcomI2cWriteCode {
    /// The power-up value of this field.
    pub const DEFAULT: FcomI2cWriteCode = FcomI2cWriteCode::MasterAcknowledge;

    /// The code a raw field value decodes to; values with no code of their own decode to `MasterAcknowledge`.
    pub open spec fn spec_from_bits(bits: u8) -> FcomI2cWriteCode {
        if bits % 16 == 8 {
            FcomI2cWriteCode::MasterNoAcknowledge
        } else if bits % 16 == 9 {
            FcomI2cWriteCode::MasterNoAcknowledgeAndStop
        } else {
            FcomI2cWriteCode::MasterAcknowledge
        }
    }

    /// Decodes a raw field value (only its low bits count).
    pub fn from_bits(bits: u8) -> (r: FcomI2cWriteCode)
        ensures
            r == FcomI2cWriteCode::spec_from_bits(bits),
    {
        proof {
            crate::bits::lemma_u8_low_masks(bits);
        }
        let v = bits & 15;
        if v == 8 {
            FcomI2cWriteCode::MasterNoAcknowledge
        } else if v == 9 {
            FcomI2cWriteCode::MasterNoAcknowledgeAndStop
        } else {
            FcomI2cWriteCode::MasterAcknowledge
        }
    }

    /// The raw field value of this code.
    pub fn into_bits(self) -> (r: u8)
        ensures
            r == self@,
            r <= 15,
    {
        match self {
            FcomI2cWriteCode::MasterAcknowledge => 0,
            FcomI2cWriteCode::MasterNoAcknowledge => 8,
            FcomI2cWriteCode::MasterNoAcknowledgeAndStop => 9,
        }
    }

    /// Decoding the raw value of a code gives the code back.
    pub proof fn lemma_roundtrip(self)
        ensures
            FcomI2cWriteCode::spec_from_bits(self@) == self,
    {
    }
}

impl Default for FcomI2cWriteCode {
    fn default() -> (r: FcomI2cWriteCode)
        ensures
            r == FcomI2cWriteCode::MasterAcknowledge,
    {
        FcomI2cWriteCode::MasterAcknowledge
    }
}

/// Write code for initial communication control bits (`ICOMx[3:0]`) on SPI Master. Four-bit field.
///
/// See Table 34 on page 42 of the datasheet.
#[derive(Clone, Copy, Debug, PartialEq, Eq, Structural)]
pub enum IcomSpiWriteCode {
    /// Action: CSBM low.
    ///
    /// Generates a CSBM low signal on SPI port (GPIO3).
    CsbmLow,
    /// Action: CSBM falling edge.
    ///
    /// Drives CSBM (GPIO3) high, then low.
    CsbmFallingEdge,
    /// Action: CSBM high.
    ///
    /// Generates a CSBM high signal on SPI port (GPIO3).
    CsbmHigh,
    /// Action: No transmit.
    ///
    /// Releases the SPI port and ignores the rest of the data.
    NoTransmit,
}

impl View for IcomSpiWriteCode {
    type V = u8;

    /// The raw field value of this code.
    open spec fn view(&self) -> u8 {
        match self {
            IcomSpiWriteCode::CsbmLow => 8u8,
            IcomSpiWriteCode::CsbmFallingEdge => 10u8,
            IcomSpiWriteCode::CsbmHigh => 9u8,
            IcomSpiWriteCode::NoTransmit => 15u8,
        }
    }
}

impl IcomSpiWriteCode {
    /// Every variant stands for the field value the datasheet gives it.
    pub proof fn lemma_codes()
        ensures
            IcomSpiWriteCode::CsbmLow@ == 8u8,
            IcomSpiWriteCode::CsbmFallingEdge@ == 10u8,
            IcomSpiWriteCode::CsbmHigh@ == 9u8,
            IcomSpiWriteCode::NoTransmit@ == 15u8,
    {
    }
}

impl IcomSpiWriteCode {
    /// The power-up value of this field.
    pub const DEFAULT: IcomSpiWriteCode = IcomSpiWriteCode::CsbmLow;

    /// The code a raw field value decodes to; values with no code of their own decode to `CsbmLow`.
    pub open spec fn spec_from_bits(bits: u8) -> IcomSpiWriteCode {
        if bits % 16 == 10 {
            IcomSpiWriteCode::CsbmFallingEdge
        } else if bits % 16 == 9 {
            IcomSpiWriteCode::CsbmHigh
        } else if bits % 16 == 15 {
            IcomSpiWriteCode::NoTransmit
        } else {
            IcomSpiWriteCode::CsbmLow
        }
    }

    /// Decodes a raw field value (only its low bits count).
    pub fn from_bits(bits: u8) -> (r: IcomSpiWriteCode)
        ensures
            r == IcomSpiWriteCode::spec_from_bits(bits),
    {
        proof {
            crate::bits::lemma_u8_low_masks(bits);
        }
        let v = bits & 15;
        if v == 10 {
            IcomSpiWriteCode::CsbmFallingEdge
        } else if v == 9 {
            IcomSpiWriteCode::CsbmHigh
        } else if v == 15 {
            IcomSpiWriteCode::NoTransmit
        } else {
            IcomSpiWriteCode::CsbmLow
        }
    }

    /// The raw field value of this code.
    pub fn into_bits(self) -> (r: u8)
        ensures
            r == self@,
            r <= 15,
    {
        match self {
            IcomSpiWriteCode::CsbmLow => 8,
            IcomSpiWriteCode::CsbmFallingEdge => 10,
            IcomSpiWriteCode::CsbmHigh => 9,
            IcomSpiWriteCode::NoTransmit => 15,
        }
    }

    /// Decoding the raw value of a code gives the code back.
    pub proof fn lemma_roundtrip(self)
        ensures
            IcomSpiWriteCode::spec_from_bits(self@) == self,
    {
    }
}

impl Default for IcomSpiWriteCode {
    fn default() -> (r: IcomSpiWriteCode)
        ensures
            r == IcomSpiWriteCode::CsbmLow,
    {
        IcomSpiWriteCode::CsbmLow
    }
}

/// Write code for final communication control bits (`FCOMx[3:0]`) on SPI Master. Four-bit field.
///
/// See Table 34 on page 42 of the datasheet.
#[derive(Clone, Copy, Debug, PartialEq, Eq, Structural)]
pub enum FcomSpiWriteCode {
    /// Action: CSBM low.
    ///
    /// Holds CSBM low at the end of the byte transmission.
    ///
    /// Note: This enum variant uses `0b0000` to represent this code, but based on the datasheet it is technically `0bx000` (i.e., the leftmost bit is a wildcard).
    /// This doesn't really matter since this is a write code, but why not leave this note here
    CsbmLow,
    /// Action: CSBM high.
    ///
    /// Transitions CSBM high at the end of the byte transmission.
    CsbmHigh,
}

impl View for FcomSpiWriteCode {
    type V = u8;

    /// The raw field value of this code.
    open spec fn view(&self) -> u8 {
        match self {
            FcomSpiWriteCode::CsbmLow => 0u8,
            FcomSpiWriteCode::CsbmHigh => 9u8,
        }
    }
}

impl FcomSpiWriteCode {
    /// Every variant stands for the field value the datasheet gives it.
    pub proof fn lemma_codes()
        ensures
            FcomSpiWriteCode::CsbmLow@ == 0u8,
            FcomSpiWriteCode::CsbmHigh@ == 9u8,
    {
    }
}

impl FcomSpiWriteCode {
    /// The power-up value of this field.
    pub const DEFAULT: FcomSpiWriteCode = FcomSpiWriteCode::CsbmLow;

    /// The code a raw field value decodes to; values with no code of their own decode to `CsbmLow`.
    pub open spec fn spec_from_bits(bits: u8) -> FcomSpiWriteCode {
        if bits % 16 == 9 {
            FcomSpiWriteCode::CsbmHigh
        } else {
            FcomSpiWriteCode::CsbmLow
        }
    }

    /// Decodes a raw field value (only its low bits count).
    pub fn from_bits(bits: u8) -> (r: FcomSpiWriteCode)
        ensures
            r == FcomSpiWriteCode::spec_from_bits(bits),
    {
        proof {
            crate::bits::lemma_u8_low_masks(bits);
        }
        let v = bits & 15;
        if v == 9 {
            FcomSpiWriteCode::CsbmHigh
        } else {
            FcomSpiWriteCode::CsbmLow
        }
    }

    /// The raw field value of this code.
    pub fn into_bits(self) -> (r: u8)
        ensures
            r == self@,
            r <= 15,
    {
        match self {
            FcomSpiWriteCode::CsbmLow => 0,
            FcomSpiWriteCode::CsbmHigh => 9,
        }
    }

    /// Decoding the raw value of a code gives the code back.
    pub proof fn lemma_roundtrip(self)
        ensures
            FcomSpiWriteCode::spec_from_bits(self@) == self,
    {
    }
}

impl Default for FcomSpiWriteCode {
    fn default() -> (r: FcomSpiWriteCode)
        ensures
            r == FcomSpiWriteCode::CsbmLow,
    {
        FcomSpiWriteCode::CsbmLow
    }
}
/// Read code for initial communication control bits (`ICOMx[3:0]`) on I2C Master. Four-bit field.
///
/// See Table 35 on page 43 of the datasheet.
#[derive(Clone, Copy, Debug, PartialEq, Eq, Structural)]
pub enum IcomI2cReadCode {
    /// Master generated a start signal.
    Start,
    /// Master generated a stop signal.
    Stop,
    /// Blank, SDA held low between bytes.
    BlankSdaLow,
    /// Blank, SDA held high between bytes.
    BlankSdaHigh,
    /// A code with no meaning for this field. The inner `u8` is whatever four-bit value was read in (hopefully useful for debugging).
    Unknown(u8),
}

impl View for IcomI2cReadCode {
    type V = u8;

    /// The raw four-bit field value of this code.
    open spec fn view(&self) -> u8 {
        match self {
            IcomI2cReadCode::Start => 6u8,
            IcomI2cReadCode::Stop => 1u8,
            IcomI2cReadCode::BlankSdaLow => 0u8,
            IcomI2cReadCode::BlankSdaHigh => 7u8,
            IcomI2cReadCode::Unknown(raw) => (raw % 16) as u8,
        }
    }
}

impl IcomI2cReadCode {
    /// The code a raw field value decodes to; undocumented values become `Unknown`.
    pub open spec fn spec_from_bits(bits: u8) -> IcomI2cReadCode {
        if bits % 16 == 6 {
            IcomI2cReadCode::Start
        } else if bits % 16 == 1 {
            IcomI2cReadCode::Stop
        } else if bits % 16 == 0 {
            IcomI2cReadCode::BlankSdaLow
        } else if bits % 16 == 7 {
            IcomI2cReadCode::BlankSdaHigh
        } else {
            IcomI2cReadCode::Unknown((bits % 16) as u8)
        }
    }

    /// Reconstructs the code from its raw 4-bit field value.
    ///
    /// Any value not documented for this field becomes `Unknown` with the raw value as the inner (should be useful for debugging).
    pub fn from_bits(bits: u8) -> (r: IcomI2cReadCode)
        ensures
            r == IcomI2cReadCode::spec_from_bits(bits),
    {
        proof {
            crate::bits::lemma_u8_low_masks(bits);
        }
        let v = bits & 0b1111;
        if v == 6 {
            IcomI2cReadCode::Start
        } else if v == 1 {
            IcomI2cReadCode::Stop
        } else if v == 0 {
            IcomI2cReadCode::BlankSdaLow
        } else if v == 7 {
            IcomI2cReadCode::BlankSdaHigh
        } else {
            IcomI2cReadCode::Unknown(v)
        }
    }

    /// Serializes the code into its raw 4-bit field value.
    pub fn into_bits(self) -> (r: u8)
        ensures
            r == self@,
            r <= 15,
    {
        match self {
            IcomI2cReadCode::Start => 6,
            IcomI2cReadCode::Stop => 1,
            IcomI2cReadCode::BlankSdaLow => 0,
            IcomI2cReadCode::BlankSdaHigh => 7,
            IcomI2cReadCode::Unknown(raw) => {
                proof {
                    crate::bits::lemma_u8_low_masks(raw);
                }
                raw & 0b1111
            },
        }
    }

    /// Decoding the raw value of a documented code gives the code back.
    pub proof fn lemma_roundtrip(self)
        ensures
            !(self is Unknown) ==> IcomI2cReadCode::spec_from_bits(self@) == self,
    {
    }
}

impl Default for IcomI2cReadCode {
    fn default() -> (r: IcomI2cReadCode)
        ensures
            r == IcomI2cReadCode::Unknown(8),
    {
        IcomI2cReadCode::Unknown(8)
    }
}

/// Read code for final communication control bits (`FCOMx[3:0]`) on I2C Master. Four-bit field.
///
/// See Table 35 on page 43 of the datasheet.
#[derive(Clone, Copy, Debug, PartialEq, Eq, Structural)]
pub enum FcomI2cReadCode {
    /// Master generated an acknowledge signal.
    MasterAck,
    /// Slave generated an acknowledge signal.
    SlaveAck,
    /// Slave generated a no acknowledge signal.
    SlaveNack,
    /// Slave generated an acknowledge signal, master generated a stop signal.
    SlaveAckMasterStop,
    /// Slave generated a no acknowledge signal, master generated a stop signal.
    SlaveNackMasterStop,
    /// A code with no meaning for this field. The inner `u8` is whatever four-bit value was read in (hopefully useful for debugging).
    Unknown(u8),
}

impl View for FcomI2cReadCode {
    type V = u8;

    /// The raw four-bit field value of this code.
    open spec fn view(&self) -> u8 {
        match self {
            FcomI2cReadCode::MasterAck => 0u8,
            FcomI2cReadCode::SlaveAck => 7u8,
            FcomI2cReadCode::SlaveNack => 15u8,
            FcomI2cReadCode::SlaveAckMasterStop => 1u8,
            FcomI2cReadCode::SlaveNackMasterStop => 9u8,
            FcomI2cReadCode::Unknown(raw) => (raw % 16) as u8,
        }
    }
}

impl FcomI2cReadCode {
    /// The code a raw field value decodes to; undocumented values become `Unknown`.
    pub open spec fn spec_from_bits(bits: u8) -> FcomI2cReadCode {
        if bits % 16 == 0 {
            FcomI2cReadCode::MasterAck
        } else if bits % 16 == 7 {
            FcomI2cReadCode::SlaveAck
        } else if bits % 16 == 15 {
            FcomI2cReadCode::SlaveNack
        } else if bits % 16 == 1 {
            FcomI2cReadCode::SlaveAckMasterStop
        } else if bits % 16 == 9 {
            FcomI2cReadCode::SlaveNackMasterStop
        } else {
            FcomI2cReadCode::Unknown((bits % 16) as u8)
        }
    }

    /// Reconstructs the code from its raw 4-bit field value.
    ///
    /// Any value not documented for this field becomes `Unknown` with the raw value as the inner (should be useful for debugging).
    pub fn from_bits(bits: u8) -> (r: FcomI2cReadCode)
        ensures
            r == FcomI2cReadCode::spec_from_bits(bits),
    {
        proof {
            crate::bits::lemma_u8_low_masks(bits);
        }
        let v = bits & 0b1111;
        if v == 0 {
            FcomI2cReadCode::MasterAck
        } else if v == 7 {
            FcomI2cReadCode::SlaveAck
        } else if v == 15 {
            FcomI2cReadCode::SlaveNack
        } else if v == 1 {
            FcomI2cReadCode::SlaveAckMasterStop
        } else if v == 9 {
            FcomI2cReadCode::SlaveNackMasterStop
        } else {
            FcomI2cReadCode::Unknown(v)
        }
    }

    /// Serializes the code into its raw 4-bit field value.
    pub fn into_bits(self) -> (r: u8)
        ensures
            r == self@,
            r <= 15,
    {
        match self {
            FcomI2cReadCode::MasterAck => 0,
            FcomI2cReadCode::SlaveAck => 7,
            FcomI2cReadCode::SlaveNack => 15,
            FcomI2cReadCode::SlaveAckMasterStop => 1,
            FcomI2cReadCode::SlaveNackMasterStop => 9,
            FcomI2cReadCode::Unknown(raw) => {
                proof {
                    crate::bits::lemma_u8_low_masks(raw);
                }
                raw & 0b1111
            },
        }
    }

    /// Decoding the raw value of a documented code gives the code back.
    pub proof fn lemma_roundtrip(self)
        ensures
            !(self is Unknown) ==> FcomI2cReadCode::spec_from_bits(self@) == self,
    {
    }
}

impl Default for FcomI2cReadCode {
    fn default() -> (r: FcomI2cReadCode)
        ensures
            r == FcomI2cReadCode::Unknown(8),
    {
        FcomI2cReadCode::Unknown(8)
    }
}

/// Read code for initial communication control bits (`ICOMx[3:0]`) on SPI Master. Four-bit field.
///
/// This should always be `0b0111` according to the top-right of page 43 of the datasheet.
#[derive(Clone, Copy, Debug, PartialEq, Eq, Structural)]
pub enum IcomSpiReadCode {
    /// Normal ICOM code for SPI reads.
    ///
    /// ICOMx[3:0] should only ever be this value (0b0111) for SPI reads according to the datasheet (near the top-right of page 43).
    Expected,
    /// A code with no meaning for this field. The inner `u8` is whatever four-bit value was read in (hopefully useful for debugging).
    Unknown(u8),
}

impl View for IcomSpiReadCode {
    type V = u8;

    /// The raw four-bit field value of this code.
    open spec fn view(&self) -> u8 {
        match self {
            IcomSpiReadCode::Expected => 7u8,
            IcomSpiReadCode::Unknown(raw) => (raw % 16) as u8,
        }
    }
}

impl IcomSpiReadCode {
    /// The code a raw field value decodes to; undocumented values become `Unknown`.
    pub open spec fn spec_from_bits(bits: u8) -> IcomSpiReadCode {
        if bits % 16 == 7 {
            IcomSpiReadCode::Expected
        } else {
            IcomSpiReadCode::Unknown((bits % 16) as u8)
        }
    }

    /// Reconstructs the code from its raw 4-bit field value.
    ///
    /// Any value not documented for this field becomes `Unknown` with the raw value as the inner (should be useful for debugging).
    pub fn from_bits(bits: u8) -> (r: IcomSpiReadCode)
        ensures
            r == IcomSpiReadCode::spec_from_bits(bits),
    {
        proof {
            crate::bits::lemma_u8_low_masks(bits);
        }
        let v = bits & 0b1111;
        if v == 7 {
            IcomSpiReadCode::Expected
        } else {
            IcomSpiReadCode::Unknown(v)
        }
    }

    /// Serializes the code into its raw 4-bit field value.
    pub fn into_bits(self) -> (r: u8)
        ensures
            r == self@,
            r <= 15,
    {
        match self {
            IcomSpiReadCode::Expected => 7,
            IcomSpiReadCode::Unknown(raw) => {
                proof {
                    crate::bits::lemma_u8_low_masks(raw);
                }
                raw & 0b1111
            },
        }
    }

    /// Decoding the raw value of a documented code gives the code back.
    pub proof fn lemma_roundtrip(self)
        ensures
            !(self is Unknown) ==> IcomSpiReadCode::spec_from_bits(self@) == self,
    {
    }
}

impl Default for IcomSpiReadCode {
    fn default() -> (r: IcomSpiReadCode)
        ensures
            r == IcomSpiReadCode::Unknown(0),
    {
        IcomSpiReadCode::Unknown(0)
    }
}

/// Read code for final communication control bits (`FCOMx[3:0]`) on SPI Master. Four-bit field.
///
/// This should always be `0b1111` according to the top-right of page 43 of the datasheet.
#[derive(Clone, Copy, Debug, PartialEq, Eq, Structural)]
pub enum FcomSpiReadCode {
    /// Normal FCOM code for SPI reads.
    ///
    /// FCOMx[3:0] should only ever be this value (0b1111) for SPI reads according to the datasheet (near the top-right of page 43).
    Expected,
    /// A code with no meaning for this field. The inner `u8` is whatever four-bit value was read in (hopefully useful for debugging).
    Unknown(u8),
}

impl View for FcomSpiReadCode {
    type V = u8;

    /// The raw four-bit field value of this code.
    open spec fn view(&self) -> u8 {
        match self {
            FcomSpiReadCode::Expected => 15u8,
            FcomSpiReadCode::Unknown(raw) => (raw % 16) as u8,
        }
    }
}

impl FcomSpiReadCode {
    /// The code a raw field value decodes to; undocumented values become `Unknown`.
    pub open spec fn spec_from_bits(bits: u8) -> FcomSpiReadCode {
        if bits % 16 == 15 {
            FcomSpiReadCode::Expected
        } else {
            FcomSpiReadCode::Unknown((bits % 16) as u8)
        }
    }

    /// Reconstructs the code from its raw 4-bit field value.
    ///
    /// Any value not documented for this field becomes `Unknown` with the raw value as the inner (should be useful for debugging).
    pub fn from_bits(bits: u8) -> (r: FcomSpiReadCode)
        ensures
            r == FcomSpiReadCode::spec_from_bits(bits),
    {
        proof {
            crate::bits::lemma_u8_low_masks(bits);
        }
        let v = bits & 0b1111;
        if v == 15 {
            FcomSpiReadCode::Expected
        } else {
            FcomSpiReadCode::Unknown(v)
        }
    }

    /// Serializes the code into its raw 4-bit field value.
    pub fn into_bits(self) -> (r: u8)
        ensures
            r == self@,
            r <= 15,
    {
        match self {
            FcomSpiReadCode::Expected => 15,
            FcomSpiReadCode::Unknown(raw) => {
                proof {
                    crate::bits::lemma_u8_low_masks(raw);
                }
                raw & 0b1111
            },
        }
    }

    /// Decoding the raw value of a documented code gives the code back.
    pub proof fn lemma_roundtrip(self)
        ensures
            !(self is Unknown) ==> FcomSpiReadCode::spec_from_bits(self@) == self,
    {
    }
}

impl Default for FcomSpiReadCode {
    fn default() -> (r: FcomSpiReadCode)
        ensures
            r == FcomSpiReadCode::Unknown(0),
    {
        FcomSpiReadCode::Unknown(0)
    }
}

} // verus!
