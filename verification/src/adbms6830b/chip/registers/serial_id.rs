//! Serial ID Registers.

use vstd::prelude::*;

use crate::bits::{field, from_le6, get_bits, le_bytes6, of_le6, to_le6};
use crate::adbms6830b::chip::commands::{self, CommandFrame};
use crate::adbms6830b::chip::registers::{ReadableGroup, WritableGroup};

verus! {

/// Serial ID register group. Contains the 48-bit SID[47:0] field.
///
/// This value is a constant identifier for the chip. You can read it whenever you want to
/// determine the exact chip you are talking to. If this value ever comes back unexpected at runtime,
/// either some transmission error corrupted the reading (although this should be caught by the PEC check, which
/// would report `PecStatus::Failed` for that chip's response), or you're not reading the chip(s) you are expecting
/// (or in the order you are expecting).
///
/// To get the overall unique ID, use the `.sid()` function. The `.device_id()` and `.is_adbms6830b()` functions
/// may also be useful if you need to confirm that a chip is in-fact an ADBMS6830B and not some other chip/variant.
///
/// See Table 53 and Table 54 on page 61 of the datasheet.
#[derive(Clone, Copy, Debug, PartialEq, Eq)]
pub struct SerialId(u64);

impl View for SerialId {
    type V = u64;

    /// The raw bits of the layout.
    closed spec fn view(&self) -> u64 {
        self.0
    }
}

impl SerialId {
    /// The value every field takes at power-up.
    pub fn new() -> (r: SerialId)
        ensures
            r@ == 0x0u64,
    {
        SerialId(0x0)
    }

    /// Wraps raw bits.
    pub fn from_bits(bits: u64) -> (r: SerialId)
        ensures
            r@ == bits,
    {
        SerialId(bits)
    }

    /// The raw bits.
    pub fn into_bits(self) -> (r: u64)
        ensures
            r == self@,
    {
        self.0
    }

    /// Serializes the register group into its six payload bytes, byte 0 first.
    pub fn to_bytes(self) -> (r: [u8; 6])
        ensures
            r@ == le_bytes6(self@),
    {
        to_le6(self.0)
    }

    /// Reconstructs the register group from its six payload bytes, byte 0 first.
    pub fn from_bytes(bytes: [u8; 6]) -> (r: SerialId)
        ensures
            r@ == from_le6(bytes@),
    {
        SerialId(of_le6(bytes))
    }

    /// This chip's 48-bit Serial ID value. Corresponds to `SID[47:0]`.
    pub fn sid(&self) -> (r: u64)
        ensures
            r == get_bits(self@, 0, 0xffffffffffff),
    {
        let v = field(self.0, 0, 0xffffffffffff);
        v
    }

    /// Device ID (`SID[14:9]`, aka SIDR1 bits `[6:1]`). See Table 54 on page 61 of the datasheet.
    ///
    /// This constant is a subsection of the overall 48-bit `.sid()` field. However, it is constant for
    /// all ADBMS6830B chips, so it can serve as a quick sanity check to make sure you're actually talking to
    /// an ADBMS6830B. See the `.device_id()` and `is_adbms6830b()` functions.
    pub const ADBMS6830B_DEVICE_ID: u8 = 0b00_0011;

    /// Returns the device ID subsection of the chip's serial ID.
    ///
    /// This should always be equal to `ADBMS6830B_DEVICE_ID`, assuming the chip
    /// you are talking to is an ADBMS6830B.
    pub fn device_id(&self) -> (r: u8)
        ensures
            r == get_bits(get_bits(self@, 0, 0xffffffffffff), 9, 0x3F),
    {
        let sid = self.sid();
        field(sid, 9, 0x3F) as u8
    }

    /// Checks whether this chip's device ID matches the ADBMS6830B.
    pub fn is_adbms6830b(&self) -> (r: bool)
        ensures
            r == (get_bits(get_bits(self@, 0, 0xffffffffffff), 9, 0x3F) == 3),
    {
        self.device_id() == Self::ADBMS6830B_DEVICE_ID
    }
}

impl ReadableGroup for SerialId {
    open spec fn spec_read_command() -> (bool, u16) {
        (false, 0b00000101100u16)
    }

    fn read_command() -> (r: CommandFrame) {
        commands::misc::rdsid().frame()
    }

    fn from_bytes(bytes: [u8; 6]) -> (r: SerialId) {
        SerialId::from_bytes(bytes)
    }
}

} // verus!
