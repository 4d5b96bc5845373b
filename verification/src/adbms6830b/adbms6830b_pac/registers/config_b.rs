//! Register Layouts and Bit Descriptions for Configuration Register Group B.
//!
//! For more info about these registers, see Table 103 on page 71 of the datasheet
//! and Table 56 on page 61 of the datasheet.

use vstd::prelude::*;

use crate::bits::{field16, get_bits16, put16, set_bits16};

verus! {

/// UV comparison voltage (VUV). 12-bit field. Default is 0x800.
///
/// Cell undervoltage threshold = VUV x 16 x 150uV x 1.5V
#[derive(Clone, Copy, Debug, PartialEq, Eq)]
pub struct UvComparisonVoltage(u16);

impl View for UvComparisonVoltage {
    type V = u16;

    /// The raw bits of the layout.
    closed spec fn view(&self) -> u16 {
        self.0
    }
}

impl UvComparisonVoltage {
    /// The value every field takes at power-up.
    pub fn new() -> (r: UvComparisonVoltage)
        ensures
            r@ == 0x0u16,
    {
        UvComparisonVoltage(0x0)
    }

    /// Wraps raw bits.
    pub fn from_bits(bits: u16) -> (r: UvComparisonVoltage)
        ensures
            r@ == bits,
    {
        UvComparisonVoltage(bits)
    }

    /// The raw bits.
    pub fn into_bits(self) -> (r: u16)
        ensures
            r == self@,
    {
        self.0
    }

    /// Cell undervoltage threshold = VUV x 16 x 150uV x 1.5V. Corresponds to `VUV[11:0]`.
    pub fn vuv(&self) -> (r: u16)
        ensures
            r == get_bits16(self@, 0, 0x7ff),
    {
        let v = field16(self.0, 0, 0x7ff);
        v
    }

    /// This layout with the `vuv` field replaced.
    pub fn with_vuv(self, v: u16) -> (r: UvComparisonVoltage)
        ensures
            r@ == set_bits16(self@, 0, 0x7ff, v as u16),
    {
        UvComparisonVoltage(put16(self.0, 0, 0x7ff, v as u16))
    }
}

} // verus!
