//! Field types relavent to the PWM registers. See Table 111 on page 74 of the datasheet.

use vstd::prelude::*;


verus! {

/// PWM configuration (PWMCx). Four-bit field. Defaults to `0b0000` (disabled).
///
/// This field refers to the PWM duty cycle configuration for a cell (`x`).
///
/// Note: The PWM period is 937 ms.
#[derive(Clone, Copy, Debug, PartialEq, Eq, Structural)]
pub enum PwmDutyCycleConfig {
    /// Disabled (default).
    Disabled,
    /// 6.6% duty cycle.
    Pct06_6,
    /// 13.2% duty cycle.
    Pct13_2,
    /// 19.8% duty cycle.
    Pct19_8,
    /// 26.4% duty cycle.
    Pct26_4,
    /// 33.0% duty cycle.
    Pct33_0,
    /// 39.6% duty cycle.
    Pct39_6,
    /// 46.2% duty cycle.
    Pct46_2,
    /// 52.8% duty cycle.
    Pct52_8,
    /// 59.4% duty cycle.
    Pct59_4,
    /// 66.0% duty cycle.
    Pct66_0,
    /// 72.6% duty cycle.
    Pct72_6,
    /// 79.2% duty cycle.
    Pct79_2,
    /// 85.8% duty cycle.
    Pct85_8,
    /// 92.4% duty cycle.
    Pct92_4,
    /// ~100% duty cycle.
    Pct100_0,
}

impl View for PwmDutyCycleConfig {
    type V = u8;

    /// The raw field value of this code.
    open spec fn view(&self) -> u8 {
        match self {
            PwmDutyCycleConfig::Disabled => 0u8,
            PwmDutyCycleConfig::Pct06_6 => 1u8,
            PwmDutyCycleConfig::Pct13_2 => 2u8,
            PwmDutyCycleConfig::Pct19_8 => 3u8,
            PwmDutyCycleConfig::Pct26_4 => 4u8,
            PwmDutyCycleConfig::Pct33_0 => 5u8,
            PwmDutyCycleConfig::Pct39_6 => 6u8,
            PwmDutyCycleConfig::Pct46_2 => 7u8,
            PwmDutyCycleConfig::Pct52_8 => 8u8,
            PwmDutyCycleConfig::Pct59_4 => 9u8,
            PwmDutyCycleConfig::Pct66_0 => 10u8,
            PwmDutyCycleConfig::Pct72_6 => 11u8,
            PwmDutyCycleConfig::Pct79_2 => 12u8,
            PwmDutyCycleConfig::Pct85_8 => 13u8,
            PwmDutyCycleConfig::Pct92_4 => 14u8,
            PwmDutyCycleConfig::Pct100_0 => 15u8,
        }
    }
}

impl PwmDutyCycleConfig {
    /// Every variant stands for the field value the datasheet gives it.
    pub proof fn lemma_codes()
        ensures
            PwmDutyCycleConfig::Disabled@ == 0u8,
            PwmDutyCycleConfig::Pct06_6@ == 1u8,
            PwmDutyCycleConfig::Pct13_2@ == 2u8,
            PwmDutyCycleConfig::Pct19_8@ == 3u8,
            PwmDutyCycleConfig::Pct26_4@ == 4u8,
            PwmDutyCycleConfig::Pct33_0@ == 5u8,
            PwmDutyCycleConfig::Pct39_6@ == 6u8,
            PwmDutyCycleConfig::Pct46_2@ == 7u8,
            PwmDutyCycleConfig::Pct52_8@ == 8u8,
            PwmDutyCycleConfig::Pct59_4@ == 9u8,
            PwmDutyCycleConfig::Pct66_0@ == 10u8,
            PwmDutyCycleConfig::Pct72_6@ == 11u8,
            PwmDutyCycleConfig::Pct79_2@ == 12u8,
            PwmDutyCycleConfig::Pct85_8@ == 13u8,
            PwmDutyCycleConfig::Pct92_4@ == 14u8,
            PwmDutyCycleConfig::Pct100_0@ == 15u8,
    {
    }
}

impl PwmDutyCycleConfig {
    /// The duty cycle a variant names, in tenths of a percent (`Pct100_0` stands for the
    /// "~100%" of the top code).
    pub open spec fn duty_tenths(self) -> int {
        match self {
            PwmDutyCycleConfig::Disabled => 0,
            PwmDutyCycleConfig::Pct06_6 => 66,
            PwmDutyCycleConfig::Pct13_2 => 132,
            PwmDutyCycleConfig::Pct19_8 => 198,
            PwmDutyCycleConfig::Pct26_4 => 264,
            PwmDutyCycleConfig::Pct33_0 => 330,
            PwmDutyCycleConfig::Pct39_6 => 396,
            PwmDutyCycleConfig::Pct46_2 => 462,
            PwmDutyCycleConfig::Pct52_8 => 528,
            PwmDutyCycleConfig::Pct59_4 => 594,
            PwmDutyCycleConfig::Pct66_0 => 660,
            PwmDutyCycleConfig::Pct72_6 => 726,
            PwmDutyCycleConfig::Pct79_2 => 792,
            PwmDutyCycleConfig::Pct85_8 => 858,
            PwmDutyCycleConfig::Pct92_4 => 924,
            PwmDutyCycleConfig::Pct100_0 => 1000,
        }
    }

    /// The code of a duty cycle counts its 6.6% steps: below the top code, a variant's duty
    /// cycle is its code times 6.6%, and the top code 15 is the one for about 100%. So a longer
    /// duty cycle always has a larger code.
    pub proof fn lemma_duty_steps(a: PwmDutyCycleConfig, b: PwmDutyCycleConfig)
        ensures
            a@ <= 15,
            a@ < 15 ==> a.duty_tenths() == 66 * a@,
            a@ == 15 <==> a == PwmDutyCycleConfig::Pct100_0,
            a.duty_tenths() < b.duty_tenths() <==> a@ < b@,
    {
    }
}

impl PwmDutyCycleConfig {
    /// The power-up value of this field.
    pub const DEFAULT: PwmDutyCycleConfig = PwmDutyCycleConfig::Disabled;

    /// The code a raw field value decodes to; values with no code of their own decode to `Disabled`.
    pub open spec fn spec_from_bits(bits: u8) -> PwmDutyCycleConfig {
        if bits % 16 == 1 {
            PwmDutyCycleConfig::Pct06_6
        } else if bits % 16 == 2 {
            PwmDutyCycleConfig::Pct13_2
        } else if bits % 16 == 3 {
            PwmDutyCycleConfig::Pct19_8
        } else if bits % 16 == 4 {
            PwmDutyCycleConfig::Pct26_4
        } else if bits % 16 == 5 {
            PwmDutyCycleConfig::Pct33_0
        } else if bits % 16 == 6 {
            PwmDutyCycleConfig::Pct39_6
        } else if bits % 16 == 7 {
            PwmDutyCycleConfig::Pct46_2
        } else if bits % 16 == 8 {
            PwmDutyCycleConfig::Pct52_8
        } else if bits % 16 == 9 {
            PwmDutyCycleConfig::Pct59_4
        } else if bits % 16 == 10 {
            PwmDutyCycleConfig::Pct66_0
        } else if bits % 16 == 11 {
            PwmDutyCycleConfig::Pct72_6
        } else if bits % 16 == 12 {
            PwmDutyCycleConfig::Pct79_2
        } else if bits % 16 == 13 {
            PwmDutyCycleConfig::Pct85_8
        } else if bits % 16 == 14 {
            PwmDutyCycleConfig::Pct92_4
        } else if bits % 16 == 15 {
            PwmDutyCycleConfig::Pct100_0
        } else {
            PwmDutyCycleConfig::Disabled
        }
    }

    /// Decodes a raw field value (only its low bits count).
    pub fn from_bits(bits: u8) -> (r: PwmDutyCycleConfig)
        ensures
            r == PwmDutyCycleConfig::spec_from_bits(bits),
    {
        proof {
            crate::bits::lemma_u8_low_masks(bits);
        }
        let v = bits & 15;
        if v == 1 {
            PwmDutyCycleConfig::Pct06_6
        } else if v == 2 {
            PwmDutyCycleConfig::Pct13_2
        } else if v == 3 {
            PwmDutyCycleConfig::Pct19_8
        } else if v == 4 {
            PwmDutyCycleConfig::Pct26_4
        } else if v == 5 {
            PwmDutyCycleConfig::Pct33_0
        } else if v == 6 {
            PwmDutyCycleConfig::Pct39_6
        } else if v == 7 {
            PwmDutyCycleConfig::Pct46_2
        } else if v == 8 {
            PwmDutyCycleConfig::Pct52_8
        } else if v == 9 {
            PwmDutyCycleConfig::Pct59_4
        } else if v == 10 {
            PwmDutyCycleConfig::Pct66_0
        } else if v == 11 {
            PwmDutyCycleConfig::Pct72_6
        } else if v == 12 {
            PwmDutyCycleConfig::Pct79_2
        } else if v == 13 {
            PwmDutyCycleConfig::Pct85_8
        } else if v == 14 {
            PwmDutyCycleConfig::Pct92_4
        } else if v == 15 {
            PwmDutyCycleConfig::Pct100_0
        } else {
            PwmDutyCycleConfig::Disabled
        }
    }

    /// The raw field value of this code.
    pub fn into_bits(self) -> (r: u8)
        ensures
            r == self@,
            r <= 15,
    {
        match self {
            PwmDutyCycleConfig::Disabled => 0,
            PwmDutyCycleConfig::Pct06_6 => 1,
            PwmDutyCycleConfig::Pct13_2 => 2,
            PwmDutyCycleConfig::Pct19_8 => 3,
            PwmDutyCycleConfig::Pct26_4 => 4,
            PwmDutyCycleConfig::Pct33_0 => 5,
            PwmDutyCycleConfig::Pct39_6 => 6,
            PwmDutyCycleConfig::Pct46_2 => 7,
            PwmDutyCycleConfig::Pct52_8 => 8,
            PwmDutyCycleConfig::Pct59_4 => 9,
            PwmDutyCycleConfig::Pct66_0 => 10,
            PwmDutyCycleConfig::Pct72_6 => 11,
            PwmDutyCycleConfig::Pct79_2 => 12,
            PwmDutyCycleConfig::Pct85_8 => 13,
            PwmDutyCycleConfig::Pct92_4 => 14,
            PwmDutyCycleConfig::Pct100_0 => 15,
        }
    }

    /// Decoding the raw value of a code gives the code back.
    pub proof fn lemma_roundtrip(self)
        ensures
            PwmDutyCycleConfig::spec_from_bits(self@) == self,
    {
    }
}

impl Default for PwmDutyCycleConfig {
    fn default() -> (r: PwmDutyCycleConfig)
        ensures
            r == PwmDutyCycleConfig::Disabled,
    {
        PwmDutyCycleConfig::Disabled
    }
}

} // verus!
