//! Field types relavent to Configuration Register B. See Table 103 on page 71 of the datasheet.

use vstd::prelude::*;

use crate::bits::{field16, field8, get_bits16, get_bits8, lemma_get_set_same16, put16, put8, set_bits16, set_bits8};
use crate::adbms6830b::adbms6830b_pac::registers::table107::round_div;

verus! {

/// Microvolts per VUV/VOV code increment.
const LSB_MICROVOLTS: i32 = 2400;
/// The offset of the threshold formula (+1.5 V).
const OFFSET_MICROVOLTS: i32 = 1_500_000;
/// Max threshold the register can represent in microvolts.
/// This is around +6,412,800 uV / +6.4128 V.
const MAX_MICROVOLTS: i32 = 6_412_800;
/// Min threshold the register can represent. This is around -3,415,200 uV, or around -3.4152 V.
const MIN_MICROVOLTS: i32 = -3_415_200;

/// The value of a 12-bit two's complement code (only the low 12 bits of `code` count).
pub open spec fn signed12(code: u16) -> int {
    if code % 4096 < 2048 {
        (code % 4096) as int
    } else {
        code % 4096 - 4096
    }
}

/// The threshold of a VUV/VOV code: `code x 16 x 150 uV + 1.5 V`.
pub open spec fn vuv_vov_to_microvolts_spec(code: u16) -> int {
    signed12(code) * 2400 + 1_500_000
}

/// The 12-bit code nearest a threshold, or `None` outside the representable range.
pub open spec fn vuv_vov_from_microvolts_spec(microvolts: i32) -> Option<u16> {
    if microvolts < -3_415_200 || microvolts > 6_412_800 {
        None
    } else {
        let c = round_div(microvolts - 1_500_000, 2400);
        Some((if c >= 0 { c } else { c + 4096 }) as u16)
    }
}

/// A 12-bit VUV/VOV code converted to a threshold and back is the same code: every code's
/// threshold lies in the representable range and rounds to itself.
pub proof fn lemma_vuv_vov_code_roundtrip(code: u16)
    requires
        code <= 0xfff,
    ensures
        -3_415_200 <= vuv_vov_to_microvolts_spec(code) <= 6_412_800,
        vuv_vov_from_microvolts_spec(vuv_vov_to_microvolts_spec(code) as i32) == Some(code),
{
    let s = signed12(code);
    let n = s * 2400;
    assert(-2048 <= s <= 2047);
    if s >= 0 {
        assert((n + 1200) / 2400 == s) by (nonlinear_arith)
            requires
                n == s * 2400,
                s >= 0,
        ;
    } else {
        assert((-n + 1200) / 2400 == -s) by (nonlinear_arith)
            requires
                n == s * 2400,
                s < 0,
        ;
    }
    assert(round_div(n, 2400) == s);
}

/// A threshold in the representable range converted to a code and back lands within half a
/// step (1,200 uV) of where it started, on a whole number of 2,400 uV steps from +1.5 V. This
/// holds of `UndervoltageThreshold` and `OvervoltageThreshold` alike: their `from_microvolts`
/// and `as_microvolts` are these two conversions.
pub proof fn lemma_vuv_vov_microvolts_roundtrip(microvolts: i32)
    requires
        -3_415_200 <= microvolts <= 6_412_800,
    ensures
        vuv_vov_from_microvolts_spec(microvolts) matches Some(code) && code <= 0xfff && ({
            let back = vuv_vov_to_microvolts_spec(code);
            &&& -1200 <= back - microvolts <= 1200
            &&& (back - 1_500_000) % 2400 == 0
        }),
{
    let n = microvolts - 1_500_000;
    let c = round_div(n, 2400);
    if n >= 0 {
        assert(0 <= c <= 2047 && -1200 <= c * 2400 - n <= 1200) by (nonlinear_arith)
            requires
                c == (n + 1200) / 2400,
                0 <= n <= 4_912_800,
        ;
    } else {
        assert(-2048 <= c <= 0 && -1200 <= c * 2400 - n <= 1200) by (nonlinear_arith)
            requires
                c == -((-n + 1200) / 2400),
                -4_915_200 <= n < 0,
        ;
    }
}

/// Takes in a desired UV/OV threshold in microvolts, and returns the raw 12-bit VUV/VOV code.
///
/// Cell threshold = VUV x 16 x 150uV + 1.5V, with VUV/VOV a signed 12-bit (two's complement) code;
/// the inverse is rounded to the nearest code.
///
/// This will return `None` if the microvolts input is outside the representable range.
fn vuv_vov_from_microvolts(microvolts: i32) -> (r: Option<u16>)
    ensures
        r == vuv_vov_from_microvolts_spec(microvolts),
        r matches Some(v) ==> v <= 0xfff,
{
    if microvolts < MIN_MICROVOLTS || microvolts > MAX_MICROVOLTS {
        return None;
    }
    let numerator = microvolts - OFFSET_MICROVOLTS;
    let code = if numerator >= 0 {
        ((numerator + LSB_MICROVOLTS / 2) as u32 / LSB_MICROVOLTS as u32) as i32
    } else {
        -(((-numerator + LSB_MICROVOLTS / 2) as u32 / LSB_MICROVOLTS as u32) as i32)
    };
    assert(-2048 <= code <= 2047);
    if code >= 0 {
        Some(code as u16)
    } else {
        Some((code + 4096) as u16)
    }
}

/// Converts a raw 12-bit two's complement VUV/VOV code back into a threshold in microvolts.
fn vuv_vov_to_microvolts(code: u16) -> (r: i32)
    ensures
        r == vuv_vov_to_microvolts_spec(code),
{
    let low = (code % 4096) as i32;
    let signed: i32 = if low < 2048 {
        low
    } else {
        low - 4096
    };
    signed * LSB_MICROVOLTS + OFFSET_MICROVOLTS
}

/// Undervoltage threshold/comparison voltage (VUV). Signed 12-bit field. Default is for VUV is 0x800 (corresponding to 3,415,200 uV / -3.4152 V).
///
/// This type provides the `from_microvolts()` function to construct a `UndervoltageThreshold` based on a desired
/// undervoltage threshold in uV. If you want to construct the raw VUV[11:0] field value directly, use `with_value()`.
///
/// This type also provides the `as_microvolts()` function to convert an `UndervoltageThreshold` into microvolts (could be useful on reads).
///
/// Note: Cell undervoltage threshold = VUV x 16 x 150uV + 1.5V (VUV is signed two's complement).
#[derive(Clone, Copy, Debug, PartialEq, Eq)]
pub struct UndervoltageThreshold(u16);

impl View for UndervoltageThreshold {
    type V = u16;

    /// The raw bits of the layout.
    closed spec fn view(&self) -> u16 {
        self.0
    }
}

impl UndervoltageThreshold {
    /// The value every field takes at power-up.
    pub fn new() -> (r: UndervoltageThreshold)
        ensures
            r@ == 0x800u16,
    {
        UndervoltageThreshold(0x800)
    }

    /// Wraps raw bits.
    pub fn from_bits(bits: u16) -> (r: UndervoltageThreshold)
        ensures
            r@ == bits,
    {
        UndervoltageThreshold(bits)
    }

    /// The raw bits.
    pub fn into_bits(self) -> (r: u16)
        ensures
            r == self@,
    {
        self.0
    }

    /// Cell undervoltage threshold = VUV x 16 x 150uV + 1.5V. Corresponds to `VUV[11:0]`.
    pub fn value(&self) -> (r: u16)
        ensures
            r == get_bits16(self@, 0, 0xfff),
    {
        let v = field16(self.0, 0, 0xfff);
        v
    }

    /// This layout with the `value` field replaced.
    pub fn with_value(self, v: u16) -> (r: UndervoltageThreshold)
        ensures
            r@ == set_bits16(self@, 0, 0xfff, v as u16),
    {
        UndervoltageThreshold(put16(self.0, 0, 0xfff, v as u16))
    }

    /// Max threshold the register can represent in microvolts.
    pub const MAX_MICROVOLTS: i32 = 6_412_800;
    /// Min threshold the register can represent in microvolts.
    pub const MIN_MICROVOLTS: i32 = -3_415_200;

    /// Creates a new `UndervoltageThreshold` from a desired threshold voltage.
    ///
    /// ### Parameters
    /// - `microvolts`: Desired threshold, in uV. May be negative.
    ///
    /// This function will return `None` if your input is outside the `MIN_MICROVOLTS` (-3,415,200 uV/~-3.4152 V)
    /// to `MAX_MICROVOLTS` (6,412,800 uV/~6.4128 V) range.
    pub fn from_microvolts(microvolts: i32) -> (r: Option<UndervoltageThreshold>)
        ensures
            match vuv_vov_from_microvolts_spec(microvolts) {
                Some(code) => r matches Some(v) && get_bits16(v@, 0, 0xfff) == code,
                None => r is None,
            },
    {
        match vuv_vov_from_microvolts(microvolts) {
            Some(value) => {
                let r0 = UndervoltageThreshold::new();
                let r = r0.with_value(value);
                proof {
                    lemma_get_set_same16(r0@, value);
                }
                Some(r)
            },
            None => None,
        }
    }

    /// Returns the threshold this setting represents, in microvolts (may be negative).
    pub fn as_microvolts(&self) -> (r: i32)
        ensures
            r == vuv_vov_to_microvolts_spec(get_bits16(self@, 0, 0xfff)),
    {
        vuv_vov_to_microvolts(self.value())
    }
}

impl Default for UndervoltageThreshold {
    fn default() -> (r: UndervoltageThreshold)
        ensures
            r@ == 0x800u16,
    {
        UndervoltageThreshold::new()
    }
}

/// Overvoltage threshold/comparison voltage (VOV). Signed 12-bit field. Default for VOV is 0x7FF (corresponding to 6,412,800 uV / 6.4128 V).
///
/// This type provides the `from_microvolts()` function to construct a `OvervoltageThreshold` based on a desired
/// overvoltage threshold in uV. If you want to construct the raw VOV[11:0] field value directly, use `with_value()`.
///
/// This type also provides the `as_microvolts()` function to convert an `OvervoltageThreshold` into microvolts (could be useful on reads).
///
/// Note: Cell overvoltage threshold = VOV * 16 * 150 uV + 1.5 V (VOV is signed two's complement).
#[derive(Clone, Copy, Debug, PartialEq, Eq)]
pub struct OvervoltageThreshold(u16);

impl View for OvervoltageThreshold {
    type V = u16;

    /// The raw bits of the layout.
    closed spec fn view(&self) -> u16 {
        self.0
    }
}

impl OvervoltageThreshold {
    /// The value every field takes at power-up.
    pub fn new() -> (r: OvervoltageThreshold)
        ensures
            r@ == 0x7ffu16,
    {
        OvervoltageThreshold(0x7ff)
    }

    /// Wraps raw bits.
    pub fn from_bits(bits: u16) -> (r: OvervoltageThreshold)
        ensures
            r@ == bits,
    {
        OvervoltageThreshold(bits)
    }

    /// The raw bits.
    pub fn into_bits(self) -> (r: u16)
        ensures
            r == self@,
    {
        self.0
    }

    /// Cell overvoltage threshold = VOV * 16 * 150 uV + 1.5 V. Corresponds to `VOV[11:0]`.
    pub fn value(&self) -> (r: u16)
        ensures
            r == get_bits16(self@, 0, 0xfff),
    {
        let v = field16(self.0, 0, 0xfff);
        v
    }

    /// This layout with the `value` field replaced.
    pub fn with_value(self, v: u16) -> (r: OvervoltageThreshold)
        ensures
            r@ == set_bits16(self@, 0, 0xfff, v as u16),
    {
        OvervoltageThreshold(put16(self.0, 0, 0xfff, v as u16))
    }

    /// Max threshold the register can represent in microvolts.
    pub const MAX_MICROVOLTS: i32 = 6_412_800;
    /// Min threshold the register can represent in microvolts.
    pub const MIN_MICROVOLTS: i32 = -3_415_200;

    /// Creates a new `OvervoltageThreshold` from a desired threshold voltage.
    ///
    /// ### Parameters
    /// - `microvolts`: Desired threshold, in uV. May be negative.
    ///
    /// This function will return `None` if your input is outside the `MIN_MICROVOLTS` (-3,415,200 uV/~-3.4152 V)
    /// to `MAX_MICROVOLTS` (6,412,800 uV/~6.4128 V) range.
    pub fn from_microvolts(microvolts: i32) -> (r: Option<OvervoltageThreshold>)
        ensures
            match vuv_vov_from_microvolts_spec(microvolts) {
                Some(code) => r matches Some(v) && get_bits16(v@, 0, 0xfff) == code,
                None => r is None,
            },
    {
        match vuv_vov_from_microvolts(microvolts) {
            Some(value) => {
                let r0 = OvervoltageThreshold::new();
                let r = r0.with_value(value);
                proof {
                    lemma_get_set_same16(r0@, value);
                }
                Some(r)
            },
            None => None,
        }
    }

    /// Returns the threshold this setting represents, in microvolts (may be negative).
    pub fn as_microvolts(&self) -> (r: i32)
        ensures
            r == vuv_vov_to_microvolts_spec(get_bits16(self@, 0, 0xfff)),
    {
        vuv_vov_to_microvolts(self.value())
    }
}

impl Default for OvervoltageThreshold {
    fn default() -> (r: OvervoltageThreshold)
        ensures
            r@ == 0x7ffu16,
    {
        OvervoltageThreshold::new()
    }
}

/// Lets you configure the discharge timeout value, or read back the timer's status (DCTO). Six-bit field.
///
/// Note: This setting causes different behaviors depending on write/read.
/// - Write = Set new value, 16-minute or 1-minute increments according to DTRNG read.
/// - Read = remaining value, 16-minute or 1-minute increments according to DTRNG.
///
/// To convert between increments and minutes, you need to match on your current `DischargeTimerRange` setting:
/// - If `DischargeTimerRange::ShortRange`, minutes = increments() * 1 (since 1 increment = 1 minute)
/// - If `DischargeTimerRange::LongRange`, minutes = increments() * 16 (since 1 increment = 16 minutes)
#[derive(Clone, Copy, Debug, PartialEq, Eq)]
pub struct DischargeTimerStatus(u8);

impl View for DischargeTimerStatus {
    type V = u8;

    /// The raw bits of the layout.
    closed spec fn view(&self) -> u8 {
        self.0
    }
}

impl DischargeTimerStatus {
    /// The value every field takes at power-up.
    pub fn new() -> (r: DischargeTimerStatus)
        ensures
            r@ == 0x0u8,
    {
        DischargeTimerStatus(0x0)
    }

    /// Wraps raw bits.
    pub fn from_bits(bits: u8) -> (r: DischargeTimerStatus)
        ensures
            r@ == bits,
    {
        DischargeTimerStatus(bits)
    }

    /// The raw bits.
    pub fn into_bits(self) -> (r: u8)
        ensures
            r == self@,
    {
        self.0
    }

    /// Number of increments remaining on the timer. This value can range between 0 and 63. Defaults to 0.
    ///
    /// Note: The meaning of an increment depends on the `DischargeTimerRange`/DTRNG value set.
    pub fn increments(&self) -> (r: u8)
        ensures
            r == get_bits8(self@, 0, 0x3f),
    {
        let v = field8(self.0, 0, 0x3f);
        v
    }

    /// This layout with the `increments` field replaced.
    pub fn with_increments(self, v: u8) -> (r: DischargeTimerStatus)
        ensures
            r@ == set_bits8(self@, 0, 0x3f, v as u8),
    {
        DischargeTimerStatus(put8(self.0, 0, 0x3f, v as u8))
    }

    /// Indicates whether or not we are timed out. In other words, this checks if our remaining increments == 0 or not.
    ///
    /// - `false` means that there's one or more increments remaining.
    /// - `true` means that there's zero increments remaining. This means that we've timed out, or that
    /// `DischargeTimerStatus` simply hasn't been set yet (since it defaults to 0).
    pub fn timed_out(&self) -> (r: bool)
        ensures
            r == (get_bits8(self@, 0, 0x3f) == 0),
    {
        self.increments() == 0
    }
}

impl Default for DischargeTimerStatus {
    fn default() -> (r: DischargeTimerStatus)
        ensures
            r@ == 0x0u8,
    {
        DischargeTimerStatus::new()
    }
}
/// Lets you enable/disable the discharge timer monitor (DTMEN). One-bit field.
#[derive(Clone, Copy, Debug, PartialEq, Eq, Structural)]
pub enum DischargeTimerMonitor {
    /// Disables the discharge timer monitor function (default).
    Disabled,
    /// Enables the discharge timer monitor function if the device transitions to the extended balancing state.
    Enabled,
}

impl View for DischargeTimerMonitor {
    type V = u8;

    /// The raw field value of this code.
    open spec fn view(&self) -> u8 {
        match self {
            DischargeTimerMonitor::Disabled => 0u8,
            DischargeTimerMonitor::Enabled => 1u8,
        }
    }
}

impl DischargeTimerMonitor {
    /// Every variant stands for the field value the datasheet gives it.
    pub proof fn lemma_codes()
        ensures
            DischargeTimerMonitor::Disabled@ == 0u8,
            DischargeTimerMonitor::Enabled@ == 1u8,
    {
    }
}

impl DischargeTimerMonitor {
    /// The power-up value of this field.
    pub const DEFAULT: DischargeTimerMonitor = DischargeTimerMonitor::Disabled;

    /// The code a raw field value decodes to; values with no code of their own decode to `Disabled`.
    pub open spec fn spec_from_bits(bits: u8) -> DischargeTimerMonitor {
        if bits % 2 == 1 {
            DischargeTimerMonitor::Enabled
        } else {
            DischargeTimerMonitor::Disabled
        }
    }

    /// Decodes a raw field value (only its low bits count).
    pub fn from_bits(bits: u8) -> (r: DischargeTimerMonitor)
        ensures
            r == DischargeTimerMonitor::spec_from_bits(bits),
    {
        proof {
            crate::bits::lemma_u8_low_masks(bits);
        }
        let v = bits & 1;
        if v == 1 {
            DischargeTimerMonitor::Enabled
        } else {
            DischargeTimerMonitor::Disabled
        }
    }

    /// The raw field value of this code.
    pub fn into_bits(self) -> (r: u8)
        ensures
            r == self@,
            r <= 1,
    {
        match self {
            DischargeTimerMonitor::Disabled => 0,
            DischargeTimerMonitor::Enabled => 1,
        }
    }

    /// Decoding the raw value of a code gives the code back.
    pub proof fn lemma_roundtrip(self)
        ensures
            DischargeTimerMonitor::spec_from_bits(self@) == self,
    {
    }
}

impl Default for DischargeTimerMonitor {
    fn default() -> (r: DischargeTimerMonitor)
        ensures
            r == DischargeTimerMonitor::Disabled,
    {
        DischargeTimerMonitor::Disabled
    }
}

/// Lets you configure the discharge timer range (DTRNG). One-bit field.
#[derive(Clone, Copy, Debug, PartialEq, Eq, Structural)]
pub enum DischargeTimerRange {
    /// Uses the short discharge timer range (0 to 63 minutes in 1 minute increments). (default)
    ShortRange,
    /// Uses the long discharge timer range (0 to 16.8 hours in 16 minute increments).
    LongRange,
}

impl View for DischargeTimerRange {
    type V = u8;

    /// The raw field value of this code.
    open spec fn view(&self) -> u8 {
        match self {
            DischargeTimerRange::ShortRange => 0u8,
            DischargeTimerRange::LongRange => 1u8,
        }
    }
}

impl DischargeTimerRange {
    /// Every variant stands for the field value the datasheet gives it.
    pub proof fn lemma_codes()
        ensures
            DischargeTimerRange::ShortRange@ == 0u8,
            DischargeTimerRange::LongRange@ == 1u8,
    {
    }
}

impl DischargeTimerRange {
    /// The power-up value of this field.
    pub const DEFAULT: DischargeTimerRange = DischargeTimerRange::ShortRange;

    /// The code a raw field value decodes to; values with no code of their own decode to `ShortRange`.
    pub open spec fn spec_from_bits(bits: u8) -> DischargeTimerRange {
        if bits % 2 == 1 {
            DischargeTimerRange::LongRange
        } else {
            DischargeTimerRange::ShortRange
        }
    }

    /// Decodes a raw field value (only its low bits count).
    pub fn from_bits(bits: u8) -> (r: DischargeTimerRange)
        ensures
            r == DischargeTimerRange::spec_from_bits(bits),
    {
        proof {
            crate::bits::lemma_u8_low_masks(bits);
        }
        let v = bits & 1;
        if v == 1 {
            DischargeTimerRange::LongRange
        } else {
            DischargeTimerRange::ShortRange
        }
    }

    /// The raw field value of this code.
    pub fn into_bits(self) -> (r: u8)
        ensures
            r == self@,
            r <= 1,
    {
        match self {
            DischargeTimerRange::ShortRange => 0,
            DischargeTimerRange::LongRange => 1,
        }
    }

    /// Decoding the raw value of a code gives the code back.
    pub proof fn lemma_roundtrip(self)
        ensures
            DischargeTimerRange::spec_from_bits(self@) == self,
    {
    }
}

impl Default for DischargeTimerRange {
    fn default() -> (r: DischargeTimerRange)
        ensures
            r == DischargeTimerRange::ShortRange,
    {
        DischargeTimerRange::ShortRange
    }
}

/// Lets you configure the shorting switch for a discharge cell `x`. One-bit field.
#[derive(Clone, Copy, Debug, PartialEq, Eq, Structural)]
pub enum DischargeCellConfig {
    /// Continuously turns off shorting switch for Cell `x` (default).
    ShortingSwitchOff,
    /// Continuously turns on shorting switch for Cell `x`.
    ShortingSwitchOn,
}

impl View for DischargeCellConfig {
    type V = u8;

    /// The raw field value of this code.
    open spec fn view(&self) -> u8 {
        match self {
            DischargeCellConfig::ShortingSwitchOff => 0u8,
            DischargeCellConfig::ShortingSwitchOn => 1u8,
        }
    }
}

impl DischargeCellConfig {
    /// Every variant stands for the field value the datasheet gives it.
    pub proof fn lemma_codes()
        ensures
            DischargeCellConfig::ShortingSwitchOff@ == 0u8,
            DischargeCellConfig::ShortingSwitchOn@ == 1u8,
    {
    }
}

impl DischargeCellConfig {
    /// The power-up value of this field.
    pub const DEFAULT: DischargeCellConfig = DischargeCellConfig::ShortingSwitchOff;

    /// The code a raw field value decodes to; values with no code of their own decode to `ShortingSwitchOff`.
    pub open spec fn spec_from_bits(bits: u8) -> DischargeCellConfig {
        if bits % 2 == 1 {
            DischargeCellConfig::ShortingSwitchOn
        } else {
            DischargeCellConfig::ShortingSwitchOff
        }
    }

    /// Decodes a raw field value (only its low bits count).
    pub fn from_bits(bits: u8) -> (r: DischargeCellConfig)
        ensures
            r == DischargeCellConfig::spec_from_bits(bits),
    {
        proof {
            crate::bits::lemma_u8_low_masks(bits);
        }
        let v = bits & 1;
        if v == 1 {
            DischargeCellConfig::ShortingSwitchOn
        } else {
            DischargeCellConfig::ShortingSwitchOff
        }
    }

    /// The raw field value of this code.
    pub fn into_bits(self) -> (r: u8)
        ensures
            r == self@,
            r <= 1,
    {
        match self {
            DischargeCellConfig::ShortingSwitchOff => 0,
            DischargeCellConfig::ShortingSwitchOn => 1,
        }
    }

    /// Decoding the raw value of a code gives the code back.
    pub proof fn lemma_roundtrip(self)
        ensures
            DischargeCellConfig::spec_from_bits(self@) == self,
    {
    }
}

impl Default for DischargeCellConfig {
    fn default() -> (r: DischargeCellConfig)
        ensures
            r == DischargeCellConfig::ShortingSwitchOff,
    {
        DischargeCellConfig::ShortingSwitchOff
    }
}

} // verus!
