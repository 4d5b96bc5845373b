//! Shared helpers for the result register types laid out in Table 107 on page
//! 72 of the datasheet: 16-bit two's complement ADC codes and their voltages.

use vstd::prelude::*;

verus! {

/// `n / d` rounded to the nearest integer, halves away from zero.
pub open spec fn round_div(n: int, d: int) -> int {
    if n >= 0 {
        (n + d / 2) / d
    } else {
        -((-n + d / 2) / d)
    }
}

/// The value of a 16-bit two's complement code.
pub open spec fn signed16(code: u16) -> int {
    if code < 0x8000 {
        code as int
    } else {
        code - 0x10000
    }
}

/// The 16-bit two's complement code of `c` (for `-2^15 <= c < 2^15`).
pub open spec fn twos16(c: int) -> u16 {
    if c >= 0 {
        c as u16
    } else {
        (c + 0x10000) as u16
    }
}

/// The voltage in microvolts of a code with step `lsb` and offset `offset`.
pub open spec fn code_to_microvolts(code: u16, lsb: int, offset: int) -> int {
    signed16(code) * lsb + offset
}

/// The code whose voltage is nearest `microvolts`, or `None` outside `[min, max]`.
pub open spec fn microvolts_to_code(microvolts: int, lsb: int, offset: int, min: int, max: int) -> Option<u16> {
    if microvolts < min || microvolts > max {
        None
    } else {
        Some(twos16(round_div(microvolts - offset, lsb)))
    }
}

/// Rounds `numerator / lsb` half away from zero, in machine integers.
fn round_div_exec(numerator: i32, lsb: i32) -> (r: i32)
    requires
        0 < lsb <= 10_000,
        lsb % 2 == 0,
        -1_000_000_000 <= numerator <= 1_000_000_000,
    ensures
        r == round_div(numerator as int, lsb as int),
{
    let half = lsb / 2;
    if numerator >= 0 {
        ((numerator + half) as u32 / lsb as u32) as i32
    } else {
        -(((-numerator + half) as u32 / lsb as u32) as i32)
    }
}

/// Internal type for the registers from the first row of Table 107.
/// Aka all of these registers:
/// `CxV`, `SxV`, `ACxV`, `FCxV`, `GxV`, `R_GxV`, `VREF2`, `VD`, `VA`, `VRES`, `VMV`
#[derive(Clone, Copy, Debug, PartialEq, Eq)]
pub struct FirstRowRegisters {
    inner: u16,
}

impl View for FirstRowRegisters {
    type V = u16;

    /// The raw 16-bit code.
    closed spec fn view(&self) -> u16 {
        self.inner
    }
}

impl FirstRowRegisters {
    /// Microvolts per register code increment.
    pub const REGISTER_LSB_MICROVOLTS: i32 = 150;
    /// Width of this register in bits.
    pub const REGISTER_WIDTH_BITS: i32 = 16;
    /// Offset in microvolts of the measurement formula (1.5 V).
    pub const OFFSET_MICROVOLTS: i32 = 1_500_000;
    /// Max voltage the register can represent in microvolts.
    /// This is around +6,415,050 uV / +6.41505 V.
    pub const MAX_MICROVOLTS: i32 = 6_415_050;
    /// Min voltage the register can represent. This is around -3,415,200 uV, or around -3.4152 V.
    pub const MIN_MICROVOLTS: i32 = -3_415_200;
    /// The number of protocol bytes this result value occupies.
    pub const BYTES: usize = 2;

    /// The voltage of a code: `code x 150 uV + 1.5 V`.
    pub open spec fn spec_to_microvolts(code: u16) -> int {
        code_to_microvolts(code, 150, 1_500_000)
    }

    /// The code nearest a voltage, or `None` outside the representable range.
    pub open spec fn spec_from_microvolts(microvolts: i32) -> Option<u16> {
        microvolts_to_code(microvolts as int, 150, 1_500_000, -3_415_200, 6_415_050)
    }

    /// The power-up value, 0x8000.
    pub fn new() -> (r: FirstRowRegisters)
        ensures
            r@ == 0x8000,
    {
        FirstRowRegisters { inner: 0x8000 }
    }

    /// The register holding `bits`, as a value in specifications.
    pub closed spec fn spec_from_bits(bits: u16) -> FirstRowRegisters {
        FirstRowRegisters { inner: bits }
    }

    /// Wraps a raw code.
    pub fn from_bits(bits: u16) -> (r: FirstRowRegisters)
        ensures
            r == FirstRowRegisters::spec_from_bits(bits),
            r@ == bits,
    {
        FirstRowRegisters { inner: bits }
    }

    /// The raw code.
    pub fn into_bits(self) -> (r: u16)
        ensures
            r == self@,
    {
        self.inner
    }

    /// The raw code (the single 16-bit field).
    pub fn inner(&self) -> (r: u16)
        ensures
            r == self@,
    {
        self.inner
    }

    /// Replaces the raw code.
    pub fn with_inner(self, inner: u16) -> (r: FirstRowRegisters)
        ensures
            r@ == inner,
    {
        FirstRowRegisters { inner }
    }

    /// Takes in a desired result voltage in microvolts, and returns the raw 16-bit code.
    /// See Table 104 on page 71 of the datasheet.
    ///
    /// Cell voltage = CxV x 150uV + 1.5V, with CxV a signed 16-bit (two's complement) code;
    /// the inverse is rounded to the nearest code.
    ///
    /// This will return `None` if the microvolts input is outside the representable range.
    fn firstrow_voltage_from_microvolts(microvolts: i32) -> (r: Option<u16>)
        ensures
            r == Self::spec_from_microvolts(microvolts),
    {
        if microvolts < Self::MIN_MICROVOLTS || microvolts > Self::MAX_MICROVOLTS {
            return None;
        }
        let numerator = microvolts - Self::OFFSET_MICROVOLTS;
        let code = round_div_exec(numerator, Self::REGISTER_LSB_MICROVOLTS);
        assert(-32768 <= code <= 32767);
        if code >= 0 {
            Some(code as u16)
        } else {
            Some((code + 65536) as u16)
        }
    }

    /// Converts a raw 16-bit two's complement voltage code back into a cell voltage in microvolts.
    /// See Table 104 on page 71 of the datasheet.
    fn firstrow_voltage_to_microvolts(code: u16) -> (r: i32)
        ensures
            r == Self::spec_to_microvolts(code),
    {
        let signed: i32 = if code < 0x8000 {
            code as i32
        } else {
            code as i32 - 0x10000
        };
        signed * Self::REGISTER_LSB_MICROVOLTS + Self::OFFSET_MICROVOLTS
    }

    /// Serializes into protocol bytes (little-endian) since this is the datasheet register order.
    pub fn to_bytes(self) -> (r: [u8; 2])
        ensures
            r@ == seq![(self@ % 256) as u8, (self@ / 256) as u8],
    {
        let r = [(self.inner % 256) as u8, (self.inner / 256) as u8];
        assert(r@ =~= seq![(self@ % 256) as u8, (self@ / 256) as u8]);
        r
    }

    /// Reconstructs from protocol bytes (little-endian).
    pub fn from_bytes(bytes: [u8; 2]) -> (r: FirstRowRegisters)
        ensures
            r@ == bytes[0] + 256 * bytes[1],
    {
        FirstRowRegisters { inner: bytes[0] as u16 + 256 * bytes[1] as u16 }
    }

    /// Converts a `FirstRowRegisters` to microvolts.
    pub fn as_microvolts(&self) -> (r: i32)
        ensures
            r == Self::spec_to_microvolts(self@),
    {
        Self::firstrow_voltage_to_microvolts(self.inner)
    }

    /// Creates a new `FirstRowRegisters` from an input value in uV.
    ///
    /// ### Parameters
    /// - `microvolts`: Voltage, in uV. May be negative.
    ///
    /// This function will return `None` if your input is outside the `MIN_MICROVOLTS`
    /// to `MAX_MICROVOLTS` range.
    pub fn from_microvolts(microvolts: i32) -> (r: Option<FirstRowRegisters>)
        ensures
            match Self::spec_from_microvolts(microvolts) {
                Some(code) => r matches Some(v) && v@ == code,
                None => r is None,
            },
    {
        match Self::firstrow_voltage_from_microvolts(microvolts) {
            Some(inner) => Some(FirstRowRegisters::new().with_inner(inner)),
            None => None,
        }
    }
}

/// Private type for the `VPV` register type from Table 107 (row 4).
#[derive(Clone, Copy, Debug, PartialEq, Eq)]
pub struct VpvInner {
    inner: u16,
}

impl View for VpvInner {
    type V = u16;

    /// The raw 16-bit code.
    closed spec fn view(&self) -> u16 {
        self.inner
    }
}

impl VpvInner {
    /// Microvolts per VPV code increment. This is `25 × 150 µV` because of the VPV gain factor.
    pub const VPV_LSB_MICROVOLTS: i32 = 3_750;
    /// The offset of the VPV measurement formula (`25 × +1.5 V` = +37.5 V).
    pub const VPV_OFFSET_MICROVOLTS: i32 = 37_500_000;
    /// Max voltage VPV can represent in microvolts.
    /// This is around +160,376,250 uV / +160.37625 V (raw code 0x7FFF).
    pub const VPV_MAX_MICROVOLTS: i32 = 160_376_250;
    /// Min voltage VPV can represent. This is around -85,380,000 uV, or around -85.38 V (raw code 0x8000).
    pub const VPV_MIN_MICROVOLTS: i32 = -85_380_000;
    /// The number of protocol bytes this result value occupies.
    pub const BYTES: usize = 2;

    /// The voltage of a code: `25 x (VPV x 150 uV + 1.5 V) = VPV x 3750 uV + 37.5 V`.
    pub open spec fn spec_to_microvolts(code: u16) -> int {
        code_to_microvolts(code, 3750, 37_500_000)
    }

    /// The code nearest a voltage, or `None` outside the representable range.
    pub open spec fn spec_from_microvolts(microvolts: i32) -> Option<u16> {
        microvolts_to_code(microvolts as int, 3750, 37_500_000, -85_380_000, 160_376_250)
    }

    /// The power-up value, 0x8000.
    pub fn new() -> (r: VpvInner)
        ensures
            r@ == 0x8000,
    {
        VpvInner { inner: 0x8000 }
    }

    /// Wraps a raw code.
    pub fn from_bits(bits: u16) -> (r: VpvInner)
        ensures
            r@ == bits,
    {
        VpvInner { inner: bits }
    }

    /// The raw code.
    pub fn into_bits(self) -> (r: u16)
        ensures
            r == self@,
    {
        self.inner
    }

    /// The raw code (the single 16-bit field).
    pub fn inner(&self) -> (r: u16)
        ensures
            r == self@,
    {
        self.inner
    }

    /// Replaces the raw code.
    pub fn with_inner(self, inner: u16) -> (r: VpvInner)
        ensures
            r@ == inner,
    {
        VpvInner { inner }
    }

    /// Takes in a desired `VPV` (V+ to V−) voltage in microvolts, and returns the raw 16-bit code,
    /// rounded to the nearest code. See Table 104 on page 71 of the datasheet.
    ///
    /// This will return `None` if the microvolts input is outside the representable range.
    fn vpv_voltage_from_microvolts(microvolts: i32) -> (r: Option<u16>)
        ensures
            r == Self::spec_from_microvolts(microvolts),
    {
        if microvolts < Self::VPV_MIN_MICROVOLTS || microvolts > Self::VPV_MAX_MICROVOLTS {
            return None;
        }
        let numerator = microvolts - Self::VPV_OFFSET_MICROVOLTS;
        let code = round_div_exec(numerator, Self::VPV_LSB_MICROVOLTS);
        assert(-32768 <= code <= 32767);
        if code >= 0 {
            Some(code as u16)
        } else {
            Some((code + 65536) as u16)
        }
    }

    /// Converts a raw 16-bit two's complement `VPV` code back into microvolts.
    fn vpv_voltage_to_microvolts(code: u16) -> (r: i32)
        ensures
            r == Self::spec_to_microvolts(code),
    {
        let signed: i32 = if code < 0x8000 {
            code as i32
        } else {
            code as i32 - 0x10000
        };
        signed * Self::VPV_LSB_MICROVOLTS + Self::VPV_OFFSET_MICROVOLTS
    }

    /// Serializes into protocol bytes (little-endian) since this is the datasheet register order.
    pub fn to_bytes(self) -> (r: [u8; 2])
        ensures
            r@ == seq![(self@ % 256) as u8, (self@ / 256) as u8],
    {
        let r = [(self.inner % 256) as u8, (self.inner / 256) as u8];
        assert(r@ =~= seq![(self@ % 256) as u8, (self@ / 256) as u8]);
        r
    }

    /// Reconstructs from protocol bytes (little-endian).
    pub fn from_bytes(bytes: [u8; 2]) -> (r: VpvInner)
        ensures
            r@ == bytes[0] + 256 * bytes[1],
    {
        VpvInner { inner: bytes[0] as u16 + 256 * bytes[1] as u16 }
    }

    /// Converts a `VPlusVoltage` to microvolts.
    pub fn as_microvolts(&self) -> (r: i32)
        ensures
            r == Self::spec_to_microvolts(self@),
    {
        Self::vpv_voltage_to_microvolts(self.inner)
    }

    /// Creates a new `VPlusVoltage` from an input value in uV.
    ///
    /// This function will return `None` if your input is outside the `VPV_MIN_MICROVOLTS`
    /// to `VPV_MAX_MICROVOLTS` range.
    pub fn from_microvolts(microvolts: i32) -> (r: Option<VpvInner>)
        ensures
            match Self::spec_from_microvolts(microvolts) {
                Some(code) => r matches Some(v) && v@ == code,
                None => r is None,
            },
    {
        match Self::vpv_voltage_from_microvolts(microvolts) {
            Some(inner) => Some(VpvInner::new().with_inner(inner)),
            None => None,
        }
    }
}

/// A code converted to microvolts and back is the same code: every code's
/// voltage is representable and rounds to itself.
pub proof fn lemma_code_roundtrip(code: u16, lsb: int, offset: int, min: int, max: int)
    requires
        lsb > 0,
        lsb % 2 == 0,
        min == -32768 * lsb + offset,
        max == 32767 * lsb + offset,
    ensures
        microvolts_to_code(code_to_microvolts(code, lsb, offset), lsb, offset, min, max) == Some(
            code,
        ),
{
    let s = signed16(code);
    let n = s * lsb;
    assert(-32768 * lsb <= n <= 32767 * lsb && (s >= 0 ==> n >= 0) && (s < 0 ==> n < 0))
        by (nonlinear_arith)
        requires
            -32768 <= s <= 32767,
            n == s * lsb,
            lsb > 0,
    ;
    if s >= 0 {
        assert((n + lsb / 2) / lsb == s) by (nonlinear_arith)
            requires
                n == s * lsb,
                lsb > 0,
                lsb % 2 == 0,
                s >= 0,
        ;
    } else {
        assert((-n + lsb / 2) / lsb == -s) by (nonlinear_arith)
            requires
                n == s * lsb,
                lsb > 0,
                lsb % 2 == 0,
                s < 0,
        ;
    }
    assert(round_div(n, lsb) == s);
    assert(twos16(s) == code);
    assert(min <= n + offset <= max);
}

/// A voltage converted to a code and back lands within half a step of where it started.
pub proof fn lemma_microvolts_roundtrip(microvolts: int, lsb: int, offset: int, min: int, max: int)
    requires
        lsb > 0,
        lsb % 2 == 0,
        min == -32768 * lsb + offset,
        max == 32767 * lsb + offset,
        min <= microvolts <= max,
    ensures
        microvolts_to_code(microvolts, lsb, offset, min, max) matches Some(code) && ({
            let back = code_to_microvolts(code, lsb, offset);
            -(lsb / 2) <= back - microvolts <= lsb / 2
        }),
{
    let n = microvolts - offset;
    let c = round_div(n, lsb);
    if n >= 0 {
        assert(0 <= c <= 32767 && -(lsb / 2) <= c * lsb - n <= lsb / 2) by (nonlinear_arith)
            requires
                c == (n + lsb / 2) / lsb,
                0 <= n <= 32767 * lsb,
                lsb > 0,
                lsb % 2 == 0,
        ;
    } else {
        assert(-32768 <= c <= 0 && -(lsb / 2) <= c * lsb - n <= lsb / 2) by (nonlinear_arith)
            requires
                c == -((-n + lsb / 2) / lsb),
                -32768 * lsb <= n < 0,
                lsb > 0,
                lsb % 2 == 0,
        ;
    }
}

/// A cell-voltage style register takes a voltage exactly when it lies in
/// `MIN_MICROVOLTS..=MAX_MICROVOLTS`, and the code it picks reads back within half a step
/// (75 uV) of that voltage.
pub proof fn lemma_first_row_from_microvolts(microvolts: i32)
    ensures
        FirstRowRegisters::spec_from_microvolts(microvolts) is None <==> (microvolts < -3_415_200
            || microvolts > 6_415_050),
        FirstRowRegisters::spec_from_microvolts(microvolts) matches Some(code) ==> -75
            <= FirstRowRegisters::spec_to_microvolts(code) - microvolts <= 75,
{
    if -3_415_200 <= microvolts <= 6_415_050 {
        lemma_microvolts_roundtrip(microvolts as int, 150, 1_500_000, -3_415_200, 6_415_050);
    }
}

/// A `VPV` register takes a voltage exactly when it lies in
/// `VPV_MIN_MICROVOLTS..=VPV_MAX_MICROVOLTS`, and the code it picks reads back within half a step
/// (1,875 uV) of that voltage.
pub proof fn lemma_vpv_from_microvolts(microvolts: i32)
    ensures
        VpvInner::spec_from_microvolts(microvolts) is None <==> (microvolts < -85_380_000
            || microvolts > 160_376_250),
        VpvInner::spec_from_microvolts(microvolts) matches Some(code) ==> -1875
            <= VpvInner::spec_to_microvolts(code) - microvolts <= 1875,
{
    if -85_380_000 <= microvolts <= 160_376_250 {
        lemma_microvolts_roundtrip(microvolts as int, 3750, 37_500_000, -85_380_000, 160_376_250);
    }
}

} // verus!
