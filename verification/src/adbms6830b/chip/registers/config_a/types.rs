//! Field types relavent to Configuration Register A. See Table 102 on page 70 of the datasheet.

use vstd::prelude::*;


verus! {

/// Reference powered up (REFON). One-bit field.
#[derive(Clone, Copy, Debug, PartialEq, Eq, Structural)]
pub enum ReferenceOn {
    /// Reference remains powered up until watchdog timeout.
    On,
    /// Reference shuts down after conversions (default).
    Off,
}

impl View for ReferenceOn {
    type V = u8;

    /// The raw field value of this code.
    open spec fn view(&self) -> u8 {
        match self {
            ReferenceOn::On => 1u8,
            ReferenceOn::Off => 0u8,
        }
    }
}

impl ReferenceOn {
    /// Every variant stands for the field value the datasheet gives it.
    pub proof fn lemma_codes()
        ensures
            ReferenceOn::On@ == 1u8,
            ReferenceOn::Off@ == 0u8,
    {
    }
}

impl ReferenceOn {
    /// The power-up value of this field.
    pub const DEFAULT: ReferenceOn = ReferenceOn::Off;

    /// The code a raw field value decodes to; values with no code of their own decode to `Off`.
    pub open spec fn spec_from_bits(bits: u8) -> ReferenceOn {
        if bits % 2 == 1 {
            ReferenceOn::On
        } else {
            ReferenceOn::Off
        }
    }

    /// Decodes a raw field value (only its low bits count).
    pub fn from_bits(bits: u8) -> (r: ReferenceOn)
        ensures
            r == ReferenceOn::spec_from_bits(bits),
    {
        proof {
            crate::bits::lemma_u8_low_masks(bits);
        }
        let v = bits & 1;
        if v == 1 {
            ReferenceOn::On
        } else {
            ReferenceOn::Off
        }
    }

    /// The raw field value of this code.
    pub fn into_bits(self) -> (r: u8)
        ensures
            r == self@,
            r <= 1,
    {
        match self {
            ReferenceOn::On => 1,
            ReferenceOn::Off => 0,
        }
    }

    /// Decoding the raw value of a code gives the code back.
    pub proof fn lemma_roundtrip(self)
        ensures
            ReferenceOn::spec_from_bits(self@) == self,
    {
    }
}

impl Default for ReferenceOn {
    fn default() -> (r: ReferenceOn)
        ensures
            r == ReferenceOn::Off,
    {
        ReferenceOn::Off
    }
}

/// C-ADC vs. S-ADC comparison voltage theshold. Three-bit field.
#[derive(Clone, Copy, Debug, PartialEq, Eq, Structural)]
pub enum ComparisonThresholdVoltage {
    /// 5.1 mV
    Mv5_1,
    /// 8.1 mV (default)
    Mv8_1,
    /// 9.0 mV
    Mv9_0,
    /// 10.05 mV
    Mv10_05,
    /// 15.00 mV
    Mv15_00,
    /// 19.95 mV
    Mv19_95,
    /// 25.05 mV
    Mv25_05,
    /// 40.05 mV
    Mv40_05,
}

impl View for ComparisonThresholdVoltage {
    type V = u8;

    /// The raw field value of this code.
    open spec fn view(&self) -> u8 {
        match self {
            ComparisonThresholdVoltage::Mv5_1 => 0u8,
            ComparisonThresholdVoltage::Mv8_1 => 1u8,
            ComparisonThresholdVoltage::Mv9_0 => 2u8,
            ComparisonThresholdVoltage::Mv10_05 => 3u8,
            ComparisonThresholdVoltage::Mv15_00 => 4u8,
            ComparisonThresholdVoltage::Mv19_95 => 5u8,
            ComparisonThresholdVoltage::Mv25_05 => 6u8,
            ComparisonThresholdVoltage::Mv40_05 => 7u8,
        }
    }
}

impl ComparisonThresholdVoltage {
    /// Every variant stands for the field value the datasheet gives it.
    pub proof fn lemma_codes()
        ensures
            ComparisonThresholdVoltage::Mv5_1@ == 0u8,
            ComparisonThresholdVoltage::Mv8_1@ == 1u8,
            ComparisonThresholdVoltage::Mv9_0@ == 2u8,
            ComparisonThresholdVoltage::Mv10_05@ == 3u8,
            ComparisonThresholdVoltage::Mv15_00@ == 4u8,
            ComparisonThresholdVoltage::Mv19_95@ == 5u8,
            ComparisonThresholdVoltage::Mv25_05@ == 6u8,
            ComparisonThresholdVoltage::Mv40_05@ == 7u8,
    {
    }
}

impl ComparisonThresholdVoltage {
    /// The power-up value of this field.
    pub const DEFAULT: ComparisonThresholdVoltage = ComparisonThresholdVoltage::Mv8_1;

    /// The code a raw field value decodes to; values with no code of their own decode to `Mv8_1`.
    pub open spec fn spec_from_bits(bits: u8) -> ComparisonThresholdVoltage {
        if bits % 8 == 0 {
            ComparisonThresholdVoltage::Mv5_1
        } else if bits % 8 == 2 {
            ComparisonThresholdVoltage::Mv9_0
        } else if bits % 8 == 3 {
            ComparisonThresholdVoltage::Mv10_05
        } else if bits % 8 == 4 {
            ComparisonThresholdVoltage::Mv15_00
        } else if bits % 8 == 5 {
            ComparisonThresholdVoltage::Mv19_95
        } else if bits % 8 == 6 {
            ComparisonThresholdVoltage::Mv25_05
        } else if bits % 8 == 7 {
            ComparisonThresholdVoltage::Mv40_05
        } else {
            ComparisonThresholdVoltage::Mv8_1
        }
    }

    /// Decodes a raw field value (only its low bits count).
    pub fn from_bits(bits: u8) -> (r: ComparisonThresholdVoltage)
        ensures
            r == ComparisonThresholdVoltage::spec_from_bits(bits),
    {
        proof {
            crate::bits::lemma_u8_low_masks(bits);
        }
        let v = bits & 7;
        if v == 0 {
            ComparisonThresholdVoltage::Mv5_1
        } else if v == 2 {
            ComparisonThresholdVoltage::Mv9_0
        } else if v == 3 {
            ComparisonThresholdVoltage::Mv10_05
        } else if v == 4 {
            ComparisonThresholdVoltage::Mv15_00
        } else if v == 5 {
            ComparisonThresholdVoltage::Mv19_95
        } else if v == 6 {
            ComparisonThresholdVoltage::Mv25_05
        } else if v == 7 {
            ComparisonThresholdVoltage::Mv40_05
        } else {
            ComparisonThresholdVoltage::Mv8_1
        }
    }

    /// The raw field value of this code.
    pub fn into_bits(self) -> (r: u8)
        ensures
            r == self@,
            r <= 7,
    {
        match self {
            ComparisonThresholdVoltage::Mv5_1 => 0,
            ComparisonThresholdVoltage::Mv8_1 => 1,
            ComparisonThresholdVoltage::Mv9_0 => 2,
            ComparisonThresholdVoltage::Mv10_05 => 3,
            ComparisonThresholdVoltage::Mv15_00 => 4,
            ComparisonThresholdVoltage::Mv19_95 => 5,
            ComparisonThresholdVoltage::Mv25_05 => 6,
            ComparisonThresholdVoltage::Mv40_05 => 7,
        }
    }

    /// Decoding the raw value of a code gives the code back.
    pub proof fn lemma_roundtrip(self)
        ensures
            ComparisonThresholdVoltage::spec_from_bits(self@) == self,
    {
    }
}

impl Default for ComparisonThresholdVoltage {
    fn default() -> (r: ComparisonThresholdVoltage)
        ensures
            r == ComparisonThresholdVoltage::Mv8_1,
    {
        ComparisonThresholdVoltage::Mv8_1
    }
}

/// Enable/disable soak time on AUX ADCs (SOAKON). One-bit field.
#[derive(Clone, Copy, Debug, PartialEq, Eq, Structural)]
pub enum SoakTimeOn {
    /// Enables soak time for all commands.
    On,
    /// Disables soak time (default).
    Off,
}

impl View for SoakTimeOn {
    type V = u8;

    /// The raw field value of this code.
    open spec fn view(&self) -> u8 {
        match self {
            SoakTimeOn::On => 1u8,
            SoakTimeOn::Off => 0u8,
        }
    }
}

impl SoakTimeOn {
    /// Every variant stands for the field value the datasheet gives it.
    pub proof fn lemma_codes()
        ensures
            SoakTimeOn::On@ == 1u8,
            SoakTimeOn::Off@ == 0u8,
    {
    }
}

impl SoakTimeOn {
    /// The power-up value of this field.
    pub const DEFAULT: SoakTimeOn = SoakTimeOn::Off;

    /// The code a raw field value decodes to; values with no code of their own decode to `Off`.
    pub open spec fn spec_from_bits(bits: u8) -> SoakTimeOn {
        if bits % 2 == 1 {
            SoakTimeOn::On
        } else {
            SoakTimeOn::Off
        }
    }

    /// Decodes a raw field value (only its low bits count).
    pub fn from_bits(bits: u8) -> (r: SoakTimeOn)
        ensures
            r == SoakTimeOn::spec_from_bits(bits),
    {
        proof {
            crate::bits::lemma_u8_low_masks(bits);
        }
        let v = bits & 1;
        if v == 1 {
            SoakTimeOn::On
        } else {
            SoakTimeOn::Off
        }
    }

    /// The raw field value of this code.
    pub fn into_bits(self) -> (r: u8)
        ensures
            r == self@,
            r <= 1,
    {
        match self {
            SoakTimeOn::On => 1,
            SoakTimeOn::Off => 0,
        }
    }

    /// Decoding the raw value of a code gives the code back.
    pub proof fn lemma_roundtrip(self)
        ensures
            SoakTimeOn::spec_from_bits(self@) == self,
    {
    }
}

impl Default for SoakTimeOn {
    fn default() -> (r: SoakTimeOn)
        ensures
            r == SoakTimeOn::Off,
    {
        SoakTimeOn::Off
    }
}

/// Soak time range (OWRNG). One-bit field.
#[derive(Clone, Copy, Debug, PartialEq, Eq, Structural)]
pub enum SoakTimeRange {
    /// Long soak time range. 4.1ms to 524ms.
    Long,
    /// Short soak time range (default). 32us to 4.1ms.
    Short,
}

impl View for SoakTimeRange {
    type V = u8;

    /// The raw field value of this code.
    open spec fn view(&self) -> u8 {
        match self {
            SoakTimeRange::Long => 1u8,
            SoakTimeRange::Short => 0u8,
        }
    }
}

impl SoakTimeRange {
    /// Every variant stands for the field value the datasheet gives it.
    pub proof fn lemma_codes()
        ensures
            SoakTimeRange::Long@ == 1u8,
            SoakTimeRange::Short@ == 0u8,
    {
    }
}

impl SoakTimeRange {
    /// The power-up value of this field.
    pub const DEFAULT: SoakTimeRange = SoakTimeRange::Short;

    /// The code a raw field value decodes to; values with no code of their own decode to `Short`.
    pub open spec fn spec_from_bits(bits: u8) -> SoakTimeRange {
        if bits % 2 == 1 {
            SoakTimeRange::Long
        } else {
            SoakTimeRange::Short
        }
    }

    /// Decodes a raw field value (only its low bits count).
    pub fn from_bits(bits: u8) -> (r: SoakTimeRange)
        ensures
            r == SoakTimeRange::spec_from_bits(bits),
    {
        proof {
            crate::bits::lemma_u8_low_masks(bits);
        }
        let v = bits & 1;
        if v == 1 {
            SoakTimeRange::Long
        } else {
            SoakTimeRange::Short
        }
    }

    /// The raw field value of this code.
    pub fn into_bits(self) -> (r: u8)
        ensures
            r == self@,
            r <= 1,
    {
        match self {
            SoakTimeRange::Long => 1,
            SoakTimeRange::Short => 0,
        }
    }

    /// Decoding the raw value of a code gives the code back.
    pub proof fn lemma_roundtrip(self)
        ensures
            SoakTimeRange::spec_from_bits(self@) == self,
    {
    }
}

impl Default for SoakTimeRange {
    fn default() -> (r: SoakTimeRange)
        ensures
            r == SoakTimeRange::Short,
    {
        SoakTimeRange::Short
    }
}

/// Open wire soak times, for AUX commands (OWA). Three-bit field.
///
/// This is basically a multiplier for the "base" soak time, where `base` = 2^6 clocks
/// for `OWRNG=0`, or 2^13 clocks for `OWRNG=1`.
#[derive(Clone, Copy, Debug, PartialEq, Eq, Structural)]
pub enum OpenWireSoakTimeMultiplier {
    /// 1x base soak time. 32us for OWRNG=0, 4.096ms for OWRNG=1
    X1,
    /// 2x base soak time. 64us for OWRNG=0, 8.192ms for OWRNG=1
    X2,
    /// 4x base soak time. 128us for OWRNG=0, 16.384ms for OWRNG=1
    X4,
    /// 8x base soak time. 256us for OWRNG=0, 32.768ms for OWRNG=1
    X8,
    /// 16x base soak time. 512us for OWRNG=0, 65.536ms for OWRNG=1
    X16,
    /// 32x base soak time. 1.024ms for OWRNG=0, 131.072ms for OWRNG=1
    X32,
    /// 64x base soak time. 2.048ms for OWRNG=0, 262.144ms for OWRNG=1.
    X64,
    /// 128x base soak time. 4.096ms for OWRNG=0, 524.288ms for OWRNG=1.
    X128,
}

impl View for OpenWireSoakTimeMultiplier {
    type V = u8;

    /// The raw field value of this code.
    open spec fn view(&self) -> u8 {
        match self {
            OpenWireSoakTimeMultiplier::X1 => 0u8,
            OpenWireSoakTimeMultiplier::X2 => 1u8,
            OpenWireSoakTimeMultiplier::X4 => 2u8,
            OpenWireSoakTimeMultiplier::X8 => 3u8,
            OpenWireSoakTimeMultiplier::X16 => 4u8,
            OpenWireSoakTimeMultiplier::X32 => 5u8,
            OpenWireSoakTimeMultiplier::X64 => 6u8,
            OpenWireSoakTimeMultiplier::X128 => 7u8,
        }
    }
}

impl OpenWireSoakTimeMultiplier {
    /// Every variant stands for the field value the datasheet gives it.
    pub proof fn lemma_codes()
        ensures
            OpenWireSoakTimeMultiplier::X1@ == 0u8,
            OpenWireSoakTimeMultiplier::X2@ == 1u8,
            OpenWireSoakTimeMultiplier::X4@ == 2u8,
            OpenWireSoakTimeMultiplier::X8@ == 3u8,
            OpenWireSoakTimeMultiplier::X16@ == 4u8,
            OpenWireSoakTimeMultiplier::X32@ == 5u8,
            OpenWireSoakTimeMultiplier::X64@ == 6u8,
            OpenWireSoakTimeMultiplier::X128@ == 7u8,
    {
    }
}

impl OpenWireSoakTimeMultiplier {
    /// The power-up value of this field.
    pub const DEFAULT: OpenWireSoakTimeMultiplier = OpenWireSoakTimeMultiplier::X1;

    /// The code a raw field value decodes to; values with no code of their own decode to `X1`.
    pub open spec fn spec_from_bits(bits: u8) -> OpenWireSoakTimeMultiplier {
        if bits % 8 == 1 {
            OpenWireSoakTimeMultiplier::X2
        } else if bits % 8 == 2 {
            OpenWireSoakTimeMultiplier::X4
        } else if bits % 8 == 3 {
            OpenWireSoakTimeMultiplier::X8
        } else if bits % 8 == 4 {
            OpenWireSoakTimeMultiplier::X16
        } else if bits % 8 == 5 {
            OpenWireSoakTimeMultiplier::X32
        } else if bits % 8 == 6 {
            OpenWireSoakTimeMultiplier::X64
        } else if bits % 8 == 7 {
            OpenWireSoakTimeMultiplier::X128
        } else {
            OpenWireSoakTimeMultiplier::X1
        }
    }

    /// Decodes a raw field value (only its low bits count).
    pub fn from_bits(bits: u8) -> (r: OpenWireSoakTimeMultiplier)
        ensures
            r == OpenWireSoakTimeMultiplier::spec_from_bits(bits),
    {
        proof {
            crate::bits::lemma_u8_low_masks(bits);
        }
        let v = bits & 7;
        if v == 1 {
            OpenWireSoakTimeMultiplier::X2
        } else if v == 2 {
            OpenWireSoakTimeMultiplier::X4
        } else if v == 3 {
            OpenWireSoakTimeMultiplier::X8
        } else if v == 4 {
            OpenWireSoakTimeMultiplier::X16
        } else if v == 5 {
            OpenWireSoakTimeMultiplier::X32
        } else if v == 6 {
            OpenWireSoakTimeMultiplier::X64
        } else if v == 7 {
            OpenWireSoakTimeMultiplier::X128
        } else {
            OpenWireSoakTimeMultiplier::X1
        }
    }

    /// The raw field value of this code.
    pub fn into_bits(self) -> (r: u8)
        ensures
            r == self@,
            r <= 7,
    {
        match self {
            OpenWireSoakTimeMultiplier::X1 => 0,
            OpenWireSoakTimeMultiplier::X2 => 1,
            OpenWireSoakTimeMultiplier::X4 => 2,
            OpenWireSoakTimeMultiplier::X8 => 3,
            OpenWireSoakTimeMultiplier::X16 => 4,
            OpenWireSoakTimeMultiplier::X32 => 5,
            OpenWireSoakTimeMultiplier::X64 => 6,
            OpenWireSoakTimeMultiplier::X128 => 7,
        }
    }

    /// Decoding the raw value of a code gives the code back.
    pub proof fn lemma_roundtrip(self)
        ensures
            OpenWireSoakTimeMultiplier::spec_from_bits(self@) == self,
    {
    }
}

impl Default for OpenWireSoakTimeMultiplier {
    fn default() -> (r: OpenWireSoakTimeMultiplier)
        ensures
            r == OpenWireSoakTimeMultiplier::X1,
    {
        OpenWireSoakTimeMultiplier::X1
    }
}

/// GPIOx pin pull-down config (GPIOx). One-bit field.
#[derive(Clone, Copy, Debug, PartialEq, Eq, Structural)]
pub enum GpioPullDownConfig {
    /// GPIOx pin pull-down on.
    PullDownOn,
    /// GPIOx pin pull-down off (default).
    PullDownOff,
}

impl View for GpioPullDownConfig {
    type V = u8;

    /// The raw field value of this code.
    open spec fn view(&self) -> u8 {
        match self {
            GpioPullDownConfig::PullDownOn => 0u8,
            GpioPullDownConfig::PullDownOff => 1u8,
        }
    }
}

impl GpioPullDownConfig {
    /// Every variant stands for the field value the datasheet gives it.
    pub proof fn lemma_codes()
        ensures
            GpioPullDownConfig::PullDownOn@ == 0u8,
            GpioPullDownConfig::PullDownOff@ == 1u8,
    {
    }
}

impl GpioPullDownConfig {
    /// The power-up value of this field.
    pub const DEFAULT: GpioPullDownConfig = GpioPullDownConfig::PullDownOff;

    /// The code a raw field value decodes to; values with no code of their own decode to `PullDownOff`.
    pub open spec fn spec_from_bits(bits: u8) -> GpioPullDownConfig {
        if bits % 2 == 0 {
            GpioPullDownConfig::PullDownOn
        } else {
            GpioPullDownConfig::PullDownOff
        }
    }

    /// Decodes a raw field value (only its low bits count).
    pub fn from_bits(bits: u8) -> (r: GpioPullDownConfig)
        ensures
            r == GpioPullDownConfig::spec_from_bits(bits),
    {
        proof {
            crate::bits::lemma_u8_low_masks(bits);
        }
        let v = bits & 1;
        if v == 0 {
            GpioPullDownConfig::PullDownOn
        } else {
            GpioPullDownConfig::PullDownOff
        }
    }

    /// The raw field value of this code.
    pub fn into_bits(self) -> (r: u8)
        ensures
            r == self@,
            r <= 1,
    {
        match self {
            GpioPullDownConfig::PullDownOn => 0,
            GpioPullDownConfig::PullDownOff => 1,
        }
    }

    /// Decoding the raw value of a code gives the code back.
    pub proof fn lemma_roundtrip(self)
        ensures
            GpioPullDownConfig::spec_from_bits(self@) == self,
    {
    }
}

impl Default for GpioPullDownConfig {
    fn default() -> (r: GpioPullDownConfig)
        ensures
            r == GpioPullDownConfig::PullDownOff,
    {
        GpioPullDownConfig::PullDownOff
    }
}

/// Infinite Impulse Response (IIR) filter parameter/frequency settings (FC[2:0]). Three-bit field. See Table 21 on page 21 of the datasheet.
///
/// This enum basically just lets you configure the -3 dB corner frequency of the IIR Filter, which can be between 110Hz and 0.625Hz.
#[derive(Clone, Copy, Debug, PartialEq, Eq, Structural)]
pub enum IirFilterConfig {
    /// IIR filter is disabled (default).
    FilterDisabled,
    /// -3dB frequency of 110 Hz. Filter Parameter = 2.
    Hz110,
    /// -3dB frequency of 45 Hz. Filter Parameter = 4.
    Hz45,
    /// -3dB frequency of 21 Hz. Filter Parameter = 8.
    Hz21,
    /// -3dB frequency of 10 Hz. Filter Parameter = 16.
    Hz10,
    /// -3dB frequency of 5 Hz. Filter Parameter = 32.
    Hz5,
    /// -3dB frequency of 1.25 Hz. Filter Parameter = 128.
    Hz1_25,
    /// -3dB frequency of 0.625 Hz. Filter Parameter = 256.
    Hz0_625,
}

impl View for IirFilterConfig {
    type V = u8;

    /// The raw field value of this code.
    open spec fn view(&self) -> u8 {
        match self {
            IirFilterConfig::FilterDisabled => 0u8,
            IirFilterConfig::Hz110 => 1u8,
            IirFilterConfig::Hz45 => 2u8,
            IirFilterConfig::Hz21 => 3u8,
            IirFilterConfig::Hz10 => 4u8,
            IirFilterConfig::Hz5 => 5u8,
            IirFilterConfig::Hz1_25 => 6u8,
            IirFilterConfig::Hz0_625 => 7u8,
        }
    }
}

impl IirFilterConfig {
    /// Every variant stands for the field value the datasheet gives it.
    pub proof fn lemma_codes()
        ensures
            IirFilterConfig::FilterDisabled@ == 0u8,
            IirFilterConfig::Hz110@ == 1u8,
            IirFilterConfig::Hz45@ == 2u8,
            IirFilterConfig::Hz21@ == 3u8,
            IirFilterConfig::Hz10@ == 4u8,
            IirFilterConfig::Hz5@ == 5u8,
            IirFilterConfig::Hz1_25@ == 6u8,
            IirFilterConfig::Hz0_625@ == 7u8,
    {
    }
}

impl IirFilterConfig {
    /// The -3 dB corner frequency of a variant, in mHz; `None` with the filter disabled.
    pub open spec fn corner_mhz(self) -> Option<int> {
        match self {
            IirFilterConfig::FilterDisabled => None,
            IirFilterConfig::Hz110 => Some(110_000),
            IirFilterConfig::Hz45 => Some(45_000),
            IirFilterConfig::Hz21 => Some(21_000),
            IirFilterConfig::Hz10 => Some(10_000),
            IirFilterConfig::Hz5 => Some(5_000),
            IirFilterConfig::Hz1_25 => Some(1_250),
            IirFilterConfig::Hz0_625 => Some(625),
        }
    }

    /// The FC code orders the filters by strength: code 0 turns the filter off, and among the
    /// codes 1 to 7 a larger code always has a lower corner frequency (a stronger filter).
    pub proof fn lemma_corner_order(a: IirFilterConfig, b: IirFilterConfig)
        ensures
            a@ <= 7,
            a@ == 0 <==> a.corner_mhz() is None,
            a.corner_mhz() is Some && b.corner_mhz() is Some ==> (a.corner_mhz()->0 > b.corner_mhz()->0
                <==> a@ < b@),
    {
    }
}

impl IirFilterConfig {
    /// The power-up value of this field.
    pub const DEFAULT: IirFilterConfig = IirFilterConfig::FilterDisabled;

    /// The code a raw field value decodes to; values with no code of their own decode to `FilterDisabled`.
    pub open spec fn spec_from_bits(bits: u8) -> IirFilterConfig {
        if bits % 8 == 1 {
            IirFilterConfig::Hz110
        } else if bits % 8 == 2 {
            IirFilterConfig::Hz45
        } else if bits % 8 == 3 {
            IirFilterConfig::Hz21
        } else if bits % 8 == 4 {
            IirFilterConfig::Hz10
        } else if bits % 8 == 5 {
            IirFilterConfig::Hz5
        } else if bits % 8 == 6 {
            IirFilterConfig::Hz1_25
        } else if bits % 8 == 7 {
            IirFilterConfig::Hz0_625
        } else {
            IirFilterConfig::FilterDisabled
        }
    }

    /// Decodes a raw field value (only its low bits count).
    pub fn from_bits(bits: u8) -> (r: IirFilterConfig)
        ensures
            r == IirFilterConfig::spec_from_bits(bits),
    {
        proof {
            crate::bits::lemma_u8_low_masks(bits);
        }
        let v = bits & 7;
        if v == 1 {
            IirFilterConfig::Hz110
        } else if v == 2 {
            IirFilterConfig::Hz45
        } else if v == 3 {
            IirFilterConfig::Hz21
        } else if v == 4 {
            IirFilterConfig::Hz10
        } else if v == 5 {
            IirFilterConfig::Hz5
        } else if v == 6 {
            IirFilterConfig::Hz1_25
        } else if v == 7 {
            IirFilterConfig::Hz0_625
        } else {
            IirFilterConfig::FilterDisabled
        }
    }

    /// The raw field value of this code.
    pub fn into_bits(self) -> (r: u8)
        ensures
            r == self@,
            r <= 7,
    {
        match self {
            IirFilterConfig::FilterDisabled => 0,
            IirFilterConfig::Hz110 => 1,
            IirFilterConfig::Hz45 => 2,
            IirFilterConfig::Hz21 => 3,
            IirFilterConfig::Hz10 => 4,
            IirFilterConfig::Hz5 => 5,
            IirFilterConfig::Hz1_25 => 6,
            IirFilterConfig::Hz0_625 => 7,
        }
    }

    /// Decoding the raw value of a code gives the code back.
    pub proof fn lemma_roundtrip(self)
        ensures
            IirFilterConfig::spec_from_bits(self@) == self,
    {
    }
}

impl Default for IirFilterConfig {
    fn default() -> (r: IirFilterConfig)
        ensures
            r == IirFilterConfig::FilterDisabled,
    {
        IirFilterConfig::FilterDisabled
    }
}

/// Communication Break configuration (COMM_BK). One-bit field.
///
/// This lets you enable the communication break feature, which prevents the device from propagation communication further
/// through the daisy chain.
#[derive(Clone, Copy, Debug, PartialEq, Eq, Structural)]
pub enum CommunicationBreak {
    /// Communication Break is disabled (default).
    Disable,
    /// Communication Break is enabled, and the device will not do any propagation communication further through the daisy chain.
    Enable,
}

impl View for CommunicationBreak {
    type V = u8;

    /// The raw field value of this code.
    open spec fn view(&self) -> u8 {
        match self {
            CommunicationBreak::Disable => 0u8,
            CommunicationBreak::Enable => 1u8,
        }
    }
}

impl CommunicationBreak {
    /// Every variant stands for the field value the datasheet gives it.
    pub proof fn lemma_codes()
        ensures
            CommunicationBreak::Disable@ == 0u8,
            CommunicationBreak::Enable@ == 1u8,
    {
    }
}

impl CommunicationBreak {
    /// The power-up value of this field.
    pub const DEFAULT: CommunicationBreak = CommunicationBreak::Disable;

    /// The code a raw field value decodes to; values with no code of their own decode to `Disable`.
    pub open spec fn spec_from_bits(bits: u8) -> CommunicationBreak {
        if bits % 2 == 1 {
            CommunicationBreak::Enable
        } else {
            CommunicationBreak::Disable
        }
    }

    /// Decodes a raw field value (only its low bits count).
    pub fn from_bits(bits: u8) -> (r: CommunicationBreak)
        ensures
            r == CommunicationBreak::spec_from_bits(bits),
    {
        proof {
            crate::bits::lemma_u8_low_masks(bits);
        }
        let v = bits & 1;
        if v == 1 {
            CommunicationBreak::Enable
        } else {
            CommunicationBreak::Disable
        }
    }

    /// The raw field value of this code.
    pub fn into_bits(self) -> (r: u8)
        ensures
            r == self@,
            r <= 1,
    {
        match self {
            CommunicationBreak::Disable => 0,
            CommunicationBreak::Enable => 1,
        }
    }

    /// Decoding the raw value of a code gives the code back.
    pub proof fn lemma_roundtrip(self)
        ensures
            CommunicationBreak::spec_from_bits(self@) == self,
    {
    }
}

impl Default for CommunicationBreak {
    fn default() -> (r: CommunicationBreak)
        ensures
            r == CommunicationBreak::Disable,
    {
        CommunicationBreak::Disable
    }
}

/// Lets you configure the mute status (MUTE_ST). One-bit field.
#[derive(Clone, Copy, Debug, PartialEq, Eq, Structural)]
pub enum MuteStatus {
    /// Mute is deactivated.
    Deactivated,
    /// Mute is activated and discharging is disabled.
    Activated,
}

impl View for MuteStatus {
    type V = u8;

    /// The raw field value of this code.
    open spec fn view(&self) -> u8 {
        match self {
            MuteStatus::Deactivated => 0u8,
            MuteStatus::Activated => 1u8,
        }
    }
}

impl MuteStatus {
    /// Every variant stands for the field value the datasheet gives it.
    pub proof fn lemma_codes()
        ensures
            MuteStatus::Deactivated@ == 0u8,
            MuteStatus::Activated@ == 1u8,
    {
    }
}

impl MuteStatus {
    /// The power-up value of this field.
    pub const DEFAULT: MuteStatus = MuteStatus::Deactivated;

    /// The code a raw field value decodes to; values with no code of their own decode to `Deactivated`.
    pub open spec fn spec_from_bits(bits: u8) -> MuteStatus {
        if bits % 2 == 1 {
            MuteStatus::Activated
        } else {
            MuteStatus::Deactivated
        }
    }

    /// Decodes a raw field value (only its low bits count).
    pub fn from_bits(bits: u8) -> (r: MuteStatus)
        ensures
            r == MuteStatus::spec_from_bits(bits),
    {
        proof {
            crate::bits::lemma_u8_low_masks(bits);
        }
        let v = bits & 1;
        if v == 1 {
            MuteStatus::Activated
        } else {
            MuteStatus::Deactivated
        }
    }

    /// The raw field value of this code.
    pub fn into_bits(self) -> (r: u8)
        ensures
            r == self@,
            r <= 1,
    {
        match self {
            MuteStatus::Deactivated => 0,
            MuteStatus::Activated => 1,
        }
    }

    /// Decoding the raw value of a code gives the code back.
    pub proof fn lemma_roundtrip(self)
        ensures
            MuteStatus::spec_from_bits(self@) == self,
    {
    }
}

impl Default for MuteStatus {
    fn default() -> (r: MuteStatus)
        ensures
            r == MuteStatus::Deactivated,
    {
        MuteStatus::Deactivated
    }
}

/// Lets you configure the snapshot status (SNAP_ST). One-bit field.
#[derive(Clone, Copy, Debug, PartialEq, Eq, Structural)]
pub enum SnapshotStatus {
    /// Snapshot is deactivated.
    Deactivated,
    /// Snapshot is activated, result registers are frozen.
    Activated,
}

impl View for SnapshotStatus {
    type V = u8;

    /// The raw field value of this code.
    open spec fn view(&self) -> u8 {
        match self {
            SnapshotStatus::Deactivated => 0u8,
            SnapshotStatus::Activated => 1u8,
        }
    }
}

impl SnapshotStatus {
    /// Every variant stands for the field value the datasheet gives it.
    pub proof fn lemma_codes()
        ensures
            SnapshotStatus::Deactivated@ == 0u8,
            SnapshotStatus::Activated@ == 1u8,
    {
    }
}

impl SnapshotStatus {
    /// The power-up value of this field.
    pub const DEFAULT: SnapshotStatus = SnapshotStatus::Deactivated;

    /// The code a raw field value decodes to; values with no code of their own decode to `Deactivated`.
    pub open spec fn spec_from_bits(bits: u8) -> SnapshotStatus {
        if bits % 2 == 1 {
            SnapshotStatus::Activated
        } else {
            SnapshotStatus::Deactivated
        }
    }

    /// Decodes a raw field value (only its low bits count).
    pub fn from_bits(bits: u8) -> (r: SnapshotStatus)
        ensures
            r == SnapshotStatus::spec_from_bits(bits),
    {
        proof {
            crate::bits::lemma_u8_low_masks(bits);
        }
        let v = bits & 1;
        if v == 1 {
            SnapshotStatus::Activated
        } else {
            SnapshotStatus::Deactivated
        }
    }

    /// The raw field value of this code.
    pub fn into_bits(self) -> (r: u8)
        ensures
            r == self@,
            r <= 1,
    {
        match self {
            SnapshotStatus::Deactivated => 0,
            SnapshotStatus::Activated => 1,
        }
    }

    /// Decoding the raw value of a code gives the code back.
    pub proof fn lemma_roundtrip(self)
        ensures
            SnapshotStatus::spec_from_bits(self@) == self,
    {
    }
}

impl Default for SnapshotStatus {
    fn default() -> (r: SnapshotStatus)
        ensures
            r == SnapshotStatus::Deactivated,
    {
        SnapshotStatus::Deactivated
    }
}

} // verus!
