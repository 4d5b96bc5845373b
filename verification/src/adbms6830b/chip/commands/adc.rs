//! ADC Commands.

use vstd::prelude::*;

use super::Command;

verus! {

/// Poll Any ADC Status
pub fn pladc() -> (r: Command)
    ensures
        r@ == (true, 0b11100011000u16),
{
    Command::define(true, 0b11100011000)
}

/// Poll C-ADC
pub fn plcadc() -> (r: Command)
    ensures
        r@ == (true, 0b11100011100u16),
{
    Command::define(true, 0b11100011100)
}

/// Poll S-ADC
pub fn plsadc() -> (r: Command)
    ensures
        r@ == (true, 0b11100011101u16),
{
    Command::define(true, 0b11100011101)
}

/// Poll AUX ADC
pub fn plaux() -> (r: Command)
    ensures
        r@ == (true, 0b11100011110u16),
{
    Command::define(true, 0b11100011110)
}

/// Poll AUX2 ADC
pub fn plaux2() -> (r: Command)
    ensures
        r@ == (true, 0b11100011111u16),
{
    Command::define(true, 0b11100011111)
}

/// Command Bit Description for `Selection for AUX Inputs ADAX` (CH[4:0]) function.
/// See Table 52 on page 59 of the datasheet.
/// This is a 5-bit field.
#[derive(Clone, Copy, Debug, PartialEq, Eq, Structural)]
pub enum Aux1InputSelection {
    /// AUX Input = ALL
    All,
    /// AUX Input = GPIO1
    Gpio1,
    /// AUX Input = GPIO2
    Gpio2,
    /// AUX Input = GPIO3
    Gpio3,
    /// AUX Input = GPIO4
    Gpio4,
    /// AUX Input = GPIO5
    Gpio5,
    /// AUX Input = GPIO6
    Gpio6,
    /// AUX Input = GPIO7
    Gpio7,
    /// AUX Input = GPIO8
    Gpio8,
    /// AUX Input = GPIO9
    Gpio9,
    /// AUX Input = GPIO10
    Gpio10,
    /// AUX Input = VREF2
    Vref2,
    /// AUX Input = VD
    Vd,
    /// AUX Input = VA
    Va,
    /// AUX Input = ITEMP
    Itemp,
    /// AUX Input = VPV
    Vpv,
    /// AUX Input = VMV
    Vmv,
    /// AUX Input = RES
    Res,
}

impl View for Aux1InputSelection {
    type V = u8;

    /// The raw field value of this code.
    open spec fn view(&self) -> u8 {
        match self {
            Aux1InputSelection::All => 0u8,
            Aux1InputSelection::Gpio1 => 1u8,
            Aux1InputSelection::Gpio2 => 2u8,
            Aux1InputSelection::Gpio3 => 3u8,
            Aux1InputSelection::Gpio4 => 4u8,
            Aux1InputSelection::Gpio5 => 5u8,
            Aux1InputSelection::Gpio6 => 6u8,
            Aux1InputSelection::Gpio7 => 7u8,
            Aux1InputSelection::Gpio8 => 8u8,
            Aux1InputSelection::Gpio9 => 9u8,
            Aux1InputSelection::Gpio10 => 10u8,
            Aux1InputSelection::Vref2 => 16u8,
            Aux1InputSelection::Vd => 17u8,
            Aux1InputSelection::Va => 18u8,
            Aux1InputSelection::Itemp => 19u8,
            Aux1InputSelection::Vpv => 20u8,
            Aux1InputSelection::Vmv => 21u8,
            Aux1InputSelection::Res => 22u8,
        }
    }
}

impl Aux1InputSelection {
    /// Every variant stands for the field value the datasheet gives it.
    pub proof fn lemma_codes()
        ensures
            Aux1InputSelection::All@ == 0u8,
            Aux1InputSelection::Gpio1@ == 1u8,
            Aux1InputSelection::Gpio2@ == 2u8,
            Aux1InputSelection::Gpio3@ == 3u8,
            Aux1InputSelection::Gpio4@ == 4u8,
            Aux1InputSelection::Gpio5@ == 5u8,
            Aux1InputSelection::Gpio6@ == 6u8,
            Aux1InputSelection::Gpio7@ == 7u8,
            Aux1InputSelection::Gpio8@ == 8u8,
            Aux1InputSelection::Gpio9@ == 9u8,
            Aux1InputSelection::Gpio10@ == 10u8,
            Aux1InputSelection::Vref2@ == 16u8,
            Aux1InputSelection::Vd@ == 17u8,
            Aux1InputSelection::Va@ == 18u8,
            Aux1InputSelection::Itemp@ == 19u8,
            Aux1InputSelection::Vpv@ == 20u8,
            Aux1InputSelection::Vmv@ == 21u8,
            Aux1InputSelection::Res@ == 22u8,
    {
    }
}

impl Aux1InputSelection {
    /// The raw field value of this code.
    pub fn into_bits(self) -> (r: u8)
        ensures
            r == self@,
            r <= 31,
    {
        match self {
            Aux1InputSelection::All => 0,
            Aux1InputSelection::Gpio1 => 1,
            Aux1InputSelection::Gpio2 => 2,
            Aux1InputSelection::Gpio3 => 3,
            Aux1InputSelection::Gpio4 => 4,
            Aux1InputSelection::Gpio5 => 5,
            Aux1InputSelection::Gpio6 => 6,
            Aux1InputSelection::Gpio7 => 7,
            Aux1InputSelection::Gpio8 => 8,
            Aux1InputSelection::Gpio9 => 9,
            Aux1InputSelection::Gpio10 => 10,
            Aux1InputSelection::Vref2 => 16,
            Aux1InputSelection::Vd => 17,
            Aux1InputSelection::Va => 18,
            Aux1InputSelection::Itemp => 19,
            Aux1InputSelection::Vpv => 20,
            Aux1InputSelection::Vmv => 21,
            Aux1InputSelection::Res => 22,
        }
    }
}

/// Command Bit Description for `Selection for AUX Inputs ADAX2` (CH[3:0]) function.
/// See Table 52 on page 59 of the datasheet.
/// This is a 4-bit field.
#[derive(Clone, Copy, Debug, PartialEq, Eq, Structural)]
pub enum Aux2InputSelection {
    /// AUX Input = ALL
    All,
    /// AUX Input = GPIO1
    Gpio1,
    /// AUX Input = GPIO2
    Gpio2,
    /// AUX Input = GPIO3
    Gpio3,
    /// AUX Input = GPIO4
    Gpio4,
    /// AUX Input = GPIO5
    Gpio5,
    /// AUX Input = GPIO6
    Gpio6,
    /// AUX Input = GPIO7
    Gpio7,
    /// AUX Input = GPIO8
    Gpio8,
    /// AUX Input = GPIO9
    Gpio9,
    /// AUX Input = GPIO10
    Gpio10,
}

impl View for Aux2InputSelection {
    type V = u8;

    /// The raw field value of this code.
    open spec fn view(&self) -> u8 {
        match self {
            Aux2InputSelection::All => 0u8,
            Aux2InputSelection::Gpio1 => 1u8,
            Aux2InputSelection::Gpio2 => 2u8,
            Aux2InputSelection::Gpio3 => 3u8,
            Aux2InputSelection::Gpio4 => 4u8,
            Aux2InputSelection::Gpio5 => 5u8,
            Aux2InputSelection::Gpio6 => 6u8,
            Aux2InputSelection::Gpio7 => 7u8,
            Aux2InputSelection::Gpio8 => 8u8,
            Aux2InputSelection::Gpio9 => 9u8,
            Aux2InputSelection::Gpio10 => 10u8,
        }
    }
}

impl Aux2InputSelection {
    /// Every variant stands for the field value the datasheet gives it.
    pub proof fn lemma_codes()
        ensures
            Aux2InputSelection::All@ == 0u8,
            Aux2InputSelection::Gpio1@ == 1u8,
            Aux2InputSelection::Gpio2@ == 2u8,
            Aux2InputSelection::Gpio3@ == 3u8,
            Aux2InputSelection::Gpio4@ == 4u8,
            Aux2InputSelection::Gpio5@ == 5u8,
            Aux2InputSelection::Gpio6@ == 6u8,
            Aux2InputSelection::Gpio7@ == 7u8,
            Aux2InputSelection::Gpio8@ == 8u8,
            Aux2InputSelection::Gpio9@ == 9u8,
            Aux2InputSelection::Gpio10@ == 10u8,
    {
    }
}

impl Aux2InputSelection {
    /// The raw field value of this code.
    pub fn into_bits(self) -> (r: u8)
        ensures
            r == self@,
            r <= 15,
    {
        match self {
            Aux2InputSelection::All => 0,
            Aux2InputSelection::Gpio1 => 1,
            Aux2InputSelection::Gpio2 => 2,
            Aux2InputSelection::Gpio3 => 3,
            Aux2InputSelection::Gpio4 => 4,
            Aux2InputSelection::Gpio5 => 5,
            Aux2InputSelection::Gpio6 => 6,
            Aux2InputSelection::Gpio7 => 7,
            Aux2InputSelection::Gpio8 => 8,
            Aux2InputSelection::Gpio9 => 9,
            Aux2InputSelection::Gpio10 => 10,
        }
    }
}

/// Command Bit Description for `Open wire on C-ADCS and S-ADCs` (OW[1:0]) function.
/// See Table 52 on page 59 of the datasheet.
/// This is a 2-bit field.
#[derive(Clone, Copy, Debug, PartialEq, Eq, Structural)]
pub enum OpenWire {
    /// Open wire detection off on all channels.
    OffForAll,
    /// Open wire detection on for even channels, off for odd channels.
    EvenOnOddOff,
    /// Open wire detection on for odd channels, off for even channels.
    EvenOffOddOn,
    /// Open wire detection on for all channels.
    OnForAll,
}

impl View for OpenWire {
    type V = u8;

    /// The raw field value of this code.
    open spec fn view(&self) -> u8 {
        match self {
            OpenWire::OffForAll => 0u8,
            OpenWire::EvenOnOddOff => 1u8,
            OpenWire::EvenOffOddOn => 2u8,
            OpenWire::OnForAll => 3u8,
        }
    }
}

impl OpenWire {
    /// Every variant stands for the field value the datasheet gives it.
    pub proof fn lemma_codes()
        ensures
            OpenWire::OffForAll@ == 0u8,
            OpenWire::EvenOnOddOff@ == 1u8,
            OpenWire::EvenOffOddOn@ == 2u8,
            OpenWire::OnForAll@ == 3u8,
    {
    }
}

impl OpenWire {
    /// The raw field value of this code.
    pub fn into_bits(self) -> (r: u8)
        ensures
            r == self@,
            r <= 3,
    {
        match self {
            OpenWire::OffForAll => 0,
            OpenWire::EvenOnOddOff => 1,
            OpenWire::EvenOffOddOn => 2,
            OpenWire::OnForAll => 3,
        }
    }
}

/// Command Bit Description for `Open wire on AUX ADCs` (OW) function.
/// See Table 52 on page 59 of the datasheet.
/// This is a 1-bit field.
#[derive(Clone, Copy, Debug, PartialEq, Eq, Structural)]
pub enum OpenWireAux {
    /// Off
    Off,
    /// On
    On,
}

impl View for OpenWireAux {
    type V = u8;

    /// The raw field value of this code.
    open spec fn view(&self) -> u8 {
        match self {
            OpenWireAux::Off => 0u8,
            OpenWireAux::On => 1u8,
        }
    }
}

impl OpenWireAux {
    /// Every variant stands for the field value the datasheet gives it.
    pub proof fn lemma_codes()
        ensures
            OpenWireAux::Off@ == 0u8,
            OpenWireAux::On@ == 1u8,
    {
    }
}

impl OpenWireAux {
    /// The raw field value of this code.
    pub fn into_bits(self) -> (r: u8)
        ensures
            r == self@,
            r <= 1,
    {
        match self {
            OpenWireAux::Off => 0,
            OpenWireAux::On => 1,
        }
    }
}

/// Command Bit Description for `Pull-up and pull down current for open wire conversions` (PUP) function.
/// See Table 52 on page 59 of the datasheet.
/// This is a 1-bit field.
#[derive(Clone, Copy, Debug, PartialEq, Eq, Structural)]
pub enum Pull {
    /// Pull-down current during AUX conversions (if OW = 1)
    PullDown,
    /// Pull-up current during AUX conversions (if OW = 1)
    PullUp,
}

impl View for Pull {
    type V = u8;

    /// The raw field value of this code.
    open spec fn view(&self) -> u8 {
        match self {
            Pull::PullDown => 0u8,
            Pull::PullUp => 1u8,
        }
    }
}

impl Pull {
    /// Every variant stands for the field value the datasheet gives it.
    pub proof fn lemma_codes()
        ensures
            Pull::PullDown@ == 0u8,
            Pull::PullUp@ == 1u8,
    {
    }
}

impl Pull {
    /// The raw field value of this code.
    pub fn into_bits(self) -> (r: u8)
        ensures
            r == self@,
            r <= 1,
    {
        match self {
            Pull::PullDown => 0,
            Pull::PullUp => 1,
        }
    }
}

/// Command Bit Description for `Reset filter` (RSTF) function.
/// See Table 52 on page 59 of the datasheet.
/// This is a 1-bit field.
#[derive(Clone, Copy, Debug, PartialEq, Eq, Structural)]
pub enum ResetFilter {
    /// Do not reset IIR filter.
    NoReset,
    /// Reset IIR filter.
    Reset,
}

impl View for ResetFilter {
    type V = u8;

    /// The raw field value of this code.
    open spec fn view(&self) -> u8 {
        match self {
            ResetFilter::NoReset => 0u8,
            ResetFilter::Reset => 1u8,
        }
    }
}

impl ResetFilter {
    /// Every variant stands for the field value the datasheet gives it.
    pub proof fn lemma_codes()
        ensures
            ResetFilter::NoReset@ == 0u8,
            ResetFilter::Reset@ == 1u8,
    {
    }
}

impl ResetFilter {
    /// The raw field value of this code.
    pub fn into_bits(self) -> (r: u8)
        ensures
            r == self@,
            r <= 1,
    {
        match self {
            ResetFilter::NoReset => 0,
            ResetFilter::Reset => 1,
        }
    }
}

/// Redundancy (RD) for the ADCV command. See Table 19 on page 20 of the datasheet.
#[derive(Clone, Copy, Debug, PartialEq, Eq, Structural)]
pub enum AdcvRedundancy {
    /// C-ADCs only (no redundant comparison).
    Disabled,
    /// Trigger C-ADCs and S-ADCs and compare results (redundant measurement).
    Enabled,
}

impl View for AdcvRedundancy {
    type V = u8;

    /// The raw field value of this code.
    open spec fn view(&self) -> u8 {
        match self {
            AdcvRedundancy::Disabled => 0u8,
            AdcvRedundancy::Enabled => 1u8,
        }
    }
}

impl AdcvRedundancy {
    /// Every variant stands for the field value the datasheet gives it.
    pub proof fn lemma_codes()
        ensures
            AdcvRedundancy::Disabled@ == 0u8,
            AdcvRedundancy::Enabled@ == 1u8,
    {
    }
}

impl AdcvRedundancy {
    /// The raw field value of this code.
    pub fn into_bits(self) -> (r: u8)
        ensures
            r == self@,
            r <= 1,
    {
        match self {
            AdcvRedundancy::Disabled => 0,
            AdcvRedundancy::Enabled => 1,
        }
    }
}

/// How a conversion runs, and whether PWM discharge continues through it.
///
/// See Table 19 on page 20 and Table 52 on page 59 of the datasheet.
/// This enum models the possible combinations of DCP and CONT. The invalid
/// combaintions of those two bits are left out of this enum on purpose.
#[derive(Clone, Copy, Debug, PartialEq, Eq, Structural)]
pub enum Acquisition {
    /// Make a single measurement and then standby.
    ///
    /// PWM discharge is interrupted for the duration of any S-ADC measurement this
    /// triggers. This variant corresponds to `CONT = 0`, `DCP = 0`.
    SingleShot,
    /// Make a single measurement and then standby.
    ///
    /// PWM discharge continues through the measurement. This variant corresponds to `CONT = 0`, `DCP = 1`.
    SingleShotDischarging,
    /// Measure continuously until stopped.
    ///
    /// The result registers will update at the ADC's conversion rate (1 ms for the C-ADCs,
    /// 8 ms for the S-ADCs). To stop, send the same command again with `Acquisition::SingleShot`.
    /// This variant corresponds to `CONT = 1`, `DCP = 0`.
    Continuous,
}

/// How a conversion runs, for the `_autoconvert()` helpers: [`Acquisition`] without
/// `Continuous`, since continuous conversions have no ADC completion to poll on.
#[derive(Clone, Copy, Debug, PartialEq, Eq, Structural)]
pub enum AutoAcquisition {
    /// Make a single measurement and then standby (`CONT = 0`, `DCP = 0`).
    SingleShot,
    /// Make a single measurement and then standby, discharging through it (`CONT = 0`, `DCP = 1`).
    SingleShotDischarging,
}

/// The `Acquisition` an `AutoAcquisition` stands for.
pub open spec fn acquisition_of(item: AutoAcquisition) -> Acquisition {
    match item {
        AutoAcquisition::SingleShot => Acquisition::SingleShot,
        AutoAcquisition::SingleShotDischarging => Acquisition::SingleShotDischarging,
    }
}

impl From<AutoAcquisition> for Acquisition {
    fn from(item: AutoAcquisition) -> (r: Acquisition)
        ensures
            r == acquisition_of(item),
    {
        match item {
            AutoAcquisition::SingleShot => Acquisition::SingleShot,
            AutoAcquisition::SingleShotDischarging => Acquisition::SingleShotDischarging,
        }
    }
}

impl vstd::std_specs::convert::FromSpecImpl<AutoAcquisition> for Acquisition {
    open spec fn obeys_from_spec() -> bool {
        true
    }

    open spec fn from_spec(v: AutoAcquisition) -> Acquisition {
        acquisition_of(v)
    }
}

impl Acquisition {
    /// The `DCP` bit of an acquisition mode.
    pub open spec fn spec_dcp(self) -> u8 {
        match self {
            Acquisition::SingleShotDischarging => 1,
            _ => 0,
        }
    }

    /// The `CONT` bit of an acquisition mode.
    pub open spec fn spec_cont(self) -> u8 {
        match self {
            Acquisition::Continuous => 1,
            _ => 0,
        }
    }

    /// The `DCP` bit for this acquisition mode.
    fn dcp(self) -> (r: u8)
        ensures
            r == self.spec_dcp(),
    {
        match self {
            Acquisition::SingleShotDischarging => 1,
            _ => 0,
        }
    }

    /// The `CONT` bit for this acquisition mode.
    fn cont(self) -> (r: u8)
        ensures
            r == self.spec_cont(),
    {
        match self {
            Acquisition::Continuous => 1,
            _ => 0,
        }
    }
}

/// Base code of ADCV, with every variable bit clear.
pub const ADCV_BASE: u16 = 0b01001100000;

/// Base code of ADSV, with every variable bit clear.
pub const ADSV_BASE: u16 = 0b00101101000;

/// Base code of ADAX, with every variable bit clear.
pub const ADAX_BASE: u16 = 0b10000010000;

/// Base code of ADAX2, with every variable bit clear.
pub const ADAX2_BASE: u16 = 0b10000000000;

/// The ADCV command code: `[8]=RD, [7]=CONT, [4]=DCP, [2]=RSTF, [1:0]=OW` over the base code.
pub open spec fn adcv_code(rd: AdcvRedundancy, acq: Acquisition, rstf: ResetFilter, ow: OpenWire) -> u16 {
    (ADCV_BASE + ow@ + 4 * rstf@ + 16 * acq.spec_dcp() + 128 * acq.spec_cont() + 256 * rd@) as u16
}

/// The ADSV command code: `[7]=CONT, [4]=DCP, [1:0]=OW` over the base code.
pub open spec fn adsv_code(acq: Acquisition, ow: OpenWire) -> u16 {
    (ADSV_BASE + ow@ + 16 * acq.spec_dcp() + 128 * acq.spec_cont()) as u16
}

/// The ADAX command code: `[8]=OW, [7]=PUP, [6]=CH[4], [3:0]=CH[3:0]` over the base code.
pub open spec fn adax_code(ow: OpenWireAux, pup: Pull, ch: Aux1InputSelection) -> u16 {
    (ADAX_BASE + ch@ % 16 + 64 * (ch@ / 16) + 128 * pup@ + 256 * ow@) as u16
}

/// The ADAX2 command code: `[3:0]=CH[3:0]` over the base code.
pub open spec fn adax2_code(ch: Aux2InputSelection) -> u16 {
    (ADAX2_BASE + ch@) as u16
}

/// Start Cell Voltage ADC Conversion and Poll Status
///
/// Note that *any* ADCV interrupts the ongoing C-ADC conversions and restarts the
/// C-ADCs. Because of this, the datasheet recommends triggering periodic redundant
/// measurements with `adsv()` (`Acquisition::Continuous`) rather than re-issuing this
/// command. Also note that an ADCV with `AdcvRedundancy::Enabled` resets the open wire
/// switches to open so that the C-ADC/S-ADC comparison is valid, so redundancy and open
/// wire excitation can't be combined in a single ADCV.
///
/// See Table 19 on page 20 of the datasheet for what each combination of `rd` and `acq`
/// does to the ongoing conversions and to PWM discharge.
pub fn adcv(rd: AdcvRedundancy, acq: Acquisition, rstf: ResetFilter, ow: OpenWire) -> (r: Command)
    ensures
        r@ == (true, adcv_code(rd, acq, rstf, ow)),
{
    let code: u16 = ADCV_BASE + ow.into_bits() as u16 + 4 * rstf.into_bits() as u16 + 16
        * acq.dcp() as u16 + 128 * acq.cont() as u16 + 256 * rd.into_bits() as u16;
    Command::define(true, code)
}

/// Start S-ADC Conversion and Poll Status
///
/// Unlike `adcv()`, this doesn't restart the C-ADCs, so it's the datasheet's
/// recommended way to take periodic redundant measurements. Issuing this with
/// `Acquisition::Continuous` while the C-ADCs are already converting continuously
/// synchronizes the S-ADCs to the C-ADC average and compares the two.
///
/// See Table 19 on page 20 of the datasheet for what each `acq` value does to the
/// ongoing conversions and to PWM discharge.
pub fn adsv(acq: Acquisition, ow: OpenWire) -> (r: Command)
    ensures
        r@ == (true, adsv_code(acq, ow)),
{
    let code: u16 = ADSV_BASE + ow.into_bits() as u16 + 16 * acq.dcp() as u16 + 128
        * acq.cont() as u16;
    Command::define(true, code)
}

/// Start AUX ADC Conversions and Poll Status
pub fn adax(ow: OpenWireAux, pup: Pull, ch: Aux1InputSelection) -> (r: Command)
    ensures
        r@ == (true, adax_code(ow, pup, ch)),
{
    let ch_bits = ch.into_bits();
    let code: u16 = ADAX_BASE + (ch_bits % 16) as u16 + 64 * (ch_bits / 16) as u16 + 128
        * pup.into_bits() as u16 + 256 * ow.into_bits() as u16;
    Command::define(true, code)
}

/// Start AUX2 ADC Conversions and Poll Status
pub fn adax2(ch: Aux2InputSelection) -> (r: Command)
    ensures
        r@ == (true, adax2_code(ch)),
{
    let code: u16 = ADAX2_BASE + ch.into_bits() as u16;
    Command::define(true, code)
}

/// The bits of an ADCV code over its base `0x260`: where `r`, `k`, `d`, `f`
/// and `o` are the values of the RD, CONT, DCP, RSTF and OW fields, the code has RD at bit 8,
/// CONT at bit 7, DCP at bit 4, RSTF at bit 2 and OW in bits 1..0, and the base in every other bit.
proof fn lemma_adcv_bits(o: u16, f: u16, d: u16, k: u16, r: u16, c: u16)
    by (bit_vector)
    requires
        o <= 3,
        f <= 1,
        d <= 1,
        k <= 1,
        r <= 1,
        c == 0x260 + o + 4 * f + 16 * d + 128 * k + 256 * r,
    ensures
        (c >> 8) & 1 == r,
        (c >> 7) & 1 == k,
        (c >> 4) & 1 == d,
        (c >> 2) & 1 == f,
        c & 3 == o,
        c & 0x668 == 0x260,
{
}

/// The bits of an ADSV code over its base `0x168`: CONT at bit 7, DCP at bit 4, OW in bits 1..0.
proof fn lemma_adsv_bits(o: u16, d: u16, k: u16, c: u16)
    by (bit_vector)
    requires
        o <= 3,
        d <= 1,
        k <= 1,
        c == 0x168 + o + 16 * d + 128 * k,
    ensures
        (c >> 7) & 1 == k,
        (c >> 4) & 1 == d,
        c & 3 == o,
        c & 0x76c == 0x168,
{
}

/// What an ADCV code says, bit by bit (datasheet Table 52): RD at bit 8 is set exactly for
/// redundant measurements, CONT at bit 7 exactly for continuous conversions, DCP at bit 4 exactly
/// for a single shot that keeps discharging, RSTF at bit 2 exactly when the filter is reset, OW
/// in bits 1..0 is 0 for none, 1 for even, 2 for odd and 3 for all channels, and every other bit
/// is that of the ADCV base code `0x260`.
pub proof fn lemma_adcv_fields(rd: AdcvRedundancy, acq: Acquisition, rstf: ResetFilter, ow: OpenWire)
    ensures
        (adcv_code(rd, acq, rstf, ow) >> 8) & 1 == (if rd == AdcvRedundancy::Enabled { 1u16 } else { 0u16 }),
        (adcv_code(rd, acq, rstf, ow) >> 7) & 1 == (if acq == Acquisition::Continuous { 1u16 } else { 0u16 }),
        (adcv_code(rd, acq, rstf, ow) >> 4) & 1 == (if acq == Acquisition::SingleShotDischarging {
            1u16
        } else {
            0u16
        }),
        (adcv_code(rd, acq, rstf, ow) >> 2) & 1 == (if rstf == ResetFilter::Reset { 1u16 } else { 0u16 }),
        adcv_code(rd, acq, rstf, ow) & 3 == (match ow {
            OpenWire::OffForAll => 0u16,
            OpenWire::EvenOnOddOff => 1u16,
            OpenWire::EvenOffOddOn => 2u16,
            OpenWire::OnForAll => 3u16,
        }),
        adcv_code(rd, acq, rstf, ow) & 0x668 == 0x260,
{
    let c = adcv_code(rd, acq, rstf, ow);
    lemma_adcv_bits(
        ow@ as u16,
        rstf@ as u16,
        acq.spec_dcp() as u16,
        acq.spec_cont() as u16,
        rd@ as u16,
        c,
    );
}

/// What an ADSV code says, bit by bit (datasheet Table 52): CONT at bit 7 is set exactly for
/// continuous conversions, DCP at bit 4 exactly for a single shot that keeps discharging, OW in
/// bits 1..0 is 0 for none, 1 for even, 2 for odd and 3 for all channels, and every other bit is
/// that of the ADSV base code `0x168`.
pub proof fn lemma_adsv_fields(acq: Acquisition, ow: OpenWire)
    ensures
        (adsv_code(acq, ow) >> 7) & 1 == (if acq == Acquisition::Continuous { 1u16 } else { 0u16 }),
        (adsv_code(acq, ow) >> 4) & 1 == (if acq == Acquisition::SingleShotDischarging {
            1u16
        } else {
            0u16
        }),
        adsv_code(acq, ow) & 3 == (match ow {
            OpenWire::OffForAll => 0u16,
            OpenWire::EvenOnOddOff => 1u16,
            OpenWire::EvenOffOddOn => 2u16,
            OpenWire::OnForAll => 3u16,
        }),
        adsv_code(acq, ow) & 0x76c == 0x168,
{
    let c = adsv_code(acq, ow);
    lemma_adsv_bits(ow@ as u16, acq.spec_dcp() as u16, acq.spec_cont() as u16, c);
}

/// The bits of an ADAX code over its base `0x410`: OW at bit 8, PUP at bit 7, CH[4] at bit 6 and
/// CH[3:0] in bits 3..0.
proof fn lemma_adax_bits(w: u16, u: u16, ch: u16, c: u16)
    by (bit_vector)
    requires
        w <= 1,
        u <= 1,
        ch < 32,
        c == 0x410 + ch % 16 + 64 * (ch / 16) + 128 * u + 256 * w,
    ensures
        (c >> 8) & 1 == w,
        (c >> 7) & 1 == u,
        (c >> 6) & 1 == ch / 16,
        c & 0xf == ch % 16,
        c & 0x630 == 0x410,
{
}

/// What an ADAX code says, bit by bit (datasheet Table 52): OW at bit 8 is set exactly when open
/// wire detection is on, PUP at bit 7 exactly for pull-up currents, and the channel code `CH`
/// (see `Aux1InputSelection::lemma_codes`) is split into CH[4] at bit 6 and CH[3:0] in bits
/// 3..0; every other bit is that of the ADAX base code `0x410`.
pub proof fn lemma_adax_fields(ow: OpenWireAux, pup: Pull, ch: Aux1InputSelection)
    ensures
        (adax_code(ow, pup, ch) >> 8) & 1 == (if ow == OpenWireAux::On { 1u16 } else { 0u16 }),
        (adax_code(ow, pup, ch) >> 7) & 1 == (if pup == Pull::PullUp { 1u16 } else { 0u16 }),
        (adax_code(ow, pup, ch) >> 6) & 1 == ch@ / 16,
        adax_code(ow, pup, ch) & 0xf == ch@ % 16,
        adax_code(ow, pup, ch) & 0x630 == 0x410,
{
    lemma_adax_bits(ow@ as u16, pup@ as u16, ch@ as u16, adax_code(ow, pup, ch));
}

} // verus!
