//! Configuration register groups A and B.

use vstd::prelude::*;

use crate::bits::{field, get_bits, put, set_bits};
use crate::adbms6830::registers::{AdbmsReadableRegister, AdbmsWritableRegister};
use super::Threshold;

verus! {

/// Configuration Register Group A
#[derive(Clone, Copy, Debug, PartialEq, Eq)]
pub struct ConfigA(u64);

impl View for ConfigA {
    type V = u64;

    /// The raw bits of the layout.
    closed spec fn view(&self) -> u64 {
        self.0
    }
}

impl ConfigA {
    /// The layout with every field at its default.
    pub fn new() -> (r: ConfigA)
        ensures
            r@ == 0x3ff000001u64,
    {
        ConfigA(0x3ff000001)
    }

    /// Wraps raw bits.
    pub fn from_bits(bits: u64) -> (r: ConfigA)
        ensures
            r@ == bits,
    {
        ConfigA(bits)
    }

    /// The raw bits.
    pub fn into_bits(self) -> (r: u64)
        ensures
            r == self@,
    {
        self.0
    }

    /// C-ADC vs S-ADC comparison voltage threshold (datasheet Table 102).
    pub fn cth(&self) -> (r: CompThreshold)
        ensures
            r == CompThreshold::spec_from_bits(get_bits(self@, 0, 0x7) as u8),
    {
        let v = field(self.0, 0, 0x7);
        CompThreshold::from_bits(v as u8)
    }

    /// This layout with the `cth` field replaced.
    pub fn with_cth(self, v: CompThreshold) -> (r: ConfigA)
        ensures
            r@ == set_bits(self@, 0, 0x7, v@ as u64),
    {
        ConfigA(put(self.0, 0, 0x7, v.into_bits() as u64))
    }

    /// Reference powered up
    /// if true, reference remains powered on until watchdog timeout,
    /// if false, shuts down after conv.
    pub fn refon(&self) -> (r: bool)
        ensures
            r == (get_bits(self@, 7, 0x1) == 1),
    {
        let v = field(self.0, 7, 0x1);
        v == 1
    }

    /// This layout with the `refon` field replaced.
    pub fn with_refon(self, v: bool) -> (r: ConfigA)
        ensures
            r@ == set_bits(self@, 7, 0x1, (if v { 1u64 } else { 0u64 })),
    {
        ConfigA(put(self.0, 7, 0x1, if v { 1 } else { 0 }))
    }

    /// forces oscillator counter fast.
    pub fn flag_d_osccnt_fast(&self) -> (r: bool)
        ensures
            r == (get_bits(self@, 8, 0x1) == 1),
    {
        let v = field(self.0, 8, 0x1);
        v == 1
    }

    /// This layout with the `flag_d_osccnt_fast` field replaced.
    pub fn with_flag_d_osccnt_fast(self, v: bool) -> (r: ConfigA)
        ensures
            r@ == set_bits(self@, 8, 0x1, (if v { 1u64 } else { 0u64 })),
    {
        ConfigA(put(self.0, 8, 0x1, if v { 1 } else { 0 }))
    }

    /// forces oscillator counter slow.
    pub fn flag_d_osccnt_slow(&self) -> (r: bool)
        ensures
            r == (get_bits(self@, 9, 0x1) == 1),
    {
        let v = field(self.0, 9, 0x1);
        v == 1
    }

    /// This layout with the `flag_d_osccnt_slow` field replaced.
    pub fn with_flag_d_osccnt_slow(self, v: bool) -> (r: ConfigA)
        ensures
            r@ == set_bits(self@, 9, 0x1, (if v { 1u64 } else { 0u64 })),
    {
        ConfigA(put(self.0, 9, 0x1, if v { 1 } else { 0 }))
    }

    /// forces supply error detection (ED).
    pub fn flag_d_ed(&self) -> (r: bool)
        ensures
            r == (get_bits(self@, 10, 0x1) == 1),
    {
        let v = field(self.0, 10, 0x1);
        v == 1
    }

    /// This layout with the `flag_d_ed` field replaced.
    pub fn with_flag_d_ed(self, v: bool) -> (r: ConfigA)
        ensures
            r@ == set_bits(self@, 10, 0x1, (if v { 1u64 } else { 0u64 })),
    {
        ConfigA(put(self.0, 10, 0x1, if v { 1 } else { 0 }))
    }

    /// selects supply OV and delta detection. 0 = selects UV.
    pub fn flag_d_uvov(&self) -> (r: bool)
        ensures
            r == (get_bits(self@, 11, 0x1) == 1),
    {
        let v = field(self.0, 11, 0x1);
        v == 1
    }

    /// This layout with the `flag_d_uvov` field replaced.
    pub fn with_flag_d_uvov(self, v: bool) -> (r: ConfigA)
        ensures
            r@ == set_bits(self@, 11, 0x1, (if v { 1u64 } else { 0u64 })),
    {
        ConfigA(put(self.0, 11, 0x1, if v { 1 } else { 0 }))
    }

    /// sets THSD
    pub fn flag_d_thsd(&self) -> (r: bool)
        ensures
            r == (get_bits(self@, 12, 0x1) == 1),
    {
        let v = field(self.0, 12, 0x1);
        v == 1
    }

    /// This layout with the `flag_d_thsd` field replaced.
    pub fn with_flag_d_thsd(self, v: bool) -> (r: ConfigA)
        ensures
            r@ == set_bits(self@, 12, 0x1, (if v { 1u64 } else { 0u64 })),
    {
        ConfigA(put(self.0, 12, 0x1, if v { 1 } else { 0 }))
    }

    /// forces nonvolatile memory (NVM) error detection (ED). Sets CED and SED.
    pub fn flag_d_nvm(&self) -> (r: bool)
        ensures
            r == (get_bits(self@, 13, 0x1) == 1),
    {
        let v = field(self.0, 13, 0x1);
        v == 1
    }

    /// This layout with the `flag_d_nvm` field replaced.
    pub fn with_flag_d_nvm(self, v: bool) -> (r: ConfigA)
        ensures
            r@ == set_bits(self@, 13, 0x1, (if v { 1u64 } else { 0u64 })),
    {
        ConfigA(put(self.0, 13, 0x1, if v { 1 } else { 0 }))
    }

    /// forces NVM multiple error detection (MED). Sets CMED and SMED.
    pub fn flag_d_nvm_med(&self) -> (r: bool)
        ensures
            r == (get_bits(self@, 14, 0x1) == 1),
    {
        let v = field(self.0, 14, 0x1);
        v == 1
    }

    /// This layout with the `flag_d_nvm_med` field replaced.
    pub fn with_flag_d_nvm_med(self, v: bool) -> (r: ConfigA)
        ensures
            r@ == set_bits(self@, 14, 0x1, (if v { 1u64 } else { 0u64 })),
    {
        ConfigA(put(self.0, 14, 0x1, if v { 1 } else { 0 }))
    }

    /// forces TMODCHK
    pub fn flag_d_tmodchk(&self) -> (r: bool)
        ensures
            r == (get_bits(self@, 15, 0x1) == 1),
    {
        let v = field(self.0, 15, 0x1);
        v == 1
    }

    /// This layout with the `flag_d_tmodchk` field replaced.
    pub fn with_flag_d_tmodchk(self, v: bool) -> (r: ConfigA)
        ensures
            r@ == set_bits(self@, 15, 0x1, (if v { 1u64 } else { 0u64 })),
    {
        ConfigA(put(self.0, 15, 0x1, if v { 1 } else { 0 }))
    }

    /// Open-wire soak time.
    /// If OWRNG = 0, soak time = 2^(6 + OWA[2:0]) clocks (32 us to 4.1 ms).
    /// If OWRNG = 1, soak time = 2^(13 + OWA[2:0]) clocks (4.1 ms to 524 ms).
    pub fn owa(&self) -> (r: u8)
        ensures
            r == get_bits(self@, 19, 0x7) as u8,
    {
        let v = field(self.0, 19, 0x7);
        v as u8
    }

    /// This layout with the `owa` field replaced.
    pub fn with_owa(self, v: u8) -> (r: ConfigA)
        ensures
            r@ == set_bits(self@, 19, 0x7, v as u64),
    {
        ConfigA(put(self.0, 19, 0x7, v as u64))
    }

    /// Open-wire soak time range (`1` = long, `0` = short).
    pub fn owrng(&self) -> (r: bool)
        ensures
            r == (get_bits(self@, 22, 0x1) == 1),
    {
        let v = field(self.0, 22, 0x1);
        v == 1
    }

    /// This layout with the `owrng` field replaced.
    pub fn with_owrng(self, v: bool) -> (r: ConfigA)
        ensures
            r@ == set_bits(self@, 22, 0x1, (if v { 1u64 } else { 0u64 })),
    {
        ConfigA(put(self.0, 22, 0x1, if v { 1 } else { 0 }))
    }

    /// Enable soak on AUX ADCs.
    pub fn soakon(&self) -> (r: bool)
        ensures
            r == (get_bits(self@, 23, 0x1) == 1),
    {
        let v = field(self.0, 23, 0x1);
        v == 1
    }

    /// This layout with the `soakon` field replaced.
    pub fn with_soakon(self, v: bool) -> (r: ConfigA)
        ensures
            r@ == set_bits(self@, 23, 0x1, (if v { 1u64 } else { 0u64 })),
    {
        ConfigA(put(self.0, 23, 0x1, if v { 1 } else { 0 }))
    }

    /// GPIO pull-down disable mask (`1` = GPIO drives high / pull-down off).
    /// Power-on default is all 1s.
    pub fn gpo(&self) -> (r: u16)
        ensures
            r == get_bits(self@, 24, 0x3ff) as u16,
    {
        let v = field(self.0, 24, 0x3ff);
        v as u16
    }

    /// This layout with the `gpo` field replaced.
    pub fn with_gpo(self, v: u16) -> (r: ConfigA)
        ensures
            r@ == set_bits(self@, 24, 0x3ff, v as u64),
    {
        ConfigA(put(self.0, 24, 0x3ff, v as u64))
    }

    /// IIR filter corner frequency.
    pub fn fc(&self) -> (r: IirCorner)
        ensures
            r == IirCorner::spec_from_bits(get_bits(self@, 40, 0x7) as u8),
    {
        let v = field(self.0, 40, 0x7);
        IirCorner::from_bits(v as u8)
    }

    /// This layout with the `fc` field replaced.
    pub fn with_fc(self, v: IirCorner) -> (r: ConfigA)
        ensures
            r@ == set_bits(self@, 40, 0x7, v@ as u64),
    {
        ConfigA(put(self.0, 40, 0x7, v.into_bits() as u64))
    }

    /// Communication break (`1` = stop forwarding daisy-chain traffic).
    pub fn comm_bk(&self) -> (r: bool)
        ensures
            r == (get_bits(self@, 43, 0x1) == 1),
    {
        let v = field(self.0, 43, 0x1);
        v == 1
    }

    /// This layout with the `comm_bk` field replaced.
    pub fn with_comm_bk(self, v: bool) -> (r: ConfigA)
        ensures
            r@ == set_bits(self@, 43, 0x1, (if v { 1u64 } else { 0u64 })),
    {
        ConfigA(put(self.0, 43, 0x1, if v { 1 } else { 0 }))
    }

    /// Mute status (`1` = discharging disabled).
    pub fn mute_st(&self) -> (r: bool)
        ensures
            r == (get_bits(self@, 44, 0x1) == 1),
    {
        let v = field(self.0, 44, 0x1);
        v == 1
    }

    /// This layout with the `mute_st` field replaced.
    pub fn with_mute_st(self, v: bool) -> (r: ConfigA)
        ensures
            r@ == set_bits(self@, 44, 0x1, (if v { 1u64 } else { 0u64 })),
    {
        ConfigA(put(self.0, 44, 0x1, if v { 1 } else { 0 }))
    }

    /// Snapshot status (`1` = result registers frozen).
    pub fn snap_st(&self) -> (r: bool)
        ensures
            r == (get_bits(self@, 45, 0x1) == 1),
    {
        let v = field(self.0, 45, 0x1);
        v == 1
    }

    /// This layout with the `snap_st` field replaced.
    pub fn with_snap_st(self, v: bool) -> (r: ConfigA)
        ensures
            r@ == set_bits(self@, 45, 0x1, (if v { 1u64 } else { 0u64 })),
    {
        ConfigA(put(self.0, 45, 0x1, if v { 1 } else { 0 }))
    }

    /// Power-on style preset: reference always on, IIR disabled, GPO pull-downs off, comparator
    /// threshold at the datasheet default.
    pub fn boot_default() -> (r: ConfigA)
        ensures
            r@ == 0x3ff000081u64,
    {
        let r = ConfigA::new().with_refon(true);
        assert(set_bits(0x3ff000001u64, 7, 0x1, 1) == 0x3ff000081u64) by (bit_vector);
        r
    }
}

impl From<u64> for ConfigA {
    fn from(bits: u64) -> (r: ConfigA) {
        ConfigA(bits)
    }
}

impl vstd::std_specs::convert::FromSpecImpl<u64> for ConfigA {
    open spec fn obeys_from_spec() -> bool {
        true
    }

    open spec fn from_spec(bits: u64) -> ConfigA {
        ConfigA::from_bits_spec(bits)
    }
}

impl From<ConfigA> for u64 {
    fn from(reg: ConfigA) -> (r: u64) {
        reg.0
    }
}

impl vstd::std_specs::convert::FromSpecImpl<ConfigA> for u64 {
    open spec fn obeys_from_spec() -> bool {
        true
    }

    open spec fn from_spec(reg: ConfigA) -> u64 {
        reg@
    }
}

impl ConfigA {
    /// The layout holding `bits`, as a value in specifications.
    pub closed spec fn from_bits_spec(bits: u64) -> ConfigA {
        ConfigA(bits)
    }

    /// A layout is its bits.
    pub proof fn lemma_from_bits_spec(bits: u64)
        ensures
            #[trigger] ConfigA::from_bits_spec(bits)@ == bits,
    {
    }
}

impl AdbmsReadableRegister for ConfigA {
    open spec fn spec_read_cmd() -> (u8, u8) {
        (0x00u8, 0x02u8)
    }

    fn read_cmd() -> (r: [u8; 2]) {
        [0x00, 0x02]
    }

    fn from_raw(bits: u64) -> (r: ConfigA) {
        ConfigA(bits)
    }
}

impl AdbmsWritableRegister for ConfigA {
    open spec fn spec_write_cmd() -> (u8, u8) {
        (0x00u8, 0x01u8)
    }

    fn write_cmd() -> (r: [u8; 2]) {
        [0x00, 0x01]
    }

    fn into_raw(self) -> (r: u64) {
        self.0
    }
}


/// Configuration Register Group B.
#[derive(Clone, Copy, Debug, PartialEq, Eq)]
pub struct ConfigB(u64);

impl View for ConfigB {
    type V = u64;

    /// The raw bits of the layout.
    closed spec fn view(&self) -> u64 {
        self.0
    }
}

impl ConfigB {
    /// The layout with every field at its default.
    pub fn new() -> (r: ConfigB)
        ensures
            r@ == 0x7ff800u64,
    {
        ConfigB(0x7ff800)
    }

    /// Wraps raw bits.
    pub fn from_bits(bits: u64) -> (r: ConfigB)
        ensures
            r@ == bits,
    {
        ConfigB(bits)
    }

    /// The raw bits.
    pub fn into_bits(self) -> (r: u64)
        ensures
            r == self@,
    {
        self.0
    }

    /// Cell undervoltage comparison voltage.
    pub fn vuv(&self) -> (r: Threshold)
        ensures
            r == Threshold(get_bits(self@, 0, 0xfff) as u16),
    {
        let v = field(self.0, 0, 0xfff);
        Threshold::from_bits(v as u16)
    }

    /// This layout with the `vuv` field replaced.
    pub fn with_vuv(self, v: Threshold) -> (r: ConfigB)
        ensures
            r@ == set_bits(self@, 0, 0xfff, v.spec_into_bits() as u64),
    {
        ConfigB(put(self.0, 0, 0xfff, v.into_bits() as u64))
    }

    /// Cell overvoltage comparison voltage.
    pub fn vov(&self) -> (r: Threshold)
        ensures
            r == Threshold(get_bits(self@, 12, 0xfff) as u16),
    {
        let v = field(self.0, 12, 0xfff);
        Threshold::from_bits(v as u16)
    }

    /// This layout with the `vov` field replaced.
    pub fn with_vov(self, v: Threshold) -> (r: ConfigB)
        ensures
            r@ == set_bits(self@, 12, 0xfff, v.spec_into_bits() as u64),
    {
        ConfigB(put(self.0, 12, 0xfff, v.into_bits() as u64))
    }

    /// Discharge timeout value. Units depend on `dtrng`: 1-minute steps
    /// when low, 16-minute steps when high. `0` = timeout / not set.
    pub fn dcto(&self) -> (r: u8)
        ensures
            r == get_bits(self@, 24, 0x3f) as u8,
    {
        let v = field(self.0, 24, 0x3f);
        v as u8
    }

    /// This layout with the `dcto` field replaced.
    pub fn with_dcto(self, v: u8) -> (r: ConfigB)
        ensures
            r@ == set_bits(self@, 24, 0x3f, v as u64),
    {
        ConfigB(put(self.0, 24, 0x3f, v as u64))
    }

    /// Discharge timer range: `false` = 0–63 min in 1 min steps,
    /// `true` = 0–16.8 h in 16 min steps.
    pub fn dtrng(&self) -> (r: bool)
        ensures
            r == (get_bits(self@, 30, 0x1) == 1),
    {
        let v = field(self.0, 30, 0x1);
        v == 1
    }

    /// This layout with the `dtrng` field replaced.
    pub fn with_dtrng(self, v: bool) -> (r: ConfigB)
        ensures
            r@ == set_bits(self@, 30, 0x1, (if v { 1u64 } else { 0u64 })),
    {
        ConfigB(put(self.0, 30, 0x1, if v { 1 } else { 0 }))
    }

    /// Enable discharge timer monitor (extended balancing state).
    pub fn dtmen(&self) -> (r: bool)
        ensures
            r == (get_bits(self@, 31, 0x1) == 1),
    {
        let v = field(self.0, 31, 0x1);
        v == 1
    }

    /// This layout with the `dtmen` field replaced.
    pub fn with_dtmen(self, v: bool) -> (r: ConfigB)
        ensures
            r@ == set_bits(self@, 31, 0x1, (if v { 1u64 } else { 0u64 })),
    {
        ConfigB(put(self.0, 31, 0x1, if v { 1 } else { 0 }))
    }

    /// Per-cell discharge enable mask. Bit `n` = cell `n+1` discharge on.
    pub fn dcc(&self) -> (r: u16)
        ensures
            r == get_bits(self@, 32, 0xffff) as u16,
    {
        let v = field(self.0, 32, 0xffff);
        v as u16
    }

    /// This layout with the `dcc` field replaced.
    pub fn with_dcc(self, v: u16) -> (r: ConfigB)
        ensures
            r@ == set_bits(self@, 32, 0xffff, v as u64),
    {
        ConfigB(put(self.0, 32, 0xffff, v as u64))
    }
}

impl From<u64> for ConfigB {
    fn from(bits: u64) -> (r: ConfigB) {
        ConfigB(bits)
    }
}

impl vstd::std_specs::convert::FromSpecImpl<u64> for ConfigB {
    open spec fn obeys_from_spec() -> bool {
        true
    }

    open spec fn from_spec(bits: u64) -> ConfigB {
        ConfigB::from_bits_spec(bits)
    }
}

impl From<ConfigB> for u64 {
    fn from(reg: ConfigB) -> (r: u64) {
        reg.0
    }
}

impl vstd::std_specs::convert::FromSpecImpl<ConfigB> for u64 {
    open spec fn obeys_from_spec() -> bool {
        true
    }

    open spec fn from_spec(reg: ConfigB) -> u64 {
        reg@
    }
}

impl ConfigB {
    /// The layout holding `bits`, as a value in specifications.
    pub closed spec fn from_bits_spec(bits: u64) -> ConfigB {
        ConfigB(bits)
    }

    /// A layout is its bits.
    pub proof fn lemma_from_bits_spec(bits: u64)
        ensures
            #[trigger] ConfigB::from_bits_spec(bits)@ == bits,
    {
    }
}

impl AdbmsReadableRegister for ConfigB {
    open spec fn spec_read_cmd() -> (u8, u8) {
        (0x00u8, 0x26u8)
    }

    fn read_cmd() -> (r: [u8; 2]) {
        [0x00, 0x26]
    }

    fn from_raw(bits: u64) -> (r: ConfigB) {
        ConfigB(bits)
    }
}

impl AdbmsWritableRegister for ConfigB {
    open spec fn spec_write_cmd() -> (u8, u8) {
        (0x00u8, 0x24u8)
    }

    fn write_cmd() -> (r: [u8; 2]) {
        [0x00, 0x24]
    }

    fn into_raw(self) -> (r: u64) {
        self.0
    }
}


/// C-ADC vs S-ADC comparison voltage threshold; `Mv8_1` (8.1 mV) by default (datasheet Table 102).
#[derive(Clone, Copy, Debug, PartialEq, Eq, Structural)]
pub enum CompThreshold {
    Mv5_1,
    Mv8_1,
    Mv9_0,
    Mv10_05,
    Mv15_0,
    Mv19_95,
    Mv25_05,
    Mv40_05,
}

impl View for CompThreshold {
    type V = u8;

    /// The raw field value of this code.
    open spec fn view(&self) -> u8 {
        match self {
            CompThreshold::Mv5_1 => 0u8,
            CompThreshold::Mv8_1 => 1u8,
            CompThreshold::Mv9_0 => 2u8,
            CompThreshold::Mv10_05 => 3u8,
            CompThreshold::Mv15_0 => 4u8,
            CompThreshold::Mv19_95 => 5u8,
            CompThreshold::Mv25_05 => 6u8,
            CompThreshold::Mv40_05 => 7u8,
        }
    }
}

impl CompThreshold {
    /// Every variant stands for the field value the datasheet gives it.
    pub proof fn lemma_codes()
        ensures
            CompThreshold::Mv5_1@ == 0u8,
            CompThreshold::Mv8_1@ == 1u8,
            CompThreshold::Mv9_0@ == 2u8,
            CompThreshold::Mv10_05@ == 3u8,
            CompThreshold::Mv15_0@ == 4u8,
            CompThreshold::Mv19_95@ == 5u8,
            CompThreshold::Mv25_05@ == 6u8,
            CompThreshold::Mv40_05@ == 7u8,
    {
    }
}

impl CompThreshold {
    /// The code a raw field value decodes to; values with no code of their own decode to `Mv40_05`.
    pub open spec fn spec_from_bits(bits: u8) -> CompThreshold {
        if bits == 0 {
            CompThreshold::Mv5_1
        } else if bits == 1 {
            CompThreshold::Mv8_1
        } else if bits == 2 {
            CompThreshold::Mv9_0
        } else if bits == 3 {
            CompThreshold::Mv10_05
        } else if bits == 4 {
            CompThreshold::Mv15_0
        } else if bits == 5 {
            CompThreshold::Mv19_95
        } else if bits == 6 {
            CompThreshold::Mv25_05
        } else {
            CompThreshold::Mv40_05
        }
    }

    /// Decodes a raw field value (every value from 7 up decodes to the last code).
    pub fn from_bits(bits: u8) -> (r: CompThreshold)
        ensures
            r == CompThreshold::spec_from_bits(bits),
    {
        let v = bits;
        if v == 0 {
            CompThreshold::Mv5_1
        } else if v == 1 {
            CompThreshold::Mv8_1
        } else if v == 2 {
            CompThreshold::Mv9_0
        } else if v == 3 {
            CompThreshold::Mv10_05
        } else if v == 4 {
            CompThreshold::Mv15_0
        } else if v == 5 {
            CompThreshold::Mv19_95
        } else if v == 6 {
            CompThreshold::Mv25_05
        } else {
            CompThreshold::Mv40_05
        }
    }

    /// The raw field value of this code.
    pub fn into_bits(self) -> (r: u8)
        ensures
            r == self@,
            r <= 7,
    {
        match self {
            CompThreshold::Mv5_1 => 0,
            CompThreshold::Mv8_1 => 1,
            CompThreshold::Mv9_0 => 2,
            CompThreshold::Mv10_05 => 3,
            CompThreshold::Mv15_0 => 4,
            CompThreshold::Mv19_95 => 5,
            CompThreshold::Mv25_05 => 6,
            CompThreshold::Mv40_05 => 7,
        }
    }

    /// Decoding the raw value of a code gives the code back.
    pub proof fn lemma_roundtrip(self)
        ensures
            CompThreshold::spec_from_bits(self@) == self,
    {
    }
}


/// IIR filter parameter `a` of Config A, with its -3 dB corner at the 1 kHz C-ADC rate (datasheet Table 21).
#[derive(Clone, Copy, Debug, PartialEq, Eq, Structural)]
pub enum IirCorner {
    /// Filter disabled.
    Disabled,
    /// a = 2, corner about 110 Hz.
    Fpa2,
    /// a = 4, corner about 45 Hz.
    Fpa4,
    /// a = 8, corner about 21 Hz.
    Fpa8,
    /// a = 16, corner about 10 Hz.
    Fpa16,
    /// a = 32, corner about 5 Hz.
    Fpa32,
    /// a = 128, corner about 1.25 Hz.
    Fpa128,
    /// a = 256, corner about 0.625 Hz.
    Fpa256,
}

impl View for IirCorner {
    type V = u8;

    /// The raw field value of this code.
    open spec fn view(&self) -> u8 {
        match self {
            IirCorner::Disabled => 0u8,
            IirCorner::Fpa2 => 1u8,
            IirCorner::Fpa4 => 2u8,
            IirCorner::Fpa8 => 3u8,
            IirCorner::Fpa16 => 4u8,
            IirCorner::Fpa32 => 5u8,
            IirCorner::Fpa128 => 6u8,
            IirCorner::Fpa256 => 7u8,
        }
    }
}

impl IirCorner {
    /// Every variant stands for the field value the datasheet gives it.
    pub proof fn lemma_codes()
        ensures
            IirCorner::Disabled@ == 0u8,
            IirCorner::Fpa2@ == 1u8,
            IirCorner::Fpa4@ == 2u8,
            IirCorner::Fpa8@ == 3u8,
            IirCorner::Fpa16@ == 4u8,
            IirCorner::Fpa32@ == 5u8,
            IirCorner::Fpa128@ == 6u8,
            IirCorner::Fpa256@ == 7u8,
    {
    }
}

impl IirCorner {
    /// The code a raw field value decodes to; values with no code of their own decode to `Fpa256`.
    pub open spec fn spec_from_bits(bits: u8) -> IirCorner {
        if bits == 0 {
            IirCorner::Disabled
        } else if bits == 1 {
            IirCorner::Fpa2
        } else if bits == 2 {
            IirCorner::Fpa4
        } else if bits == 3 {
            IirCorner::Fpa8
        } else if bits == 4 {
            IirCorner::Fpa16
        } else if bits == 5 {
            IirCorner::Fpa32
        } else if bits == 6 {
            IirCorner::Fpa128
        } else {
            IirCorner::Fpa256
        }
    }

    /// Decodes a raw field value (every value from 7 up decodes to the last code).
    pub fn from_bits(bits: u8) -> (r: IirCorner)
        ensures
            r == IirCorner::spec_from_bits(bits),
    {
        let v = bits;
        if v == 0 {
            IirCorner::Disabled
        } else if v == 1 {
            IirCorner::Fpa2
        } else if v == 2 {
            IirCorner::Fpa4
        } else if v == 3 {
            IirCorner::Fpa8
        } else if v == 4 {
            IirCorner::Fpa16
        } else if v == 5 {
            IirCorner::Fpa32
        } else if v == 6 {
            IirCorner::Fpa128
        } else {
            IirCorner::Fpa256
        }
    }

    /// The raw field value of this code.
    pub fn into_bits(self) -> (r: u8)
        ensures
            r == self@,
            r <= 7,
    {
        match self {
            IirCorner::Disabled => 0,
            IirCorner::Fpa2 => 1,
            IirCorner::Fpa4 => 2,
            IirCorner::Fpa8 => 3,
            IirCorner::Fpa16 => 4,
            IirCorner::Fpa32 => 5,
            IirCorner::Fpa128 => 6,
            IirCorner::Fpa256 => 7,
        }
    }

    /// Decoding the raw value of a code gives the code back.
    pub proof fn lemma_roundtrip(self)
        ensures
            IirCorner::spec_from_bits(self@) == self,
    {
    }
}


impl Default for CompThreshold {
    fn default() -> (r: CompThreshold)
        ensures
            r == CompThreshold::Mv8_1,
    {
        CompThreshold::Mv8_1
    }
}


} // verus!
