//! Status register groups (`RDSTATx`, all read-only).

use vstd::prelude::*;

use crate::bits::{field, get_bits, put, set_bits};
use crate::adbms6830::registers::{AdbmsCommand, AdbmsReadableRegister};
use super::{AdbmsCellVoltage, DieTemp};

verus! {

/// Gathering one bit into bit `i` of a word keeps the bits below it and is all there is above it.
proof fn lemma_gather_bit(out: u16, b: u16, i: u16)
    by (bit_vector)
    requires
        i < 16,
        b <= 1,
        (out as u32) < (1u32 << (i as u32)),
    ensures
        forall|j: u16| j < i ==> #[trigger] (((out | (b << i)) >> j) & 1) == ((out >> j) & 1),
        ((out | (b << i)) >> i) & 1 == b,
        ((out | (b << i)) as u32) < (1u32 << ((i + 1) as u32)),
{
}

/// Bits `2 * i + offset` of `p`, for `i` from 0 to 15, gathered into bit `i`.
fn deinterleave(p: u32, offset: u32) -> (r: u16)
    requires
        offset <= 1,
    ensures
        forall|i: u32| i < 16 ==> ((r >> i) & 1) as u32 == #[trigger] ((p >> (2 * i + offset)) & 1),
{
    let mut out: u16 = 0;
    let mut i: u32 = 0;
    assert((0u16 as u32) < (1u32 << 0u32)) by (bit_vector);
    while i < 16
        invariant
            i <= 16,
            offset <= 1,
            (out as u32) < (1u32 << i),
            forall|j: u32| j < i ==> ((out >> j) & 1) as u32 == #[trigger] ((p >> (2 * j + offset)) & 1),
        decreases 16 - i,
    {
        let b: u16 = ((p >> (2 * i + offset)) & 1) as u16;
        assert(((p >> (2 * i + offset)) & 1) <= 1) by (bit_vector);
        proof {
            lemma_gather_bit(out, b, i as u16);
        }
        let next = out | (b << (i as u16));
        assert forall|j: u32| j < i + 1 implies ((next >> j) & 1) as u32 == #[trigger] ((p >> (2 * j
            + offset)) & 1) by {
            if j < i {
                assert(((next >> (j as u16)) & 1) == ((out >> (j as u16)) & 1));
            }
        }
        out = next;
        i = i + 1;
    }
    out
}

/// Clears the latched flags of the status registers (CLRFLAG).
#[derive(Clone, Copy, Debug)]
pub struct ClrFlag {}

impl AdbmsCommand for ClrFlag {
    open spec fn spec_command(&self) -> u16 {
        0b11100010111u16
    }

    fn get_command(&self) -> (r: u16) {
        0b11100010111
    }
}


/// Clears the over- and undervoltage flags (CLOVUV).
#[derive(Clone, Copy, Debug)]
pub struct ClOvUv {}

impl AdbmsCommand for ClOvUv {
    open spec fn spec_command(&self) -> u16 {
        0b11100010101u16
    }

    fn get_command(&self) -> (r: u16) {
        0b11100010101
    }
}


/// Status Register Group A.
#[derive(Clone, Copy, Debug, PartialEq, Eq)]
pub struct StatusA(u64);

impl View for StatusA {
    type V = u64;

    /// The raw bits of the layout.
    closed spec fn view(&self) -> u64 {
        self.0
    }
}

impl StatusA {
    /// The layout with every field at its default.
    pub fn new() -> (r: StatusA)
        ensures
            r@ == 0x0u64,
    {
        StatusA(0x0)
    }

    /// Wraps raw bits.
    pub fn from_bits(bits: u64) -> (r: StatusA)
        ensures
            r@ == bits,
    {
        StatusA(bits)
    }

    /// The raw bits.
    pub fn into_bits(self) -> (r: u64)
        ensures
            r == self@,
    {
        self.0
    }

    /// Secondary reference voltage (Cell scaling).
    pub fn vref2(&self) -> (r: AdbmsCellVoltage)
        ensures
            r == AdbmsCellVoltage(get_bits(self@, 0, 0xffff) as u16),
    {
        let v = field(self.0, 0, 0xffff);
        AdbmsCellVoltage::from_bits(v as u16)
    }

    /// This layout with the `vref2` field replaced.
    pub fn with_vref2(self, v: AdbmsCellVoltage) -> (r: StatusA)
        ensures
            r@ == set_bits(self@, 0, 0xffff, v.spec_into_bits() as u64),
    {
        StatusA(put(self.0, 0, 0xffff, v.into_bits() as u64))
    }

    /// Internal die temperature.
    pub fn itmp(&self) -> (r: DieTemp)
        ensures
            r == DieTemp(get_bits(self@, 16, 0xffff) as u16),
    {
        let v = field(self.0, 16, 0xffff);
        DieTemp::from_bits(v as u16)
    }

    /// This layout with the `itmp` field replaced.
    pub fn with_itmp(self, v: DieTemp) -> (r: StatusA)
        ensures
            r@ == set_bits(self@, 16, 0xffff, v.spec_into_bits() as u64),
    {
        StatusA(put(self.0, 16, 0xffff, v.into_bits() as u64))
    }

    /// Third reference voltage (Cell scaling). UNDOCUMENTED
    pub fn vref3(&self) -> (r: AdbmsCellVoltage)
        ensures
            r == AdbmsCellVoltage(get_bits(self@, 32, 0xffff) as u16),
    {
        let v = field(self.0, 32, 0xffff);
        AdbmsCellVoltage::from_bits(v as u16)
    }

    /// This layout with the `vref3` field replaced.
    pub fn with_vref3(self, v: AdbmsCellVoltage) -> (r: StatusA)
        ensures
            r@ == set_bits(self@, 32, 0xffff, v.spec_into_bits() as u64),
    {
        StatusA(put(self.0, 32, 0xffff, v.into_bits() as u64))
    }
}

impl From<u64> for StatusA {
    fn from(bits: u64) -> (r: StatusA) {
        StatusA(bits)
    }
}

impl vstd::std_specs::convert::FromSpecImpl<u64> for StatusA {
    open spec fn obeys_from_spec() -> bool {
        true
    }

    open spec fn from_spec(bits: u64) -> StatusA {
        StatusA::from_bits_spec(bits)
    }
}

impl From<StatusA> for u64 {
    fn from(reg: StatusA) -> (r: u64) {
        reg.0
    }
}

impl vstd::std_specs::convert::FromSpecImpl<StatusA> for u64 {
    open spec fn obeys_from_spec() -> bool {
        true
    }

    open spec fn from_spec(reg: StatusA) -> u64 {
        reg@
    }
}

impl StatusA {
    /// The layout holding `bits`, as a value in specifications.
    pub closed spec fn from_bits_spec(bits: u64) -> StatusA {
        StatusA(bits)
    }

    /// A layout is its bits.
    pub proof fn lemma_from_bits_spec(bits: u64)
        ensures
            #[trigger] StatusA::from_bits_spec(bits)@ == bits,
    {
    }
}

impl AdbmsReadableRegister for StatusA {
    open spec fn spec_read_cmd() -> (u8, u8) {
        (0x00u8, 0x30u8)
    }

    fn read_cmd() -> (r: [u8; 2]) {
        [0x00, 0x30]
    }

    fn from_raw(bits: u64) -> (r: StatusA) {
        StatusA(bits)
    }
}


/// Status Register Group B.
#[derive(Clone, Copy, Debug, PartialEq, Eq)]
pub struct StatusB(u64);

impl View for StatusB {
    type V = u64;

    /// The raw bits of the layout.
    closed spec fn view(&self) -> u64 {
        self.0
    }
}

impl StatusB {
    /// The layout with every field at its default.
    pub fn new() -> (r: StatusB)
        ensures
            r@ == 0x0u64,
    {
        StatusB(0x0)
    }

    /// Wraps raw bits.
    pub fn from_bits(bits: u64) -> (r: StatusB)
        ensures
            r@ == bits,
    {
        StatusB(bits)
    }

    /// The raw bits.
    pub fn into_bits(self) -> (r: u64)
        ensures
            r == self@,
    {
        self.0
    }

    /// Digital supply voltage (typically 2.7–3.6 V).
    pub fn vd(&self) -> (r: AdbmsCellVoltage)
        ensures
            r == AdbmsCellVoltage(get_bits(self@, 0, 0xffff) as u16),
    {
        let v = field(self.0, 0, 0xffff);
        AdbmsCellVoltage::from_bits(v as u16)
    }

    /// This layout with the `vd` field replaced.
    pub fn with_vd(self, v: AdbmsCellVoltage) -> (r: StatusB)
        ensures
            r@ == set_bits(self@, 0, 0xffff, v.spec_into_bits() as u64),
    {
        StatusB(put(self.0, 0, 0xffff, v.into_bits() as u64))
    }

    /// Analog supply voltage (typically 4.5–5.5 V).
    pub fn va(&self) -> (r: AdbmsCellVoltage)
        ensures
            r == AdbmsCellVoltage(get_bits(self@, 16, 0xffff) as u16),
    {
        let v = field(self.0, 16, 0xffff);
        AdbmsCellVoltage::from_bits(v as u16)
    }

    /// This layout with the `va` field replaced.
    pub fn with_va(self, v: AdbmsCellVoltage) -> (r: StatusB)
        ensures
            r@ == set_bits(self@, 16, 0xffff, v.spec_into_bits() as u64),
    {
        StatusB(put(self.0, 16, 0xffff, v.into_bits() as u64))
    }

    /// VREF2 across the open-wire check series resistor.
    pub fn vres(&self) -> (r: AdbmsCellVoltage)
        ensures
            r == AdbmsCellVoltage(get_bits(self@, 32, 0xffff) as u16),
    {
        let v = field(self.0, 32, 0xffff);
        AdbmsCellVoltage::from_bits(v as u16)
    }

    /// This layout with the `vres` field replaced.
    pub fn with_vres(self, v: AdbmsCellVoltage) -> (r: StatusB)
        ensures
            r@ == set_bits(self@, 32, 0xffff, v.spec_into_bits() as u64),
    {
        StatusB(put(self.0, 32, 0xffff, v.into_bits() as u64))
    }
}

impl From<u64> for StatusB {
    fn from(bits: u64) -> (r: StatusB) {
        StatusB(bits)
    }
}

impl vstd::std_specs::convert::FromSpecImpl<u64> for StatusB {
    open spec fn obeys_from_spec() -> bool {
        true
    }

    open spec fn from_spec(bits: u64) -> StatusB {
        StatusB::from_bits_spec(bits)
    }
}

impl From<StatusB> for u64 {
    fn from(reg: StatusB) -> (r: u64) {
        reg.0
    }
}

impl vstd::std_specs::convert::FromSpecImpl<StatusB> for u64 {
    open spec fn obeys_from_spec() -> bool {
        true
    }

    open spec fn from_spec(reg: StatusB) -> u64 {
        reg@
    }
}

impl StatusB {
    /// The layout holding `bits`, as a value in specifications.
    pub closed spec fn from_bits_spec(bits: u64) -> StatusB {
        StatusB(bits)
    }

    /// A layout is its bits.
    pub proof fn lemma_from_bits_spec(bits: u64)
        ensures
            #[trigger] StatusB::from_bits_spec(bits)@ == bits,
    {
    }
}

impl AdbmsReadableRegister for StatusB {
    open spec fn spec_read_cmd() -> (u8, u8) {
        (0x00u8, 0x31u8)
    }

    fn read_cmd() -> (r: [u8; 2]) {
        [0x00, 0x31]
    }

    fn from_raw(bits: u64) -> (r: StatusB) {
        StatusB(bits)
    }
}


/// Status Register Group C (`RDSTATC`).
#[derive(Clone, Copy, Debug, PartialEq, Eq)]
pub struct StatusC(u64);

impl View for StatusC {
    type V = u64;

    /// The raw bits of the layout.
    closed spec fn view(&self) -> u64 {
        self.0
    }
}

impl StatusC {
    /// The layout with every field at its default.
    pub fn new() -> (r: StatusC)
        ensures
            r@ == 0x0u64,
    {
        StatusC(0x0)
    }

    /// Wraps raw bits.
    pub fn from_bits(bits: u64) -> (r: StatusC)
        ensures
            r@ == bits,
    {
        StatusC(bits)
    }

    /// The raw bits.
    pub fn into_bits(self) -> (r: u64)
        ensures
            r == self@,
    {
        self.0
    }

    /// C-ADC vs S-ADC mismatch flags, one bit per channel. Bit `n` is
    /// set when channel `n+1` had a mismatch.
    pub fn cs_flt(&self) -> (r: u16)
        ensures
            r == get_bits(self@, 0, 0xffff) as u16,
    {
        let v = field(self.0, 0, 0xffff);
        v as u16
    }

    /// This layout with the `cs_flt` field replaced.
    pub fn with_cs_flt(self, v: u16) -> (r: StatusC)
        ensures
            r@ == set_bits(self@, 0, 0xffff, v as u64),
    {
        StatusC(put(self.0, 0, 0xffff, v as u64))
    }

    /// The `counter_raw` field.
    pub fn counter_raw(&self) -> (r: u16)
        ensures
            r == get_bits(self@, 16, 0xffff) as u16,
    {
        let v = field(self.0, 16, 0xffff);
        v as u16
    }

    /// This layout with the `counter_raw` field replaced.
    pub fn with_counter_raw(self, v: u16) -> (r: StatusC)
        ensures
            r@ == set_bits(self@, 16, 0xffff, v as u64),
    {
        StatusC(put(self.0, 16, 0xffff, v as u64))
    }

    /// The `smed` field.
    pub fn smed(&self) -> (r: bool)
        ensures
            r == (get_bits(self@, 32, 0x1) == 1),
    {
        let v = field(self.0, 32, 0x1);
        v == 1
    }

    /// This layout with the `smed` field replaced.
    pub fn with_smed(self, v: bool) -> (r: StatusC)
        ensures
            r@ == set_bits(self@, 32, 0x1, (if v { 1u64 } else { 0u64 })),
    {
        StatusC(put(self.0, 32, 0x1, if v { 1 } else { 0 }))
    }

    /// The `sed` field.
    pub fn sed(&self) -> (r: bool)
        ensures
            r == (get_bits(self@, 33, 0x1) == 1),
    {
        let v = field(self.0, 33, 0x1);
        v == 1
    }

    /// This layout with the `sed` field replaced.
    pub fn with_sed(self, v: bool) -> (r: StatusC)
        ensures
            r@ == set_bits(self@, 33, 0x1, (if v { 1u64 } else { 0u64 })),
    {
        StatusC(put(self.0, 33, 0x1, if v { 1 } else { 0 }))
    }

    /// The `cmed` field.
    pub fn cmed(&self) -> (r: bool)
        ensures
            r == (get_bits(self@, 34, 0x1) == 1),
    {
        let v = field(self.0, 34, 0x1);
        v == 1
    }

    /// This layout with the `cmed` field replaced.
    pub fn with_cmed(self, v: bool) -> (r: StatusC)
        ensures
            r@ == set_bits(self@, 34, 0x1, (if v { 1u64 } else { 0u64 })),
    {
        StatusC(put(self.0, 34, 0x1, if v { 1 } else { 0 }))
    }

    /// The `ced` field.
    pub fn ced(&self) -> (r: bool)
        ensures
            r == (get_bits(self@, 35, 0x1) == 1),
    {
        let v = field(self.0, 35, 0x1);
        v == 1
    }

    /// This layout with the `ced` field replaced.
    pub fn with_ced(self, v: bool) -> (r: StatusC)
        ensures
            r@ == set_bits(self@, 35, 0x1, (if v { 1u64 } else { 0u64 })),
    {
        StatusC(put(self.0, 35, 0x1, if v { 1 } else { 0 }))
    }

    /// The `vd_uv` field.
    pub fn vd_uv(&self) -> (r: bool)
        ensures
            r == (get_bits(self@, 36, 0x1) == 1),
    {
        let v = field(self.0, 36, 0x1);
        v == 1
    }

    /// This layout with the `vd_uv` field replaced.
    pub fn with_vd_uv(self, v: bool) -> (r: StatusC)
        ensures
            r@ == set_bits(self@, 36, 0x1, (if v { 1u64 } else { 0u64 })),
    {
        StatusC(put(self.0, 36, 0x1, if v { 1 } else { 0 }))
    }

    /// The `vd_ov` field.
    pub fn vd_ov(&self) -> (r: bool)
        ensures
            r == (get_bits(self@, 37, 0x1) == 1),
    {
        let v = field(self.0, 37, 0x1);
        v == 1
    }

    /// This layout with the `vd_ov` field replaced.
    pub fn with_vd_ov(self, v: bool) -> (r: StatusC)
        ensures
            r@ == set_bits(self@, 37, 0x1, (if v { 1u64 } else { 0u64 })),
    {
        StatusC(put(self.0, 37, 0x1, if v { 1 } else { 0 }))
    }

    /// The `va_uv` field.
    pub fn va_uv(&self) -> (r: bool)
        ensures
            r == (get_bits(self@, 38, 0x1) == 1),
    {
        let v = field(self.0, 38, 0x1);
        v == 1
    }

    /// This layout with the `va_uv` field replaced.
    pub fn with_va_uv(self, v: bool) -> (r: StatusC)
        ensures
            r@ == set_bits(self@, 38, 0x1, (if v { 1u64 } else { 0u64 })),
    {
        StatusC(put(self.0, 38, 0x1, if v { 1 } else { 0 }))
    }

    /// The `va_ov` field.
    pub fn va_ov(&self) -> (r: bool)
        ensures
            r == (get_bits(self@, 39, 0x1) == 1),
    {
        let v = field(self.0, 39, 0x1);
        v == 1
    }

    /// This layout with the `va_ov` field replaced.
    pub fn with_va_ov(self, v: bool) -> (r: StatusC)
        ensures
            r@ == set_bits(self@, 39, 0x1, (if v { 1u64 } else { 0u64 })),
    {
        StatusC(put(self.0, 39, 0x1, if v { 1 } else { 0 }))
    }

    /// The `oscchk` field.
    pub fn oscchk(&self) -> (r: bool)
        ensures
            r == (get_bits(self@, 40, 0x1) == 1),
    {
        let v = field(self.0, 40, 0x1);
        v == 1
    }

    /// This layout with the `oscchk` field replaced.
    pub fn with_oscchk(self, v: bool) -> (r: StatusC)
        ensures
            r@ == set_bits(self@, 40, 0x1, (if v { 1u64 } else { 0u64 })),
    {
        StatusC(put(self.0, 40, 0x1, if v { 1 } else { 0 }))
    }

    /// The `tmodchk` field.
    pub fn tmodchk(&self) -> (r: bool)
        ensures
            r == (get_bits(self@, 41, 0x1) == 1),
    {
        let v = field(self.0, 41, 0x1);
        v == 1
    }

    /// This layout with the `tmodchk` field replaced.
    pub fn with_tmodchk(self, v: bool) -> (r: StatusC)
        ensures
            r@ == set_bits(self@, 41, 0x1, (if v { 1u64 } else { 0u64 })),
    {
        StatusC(put(self.0, 41, 0x1, if v { 1 } else { 0 }))
    }

    /// The `thsd` field.
    pub fn thsd(&self) -> (r: bool)
        ensures
            r == (get_bits(self@, 42, 0x1) == 1),
    {
        let v = field(self.0, 42, 0x1);
        v == 1
    }

    /// This layout with the `thsd` field replaced.
    pub fn with_thsd(self, v: bool) -> (r: StatusC)
        ensures
            r@ == set_bits(self@, 42, 0x1, (if v { 1u64 } else { 0u64 })),
    {
        StatusC(put(self.0, 42, 0x1, if v { 1 } else { 0 }))
    }

    /// The `sleep` field.
    pub fn sleep(&self) -> (r: bool)
        ensures
            r == (get_bits(self@, 43, 0x1) == 1),
    {
        let v = field(self.0, 43, 0x1);
        v == 1
    }

    /// This layout with the `sleep` field replaced.
    pub fn with_sleep(self, v: bool) -> (r: StatusC)
        ensures
            r@ == set_bits(self@, 43, 0x1, (if v { 1u64 } else { 0u64 })),
    {
        StatusC(put(self.0, 43, 0x1, if v { 1 } else { 0 }))
    }

    /// The `spiflt` field.
    pub fn spiflt(&self) -> (r: bool)
        ensures
            r == (get_bits(self@, 44, 0x1) == 1),
    {
        let v = field(self.0, 44, 0x1);
        v == 1
    }

    /// This layout with the `spiflt` field replaced.
    pub fn with_spiflt(self, v: bool) -> (r: StatusC)
        ensures
            r@ == set_bits(self@, 44, 0x1, (if v { 1u64 } else { 0u64 })),
    {
        StatusC(put(self.0, 44, 0x1, if v { 1 } else { 0 }))
    }

    /// The `comp` field.
    pub fn comp(&self) -> (r: bool)
        ensures
            r == (get_bits(self@, 45, 0x1) == 1),
    {
        let v = field(self.0, 45, 0x1);
        v == 1
    }

    /// This layout with the `comp` field replaced.
    pub fn with_comp(self, v: bool) -> (r: StatusC)
        ensures
            r@ == set_bits(self@, 45, 0x1, (if v { 1u64 } else { 0u64 })),
    {
        StatusC(put(self.0, 45, 0x1, if v { 1 } else { 0 }))
    }

    /// The `vde` field.
    pub fn vde(&self) -> (r: bool)
        ensures
            r == (get_bits(self@, 46, 0x1) == 1),
    {
        let v = field(self.0, 46, 0x1);
        v == 1
    }

    /// This layout with the `vde` field replaced.
    pub fn with_vde(self, v: bool) -> (r: StatusC)
        ensures
            r@ == set_bits(self@, 46, 0x1, (if v { 1u64 } else { 0u64 })),
    {
        StatusC(put(self.0, 46, 0x1, if v { 1 } else { 0 }))
    }

    /// The `vdel` field.
    pub fn vdel(&self) -> (r: bool)
        ensures
            r == (get_bits(self@, 47, 0x1) == 1),
    {
        let v = field(self.0, 47, 0x1);
        v == 1
    }

    /// This layout with the `vdel` field replaced.
    pub fn with_vdel(self, v: bool) -> (r: StatusC)
        ensures
            r@ == set_bits(self@, 47, 0x1, (if v { 1u64 } else { 0u64 })),
    {
        StatusC(put(self.0, 47, 0x1, if v { 1 } else { 0 }))
    }

    /// The conversion counter `CT[10:0]`: `CT[10:6]` sit in the low five bits of the counter
    /// field and `CT[5:0]` in its top six.
    pub fn ct(&self) -> (r: u16)
        ensures
            r == (((get_bits(self@, 16, 0xffff) as u16) & 0x1F) << 6u16) | (((get_bits(self@, 16, 0xffff) as u16) >> 10u16) & 0x3F),
    {
        let raw = self.counter_raw();
        let ct_hi = raw & 0x001F;
        let ct_lo = (raw >> 10u16) & 0x003F;
        (ct_hi << 6u16) | ct_lo
    }

    /// The conversion sub-counter `CTS[1:0]`.
    pub fn cts(&self) -> (r: u8)
        ensures
            r == (((get_bits(self@, 16, 0xffff) as u16) >> 8u16) & 0x03) as u8,
    {
        ((self.counter_raw() >> 8u16) & 0x03) as u8
    }

    /// The conversion counter and sub-counter together, `CT` above `CTS`.
    pub fn ccts(&self) -> (r: u16)
        ensures
            r == (self.ct_spec() << 2u16) | (self.cts_spec() as u16),
    {
        let ct = self.ct();
        let cts = self.cts();
        (ct << 2u16) | (cts as u16)
    }

    /// The conversion counter, as a value in specifications.
    pub open spec fn ct_spec(&self) -> u16 {
        (((get_bits(self@, 16, 0xffff) as u16) & 0x1F) << 6u16) | (((get_bits(self@, 16, 0xffff) as u16) >> 10u16) & 0x3F)
    }

    /// The conversion sub-counter, as a value in specifications.
    pub open spec fn cts_spec(&self) -> u8 {
        (((get_bits(self@, 16, 0xffff) as u16) >> 8u16) & 0x03) as u8
    }
}

impl From<u64> for StatusC {
    fn from(bits: u64) -> (r: StatusC) {
        StatusC(bits)
    }
}

impl vstd::std_specs::convert::FromSpecImpl<u64> for StatusC {
    open spec fn obeys_from_spec() -> bool {
        true
    }

    open spec fn from_spec(bits: u64) -> StatusC {
        StatusC::from_bits_spec(bits)
    }
}

impl From<StatusC> for u64 {
    fn from(reg: StatusC) -> (r: u64) {
        reg.0
    }
}

impl vstd::std_specs::convert::FromSpecImpl<StatusC> for u64 {
    open spec fn obeys_from_spec() -> bool {
        true
    }

    open spec fn from_spec(reg: StatusC) -> u64 {
        reg@
    }
}

impl StatusC {
    /// The layout holding `bits`, as a value in specifications.
    pub closed spec fn from_bits_spec(bits: u64) -> StatusC {
        StatusC(bits)
    }

    /// A layout is its bits.
    pub proof fn lemma_from_bits_spec(bits: u64)
        ensures
            #[trigger] StatusC::from_bits_spec(bits)@ == bits,
    {
    }
}

impl AdbmsReadableRegister for StatusC {
    open spec fn spec_read_cmd() -> (u8, u8) {
        (0x00u8, 0x32u8)
    }

    fn read_cmd() -> (r: [u8; 2]) {
        [0x00, 0x32]
    }

    fn from_raw(bits: u64) -> (r: StatusC) {
        StatusC(bits)
    }
}


/// Status Register Group D.
#[derive(Clone, Copy, Debug, PartialEq, Eq)]
pub struct StatusD(u64);

impl View for StatusD {
    type V = u64;

    /// The raw bits of the layout.
    closed spec fn view(&self) -> u64 {
        self.0
    }
}

impl StatusD {
    /// The layout with every field at its default.
    pub fn new() -> (r: StatusD)
        ensures
            r@ == 0x0u64,
    {
        StatusD(0x0)
    }

    /// Wraps raw bits.
    pub fn from_bits(bits: u64) -> (r: StatusD)
        ensures
            r@ == bits,
    {
        StatusD(bits)
    }

    /// The raw bits.
    pub fn into_bits(self) -> (r: u64)
        ensures
            r == self@,
    {
        self.0
    }

    /// Raw 32-bit interleaved OV/UV flags. Bit `2(n-1)` = `CnUV`,
    /// bit `2(n-1)+1` = `CnOV` for cell `n` ∈ `1..=16`.
    pub fn ov_uv_packed(&self) -> (r: u32)
        ensures
            r == get_bits(self@, 0, 0xffffffff) as u32,
    {
        let v = field(self.0, 0, 0xffffffff);
        v as u32
    }

    /// This layout with the `ov_uv_packed` field replaced.
    pub fn with_ov_uv_packed(self, v: u32) -> (r: StatusD)
        ensures
            r@ == set_bits(self@, 0, 0xffffffff, v as u64),
    {
        StatusD(put(self.0, 0, 0xffffffff, v as u64))
    }

    /// Oscillator check counter (stores most recent or first failing
    /// count; passing range 52..=71).
    pub fn oc_cntr(&self) -> (r: u8)
        ensures
            r == get_bits(self@, 40, 0xff) as u8,
    {
        let v = field(self.0, 40, 0xff);
        v as u8
    }

    /// This layout with the `oc_cntr` field replaced.
    pub fn with_oc_cntr(self, v: u8) -> (r: StatusD)
        ensures
            r@ == set_bits(self@, 40, 0xff, v as u64),
    {
        StatusD(put(self.0, 40, 0xff, v as u64))
    }

    /// Whether cell `n` (1 to 16) is under voltage: bit `2 * (n - 1)` of the packed flags.
    pub fn cell_uv(&self, n: u8) -> (r: bool)
        requires
            1 <= n <= 16,
        ensures
            r == (((get_bits(self@, 0, 0xffffffff) as u32) >> (2 * (n - 1)) as u32) & 1 == 1),
    {
        let shift = 2 * (n - 1);
        (self.ov_uv_packed() >> (shift as u32)) & 1 == 1
    }

    /// Whether cell `n` (1 to 16) is over voltage: bit `2 * (n - 1) + 1` of the packed flags.
    pub fn cell_ov(&self, n: u8) -> (r: bool)
        requires
            1 <= n <= 16,
        ensures
            r == (((get_bits(self@, 0, 0xffffffff) as u32) >> (2 * (n - 1) + 1) as u32) & 1 == 1),
    {
        let shift = 2 * (n - 1) + 1;
        (self.ov_uv_packed() >> (shift as u32)) & 1 == 1
    }

    /// The undervoltage flags of the 16 cells, cell 1 in bit 0.
    pub fn uv_mask(&self) -> (r: u16)
        ensures
            forall|i: u32| i < 16 ==> ((r >> i) & 1) as u32 == #[trigger] ((
                (get_bits(self@, 0, 0xffffffff) as u32) >> (2 * i)) & 1),
    {
        let r = deinterleave(self.ov_uv_packed(), 0);
        assert forall|i: u32| i < 16 implies ((r >> i) & 1) as u32 == #[trigger] ((
            (get_bits(self@, 0, 0xffffffff) as u32) >> (2 * i)) & 1) by {
            assert(2 * i + 0 == 2 * i);
        }
        r
    }

    /// The overvoltage flags of the 16 cells, cell 1 in bit 0.
    pub fn ov_mask(&self) -> (r: u16)
        ensures
            forall|i: u32| i < 16 ==> ((r >> i) & 1) as u32 == #[trigger] ((
                (get_bits(self@, 0, 0xffffffff) as u32) >> (2 * i + 1)) & 1),
    {
        deinterleave(self.ov_uv_packed(), 1)
    }
}

impl From<u64> for StatusD {
    fn from(bits: u64) -> (r: StatusD) {
        StatusD(bits)
    }
}

impl vstd::std_specs::convert::FromSpecImpl<u64> for StatusD {
    open spec fn obeys_from_spec() -> bool {
        true
    }

    open spec fn from_spec(bits: u64) -> StatusD {
        StatusD::from_bits_spec(bits)
    }
}

impl From<StatusD> for u64 {
    fn from(reg: StatusD) -> (r: u64) {
        reg.0
    }
}

impl vstd::std_specs::convert::FromSpecImpl<StatusD> for u64 {
    open spec fn obeys_from_spec() -> bool {
        true
    }

    open spec fn from_spec(reg: StatusD) -> u64 {
        reg@
    }
}

impl StatusD {
    /// The layout holding `bits`, as a value in specifications.
    pub closed spec fn from_bits_spec(bits: u64) -> StatusD {
        StatusD(bits)
    }

    /// A layout is its bits.
    pub proof fn lemma_from_bits_spec(bits: u64)
        ensures
            #[trigger] StatusD::from_bits_spec(bits)@ == bits,
    {
    }
}

impl AdbmsReadableRegister for StatusD {
    open spec fn spec_read_cmd() -> (u8, u8) {
        (0x00u8, 0x33u8)
    }

    fn read_cmd() -> (r: [u8; 2]) {
        [0x00, 0x33]
    }

    fn from_raw(bits: u64) -> (r: StatusD) {
        StatusD(bits)
    }
}


/// Status Register Group E.
#[derive(Clone, Copy, Debug, PartialEq, Eq)]
pub struct StatusE(u64);

impl View for StatusE {
    type V = u64;

    /// The raw bits of the layout.
    closed spec fn view(&self) -> u64 {
        self.0
    }
}

impl StatusE {
    /// The layout with every field at its default.
    pub fn new() -> (r: StatusE)
        ensures
            r@ == 0x0u64,
    {
        StatusE(0x0)
    }

    /// Wraps raw bits.
    pub fn from_bits(bits: u64) -> (r: StatusE)
        ensures
            r@ == bits,
    {
        StatusE(bits)
    }

    /// The raw bits.
    pub fn into_bits(self) -> (r: u64)
        ensures
            r == self@,
    {
        self.0
    }

    /// GPIO input states `GPI[1:10]` as a 10-bit mask. Bit `n` = `GPI[n+1]`.
    pub fn gpi(&self) -> (r: u16)
        ensures
            r == get_bits(self@, 32, 0x3ff) as u16,
    {
        let v = field(self.0, 32, 0x3ff);
        v as u16
    }

    /// This layout with the `gpi` field replaced.
    pub fn with_gpi(self, v: u16) -> (r: StatusE)
        ensures
            r@ == set_bits(self@, 32, 0x3ff, v as u64),
    {
        StatusE(put(self.0, 32, 0x3ff, v as u64))
    }

    /// Silicon revision code.
    pub fn rev(&self) -> (r: u8)
        ensures
            r == get_bits(self@, 44, 0xf) as u8,
    {
        let v = field(self.0, 44, 0xf);
        v as u8
    }

    /// This layout with the `rev` field replaced.
    pub fn with_rev(self, v: u8) -> (r: StatusE)
        ensures
            r@ == set_bits(self@, 44, 0xf, v as u64),
    {
        StatusE(put(self.0, 44, 0xf, v as u64))
    }
}

impl From<u64> for StatusE {
    fn from(bits: u64) -> (r: StatusE) {
        StatusE(bits)
    }
}

impl vstd::std_specs::convert::FromSpecImpl<u64> for StatusE {
    open spec fn obeys_from_spec() -> bool {
        true
    }

    open spec fn from_spec(bits: u64) -> StatusE {
        StatusE::from_bits_spec(bits)
    }
}

impl From<StatusE> for u64 {
    fn from(reg: StatusE) -> (r: u64) {
        reg.0
    }
}

impl vstd::std_specs::convert::FromSpecImpl<StatusE> for u64 {
    open spec fn obeys_from_spec() -> bool {
        true
    }

    open spec fn from_spec(reg: StatusE) -> u64 {
        reg@
    }
}

impl StatusE {
    /// The layout holding `bits`, as a value in specifications.
    pub closed spec fn from_bits_spec(bits: u64) -> StatusE {
        StatusE(bits)
    }

    /// A layout is its bits.
    pub proof fn lemma_from_bits_spec(bits: u64)
        ensures
            #[trigger] StatusE::from_bits_spec(bits)@ == bits,
    {
    }
}

impl AdbmsReadableRegister for StatusE {
    open spec fn spec_read_cmd() -> (u8, u8) {
        (0x00u8, 0x34u8)
    }

    fn read_cmd() -> (r: [u8; 2]) {
        [0x00, 0x34]
    }

    fn from_raw(bits: u64) -> (r: StatusE) {
        StatusE(bits)
    }
}


} // verus!
