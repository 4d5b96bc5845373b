//! The two cyclic redundancy checks of the isoSPI protocol (the datasheet's
//! "PEC"): a 15-bit CRC guards every command, a 10-bit CRC guards every
//! six-byte data block.
//!
//! Both are defined here bit by bit, most significant bit of each byte first,
//! as a shift register over GF(2) with the datasheet's polynomials and seed.

use vstd::prelude::*;

verus! {

/// Seed of both CRC registers.
pub const CRC_SEED: u16 = 0x0010;

/// CRC-15 polynomial `x^15 + x^14 + x^10 + x^8 + x^7 + x^4 + x^3 + 1`, without its top term.
pub const CRC15_POLY: u16 = 0x4599;

/// CRC-10 polynomial `x^10 + x^7 + x^3 + x^2 + x + 1`, without its top term.
pub const CRC10_POLY: u16 = 0x008F;

/// One input bit shifted into the 15-bit register.
pub open spec fn crc15_step(rem: u16, bit: u16) -> u16 {
    if ((rem >> 14u16) ^ bit) & 1 == 1 {
        ((rem << 1u16) & 0x7FFF) ^ CRC15_POLY
    } else {
        (rem << 1u16) & 0x7FFF
    }
}

/// The register after the first `k` bits of `b`, most significant first.
pub open spec fn crc15_bits(rem: u16, b: u8, k: nat) -> u16
    decreases k,
{
    if k == 0 {
        rem
    } else {
        crc15_step(crc15_bits(rem, b, (k - 1) as nat), ((b as u16) >> (8 - k) as u16) & 1)
    }
}

/// The 15-bit register after the bytes `s`, starting from the seed.
pub open spec fn crc15_seq(s: Seq<u8>) -> u16
    decreases s.len(),
{
    if s.len() == 0 {
        CRC_SEED
    } else {
        crc15_bits(crc15_seq(s.drop_last()), s.last(), 8)
    }
}

/// The command PEC of `s` as sent on the wire: the CRC-15 shifted left by one.
pub open spec fn command_pec_of(s: Seq<u8>) -> u16 {
    crc15_seq(s) << 1u16
}

/// One bit shifted into the 10-bit register; the incoming bit is already in it.
pub open spec fn crc10_step(rem: u16) -> u16 {
    if rem & 0x200 != 0 {
        ((rem << 1u16) ^ CRC10_POLY) & 0x3FF
    } else {
        (rem << 1u16) & 0x3FF
    }
}

/// `k` shifts of the 10-bit register.
pub open spec fn crc10_shifts(rem: u16, k: nat) -> u16
    decreases k,
{
    if k == 0 {
        rem
    } else {
        crc10_step(crc10_shifts(rem, (k - 1) as nat))
    }
}

/// The 10-bit register after the bytes `s`, starting from the seed.
pub open spec fn crc10_seq(s: Seq<u8>) -> u16
    decreases s.len(),
{
    if s.len() == 0 {
        CRC_SEED
    } else {
        crc10_shifts(crc10_seq(s.drop_last()) ^ ((s.last() as u16) << 2u16), 8)
    }
}

/// The data PEC of `s` when the six-bit command counter `ccnt` rides along
/// (it is zero on writes): the counter's bits enter the register last.
pub open spec fn data_pec_of(s: Seq<u8>, ccnt: u8) -> u16 {
    crc10_shifts(crc10_seq(s) ^ (((ccnt & 0x3F) as u16) << 4u16), 6)
}

fn crc15_step_exec(rem: u16, bit: u16) -> (r: u16)
    ensures
        r == crc15_step(rem, bit),
{
    if ((rem >> 14u16) ^ bit) & 1 == 1 {
        ((rem << 1u16) & 0x7FFF) ^ CRC15_POLY
    } else {
        (rem << 1u16) & 0x7FFF
    }
}

fn crc15_byte(rem: u16, b: u8) -> (r: u16)
    ensures
        r == crc15_bits(rem, b, 8),
{
    let mut r = rem;
    let mut k: u16 = 0;
    while k < 8
        invariant
            k <= 8,
            r == crc15_bits(rem, b, k as nat),
        decreases 8 - k,
    {
        r = crc15_step_exec(r, ((b as u16) >> (7 - k)) & 1);
        k = k + 1;
    }
    r
}

/// The 15-bit CRC register after `data`.
pub fn crc15(data: &[u8]) -> (r: u16)
    ensures
        r == crc15_seq(data@),
{
    let mut rem: u16 = CRC_SEED;
    let mut i: usize = 0;
    while i < data.len()
        invariant
            i <= data.len(),
            rem == crc15_seq(data@.take(i as int)),
        decreases data.len() - i,
    {
        assert(data@.take(i + 1).drop_last() =~= data@.take(i as int));
        rem = crc15_byte(rem, data[i]);
        i = i + 1;
    }
    assert(data@.take(data.len() as int) =~= data@);
    rem
}

/// The command PEC of `data`, as two wire bytes fit it.
pub fn command_pec(data: &[u8]) -> (r: u16)
    ensures
        r == command_pec_of(data@),
{
    crc15(data) << 1u16
}

fn crc10_step_exec(rem: u16) -> (r: u16)
    ensures
        r == crc10_step(rem),
{
    if rem & 0x200 != 0 {
        ((rem << 1u16) ^ CRC10_POLY) & 0x3FF
    } else {
        (rem << 1u16) & 0x3FF
    }
}

fn crc10_shifts_exec(rem: u16, k: u16) -> (r: u16)
    ensures
        r == crc10_shifts(rem, k as nat),
{
    let mut r = rem;
    let mut j: u16 = 0;
    while j < k
        invariant
            j <= k,
            r == crc10_shifts(rem, j as nat),
        decreases k - j,
    {
        r = crc10_step_exec(r);
        j = j + 1;
    }
    r
}

/// The 10-bit CRC register after `data`.
pub fn crc10(data: &[u8]) -> (r: u16)
    ensures
        r == crc10_seq(data@),
{
    let mut rem: u16 = CRC_SEED;
    let mut i: usize = 0;
    while i < data.len()
        invariant
            i <= data.len(),
            rem == crc10_seq(data@.take(i as int)),
        decreases data.len() - i,
    {
        assert(data@.take(i + 1).drop_last() =~= data@.take(i as int));
        rem = crc10_shifts_exec(rem ^ ((data[i] as u16) << 2u16), 8);
        i = i + 1;
    }
    assert(data@.take(data.len() as int) =~= data@);
    rem
}

/// The data PEC of `data` with the command counter `ccnt` folded in.
pub fn data_pec(data: &[u8], ccnt: u8) -> (r: u16)
    ensures
        r == data_pec_of(data@, ccnt),
{
    crc10_shifts_exec(crc10(data) ^ (((ccnt & 0x3F) as u16) << 4u16), 6)
}

/// A 10-bit data PEC never exceeds ten bits.
pub proof fn lemma_data_pec_bound(s: Seq<u8>, ccnt: u8)
    ensures
        data_pec_of(s, ccnt) < 0x400,
{
    let x = crc10_shifts(crc10_seq(s) ^ (((ccnt & 0x3F) as u16) << 4u16), 5);
    assert(((x << 1u16) ^ CRC10_POLY) & 0x3FF < 0x400 && (x << 1u16) & 0x3FF < 0x400)
        by (bit_vector);
}

} // verus!
