//! Bit-field arithmetic shared by every register and command layout.
//!
//! Register groups are held in an integer whose low bits carry the wire
//! payload; a field is a run of `width` bits starting at bit `lo`, described
//! here by its right-aligned mask `m` (all ones, `width` bits wide).

use vstd::prelude::*;

verus! {

/// The value of the field `m` at bit `lo` of `bits`.
pub open spec fn get_bits(bits: u64, lo: u64, m: u64) -> u64 {
    (bits >> lo) & m
}

/// `bits` with the field `m` at bit `lo` replaced by the low bits of `v`.
pub open spec fn set_bits(bits: u64, lo: u64, m: u64, v: u64) -> u64 {
    (bits & !(m << lo)) | ((v & m) << lo)
}

/// The value of the field `m` at bit `lo` of a 16-bit word.
pub open spec fn get_bits16(bits: u16, lo: u16, m: u16) -> u16 {
    (bits >> lo) & m
}

/// A 16-bit word with the field `m` at bit `lo` replaced by the low bits of `v`.
pub open spec fn set_bits16(bits: u16, lo: u16, m: u16, v: u16) -> u16 {
    (bits & !(m << lo)) | ((v & m) << lo)
}

/// The value of the field `m` at bit `lo` of a byte.
pub open spec fn get_bits8(bits: u8, lo: u8, m: u8) -> u8 {
    (bits >> lo) & m
}

/// A byte with the field `m` at bit `lo` replaced by the low bits of `v`.
pub open spec fn set_bits8(bits: u8, lo: u8, m: u8, v: u8) -> u8 {
    (bits & !(m << lo)) | ((v & m) << lo)
}

/// Reads the field `m` at bit `lo` of a 16-bit word.
pub fn field16(bits: u16, lo: u16, m: u16) -> (r: u16)
    requires
        lo < 16,
    ensures
        r == get_bits16(bits, lo, m),
        r <= m,
{
    let r = (bits >> lo) & m;
    assert(((bits >> lo) & m) <= m) by (bit_vector);
    r
}

/// Replaces the field `m` at bit `lo` of a 16-bit word.
pub fn put16(bits: u16, lo: u16, m: u16, v: u16) -> (r: u16)
    requires
        lo < 16,
    ensures
        r == set_bits16(bits, lo, m, v),
{
    (bits & !(m << lo)) | ((v & m) << lo)
}

/// Reads the field `m` at bit `lo` of a byte.
pub fn field8(bits: u8, lo: u8, m: u8) -> (r: u8)
    requires
        lo < 8,
    ensures
        r == get_bits8(bits, lo, m),
        r <= m,
{
    let r = (bits >> lo) & m;
    assert(((bits >> lo) & m) <= m) by (bit_vector);
    r
}

/// Replaces the field `m` at bit `lo` of a byte.
pub fn put8(bits: u8, lo: u8, m: u8, v: u8) -> (r: u8)
    requires
        lo < 8,
    ensures
        r == set_bits8(bits, lo, m, v),
{
    (bits & !(m << lo)) | ((v & m) << lo)
}

/// Writing a twelve-bit value into the low twelve bits of a 16-bit word and
/// reading them back gives the value.
pub proof fn lemma_get_set_same16(bits: u16, v: u16)
    requires
        v <= 0xfff,
    ensures
        get_bits16(set_bits16(bits, 0, 0xfff, v), 0, 0xfff) == v,
{
    assert(((((bits & !(0xfffu16 << 0u16)) | ((v & 0xfff) << 0u16)) >> 0u16) & 0xfff) == v)
        by (bit_vector)
        requires
            v <= 0xfff,
    ;
}

/// Reads the field `m` at bit `lo`.
pub fn field(bits: u64, lo: u64, m: u64) -> (r: u64)
    requires
        lo < 64,
    ensures
        r == get_bits(bits, lo, m),
        r <= m,
{
    let r = (bits >> lo) & m;
    assert(((bits >> lo) & m) <= m) by (bit_vector);
    r
}

/// Replaces the field `m` at bit `lo`.
pub fn put(bits: u64, lo: u64, m: u64, v: u64) -> (r: u64)
    requires
        lo < 64,
    ensures
        r == set_bits(bits, lo, m, v),
{
    (bits & !(m << lo)) | ((v & m) << lo)
}

/// Writing a field and reading it back gives the written value, as far as
/// the field is wide enough to hold it.
pub proof fn lemma_get_set_same(bits: u64, lo: u64, m: u64, v: u64)
    requires
        lo < 64,
        m <= (0xFFFF_FFFF_FFFF_FFFFu64 >> lo),
    ensures
        get_bits(set_bits(bits, lo, m, v), lo, m) == v & m,
{
    assert(((((bits & !(m << lo)) | ((v & m) << lo)) >> lo) & m) == v & m) by (bit_vector)
        requires
            lo < 64,
            m <= (0xFFFF_FFFF_FFFF_FFFFu64 >> lo),
    ;
}

/// Reading a field through its in-place mask.
proof fn lemma_get_in_place(x: u64, lo: u64, m: u64)
    requires
        lo < 64,
        m <= (0xFFFF_FFFF_FFFF_FFFFu64 >> lo),
    ensures
        get_bits(x, lo, m) == (x & (m << lo)) >> lo,
{
    assert(((x >> lo) & m) == ((x & (m << lo)) >> lo)) by (bit_vector)
        requires
            lo < 64,
            m <= (0xFFFF_FFFF_FFFF_FFFFu64 >> lo),
    ;
}

/// Writing a field leaves every field that does not overlap it unchanged.
pub proof fn lemma_get_set_other(bits: u64, lo: u64, m: u64, v: u64, lo2: u64, m2: u64)
    requires
        lo < 64,
        lo2 < 64,
        m <= (0xFFFF_FFFF_FFFF_FFFFu64 >> lo),
        m2 <= (0xFFFF_FFFF_FFFF_FFFFu64 >> lo2),
        (m << lo) & (m2 << lo2) == 0,
    ensures
        get_bits(set_bits(bits, lo, m, v), lo2, m2) == get_bits(bits, lo2, m2),
{
    let big_m = m << lo;
    let big_m2 = m2 << lo2;
    let w = (v & m) << lo;
    assert(w & big_m == w) by (bit_vector)
        requires
            w == (v & m) << lo,
            big_m == m << lo,
    ;
    assert(((bits & !big_m) | w) & big_m2 == bits & big_m2) by (bit_vector)
        requires
            w & big_m == w,
            big_m & big_m2 == 0,
    ;
    lemma_get_in_place(set_bits(bits, lo, m, v), lo2, m2);
    lemma_get_in_place(bits, lo2, m2);
}

/// The six little-endian payload bytes of the low 48 bits of `bits`.
pub open spec fn le_bytes6(bits: u64) -> Seq<u8> {
    seq![
        (bits & 0xFF) as u8,
        ((bits >> 8) & 0xFF) as u8,
        ((bits >> 16) & 0xFF) as u8,
        ((bits >> 24) & 0xFF) as u8,
        ((bits >> 32) & 0xFF) as u8,
        ((bits >> 40) & 0xFF) as u8,
    ]
}

/// The 48-bit integer whose little-endian bytes are `b[0..6]`.
pub open spec fn from_le6(b: Seq<u8>) -> u64 {
    (b[0] as u64) | ((b[1] as u64) << 8) | ((b[2] as u64) << 16) | ((b[3] as u64) << 24) | ((
    b[4] as u64) << 32) | ((b[5] as u64) << 40)
}

/// The low 48 bits, the part of a register-group integer that goes on the wire.
pub open spec fn low48(bits: u64) -> u64 {
    bits & 0xFFFF_FFFF_FFFF
}

/// Serializes the low 48 bits of `bits`, byte 0 first.
pub fn to_le6(bits: u64) -> (r: [u8; 6])
    ensures
        r@ == le_bytes6(bits),
{
    let r = [
        (bits & 0xFF) as u8,
        ((bits >> 8) & 0xFF) as u8,
        ((bits >> 16) & 0xFF) as u8,
        ((bits >> 24) & 0xFF) as u8,
        ((bits >> 32) & 0xFF) as u8,
        ((bits >> 40) & 0xFF) as u8,
    ];
    assert(r@ =~= le_bytes6(bits));
    r
}

/// Reassembles six little-endian bytes into the low 48 bits of an integer.
pub fn of_le6(b: [u8; 6]) -> (r: u64)
    ensures
        r == from_le6(b@),
        r == low48(r),
{
    let r = (b[0] as u64) | ((b[1] as u64) << 8) | ((b[2] as u64) << 16) | ((b[3] as u64) << 24)
        | ((b[4] as u64) << 32) | ((b[5] as u64) << 40);
    let (b0, b1, b2, b3, b4, b5) = (b[0], b[1], b[2], b[3], b[4], b[5]);
    assert(r == r & 0xFFFF_FFFF_FFFF) by (bit_vector)
        requires
            r == (b0 as u64) | ((b1 as u64) << 8) | ((b2 as u64) << 16) | ((b3 as u64) << 24) | ((
            b4 as u64) << 32) | ((b5 as u64) << 40),
    ;
    r
}

/// Reading back six serialized bytes gives the low 48 bits.
pub proof fn lemma_le6_roundtrip(bits: u64)
    ensures
        from_le6(le_bytes6(bits)) == low48(bits),
{
    let s = le_bytes6(bits);
    assert(s[0] == (bits & 0xFF) as u8);
    assert(s[5] == ((bits >> 40) & 0xFF) as u8);
    let (b0, b1, b2, b3, b4, b5) = (s[0], s[1], s[2], s[3], s[4], s[5]);
    assert((b0 as u64) | ((b1 as u64) << 8) | ((b2 as u64) << 16) | ((b3 as u64) << 24) | ((
    b4 as u64) << 32) | ((b5 as u64) << 40) == bits & 0xFFFF_FFFF_FFFF) by (bit_vector)
        requires
            b0 == (bits & 0xFF) as u8,
            b1 == ((bits >> 8) & 0xFF) as u8,
            b2 == ((bits >> 16) & 0xFF) as u8,
            b3 == ((bits >> 24) & 0xFF) as u8,
            b4 == ((bits >> 32) & 0xFF) as u8,
            b5 == ((bits >> 40) & 0xFF) as u8,
    ;
}

/// Serializing six reassembled bytes gives the same bytes back.
pub proof fn lemma_from_le6_roundtrip(b: Seq<u8>)
    requires
        b.len() == 6,
    ensures
        le_bytes6(from_le6(b)) == b,
{
    let x = from_le6(b);
    let (b0, b1, b2, b3, b4, b5) = (b[0], b[1], b[2], b[3], b[4], b[5]);
    assert({
        &&& (x & 0xFF) as u8 == b0
        &&& ((x >> 8) & 0xFF) as u8 == b1
        &&& ((x >> 16) & 0xFF) as u8 == b2
        &&& ((x >> 24) & 0xFF) as u8 == b3
        &&& ((x >> 32) & 0xFF) as u8 == b4
        &&& ((x >> 40) & 0xFF) as u8 == b5
    }) by (bit_vector)
        requires
            x == (b0 as u64) | ((b1 as u64) << 8) | ((b2 as u64) << 16) | ((b3 as u64) << 24) | ((
            b4 as u64) << 32) | ((b5 as u64) << 40),
    ;
    assert(le_bytes6(x) =~= b);
}

/// Masking a byte with low ones is taking it modulo a power of two.
pub proof fn lemma_u8_low_masks(b: u8)
    ensures
        b & 1 == b % 2,
        b & 3 == b % 4,
        b & 7 == b % 8,
        b & 15 == b % 16,
        b & 31 == b % 32,
        b & 63 == b % 64,
        b & 255 == b,
{
    assert(b & 1 == b % 2 && b & 3 == b % 4 && b & 7 == b % 8 && b & 15 == b % 16 && b & 31 == b
        % 32 && b & 63 == b % 64 && b & 255 == b) by (bit_vector);
}

} // verus!
