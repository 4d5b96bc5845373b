//! What a register group or a command needs to go over the chain.
//!
//! A register group is held in a `u64` whose low 48 bits are its six payload bytes, byte 0 lowest.
//! Adding a register is defining its layout in `crate::adbms6830::types` and giving it its read
//! and/or write command here; the packing of the groups of all ICs lives here once.

use vstd::prelude::*;

use crate::bits::{from_le6, le_bytes6, of_le6, to_le6};
use super::client::{RX_SIZE, TX_SIZE};

verus! {

/// A register group that can be written to every IC on the chain.
pub trait AdbmsWritableRegister: Copy + View<V = u64> + Sized {
    /// The two bytes of the write command.
    spec fn spec_write_cmd() -> (u8, u8);

    /// The two bytes of the write command.
    fn write_cmd() -> (r: [u8; 2])
        ensures
            r@ == seq![Self::spec_write_cmd().0, Self::spec_write_cmd().1],
    ;

    /// The raw bits of the group.
    fn into_raw(self) -> (r: u64)
        ensures
            r == self@,
    ;
}

/// A register group that can be read from every IC on the chain.
pub trait AdbmsReadableRegister: View<V = u64> + Sized {
    /// The two bytes of the read command.
    spec fn spec_read_cmd() -> (u8, u8);

    /// The two bytes of the read command.
    fn read_cmd() -> (r: [u8; 2])
        ensures
            r@ == seq![Self::spec_read_cmd().0, Self::spec_read_cmd().1],
    ;

    /// The group holding the raw bits `bits`.
    fn from_raw(bits: u64) -> (r: Self)
        ensures
            r@ == bits,
    ;
}

/// A command that carries no payload.
pub trait AdbmsCommand {
    /// The 11-bit command code.
    spec fn spec_command(&self) -> u16;

    /// The 11-bit command code.
    fn get_command(&self) -> (r: u16)
        ensures
            r == self.spec_command(),
    ;
}

/// The payload of a write of `regs`, one group per IC with IC 0 (the nearest the controller)
/// first: six bytes per IC, the rest of the `NT` bytes zero.
pub fn write_payload<R: AdbmsWritableRegister, const N: usize, const NT: usize>(regs: &[R; N]) -> (r: [u8; NT])
    requires
        N * TX_SIZE <= NT,
    ensures
        forall|ic: int, k: int|
            0 <= ic < N && 0 <= k < 6 ==> #[trigger] r@[ic * 6 + k] == le_bytes6(regs@[ic]@)[k],
        forall|i: int| N * 6 <= i < NT ==> #[trigger] r@[i] == 0,
{
    let mut data = [0u8; NT];
    let mut ic: usize = 0;
    while ic < N
        invariant
            ic <= N,
            N * 6 <= NT,
            data@.len() == NT,
            forall|j: int, k: int|
                0 <= j < ic && 0 <= k < 6 ==> #[trigger] data@[j * 6 + k] == le_bytes6(regs@[j]@)[k],
            forall|i: int| ic * 6 <= i < NT ==> #[trigger] data@[i] == 0,
        decreases N - ic,
    {
        let off = ic * TX_SIZE;
        let bytes = to_le6(regs[ic].into_raw());
        let mut k: usize = 0;
        while k < TX_SIZE
            invariant
                k <= 6,
                ic < N,
                off == ic * 6,
                off + 6 <= NT,
                N * 6 <= NT,
                data@.len() == NT,
                bytes@ == le_bytes6(regs@[ic as int]@),
                forall|j: int, kk: int|
                    0 <= j < ic && 0 <= kk < 6 ==> #[trigger] data@[j * 6 + kk] == le_bytes6(
                        regs@[j]@,
                    )[kk],
                forall|kk: int| 0 <= kk < k ==> #[trigger] data@[off + kk] == bytes@[kk],
                forall|i: int| off + k <= i < NT ==> #[trigger] data@[i] == 0,
            decreases 6 - k,
        {
            data[off + k] = bytes[k];
            k = k + 1;
        }
        assert forall|j: int, kk: int|
            0 <= j < ic + 1 && 0 <= kk < 6 implies #[trigger] data@[j * 6 + kk] == le_bytes6(
            regs@[j]@,
        )[kk] by {
            if j == ic {
                assert(data@[off + kk] == bytes@[kk]);
            }
        }
        ic = ic + 1;
    }
    data
}

/// The group of each IC from a read: the first six bytes of its eight-byte block, IC 0 first.
pub fn read_groups<R: AdbmsReadableRegister, const N: usize, const NR: usize>(raw: &[u8; NR]) -> (r: Vec<R>)
    requires
        N * RX_SIZE <= NR,
    ensures
        r@.len() == N,
        forall|ic: int| 0 <= ic < N ==> (#[trigger] r@[ic])@ == from_le6(raw@.subrange(ic * 8, ic * 8 + 6)),
{
    let mut out: Vec<R> = Vec::new();
    let mut ic: usize = 0;
    while ic < N
        invariant
            ic <= N,
            N * 8 <= NR,
            out@.len() == ic,
            forall|j: int| 0 <= j < ic ==> (#[trigger] out@[j])@ == from_le6(raw@.subrange(j * 8, j * 8 + 6)),
        decreases N - ic,
    {
        let off = ic * RX_SIZE;
        let buf = [raw[off], raw[off + 1], raw[off + 2], raw[off + 3], raw[off + 4], raw[off + 5]];
        assert(buf@ =~= raw@.subrange(off as int, off + 6));
        out.push(R::from_raw(of_le6(buf)));
        ic = ic + 1;
    }
    out
}

/// The two command bytes sent for command code `code`: its low byte, then its high byte.
pub fn command_bytes(code: u16) -> (r: [u8; 2])
    ensures
        r@ == seq![(code & 0xFF) as u8, (code >> 8u16) as u8],
{
    let r = [(code & 0xFF) as u8, (code >> 8u16) as u8];
    assert(r@ =~= seq![(code & 0xFF) as u8, (code >> 8u16) as u8]);
    r
}

} // verus!
