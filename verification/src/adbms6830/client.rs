//! Framing of commands and register groups on an ADBMS6830 chain, with their PECs.
//!
//! A command goes out as its two bytes and their 15-bit PEC. A write adds one six-byte block per
//! IC, each followed by its 10-bit PEC, the furthest IC's block first. A read brings back one
//! eight-byte block per IC, the nearest IC's first: six data bytes, then the command counter and
//! the PEC of the data and counter.

use vstd::prelude::*;

use crate::crc::{command_pec, command_pec_of, data_pec, data_pec_of};
use crate::adbms6830b::chip::pec::{ccnt_of, pec_value_of};

verus! {

/// Everything that can go wrong when talking to the chain.
#[derive(Debug)]
pub enum AdbmsError<E, H> {
    /// An SPI error of the HAL.
    CommunicationError(E),
    /// A chip-select pin error of the HAL.
    CSControlError(H),
    /// A PEC mismatch in the block of the IC at this index (0 is the nearest).
    PECError(usize),
    /// A buffer length mismatch.
    LengthMismatch { expected: usize, got: usize },
    /// An error of the GPIO based polling.
    PollError,
}

/// The payload bytes of one register group written to one IC.
pub const TX_SIZE: usize = 6;

/// The bytes one IC sends back per register group: the payload, then counter and PEC.
pub const RX_SIZE: usize = 8;

/// Polls the ADC by reading `R` bytes at a time from SDO until they go high: more bytes answer
/// later but take less CPU time.
#[derive(Clone, Copy, Debug)]
pub struct SpiPollAdc<const R: usize> {}

/// Assumes the conversion has finished once `duration` has passed.
#[derive(Clone, Copy, Debug)]
pub struct SleepPollAdc {
    /// How long a conversion is given.
    pub duration: core::time::Duration,
}

/// The PEC of a command, as the chip computes it: the CRC15 of its two bytes, shifted left.
pub fn pec15_calc(data: [u8; 2]) -> (r: u16)
    ensures
        r == command_pec_of(data@),
{
    command_pec(&data)
}

/// The PEC of the data of a block. For a block received (`R`), the PEC covers the `I - 2` data
/// bytes and the command counter carried in byte `I - 2`; for one sent, all `I` bytes and a
/// counter of 0.
pub fn pec10_calc<const I: usize, const R: bool>(data: &[u8; I]) -> (r: u16)
    requires
        R ==> I >= 2,
    ensures
        R ==> r == data_pec_of(data@.take(I - 2), ccnt_of(data@[I - 2])),
        !R ==> r == data_pec_of(data@, 0),
{
    if R {
        let mut body: Vec<u8> = Vec::new();
        let mut i: usize = 0;
        while i < I - 2
            invariant
                i <= I - 2,
                I >= 2,
                body@ == data@.take(i as int),
            decreases I - 2 - i,
        {
            body.push(data[i]);
            assert(data@.take(i + 1) =~= data@.take(i as int).push(data@[i as int]));
            i = i + 1;
        }
        data_pec(body.as_slice(), data[I - 2] >> 2u8)
    } else {
        data_pec(data, 0)
    }
}

/// The four bytes of a command frame: the command, then its PEC, high byte first.
pub open spec fn command_frame_of(cmd: Seq<u8>) -> Seq<u8> {
    seq![
        cmd[0],
        cmd[1],
        (command_pec_of(cmd) >> 8u16) as u8,
        (command_pec_of(cmd) & 0xFF) as u8,
    ]
}

/// The four bytes sent for command `cmd`.
pub fn command_frame(cmd: [u8; 2]) -> (r: [u8; 4])
    ensures
        r@ == command_frame_of(cmd@),
{
    let pec = pec15_calc(cmd);
    let r = [cmd[0], cmd[1], (pec >> 8u16) as u8, (pec & 0xFF) as u8];
    assert(r@ =~= command_frame_of(cmd@));
    r
}

/// The eight bytes sent to one IC for its six data bytes: the data, then its PEC, high byte first.
pub open spec fn tx_block_of(data: Seq<u8>) -> Seq<u8> {
    data + seq![(data_pec_of(data, 0) >> 8u16) as u8, (data_pec_of(data, 0) & 0xFF) as u8]
}

/// Fills `tx` with the frame of a write of `data` to the `N` ICs: `tx` is cleared, the command
/// frame goes first, then one block per IC, the block of the furthest IC (the last six bytes of
/// `data` used) first.
pub fn write_frame<const N: usize, const NT: usize>(tx: &mut [u8], cmd: [u8; 2], data: &[u8; NT])
    requires
        old(tx)@.len() >= 4 + 8 * N,
        NT >= 6 * N,
    ensures
        final(tx)@.len() == old(tx)@.len(),
        final(tx)@.take(4) == command_frame_of(cmd@),
        forall|p: int|
            0 <= p < N ==> #[trigger] final(tx)@.subrange(4 + 8 * p, 12 + 8 * p) == tx_block_of(
                data@.subrange(6 * (N - 1 - p), 6 * (N - 1 - p) + 6),
            ),
        forall|i: int| 4 + 8 * N <= i < final(tx)@.len() ==> #[trigger] final(tx)@[i] == 0,
{
    let len = tx.len();
    let mut z: usize = 0;
    while z < len
        invariant
            z <= len,
            tx@.len() == len,
            forall|i: int| 0 <= i < z ==> #[trigger] tx@[i] == 0,
        decreases len - z,
    {
        tx[z] = 0;
        z = z + 1;
    }
    let frame = command_frame(cmd);
    tx[0] = frame[0];
    tx[1] = frame[1];
    tx[2] = frame[2];
    tx[3] = frame[3];
    assert(tx@.take(4) =~= command_frame_of(cmd@));
    let mut p: usize = 0;
    while p < N
        invariant
            p <= N,
            tx@.len() == len,
            len >= 4 + 8 * N,
            NT >= 6 * N,
            tx@.take(4) == command_frame_of(cmd@),
            forall|q: int|
                0 <= q < p ==> #[trigger] tx@.subrange(4 + 8 * q, 12 + 8 * q) == tx_block_of(
                    data@.subrange(6 * (N - 1 - q), 6 * (N - 1 - q) + 6),
                ),
            forall|i: int| 4 + 8 * p <= i < len ==> #[trigger] tx@[i] == 0,
        decreases N - p,
    {
        let src = (N - 1 - p) * 6;
        let chunk = [data[src], data[src + 1], data[src + 2], data[src + 3], data[src + 4], data[src
            + 5]];
        assert(chunk@ =~= data@.subrange(src as int, src + 6));
        let pec = pec10_calc::<6, false>(&chunk);
        let base = 4 + 8 * p;
        let ghost before = tx@;
        tx[base] = chunk[0];
        tx[base + 1] = chunk[1];
        tx[base + 2] = chunk[2];
        tx[base + 3] = chunk[3];
        tx[base + 4] = chunk[4];
        tx[base + 5] = chunk[5];
        tx[base + 6] = (pec >> 8u16) as u8;
        tx[base + 7] = (pec & 0xFF) as u8;
        assert(tx@.subrange(base as int, base + 8) =~= tx_block_of(chunk@));
        assert forall|q: int| 0 <= q < p + 1 implies #[trigger] tx@.subrange(
            4 + 8 * q,
            12 + 8 * q,
        ) == tx_block_of(data@.subrange(6 * (N - 1 - q), 6 * (N - 1 - q) + 6)) by {
            if q < p {
                assert(tx@.subrange(4 + 8 * q, 12 + 8 * q) =~= before.subrange(4 + 8 * q, 12 + 8 * q));
            }
        }
        assert(tx@.take(4) =~= before.take(4));
        p = p + 1;
    }
}

/// Whether the block of IC `c` in the read bytes `rx` carries a PEC that matches its data and
/// counter.
pub open spec fn block_ok(rx: Seq<u8>, c: int) -> bool {
    data_pec_of(rx.subrange(8 * c, 8 * c + 6), ccnt_of(rx[8 * c + 6])) == pec_value_of(
        rx[8 * c + 6],
        rx[8 * c + 7],
    )
}

/// Checks the read bytes `rx` of `N` ICs and copies them out.
///
/// The blocks are checked nearest IC first: each checked block's command counter goes into
/// `cmd_cntr`, and the first block whose PEC does not match stops the check with the index of its
/// IC. If all match, the blocks come back in the first `8 * N` bytes, the rest zero.
pub fn parse_read<const N: usize, const NR: usize>(rx: &[u8], cmd_cntr: &mut [u32; N]) -> (r: Result<[u8; NR], usize>)
    requires
        rx@.len() >= 8 * N,
        NR >= 8 * N,
    ensures
        match r {
            Ok(out) => {
                &&& forall|c: int| 0 <= c < N ==> #[trigger] block_ok(rx@, c)
                &&& forall|i: int| 0 <= i < 8 * N ==> #[trigger] out@[i] == rx@[i]
                &&& forall|i: int| 8 * N <= i < NR ==> #[trigger] out@[i] == 0
            },
            Err(c) => {
                &&& c < N
                &&& !block_ok(rx@, c as int)
                &&& forall|j: int| 0 <= j < c ==> #[trigger] block_ok(rx@, j)
            },
        },
        forall|c: int|
            0 <= c < N ==> #[trigger] final(cmd_cntr)@[c] == (if (match r {
                Ok(_) => true,
                Err(bad) => c <= bad,
            }) {
                (rx@[8 * c + 6] >> 2u8) as u32
            } else {
                old(cmd_cntr)@[c]
            }),
{
    let mut out = [0u8; NR];
    let mut c: usize = 0;
    while c < N
        invariant
            c <= N,
            rx@.len() >= 8 * N,
            NR >= 8 * N,
            out@.len() == NR,
            cmd_cntr@.len() == N,
            forall|j: int| 0 <= j < c ==> #[trigger] block_ok(rx@, j),
            forall|i: int| 0 <= i < 8 * c ==> #[trigger] out@[i] == rx@[i],
            forall|i: int| 8 * c <= i < NR ==> #[trigger] out@[i] == 0,
            forall|j: int|
                0 <= j < N ==> #[trigger] cmd_cntr@[j] == (if j < c {
                    (rx@[8 * j + 6] >> 2u8) as u32
                } else {
                    old(cmd_cntr)@[j]
                }),
        decreases N - c,
    {
        let idex = c * 8;
        let mut k: usize = 0;
        while k < 8
            invariant
                k <= 8,
                c < N,
                idex == 8 * c,
                idex + 8 <= NR,
                idex + 8 <= rx@.len(),
                out@.len() == NR,
                forall|i: int| 0 <= i < idex + k ==> #[trigger] out@[i] == rx@[i],
                forall|i: int| idex + k <= i < NR ==> #[trigger] out@[i] == 0,
            decreases 8 - k,
        {
            out[idex + k] = rx[idex + k];
            k = k + 1;
        }
        cmd_cntr[c] = (rx[idex + 6] >> 2u8) as u32;
        let recv_pec: u16 = (((rx[idex + 6] & 0x03) as u16) << 8u16) | (rx[idex + 7] as u16);
        let block = [rx[idex], rx[idex + 1], rx[idex + 2], rx[idex + 3], rx[idex + 4], rx[idex + 5],
            rx[idex + 6], rx[idex + 7]];
        assert(block@.take(6) =~= rx@.subrange(8 * c, 8 * c + 6));
        let calculated_pec = pec10_calc::<8, true>(&block);
        if calculated_pec != recv_pec {
            return Err(c);
        }
        c = c + 1;
    }
    Ok(out)
}

/// Whether buffers of `tx_len` and `rx_len` bytes can carry the traffic of a chain of `N` ICs with
/// payloads of `NT` bytes to write and `NR` bytes read back: `N`, `NT` and `NR` are positive,
/// `NR` is a whole number of eight-byte blocks, `NT` a whole number of six-byte groups, and the
/// buffers hold a write frame and a read of the whole chain.
pub fn buffers_fit<const N: usize, const NR: usize, const NT: usize>(tx_len: usize, rx_len: usize) -> (r: bool)
    ensures
        r == (N > 0 && NR % 8 == 0 && NR != 0 && NT % 6 == 0 && NT != 0 && tx_len >= 4 + 8 * N
            && rx_len >= 8 * N),
{
    if N == 0 || NR % RX_SIZE != 0 || NR == 0 || NT % TX_SIZE != 0 || NT == 0 {
        return false;
    }
    if N > (usize::MAX - 4) / 8 {
        return false;
    }
    tx_len >= 4 + RX_SIZE * N && rx_len >= RX_SIZE * N
}

} // verus!
