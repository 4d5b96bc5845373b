//! Framing for a single line of daisy-chained devices.
//!
//! A line is one SPI/isoSPI chain; index `0` is the device nearest the host.
//! Every device sends or receives one block per register group: six data
//! bytes, then two PEC bytes. This module builds the blocks the host writes
//! and decodes the blocks the devices send back; the bus transactions that
//! carry them are made by the caller.

use vstd::prelude::*;

use crate::bits::{from_le6, le_bytes6};
use crate::crc::data_pec_of;
use super::chip::pec::{ccnt_of, pec_value_of, DataPecRx, DataPecTx};
use super::chip::registers::{ReadableGroup, WritableGroup, GROUP_BYTES};

verus! {

/// Bytes one device sends or receives per register group (its data plus the data PEC).
pub const BLOCK_BYTES: usize = 8;

/// Errors returned by this driver.
#[derive(Copy, Clone, Debug, PartialEq, Eq)]
pub enum Error<E> {
    /// The underlying SPI transaction failed.
    Spi(E),
    /// More devices were addressed than there is buffer space for.
    TooManyDevices,
    /// A user-provided timeout elapsed before the operation finished.
    Timeout,
}

/// Result of a device's data PEC check.
#[derive(Copy, Clone, Debug, PartialEq, Eq, Structural)]
pub enum PecStatus {
    /// The data PEC matched. This means the response data can be trusted.
    Success,
    /// The data PEC did not match. This means that the data was likely corrupted in transit.
    Failed,
}

impl PecStatus {
    /// Whether the PEC check passed.
    pub fn is_success(self) -> (r: bool)
        ensures
            r == (self == PecStatus::Success),
    {
        matches!(self, PecStatus::Success)
    }

    /// Whether the PEC check failed.
    pub fn is_failed(self) -> (r: bool)
        ensures
            r == (self == PecStatus::Failed),
    {
        matches!(self, PecStatus::Failed)
    }
}

/// The PEC status of a received block: whether its PEC matches its data and counter.
pub open spec fn block_status(block: Seq<u8>) -> PecStatus {
    if data_pec_of(block.take(6), ccnt_of(block[6])) == pec_value_of(block[6], block[7]) {
        PecStatus::Success
    } else {
        PecStatus::Failed
    }
}

/// The block the host sends for the six data bytes `data`: the data, then its PEC.
pub open spec fn tx_block(data: Seq<u8>) -> Seq<u8> {
    data + seq![
        (data_pec_of(data, 0) >> 8u16) as u8,
        (data_pec_of(data, 0) & 0xFF) as u8,
    ]
}

/// One device's answer to a read.
///
/// The data and command counter are readable even when the PEC failed, so check `pec()` before
/// trusting either of them.
#[derive(Copy, Clone, Debug, PartialEq, Eq)]
pub struct ChipResponse<G> {
    data: G,
    command_counter: u8,
    pec: PecStatus,
}

impl<G> View for ChipResponse<G> {
    type V = (G, u8, PecStatus);

    /// The data, the reported command counter, and the PEC status.
    closed spec fn view(&self) -> (G, u8, PecStatus) {
        (self.data, self.command_counter, self.pec)
    }
}

impl<G: Copy> ChipResponse<G> {
    /// The register group the device sent back.
    pub fn data(&self) -> (r: G)
        ensures
            r == self@.0,
    {
        self.data
    }

    /// Command counter (`CCNT[5:0]`) the device reported alongside its data.
    pub fn command_counter(&self) -> (r: u8)
        ensures
            r == self@.1,
    {
        self.command_counter
    }

    /// Whether this device's data PEC was found as valid.
    pub fn pec(&self) -> (r: PecStatus)
        ensures
            r == self@.2,
    {
        self.pec
    }
}

impl<G: ReadableGroup> ChipResponse<G> {
    /// Whether this response is what the device block `block` decodes to.
    pub open spec fn decodes(self, block: Seq<u8>) -> bool {
        &&& self@.0@ == from_le6(block.take(6))
        &&& self@.1 == ccnt_of(block[6])
        &&& self@.2 == block_status(block)
    }

    /// Decodes one device's block off the wire (`GROUP_BYTES` of data, then PEC0/PEC1).
    pub fn from_block(block: &[u8; BLOCK_BYTES]) -> (r: ChipResponse<G>)
        ensures
            r.decodes(block@),
    {
        let data = [block[0], block[1], block[2], block[3], block[4], block[5]];
        assert(data@ =~= block@.take(6));
        let pec = DataPecRx::from_bytes([block[GROUP_BYTES], block[GROUP_BYTES + 1]]);
        let ok = pec.verify(&data);
        ChipResponse {
            data: G::from_bytes(data),
            command_counter: pec.ccnt(),
            pec: if ok {
                PecStatus::Success
            } else {
                PecStatus::Failed
            },
        }
    }

    /// The filler for slots that were never read: zero data, zero counter, failed PEC.
    pub fn blank() -> (r: ChipResponse<G>)
        ensures
            r@.0@ == 0,
            r@.1 == 0,
            r@.2 == PecStatus::Failed,
    {
        let zeros = [0u8; 6];
        assert(from_le6(zeros@) == 0) by {
            assert(zeros@[0] == 0 && zeros@[1] == 0 && zeros@[2] == 0 && zeros@[3] == 0 && zeros@[4]
                == 0 && zeros@[5] == 0);
            assert((0u8 as u64) | ((0u8 as u64) << 8) | ((0u8 as u64) << 16) | ((0u8 as u64) << 24)
                | ((0u8 as u64) << 32) | ((0u8 as u64) << 40) == 0) by (bit_vector);
        }
        ChipResponse { data: G::from_bytes(zeros), command_counter: 0, pec: PecStatus::Failed }
    }
}

/// Per-device results of a read on a line, nearest the host first.
#[derive(Copy, Debug, PartialEq, Eq)]
pub struct Responses<G, const N: usize> {
    chips: [ChipResponse<G>; N],
    used: usize,
}

impl<G: Copy, const N: usize> Clone for Responses<G, N> {
    fn clone(&self) -> (r: Self)
        ensures
            r == *self,
    {
        *self
    }
}

impl<G, const N: usize> View for Responses<G, N> {
    type V = Seq<ChipResponse<G>>;

    /// The responses of the devices covered by the read.
    closed spec fn view(&self) -> Seq<ChipResponse<G>> {
        self.chips@.take(self.used as int)
    }
}

impl<G, const N: usize> Responses<G, N> {
    /// The number of responses never exceeds the capacity.
    #[verifier::type_invariant]
    closed spec fn well_formed(self) -> bool {
        self.used <= N
    }
}

impl<G: ReadableGroup, const N: usize> Responses<G, N> {
    /// Decodes the first `used` blocks that came back off from SPI.
    pub fn from_blocks(blocks: &[[u8; BLOCK_BYTES]; N], used: usize) -> (r: Responses<G, N>)
        requires
            used <= N,
        ensures
            r@.len() == used,
            forall|i: int| 0 <= i < used ==> #[trigger] r@[i].decodes(blocks@[i]@),
    {
        let mut chips = [ChipResponse::<G>::blank(); N];
        let mut i: usize = 0;
        while i < used
            invariant
                i <= used <= N,
                chips@.len() == N,
                forall|j: int| 0 <= j < i ==> #[trigger] chips@[j].decodes(blocks@[j]@),
            decreases used - i,
        {
            chips[i] = ChipResponse::from_block(&blocks[i]);
            i = i + 1;
        }
        Responses { chips, used }
    }

    /// A response covering no devices.
    pub fn empty() -> (r: Responses<G, N>)
        ensures
            r@.len() == 0,
    {
        Responses { chips: [ChipResponse::<G>::blank(); N], used: 0 }
    }
}

impl<G: Copy, const N: usize> Responses<G, N> {
    /// Whether every device covered by this response passed its PEC check.
    pub fn all_ok(&self) -> (r: bool)
        ensures
            r == forall|i: int| 0 <= i < self@.len() ==> (#[trigger] self@[i])@.2
                == PecStatus::Success,
    {
        proof {
            use_type_invariant(self);
        }
        let mut i: usize = 0;
        while i < self.used
            invariant
                i <= self.used <= N,
                forall|j: int| 0 <= j < i ==> (#[trigger] self@[j])@.2 == PecStatus::Success,
            decreases self.used - i,
        {
            if !self.chips[i].pec.is_success() {
                assert(self@[i as int] == self.chips@[i as int]);
                return false;
            }
            i = i + 1;
        }
        true
    }

    /// The number of devices this response covers.
    pub fn len(&self) -> (r: usize)
        ensures
            r == self@.len(),
            r <= N,
    {
        proof {
            use_type_invariant(self);
        }
        self.used
    }

    /// Whether this response covers no devices.
    pub fn is_empty(&self) -> (r: bool)
        ensures
            r == (self@.len() == 0),
    {
        proof {
            use_type_invariant(self);
        }
        self.used == 0
    }

    /// The response of the device at `index`, if the read covered it.
    pub fn get(&self, index: usize) -> (r: Option<ChipResponse<G>>)
        ensures
            index < self@.len() ==> r == Some(self@[index as int]),
            index >= self@.len() ==> r is None,
    {
        proof {
            use_type_invariant(self);
        }
        if index < self.used {
            Some(self.chips[index])
        } else {
            None
        }
    }
}

/// An individual SPI/isoSPI line that goes up to `N` daisy-chained ADBMS6830B devices.
///
/// Index `0` is the device nearest this end of the line.
pub struct Line<SPI, const N: usize> {
    spi: SPI,
}

impl<SPI, const N: usize> Line<SPI, N> {
    /// Builds a line on `spi`.
    pub fn new(spi: SPI) -> (r: Line<SPI, N>)
        ensures
            r.spi() == spi,
    {
        Line { spi }
    }

    /// The SPI device of the line.
    pub closed spec fn spi(self) -> SPI {
        self.spi
    }

    /// Releases the underlying SPI device.
    pub fn release(self) -> (r: SPI)
        ensures
            r == self.spi(),
    {
        self.spi
    }

    /// The SPI device, to run a transaction on.
    pub fn spi_mut(&mut self) -> (r: &mut SPI)
        ensures
            *r == old(self).spi(),
            final(self).spi() == *final(r),
    {
        &mut self.spi
    }
}

/// The bytes of a write of `groups`: the first block on the wire ends up in the
/// furthest device, so device `i` gets block `n - 1 - i`.
pub open spec fn write_bytes_of(groups: Seq<Seq<u8>>) -> Seq<u8>
    decreases groups.len(),
{
    if groups.len() == 0 {
        Seq::empty()
    } else {
        tx_block(groups.last()) + write_bytes_of(groups.drop_last())
    }
}

/// The six data bytes of every group, in order.
pub open spec fn group_bytes<G: WritableGroup>(groups: Seq<G>) -> Seq<Seq<u8>> {
    groups.map_values(|g: G| le_bytes6(g@))
}

fn push_block(out: &mut Vec<u8>, data: [u8; 6])
    ensures
        final(out)@ == old(out)@ + tx_block(data@),
{
    let pec = DataPecTx::new(&data);
    let mut k: usize = 0;
    while k < 6
        invariant
            k <= 6,
            out@ == old(out)@ + data@.take(k as int),
        decreases 6 - k,
    {
        out.push(data[k]);
        assert(data@.take(k + 1) =~= data@.take(k as int).push(data@[k as int]));
        k = k + 1;
    }
    out.push(pec.pec0());
    out.push(pec.pec1());
    assert(data@.take(6) =~= data@);
    assert(out@ =~= old(out)@ + tx_block(data@));
}

/// Builds the bytes of a write of one register group per device, `groups[0]`
/// going to the device nearest the host.
///
/// Returns `Err(Error::TooManyDevices)` if there are more groups than the line holds.
pub fn write_blocks<G: WritableGroup, E, const N: usize>(groups: &[G]) -> (r: Result<Vec<u8>, Error<E>>)
    ensures
        groups@.len() > N ==> r is Err && r->Err_0 == Error::<E>::TooManyDevices,
        groups@.len() <= N ==> (r matches Ok(bytes) && bytes@ == write_bytes_of(group_bytes(groups@))),
{
    if groups.len() > N {
        return Err(Error::TooManyDevices);
    }
    let ghost gb = group_bytes(groups@);
    let mut out: Vec<u8> = Vec::new();
    let mut i: usize = groups.len();
    assert(gb.take(gb.len() as int) =~= gb);
    while i > 0
        invariant
            i <= groups@.len(),
            gb == group_bytes(groups@),
            gb.len() == groups@.len(),
            out@ + write_bytes_of(gb.take(i as int)) == write_bytes_of(gb),
        decreases i,
    {
        let ghost before = out@;
        assert(gb.take(i as int).drop_last() =~= gb.take(i - 1));
        assert(gb.take(i as int).last() == gb[i - 1]);
        i = i - 1;
        push_block(&mut out, groups[i].to_bytes());
        assert(out@ + write_bytes_of(gb.take(i as int)) =~= before + write_bytes_of(gb.take(i + 1)));
    }
    assert(gb.take(0) =~= Seq::<Seq<u8>>::empty());
    assert(out@ =~= write_bytes_of(gb));
    Ok(out)
}


/// A write carries `n` blocks of eight bytes.
pub proof fn lemma_write_len(groups: Seq<Seq<u8>>)
    requires
        forall|i: int| 0 <= i < groups.len() ==> (#[trigger] groups[i]).len() == 6,
    ensures
        write_bytes_of(groups).len() == 8 * groups.len(),
    decreases groups.len(),
{
    if groups.len() > 0 {
        lemma_write_len(groups.drop_last());
    }
}

/// In a write, device `i` (0 nearest the host) gets the block of its own group: the blocks go
/// out furthest device first, so its block is number `n - 1 - i` on the wire.
pub proof fn lemma_write_block_of_device(groups: Seq<Seq<u8>>, i: int)
    requires
        forall|j: int| 0 <= j < groups.len() ==> (#[trigger] groups[j]).len() == 6,
        0 <= i < groups.len(),
    ensures
        write_bytes_of(groups).subrange(
            8 * (groups.len() - 1 - i),
            8 * (groups.len() - i),
        ) == tx_block(groups[i]),
    decreases groups.len(),
{
    let n = groups.len() as int;
    let rest = groups.drop_last();
    lemma_write_len(rest);
    assert(tx_block(groups.last()).len() == 8);
    if i == n - 1 {
        assert(write_bytes_of(groups).subrange(0, 8) =~= tx_block(groups.last()));
    } else {
        lemma_write_block_of_device(rest, i);
        assert(rest[i] == groups[i]);
        assert(write_bytes_of(groups).subrange(8 * (n - 1 - i), 8 * (n - i)) =~= write_bytes_of(
            rest,
        ).subrange(8 * (n - 2 - i), 8 * (n - 1 - i)));
    }
}

/// The number of bytes a read of one register group from `count` devices clocks out.
pub open spec fn read_len_of(count: nat) -> nat {
    count * 8
}

/// Checks a read of `count` devices against the line's capacity and gives the number of bytes
/// to clock in.
///
/// Returns `Err(Error::TooManyDevices)` if `count` is over `N`.
pub fn read_len<E, const N: usize>(count: usize) -> (r: Result<usize, Error<E>>)
    requires
        N * BLOCK_BYTES <= usize::MAX,
    ensures
        count > N ==> r is Err && r->Err_0 == Error::<E>::TooManyDevices,
        count <= N ==> (r matches Ok(len) && len == read_len_of(count as nat)),
{
    if count > N {
        return Err(Error::TooManyDevices);
    }
    assert(count * 8 <= N * 8) by (nonlinear_arith)
        requires
            count <= N,
    ;
    Ok(count * BLOCK_BYTES)
}

/// The number of bytes clocked out for a poll of `count` devices: the poll status is only
/// valid after `2 * count` clock pulses, so the read runs past that window and one byte more.
pub open spec fn poll_len_of(count: nat) -> nat {
    ((2 * count + 7) / 8 + 1) as nat
}

/// Checks a poll of `count` devices against the line's capacity and gives the number of bytes
/// to clock in.
///
/// Returns `Err(Error::TooManyDevices)` if `count` is over `N`.
pub fn poll_len<E, const N: usize>(count: usize) -> (r: Result<usize, Error<E>>)
    requires
        N > 0,
    ensures
        count > N ==> r is Err && r->Err_0 == Error::<E>::TooManyDevices,
        count <= N ==> (r matches Ok(len) && len == poll_len_of(count as nat) && 1 <= len
            <= N * BLOCK_BYTES),
{
    if count > N {
        return Err(Error::TooManyDevices);
    }
    let quarter: usize = count / 4;
    let rest: usize = count % 4;
    let len: usize = if rest == 0 {
        quarter + 1
    } else {
        quarter + 2
    };
    assert(len == (2 * count + 7) / 8 + 1) by (nonlinear_arith)
        requires
            quarter == count / 4,
            rest == count % 4,
            len == (if rest == 0 {
                quarter + 1
            } else {
                quarter + 2
            }),
    ;
    assert(len <= N * 8) by (nonlinear_arith)
        requires
            len <= count / 4 + 2,
            count <= N,
            N > 0,
    ;
    Ok(len)
}

/// Whether the bytes clocked in during a poll say that every device has finished: the last
/// byte reads all ones.
pub fn poll_done(bytes: &[u8]) -> (r: bool)
    requires
        bytes@.len() >= 1,
    ensures
        r == (bytes@.last() == 0xFF),
{
    bytes[bytes.len() - 1] == 0xFF
}

/// The number of blocks at the front of `blocks` whose PEC is valid, up to the first bad one.
pub open spec fn leading_valid(blocks: Seq<Seq<u8>>) -> nat
    decreases blocks.len(),
{
    if blocks.len() == 0 {
        0
    } else if block_status(blocks[0]) == PecStatus::Success {
        1 + leading_valid(blocks.drop_first())
    } else {
        0
    }
}

/// The block views of an array of blocks.
pub open spec fn block_views(blocks: Seq<[u8; BLOCK_BYTES]>) -> Seq<Seq<u8>> {
    blocks.map_values(|b: [u8; BLOCK_BYTES]| b@)
}

proof fn lemma_leading_valid_step(blocks: Seq<Seq<u8>>, i: int)
    requires
        0 <= i < blocks.len(),
        forall|j: int| 0 <= j < i ==> #[trigger] block_status(blocks[j]) == PecStatus::Success,
    ensures
        block_status(blocks[i]) != PecStatus::Success ==> leading_valid(blocks) == i,
        block_status(blocks[i]) == PecStatus::Success ==> leading_valid(blocks) == i + 1
            + leading_valid(blocks.skip(i + 1)),
    decreases i,
{
    if i > 0 {
        let rest = blocks.drop_first();
        assert forall|j: int| 0 <= j < i - 1 implies #[trigger] block_status(rest[j])
            == PecStatus::Success by {
            assert(rest[j] == blocks[j + 1]);
        }
        assert(block_status(blocks[0]) == PecStatus::Success);
        lemma_leading_valid_step(rest, i - 1);
        assert(rest[i - 1] == blocks[i]);
        assert(rest.skip(i) =~= blocks.skip(i + 1));
    } else {
        assert(blocks.drop_first() =~= blocks.skip(1));
    }
}

/// Counts the devices that answered a read of the serial ID: the blocks up to the first one
/// whose PEC does not match.
pub fn count_valid_blocks(blocks: &[[u8; BLOCK_BYTES]]) -> (r: usize)
    ensures
        r == leading_valid(block_views(blocks@)),
        r <= blocks@.len(),
{
    let ghost views = block_views(blocks@);
    let mut i: usize = 0;
    while i < blocks.len()
        invariant
            i <= blocks@.len(),
            views == block_views(blocks@),
            views.len() == blocks@.len(),
            forall|j: int| 0 <= j < i ==> #[trigger] block_status(views[j]) == PecStatus::Success,
        decreases blocks.len() - i,
    {
        let block = &blocks[i];
        let data = [block[0], block[1], block[2], block[3], block[4], block[5]];
        assert(data@ =~= block@.take(6));
        let pec = DataPecRx::from_bytes([block[GROUP_BYTES], block[GROUP_BYTES + 1]]);
        assert(views[i as int] == block@);
        proof {
            lemma_leading_valid_step(views, i as int);
        }
        if !pec.verify(&data) {
            assert(block_status(views[i as int]) != PecStatus::Success);
            return i;
        }
        assert(block_status(views[i as int]) == PecStatus::Success);
        i = i + 1;
    }
    proof {
        lemma_leading_valid_all(views);
    }
    i
}

proof fn lemma_leading_valid_all(blocks: Seq<Seq<u8>>)
    requires
        forall|j: int| 0 <= j < blocks.len() ==> #[trigger] block_status(blocks[j])
            == PecStatus::Success,
    ensures
        leading_valid(blocks) == blocks.len(),
    decreases blocks.len(),
{
    if blocks.len() > 0 {
        let rest = blocks.drop_first();
        assert forall|j: int| 0 <= j < rest.len() implies #[trigger] block_status(rest[j])
            == PecStatus::Success by {
            assert(rest[j] == blocks[j + 1]);
        }
        assert(block_status(blocks[0]) == PecStatus::Success);
        lemma_leading_valid_all(rest);
    }
}

/// Conversion time of the C-ADC in one shot, in milliseconds.
pub const C_ADC_MS: u64 = 1;

/// Conversion time of the S-ADC (and of a redundant ADCV with RD = 1), in milliseconds.
pub const S_ADC_MS: u64 = 8;

/// Conversion time of the AUX ADC (ADAX), in milliseconds.
pub const AUX_MS: u64 = 1;

/// Conversion time of the AUX2 ADC (ADAX2), in milliseconds.
pub const AUX2_MS: u64 = 8;

/// Added to any of the conversion times when starting from the standby state (max), in milliseconds.
pub const REFUP_MS: u64 = 5;

} // verus!
