//! Packet error codes (PEC) of the isoSPI frames.
//!
//! Every command carries a 15-bit PEC over its two command bytes; every data
//! block carries a 10-bit PEC over its six data bytes. On reads, the device also
//! puts its six-bit command counter into the upper bits of the first PEC byte
//! and folds it into the data PEC. See the "DATA PEC" and "COMMAND PEC"
//! sections on pages 52-53 of the datasheet.

use vstd::prelude::*;

use crate::crc::{command_pec, command_pec_of, data_pec, data_pec_of, lemma_data_pec_bound};

verus! {

/// The 15-bit command PEC of a command frame, as the two bytes that follow the command.
#[derive(Clone, Copy, Debug, PartialEq, Eq)]
pub struct CommandPec {
    value: u16,
}

impl View for CommandPec {
    type V = u16;

    /// The PEC as a 16-bit word, its first wire byte high.
    closed spec fn view(&self) -> u16 {
        self.value
    }
}

impl CommandPec {
    /// Computes the PEC of the command bytes `bytes`.
    pub fn new(bytes: &[u8]) -> (r: CommandPec)
        ensures
            r@ == command_pec_of(bytes@),
    {
        CommandPec { value: command_pec(bytes) }
    }

    /// First PEC byte on the wire.
    pub fn pec0(&self) -> (r: u8)
        ensures
            r == (self@ >> 8u16) as u8,
    {
        (self.value >> 8u16) as u8
    }

    /// Second PEC byte on the wire.
    pub fn pec1(&self) -> (r: u8)
        ensures
            r == (self@ & 0xFF) as u8,
    {
        (self.value & 0xFF) as u8
    }
}

/// The data PEC the host sends after a block of data it writes.
#[derive(Clone, Copy, Debug, PartialEq, Eq)]
pub struct DataPecTx {
    value: u16,
}

impl View for DataPecTx {
    type V = u16;

    /// The 10-bit PEC.
    closed spec fn view(&self) -> u16 {
        self.value
    }
}

impl DataPecTx {
    /// Computes the PEC of the data bytes `data` (the command counter bits are zero on writes).
    pub fn new(data: &[u8]) -> (r: DataPecTx)
        ensures
            r@ == data_pec_of(data@, 0),
            r@ < 0x400,
    {
        proof {
            lemma_data_pec_bound(data@, 0);
        }
        DataPecTx { value: data_pec(data, 0) }
    }

    /// First PEC byte on the wire: the command counter bits (zero) and `PEC[9:8]`.
    pub fn pec0(&self) -> (r: u8)
        ensures
            r == (self@ >> 8u16) as u8,
    {
        (self.value >> 8u16) as u8
    }

    /// Second PEC byte on the wire: `PEC[7:0]`.
    pub fn pec1(&self) -> (r: u8)
        ensures
            r == (self@ & 0xFF) as u8,
    {
        (self.value & 0xFF) as u8
    }
}

/// The two PEC bytes a device sends after a block of data it returns.
#[derive(Clone, Copy, Debug, PartialEq, Eq)]
pub struct DataPecRx {
    ccnt: u8,
    value: u16,
}

impl View for DataPecRx {
    type V = (u8, u16);

    /// The command counter `CCNT[5:0]` and the received 10-bit PEC.
    closed spec fn view(&self) -> (u8, u16) {
        (self.ccnt, self.value)
    }
}

/// The command counter carried in the upper six bits of the first PEC byte.
pub open spec fn ccnt_of(pec0: u8) -> u8 {
    pec0 >> 2u8
}

/// The 10-bit PEC carried in the low two bits of the first PEC byte and the second byte.
pub open spec fn pec_value_of(pec0: u8, pec1: u8) -> u16 {
    (((pec0 & 0x03) as u16) << 8u16) | (pec1 as u16)
}

impl DataPecRx {
    /// Splits the two received PEC bytes into the command counter and the PEC.
    pub fn from_bytes(bytes: [u8; 2]) -> (r: DataPecRx)
        ensures
            r@ == (ccnt_of(bytes[0]), pec_value_of(bytes[0], bytes[1])),
    {
        DataPecRx {
            ccnt: bytes[0] >> 2u8,
            value: (((bytes[0] & 0x03) as u16) << 8u16) | (bytes[1] as u16),
        }
    }

    /// The device's command counter (`CCNT[5:0]`).
    pub fn ccnt(&self) -> (r: u8)
        ensures
            r == self@.0,
    {
        self.ccnt
    }

    /// The received 10-bit PEC.
    pub fn pec(&self) -> (r: u16)
        ensures
            r == self@.1,
    {
        self.value
    }

    /// Whether the received PEC is the PEC of `data` with the received command counter.
    pub fn verify(&self, data: &[u8]) -> (r: bool)
        ensures
            r == (data_pec_of(data@, self@.0) == self@.1),
    {
        data_pec(data, self.ccnt) == self.value
    }
}

/// The two PEC bytes a device with command counter `ccnt` appends to `data`.
pub open spec fn rx_pec_bytes(data: Seq<u8>, ccnt: u8) -> (u8, u16) {
    let p = data_pec_of(data, ccnt);
    ((((ccnt & 0x3F) << 2u8) | ((p >> 8u16) as u8)) as u8, p)
}

/// A block that a device built correctly passes the receive check, and the
/// command counter read back is the one it sent.
pub proof fn lemma_device_block_verifies(data: Seq<u8>, ccnt: u8)
    ensures
        ({
            let p = data_pec_of(data, ccnt);
            let pec0 = (((ccnt & 0x3F) << 2u8) | ((p >> 8u16) as u8)) as u8;
            let pec1 = (p & 0xFF) as u8;
            &&& ccnt_of(pec0) == ccnt & 0x3F
            &&& pec_value_of(pec0, pec1) == p
            &&& data_pec_of(data, ccnt_of(pec0)) == p
        }),
{
    let p = data_pec_of(data, ccnt);
    lemma_data_pec_bound(data, ccnt);
    let pec0 = (((ccnt & 0x3F) << 2u8) | ((p >> 8u16) as u8)) as u8;
    let pec1 = (p & 0xFF) as u8;
    assert(pec0 >> 2u8 == ccnt & 0x3F && (((pec0 & 0x03) as u16) << 8u16) | (pec1 as u16) == p)
        by (bit_vector)
        requires
            p < 0x400,
            pec0 == (((ccnt & 0x3F) << 2u8) | ((p >> 8u16) as u8)) as u8,
            pec1 == (p & 0xFF) as u8,
    ;
    assert((ccnt & 0x3F) & 0x3F == ccnt & 0x3F) by (bit_vector);
}

/// The PEC the host puts on a write passes the device's receive check with a
/// zero command counter.
pub proof fn lemma_host_block_verifies(data: Seq<u8>)
    ensures
        ({
            let p = data_pec_of(data, 0);
            let pec0 = (p >> 8u16) as u8;
            let pec1 = (p & 0xFF) as u8;
            &&& ccnt_of(pec0) == 0
            &&& pec_value_of(pec0, pec1) == p
        }),
{
    let p = data_pec_of(data, 0);
    lemma_data_pec_bound(data, 0);
    let pec0 = (p >> 8u16) as u8;
    let pec1 = (p & 0xFF) as u8;
    assert(pec0 >> 2u8 == 0 && (((pec0 & 0x03) as u16) << 8u16) | (pec1 as u16) == p)
        by (bit_vector)
        requires
            p < 0x400,
            pec0 == (p >> 8u16) as u8,
            pec1 == (p & 0xFF) as u8,
    ;
}

} // verus!
