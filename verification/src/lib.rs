//! Verified core of the NER battery-monitor firmware: command, register and
//! PEC encodings of the ADBMS6830(B) cell monitors, the framing of isoSPI daisy
//! chains, the two-line routing and break-recovery logic, and small helpers
//! of the CAN and PTP platform code.

pub mod bits;
pub mod crc;
pub mod adbms6830;
pub mod adbms6830b;
pub mod cangen;
pub mod eth_ptp_time;
