//! Driver for the ADBMS6830B battery monitor.
//!
//! Summary of modules:
//! - `chip`: the types representing the register and command schemas from the datasheet.
//! - `line`: the framing for one isoSPI line of daisy-chained devices. See the `Line` struct.
//! - `turnkey`: the two-line isoSPI configuration: chip routing, command counter tracking,
//! and the break detection that splits the chain.

pub mod chip;
pub mod line;
pub mod adbms6830b_pac;
pub mod time;
pub mod turnkey;
