//! Driver for the ADBMS6830 battery monitor: one SPI chain of `N` daisy-chained ICs.
//!
//! - `types`: the register group layouts and the commands of the chip.
//! - `registers`: what a register group or a command needs to be sent over the chain.
//! - `client`: the framing of commands and register groups, with their PECs.

pub mod client;
pub mod registers;
pub mod types;
