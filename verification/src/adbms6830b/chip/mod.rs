//! Modelling the chip's hardware interface: the types that map to the
//! chip's registers and commands, taken from the datasheet.

pub mod commands;
pub mod pec;
pub mod registers;
