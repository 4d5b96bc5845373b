//! A "PAC" for the ADBMS6830B: the register layouts of its result and
//! configuration groups, taken from the datasheet.

pub mod registers;
