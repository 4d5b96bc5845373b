//! Field types relavent to the status registers.

pub mod a;
pub mod b;
pub mod c;
