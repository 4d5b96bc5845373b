//! Register group layouts of the ADBMS6830B, from the MEMORY MAP section of the
//! datasheet (page 61 onwards). Every group is six one-byte registers; the
//! layouts hold them in the low 48 bits of a `u64`, byte 0 lowest.

use vstd::prelude::*;

use crate::bits::{from_le6, le_bytes6};
use super::commands::CommandFrame;

pub mod config_a;
pub mod config_b;
pub mod pwm;
pub mod serial_id;
pub mod status;
pub mod comm;


verus! {

/// Number of payload bytes in one register group.
pub const GROUP_BYTES: usize = 6;

/// A register group that can be read back from the devices.
pub trait ReadableGroup: View<V = u64> + Copy + Sized {
    /// The read command of this group: whether it increments the command counter, and its code.
    spec fn spec_read_command() -> (bool, u16);

    /// The read command frame of this group.
    fn read_command() -> (r: CommandFrame)
        ensures
            r@ == Self::spec_read_command(),
            r.well_formed(),
    ;

    /// Reconstructs the group from its six payload bytes, byte 0 first.
    fn from_bytes(bytes: [u8; 6]) -> (r: Self)
        ensures
            r@ == from_le6(bytes@),
    ;
}

/// A register group that can be written to the devices.
pub trait WritableGroup: View<V = u64> + Copy + Sized {
    /// The write command of this group: whether it increments the command counter, and its code.
    spec fn spec_write_command() -> (bool, u16);

    /// The write command frame of this group.
    fn write_command() -> (r: CommandFrame)
        ensures
            r@ == Self::spec_write_command(),
            r.well_formed(),
    ;

    /// Serializes the group into its six payload bytes, byte 0 first.
    fn to_bytes(self) -> (r: [u8; 6])
        ensures
            r@ == le_bytes6(self@),
    ;
}

} // verus!
