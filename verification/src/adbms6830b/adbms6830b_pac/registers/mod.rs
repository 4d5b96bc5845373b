//! Register structure declarations based on the ADBMS6830B datasheet.

use vstd::prelude::*;

pub mod config_a;
pub mod config_b;
pub mod results;
pub mod table107;

verus! {

/// Whether a register group can be written to, or is read-only.
#[derive(Clone, Copy, Debug, PartialEq, Eq, Structural)]
pub enum RegisterKind {
    /// The register group can only be read from.
    ReadOnly,
    /// The register group can only be written to.
    WriteOnly,
    /// The register group can be read from and written to.
    ReadWrite,
}

/// What every register group declares of itself.
pub trait RegisterGroup {
    /// Whether this register group is read-only, write-only or read/write.
    spec fn spec_kind() -> RegisterKind;

    /// Whether this register group is read-only, write-only or read/write.
    fn kind() -> (r: RegisterKind)
        ensures
            r == Self::spec_kind(),
    ;
}

} // verus!
