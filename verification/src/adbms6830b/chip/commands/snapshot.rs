//! Snapshot commands.

use vstd::prelude::*;

use super::Command;

verus! {

/// Snapshot
pub fn snap() -> (r: Command)
    ensures
        r@ == (true, 0b00000101101u16),
{
    Command::define(true, 0b00000101101)
}

/// Release Snapshot
pub fn unsnap() -> (r: Command)
    ensures
        r@ == (true, 0b00000101111u16),
{
    Command::define(true, 0b00000101111)
}

} // verus!
