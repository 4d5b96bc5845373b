//! Discharge commands.

use vstd::prelude::*;

use super::Command;

verus! {

/// Mute Discharge
pub fn mute() -> (r: Command)
    ensures
        r@ == (true, 0b00000101000u16),
{
    Command::define(true, 0b00000101000)
}

/// Unmute Discharge
pub fn unmute() -> (r: Command)
    ensures
        r@ == (true, 0b00000101001u16),
{
    Command::define(true, 0b00000101001)
}

} // verus!
