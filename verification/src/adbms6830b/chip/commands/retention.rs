//! Retention register commands.

use vstd::prelude::*;

use super::Command;

verus! {

/// Unlock Retention Register
pub fn ulrr() -> (r: Command)
    ensures
        r@ == (true, 0b00000111000u16),
{
    Command::define(true, 0b00000111000)
}

/// Write Retention Registers
pub fn wrrr() -> (r: Command)
    ensures
        r@ == (true, 0b00000111001u16),
{
    Command::define(true, 0b00000111001)
}

/// Read Retention Registers
pub fn rdrr() -> (r: Command)
    ensures
        r@ == (false, 0b00000111010u16),
{
    Command::define(false, 0b00000111010)
}

} // verus!
