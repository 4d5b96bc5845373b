//! Configuration Registers Commands.

use vstd::prelude::*;

use super::Command;

verus! {

/// Write Configuration Register Group A
pub fn wrcfga() -> (r: Command)
    ensures
        r@ == (true, 0b00000000001u16),
{
    Command::define(true, 0b00000000001)
}

/// Write Configuration Register Group B
pub fn wrcfgb() -> (r: Command)
    ensures
        r@ == (true, 0b00000100100u16),
{
    Command::define(true, 0b00000100100)
}

/// Read Configuration Register Group A
pub fn rdcfga() -> (r: Command)
    ensures
        r@ == (false, 0b00000000010u16),
{
    Command::define(false, 0b00000000010)
}

/// Read Configuration Register Group B
pub fn rdcfgb() -> (r: Command)
    ensures
        r@ == (false, 0b00000100110u16),
{
    Command::define(false, 0b00000100110)
}

} // verus!
