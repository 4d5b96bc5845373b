//! Redundant Auxiliary result commands.

use vstd::prelude::*;

use super::Command;

verus! {

/// Read Redundant Auxiliary Register Group A
pub fn rdraxa() -> (r: Command)
    ensures
        r@ == (false, 0b00000011100u16),
{
    Command::define(false, 0b00000011100)
}

/// Read Redundant Auxiliary Register Group B
pub fn rdraxb() -> (r: Command)
    ensures
        r@ == (false, 0b00000011101u16),
{
    Command::define(false, 0b00000011101)
}

/// Read Auxiliary Redundant Register Group C
pub fn rdraxc() -> (r: Command)
    ensures
        r@ == (false, 0b00000011110u16),
{
    Command::define(false, 0b00000011110)
}

/// Read Auxiliary Redundant Register Group D
pub fn rdraxd() -> (r: Command)
    ensures
        r@ == (false, 0b00000100101u16),
{
    Command::define(false, 0b00000100101)
}

} // verus!
