//! Auxiliary result commands.

use vstd::prelude::*;

use super::Command;

verus! {

/// Read Auxiliary Register Group A
pub fn rdauxa() -> (r: Command)
    ensures
        r@ == (false, 0b00000011001u16),
{
    Command::define(false, 0b00000011001)
}

/// Read Auxiliary Register Group B
pub fn rdauxb() -> (r: Command)
    ensures
        r@ == (false, 0b00000011010u16),
{
    Command::define(false, 0b00000011010)
}

/// Read Auxiliary Register Group C
pub fn rdauxc() -> (r: Command)
    ensures
        r@ == (false, 0b00000011011u16),
{
    Command::define(false, 0b00000011011)
}

/// Read Auxiliary Register Group D
pub fn rdauxd() -> (r: Command)
    ensures
        r@ == (false, 0b00000011111u16),
{
    Command::define(false, 0b00000011111)
}

} // verus!
