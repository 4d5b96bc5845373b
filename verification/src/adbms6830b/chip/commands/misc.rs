//! Miscellaneous Commands.

use vstd::prelude::*;

use super::Command;

verus! {

/// Read all AUX/Status Registers
pub fn rdasall() -> (r: Command)
    ensures
        r@ == (false, 0b00000110101u16),
{
    Command::define(false, 0b00000110101)
}

/// Read all C and S Results
pub fn rdcsall() -> (r: Command)
    ensures
        r@ == (false, 0b00000010001u16),
{
    Command::define(false, 0b00000010001)
}

/// Read all Average C and S Results
pub fn rdacsall() -> (r: Command)
    ensures
        r@ == (false, 0b00001010001u16),
{
    Command::define(false, 0b00001010001)
}

/// Read Serial ID Register Group
pub fn rdsid() -> (r: Command)
    ensures
        r@ == (false, 0b00000101100u16),
{
    Command::define(false, 0b00000101100)
}

/// Reset Command Counter
pub fn rstcc() -> (r: Command)
    ensures
        r@ == (false, 0b00000101110u16),
{
    Command::define(false, 0b00000101110)
}

/// Soft Reset
pub fn srst() -> (r: Command)
    ensures
        r@ == (false, 0b00000100111u16),
{
    Command::define(false, 0b00000100111)
}

} // verus!
