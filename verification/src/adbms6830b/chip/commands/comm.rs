//! GPIO Comm commands.

use vstd::prelude::*;

use super::Command;

verus! {

/// Write COMM Register Group
pub fn wrcomm() -> (r: Command)
    ensures
        r@ == (true, 0b11100100001u16),
{
    Command::define(true, 0b11100100001)
}

/// Read COMM Register Group
pub fn rdcomm() -> (r: Command)
    ensures
        r@ == (false, 0b11100100010u16),
{
    Command::define(false, 0b11100100010)
}

/// Start I2C/SPI Communication
pub fn stcomm() -> (r: Command)
    ensures
        r@ == (true, 0b11100100011u16),
{
    Command::define(true, 0b11100100011)
}

} // verus!
