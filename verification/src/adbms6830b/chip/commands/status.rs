//! Status register commands.

use vstd::prelude::*;

use super::Command;

verus! {

/// Read Status Register Group A
pub fn rdstata() -> (r: Command)
    ensures
        r@ == (false, 0b00000110000u16),
{
    Command::define(false, 0b00000110000)
}

/// Read Status Register Group B
pub fn rdstatb() -> (r: Command)
    ensures
        r@ == (false, 0b00000110001u16),
{
    Command::define(false, 0b00000110001)
}

/// Read Status Register Group C
pub fn rdstatc() -> (r: Command)
    ensures
        r@ == (false, 0b00000110010u16),
{
    Command::define(false, 0b00000110010)
}

/// Read Status Register Group C, but with the ERR bit set.
/// This is is basically a self-test that deliberately induces the fault condition.
pub fn rdstatcerr() -> (r: Command)
    ensures
        r@ == (false, 0b00001110010u16),
{
    Command::define(false, 0b00001110010)
}

/// Read Status Register Group D
pub fn rdstatd() -> (r: Command)
    ensures
        r@ == (false, 0b00000110011u16),
{
    Command::define(false, 0b00000110011)
}

/// Read Status Register Group E
pub fn rdstate() -> (r: Command)
    ensures
        r@ == (false, 0b00000110100u16),
{
    Command::define(false, 0b00000110100)
}

} // verus!
