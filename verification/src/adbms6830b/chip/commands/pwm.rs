//! PWM registers commands.

use vstd::prelude::*;

use super::Command;

verus! {

/// Write PWM Register Group A
pub fn wrpwma() -> (r: Command)
    ensures
        r@ == (true, 0b00000100000u16),
{
    Command::define(true, 0b00000100000)
}

/// Read PWM Register Group A
pub fn rdpwma() -> (r: Command)
    ensures
        r@ == (false, 0b00000100010u16),
{
    Command::define(false, 0b00000100010)
}

/// Write PWM Register Group B
pub fn wrpwmb() -> (r: Command)
    ensures
        r@ == (true, 0b00000100001u16),
{
    Command::define(true, 0b00000100001)
}

/// Read PWM Register Group B
pub fn rdpwmb() -> (r: Command)
    ensures
        r@ == (false, 0b00000100011u16),
{
    Command::define(false, 0b00000100011)
}

} // verus!
