//! Average cell voltage result commands.

use vstd::prelude::*;

use super::Command;

verus! {

/// Read Averaged Cell Voltage Register Group A
pub fn rdaca() -> (r: Command)
    ensures
        r@ == (false, 0b00001000100u16),
{
    Command::define(false, 0b00001000100)
}

/// Read Averaged Cell Voltage Register Group B
pub fn rdacb() -> (r: Command)
    ensures
        r@ == (false, 0b00001000110u16),
{
    Command::define(false, 0b00001000110)
}

/// Read Averaged Cell Voltage Register Group C
pub fn rdacc() -> (r: Command)
    ensures
        r@ == (false, 0b00001001000u16),
{
    Command::define(false, 0b00001001000)
}

/// Read Averaged Cell Voltage Register Group D
pub fn rdacd() -> (r: Command)
    ensures
        r@ == (false, 0b00001001010u16),
{
    Command::define(false, 0b00001001010)
}

/// Read Averaged Cell Voltage Register Group E
pub fn rdace() -> (r: Command)
    ensures
        r@ == (false, 0b00001001001u16),
{
    Command::define(false, 0b00001001001)
}

/// Read Averaged Cell Voltage Register Group F
pub fn rdacf() -> (r: Command)
    ensures
        r@ == (false, 0b00001001011u16),
{
    Command::define(false, 0b00001001011)
}

/// Read All Avg Cell Results
pub fn rdacall() -> (r: Command)
    ensures
        r@ == (false, 0b00001001100u16),
{
    Command::define(false, 0b00001001100)
}

} // verus!
