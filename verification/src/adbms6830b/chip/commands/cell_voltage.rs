//! Cell voltage result commands.

use vstd::prelude::*;

use super::Command;

verus! {

/// Read Cell Voltage Register Group A
pub fn rdcva() -> (r: Command)
    ensures
        r@ == (false, 0b00000000100u16),
{
    Command::define(false, 0b00000000100)
}

/// Read Cell Voltage Register Group B
pub fn rdcvb() -> (r: Command)
    ensures
        r@ == (false, 0b00000000110u16),
{
    Command::define(false, 0b00000000110)
}

/// Read Cell Voltage Register Group C
pub fn rdcvc() -> (r: Command)
    ensures
        r@ == (false, 0b00000001000u16),
{
    Command::define(false, 0b00000001000)
}

/// Read Cell Voltage Register Group D
pub fn rdcvd() -> (r: Command)
    ensures
        r@ == (false, 0b00000001010u16),
{
    Command::define(false, 0b00000001010)
}

/// Read Cell Voltage Register Group E
pub fn rdcve() -> (r: Command)
    ensures
        r@ == (false, 0b00000001001u16),
{
    Command::define(false, 0b00000001001)
}

/// Read Cell Voltage Register Group F
pub fn rdcvf() -> (r: Command)
    ensures
        r@ == (false, 0b00000001011u16),
{
    Command::define(false, 0b00000001011)
}

/// Read All Cell Results
pub fn rdcvall() -> (r: Command)
    ensures
        r@ == (false, 0b00000001100u16),
{
    Command::define(false, 0b00000001100)
}

} // verus!
