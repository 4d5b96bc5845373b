//! S voltage result commands.

use vstd::prelude::*;

use super::Command;

verus! {

/// Read S Voltage Register Group A
pub fn rdsva() -> (r: Command)
    ensures
        r@ == (false, 0b00000000011u16),
{
    Command::define(false, 0b00000000011)
}

/// Read S Voltage Register Group B
pub fn rdsvb() -> (r: Command)
    ensures
        r@ == (false, 0b00000000101u16),
{
    Command::define(false, 0b00000000101)
}

/// Read S Voltage Register Group C
pub fn rdsvc() -> (r: Command)
    ensures
        r@ == (false, 0b00000000111u16),
{
    Command::define(false, 0b00000000111)
}

/// Read S Voltage Register Group D
pub fn rdsvd() -> (r: Command)
    ensures
        r@ == (false, 0b00000001101u16),
{
    Command::define(false, 0b00000001101)
}

/// Read S Voltage Register Group E
pub fn rdsve() -> (r: Command)
    ensures
        r@ == (false, 0b00000001110u16),
{
    Command::define(false, 0b00000001110)
}

/// Read S Voltage Register Group F
pub fn rdsvf() -> (r: Command)
    ensures
        r@ == (false, 0b00000001111u16),
{
    Command::define(false, 0b00000001111)
}

/// Read All S Results
pub fn rdsall() -> (r: Command)
    ensures
        r@ == (false, 0b00000010000u16),
{
    Command::define(false, 0b00000010000)
}

} // verus!
