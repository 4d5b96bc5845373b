//! Filtered cell voltage result commands.

use vstd::prelude::*;

use super::Command;

verus! {

/// Read Filter Cell Voltage Register Group A
pub fn rdfca() -> (r: Command)
    ensures
        r@ == (false, 0b00000010010u16),
{
    Command::define(false, 0b00000010010)
}

/// Read Filter Cell Voltage Register Group B
pub fn rdfcb() -> (r: Command)
    ensures
        r@ == (false, 0b00000010011u16),
{
    Command::define(false, 0b00000010011)
}

/// Read Filter Cell Voltage Register Group C
pub fn rdfcc() -> (r: Command)
    ensures
        r@ == (false, 0b00000010100u16),
{
    Command::define(false, 0b00000010100)
}

/// Read Filter Cell Voltage Register Group D
pub fn rdfcd() -> (r: Command)
    ensures
        r@ == (false, 0b00000010101u16),
{
    Command::define(false, 0b00000010101)
}

/// Read Filter Cell Voltage Register Group E
pub fn rdfce() -> (r: Command)
    ensures
        r@ == (false, 0b00000010110u16),
{
    Command::define(false, 0b00000010110)
}

/// Read Filter Cell Voltage Register Group F
pub fn rdfcf() -> (r: Command)
    ensures
        r@ == (false, 0b00000010111u16),
{
    Command::define(false, 0b00000010111)
}

/// Read All Filter Cell Results
pub fn rdfcall() -> (r: Command)
    ensures
        r@ == (false, 0b00000011000u16),
{
    Command::define(false, 0b00000011000)
}

} // verus!
