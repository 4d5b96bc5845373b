//! Clear commands.

use vstd::prelude::*;

use super::Command;

verus! {

/// Clear Cell Voltage Register Groups
pub fn clrcell() -> (r: Command)
    ensures
        r@ == (true, 0b11100010001u16),
{
    Command::define(true, 0b11100010001)
}

/// Clear Filtered Cell Voltage Register Groups
pub fn clrfc() -> (r: Command)
    ensures
        r@ == (true, 0b11100010100u16),
{
    Command::define(true, 0b11100010100)
}

/// Clear Auxiliary Register Groups
pub fn clraux() -> (r: Command)
    ensures
        r@ == (true, 0b11100010010u16),
{
    Command::define(true, 0b11100010010)
}

/// Clear S-Voltage Register Groups
pub fn clrspin() -> (r: Command)
    ensures
        r@ == (true, 0b11100010110u16),
{
    Command::define(true, 0b11100010110)
}

/// Clear Flags
pub fn clrflag() -> (r: Command)
    ensures
        r@ == (true, 0b11100010111u16),
{
    Command::define(true, 0b11100010111)
}

/// Clear OVUV
pub fn clovuv() -> (r: Command)
    ensures
        r@ == (true, 0b11100010101u16),
{
    Command::define(true, 0b11100010101)
}

} // verus!
