//! Low Power Cell Monitoring (LPCM) commands.

use vstd::prelude::*;

use super::Command;

verus! {

/// LPCM Disable
pub fn cmdis() -> (r: Command)
    ensures
        r@ == (true, 0b00001000000u16),
{
    Command::define(true, 0b00001000000)
}

/// LPCM Enable
pub fn cmen() -> (r: Command)
    ensures
        r@ == (true, 0b00001000001u16),
{
    Command::define(true, 0b00001000001)
}

/// LPCM Heartbeat
pub fn cmhb2() -> (r: Command)
    ensures
        r@ == (false, 0b00001000011u16),
{
    Command::define(false, 0b00001000011)
}

/// Write LPCM Configuration Register
pub fn wrcmcfg() -> (r: Command)
    ensures
        r@ == (true, 0b00001011000u16),
{
    Command::define(true, 0b00001011000)
}

/// Read LPCM Configuration Register
pub fn rdcmcfg() -> (r: Command)
    ensures
        r@ == (false, 0b00001011001u16),
{
    Command::define(false, 0b00001011001)
}

/// Write LPCM Cell Threshold
pub fn wrcmcellt() -> (r: Command)
    ensures
        r@ == (true, 0b00001011010u16),
{
    Command::define(true, 0b00001011010)
}

/// Read LPCM Cell Threshold
pub fn rdcmcellt() -> (r: Command)
    ensures
        r@ == (false, 0b00001011011u16),
{
    Command::define(false, 0b00001011011)
}

/// Write LPCM GPIO Threshold
pub fn wrcmgpiot() -> (r: Command)
    ensures
        r@ == (true, 0b00001011100u16),
{
    Command::define(true, 0b00001011100)
}

/// Read LPCM GPIO Threshold
pub fn rdcmgpiot() -> (r: Command)
    ensures
        r@ == (false, 0b00001011101u16),
{
    Command::define(false, 0b00001011101)
}

/// Clear LPCM Flags
pub fn clrcmflag() -> (r: Command)
    ensures
        r@ == (true, 0b00001011110u16),
{
    Command::define(true, 0b00001011110)
}

/// Read LPCM Flags
pub fn rdcmflag() -> (r: Command)
    ensures
        r@ == (false, 0b00001011111u16),
{
    Command::define(false, 0b00001011111)
}

} // verus!
