//! Mapping for the Command Codes seen in Table 50 of the datasheet (page 57).

use vstd::prelude::*;

use crate::crc::command_pec_of;
use super::pec::CommandPec;

pub mod config;
pub mod cell_voltage;
pub mod avg_cell_voltage;
pub mod s_voltage;
pub mod misc;
pub mod filtered_cell_voltage;
pub mod aux;
pub mod redundant_aux;
pub mod status;
pub mod pwm;
pub mod clear;
pub mod lpcm;
pub mod adc;
pub mod comm;
pub mod retention;
pub mod snapshot;
pub mod discharge;

verus! {

/// CC[10:0] - Command Code. 11-bit field.
///
/// See Table 50 on page 57 of the datasheet.
#[derive(Clone, Copy, Debug, PartialEq, Eq)]
pub struct CommandCode(u16);

impl View for CommandCode {
    type V = u16;

    /// The raw 16 bits; the code is in the low eleven.
    closed spec fn view(&self) -> u16 {
        self.0
    }
}

impl CommandCode {
    /// Wraps raw bits.
    pub fn from_bits(bits: u16) -> (r: CommandCode)
        ensures
            r@ == bits,
    {
        CommandCode(bits)
    }

    /// The raw bits.
    pub fn into_bits(self) -> (r: u16)
        ensures
            r == self@,
    {
        self.0
    }

    /// CC[10:0].
    pub fn code(&self) -> (r: u16)
        ensures
            r == self@ & 0x7FF,
    {
        self.0 & 0x7FF
    }
}

/// CC[10:8] of a command code: the first command byte.
pub open spec fn cmd0_of(code: u16) -> u8 {
    ((code >> 8u16) as u8) & 0x07
}

/// CC[7:0] of a command code: the second command byte.
pub open spec fn cmd1_of(code: u16) -> u8 {
    (code & 0xFF) as u8
}

/// The command PEC of a command code.
pub open spec fn pec_of_code(code: u16) -> u16 {
    command_pec_of(seq![cmd0_of(code), cmd1_of(code)])
}

/// The four bytes that carry a command code on the wire: CMD0, CMD1, PEC0, PEC1.
pub open spec fn frame_bytes_of(code: u16) -> Seq<u8> {
    seq![
        cmd0_of(code),
        cmd1_of(code),
        (pec_of_code(code) >> 8u16) as u8,
        (pec_of_code(code) & 0xFF) as u8,
    ]
}

/// Command code of RSTCC.
pub const RSTCC_CODE: u16 = 0b00000101110;

/// Command code of SRST.
pub const SRST_CODE: u16 = 0b00000100111;

/// ADBMS6830B Command. See Table 50 on page 57 of the datasheet.
#[derive(Clone, Copy, Debug, PartialEq, Eq)]
pub struct Command {
    /// Whether or not the command counter increments for the command. Corresponds to the INC value from Table 50 in the datasheet.
    inc: bool,
    /// The 11-bit CC[10:0] field for the command.
    code: CommandCode,
}

impl View for Command {
    type V = (bool, u16);

    /// Whether the command increments the command counter, and its code bits.
    closed spec fn view(&self) -> (bool, u16) {
        (self.inc, self.code.0)
    }
}

/// A Command Frame (the command code plus its command PEC). This is four bytes total.
#[derive(Clone, Copy, Debug, PartialEq, Eq)]
pub struct CommandFrame {
    command: Command,
    pec: CommandPec,
}

impl View for CommandFrame {
    type V = (bool, u16);

    /// The command the frame carries.
    closed spec fn view(&self) -> (bool, u16) {
        self.command@
    }
}

impl CommandFrame {
    /// Every frame carries the PEC of its own command bytes.
    pub closed spec fn well_formed(self) -> bool {
        self.pec@ == pec_of_code(self.command@.1)
    }

    /// Creates a `CommandFrame` from a `Command`, computing its command PEC.
    pub fn from_command(command: &Command) -> (r: CommandFrame)
        ensures
            r@ == command@,
            r.well_formed(),
    {
        let cmd = [command.cmd0(), command.cmd1()];
        let pec = CommandPec::new(&cmd);
        assert(cmd@ =~= seq![cmd0_of(command@.1), cmd1_of(command@.1)]);
        CommandFrame { command: *command, pec }
    }

    /// The command code (`CC[10:0]`).
    pub fn code(&self) -> (r: CommandCode)
        ensures
            r@ == self@.1,
    {
        self.command.code()
    }

    /// The command PEC.
    pub fn pec(&self) -> (r: CommandPec)
        requires
            self.well_formed(),
        ensures
            r@ == pec_of_code(self@.1),
    {
        self.pec
    }

    /// Converts a `CommandFrame` into bytes.
    pub fn to_bytes(self) -> (r: [u8; 4])
        requires
            self.well_formed(),
        ensures
            r@ == frame_bytes_of(self@.1),
    {
        let code = self.command.code().into_bits();
        let cmd0 = ((code >> 8u16) as u8) & 0x07;
        let cmd1 = (code & 0xFF) as u8;
        let r = [cmd0, cmd1, self.pec.pec0(), self.pec.pec1()];
        assert(r@ =~= frame_bytes_of(self@.1));
        r
    }

    /// Whether or not the command counter increments for this command.
    pub fn increments(&self) -> (r: bool)
        ensures
            r == self@.0,
    {
        self.command.increments()
    }

    /// Whether this command resets the devices' command counters to 0.
    pub fn resets_counter(&self) -> (r: bool)
        ensures
            r == (self@.1 == RSTCC_CODE || self@.1 == SRST_CODE),
    {
        self.command.resets_counter()
    }
}

impl Command {
    /// Allows you to define a command.
    /// ## Prammies
    /// - `inc`: Whether or not the command counter increments for the command. Corresponds to the INC value from Table 50 in the datasheet.
    /// - `code`: The 11-bit CC[10:0] field for the command.
    fn define(inc: bool, code: u16) -> (r: Command)
        ensures
            r@ == (inc, code),
    {
        Command { inc, code: CommandCode(code) }
    }

    /// Returns the 11-bit code associated with this command.
    pub fn code(&self) -> (r: CommandCode)
        ensures
            r@ == self@.1,
    {
        self.code
    }

    /// Returns the CC[10:8] portion of the command code.
    pub fn cmd0(&self) -> (r: u8)
        ensures
            r == cmd0_of(self@.1),
    {
        let code: u16 = self.code().into_bits();
        let cmd0: u8 = ((code >> 8u16) as u8) & 0x07;
        cmd0
    }

    /// Returns the CC[7:0] portion of the command code.
    pub fn cmd1(&self) -> (r: u8)
        ensures
            r == cmd1_of(self@.1),
    {
        let code: u16 = self.code().into_bits();
        let cmd1: u8 = (code & 0xFF) as u8;
        cmd1
    }

    /// Returns whether or not the command counter increments for this command.
    pub fn increments(&self) -> (r: bool)
        ensures
            r == self@.0,
    {
        self.inc
    }

    /// Whether this command resets the devices' command counters to 0.
    ///
    /// RSTCC does it for obvious reasons. SRST does it by putting the devices to sleep. See the "COMMAND COUNTER" section on page 53 of the datasheet.
    pub fn resets_counter(&self) -> (r: bool)
        ensures
            r == (self@.1 == RSTCC_CODE || self@.1 == SRST_CODE),
    {
        let code = self.code.into_bits();
        code == misc::rstcc().code.into_bits() || code == misc::srst().code.into_bits()
    }

    /// Returns this `Command` as a 4-byte command frame.
    pub fn frame(&self) -> (r: CommandFrame)
        ensures
            r@ == self@,
            r.well_formed(),
    {
        CommandFrame::from_command(self)
    }
}

/// The two command bytes of a frame give back the command code, as far as it
/// fits in the eleven bits of CC[10:0].
pub proof fn lemma_command_bytes_roundtrip(code: u16)
    ensures
        ((cmd0_of(code) as u16) << 8u16) | (cmd1_of(code) as u16) == code & 0x7FF,
{
    assert(((((((code >> 8u16) as u8) & 0x07) as u16) << 8u16) | ((code & 0xFF) as u8) as u16)
        == code & 0x7FF) by (bit_vector);
}

} // verus!
