//! Trap codes of the LC-3 TRAP instruction.

use vstd::prelude::*;

verus! {

/// The trap code encoded in bits [7:0] of `value`, when it lies in the
/// recognized range 0x20 through 0x25.
pub open spec fn trapcode_of(value: u16) -> Option<TrapCode> {
    let code = value & 0xFF;
    if code == 0x20 {
        Some(TrapCode::Getc)
    } else if code == 0x21 {
        Some(TrapCode::Out)
    } else if code == 0x22 {
        Some(TrapCode::Puts)
    } else if code == 0x23 {
        Some(TrapCode::In)
    } else if code == 0x24 {
        Some(TrapCode::PutSp)
    } else if code == 0x25 {
        Some(TrapCode::Halt)
    } else {
        None
    }
}

/// [`Trap`][`crate::OpCode::Trap`] instruction trap codes, encodings 0x20
/// through 0x25 in order.
#[derive(Clone, Copy, PartialEq, Eq, Structural, Debug)]
pub enum TrapCode {
    /// Read a single character from the keyboard into R0 (high byte zero).
    Getc,
    /// Write the character in bits [7:0] of R0 to the console display.
    Out,
    /// Write the NUL-terminated string of one-character-per-word characters
    /// starting at the address in R0 to the console display.
    Puts,
    /// Print a prompt, read a single character from the keyboard, echo it,
    /// and copy it into R0 (high byte zero).
    In,
    /// Write the NUL-terminated packed string (two characters per word, low
    /// byte first) starting at the address in R0 to the console display.
    PutSp,
    /// Halt execution and print a message on the console.
    Halt,
}

impl TrapCode {
    /// [`TrapCode`] from bits [7:0] of a 16-bit value.
    pub fn from_u16(value: u16) -> (r: Option<TrapCode>)
        ensures
            r == trapcode_of(value),
    {
        match value & 0xFF {
            0x20 => Some(TrapCode::Getc),
            0x21 => Some(TrapCode::Out),
            0x22 => Some(TrapCode::Puts),
            0x23 => Some(TrapCode::In),
            0x24 => Some(TrapCode::PutSp),
            0x25 => Some(TrapCode::Halt),
            _ => None,
        }
    }
}

} // verus!
