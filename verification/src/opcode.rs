//! Instruction opcodes in LC-3.

use vstd::prelude::*;

verus! {

/// Instruction opcodes in LC-3.
///
/// - Arithmetics: [`OpCode::Add`], [`OpCode::And`], [`OpCode::Not`]
/// - Control flow: [`OpCode::Br`], [`OpCode::Jmp`], [`OpCode::Jsr`], [`OpCode::Rti`]
/// - Load data: [`OpCode::Ld`], [`OpCode::Ldi`], [`OpCode::Ldr`], [`OpCode::Lea`]
/// - Store data: [`OpCode::St`], [`OpCode::Str`], [`OpCode::Sti`]
/// - Input/Output: [`OpCode::Trap`]
/// - Reserved: [`OpCode::Res`]
///
/// The variants correspond one-for-one to the encodings 0 through 15 found
/// in bits [15:12] of an instruction word.
#[derive(Clone, Copy, PartialEq, Eq, Structural, Debug)]
pub enum OpCode {
    /// Conditional Branch.
    Br,
    /// Addition.
    Add,
    /// Load.
    Ld,
    /// Store.
    St,
    /// Jump to subroutine.
    Jsr,
    /// Bitwise Logical AND.
    And,
    /// Load Base+Offset.
    Ldr,
    /// Store Base+Offset.
    Str,
    /// Return from Interrupt.
    Rti,
    /// Bitwise Complement.
    Not,
    /// Load Indirect.
    Ldi,
    /// Store Indirect.
    Sti,
    /// Jump, or Return from Subroutine.
    Jmp,
    /// Reserved.
    Res,
    /// Load Effective Address.
    Lea,
    /// System Call.
    Trap,
}

} // verus!
