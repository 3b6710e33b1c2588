//! Instruction decoding: pure bit-slicing of a 16-bit instruction word.
//!
//! Instructions are 16 bits wide. Bits [15:12] specify the [`OpCode`],
//! bits [11:0] provide further information that is needed to execute
//! the instruction.

use vstd::prelude::*;

use crate::condcodes::CondCodes;
use crate::opcode::OpCode;
use crate::registers::{reg_of_bits, Reg};
use crate::trapcode::{trapcode_of, TrapCode};

verus! {

/// The opcode encoded in bits [15:12] of `w`: the sixteen variants
/// correspond one-for-one to the field values 0 through 15.
pub open spec fn opcode_of(w: u16) -> OpCode {
    let v = w >> 12;
    if v == 0 {
        OpCode::Br
    } else if v == 1 {
        OpCode::Add
    } else if v == 2 {
        OpCode::Ld
    } else if v == 3 {
        OpCode::St
    } else if v == 4 {
        OpCode::Jsr
    } else if v == 5 {
        OpCode::And
    } else if v == 6 {
        OpCode::Ldr
    } else if v == 7 {
        OpCode::Str
    } else if v == 8 {
        OpCode::Rti
    } else if v == 9 {
        OpCode::Not
    } else if v == 10 {
        OpCode::Ldi
    } else if v == 11 {
        OpCode::Sti
    } else if v == 12 {
        OpCode::Jmp
    } else if v == 13 {
        OpCode::Res
    } else if v == 14 {
        OpCode::Lea
    } else {
        OpCode::Trap
    }
}

/// The condition-code mask encoded in bits [11:9] of `w`.
pub open spec fn cond_mask(w: u16) -> u16 {
    (w >> 9) & 7
}

/// True iff bit `b` of `w` is set.
pub open spec fn bit_set(w: u16, b: u16) -> bool {
    (w >> b) & 1 == 1
}

/// Two's-complement sign extension of the 5-bit field in bits [4:0] of `w`
/// into a 16-bit word.
pub open spec fn sext5(w: u16) -> u16 {
    let f = w % 32;
    if f < 16 {
        f
    } else {
        (f + 0xFFE0) as u16
    }
}

/// Two's-complement sign extension of the 6-bit field in bits [5:0] of `w`
/// into a 16-bit word.
pub open spec fn sext6(w: u16) -> u16 {
    let f = w % 64;
    if f < 32 {
        f
    } else {
        (f + 0xFFC0) as u16
    }
}

/// Two's-complement sign extension of the 8-bit field in bits [7:0] of `w`
/// into a 16-bit word.
pub open spec fn sext8(w: u16) -> u16 {
    let f = w % 256;
    if f < 128 {
        f
    } else {
        (f + 0xFF00) as u16
    }
}

/// Two's-complement sign extension of the 9-bit field in bits [8:0] of `w`
/// into a 16-bit word.
pub open spec fn sext9(w: u16) -> u16 {
    let f = w % 512;
    if f < 256 {
        f
    } else {
        (f + 0xFE00) as u16
    }
}

/// Two's-complement sign extension of the 11-bit field in bits [10:0] of `w`
/// into a 16-bit word.
pub open spec fn sext11(w: u16) -> u16 {
    let f = w % 2048;
    if f < 1024 {
        f
    } else {
        (f + 0xF800) as u16
    }
}

/// Instruction decoding functions on a 16-bit instruction word.
pub trait InstructionDecode: Sized {
    /// The value [`Self::opcode`] returns.
    spec fn spec_opcode(self) -> OpCode;

    /// The bits [`Self::condcodes`] returns.
    spec fn spec_condcodes(self) -> u16;

    /// The value [`Self::trapcode`] returns.
    spec fn spec_trapcode(self) -> Option<TrapCode>;

    /// The register [`Self::reg1`] returns.
    spec fn spec_reg1(self) -> Reg;

    /// The register [`Self::reg2`] returns.
    spec fn spec_reg2(self) -> Reg;

    /// The register [`Self::reg3`] returns.
    spec fn spec_reg3(self) -> Reg;

    /// The value [`Self::isbitset`] returns.
    spec fn spec_isbitset(self, b: u16) -> bool;

    /// The word [`Self::imm5`] returns.
    spec fn spec_imm5(self) -> u16;

    /// The word [`Self::imm6`] returns.
    spec fn spec_imm6(self) -> u16;

    /// The word [`Self::imm8`] returns.
    spec fn spec_imm8(self) -> u16;

    /// The word [`Self::imm9`] returns.
    spec fn spec_imm9(self) -> u16;

    /// The word [`Self::imm11`] returns.
    spec fn spec_imm11(self) -> u16;

    /// [`OpCode`]; bits [15:12].
    fn opcode(self) -> (r: OpCode)
        ensures
            r == self.spec_opcode(),
    ;

    /// Condition codes; bits [11:9].
    fn condcodes(self) -> (r: CondCodes)
        ensures
            r@ == self.spec_condcodes(),
    ;

    /// Trap code; bits [7:0].
    fn trapcode(self) -> (r: Option<TrapCode>)
        ensures
            r == self.spec_trapcode(),
    ;

    /// A DR/SR register value; bits [11:9].
    fn reg1(self) -> (r: Reg)
        ensures
            r == self.spec_reg1(),
    ;

    /// A BaseR/SR1 register value; bits [8:6].
    fn reg2(self) -> (r: Reg)
        ensures
            r == self.spec_reg2(),
    ;

    /// A SR2 register value; bits [2:0].
    fn reg3(self) -> (r: Reg)
        ensures
            r == self.spec_reg3(),
    ;

    /// Check if the bit `b` is set to 1, starting from 0.
    fn isbitset(self, b: u16) -> (r: bool)
        requires
            b < 16,
        ensures
            r == self.spec_isbitset(b),
    ;

    /// A 5-bit sign-extended immediate value; bits [4:0] of an instruction.
    fn imm5(self) -> (r: u16)
        ensures
            r == self.spec_imm5(),
    ;

    /// A 6-bit sign-extended value; bits [5:0] of an instruction.
    fn imm6(self) -> (r: u16)
        ensures
            r == self.spec_imm6(),
    ;

    /// An 8-bit sign-extended value; bits [7:0] of an instruction.
    fn imm8(self) -> (r: u16)
        ensures
            r == self.spec_imm8(),
    ;

    /// A 9-bit sign-extended value; bits [8:0] of an instruction.
    fn imm9(self) -> (r: u16)
        ensures
            r == self.spec_imm9(),
    ;

    /// An 11-bit sign-extended value; bits [10:0] of an instruction.
    fn imm11(self) -> (r: u16)
        ensures
            r == self.spec_imm11(),
    ;
}

impl InstructionDecode for u16 {
    open spec fn spec_opcode(self) -> OpCode {
        opcode_of(self)
    }

    open spec fn spec_condcodes(self) -> u16 {
        cond_mask(self)
    }

    open spec fn spec_trapcode(self) -> Option<TrapCode> {
        trapcode_of(self)
    }

    open spec fn spec_reg1(self) -> Reg {
        reg_of_bits(self >> 9)
    }

    open spec fn spec_reg2(self) -> Reg {
        reg_of_bits(self >> 6)
    }

    open spec fn spec_reg3(self) -> Reg {
        reg_of_bits(self)
    }

    open spec fn spec_isbitset(self, b: u16) -> bool {
        bit_set(self, b)
    }

    open spec fn spec_imm5(self) -> u16 {
        sext5(self)
    }

    open spec fn spec_imm6(self) -> u16 {
        sext6(self)
    }

    open spec fn spec_imm8(self) -> u16 {
        sext8(self)
    }

    open spec fn spec_imm9(self) -> u16 {
        sext9(self)
    }

    open spec fn spec_imm11(self) -> u16 {
        sext11(self)
    }

    fn opcode(self) -> (r: OpCode) {
        match self >> 12 {
            0 => OpCode::Br,
            1 => OpCode::Add,
            2 => OpCode::Ld,
            3 => OpCode::St,
            4 => OpCode::Jsr,
            5 => OpCode::And,
            6 => OpCode::Ldr,
            7 => OpCode::Str,
            8 => OpCode::Rti,
            9 => OpCode::Not,
            10 => OpCode::Ldi,
            11 => OpCode::Sti,
            12 => OpCode::Jmp,
            13 => OpCode::Res,
            14 => OpCode::Lea,
            _ => OpCode::Trap,
        }
    }

    fn condcodes(self) -> (r: CondCodes) {
        CondCodes::from_u16(self >> 9)
    }

    fn trapcode(self) -> (r: Option<TrapCode>) {
        TrapCode::from_u16(self)
    }

    fn reg1(self) -> (r: Reg) {
        Reg::from_u16(self >> 9)
    }

    fn reg2(self) -> (r: Reg) {
        Reg::from_u16(self >> 6)
    }

    fn reg3(self) -> (r: Reg) {
        Reg::from_u16(self)
    }

    fn isbitset(self, b: u16) -> (r: bool) {
        proof {
            assert(((self >> b) & 1 != 0) == ((self >> b) & 1 == 1)) by (bit_vector);
        }
        (self >> b) & 1 != 0
    }

    fn imm5(self) -> (r: u16) {
        proof {
            assert((if self & 0x0010 == 0 {
                self & 0x000F
            } else {
                self | 0xFFF0
            }) == sext5(self)) by (bit_vector);
        }
        if self & 0x0010 == 0 {
            self & 0x000F
        } else {
            self | 0xFFF0
        }
    }

    fn imm6(self) -> (r: u16) {
        proof {
            assert((if self & 0x0020 == 0 {
                self & 0x001F
            } else {
                self | 0xFFE0
            }) == sext6(self)) by (bit_vector);
        }
        if self & 0x0020 == 0 {
            self & 0x001F
        } else {
            self | 0xFFE0
        }
    }

    fn imm8(self) -> (r: u16) {
        proof {
            assert((if self & 0x0080 == 0 {
                self & 0x00FF
            } else {
                self | 0xFF00
            }) == sext8(self)) by (bit_vector);
        }
        if self & 0x0080 == 0 {
            self & 0x00FF
        } else {
            self | 0xFF00
        }
    }

    fn imm9(self) -> (r: u16) {
        proof {
            assert((if self & 0x0100 == 0 {
                self & 0x01FF
            } else {
                self | 0xFE00
            }) == sext9(self)) by (bit_vector);
        }
        if self & 0x0100 == 0 {
            self & 0x01FF
        } else {
            self | 0xFE00
        }
    }

    fn imm11(self) -> (r: u16) {
        proof {
            assert((if self & 0x0400 == 0 {
                self & 0x03FF
            } else {
                self | 0xFC00
            }) == sext11(self)) by (bit_vector);
        }
        if self & 0x0400 == 0 {
            self & 0x03FF
        } else {
            self | 0xFC00
        }
    }
}

} // verus!
