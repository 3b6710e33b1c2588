//! The LC-3 register file and the memory-mapped I/O register addresses.

use vstd::prelude::*;

use crate::condcodes::CondCodes;

verus! {

/// Status word with the ready/clock-enable bit (bit 15) set.
pub const STATUS_ACCEPT: u16 = 0x8000;

/// Status word with every bit clear.
pub const STATUS_DECLINE: u16 = 0;

/// General purpose registers of LC-3.
#[derive(Clone, Copy, PartialEq, Eq, Structural, Debug)]
pub enum Reg {
    /// First general-purpose register.
    R0,
    /// Second general-purpose register.
    R1,
    /// Third general-purpose register.
    R2,
    /// Fourth general-purpose register.
    R3,
    /// Fifth general-purpose register.
    R4,
    /// Sixth general-purpose register.
    R5,
    /// Seventh general-purpose register.
    R6,
    /// Eighth and last general-purpose register.
    R7,
}

/// The position of `r` in the register file, 0 through 7.
pub open spec fn reg_num(r: Reg) -> int {
    match r {
        Reg::R0 => 0,
        Reg::R1 => 1,
        Reg::R2 => 2,
        Reg::R3 => 3,
        Reg::R4 => 4,
        Reg::R5 => 5,
        Reg::R6 => 6,
        Reg::R7 => 7,
    }
}

/// The register whose position is `value & 7`.
pub open spec fn reg_of_bits(value: u16) -> Reg {
    let v = value & 7;
    if v == 0 {
        Reg::R0
    } else if v == 1 {
        Reg::R1
    } else if v == 2 {
        Reg::R2
    } else if v == 3 {
        Reg::R3
    } else if v == 4 {
        Reg::R4
    } else if v == 5 {
        Reg::R5
    } else if v == 6 {
        Reg::R6
    } else {
        Reg::R7
    }
}

impl Reg {
    /// [`Reg`] from bits [2:0] of a 16-bit value.
    pub fn from_u16(value: u16) -> (r: Reg)
        ensures
            r == reg_of_bits(value),
    {
        match value & 0x7 {
            0 => Reg::R0,
            1 => Reg::R1,
            2 => Reg::R2,
            3 => Reg::R3,
            4 => Reg::R4,
            5 => Reg::R5,
            6 => Reg::R6,
            _ => Reg::R7,
        }
    }
}

/// The mathematical content of a [`Registers`] value: the eight data
/// registers as a sequence, the program counter, and the condition-code bits.
pub struct RegModel {
    /// The data registers R0 through R7, in order.
    pub data: Seq<u16>,
    /// The program counter.
    pub pc: u16,
    /// The condition-code bits N, Z, P as bits 2, 1, 0.
    pub cc: u16,
}

/// Registers of LC-3: eight data registers, the program counter, and the
/// condition codes. Data registers are read with [`Registers::get`] and
/// written with [`Registers::set`]; neither touches PC or CC.
#[derive(Clone, Copy, PartialEq, Eq, Structural, Debug)]
pub struct Registers {
    /// First general-purpose register.
    pub r0: u16,
    /// Second general-purpose register.
    pub r1: u16,
    /// Third general-purpose register.
    pub r2: u16,
    /// Fourth general-purpose register.
    pub r3: u16,
    /// Fifth general-purpose register.
    pub r4: u16,
    /// Sixth general-purpose register.
    pub r5: u16,
    /// Seventh general-purpose register.
    pub r6: u16,
    /// Eighth and last general-purpose register.
    pub r7: u16,
    /// Program counter register.
    pub pc: u16,
    /// Condition codes register.
    pub cc: CondCodes,
}

impl View for Registers {
    type V = RegModel;

    open spec fn view(&self) -> RegModel {
        RegModel {
            data: seq![self.r0, self.r1, self.r2, self.r3, self.r4, self.r5, self.r6, self.r7],
            pc: self.pc,
            cc: self.cc@,
        }
    }
}

impl Registers {
    /// Initialize a new registers unit: every data register and the program
    /// counter zero, and the condition codes Z.
    pub fn new() -> (r: Registers)
        ensures
            r@.data =~= seq![0u16, 0u16, 0u16, 0u16, 0u16, 0u16, 0u16, 0u16],
            r@.pc == 0,
            r@.cc == 2,
    {
        Registers {
            r0: 0,
            r1: 0,
            r2: 0,
            r3: 0,
            r4: 0,
            r5: 0,
            r6: 0,
            r7: 0,
            pc: 0,
            cc: CondCodes::z_flag(),
        }
    }

    /// Read the data register `r`.
    pub fn get(&self, r: Reg) -> (v: u16)
        ensures
            v == self@.data[reg_num(r)],
    {
        match r {
            Reg::R0 => self.r0,
            Reg::R1 => self.r1,
            Reg::R2 => self.r2,
            Reg::R3 => self.r3,
            Reg::R4 => self.r4,
            Reg::R5 => self.r5,
            Reg::R6 => self.r6,
            Reg::R7 => self.r7,
        }
    }

    /// Write `v` to the data register `r`, leaving every other register, the
    /// program counter, and the condition codes unchanged.
    pub fn set(&mut self, r: Reg, v: u16)
        ensures
            final(self)@.data =~= old(self)@.data.update(reg_num(r), v),
            final(self)@.pc == old(self)@.pc,
            final(self)@.cc == old(self)@.cc,
    {
        match r {
            Reg::R0 => self.r0 = v,
            Reg::R1 => self.r1 = v,
            Reg::R2 => self.r2 = v,
            Reg::R3 => self.r3 = v,
            Reg::R4 => self.r4 = v,
            Reg::R5 => self.r5 = v,
            Reg::R6 => self.r6 = v,
            Reg::R7 => self.r7 = v,
        }
    }
}

/// The addresses of the five memory-mapped I/O registers.
pub open spec fn device_register_of(value: u16) -> Option<IoDeviceRegister> {
    if value == 0xFE00 {
        Some(IoDeviceRegister::Kbsr)
    } else if value == 0xFE02 {
        Some(IoDeviceRegister::Kbdr)
    } else if value == 0xFE04 {
        Some(IoDeviceRegister::Dsr)
    } else if value == 0xFE06 {
        Some(IoDeviceRegister::Ddr)
    } else if value == 0xFFFE {
        Some(IoDeviceRegister::Mcr)
    } else {
        None
    }
}

/// The address at which `r` is mapped.
pub open spec fn device_register_addr(r: IoDeviceRegister) -> u16 {
    match r {
        IoDeviceRegister::Kbsr => 0xFE00,
        IoDeviceRegister::Kbdr => 0xFE02,
        IoDeviceRegister::Dsr => 0xFE04,
        IoDeviceRegister::Ddr => 0xFE06,
        IoDeviceRegister::Mcr => 0xFFFE,
    }
}

/// I/O device registers for memory-mapped I/O.
#[derive(Clone, Copy, PartialEq, Eq, Structural, Debug)]
pub enum IoDeviceRegister {
    /// Keyboard status register.
    Kbsr,
    /// Keyboard data register.
    Kbdr,
    /// Display status register.
    Dsr,
    /// Display data register.
    Ddr,
    /// Machine control register.
    Mcr,
}

impl IoDeviceRegister {
    /// The device register mapped at address `value`, if any.
    pub fn from_u16(value: u16) -> (r: Option<IoDeviceRegister>)
        ensures
            r == device_register_of(value),
    {
        match value {
            0xFE00 => Some(IoDeviceRegister::Kbsr),
            0xFE02 => Some(IoDeviceRegister::Kbdr),
            0xFE04 => Some(IoDeviceRegister::Dsr),
            0xFE06 => Some(IoDeviceRegister::Ddr),
            0xFFFE => Some(IoDeviceRegister::Mcr),
            _ => None,
        }
    }

    /// The address at which this device register is mapped.
    pub fn addr(self) -> (a: u16)
        ensures
            a == device_register_addr(self),
    {
        match self {
            IoDeviceRegister::Kbsr => 0xFE00,
            IoDeviceRegister::Kbdr => 0xFE02,
            IoDeviceRegister::Dsr => 0xFE04,
            IoDeviceRegister::Ddr => 0xFE06,
            IoDeviceRegister::Mcr => 0xFFFE,
        }
    }
}

} // verus!
