//! Virtual machine for the LC-3 (Little Computer 3) architecture.
//!
//! The LC-3 is a 16-bit educational computer with sixteen opcodes, eight
//! general-purpose registers, a 65,536-word memory, and a small set of
//! memory-mapped I/O registers. This crate loads binary program images and
//! executes them until an explicit halt, with the instruction semantics
//! stated as contracts and machine-checked.

pub mod condcodes;
pub mod decode;
pub mod image;
pub mod io;
pub mod laws;
pub mod lc3;
pub mod memory;
pub mod opcode;
pub mod registers;
pub mod trapcode;

pub use condcodes::CondCodes;
pub use decode::InstructionDecode;
pub use image::ImageFile;
pub use io::{BufferDevice, IoDevice};
pub use lc3::{
    Error, Lc3, INTERRUPT_VECTOR_TABLE_START, MCR_ADDR, OPERATING_SYSTEM_START,
    TRAP_VECTOR_TABLE_START, USER_PROGRAMS_START,
};
pub use memory::Memory;
pub use opcode::OpCode;
pub use registers::{IoDeviceRegister, Reg, Registers};
pub use trapcode::TrapCode;
