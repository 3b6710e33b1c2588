//! The LC-3 execution engine: instruction fetch, decode, dispatch, the
//! per-opcode semantics, trap handling, and the halt/reset protocol.

use vstd::prelude::*;
use vstd::wrapping::u16_specs;

use crate::condcodes::{signum_bits, CondCodes};
use crate::decode::{
    bit_set, cond_mask, opcode_of, sext11, sext5, sext6, sext8, sext9, InstructionDecode,
};
use crate::image::{load_image_into, load_spec, ImageFile};
use crate::io::IoDevice;
use crate::memory::{mem_read_rel, mem_write_rel, MemModel, Memory};
use crate::opcode::OpCode;
use crate::registers::{device_register_of, reg_num, reg_of_bits, Reg, RegModel, Registers};
use crate::trapcode::{trapcode_of, TrapCode};

verus! {

/// Start of the trap vector table.
pub const TRAP_VECTOR_TABLE_START: u16 = 0x0000;

/// Start of the interrupt vector table.
pub const INTERRUPT_VECTOR_TABLE_START: u16 = 0x0100;

/// Start of the operating-system region.
pub const OPERATING_SYSTEM_START: u16 = 0x0200;

/// Conventional start of user programs.
pub const USER_PROGRAMS_START: u16 = 0x3000;

/// Address of the machine control register.
pub const MCR_ADDR: u16 = 0xFFFE;

/// The mathematical content of an [`Lc3`] value: its register file and its
/// memory unit (backing store plus device streams).
pub struct VmModel {
    /// The register file.
    pub regs: RegModel,
    /// The memory unit and device streams.
    pub mem: MemModel,
}

/// 16-bit addition, wrapping modulo 2^16.
pub open spec fn wadd(a: u16, b: u16) -> u16 {
    u16_specs::wrapping_add(a, b)
}

/// The register file after an instruction writes `v` to the data register
/// `dr`: only that register changes, and the condition codes become the
/// signum of `v`.
pub open spec fn with_reg_cc(r: RegModel, dr: Reg, v: u16) -> RegModel {
    RegModel { data: r.data.update(reg_num(dr), v), cc: signum_bits(v), ..r }
}

/// The machine is halted when the clock-enable bit (bit 15) of the machine
/// control register is clear.
pub open spec fn halted(s: VmModel) -> bool {
    s.mem.words[MCR_ADDR as int] < 0x8000
}

/// The state after `ADD`: DR receives SR1 plus either the sign-extended
/// five-bit immediate or SR2, wrapping; CC is set from the result.
pub open spec fn exec_add(s: VmModel, inst: u16) -> VmModel {
    let a = s.regs.data[reg_num(reg_of_bits(inst >> 6))];
    let b = if bit_set(inst, 5) {
        sext5(inst)
    } else {
        s.regs.data[reg_num(reg_of_bits(inst))]
    };
    VmModel { regs: with_reg_cc(s.regs, reg_of_bits(inst >> 9), wadd(a, b)), ..s }
}

/// The state after `AND`: DR receives SR1 bitwise-and either the
/// sign-extended five-bit immediate or SR2; CC is set from the result.
pub open spec fn exec_and(s: VmModel, inst: u16) -> VmModel {
    let a = s.regs.data[reg_num(reg_of_bits(inst >> 6))];
    let b = if bit_set(inst, 5) {
        sext5(inst)
    } else {
        s.regs.data[reg_num(reg_of_bits(inst))]
    };
    VmModel { regs: with_reg_cc(s.regs, reg_of_bits(inst >> 9), a & b), ..s }
}

/// The state after `NOT`: DR receives the bitwise complement of SR; CC is
/// set from the result.
pub open spec fn exec_not(s: VmModel, inst: u16) -> VmModel {
    let a = s.regs.data[reg_num(reg_of_bits(inst >> 6))];
    VmModel { regs: with_reg_cc(s.regs, reg_of_bits(inst >> 9), !a), ..s }
}

/// The state after `BR`: when the instruction's condition-code mask
/// intersects the current CC, PC moves by the sign-extended nine-bit
/// offset; otherwise nothing changes.
pub open spec fn exec_br(s: VmModel, inst: u16) -> VmModel {
    if s.regs.cc & cond_mask(inst) != 0 {
        VmModel { regs: RegModel { pc: wadd(s.regs.pc, sext9(inst)), ..s.regs }, ..s }
    } else {
        s
    }
}

/// The state after `JMP`: PC receives BaseR.
pub open spec fn exec_jmp(s: VmModel, inst: u16) -> VmModel {
    VmModel {
        regs: RegModel { pc: s.regs.data[reg_num(reg_of_bits(inst >> 6))], ..s.regs },
        ..s
    }
}

/// The state after `JSR`: R7 receives the incremented PC first; then PC
/// moves by the sign-extended eleven-bit offset (bit 11 set) or receives
/// BaseR — read after the R7 write, so `JSRR R7` jumps to the saved PC.
pub open spec fn exec_jsr(s: VmModel, inst: u16) -> VmModel {
    let data = s.regs.data.update(7, s.regs.pc);
    let pc = if bit_set(inst, 11) {
        wadd(s.regs.pc, sext11(inst))
    } else {
        data[reg_num(reg_of_bits(inst >> 6))]
    };
    VmModel { regs: RegModel { data, pc, cc: s.regs.cc }, ..s }
}

/// The state after `LEA`: DR receives PC plus the sign-extended nine-bit
/// offset, wrapping; CC is set from the result.
pub open spec fn exec_lea(s: VmModel, inst: u16) -> VmModel {
    VmModel {
        regs: with_reg_cc(s.regs, reg_of_bits(inst >> 9), wadd(s.regs.pc, sext9(inst))),
        ..s
    }
}

/// How `LD` takes the machine from `s` (instruction fetched, PC already
/// incremented) to `post`: DR receives the word read at PC plus the
/// sign-extended nine-bit offset, CC is set from it; the read may consume
/// device input when it lands on KBDR.
pub open spec fn ld_rel(s: VmModel, inst: u16, post: VmModel) -> bool {
    exists|v: u16|
        #[trigger] mem_read_rel(s.mem, wadd(s.regs.pc, sext9(inst)), v, post.mem)
            && post.regs == with_reg_cc(s.regs, reg_of_bits(inst >> 9), v)
}

/// How `LDI` takes the machine from `s` to `post`: one read at PC plus the
/// sign-extended nine-bit offset yields the address of a second read, whose
/// value lands in DR; CC is set from it.
pub open spec fn ldi_rel(s: VmModel, inst: u16, post: VmModel) -> bool {
    exists|a: u16, m1: MemModel, v: u16|
        #![trigger mem_read_rel(s.mem, wadd(s.regs.pc, sext9(inst)), a, m1), mem_read_rel(m1, a, v, post.mem)]
        mem_read_rel(s.mem, wadd(s.regs.pc, sext9(inst)), a, m1) && mem_read_rel(
            m1,
            a,
            v,
            post.mem,
        ) && post.regs == with_reg_cc(s.regs, reg_of_bits(inst >> 9), v)
}

/// How `LDR` takes the machine from `s` to `post`: DR receives the word
/// read at BaseR plus the sign-extended six-bit offset; CC is set from it.
pub open spec fn ldr_rel(s: VmModel, inst: u16, post: VmModel) -> bool {
    exists|v: u16|
        #[trigger] mem_read_rel(
            s.mem,
            wadd(s.regs.data[reg_num(reg_of_bits(inst >> 6))], sext6(inst)),
            v,
            post.mem,
        ) && post.regs == with_reg_cc(s.regs, reg_of_bits(inst >> 9), v)
}

/// How `ST` takes the machine from `s` to `post`: SR is written at PC plus
/// the sign-extended nine-bit offset; no register changes.
pub open spec fn st_rel(s: VmModel, inst: u16, post: VmModel) -> bool {
    post.regs == s.regs && mem_write_rel(
        s.mem,
        wadd(s.regs.pc, sext9(inst)),
        s.regs.data[reg_num(reg_of_bits(inst >> 9))],
        post.mem,
    )
}

/// How `STI` takes the machine from `s` to `post`: one read at PC plus the
/// sign-extended nine-bit offset yields the address at which SR is written;
/// no register changes.
pub open spec fn sti_rel(s: VmModel, inst: u16, post: VmModel) -> bool {
    exists|a: u16, m1: MemModel|
        #![trigger mem_read_rel(s.mem, wadd(s.regs.pc, sext9(inst)), a, m1)]
        mem_read_rel(s.mem, wadd(s.regs.pc, sext9(inst)), a, m1) && post.regs == s.regs
            && mem_write_rel(m1, a, s.regs.data[reg_num(reg_of_bits(inst >> 9))], post.mem)
}

/// How `STR` takes the machine from `s` to `post`: SR is written at BaseR
/// plus the sign-extended six-bit offset; no register changes.
pub open spec fn str_rel(s: VmModel, inst: u16, post: VmModel) -> bool {
    post.regs == s.regs && mem_write_rel(
        s.mem,
        wadd(s.regs.data[reg_num(reg_of_bits(inst >> 6))], sext6(inst)),
        s.regs.data[reg_num(reg_of_bits(inst >> 9))],
        post.mem,
    )
}

/// How `TRAP` in hardware mode takes the machine from `s` to `post`: R7
/// receives the incremented PC, and PC receives the word read at the
/// sign-extended trap vector.
pub open spec fn trap_hw_rel(s: VmModel, inst: u16, post: VmModel) -> bool {
    exists|v: u16|
        #[trigger] mem_read_rel(s.mem, sext8(inst), v, post.mem) && post.regs == (RegModel {
            data: s.regs.data.update(7, s.regs.pc),
            pc: v,
            cc: s.regs.cc,
        })
}

/// The words starting at address `sp`, up to but not including the first
/// zero word or the end of memory, each contributing its low byte: what
/// the PUTS trap writes.
pub open spec fn puts_bytes(words: Seq<u16>, sp: int) -> Seq<u8>
    decreases 0x10000 - sp,
{
    if sp < 0 || sp >= 0x10000 {
        Seq::empty()
    } else if words[sp] == 0 {
        Seq::empty()
    } else {
        seq![(words[sp] % 256) as u8] + puts_bytes(words, sp + 1)
    }
}

/// The PUTS walk from `sp` stays in ordinary memory: a zero terminator
/// word stands before the memory-mapped I/O region begins at 0xFE00. Only
/// then do the trap's reads, which go through the overlay, see plain
/// words and leave the device input alone.
pub open spec fn puts_clean(words: Seq<u16>, sp: int) -> bool
    decreases 0xFE00 - sp,
{
    if sp < 0 || sp >= 0xFE00 {
        false
    } else if words[sp] == 0 {
        true
    } else {
        puts_clean(words, sp + 1)
    }
}

/// The packed bytes starting at address `sp` — low byte of each word first,
/// then its high byte — up to but not including the first NUL byte, and
/// stopping at the end of memory: what the PUTSP trap writes. The
/// terminator is a NUL byte, not a NUL word: a word whose low byte is zero
/// ends the string even when its high byte is not.
pub open spec fn putsp_bytes(words: Seq<u16>, sp: int) -> Seq<u8>
    decreases 0x10000 - sp,
{
    if sp < 0 || sp >= 0x10000 {
        Seq::empty()
    } else {
        let lo = (words[sp] % 256) as u8;
        let hi = (words[sp] / 256) as u8;
        if lo == 0 {
            Seq::empty()
        } else if hi == 0 {
            seq![lo]
        } else {
            seq![lo, hi] + putsp_bytes(words, sp + 1)
        }
    }
}

/// The bytes of the diagnostic written when an unrecognized trap code is
/// executed in virtual trap mode.
pub open spec fn undefined_trap_message() -> Seq<u8> {
    seq![
        85u8, 78u8, 68u8, 69u8, 70u8, 73u8, 78u8, 69u8, 68u8, 32u8, 84u8, 82u8, 65u8, 80u8,
        32u8, 69u8, 88u8, 69u8, 67u8, 85u8, 84u8, 69u8, 68u8,
    ]
}

/// The bytes of the prompt the IN trap writes.
pub open spec fn prompt_message() -> Seq<u8> {
    seq![
        69u8, 110u8, 116u8, 101u8, 114u8, 32u8, 97u8, 32u8, 99u8, 104u8, 97u8, 114u8, 97u8,
        99u8, 116u8, 101u8, 114u8, 58u8, 32u8,
    ]
}

/// The bytes of the message the HALT trap writes.
pub open spec fn halt_message() -> Seq<u8> {
    seq![72u8, 65u8, 76u8, 84u8, 10u8]
}

/// How a device write of `bytes` takes the memory from `pre` to `post`: no
/// word and no input changes; on success the whole of `bytes` is appended
/// to the output, on failure some prefix of it.
pub open spec fn wrote(pre: MemModel, post: MemModel, bytes: Seq<u8>, ok: bool) -> bool {
    &&& post.words == pre.words
    &&& post.input == pre.input
    &&& post.reliable == pre.reliable
    &&& if ok {
        post.output == pre.output + bytes
    } else {
        exists|k: int|
            0 <= k <= bytes.len() && post.output == pre.output + #[trigger] bytes.subrange(0, k)
    }
}

/// Summary of how one instruction step ended: it completed, the I/O device
/// failed, or the instruction was RTI or the reserved opcode.
pub enum StepOutcome {
    /// The instruction completed.
    Completed,
    /// A device error was surfaced.
    DeviceFailed,
    /// RTI or the reserved opcode was executed.
    Unsupported,
}

/// The [`StepOutcome`] that a step returning `r` reports.
pub open spec fn outcome_of<E>(r: Result<(), Error<E>>) -> StepOutcome {
    match r {
        Ok(_) => StepOutcome::Completed,
        Err(Error::Io(_)) => StepOutcome::DeviceFailed,
        Err(_) => StepOutcome::Unsupported,
    }
}

/// How `TRAP` in virtual (emulated) mode takes the machine from `s`
/// (instruction fetched, PC already incremented) to `post`, ending with
/// outcome `oc`. R7 receives the incremented PC first, whatever follows.
pub open spec fn trap_virt_rel(s: VmModel, inst: u16, post: VmModel, oc: StepOutcome) -> bool {
    let s1 = VmModel {
        regs: RegModel { data: s.regs.data.update(7, s.regs.pc), ..s.regs },
        ..s
    };
    match trapcode_of(inst) {
        None => {
            &&& oc != StepOutcome::Unsupported
            &&& post.regs == s1.regs
            &&& wrote(s1.mem, post.mem, undefined_trap_message(), oc == StepOutcome::Completed)
        },
        Some(TrapCode::Getc) => {
            &&& post.mem.words == s1.mem.words
            &&& post.mem.output == s1.mem.output
            &&& post.mem.reliable == s1.mem.reliable
            &&& match oc {
                StepOutcome::Completed => if s1.mem.input.len() > 0 {
                    post.mem.input == s1.mem.input.skip(1) && post.regs == with_reg_cc(
                        s1.regs,
                        Reg::R0,
                        s1.mem.input[0] as u16,
                    )
                } else {
                    post.mem.input == s1.mem.input && post.regs == with_reg_cc(
                        s1.regs,
                        Reg::R0,
                        0u16,
                    )
                },
                StepOutcome::DeviceFailed => post.mem.input == s1.mem.input && post.regs
                    == s1.regs,
                StepOutcome::Unsupported => false,
            }
        },
        Some(TrapCode::Out) => {
            &&& oc != StepOutcome::Unsupported
            &&& post.regs == s1.regs
            &&& wrote(
                s1.mem,
                post.mem,
                seq![(s1.regs.data[0] % 256) as u8],
                oc == StepOutcome::Completed,
            )
        },
        Some(TrapCode::Puts) => {
            let sp0 = s1.regs.data[0] as int;
            &&& oc != StepOutcome::Unsupported
            &&& post.regs == s1.regs
            &&& if puts_clean(s1.mem.words, sp0) {
                wrote(s1.mem, post.mem, puts_bytes(s1.mem.words, sp0), oc
                    == StepOutcome::Completed)
            } else {
                // The string runs into the memory-mapped region: its reads
                // go through the overlay, so they may consume input, and
                // what they yield is what gets written.
                &&& post.mem.words == s1.mem.words
                &&& post.mem.reliable == s1.mem.reliable
                &&& post.mem.input.is_suffix_of(s1.mem.input)
                &&& s1.mem.output.is_prefix_of(post.mem.output)
            }
        },
        Some(TrapCode::In) => {
            match oc {
                StepOutcome::Completed => {
                    let b = if s1.mem.input.len() > 0 {
                        s1.mem.input[0]
                    } else {
                        0u8
                    };
                    &&& post.mem.words == s1.mem.words
                    &&& post.mem.reliable == s1.mem.reliable
                    &&& post.mem.input == if s1.mem.input.len() > 0 {
                        s1.mem.input.skip(1)
                    } else {
                        s1.mem.input
                    }
                    &&& post.mem.output == s1.mem.output + prompt_message() + seq![b]
                    &&& post.regs == (RegModel { data: s1.regs.data.update(0, b as u16), ..s1.regs })
                },
                StepOutcome::DeviceFailed => {
                    &&& post.mem.words == s1.mem.words
                    &&& post.mem.reliable == s1.mem.reliable
                    &&& post.regs == s1.regs
                    &&& (post.mem.input == s1.mem.input || (s1.mem.input.len() > 0
                        && post.mem.input == s1.mem.input.skip(1)))
                    &&& exists|bs: Seq<u8>|
                        post.mem.output == s1.mem.output + bs && bs.len() <= prompt_message().len()
                            + 1
                },
                StepOutcome::Unsupported => false,
            }
        },
        Some(TrapCode::PutSp) => {
            &&& oc != StepOutcome::Unsupported
            &&& post.regs == s1.regs
            &&& wrote(
                s1.mem,
                post.mem,
                putsp_bytes(s1.mem.words, s1.regs.data[0] as int),
                oc == StepOutcome::Completed,
            )
        },
        Some(TrapCode::Halt) => {
            match oc {
                StepOutcome::Completed => {
                    &&& post.regs == s1.regs
                    &&& post.mem.words == s1.mem.words.update(MCR_ADDR as int, 0u16)
                    &&& post.mem.input == s1.mem.input
                    &&& post.mem.output == s1.mem.output + halt_message()
                    &&& post.mem.reliable == s1.mem.reliable
                },
                StepOutcome::DeviceFailed => {
                    &&& post.regs == s1.regs
                    &&& wrote(s1.mem, post.mem, halt_message(), false)
                },
                StepOutcome::Unsupported => false,
            }
        },
    }
}

/// How executing the already-fetched instruction `inst` takes the machine
/// from `s` (PC already incremented past the instruction) to `post`, ending
/// with outcome `oc`. `virt` selects virtual trap mode.
pub open spec fn inst_rel(s: VmModel, inst: u16, virt: bool, post: VmModel, oc: StepOutcome) -> bool {
    match opcode_of(inst) {
        OpCode::Add => oc == StepOutcome::Completed && post == exec_add(s, inst),
        OpCode::And => oc == StepOutcome::Completed && post == exec_and(s, inst),
        OpCode::Not => oc == StepOutcome::Completed && post == exec_not(s, inst),
        OpCode::Br => oc == StepOutcome::Completed && post == exec_br(s, inst),
        OpCode::Jmp => oc == StepOutcome::Completed && post == exec_jmp(s, inst),
        OpCode::Jsr => oc == StepOutcome::Completed && post == exec_jsr(s, inst),
        OpCode::Lea => oc == StepOutcome::Completed && post == exec_lea(s, inst),
        OpCode::Ld => oc == StepOutcome::Completed && ld_rel(s, inst, post),
        OpCode::Ldi => oc == StepOutcome::Completed && ldi_rel(s, inst, post),
        OpCode::Ldr => oc == StepOutcome::Completed && ldr_rel(s, inst, post),
        OpCode::St => oc == StepOutcome::Completed && st_rel(s, inst, post),
        OpCode::Sti => oc == StepOutcome::Completed && sti_rel(s, inst, post),
        OpCode::Str => oc == StepOutcome::Completed && str_rel(s, inst, post),
        OpCode::Trap => if virt {
            trap_virt_rel(s, inst, post, oc)
        } else {
            oc == StepOutcome::Completed && trap_hw_rel(s, inst, post)
        },
        OpCode::Rti => oc == StepOutcome::Unsupported && post == s,
        OpCode::Res => oc == StepOutcome::Unsupported && post == s,
    }
}

/// How one whole instruction step takes the machine from `pre` to `post`,
/// ending with outcome `oc`: the instruction is fetched by a memory read at
/// PC (side-effecting if PC sits on KBDR), PC is incremented by exactly one
/// before the instruction's effects, and the instruction executes as
/// [`inst_rel`] says.
pub open spec fn step_rel(pre: VmModel, virt: bool, post: VmModel, oc: StepOutcome) -> bool {
    exists|inst: u16, m1: MemModel|
        #![trigger mem_read_rel(pre.mem, pre.regs.pc, inst, m1)]
        mem_read_rel(pre.mem, pre.regs.pc, inst, m1) && inst_rel(
            VmModel { regs: RegModel { pc: wadd(pre.regs.pc, 1), ..pre.regs }, mem: m1 },
            inst,
            virt,
            post,
            oc,
        )
}

/// `trace` is a chain of states each of which steps to the next, every
/// step completing normally and none taken from a halted state: the
/// machine checks the halt protocol between instructions, so no
/// instruction ever executes out of a halted state.
pub open spec fn live_steps(virt: bool, trace: Seq<VmModel>) -> bool {
    forall|i: int| #![trigger trace[i]]
        0 <= i < trace.len() - 1 ==> !halted(trace[i]) && step_rel(
            trace[i],
            virt,
            trace[i + 1],
            StepOutcome::Completed,
        )
}

/// `post` is the state after exactly `n` instruction steps from `pre`,
/// each completing normally and none taken from a halted state.
pub open spec fn runs_n(pre: VmModel, virt: bool, post: VmModel, n: int) -> bool {
    exists|trace: Seq<VmModel>|
        trace.len() == n + 1 && trace.first() == pre && trace.last() == post
            && #[trigger] live_steps(virt, trace)
}

/// `post` can be reached from `pre` by zero or more instruction steps,
/// each completing normally and none taken from a halted state.
pub open spec fn reaches(pre: VmModel, virt: bool, post: VmModel) -> bool {
    exists|n: int| 0 <= n && #[trigger] runs_n(pre, virt, post, n)
}

/// Every state is the result of a zero-step run from itself.
pub proof fn lemma_runs_refl(s: VmModel, virt: bool)
    ensures
        runs_n(s, virt, s, 0),
{
    let trace = seq![s];
    assert(trace.len() == 1 && trace.first() == s && trace.last() == s);
    assert(live_steps(virt, trace));
}

/// A run extends by one completed step taken from a non-halted state.
pub proof fn lemma_runs_step(s0: VmModel, virt: bool, s1: VmModel, s2: VmModel, n: int)
    requires
        0 <= n,
        runs_n(s0, virt, s1, n),
        !halted(s1),
        step_rel(s1, virt, s2, StepOutcome::Completed),
    ensures
        runs_n(s0, virt, s2, n + 1),
{
    let trace = choose|trace: Seq<VmModel>|
        trace.len() == n + 1 && trace.first() == s0 && trace.last() == s1
            && #[trigger] live_steps(virt, trace);
    let t2 = trace.push(s2);
    assert(t2.len() == n + 2 && t2.first() == s0 && t2.last() == s2);
    assert forall|i: int| #![trigger t2[i]] 0 <= i < t2.len() - 1 implies !halted(t2[i])
        && step_rel(t2[i], virt, t2[i + 1], StepOutcome::Completed) by {
        if i < trace.len() - 1 {
            assert(!halted(trace[i]) && step_rel(trace[i], virt, trace[i + 1],
            StepOutcome::Completed));
        } else {
            assert(t2[i] == s1 && t2[i + 1] == s2);
        }
    }
    assert(live_steps(virt, t2));
}

/// An `n`-step run is a run.
pub proof fn lemma_runs_reaches(pre: VmModel, virt: bool, post: VmModel, n: int)
    requires
        0 <= n,
        runs_n(pre, virt, post, n),
    ensures
        reaches(pre, virt, post),
{
}

/// The state from which a run begun at `addr` executes its first
/// instruction: the machine control register holds 0x8000 and PC holds
/// `addr`; nothing else has changed.
pub open spec fn run_start(s: VmModel, addr: u16) -> VmModel {
    VmModel {
        regs: RegModel { pc: addr, ..s.regs },
        mem: MemModel { words: s.mem.words.update(MCR_ADDR as int, 0x8000u16), ..s.mem },
    }
}

/// What a run that began at `run_start(s0, addr)` and returned `r`
/// guarantees about the final state `post`. On success the machine
/// executed some number of instructions from the start state — each
/// completing, none from a halted state — and `post` is halted. The step
/// limit is reported only when exactly 2^64 - 1 instructions were
/// executed and the machine is still not halted. On any other error the
/// machine ran to some non-halted state from which one more step failed
/// as `r` says.
pub open spec fn run_post<E>(
    s0: VmModel,
    addr: u16,
    virt: bool,
    post: VmModel,
    r: Result<(), Error<E>>,
) -> bool {
    let start = run_start(s0, addr);
    match r {
        Ok(_) => reaches(start, virt, post) && halted(post),
        Err(Error::StepLimit) => runs_n(start, virt, post, u64::MAX as int) && !halted(post),
        Err(_) => exists|s_mid: VmModel|
            #[trigger] reaches(start, virt, s_mid) && !halted(s_mid) && step_rel(
                s_mid,
                virt,
                post,
                outcome_of(r),
            ),
    }
}

/// A device-input stream shrinks only from the front: taking at most one
/// more byte off a suffix of the original stream leaves a suffix of it.
proof fn lemma_suffix_step(orig: Seq<u8>, mid: Seq<u8>, cur: Seq<u8>)
    requires
        mid.is_suffix_of(orig),
        cur == mid || (mid.len() > 0 && cur == mid.skip(1)),
    ensures
        cur.is_suffix_of(orig),
{
    if cur != mid {
        assert(cur =~= orig.subrange(orig.len() - cur.len(), orig.len() as int));
    }
}

/// The bytes of [`undefined_trap_message`], as a value.
fn undefined_trap_text() -> (v: Vec<u8>)
    ensures
        v@ == undefined_trap_message(),
{
    let mut v: Vec<u8> = Vec::new();
    v.push(85);
    v.push(78);
    v.push(68);
    v.push(69);
    v.push(70);
    v.push(73);
    v.push(78);
    v.push(69);
    v.push(68);
    v.push(32);
    v.push(84);
    v.push(82);
    v.push(65);
    v.push(80);
    v.push(32);
    v.push(69);
    v.push(88);
    v.push(69);
    v.push(67);
    v.push(85);
    v.push(84);
    v.push(69);
    v.push(68);
    proof {
        assert(v@ =~= undefined_trap_message());
    }
    v
}

/// The bytes of [`prompt_message`], as a value.
fn prompt_text() -> (v: Vec<u8>)
    ensures
        v@ == prompt_message(),
{
    let mut v: Vec<u8> = Vec::new();
    v.push(69);
    v.push(110);
    v.push(116);
    v.push(101);
    v.push(114);
    v.push(32);
    v.push(97);
    v.push(32);
    v.push(99);
    v.push(104);
    v.push(97);
    v.push(114);
    v.push(97);
    v.push(99);
    v.push(116);
    v.push(101);
    v.push(114);
    v.push(58);
    v.push(32);
    proof {
        assert(v@ =~= prompt_message());
    }
    v
}

/// The bytes of [`halt_message`], as a value.
fn halt_text() -> (v: Vec<u8>)
    ensures
        v@ == halt_message(),
{
    let mut v: Vec<u8> = Vec::new();
    v.push(72);
    v.push(65);
    v.push(76);
    v.push(84);
    v.push(10);
    proof {
        assert(v@ =~= halt_message());
    }
    v
}

/// LC-3 virtual machine: the register file and the memory unit with its
/// attached I/O device.
pub struct Lc3<IO: IoDevice> {
    /// The register file.
    pub registers: Registers,
    /// The memory unit.
    pub memory: Memory<IO>,
}

/// Error type for [`Lc3`] functions.
#[derive(Clone, Copy, PartialEq, Eq, Debug)]
pub enum Error<IO> {
    /// A device I/O error, surfaced unchanged.
    Io(IO),
    /// RTI or the reserved opcode was executed.
    OpCodeNotImplemented,
    /// A run executed 2^64 - 1 instructions without reaching a halt and
    /// gave up. A single step never reports this.
    StepLimit,
}

impl<IO: IoDevice> View for Lc3<IO> {
    type V = VmModel;

    open spec fn view(&self) -> VmModel {
        VmModel { regs: self.registers@, mem: self.memory@ }
    }
}

impl<IO: IoDevice> Lc3<IO> {
    /// The memory unit always holds one word per 16-bit address.
    pub open spec fn wf(&self) -> bool {
        self.memory.wf()
    }

    /// Initialize a new LC-3 virtual machine with an [`IoDevice`]: all
    /// registers zero, CC = Z, every memory word zero, and the device's
    /// streams attached.
    pub fn new(iodevice: IO) -> (vm: Lc3<IO>)
        ensures
            vm.wf(),
            vm@.regs.data =~= seq![0u16, 0u16, 0u16, 0u16, 0u16, 0u16, 0u16, 0u16],
            vm@.regs.pc == 0,
            vm@.regs.cc == 2,
            forall|a: int| 0 <= a < 0x10000 ==> vm@.mem.words[a] == 0u16,
            vm@.mem.input == iodevice.input(),
            vm@.mem.output == iodevice.output(),
    {
        Lc3 { registers: Registers::new(), memory: Memory::new(iodevice) }
    }

    /// Run at [`USER_PROGRAMS_START`] until [`Lc3::should_halt`] returns
    /// true, with the trap vector table in memory.
    pub fn run(&mut self) -> (r: Result<(), Error<IO::Error>>)
        requires
            old(self).wf(),
        ensures
            final(self).wf(),
            run_post(old(self)@, USER_PROGRAMS_START, false, final(self)@, r),
            old(self)@.mem.reliable ==> !(r matches Err(Error::Io(_))),
    {
        self.run_at(USER_PROGRAMS_START)
    }

    /// Run at `addr` until [`Lc3::should_halt`] returns true, with the trap
    /// vector table in memory.
    pub fn run_at(&mut self, addr: u16) -> (r: Result<(), Error<IO::Error>>)
        requires
            old(self).wf(),
        ensures
            final(self).wf(),
            run_post(old(self)@, addr, false, final(self)@, r),
            old(self)@.mem.reliable ==> !(r matches Err(Error::Io(_))),
    {
        self.run_common::<false>(addr)
    }

    /// Run at [`USER_PROGRAMS_START`] with traps emulated until
    /// [`Lc3::should_halt`] returns true.
    pub fn run_with_virtual_trap_vector_table(&mut self) -> (r: Result<(), Error<IO::Error>>)
        requires
            old(self).wf(),
        ensures
            final(self).wf(),
            run_post(old(self)@, USER_PROGRAMS_START, true, final(self)@, r),
            old(self)@.mem.reliable ==> !(r matches Err(Error::Io(_))),
    {
        self.run_with_virtual_trap_vector_table_at(USER_PROGRAMS_START)
    }

    /// Run at `addr` with traps emulated until [`Lc3::should_halt`]
    /// returns true.
    pub fn run_with_virtual_trap_vector_table_at(&mut self, addr: u16) -> (r: Result<
        (),
        Error<IO::Error>,
    >)
        requires
            old(self).wf(),
        ensures
            final(self).wf(),
            run_post(old(self)@, addr, true, final(self)@, r),
            old(self)@.mem.reliable ==> !(r matches Err(Error::Io(_))),
    {
        self.run_common::<true>(addr)
    }

    fn run_common<const VIRT_TVT: bool>(&mut self, addr: u16) -> (r: Result<
        (),
        Error<IO::Error>,
    >)
        requires
            old(self).wf(),
        ensures
            final(self).wf(),
            run_post(old(self)@, addr, VIRT_TVT, final(self)@, r),
            old(self)@.mem.reliable ==> !(r matches Err(Error::Io(_))),
    {
        self.reset();
        self.registers.pc = addr;
        let ghost s_start = self@;
        proof {
            assert(s_start == run_start(old(self)@, addr));
            lemma_runs_refl(s_start, VIRT_TVT);
        }
        let mut steps: u64 = 0;
        loop
            invariant
                self.wf(),
                s_start == run_start(old(self)@, addr),
                self@.mem.reliable == old(self)@.mem.reliable,
                runs_n(s_start, VIRT_TVT, self@, steps as int),
            decreases u64::MAX - steps,
        {
            if self.should_halt() {
                proof {
                    lemma_runs_reaches(s_start, VIRT_TVT, self@, steps as int);
                }
                return Ok(());
            }
            if steps == u64::MAX {
                return Err(Error::StepLimit);
            }
            let ghost s_pre = self@;
            let res = self.next_instruction_common::<VIRT_TVT>();
            match res {
                Ok(()) => {
                    proof {
                        lemma_runs_step(s_start, VIRT_TVT, s_pre, self@, steps as int);
                    }
                },
                Err(e) => {
                    proof {
                        lemma_runs_reaches(s_start, VIRT_TVT, s_pre, steps as int);
                    }
                    return Err(e);
                },
            }
            steps = steps + 1;
        }
    }

    /// Execute the next instruction, with the trap vector table in memory.
    pub fn next_instruction(&mut self) -> (r: Result<(), Error<IO::Error>>)
        requires
            old(self).wf(),
        ensures
            final(self).wf(),
            step_rel(old(self)@, false, final(self)@, outcome_of(r)),
            !(r matches Err(Error::StepLimit)),
            final(self)@.mem.reliable == old(self)@.mem.reliable,
            old(self)@.mem.reliable ==> !(r matches Err(Error::Io(_))),
    {
        self.next_instruction_common::<false>()
    }

    /// Execute the next instruction with the trap emulated.
    pub fn next_instruction_with_virtual_trap_vector_table(&mut self) -> (r: Result<
        (),
        Error<IO::Error>,
    >)
        requires
            old(self).wf(),
        ensures
            final(self).wf(),
            step_rel(old(self)@, true, final(self)@, outcome_of(r)),
            !(r matches Err(Error::StepLimit)),
            final(self)@.mem.reliable == old(self)@.mem.reliable,
            old(self)@.mem.reliable ==> !(r matches Err(Error::Io(_))),
    {
        self.next_instruction_common::<true>()
    }

    fn next_instruction_common<const VIRT_TVT: bool>(&mut self) -> (r: Result<
        (),
        Error<IO::Error>,
    >)
        requires
            old(self).wf(),
        ensures
            final(self).wf(),
            step_rel(old(self)@, VIRT_TVT, final(self)@, outcome_of(r)),
            !(r matches Err(Error::StepLimit)),
            final(self)@.mem.reliable == old(self)@.mem.reliable,
            old(self)@.mem.reliable ==> !(r matches Err(Error::Io(_))),
    {
        let inst = self.memory.read(self.registers.pc);
        self.registers.pc = self.registers.pc.wrapping_add(1);
        let ghost s1 = self@;
        proof {
            assert(mem_read_rel(old(self)@.mem, old(self)@.regs.pc, inst, s1.mem));
            assert(s1 == (VmModel {
                regs: RegModel { pc: wadd(old(self)@.regs.pc, 1), ..old(self)@.regs },
                mem: s1.mem,
            }));
        }

        let r: Result<(), Error<IO::Error>> = match inst.opcode() {
            OpCode::Add => {
                self.add(inst);
                Ok(())
            },
            OpCode::And => {
                self.and(inst);
                Ok(())
            },
            OpCode::Not => {
                self.not(inst);
                Ok(())
            },
            OpCode::Br => {
                self.br(inst);
                Ok(())
            },
            OpCode::Jmp => {
                self.jmp(inst);
                Ok(())
            },
            OpCode::Jsr => {
                self.jsr(inst);
                Ok(())
            },
            OpCode::Ld => {
                self.ld(inst);
                Ok(())
            },
            OpCode::Ldi => {
                self.ldi(inst);
                Ok(())
            },
            OpCode::Ldr => {
                self.ldr(inst);
                Ok(())
            },
            OpCode::Lea => {
                self.lea(inst);
                Ok(())
            },
            OpCode::St => {
                self.st(inst);
                Ok(())
            },
            OpCode::Sti => {
                self.sti(inst);
                Ok(())
            },
            OpCode::Str => {
                self.str(inst);
                Ok(())
            },
            OpCode::Trap => {
                if VIRT_TVT {
                    self.trap_emulated(inst)
                } else {
                    self.trap(inst);
                    Ok(())
                }
            },
            OpCode::Rti => Err(Error::OpCodeNotImplemented),
            OpCode::Res => Err(Error::OpCodeNotImplemented),
        };
        proof {
            assert(inst_rel(s1, inst, VIRT_TVT, self@, outcome_of(r)));
            assert(step_rel(old(self)@, VIRT_TVT, self@, outcome_of(r)));
        }
        r
    }

    /// Returns true iff the clock enable bit of the machine control
    /// register is cleared. Reading MCR has no side effect.
    pub fn should_halt(&mut self) -> (r: bool)
        requires
            old(self).wf(),
        ensures
            final(self).wf(),
            final(self)@ == old(self)@,
            r == halted(old(self)@),
    {
        let w = self.memory.read(MCR_ADDR);
        proof {
            assert(((w >> 15u16) & 1 == 1) == (w >= 0x8000)) by (bit_vector);
        }
        !w.isbitset(15)
    }

    /// Clears the clock enable bit of the machine control register, so that
    /// the machine is halted.
    pub fn halt(&mut self)
        requires
            old(self).wf(),
        ensures
            final(self).wf(),
            final(self)@.mem.words == old(self)@.mem.words.update(MCR_ADDR as int, 0u16),
            final(self)@.mem.input == old(self)@.mem.input,
            final(self)@.mem.output == old(self)@.mem.output,
            final(self)@.mem.reliable == old(self)@.mem.reliable,
            final(self)@.regs == old(self)@.regs,
            halted(final(self)@),
    {
        self.memory.write(MCR_ADDR, 0);
    }

    /// Turns on the clock enable bit of the machine control register, so
    /// that the machine is not halted.
    pub fn reset(&mut self)
        requires
            old(self).wf(),
        ensures
            final(self).wf(),
            final(self)@.mem.words == old(self)@.mem.words.update(MCR_ADDR as int, 0x8000u16),
            final(self)@.mem.input == old(self)@.mem.input,
            final(self)@.mem.output == old(self)@.mem.output,
            final(self)@.mem.reliable == old(self)@.mem.reliable,
            final(self)@.regs == old(self)@.regs,
            !halted(final(self)@),
    {
        self.memory.write(MCR_ADDR, 0x8000);
    }

    /// Load an image from an [`ImageFile`]. On success the image's words
    /// stand in memory from its origin; on failure nothing has changed.
    pub fn load_image<F: ImageFile>(&mut self, file: &mut F) -> (r: Result<(), F::Error>)
        requires
            old(self).wf(),
        ensures
            final(self).wf(),
            final(self)@.regs == old(self)@.regs,
            final(self)@.mem.input == old(self)@.mem.input,
            final(self)@.mem.output == old(self)@.mem.output,
            final(self)@.mem.reliable == old(self)@.mem.reliable,
            r is Ok ==> final(self)@.mem.words == load_spec(
                old(self)@.mem.words,
                old(file).data(),
            ),
            r is Err ==> final(self)@ == old(self)@,
            old(file).reliable() ==> r is Ok,
    {
        match file.read() {
            Ok(bytes) => {
                load_image_into(&mut self.memory, &bytes);
                Ok(())
            },
            Err(e) => Err(e),
        }
    }
}

impl<IO: IoDevice> Lc3<IO> {
    fn add(&mut self, inst: u16)
        requires
            old(self).wf(),
        ensures
            final(self).wf(),
            final(self)@ == exec_add(old(self)@, inst),
    {
        let dr = inst.reg1();
        let sr1 = inst.reg2();
        if inst.isbitset(5) {
            let imm5 = inst.imm5();
            let value = self.registers.get(sr1).wrapping_add(imm5);
            self.registers.set(dr, value);
        } else {
            let sr2 = inst.reg3();
            let value = self.registers.get(sr1).wrapping_add(self.registers.get(sr2));
            self.registers.set(dr, value);
        }
        self.setcc(dr);
    }

    fn and(&mut self, inst: u16)
        requires
            old(self).wf(),
        ensures
            final(self).wf(),
            final(self)@ == exec_and(old(self)@, inst),
    {
        let dr = inst.reg1();
        let sr1 = inst.reg2();
        if inst.isbitset(5) {
            let imm5 = inst.imm5();
            let value = self.registers.get(sr1) & imm5;
            self.registers.set(dr, value);
        } else {
            let sr2 = inst.reg3();
            let value = self.registers.get(sr1) & self.registers.get(sr2);
            self.registers.set(dr, value);
        }
        self.setcc(dr);
    }

    fn not(&mut self, inst: u16)
        requires
            old(self).wf(),
        ensures
            final(self).wf(),
            final(self)@ == exec_not(old(self)@, inst),
    {
        let dr = inst.reg1();
        let sr = inst.reg2();
        let value = !self.registers.get(sr);
        self.registers.set(dr, value);
        self.setcc(dr);
    }

    fn br(&mut self, inst: u16)
        requires
            old(self).wf(),
        ensures
            final(self).wf(),
            final(self)@ == exec_br(old(self)@, inst),
    {
        let cc = inst.condcodes();
        if self.registers.cc.intersects(cc) {
            let value = self.registers.pc.wrapping_add(inst.imm9());
            self.registers.pc = value;
        }
    }

    fn jmp(&mut self, inst: u16)
        requires
            old(self).wf(),
        ensures
            final(self).wf(),
            final(self)@ == exec_jmp(old(self)@, inst),
    {
        let baser = inst.reg2();
        self.registers.pc = self.registers.get(baser);
    }

    fn jsr(&mut self, inst: u16)
        requires
            old(self).wf(),
        ensures
            final(self).wf(),
            final(self)@ == exec_jsr(old(self)@, inst),
    {
        self.registers.r7 = self.registers.pc;
        if inst.isbitset(11) {
            let value = self.registers.pc.wrapping_add(inst.imm11());
            self.registers.pc = value;
        } else {
            let baser = inst.reg2();
            self.registers.pc = self.registers.get(baser);
        }
        proof {
            assert(self@.regs.data =~= exec_jsr(old(self)@, inst).regs.data);
        }
    }

    fn lea(&mut self, inst: u16)
        requires
            old(self).wf(),
        ensures
            final(self).wf(),
            final(self)@ == exec_lea(old(self)@, inst),
    {
        let dr = inst.reg1();
        let value = self.registers.pc.wrapping_add(inst.imm9());
        self.registers.set(dr, value);
        self.setcc(dr);
    }

    fn ld(&mut self, inst: u16)
        requires
            old(self).wf(),
        ensures
            final(self).wf(),
            ld_rel(old(self)@, inst, final(self)@),
            final(self)@.mem.reliable == old(self)@.mem.reliable,
    {
        let dr = inst.reg1();
        let addr = self.registers.pc.wrapping_add(inst.imm9());
        let v = self.memory.read(addr);
        self.registers.set(dr, v);
        self.setcc(dr);
        proof {
            assert(mem_read_rel(old(self)@.mem, wadd(old(self)@.regs.pc, sext9(inst)), v, self@.mem));
        }
    }

    fn ldi(&mut self, inst: u16)
        requires
            old(self).wf(),
        ensures
            final(self).wf(),
            ldi_rel(old(self)@, inst, final(self)@),
            final(self)@.mem.reliable == old(self)@.mem.reliable,
    {
        let dr = inst.reg1();
        let addr = self.registers.pc.wrapping_add(inst.imm9());
        let a = self.memory.read(addr);
        let ghost m1 = self@.mem;
        let v = self.memory.read(a);
        self.registers.set(dr, v);
        self.setcc(dr);
        proof {
            assert(mem_read_rel(old(self)@.mem, wadd(old(self)@.regs.pc, sext9(inst)), a, m1));
            assert(mem_read_rel(m1, a, v, self@.mem));
        }
    }

    fn ldr(&mut self, inst: u16)
        requires
            old(self).wf(),
        ensures
            final(self).wf(),
            ldr_rel(old(self)@, inst, final(self)@),
            final(self)@.mem.reliable == old(self)@.mem.reliable,
    {
        let dr = inst.reg1();
        let baser = inst.reg2();
        let addr = self.registers.get(baser).wrapping_add(inst.imm6());
        let v = self.memory.read(addr);
        self.registers.set(dr, v);
        self.setcc(dr);
        proof {
            assert(mem_read_rel(
                old(self)@.mem,
                wadd(old(self)@.regs.data[reg_num(reg_of_bits(inst >> 6))], sext6(inst)),
                v,
                self@.mem,
            ));
        }
    }

    fn st(&mut self, inst: u16)
        requires
            old(self).wf(),
        ensures
            final(self).wf(),
            st_rel(old(self)@, inst, final(self)@),
            final(self)@.mem.reliable == old(self)@.mem.reliable,
    {
        let sr = inst.reg1();
        let addr = self.registers.pc.wrapping_add(inst.imm9());
        let value = self.registers.get(sr);
        self.memory.write(addr, value);
    }

    fn sti(&mut self, inst: u16)
        requires
            old(self).wf(),
        ensures
            final(self).wf(),
            sti_rel(old(self)@, inst, final(self)@),
            final(self)@.mem.reliable == old(self)@.mem.reliable,
    {
        let sr = inst.reg1();
        let addr = self.registers.pc.wrapping_add(inst.imm9());
        let a = self.memory.read(addr);
        let ghost m1 = self@.mem;
        let value = self.registers.get(sr);
        self.memory.write(a, value);
        proof {
            assert(mem_read_rel(old(self)@.mem, wadd(old(self)@.regs.pc, sext9(inst)), a, m1));
        }
    }

    fn str(&mut self, inst: u16)
        requires
            old(self).wf(),
        ensures
            final(self).wf(),
            str_rel(old(self)@, inst, final(self)@),
            final(self)@.mem.reliable == old(self)@.mem.reliable,
    {
        let sr = inst.reg1();
        let baser = inst.reg2();
        let addr = self.registers.get(baser).wrapping_add(inst.imm6());
        let value = self.registers.get(sr);
        self.memory.write(addr, value);
    }

    fn trap(&mut self, inst: u16)
        requires
            old(self).wf(),
        ensures
            final(self).wf(),
            trap_hw_rel(old(self)@, inst, final(self)@),
            final(self)@.mem.reliable == old(self)@.mem.reliable,
    {
        self.registers.r7 = self.registers.pc;
        let addr = inst.imm8();
        let v = self.memory.read(addr);
        self.registers.pc = v;
        proof {
            assert(mem_read_rel(old(self)@.mem, sext8(inst), v, self@.mem));
            assert(self@.regs.data =~= old(self)@.regs.data.update(7, old(self)@.regs.pc));
            assert(self@.regs == (RegModel {
                data: old(self)@.regs.data.update(7, old(self)@.regs.pc),
                pc: v,
                cc: old(self)@.regs.cc,
            }));
        }
    }

    fn trap_emulated(&mut self, inst: u16) -> (r: Result<(), Error<IO::Error>>)
        requires
            old(self).wf(),
        ensures
            final(self).wf(),
            trap_virt_rel(old(self)@, inst, final(self)@, outcome_of(r)),
            !(r matches Err(Error::StepLimit)),
            old(self)@.mem.reliable ==> r is Ok,
    {
        self.registers.r7 = self.registers.pc;
        let ghost s1 = self@;
        proof {
            assert(s1.regs.data =~= old(self)@.regs.data.update(7, old(self)@.regs.pc));
        }

        let trapcode = match inst.trapcode() {
            Some(trapcode) => trapcode,
            None => {
                let msg = undefined_trap_text();
                return match self.device_write(&msg) {
                    Ok(()) => Ok(()),
                    Err(e) => Err(Error::Io(e)),
                };
            },
        };

        match trapcode {
            TrapCode::Getc => {
                match self.device_read() {
                    Ok(b) => {
                        self.registers.set(Reg::R0, b as u16);
                        self.setcc(Reg::R0);
                        Ok(())
                    },
                    Err(e) => Err(Error::Io(e)),
                }
            },
            TrapCode::Out => {
                let b = (self.registers.get(Reg::R0) % 256) as u8;
                let mut buf: Vec<u8> = Vec::new();
                buf.push(b);
                proof {
                    assert(buf@ =~= seq![(s1.regs.data[0] % 256) as u8]);
                }
                match self.device_write(&buf) {
                    Ok(()) => {},
                    Err(e) => {
                        return Err(Error::Io(e));
                    },
                }
                match self.device_flush() {
                    Ok(()) => {
                        Ok(())
                    },
                    Err(e) => {
                        proof {
                            assert(buf@.subrange(0, buf@.len() as int) =~= buf@);
                        }
                        Err(Error::Io(e))
                    },
                }
            },
            TrapCode::Puts => {
                let sp0 = self.registers.get(Reg::R0);
                let ghost words = s1.mem.words;
                let ghost clean = puts_clean(s1.mem.words, sp0 as int);
                let mut v: Vec<u8> = Vec::new();
                let mut sp: u32 = sp0 as u32;
                let mut done = false;
                while !done && sp < 0x10000
                    invariant
                        self.wf(),
                        self@.regs == s1.regs,
                        self@.mem.words == s1.mem.words,
                        self@.mem.output == s1.mem.output,
                        self@.mem.reliable == s1.mem.reliable,
                        self@.mem.input.is_suffix_of(s1.mem.input),
                        words == s1.mem.words,
                        clean == puts_clean(s1.mem.words, sp0 as int),
                        sp <= 0x10000,
                        clean ==> self@.mem.input == s1.mem.input,
                        clean ==> (if done {
                            v@ == puts_bytes(words, sp0 as int)
                        } else {
                            puts_clean(words, sp as int) && puts_bytes(words, sp0 as int) == v@
                                + puts_bytes(words, sp as int)
                        }),
                    decreases (if done { 0int } else { 1int }), 0x10000 - sp,
                {
                    let ghost pre_mem = self@.mem;
                    let w = self.memory.read(sp as u16);
                    proof {
                        assert(self@.mem.words == pre_mem.words && self@.mem.output
                            == pre_mem.output && self@.mem.reliable == pre_mem.reliable);
                        assert(self@.mem.input == pre_mem.input || (pre_mem.input.len() > 0
                            && self@.mem.input == pre_mem.input.skip(1)));
                        lemma_suffix_step(s1.mem.input, pre_mem.input, self@.mem.input);
                        if clean && !done {
                            assert(device_register_of(sp as u16) is None);
                            assert(w == words[sp as int] && self@.mem == pre_mem);
                        }
                    }
                    if w == 0 {
                        done = true;
                        proof {
                            if clean {
                                assert(v@ + puts_bytes(words, sp as int) =~= v@);
                            }
                        }
                    } else {
                        let ghost v_old = v@;
                        v.push((w % 256) as u8);
                        proof {
                            if clean {
                                assert(puts_bytes(words, sp as int) == seq![
                                    (words[sp as int] % 256) as u8,
                                ] + puts_bytes(words, sp + 1));
                                assert(v@ =~= v_old + seq![(words[sp as int] % 256) as u8]);
                                assert(v_old + puts_bytes(words, sp as int) =~= v@ + puts_bytes(
                                    words,
                                    sp + 1,
                                ));
                            }
                        }
                        sp = sp + 1;
                    }
                }
                let ghost m_walked = self@.mem;
                proof {
                    if clean {
                        assert(done) by {
                            if !done {
                                assert(!puts_clean(words, 0x10000));
                            }
                        }
                        assert(v@ == puts_bytes(s1.mem.words, s1.regs.data[0] as int));
                        assert(m_walked == s1.mem);
                    }
                }
                match self.device_write(&v) {
                    Ok(()) => {},
                    Err(e) => {
                        proof {
                            if !clean {
                                let k = choose|k: int|
                                    0 <= k <= v@.len() && self@.mem.output == m_walked.output
                                        + #[trigger] v@.subrange(0, k);
                                assert(s1.mem.output.is_prefix_of(self@.mem.output)) by {
                                    assert(self@.mem.output == s1.mem.output + v@.subrange(0, k));
                                    assert(s1.mem.output =~= (s1.mem.output + v@.subrange(0, k)).subrange(
                                        0,
                                        s1.mem.output.len() as int,
                                    ));
                                }
                            }
                        }
                        return Err(Error::Io(e));
                    },
                }
                let ghost m_written = self@.mem;
                proof {
                    if !clean {
                        assert(s1.mem.output.is_prefix_of(m_written.output)) by {
                            assert(m_written.output == s1.mem.output + v@);
                            assert(s1.mem.output =~= (s1.mem.output + v@).subrange(
                                0,
                                s1.mem.output.len() as int,
                            ));
                        }
                    }
                }
                match self.device_flush() {
                    Ok(()) => Ok(()),
                    Err(e) => {
                        proof {
                            if clean {
                                assert(v@.subrange(0, v@.len() as int) =~= v@);
                            }
                        }
                        Err(Error::Io(e))
                    },
                }
            },
            TrapCode::In => {
                let prompt = prompt_text();
                match self.device_write(&prompt) {
                    Ok(()) => {},
                    Err(e) => {
                        proof {
                            let k = choose|k: int|
                                0 <= k <= prompt@.len() && self@.mem.output == s1.mem.output
                                    + #[trigger] prompt@.subrange(0, k);
                            assert(self@.mem.output == s1.mem.output + prompt@.subrange(0, k));
                            assert(prompt@.subrange(0, k).len() <= prompt_message().len() + 1);
                        }
                        return Err(Error::Io(e));
                    },
                }
                let b = match self.device_read() {
                    Ok(b) => b,
                    Err(e) => {
                        proof {
                            assert(self@.mem.output == s1.mem.output + prompt_message());
                        }
                        return Err(Error::Io(e));
                    },
                };
                let mut echo: Vec<u8> = Vec::new();
                echo.push(b);
                let ghost mid_input = self@.mem.input;
                match self.device_write(&echo) {
                    Ok(()) => {},
                    Err(e) => {
                        proof {
                            let k = choose|k: int|
                                0 <= k <= echo@.len() && self@.mem.output == (s1.mem.output
                                    + prompt_message()) + #[trigger] echo@.subrange(0, k);
                            let bs = prompt_message() + echo@.subrange(0, k);
                            assert(self@.mem.output =~= s1.mem.output + bs);
                            assert(bs.len() <= prompt_message().len() + 1);
                        }
                        return Err(Error::Io(e));
                    },
                }
                match self.device_flush() {
                    Ok(()) => {},
                    Err(e) => {
                        proof {
                            let bs = prompt_message() + seq![b];
                            assert(echo@ =~= seq![b]);
                            assert(self@.mem.output =~= s1.mem.output + bs);
                            assert(bs.len() <= prompt_message().len() + 1);
                        }
                        return Err(Error::Io(e));
                    },
                }
                self.registers.set(Reg::R0, b as u16);
                proof {
                    assert(echo@ =~= seq![b]);
                    assert(self@.mem.output == s1.mem.output + prompt_message() + seq![b]);
                }
                Ok(())
            },
            TrapCode::PutSp => {
                let sp0 = self.registers.get(Reg::R0);
                let ghost words = self@.mem.words;
                let mut v: Vec<u8> = Vec::new();
                let mut sp: u32 = sp0 as u32;
                let mut done = false;
                while !done && sp < 0x10000
                    invariant
                        self.wf(),
                        self@ == s1,
                        words == s1.mem.words,
                        sp <= 0x10000,
                        if done {
                            v@ == putsp_bytes(words, sp0 as int)
                        } else {
                            putsp_bytes(words, sp0 as int) == v@ + putsp_bytes(words, sp as int)
                        },
                    decreases (if done { 0int } else { 1int }), 0x10000 - sp,
                {
                    let w = self.memory.word_at(sp as u16);
                    let lo = (w % 256) as u8;
                    let hi = (w / 256) as u8;
                    let ghost v_old = v@;
                    if lo == 0 {
                        done = true;
                        proof {
                            assert(putsp_bytes(words, sp as int) =~= Seq::<u8>::empty());
                            assert(v@ + putsp_bytes(words, sp as int) =~= v@);
                        }
                    } else if hi == 0 {
                        v.push(lo);
                        done = true;
                        proof {
                            assert(putsp_bytes(words, sp as int) =~= seq![lo]);
                            assert(v@ =~= v_old + putsp_bytes(words, sp as int));
                        }
                    } else {
                        v.push(lo);
                        v.push(hi);
                        proof {
                            assert(putsp_bytes(words, sp as int) == seq![lo, hi] + putsp_bytes(
                                words,
                                sp + 1,
                            ));
                            assert(v@ =~= v_old + seq![lo, hi]);
                            assert(v_old + putsp_bytes(words, sp as int) =~= v@ + putsp_bytes(
                                words,
                                sp + 1,
                            ));
                        }
                        sp = sp + 1;
                    }
                }
                proof {
                    if !done {
                        assert(putsp_bytes(words, 0x10000) =~= Seq::<u8>::empty());
                        assert(v@ + Seq::<u8>::empty() =~= v@);
                    }
                    assert(v@ == putsp_bytes(s1.mem.words, s1.regs.data[0] as int));
                }
                match self.device_write(&v) {
                    Ok(()) => {},
                    Err(e) => {
                        return Err(Error::Io(e));
                    },
                }
                match self.device_flush() {
                    Ok(()) => Ok(()),
                    Err(e) => {
                        proof {
                            assert(v@.subrange(0, v@.len() as int) =~= v@);
                        }
                        Err(Error::Io(e))
                    },
                }
            },
            TrapCode::Halt => {
                let msg = halt_text();
                match self.device_write(&msg) {
                    Ok(()) => {},
                    Err(e) => {
                        return Err(Error::Io(e));
                    },
                }
                self.halt();
                Ok(())
            },
        }
    }

    /// Hand `buf` to the I/O device, without flushing.
    fn device_write(&mut self, buf: &Vec<u8>) -> (r: Result<(), IO::Error>)
        requires
            old(self).wf(),
        ensures
            final(self).wf(),
            final(self).registers == old(self).registers,
            wrote(old(self)@.mem, final(self)@.mem, buf@, r is Ok),
            old(self)@.mem.reliable ==> r is Ok,
    {
        self.memory.io_write(buf.as_slice())
    }

    /// Ask the I/O device to commit buffered output.
    fn device_flush(&mut self) -> (r: Result<(), IO::Error>)
        requires
            old(self).wf(),
        ensures
            final(self).wf(),
            final(self)@ == old(self)@,
            old(self)@.mem.reliable ==> r is Ok,
    {
        self.memory.io_flush()
    }

    /// Read one byte from the I/O device.
    fn device_read(&mut self) -> (r: Result<u8, IO::Error>)
        requires
            old(self).wf(),
        ensures
            final(self).wf(),
            final(self).registers == old(self).registers,
            final(self)@.mem.words == old(self)@.mem.words,
            final(self)@.mem.output == old(self)@.mem.output,
            final(self)@.mem.reliable == old(self)@.mem.reliable,
            old(self)@.mem.reliable ==> r is Ok,
            match r {
                Ok(b) => if old(self)@.mem.input.len() > 0 {
                    b == old(self)@.mem.input[0] && final(self)@.mem.input == old(
                        self,
                    )@.mem.input.skip(1)
                } else {
                    b == 0 && final(self)@.mem.input == old(self)@.mem.input
                },
                Err(_) => final(self)@.mem.input == old(self)@.mem.input,
            },
    {
        self.memory.io_read()
    }

    fn setcc(&mut self, dr: Reg)
        ensures
            final(self).registers@.data == old(self).registers@.data,
            final(self).registers@.pc == old(self).registers@.pc,
            final(self).registers@.cc == signum_bits(
                old(self).registers@.data[reg_num(dr)],
            ),
            final(self).memory == old(self).memory,
    {
        let result = self.registers.get(dr);
        self.registers.cc = CondCodes::from_signum(result);
    }
}

} // verus!
