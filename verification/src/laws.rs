//! Machine-checked statements of the invariants the machine keeps:
//! condition-code maintenance after every register-writing instruction,
//! memory round trips, wrapping arithmetic, sign-extension round trips,
//! and loader placement.

use vstd::prelude::*;

use crate::condcodes::signum_bits;
use crate::decode::{cond_mask, opcode_of, sext5, sext6, sext9};
use crate::image::{image_origin, image_word, image_word_count, load_spec};
use crate::lc3::{exec_br, inst_rel, step_rel, wadd, with_reg_cc, StepOutcome, VmModel};
use crate::memory::{mem_read_rel, mem_write_rel, MemModel};
use crate::opcode::OpCode;
use crate::registers::{device_register_of, reg_num, reg_of_bits, Reg, RegModel};
use crate::trapcode::{trapcode_of, TrapCode};

verus! {

/// After an instruction writes `v` to the data register `dr`, the
/// condition codes are exactly one of N (`0b100`), Z (`0b010`), P
/// (`0b001`), and they reflect the signum of that register: N iff bit 15
/// of `v` is set, Z iff `v` is zero, P otherwise.
pub proof fn lemma_writeback_sets_cc(r: RegModel, dr: Reg, v: u16)
    requires
        r.data.len() == 8,
    ensures
        with_reg_cc(r, dr, v).data[reg_num(dr)] == v,
        with_reg_cc(r, dr, v).cc == signum_bits(v),
        signum_bits(v) == 4 || signum_bits(v) == 2 || signum_bits(v) == 1,
        (signum_bits(v) == 4) == (v >= 0x8000),
        (signum_bits(v) == 2) == (v == 0),
        (signum_bits(v) == 1) == (0 < v < 0x8000),
{
    assert(0 <= reg_num(dr) < 8);
}

/// After any completed instruction that updates a data register — ADD,
/// AND, NOT, LD, LDI, LDR or LEA — the condition codes equal the signum
/// of the destination register, and are exactly one of N, Z, P.
pub proof fn lemma_instruction_sets_cc(s: VmModel, inst: u16, virt: bool, post: VmModel)
    requires
        s.regs.data.len() == 8,
        inst_rel(s, inst, virt, post, StepOutcome::Completed),
        opcode_of(inst) == OpCode::Add || opcode_of(inst) == OpCode::And || opcode_of(inst)
            == OpCode::Not || opcode_of(inst) == OpCode::Ld || opcode_of(inst) == OpCode::Ldi
            || opcode_of(inst) == OpCode::Ldr || opcode_of(inst) == OpCode::Lea,
    ensures
        post.regs.cc == signum_bits(post.regs.data[reg_num(reg_of_bits(inst >> 9))]),
        post.regs.cc == 4 || post.regs.cc == 2 || post.regs.cc == 1,
{
    assert(0 <= reg_num(reg_of_bits(inst >> 9)) < 8);
    if opcode_of(inst) == OpCode::Ld {
        let v = choose|v: u16|
            mem_read_rel(s.mem, wadd(s.regs.pc, sext9(inst)), v, post.mem) && post.regs
                == with_reg_cc(s.regs, reg_of_bits(inst >> 9), v);
        assert(post.regs.data[reg_num(reg_of_bits(inst >> 9))] == v);
    } else if opcode_of(inst) == OpCode::Ldi {
        let (a, m1, v) = choose|a: u16, m1: MemModel, v: u16|
            mem_read_rel(s.mem, wadd(s.regs.pc, sext9(inst)), a, m1) && mem_read_rel(
                m1,
                a,
                v,
                post.mem,
            ) && post.regs == with_reg_cc(s.regs, reg_of_bits(inst >> 9), v);
        assert(post.regs.data[reg_num(reg_of_bits(inst >> 9))] == v);
    } else if opcode_of(inst) == OpCode::Ldr {
        let v = choose|v: u16|
            mem_read_rel(
                s.mem,
                wadd(s.regs.data[reg_num(reg_of_bits(inst >> 6))], sext6(inst)),
                v,
                post.mem,
            ) && post.regs == with_reg_cc(s.regs, reg_of_bits(inst >> 9), v);
        assert(post.regs.data[reg_num(reg_of_bits(inst >> 9))] == v);
    }
}

/// The GETC trap, completed in virtual trap mode, writes the byte it read
/// into R0 and sets the condition codes from it, exactly one of N, Z, P —
/// in fact Z or P, since a byte never sets bit 15.
pub proof fn lemma_getc_sets_cc(s: VmModel, inst: u16, post: VmModel)
    requires
        s.regs.data.len() == 8,
        inst_rel(s, inst, true, post, StepOutcome::Completed),
        opcode_of(inst) == OpCode::Trap,
        trapcode_of(inst) == Some(TrapCode::Getc),
    ensures
        post.regs.cc == signum_bits(post.regs.data[0]),
        post.regs.cc == 2 || post.regs.cc == 1,
{
}

/// For any address not in the memory-mapped I/O set, writing `v` and then
/// reading the same address yields `v` back, and the read changes nothing.
pub proof fn lemma_write_then_read(m0: MemModel, a: u16, v: u16, m1: MemModel, r: u16, m2: MemModel)
    requires
        device_register_of(a) is None,
        m0.words.len() == 0x10000,
        mem_write_rel(m0, a, v, m1),
        mem_read_rel(m1, a, r, m2),
    ensures
        r == v,
        m2 == m1,
{
}

/// PC advances by exactly one before the current instruction's effects:
/// a taken `BR` fetched from ordinary memory lands on
/// `PC + 1 + offset9`, relative to the instruction after it.
pub proof fn lemma_br_relative_to_next(pre: VmModel, virt: bool)
    requires
        device_register_of(pre.regs.pc) is None,
        pre.mem.words.len() == 0x10000,
        opcode_of(pre.mem.words[pre.regs.pc as int]) == OpCode::Br,
        pre.regs.cc & cond_mask(pre.mem.words[pre.regs.pc as int]) != 0,
    ensures
        step_rel(
            pre,
            virt,
            VmModel {
                regs: RegModel {
                    pc: wadd(wadd(pre.regs.pc, 1), sext9(pre.mem.words[pre.regs.pc as int])),
                    ..pre.regs
                },
                ..pre
            },
            StepOutcome::Completed,
        ),
{
    let inst = pre.mem.words[pre.regs.pc as int];
    let s1 = VmModel { regs: RegModel { pc: wadd(pre.regs.pc, 1), ..pre.regs }, mem: pre.mem };
    let post = VmModel {
        regs: RegModel { pc: wadd(wadd(pre.regs.pc, 1), sext9(inst)), ..pre.regs },
        ..pre
    };
    assert(mem_read_rel(pre.mem, pre.regs.pc, inst, pre.mem));
    assert(post == exec_br(s1, inst));
    assert(inst_rel(s1, inst, virt, post, StepOutcome::Completed));
}

/// All 16-bit arithmetic wraps: the sum the machine computes is the
/// mathematical sum modulo 2^16.
pub proof fn lemma_wadd_wraps(a: u16, b: u16)
    ensures
        wadd(a, b) == (a + b) % 0x10000,
{
}

/// Sign extension round-trips: a 16-bit word representable in five bits
/// (two's complement) comes back unchanged when its low five bits are
/// decoded as a sign-extended immediate.
pub proof fn lemma_imm5_round_trip(v: u16)
    requires
        v < 0x0010 || v >= 0xFFF0,
    ensures
        sext5(v & 0x001F) == v,
{
    assert((if (v & 0x001F) % 32 < 16 {
        (v & 0x001F) % 32
    } else {
        ((v & 0x001F) % 32 + 0xFFE0) as u16
    }) == v) by (bit_vector)
        requires
            v < 0x0010 || v >= 0xFFF0,
    ;
}

/// Loader round trip: the `k`-th data word of an image lands at
/// `origin + k`, holding its two bytes big-endian, and every address
/// outside the loaded range keeps its old word.
pub proof fn lemma_load_places_words(words: Seq<u16>, bytes: Seq<u8>, k: int)
    requires
        words.len() == 0x10000,
        0 <= k < image_word_count(bytes),
    ensures
        load_spec(words, bytes)[image_origin(bytes) + k] == bytes[2 + 2 * k] * 256 + bytes[3 + 2
            * k],
        forall|a: int|
            0 <= a < 0x10000 && !(image_origin(bytes) <= a < image_origin(bytes)
                + image_word_count(bytes)) ==> load_spec(words, bytes)[a] == words[a],
{
    assert(load_spec(words, bytes)[image_origin(bytes) + k] == image_word(bytes, k));
}

} // verus!


