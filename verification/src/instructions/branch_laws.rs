//! Where the jumps go: a relative jump lands at the byte after its two-byte
//! instruction moved by the signed displacement, an absolute one at the
//! little-endian operand, and a conditional one only when its flag test
//! holds, else on the next instruction.

use vstd::prelude::*;
use crate::cpu::{CpuModel, Regs, FlagCond, wrap8, wrap16, sext8};
use crate::instructions::{Instruction, JrE, JrZ, JrNz, JrCE, JrNcE, Djnz, JpCcNn};
use crate::instructions::transfer_laws::operand_word;

verus! {

/// The eight condition codes test, in turn: Z (bit 6 of F) clear and set,
/// C (bit 0) clear and set, P/V (bit 2) clear and set, S (bit 7) clear and
/// set.
pub proof fn lemma_flag_conditions(r: Regs)
    ensures
        r.cond(FlagCond::NZ) == (r.f & 0x40 == 0),
        r.cond(FlagCond::Z) == (r.f & 0x40 != 0),
        r.cond(FlagCond::NC) == (r.f & 0x01 == 0),
        r.cond(FlagCond::C) == (r.f & 0x01 != 0),
        r.cond(FlagCond::PO) == (r.f & 0x04 == 0),
        r.cond(FlagCond::PE) == (r.f & 0x04 != 0),
        r.cond(FlagCond::P) == (r.f & 0x80 == 0),
        r.cond(FlagCond::M) == (r.f & 0x80 != 0),
{
    let f = r.f;
    assert((f & 0x40 == 0x40 || f & 0x40 == 0) && (f & 0x01 == 0x01 || f & 0x01 == 0) && (f & 0x04 == 0x04 || f
        & 0x04 == 0) && (f & 0x80 == 0x80 || f & 0x80 == 0)) by (bit_vector);
}

/// The PC after a relative jump by the displacement byte that follows the
/// opcode at the PC.
pub open spec fn relative_jump_target(s: CpuModel) -> u16 {
    wrap16(s.regs.pc + 2 + sext8(s.mem_at(wrap16(s.regs.pc + 1))))
}

/// JR e always jumps: the PC becomes the address after the instruction moved
/// by e read as a signed byte. JR Z, JR NZ, JR C and JR NC jump the same way
/// when Z is set, Z is clear, C is set and C is clear; otherwise they go on
/// to the next instruction, two bytes on. None of them writes memory.
pub proof fn lemma_relative_jumps(s: CpuModel)
    ensures
        JrE.next_state(s).regs.pc == relative_jump_target(s),
        JrZ.next_state(s).regs.pc == if s.regs.cond(FlagCond::Z) {
            relative_jump_target(s)
        } else {
            wrap16(s.regs.pc + 2)
        },
        JrNz.next_state(s).regs.pc == if s.regs.cond(FlagCond::NZ) {
            relative_jump_target(s)
        } else {
            wrap16(s.regs.pc + 2)
        },
        JrCE.next_state(s).regs.pc == if s.regs.cond(FlagCond::C) {
            relative_jump_target(s)
        } else {
            wrap16(s.regs.pc + 2)
        },
        JrNcE.next_state(s).regs.pc == if s.regs.cond(FlagCond::NC) {
            relative_jump_target(s)
        } else {
            wrap16(s.regs.pc + 2)
        },
        JrE.next_state(s).bus.mem == s.bus.mem,
        JrZ.next_state(s).bus.mem == s.bus.mem,
        JrNz.next_state(s).bus.mem == s.bus.mem,
        JrCE.next_state(s).bus.mem == s.bus.mem,
        JrNcE.next_state(s).bus.mem == s.bus.mem,
{
}

/// DJNZ takes one from B (modulo 256) and jumps as JR does exactly when the
/// new B is not zero; otherwise it goes on two bytes.
pub proof fn lemma_djnz(s: CpuModel)
    ensures
        Djnz.next_state(s).regs.b == wrap8(s.regs.b - 1),
        Djnz.next_state(s).regs.pc == if wrap8(s.regs.b - 1) != 0 {
            relative_jump_target(s)
        } else {
            wrap16(s.regs.pc + 2)
        },
{
}

/// JP cc, nn goes to the little-endian word after the opcode when the
/// condition holds, and to the next instruction, three bytes on, when it
/// does not.
pub proof fn lemma_conditional_jump(s: CpuModel, cond: FlagCond)
    ensures
        (JpCcNn { cond: cond }).next_state(s).regs.pc == if s.regs.cond(cond) {
            operand_word(s)
        } else {
            wrap16(s.regs.pc + 3)
        },
        (JpCcNn { cond: cond }).next_state(s).bus.mem == s.bus.mem,
{
}

} // verus!
