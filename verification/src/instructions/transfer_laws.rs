//! Where the instructions that move 16-bit values between registers and
//! memory put each byte: the Z80 is little-endian, so the low byte of a word
//! lives at the lower address, and the stack grows downward with the high
//! byte pushed first.

use vstd::prelude::*;
use crate::cpu::{CpuModel, Regs, Reg16};
use crate::memory::{MemModel, lemma_write_then_read};
use crate::instructions::{Instruction, LdMemNnHl, LdHlMemNn, PushQq, PopQq, CallNn, Ret, Rst, ExMemSpHl};
use crate::instructions::ed::{LdMemNnDd, LdDdMemNn};

verus! {

/// `a + k` modulo 64K.
pub open spec fn addr_plus(a: u16, k: int) -> u16 {
    ((a + k) % 65536) as u16
}

/// The little-endian word in the two bytes after the opcode at the PC.
pub open spec fn operand_word(s: CpuModel) -> u16 {
    (s.mem_at(addr_plus(s.regs.pc, 2)) * 256 + s.mem_at(addr_plus(s.regs.pc, 1))) as u16
}

/// The little-endian word at `a` and `a + 1`.
pub open spec fn word_at(s: CpuModel, a: u16) -> u16 {
    (s.mem_at(addr_plus(a, 1)) * 256 + s.mem_at(a)) as u16
}

/// Two writes to consecutive addresses both stay: the second never lands on
/// the byte of the first.
proof fn lemma_two_writes(m: MemModel, a: u16, lo: u8, hi: u8)
    requires
        m.wf(),
        m.writable(a),
        m.writable(addr_plus(a, 1)),
    ensures
        m.write(a, lo).write(addr_plus(a, 1), hi).read(a) == lo,
        m.write(a, lo).write(addr_plus(a, 1), hi).read(addr_plus(a, 1)) == hi,
{
    let a1 = addr_plus(a, 1);
    let m1 = m.write(a, lo);
    lemma_write_then_read(m, a, lo, a);
    lemma_write_then_read(m1, a1, hi, a1);
    lemma_write_then_read(m1, a1, hi, a);
    assert(!m1.same_cell(a1, a));
}

/// LD (nn), HL stores L at nn and H at nn + 1, and changes no register but
/// the PC, which moves past the three bytes.
#[verifier::spinoff_prover]
#[verifier::rlimit(60)]
pub proof fn lemma_store_hl(s: CpuModel)
    requires
        s.wf(),
        s.bus.mem.writable(operand_word(s)),
        s.bus.mem.writable(addr_plus(operand_word(s), 1)),
    ensures
        LdMemNnHl.next_state(s).mem_at(operand_word(s)) == s.regs.l,
        LdMemNnHl.next_state(s).mem_at(addr_plus(operand_word(s), 1)) == s.regs.h,
        LdMemNnHl.next_state(s).regs == (Regs { pc: addr_plus(s.regs.pc, 3), ..s.regs }),
{
    let nn = operand_word(s);
    lemma_two_writes(s.bus.mem, nn, s.regs.l, s.regs.h);
    crate::cpu::laws::lemma_word_halves(0, s.regs.h, s.regs.l);
}

/// LD (nn), dd stores the low byte of the register at nn and its high byte
/// at nn + 1.
#[verifier::spinoff_prover]
#[verifier::rlimit(60)]
pub proof fn lemma_store_pair(s: CpuModel, r: Reg16)
    requires
        s.wf(),
        s.bus.mem.writable(operand_word(s)),
        s.bus.mem.writable(addr_plus(operand_word(s), 1)),
    ensures
        (LdMemNnDd { r: r }).next_state(s).mem_at(operand_word(s)) == (s.regs.reg16(r) % 256) as u8,
        (LdMemNnDd { r: r }).next_state(s).mem_at(addr_plus(operand_word(s), 1)) == (s.regs.reg16(r) / 256) as u8,
{
    let nn = operand_word(s);
    let v = s.regs.reg16(r);
    lemma_two_writes(s.bus.mem, nn, (v % 256) as u8, (v / 256) as u8);
}

/// LD HL, (nn) loads L from nn and H from nn + 1, and leaves memory alone.
#[verifier::spinoff_prover]
#[verifier::rlimit(60)]
pub proof fn lemma_load_hl(s: CpuModel)
    ensures
        LdHlMemNn.next_state(s).regs.l == s.mem_at(operand_word(s)),
        LdHlMemNn.next_state(s).regs.h == s.mem_at(addr_plus(operand_word(s), 1)),
        LdHlMemNn.next_state(s).regs.pc == addr_plus(s.regs.pc, 3),
        LdHlMemNn.next_state(s).bus.mem == s.bus.mem,
{
    let nn = operand_word(s);
    crate::cpu::laws::lemma_word_halves(0, s.mem_at(addr_plus(nn, 1)), s.mem_at(nn));
}

/// LD dd, (nn) loads the register with the little-endian word at nn.
#[verifier::spinoff_prover]
#[verifier::rlimit(60)]
pub proof fn lemma_load_pair(s: CpuModel, r: Reg16)
    requires
        r != Reg16::WZ,
    ensures
        (LdDdMemNn { r: r }).next_state(s).regs.reg16(r) == word_at(s, operand_word(s)),
        (LdDdMemNn { r: r }).next_state(s).bus.mem == s.bus.mem,
{
    let nn = operand_word(s);
    crate::cpu::laws::lemma_reg16_write_read(s.regs, r, word_at(s, nn));
    let v = word_at(s, nn);
    crate::cpu::laws::lemma_word_halves(v, 0, 0);
}

/// PUSH qq puts the high byte of the register at SP - 1 and the low byte at
/// SP - 2, and leaves SP two lower.
#[verifier::spinoff_prover]
#[verifier::rlimit(60)]
pub proof fn lemma_push_layout(s: CpuModel, r: Reg16)
    requires
        s.wf(),
        s.bus.mem.writable(addr_plus(s.regs.sp, -2)),
        s.bus.mem.writable(addr_plus(s.regs.sp, -1)),
    ensures
        (PushQq { r: r }).next_state(s).mem_at(addr_plus(s.regs.sp, -1)) == (s.regs.reg16(r) / 256) as u8,
        (PushQq { r: r }).next_state(s).mem_at(addr_plus(s.regs.sp, -2)) == (s.regs.reg16(r) % 256) as u8,
        (PushQq { r: r }).next_state(s).regs.sp == addr_plus(s.regs.sp, -2),
{
    let v = s.regs.reg16(r);
    let a2 = addr_plus(s.regs.sp, -2);
    let a1 = addr_plus(s.regs.sp, -1);
    let m0 = s.bus.mem;
    let m1 = m0.write(a1, (v / 256) as u8);
    lemma_write_then_read(m0, a1, (v / 256) as u8, a1);
    lemma_write_then_read(m1, a2, (v % 256) as u8, a2);
    lemma_write_then_read(m1, a2, (v % 256) as u8, a1);
    assert(!m1.same_cell(a2, a1));
}

/// POP qq loads the register with the little-endian word at SP and leaves
/// SP two higher.
#[verifier::spinoff_prover]
#[verifier::rlimit(60)]
pub proof fn lemma_pop_layout(s: CpuModel, r: Reg16)
    requires
        r != Reg16::SP,
    ensures
        (PopQq { r: r }).next_state(s).regs.reg16(r) == word_at(s, s.regs.sp),
        (PopQq { r: r }).next_state(s).regs.sp == addr_plus(s.regs.sp, 2),
        (PopQq { r: r }).next_state(s).bus.mem == s.bus.mem,
{
    let v = word_at(s, s.regs.sp);
    crate::cpu::laws::lemma_word_halves(v, 0, 0);
}

/// CALL nn pushes the address of the next instruction (high byte at SP - 1,
/// low byte at SP - 2) and jumps to nn.
#[verifier::spinoff_prover]
#[verifier::rlimit(80)]
pub proof fn lemma_call_layout(s: CpuModel)
    requires
        s.wf(),
        s.bus.mem.writable(addr_plus(s.regs.sp, -2)),
        s.bus.mem.writable(addr_plus(s.regs.sp, -1)),
    ensures
        CallNn.next_state(s).regs.pc == operand_word(s),
        CallNn.next_state(s).regs.sp == addr_plus(s.regs.sp, -2),
        CallNn.next_state(s).mem_at(addr_plus(s.regs.sp, -1)) == (addr_plus(s.regs.pc, 3) / 256) as u8,
        CallNn.next_state(s).mem_at(addr_plus(s.regs.sp, -2)) == (addr_plus(s.regs.pc, 3) % 256) as u8,
{
    let ret = addr_plus(s.regs.pc, 3);
    let a2 = addr_plus(s.regs.sp, -2);
    let a1 = addr_plus(s.regs.sp, -1);
    let m0 = s.bus.mem;
    let m1 = m0.write(a1, (ret / 256) as u8);
    lemma_write_then_read(m0, a1, (ret / 256) as u8, a1);
    lemma_write_then_read(m1, a2, (ret % 256) as u8, a2);
    lemma_write_then_read(m1, a2, (ret % 256) as u8, a1);
    assert(!m1.same_cell(a2, a1));
}

/// RET jumps to the little-endian word at SP and leaves SP two higher.
#[verifier::spinoff_prover]
pub proof fn lemma_ret_layout(s: CpuModel)
    ensures
        Ret.next_state(s).regs.pc == word_at(s, s.regs.sp),
        Ret.next_state(s).regs.sp == addr_plus(s.regs.sp, 2),
{
}

/// RST p pushes the address of the next instruction and jumps to p.
#[verifier::spinoff_prover]
#[verifier::rlimit(60)]
pub proof fn lemma_rst_layout(s: CpuModel, p: u8)
    requires
        s.wf(),
        s.bus.mem.writable(addr_plus(s.regs.sp, -2)),
        s.bus.mem.writable(addr_plus(s.regs.sp, -1)),
    ensures
        (Rst { addr: p }).next_state(s).regs.pc == p as u16,
        (Rst { addr: p }).next_state(s).regs.sp == addr_plus(s.regs.sp, -2),
        (Rst { addr: p }).next_state(s).mem_at(addr_plus(s.regs.sp, -1)) == (addr_plus(s.regs.pc, 1) / 256) as u8,
        (Rst { addr: p }).next_state(s).mem_at(addr_plus(s.regs.sp, -2)) == (addr_plus(s.regs.pc, 1) % 256) as u8,
{
    let ret = addr_plus(s.regs.pc, 1);
    let a2 = addr_plus(s.regs.sp, -2);
    let a1 = addr_plus(s.regs.sp, -1);
    let m0 = s.bus.mem;
    let m1 = m0.write(a1, (ret / 256) as u8);
    lemma_write_then_read(m0, a1, (ret / 256) as u8, a1);
    lemma_write_then_read(m1, a2, (ret % 256) as u8, a2);
    lemma_write_then_read(m1, a2, (ret % 256) as u8, a1);
    assert(!m1.same_cell(a2, a1));
}

/// EX (SP), HL swaps HL with the little-endian word at SP: L with the byte
/// at SP and H with the byte at SP + 1, when both can be written.
#[verifier::spinoff_prover]
#[verifier::rlimit(60)]
pub proof fn lemma_ex_sp_hl(s: CpuModel)
    requires
        s.wf(),
        s.bus.mem.writable(s.regs.sp),
        s.bus.mem.writable(addr_plus(s.regs.sp, 1)),
    ensures
        ExMemSpHl.next_state(s).regs.l == s.mem_at(s.regs.sp),
        ExMemSpHl.next_state(s).regs.h == s.mem_at(addr_plus(s.regs.sp, 1)),
        ExMemSpHl.next_state(s).mem_at(s.regs.sp) == s.regs.l,
        ExMemSpHl.next_state(s).mem_at(addr_plus(s.regs.sp, 1)) == s.regs.h,
        ExMemSpHl.next_state(s).regs.sp == s.regs.sp,
{
    let sp = s.regs.sp;
    let sp1 = addr_plus(sp, 1);
    let m = s.bus.mem;
    let m1 = m.write(sp1, s.regs.h);
    lemma_write_then_read(m, sp1, s.regs.h, sp1);
    lemma_write_then_read(m1, sp, s.regs.l, sp);
    lemma_write_then_read(m1, sp, s.regs.l, sp1);
    assert(!m1.same_cell(sp, sp1));
    crate::cpu::laws::lemma_word_halves(0, s.mem_at(sp1), s.mem_at(sp));
    crate::cpu::laws::lemma_word_halves(s.regs.reg16(Reg16::HL), 0, 0);
}

} // verus!
