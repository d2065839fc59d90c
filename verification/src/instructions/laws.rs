//! Laws that relate instructions to one another.

use vstd::prelude::*;
use crate::cpu::{CpuModel, Reg16, wrap16};
use crate::cpu::laws::lemma_word_halves;
use crate::memory::lemma_write_then_read;
use crate::instructions::{Instruction, ExDeHl, Exx, ExAfAfAlt, PushQq, PopQq, Cpl, CallNn, Ret};
use crate::instructions::ed::{Neg, Rld, Rrd};

verus! {

/// EX DE, HL done twice gives back DE and HL: only the PC has moved, by the
/// two opcodes.
pub proof fn lemma_ex_de_hl_twice(s: CpuModel)
    ensures
        ExDeHl.next_state(ExDeHl.next_state(s)) == s.set_regs(s.regs.advance_pc(2)),
{
    lemma_word_halves(0, s.regs.d, s.regs.e);
    lemma_word_halves(0, s.regs.h, s.regs.l);
    let t = ExDeHl.next_state(ExDeHl.next_state(s));
    assert(t.regs == s.regs.advance_pc(2));
}

/// EXX done twice gives back both register sets.
pub proof fn lemma_exx_twice(s: CpuModel)
    ensures
        Exx.next_state(Exx.next_state(s)) == s.set_regs(s.regs.advance_pc(2)),
{
    lemma_word_halves(0, s.regs.b, s.regs.c);
    lemma_word_halves(0, s.regs.d, s.regs.e);
    lemma_word_halves(0, s.regs.h, s.regs.l);
    lemma_word_halves(0, s.regs.b_alt, s.regs.c_alt);
    lemma_word_halves(0, s.regs.d_alt, s.regs.e_alt);
    lemma_word_halves(0, s.regs.h_alt, s.regs.l_alt);
    let t = Exx.next_state(Exx.next_state(s));
    assert(t.regs == s.regs.advance_pc(2));
}

/// EX AF, AF' done twice gives back AF and AF'.
pub proof fn lemma_ex_af_twice(s: CpuModel)
    ensures
        ExAfAfAlt.next_state(ExAfAfAlt.next_state(s)) == s.set_regs(s.regs.advance_pc(2)),
{
    lemma_word_halves(0, s.regs.a, s.regs.f);
    lemma_word_halves(0, s.regs.a_alt, s.regs.f_alt);
    let t = ExAfAfAlt.next_state(ExAfAfAlt.next_state(s));
    assert(t.regs == s.regs.advance_pc(2));
}

/// CPL done twice gives back A.
pub proof fn lemma_cpl_twice(s: CpuModel)
    ensures
        Cpl.next_state(Cpl.next_state(s)).regs.a == s.regs.a,
{
    let a = s.regs.a;
    assert((a ^ 0xFF) ^ 0xFF == a) by (bit_vector);
}

/// NEG done twice gives back A.
pub proof fn lemma_neg_twice(s: CpuModel)
    ensures
        Neg.next_state(Neg.next_state(s)).regs.a == s.regs.a,
{
}

/// POP p after PUSH q copies q into p and gives SP back, and the PC moves
/// on past both; POP after PUSH of the same register gives it back. This
/// holds when the two stack bytes can be written and p is not SP.
#[verifier::rlimit(60)]
#[verifier::spinoff_prover]
pub proof fn lemma_push_pop(s: CpuModel, q: Reg16, p: Reg16)
    requires
        s.wf(),
        p != Reg16::SP,
        s.bus.mem.writable(wrap16(s.regs.sp - 1)),
        s.bus.mem.writable(wrap16(s.regs.sp - 2)),
    ensures
        (PopQq { r: p }).next_state((PushQq { r: q }).next_state(s)).regs.reg16(p) == s.regs.reg16(q),
        (PopQq { r: p }).next_state((PushQq { r: q }).next_state(s)).regs.sp == s.regs.sp,
        (PopQq { r: p }).next_state((PushQq { r: q }).next_state(s)).regs.pc == wrap16(s.regs.pc + 2),
{
    let sp = s.regs.sp;
    let v = s.regs.reg16(q);
    let t = (PushQq { r: q }).next_state(s);
    let a1 = wrap16(sp - 1);
    let a2 = wrap16(sp - 2);
    let m0 = s.bus.mem;
    let m1 = m0.write(a1, (v / 256) as u8);
    lemma_write_then_read(m0, a1, (v / 256) as u8, a1);
    lemma_write_then_read(m1, a2, (v % 256) as u8, a2);
    lemma_write_then_read(m1, a2, (v % 256) as u8, a1);
    assert(!m1.same_cell(a2, a1));
    assert(t.bus.mem == m1.write(a2, (v % 256) as u8));
    assert(t.regs.sp == a2);
    assert(wrap16(a2 + 1) == a1);
    assert(t.mem_at(a2) == (v % 256) as u8);
    assert(t.mem_at(a1) == (v / 256) as u8);
    let u = (PopQq { r: p }).next_state(t);
    assert(u.regs.reg16(p) == v) by {
        lemma_word_halves(v, (v / 256) as u8, (v % 256) as u8);
    }
}

/// RRD after RLD gives back A and the byte at HL, leaves HL as it was, and
/// moves the PC on past both; this holds when the byte at HL can be written.
#[verifier::rlimit(100)]
#[verifier::spinoff_prover]
pub proof fn lemma_rld_rrd(s: CpuModel)
    requires
        s.wf(),
        s.bus.mem.writable(s.regs.reg16(Reg16::HL)),
    ensures
        Rrd.next_state(Rld.next_state(s)).regs.a == s.regs.a,
        Rrd.next_state(Rld.next_state(s)).mem_at(s.regs.reg16(Reg16::HL)) == s.mem_at(s.regs.reg16(Reg16::HL)),
        Rrd.next_state(Rld.next_state(s)).regs.reg16(Reg16::HL) == s.regs.reg16(Reg16::HL),
        Rrd.next_state(Rld.next_state(s)).regs.pc == wrap16(s.regs.pc + 2),
{
    let hl = s.regs.reg16(Reg16::HL);
    let a = s.regs.a;
    let v = s.mem_at(hl);
    let na = ((a / 16) * 16 + v / 16) as u8;
    let nv = ((v % 16) * 16 + a % 16) as u8;
    lemma_nibble_rotation(a, v);
    let t = Rld.next_state(s);
    let m0 = s.bus.mem;
    let m1 = m0.write(hl, nv);
    lemma_write_then_read(m0, hl, nv, hl);
    assert(t.regs.a == na);
    assert(t.bus.mem == m1);
    assert(t.mem_at(hl) == nv);
    assert(t.regs.reg16(Reg16::HL) == hl);
    assert(t.bus.mem.writable(hl));
    let v2 = ((na % 16) * 16 + nv / 16) as u8;
    lemma_write_then_read(m1, hl, v2, hl);
    let u = Rrd.next_state(t);
    assert(u.regs.a == a);
    assert(u.mem_at(hl) == v2);
}

/// The nibble moves of RLD and RRD: rotating the three nibbles of A's low
/// half and a byte left, then right, gives them back.
proof fn lemma_nibble_rotation(a: u8, v: u8)
    ensures
        ({
            let na = ((a / 16) * 16 + v / 16) as u8;
            let nv = ((v % 16) * 16 + a % 16) as u8;
            &&& ((na / 16) * 16 + nv % 16) as u8 == a
            &&& ((na % 16) * 16 + nv / 16) as u8 == v
        }),
{
    let na = ((a / 16) * 16 + v / 16) as u8;
    let nv = ((v % 16) * 16 + a % 16) as u8;
    assert(na == (a & 0xF0) | (v >> 4)) by (bit_vector)
        requires
            na == ((a / 16) * 16 + v / 16) as u8,
    ;
    assert(nv == ((v & 0x0F) << 4) | (a & 0x0F)) by (bit_vector)
        requires
            nv == ((v % 16) * 16 + a % 16) as u8,
    ;
    assert(((na / 16) * 16 + nv % 16) as u8 == a) by (bit_vector)
        requires
            na == (a & 0xF0) | (v >> 4),
            nv == ((v & 0x0F) << 4) | (a & 0x0F),
    ;
    assert(((na % 16) * 16 + nv / 16) as u8 == v) by (bit_vector)
        requires
            na == (a & 0xF0) | (v >> 4),
            nv == ((v & 0x0F) << 4) | (a & 0x0F),
    ;
}

/// RET after CALL nn returns to the instruction after the call, with SP as
/// before, when the two stack bytes can be written.
#[verifier::rlimit(40)]
#[verifier::spinoff_prover]
pub proof fn lemma_call_ret(s: CpuModel)
    requires
        s.wf(),
        s.bus.mem.writable(wrap16(s.regs.sp - 1)),
        s.bus.mem.writable(wrap16(s.regs.sp - 2)),
    ensures
        Ret.next_state(CallNn.next_state(s)).regs.pc == wrap16(s.regs.pc + 3),
        Ret.next_state(CallNn.next_state(s)).regs.sp == s.regs.sp,
{
    let sp = s.regs.sp;
    let ret = wrap16(s.regs.pc + 3);
    let a1 = wrap16(sp - 1);
    let a2 = wrap16(sp - 2);
    let c = CallNn.next_state(s);
    let m0 = s.bus.mem;
    let m1 = m0.write(a1, (ret / 256) as u8);
    lemma_write_then_read(m0, a1, (ret / 256) as u8, a1);
    lemma_write_then_read(m1, a2, (ret % 256) as u8, a2);
    lemma_write_then_read(m1, a2, (ret % 256) as u8, a1);
    assert(c.bus.mem == m1.write(a2, (ret % 256) as u8));
    assert(c.regs.sp == a2);
    assert(wrap16(a2 + 1) == a1);
    lemma_word_halves(ret, (ret / 256) as u8, (ret % 256) as u8);
}

} // verus!
