//! What one step of a block copy does: the byte at HL lands at DE, HL and DE
//! move one way together, BC counts down, and P/V tells whether BC is still
//! not zero; the repeating forms run again exactly while it is not.

use vstd::prelude::*;
use crate::cpu::{CpuModel, Reg16, wrap16, cond_bits, PARITY_OVERFLOW_FLAG, ADD_SUBTRACT_FLAG, X_FLAG, Y_FLAG};
use crate::memory::lemma_write_then_read;
use crate::instructions::Instruction;
use crate::instructions::ed::{Ldi, Ldd, Ldir, Lddr};

verus! {

proof fn lemma_block_pv_bit(f: u8, b: bool, x: bool, y: bool)
    by (bit_vector)
    ensures
        (cond_bits(cond_bits(cond_bits(f, PARITY_OVERFLOW_FLAG, b) & !ADD_SUBTRACT_FLAG, X_FLAG, x), Y_FLAG, y)
            & PARITY_OVERFLOW_FLAG == PARITY_OVERFLOW_FLAG) == b,
{
}

/// The copy that a block transfer step makes: `t` holds at DE the byte that
/// `s` held at HL, and every byte that is not DE's own is as it was.
pub open spec fn copied_hl_to_de(s: CpuModel, t: CpuModel) -> bool {
    let de = s.regs.reg16(Reg16::DE);
    &&& t.mem_at(de) == s.mem_at(s.regs.reg16(Reg16::HL))
    &&& forall|b: u16| !s.bus.mem.same_cell(de, b) ==> #[trigger] t.mem_at(b) == s.mem_at(b)
}

/// LDI copies the byte at HL to DE, then moves HL and DE up by one and BC
/// down by one (all modulo 64K); P/V is set exactly when the new BC is not
/// zero. LDD does the same moving HL and DE down. This holds when DE can be
/// written.
#[verifier::spinoff_prover]
#[verifier::rlimit(40)]
pub proof fn lemma_ldi_ldd(s: CpuModel)
    requires
        s.wf(),
        s.bus.mem.writable(s.regs.reg16(Reg16::DE)),
    ensures
        copied_hl_to_de(s, Ldi.next_state(s)),
        copied_hl_to_de(s, Ldd.next_state(s)),
        Ldi.next_state(s).regs.reg16(Reg16::HL) == wrap16(s.regs.reg16(Reg16::HL) + 1),
        Ldi.next_state(s).regs.reg16(Reg16::DE) == wrap16(s.regs.reg16(Reg16::DE) + 1),
        Ldi.next_state(s).regs.reg16(Reg16::BC) == wrap16(s.regs.reg16(Reg16::BC) - 1),
        Ldd.next_state(s).regs.reg16(Reg16::HL) == wrap16(s.regs.reg16(Reg16::HL) - 1),
        Ldd.next_state(s).regs.reg16(Reg16::DE) == wrap16(s.regs.reg16(Reg16::DE) - 1),
        Ldd.next_state(s).regs.reg16(Reg16::BC) == wrap16(s.regs.reg16(Reg16::BC) - 1),
        Ldi.next_state(s).regs.flag(PARITY_OVERFLOW_FLAG) == (wrap16(s.regs.reg16(Reg16::BC) - 1) != 0),
        Ldd.next_state(s).regs.flag(PARITY_OVERFLOW_FLAG) == (wrap16(s.regs.reg16(Reg16::BC) - 1) != 0),
        Ldi.next_state(s).regs.a == s.regs.a,
        Ldd.next_state(s).regs.a == s.regs.a,
{
    let de = s.regs.reg16(Reg16::DE);
    let hl = s.regs.reg16(Reg16::HL);
    let v = s.mem_at(hl);
    let m = s.bus.mem;
    lemma_write_then_read(m, de, v, de);
    assert forall|b: u16| !m.same_cell(de, b) implies #[trigger] m.write(de, v).read(b) == m.read(b) by {
        lemma_write_then_read(m, de, v, b);
    }
    let bc1 = wrap16(s.regs.reg16(Reg16::BC) - 1);
    let xy = crate::cpu::wrap8(s.regs.a + v);
    lemma_block_pv_bit(s.regs.f & !crate::cpu::HALF_CARRY_FLAG, bc1 != 0, xy & 0x08 != 0, xy & 0x02 != 0);
}

/// LDIR and LDDR make one LDI or LDD step; while the new BC is not zero the
/// PC goes back one byte, to the prefix of the same instruction, so that it
/// runs again, and once BC reaches zero the PC moves on past it.
#[verifier::spinoff_prover]
#[verifier::rlimit(40)]
pub proof fn lemma_block_repeat(s: CpuModel)
    requires
        s.wf(),
        s.bus.mem.writable(s.regs.reg16(Reg16::DE)),
    ensures
        copied_hl_to_de(s, Ldir.next_state(s)),
        copied_hl_to_de(s, Lddr.next_state(s)),
        Ldir.next_state(s).regs.pc == if wrap16(s.regs.reg16(Reg16::BC) - 1) != 0 {
            wrap16(s.regs.pc - 1)
        } else {
            wrap16(s.regs.pc + 1)
        },
        Lddr.next_state(s).regs.pc == if wrap16(s.regs.reg16(Reg16::BC) - 1) != 0 {
            wrap16(s.regs.pc - 1)
        } else {
            wrap16(s.regs.pc + 1)
        },
        Ldir.next_state(s).regs.reg16(Reg16::BC) == wrap16(s.regs.reg16(Reg16::BC) - 1),
        Lddr.next_state(s).regs.reg16(Reg16::BC) == wrap16(s.regs.reg16(Reg16::BC) - 1),
{
    lemma_ldi_ldd(s);
    let de = s.regs.reg16(Reg16::DE);
    let v = s.mem_at(s.regs.reg16(Reg16::HL));
    let m = s.bus.mem;
    assert forall|b: u16| !m.same_cell(de, b) implies #[trigger] m.write(de, v).read(b) == m.read(b) by {
        lemma_write_then_read(m, de, v, b);
    }
    let bc1 = wrap16(s.regs.reg16(Reg16::BC) - 1);
    let xy = crate::cpu::wrap8(s.regs.a + v);
    lemma_block_pv_bit(s.regs.f & !crate::cpu::HALF_CARRY_FLAG, bc1 != 0, xy & 0x08 != 0, xy & 0x02 != 0);
}

} // verus!
