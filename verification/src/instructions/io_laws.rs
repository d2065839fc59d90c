//! Which port the I/O instructions address: IN A, (n) and OUT (n), A put A
//! on the high half of the address bus and n on the low half; the (C) forms
//! address the port BC.

use vstd::prelude::*;
use crate::cpu::{CpuModel, Reg8, wrap16};
use crate::instructions::{Instruction, InAPortN, OutPortNA};
use crate::instructions::ed::{InRPortC, OutPortCR};

verus! {

/// The byte after the opcode at the PC.
pub open spec fn operand_byte(s: CpuModel) -> u8 {
    s.mem_at(wrap16(s.regs.pc + 1))
}

/// IN A, (n) loads A with what the port A * 256 + n reads, and OUT (n), A
/// writes A to that same port; neither touches memory.
pub proof fn lemma_port_n(s: CpuModel)
    ensures
        InAPortN.next_state(s).regs.a == s.bus.read_port((s.regs.a * 256 + operand_byte(s)) as u16),
        InAPortN.next_state(s).bus == s.bus,
        OutPortNA.next_state(s).bus == s.bus.write_port((s.regs.a * 256 + operand_byte(s)) as u16, s.regs.a),
        OutPortNA.next_state(s).regs.a == s.regs.a,
{
}

/// IN r, (C) loads the register with what port B * 256 + C reads, and
/// OUT (C), r writes the register to that same port.
pub proof fn lemma_port_c(s: CpuModel, r: Reg8)
    ensures
        (InRPortC { r: r }).next_state(s).regs.reg8(r) == s.bus.read_port((s.regs.b * 256 + s.regs.c) as u16),
        (OutPortCR { r: r }).next_state(s).bus == s.bus.write_port(
            (s.regs.b * 256 + s.regs.c) as u16,
            s.regs.reg8(r),
        ),
{
    crate::cpu::laws::lemma_reg8_write_read(s.regs, r, s.bus.read_port((s.regs.b * 256 + s.regs.c) as u16));
}

} // verus!
