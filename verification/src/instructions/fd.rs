use vstd::prelude::*;
use crate::cpu::{Cpu, CpuModel, Reg8, Reg16, CARRY_FLAG, HALF_CARRY_FLAG, TCYCLE_CEILING, MAX_STEP_TCYCLES, wrap8, wrap16, word, hi8, lo8};
use crate::debugger::output_registers::{OutputRegisters, ONONE, OA, OF, OH, OL, OIX, OIY, OSP, OWZ, OR, output_registers_from_reg8};
use crate::instructions::{AdcR, AddR, AndR, CpR, DecR, DecSs, IncR, IncSs, Instruction, LdDdNn, LdRN, LdRR, OrR, PopQq, PushQq, SbcR, SubR, XorR, adc8_flags, add16_flags, add8_flags, cp8_flags, dec8_flags, inc8_flags, index_addr, logical_flags, offset_addr, sbc8_flags, sub8_flags, update_flags_adc8, update_flags_add16, update_flags_add8, update_flags_cp8, update_flags_dec8, update_flags_inc8, update_flags_logical, update_flags_sbc8, update_flags_sub8};
use crate::instructions::ed::{LdDdMemNn, LdMemNnDd};

verus! {

/// ADD IY, rr: 16-bit addition into IY.
#[derive(Clone, Copy)]
pub struct AddIyRr {
    pub r: Reg16,
}

impl Instruction for AddIyRr {
    open spec fn valid(&self) -> bool {
        true
    }

    open spec fn next_state(&self, s: CpuModel) -> CpuModel {
        let s0 = s;
        let x = s0.regs.reg16(Reg16::IY);
        let ss = s0.regs.reg16(self.r);
        let ir = s0.regs.reg16(Reg16::IR);
        let s1 = s0.after_no_mreq(ir);
        let s2 = s1.after_no_mreq(ir);
        let s3 = s2.after_no_mreq(ir);
        let s4 = s3.after_no_mreq(ir);
        let s5 = s4.after_no_mreq(ir);
        let s6 = s5.after_no_mreq(ir);
        let s7 = s6.after_no_mreq(ir);
        let res = wrap16(x + ss);
        let s8 = s7.set_regs(s7.regs.with_reg16(Reg16::IY, res));
        let s9 = s8.set_regs(s8.regs.with_f(add16_flags(s8.regs.f, x, ss, res)));
        let s10 = s9.set_regs(s9.regs.advance_pc(1));
        s10
    }

    #[verifier::spinoff_prover]
    #[verifier::rlimit(80)]
    fn execute(&self, cpu: &mut Cpu) {
        let x: u16 = cpu.read_reg16(Reg16::IY);
        let ss: u16 = cpu.read_reg16(self.r);
        let ir: u16 = cpu.read_reg16(Reg16::IR);
        cpu.contend_read_no_mreq(ir);
        cpu.contend_read_no_mreq(ir);
        cpu.contend_read_no_mreq(ir);
        cpu.contend_read_no_mreq(ir);
        cpu.contend_read_no_mreq(ir);
        cpu.contend_read_no_mreq(ir);
        cpu.contend_read_no_mreq(ir);
        let res: u16 = x.wrapping_add(ss);
        cpu.write_reg16(Reg16::IY, res);
        update_flags_add16(cpu, x, ss, res);
        cpu.inc_pc(1);
    }

    open spec fn accessed(&self) -> (OutputRegisters, OutputRegisters) {
        (OH | OL | OIY, OH | OL | OF | OIY)
    }

    fn get_accessed_regs(&self) -> (regs: (OutputRegisters, OutputRegisters)) {
        (OH | OL | OIY, OH | OL | OF | OIY)
    }
}

/// INC (IY+d): increments the byte at the indexed address.
#[derive(Clone, Copy)]
pub struct IncMemIyD;

impl Instruction for IncMemIyD {
    open spec fn valid(&self) -> bool {
        true
    }

    open spec fn next_state(&self, s: CpuModel) -> CpuModel {
        let s0 = s;
        let pc = s0.regs.pc;
        let pc1 = wrap16(pc + 1);
        let d = s0.mem_at(pc1);
        let s1 = s0.after_read(pc1, 3);
        let base = s1.regs.reg16(Reg16::IY);
        let addr = index_addr(base, d);
        let s2 = s1.after_no_mreq(pc1);
        let s3 = s2.after_no_mreq(pc1);
        let s4 = s3.after_no_mreq(pc1);
        let s5 = s4.after_no_mreq(pc1);
        let s6 = s5.after_no_mreq(pc1);
        let v = s6.mem_at(addr);
        let s7 = s6.after_read(addr, 3);
        let s8 = s7.after_no_mreq(addr);
        let res = wrap8(v + 1);
        let s9 = s8.set_regs(s8.regs.with_reg16(Reg16::WZ, addr));
        let s10 = s9.after_write(addr, res);
        let s11 = s10.set_regs(s10.regs.with_f(inc8_flags(s10.regs.f, v, res)));
        let s12 = s11.set_regs(s11.regs.advance_pc(2));
        s12
    }

    #[verifier::spinoff_prover]
    #[verifier::rlimit(80)]
    fn execute(&self, cpu: &mut Cpu) {
        let pc: u16 = cpu.get_pc();
        let pc1: u16 = pc.wrapping_add(1);
        let d: u8 = cpu.read_word(pc1);
        let base: u16 = cpu.read_reg16(Reg16::IY);
        let addr: u16 = offset_addr(base, d);
        cpu.contend_read_no_mreq(pc1);
        cpu.contend_read_no_mreq(pc1);
        cpu.contend_read_no_mreq(pc1);
        cpu.contend_read_no_mreq(pc1);
        cpu.contend_read_no_mreq(pc1);
        let v: u8 = cpu.read_word(addr);
        cpu.contend_read_no_mreq(addr);
        let res: u8 = v.wrapping_add(1);
        cpu.write_reg16(Reg16::WZ, addr);
        cpu.write_word(addr, res);
        update_flags_inc8(cpu, v, res);
        cpu.inc_pc(2);
    }

    open spec fn accessed(&self) -> (OutputRegisters, OutputRegisters) {
        (OF | OIY | OWZ, OF | OWZ)
    }

    fn get_accessed_regs(&self) -> (regs: (OutputRegisters, OutputRegisters)) {
        (OF | OIY | OWZ, OF | OWZ)
    }
}

/// DEC (IY+d): decrements the byte at the indexed address.
#[derive(Clone, Copy)]
pub struct DecMemIyD;

impl Instruction for DecMemIyD {
    open spec fn valid(&self) -> bool {
        true
    }

    open spec fn next_state(&self, s: CpuModel) -> CpuModel {
        let s0 = s;
        let pc = s0.regs.pc;
        let pc1 = wrap16(pc + 1);
        let d = s0.mem_at(pc1);
        let s1 = s0.after_read(pc1, 3);
        let base = s1.regs.reg16(Reg16::IY);
        let addr = index_addr(base, d);
        let s2 = s1.after_no_mreq(pc1);
        let s3 = s2.after_no_mreq(pc1);
        let s4 = s3.after_no_mreq(pc1);
        let s5 = s4.after_no_mreq(pc1);
        let s6 = s5.after_no_mreq(pc1);
        let v = s6.mem_at(addr);
        let s7 = s6.after_read(addr, 3);
        let s8 = s7.after_no_mreq(addr);
        let res = wrap8(v - 1);
        let s9 = s8.after_write(addr, res);
        let s10 = s9.set_regs(s9.regs.with_reg16(Reg16::WZ, addr));
        let s11 = s10.set_regs(s10.regs.with_f(dec8_flags(s10.regs.f, v, res)));
        let s12 = s11.set_regs(s11.regs.advance_pc(2));
        s12
    }

    #[verifier::spinoff_prover]
    #[verifier::rlimit(80)]
    fn execute(&self, cpu: &mut Cpu) {
        let pc: u16 = cpu.get_pc();
        let pc1: u16 = pc.wrapping_add(1);
        let d: u8 = cpu.read_word(pc1);
        let base: u16 = cpu.read_reg16(Reg16::IY);
        let addr: u16 = offset_addr(base, d);
        cpu.contend_read_no_mreq(pc1);
        cpu.contend_read_no_mreq(pc1);
        cpu.contend_read_no_mreq(pc1);
        cpu.contend_read_no_mreq(pc1);
        cpu.contend_read_no_mreq(pc1);
        let v: u8 = cpu.read_word(addr);
        cpu.contend_read_no_mreq(addr);
        let res: u8 = v.wrapping_sub(1);
        cpu.write_word(addr, res);
        cpu.write_reg16(Reg16::WZ, addr);
        update_flags_dec8(cpu, v, res);
        cpu.inc_pc(2);
    }

    open spec fn accessed(&self) -> (OutputRegisters, OutputRegisters) {
        (OF | OIY | OWZ, OF | OWZ)
    }

    fn get_accessed_regs(&self) -> (regs: (OutputRegisters, OutputRegisters)) {
        (OF | OIY | OWZ, OF | OWZ)
    }
}

/// LD (IY+d), n: stores an immediate byte at the indexed address.
#[derive(Clone, Copy)]
pub struct LdMemIyDN;

impl Instruction for LdMemIyDN {
    open spec fn valid(&self) -> bool {
        true
    }

    open spec fn next_state(&self, s: CpuModel) -> CpuModel {
        let s0 = s;
        let pc = s0.regs.pc;
        let pc1 = wrap16(pc + 1);
        let d = s0.mem_at(pc1);
        let s1 = s0.after_read(pc1, 3);
        let pc2 = wrap16(pc + 2);
        let n = s1.mem_at(pc2);
        let s2 = s1.after_read(pc2, 3);
        let base = s2.regs.reg16(Reg16::IY);
        let addr = index_addr(base, d);
        let s3 = s2.after_no_mreq(pc2);
        let s4 = s3.after_no_mreq(pc2);
        let s5 = s4.after_write(addr, n);
        let s6 = s5.set_regs(s5.regs.with_reg16(Reg16::WZ, addr));
        let s7 = s6.set_regs(s6.regs.advance_pc(3));
        s7
    }

    #[verifier::spinoff_prover]
    #[verifier::rlimit(80)]
    fn execute(&self, cpu: &mut Cpu) {
        let pc: u16 = cpu.get_pc();
        let pc1: u16 = pc.wrapping_add(1);
        let d: u8 = cpu.read_word(pc1);
        let pc2: u16 = pc.wrapping_add(2);
        let n: u8 = cpu.read_word(pc2);
        let base: u16 = cpu.read_reg16(Reg16::IY);
        let addr: u16 = offset_addr(base, d);
        cpu.contend_read_no_mreq(pc2);
        cpu.contend_read_no_mreq(pc2);
        cpu.write_word(addr, n);
        cpu.write_reg16(Reg16::WZ, addr);
        cpu.inc_pc(3);
    }

    open spec fn accessed(&self) -> (OutputRegisters, OutputRegisters) {
        (OIY | OWZ, OWZ)
    }

    fn get_accessed_regs(&self) -> (regs: (OutputRegisters, OutputRegisters)) {
        (OIY | OWZ, OWZ)
    }
}

/// LD r, (IY+d): loads a register from the indexed address.
#[derive(Clone, Copy)]
pub struct LdRMemIyD {
    pub r: Reg8,
}

impl Instruction for LdRMemIyD {
    open spec fn valid(&self) -> bool {
        true
    }

    open spec fn next_state(&self, s: CpuModel) -> CpuModel {
        let s0 = s;
        let pc = s0.regs.pc;
        let pc1 = wrap16(pc + 1);
        let d = s0.mem_at(pc1);
        let s1 = s0.after_read(pc1, 3);
        let base = s1.regs.reg16(Reg16::IY);
        let addr = index_addr(base, d);
        let s2 = s1.after_no_mreq(pc1);
        let s3 = s2.after_no_mreq(pc1);
        let s4 = s3.after_no_mreq(pc1);
        let s5 = s4.after_no_mreq(pc1);
        let s6 = s5.after_no_mreq(pc1);
        let v = s6.mem_at(addr);
        let s7 = s6.after_read(addr, 3);
        let s8 = s7.set_regs(s7.regs.with_reg8(self.r, v));
        let s9 = s8.set_regs(s8.regs.with_reg16(Reg16::WZ, addr));
        let s10 = s9.set_regs(s9.regs.advance_pc(2));
        s10
    }

    #[verifier::spinoff_prover]
    #[verifier::rlimit(80)]
    fn execute(&self, cpu: &mut Cpu) {
        let pc: u16 = cpu.get_pc();
        let pc1: u16 = pc.wrapping_add(1);
        let d: u8 = cpu.read_word(pc1);
        let base: u16 = cpu.read_reg16(Reg16::IY);
        let addr: u16 = offset_addr(base, d);
        cpu.contend_read_no_mreq(pc1);
        cpu.contend_read_no_mreq(pc1);
        cpu.contend_read_no_mreq(pc1);
        cpu.contend_read_no_mreq(pc1);
        cpu.contend_read_no_mreq(pc1);
        let v: u8 = cpu.read_word(addr);
        cpu.write_reg8(self.r, v);
        cpu.write_reg16(Reg16::WZ, addr);
        cpu.inc_pc(2);
    }

    open spec fn accessed(&self) -> (OutputRegisters, OutputRegisters) {
        (OIY | OWZ | output_registers_from_reg8(self.r), OWZ | output_registers_from_reg8(self.r))
    }

    fn get_accessed_regs(&self) -> (regs: (OutputRegisters, OutputRegisters)) {
        (OIY | OWZ | output_registers_from_reg8(self.r), OWZ | output_registers_from_reg8(self.r))
    }
}

/// LD (IY+d), r: stores a register at the indexed address.
#[derive(Clone, Copy)]
pub struct LdMemIyDR {
    pub r: Reg8,
}

impl Instruction for LdMemIyDR {
    open spec fn valid(&self) -> bool {
        true
    }

    open spec fn next_state(&self, s: CpuModel) -> CpuModel {
        let s0 = s;
        let pc = s0.regs.pc;
        let pc1 = wrap16(pc + 1);
        let d = s0.mem_at(pc1);
        let s1 = s0.after_read(pc1, 3);
        let v = s1.regs.reg8(self.r);
        let base = s1.regs.reg16(Reg16::IY);
        let addr = index_addr(base, d);
        let s2 = s1.after_no_mreq(pc1);
        let s3 = s2.after_no_mreq(pc1);
        let s4 = s3.after_no_mreq(pc1);
        let s5 = s4.after_no_mreq(pc1);
        let s6 = s5.after_no_mreq(pc1);
        let s7 = s6.after_write(addr, v);
        let s8 = s7.set_regs(s7.regs.with_reg16(Reg16::WZ, addr));
        let s9 = s8.set_regs(s8.regs.advance_pc(2));
        s9
    }

    #[verifier::spinoff_prover]
    #[verifier::rlimit(80)]
    fn execute(&self, cpu: &mut Cpu) {
        let pc: u16 = cpu.get_pc();
        let pc1: u16 = pc.wrapping_add(1);
        let d: u8 = cpu.read_word(pc1);
        let v: u8 = cpu.read_reg8(self.r);
        let base: u16 = cpu.read_reg16(Reg16::IY);
        let addr: u16 = offset_addr(base, d);
        cpu.contend_read_no_mreq(pc1);
        cpu.contend_read_no_mreq(pc1);
        cpu.contend_read_no_mreq(pc1);
        cpu.contend_read_no_mreq(pc1);
        cpu.contend_read_no_mreq(pc1);
        cpu.write_word(addr, v);
        cpu.write_reg16(Reg16::WZ, addr);
        cpu.inc_pc(2);
    }

    open spec fn accessed(&self) -> (OutputRegisters, OutputRegisters) {
        (OIY | OWZ, OWZ)
    }

    fn get_accessed_regs(&self) -> (regs: (OutputRegisters, OutputRegisters)) {
        (OIY | OWZ, OWZ)
    }
}

/// ADD A, (IY+d): adds to A.
#[derive(Clone, Copy)]
pub struct AddMemIyD;

impl Instruction for AddMemIyD {
    open spec fn valid(&self) -> bool {
        true
    }

    open spec fn next_state(&self, s: CpuModel) -> CpuModel {
        let s0 = s;
        let pc = s0.regs.pc;
        let a = s0.regs.reg8(Reg8::A);
        let pc1 = wrap16(pc + 1);
        let d = s0.mem_at(pc1);
        let s1 = s0.after_read(pc1, 3);
        let base = s1.regs.reg16(Reg16::IY);
        let addr = index_addr(base, d);
        let s2 = s1.after_no_mreq(pc1);
        let s3 = s2.after_no_mreq(pc1);
        let s4 = s3.after_no_mreq(pc1);
        let s5 = s4.after_no_mreq(pc1);
        let s6 = s5.after_no_mreq(pc1);
        let v = s6.mem_at(addr);
        let s7 = s6.after_read(addr, 3);
        let res = wrap8(a + v);
        let s8 = s7.set_regs(s7.regs.with_reg8(Reg8::A, res));
        let s9 = s8.set_regs(s8.regs.with_reg16(Reg16::WZ, addr));
        let s10 = s9.set_regs(s9.regs.with_f(add8_flags(a, v, res)));
        let s11 = s10.set_regs(s10.regs.advance_pc(2));
        s11
    }

    #[verifier::spinoff_prover]
    #[verifier::rlimit(100)]
    fn execute(&self, cpu: &mut Cpu) {
        let pc: u16 = cpu.get_pc();
        let a: u8 = cpu.read_reg8(Reg8::A);
        let pc1: u16 = pc.wrapping_add(1);
        let d: u8 = cpu.read_word(pc1);
        let base: u16 = cpu.read_reg16(Reg16::IY);
        let addr: u16 = offset_addr(base, d);
        cpu.contend_read_no_mreq(pc1);
        cpu.contend_read_no_mreq(pc1);
        cpu.contend_read_no_mreq(pc1);
        cpu.contend_read_no_mreq(pc1);
        cpu.contend_read_no_mreq(pc1);
        let v: u8 = cpu.read_word(addr);
        let res: u8 = a.wrapping_add(v);
        cpu.write_reg8(Reg8::A, res);
        cpu.write_reg16(Reg16::WZ, addr);
        update_flags_add8(cpu, a, v, res);
        cpu.inc_pc(2);
    }

    open spec fn accessed(&self) -> (OutputRegisters, OutputRegisters) {
        (OA | OF | OIY | OWZ, OA | OF | OWZ)
    }

    fn get_accessed_regs(&self) -> (regs: (OutputRegisters, OutputRegisters)) {
        (OA | OF | OIY | OWZ, OA | OF | OWZ)
    }
}

/// ADC A, (IY+d): adds to A with the carry.
#[derive(Clone, Copy)]
pub struct AdcMemIyD;

impl Instruction for AdcMemIyD {
    open spec fn valid(&self) -> bool {
        true
    }

    open spec fn next_state(&self, s: CpuModel) -> CpuModel {
        let s0 = s;
        let pc = s0.regs.pc;
        let a = s0.regs.reg8(Reg8::A);
        let pc1 = wrap16(pc + 1);
        let d = s0.mem_at(pc1);
        let s1 = s0.after_read(pc1, 3);
        let base = s1.regs.reg16(Reg16::IY);
        let addr = index_addr(base, d);
        let s2 = s1.after_no_mreq(pc1);
        let s3 = s2.after_no_mreq(pc1);
        let s4 = s3.after_no_mreq(pc1);
        let s5 = s4.after_no_mreq(pc1);
        let s6 = s5.after_no_mreq(pc1);
        let v = s6.mem_at(addr);
        let s7 = s6.after_read(addr, 3);
        let cf = s7.regs.flag(CARRY_FLAG);
        let c = if cf { 1u8 } else { 0u8 };
        let res = wrap8(a + v + c);
        let s8 = s7.set_regs(s7.regs.with_reg8(Reg8::A, res));
        let s9 = s8.set_regs(s8.regs.with_reg16(Reg16::WZ, addr));
        let s10 = s9.set_regs(s9.regs.with_f(adc8_flags(a, v, c, res)));
        let s11 = s10.set_regs(s10.regs.advance_pc(2));
        s11
    }

    #[verifier::spinoff_prover]
    #[verifier::rlimit(100)]
    fn execute(&self, cpu: &mut Cpu) {
        let pc: u16 = cpu.get_pc();
        let a: u8 = cpu.read_reg8(Reg8::A);
        let pc1: u16 = pc.wrapping_add(1);
        let d: u8 = cpu.read_word(pc1);
        let base: u16 = cpu.read_reg16(Reg16::IY);
        let addr: u16 = offset_addr(base, d);
        cpu.contend_read_no_mreq(pc1);
        cpu.contend_read_no_mreq(pc1);
        cpu.contend_read_no_mreq(pc1);
        cpu.contend_read_no_mreq(pc1);
        cpu.contend_read_no_mreq(pc1);
        let v: u8 = cpu.read_word(addr);
        let cf: bool = cpu.get_flag(CARRY_FLAG);
        let c: u8 = if cf { 1 } else { 0 };
        let res: u8 = a.wrapping_add(v).wrapping_add(c);
        cpu.write_reg8(Reg8::A, res);
        cpu.write_reg16(Reg16::WZ, addr);
        update_flags_adc8(cpu, a, v, c, res);
        cpu.inc_pc(2);
    }

    open spec fn accessed(&self) -> (OutputRegisters, OutputRegisters) {
        (OA | OF | OIY | OWZ, OA | OF | OWZ)
    }

    fn get_accessed_regs(&self) -> (regs: (OutputRegisters, OutputRegisters)) {
        (OA | OF | OIY | OWZ, OA | OF | OWZ)
    }
}

/// SUB (IY+d): subtracts from A.
#[derive(Clone, Copy)]
pub struct SubMemIyD;

impl Instruction for SubMemIyD {
    open spec fn valid(&self) -> bool {
        true
    }

    open spec fn next_state(&self, s: CpuModel) -> CpuModel {
        let s0 = s;
        let pc = s0.regs.pc;
        let a = s0.regs.reg8(Reg8::A);
        let pc1 = wrap16(pc + 1);
        let d = s0.mem_at(pc1);
        let s1 = s0.after_read(pc1, 3);
        let base = s1.regs.reg16(Reg16::IY);
        let addr = index_addr(base, d);
        let s2 = s1.after_no_mreq(pc1);
        let s3 = s2.after_no_mreq(pc1);
        let s4 = s3.after_no_mreq(pc1);
        let s5 = s4.after_no_mreq(pc1);
        let s6 = s5.after_no_mreq(pc1);
        let v = s6.mem_at(addr);
        let s7 = s6.after_read(addr, 3);
        let res = wrap8(a - v);
        let s8 = s7.set_regs(s7.regs.with_reg8(Reg8::A, res));
        let s9 = s8.set_regs(s8.regs.with_reg16(Reg16::WZ, addr));
        let s10 = s9.set_regs(s9.regs.with_f(sub8_flags(a, v, res)));
        let s11 = s10.set_regs(s10.regs.advance_pc(2));
        s11
    }

    #[verifier::spinoff_prover]
    #[verifier::rlimit(100)]
    fn execute(&self, cpu: &mut Cpu) {
        let pc: u16 = cpu.get_pc();
        let a: u8 = cpu.read_reg8(Reg8::A);
        let pc1: u16 = pc.wrapping_add(1);
        let d: u8 = cpu.read_word(pc1);
        let base: u16 = cpu.read_reg16(Reg16::IY);
        let addr: u16 = offset_addr(base, d);
        cpu.contend_read_no_mreq(pc1);
        cpu.contend_read_no_mreq(pc1);
        cpu.contend_read_no_mreq(pc1);
        cpu.contend_read_no_mreq(pc1);
        cpu.contend_read_no_mreq(pc1);
        let v: u8 = cpu.read_word(addr);
        let res: u8 = a.wrapping_sub(v);
        cpu.write_reg8(Reg8::A, res);
        cpu.write_reg16(Reg16::WZ, addr);
        update_flags_sub8(cpu, a, v, res);
        cpu.inc_pc(2);
    }

    open spec fn accessed(&self) -> (OutputRegisters, OutputRegisters) {
        (OA | OF | OIY | OWZ, OA | OF | OWZ)
    }

    fn get_accessed_regs(&self) -> (regs: (OutputRegisters, OutputRegisters)) {
        (OA | OF | OIY | OWZ, OA | OF | OWZ)
    }
}

/// SBC A, (IY+d): subtracts from A with the borrow.
#[derive(Clone, Copy)]
pub struct SbcMemIyD;

impl Instruction for SbcMemIyD {
    open spec fn valid(&self) -> bool {
        true
    }

    open spec fn next_state(&self, s: CpuModel) -> CpuModel {
        let s0 = s;
        let pc = s0.regs.pc;
        let a = s0.regs.reg8(Reg8::A);
        let pc1 = wrap16(pc + 1);
        let d = s0.mem_at(pc1);
        let s1 = s0.after_read(pc1, 3);
        let base = s1.regs.reg16(Reg16::IY);
        let addr = index_addr(base, d);
        let s2 = s1.after_no_mreq(pc1);
        let s3 = s2.after_no_mreq(pc1);
        let s4 = s3.after_no_mreq(pc1);
        let s5 = s4.after_no_mreq(pc1);
        let s6 = s5.after_no_mreq(pc1);
        let v = s6.mem_at(addr);
        let s7 = s6.after_read(addr, 3);
        let cf = s7.regs.flag(CARRY_FLAG);
        let c = if cf { 1u8 } else { 0u8 };
        let res = wrap8(a - v - c);
        let s8 = s7.set_regs(s7.regs.with_reg8(Reg8::A, res));
        let s9 = s8.set_regs(s8.regs.with_reg16(Reg16::WZ, addr));
        let s10 = s9.set_regs(s9.regs.with_f(sbc8_flags(a, v, c, res)));
        let s11 = s10.set_regs(s10.regs.advance_pc(2));
        s11
    }

    #[verifier::spinoff_prover]
    #[verifier::rlimit(100)]
    fn execute(&self, cpu: &mut Cpu) {
        let pc: u16 = cpu.get_pc();
        let a: u8 = cpu.read_reg8(Reg8::A);
        let pc1: u16 = pc.wrapping_add(1);
        let d: u8 = cpu.read_word(pc1);
        let base: u16 = cpu.read_reg16(Reg16::IY);
        let addr: u16 = offset_addr(base, d);
        cpu.contend_read_no_mreq(pc1);
        cpu.contend_read_no_mreq(pc1);
        cpu.contend_read_no_mreq(pc1);
        cpu.contend_read_no_mreq(pc1);
        cpu.contend_read_no_mreq(pc1);
        let v: u8 = cpu.read_word(addr);
        let cf: bool = cpu.get_flag(CARRY_FLAG);
        let c: u8 = if cf { 1 } else { 0 };
        let res: u8 = a.wrapping_sub(v).wrapping_sub(c);
        cpu.write_reg8(Reg8::A, res);
        cpu.write_reg16(Reg16::WZ, addr);
        update_flags_sbc8(cpu, a, v, c, res);
        cpu.inc_pc(2);
    }

    open spec fn accessed(&self) -> (OutputRegisters, OutputRegisters) {
        (OA | OF | OIX | OWZ, OA | OF | OWZ)
    }

    fn get_accessed_regs(&self) -> (regs: (OutputRegisters, OutputRegisters)) {
        (OA | OF | OIX | OWZ, OA | OF | OWZ)
    }
}

/// AND (IY+d): bitwise and into A; H set.
#[derive(Clone, Copy)]
pub struct AndMemIyD;

impl Instruction for AndMemIyD {
    open spec fn valid(&self) -> bool {
        true
    }

    open spec fn next_state(&self, s: CpuModel) -> CpuModel {
        let s0 = s;
        let pc = s0.regs.pc;
        let a = s0.regs.reg8(Reg8::A);
        let pc1 = wrap16(pc + 1);
        let d = s0.mem_at(pc1);
        let s1 = s0.after_read(pc1, 3);
        let base = s1.regs.reg16(Reg16::IY);
        let addr = index_addr(base, d);
        let s2 = s1.after_no_mreq(pc1);
        let s3 = s2.after_no_mreq(pc1);
        let s4 = s3.after_no_mreq(pc1);
        let s5 = s4.after_no_mreq(pc1);
        let s6 = s5.after_no_mreq(pc1);
        let v = s6.mem_at(addr);
        let s7 = s6.after_read(addr, 3);
        let res = a & v;
        let s8 = s7.set_regs(s7.regs.with_reg8(Reg8::A, res));
        let s9 = s8.set_regs(s8.regs.with_reg16(Reg16::WZ, addr));
        let s10 = s9.set_regs(s9.regs.with_f(logical_flags(s9.regs.f, res)));
        let s11 = s10.set_regs(s10.regs.with_f(s10.regs.f | HALF_CARRY_FLAG));
        let s12 = s11.set_regs(s11.regs.advance_pc(2));
        s12
    }

    #[verifier::spinoff_prover]
    #[verifier::rlimit(100)]
    fn execute(&self, cpu: &mut Cpu) {
        let pc: u16 = cpu.get_pc();
        let a: u8 = cpu.read_reg8(Reg8::A);
        let pc1: u16 = pc.wrapping_add(1);
        let d: u8 = cpu.read_word(pc1);
        let base: u16 = cpu.read_reg16(Reg16::IY);
        let addr: u16 = offset_addr(base, d);
        cpu.contend_read_no_mreq(pc1);
        cpu.contend_read_no_mreq(pc1);
        cpu.contend_read_no_mreq(pc1);
        cpu.contend_read_no_mreq(pc1);
        cpu.contend_read_no_mreq(pc1);
        let v: u8 = cpu.read_word(addr);
        let res: u8 = a & v;
        cpu.write_reg8(Reg8::A, res);
        cpu.write_reg16(Reg16::WZ, addr);
        update_flags_logical(cpu, res);
        cpu.set_flag(HALF_CARRY_FLAG);
        cpu.inc_pc(2);
    }

    open spec fn accessed(&self) -> (OutputRegisters, OutputRegisters) {
        (OA | OF | OIY | OWZ, OA | OF | OWZ)
    }

    fn get_accessed_regs(&self) -> (regs: (OutputRegisters, OutputRegisters)) {
        (OA | OF | OIY | OWZ, OA | OF | OWZ)
    }
}

/// XOR (IY+d): exclusive or into A; H cleared.
#[derive(Clone, Copy)]
pub struct XorMemIyD;

impl Instruction for XorMemIyD {
    open spec fn valid(&self) -> bool {
        true
    }

    open spec fn next_state(&self, s: CpuModel) -> CpuModel {
        let s0 = s;
        let pc = s0.regs.pc;
        let a = s0.regs.reg8(Reg8::A);
        let pc1 = wrap16(pc + 1);
        let d = s0.mem_at(pc1);
        let s1 = s0.after_read(pc1, 3);
        let base = s1.regs.reg16(Reg16::IY);
        let addr = index_addr(base, d);
        let s2 = s1.after_no_mreq(pc1);
        let s3 = s2.after_no_mreq(pc1);
        let s4 = s3.after_no_mreq(pc1);
        let s5 = s4.after_no_mreq(pc1);
        let s6 = s5.after_no_mreq(pc1);
        let v = s6.mem_at(addr);
        let s7 = s6.after_read(addr, 3);
        let res = a ^ v;
        let s8 = s7.set_regs(s7.regs.with_reg8(Reg8::A, res));
        let s9 = s8.set_regs(s8.regs.with_reg16(Reg16::WZ, addr));
        let s10 = s9.set_regs(s9.regs.with_f(logical_flags(s9.regs.f, res)));
        let s11 = s10.set_regs(s10.regs.with_f(s10.regs.f & !HALF_CARRY_FLAG));
        let s12 = s11.set_regs(s11.regs.advance_pc(2));
        s12
    }

    #[verifier::spinoff_prover]
    #[verifier::rlimit(100)]
    fn execute(&self, cpu: &mut Cpu) {
        let pc: u16 = cpu.get_pc();
        let a: u8 = cpu.read_reg8(Reg8::A);
        let pc1: u16 = pc.wrapping_add(1);
        let d: u8 = cpu.read_word(pc1);
        let base: u16 = cpu.read_reg16(Reg16::IY);
        let addr: u16 = offset_addr(base, d);
        cpu.contend_read_no_mreq(pc1);
        cpu.contend_read_no_mreq(pc1);
        cpu.contend_read_no_mreq(pc1);
        cpu.contend_read_no_mreq(pc1);
        cpu.contend_read_no_mreq(pc1);
        let v: u8 = cpu.read_word(addr);
        let res: u8 = a ^ v;
        cpu.write_reg8(Reg8::A, res);
        cpu.write_reg16(Reg16::WZ, addr);
        update_flags_logical(cpu, res);
        cpu.clear_flag(HALF_CARRY_FLAG);
        cpu.inc_pc(2);
    }

    open spec fn accessed(&self) -> (OutputRegisters, OutputRegisters) {
        (OA | OF | OIY | OWZ, OA | OF | OWZ)
    }

    fn get_accessed_regs(&self) -> (regs: (OutputRegisters, OutputRegisters)) {
        (OA | OF | OIY | OWZ, OA | OF | OWZ)
    }
}

/// OR (IY+d): bitwise or into A; H cleared.
#[derive(Clone, Copy)]
pub struct OrMemIyD;

impl Instruction for OrMemIyD {
    open spec fn valid(&self) -> bool {
        true
    }

    open spec fn next_state(&self, s: CpuModel) -> CpuModel {
        let s0 = s;
        let pc = s0.regs.pc;
        let a = s0.regs.reg8(Reg8::A);
        let pc1 = wrap16(pc + 1);
        let d = s0.mem_at(pc1);
        let s1 = s0.after_read(pc1, 3);
        let base = s1.regs.reg16(Reg16::IY);
        let addr = index_addr(base, d);
        let s2 = s1.after_no_mreq(pc1);
        let s3 = s2.after_no_mreq(pc1);
        let s4 = s3.after_no_mreq(pc1);
        let s5 = s4.after_no_mreq(pc1);
        let s6 = s5.after_no_mreq(pc1);
        let v = s6.mem_at(addr);
        let s7 = s6.after_read(addr, 3);
        let res = a | v;
        let s8 = s7.set_regs(s7.regs.with_reg8(Reg8::A, res));
        let s9 = s8.set_regs(s8.regs.with_reg16(Reg16::WZ, addr));
        let s10 = s9.set_regs(s9.regs.with_f(logical_flags(s9.regs.f, res)));
        let s11 = s10.set_regs(s10.regs.with_f(s10.regs.f & !HALF_CARRY_FLAG));
        let s12 = s11.set_regs(s11.regs.advance_pc(2));
        s12
    }

    #[verifier::spinoff_prover]
    #[verifier::rlimit(100)]
    fn execute(&self, cpu: &mut Cpu) {
        let pc: u16 = cpu.get_pc();
        let a: u8 = cpu.read_reg8(Reg8::A);
        let pc1: u16 = pc.wrapping_add(1);
        let d: u8 = cpu.read_word(pc1);
        let base: u16 = cpu.read_reg16(Reg16::IY);
        let addr: u16 = offset_addr(base, d);
        cpu.contend_read_no_mreq(pc1);
        cpu.contend_read_no_mreq(pc1);
        cpu.contend_read_no_mreq(pc1);
        cpu.contend_read_no_mreq(pc1);
        cpu.contend_read_no_mreq(pc1);
        let v: u8 = cpu.read_word(addr);
        let res: u8 = a | v;
        cpu.write_reg8(Reg8::A, res);
        cpu.write_reg16(Reg16::WZ, addr);
        update_flags_logical(cpu, res);
        cpu.clear_flag(HALF_CARRY_FLAG);
        cpu.inc_pc(2);
    }

    open spec fn accessed(&self) -> (OutputRegisters, OutputRegisters) {
        (OA | OF | OIY | OWZ, OA | OF | OWZ)
    }

    fn get_accessed_regs(&self) -> (regs: (OutputRegisters, OutputRegisters)) {
        (OA | OF | OIY | OWZ, OA | OF | OWZ)
    }
}

/// CP (IY+d): compares with A, which is left unchanged.
#[derive(Clone, Copy)]
pub struct CpMemIyD;

impl Instruction for CpMemIyD {
    open spec fn valid(&self) -> bool {
        true
    }

    open spec fn next_state(&self, s: CpuModel) -> CpuModel {
        let s0 = s;
        let pc = s0.regs.pc;
        let a = s0.regs.reg8(Reg8::A);
        let pc1 = wrap16(pc + 1);
        let d = s0.mem_at(pc1);
        let s1 = s0.after_read(pc1, 3);
        let base = s1.regs.reg16(Reg16::IY);
        let addr = index_addr(base, d);
        let s2 = s1.after_no_mreq(pc1);
        let s3 = s2.after_no_mreq(pc1);
        let s4 = s3.after_no_mreq(pc1);
        let s5 = s4.after_no_mreq(pc1);
        let s6 = s5.after_no_mreq(pc1);
        let v = s6.mem_at(addr);
        let s7 = s6.after_read(addr, 3);
        let res = wrap8(a - v);
        let s8 = s7.set_regs(s7.regs.with_reg16(Reg16::WZ, addr));
        let s9 = s8.set_regs(s8.regs.with_f(cp8_flags(a, v, res)));
        let s10 = s9.set_regs(s9.regs.advance_pc(2));
        s10
    }

    #[verifier::spinoff_prover]
    #[verifier::rlimit(100)]
    fn execute(&self, cpu: &mut Cpu) {
        let pc: u16 = cpu.get_pc();
        let a: u8 = cpu.read_reg8(Reg8::A);
        let pc1: u16 = pc.wrapping_add(1);
        let d: u8 = cpu.read_word(pc1);
        let base: u16 = cpu.read_reg16(Reg16::IY);
        let addr: u16 = offset_addr(base, d);
        cpu.contend_read_no_mreq(pc1);
        cpu.contend_read_no_mreq(pc1);
        cpu.contend_read_no_mreq(pc1);
        cpu.contend_read_no_mreq(pc1);
        cpu.contend_read_no_mreq(pc1);
        let v: u8 = cpu.read_word(addr);
        let res: u8 = a.wrapping_sub(v);
        cpu.write_reg16(Reg16::WZ, addr);
        update_flags_cp8(cpu, a, v, res);
        cpu.inc_pc(2);
    }

    open spec fn accessed(&self) -> (OutputRegisters, OutputRegisters) {
        (OA | OF | OIY | OWZ, OF | OWZ)
    }

    fn get_accessed_regs(&self) -> (regs: (OutputRegisters, OutputRegisters)) {
        (OA | OF | OIY | OWZ, OF | OWZ)
    }
}

/// EX (SP), IY: swaps the index register with the top of the stack.
#[derive(Clone, Copy)]
pub struct ExMemSpIy;

impl Instruction for ExMemSpIy {
    open spec fn valid(&self) -> bool {
        true
    }

    open spec fn next_state(&self, s: CpuModel) -> CpuModel {
        let s0 = s;
        let sp = s0.regs.reg16(Reg16::SP);
        let x = s0.regs.reg16(Reg16::IY);
        let xh = hi8(x);
        let xl = lo8(x);
        let lo = s0.mem_at(sp);
        let s1 = s0.after_read(sp, 3);
        let sp1 = wrap16(sp + 1);
        let hi = s1.mem_at(sp1);
        let s2 = s1.after_read(sp1, 3);
        let memval = word(hi, lo);
        let s3 = s2.after_no_mreq(sp1);
        let s4 = s3.set_regs(s3.regs.with_reg16(Reg16::IY, memval));
        let s5 = s4.after_write(sp1, xh);
        let s6 = s5.after_write(sp, xl);
        let s7 = s6.after_no_mreq(sp);
        let s8 = s7.after_no_mreq(sp);
        let s9 = s8.set_regs(s8.regs.advance_pc(1));
        s9
    }

    #[verifier::spinoff_prover]
    #[verifier::rlimit(100)]
    fn execute(&self, cpu: &mut Cpu) {
        let sp: u16 = cpu.read_reg16(Reg16::SP);
        let x: u16 = cpu.read_reg16(Reg16::IY);
        let xh: u8 = (x / 256) as u8;
        let xl: u8 = (x % 256) as u8;
        let lo: u8 = cpu.read_word(sp);
        let sp1: u16 = sp.wrapping_add(1);
        let hi: u8 = cpu.read_word(sp1);
        let memval: u16 = (hi as u16) * 256 + lo as u16;
        cpu.contend_read_no_mreq(sp1);
        cpu.write_reg16(Reg16::IY, memval);
        cpu.write_word(sp1, xh);
        cpu.write_word(sp, xl);
        cpu.contend_write_no_mreq(sp);
        cpu.contend_write_no_mreq(sp);
        cpu.inc_pc(1);
    }

    open spec fn accessed(&self) -> (OutputRegisters, OutputRegisters) {
        (OSP | OIY, OIY)
    }

    fn get_accessed_regs(&self) -> (regs: (OutputRegisters, OutputRegisters)) {
        (OSP | OIY, OIY)
    }
}

/// JP (IY): jumps to the address in the index register.
#[derive(Clone, Copy)]
pub struct JpIy;

impl Instruction for JpIy {
    open spec fn valid(&self) -> bool {
        true
    }

    open spec fn next_state(&self, s: CpuModel) -> CpuModel {
        let s0 = s;
        let x = s0.regs.reg16(Reg16::IY);
        let s1 = s0.set_regs(s0.regs.with_pc(x));
        s1
    }

    #[verifier::spinoff_prover]
    #[verifier::rlimit(80)]
    fn execute(&self, cpu: &mut Cpu) {
        let x: u16 = cpu.read_reg16(Reg16::IY);
        cpu.set_pc(x);
    }

    open spec fn accessed(&self) -> (OutputRegisters, OutputRegisters) {
        (OIY, ONONE)
    }

    fn get_accessed_regs(&self) -> (regs: (OutputRegisters, OutputRegisters)) {
        (OIY, ONONE)
    }
}

/// LD SP, IY: copies the index register into SP.
#[derive(Clone, Copy)]
pub struct LdSpIy;

impl Instruction for LdSpIy {
    open spec fn valid(&self) -> bool {
        true
    }

    open spec fn next_state(&self, s: CpuModel) -> CpuModel {
        let s0 = s;
        let x = s0.regs.reg16(Reg16::IY);
        let ir = s0.regs.reg16(Reg16::IR);
        let s1 = s0.after_no_mreq(ir);
        let s2 = s1.after_no_mreq(ir);
        let s3 = s2.set_regs(s2.regs.with_reg16(Reg16::SP, x));
        let s4 = s3.set_regs(s3.regs.advance_pc(1));
        s4
    }

    #[verifier::spinoff_prover]
    #[verifier::rlimit(80)]
    fn execute(&self, cpu: &mut Cpu) {
        let x: u16 = cpu.read_reg16(Reg16::IY);
        let ir: u16 = cpu.read_reg16(Reg16::IR);
        cpu.contend_read_no_mreq(ir);
        cpu.contend_read_no_mreq(ir);
        cpu.write_reg16(Reg16::SP, x);
        cpu.inc_pc(1);
    }

    open spec fn accessed(&self) -> (OutputRegisters, OutputRegisters) {
        (OSP | OIY, OSP)
    }

    fn get_accessed_regs(&self) -> (regs: (OutputRegisters, OutputRegisters)) {
        (OSP | OIY, OSP)
    }
}

/// The opcodes after the FD prefix (IY).
#[verifier::opaque]
pub open spec fn fd_next(s: CpuModel, op: u8) -> CpuModel {
    match op {
        0x09u8 => (AddIyRr{r:Reg16::BC}).next_state(s),
        0x19u8 => (AddIyRr{r:Reg16::DE}).next_state(s),
        0x21u8 => (LdDdNn{r:Reg16::IY}).next_state(s),
        0x22u8 => (LdMemNnDd{r:Reg16::IY}).next_state(s),
        0x23u8 => (IncSs{r:Reg16::IY}).next_state(s),
        0x24u8 => (IncR{r:Reg8::IYH}).next_state(s),
        0x25u8 => (DecR{r:Reg8::IYH}).next_state(s),
        0x26u8 => (LdRN{r:Reg8::IYH}).next_state(s),
        0x29u8 => (AddIyRr{r:Reg16::IY}).next_state(s),
        0x2Au8 => (LdDdMemNn{r:Reg16::IY}).next_state(s),
        0x2Bu8 => (DecSs{r:Reg16::IY}).next_state(s),
        0x2Cu8 => (IncR{r:Reg8::IYL}).next_state(s),
        0x2Du8 => (DecR{r:Reg8::IYL}).next_state(s),
        0x2Eu8 => (LdRN{r:Reg8::IYL}).next_state(s),
        0x34u8 => (IncMemIyD).next_state(s),
        0x35u8 => (DecMemIyD).next_state(s),
        0x36u8 => (LdMemIyDN).next_state(s),
        0x39u8 => (AddIyRr{r:Reg16::SP}).next_state(s),
        0x40u8 => (LdRR{rt:Reg8::B,rs:Reg8::B}).next_state(s),
        0x41u8 => (LdRR{rt:Reg8::B,rs:Reg8::C}).next_state(s),
        0x42u8 => (LdRR{rt:Reg8::B,rs:Reg8::D}).next_state(s),
        0x43u8 => (LdRR{rt:Reg8::B,rs:Reg8::E}).next_state(s),
        0x44u8 => (LdRR{rt:Reg8::B,rs:Reg8::IYH}).next_state(s),
        0x45u8 => (LdRR{rt:Reg8::B,rs:Reg8::IYL}).next_state(s),
        0x46u8 => (LdRMemIyD{r:Reg8::B}).next_state(s),
        0x47u8 => (LdRR{rt:Reg8::B,rs:Reg8::A}).next_state(s),
        0x48u8 => (LdRR{rt:Reg8::C,rs:Reg8::B}).next_state(s),
        0x49u8 => (LdRR{rt:Reg8::C,rs:Reg8::C}).next_state(s),
        0x4Au8 => (LdRR{rt:Reg8::C,rs:Reg8::D}).next_state(s),
        0x4Bu8 => (LdRR{rt:Reg8::C,rs:Reg8::E}).next_state(s),
        0x4Cu8 => (LdRR{rt:Reg8::C,rs:Reg8::IYH}).next_state(s),
        0x4Du8 => (LdRR{rt:Reg8::C,rs:Reg8::IYL}).next_state(s),
        0x4Eu8 => (LdRMemIyD{r:Reg8::C}).next_state(s),
        0x4Fu8 => (LdRR{rt:Reg8::C,rs:Reg8::A}).next_state(s),
        0x50u8 => (LdRR{rt:Reg8::D,rs:Reg8::B}).next_state(s),
        0x51u8 => (LdRR{rt:Reg8::D,rs:Reg8::C}).next_state(s),
        0x52u8 => (LdRR{rt:Reg8::D,rs:Reg8::D}).next_state(s),
        0x53u8 => (LdRR{rt:Reg8::D,rs:Reg8::E}).next_state(s),
        0x54u8 => (LdRR{rt:Reg8::D,rs:Reg8::IYH}).next_state(s),
        0x55u8 => (LdRR{rt:Reg8::D,rs:Reg8::IYL}).next_state(s),
        0x56u8 => (LdRMemIyD{r:Reg8::D}).next_state(s),
        0x57u8 => (LdRR{rt:Reg8::D,rs:Reg8::A}).next_state(s),
        0x58u8 => (LdRR{rt:Reg8::E,rs:Reg8::B}).next_state(s),
        0x59u8 => (LdRR{rt:Reg8::E,rs:Reg8::C}).next_state(s),
        0x5Au8 => (LdRR{rt:Reg8::E,rs:Reg8::D}).next_state(s),
        0x5Bu8 => (LdRR{rt:Reg8::E,rs:Reg8::E}).next_state(s),
        0x5Cu8 => (LdRR{rt:Reg8::E,rs:Reg8::IYH}).next_state(s),
        0x5Du8 => (LdRR{rt:Reg8::E,rs:Reg8::IYL}).next_state(s),
        0x5Eu8 => (LdRMemIyD{r:Reg8::E}).next_state(s),
        0x5Fu8 => (LdRR{rt:Reg8::E,rs:Reg8::A}).next_state(s),
        0x60u8 => (LdRR{rt:Reg8::IYH,rs:Reg8::B}).next_state(s),
        0x61u8 => (LdRR{rt:Reg8::IYH,rs:Reg8::C}).next_state(s),
        0x62u8 => (LdRR{rt:Reg8::IYH,rs:Reg8::D}).next_state(s),
        0x63u8 => (LdRR{rt:Reg8::IYH,rs:Reg8::E}).next_state(s),
        0x64u8 => (LdRR{rt:Reg8::IYH,rs:Reg8::IYH}).next_state(s),
        0x65u8 => (LdRR{rt:Reg8::IYH,rs:Reg8::IYL}).next_state(s),
        0x66u8 => (LdRMemIyD{r:Reg8::H}).next_state(s),
        0x67u8 => (LdRR{rt:Reg8::IYH,rs:Reg8::A}).next_state(s),
        0x68u8 => (LdRR{rt:Reg8::IYL,rs:Reg8::B}).next_state(s),
        0x69u8 => (LdRR{rt:Reg8::IYL,rs:Reg8::C}).next_state(s),
        0x6Au8 => (LdRR{rt:Reg8::IYL,rs:Reg8::D}).next_state(s),
        0x6Bu8 => (LdRR{rt:Reg8::IYL,rs:Reg8::E}).next_state(s),
        0x6Cu8 => (LdRR{rt:Reg8::IYL,rs:Reg8::IYH}).next_state(s),
        0x6Du8 => (LdRR{rt:Reg8::IYL,rs:Reg8::IYL}).next_state(s),
        0x6Eu8 => (LdRMemIyD{r:Reg8::L}).next_state(s),
        0x6Fu8 => (LdRR{rt:Reg8::IYL,rs:Reg8::A}).next_state(s),
        0x70u8 => (LdMemIyDR{r:Reg8::B}).next_state(s),
        0x71u8 => (LdMemIyDR{r:Reg8::C}).next_state(s),
        0x72u8 => (LdMemIyDR{r:Reg8::D}).next_state(s),
        0x73u8 => (LdMemIyDR{r:Reg8::E}).next_state(s),
        0x74u8 => (LdMemIyDR{r:Reg8::H}).next_state(s),
        0x75u8 => (LdMemIyDR{r:Reg8::L}).next_state(s),
        0x77u8 => (LdMemIyDR{r:Reg8::A}).next_state(s),
        0x78u8 => (LdRR{rt:Reg8::A,rs:Reg8::B}).next_state(s),
        0x79u8 => (LdRR{rt:Reg8::A,rs:Reg8::C}).next_state(s),
        0x7Au8 => (LdRR{rt:Reg8::A,rs:Reg8::D}).next_state(s),
        0x7Bu8 => (LdRR{rt:Reg8::A,rs:Reg8::E}).next_state(s),
        0x7Cu8 => (LdRR{rt:Reg8::A,rs:Reg8::IYH}).next_state(s),
        0x7Du8 => (LdRR{rt:Reg8::A,rs:Reg8::IYL}).next_state(s),
        0x7Eu8 => (LdRMemIyD{r:Reg8::A}).next_state(s),
        0x7Fu8 => (LdRR{rt:Reg8::A,rs:Reg8::A}).next_state(s),
        0x84u8 => (AddR{r:Reg8::IYH}).next_state(s),
        0x85u8 => (AddR{r:Reg8::IYL}).next_state(s),
        0x86u8 => (AddMemIyD).next_state(s),
        0x8Cu8 => (AdcR{r:Reg8::IYH}).next_state(s),
        0x8Du8 => (AdcR{r:Reg8::IYL}).next_state(s),
        0x8Eu8 => (AdcMemIyD).next_state(s),
        0x94u8 => (SubR{r:Reg8::IYH}).next_state(s),
        0x95u8 => (SubR{r:Reg8::IYL}).next_state(s),
        0x96u8 => (SubMemIyD).next_state(s),
        0x9Cu8 => (SbcR{r:Reg8::IYH}).next_state(s),
        0x9Du8 => (SbcR{r:Reg8::IYL}).next_state(s),
        0x9Eu8 => (SbcMemIyD).next_state(s),
        0xA4u8 => (AndR{r:Reg8::IYH}).next_state(s),
        0xA5u8 => (AndR{r:Reg8::IYL}).next_state(s),
        0xA6u8 => (AndMemIyD).next_state(s),
        0xACu8 => (XorR{r:Reg8::IYH}).next_state(s),
        0xADu8 => (XorR{r:Reg8::IYL}).next_state(s),
        0xAEu8 => (XorMemIyD).next_state(s),
        0xB4u8 => (OrR{r:Reg8::IYH}).next_state(s),
        0xB5u8 => (OrR{r:Reg8::IYL}).next_state(s),
        0xB6u8 => (OrMemIyD).next_state(s),
        0xBCu8 => (CpR{r:Reg8::IYH}).next_state(s),
        0xBDu8 => (CpR{r:Reg8::IYL}).next_state(s),
        0xBEu8 => (CpMemIyD).next_state(s),
        0xE1u8 => (PopQq{r:Reg16::IY}).next_state(s),
        0xE3u8 => (ExMemSpIy).next_state(s),
        0xE5u8 => (PushQq{r:Reg16::IY}).next_state(s),
        0xE9u8 => (JpIy).next_state(s),
        0xF9u8 => (LdSpIy).next_state(s),
        _ => s,
    }
}

/// Whether the table has an instruction for the opcode.
pub open spec fn fd_supported(op: u8) -> bool {
    !(op == 0x00u8 || op == 0x01u8 || op == 0x02u8 || op == 0x03u8 || op == 0x04u8 || op == 0x05u8 || op == 0x06u8 || op == 0x07u8 || op == 0x08u8 || op == 0x0Au8 || op == 0x0Bu8 || op == 0x0Cu8 || op == 0x0Du8 || op == 0x0Eu8 || op == 0x0Fu8 || op == 0x10u8 || op == 0x11u8 || op == 0x12u8 || op == 0x13u8 || op == 0x14u8 || op == 0x15u8 || op == 0x16u8 || op == 0x17u8 || op == 0x18u8 || op == 0x1Au8 || op == 0x1Bu8 || op == 0x1Cu8 || op == 0x1Du8 || op == 0x1Eu8 || op == 0x1Fu8 || op == 0x20u8 || op == 0x27u8 || op == 0x28u8 || op == 0x2Fu8 || op == 0x30u8 || op == 0x31u8 || op == 0x32u8 || op == 0x33u8 || op == 0x37u8 || op == 0x38u8 || op == 0x3Au8 || op == 0x3Bu8 || op == 0x3Cu8 || op == 0x3Du8 || op == 0x3Eu8 || op == 0x3Fu8 || op == 0x76u8 || op == 0x80u8 || op == 0x81u8 || op == 0x82u8 || op == 0x83u8 || op == 0x87u8 || op == 0x88u8 || op == 0x89u8 || op == 0x8Au8 || op == 0x8Bu8 || op == 0x8Fu8 || op == 0x90u8 || op == 0x91u8 || op == 0x92u8 || op == 0x93u8 || op == 0x97u8 || op == 0x98u8 || op == 0x99u8 || op == 0x9Au8 || op == 0x9Bu8 || op == 0x9Fu8 || op == 0xA0u8 || op == 0xA1u8 || op == 0xA2u8 || op == 0xA3u8 || op == 0xA7u8 || op == 0xA8u8 || op == 0xA9u8 || op == 0xAAu8 || op == 0xABu8 || op == 0xAFu8 || op == 0xB0u8 || op == 0xB1u8 || op == 0xB2u8 || op == 0xB3u8 || op == 0xB7u8 || op == 0xB8u8 || op == 0xB9u8 || op == 0xBAu8 || op == 0xBBu8 || op == 0xBFu8 || op == 0xC0u8 || op == 0xC1u8 || op == 0xC2u8 || op == 0xC3u8 || op == 0xC4u8 || op == 0xC5u8 || op == 0xC6u8 || op == 0xC7u8 || op == 0xC8u8 || op == 0xC9u8 || op == 0xCAu8 || op == 0xCBu8 || op == 0xCCu8 || op == 0xCDu8 || op == 0xCEu8 || op == 0xCFu8 || op == 0xD0u8 || op == 0xD1u8 || op == 0xD2u8 || op == 0xD3u8 || op == 0xD4u8 || op == 0xD5u8 || op == 0xD6u8 || op == 0xD7u8 || op == 0xD8u8 || op == 0xD9u8 || op == 0xDAu8 || op == 0xDBu8 || op == 0xDCu8 || op == 0xDDu8 || op == 0xDEu8 || op == 0xDFu8 || op == 0xE0u8 || op == 0xE2u8 || op == 0xE4u8 || op == 0xE6u8 || op == 0xE7u8 || op == 0xE8u8 || op == 0xEAu8 || op == 0xEBu8 || op == 0xECu8 || op == 0xEDu8 || op == 0xEEu8 || op == 0xEFu8 || op == 0xF0u8 || op == 0xF1u8 || op == 0xF2u8 || op == 0xF3u8 || op == 0xF4u8 || op == 0xF5u8 || op == 0xF6u8 || op == 0xF7u8 || op == 0xF8u8 || op == 0xFAu8 || op == 0xFBu8 || op == 0xFCu8 || op == 0xFDu8 || op == 0xFEu8 || op == 0xFFu8)
}

/// Executes the table's instruction for `op`; says whether there is one.
#[verifier::rlimit(100)]
pub fn execute_fd(cpu: &mut Cpu, op: u8) -> (supported: bool)
    requires
        old(cpu).wf(),
        old(cpu)@.tcycles <= TCYCLE_CEILING,
    ensures
        final(cpu).wf(),
        final(cpu)@ == fd_next(old(cpu)@, op),
        supported == fd_supported(op),
        !supported ==> final(cpu)@ == old(cpu)@,
        final(cpu)@.tcycles <= old(cpu)@.tcycles + MAX_STEP_TCYCLES,
{
    proof {
        reveal(fd_next);
    }
    match op {
        0x09 => {
            (AddIyRr{r:Reg16::BC}).execute(cpu);
            true
        },
        0x19 => {
            (AddIyRr{r:Reg16::DE}).execute(cpu);
            true
        },
        0x21 => {
            (LdDdNn{r:Reg16::IY}).execute(cpu);
            true
        },
        0x22 => {
            (LdMemNnDd{r:Reg16::IY}).execute(cpu);
            true
        },
        0x23 => {
            (IncSs{r:Reg16::IY}).execute(cpu);
            true
        },
        0x24 => {
            (IncR{r:Reg8::IYH}).execute(cpu);
            true
        },
        0x25 => {
            (DecR{r:Reg8::IYH}).execute(cpu);
            true
        },
        0x26 => {
            (LdRN{r:Reg8::IYH}).execute(cpu);
            true
        },
        0x29 => {
            (AddIyRr{r:Reg16::IY}).execute(cpu);
            true
        },
        0x2A => {
            (LdDdMemNn{r:Reg16::IY}).execute(cpu);
            true
        },
        0x2B => {
            (DecSs{r:Reg16::IY}).execute(cpu);
            true
        },
        0x2C => {
            (IncR{r:Reg8::IYL}).execute(cpu);
            true
        },
        0x2D => {
            (DecR{r:Reg8::IYL}).execute(cpu);
            true
        },
        0x2E => {
            (LdRN{r:Reg8::IYL}).execute(cpu);
            true
        },
        0x34 => {
            (IncMemIyD).execute(cpu);
            true
        },
        0x35 => {
            (DecMemIyD).execute(cpu);
            true
        },
        0x36 => {
            (LdMemIyDN).execute(cpu);
            true
        },
        0x39 => {
            (AddIyRr{r:Reg16::SP}).execute(cpu);
            true
        },
        0x40 => {
            (LdRR{rt:Reg8::B,rs:Reg8::B}).execute(cpu);
            true
        },
        0x41 => {
            (LdRR{rt:Reg8::B,rs:Reg8::C}).execute(cpu);
            true
        },
        0x42 => {
            (LdRR{rt:Reg8::B,rs:Reg8::D}).execute(cpu);
            true
        },
        0x43 => {
            (LdRR{rt:Reg8::B,rs:Reg8::E}).execute(cpu);
            true
        },
        0x44 => {
            (LdRR{rt:Reg8::B,rs:Reg8::IYH}).execute(cpu);
            true
        },
        0x45 => {
            (LdRR{rt:Reg8::B,rs:Reg8::IYL}).execute(cpu);
            true
        },
        0x46 => {
            (LdRMemIyD{r:Reg8::B}).execute(cpu);
            true
        },
        0x47 => {
            (LdRR{rt:Reg8::B,rs:Reg8::A}).execute(cpu);
            true
        },
        0x48 => {
            (LdRR{rt:Reg8::C,rs:Reg8::B}).execute(cpu);
            true
        },
        0x49 => {
            (LdRR{rt:Reg8::C,rs:Reg8::C}).execute(cpu);
            true
        },
        0x4A => {
            (LdRR{rt:Reg8::C,rs:Reg8::D}).execute(cpu);
            true
        },
        0x4B => {
            (LdRR{rt:Reg8::C,rs:Reg8::E}).execute(cpu);
            true
        },
        0x4C => {
            (LdRR{rt:Reg8::C,rs:Reg8::IYH}).execute(cpu);
            true
        },
        0x4D => {
            (LdRR{rt:Reg8::C,rs:Reg8::IYL}).execute(cpu);
            true
        },
        0x4E => {
            (LdRMemIyD{r:Reg8::C}).execute(cpu);
            true
        },
        0x4F => {
            (LdRR{rt:Reg8::C,rs:Reg8::A}).execute(cpu);
            true
        },
        0x50 => {
            (LdRR{rt:Reg8::D,rs:Reg8::B}).execute(cpu);
            true
        },
        0x51 => {
            (LdRR{rt:Reg8::D,rs:Reg8::C}).execute(cpu);
            true
        },
        0x52 => {
            (LdRR{rt:Reg8::D,rs:Reg8::D}).execute(cpu);
            true
        },
        0x53 => {
            (LdRR{rt:Reg8::D,rs:Reg8::E}).execute(cpu);
            true
        },
        0x54 => {
            (LdRR{rt:Reg8::D,rs:Reg8::IYH}).execute(cpu);
            true
        },
        0x55 => {
            (LdRR{rt:Reg8::D,rs:Reg8::IYL}).execute(cpu);
            true
        },
        0x56 => {
            (LdRMemIyD{r:Reg8::D}).execute(cpu);
            true
        },
        0x57 => {
            (LdRR{rt:Reg8::D,rs:Reg8::A}).execute(cpu);
            true
        },
        0x58 => {
            (LdRR{rt:Reg8::E,rs:Reg8::B}).execute(cpu);
            true
        },
        0x59 => {
            (LdRR{rt:Reg8::E,rs:Reg8::C}).execute(cpu);
            true
        },
        0x5A => {
            (LdRR{rt:Reg8::E,rs:Reg8::D}).execute(cpu);
            true
        },
        0x5B => {
            (LdRR{rt:Reg8::E,rs:Reg8::E}).execute(cpu);
            true
        },
        0x5C => {
            (LdRR{rt:Reg8::E,rs:Reg8::IYH}).execute(cpu);
            true
        },
        0x5D => {
            (LdRR{rt:Reg8::E,rs:Reg8::IYL}).execute(cpu);
            true
        },
        0x5E => {
            (LdRMemIyD{r:Reg8::E}).execute(cpu);
            true
        },
        0x5F => {
            (LdRR{rt:Reg8::E,rs:Reg8::A}).execute(cpu);
            true
        },
        0x60 => {
            (LdRR{rt:Reg8::IYH,rs:Reg8::B}).execute(cpu);
            true
        },
        0x61 => {
            (LdRR{rt:Reg8::IYH,rs:Reg8::C}).execute(cpu);
            true
        },
        0x62 => {
            (LdRR{rt:Reg8::IYH,rs:Reg8::D}).execute(cpu);
            true
        },
        0x63 => {
            (LdRR{rt:Reg8::IYH,rs:Reg8::E}).execute(cpu);
            true
        },
        0x64 => {
            (LdRR{rt:Reg8::IYH,rs:Reg8::IYH}).execute(cpu);
            true
        },
        0x65 => {
            (LdRR{rt:Reg8::IYH,rs:Reg8::IYL}).execute(cpu);
            true
        },
        0x66 => {
            (LdRMemIyD{r:Reg8::H}).execute(cpu);
            true
        },
        0x67 => {
            (LdRR{rt:Reg8::IYH,rs:Reg8::A}).execute(cpu);
            true
        },
        0x68 => {
            (LdRR{rt:Reg8::IYL,rs:Reg8::B}).execute(cpu);
            true
        },
        0x69 => {
            (LdRR{rt:Reg8::IYL,rs:Reg8::C}).execute(cpu);
            true
        },
        0x6A => {
            (LdRR{rt:Reg8::IYL,rs:Reg8::D}).execute(cpu);
            true
        },
        0x6B => {
            (LdRR{rt:Reg8::IYL,rs:Reg8::E}).execute(cpu);
            true
        },
        0x6C => {
            (LdRR{rt:Reg8::IYL,rs:Reg8::IYH}).execute(cpu);
            true
        },
        0x6D => {
            (LdRR{rt:Reg8::IYL,rs:Reg8::IYL}).execute(cpu);
            true
        },
        0x6E => {
            (LdRMemIyD{r:Reg8::L}).execute(cpu);
            true
        },
        0x6F => {
            (LdRR{rt:Reg8::IYL,rs:Reg8::A}).execute(cpu);
            true
        },
        0x70 => {
            (LdMemIyDR{r:Reg8::B}).execute(cpu);
            true
        },
        0x71 => {
            (LdMemIyDR{r:Reg8::C}).execute(cpu);
            true
        },
        0x72 => {
            (LdMemIyDR{r:Reg8::D}).execute(cpu);
            true
        },
        0x73 => {
            (LdMemIyDR{r:Reg8::E}).execute(cpu);
            true
        },
        0x74 => {
            (LdMemIyDR{r:Reg8::H}).execute(cpu);
            true
        },
        0x75 => {
            (LdMemIyDR{r:Reg8::L}).execute(cpu);
            true
        },
        0x77 => {
            (LdMemIyDR{r:Reg8::A}).execute(cpu);
            true
        },
        0x78 => {
            (LdRR{rt:Reg8::A,rs:Reg8::B}).execute(cpu);
            true
        },
        0x79 => {
            (LdRR{rt:Reg8::A,rs:Reg8::C}).execute(cpu);
            true
        },
        0x7A => {
            (LdRR{rt:Reg8::A,rs:Reg8::D}).execute(cpu);
            true
        },
        0x7B => {
            (LdRR{rt:Reg8::A,rs:Reg8::E}).execute(cpu);
            true
        },
        0x7C => {
            (LdRR{rt:Reg8::A,rs:Reg8::IYH}).execute(cpu);
            true
        },
        0x7D => {
            (LdRR{rt:Reg8::A,rs:Reg8::IYL}).execute(cpu);
            true
        },
        0x7E => {
            (LdRMemIyD{r:Reg8::A}).execute(cpu);
            true
        },
        0x7F => {
            (LdRR{rt:Reg8::A,rs:Reg8::A}).execute(cpu);
            true
        },
        0x84 => {
            (AddR{r:Reg8::IYH}).execute(cpu);
            true
        },
        0x85 => {
            (AddR{r:Reg8::IYL}).execute(cpu);
            true
        },
        0x86 => {
            (AddMemIyD).execute(cpu);
            true
        },
        0x8C => {
            (AdcR{r:Reg8::IYH}).execute(cpu);
            true
        },
        0x8D => {
            (AdcR{r:Reg8::IYL}).execute(cpu);
            true
        },
        0x8E => {
            (AdcMemIyD).execute(cpu);
            true
        },
        0x94 => {
            (SubR{r:Reg8::IYH}).execute(cpu);
            true
        },
        0x95 => {
            (SubR{r:Reg8::IYL}).execute(cpu);
            true
        },
        0x96 => {
            (SubMemIyD).execute(cpu);
            true
        },
        0x9C => {
            (SbcR{r:Reg8::IYH}).execute(cpu);
            true
        },
        0x9D => {
            (SbcR{r:Reg8::IYL}).execute(cpu);
            true
        },
        0x9E => {
            (SbcMemIyD).execute(cpu);
            true
        },
        0xA4 => {
            (AndR{r:Reg8::IYH}).execute(cpu);
            true
        },
        0xA5 => {
            (AndR{r:Reg8::IYL}).execute(cpu);
            true
        },
        0xA6 => {
            (AndMemIyD).execute(cpu);
            true
        },
        0xAC => {
            (XorR{r:Reg8::IYH}).execute(cpu);
            true
        },
        0xAD => {
            (XorR{r:Reg8::IYL}).execute(cpu);
            true
        },
        0xAE => {
            (XorMemIyD).execute(cpu);
            true
        },
        0xB4 => {
            (OrR{r:Reg8::IYH}).execute(cpu);
            true
        },
        0xB5 => {
            (OrR{r:Reg8::IYL}).execute(cpu);
            true
        },
        0xB6 => {
            (OrMemIyD).execute(cpu);
            true
        },
        0xBC => {
            (CpR{r:Reg8::IYH}).execute(cpu);
            true
        },
        0xBD => {
            (CpR{r:Reg8::IYL}).execute(cpu);
            true
        },
        0xBE => {
            (CpMemIyD).execute(cpu);
            true
        },
        0xE1 => {
            (PopQq{r:Reg16::IY}).execute(cpu);
            true
        },
        0xE3 => {
            (ExMemSpIy).execute(cpu);
            true
        },
        0xE5 => {
            (PushQq{r:Reg16::IY}).execute(cpu);
            true
        },
        0xE9 => {
            (JpIy).execute(cpu);
            true
        },
        0xF9 => {
            (LdSpIy).execute(cpu);
            true
        },
        _ => false,
    }
}

/// The registers the debugger shows around the instruction for `op`;
/// none for an opcode the table lacks.
#[verifier::opaque]
pub open spec fn fd_accessed(op: u8) -> (OutputRegisters, OutputRegisters) {
    match op {
        0x09u8 => (AddIyRr{r:Reg16::BC}).accessed(),
        0x19u8 => (AddIyRr{r:Reg16::DE}).accessed(),
        0x21u8 => (LdDdNn{r:Reg16::IY}).accessed(),
        0x22u8 => (LdMemNnDd{r:Reg16::IY}).accessed(),
        0x23u8 => (IncSs{r:Reg16::IY}).accessed(),
        0x24u8 => (IncR{r:Reg8::IYH}).accessed(),
        0x25u8 => (DecR{r:Reg8::IYH}).accessed(),
        0x26u8 => (LdRN{r:Reg8::IYH}).accessed(),
        0x29u8 => (AddIyRr{r:Reg16::IY}).accessed(),
        0x2Au8 => (LdDdMemNn{r:Reg16::IY}).accessed(),
        0x2Bu8 => (DecSs{r:Reg16::IY}).accessed(),
        0x2Cu8 => (IncR{r:Reg8::IYL}).accessed(),
        0x2Du8 => (DecR{r:Reg8::IYL}).accessed(),
        0x2Eu8 => (LdRN{r:Reg8::IYL}).accessed(),
        0x34u8 => (IncMemIyD).accessed(),
        0x35u8 => (DecMemIyD).accessed(),
        0x36u8 => (LdMemIyDN).accessed(),
        0x39u8 => (AddIyRr{r:Reg16::SP}).accessed(),
        0x40u8 => (LdRR{rt:Reg8::B,rs:Reg8::B}).accessed(),
        0x41u8 => (LdRR{rt:Reg8::B,rs:Reg8::C}).accessed(),
        0x42u8 => (LdRR{rt:Reg8::B,rs:Reg8::D}).accessed(),
        0x43u8 => (LdRR{rt:Reg8::B,rs:Reg8::E}).accessed(),
        0x44u8 => (LdRR{rt:Reg8::B,rs:Reg8::IYH}).accessed(),
        0x45u8 => (LdRR{rt:Reg8::B,rs:Reg8::IYL}).accessed(),
        0x46u8 => (LdRMemIyD{r:Reg8::B}).accessed(),
        0x47u8 => (LdRR{rt:Reg8::B,rs:Reg8::A}).accessed(),
        0x48u8 => (LdRR{rt:Reg8::C,rs:Reg8::B}).accessed(),
        0x49u8 => (LdRR{rt:Reg8::C,rs:Reg8::C}).accessed(),
        0x4Au8 => (LdRR{rt:Reg8::C,rs:Reg8::D}).accessed(),
        0x4Bu8 => (LdRR{rt:Reg8::C,rs:Reg8::E}).accessed(),
        0x4Cu8 => (LdRR{rt:Reg8::C,rs:Reg8::IYH}).accessed(),
        0x4Du8 => (LdRR{rt:Reg8::C,rs:Reg8::IYL}).accessed(),
        0x4Eu8 => (LdRMemIyD{r:Reg8::C}).accessed(),
        0x4Fu8 => (LdRR{rt:Reg8::C,rs:Reg8::A}).accessed(),
        0x50u8 => (LdRR{rt:Reg8::D,rs:Reg8::B}).accessed(),
        0x51u8 => (LdRR{rt:Reg8::D,rs:Reg8::C}).accessed(),
        0x52u8 => (LdRR{rt:Reg8::D,rs:Reg8::D}).accessed(),
        0x53u8 => (LdRR{rt:Reg8::D,rs:Reg8::E}).accessed(),
        0x54u8 => (LdRR{rt:Reg8::D,rs:Reg8::IYH}).accessed(),
        0x55u8 => (LdRR{rt:Reg8::D,rs:Reg8::IYL}).accessed(),
        0x56u8 => (LdRMemIyD{r:Reg8::D}).accessed(),
        0x57u8 => (LdRR{rt:Reg8::D,rs:Reg8::A}).accessed(),
        0x58u8 => (LdRR{rt:Reg8::E,rs:Reg8::B}).accessed(),
        0x59u8 => (LdRR{rt:Reg8::E,rs:Reg8::C}).accessed(),
        0x5Au8 => (LdRR{rt:Reg8::E,rs:Reg8::D}).accessed(),
        0x5Bu8 => (LdRR{rt:Reg8::E,rs:Reg8::E}).accessed(),
        0x5Cu8 => (LdRR{rt:Reg8::E,rs:Reg8::IYH}).accessed(),
        0x5Du8 => (LdRR{rt:Reg8::E,rs:Reg8::IYL}).accessed(),
        0x5Eu8 => (LdRMemIyD{r:Reg8::E}).accessed(),
        0x5Fu8 => (LdRR{rt:Reg8::E,rs:Reg8::A}).accessed(),
        0x60u8 => (LdRR{rt:Reg8::IYH,rs:Reg8::B}).accessed(),
        0x61u8 => (LdRR{rt:Reg8::IYH,rs:Reg8::C}).accessed(),
        0x62u8 => (LdRR{rt:Reg8::IYH,rs:Reg8::D}).accessed(),
        0x63u8 => (LdRR{rt:Reg8::IYH,rs:Reg8::E}).accessed(),
        0x64u8 => (LdRR{rt:Reg8::IYH,rs:Reg8::IYH}).accessed(),
        0x65u8 => (LdRR{rt:Reg8::IYH,rs:Reg8::IYL}).accessed(),
        0x66u8 => (LdRMemIyD{r:Reg8::H}).accessed(),
        0x67u8 => (LdRR{rt:Reg8::IYH,rs:Reg8::A}).accessed(),
        0x68u8 => (LdRR{rt:Reg8::IYL,rs:Reg8::B}).accessed(),
        0x69u8 => (LdRR{rt:Reg8::IYL,rs:Reg8::C}).accessed(),
        0x6Au8 => (LdRR{rt:Reg8::IYL,rs:Reg8::D}).accessed(),
        0x6Bu8 => (LdRR{rt:Reg8::IYL,rs:Reg8::E}).accessed(),
        0x6Cu8 => (LdRR{rt:Reg8::IYL,rs:Reg8::IYH}).accessed(),
        0x6Du8 => (LdRR{rt:Reg8::IYL,rs:Reg8::IYL}).accessed(),
        0x6Eu8 => (LdRMemIyD{r:Reg8::L}).accessed(),
        0x6Fu8 => (LdRR{rt:Reg8::IYL,rs:Reg8::A}).accessed(),
        0x70u8 => (LdMemIyDR{r:Reg8::B}).accessed(),
        0x71u8 => (LdMemIyDR{r:Reg8::C}).accessed(),
        0x72u8 => (LdMemIyDR{r:Reg8::D}).accessed(),
        0x73u8 => (LdMemIyDR{r:Reg8::E}).accessed(),
        0x74u8 => (LdMemIyDR{r:Reg8::H}).accessed(),
        0x75u8 => (LdMemIyDR{r:Reg8::L}).accessed(),
        0x77u8 => (LdMemIyDR{r:Reg8::A}).accessed(),
        0x78u8 => (LdRR{rt:Reg8::A,rs:Reg8::B}).accessed(),
        0x79u8 => (LdRR{rt:Reg8::A,rs:Reg8::C}).accessed(),
        0x7Au8 => (LdRR{rt:Reg8::A,rs:Reg8::D}).accessed(),
        0x7Bu8 => (LdRR{rt:Reg8::A,rs:Reg8::E}).accessed(),
        0x7Cu8 => (LdRR{rt:Reg8::A,rs:Reg8::IYH}).accessed(),
        0x7Du8 => (LdRR{rt:Reg8::A,rs:Reg8::IYL}).accessed(),
        0x7Eu8 => (LdRMemIyD{r:Reg8::A}).accessed(),
        0x7Fu8 => (LdRR{rt:Reg8::A,rs:Reg8::A}).accessed(),
        0x84u8 => (AddR{r:Reg8::IYH}).accessed(),
        0x85u8 => (AddR{r:Reg8::IYL}).accessed(),
        0x86u8 => (AddMemIyD).accessed(),
        0x8Cu8 => (AdcR{r:Reg8::IYH}).accessed(),
        0x8Du8 => (AdcR{r:Reg8::IYL}).accessed(),
        0x8Eu8 => (AdcMemIyD).accessed(),
        0x94u8 => (SubR{r:Reg8::IYH}).accessed(),
        0x95u8 => (SubR{r:Reg8::IYL}).accessed(),
        0x96u8 => (SubMemIyD).accessed(),
        0x9Cu8 => (SbcR{r:Reg8::IYH}).accessed(),
        0x9Du8 => (SbcR{r:Reg8::IYL}).accessed(),
        0x9Eu8 => (SbcMemIyD).accessed(),
        0xA4u8 => (AndR{r:Reg8::IYH}).accessed(),
        0xA5u8 => (AndR{r:Reg8::IYL}).accessed(),
        0xA6u8 => (AndMemIyD).accessed(),
        0xACu8 => (XorR{r:Reg8::IYH}).accessed(),
        0xADu8 => (XorR{r:Reg8::IYL}).accessed(),
        0xAEu8 => (XorMemIyD).accessed(),
        0xB4u8 => (OrR{r:Reg8::IYH}).accessed(),
        0xB5u8 => (OrR{r:Reg8::IYL}).accessed(),
        0xB6u8 => (OrMemIyD).accessed(),
        0xBCu8 => (CpR{r:Reg8::IYH}).accessed(),
        0xBDu8 => (CpR{r:Reg8::IYL}).accessed(),
        0xBEu8 => (CpMemIyD).accessed(),
        0xE1u8 => (PopQq{r:Reg16::IY}).accessed(),
        0xE3u8 => (ExMemSpIy).accessed(),
        0xE5u8 => (PushQq{r:Reg16::IY}).accessed(),
        0xE9u8 => (JpIy).accessed(),
        0xF9u8 => (LdSpIy).accessed(),
        _ => (ONONE, ONONE),
    }
}

/// The registers the debugger shows around the instruction for `op`.
pub fn accessed_regs_fd(op: u8) -> (regs: (OutputRegisters, OutputRegisters))
    ensures
        regs == fd_accessed(op),
{
    proof {
        reveal(fd_accessed);
    }
    match op {
        0x09 => (AddIyRr{r:Reg16::BC}).get_accessed_regs(),
        0x19 => (AddIyRr{r:Reg16::DE}).get_accessed_regs(),
        0x21 => (LdDdNn{r:Reg16::IY}).get_accessed_regs(),
        0x22 => (LdMemNnDd{r:Reg16::IY}).get_accessed_regs(),
        0x23 => (IncSs{r:Reg16::IY}).get_accessed_regs(),
        0x24 => (IncR{r:Reg8::IYH}).get_accessed_regs(),
        0x25 => (DecR{r:Reg8::IYH}).get_accessed_regs(),
        0x26 => (LdRN{r:Reg8::IYH}).get_accessed_regs(),
        0x29 => (AddIyRr{r:Reg16::IY}).get_accessed_regs(),
        0x2A => (LdDdMemNn{r:Reg16::IY}).get_accessed_regs(),
        0x2B => (DecSs{r:Reg16::IY}).get_accessed_regs(),
        0x2C => (IncR{r:Reg8::IYL}).get_accessed_regs(),
        0x2D => (DecR{r:Reg8::IYL}).get_accessed_regs(),
        0x2E => (LdRN{r:Reg8::IYL}).get_accessed_regs(),
        0x34 => (IncMemIyD).get_accessed_regs(),
        0x35 => (DecMemIyD).get_accessed_regs(),
        0x36 => (LdMemIyDN).get_accessed_regs(),
        0x39 => (AddIyRr{r:Reg16::SP}).get_accessed_regs(),
        0x40 => (LdRR{rt:Reg8::B,rs:Reg8::B}).get_accessed_regs(),
        0x41 => (LdRR{rt:Reg8::B,rs:Reg8::C}).get_accessed_regs(),
        0x42 => (LdRR{rt:Reg8::B,rs:Reg8::D}).get_accessed_regs(),
        0x43 => (LdRR{rt:Reg8::B,rs:Reg8::E}).get_accessed_regs(),
        0x44 => (LdRR{rt:Reg8::B,rs:Reg8::IYH}).get_accessed_regs(),
        0x45 => (LdRR{rt:Reg8::B,rs:Reg8::IYL}).get_accessed_regs(),
        0x46 => (LdRMemIyD{r:Reg8::B}).get_accessed_regs(),
        0x47 => (LdRR{rt:Reg8::B,rs:Reg8::A}).get_accessed_regs(),
        0x48 => (LdRR{rt:Reg8::C,rs:Reg8::B}).get_accessed_regs(),
        0x49 => (LdRR{rt:Reg8::C,rs:Reg8::C}).get_accessed_regs(),
        0x4A => (LdRR{rt:Reg8::C,rs:Reg8::D}).get_accessed_regs(),
        0x4B => (LdRR{rt:Reg8::C,rs:Reg8::E}).get_accessed_regs(),
        0x4C => (LdRR{rt:Reg8::C,rs:Reg8::IYH}).get_accessed_regs(),
        0x4D => (LdRR{rt:Reg8::C,rs:Reg8::IYL}).get_accessed_regs(),
        0x4E => (LdRMemIyD{r:Reg8::C}).get_accessed_regs(),
        0x4F => (LdRR{rt:Reg8::C,rs:Reg8::A}).get_accessed_regs(),
        0x50 => (LdRR{rt:Reg8::D,rs:Reg8::B}).get_accessed_regs(),
        0x51 => (LdRR{rt:Reg8::D,rs:Reg8::C}).get_accessed_regs(),
        0x52 => (LdRR{rt:Reg8::D,rs:Reg8::D}).get_accessed_regs(),
        0x53 => (LdRR{rt:Reg8::D,rs:Reg8::E}).get_accessed_regs(),
        0x54 => (LdRR{rt:Reg8::D,rs:Reg8::IYH}).get_accessed_regs(),
        0x55 => (LdRR{rt:Reg8::D,rs:Reg8::IYL}).get_accessed_regs(),
        0x56 => (LdRMemIyD{r:Reg8::D}).get_accessed_regs(),
        0x57 => (LdRR{rt:Reg8::D,rs:Reg8::A}).get_accessed_regs(),
        0x58 => (LdRR{rt:Reg8::E,rs:Reg8::B}).get_accessed_regs(),
        0x59 => (LdRR{rt:Reg8::E,rs:Reg8::C}).get_accessed_regs(),
        0x5A => (LdRR{rt:Reg8::E,rs:Reg8::D}).get_accessed_regs(),
        0x5B => (LdRR{rt:Reg8::E,rs:Reg8::E}).get_accessed_regs(),
        0x5C => (LdRR{rt:Reg8::E,rs:Reg8::IYH}).get_accessed_regs(),
        0x5D => (LdRR{rt:Reg8::E,rs:Reg8::IYL}).get_accessed_regs(),
        0x5E => (LdRMemIyD{r:Reg8::E}).get_accessed_regs(),
        0x5F => (LdRR{rt:Reg8::E,rs:Reg8::A}).get_accessed_regs(),
        0x60 => (LdRR{rt:Reg8::IYH,rs:Reg8::B}).get_accessed_regs(),
        0x61 => (LdRR{rt:Reg8::IYH,rs:Reg8::C}).get_accessed_regs(),
        0x62 => (LdRR{rt:Reg8::IYH,rs:Reg8::D}).get_accessed_regs(),
        0x63 => (LdRR{rt:Reg8::IYH,rs:Reg8::E}).get_accessed_regs(),
        0x64 => (LdRR{rt:Reg8::IYH,rs:Reg8::IYH}).get_accessed_regs(),
        0x65 => (LdRR{rt:Reg8::IYH,rs:Reg8::IYL}).get_accessed_regs(),
        0x66 => (LdRMemIyD{r:Reg8::H}).get_accessed_regs(),
        0x67 => (LdRR{rt:Reg8::IYH,rs:Reg8::A}).get_accessed_regs(),
        0x68 => (LdRR{rt:Reg8::IYL,rs:Reg8::B}).get_accessed_regs(),
        0x69 => (LdRR{rt:Reg8::IYL,rs:Reg8::C}).get_accessed_regs(),
        0x6A => (LdRR{rt:Reg8::IYL,rs:Reg8::D}).get_accessed_regs(),
        0x6B => (LdRR{rt:Reg8::IYL,rs:Reg8::E}).get_accessed_regs(),
        0x6C => (LdRR{rt:Reg8::IYL,rs:Reg8::IYH}).get_accessed_regs(),
        0x6D => (LdRR{rt:Reg8::IYL,rs:Reg8::IYL}).get_accessed_regs(),
        0x6E => (LdRMemIyD{r:Reg8::L}).get_accessed_regs(),
        0x6F => (LdRR{rt:Reg8::IYL,rs:Reg8::A}).get_accessed_regs(),
        0x70 => (LdMemIyDR{r:Reg8::B}).get_accessed_regs(),
        0x71 => (LdMemIyDR{r:Reg8::C}).get_accessed_regs(),
        0x72 => (LdMemIyDR{r:Reg8::D}).get_accessed_regs(),
        0x73 => (LdMemIyDR{r:Reg8::E}).get_accessed_regs(),
        0x74 => (LdMemIyDR{r:Reg8::H}).get_accessed_regs(),
        0x75 => (LdMemIyDR{r:Reg8::L}).get_accessed_regs(),
        0x77 => (LdMemIyDR{r:Reg8::A}).get_accessed_regs(),
        0x78 => (LdRR{rt:Reg8::A,rs:Reg8::B}).get_accessed_regs(),
        0x79 => (LdRR{rt:Reg8::A,rs:Reg8::C}).get_accessed_regs(),
        0x7A => (LdRR{rt:Reg8::A,rs:Reg8::D}).get_accessed_regs(),
        0x7B => (LdRR{rt:Reg8::A,rs:Reg8::E}).get_accessed_regs(),
        0x7C => (LdRR{rt:Reg8::A,rs:Reg8::IYH}).get_accessed_regs(),
        0x7D => (LdRR{rt:Reg8::A,rs:Reg8::IYL}).get_accessed_regs(),
        0x7E => (LdRMemIyD{r:Reg8::A}).get_accessed_regs(),
        0x7F => (LdRR{rt:Reg8::A,rs:Reg8::A}).get_accessed_regs(),
        0x84 => (AddR{r:Reg8::IYH}).get_accessed_regs(),
        0x85 => (AddR{r:Reg8::IYL}).get_accessed_regs(),
        0x86 => (AddMemIyD).get_accessed_regs(),
        0x8C => (AdcR{r:Reg8::IYH}).get_accessed_regs(),
        0x8D => (AdcR{r:Reg8::IYL}).get_accessed_regs(),
        0x8E => (AdcMemIyD).get_accessed_regs(),
        0x94 => (SubR{r:Reg8::IYH}).get_accessed_regs(),
        0x95 => (SubR{r:Reg8::IYL}).get_accessed_regs(),
        0x96 => (SubMemIyD).get_accessed_regs(),
        0x9C => (SbcR{r:Reg8::IYH}).get_accessed_regs(),
        0x9D => (SbcR{r:Reg8::IYL}).get_accessed_regs(),
        0x9E => (SbcMemIyD).get_accessed_regs(),
        0xA4 => (AndR{r:Reg8::IYH}).get_accessed_regs(),
        0xA5 => (AndR{r:Reg8::IYL}).get_accessed_regs(),
        0xA6 => (AndMemIyD).get_accessed_regs(),
        0xAC => (XorR{r:Reg8::IYH}).get_accessed_regs(),
        0xAD => (XorR{r:Reg8::IYL}).get_accessed_regs(),
        0xAE => (XorMemIyD).get_accessed_regs(),
        0xB4 => (OrR{r:Reg8::IYH}).get_accessed_regs(),
        0xB5 => (OrR{r:Reg8::IYL}).get_accessed_regs(),
        0xB6 => (OrMemIyD).get_accessed_regs(),
        0xBC => (CpR{r:Reg8::IYH}).get_accessed_regs(),
        0xBD => (CpR{r:Reg8::IYL}).get_accessed_regs(),
        0xBE => (CpMemIyD).get_accessed_regs(),
        0xE1 => (PopQq{r:Reg16::IY}).get_accessed_regs(),
        0xE3 => (ExMemSpIy).get_accessed_regs(),
        0xE5 => (PushQq{r:Reg16::IY}).get_accessed_regs(),
        0xE9 => (JpIy).get_accessed_regs(),
        0xF9 => (LdSpIy).get_accessed_regs(),
        _ => (ONONE, ONONE),
    }
}

} // verus!
