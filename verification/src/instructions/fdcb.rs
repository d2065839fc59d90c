use vstd::prelude::*;
use crate::cpu::{Cpu, CpuModel, Reg8, Reg16, CARRY_FLAG, HALF_CARRY_FLAG, TCYCLE_CEILING, MAX_STEP_TCYCLES, cond_bits};
use crate::debugger::output_registers::{OutputRegisters, OA, OF, OIY, OWZ, output_registers_from_reg8};
use crate::instructions::{Instruction, bit_flags, logical_flags, update_flags_bit, update_flags_logical, update_xyflags_bit, xy_from_wz};

verus! {

/// RLC (IY+d), r: rotates left; bit 7 goes to the carry and bit 0, and copies the result into r.
#[derive(Clone, Copy)]
pub struct RlcMemIyDR {
    pub r: Reg8,
}

impl Instruction for RlcMemIyDR {
    open spec fn valid(&self) -> bool {
        true
    }

    open spec fn next_state(&self, s: CpuModel) -> CpuModel {
        let s0 = s;
        let addr = s0.regs.reg16(Reg16::WZ);
        let v = s0.mem_at(addr);
        let s1 = s0.after_read(addr, 3);
        let s2 = s1.after_no_mreq(addr);
        let res = ((v % 128) * 2 + v / 128) as u8;
        let s3 = s2.set_regs(s2.regs.with_reg8(self.r, res));
        let s4 = s3.after_write(addr, res);
        let s5 = s4.set_regs(s4.regs.with_f(logical_flags(s4.regs.f, res)));
        let s6 = s5.set_regs(s5.regs.with_f(s5.regs.f & !HALF_CARRY_FLAG));
        let s7 = s6.set_regs(s6.regs.with_f(cond_bits(s6.regs.f, CARRY_FLAG, v >= 0x80)));
        let s8 = s7.set_regs(s7.regs.advance_pc(2));
        s8
    }

    #[verifier::spinoff_prover]
    #[verifier::rlimit(80)]
    fn execute(&self, cpu: &mut Cpu) {
        let addr: u16 = cpu.read_reg16(Reg16::WZ);
        let v: u8 = cpu.read_word(addr);
        cpu.contend_read_no_mreq(addr);
        let res: u8 = (v % 128) * 2 + v / 128;
        cpu.write_reg8(self.r, res);
        cpu.write_word(addr, res);
        update_flags_logical(cpu, res);
        cpu.clear_flag(HALF_CARRY_FLAG);
        cpu.cond_flag(CARRY_FLAG, v >= 0x80);
        cpu.inc_pc(2);
    }

    open spec fn accessed(&self) -> (OutputRegisters, OutputRegisters) {
        (OF | OIY | output_registers_from_reg8(self.r), OF | output_registers_from_reg8(self.r))
    }

    fn get_accessed_regs(&self) -> (regs: (OutputRegisters, OutputRegisters)) {
        (OF | OIY | output_registers_from_reg8(self.r), OF | output_registers_from_reg8(self.r))
    }
}

/// RLC (IY+d): rotates left; bit 7 goes to the carry and bit 0.
#[derive(Clone, Copy)]
pub struct RlcMemIyD;

impl Instruction for RlcMemIyD {
    open spec fn valid(&self) -> bool {
        true
    }

    open spec fn next_state(&self, s: CpuModel) -> CpuModel {
        let s0 = s;
        let addr = s0.regs.reg16(Reg16::WZ);
        let v = s0.mem_at(addr);
        let s1 = s0.after_read(addr, 3);
        let s2 = s1.after_no_mreq(addr);
        let res = ((v % 128) * 2 + v / 128) as u8;
        let s3 = s2.after_write(addr, res);
        let s4 = s3.set_regs(s3.regs.with_reg16(Reg16::WZ, addr));
        let s5 = s4.set_regs(s4.regs.with_f(logical_flags(s4.regs.f, res)));
        let s6 = s5.set_regs(s5.regs.with_f(s5.regs.f & !HALF_CARRY_FLAG));
        let s7 = s6.set_regs(s6.regs.with_f(cond_bits(s6.regs.f, CARRY_FLAG, v >= 0x80)));
        let s8 = s7.set_regs(s7.regs.advance_pc(2));
        s8
    }

    #[verifier::spinoff_prover]
    #[verifier::rlimit(80)]
    fn execute(&self, cpu: &mut Cpu) {
        let addr: u16 = cpu.read_reg16(Reg16::WZ);
        let v: u8 = cpu.read_word(addr);
        cpu.contend_read_no_mreq(addr);
        let res: u8 = (v % 128) * 2 + v / 128;
        cpu.write_word(addr, res);
        cpu.write_reg16(Reg16::WZ, addr);
        update_flags_logical(cpu, res);
        cpu.clear_flag(HALF_CARRY_FLAG);
        cpu.cond_flag(CARRY_FLAG, v >= 0x80);
        cpu.inc_pc(2);
    }

    open spec fn accessed(&self) -> (OutputRegisters, OutputRegisters) {
        (OF | OIY | OWZ, OF | OWZ)
    }

    fn get_accessed_regs(&self) -> (regs: (OutputRegisters, OutputRegisters)) {
        (OF | OIY | OWZ, OF | OWZ)
    }
}

/// RRC (IY+d), r: rotates right; bit 0 goes to the carry and bit 7, and copies the result into r.
#[derive(Clone, Copy)]
pub struct RrcMemIyDR {
    pub r: Reg8,
}

impl Instruction for RrcMemIyDR {
    open spec fn valid(&self) -> bool {
        true
    }

    open spec fn next_state(&self, s: CpuModel) -> CpuModel {
        let s0 = s;
        let addr = s0.regs.reg16(Reg16::WZ);
        let v = s0.mem_at(addr);
        let s1 = s0.after_read(addr, 3);
        let s2 = s1.after_no_mreq(addr);
        let res = (v / 2 + (v % 2) * 128) as u8;
        let s3 = s2.set_regs(s2.regs.with_reg8(self.r, res));
        let s4 = s3.after_write(addr, res);
        let s5 = s4.set_regs(s4.regs.with_f(logical_flags(s4.regs.f, res)));
        let s6 = s5.set_regs(s5.regs.with_f(s5.regs.f & !HALF_CARRY_FLAG));
        let s7 = s6.set_regs(s6.regs.with_f(cond_bits(s6.regs.f, CARRY_FLAG, v % 2 != 0)));
        let s8 = s7.set_regs(s7.regs.advance_pc(2));
        s8
    }

    #[verifier::spinoff_prover]
    #[verifier::rlimit(80)]
    fn execute(&self, cpu: &mut Cpu) {
        let addr: u16 = cpu.read_reg16(Reg16::WZ);
        let v: u8 = cpu.read_word(addr);
        cpu.contend_read_no_mreq(addr);
        let res: u8 = v / 2 + (v % 2) * 128;
        cpu.write_reg8(self.r, res);
        cpu.write_word(addr, res);
        update_flags_logical(cpu, res);
        cpu.clear_flag(HALF_CARRY_FLAG);
        cpu.cond_flag(CARRY_FLAG, v % 2 != 0);
        cpu.inc_pc(2);
    }

    open spec fn accessed(&self) -> (OutputRegisters, OutputRegisters) {
        (OF | OIY | output_registers_from_reg8(self.r), OF | output_registers_from_reg8(self.r))
    }

    fn get_accessed_regs(&self) -> (regs: (OutputRegisters, OutputRegisters)) {
        (OF | OIY | output_registers_from_reg8(self.r), OF | output_registers_from_reg8(self.r))
    }
}

/// RRC (IY+d): rotates right; bit 0 goes to the carry and bit 7.
#[derive(Clone, Copy)]
pub struct RrcMemIyD;

impl Instruction for RrcMemIyD {
    open spec fn valid(&self) -> bool {
        true
    }

    open spec fn next_state(&self, s: CpuModel) -> CpuModel {
        let s0 = s;
        let addr = s0.regs.reg16(Reg16::WZ);
        let v = s0.mem_at(addr);
        let s1 = s0.after_read(addr, 3);
        let s2 = s1.after_no_mreq(addr);
        let res = (v / 2 + (v % 2) * 128) as u8;
        let s3 = s2.after_write(addr, res);
        let s4 = s3.set_regs(s3.regs.with_reg16(Reg16::WZ, addr));
        let s5 = s4.set_regs(s4.regs.with_f(logical_flags(s4.regs.f, res)));
        let s6 = s5.set_regs(s5.regs.with_f(s5.regs.f & !HALF_CARRY_FLAG));
        let s7 = s6.set_regs(s6.regs.with_f(cond_bits(s6.regs.f, CARRY_FLAG, v % 2 != 0)));
        let s8 = s7.set_regs(s7.regs.advance_pc(2));
        s8
    }

    #[verifier::spinoff_prover]
    #[verifier::rlimit(80)]
    fn execute(&self, cpu: &mut Cpu) {
        let addr: u16 = cpu.read_reg16(Reg16::WZ);
        let v: u8 = cpu.read_word(addr);
        cpu.contend_read_no_mreq(addr);
        let res: u8 = v / 2 + (v % 2) * 128;
        cpu.write_word(addr, res);
        cpu.write_reg16(Reg16::WZ, addr);
        update_flags_logical(cpu, res);
        cpu.clear_flag(HALF_CARRY_FLAG);
        cpu.cond_flag(CARRY_FLAG, v % 2 != 0);
        cpu.inc_pc(2);
    }

    open spec fn accessed(&self) -> (OutputRegisters, OutputRegisters) {
        (OF | OIY | OWZ, OF | OWZ)
    }

    fn get_accessed_regs(&self) -> (regs: (OutputRegisters, OutputRegisters)) {
        (OF | OIY | OWZ, OF | OWZ)
    }
}

/// RL (IY+d), r: rotates left through the carry, and copies the result into r.
#[derive(Clone, Copy)]
pub struct RlMemIyDR {
    pub r: Reg8,
}

impl Instruction for RlMemIyDR {
    open spec fn valid(&self) -> bool {
        true
    }

    open spec fn next_state(&self, s: CpuModel) -> CpuModel {
        let s0 = s;
        let addr = s0.regs.reg16(Reg16::WZ);
        let v = s0.mem_at(addr);
        let s1 = s0.after_read(addr, 3);
        let s2 = s1.after_no_mreq(addr);
        let rot = ((v % 128) * 2 + v / 128) as u8;
        let cf = s2.regs.flag(CARRY_FLAG);
        let res = if cf { rot | 0x01 } else { rot & 0xFE };
        let s3 = s2.set_regs(s2.regs.with_reg8(self.r, res));
        let s4 = s3.after_write(addr, res);
        let s5 = s4.set_regs(s4.regs.with_f(logical_flags(s4.regs.f, res)));
        let s6 = s5.set_regs(s5.regs.with_f(s5.regs.f & !HALF_CARRY_FLAG));
        let s7 = s6.set_regs(s6.regs.with_f(cond_bits(s6.regs.f, CARRY_FLAG, v >= 0x80)));
        let s8 = s7.set_regs(s7.regs.advance_pc(2));
        s8
    }

    #[verifier::spinoff_prover]
    #[verifier::rlimit(80)]
    fn execute(&self, cpu: &mut Cpu) {
        let addr: u16 = cpu.read_reg16(Reg16::WZ);
        let v: u8 = cpu.read_word(addr);
        cpu.contend_read_no_mreq(addr);
        let rot: u8 = (v % 128) * 2 + v / 128;
        let cf: bool = cpu.get_flag(CARRY_FLAG);
        let res: u8 = if cf { rot | 0x01 } else { rot & 0xFE };
        cpu.write_reg8(self.r, res);
        cpu.write_word(addr, res);
        update_flags_logical(cpu, res);
        cpu.clear_flag(HALF_CARRY_FLAG);
        cpu.cond_flag(CARRY_FLAG, v >= 0x80);
        cpu.inc_pc(2);
    }

    open spec fn accessed(&self) -> (OutputRegisters, OutputRegisters) {
        (OF | OIY | output_registers_from_reg8(self.r), OF | output_registers_from_reg8(self.r))
    }

    fn get_accessed_regs(&self) -> (regs: (OutputRegisters, OutputRegisters)) {
        (OF | OIY | output_registers_from_reg8(self.r), OF | output_registers_from_reg8(self.r))
    }
}

/// RL (IY+d): rotates left through the carry.
#[derive(Clone, Copy)]
pub struct RlMemIyD;

impl Instruction for RlMemIyD {
    open spec fn valid(&self) -> bool {
        true
    }

    open spec fn next_state(&self, s: CpuModel) -> CpuModel {
        let s0 = s;
        let addr = s0.regs.reg16(Reg16::WZ);
        let v = s0.mem_at(addr);
        let s1 = s0.after_read(addr, 3);
        let s2 = s1.after_no_mreq(addr);
        let rot = ((v % 128) * 2 + v / 128) as u8;
        let cf = s2.regs.flag(CARRY_FLAG);
        let res = if cf { rot | 0x01 } else { rot & 0xFE };
        let s3 = s2.after_write(addr, res);
        let s4 = s3.set_regs(s3.regs.with_reg16(Reg16::WZ, addr));
        let s5 = s4.set_regs(s4.regs.with_f(logical_flags(s4.regs.f, res)));
        let s6 = s5.set_regs(s5.regs.with_f(s5.regs.f & !HALF_CARRY_FLAG));
        let s7 = s6.set_regs(s6.regs.with_f(cond_bits(s6.regs.f, CARRY_FLAG, v >= 0x80)));
        let s8 = s7.set_regs(s7.regs.advance_pc(2));
        s8
    }

    #[verifier::spinoff_prover]
    #[verifier::rlimit(80)]
    fn execute(&self, cpu: &mut Cpu) {
        let addr: u16 = cpu.read_reg16(Reg16::WZ);
        let v: u8 = cpu.read_word(addr);
        cpu.contend_read_no_mreq(addr);
        let rot: u8 = (v % 128) * 2 + v / 128;
        let cf: bool = cpu.get_flag(CARRY_FLAG);
        let res: u8 = if cf { rot | 0x01 } else { rot & 0xFE };
        cpu.write_word(addr, res);
        cpu.write_reg16(Reg16::WZ, addr);
        update_flags_logical(cpu, res);
        cpu.clear_flag(HALF_CARRY_FLAG);
        cpu.cond_flag(CARRY_FLAG, v >= 0x80);
        cpu.inc_pc(2);
    }

    open spec fn accessed(&self) -> (OutputRegisters, OutputRegisters) {
        (OF | OIY | OWZ, OF | OWZ)
    }

    fn get_accessed_regs(&self) -> (regs: (OutputRegisters, OutputRegisters)) {
        (OF | OIY | OWZ, OF | OWZ)
    }
}

/// RR (IY+d), r: rotates right through the carry, and copies the result into r.
#[derive(Clone, Copy)]
pub struct RrMemIyDR {
    pub r: Reg8,
}

impl Instruction for RrMemIyDR {
    open spec fn valid(&self) -> bool {
        true
    }

    open spec fn next_state(&self, s: CpuModel) -> CpuModel {
        let s0 = s;
        let addr = s0.regs.reg16(Reg16::WZ);
        let v = s0.mem_at(addr);
        let s1 = s0.after_read(addr, 3);
        let s2 = s1.after_no_mreq(addr);
        let rot = (v / 2 + (v % 2) * 128) as u8;
        let cf = s2.regs.flag(CARRY_FLAG);
        let res = if cf { rot | 0x80 } else { rot & 0x7F };
        let s3 = s2.set_regs(s2.regs.with_reg8(self.r, res));
        let s4 = s3.after_write(addr, res);
        let s5 = s4.set_regs(s4.regs.with_f(logical_flags(s4.regs.f, res)));
        let s6 = s5.set_regs(s5.regs.with_f(s5.regs.f & !HALF_CARRY_FLAG));
        let s7 = s6.set_regs(s6.regs.with_f(cond_bits(s6.regs.f, CARRY_FLAG, v % 2 != 0)));
        let s8 = s7.set_regs(s7.regs.advance_pc(2));
        s8
    }

    #[verifier::spinoff_prover]
    #[verifier::rlimit(80)]
    fn execute(&self, cpu: &mut Cpu) {
        let addr: u16 = cpu.read_reg16(Reg16::WZ);
        let v: u8 = cpu.read_word(addr);
        cpu.contend_read_no_mreq(addr);
        let rot: u8 = v / 2 + (v % 2) * 128;
        let cf: bool = cpu.get_flag(CARRY_FLAG);
        let res: u8 = if cf { rot | 0x80 } else { rot & 0x7F };
        cpu.write_reg8(self.r, res);
        cpu.write_word(addr, res);
        update_flags_logical(cpu, res);
        cpu.clear_flag(HALF_CARRY_FLAG);
        cpu.cond_flag(CARRY_FLAG, v % 2 != 0);
        cpu.inc_pc(2);
    }

    open spec fn accessed(&self) -> (OutputRegisters, OutputRegisters) {
        (OF | OIY | output_registers_from_reg8(self.r), OF | output_registers_from_reg8(self.r))
    }

    fn get_accessed_regs(&self) -> (regs: (OutputRegisters, OutputRegisters)) {
        (OF | OIY | output_registers_from_reg8(self.r), OF | output_registers_from_reg8(self.r))
    }
}

/// RR (IY+d): rotates right through the carry.
#[derive(Clone, Copy)]
pub struct RrMemIyD;

impl Instruction for RrMemIyD {
    open spec fn valid(&self) -> bool {
        true
    }

    open spec fn next_state(&self, s: CpuModel) -> CpuModel {
        let s0 = s;
        let addr = s0.regs.reg16(Reg16::WZ);
        let v = s0.mem_at(addr);
        let s1 = s0.after_read(addr, 3);
        let s2 = s1.after_no_mreq(addr);
        let rot = (v / 2 + (v % 2) * 128) as u8;
        let cf = s2.regs.flag(CARRY_FLAG);
        let res = if cf { rot | 0x80 } else { rot & 0x7F };
        let s3 = s2.after_write(addr, res);
        let s4 = s3.set_regs(s3.regs.with_reg16(Reg16::WZ, addr));
        let s5 = s4.set_regs(s4.regs.with_f(logical_flags(s4.regs.f, res)));
        let s6 = s5.set_regs(s5.regs.with_f(s5.regs.f & !HALF_CARRY_FLAG));
        let s7 = s6.set_regs(s6.regs.with_f(cond_bits(s6.regs.f, CARRY_FLAG, v % 2 != 0)));
        let s8 = s7.set_regs(s7.regs.advance_pc(2));
        s8
    }

    #[verifier::spinoff_prover]
    #[verifier::rlimit(80)]
    fn execute(&self, cpu: &mut Cpu) {
        let addr: u16 = cpu.read_reg16(Reg16::WZ);
        let v: u8 = cpu.read_word(addr);
        cpu.contend_read_no_mreq(addr);
        let rot: u8 = v / 2 + (v % 2) * 128;
        let cf: bool = cpu.get_flag(CARRY_FLAG);
        let res: u8 = if cf { rot | 0x80 } else { rot & 0x7F };
        cpu.write_word(addr, res);
        cpu.write_reg16(Reg16::WZ, addr);
        update_flags_logical(cpu, res);
        cpu.clear_flag(HALF_CARRY_FLAG);
        cpu.cond_flag(CARRY_FLAG, v % 2 != 0);
        cpu.inc_pc(2);
    }

    open spec fn accessed(&self) -> (OutputRegisters, OutputRegisters) {
        (OF | OIY | OWZ, OF | OWZ)
    }

    fn get_accessed_regs(&self) -> (regs: (OutputRegisters, OutputRegisters)) {
        (OF | OIY | OWZ, OF | OWZ)
    }
}

/// SLA (IY+d), r: shifts left; bit 7 goes to the carry, and copies the result into r.
#[derive(Clone, Copy)]
pub struct SlaMemIyDR {
    pub r: Reg8,
}

impl Instruction for SlaMemIyDR {
    open spec fn valid(&self) -> bool {
        true
    }

    open spec fn next_state(&self, s: CpuModel) -> CpuModel {
        let s0 = s;
        let addr = s0.regs.reg16(Reg16::WZ);
        let v = s0.mem_at(addr);
        let s1 = s0.after_read(addr, 3);
        let s2 = s1.after_no_mreq(addr);
        let res = ((v % 128) * 2) as u8;
        let s3 = s2.set_regs(s2.regs.with_reg8(self.r, res));
        let s4 = s3.after_write(addr, res);
        let s5 = s4.set_regs(s4.regs.with_f(logical_flags(s4.regs.f, res)));
        let s6 = s5.set_regs(s5.regs.with_f(s5.regs.f & !HALF_CARRY_FLAG));
        let s7 = s6.set_regs(s6.regs.with_f(cond_bits(s6.regs.f, CARRY_FLAG, v >= 0x80)));
        let s8 = s7.set_regs(s7.regs.advance_pc(2));
        s8
    }

    #[verifier::spinoff_prover]
    #[verifier::rlimit(80)]
    fn execute(&self, cpu: &mut Cpu) {
        let addr: u16 = cpu.read_reg16(Reg16::WZ);
        let v: u8 = cpu.read_word(addr);
        cpu.contend_read_no_mreq(addr);
        let res: u8 = (v % 128) * 2;
        cpu.write_reg8(self.r, res);
        cpu.write_word(addr, res);
        update_flags_logical(cpu, res);
        cpu.clear_flag(HALF_CARRY_FLAG);
        cpu.cond_flag(CARRY_FLAG, v >= 0x80);
        cpu.inc_pc(2);
    }

    open spec fn accessed(&self) -> (OutputRegisters, OutputRegisters) {
        (OA | OF | OIY | output_registers_from_reg8(self.r), OF | output_registers_from_reg8(self.r))
    }

    fn get_accessed_regs(&self) -> (regs: (OutputRegisters, OutputRegisters)) {
        (OA | OF | OIY | output_registers_from_reg8(self.r), OF | output_registers_from_reg8(self.r))
    }
}

/// SLA (IY+d): shifts left; bit 7 goes to the carry.
#[derive(Clone, Copy)]
pub struct SlaMemIyD;

impl Instruction for SlaMemIyD {
    open spec fn valid(&self) -> bool {
        true
    }

    open spec fn next_state(&self, s: CpuModel) -> CpuModel {
        let s0 = s;
        let addr = s0.regs.reg16(Reg16::WZ);
        let v = s0.mem_at(addr);
        let s1 = s0.after_read(addr, 3);
        let s2 = s1.after_no_mreq(addr);
        let res = ((v % 128) * 2) as u8;
        let s3 = s2.after_write(addr, res);
        let s4 = s3.set_regs(s3.regs.with_reg16(Reg16::WZ, addr));
        let s5 = s4.set_regs(s4.regs.with_f(logical_flags(s4.regs.f, res)));
        let s6 = s5.set_regs(s5.regs.with_f(s5.regs.f & !HALF_CARRY_FLAG));
        let s7 = s6.set_regs(s6.regs.with_f(cond_bits(s6.regs.f, CARRY_FLAG, v >= 0x80)));
        let s8 = s7.set_regs(s7.regs.advance_pc(2));
        s8
    }

    #[verifier::spinoff_prover]
    #[verifier::rlimit(80)]
    fn execute(&self, cpu: &mut Cpu) {
        let addr: u16 = cpu.read_reg16(Reg16::WZ);
        let v: u8 = cpu.read_word(addr);
        cpu.contend_read_no_mreq(addr);
        let res: u8 = (v % 128) * 2;
        cpu.write_word(addr, res);
        cpu.write_reg16(Reg16::WZ, addr);
        update_flags_logical(cpu, res);
        cpu.clear_flag(HALF_CARRY_FLAG);
        cpu.cond_flag(CARRY_FLAG, v >= 0x80);
        cpu.inc_pc(2);
    }

    open spec fn accessed(&self) -> (OutputRegisters, OutputRegisters) {
        (OA | OF | OIY | OWZ, OF | OWZ)
    }

    fn get_accessed_regs(&self) -> (regs: (OutputRegisters, OutputRegisters)) {
        (OA | OF | OIY | OWZ, OF | OWZ)
    }
}

/// SRA (IY+d), r: shifts right keeping bit 7; bit 0 goes to the carry, and copies the result into r.
#[derive(Clone, Copy)]
pub struct SraMemIyDR {
    pub r: Reg8,
}

impl Instruction for SraMemIyDR {
    open spec fn valid(&self) -> bool {
        true
    }

    open spec fn next_state(&self, s: CpuModel) -> CpuModel {
        let s0 = s;
        let addr = s0.regs.reg16(Reg16::WZ);
        let v = s0.mem_at(addr);
        let s1 = s0.after_read(addr, 3);
        let s2 = s1.after_no_mreq(addr);
        let res = (v / 2 + (v / 128) * 128) as u8;
        let s3 = s2.set_regs(s2.regs.with_reg8(self.r, res));
        let s4 = s3.after_write(addr, res);
        let s5 = s4.set_regs(s4.regs.with_f(logical_flags(s4.regs.f, res)));
        let s6 = s5.set_regs(s5.regs.with_f(s5.regs.f & !HALF_CARRY_FLAG));
        let s7 = s6.set_regs(s6.regs.with_f(cond_bits(s6.regs.f, CARRY_FLAG, v % 2 != 0)));
        let s8 = s7.set_regs(s7.regs.advance_pc(2));
        s8
    }

    #[verifier::spinoff_prover]
    #[verifier::rlimit(80)]
    fn execute(&self, cpu: &mut Cpu) {
        let addr: u16 = cpu.read_reg16(Reg16::WZ);
        let v: u8 = cpu.read_word(addr);
        cpu.contend_read_no_mreq(addr);
        let res: u8 = v / 2 + (v / 128) * 128;
        cpu.write_reg8(self.r, res);
        cpu.write_word(addr, res);
        update_flags_logical(cpu, res);
        cpu.clear_flag(HALF_CARRY_FLAG);
        cpu.cond_flag(CARRY_FLAG, v % 2 != 0);
        cpu.inc_pc(2);
    }

    open spec fn accessed(&self) -> (OutputRegisters, OutputRegisters) {
        (OF | OIY | output_registers_from_reg8(self.r), OF | output_registers_from_reg8(self.r))
    }

    fn get_accessed_regs(&self) -> (regs: (OutputRegisters, OutputRegisters)) {
        (OF | OIY | output_registers_from_reg8(self.r), OF | output_registers_from_reg8(self.r))
    }
}

/// SRA (IY+d): shifts right keeping bit 7; bit 0 goes to the carry.
#[derive(Clone, Copy)]
pub struct SraMemIyD;

impl Instruction for SraMemIyD {
    open spec fn valid(&self) -> bool {
        true
    }

    open spec fn next_state(&self, s: CpuModel) -> CpuModel {
        let s0 = s;
        let addr = s0.regs.reg16(Reg16::WZ);
        let v = s0.mem_at(addr);
        let s1 = s0.after_read(addr, 3);
        let s2 = s1.after_no_mreq(addr);
        let res = (v / 2 + (v / 128) * 128) as u8;
        let s3 = s2.after_write(addr, res);
        let s4 = s3.set_regs(s3.regs.with_reg16(Reg16::WZ, addr));
        let s5 = s4.set_regs(s4.regs.with_f(logical_flags(s4.regs.f, res)));
        let s6 = s5.set_regs(s5.regs.with_f(s5.regs.f & !HALF_CARRY_FLAG));
        let s7 = s6.set_regs(s6.regs.with_f(cond_bits(s6.regs.f, CARRY_FLAG, v % 2 != 0)));
        let s8 = s7.set_regs(s7.regs.advance_pc(2));
        s8
    }

    #[verifier::spinoff_prover]
    #[verifier::rlimit(80)]
    fn execute(&self, cpu: &mut Cpu) {
        let addr: u16 = cpu.read_reg16(Reg16::WZ);
        let v: u8 = cpu.read_word(addr);
        cpu.contend_read_no_mreq(addr);
        let res: u8 = v / 2 + (v / 128) * 128;
        cpu.write_word(addr, res);
        cpu.write_reg16(Reg16::WZ, addr);
        update_flags_logical(cpu, res);
        cpu.clear_flag(HALF_CARRY_FLAG);
        cpu.cond_flag(CARRY_FLAG, v % 2 != 0);
        cpu.inc_pc(2);
    }

    open spec fn accessed(&self) -> (OutputRegisters, OutputRegisters) {
        (OF | OIY | OWZ, OF | OWZ)
    }

    fn get_accessed_regs(&self) -> (regs: (OutputRegisters, OutputRegisters)) {
        (OF | OIY | OWZ, OF | OWZ)
    }
}

/// SLL (IY+d), r: shifts left setting bit 0; bit 7 goes to the carry, and copies the result into r.
#[derive(Clone, Copy)]
pub struct SllMemIyDR {
    pub r: Reg8,
}

impl Instruction for SllMemIyDR {
    open spec fn valid(&self) -> bool {
        true
    }

    open spec fn next_state(&self, s: CpuModel) -> CpuModel {
        let s0 = s;
        let addr = s0.regs.reg16(Reg16::WZ);
        let v = s0.mem_at(addr);
        let s1 = s0.after_read(addr, 3);
        let s2 = s1.after_no_mreq(addr);
        let res = ((v % 128) * 2 + 1) as u8;
        let s3 = s2.set_regs(s2.regs.with_reg8(self.r, res));
        let s4 = s3.after_write(addr, res);
        let s5 = s4.set_regs(s4.regs.with_f(logical_flags(s4.regs.f, res)));
        let s6 = s5.set_regs(s5.regs.with_f(s5.regs.f & !HALF_CARRY_FLAG));
        let s7 = s6.set_regs(s6.regs.with_f(cond_bits(s6.regs.f, CARRY_FLAG, v >= 0x80)));
        let s8 = s7.set_regs(s7.regs.advance_pc(2));
        s8
    }

    #[verifier::spinoff_prover]
    #[verifier::rlimit(80)]
    fn execute(&self, cpu: &mut Cpu) {
        let addr: u16 = cpu.read_reg16(Reg16::WZ);
        let v: u8 = cpu.read_word(addr);
        cpu.contend_read_no_mreq(addr);
        let res: u8 = (v % 128) * 2 + 1;
        cpu.write_reg8(self.r, res);
        cpu.write_word(addr, res);
        update_flags_logical(cpu, res);
        cpu.clear_flag(HALF_CARRY_FLAG);
        cpu.cond_flag(CARRY_FLAG, v >= 0x80);
        cpu.inc_pc(2);
    }

    open spec fn accessed(&self) -> (OutputRegisters, OutputRegisters) {
        (OF | OIY | output_registers_from_reg8(self.r), OF | output_registers_from_reg8(self.r))
    }

    fn get_accessed_regs(&self) -> (regs: (OutputRegisters, OutputRegisters)) {
        (OF | OIY | output_registers_from_reg8(self.r), OF | output_registers_from_reg8(self.r))
    }
}

/// SLL (IY+d): shifts left setting bit 0; bit 7 goes to the carry.
#[derive(Clone, Copy)]
pub struct SllMemIyD;

impl Instruction for SllMemIyD {
    open spec fn valid(&self) -> bool {
        true
    }

    open spec fn next_state(&self, s: CpuModel) -> CpuModel {
        let s0 = s;
        let addr = s0.regs.reg16(Reg16::WZ);
        let v = s0.mem_at(addr);
        let s1 = s0.after_read(addr, 3);
        let s2 = s1.after_no_mreq(addr);
        let res = ((v % 128) * 2 + 1) as u8;
        let s3 = s2.after_write(addr, res);
        let s4 = s3.set_regs(s3.regs.with_reg16(Reg16::WZ, addr));
        let s5 = s4.set_regs(s4.regs.with_f(logical_flags(s4.regs.f, res)));
        let s6 = s5.set_regs(s5.regs.with_f(s5.regs.f & !HALF_CARRY_FLAG));
        let s7 = s6.set_regs(s6.regs.with_f(cond_bits(s6.regs.f, CARRY_FLAG, v >= 0x80)));
        let s8 = s7.set_regs(s7.regs.advance_pc(2));
        s8
    }

    #[verifier::spinoff_prover]
    #[verifier::rlimit(80)]
    fn execute(&self, cpu: &mut Cpu) {
        let addr: u16 = cpu.read_reg16(Reg16::WZ);
        let v: u8 = cpu.read_word(addr);
        cpu.contend_read_no_mreq(addr);
        let res: u8 = (v % 128) * 2 + 1;
        cpu.write_word(addr, res);
        cpu.write_reg16(Reg16::WZ, addr);
        update_flags_logical(cpu, res);
        cpu.clear_flag(HALF_CARRY_FLAG);
        cpu.cond_flag(CARRY_FLAG, v >= 0x80);
        cpu.inc_pc(2);
    }

    open spec fn accessed(&self) -> (OutputRegisters, OutputRegisters) {
        (OF | OIY | OWZ, OF | OWZ)
    }

    fn get_accessed_regs(&self) -> (regs: (OutputRegisters, OutputRegisters)) {
        (OF | OIY | OWZ, OF | OWZ)
    }
}

/// SRL (IY+d), r: shifts right; bit 0 goes to the carry, and copies the result into r.
#[derive(Clone, Copy)]
pub struct SrlMemIyDR {
    pub r: Reg8,
}

impl Instruction for SrlMemIyDR {
    open spec fn valid(&self) -> bool {
        true
    }

    open spec fn next_state(&self, s: CpuModel) -> CpuModel {
        let s0 = s;
        let addr = s0.regs.reg16(Reg16::WZ);
        let v = s0.mem_at(addr);
        let s1 = s0.after_read(addr, 3);
        let s2 = s1.after_no_mreq(addr);
        let res = v / 2;
        let s3 = s2.set_regs(s2.regs.with_reg8(self.r, res));
        let s4 = s3.after_write(addr, res);
        let s5 = s4.set_regs(s4.regs.with_f(logical_flags(s4.regs.f, res)));
        let s6 = s5.set_regs(s5.regs.with_f(s5.regs.f & !HALF_CARRY_FLAG));
        let s7 = s6.set_regs(s6.regs.with_f(cond_bits(s6.regs.f, CARRY_FLAG, v % 2 != 0)));
        let s8 = s7.set_regs(s7.regs.advance_pc(2));
        s8
    }

    #[verifier::spinoff_prover]
    #[verifier::rlimit(80)]
    fn execute(&self, cpu: &mut Cpu) {
        let addr: u16 = cpu.read_reg16(Reg16::WZ);
        let v: u8 = cpu.read_word(addr);
        cpu.contend_read_no_mreq(addr);
        let res: u8 = v / 2;
        cpu.write_reg8(self.r, res);
        cpu.write_word(addr, res);
        update_flags_logical(cpu, res);
        cpu.clear_flag(HALF_CARRY_FLAG);
        cpu.cond_flag(CARRY_FLAG, v % 2 != 0);
        cpu.inc_pc(2);
    }

    open spec fn accessed(&self) -> (OutputRegisters, OutputRegisters) {
        (OF | OIY | output_registers_from_reg8(self.r), OF | output_registers_from_reg8(self.r))
    }

    fn get_accessed_regs(&self) -> (regs: (OutputRegisters, OutputRegisters)) {
        (OF | OIY | output_registers_from_reg8(self.r), OF | output_registers_from_reg8(self.r))
    }
}

/// SRL (IY+d): shifts right; bit 0 goes to the carry.
#[derive(Clone, Copy)]
pub struct SrlMemIyD;

impl Instruction for SrlMemIyD {
    open spec fn valid(&self) -> bool {
        true
    }

    open spec fn next_state(&self, s: CpuModel) -> CpuModel {
        let s0 = s;
        let addr = s0.regs.reg16(Reg16::WZ);
        let v = s0.mem_at(addr);
        let s1 = s0.after_read(addr, 3);
        let s2 = s1.after_no_mreq(addr);
        let res = v / 2;
        let s3 = s2.after_write(addr, res);
        let s4 = s3.set_regs(s3.regs.with_reg16(Reg16::WZ, addr));
        let s5 = s4.set_regs(s4.regs.with_f(logical_flags(s4.regs.f, res)));
        let s6 = s5.set_regs(s5.regs.with_f(s5.regs.f & !HALF_CARRY_FLAG));
        let s7 = s6.set_regs(s6.regs.with_f(cond_bits(s6.regs.f, CARRY_FLAG, v % 2 != 0)));
        let s8 = s7.set_regs(s7.regs.advance_pc(2));
        s8
    }

    #[verifier::spinoff_prover]
    #[verifier::rlimit(80)]
    fn execute(&self, cpu: &mut Cpu) {
        let addr: u16 = cpu.read_reg16(Reg16::WZ);
        let v: u8 = cpu.read_word(addr);
        cpu.contend_read_no_mreq(addr);
        let res: u8 = v / 2;
        cpu.write_word(addr, res);
        cpu.write_reg16(Reg16::WZ, addr);
        update_flags_logical(cpu, res);
        cpu.clear_flag(HALF_CARRY_FLAG);
        cpu.cond_flag(CARRY_FLAG, v % 2 != 0);
        cpu.inc_pc(2);
    }

    open spec fn accessed(&self) -> (OutputRegisters, OutputRegisters) {
        (OF | OIY | OWZ, OF | OWZ)
    }

    fn get_accessed_regs(&self) -> (regs: (OutputRegisters, OutputRegisters)) {
        (OF | OIY | OWZ, OF | OWZ)
    }
}

/// BIT b, (IY+d): tests a bit of the byte at the address in WZ.
#[derive(Clone, Copy)]
pub struct BitBMemIyD {
    pub b: u8,
}

impl Instruction for BitBMemIyD {
    open spec fn valid(&self) -> bool {
        self.b < 8
    }

    open spec fn next_state(&self, s: CpuModel) -> CpuModel {
        let s0 = s;
        let addr = s0.regs.reg16(Reg16::WZ);
        let v = s0.mem_at(addr);
        let s1 = s0.after_read(addr, 3);
        let s2 = s1.after_no_mreq(addr);
        let bs = v & (1u8 << self.b) != 0;
        let s3 = s2.set_regs(s2.regs.with_f(bit_flags(s2.regs.f, self.b, bs)));
        let s4 = s3.set_regs(s3.regs.with_f(xy_from_wz(s3.regs.f, s3.regs.wz)));
        let s5 = s4.set_regs(s4.regs.advance_pc(2));
        s5
    }

    #[verifier::spinoff_prover]
    #[verifier::rlimit(80)]
    fn execute(&self, cpu: &mut Cpu) {
        let addr: u16 = cpu.read_reg16(Reg16::WZ);
        let v: u8 = cpu.read_word(addr);
        cpu.contend_read_no_mreq(addr);
        let bs: bool = v & (1u8 << self.b) != 0;
        update_flags_bit(cpu, self.b, bs);
        update_xyflags_bit(cpu);
        cpu.inc_pc(2);
    }

    open spec fn accessed(&self) -> (OutputRegisters, OutputRegisters) {
        (OF | OIY, OF)
    }

    fn get_accessed_regs(&self) -> (regs: (OutputRegisters, OutputRegisters)) {
        (OF | OIY, OF)
    }
}

/// RES b, (IY+d), r: clears a bit of the byte at the address in WZ, and copies it into r.
#[derive(Clone, Copy)]
pub struct ResBMemIyDR {
    pub b: u8,
    pub r: Reg8,
}

impl Instruction for ResBMemIyDR {
    open spec fn valid(&self) -> bool {
        self.b < 8
    }

    open spec fn next_state(&self, s: CpuModel) -> CpuModel {
        let s0 = s;
        let addr = s0.regs.reg16(Reg16::WZ);
        let v = s0.mem_at(addr);
        let s1 = s0.after_read(addr, 3);
        let s2 = s1.after_no_mreq(addr);
        let res = v & !(1u8 << self.b);
        let s3 = s2.set_regs(s2.regs.with_reg8(self.r, res));
        let s4 = s3.after_write(addr, res);
        let s5 = s4.set_regs(s4.regs.advance_pc(2));
        s5
    }

    #[verifier::spinoff_prover]
    #[verifier::rlimit(80)]
    fn execute(&self, cpu: &mut Cpu) {
        let addr: u16 = cpu.read_reg16(Reg16::WZ);
        let v: u8 = cpu.read_word(addr);
        cpu.contend_read_no_mreq(addr);
        let res: u8 = v & !(1u8 << self.b);
        cpu.write_reg8(self.r, res);
        cpu.write_word(addr, res);
        cpu.inc_pc(2);
    }

    open spec fn accessed(&self) -> (OutputRegisters, OutputRegisters) {
        (OIY | output_registers_from_reg8(self.r), output_registers_from_reg8(self.r))
    }

    fn get_accessed_regs(&self) -> (regs: (OutputRegisters, OutputRegisters)) {
        (OIY | output_registers_from_reg8(self.r), output_registers_from_reg8(self.r))
    }
}

/// RES b, (IY+d): clears a bit of the byte at the address in WZ.
#[derive(Clone, Copy)]
pub struct ResBMemIyD {
    pub b: u8,
}

impl Instruction for ResBMemIyD {
    open spec fn valid(&self) -> bool {
        self.b < 8
    }

    open spec fn next_state(&self, s: CpuModel) -> CpuModel {
        let s0 = s;
        let addr = s0.regs.reg16(Reg16::WZ);
        let v = s0.mem_at(addr);
        let s1 = s0.after_read(addr, 3);
        let s2 = s1.after_no_mreq(addr);
        let res = v & !(1u8 << self.b);
        let s3 = s2.after_write(addr, res);
        let s4 = s3.set_regs(s3.regs.with_reg16(Reg16::WZ, addr));
        let s5 = s4.set_regs(s4.regs.advance_pc(2));
        s5
    }

    #[verifier::spinoff_prover]
    #[verifier::rlimit(80)]
    fn execute(&self, cpu: &mut Cpu) {
        let addr: u16 = cpu.read_reg16(Reg16::WZ);
        let v: u8 = cpu.read_word(addr);
        cpu.contend_read_no_mreq(addr);
        let res: u8 = v & !(1u8 << self.b);
        cpu.write_word(addr, res);
        cpu.write_reg16(Reg16::WZ, addr);
        cpu.inc_pc(2);
    }

    open spec fn accessed(&self) -> (OutputRegisters, OutputRegisters) {
        (OIY | OWZ, OWZ)
    }

    fn get_accessed_regs(&self) -> (regs: (OutputRegisters, OutputRegisters)) {
        (OIY | OWZ, OWZ)
    }
}

/// SET b, (IY+d), r: sets a bit of the byte at the address in WZ, and copies it into r.
#[derive(Clone, Copy)]
pub struct SetBMemIyDR {
    pub b: u8,
    pub r: Reg8,
}

impl Instruction for SetBMemIyDR {
    open spec fn valid(&self) -> bool {
        self.b < 8
    }

    open spec fn next_state(&self, s: CpuModel) -> CpuModel {
        let s0 = s;
        let addr = s0.regs.reg16(Reg16::WZ);
        let v = s0.mem_at(addr);
        let s1 = s0.after_read(addr, 3);
        let s2 = s1.after_no_mreq(addr);
        let res = v | (1u8 << self.b);
        let s3 = s2.set_regs(s2.regs.with_reg8(self.r, res));
        let s4 = s3.after_write(addr, res);
        let s5 = s4.set_regs(s4.regs.advance_pc(2));
        s5
    }

    #[verifier::spinoff_prover]
    #[verifier::rlimit(80)]
    fn execute(&self, cpu: &mut Cpu) {
        let addr: u16 = cpu.read_reg16(Reg16::WZ);
        let v: u8 = cpu.read_word(addr);
        cpu.contend_read_no_mreq(addr);
        let res: u8 = v | (1u8 << self.b);
        cpu.write_reg8(self.r, res);
        cpu.write_word(addr, res);
        cpu.inc_pc(2);
    }

    open spec fn accessed(&self) -> (OutputRegisters, OutputRegisters) {
        (OIY | output_registers_from_reg8(self.r), output_registers_from_reg8(self.r))
    }

    fn get_accessed_regs(&self) -> (regs: (OutputRegisters, OutputRegisters)) {
        (OIY | output_registers_from_reg8(self.r), output_registers_from_reg8(self.r))
    }
}

/// SET b, (IY+d): sets a bit of the byte at the address in WZ.
#[derive(Clone, Copy)]
pub struct SetBMemIyD {
    pub b: u8,
}

impl Instruction for SetBMemIyD {
    open spec fn valid(&self) -> bool {
        self.b < 8
    }

    open spec fn next_state(&self, s: CpuModel) -> CpuModel {
        let s0 = s;
        let addr = s0.regs.reg16(Reg16::WZ);
        let v = s0.mem_at(addr);
        let s1 = s0.after_read(addr, 3);
        let s2 = s1.after_no_mreq(addr);
        let res = v | (1u8 << self.b);
        let s3 = s2.after_write(addr, res);
        let s4 = s3.set_regs(s3.regs.with_reg16(Reg16::WZ, addr));
        let s5 = s4.set_regs(s4.regs.advance_pc(2));
        s5
    }

    #[verifier::spinoff_prover]
    #[verifier::rlimit(80)]
    fn execute(&self, cpu: &mut Cpu) {
        let addr: u16 = cpu.read_reg16(Reg16::WZ);
        let v: u8 = cpu.read_word(addr);
        cpu.contend_read_no_mreq(addr);
        let res: u8 = v | (1u8 << self.b);
        cpu.write_word(addr, res);
        cpu.write_reg16(Reg16::WZ, addr);
        cpu.inc_pc(2);
    }

    open spec fn accessed(&self) -> (OutputRegisters, OutputRegisters) {
        (OIY | OWZ, OWZ)
    }

    fn get_accessed_regs(&self) -> (regs: (OutputRegisters, OutputRegisters)) {
        (OIY | OWZ, OWZ)
    }
}

/// The opcodes after FD CB d (IY, the address in WZ).
#[verifier::opaque]
pub open spec fn fdcb_next(s: CpuModel, op: u8) -> CpuModel {
    match op {
        0x00u8 => (RlcMemIyDR{r:Reg8::B}).next_state(s),
        0x01u8 => (RlcMemIyDR{r:Reg8::C}).next_state(s),
        0x02u8 => (RlcMemIyDR{r:Reg8::D}).next_state(s),
        0x03u8 => (RlcMemIyDR{r:Reg8::E}).next_state(s),
        0x04u8 => (RlcMemIyDR{r:Reg8::H}).next_state(s),
        0x05u8 => (RlcMemIyDR{r:Reg8::L}).next_state(s),
        0x06u8 => (RlcMemIyD).next_state(s),
        0x07u8 => (RlcMemIyDR{r:Reg8::A}).next_state(s),
        0x08u8 => (RrcMemIyDR{r:Reg8::B}).next_state(s),
        0x09u8 => (RrcMemIyDR{r:Reg8::C}).next_state(s),
        0x0Au8 => (RrcMemIyDR{r:Reg8::D}).next_state(s),
        0x0Bu8 => (RrcMemIyDR{r:Reg8::E}).next_state(s),
        0x0Cu8 => (RrcMemIyDR{r:Reg8::H}).next_state(s),
        0x0Du8 => (RrcMemIyDR{r:Reg8::L}).next_state(s),
        0x0Eu8 => (RrcMemIyD).next_state(s),
        0x0Fu8 => (RrcMemIyDR{r:Reg8::A}).next_state(s),
        0x10u8 => (RlMemIyDR{r:Reg8::B}).next_state(s),
        0x11u8 => (RlMemIyDR{r:Reg8::C}).next_state(s),
        0x12u8 => (RlMemIyDR{r:Reg8::D}).next_state(s),
        0x13u8 => (RlMemIyDR{r:Reg8::E}).next_state(s),
        0x14u8 => (RlMemIyDR{r:Reg8::H}).next_state(s),
        0x15u8 => (RlMemIyDR{r:Reg8::L}).next_state(s),
        0x16u8 => (RlMemIyD).next_state(s),
        0x17u8 => (RlMemIyDR{r:Reg8::A}).next_state(s),
        0x18u8 => (RrMemIyDR{r:Reg8::B}).next_state(s),
        0x19u8 => (RrMemIyDR{r:Reg8::C}).next_state(s),
        0x1Au8 => (RrMemIyDR{r:Reg8::D}).next_state(s),
        0x1Bu8 => (RrMemIyDR{r:Reg8::E}).next_state(s),
        0x1Cu8 => (RrMemIyDR{r:Reg8::H}).next_state(s),
        0x1Du8 => (RrMemIyDR{r:Reg8::L}).next_state(s),
        0x1Eu8 => (RrMemIyD).next_state(s),
        0x1Fu8 => (RrMemIyDR{r:Reg8::A}).next_state(s),
        0x20u8 => (SlaMemIyDR{r:Reg8::B}).next_state(s),
        0x21u8 => (SlaMemIyDR{r:Reg8::C}).next_state(s),
        0x22u8 => (SlaMemIyDR{r:Reg8::D}).next_state(s),
        0x23u8 => (SlaMemIyDR{r:Reg8::E}).next_state(s),
        0x24u8 => (SlaMemIyDR{r:Reg8::H}).next_state(s),
        0x25u8 => (SlaMemIyDR{r:Reg8::L}).next_state(s),
        0x26u8 => (SlaMemIyD).next_state(s),
        0x27u8 => (SlaMemIyDR{r:Reg8::A}).next_state(s),
        0x28u8 => (SraMemIyDR{r:Reg8::B}).next_state(s),
        0x29u8 => (SraMemIyDR{r:Reg8::C}).next_state(s),
        0x2Au8 => (SraMemIyDR{r:Reg8::D}).next_state(s),
        0x2Bu8 => (SraMemIyDR{r:Reg8::E}).next_state(s),
        0x2Cu8 => (SraMemIyDR{r:Reg8::H}).next_state(s),
        0x2Du8 => (SraMemIyDR{r:Reg8::L}).next_state(s),
        0x2Eu8 => (SraMemIyD).next_state(s),
        0x2Fu8 => (SraMemIyDR{r:Reg8::A}).next_state(s),
        0x30u8 => (SllMemIyDR{r:Reg8::B}).next_state(s),
        0x31u8 => (SllMemIyDR{r:Reg8::C}).next_state(s),
        0x32u8 => (SllMemIyDR{r:Reg8::D}).next_state(s),
        0x33u8 => (SllMemIyDR{r:Reg8::E}).next_state(s),
        0x34u8 => (SllMemIyDR{r:Reg8::H}).next_state(s),
        0x35u8 => (SllMemIyDR{r:Reg8::L}).next_state(s),
        0x36u8 => (SllMemIyD).next_state(s),
        0x37u8 => (SllMemIyDR{r:Reg8::A}).next_state(s),
        0x38u8 => (SrlMemIyDR{r:Reg8::B}).next_state(s),
        0x39u8 => (SrlMemIyDR{r:Reg8::C}).next_state(s),
        0x3Au8 => (SrlMemIyDR{r:Reg8::D}).next_state(s),
        0x3Bu8 => (SrlMemIyDR{r:Reg8::E}).next_state(s),
        0x3Cu8 => (SrlMemIyDR{r:Reg8::H}).next_state(s),
        0x3Du8 => (SrlMemIyDR{r:Reg8::L}).next_state(s),
        0x3Eu8 => (SrlMemIyD).next_state(s),
        0x3Fu8 => (SrlMemIyDR{r:Reg8::A}).next_state(s),
        0x40u8 => (BitBMemIyD{b:0}).next_state(s),
        0x41u8 => (BitBMemIyD{b:0}).next_state(s),
        0x42u8 => (BitBMemIyD{b:0}).next_state(s),
        0x43u8 => (BitBMemIyD{b:0}).next_state(s),
        0x44u8 => (BitBMemIyD{b:0}).next_state(s),
        0x45u8 => (BitBMemIyD{b:0}).next_state(s),
        0x46u8 => (BitBMemIyD{b:0}).next_state(s),
        0x47u8 => (BitBMemIyD{b:0}).next_state(s),
        0x48u8 => (BitBMemIyD{b:1}).next_state(s),
        0x49u8 => (BitBMemIyD{b:1}).next_state(s),
        0x4Au8 => (BitBMemIyD{b:1}).next_state(s),
        0x4Bu8 => (BitBMemIyD{b:1}).next_state(s),
        0x4Cu8 => (BitBMemIyD{b:1}).next_state(s),
        0x4Du8 => (BitBMemIyD{b:1}).next_state(s),
        0x4Eu8 => (BitBMemIyD{b:1}).next_state(s),
        0x4Fu8 => (BitBMemIyD{b:1}).next_state(s),
        0x50u8 => (BitBMemIyD{b:2}).next_state(s),
        0x51u8 => (BitBMemIyD{b:2}).next_state(s),
        0x52u8 => (BitBMemIyD{b:2}).next_state(s),
        0x53u8 => (BitBMemIyD{b:2}).next_state(s),
        0x54u8 => (BitBMemIyD{b:2}).next_state(s),
        0x55u8 => (BitBMemIyD{b:2}).next_state(s),
        0x56u8 => (BitBMemIyD{b:2}).next_state(s),
        0x57u8 => (BitBMemIyD{b:2}).next_state(s),
        0x58u8 => (BitBMemIyD{b:3}).next_state(s),
        0x59u8 => (BitBMemIyD{b:3}).next_state(s),
        0x5Au8 => (BitBMemIyD{b:3}).next_state(s),
        0x5Bu8 => (BitBMemIyD{b:3}).next_state(s),
        0x5Cu8 => (BitBMemIyD{b:3}).next_state(s),
        0x5Du8 => (BitBMemIyD{b:3}).next_state(s),
        0x5Eu8 => (BitBMemIyD{b:3}).next_state(s),
        0x5Fu8 => (BitBMemIyD{b:3}).next_state(s),
        0x60u8 => (BitBMemIyD{b:4}).next_state(s),
        0x61u8 => (BitBMemIyD{b:4}).next_state(s),
        0x62u8 => (BitBMemIyD{b:4}).next_state(s),
        0x63u8 => (BitBMemIyD{b:4}).next_state(s),
        0x64u8 => (BitBMemIyD{b:4}).next_state(s),
        0x65u8 => (BitBMemIyD{b:4}).next_state(s),
        0x66u8 => (BitBMemIyD{b:4}).next_state(s),
        0x67u8 => (BitBMemIyD{b:4}).next_state(s),
        0x68u8 => (BitBMemIyD{b:5}).next_state(s),
        0x69u8 => (BitBMemIyD{b:5}).next_state(s),
        0x6Au8 => (BitBMemIyD{b:5}).next_state(s),
        0x6Bu8 => (BitBMemIyD{b:5}).next_state(s),
        0x6Cu8 => (BitBMemIyD{b:5}).next_state(s),
        0x6Du8 => (BitBMemIyD{b:5}).next_state(s),
        0x6Eu8 => (BitBMemIyD{b:5}).next_state(s),
        0x6Fu8 => (BitBMemIyD{b:5}).next_state(s),
        0x70u8 => (BitBMemIyD{b:6}).next_state(s),
        0x71u8 => (BitBMemIyD{b:6}).next_state(s),
        0x72u8 => (BitBMemIyD{b:6}).next_state(s),
        0x73u8 => (BitBMemIyD{b:6}).next_state(s),
        0x74u8 => (BitBMemIyD{b:6}).next_state(s),
        0x75u8 => (BitBMemIyD{b:6}).next_state(s),
        0x76u8 => (BitBMemIyD{b:6}).next_state(s),
        0x77u8 => (BitBMemIyD{b:6}).next_state(s),
        0x78u8 => (BitBMemIyD{b:7}).next_state(s),
        0x79u8 => (BitBMemIyD{b:7}).next_state(s),
        0x7Au8 => (BitBMemIyD{b:7}).next_state(s),
        0x7Bu8 => (BitBMemIyD{b:7}).next_state(s),
        0x7Cu8 => (BitBMemIyD{b:7}).next_state(s),
        0x7Du8 => (BitBMemIyD{b:7}).next_state(s),
        0x7Eu8 => (BitBMemIyD{b:7}).next_state(s),
        0x7Fu8 => (BitBMemIyD{b:7}).next_state(s),
        0x80u8 => (ResBMemIyDR{b:0,r:Reg8::B}).next_state(s),
        0x81u8 => (ResBMemIyDR{b:0,r:Reg8::C}).next_state(s),
        0x82u8 => (ResBMemIyDR{b:0,r:Reg8::D}).next_state(s),
        0x83u8 => (ResBMemIyDR{b:0,r:Reg8::E}).next_state(s),
        0x84u8 => (ResBMemIyDR{b:0,r:Reg8::H}).next_state(s),
        0x85u8 => (ResBMemIyDR{b:0,r:Reg8::L}).next_state(s),
        0x86u8 => (ResBMemIyD{b:0}).next_state(s),
        0x87u8 => (ResBMemIyDR{b:0,r:Reg8::A}).next_state(s),
        0x88u8 => (ResBMemIyDR{b:1,r:Reg8::B}).next_state(s),
        0x89u8 => (ResBMemIyDR{b:1,r:Reg8::C}).next_state(s),
        0x8Au8 => (ResBMemIyDR{b:1,r:Reg8::D}).next_state(s),
        0x8Bu8 => (ResBMemIyDR{b:1,r:Reg8::E}).next_state(s),
        0x8Cu8 => (ResBMemIyDR{b:1,r:Reg8::H}).next_state(s),
        0x8Du8 => (ResBMemIyDR{b:1,r:Reg8::L}).next_state(s),
        0x8Eu8 => (ResBMemIyD{b:1}).next_state(s),
        0x8Fu8 => (ResBMemIyDR{b:1,r:Reg8::A}).next_state(s),
        0x90u8 => (ResBMemIyDR{b:2,r:Reg8::B}).next_state(s),
        0x91u8 => (ResBMemIyDR{b:2,r:Reg8::C}).next_state(s),
        0x92u8 => (ResBMemIyDR{b:2,r:Reg8::D}).next_state(s),
        0x93u8 => (ResBMemIyDR{b:2,r:Reg8::E}).next_state(s),
        0x94u8 => (ResBMemIyDR{b:2,r:Reg8::H}).next_state(s),
        0x95u8 => (ResBMemIyDR{b:2,r:Reg8::L}).next_state(s),
        0x96u8 => (ResBMemIyD{b:2}).next_state(s),
        0x97u8 => (ResBMemIyDR{b:2,r:Reg8::A}).next_state(s),
        0x98u8 => (ResBMemIyDR{b:3,r:Reg8::B}).next_state(s),
        0x99u8 => (ResBMemIyDR{b:3,r:Reg8::C}).next_state(s),
        0x9Au8 => (ResBMemIyDR{b:3,r:Reg8::D}).next_state(s),
        0x9Bu8 => (ResBMemIyDR{b:3,r:Reg8::E}).next_state(s),
        0x9Cu8 => (ResBMemIyDR{b:3,r:Reg8::H}).next_state(s),
        0x9Du8 => (ResBMemIyDR{b:3,r:Reg8::L}).next_state(s),
        0x9Eu8 => (ResBMemIyD{b:3}).next_state(s),
        0x9Fu8 => (ResBMemIyDR{b:3,r:Reg8::A}).next_state(s),
        0xA0u8 => (ResBMemIyDR{b:4,r:Reg8::B}).next_state(s),
        0xA1u8 => (ResBMemIyDR{b:4,r:Reg8::C}).next_state(s),
        0xA2u8 => (ResBMemIyDR{b:4,r:Reg8::D}).next_state(s),
        0xA3u8 => (ResBMemIyDR{b:4,r:Reg8::E}).next_state(s),
        0xA4u8 => (ResBMemIyDR{b:4,r:Reg8::H}).next_state(s),
        0xA5u8 => (ResBMemIyDR{b:4,r:Reg8::L}).next_state(s),
        0xA6u8 => (ResBMemIyD{b:4}).next_state(s),
        0xA7u8 => (ResBMemIyDR{b:4,r:Reg8::A}).next_state(s),
        0xA8u8 => (ResBMemIyDR{b:5,r:Reg8::B}).next_state(s),
        0xA9u8 => (ResBMemIyDR{b:5,r:Reg8::C}).next_state(s),
        0xAAu8 => (ResBMemIyDR{b:5,r:Reg8::D}).next_state(s),
        0xABu8 => (ResBMemIyDR{b:5,r:Reg8::E}).next_state(s),
        0xACu8 => (ResBMemIyDR{b:5,r:Reg8::H}).next_state(s),
        0xADu8 => (ResBMemIyDR{b:5,r:Reg8::L}).next_state(s),
        0xAEu8 => (ResBMemIyD{b:5}).next_state(s),
        0xAFu8 => (ResBMemIyDR{b:5,r:Reg8::A}).next_state(s),
        0xB0u8 => (ResBMemIyDR{b:6,r:Reg8::B}).next_state(s),
        0xB1u8 => (ResBMemIyDR{b:6,r:Reg8::C}).next_state(s),
        0xB2u8 => (ResBMemIyDR{b:6,r:Reg8::D}).next_state(s),
        0xB3u8 => (ResBMemIyDR{b:6,r:Reg8::E}).next_state(s),
        0xB4u8 => (ResBMemIyDR{b:6,r:Reg8::H}).next_state(s),
        0xB5u8 => (ResBMemIyDR{b:6,r:Reg8::L}).next_state(s),
        0xB6u8 => (ResBMemIyD{b:6}).next_state(s),
        0xB7u8 => (ResBMemIyDR{b:6,r:Reg8::A}).next_state(s),
        0xB8u8 => (ResBMemIyDR{b:7,r:Reg8::B}).next_state(s),
        0xB9u8 => (ResBMemIyDR{b:7,r:Reg8::C}).next_state(s),
        0xBAu8 => (ResBMemIyDR{b:7,r:Reg8::D}).next_state(s),
        0xBBu8 => (ResBMemIyDR{b:7,r:Reg8::E}).next_state(s),
        0xBCu8 => (ResBMemIyDR{b:7,r:Reg8::H}).next_state(s),
        0xBDu8 => (ResBMemIyDR{b:7,r:Reg8::L}).next_state(s),
        0xBEu8 => (ResBMemIyD{b:7}).next_state(s),
        0xBFu8 => (ResBMemIyDR{b:7,r:Reg8::A}).next_state(s),
        0xC0u8 => (SetBMemIyDR{b:0,r:Reg8::B}).next_state(s),
        0xC1u8 => (SetBMemIyDR{b:0,r:Reg8::C}).next_state(s),
        0xC2u8 => (SetBMemIyDR{b:0,r:Reg8::D}).next_state(s),
        0xC3u8 => (SetBMemIyDR{b:0,r:Reg8::E}).next_state(s),
        0xC4u8 => (SetBMemIyDR{b:0,r:Reg8::H}).next_state(s),
        0xC5u8 => (SetBMemIyDR{b:0,r:Reg8::L}).next_state(s),
        0xC6u8 => (SetBMemIyD{b:0}).next_state(s),
        0xC7u8 => (SetBMemIyDR{b:0,r:Reg8::A}).next_state(s),
        0xC8u8 => (SetBMemIyDR{b:1,r:Reg8::B}).next_state(s),
        0xC9u8 => (SetBMemIyDR{b:1,r:Reg8::C}).next_state(s),
        0xCAu8 => (SetBMemIyDR{b:1,r:Reg8::D}).next_state(s),
        0xCBu8 => (SetBMemIyDR{b:1,r:Reg8::E}).next_state(s),
        0xCCu8 => (SetBMemIyDR{b:1,r:Reg8::H}).next_state(s),
        0xCDu8 => (SetBMemIyDR{b:1,r:Reg8::L}).next_state(s),
        0xCEu8 => (SetBMemIyD{b:1}).next_state(s),
        0xCFu8 => (SetBMemIyDR{b:1,r:Reg8::A}).next_state(s),
        0xD0u8 => (SetBMemIyDR{b:2,r:Reg8::B}).next_state(s),
        0xD1u8 => (SetBMemIyDR{b:2,r:Reg8::C}).next_state(s),
        0xD2u8 => (SetBMemIyDR{b:2,r:Reg8::D}).next_state(s),
        0xD3u8 => (SetBMemIyDR{b:2,r:Reg8::E}).next_state(s),
        0xD4u8 => (SetBMemIyDR{b:2,r:Reg8::H}).next_state(s),
        0xD5u8 => (SetBMemIyDR{b:2,r:Reg8::L}).next_state(s),
        0xD6u8 => (SetBMemIyD{b:2}).next_state(s),
        0xD7u8 => (SetBMemIyDR{b:2,r:Reg8::A}).next_state(s),
        0xD8u8 => (SetBMemIyDR{b:3,r:Reg8::B}).next_state(s),
        0xD9u8 => (SetBMemIyDR{b:3,r:Reg8::C}).next_state(s),
        0xDAu8 => (SetBMemIyDR{b:3,r:Reg8::D}).next_state(s),
        0xDBu8 => (SetBMemIyDR{b:3,r:Reg8::E}).next_state(s),
        0xDCu8 => (SetBMemIyDR{b:3,r:Reg8::H}).next_state(s),
        0xDDu8 => (SetBMemIyDR{b:3,r:Reg8::L}).next_state(s),
        0xDEu8 => (SetBMemIyD{b:3}).next_state(s),
        0xDFu8 => (SetBMemIyDR{b:3,r:Reg8::A}).next_state(s),
        0xE0u8 => (SetBMemIyDR{b:4,r:Reg8::B}).next_state(s),
        0xE1u8 => (SetBMemIyDR{b:4,r:Reg8::C}).next_state(s),
        0xE2u8 => (SetBMemIyDR{b:4,r:Reg8::D}).next_state(s),
        0xE3u8 => (SetBMemIyDR{b:4,r:Reg8::E}).next_state(s),
        0xE4u8 => (SetBMemIyDR{b:4,r:Reg8::H}).next_state(s),
        0xE5u8 => (SetBMemIyDR{b:4,r:Reg8::L}).next_state(s),
        0xE6u8 => (SetBMemIyD{b:4}).next_state(s),
        0xE7u8 => (SetBMemIyDR{b:4,r:Reg8::A}).next_state(s),
        0xE8u8 => (SetBMemIyDR{b:5,r:Reg8::B}).next_state(s),
        0xE9u8 => (SetBMemIyDR{b:5,r:Reg8::C}).next_state(s),
        0xEAu8 => (SetBMemIyDR{b:5,r:Reg8::D}).next_state(s),
        0xEBu8 => (SetBMemIyDR{b:5,r:Reg8::E}).next_state(s),
        0xECu8 => (SetBMemIyDR{b:5,r:Reg8::H}).next_state(s),
        0xEDu8 => (SetBMemIyDR{b:5,r:Reg8::L}).next_state(s),
        0xEEu8 => (SetBMemIyD{b:5}).next_state(s),
        0xEFu8 => (SetBMemIyDR{b:5,r:Reg8::A}).next_state(s),
        0xF0u8 => (SetBMemIyDR{b:6,r:Reg8::B}).next_state(s),
        0xF1u8 => (SetBMemIyDR{b:6,r:Reg8::C}).next_state(s),
        0xF2u8 => (SetBMemIyDR{b:6,r:Reg8::D}).next_state(s),
        0xF3u8 => (SetBMemIyDR{b:6,r:Reg8::E}).next_state(s),
        0xF4u8 => (SetBMemIyDR{b:6,r:Reg8::H}).next_state(s),
        0xF5u8 => (SetBMemIyDR{b:6,r:Reg8::L}).next_state(s),
        0xF6u8 => (SetBMemIyD{b:6}).next_state(s),
        0xF7u8 => (SetBMemIyDR{b:6,r:Reg8::A}).next_state(s),
        0xF8u8 => (SetBMemIyDR{b:7,r:Reg8::B}).next_state(s),
        0xF9u8 => (SetBMemIyDR{b:7,r:Reg8::C}).next_state(s),
        0xFAu8 => (SetBMemIyDR{b:7,r:Reg8::D}).next_state(s),
        0xFBu8 => (SetBMemIyDR{b:7,r:Reg8::E}).next_state(s),
        0xFCu8 => (SetBMemIyDR{b:7,r:Reg8::H}).next_state(s),
        0xFDu8 => (SetBMemIyDR{b:7,r:Reg8::L}).next_state(s),
        0xFEu8 => (SetBMemIyD{b:7}).next_state(s),
        0xFFu8 => (SetBMemIyDR{b:7,r:Reg8::A}).next_state(s),
    }
}

/// Whether the table has an instruction for the opcode.
pub open spec fn fdcb_supported(op: u8) -> bool {
    true
}

/// Executes the table's instruction for `op`; says whether there is one.
#[verifier::rlimit(100)]
pub fn execute_fdcb(cpu: &mut Cpu, op: u8) -> (supported: bool)
    requires
        old(cpu).wf(),
        old(cpu)@.tcycles <= TCYCLE_CEILING,
    ensures
        final(cpu).wf(),
        final(cpu)@ == fdcb_next(old(cpu)@, op),
        supported == fdcb_supported(op),
        !supported ==> final(cpu)@ == old(cpu)@,
        final(cpu)@.tcycles <= old(cpu)@.tcycles + MAX_STEP_TCYCLES,
{
    proof {
        reveal(fdcb_next);
    }
    match op {
        0x00 => {
            (RlcMemIyDR{r:Reg8::B}).execute(cpu);
            true
        },
        0x01 => {
            (RlcMemIyDR{r:Reg8::C}).execute(cpu);
            true
        },
        0x02 => {
            (RlcMemIyDR{r:Reg8::D}).execute(cpu);
            true
        },
        0x03 => {
            (RlcMemIyDR{r:Reg8::E}).execute(cpu);
            true
        },
        0x04 => {
            (RlcMemIyDR{r:Reg8::H}).execute(cpu);
            true
        },
        0x05 => {
            (RlcMemIyDR{r:Reg8::L}).execute(cpu);
            true
        },
        0x06 => {
            (RlcMemIyD).execute(cpu);
            true
        },
        0x07 => {
            (RlcMemIyDR{r:Reg8::A}).execute(cpu);
            true
        },
        0x08 => {
            (RrcMemIyDR{r:Reg8::B}).execute(cpu);
            true
        },
        0x09 => {
            (RrcMemIyDR{r:Reg8::C}).execute(cpu);
            true
        },
        0x0A => {
            (RrcMemIyDR{r:Reg8::D}).execute(cpu);
            true
        },
        0x0B => {
            (RrcMemIyDR{r:Reg8::E}).execute(cpu);
            true
        },
        0x0C => {
            (RrcMemIyDR{r:Reg8::H}).execute(cpu);
            true
        },
        0x0D => {
            (RrcMemIyDR{r:Reg8::L}).execute(cpu);
            true
        },
        0x0E => {
            (RrcMemIyD).execute(cpu);
            true
        },
        0x0F => {
            (RrcMemIyDR{r:Reg8::A}).execute(cpu);
            true
        },
        0x10 => {
            (RlMemIyDR{r:Reg8::B}).execute(cpu);
            true
        },
        0x11 => {
            (RlMemIyDR{r:Reg8::C}).execute(cpu);
            true
        },
        0x12 => {
            (RlMemIyDR{r:Reg8::D}).execute(cpu);
            true
        },
        0x13 => {
            (RlMemIyDR{r:Reg8::E}).execute(cpu);
            true
        },
        0x14 => {
            (RlMemIyDR{r:Reg8::H}).execute(cpu);
            true
        },
        0x15 => {
            (RlMemIyDR{r:Reg8::L}).execute(cpu);
            true
        },
        0x16 => {
            (RlMemIyD).execute(cpu);
            true
        },
        0x17 => {
            (RlMemIyDR{r:Reg8::A}).execute(cpu);
            true
        },
        0x18 => {
            (RrMemIyDR{r:Reg8::B}).execute(cpu);
            true
        },
        0x19 => {
            (RrMemIyDR{r:Reg8::C}).execute(cpu);
            true
        },
        0x1A => {
            (RrMemIyDR{r:Reg8::D}).execute(cpu);
            true
        },
        0x1B => {
            (RrMemIyDR{r:Reg8::E}).execute(cpu);
            true
        },
        0x1C => {
            (RrMemIyDR{r:Reg8::H}).execute(cpu);
            true
        },
        0x1D => {
            (RrMemIyDR{r:Reg8::L}).execute(cpu);
            true
        },
        0x1E => {
            (RrMemIyD).execute(cpu);
            true
        },
        0x1F => {
            (RrMemIyDR{r:Reg8::A}).execute(cpu);
            true
        },
        0x20 => {
            (SlaMemIyDR{r:Reg8::B}).execute(cpu);
            true
        },
        0x21 => {
            (SlaMemIyDR{r:Reg8::C}).execute(cpu);
            true
        },
        0x22 => {
            (SlaMemIyDR{r:Reg8::D}).execute(cpu);
            true
        },
        0x23 => {
            (SlaMemIyDR{r:Reg8::E}).execute(cpu);
            true
        },
        0x24 => {
            (SlaMemIyDR{r:Reg8::H}).execute(cpu);
            true
        },
        0x25 => {
            (SlaMemIyDR{r:Reg8::L}).execute(cpu);
            true
        },
        0x26 => {
            (SlaMemIyD).execute(cpu);
            true
        },
        0x27 => {
            (SlaMemIyDR{r:Reg8::A}).execute(cpu);
            true
        },
        0x28 => {
            (SraMemIyDR{r:Reg8::B}).execute(cpu);
            true
        },
        0x29 => {
            (SraMemIyDR{r:Reg8::C}).execute(cpu);
            true
        },
        0x2A => {
            (SraMemIyDR{r:Reg8::D}).execute(cpu);
            true
        },
        0x2B => {
            (SraMemIyDR{r:Reg8::E}).execute(cpu);
            true
        },
        0x2C => {
            (SraMemIyDR{r:Reg8::H}).execute(cpu);
            true
        },
        0x2D => {
            (SraMemIyDR{r:Reg8::L}).execute(cpu);
            true
        },
        0x2E => {
            (SraMemIyD).execute(cpu);
            true
        },
        0x2F => {
            (SraMemIyDR{r:Reg8::A}).execute(cpu);
            true
        },
        0x30 => {
            (SllMemIyDR{r:Reg8::B}).execute(cpu);
            true
        },
        0x31 => {
            (SllMemIyDR{r:Reg8::C}).execute(cpu);
            true
        },
        0x32 => {
            (SllMemIyDR{r:Reg8::D}).execute(cpu);
            true
        },
        0x33 => {
            (SllMemIyDR{r:Reg8::E}).execute(cpu);
            true
        },
        0x34 => {
            (SllMemIyDR{r:Reg8::H}).execute(cpu);
            true
        },
        0x35 => {
            (SllMemIyDR{r:Reg8::L}).execute(cpu);
            true
        },
        0x36 => {
            (SllMemIyD).execute(cpu);
            true
        },
        0x37 => {
            (SllMemIyDR{r:Reg8::A}).execute(cpu);
            true
        },
        0x38 => {
            (SrlMemIyDR{r:Reg8::B}).execute(cpu);
            true
        },
        0x39 => {
            (SrlMemIyDR{r:Reg8::C}).execute(cpu);
            true
        },
        0x3A => {
            (SrlMemIyDR{r:Reg8::D}).execute(cpu);
            true
        },
        0x3B => {
            (SrlMemIyDR{r:Reg8::E}).execute(cpu);
            true
        },
        0x3C => {
            (SrlMemIyDR{r:Reg8::H}).execute(cpu);
            true
        },
        0x3D => {
            (SrlMemIyDR{r:Reg8::L}).execute(cpu);
            true
        },
        0x3E => {
            (SrlMemIyD).execute(cpu);
            true
        },
        0x3F => {
            (SrlMemIyDR{r:Reg8::A}).execute(cpu);
            true
        },
        0x40 => {
            (BitBMemIyD{b:0}).execute(cpu);
            true
        },
        0x41 => {
            (BitBMemIyD{b:0}).execute(cpu);
            true
        },
        0x42 => {
            (BitBMemIyD{b:0}).execute(cpu);
            true
        },
        0x43 => {
            (BitBMemIyD{b:0}).execute(cpu);
            true
        },
        0x44 => {
            (BitBMemIyD{b:0}).execute(cpu);
            true
        },
        0x45 => {
            (BitBMemIyD{b:0}).execute(cpu);
            true
        },
        0x46 => {
            (BitBMemIyD{b:0}).execute(cpu);
            true
        },
        0x47 => {
            (BitBMemIyD{b:0}).execute(cpu);
            true
        },
        0x48 => {
            (BitBMemIyD{b:1}).execute(cpu);
            true
        },
        0x49 => {
            (BitBMemIyD{b:1}).execute(cpu);
            true
        },
        0x4A => {
            (BitBMemIyD{b:1}).execute(cpu);
            true
        },
        0x4B => {
            (BitBMemIyD{b:1}).execute(cpu);
            true
        },
        0x4C => {
            (BitBMemIyD{b:1}).execute(cpu);
            true
        },
        0x4D => {
            (BitBMemIyD{b:1}).execute(cpu);
            true
        },
        0x4E => {
            (BitBMemIyD{b:1}).execute(cpu);
            true
        },
        0x4F => {
            (BitBMemIyD{b:1}).execute(cpu);
            true
        },
        0x50 => {
            (BitBMemIyD{b:2}).execute(cpu);
            true
        },
        0x51 => {
            (BitBMemIyD{b:2}).execute(cpu);
            true
        },
        0x52 => {
            (BitBMemIyD{b:2}).execute(cpu);
            true
        },
        0x53 => {
            (BitBMemIyD{b:2}).execute(cpu);
            true
        },
        0x54 => {
            (BitBMemIyD{b:2}).execute(cpu);
            true
        },
        0x55 => {
            (BitBMemIyD{b:2}).execute(cpu);
            true
        },
        0x56 => {
            (BitBMemIyD{b:2}).execute(cpu);
            true
        },
        0x57 => {
            (BitBMemIyD{b:2}).execute(cpu);
            true
        },
        0x58 => {
            (BitBMemIyD{b:3}).execute(cpu);
            true
        },
        0x59 => {
            (BitBMemIyD{b:3}).execute(cpu);
            true
        },
        0x5A => {
            (BitBMemIyD{b:3}).execute(cpu);
            true
        },
        0x5B => {
            (BitBMemIyD{b:3}).execute(cpu);
            true
        },
        0x5C => {
            (BitBMemIyD{b:3}).execute(cpu);
            true
        },
        0x5D => {
            (BitBMemIyD{b:3}).execute(cpu);
            true
        },
        0x5E => {
            (BitBMemIyD{b:3}).execute(cpu);
            true
        },
        0x5F => {
            (BitBMemIyD{b:3}).execute(cpu);
            true
        },
        0x60 => {
            (BitBMemIyD{b:4}).execute(cpu);
            true
        },
        0x61 => {
            (BitBMemIyD{b:4}).execute(cpu);
            true
        },
        0x62 => {
            (BitBMemIyD{b:4}).execute(cpu);
            true
        },
        0x63 => {
            (BitBMemIyD{b:4}).execute(cpu);
            true
        },
        0x64 => {
            (BitBMemIyD{b:4}).execute(cpu);
            true
        },
        0x65 => {
            (BitBMemIyD{b:4}).execute(cpu);
            true
        },
        0x66 => {
            (BitBMemIyD{b:4}).execute(cpu);
            true
        },
        0x67 => {
            (BitBMemIyD{b:4}).execute(cpu);
            true
        },
        0x68 => {
            (BitBMemIyD{b:5}).execute(cpu);
            true
        },
        0x69 => {
            (BitBMemIyD{b:5}).execute(cpu);
            true
        },
        0x6A => {
            (BitBMemIyD{b:5}).execute(cpu);
            true
        },
        0x6B => {
            (BitBMemIyD{b:5}).execute(cpu);
            true
        },
        0x6C => {
            (BitBMemIyD{b:5}).execute(cpu);
            true
        },
        0x6D => {
            (BitBMemIyD{b:5}).execute(cpu);
            true
        },
        0x6E => {
            (BitBMemIyD{b:5}).execute(cpu);
            true
        },
        0x6F => {
            (BitBMemIyD{b:5}).execute(cpu);
            true
        },
        0x70 => {
            (BitBMemIyD{b:6}).execute(cpu);
            true
        },
        0x71 => {
            (BitBMemIyD{b:6}).execute(cpu);
            true
        },
        0x72 => {
            (BitBMemIyD{b:6}).execute(cpu);
            true
        },
        0x73 => {
            (BitBMemIyD{b:6}).execute(cpu);
            true
        },
        0x74 => {
            (BitBMemIyD{b:6}).execute(cpu);
            true
        },
        0x75 => {
            (BitBMemIyD{b:6}).execute(cpu);
            true
        },
        0x76 => {
            (BitBMemIyD{b:6}).execute(cpu);
            true
        },
        0x77 => {
            (BitBMemIyD{b:6}).execute(cpu);
            true
        },
        0x78 => {
            (BitBMemIyD{b:7}).execute(cpu);
            true
        },
        0x79 => {
            (BitBMemIyD{b:7}).execute(cpu);
            true
        },
        0x7A => {
            (BitBMemIyD{b:7}).execute(cpu);
            true
        },
        0x7B => {
            (BitBMemIyD{b:7}).execute(cpu);
            true
        },
        0x7C => {
            (BitBMemIyD{b:7}).execute(cpu);
            true
        },
        0x7D => {
            (BitBMemIyD{b:7}).execute(cpu);
            true
        },
        0x7E => {
            (BitBMemIyD{b:7}).execute(cpu);
            true
        },
        0x7F => {
            (BitBMemIyD{b:7}).execute(cpu);
            true
        },
        0x80 => {
            (ResBMemIyDR{b:0,r:Reg8::B}).execute(cpu);
            true
        },
        0x81 => {
            (ResBMemIyDR{b:0,r:Reg8::C}).execute(cpu);
            true
        },
        0x82 => {
            (ResBMemIyDR{b:0,r:Reg8::D}).execute(cpu);
            true
        },
        0x83 => {
            (ResBMemIyDR{b:0,r:Reg8::E}).execute(cpu);
            true
        },
        0x84 => {
            (ResBMemIyDR{b:0,r:Reg8::H}).execute(cpu);
            true
        },
        0x85 => {
            (ResBMemIyDR{b:0,r:Reg8::L}).execute(cpu);
            true
        },
        0x86 => {
            (ResBMemIyD{b:0}).execute(cpu);
            true
        },
        0x87 => {
            (ResBMemIyDR{b:0,r:Reg8::A}).execute(cpu);
            true
        },
        0x88 => {
            (ResBMemIyDR{b:1,r:Reg8::B}).execute(cpu);
            true
        },
        0x89 => {
            (ResBMemIyDR{b:1,r:Reg8::C}).execute(cpu);
            true
        },
        0x8A => {
            (ResBMemIyDR{b:1,r:Reg8::D}).execute(cpu);
            true
        },
        0x8B => {
            (ResBMemIyDR{b:1,r:Reg8::E}).execute(cpu);
            true
        },
        0x8C => {
            (ResBMemIyDR{b:1,r:Reg8::H}).execute(cpu);
            true
        },
        0x8D => {
            (ResBMemIyDR{b:1,r:Reg8::L}).execute(cpu);
            true
        },
        0x8E => {
            (ResBMemIyD{b:1}).execute(cpu);
            true
        },
        0x8F => {
            (ResBMemIyDR{b:1,r:Reg8::A}).execute(cpu);
            true
        },
        0x90 => {
            (ResBMemIyDR{b:2,r:Reg8::B}).execute(cpu);
            true
        },
        0x91 => {
            (ResBMemIyDR{b:2,r:Reg8::C}).execute(cpu);
            true
        },
        0x92 => {
            (ResBMemIyDR{b:2,r:Reg8::D}).execute(cpu);
            true
        },
        0x93 => {
            (ResBMemIyDR{b:2,r:Reg8::E}).execute(cpu);
            true
        },
        0x94 => {
            (ResBMemIyDR{b:2,r:Reg8::H}).execute(cpu);
            true
        },
        0x95 => {
            (ResBMemIyDR{b:2,r:Reg8::L}).execute(cpu);
            true
        },
        0x96 => {
            (ResBMemIyD{b:2}).execute(cpu);
            true
        },
        0x97 => {
            (ResBMemIyDR{b:2,r:Reg8::A}).execute(cpu);
            true
        },
        0x98 => {
            (ResBMemIyDR{b:3,r:Reg8::B}).execute(cpu);
            true
        },
        0x99 => {
            (ResBMemIyDR{b:3,r:Reg8::C}).execute(cpu);
            true
        },
        0x9A => {
            (ResBMemIyDR{b:3,r:Reg8::D}).execute(cpu);
            true
        },
        0x9B => {
            (ResBMemIyDR{b:3,r:Reg8::E}).execute(cpu);
            true
        },
        0x9C => {
            (ResBMemIyDR{b:3,r:Reg8::H}).execute(cpu);
            true
        },
        0x9D => {
            (ResBMemIyDR{b:3,r:Reg8::L}).execute(cpu);
            true
        },
        0x9E => {
            (ResBMemIyD{b:3}).execute(cpu);
            true
        },
        0x9F => {
            (ResBMemIyDR{b:3,r:Reg8::A}).execute(cpu);
            true
        },
        0xA0 => {
            (ResBMemIyDR{b:4,r:Reg8::B}).execute(cpu);
            true
        },
        0xA1 => {
            (ResBMemIyDR{b:4,r:Reg8::C}).execute(cpu);
            true
        },
        0xA2 => {
            (ResBMemIyDR{b:4,r:Reg8::D}).execute(cpu);
            true
        },
        0xA3 => {
            (ResBMemIyDR{b:4,r:Reg8::E}).execute(cpu);
            true
        },
        0xA4 => {
            (ResBMemIyDR{b:4,r:Reg8::H}).execute(cpu);
            true
        },
        0xA5 => {
            (ResBMemIyDR{b:4,r:Reg8::L}).execute(cpu);
            true
        },
        0xA6 => {
            (ResBMemIyD{b:4}).execute(cpu);
            true
        },
        0xA7 => {
            (ResBMemIyDR{b:4,r:Reg8::A}).execute(cpu);
            true
        },
        0xA8 => {
            (ResBMemIyDR{b:5,r:Reg8::B}).execute(cpu);
            true
        },
        0xA9 => {
            (ResBMemIyDR{b:5,r:Reg8::C}).execute(cpu);
            true
        },
        0xAA => {
            (ResBMemIyDR{b:5,r:Reg8::D}).execute(cpu);
            true
        },
        0xAB => {
            (ResBMemIyDR{b:5,r:Reg8::E}).execute(cpu);
            true
        },
        0xAC => {
            (ResBMemIyDR{b:5,r:Reg8::H}).execute(cpu);
            true
        },
        0xAD => {
            (ResBMemIyDR{b:5,r:Reg8::L}).execute(cpu);
            true
        },
        0xAE => {
            (ResBMemIyD{b:5}).execute(cpu);
            true
        },
        0xAF => {
            (ResBMemIyDR{b:5,r:Reg8::A}).execute(cpu);
            true
        },
        0xB0 => {
            (ResBMemIyDR{b:6,r:Reg8::B}).execute(cpu);
            true
        },
        0xB1 => {
            (ResBMemIyDR{b:6,r:Reg8::C}).execute(cpu);
            true
        },
        0xB2 => {
            (ResBMemIyDR{b:6,r:Reg8::D}).execute(cpu);
            true
        },
        0xB3 => {
            (ResBMemIyDR{b:6,r:Reg8::E}).execute(cpu);
            true
        },
        0xB4 => {
            (ResBMemIyDR{b:6,r:Reg8::H}).execute(cpu);
            true
        },
        0xB5 => {
            (ResBMemIyDR{b:6,r:Reg8::L}).execute(cpu);
            true
        },
        0xB6 => {
            (ResBMemIyD{b:6}).execute(cpu);
            true
        },
        0xB7 => {
            (ResBMemIyDR{b:6,r:Reg8::A}).execute(cpu);
            true
        },
        0xB8 => {
            (ResBMemIyDR{b:7,r:Reg8::B}).execute(cpu);
            true
        },
        0xB9 => {
            (ResBMemIyDR{b:7,r:Reg8::C}).execute(cpu);
            true
        },
        0xBA => {
            (ResBMemIyDR{b:7,r:Reg8::D}).execute(cpu);
            true
        },
        0xBB => {
            (ResBMemIyDR{b:7,r:Reg8::E}).execute(cpu);
            true
        },
        0xBC => {
            (ResBMemIyDR{b:7,r:Reg8::H}).execute(cpu);
            true
        },
        0xBD => {
            (ResBMemIyDR{b:7,r:Reg8::L}).execute(cpu);
            true
        },
        0xBE => {
            (ResBMemIyD{b:7}).execute(cpu);
            true
        },
        0xBF => {
            (ResBMemIyDR{b:7,r:Reg8::A}).execute(cpu);
            true
        },
        0xC0 => {
            (SetBMemIyDR{b:0,r:Reg8::B}).execute(cpu);
            true
        },
        0xC1 => {
            (SetBMemIyDR{b:0,r:Reg8::C}).execute(cpu);
            true
        },
        0xC2 => {
            (SetBMemIyDR{b:0,r:Reg8::D}).execute(cpu);
            true
        },
        0xC3 => {
            (SetBMemIyDR{b:0,r:Reg8::E}).execute(cpu);
            true
        },
        0xC4 => {
            (SetBMemIyDR{b:0,r:Reg8::H}).execute(cpu);
            true
        },
        0xC5 => {
            (SetBMemIyDR{b:0,r:Reg8::L}).execute(cpu);
            true
        },
        0xC6 => {
            (SetBMemIyD{b:0}).execute(cpu);
            true
        },
        0xC7 => {
            (SetBMemIyDR{b:0,r:Reg8::A}).execute(cpu);
            true
        },
        0xC8 => {
            (SetBMemIyDR{b:1,r:Reg8::B}).execute(cpu);
            true
        },
        0xC9 => {
            (SetBMemIyDR{b:1,r:Reg8::C}).execute(cpu);
            true
        },
        0xCA => {
            (SetBMemIyDR{b:1,r:Reg8::D}).execute(cpu);
            true
        },
        0xCB => {
            (SetBMemIyDR{b:1,r:Reg8::E}).execute(cpu);
            true
        },
        0xCC => {
            (SetBMemIyDR{b:1,r:Reg8::H}).execute(cpu);
            true
        },
        0xCD => {
            (SetBMemIyDR{b:1,r:Reg8::L}).execute(cpu);
            true
        },
        0xCE => {
            (SetBMemIyD{b:1}).execute(cpu);
            true
        },
        0xCF => {
            (SetBMemIyDR{b:1,r:Reg8::A}).execute(cpu);
            true
        },
        0xD0 => {
            (SetBMemIyDR{b:2,r:Reg8::B}).execute(cpu);
            true
        },
        0xD1 => {
            (SetBMemIyDR{b:2,r:Reg8::C}).execute(cpu);
            true
        },
        0xD2 => {
            (SetBMemIyDR{b:2,r:Reg8::D}).execute(cpu);
            true
        },
        0xD3 => {
            (SetBMemIyDR{b:2,r:Reg8::E}).execute(cpu);
            true
        },
        0xD4 => {
            (SetBMemIyDR{b:2,r:Reg8::H}).execute(cpu);
            true
        },
        0xD5 => {
            (SetBMemIyDR{b:2,r:Reg8::L}).execute(cpu);
            true
        },
        0xD6 => {
            (SetBMemIyD{b:2}).execute(cpu);
            true
        },
        0xD7 => {
            (SetBMemIyDR{b:2,r:Reg8::A}).execute(cpu);
            true
        },
        0xD8 => {
            (SetBMemIyDR{b:3,r:Reg8::B}).execute(cpu);
            true
        },
        0xD9 => {
            (SetBMemIyDR{b:3,r:Reg8::C}).execute(cpu);
            true
        },
        0xDA => {
            (SetBMemIyDR{b:3,r:Reg8::D}).execute(cpu);
            true
        },
        0xDB => {
            (SetBMemIyDR{b:3,r:Reg8::E}).execute(cpu);
            true
        },
        0xDC => {
            (SetBMemIyDR{b:3,r:Reg8::H}).execute(cpu);
            true
        },
        0xDD => {
            (SetBMemIyDR{b:3,r:Reg8::L}).execute(cpu);
            true
        },
        0xDE => {
            (SetBMemIyD{b:3}).execute(cpu);
            true
        },
        0xDF => {
            (SetBMemIyDR{b:3,r:Reg8::A}).execute(cpu);
            true
        },
        0xE0 => {
            (SetBMemIyDR{b:4,r:Reg8::B}).execute(cpu);
            true
        },
        0xE1 => {
            (SetBMemIyDR{b:4,r:Reg8::C}).execute(cpu);
            true
        },
        0xE2 => {
            (SetBMemIyDR{b:4,r:Reg8::D}).execute(cpu);
            true
        },
        0xE3 => {
            (SetBMemIyDR{b:4,r:Reg8::E}).execute(cpu);
            true
        },
        0xE4 => {
            (SetBMemIyDR{b:4,r:Reg8::H}).execute(cpu);
            true
        },
        0xE5 => {
            (SetBMemIyDR{b:4,r:Reg8::L}).execute(cpu);
            true
        },
        0xE6 => {
            (SetBMemIyD{b:4}).execute(cpu);
            true
        },
        0xE7 => {
            (SetBMemIyDR{b:4,r:Reg8::A}).execute(cpu);
            true
        },
        0xE8 => {
            (SetBMemIyDR{b:5,r:Reg8::B}).execute(cpu);
            true
        },
        0xE9 => {
            (SetBMemIyDR{b:5,r:Reg8::C}).execute(cpu);
            true
        },
        0xEA => {
            (SetBMemIyDR{b:5,r:Reg8::D}).execute(cpu);
            true
        },
        0xEB => {
            (SetBMemIyDR{b:5,r:Reg8::E}).execute(cpu);
            true
        },
        0xEC => {
            (SetBMemIyDR{b:5,r:Reg8::H}).execute(cpu);
            true
        },
        0xED => {
            (SetBMemIyDR{b:5,r:Reg8::L}).execute(cpu);
            true
        },
        0xEE => {
            (SetBMemIyD{b:5}).execute(cpu);
            true
        },
        0xEF => {
            (SetBMemIyDR{b:5,r:Reg8::A}).execute(cpu);
            true
        },
        0xF0 => {
            (SetBMemIyDR{b:6,r:Reg8::B}).execute(cpu);
            true
        },
        0xF1 => {
            (SetBMemIyDR{b:6,r:Reg8::C}).execute(cpu);
            true
        },
        0xF2 => {
            (SetBMemIyDR{b:6,r:Reg8::D}).execute(cpu);
            true
        },
        0xF3 => {
            (SetBMemIyDR{b:6,r:Reg8::E}).execute(cpu);
            true
        },
        0xF4 => {
            (SetBMemIyDR{b:6,r:Reg8::H}).execute(cpu);
            true
        },
        0xF5 => {
            (SetBMemIyDR{b:6,r:Reg8::L}).execute(cpu);
            true
        },
        0xF6 => {
            (SetBMemIyD{b:6}).execute(cpu);
            true
        },
        0xF7 => {
            (SetBMemIyDR{b:6,r:Reg8::A}).execute(cpu);
            true
        },
        0xF8 => {
            (SetBMemIyDR{b:7,r:Reg8::B}).execute(cpu);
            true
        },
        0xF9 => {
            (SetBMemIyDR{b:7,r:Reg8::C}).execute(cpu);
            true
        },
        0xFA => {
            (SetBMemIyDR{b:7,r:Reg8::D}).execute(cpu);
            true
        },
        0xFB => {
            (SetBMemIyDR{b:7,r:Reg8::E}).execute(cpu);
            true
        },
        0xFC => {
            (SetBMemIyDR{b:7,r:Reg8::H}).execute(cpu);
            true
        },
        0xFD => {
            (SetBMemIyDR{b:7,r:Reg8::L}).execute(cpu);
            true
        },
        0xFE => {
            (SetBMemIyD{b:7}).execute(cpu);
            true
        },
        0xFF => {
            (SetBMemIyDR{b:7,r:Reg8::A}).execute(cpu);
            true
        },
    }
}

/// The registers the debugger shows around the instruction for `op`;
/// none for an opcode the table lacks.
#[verifier::opaque]
pub open spec fn fdcb_accessed(op: u8) -> (OutputRegisters, OutputRegisters) {
    match op {
        0x00u8 => (RlcMemIyDR{r:Reg8::B}).accessed(),
        0x01u8 => (RlcMemIyDR{r:Reg8::C}).accessed(),
        0x02u8 => (RlcMemIyDR{r:Reg8::D}).accessed(),
        0x03u8 => (RlcMemIyDR{r:Reg8::E}).accessed(),
        0x04u8 => (RlcMemIyDR{r:Reg8::H}).accessed(),
        0x05u8 => (RlcMemIyDR{r:Reg8::L}).accessed(),
        0x06u8 => (RlcMemIyD).accessed(),
        0x07u8 => (RlcMemIyDR{r:Reg8::A}).accessed(),
        0x08u8 => (RrcMemIyDR{r:Reg8::B}).accessed(),
        0x09u8 => (RrcMemIyDR{r:Reg8::C}).accessed(),
        0x0Au8 => (RrcMemIyDR{r:Reg8::D}).accessed(),
        0x0Bu8 => (RrcMemIyDR{r:Reg8::E}).accessed(),
        0x0Cu8 => (RrcMemIyDR{r:Reg8::H}).accessed(),
        0x0Du8 => (RrcMemIyDR{r:Reg8::L}).accessed(),
        0x0Eu8 => (RrcMemIyD).accessed(),
        0x0Fu8 => (RrcMemIyDR{r:Reg8::A}).accessed(),
        0x10u8 => (RlMemIyDR{r:Reg8::B}).accessed(),
        0x11u8 => (RlMemIyDR{r:Reg8::C}).accessed(),
        0x12u8 => (RlMemIyDR{r:Reg8::D}).accessed(),
        0x13u8 => (RlMemIyDR{r:Reg8::E}).accessed(),
        0x14u8 => (RlMemIyDR{r:Reg8::H}).accessed(),
        0x15u8 => (RlMemIyDR{r:Reg8::L}).accessed(),
        0x16u8 => (RlMemIyD).accessed(),
        0x17u8 => (RlMemIyDR{r:Reg8::A}).accessed(),
        0x18u8 => (RrMemIyDR{r:Reg8::B}).accessed(),
        0x19u8 => (RrMemIyDR{r:Reg8::C}).accessed(),
        0x1Au8 => (RrMemIyDR{r:Reg8::D}).accessed(),
        0x1Bu8 => (RrMemIyDR{r:Reg8::E}).accessed(),
        0x1Cu8 => (RrMemIyDR{r:Reg8::H}).accessed(),
        0x1Du8 => (RrMemIyDR{r:Reg8::L}).accessed(),
        0x1Eu8 => (RrMemIyD).accessed(),
        0x1Fu8 => (RrMemIyDR{r:Reg8::A}).accessed(),
        0x20u8 => (SlaMemIyDR{r:Reg8::B}).accessed(),
        0x21u8 => (SlaMemIyDR{r:Reg8::C}).accessed(),
        0x22u8 => (SlaMemIyDR{r:Reg8::D}).accessed(),
        0x23u8 => (SlaMemIyDR{r:Reg8::E}).accessed(),
        0x24u8 => (SlaMemIyDR{r:Reg8::H}).accessed(),
        0x25u8 => (SlaMemIyDR{r:Reg8::L}).accessed(),
        0x26u8 => (SlaMemIyD).accessed(),
        0x27u8 => (SlaMemIyDR{r:Reg8::A}).accessed(),
        0x28u8 => (SraMemIyDR{r:Reg8::B}).accessed(),
        0x29u8 => (SraMemIyDR{r:Reg8::C}).accessed(),
        0x2Au8 => (SraMemIyDR{r:Reg8::D}).accessed(),
        0x2Bu8 => (SraMemIyDR{r:Reg8::E}).accessed(),
        0x2Cu8 => (SraMemIyDR{r:Reg8::H}).accessed(),
        0x2Du8 => (SraMemIyDR{r:Reg8::L}).accessed(),
        0x2Eu8 => (SraMemIyD).accessed(),
        0x2Fu8 => (SraMemIyDR{r:Reg8::A}).accessed(),
        0x30u8 => (SllMemIyDR{r:Reg8::B}).accessed(),
        0x31u8 => (SllMemIyDR{r:Reg8::C}).accessed(),
        0x32u8 => (SllMemIyDR{r:Reg8::D}).accessed(),
        0x33u8 => (SllMemIyDR{r:Reg8::E}).accessed(),
        0x34u8 => (SllMemIyDR{r:Reg8::H}).accessed(),
        0x35u8 => (SllMemIyDR{r:Reg8::L}).accessed(),
        0x36u8 => (SllMemIyD).accessed(),
        0x37u8 => (SllMemIyDR{r:Reg8::A}).accessed(),
        0x38u8 => (SrlMemIyDR{r:Reg8::B}).accessed(),
        0x39u8 => (SrlMemIyDR{r:Reg8::C}).accessed(),
        0x3Au8 => (SrlMemIyDR{r:Reg8::D}).accessed(),
        0x3Bu8 => (SrlMemIyDR{r:Reg8::E}).accessed(),
        0x3Cu8 => (SrlMemIyDR{r:Reg8::H}).accessed(),
        0x3Du8 => (SrlMemIyDR{r:Reg8::L}).accessed(),
        0x3Eu8 => (SrlMemIyD).accessed(),
        0x3Fu8 => (SrlMemIyDR{r:Reg8::A}).accessed(),
        0x40u8 => (BitBMemIyD{b:0}).accessed(),
        0x41u8 => (BitBMemIyD{b:0}).accessed(),
        0x42u8 => (BitBMemIyD{b:0}).accessed(),
        0x43u8 => (BitBMemIyD{b:0}).accessed(),
        0x44u8 => (BitBMemIyD{b:0}).accessed(),
        0x45u8 => (BitBMemIyD{b:0}).accessed(),
        0x46u8 => (BitBMemIyD{b:0}).accessed(),
        0x47u8 => (BitBMemIyD{b:0}).accessed(),
        0x48u8 => (BitBMemIyD{b:1}).accessed(),
        0x49u8 => (BitBMemIyD{b:1}).accessed(),
        0x4Au8 => (BitBMemIyD{b:1}).accessed(),
        0x4Bu8 => (BitBMemIyD{b:1}).accessed(),
        0x4Cu8 => (BitBMemIyD{b:1}).accessed(),
        0x4Du8 => (BitBMemIyD{b:1}).accessed(),
        0x4Eu8 => (BitBMemIyD{b:1}).accessed(),
        0x4Fu8 => (BitBMemIyD{b:1}).accessed(),
        0x50u8 => (BitBMemIyD{b:2}).accessed(),
        0x51u8 => (BitBMemIyD{b:2}).accessed(),
        0x52u8 => (BitBMemIyD{b:2}).accessed(),
        0x53u8 => (BitBMemIyD{b:2}).accessed(),
        0x54u8 => (BitBMemIyD{b:2}).accessed(),
        0x55u8 => (BitBMemIyD{b:2}).accessed(),
        0x56u8 => (BitBMemIyD{b:2}).accessed(),
        0x57u8 => (BitBMemIyD{b:2}).accessed(),
        0x58u8 => (BitBMemIyD{b:3}).accessed(),
        0x59u8 => (BitBMemIyD{b:3}).accessed(),
        0x5Au8 => (BitBMemIyD{b:3}).accessed(),
        0x5Bu8 => (BitBMemIyD{b:3}).accessed(),
        0x5Cu8 => (BitBMemIyD{b:3}).accessed(),
        0x5Du8 => (BitBMemIyD{b:3}).accessed(),
        0x5Eu8 => (BitBMemIyD{b:3}).accessed(),
        0x5Fu8 => (BitBMemIyD{b:3}).accessed(),
        0x60u8 => (BitBMemIyD{b:4}).accessed(),
        0x61u8 => (BitBMemIyD{b:4}).accessed(),
        0x62u8 => (BitBMemIyD{b:4}).accessed(),
        0x63u8 => (BitBMemIyD{b:4}).accessed(),
        0x64u8 => (BitBMemIyD{b:4}).accessed(),
        0x65u8 => (BitBMemIyD{b:4}).accessed(),
        0x66u8 => (BitBMemIyD{b:4}).accessed(),
        0x67u8 => (BitBMemIyD{b:4}).accessed(),
        0x68u8 => (BitBMemIyD{b:5}).accessed(),
        0x69u8 => (BitBMemIyD{b:5}).accessed(),
        0x6Au8 => (BitBMemIyD{b:5}).accessed(),
        0x6Bu8 => (BitBMemIyD{b:5}).accessed(),
        0x6Cu8 => (BitBMemIyD{b:5}).accessed(),
        0x6Du8 => (BitBMemIyD{b:5}).accessed(),
        0x6Eu8 => (BitBMemIyD{b:5}).accessed(),
        0x6Fu8 => (BitBMemIyD{b:5}).accessed(),
        0x70u8 => (BitBMemIyD{b:6}).accessed(),
        0x71u8 => (BitBMemIyD{b:6}).accessed(),
        0x72u8 => (BitBMemIyD{b:6}).accessed(),
        0x73u8 => (BitBMemIyD{b:6}).accessed(),
        0x74u8 => (BitBMemIyD{b:6}).accessed(),
        0x75u8 => (BitBMemIyD{b:6}).accessed(),
        0x76u8 => (BitBMemIyD{b:6}).accessed(),
        0x77u8 => (BitBMemIyD{b:6}).accessed(),
        0x78u8 => (BitBMemIyD{b:7}).accessed(),
        0x79u8 => (BitBMemIyD{b:7}).accessed(),
        0x7Au8 => (BitBMemIyD{b:7}).accessed(),
        0x7Bu8 => (BitBMemIyD{b:7}).accessed(),
        0x7Cu8 => (BitBMemIyD{b:7}).accessed(),
        0x7Du8 => (BitBMemIyD{b:7}).accessed(),
        0x7Eu8 => (BitBMemIyD{b:7}).accessed(),
        0x7Fu8 => (BitBMemIyD{b:7}).accessed(),
        0x80u8 => (ResBMemIyDR{b:0,r:Reg8::B}).accessed(),
        0x81u8 => (ResBMemIyDR{b:0,r:Reg8::C}).accessed(),
        0x82u8 => (ResBMemIyDR{b:0,r:Reg8::D}).accessed(),
        0x83u8 => (ResBMemIyDR{b:0,r:Reg8::E}).accessed(),
        0x84u8 => (ResBMemIyDR{b:0,r:Reg8::H}).accessed(),
        0x85u8 => (ResBMemIyDR{b:0,r:Reg8::L}).accessed(),
        0x86u8 => (ResBMemIyD{b:0}).accessed(),
        0x87u8 => (ResBMemIyDR{b:0,r:Reg8::A}).accessed(),
        0x88u8 => (ResBMemIyDR{b:1,r:Reg8::B}).accessed(),
        0x89u8 => (ResBMemIyDR{b:1,r:Reg8::C}).accessed(),
        0x8Au8 => (ResBMemIyDR{b:1,r:Reg8::D}).accessed(),
        0x8Bu8 => (ResBMemIyDR{b:1,r:Reg8::E}).accessed(),
        0x8Cu8 => (ResBMemIyDR{b:1,r:Reg8::H}).accessed(),
        0x8Du8 => (ResBMemIyDR{b:1,r:Reg8::L}).accessed(),
        0x8Eu8 => (ResBMemIyD{b:1}).accessed(),
        0x8Fu8 => (ResBMemIyDR{b:1,r:Reg8::A}).accessed(),
        0x90u8 => (ResBMemIyDR{b:2,r:Reg8::B}).accessed(),
        0x91u8 => (ResBMemIyDR{b:2,r:Reg8::C}).accessed(),
        0x92u8 => (ResBMemIyDR{b:2,r:Reg8::D}).accessed(),
        0x93u8 => (ResBMemIyDR{b:2,r:Reg8::E}).accessed(),
        0x94u8 => (ResBMemIyDR{b:2,r:Reg8::H}).accessed(),
        0x95u8 => (ResBMemIyDR{b:2,r:Reg8::L}).accessed(),
        0x96u8 => (ResBMemIyD{b:2}).accessed(),
        0x97u8 => (ResBMemIyDR{b:2,r:Reg8::A}).accessed(),
        0x98u8 => (ResBMemIyDR{b:3,r:Reg8::B}).accessed(),
        0x99u8 => (ResBMemIyDR{b:3,r:Reg8::C}).accessed(),
        0x9Au8 => (ResBMemIyDR{b:3,r:Reg8::D}).accessed(),
        0x9Bu8 => (ResBMemIyDR{b:3,r:Reg8::E}).accessed(),
        0x9Cu8 => (ResBMemIyDR{b:3,r:Reg8::H}).accessed(),
        0x9Du8 => (ResBMemIyDR{b:3,r:Reg8::L}).accessed(),
        0x9Eu8 => (ResBMemIyD{b:3}).accessed(),
        0x9Fu8 => (ResBMemIyDR{b:3,r:Reg8::A}).accessed(),
        0xA0u8 => (ResBMemIyDR{b:4,r:Reg8::B}).accessed(),
        0xA1u8 => (ResBMemIyDR{b:4,r:Reg8::C}).accessed(),
        0xA2u8 => (ResBMemIyDR{b:4,r:Reg8::D}).accessed(),
        0xA3u8 => (ResBMemIyDR{b:4,r:Reg8::E}).accessed(),
        0xA4u8 => (ResBMemIyDR{b:4,r:Reg8::H}).accessed(),
        0xA5u8 => (ResBMemIyDR{b:4,r:Reg8::L}).accessed(),
        0xA6u8 => (ResBMemIyD{b:4}).accessed(),
        0xA7u8 => (ResBMemIyDR{b:4,r:Reg8::A}).accessed(),
        0xA8u8 => (ResBMemIyDR{b:5,r:Reg8::B}).accessed(),
        0xA9u8 => (ResBMemIyDR{b:5,r:Reg8::C}).accessed(),
        0xAAu8 => (ResBMemIyDR{b:5,r:Reg8::D}).accessed(),
        0xABu8 => (ResBMemIyDR{b:5,r:Reg8::E}).accessed(),
        0xACu8 => (ResBMemIyDR{b:5,r:Reg8::H}).accessed(),
        0xADu8 => (ResBMemIyDR{b:5,r:Reg8::L}).accessed(),
        0xAEu8 => (ResBMemIyD{b:5}).accessed(),
        0xAFu8 => (ResBMemIyDR{b:5,r:Reg8::A}).accessed(),
        0xB0u8 => (ResBMemIyDR{b:6,r:Reg8::B}).accessed(),
        0xB1u8 => (ResBMemIyDR{b:6,r:Reg8::C}).accessed(),
        0xB2u8 => (ResBMemIyDR{b:6,r:Reg8::D}).accessed(),
        0xB3u8 => (ResBMemIyDR{b:6,r:Reg8::E}).accessed(),
        0xB4u8 => (ResBMemIyDR{b:6,r:Reg8::H}).accessed(),
        0xB5u8 => (ResBMemIyDR{b:6,r:Reg8::L}).accessed(),
        0xB6u8 => (ResBMemIyD{b:6}).accessed(),
        0xB7u8 => (ResBMemIyDR{b:6,r:Reg8::A}).accessed(),
        0xB8u8 => (ResBMemIyDR{b:7,r:Reg8::B}).accessed(),
        0xB9u8 => (ResBMemIyDR{b:7,r:Reg8::C}).accessed(),
        0xBAu8 => (ResBMemIyDR{b:7,r:Reg8::D}).accessed(),
        0xBBu8 => (ResBMemIyDR{b:7,r:Reg8::E}).accessed(),
        0xBCu8 => (ResBMemIyDR{b:7,r:Reg8::H}).accessed(),
        0xBDu8 => (ResBMemIyDR{b:7,r:Reg8::L}).accessed(),
        0xBEu8 => (ResBMemIyD{b:7}).accessed(),
        0xBFu8 => (ResBMemIyDR{b:7,r:Reg8::A}).accessed(),
        0xC0u8 => (SetBMemIyDR{b:0,r:Reg8::B}).accessed(),
        0xC1u8 => (SetBMemIyDR{b:0,r:Reg8::C}).accessed(),
        0xC2u8 => (SetBMemIyDR{b:0,r:Reg8::D}).accessed(),
        0xC3u8 => (SetBMemIyDR{b:0,r:Reg8::E}).accessed(),
        0xC4u8 => (SetBMemIyDR{b:0,r:Reg8::H}).accessed(),
        0xC5u8 => (SetBMemIyDR{b:0,r:Reg8::L}).accessed(),
        0xC6u8 => (SetBMemIyD{b:0}).accessed(),
        0xC7u8 => (SetBMemIyDR{b:0,r:Reg8::A}).accessed(),
        0xC8u8 => (SetBMemIyDR{b:1,r:Reg8::B}).accessed(),
        0xC9u8 => (SetBMemIyDR{b:1,r:Reg8::C}).accessed(),
        0xCAu8 => (SetBMemIyDR{b:1,r:Reg8::D}).accessed(),
        0xCBu8 => (SetBMemIyDR{b:1,r:Reg8::E}).accessed(),
        0xCCu8 => (SetBMemIyDR{b:1,r:Reg8::H}).accessed(),
        0xCDu8 => (SetBMemIyDR{b:1,r:Reg8::L}).accessed(),
        0xCEu8 => (SetBMemIyD{b:1}).accessed(),
        0xCFu8 => (SetBMemIyDR{b:1,r:Reg8::A}).accessed(),
        0xD0u8 => (SetBMemIyDR{b:2,r:Reg8::B}).accessed(),
        0xD1u8 => (SetBMemIyDR{b:2,r:Reg8::C}).accessed(),
        0xD2u8 => (SetBMemIyDR{b:2,r:Reg8::D}).accessed(),
        0xD3u8 => (SetBMemIyDR{b:2,r:Reg8::E}).accessed(),
        0xD4u8 => (SetBMemIyDR{b:2,r:Reg8::H}).accessed(),
        0xD5u8 => (SetBMemIyDR{b:2,r:Reg8::L}).accessed(),
        0xD6u8 => (SetBMemIyD{b:2}).accessed(),
        0xD7u8 => (SetBMemIyDR{b:2,r:Reg8::A}).accessed(),
        0xD8u8 => (SetBMemIyDR{b:3,r:Reg8::B}).accessed(),
        0xD9u8 => (SetBMemIyDR{b:3,r:Reg8::C}).accessed(),
        0xDAu8 => (SetBMemIyDR{b:3,r:Reg8::D}).accessed(),
        0xDBu8 => (SetBMemIyDR{b:3,r:Reg8::E}).accessed(),
        0xDCu8 => (SetBMemIyDR{b:3,r:Reg8::H}).accessed(),
        0xDDu8 => (SetBMemIyDR{b:3,r:Reg8::L}).accessed(),
        0xDEu8 => (SetBMemIyD{b:3}).accessed(),
        0xDFu8 => (SetBMemIyDR{b:3,r:Reg8::A}).accessed(),
        0xE0u8 => (SetBMemIyDR{b:4,r:Reg8::B}).accessed(),
        0xE1u8 => (SetBMemIyDR{b:4,r:Reg8::C}).accessed(),
        0xE2u8 => (SetBMemIyDR{b:4,r:Reg8::D}).accessed(),
        0xE3u8 => (SetBMemIyDR{b:4,r:Reg8::E}).accessed(),
        0xE4u8 => (SetBMemIyDR{b:4,r:Reg8::H}).accessed(),
        0xE5u8 => (SetBMemIyDR{b:4,r:Reg8::L}).accessed(),
        0xE6u8 => (SetBMemIyD{b:4}).accessed(),
        0xE7u8 => (SetBMemIyDR{b:4,r:Reg8::A}).accessed(),
        0xE8u8 => (SetBMemIyDR{b:5,r:Reg8::B}).accessed(),
        0xE9u8 => (SetBMemIyDR{b:5,r:Reg8::C}).accessed(),
        0xEAu8 => (SetBMemIyDR{b:5,r:Reg8::D}).accessed(),
        0xEBu8 => (SetBMemIyDR{b:5,r:Reg8::E}).accessed(),
        0xECu8 => (SetBMemIyDR{b:5,r:Reg8::H}).accessed(),
        0xEDu8 => (SetBMemIyDR{b:5,r:Reg8::L}).accessed(),
        0xEEu8 => (SetBMemIyD{b:5}).accessed(),
        0xEFu8 => (SetBMemIyDR{b:5,r:Reg8::A}).accessed(),
        0xF0u8 => (SetBMemIyDR{b:6,r:Reg8::B}).accessed(),
        0xF1u8 => (SetBMemIyDR{b:6,r:Reg8::C}).accessed(),
        0xF2u8 => (SetBMemIyDR{b:6,r:Reg8::D}).accessed(),
        0xF3u8 => (SetBMemIyDR{b:6,r:Reg8::E}).accessed(),
        0xF4u8 => (SetBMemIyDR{b:6,r:Reg8::H}).accessed(),
        0xF5u8 => (SetBMemIyDR{b:6,r:Reg8::L}).accessed(),
        0xF6u8 => (SetBMemIyD{b:6}).accessed(),
        0xF7u8 => (SetBMemIyDR{b:6,r:Reg8::A}).accessed(),
        0xF8u8 => (SetBMemIyDR{b:7,r:Reg8::B}).accessed(),
        0xF9u8 => (SetBMemIyDR{b:7,r:Reg8::C}).accessed(),
        0xFAu8 => (SetBMemIyDR{b:7,r:Reg8::D}).accessed(),
        0xFBu8 => (SetBMemIyDR{b:7,r:Reg8::E}).accessed(),
        0xFCu8 => (SetBMemIyDR{b:7,r:Reg8::H}).accessed(),
        0xFDu8 => (SetBMemIyDR{b:7,r:Reg8::L}).accessed(),
        0xFEu8 => (SetBMemIyD{b:7}).accessed(),
        0xFFu8 => (SetBMemIyDR{b:7,r:Reg8::A}).accessed(),
    }
}

/// The registers the debugger shows around the instruction for `op`.
pub fn accessed_regs_fdcb(op: u8) -> (regs: (OutputRegisters, OutputRegisters))
    ensures
        regs == fdcb_accessed(op),
{
    proof {
        reveal(fdcb_accessed);
    }
    match op {
        0x00 => (RlcMemIyDR{r:Reg8::B}).get_accessed_regs(),
        0x01 => (RlcMemIyDR{r:Reg8::C}).get_accessed_regs(),
        0x02 => (RlcMemIyDR{r:Reg8::D}).get_accessed_regs(),
        0x03 => (RlcMemIyDR{r:Reg8::E}).get_accessed_regs(),
        0x04 => (RlcMemIyDR{r:Reg8::H}).get_accessed_regs(),
        0x05 => (RlcMemIyDR{r:Reg8::L}).get_accessed_regs(),
        0x06 => (RlcMemIyD).get_accessed_regs(),
        0x07 => (RlcMemIyDR{r:Reg8::A}).get_accessed_regs(),
        0x08 => (RrcMemIyDR{r:Reg8::B}).get_accessed_regs(),
        0x09 => (RrcMemIyDR{r:Reg8::C}).get_accessed_regs(),
        0x0A => (RrcMemIyDR{r:Reg8::D}).get_accessed_regs(),
        0x0B => (RrcMemIyDR{r:Reg8::E}).get_accessed_regs(),
        0x0C => (RrcMemIyDR{r:Reg8::H}).get_accessed_regs(),
        0x0D => (RrcMemIyDR{r:Reg8::L}).get_accessed_regs(),
        0x0E => (RrcMemIyD).get_accessed_regs(),
        0x0F => (RrcMemIyDR{r:Reg8::A}).get_accessed_regs(),
        0x10 => (RlMemIyDR{r:Reg8::B}).get_accessed_regs(),
        0x11 => (RlMemIyDR{r:Reg8::C}).get_accessed_regs(),
        0x12 => (RlMemIyDR{r:Reg8::D}).get_accessed_regs(),
        0x13 => (RlMemIyDR{r:Reg8::E}).get_accessed_regs(),
        0x14 => (RlMemIyDR{r:Reg8::H}).get_accessed_regs(),
        0x15 => (RlMemIyDR{r:Reg8::L}).get_accessed_regs(),
        0x16 => (RlMemIyD).get_accessed_regs(),
        0x17 => (RlMemIyDR{r:Reg8::A}).get_accessed_regs(),
        0x18 => (RrMemIyDR{r:Reg8::B}).get_accessed_regs(),
        0x19 => (RrMemIyDR{r:Reg8::C}).get_accessed_regs(),
        0x1A => (RrMemIyDR{r:Reg8::D}).get_accessed_regs(),
        0x1B => (RrMemIyDR{r:Reg8::E}).get_accessed_regs(),
        0x1C => (RrMemIyDR{r:Reg8::H}).get_accessed_regs(),
        0x1D => (RrMemIyDR{r:Reg8::L}).get_accessed_regs(),
        0x1E => (RrMemIyD).get_accessed_regs(),
        0x1F => (RrMemIyDR{r:Reg8::A}).get_accessed_regs(),
        0x20 => (SlaMemIyDR{r:Reg8::B}).get_accessed_regs(),
        0x21 => (SlaMemIyDR{r:Reg8::C}).get_accessed_regs(),
        0x22 => (SlaMemIyDR{r:Reg8::D}).get_accessed_regs(),
        0x23 => (SlaMemIyDR{r:Reg8::E}).get_accessed_regs(),
        0x24 => (SlaMemIyDR{r:Reg8::H}).get_accessed_regs(),
        0x25 => (SlaMemIyDR{r:Reg8::L}).get_accessed_regs(),
        0x26 => (SlaMemIyD).get_accessed_regs(),
        0x27 => (SlaMemIyDR{r:Reg8::A}).get_accessed_regs(),
        0x28 => (SraMemIyDR{r:Reg8::B}).get_accessed_regs(),
        0x29 => (SraMemIyDR{r:Reg8::C}).get_accessed_regs(),
        0x2A => (SraMemIyDR{r:Reg8::D}).get_accessed_regs(),
        0x2B => (SraMemIyDR{r:Reg8::E}).get_accessed_regs(),
        0x2C => (SraMemIyDR{r:Reg8::H}).get_accessed_regs(),
        0x2D => (SraMemIyDR{r:Reg8::L}).get_accessed_regs(),
        0x2E => (SraMemIyD).get_accessed_regs(),
        0x2F => (SraMemIyDR{r:Reg8::A}).get_accessed_regs(),
        0x30 => (SllMemIyDR{r:Reg8::B}).get_accessed_regs(),
        0x31 => (SllMemIyDR{r:Reg8::C}).get_accessed_regs(),
        0x32 => (SllMemIyDR{r:Reg8::D}).get_accessed_regs(),
        0x33 => (SllMemIyDR{r:Reg8::E}).get_accessed_regs(),
        0x34 => (SllMemIyDR{r:Reg8::H}).get_accessed_regs(),
        0x35 => (SllMemIyDR{r:Reg8::L}).get_accessed_regs(),
        0x36 => (SllMemIyD).get_accessed_regs(),
        0x37 => (SllMemIyDR{r:Reg8::A}).get_accessed_regs(),
        0x38 => (SrlMemIyDR{r:Reg8::B}).get_accessed_regs(),
        0x39 => (SrlMemIyDR{r:Reg8::C}).get_accessed_regs(),
        0x3A => (SrlMemIyDR{r:Reg8::D}).get_accessed_regs(),
        0x3B => (SrlMemIyDR{r:Reg8::E}).get_accessed_regs(),
        0x3C => (SrlMemIyDR{r:Reg8::H}).get_accessed_regs(),
        0x3D => (SrlMemIyDR{r:Reg8::L}).get_accessed_regs(),
        0x3E => (SrlMemIyD).get_accessed_regs(),
        0x3F => (SrlMemIyDR{r:Reg8::A}).get_accessed_regs(),
        0x40 => (BitBMemIyD{b:0}).get_accessed_regs(),
        0x41 => (BitBMemIyD{b:0}).get_accessed_regs(),
        0x42 => (BitBMemIyD{b:0}).get_accessed_regs(),
        0x43 => (BitBMemIyD{b:0}).get_accessed_regs(),
        0x44 => (BitBMemIyD{b:0}).get_accessed_regs(),
        0x45 => (BitBMemIyD{b:0}).get_accessed_regs(),
        0x46 => (BitBMemIyD{b:0}).get_accessed_regs(),
        0x47 => (BitBMemIyD{b:0}).get_accessed_regs(),
        0x48 => (BitBMemIyD{b:1}).get_accessed_regs(),
        0x49 => (BitBMemIyD{b:1}).get_accessed_regs(),
        0x4A => (BitBMemIyD{b:1}).get_accessed_regs(),
        0x4B => (BitBMemIyD{b:1}).get_accessed_regs(),
        0x4C => (BitBMemIyD{b:1}).get_accessed_regs(),
        0x4D => (BitBMemIyD{b:1}).get_accessed_regs(),
        0x4E => (BitBMemIyD{b:1}).get_accessed_regs(),
        0x4F => (BitBMemIyD{b:1}).get_accessed_regs(),
        0x50 => (BitBMemIyD{b:2}).get_accessed_regs(),
        0x51 => (BitBMemIyD{b:2}).get_accessed_regs(),
        0x52 => (BitBMemIyD{b:2}).get_accessed_regs(),
        0x53 => (BitBMemIyD{b:2}).get_accessed_regs(),
        0x54 => (BitBMemIyD{b:2}).get_accessed_regs(),
        0x55 => (BitBMemIyD{b:2}).get_accessed_regs(),
        0x56 => (BitBMemIyD{b:2}).get_accessed_regs(),
        0x57 => (BitBMemIyD{b:2}).get_accessed_regs(),
        0x58 => (BitBMemIyD{b:3}).get_accessed_regs(),
        0x59 => (BitBMemIyD{b:3}).get_accessed_regs(),
        0x5A => (BitBMemIyD{b:3}).get_accessed_regs(),
        0x5B => (BitBMemIyD{b:3}).get_accessed_regs(),
        0x5C => (BitBMemIyD{b:3}).get_accessed_regs(),
        0x5D => (BitBMemIyD{b:3}).get_accessed_regs(),
        0x5E => (BitBMemIyD{b:3}).get_accessed_regs(),
        0x5F => (BitBMemIyD{b:3}).get_accessed_regs(),
        0x60 => (BitBMemIyD{b:4}).get_accessed_regs(),
        0x61 => (BitBMemIyD{b:4}).get_accessed_regs(),
        0x62 => (BitBMemIyD{b:4}).get_accessed_regs(),
        0x63 => (BitBMemIyD{b:4}).get_accessed_regs(),
        0x64 => (BitBMemIyD{b:4}).get_accessed_regs(),
        0x65 => (BitBMemIyD{b:4}).get_accessed_regs(),
        0x66 => (BitBMemIyD{b:4}).get_accessed_regs(),
        0x67 => (BitBMemIyD{b:4}).get_accessed_regs(),
        0x68 => (BitBMemIyD{b:5}).get_accessed_regs(),
        0x69 => (BitBMemIyD{b:5}).get_accessed_regs(),
        0x6A => (BitBMemIyD{b:5}).get_accessed_regs(),
        0x6B => (BitBMemIyD{b:5}).get_accessed_regs(),
        0x6C => (BitBMemIyD{b:5}).get_accessed_regs(),
        0x6D => (BitBMemIyD{b:5}).get_accessed_regs(),
        0x6E => (BitBMemIyD{b:5}).get_accessed_regs(),
        0x6F => (BitBMemIyD{b:5}).get_accessed_regs(),
        0x70 => (BitBMemIyD{b:6}).get_accessed_regs(),
        0x71 => (BitBMemIyD{b:6}).get_accessed_regs(),
        0x72 => (BitBMemIyD{b:6}).get_accessed_regs(),
        0x73 => (BitBMemIyD{b:6}).get_accessed_regs(),
        0x74 => (BitBMemIyD{b:6}).get_accessed_regs(),
        0x75 => (BitBMemIyD{b:6}).get_accessed_regs(),
        0x76 => (BitBMemIyD{b:6}).get_accessed_regs(),
        0x77 => (BitBMemIyD{b:6}).get_accessed_regs(),
        0x78 => (BitBMemIyD{b:7}).get_accessed_regs(),
        0x79 => (BitBMemIyD{b:7}).get_accessed_regs(),
        0x7A => (BitBMemIyD{b:7}).get_accessed_regs(),
        0x7B => (BitBMemIyD{b:7}).get_accessed_regs(),
        0x7C => (BitBMemIyD{b:7}).get_accessed_regs(),
        0x7D => (BitBMemIyD{b:7}).get_accessed_regs(),
        0x7E => (BitBMemIyD{b:7}).get_accessed_regs(),
        0x7F => (BitBMemIyD{b:7}).get_accessed_regs(),
        0x80 => (ResBMemIyDR{b:0,r:Reg8::B}).get_accessed_regs(),
        0x81 => (ResBMemIyDR{b:0,r:Reg8::C}).get_accessed_regs(),
        0x82 => (ResBMemIyDR{b:0,r:Reg8::D}).get_accessed_regs(),
        0x83 => (ResBMemIyDR{b:0,r:Reg8::E}).get_accessed_regs(),
        0x84 => (ResBMemIyDR{b:0,r:Reg8::H}).get_accessed_regs(),
        0x85 => (ResBMemIyDR{b:0,r:Reg8::L}).get_accessed_regs(),
        0x86 => (ResBMemIyD{b:0}).get_accessed_regs(),
        0x87 => (ResBMemIyDR{b:0,r:Reg8::A}).get_accessed_regs(),
        0x88 => (ResBMemIyDR{b:1,r:Reg8::B}).get_accessed_regs(),
        0x89 => (ResBMemIyDR{b:1,r:Reg8::C}).get_accessed_regs(),
        0x8A => (ResBMemIyDR{b:1,r:Reg8::D}).get_accessed_regs(),
        0x8B => (ResBMemIyDR{b:1,r:Reg8::E}).get_accessed_regs(),
        0x8C => (ResBMemIyDR{b:1,r:Reg8::H}).get_accessed_regs(),
        0x8D => (ResBMemIyDR{b:1,r:Reg8::L}).get_accessed_regs(),
        0x8E => (ResBMemIyD{b:1}).get_accessed_regs(),
        0x8F => (ResBMemIyDR{b:1,r:Reg8::A}).get_accessed_regs(),
        0x90 => (ResBMemIyDR{b:2,r:Reg8::B}).get_accessed_regs(),
        0x91 => (ResBMemIyDR{b:2,r:Reg8::C}).get_accessed_regs(),
        0x92 => (ResBMemIyDR{b:2,r:Reg8::D}).get_accessed_regs(),
        0x93 => (ResBMemIyDR{b:2,r:Reg8::E}).get_accessed_regs(),
        0x94 => (ResBMemIyDR{b:2,r:Reg8::H}).get_accessed_regs(),
        0x95 => (ResBMemIyDR{b:2,r:Reg8::L}).get_accessed_regs(),
        0x96 => (ResBMemIyD{b:2}).get_accessed_regs(),
        0x97 => (ResBMemIyDR{b:2,r:Reg8::A}).get_accessed_regs(),
        0x98 => (ResBMemIyDR{b:3,r:Reg8::B}).get_accessed_regs(),
        0x99 => (ResBMemIyDR{b:3,r:Reg8::C}).get_accessed_regs(),
        0x9A => (ResBMemIyDR{b:3,r:Reg8::D}).get_accessed_regs(),
        0x9B => (ResBMemIyDR{b:3,r:Reg8::E}).get_accessed_regs(),
        0x9C => (ResBMemIyDR{b:3,r:Reg8::H}).get_accessed_regs(),
        0x9D => (ResBMemIyDR{b:3,r:Reg8::L}).get_accessed_regs(),
        0x9E => (ResBMemIyD{b:3}).get_accessed_regs(),
        0x9F => (ResBMemIyDR{b:3,r:Reg8::A}).get_accessed_regs(),
        0xA0 => (ResBMemIyDR{b:4,r:Reg8::B}).get_accessed_regs(),
        0xA1 => (ResBMemIyDR{b:4,r:Reg8::C}).get_accessed_regs(),
        0xA2 => (ResBMemIyDR{b:4,r:Reg8::D}).get_accessed_regs(),
        0xA3 => (ResBMemIyDR{b:4,r:Reg8::E}).get_accessed_regs(),
        0xA4 => (ResBMemIyDR{b:4,r:Reg8::H}).get_accessed_regs(),
        0xA5 => (ResBMemIyDR{b:4,r:Reg8::L}).get_accessed_regs(),
        0xA6 => (ResBMemIyD{b:4}).get_accessed_regs(),
        0xA7 => (ResBMemIyDR{b:4,r:Reg8::A}).get_accessed_regs(),
        0xA8 => (ResBMemIyDR{b:5,r:Reg8::B}).get_accessed_regs(),
        0xA9 => (ResBMemIyDR{b:5,r:Reg8::C}).get_accessed_regs(),
        0xAA => (ResBMemIyDR{b:5,r:Reg8::D}).get_accessed_regs(),
        0xAB => (ResBMemIyDR{b:5,r:Reg8::E}).get_accessed_regs(),
        0xAC => (ResBMemIyDR{b:5,r:Reg8::H}).get_accessed_regs(),
        0xAD => (ResBMemIyDR{b:5,r:Reg8::L}).get_accessed_regs(),
        0xAE => (ResBMemIyD{b:5}).get_accessed_regs(),
        0xAF => (ResBMemIyDR{b:5,r:Reg8::A}).get_accessed_regs(),
        0xB0 => (ResBMemIyDR{b:6,r:Reg8::B}).get_accessed_regs(),
        0xB1 => (ResBMemIyDR{b:6,r:Reg8::C}).get_accessed_regs(),
        0xB2 => (ResBMemIyDR{b:6,r:Reg8::D}).get_accessed_regs(),
        0xB3 => (ResBMemIyDR{b:6,r:Reg8::E}).get_accessed_regs(),
        0xB4 => (ResBMemIyDR{b:6,r:Reg8::H}).get_accessed_regs(),
        0xB5 => (ResBMemIyDR{b:6,r:Reg8::L}).get_accessed_regs(),
        0xB6 => (ResBMemIyD{b:6}).get_accessed_regs(),
        0xB7 => (ResBMemIyDR{b:6,r:Reg8::A}).get_accessed_regs(),
        0xB8 => (ResBMemIyDR{b:7,r:Reg8::B}).get_accessed_regs(),
        0xB9 => (ResBMemIyDR{b:7,r:Reg8::C}).get_accessed_regs(),
        0xBA => (ResBMemIyDR{b:7,r:Reg8::D}).get_accessed_regs(),
        0xBB => (ResBMemIyDR{b:7,r:Reg8::E}).get_accessed_regs(),
        0xBC => (ResBMemIyDR{b:7,r:Reg8::H}).get_accessed_regs(),
        0xBD => (ResBMemIyDR{b:7,r:Reg8::L}).get_accessed_regs(),
        0xBE => (ResBMemIyD{b:7}).get_accessed_regs(),
        0xBF => (ResBMemIyDR{b:7,r:Reg8::A}).get_accessed_regs(),
        0xC0 => (SetBMemIyDR{b:0,r:Reg8::B}).get_accessed_regs(),
        0xC1 => (SetBMemIyDR{b:0,r:Reg8::C}).get_accessed_regs(),
        0xC2 => (SetBMemIyDR{b:0,r:Reg8::D}).get_accessed_regs(),
        0xC3 => (SetBMemIyDR{b:0,r:Reg8::E}).get_accessed_regs(),
        0xC4 => (SetBMemIyDR{b:0,r:Reg8::H}).get_accessed_regs(),
        0xC5 => (SetBMemIyDR{b:0,r:Reg8::L}).get_accessed_regs(),
        0xC6 => (SetBMemIyD{b:0}).get_accessed_regs(),
        0xC7 => (SetBMemIyDR{b:0,r:Reg8::A}).get_accessed_regs(),
        0xC8 => (SetBMemIyDR{b:1,r:Reg8::B}).get_accessed_regs(),
        0xC9 => (SetBMemIyDR{b:1,r:Reg8::C}).get_accessed_regs(),
        0xCA => (SetBMemIyDR{b:1,r:Reg8::D}).get_accessed_regs(),
        0xCB => (SetBMemIyDR{b:1,r:Reg8::E}).get_accessed_regs(),
        0xCC => (SetBMemIyDR{b:1,r:Reg8::H}).get_accessed_regs(),
        0xCD => (SetBMemIyDR{b:1,r:Reg8::L}).get_accessed_regs(),
        0xCE => (SetBMemIyD{b:1}).get_accessed_regs(),
        0xCF => (SetBMemIyDR{b:1,r:Reg8::A}).get_accessed_regs(),
        0xD0 => (SetBMemIyDR{b:2,r:Reg8::B}).get_accessed_regs(),
        0xD1 => (SetBMemIyDR{b:2,r:Reg8::C}).get_accessed_regs(),
        0xD2 => (SetBMemIyDR{b:2,r:Reg8::D}).get_accessed_regs(),
        0xD3 => (SetBMemIyDR{b:2,r:Reg8::E}).get_accessed_regs(),
        0xD4 => (SetBMemIyDR{b:2,r:Reg8::H}).get_accessed_regs(),
        0xD5 => (SetBMemIyDR{b:2,r:Reg8::L}).get_accessed_regs(),
        0xD6 => (SetBMemIyD{b:2}).get_accessed_regs(),
        0xD7 => (SetBMemIyDR{b:2,r:Reg8::A}).get_accessed_regs(),
        0xD8 => (SetBMemIyDR{b:3,r:Reg8::B}).get_accessed_regs(),
        0xD9 => (SetBMemIyDR{b:3,r:Reg8::C}).get_accessed_regs(),
        0xDA => (SetBMemIyDR{b:3,r:Reg8::D}).get_accessed_regs(),
        0xDB => (SetBMemIyDR{b:3,r:Reg8::E}).get_accessed_regs(),
        0xDC => (SetBMemIyDR{b:3,r:Reg8::H}).get_accessed_regs(),
        0xDD => (SetBMemIyDR{b:3,r:Reg8::L}).get_accessed_regs(),
        0xDE => (SetBMemIyD{b:3}).get_accessed_regs(),
        0xDF => (SetBMemIyDR{b:3,r:Reg8::A}).get_accessed_regs(),
        0xE0 => (SetBMemIyDR{b:4,r:Reg8::B}).get_accessed_regs(),
        0xE1 => (SetBMemIyDR{b:4,r:Reg8::C}).get_accessed_regs(),
        0xE2 => (SetBMemIyDR{b:4,r:Reg8::D}).get_accessed_regs(),
        0xE3 => (SetBMemIyDR{b:4,r:Reg8::E}).get_accessed_regs(),
        0xE4 => (SetBMemIyDR{b:4,r:Reg8::H}).get_accessed_regs(),
        0xE5 => (SetBMemIyDR{b:4,r:Reg8::L}).get_accessed_regs(),
        0xE6 => (SetBMemIyD{b:4}).get_accessed_regs(),
        0xE7 => (SetBMemIyDR{b:4,r:Reg8::A}).get_accessed_regs(),
        0xE8 => (SetBMemIyDR{b:5,r:Reg8::B}).get_accessed_regs(),
        0xE9 => (SetBMemIyDR{b:5,r:Reg8::C}).get_accessed_regs(),
        0xEA => (SetBMemIyDR{b:5,r:Reg8::D}).get_accessed_regs(),
        0xEB => (SetBMemIyDR{b:5,r:Reg8::E}).get_accessed_regs(),
        0xEC => (SetBMemIyDR{b:5,r:Reg8::H}).get_accessed_regs(),
        0xED => (SetBMemIyDR{b:5,r:Reg8::L}).get_accessed_regs(),
        0xEE => (SetBMemIyD{b:5}).get_accessed_regs(),
        0xEF => (SetBMemIyDR{b:5,r:Reg8::A}).get_accessed_regs(),
        0xF0 => (SetBMemIyDR{b:6,r:Reg8::B}).get_accessed_regs(),
        0xF1 => (SetBMemIyDR{b:6,r:Reg8::C}).get_accessed_regs(),
        0xF2 => (SetBMemIyDR{b:6,r:Reg8::D}).get_accessed_regs(),
        0xF3 => (SetBMemIyDR{b:6,r:Reg8::E}).get_accessed_regs(),
        0xF4 => (SetBMemIyDR{b:6,r:Reg8::H}).get_accessed_regs(),
        0xF5 => (SetBMemIyDR{b:6,r:Reg8::L}).get_accessed_regs(),
        0xF6 => (SetBMemIyD{b:6}).get_accessed_regs(),
        0xF7 => (SetBMemIyDR{b:6,r:Reg8::A}).get_accessed_regs(),
        0xF8 => (SetBMemIyDR{b:7,r:Reg8::B}).get_accessed_regs(),
        0xF9 => (SetBMemIyDR{b:7,r:Reg8::C}).get_accessed_regs(),
        0xFA => (SetBMemIyDR{b:7,r:Reg8::D}).get_accessed_regs(),
        0xFB => (SetBMemIyDR{b:7,r:Reg8::E}).get_accessed_regs(),
        0xFC => (SetBMemIyDR{b:7,r:Reg8::H}).get_accessed_regs(),
        0xFD => (SetBMemIyDR{b:7,r:Reg8::L}).get_accessed_regs(),
        0xFE => (SetBMemIyD{b:7}).get_accessed_regs(),
        0xFF => (SetBMemIyDR{b:7,r:Reg8::A}).get_accessed_regs(),
    }
}

} // verus!
