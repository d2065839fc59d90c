use vstd::prelude::*;
use crate::cpu::{Cpu, CpuModel, Reg8, Reg16, CARRY_FLAG, X_FLAG, HALF_CARRY_FLAG, Y_FLAG, TCYCLE_CEILING, MAX_STEP_TCYCLES, cond_bits};
use crate::debugger::output_registers::{OutputRegisters, ONONE, OF, OH, OL, output_registers_from_reg8};
use crate::instructions::{Instruction, bit_flags, logical_flags, update_flags_bit, update_flags_logical, update_xyflags_bit, xy_from_wz};

verus! {

/// RLC r: rotates left; bit 7 goes to the carry and bit 0.
#[derive(Clone, Copy)]
pub struct RlcR {
    pub r: Reg8,
}

impl Instruction for RlcR {
    open spec fn valid(&self) -> bool {
        true
    }

    open spec fn next_state(&self, s: CpuModel) -> CpuModel {
        let s0 = s;
        let v = s0.regs.reg8(self.r);
        let res = ((v % 128) * 2 + v / 128) as u8;
        let s1 = s0.set_regs(s0.regs.with_reg8(self.r, res));
        let s2 = s1.set_regs(s1.regs.with_f(logical_flags(s1.regs.f, res)));
        let s3 = s2.set_regs(s2.regs.with_f(s2.regs.f & !HALF_CARRY_FLAG));
        let s4 = s3.set_regs(s3.regs.with_f(cond_bits(s3.regs.f, CARRY_FLAG, v >= 0x80)));
        let s5 = s4.set_regs(s4.regs.advance_pc(1));
        s5
    }

    #[verifier::spinoff_prover]
    #[verifier::rlimit(80)]
    fn execute(&self, cpu: &mut Cpu) {
        let v: u8 = cpu.read_reg8(self.r);
        let res: u8 = (v % 128) * 2 + v / 128;
        cpu.write_reg8(self.r, res);
        update_flags_logical(cpu, res);
        cpu.clear_flag(HALF_CARRY_FLAG);
        cpu.cond_flag(CARRY_FLAG, v >= 0x80);
        cpu.inc_pc(1);
    }

    open spec fn accessed(&self) -> (OutputRegisters, OutputRegisters) {
        (OF | output_registers_from_reg8(self.r), OF | output_registers_from_reg8(self.r))
    }

    fn get_accessed_regs(&self) -> (regs: (OutputRegisters, OutputRegisters)) {
        (OF | output_registers_from_reg8(self.r), OF | output_registers_from_reg8(self.r))
    }
}

/// RLC (HL): rotates left; bit 7 goes to the carry and bit 0.
#[derive(Clone, Copy)]
pub struct RlcMemHl;

impl Instruction for RlcMemHl {
    open spec fn valid(&self) -> bool {
        true
    }

    open spec fn next_state(&self, s: CpuModel) -> CpuModel {
        let s0 = s;
        let hl = s0.regs.reg16(Reg16::HL);
        let v = s0.mem_at(hl);
        let s1 = s0.after_read(hl, 3);
        let s2 = s1.after_no_mreq(hl);
        let res = ((v % 128) * 2 + v / 128) as u8;
        let s3 = s2.after_write(hl, res);
        let s4 = s3.set_regs(s3.regs.with_f(logical_flags(s3.regs.f, res)));
        let s5 = s4.set_regs(s4.regs.with_f(s4.regs.f & !HALF_CARRY_FLAG));
        let s6 = s5.set_regs(s5.regs.with_f(cond_bits(s5.regs.f, CARRY_FLAG, v >= 0x80)));
        let s7 = s6.set_regs(s6.regs.advance_pc(1));
        s7
    }

    #[verifier::spinoff_prover]
    #[verifier::rlimit(80)]
    fn execute(&self, cpu: &mut Cpu) {
        let hl: u16 = cpu.read_reg16(Reg16::HL);
        let v: u8 = cpu.read_word(hl);
        cpu.contend_read_no_mreq(hl);
        let res: u8 = (v % 128) * 2 + v / 128;
        cpu.write_word(hl, res);
        update_flags_logical(cpu, res);
        cpu.clear_flag(HALF_CARRY_FLAG);
        cpu.cond_flag(CARRY_FLAG, v >= 0x80);
        cpu.inc_pc(1);
    }

    open spec fn accessed(&self) -> (OutputRegisters, OutputRegisters) {
        (OF | OH | OL, OF)
    }

    fn get_accessed_regs(&self) -> (regs: (OutputRegisters, OutputRegisters)) {
        (OF | OH | OL, OF)
    }
}

/// RRC r: rotates right; bit 0 goes to the carry and bit 7.
#[derive(Clone, Copy)]
pub struct RrcR {
    pub r: Reg8,
}

impl Instruction for RrcR {
    open spec fn valid(&self) -> bool {
        true
    }

    open spec fn next_state(&self, s: CpuModel) -> CpuModel {
        let s0 = s;
        let v = s0.regs.reg8(self.r);
        let res = (v / 2 + (v % 2) * 128) as u8;
        let s1 = s0.set_regs(s0.regs.with_reg8(self.r, res));
        let s2 = s1.set_regs(s1.regs.with_f(logical_flags(s1.regs.f, res)));
        let s3 = s2.set_regs(s2.regs.with_f(s2.regs.f & !HALF_CARRY_FLAG));
        let s4 = s3.set_regs(s3.regs.with_f(cond_bits(s3.regs.f, CARRY_FLAG, v % 2 != 0)));
        let s5 = s4.set_regs(s4.regs.advance_pc(1));
        s5
    }

    #[verifier::spinoff_prover]
    #[verifier::rlimit(80)]
    fn execute(&self, cpu: &mut Cpu) {
        let v: u8 = cpu.read_reg8(self.r);
        let res: u8 = v / 2 + (v % 2) * 128;
        cpu.write_reg8(self.r, res);
        update_flags_logical(cpu, res);
        cpu.clear_flag(HALF_CARRY_FLAG);
        cpu.cond_flag(CARRY_FLAG, v % 2 != 0);
        cpu.inc_pc(1);
    }

    open spec fn accessed(&self) -> (OutputRegisters, OutputRegisters) {
        (OF | output_registers_from_reg8(self.r), OF | output_registers_from_reg8(self.r))
    }

    fn get_accessed_regs(&self) -> (regs: (OutputRegisters, OutputRegisters)) {
        (OF | output_registers_from_reg8(self.r), OF | output_registers_from_reg8(self.r))
    }
}

/// RRC (HL): rotates right; bit 0 goes to the carry and bit 7.
#[derive(Clone, Copy)]
pub struct RrcMemHl;

impl Instruction for RrcMemHl {
    open spec fn valid(&self) -> bool {
        true
    }

    open spec fn next_state(&self, s: CpuModel) -> CpuModel {
        let s0 = s;
        let hl = s0.regs.reg16(Reg16::HL);
        let v = s0.mem_at(hl);
        let s1 = s0.after_read(hl, 3);
        let s2 = s1.after_no_mreq(hl);
        let res = (v / 2 + (v % 2) * 128) as u8;
        let s3 = s2.after_write(hl, res);
        let s4 = s3.set_regs(s3.regs.with_f(logical_flags(s3.regs.f, res)));
        let s5 = s4.set_regs(s4.regs.with_f(s4.regs.f & !HALF_CARRY_FLAG));
        let s6 = s5.set_regs(s5.regs.with_f(cond_bits(s5.regs.f, CARRY_FLAG, v % 2 != 0)));
        let s7 = s6.set_regs(s6.regs.advance_pc(1));
        s7
    }

    #[verifier::spinoff_prover]
    #[verifier::rlimit(80)]
    fn execute(&self, cpu: &mut Cpu) {
        let hl: u16 = cpu.read_reg16(Reg16::HL);
        let v: u8 = cpu.read_word(hl);
        cpu.contend_read_no_mreq(hl);
        let res: u8 = v / 2 + (v % 2) * 128;
        cpu.write_word(hl, res);
        update_flags_logical(cpu, res);
        cpu.clear_flag(HALF_CARRY_FLAG);
        cpu.cond_flag(CARRY_FLAG, v % 2 != 0);
        cpu.inc_pc(1);
    }

    open spec fn accessed(&self) -> (OutputRegisters, OutputRegisters) {
        (OF | OH | OL, OF)
    }

    fn get_accessed_regs(&self) -> (regs: (OutputRegisters, OutputRegisters)) {
        (OF | OH | OL, OF)
    }
}

/// RL r: rotates left through the carry.
#[derive(Clone, Copy)]
pub struct RlR {
    pub r: Reg8,
}

impl Instruction for RlR {
    open spec fn valid(&self) -> bool {
        true
    }

    open spec fn next_state(&self, s: CpuModel) -> CpuModel {
        let s0 = s;
        let v = s0.regs.reg8(self.r);
        let rot = ((v % 128) * 2 + v / 128) as u8;
        let cf = s0.regs.flag(CARRY_FLAG);
        let res = if cf { rot | 0x01 } else { rot & 0xFE };
        let s1 = s0.set_regs(s0.regs.with_reg8(self.r, res));
        let s2 = s1.set_regs(s1.regs.with_f(logical_flags(s1.regs.f, res)));
        let s3 = s2.set_regs(s2.regs.with_f(s2.regs.f & !HALF_CARRY_FLAG));
        let s4 = s3.set_regs(s3.regs.with_f(cond_bits(s3.regs.f, CARRY_FLAG, v >= 0x80)));
        let s5 = s4.set_regs(s4.regs.advance_pc(1));
        s5
    }

    #[verifier::spinoff_prover]
    #[verifier::rlimit(80)]
    fn execute(&self, cpu: &mut Cpu) {
        let v: u8 = cpu.read_reg8(self.r);
        let rot: u8 = (v % 128) * 2 + v / 128;
        let cf: bool = cpu.get_flag(CARRY_FLAG);
        let res: u8 = if cf { rot | 0x01 } else { rot & 0xFE };
        cpu.write_reg8(self.r, res);
        update_flags_logical(cpu, res);
        cpu.clear_flag(HALF_CARRY_FLAG);
        cpu.cond_flag(CARRY_FLAG, v >= 0x80);
        cpu.inc_pc(1);
    }

    open spec fn accessed(&self) -> (OutputRegisters, OutputRegisters) {
        (OF | output_registers_from_reg8(self.r), OF | output_registers_from_reg8(self.r))
    }

    fn get_accessed_regs(&self) -> (regs: (OutputRegisters, OutputRegisters)) {
        (OF | output_registers_from_reg8(self.r), OF | output_registers_from_reg8(self.r))
    }
}

/// RL (HL): rotates left through the carry.
#[derive(Clone, Copy)]
pub struct RlMemHl;

impl Instruction for RlMemHl {
    open spec fn valid(&self) -> bool {
        true
    }

    open spec fn next_state(&self, s: CpuModel) -> CpuModel {
        let s0 = s;
        let hl = s0.regs.reg16(Reg16::HL);
        let v = s0.mem_at(hl);
        let s1 = s0.after_read(hl, 3);
        let s2 = s1.after_no_mreq(hl);
        let rot = ((v % 128) * 2 + v / 128) as u8;
        let cf = s2.regs.flag(CARRY_FLAG);
        let res = if cf { rot | 0x01 } else { rot & 0xFE };
        let s3 = s2.after_write(hl, res);
        let s4 = s3.set_regs(s3.regs.with_f(logical_flags(s3.regs.f, res)));
        let s5 = s4.set_regs(s4.regs.with_f(s4.regs.f & !HALF_CARRY_FLAG));
        let s6 = s5.set_regs(s5.regs.with_f(cond_bits(s5.regs.f, CARRY_FLAG, v >= 0x80)));
        let s7 = s6.set_regs(s6.regs.advance_pc(1));
        s7
    }

    #[verifier::spinoff_prover]
    #[verifier::rlimit(80)]
    fn execute(&self, cpu: &mut Cpu) {
        let hl: u16 = cpu.read_reg16(Reg16::HL);
        let v: u8 = cpu.read_word(hl);
        cpu.contend_read_no_mreq(hl);
        let rot: u8 = (v % 128) * 2 + v / 128;
        let cf: bool = cpu.get_flag(CARRY_FLAG);
        let res: u8 = if cf { rot | 0x01 } else { rot & 0xFE };
        cpu.write_word(hl, res);
        update_flags_logical(cpu, res);
        cpu.clear_flag(HALF_CARRY_FLAG);
        cpu.cond_flag(CARRY_FLAG, v >= 0x80);
        cpu.inc_pc(1);
    }

    open spec fn accessed(&self) -> (OutputRegisters, OutputRegisters) {
        (OF | OH | OL, OF)
    }

    fn get_accessed_regs(&self) -> (regs: (OutputRegisters, OutputRegisters)) {
        (OF | OH | OL, OF)
    }
}

/// RR r: rotates right through the carry.
#[derive(Clone, Copy)]
pub struct RrR {
    pub r: Reg8,
}

impl Instruction for RrR {
    open spec fn valid(&self) -> bool {
        true
    }

    open spec fn next_state(&self, s: CpuModel) -> CpuModel {
        let s0 = s;
        let v = s0.regs.reg8(self.r);
        let rot = (v / 2 + (v % 2) * 128) as u8;
        let cf = s0.regs.flag(CARRY_FLAG);
        let res = if cf { rot | 0x80 } else { rot & 0x7F };
        let s1 = s0.set_regs(s0.regs.with_reg8(self.r, res));
        let s2 = s1.set_regs(s1.regs.with_f(logical_flags(s1.regs.f, res)));
        let s3 = s2.set_regs(s2.regs.with_f(s2.regs.f & !HALF_CARRY_FLAG));
        let s4 = s3.set_regs(s3.regs.with_f(cond_bits(s3.regs.f, CARRY_FLAG, v % 2 != 0)));
        let s5 = s4.set_regs(s4.regs.advance_pc(1));
        s5
    }

    #[verifier::spinoff_prover]
    #[verifier::rlimit(80)]
    fn execute(&self, cpu: &mut Cpu) {
        let v: u8 = cpu.read_reg8(self.r);
        let rot: u8 = v / 2 + (v % 2) * 128;
        let cf: bool = cpu.get_flag(CARRY_FLAG);
        let res: u8 = if cf { rot | 0x80 } else { rot & 0x7F };
        cpu.write_reg8(self.r, res);
        update_flags_logical(cpu, res);
        cpu.clear_flag(HALF_CARRY_FLAG);
        cpu.cond_flag(CARRY_FLAG, v % 2 != 0);
        cpu.inc_pc(1);
    }

    open spec fn accessed(&self) -> (OutputRegisters, OutputRegisters) {
        (OF | output_registers_from_reg8(self.r), OF | output_registers_from_reg8(self.r))
    }

    fn get_accessed_regs(&self) -> (regs: (OutputRegisters, OutputRegisters)) {
        (OF | output_registers_from_reg8(self.r), OF | output_registers_from_reg8(self.r))
    }
}

/// RR (HL): rotates right through the carry.
#[derive(Clone, Copy)]
pub struct RrMemHl;

impl Instruction for RrMemHl {
    open spec fn valid(&self) -> bool {
        true
    }

    open spec fn next_state(&self, s: CpuModel) -> CpuModel {
        let s0 = s;
        let hl = s0.regs.reg16(Reg16::HL);
        let v = s0.mem_at(hl);
        let s1 = s0.after_read(hl, 3);
        let s2 = s1.after_no_mreq(hl);
        let rot = (v / 2 + (v % 2) * 128) as u8;
        let cf = s2.regs.flag(CARRY_FLAG);
        let res = if cf { rot | 0x80 } else { rot & 0x7F };
        let s3 = s2.after_write(hl, res);
        let s4 = s3.set_regs(s3.regs.with_f(logical_flags(s3.regs.f, res)));
        let s5 = s4.set_regs(s4.regs.with_f(s4.regs.f & !HALF_CARRY_FLAG));
        let s6 = s5.set_regs(s5.regs.with_f(cond_bits(s5.regs.f, CARRY_FLAG, v % 2 != 0)));
        let s7 = s6.set_regs(s6.regs.advance_pc(1));
        s7
    }

    #[verifier::spinoff_prover]
    #[verifier::rlimit(80)]
    fn execute(&self, cpu: &mut Cpu) {
        let hl: u16 = cpu.read_reg16(Reg16::HL);
        let v: u8 = cpu.read_word(hl);
        cpu.contend_read_no_mreq(hl);
        let rot: u8 = v / 2 + (v % 2) * 128;
        let cf: bool = cpu.get_flag(CARRY_FLAG);
        let res: u8 = if cf { rot | 0x80 } else { rot & 0x7F };
        cpu.write_word(hl, res);
        update_flags_logical(cpu, res);
        cpu.clear_flag(HALF_CARRY_FLAG);
        cpu.cond_flag(CARRY_FLAG, v % 2 != 0);
        cpu.inc_pc(1);
    }

    open spec fn accessed(&self) -> (OutputRegisters, OutputRegisters) {
        (OF | OH | OL, OF)
    }

    fn get_accessed_regs(&self) -> (regs: (OutputRegisters, OutputRegisters)) {
        (OF | OH | OL, OF)
    }
}

/// SLA r: shifts left; bit 7 goes to the carry.
#[derive(Clone, Copy)]
pub struct SlaR {
    pub r: Reg8,
}

impl Instruction for SlaR {
    open spec fn valid(&self) -> bool {
        true
    }

    open spec fn next_state(&self, s: CpuModel) -> CpuModel {
        let s0 = s;
        let v = s0.regs.reg8(self.r);
        let res = ((v % 128) * 2) as u8;
        let s1 = s0.set_regs(s0.regs.with_reg8(self.r, res));
        let s2 = s1.set_regs(s1.regs.with_f(logical_flags(s1.regs.f, res)));
        let s3 = s2.set_regs(s2.regs.with_f(s2.regs.f & !HALF_CARRY_FLAG));
        let s4 = s3.set_regs(s3.regs.with_f(cond_bits(s3.regs.f, CARRY_FLAG, v >= 0x80)));
        let s5 = s4.set_regs(s4.regs.advance_pc(1));
        s5
    }

    #[verifier::spinoff_prover]
    #[verifier::rlimit(80)]
    fn execute(&self, cpu: &mut Cpu) {
        let v: u8 = cpu.read_reg8(self.r);
        let res: u8 = (v % 128) * 2;
        cpu.write_reg8(self.r, res);
        update_flags_logical(cpu, res);
        cpu.clear_flag(HALF_CARRY_FLAG);
        cpu.cond_flag(CARRY_FLAG, v >= 0x80);
        cpu.inc_pc(1);
    }

    open spec fn accessed(&self) -> (OutputRegisters, OutputRegisters) {
        (OF | output_registers_from_reg8(self.r), OF | output_registers_from_reg8(self.r))
    }

    fn get_accessed_regs(&self) -> (regs: (OutputRegisters, OutputRegisters)) {
        (OF | output_registers_from_reg8(self.r), OF | output_registers_from_reg8(self.r))
    }
}

/// SLA (HL): shifts left; bit 7 goes to the carry.
#[derive(Clone, Copy)]
pub struct SlaMemHl;

impl Instruction for SlaMemHl {
    open spec fn valid(&self) -> bool {
        true
    }

    open spec fn next_state(&self, s: CpuModel) -> CpuModel {
        let s0 = s;
        let hl = s0.regs.reg16(Reg16::HL);
        let v = s0.mem_at(hl);
        let s1 = s0.after_read(hl, 3);
        let s2 = s1.after_no_mreq(hl);
        let res = ((v % 128) * 2) as u8;
        let s3 = s2.after_write(hl, res);
        let s4 = s3.set_regs(s3.regs.with_f(logical_flags(s3.regs.f, res)));
        let s5 = s4.set_regs(s4.regs.with_f(s4.regs.f & !HALF_CARRY_FLAG));
        let s6 = s5.set_regs(s5.regs.with_f(cond_bits(s5.regs.f, CARRY_FLAG, v >= 0x80)));
        let s7 = s6.set_regs(s6.regs.advance_pc(1));
        s7
    }

    #[verifier::spinoff_prover]
    #[verifier::rlimit(80)]
    fn execute(&self, cpu: &mut Cpu) {
        let hl: u16 = cpu.read_reg16(Reg16::HL);
        let v: u8 = cpu.read_word(hl);
        cpu.contend_read_no_mreq(hl);
        let res: u8 = (v % 128) * 2;
        cpu.write_word(hl, res);
        update_flags_logical(cpu, res);
        cpu.clear_flag(HALF_CARRY_FLAG);
        cpu.cond_flag(CARRY_FLAG, v >= 0x80);
        cpu.inc_pc(1);
    }

    open spec fn accessed(&self) -> (OutputRegisters, OutputRegisters) {
        (OF | OH | OL, OF)
    }

    fn get_accessed_regs(&self) -> (regs: (OutputRegisters, OutputRegisters)) {
        (OF | OH | OL, OF)
    }
}

/// SRA r: shifts right keeping bit 7; bit 0 goes to the carry.
#[derive(Clone, Copy)]
pub struct SraR {
    pub r: Reg8,
}

impl Instruction for SraR {
    open spec fn valid(&self) -> bool {
        true
    }

    open spec fn next_state(&self, s: CpuModel) -> CpuModel {
        let s0 = s;
        let v = s0.regs.reg8(self.r);
        let res = (v / 2 + (v / 128) * 128) as u8;
        let s1 = s0.set_regs(s0.regs.with_reg8(self.r, res));
        let s2 = s1.set_regs(s1.regs.with_f(logical_flags(s1.regs.f, res)));
        let s3 = s2.set_regs(s2.regs.with_f(s2.regs.f & !HALF_CARRY_FLAG));
        let s4 = s3.set_regs(s3.regs.with_f(cond_bits(s3.regs.f, CARRY_FLAG, v % 2 != 0)));
        let s5 = s4.set_regs(s4.regs.advance_pc(1));
        s5
    }

    #[verifier::spinoff_prover]
    #[verifier::rlimit(80)]
    fn execute(&self, cpu: &mut Cpu) {
        let v: u8 = cpu.read_reg8(self.r);
        let res: u8 = v / 2 + (v / 128) * 128;
        cpu.write_reg8(self.r, res);
        update_flags_logical(cpu, res);
        cpu.clear_flag(HALF_CARRY_FLAG);
        cpu.cond_flag(CARRY_FLAG, v % 2 != 0);
        cpu.inc_pc(1);
    }

    open spec fn accessed(&self) -> (OutputRegisters, OutputRegisters) {
        (OF | output_registers_from_reg8(self.r), OF | output_registers_from_reg8(self.r))
    }

    fn get_accessed_regs(&self) -> (regs: (OutputRegisters, OutputRegisters)) {
        (OF | output_registers_from_reg8(self.r), OF | output_registers_from_reg8(self.r))
    }
}

/// SRA (HL): shifts right keeping bit 7; bit 0 goes to the carry.
#[derive(Clone, Copy)]
pub struct SraMemHl;

impl Instruction for SraMemHl {
    open spec fn valid(&self) -> bool {
        true
    }

    open spec fn next_state(&self, s: CpuModel) -> CpuModel {
        let s0 = s;
        let hl = s0.regs.reg16(Reg16::HL);
        let v = s0.mem_at(hl);
        let s1 = s0.after_read(hl, 3);
        let s2 = s1.after_no_mreq(hl);
        let res = (v / 2 + (v / 128) * 128) as u8;
        let s3 = s2.after_write(hl, res);
        let s4 = s3.set_regs(s3.regs.with_f(logical_flags(s3.regs.f, res)));
        let s5 = s4.set_regs(s4.regs.with_f(s4.regs.f & !HALF_CARRY_FLAG));
        let s6 = s5.set_regs(s5.regs.with_f(cond_bits(s5.regs.f, CARRY_FLAG, v % 2 != 0)));
        let s7 = s6.set_regs(s6.regs.advance_pc(1));
        s7
    }

    #[verifier::spinoff_prover]
    #[verifier::rlimit(80)]
    fn execute(&self, cpu: &mut Cpu) {
        let hl: u16 = cpu.read_reg16(Reg16::HL);
        let v: u8 = cpu.read_word(hl);
        cpu.contend_read_no_mreq(hl);
        let res: u8 = v / 2 + (v / 128) * 128;
        cpu.write_word(hl, res);
        update_flags_logical(cpu, res);
        cpu.clear_flag(HALF_CARRY_FLAG);
        cpu.cond_flag(CARRY_FLAG, v % 2 != 0);
        cpu.inc_pc(1);
    }

    open spec fn accessed(&self) -> (OutputRegisters, OutputRegisters) {
        (OF | OH | OL, OF)
    }

    fn get_accessed_regs(&self) -> (regs: (OutputRegisters, OutputRegisters)) {
        (OF | OH | OL, OF)
    }
}

/// SLL r: shifts left setting bit 0; bit 7 goes to the carry.
#[derive(Clone, Copy)]
pub struct SllR {
    pub r: Reg8,
}

impl Instruction for SllR {
    open spec fn valid(&self) -> bool {
        true
    }

    open spec fn next_state(&self, s: CpuModel) -> CpuModel {
        let s0 = s;
        let v = s0.regs.reg8(self.r);
        let res = ((v % 128) * 2 + 1) as u8;
        let s1 = s0.set_regs(s0.regs.with_reg8(self.r, res));
        let s2 = s1.set_regs(s1.regs.with_f(logical_flags(s1.regs.f, res)));
        let s3 = s2.set_regs(s2.regs.with_f(s2.regs.f & !HALF_CARRY_FLAG));
        let s4 = s3.set_regs(s3.regs.with_f(cond_bits(s3.regs.f, CARRY_FLAG, v >= 0x80)));
        let s5 = s4.set_regs(s4.regs.advance_pc(1));
        s5
    }

    #[verifier::spinoff_prover]
    #[verifier::rlimit(80)]
    fn execute(&self, cpu: &mut Cpu) {
        let v: u8 = cpu.read_reg8(self.r);
        let res: u8 = (v % 128) * 2 + 1;
        cpu.write_reg8(self.r, res);
        update_flags_logical(cpu, res);
        cpu.clear_flag(HALF_CARRY_FLAG);
        cpu.cond_flag(CARRY_FLAG, v >= 0x80);
        cpu.inc_pc(1);
    }

    open spec fn accessed(&self) -> (OutputRegisters, OutputRegisters) {
        (OF | output_registers_from_reg8(self.r), OF | output_registers_from_reg8(self.r))
    }

    fn get_accessed_regs(&self) -> (regs: (OutputRegisters, OutputRegisters)) {
        (OF | output_registers_from_reg8(self.r), OF | output_registers_from_reg8(self.r))
    }
}

/// SLL (HL): shifts left setting bit 0; bit 7 goes to the carry.
#[derive(Clone, Copy)]
pub struct SllMemHl;

impl Instruction for SllMemHl {
    open spec fn valid(&self) -> bool {
        true
    }

    open spec fn next_state(&self, s: CpuModel) -> CpuModel {
        let s0 = s;
        let hl = s0.regs.reg16(Reg16::HL);
        let v = s0.mem_at(hl);
        let s1 = s0.after_read(hl, 3);
        let s2 = s1.after_no_mreq(hl);
        let res = ((v % 128) * 2 + 1) as u8;
        let s3 = s2.after_write(hl, res);
        let s4 = s3.set_regs(s3.regs.with_f(logical_flags(s3.regs.f, res)));
        let s5 = s4.set_regs(s4.regs.with_f(s4.regs.f & !HALF_CARRY_FLAG));
        let s6 = s5.set_regs(s5.regs.with_f(cond_bits(s5.regs.f, CARRY_FLAG, v >= 0x80)));
        let s7 = s6.set_regs(s6.regs.advance_pc(1));
        s7
    }

    #[verifier::spinoff_prover]
    #[verifier::rlimit(80)]
    fn execute(&self, cpu: &mut Cpu) {
        let hl: u16 = cpu.read_reg16(Reg16::HL);
        let v: u8 = cpu.read_word(hl);
        cpu.contend_read_no_mreq(hl);
        let res: u8 = (v % 128) * 2 + 1;
        cpu.write_word(hl, res);
        update_flags_logical(cpu, res);
        cpu.clear_flag(HALF_CARRY_FLAG);
        cpu.cond_flag(CARRY_FLAG, v >= 0x80);
        cpu.inc_pc(1);
    }

    open spec fn accessed(&self) -> (OutputRegisters, OutputRegisters) {
        (OF | OH | OL, OF)
    }

    fn get_accessed_regs(&self) -> (regs: (OutputRegisters, OutputRegisters)) {
        (OF | OH | OL, OF)
    }
}

/// SRL r: shifts right; bit 0 goes to the carry.
#[derive(Clone, Copy)]
pub struct SrlR {
    pub r: Reg8,
}

impl Instruction for SrlR {
    open spec fn valid(&self) -> bool {
        true
    }

    open spec fn next_state(&self, s: CpuModel) -> CpuModel {
        let s0 = s;
        let v = s0.regs.reg8(self.r);
        let res = v / 2;
        let s1 = s0.set_regs(s0.regs.with_reg8(self.r, res));
        let s2 = s1.set_regs(s1.regs.with_f(logical_flags(s1.regs.f, res)));
        let s3 = s2.set_regs(s2.regs.with_f(s2.regs.f & !HALF_CARRY_FLAG));
        let s4 = s3.set_regs(s3.regs.with_f(cond_bits(s3.regs.f, CARRY_FLAG, v % 2 != 0)));
        let s5 = s4.set_regs(s4.regs.advance_pc(1));
        s5
    }

    #[verifier::spinoff_prover]
    #[verifier::rlimit(80)]
    fn execute(&self, cpu: &mut Cpu) {
        let v: u8 = cpu.read_reg8(self.r);
        let res: u8 = v / 2;
        cpu.write_reg8(self.r, res);
        update_flags_logical(cpu, res);
        cpu.clear_flag(HALF_CARRY_FLAG);
        cpu.cond_flag(CARRY_FLAG, v % 2 != 0);
        cpu.inc_pc(1);
    }

    open spec fn accessed(&self) -> (OutputRegisters, OutputRegisters) {
        (OF | output_registers_from_reg8(self.r), OF | output_registers_from_reg8(self.r))
    }

    fn get_accessed_regs(&self) -> (regs: (OutputRegisters, OutputRegisters)) {
        (OF | output_registers_from_reg8(self.r), OF | output_registers_from_reg8(self.r))
    }
}

/// SRL (HL): shifts right; bit 0 goes to the carry.
#[derive(Clone, Copy)]
pub struct SrlMemHl;

impl Instruction for SrlMemHl {
    open spec fn valid(&self) -> bool {
        true
    }

    open spec fn next_state(&self, s: CpuModel) -> CpuModel {
        let s0 = s;
        let hl = s0.regs.reg16(Reg16::HL);
        let v = s0.mem_at(hl);
        let s1 = s0.after_read(hl, 3);
        let s2 = s1.after_no_mreq(hl);
        let res = v / 2;
        let s3 = s2.after_write(hl, res);
        let s4 = s3.set_regs(s3.regs.with_f(logical_flags(s3.regs.f, res)));
        let s5 = s4.set_regs(s4.regs.with_f(s4.regs.f & !HALF_CARRY_FLAG));
        let s6 = s5.set_regs(s5.regs.with_f(cond_bits(s5.regs.f, CARRY_FLAG, v % 2 != 0)));
        let s7 = s6.set_regs(s6.regs.advance_pc(1));
        s7
    }

    #[verifier::spinoff_prover]
    #[verifier::rlimit(80)]
    fn execute(&self, cpu: &mut Cpu) {
        let hl: u16 = cpu.read_reg16(Reg16::HL);
        let v: u8 = cpu.read_word(hl);
        cpu.contend_read_no_mreq(hl);
        let res: u8 = v / 2;
        cpu.write_word(hl, res);
        update_flags_logical(cpu, res);
        cpu.clear_flag(HALF_CARRY_FLAG);
        cpu.cond_flag(CARRY_FLAG, v % 2 != 0);
        cpu.inc_pc(1);
    }

    open spec fn accessed(&self) -> (OutputRegisters, OutputRegisters) {
        (OF | OH | OL, OF)
    }

    fn get_accessed_regs(&self) -> (regs: (OutputRegisters, OutputRegisters)) {
        (OF | OH | OL, OF)
    }
}

/// BIT b, r: tests a bit of a register; X and Y come from the register.
#[derive(Clone, Copy)]
pub struct BitBR {
    pub b: u8,
    pub r: Reg8,
}

impl Instruction for BitBR {
    open spec fn valid(&self) -> bool {
        self.b < 8
    }

    open spec fn next_state(&self, s: CpuModel) -> CpuModel {
        let s0 = s;
        let v = s0.regs.reg8(self.r);
        let bs = v & (1u8 << self.b) != 0;
        let s1 = s0.set_regs(s0.regs.with_f(bit_flags(s0.regs.f, self.b, bs)));
        let s2 = s1.set_regs(s1.regs.with_f(cond_bits(s1.regs.f, X_FLAG, v & 0x08 != 0)));
        let s3 = s2.set_regs(s2.regs.with_f(cond_bits(s2.regs.f, Y_FLAG, v & 0x20 != 0)));
        let s4 = s3.set_regs(s3.regs.advance_pc(1));
        s4
    }

    #[verifier::spinoff_prover]
    #[verifier::rlimit(80)]
    fn execute(&self, cpu: &mut Cpu) {
        let v: u8 = cpu.read_reg8(self.r);
        let bs: bool = v & (1u8 << self.b) != 0;
        update_flags_bit(cpu, self.b, bs);
        cpu.cond_flag(X_FLAG, v & 0x08 != 0);
        cpu.cond_flag(Y_FLAG, v & 0x20 != 0);
        cpu.inc_pc(1);
    }

    open spec fn accessed(&self) -> (OutputRegisters, OutputRegisters) {
        (OF | output_registers_from_reg8(self.r), OF)
    }

    fn get_accessed_regs(&self) -> (regs: (OutputRegisters, OutputRegisters)) {
        (OF | output_registers_from_reg8(self.r), OF)
    }
}

/// BIT b, (HL): tests a bit of the byte at HL; X and Y come from WZ.
#[derive(Clone, Copy)]
pub struct BitBMemHl {
    pub b: u8,
}

impl Instruction for BitBMemHl {
    open spec fn valid(&self) -> bool {
        self.b < 8
    }

    open spec fn next_state(&self, s: CpuModel) -> CpuModel {
        let s0 = s;
        let hl = s0.regs.reg16(Reg16::HL);
        let v = s0.mem_at(hl);
        let s1 = s0.after_read(hl, 3);
        let s2 = s1.after_no_mreq(hl);
        let bs = v & (1u8 << self.b) != 0;
        let s3 = s2.set_regs(s2.regs.with_f(bit_flags(s2.regs.f, self.b, bs)));
        let s4 = s3.set_regs(s3.regs.with_f(xy_from_wz(s3.regs.f, s3.regs.wz)));
        let s5 = s4.set_regs(s4.regs.advance_pc(1));
        s5
    }

    #[verifier::spinoff_prover]
    #[verifier::rlimit(80)]
    fn execute(&self, cpu: &mut Cpu) {
        let hl: u16 = cpu.read_reg16(Reg16::HL);
        let v: u8 = cpu.read_word(hl);
        cpu.contend_read_no_mreq(hl);
        let bs: bool = v & (1u8 << self.b) != 0;
        update_flags_bit(cpu, self.b, bs);
        update_xyflags_bit(cpu);
        cpu.inc_pc(1);
    }

    open spec fn accessed(&self) -> (OutputRegisters, OutputRegisters) {
        (OF | OH | OL, OF)
    }

    fn get_accessed_regs(&self) -> (regs: (OutputRegisters, OutputRegisters)) {
        (OF | OH | OL, OF)
    }
}

/// RES b, r: clears a bit of a register.
#[derive(Clone, Copy)]
pub struct ResBR {
    pub b: u8,
    pub r: Reg8,
}

impl Instruction for ResBR {
    open spec fn valid(&self) -> bool {
        self.b < 8
    }

    open spec fn next_state(&self, s: CpuModel) -> CpuModel {
        let s0 = s;
        let v = s0.regs.reg8(self.r);
        let res = v & !(1u8 << self.b);
        let s1 = s0.set_regs(s0.regs.with_reg8(self.r, res));
        let s2 = s1.set_regs(s1.regs.advance_pc(1));
        s2
    }

    #[verifier::spinoff_prover]
    #[verifier::rlimit(80)]
    fn execute(&self, cpu: &mut Cpu) {
        let v: u8 = cpu.read_reg8(self.r);
        let res: u8 = v & !(1u8 << self.b);
        cpu.write_reg8(self.r, res);
        cpu.inc_pc(1);
    }

    open spec fn accessed(&self) -> (OutputRegisters, OutputRegisters) {
        (OF | output_registers_from_reg8(self.r), OF)
    }

    fn get_accessed_regs(&self) -> (regs: (OutputRegisters, OutputRegisters)) {
        (OF | output_registers_from_reg8(self.r), OF)
    }
}

/// RES b, (HL): clears a bit of the byte at HL.
#[derive(Clone, Copy)]
pub struct ResBMemHl {
    pub b: u8,
}

impl Instruction for ResBMemHl {
    open spec fn valid(&self) -> bool {
        self.b < 8
    }

    open spec fn next_state(&self, s: CpuModel) -> CpuModel {
        let s0 = s;
        let hl = s0.regs.reg16(Reg16::HL);
        let v = s0.mem_at(hl);
        let s1 = s0.after_read(hl, 3);
        let s2 = s1.after_no_mreq(hl);
        let res = v & !(1u8 << self.b);
        let s3 = s2.after_write(hl, res);
        let s4 = s3.set_regs(s3.regs.advance_pc(1));
        s4
    }

    #[verifier::spinoff_prover]
    #[verifier::rlimit(80)]
    fn execute(&self, cpu: &mut Cpu) {
        let hl: u16 = cpu.read_reg16(Reg16::HL);
        let v: u8 = cpu.read_word(hl);
        cpu.contend_read_no_mreq(hl);
        let res: u8 = v & !(1u8 << self.b);
        cpu.write_word(hl, res);
        cpu.inc_pc(1);
    }

    open spec fn accessed(&self) -> (OutputRegisters, OutputRegisters) {
        (OH | OL, ONONE)
    }

    fn get_accessed_regs(&self) -> (regs: (OutputRegisters, OutputRegisters)) {
        (OH | OL, ONONE)
    }
}

/// SET b, r: sets a bit of a register.
#[derive(Clone, Copy)]
pub struct SetBR {
    pub b: u8,
    pub r: Reg8,
}

impl Instruction for SetBR {
    open spec fn valid(&self) -> bool {
        self.b < 8
    }

    open spec fn next_state(&self, s: CpuModel) -> CpuModel {
        let s0 = s;
        let v = s0.regs.reg8(self.r);
        let res = v | (1u8 << self.b);
        let s1 = s0.set_regs(s0.regs.with_reg8(self.r, res));
        let s2 = s1.set_regs(s1.regs.advance_pc(1));
        s2
    }

    #[verifier::spinoff_prover]
    #[verifier::rlimit(80)]
    fn execute(&self, cpu: &mut Cpu) {
        let v: u8 = cpu.read_reg8(self.r);
        let res: u8 = v | (1u8 << self.b);
        cpu.write_reg8(self.r, res);
        cpu.inc_pc(1);
    }

    open spec fn accessed(&self) -> (OutputRegisters, OutputRegisters) {
        (OF | output_registers_from_reg8(self.r), OF)
    }

    fn get_accessed_regs(&self) -> (regs: (OutputRegisters, OutputRegisters)) {
        (OF | output_registers_from_reg8(self.r), OF)
    }
}

/// SET b, (HL): sets a bit of the byte at HL.
#[derive(Clone, Copy)]
pub struct SetBMemHl {
    pub b: u8,
}

impl Instruction for SetBMemHl {
    open spec fn valid(&self) -> bool {
        self.b < 8
    }

    open spec fn next_state(&self, s: CpuModel) -> CpuModel {
        let s0 = s;
        let hl = s0.regs.reg16(Reg16::HL);
        let v = s0.mem_at(hl);
        let s1 = s0.after_read(hl, 3);
        let s2 = s1.after_no_mreq(hl);
        let res = v | (1u8 << self.b);
        let s3 = s2.after_write(hl, res);
        let s4 = s3.set_regs(s3.regs.advance_pc(1));
        s4
    }

    #[verifier::spinoff_prover]
    #[verifier::rlimit(80)]
    fn execute(&self, cpu: &mut Cpu) {
        let hl: u16 = cpu.read_reg16(Reg16::HL);
        let v: u8 = cpu.read_word(hl);
        cpu.contend_read_no_mreq(hl);
        let res: u8 = v | (1u8 << self.b);
        cpu.write_word(hl, res);
        cpu.inc_pc(1);
    }

    open spec fn accessed(&self) -> (OutputRegisters, OutputRegisters) {
        (OH | OL, ONONE)
    }

    fn get_accessed_regs(&self) -> (regs: (OutputRegisters, OutputRegisters)) {
        (OH | OL, ONONE)
    }
}

/// The opcodes after the CB prefix.
#[verifier::opaque]
pub open spec fn cb_next(s: CpuModel, op: u8) -> CpuModel {
    match op {
        0x00u8 => (RlcR{r:Reg8::B}).next_state(s),
        0x01u8 => (RlcR{r:Reg8::C}).next_state(s),
        0x02u8 => (RlcR{r:Reg8::D}).next_state(s),
        0x03u8 => (RlcR{r:Reg8::E}).next_state(s),
        0x04u8 => (RlcR{r:Reg8::H}).next_state(s),
        0x05u8 => (RlcR{r:Reg8::L}).next_state(s),
        0x06u8 => (RlcMemHl).next_state(s),
        0x07u8 => (RlcR{r:Reg8::A}).next_state(s),
        0x08u8 => (RrcR{r:Reg8::B}).next_state(s),
        0x09u8 => (RrcR{r:Reg8::C}).next_state(s),
        0x0Au8 => (RrcR{r:Reg8::D}).next_state(s),
        0x0Bu8 => (RrcR{r:Reg8::E}).next_state(s),
        0x0Cu8 => (RrcR{r:Reg8::H}).next_state(s),
        0x0Du8 => (RrcR{r:Reg8::L}).next_state(s),
        0x0Eu8 => (RrcMemHl).next_state(s),
        0x0Fu8 => (RrcR{r:Reg8::A}).next_state(s),
        0x10u8 => (RlR{r:Reg8::B}).next_state(s),
        0x11u8 => (RlR{r:Reg8::C}).next_state(s),
        0x12u8 => (RlR{r:Reg8::D}).next_state(s),
        0x13u8 => (RlR{r:Reg8::E}).next_state(s),
        0x14u8 => (RlR{r:Reg8::H}).next_state(s),
        0x15u8 => (RlR{r:Reg8::L}).next_state(s),
        0x16u8 => (RlMemHl).next_state(s),
        0x17u8 => (RlR{r:Reg8::A}).next_state(s),
        0x18u8 => (RrR{r:Reg8::B}).next_state(s),
        0x19u8 => (RrR{r:Reg8::C}).next_state(s),
        0x1Au8 => (RrR{r:Reg8::D}).next_state(s),
        0x1Bu8 => (RrR{r:Reg8::E}).next_state(s),
        0x1Cu8 => (RrR{r:Reg8::H}).next_state(s),
        0x1Du8 => (RrR{r:Reg8::L}).next_state(s),
        0x1Eu8 => (RrMemHl).next_state(s),
        0x1Fu8 => (RrR{r:Reg8::A}).next_state(s),
        0x20u8 => (SlaR{r:Reg8::B}).next_state(s),
        0x21u8 => (SlaR{r:Reg8::C}).next_state(s),
        0x22u8 => (SlaR{r:Reg8::D}).next_state(s),
        0x23u8 => (SlaR{r:Reg8::E}).next_state(s),
        0x24u8 => (SlaR{r:Reg8::H}).next_state(s),
        0x25u8 => (SlaR{r:Reg8::L}).next_state(s),
        0x26u8 => (SlaMemHl).next_state(s),
        0x27u8 => (SlaR{r:Reg8::A}).next_state(s),
        0x28u8 => (SraR{r:Reg8::B}).next_state(s),
        0x29u8 => (SraR{r:Reg8::C}).next_state(s),
        0x2Au8 => (SraR{r:Reg8::D}).next_state(s),
        0x2Bu8 => (SraR{r:Reg8::E}).next_state(s),
        0x2Cu8 => (SraR{r:Reg8::H}).next_state(s),
        0x2Du8 => (SraR{r:Reg8::L}).next_state(s),
        0x2Eu8 => (SraMemHl).next_state(s),
        0x2Fu8 => (SraR{r:Reg8::A}).next_state(s),
        0x30u8 => (SllR{r:Reg8::B}).next_state(s),
        0x31u8 => (SllR{r:Reg8::C}).next_state(s),
        0x32u8 => (SllR{r:Reg8::D}).next_state(s),
        0x33u8 => (SllR{r:Reg8::E}).next_state(s),
        0x34u8 => (SllR{r:Reg8::H}).next_state(s),
        0x35u8 => (SllR{r:Reg8::L}).next_state(s),
        0x36u8 => (SllMemHl).next_state(s),
        0x37u8 => (SllR{r:Reg8::A}).next_state(s),
        0x38u8 => (SrlR{r:Reg8::B}).next_state(s),
        0x39u8 => (SrlR{r:Reg8::C}).next_state(s),
        0x3Au8 => (SrlR{r:Reg8::D}).next_state(s),
        0x3Bu8 => (SrlR{r:Reg8::E}).next_state(s),
        0x3Cu8 => (SrlR{r:Reg8::H}).next_state(s),
        0x3Du8 => (SrlR{r:Reg8::L}).next_state(s),
        0x3Eu8 => (SrlMemHl).next_state(s),
        0x3Fu8 => (SrlR{r:Reg8::A}).next_state(s),
        0x40u8 => (BitBR{b:0,r:Reg8::B}).next_state(s),
        0x41u8 => (BitBR{b:0,r:Reg8::C}).next_state(s),
        0x42u8 => (BitBR{b:0,r:Reg8::D}).next_state(s),
        0x43u8 => (BitBR{b:0,r:Reg8::E}).next_state(s),
        0x44u8 => (BitBR{b:0,r:Reg8::H}).next_state(s),
        0x45u8 => (BitBR{b:0,r:Reg8::L}).next_state(s),
        0x46u8 => (BitBMemHl{b:0}).next_state(s),
        0x47u8 => (BitBR{b:0,r:Reg8::A}).next_state(s),
        0x48u8 => (BitBR{b:1,r:Reg8::B}).next_state(s),
        0x49u8 => (BitBR{b:1,r:Reg8::C}).next_state(s),
        0x4Au8 => (BitBR{b:1,r:Reg8::D}).next_state(s),
        0x4Bu8 => (BitBR{b:1,r:Reg8::E}).next_state(s),
        0x4Cu8 => (BitBR{b:1,r:Reg8::H}).next_state(s),
        0x4Du8 => (BitBR{b:1,r:Reg8::L}).next_state(s),
        0x4Eu8 => (BitBMemHl{b:1}).next_state(s),
        0x4Fu8 => (BitBR{b:1,r:Reg8::A}).next_state(s),
        0x50u8 => (BitBR{b:2,r:Reg8::B}).next_state(s),
        0x51u8 => (BitBR{b:2,r:Reg8::C}).next_state(s),
        0x52u8 => (BitBR{b:2,r:Reg8::D}).next_state(s),
        0x53u8 => (BitBR{b:2,r:Reg8::E}).next_state(s),
        0x54u8 => (BitBR{b:2,r:Reg8::H}).next_state(s),
        0x55u8 => (BitBR{b:2,r:Reg8::L}).next_state(s),
        0x56u8 => (BitBMemHl{b:2}).next_state(s),
        0x57u8 => (BitBR{b:2,r:Reg8::A}).next_state(s),
        0x58u8 => (BitBR{b:3,r:Reg8::B}).next_state(s),
        0x59u8 => (BitBR{b:3,r:Reg8::C}).next_state(s),
        0x5Au8 => (BitBR{b:3,r:Reg8::D}).next_state(s),
        0x5Bu8 => (BitBR{b:3,r:Reg8::E}).next_state(s),
        0x5Cu8 => (BitBR{b:3,r:Reg8::H}).next_state(s),
        0x5Du8 => (BitBR{b:3,r:Reg8::L}).next_state(s),
        0x5Eu8 => (BitBMemHl{b:3}).next_state(s),
        0x5Fu8 => (BitBR{b:3,r:Reg8::A}).next_state(s),
        0x60u8 => (BitBR{b:4,r:Reg8::B}).next_state(s),
        0x61u8 => (BitBR{b:4,r:Reg8::C}).next_state(s),
        0x62u8 => (BitBR{b:4,r:Reg8::D}).next_state(s),
        0x63u8 => (BitBR{b:4,r:Reg8::E}).next_state(s),
        0x64u8 => (BitBR{b:4,r:Reg8::H}).next_state(s),
        0x65u8 => (BitBR{b:4,r:Reg8::L}).next_state(s),
        0x66u8 => (BitBMemHl{b:4}).next_state(s),
        0x67u8 => (BitBR{b:4,r:Reg8::A}).next_state(s),
        0x68u8 => (BitBR{b:5,r:Reg8::B}).next_state(s),
        0x69u8 => (BitBR{b:5,r:Reg8::C}).next_state(s),
        0x6Au8 => (BitBR{b:5,r:Reg8::D}).next_state(s),
        0x6Bu8 => (BitBR{b:5,r:Reg8::E}).next_state(s),
        0x6Cu8 => (BitBR{b:5,r:Reg8::H}).next_state(s),
        0x6Du8 => (BitBR{b:5,r:Reg8::L}).next_state(s),
        0x6Eu8 => (BitBMemHl{b:5}).next_state(s),
        0x6Fu8 => (BitBR{b:5,r:Reg8::A}).next_state(s),
        0x70u8 => (BitBR{b:6,r:Reg8::B}).next_state(s),
        0x71u8 => (BitBR{b:6,r:Reg8::C}).next_state(s),
        0x72u8 => (BitBR{b:6,r:Reg8::D}).next_state(s),
        0x73u8 => (BitBR{b:6,r:Reg8::E}).next_state(s),
        0x74u8 => (BitBR{b:6,r:Reg8::H}).next_state(s),
        0x75u8 => (BitBR{b:6,r:Reg8::L}).next_state(s),
        0x76u8 => (BitBMemHl{b:6}).next_state(s),
        0x77u8 => (BitBR{b:6,r:Reg8::A}).next_state(s),
        0x78u8 => (BitBR{b:7,r:Reg8::B}).next_state(s),
        0x79u8 => (BitBR{b:7,r:Reg8::C}).next_state(s),
        0x7Au8 => (BitBR{b:7,r:Reg8::D}).next_state(s),
        0x7Bu8 => (BitBR{b:7,r:Reg8::E}).next_state(s),
        0x7Cu8 => (BitBR{b:7,r:Reg8::H}).next_state(s),
        0x7Du8 => (BitBR{b:7,r:Reg8::L}).next_state(s),
        0x7Eu8 => (BitBMemHl{b:7}).next_state(s),
        0x7Fu8 => (BitBR{b:7,r:Reg8::A}).next_state(s),
        0x80u8 => (ResBR{b:0,r:Reg8::B}).next_state(s),
        0x81u8 => (ResBR{b:0,r:Reg8::C}).next_state(s),
        0x82u8 => (ResBR{b:0,r:Reg8::D}).next_state(s),
        0x83u8 => (ResBR{b:0,r:Reg8::E}).next_state(s),
        0x84u8 => (ResBR{b:0,r:Reg8::H}).next_state(s),
        0x85u8 => (ResBR{b:0,r:Reg8::L}).next_state(s),
        0x86u8 => (ResBMemHl{b:0}).next_state(s),
        0x87u8 => (ResBR{b:0,r:Reg8::A}).next_state(s),
        0x88u8 => (ResBR{b:1,r:Reg8::B}).next_state(s),
        0x89u8 => (ResBR{b:1,r:Reg8::C}).next_state(s),
        0x8Au8 => (ResBR{b:1,r:Reg8::D}).next_state(s),
        0x8Bu8 => (ResBR{b:1,r:Reg8::E}).next_state(s),
        0x8Cu8 => (ResBR{b:1,r:Reg8::H}).next_state(s),
        0x8Du8 => (ResBR{b:1,r:Reg8::L}).next_state(s),
        0x8Eu8 => (ResBMemHl{b:1}).next_state(s),
        0x8Fu8 => (ResBR{b:1,r:Reg8::A}).next_state(s),
        0x90u8 => (ResBR{b:2,r:Reg8::B}).next_state(s),
        0x91u8 => (ResBR{b:2,r:Reg8::C}).next_state(s),
        0x92u8 => (ResBR{b:2,r:Reg8::D}).next_state(s),
        0x93u8 => (ResBR{b:2,r:Reg8::E}).next_state(s),
        0x94u8 => (ResBR{b:2,r:Reg8::H}).next_state(s),
        0x95u8 => (ResBR{b:2,r:Reg8::L}).next_state(s),
        0x96u8 => (ResBMemHl{b:2}).next_state(s),
        0x97u8 => (ResBR{b:2,r:Reg8::A}).next_state(s),
        0x98u8 => (ResBR{b:3,r:Reg8::B}).next_state(s),
        0x99u8 => (ResBR{b:3,r:Reg8::C}).next_state(s),
        0x9Au8 => (ResBR{b:3,r:Reg8::D}).next_state(s),
        0x9Bu8 => (ResBR{b:3,r:Reg8::E}).next_state(s),
        0x9Cu8 => (ResBR{b:3,r:Reg8::H}).next_state(s),
        0x9Du8 => (ResBR{b:3,r:Reg8::L}).next_state(s),
        0x9Eu8 => (ResBMemHl{b:3}).next_state(s),
        0x9Fu8 => (ResBR{b:3,r:Reg8::A}).next_state(s),
        0xA0u8 => (ResBR{b:4,r:Reg8::B}).next_state(s),
        0xA1u8 => (ResBR{b:4,r:Reg8::C}).next_state(s),
        0xA2u8 => (ResBR{b:4,r:Reg8::D}).next_state(s),
        0xA3u8 => (ResBR{b:4,r:Reg8::E}).next_state(s),
        0xA4u8 => (ResBR{b:4,r:Reg8::H}).next_state(s),
        0xA5u8 => (ResBR{b:4,r:Reg8::L}).next_state(s),
        0xA6u8 => (ResBMemHl{b:4}).next_state(s),
        0xA7u8 => (ResBR{b:4,r:Reg8::A}).next_state(s),
        0xA8u8 => (ResBR{b:5,r:Reg8::B}).next_state(s),
        0xA9u8 => (ResBR{b:5,r:Reg8::C}).next_state(s),
        0xAAu8 => (ResBR{b:5,r:Reg8::D}).next_state(s),
        0xABu8 => (ResBR{b:5,r:Reg8::E}).next_state(s),
        0xACu8 => (ResBR{b:5,r:Reg8::H}).next_state(s),
        0xADu8 => (ResBR{b:5,r:Reg8::L}).next_state(s),
        0xAEu8 => (ResBMemHl{b:5}).next_state(s),
        0xAFu8 => (ResBR{b:5,r:Reg8::A}).next_state(s),
        0xB0u8 => (ResBR{b:6,r:Reg8::B}).next_state(s),
        0xB1u8 => (ResBR{b:6,r:Reg8::C}).next_state(s),
        0xB2u8 => (ResBR{b:6,r:Reg8::D}).next_state(s),
        0xB3u8 => (ResBR{b:6,r:Reg8::E}).next_state(s),
        0xB4u8 => (ResBR{b:6,r:Reg8::H}).next_state(s),
        0xB5u8 => (ResBR{b:6,r:Reg8::L}).next_state(s),
        0xB6u8 => (ResBMemHl{b:6}).next_state(s),
        0xB7u8 => (ResBR{b:6,r:Reg8::A}).next_state(s),
        0xB8u8 => (ResBR{b:7,r:Reg8::B}).next_state(s),
        0xB9u8 => (ResBR{b:7,r:Reg8::C}).next_state(s),
        0xBAu8 => (ResBR{b:7,r:Reg8::D}).next_state(s),
        0xBBu8 => (ResBR{b:7,r:Reg8::E}).next_state(s),
        0xBCu8 => (ResBR{b:7,r:Reg8::H}).next_state(s),
        0xBDu8 => (ResBR{b:7,r:Reg8::L}).next_state(s),
        0xBEu8 => (ResBMemHl{b:7}).next_state(s),
        0xBFu8 => (ResBR{b:7,r:Reg8::A}).next_state(s),
        0xC0u8 => (SetBR{b:0,r:Reg8::B}).next_state(s),
        0xC1u8 => (SetBR{b:0,r:Reg8::C}).next_state(s),
        0xC2u8 => (SetBR{b:0,r:Reg8::D}).next_state(s),
        0xC3u8 => (SetBR{b:0,r:Reg8::E}).next_state(s),
        0xC4u8 => (SetBR{b:0,r:Reg8::H}).next_state(s),
        0xC5u8 => (SetBR{b:0,r:Reg8::L}).next_state(s),
        0xC6u8 => (SetBMemHl{b:0}).next_state(s),
        0xC7u8 => (SetBR{b:0,r:Reg8::A}).next_state(s),
        0xC8u8 => (SetBR{b:1,r:Reg8::B}).next_state(s),
        0xC9u8 => (SetBR{b:1,r:Reg8::C}).next_state(s),
        0xCAu8 => (SetBR{b:1,r:Reg8::D}).next_state(s),
        0xCBu8 => (SetBR{b:1,r:Reg8::E}).next_state(s),
        0xCCu8 => (SetBR{b:1,r:Reg8::H}).next_state(s),
        0xCDu8 => (SetBR{b:1,r:Reg8::L}).next_state(s),
        0xCEu8 => (SetBMemHl{b:1}).next_state(s),
        0xCFu8 => (SetBR{b:1,r:Reg8::A}).next_state(s),
        0xD0u8 => (SetBR{b:2,r:Reg8::B}).next_state(s),
        0xD1u8 => (SetBR{b:2,r:Reg8::C}).next_state(s),
        0xD2u8 => (SetBR{b:2,r:Reg8::D}).next_state(s),
        0xD3u8 => (SetBR{b:2,r:Reg8::E}).next_state(s),
        0xD4u8 => (SetBR{b:2,r:Reg8::H}).next_state(s),
        0xD5u8 => (SetBR{b:2,r:Reg8::L}).next_state(s),
        0xD6u8 => (SetBMemHl{b:2}).next_state(s),
        0xD7u8 => (SetBR{b:2,r:Reg8::A}).next_state(s),
        0xD8u8 => (SetBR{b:3,r:Reg8::B}).next_state(s),
        0xD9u8 => (SetBR{b:3,r:Reg8::C}).next_state(s),
        0xDAu8 => (SetBR{b:3,r:Reg8::D}).next_state(s),
        0xDBu8 => (SetBR{b:3,r:Reg8::E}).next_state(s),
        0xDCu8 => (SetBR{b:3,r:Reg8::H}).next_state(s),
        0xDDu8 => (SetBR{b:3,r:Reg8::L}).next_state(s),
        0xDEu8 => (SetBMemHl{b:3}).next_state(s),
        0xDFu8 => (SetBR{b:3,r:Reg8::A}).next_state(s),
        0xE0u8 => (SetBR{b:4,r:Reg8::B}).next_state(s),
        0xE1u8 => (SetBR{b:4,r:Reg8::C}).next_state(s),
        0xE2u8 => (SetBR{b:4,r:Reg8::D}).next_state(s),
        0xE3u8 => (SetBR{b:4,r:Reg8::E}).next_state(s),
        0xE4u8 => (SetBR{b:4,r:Reg8::H}).next_state(s),
        0xE5u8 => (SetBR{b:4,r:Reg8::L}).next_state(s),
        0xE6u8 => (SetBMemHl{b:4}).next_state(s),
        0xE7u8 => (SetBR{b:4,r:Reg8::A}).next_state(s),
        0xE8u8 => (SetBR{b:5,r:Reg8::B}).next_state(s),
        0xE9u8 => (SetBR{b:5,r:Reg8::C}).next_state(s),
        0xEAu8 => (SetBR{b:5,r:Reg8::D}).next_state(s),
        0xEBu8 => (SetBR{b:5,r:Reg8::E}).next_state(s),
        0xECu8 => (SetBR{b:5,r:Reg8::H}).next_state(s),
        0xEDu8 => (SetBR{b:5,r:Reg8::L}).next_state(s),
        0xEEu8 => (SetBMemHl{b:5}).next_state(s),
        0xEFu8 => (SetBR{b:5,r:Reg8::A}).next_state(s),
        0xF0u8 => (SetBR{b:6,r:Reg8::B}).next_state(s),
        0xF1u8 => (SetBR{b:6,r:Reg8::C}).next_state(s),
        0xF2u8 => (SetBR{b:6,r:Reg8::D}).next_state(s),
        0xF3u8 => (SetBR{b:6,r:Reg8::E}).next_state(s),
        0xF4u8 => (SetBR{b:6,r:Reg8::H}).next_state(s),
        0xF5u8 => (SetBR{b:6,r:Reg8::L}).next_state(s),
        0xF6u8 => (SetBMemHl{b:6}).next_state(s),
        0xF7u8 => (SetBR{b:6,r:Reg8::A}).next_state(s),
        0xF8u8 => (SetBR{b:7,r:Reg8::B}).next_state(s),
        0xF9u8 => (SetBR{b:7,r:Reg8::C}).next_state(s),
        0xFAu8 => (SetBR{b:7,r:Reg8::D}).next_state(s),
        0xFBu8 => (SetBR{b:7,r:Reg8::E}).next_state(s),
        0xFCu8 => (SetBR{b:7,r:Reg8::H}).next_state(s),
        0xFDu8 => (SetBR{b:7,r:Reg8::L}).next_state(s),
        0xFEu8 => (SetBMemHl{b:7}).next_state(s),
        0xFFu8 => (SetBR{b:7,r:Reg8::A}).next_state(s),
    }
}

/// Whether the table has an instruction for the opcode.
pub open spec fn cb_supported(op: u8) -> bool {
    true
}

/// Executes the table's instruction for `op`; says whether there is one.
#[verifier::rlimit(100)]
pub fn execute_cb(cpu: &mut Cpu, op: u8) -> (supported: bool)
    requires
        old(cpu).wf(),
        old(cpu)@.tcycles <= TCYCLE_CEILING,
    ensures
        final(cpu).wf(),
        final(cpu)@ == cb_next(old(cpu)@, op),
        supported == cb_supported(op),
        !supported ==> final(cpu)@ == old(cpu)@,
        final(cpu)@.tcycles <= old(cpu)@.tcycles + MAX_STEP_TCYCLES,
{
    proof {
        reveal(cb_next);
    }
    match op {
        0x00 => {
            (RlcR{r:Reg8::B}).execute(cpu);
            true
        },
        0x01 => {
            (RlcR{r:Reg8::C}).execute(cpu);
            true
        },
        0x02 => {
            (RlcR{r:Reg8::D}).execute(cpu);
            true
        },
        0x03 => {
            (RlcR{r:Reg8::E}).execute(cpu);
            true
        },
        0x04 => {
            (RlcR{r:Reg8::H}).execute(cpu);
            true
        },
        0x05 => {
            (RlcR{r:Reg8::L}).execute(cpu);
            true
        },
        0x06 => {
            (RlcMemHl).execute(cpu);
            true
        },
        0x07 => {
            (RlcR{r:Reg8::A}).execute(cpu);
            true
        },
        0x08 => {
            (RrcR{r:Reg8::B}).execute(cpu);
            true
        },
        0x09 => {
            (RrcR{r:Reg8::C}).execute(cpu);
            true
        },
        0x0A => {
            (RrcR{r:Reg8::D}).execute(cpu);
            true
        },
        0x0B => {
            (RrcR{r:Reg8::E}).execute(cpu);
            true
        },
        0x0C => {
            (RrcR{r:Reg8::H}).execute(cpu);
            true
        },
        0x0D => {
            (RrcR{r:Reg8::L}).execute(cpu);
            true
        },
        0x0E => {
            (RrcMemHl).execute(cpu);
            true
        },
        0x0F => {
            (RrcR{r:Reg8::A}).execute(cpu);
            true
        },
        0x10 => {
            (RlR{r:Reg8::B}).execute(cpu);
            true
        },
        0x11 => {
            (RlR{r:Reg8::C}).execute(cpu);
            true
        },
        0x12 => {
            (RlR{r:Reg8::D}).execute(cpu);
            true
        },
        0x13 => {
            (RlR{r:Reg8::E}).execute(cpu);
            true
        },
        0x14 => {
            (RlR{r:Reg8::H}).execute(cpu);
            true
        },
        0x15 => {
            (RlR{r:Reg8::L}).execute(cpu);
            true
        },
        0x16 => {
            (RlMemHl).execute(cpu);
            true
        },
        0x17 => {
            (RlR{r:Reg8::A}).execute(cpu);
            true
        },
        0x18 => {
            (RrR{r:Reg8::B}).execute(cpu);
            true
        },
        0x19 => {
            (RrR{r:Reg8::C}).execute(cpu);
            true
        },
        0x1A => {
            (RrR{r:Reg8::D}).execute(cpu);
            true
        },
        0x1B => {
            (RrR{r:Reg8::E}).execute(cpu);
            true
        },
        0x1C => {
            (RrR{r:Reg8::H}).execute(cpu);
            true
        },
        0x1D => {
            (RrR{r:Reg8::L}).execute(cpu);
            true
        },
        0x1E => {
            (RrMemHl).execute(cpu);
            true
        },
        0x1F => {
            (RrR{r:Reg8::A}).execute(cpu);
            true
        },
        0x20 => {
            (SlaR{r:Reg8::B}).execute(cpu);
            true
        },
        0x21 => {
            (SlaR{r:Reg8::C}).execute(cpu);
            true
        },
        0x22 => {
            (SlaR{r:Reg8::D}).execute(cpu);
            true
        },
        0x23 => {
            (SlaR{r:Reg8::E}).execute(cpu);
            true
        },
        0x24 => {
            (SlaR{r:Reg8::H}).execute(cpu);
            true
        },
        0x25 => {
            (SlaR{r:Reg8::L}).execute(cpu);
            true
        },
        0x26 => {
            (SlaMemHl).execute(cpu);
            true
        },
        0x27 => {
            (SlaR{r:Reg8::A}).execute(cpu);
            true
        },
        0x28 => {
            (SraR{r:Reg8::B}).execute(cpu);
            true
        },
        0x29 => {
            (SraR{r:Reg8::C}).execute(cpu);
            true
        },
        0x2A => {
            (SraR{r:Reg8::D}).execute(cpu);
            true
        },
        0x2B => {
            (SraR{r:Reg8::E}).execute(cpu);
            true
        },
        0x2C => {
            (SraR{r:Reg8::H}).execute(cpu);
            true
        },
        0x2D => {
            (SraR{r:Reg8::L}).execute(cpu);
            true
        },
        0x2E => {
            (SraMemHl).execute(cpu);
            true
        },
        0x2F => {
            (SraR{r:Reg8::A}).execute(cpu);
            true
        },
        0x30 => {
            (SllR{r:Reg8::B}).execute(cpu);
            true
        },
        0x31 => {
            (SllR{r:Reg8::C}).execute(cpu);
            true
        },
        0x32 => {
            (SllR{r:Reg8::D}).execute(cpu);
            true
        },
        0x33 => {
            (SllR{r:Reg8::E}).execute(cpu);
            true
        },
        0x34 => {
            (SllR{r:Reg8::H}).execute(cpu);
            true
        },
        0x35 => {
            (SllR{r:Reg8::L}).execute(cpu);
            true
        },
        0x36 => {
            (SllMemHl).execute(cpu);
            true
        },
        0x37 => {
            (SllR{r:Reg8::A}).execute(cpu);
            true
        },
        0x38 => {
            (SrlR{r:Reg8::B}).execute(cpu);
            true
        },
        0x39 => {
            (SrlR{r:Reg8::C}).execute(cpu);
            true
        },
        0x3A => {
            (SrlR{r:Reg8::D}).execute(cpu);
            true
        },
        0x3B => {
            (SrlR{r:Reg8::E}).execute(cpu);
            true
        },
        0x3C => {
            (SrlR{r:Reg8::H}).execute(cpu);
            true
        },
        0x3D => {
            (SrlR{r:Reg8::L}).execute(cpu);
            true
        },
        0x3E => {
            (SrlMemHl).execute(cpu);
            true
        },
        0x3F => {
            (SrlR{r:Reg8::A}).execute(cpu);
            true
        },
        0x40 => {
            (BitBR{b:0,r:Reg8::B}).execute(cpu);
            true
        },
        0x41 => {
            (BitBR{b:0,r:Reg8::C}).execute(cpu);
            true
        },
        0x42 => {
            (BitBR{b:0,r:Reg8::D}).execute(cpu);
            true
        },
        0x43 => {
            (BitBR{b:0,r:Reg8::E}).execute(cpu);
            true
        },
        0x44 => {
            (BitBR{b:0,r:Reg8::H}).execute(cpu);
            true
        },
        0x45 => {
            (BitBR{b:0,r:Reg8::L}).execute(cpu);
            true
        },
        0x46 => {
            (BitBMemHl{b:0}).execute(cpu);
            true
        },
        0x47 => {
            (BitBR{b:0,r:Reg8::A}).execute(cpu);
            true
        },
        0x48 => {
            (BitBR{b:1,r:Reg8::B}).execute(cpu);
            true
        },
        0x49 => {
            (BitBR{b:1,r:Reg8::C}).execute(cpu);
            true
        },
        0x4A => {
            (BitBR{b:1,r:Reg8::D}).execute(cpu);
            true
        },
        0x4B => {
            (BitBR{b:1,r:Reg8::E}).execute(cpu);
            true
        },
        0x4C => {
            (BitBR{b:1,r:Reg8::H}).execute(cpu);
            true
        },
        0x4D => {
            (BitBR{b:1,r:Reg8::L}).execute(cpu);
            true
        },
        0x4E => {
            (BitBMemHl{b:1}).execute(cpu);
            true
        },
        0x4F => {
            (BitBR{b:1,r:Reg8::A}).execute(cpu);
            true
        },
        0x50 => {
            (BitBR{b:2,r:Reg8::B}).execute(cpu);
            true
        },
        0x51 => {
            (BitBR{b:2,r:Reg8::C}).execute(cpu);
            true
        },
        0x52 => {
            (BitBR{b:2,r:Reg8::D}).execute(cpu);
            true
        },
        0x53 => {
            (BitBR{b:2,r:Reg8::E}).execute(cpu);
            true
        },
        0x54 => {
            (BitBR{b:2,r:Reg8::H}).execute(cpu);
            true
        },
        0x55 => {
            (BitBR{b:2,r:Reg8::L}).execute(cpu);
            true
        },
        0x56 => {
            (BitBMemHl{b:2}).execute(cpu);
            true
        },
        0x57 => {
            (BitBR{b:2,r:Reg8::A}).execute(cpu);
            true
        },
        0x58 => {
            (BitBR{b:3,r:Reg8::B}).execute(cpu);
            true
        },
        0x59 => {
            (BitBR{b:3,r:Reg8::C}).execute(cpu);
            true
        },
        0x5A => {
            (BitBR{b:3,r:Reg8::D}).execute(cpu);
            true
        },
        0x5B => {
            (BitBR{b:3,r:Reg8::E}).execute(cpu);
            true
        },
        0x5C => {
            (BitBR{b:3,r:Reg8::H}).execute(cpu);
            true
        },
        0x5D => {
            (BitBR{b:3,r:Reg8::L}).execute(cpu);
            true
        },
        0x5E => {
            (BitBMemHl{b:3}).execute(cpu);
            true
        },
        0x5F => {
            (BitBR{b:3,r:Reg8::A}).execute(cpu);
            true
        },
        0x60 => {
            (BitBR{b:4,r:Reg8::B}).execute(cpu);
            true
        },
        0x61 => {
            (BitBR{b:4,r:Reg8::C}).execute(cpu);
            true
        },
        0x62 => {
            (BitBR{b:4,r:Reg8::D}).execute(cpu);
            true
        },
        0x63 => {
            (BitBR{b:4,r:Reg8::E}).execute(cpu);
            true
        },
        0x64 => {
            (BitBR{b:4,r:Reg8::H}).execute(cpu);
            true
        },
        0x65 => {
            (BitBR{b:4,r:Reg8::L}).execute(cpu);
            true
        },
        0x66 => {
            (BitBMemHl{b:4}).execute(cpu);
            true
        },
        0x67 => {
            (BitBR{b:4,r:Reg8::A}).execute(cpu);
            true
        },
        0x68 => {
            (BitBR{b:5,r:Reg8::B}).execute(cpu);
            true
        },
        0x69 => {
            (BitBR{b:5,r:Reg8::C}).execute(cpu);
            true
        },
        0x6A => {
            (BitBR{b:5,r:Reg8::D}).execute(cpu);
            true
        },
        0x6B => {
            (BitBR{b:5,r:Reg8::E}).execute(cpu);
            true
        },
        0x6C => {
            (BitBR{b:5,r:Reg8::H}).execute(cpu);
            true
        },
        0x6D => {
            (BitBR{b:5,r:Reg8::L}).execute(cpu);
            true
        },
        0x6E => {
            (BitBMemHl{b:5}).execute(cpu);
            true
        },
        0x6F => {
            (BitBR{b:5,r:Reg8::A}).execute(cpu);
            true
        },
        0x70 => {
            (BitBR{b:6,r:Reg8::B}).execute(cpu);
            true
        },
        0x71 => {
            (BitBR{b:6,r:Reg8::C}).execute(cpu);
            true
        },
        0x72 => {
            (BitBR{b:6,r:Reg8::D}).execute(cpu);
            true
        },
        0x73 => {
            (BitBR{b:6,r:Reg8::E}).execute(cpu);
            true
        },
        0x74 => {
            (BitBR{b:6,r:Reg8::H}).execute(cpu);
            true
        },
        0x75 => {
            (BitBR{b:6,r:Reg8::L}).execute(cpu);
            true
        },
        0x76 => {
            (BitBMemHl{b:6}).execute(cpu);
            true
        },
        0x77 => {
            (BitBR{b:6,r:Reg8::A}).execute(cpu);
            true
        },
        0x78 => {
            (BitBR{b:7,r:Reg8::B}).execute(cpu);
            true
        },
        0x79 => {
            (BitBR{b:7,r:Reg8::C}).execute(cpu);
            true
        },
        0x7A => {
            (BitBR{b:7,r:Reg8::D}).execute(cpu);
            true
        },
        0x7B => {
            (BitBR{b:7,r:Reg8::E}).execute(cpu);
            true
        },
        0x7C => {
            (BitBR{b:7,r:Reg8::H}).execute(cpu);
            true
        },
        0x7D => {
            (BitBR{b:7,r:Reg8::L}).execute(cpu);
            true
        },
        0x7E => {
            (BitBMemHl{b:7}).execute(cpu);
            true
        },
        0x7F => {
            (BitBR{b:7,r:Reg8::A}).execute(cpu);
            true
        },
        0x80 => {
            (ResBR{b:0,r:Reg8::B}).execute(cpu);
            true
        },
        0x81 => {
            (ResBR{b:0,r:Reg8::C}).execute(cpu);
            true
        },
        0x82 => {
            (ResBR{b:0,r:Reg8::D}).execute(cpu);
            true
        },
        0x83 => {
            (ResBR{b:0,r:Reg8::E}).execute(cpu);
            true
        },
        0x84 => {
            (ResBR{b:0,r:Reg8::H}).execute(cpu);
            true
        },
        0x85 => {
            (ResBR{b:0,r:Reg8::L}).execute(cpu);
            true
        },
        0x86 => {
            (ResBMemHl{b:0}).execute(cpu);
            true
        },
        0x87 => {
            (ResBR{b:0,r:Reg8::A}).execute(cpu);
            true
        },
        0x88 => {
            (ResBR{b:1,r:Reg8::B}).execute(cpu);
            true
        },
        0x89 => {
            (ResBR{b:1,r:Reg8::C}).execute(cpu);
            true
        },
        0x8A => {
            (ResBR{b:1,r:Reg8::D}).execute(cpu);
            true
        },
        0x8B => {
            (ResBR{b:1,r:Reg8::E}).execute(cpu);
            true
        },
        0x8C => {
            (ResBR{b:1,r:Reg8::H}).execute(cpu);
            true
        },
        0x8D => {
            (ResBR{b:1,r:Reg8::L}).execute(cpu);
            true
        },
        0x8E => {
            (ResBMemHl{b:1}).execute(cpu);
            true
        },
        0x8F => {
            (ResBR{b:1,r:Reg8::A}).execute(cpu);
            true
        },
        0x90 => {
            (ResBR{b:2,r:Reg8::B}).execute(cpu);
            true
        },
        0x91 => {
            (ResBR{b:2,r:Reg8::C}).execute(cpu);
            true
        },
        0x92 => {
            (ResBR{b:2,r:Reg8::D}).execute(cpu);
            true
        },
        0x93 => {
            (ResBR{b:2,r:Reg8::E}).execute(cpu);
            true
        },
        0x94 => {
            (ResBR{b:2,r:Reg8::H}).execute(cpu);
            true
        },
        0x95 => {
            (ResBR{b:2,r:Reg8::L}).execute(cpu);
            true
        },
        0x96 => {
            (ResBMemHl{b:2}).execute(cpu);
            true
        },
        0x97 => {
            (ResBR{b:2,r:Reg8::A}).execute(cpu);
            true
        },
        0x98 => {
            (ResBR{b:3,r:Reg8::B}).execute(cpu);
            true
        },
        0x99 => {
            (ResBR{b:3,r:Reg8::C}).execute(cpu);
            true
        },
        0x9A => {
            (ResBR{b:3,r:Reg8::D}).execute(cpu);
            true
        },
        0x9B => {
            (ResBR{b:3,r:Reg8::E}).execute(cpu);
            true
        },
        0x9C => {
            (ResBR{b:3,r:Reg8::H}).execute(cpu);
            true
        },
        0x9D => {
            (ResBR{b:3,r:Reg8::L}).execute(cpu);
            true
        },
        0x9E => {
            (ResBMemHl{b:3}).execute(cpu);
            true
        },
        0x9F => {
            (ResBR{b:3,r:Reg8::A}).execute(cpu);
            true
        },
        0xA0 => {
            (ResBR{b:4,r:Reg8::B}).execute(cpu);
            true
        },
        0xA1 => {
            (ResBR{b:4,r:Reg8::C}).execute(cpu);
            true
        },
        0xA2 => {
            (ResBR{b:4,r:Reg8::D}).execute(cpu);
            true
        },
        0xA3 => {
            (ResBR{b:4,r:Reg8::E}).execute(cpu);
            true
        },
        0xA4 => {
            (ResBR{b:4,r:Reg8::H}).execute(cpu);
            true
        },
        0xA5 => {
            (ResBR{b:4,r:Reg8::L}).execute(cpu);
            true
        },
        0xA6 => {
            (ResBMemHl{b:4}).execute(cpu);
            true
        },
        0xA7 => {
            (ResBR{b:4,r:Reg8::A}).execute(cpu);
            true
        },
        0xA8 => {
            (ResBR{b:5,r:Reg8::B}).execute(cpu);
            true
        },
        0xA9 => {
            (ResBR{b:5,r:Reg8::C}).execute(cpu);
            true
        },
        0xAA => {
            (ResBR{b:5,r:Reg8::D}).execute(cpu);
            true
        },
        0xAB => {
            (ResBR{b:5,r:Reg8::E}).execute(cpu);
            true
        },
        0xAC => {
            (ResBR{b:5,r:Reg8::H}).execute(cpu);
            true
        },
        0xAD => {
            (ResBR{b:5,r:Reg8::L}).execute(cpu);
            true
        },
        0xAE => {
            (ResBMemHl{b:5}).execute(cpu);
            true
        },
        0xAF => {
            (ResBR{b:5,r:Reg8::A}).execute(cpu);
            true
        },
        0xB0 => {
            (ResBR{b:6,r:Reg8::B}).execute(cpu);
            true
        },
        0xB1 => {
            (ResBR{b:6,r:Reg8::C}).execute(cpu);
            true
        },
        0xB2 => {
            (ResBR{b:6,r:Reg8::D}).execute(cpu);
            true
        },
        0xB3 => {
            (ResBR{b:6,r:Reg8::E}).execute(cpu);
            true
        },
        0xB4 => {
            (ResBR{b:6,r:Reg8::H}).execute(cpu);
            true
        },
        0xB5 => {
            (ResBR{b:6,r:Reg8::L}).execute(cpu);
            true
        },
        0xB6 => {
            (ResBMemHl{b:6}).execute(cpu);
            true
        },
        0xB7 => {
            (ResBR{b:6,r:Reg8::A}).execute(cpu);
            true
        },
        0xB8 => {
            (ResBR{b:7,r:Reg8::B}).execute(cpu);
            true
        },
        0xB9 => {
            (ResBR{b:7,r:Reg8::C}).execute(cpu);
            true
        },
        0xBA => {
            (ResBR{b:7,r:Reg8::D}).execute(cpu);
            true
        },
        0xBB => {
            (ResBR{b:7,r:Reg8::E}).execute(cpu);
            true
        },
        0xBC => {
            (ResBR{b:7,r:Reg8::H}).execute(cpu);
            true
        },
        0xBD => {
            (ResBR{b:7,r:Reg8::L}).execute(cpu);
            true
        },
        0xBE => {
            (ResBMemHl{b:7}).execute(cpu);
            true
        },
        0xBF => {
            (ResBR{b:7,r:Reg8::A}).execute(cpu);
            true
        },
        0xC0 => {
            (SetBR{b:0,r:Reg8::B}).execute(cpu);
            true
        },
        0xC1 => {
            (SetBR{b:0,r:Reg8::C}).execute(cpu);
            true
        },
        0xC2 => {
            (SetBR{b:0,r:Reg8::D}).execute(cpu);
            true
        },
        0xC3 => {
            (SetBR{b:0,r:Reg8::E}).execute(cpu);
            true
        },
        0xC4 => {
            (SetBR{b:0,r:Reg8::H}).execute(cpu);
            true
        },
        0xC5 => {
            (SetBR{b:0,r:Reg8::L}).execute(cpu);
            true
        },
        0xC6 => {
            (SetBMemHl{b:0}).execute(cpu);
            true
        },
        0xC7 => {
            (SetBR{b:0,r:Reg8::A}).execute(cpu);
            true
        },
        0xC8 => {
            (SetBR{b:1,r:Reg8::B}).execute(cpu);
            true
        },
        0xC9 => {
            (SetBR{b:1,r:Reg8::C}).execute(cpu);
            true
        },
        0xCA => {
            (SetBR{b:1,r:Reg8::D}).execute(cpu);
            true
        },
        0xCB => {
            (SetBR{b:1,r:Reg8::E}).execute(cpu);
            true
        },
        0xCC => {
            (SetBR{b:1,r:Reg8::H}).execute(cpu);
            true
        },
        0xCD => {
            (SetBR{b:1,r:Reg8::L}).execute(cpu);
            true
        },
        0xCE => {
            (SetBMemHl{b:1}).execute(cpu);
            true
        },
        0xCF => {
            (SetBR{b:1,r:Reg8::A}).execute(cpu);
            true
        },
        0xD0 => {
            (SetBR{b:2,r:Reg8::B}).execute(cpu);
            true
        },
        0xD1 => {
            (SetBR{b:2,r:Reg8::C}).execute(cpu);
            true
        },
        0xD2 => {
            (SetBR{b:2,r:Reg8::D}).execute(cpu);
            true
        },
        0xD3 => {
            (SetBR{b:2,r:Reg8::E}).execute(cpu);
            true
        },
        0xD4 => {
            (SetBR{b:2,r:Reg8::H}).execute(cpu);
            true
        },
        0xD5 => {
            (SetBR{b:2,r:Reg8::L}).execute(cpu);
            true
        },
        0xD6 => {
            (SetBMemHl{b:2}).execute(cpu);
            true
        },
        0xD7 => {
            (SetBR{b:2,r:Reg8::A}).execute(cpu);
            true
        },
        0xD8 => {
            (SetBR{b:3,r:Reg8::B}).execute(cpu);
            true
        },
        0xD9 => {
            (SetBR{b:3,r:Reg8::C}).execute(cpu);
            true
        },
        0xDA => {
            (SetBR{b:3,r:Reg8::D}).execute(cpu);
            true
        },
        0xDB => {
            (SetBR{b:3,r:Reg8::E}).execute(cpu);
            true
        },
        0xDC => {
            (SetBR{b:3,r:Reg8::H}).execute(cpu);
            true
        },
        0xDD => {
            (SetBR{b:3,r:Reg8::L}).execute(cpu);
            true
        },
        0xDE => {
            (SetBMemHl{b:3}).execute(cpu);
            true
        },
        0xDF => {
            (SetBR{b:3,r:Reg8::A}).execute(cpu);
            true
        },
        0xE0 => {
            (SetBR{b:4,r:Reg8::B}).execute(cpu);
            true
        },
        0xE1 => {
            (SetBR{b:4,r:Reg8::C}).execute(cpu);
            true
        },
        0xE2 => {
            (SetBR{b:4,r:Reg8::D}).execute(cpu);
            true
        },
        0xE3 => {
            (SetBR{b:4,r:Reg8::E}).execute(cpu);
            true
        },
        0xE4 => {
            (SetBR{b:4,r:Reg8::H}).execute(cpu);
            true
        },
        0xE5 => {
            (SetBR{b:4,r:Reg8::L}).execute(cpu);
            true
        },
        0xE6 => {
            (SetBMemHl{b:4}).execute(cpu);
            true
        },
        0xE7 => {
            (SetBR{b:4,r:Reg8::A}).execute(cpu);
            true
        },
        0xE8 => {
            (SetBR{b:5,r:Reg8::B}).execute(cpu);
            true
        },
        0xE9 => {
            (SetBR{b:5,r:Reg8::C}).execute(cpu);
            true
        },
        0xEA => {
            (SetBR{b:5,r:Reg8::D}).execute(cpu);
            true
        },
        0xEB => {
            (SetBR{b:5,r:Reg8::E}).execute(cpu);
            true
        },
        0xEC => {
            (SetBR{b:5,r:Reg8::H}).execute(cpu);
            true
        },
        0xED => {
            (SetBR{b:5,r:Reg8::L}).execute(cpu);
            true
        },
        0xEE => {
            (SetBMemHl{b:5}).execute(cpu);
            true
        },
        0xEF => {
            (SetBR{b:5,r:Reg8::A}).execute(cpu);
            true
        },
        0xF0 => {
            (SetBR{b:6,r:Reg8::B}).execute(cpu);
            true
        },
        0xF1 => {
            (SetBR{b:6,r:Reg8::C}).execute(cpu);
            true
        },
        0xF2 => {
            (SetBR{b:6,r:Reg8::D}).execute(cpu);
            true
        },
        0xF3 => {
            (SetBR{b:6,r:Reg8::E}).execute(cpu);
            true
        },
        0xF4 => {
            (SetBR{b:6,r:Reg8::H}).execute(cpu);
            true
        },
        0xF5 => {
            (SetBR{b:6,r:Reg8::L}).execute(cpu);
            true
        },
        0xF6 => {
            (SetBMemHl{b:6}).execute(cpu);
            true
        },
        0xF7 => {
            (SetBR{b:6,r:Reg8::A}).execute(cpu);
            true
        },
        0xF8 => {
            (SetBR{b:7,r:Reg8::B}).execute(cpu);
            true
        },
        0xF9 => {
            (SetBR{b:7,r:Reg8::C}).execute(cpu);
            true
        },
        0xFA => {
            (SetBR{b:7,r:Reg8::D}).execute(cpu);
            true
        },
        0xFB => {
            (SetBR{b:7,r:Reg8::E}).execute(cpu);
            true
        },
        0xFC => {
            (SetBR{b:7,r:Reg8::H}).execute(cpu);
            true
        },
        0xFD => {
            (SetBR{b:7,r:Reg8::L}).execute(cpu);
            true
        },
        0xFE => {
            (SetBMemHl{b:7}).execute(cpu);
            true
        },
        0xFF => {
            (SetBR{b:7,r:Reg8::A}).execute(cpu);
            true
        },
    }
}

/// The registers the debugger shows around the instruction for `op`;
/// none for an opcode the table lacks.
#[verifier::opaque]
pub open spec fn cb_accessed(op: u8) -> (OutputRegisters, OutputRegisters) {
    match op {
        0x00u8 => (RlcR{r:Reg8::B}).accessed(),
        0x01u8 => (RlcR{r:Reg8::C}).accessed(),
        0x02u8 => (RlcR{r:Reg8::D}).accessed(),
        0x03u8 => (RlcR{r:Reg8::E}).accessed(),
        0x04u8 => (RlcR{r:Reg8::H}).accessed(),
        0x05u8 => (RlcR{r:Reg8::L}).accessed(),
        0x06u8 => (RlcMemHl).accessed(),
        0x07u8 => (RlcR{r:Reg8::A}).accessed(),
        0x08u8 => (RrcR{r:Reg8::B}).accessed(),
        0x09u8 => (RrcR{r:Reg8::C}).accessed(),
        0x0Au8 => (RrcR{r:Reg8::D}).accessed(),
        0x0Bu8 => (RrcR{r:Reg8::E}).accessed(),
        0x0Cu8 => (RrcR{r:Reg8::H}).accessed(),
        0x0Du8 => (RrcR{r:Reg8::L}).accessed(),
        0x0Eu8 => (RrcMemHl).accessed(),
        0x0Fu8 => (RrcR{r:Reg8::A}).accessed(),
        0x10u8 => (RlR{r:Reg8::B}).accessed(),
        0x11u8 => (RlR{r:Reg8::C}).accessed(),
        0x12u8 => (RlR{r:Reg8::D}).accessed(),
        0x13u8 => (RlR{r:Reg8::E}).accessed(),
        0x14u8 => (RlR{r:Reg8::H}).accessed(),
        0x15u8 => (RlR{r:Reg8::L}).accessed(),
        0x16u8 => (RlMemHl).accessed(),
        0x17u8 => (RlR{r:Reg8::A}).accessed(),
        0x18u8 => (RrR{r:Reg8::B}).accessed(),
        0x19u8 => (RrR{r:Reg8::C}).accessed(),
        0x1Au8 => (RrR{r:Reg8::D}).accessed(),
        0x1Bu8 => (RrR{r:Reg8::E}).accessed(),
        0x1Cu8 => (RrR{r:Reg8::H}).accessed(),
        0x1Du8 => (RrR{r:Reg8::L}).accessed(),
        0x1Eu8 => (RrMemHl).accessed(),
        0x1Fu8 => (RrR{r:Reg8::A}).accessed(),
        0x20u8 => (SlaR{r:Reg8::B}).accessed(),
        0x21u8 => (SlaR{r:Reg8::C}).accessed(),
        0x22u8 => (SlaR{r:Reg8::D}).accessed(),
        0x23u8 => (SlaR{r:Reg8::E}).accessed(),
        0x24u8 => (SlaR{r:Reg8::H}).accessed(),
        0x25u8 => (SlaR{r:Reg8::L}).accessed(),
        0x26u8 => (SlaMemHl).accessed(),
        0x27u8 => (SlaR{r:Reg8::A}).accessed(),
        0x28u8 => (SraR{r:Reg8::B}).accessed(),
        0x29u8 => (SraR{r:Reg8::C}).accessed(),
        0x2Au8 => (SraR{r:Reg8::D}).accessed(),
        0x2Bu8 => (SraR{r:Reg8::E}).accessed(),
        0x2Cu8 => (SraR{r:Reg8::H}).accessed(),
        0x2Du8 => (SraR{r:Reg8::L}).accessed(),
        0x2Eu8 => (SraMemHl).accessed(),
        0x2Fu8 => (SraR{r:Reg8::A}).accessed(),
        0x30u8 => (SllR{r:Reg8::B}).accessed(),
        0x31u8 => (SllR{r:Reg8::C}).accessed(),
        0x32u8 => (SllR{r:Reg8::D}).accessed(),
        0x33u8 => (SllR{r:Reg8::E}).accessed(),
        0x34u8 => (SllR{r:Reg8::H}).accessed(),
        0x35u8 => (SllR{r:Reg8::L}).accessed(),
        0x36u8 => (SllMemHl).accessed(),
        0x37u8 => (SllR{r:Reg8::A}).accessed(),
        0x38u8 => (SrlR{r:Reg8::B}).accessed(),
        0x39u8 => (SrlR{r:Reg8::C}).accessed(),
        0x3Au8 => (SrlR{r:Reg8::D}).accessed(),
        0x3Bu8 => (SrlR{r:Reg8::E}).accessed(),
        0x3Cu8 => (SrlR{r:Reg8::H}).accessed(),
        0x3Du8 => (SrlR{r:Reg8::L}).accessed(),
        0x3Eu8 => (SrlMemHl).accessed(),
        0x3Fu8 => (SrlR{r:Reg8::A}).accessed(),
        0x40u8 => (BitBR{b:0,r:Reg8::B}).accessed(),
        0x41u8 => (BitBR{b:0,r:Reg8::C}).accessed(),
        0x42u8 => (BitBR{b:0,r:Reg8::D}).accessed(),
        0x43u8 => (BitBR{b:0,r:Reg8::E}).accessed(),
        0x44u8 => (BitBR{b:0,r:Reg8::H}).accessed(),
        0x45u8 => (BitBR{b:0,r:Reg8::L}).accessed(),
        0x46u8 => (BitBMemHl{b:0}).accessed(),
        0x47u8 => (BitBR{b:0,r:Reg8::A}).accessed(),
        0x48u8 => (BitBR{b:1,r:Reg8::B}).accessed(),
        0x49u8 => (BitBR{b:1,r:Reg8::C}).accessed(),
        0x4Au8 => (BitBR{b:1,r:Reg8::D}).accessed(),
        0x4Bu8 => (BitBR{b:1,r:Reg8::E}).accessed(),
        0x4Cu8 => (BitBR{b:1,r:Reg8::H}).accessed(),
        0x4Du8 => (BitBR{b:1,r:Reg8::L}).accessed(),
        0x4Eu8 => (BitBMemHl{b:1}).accessed(),
        0x4Fu8 => (BitBR{b:1,r:Reg8::A}).accessed(),
        0x50u8 => (BitBR{b:2,r:Reg8::B}).accessed(),
        0x51u8 => (BitBR{b:2,r:Reg8::C}).accessed(),
        0x52u8 => (BitBR{b:2,r:Reg8::D}).accessed(),
        0x53u8 => (BitBR{b:2,r:Reg8::E}).accessed(),
        0x54u8 => (BitBR{b:2,r:Reg8::H}).accessed(),
        0x55u8 => (BitBR{b:2,r:Reg8::L}).accessed(),
        0x56u8 => (BitBMemHl{b:2}).accessed(),
        0x57u8 => (BitBR{b:2,r:Reg8::A}).accessed(),
        0x58u8 => (BitBR{b:3,r:Reg8::B}).accessed(),
        0x59u8 => (BitBR{b:3,r:Reg8::C}).accessed(),
        0x5Au8 => (BitBR{b:3,r:Reg8::D}).accessed(),
        0x5Bu8 => (BitBR{b:3,r:Reg8::E}).accessed(),
        0x5Cu8 => (BitBR{b:3,r:Reg8::H}).accessed(),
        0x5Du8 => (BitBR{b:3,r:Reg8::L}).accessed(),
        0x5Eu8 => (BitBMemHl{b:3}).accessed(),
        0x5Fu8 => (BitBR{b:3,r:Reg8::A}).accessed(),
        0x60u8 => (BitBR{b:4,r:Reg8::B}).accessed(),
        0x61u8 => (BitBR{b:4,r:Reg8::C}).accessed(),
        0x62u8 => (BitBR{b:4,r:Reg8::D}).accessed(),
        0x63u8 => (BitBR{b:4,r:Reg8::E}).accessed(),
        0x64u8 => (BitBR{b:4,r:Reg8::H}).accessed(),
        0x65u8 => (BitBR{b:4,r:Reg8::L}).accessed(),
        0x66u8 => (BitBMemHl{b:4}).accessed(),
        0x67u8 => (BitBR{b:4,r:Reg8::A}).accessed(),
        0x68u8 => (BitBR{b:5,r:Reg8::B}).accessed(),
        0x69u8 => (BitBR{b:5,r:Reg8::C}).accessed(),
        0x6Au8 => (BitBR{b:5,r:Reg8::D}).accessed(),
        0x6Bu8 => (BitBR{b:5,r:Reg8::E}).accessed(),
        0x6Cu8 => (BitBR{b:5,r:Reg8::H}).accessed(),
        0x6Du8 => (BitBR{b:5,r:Reg8::L}).accessed(),
        0x6Eu8 => (BitBMemHl{b:5}).accessed(),
        0x6Fu8 => (BitBR{b:5,r:Reg8::A}).accessed(),
        0x70u8 => (BitBR{b:6,r:Reg8::B}).accessed(),
        0x71u8 => (BitBR{b:6,r:Reg8::C}).accessed(),
        0x72u8 => (BitBR{b:6,r:Reg8::D}).accessed(),
        0x73u8 => (BitBR{b:6,r:Reg8::E}).accessed(),
        0x74u8 => (BitBR{b:6,r:Reg8::H}).accessed(),
        0x75u8 => (BitBR{b:6,r:Reg8::L}).accessed(),
        0x76u8 => (BitBMemHl{b:6}).accessed(),
        0x77u8 => (BitBR{b:6,r:Reg8::A}).accessed(),
        0x78u8 => (BitBR{b:7,r:Reg8::B}).accessed(),
        0x79u8 => (BitBR{b:7,r:Reg8::C}).accessed(),
        0x7Au8 => (BitBR{b:7,r:Reg8::D}).accessed(),
        0x7Bu8 => (BitBR{b:7,r:Reg8::E}).accessed(),
        0x7Cu8 => (BitBR{b:7,r:Reg8::H}).accessed(),
        0x7Du8 => (BitBR{b:7,r:Reg8::L}).accessed(),
        0x7Eu8 => (BitBMemHl{b:7}).accessed(),
        0x7Fu8 => (BitBR{b:7,r:Reg8::A}).accessed(),
        0x80u8 => (ResBR{b:0,r:Reg8::B}).accessed(),
        0x81u8 => (ResBR{b:0,r:Reg8::C}).accessed(),
        0x82u8 => (ResBR{b:0,r:Reg8::D}).accessed(),
        0x83u8 => (ResBR{b:0,r:Reg8::E}).accessed(),
        0x84u8 => (ResBR{b:0,r:Reg8::H}).accessed(),
        0x85u8 => (ResBR{b:0,r:Reg8::L}).accessed(),
        0x86u8 => (ResBMemHl{b:0}).accessed(),
        0x87u8 => (ResBR{b:0,r:Reg8::A}).accessed(),
        0x88u8 => (ResBR{b:1,r:Reg8::B}).accessed(),
        0x89u8 => (ResBR{b:1,r:Reg8::C}).accessed(),
        0x8Au8 => (ResBR{b:1,r:Reg8::D}).accessed(),
        0x8Bu8 => (ResBR{b:1,r:Reg8::E}).accessed(),
        0x8Cu8 => (ResBR{b:1,r:Reg8::H}).accessed(),
        0x8Du8 => (ResBR{b:1,r:Reg8::L}).accessed(),
        0x8Eu8 => (ResBMemHl{b:1}).accessed(),
        0x8Fu8 => (ResBR{b:1,r:Reg8::A}).accessed(),
        0x90u8 => (ResBR{b:2,r:Reg8::B}).accessed(),
        0x91u8 => (ResBR{b:2,r:Reg8::C}).accessed(),
        0x92u8 => (ResBR{b:2,r:Reg8::D}).accessed(),
        0x93u8 => (ResBR{b:2,r:Reg8::E}).accessed(),
        0x94u8 => (ResBR{b:2,r:Reg8::H}).accessed(),
        0x95u8 => (ResBR{b:2,r:Reg8::L}).accessed(),
        0x96u8 => (ResBMemHl{b:2}).accessed(),
        0x97u8 => (ResBR{b:2,r:Reg8::A}).accessed(),
        0x98u8 => (ResBR{b:3,r:Reg8::B}).accessed(),
        0x99u8 => (ResBR{b:3,r:Reg8::C}).accessed(),
        0x9Au8 => (ResBR{b:3,r:Reg8::D}).accessed(),
        0x9Bu8 => (ResBR{b:3,r:Reg8::E}).accessed(),
        0x9Cu8 => (ResBR{b:3,r:Reg8::H}).accessed(),
        0x9Du8 => (ResBR{b:3,r:Reg8::L}).accessed(),
        0x9Eu8 => (ResBMemHl{b:3}).accessed(),
        0x9Fu8 => (ResBR{b:3,r:Reg8::A}).accessed(),
        0xA0u8 => (ResBR{b:4,r:Reg8::B}).accessed(),
        0xA1u8 => (ResBR{b:4,r:Reg8::C}).accessed(),
        0xA2u8 => (ResBR{b:4,r:Reg8::D}).accessed(),
        0xA3u8 => (ResBR{b:4,r:Reg8::E}).accessed(),
        0xA4u8 => (ResBR{b:4,r:Reg8::H}).accessed(),
        0xA5u8 => (ResBR{b:4,r:Reg8::L}).accessed(),
        0xA6u8 => (ResBMemHl{b:4}).accessed(),
        0xA7u8 => (ResBR{b:4,r:Reg8::A}).accessed(),
        0xA8u8 => (ResBR{b:5,r:Reg8::B}).accessed(),
        0xA9u8 => (ResBR{b:5,r:Reg8::C}).accessed(),
        0xAAu8 => (ResBR{b:5,r:Reg8::D}).accessed(),
        0xABu8 => (ResBR{b:5,r:Reg8::E}).accessed(),
        0xACu8 => (ResBR{b:5,r:Reg8::H}).accessed(),
        0xADu8 => (ResBR{b:5,r:Reg8::L}).accessed(),
        0xAEu8 => (ResBMemHl{b:5}).accessed(),
        0xAFu8 => (ResBR{b:5,r:Reg8::A}).accessed(),
        0xB0u8 => (ResBR{b:6,r:Reg8::B}).accessed(),
        0xB1u8 => (ResBR{b:6,r:Reg8::C}).accessed(),
        0xB2u8 => (ResBR{b:6,r:Reg8::D}).accessed(),
        0xB3u8 => (ResBR{b:6,r:Reg8::E}).accessed(),
        0xB4u8 => (ResBR{b:6,r:Reg8::H}).accessed(),
        0xB5u8 => (ResBR{b:6,r:Reg8::L}).accessed(),
        0xB6u8 => (ResBMemHl{b:6}).accessed(),
        0xB7u8 => (ResBR{b:6,r:Reg8::A}).accessed(),
        0xB8u8 => (ResBR{b:7,r:Reg8::B}).accessed(),
        0xB9u8 => (ResBR{b:7,r:Reg8::C}).accessed(),
        0xBAu8 => (ResBR{b:7,r:Reg8::D}).accessed(),
        0xBBu8 => (ResBR{b:7,r:Reg8::E}).accessed(),
        0xBCu8 => (ResBR{b:7,r:Reg8::H}).accessed(),
        0xBDu8 => (ResBR{b:7,r:Reg8::L}).accessed(),
        0xBEu8 => (ResBMemHl{b:7}).accessed(),
        0xBFu8 => (ResBR{b:7,r:Reg8::A}).accessed(),
        0xC0u8 => (SetBR{b:0,r:Reg8::B}).accessed(),
        0xC1u8 => (SetBR{b:0,r:Reg8::C}).accessed(),
        0xC2u8 => (SetBR{b:0,r:Reg8::D}).accessed(),
        0xC3u8 => (SetBR{b:0,r:Reg8::E}).accessed(),
        0xC4u8 => (SetBR{b:0,r:Reg8::H}).accessed(),
        0xC5u8 => (SetBR{b:0,r:Reg8::L}).accessed(),
        0xC6u8 => (SetBMemHl{b:0}).accessed(),
        0xC7u8 => (SetBR{b:0,r:Reg8::A}).accessed(),
        0xC8u8 => (SetBR{b:1,r:Reg8::B}).accessed(),
        0xC9u8 => (SetBR{b:1,r:Reg8::C}).accessed(),
        0xCAu8 => (SetBR{b:1,r:Reg8::D}).accessed(),
        0xCBu8 => (SetBR{b:1,r:Reg8::E}).accessed(),
        0xCCu8 => (SetBR{b:1,r:Reg8::H}).accessed(),
        0xCDu8 => (SetBR{b:1,r:Reg8::L}).accessed(),
        0xCEu8 => (SetBMemHl{b:1}).accessed(),
        0xCFu8 => (SetBR{b:1,r:Reg8::A}).accessed(),
        0xD0u8 => (SetBR{b:2,r:Reg8::B}).accessed(),
        0xD1u8 => (SetBR{b:2,r:Reg8::C}).accessed(),
        0xD2u8 => (SetBR{b:2,r:Reg8::D}).accessed(),
        0xD3u8 => (SetBR{b:2,r:Reg8::E}).accessed(),
        0xD4u8 => (SetBR{b:2,r:Reg8::H}).accessed(),
        0xD5u8 => (SetBR{b:2,r:Reg8::L}).accessed(),
        0xD6u8 => (SetBMemHl{b:2}).accessed(),
        0xD7u8 => (SetBR{b:2,r:Reg8::A}).accessed(),
        0xD8u8 => (SetBR{b:3,r:Reg8::B}).accessed(),
        0xD9u8 => (SetBR{b:3,r:Reg8::C}).accessed(),
        0xDAu8 => (SetBR{b:3,r:Reg8::D}).accessed(),
        0xDBu8 => (SetBR{b:3,r:Reg8::E}).accessed(),
        0xDCu8 => (SetBR{b:3,r:Reg8::H}).accessed(),
        0xDDu8 => (SetBR{b:3,r:Reg8::L}).accessed(),
        0xDEu8 => (SetBMemHl{b:3}).accessed(),
        0xDFu8 => (SetBR{b:3,r:Reg8::A}).accessed(),
        0xE0u8 => (SetBR{b:4,r:Reg8::B}).accessed(),
        0xE1u8 => (SetBR{b:4,r:Reg8::C}).accessed(),
        0xE2u8 => (SetBR{b:4,r:Reg8::D}).accessed(),
        0xE3u8 => (SetBR{b:4,r:Reg8::E}).accessed(),
        0xE4u8 => (SetBR{b:4,r:Reg8::H}).accessed(),
        0xE5u8 => (SetBR{b:4,r:Reg8::L}).accessed(),
        0xE6u8 => (SetBMemHl{b:4}).accessed(),
        0xE7u8 => (SetBR{b:4,r:Reg8::A}).accessed(),
        0xE8u8 => (SetBR{b:5,r:Reg8::B}).accessed(),
        0xE9u8 => (SetBR{b:5,r:Reg8::C}).accessed(),
        0xEAu8 => (SetBR{b:5,r:Reg8::D}).accessed(),
        0xEBu8 => (SetBR{b:5,r:Reg8::E}).accessed(),
        0xECu8 => (SetBR{b:5,r:Reg8::H}).accessed(),
        0xEDu8 => (SetBR{b:5,r:Reg8::L}).accessed(),
        0xEEu8 => (SetBMemHl{b:5}).accessed(),
        0xEFu8 => (SetBR{b:5,r:Reg8::A}).accessed(),
        0xF0u8 => (SetBR{b:6,r:Reg8::B}).accessed(),
        0xF1u8 => (SetBR{b:6,r:Reg8::C}).accessed(),
        0xF2u8 => (SetBR{b:6,r:Reg8::D}).accessed(),
        0xF3u8 => (SetBR{b:6,r:Reg8::E}).accessed(),
        0xF4u8 => (SetBR{b:6,r:Reg8::H}).accessed(),
        0xF5u8 => (SetBR{b:6,r:Reg8::L}).accessed(),
        0xF6u8 => (SetBMemHl{b:6}).accessed(),
        0xF7u8 => (SetBR{b:6,r:Reg8::A}).accessed(),
        0xF8u8 => (SetBR{b:7,r:Reg8::B}).accessed(),
        0xF9u8 => (SetBR{b:7,r:Reg8::C}).accessed(),
        0xFAu8 => (SetBR{b:7,r:Reg8::D}).accessed(),
        0xFBu8 => (SetBR{b:7,r:Reg8::E}).accessed(),
        0xFCu8 => (SetBR{b:7,r:Reg8::H}).accessed(),
        0xFDu8 => (SetBR{b:7,r:Reg8::L}).accessed(),
        0xFEu8 => (SetBMemHl{b:7}).accessed(),
        0xFFu8 => (SetBR{b:7,r:Reg8::A}).accessed(),
    }
}

/// The registers the debugger shows around the instruction for `op`.
pub fn accessed_regs_cb(op: u8) -> (regs: (OutputRegisters, OutputRegisters))
    ensures
        regs == cb_accessed(op),
{
    proof {
        reveal(cb_accessed);
    }
    match op {
        0x00 => (RlcR{r:Reg8::B}).get_accessed_regs(),
        0x01 => (RlcR{r:Reg8::C}).get_accessed_regs(),
        0x02 => (RlcR{r:Reg8::D}).get_accessed_regs(),
        0x03 => (RlcR{r:Reg8::E}).get_accessed_regs(),
        0x04 => (RlcR{r:Reg8::H}).get_accessed_regs(),
        0x05 => (RlcR{r:Reg8::L}).get_accessed_regs(),
        0x06 => (RlcMemHl).get_accessed_regs(),
        0x07 => (RlcR{r:Reg8::A}).get_accessed_regs(),
        0x08 => (RrcR{r:Reg8::B}).get_accessed_regs(),
        0x09 => (RrcR{r:Reg8::C}).get_accessed_regs(),
        0x0A => (RrcR{r:Reg8::D}).get_accessed_regs(),
        0x0B => (RrcR{r:Reg8::E}).get_accessed_regs(),
        0x0C => (RrcR{r:Reg8::H}).get_accessed_regs(),
        0x0D => (RrcR{r:Reg8::L}).get_accessed_regs(),
        0x0E => (RrcMemHl).get_accessed_regs(),
        0x0F => (RrcR{r:Reg8::A}).get_accessed_regs(),
        0x10 => (RlR{r:Reg8::B}).get_accessed_regs(),
        0x11 => (RlR{r:Reg8::C}).get_accessed_regs(),
        0x12 => (RlR{r:Reg8::D}).get_accessed_regs(),
        0x13 => (RlR{r:Reg8::E}).get_accessed_regs(),
        0x14 => (RlR{r:Reg8::H}).get_accessed_regs(),
        0x15 => (RlR{r:Reg8::L}).get_accessed_regs(),
        0x16 => (RlMemHl).get_accessed_regs(),
        0x17 => (RlR{r:Reg8::A}).get_accessed_regs(),
        0x18 => (RrR{r:Reg8::B}).get_accessed_regs(),
        0x19 => (RrR{r:Reg8::C}).get_accessed_regs(),
        0x1A => (RrR{r:Reg8::D}).get_accessed_regs(),
        0x1B => (RrR{r:Reg8::E}).get_accessed_regs(),
        0x1C => (RrR{r:Reg8::H}).get_accessed_regs(),
        0x1D => (RrR{r:Reg8::L}).get_accessed_regs(),
        0x1E => (RrMemHl).get_accessed_regs(),
        0x1F => (RrR{r:Reg8::A}).get_accessed_regs(),
        0x20 => (SlaR{r:Reg8::B}).get_accessed_regs(),
        0x21 => (SlaR{r:Reg8::C}).get_accessed_regs(),
        0x22 => (SlaR{r:Reg8::D}).get_accessed_regs(),
        0x23 => (SlaR{r:Reg8::E}).get_accessed_regs(),
        0x24 => (SlaR{r:Reg8::H}).get_accessed_regs(),
        0x25 => (SlaR{r:Reg8::L}).get_accessed_regs(),
        0x26 => (SlaMemHl).get_accessed_regs(),
        0x27 => (SlaR{r:Reg8::A}).get_accessed_regs(),
        0x28 => (SraR{r:Reg8::B}).get_accessed_regs(),
        0x29 => (SraR{r:Reg8::C}).get_accessed_regs(),
        0x2A => (SraR{r:Reg8::D}).get_accessed_regs(),
        0x2B => (SraR{r:Reg8::E}).get_accessed_regs(),
        0x2C => (SraR{r:Reg8::H}).get_accessed_regs(),
        0x2D => (SraR{r:Reg8::L}).get_accessed_regs(),
        0x2E => (SraMemHl).get_accessed_regs(),
        0x2F => (SraR{r:Reg8::A}).get_accessed_regs(),
        0x30 => (SllR{r:Reg8::B}).get_accessed_regs(),
        0x31 => (SllR{r:Reg8::C}).get_accessed_regs(),
        0x32 => (SllR{r:Reg8::D}).get_accessed_regs(),
        0x33 => (SllR{r:Reg8::E}).get_accessed_regs(),
        0x34 => (SllR{r:Reg8::H}).get_accessed_regs(),
        0x35 => (SllR{r:Reg8::L}).get_accessed_regs(),
        0x36 => (SllMemHl).get_accessed_regs(),
        0x37 => (SllR{r:Reg8::A}).get_accessed_regs(),
        0x38 => (SrlR{r:Reg8::B}).get_accessed_regs(),
        0x39 => (SrlR{r:Reg8::C}).get_accessed_regs(),
        0x3A => (SrlR{r:Reg8::D}).get_accessed_regs(),
        0x3B => (SrlR{r:Reg8::E}).get_accessed_regs(),
        0x3C => (SrlR{r:Reg8::H}).get_accessed_regs(),
        0x3D => (SrlR{r:Reg8::L}).get_accessed_regs(),
        0x3E => (SrlMemHl).get_accessed_regs(),
        0x3F => (SrlR{r:Reg8::A}).get_accessed_regs(),
        0x40 => (BitBR{b:0,r:Reg8::B}).get_accessed_regs(),
        0x41 => (BitBR{b:0,r:Reg8::C}).get_accessed_regs(),
        0x42 => (BitBR{b:0,r:Reg8::D}).get_accessed_regs(),
        0x43 => (BitBR{b:0,r:Reg8::E}).get_accessed_regs(),
        0x44 => (BitBR{b:0,r:Reg8::H}).get_accessed_regs(),
        0x45 => (BitBR{b:0,r:Reg8::L}).get_accessed_regs(),
        0x46 => (BitBMemHl{b:0}).get_accessed_regs(),
        0x47 => (BitBR{b:0,r:Reg8::A}).get_accessed_regs(),
        0x48 => (BitBR{b:1,r:Reg8::B}).get_accessed_regs(),
        0x49 => (BitBR{b:1,r:Reg8::C}).get_accessed_regs(),
        0x4A => (BitBR{b:1,r:Reg8::D}).get_accessed_regs(),
        0x4B => (BitBR{b:1,r:Reg8::E}).get_accessed_regs(),
        0x4C => (BitBR{b:1,r:Reg8::H}).get_accessed_regs(),
        0x4D => (BitBR{b:1,r:Reg8::L}).get_accessed_regs(),
        0x4E => (BitBMemHl{b:1}).get_accessed_regs(),
        0x4F => (BitBR{b:1,r:Reg8::A}).get_accessed_regs(),
        0x50 => (BitBR{b:2,r:Reg8::B}).get_accessed_regs(),
        0x51 => (BitBR{b:2,r:Reg8::C}).get_accessed_regs(),
        0x52 => (BitBR{b:2,r:Reg8::D}).get_accessed_regs(),
        0x53 => (BitBR{b:2,r:Reg8::E}).get_accessed_regs(),
        0x54 => (BitBR{b:2,r:Reg8::H}).get_accessed_regs(),
        0x55 => (BitBR{b:2,r:Reg8::L}).get_accessed_regs(),
        0x56 => (BitBMemHl{b:2}).get_accessed_regs(),
        0x57 => (BitBR{b:2,r:Reg8::A}).get_accessed_regs(),
        0x58 => (BitBR{b:3,r:Reg8::B}).get_accessed_regs(),
        0x59 => (BitBR{b:3,r:Reg8::C}).get_accessed_regs(),
        0x5A => (BitBR{b:3,r:Reg8::D}).get_accessed_regs(),
        0x5B => (BitBR{b:3,r:Reg8::E}).get_accessed_regs(),
        0x5C => (BitBR{b:3,r:Reg8::H}).get_accessed_regs(),
        0x5D => (BitBR{b:3,r:Reg8::L}).get_accessed_regs(),
        0x5E => (BitBMemHl{b:3}).get_accessed_regs(),
        0x5F => (BitBR{b:3,r:Reg8::A}).get_accessed_regs(),
        0x60 => (BitBR{b:4,r:Reg8::B}).get_accessed_regs(),
        0x61 => (BitBR{b:4,r:Reg8::C}).get_accessed_regs(),
        0x62 => (BitBR{b:4,r:Reg8::D}).get_accessed_regs(),
        0x63 => (BitBR{b:4,r:Reg8::E}).get_accessed_regs(),
        0x64 => (BitBR{b:4,r:Reg8::H}).get_accessed_regs(),
        0x65 => (BitBR{b:4,r:Reg8::L}).get_accessed_regs(),
        0x66 => (BitBMemHl{b:4}).get_accessed_regs(),
        0x67 => (BitBR{b:4,r:Reg8::A}).get_accessed_regs(),
        0x68 => (BitBR{b:5,r:Reg8::B}).get_accessed_regs(),
        0x69 => (BitBR{b:5,r:Reg8::C}).get_accessed_regs(),
        0x6A => (BitBR{b:5,r:Reg8::D}).get_accessed_regs(),
        0x6B => (BitBR{b:5,r:Reg8::E}).get_accessed_regs(),
        0x6C => (BitBR{b:5,r:Reg8::H}).get_accessed_regs(),
        0x6D => (BitBR{b:5,r:Reg8::L}).get_accessed_regs(),
        0x6E => (BitBMemHl{b:5}).get_accessed_regs(),
        0x6F => (BitBR{b:5,r:Reg8::A}).get_accessed_regs(),
        0x70 => (BitBR{b:6,r:Reg8::B}).get_accessed_regs(),
        0x71 => (BitBR{b:6,r:Reg8::C}).get_accessed_regs(),
        0x72 => (BitBR{b:6,r:Reg8::D}).get_accessed_regs(),
        0x73 => (BitBR{b:6,r:Reg8::E}).get_accessed_regs(),
        0x74 => (BitBR{b:6,r:Reg8::H}).get_accessed_regs(),
        0x75 => (BitBR{b:6,r:Reg8::L}).get_accessed_regs(),
        0x76 => (BitBMemHl{b:6}).get_accessed_regs(),
        0x77 => (BitBR{b:6,r:Reg8::A}).get_accessed_regs(),
        0x78 => (BitBR{b:7,r:Reg8::B}).get_accessed_regs(),
        0x79 => (BitBR{b:7,r:Reg8::C}).get_accessed_regs(),
        0x7A => (BitBR{b:7,r:Reg8::D}).get_accessed_regs(),
        0x7B => (BitBR{b:7,r:Reg8::E}).get_accessed_regs(),
        0x7C => (BitBR{b:7,r:Reg8::H}).get_accessed_regs(),
        0x7D => (BitBR{b:7,r:Reg8::L}).get_accessed_regs(),
        0x7E => (BitBMemHl{b:7}).get_accessed_regs(),
        0x7F => (BitBR{b:7,r:Reg8::A}).get_accessed_regs(),
        0x80 => (ResBR{b:0,r:Reg8::B}).get_accessed_regs(),
        0x81 => (ResBR{b:0,r:Reg8::C}).get_accessed_regs(),
        0x82 => (ResBR{b:0,r:Reg8::D}).get_accessed_regs(),
        0x83 => (ResBR{b:0,r:Reg8::E}).get_accessed_regs(),
        0x84 => (ResBR{b:0,r:Reg8::H}).get_accessed_regs(),
        0x85 => (ResBR{b:0,r:Reg8::L}).get_accessed_regs(),
        0x86 => (ResBMemHl{b:0}).get_accessed_regs(),
        0x87 => (ResBR{b:0,r:Reg8::A}).get_accessed_regs(),
        0x88 => (ResBR{b:1,r:Reg8::B}).get_accessed_regs(),
        0x89 => (ResBR{b:1,r:Reg8::C}).get_accessed_regs(),
        0x8A => (ResBR{b:1,r:Reg8::D}).get_accessed_regs(),
        0x8B => (ResBR{b:1,r:Reg8::E}).get_accessed_regs(),
        0x8C => (ResBR{b:1,r:Reg8::H}).get_accessed_regs(),
        0x8D => (ResBR{b:1,r:Reg8::L}).get_accessed_regs(),
        0x8E => (ResBMemHl{b:1}).get_accessed_regs(),
        0x8F => (ResBR{b:1,r:Reg8::A}).get_accessed_regs(),
        0x90 => (ResBR{b:2,r:Reg8::B}).get_accessed_regs(),
        0x91 => (ResBR{b:2,r:Reg8::C}).get_accessed_regs(),
        0x92 => (ResBR{b:2,r:Reg8::D}).get_accessed_regs(),
        0x93 => (ResBR{b:2,r:Reg8::E}).get_accessed_regs(),
        0x94 => (ResBR{b:2,r:Reg8::H}).get_accessed_regs(),
        0x95 => (ResBR{b:2,r:Reg8::L}).get_accessed_regs(),
        0x96 => (ResBMemHl{b:2}).get_accessed_regs(),
        0x97 => (ResBR{b:2,r:Reg8::A}).get_accessed_regs(),
        0x98 => (ResBR{b:3,r:Reg8::B}).get_accessed_regs(),
        0x99 => (ResBR{b:3,r:Reg8::C}).get_accessed_regs(),
        0x9A => (ResBR{b:3,r:Reg8::D}).get_accessed_regs(),
        0x9B => (ResBR{b:3,r:Reg8::E}).get_accessed_regs(),
        0x9C => (ResBR{b:3,r:Reg8::H}).get_accessed_regs(),
        0x9D => (ResBR{b:3,r:Reg8::L}).get_accessed_regs(),
        0x9E => (ResBMemHl{b:3}).get_accessed_regs(),
        0x9F => (ResBR{b:3,r:Reg8::A}).get_accessed_regs(),
        0xA0 => (ResBR{b:4,r:Reg8::B}).get_accessed_regs(),
        0xA1 => (ResBR{b:4,r:Reg8::C}).get_accessed_regs(),
        0xA2 => (ResBR{b:4,r:Reg8::D}).get_accessed_regs(),
        0xA3 => (ResBR{b:4,r:Reg8::E}).get_accessed_regs(),
        0xA4 => (ResBR{b:4,r:Reg8::H}).get_accessed_regs(),
        0xA5 => (ResBR{b:4,r:Reg8::L}).get_accessed_regs(),
        0xA6 => (ResBMemHl{b:4}).get_accessed_regs(),
        0xA7 => (ResBR{b:4,r:Reg8::A}).get_accessed_regs(),
        0xA8 => (ResBR{b:5,r:Reg8::B}).get_accessed_regs(),
        0xA9 => (ResBR{b:5,r:Reg8::C}).get_accessed_regs(),
        0xAA => (ResBR{b:5,r:Reg8::D}).get_accessed_regs(),
        0xAB => (ResBR{b:5,r:Reg8::E}).get_accessed_regs(),
        0xAC => (ResBR{b:5,r:Reg8::H}).get_accessed_regs(),
        0xAD => (ResBR{b:5,r:Reg8::L}).get_accessed_regs(),
        0xAE => (ResBMemHl{b:5}).get_accessed_regs(),
        0xAF => (ResBR{b:5,r:Reg8::A}).get_accessed_regs(),
        0xB0 => (ResBR{b:6,r:Reg8::B}).get_accessed_regs(),
        0xB1 => (ResBR{b:6,r:Reg8::C}).get_accessed_regs(),
        0xB2 => (ResBR{b:6,r:Reg8::D}).get_accessed_regs(),
        0xB3 => (ResBR{b:6,r:Reg8::E}).get_accessed_regs(),
        0xB4 => (ResBR{b:6,r:Reg8::H}).get_accessed_regs(),
        0xB5 => (ResBR{b:6,r:Reg8::L}).get_accessed_regs(),
        0xB6 => (ResBMemHl{b:6}).get_accessed_regs(),
        0xB7 => (ResBR{b:6,r:Reg8::A}).get_accessed_regs(),
        0xB8 => (ResBR{b:7,r:Reg8::B}).get_accessed_regs(),
        0xB9 => (ResBR{b:7,r:Reg8::C}).get_accessed_regs(),
        0xBA => (ResBR{b:7,r:Reg8::D}).get_accessed_regs(),
        0xBB => (ResBR{b:7,r:Reg8::E}).get_accessed_regs(),
        0xBC => (ResBR{b:7,r:Reg8::H}).get_accessed_regs(),
        0xBD => (ResBR{b:7,r:Reg8::L}).get_accessed_regs(),
        0xBE => (ResBMemHl{b:7}).get_accessed_regs(),
        0xBF => (ResBR{b:7,r:Reg8::A}).get_accessed_regs(),
        0xC0 => (SetBR{b:0,r:Reg8::B}).get_accessed_regs(),
        0xC1 => (SetBR{b:0,r:Reg8::C}).get_accessed_regs(),
        0xC2 => (SetBR{b:0,r:Reg8::D}).get_accessed_regs(),
        0xC3 => (SetBR{b:0,r:Reg8::E}).get_accessed_regs(),
        0xC4 => (SetBR{b:0,r:Reg8::H}).get_accessed_regs(),
        0xC5 => (SetBR{b:0,r:Reg8::L}).get_accessed_regs(),
        0xC6 => (SetBMemHl{b:0}).get_accessed_regs(),
        0xC7 => (SetBR{b:0,r:Reg8::A}).get_accessed_regs(),
        0xC8 => (SetBR{b:1,r:Reg8::B}).get_accessed_regs(),
        0xC9 => (SetBR{b:1,r:Reg8::C}).get_accessed_regs(),
        0xCA => (SetBR{b:1,r:Reg8::D}).get_accessed_regs(),
        0xCB => (SetBR{b:1,r:Reg8::E}).get_accessed_regs(),
        0xCC => (SetBR{b:1,r:Reg8::H}).get_accessed_regs(),
        0xCD => (SetBR{b:1,r:Reg8::L}).get_accessed_regs(),
        0xCE => (SetBMemHl{b:1}).get_accessed_regs(),
        0xCF => (SetBR{b:1,r:Reg8::A}).get_accessed_regs(),
        0xD0 => (SetBR{b:2,r:Reg8::B}).get_accessed_regs(),
        0xD1 => (SetBR{b:2,r:Reg8::C}).get_accessed_regs(),
        0xD2 => (SetBR{b:2,r:Reg8::D}).get_accessed_regs(),
        0xD3 => (SetBR{b:2,r:Reg8::E}).get_accessed_regs(),
        0xD4 => (SetBR{b:2,r:Reg8::H}).get_accessed_regs(),
        0xD5 => (SetBR{b:2,r:Reg8::L}).get_accessed_regs(),
        0xD6 => (SetBMemHl{b:2}).get_accessed_regs(),
        0xD7 => (SetBR{b:2,r:Reg8::A}).get_accessed_regs(),
        0xD8 => (SetBR{b:3,r:Reg8::B}).get_accessed_regs(),
        0xD9 => (SetBR{b:3,r:Reg8::C}).get_accessed_regs(),
        0xDA => (SetBR{b:3,r:Reg8::D}).get_accessed_regs(),
        0xDB => (SetBR{b:3,r:Reg8::E}).get_accessed_regs(),
        0xDC => (SetBR{b:3,r:Reg8::H}).get_accessed_regs(),
        0xDD => (SetBR{b:3,r:Reg8::L}).get_accessed_regs(),
        0xDE => (SetBMemHl{b:3}).get_accessed_regs(),
        0xDF => (SetBR{b:3,r:Reg8::A}).get_accessed_regs(),
        0xE0 => (SetBR{b:4,r:Reg8::B}).get_accessed_regs(),
        0xE1 => (SetBR{b:4,r:Reg8::C}).get_accessed_regs(),
        0xE2 => (SetBR{b:4,r:Reg8::D}).get_accessed_regs(),
        0xE3 => (SetBR{b:4,r:Reg8::E}).get_accessed_regs(),
        0xE4 => (SetBR{b:4,r:Reg8::H}).get_accessed_regs(),
        0xE5 => (SetBR{b:4,r:Reg8::L}).get_accessed_regs(),
        0xE6 => (SetBMemHl{b:4}).get_accessed_regs(),
        0xE7 => (SetBR{b:4,r:Reg8::A}).get_accessed_regs(),
        0xE8 => (SetBR{b:5,r:Reg8::B}).get_accessed_regs(),
        0xE9 => (SetBR{b:5,r:Reg8::C}).get_accessed_regs(),
        0xEA => (SetBR{b:5,r:Reg8::D}).get_accessed_regs(),
        0xEB => (SetBR{b:5,r:Reg8::E}).get_accessed_regs(),
        0xEC => (SetBR{b:5,r:Reg8::H}).get_accessed_regs(),
        0xED => (SetBR{b:5,r:Reg8::L}).get_accessed_regs(),
        0xEE => (SetBMemHl{b:5}).get_accessed_regs(),
        0xEF => (SetBR{b:5,r:Reg8::A}).get_accessed_regs(),
        0xF0 => (SetBR{b:6,r:Reg8::B}).get_accessed_regs(),
        0xF1 => (SetBR{b:6,r:Reg8::C}).get_accessed_regs(),
        0xF2 => (SetBR{b:6,r:Reg8::D}).get_accessed_regs(),
        0xF3 => (SetBR{b:6,r:Reg8::E}).get_accessed_regs(),
        0xF4 => (SetBR{b:6,r:Reg8::H}).get_accessed_regs(),
        0xF5 => (SetBR{b:6,r:Reg8::L}).get_accessed_regs(),
        0xF6 => (SetBMemHl{b:6}).get_accessed_regs(),
        0xF7 => (SetBR{b:6,r:Reg8::A}).get_accessed_regs(),
        0xF8 => (SetBR{b:7,r:Reg8::B}).get_accessed_regs(),
        0xF9 => (SetBR{b:7,r:Reg8::C}).get_accessed_regs(),
        0xFA => (SetBR{b:7,r:Reg8::D}).get_accessed_regs(),
        0xFB => (SetBR{b:7,r:Reg8::E}).get_accessed_regs(),
        0xFC => (SetBR{b:7,r:Reg8::H}).get_accessed_regs(),
        0xFD => (SetBR{b:7,r:Reg8::L}).get_accessed_regs(),
        0xFE => (SetBMemHl{b:7}).get_accessed_regs(),
        0xFF => (SetBR{b:7,r:Reg8::A}).get_accessed_regs(),
    }
}

} // verus!
