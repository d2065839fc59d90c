use vstd::prelude::*;
use crate::cpu::{Cpu, CpuModel, Reg8, Reg16, CARRY_FLAG, HALF_CARRY_FLAG, TCYCLE_CEILING, MAX_STEP_TCYCLES, cond_bits};
use crate::debugger::output_registers::{OutputRegisters, OA, OF, OIX, OWZ, output_registers_from_reg8};
use crate::instructions::{Instruction, bit_flags, logical_flags, update_flags_bit, update_flags_logical, update_xyflags_bit, xy_from_wz};

verus! {

/// RLC (IX+d), r: rotates left; bit 7 goes to the carry and bit 0, and copies the result into r.
#[derive(Clone, Copy)]
pub struct RlcMemIxDR {
    pub r: Reg8,
}

impl Instruction for RlcMemIxDR {
    open spec fn valid(&self) -> bool {
        true
    }

    open spec fn next_state(&self, s: CpuModel) -> CpuModel {
        let s0 = s;
        let addr = s0.regs.reg16(Reg16::WZ);
        let v = s0.mem_at(addr);
        let s1 = s0.after_read(addr, 3);
        let s2 = s1.after_no_mreq(addr);
        let res = ((v % 128) * 2 + v / 128) as u8;
        let s3 = s2.set_regs(s2.regs.with_reg8(self.r, res));
        let s4 = s3.after_write(addr, res);
        let s5 = s4.set_regs(s4.regs.with_f(logical_flags(s4.regs.f, res)));
        let s6 = s5.set_regs(s5.regs.with_f(s5.regs.f & !HALF_CARRY_FLAG));
        let s7 = s6.set_regs(s6.regs.with_f(cond_bits(s6.regs.f, CARRY_FLAG, v >= 0x80)));
        let s8 = s7.set_regs(s7.regs.advance_pc(2));
        s8
    }

    #[verifier::spinoff_prover]
    #[verifier::rlimit(80)]
    fn execute(&self, cpu: &mut Cpu) {
        let addr: u16 = cpu.read_reg16(Reg16::WZ);
        let v: u8 = cpu.read_word(addr);
        cpu.contend_read_no_mreq(addr);
        let res: u8 = (v % 128) * 2 + v / 128;
        cpu.write_reg8(self.r, res);
        cpu.write_word(addr, res);
        update_flags_logical(cpu, res);
        cpu.clear_flag(HALF_CARRY_FLAG);
        cpu.cond_flag(CARRY_FLAG, v >= 0x80);
        cpu.inc_pc(2);
    }

    open spec fn accessed(&self) -> (OutputRegisters, OutputRegisters) {
        (OF | OIX | output_registers_from_reg8(self.r), OF | output_registers_from_reg8(self.r))
    }

    fn get_accessed_regs(&self) -> (regs: (OutputRegisters, OutputRegisters)) {
        (OF | OIX | output_registers_from_reg8(self.r), OF | output_registers_from_reg8(self.r))
    }
}

/// RLC (IX+d): rotates left; bit 7 goes to the carry and bit 0.
#[derive(Clone, Copy)]
pub struct RlcMemIxD;

impl Instruction for RlcMemIxD {
    open spec fn valid(&self) -> bool {
        true
    }

    open spec fn next_state(&self, s: CpuModel) -> CpuModel {
        let s0 = s;
        let addr = s0.regs.reg16(Reg16::WZ);
        let v = s0.mem_at(addr);
        let s1 = s0.after_read(addr, 3);
        let s2 = s1.after_no_mreq(addr);
        let res = ((v % 128) * 2 + v / 128) as u8;
        let s3 = s2.after_write(addr, res);
        let s4 = s3.set_regs(s3.regs.with_reg16(Reg16::WZ, addr));
        let s5 = s4.set_regs(s4.regs.with_f(logical_flags(s4.regs.f, res)));
        let s6 = s5.set_regs(s5.regs.with_f(s5.regs.f & !HALF_CARRY_FLAG));
        let s7 = s6.set_regs(s6.regs.with_f(cond_bits(s6.regs.f, CARRY_FLAG, v >= 0x80)));
        let s8 = s7.set_regs(s7.regs.advance_pc(2));
        s8
    }

    #[verifier::spinoff_prover]
    #[verifier::rlimit(80)]
    fn execute(&self, cpu: &mut Cpu) {
        let addr: u16 = cpu.read_reg16(Reg16::WZ);
        let v: u8 = cpu.read_word(addr);
        cpu.contend_read_no_mreq(addr);
        let res: u8 = (v % 128) * 2 + v / 128;
        cpu.write_word(addr, res);
        cpu.write_reg16(Reg16::WZ, addr);
        update_flags_logical(cpu, res);
        cpu.clear_flag(HALF_CARRY_FLAG);
        cpu.cond_flag(CARRY_FLAG, v >= 0x80);
        cpu.inc_pc(2);
    }

    open spec fn accessed(&self) -> (OutputRegisters, OutputRegisters) {
        (OF | OIX | OWZ, OF | OWZ)
    }

    fn get_accessed_regs(&self) -> (regs: (OutputRegisters, OutputRegisters)) {
        (OF | OIX | OWZ, OF | OWZ)
    }
}

/// RRC (IX+d), r: rotates right; bit 0 goes to the carry and bit 7, and copies the result into r.
#[derive(Clone, Copy)]
pub struct RrcMemIxDR {
    pub r: Reg8,
}

impl Instruction for RrcMemIxDR {
    open spec fn valid(&self) -> bool {
        true
    }

    open spec fn next_state(&self, s: CpuModel) -> CpuModel {
        let s0 = s;
        let addr = s0.regs.reg16(Reg16::WZ);
        let v = s0.mem_at(addr);
        let s1 = s0.after_read(addr, 3);
        let s2 = s1.after_no_mreq(addr);
        let res = (v / 2 + (v % 2) * 128) as u8;
        let s3 = s2.set_regs(s2.regs.with_reg8(self.r, res));
        let s4 = s3.after_write(addr, res);
        let s5 = s4.set_regs(s4.regs.with_f(logical_flags(s4.regs.f, res)));
        let s6 = s5.set_regs(s5.regs.with_f(s5.regs.f & !HALF_CARRY_FLAG));
        let s7 = s6.set_regs(s6.regs.with_f(cond_bits(s6.regs.f, CARRY_FLAG, v % 2 != 0)));
        let s8 = s7.set_regs(s7.regs.advance_pc(2));
        s8
    }

    #[verifier::spinoff_prover]
    #[verifier::rlimit(80)]
    fn execute(&self, cpu: &mut Cpu) {
        let addr: u16 = cpu.read_reg16(Reg16::WZ);
        let v: u8 = cpu.read_word(addr);
        cpu.contend_read_no_mreq(addr);
        let res: u8 = v / 2 + (v % 2) * 128;
        cpu.write_reg8(self.r, res);
        cpu.write_word(addr, res);
        update_flags_logical(cpu, res);
        cpu.clear_flag(HALF_CARRY_FLAG);
        cpu.cond_flag(CARRY_FLAG, v % 2 != 0);
        cpu.inc_pc(2);
    }

    open spec fn accessed(&self) -> (OutputRegisters, OutputRegisters) {
        (OF | OIX | output_registers_from_reg8(self.r), OF | output_registers_from_reg8(self.r))
    }

    fn get_accessed_regs(&self) -> (regs: (OutputRegisters, OutputRegisters)) {
        (OF | OIX | output_registers_from_reg8(self.r), OF | output_registers_from_reg8(self.r))
    }
}

/// RRC (IX+d): rotates right; bit 0 goes to the carry and bit 7.
#[derive(Clone, Copy)]
pub struct RrcMemIxD;

impl Instruction for RrcMemIxD {
    open spec fn valid(&self) -> bool {
        true
    }

    open spec fn next_state(&self, s: CpuModel) -> CpuModel {
        let s0 = s;
        let addr = s0.regs.reg16(Reg16::WZ);
        let v = s0.mem_at(addr);
        let s1 = s0.after_read(addr, 3);
        let s2 = s1.after_no_mreq(addr);
        let res = (v / 2 + (v % 2) * 128) as u8;
        let s3 = s2.after_write(addr, res);
        let s4 = s3.set_regs(s3.regs.with_reg16(Reg16::WZ, addr));
        let s5 = s4.set_regs(s4.regs.with_f(logical_flags(s4.regs.f, res)));
        let s6 = s5.set_regs(s5.regs.with_f(s5.regs.f & !HALF_CARRY_FLAG));
        let s7 = s6.set_regs(s6.regs.with_f(cond_bits(s6.regs.f, CARRY_FLAG, v % 2 != 0)));
        let s8 = s7.set_regs(s7.regs.advance_pc(2));
        s8
    }

    #[verifier::spinoff_prover]
    #[verifier::rlimit(80)]
    fn execute(&self, cpu: &mut Cpu) {
        let addr: u16 = cpu.read_reg16(Reg16::WZ);
        let v: u8 = cpu.read_word(addr);
        cpu.contend_read_no_mreq(addr);
        let res: u8 = v / 2 + (v % 2) * 128;
        cpu.write_word(addr, res);
        cpu.write_reg16(Reg16::WZ, addr);
        update_flags_logical(cpu, res);
        cpu.clear_flag(HALF_CARRY_FLAG);
        cpu.cond_flag(CARRY_FLAG, v % 2 != 0);
        cpu.inc_pc(2);
    }

    open spec fn accessed(&self) -> (OutputRegisters, OutputRegisters) {
        (OF | OIX | OWZ, OF | OWZ)
    }

    fn get_accessed_regs(&self) -> (regs: (OutputRegisters, OutputRegisters)) {
        (OF | OIX | OWZ, OF | OWZ)
    }
}

/// RL (IX+d), r: rotates left through the carry, and copies the result into r.
#[derive(Clone, Copy)]
pub struct RlMemIxDR {
    pub r: Reg8,
}

impl Instruction for RlMemIxDR {
    open spec fn valid(&self) -> bool {
        true
    }

    open spec fn next_state(&self, s: CpuModel) -> CpuModel {
        let s0 = s;
        let addr = s0.regs.reg16(Reg16::WZ);
        let v = s0.mem_at(addr);
        let s1 = s0.after_read(addr, 3);
        let s2 = s1.after_no_mreq(addr);
        let rot = ((v % 128) * 2 + v / 128) as u8;
        let cf = s2.regs.flag(CARRY_FLAG);
        let res = if cf { rot | 0x01 } else { rot & 0xFE };
        let s3 = s2.set_regs(s2.regs.with_reg8(self.r, res));
        let s4 = s3.after_write(addr, res);
        let s5 = s4.set_regs(s4.regs.with_f(logical_flags(s4.regs.f, res)));
        let s6 = s5.set_regs(s5.regs.with_f(s5.regs.f & !HALF_CARRY_FLAG));
        let s7 = s6.set_regs(s6.regs.with_f(cond_bits(s6.regs.f, CARRY_FLAG, v >= 0x80)));
        let s8 = s7.set_regs(s7.regs.advance_pc(2));
        s8
    }

    #[verifier::spinoff_prover]
    #[verifier::rlimit(80)]
    fn execute(&self, cpu: &mut Cpu) {
        let addr: u16 = cpu.read_reg16(Reg16::WZ);
        let v: u8 = cpu.read_word(addr);
        cpu.contend_read_no_mreq(addr);
        let rot: u8 = (v % 128) * 2 + v / 128;
        let cf: bool = cpu.get_flag(CARRY_FLAG);
        let res: u8 = if cf { rot | 0x01 } else { rot & 0xFE };
        cpu.write_reg8(self.r, res);
        cpu.write_word(addr, res);
        update_flags_logical(cpu, res);
        cpu.clear_flag(HALF_CARRY_FLAG);
        cpu.cond_flag(CARRY_FLAG, v >= 0x80);
        cpu.inc_pc(2);
    }

    open spec fn accessed(&self) -> (OutputRegisters, OutputRegisters) {
        (OF | OIX | output_registers_from_reg8(self.r), OF | output_registers_from_reg8(self.r))
    }

    fn get_accessed_regs(&self) -> (regs: (OutputRegisters, OutputRegisters)) {
        (OF | OIX | output_registers_from_reg8(self.r), OF | output_registers_from_reg8(self.r))
    }
}

/// RL (IX+d): rotates left through the carry.
#[derive(Clone, Copy)]
pub struct RlMemIxD;

impl Instruction for RlMemIxD {
    open spec fn valid(&self) -> bool {
        true
    }

    open spec fn next_state(&self, s: CpuModel) -> CpuModel {
        let s0 = s;
        let addr = s0.regs.reg16(Reg16::WZ);
        let v = s0.mem_at(addr);
        let s1 = s0.after_read(addr, 3);
        let s2 = s1.after_no_mreq(addr);
        let rot = ((v % 128) * 2 + v / 128) as u8;
        let cf = s2.regs.flag(CARRY_FLAG);
        let res = if cf { rot | 0x01 } else { rot & 0xFE };
        let s3 = s2.after_write(addr, res);
        let s4 = s3.set_regs(s3.regs.with_reg16(Reg16::WZ, addr));
        let s5 = s4.set_regs(s4.regs.with_f(logical_flags(s4.regs.f, res)));
        let s6 = s5.set_regs(s5.regs.with_f(s5.regs.f & !HALF_CARRY_FLAG));
        let s7 = s6.set_regs(s6.regs.with_f(cond_bits(s6.regs.f, CARRY_FLAG, v >= 0x80)));
        let s8 = s7.set_regs(s7.regs.advance_pc(2));
        s8
    }

    #[verifier::spinoff_prover]
    #[verifier::rlimit(80)]
    fn execute(&self, cpu: &mut Cpu) {
        let addr: u16 = cpu.read_reg16(Reg16::WZ);
        let v: u8 = cpu.read_word(addr);
        cpu.contend_read_no_mreq(addr);
        let rot: u8 = (v % 128) * 2 + v / 128;
        let cf: bool = cpu.get_flag(CARRY_FLAG);
        let res: u8 = if cf { rot | 0x01 } else { rot & 0xFE };
        cpu.write_word(addr, res);
        cpu.write_reg16(Reg16::WZ, addr);
        update_flags_logical(cpu, res);
        cpu.clear_flag(HALF_CARRY_FLAG);
        cpu.cond_flag(CARRY_FLAG, v >= 0x80);
        cpu.inc_pc(2);
    }

    open spec fn accessed(&self) -> (OutputRegisters, OutputRegisters) {
        (OF | OIX | OWZ, OF | OWZ)
    }

    fn get_accessed_regs(&self) -> (regs: (OutputRegisters, OutputRegisters)) {
        (OF | OIX | OWZ, OF | OWZ)
    }
}

/// RR (IX+d), r: rotates right through the carry, and copies the result into r.
#[derive(Clone, Copy)]
pub struct RrMemIxDR {
    pub r: Reg8,
}

impl Instruction for RrMemIxDR {
    open spec fn valid(&self) -> bool {
        true
    }

    open spec fn next_state(&self, s: CpuModel) -> CpuModel {
        let s0 = s;
        let addr = s0.regs.reg16(Reg16::WZ);
        let v = s0.mem_at(addr);
        let s1 = s0.after_read(addr, 3);
        let s2 = s1.after_no_mreq(addr);
        let rot = (v / 2 + (v % 2) * 128) as u8;
        let cf = s2.regs.flag(CARRY_FLAG);
        let res = if cf { rot | 0x80 } else { rot & 0x7F };
        let s3 = s2.set_regs(s2.regs.with_reg8(self.r, res));
        let s4 = s3.after_write(addr, res);
        let s5 = s4.set_regs(s4.regs.with_f(logical_flags(s4.regs.f, res)));
        let s6 = s5.set_regs(s5.regs.with_f(s5.regs.f & !HALF_CARRY_FLAG));
        let s7 = s6.set_regs(s6.regs.with_f(cond_bits(s6.regs.f, CARRY_FLAG, v % 2 != 0)));
        let s8 = s7.set_regs(s7.regs.advance_pc(2));
        s8
    }

    #[verifier::spinoff_prover]
    #[verifier::rlimit(80)]
    fn execute(&self, cpu: &mut Cpu) {
        let addr: u16 = cpu.read_reg16(Reg16::WZ);
        let v: u8 = cpu.read_word(addr);
        cpu.contend_read_no_mreq(addr);
        let rot: u8 = v / 2 + (v % 2) * 128;
        let cf: bool = cpu.get_flag(CARRY_FLAG);
        let res: u8 = if cf { rot | 0x80 } else { rot & 0x7F };
        cpu.write_reg8(self.r, res);
        cpu.write_word(addr, res);
        update_flags_logical(cpu, res);
        cpu.clear_flag(HALF_CARRY_FLAG);
        cpu.cond_flag(CARRY_FLAG, v % 2 != 0);
        cpu.inc_pc(2);
    }

    open spec fn accessed(&self) -> (OutputRegisters, OutputRegisters) {
        (OF | OIX | output_registers_from_reg8(self.r), OF | output_registers_from_reg8(self.r))
    }

    fn get_accessed_regs(&self) -> (regs: (OutputRegisters, OutputRegisters)) {
        (OF | OIX | output_registers_from_reg8(self.r), OF | output_registers_from_reg8(self.r))
    }
}

/// RR (IX+d): rotates right through the carry.
#[derive(Clone, Copy)]
pub struct RrMemIxD;

impl Instruction for RrMemIxD {
    open spec fn valid(&self) -> bool {
        true
    }

    open spec fn next_state(&self, s: CpuModel) -> CpuModel {
        let s0 = s;
        let addr = s0.regs.reg16(Reg16::WZ);
        let v = s0.mem_at(addr);
        let s1 = s0.after_read(addr, 3);
        let s2 = s1.after_no_mreq(addr);
        let rot = (v / 2 + (v % 2) * 128) as u8;
        let cf = s2.regs.flag(CARRY_FLAG);
        let res = if cf { rot | 0x80 } else { rot & 0x7F };
        let s3 = s2.after_write(addr, res);
        let s4 = s3.set_regs(s3.regs.with_reg16(Reg16::WZ, addr));
        let s5 = s4.set_regs(s4.regs.with_f(logical_flags(s4.regs.f, res)));
        let s6 = s5.set_regs(s5.regs.with_f(s5.regs.f & !HALF_CARRY_FLAG));
        let s7 = s6.set_regs(s6.regs.with_f(cond_bits(s6.regs.f, CARRY_FLAG, v % 2 != 0)));
        let s8 = s7.set_regs(s7.regs.advance_pc(2));
        s8
    }

    #[verifier::spinoff_prover]
    #[verifier::rlimit(80)]
    fn execute(&self, cpu: &mut Cpu) {
        let addr: u16 = cpu.read_reg16(Reg16::WZ);
        let v: u8 = cpu.read_word(addr);
        cpu.contend_read_no_mreq(addr);
        let rot: u8 = v / 2 + (v % 2) * 128;
        let cf: bool = cpu.get_flag(CARRY_FLAG);
        let res: u8 = if cf { rot | 0x80 } else { rot & 0x7F };
        cpu.write_word(addr, res);
        cpu.write_reg16(Reg16::WZ, addr);
        update_flags_logical(cpu, res);
        cpu.clear_flag(HALF_CARRY_FLAG);
        cpu.cond_flag(CARRY_FLAG, v % 2 != 0);
        cpu.inc_pc(2);
    }

    open spec fn accessed(&self) -> (OutputRegisters, OutputRegisters) {
        (OF | OIX | OWZ, OF | OWZ)
    }

    fn get_accessed_regs(&self) -> (regs: (OutputRegisters, OutputRegisters)) {
        (OF | OIX | OWZ, OF | OWZ)
    }
}

/// SLA (IX+d), r: shifts left; bit 7 goes to the carry, and copies the result into r.
#[derive(Clone, Copy)]
pub struct SlaMemIxDR {
    pub r: Reg8,
}

impl Instruction for SlaMemIxDR {
    open spec fn valid(&self) -> bool {
        true
    }

    open spec fn next_state(&self, s: CpuModel) -> CpuModel {
        let s0 = s;
        let addr = s0.regs.reg16(Reg16::WZ);
        let v = s0.mem_at(addr);
        let s1 = s0.after_read(addr, 3);
        let s2 = s1.after_no_mreq(addr);
        let res = ((v % 128) * 2) as u8;
        let s3 = s2.set_regs(s2.regs.with_reg8(self.r, res));
        let s4 = s3.after_write(addr, res);
        let s5 = s4.set_regs(s4.regs.with_f(logical_flags(s4.regs.f, res)));
        let s6 = s5.set_regs(s5.regs.with_f(s5.regs.f & !HALF_CARRY_FLAG));
        let s7 = s6.set_regs(s6.regs.with_f(cond_bits(s6.regs.f, CARRY_FLAG, v >= 0x80)));
        let s8 = s7.set_regs(s7.regs.advance_pc(2));
        s8
    }

    #[verifier::spinoff_prover]
    #[verifier::rlimit(80)]
    fn execute(&self, cpu: &mut Cpu) {
        let addr: u16 = cpu.read_reg16(Reg16::WZ);
        let v: u8 = cpu.read_word(addr);
        cpu.contend_read_no_mreq(addr);
        let res: u8 = (v % 128) * 2;
        cpu.write_reg8(self.r, res);
        cpu.write_word(addr, res);
        update_flags_logical(cpu, res);
        cpu.clear_flag(HALF_CARRY_FLAG);
        cpu.cond_flag(CARRY_FLAG, v >= 0x80);
        cpu.inc_pc(2);
    }

    open spec fn accessed(&self) -> (OutputRegisters, OutputRegisters) {
        (OF | OIX | output_registers_from_reg8(self.r), OF | output_registers_from_reg8(self.r))
    }

    fn get_accessed_regs(&self) -> (regs: (OutputRegisters, OutputRegisters)) {
        (OF | OIX | output_registers_from_reg8(self.r), OF | output_registers_from_reg8(self.r))
    }
}

/// SLA (IX+d): shifts left; bit 7 goes to the carry.
#[derive(Clone, Copy)]
pub struct SlaMemIxD;

impl Instruction for SlaMemIxD {
    open spec fn valid(&self) -> bool {
        true
    }

    open spec fn next_state(&self, s: CpuModel) -> CpuModel {
        let s0 = s;
        let addr = s0.regs.reg16(Reg16::WZ);
        let v = s0.mem_at(addr);
        let s1 = s0.after_read(addr, 3);
        let s2 = s1.after_no_mreq(addr);
        let res = ((v % 128) * 2) as u8;
        let s3 = s2.after_write(addr, res);
        let s4 = s3.set_regs(s3.regs.with_reg16(Reg16::WZ, addr));
        let s5 = s4.set_regs(s4.regs.with_f(logical_flags(s4.regs.f, res)));
        let s6 = s5.set_regs(s5.regs.with_f(s5.regs.f & !HALF_CARRY_FLAG));
        let s7 = s6.set_regs(s6.regs.with_f(cond_bits(s6.regs.f, CARRY_FLAG, v >= 0x80)));
        let s8 = s7.set_regs(s7.regs.advance_pc(2));
        s8
    }

    #[verifier::spinoff_prover]
    #[verifier::rlimit(80)]
    fn execute(&self, cpu: &mut Cpu) {
        let addr: u16 = cpu.read_reg16(Reg16::WZ);
        let v: u8 = cpu.read_word(addr);
        cpu.contend_read_no_mreq(addr);
        let res: u8 = (v % 128) * 2;
        cpu.write_word(addr, res);
        cpu.write_reg16(Reg16::WZ, addr);
        update_flags_logical(cpu, res);
        cpu.clear_flag(HALF_CARRY_FLAG);
        cpu.cond_flag(CARRY_FLAG, v >= 0x80);
        cpu.inc_pc(2);
    }

    open spec fn accessed(&self) -> (OutputRegisters, OutputRegisters) {
        (OA | OF | OIX | OWZ, OF | OWZ)
    }

    fn get_accessed_regs(&self) -> (regs: (OutputRegisters, OutputRegisters)) {
        (OA | OF | OIX | OWZ, OF | OWZ)
    }
}

/// SRA (IX+d), r: shifts right keeping bit 7; bit 0 goes to the carry, and copies the result into r.
#[derive(Clone, Copy)]
pub struct SraMemIxDR {
    pub r: Reg8,
}

impl Instruction for SraMemIxDR {
    open spec fn valid(&self) -> bool {
        true
    }

    open spec fn next_state(&self, s: CpuModel) -> CpuModel {
        let s0 = s;
        let addr = s0.regs.reg16(Reg16::WZ);
        let v = s0.mem_at(addr);
        let s1 = s0.after_read(addr, 3);
        let s2 = s1.after_no_mreq(addr);
        let res = (v / 2 + (v / 128) * 128) as u8;
        let s3 = s2.set_regs(s2.regs.with_reg8(self.r, res));
        let s4 = s3.after_write(addr, res);
        let s5 = s4.set_regs(s4.regs.with_f(logical_flags(s4.regs.f, res)));
        let s6 = s5.set_regs(s5.regs.with_f(s5.regs.f & !HALF_CARRY_FLAG));
        let s7 = s6.set_regs(s6.regs.with_f(cond_bits(s6.regs.f, CARRY_FLAG, v % 2 != 0)));
        let s8 = s7.set_regs(s7.regs.advance_pc(2));
        s8
    }

    #[verifier::spinoff_prover]
    #[verifier::rlimit(80)]
    fn execute(&self, cpu: &mut Cpu) {
        let addr: u16 = cpu.read_reg16(Reg16::WZ);
        let v: u8 = cpu.read_word(addr);
        cpu.contend_read_no_mreq(addr);
        let res: u8 = v / 2 + (v / 128) * 128;
        cpu.write_reg8(self.r, res);
        cpu.write_word(addr, res);
        update_flags_logical(cpu, res);
        cpu.clear_flag(HALF_CARRY_FLAG);
        cpu.cond_flag(CARRY_FLAG, v % 2 != 0);
        cpu.inc_pc(2);
    }

    open spec fn accessed(&self) -> (OutputRegisters, OutputRegisters) {
        (OF | OIX | output_registers_from_reg8(self.r), OF | output_registers_from_reg8(self.r))
    }

    fn get_accessed_regs(&self) -> (regs: (OutputRegisters, OutputRegisters)) {
        (OF | OIX | output_registers_from_reg8(self.r), OF | output_registers_from_reg8(self.r))
    }
}

/// SRA (IX+d): shifts right keeping bit 7; bit 0 goes to the carry.
#[derive(Clone, Copy)]
pub struct SraMemIxD;

impl Instruction for SraMemIxD {
    open spec fn valid(&self) -> bool {
        true
    }

    open spec fn next_state(&self, s: CpuModel) -> CpuModel {
        let s0 = s;
        let addr = s0.regs.reg16(Reg16::WZ);
        let v = s0.mem_at(addr);
        let s1 = s0.after_read(addr, 3);
        let s2 = s1.after_no_mreq(addr);
        let res = (v / 2 + (v / 128) * 128) as u8;
        let s3 = s2.after_write(addr, res);
        let s4 = s3.set_regs(s3.regs.with_reg16(Reg16::WZ, addr));
        let s5 = s4.set_regs(s4.regs.with_f(logical_flags(s4.regs.f, res)));
        let s6 = s5.set_regs(s5.regs.with_f(s5.regs.f & !HALF_CARRY_FLAG));
        let s7 = s6.set_regs(s6.regs.with_f(cond_bits(s6.regs.f, CARRY_FLAG, v % 2 != 0)));
        let s8 = s7.set_regs(s7.regs.advance_pc(2));
        s8
    }

    #[verifier::spinoff_prover]
    #[verifier::rlimit(80)]
    fn execute(&self, cpu: &mut Cpu) {
        let addr: u16 = cpu.read_reg16(Reg16::WZ);
        let v: u8 = cpu.read_word(addr);
        cpu.contend_read_no_mreq(addr);
        let res: u8 = v / 2 + (v / 128) * 128;
        cpu.write_word(addr, res);
        cpu.write_reg16(Reg16::WZ, addr);
        update_flags_logical(cpu, res);
        cpu.clear_flag(HALF_CARRY_FLAG);
        cpu.cond_flag(CARRY_FLAG, v % 2 != 0);
        cpu.inc_pc(2);
    }

    open spec fn accessed(&self) -> (OutputRegisters, OutputRegisters) {
        (OF | OIX | OWZ, OF | OWZ)
    }

    fn get_accessed_regs(&self) -> (regs: (OutputRegisters, OutputRegisters)) {
        (OF | OIX | OWZ, OF | OWZ)
    }
}

/// SLL (IX+d), r: shifts left setting bit 0; bit 7 goes to the carry, and copies the result into r.
#[derive(Clone, Copy)]
pub struct SllMemIxDR {
    pub r: Reg8,
}

impl Instruction for SllMemIxDR {
    open spec fn valid(&self) -> bool {
        true
    }

    open spec fn next_state(&self, s: CpuModel) -> CpuModel {
        let s0 = s;
        let addr = s0.regs.reg16(Reg16::WZ);
        let v = s0.mem_at(addr);
        let s1 = s0.after_read(addr, 3);
        let s2 = s1.after_no_mreq(addr);
        let res = ((v % 128) * 2 + 1) as u8;
        let s3 = s2.set_regs(s2.regs.with_reg8(self.r, res));
        let s4 = s3.after_write(addr, res);
        let s5 = s4.set_regs(s4.regs.with_f(logical_flags(s4.regs.f, res)));
        let s6 = s5.set_regs(s5.regs.with_f(s5.regs.f & !HALF_CARRY_FLAG));
        let s7 = s6.set_regs(s6.regs.with_f(cond_bits(s6.regs.f, CARRY_FLAG, v >= 0x80)));
        let s8 = s7.set_regs(s7.regs.advance_pc(2));
        s8
    }

    #[verifier::spinoff_prover]
    #[verifier::rlimit(80)]
    fn execute(&self, cpu: &mut Cpu) {
        let addr: u16 = cpu.read_reg16(Reg16::WZ);
        let v: u8 = cpu.read_word(addr);
        cpu.contend_read_no_mreq(addr);
        let res: u8 = (v % 128) * 2 + 1;
        cpu.write_reg8(self.r, res);
        cpu.write_word(addr, res);
        update_flags_logical(cpu, res);
        cpu.clear_flag(HALF_CARRY_FLAG);
        cpu.cond_flag(CARRY_FLAG, v >= 0x80);
        cpu.inc_pc(2);
    }

    open spec fn accessed(&self) -> (OutputRegisters, OutputRegisters) {
        (OF | OIX | output_registers_from_reg8(self.r), OF | output_registers_from_reg8(self.r))
    }

    fn get_accessed_regs(&self) -> (regs: (OutputRegisters, OutputRegisters)) {
        (OF | OIX | output_registers_from_reg8(self.r), OF | output_registers_from_reg8(self.r))
    }
}

/// SLL (IX+d): shifts left setting bit 0; bit 7 goes to the carry.
#[derive(Clone, Copy)]
pub struct SllMemIxD;

impl Instruction for SllMemIxD {
    open spec fn valid(&self) -> bool {
        true
    }

    open spec fn next_state(&self, s: CpuModel) -> CpuModel {
        let s0 = s;
        let addr = s0.regs.reg16(Reg16::WZ);
        let v = s0.mem_at(addr);
        let s1 = s0.after_read(addr, 3);
        let s2 = s1.after_no_mreq(addr);
        let res = ((v % 128) * 2 + 1) as u8;
        let s3 = s2.after_write(addr, res);
        let s4 = s3.set_regs(s3.regs.with_reg16(Reg16::WZ, addr));
        let s5 = s4.set_regs(s4.regs.with_f(logical_flags(s4.regs.f, res)));
        let s6 = s5.set_regs(s5.regs.with_f(s5.regs.f & !HALF_CARRY_FLAG));
        let s7 = s6.set_regs(s6.regs.with_f(cond_bits(s6.regs.f, CARRY_FLAG, v >= 0x80)));
        let s8 = s7.set_regs(s7.regs.advance_pc(2));
        s8
    }

    #[verifier::spinoff_prover]
    #[verifier::rlimit(80)]
    fn execute(&self, cpu: &mut Cpu) {
        let addr: u16 = cpu.read_reg16(Reg16::WZ);
        let v: u8 = cpu.read_word(addr);
        cpu.contend_read_no_mreq(addr);
        let res: u8 = (v % 128) * 2 + 1;
        cpu.write_word(addr, res);
        cpu.write_reg16(Reg16::WZ, addr);
        update_flags_logical(cpu, res);
        cpu.clear_flag(HALF_CARRY_FLAG);
        cpu.cond_flag(CARRY_FLAG, v >= 0x80);
        cpu.inc_pc(2);
    }

    open spec fn accessed(&self) -> (OutputRegisters, OutputRegisters) {
        (OF | OIX | OWZ, OF | OWZ)
    }

    fn get_accessed_regs(&self) -> (regs: (OutputRegisters, OutputRegisters)) {
        (OF | OIX | OWZ, OF | OWZ)
    }
}

/// SRL (IX+d), r: shifts right; bit 0 goes to the carry, and copies the result into r.
#[derive(Clone, Copy)]
pub struct SrlMemIxDR {
    pub r: Reg8,
}

impl Instruction for SrlMemIxDR {
    open spec fn valid(&self) -> bool {
        true
    }

    open spec fn next_state(&self, s: CpuModel) -> CpuModel {
        let s0 = s;
        let addr = s0.regs.reg16(Reg16::WZ);
        let v = s0.mem_at(addr);
        let s1 = s0.after_read(addr, 3);
        let s2 = s1.after_no_mreq(addr);
        let res = v / 2;
        let s3 = s2.set_regs(s2.regs.with_reg8(self.r, res));
        let s4 = s3.after_write(addr, res);
        let s5 = s4.set_regs(s4.regs.with_f(logical_flags(s4.regs.f, res)));
        let s6 = s5.set_regs(s5.regs.with_f(s5.regs.f & !HALF_CARRY_FLAG));
        let s7 = s6.set_regs(s6.regs.with_f(cond_bits(s6.regs.f, CARRY_FLAG, v % 2 != 0)));
        let s8 = s7.set_regs(s7.regs.advance_pc(2));
        s8
    }

    #[verifier::spinoff_prover]
    #[verifier::rlimit(80)]
    fn execute(&self, cpu: &mut Cpu) {
        let addr: u16 = cpu.read_reg16(Reg16::WZ);
        let v: u8 = cpu.read_word(addr);
        cpu.contend_read_no_mreq(addr);
        let res: u8 = v / 2;
        cpu.write_reg8(self.r, res);
        cpu.write_word(addr, res);
        update_flags_logical(cpu, res);
        cpu.clear_flag(HALF_CARRY_FLAG);
        cpu.cond_flag(CARRY_FLAG, v % 2 != 0);
        cpu.inc_pc(2);
    }

    open spec fn accessed(&self) -> (OutputRegisters, OutputRegisters) {
        (OF | OIX | output_registers_from_reg8(self.r), OF | output_registers_from_reg8(self.r))
    }

    fn get_accessed_regs(&self) -> (regs: (OutputRegisters, OutputRegisters)) {
        (OF | OIX | output_registers_from_reg8(self.r), OF | output_registers_from_reg8(self.r))
    }
}

/// SRL (IX+d): shifts right; bit 0 goes to the carry.
#[derive(Clone, Copy)]
pub struct SrlMemIxD;

impl Instruction for SrlMemIxD {
    open spec fn valid(&self) -> bool {
        true
    }

    open spec fn next_state(&self, s: CpuModel) -> CpuModel {
        let s0 = s;
        let addr = s0.regs.reg16(Reg16::WZ);
        let v = s0.mem_at(addr);
        let s1 = s0.after_read(addr, 3);
        let s2 = s1.after_no_mreq(addr);
        let res = v / 2;
        let s3 = s2.after_write(addr, res);
        let s4 = s3.set_regs(s3.regs.with_reg16(Reg16::WZ, addr));
        let s5 = s4.set_regs(s4.regs.with_f(logical_flags(s4.regs.f, res)));
        let s6 = s5.set_regs(s5.regs.with_f(s5.regs.f & !HALF_CARRY_FLAG));
        let s7 = s6.set_regs(s6.regs.with_f(cond_bits(s6.regs.f, CARRY_FLAG, v % 2 != 0)));
        let s8 = s7.set_regs(s7.regs.advance_pc(2));
        s8
    }

    #[verifier::spinoff_prover]
    #[verifier::rlimit(80)]
    fn execute(&self, cpu: &mut Cpu) {
        let addr: u16 = cpu.read_reg16(Reg16::WZ);
        let v: u8 = cpu.read_word(addr);
        cpu.contend_read_no_mreq(addr);
        let res: u8 = v / 2;
        cpu.write_word(addr, res);
        cpu.write_reg16(Reg16::WZ, addr);
        update_flags_logical(cpu, res);
        cpu.clear_flag(HALF_CARRY_FLAG);
        cpu.cond_flag(CARRY_FLAG, v % 2 != 0);
        cpu.inc_pc(2);
    }

    open spec fn accessed(&self) -> (OutputRegisters, OutputRegisters) {
        (OF | OIX | OWZ, OF | OWZ)
    }

    fn get_accessed_regs(&self) -> (regs: (OutputRegisters, OutputRegisters)) {
        (OF | OIX | OWZ, OF | OWZ)
    }
}

/// BIT b, (IX+d): tests a bit of the byte at the address in WZ.
#[derive(Clone, Copy)]
pub struct BitBMemIxD {
    pub b: u8,
}

impl Instruction for BitBMemIxD {
    open spec fn valid(&self) -> bool {
        self.b < 8
    }

    open spec fn next_state(&self, s: CpuModel) -> CpuModel {
        let s0 = s;
        let addr = s0.regs.reg16(Reg16::WZ);
        let v = s0.mem_at(addr);
        let s1 = s0.after_read(addr, 3);
        let s2 = s1.after_no_mreq(addr);
        let bs = v & (1u8 << self.b) != 0;
        let s3 = s2.set_regs(s2.regs.with_f(bit_flags(s2.regs.f, self.b, bs)));
        let s4 = s3.set_regs(s3.regs.with_f(xy_from_wz(s3.regs.f, s3.regs.wz)));
        let s5 = s4.set_regs(s4.regs.advance_pc(2));
        s5
    }

    #[verifier::spinoff_prover]
    #[verifier::rlimit(80)]
    fn execute(&self, cpu: &mut Cpu) {
        let addr: u16 = cpu.read_reg16(Reg16::WZ);
        let v: u8 = cpu.read_word(addr);
        cpu.contend_read_no_mreq(addr);
        let bs: bool = v & (1u8 << self.b) != 0;
        update_flags_bit(cpu, self.b, bs);
        update_xyflags_bit(cpu);
        cpu.inc_pc(2);
    }

    open spec fn accessed(&self) -> (OutputRegisters, OutputRegisters) {
        (OF | OIX, OF)
    }

    fn get_accessed_regs(&self) -> (regs: (OutputRegisters, OutputRegisters)) {
        (OF | OIX, OF)
    }
}

/// RES b, (IX+d), r: clears a bit of the byte at the address in WZ, and copies it into r.
#[derive(Clone, Copy)]
pub struct ResBMemIxDR {
    pub b: u8,
    pub r: Reg8,
}

impl Instruction for ResBMemIxDR {
    open spec fn valid(&self) -> bool {
        self.b < 8
    }

    open spec fn next_state(&self, s: CpuModel) -> CpuModel {
        let s0 = s;
        let addr = s0.regs.reg16(Reg16::WZ);
        let v = s0.mem_at(addr);
        let s1 = s0.after_read(addr, 3);
        let s2 = s1.after_no_mreq(addr);
        let res = v & !(1u8 << self.b);
        let s3 = s2.set_regs(s2.regs.with_reg8(self.r, res));
        let s4 = s3.after_write(addr, res);
        let s5 = s4.set_regs(s4.regs.advance_pc(2));
        s5
    }

    #[verifier::spinoff_prover]
    #[verifier::rlimit(80)]
    fn execute(&self, cpu: &mut Cpu) {
        let addr: u16 = cpu.read_reg16(Reg16::WZ);
        let v: u8 = cpu.read_word(addr);
        cpu.contend_read_no_mreq(addr);
        let res: u8 = v & !(1u8 << self.b);
        cpu.write_reg8(self.r, res);
        cpu.write_word(addr, res);
        cpu.inc_pc(2);
    }

    open spec fn accessed(&self) -> (OutputRegisters, OutputRegisters) {
        (OIX | output_registers_from_reg8(self.r), output_registers_from_reg8(self.r))
    }

    fn get_accessed_regs(&self) -> (regs: (OutputRegisters, OutputRegisters)) {
        (OIX | output_registers_from_reg8(self.r), output_registers_from_reg8(self.r))
    }
}

/// RES b, (IX+d): clears a bit of the byte at the address in WZ.
#[derive(Clone, Copy)]
pub struct ResBMemIxD {
    pub b: u8,
}

impl Instruction for ResBMemIxD {
    open spec fn valid(&self) -> bool {
        self.b < 8
    }

    open spec fn next_state(&self, s: CpuModel) -> CpuModel {
        let s0 = s;
        let addr = s0.regs.reg16(Reg16::WZ);
        let v = s0.mem_at(addr);
        let s1 = s0.after_read(addr, 3);
        let s2 = s1.after_no_mreq(addr);
        let res = v & !(1u8 << self.b);
        let s3 = s2.after_write(addr, res);
        let s4 = s3.set_regs(s3.regs.with_reg16(Reg16::WZ, addr));
        let s5 = s4.set_regs(s4.regs.advance_pc(2));
        s5
    }

    #[verifier::spinoff_prover]
    #[verifier::rlimit(80)]
    fn execute(&self, cpu: &mut Cpu) {
        let addr: u16 = cpu.read_reg16(Reg16::WZ);
        let v: u8 = cpu.read_word(addr);
        cpu.contend_read_no_mreq(addr);
        let res: u8 = v & !(1u8 << self.b);
        cpu.write_word(addr, res);
        cpu.write_reg16(Reg16::WZ, addr);
        cpu.inc_pc(2);
    }

    open spec fn accessed(&self) -> (OutputRegisters, OutputRegisters) {
        (OIX | OWZ, OWZ)
    }

    fn get_accessed_regs(&self) -> (regs: (OutputRegisters, OutputRegisters)) {
        (OIX | OWZ, OWZ)
    }
}

/// SET b, (IX+d), r: sets a bit of the byte at the address in WZ, and copies it into r.
#[derive(Clone, Copy)]
pub struct SetBMemIxDR {
    pub b: u8,
    pub r: Reg8,
}

impl Instruction for SetBMemIxDR {
    open spec fn valid(&self) -> bool {
        self.b < 8
    }

    open spec fn next_state(&self, s: CpuModel) -> CpuModel {
        let s0 = s;
        let addr = s0.regs.reg16(Reg16::WZ);
        let v = s0.mem_at(addr);
        let s1 = s0.after_read(addr, 3);
        let s2 = s1.after_no_mreq(addr);
        let res = v | (1u8 << self.b);
        let s3 = s2.set_regs(s2.regs.with_reg8(self.r, res));
        let s4 = s3.after_write(addr, res);
        let s5 = s4.set_regs(s4.regs.advance_pc(2));
        s5
    }

    #[verifier::spinoff_prover]
    #[verifier::rlimit(80)]
    fn execute(&self, cpu: &mut Cpu) {
        let addr: u16 = cpu.read_reg16(Reg16::WZ);
        let v: u8 = cpu.read_word(addr);
        cpu.contend_read_no_mreq(addr);
        let res: u8 = v | (1u8 << self.b);
        cpu.write_reg8(self.r, res);
        cpu.write_word(addr, res);
        cpu.inc_pc(2);
    }

    open spec fn accessed(&self) -> (OutputRegisters, OutputRegisters) {
        (OIX | output_registers_from_reg8(self.r), output_registers_from_reg8(self.r))
    }

    fn get_accessed_regs(&self) -> (regs: (OutputRegisters, OutputRegisters)) {
        (OIX | output_registers_from_reg8(self.r), output_registers_from_reg8(self.r))
    }
}

/// SET b, (IX+d): sets a bit of the byte at the address in WZ.
#[derive(Clone, Copy)]
pub struct SetBMemIxD {
    pub b: u8,
}

impl Instruction for SetBMemIxD {
    open spec fn valid(&self) -> bool {
        self.b < 8
    }

    open spec fn next_state(&self, s: CpuModel) -> CpuModel {
        let s0 = s;
        let addr = s0.regs.reg16(Reg16::WZ);
        let v = s0.mem_at(addr);
        let s1 = s0.after_read(addr, 3);
        let s2 = s1.after_no_mreq(addr);
        let res = v | (1u8 << self.b);
        let s3 = s2.after_write(addr, res);
        let s4 = s3.set_regs(s3.regs.with_reg16(Reg16::WZ, addr));
        let s5 = s4.set_regs(s4.regs.advance_pc(2));
        s5
    }

    #[verifier::spinoff_prover]
    #[verifier::rlimit(80)]
    fn execute(&self, cpu: &mut Cpu) {
        let addr: u16 = cpu.read_reg16(Reg16::WZ);
        let v: u8 = cpu.read_word(addr);
        cpu.contend_read_no_mreq(addr);
        let res: u8 = v | (1u8 << self.b);
        cpu.write_word(addr, res);
        cpu.write_reg16(Reg16::WZ, addr);
        cpu.inc_pc(2);
    }

    open spec fn accessed(&self) -> (OutputRegisters, OutputRegisters) {
        (OIX | OWZ, OWZ)
    }

    fn get_accessed_regs(&self) -> (regs: (OutputRegisters, OutputRegisters)) {
        (OIX | OWZ, OWZ)
    }
}

/// The opcodes after DD CB d (IX, the address in WZ).
#[verifier::opaque]
pub open spec fn ddcb_next(s: CpuModel, op: u8) -> CpuModel {
    match op {
        0x00u8 => (RlcMemIxDR{r:Reg8::B}).next_state(s),
        0x01u8 => (RlcMemIxDR{r:Reg8::C}).next_state(s),
        0x02u8 => (RlcMemIxDR{r:Reg8::D}).next_state(s),
        0x03u8 => (RlcMemIxDR{r:Reg8::E}).next_state(s),
        0x04u8 => (RlcMemIxDR{r:Reg8::H}).next_state(s),
        0x05u8 => (RlcMemIxDR{r:Reg8::L}).next_state(s),
        0x06u8 => (RlcMemIxD).next_state(s),
        0x07u8 => (RlcMemIxDR{r:Reg8::A}).next_state(s),
        0x08u8 => (RrcMemIxDR{r:Reg8::B}).next_state(s),
        0x09u8 => (RrcMemIxDR{r:Reg8::C}).next_state(s),
        0x0Au8 => (RrcMemIxDR{r:Reg8::D}).next_state(s),
        0x0Bu8 => (RrcMemIxDR{r:Reg8::E}).next_state(s),
        0x0Cu8 => (RrcMemIxDR{r:Reg8::H}).next_state(s),
        0x0Du8 => (RrcMemIxDR{r:Reg8::L}).next_state(s),
        0x0Eu8 => (RrcMemIxD).next_state(s),
        0x0Fu8 => (RrcMemIxDR{r:Reg8::A}).next_state(s),
        0x10u8 => (RlMemIxDR{r:Reg8::B}).next_state(s),
        0x11u8 => (RlMemIxDR{r:Reg8::C}).next_state(s),
        0x12u8 => (RlMemIxDR{r:Reg8::D}).next_state(s),
        0x13u8 => (RlMemIxDR{r:Reg8::E}).next_state(s),
        0x14u8 => (RlMemIxDR{r:Reg8::H}).next_state(s),
        0x15u8 => (RlMemIxDR{r:Reg8::L}).next_state(s),
        0x16u8 => (RlMemIxD).next_state(s),
        0x17u8 => (RlMemIxDR{r:Reg8::A}).next_state(s),
        0x18u8 => (RrMemIxDR{r:Reg8::B}).next_state(s),
        0x19u8 => (RrMemIxDR{r:Reg8::C}).next_state(s),
        0x1Au8 => (RrMemIxDR{r:Reg8::D}).next_state(s),
        0x1Bu8 => (RrMemIxDR{r:Reg8::E}).next_state(s),
        0x1Cu8 => (RrMemIxDR{r:Reg8::H}).next_state(s),
        0x1Du8 => (RrMemIxDR{r:Reg8::L}).next_state(s),
        0x1Eu8 => (RrMemIxD).next_state(s),
        0x1Fu8 => (RrMemIxDR{r:Reg8::A}).next_state(s),
        0x20u8 => (SlaMemIxDR{r:Reg8::B}).next_state(s),
        0x21u8 => (SlaMemIxDR{r:Reg8::C}).next_state(s),
        0x22u8 => (SlaMemIxDR{r:Reg8::D}).next_state(s),
        0x23u8 => (SlaMemIxDR{r:Reg8::E}).next_state(s),
        0x24u8 => (SlaMemIxDR{r:Reg8::H}).next_state(s),
        0x25u8 => (SlaMemIxDR{r:Reg8::L}).next_state(s),
        0x26u8 => (SlaMemIxD).next_state(s),
        0x27u8 => (SlaMemIxDR{r:Reg8::A}).next_state(s),
        0x28u8 => (SraMemIxDR{r:Reg8::B}).next_state(s),
        0x29u8 => (SraMemIxDR{r:Reg8::C}).next_state(s),
        0x2Au8 => (SraMemIxDR{r:Reg8::D}).next_state(s),
        0x2Bu8 => (SraMemIxDR{r:Reg8::E}).next_state(s),
        0x2Cu8 => (SraMemIxDR{r:Reg8::H}).next_state(s),
        0x2Du8 => (SraMemIxDR{r:Reg8::L}).next_state(s),
        0x2Eu8 => (SraMemIxD).next_state(s),
        0x2Fu8 => (SraMemIxDR{r:Reg8::A}).next_state(s),
        0x30u8 => (SllMemIxDR{r:Reg8::B}).next_state(s),
        0x31u8 => (SllMemIxDR{r:Reg8::C}).next_state(s),
        0x32u8 => (SllMemIxDR{r:Reg8::D}).next_state(s),
        0x33u8 => (SllMemIxDR{r:Reg8::E}).next_state(s),
        0x34u8 => (SllMemIxDR{r:Reg8::H}).next_state(s),
        0x35u8 => (SllMemIxDR{r:Reg8::L}).next_state(s),
        0x36u8 => (SllMemIxD).next_state(s),
        0x37u8 => (SllMemIxDR{r:Reg8::A}).next_state(s),
        0x38u8 => (SrlMemIxDR{r:Reg8::B}).next_state(s),
        0x39u8 => (SrlMemIxDR{r:Reg8::C}).next_state(s),
        0x3Au8 => (SrlMemIxDR{r:Reg8::D}).next_state(s),
        0x3Bu8 => (SrlMemIxDR{r:Reg8::E}).next_state(s),
        0x3Cu8 => (SrlMemIxDR{r:Reg8::H}).next_state(s),
        0x3Du8 => (SrlMemIxDR{r:Reg8::L}).next_state(s),
        0x3Eu8 => (SrlMemIxD).next_state(s),
        0x3Fu8 => (SrlMemIxDR{r:Reg8::A}).next_state(s),
        0x40u8 => (BitBMemIxD{b:0}).next_state(s),
        0x41u8 => (BitBMemIxD{b:0}).next_state(s),
        0x42u8 => (BitBMemIxD{b:0}).next_state(s),
        0x43u8 => (BitBMemIxD{b:0}).next_state(s),
        0x44u8 => (BitBMemIxD{b:0}).next_state(s),
        0x45u8 => (BitBMemIxD{b:0}).next_state(s),
        0x46u8 => (BitBMemIxD{b:0}).next_state(s),
        0x47u8 => (BitBMemIxD{b:0}).next_state(s),
        0x48u8 => (BitBMemIxD{b:1}).next_state(s),
        0x49u8 => (BitBMemIxD{b:1}).next_state(s),
        0x4Au8 => (BitBMemIxD{b:1}).next_state(s),
        0x4Bu8 => (BitBMemIxD{b:1}).next_state(s),
        0x4Cu8 => (BitBMemIxD{b:1}).next_state(s),
        0x4Du8 => (BitBMemIxD{b:1}).next_state(s),
        0x4Eu8 => (BitBMemIxD{b:1}).next_state(s),
        0x4Fu8 => (BitBMemIxD{b:1}).next_state(s),
        0x50u8 => (BitBMemIxD{b:2}).next_state(s),
        0x51u8 => (BitBMemIxD{b:2}).next_state(s),
        0x52u8 => (BitBMemIxD{b:2}).next_state(s),
        0x53u8 => (BitBMemIxD{b:2}).next_state(s),
        0x54u8 => (BitBMemIxD{b:2}).next_state(s),
        0x55u8 => (BitBMemIxD{b:2}).next_state(s),
        0x56u8 => (BitBMemIxD{b:2}).next_state(s),
        0x57u8 => (BitBMemIxD{b:2}).next_state(s),
        0x58u8 => (BitBMemIxD{b:3}).next_state(s),
        0x59u8 => (BitBMemIxD{b:3}).next_state(s),
        0x5Au8 => (BitBMemIxD{b:3}).next_state(s),
        0x5Bu8 => (BitBMemIxD{b:3}).next_state(s),
        0x5Cu8 => (BitBMemIxD{b:3}).next_state(s),
        0x5Du8 => (BitBMemIxD{b:3}).next_state(s),
        0x5Eu8 => (BitBMemIxD{b:3}).next_state(s),
        0x5Fu8 => (BitBMemIxD{b:3}).next_state(s),
        0x60u8 => (BitBMemIxD{b:4}).next_state(s),
        0x61u8 => (BitBMemIxD{b:4}).next_state(s),
        0x62u8 => (BitBMemIxD{b:4}).next_state(s),
        0x63u8 => (BitBMemIxD{b:4}).next_state(s),
        0x64u8 => (BitBMemIxD{b:4}).next_state(s),
        0x65u8 => (BitBMemIxD{b:4}).next_state(s),
        0x66u8 => (BitBMemIxD{b:4}).next_state(s),
        0x67u8 => (BitBMemIxD{b:4}).next_state(s),
        0x68u8 => (BitBMemIxD{b:5}).next_state(s),
        0x69u8 => (BitBMemIxD{b:5}).next_state(s),
        0x6Au8 => (BitBMemIxD{b:5}).next_state(s),
        0x6Bu8 => (BitBMemIxD{b:5}).next_state(s),
        0x6Cu8 => (BitBMemIxD{b:5}).next_state(s),
        0x6Du8 => (BitBMemIxD{b:5}).next_state(s),
        0x6Eu8 => (BitBMemIxD{b:5}).next_state(s),
        0x6Fu8 => (BitBMemIxD{b:5}).next_state(s),
        0x70u8 => (BitBMemIxD{b:6}).next_state(s),
        0x71u8 => (BitBMemIxD{b:6}).next_state(s),
        0x72u8 => (BitBMemIxD{b:6}).next_state(s),
        0x73u8 => (BitBMemIxD{b:6}).next_state(s),
        0x74u8 => (BitBMemIxD{b:6}).next_state(s),
        0x75u8 => (BitBMemIxD{b:6}).next_state(s),
        0x76u8 => (BitBMemIxD{b:6}).next_state(s),
        0x77u8 => (BitBMemIxD{b:6}).next_state(s),
        0x78u8 => (BitBMemIxD{b:7}).next_state(s),
        0x79u8 => (BitBMemIxD{b:7}).next_state(s),
        0x7Au8 => (BitBMemIxD{b:7}).next_state(s),
        0x7Bu8 => (BitBMemIxD{b:7}).next_state(s),
        0x7Cu8 => (BitBMemIxD{b:7}).next_state(s),
        0x7Du8 => (BitBMemIxD{b:7}).next_state(s),
        0x7Eu8 => (BitBMemIxD{b:7}).next_state(s),
        0x7Fu8 => (BitBMemIxD{b:7}).next_state(s),
        0x80u8 => (ResBMemIxDR{b:0,r:Reg8::B}).next_state(s),
        0x81u8 => (ResBMemIxDR{b:0,r:Reg8::C}).next_state(s),
        0x82u8 => (ResBMemIxDR{b:0,r:Reg8::D}).next_state(s),
        0x83u8 => (ResBMemIxDR{b:0,r:Reg8::E}).next_state(s),
        0x84u8 => (ResBMemIxDR{b:0,r:Reg8::H}).next_state(s),
        0x85u8 => (ResBMemIxDR{b:0,r:Reg8::L}).next_state(s),
        0x86u8 => (ResBMemIxD{b:0}).next_state(s),
        0x87u8 => (ResBMemIxDR{b:0,r:Reg8::A}).next_state(s),
        0x88u8 => (ResBMemIxDR{b:1,r:Reg8::B}).next_state(s),
        0x89u8 => (ResBMemIxDR{b:1,r:Reg8::C}).next_state(s),
        0x8Au8 => (ResBMemIxDR{b:1,r:Reg8::D}).next_state(s),
        0x8Bu8 => (ResBMemIxDR{b:1,r:Reg8::E}).next_state(s),
        0x8Cu8 => (ResBMemIxDR{b:1,r:Reg8::H}).next_state(s),
        0x8Du8 => (ResBMemIxDR{b:1,r:Reg8::L}).next_state(s),
        0x8Eu8 => (ResBMemIxD{b:1}).next_state(s),
        0x8Fu8 => (ResBMemIxDR{b:1,r:Reg8::A}).next_state(s),
        0x90u8 => (ResBMemIxDR{b:2,r:Reg8::B}).next_state(s),
        0x91u8 => (ResBMemIxDR{b:2,r:Reg8::C}).next_state(s),
        0x92u8 => (ResBMemIxDR{b:2,r:Reg8::D}).next_state(s),
        0x93u8 => (ResBMemIxDR{b:2,r:Reg8::E}).next_state(s),
        0x94u8 => (ResBMemIxDR{b:2,r:Reg8::H}).next_state(s),
        0x95u8 => (ResBMemIxDR{b:2,r:Reg8::L}).next_state(s),
        0x96u8 => (ResBMemIxD{b:2}).next_state(s),
        0x97u8 => (ResBMemIxDR{b:2,r:Reg8::A}).next_state(s),
        0x98u8 => (ResBMemIxDR{b:3,r:Reg8::B}).next_state(s),
        0x99u8 => (ResBMemIxDR{b:3,r:Reg8::C}).next_state(s),
        0x9Au8 => (ResBMemIxDR{b:3,r:Reg8::D}).next_state(s),
        0x9Bu8 => (ResBMemIxDR{b:3,r:Reg8::E}).next_state(s),
        0x9Cu8 => (ResBMemIxDR{b:3,r:Reg8::H}).next_state(s),
        0x9Du8 => (ResBMemIxDR{b:3,r:Reg8::L}).next_state(s),
        0x9Eu8 => (ResBMemIxD{b:3}).next_state(s),
        0x9Fu8 => (ResBMemIxDR{b:3,r:Reg8::A}).next_state(s),
        0xA0u8 => (ResBMemIxDR{b:4,r:Reg8::B}).next_state(s),
        0xA1u8 => (ResBMemIxDR{b:4,r:Reg8::C}).next_state(s),
        0xA2u8 => (ResBMemIxDR{b:4,r:Reg8::D}).next_state(s),
        0xA3u8 => (ResBMemIxDR{b:4,r:Reg8::E}).next_state(s),
        0xA4u8 => (ResBMemIxDR{b:4,r:Reg8::H}).next_state(s),
        0xA5u8 => (ResBMemIxDR{b:4,r:Reg8::L}).next_state(s),
        0xA6u8 => (ResBMemIxD{b:4}).next_state(s),
        0xA7u8 => (ResBMemIxDR{b:4,r:Reg8::A}).next_state(s),
        0xA8u8 => (ResBMemIxDR{b:5,r:Reg8::B}).next_state(s),
        0xA9u8 => (ResBMemIxDR{b:5,r:Reg8::C}).next_state(s),
        0xAAu8 => (ResBMemIxDR{b:5,r:Reg8::D}).next_state(s),
        0xABu8 => (ResBMemIxDR{b:5,r:Reg8::E}).next_state(s),
        0xACu8 => (ResBMemIxDR{b:5,r:Reg8::H}).next_state(s),
        0xADu8 => (ResBMemIxDR{b:5,r:Reg8::L}).next_state(s),
        0xAEu8 => (ResBMemIxD{b:5}).next_state(s),
        0xAFu8 => (ResBMemIxDR{b:5,r:Reg8::A}).next_state(s),
        0xB0u8 => (ResBMemIxDR{b:6,r:Reg8::B}).next_state(s),
        0xB1u8 => (ResBMemIxDR{b:6,r:Reg8::C}).next_state(s),
        0xB2u8 => (ResBMemIxDR{b:6,r:Reg8::D}).next_state(s),
        0xB3u8 => (ResBMemIxDR{b:6,r:Reg8::E}).next_state(s),
        0xB4u8 => (ResBMemIxDR{b:6,r:Reg8::H}).next_state(s),
        0xB5u8 => (ResBMemIxDR{b:6,r:Reg8::L}).next_state(s),
        0xB6u8 => (ResBMemIxD{b:6}).next_state(s),
        0xB7u8 => (ResBMemIxDR{b:6,r:Reg8::A}).next_state(s),
        0xB8u8 => (ResBMemIxDR{b:7,r:Reg8::B}).next_state(s),
        0xB9u8 => (ResBMemIxDR{b:7,r:Reg8::C}).next_state(s),
        0xBAu8 => (ResBMemIxDR{b:7,r:Reg8::D}).next_state(s),
        0xBBu8 => (ResBMemIxDR{b:7,r:Reg8::E}).next_state(s),
        0xBCu8 => (ResBMemIxDR{b:7,r:Reg8::H}).next_state(s),
        0xBDu8 => (ResBMemIxDR{b:7,r:Reg8::L}).next_state(s),
        0xBEu8 => (ResBMemIxD{b:7}).next_state(s),
        0xBFu8 => (ResBMemIxDR{b:7,r:Reg8::A}).next_state(s),
        0xC0u8 => (SetBMemIxDR{b:0,r:Reg8::B}).next_state(s),
        0xC1u8 => (SetBMemIxDR{b:0,r:Reg8::C}).next_state(s),
        0xC2u8 => (SetBMemIxDR{b:0,r:Reg8::D}).next_state(s),
        0xC3u8 => (SetBMemIxDR{b:0,r:Reg8::E}).next_state(s),
        0xC4u8 => (SetBMemIxDR{b:0,r:Reg8::H}).next_state(s),
        0xC5u8 => (SetBMemIxDR{b:0,r:Reg8::L}).next_state(s),
        0xC6u8 => (SetBMemIxD{b:0}).next_state(s),
        0xC7u8 => (SetBMemIxDR{b:0,r:Reg8::A}).next_state(s),
        0xC8u8 => (SetBMemIxDR{b:1,r:Reg8::B}).next_state(s),
        0xC9u8 => (SetBMemIxDR{b:1,r:Reg8::C}).next_state(s),
        0xCAu8 => (SetBMemIxDR{b:1,r:Reg8::D}).next_state(s),
        0xCBu8 => (SetBMemIxDR{b:1,r:Reg8::E}).next_state(s),
        0xCCu8 => (SetBMemIxDR{b:1,r:Reg8::H}).next_state(s),
        0xCDu8 => (SetBMemIxDR{b:1,r:Reg8::L}).next_state(s),
        0xCEu8 => (SetBMemIxD{b:1}).next_state(s),
        0xCFu8 => (SetBMemIxDR{b:1,r:Reg8::A}).next_state(s),
        0xD0u8 => (SetBMemIxDR{b:2,r:Reg8::B}).next_state(s),
        0xD1u8 => (SetBMemIxDR{b:2,r:Reg8::C}).next_state(s),
        0xD2u8 => (SetBMemIxDR{b:2,r:Reg8::D}).next_state(s),
        0xD3u8 => (SetBMemIxDR{b:2,r:Reg8::E}).next_state(s),
        0xD4u8 => (SetBMemIxDR{b:2,r:Reg8::H}).next_state(s),
        0xD5u8 => (SetBMemIxDR{b:2,r:Reg8::L}).next_state(s),
        0xD6u8 => (SetBMemIxD{b:2}).next_state(s),
        0xD7u8 => (SetBMemIxDR{b:2,r:Reg8::A}).next_state(s),
        0xD8u8 => (SetBMemIxDR{b:3,r:Reg8::B}).next_state(s),
        0xD9u8 => (SetBMemIxDR{b:3,r:Reg8::C}).next_state(s),
        0xDAu8 => (SetBMemIxDR{b:3,r:Reg8::D}).next_state(s),
        0xDBu8 => (SetBMemIxDR{b:3,r:Reg8::E}).next_state(s),
        0xDCu8 => (SetBMemIxDR{b:3,r:Reg8::H}).next_state(s),
        0xDDu8 => (SetBMemIxDR{b:3,r:Reg8::L}).next_state(s),
        0xDEu8 => (SetBMemIxD{b:3}).next_state(s),
        0xDFu8 => (SetBMemIxDR{b:3,r:Reg8::A}).next_state(s),
        0xE0u8 => (SetBMemIxDR{b:4,r:Reg8::B}).next_state(s),
        0xE1u8 => (SetBMemIxDR{b:4,r:Reg8::C}).next_state(s),
        0xE2u8 => (SetBMemIxDR{b:4,r:Reg8::D}).next_state(s),
        0xE3u8 => (SetBMemIxDR{b:4,r:Reg8::E}).next_state(s),
        0xE4u8 => (SetBMemIxDR{b:4,r:Reg8::H}).next_state(s),
        0xE5u8 => (SetBMemIxDR{b:4,r:Reg8::L}).next_state(s),
        0xE6u8 => (SetBMemIxD{b:4}).next_state(s),
        0xE7u8 => (SetBMemIxDR{b:4,r:Reg8::A}).next_state(s),
        0xE8u8 => (SetBMemIxDR{b:5,r:Reg8::B}).next_state(s),
        0xE9u8 => (SetBMemIxDR{b:5,r:Reg8::C}).next_state(s),
        0xEAu8 => (SetBMemIxDR{b:5,r:Reg8::D}).next_state(s),
        0xEBu8 => (SetBMemIxDR{b:5,r:Reg8::E}).next_state(s),
        0xECu8 => (SetBMemIxDR{b:5,r:Reg8::H}).next_state(s),
        0xEDu8 => (SetBMemIxDR{b:5,r:Reg8::L}).next_state(s),
        0xEEu8 => (SetBMemIxD{b:5}).next_state(s),
        0xEFu8 => (SetBMemIxDR{b:5,r:Reg8::A}).next_state(s),
        0xF0u8 => (SetBMemIxDR{b:6,r:Reg8::B}).next_state(s),
        0xF1u8 => (SetBMemIxDR{b:6,r:Reg8::C}).next_state(s),
        0xF2u8 => (SetBMemIxDR{b:6,r:Reg8::D}).next_state(s),
        0xF3u8 => (SetBMemIxDR{b:6,r:Reg8::E}).next_state(s),
        0xF4u8 => (SetBMemIxDR{b:6,r:Reg8::H}).next_state(s),
        0xF5u8 => (SetBMemIxDR{b:6,r:Reg8::L}).next_state(s),
        0xF6u8 => (SetBMemIxD{b:6}).next_state(s),
        0xF7u8 => (SetBMemIxDR{b:6,r:Reg8::A}).next_state(s),
        0xF8u8 => (SetBMemIxDR{b:7,r:Reg8::B}).next_state(s),
        0xF9u8 => (SetBMemIxDR{b:7,r:Reg8::C}).next_state(s),
        0xFAu8 => (SetBMemIxDR{b:7,r:Reg8::D}).next_state(s),
        0xFBu8 => (SetBMemIxDR{b:7,r:Reg8::E}).next_state(s),
        0xFCu8 => (SetBMemIxDR{b:7,r:Reg8::H}).next_state(s),
        0xFDu8 => (SetBMemIxDR{b:7,r:Reg8::L}).next_state(s),
        0xFEu8 => (SetBMemIxD{b:7}).next_state(s),
        0xFFu8 => (SetBMemIxDR{b:7,r:Reg8::A}).next_state(s),
    }
}

/// Whether the table has an instruction for the opcode.
pub open spec fn ddcb_supported(op: u8) -> bool {
    true
}

/// Executes the table's instruction for `op`; says whether there is one.
#[verifier::rlimit(100)]
pub fn execute_ddcb(cpu: &mut Cpu, op: u8) -> (supported: bool)
    requires
        old(cpu).wf(),
        old(cpu)@.tcycles <= TCYCLE_CEILING,
    ensures
        final(cpu).wf(),
        final(cpu)@ == ddcb_next(old(cpu)@, op),
        supported == ddcb_supported(op),
        !supported ==> final(cpu)@ == old(cpu)@,
        final(cpu)@.tcycles <= old(cpu)@.tcycles + MAX_STEP_TCYCLES,
{
    proof {
        reveal(ddcb_next);
    }
    match op {
        0x00 => {
            (RlcMemIxDR{r:Reg8::B}).execute(cpu);
            true
        },
        0x01 => {
            (RlcMemIxDR{r:Reg8::C}).execute(cpu);
            true
        },
        0x02 => {
            (RlcMemIxDR{r:Reg8::D}).execute(cpu);
            true
        },
        0x03 => {
            (RlcMemIxDR{r:Reg8::E}).execute(cpu);
            true
        },
        0x04 => {
            (RlcMemIxDR{r:Reg8::H}).execute(cpu);
            true
        },
        0x05 => {
            (RlcMemIxDR{r:Reg8::L}).execute(cpu);
            true
        },
        0x06 => {
            (RlcMemIxD).execute(cpu);
            true
        },
        0x07 => {
            (RlcMemIxDR{r:Reg8::A}).execute(cpu);
            true
        },
        0x08 => {
            (RrcMemIxDR{r:Reg8::B}).execute(cpu);
            true
        },
        0x09 => {
            (RrcMemIxDR{r:Reg8::C}).execute(cpu);
            true
        },
        0x0A => {
            (RrcMemIxDR{r:Reg8::D}).execute(cpu);
            true
        },
        0x0B => {
            (RrcMemIxDR{r:Reg8::E}).execute(cpu);
            true
        },
        0x0C => {
            (RrcMemIxDR{r:Reg8::H}).execute(cpu);
            true
        },
        0x0D => {
            (RrcMemIxDR{r:Reg8::L}).execute(cpu);
            true
        },
        0x0E => {
            (RrcMemIxD).execute(cpu);
            true
        },
        0x0F => {
            (RrcMemIxDR{r:Reg8::A}).execute(cpu);
            true
        },
        0x10 => {
            (RlMemIxDR{r:Reg8::B}).execute(cpu);
            true
        },
        0x11 => {
            (RlMemIxDR{r:Reg8::C}).execute(cpu);
            true
        },
        0x12 => {
            (RlMemIxDR{r:Reg8::D}).execute(cpu);
            true
        },
        0x13 => {
            (RlMemIxDR{r:Reg8::E}).execute(cpu);
            true
        },
        0x14 => {
            (RlMemIxDR{r:Reg8::H}).execute(cpu);
            true
        },
        0x15 => {
            (RlMemIxDR{r:Reg8::L}).execute(cpu);
            true
        },
        0x16 => {
            (RlMemIxD).execute(cpu);
            true
        },
        0x17 => {
            (RlMemIxDR{r:Reg8::A}).execute(cpu);
            true
        },
        0x18 => {
            (RrMemIxDR{r:Reg8::B}).execute(cpu);
            true
        },
        0x19 => {
            (RrMemIxDR{r:Reg8::C}).execute(cpu);
            true
        },
        0x1A => {
            (RrMemIxDR{r:Reg8::D}).execute(cpu);
            true
        },
        0x1B => {
            (RrMemIxDR{r:Reg8::E}).execute(cpu);
            true
        },
        0x1C => {
            (RrMemIxDR{r:Reg8::H}).execute(cpu);
            true
        },
        0x1D => {
            (RrMemIxDR{r:Reg8::L}).execute(cpu);
            true
        },
        0x1E => {
            (RrMemIxD).execute(cpu);
            true
        },
        0x1F => {
            (RrMemIxDR{r:Reg8::A}).execute(cpu);
            true
        },
        0x20 => {
            (SlaMemIxDR{r:Reg8::B}).execute(cpu);
            true
        },
        0x21 => {
            (SlaMemIxDR{r:Reg8::C}).execute(cpu);
            true
        },
        0x22 => {
            (SlaMemIxDR{r:Reg8::D}).execute(cpu);
            true
        },
        0x23 => {
            (SlaMemIxDR{r:Reg8::E}).execute(cpu);
            true
        },
        0x24 => {
            (SlaMemIxDR{r:Reg8::H}).execute(cpu);
            true
        },
        0x25 => {
            (SlaMemIxDR{r:Reg8::L}).execute(cpu);
            true
        },
        0x26 => {
            (SlaMemIxD).execute(cpu);
            true
        },
        0x27 => {
            (SlaMemIxDR{r:Reg8::A}).execute(cpu);
            true
        },
        0x28 => {
            (SraMemIxDR{r:Reg8::B}).execute(cpu);
            true
        },
        0x29 => {
            (SraMemIxDR{r:Reg8::C}).execute(cpu);
            true
        },
        0x2A => {
            (SraMemIxDR{r:Reg8::D}).execute(cpu);
            true
        },
        0x2B => {
            (SraMemIxDR{r:Reg8::E}).execute(cpu);
            true
        },
        0x2C => {
            (SraMemIxDR{r:Reg8::H}).execute(cpu);
            true
        },
        0x2D => {
            (SraMemIxDR{r:Reg8::L}).execute(cpu);
            true
        },
        0x2E => {
            (SraMemIxD).execute(cpu);
            true
        },
        0x2F => {
            (SraMemIxDR{r:Reg8::A}).execute(cpu);
            true
        },
        0x30 => {
            (SllMemIxDR{r:Reg8::B}).execute(cpu);
            true
        },
        0x31 => {
            (SllMemIxDR{r:Reg8::C}).execute(cpu);
            true
        },
        0x32 => {
            (SllMemIxDR{r:Reg8::D}).execute(cpu);
            true
        },
        0x33 => {
            (SllMemIxDR{r:Reg8::E}).execute(cpu);
            true
        },
        0x34 => {
            (SllMemIxDR{r:Reg8::H}).execute(cpu);
            true
        },
        0x35 => {
            (SllMemIxDR{r:Reg8::L}).execute(cpu);
            true
        },
        0x36 => {
            (SllMemIxD).execute(cpu);
            true
        },
        0x37 => {
            (SllMemIxDR{r:Reg8::A}).execute(cpu);
            true
        },
        0x38 => {
            (SrlMemIxDR{r:Reg8::B}).execute(cpu);
            true
        },
        0x39 => {
            (SrlMemIxDR{r:Reg8::C}).execute(cpu);
            true
        },
        0x3A => {
            (SrlMemIxDR{r:Reg8::D}).execute(cpu);
            true
        },
        0x3B => {
            (SrlMemIxDR{r:Reg8::E}).execute(cpu);
            true
        },
        0x3C => {
            (SrlMemIxDR{r:Reg8::H}).execute(cpu);
            true
        },
        0x3D => {
            (SrlMemIxDR{r:Reg8::L}).execute(cpu);
            true
        },
        0x3E => {
            (SrlMemIxD).execute(cpu);
            true
        },
        0x3F => {
            (SrlMemIxDR{r:Reg8::A}).execute(cpu);
            true
        },
        0x40 => {
            (BitBMemIxD{b:0}).execute(cpu);
            true
        },
        0x41 => {
            (BitBMemIxD{b:0}).execute(cpu);
            true
        },
        0x42 => {
            (BitBMemIxD{b:0}).execute(cpu);
            true
        },
        0x43 => {
            (BitBMemIxD{b:0}).execute(cpu);
            true
        },
        0x44 => {
            (BitBMemIxD{b:0}).execute(cpu);
            true
        },
        0x45 => {
            (BitBMemIxD{b:0}).execute(cpu);
            true
        },
        0x46 => {
            (BitBMemIxD{b:0}).execute(cpu);
            true
        },
        0x47 => {
            (BitBMemIxD{b:0}).execute(cpu);
            true
        },
        0x48 => {
            (BitBMemIxD{b:1}).execute(cpu);
            true
        },
        0x49 => {
            (BitBMemIxD{b:1}).execute(cpu);
            true
        },
        0x4A => {
            (BitBMemIxD{b:1}).execute(cpu);
            true
        },
        0x4B => {
            (BitBMemIxD{b:1}).execute(cpu);
            true
        },
        0x4C => {
            (BitBMemIxD{b:1}).execute(cpu);
            true
        },
        0x4D => {
            (BitBMemIxD{b:1}).execute(cpu);
            true
        },
        0x4E => {
            (BitBMemIxD{b:1}).execute(cpu);
            true
        },
        0x4F => {
            (BitBMemIxD{b:1}).execute(cpu);
            true
        },
        0x50 => {
            (BitBMemIxD{b:2}).execute(cpu);
            true
        },
        0x51 => {
            (BitBMemIxD{b:2}).execute(cpu);
            true
        },
        0x52 => {
            (BitBMemIxD{b:2}).execute(cpu);
            true
        },
        0x53 => {
            (BitBMemIxD{b:2}).execute(cpu);
            true
        },
        0x54 => {
            (BitBMemIxD{b:2}).execute(cpu);
            true
        },
        0x55 => {
            (BitBMemIxD{b:2}).execute(cpu);
            true
        },
        0x56 => {
            (BitBMemIxD{b:2}).execute(cpu);
            true
        },
        0x57 => {
            (BitBMemIxD{b:2}).execute(cpu);
            true
        },
        0x58 => {
            (BitBMemIxD{b:3}).execute(cpu);
            true
        },
        0x59 => {
            (BitBMemIxD{b:3}).execute(cpu);
            true
        },
        0x5A => {
            (BitBMemIxD{b:3}).execute(cpu);
            true
        },
        0x5B => {
            (BitBMemIxD{b:3}).execute(cpu);
            true
        },
        0x5C => {
            (BitBMemIxD{b:3}).execute(cpu);
            true
        },
        0x5D => {
            (BitBMemIxD{b:3}).execute(cpu);
            true
        },
        0x5E => {
            (BitBMemIxD{b:3}).execute(cpu);
            true
        },
        0x5F => {
            (BitBMemIxD{b:3}).execute(cpu);
            true
        },
        0x60 => {
            (BitBMemIxD{b:4}).execute(cpu);
            true
        },
        0x61 => {
            (BitBMemIxD{b:4}).execute(cpu);
            true
        },
        0x62 => {
            (BitBMemIxD{b:4}).execute(cpu);
            true
        },
        0x63 => {
            (BitBMemIxD{b:4}).execute(cpu);
            true
        },
        0x64 => {
            (BitBMemIxD{b:4}).execute(cpu);
            true
        },
        0x65 => {
            (BitBMemIxD{b:4}).execute(cpu);
            true
        },
        0x66 => {
            (BitBMemIxD{b:4}).execute(cpu);
            true
        },
        0x67 => {
            (BitBMemIxD{b:4}).execute(cpu);
            true
        },
        0x68 => {
            (BitBMemIxD{b:5}).execute(cpu);
            true
        },
        0x69 => {
            (BitBMemIxD{b:5}).execute(cpu);
            true
        },
        0x6A => {
            (BitBMemIxD{b:5}).execute(cpu);
            true
        },
        0x6B => {
            (BitBMemIxD{b:5}).execute(cpu);
            true
        },
        0x6C => {
            (BitBMemIxD{b:5}).execute(cpu);
            true
        },
        0x6D => {
            (BitBMemIxD{b:5}).execute(cpu);
            true
        },
        0x6E => {
            (BitBMemIxD{b:5}).execute(cpu);
            true
        },
        0x6F => {
            (BitBMemIxD{b:5}).execute(cpu);
            true
        },
        0x70 => {
            (BitBMemIxD{b:6}).execute(cpu);
            true
        },
        0x71 => {
            (BitBMemIxD{b:6}).execute(cpu);
            true
        },
        0x72 => {
            (BitBMemIxD{b:6}).execute(cpu);
            true
        },
        0x73 => {
            (BitBMemIxD{b:6}).execute(cpu);
            true
        },
        0x74 => {
            (BitBMemIxD{b:6}).execute(cpu);
            true
        },
        0x75 => {
            (BitBMemIxD{b:6}).execute(cpu);
            true
        },
        0x76 => {
            (BitBMemIxD{b:6}).execute(cpu);
            true
        },
        0x77 => {
            (BitBMemIxD{b:6}).execute(cpu);
            true
        },
        0x78 => {
            (BitBMemIxD{b:7}).execute(cpu);
            true
        },
        0x79 => {
            (BitBMemIxD{b:7}).execute(cpu);
            true
        },
        0x7A => {
            (BitBMemIxD{b:7}).execute(cpu);
            true
        },
        0x7B => {
            (BitBMemIxD{b:7}).execute(cpu);
            true
        },
        0x7C => {
            (BitBMemIxD{b:7}).execute(cpu);
            true
        },
        0x7D => {
            (BitBMemIxD{b:7}).execute(cpu);
            true
        },
        0x7E => {
            (BitBMemIxD{b:7}).execute(cpu);
            true
        },
        0x7F => {
            (BitBMemIxD{b:7}).execute(cpu);
            true
        },
        0x80 => {
            (ResBMemIxDR{b:0,r:Reg8::B}).execute(cpu);
            true
        },
        0x81 => {
            (ResBMemIxDR{b:0,r:Reg8::C}).execute(cpu);
            true
        },
        0x82 => {
            (ResBMemIxDR{b:0,r:Reg8::D}).execute(cpu);
            true
        },
        0x83 => {
            (ResBMemIxDR{b:0,r:Reg8::E}).execute(cpu);
            true
        },
        0x84 => {
            (ResBMemIxDR{b:0,r:Reg8::H}).execute(cpu);
            true
        },
        0x85 => {
            (ResBMemIxDR{b:0,r:Reg8::L}).execute(cpu);
            true
        },
        0x86 => {
            (ResBMemIxD{b:0}).execute(cpu);
            true
        },
        0x87 => {
            (ResBMemIxDR{b:0,r:Reg8::A}).execute(cpu);
            true
        },
        0x88 => {
            (ResBMemIxDR{b:1,r:Reg8::B}).execute(cpu);
            true
        },
        0x89 => {
            (ResBMemIxDR{b:1,r:Reg8::C}).execute(cpu);
            true
        },
        0x8A => {
            (ResBMemIxDR{b:1,r:Reg8::D}).execute(cpu);
            true
        },
        0x8B => {
            (ResBMemIxDR{b:1,r:Reg8::E}).execute(cpu);
            true
        },
        0x8C => {
            (ResBMemIxDR{b:1,r:Reg8::H}).execute(cpu);
            true
        },
        0x8D => {
            (ResBMemIxDR{b:1,r:Reg8::L}).execute(cpu);
            true
        },
        0x8E => {
            (ResBMemIxD{b:1}).execute(cpu);
            true
        },
        0x8F => {
            (ResBMemIxDR{b:1,r:Reg8::A}).execute(cpu);
            true
        },
        0x90 => {
            (ResBMemIxDR{b:2,r:Reg8::B}).execute(cpu);
            true
        },
        0x91 => {
            (ResBMemIxDR{b:2,r:Reg8::C}).execute(cpu);
            true
        },
        0x92 => {
            (ResBMemIxDR{b:2,r:Reg8::D}).execute(cpu);
            true
        },
        0x93 => {
            (ResBMemIxDR{b:2,r:Reg8::E}).execute(cpu);
            true
        },
        0x94 => {
            (ResBMemIxDR{b:2,r:Reg8::H}).execute(cpu);
            true
        },
        0x95 => {
            (ResBMemIxDR{b:2,r:Reg8::L}).execute(cpu);
            true
        },
        0x96 => {
            (ResBMemIxD{b:2}).execute(cpu);
            true
        },
        0x97 => {
            (ResBMemIxDR{b:2,r:Reg8::A}).execute(cpu);
            true
        },
        0x98 => {
            (ResBMemIxDR{b:3,r:Reg8::B}).execute(cpu);
            true
        },
        0x99 => {
            (ResBMemIxDR{b:3,r:Reg8::C}).execute(cpu);
            true
        },
        0x9A => {
            (ResBMemIxDR{b:3,r:Reg8::D}).execute(cpu);
            true
        },
        0x9B => {
            (ResBMemIxDR{b:3,r:Reg8::E}).execute(cpu);
            true
        },
        0x9C => {
            (ResBMemIxDR{b:3,r:Reg8::H}).execute(cpu);
            true
        },
        0x9D => {
            (ResBMemIxDR{b:3,r:Reg8::L}).execute(cpu);
            true
        },
        0x9E => {
            (ResBMemIxD{b:3}).execute(cpu);
            true
        },
        0x9F => {
            (ResBMemIxDR{b:3,r:Reg8::A}).execute(cpu);
            true
        },
        0xA0 => {
            (ResBMemIxDR{b:4,r:Reg8::B}).execute(cpu);
            true
        },
        0xA1 => {
            (ResBMemIxDR{b:4,r:Reg8::C}).execute(cpu);
            true
        },
        0xA2 => {
            (ResBMemIxDR{b:4,r:Reg8::D}).execute(cpu);
            true
        },
        0xA3 => {
            (ResBMemIxDR{b:4,r:Reg8::E}).execute(cpu);
            true
        },
        0xA4 => {
            (ResBMemIxDR{b:4,r:Reg8::H}).execute(cpu);
            true
        },
        0xA5 => {
            (ResBMemIxDR{b:4,r:Reg8::L}).execute(cpu);
            true
        },
        0xA6 => {
            (ResBMemIxD{b:4}).execute(cpu);
            true
        },
        0xA7 => {
            (ResBMemIxDR{b:4,r:Reg8::A}).execute(cpu);
            true
        },
        0xA8 => {
            (ResBMemIxDR{b:5,r:Reg8::B}).execute(cpu);
            true
        },
        0xA9 => {
            (ResBMemIxDR{b:5,r:Reg8::C}).execute(cpu);
            true
        },
        0xAA => {
            (ResBMemIxDR{b:5,r:Reg8::D}).execute(cpu);
            true
        },
        0xAB => {
            (ResBMemIxDR{b:5,r:Reg8::E}).execute(cpu);
            true
        },
        0xAC => {
            (ResBMemIxDR{b:5,r:Reg8::H}).execute(cpu);
            true
        },
        0xAD => {
            (ResBMemIxDR{b:5,r:Reg8::L}).execute(cpu);
            true
        },
        0xAE => {
            (ResBMemIxD{b:5}).execute(cpu);
            true
        },
        0xAF => {
            (ResBMemIxDR{b:5,r:Reg8::A}).execute(cpu);
            true
        },
        0xB0 => {
            (ResBMemIxDR{b:6,r:Reg8::B}).execute(cpu);
            true
        },
        0xB1 => {
            (ResBMemIxDR{b:6,r:Reg8::C}).execute(cpu);
            true
        },
        0xB2 => {
            (ResBMemIxDR{b:6,r:Reg8::D}).execute(cpu);
            true
        },
        0xB3 => {
            (ResBMemIxDR{b:6,r:Reg8::E}).execute(cpu);
            true
        },
        0xB4 => {
            (ResBMemIxDR{b:6,r:Reg8::H}).execute(cpu);
            true
        },
        0xB5 => {
            (ResBMemIxDR{b:6,r:Reg8::L}).execute(cpu);
            true
        },
        0xB6 => {
            (ResBMemIxD{b:6}).execute(cpu);
            true
        },
        0xB7 => {
            (ResBMemIxDR{b:6,r:Reg8::A}).execute(cpu);
            true
        },
        0xB8 => {
            (ResBMemIxDR{b:7,r:Reg8::B}).execute(cpu);
            true
        },
        0xB9 => {
            (ResBMemIxDR{b:7,r:Reg8::C}).execute(cpu);
            true
        },
        0xBA => {
            (ResBMemIxDR{b:7,r:Reg8::D}).execute(cpu);
            true
        },
        0xBB => {
            (ResBMemIxDR{b:7,r:Reg8::E}).execute(cpu);
            true
        },
        0xBC => {
            (ResBMemIxDR{b:7,r:Reg8::H}).execute(cpu);
            true
        },
        0xBD => {
            (ResBMemIxDR{b:7,r:Reg8::L}).execute(cpu);
            true
        },
        0xBE => {
            (ResBMemIxD{b:7}).execute(cpu);
            true
        },
        0xBF => {
            (ResBMemIxDR{b:7,r:Reg8::A}).execute(cpu);
            true
        },
        0xC0 => {
            (SetBMemIxDR{b:0,r:Reg8::B}).execute(cpu);
            true
        },
        0xC1 => {
            (SetBMemIxDR{b:0,r:Reg8::C}).execute(cpu);
            true
        },
        0xC2 => {
            (SetBMemIxDR{b:0,r:Reg8::D}).execute(cpu);
            true
        },
        0xC3 => {
            (SetBMemIxDR{b:0,r:Reg8::E}).execute(cpu);
            true
        },
        0xC4 => {
            (SetBMemIxDR{b:0,r:Reg8::H}).execute(cpu);
            true
        },
        0xC5 => {
            (SetBMemIxDR{b:0,r:Reg8::L}).execute(cpu);
            true
        },
        0xC6 => {
            (SetBMemIxD{b:0}).execute(cpu);
            true
        },
        0xC7 => {
            (SetBMemIxDR{b:0,r:Reg8::A}).execute(cpu);
            true
        },
        0xC8 => {
            (SetBMemIxDR{b:1,r:Reg8::B}).execute(cpu);
            true
        },
        0xC9 => {
            (SetBMemIxDR{b:1,r:Reg8::C}).execute(cpu);
            true
        },
        0xCA => {
            (SetBMemIxDR{b:1,r:Reg8::D}).execute(cpu);
            true
        },
        0xCB => {
            (SetBMemIxDR{b:1,r:Reg8::E}).execute(cpu);
            true
        },
        0xCC => {
            (SetBMemIxDR{b:1,r:Reg8::H}).execute(cpu);
            true
        },
        0xCD => {
            (SetBMemIxDR{b:1,r:Reg8::L}).execute(cpu);
            true
        },
        0xCE => {
            (SetBMemIxD{b:1}).execute(cpu);
            true
        },
        0xCF => {
            (SetBMemIxDR{b:1,r:Reg8::A}).execute(cpu);
            true
        },
        0xD0 => {
            (SetBMemIxDR{b:2,r:Reg8::B}).execute(cpu);
            true
        },
        0xD1 => {
            (SetBMemIxDR{b:2,r:Reg8::C}).execute(cpu);
            true
        },
        0xD2 => {
            (SetBMemIxDR{b:2,r:Reg8::D}).execute(cpu);
            true
        },
        0xD3 => {
            (SetBMemIxDR{b:2,r:Reg8::E}).execute(cpu);
            true
        },
        0xD4 => {
            (SetBMemIxDR{b:2,r:Reg8::H}).execute(cpu);
            true
        },
        0xD5 => {
            (SetBMemIxDR{b:2,r:Reg8::L}).execute(cpu);
            true
        },
        0xD6 => {
            (SetBMemIxD{b:2}).execute(cpu);
            true
        },
        0xD7 => {
            (SetBMemIxDR{b:2,r:Reg8::A}).execute(cpu);
            true
        },
        0xD8 => {
            (SetBMemIxDR{b:3,r:Reg8::B}).execute(cpu);
            true
        },
        0xD9 => {
            (SetBMemIxDR{b:3,r:Reg8::C}).execute(cpu);
            true
        },
        0xDA => {
            (SetBMemIxDR{b:3,r:Reg8::D}).execute(cpu);
            true
        },
        0xDB => {
            (SetBMemIxDR{b:3,r:Reg8::E}).execute(cpu);
            true
        },
        0xDC => {
            (SetBMemIxDR{b:3,r:Reg8::H}).execute(cpu);
            true
        },
        0xDD => {
            (SetBMemIxDR{b:3,r:Reg8::L}).execute(cpu);
            true
        },
        0xDE => {
            (SetBMemIxD{b:3}).execute(cpu);
            true
        },
        0xDF => {
            (SetBMemIxDR{b:3,r:Reg8::A}).execute(cpu);
            true
        },
        0xE0 => {
            (SetBMemIxDR{b:4,r:Reg8::B}).execute(cpu);
            true
        },
        0xE1 => {
            (SetBMemIxDR{b:4,r:Reg8::C}).execute(cpu);
            true
        },
        0xE2 => {
            (SetBMemIxDR{b:4,r:Reg8::D}).execute(cpu);
            true
        },
        0xE3 => {
            (SetBMemIxDR{b:4,r:Reg8::E}).execute(cpu);
            true
        },
        0xE4 => {
            (SetBMemIxDR{b:4,r:Reg8::H}).execute(cpu);
            true
        },
        0xE5 => {
            (SetBMemIxDR{b:4,r:Reg8::L}).execute(cpu);
            true
        },
        0xE6 => {
            (SetBMemIxD{b:4}).execute(cpu);
            true
        },
        0xE7 => {
            (SetBMemIxDR{b:4,r:Reg8::A}).execute(cpu);
            true
        },
        0xE8 => {
            (SetBMemIxDR{b:5,r:Reg8::B}).execute(cpu);
            true
        },
        0xE9 => {
            (SetBMemIxDR{b:5,r:Reg8::C}).execute(cpu);
            true
        },
        0xEA => {
            (SetBMemIxDR{b:5,r:Reg8::D}).execute(cpu);
            true
        },
        0xEB => {
            (SetBMemIxDR{b:5,r:Reg8::E}).execute(cpu);
            true
        },
        0xEC => {
            (SetBMemIxDR{b:5,r:Reg8::H}).execute(cpu);
            true
        },
        0xED => {
            (SetBMemIxDR{b:5,r:Reg8::L}).execute(cpu);
            true
        },
        0xEE => {
            (SetBMemIxD{b:5}).execute(cpu);
            true
        },
        0xEF => {
            (SetBMemIxDR{b:5,r:Reg8::A}).execute(cpu);
            true
        },
        0xF0 => {
            (SetBMemIxDR{b:6,r:Reg8::B}).execute(cpu);
            true
        },
        0xF1 => {
            (SetBMemIxDR{b:6,r:Reg8::C}).execute(cpu);
            true
        },
        0xF2 => {
            (SetBMemIxDR{b:6,r:Reg8::D}).execute(cpu);
            true
        },
        0xF3 => {
            (SetBMemIxDR{b:6,r:Reg8::E}).execute(cpu);
            true
        },
        0xF4 => {
            (SetBMemIxDR{b:6,r:Reg8::H}).execute(cpu);
            true
        },
        0xF5 => {
            (SetBMemIxDR{b:6,r:Reg8::L}).execute(cpu);
            true
        },
        0xF6 => {
            (SetBMemIxD{b:6}).execute(cpu);
            true
        },
        0xF7 => {
            (SetBMemIxDR{b:6,r:Reg8::A}).execute(cpu);
            true
        },
        0xF8 => {
            (SetBMemIxDR{b:7,r:Reg8::B}).execute(cpu);
            true
        },
        0xF9 => {
            (SetBMemIxDR{b:7,r:Reg8::C}).execute(cpu);
            true
        },
        0xFA => {
            (SetBMemIxDR{b:7,r:Reg8::D}).execute(cpu);
            true
        },
        0xFB => {
            (SetBMemIxDR{b:7,r:Reg8::E}).execute(cpu);
            true
        },
        0xFC => {
            (SetBMemIxDR{b:7,r:Reg8::H}).execute(cpu);
            true
        },
        0xFD => {
            (SetBMemIxDR{b:7,r:Reg8::L}).execute(cpu);
            true
        },
        0xFE => {
            (SetBMemIxD{b:7}).execute(cpu);
            true
        },
        0xFF => {
            (SetBMemIxDR{b:7,r:Reg8::A}).execute(cpu);
            true
        },
    }
}

/// The registers the debugger shows around the instruction for `op`;
/// none for an opcode the table lacks.
#[verifier::opaque]
pub open spec fn ddcb_accessed(op: u8) -> (OutputRegisters, OutputRegisters) {
    match op {
        0x00u8 => (RlcMemIxDR{r:Reg8::B}).accessed(),
        0x01u8 => (RlcMemIxDR{r:Reg8::C}).accessed(),
        0x02u8 => (RlcMemIxDR{r:Reg8::D}).accessed(),
        0x03u8 => (RlcMemIxDR{r:Reg8::E}).accessed(),
        0x04u8 => (RlcMemIxDR{r:Reg8::H}).accessed(),
        0x05u8 => (RlcMemIxDR{r:Reg8::L}).accessed(),
        0x06u8 => (RlcMemIxD).accessed(),
        0x07u8 => (RlcMemIxDR{r:Reg8::A}).accessed(),
        0x08u8 => (RrcMemIxDR{r:Reg8::B}).accessed(),
        0x09u8 => (RrcMemIxDR{r:Reg8::C}).accessed(),
        0x0Au8 => (RrcMemIxDR{r:Reg8::D}).accessed(),
        0x0Bu8 => (RrcMemIxDR{r:Reg8::E}).accessed(),
        0x0Cu8 => (RrcMemIxDR{r:Reg8::H}).accessed(),
        0x0Du8 => (RrcMemIxDR{r:Reg8::L}).accessed(),
        0x0Eu8 => (RrcMemIxD).accessed(),
        0x0Fu8 => (RrcMemIxDR{r:Reg8::A}).accessed(),
        0x10u8 => (RlMemIxDR{r:Reg8::B}).accessed(),
        0x11u8 => (RlMemIxDR{r:Reg8::C}).accessed(),
        0x12u8 => (RlMemIxDR{r:Reg8::D}).accessed(),
        0x13u8 => (RlMemIxDR{r:Reg8::E}).accessed(),
        0x14u8 => (RlMemIxDR{r:Reg8::H}).accessed(),
        0x15u8 => (RlMemIxDR{r:Reg8::L}).accessed(),
        0x16u8 => (RlMemIxD).accessed(),
        0x17u8 => (RlMemIxDR{r:Reg8::A}).accessed(),
        0x18u8 => (RrMemIxDR{r:Reg8::B}).accessed(),
        0x19u8 => (RrMemIxDR{r:Reg8::C}).accessed(),
        0x1Au8 => (RrMemIxDR{r:Reg8::D}).accessed(),
        0x1Bu8 => (RrMemIxDR{r:Reg8::E}).accessed(),
        0x1Cu8 => (RrMemIxDR{r:Reg8::H}).accessed(),
        0x1Du8 => (RrMemIxDR{r:Reg8::L}).accessed(),
        0x1Eu8 => (RrMemIxD).accessed(),
        0x1Fu8 => (RrMemIxDR{r:Reg8::A}).accessed(),
        0x20u8 => (SlaMemIxDR{r:Reg8::B}).accessed(),
        0x21u8 => (SlaMemIxDR{r:Reg8::C}).accessed(),
        0x22u8 => (SlaMemIxDR{r:Reg8::D}).accessed(),
        0x23u8 => (SlaMemIxDR{r:Reg8::E}).accessed(),
        0x24u8 => (SlaMemIxDR{r:Reg8::H}).accessed(),
        0x25u8 => (SlaMemIxDR{r:Reg8::L}).accessed(),
        0x26u8 => (SlaMemIxD).accessed(),
        0x27u8 => (SlaMemIxDR{r:Reg8::A}).accessed(),
        0x28u8 => (SraMemIxDR{r:Reg8::B}).accessed(),
        0x29u8 => (SraMemIxDR{r:Reg8::C}).accessed(),
        0x2Au8 => (SraMemIxDR{r:Reg8::D}).accessed(),
        0x2Bu8 => (SraMemIxDR{r:Reg8::E}).accessed(),
        0x2Cu8 => (SraMemIxDR{r:Reg8::H}).accessed(),
        0x2Du8 => (SraMemIxDR{r:Reg8::L}).accessed(),
        0x2Eu8 => (SraMemIxD).accessed(),
        0x2Fu8 => (SraMemIxDR{r:Reg8::A}).accessed(),
        0x30u8 => (SllMemIxDR{r:Reg8::B}).accessed(),
        0x31u8 => (SllMemIxDR{r:Reg8::C}).accessed(),
        0x32u8 => (SllMemIxDR{r:Reg8::D}).accessed(),
        0x33u8 => (SllMemIxDR{r:Reg8::E}).accessed(),
        0x34u8 => (SllMemIxDR{r:Reg8::H}).accessed(),
        0x35u8 => (SllMemIxDR{r:Reg8::L}).accessed(),
        0x36u8 => (SllMemIxD).accessed(),
        0x37u8 => (SllMemIxDR{r:Reg8::A}).accessed(),
        0x38u8 => (SrlMemIxDR{r:Reg8::B}).accessed(),
        0x39u8 => (SrlMemIxDR{r:Reg8::C}).accessed(),
        0x3Au8 => (SrlMemIxDR{r:Reg8::D}).accessed(),
        0x3Bu8 => (SrlMemIxDR{r:Reg8::E}).accessed(),
        0x3Cu8 => (SrlMemIxDR{r:Reg8::H}).accessed(),
        0x3Du8 => (SrlMemIxDR{r:Reg8::L}).accessed(),
        0x3Eu8 => (SrlMemIxD).accessed(),
        0x3Fu8 => (SrlMemIxDR{r:Reg8::A}).accessed(),
        0x40u8 => (BitBMemIxD{b:0}).accessed(),
        0x41u8 => (BitBMemIxD{b:0}).accessed(),
        0x42u8 => (BitBMemIxD{b:0}).accessed(),
        0x43u8 => (BitBMemIxD{b:0}).accessed(),
        0x44u8 => (BitBMemIxD{b:0}).accessed(),
        0x45u8 => (BitBMemIxD{b:0}).accessed(),
        0x46u8 => (BitBMemIxD{b:0}).accessed(),
        0x47u8 => (BitBMemIxD{b:0}).accessed(),
        0x48u8 => (BitBMemIxD{b:1}).accessed(),
        0x49u8 => (BitBMemIxD{b:1}).accessed(),
        0x4Au8 => (BitBMemIxD{b:1}).accessed(),
        0x4Bu8 => (BitBMemIxD{b:1}).accessed(),
        0x4Cu8 => (BitBMemIxD{b:1}).accessed(),
        0x4Du8 => (BitBMemIxD{b:1}).accessed(),
        0x4Eu8 => (BitBMemIxD{b:1}).accessed(),
        0x4Fu8 => (BitBMemIxD{b:1}).accessed(),
        0x50u8 => (BitBMemIxD{b:2}).accessed(),
        0x51u8 => (BitBMemIxD{b:2}).accessed(),
        0x52u8 => (BitBMemIxD{b:2}).accessed(),
        0x53u8 => (BitBMemIxD{b:2}).accessed(),
        0x54u8 => (BitBMemIxD{b:2}).accessed(),
        0x55u8 => (BitBMemIxD{b:2}).accessed(),
        0x56u8 => (BitBMemIxD{b:2}).accessed(),
        0x57u8 => (BitBMemIxD{b:2}).accessed(),
        0x58u8 => (BitBMemIxD{b:3}).accessed(),
        0x59u8 => (BitBMemIxD{b:3}).accessed(),
        0x5Au8 => (BitBMemIxD{b:3}).accessed(),
        0x5Bu8 => (BitBMemIxD{b:3}).accessed(),
        0x5Cu8 => (BitBMemIxD{b:3}).accessed(),
        0x5Du8 => (BitBMemIxD{b:3}).accessed(),
        0x5Eu8 => (BitBMemIxD{b:3}).accessed(),
        0x5Fu8 => (BitBMemIxD{b:3}).accessed(),
        0x60u8 => (BitBMemIxD{b:4}).accessed(),
        0x61u8 => (BitBMemIxD{b:4}).accessed(),
        0x62u8 => (BitBMemIxD{b:4}).accessed(),
        0x63u8 => (BitBMemIxD{b:4}).accessed(),
        0x64u8 => (BitBMemIxD{b:4}).accessed(),
        0x65u8 => (BitBMemIxD{b:4}).accessed(),
        0x66u8 => (BitBMemIxD{b:4}).accessed(),
        0x67u8 => (BitBMemIxD{b:4}).accessed(),
        0x68u8 => (BitBMemIxD{b:5}).accessed(),
        0x69u8 => (BitBMemIxD{b:5}).accessed(),
        0x6Au8 => (BitBMemIxD{b:5}).accessed(),
        0x6Bu8 => (BitBMemIxD{b:5}).accessed(),
        0x6Cu8 => (BitBMemIxD{b:5}).accessed(),
        0x6Du8 => (BitBMemIxD{b:5}).accessed(),
        0x6Eu8 => (BitBMemIxD{b:5}).accessed(),
        0x6Fu8 => (BitBMemIxD{b:5}).accessed(),
        0x70u8 => (BitBMemIxD{b:6}).accessed(),
        0x71u8 => (BitBMemIxD{b:6}).accessed(),
        0x72u8 => (BitBMemIxD{b:6}).accessed(),
        0x73u8 => (BitBMemIxD{b:6}).accessed(),
        0x74u8 => (BitBMemIxD{b:6}).accessed(),
        0x75u8 => (BitBMemIxD{b:6}).accessed(),
        0x76u8 => (BitBMemIxD{b:6}).accessed(),
        0x77u8 => (BitBMemIxD{b:6}).accessed(),
        0x78u8 => (BitBMemIxD{b:7}).accessed(),
        0x79u8 => (BitBMemIxD{b:7}).accessed(),
        0x7Au8 => (BitBMemIxD{b:7}).accessed(),
        0x7Bu8 => (BitBMemIxD{b:7}).accessed(),
        0x7Cu8 => (BitBMemIxD{b:7}).accessed(),
        0x7Du8 => (BitBMemIxD{b:7}).accessed(),
        0x7Eu8 => (BitBMemIxD{b:7}).accessed(),
        0x7Fu8 => (BitBMemIxD{b:7}).accessed(),
        0x80u8 => (ResBMemIxDR{b:0,r:Reg8::B}).accessed(),
        0x81u8 => (ResBMemIxDR{b:0,r:Reg8::C}).accessed(),
        0x82u8 => (ResBMemIxDR{b:0,r:Reg8::D}).accessed(),
        0x83u8 => (ResBMemIxDR{b:0,r:Reg8::E}).accessed(),
        0x84u8 => (ResBMemIxDR{b:0,r:Reg8::H}).accessed(),
        0x85u8 => (ResBMemIxDR{b:0,r:Reg8::L}).accessed(),
        0x86u8 => (ResBMemIxD{b:0}).accessed(),
        0x87u8 => (ResBMemIxDR{b:0,r:Reg8::A}).accessed(),
        0x88u8 => (ResBMemIxDR{b:1,r:Reg8::B}).accessed(),
        0x89u8 => (ResBMemIxDR{b:1,r:Reg8::C}).accessed(),
        0x8Au8 => (ResBMemIxDR{b:1,r:Reg8::D}).accessed(),
        0x8Bu8 => (ResBMemIxDR{b:1,r:Reg8::E}).accessed(),
        0x8Cu8 => (ResBMemIxDR{b:1,r:Reg8::H}).accessed(),
        0x8Du8 => (ResBMemIxDR{b:1,r:Reg8::L}).accessed(),
        0x8Eu8 => (ResBMemIxD{b:1}).accessed(),
        0x8Fu8 => (ResBMemIxDR{b:1,r:Reg8::A}).accessed(),
        0x90u8 => (ResBMemIxDR{b:2,r:Reg8::B}).accessed(),
        0x91u8 => (ResBMemIxDR{b:2,r:Reg8::C}).accessed(),
        0x92u8 => (ResBMemIxDR{b:2,r:Reg8::D}).accessed(),
        0x93u8 => (ResBMemIxDR{b:2,r:Reg8::E}).accessed(),
        0x94u8 => (ResBMemIxDR{b:2,r:Reg8::H}).accessed(),
        0x95u8 => (ResBMemIxDR{b:2,r:Reg8::L}).accessed(),
        0x96u8 => (ResBMemIxD{b:2}).accessed(),
        0x97u8 => (ResBMemIxDR{b:2,r:Reg8::A}).accessed(),
        0x98u8 => (ResBMemIxDR{b:3,r:Reg8::B}).accessed(),
        0x99u8 => (ResBMemIxDR{b:3,r:Reg8::C}).accessed(),
        0x9Au8 => (ResBMemIxDR{b:3,r:Reg8::D}).accessed(),
        0x9Bu8 => (ResBMemIxDR{b:3,r:Reg8::E}).accessed(),
        0x9Cu8 => (ResBMemIxDR{b:3,r:Reg8::H}).accessed(),
        0x9Du8 => (ResBMemIxDR{b:3,r:Reg8::L}).accessed(),
        0x9Eu8 => (ResBMemIxD{b:3}).accessed(),
        0x9Fu8 => (ResBMemIxDR{b:3,r:Reg8::A}).accessed(),
        0xA0u8 => (ResBMemIxDR{b:4,r:Reg8::B}).accessed(),
        0xA1u8 => (ResBMemIxDR{b:4,r:Reg8::C}).accessed(),
        0xA2u8 => (ResBMemIxDR{b:4,r:Reg8::D}).accessed(),
        0xA3u8 => (ResBMemIxDR{b:4,r:Reg8::E}).accessed(),
        0xA4u8 => (ResBMemIxDR{b:4,r:Reg8::H}).accessed(),
        0xA5u8 => (ResBMemIxDR{b:4,r:Reg8::L}).accessed(),
        0xA6u8 => (ResBMemIxD{b:4}).accessed(),
        0xA7u8 => (ResBMemIxDR{b:4,r:Reg8::A}).accessed(),
        0xA8u8 => (ResBMemIxDR{b:5,r:Reg8::B}).accessed(),
        0xA9u8 => (ResBMemIxDR{b:5,r:Reg8::C}).accessed(),
        0xAAu8 => (ResBMemIxDR{b:5,r:Reg8::D}).accessed(),
        0xABu8 => (ResBMemIxDR{b:5,r:Reg8::E}).accessed(),
        0xACu8 => (ResBMemIxDR{b:5,r:Reg8::H}).accessed(),
        0xADu8 => (ResBMemIxDR{b:5,r:Reg8::L}).accessed(),
        0xAEu8 => (ResBMemIxD{b:5}).accessed(),
        0xAFu8 => (ResBMemIxDR{b:5,r:Reg8::A}).accessed(),
        0xB0u8 => (ResBMemIxDR{b:6,r:Reg8::B}).accessed(),
        0xB1u8 => (ResBMemIxDR{b:6,r:Reg8::C}).accessed(),
        0xB2u8 => (ResBMemIxDR{b:6,r:Reg8::D}).accessed(),
        0xB3u8 => (ResBMemIxDR{b:6,r:Reg8::E}).accessed(),
        0xB4u8 => (ResBMemIxDR{b:6,r:Reg8::H}).accessed(),
        0xB5u8 => (ResBMemIxDR{b:6,r:Reg8::L}).accessed(),
        0xB6u8 => (ResBMemIxD{b:6}).accessed(),
        0xB7u8 => (ResBMemIxDR{b:6,r:Reg8::A}).accessed(),
        0xB8u8 => (ResBMemIxDR{b:7,r:Reg8::B}).accessed(),
        0xB9u8 => (ResBMemIxDR{b:7,r:Reg8::C}).accessed(),
        0xBAu8 => (ResBMemIxDR{b:7,r:Reg8::D}).accessed(),
        0xBBu8 => (ResBMemIxDR{b:7,r:Reg8::E}).accessed(),
        0xBCu8 => (ResBMemIxDR{b:7,r:Reg8::H}).accessed(),
        0xBDu8 => (ResBMemIxDR{b:7,r:Reg8::L}).accessed(),
        0xBEu8 => (ResBMemIxD{b:7}).accessed(),
        0xBFu8 => (ResBMemIxDR{b:7,r:Reg8::A}).accessed(),
        0xC0u8 => (SetBMemIxDR{b:0,r:Reg8::B}).accessed(),
        0xC1u8 => (SetBMemIxDR{b:0,r:Reg8::C}).accessed(),
        0xC2u8 => (SetBMemIxDR{b:0,r:Reg8::D}).accessed(),
        0xC3u8 => (SetBMemIxDR{b:0,r:Reg8::E}).accessed(),
        0xC4u8 => (SetBMemIxDR{b:0,r:Reg8::H}).accessed(),
        0xC5u8 => (SetBMemIxDR{b:0,r:Reg8::L}).accessed(),
        0xC6u8 => (SetBMemIxD{b:0}).accessed(),
        0xC7u8 => (SetBMemIxDR{b:0,r:Reg8::A}).accessed(),
        0xC8u8 => (SetBMemIxDR{b:1,r:Reg8::B}).accessed(),
        0xC9u8 => (SetBMemIxDR{b:1,r:Reg8::C}).accessed(),
        0xCAu8 => (SetBMemIxDR{b:1,r:Reg8::D}).accessed(),
        0xCBu8 => (SetBMemIxDR{b:1,r:Reg8::E}).accessed(),
        0xCCu8 => (SetBMemIxDR{b:1,r:Reg8::H}).accessed(),
        0xCDu8 => (SetBMemIxDR{b:1,r:Reg8::L}).accessed(),
        0xCEu8 => (SetBMemIxD{b:1}).accessed(),
        0xCFu8 => (SetBMemIxDR{b:1,r:Reg8::A}).accessed(),
        0xD0u8 => (SetBMemIxDR{b:2,r:Reg8::B}).accessed(),
        0xD1u8 => (SetBMemIxDR{b:2,r:Reg8::C}).accessed(),
        0xD2u8 => (SetBMemIxDR{b:2,r:Reg8::D}).accessed(),
        0xD3u8 => (SetBMemIxDR{b:2,r:Reg8::E}).accessed(),
        0xD4u8 => (SetBMemIxDR{b:2,r:Reg8::H}).accessed(),
        0xD5u8 => (SetBMemIxDR{b:2,r:Reg8::L}).accessed(),
        0xD6u8 => (SetBMemIxD{b:2}).accessed(),
        0xD7u8 => (SetBMemIxDR{b:2,r:Reg8::A}).accessed(),
        0xD8u8 => (SetBMemIxDR{b:3,r:Reg8::B}).accessed(),
        0xD9u8 => (SetBMemIxDR{b:3,r:Reg8::C}).accessed(),
        0xDAu8 => (SetBMemIxDR{b:3,r:Reg8::D}).accessed(),
        0xDBu8 => (SetBMemIxDR{b:3,r:Reg8::E}).accessed(),
        0xDCu8 => (SetBMemIxDR{b:3,r:Reg8::H}).accessed(),
        0xDDu8 => (SetBMemIxDR{b:3,r:Reg8::L}).accessed(),
        0xDEu8 => (SetBMemIxD{b:3}).accessed(),
        0xDFu8 => (SetBMemIxDR{b:3,r:Reg8::A}).accessed(),
        0xE0u8 => (SetBMemIxDR{b:4,r:Reg8::B}).accessed(),
        0xE1u8 => (SetBMemIxDR{b:4,r:Reg8::C}).accessed(),
        0xE2u8 => (SetBMemIxDR{b:4,r:Reg8::D}).accessed(),
        0xE3u8 => (SetBMemIxDR{b:4,r:Reg8::E}).accessed(),
        0xE4u8 => (SetBMemIxDR{b:4,r:Reg8::H}).accessed(),
        0xE5u8 => (SetBMemIxDR{b:4,r:Reg8::L}).accessed(),
        0xE6u8 => (SetBMemIxD{b:4}).accessed(),
        0xE7u8 => (SetBMemIxDR{b:4,r:Reg8::A}).accessed(),
        0xE8u8 => (SetBMemIxDR{b:5,r:Reg8::B}).accessed(),
        0xE9u8 => (SetBMemIxDR{b:5,r:Reg8::C}).accessed(),
        0xEAu8 => (SetBMemIxDR{b:5,r:Reg8::D}).accessed(),
        0xEBu8 => (SetBMemIxDR{b:5,r:Reg8::E}).accessed(),
        0xECu8 => (SetBMemIxDR{b:5,r:Reg8::H}).accessed(),
        0xEDu8 => (SetBMemIxDR{b:5,r:Reg8::L}).accessed(),
        0xEEu8 => (SetBMemIxD{b:5}).accessed(),
        0xEFu8 => (SetBMemIxDR{b:5,r:Reg8::A}).accessed(),
        0xF0u8 => (SetBMemIxDR{b:6,r:Reg8::B}).accessed(),
        0xF1u8 => (SetBMemIxDR{b:6,r:Reg8::C}).accessed(),
        0xF2u8 => (SetBMemIxDR{b:6,r:Reg8::D}).accessed(),
        0xF3u8 => (SetBMemIxDR{b:6,r:Reg8::E}).accessed(),
        0xF4u8 => (SetBMemIxDR{b:6,r:Reg8::H}).accessed(),
        0xF5u8 => (SetBMemIxDR{b:6,r:Reg8::L}).accessed(),
        0xF6u8 => (SetBMemIxD{b:6}).accessed(),
        0xF7u8 => (SetBMemIxDR{b:6,r:Reg8::A}).accessed(),
        0xF8u8 => (SetBMemIxDR{b:7,r:Reg8::B}).accessed(),
        0xF9u8 => (SetBMemIxDR{b:7,r:Reg8::C}).accessed(),
        0xFAu8 => (SetBMemIxDR{b:7,r:Reg8::D}).accessed(),
        0xFBu8 => (SetBMemIxDR{b:7,r:Reg8::E}).accessed(),
        0xFCu8 => (SetBMemIxDR{b:7,r:Reg8::H}).accessed(),
        0xFDu8 => (SetBMemIxDR{b:7,r:Reg8::L}).accessed(),
        0xFEu8 => (SetBMemIxD{b:7}).accessed(),
        0xFFu8 => (SetBMemIxDR{b:7,r:Reg8::A}).accessed(),
    }
}

/// The registers the debugger shows around the instruction for `op`.
pub fn accessed_regs_ddcb(op: u8) -> (regs: (OutputRegisters, OutputRegisters))
    ensures
        regs == ddcb_accessed(op),
{
    proof {
        reveal(ddcb_accessed);
    }
    match op {
        0x00 => (RlcMemIxDR{r:Reg8::B}).get_accessed_regs(),
        0x01 => (RlcMemIxDR{r:Reg8::C}).get_accessed_regs(),
        0x02 => (RlcMemIxDR{r:Reg8::D}).get_accessed_regs(),
        0x03 => (RlcMemIxDR{r:Reg8::E}).get_accessed_regs(),
        0x04 => (RlcMemIxDR{r:Reg8::H}).get_accessed_regs(),
        0x05 => (RlcMemIxDR{r:Reg8::L}).get_accessed_regs(),
        0x06 => (RlcMemIxD).get_accessed_regs(),
        0x07 => (RlcMemIxDR{r:Reg8::A}).get_accessed_regs(),
        0x08 => (RrcMemIxDR{r:Reg8::B}).get_accessed_regs(),
        0x09 => (RrcMemIxDR{r:Reg8::C}).get_accessed_regs(),
        0x0A => (RrcMemIxDR{r:Reg8::D}).get_accessed_regs(),
        0x0B => (RrcMemIxDR{r:Reg8::E}).get_accessed_regs(),
        0x0C => (RrcMemIxDR{r:Reg8::H}).get_accessed_regs(),
        0x0D => (RrcMemIxDR{r:Reg8::L}).get_accessed_regs(),
        0x0E => (RrcMemIxD).get_accessed_regs(),
        0x0F => (RrcMemIxDR{r:Reg8::A}).get_accessed_regs(),
        0x10 => (RlMemIxDR{r:Reg8::B}).get_accessed_regs(),
        0x11 => (RlMemIxDR{r:Reg8::C}).get_accessed_regs(),
        0x12 => (RlMemIxDR{r:Reg8::D}).get_accessed_regs(),
        0x13 => (RlMemIxDR{r:Reg8::E}).get_accessed_regs(),
        0x14 => (RlMemIxDR{r:Reg8::H}).get_accessed_regs(),
        0x15 => (RlMemIxDR{r:Reg8::L}).get_accessed_regs(),
        0x16 => (RlMemIxD).get_accessed_regs(),
        0x17 => (RlMemIxDR{r:Reg8::A}).get_accessed_regs(),
        0x18 => (RrMemIxDR{r:Reg8::B}).get_accessed_regs(),
        0x19 => (RrMemIxDR{r:Reg8::C}).get_accessed_regs(),
        0x1A => (RrMemIxDR{r:Reg8::D}).get_accessed_regs(),
        0x1B => (RrMemIxDR{r:Reg8::E}).get_accessed_regs(),
        0x1C => (RrMemIxDR{r:Reg8::H}).get_accessed_regs(),
        0x1D => (RrMemIxDR{r:Reg8::L}).get_accessed_regs(),
        0x1E => (RrMemIxD).get_accessed_regs(),
        0x1F => (RrMemIxDR{r:Reg8::A}).get_accessed_regs(),
        0x20 => (SlaMemIxDR{r:Reg8::B}).get_accessed_regs(),
        0x21 => (SlaMemIxDR{r:Reg8::C}).get_accessed_regs(),
        0x22 => (SlaMemIxDR{r:Reg8::D}).get_accessed_regs(),
        0x23 => (SlaMemIxDR{r:Reg8::E}).get_accessed_regs(),
        0x24 => (SlaMemIxDR{r:Reg8::H}).get_accessed_regs(),
        0x25 => (SlaMemIxDR{r:Reg8::L}).get_accessed_regs(),
        0x26 => (SlaMemIxD).get_accessed_regs(),
        0x27 => (SlaMemIxDR{r:Reg8::A}).get_accessed_regs(),
        0x28 => (SraMemIxDR{r:Reg8::B}).get_accessed_regs(),
        0x29 => (SraMemIxDR{r:Reg8::C}).get_accessed_regs(),
        0x2A => (SraMemIxDR{r:Reg8::D}).get_accessed_regs(),
        0x2B => (SraMemIxDR{r:Reg8::E}).get_accessed_regs(),
        0x2C => (SraMemIxDR{r:Reg8::H}).get_accessed_regs(),
        0x2D => (SraMemIxDR{r:Reg8::L}).get_accessed_regs(),
        0x2E => (SraMemIxD).get_accessed_regs(),
        0x2F => (SraMemIxDR{r:Reg8::A}).get_accessed_regs(),
        0x30 => (SllMemIxDR{r:Reg8::B}).get_accessed_regs(),
        0x31 => (SllMemIxDR{r:Reg8::C}).get_accessed_regs(),
        0x32 => (SllMemIxDR{r:Reg8::D}).get_accessed_regs(),
        0x33 => (SllMemIxDR{r:Reg8::E}).get_accessed_regs(),
        0x34 => (SllMemIxDR{r:Reg8::H}).get_accessed_regs(),
        0x35 => (SllMemIxDR{r:Reg8::L}).get_accessed_regs(),
        0x36 => (SllMemIxD).get_accessed_regs(),
        0x37 => (SllMemIxDR{r:Reg8::A}).get_accessed_regs(),
        0x38 => (SrlMemIxDR{r:Reg8::B}).get_accessed_regs(),
        0x39 => (SrlMemIxDR{r:Reg8::C}).get_accessed_regs(),
        0x3A => (SrlMemIxDR{r:Reg8::D}).get_accessed_regs(),
        0x3B => (SrlMemIxDR{r:Reg8::E}).get_accessed_regs(),
        0x3C => (SrlMemIxDR{r:Reg8::H}).get_accessed_regs(),
        0x3D => (SrlMemIxDR{r:Reg8::L}).get_accessed_regs(),
        0x3E => (SrlMemIxD).get_accessed_regs(),
        0x3F => (SrlMemIxDR{r:Reg8::A}).get_accessed_regs(),
        0x40 => (BitBMemIxD{b:0}).get_accessed_regs(),
        0x41 => (BitBMemIxD{b:0}).get_accessed_regs(),
        0x42 => (BitBMemIxD{b:0}).get_accessed_regs(),
        0x43 => (BitBMemIxD{b:0}).get_accessed_regs(),
        0x44 => (BitBMemIxD{b:0}).get_accessed_regs(),
        0x45 => (BitBMemIxD{b:0}).get_accessed_regs(),
        0x46 => (BitBMemIxD{b:0}).get_accessed_regs(),
        0x47 => (BitBMemIxD{b:0}).get_accessed_regs(),
        0x48 => (BitBMemIxD{b:1}).get_accessed_regs(),
        0x49 => (BitBMemIxD{b:1}).get_accessed_regs(),
        0x4A => (BitBMemIxD{b:1}).get_accessed_regs(),
        0x4B => (BitBMemIxD{b:1}).get_accessed_regs(),
        0x4C => (BitBMemIxD{b:1}).get_accessed_regs(),
        0x4D => (BitBMemIxD{b:1}).get_accessed_regs(),
        0x4E => (BitBMemIxD{b:1}).get_accessed_regs(),
        0x4F => (BitBMemIxD{b:1}).get_accessed_regs(),
        0x50 => (BitBMemIxD{b:2}).get_accessed_regs(),
        0x51 => (BitBMemIxD{b:2}).get_accessed_regs(),
        0x52 => (BitBMemIxD{b:2}).get_accessed_regs(),
        0x53 => (BitBMemIxD{b:2}).get_accessed_regs(),
        0x54 => (BitBMemIxD{b:2}).get_accessed_regs(),
        0x55 => (BitBMemIxD{b:2}).get_accessed_regs(),
        0x56 => (BitBMemIxD{b:2}).get_accessed_regs(),
        0x57 => (BitBMemIxD{b:2}).get_accessed_regs(),
        0x58 => (BitBMemIxD{b:3}).get_accessed_regs(),
        0x59 => (BitBMemIxD{b:3}).get_accessed_regs(),
        0x5A => (BitBMemIxD{b:3}).get_accessed_regs(),
        0x5B => (BitBMemIxD{b:3}).get_accessed_regs(),
        0x5C => (BitBMemIxD{b:3}).get_accessed_regs(),
        0x5D => (BitBMemIxD{b:3}).get_accessed_regs(),
        0x5E => (BitBMemIxD{b:3}).get_accessed_regs(),
        0x5F => (BitBMemIxD{b:3}).get_accessed_regs(),
        0x60 => (BitBMemIxD{b:4}).get_accessed_regs(),
        0x61 => (BitBMemIxD{b:4}).get_accessed_regs(),
        0x62 => (BitBMemIxD{b:4}).get_accessed_regs(),
        0x63 => (BitBMemIxD{b:4}).get_accessed_regs(),
        0x64 => (BitBMemIxD{b:4}).get_accessed_regs(),
        0x65 => (BitBMemIxD{b:4}).get_accessed_regs(),
        0x66 => (BitBMemIxD{b:4}).get_accessed_regs(),
        0x67 => (BitBMemIxD{b:4}).get_accessed_regs(),
        0x68 => (BitBMemIxD{b:5}).get_accessed_regs(),
        0x69 => (BitBMemIxD{b:5}).get_accessed_regs(),
        0x6A => (BitBMemIxD{b:5}).get_accessed_regs(),
        0x6B => (BitBMemIxD{b:5}).get_accessed_regs(),
        0x6C => (BitBMemIxD{b:5}).get_accessed_regs(),
        0x6D => (BitBMemIxD{b:5}).get_accessed_regs(),
        0x6E => (BitBMemIxD{b:5}).get_accessed_regs(),
        0x6F => (BitBMemIxD{b:5}).get_accessed_regs(),
        0x70 => (BitBMemIxD{b:6}).get_accessed_regs(),
        0x71 => (BitBMemIxD{b:6}).get_accessed_regs(),
        0x72 => (BitBMemIxD{b:6}).get_accessed_regs(),
        0x73 => (BitBMemIxD{b:6}).get_accessed_regs(),
        0x74 => (BitBMemIxD{b:6}).get_accessed_regs(),
        0x75 => (BitBMemIxD{b:6}).get_accessed_regs(),
        0x76 => (BitBMemIxD{b:6}).get_accessed_regs(),
        0x77 => (BitBMemIxD{b:6}).get_accessed_regs(),
        0x78 => (BitBMemIxD{b:7}).get_accessed_regs(),
        0x79 => (BitBMemIxD{b:7}).get_accessed_regs(),
        0x7A => (BitBMemIxD{b:7}).get_accessed_regs(),
        0x7B => (BitBMemIxD{b:7}).get_accessed_regs(),
        0x7C => (BitBMemIxD{b:7}).get_accessed_regs(),
        0x7D => (BitBMemIxD{b:7}).get_accessed_regs(),
        0x7E => (BitBMemIxD{b:7}).get_accessed_regs(),
        0x7F => (BitBMemIxD{b:7}).get_accessed_regs(),
        0x80 => (ResBMemIxDR{b:0,r:Reg8::B}).get_accessed_regs(),
        0x81 => (ResBMemIxDR{b:0,r:Reg8::C}).get_accessed_regs(),
        0x82 => (ResBMemIxDR{b:0,r:Reg8::D}).get_accessed_regs(),
        0x83 => (ResBMemIxDR{b:0,r:Reg8::E}).get_accessed_regs(),
        0x84 => (ResBMemIxDR{b:0,r:Reg8::H}).get_accessed_regs(),
        0x85 => (ResBMemIxDR{b:0,r:Reg8::L}).get_accessed_regs(),
        0x86 => (ResBMemIxD{b:0}).get_accessed_regs(),
        0x87 => (ResBMemIxDR{b:0,r:Reg8::A}).get_accessed_regs(),
        0x88 => (ResBMemIxDR{b:1,r:Reg8::B}).get_accessed_regs(),
        0x89 => (ResBMemIxDR{b:1,r:Reg8::C}).get_accessed_regs(),
        0x8A => (ResBMemIxDR{b:1,r:Reg8::D}).get_accessed_regs(),
        0x8B => (ResBMemIxDR{b:1,r:Reg8::E}).get_accessed_regs(),
        0x8C => (ResBMemIxDR{b:1,r:Reg8::H}).get_accessed_regs(),
        0x8D => (ResBMemIxDR{b:1,r:Reg8::L}).get_accessed_regs(),
        0x8E => (ResBMemIxD{b:1}).get_accessed_regs(),
        0x8F => (ResBMemIxDR{b:1,r:Reg8::A}).get_accessed_regs(),
        0x90 => (ResBMemIxDR{b:2,r:Reg8::B}).get_accessed_regs(),
        0x91 => (ResBMemIxDR{b:2,r:Reg8::C}).get_accessed_regs(),
        0x92 => (ResBMemIxDR{b:2,r:Reg8::D}).get_accessed_regs(),
        0x93 => (ResBMemIxDR{b:2,r:Reg8::E}).get_accessed_regs(),
        0x94 => (ResBMemIxDR{b:2,r:Reg8::H}).get_accessed_regs(),
        0x95 => (ResBMemIxDR{b:2,r:Reg8::L}).get_accessed_regs(),
        0x96 => (ResBMemIxD{b:2}).get_accessed_regs(),
        0x97 => (ResBMemIxDR{b:2,r:Reg8::A}).get_accessed_regs(),
        0x98 => (ResBMemIxDR{b:3,r:Reg8::B}).get_accessed_regs(),
        0x99 => (ResBMemIxDR{b:3,r:Reg8::C}).get_accessed_regs(),
        0x9A => (ResBMemIxDR{b:3,r:Reg8::D}).get_accessed_regs(),
        0x9B => (ResBMemIxDR{b:3,r:Reg8::E}).get_accessed_regs(),
        0x9C => (ResBMemIxDR{b:3,r:Reg8::H}).get_accessed_regs(),
        0x9D => (ResBMemIxDR{b:3,r:Reg8::L}).get_accessed_regs(),
        0x9E => (ResBMemIxD{b:3}).get_accessed_regs(),
        0x9F => (ResBMemIxDR{b:3,r:Reg8::A}).get_accessed_regs(),
        0xA0 => (ResBMemIxDR{b:4,r:Reg8::B}).get_accessed_regs(),
        0xA1 => (ResBMemIxDR{b:4,r:Reg8::C}).get_accessed_regs(),
        0xA2 => (ResBMemIxDR{b:4,r:Reg8::D}).get_accessed_regs(),
        0xA3 => (ResBMemIxDR{b:4,r:Reg8::E}).get_accessed_regs(),
        0xA4 => (ResBMemIxDR{b:4,r:Reg8::H}).get_accessed_regs(),
        0xA5 => (ResBMemIxDR{b:4,r:Reg8::L}).get_accessed_regs(),
        0xA6 => (ResBMemIxD{b:4}).get_accessed_regs(),
        0xA7 => (ResBMemIxDR{b:4,r:Reg8::A}).get_accessed_regs(),
        0xA8 => (ResBMemIxDR{b:5,r:Reg8::B}).get_accessed_regs(),
        0xA9 => (ResBMemIxDR{b:5,r:Reg8::C}).get_accessed_regs(),
        0xAA => (ResBMemIxDR{b:5,r:Reg8::D}).get_accessed_regs(),
        0xAB => (ResBMemIxDR{b:5,r:Reg8::E}).get_accessed_regs(),
        0xAC => (ResBMemIxDR{b:5,r:Reg8::H}).get_accessed_regs(),
        0xAD => (ResBMemIxDR{b:5,r:Reg8::L}).get_accessed_regs(),
        0xAE => (ResBMemIxD{b:5}).get_accessed_regs(),
        0xAF => (ResBMemIxDR{b:5,r:Reg8::A}).get_accessed_regs(),
        0xB0 => (ResBMemIxDR{b:6,r:Reg8::B}).get_accessed_regs(),
        0xB1 => (ResBMemIxDR{b:6,r:Reg8::C}).get_accessed_regs(),
        0xB2 => (ResBMemIxDR{b:6,r:Reg8::D}).get_accessed_regs(),
        0xB3 => (ResBMemIxDR{b:6,r:Reg8::E}).get_accessed_regs(),
        0xB4 => (ResBMemIxDR{b:6,r:Reg8::H}).get_accessed_regs(),
        0xB5 => (ResBMemIxDR{b:6,r:Reg8::L}).get_accessed_regs(),
        0xB6 => (ResBMemIxD{b:6}).get_accessed_regs(),
        0xB7 => (ResBMemIxDR{b:6,r:Reg8::A}).get_accessed_regs(),
        0xB8 => (ResBMemIxDR{b:7,r:Reg8::B}).get_accessed_regs(),
        0xB9 => (ResBMemIxDR{b:7,r:Reg8::C}).get_accessed_regs(),
        0xBA => (ResBMemIxDR{b:7,r:Reg8::D}).get_accessed_regs(),
        0xBB => (ResBMemIxDR{b:7,r:Reg8::E}).get_accessed_regs(),
        0xBC => (ResBMemIxDR{b:7,r:Reg8::H}).get_accessed_regs(),
        0xBD => (ResBMemIxDR{b:7,r:Reg8::L}).get_accessed_regs(),
        0xBE => (ResBMemIxD{b:7}).get_accessed_regs(),
        0xBF => (ResBMemIxDR{b:7,r:Reg8::A}).get_accessed_regs(),
        0xC0 => (SetBMemIxDR{b:0,r:Reg8::B}).get_accessed_regs(),
        0xC1 => (SetBMemIxDR{b:0,r:Reg8::C}).get_accessed_regs(),
        0xC2 => (SetBMemIxDR{b:0,r:Reg8::D}).get_accessed_regs(),
        0xC3 => (SetBMemIxDR{b:0,r:Reg8::E}).get_accessed_regs(),
        0xC4 => (SetBMemIxDR{b:0,r:Reg8::H}).get_accessed_regs(),
        0xC5 => (SetBMemIxDR{b:0,r:Reg8::L}).get_accessed_regs(),
        0xC6 => (SetBMemIxD{b:0}).get_accessed_regs(),
        0xC7 => (SetBMemIxDR{b:0,r:Reg8::A}).get_accessed_regs(),
        0xC8 => (SetBMemIxDR{b:1,r:Reg8::B}).get_accessed_regs(),
        0xC9 => (SetBMemIxDR{b:1,r:Reg8::C}).get_accessed_regs(),
        0xCA => (SetBMemIxDR{b:1,r:Reg8::D}).get_accessed_regs(),
        0xCB => (SetBMemIxDR{b:1,r:Reg8::E}).get_accessed_regs(),
        0xCC => (SetBMemIxDR{b:1,r:Reg8::H}).get_accessed_regs(),
        0xCD => (SetBMemIxDR{b:1,r:Reg8::L}).get_accessed_regs(),
        0xCE => (SetBMemIxD{b:1}).get_accessed_regs(),
        0xCF => (SetBMemIxDR{b:1,r:Reg8::A}).get_accessed_regs(),
        0xD0 => (SetBMemIxDR{b:2,r:Reg8::B}).get_accessed_regs(),
        0xD1 => (SetBMemIxDR{b:2,r:Reg8::C}).get_accessed_regs(),
        0xD2 => (SetBMemIxDR{b:2,r:Reg8::D}).get_accessed_regs(),
        0xD3 => (SetBMemIxDR{b:2,r:Reg8::E}).get_accessed_regs(),
        0xD4 => (SetBMemIxDR{b:2,r:Reg8::H}).get_accessed_regs(),
        0xD5 => (SetBMemIxDR{b:2,r:Reg8::L}).get_accessed_regs(),
        0xD6 => (SetBMemIxD{b:2}).get_accessed_regs(),
        0xD7 => (SetBMemIxDR{b:2,r:Reg8::A}).get_accessed_regs(),
        0xD8 => (SetBMemIxDR{b:3,r:Reg8::B}).get_accessed_regs(),
        0xD9 => (SetBMemIxDR{b:3,r:Reg8::C}).get_accessed_regs(),
        0xDA => (SetBMemIxDR{b:3,r:Reg8::D}).get_accessed_regs(),
        0xDB => (SetBMemIxDR{b:3,r:Reg8::E}).get_accessed_regs(),
        0xDC => (SetBMemIxDR{b:3,r:Reg8::H}).get_accessed_regs(),
        0xDD => (SetBMemIxDR{b:3,r:Reg8::L}).get_accessed_regs(),
        0xDE => (SetBMemIxD{b:3}).get_accessed_regs(),
        0xDF => (SetBMemIxDR{b:3,r:Reg8::A}).get_accessed_regs(),
        0xE0 => (SetBMemIxDR{b:4,r:Reg8::B}).get_accessed_regs(),
        0xE1 => (SetBMemIxDR{b:4,r:Reg8::C}).get_accessed_regs(),
        0xE2 => (SetBMemIxDR{b:4,r:Reg8::D}).get_accessed_regs(),
        0xE3 => (SetBMemIxDR{b:4,r:Reg8::E}).get_accessed_regs(),
        0xE4 => (SetBMemIxDR{b:4,r:Reg8::H}).get_accessed_regs(),
        0xE5 => (SetBMemIxDR{b:4,r:Reg8::L}).get_accessed_regs(),
        0xE6 => (SetBMemIxD{b:4}).get_accessed_regs(),
        0xE7 => (SetBMemIxDR{b:4,r:Reg8::A}).get_accessed_regs(),
        0xE8 => (SetBMemIxDR{b:5,r:Reg8::B}).get_accessed_regs(),
        0xE9 => (SetBMemIxDR{b:5,r:Reg8::C}).get_accessed_regs(),
        0xEA => (SetBMemIxDR{b:5,r:Reg8::D}).get_accessed_regs(),
        0xEB => (SetBMemIxDR{b:5,r:Reg8::E}).get_accessed_regs(),
        0xEC => (SetBMemIxDR{b:5,r:Reg8::H}).get_accessed_regs(),
        0xED => (SetBMemIxDR{b:5,r:Reg8::L}).get_accessed_regs(),
        0xEE => (SetBMemIxD{b:5}).get_accessed_regs(),
        0xEF => (SetBMemIxDR{b:5,r:Reg8::A}).get_accessed_regs(),
        0xF0 => (SetBMemIxDR{b:6,r:Reg8::B}).get_accessed_regs(),
        0xF1 => (SetBMemIxDR{b:6,r:Reg8::C}).get_accessed_regs(),
        0xF2 => (SetBMemIxDR{b:6,r:Reg8::D}).get_accessed_regs(),
        0xF3 => (SetBMemIxDR{b:6,r:Reg8::E}).get_accessed_regs(),
        0xF4 => (SetBMemIxDR{b:6,r:Reg8::H}).get_accessed_regs(),
        0xF5 => (SetBMemIxDR{b:6,r:Reg8::L}).get_accessed_regs(),
        0xF6 => (SetBMemIxD{b:6}).get_accessed_regs(),
        0xF7 => (SetBMemIxDR{b:6,r:Reg8::A}).get_accessed_regs(),
        0xF8 => (SetBMemIxDR{b:7,r:Reg8::B}).get_accessed_regs(),
        0xF9 => (SetBMemIxDR{b:7,r:Reg8::C}).get_accessed_regs(),
        0xFA => (SetBMemIxDR{b:7,r:Reg8::D}).get_accessed_regs(),
        0xFB => (SetBMemIxDR{b:7,r:Reg8::E}).get_accessed_regs(),
        0xFC => (SetBMemIxDR{b:7,r:Reg8::H}).get_accessed_regs(),
        0xFD => (SetBMemIxDR{b:7,r:Reg8::L}).get_accessed_regs(),
        0xFE => (SetBMemIxD{b:7}).get_accessed_regs(),
        0xFF => (SetBMemIxDR{b:7,r:Reg8::A}).get_accessed_regs(),
    }
}

} // verus!
