use vstd::prelude::*;
use crate::cpu::{Cpu, CpuModel, Regs, Reg8, Reg16, CARRY_FLAG, ADD_SUBTRACT_FLAG, PARITY_OVERFLOW_FLAG, X_FLAG, HALF_CARRY_FLAG, Y_FLAG, ZERO_FLAG, SIGN_FLAG, TCYCLE_CEILING, MAX_STEP_TCYCLES, wrap8, wrap16, word, hi8, lo8, flag_if, cond_bits};
use crate::debugger::output_registers::{OutputRegisters, ONONE, OA, OF, OB, OC, OD, OE, OH, OL, OSP, OWZ, OI, OR, output_registers_from_reg8, output_registers_from_reg16};
use crate::instructions::{Instruction, add_overflow16, even_parity, parity_even, sub8_flags, sub_overflow16, update_flags_sub8};

verus! {

/// F after an input from a port: H and N cleared, C kept.
pub open spec fn in_flags(f: u8, v: u8) -> u8 {
    (f & CARRY_FLAG) | flag_if(v >= 0x80, SIGN_FLAG) | flag_if(v == 0, ZERO_FLAG)
        | flag_if(even_parity(v), PARITY_OVERFLOW_FLAG) | flag_if(v & 0x08 != 0, X_FLAG)
        | flag_if(v & 0x20 != 0, Y_FLAG)
}

pub fn update_flags_in(cpu: &mut Cpu, portval: u8)
    ensures
        final(cpu)@ == old(cpu)@.set_regs(old(cpu)@.regs.with_f(in_flags(old(cpu)@.regs.f, portval))),
        old(cpu).wf() ==> final(cpu).wf(),
{
    let f: u8 = (cpu.get_flags() & CARRY_FLAG) | (if portval >= 0x80 { SIGN_FLAG } else { 0 })
        | (if portval == 0 { ZERO_FLAG } else { 0 }) | (if parity_even(portval) { PARITY_OVERFLOW_FLAG } else { 0 })
        | (if portval & 0x08 != 0 { X_FLAG } else { 0 }) | (if portval & 0x20 != 0 { Y_FLAG } else { 0 });
    cpu.set_flags(f);
}

/// F after a 16-bit subtraction with borrow `c`.
pub open spec fn sbc16_flags(op1: u16, op2: u16, c: u16, res: u16) -> u8 {
    flag_if(res >= 0x8000, SIGN_FLAG) | flag_if(res == 0, ZERO_FLAG) | flag_if(op1 % 4096 < op2 % 4096 + c, HALF_CARRY_FLAG)
        | flag_if(sub_overflow16(op1, op2, res), PARITY_OVERFLOW_FLAG) | ADD_SUBTRACT_FLAG
        | flag_if(op1 < op2 + c, CARRY_FLAG) | flag_if((res >> 8u16) & 0x08 != 0, X_FLAG)
        | flag_if((res >> 8u16) & 0x20 != 0, Y_FLAG)
}

pub fn update_flags_sbc16(cpu: &mut Cpu, op1: u16, op2: u16, c: u16, res: u16)
    requires
        c <= 1,
    ensures
        final(cpu)@ == old(cpu)@.set_regs(old(cpu)@.regs.with_f(sbc16_flags(op1, op2, c, res))),
        old(cpu).wf() ==> final(cpu).wf(),
{
    let f: u8 = (if res >= 0x8000 { SIGN_FLAG } else { 0 }) | (if res == 0 { ZERO_FLAG } else { 0 })
        | (if op1 % 4096 < op2 % 4096 + c { HALF_CARRY_FLAG } else { 0 })
        | (if ((op1 >= 0x8000) != (op2 >= 0x8000)) && ((op1 >= 0x8000) != (res >= 0x8000)) { PARITY_OVERFLOW_FLAG } else { 0 })
        | ADD_SUBTRACT_FLAG | (if (op1 as u32) < (op2 as u32) + (c as u32) { CARRY_FLAG } else { 0 })
        | (if (res >> 8u16) & 0x08 != 0 { X_FLAG } else { 0 }) | (if (res >> 8u16) & 0x20 != 0 { Y_FLAG } else { 0 });
    cpu.set_flags(f);
}

/// F after a 16-bit addition with carry `c`.
pub open spec fn adc16_flags(op1: u16, op2: u16, c: u16, res: u16) -> u8 {
    flag_if(res >= 0x8000, SIGN_FLAG) | flag_if(res == 0, ZERO_FLAG) | flag_if(op1 % 4096 + op2 % 4096 + c > 0x0FFF, HALF_CARRY_FLAG)
        | flag_if(add_overflow16(op1, op2, res), PARITY_OVERFLOW_FLAG)
        | flag_if(op1 + op2 + c > 0xFFFF, CARRY_FLAG) | flag_if((res >> 8u16) & 0x08 != 0, X_FLAG)
        | flag_if((res >> 8u16) & 0x20 != 0, Y_FLAG)
}

pub fn update_flags_adc16(cpu: &mut Cpu, op1: u16, op2: u16, c: u16, res: u16)
    requires
        c <= 1,
    ensures
        final(cpu)@ == old(cpu)@.set_regs(old(cpu)@.regs.with_f(adc16_flags(op1, op2, c, res))),
        old(cpu).wf() ==> final(cpu).wf(),
{
    let f: u8 = (if res >= 0x8000 { SIGN_FLAG } else { 0 }) | (if res == 0 { ZERO_FLAG } else { 0 })
        | (if op1 % 4096 + op2 % 4096 + c > 0x0FFF { HALF_CARRY_FLAG } else { 0 })
        | (if ((op1 >= 0x8000) == (op2 >= 0x8000)) && ((op1 >= 0x8000) != (res >= 0x8000)) { PARITY_OVERFLOW_FLAG } else { 0 })
        | (if op1 as u32 + op2 as u32 + c as u32 > 0xFFFF { CARRY_FLAG } else { 0 })
        | (if (res >> 8u16) & 0x08 != 0 { X_FLAG } else { 0 }) | (if (res >> 8u16) & 0x20 != 0 { Y_FLAG } else { 0 });
    cpu.set_flags(f);
}

/// F after a block compare: H from the nibbles, P/V says whether BC is not
/// zero, X and Y come from the result less the half borrow; C kept.
pub open spec fn block_cp_flags(f: u8, a: u8, memval: u8, bc: u16, res: u8) -> u8 {
    let h = a % 16 < memval % 16;
    let res2 = if h { wrap8(res - 1) } else { res };
    (f & CARRY_FLAG) | flag_if(res >= 0x80, SIGN_FLAG) | flag_if(res == 0, ZERO_FLAG) | flag_if(h, HALF_CARRY_FLAG)
        | flag_if(bc != 0, PARITY_OVERFLOW_FLAG) | ADD_SUBTRACT_FLAG | flag_if(res2 & 0x08 != 0, X_FLAG)
        | flag_if(res2 & 0x02 != 0, Y_FLAG)
}

fn update_flags_cpi(cpu: &mut Cpu, a: u8, memval: u8, bc: u16, res: u8)
    ensures
        final(cpu)@ == old(cpu)@.set_regs(old(cpu)@.regs.with_f(block_cp_flags(old(cpu)@.regs.f, a, memval, bc, res))),
        old(cpu).wf() ==> final(cpu).wf(),
{
    let h: bool = a % 16 < memval % 16;
    let res2: u8 = if h { res.wrapping_sub(1) } else { res };
    let f: u8 = (cpu.get_flags() & CARRY_FLAG) | (if res >= 0x80 { SIGN_FLAG } else { 0 })
        | (if res == 0 { ZERO_FLAG } else { 0 }) | (if h { HALF_CARRY_FLAG } else { 0 })
        | (if bc != 0 { PARITY_OVERFLOW_FLAG } else { 0 }) | ADD_SUBTRACT_FLAG
        | (if res2 & 0x08 != 0 { X_FLAG } else { 0 }) | (if res2 & 0x02 != 0 { Y_FLAG } else { 0 });
    cpu.set_flags(f);
}

fn update_flags_cpd(cpu: &mut Cpu, a: u8, memval: u8, bc: u16, res: u8)
    ensures
        final(cpu)@ == old(cpu)@.set_regs(old(cpu)@.regs.with_f(block_cp_flags(old(cpu)@.regs.f, a, memval, bc, res))),
        old(cpu).wf() ==> final(cpu).wf(),
{
    let h: bool = a % 16 < memval % 16;
    let res2: u8 = if h { res.wrapping_sub(1) } else { res };
    let f: u8 = (cpu.get_flags() & CARRY_FLAG) | (if res >= 0x80 { SIGN_FLAG } else { 0 })
        | (if res == 0 { ZERO_FLAG } else { 0 }) | (if h { HALF_CARRY_FLAG } else { 0 })
        | (if bc != 0 { PARITY_OVERFLOW_FLAG } else { 0 }) | ADD_SUBTRACT_FLAG
        | (if res2 & 0x08 != 0 { X_FLAG } else { 0 }) | (if res2 & 0x02 != 0 { Y_FLAG } else { 0 });
    cpu.set_flags(f);
}


/// `op1 - op2 - c` modulo 64K.
fn sub16_borrow(op1: u16, op2: u16, c: u16) -> (r: u16)
    requires
        c <= 1,
    ensures
        r == wrap16(op1 - op2 - c),
{
    op1.wrapping_sub(op2).wrapping_sub(c)
}

/// `op1 + op2 + c` modulo 64K.
fn add16_carry(op1: u16, op2: u16, c: u16) -> (r: u16)
    requires
        c <= 1,
    ensures
        r == wrap16(op1 + op2 + c),
{
    ((op1 as u32 + op2 as u32 + c as u32) % 65536) as u16
}

/// One step of LDI: copies the byte at HL to DE, moves both up, counts BC down.
pub open spec fn ldi_next(s: CpuModel) -> CpuModel {
    let s0 = s;
    let bc = s0.regs.reg16(Reg16::BC);
    let de = s0.regs.reg16(Reg16::DE);
    let hl = s0.regs.reg16(Reg16::HL);
    let v = s0.mem_at(hl);
    let s1 = s0.after_read(hl, 3);
    let s2 = s1.after_write(de, v);
    let s3 = s2.after_no_mreq(de);
    let s4 = s3.after_no_mreq(de);
    let bc1 = wrap16(bc - 1);
    let s5 = s4.set_regs(s4.regs.with_reg16(Reg16::BC, bc1));
    let de1 = wrap16(de + 1);
    let s6 = s5.set_regs(s5.regs.with_reg16(Reg16::DE, de1));
    let hl1 = wrap16(hl + 1);
    let s7 = s6.set_regs(s6.regs.with_reg16(Reg16::HL, hl1));
    let s8 = s7.set_regs(s7.regs.with_f(s7.regs.f & !HALF_CARRY_FLAG));
    let s9 = s8.set_regs(s8.regs.with_f(cond_bits(s8.regs.f, PARITY_OVERFLOW_FLAG, bc1 != 0)));
    let s10 = s9.set_regs(s9.regs.with_f(s9.regs.f & !ADD_SUBTRACT_FLAG));
    let a = s10.regs.reg8(Reg8::A);
    let xy = wrap8(a + v);
    let s11 = s10.set_regs(s10.regs.with_f(cond_bits(s10.regs.f, X_FLAG, xy & 0x08 != 0)));
    let s12 = s11.set_regs(s11.regs.with_f(cond_bits(s11.regs.f, Y_FLAG, xy & 0x02 != 0)));
    s12
}

/// One step of LDI: copies the byte at HL to DE, moves both up, counts BC down.
#[verifier::spinoff_prover]
#[verifier::rlimit(80)]
fn ldi(cpu: &mut Cpu)
    requires
        old(cpu).wf(),
        old(cpu)@.tcycles <= TCYCLE_CEILING,
    ensures
        final(cpu).wf(),
        final(cpu)@ == ldi_next(old(cpu)@),
        final(cpu)@.tcycles <= old(cpu)@.tcycles + 0x1000,
{
    let bc: u16 = cpu.read_reg16(Reg16::BC);
    let de: u16 = cpu.read_reg16(Reg16::DE);
    let hl: u16 = cpu.read_reg16(Reg16::HL);
    let v: u8 = cpu.read_word(hl);
    cpu.write_word(de, v);
    cpu.contend_write_no_mreq(de);
    cpu.contend_write_no_mreq(de);
    let bc1: u16 = bc.wrapping_sub(1);
    cpu.write_reg16(Reg16::BC, bc1);
    let de1: u16 = de.wrapping_add(1);
    cpu.write_reg16(Reg16::DE, de1);
    let hl1: u16 = hl.wrapping_add(1);
    cpu.write_reg16(Reg16::HL, hl1);
    cpu.clear_flag(HALF_CARRY_FLAG);
    cpu.cond_flag(PARITY_OVERFLOW_FLAG, bc1 != 0);
    cpu.clear_flag(ADD_SUBTRACT_FLAG);
    let a: u8 = cpu.read_reg8(Reg8::A);
    let xy: u8 = a.wrapping_add(v);
    cpu.cond_flag(X_FLAG, xy & 0x08 != 0);
    cpu.cond_flag(Y_FLAG, xy & 0x02 != 0);
}

/// One step of LDD: copies the byte at HL to DE, moves both down, counts BC down.
pub open spec fn ldd_next(s: CpuModel) -> CpuModel {
    let s0 = s;
    let bc = s0.regs.reg16(Reg16::BC);
    let de = s0.regs.reg16(Reg16::DE);
    let hl = s0.regs.reg16(Reg16::HL);
    let v = s0.mem_at(hl);
    let s1 = s0.after_read(hl, 3);
    let s2 = s1.after_write(de, v);
    let s3 = s2.after_no_mreq(de);
    let s4 = s3.after_no_mreq(de);
    let bc1 = wrap16(bc - 1);
    let s5 = s4.set_regs(s4.regs.with_reg16(Reg16::BC, bc1));
    let de1 = wrap16(de - 1);
    let s6 = s5.set_regs(s5.regs.with_reg16(Reg16::DE, de1));
    let hl1 = wrap16(hl - 1);
    let s7 = s6.set_regs(s6.regs.with_reg16(Reg16::HL, hl1));
    let s8 = s7.set_regs(s7.regs.with_f(s7.regs.f & !HALF_CARRY_FLAG));
    let s9 = s8.set_regs(s8.regs.with_f(cond_bits(s8.regs.f, PARITY_OVERFLOW_FLAG, bc1 != 0)));
    let s10 = s9.set_regs(s9.regs.with_f(s9.regs.f & !ADD_SUBTRACT_FLAG));
    let a = s10.regs.reg8(Reg8::A);
    let xy = wrap8(a + v);
    let s11 = s10.set_regs(s10.regs.with_f(cond_bits(s10.regs.f, X_FLAG, xy & 0x08 != 0)));
    let s12 = s11.set_regs(s11.regs.with_f(cond_bits(s11.regs.f, Y_FLAG, xy & 0x02 != 0)));
    s12
}

/// One step of LDD: copies the byte at HL to DE, moves both down, counts BC down.
#[verifier::spinoff_prover]
#[verifier::rlimit(80)]
fn ldd(cpu: &mut Cpu)
    requires
        old(cpu).wf(),
        old(cpu)@.tcycles <= TCYCLE_CEILING,
    ensures
        final(cpu).wf(),
        final(cpu)@ == ldd_next(old(cpu)@),
        final(cpu)@.tcycles <= old(cpu)@.tcycles + 0x1000,
{
    let bc: u16 = cpu.read_reg16(Reg16::BC);
    let de: u16 = cpu.read_reg16(Reg16::DE);
    let hl: u16 = cpu.read_reg16(Reg16::HL);
    let v: u8 = cpu.read_word(hl);
    cpu.write_word(de, v);
    cpu.contend_write_no_mreq(de);
    cpu.contend_write_no_mreq(de);
    let bc1: u16 = bc.wrapping_sub(1);
    cpu.write_reg16(Reg16::BC, bc1);
    let de1: u16 = de.wrapping_sub(1);
    cpu.write_reg16(Reg16::DE, de1);
    let hl1: u16 = hl.wrapping_sub(1);
    cpu.write_reg16(Reg16::HL, hl1);
    cpu.clear_flag(HALF_CARRY_FLAG);
    cpu.cond_flag(PARITY_OVERFLOW_FLAG, bc1 != 0);
    cpu.clear_flag(ADD_SUBTRACT_FLAG);
    let a: u8 = cpu.read_reg8(Reg8::A);
    let xy: u8 = a.wrapping_add(v);
    cpu.cond_flag(X_FLAG, xy & 0x08 != 0);
    cpu.cond_flag(Y_FLAG, xy & 0x02 != 0);
}

/// One step of CPI: compares A with the byte at HL, moves HL up, counts BC down.
pub open spec fn cpi_next(s: CpuModel) -> CpuModel {
    let s0 = s;
    let bc = s0.regs.reg16(Reg16::BC);
    let hl = s0.regs.reg16(Reg16::HL);
    let a = s0.regs.reg8(Reg8::A);
    let v = s0.mem_at(hl);
    let s1 = s0.after_read(hl, 3);
    let res = wrap8(a - v);
    let s2 = s1.after_no_mreq(hl);
    let s3 = s2.after_no_mreq(hl);
    let s4 = s3.after_no_mreq(hl);
    let s5 = s4.after_no_mreq(hl);
    let s6 = s5.after_no_mreq(hl);
    let bc1 = wrap16(bc - 1);
    let s7 = s6.set_regs(s6.regs.with_reg16(Reg16::BC, bc1));
    let hl1 = wrap16(hl + 1);
    let s8 = s7.set_regs(s7.regs.with_reg16(Reg16::HL, hl1));
    let s9 = s8.set_regs(s8.regs.with_f(block_cp_flags(s8.regs.f, a, v, bc1, res)));
    s9
}

/// One step of CPI: compares A with the byte at HL, moves HL up, counts BC down.
#[verifier::spinoff_prover]
#[verifier::rlimit(80)]
fn cpi(cpu: &mut Cpu)
    requires
        old(cpu).wf(),
        old(cpu)@.tcycles <= TCYCLE_CEILING,
    ensures
        final(cpu).wf(),
        final(cpu)@ == cpi_next(old(cpu)@),
        final(cpu)@.tcycles <= old(cpu)@.tcycles + 0x1000,
{
    let bc: u16 = cpu.read_reg16(Reg16::BC);
    let hl: u16 = cpu.read_reg16(Reg16::HL);
    let a: u8 = cpu.read_reg8(Reg8::A);
    let v: u8 = cpu.read_word(hl);
    let res: u8 = a.wrapping_sub(v);
    cpu.contend_read_no_mreq(hl);
    cpu.contend_read_no_mreq(hl);
    cpu.contend_read_no_mreq(hl);
    cpu.contend_read_no_mreq(hl);
    cpu.contend_read_no_mreq(hl);
    let bc1: u16 = bc.wrapping_sub(1);
    cpu.write_reg16(Reg16::BC, bc1);
    let hl1: u16 = hl.wrapping_add(1);
    cpu.write_reg16(Reg16::HL, hl1);
    update_flags_cpi(cpu, a, v, bc1, res);
}

/// One step of CPD: compares A with the byte at HL, moves HL down, counts BC down.
pub open spec fn cpd_next(s: CpuModel) -> CpuModel {
    let s0 = s;
    let bc = s0.regs.reg16(Reg16::BC);
    let hl = s0.regs.reg16(Reg16::HL);
    let a = s0.regs.reg8(Reg8::A);
    let v = s0.mem_at(hl);
    let s1 = s0.after_read(hl, 3);
    let res = wrap8(a - v);
    let s2 = s1.after_no_mreq(hl);
    let s3 = s2.after_no_mreq(hl);
    let s4 = s3.after_no_mreq(hl);
    let s5 = s4.after_no_mreq(hl);
    let s6 = s5.after_no_mreq(hl);
    let bc1 = wrap16(bc - 1);
    let s7 = s6.set_regs(s6.regs.with_reg16(Reg16::BC, bc1));
    let hl1 = wrap16(hl - 1);
    let s8 = s7.set_regs(s7.regs.with_reg16(Reg16::HL, hl1));
    let s9 = s8.set_regs(s8.regs.with_f(block_cp_flags(s8.regs.f, a, v, bc1, res)));
    s9
}

/// One step of CPD: compares A with the byte at HL, moves HL down, counts BC down.
#[verifier::spinoff_prover]
#[verifier::rlimit(80)]
fn cpd(cpu: &mut Cpu)
    requires
        old(cpu).wf(),
        old(cpu)@.tcycles <= TCYCLE_CEILING,
    ensures
        final(cpu).wf(),
        final(cpu)@ == cpd_next(old(cpu)@),
        final(cpu)@.tcycles <= old(cpu)@.tcycles + 0x1000,
{
    let bc: u16 = cpu.read_reg16(Reg16::BC);
    let hl: u16 = cpu.read_reg16(Reg16::HL);
    let a: u8 = cpu.read_reg8(Reg8::A);
    let v: u8 = cpu.read_word(hl);
    let res: u8 = a.wrapping_sub(v);
    cpu.contend_read_no_mreq(hl);
    cpu.contend_read_no_mreq(hl);
    cpu.contend_read_no_mreq(hl);
    cpu.contend_read_no_mreq(hl);
    cpu.contend_read_no_mreq(hl);
    let bc1: u16 = bc.wrapping_sub(1);
    cpu.write_reg16(Reg16::BC, bc1);
    let hl1: u16 = hl.wrapping_sub(1);
    cpu.write_reg16(Reg16::HL, hl1);
    update_flags_cpd(cpu, a, v, bc1, res);
}

/// IN r, (C): reads the port in BC into a register.
#[derive(Clone, Copy)]
pub struct InRPortC {
    pub r: Reg8,
}

impl Instruction for InRPortC {
    open spec fn valid(&self) -> bool {
        true
    }

    open spec fn next_state(&self, s: CpuModel) -> CpuModel {
        let s0 = s;
        let port = s0.regs.reg16(Reg16::BC);
        let v = s0.bus.read_port(port);
        let s1 = s0.after_port_read(port);
        let s2 = s1.set_regs(s1.regs.with_reg8(self.r, v));
        let s3 = s2.set_regs(s2.regs.with_f(in_flags(s2.regs.f, v)));
        let s4 = s3.set_regs(s3.regs.advance_pc(1));
        s4
    }

    #[verifier::spinoff_prover]
    #[verifier::rlimit(80)]
    fn execute(&self, cpu: &mut Cpu) {
        let port: u16 = cpu.read_reg16(Reg16::BC);
        let v: u8 = cpu.read_port(port);
        cpu.write_reg8(self.r, v);
        update_flags_in(cpu, v);
        cpu.inc_pc(1);
    }

    open spec fn accessed(&self) -> (OutputRegisters, OutputRegisters) {
        (output_registers_from_reg8(self.r) | OC, output_registers_from_reg8(self.r))
    }

    fn get_accessed_regs(&self) -> (regs: (OutputRegisters, OutputRegisters)) {
        (output_registers_from_reg8(self.r) | OC, output_registers_from_reg8(self.r))
    }
}

/// OUT (C), r: writes a register to the port in BC.
#[derive(Clone, Copy)]
pub struct OutPortCR {
    pub r: Reg8,
}

impl Instruction for OutPortCR {
    open spec fn valid(&self) -> bool {
        true
    }

    open spec fn next_state(&self, s: CpuModel) -> CpuModel {
        let s0 = s;
        let v = s0.regs.reg8(self.r);
        let port = s0.regs.reg16(Reg16::BC);
        let s1 = s0.after_port_write(port, v);
        let s2 = s1.set_regs(s1.regs.advance_pc(1));
        s2
    }

    #[verifier::spinoff_prover]
    #[verifier::rlimit(80)]
    fn execute(&self, cpu: &mut Cpu) {
        let v: u8 = cpu.read_reg8(self.r);
        let port: u16 = cpu.read_reg16(Reg16::BC);
        cpu.write_port(port, v);
        cpu.inc_pc(1);
    }

    open spec fn accessed(&self) -> (OutputRegisters, OutputRegisters) {
        (OB | OC | output_registers_from_reg8(self.r), ONONE)
    }

    fn get_accessed_regs(&self) -> (regs: (OutputRegisters, OutputRegisters)) {
        (OB | OC | output_registers_from_reg8(self.r), ONONE)
    }
}

/// SBC HL, ss: 16-bit subtraction with the carry into HL.
#[derive(Clone, Copy)]
pub struct SbcHlSs {
    pub r: Reg16,
}

impl Instruction for SbcHlSs {
    open spec fn valid(&self) -> bool {
        true
    }

    open spec fn next_state(&self, s: CpuModel) -> CpuModel {
        let s0 = s;
        let hl = s0.regs.reg16(Reg16::HL);
        let v = s0.regs.reg16(self.r);
        let cf = s0.regs.flag(CARRY_FLAG);
        let c = if cf { 1u16 } else { 0u16 };
        let res = wrap16(hl - v - c);
        let ir = s0.regs.reg16(Reg16::IR);
        let s1 = s0.after_no_mreq(ir);
        let s2 = s1.after_no_mreq(ir);
        let s3 = s2.after_no_mreq(ir);
        let s4 = s3.after_no_mreq(ir);
        let s5 = s4.after_no_mreq(ir);
        let s6 = s5.after_no_mreq(ir);
        let s7 = s6.after_no_mreq(ir);
        let s8 = s7.set_regs(s7.regs.with_reg16(Reg16::HL, res));
        let wz = wrap16(hl + 1);
        let s9 = s8.set_regs(s8.regs.with_reg16(Reg16::WZ, wz));
        let s10 = s9.set_regs(s9.regs.with_f(sbc16_flags(hl, v, c, res)));
        let s11 = s10.set_regs(s10.regs.advance_pc(1));
        s11
    }

    #[verifier::spinoff_prover]
    #[verifier::rlimit(100)]
    fn execute(&self, cpu: &mut Cpu) {
        let hl: u16 = cpu.read_reg16(Reg16::HL);
        let v: u16 = cpu.read_reg16(self.r);
        let cf: bool = cpu.get_flag(CARRY_FLAG);
        let c: u16 = if cf { 1 } else { 0 };
        let res: u16 = sub16_borrow(hl, v, c);
        let ir: u16 = cpu.read_reg16(Reg16::IR);
        cpu.contend_read_no_mreq(ir);
        cpu.contend_read_no_mreq(ir);
        cpu.contend_read_no_mreq(ir);
        cpu.contend_read_no_mreq(ir);
        cpu.contend_read_no_mreq(ir);
        cpu.contend_read_no_mreq(ir);
        cpu.contend_read_no_mreq(ir);
        cpu.write_reg16(Reg16::HL, res);
        let wz: u16 = hl.wrapping_add(1);
        cpu.write_reg16(Reg16::WZ, wz);
        update_flags_sbc16(cpu, hl, v, c, res);
        cpu.inc_pc(1);
    }

    open spec fn accessed(&self) -> (OutputRegisters, OutputRegisters) {
        (OH | OL | OF | OWZ | output_registers_from_reg16(self.r), OH | OL | OF | OWZ)
    }

    fn get_accessed_regs(&self) -> (regs: (OutputRegisters, OutputRegisters)) {
        (OH | OL | OF | OWZ | output_registers_from_reg16(self.r), OH | OL | OF | OWZ)
    }
}

/// LD (nn), dd: stores a 16-bit register at an immediate address, low byte first.
#[derive(Clone, Copy)]
pub struct LdMemNnDd {
    pub r: Reg16,
}

impl Instruction for LdMemNnDd {
    open spec fn valid(&self) -> bool {
        true
    }

    open spec fn next_state(&self, s: CpuModel) -> CpuModel {
        let s0 = s;
        let pc = s0.regs.pc;
        let v = s0.regs.reg16(self.r);
        let vh = hi8(v);
        let vl = lo8(v);
        let pc1 = wrap16(pc + 1);
        let lo = s0.mem_at(pc1);
        let s1 = s0.after_read(pc1, 3);
        let pc2 = wrap16(pc + 2);
        let hi = s1.mem_at(pc2);
        let s2 = s1.after_read(pc2, 3);
        let nn = word(hi, lo);
        let s3 = s2.after_write(nn, vl);
        let nn1 = wrap16(nn + 1);
        let s4 = s3.after_write(nn1, vh);
        let s5 = s4.set_regs(s4.regs.with_reg16(Reg16::WZ, nn1));
        let s6 = s5.set_regs(s5.regs.advance_pc(3));
        s6
    }

    #[verifier::spinoff_prover]
    #[verifier::rlimit(100)]
    fn execute(&self, cpu: &mut Cpu) {
        let pc: u16 = cpu.get_pc();
        let v: u16 = cpu.read_reg16(self.r);
        let vh: u8 = (v / 256) as u8;
        let vl: u8 = (v % 256) as u8;
        let pc1: u16 = pc.wrapping_add(1);
        let lo: u8 = cpu.read_word(pc1);
        let pc2: u16 = pc.wrapping_add(2);
        let hi: u8 = cpu.read_word(pc2);
        let nn: u16 = (hi as u16) * 256 + lo as u16;
        cpu.write_word(nn, vl);
        let nn1: u16 = nn.wrapping_add(1);
        cpu.write_word(nn1, vh);
        cpu.write_reg16(Reg16::WZ, nn1);
        cpu.inc_pc(3);
    }

    open spec fn accessed(&self) -> (OutputRegisters, OutputRegisters) {
        (output_registers_from_reg16(self.r) | OWZ, OWZ)
    }

    fn get_accessed_regs(&self) -> (regs: (OutputRegisters, OutputRegisters)) {
        (output_registers_from_reg16(self.r) | OWZ, OWZ)
    }
}

/// NEG: negates A.
#[derive(Clone, Copy)]
pub struct Neg;

impl Instruction for Neg {
    open spec fn valid(&self) -> bool {
        true
    }

    open spec fn next_state(&self, s: CpuModel) -> CpuModel {
        let s0 = s;
        let a = s0.regs.reg8(Reg8::A);
        let neg = wrap8(0 - a);
        let s1 = s0.set_regs(s0.regs.with_reg8(Reg8::A, neg));
        let s2 = s1.set_regs(s1.regs.with_f(sub8_flags(0u8, a, neg)));
        let s3 = s2.set_regs(s2.regs.advance_pc(1));
        s3
    }

    #[verifier::spinoff_prover]
    #[verifier::rlimit(80)]
    fn execute(&self, cpu: &mut Cpu) {
        let a: u8 = cpu.read_reg8(Reg8::A);
        let neg: u8 = 0u8.wrapping_sub(a);
        cpu.write_reg8(Reg8::A, neg);
        update_flags_sub8(cpu, 0u8, a, neg);
        cpu.inc_pc(1);
    }

    open spec fn accessed(&self) -> (OutputRegisters, OutputRegisters) {
        (OA | OF, OA | OF)
    }

    fn get_accessed_regs(&self) -> (regs: (OutputRegisters, OutputRegisters)) {
        (OA | OF, OA | OF)
    }
}

/// RETN: returns from a non-maskable interrupt; IFF1 takes IFF2.
#[derive(Clone, Copy)]
pub struct RetN;

impl Instruction for RetN {
    open spec fn valid(&self) -> bool {
        true
    }

    open spec fn next_state(&self, s: CpuModel) -> CpuModel {
        let s0 = s;
        let i2 = s0.regs.iff2;
        let s2 = if i2 {
            let s1 = s0.set_regs(Regs { iff1: true, ..s0.regs });
                s1
        } else {
            let s1 = s0.set_regs(Regs { iff1: false, ..s0.regs });
                s1
        };
        let sp = s2.regs.reg16(Reg16::SP);
        let lo = s2.mem_at(sp);
        let s3 = s2.after_read(sp, 3);
        let sp1 = wrap16(sp + 1);
        let hi = s3.mem_at(sp1);
        let s4 = s3.after_read(sp1, 3);
        let sp2 = wrap16(sp + 2);
        let s5 = s4.set_regs(s4.regs.with_reg16(Reg16::SP, sp2));
        let target = word(hi, lo);
        let s6 = s5.set_regs(s5.regs.with_pc(target));
        s6
    }

    #[verifier::spinoff_prover]
    #[verifier::rlimit(80)]
    fn execute(&self, cpu: &mut Cpu) {
        let i2: bool = cpu.get_iff2();
        if i2 {
            cpu.set_iff1();
        } else {
            cpu.clear_iff1();
        }
        let sp: u16 = cpu.read_reg16(Reg16::SP);
        let lo: u8 = cpu.read_word(sp);
        let sp1: u16 = sp.wrapping_add(1);
        let hi: u8 = cpu.read_word(sp1);
        let sp2: u16 = sp.wrapping_add(2);
        cpu.write_reg16(Reg16::SP, sp2);
        let target: u16 = (hi as u16) * 256 + lo as u16;
        cpu.set_pc(target);
    }

    open spec fn accessed(&self) -> (OutputRegisters, OutputRegisters) {
        (OSP, OSP)
    }

    fn get_accessed_regs(&self) -> (regs: (OutputRegisters, OutputRegisters)) {
        (OSP, OSP)
    }
}

/// IM m: selects the interrupt mode.
#[derive(Clone, Copy)]
pub struct Im {
    pub mode: u8,
}

impl Instruction for Im {
    open spec fn valid(&self) -> bool {
        self.mode <= 2
    }

    open spec fn next_state(&self, s: CpuModel) -> CpuModel {
        let s0 = s;
        let s1 = s0.set_regs(Regs { im: self.mode, ..s0.regs });
        let s2 = s1.set_regs(s1.regs.advance_pc(1));
        s2
    }

    #[verifier::spinoff_prover]
    #[verifier::rlimit(80)]
    fn execute(&self, cpu: &mut Cpu) {
        cpu.set_im(self.mode);
        cpu.inc_pc(1);
    }

    open spec fn accessed(&self) -> (OutputRegisters, OutputRegisters) {
        (ONONE, ONONE)
    }

    fn get_accessed_regs(&self) -> (regs: (OutputRegisters, OutputRegisters)) {
        (ONONE, ONONE)
    }
}

/// LD I, A: copies A.
#[derive(Clone, Copy)]
pub struct LdIA;

impl Instruction for LdIA {
    open spec fn valid(&self) -> bool {
        true
    }

    open spec fn next_state(&self, s: CpuModel) -> CpuModel {
        let s0 = s;
        let a = s0.regs.reg8(Reg8::A);
        let ir = s0.regs.reg16(Reg16::IR);
        let s1 = s0.after_no_mreq(ir);
        let s2 = s1.set_regs(s1.regs.with_reg8(Reg8::I, a));
        let s3 = s2.set_regs(s2.regs.advance_pc(1));
        s3
    }

    #[verifier::spinoff_prover]
    #[verifier::rlimit(80)]
    fn execute(&self, cpu: &mut Cpu) {
        let a: u8 = cpu.read_reg8(Reg8::A);
        let ir: u16 = cpu.read_reg16(Reg16::IR);
        cpu.contend_read_no_mreq(ir);
        cpu.write_reg8(Reg8::I, a);
        cpu.inc_pc(1);
    }

    open spec fn accessed(&self) -> (OutputRegisters, OutputRegisters) {
        (OA | OI, OI)
    }

    fn get_accessed_regs(&self) -> (regs: (OutputRegisters, OutputRegisters)) {
        (OA | OI, OI)
    }
}

/// ADC HL, ss: 16-bit addition with the carry into HL.
#[derive(Clone, Copy)]
pub struct AdcHlSs {
    pub r: Reg16,
}

impl Instruction for AdcHlSs {
    open spec fn valid(&self) -> bool {
        true
    }

    open spec fn next_state(&self, s: CpuModel) -> CpuModel {
        let s0 = s;
        let hl = s0.regs.reg16(Reg16::HL);
        let v = s0.regs.reg16(self.r);
        let cf = s0.regs.flag(CARRY_FLAG);
        let c = if cf { 1u16 } else { 0u16 };
        let res = wrap16(hl + v + c);
        let ir = s0.regs.reg16(Reg16::IR);
        let s1 = s0.after_no_mreq(ir);
        let s2 = s1.after_no_mreq(ir);
        let s3 = s2.after_no_mreq(ir);
        let s4 = s3.after_no_mreq(ir);
        let s5 = s4.after_no_mreq(ir);
        let s6 = s5.after_no_mreq(ir);
        let s7 = s6.after_no_mreq(ir);
        let s8 = s7.set_regs(s7.regs.with_reg16(Reg16::HL, res));
        let wz = wrap16(hl + 1);
        let s9 = s8.set_regs(s8.regs.with_reg16(Reg16::WZ, wz));
        let s10 = s9.set_regs(s9.regs.with_f(adc16_flags(hl, v, c, res)));
        let s11 = s10.set_regs(s10.regs.advance_pc(1));
        s11
    }

    #[verifier::spinoff_prover]
    #[verifier::rlimit(100)]
    fn execute(&self, cpu: &mut Cpu) {
        let hl: u16 = cpu.read_reg16(Reg16::HL);
        let v: u16 = cpu.read_reg16(self.r);
        let cf: bool = cpu.get_flag(CARRY_FLAG);
        let c: u16 = if cf { 1 } else { 0 };
        let res: u16 = add16_carry(hl, v, c);
        let ir: u16 = cpu.read_reg16(Reg16::IR);
        cpu.contend_read_no_mreq(ir);
        cpu.contend_read_no_mreq(ir);
        cpu.contend_read_no_mreq(ir);
        cpu.contend_read_no_mreq(ir);
        cpu.contend_read_no_mreq(ir);
        cpu.contend_read_no_mreq(ir);
        cpu.contend_read_no_mreq(ir);
        cpu.write_reg16(Reg16::HL, res);
        let wz: u16 = hl.wrapping_add(1);
        cpu.write_reg16(Reg16::WZ, wz);
        update_flags_adc16(cpu, hl, v, c, res);
        cpu.inc_pc(1);
    }

    open spec fn accessed(&self) -> (OutputRegisters, OutputRegisters) {
        (OH | OL | OF | OWZ | output_registers_from_reg16(self.r), OH | OL | OF | OWZ)
    }

    fn get_accessed_regs(&self) -> (regs: (OutputRegisters, OutputRegisters)) {
        (OH | OL | OF | OWZ | output_registers_from_reg16(self.r), OH | OL | OF | OWZ)
    }
}

/// LD dd, (nn): loads a 16-bit register from an immediate address.
#[derive(Clone, Copy)]
pub struct LdDdMemNn {
    pub r: Reg16,
}

impl Instruction for LdDdMemNn {
    open spec fn valid(&self) -> bool {
        true
    }

    open spec fn next_state(&self, s: CpuModel) -> CpuModel {
        let s0 = s;
        let pc = s0.regs.pc;
        let pc1 = wrap16(pc + 1);
        let lo = s0.mem_at(pc1);
        let s1 = s0.after_read(pc1, 3);
        let pc2 = wrap16(pc + 2);
        let hi = s1.mem_at(pc2);
        let s2 = s1.after_read(pc2, 3);
        let nn = word(hi, lo);
        let lo2 = s2.mem_at(nn);
        let s3 = s2.after_read(nn, 3);
        let nn1 = wrap16(nn + 1);
        let hi2 = s3.mem_at(nn1);
        let s4 = s3.after_read(nn1, 3);
        let v = word(hi2, lo2);
        let s5 = s4.set_regs(s4.regs.with_reg16(self.r, v));
        let s6 = s5.set_regs(s5.regs.with_reg16(Reg16::WZ, nn1));
        let s7 = s6.set_regs(s6.regs.advance_pc(3));
        s7
    }

    #[verifier::spinoff_prover]
    #[verifier::rlimit(100)]
    fn execute(&self, cpu: &mut Cpu) {
        let pc: u16 = cpu.get_pc();
        let pc1: u16 = pc.wrapping_add(1);
        let lo: u8 = cpu.read_word(pc1);
        let pc2: u16 = pc.wrapping_add(2);
        let hi: u8 = cpu.read_word(pc2);
        let nn: u16 = (hi as u16) * 256 + lo as u16;
        let lo2: u8 = cpu.read_word(nn);
        let nn1: u16 = nn.wrapping_add(1);
        let hi2: u8 = cpu.read_word(nn1);
        let v: u16 = (hi2 as u16) * 256 + lo2 as u16;
        cpu.write_reg16(self.r, v);
        cpu.write_reg16(Reg16::WZ, nn1);
        cpu.inc_pc(3);
    }

    open spec fn accessed(&self) -> (OutputRegisters, OutputRegisters) {
        (output_registers_from_reg16(self.r) | OWZ, output_registers_from_reg16(self.r) | OWZ)
    }

    fn get_accessed_regs(&self) -> (regs: (OutputRegisters, OutputRegisters)) {
        (output_registers_from_reg16(self.r) | OWZ, output_registers_from_reg16(self.r) | OWZ)
    }
}

/// LD R, A: copies A.
#[derive(Clone, Copy)]
pub struct LdRA;

impl Instruction for LdRA {
    open spec fn valid(&self) -> bool {
        true
    }

    open spec fn next_state(&self, s: CpuModel) -> CpuModel {
        let s0 = s;
        let a = s0.regs.reg8(Reg8::A);
        let ir = s0.regs.reg16(Reg16::IR);
        let s1 = s0.after_no_mreq(ir);
        let s2 = s1.set_regs(s1.regs.with_reg8(Reg8::R, a));
        let s3 = s2.set_regs(s2.regs.advance_pc(1));
        s3
    }

    #[verifier::spinoff_prover]
    #[verifier::rlimit(80)]
    fn execute(&self, cpu: &mut Cpu) {
        let a: u8 = cpu.read_reg8(Reg8::A);
        let ir: u16 = cpu.read_reg16(Reg16::IR);
        cpu.contend_read_no_mreq(ir);
        cpu.write_reg8(Reg8::R, a);
        cpu.inc_pc(1);
    }

    open spec fn accessed(&self) -> (OutputRegisters, OutputRegisters) {
        (OA | OR, OR)
    }

    fn get_accessed_regs(&self) -> (regs: (OutputRegisters, OutputRegisters)) {
        (OA | OR, OR)
    }
}

/// LD A, I: copies into A; P/V takes IFF2.
#[derive(Clone, Copy)]
pub struct LdAI;

impl Instruction for LdAI {
    open spec fn valid(&self) -> bool {
        true
    }

    open spec fn next_state(&self, s: CpuModel) -> CpuModel {
        let s0 = s;
        let v = s0.regs.reg8(Reg8::I);
        let ir = s0.regs.reg16(Reg16::IR);
        let s1 = s0.after_no_mreq(ir);
        let s2 = s1.set_regs(s1.regs.with_reg8(Reg8::A, v));
        let s3 = s2.set_regs(s2.regs.with_f(cond_bits(s2.regs.f, SIGN_FLAG, v >= 0x80)));
        let s4 = s3.set_regs(s3.regs.with_f(cond_bits(s3.regs.f, ZERO_FLAG, v == 0)));
        let s5 = s4.set_regs(s4.regs.with_f(s4.regs.f & !HALF_CARRY_FLAG));
        let i2 = s5.regs.iff2;
        let s6 = s5.set_regs(s5.regs.with_f(cond_bits(s5.regs.f, PARITY_OVERFLOW_FLAG, i2)));
        let s7 = s6.set_regs(s6.regs.with_f(s6.regs.f & !ADD_SUBTRACT_FLAG));
        let s8 = s7.set_regs(s7.regs.advance_pc(1));
        s8
    }

    #[verifier::spinoff_prover]
    #[verifier::rlimit(80)]
    fn execute(&self, cpu: &mut Cpu) {
        let v: u8 = cpu.read_reg8(Reg8::I);
        let ir: u16 = cpu.read_reg16(Reg16::IR);
        cpu.contend_read_no_mreq(ir);
        cpu.write_reg8(Reg8::A, v);
        cpu.cond_flag(SIGN_FLAG, v >= 0x80);
        cpu.cond_flag(ZERO_FLAG, v == 0);
        cpu.clear_flag(HALF_CARRY_FLAG);
        let i2: bool = cpu.get_iff2();
        cpu.cond_flag(PARITY_OVERFLOW_FLAG, i2);
        cpu.clear_flag(ADD_SUBTRACT_FLAG);
        cpu.inc_pc(1);
    }

    open spec fn accessed(&self) -> (OutputRegisters, OutputRegisters) {
        (OA | OI, OA)
    }

    fn get_accessed_regs(&self) -> (regs: (OutputRegisters, OutputRegisters)) {
        (OA | OI, OA)
    }
}

/// LD A, R: copies into A; P/V takes IFF2.
#[derive(Clone, Copy)]
pub struct LdAR;

impl Instruction for LdAR {
    open spec fn valid(&self) -> bool {
        true
    }

    open spec fn next_state(&self, s: CpuModel) -> CpuModel {
        let s0 = s;
        let v = s0.regs.reg8(Reg8::R);
        let ir = s0.regs.reg16(Reg16::IR);
        let s1 = s0.after_no_mreq(ir);
        let s2 = s1.set_regs(s1.regs.with_reg8(Reg8::A, v));
        let s3 = s2.set_regs(s2.regs.with_f(cond_bits(s2.regs.f, SIGN_FLAG, v >= 0x80)));
        let s4 = s3.set_regs(s3.regs.with_f(cond_bits(s3.regs.f, ZERO_FLAG, v == 0)));
        let s5 = s4.set_regs(s4.regs.with_f(s4.regs.f & !HALF_CARRY_FLAG));
        let i2 = s5.regs.iff2;
        let s6 = s5.set_regs(s5.regs.with_f(cond_bits(s5.regs.f, PARITY_OVERFLOW_FLAG, i2)));
        let s7 = s6.set_regs(s6.regs.with_f(s6.regs.f & !ADD_SUBTRACT_FLAG));
        let s8 = s7.set_regs(s7.regs.advance_pc(1));
        s8
    }

    #[verifier::spinoff_prover]
    #[verifier::rlimit(80)]
    fn execute(&self, cpu: &mut Cpu) {
        let v: u8 = cpu.read_reg8(Reg8::R);
        let ir: u16 = cpu.read_reg16(Reg16::IR);
        cpu.contend_read_no_mreq(ir);
        cpu.write_reg8(Reg8::A, v);
        cpu.cond_flag(SIGN_FLAG, v >= 0x80);
        cpu.cond_flag(ZERO_FLAG, v == 0);
        cpu.clear_flag(HALF_CARRY_FLAG);
        let i2: bool = cpu.get_iff2();
        cpu.cond_flag(PARITY_OVERFLOW_FLAG, i2);
        cpu.clear_flag(ADD_SUBTRACT_FLAG);
        cpu.inc_pc(1);
    }

    open spec fn accessed(&self) -> (OutputRegisters, OutputRegisters) {
        (OA | OR, OA)
    }

    fn get_accessed_regs(&self) -> (regs: (OutputRegisters, OutputRegisters)) {
        (OA | OR, OA)
    }
}

/// RRD: rotates a nibble right through A and the byte at HL.
#[derive(Clone, Copy)]
pub struct Rrd;

impl Instruction for Rrd {
    open spec fn valid(&self) -> bool {
        true
    }

    open spec fn next_state(&self, s: CpuModel) -> CpuModel {
        let s0 = s;
        let a = s0.regs.reg8(Reg8::A);
        let hl = s0.regs.reg16(Reg16::HL);
        let v = s0.mem_at(hl);
        let s1 = s0.after_read(hl, 3);
        let alow = a % 16;
        let na = ((a / 16) * 16 + v % 16) as u8;
        let nv = (alow * 16 + v / 16) as u8;
        let s2 = s1.after_no_mreq(hl);
        let s3 = s2.after_no_mreq(hl);
        let s4 = s3.after_no_mreq(hl);
        let s5 = s4.after_no_mreq(hl);
        let s6 = s5.set_regs(s5.regs.with_reg8(Reg8::A, na));
        let s7 = s6.after_write(hl, nv);
        let hl1 = wrap16(hl + 1);
        let s8 = s7.set_regs(s7.regs.with_reg16(Reg16::WZ, hl1));
        let s9 = s8.set_regs(s8.regs.with_f(in_flags(s8.regs.f, na)));
        let s10 = s9.set_regs(s9.regs.advance_pc(1));
        s10
    }

    #[verifier::spinoff_prover]
    #[verifier::rlimit(100)]
    fn execute(&self, cpu: &mut Cpu) {
        let a: u8 = cpu.read_reg8(Reg8::A);
        let hl: u16 = cpu.read_reg16(Reg16::HL);
        let v: u8 = cpu.read_word(hl);
        let alow: u8 = a % 16;
        let na: u8 = (a / 16) * 16 + v % 16;
        let nv: u8 = alow * 16 + v / 16;
        cpu.contend_read_no_mreq(hl);
        cpu.contend_read_no_mreq(hl);
        cpu.contend_read_no_mreq(hl);
        cpu.contend_read_no_mreq(hl);
        cpu.write_reg8(Reg8::A, na);
        cpu.write_word(hl, nv);
        let hl1: u16 = hl.wrapping_add(1);
        cpu.write_reg16(Reg16::WZ, hl1);
        update_flags_in(cpu, na);
        cpu.inc_pc(1);
    }

    open spec fn accessed(&self) -> (OutputRegisters, OutputRegisters) {
        (OA | OF | OH | OL | OWZ, OA | OF | OWZ)
    }

    fn get_accessed_regs(&self) -> (regs: (OutputRegisters, OutputRegisters)) {
        (OA | OF | OH | OL | OWZ, OA | OF | OWZ)
    }
}

/// RLD: rotates a nibble left through A and the byte at HL.
#[derive(Clone, Copy)]
pub struct Rld;

impl Instruction for Rld {
    open spec fn valid(&self) -> bool {
        true
    }

    open spec fn next_state(&self, s: CpuModel) -> CpuModel {
        let s0 = s;
        let a = s0.regs.reg8(Reg8::A);
        let hl = s0.regs.reg16(Reg16::HL);
        let v = s0.mem_at(hl);
        let s1 = s0.after_read(hl, 3);
        let alow = a % 16;
        let na = ((a / 16) * 16 + v / 16) as u8;
        let nv = ((v % 16) * 16 + alow) as u8;
        let s2 = s1.after_no_mreq(hl);
        let s3 = s2.after_no_mreq(hl);
        let s4 = s3.after_no_mreq(hl);
        let s5 = s4.after_no_mreq(hl);
        let s6 = s5.set_regs(s5.regs.with_reg8(Reg8::A, na));
        let s7 = s6.after_write(hl, nv);
        let hl1 = wrap16(hl + 1);
        let s8 = s7.set_regs(s7.regs.with_reg16(Reg16::WZ, hl1));
        let s9 = s8.set_regs(s8.regs.with_f(in_flags(s8.regs.f, na)));
        let s10 = s9.set_regs(s9.regs.advance_pc(1));
        s10
    }

    #[verifier::spinoff_prover]
    #[verifier::rlimit(100)]
    fn execute(&self, cpu: &mut Cpu) {
        let a: u8 = cpu.read_reg8(Reg8::A);
        let hl: u16 = cpu.read_reg16(Reg16::HL);
        let v: u8 = cpu.read_word(hl);
        let alow: u8 = a % 16;
        let na: u8 = (a / 16) * 16 + v / 16;
        let nv: u8 = (v % 16) * 16 + alow;
        cpu.contend_read_no_mreq(hl);
        cpu.contend_read_no_mreq(hl);
        cpu.contend_read_no_mreq(hl);
        cpu.contend_read_no_mreq(hl);
        cpu.write_reg8(Reg8::A, na);
        cpu.write_word(hl, nv);
        let hl1: u16 = hl.wrapping_add(1);
        cpu.write_reg16(Reg16::WZ, hl1);
        update_flags_in(cpu, na);
        cpu.inc_pc(1);
    }

    open spec fn accessed(&self) -> (OutputRegisters, OutputRegisters) {
        (OA | OF | OH | OL | OWZ, OA | OF | OWZ)
    }

    fn get_accessed_regs(&self) -> (regs: (OutputRegisters, OutputRegisters)) {
        (OA | OF | OH | OL | OWZ, OA | OF | OWZ)
    }
}

/// IN (C): reads the port in BC, keeping only the flags.
#[derive(Clone, Copy)]
pub struct InPortC;

impl Instruction for InPortC {
    open spec fn valid(&self) -> bool {
        true
    }

    open spec fn next_state(&self, s: CpuModel) -> CpuModel {
        let s0 = s;
        let port = s0.regs.reg16(Reg16::BC);
        let v = s0.bus.read_port(port);
        let s1 = s0.after_port_read(port);
        let s2 = s1.set_regs(s1.regs.with_f(in_flags(s1.regs.f, v)));
        let s3 = s2.set_regs(s2.regs.advance_pc(1));
        s3
    }

    #[verifier::spinoff_prover]
    #[verifier::rlimit(80)]
    fn execute(&self, cpu: &mut Cpu) {
        let port: u16 = cpu.read_reg16(Reg16::BC);
        let v: u8 = cpu.read_port(port);
        update_flags_in(cpu, v);
        cpu.inc_pc(1);
    }

    open spec fn accessed(&self) -> (OutputRegisters, OutputRegisters) {
        (OC, OF)
    }

    fn get_accessed_regs(&self) -> (regs: (OutputRegisters, OutputRegisters)) {
        (OC, OF)
    }
}

/// OUT (C), 0: writes zero to the port in BC.
#[derive(Clone, Copy)]
pub struct OutPortC;

impl Instruction for OutPortC {
    open spec fn valid(&self) -> bool {
        true
    }

    open spec fn next_state(&self, s: CpuModel) -> CpuModel {
        let s0 = s;
        let port = s0.regs.reg16(Reg16::BC);
        let s1 = s0.after_port_write(port, 0u8);
        let s2 = s1.set_regs(s1.regs.advance_pc(1));
        s2
    }

    #[verifier::spinoff_prover]
    #[verifier::rlimit(80)]
    fn execute(&self, cpu: &mut Cpu) {
        let port: u16 = cpu.read_reg16(Reg16::BC);
        cpu.write_port(port, 0u8);
        cpu.inc_pc(1);
    }

    open spec fn accessed(&self) -> (OutputRegisters, OutputRegisters) {
        (OB | OC, ONONE)
    }

    fn get_accessed_regs(&self) -> (regs: (OutputRegisters, OutputRegisters)) {
        (OB | OC, ONONE)
    }
}

/// LDI: block copy step, going up.
#[derive(Clone, Copy)]
pub struct Ldi;

impl Instruction for Ldi {
    open spec fn valid(&self) -> bool {
        true
    }

    open spec fn next_state(&self, s: CpuModel) -> CpuModel {
        let s0 = s;
        let s1 = ldi_next(s0);
        let s2 = s1.set_regs(s1.regs.advance_pc(1));
        s2
    }

    #[verifier::spinoff_prover]
    #[verifier::rlimit(80)]
    fn execute(&self, cpu: &mut Cpu) {
        ldi(cpu);
        cpu.inc_pc(1);
    }

    open spec fn accessed(&self) -> (OutputRegisters, OutputRegisters) {
        (OB | OC | OD | OE | OH | OL | OF, OB | OC | OD | OE | OH | OL | OF)
    }

    fn get_accessed_regs(&self) -> (regs: (OutputRegisters, OutputRegisters)) {
        (OB | OC | OD | OE | OH | OL | OF, OB | OC | OD | OE | OH | OL | OF)
    }
}

/// CPI: block compare step, going up; WZ moves up.
#[derive(Clone, Copy)]
pub struct Cpi;

impl Instruction for Cpi {
    open spec fn valid(&self) -> bool {
        true
    }

    open spec fn next_state(&self, s: CpuModel) -> CpuModel {
        let s0 = s;
        let s1 = cpi_next(s0);
        let wz = s1.regs.reg16(Reg16::WZ);
        let wz1 = wrap16(wz + 1);
        let s2 = s1.set_regs(s1.regs.with_reg16(Reg16::WZ, wz1));
        let s3 = s2.set_regs(s2.regs.advance_pc(1));
        s3
    }

    #[verifier::spinoff_prover]
    #[verifier::rlimit(80)]
    fn execute(&self, cpu: &mut Cpu) {
        cpi(cpu);
        let wz: u16 = cpu.read_reg16(Reg16::WZ);
        let wz1: u16 = wz.wrapping_add(1);
        cpu.write_reg16(Reg16::WZ, wz1);
        cpu.inc_pc(1);
    }

    open spec fn accessed(&self) -> (OutputRegisters, OutputRegisters) {
        (OA | OB | OC | OH | OL | OF | OWZ, OB | OC | OH | OL | OF | OWZ)
    }

    fn get_accessed_regs(&self) -> (regs: (OutputRegisters, OutputRegisters)) {
        (OA | OB | OC | OH | OL | OF | OWZ, OB | OC | OH | OL | OF | OWZ)
    }
}

/// INI: block I/O is not modelled; the instruction is skipped.
#[derive(Clone, Copy)]
pub struct Ini;

impl Instruction for Ini {
    open spec fn valid(&self) -> bool {
        true
    }

    open spec fn next_state(&self, s: CpuModel) -> CpuModel {
        let s0 = s;
        let s1 = s0.set_regs(s0.regs.advance_pc(1));
        s1
    }

    #[verifier::spinoff_prover]
    #[verifier::rlimit(80)]
    fn execute(&self, cpu: &mut Cpu) {
        cpu.inc_pc(1);
    }

    open spec fn accessed(&self) -> (OutputRegisters, OutputRegisters) {
        (ONONE, ONONE)
    }

    fn get_accessed_regs(&self) -> (regs: (OutputRegisters, OutputRegisters)) {
        (ONONE, ONONE)
    }
}

/// OUTI: block I/O is not modelled; the instruction is skipped.
#[derive(Clone, Copy)]
pub struct Outi;

impl Instruction for Outi {
    open spec fn valid(&self) -> bool {
        true
    }

    open spec fn next_state(&self, s: CpuModel) -> CpuModel {
        let s0 = s;
        let s1 = s0.set_regs(s0.regs.advance_pc(1));
        s1
    }

    #[verifier::spinoff_prover]
    #[verifier::rlimit(80)]
    fn execute(&self, cpu: &mut Cpu) {
        cpu.inc_pc(1);
    }

    open spec fn accessed(&self) -> (OutputRegisters, OutputRegisters) {
        (ONONE, ONONE)
    }

    fn get_accessed_regs(&self) -> (regs: (OutputRegisters, OutputRegisters)) {
        (ONONE, ONONE)
    }
}

/// LDD: block copy step, going down.
#[derive(Clone, Copy)]
pub struct Ldd;

impl Instruction for Ldd {
    open spec fn valid(&self) -> bool {
        true
    }

    open spec fn next_state(&self, s: CpuModel) -> CpuModel {
        let s0 = s;
        let s1 = ldd_next(s0);
        let s2 = s1.set_regs(s1.regs.advance_pc(1));
        s2
    }

    #[verifier::spinoff_prover]
    #[verifier::rlimit(80)]
    fn execute(&self, cpu: &mut Cpu) {
        ldd(cpu);
        cpu.inc_pc(1);
    }

    open spec fn accessed(&self) -> (OutputRegisters, OutputRegisters) {
        (OB | OC | OD | OE | OH | OL | OF, OB | OC | OD | OE | OH | OL | OF)
    }

    fn get_accessed_regs(&self) -> (regs: (OutputRegisters, OutputRegisters)) {
        (OB | OC | OD | OE | OH | OL | OF, OB | OC | OD | OE | OH | OL | OF)
    }
}

/// CPD: block compare step, going down; WZ moves down.
#[derive(Clone, Copy)]
pub struct Cpd;

impl Instruction for Cpd {
    open spec fn valid(&self) -> bool {
        true
    }

    open spec fn next_state(&self, s: CpuModel) -> CpuModel {
        let s0 = s;
        let s1 = cpd_next(s0);
        let wz = s1.regs.reg16(Reg16::WZ);
        let wz1 = wrap16(wz - 1);
        let s2 = s1.set_regs(s1.regs.with_reg16(Reg16::WZ, wz1));
        let s3 = s2.set_regs(s2.regs.advance_pc(1));
        s3
    }

    #[verifier::spinoff_prover]
    #[verifier::rlimit(80)]
    fn execute(&self, cpu: &mut Cpu) {
        cpd(cpu);
        let wz: u16 = cpu.read_reg16(Reg16::WZ);
        let wz1: u16 = wz.wrapping_sub(1);
        cpu.write_reg16(Reg16::WZ, wz1);
        cpu.inc_pc(1);
    }

    open spec fn accessed(&self) -> (OutputRegisters, OutputRegisters) {
        (OA | OB | OC | OH | OL | OF | OWZ, OB | OC | OH | OL | OF | OWZ)
    }

    fn get_accessed_regs(&self) -> (regs: (OutputRegisters, OutputRegisters)) {
        (OA | OB | OC | OH | OL | OF | OWZ, OB | OC | OH | OL | OF | OWZ)
    }
}

/// IND: block I/O is not modelled; the instruction is skipped.
#[derive(Clone, Copy)]
pub struct Ind;

impl Instruction for Ind {
    open spec fn valid(&self) -> bool {
        true
    }

    open spec fn next_state(&self, s: CpuModel) -> CpuModel {
        let s0 = s;
        let s1 = s0.set_regs(s0.regs.advance_pc(1));
        s1
    }

    #[verifier::spinoff_prover]
    #[verifier::rlimit(80)]
    fn execute(&self, cpu: &mut Cpu) {
        cpu.inc_pc(1);
    }

    open spec fn accessed(&self) -> (OutputRegisters, OutputRegisters) {
        (ONONE, ONONE)
    }

    fn get_accessed_regs(&self) -> (regs: (OutputRegisters, OutputRegisters)) {
        (ONONE, ONONE)
    }
}

/// OUTD: block I/O is not modelled; the instruction is skipped.
#[derive(Clone, Copy)]
pub struct Outd;

impl Instruction for Outd {
    open spec fn valid(&self) -> bool {
        true
    }

    open spec fn next_state(&self, s: CpuModel) -> CpuModel {
        let s0 = s;
        let s1 = s0.set_regs(s0.regs.advance_pc(1));
        s1
    }

    #[verifier::spinoff_prover]
    #[verifier::rlimit(80)]
    fn execute(&self, cpu: &mut Cpu) {
        cpu.inc_pc(1);
    }

    open spec fn accessed(&self) -> (OutputRegisters, OutputRegisters) {
        (ONONE, ONONE)
    }

    fn get_accessed_regs(&self) -> (regs: (OutputRegisters, OutputRegisters)) {
        (ONONE, ONONE)
    }
}

/// LDIR: block copy going up, repeated (the PC steps back) while BC is not zero.
#[derive(Clone, Copy)]
pub struct Ldir;

impl Instruction for Ldir {
    open spec fn valid(&self) -> bool {
        true
    }

    open spec fn next_state(&self, s: CpuModel) -> CpuModel {
        let s0 = s;
        let s1 = ldi_next(s0);
        let pv = s1.regs.flag(PARITY_OVERFLOW_FLAG);
        let s9 = if pv {
            let x = s1.regs.reg16(Reg16::DE);
            let x1 = wrap16(x - 1);
            let s2 = s1.after_no_mreq(x1);
            let s3 = s2.after_no_mreq(x1);
            let s4 = s3.after_no_mreq(x1);
            let s5 = s4.after_no_mreq(x1);
            let s6 = s5.after_no_mreq(x1);
            let now = s6.regs.pc;
            let now1 = wrap16(now + 1);
            let s7 = s6.set_regs(s6.regs.with_reg16(Reg16::WZ, now1));
            let s8 = s7.set_regs(s7.regs.advance_pc(-1));
                s8
        } else {
            let s2 = s1.set_regs(s1.regs.advance_pc(1));
                s2
        };
        s9
    }

    #[verifier::spinoff_prover]
    #[verifier::rlimit(80)]
    fn execute(&self, cpu: &mut Cpu) {
        ldi(cpu);
        let pv: bool = cpu.get_flag(PARITY_OVERFLOW_FLAG);
        if pv {
            let x: u16 = cpu.read_reg16(Reg16::DE);
            let x1: u16 = x.wrapping_sub(1);
            cpu.contend_write_no_mreq(x1);
            cpu.contend_write_no_mreq(x1);
            cpu.contend_write_no_mreq(x1);
            cpu.contend_write_no_mreq(x1);
            cpu.contend_write_no_mreq(x1);
            let now: u16 = cpu.get_pc();
            let now1: u16 = now.wrapping_add(1);
            cpu.write_reg16(Reg16::WZ, now1);
            cpu.dec_pc(1);
        } else {
            cpu.inc_pc(1);
        }
    }

    open spec fn accessed(&self) -> (OutputRegisters, OutputRegisters) {
        (OB | OC | OD | OE | OH | OL | OF | OWZ, OB | OC | OD | OE | OH | OL | OF | OWZ)
    }

    fn get_accessed_regs(&self) -> (regs: (OutputRegisters, OutputRegisters)) {
        (OB | OC | OD | OE | OH | OL | OF | OWZ, OB | OC | OD | OE | OH | OL | OF | OWZ)
    }
}

/// CPIR: block compare going up, repeated while BC is not zero and no match.
#[derive(Clone, Copy)]
pub struct Cpir;

impl Instruction for Cpir {
    open spec fn valid(&self) -> bool {
        true
    }

    open spec fn next_state(&self, s: CpuModel) -> CpuModel {
        let s0 = s;
        let s1 = cpi_next(s0);
        let pv = s1.regs.flag(PARITY_OVERFLOW_FLAG);
        let z = s1.regs.flag(ZERO_FLAG);
        let s9 = if pv && !z {
            let x = s1.regs.reg16(Reg16::HL);
            let x1 = wrap16(x - 1);
            let s2 = s1.after_no_mreq(x1);
            let s3 = s2.after_no_mreq(x1);
            let s4 = s3.after_no_mreq(x1);
            let s5 = s4.after_no_mreq(x1);
            let s6 = s5.after_no_mreq(x1);
            let now = s6.regs.pc;
            let now1 = wrap16(now + 1);
            let s7 = s6.set_regs(s6.regs.with_reg16(Reg16::WZ, now1));
            let s8 = s7.set_regs(s7.regs.advance_pc(-1));
                s8
        } else {
            let s2 = s1.set_regs(s1.regs.advance_pc(1));
                s2
        };
        s9
    }

    #[verifier::spinoff_prover]
    #[verifier::rlimit(80)]
    fn execute(&self, cpu: &mut Cpu) {
        cpi(cpu);
        let pv: bool = cpu.get_flag(PARITY_OVERFLOW_FLAG);
        let z: bool = cpu.get_flag(ZERO_FLAG);
        if pv && !z {
            let x: u16 = cpu.read_reg16(Reg16::HL);
            let x1: u16 = x.wrapping_sub(1);
            cpu.contend_read_no_mreq(x1);
            cpu.contend_read_no_mreq(x1);
            cpu.contend_read_no_mreq(x1);
            cpu.contend_read_no_mreq(x1);
            cpu.contend_read_no_mreq(x1);
            let now: u16 = cpu.get_pc();
            let now1: u16 = now.wrapping_add(1);
            cpu.write_reg16(Reg16::WZ, now1);
            cpu.dec_pc(1);
        } else {
            cpu.inc_pc(1);
        }
    }

    open spec fn accessed(&self) -> (OutputRegisters, OutputRegisters) {
        (OA | OB | OC | OH | OL | OF | OWZ, OB | OC | OH | OL | OF | OWZ)
    }

    fn get_accessed_regs(&self) -> (regs: (OutputRegisters, OutputRegisters)) {
        (OA | OB | OC | OH | OL | OF | OWZ, OB | OC | OH | OL | OF | OWZ)
    }
}

/// INIR: block I/O is not modelled; the instruction is skipped.
#[derive(Clone, Copy)]
pub struct Inir;

impl Instruction for Inir {
    open spec fn valid(&self) -> bool {
        true
    }

    open spec fn next_state(&self, s: CpuModel) -> CpuModel {
        let s0 = s;
        let s1 = s0.set_regs(s0.regs.advance_pc(1));
        s1
    }

    #[verifier::spinoff_prover]
    #[verifier::rlimit(80)]
    fn execute(&self, cpu: &mut Cpu) {
        cpu.inc_pc(1);
    }

    open spec fn accessed(&self) -> (OutputRegisters, OutputRegisters) {
        (ONONE, ONONE)
    }

    fn get_accessed_regs(&self) -> (regs: (OutputRegisters, OutputRegisters)) {
        (ONONE, ONONE)
    }
}

/// OTIR: block I/O is not modelled; the instruction is skipped.
#[derive(Clone, Copy)]
pub struct Otir;

impl Instruction for Otir {
    open spec fn valid(&self) -> bool {
        true
    }

    open spec fn next_state(&self, s: CpuModel) -> CpuModel {
        let s0 = s;
        let s1 = s0.set_regs(s0.regs.advance_pc(1));
        s1
    }

    #[verifier::spinoff_prover]
    #[verifier::rlimit(80)]
    fn execute(&self, cpu: &mut Cpu) {
        cpu.inc_pc(1);
    }

    open spec fn accessed(&self) -> (OutputRegisters, OutputRegisters) {
        (ONONE, ONONE)
    }

    fn get_accessed_regs(&self) -> (regs: (OutputRegisters, OutputRegisters)) {
        (ONONE, ONONE)
    }
}

/// LDDR: block copy going down, repeated (the PC steps back) while BC is not zero.
#[derive(Clone, Copy)]
pub struct Lddr;

impl Instruction for Lddr {
    open spec fn valid(&self) -> bool {
        true
    }

    open spec fn next_state(&self, s: CpuModel) -> CpuModel {
        let s0 = s;
        let s1 = ldd_next(s0);
        let pv = s1.regs.flag(PARITY_OVERFLOW_FLAG);
        let s9 = if pv {
            let x = s1.regs.reg16(Reg16::DE);
            let x1 = wrap16(x + 1);
            let s2 = s1.after_no_mreq(x1);
            let s3 = s2.after_no_mreq(x1);
            let s4 = s3.after_no_mreq(x1);
            let s5 = s4.after_no_mreq(x1);
            let s6 = s5.after_no_mreq(x1);
            let now = s6.regs.pc;
            let now1 = wrap16(now + 1);
            let s7 = s6.set_regs(s6.regs.with_reg16(Reg16::WZ, now1));
            let s8 = s7.set_regs(s7.regs.advance_pc(-1));
                s8
        } else {
            let s2 = s1.set_regs(s1.regs.advance_pc(1));
                s2
        };
        s9
    }

    #[verifier::spinoff_prover]
    #[verifier::rlimit(80)]
    fn execute(&self, cpu: &mut Cpu) {
        ldd(cpu);
        let pv: bool = cpu.get_flag(PARITY_OVERFLOW_FLAG);
        if pv {
            let x: u16 = cpu.read_reg16(Reg16::DE);
            let x1: u16 = x.wrapping_add(1);
            cpu.contend_write_no_mreq(x1);
            cpu.contend_write_no_mreq(x1);
            cpu.contend_write_no_mreq(x1);
            cpu.contend_write_no_mreq(x1);
            cpu.contend_write_no_mreq(x1);
            let now: u16 = cpu.get_pc();
            let now1: u16 = now.wrapping_add(1);
            cpu.write_reg16(Reg16::WZ, now1);
            cpu.dec_pc(1);
        } else {
            cpu.inc_pc(1);
        }
    }

    open spec fn accessed(&self) -> (OutputRegisters, OutputRegisters) {
        (OB | OC | OD | OE | OH | OL | OF | OWZ, OB | OC | OD | OE | OH | OL | OF | OWZ)
    }

    fn get_accessed_regs(&self) -> (regs: (OutputRegisters, OutputRegisters)) {
        (OB | OC | OD | OE | OH | OL | OF | OWZ, OB | OC | OD | OE | OH | OL | OF | OWZ)
    }
}

/// CPDR: block compare going down, repeated while BC is not zero and no match.
#[derive(Clone, Copy)]
pub struct Cpdr;

impl Instruction for Cpdr {
    open spec fn valid(&self) -> bool {
        true
    }

    open spec fn next_state(&self, s: CpuModel) -> CpuModel {
        let s0 = s;
        let s1 = cpd_next(s0);
        let pv = s1.regs.flag(PARITY_OVERFLOW_FLAG);
        let z = s1.regs.flag(ZERO_FLAG);
        let s9 = if pv && !z {
            let x = s1.regs.reg16(Reg16::HL);
            let x1 = wrap16(x + 1);
            let s2 = s1.after_no_mreq(x1);
            let s3 = s2.after_no_mreq(x1);
            let s4 = s3.after_no_mreq(x1);
            let s5 = s4.after_no_mreq(x1);
            let s6 = s5.after_no_mreq(x1);
            let now = s6.regs.pc;
            let now1 = wrap16(now + 1);
            let s7 = s6.set_regs(s6.regs.with_reg16(Reg16::WZ, now1));
            let s8 = s7.set_regs(s7.regs.advance_pc(-1));
                s8
        } else {
            let s2 = s1.set_regs(s1.regs.advance_pc(1));
                s2
        };
        s9
    }

    #[verifier::spinoff_prover]
    #[verifier::rlimit(80)]
    fn execute(&self, cpu: &mut Cpu) {
        cpd(cpu);
        let pv: bool = cpu.get_flag(PARITY_OVERFLOW_FLAG);
        let z: bool = cpu.get_flag(ZERO_FLAG);
        if pv && !z {
            let x: u16 = cpu.read_reg16(Reg16::HL);
            let x1: u16 = x.wrapping_add(1);
            cpu.contend_read_no_mreq(x1);
            cpu.contend_read_no_mreq(x1);
            cpu.contend_read_no_mreq(x1);
            cpu.contend_read_no_mreq(x1);
            cpu.contend_read_no_mreq(x1);
            let now: u16 = cpu.get_pc();
            let now1: u16 = now.wrapping_add(1);
            cpu.write_reg16(Reg16::WZ, now1);
            cpu.dec_pc(1);
        } else {
            cpu.inc_pc(1);
        }
    }

    open spec fn accessed(&self) -> (OutputRegisters, OutputRegisters) {
        (OA | OB | OC | OH | OL | OF | OWZ, OB | OC | OH | OL | OF | OWZ)
    }

    fn get_accessed_regs(&self) -> (regs: (OutputRegisters, OutputRegisters)) {
        (OA | OB | OC | OH | OL | OF | OWZ, OB | OC | OH | OL | OF | OWZ)
    }
}

/// INDR: block I/O is not modelled; the instruction is skipped.
#[derive(Clone, Copy)]
pub struct Indr;

impl Instruction for Indr {
    open spec fn valid(&self) -> bool {
        true
    }

    open spec fn next_state(&self, s: CpuModel) -> CpuModel {
        let s0 = s;
        let s1 = s0.set_regs(s0.regs.advance_pc(1));
        s1
    }

    #[verifier::spinoff_prover]
    #[verifier::rlimit(80)]
    fn execute(&self, cpu: &mut Cpu) {
        cpu.inc_pc(1);
    }

    open spec fn accessed(&self) -> (OutputRegisters, OutputRegisters) {
        (ONONE, ONONE)
    }

    fn get_accessed_regs(&self) -> (regs: (OutputRegisters, OutputRegisters)) {
        (ONONE, ONONE)
    }
}

/// OTDR: block I/O is not modelled; the instruction is skipped.
#[derive(Clone, Copy)]
pub struct Otdr;

impl Instruction for Otdr {
    open spec fn valid(&self) -> bool {
        true
    }

    open spec fn next_state(&self, s: CpuModel) -> CpuModel {
        let s0 = s;
        let s1 = s0.set_regs(s0.regs.advance_pc(1));
        s1
    }

    #[verifier::spinoff_prover]
    #[verifier::rlimit(80)]
    fn execute(&self, cpu: &mut Cpu) {
        cpu.inc_pc(1);
    }

    open spec fn accessed(&self) -> (OutputRegisters, OutputRegisters) {
        (ONONE, ONONE)
    }

    fn get_accessed_regs(&self) -> (regs: (OutputRegisters, OutputRegisters)) {
        (ONONE, ONONE)
    }
}

/// The opcodes after the ED prefix.
#[verifier::opaque]
pub open spec fn ed_next(s: CpuModel, op: u8) -> CpuModel {
    match op {
        0x40u8 => (InRPortC{r:Reg8::B}).next_state(s),
        0x41u8 => (OutPortCR{r:Reg8::B}).next_state(s),
        0x42u8 => (SbcHlSs{r:Reg16::BC}).next_state(s),
        0x43u8 => (LdMemNnDd{r:Reg16::BC}).next_state(s),
        0x44u8 => (Neg).next_state(s),
        0x45u8 => (RetN).next_state(s),
        0x46u8 => (Im{mode:0}).next_state(s),
        0x47u8 => (LdIA).next_state(s),
        0x48u8 => (InRPortC{r:Reg8::C}).next_state(s),
        0x49u8 => (OutPortCR{r:Reg8::C}).next_state(s),
        0x4Au8 => (AdcHlSs{r:Reg16::BC}).next_state(s),
        0x4Bu8 => (LdDdMemNn{r:Reg16::BC}).next_state(s),
        0x4Cu8 => (Neg).next_state(s),
        0x4Du8 => (RetN).next_state(s),
        0x4Eu8 => (Im{mode:0}).next_state(s),
        0x4Fu8 => (LdRA).next_state(s),
        0x50u8 => (InRPortC{r:Reg8::D}).next_state(s),
        0x51u8 => (OutPortCR{r:Reg8::D}).next_state(s),
        0x52u8 => (SbcHlSs{r:Reg16::DE}).next_state(s),
        0x53u8 => (LdMemNnDd{r:Reg16::DE}).next_state(s),
        0x54u8 => (Neg).next_state(s),
        0x55u8 => (RetN).next_state(s),
        0x56u8 => (Im{mode:1}).next_state(s),
        0x57u8 => (LdAI).next_state(s),
        0x58u8 => (InRPortC{r:Reg8::E}).next_state(s),
        0x59u8 => (OutPortCR{r:Reg8::E}).next_state(s),
        0x5Au8 => (AdcHlSs{r:Reg16::DE}).next_state(s),
        0x5Bu8 => (LdDdMemNn{r:Reg16::DE}).next_state(s),
        0x5Cu8 => (Neg).next_state(s),
        0x5Du8 => (RetN).next_state(s),
        0x5Eu8 => (Im{mode:2}).next_state(s),
        0x5Fu8 => (LdAR).next_state(s),
        0x60u8 => (InRPortC{r:Reg8::H}).next_state(s),
        0x61u8 => (OutPortCR{r:Reg8::H}).next_state(s),
        0x62u8 => (SbcHlSs{r:Reg16::HL}).next_state(s),
        0x63u8 => (LdMemNnDd{r:Reg16::HL}).next_state(s),
        0x64u8 => (Neg).next_state(s),
        0x65u8 => (RetN).next_state(s),
        0x66u8 => (Im{mode:0}).next_state(s),
        0x67u8 => (Rrd).next_state(s),
        0x68u8 => (InRPortC{r:Reg8::L}).next_state(s),
        0x69u8 => (OutPortCR{r:Reg8::L}).next_state(s),
        0x6Au8 => (AdcHlSs{r:Reg16::HL}).next_state(s),
        0x6Bu8 => (LdDdMemNn{r:Reg16::HL}).next_state(s),
        0x6Cu8 => (Neg).next_state(s),
        0x6Du8 => (RetN).next_state(s),
        0x6Eu8 => (Im{mode:0}).next_state(s),
        0x6Fu8 => (Rld).next_state(s),
        0x70u8 => (InPortC).next_state(s),
        0x71u8 => (OutPortC).next_state(s),
        0x72u8 => (SbcHlSs{r:Reg16::SP}).next_state(s),
        0x73u8 => (LdMemNnDd{r:Reg16::SP}).next_state(s),
        0x74u8 => (Neg).next_state(s),
        0x75u8 => (RetN).next_state(s),
        0x76u8 => (Im{mode:1}).next_state(s),
        0x78u8 => (InRPortC{r:Reg8::A}).next_state(s),
        0x79u8 => (OutPortCR{r:Reg8::A}).next_state(s),
        0x7Au8 => (AdcHlSs{r:Reg16::SP}).next_state(s),
        0x7Bu8 => (LdDdMemNn{r:Reg16::SP}).next_state(s),
        0x7Cu8 => (Neg).next_state(s),
        0x7Du8 => (RetN).next_state(s),
        0x7Eu8 => (Im{mode:2}).next_state(s),
        0xA0u8 => (Ldi).next_state(s),
        0xA1u8 => (Cpi).next_state(s),
        0xA2u8 => (Ini).next_state(s),
        0xA3u8 => (Outi).next_state(s),
        0xA8u8 => (Ldd).next_state(s),
        0xA9u8 => (Cpd).next_state(s),
        0xAAu8 => (Ind).next_state(s),
        0xABu8 => (Outd).next_state(s),
        0xB0u8 => (Ldir).next_state(s),
        0xB1u8 => (Cpir).next_state(s),
        0xB2u8 => (Inir).next_state(s),
        0xB3u8 => (Otir).next_state(s),
        0xB8u8 => (Lddr).next_state(s),
        0xB9u8 => (Cpdr).next_state(s),
        0xBAu8 => (Indr).next_state(s),
        0xBBu8 => (Otdr).next_state(s),
        _ => s,
    }
}

/// Whether the table has an instruction for the opcode.
pub open spec fn ed_supported(op: u8) -> bool {
    !(op == 0x00u8 || op == 0x01u8 || op == 0x02u8 || op == 0x03u8 || op == 0x04u8 || op == 0x05u8 || op == 0x06u8 || op == 0x07u8 || op == 0x08u8 || op == 0x09u8 || op == 0x0Au8 || op == 0x0Bu8 || op == 0x0Cu8 || op == 0x0Du8 || op == 0x0Eu8 || op == 0x0Fu8 || op == 0x10u8 || op == 0x11u8 || op == 0x12u8 || op == 0x13u8 || op == 0x14u8 || op == 0x15u8 || op == 0x16u8 || op == 0x17u8 || op == 0x18u8 || op == 0x19u8 || op == 0x1Au8 || op == 0x1Bu8 || op == 0x1Cu8 || op == 0x1Du8 || op == 0x1Eu8 || op == 0x1Fu8 || op == 0x20u8 || op == 0x21u8 || op == 0x22u8 || op == 0x23u8 || op == 0x24u8 || op == 0x25u8 || op == 0x26u8 || op == 0x27u8 || op == 0x28u8 || op == 0x29u8 || op == 0x2Au8 || op == 0x2Bu8 || op == 0x2Cu8 || op == 0x2Du8 || op == 0x2Eu8 || op == 0x2Fu8 || op == 0x30u8 || op == 0x31u8 || op == 0x32u8 || op == 0x33u8 || op == 0x34u8 || op == 0x35u8 || op == 0x36u8 || op == 0x37u8 || op == 0x38u8 || op == 0x39u8 || op == 0x3Au8 || op == 0x3Bu8 || op == 0x3Cu8 || op == 0x3Du8 || op == 0x3Eu8 || op == 0x3Fu8 || op == 0x77u8 || op == 0x7Fu8 || op == 0x80u8 || op == 0x81u8 || op == 0x82u8 || op == 0x83u8 || op == 0x84u8 || op == 0x85u8 || op == 0x86u8 || op == 0x87u8 || op == 0x88u8 || op == 0x89u8 || op == 0x8Au8 || op == 0x8Bu8 || op == 0x8Cu8 || op == 0x8Du8 || op == 0x8Eu8 || op == 0x8Fu8 || op == 0x90u8 || op == 0x91u8 || op == 0x92u8 || op == 0x93u8 || op == 0x94u8 || op == 0x95u8 || op == 0x96u8 || op == 0x97u8 || op == 0x98u8 || op == 0x99u8 || op == 0x9Au8 || op == 0x9Bu8 || op == 0x9Cu8 || op == 0x9Du8 || op == 0x9Eu8 || op == 0x9Fu8 || op == 0xA4u8 || op == 0xA5u8 || op == 0xA6u8 || op == 0xA7u8 || op == 0xACu8 || op == 0xADu8 || op == 0xAEu8 || op == 0xAFu8 || op == 0xB4u8 || op == 0xB5u8 || op == 0xB6u8 || op == 0xB7u8 || op == 0xBCu8 || op == 0xBDu8 || op == 0xBEu8 || op == 0xBFu8 || op == 0xC0u8 || op == 0xC1u8 || op == 0xC2u8 || op == 0xC3u8 || op == 0xC4u8 || op == 0xC5u8 || op == 0xC6u8 || op == 0xC7u8 || op == 0xC8u8 || op == 0xC9u8 || op == 0xCAu8 || op == 0xCBu8 || op == 0xCCu8 || op == 0xCDu8 || op == 0xCEu8 || op == 0xCFu8 || op == 0xD0u8 || op == 0xD1u8 || op == 0xD2u8 || op == 0xD3u8 || op == 0xD4u8 || op == 0xD5u8 || op == 0xD6u8 || op == 0xD7u8 || op == 0xD8u8 || op == 0xD9u8 || op == 0xDAu8 || op == 0xDBu8 || op == 0xDCu8 || op == 0xDDu8 || op == 0xDEu8 || op == 0xDFu8 || op == 0xE0u8 || op == 0xE1u8 || op == 0xE2u8 || op == 0xE3u8 || op == 0xE4u8 || op == 0xE5u8 || op == 0xE6u8 || op == 0xE7u8 || op == 0xE8u8 || op == 0xE9u8 || op == 0xEAu8 || op == 0xEBu8 || op == 0xECu8 || op == 0xEDu8 || op == 0xEEu8 || op == 0xEFu8 || op == 0xF0u8 || op == 0xF1u8 || op == 0xF2u8 || op == 0xF3u8 || op == 0xF4u8 || op == 0xF5u8 || op == 0xF6u8 || op == 0xF7u8 || op == 0xF8u8 || op == 0xF9u8 || op == 0xFAu8 || op == 0xFBu8 || op == 0xFCu8 || op == 0xFDu8 || op == 0xFEu8 || op == 0xFFu8)
}

/// Executes the table's instruction for `op`; says whether there is one.
#[verifier::rlimit(100)]
pub fn execute_ed(cpu: &mut Cpu, op: u8) -> (supported: bool)
    requires
        old(cpu).wf(),
        old(cpu)@.tcycles <= TCYCLE_CEILING,
    ensures
        final(cpu).wf(),
        final(cpu)@ == ed_next(old(cpu)@, op),
        supported == ed_supported(op),
        !supported ==> final(cpu)@ == old(cpu)@,
        final(cpu)@.tcycles <= old(cpu)@.tcycles + MAX_STEP_TCYCLES,
{
    proof {
        reveal(ed_next);
    }
    match op {
        0x40 => {
            (InRPortC{r:Reg8::B}).execute(cpu);
            true
        },
        0x41 => {
            (OutPortCR{r:Reg8::B}).execute(cpu);
            true
        },
        0x42 => {
            (SbcHlSs{r:Reg16::BC}).execute(cpu);
            true
        },
        0x43 => {
            (LdMemNnDd{r:Reg16::BC}).execute(cpu);
            true
        },
        0x44 => {
            (Neg).execute(cpu);
            true
        },
        0x45 => {
            (RetN).execute(cpu);
            true
        },
        0x46 => {
            (Im{mode:0}).execute(cpu);
            true
        },
        0x47 => {
            (LdIA).execute(cpu);
            true
        },
        0x48 => {
            (InRPortC{r:Reg8::C}).execute(cpu);
            true
        },
        0x49 => {
            (OutPortCR{r:Reg8::C}).execute(cpu);
            true
        },
        0x4A => {
            (AdcHlSs{r:Reg16::BC}).execute(cpu);
            true
        },
        0x4B => {
            (LdDdMemNn{r:Reg16::BC}).execute(cpu);
            true
        },
        0x4C => {
            (Neg).execute(cpu);
            true
        },
        0x4D => {
            (RetN).execute(cpu);
            true
        },
        0x4E => {
            (Im{mode:0}).execute(cpu);
            true
        },
        0x4F => {
            (LdRA).execute(cpu);
            true
        },
        0x50 => {
            (InRPortC{r:Reg8::D}).execute(cpu);
            true
        },
        0x51 => {
            (OutPortCR{r:Reg8::D}).execute(cpu);
            true
        },
        0x52 => {
            (SbcHlSs{r:Reg16::DE}).execute(cpu);
            true
        },
        0x53 => {
            (LdMemNnDd{r:Reg16::DE}).execute(cpu);
            true
        },
        0x54 => {
            (Neg).execute(cpu);
            true
        },
        0x55 => {
            (RetN).execute(cpu);
            true
        },
        0x56 => {
            (Im{mode:1}).execute(cpu);
            true
        },
        0x57 => {
            (LdAI).execute(cpu);
            true
        },
        0x58 => {
            (InRPortC{r:Reg8::E}).execute(cpu);
            true
        },
        0x59 => {
            (OutPortCR{r:Reg8::E}).execute(cpu);
            true
        },
        0x5A => {
            (AdcHlSs{r:Reg16::DE}).execute(cpu);
            true
        },
        0x5B => {
            (LdDdMemNn{r:Reg16::DE}).execute(cpu);
            true
        },
        0x5C => {
            (Neg).execute(cpu);
            true
        },
        0x5D => {
            (RetN).execute(cpu);
            true
        },
        0x5E => {
            (Im{mode:2}).execute(cpu);
            true
        },
        0x5F => {
            (LdAR).execute(cpu);
            true
        },
        0x60 => {
            (InRPortC{r:Reg8::H}).execute(cpu);
            true
        },
        0x61 => {
            (OutPortCR{r:Reg8::H}).execute(cpu);
            true
        },
        0x62 => {
            (SbcHlSs{r:Reg16::HL}).execute(cpu);
            true
        },
        0x63 => {
            (LdMemNnDd{r:Reg16::HL}).execute(cpu);
            true
        },
        0x64 => {
            (Neg).execute(cpu);
            true
        },
        0x65 => {
            (RetN).execute(cpu);
            true
        },
        0x66 => {
            (Im{mode:0}).execute(cpu);
            true
        },
        0x67 => {
            (Rrd).execute(cpu);
            true
        },
        0x68 => {
            (InRPortC{r:Reg8::L}).execute(cpu);
            true
        },
        0x69 => {
            (OutPortCR{r:Reg8::L}).execute(cpu);
            true
        },
        0x6A => {
            (AdcHlSs{r:Reg16::HL}).execute(cpu);
            true
        },
        0x6B => {
            (LdDdMemNn{r:Reg16::HL}).execute(cpu);
            true
        },
        0x6C => {
            (Neg).execute(cpu);
            true
        },
        0x6D => {
            (RetN).execute(cpu);
            true
        },
        0x6E => {
            (Im{mode:0}).execute(cpu);
            true
        },
        0x6F => {
            (Rld).execute(cpu);
            true
        },
        0x70 => {
            (InPortC).execute(cpu);
            true
        },
        0x71 => {
            (OutPortC).execute(cpu);
            true
        },
        0x72 => {
            (SbcHlSs{r:Reg16::SP}).execute(cpu);
            true
        },
        0x73 => {
            (LdMemNnDd{r:Reg16::SP}).execute(cpu);
            true
        },
        0x74 => {
            (Neg).execute(cpu);
            true
        },
        0x75 => {
            (RetN).execute(cpu);
            true
        },
        0x76 => {
            (Im{mode:1}).execute(cpu);
            true
        },
        0x78 => {
            (InRPortC{r:Reg8::A}).execute(cpu);
            true
        },
        0x79 => {
            (OutPortCR{r:Reg8::A}).execute(cpu);
            true
        },
        0x7A => {
            (AdcHlSs{r:Reg16::SP}).execute(cpu);
            true
        },
        0x7B => {
            (LdDdMemNn{r:Reg16::SP}).execute(cpu);
            true
        },
        0x7C => {
            (Neg).execute(cpu);
            true
        },
        0x7D => {
            (RetN).execute(cpu);
            true
        },
        0x7E => {
            (Im{mode:2}).execute(cpu);
            true
        },
        0xA0 => {
            (Ldi).execute(cpu);
            true
        },
        0xA1 => {
            (Cpi).execute(cpu);
            true
        },
        0xA2 => {
            (Ini).execute(cpu);
            true
        },
        0xA3 => {
            (Outi).execute(cpu);
            true
        },
        0xA8 => {
            (Ldd).execute(cpu);
            true
        },
        0xA9 => {
            (Cpd).execute(cpu);
            true
        },
        0xAA => {
            (Ind).execute(cpu);
            true
        },
        0xAB => {
            (Outd).execute(cpu);
            true
        },
        0xB0 => {
            (Ldir).execute(cpu);
            true
        },
        0xB1 => {
            (Cpir).execute(cpu);
            true
        },
        0xB2 => {
            (Inir).execute(cpu);
            true
        },
        0xB3 => {
            (Otir).execute(cpu);
            true
        },
        0xB8 => {
            (Lddr).execute(cpu);
            true
        },
        0xB9 => {
            (Cpdr).execute(cpu);
            true
        },
        0xBA => {
            (Indr).execute(cpu);
            true
        },
        0xBB => {
            (Otdr).execute(cpu);
            true
        },
        _ => false,
    }
}

/// The registers the debugger shows around the instruction for `op`;
/// none for an opcode the table lacks.
#[verifier::opaque]
pub open spec fn ed_accessed(op: u8) -> (OutputRegisters, OutputRegisters) {
    match op {
        0x40u8 => (InRPortC{r:Reg8::B}).accessed(),
        0x41u8 => (OutPortCR{r:Reg8::B}).accessed(),
        0x42u8 => (SbcHlSs{r:Reg16::BC}).accessed(),
        0x43u8 => (LdMemNnDd{r:Reg16::BC}).accessed(),
        0x44u8 => (Neg).accessed(),
        0x45u8 => (RetN).accessed(),
        0x46u8 => (Im{mode:0}).accessed(),
        0x47u8 => (LdIA).accessed(),
        0x48u8 => (InRPortC{r:Reg8::C}).accessed(),
        0x49u8 => (OutPortCR{r:Reg8::C}).accessed(),
        0x4Au8 => (AdcHlSs{r:Reg16::BC}).accessed(),
        0x4Bu8 => (LdDdMemNn{r:Reg16::BC}).accessed(),
        0x4Cu8 => (Neg).accessed(),
        0x4Du8 => (RetN).accessed(),
        0x4Eu8 => (Im{mode:0}).accessed(),
        0x4Fu8 => (LdRA).accessed(),
        0x50u8 => (InRPortC{r:Reg8::D}).accessed(),
        0x51u8 => (OutPortCR{r:Reg8::D}).accessed(),
        0x52u8 => (SbcHlSs{r:Reg16::DE}).accessed(),
        0x53u8 => (LdMemNnDd{r:Reg16::DE}).accessed(),
        0x54u8 => (Neg).accessed(),
        0x55u8 => (RetN).accessed(),
        0x56u8 => (Im{mode:1}).accessed(),
        0x57u8 => (LdAI).accessed(),
        0x58u8 => (InRPortC{r:Reg8::E}).accessed(),
        0x59u8 => (OutPortCR{r:Reg8::E}).accessed(),
        0x5Au8 => (AdcHlSs{r:Reg16::DE}).accessed(),
        0x5Bu8 => (LdDdMemNn{r:Reg16::DE}).accessed(),
        0x5Cu8 => (Neg).accessed(),
        0x5Du8 => (RetN).accessed(),
        0x5Eu8 => (Im{mode:2}).accessed(),
        0x5Fu8 => (LdAR).accessed(),
        0x60u8 => (InRPortC{r:Reg8::H}).accessed(),
        0x61u8 => (OutPortCR{r:Reg8::H}).accessed(),
        0x62u8 => (SbcHlSs{r:Reg16::HL}).accessed(),
        0x63u8 => (LdMemNnDd{r:Reg16::HL}).accessed(),
        0x64u8 => (Neg).accessed(),
        0x65u8 => (RetN).accessed(),
        0x66u8 => (Im{mode:0}).accessed(),
        0x67u8 => (Rrd).accessed(),
        0x68u8 => (InRPortC{r:Reg8::L}).accessed(),
        0x69u8 => (OutPortCR{r:Reg8::L}).accessed(),
        0x6Au8 => (AdcHlSs{r:Reg16::HL}).accessed(),
        0x6Bu8 => (LdDdMemNn{r:Reg16::HL}).accessed(),
        0x6Cu8 => (Neg).accessed(),
        0x6Du8 => (RetN).accessed(),
        0x6Eu8 => (Im{mode:0}).accessed(),
        0x6Fu8 => (Rld).accessed(),
        0x70u8 => (InPortC).accessed(),
        0x71u8 => (OutPortC).accessed(),
        0x72u8 => (SbcHlSs{r:Reg16::SP}).accessed(),
        0x73u8 => (LdMemNnDd{r:Reg16::SP}).accessed(),
        0x74u8 => (Neg).accessed(),
        0x75u8 => (RetN).accessed(),
        0x76u8 => (Im{mode:1}).accessed(),
        0x78u8 => (InRPortC{r:Reg8::A}).accessed(),
        0x79u8 => (OutPortCR{r:Reg8::A}).accessed(),
        0x7Au8 => (AdcHlSs{r:Reg16::SP}).accessed(),
        0x7Bu8 => (LdDdMemNn{r:Reg16::SP}).accessed(),
        0x7Cu8 => (Neg).accessed(),
        0x7Du8 => (RetN).accessed(),
        0x7Eu8 => (Im{mode:2}).accessed(),
        0xA0u8 => (Ldi).accessed(),
        0xA1u8 => (Cpi).accessed(),
        0xA2u8 => (Ini).accessed(),
        0xA3u8 => (Outi).accessed(),
        0xA8u8 => (Ldd).accessed(),
        0xA9u8 => (Cpd).accessed(),
        0xAAu8 => (Ind).accessed(),
        0xABu8 => (Outd).accessed(),
        0xB0u8 => (Ldir).accessed(),
        0xB1u8 => (Cpir).accessed(),
        0xB2u8 => (Inir).accessed(),
        0xB3u8 => (Otir).accessed(),
        0xB8u8 => (Lddr).accessed(),
        0xB9u8 => (Cpdr).accessed(),
        0xBAu8 => (Indr).accessed(),
        0xBBu8 => (Otdr).accessed(),
        _ => (ONONE, ONONE),
    }
}

/// The registers the debugger shows around the instruction for `op`.
pub fn accessed_regs_ed(op: u8) -> (regs: (OutputRegisters, OutputRegisters))
    ensures
        regs == ed_accessed(op),
{
    proof {
        reveal(ed_accessed);
    }
    match op {
        0x40 => (InRPortC{r:Reg8::B}).get_accessed_regs(),
        0x41 => (OutPortCR{r:Reg8::B}).get_accessed_regs(),
        0x42 => (SbcHlSs{r:Reg16::BC}).get_accessed_regs(),
        0x43 => (LdMemNnDd{r:Reg16::BC}).get_accessed_regs(),
        0x44 => (Neg).get_accessed_regs(),
        0x45 => (RetN).get_accessed_regs(),
        0x46 => (Im{mode:0}).get_accessed_regs(),
        0x47 => (LdIA).get_accessed_regs(),
        0x48 => (InRPortC{r:Reg8::C}).get_accessed_regs(),
        0x49 => (OutPortCR{r:Reg8::C}).get_accessed_regs(),
        0x4A => (AdcHlSs{r:Reg16::BC}).get_accessed_regs(),
        0x4B => (LdDdMemNn{r:Reg16::BC}).get_accessed_regs(),
        0x4C => (Neg).get_accessed_regs(),
        0x4D => (RetN).get_accessed_regs(),
        0x4E => (Im{mode:0}).get_accessed_regs(),
        0x4F => (LdRA).get_accessed_regs(),
        0x50 => (InRPortC{r:Reg8::D}).get_accessed_regs(),
        0x51 => (OutPortCR{r:Reg8::D}).get_accessed_regs(),
        0x52 => (SbcHlSs{r:Reg16::DE}).get_accessed_regs(),
        0x53 => (LdMemNnDd{r:Reg16::DE}).get_accessed_regs(),
        0x54 => (Neg).get_accessed_regs(),
        0x55 => (RetN).get_accessed_regs(),
        0x56 => (Im{mode:1}).get_accessed_regs(),
        0x57 => (LdAI).get_accessed_regs(),
        0x58 => (InRPortC{r:Reg8::E}).get_accessed_regs(),
        0x59 => (OutPortCR{r:Reg8::E}).get_accessed_regs(),
        0x5A => (AdcHlSs{r:Reg16::DE}).get_accessed_regs(),
        0x5B => (LdDdMemNn{r:Reg16::DE}).get_accessed_regs(),
        0x5C => (Neg).get_accessed_regs(),
        0x5D => (RetN).get_accessed_regs(),
        0x5E => (Im{mode:2}).get_accessed_regs(),
        0x5F => (LdAR).get_accessed_regs(),
        0x60 => (InRPortC{r:Reg8::H}).get_accessed_regs(),
        0x61 => (OutPortCR{r:Reg8::H}).get_accessed_regs(),
        0x62 => (SbcHlSs{r:Reg16::HL}).get_accessed_regs(),
        0x63 => (LdMemNnDd{r:Reg16::HL}).get_accessed_regs(),
        0x64 => (Neg).get_accessed_regs(),
        0x65 => (RetN).get_accessed_regs(),
        0x66 => (Im{mode:0}).get_accessed_regs(),
        0x67 => (Rrd).get_accessed_regs(),
        0x68 => (InRPortC{r:Reg8::L}).get_accessed_regs(),
        0x69 => (OutPortCR{r:Reg8::L}).get_accessed_regs(),
        0x6A => (AdcHlSs{r:Reg16::HL}).get_accessed_regs(),
        0x6B => (LdDdMemNn{r:Reg16::HL}).get_accessed_regs(),
        0x6C => (Neg).get_accessed_regs(),
        0x6D => (RetN).get_accessed_regs(),
        0x6E => (Im{mode:0}).get_accessed_regs(),
        0x6F => (Rld).get_accessed_regs(),
        0x70 => (InPortC).get_accessed_regs(),
        0x71 => (OutPortC).get_accessed_regs(),
        0x72 => (SbcHlSs{r:Reg16::SP}).get_accessed_regs(),
        0x73 => (LdMemNnDd{r:Reg16::SP}).get_accessed_regs(),
        0x74 => (Neg).get_accessed_regs(),
        0x75 => (RetN).get_accessed_regs(),
        0x76 => (Im{mode:1}).get_accessed_regs(),
        0x78 => (InRPortC{r:Reg8::A}).get_accessed_regs(),
        0x79 => (OutPortCR{r:Reg8::A}).get_accessed_regs(),
        0x7A => (AdcHlSs{r:Reg16::SP}).get_accessed_regs(),
        0x7B => (LdDdMemNn{r:Reg16::SP}).get_accessed_regs(),
        0x7C => (Neg).get_accessed_regs(),
        0x7D => (RetN).get_accessed_regs(),
        0x7E => (Im{mode:2}).get_accessed_regs(),
        0xA0 => (Ldi).get_accessed_regs(),
        0xA1 => (Cpi).get_accessed_regs(),
        0xA2 => (Ini).get_accessed_regs(),
        0xA3 => (Outi).get_accessed_regs(),
        0xA8 => (Ldd).get_accessed_regs(),
        0xA9 => (Cpd).get_accessed_regs(),
        0xAA => (Ind).get_accessed_regs(),
        0xAB => (Outd).get_accessed_regs(),
        0xB0 => (Ldir).get_accessed_regs(),
        0xB1 => (Cpir).get_accessed_regs(),
        0xB2 => (Inir).get_accessed_regs(),
        0xB3 => (Otir).get_accessed_regs(),
        0xB8 => (Lddr).get_accessed_regs(),
        0xB9 => (Cpdr).get_accessed_regs(),
        0xBA => (Indr).get_accessed_regs(),
        0xBB => (Otdr).get_accessed_regs(),
        _ => (ONONE, ONONE),
    }
}

} // verus!
