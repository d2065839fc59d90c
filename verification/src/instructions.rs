use vstd::prelude::*;
use crate::cpu::{Cpu, CpuModel, Regs, Reg8, Reg16, FlagCond, CARRY_FLAG, ADD_SUBTRACT_FLAG, PARITY_OVERFLOW_FLAG, X_FLAG, HALF_CARRY_FLAG, Y_FLAG, ZERO_FLAG, SIGN_FLAG, TCYCLE_CEILING, MAX_STEP_TCYCLES, wrap8, wrap16, word, hi8, lo8, sext8, flag_if, cond_bits};
use crate::debugger::output_registers::{OutputRegisters, ONONE, OA, OF, OB, OC, OD, OE, OH, OL, OA_ALT, OF_ALT, OB_ALT, OC_ALT, OD_ALT, OE_ALT, OH_ALT, OL_ALT, OSP, OWZ, OR, output_registers_from_reg8, output_registers_from_reg16};

pub mod cb;
pub mod dd;
pub mod ddcb;
pub mod ed;
pub mod fd;
pub mod fdcb;
pub mod alu_laws;
pub mod block_laws;
pub mod branch_laws;
pub mod decode_laws;
pub mod io_laws;
pub mod laws;
pub mod transfer_laws;

verus! {

/// One Z80 instruction, as a transformation of the processor.
pub trait Instruction {
    /// Whether the instruction's parameters make sense (bit numbers below 8,
    /// interrupt modes 0 to 2).
    spec fn valid(&self) -> bool;

    /// The processor after the instruction, from the processor before it.
    spec fn next_state(&self, s: CpuModel) -> CpuModel;

    /// Executes the instruction. The PC points at its last opcode byte.
    fn execute(&self, cpu: &mut Cpu)
        requires
            self.valid(),
            old(cpu).wf(),
            old(cpu)@.tcycles <= TCYCLE_CEILING,
        ensures
            final(cpu).wf(),
            final(cpu)@ == self.next_state(old(cpu)@),
            final(cpu)@.tcycles <= old(cpu)@.tcycles + MAX_STEP_TCYCLES,
    ;

    /// The registers the debugger shows before the instruction, and after it.
    spec fn accessed(&self) -> (OutputRegisters, OutputRegisters);

    /// The registers the debugger shows before the instruction, and after it.
    fn get_accessed_regs(&self) -> (regs: (OutputRegisters, OutputRegisters))
        ensures
            regs == self.accessed(),
    ;
}

/// The number of set bits of a byte.
pub open spec fn bit_count8(x: u8) -> int {
    x % 2 + (x / 2) % 2 + (x / 4) % 2 + (x / 8) % 2 + (x / 16) % 2 + (x / 32) % 2 + (x / 64) % 2 + (x / 128) % 2
}

/// Whether a byte has an even number of set bits.
pub open spec fn even_parity(x: u8) -> bool {
    bit_count8(x) % 2 == 0
}

pub fn parity_even(x: u8) -> (b: bool)
    ensures
        b == even_parity(x),
{
    let n: u8 = x % 2 + (x / 2) % 2 + (x / 4) % 2 + (x / 8) % 2 + (x / 16) % 2 + (x / 32) % 2 + (x / 64) % 2 + (x / 128) % 2;
    n % 2 == 0
}

/// `base` moved by the signed displacement `d`, modulo 64K.
pub open spec fn index_addr(base: u16, d: u8) -> u16 {
    wrap16(base + sext8(d))
}

pub fn offset_addr(base: u16, d: u8) -> (addr: u16)
    ensures
        addr == index_addr(base, d),
{
    if d < 128 {
        base.wrapping_add(d as u16)
    } else {
        base.wrapping_sub(256 - d as u16)
    }
}

/// Where a relative jump at `pc` with displacement byte `e` lands: the
/// instruction after it (`pc + 2`) moved by `e` taken as a signed byte,
/// modulo 64K.
pub open spec fn jr_target(pc: u16, e: u8) -> u16 {
    wrap16(pc + 2 + sext8(e))
}

pub fn relative_target(pc: u16, e: u8) -> (target: u16)
    ensures
        target == jr_target(pc, e),
{
    let t: u32 = if e < 128 { pc as u32 + 2 + e as u32 } else { pc as u32 + 2 + 0xFF00 + e as u32 };
    (t % 65536) as u16
}

/// Signed overflow of an 8-bit addition.
pub open spec fn add_overflow8(op1: u8, op2: u8, res: u8) -> bool {
    ((op1 >= 0x80) == (op2 >= 0x80)) && ((op1 >= 0x80) != (res >= 0x80))
}

/// Signed overflow of an 8-bit subtraction.
pub open spec fn sub_overflow8(op1: u8, op2: u8, res: u8) -> bool {
    ((op1 >= 0x80) != (op2 >= 0x80)) && ((op1 >= 0x80) != (res >= 0x80))
}

/// Signed overflow of a 16-bit addition.
pub open spec fn add_overflow16(op1: u16, op2: u16, res: u16) -> bool {
    ((op1 >= 0x8000) == (op2 >= 0x8000)) && ((op1 >= 0x8000) != (res >= 0x8000))
}

/// Signed overflow of a 16-bit subtraction.
pub open spec fn sub_overflow16(op1: u16, op2: u16, res: u16) -> bool {
    ((op1 >= 0x8000) != (op2 >= 0x8000)) && ((op1 >= 0x8000) != (res >= 0x8000))
}

/// F after an 8-bit addition with carry in `c`.
pub open spec fn adc8_flags(op1: u8, op2: u8, c: u8, res: u8) -> u8 {
    flag_if(res >= 0x80, SIGN_FLAG) | flag_if(res == 0, ZERO_FLAG) | flag_if(op1 % 16 + op2 % 16 + c > 15, HALF_CARRY_FLAG)
        | flag_if(add_overflow8(op1, op2, res), PARITY_OVERFLOW_FLAG) | flag_if(op1 + op2 + c > 0xFF, CARRY_FLAG)
        | flag_if(res & 0x08 != 0, X_FLAG) | flag_if(res & 0x20 != 0, Y_FLAG)
}

pub fn update_flags_adc8(cpu: &mut Cpu, op1: u8, op2: u8, c: u8, res: u8)
    requires
        op1 % 16 + op2 % 16 + c <= 0xFF,
    ensures
        final(cpu)@ == old(cpu)@.set_regs(old(cpu)@.regs.with_f(adc8_flags(op1, op2, c, res))),
        old(cpu).wf() ==> final(cpu).wf(),
{
    let f: u8 = (if res >= 0x80 { SIGN_FLAG } else { 0 }) | (if res == 0 { ZERO_FLAG } else { 0 })
        | (if op1 % 16 + op2 % 16 + c > 15 { HALF_CARRY_FLAG } else { 0 })
        | (if ((op1 >= 0x80) == (op2 >= 0x80)) && ((op1 >= 0x80) != (res >= 0x80)) { PARITY_OVERFLOW_FLAG } else { 0 })
        | (if op1 as u16 + op2 as u16 + c as u16 > 0xFF { CARRY_FLAG } else { 0 })
        | (if res & 0x08 != 0 { X_FLAG } else { 0 }) | (if res & 0x20 != 0 { Y_FLAG } else { 0 });
    cpu.set_flags(f);
}

/// F after an 8-bit addition.
pub open spec fn add8_flags(op1: u8, op2: u8, res: u8) -> u8 {
    flag_if(res >= 0x80, SIGN_FLAG) | flag_if(res == 0, ZERO_FLAG) | flag_if(op1 % 16 + op2 % 16 > 15, HALF_CARRY_FLAG)
        | flag_if(add_overflow8(op1, op2, res), PARITY_OVERFLOW_FLAG) | flag_if(op1 + op2 > 0xFF, CARRY_FLAG)
        | flag_if(res & 0x08 != 0, X_FLAG) | flag_if(res & 0x20 != 0, Y_FLAG)
}

pub fn update_flags_add8(cpu: &mut Cpu, op1: u8, op2: u8, res: u8)
    ensures
        final(cpu)@ == old(cpu)@.set_regs(old(cpu)@.regs.with_f(add8_flags(op1, op2, res))),
        old(cpu).wf() ==> final(cpu).wf(),
{
    let f: u8 = (if res >= 0x80 { SIGN_FLAG } else { 0 }) | (if res == 0 { ZERO_FLAG } else { 0 })
        | (if op1 % 16 + op2 % 16 > 15 { HALF_CARRY_FLAG } else { 0 })
        | (if ((op1 >= 0x80) == (op2 >= 0x80)) && ((op1 >= 0x80) != (res >= 0x80)) { PARITY_OVERFLOW_FLAG } else { 0 })
        | (if op1 as u16 + op2 as u16 > 0xFF { CARRY_FLAG } else { 0 })
        | (if res & 0x08 != 0 { X_FLAG } else { 0 }) | (if res & 0x20 != 0 { Y_FLAG } else { 0 });
    cpu.set_flags(f);
}

/// F after a 16-bit addition: S, Z and P/V are kept.
pub open spec fn add16_flags(f: u8, op1: u16, op2: u16, res: u16) -> u8 {
    (f & (SIGN_FLAG | ZERO_FLAG | PARITY_OVERFLOW_FLAG)) | flag_if(op1 % 4096 + op2 % 4096 > 0x0FFF, HALF_CARRY_FLAG)
        | flag_if(op1 + op2 > 0xFFFF, CARRY_FLAG) | flag_if((res >> 8u16) & 0x08 != 0, X_FLAG)
        | flag_if((res >> 8u16) & 0x20 != 0, Y_FLAG)
}

pub fn update_flags_add16(cpu: &mut Cpu, op1: u16, op2: u16, res: u16)
    ensures
        final(cpu)@ == old(cpu)@.set_regs(old(cpu)@.regs.with_f(add16_flags(old(cpu)@.regs.f, op1, op2, res))),
        old(cpu).wf() ==> final(cpu).wf(),
{
    let f: u8 = (cpu.get_flags() & (SIGN_FLAG | ZERO_FLAG | PARITY_OVERFLOW_FLAG))
        | (if op1 % 4096 + op2 % 4096 > 0x0FFF { HALF_CARRY_FLAG } else { 0 })
        | (if op1 as u32 + op2 as u32 > 0xFFFF { CARRY_FLAG } else { 0 })
        | (if (res >> 8u16) & 0x08 != 0 { X_FLAG } else { 0 })
        | (if (res >> 8u16) & 0x20 != 0 { Y_FLAG } else { 0 });
    cpu.set_flags(f);
}

/// F after a logical operation, before H is decided: H is kept, N and C cleared.
pub open spec fn logical_flags(f: u8, res: u8) -> u8 {
    (f & HALF_CARRY_FLAG) | flag_if(res >= 0x80, SIGN_FLAG) | flag_if(res == 0, ZERO_FLAG)
        | flag_if(even_parity(res), PARITY_OVERFLOW_FLAG) | flag_if(res & 0x08 != 0, X_FLAG)
        | flag_if(res & 0x20 != 0, Y_FLAG)
}

pub fn update_flags_logical(cpu: &mut Cpu, res: u8)
    ensures
        final(cpu)@ == old(cpu)@.set_regs(old(cpu)@.regs.with_f(logical_flags(old(cpu)@.regs.f, res))),
        old(cpu).wf() ==> final(cpu).wf(),
{
    let f: u8 = (cpu.get_flags() & HALF_CARRY_FLAG) | (if res >= 0x80 { SIGN_FLAG } else { 0 })
        | (if res == 0 { ZERO_FLAG } else { 0 }) | (if parity_even(res) { PARITY_OVERFLOW_FLAG } else { 0 })
        | (if res & 0x08 != 0 { X_FLAG } else { 0 }) | (if res & 0x20 != 0 { Y_FLAG } else { 0 });
    cpu.set_flags(f);
}

/// F after testing bit `b`: X, Y and C are kept.
pub open spec fn bit_flags(f: u8, b: u8, bit_is_set: bool) -> u8 {
    (f & (X_FLAG | Y_FLAG | CARRY_FLAG)) | flag_if(b == 7 && bit_is_set, SIGN_FLAG) | flag_if(!bit_is_set, ZERO_FLAG)
        | HALF_CARRY_FLAG | flag_if(!bit_is_set, PARITY_OVERFLOW_FLAG)
}

pub fn update_flags_bit(cpu: &mut Cpu, b: u8, bit_is_set: bool)
    ensures
        final(cpu)@ == old(cpu)@.set_regs(old(cpu)@.regs.with_f(bit_flags(old(cpu)@.regs.f, b, bit_is_set))),
        old(cpu).wf() ==> final(cpu).wf(),
{
    let f: u8 = (cpu.get_flags() & (X_FLAG | Y_FLAG | CARRY_FLAG)) | (if b == 7 && bit_is_set { SIGN_FLAG } else { 0 })
        | (if !bit_is_set { ZERO_FLAG } else { 0 }) | HALF_CARRY_FLAG
        | (if !bit_is_set { PARITY_OVERFLOW_FLAG } else { 0 });
    cpu.set_flags(f);
}

/// F after a bit test on memory: X and Y come from bits 11 and 13 of WZ.
pub open spec fn xy_from_wz(f: u8, wz: u16) -> u8 {
    (f & !(X_FLAG | Y_FLAG)) | flag_if(wz & 0x0800 != 0, X_FLAG) | flag_if(wz & 0x2000 != 0, Y_FLAG)
}

pub fn update_xyflags_bit(cpu: &mut Cpu)
    ensures
        final(cpu)@ == old(cpu)@.set_regs(old(cpu)@.regs.with_f(xy_from_wz(old(cpu)@.regs.f, old(cpu)@.regs.wz))),
        old(cpu).wf() ==> final(cpu).wf(),
{
    let wz = cpu.read_reg16(Reg16::WZ);
    let f: u8 = (cpu.get_flags() & !(X_FLAG | Y_FLAG)) | (if wz & 0x0800 != 0 { X_FLAG } else { 0 })
        | (if wz & 0x2000 != 0 { Y_FLAG } else { 0 });
    cpu.set_flags(f);
}

/// F after a comparison: X and Y come from the operand.
pub open spec fn cp8_flags(op1: u8, op2: u8, res: u8) -> u8 {
    flag_if(res >= 0x80, SIGN_FLAG) | flag_if(res == 0, ZERO_FLAG) | flag_if(op1 % 16 < op2 % 16, HALF_CARRY_FLAG)
        | flag_if(sub_overflow8(op1, op2, res), PARITY_OVERFLOW_FLAG) | ADD_SUBTRACT_FLAG
        | flag_if(op1 < op2, CARRY_FLAG) | flag_if(op2 & 0x08 != 0, X_FLAG) | flag_if(op2 & 0x20 != 0, Y_FLAG)
}

pub fn update_flags_cp8(cpu: &mut Cpu, op1: u8, op2: u8, res: u8)
    ensures
        final(cpu)@ == old(cpu)@.set_regs(old(cpu)@.regs.with_f(cp8_flags(op1, op2, res))),
        old(cpu).wf() ==> final(cpu).wf(),
{
    let f: u8 = (if res >= 0x80 { SIGN_FLAG } else { 0 }) | (if res == 0 { ZERO_FLAG } else { 0 })
        | (if op1 % 16 < op2 % 16 { HALF_CARRY_FLAG } else { 0 })
        | (if ((op1 >= 0x80) != (op2 >= 0x80)) && ((op1 >= 0x80) != (res >= 0x80)) { PARITY_OVERFLOW_FLAG } else { 0 })
        | ADD_SUBTRACT_FLAG | (if op1 < op2 { CARRY_FLAG } else { 0 })
        | (if op2 & 0x08 != 0 { X_FLAG } else { 0 }) | (if op2 & 0x20 != 0 { Y_FLAG } else { 0 });
    cpu.set_flags(f);
}

/// F after an 8-bit decrement: C is kept.
pub open spec fn dec8_flags(f: u8, op: u8, res: u8) -> u8 {
    (f & CARRY_FLAG) | flag_if(res >= 0x80, SIGN_FLAG) | flag_if(res == 0, ZERO_FLAG)
        | flag_if(op % 16 == 0, HALF_CARRY_FLAG) | flag_if(res == 0x7F, PARITY_OVERFLOW_FLAG) | ADD_SUBTRACT_FLAG
        | flag_if(res & 0x08 != 0, X_FLAG) | flag_if(res & 0x20 != 0, Y_FLAG)
}

pub fn update_flags_dec8(cpu: &mut Cpu, op: u8, res: u8)
    ensures
        final(cpu)@ == old(cpu)@.set_regs(old(cpu)@.regs.with_f(dec8_flags(old(cpu)@.regs.f, op, res))),
        old(cpu).wf() ==> final(cpu).wf(),
{
    let f: u8 = (cpu.get_flags() & CARRY_FLAG) | (if res >= 0x80 { SIGN_FLAG } else { 0 })
        | (if res == 0 { ZERO_FLAG } else { 0 }) | (if op % 16 == 0 { HALF_CARRY_FLAG } else { 0 })
        | (if res == 0x7F { PARITY_OVERFLOW_FLAG } else { 0 }) | ADD_SUBTRACT_FLAG
        | (if res & 0x08 != 0 { X_FLAG } else { 0 }) | (if res & 0x20 != 0 { Y_FLAG } else { 0 });
    cpu.set_flags(f);
}

/// F after an 8-bit increment: C is kept.
pub open spec fn inc8_flags(f: u8, op: u8, res: u8) -> u8 {
    (f & CARRY_FLAG) | flag_if(res >= 0x80, SIGN_FLAG) | flag_if(res == 0, ZERO_FLAG)
        | flag_if(op % 16 + 1 > 15, HALF_CARRY_FLAG) | flag_if(res == 0x80, PARITY_OVERFLOW_FLAG)
        | flag_if(res & 0x08 != 0, X_FLAG) | flag_if(res & 0x20 != 0, Y_FLAG)
}

pub fn update_flags_inc8(cpu: &mut Cpu, op: u8, res: u8)
    ensures
        final(cpu)@ == old(cpu)@.set_regs(old(cpu)@.regs.with_f(inc8_flags(old(cpu)@.regs.f, op, res))),
        old(cpu).wf() ==> final(cpu).wf(),
{
    let f: u8 = (cpu.get_flags() & CARRY_FLAG) | (if res >= 0x80 { SIGN_FLAG } else { 0 })
        | (if res == 0 { ZERO_FLAG } else { 0 }) | (if op % 16 + 1 > 15 { HALF_CARRY_FLAG } else { 0 })
        | (if res == 0x80 { PARITY_OVERFLOW_FLAG } else { 0 })
        | (if res & 0x08 != 0 { X_FLAG } else { 0 }) | (if res & 0x20 != 0 { Y_FLAG } else { 0 });
    cpu.set_flags(f);
}

/// F after an 8-bit subtraction with borrow `c`.
pub open spec fn sbc8_flags(op1: u8, op2: u8, c: u8, res: u8) -> u8 {
    flag_if(res >= 0x80, SIGN_FLAG) | flag_if(res == 0, ZERO_FLAG) | flag_if(op1 % 16 < op2 % 16 + c, HALF_CARRY_FLAG)
        | flag_if(sub_overflow8(op1, op2, res), PARITY_OVERFLOW_FLAG) | ADD_SUBTRACT_FLAG
        | flag_if(op1 < op2 + c, CARRY_FLAG) | flag_if(res & 0x08 != 0, X_FLAG) | flag_if(res & 0x20 != 0, Y_FLAG)
}

pub fn update_flags_sbc8(cpu: &mut Cpu, op1: u8, op2: u8, c: u8, res: u8)
    requires
        op2 % 16 + c <= 0xFF,
    ensures
        final(cpu)@ == old(cpu)@.set_regs(old(cpu)@.regs.with_f(sbc8_flags(op1, op2, c, res))),
        old(cpu).wf() ==> final(cpu).wf(),
{
    let f: u8 = (if res >= 0x80 { SIGN_FLAG } else { 0 }) | (if res == 0 { ZERO_FLAG } else { 0 })
        | (if op1 % 16 < op2 % 16 + c { HALF_CARRY_FLAG } else { 0 })
        | (if ((op1 >= 0x80) != (op2 >= 0x80)) && ((op1 >= 0x80) != (res >= 0x80)) { PARITY_OVERFLOW_FLAG } else { 0 })
        | ADD_SUBTRACT_FLAG | (if (op1 as u16) < (op2 as u16) + (c as u16) { CARRY_FLAG } else { 0 })
        | (if res & 0x08 != 0 { X_FLAG } else { 0 }) | (if res & 0x20 != 0 { Y_FLAG } else { 0 });
    cpu.set_flags(f);
}

/// F after an 8-bit subtraction.
pub open spec fn sub8_flags(op1: u8, op2: u8, res: u8) -> u8 {
    flag_if(res >= 0x80, SIGN_FLAG) | flag_if(res == 0, ZERO_FLAG) | flag_if(op1 % 16 < op2 % 16, HALF_CARRY_FLAG)
        | flag_if(sub_overflow8(op1, op2, res), PARITY_OVERFLOW_FLAG) | ADD_SUBTRACT_FLAG
        | flag_if(op1 < op2, CARRY_FLAG) | flag_if(res & 0x08 != 0, X_FLAG) | flag_if(res & 0x20 != 0, Y_FLAG)
}

pub fn update_flags_sub8(cpu: &mut Cpu, op1: u8, op2: u8, res: u8)
    ensures
        final(cpu)@ == old(cpu)@.set_regs(old(cpu)@.regs.with_f(sub8_flags(op1, op2, res))),
        old(cpu).wf() ==> final(cpu).wf(),
{
    let f: u8 = (if res >= 0x80 { SIGN_FLAG } else { 0 }) | (if res == 0 { ZERO_FLAG } else { 0 })
        | (if op1 % 16 < op2 % 16 { HALF_CARRY_FLAG } else { 0 })
        | (if ((op1 >= 0x80) != (op2 >= 0x80)) && ((op1 >= 0x80) != (res >= 0x80)) { PARITY_OVERFLOW_FLAG } else { 0 })
        | ADD_SUBTRACT_FLAG | (if op1 < op2 { CARRY_FLAG } else { 0 })
        | (if res & 0x08 != 0 { X_FLAG } else { 0 }) | (if res & 0x20 != 0 { Y_FLAG } else { 0 });
    cpu.set_flags(f);
}

/// The adjustment that DAA adds to (or subtracts from) A.
pub open spec fn daa_diff(c: bool, hi: u8, h: bool, lo: u8) -> u8 {
    if !c {
        if hi <= 9 && lo <= 9 {
            if h { 0x06 } else { 0x00 }
        } else if hi <= 8 && lo >= 10 {
            0x06
        } else if hi >= 10 && lo <= 9 {
            if h { 0x66 } else { 0x60 }
        } else {
            0x66
        }
    } else {
        if lo <= 9 && !h { 0x60 } else { 0x66 }
    }
}

fn daa_adjust(c: bool, hi: u8, h: bool, lo: u8) -> (d: u8)
    ensures
        d == daa_diff(c, hi, h, lo),
{
    if !c {
        if hi <= 9 && lo <= 9 {
            if h { 0x06 } else { 0x00 }
        } else if hi <= 8 && lo >= 10 {
            0x06
        } else if hi >= 10 && lo <= 9 {
            if h { 0x66 } else { 0x60 }
        } else {
            0x66
        }
    } else {
        if lo <= 9 && !h { 0x60 } else { 0x66 }
    }
}

/// The half carry that DAA leaves.
pub open spec fn daa_half(n: bool, h: bool, lo: u8) -> bool {
    if !n {
        lo >= 10
    } else {
        h && lo <= 5
    }
}

fn daa_half_carry(n: bool, h: bool, lo: u8) -> (b: bool)
    ensures
        b == daa_half(n, h, lo),
{
    if !n {
        lo >= 10
    } else {
        h && lo <= 5
    }
}

/// The carry that DAA leaves.
pub open spec fn daa_carry(c: bool, hi: u8, lo: u8) -> bool {
    c || (hi >= 9 && lo >= 10) || (hi >= 10 && lo <= 9)
}

fn daa_carry_out(c: bool, hi: u8, lo: u8) -> (b: bool)
    ensures
        b == daa_carry(c, hi, lo),
{
    c || (hi >= 9 && lo >= 10) || (hi >= 10 && lo <= 9)
}

fn daa_apply(a: u8, diff: u8, n: bool) -> (res: u8)
    ensures
        res == if n { wrap8(a - diff) } else { wrap8(a + diff) },
{
    if n {
        a.wrapping_sub(diff)
    } else {
        a.wrapping_add(diff)
    }
}

/// F after DAA: N is kept.
pub open spec fn daa_flags(f: u8, res: u8, h: bool, c: bool) -> u8 {
    (f & ADD_SUBTRACT_FLAG) | flag_if(res >= 0x80, SIGN_FLAG) | flag_if(res == 0, ZERO_FLAG) | flag_if(h, HALF_CARRY_FLAG)
        | flag_if(even_parity(res), PARITY_OVERFLOW_FLAG) | flag_if(c, CARRY_FLAG) | flag_if(res & 0x08 != 0, X_FLAG)
        | flag_if(res & 0x20 != 0, Y_FLAG)
}

fn update_flags_daa(cpu: &mut Cpu, res: u8, h: bool, c: bool)
    ensures
        final(cpu)@ == old(cpu)@.set_regs(old(cpu)@.regs.with_f(daa_flags(old(cpu)@.regs.f, res, h, c))),
        old(cpu).wf() ==> final(cpu).wf(),
{
    let f: u8 = (cpu.get_flags() & ADD_SUBTRACT_FLAG) | (if res >= 0x80 { SIGN_FLAG } else { 0 })
        | (if res == 0 { ZERO_FLAG } else { 0 }) | (if h { HALF_CARRY_FLAG } else { 0 })
        | (if parity_even(res) { PARITY_OVERFLOW_FLAG } else { 0 }) | (if c { CARRY_FLAG } else { 0 })
        | (if res & 0x08 != 0 { X_FLAG } else { 0 }) | (if res & 0x20 != 0 { Y_FLAG } else { 0 });
    cpu.set_flags(f);
}

/// ADD A, r: adds to A.
#[derive(Clone, Copy)]
pub struct AddR {
    pub r: Reg8,
}

impl Instruction for AddR {
    open spec fn valid(&self) -> bool {
        true
    }

    open spec fn next_state(&self, s: CpuModel) -> CpuModel {
        let s0 = s;
        let a = s0.regs.reg8(Reg8::A);
        let v = s0.regs.reg8(self.r);
        let res = wrap8(a + v);
        let s1 = s0.set_regs(s0.regs.with_reg8(Reg8::A, res));
        let s2 = s1.set_regs(s1.regs.with_f(add8_flags(a, v, res)));
        let s3 = s2.set_regs(s2.regs.advance_pc(1));
        s3
    }

    #[verifier::spinoff_prover]
    #[verifier::rlimit(80)]
    fn execute(&self, cpu: &mut Cpu) {
        let a: u8 = cpu.read_reg8(Reg8::A);
        let v: u8 = cpu.read_reg8(self.r);
        let res: u8 = a.wrapping_add(v);
        cpu.write_reg8(Reg8::A, res);
        update_flags_add8(cpu, a, v, res);
        cpu.inc_pc(1);
    }

    open spec fn accessed(&self) -> (OutputRegisters, OutputRegisters) {
        (OA | OF | output_registers_from_reg8(self.r), OA | OF)
    }

    fn get_accessed_regs(&self) -> (regs: (OutputRegisters, OutputRegisters)) {
        (OA | OF | output_registers_from_reg8(self.r), OA | OF)
    }
}

/// ADD A, n: adds to A.
#[derive(Clone, Copy)]
pub struct AddN;

impl Instruction for AddN {
    open spec fn valid(&self) -> bool {
        true
    }

    open spec fn next_state(&self, s: CpuModel) -> CpuModel {
        let s0 = s;
        let pc = s0.regs.pc;
        let a = s0.regs.reg8(Reg8::A);
        let pc1 = wrap16(pc + 1);
        let v = s0.mem_at(pc1);
        let s1 = s0.after_read(pc1, 3);
        let res = wrap8(a + v);
        let s2 = s1.set_regs(s1.regs.with_reg8(Reg8::A, res));
        let s3 = s2.set_regs(s2.regs.with_f(add8_flags(a, v, res)));
        let s4 = s3.set_regs(s3.regs.advance_pc(2));
        s4
    }

    #[verifier::spinoff_prover]
    #[verifier::rlimit(80)]
    fn execute(&self, cpu: &mut Cpu) {
        let pc: u16 = cpu.get_pc();
        let a: u8 = cpu.read_reg8(Reg8::A);
        let pc1: u16 = pc.wrapping_add(1);
        let v: u8 = cpu.read_word(pc1);
        let res: u8 = a.wrapping_add(v);
        cpu.write_reg8(Reg8::A, res);
        update_flags_add8(cpu, a, v, res);
        cpu.inc_pc(2);
    }

    open spec fn accessed(&self) -> (OutputRegisters, OutputRegisters) {
        (OA | OF, OA | OF)
    }

    fn get_accessed_regs(&self) -> (regs: (OutputRegisters, OutputRegisters)) {
        (OA | OF, OA | OF)
    }
}

/// ADD A, (HL): adds to A.
#[derive(Clone, Copy)]
pub struct AddMemHl;

impl Instruction for AddMemHl {
    open spec fn valid(&self) -> bool {
        true
    }

    open spec fn next_state(&self, s: CpuModel) -> CpuModel {
        let s0 = s;
        let a = s0.regs.reg8(Reg8::A);
        let hl = s0.regs.reg16(Reg16::HL);
        let v = s0.mem_at(hl);
        let s1 = s0.after_read(hl, 3);
        let res = wrap8(a + v);
        let s2 = s1.set_regs(s1.regs.with_reg8(Reg8::A, res));
        let s3 = s2.set_regs(s2.regs.with_f(add8_flags(a, v, res)));
        let s4 = s3.set_regs(s3.regs.advance_pc(1));
        s4
    }

    #[verifier::spinoff_prover]
    #[verifier::rlimit(80)]
    fn execute(&self, cpu: &mut Cpu) {
        let a: u8 = cpu.read_reg8(Reg8::A);
        let hl: u16 = cpu.read_reg16(Reg16::HL);
        let v: u8 = cpu.read_word(hl);
        let res: u8 = a.wrapping_add(v);
        cpu.write_reg8(Reg8::A, res);
        update_flags_add8(cpu, a, v, res);
        cpu.inc_pc(1);
    }

    open spec fn accessed(&self) -> (OutputRegisters, OutputRegisters) {
        (OA | OF, OA | OF)
    }

    fn get_accessed_regs(&self) -> (regs: (OutputRegisters, OutputRegisters)) {
        (OA | OF, OA | OF)
    }
}

/// ADC A, r: adds to A with the carry.
#[derive(Clone, Copy)]
pub struct AdcR {
    pub r: Reg8,
}

impl Instruction for AdcR {
    open spec fn valid(&self) -> bool {
        true
    }

    open spec fn next_state(&self, s: CpuModel) -> CpuModel {
        let s0 = s;
        let a = s0.regs.reg8(Reg8::A);
        let v = s0.regs.reg8(self.r);
        let cf = s0.regs.flag(CARRY_FLAG);
        let c = if cf { 1u8 } else { 0u8 };
        let res = wrap8(a + v + c);
        let s1 = s0.set_regs(s0.regs.with_reg8(Reg8::A, res));
        let s2 = s1.set_regs(s1.regs.with_f(adc8_flags(a, v, c, res)));
        let s3 = s2.set_regs(s2.regs.advance_pc(1));
        s3
    }

    #[verifier::spinoff_prover]
    #[verifier::rlimit(80)]
    fn execute(&self, cpu: &mut Cpu) {
        let a: u8 = cpu.read_reg8(Reg8::A);
        let v: u8 = cpu.read_reg8(self.r);
        let cf: bool = cpu.get_flag(CARRY_FLAG);
        let c: u8 = if cf { 1 } else { 0 };
        let res: u8 = a.wrapping_add(v).wrapping_add(c);
        cpu.write_reg8(Reg8::A, res);
        update_flags_adc8(cpu, a, v, c, res);
        cpu.inc_pc(1);
    }

    open spec fn accessed(&self) -> (OutputRegisters, OutputRegisters) {
        (OA | OF | output_registers_from_reg8(self.r), OA | OF)
    }

    fn get_accessed_regs(&self) -> (regs: (OutputRegisters, OutputRegisters)) {
        (OA | OF | output_registers_from_reg8(self.r), OA | OF)
    }
}

/// ADC A, n: adds to A with the carry.
#[derive(Clone, Copy)]
pub struct AdcN;

impl Instruction for AdcN {
    open spec fn valid(&self) -> bool {
        true
    }

    open spec fn next_state(&self, s: CpuModel) -> CpuModel {
        let s0 = s;
        let pc = s0.regs.pc;
        let a = s0.regs.reg8(Reg8::A);
        let pc1 = wrap16(pc + 1);
        let v = s0.mem_at(pc1);
        let s1 = s0.after_read(pc1, 3);
        let cf = s1.regs.flag(CARRY_FLAG);
        let c = if cf { 1u8 } else { 0u8 };
        let res = wrap8(a + v + c);
        let s2 = s1.set_regs(s1.regs.with_reg8(Reg8::A, res));
        let s3 = s2.set_regs(s2.regs.with_f(adc8_flags(a, v, c, res)));
        let s4 = s3.set_regs(s3.regs.advance_pc(2));
        s4
    }

    #[verifier::spinoff_prover]
    #[verifier::rlimit(80)]
    fn execute(&self, cpu: &mut Cpu) {
        let pc: u16 = cpu.get_pc();
        let a: u8 = cpu.read_reg8(Reg8::A);
        let pc1: u16 = pc.wrapping_add(1);
        let v: u8 = cpu.read_word(pc1);
        let cf: bool = cpu.get_flag(CARRY_FLAG);
        let c: u8 = if cf { 1 } else { 0 };
        let res: u8 = a.wrapping_add(v).wrapping_add(c);
        cpu.write_reg8(Reg8::A, res);
        update_flags_adc8(cpu, a, v, c, res);
        cpu.inc_pc(2);
    }

    open spec fn accessed(&self) -> (OutputRegisters, OutputRegisters) {
        (OA | OF, OA | OF)
    }

    fn get_accessed_regs(&self) -> (regs: (OutputRegisters, OutputRegisters)) {
        (OA | OF, OA | OF)
    }
}

/// ADC A, (HL): adds to A with the carry.
#[derive(Clone, Copy)]
pub struct AdcMemHl;

impl Instruction for AdcMemHl {
    open spec fn valid(&self) -> bool {
        true
    }

    open spec fn next_state(&self, s: CpuModel) -> CpuModel {
        let s0 = s;
        let a = s0.regs.reg8(Reg8::A);
        let hl = s0.regs.reg16(Reg16::HL);
        let v = s0.mem_at(hl);
        let s1 = s0.after_read(hl, 3);
        let cf = s1.regs.flag(CARRY_FLAG);
        let c = if cf { 1u8 } else { 0u8 };
        let res = wrap8(a + v + c);
        let s2 = s1.set_regs(s1.regs.with_reg8(Reg8::A, res));
        let s3 = s2.set_regs(s2.regs.with_f(adc8_flags(a, v, c, res)));
        let s4 = s3.set_regs(s3.regs.advance_pc(1));
        s4
    }

    #[verifier::spinoff_prover]
    #[verifier::rlimit(80)]
    fn execute(&self, cpu: &mut Cpu) {
        let a: u8 = cpu.read_reg8(Reg8::A);
        let hl: u16 = cpu.read_reg16(Reg16::HL);
        let v: u8 = cpu.read_word(hl);
        let cf: bool = cpu.get_flag(CARRY_FLAG);
        let c: u8 = if cf { 1 } else { 0 };
        let res: u8 = a.wrapping_add(v).wrapping_add(c);
        cpu.write_reg8(Reg8::A, res);
        update_flags_adc8(cpu, a, v, c, res);
        cpu.inc_pc(1);
    }

    open spec fn accessed(&self) -> (OutputRegisters, OutputRegisters) {
        (OA | OF | OH | OL, OA | OF)
    }

    fn get_accessed_regs(&self) -> (regs: (OutputRegisters, OutputRegisters)) {
        (OA | OF | OH | OL, OA | OF)
    }
}

/// SUB r: subtracts from A.
#[derive(Clone, Copy)]
pub struct SubR {
    pub r: Reg8,
}

impl Instruction for SubR {
    open spec fn valid(&self) -> bool {
        true
    }

    open spec fn next_state(&self, s: CpuModel) -> CpuModel {
        let s0 = s;
        let a = s0.regs.reg8(Reg8::A);
        let v = s0.regs.reg8(self.r);
        let res = wrap8(a - v);
        let s1 = s0.set_regs(s0.regs.with_reg8(Reg8::A, res));
        let s2 = s1.set_regs(s1.regs.with_f(sub8_flags(a, v, res)));
        let s3 = s2.set_regs(s2.regs.advance_pc(1));
        s3
    }

    #[verifier::spinoff_prover]
    #[verifier::rlimit(80)]
    fn execute(&self, cpu: &mut Cpu) {
        let a: u8 = cpu.read_reg8(Reg8::A);
        let v: u8 = cpu.read_reg8(self.r);
        let res: u8 = a.wrapping_sub(v);
        cpu.write_reg8(Reg8::A, res);
        update_flags_sub8(cpu, a, v, res);
        cpu.inc_pc(1);
    }

    open spec fn accessed(&self) -> (OutputRegisters, OutputRegisters) {
        (OA | OF | output_registers_from_reg8(self.r), OA | OF)
    }

    fn get_accessed_regs(&self) -> (regs: (OutputRegisters, OutputRegisters)) {
        (OA | OF | output_registers_from_reg8(self.r), OA | OF)
    }
}

/// SUB n: subtracts from A.
#[derive(Clone, Copy)]
pub struct SubN;

impl Instruction for SubN {
    open spec fn valid(&self) -> bool {
        true
    }

    open spec fn next_state(&self, s: CpuModel) -> CpuModel {
        let s0 = s;
        let pc = s0.regs.pc;
        let a = s0.regs.reg8(Reg8::A);
        let pc1 = wrap16(pc + 1);
        let v = s0.mem_at(pc1);
        let s1 = s0.after_read(pc1, 3);
        let res = wrap8(a - v);
        let s2 = s1.set_regs(s1.regs.with_reg8(Reg8::A, res));
        let s3 = s2.set_regs(s2.regs.with_f(sub8_flags(a, v, res)));
        let s4 = s3.set_regs(s3.regs.advance_pc(2));
        s4
    }

    #[verifier::spinoff_prover]
    #[verifier::rlimit(80)]
    fn execute(&self, cpu: &mut Cpu) {
        let pc: u16 = cpu.get_pc();
        let a: u8 = cpu.read_reg8(Reg8::A);
        let pc1: u16 = pc.wrapping_add(1);
        let v: u8 = cpu.read_word(pc1);
        let res: u8 = a.wrapping_sub(v);
        cpu.write_reg8(Reg8::A, res);
        update_flags_sub8(cpu, a, v, res);
        cpu.inc_pc(2);
    }

    open spec fn accessed(&self) -> (OutputRegisters, OutputRegisters) {
        (OA | OF, OA | OF)
    }

    fn get_accessed_regs(&self) -> (regs: (OutputRegisters, OutputRegisters)) {
        (OA | OF, OA | OF)
    }
}

/// SUB (HL): subtracts from A.
#[derive(Clone, Copy)]
pub struct SubMemHl;

impl Instruction for SubMemHl {
    open spec fn valid(&self) -> bool {
        true
    }

    open spec fn next_state(&self, s: CpuModel) -> CpuModel {
        let s0 = s;
        let a = s0.regs.reg8(Reg8::A);
        let hl = s0.regs.reg16(Reg16::HL);
        let v = s0.mem_at(hl);
        let s1 = s0.after_read(hl, 3);
        let res = wrap8(a - v);
        let s2 = s1.set_regs(s1.regs.with_reg8(Reg8::A, res));
        let s3 = s2.set_regs(s2.regs.with_f(sub8_flags(a, v, res)));
        let s4 = s3.set_regs(s3.regs.advance_pc(1));
        s4
    }

    #[verifier::spinoff_prover]
    #[verifier::rlimit(80)]
    fn execute(&self, cpu: &mut Cpu) {
        let a: u8 = cpu.read_reg8(Reg8::A);
        let hl: u16 = cpu.read_reg16(Reg16::HL);
        let v: u8 = cpu.read_word(hl);
        let res: u8 = a.wrapping_sub(v);
        cpu.write_reg8(Reg8::A, res);
        update_flags_sub8(cpu, a, v, res);
        cpu.inc_pc(1);
    }

    open spec fn accessed(&self) -> (OutputRegisters, OutputRegisters) {
        (OA | OF, OA | OF)
    }

    fn get_accessed_regs(&self) -> (regs: (OutputRegisters, OutputRegisters)) {
        (OA | OF, OA | OF)
    }
}

/// SBC A, r: subtracts from A with the borrow.
#[derive(Clone, Copy)]
pub struct SbcR {
    pub r: Reg8,
}

impl Instruction for SbcR {
    open spec fn valid(&self) -> bool {
        true
    }

    open spec fn next_state(&self, s: CpuModel) -> CpuModel {
        let s0 = s;
        let a = s0.regs.reg8(Reg8::A);
        let v = s0.regs.reg8(self.r);
        let cf = s0.regs.flag(CARRY_FLAG);
        let c = if cf { 1u8 } else { 0u8 };
        let res = wrap8(a - v - c);
        let s1 = s0.set_regs(s0.regs.with_reg8(Reg8::A, res));
        let s2 = s1.set_regs(s1.regs.with_f(sbc8_flags(a, v, c, res)));
        let s3 = s2.set_regs(s2.regs.advance_pc(1));
        s3
    }

    #[verifier::spinoff_prover]
    #[verifier::rlimit(80)]
    fn execute(&self, cpu: &mut Cpu) {
        let a: u8 = cpu.read_reg8(Reg8::A);
        let v: u8 = cpu.read_reg8(self.r);
        let cf: bool = cpu.get_flag(CARRY_FLAG);
        let c: u8 = if cf { 1 } else { 0 };
        let res: u8 = a.wrapping_sub(v).wrapping_sub(c);
        cpu.write_reg8(Reg8::A, res);
        update_flags_sbc8(cpu, a, v, c, res);
        cpu.inc_pc(1);
    }

    open spec fn accessed(&self) -> (OutputRegisters, OutputRegisters) {
        (OA | OF | output_registers_from_reg8(self.r), OA | OF)
    }

    fn get_accessed_regs(&self) -> (regs: (OutputRegisters, OutputRegisters)) {
        (OA | OF | output_registers_from_reg8(self.r), OA | OF)
    }
}

/// SBC A, n: subtracts from A with the borrow.
#[derive(Clone, Copy)]
pub struct SbcN;

impl Instruction for SbcN {
    open spec fn valid(&self) -> bool {
        true
    }

    open spec fn next_state(&self, s: CpuModel) -> CpuModel {
        let s0 = s;
        let pc = s0.regs.pc;
        let a = s0.regs.reg8(Reg8::A);
        let pc1 = wrap16(pc + 1);
        let v = s0.mem_at(pc1);
        let s1 = s0.after_read(pc1, 3);
        let cf = s1.regs.flag(CARRY_FLAG);
        let c = if cf { 1u8 } else { 0u8 };
        let res = wrap8(a - v - c);
        let s2 = s1.set_regs(s1.regs.with_reg8(Reg8::A, res));
        let s3 = s2.set_regs(s2.regs.with_f(sbc8_flags(a, v, c, res)));
        let s4 = s3.set_regs(s3.regs.advance_pc(2));
        s4
    }

    #[verifier::spinoff_prover]
    #[verifier::rlimit(80)]
    fn execute(&self, cpu: &mut Cpu) {
        let pc: u16 = cpu.get_pc();
        let a: u8 = cpu.read_reg8(Reg8::A);
        let pc1: u16 = pc.wrapping_add(1);
        let v: u8 = cpu.read_word(pc1);
        let cf: bool = cpu.get_flag(CARRY_FLAG);
        let c: u8 = if cf { 1 } else { 0 };
        let res: u8 = a.wrapping_sub(v).wrapping_sub(c);
        cpu.write_reg8(Reg8::A, res);
        update_flags_sbc8(cpu, a, v, c, res);
        cpu.inc_pc(2);
    }

    open spec fn accessed(&self) -> (OutputRegisters, OutputRegisters) {
        (OA | OF, OA | OF)
    }

    fn get_accessed_regs(&self) -> (regs: (OutputRegisters, OutputRegisters)) {
        (OA | OF, OA | OF)
    }
}

/// SBC A, (HL): subtracts from A with the borrow.
#[derive(Clone, Copy)]
pub struct SbcMemHl;

impl Instruction for SbcMemHl {
    open spec fn valid(&self) -> bool {
        true
    }

    open spec fn next_state(&self, s: CpuModel) -> CpuModel {
        let s0 = s;
        let a = s0.regs.reg8(Reg8::A);
        let hl = s0.regs.reg16(Reg16::HL);
        let v = s0.mem_at(hl);
        let s1 = s0.after_read(hl, 3);
        let cf = s1.regs.flag(CARRY_FLAG);
        let c = if cf { 1u8 } else { 0u8 };
        let res = wrap8(a - v - c);
        let s2 = s1.set_regs(s1.regs.with_reg8(Reg8::A, res));
        let s3 = s2.set_regs(s2.regs.with_f(sbc8_flags(a, v, c, res)));
        let s4 = s3.set_regs(s3.regs.advance_pc(1));
        s4
    }

    #[verifier::spinoff_prover]
    #[verifier::rlimit(80)]
    fn execute(&self, cpu: &mut Cpu) {
        let a: u8 = cpu.read_reg8(Reg8::A);
        let hl: u16 = cpu.read_reg16(Reg16::HL);
        let v: u8 = cpu.read_word(hl);
        let cf: bool = cpu.get_flag(CARRY_FLAG);
        let c: u8 = if cf { 1 } else { 0 };
        let res: u8 = a.wrapping_sub(v).wrapping_sub(c);
        cpu.write_reg8(Reg8::A, res);
        update_flags_sbc8(cpu, a, v, c, res);
        cpu.inc_pc(1);
    }

    open spec fn accessed(&self) -> (OutputRegisters, OutputRegisters) {
        (OA | OF | OH | OL, OA | OF)
    }

    fn get_accessed_regs(&self) -> (regs: (OutputRegisters, OutputRegisters)) {
        (OA | OF | OH | OL, OA | OF)
    }
}

/// AND r: bitwise and into A; H set.
#[derive(Clone, Copy)]
pub struct AndR {
    pub r: Reg8,
}

impl Instruction for AndR {
    open spec fn valid(&self) -> bool {
        true
    }

    open spec fn next_state(&self, s: CpuModel) -> CpuModel {
        let s0 = s;
        let a = s0.regs.reg8(Reg8::A);
        let v = s0.regs.reg8(self.r);
        let res = a & v;
        let s1 = s0.set_regs(s0.regs.with_reg8(Reg8::A, res));
        let s2 = s1.set_regs(s1.regs.with_f(logical_flags(s1.regs.f, res)));
        let s3 = s2.set_regs(s2.regs.with_f(s2.regs.f | HALF_CARRY_FLAG));
        let s4 = s3.set_regs(s3.regs.advance_pc(1));
        s4
    }

    #[verifier::spinoff_prover]
    #[verifier::rlimit(80)]
    fn execute(&self, cpu: &mut Cpu) {
        let a: u8 = cpu.read_reg8(Reg8::A);
        let v: u8 = cpu.read_reg8(self.r);
        let res: u8 = a & v;
        cpu.write_reg8(Reg8::A, res);
        update_flags_logical(cpu, res);
        cpu.set_flag(HALF_CARRY_FLAG);
        cpu.inc_pc(1);
    }

    open spec fn accessed(&self) -> (OutputRegisters, OutputRegisters) {
        (OA | OF | output_registers_from_reg8(self.r), OA | OF)
    }

    fn get_accessed_regs(&self) -> (regs: (OutputRegisters, OutputRegisters)) {
        (OA | OF | output_registers_from_reg8(self.r), OA | OF)
    }
}

/// AND n: bitwise and into A; H set.
#[derive(Clone, Copy)]
pub struct AndN;

impl Instruction for AndN {
    open spec fn valid(&self) -> bool {
        true
    }

    open spec fn next_state(&self, s: CpuModel) -> CpuModel {
        let s0 = s;
        let pc = s0.regs.pc;
        let a = s0.regs.reg8(Reg8::A);
        let pc1 = wrap16(pc + 1);
        let v = s0.mem_at(pc1);
        let s1 = s0.after_read(pc1, 3);
        let res = a & v;
        let s2 = s1.set_regs(s1.regs.with_reg8(Reg8::A, res));
        let s3 = s2.set_regs(s2.regs.with_f(logical_flags(s2.regs.f, res)));
        let s4 = s3.set_regs(s3.regs.with_f(s3.regs.f | HALF_CARRY_FLAG));
        let s5 = s4.set_regs(s4.regs.advance_pc(2));
        s5
    }

    #[verifier::spinoff_prover]
    #[verifier::rlimit(80)]
    fn execute(&self, cpu: &mut Cpu) {
        let pc: u16 = cpu.get_pc();
        let a: u8 = cpu.read_reg8(Reg8::A);
        let pc1: u16 = pc.wrapping_add(1);
        let v: u8 = cpu.read_word(pc1);
        let res: u8 = a & v;
        cpu.write_reg8(Reg8::A, res);
        update_flags_logical(cpu, res);
        cpu.set_flag(HALF_CARRY_FLAG);
        cpu.inc_pc(2);
    }

    open spec fn accessed(&self) -> (OutputRegisters, OutputRegisters) {
        (OA | OF, OA | OF)
    }

    fn get_accessed_regs(&self) -> (regs: (OutputRegisters, OutputRegisters)) {
        (OA | OF, OA | OF)
    }
}

/// AND (HL): bitwise and into A; H set.
#[derive(Clone, Copy)]
pub struct AndMemHl;

impl Instruction for AndMemHl {
    open spec fn valid(&self) -> bool {
        true
    }

    open spec fn next_state(&self, s: CpuModel) -> CpuModel {
        let s0 = s;
        let a = s0.regs.reg8(Reg8::A);
        let hl = s0.regs.reg16(Reg16::HL);
        let v = s0.mem_at(hl);
        let s1 = s0.after_read(hl, 3);
        let res = a & v;
        let s2 = s1.set_regs(s1.regs.with_reg8(Reg8::A, res));
        let s3 = s2.set_regs(s2.regs.with_f(logical_flags(s2.regs.f, res)));
        let s4 = s3.set_regs(s3.regs.with_f(s3.regs.f | HALF_CARRY_FLAG));
        let s5 = s4.set_regs(s4.regs.advance_pc(1));
        s5
    }

    #[verifier::spinoff_prover]
    #[verifier::rlimit(80)]
    fn execute(&self, cpu: &mut Cpu) {
        let a: u8 = cpu.read_reg8(Reg8::A);
        let hl: u16 = cpu.read_reg16(Reg16::HL);
        let v: u8 = cpu.read_word(hl);
        let res: u8 = a & v;
        cpu.write_reg8(Reg8::A, res);
        update_flags_logical(cpu, res);
        cpu.set_flag(HALF_CARRY_FLAG);
        cpu.inc_pc(1);
    }

    open spec fn accessed(&self) -> (OutputRegisters, OutputRegisters) {
        (OA | OF, OA | OF)
    }

    fn get_accessed_regs(&self) -> (regs: (OutputRegisters, OutputRegisters)) {
        (OA | OF, OA | OF)
    }
}

/// XOR r: exclusive or into A; H cleared.
#[derive(Clone, Copy)]
pub struct XorR {
    pub r: Reg8,
}

impl Instruction for XorR {
    open spec fn valid(&self) -> bool {
        true
    }

    open spec fn next_state(&self, s: CpuModel) -> CpuModel {
        let s0 = s;
        let a = s0.regs.reg8(Reg8::A);
        let v = s0.regs.reg8(self.r);
        let res = a ^ v;
        let s1 = s0.set_regs(s0.regs.with_reg8(Reg8::A, res));
        let s2 = s1.set_regs(s1.regs.with_f(logical_flags(s1.regs.f, res)));
        let s3 = s2.set_regs(s2.regs.with_f(s2.regs.f & !HALF_CARRY_FLAG));
        let s4 = s3.set_regs(s3.regs.advance_pc(1));
        s4
    }

    #[verifier::spinoff_prover]
    #[verifier::rlimit(80)]
    fn execute(&self, cpu: &mut Cpu) {
        let a: u8 = cpu.read_reg8(Reg8::A);
        let v: u8 = cpu.read_reg8(self.r);
        let res: u8 = a ^ v;
        cpu.write_reg8(Reg8::A, res);
        update_flags_logical(cpu, res);
        cpu.clear_flag(HALF_CARRY_FLAG);
        cpu.inc_pc(1);
    }

    open spec fn accessed(&self) -> (OutputRegisters, OutputRegisters) {
        (OA | OF | output_registers_from_reg8(self.r), OA | OF)
    }

    fn get_accessed_regs(&self) -> (regs: (OutputRegisters, OutputRegisters)) {
        (OA | OF | output_registers_from_reg8(self.r), OA | OF)
    }
}

/// XOR n: exclusive or into A; H cleared.
#[derive(Clone, Copy)]
pub struct XorN;

impl Instruction for XorN {
    open spec fn valid(&self) -> bool {
        true
    }

    open spec fn next_state(&self, s: CpuModel) -> CpuModel {
        let s0 = s;
        let pc = s0.regs.pc;
        let a = s0.regs.reg8(Reg8::A);
        let pc1 = wrap16(pc + 1);
        let v = s0.mem_at(pc1);
        let s1 = s0.after_read(pc1, 3);
        let res = a ^ v;
        let s2 = s1.set_regs(s1.regs.with_reg8(Reg8::A, res));
        let s3 = s2.set_regs(s2.regs.with_f(logical_flags(s2.regs.f, res)));
        let s4 = s3.set_regs(s3.regs.with_f(s3.regs.f & !HALF_CARRY_FLAG));
        let s5 = s4.set_regs(s4.regs.advance_pc(2));
        s5
    }

    #[verifier::spinoff_prover]
    #[verifier::rlimit(80)]
    fn execute(&self, cpu: &mut Cpu) {
        let pc: u16 = cpu.get_pc();
        let a: u8 = cpu.read_reg8(Reg8::A);
        let pc1: u16 = pc.wrapping_add(1);
        let v: u8 = cpu.read_word(pc1);
        let res: u8 = a ^ v;
        cpu.write_reg8(Reg8::A, res);
        update_flags_logical(cpu, res);
        cpu.clear_flag(HALF_CARRY_FLAG);
        cpu.inc_pc(2);
    }

    open spec fn accessed(&self) -> (OutputRegisters, OutputRegisters) {
        (OA | OF, OA | OF)
    }

    fn get_accessed_regs(&self) -> (regs: (OutputRegisters, OutputRegisters)) {
        (OA | OF, OA | OF)
    }
}

/// XOR (HL): exclusive or into A; H cleared.
#[derive(Clone, Copy)]
pub struct XorMemHl;

impl Instruction for XorMemHl {
    open spec fn valid(&self) -> bool {
        true
    }

    open spec fn next_state(&self, s: CpuModel) -> CpuModel {
        let s0 = s;
        let a = s0.regs.reg8(Reg8::A);
        let hl = s0.regs.reg16(Reg16::HL);
        let v = s0.mem_at(hl);
        let s1 = s0.after_read(hl, 3);
        let res = a ^ v;
        let s2 = s1.set_regs(s1.regs.with_reg8(Reg8::A, res));
        let s3 = s2.set_regs(s2.regs.with_f(logical_flags(s2.regs.f, res)));
        let s4 = s3.set_regs(s3.regs.with_f(s3.regs.f & !HALF_CARRY_FLAG));
        let s5 = s4.set_regs(s4.regs.advance_pc(1));
        s5
    }

    #[verifier::spinoff_prover]
    #[verifier::rlimit(80)]
    fn execute(&self, cpu: &mut Cpu) {
        let a: u8 = cpu.read_reg8(Reg8::A);
        let hl: u16 = cpu.read_reg16(Reg16::HL);
        let v: u8 = cpu.read_word(hl);
        let res: u8 = a ^ v;
        cpu.write_reg8(Reg8::A, res);
        update_flags_logical(cpu, res);
        cpu.clear_flag(HALF_CARRY_FLAG);
        cpu.inc_pc(1);
    }

    open spec fn accessed(&self) -> (OutputRegisters, OutputRegisters) {
        (OA | OF, OA | OF)
    }

    fn get_accessed_regs(&self) -> (regs: (OutputRegisters, OutputRegisters)) {
        (OA | OF, OA | OF)
    }
}

/// OR r: bitwise or into A; H cleared.
#[derive(Clone, Copy)]
pub struct OrR {
    pub r: Reg8,
}

impl Instruction for OrR {
    open spec fn valid(&self) -> bool {
        true
    }

    open spec fn next_state(&self, s: CpuModel) -> CpuModel {
        let s0 = s;
        let a = s0.regs.reg8(Reg8::A);
        let v = s0.regs.reg8(self.r);
        let res = a | v;
        let s1 = s0.set_regs(s0.regs.with_reg8(Reg8::A, res));
        let s2 = s1.set_regs(s1.regs.with_f(logical_flags(s1.regs.f, res)));
        let s3 = s2.set_regs(s2.regs.with_f(s2.regs.f & !HALF_CARRY_FLAG));
        let s4 = s3.set_regs(s3.regs.advance_pc(1));
        s4
    }

    #[verifier::spinoff_prover]
    #[verifier::rlimit(80)]
    fn execute(&self, cpu: &mut Cpu) {
        let a: u8 = cpu.read_reg8(Reg8::A);
        let v: u8 = cpu.read_reg8(self.r);
        let res: u8 = a | v;
        cpu.write_reg8(Reg8::A, res);
        update_flags_logical(cpu, res);
        cpu.clear_flag(HALF_CARRY_FLAG);
        cpu.inc_pc(1);
    }

    open spec fn accessed(&self) -> (OutputRegisters, OutputRegisters) {
        (OA | OF | output_registers_from_reg8(self.r), OA | OF)
    }

    fn get_accessed_regs(&self) -> (regs: (OutputRegisters, OutputRegisters)) {
        (OA | OF | output_registers_from_reg8(self.r), OA | OF)
    }
}

/// OR n: bitwise or into A; H cleared.
#[derive(Clone, Copy)]
pub struct OrN;

impl Instruction for OrN {
    open spec fn valid(&self) -> bool {
        true
    }

    open spec fn next_state(&self, s: CpuModel) -> CpuModel {
        let s0 = s;
        let pc = s0.regs.pc;
        let a = s0.regs.reg8(Reg8::A);
        let pc1 = wrap16(pc + 1);
        let v = s0.mem_at(pc1);
        let s1 = s0.after_read(pc1, 3);
        let res = a | v;
        let s2 = s1.set_regs(s1.regs.with_reg8(Reg8::A, res));
        let s3 = s2.set_regs(s2.regs.with_f(logical_flags(s2.regs.f, res)));
        let s4 = s3.set_regs(s3.regs.with_f(s3.regs.f & !HALF_CARRY_FLAG));
        let s5 = s4.set_regs(s4.regs.advance_pc(2));
        s5
    }

    #[verifier::spinoff_prover]
    #[verifier::rlimit(80)]
    fn execute(&self, cpu: &mut Cpu) {
        let pc: u16 = cpu.get_pc();
        let a: u8 = cpu.read_reg8(Reg8::A);
        let pc1: u16 = pc.wrapping_add(1);
        let v: u8 = cpu.read_word(pc1);
        let res: u8 = a | v;
        cpu.write_reg8(Reg8::A, res);
        update_flags_logical(cpu, res);
        cpu.clear_flag(HALF_CARRY_FLAG);
        cpu.inc_pc(2);
    }

    open spec fn accessed(&self) -> (OutputRegisters, OutputRegisters) {
        (OA | OF, OA | OF)
    }

    fn get_accessed_regs(&self) -> (regs: (OutputRegisters, OutputRegisters)) {
        (OA | OF, OA | OF)
    }
}

/// OR (HL): bitwise or into A; H cleared.
#[derive(Clone, Copy)]
pub struct OrMemHl;

impl Instruction for OrMemHl {
    open spec fn valid(&self) -> bool {
        true
    }

    open spec fn next_state(&self, s: CpuModel) -> CpuModel {
        let s0 = s;
        let a = s0.regs.reg8(Reg8::A);
        let hl = s0.regs.reg16(Reg16::HL);
        let v = s0.mem_at(hl);
        let s1 = s0.after_read(hl, 3);
        let res = a | v;
        let s2 = s1.set_regs(s1.regs.with_reg8(Reg8::A, res));
        let s3 = s2.set_regs(s2.regs.with_f(logical_flags(s2.regs.f, res)));
        let s4 = s3.set_regs(s3.regs.with_f(s3.regs.f & !HALF_CARRY_FLAG));
        let s5 = s4.set_regs(s4.regs.advance_pc(1));
        s5
    }

    #[verifier::spinoff_prover]
    #[verifier::rlimit(80)]
    fn execute(&self, cpu: &mut Cpu) {
        let a: u8 = cpu.read_reg8(Reg8::A);
        let hl: u16 = cpu.read_reg16(Reg16::HL);
        let v: u8 = cpu.read_word(hl);
        let res: u8 = a | v;
        cpu.write_reg8(Reg8::A, res);
        update_flags_logical(cpu, res);
        cpu.clear_flag(HALF_CARRY_FLAG);
        cpu.inc_pc(1);
    }

    open spec fn accessed(&self) -> (OutputRegisters, OutputRegisters) {
        (OA | OF | OH | OL, OA | OF)
    }

    fn get_accessed_regs(&self) -> (regs: (OutputRegisters, OutputRegisters)) {
        (OA | OF | OH | OL, OA | OF)
    }
}

/// CP r: compares with A, which is left unchanged.
#[derive(Clone, Copy)]
pub struct CpR {
    pub r: Reg8,
}

impl Instruction for CpR {
    open spec fn valid(&self) -> bool {
        true
    }

    open spec fn next_state(&self, s: CpuModel) -> CpuModel {
        let s0 = s;
        let a = s0.regs.reg8(Reg8::A);
        let v = s0.regs.reg8(self.r);
        let res = wrap8(a - v);
        let s1 = s0.set_regs(s0.regs.with_f(cp8_flags(a, v, res)));
        let s2 = s1.set_regs(s1.regs.advance_pc(1));
        s2
    }

    #[verifier::spinoff_prover]
    #[verifier::rlimit(80)]
    fn execute(&self, cpu: &mut Cpu) {
        let a: u8 = cpu.read_reg8(Reg8::A);
        let v: u8 = cpu.read_reg8(self.r);
        let res: u8 = a.wrapping_sub(v);
        update_flags_cp8(cpu, a, v, res);
        cpu.inc_pc(1);
    }

    open spec fn accessed(&self) -> (OutputRegisters, OutputRegisters) {
        (OA | OF | output_registers_from_reg8(self.r), OF)
    }

    fn get_accessed_regs(&self) -> (regs: (OutputRegisters, OutputRegisters)) {
        (OA | OF | output_registers_from_reg8(self.r), OF)
    }
}

/// CP n: compares with A, which is left unchanged.
#[derive(Clone, Copy)]
pub struct CpN;

impl Instruction for CpN {
    open spec fn valid(&self) -> bool {
        true
    }

    open spec fn next_state(&self, s: CpuModel) -> CpuModel {
        let s0 = s;
        let pc = s0.regs.pc;
        let a = s0.regs.reg8(Reg8::A);
        let pc1 = wrap16(pc + 1);
        let v = s0.mem_at(pc1);
        let s1 = s0.after_read(pc1, 3);
        let res = wrap8(a - v);
        let s2 = s1.set_regs(s1.regs.with_f(cp8_flags(a, v, res)));
        let s3 = s2.set_regs(s2.regs.advance_pc(2));
        s3
    }

    #[verifier::spinoff_prover]
    #[verifier::rlimit(80)]
    fn execute(&self, cpu: &mut Cpu) {
        let pc: u16 = cpu.get_pc();
        let a: u8 = cpu.read_reg8(Reg8::A);
        let pc1: u16 = pc.wrapping_add(1);
        let v: u8 = cpu.read_word(pc1);
        let res: u8 = a.wrapping_sub(v);
        update_flags_cp8(cpu, a, v, res);
        cpu.inc_pc(2);
    }

    open spec fn accessed(&self) -> (OutputRegisters, OutputRegisters) {
        (OA | OF, OF)
    }

    fn get_accessed_regs(&self) -> (regs: (OutputRegisters, OutputRegisters)) {
        (OA | OF, OF)
    }
}

/// CP (HL): compares with A, which is left unchanged.
#[derive(Clone, Copy)]
pub struct CpMemHl;

impl Instruction for CpMemHl {
    open spec fn valid(&self) -> bool {
        true
    }

    open spec fn next_state(&self, s: CpuModel) -> CpuModel {
        let s0 = s;
        let a = s0.regs.reg8(Reg8::A);
        let hl = s0.regs.reg16(Reg16::HL);
        let v = s0.mem_at(hl);
        let s1 = s0.after_read(hl, 3);
        let res = wrap8(a - v);
        let s2 = s1.set_regs(s1.regs.with_f(cp8_flags(a, v, res)));
        let s3 = s2.set_regs(s2.regs.advance_pc(1));
        s3
    }

    #[verifier::spinoff_prover]
    #[verifier::rlimit(80)]
    fn execute(&self, cpu: &mut Cpu) {
        let a: u8 = cpu.read_reg8(Reg8::A);
        let hl: u16 = cpu.read_reg16(Reg16::HL);
        let v: u8 = cpu.read_word(hl);
        let res: u8 = a.wrapping_sub(v);
        update_flags_cp8(cpu, a, v, res);
        cpu.inc_pc(1);
    }

    open spec fn accessed(&self) -> (OutputRegisters, OutputRegisters) {
        (OA | OF | OH | OL, OF)
    }

    fn get_accessed_regs(&self) -> (regs: (OutputRegisters, OutputRegisters)) {
        (OA | OF | OH | OL, OF)
    }
}

/// NOP: does nothing.
#[derive(Clone, Copy)]
pub struct Nop;

impl Instruction for Nop {
    open spec fn valid(&self) -> bool {
        true
    }

    open spec fn next_state(&self, s: CpuModel) -> CpuModel {
        let s0 = s;
        let s1 = s0.set_regs(s0.regs.advance_pc(1));
        s1
    }

    #[verifier::spinoff_prover]
    #[verifier::rlimit(80)]
    fn execute(&self, cpu: &mut Cpu) {
        cpu.inc_pc(1);
    }

    open spec fn accessed(&self) -> (OutputRegisters, OutputRegisters) {
        (ONONE, ONONE)
    }

    fn get_accessed_regs(&self) -> (regs: (OutputRegisters, OutputRegisters)) {
        (ONONE, ONONE)
    }
}

/// ADD HL, ss: 16-bit addition into HL.
#[derive(Clone, Copy)]
pub struct AddHlSs {
    pub r: Reg16,
}

impl Instruction for AddHlSs {
    open spec fn valid(&self) -> bool {
        true
    }

    open spec fn next_state(&self, s: CpuModel) -> CpuModel {
        let s0 = s;
        let hl = s0.regs.reg16(Reg16::HL);
        let ss = s0.regs.reg16(self.r);
        let res = wrap16(hl + ss);
        let ir = s0.regs.reg16(Reg16::IR);
        let s1 = s0.after_no_mreq(ir);
        let s2 = s1.after_no_mreq(ir);
        let s3 = s2.after_no_mreq(ir);
        let s4 = s3.after_no_mreq(ir);
        let s5 = s4.after_no_mreq(ir);
        let s6 = s5.after_no_mreq(ir);
        let s7 = s6.after_no_mreq(ir);
        let s8 = s7.set_regs(s7.regs.with_reg16(Reg16::HL, res));
        let s9 = s8.set_regs(s8.regs.with_reg16(Reg16::WZ, hl));
        let s10 = s9.set_regs(s9.regs.with_f(add16_flags(s9.regs.f, hl, ss, res)));
        let s11 = s10.set_regs(s10.regs.advance_pc(1));
        s11
    }

    #[verifier::spinoff_prover]
    #[verifier::rlimit(80)]
    fn execute(&self, cpu: &mut Cpu) {
        let hl: u16 = cpu.read_reg16(Reg16::HL);
        let ss: u16 = cpu.read_reg16(self.r);
        let res: u16 = hl.wrapping_add(ss);
        let ir: u16 = cpu.read_reg16(Reg16::IR);
        cpu.contend_read_no_mreq(ir);
        cpu.contend_read_no_mreq(ir);
        cpu.contend_read_no_mreq(ir);
        cpu.contend_read_no_mreq(ir);
        cpu.contend_read_no_mreq(ir);
        cpu.contend_read_no_mreq(ir);
        cpu.contend_read_no_mreq(ir);
        cpu.write_reg16(Reg16::HL, res);
        cpu.write_reg16(Reg16::WZ, hl);
        update_flags_add16(cpu, hl, ss, res);
        cpu.inc_pc(1);
    }

    open spec fn accessed(&self) -> (OutputRegisters, OutputRegisters) {
        (OH | OL | OF | OWZ | output_registers_from_reg16(self.r), OH | OL | OF | OWZ)
    }

    fn get_accessed_regs(&self) -> (regs: (OutputRegisters, OutputRegisters)) {
        (OH | OL | OF | OWZ | output_registers_from_reg16(self.r), OH | OL | OF | OWZ)
    }
}

/// CALL nn: pushes the address of the next instruction and jumps.
#[derive(Clone, Copy)]
pub struct CallNn;

impl Instruction for CallNn {
    open spec fn valid(&self) -> bool {
        true
    }

    open spec fn next_state(&self, s: CpuModel) -> CpuModel {
        let s0 = s;
        let pc = s0.regs.pc;
        let pc1 = wrap16(pc + 1);
        let lo = s0.mem_at(pc1);
        let s1 = s0.after_read(pc1, 3);
        let pc2 = wrap16(pc + 2);
        let hi = s1.mem_at(pc2);
        let s2 = s1.after_read(pc2, 3);
        let nn = word(hi, lo);
        let sp = s2.regs.reg16(Reg16::SP);
        let s3 = s2.after_no_mreq(pc2);
        let ret = wrap16(pc + 3);
        let rh = hi8(ret);
        let rl = lo8(ret);
        let sp1 = wrap16(sp - 1);
        let s4 = s3.after_write(sp1, rh);
        let sp2 = wrap16(sp - 2);
        let s5 = s4.after_write(sp2, rl);
        let s6 = s5.set_regs(s5.regs.with_reg16(Reg16::SP, sp2));
        let s7 = s6.set_regs(s6.regs.with_reg16(Reg16::WZ, nn));
        let s8 = s7.set_regs(s7.regs.with_pc(nn));
        s8
    }

    #[verifier::spinoff_prover]
    #[verifier::rlimit(80)]
    fn execute(&self, cpu: &mut Cpu) {
        let pc: u16 = cpu.get_pc();
        let pc1: u16 = pc.wrapping_add(1);
        let lo: u8 = cpu.read_word(pc1);
        let pc2: u16 = pc.wrapping_add(2);
        let hi: u8 = cpu.read_word(pc2);
        let nn: u16 = (hi as u16) * 256 + lo as u16;
        let sp: u16 = cpu.read_reg16(Reg16::SP);
        cpu.contend_read_no_mreq(pc2);
        let ret: u16 = pc.wrapping_add(3);
        let rh: u8 = (ret / 256) as u8;
        let rl: u8 = (ret % 256) as u8;
        let sp1: u16 = sp.wrapping_sub(1);
        cpu.write_word(sp1, rh);
        let sp2: u16 = sp.wrapping_sub(2);
        cpu.write_word(sp2, rl);
        cpu.write_reg16(Reg16::SP, sp2);
        cpu.write_reg16(Reg16::WZ, nn);
        cpu.set_pc(nn);
    }

    open spec fn accessed(&self) -> (OutputRegisters, OutputRegisters) {
        (OSP | OWZ, OSP | OWZ)
    }

    fn get_accessed_regs(&self) -> (regs: (OutputRegisters, OutputRegisters)) {
        (OSP | OWZ, OSP | OWZ)
    }
}

/// CALL cc, nn: a call taken when the condition holds.
#[derive(Clone, Copy)]
pub struct CallCcNn {
    pub cond: FlagCond,
}

impl Instruction for CallCcNn {
    open spec fn valid(&self) -> bool {
        true
    }

    open spec fn next_state(&self, s: CpuModel) -> CpuModel {
        let s0 = s;
        let pc = s0.regs.pc;
        let cc = s0.regs.cond(self.cond);
        let s9 = if cc {
            let pc1 = wrap16(pc + 1);
            let lo = s0.mem_at(pc1);
            let s1 = s0.after_read(pc1, 3);
            let pc2 = wrap16(pc + 2);
            let hi = s1.mem_at(pc2);
            let s2 = s1.after_read(pc2, 3);
            let nn = word(hi, lo);
            let sp = s2.regs.reg16(Reg16::SP);
            let s3 = s2.after_no_mreq(pc2);
            let ret = wrap16(pc + 3);
            let rh = hi8(ret);
            let rl = lo8(ret);
            let sp1 = wrap16(sp - 1);
            let s4 = s3.after_write(sp1, rh);
            let sp2 = wrap16(sp - 2);
            let s5 = s4.after_write(sp2, rl);
            let s6 = s5.set_regs(s5.regs.with_reg16(Reg16::SP, sp2));
            let s7 = s6.set_regs(s6.regs.with_pc(nn));
            let s8 = s7.set_regs(s7.regs.with_reg16(Reg16::WZ, nn));
                s8
        } else {
            let pc1 = wrap16(pc + 1);
            let s1 = s0.after_read(pc1, 3);
            let pc2 = wrap16(pc + 2);
            let s2 = s1.after_read(pc2, 3);
            let s3 = s2.set_regs(s2.regs.advance_pc(3));
                s3
        };
        s9
    }

    #[verifier::spinoff_prover]
    #[verifier::rlimit(100)]
    fn execute(&self, cpu: &mut Cpu) {
        let pc: u16 = cpu.get_pc();
        let cc: bool = cpu.check_cond(self.cond);
        if cc {
            let pc1: u16 = pc.wrapping_add(1);
            let lo: u8 = cpu.read_word(pc1);
            let pc2: u16 = pc.wrapping_add(2);
            let hi: u8 = cpu.read_word(pc2);
            let nn: u16 = (hi as u16) * 256 + lo as u16;
            let sp: u16 = cpu.read_reg16(Reg16::SP);
            cpu.contend_read_no_mreq(pc2);
            let ret: u16 = pc.wrapping_add(3);
            let rh: u8 = (ret / 256) as u8;
            let rl: u8 = (ret % 256) as u8;
            let sp1: u16 = sp.wrapping_sub(1);
            cpu.write_word(sp1, rh);
            let sp2: u16 = sp.wrapping_sub(2);
            cpu.write_word(sp2, rl);
            cpu.write_reg16(Reg16::SP, sp2);
            cpu.set_pc(nn);
            cpu.write_reg16(Reg16::WZ, nn);
        } else {
            let pc1: u16 = pc.wrapping_add(1);
            cpu.contend_read(pc1, 3);
            let pc2: u16 = pc.wrapping_add(2);
            cpu.contend_read(pc2, 3);
            cpu.inc_pc(3);
        }
    }

    open spec fn accessed(&self) -> (OutputRegisters, OutputRegisters) {
        (OSP | OF | OWZ, OSP | OWZ)
    }

    fn get_accessed_regs(&self) -> (regs: (OutputRegisters, OutputRegisters)) {
        (OSP | OF | OWZ, OSP | OWZ)
    }
}

/// CCF: complements the carry; H takes the old carry.
#[derive(Clone, Copy)]
pub struct Ccf;

impl Instruction for Ccf {
    open spec fn valid(&self) -> bool {
        true
    }

    open spec fn next_state(&self, s: CpuModel) -> CpuModel {
        let s0 = s;
        let c = s0.regs.flag(CARRY_FLAG);
        let s1 = s0.set_regs(s0.regs.with_f(cond_bits(s0.regs.f, HALF_CARRY_FLAG, c)));
        let s2 = s1.set_regs(s1.regs.with_f(s1.regs.f & !ADD_SUBTRACT_FLAG));
        let s3 = s2.set_regs(s2.regs.with_f(cond_bits(s2.regs.f, CARRY_FLAG, !c)));
        let a = s3.regs.reg8(Reg8::A);
        let s4 = s3.set_regs(s3.regs.with_f(cond_bits(s3.regs.f, X_FLAG, a & 0x08 != 0)));
        let s5 = s4.set_regs(s4.regs.with_f(cond_bits(s4.regs.f, Y_FLAG, a & 0x20 != 0)));
        let s6 = s5.set_regs(s5.regs.advance_pc(1));
        s6
    }

    #[verifier::spinoff_prover]
    #[verifier::rlimit(80)]
    fn execute(&self, cpu: &mut Cpu) {
        let c: bool = cpu.get_flag(CARRY_FLAG);
        cpu.cond_flag(HALF_CARRY_FLAG, c);
        cpu.clear_flag(ADD_SUBTRACT_FLAG);
        cpu.cond_flag(CARRY_FLAG, !c);
        let a: u8 = cpu.read_reg8(Reg8::A);
        cpu.cond_flag(X_FLAG, a & 0x08 != 0);
        cpu.cond_flag(Y_FLAG, a & 0x20 != 0);
        cpu.inc_pc(1);
    }

    open spec fn accessed(&self) -> (OutputRegisters, OutputRegisters) {
        (OF, OF)
    }

    fn get_accessed_regs(&self) -> (regs: (OutputRegisters, OutputRegisters)) {
        (OF, OF)
    }
}

/// CPL: complements A.
#[derive(Clone, Copy)]
pub struct Cpl;

impl Instruction for Cpl {
    open spec fn valid(&self) -> bool {
        true
    }

    open spec fn next_state(&self, s: CpuModel) -> CpuModel {
        let s0 = s;
        let a = s0.regs.reg8(Reg8::A);
        let res = a ^ 0xFF;
        let s1 = s0.set_regs(s0.regs.with_f(s0.regs.f | HALF_CARRY_FLAG));
        let s2 = s1.set_regs(s1.regs.with_f(s1.regs.f | ADD_SUBTRACT_FLAG));
        let s3 = s2.set_regs(s2.regs.with_f(cond_bits(s2.regs.f, X_FLAG, res & 0x08 != 0)));
        let s4 = s3.set_regs(s3.regs.with_f(cond_bits(s3.regs.f, Y_FLAG, res & 0x20 != 0)));
        let s5 = s4.set_regs(s4.regs.with_reg8(Reg8::A, res));
        let s6 = s5.set_regs(s5.regs.advance_pc(1));
        s6
    }

    #[verifier::spinoff_prover]
    #[verifier::rlimit(80)]
    fn execute(&self, cpu: &mut Cpu) {
        let a: u8 = cpu.read_reg8(Reg8::A);
        let res: u8 = a ^ 0xFF;
        cpu.set_flag(HALF_CARRY_FLAG);
        cpu.set_flag(ADD_SUBTRACT_FLAG);
        cpu.cond_flag(X_FLAG, res & 0x08 != 0);
        cpu.cond_flag(Y_FLAG, res & 0x20 != 0);
        cpu.write_reg8(Reg8::A, res);
        cpu.inc_pc(1);
    }

    open spec fn accessed(&self) -> (OutputRegisters, OutputRegisters) {
        (OA | OF, OA | OF)
    }

    fn get_accessed_regs(&self) -> (regs: (OutputRegisters, OutputRegisters)) {
        (OA | OF, OA | OF)
    }
}

/// DAA: decimal adjustment of A after a BCD addition or subtraction.
#[derive(Clone, Copy)]
pub struct Daa;

impl Instruction for Daa {
    open spec fn valid(&self) -> bool {
        true
    }

    open spec fn next_state(&self, s: CpuModel) -> CpuModel {
        let s0 = s;
        let a = s0.regs.reg8(Reg8::A);
        let c = s0.regs.flag(CARRY_FLAG);
        let h = s0.regs.flag(HALF_CARRY_FLAG);
        let n = s0.regs.flag(ADD_SUBTRACT_FLAG);
        let hi = a / 16;
        let lo = a % 16;
        let diff = daa_diff(c, hi, h, lo);
        let res = if n { wrap8(a - diff) } else { wrap8(a + diff) };
        let s1 = s0.set_regs(s0.regs.with_reg8(Reg8::A, res));
        let hout = daa_half(n, h, lo);
        let cout = daa_carry(c, hi, lo);
        let s2 = s1.set_regs(s1.regs.with_f(daa_flags(s1.regs.f, res, hout, cout)));
        let s3 = s2.set_regs(s2.regs.advance_pc(1));
        s3
    }

    #[verifier::spinoff_prover]
    #[verifier::rlimit(60)]
    fn execute(&self, cpu: &mut Cpu) {
        let a: u8 = cpu.read_reg8(Reg8::A);
        let c: bool = cpu.get_flag(CARRY_FLAG);
        let h: bool = cpu.get_flag(HALF_CARRY_FLAG);
        let n: bool = cpu.get_flag(ADD_SUBTRACT_FLAG);
        let hi: u8 = a / 16;
        let lo: u8 = a % 16;
        let diff: u8 = daa_adjust(c, hi, h, lo);
        let res: u8 = daa_apply(a, diff, n);
        cpu.write_reg8(Reg8::A, res);
        let hout: bool = daa_half_carry(n, h, lo);
        let cout: bool = daa_carry_out(c, hi, lo);
        update_flags_daa(cpu, res, hout, cout);
        cpu.inc_pc(1);
    }

    open spec fn accessed(&self) -> (OutputRegisters, OutputRegisters) {
        (OA | OF, OA | OF)
    }

    fn get_accessed_regs(&self) -> (regs: (OutputRegisters, OutputRegisters)) {
        (OA | OF, OA | OF)
    }
}

/// DEC r: decrements a register.
#[derive(Clone, Copy)]
pub struct DecR {
    pub r: Reg8,
}

impl Instruction for DecR {
    open spec fn valid(&self) -> bool {
        true
    }

    open spec fn next_state(&self, s: CpuModel) -> CpuModel {
        let s0 = s;
        let v = s0.regs.reg8(self.r);
        let res = wrap8(v - 1);
        let s1 = s0.set_regs(s0.regs.with_reg8(self.r, res));
        let s2 = s1.set_regs(s1.regs.with_f(dec8_flags(s1.regs.f, v, res)));
        let s3 = s2.set_regs(s2.regs.advance_pc(1));
        s3
    }

    #[verifier::spinoff_prover]
    #[verifier::rlimit(80)]
    fn execute(&self, cpu: &mut Cpu) {
        let v: u8 = cpu.read_reg8(self.r);
        let res: u8 = v.wrapping_sub(1);
        cpu.write_reg8(self.r, res);
        update_flags_dec8(cpu, v, res);
        cpu.inc_pc(1);
    }

    open spec fn accessed(&self) -> (OutputRegisters, OutputRegisters) {
        (OF | output_registers_from_reg8(self.r), OF | output_registers_from_reg8(self.r))
    }

    fn get_accessed_regs(&self) -> (regs: (OutputRegisters, OutputRegisters)) {
        (OF | output_registers_from_reg8(self.r), OF | output_registers_from_reg8(self.r))
    }
}

/// INC r: increments a register.
#[derive(Clone, Copy)]
pub struct IncR {
    pub r: Reg8,
}

impl Instruction for IncR {
    open spec fn valid(&self) -> bool {
        true
    }

    open spec fn next_state(&self, s: CpuModel) -> CpuModel {
        let s0 = s;
        let v = s0.regs.reg8(self.r);
        let res = wrap8(v + 1);
        let s1 = s0.set_regs(s0.regs.with_reg8(self.r, res));
        let s2 = s1.set_regs(s1.regs.with_f(inc8_flags(s1.regs.f, v, res)));
        let s3 = s2.set_regs(s2.regs.advance_pc(1));
        s3
    }

    #[verifier::spinoff_prover]
    #[verifier::rlimit(80)]
    fn execute(&self, cpu: &mut Cpu) {
        let v: u8 = cpu.read_reg8(self.r);
        let res: u8 = v.wrapping_add(1);
        cpu.write_reg8(self.r, res);
        update_flags_inc8(cpu, v, res);
        cpu.inc_pc(1);
    }

    open spec fn accessed(&self) -> (OutputRegisters, OutputRegisters) {
        (OF | output_registers_from_reg8(self.r), OF | output_registers_from_reg8(self.r))
    }

    fn get_accessed_regs(&self) -> (regs: (OutputRegisters, OutputRegisters)) {
        (OF | output_registers_from_reg8(self.r), OF | output_registers_from_reg8(self.r))
    }
}

/// DEC (HL): decrements the byte at HL.
#[derive(Clone, Copy)]
pub struct DecMemHl;

impl Instruction for DecMemHl {
    open spec fn valid(&self) -> bool {
        true
    }

    open spec fn next_state(&self, s: CpuModel) -> CpuModel {
        let s0 = s;
        let hl = s0.regs.reg16(Reg16::HL);
        let v = s0.mem_at(hl);
        let s1 = s0.after_read(hl, 3);
        let s2 = s1.after_no_mreq(hl);
        let res = wrap8(v - 1);
        let s3 = s2.after_write(hl, res);
        let s4 = s3.set_regs(s3.regs.with_f(dec8_flags(s3.regs.f, v, res)));
        let s5 = s4.set_regs(s4.regs.advance_pc(1));
        s5
    }

    #[verifier::spinoff_prover]
    #[verifier::rlimit(80)]
    fn execute(&self, cpu: &mut Cpu) {
        let hl: u16 = cpu.read_reg16(Reg16::HL);
        let v: u8 = cpu.read_word(hl);
        cpu.contend_read_no_mreq(hl);
        let res: u8 = v.wrapping_sub(1);
        cpu.write_word(hl, res);
        update_flags_dec8(cpu, v, res);
        cpu.inc_pc(1);
    }

    open spec fn accessed(&self) -> (OutputRegisters, OutputRegisters) {
        (OF | OH | OL, OF)
    }

    fn get_accessed_regs(&self) -> (regs: (OutputRegisters, OutputRegisters)) {
        (OF | OH | OL, OF)
    }
}

/// INC (HL): increments the byte at HL.
#[derive(Clone, Copy)]
pub struct IncMemHl;

impl Instruction for IncMemHl {
    open spec fn valid(&self) -> bool {
        true
    }

    open spec fn next_state(&self, s: CpuModel) -> CpuModel {
        let s0 = s;
        let hl = s0.regs.reg16(Reg16::HL);
        let v = s0.mem_at(hl);
        let s1 = s0.after_read(hl, 3);
        let s2 = s1.after_no_mreq(hl);
        let res = wrap8(v + 1);
        let s3 = s2.after_write(hl, res);
        let s4 = s3.set_regs(s3.regs.with_f(inc8_flags(s3.regs.f, v, res)));
        let s5 = s4.set_regs(s4.regs.advance_pc(1));
        s5
    }

    #[verifier::spinoff_prover]
    #[verifier::rlimit(80)]
    fn execute(&self, cpu: &mut Cpu) {
        let hl: u16 = cpu.read_reg16(Reg16::HL);
        let v: u8 = cpu.read_word(hl);
        cpu.contend_read_no_mreq(hl);
        let res: u8 = v.wrapping_add(1);
        cpu.write_word(hl, res);
        update_flags_inc8(cpu, v, res);
        cpu.inc_pc(1);
    }

    open spec fn accessed(&self) -> (OutputRegisters, OutputRegisters) {
        (OF, OF)
    }

    fn get_accessed_regs(&self) -> (regs: (OutputRegisters, OutputRegisters)) {
        (OF, OF)
    }
}

/// DEC ss: decrements a 16-bit register; no flag changes.
#[derive(Clone, Copy)]
pub struct DecSs {
    pub r: Reg16,
}

impl Instruction for DecSs {
    open spec fn valid(&self) -> bool {
        true
    }

    open spec fn next_state(&self, s: CpuModel) -> CpuModel {
        let s0 = s;
        let v = s0.regs.reg16(self.r);
        let res = wrap16(v - 1);
        let ir = s0.regs.reg16(Reg16::IR);
        let s1 = s0.after_no_mreq(ir);
        let s2 = s1.after_no_mreq(ir);
        let s3 = s2.set_regs(s2.regs.with_reg16(self.r, res));
        let s4 = s3.set_regs(s3.regs.advance_pc(1));
        s4
    }

    #[verifier::spinoff_prover]
    #[verifier::rlimit(80)]
    fn execute(&self, cpu: &mut Cpu) {
        let v: u16 = cpu.read_reg16(self.r);
        let res: u16 = v.wrapping_sub(1);
        let ir: u16 = cpu.read_reg16(Reg16::IR);
        cpu.contend_read_no_mreq(ir);
        cpu.contend_read_no_mreq(ir);
        cpu.write_reg16(self.r, res);
        cpu.inc_pc(1);
    }

    open spec fn accessed(&self) -> (OutputRegisters, OutputRegisters) {
        (output_registers_from_reg16(self.r), output_registers_from_reg16(self.r))
    }

    fn get_accessed_regs(&self) -> (regs: (OutputRegisters, OutputRegisters)) {
        (output_registers_from_reg16(self.r), output_registers_from_reg16(self.r))
    }
}

/// INC ss: increments a 16-bit register; no flag changes.
#[derive(Clone, Copy)]
pub struct IncSs {
    pub r: Reg16,
}

impl Instruction for IncSs {
    open spec fn valid(&self) -> bool {
        true
    }

    open spec fn next_state(&self, s: CpuModel) -> CpuModel {
        let s0 = s;
        let v = s0.regs.reg16(self.r);
        let res = wrap16(v + 1);
        let ir = s0.regs.reg16(Reg16::IR);
        let s1 = s0.after_no_mreq(ir);
        let s2 = s1.after_no_mreq(ir);
        let s3 = s2.set_regs(s2.regs.with_reg16(self.r, res));
        let s4 = s3.set_regs(s3.regs.advance_pc(1));
        s4
    }

    #[verifier::spinoff_prover]
    #[verifier::rlimit(80)]
    fn execute(&self, cpu: &mut Cpu) {
        let v: u16 = cpu.read_reg16(self.r);
        let res: u16 = v.wrapping_add(1);
        let ir: u16 = cpu.read_reg16(Reg16::IR);
        cpu.contend_read_no_mreq(ir);
        cpu.contend_read_no_mreq(ir);
        cpu.write_reg16(self.r, res);
        cpu.inc_pc(1);
    }

    open spec fn accessed(&self) -> (OutputRegisters, OutputRegisters) {
        (output_registers_from_reg16(self.r), output_registers_from_reg16(self.r))
    }

    fn get_accessed_regs(&self) -> (regs: (OutputRegisters, OutputRegisters)) {
        (output_registers_from_reg16(self.r), output_registers_from_reg16(self.r))
    }
}

/// DI: disables interrupts.
#[derive(Clone, Copy)]
pub struct Di;

impl Instruction for Di {
    open spec fn valid(&self) -> bool {
        true
    }

    open spec fn next_state(&self, s: CpuModel) -> CpuModel {
        let s0 = s;
        let s1 = s0.set_regs(Regs { iff1: false, ..s0.regs });
        let s2 = s1.set_regs(Regs { iff2: false, ..s1.regs });
        let s3 = s2.set_regs(s2.regs.advance_pc(1));
        s3
    }

    #[verifier::spinoff_prover]
    #[verifier::rlimit(80)]
    fn execute(&self, cpu: &mut Cpu) {
        cpu.clear_iff1();
        cpu.clear_iff2();
        cpu.inc_pc(1);
    }

    open spec fn accessed(&self) -> (OutputRegisters, OutputRegisters) {
        (ONONE, ONONE)
    }

    fn get_accessed_regs(&self) -> (regs: (OutputRegisters, OutputRegisters)) {
        (ONONE, ONONE)
    }
}

/// EI: enables interrupts.
#[derive(Clone, Copy)]
pub struct Ei;

impl Instruction for Ei {
    open spec fn valid(&self) -> bool {
        true
    }

    open spec fn next_state(&self, s: CpuModel) -> CpuModel {
        let s0 = s;
        let s1 = s0.set_regs(Regs { iff1: true, ..s0.regs });
        let s2 = s1.set_regs(Regs { iff2: true, ..s1.regs });
        let s3 = s2.set_regs(s2.regs.advance_pc(1));
        s3
    }

    #[verifier::spinoff_prover]
    #[verifier::rlimit(80)]
    fn execute(&self, cpu: &mut Cpu) {
        cpu.set_iff1();
        cpu.set_iff2();
        cpu.inc_pc(1);
    }

    open spec fn accessed(&self) -> (OutputRegisters, OutputRegisters) {
        (ONONE, ONONE)
    }

    fn get_accessed_regs(&self) -> (regs: (OutputRegisters, OutputRegisters)) {
        (ONONE, ONONE)
    }
}

/// DJNZ e: decrements B and jumps relative while it is not zero.
#[derive(Clone, Copy)]
pub struct Djnz;

impl Instruction for Djnz {
    open spec fn valid(&self) -> bool {
        true
    }

    open spec fn next_state(&self, s: CpuModel) -> CpuModel {
        let s0 = s;
        let pc = s0.regs.pc;
        let ir = s0.regs.reg16(Reg16::IR);
        let s1 = s0.after_no_mreq(ir);
        let b0 = s1.regs.reg8(Reg8::B);
        let b = wrap8(b0 - 1);
        let s2 = s1.set_regs(s1.regs.with_reg8(Reg8::B, b));
        let s10 = if b != 0 {
            let pc1 = wrap16(pc + 1);
            let e = s2.mem_at(pc1);
            let s3 = s2.after_read(pc1, 3);
            let now = s3.regs.pc;
            let target = jr_target(now, e);
            let s4 = s3.after_no_mreq(pc1);
            let s5 = s4.after_no_mreq(pc1);
            let s6 = s5.after_no_mreq(pc1);
            let s7 = s6.after_no_mreq(pc1);
            let s8 = s7.after_no_mreq(pc1);
            let s9 = s8.set_regs(s8.regs.with_pc(target));
                s9
        } else {
            let pc1 = wrap16(pc + 1);
            let s3 = s2.after_read(pc1, 3);
            let s4 = s3.set_regs(s3.regs.advance_pc(2));
                s4
        };
        s10
    }

    #[verifier::spinoff_prover]
    #[verifier::rlimit(60)]
    fn execute(&self, cpu: &mut Cpu) {
        let pc: u16 = cpu.get_pc();
        let ir: u16 = cpu.read_reg16(Reg16::IR);
        cpu.contend_read_no_mreq(ir);
        let b0: u8 = cpu.read_reg8(Reg8::B);
        let b: u8 = b0.wrapping_sub(1);
        cpu.write_reg8(Reg8::B, b);
        if b != 0 {
            let pc1: u16 = pc.wrapping_add(1);
            let e: u8 = cpu.read_word(pc1);
            let now: u16 = cpu.get_pc();
            let target: u16 = relative_target(now, e);
            cpu.contend_read_no_mreq(pc1);
            cpu.contend_read_no_mreq(pc1);
            cpu.contend_read_no_mreq(pc1);
            cpu.contend_read_no_mreq(pc1);
            cpu.contend_read_no_mreq(pc1);
            cpu.set_pc(target);
        } else {
            let pc1: u16 = pc.wrapping_add(1);
            cpu.contend_read(pc1, 3);
            cpu.inc_pc(2);
        }
    }

    open spec fn accessed(&self) -> (OutputRegisters, OutputRegisters) {
        (OB, OB)
    }

    fn get_accessed_regs(&self) -> (regs: (OutputRegisters, OutputRegisters)) {
        (OB, OB)
    }
}

/// JR Z, e: relative jump taken on the condition.
#[derive(Clone, Copy)]
pub struct JrZ;

impl Instruction for JrZ {
    open spec fn valid(&self) -> bool {
        true
    }

    open spec fn next_state(&self, s: CpuModel) -> CpuModel {
        let s0 = s;
        let pc = s0.regs.pc;
        let fl = s0.regs.flag(ZERO_FLAG);
        let s9 = if fl {
            let pc1 = wrap16(pc + 1);
            let e = s0.mem_at(pc1);
            let s1 = s0.after_read(pc1, 3);
            let now = s1.regs.pc;
            let target = jr_target(now, e);
            let s2 = s1.after_no_mreq(pc1);
            let s3 = s2.after_no_mreq(pc1);
            let s4 = s3.after_no_mreq(pc1);
            let s5 = s4.after_no_mreq(pc1);
            let s6 = s5.after_no_mreq(pc1);
            let s7 = s6.set_regs(s6.regs.with_pc(target));
            let s8 = s7.set_regs(s7.regs.with_reg16(Reg16::WZ, target));
                s8
        } else {
            let pc1 = wrap16(pc + 1);
            let s1 = s0.after_read(pc1, 3);
            let s2 = s1.set_regs(s1.regs.advance_pc(2));
                s2
        };
        s9
    }

    #[verifier::spinoff_prover]
    #[verifier::rlimit(80)]
    fn execute(&self, cpu: &mut Cpu) {
        let pc: u16 = cpu.get_pc();
        let fl: bool = cpu.get_flag(ZERO_FLAG);
        if fl {
            let pc1: u16 = pc.wrapping_add(1);
            let e: u8 = cpu.read_word(pc1);
            let now: u16 = cpu.get_pc();
            let target: u16 = relative_target(now, e);
            cpu.contend_read_no_mreq(pc1);
            cpu.contend_read_no_mreq(pc1);
            cpu.contend_read_no_mreq(pc1);
            cpu.contend_read_no_mreq(pc1);
            cpu.contend_read_no_mreq(pc1);
            cpu.set_pc(target);
            cpu.write_reg16(Reg16::WZ, target);
        } else {
            let pc1: u16 = pc.wrapping_add(1);
            cpu.contend_read(pc1, 3);
            cpu.inc_pc(2);
        }
    }

    open spec fn accessed(&self) -> (OutputRegisters, OutputRegisters) {
        (OF | OWZ, OWZ)
    }

    fn get_accessed_regs(&self) -> (regs: (OutputRegisters, OutputRegisters)) {
        (OF | OWZ, OWZ)
    }
}

/// JR NZ, e: relative jump taken on the condition.
#[derive(Clone, Copy)]
pub struct JrNz;

impl Instruction for JrNz {
    open spec fn valid(&self) -> bool {
        true
    }

    open spec fn next_state(&self, s: CpuModel) -> CpuModel {
        let s0 = s;
        let pc = s0.regs.pc;
        let fl = s0.regs.flag(ZERO_FLAG);
        let s9 = if fl {
            let pc1 = wrap16(pc + 1);
            let s1 = s0.after_read(pc1, 3);
            let s2 = s1.set_regs(s1.regs.advance_pc(2));
                s2
        } else {
            let pc1 = wrap16(pc + 1);
            let e = s0.mem_at(pc1);
            let s1 = s0.after_read(pc1, 3);
            let now = s1.regs.pc;
            let target = jr_target(now, e);
            let s2 = s1.after_no_mreq(pc1);
            let s3 = s2.after_no_mreq(pc1);
            let s4 = s3.after_no_mreq(pc1);
            let s5 = s4.after_no_mreq(pc1);
            let s6 = s5.after_no_mreq(pc1);
            let s7 = s6.set_regs(s6.regs.with_pc(target));
            let s8 = s7.set_regs(s7.regs.with_reg16(Reg16::WZ, target));
                s8
        };
        s9
    }

    #[verifier::spinoff_prover]
    #[verifier::rlimit(80)]
    fn execute(&self, cpu: &mut Cpu) {
        let pc: u16 = cpu.get_pc();
        let fl: bool = cpu.get_flag(ZERO_FLAG);
        if fl {
            let pc1: u16 = pc.wrapping_add(1);
            cpu.contend_read(pc1, 3);
            cpu.inc_pc(2);
        } else {
            let pc1: u16 = pc.wrapping_add(1);
            let e: u8 = cpu.read_word(pc1);
            let now: u16 = cpu.get_pc();
            let target: u16 = relative_target(now, e);
            cpu.contend_read_no_mreq(pc1);
            cpu.contend_read_no_mreq(pc1);
            cpu.contend_read_no_mreq(pc1);
            cpu.contend_read_no_mreq(pc1);
            cpu.contend_read_no_mreq(pc1);
            cpu.set_pc(target);
            cpu.write_reg16(Reg16::WZ, target);
        }
    }

    open spec fn accessed(&self) -> (OutputRegisters, OutputRegisters) {
        (OF | OWZ, OWZ)
    }

    fn get_accessed_regs(&self) -> (regs: (OutputRegisters, OutputRegisters)) {
        (OF | OWZ, OWZ)
    }
}

/// JR NC, e: relative jump taken on the condition.
#[derive(Clone, Copy)]
pub struct JrNcE;

impl Instruction for JrNcE {
    open spec fn valid(&self) -> bool {
        true
    }

    open spec fn next_state(&self, s: CpuModel) -> CpuModel {
        let s0 = s;
        let pc = s0.regs.pc;
        let fl = s0.regs.flag(CARRY_FLAG);
        let s9 = if fl {
            let pc1 = wrap16(pc + 1);
            let s1 = s0.after_read(pc1, 3);
            let s2 = s1.set_regs(s1.regs.advance_pc(2));
                s2
        } else {
            let pc1 = wrap16(pc + 1);
            let e = s0.mem_at(pc1);
            let s1 = s0.after_read(pc1, 3);
            let now = s1.regs.pc;
            let target = jr_target(now, e);
            let s2 = s1.after_no_mreq(pc1);
            let s3 = s2.after_no_mreq(pc1);
            let s4 = s3.after_no_mreq(pc1);
            let s5 = s4.after_no_mreq(pc1);
            let s6 = s5.after_no_mreq(pc1);
            let s7 = s6.set_regs(s6.regs.with_pc(target));
            let s8 = s7.set_regs(s7.regs.with_reg16(Reg16::WZ, target));
                s8
        };
        s9
    }

    #[verifier::spinoff_prover]
    #[verifier::rlimit(80)]
    fn execute(&self, cpu: &mut Cpu) {
        let pc: u16 = cpu.get_pc();
        let fl: bool = cpu.get_flag(CARRY_FLAG);
        if fl {
            let pc1: u16 = pc.wrapping_add(1);
            cpu.contend_read(pc1, 3);
            cpu.inc_pc(2);
        } else {
            let pc1: u16 = pc.wrapping_add(1);
            let e: u8 = cpu.read_word(pc1);
            let now: u16 = cpu.get_pc();
            let target: u16 = relative_target(now, e);
            cpu.contend_read_no_mreq(pc1);
            cpu.contend_read_no_mreq(pc1);
            cpu.contend_read_no_mreq(pc1);
            cpu.contend_read_no_mreq(pc1);
            cpu.contend_read_no_mreq(pc1);
            cpu.set_pc(target);
            cpu.write_reg16(Reg16::WZ, target);
        }
    }

    open spec fn accessed(&self) -> (OutputRegisters, OutputRegisters) {
        (OF | OWZ, OWZ)
    }

    fn get_accessed_regs(&self) -> (regs: (OutputRegisters, OutputRegisters)) {
        (OF | OWZ, OWZ)
    }
}

/// JR C, e: relative jump taken on the condition.
#[derive(Clone, Copy)]
pub struct JrCE;

impl Instruction for JrCE {
    open spec fn valid(&self) -> bool {
        true
    }

    open spec fn next_state(&self, s: CpuModel) -> CpuModel {
        let s0 = s;
        let pc = s0.regs.pc;
        let fl = s0.regs.flag(CARRY_FLAG);
        let s9 = if fl {
            let pc1 = wrap16(pc + 1);
            let e = s0.mem_at(pc1);
            let s1 = s0.after_read(pc1, 3);
            let now = s1.regs.pc;
            let target = jr_target(now, e);
            let s2 = s1.after_no_mreq(pc1);
            let s3 = s2.after_no_mreq(pc1);
            let s4 = s3.after_no_mreq(pc1);
            let s5 = s4.after_no_mreq(pc1);
            let s6 = s5.after_no_mreq(pc1);
            let s7 = s6.set_regs(s6.regs.with_pc(target));
            let s8 = s7.set_regs(s7.regs.with_reg16(Reg16::WZ, target));
                s8
        } else {
            let pc1 = wrap16(pc + 1);
            let s1 = s0.after_read(pc1, 3);
            let s2 = s1.set_regs(s1.regs.advance_pc(2));
                s2
        };
        s9
    }

    #[verifier::spinoff_prover]
    #[verifier::rlimit(80)]
    fn execute(&self, cpu: &mut Cpu) {
        let pc: u16 = cpu.get_pc();
        let fl: bool = cpu.get_flag(CARRY_FLAG);
        if fl {
            let pc1: u16 = pc.wrapping_add(1);
            let e: u8 = cpu.read_word(pc1);
            let now: u16 = cpu.get_pc();
            let target: u16 = relative_target(now, e);
            cpu.contend_read_no_mreq(pc1);
            cpu.contend_read_no_mreq(pc1);
            cpu.contend_read_no_mreq(pc1);
            cpu.contend_read_no_mreq(pc1);
            cpu.contend_read_no_mreq(pc1);
            cpu.set_pc(target);
            cpu.write_reg16(Reg16::WZ, target);
        } else {
            let pc1: u16 = pc.wrapping_add(1);
            cpu.contend_read(pc1, 3);
            cpu.inc_pc(2);
        }
    }

    open spec fn accessed(&self) -> (OutputRegisters, OutputRegisters) {
        (OF | OWZ, OWZ)
    }

    fn get_accessed_regs(&self) -> (regs: (OutputRegisters, OutputRegisters)) {
        (OF | OWZ, OWZ)
    }
}

/// JR e: relative jump.
#[derive(Clone, Copy)]
pub struct JrE;

impl Instruction for JrE {
    open spec fn valid(&self) -> bool {
        true
    }

    open spec fn next_state(&self, s: CpuModel) -> CpuModel {
        let s0 = s;
        let pc = s0.regs.pc;
        let pc1 = wrap16(pc + 1);
        let e = s0.mem_at(pc1);
        let s1 = s0.after_read(pc1, 3);
        let now = s1.regs.pc;
        let target = jr_target(now, e);
        let s2 = s1.after_no_mreq(pc1);
        let s3 = s2.after_no_mreq(pc1);
        let s4 = s3.after_no_mreq(pc1);
        let s5 = s4.after_no_mreq(pc1);
        let s6 = s5.after_no_mreq(pc1);
        let s7 = s6.set_regs(s6.regs.with_pc(target));
        let s8 = s7.set_regs(s7.regs.with_reg16(Reg16::WZ, target));
        s8
    }

    #[verifier::spinoff_prover]
    #[verifier::rlimit(80)]
    fn execute(&self, cpu: &mut Cpu) {
        let pc: u16 = cpu.get_pc();
        let pc1: u16 = pc.wrapping_add(1);
        let e: u8 = cpu.read_word(pc1);
        let now: u16 = cpu.get_pc();
        let target: u16 = relative_target(now, e);
        cpu.contend_read_no_mreq(pc1);
        cpu.contend_read_no_mreq(pc1);
        cpu.contend_read_no_mreq(pc1);
        cpu.contend_read_no_mreq(pc1);
        cpu.contend_read_no_mreq(pc1);
        cpu.set_pc(target);
        cpu.write_reg16(Reg16::WZ, target);
    }

    open spec fn accessed(&self) -> (OutputRegisters, OutputRegisters) {
        (OF | OWZ, OWZ)
    }

    fn get_accessed_regs(&self) -> (regs: (OutputRegisters, OutputRegisters)) {
        (OF | OWZ, OWZ)
    }
}

/// EX AF, AF': swaps AF with the alternate AF.
#[derive(Clone, Copy)]
pub struct ExAfAfAlt;

impl Instruction for ExAfAfAlt {
    open spec fn valid(&self) -> bool {
        true
    }

    open spec fn next_state(&self, s: CpuModel) -> CpuModel {
        let s0 = s;
        let af = s0.regs.reg16(Reg16::AF);
        let afalt = s0.regs.reg16(Reg16::AF_ALT);
        let s1 = s0.set_regs(s0.regs.with_reg16(Reg16::AF, afalt));
        let s2 = s1.set_regs(s1.regs.with_reg16(Reg16::AF_ALT, af));
        let s3 = s2.set_regs(s2.regs.advance_pc(1));
        s3
    }

    #[verifier::spinoff_prover]
    #[verifier::rlimit(80)]
    fn execute(&self, cpu: &mut Cpu) {
        let af: u16 = cpu.read_reg16(Reg16::AF);
        let afalt: u16 = cpu.read_reg16(Reg16::AF_ALT);
        cpu.write_reg16(Reg16::AF, afalt);
        cpu.write_reg16(Reg16::AF_ALT, af);
        cpu.inc_pc(1);
    }

    open spec fn accessed(&self) -> (OutputRegisters, OutputRegisters) {
        (OA | OF | OA_ALT | OF_ALT, OA | OF | OA_ALT | OF_ALT)
    }

    fn get_accessed_regs(&self) -> (regs: (OutputRegisters, OutputRegisters)) {
        (OA | OF | OA_ALT | OF_ALT, OA | OF | OA_ALT | OF_ALT)
    }
}

/// EX (SP), HL: swaps HL with the top of the stack.
#[derive(Clone, Copy)]
pub struct ExMemSpHl;

impl Instruction for ExMemSpHl {
    open spec fn valid(&self) -> bool {
        true
    }

    open spec fn next_state(&self, s: CpuModel) -> CpuModel {
        let s0 = s;
        let sp = s0.regs.reg16(Reg16::SP);
        let hl = s0.regs.reg16(Reg16::HL);
        let hh = hi8(hl);
        let hlo = lo8(hl);
        let lo = s0.mem_at(sp);
        let s1 = s0.after_read(sp, 3);
        let sp1 = wrap16(sp + 1);
        let hi = s1.mem_at(sp1);
        let s2 = s1.after_read(sp1, 3);
        let memval = word(hi, lo);
        let s3 = s2.after_no_mreq(sp1);
        let s4 = s3.set_regs(s3.regs.with_reg16(Reg16::HL, memval));
        let s5 = s4.set_regs(s4.regs.with_reg16(Reg16::WZ, memval));
        let s6 = s5.after_write(sp1, hh);
        let s7 = s6.after_write(sp, hlo);
        let s8 = s7.after_no_mreq(sp);
        let s9 = s8.after_no_mreq(sp);
        let s10 = s9.set_regs(s9.regs.advance_pc(1));
        s10
    }

    #[verifier::spinoff_prover]
    #[verifier::rlimit(100)]
    fn execute(&self, cpu: &mut Cpu) {
        let sp: u16 = cpu.read_reg16(Reg16::SP);
        let hl: u16 = cpu.read_reg16(Reg16::HL);
        let hh: u8 = (hl / 256) as u8;
        let hlo: u8 = (hl % 256) as u8;
        let lo: u8 = cpu.read_word(sp);
        let sp1: u16 = sp.wrapping_add(1);
        let hi: u8 = cpu.read_word(sp1);
        let memval: u16 = (hi as u16) * 256 + lo as u16;
        cpu.contend_read_no_mreq(sp1);
        cpu.write_reg16(Reg16::HL, memval);
        cpu.write_reg16(Reg16::WZ, memval);
        cpu.write_word(sp1, hh);
        cpu.write_word(sp, hlo);
        cpu.contend_write_no_mreq(sp);
        cpu.contend_write_no_mreq(sp);
        cpu.inc_pc(1);
    }

    open spec fn accessed(&self) -> (OutputRegisters, OutputRegisters) {
        (OSP | OH | OL | OWZ, OH | OL | OWZ)
    }

    fn get_accessed_regs(&self) -> (regs: (OutputRegisters, OutputRegisters)) {
        (OSP | OH | OL | OWZ, OH | OL | OWZ)
    }
}

/// EX DE, HL: swaps DE and HL.
#[derive(Clone, Copy)]
pub struct ExDeHl;

impl Instruction for ExDeHl {
    open spec fn valid(&self) -> bool {
        true
    }

    open spec fn next_state(&self, s: CpuModel) -> CpuModel {
        let s0 = s;
        let de = s0.regs.reg16(Reg16::DE);
        let hl = s0.regs.reg16(Reg16::HL);
        let s1 = s0.set_regs(s0.regs.with_reg16(Reg16::DE, hl));
        let s2 = s1.set_regs(s1.regs.with_reg16(Reg16::HL, de));
        let s3 = s2.set_regs(s2.regs.advance_pc(1));
        s3
    }

    #[verifier::spinoff_prover]
    #[verifier::rlimit(80)]
    fn execute(&self, cpu: &mut Cpu) {
        let de: u16 = cpu.read_reg16(Reg16::DE);
        let hl: u16 = cpu.read_reg16(Reg16::HL);
        cpu.write_reg16(Reg16::DE, hl);
        cpu.write_reg16(Reg16::HL, de);
        cpu.inc_pc(1);
    }

    open spec fn accessed(&self) -> (OutputRegisters, OutputRegisters) {
        (OD | OE | OH | OL, OD | OE | OH | OL)
    }

    fn get_accessed_regs(&self) -> (regs: (OutputRegisters, OutputRegisters)) {
        (OD | OE | OH | OL, OD | OE | OH | OL)
    }
}

/// EXX: swaps BC, DE and HL with the alternate set.
#[derive(Clone, Copy)]
pub struct Exx;

impl Instruction for Exx {
    open spec fn valid(&self) -> bool {
        true
    }

    open spec fn next_state(&self, s: CpuModel) -> CpuModel {
        let s0 = s;
        let bc = s0.regs.reg16(Reg16::BC);
        let de = s0.regs.reg16(Reg16::DE);
        let hl = s0.regs.reg16(Reg16::HL);
        let bcalt = s0.regs.reg16(Reg16::BC_ALT);
        let dealt = s0.regs.reg16(Reg16::DE_ALT);
        let hlalt = s0.regs.reg16(Reg16::HL_ALT);
        let s1 = s0.set_regs(s0.regs.with_reg16(Reg16::BC, bcalt));
        let s2 = s1.set_regs(s1.regs.with_reg16(Reg16::DE, dealt));
        let s3 = s2.set_regs(s2.regs.with_reg16(Reg16::HL, hlalt));
        let s4 = s3.set_regs(s3.regs.with_reg16(Reg16::BC_ALT, bc));
        let s5 = s4.set_regs(s4.regs.with_reg16(Reg16::DE_ALT, de));
        let s6 = s5.set_regs(s5.regs.with_reg16(Reg16::HL_ALT, hl));
        let s7 = s6.set_regs(s6.regs.advance_pc(1));
        s7
    }

    #[verifier::spinoff_prover]
    #[verifier::rlimit(80)]
    fn execute(&self, cpu: &mut Cpu) {
        let bc: u16 = cpu.read_reg16(Reg16::BC);
        let de: u16 = cpu.read_reg16(Reg16::DE);
        let hl: u16 = cpu.read_reg16(Reg16::HL);
        let bcalt: u16 = cpu.read_reg16(Reg16::BC_ALT);
        let dealt: u16 = cpu.read_reg16(Reg16::DE_ALT);
        let hlalt: u16 = cpu.read_reg16(Reg16::HL_ALT);
        cpu.write_reg16(Reg16::BC, bcalt);
        cpu.write_reg16(Reg16::DE, dealt);
        cpu.write_reg16(Reg16::HL, hlalt);
        cpu.write_reg16(Reg16::BC_ALT, bc);
        cpu.write_reg16(Reg16::DE_ALT, de);
        cpu.write_reg16(Reg16::HL_ALT, hl);
        cpu.inc_pc(1);
    }

    open spec fn accessed(&self) -> (OutputRegisters, OutputRegisters) {
        (OB | OC | OD | OE | OH | OL | OB_ALT | OC_ALT | OD_ALT | OE_ALT | OH_ALT | OL_ALT, OB | OC | OD | OE | OH | OL | OB_ALT | OC_ALT | OD_ALT | OE_ALT | OH_ALT | OL_ALT)
    }

    fn get_accessed_regs(&self) -> (regs: (OutputRegisters, OutputRegisters)) {
        (OB | OC | OD | OE | OH | OL | OB_ALT | OC_ALT | OD_ALT | OE_ALT | OH_ALT | OL_ALT, OB | OC | OD | OE | OH | OL | OB_ALT | OC_ALT | OD_ALT | OE_ALT | OH_ALT | OL_ALT)
    }
}

/// HALT: the processor halts; the PC stays on the instruction.
#[derive(Clone, Copy)]
pub struct Halt;

impl Instruction for Halt {
    open spec fn valid(&self) -> bool {
        true
    }

    open spec fn next_state(&self, s: CpuModel) -> CpuModel {
        let s0 = s;
        let s1 = s0.set_regs(Regs { halted: true, ..s0.regs });
        s1
    }

    #[verifier::spinoff_prover]
    #[verifier::rlimit(80)]
    fn execute(&self, cpu: &mut Cpu) {
        cpu.halt();
    }

    open spec fn accessed(&self) -> (OutputRegisters, OutputRegisters) {
        (ONONE, ONONE)
    }

    fn get_accessed_regs(&self) -> (regs: (OutputRegisters, OutputRegisters)) {
        (ONONE, ONONE)
    }
}

/// IN A, (n): reads the port whose low byte is n and high byte A.
#[derive(Clone, Copy)]
pub struct InAPortN;

impl Instruction for InAPortN {
    open spec fn valid(&self) -> bool {
        true
    }

    open spec fn next_state(&self, s: CpuModel) -> CpuModel {
        let s0 = s;
        let pc = s0.regs.pc;
        let a = s0.regs.reg8(Reg8::A);
        let pc1 = wrap16(pc + 1);
        let n = s0.mem_at(pc1);
        let s1 = s0.after_read(pc1, 3);
        let port = word(a, n);
        let v = s1.bus.read_port(port);
        let s2 = s1.after_port_read(port);
        let s3 = s2.set_regs(s2.regs.with_reg8(Reg8::A, v));
        let s4 = s3.set_regs(s3.regs.advance_pc(2));
        s4
    }

    #[verifier::spinoff_prover]
    #[verifier::rlimit(80)]
    fn execute(&self, cpu: &mut Cpu) {
        let pc: u16 = cpu.get_pc();
        let a: u8 = cpu.read_reg8(Reg8::A);
        let pc1: u16 = pc.wrapping_add(1);
        let n: u8 = cpu.read_word(pc1);
        let port: u16 = (a as u16) * 256 + n as u16;
        let v: u8 = cpu.read_port(port);
        cpu.write_reg8(Reg8::A, v);
        cpu.inc_pc(2);
    }

    open spec fn accessed(&self) -> (OutputRegisters, OutputRegisters) {
        (OA, OA)
    }

    fn get_accessed_regs(&self) -> (regs: (OutputRegisters, OutputRegisters)) {
        (OA, OA)
    }
}

/// OUT (n), A: writes A to the port whose low byte is n and high byte A.
#[derive(Clone, Copy)]
pub struct OutPortNA;

impl Instruction for OutPortNA {
    open spec fn valid(&self) -> bool {
        true
    }

    open spec fn next_state(&self, s: CpuModel) -> CpuModel {
        let s0 = s;
        let pc = s0.regs.pc;
        let a = s0.regs.reg8(Reg8::A);
        let pc1 = wrap16(pc + 1);
        let n = s0.mem_at(pc1);
        let s1 = s0.after_read(pc1, 3);
        let port = word(a, n);
        let s2 = s1.after_port_write(port, a);
        let s3 = s2.set_regs(s2.regs.advance_pc(2));
        s3
    }

    #[verifier::spinoff_prover]
    #[verifier::rlimit(80)]
    fn execute(&self, cpu: &mut Cpu) {
        let pc: u16 = cpu.get_pc();
        let a: u8 = cpu.read_reg8(Reg8::A);
        let pc1: u16 = pc.wrapping_add(1);
        let n: u8 = cpu.read_word(pc1);
        let port: u16 = (a as u16) * 256 + n as u16;
        cpu.write_port(port, a);
        cpu.inc_pc(2);
    }

    open spec fn accessed(&self) -> (OutputRegisters, OutputRegisters) {
        (OA, ONONE)
    }

    fn get_accessed_regs(&self) -> (regs: (OutputRegisters, OutputRegisters)) {
        (OA, ONONE)
    }
}

/// JP (HL): jumps to the address in HL.
#[derive(Clone, Copy)]
pub struct JpMemHl;

impl Instruction for JpMemHl {
    open spec fn valid(&self) -> bool {
        true
    }

    open spec fn next_state(&self, s: CpuModel) -> CpuModel {
        let s0 = s;
        let hl = s0.regs.reg16(Reg16::HL);
        let s1 = s0.set_regs(s0.regs.with_pc(hl));
        s1
    }

    #[verifier::spinoff_prover]
    #[verifier::rlimit(80)]
    fn execute(&self, cpu: &mut Cpu) {
        let hl: u16 = cpu.read_reg16(Reg16::HL);
        cpu.set_pc(hl);
    }

    open spec fn accessed(&self) -> (OutputRegisters, OutputRegisters) {
        (OH | OL, ONONE)
    }

    fn get_accessed_regs(&self) -> (regs: (OutputRegisters, OutputRegisters)) {
        (OH | OL, ONONE)
    }
}

/// JP nn: jumps.
#[derive(Clone, Copy)]
pub struct JpNn;

impl Instruction for JpNn {
    open spec fn valid(&self) -> bool {
        true
    }

    open spec fn next_state(&self, s: CpuModel) -> CpuModel {
        let s0 = s;
        let pc = s0.regs.pc;
        let pc1 = wrap16(pc + 1);
        let lo = s0.mem_at(pc1);
        let s1 = s0.after_read(pc1, 3);
        let pc2 = wrap16(pc + 2);
        let hi = s1.mem_at(pc2);
        let s2 = s1.after_read(pc2, 3);
        let nn = word(hi, lo);
        let s3 = s2.set_regs(s2.regs.with_pc(nn));
        let s4 = s3.set_regs(s3.regs.with_reg16(Reg16::WZ, nn));
        s4
    }

    #[verifier::spinoff_prover]
    #[verifier::rlimit(80)]
    fn execute(&self, cpu: &mut Cpu) {
        let pc: u16 = cpu.get_pc();
        let pc1: u16 = pc.wrapping_add(1);
        let lo: u8 = cpu.read_word(pc1);
        let pc2: u16 = pc.wrapping_add(2);
        let hi: u8 = cpu.read_word(pc2);
        let nn: u16 = (hi as u16) * 256 + lo as u16;
        cpu.set_pc(nn);
        cpu.write_reg16(Reg16::WZ, nn);
    }

    open spec fn accessed(&self) -> (OutputRegisters, OutputRegisters) {
        (OWZ, OWZ)
    }

    fn get_accessed_regs(&self) -> (regs: (OutputRegisters, OutputRegisters)) {
        (OWZ, OWZ)
    }
}

/// JP cc, nn: jump taken when the condition holds.
#[derive(Clone, Copy)]
pub struct JpCcNn {
    pub cond: FlagCond,
}

impl Instruction for JpCcNn {
    open spec fn valid(&self) -> bool {
        true
    }

    open spec fn next_state(&self, s: CpuModel) -> CpuModel {
        let s0 = s;
        let pc = s0.regs.pc;
        let cc = s0.regs.cond(self.cond);
        let s5 = if cc {
            let pc1 = wrap16(pc + 1);
            let lo = s0.mem_at(pc1);
            let s1 = s0.after_read(pc1, 3);
            let pc2 = wrap16(pc + 2);
            let hi = s1.mem_at(pc2);
            let s2 = s1.after_read(pc2, 3);
            let nn = word(hi, lo);
            let s3 = s2.set_regs(s2.regs.with_pc(nn));
            let s4 = s3.set_regs(s3.regs.with_reg16(Reg16::WZ, nn));
                s4
        } else {
            let pc1 = wrap16(pc + 1);
            let s1 = s0.after_read(pc1, 3);
            let pc2 = wrap16(pc + 2);
            let s2 = s1.after_read(pc2, 3);
            let s3 = s2.set_regs(s2.regs.advance_pc(3));
                s3
        };
        s5
    }

    #[verifier::spinoff_prover]
    #[verifier::rlimit(80)]
    fn execute(&self, cpu: &mut Cpu) {
        let pc: u16 = cpu.get_pc();
        let cc: bool = cpu.check_cond(self.cond);
        if cc {
            let pc1: u16 = pc.wrapping_add(1);
            let lo: u8 = cpu.read_word(pc1);
            let pc2: u16 = pc.wrapping_add(2);
            let hi: u8 = cpu.read_word(pc2);
            let nn: u16 = (hi as u16) * 256 + lo as u16;
            cpu.set_pc(nn);
            cpu.write_reg16(Reg16::WZ, nn);
        } else {
            let pc1: u16 = pc.wrapping_add(1);
            cpu.contend_read(pc1, 3);
            let pc2: u16 = pc.wrapping_add(2);
            cpu.contend_read(pc2, 3);
            cpu.inc_pc(3);
        }
    }

    open spec fn accessed(&self) -> (OutputRegisters, OutputRegisters) {
        (OF | OWZ, OWZ)
    }

    fn get_accessed_regs(&self) -> (regs: (OutputRegisters, OutputRegisters)) {
        (OF | OWZ, OWZ)
    }
}

/// LD (BC), A: stores A.
#[derive(Clone, Copy)]
pub struct LdMemBcA;

impl Instruction for LdMemBcA {
    open spec fn valid(&self) -> bool {
        true
    }

    open spec fn next_state(&self, s: CpuModel) -> CpuModel {
        let s0 = s;
        let bc = s0.regs.reg16(Reg16::BC);
        let a = s0.regs.reg8(Reg8::A);
        let s1 = s0.after_write(bc, a);
        let next = wrap16(bc + 1);
        let wz = word(a, lo8(next));
        let s2 = s1.set_regs(s1.regs.with_reg16(Reg16::WZ, wz));
        let s3 = s2.set_regs(s2.regs.advance_pc(1));
        s3
    }

    #[verifier::spinoff_prover]
    #[verifier::rlimit(80)]
    fn execute(&self, cpu: &mut Cpu) {
        let bc: u16 = cpu.read_reg16(Reg16::BC);
        let a: u8 = cpu.read_reg8(Reg8::A);
        cpu.write_word(bc, a);
        let next: u16 = bc.wrapping_add(1);
        let wz: u16 = (a as u16) * 256 + next % 256;
        cpu.write_reg16(Reg16::WZ, wz);
        cpu.inc_pc(1);
    }

    open spec fn accessed(&self) -> (OutputRegisters, OutputRegisters) {
        (OA | OB | OC | OWZ, OWZ)
    }

    fn get_accessed_regs(&self) -> (regs: (OutputRegisters, OutputRegisters)) {
        (OA | OB | OC | OWZ, OWZ)
    }
}

/// LD (DE), A: stores A.
#[derive(Clone, Copy)]
pub struct LdMemDeA;

impl Instruction for LdMemDeA {
    open spec fn valid(&self) -> bool {
        true
    }

    open spec fn next_state(&self, s: CpuModel) -> CpuModel {
        let s0 = s;
        let de = s0.regs.reg16(Reg16::DE);
        let a = s0.regs.reg8(Reg8::A);
        let s1 = s0.after_write(de, a);
        let next = wrap16(de + 1);
        let wz = word(a, lo8(next));
        let s2 = s1.set_regs(s1.regs.with_reg16(Reg16::WZ, wz));
        let s3 = s2.set_regs(s2.regs.advance_pc(1));
        s3
    }

    #[verifier::spinoff_prover]
    #[verifier::rlimit(80)]
    fn execute(&self, cpu: &mut Cpu) {
        let de: u16 = cpu.read_reg16(Reg16::DE);
        let a: u8 = cpu.read_reg8(Reg8::A);
        cpu.write_word(de, a);
        let next: u16 = de.wrapping_add(1);
        let wz: u16 = (a as u16) * 256 + next % 256;
        cpu.write_reg16(Reg16::WZ, wz);
        cpu.inc_pc(1);
    }

    open spec fn accessed(&self) -> (OutputRegisters, OutputRegisters) {
        (OA | OD | OE | OWZ, OWZ)
    }

    fn get_accessed_regs(&self) -> (regs: (OutputRegisters, OutputRegisters)) {
        (OA | OD | OE | OWZ, OWZ)
    }
}

/// LD A, (BC): loads A.
#[derive(Clone, Copy)]
pub struct LdAMemBc;

impl Instruction for LdAMemBc {
    open spec fn valid(&self) -> bool {
        true
    }

    open spec fn next_state(&self, s: CpuModel) -> CpuModel {
        let s0 = s;
        let bc = s0.regs.reg16(Reg16::BC);
        let v = s0.mem_at(bc);
        let s1 = s0.after_read(bc, 3);
        let s2 = s1.set_regs(s1.regs.with_reg8(Reg8::A, v));
        let next = wrap16(bc + 1);
        let s3 = s2.set_regs(s2.regs.with_reg16(Reg16::WZ, next));
        let s4 = s3.set_regs(s3.regs.advance_pc(1));
        s4
    }

    #[verifier::spinoff_prover]
    #[verifier::rlimit(80)]
    fn execute(&self, cpu: &mut Cpu) {
        let bc: u16 = cpu.read_reg16(Reg16::BC);
        let v: u8 = cpu.read_word(bc);
        cpu.write_reg8(Reg8::A, v);
        let next: u16 = bc.wrapping_add(1);
        cpu.write_reg16(Reg16::WZ, next);
        cpu.inc_pc(1);
    }

    open spec fn accessed(&self) -> (OutputRegisters, OutputRegisters) {
        (OA | OB | OC | OWZ, OA | OWZ)
    }

    fn get_accessed_regs(&self) -> (regs: (OutputRegisters, OutputRegisters)) {
        (OA | OB | OC | OWZ, OA | OWZ)
    }
}

/// LD A, (DE): loads A.
#[derive(Clone, Copy)]
pub struct LdAMemDe;

impl Instruction for LdAMemDe {
    open spec fn valid(&self) -> bool {
        true
    }

    open spec fn next_state(&self, s: CpuModel) -> CpuModel {
        let s0 = s;
        let de = s0.regs.reg16(Reg16::DE);
        let v = s0.mem_at(de);
        let s1 = s0.after_read(de, 3);
        let s2 = s1.set_regs(s1.regs.with_reg8(Reg8::A, v));
        let next = wrap16(de + 1);
        let s3 = s2.set_regs(s2.regs.with_reg16(Reg16::WZ, next));
        let s4 = s3.set_regs(s3.regs.advance_pc(1));
        s4
    }

    #[verifier::spinoff_prover]
    #[verifier::rlimit(80)]
    fn execute(&self, cpu: &mut Cpu) {
        let de: u16 = cpu.read_reg16(Reg16::DE);
        let v: u8 = cpu.read_word(de);
        cpu.write_reg8(Reg8::A, v);
        let next: u16 = de.wrapping_add(1);
        cpu.write_reg16(Reg16::WZ, next);
        cpu.inc_pc(1);
    }

    open spec fn accessed(&self) -> (OutputRegisters, OutputRegisters) {
        (OA | OD | OE | OWZ, OA | OWZ)
    }

    fn get_accessed_regs(&self) -> (regs: (OutputRegisters, OutputRegisters)) {
        (OA | OD | OE | OWZ, OA | OWZ)
    }
}

/// LD (HL), n: stores an immediate byte at HL.
#[derive(Clone, Copy)]
pub struct LdMemHlN;

impl Instruction for LdMemHlN {
    open spec fn valid(&self) -> bool {
        true
    }

    open spec fn next_state(&self, s: CpuModel) -> CpuModel {
        let s0 = s;
        let pc = s0.regs.pc;
        let hl = s0.regs.reg16(Reg16::HL);
        let pc1 = wrap16(pc + 1);
        let n = s0.mem_at(pc1);
        let s1 = s0.after_read(pc1, 3);
        let s2 = s1.after_write(hl, n);
        let s3 = s2.set_regs(s2.regs.advance_pc(2));
        s3
    }

    #[verifier::spinoff_prover]
    #[verifier::rlimit(80)]
    fn execute(&self, cpu: &mut Cpu) {
        let pc: u16 = cpu.get_pc();
        let hl: u16 = cpu.read_reg16(Reg16::HL);
        let pc1: u16 = pc.wrapping_add(1);
        let n: u8 = cpu.read_word(pc1);
        cpu.write_word(hl, n);
        cpu.inc_pc(2);
    }

    open spec fn accessed(&self) -> (OutputRegisters, OutputRegisters) {
        (OH | OL, ONONE)
    }

    fn get_accessed_regs(&self) -> (regs: (OutputRegisters, OutputRegisters)) {
        (OH | OL, ONONE)
    }
}

/// LD (HL), r: stores a register at HL.
#[derive(Clone, Copy)]
pub struct LdMemHlR {
    pub r: Reg8,
}

impl Instruction for LdMemHlR {
    open spec fn valid(&self) -> bool {
        true
    }

    open spec fn next_state(&self, s: CpuModel) -> CpuModel {
        let s0 = s;
        let hl = s0.regs.reg16(Reg16::HL);
        let v = s0.regs.reg8(self.r);
        let s1 = s0.after_write(hl, v);
        let s2 = s1.set_regs(s1.regs.advance_pc(1));
        s2
    }

    #[verifier::spinoff_prover]
    #[verifier::rlimit(80)]
    fn execute(&self, cpu: &mut Cpu) {
        let hl: u16 = cpu.read_reg16(Reg16::HL);
        let v: u8 = cpu.read_reg8(self.r);
        cpu.write_word(hl, v);
        cpu.inc_pc(1);
    }

    open spec fn accessed(&self) -> (OutputRegisters, OutputRegisters) {
        (OH | OL | output_registers_from_reg8(self.r), ONONE)
    }

    fn get_accessed_regs(&self) -> (regs: (OutputRegisters, OutputRegisters)) {
        (OH | OL | output_registers_from_reg8(self.r), ONONE)
    }
}

/// LD (nn), A: stores A at an immediate address.
#[derive(Clone, Copy)]
pub struct LdMemNnA;

impl Instruction for LdMemNnA {
    open spec fn valid(&self) -> bool {
        true
    }

    open spec fn next_state(&self, s: CpuModel) -> CpuModel {
        let s0 = s;
        let pc = s0.regs.pc;
        let a = s0.regs.reg8(Reg8::A);
        let pc1 = wrap16(pc + 1);
        let lo = s0.mem_at(pc1);
        let s1 = s0.after_read(pc1, 3);
        let pc2 = wrap16(pc + 2);
        let hi = s1.mem_at(pc2);
        let s2 = s1.after_read(pc2, 3);
        let nn = word(hi, lo);
        let s3 = s2.after_write(nn, a);
        let next = wrap16(nn + 1);
        let wz = word(a, lo8(next));
        let s4 = s3.set_regs(s3.regs.with_reg16(Reg16::WZ, wz));
        let s5 = s4.set_regs(s4.regs.advance_pc(3));
        s5
    }

    #[verifier::spinoff_prover]
    #[verifier::rlimit(100)]
    fn execute(&self, cpu: &mut Cpu) {
        let pc: u16 = cpu.get_pc();
        let a: u8 = cpu.read_reg8(Reg8::A);
        let pc1: u16 = pc.wrapping_add(1);
        let lo: u8 = cpu.read_word(pc1);
        let pc2: u16 = pc.wrapping_add(2);
        let hi: u8 = cpu.read_word(pc2);
        let nn: u16 = (hi as u16) * 256 + lo as u16;
        cpu.write_word(nn, a);
        let next: u16 = nn.wrapping_add(1);
        let wz: u16 = (a as u16) * 256 + next % 256;
        cpu.write_reg16(Reg16::WZ, wz);
        cpu.inc_pc(3);
    }

    open spec fn accessed(&self) -> (OutputRegisters, OutputRegisters) {
        (OA | OWZ, OWZ)
    }

    fn get_accessed_regs(&self) -> (regs: (OutputRegisters, OutputRegisters)) {
        (OA | OWZ, OWZ)
    }
}

/// LD (nn), HL: stores HL at an immediate address, low byte first.
#[derive(Clone, Copy)]
pub struct LdMemNnHl;

impl Instruction for LdMemNnHl {
    open spec fn valid(&self) -> bool {
        true
    }

    open spec fn next_state(&self, s: CpuModel) -> CpuModel {
        let s0 = s;
        let pc = s0.regs.pc;
        let hl = s0.regs.reg16(Reg16::HL);
        let hh = hi8(hl);
        let hlo = lo8(hl);
        let pc1 = wrap16(pc + 1);
        let lo = s0.mem_at(pc1);
        let s1 = s0.after_read(pc1, 3);
        let pc2 = wrap16(pc + 2);
        let hi = s1.mem_at(pc2);
        let s2 = s1.after_read(pc2, 3);
        let nn = word(hi, lo);
        let s3 = s2.after_write(nn, hlo);
        let nn1 = wrap16(nn + 1);
        let s4 = s3.after_write(nn1, hh);
        let s5 = s4.set_regs(s4.regs.advance_pc(3));
        s5
    }

    #[verifier::spinoff_prover]
    #[verifier::rlimit(100)]
    fn execute(&self, cpu: &mut Cpu) {
        let pc: u16 = cpu.get_pc();
        let hl: u16 = cpu.read_reg16(Reg16::HL);
        let hh: u8 = (hl / 256) as u8;
        let hlo: u8 = (hl % 256) as u8;
        let pc1: u16 = pc.wrapping_add(1);
        let lo: u8 = cpu.read_word(pc1);
        let pc2: u16 = pc.wrapping_add(2);
        let hi: u8 = cpu.read_word(pc2);
        let nn: u16 = (hi as u16) * 256 + lo as u16;
        cpu.write_word(nn, hlo);
        let nn1: u16 = nn.wrapping_add(1);
        cpu.write_word(nn1, hh);
        cpu.inc_pc(3);
    }

    open spec fn accessed(&self) -> (OutputRegisters, OutputRegisters) {
        (OH | OL, ONONE)
    }

    fn get_accessed_regs(&self) -> (regs: (OutputRegisters, OutputRegisters)) {
        (OH | OL, ONONE)
    }
}

/// LD A, (nn): loads A from an immediate address.
#[derive(Clone, Copy)]
pub struct LdAMemNn;

impl Instruction for LdAMemNn {
    open spec fn valid(&self) -> bool {
        true
    }

    open spec fn next_state(&self, s: CpuModel) -> CpuModel {
        let s0 = s;
        let pc = s0.regs.pc;
        let pc1 = wrap16(pc + 1);
        let lo = s0.mem_at(pc1);
        let s1 = s0.after_read(pc1, 3);
        let pc2 = wrap16(pc + 2);
        let hi = s1.mem_at(pc2);
        let s2 = s1.after_read(pc2, 3);
        let nn = word(hi, lo);
        let v = s2.mem_at(nn);
        let s3 = s2.after_read(nn, 3);
        let s4 = s3.set_regs(s3.regs.with_reg8(Reg8::A, v));
        let next = wrap16(nn + 1);
        let s5 = s4.set_regs(s4.regs.with_reg16(Reg16::WZ, next));
        let s6 = s5.set_regs(s5.regs.advance_pc(3));
        s6
    }

    #[verifier::spinoff_prover]
    #[verifier::rlimit(80)]
    fn execute(&self, cpu: &mut Cpu) {
        let pc: u16 = cpu.get_pc();
        let pc1: u16 = pc.wrapping_add(1);
        let lo: u8 = cpu.read_word(pc1);
        let pc2: u16 = pc.wrapping_add(2);
        let hi: u8 = cpu.read_word(pc2);
        let nn: u16 = (hi as u16) * 256 + lo as u16;
        let v: u8 = cpu.read_word(nn);
        cpu.write_reg8(Reg8::A, v);
        let next: u16 = nn.wrapping_add(1);
        cpu.write_reg16(Reg16::WZ, next);
        cpu.inc_pc(3);
    }

    open spec fn accessed(&self) -> (OutputRegisters, OutputRegisters) {
        (OA | OWZ, OA | OWZ)
    }

    fn get_accessed_regs(&self) -> (regs: (OutputRegisters, OutputRegisters)) {
        (OA | OWZ, OA | OWZ)
    }
}

/// LD dd, nn: loads a 16-bit register with an immediate word.
#[derive(Clone, Copy)]
pub struct LdDdNn {
    pub r: Reg16,
}

impl Instruction for LdDdNn {
    open spec fn valid(&self) -> bool {
        true
    }

    open spec fn next_state(&self, s: CpuModel) -> CpuModel {
        let s0 = s;
        let pc = s0.regs.pc;
        let pc1 = wrap16(pc + 1);
        let lo = s0.mem_at(pc1);
        let s1 = s0.after_read(pc1, 3);
        let pc2 = wrap16(pc + 2);
        let hi = s1.mem_at(pc2);
        let s2 = s1.after_read(pc2, 3);
        let nn = word(hi, lo);
        let s3 = s2.set_regs(s2.regs.with_reg16(self.r, nn));
        let s4 = s3.set_regs(s3.regs.advance_pc(3));
        s4
    }

    #[verifier::spinoff_prover]
    #[verifier::rlimit(80)]
    fn execute(&self, cpu: &mut Cpu) {
        let pc: u16 = cpu.get_pc();
        let pc1: u16 = pc.wrapping_add(1);
        let lo: u8 = cpu.read_word(pc1);
        let pc2: u16 = pc.wrapping_add(2);
        let hi: u8 = cpu.read_word(pc2);
        let nn: u16 = (hi as u16) * 256 + lo as u16;
        cpu.write_reg16(self.r, nn);
        cpu.inc_pc(3);
    }

    open spec fn accessed(&self) -> (OutputRegisters, OutputRegisters) {
        (output_registers_from_reg16(self.r), output_registers_from_reg16(self.r))
    }

    fn get_accessed_regs(&self) -> (regs: (OutputRegisters, OutputRegisters)) {
        (output_registers_from_reg16(self.r), output_registers_from_reg16(self.r))
    }
}

/// LD r, n: loads a register with an immediate byte.
#[derive(Clone, Copy)]
pub struct LdRN {
    pub r: Reg8,
}

impl Instruction for LdRN {
    open spec fn valid(&self) -> bool {
        true
    }

    open spec fn next_state(&self, s: CpuModel) -> CpuModel {
        let s0 = s;
        let pc = s0.regs.pc;
        let pc1 = wrap16(pc + 1);
        let n = s0.mem_at(pc1);
        let s1 = s0.after_read(pc1, 3);
        let s2 = s1.set_regs(s1.regs.with_reg8(self.r, n));
        let s3 = s2.set_regs(s2.regs.advance_pc(2));
        s3
    }

    #[verifier::spinoff_prover]
    #[verifier::rlimit(80)]
    fn execute(&self, cpu: &mut Cpu) {
        let pc: u16 = cpu.get_pc();
        let pc1: u16 = pc.wrapping_add(1);
        let n: u8 = cpu.read_word(pc1);
        cpu.write_reg8(self.r, n);
        cpu.inc_pc(2);
    }

    open spec fn accessed(&self) -> (OutputRegisters, OutputRegisters) {
        (output_registers_from_reg8(self.r), output_registers_from_reg8(self.r))
    }

    fn get_accessed_regs(&self) -> (regs: (OutputRegisters, OutputRegisters)) {
        (output_registers_from_reg8(self.r), output_registers_from_reg8(self.r))
    }
}

/// LD HL, (nn): loads HL from an immediate address.
#[derive(Clone, Copy)]
pub struct LdHlMemNn;

impl Instruction for LdHlMemNn {
    open spec fn valid(&self) -> bool {
        true
    }

    open spec fn next_state(&self, s: CpuModel) -> CpuModel {
        let s0 = s;
        let pc = s0.regs.pc;
        let pc1 = wrap16(pc + 1);
        let lo = s0.mem_at(pc1);
        let s1 = s0.after_read(pc1, 3);
        let pc2 = wrap16(pc + 2);
        let hi = s1.mem_at(pc2);
        let s2 = s1.after_read(pc2, 3);
        let nn = word(hi, lo);
        let lo2 = s2.mem_at(nn);
        let s3 = s2.after_read(nn, 3);
        let nn1 = wrap16(nn + 1);
        let hi2 = s3.mem_at(nn1);
        let s4 = s3.after_read(nn1, 3);
        let v = word(hi2, lo2);
        let s5 = s4.set_regs(s4.regs.with_reg16(Reg16::HL, v));
        let s6 = s5.set_regs(s5.regs.advance_pc(3));
        s6
    }

    #[verifier::spinoff_prover]
    #[verifier::rlimit(100)]
    fn execute(&self, cpu: &mut Cpu) {
        let pc: u16 = cpu.get_pc();
        let pc1: u16 = pc.wrapping_add(1);
        let lo: u8 = cpu.read_word(pc1);
        let pc2: u16 = pc.wrapping_add(2);
        let hi: u8 = cpu.read_word(pc2);
        let nn: u16 = (hi as u16) * 256 + lo as u16;
        let lo2: u8 = cpu.read_word(nn);
        let nn1: u16 = nn.wrapping_add(1);
        let hi2: u8 = cpu.read_word(nn1);
        let v: u16 = (hi2 as u16) * 256 + lo2 as u16;
        cpu.write_reg16(Reg16::HL, v);
        cpu.inc_pc(3);
    }

    open spec fn accessed(&self) -> (OutputRegisters, OutputRegisters) {
        (OH | OL, OH | OL)
    }

    fn get_accessed_regs(&self) -> (regs: (OutputRegisters, OutputRegisters)) {
        (OH | OL, OH | OL)
    }
}

/// LD SP, HL: copies HL into SP.
#[derive(Clone, Copy)]
pub struct LdSpHl;

impl Instruction for LdSpHl {
    open spec fn valid(&self) -> bool {
        true
    }

    open spec fn next_state(&self, s: CpuModel) -> CpuModel {
        let s0 = s;
        let hl = s0.regs.reg16(Reg16::HL);
        let ir = s0.regs.reg16(Reg16::IR);
        let s1 = s0.after_no_mreq(ir);
        let s2 = s1.after_no_mreq(ir);
        let s3 = s2.set_regs(s2.regs.with_reg16(Reg16::SP, hl));
        let s4 = s3.set_regs(s3.regs.advance_pc(1));
        s4
    }

    #[verifier::spinoff_prover]
    #[verifier::rlimit(80)]
    fn execute(&self, cpu: &mut Cpu) {
        let hl: u16 = cpu.read_reg16(Reg16::HL);
        let ir: u16 = cpu.read_reg16(Reg16::IR);
        cpu.contend_read_no_mreq(ir);
        cpu.contend_read_no_mreq(ir);
        cpu.write_reg16(Reg16::SP, hl);
        cpu.inc_pc(1);
    }

    open spec fn accessed(&self) -> (OutputRegisters, OutputRegisters) {
        (OSP | OH | OL, OSP)
    }

    fn get_accessed_regs(&self) -> (regs: (OutputRegisters, OutputRegisters)) {
        (OSP | OH | OL, OSP)
    }
}

/// LD r, r': copies one register into another.
#[derive(Clone, Copy)]
pub struct LdRR {
    pub rt: Reg8,
    pub rs: Reg8,
}

impl Instruction for LdRR {
    open spec fn valid(&self) -> bool {
        true
    }

    open spec fn next_state(&self, s: CpuModel) -> CpuModel {
        let s0 = s;
        let v = s0.regs.reg8(self.rs);
        let s1 = s0.set_regs(s0.regs.with_reg8(self.rt, v));
        let s2 = s1.set_regs(s1.regs.advance_pc(1));
        s2
    }

    #[verifier::spinoff_prover]
    #[verifier::rlimit(80)]
    fn execute(&self, cpu: &mut Cpu) {
        let v: u8 = cpu.read_reg8(self.rs);
        cpu.write_reg8(self.rt, v);
        cpu.inc_pc(1);
    }

    open spec fn accessed(&self) -> (OutputRegisters, OutputRegisters) {
        (output_registers_from_reg8(self.rt) | output_registers_from_reg8(self.rs), output_registers_from_reg8(self.rt) | output_registers_from_reg8(self.rt))
    }

    fn get_accessed_regs(&self) -> (regs: (OutputRegisters, OutputRegisters)) {
        (output_registers_from_reg8(self.rt) | output_registers_from_reg8(self.rs), output_registers_from_reg8(self.rt) | output_registers_from_reg8(self.rt))
    }
}

/// LD r, (HL): loads a register from HL.
#[derive(Clone, Copy)]
pub struct LdRMemHl {
    pub r: Reg8,
}

impl Instruction for LdRMemHl {
    open spec fn valid(&self) -> bool {
        true
    }

    open spec fn next_state(&self, s: CpuModel) -> CpuModel {
        let s0 = s;
        let hl = s0.regs.reg16(Reg16::HL);
        let v = s0.mem_at(hl);
        let s1 = s0.after_read(hl, 3);
        let s2 = s1.set_regs(s1.regs.with_reg8(self.r, v));
        let s3 = s2.set_regs(s2.regs.advance_pc(1));
        s3
    }

    #[verifier::spinoff_prover]
    #[verifier::rlimit(80)]
    fn execute(&self, cpu: &mut Cpu) {
        let hl: u16 = cpu.read_reg16(Reg16::HL);
        let v: u8 = cpu.read_word(hl);
        cpu.write_reg8(self.r, v);
        cpu.inc_pc(1);
    }

    open spec fn accessed(&self) -> (OutputRegisters, OutputRegisters) {
        (OH | OL | output_registers_from_reg8(self.r), output_registers_from_reg8(self.r))
    }

    fn get_accessed_regs(&self) -> (regs: (OutputRegisters, OutputRegisters)) {
        (OH | OL | output_registers_from_reg8(self.r), output_registers_from_reg8(self.r))
    }
}

/// POP qq: pops a 16-bit register.
#[derive(Clone, Copy)]
pub struct PopQq {
    pub r: Reg16,
}

impl Instruction for PopQq {
    open spec fn valid(&self) -> bool {
        true
    }

    open spec fn next_state(&self, s: CpuModel) -> CpuModel {
        let s0 = s;
        let sp = s0.regs.reg16(Reg16::SP);
        let lo = s0.mem_at(sp);
        let s1 = s0.after_read(sp, 3);
        let sp1 = wrap16(sp + 1);
        let hi = s1.mem_at(sp1);
        let s2 = s1.after_read(sp1, 3);
        let v = word(hi, lo);
        let s3 = s2.set_regs(s2.regs.with_reg16(self.r, v));
        let sp2 = wrap16(sp + 2);
        let s4 = s3.set_regs(s3.regs.with_reg16(Reg16::SP, sp2));
        let s5 = s4.set_regs(s4.regs.advance_pc(1));
        s5
    }

    #[verifier::spinoff_prover]
    #[verifier::rlimit(80)]
    fn execute(&self, cpu: &mut Cpu) {
        let sp: u16 = cpu.read_reg16(Reg16::SP);
        let lo: u8 = cpu.read_word(sp);
        let sp1: u16 = sp.wrapping_add(1);
        let hi: u8 = cpu.read_word(sp1);
        let v: u16 = (hi as u16) * 256 + lo as u16;
        cpu.write_reg16(self.r, v);
        let sp2: u16 = sp.wrapping_add(2);
        cpu.write_reg16(Reg16::SP, sp2);
        cpu.inc_pc(1);
    }

    open spec fn accessed(&self) -> (OutputRegisters, OutputRegisters) {
        (OSP | output_registers_from_reg16(self.r), OSP | output_registers_from_reg16(self.r))
    }

    fn get_accessed_regs(&self) -> (regs: (OutputRegisters, OutputRegisters)) {
        (OSP | output_registers_from_reg16(self.r), OSP | output_registers_from_reg16(self.r))
    }
}

/// PUSH qq: pushes a 16-bit register, high byte first.
#[derive(Clone, Copy)]
pub struct PushQq {
    pub r: Reg16,
}

impl Instruction for PushQq {
    open spec fn valid(&self) -> bool {
        true
    }

    open spec fn next_state(&self, s: CpuModel) -> CpuModel {
        let s0 = s;
        let sp = s0.regs.reg16(Reg16::SP);
        let v = s0.regs.reg16(self.r);
        let ir = s0.regs.reg16(Reg16::IR);
        let s1 = s0.after_no_mreq(ir);
        let vh = hi8(v);
        let vl = lo8(v);
        let sp1 = wrap16(sp - 1);
        let s2 = s1.after_write(sp1, vh);
        let sp2 = wrap16(sp - 2);
        let s3 = s2.after_write(sp2, vl);
        let s4 = s3.set_regs(s3.regs.with_reg16(Reg16::SP, sp2));
        let s5 = s4.set_regs(s4.regs.advance_pc(1));
        s5
    }

    #[verifier::spinoff_prover]
    #[verifier::rlimit(80)]
    fn execute(&self, cpu: &mut Cpu) {
        let sp: u16 = cpu.read_reg16(Reg16::SP);
        let v: u16 = cpu.read_reg16(self.r);
        let ir: u16 = cpu.read_reg16(Reg16::IR);
        cpu.contend_read_no_mreq(ir);
        let vh: u8 = (v / 256) as u8;
        let vl: u8 = (v % 256) as u8;
        let sp1: u16 = sp.wrapping_sub(1);
        cpu.write_word(sp1, vh);
        let sp2: u16 = sp.wrapping_sub(2);
        cpu.write_word(sp2, vl);
        cpu.write_reg16(Reg16::SP, sp2);
        cpu.inc_pc(1);
    }

    open spec fn accessed(&self) -> (OutputRegisters, OutputRegisters) {
        (OSP | output_registers_from_reg16(self.r), OSP)
    }

    fn get_accessed_regs(&self) -> (regs: (OutputRegisters, OutputRegisters)) {
        (OSP | output_registers_from_reg16(self.r), OSP)
    }
}

/// RET: pops the PC.
#[derive(Clone, Copy)]
pub struct Ret;

impl Instruction for Ret {
    open spec fn valid(&self) -> bool {
        true
    }

    open spec fn next_state(&self, s: CpuModel) -> CpuModel {
        let s0 = s;
        let sp = s0.regs.reg16(Reg16::SP);
        let lo = s0.mem_at(sp);
        let s1 = s0.after_read(sp, 3);
        let sp1 = wrap16(sp + 1);
        let hi = s1.mem_at(sp1);
        let s2 = s1.after_read(sp1, 3);
        let sp2 = wrap16(sp + 2);
        let s3 = s2.set_regs(s2.regs.with_reg16(Reg16::SP, sp2));
        let target = word(hi, lo);
        let s4 = s3.set_regs(s3.regs.with_pc(target));
        s4
    }

    #[verifier::spinoff_prover]
    #[verifier::rlimit(80)]
    fn execute(&self, cpu: &mut Cpu) {
        let sp: u16 = cpu.read_reg16(Reg16::SP);
        let lo: u8 = cpu.read_word(sp);
        let sp1: u16 = sp.wrapping_add(1);
        let hi: u8 = cpu.read_word(sp1);
        let sp2: u16 = sp.wrapping_add(2);
        cpu.write_reg16(Reg16::SP, sp2);
        let target: u16 = (hi as u16) * 256 + lo as u16;
        cpu.set_pc(target);
    }

    open spec fn accessed(&self) -> (OutputRegisters, OutputRegisters) {
        (OSP, OSP)
    }

    fn get_accessed_regs(&self) -> (regs: (OutputRegisters, OutputRegisters)) {
        (OSP, OSP)
    }
}

/// RET cc: return taken when the condition holds.
#[derive(Clone, Copy)]
pub struct RetCc {
    pub cond: FlagCond,
}

impl Instruction for RetCc {
    open spec fn valid(&self) -> bool {
        true
    }

    open spec fn next_state(&self, s: CpuModel) -> CpuModel {
        let s0 = s;
        let cc = s0.regs.cond(self.cond);
        let ir = s0.regs.reg16(Reg16::IR);
        let s1 = s0.after_no_mreq(ir);
        let s6 = if cc {
            let sp = s1.regs.reg16(Reg16::SP);
            let lo = s1.mem_at(sp);
            let s2 = s1.after_read(sp, 3);
            let sp1 = wrap16(sp + 1);
            let hi = s2.mem_at(sp1);
            let s3 = s2.after_read(sp1, 3);
            let sp2 = wrap16(sp + 2);
            let s4 = s3.set_regs(s3.regs.with_reg16(Reg16::SP, sp2));
            let target = word(hi, lo);
            let s5 = s4.set_regs(s4.regs.with_pc(target));
                s5
        } else {
            let s2 = s1.set_regs(s1.regs.advance_pc(1));
                s2
        };
        s6
    }

    #[verifier::spinoff_prover]
    #[verifier::rlimit(80)]
    fn execute(&self, cpu: &mut Cpu) {
        let cc: bool = cpu.check_cond(self.cond);
        let ir: u16 = cpu.read_reg16(Reg16::IR);
        cpu.contend_read_no_mreq(ir);
        if cc {
            let sp: u16 = cpu.read_reg16(Reg16::SP);
            let lo: u8 = cpu.read_word(sp);
            let sp1: u16 = sp.wrapping_add(1);
            let hi: u8 = cpu.read_word(sp1);
            let sp2: u16 = sp.wrapping_add(2);
            cpu.write_reg16(Reg16::SP, sp2);
            let target: u16 = (hi as u16) * 256 + lo as u16;
            cpu.set_pc(target);
        } else {
            cpu.inc_pc(1);
        }
    }

    open spec fn accessed(&self) -> (OutputRegisters, OutputRegisters) {
        (OF | OSP, OSP)
    }

    fn get_accessed_regs(&self) -> (regs: (OutputRegisters, OutputRegisters)) {
        (OF | OSP, OSP)
    }
}

/// RLA: rotates A left through the carry.
#[derive(Clone, Copy)]
pub struct RlA;

impl Instruction for RlA {
    open spec fn valid(&self) -> bool {
        true
    }

    open spec fn next_state(&self, s: CpuModel) -> CpuModel {
        let s0 = s;
        let a = s0.regs.reg8(Reg8::A);
        let rot = ((a % 128) * 2 + a / 128) as u8;
        let cf = s0.regs.flag(CARRY_FLAG);
        let res = if cf { rot | 0x01 } else { rot & 0xFE };
        let s1 = s0.set_regs(s0.regs.with_reg8(Reg8::A, res));
        let s2 = s1.set_regs(s1.regs.with_f(s1.regs.f & !HALF_CARRY_FLAG));
        let s3 = s2.set_regs(s2.regs.with_f(s2.regs.f & !ADD_SUBTRACT_FLAG));
        let s4 = s3.set_regs(s3.regs.with_f(cond_bits(s3.regs.f, CARRY_FLAG, a >= 0x80)));
        let s5 = s4.set_regs(s4.regs.with_f(cond_bits(s4.regs.f, X_FLAG, res & 0x08 != 0)));
        let s6 = s5.set_regs(s5.regs.with_f(cond_bits(s5.regs.f, Y_FLAG, res & 0x20 != 0)));
        let s7 = s6.set_regs(s6.regs.advance_pc(1));
        s7
    }

    #[verifier::spinoff_prover]
    #[verifier::rlimit(80)]
    fn execute(&self, cpu: &mut Cpu) {
        let a: u8 = cpu.read_reg8(Reg8::A);
        let rot: u8 = (a % 128) * 2 + a / 128;
        let cf: bool = cpu.get_flag(CARRY_FLAG);
        let res: u8 = if cf { rot | 0x01 } else { rot & 0xFE };
        cpu.write_reg8(Reg8::A, res);
        cpu.clear_flag(HALF_CARRY_FLAG);
        cpu.clear_flag(ADD_SUBTRACT_FLAG);
        cpu.cond_flag(CARRY_FLAG, a >= 0x80);
        cpu.cond_flag(X_FLAG, res & 0x08 != 0);
        cpu.cond_flag(Y_FLAG, res & 0x20 != 0);
        cpu.inc_pc(1);
    }

    open spec fn accessed(&self) -> (OutputRegisters, OutputRegisters) {
        (OA | OF, OA | OF)
    }

    fn get_accessed_regs(&self) -> (regs: (OutputRegisters, OutputRegisters)) {
        (OA | OF, OA | OF)
    }
}

/// RLCA: rotates A left; bit 7 goes to the carry and bit 0.
#[derive(Clone, Copy)]
pub struct RlcA;

impl Instruction for RlcA {
    open spec fn valid(&self) -> bool {
        true
    }

    open spec fn next_state(&self, s: CpuModel) -> CpuModel {
        let s0 = s;
        let a = s0.regs.reg8(Reg8::A);
        let res = ((a % 128) * 2 + a / 128) as u8;
        let s1 = s0.set_regs(s0.regs.with_reg8(Reg8::A, res));
        let s2 = s1.set_regs(s1.regs.with_f(s1.regs.f & !HALF_CARRY_FLAG));
        let s3 = s2.set_regs(s2.regs.with_f(s2.regs.f & !ADD_SUBTRACT_FLAG));
        let s4 = s3.set_regs(s3.regs.with_f(cond_bits(s3.regs.f, CARRY_FLAG, a >= 0x80)));
        let s5 = s4.set_regs(s4.regs.with_f(cond_bits(s4.regs.f, X_FLAG, res & 0x08 != 0)));
        let s6 = s5.set_regs(s5.regs.with_f(cond_bits(s5.regs.f, Y_FLAG, res & 0x20 != 0)));
        let s7 = s6.set_regs(s6.regs.advance_pc(1));
        s7
    }

    #[verifier::spinoff_prover]
    #[verifier::rlimit(80)]
    fn execute(&self, cpu: &mut Cpu) {
        let a: u8 = cpu.read_reg8(Reg8::A);
        let res: u8 = (a % 128) * 2 + a / 128;
        cpu.write_reg8(Reg8::A, res);
        cpu.clear_flag(HALF_CARRY_FLAG);
        cpu.clear_flag(ADD_SUBTRACT_FLAG);
        cpu.cond_flag(CARRY_FLAG, a >= 0x80);
        cpu.cond_flag(X_FLAG, res & 0x08 != 0);
        cpu.cond_flag(Y_FLAG, res & 0x20 != 0);
        cpu.inc_pc(1);
    }

    open spec fn accessed(&self) -> (OutputRegisters, OutputRegisters) {
        (OA | OF, OA | OF)
    }

    fn get_accessed_regs(&self) -> (regs: (OutputRegisters, OutputRegisters)) {
        (OA | OF, OA | OF)
    }
}

/// RRA: rotates A right through the carry.
#[derive(Clone, Copy)]
pub struct RrA;

impl Instruction for RrA {
    open spec fn valid(&self) -> bool {
        true
    }

    open spec fn next_state(&self, s: CpuModel) -> CpuModel {
        let s0 = s;
        let a = s0.regs.reg8(Reg8::A);
        let rot = (a / 2 + (a % 2) * 128) as u8;
        let cf = s0.regs.flag(CARRY_FLAG);
        let res = if cf { rot | 0x80 } else { rot & 0x7F };
        let s1 = s0.set_regs(s0.regs.with_reg8(Reg8::A, res));
        let s2 = s1.set_regs(s1.regs.with_f(s1.regs.f & !HALF_CARRY_FLAG));
        let s3 = s2.set_regs(s2.regs.with_f(s2.regs.f & !ADD_SUBTRACT_FLAG));
        let s4 = s3.set_regs(s3.regs.with_f(cond_bits(s3.regs.f, CARRY_FLAG, a % 2 != 0)));
        let s5 = s4.set_regs(s4.regs.with_f(cond_bits(s4.regs.f, X_FLAG, res & 0x08 != 0)));
        let s6 = s5.set_regs(s5.regs.with_f(cond_bits(s5.regs.f, Y_FLAG, res & 0x20 != 0)));
        let s7 = s6.set_regs(s6.regs.advance_pc(1));
        s7
    }

    #[verifier::spinoff_prover]
    #[verifier::rlimit(80)]
    fn execute(&self, cpu: &mut Cpu) {
        let a: u8 = cpu.read_reg8(Reg8::A);
        let rot: u8 = a / 2 + (a % 2) * 128;
        let cf: bool = cpu.get_flag(CARRY_FLAG);
        let res: u8 = if cf { rot | 0x80 } else { rot & 0x7F };
        cpu.write_reg8(Reg8::A, res);
        cpu.clear_flag(HALF_CARRY_FLAG);
        cpu.clear_flag(ADD_SUBTRACT_FLAG);
        cpu.cond_flag(CARRY_FLAG, a % 2 != 0);
        cpu.cond_flag(X_FLAG, res & 0x08 != 0);
        cpu.cond_flag(Y_FLAG, res & 0x20 != 0);
        cpu.inc_pc(1);
    }

    open spec fn accessed(&self) -> (OutputRegisters, OutputRegisters) {
        (OA | OF, OA | OF)
    }

    fn get_accessed_regs(&self) -> (regs: (OutputRegisters, OutputRegisters)) {
        (OA | OF, OA | OF)
    }
}

/// RRCA: rotates A right; bit 0 goes to the carry and bit 7.
#[derive(Clone, Copy)]
pub struct RrcA;

impl Instruction for RrcA {
    open spec fn valid(&self) -> bool {
        true
    }

    open spec fn next_state(&self, s: CpuModel) -> CpuModel {
        let s0 = s;
        let a = s0.regs.reg8(Reg8::A);
        let res = (a / 2 + (a % 2) * 128) as u8;
        let s1 = s0.set_regs(s0.regs.with_reg8(Reg8::A, res));
        let s2 = s1.set_regs(s1.regs.with_f(s1.regs.f & !HALF_CARRY_FLAG));
        let s3 = s2.set_regs(s2.regs.with_f(s2.regs.f & !ADD_SUBTRACT_FLAG));
        let s4 = s3.set_regs(s3.regs.with_f(cond_bits(s3.regs.f, CARRY_FLAG, a % 2 != 0)));
        let s5 = s4.set_regs(s4.regs.with_f(cond_bits(s4.regs.f, X_FLAG, res & 0x08 != 0)));
        let s6 = s5.set_regs(s5.regs.with_f(cond_bits(s5.regs.f, Y_FLAG, res & 0x20 != 0)));
        let s7 = s6.set_regs(s6.regs.advance_pc(1));
        s7
    }

    #[verifier::spinoff_prover]
    #[verifier::rlimit(80)]
    fn execute(&self, cpu: &mut Cpu) {
        let a: u8 = cpu.read_reg8(Reg8::A);
        let res: u8 = a / 2 + (a % 2) * 128;
        cpu.write_reg8(Reg8::A, res);
        cpu.clear_flag(HALF_CARRY_FLAG);
        cpu.clear_flag(ADD_SUBTRACT_FLAG);
        cpu.cond_flag(CARRY_FLAG, a % 2 != 0);
        cpu.cond_flag(X_FLAG, res & 0x08 != 0);
        cpu.cond_flag(Y_FLAG, res & 0x20 != 0);
        cpu.inc_pc(1);
    }

    open spec fn accessed(&self) -> (OutputRegisters, OutputRegisters) {
        (OA | OF, OA | OF)
    }

    fn get_accessed_regs(&self) -> (regs: (OutputRegisters, OutputRegisters)) {
        (OA | OF, OA | OF)
    }
}

/// RST p: pushes the address of the next instruction and jumps to p.
#[derive(Clone, Copy)]
pub struct Rst {
    pub addr: u8,
}

impl Instruction for Rst {
    open spec fn valid(&self) -> bool {
        true
    }

    open spec fn next_state(&self, s: CpuModel) -> CpuModel {
        let s0 = s;
        let pc = s0.regs.pc;
        let next = wrap16(pc + 1);
        let sp = s0.regs.reg16(Reg16::SP);
        let ir = s0.regs.reg16(Reg16::IR);
        let s1 = s0.after_no_mreq(ir);
        let nh = hi8(next);
        let nl = lo8(next);
        let sp1 = wrap16(sp - 1);
        let s2 = s1.after_write(sp1, nh);
        let sp2 = wrap16(sp - 2);
        let s3 = s2.after_write(sp2, nl);
        let s4 = s3.set_regs(s3.regs.with_reg16(Reg16::SP, sp2));
        let s5 = s4.set_regs(s4.regs.with_pc(self.addr as u16));
        s5
    }

    #[verifier::spinoff_prover]
    #[verifier::rlimit(80)]
    fn execute(&self, cpu: &mut Cpu) {
        let pc: u16 = cpu.get_pc();
        let next: u16 = pc.wrapping_add(1);
        let sp: u16 = cpu.read_reg16(Reg16::SP);
        let ir: u16 = cpu.read_reg16(Reg16::IR);
        cpu.contend_read_no_mreq(ir);
        let nh: u8 = (next / 256) as u8;
        let nl: u8 = (next % 256) as u8;
        let sp1: u16 = sp.wrapping_sub(1);
        cpu.write_word(sp1, nh);
        let sp2: u16 = sp.wrapping_sub(2);
        cpu.write_word(sp2, nl);
        cpu.write_reg16(Reg16::SP, sp2);
        cpu.set_pc(self.addr as u16);
    }

    open spec fn accessed(&self) -> (OutputRegisters, OutputRegisters) {
        (OSP, OSP)
    }

    fn get_accessed_regs(&self) -> (regs: (OutputRegisters, OutputRegisters)) {
        (OSP, OSP)
    }
}

/// SCF: sets the carry.
#[derive(Clone, Copy)]
pub struct Scf;

impl Instruction for Scf {
    open spec fn valid(&self) -> bool {
        true
    }

    open spec fn next_state(&self, s: CpuModel) -> CpuModel {
        let s0 = s;
        let s1 = s0.set_regs(s0.regs.with_f(s0.regs.f | CARRY_FLAG));
        let s2 = s1.set_regs(s1.regs.with_f(s1.regs.f & !HALF_CARRY_FLAG));
        let s3 = s2.set_regs(s2.regs.with_f(s2.regs.f & !ADD_SUBTRACT_FLAG));
        let a = s3.regs.reg8(Reg8::A);
        let s4 = s3.set_regs(s3.regs.with_f(cond_bits(s3.regs.f, X_FLAG, a & 0x08 != 0)));
        let s5 = s4.set_regs(s4.regs.with_f(cond_bits(s4.regs.f, Y_FLAG, a & 0x20 != 0)));
        let s6 = s5.set_regs(s5.regs.advance_pc(1));
        s6
    }

    #[verifier::spinoff_prover]
    #[verifier::rlimit(80)]
    fn execute(&self, cpu: &mut Cpu) {
        cpu.set_flag(CARRY_FLAG);
        cpu.clear_flag(HALF_CARRY_FLAG);
        cpu.clear_flag(ADD_SUBTRACT_FLAG);
        let a: u8 = cpu.read_reg8(Reg8::A);
        cpu.cond_flag(X_FLAG, a & 0x08 != 0);
        cpu.cond_flag(Y_FLAG, a & 0x20 != 0);
        cpu.inc_pc(1);
    }

    open spec fn accessed(&self) -> (OutputRegisters, OutputRegisters) {
        (OF, OF)
    }

    fn get_accessed_regs(&self) -> (regs: (OutputRegisters, OutputRegisters)) {
        (OF, OF)
    }
}

/// An opcode the emulator does not implement: executing it changes nothing.
#[derive(Clone, Copy)]
pub struct Unsupported;

impl Instruction for Unsupported {
    open spec fn valid(&self) -> bool {
        true
    }

    open spec fn next_state(&self, s: CpuModel) -> CpuModel {
        let s0 = s;
        s0
    }

    #[verifier::spinoff_prover]
    #[verifier::rlimit(80)]
    fn execute(&self, cpu: &mut Cpu) {
    }

    open spec fn accessed(&self) -> (OutputRegisters, OutputRegisters) {
        (ONONE, ONONE)
    }

    fn get_accessed_regs(&self) -> (regs: (OutputRegisters, OutputRegisters)) {
        (ONONE, ONONE)
    }
}

/// The unprefixed opcodes.
#[verifier::opaque]
pub open spec fn main_next(s: CpuModel, op: u8) -> CpuModel {
    match op {
        0x00u8 => (Nop).next_state(s),
        0x01u8 => (LdDdNn{r:Reg16::BC}).next_state(s),
        0x02u8 => (LdMemBcA).next_state(s),
        0x03u8 => (IncSs{r:Reg16::BC}).next_state(s),
        0x04u8 => (IncR{r:Reg8::B}).next_state(s),
        0x05u8 => (DecR{r:Reg8::B}).next_state(s),
        0x06u8 => (LdRN{r:Reg8::B}).next_state(s),
        0x07u8 => (RlcA).next_state(s),
        0x08u8 => (ExAfAfAlt).next_state(s),
        0x09u8 => (AddHlSs{r:Reg16::BC}).next_state(s),
        0x0Au8 => (LdAMemBc).next_state(s),
        0x0Bu8 => (DecSs{r:Reg16::BC}).next_state(s),
        0x0Cu8 => (IncR{r:Reg8::C}).next_state(s),
        0x0Du8 => (DecR{r:Reg8::C}).next_state(s),
        0x0Eu8 => (LdRN{r:Reg8::C}).next_state(s),
        0x0Fu8 => (RrcA).next_state(s),
        0x10u8 => (Djnz).next_state(s),
        0x11u8 => (LdDdNn{r:Reg16::DE}).next_state(s),
        0x12u8 => (LdMemDeA).next_state(s),
        0x13u8 => (IncSs{r:Reg16::DE}).next_state(s),
        0x14u8 => (IncR{r:Reg8::D}).next_state(s),
        0x15u8 => (DecR{r:Reg8::D}).next_state(s),
        0x16u8 => (LdRN{r:Reg8::D}).next_state(s),
        0x17u8 => (RlA).next_state(s),
        0x18u8 => (JrE).next_state(s),
        0x19u8 => (AddHlSs{r:Reg16::DE}).next_state(s),
        0x1Au8 => (LdAMemDe).next_state(s),
        0x1Bu8 => (DecSs{r:Reg16::DE}).next_state(s),
        0x1Cu8 => (IncR{r:Reg8::E}).next_state(s),
        0x1Du8 => (DecR{r:Reg8::E}).next_state(s),
        0x1Eu8 => (LdRN{r:Reg8::E}).next_state(s),
        0x1Fu8 => (RrA).next_state(s),
        0x20u8 => (JrNz).next_state(s),
        0x21u8 => (LdDdNn{r:Reg16::HL}).next_state(s),
        0x22u8 => (LdMemNnHl).next_state(s),
        0x23u8 => (IncSs{r:Reg16::HL}).next_state(s),
        0x24u8 => (IncR{r:Reg8::H}).next_state(s),
        0x25u8 => (DecR{r:Reg8::H}).next_state(s),
        0x26u8 => (LdRN{r:Reg8::H}).next_state(s),
        0x27u8 => (Daa).next_state(s),
        0x28u8 => (JrZ).next_state(s),
        0x29u8 => (AddHlSs{r:Reg16::HL}).next_state(s),
        0x2Au8 => (LdHlMemNn).next_state(s),
        0x2Bu8 => (DecSs{r:Reg16::HL}).next_state(s),
        0x2Cu8 => (IncR{r:Reg8::L}).next_state(s),
        0x2Du8 => (DecR{r:Reg8::L}).next_state(s),
        0x2Eu8 => (LdRN{r:Reg8::L}).next_state(s),
        0x2Fu8 => (Cpl).next_state(s),
        0x30u8 => (JrNcE).next_state(s),
        0x31u8 => (LdDdNn{r:Reg16::SP}).next_state(s),
        0x32u8 => (LdMemNnA).next_state(s),
        0x33u8 => (IncSs{r:Reg16::SP}).next_state(s),
        0x34u8 => (IncMemHl).next_state(s),
        0x35u8 => (DecMemHl).next_state(s),
        0x36u8 => (LdMemHlN).next_state(s),
        0x37u8 => (Scf).next_state(s),
        0x38u8 => (JrCE).next_state(s),
        0x39u8 => (AddHlSs{r:Reg16::SP}).next_state(s),
        0x3Au8 => (LdAMemNn).next_state(s),
        0x3Bu8 => (DecSs{r:Reg16::SP}).next_state(s),
        0x3Cu8 => (IncR{r:Reg8::A}).next_state(s),
        0x3Du8 => (DecR{r:Reg8::A}).next_state(s),
        0x3Eu8 => (LdRN{r:Reg8::A}).next_state(s),
        0x3Fu8 => (Ccf).next_state(s),
        0x40u8 => (LdRR{rt:Reg8::B,rs:Reg8::B}).next_state(s),
        0x41u8 => (LdRR{rt:Reg8::B,rs:Reg8::C}).next_state(s),
        0x42u8 => (LdRR{rt:Reg8::B,rs:Reg8::D}).next_state(s),
        0x43u8 => (LdRR{rt:Reg8::B,rs:Reg8::E}).next_state(s),
        0x44u8 => (LdRR{rt:Reg8::B,rs:Reg8::H}).next_state(s),
        0x45u8 => (LdRR{rt:Reg8::B,rs:Reg8::L}).next_state(s),
        0x46u8 => (LdRMemHl{r:Reg8::B}).next_state(s),
        0x47u8 => (LdRR{rt:Reg8::B,rs:Reg8::A}).next_state(s),
        0x48u8 => (LdRR{rt:Reg8::C,rs:Reg8::B}).next_state(s),
        0x49u8 => (LdRR{rt:Reg8::C,rs:Reg8::C}).next_state(s),
        0x4Au8 => (LdRR{rt:Reg8::C,rs:Reg8::D}).next_state(s),
        0x4Bu8 => (LdRR{rt:Reg8::C,rs:Reg8::E}).next_state(s),
        0x4Cu8 => (LdRR{rt:Reg8::C,rs:Reg8::H}).next_state(s),
        0x4Du8 => (LdRR{rt:Reg8::C,rs:Reg8::L}).next_state(s),
        0x4Eu8 => (LdRMemHl{r:Reg8::C}).next_state(s),
        0x4Fu8 => (LdRR{rt:Reg8::C,rs:Reg8::A}).next_state(s),
        0x50u8 => (LdRR{rt:Reg8::D,rs:Reg8::B}).next_state(s),
        0x51u8 => (LdRR{rt:Reg8::D,rs:Reg8::C}).next_state(s),
        0x52u8 => (LdRR{rt:Reg8::D,rs:Reg8::D}).next_state(s),
        0x53u8 => (LdRR{rt:Reg8::D,rs:Reg8::E}).next_state(s),
        0x54u8 => (LdRR{rt:Reg8::D,rs:Reg8::H}).next_state(s),
        0x55u8 => (LdRR{rt:Reg8::D,rs:Reg8::L}).next_state(s),
        0x56u8 => (LdRMemHl{r:Reg8::D}).next_state(s),
        0x57u8 => (LdRR{rt:Reg8::D,rs:Reg8::A}).next_state(s),
        0x58u8 => (LdRR{rt:Reg8::E,rs:Reg8::B}).next_state(s),
        0x59u8 => (LdRR{rt:Reg8::E,rs:Reg8::C}).next_state(s),
        0x5Au8 => (LdRR{rt:Reg8::E,rs:Reg8::D}).next_state(s),
        0x5Bu8 => (LdRR{rt:Reg8::E,rs:Reg8::E}).next_state(s),
        0x5Cu8 => (LdRR{rt:Reg8::E,rs:Reg8::H}).next_state(s),
        0x5Du8 => (LdRR{rt:Reg8::E,rs:Reg8::L}).next_state(s),
        0x5Eu8 => (LdRMemHl{r:Reg8::E}).next_state(s),
        0x5Fu8 => (LdRR{rt:Reg8::E,rs:Reg8::A}).next_state(s),
        0x60u8 => (LdRR{rt:Reg8::H,rs:Reg8::B}).next_state(s),
        0x61u8 => (LdRR{rt:Reg8::H,rs:Reg8::C}).next_state(s),
        0x62u8 => (LdRR{rt:Reg8::H,rs:Reg8::D}).next_state(s),
        0x63u8 => (LdRR{rt:Reg8::H,rs:Reg8::E}).next_state(s),
        0x64u8 => (LdRR{rt:Reg8::H,rs:Reg8::H}).next_state(s),
        0x65u8 => (LdRR{rt:Reg8::H,rs:Reg8::L}).next_state(s),
        0x66u8 => (LdRMemHl{r:Reg8::H}).next_state(s),
        0x67u8 => (LdRR{rt:Reg8::H,rs:Reg8::A}).next_state(s),
        0x68u8 => (LdRR{rt:Reg8::L,rs:Reg8::B}).next_state(s),
        0x69u8 => (LdRR{rt:Reg8::L,rs:Reg8::C}).next_state(s),
        0x6Au8 => (LdRR{rt:Reg8::L,rs:Reg8::D}).next_state(s),
        0x6Bu8 => (LdRR{rt:Reg8::L,rs:Reg8::E}).next_state(s),
        0x6Cu8 => (LdRR{rt:Reg8::L,rs:Reg8::H}).next_state(s),
        0x6Du8 => (LdRR{rt:Reg8::L,rs:Reg8::L}).next_state(s),
        0x6Eu8 => (LdRMemHl{r:Reg8::L}).next_state(s),
        0x6Fu8 => (LdRR{rt:Reg8::L,rs:Reg8::A}).next_state(s),
        0x70u8 => (LdMemHlR{r:Reg8::B}).next_state(s),
        0x71u8 => (LdMemHlR{r:Reg8::C}).next_state(s),
        0x72u8 => (LdMemHlR{r:Reg8::D}).next_state(s),
        0x73u8 => (LdMemHlR{r:Reg8::E}).next_state(s),
        0x74u8 => (LdMemHlR{r:Reg8::H}).next_state(s),
        0x75u8 => (LdMemHlR{r:Reg8::L}).next_state(s),
        0x76u8 => (Halt).next_state(s),
        0x77u8 => (LdMemHlR{r:Reg8::A}).next_state(s),
        0x78u8 => (LdRR{rt:Reg8::A,rs:Reg8::B}).next_state(s),
        0x79u8 => (LdRR{rt:Reg8::A,rs:Reg8::C}).next_state(s),
        0x7Au8 => (LdRR{rt:Reg8::A,rs:Reg8::D}).next_state(s),
        0x7Bu8 => (LdRR{rt:Reg8::A,rs:Reg8::E}).next_state(s),
        0x7Cu8 => (LdRR{rt:Reg8::A,rs:Reg8::H}).next_state(s),
        0x7Du8 => (LdRR{rt:Reg8::A,rs:Reg8::L}).next_state(s),
        0x7Eu8 => (LdRMemHl{r:Reg8::A}).next_state(s),
        0x7Fu8 => (LdRR{rt:Reg8::A,rs:Reg8::A}).next_state(s),
        0x80u8 => (AddR{r:Reg8::B}).next_state(s),
        0x81u8 => (AddR{r:Reg8::C}).next_state(s),
        0x82u8 => (AddR{r:Reg8::D}).next_state(s),
        0x83u8 => (AddR{r:Reg8::E}).next_state(s),
        0x84u8 => (AddR{r:Reg8::H}).next_state(s),
        0x85u8 => (AddR{r:Reg8::L}).next_state(s),
        0x86u8 => (AddMemHl).next_state(s),
        0x87u8 => (AddR{r:Reg8::A}).next_state(s),
        0x88u8 => (AdcR{r:Reg8::B}).next_state(s),
        0x89u8 => (AdcR{r:Reg8::C}).next_state(s),
        0x8Au8 => (AdcR{r:Reg8::D}).next_state(s),
        0x8Bu8 => (AdcR{r:Reg8::E}).next_state(s),
        0x8Cu8 => (AdcR{r:Reg8::H}).next_state(s),
        0x8Du8 => (AdcR{r:Reg8::L}).next_state(s),
        0x8Eu8 => (AdcMemHl).next_state(s),
        0x8Fu8 => (AdcR{r:Reg8::A}).next_state(s),
        0x90u8 => (SubR{r:Reg8::B}).next_state(s),
        0x91u8 => (SubR{r:Reg8::C}).next_state(s),
        0x92u8 => (SubR{r:Reg8::D}).next_state(s),
        0x93u8 => (SubR{r:Reg8::E}).next_state(s),
        0x94u8 => (SubR{r:Reg8::H}).next_state(s),
        0x95u8 => (SubR{r:Reg8::L}).next_state(s),
        0x96u8 => (SubMemHl).next_state(s),
        0x97u8 => (SubR{r:Reg8::A}).next_state(s),
        0x98u8 => (SbcR{r:Reg8::B}).next_state(s),
        0x99u8 => (SbcR{r:Reg8::C}).next_state(s),
        0x9Au8 => (SbcR{r:Reg8::D}).next_state(s),
        0x9Bu8 => (SbcR{r:Reg8::E}).next_state(s),
        0x9Cu8 => (SbcR{r:Reg8::H}).next_state(s),
        0x9Du8 => (SbcR{r:Reg8::L}).next_state(s),
        0x9Eu8 => (SbcMemHl).next_state(s),
        0x9Fu8 => (SbcR{r:Reg8::A}).next_state(s),
        0xA0u8 => (AndR{r:Reg8::B}).next_state(s),
        0xA1u8 => (AndR{r:Reg8::C}).next_state(s),
        0xA2u8 => (AndR{r:Reg8::D}).next_state(s),
        0xA3u8 => (AndR{r:Reg8::E}).next_state(s),
        0xA4u8 => (AndR{r:Reg8::H}).next_state(s),
        0xA5u8 => (AndR{r:Reg8::L}).next_state(s),
        0xA6u8 => (AndMemHl).next_state(s),
        0xA7u8 => (AndR{r:Reg8::A}).next_state(s),
        0xA8u8 => (XorR{r:Reg8::B}).next_state(s),
        0xA9u8 => (XorR{r:Reg8::C}).next_state(s),
        0xAAu8 => (XorR{r:Reg8::D}).next_state(s),
        0xABu8 => (XorR{r:Reg8::E}).next_state(s),
        0xACu8 => (XorR{r:Reg8::H}).next_state(s),
        0xADu8 => (XorR{r:Reg8::L}).next_state(s),
        0xAEu8 => (XorMemHl).next_state(s),
        0xAFu8 => (XorR{r:Reg8::A}).next_state(s),
        0xB0u8 => (OrR{r:Reg8::B}).next_state(s),
        0xB1u8 => (OrR{r:Reg8::C}).next_state(s),
        0xB2u8 => (OrR{r:Reg8::D}).next_state(s),
        0xB3u8 => (OrR{r:Reg8::E}).next_state(s),
        0xB4u8 => (OrR{r:Reg8::H}).next_state(s),
        0xB5u8 => (OrR{r:Reg8::L}).next_state(s),
        0xB6u8 => (OrMemHl).next_state(s),
        0xB7u8 => (OrR{r:Reg8::A}).next_state(s),
        0xB8u8 => (CpR{r:Reg8::B}).next_state(s),
        0xB9u8 => (CpR{r:Reg8::C}).next_state(s),
        0xBAu8 => (CpR{r:Reg8::D}).next_state(s),
        0xBBu8 => (CpR{r:Reg8::E}).next_state(s),
        0xBCu8 => (CpR{r:Reg8::H}).next_state(s),
        0xBDu8 => (CpR{r:Reg8::L}).next_state(s),
        0xBEu8 => (CpMemHl).next_state(s),
        0xBFu8 => (CpR{r:Reg8::A}).next_state(s),
        0xC0u8 => (RetCc{cond:FlagCond::NZ}).next_state(s),
        0xC1u8 => (PopQq{r:Reg16::BC}).next_state(s),
        0xC2u8 => (JpCcNn{cond:FlagCond::NZ}).next_state(s),
        0xC3u8 => (JpNn).next_state(s),
        0xC4u8 => (CallCcNn{cond:FlagCond::NZ}).next_state(s),
        0xC5u8 => (PushQq{r:Reg16::BC}).next_state(s),
        0xC6u8 => (AddN).next_state(s),
        0xC7u8 => (Rst{addr:0x00}).next_state(s),
        0xC8u8 => (RetCc{cond:FlagCond::Z}).next_state(s),
        0xC9u8 => (Ret).next_state(s),
        0xCAu8 => (JpCcNn{cond:FlagCond::Z}).next_state(s),
        0xCCu8 => (CallCcNn{cond:FlagCond::Z}).next_state(s),
        0xCDu8 => (CallNn).next_state(s),
        0xCEu8 => (AdcN).next_state(s),
        0xCFu8 => (Rst{addr:0x08}).next_state(s),
        0xD0u8 => (RetCc{cond:FlagCond::NC}).next_state(s),
        0xD1u8 => (PopQq{r:Reg16::DE}).next_state(s),
        0xD2u8 => (JpCcNn{cond:FlagCond::NC}).next_state(s),
        0xD3u8 => (OutPortNA).next_state(s),
        0xD4u8 => (CallCcNn{cond:FlagCond::NC}).next_state(s),
        0xD5u8 => (PushQq{r:Reg16::DE}).next_state(s),
        0xD6u8 => (SubN).next_state(s),
        0xD7u8 => (Rst{addr:0x10}).next_state(s),
        0xD8u8 => (RetCc{cond:FlagCond::C}).next_state(s),
        0xD9u8 => (Exx).next_state(s),
        0xDAu8 => (JpCcNn{cond:FlagCond::C}).next_state(s),
        0xDBu8 => (InAPortN).next_state(s),
        0xDCu8 => (CallCcNn{cond:FlagCond::C}).next_state(s),
        0xDEu8 => (SbcN).next_state(s),
        0xDFu8 => (Rst{addr:0x18}).next_state(s),
        0xE0u8 => (RetCc{cond:FlagCond::PO}).next_state(s),
        0xE1u8 => (PopQq{r:Reg16::HL}).next_state(s),
        0xE2u8 => (JpCcNn{cond:FlagCond::PO}).next_state(s),
        0xE3u8 => (ExMemSpHl).next_state(s),
        0xE4u8 => (CallCcNn{cond:FlagCond::PO}).next_state(s),
        0xE5u8 => (PushQq{r:Reg16::HL}).next_state(s),
        0xE6u8 => (AndN).next_state(s),
        0xE7u8 => (Rst{addr:0x20}).next_state(s),
        0xE8u8 => (RetCc{cond:FlagCond::PE}).next_state(s),
        0xE9u8 => (JpMemHl).next_state(s),
        0xEAu8 => (JpCcNn{cond:FlagCond::PE}).next_state(s),
        0xEBu8 => (ExDeHl).next_state(s),
        0xECu8 => (CallCcNn{cond:FlagCond::PE}).next_state(s),
        0xEEu8 => (XorN).next_state(s),
        0xEFu8 => (Rst{addr:0x28}).next_state(s),
        0xF0u8 => (RetCc{cond:FlagCond::P}).next_state(s),
        0xF1u8 => (PopQq{r:Reg16::AF}).next_state(s),
        0xF2u8 => (JpCcNn{cond:FlagCond::P}).next_state(s),
        0xF3u8 => (Di).next_state(s),
        0xF4u8 => (CallCcNn{cond:FlagCond::P}).next_state(s),
        0xF5u8 => (PushQq{r:Reg16::AF}).next_state(s),
        0xF6u8 => (OrN).next_state(s),
        0xF7u8 => (Rst{addr:0x30}).next_state(s),
        0xF8u8 => (RetCc{cond:FlagCond::M}).next_state(s),
        0xF9u8 => (LdSpHl).next_state(s),
        0xFAu8 => (JpCcNn{cond:FlagCond::M}).next_state(s),
        0xFBu8 => (Ei).next_state(s),
        0xFCu8 => (CallCcNn{cond:FlagCond::M}).next_state(s),
        0xFEu8 => (CpN).next_state(s),
        0xFFu8 => (Rst{addr:0x38}).next_state(s),
        _ => s,
    }
}

/// Whether the table has an instruction for the opcode.
pub open spec fn main_supported(op: u8) -> bool {
    !(op == 0xCBu8 || op == 0xDDu8 || op == 0xEDu8 || op == 0xFDu8)
}

/// Executes the table's instruction for `op`; says whether there is one.
#[verifier::rlimit(100)]
pub fn execute_main(cpu: &mut Cpu, op: u8) -> (supported: bool)
    requires
        old(cpu).wf(),
        old(cpu)@.tcycles <= TCYCLE_CEILING,
    ensures
        final(cpu).wf(),
        final(cpu)@ == main_next(old(cpu)@, op),
        supported == main_supported(op),
        !supported ==> final(cpu)@ == old(cpu)@,
        final(cpu)@.tcycles <= old(cpu)@.tcycles + MAX_STEP_TCYCLES,
{
    proof {
        reveal(main_next);
    }
    match op {
        0x00 => {
            (Nop).execute(cpu);
            true
        },
        0x01 => {
            (LdDdNn{r:Reg16::BC}).execute(cpu);
            true
        },
        0x02 => {
            (LdMemBcA).execute(cpu);
            true
        },
        0x03 => {
            (IncSs{r:Reg16::BC}).execute(cpu);
            true
        },
        0x04 => {
            (IncR{r:Reg8::B}).execute(cpu);
            true
        },
        0x05 => {
            (DecR{r:Reg8::B}).execute(cpu);
            true
        },
        0x06 => {
            (LdRN{r:Reg8::B}).execute(cpu);
            true
        },
        0x07 => {
            (RlcA).execute(cpu);
            true
        },
        0x08 => {
            (ExAfAfAlt).execute(cpu);
            true
        },
        0x09 => {
            (AddHlSs{r:Reg16::BC}).execute(cpu);
            true
        },
        0x0A => {
            (LdAMemBc).execute(cpu);
            true
        },
        0x0B => {
            (DecSs{r:Reg16::BC}).execute(cpu);
            true
        },
        0x0C => {
            (IncR{r:Reg8::C}).execute(cpu);
            true
        },
        0x0D => {
            (DecR{r:Reg8::C}).execute(cpu);
            true
        },
        0x0E => {
            (LdRN{r:Reg8::C}).execute(cpu);
            true
        },
        0x0F => {
            (RrcA).execute(cpu);
            true
        },
        0x10 => {
            (Djnz).execute(cpu);
            true
        },
        0x11 => {
            (LdDdNn{r:Reg16::DE}).execute(cpu);
            true
        },
        0x12 => {
            (LdMemDeA).execute(cpu);
            true
        },
        0x13 => {
            (IncSs{r:Reg16::DE}).execute(cpu);
            true
        },
        0x14 => {
            (IncR{r:Reg8::D}).execute(cpu);
            true
        },
        0x15 => {
            (DecR{r:Reg8::D}).execute(cpu);
            true
        },
        0x16 => {
            (LdRN{r:Reg8::D}).execute(cpu);
            true
        },
        0x17 => {
            (RlA).execute(cpu);
            true
        },
        0x18 => {
            (JrE).execute(cpu);
            true
        },
        0x19 => {
            (AddHlSs{r:Reg16::DE}).execute(cpu);
            true
        },
        0x1A => {
            (LdAMemDe).execute(cpu);
            true
        },
        0x1B => {
            (DecSs{r:Reg16::DE}).execute(cpu);
            true
        },
        0x1C => {
            (IncR{r:Reg8::E}).execute(cpu);
            true
        },
        0x1D => {
            (DecR{r:Reg8::E}).execute(cpu);
            true
        },
        0x1E => {
            (LdRN{r:Reg8::E}).execute(cpu);
            true
        },
        0x1F => {
            (RrA).execute(cpu);
            true
        },
        0x20 => {
            (JrNz).execute(cpu);
            true
        },
        0x21 => {
            (LdDdNn{r:Reg16::HL}).execute(cpu);
            true
        },
        0x22 => {
            (LdMemNnHl).execute(cpu);
            true
        },
        0x23 => {
            (IncSs{r:Reg16::HL}).execute(cpu);
            true
        },
        0x24 => {
            (IncR{r:Reg8::H}).execute(cpu);
            true
        },
        0x25 => {
            (DecR{r:Reg8::H}).execute(cpu);
            true
        },
        0x26 => {
            (LdRN{r:Reg8::H}).execute(cpu);
            true
        },
        0x27 => {
            (Daa).execute(cpu);
            true
        },
        0x28 => {
            (JrZ).execute(cpu);
            true
        },
        0x29 => {
            (AddHlSs{r:Reg16::HL}).execute(cpu);
            true
        },
        0x2A => {
            (LdHlMemNn).execute(cpu);
            true
        },
        0x2B => {
            (DecSs{r:Reg16::HL}).execute(cpu);
            true
        },
        0x2C => {
            (IncR{r:Reg8::L}).execute(cpu);
            true
        },
        0x2D => {
            (DecR{r:Reg8::L}).execute(cpu);
            true
        },
        0x2E => {
            (LdRN{r:Reg8::L}).execute(cpu);
            true
        },
        0x2F => {
            (Cpl).execute(cpu);
            true
        },
        0x30 => {
            (JrNcE).execute(cpu);
            true
        },
        0x31 => {
            (LdDdNn{r:Reg16::SP}).execute(cpu);
            true
        },
        0x32 => {
            (LdMemNnA).execute(cpu);
            true
        },
        0x33 => {
            (IncSs{r:Reg16::SP}).execute(cpu);
            true
        },
        0x34 => {
            (IncMemHl).execute(cpu);
            true
        },
        0x35 => {
            (DecMemHl).execute(cpu);
            true
        },
        0x36 => {
            (LdMemHlN).execute(cpu);
            true
        },
        0x37 => {
            (Scf).execute(cpu);
            true
        },
        0x38 => {
            (JrCE).execute(cpu);
            true
        },
        0x39 => {
            (AddHlSs{r:Reg16::SP}).execute(cpu);
            true
        },
        0x3A => {
            (LdAMemNn).execute(cpu);
            true
        },
        0x3B => {
            (DecSs{r:Reg16::SP}).execute(cpu);
            true
        },
        0x3C => {
            (IncR{r:Reg8::A}).execute(cpu);
            true
        },
        0x3D => {
            (DecR{r:Reg8::A}).execute(cpu);
            true
        },
        0x3E => {
            (LdRN{r:Reg8::A}).execute(cpu);
            true
        },
        0x3F => {
            (Ccf).execute(cpu);
            true
        },
        0x40 => {
            (LdRR{rt:Reg8::B,rs:Reg8::B}).execute(cpu);
            true
        },
        0x41 => {
            (LdRR{rt:Reg8::B,rs:Reg8::C}).execute(cpu);
            true
        },
        0x42 => {
            (LdRR{rt:Reg8::B,rs:Reg8::D}).execute(cpu);
            true
        },
        0x43 => {
            (LdRR{rt:Reg8::B,rs:Reg8::E}).execute(cpu);
            true
        },
        0x44 => {
            (LdRR{rt:Reg8::B,rs:Reg8::H}).execute(cpu);
            true
        },
        0x45 => {
            (LdRR{rt:Reg8::B,rs:Reg8::L}).execute(cpu);
            true
        },
        0x46 => {
            (LdRMemHl{r:Reg8::B}).execute(cpu);
            true
        },
        0x47 => {
            (LdRR{rt:Reg8::B,rs:Reg8::A}).execute(cpu);
            true
        },
        0x48 => {
            (LdRR{rt:Reg8::C,rs:Reg8::B}).execute(cpu);
            true
        },
        0x49 => {
            (LdRR{rt:Reg8::C,rs:Reg8::C}).execute(cpu);
            true
        },
        0x4A => {
            (LdRR{rt:Reg8::C,rs:Reg8::D}).execute(cpu);
            true
        },
        0x4B => {
            (LdRR{rt:Reg8::C,rs:Reg8::E}).execute(cpu);
            true
        },
        0x4C => {
            (LdRR{rt:Reg8::C,rs:Reg8::H}).execute(cpu);
            true
        },
        0x4D => {
            (LdRR{rt:Reg8::C,rs:Reg8::L}).execute(cpu);
            true
        },
        0x4E => {
            (LdRMemHl{r:Reg8::C}).execute(cpu);
            true
        },
        0x4F => {
            (LdRR{rt:Reg8::C,rs:Reg8::A}).execute(cpu);
            true
        },
        0x50 => {
            (LdRR{rt:Reg8::D,rs:Reg8::B}).execute(cpu);
            true
        },
        0x51 => {
            (LdRR{rt:Reg8::D,rs:Reg8::C}).execute(cpu);
            true
        },
        0x52 => {
            (LdRR{rt:Reg8::D,rs:Reg8::D}).execute(cpu);
            true
        },
        0x53 => {
            (LdRR{rt:Reg8::D,rs:Reg8::E}).execute(cpu);
            true
        },
        0x54 => {
            (LdRR{rt:Reg8::D,rs:Reg8::H}).execute(cpu);
            true
        },
        0x55 => {
            (LdRR{rt:Reg8::D,rs:Reg8::L}).execute(cpu);
            true
        },
        0x56 => {
            (LdRMemHl{r:Reg8::D}).execute(cpu);
            true
        },
        0x57 => {
            (LdRR{rt:Reg8::D,rs:Reg8::A}).execute(cpu);
            true
        },
        0x58 => {
            (LdRR{rt:Reg8::E,rs:Reg8::B}).execute(cpu);
            true
        },
        0x59 => {
            (LdRR{rt:Reg8::E,rs:Reg8::C}).execute(cpu);
            true
        },
        0x5A => {
            (LdRR{rt:Reg8::E,rs:Reg8::D}).execute(cpu);
            true
        },
        0x5B => {
            (LdRR{rt:Reg8::E,rs:Reg8::E}).execute(cpu);
            true
        },
        0x5C => {
            (LdRR{rt:Reg8::E,rs:Reg8::H}).execute(cpu);
            true
        },
        0x5D => {
            (LdRR{rt:Reg8::E,rs:Reg8::L}).execute(cpu);
            true
        },
        0x5E => {
            (LdRMemHl{r:Reg8::E}).execute(cpu);
            true
        },
        0x5F => {
            (LdRR{rt:Reg8::E,rs:Reg8::A}).execute(cpu);
            true
        },
        0x60 => {
            (LdRR{rt:Reg8::H,rs:Reg8::B}).execute(cpu);
            true
        },
        0x61 => {
            (LdRR{rt:Reg8::H,rs:Reg8::C}).execute(cpu);
            true
        },
        0x62 => {
            (LdRR{rt:Reg8::H,rs:Reg8::D}).execute(cpu);
            true
        },
        0x63 => {
            (LdRR{rt:Reg8::H,rs:Reg8::E}).execute(cpu);
            true
        },
        0x64 => {
            (LdRR{rt:Reg8::H,rs:Reg8::H}).execute(cpu);
            true
        },
        0x65 => {
            (LdRR{rt:Reg8::H,rs:Reg8::L}).execute(cpu);
            true
        },
        0x66 => {
            (LdRMemHl{r:Reg8::H}).execute(cpu);
            true
        },
        0x67 => {
            (LdRR{rt:Reg8::H,rs:Reg8::A}).execute(cpu);
            true
        },
        0x68 => {
            (LdRR{rt:Reg8::L,rs:Reg8::B}).execute(cpu);
            true
        },
        0x69 => {
            (LdRR{rt:Reg8::L,rs:Reg8::C}).execute(cpu);
            true
        },
        0x6A => {
            (LdRR{rt:Reg8::L,rs:Reg8::D}).execute(cpu);
            true
        },
        0x6B => {
            (LdRR{rt:Reg8::L,rs:Reg8::E}).execute(cpu);
            true
        },
        0x6C => {
            (LdRR{rt:Reg8::L,rs:Reg8::H}).execute(cpu);
            true
        },
        0x6D => {
            (LdRR{rt:Reg8::L,rs:Reg8::L}).execute(cpu);
            true
        },
        0x6E => {
            (LdRMemHl{r:Reg8::L}).execute(cpu);
            true
        },
        0x6F => {
            (LdRR{rt:Reg8::L,rs:Reg8::A}).execute(cpu);
            true
        },
        0x70 => {
            (LdMemHlR{r:Reg8::B}).execute(cpu);
            true
        },
        0x71 => {
            (LdMemHlR{r:Reg8::C}).execute(cpu);
            true
        },
        0x72 => {
            (LdMemHlR{r:Reg8::D}).execute(cpu);
            true
        },
        0x73 => {
            (LdMemHlR{r:Reg8::E}).execute(cpu);
            true
        },
        0x74 => {
            (LdMemHlR{r:Reg8::H}).execute(cpu);
            true
        },
        0x75 => {
            (LdMemHlR{r:Reg8::L}).execute(cpu);
            true
        },
        0x76 => {
            (Halt).execute(cpu);
            true
        },
        0x77 => {
            (LdMemHlR{r:Reg8::A}).execute(cpu);
            true
        },
        0x78 => {
            (LdRR{rt:Reg8::A,rs:Reg8::B}).execute(cpu);
            true
        },
        0x79 => {
            (LdRR{rt:Reg8::A,rs:Reg8::C}).execute(cpu);
            true
        },
        0x7A => {
            (LdRR{rt:Reg8::A,rs:Reg8::D}).execute(cpu);
            true
        },
        0x7B => {
            (LdRR{rt:Reg8::A,rs:Reg8::E}).execute(cpu);
            true
        },
        0x7C => {
            (LdRR{rt:Reg8::A,rs:Reg8::H}).execute(cpu);
            true
        },
        0x7D => {
            (LdRR{rt:Reg8::A,rs:Reg8::L}).execute(cpu);
            true
        },
        0x7E => {
            (LdRMemHl{r:Reg8::A}).execute(cpu);
            true
        },
        0x7F => {
            (LdRR{rt:Reg8::A,rs:Reg8::A}).execute(cpu);
            true
        },
        0x80 => {
            (AddR{r:Reg8::B}).execute(cpu);
            true
        },
        0x81 => {
            (AddR{r:Reg8::C}).execute(cpu);
            true
        },
        0x82 => {
            (AddR{r:Reg8::D}).execute(cpu);
            true
        },
        0x83 => {
            (AddR{r:Reg8::E}).execute(cpu);
            true
        },
        0x84 => {
            (AddR{r:Reg8::H}).execute(cpu);
            true
        },
        0x85 => {
            (AddR{r:Reg8::L}).execute(cpu);
            true
        },
        0x86 => {
            (AddMemHl).execute(cpu);
            true
        },
        0x87 => {
            (AddR{r:Reg8::A}).execute(cpu);
            true
        },
        0x88 => {
            (AdcR{r:Reg8::B}).execute(cpu);
            true
        },
        0x89 => {
            (AdcR{r:Reg8::C}).execute(cpu);
            true
        },
        0x8A => {
            (AdcR{r:Reg8::D}).execute(cpu);
            true
        },
        0x8B => {
            (AdcR{r:Reg8::E}).execute(cpu);
            true
        },
        0x8C => {
            (AdcR{r:Reg8::H}).execute(cpu);
            true
        },
        0x8D => {
            (AdcR{r:Reg8::L}).execute(cpu);
            true
        },
        0x8E => {
            (AdcMemHl).execute(cpu);
            true
        },
        0x8F => {
            (AdcR{r:Reg8::A}).execute(cpu);
            true
        },
        0x90 => {
            (SubR{r:Reg8::B}).execute(cpu);
            true
        },
        0x91 => {
            (SubR{r:Reg8::C}).execute(cpu);
            true
        },
        0x92 => {
            (SubR{r:Reg8::D}).execute(cpu);
            true
        },
        0x93 => {
            (SubR{r:Reg8::E}).execute(cpu);
            true
        },
        0x94 => {
            (SubR{r:Reg8::H}).execute(cpu);
            true
        },
        0x95 => {
            (SubR{r:Reg8::L}).execute(cpu);
            true
        },
        0x96 => {
            (SubMemHl).execute(cpu);
            true
        },
        0x97 => {
            (SubR{r:Reg8::A}).execute(cpu);
            true
        },
        0x98 => {
            (SbcR{r:Reg8::B}).execute(cpu);
            true
        },
        0x99 => {
            (SbcR{r:Reg8::C}).execute(cpu);
            true
        },
        0x9A => {
            (SbcR{r:Reg8::D}).execute(cpu);
            true
        },
        0x9B => {
            (SbcR{r:Reg8::E}).execute(cpu);
            true
        },
        0x9C => {
            (SbcR{r:Reg8::H}).execute(cpu);
            true
        },
        0x9D => {
            (SbcR{r:Reg8::L}).execute(cpu);
            true
        },
        0x9E => {
            (SbcMemHl).execute(cpu);
            true
        },
        0x9F => {
            (SbcR{r:Reg8::A}).execute(cpu);
            true
        },
        0xA0 => {
            (AndR{r:Reg8::B}).execute(cpu);
            true
        },
        0xA1 => {
            (AndR{r:Reg8::C}).execute(cpu);
            true
        },
        0xA2 => {
            (AndR{r:Reg8::D}).execute(cpu);
            true
        },
        0xA3 => {
            (AndR{r:Reg8::E}).execute(cpu);
            true
        },
        0xA4 => {
            (AndR{r:Reg8::H}).execute(cpu);
            true
        },
        0xA5 => {
            (AndR{r:Reg8::L}).execute(cpu);
            true
        },
        0xA6 => {
            (AndMemHl).execute(cpu);
            true
        },
        0xA7 => {
            (AndR{r:Reg8::A}).execute(cpu);
            true
        },
        0xA8 => {
            (XorR{r:Reg8::B}).execute(cpu);
            true
        },
        0xA9 => {
            (XorR{r:Reg8::C}).execute(cpu);
            true
        },
        0xAA => {
            (XorR{r:Reg8::D}).execute(cpu);
            true
        },
        0xAB => {
            (XorR{r:Reg8::E}).execute(cpu);
            true
        },
        0xAC => {
            (XorR{r:Reg8::H}).execute(cpu);
            true
        },
        0xAD => {
            (XorR{r:Reg8::L}).execute(cpu);
            true
        },
        0xAE => {
            (XorMemHl).execute(cpu);
            true
        },
        0xAF => {
            (XorR{r:Reg8::A}).execute(cpu);
            true
        },
        0xB0 => {
            (OrR{r:Reg8::B}).execute(cpu);
            true
        },
        0xB1 => {
            (OrR{r:Reg8::C}).execute(cpu);
            true
        },
        0xB2 => {
            (OrR{r:Reg8::D}).execute(cpu);
            true
        },
        0xB3 => {
            (OrR{r:Reg8::E}).execute(cpu);
            true
        },
        0xB4 => {
            (OrR{r:Reg8::H}).execute(cpu);
            true
        },
        0xB5 => {
            (OrR{r:Reg8::L}).execute(cpu);
            true
        },
        0xB6 => {
            (OrMemHl).execute(cpu);
            true
        },
        0xB7 => {
            (OrR{r:Reg8::A}).execute(cpu);
            true
        },
        0xB8 => {
            (CpR{r:Reg8::B}).execute(cpu);
            true
        },
        0xB9 => {
            (CpR{r:Reg8::C}).execute(cpu);
            true
        },
        0xBA => {
            (CpR{r:Reg8::D}).execute(cpu);
            true
        },
        0xBB => {
            (CpR{r:Reg8::E}).execute(cpu);
            true
        },
        0xBC => {
            (CpR{r:Reg8::H}).execute(cpu);
            true
        },
        0xBD => {
            (CpR{r:Reg8::L}).execute(cpu);
            true
        },
        0xBE => {
            (CpMemHl).execute(cpu);
            true
        },
        0xBF => {
            (CpR{r:Reg8::A}).execute(cpu);
            true
        },
        0xC0 => {
            (RetCc{cond:FlagCond::NZ}).execute(cpu);
            true
        },
        0xC1 => {
            (PopQq{r:Reg16::BC}).execute(cpu);
            true
        },
        0xC2 => {
            (JpCcNn{cond:FlagCond::NZ}).execute(cpu);
            true
        },
        0xC3 => {
            (JpNn).execute(cpu);
            true
        },
        0xC4 => {
            (CallCcNn{cond:FlagCond::NZ}).execute(cpu);
            true
        },
        0xC5 => {
            (PushQq{r:Reg16::BC}).execute(cpu);
            true
        },
        0xC6 => {
            (AddN).execute(cpu);
            true
        },
        0xC7 => {
            (Rst{addr:0x00}).execute(cpu);
            true
        },
        0xC8 => {
            (RetCc{cond:FlagCond::Z}).execute(cpu);
            true
        },
        0xC9 => {
            (Ret).execute(cpu);
            true
        },
        0xCA => {
            (JpCcNn{cond:FlagCond::Z}).execute(cpu);
            true
        },
        0xCC => {
            (CallCcNn{cond:FlagCond::Z}).execute(cpu);
            true
        },
        0xCD => {
            (CallNn).execute(cpu);
            true
        },
        0xCE => {
            (AdcN).execute(cpu);
            true
        },
        0xCF => {
            (Rst{addr:0x08}).execute(cpu);
            true
        },
        0xD0 => {
            (RetCc{cond:FlagCond::NC}).execute(cpu);
            true
        },
        0xD1 => {
            (PopQq{r:Reg16::DE}).execute(cpu);
            true
        },
        0xD2 => {
            (JpCcNn{cond:FlagCond::NC}).execute(cpu);
            true
        },
        0xD3 => {
            (OutPortNA).execute(cpu);
            true
        },
        0xD4 => {
            (CallCcNn{cond:FlagCond::NC}).execute(cpu);
            true
        },
        0xD5 => {
            (PushQq{r:Reg16::DE}).execute(cpu);
            true
        },
        0xD6 => {
            (SubN).execute(cpu);
            true
        },
        0xD7 => {
            (Rst{addr:0x10}).execute(cpu);
            true
        },
        0xD8 => {
            (RetCc{cond:FlagCond::C}).execute(cpu);
            true
        },
        0xD9 => {
            (Exx).execute(cpu);
            true
        },
        0xDA => {
            (JpCcNn{cond:FlagCond::C}).execute(cpu);
            true
        },
        0xDB => {
            (InAPortN).execute(cpu);
            true
        },
        0xDC => {
            (CallCcNn{cond:FlagCond::C}).execute(cpu);
            true
        },
        0xDE => {
            (SbcN).execute(cpu);
            true
        },
        0xDF => {
            (Rst{addr:0x18}).execute(cpu);
            true
        },
        0xE0 => {
            (RetCc{cond:FlagCond::PO}).execute(cpu);
            true
        },
        0xE1 => {
            (PopQq{r:Reg16::HL}).execute(cpu);
            true
        },
        0xE2 => {
            (JpCcNn{cond:FlagCond::PO}).execute(cpu);
            true
        },
        0xE3 => {
            (ExMemSpHl).execute(cpu);
            true
        },
        0xE4 => {
            (CallCcNn{cond:FlagCond::PO}).execute(cpu);
            true
        },
        0xE5 => {
            (PushQq{r:Reg16::HL}).execute(cpu);
            true
        },
        0xE6 => {
            (AndN).execute(cpu);
            true
        },
        0xE7 => {
            (Rst{addr:0x20}).execute(cpu);
            true
        },
        0xE8 => {
            (RetCc{cond:FlagCond::PE}).execute(cpu);
            true
        },
        0xE9 => {
            (JpMemHl).execute(cpu);
            true
        },
        0xEA => {
            (JpCcNn{cond:FlagCond::PE}).execute(cpu);
            true
        },
        0xEB => {
            (ExDeHl).execute(cpu);
            true
        },
        0xEC => {
            (CallCcNn{cond:FlagCond::PE}).execute(cpu);
            true
        },
        0xEE => {
            (XorN).execute(cpu);
            true
        },
        0xEF => {
            (Rst{addr:0x28}).execute(cpu);
            true
        },
        0xF0 => {
            (RetCc{cond:FlagCond::P}).execute(cpu);
            true
        },
        0xF1 => {
            (PopQq{r:Reg16::AF}).execute(cpu);
            true
        },
        0xF2 => {
            (JpCcNn{cond:FlagCond::P}).execute(cpu);
            true
        },
        0xF3 => {
            (Di).execute(cpu);
            true
        },
        0xF4 => {
            (CallCcNn{cond:FlagCond::P}).execute(cpu);
            true
        },
        0xF5 => {
            (PushQq{r:Reg16::AF}).execute(cpu);
            true
        },
        0xF6 => {
            (OrN).execute(cpu);
            true
        },
        0xF7 => {
            (Rst{addr:0x30}).execute(cpu);
            true
        },
        0xF8 => {
            (RetCc{cond:FlagCond::M}).execute(cpu);
            true
        },
        0xF9 => {
            (LdSpHl).execute(cpu);
            true
        },
        0xFA => {
            (JpCcNn{cond:FlagCond::M}).execute(cpu);
            true
        },
        0xFB => {
            (Ei).execute(cpu);
            true
        },
        0xFC => {
            (CallCcNn{cond:FlagCond::M}).execute(cpu);
            true
        },
        0xFE => {
            (CpN).execute(cpu);
            true
        },
        0xFF => {
            (Rst{addr:0x38}).execute(cpu);
            true
        },
        _ => false,
    }
}

/// The registers the debugger shows around the instruction for `op`;
/// none for an opcode the table lacks.
#[verifier::opaque]
pub open spec fn main_accessed(op: u8) -> (OutputRegisters, OutputRegisters) {
    match op {
        0x00u8 => (Nop).accessed(),
        0x01u8 => (LdDdNn{r:Reg16::BC}).accessed(),
        0x02u8 => (LdMemBcA).accessed(),
        0x03u8 => (IncSs{r:Reg16::BC}).accessed(),
        0x04u8 => (IncR{r:Reg8::B}).accessed(),
        0x05u8 => (DecR{r:Reg8::B}).accessed(),
        0x06u8 => (LdRN{r:Reg8::B}).accessed(),
        0x07u8 => (RlcA).accessed(),
        0x08u8 => (ExAfAfAlt).accessed(),
        0x09u8 => (AddHlSs{r:Reg16::BC}).accessed(),
        0x0Au8 => (LdAMemBc).accessed(),
        0x0Bu8 => (DecSs{r:Reg16::BC}).accessed(),
        0x0Cu8 => (IncR{r:Reg8::C}).accessed(),
        0x0Du8 => (DecR{r:Reg8::C}).accessed(),
        0x0Eu8 => (LdRN{r:Reg8::C}).accessed(),
        0x0Fu8 => (RrcA).accessed(),
        0x10u8 => (Djnz).accessed(),
        0x11u8 => (LdDdNn{r:Reg16::DE}).accessed(),
        0x12u8 => (LdMemDeA).accessed(),
        0x13u8 => (IncSs{r:Reg16::DE}).accessed(),
        0x14u8 => (IncR{r:Reg8::D}).accessed(),
        0x15u8 => (DecR{r:Reg8::D}).accessed(),
        0x16u8 => (LdRN{r:Reg8::D}).accessed(),
        0x17u8 => (RlA).accessed(),
        0x18u8 => (JrE).accessed(),
        0x19u8 => (AddHlSs{r:Reg16::DE}).accessed(),
        0x1Au8 => (LdAMemDe).accessed(),
        0x1Bu8 => (DecSs{r:Reg16::DE}).accessed(),
        0x1Cu8 => (IncR{r:Reg8::E}).accessed(),
        0x1Du8 => (DecR{r:Reg8::E}).accessed(),
        0x1Eu8 => (LdRN{r:Reg8::E}).accessed(),
        0x1Fu8 => (RrA).accessed(),
        0x20u8 => (JrNz).accessed(),
        0x21u8 => (LdDdNn{r:Reg16::HL}).accessed(),
        0x22u8 => (LdMemNnHl).accessed(),
        0x23u8 => (IncSs{r:Reg16::HL}).accessed(),
        0x24u8 => (IncR{r:Reg8::H}).accessed(),
        0x25u8 => (DecR{r:Reg8::H}).accessed(),
        0x26u8 => (LdRN{r:Reg8::H}).accessed(),
        0x27u8 => (Daa).accessed(),
        0x28u8 => (JrZ).accessed(),
        0x29u8 => (AddHlSs{r:Reg16::HL}).accessed(),
        0x2Au8 => (LdHlMemNn).accessed(),
        0x2Bu8 => (DecSs{r:Reg16::HL}).accessed(),
        0x2Cu8 => (IncR{r:Reg8::L}).accessed(),
        0x2Du8 => (DecR{r:Reg8::L}).accessed(),
        0x2Eu8 => (LdRN{r:Reg8::L}).accessed(),
        0x2Fu8 => (Cpl).accessed(),
        0x30u8 => (JrNcE).accessed(),
        0x31u8 => (LdDdNn{r:Reg16::SP}).accessed(),
        0x32u8 => (LdMemNnA).accessed(),
        0x33u8 => (IncSs{r:Reg16::SP}).accessed(),
        0x34u8 => (IncMemHl).accessed(),
        0x35u8 => (DecMemHl).accessed(),
        0x36u8 => (LdMemHlN).accessed(),
        0x37u8 => (Scf).accessed(),
        0x38u8 => (JrCE).accessed(),
        0x39u8 => (AddHlSs{r:Reg16::SP}).accessed(),
        0x3Au8 => (LdAMemNn).accessed(),
        0x3Bu8 => (DecSs{r:Reg16::SP}).accessed(),
        0x3Cu8 => (IncR{r:Reg8::A}).accessed(),
        0x3Du8 => (DecR{r:Reg8::A}).accessed(),
        0x3Eu8 => (LdRN{r:Reg8::A}).accessed(),
        0x3Fu8 => (Ccf).accessed(),
        0x40u8 => (LdRR{rt:Reg8::B,rs:Reg8::B}).accessed(),
        0x41u8 => (LdRR{rt:Reg8::B,rs:Reg8::C}).accessed(),
        0x42u8 => (LdRR{rt:Reg8::B,rs:Reg8::D}).accessed(),
        0x43u8 => (LdRR{rt:Reg8::B,rs:Reg8::E}).accessed(),
        0x44u8 => (LdRR{rt:Reg8::B,rs:Reg8::H}).accessed(),
        0x45u8 => (LdRR{rt:Reg8::B,rs:Reg8::L}).accessed(),
        0x46u8 => (LdRMemHl{r:Reg8::B}).accessed(),
        0x47u8 => (LdRR{rt:Reg8::B,rs:Reg8::A}).accessed(),
        0x48u8 => (LdRR{rt:Reg8::C,rs:Reg8::B}).accessed(),
        0x49u8 => (LdRR{rt:Reg8::C,rs:Reg8::C}).accessed(),
        0x4Au8 => (LdRR{rt:Reg8::C,rs:Reg8::D}).accessed(),
        0x4Bu8 => (LdRR{rt:Reg8::C,rs:Reg8::E}).accessed(),
        0x4Cu8 => (LdRR{rt:Reg8::C,rs:Reg8::H}).accessed(),
        0x4Du8 => (LdRR{rt:Reg8::C,rs:Reg8::L}).accessed(),
        0x4Eu8 => (LdRMemHl{r:Reg8::C}).accessed(),
        0x4Fu8 => (LdRR{rt:Reg8::C,rs:Reg8::A}).accessed(),
        0x50u8 => (LdRR{rt:Reg8::D,rs:Reg8::B}).accessed(),
        0x51u8 => (LdRR{rt:Reg8::D,rs:Reg8::C}).accessed(),
        0x52u8 => (LdRR{rt:Reg8::D,rs:Reg8::D}).accessed(),
        0x53u8 => (LdRR{rt:Reg8::D,rs:Reg8::E}).accessed(),
        0x54u8 => (LdRR{rt:Reg8::D,rs:Reg8::H}).accessed(),
        0x55u8 => (LdRR{rt:Reg8::D,rs:Reg8::L}).accessed(),
        0x56u8 => (LdRMemHl{r:Reg8::D}).accessed(),
        0x57u8 => (LdRR{rt:Reg8::D,rs:Reg8::A}).accessed(),
        0x58u8 => (LdRR{rt:Reg8::E,rs:Reg8::B}).accessed(),
        0x59u8 => (LdRR{rt:Reg8::E,rs:Reg8::C}).accessed(),
        0x5Au8 => (LdRR{rt:Reg8::E,rs:Reg8::D}).accessed(),
        0x5Bu8 => (LdRR{rt:Reg8::E,rs:Reg8::E}).accessed(),
        0x5Cu8 => (LdRR{rt:Reg8::E,rs:Reg8::H}).accessed(),
        0x5Du8 => (LdRR{rt:Reg8::E,rs:Reg8::L}).accessed(),
        0x5Eu8 => (LdRMemHl{r:Reg8::E}).accessed(),
        0x5Fu8 => (LdRR{rt:Reg8::E,rs:Reg8::A}).accessed(),
        0x60u8 => (LdRR{rt:Reg8::H,rs:Reg8::B}).accessed(),
        0x61u8 => (LdRR{rt:Reg8::H,rs:Reg8::C}).accessed(),
        0x62u8 => (LdRR{rt:Reg8::H,rs:Reg8::D}).accessed(),
        0x63u8 => (LdRR{rt:Reg8::H,rs:Reg8::E}).accessed(),
        0x64u8 => (LdRR{rt:Reg8::H,rs:Reg8::H}).accessed(),
        0x65u8 => (LdRR{rt:Reg8::H,rs:Reg8::L}).accessed(),
        0x66u8 => (LdRMemHl{r:Reg8::H}).accessed(),
        0x67u8 => (LdRR{rt:Reg8::H,rs:Reg8::A}).accessed(),
        0x68u8 => (LdRR{rt:Reg8::L,rs:Reg8::B}).accessed(),
        0x69u8 => (LdRR{rt:Reg8::L,rs:Reg8::C}).accessed(),
        0x6Au8 => (LdRR{rt:Reg8::L,rs:Reg8::D}).accessed(),
        0x6Bu8 => (LdRR{rt:Reg8::L,rs:Reg8::E}).accessed(),
        0x6Cu8 => (LdRR{rt:Reg8::L,rs:Reg8::H}).accessed(),
        0x6Du8 => (LdRR{rt:Reg8::L,rs:Reg8::L}).accessed(),
        0x6Eu8 => (LdRMemHl{r:Reg8::L}).accessed(),
        0x6Fu8 => (LdRR{rt:Reg8::L,rs:Reg8::A}).accessed(),
        0x70u8 => (LdMemHlR{r:Reg8::B}).accessed(),
        0x71u8 => (LdMemHlR{r:Reg8::C}).accessed(),
        0x72u8 => (LdMemHlR{r:Reg8::D}).accessed(),
        0x73u8 => (LdMemHlR{r:Reg8::E}).accessed(),
        0x74u8 => (LdMemHlR{r:Reg8::H}).accessed(),
        0x75u8 => (LdMemHlR{r:Reg8::L}).accessed(),
        0x76u8 => (Halt).accessed(),
        0x77u8 => (LdMemHlR{r:Reg8::A}).accessed(),
        0x78u8 => (LdRR{rt:Reg8::A,rs:Reg8::B}).accessed(),
        0x79u8 => (LdRR{rt:Reg8::A,rs:Reg8::C}).accessed(),
        0x7Au8 => (LdRR{rt:Reg8::A,rs:Reg8::D}).accessed(),
        0x7Bu8 => (LdRR{rt:Reg8::A,rs:Reg8::E}).accessed(),
        0x7Cu8 => (LdRR{rt:Reg8::A,rs:Reg8::H}).accessed(),
        0x7Du8 => (LdRR{rt:Reg8::A,rs:Reg8::L}).accessed(),
        0x7Eu8 => (LdRMemHl{r:Reg8::A}).accessed(),
        0x7Fu8 => (LdRR{rt:Reg8::A,rs:Reg8::A}).accessed(),
        0x80u8 => (AddR{r:Reg8::B}).accessed(),
        0x81u8 => (AddR{r:Reg8::C}).accessed(),
        0x82u8 => (AddR{r:Reg8::D}).accessed(),
        0x83u8 => (AddR{r:Reg8::E}).accessed(),
        0x84u8 => (AddR{r:Reg8::H}).accessed(),
        0x85u8 => (AddR{r:Reg8::L}).accessed(),
        0x86u8 => (AddMemHl).accessed(),
        0x87u8 => (AddR{r:Reg8::A}).accessed(),
        0x88u8 => (AdcR{r:Reg8::B}).accessed(),
        0x89u8 => (AdcR{r:Reg8::C}).accessed(),
        0x8Au8 => (AdcR{r:Reg8::D}).accessed(),
        0x8Bu8 => (AdcR{r:Reg8::E}).accessed(),
        0x8Cu8 => (AdcR{r:Reg8::H}).accessed(),
        0x8Du8 => (AdcR{r:Reg8::L}).accessed(),
        0x8Eu8 => (AdcMemHl).accessed(),
        0x8Fu8 => (AdcR{r:Reg8::A}).accessed(),
        0x90u8 => (SubR{r:Reg8::B}).accessed(),
        0x91u8 => (SubR{r:Reg8::C}).accessed(),
        0x92u8 => (SubR{r:Reg8::D}).accessed(),
        0x93u8 => (SubR{r:Reg8::E}).accessed(),
        0x94u8 => (SubR{r:Reg8::H}).accessed(),
        0x95u8 => (SubR{r:Reg8::L}).accessed(),
        0x96u8 => (SubMemHl).accessed(),
        0x97u8 => (SubR{r:Reg8::A}).accessed(),
        0x98u8 => (SbcR{r:Reg8::B}).accessed(),
        0x99u8 => (SbcR{r:Reg8::C}).accessed(),
        0x9Au8 => (SbcR{r:Reg8::D}).accessed(),
        0x9Bu8 => (SbcR{r:Reg8::E}).accessed(),
        0x9Cu8 => (SbcR{r:Reg8::H}).accessed(),
        0x9Du8 => (SbcR{r:Reg8::L}).accessed(),
        0x9Eu8 => (SbcMemHl).accessed(),
        0x9Fu8 => (SbcR{r:Reg8::A}).accessed(),
        0xA0u8 => (AndR{r:Reg8::B}).accessed(),
        0xA1u8 => (AndR{r:Reg8::C}).accessed(),
        0xA2u8 => (AndR{r:Reg8::D}).accessed(),
        0xA3u8 => (AndR{r:Reg8::E}).accessed(),
        0xA4u8 => (AndR{r:Reg8::H}).accessed(),
        0xA5u8 => (AndR{r:Reg8::L}).accessed(),
        0xA6u8 => (AndMemHl).accessed(),
        0xA7u8 => (AndR{r:Reg8::A}).accessed(),
        0xA8u8 => (XorR{r:Reg8::B}).accessed(),
        0xA9u8 => (XorR{r:Reg8::C}).accessed(),
        0xAAu8 => (XorR{r:Reg8::D}).accessed(),
        0xABu8 => (XorR{r:Reg8::E}).accessed(),
        0xACu8 => (XorR{r:Reg8::H}).accessed(),
        0xADu8 => (XorR{r:Reg8::L}).accessed(),
        0xAEu8 => (XorMemHl).accessed(),
        0xAFu8 => (XorR{r:Reg8::A}).accessed(),
        0xB0u8 => (OrR{r:Reg8::B}).accessed(),
        0xB1u8 => (OrR{r:Reg8::C}).accessed(),
        0xB2u8 => (OrR{r:Reg8::D}).accessed(),
        0xB3u8 => (OrR{r:Reg8::E}).accessed(),
        0xB4u8 => (OrR{r:Reg8::H}).accessed(),
        0xB5u8 => (OrR{r:Reg8::L}).accessed(),
        0xB6u8 => (OrMemHl).accessed(),
        0xB7u8 => (OrR{r:Reg8::A}).accessed(),
        0xB8u8 => (CpR{r:Reg8::B}).accessed(),
        0xB9u8 => (CpR{r:Reg8::C}).accessed(),
        0xBAu8 => (CpR{r:Reg8::D}).accessed(),
        0xBBu8 => (CpR{r:Reg8::E}).accessed(),
        0xBCu8 => (CpR{r:Reg8::H}).accessed(),
        0xBDu8 => (CpR{r:Reg8::L}).accessed(),
        0xBEu8 => (CpMemHl).accessed(),
        0xBFu8 => (CpR{r:Reg8::A}).accessed(),
        0xC0u8 => (RetCc{cond:FlagCond::NZ}).accessed(),
        0xC1u8 => (PopQq{r:Reg16::BC}).accessed(),
        0xC2u8 => (JpCcNn{cond:FlagCond::NZ}).accessed(),
        0xC3u8 => (JpNn).accessed(),
        0xC4u8 => (CallCcNn{cond:FlagCond::NZ}).accessed(),
        0xC5u8 => (PushQq{r:Reg16::BC}).accessed(),
        0xC6u8 => (AddN).accessed(),
        0xC7u8 => (Rst{addr:0x00}).accessed(),
        0xC8u8 => (RetCc{cond:FlagCond::Z}).accessed(),
        0xC9u8 => (Ret).accessed(),
        0xCAu8 => (JpCcNn{cond:FlagCond::Z}).accessed(),
        0xCCu8 => (CallCcNn{cond:FlagCond::Z}).accessed(),
        0xCDu8 => (CallNn).accessed(),
        0xCEu8 => (AdcN).accessed(),
        0xCFu8 => (Rst{addr:0x08}).accessed(),
        0xD0u8 => (RetCc{cond:FlagCond::NC}).accessed(),
        0xD1u8 => (PopQq{r:Reg16::DE}).accessed(),
        0xD2u8 => (JpCcNn{cond:FlagCond::NC}).accessed(),
        0xD3u8 => (OutPortNA).accessed(),
        0xD4u8 => (CallCcNn{cond:FlagCond::NC}).accessed(),
        0xD5u8 => (PushQq{r:Reg16::DE}).accessed(),
        0xD6u8 => (SubN).accessed(),
        0xD7u8 => (Rst{addr:0x10}).accessed(),
        0xD8u8 => (RetCc{cond:FlagCond::C}).accessed(),
        0xD9u8 => (Exx).accessed(),
        0xDAu8 => (JpCcNn{cond:FlagCond::C}).accessed(),
        0xDBu8 => (InAPortN).accessed(),
        0xDCu8 => (CallCcNn{cond:FlagCond::C}).accessed(),
        0xDEu8 => (SbcN).accessed(),
        0xDFu8 => (Rst{addr:0x18}).accessed(),
        0xE0u8 => (RetCc{cond:FlagCond::PO}).accessed(),
        0xE1u8 => (PopQq{r:Reg16::HL}).accessed(),
        0xE2u8 => (JpCcNn{cond:FlagCond::PO}).accessed(),
        0xE3u8 => (ExMemSpHl).accessed(),
        0xE4u8 => (CallCcNn{cond:FlagCond::PO}).accessed(),
        0xE5u8 => (PushQq{r:Reg16::HL}).accessed(),
        0xE6u8 => (AndN).accessed(),
        0xE7u8 => (Rst{addr:0x20}).accessed(),
        0xE8u8 => (RetCc{cond:FlagCond::PE}).accessed(),
        0xE9u8 => (JpMemHl).accessed(),
        0xEAu8 => (JpCcNn{cond:FlagCond::PE}).accessed(),
        0xEBu8 => (ExDeHl).accessed(),
        0xECu8 => (CallCcNn{cond:FlagCond::PE}).accessed(),
        0xEEu8 => (XorN).accessed(),
        0xEFu8 => (Rst{addr:0x28}).accessed(),
        0xF0u8 => (RetCc{cond:FlagCond::P}).accessed(),
        0xF1u8 => (PopQq{r:Reg16::AF}).accessed(),
        0xF2u8 => (JpCcNn{cond:FlagCond::P}).accessed(),
        0xF3u8 => (Di).accessed(),
        0xF4u8 => (CallCcNn{cond:FlagCond::P}).accessed(),
        0xF5u8 => (PushQq{r:Reg16::AF}).accessed(),
        0xF6u8 => (OrN).accessed(),
        0xF7u8 => (Rst{addr:0x30}).accessed(),
        0xF8u8 => (RetCc{cond:FlagCond::M}).accessed(),
        0xF9u8 => (LdSpHl).accessed(),
        0xFAu8 => (JpCcNn{cond:FlagCond::M}).accessed(),
        0xFBu8 => (Ei).accessed(),
        0xFCu8 => (CallCcNn{cond:FlagCond::M}).accessed(),
        0xFEu8 => (CpN).accessed(),
        0xFFu8 => (Rst{addr:0x38}).accessed(),
        _ => (ONONE, ONONE),
    }
}

/// The registers the debugger shows around the instruction for `op`.
pub fn accessed_regs_main(op: u8) -> (regs: (OutputRegisters, OutputRegisters))
    ensures
        regs == main_accessed(op),
{
    proof {
        reveal(main_accessed);
    }
    match op {
        0x00 => (Nop).get_accessed_regs(),
        0x01 => (LdDdNn{r:Reg16::BC}).get_accessed_regs(),
        0x02 => (LdMemBcA).get_accessed_regs(),
        0x03 => (IncSs{r:Reg16::BC}).get_accessed_regs(),
        0x04 => (IncR{r:Reg8::B}).get_accessed_regs(),
        0x05 => (DecR{r:Reg8::B}).get_accessed_regs(),
        0x06 => (LdRN{r:Reg8::B}).get_accessed_regs(),
        0x07 => (RlcA).get_accessed_regs(),
        0x08 => (ExAfAfAlt).get_accessed_regs(),
        0x09 => (AddHlSs{r:Reg16::BC}).get_accessed_regs(),
        0x0A => (LdAMemBc).get_accessed_regs(),
        0x0B => (DecSs{r:Reg16::BC}).get_accessed_regs(),
        0x0C => (IncR{r:Reg8::C}).get_accessed_regs(),
        0x0D => (DecR{r:Reg8::C}).get_accessed_regs(),
        0x0E => (LdRN{r:Reg8::C}).get_accessed_regs(),
        0x0F => (RrcA).get_accessed_regs(),
        0x10 => (Djnz).get_accessed_regs(),
        0x11 => (LdDdNn{r:Reg16::DE}).get_accessed_regs(),
        0x12 => (LdMemDeA).get_accessed_regs(),
        0x13 => (IncSs{r:Reg16::DE}).get_accessed_regs(),
        0x14 => (IncR{r:Reg8::D}).get_accessed_regs(),
        0x15 => (DecR{r:Reg8::D}).get_accessed_regs(),
        0x16 => (LdRN{r:Reg8::D}).get_accessed_regs(),
        0x17 => (RlA).get_accessed_regs(),
        0x18 => (JrE).get_accessed_regs(),
        0x19 => (AddHlSs{r:Reg16::DE}).get_accessed_regs(),
        0x1A => (LdAMemDe).get_accessed_regs(),
        0x1B => (DecSs{r:Reg16::DE}).get_accessed_regs(),
        0x1C => (IncR{r:Reg8::E}).get_accessed_regs(),
        0x1D => (DecR{r:Reg8::E}).get_accessed_regs(),
        0x1E => (LdRN{r:Reg8::E}).get_accessed_regs(),
        0x1F => (RrA).get_accessed_regs(),
        0x20 => (JrNz).get_accessed_regs(),
        0x21 => (LdDdNn{r:Reg16::HL}).get_accessed_regs(),
        0x22 => (LdMemNnHl).get_accessed_regs(),
        0x23 => (IncSs{r:Reg16::HL}).get_accessed_regs(),
        0x24 => (IncR{r:Reg8::H}).get_accessed_regs(),
        0x25 => (DecR{r:Reg8::H}).get_accessed_regs(),
        0x26 => (LdRN{r:Reg8::H}).get_accessed_regs(),
        0x27 => (Daa).get_accessed_regs(),
        0x28 => (JrZ).get_accessed_regs(),
        0x29 => (AddHlSs{r:Reg16::HL}).get_accessed_regs(),
        0x2A => (LdHlMemNn).get_accessed_regs(),
        0x2B => (DecSs{r:Reg16::HL}).get_accessed_regs(),
        0x2C => (IncR{r:Reg8::L}).get_accessed_regs(),
        0x2D => (DecR{r:Reg8::L}).get_accessed_regs(),
        0x2E => (LdRN{r:Reg8::L}).get_accessed_regs(),
        0x2F => (Cpl).get_accessed_regs(),
        0x30 => (JrNcE).get_accessed_regs(),
        0x31 => (LdDdNn{r:Reg16::SP}).get_accessed_regs(),
        0x32 => (LdMemNnA).get_accessed_regs(),
        0x33 => (IncSs{r:Reg16::SP}).get_accessed_regs(),
        0x34 => (IncMemHl).get_accessed_regs(),
        0x35 => (DecMemHl).get_accessed_regs(),
        0x36 => (LdMemHlN).get_accessed_regs(),
        0x37 => (Scf).get_accessed_regs(),
        0x38 => (JrCE).get_accessed_regs(),
        0x39 => (AddHlSs{r:Reg16::SP}).get_accessed_regs(),
        0x3A => (LdAMemNn).get_accessed_regs(),
        0x3B => (DecSs{r:Reg16::SP}).get_accessed_regs(),
        0x3C => (IncR{r:Reg8::A}).get_accessed_regs(),
        0x3D => (DecR{r:Reg8::A}).get_accessed_regs(),
        0x3E => (LdRN{r:Reg8::A}).get_accessed_regs(),
        0x3F => (Ccf).get_accessed_regs(),
        0x40 => (LdRR{rt:Reg8::B,rs:Reg8::B}).get_accessed_regs(),
        0x41 => (LdRR{rt:Reg8::B,rs:Reg8::C}).get_accessed_regs(),
        0x42 => (LdRR{rt:Reg8::B,rs:Reg8::D}).get_accessed_regs(),
        0x43 => (LdRR{rt:Reg8::B,rs:Reg8::E}).get_accessed_regs(),
        0x44 => (LdRR{rt:Reg8::B,rs:Reg8::H}).get_accessed_regs(),
        0x45 => (LdRR{rt:Reg8::B,rs:Reg8::L}).get_accessed_regs(),
        0x46 => (LdRMemHl{r:Reg8::B}).get_accessed_regs(),
        0x47 => (LdRR{rt:Reg8::B,rs:Reg8::A}).get_accessed_regs(),
        0x48 => (LdRR{rt:Reg8::C,rs:Reg8::B}).get_accessed_regs(),
        0x49 => (LdRR{rt:Reg8::C,rs:Reg8::C}).get_accessed_regs(),
        0x4A => (LdRR{rt:Reg8::C,rs:Reg8::D}).get_accessed_regs(),
        0x4B => (LdRR{rt:Reg8::C,rs:Reg8::E}).get_accessed_regs(),
        0x4C => (LdRR{rt:Reg8::C,rs:Reg8::H}).get_accessed_regs(),
        0x4D => (LdRR{rt:Reg8::C,rs:Reg8::L}).get_accessed_regs(),
        0x4E => (LdRMemHl{r:Reg8::C}).get_accessed_regs(),
        0x4F => (LdRR{rt:Reg8::C,rs:Reg8::A}).get_accessed_regs(),
        0x50 => (LdRR{rt:Reg8::D,rs:Reg8::B}).get_accessed_regs(),
        0x51 => (LdRR{rt:Reg8::D,rs:Reg8::C}).get_accessed_regs(),
        0x52 => (LdRR{rt:Reg8::D,rs:Reg8::D}).get_accessed_regs(),
        0x53 => (LdRR{rt:Reg8::D,rs:Reg8::E}).get_accessed_regs(),
        0x54 => (LdRR{rt:Reg8::D,rs:Reg8::H}).get_accessed_regs(),
        0x55 => (LdRR{rt:Reg8::D,rs:Reg8::L}).get_accessed_regs(),
        0x56 => (LdRMemHl{r:Reg8::D}).get_accessed_regs(),
        0x57 => (LdRR{rt:Reg8::D,rs:Reg8::A}).get_accessed_regs(),
        0x58 => (LdRR{rt:Reg8::E,rs:Reg8::B}).get_accessed_regs(),
        0x59 => (LdRR{rt:Reg8::E,rs:Reg8::C}).get_accessed_regs(),
        0x5A => (LdRR{rt:Reg8::E,rs:Reg8::D}).get_accessed_regs(),
        0x5B => (LdRR{rt:Reg8::E,rs:Reg8::E}).get_accessed_regs(),
        0x5C => (LdRR{rt:Reg8::E,rs:Reg8::H}).get_accessed_regs(),
        0x5D => (LdRR{rt:Reg8::E,rs:Reg8::L}).get_accessed_regs(),
        0x5E => (LdRMemHl{r:Reg8::E}).get_accessed_regs(),
        0x5F => (LdRR{rt:Reg8::E,rs:Reg8::A}).get_accessed_regs(),
        0x60 => (LdRR{rt:Reg8::H,rs:Reg8::B}).get_accessed_regs(),
        0x61 => (LdRR{rt:Reg8::H,rs:Reg8::C}).get_accessed_regs(),
        0x62 => (LdRR{rt:Reg8::H,rs:Reg8::D}).get_accessed_regs(),
        0x63 => (LdRR{rt:Reg8::H,rs:Reg8::E}).get_accessed_regs(),
        0x64 => (LdRR{rt:Reg8::H,rs:Reg8::H}).get_accessed_regs(),
        0x65 => (LdRR{rt:Reg8::H,rs:Reg8::L}).get_accessed_regs(),
        0x66 => (LdRMemHl{r:Reg8::H}).get_accessed_regs(),
        0x67 => (LdRR{rt:Reg8::H,rs:Reg8::A}).get_accessed_regs(),
        0x68 => (LdRR{rt:Reg8::L,rs:Reg8::B}).get_accessed_regs(),
        0x69 => (LdRR{rt:Reg8::L,rs:Reg8::C}).get_accessed_regs(),
        0x6A => (LdRR{rt:Reg8::L,rs:Reg8::D}).get_accessed_regs(),
        0x6B => (LdRR{rt:Reg8::L,rs:Reg8::E}).get_accessed_regs(),
        0x6C => (LdRR{rt:Reg8::L,rs:Reg8::H}).get_accessed_regs(),
        0x6D => (LdRR{rt:Reg8::L,rs:Reg8::L}).get_accessed_regs(),
        0x6E => (LdRMemHl{r:Reg8::L}).get_accessed_regs(),
        0x6F => (LdRR{rt:Reg8::L,rs:Reg8::A}).get_accessed_regs(),
        0x70 => (LdMemHlR{r:Reg8::B}).get_accessed_regs(),
        0x71 => (LdMemHlR{r:Reg8::C}).get_accessed_regs(),
        0x72 => (LdMemHlR{r:Reg8::D}).get_accessed_regs(),
        0x73 => (LdMemHlR{r:Reg8::E}).get_accessed_regs(),
        0x74 => (LdMemHlR{r:Reg8::H}).get_accessed_regs(),
        0x75 => (LdMemHlR{r:Reg8::L}).get_accessed_regs(),
        0x76 => (Halt).get_accessed_regs(),
        0x77 => (LdMemHlR{r:Reg8::A}).get_accessed_regs(),
        0x78 => (LdRR{rt:Reg8::A,rs:Reg8::B}).get_accessed_regs(),
        0x79 => (LdRR{rt:Reg8::A,rs:Reg8::C}).get_accessed_regs(),
        0x7A => (LdRR{rt:Reg8::A,rs:Reg8::D}).get_accessed_regs(),
        0x7B => (LdRR{rt:Reg8::A,rs:Reg8::E}).get_accessed_regs(),
        0x7C => (LdRR{rt:Reg8::A,rs:Reg8::H}).get_accessed_regs(),
        0x7D => (LdRR{rt:Reg8::A,rs:Reg8::L}).get_accessed_regs(),
        0x7E => (LdRMemHl{r:Reg8::A}).get_accessed_regs(),
        0x7F => (LdRR{rt:Reg8::A,rs:Reg8::A}).get_accessed_regs(),
        0x80 => (AddR{r:Reg8::B}).get_accessed_regs(),
        0x81 => (AddR{r:Reg8::C}).get_accessed_regs(),
        0x82 => (AddR{r:Reg8::D}).get_accessed_regs(),
        0x83 => (AddR{r:Reg8::E}).get_accessed_regs(),
        0x84 => (AddR{r:Reg8::H}).get_accessed_regs(),
        0x85 => (AddR{r:Reg8::L}).get_accessed_regs(),
        0x86 => (AddMemHl).get_accessed_regs(),
        0x87 => (AddR{r:Reg8::A}).get_accessed_regs(),
        0x88 => (AdcR{r:Reg8::B}).get_accessed_regs(),
        0x89 => (AdcR{r:Reg8::C}).get_accessed_regs(),
        0x8A => (AdcR{r:Reg8::D}).get_accessed_regs(),
        0x8B => (AdcR{r:Reg8::E}).get_accessed_regs(),
        0x8C => (AdcR{r:Reg8::H}).get_accessed_regs(),
        0x8D => (AdcR{r:Reg8::L}).get_accessed_regs(),
        0x8E => (AdcMemHl).get_accessed_regs(),
        0x8F => (AdcR{r:Reg8::A}).get_accessed_regs(),
        0x90 => (SubR{r:Reg8::B}).get_accessed_regs(),
        0x91 => (SubR{r:Reg8::C}).get_accessed_regs(),
        0x92 => (SubR{r:Reg8::D}).get_accessed_regs(),
        0x93 => (SubR{r:Reg8::E}).get_accessed_regs(),
        0x94 => (SubR{r:Reg8::H}).get_accessed_regs(),
        0x95 => (SubR{r:Reg8::L}).get_accessed_regs(),
        0x96 => (SubMemHl).get_accessed_regs(),
        0x97 => (SubR{r:Reg8::A}).get_accessed_regs(),
        0x98 => (SbcR{r:Reg8::B}).get_accessed_regs(),
        0x99 => (SbcR{r:Reg8::C}).get_accessed_regs(),
        0x9A => (SbcR{r:Reg8::D}).get_accessed_regs(),
        0x9B => (SbcR{r:Reg8::E}).get_accessed_regs(),
        0x9C => (SbcR{r:Reg8::H}).get_accessed_regs(),
        0x9D => (SbcR{r:Reg8::L}).get_accessed_regs(),
        0x9E => (SbcMemHl).get_accessed_regs(),
        0x9F => (SbcR{r:Reg8::A}).get_accessed_regs(),
        0xA0 => (AndR{r:Reg8::B}).get_accessed_regs(),
        0xA1 => (AndR{r:Reg8::C}).get_accessed_regs(),
        0xA2 => (AndR{r:Reg8::D}).get_accessed_regs(),
        0xA3 => (AndR{r:Reg8::E}).get_accessed_regs(),
        0xA4 => (AndR{r:Reg8::H}).get_accessed_regs(),
        0xA5 => (AndR{r:Reg8::L}).get_accessed_regs(),
        0xA6 => (AndMemHl).get_accessed_regs(),
        0xA7 => (AndR{r:Reg8::A}).get_accessed_regs(),
        0xA8 => (XorR{r:Reg8::B}).get_accessed_regs(),
        0xA9 => (XorR{r:Reg8::C}).get_accessed_regs(),
        0xAA => (XorR{r:Reg8::D}).get_accessed_regs(),
        0xAB => (XorR{r:Reg8::E}).get_accessed_regs(),
        0xAC => (XorR{r:Reg8::H}).get_accessed_regs(),
        0xAD => (XorR{r:Reg8::L}).get_accessed_regs(),
        0xAE => (XorMemHl).get_accessed_regs(),
        0xAF => (XorR{r:Reg8::A}).get_accessed_regs(),
        0xB0 => (OrR{r:Reg8::B}).get_accessed_regs(),
        0xB1 => (OrR{r:Reg8::C}).get_accessed_regs(),
        0xB2 => (OrR{r:Reg8::D}).get_accessed_regs(),
        0xB3 => (OrR{r:Reg8::E}).get_accessed_regs(),
        0xB4 => (OrR{r:Reg8::H}).get_accessed_regs(),
        0xB5 => (OrR{r:Reg8::L}).get_accessed_regs(),
        0xB6 => (OrMemHl).get_accessed_regs(),
        0xB7 => (OrR{r:Reg8::A}).get_accessed_regs(),
        0xB8 => (CpR{r:Reg8::B}).get_accessed_regs(),
        0xB9 => (CpR{r:Reg8::C}).get_accessed_regs(),
        0xBA => (CpR{r:Reg8::D}).get_accessed_regs(),
        0xBB => (CpR{r:Reg8::E}).get_accessed_regs(),
        0xBC => (CpR{r:Reg8::H}).get_accessed_regs(),
        0xBD => (CpR{r:Reg8::L}).get_accessed_regs(),
        0xBE => (CpMemHl).get_accessed_regs(),
        0xBF => (CpR{r:Reg8::A}).get_accessed_regs(),
        0xC0 => (RetCc{cond:FlagCond::NZ}).get_accessed_regs(),
        0xC1 => (PopQq{r:Reg16::BC}).get_accessed_regs(),
        0xC2 => (JpCcNn{cond:FlagCond::NZ}).get_accessed_regs(),
        0xC3 => (JpNn).get_accessed_regs(),
        0xC4 => (CallCcNn{cond:FlagCond::NZ}).get_accessed_regs(),
        0xC5 => (PushQq{r:Reg16::BC}).get_accessed_regs(),
        0xC6 => (AddN).get_accessed_regs(),
        0xC7 => (Rst{addr:0x00}).get_accessed_regs(),
        0xC8 => (RetCc{cond:FlagCond::Z}).get_accessed_regs(),
        0xC9 => (Ret).get_accessed_regs(),
        0xCA => (JpCcNn{cond:FlagCond::Z}).get_accessed_regs(),
        0xCC => (CallCcNn{cond:FlagCond::Z}).get_accessed_regs(),
        0xCD => (CallNn).get_accessed_regs(),
        0xCE => (AdcN).get_accessed_regs(),
        0xCF => (Rst{addr:0x08}).get_accessed_regs(),
        0xD0 => (RetCc{cond:FlagCond::NC}).get_accessed_regs(),
        0xD1 => (PopQq{r:Reg16::DE}).get_accessed_regs(),
        0xD2 => (JpCcNn{cond:FlagCond::NC}).get_accessed_regs(),
        0xD3 => (OutPortNA).get_accessed_regs(),
        0xD4 => (CallCcNn{cond:FlagCond::NC}).get_accessed_regs(),
        0xD5 => (PushQq{r:Reg16::DE}).get_accessed_regs(),
        0xD6 => (SubN).get_accessed_regs(),
        0xD7 => (Rst{addr:0x10}).get_accessed_regs(),
        0xD8 => (RetCc{cond:FlagCond::C}).get_accessed_regs(),
        0xD9 => (Exx).get_accessed_regs(),
        0xDA => (JpCcNn{cond:FlagCond::C}).get_accessed_regs(),
        0xDB => (InAPortN).get_accessed_regs(),
        0xDC => (CallCcNn{cond:FlagCond::C}).get_accessed_regs(),
        0xDE => (SbcN).get_accessed_regs(),
        0xDF => (Rst{addr:0x18}).get_accessed_regs(),
        0xE0 => (RetCc{cond:FlagCond::PO}).get_accessed_regs(),
        0xE1 => (PopQq{r:Reg16::HL}).get_accessed_regs(),
        0xE2 => (JpCcNn{cond:FlagCond::PO}).get_accessed_regs(),
        0xE3 => (ExMemSpHl).get_accessed_regs(),
        0xE4 => (CallCcNn{cond:FlagCond::PO}).get_accessed_regs(),
        0xE5 => (PushQq{r:Reg16::HL}).get_accessed_regs(),
        0xE6 => (AndN).get_accessed_regs(),
        0xE7 => (Rst{addr:0x20}).get_accessed_regs(),
        0xE8 => (RetCc{cond:FlagCond::PE}).get_accessed_regs(),
        0xE9 => (JpMemHl).get_accessed_regs(),
        0xEA => (JpCcNn{cond:FlagCond::PE}).get_accessed_regs(),
        0xEB => (ExDeHl).get_accessed_regs(),
        0xEC => (CallCcNn{cond:FlagCond::PE}).get_accessed_regs(),
        0xEE => (XorN).get_accessed_regs(),
        0xEF => (Rst{addr:0x28}).get_accessed_regs(),
        0xF0 => (RetCc{cond:FlagCond::P}).get_accessed_regs(),
        0xF1 => (PopQq{r:Reg16::AF}).get_accessed_regs(),
        0xF2 => (JpCcNn{cond:FlagCond::P}).get_accessed_regs(),
        0xF3 => (Di).get_accessed_regs(),
        0xF4 => (CallCcNn{cond:FlagCond::P}).get_accessed_regs(),
        0xF5 => (PushQq{r:Reg16::AF}).get_accessed_regs(),
        0xF6 => (OrN).get_accessed_regs(),
        0xF7 => (Rst{addr:0x30}).get_accessed_regs(),
        0xF8 => (RetCc{cond:FlagCond::M}).get_accessed_regs(),
        0xF9 => (LdSpHl).get_accessed_regs(),
        0xFA => (JpCcNn{cond:FlagCond::M}).get_accessed_regs(),
        0xFB => (Ei).get_accessed_regs(),
        0xFC => (CallCcNn{cond:FlagCond::M}).get_accessed_regs(),
        0xFE => (CpN).get_accessed_regs(),
        0xFF => (Rst{addr:0x38}).get_accessed_regs(),
        _ => (ONONE, ONONE),
    }
}

} // verus!
