//! What the 8-bit arithmetic and logical instructions compute, stated by the
//! numbers: the result and the carry together make the exact sum or
//! difference, Z and S describe the result, H is the carry out of the low
//! nibble, and P/V is signed overflow of the two's complement operation (or
//! the parity of a logical result); likewise for the 16-bit sums into HL. Rotations undo one another, and BIT
//! reads back what SET and RES wrote.

use vstd::prelude::*;
use crate::cpu::{CpuModel, Reg8, Reg16, wrap8, wrap16, sext8, flag_if, cond_bits, X_FLAG, Y_FLAG, CARRY_FLAG, ADD_SUBTRACT_FLAG, PARITY_OVERFLOW_FLAG,
    HALF_CARRY_FLAG, ZERO_FLAG, SIGN_FLAG};
use crate::instructions::{Instruction, AddR, AdcR, SubR, SbcR, CpR, IncR, DecR, AndR, OrR, XorR, add8_flags,
    adc8_flags, sub8_flags, sbc8_flags, cp8_flags, inc8_flags, dec8_flags, logical_flags, add_overflow8, sub_overflow8,
    even_parity, bit_flags, RlcA, RrcA, RlA, RrA, Daa, daa_diff, daa_carry, daa_flags};
use crate::instructions::cb::{RlcR, RrcR, RlR, RrR, BitBR, SetBR, ResBR};
use crate::instructions::{AddHlSs, add16_flags, add_overflow16, sub_overflow16};
use crate::instructions::ed::{AdcHlSs, SbcHlSs, adc16_flags, sbc16_flags};

verus! {

proof fn lemma_add8_bits(a: u8, v: u8, res: u8)
    by (bit_vector)
    ensures
        (add8_flags(a, v, res) & CARRY_FLAG == CARRY_FLAG) == (a + v > 0xFF),
        (add8_flags(a, v, res) & ZERO_FLAG == ZERO_FLAG) == (res == 0),
        (add8_flags(a, v, res) & SIGN_FLAG == SIGN_FLAG) == (res >= 0x80),
        (add8_flags(a, v, res) & HALF_CARRY_FLAG == HALF_CARRY_FLAG) == (a % 16 + v % 16 > 15),
        (add8_flags(a, v, res) & PARITY_OVERFLOW_FLAG == PARITY_OVERFLOW_FLAG) == add_overflow8(a, v, res),
        add8_flags(a, v, res) & ADD_SUBTRACT_FLAG != ADD_SUBTRACT_FLAG,
{
}

proof fn lemma_adc8_bits(a: u8, v: u8, c: u8, res: u8)
    by (bit_vector)
    requires
        c <= 1,
    ensures
        (adc8_flags(a, v, c, res) & CARRY_FLAG == CARRY_FLAG) == (a + v + c > 0xFF),
        (adc8_flags(a, v, c, res) & ZERO_FLAG == ZERO_FLAG) == (res == 0),
        (adc8_flags(a, v, c, res) & SIGN_FLAG == SIGN_FLAG) == (res >= 0x80),
        (adc8_flags(a, v, c, res) & HALF_CARRY_FLAG == HALF_CARRY_FLAG) == (a % 16 + v % 16 + c > 15),
        (adc8_flags(a, v, c, res) & PARITY_OVERFLOW_FLAG == PARITY_OVERFLOW_FLAG) == add_overflow8(a, v, res),
        adc8_flags(a, v, c, res) & ADD_SUBTRACT_FLAG != ADD_SUBTRACT_FLAG,
{
}

proof fn lemma_sbc8_bits(a: u8, v: u8, c: u8, res: u8)
    by (bit_vector)
    requires
        c <= 1,
    ensures
        (sbc8_flags(a, v, c, res) & CARRY_FLAG == CARRY_FLAG) == (a < v + c),
        (sbc8_flags(a, v, c, res) & ZERO_FLAG == ZERO_FLAG) == (res == 0),
        (sbc8_flags(a, v, c, res) & SIGN_FLAG == SIGN_FLAG) == (res >= 0x80),
        (sbc8_flags(a, v, c, res) & HALF_CARRY_FLAG == HALF_CARRY_FLAG) == (a % 16 < v % 16 + c),
        (sbc8_flags(a, v, c, res) & PARITY_OVERFLOW_FLAG == PARITY_OVERFLOW_FLAG) == sub_overflow8(a, v, res),
        sbc8_flags(a, v, c, res) & ADD_SUBTRACT_FLAG == ADD_SUBTRACT_FLAG,
{
}

proof fn lemma_sub_cp8_bits(a: u8, v: u8, res: u8)
    by (bit_vector)
    ensures
        (sub8_flags(a, v, res) & CARRY_FLAG == CARRY_FLAG) == (a < v),
        (sub8_flags(a, v, res) & ZERO_FLAG == ZERO_FLAG) == (res == 0),
        (sub8_flags(a, v, res) & SIGN_FLAG == SIGN_FLAG) == (res >= 0x80),
        (sub8_flags(a, v, res) & HALF_CARRY_FLAG == HALF_CARRY_FLAG) == (a % 16 < v % 16),
        (sub8_flags(a, v, res) & PARITY_OVERFLOW_FLAG == PARITY_OVERFLOW_FLAG) == sub_overflow8(a, v, res),
        sub8_flags(a, v, res) & ADD_SUBTRACT_FLAG == ADD_SUBTRACT_FLAG,
        (cp8_flags(a, v, res) & CARRY_FLAG == CARRY_FLAG) == (a < v),
        (cp8_flags(a, v, res) & ZERO_FLAG == ZERO_FLAG) == (res == 0),
        (cp8_flags(a, v, res) & SIGN_FLAG == SIGN_FLAG) == (res >= 0x80),
        (cp8_flags(a, v, res) & HALF_CARRY_FLAG == HALF_CARRY_FLAG) == (a % 16 < v % 16),
        (cp8_flags(a, v, res) & PARITY_OVERFLOW_FLAG == PARITY_OVERFLOW_FLAG) == sub_overflow8(a, v, res),
        cp8_flags(a, v, res) & ADD_SUBTRACT_FLAG == ADD_SUBTRACT_FLAG,
{
}

proof fn lemma_inc_dec8_bits(f: u8, v: u8, ri: u8, rd: u8)
    by (bit_vector)
    ensures
        (inc8_flags(f, v, ri) & CARRY_FLAG == CARRY_FLAG) == (f & CARRY_FLAG == CARRY_FLAG),
        (inc8_flags(f, v, ri) & ZERO_FLAG == ZERO_FLAG) == (ri == 0),
        (inc8_flags(f, v, ri) & SIGN_FLAG == SIGN_FLAG) == (ri >= 0x80),
        (inc8_flags(f, v, ri) & HALF_CARRY_FLAG == HALF_CARRY_FLAG) == (v % 16 + 1 > 15),
        (inc8_flags(f, v, ri) & PARITY_OVERFLOW_FLAG == PARITY_OVERFLOW_FLAG) == (ri == 0x80),
        inc8_flags(f, v, ri) & ADD_SUBTRACT_FLAG != ADD_SUBTRACT_FLAG,
        (dec8_flags(f, v, rd) & CARRY_FLAG == CARRY_FLAG) == (f & CARRY_FLAG == CARRY_FLAG),
        (dec8_flags(f, v, rd) & ZERO_FLAG == ZERO_FLAG) == (rd == 0),
        (dec8_flags(f, v, rd) & SIGN_FLAG == SIGN_FLAG) == (rd >= 0x80),
        (dec8_flags(f, v, rd) & HALF_CARRY_FLAG == HALF_CARRY_FLAG) == (v % 16 == 0),
        (dec8_flags(f, v, rd) & PARITY_OVERFLOW_FLAG == PARITY_OVERFLOW_FLAG) == (rd == 0x7F),
        dec8_flags(f, v, rd) & ADD_SUBTRACT_FLAG == ADD_SUBTRACT_FLAG,
{
}

proof fn lemma_logical_bits(f: u8, res: u8)
    by (bit_vector)
    ensures
        (logical_flags(f, res) | HALF_CARRY_FLAG) & CARRY_FLAG != CARRY_FLAG,
        (logical_flags(f, res) & !HALF_CARRY_FLAG) & CARRY_FLAG != CARRY_FLAG,
        (logical_flags(f, res) | HALF_CARRY_FLAG) & ADD_SUBTRACT_FLAG != ADD_SUBTRACT_FLAG,
        (logical_flags(f, res) & !HALF_CARRY_FLAG) & ADD_SUBTRACT_FLAG != ADD_SUBTRACT_FLAG,
        (logical_flags(f, res) | HALF_CARRY_FLAG) & HALF_CARRY_FLAG == HALF_CARRY_FLAG,
        (logical_flags(f, res) & !HALF_CARRY_FLAG) & HALF_CARRY_FLAG != HALF_CARRY_FLAG,
        ((logical_flags(f, res) | HALF_CARRY_FLAG) & ZERO_FLAG == ZERO_FLAG) == (res == 0),
        ((logical_flags(f, res) & !HALF_CARRY_FLAG) & ZERO_FLAG == ZERO_FLAG) == (res == 0),
        ((logical_flags(f, res) | HALF_CARRY_FLAG) & SIGN_FLAG == SIGN_FLAG) == (res >= 0x80),
        ((logical_flags(f, res) & !HALF_CARRY_FLAG) & SIGN_FLAG == SIGN_FLAG) == (res >= 0x80),
{
}

proof fn lemma_parity_bit(f: u8, sb: bool, zb: bool, pb: bool, xb: bool, yb: bool)
    by (bit_vector)
    ensures
        ((((f & HALF_CARRY_FLAG) | flag_if(sb, SIGN_FLAG) | flag_if(zb, ZERO_FLAG) | flag_if(pb, PARITY_OVERFLOW_FLAG)
            | flag_if(xb, X_FLAG) | flag_if(yb, Y_FLAG)) | HALF_CARRY_FLAG) & PARITY_OVERFLOW_FLAG
            == PARITY_OVERFLOW_FLAG) == pb,
        ((((f & HALF_CARRY_FLAG) | flag_if(sb, SIGN_FLAG) | flag_if(zb, ZERO_FLAG) | flag_if(pb, PARITY_OVERFLOW_FLAG)
            | flag_if(xb, X_FLAG) | flag_if(yb, Y_FLAG)) & !HALF_CARRY_FLAG) & PARITY_OVERFLOW_FLAG
            == PARITY_OVERFLOW_FLAG) == pb,
{
}

/// Signed overflow of a sum with carry in, read off the signs, is the sum of
/// the signed operands leaving -128..127.
proof fn lemma_add_overflow_signed(a: u8, v: u8, c: int)
    requires
        0 <= c <= 1,
    ensures
        add_overflow8(a, v, wrap8(a + v + c)) == !(-128 <= sext8(a) + sext8(v) + c < 128),
{
}

/// Signed overflow of a difference with borrow in, read off the signs, is the
/// difference of the signed operands leaving -128..127.
proof fn lemma_sub_overflow_signed(a: u8, v: u8, c: int)
    requires
        0 <= c <= 1,
    ensures
        sub_overflow8(a, v, wrap8(a - v - c)) == !(-128 <= sext8(a) - sext8(v) - c < 128),
{
}

/// ADD A, r: A and the carry together hold the exact sum; Z and S describe
/// the new A; H is the carry out of bit 3; P/V is set exactly when the signed
/// sum leaves -128..127; N is cleared.
#[verifier::spinoff_prover]
pub proof fn lemma_add_a(s: CpuModel, r: Reg8)
    ensures
        ({
            let t = (AddR { r: r }).next_state(s);
            let a = s.regs.a;
            let v = s.regs.reg8(r);
            &&& t.regs.a + 256 * t.regs.carry() == a + v
            &&& t.regs.flag(ZERO_FLAG) == (t.regs.a == 0)
            &&& t.regs.flag(SIGN_FLAG) == (t.regs.a >= 128)
            &&& t.regs.flag(HALF_CARRY_FLAG) == (a % 16 + v % 16 >= 16)
            &&& t.regs.flag(PARITY_OVERFLOW_FLAG) == !(-128 <= sext8(a) + sext8(v) < 128)
            &&& !t.regs.flag(ADD_SUBTRACT_FLAG)
            &&& t.regs.pc == wrap16(s.regs.pc + 1)
        }),
{
    let a = s.regs.a;
    let v = s.regs.reg8(r);
    lemma_add8_bits(a, v, wrap8(a + v));
    lemma_add_overflow_signed(a, v, 0);
}

/// SUB r: A and the borrow give back the exact difference (A - 256 * C is
/// a - v); Z and S describe the new A; H is the borrow out of bit 4; P/V is
/// set exactly when the signed difference leaves -128..127; N is set.
#[verifier::spinoff_prover]
pub proof fn lemma_sub_a(s: CpuModel, r: Reg8)
    ensures
        ({
            let t = (SubR { r: r }).next_state(s);
            let a = s.regs.a;
            let v = s.regs.reg8(r);
            &&& t.regs.a - 256 * t.regs.carry() == a - v
            &&& t.regs.flag(ZERO_FLAG) == (a == v)
            &&& t.regs.flag(SIGN_FLAG) == (t.regs.a >= 128)
            &&& t.regs.flag(HALF_CARRY_FLAG) == (a % 16 < v % 16)
            &&& t.regs.flag(PARITY_OVERFLOW_FLAG) == !(-128 <= sext8(a) - sext8(v) < 128)
            &&& t.regs.flag(ADD_SUBTRACT_FLAG)
            &&& t.regs.pc == wrap16(s.regs.pc + 1)
        }),
{
    let a = s.regs.a;
    let v = s.regs.reg8(r);
    lemma_sub_cp8_bits(a, v, wrap8(a - v));
    lemma_sub_overflow_signed(a, v, 0);
}

/// ADC A, r: as ADD with the carry flag added in: A and the new carry hold
/// a + v + carry exactly; H and P/V likewise count the carry in.
#[verifier::spinoff_prover]
pub proof fn lemma_adc_a(s: CpuModel, r: Reg8)
    ensures
        ({
            let t = (AdcR { r: r }).next_state(s);
            let a = s.regs.a;
            let v = s.regs.reg8(r);
            let c = s.regs.carry();
            &&& t.regs.a + 256 * t.regs.carry() == a + v + c
            &&& t.regs.flag(ZERO_FLAG) == (t.regs.a == 0)
            &&& t.regs.flag(SIGN_FLAG) == (t.regs.a >= 128)
            &&& t.regs.flag(HALF_CARRY_FLAG) == (a % 16 + v % 16 + c >= 16)
            &&& t.regs.flag(PARITY_OVERFLOW_FLAG) == !(-128 <= sext8(a) + sext8(v) + c < 128)
            &&& !t.regs.flag(ADD_SUBTRACT_FLAG)
            &&& t.regs.pc == wrap16(s.regs.pc + 1)
        }),
{
    let a = s.regs.a;
    let v = s.regs.reg8(r);
    let c: u8 = if s.regs.flag(CARRY_FLAG) { 1 } else { 0 };
    lemma_adc8_bits(a, v, c, wrap8(a + v + c));
    lemma_add_overflow_signed(a, v, c as int);
}

/// SBC A, r: as SUB with the carry flag taken as a borrow: A - 256 * C is
/// a - v - carry exactly; H and P/V likewise count the borrow in.
#[verifier::spinoff_prover]
pub proof fn lemma_sbc_a(s: CpuModel, r: Reg8)
    ensures
        ({
            let t = (SbcR { r: r }).next_state(s);
            let a = s.regs.a;
            let v = s.regs.reg8(r);
            let c = s.regs.carry();
            &&& t.regs.a - 256 * t.regs.carry() == a - v - c
            &&& t.regs.flag(ZERO_FLAG) == (t.regs.a == 0)
            &&& t.regs.flag(SIGN_FLAG) == (t.regs.a >= 128)
            &&& t.regs.flag(HALF_CARRY_FLAG) == (a % 16 < v % 16 + c)
            &&& t.regs.flag(PARITY_OVERFLOW_FLAG) == !(-128 <= sext8(a) - sext8(v) - c < 128)
            &&& t.regs.flag(ADD_SUBTRACT_FLAG)
            &&& t.regs.pc == wrap16(s.regs.pc + 1)
        }),
{
    let a = s.regs.a;
    let v = s.regs.reg8(r);
    let c: u8 = if s.regs.flag(CARRY_FLAG) { 1 } else { 0 };
    lemma_sbc8_bits(a, v, c, wrap8(a - v - c));
    lemma_sub_overflow_signed(a, v, c as int);
}

/// CP r leaves A alone and sets the flags as SUB r would: Z when A equals
/// the operand, C when A is below it (unsigned), S and P/V from the signed
/// difference, N set.
#[verifier::spinoff_prover]
pub proof fn lemma_cp_a(s: CpuModel, r: Reg8)
    ensures
        ({
            let t = (CpR { r: r }).next_state(s);
            let a = s.regs.a;
            let v = s.regs.reg8(r);
            &&& t.regs.a == a
            &&& t.regs.flag(ZERO_FLAG) == (a == v)
            &&& t.regs.flag(CARRY_FLAG) == (a < v)
            &&& t.regs.flag(SIGN_FLAG) == (wrap8(a - v) >= 128)
            &&& t.regs.flag(HALF_CARRY_FLAG) == (a % 16 < v % 16)
            &&& t.regs.flag(PARITY_OVERFLOW_FLAG) == !(-128 <= sext8(a) - sext8(v) < 128)
            &&& t.regs.flag(ADD_SUBTRACT_FLAG)
            &&& t.regs.pc == wrap16(s.regs.pc + 1)
        }),
{
    let a = s.regs.a;
    let v = s.regs.reg8(r);
    lemma_sub_cp8_bits(a, v, wrap8(a - v));
    lemma_sub_overflow_signed(a, v, 0);
}

/// INC r adds one to the register modulo 256 and keeps the carry flag; H is
/// the carry out of the low nibble and P/V is set exactly when 127 became
/// -128.
#[verifier::spinoff_prover]
pub proof fn lemma_inc_r(s: CpuModel, r: Reg8)
    ensures
        ({
            let t = (IncR { r: r }).next_state(s);
            let v = s.regs.reg8(r);
            &&& t.regs.reg8(r) == wrap8(v + 1)
            &&& t.regs.flag(CARRY_FLAG) == s.regs.flag(CARRY_FLAG)
            &&& t.regs.flag(ZERO_FLAG) == (v == 255)
            &&& t.regs.flag(SIGN_FLAG) == (wrap8(v + 1) >= 128)
            &&& t.regs.flag(HALF_CARRY_FLAG) == (v % 16 == 15)
            &&& t.regs.flag(PARITY_OVERFLOW_FLAG) == (sext8(v) + 1 == 128)
            &&& !t.regs.flag(ADD_SUBTRACT_FLAG)
            &&& t.regs.pc == wrap16(s.regs.pc + 1)
        }),
{
    let v = s.regs.reg8(r);
    let res = wrap8(v + 1);
    crate::cpu::laws::lemma_reg8_write_read(s.regs, r, res);
    lemma_inc_dec8_bits(s.regs.with_reg8(r, res).f, v, res, 0);
}

/// DEC r takes one from the register modulo 256 and keeps the carry flag;
/// H is the borrow out of bit 4 and P/V is set exactly when -128 became 127.
#[verifier::spinoff_prover]
pub proof fn lemma_dec_r(s: CpuModel, r: Reg8)
    ensures
        ({
            let t = (DecR { r: r }).next_state(s);
            let v = s.regs.reg8(r);
            &&& t.regs.reg8(r) == wrap8(v - 1)
            &&& t.regs.flag(CARRY_FLAG) == s.regs.flag(CARRY_FLAG)
            &&& t.regs.flag(ZERO_FLAG) == (v == 1)
            &&& t.regs.flag(SIGN_FLAG) == (wrap8(v - 1) >= 128)
            &&& t.regs.flag(HALF_CARRY_FLAG) == (v % 16 == 0)
            &&& t.regs.flag(PARITY_OVERFLOW_FLAG) == (sext8(v) - 1 == -129)
            &&& t.regs.flag(ADD_SUBTRACT_FLAG)
            &&& t.regs.pc == wrap16(s.regs.pc + 1)
        }),
{
    let v = s.regs.reg8(r);
    let res = wrap8(v - 1);
    crate::cpu::laws::lemma_reg8_write_read(s.regs, r, res);
    lemma_inc_dec8_bits(s.regs.with_reg8(r, res).f, v, 0, res);
}

/// AND r puts a & v in A; H is set, N and C cleared, Z, S and P/V (even
/// parity) describe the result.
#[verifier::spinoff_prover]
pub proof fn lemma_and_a(s: CpuModel, r: Reg8)
    ensures
        ({
            let t = (AndR { r: r }).next_state(s);
            let res = s.regs.a & s.regs.reg8(r);
            &&& t.regs.a == res
            &&& !t.regs.flag(CARRY_FLAG)
            &&& !t.regs.flag(ADD_SUBTRACT_FLAG)
            &&& t.regs.flag(HALF_CARRY_FLAG)
            &&& t.regs.flag(ZERO_FLAG) == (res == 0)
            &&& t.regs.flag(SIGN_FLAG) == (res >= 128)
            &&& t.regs.flag(PARITY_OVERFLOW_FLAG) == even_parity(res)
            &&& t.regs.pc == wrap16(s.regs.pc + 1)
        }),
{
    let res = s.regs.a & s.regs.reg8(r);
    let f = s.regs.f;
    lemma_logical_bits(f, res);
    lemma_parity_bit(f, res >= 0x80, res == 0, even_parity(res), res & 0x08 != 0, res & 0x20 != 0);
}

/// OR r puts a | v in A; H, N and C are cleared, Z, S and P/V (even parity)
/// describe the result.
#[verifier::spinoff_prover]
pub proof fn lemma_or_a(s: CpuModel, r: Reg8)
    ensures
        ({
            let t = (OrR { r: r }).next_state(s);
            let res = s.regs.a | s.regs.reg8(r);
            &&& t.regs.a == res
            &&& !t.regs.flag(CARRY_FLAG)
            &&& !t.regs.flag(ADD_SUBTRACT_FLAG)
            &&& !t.regs.flag(HALF_CARRY_FLAG)
            &&& t.regs.flag(ZERO_FLAG) == (res == 0)
            &&& t.regs.flag(SIGN_FLAG) == (res >= 128)
            &&& t.regs.flag(PARITY_OVERFLOW_FLAG) == even_parity(res)
            &&& t.regs.pc == wrap16(s.regs.pc + 1)
        }),
{
    let res = s.regs.a | s.regs.reg8(r);
    let f = s.regs.f;
    lemma_logical_bits(f, res);
    lemma_parity_bit(f, res >= 0x80, res == 0, even_parity(res), res & 0x08 != 0, res & 0x20 != 0);
}

/// XOR r puts a ^ v in A; H, N and C are cleared, Z, S and P/V (even parity)
/// describe the result.
#[verifier::spinoff_prover]
pub proof fn lemma_xor_a(s: CpuModel, r: Reg8)
    ensures
        ({
            let t = (XorR { r: r }).next_state(s);
            let res = s.regs.a ^ s.regs.reg8(r);
            &&& t.regs.a == res
            &&& !t.regs.flag(CARRY_FLAG)
            &&& !t.regs.flag(ADD_SUBTRACT_FLAG)
            &&& !t.regs.flag(HALF_CARRY_FLAG)
            &&& t.regs.flag(ZERO_FLAG) == (res == 0)
            &&& t.regs.flag(SIGN_FLAG) == (res >= 128)
            &&& t.regs.flag(PARITY_OVERFLOW_FLAG) == even_parity(res)
            &&& t.regs.pc == wrap16(s.regs.pc + 1)
        }),
{
    let res = s.regs.a ^ s.regs.reg8(r);
    let f = s.regs.f;
    lemma_logical_bits(f, res);
    lemma_parity_bit(f, res >= 0x80, res == 0, even_parity(res), res & 0x08 != 0, res & 0x20 != 0);
}

proof fn lemma_rotate_bytes(v: u8, c: bool)
    by (bit_vector)
    ensures
        ({
            let rot = ((v % 128) * 2 + v / 128) as u8;
            let res = if c { rot | 0x01 } else { rot & 0xFE };
            let rot2 = (res / 2 + (res % 2) * 128) as u8;
            &&& (if v >= 0x80 { rot2 | 0x80 } else { rot2 & 0x7F }) == v
            &&& (res % 2 != 0) == c
        }),
        ({
            let res = ((v % 128) * 2 + v / 128) as u8;
            &&& (res / 2 + (res % 2) * 128) as u8 == v
            &&& (res % 2 != 0) == (v >= 0x80)
        }),
{
}

proof fn lemma_carry_bits(f: u8, b: bool, x: bool, y: bool)
    by (bit_vector)
    ensures
        (cond_bits(f, CARRY_FLAG, b) & CARRY_FLAG == CARRY_FLAG) == b,
        (cond_bits(cond_bits(cond_bits(f, CARRY_FLAG, b), X_FLAG, x), Y_FLAG, y) & CARRY_FLAG == CARRY_FLAG) == b,
{
}

proof fn lemma_bit_test_zero(f: u8, b: u8, bs: bool, x: bool, y: bool)
    by (bit_vector)
    ensures
        (cond_bits(cond_bits(bit_flags(f, b, bs), X_FLAG, x), Y_FLAG, y) & ZERO_FLAG == ZERO_FLAG) == !bs,
{
}

proof fn lemma_set_res_bits(v: u8, b: u8, i: u8)
    by (bit_vector)
    requires
        b < 8,
        i < 8,
    ensures
        (v | (1u8 << b)) & (1u8 << b) != 0,
        (v & !(1u8 << b)) & (1u8 << b) == 0,
        ((v | (1u8 << b)) >> i) & 1 == (if i == b { 1u8 } else { (v >> i) & 1 }),
        ((v & !(1u8 << b)) >> i) & 1 == (if i == b { 0u8 } else { (v >> i) & 1 }),
{
}

/// RRCA after RLCA gives back A, and the carry holds bit 7 of A as it was
/// before both.
pub proof fn lemma_rlca_rrca(s: CpuModel)
    ensures
        RrcA.next_state(RlcA.next_state(s)).regs.a == s.regs.a,
        RlcA.next_state(s).regs.flag(CARRY_FLAG) == (s.regs.a >= 128),
        RrcA.next_state(RlcA.next_state(s)).regs.flag(CARRY_FLAG) == (s.regs.a >= 128),
{
    let a = s.regs.a;
    let res = ((a % 128) * 2 + a / 128) as u8;
    lemma_rotate_bytes(a, false);
    let t = RlcA.next_state(s);
    let f1 = (s.regs.f & !HALF_CARRY_FLAG) & !ADD_SUBTRACT_FLAG;
    lemma_carry_bits(f1, a >= 0x80, res & 0x08 != 0, res & 0x20 != 0);
    let f2 = (t.regs.f & !HALF_CARRY_FLAG) & !ADD_SUBTRACT_FLAG;
    let a2 = (res / 2 + (res % 2) * 128) as u8;
    lemma_carry_bits(f2, res % 2 != 0, a2 & 0x08 != 0, a2 & 0x20 != 0);
}

/// RRA after RLA gives back both A and the carry flag: the two rotate the
/// nine bits of A and the carry one way and back.
pub proof fn lemma_rla_rra(s: CpuModel)
    ensures
        RrA.next_state(RlA.next_state(s)).regs.a == s.regs.a,
        RrA.next_state(RlA.next_state(s)).regs.flag(CARRY_FLAG) == s.regs.flag(CARRY_FLAG),
        RlA.next_state(s).regs.flag(CARRY_FLAG) == (s.regs.a >= 128),
{
    let a = s.regs.a;
    let c = s.regs.flag(CARRY_FLAG);
    lemma_rotate_bytes(a, c);
    let rot = ((a % 128) * 2 + a / 128) as u8;
    let res = if c { rot | 0x01 } else { rot & 0xFE };
    let f1 = (s.regs.f & !HALF_CARRY_FLAG) & !ADD_SUBTRACT_FLAG;
    lemma_carry_bits(f1, a >= 0x80, res & 0x08 != 0, res & 0x20 != 0);
    let t = RlA.next_state(s);
    let rot2 = (res / 2 + (res % 2) * 128) as u8;
    let a2 = if a >= 0x80 { rot2 | 0x80 } else { rot2 & 0x7F };
    let f2 = (t.regs.f & !HALF_CARRY_FLAG) & !ADD_SUBTRACT_FLAG;
    lemma_carry_bits(f2, res % 2 != 0, a2 & 0x08 != 0, a2 & 0x20 != 0);
}

#[verifier::spinoff_prover]
proof fn lemma_rlc_step(s: CpuModel, r: Reg8)
    ensures
        ({
            let v = s.regs.reg8(r);
            let t = (RlcR { r: r }).next_state(s);
            &&& t.regs.reg8(r) == ((v % 128) * 2 + v / 128) as u8
            &&& t.regs.flag(CARRY_FLAG) == (v >= 0x80)
        }),
{
    let v = s.regs.reg8(r);
    let res = ((v % 128) * 2 + v / 128) as u8;
    crate::cpu::laws::lemma_reg8_write_read(s.regs, r, res);
    let f1 = crate::instructions::logical_flags(s.regs.f, res) & !HALF_CARRY_FLAG;
    lemma_carry_bits(f1, v >= 0x80, false, false);
}

#[verifier::spinoff_prover]
proof fn lemma_rrc_step(s: CpuModel, r: Reg8)
    ensures
        ({
            let v = s.regs.reg8(r);
            let t = (RrcR { r: r }).next_state(s);
            &&& t.regs.reg8(r) == (v / 2 + (v % 2) * 128) as u8
            &&& t.regs.flag(CARRY_FLAG) == (v % 2 != 0)
        }),
{
    let v = s.regs.reg8(r);
    let res = (v / 2 + (v % 2) * 128) as u8;
    crate::cpu::laws::lemma_reg8_write_read(s.regs, r, res);
    let f1 = crate::instructions::logical_flags(s.regs.f, res) & !HALF_CARRY_FLAG;
    lemma_carry_bits(f1, v % 2 != 0, false, false);
}

#[verifier::spinoff_prover]
proof fn lemma_rl_step(s: CpuModel, r: Reg8)
    ensures
        ({
            let v = s.regs.reg8(r);
            let rot = ((v % 128) * 2 + v / 128) as u8;
            let t = (RlR { r: r }).next_state(s);
            &&& t.regs.reg8(r) == if s.regs.flag(CARRY_FLAG) { rot | 0x01 } else { rot & 0xFE }
            &&& t.regs.flag(CARRY_FLAG) == (v >= 0x80)
        }),
{
    let v = s.regs.reg8(r);
    let rot = ((v % 128) * 2 + v / 128) as u8;
    let res = if s.regs.flag(CARRY_FLAG) { rot | 0x01 } else { rot & 0xFE };
    crate::cpu::laws::lemma_reg8_write_read(s.regs, r, res);
    let f1 = crate::instructions::logical_flags(s.regs.f, res) & !HALF_CARRY_FLAG;
    lemma_carry_bits(f1, v >= 0x80, false, false);
}

#[verifier::spinoff_prover]
proof fn lemma_rr_step(s: CpuModel, r: Reg8)
    ensures
        ({
            let v = s.regs.reg8(r);
            let rot = (v / 2 + (v % 2) * 128) as u8;
            let t = (RrR { r: r }).next_state(s);
            &&& t.regs.reg8(r) == if s.regs.flag(CARRY_FLAG) { rot | 0x80 } else { rot & 0x7F }
            &&& t.regs.flag(CARRY_FLAG) == (v % 2 != 0)
        }),
{
    let v = s.regs.reg8(r);
    let rot = (v / 2 + (v % 2) * 128) as u8;
    let res = if s.regs.flag(CARRY_FLAG) { rot | 0x80 } else { rot & 0x7F };
    crate::cpu::laws::lemma_reg8_write_read(s.regs, r, res);
    let f1 = crate::instructions::logical_flags(s.regs.f, res) & !HALF_CARRY_FLAG;
    lemma_carry_bits(f1, v % 2 != 0, false, false);
}

/// RRC r after RLC r gives back the register; both leave bit 7 of the
/// starting value in the carry.
pub proof fn lemma_rlc_rrc(s: CpuModel, r: Reg8)
    ensures
        (RrcR { r: r }).next_state((RlcR { r: r }).next_state(s)).regs.reg8(r) == s.regs.reg8(r),
        (RlcR { r: r }).next_state(s).regs.flag(CARRY_FLAG) == (s.regs.reg8(r) >= 128),
        (RrcR { r: r }).next_state((RlcR { r: r }).next_state(s)).regs.flag(CARRY_FLAG) == (s.regs.reg8(r)
            >= 128),
{
    lemma_rotate_bytes(s.regs.reg8(r), false);
    lemma_rlc_step(s, r);
    lemma_rrc_step((RlcR { r: r }).next_state(s), r);
}

/// RR r after RL r gives back both the register and the carry flag.
pub proof fn lemma_rl_rr(s: CpuModel, r: Reg8)
    ensures
        (RrR { r: r }).next_state((RlR { r: r }).next_state(s)).regs.reg8(r) == s.regs.reg8(r),
        (RrR { r: r }).next_state((RlR { r: r }).next_state(s)).regs.flag(CARRY_FLAG) == s.regs.flag(
            CARRY_FLAG,
        ),
        (RlR { r: r }).next_state(s).regs.flag(CARRY_FLAG) == (s.regs.reg8(r) >= 128),
{
    lemma_rotate_bytes(s.regs.reg8(r), s.regs.flag(CARRY_FLAG));
    lemma_rl_step(s, r);
    lemma_rr_step((RlR { r: r }).next_state(s), r);
}

/// SET b, r turns bit b of the register on and RES b, r turns it off; every
/// other bit stays as it was.
#[verifier::spinoff_prover]
pub proof fn lemma_set_res(s: CpuModel, b: u8, r: Reg8)
    requires
        b < 8,
    ensures
        forall|i: u8|
            i < 8 ==> ((#[trigger] (SetBR { b: b, r: r }).next_state(s).regs.reg8(r) >> i) & 1 == if i == b {
                1u8
            } else {
                (s.regs.reg8(r) >> i) & 1
            }),
        forall|i: u8|
            i < 8 ==> ((#[trigger] (ResBR { b: b, r: r }).next_state(s).regs.reg8(r) >> i) & 1 == if i == b {
                0u8
            } else {
                (s.regs.reg8(r) >> i) & 1
            }),
{
    let v = s.regs.reg8(r);
    crate::cpu::laws::lemma_reg8_write_read(s.regs, r, v | (1u8 << b));
    crate::cpu::laws::lemma_reg8_write_read(s.regs, r, v & !(1u8 << b));
    assert forall|i: u8| i < 8 implies ((#[trigger] (SetBR { b: b, r: r }).next_state(s).regs.reg8(r) >> i) & 1
        == if i == b { 1u8 } else { (v >> i) & 1 }) by {
        lemma_set_res_bits(v, b, i);
    }
    assert forall|i: u8| i < 8 implies ((#[trigger] (ResBR { b: b, r: r }).next_state(s).regs.reg8(r) >> i) & 1
        == if i == b { 0u8 } else { (v >> i) & 1 }) by {
        lemma_set_res_bits(v, b, i);
    }
}

/// BIT b, r after SET b, r finds the bit on (Z clear); after RES b, r it finds
/// it off (Z set).
#[verifier::spinoff_prover]
pub proof fn lemma_bit_after_set_res(s: CpuModel, b: u8, r: Reg8)
    requires
        b < 8,
    ensures
        !(BitBR { b: b, r: r }).next_state((SetBR { b: b, r: r }).next_state(s)).regs.flag(ZERO_FLAG),
        (BitBR { b: b, r: r }).next_state((ResBR { b: b, r: r }).next_state(s)).regs.flag(ZERO_FLAG),
{
    let v = s.regs.reg8(r);
    let vs = v | (1u8 << b);
    let vr = v & !(1u8 << b);
    lemma_set_res_bits(v, b, 0);
    crate::cpu::laws::lemma_reg8_write_read(s.regs, r, vs);
    crate::cpu::laws::lemma_reg8_write_read(s.regs, r, vr);
    lemma_bit_test_zero(s.regs.f, b, true, vs & 0x08 != 0, vs & 0x20 != 0);
    lemma_bit_test_zero(s.regs.f, b, false, vr & 0x08 != 0, vr & 0x20 != 0);
}

/// A 16-bit value read as a two's complement number.
pub open spec fn signed16(x: u16) -> int {
    if x < 0x8000 {
        x as int
    } else {
        x - 65536
    }
}

proof fn lemma_add16_bits(f: u8, a: u16, v: u16, res: u16)
    by (bit_vector)
    ensures
        (add16_flags(f, a, v, res) & CARRY_FLAG == CARRY_FLAG) == (a + v > 0xFFFF),
        (add16_flags(f, a, v, res) & HALF_CARRY_FLAG == HALF_CARRY_FLAG) == (a % 4096 + v % 4096 > 0x0FFF),
        add16_flags(f, a, v, res) & ADD_SUBTRACT_FLAG != ADD_SUBTRACT_FLAG,
        (add16_flags(f, a, v, res) & SIGN_FLAG == SIGN_FLAG) == (f & SIGN_FLAG == SIGN_FLAG),
        (add16_flags(f, a, v, res) & ZERO_FLAG == ZERO_FLAG) == (f & ZERO_FLAG == ZERO_FLAG),
        (add16_flags(f, a, v, res) & PARITY_OVERFLOW_FLAG == PARITY_OVERFLOW_FLAG) == (f & PARITY_OVERFLOW_FLAG
            == PARITY_OVERFLOW_FLAG),
{
}

proof fn lemma_adc16_bits(a: u16, v: u16, c: u16, res: u16)
    by (bit_vector)
    requires
        c <= 1,
    ensures
        (adc16_flags(a, v, c, res) & CARRY_FLAG == CARRY_FLAG) == (a + v + c > 0xFFFF),
        (adc16_flags(a, v, c, res) & ZERO_FLAG == ZERO_FLAG) == (res == 0),
        (adc16_flags(a, v, c, res) & SIGN_FLAG == SIGN_FLAG) == (res >= 0x8000),
        (adc16_flags(a, v, c, res) & PARITY_OVERFLOW_FLAG == PARITY_OVERFLOW_FLAG) == add_overflow16(a, v, res),
        adc16_flags(a, v, c, res) & ADD_SUBTRACT_FLAG != ADD_SUBTRACT_FLAG,
{
}

proof fn lemma_sbc16_bits(a: u16, v: u16, c: u16, res: u16)
    by (bit_vector)
    requires
        c <= 1,
    ensures
        (sbc16_flags(a, v, c, res) & CARRY_FLAG == CARRY_FLAG) == (a < v + c),
        (sbc16_flags(a, v, c, res) & ZERO_FLAG == ZERO_FLAG) == (res == 0),
        (sbc16_flags(a, v, c, res) & SIGN_FLAG == SIGN_FLAG) == (res >= 0x8000),
        (sbc16_flags(a, v, c, res) & PARITY_OVERFLOW_FLAG == PARITY_OVERFLOW_FLAG) == sub_overflow16(a, v, res),
        sbc16_flags(a, v, c, res) & ADD_SUBTRACT_FLAG == ADD_SUBTRACT_FLAG,
{
}

/// ADD HL, ss: HL and the carry together hold the exact sum; H is the carry
/// out of bit 11; S, Z and P/V are kept; N is cleared.
#[verifier::spinoff_prover]
pub proof fn lemma_add_hl(s: CpuModel, r: Reg16)
    ensures
        ({
            let t = (AddHlSs { r: r }).next_state(s);
            let hl = s.regs.reg16(Reg16::HL);
            let v = s.regs.reg16(r);
            &&& t.regs.reg16(Reg16::HL) + 65536 * t.regs.carry() == hl + v
            &&& t.regs.flag(HALF_CARRY_FLAG) == (hl % 4096 + v % 4096 >= 4096)
            &&& !t.regs.flag(ADD_SUBTRACT_FLAG)
            &&& t.regs.flag(SIGN_FLAG) == s.regs.flag(SIGN_FLAG)
            &&& t.regs.flag(ZERO_FLAG) == s.regs.flag(ZERO_FLAG)
            &&& t.regs.flag(PARITY_OVERFLOW_FLAG) == s.regs.flag(PARITY_OVERFLOW_FLAG)
        }),
{
    let hl = s.regs.reg16(Reg16::HL);
    let v = s.regs.reg16(r);
    lemma_add16_bits(s.regs.f, hl, v, wrap16(hl + v));
}

/// ADC HL, ss: HL and the new carry hold hl + ss + carry exactly; Z and S
/// describe the new HL; P/V is set exactly when the signed sum leaves
/// -32768..32767; N is cleared.
#[verifier::spinoff_prover]
pub proof fn lemma_adc_hl(s: CpuModel, r: Reg16)
    ensures
        ({
            let t = (AdcHlSs { r: r }).next_state(s);
            let hl = s.regs.reg16(Reg16::HL);
            let v = s.regs.reg16(r);
            let c = s.regs.carry();
            &&& t.regs.reg16(Reg16::HL) + 65536 * t.regs.carry() == hl + v + c
            &&& t.regs.flag(ZERO_FLAG) == (t.regs.reg16(Reg16::HL) == 0)
            &&& t.regs.flag(SIGN_FLAG) == (t.regs.reg16(Reg16::HL) >= 0x8000)
            &&& t.regs.flag(PARITY_OVERFLOW_FLAG) == !(-32768 <= signed16(hl) + signed16(v) + c < 32768)
            &&& !t.regs.flag(ADD_SUBTRACT_FLAG)
        }),
{
    let hl = s.regs.reg16(Reg16::HL);
    let v = s.regs.reg16(r);
    let c: u16 = if s.regs.flag(CARRY_FLAG) { 1 } else { 0 };
    lemma_adc16_bits(hl, v, c, wrap16(hl + v + c));
}

/// SBC HL, ss: HL - 65536 * C is hl - ss - carry exactly; Z and S describe
/// the new HL; P/V is set exactly when the signed difference leaves
/// -32768..32767; N is set.
#[verifier::spinoff_prover]
pub proof fn lemma_sbc_hl(s: CpuModel, r: Reg16)
    ensures
        ({
            let t = (SbcHlSs { r: r }).next_state(s);
            let hl = s.regs.reg16(Reg16::HL);
            let v = s.regs.reg16(r);
            let c = s.regs.carry();
            &&& t.regs.reg16(Reg16::HL) - 65536 * t.regs.carry() == hl - v - c
            &&& t.regs.flag(ZERO_FLAG) == (t.regs.reg16(Reg16::HL) == 0)
            &&& t.regs.flag(SIGN_FLAG) == (t.regs.reg16(Reg16::HL) >= 0x8000)
            &&& t.regs.flag(PARITY_OVERFLOW_FLAG) == !(-32768 <= signed16(hl) - signed16(v) - c < 32768)
            &&& t.regs.flag(ADD_SUBTRACT_FLAG)
        }),
{
    let hl = s.regs.reg16(Reg16::HL);
    let v = s.regs.reg16(r);
    let c: u16 = if s.regs.flag(CARRY_FLAG) { 1 } else { 0 };
    lemma_sbc16_bits(hl, v, c, wrap16(hl - v - c));
}

/// A byte that holds two decimal digits, one per nibble.
pub open spec fn is_bcd(x: u8) -> bool {
    x / 16 <= 9 && x % 16 <= 9
}

/// The number 0..99 that a two-digit BCD byte stands for.
pub open spec fn bcd_value(x: u8) -> int {
    (x / 16) * 10 + x % 16
}

/// The BCD byte of a number 0..99.
pub open spec fn bcd_byte(n: int) -> u8 {
    ((n / 10) * 16 + n % 10) as u8
}

proof fn lemma_bcd_add_adjust(a: u8, v: u8)
    by (bit_vector)
    requires
        a / 16 <= 9,
        a % 16 <= 9,
        v / 16 <= 9,
        v % 16 <= 9,
    ensures
        ({
            let r = ((a + v) % 256) as u8;
            let c = a + v > 0xFF;
            let h = a % 16 + v % 16 > 15;
            let n = (a / 16) * 10 + a % 16 + (v / 16) * 10 + v % 16;
            &&& ((r + daa_diff(c, r / 16, h, r % 16)) % 256) as u8 == (((n % 100) / 10) * 16 + (n % 100) % 10) as u8
            &&& daa_carry(c, r / 16, r % 16) == (n >= 100)
        }),
{
}

proof fn lemma_daa_carry_bit(f: u8, res: u8, h: bool, c: bool)
    by (bit_vector)
    ensures
        (daa_flags(f, res, h, c) & CARRY_FLAG == CARRY_FLAG) == c,
{
}

/// DAA after ADD A, r of two BCD bytes leaves in A the BCD byte of their
/// decimal sum modulo 100, with the carry set exactly when the sum reached
/// 100.
#[verifier::spinoff_prover]
pub proof fn lemma_bcd_add(s: CpuModel, r: Reg8)
    requires
        is_bcd(s.regs.a),
        is_bcd(s.regs.reg8(r)),
    ensures
        ({
            let n = bcd_value(s.regs.a) + bcd_value(s.regs.reg8(r));
            let t = Daa.next_state((AddR { r: r }).next_state(s));
            &&& t.regs.a == bcd_byte(n % 100)
            &&& t.regs.flag(CARRY_FLAG) == (n >= 100)
        }),
{
    let a = s.regs.a;
    let v = s.regs.reg8(r);
    lemma_add_a(s, r);
    lemma_add8_bits(a, v, wrap8(a + v));
    lemma_bcd_add_adjust(a, v);
    let t1 = (AddR { r: r }).next_state(s);
    let r1 = t1.regs.a;
    let c1 = t1.regs.flag(CARRY_FLAG);
    let res = wrap8(r1 + daa_diff(c1, r1 / 16, t1.regs.flag(HALF_CARRY_FLAG), r1 % 16));
    let hout = r1 % 16 >= 10;
    lemma_daa_carry_bit(t1.regs.f, res, hout, daa_carry(c1, r1 / 16, r1 % 16));
}

proof fn lemma_bcd_sub_adjust(a: u8, v: u8)
    by (bit_vector)
    requires
        a / 16 <= 9,
        a % 16 <= 9,
        v / 16 <= 9,
        v % 16 <= 9,
    ensures
        ({
            let r = ((a - v) % 256) as u8;
            let c = a < v;
            let h = a % 16 < v % 16;
            let n = (a / 16) * 10 + a % 16 - ((v / 16) * 10 + v % 16);
            &&& ((r - daa_diff(c, r / 16, h, r % 16)) % 256) as u8 == ((((n + 100) % 100) / 10) * 16 + ((n + 100)
                % 100) % 10) as u8
            &&& daa_carry(c, r / 16, r % 16) == (n < 0)
        }),
{
}

/// DAA after SUB r of two BCD bytes leaves in A the BCD byte of their
/// decimal difference modulo 100, with the carry set exactly when the
/// subtrahend was the larger (a borrow).
#[verifier::spinoff_prover]
pub proof fn lemma_bcd_sub(s: CpuModel, r: Reg8)
    requires
        is_bcd(s.regs.a),
        is_bcd(s.regs.reg8(r)),
    ensures
        ({
            let n = bcd_value(s.regs.a) - bcd_value(s.regs.reg8(r));
            let t = Daa.next_state((SubR { r: r }).next_state(s));
            &&& t.regs.a == bcd_byte((n + 100) % 100)
            &&& t.regs.flag(CARRY_FLAG) == (n < 0)
        }),
{
    let a = s.regs.a;
    let v = s.regs.reg8(r);
    lemma_sub_a(s, r);
    lemma_sub_cp8_bits(a, v, wrap8(a - v));
    lemma_bcd_sub_adjust(a, v);
    let t1 = (SubR { r: r }).next_state(s);
    let r1 = t1.regs.a;
    let c1 = t1.regs.flag(CARRY_FLAG);
    let h1 = t1.regs.flag(HALF_CARRY_FLAG);
    let res = wrap8(r1 - daa_diff(c1, r1 / 16, h1, r1 % 16));
    lemma_daa_carry_bit(t1.regs.f, res, h1 && r1 % 16 <= 5, daa_carry(c1, r1 / 16, r1 % 16));
}

} // verus!
