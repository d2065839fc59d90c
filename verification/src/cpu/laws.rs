//! Laws of the register file and of the flag register.

use vstd::prelude::*;
use vstd::arithmetic::div_mod::lemma_fundamental_div_mod_converse;
use crate::cpu::{Regs, Reg8, Reg16, CpuModel, word, hi8, lo8, cond_bits};

verus! {

/// A word is its high byte and its low byte: splitting a 16-bit value and
/// joining the halves gives it back, and joining two bytes and splitting
/// gives them back.
pub proof fn lemma_word_halves(x: u16, h: u8, l: u8)
    ensures
        word(hi8(x), lo8(x)) == x,
        hi8(word(h, l)) == h,
        lo8(word(h, l)) == l,
{
    lemma_fundamental_div_mod_converse(x as int, 256, x as int / 256, x as int % 256);
    lemma_fundamental_div_mod_converse(h * 256 + l, 256, h as int, l as int);
}

/// Reading an 8-bit register gives back what was last written to it.
pub proof fn lemma_reg8_write_read(r: Regs, reg: Reg8, v: u8)
    ensures
        r.with_reg8(reg, v).reg8(reg) == v,
{
    lemma_word_halves(r.ix, hi8(r.ix), v);
    lemma_word_halves(r.ix, v, lo8(r.ix));
    lemma_word_halves(r.iy, hi8(r.iy), v);
    lemma_word_halves(r.iy, v, lo8(r.iy));
}

/// Writing an 8-bit register leaves every other 8-bit register as it was,
/// the other half of IX or IY included.
pub proof fn lemma_reg8_write_other(r: Regs, reg: Reg8, other: Reg8, v: u8)
    requires
        reg != other,
    ensures
        r.with_reg8(reg, v).reg8(other) == r.reg8(other),
{
    lemma_word_halves(r.ix, hi8(r.ix), v);
    lemma_word_halves(r.ix, v, lo8(r.ix));
    lemma_word_halves(r.iy, hi8(r.iy), v);
    lemma_word_halves(r.iy, v, lo8(r.iy));
}

/// Reading a 16-bit register gives back what was last written to it.
pub proof fn lemma_reg16_write_read(r: Regs, reg: Reg16, v: u16)
    ensures
        r.with_reg16(reg, v).reg16(reg) == v,
{
    lemma_word_halves(v, 0, 0);
}

/// A register pair is its two 8-bit halves, high byte first.
pub proof fn lemma_pairs_are_halves(r: Regs)
    ensures
        r.reg16(Reg16::BC) == word(r.reg8(Reg8::B), r.reg8(Reg8::C)),
        r.reg16(Reg16::DE) == word(r.reg8(Reg8::D), r.reg8(Reg8::E)),
        r.reg16(Reg16::HL) == word(r.reg8(Reg8::H), r.reg8(Reg8::L)),
        r.reg16(Reg16::IX) == word(r.reg8(Reg8::IXH), r.reg8(Reg8::IXL)),
        r.reg16(Reg16::IY) == word(r.reg8(Reg8::IYH), r.reg8(Reg8::IYL)),
        r.reg16(Reg16::IR) == word(r.reg8(Reg8::I), r.reg8(Reg8::R)),
{
    lemma_word_halves(r.ix, 0, 0);
    lemma_word_halves(r.iy, 0, 0);
}

/// After the bits of a flag are set, the flag reads as set; after they are
/// cleared, as clear (for a flag of at least one bit).
pub proof fn lemma_flag_set_clear(r: Regs, flag: u8)
    requires
        flag != 0,
    ensures
        r.with_f(r.f | flag).flag(flag),
        !r.with_f(r.f & !flag).flag(flag),
        r.with_f(cond_bits(r.f, flag, true)).flag(flag),
        !r.with_f(cond_bits(r.f, flag, false)).flag(flag),
{
    let f = r.f;
    assert((f | flag) & flag == flag) by (bit_vector);
    assert(flag != 0 ==> (f & !flag) & flag != flag) by (bit_vector);
}

/// Setting or clearing the bits of one flag leaves the bits outside it.
pub proof fn lemma_flag_others_kept(f: u8, flag: u8, cond: bool, other: u8)
    requires
        flag & other == 0,
    ensures
        cond_bits(f, flag, cond) & other == f & other,
{
    assert(flag & other == 0 ==> (f | flag) & other == f & other) by (bit_vector);
    assert(flag & other == 0 ==> (f & !flag) & other == f & other) by (bit_vector);
}

/// The refresh register R keeps its top bit clear however far it counts.
pub proof fn lemma_refresh_below_128(s: CpuModel, n: int)
    ensures
        s.regs.bump_r(n).r < 128,
{
}

} // verus!
