//! The regular layout of the unprefixed opcodes: a three-bit field names a
//! register in the order B, C, D, E, H, L, (HL), A, and the opcode's top two
//! bits and middle field choose the operation.

use vstd::prelude::*;
use crate::cpu::{CpuModel, Reg8};
use crate::instructions::{Instruction, main_next, LdRR, AddR, AdcR, SubR, SbcR, AndR, XorR, OrR, CpR, IncR, DecR};

verus! {

/// The register that a three-bit field other than 6 names: B, C, D, E, H,
/// L, -, A for 0 to 7 (6 names the byte at HL).
pub open spec fn register_field(code: u8) -> Reg8 {
    if code == 0 {
        Reg8::B
    } else if code == 1 {
        Reg8::C
    } else if code == 2 {
        Reg8::D
    } else if code == 3 {
        Reg8::E
    } else if code == 4 {
        Reg8::H
    } else if code == 5 {
        Reg8::L
    } else {
        Reg8::A
    }
}

/// Opcodes 40 to 7F (hex) that name no (HL) are LD r, r': the destination in
/// bits 5-3, the source in bits 2-0.
#[verifier::rlimit(100)]
pub proof fn lemma_load_block(s: CpuModel, op: u8)
    requires
        0x40 <= op < 0x80,
        op % 8 != 6,
        (op / 8) % 8 != 6,
    ensures
        main_next(s, op) == (LdRR { rt: register_field((op / 8) % 8), rs: register_field(op % 8) }).next_state(s),
{
    reveal(main_next);
    // One arm per opcode: each reads its entry of the table.
    match op {
        0x40u8 => {}, 0x41u8 => {}, 0x42u8 => {}, 0x43u8 => {},
        0x44u8 => {}, 0x45u8 => {}, 0x47u8 => {}, 0x48u8 => {},
        0x49u8 => {}, 0x4Au8 => {}, 0x4Bu8 => {}, 0x4Cu8 => {},
        0x4Du8 => {}, 0x4Fu8 => {}, 0x50u8 => {}, 0x51u8 => {},
        0x52u8 => {}, 0x53u8 => {}, 0x54u8 => {}, 0x55u8 => {},
        0x57u8 => {}, 0x58u8 => {}, 0x59u8 => {}, 0x5Au8 => {},
        0x5Bu8 => {}, 0x5Cu8 => {}, 0x5Du8 => {}, 0x5Fu8 => {},
        0x60u8 => {}, 0x61u8 => {}, 0x62u8 => {}, 0x63u8 => {},
        0x64u8 => {}, 0x65u8 => {}, 0x67u8 => {}, 0x68u8 => {},
        0x69u8 => {}, 0x6Au8 => {}, 0x6Bu8 => {}, 0x6Cu8 => {},
        0x6Du8 => {}, 0x6Fu8 => {}, 0x78u8 => {}, 0x79u8 => {},
        0x7Au8 => {}, 0x7Bu8 => {}, 0x7Cu8 => {}, 0x7Du8 => {},
        0x7Fu8 => {},
        _ => {},
    }
}

#[verifier::spinoff_prover]
proof fn lemma_add_row(s: CpuModel, op: u8)
    requires
        0x80 <= op < 0x88,
        op % 8 != 6,
    ensures
        main_next(s, op) == (AddR { r: register_field(op % 8) }).next_state(s),
{
    reveal(main_next);
    // One arm per opcode: each reads its entry of the table.
    match op {
        0x80u8 => {}, 0x81u8 => {}, 0x82u8 => {}, 0x83u8 => {},
        0x84u8 => {}, 0x85u8 => {}, 0x87u8 => {},
        _ => {},
    }
}

#[verifier::spinoff_prover]
proof fn lemma_adc_row(s: CpuModel, op: u8)
    requires
        0x88 <= op < 0x90,
        op % 8 != 6,
    ensures
        main_next(s, op) == (AdcR { r: register_field(op % 8) }).next_state(s),
{
    reveal(main_next);
    // One arm per opcode: each reads its entry of the table.
    match op {
        0x88u8 => {}, 0x89u8 => {}, 0x8Au8 => {}, 0x8Bu8 => {},
        0x8Cu8 => {}, 0x8Du8 => {}, 0x8Fu8 => {},
        _ => {},
    }
}

#[verifier::spinoff_prover]
proof fn lemma_sub_row(s: CpuModel, op: u8)
    requires
        0x90 <= op < 0x98,
        op % 8 != 6,
    ensures
        main_next(s, op) == (SubR { r: register_field(op % 8) }).next_state(s),
{
    reveal(main_next);
    // One arm per opcode: each reads its entry of the table.
    match op {
        0x90u8 => {}, 0x91u8 => {}, 0x92u8 => {}, 0x93u8 => {},
        0x94u8 => {}, 0x95u8 => {}, 0x97u8 => {},
        _ => {},
    }
}

#[verifier::spinoff_prover]
proof fn lemma_sbc_row(s: CpuModel, op: u8)
    requires
        0x98 <= op < 0xA0,
        op % 8 != 6,
    ensures
        main_next(s, op) == (SbcR { r: register_field(op % 8) }).next_state(s),
{
    reveal(main_next);
    // One arm per opcode: each reads its entry of the table.
    match op {
        0x98u8 => {}, 0x99u8 => {}, 0x9Au8 => {}, 0x9Bu8 => {},
        0x9Cu8 => {}, 0x9Du8 => {}, 0x9Fu8 => {},
        _ => {},
    }
}

#[verifier::spinoff_prover]
proof fn lemma_and_row(s: CpuModel, op: u8)
    requires
        0xA0 <= op < 0xA8,
        op % 8 != 6,
    ensures
        main_next(s, op) == (AndR { r: register_field(op % 8) }).next_state(s),
{
    reveal(main_next);
    // One arm per opcode: each reads its entry of the table.
    match op {
        0xA0u8 => {}, 0xA1u8 => {}, 0xA2u8 => {}, 0xA3u8 => {},
        0xA4u8 => {}, 0xA5u8 => {}, 0xA7u8 => {},
        _ => {},
    }
}

#[verifier::spinoff_prover]
proof fn lemma_xor_row(s: CpuModel, op: u8)
    requires
        0xA8 <= op < 0xB0,
        op % 8 != 6,
    ensures
        main_next(s, op) == (XorR { r: register_field(op % 8) }).next_state(s),
{
    reveal(main_next);
    // One arm per opcode: each reads its entry of the table.
    match op {
        0xA8u8 => {}, 0xA9u8 => {}, 0xAAu8 => {}, 0xABu8 => {},
        0xACu8 => {}, 0xADu8 => {}, 0xAFu8 => {},
        _ => {},
    }
}

#[verifier::spinoff_prover]
proof fn lemma_or_row(s: CpuModel, op: u8)
    requires
        0xB0 <= op < 0xB8,
        op % 8 != 6,
    ensures
        main_next(s, op) == (OrR { r: register_field(op % 8) }).next_state(s),
{
    reveal(main_next);
    // One arm per opcode: each reads its entry of the table.
    match op {
        0xB0u8 => {}, 0xB1u8 => {}, 0xB2u8 => {}, 0xB3u8 => {},
        0xB4u8 => {}, 0xB5u8 => {}, 0xB7u8 => {},
        _ => {},
    }
}

#[verifier::spinoff_prover]
proof fn lemma_cp_row(s: CpuModel, op: u8)
    requires
        0xB8 <= op < 0xC0,
        op % 8 != 6,
    ensures
        main_next(s, op) == (CpR { r: register_field(op % 8) }).next_state(s),
{
    reveal(main_next);
    // One arm per opcode: each reads its entry of the table.
    match op {
        0xB8u8 => {}, 0xB9u8 => {}, 0xBAu8 => {}, 0xBBu8 => {},
        0xBCu8 => {}, 0xBDu8 => {}, 0xBFu8 => {},
        _ => {},
    }
}

/// Opcodes 80 to BF (hex) that name no (HL) apply, by bits 5-3, ADD, ADC,
/// SUB, SBC, AND, XOR, OR or CP to A and the register in bits 2-0.
pub proof fn lemma_alu_block(s: CpuModel, op: u8)
    requires
        0x80 <= op < 0xC0,
        op % 8 != 6,
    ensures
        ({
            let r = register_field(op % 8);
            let k = (op / 8) % 8;
            main_next(s, op) == if k == 0 {
                (AddR { r: r }).next_state(s)
            } else if k == 1 {
                (AdcR { r: r }).next_state(s)
            } else if k == 2 {
                (SubR { r: r }).next_state(s)
            } else if k == 3 {
                (SbcR { r: r }).next_state(s)
            } else if k == 4 {
                (AndR { r: r }).next_state(s)
            } else if k == 5 {
                (XorR { r: r }).next_state(s)
            } else if k == 6 {
                (OrR { r: r }).next_state(s)
            } else {
                (CpR { r: r }).next_state(s)
            }
        }),
{
    if op < 0x88 {
        lemma_add_row(s, op);
    } else if op < 0x90 {
        lemma_adc_row(s, op);
    } else if op < 0x98 {
        lemma_sub_row(s, op);
    } else if op < 0xA0 {
        lemma_sbc_row(s, op);
    } else if op < 0xA8 {
        lemma_and_row(s, op);
    } else if op < 0xB0 {
        lemma_xor_row(s, op);
    } else if op < 0xB8 {
        lemma_or_row(s, op);
    } else {
        lemma_cp_row(s, op);
    }
}

/// Below 40 (hex), opcodes ending in 4 or C are INC r, with the register in
/// bits 5-3 (except (HL)).
#[verifier::spinoff_prover]
#[verifier::rlimit(100)]
pub proof fn lemma_inc_column(s: CpuModel, op: u8)
    requires
        op < 0x40,
        op % 8 == 4,
        (op / 8) % 8 != 6,
    ensures
        main_next(s, op) == (IncR { r: register_field((op / 8) % 8) }).next_state(s),
{
    reveal(main_next);
    // One arm per opcode: each reads its entry of the table.
    match op {
        0x04u8 => {}, 0x0Cu8 => {}, 0x14u8 => {}, 0x1Cu8 => {},
        0x24u8 => {}, 0x2Cu8 => {}, 0x3Cu8 => {},
        _ => {},
    }
}

/// Below 40 (hex), opcodes ending in 5 or D are DEC r, with the register in
/// bits 5-3 (except (HL)).
#[verifier::spinoff_prover]
#[verifier::rlimit(100)]
pub proof fn lemma_dec_column(s: CpuModel, op: u8)
    requires
        op < 0x40,
        op % 8 == 5,
        (op / 8) % 8 != 6,
    ensures
        main_next(s, op) == (DecR { r: register_field((op / 8) % 8) }).next_state(s),
{
    reveal(main_next);
    // One arm per opcode: each reads its entry of the table.
    match op {
        0x05u8 => {}, 0x0Du8 => {}, 0x15u8 => {}, 0x1Du8 => {},
        0x25u8 => {}, 0x2Du8 => {}, 0x3Du8 => {},
        _ => {},
    }
}

} // verus!
