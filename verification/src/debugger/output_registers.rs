use vstd::prelude::*;
use crate::cpu::{Reg8, Reg16};

verus! {

/// A set of registers to show, one bit per register.
pub type OutputRegisters = u32;

pub const ONONE: OutputRegisters = 0x00000000;
pub const OA: OutputRegisters = 0x00000001;
pub const OF: OutputRegisters = 0x00000002;
pub const OB: OutputRegisters = 0x00000004;
pub const OC: OutputRegisters = 0x00000008;
pub const OD: OutputRegisters = 0x00000010;
pub const OE: OutputRegisters = 0x00000020;
pub const OH: OutputRegisters = 0x00000040;
pub const OL: OutputRegisters = 0x00000080;
pub const OA_ALT: OutputRegisters = 0x00000100;
pub const OF_ALT: OutputRegisters = 0x00000200;
pub const OB_ALT: OutputRegisters = 0x00000400;
pub const OC_ALT: OutputRegisters = 0x00000800;
pub const OD_ALT: OutputRegisters = 0x00001000;
pub const OE_ALT: OutputRegisters = 0x00002000;
pub const OH_ALT: OutputRegisters = 0x00004000;
pub const OL_ALT: OutputRegisters = 0x00008000;
pub const OIX: OutputRegisters = 0x00010000;
pub const OIY: OutputRegisters = 0x00020000;
pub const OSP: OutputRegisters = 0x00040000;
pub const OPC: OutputRegisters = 0x00080000;
pub const OWZ: OutputRegisters = 0x00100000;
pub const OI: OutputRegisters = 0x00200000;
pub const OR: OutputRegisters = 0x00400080;
pub const OALL: OutputRegisters = 0xFFFFFFFF;

/// The registers that a 16-bit register stands for.
pub open spec fn reg16_outputs(r: Reg16) -> OutputRegisters {
    match r {
        Reg16::AF => OA | OF,
        Reg16::BC => OB | OC,
        Reg16::DE => OD | OE,
        Reg16::HL => OH | OL,
        Reg16::IR => OI | OR,
        Reg16::AF_ALT => OA_ALT | OF_ALT,
        Reg16::BC_ALT => OB_ALT | OC_ALT,
        Reg16::DE_ALT => OD_ALT | OE_ALT,
        Reg16::HL_ALT => OH_ALT | OL_ALT,
        Reg16::SP => OSP,
        Reg16::IX => OIX,
        Reg16::IY => OIY,
        Reg16::WZ => OWZ,
    }
}

/// The registers that an 8-bit register belongs to.
pub open spec fn reg8_outputs(r: Reg8) -> OutputRegisters {
    match r {
        Reg8::A => OA,
        Reg8::B => OB,
        Reg8::C => OC,
        Reg8::D => OD,
        Reg8::E => OE,
        Reg8::H => OH,
        Reg8::L => OL,
        Reg8::I => OI,
        Reg8::R => OR,
        Reg8::A_ALT => OA_ALT,
        Reg8::B_ALT => OB_ALT,
        Reg8::C_ALT => OC_ALT,
        Reg8::D_ALT => OD_ALT,
        Reg8::E_ALT => OE_ALT,
        Reg8::H_ALT => OH_ALT,
        Reg8::L_ALT => OL_ALT,
        Reg8::F_ALT => OF_ALT,
        Reg8::IXL | Reg8::IXH => OIX,
        Reg8::IYL | Reg8::IYH => OIY,
    }
}

#[verifier::when_used_as_spec(reg16_outputs)]
pub fn output_registers_from_reg16(r: Reg16) -> (o: OutputRegisters)
    ensures
        o == reg16_outputs(r),
{
    match r {
        Reg16::AF => OA | OF,
        Reg16::BC => OB | OC,
        Reg16::DE => OD | OE,
        Reg16::HL => OH | OL,
        Reg16::IR => OI | OR,
        Reg16::AF_ALT => OA_ALT | OF_ALT,
        Reg16::BC_ALT => OB_ALT | OC_ALT,
        Reg16::DE_ALT => OD_ALT | OE_ALT,
        Reg16::HL_ALT => OH_ALT | OL_ALT,
        Reg16::SP => OSP,
        Reg16::IX => OIX,
        Reg16::IY => OIY,
        Reg16::WZ => OWZ,
    }
}

#[verifier::when_used_as_spec(reg8_outputs)]
pub fn output_registers_from_reg8(r: Reg8) -> (o: OutputRegisters)
    ensures
        o == reg8_outputs(r),
{
    match r {
        Reg8::A => OA,
        Reg8::B => OB,
        Reg8::C => OC,
        Reg8::D => OD,
        Reg8::E => OE,
        Reg8::H => OH,
        Reg8::L => OL,
        Reg8::I => OI,
        Reg8::R => OR,
        Reg8::A_ALT => OA_ALT,
        Reg8::B_ALT => OB_ALT,
        Reg8::C_ALT => OC_ALT,
        Reg8::D_ALT => OD_ALT,
        Reg8::E_ALT => OE_ALT,
        Reg8::H_ALT => OH_ALT,
        Reg8::L_ALT => OL_ALT,
        Reg8::F_ALT => OF_ALT,
        Reg8::IXL | Reg8::IXH => OIX,
        Reg8::IYL | Reg8::IYH => OIY,
    }
}

} // verus!
