//! The interactive debugger: what it makes of a command line, which
//! registers it shows around an instruction, and what its register dump
//! holds. Reading the line and printing are left to the caller.

use vstd::prelude::*;
use crate::cpu::{Cpu, CpuModel, wrap16};
pub use crate::debugger::command::Command;
use crate::debugger::command::command_spec;
use crate::debugger::output_registers::{OutputRegisters, OA, OF, OB, OC, OD, OE, OH, OL, OA_ALT, OF_ALT, OB_ALT, OC_ALT, OD_ALT, OE_ALT, OH_ALT, OL_ALT, OIX, OIY, OSP};
use crate::instructions::{main_accessed, accessed_regs_main};
use crate::instructions::cb::{cb_accessed, accessed_regs_cb};
use crate::instructions::ed::{ed_accessed, accessed_regs_ed};
use crate::instructions::dd::{dd_accessed, accessed_regs_dd};
use crate::instructions::fd::{fd_accessed, accessed_regs_fd};
use crate::instructions::ddcb::{ddcb_accessed, accessed_regs_ddcb};
use crate::instructions::fdcb::{fdcb_accessed, accessed_regs_fdcb};

pub mod command;
pub mod output_registers;

verus! {

/// What the debugger does about a command line.
#[derive(Clone, Copy, Debug, PartialEq, Eq, Structural)]
pub enum DebugAction {
    /// Leave the debugger.
    Quit,
    /// Run on, showing every instruction.
    Continue,
    /// Run this many instructions (at least one).
    Step(u16),
    /// Show the byte at the address.
    ShowByte(u16),
    /// Show the bytes from the first address up to the second (excluded),
    /// sixteen to a line.
    ShowRange(u16, u16),
    /// Say that the command is unknown.
    Unknown,
}

/// A range to dump widened to whole lines of sixteen bytes: the start
/// rounded down, the end rounded up (modulo 64K).
pub open spec fn dump_bounds(start: u16, end: u16) -> (u16, u16) {
    (
        (start - start % 16) as u16,
        if end % 16 == 0 { end } else { wrap16(end + (16 - end % 16)) },
    )
}

/// The debugger's answer to a command line.
pub open spec fn debug_action(line: Seq<u8>) -> DebugAction {
    match command_spec(line) {
        Some(Command::Exit) => DebugAction::Quit,
        Some(Command::Cont) => DebugAction::Continue,
        Some(Command::Step(n)) => if n > 0 { DebugAction::Step(n) } else { DebugAction::Unknown },
        Some(Command::MemRng(a, b)) => DebugAction::ShowRange(dump_bounds(a, b).0, dump_bounds(a, b).1),
        Some(Command::Mem(a)) => DebugAction::ShowByte(a),
        None => DebugAction::Unknown,
    }
}

/// The registers the debugger shows around the instruction at the PC, found
/// from its first bytes (the fourth byte for the DD CB and FD CB forms).
pub open spec fn next_accessed(s: CpuModel) -> (OutputRegisters, OutputRegisters) {
    let pc = s.regs.pc;
    let i0 = s.mem_at(pc);
    let i1 = s.mem_at(wrap16(pc + 1));
    let i3 = s.mem_at(wrap16(pc + 3));
    if i0 == 0xDD && i1 == 0xCB {
        ddcb_accessed(i3)
    } else if i0 == 0xDD {
        dd_accessed(i1)
    } else if i0 == 0xFD && i1 == 0xCB {
        fdcb_accessed(i3)
    } else if i0 == 0xFD {
        fd_accessed(i1)
    } else if i0 == 0xCB {
        cb_accessed(i1)
    } else if i0 == 0xED {
        ed_accessed(i1)
    } else {
        main_accessed(i0)
    }
}

/// What the register dump holds: the registers asked for (the others are
/// left blank), and the PC, counter, interrupt state and memory mapping,
/// which are always shown.
pub struct RegisterView {
    pub a: Option<u8>,
    pub f: Option<u8>,
    pub a_alt: Option<u8>,
    pub f_alt: Option<u8>,
    pub b: Option<u8>,
    pub c: Option<u8>,
    pub b_alt: Option<u8>,
    pub c_alt: Option<u8>,
    pub d: Option<u8>,
    pub e: Option<u8>,
    pub d_alt: Option<u8>,
    pub e_alt: Option<u8>,
    pub h: Option<u8>,
    pub l: Option<u8>,
    pub h_alt: Option<u8>,
    pub l_alt: Option<u8>,
    pub ix: Option<u16>,
    pub iy: Option<u16>,
    pub sp: Option<u16>,
    pub pc: u16,
    pub tcycles: u32,
    pub im: u8,
    pub i: u8,
    pub r: u8,
    pub iff1: bool,
    pub iff2: bool,
    pub rom: usize,
    pub bank_4000: usize,
    pub bank_8000: usize,
    pub bank_c000: usize,
}

/// Whether every register of `reg` is among those asked for.
pub open spec fn shows(regs: OutputRegisters, reg: OutputRegisters) -> bool {
    regs & reg == reg
}

pub open spec fn shown<T>(regs: OutputRegisters, reg: OutputRegisters, v: T) -> Option<T> {
    if shows(regs, reg) {
        Some(v)
    } else {
        None
    }
}

/// The register dump of the processor `s` showing `regs`.
pub open spec fn register_view(s: CpuModel, regs: OutputRegisters) -> RegisterView {
    RegisterView {
        a: shown(regs, OA, s.regs.a),
        f: shown(regs, OF, s.regs.f),
        a_alt: shown(regs, OA_ALT, s.regs.a_alt),
        f_alt: shown(regs, OF_ALT, s.regs.f_alt),
        b: shown(regs, OB, s.regs.b),
        c: shown(regs, OC, s.regs.c),
        b_alt: shown(regs, OB_ALT, s.regs.b_alt),
        c_alt: shown(regs, OC_ALT, s.regs.c_alt),
        d: shown(regs, OD, s.regs.d),
        e: shown(regs, OE, s.regs.e),
        d_alt: shown(regs, OD_ALT, s.regs.d_alt),
        e_alt: shown(regs, OE_ALT, s.regs.e_alt),
        h: shown(regs, OH, s.regs.h),
        l: shown(regs, OL, s.regs.l),
        h_alt: shown(regs, OH_ALT, s.regs.h_alt),
        l_alt: shown(regs, OL_ALT, s.regs.l_alt),
        ix: shown(regs, OIX, s.regs.ix),
        iy: shown(regs, OIY, s.regs.iy),
        sp: shown(regs, OSP, s.regs.sp),
        pc: s.regs.pc,
        tcycles: s.tcycles as u32,
        im: s.regs.im,
        i: s.regs.i,
        r: s.regs.r,
        iff1: s.regs.iff1,
        iff2: s.regs.iff2,
        rom: s.bus.mem.rom as usize,
        bank_4000: s.bus.mem.bank_4000 as usize,
        bank_8000: s.bus.mem.bank_8000 as usize,
        bank_c000: s.bus.mem.bank_c000 as usize,
    }
}

fn show_u8(regs: OutputRegisters, reg: OutputRegisters, v: u8) -> (r: Option<u8>)
    ensures
        r == shown(regs, reg, v),
{
    if regs & reg == reg { Some(v) } else { None }
}

fn show_u16(regs: OutputRegisters, reg: OutputRegisters, v: u16) -> (r: Option<u16>)
    ensures
        r == shown(regs, reg, v),
{
    if regs & reg == reg { Some(v) } else { None }
}

/// The debugger. It keeps no state of its own: it looks at the processor it
/// is handed.
pub struct Debugger {}

impl Debugger {
    pub fn new() -> Debugger {
        Debugger {}
    }

    /// The answer to a command line (without its line break and surrounding
    /// blanks).
    pub fn decide(&self, line: &[u8]) -> (a: DebugAction)
        ensures
            a == debug_action(line@),
    {
        match Command::parse(line) {
            Some(Command::Exit) => DebugAction::Quit,
            Some(Command::Cont) => DebugAction::Continue,
            Some(Command::Step(n)) => if n > 0 { DebugAction::Step(n) } else { DebugAction::Unknown },
            Some(Command::MemRng(a, b)) => {
                let start: u16 = a - a % 16;
                let end: u16 = if b % 16 == 0 { b } else { b.wrapping_add(16 - b % 16) };
                DebugAction::ShowRange(start, end)
            },
            Some(Command::Mem(a)) => DebugAction::ShowByte(a),
            None => DebugAction::Unknown,
        }
    }

    /// The registers to show before and after the instruction at the PC.
    pub fn next_accessed_regs(&self, cpu: &Cpu) -> (regs: (OutputRegisters, OutputRegisters))
        requires
            cpu.wf(),
        ensures
            regs == next_accessed(cpu@),
    {
        let pc: u16 = cpu.get_pc();
        let i0: u8 = cpu.zero_cycle_read_word(pc);
        let i1: u8 = cpu.zero_cycle_read_word(pc.wrapping_add(1));
        let i3: u8 = cpu.zero_cycle_read_word(pc.wrapping_add(3));
        if i0 == 0xDD && i1 == 0xCB {
            accessed_regs_ddcb(i3)
        } else if i0 == 0xDD {
            accessed_regs_dd(i1)
        } else if i0 == 0xFD && i1 == 0xCB {
            accessed_regs_fdcb(i3)
        } else if i0 == 0xFD {
            accessed_regs_fd(i1)
        } else if i0 == 0xCB {
            accessed_regs_cb(i1)
        } else if i0 == 0xED {
            accessed_regs_ed(i1)
        } else {
            accessed_regs_main(i0)
        }
    }

    /// The register dump showing `regs`.
    pub fn output(&self, cpu: &Cpu, regs: OutputRegisters) -> (v: RegisterView)
        requires
            cpu.wf(),
        ensures
            v == register_view(cpu@, regs),
    {
        let r = cpu.registers();
        let mem = cpu.interconnect().memory();
        RegisterView {
            a: show_u8(regs, OA, r.a),
            f: show_u8(regs, OF, r.f),
            a_alt: show_u8(regs, OA_ALT, r.a_alt),
            f_alt: show_u8(regs, OF_ALT, r.f_alt),
            b: show_u8(regs, OB, r.b),
            c: show_u8(regs, OC, r.c),
            b_alt: show_u8(regs, OB_ALT, r.b_alt),
            c_alt: show_u8(regs, OC_ALT, r.c_alt),
            d: show_u8(regs, OD, r.d),
            e: show_u8(regs, OE, r.e),
            d_alt: show_u8(regs, OD_ALT, r.d_alt),
            e_alt: show_u8(regs, OE_ALT, r.e_alt),
            h: show_u8(regs, OH, r.h),
            l: show_u8(regs, OL, r.l),
            h_alt: show_u8(regs, OH_ALT, r.h_alt),
            l_alt: show_u8(regs, OL_ALT, r.l_alt),
            ix: show_u16(regs, OIX, r.ix),
            iy: show_u16(regs, OIY, r.iy),
            sp: show_u16(regs, OSP, r.sp),
            pc: r.pc,
            tcycles: cpu.get_tcycles(),
            im: r.im,
            i: r.i,
            r: r.r,
            iff1: r.iff1,
            iff2: r.iff2,
            rom: mem.get_0000_bank(),
            bank_4000: mem.get_4000_bank(),
            bank_8000: mem.get_8000_bank(),
            bank_c000: mem.get_c000_bank(),
        }
    }
}

} // verus!
