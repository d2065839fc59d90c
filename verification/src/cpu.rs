use vstd::prelude::*;
use crate::interconnect::{Interconnect, BusModel};
use crate::machine::SpectrumKeycode;
use crate::peripherals::{UlaModel, key_position};

pub mod laws;
pub mod step;

verus! {

/// The 16-bit registers and register pairs.
#[allow(non_camel_case_types)]
#[derive(Clone, Copy, Debug, PartialEq, Eq, Structural)]
pub enum Reg16 {
    AF,
    BC,
    DE,
    HL,
    AF_ALT,
    BC_ALT,
    DE_ALT,
    HL_ALT,
    SP,
    IX,
    IY,
    WZ,
    IR,
}

/// The 8-bit registers, the halves of the index registers, and the
/// alternate set.
#[allow(non_camel_case_types)]
#[derive(Clone, Copy, Debug, PartialEq, Eq, Structural)]
pub enum Reg8 {
    A,
    B,
    C,
    D,
    E,
    H,
    L,
    IXL,
    IXH,
    IYL,
    IYH,
    I,
    R,
    A_ALT,
    B_ALT,
    C_ALT,
    D_ALT,
    E_ALT,
    H_ALT,
    L_ALT,
    F_ALT,
}

/// The conditions of conditional jumps, calls and returns.
#[derive(Clone, Copy, Debug, PartialEq, Eq, Structural)]
pub enum FlagCond {
    NZ,
    Z,
    NC,
    C,
    PO,
    PE,
    P,
    M,
}

/// A set of bits of the flag register F.
pub type StatusIndicatorFlags = u8;

pub const EMPTY_FLAGS: u8 = 0b00000000;
pub const CARRY_FLAG: u8 = 0b00000001;
pub const ADD_SUBTRACT_FLAG: u8 = 0b00000010;
pub const PARITY_OVERFLOW_FLAG: u8 = 0b00000100;
pub const X_FLAG: u8 = 0b00001000;
pub const HALF_CARRY_FLAG: u8 = 0b00010000;
pub const Y_FLAG: u8 = 0b00100000;
pub const ZERO_FLAG: u8 = 0b01000000;
pub const SIGN_FLAG: u8 = 0b10000000;
pub const ALL_FLAGS: u8 = 0b11111111;

/// T-cycles in one frame of the 128K machine; an interrupt is due each frame.
pub const FRAME_TCYCLES: u32 = 70908;

/// The T-cycle counter must not exceed this when an instruction starts, so
/// that the instruction cannot overflow it.
pub const TCYCLE_CEILING: u32 = 0xFFF0_0000;

/// Most T-cycles that a decoded instruction takes once its opcodes are
/// fetched.
pub const MAX_STEP_TCYCLES: u32 = 0x8000;

/// High byte of a 16-bit value.
pub open spec fn hi8(x: u16) -> u8 {
    (x / 256) as u8
}

/// Low byte of a 16-bit value.
pub open spec fn lo8(x: u16) -> u8 {
    (x % 256) as u8
}

/// The 16-bit value with high byte `h` and low byte `l`.
pub open spec fn word(h: u8, l: u8) -> u16 {
    (h * 256 + l) as u16
}

/// An integer reduced to 8 bits.
pub open spec fn wrap8(x: int) -> u8 {
    (x % 256) as u8
}

/// An integer reduced to 16 bits.
pub open spec fn wrap16(x: int) -> u16 {
    (x % 65536) as u16
}

/// A byte read as a two's complement number.
pub open spec fn sext8(x: u8) -> int {
    if x < 128 {
        x as int
    } else {
        x - 256
    }
}

/// `mask` when `cond` holds, else no bit.
pub open spec fn flag_if(cond: bool, mask: u8) -> u8 {
    if cond {
        mask
    } else {
        0
    }
}

/// `f` with the bits of `mask` set when `cond` holds and cleared otherwise.
pub open spec fn cond_bits(f: u8, mask: u8, cond: bool) -> u8 {
    if cond {
        f | mask
    } else {
        f & !mask
    }
}

/// The register file.
#[derive(Clone, Copy)]
pub struct Regs {
    pub a: u8,
    pub f: u8,
    pub b: u8,
    pub c: u8,
    pub d: u8,
    pub e: u8,
    pub h: u8,
    pub l: u8,
    pub a_alt: u8,
    pub f_alt: u8,
    pub b_alt: u8,
    pub c_alt: u8,
    pub d_alt: u8,
    pub e_alt: u8,
    pub h_alt: u8,
    pub l_alt: u8,
    /// Interrupt vector.
    pub i: u8,
    /// Memory refresh.
    pub r: u8,
    pub ix: u16,
    pub iy: u16,
    pub sp: u16,
    pub pc: u16,
    /// The hidden MEMPTR register.
    pub wz: u16,
    pub iff1: bool,
    pub iff2: bool,
    /// Interrupt mode.
    pub im: u8,
    pub halted: bool,
}

/// The registers at power-on: A and F all ones, SP 0xFFFF, everything else zero.
pub open spec fn power_on_regs() -> Regs {
    Regs {
        a: 0xFF,
        f: ALL_FLAGS,
        b: 0,
        c: 0,
        d: 0,
        e: 0,
        h: 0,
        l: 0,
        a_alt: 0xFF,
        f_alt: ALL_FLAGS,
        b_alt: 0,
        c_alt: 0,
        d_alt: 0,
        e_alt: 0,
        h_alt: 0,
        l_alt: 0,
        i: 0,
        r: 0,
        ix: 0,
        iy: 0,
        sp: 0xFFFF,
        pc: 0,
        wz: 0,
        iff1: false,
        iff2: false,
        im: 0,
        halted: false,
    }
}

impl Regs {
    pub open spec fn reg8(self, r: Reg8) -> u8 {
        match r {
            Reg8::A => self.a,
            Reg8::B => self.b,
            Reg8::C => self.c,
            Reg8::D => self.d,
            Reg8::E => self.e,
            Reg8::H => self.h,
            Reg8::L => self.l,
            Reg8::I => self.i,
            Reg8::R => self.r,
            Reg8::A_ALT => self.a_alt,
            Reg8::B_ALT => self.b_alt,
            Reg8::C_ALT => self.c_alt,
            Reg8::D_ALT => self.d_alt,
            Reg8::E_ALT => self.e_alt,
            Reg8::H_ALT => self.h_alt,
            Reg8::L_ALT => self.l_alt,
            Reg8::F_ALT => self.f_alt,
            Reg8::IXL => lo8(self.ix),
            Reg8::IXH => hi8(self.ix),
            Reg8::IYL => lo8(self.iy),
            Reg8::IYH => hi8(self.iy),
        }
    }

    pub open spec fn with_reg8(self, r: Reg8, v: u8) -> Regs {
        match r {
            Reg8::A => Regs { a: v, ..self },
            Reg8::B => Regs { b: v, ..self },
            Reg8::C => Regs { c: v, ..self },
            Reg8::D => Regs { d: v, ..self },
            Reg8::E => Regs { e: v, ..self },
            Reg8::H => Regs { h: v, ..self },
            Reg8::L => Regs { l: v, ..self },
            Reg8::I => Regs { i: v, ..self },
            Reg8::R => Regs { r: v, ..self },
            Reg8::A_ALT => Regs { a_alt: v, ..self },
            Reg8::B_ALT => Regs { b_alt: v, ..self },
            Reg8::C_ALT => Regs { c_alt: v, ..self },
            Reg8::D_ALT => Regs { d_alt: v, ..self },
            Reg8::E_ALT => Regs { e_alt: v, ..self },
            Reg8::H_ALT => Regs { h_alt: v, ..self },
            Reg8::L_ALT => Regs { l_alt: v, ..self },
            Reg8::F_ALT => Regs { f_alt: v, ..self },
            Reg8::IXL => Regs { ix: word(hi8(self.ix), v), ..self },
            Reg8::IXH => Regs { ix: word(v, lo8(self.ix)), ..self },
            Reg8::IYL => Regs { iy: word(hi8(self.iy), v), ..self },
            Reg8::IYH => Regs { iy: word(v, lo8(self.iy)), ..self },
        }
    }

    pub open spec fn reg16(self, r: Reg16) -> u16 {
        match r {
            Reg16::AF => word(self.a, self.f),
            Reg16::BC => word(self.b, self.c),
            Reg16::DE => word(self.d, self.e),
            Reg16::HL => word(self.h, self.l),
            Reg16::IR => word(self.i, self.r),
            Reg16::AF_ALT => word(self.a_alt, self.f_alt),
            Reg16::BC_ALT => word(self.b_alt, self.c_alt),
            Reg16::DE_ALT => word(self.d_alt, self.e_alt),
            Reg16::HL_ALT => word(self.h_alt, self.l_alt),
            Reg16::SP => self.sp,
            Reg16::IX => self.ix,
            Reg16::IY => self.iy,
            Reg16::WZ => self.wz,
        }
    }

    pub open spec fn with_reg16(self, r: Reg16, v: u16) -> Regs {
        match r {
            Reg16::AF => Regs { a: hi8(v), f: lo8(v), ..self },
            Reg16::BC => Regs { b: hi8(v), c: lo8(v), ..self },
            Reg16::DE => Regs { d: hi8(v), e: lo8(v), ..self },
            Reg16::HL => Regs { h: hi8(v), l: lo8(v), ..self },
            Reg16::IR => Regs { i: hi8(v), r: lo8(v), ..self },
            Reg16::AF_ALT => Regs { a_alt: hi8(v), f_alt: lo8(v), ..self },
            Reg16::BC_ALT => Regs { b_alt: hi8(v), c_alt: lo8(v), ..self },
            Reg16::DE_ALT => Regs { d_alt: hi8(v), e_alt: lo8(v), ..self },
            Reg16::HL_ALT => Regs { h_alt: hi8(v), l_alt: lo8(v), ..self },
            Reg16::SP => Regs { sp: v, ..self },
            Reg16::IX => Regs { ix: v, ..self },
            Reg16::IY => Regs { iy: v, ..self },
            Reg16::WZ => Regs { wz: v, ..self },
        }
    }

    /// Whether every bit of `flag` is set in F.
    pub open spec fn flag(self, flag: u8) -> bool {
        self.f & flag == flag
    }

    /// 1 when the carry flag is set, else 0.
    pub open spec fn carry(self) -> u8 {
        if self.flag(CARRY_FLAG) {
            1
        } else {
            0
        }
    }

    pub open spec fn cond(self, cond: FlagCond) -> bool {
        match cond {
            FlagCond::NZ => !self.flag(ZERO_FLAG),
            FlagCond::Z => self.flag(ZERO_FLAG),
            FlagCond::NC => !self.flag(CARRY_FLAG),
            FlagCond::C => self.flag(CARRY_FLAG),
            FlagCond::PO => !self.flag(PARITY_OVERFLOW_FLAG),
            FlagCond::PE => self.flag(PARITY_OVERFLOW_FLAG),
            FlagCond::P => !self.flag(SIGN_FLAG),
            FlagCond::M => self.flag(SIGN_FLAG),
        }
    }

    pub open spec fn with_f(self, f: u8) -> Regs {
        Regs { f: f, ..self }
    }

    pub open spec fn with_pc(self, pc: u16) -> Regs {
        Regs { pc: pc, ..self }
    }

    /// The registers after the PC moves `n` bytes on.
    pub open spec fn advance_pc(self, n: int) -> Regs {
        Regs { pc: wrap16(self.pc + n), ..self }
    }

    /// The registers after the refresh counter moves `n` on; R keeps 7 bits.
    pub open spec fn bump_r(self, n: int) -> Regs {
        Regs { r: (wrap8(self.r + n) % 128) as u8, ..self }
    }
}

/// The model of the whole processor: registers, T-cycle counter, the
/// address of a refused memory write if one happened, and the bus.
pub struct CpuModel {
    pub regs: Regs,
    pub tcycles: int,
    pub fault: Option<u16>,
    pub bus: BusModel,
}

impl CpuModel {
    pub open spec fn wf(self) -> bool {
        &&& self.bus.wf()
        &&& self.regs.im <= 2
        &&& 0 <= self.tcycles <= u32::MAX
    }

    pub open spec fn set_regs(self, regs: Regs) -> CpuModel {
        CpuModel { regs: regs, ..self }
    }

    pub open spec fn advance(self, dt: int) -> CpuModel {
        CpuModel { tcycles: self.tcycles + dt, ..self }
    }

    /// The byte at `addr`.
    pub open spec fn mem_at(self, addr: u16) -> u8 {
        self.bus.mem.read(addr)
    }

    /// After a memory cycle of `n` T-cycles at `addr`.
    pub open spec fn after_read(self, addr: u16, n: int) -> CpuModel {
        self.advance(self.bus.read_cost(addr, self.tcycles, n))
    }

    /// After a bus cycle without memory request at `addr`.
    pub open spec fn after_no_mreq(self, addr: u16) -> CpuModel {
        self.advance(self.bus.no_mreq_cost(addr, self.tcycles))
    }

    /// Memory written at `addr` with no time passing; the first refused
    /// write is recorded as the fault.
    pub open spec fn with_mem_write(self, addr: u16, val: u8) -> CpuModel {
        CpuModel {
            bus: BusModel { mem: self.bus.mem.write(addr, val), ..self.bus },
            fault: if self.bus.mem.writable(addr) || self.fault is Some { self.fault } else { Some(addr) },
            ..self
        }
    }

    /// After a three T-cycle write of `val` at `addr`.
    pub open spec fn after_write(self, addr: u16, val: u8) -> CpuModel {
        self.after_read(addr, 3).with_mem_write(addr, val)
    }

    /// After the I/O cycles of a read of `port`.
    pub open spec fn after_port_read(self, port: u16) -> CpuModel {
        let s1 = self.advance(self.bus.port_early_cost(port, self.tcycles));
        s1.advance(s1.bus.port_late_cost(port, s1.tcycles))
    }

    /// After the I/O cycles of a write of `val` to `port`.
    pub open spec fn after_port_write(self, port: u16, val: u8) -> CpuModel {
        let s1 = self.advance(self.bus.port_early_cost(port, self.tcycles));
        let s2 = CpuModel { bus: s1.bus.write_port(port, val), ..s1 };
        s2.advance(s2.bus.port_late_cost(port, s2.tcycles))
    }
}

/// The Z80 processor and the bus it drives.
pub struct Cpu {
    regs: Regs,
    /// T-cycles elapsed in the current frame.
    tcycles: u32,
    fault: Option<u16>,
    interconnect: Interconnect,
}

fn power_on() -> (r: Regs)
    ensures
        r == power_on_regs(),
{
    Regs {
        a: 0xFF,
        f: ALL_FLAGS,
        b: 0,
        c: 0,
        d: 0,
        e: 0,
        h: 0,
        l: 0,
        a_alt: 0xFF,
        f_alt: ALL_FLAGS,
        b_alt: 0,
        c_alt: 0,
        d_alt: 0,
        e_alt: 0,
        h_alt: 0,
        l_alt: 0,
        i: 0,
        r: 0,
        ix: 0,
        iy: 0,
        sp: 0xFFFF,
        pc: 0,
        wz: 0,
        iff1: false,
        iff2: false,
        im: 0,
        halted: false,
    }
}

impl Cpu {
    pub closed spec fn view(&self) -> CpuModel {
        CpuModel {
            regs: self.regs,
            tcycles: self.tcycles as int,
            fault: self.fault,
            bus: self.interconnect@,
        }
    }

    pub open spec fn wf(&self) -> bool {
        self@.wf()
    }

    /// The processor at power-on, driving the given bus.
    pub fn new(interconnect: Interconnect) -> (cpu: Cpu)
        requires
            interconnect.wf(),
        ensures
            cpu.wf(),
            cpu@ == (CpuModel { regs: power_on_regs(), tcycles: 0, fault: None, bus: interconnect@ }),
    {
        Cpu { regs: power_on(), tcycles: 0, fault: None, interconnect }
    }

    /// Back to the power-on registers, counter at zero, memory cleared.
    pub fn reset(&mut self)
        requires
            old(self).wf(),
        ensures
            final(self).wf(),
            final(self)@.regs == power_on_regs(),
            final(self)@.tcycles == 0,
            final(self)@.fault == old(self)@.fault,
            final(self)@.bus == (BusModel {
                mem: crate::memory::MemModel {
                    rom0: if old(self)@.bus.mem.writable_rom { Seq::new(old(self)@.bus.mem.rom0.len(), |i: int| 0u8) } else { old(self)@.bus.mem.rom0 },
                    rom1: if old(self)@.bus.mem.writable_rom { Seq::new(old(self)@.bus.mem.rom1.len(), |i: int| 0u8) } else { old(self)@.bus.mem.rom1 },
                    ram: Seq::new(old(self)@.bus.mem.ram.len(), |i: int| 0u8),
                    ..old(self)@.bus.mem
                },
                ..old(self)@.bus
            }),
    {
        self.regs = power_on();
        self.tcycles = 0;
        self.interconnect.reset();
    }

    pub fn read_reg8(&self, reg: Reg8) -> (val: u8)
        ensures
            val == self@.regs.reg8(reg),
    {
        match reg {
            Reg8::A => self.regs.a,
            Reg8::B => self.regs.b,
            Reg8::C => self.regs.c,
            Reg8::D => self.regs.d,
            Reg8::E => self.regs.e,
            Reg8::H => self.regs.h,
            Reg8::L => self.regs.l,
            Reg8::I => self.regs.i,
            Reg8::R => self.regs.r,
            Reg8::A_ALT => self.regs.a_alt,
            Reg8::B_ALT => self.regs.b_alt,
            Reg8::C_ALT => self.regs.c_alt,
            Reg8::D_ALT => self.regs.d_alt,
            Reg8::E_ALT => self.regs.e_alt,
            Reg8::H_ALT => self.regs.h_alt,
            Reg8::L_ALT => self.regs.l_alt,
            Reg8::F_ALT => self.regs.f_alt,
            Reg8::IXL => (self.regs.ix % 256) as u8,
            Reg8::IXH => (self.regs.ix / 256) as u8,
            Reg8::IYL => (self.regs.iy % 256) as u8,
            Reg8::IYH => (self.regs.iy / 256) as u8,
        }
    }

    pub fn write_reg8(&mut self, reg: Reg8, val: u8)
        ensures
            old(self).wf() ==> final(self).wf(),
            final(self)@ == old(self)@.set_regs(old(self)@.regs.with_reg8(reg, val)),
    {
        match reg {
            Reg8::A => self.regs.a = val,
            Reg8::B => self.regs.b = val,
            Reg8::C => self.regs.c = val,
            Reg8::D => self.regs.d = val,
            Reg8::E => self.regs.e = val,
            Reg8::H => self.regs.h = val,
            Reg8::L => self.regs.l = val,
            Reg8::I => self.regs.i = val,
            Reg8::R => self.regs.r = val,
            Reg8::A_ALT => self.regs.a_alt = val,
            Reg8::B_ALT => self.regs.b_alt = val,
            Reg8::C_ALT => self.regs.c_alt = val,
            Reg8::D_ALT => self.regs.d_alt = val,
            Reg8::E_ALT => self.regs.e_alt = val,
            Reg8::H_ALT => self.regs.h_alt = val,
            Reg8::L_ALT => self.regs.l_alt = val,
            Reg8::F_ALT => self.regs.f_alt = val,
            Reg8::IXL => self.regs.ix = (self.regs.ix / 256) * 256 + val as u16,
            Reg8::IXH => self.regs.ix = (val as u16) * 256 + self.regs.ix % 256,
            Reg8::IYL => self.regs.iy = (self.regs.iy / 256) * 256 + val as u16,
            Reg8::IYH => self.regs.iy = (val as u16) * 256 + self.regs.iy % 256,
        }
    }

    pub fn read_reg16(&self, reg: Reg16) -> (val: u16)
        ensures
            val == self@.regs.reg16(reg),
    {
        match reg {
            Reg16::IX => self.regs.ix,
            Reg16::IY => self.regs.iy,
            Reg16::SP => self.regs.sp,
            Reg16::WZ => self.regs.wz,
            _ => {
                let (high, low) = match reg {
                    Reg16::AF => (self.regs.a, self.regs.f),
                    Reg16::BC => (self.regs.b, self.regs.c),
                    Reg16::DE => (self.regs.d, self.regs.e),
                    Reg16::HL => (self.regs.h, self.regs.l),
                    Reg16::IR => (self.regs.i, self.regs.r),
                    Reg16::AF_ALT => (self.regs.a_alt, self.regs.f_alt),
                    Reg16::BC_ALT => (self.regs.b_alt, self.regs.c_alt),
                    Reg16::DE_ALT => (self.regs.d_alt, self.regs.e_alt),
                    _ => (self.regs.h_alt, self.regs.l_alt),
                };
                (high as u16) * 256 + low as u16
            },
        }
    }

    pub fn write_reg16(&mut self, reg: Reg16, val: u16)
        ensures
            old(self).wf() ==> final(self).wf(),
            final(self)@ == old(self)@.set_regs(old(self)@.regs.with_reg16(reg, val)),
    {
        let (high, low) = ((val / 256) as u8, (val % 256) as u8);
        match reg {
            Reg16::AF => {
                self.regs.a = high;
                self.regs.f = low;
            },
            Reg16::BC => {
                self.regs.b = high;
                self.regs.c = low;
            },
            Reg16::DE => {
                self.regs.d = high;
                self.regs.e = low;
            },
            Reg16::HL => {
                self.regs.h = high;
                self.regs.l = low;
            },
            Reg16::IR => {
                self.regs.i = high;
                self.regs.r = low;
            },
            Reg16::AF_ALT => {
                self.regs.a_alt = high;
                self.regs.f_alt = low;
            },
            Reg16::BC_ALT => {
                self.regs.b_alt = high;
                self.regs.c_alt = low;
            },
            Reg16::DE_ALT => {
                self.regs.d_alt = high;
                self.regs.e_alt = low;
            },
            Reg16::HL_ALT => {
                self.regs.h_alt = high;
                self.regs.l_alt = low;
            },
            Reg16::SP => self.regs.sp = val,
            Reg16::IX => self.regs.ix = val,
            Reg16::IY => self.regs.iy = val,
            Reg16::WZ => self.regs.wz = val,
        }
    }

    /// Moves the PC `val` bytes on (modulo 64K).
    pub fn inc_pc(&mut self, val: u16)
        ensures
            old(self).wf() ==> final(self).wf(),
            final(self)@ == old(self)@.set_regs(old(self)@.regs.advance_pc(val as int)),
    {
        self.regs.pc = self.regs.pc.wrapping_add(val);
    }

    /// Moves the PC `val` bytes back (modulo 64K).
    pub fn dec_pc(&mut self, val: u16)
        ensures
            old(self).wf() ==> final(self).wf(),
            final(self)@ == old(self)@.set_regs(old(self)@.regs.advance_pc(-(val as int))),
    {
        self.regs.pc = self.regs.pc.wrapping_sub(val);
    }

    pub fn set_pc(&mut self, val: u16)
        ensures
            old(self).wf() ==> final(self).wf(),
            final(self)@ == old(self)@.set_regs(old(self)@.regs.with_pc(val)),
    {
        self.regs.pc = val;
    }

    pub fn get_pc(&self) -> (pc: u16)
        ensures
            pc == self@.regs.pc,
    {
        self.regs.pc
    }

    /// Moves the refresh counter on by `val`, keeping its low seven bits.
    pub fn inc_r(&mut self, val: u8)
        ensures
            old(self).wf() ==> final(self).wf(),
            final(self)@ == old(self)@.set_regs(old(self)@.regs.bump_r(val as int)),
    {
        self.regs.r = (self.regs.r.wrapping_add(val)) % 128;
    }

    pub fn set_iff1(&mut self)
        ensures
            old(self).wf() ==> final(self).wf(),
            final(self)@ == old(self)@.set_regs(Regs { iff1: true, ..old(self)@.regs }),
    {
        self.regs.iff1 = true;
    }

    pub fn clear_iff1(&mut self)
        ensures
            old(self).wf() ==> final(self).wf(),
            final(self)@ == old(self)@.set_regs(Regs { iff1: false, ..old(self)@.regs }),
    {
        self.regs.iff1 = false;
    }

    pub fn get_iff1(&self) -> (b: bool)
        ensures
            b == self@.regs.iff1,
    {
        self.regs.iff1
    }

    pub fn set_iff2(&mut self)
        ensures
            old(self).wf() ==> final(self).wf(),
            final(self)@ == old(self)@.set_regs(Regs { iff2: true, ..old(self)@.regs }),
    {
        self.regs.iff2 = true;
    }

    pub fn clear_iff2(&mut self)
        ensures
            old(self).wf() ==> final(self).wf(),
            final(self)@ == old(self)@.set_regs(Regs { iff2: false, ..old(self)@.regs }),
    {
        self.regs.iff2 = false;
    }

    pub fn get_iff2(&self) -> (b: bool)
        ensures
            b == self@.regs.iff2,
    {
        self.regs.iff2
    }

    /// Sets the interrupt mode; the modes are 0, 1 and 2.
    pub fn set_im(&mut self, val: u8)
        requires
            val <= 2,
        ensures
            old(self).wf() ==> final(self).wf(),
            final(self)@ == old(self)@.set_regs(Regs { im: val, ..old(self)@.regs }),
    {
        self.regs.im = val;
    }

    pub fn get_im(&self) -> (im: u8)
        ensures
            im == self@.regs.im,
    {
        self.regs.im
    }

    pub fn halt(&mut self)
        ensures
            old(self).wf() ==> final(self).wf(),
            final(self)@ == old(self)@.set_regs(Regs { halted: true, ..old(self)@.regs }),
    {
        self.regs.halted = true;
    }

    pub fn resume(&mut self)
        ensures
            old(self).wf() ==> final(self).wf(),
            final(self)@ == old(self)@.set_regs(Regs { halted: false, ..old(self)@.regs }),
    {
        self.regs.halted = false;
    }

    pub fn is_halted(&self) -> (b: bool)
        ensures
            b == self@.regs.halted,
    {
        self.regs.halted
    }

    /// Sets the bits of `flag` in F.
    pub fn set_flag(&mut self, flag: StatusIndicatorFlags)
        ensures
            old(self).wf() ==> final(self).wf(),
            final(self)@ == old(self)@.set_regs(old(self)@.regs.with_f(old(self)@.regs.f | flag)),
    {
        self.regs.f = self.regs.f | flag;
    }

    /// Clears the bits of `flag` in F.
    pub fn clear_flag(&mut self, flag: StatusIndicatorFlags)
        ensures
            old(self).wf() ==> final(self).wf(),
            final(self)@ == old(self)@.set_regs(old(self)@.regs.with_f(old(self)@.regs.f & !flag)),
    {
        self.regs.f = self.regs.f & !flag;
    }

    /// Whether every bit of `flag` is set in F.
    pub fn get_flag(&self, flag: StatusIndicatorFlags) -> (b: bool)
        ensures
            b == self@.regs.flag(flag),
    {
        self.regs.f & flag == flag
    }

    pub fn get_flags(&self) -> (f: StatusIndicatorFlags)
        ensures
            f == self@.regs.f,
    {
        self.regs.f
    }

    /// Replaces the whole flag register.
    pub fn set_flags(&mut self, flags: StatusIndicatorFlags)
        ensures
            old(self).wf() ==> final(self).wf(),
            final(self)@ == old(self)@.set_regs(old(self)@.regs.with_f(flags)),
    {
        self.regs.f = flags;
    }

    /// Sets the bits of `flag` when `cond` holds, clears them otherwise.
    pub fn cond_flag(&mut self, flag: StatusIndicatorFlags, cond: bool)
        ensures
            old(self).wf() ==> final(self).wf(),
            final(self)@ == old(self)@.set_regs(old(self)@.regs.with_f(cond_bits(old(self)@.regs.f, flag, cond))),
    {
        if cond {
            self.regs.f = self.regs.f | flag;
        } else {
            self.regs.f = self.regs.f & !flag;
        }
    }

    /// Whether F is exactly `flags`.
    pub fn check_flags(&self, flags: StatusIndicatorFlags) -> (b: bool)
        ensures
            b == (self@.regs.f == flags),
    {
        self.regs.f == flags
    }

    pub fn check_cond(&self, cond: FlagCond) -> (b: bool)
        ensures
            b == self@.regs.cond(cond),
    {
        match cond {
            FlagCond::NZ => !self.get_flag(ZERO_FLAG),
            FlagCond::Z => self.get_flag(ZERO_FLAG),
            FlagCond::NC => !self.get_flag(CARRY_FLAG),
            FlagCond::C => self.get_flag(CARRY_FLAG),
            FlagCond::PO => !self.get_flag(PARITY_OVERFLOW_FLAG),
            FlagCond::PE => self.get_flag(PARITY_OVERFLOW_FLAG),
            FlagCond::P => !self.get_flag(SIGN_FLAG),
            FlagCond::M => self.get_flag(SIGN_FLAG),
        }
    }

    fn is_addr_contended(&self, addr: u16) -> (b: bool)
        requires
            self.wf(),
        ensures
            b == self@.bus.is_contended(addr),
    {
        (addr >= 0x4000 && addr < 0x8000) || (addr >= 0xC000 && self.interconnect.memory().get_c000_bank() % 2 != 0)
    }

    /// A memory cycle of `tcycles` T-cycles at `addr`, contention included.
    pub fn contend_read(&mut self, addr: u16, tcycles: u32)
        requires
            old(self).wf(),
            old(self)@.tcycles + 0xFF + tcycles <= u32::MAX,
        ensures
            final(self).wf(),
            final(self)@ == old(self)@.after_read(addr, tcycles as int),
            final(self)@.tcycles <= old(self)@.tcycles + 0xFF + tcycles,
    {
        let cost = self.interconnect.contend_read(addr, self.tcycles, tcycles);
        self.tcycles = self.tcycles + cost;
    }

    /// A bus cycle without memory request at `addr`.
    pub fn contend_read_no_mreq(&mut self, addr: u16)
        requires
            old(self).wf(),
            old(self)@.tcycles + 0x100 <= u32::MAX,
        ensures
            final(self).wf(),
            final(self)@ == old(self)@.after_no_mreq(addr),
            final(self)@.tcycles <= old(self)@.tcycles + 0x100,
    {
        let cost = self.interconnect.contend_read_no_mreq(addr, self.tcycles);
        self.tcycles = self.tcycles + cost;
    }

    /// A write cycle without memory request at `addr`.
    pub fn contend_write_no_mreq(&mut self, addr: u16)
        requires
            old(self).wf(),
            old(self)@.tcycles + 0x100 <= u32::MAX,
        ensures
            final(self).wf(),
            final(self)@ == old(self)@.after_no_mreq(addr),
            final(self)@.tcycles <= old(self)@.tcycles + 0x100,
    {
        let cost = self.interconnect.contend_write_no_mreq(addr, self.tcycles);
        self.tcycles = self.tcycles + cost;
    }

    /// The opcode fetch: four T-cycles at the PC, and the byte there.
    pub fn fetch_op(&mut self) -> (op: u8)
        requires
            old(self).wf(),
            old(self)@.tcycles + 0x103 <= u32::MAX,
        ensures
            final(self).wf(),
            op == old(self)@.mem_at(old(self)@.regs.pc),
            final(self)@ == old(self)@.after_read(old(self)@.regs.pc, 4),
            final(self)@.tcycles <= old(self)@.tcycles + 0x103,
    {
        let curr_pc = self.regs.pc;
        self.contend_read(curr_pc, 4);
        self.interconnect.read_word(curr_pc, self.tcycles)
    }

    /// A memory read: three T-cycles at `addr`, and the byte there.
    pub fn read_word(&mut self, addr: u16) -> (val: u8)
        requires
            old(self).wf(),
            old(self)@.tcycles + 0x103 <= u32::MAX,
        ensures
            final(self).wf(),
            val == old(self)@.mem_at(addr),
            final(self)@ == old(self)@.after_read(addr, 3),
            final(self)@.tcycles <= old(self)@.tcycles + 0x103,
    {
        self.contend_read(addr, 3);
        self.interconnect.read_word(addr, self.tcycles)
    }

    /// A memory write: three T-cycles at `addr`, then the write. The first
    /// write that memory refuses is recorded as the fault.
    pub fn write_word(&mut self, addr: u16, val: u8)
        requires
            old(self).wf(),
            old(self)@.tcycles + 0x103 <= u32::MAX,
        ensures
            final(self).wf(),
            final(self)@ == old(self)@.after_write(addr, val),
            final(self)@.tcycles <= old(self)@.tcycles + 0x103,
    {
        self.contend_read(addr, 3);
        let accepted = self.interconnect.write_word(addr, val, self.tcycles);
        if !accepted && self.fault.is_none() {
            self.fault = Some(addr);
        }
    }

    fn contend_port_early(&mut self, port: u16)
        requires
            old(self).wf(),
            old(self)@.tcycles + 0x100 <= u32::MAX,
        ensures
            final(self).wf(),
            final(self)@ == old(self)@.advance(old(self)@.bus.port_early_cost(port, old(self)@.tcycles)),
            final(self)@.tcycles <= old(self)@.tcycles + 0x100,
    {
        let cost = self.interconnect.contend_port_early(port, self.tcycles);
        self.tcycles = self.tcycles + cost;
    }

    fn contend_port_late(&mut self, port: u16)
        requires
            old(self).wf(),
            old(self)@.tcycles + 0x400 <= u32::MAX,
        ensures
            final(self).wf(),
            final(self)@ == old(self)@.advance(old(self)@.bus.port_late_cost(port, old(self)@.tcycles)),
            final(self)@.tcycles <= old(self)@.tcycles + 0x400,
    {
        let cost = self.interconnect.contend_port_late(port, self.tcycles);
        self.tcycles = self.tcycles + cost;
    }

    /// An input cycle on `port`, and the byte read.
    pub fn read_port(&mut self, port: u16) -> (val: u8)
        requires
            old(self).wf(),
            old(self)@.tcycles + 0x500 <= u32::MAX,
        ensures
            final(self).wf(),
            val == old(self)@.bus.read_port(port),
            final(self)@ == old(self)@.after_port_read(port),
            final(self)@.tcycles <= old(self)@.tcycles + 0x500,
    {
        self.contend_port_early(port);
        self.contend_port_late(port);
        self.interconnect.read_port(port, self.tcycles)
    }

    /// An output cycle writing `val` to `port`.
    pub fn write_port(&mut self, port: u16, val: u8)
        requires
            old(self).wf(),
            old(self)@.tcycles + 0x500 <= u32::MAX,
        ensures
            final(self).wf(),
            final(self)@ == old(self)@.after_port_write(port, val),
            final(self)@.tcycles <= old(self)@.tcycles + 0x500,
    {
        self.contend_port_early(port);
        self.interconnect.write_port(port, val, self.tcycles);
        self.contend_port_late(port);
    }

    /// Writes memory without taking any time.
    pub fn zero_cycle_write_word(&mut self, addr: u16, val: u8)
        requires
            old(self).wf(),
        ensures
            final(self).wf(),
            final(self)@ == old(self)@.with_mem_write(addr, val),
    {
        let accepted = self.interconnect.write_word(addr, val, self.tcycles);
        if !accepted && self.fault.is_none() {
            self.fault = Some(addr);
        }
    }

    /// Reads memory without taking any time.
    pub fn zero_cycle_read_word(&self, addr: u16) -> (val: u8)
        requires
            self.wf(),
        ensures
            val == self@.mem_at(addr),
    {
        self.interconnect.read_word(addr, self.tcycles)
    }

    /// The address of the first refused memory write since the fault was
    /// last cleared, if any.
    pub fn fault(&self) -> (f: Option<u16>)
        ensures
            f == self@.fault,
    {
        self.fault
    }

    /// Replaces the whole register file.
    pub fn set_registers(&mut self, regs: Regs)
        requires
            regs.im <= 2,
        ensures
            old(self).wf() ==> final(self).wf(),
            final(self)@ == old(self)@.set_regs(regs),
    {
        self.regs = regs;
    }

    /// A copy of the register file.
    pub fn registers(&self) -> (r: Regs)
        ensures
            r == self@.regs,
    {
        self.regs
    }

    /// T-cycles elapsed in the current frame.
    pub fn get_tcycles(&self) -> (t: u32)
        ensures
            t == self@.tcycles,
    {
        self.tcycles
    }

    /// Forgets a recorded refused write.
    pub fn clear_fault(&mut self)
        ensures
            old(self).wf() ==> final(self).wf(),
            final(self)@ == (CpuModel { fault: None, ..old(self)@ }),
    {
        self.fault = None;
    }

    /// The bus the processor drives.
    pub fn interconnect(&self) -> (ic: &Interconnect)
        ensures
            ic@ == self@.bus,
            self.wf() ==> ic.wf(),
    {
        &self.interconnect
    }

    /// Marks a key of the keyboard as held down.
    pub fn key_pressed(&mut self, keycode: &SpectrumKeycode)
        requires
            old(self).wf(),
        ensures
            final(self).wf(),
            final(self)@ == (CpuModel {
                bus: BusModel {
                    ula: UlaModel {
                        keyboard_ports: old(self)@.bus.ula.keyboard_ports.update(
                            key_position(*keycode).0 as int,
                            old(self)@.bus.ula.keyboard_ports[key_position(*keycode).0 as int] & !key_position(*keycode).1,
                        ),
                        ..old(self)@.bus.ula
                    },
                    ..old(self)@.bus
                },
                ..old(self)@
            }),
    {
        self.interconnect.key_pressed(keycode);
    }

    /// Marks a key of the keyboard as released.
    pub fn key_released(&mut self, keycode: &SpectrumKeycode)
        requires
            old(self).wf(),
        ensures
            final(self).wf(),
            final(self)@ == (CpuModel {
                bus: BusModel {
                    ula: UlaModel {
                        keyboard_ports: old(self)@.bus.ula.keyboard_ports.update(
                            key_position(*keycode).0 as int,
                            old(self)@.bus.ula.keyboard_ports[key_position(*keycode).0 as int] | key_position(*keycode).1,
                        ),
                        ..old(self)@.bus.ula
                    },
                    ..old(self)@.bus
                },
                ..old(self)@
            }),
    {
        self.interconnect.key_released(keycode);
    }
}

} // verus!
