use vstd::prelude::*;
use crate::cpu::{Cpu, CpuModel, Regs, power_on_regs, FRAME_TCYCLES, hi8, lo8};
use crate::cpu::step::{StepError, RUN_TCYCLE_BOUND, cpu_step};
use crate::interconnect::{Interconnect, BusModel};
use crate::memory::{MemoryBuilder, MemModel, BANK_SIZE, NUM_BANKS};
use crate::peripherals::{Ula, UlaModel, Ay, key_position, keyboard_scan, lemma_pressed_key_reads_zero};
use crate::peripherals::screen::{screen_byte, SCREEN_HEIGHT, SCREEN_PITCH};
use crate::snapshot::{Z80Header, snapshot_spec, lemma_header_layout};

verus! {

/// The keys of the Spectrum keyboard, and `NONE` for no key.
#[derive(Clone, Copy, Debug, PartialEq, Eq, Structural)]
pub enum SpectrumKeycode {
    Num0,
    Num1,
    Num2,
    Num3,
    Num4,
    Num5,
    Num6,
    Num7,
    Num8,
    Num9,
    A,
    B,
    C,
    D,
    E,
    F,
    G,
    H,
    I,
    J,
    K,
    L,
    M,
    N,
    O,
    P,
    Q,
    R,
    S,
    T,
    U,
    V,
    W,
    X,
    Y,
    Z,
    Space,
    Enter,
    Caps,
    Symbol,
    NONE,
}

/// The keys of the host keyboard that reach the emulated one.
#[derive(Clone, Copy, Debug, PartialEq, Eq, Structural)]
pub enum HostKey {
    Escape,
    Num1,
    Num2,
    Num3,
    Num4,
    Num5,
    Num6,
    Num7,
    Num8,
    Num9,
    Num0,
    Minus,
    Equals,
    Backspace,
    Tab,
    Q,
    W,
    E,
    R,
    T,
    Y,
    U,
    I,
    O,
    P,
    CapsLock,
    A,
    S,
    D,
    F,
    G,
    H,
    J,
    K,
    L,
    Semicolon,
    Quote,
    Hash,
    Return,
    LShift,
    Z,
    X,
    C,
    V,
    B,
    N,
    M,
    Comma,
    Period,
    Slash,
    RShift,
    LCtrl,
    LAlt,
    Space,
    RAlt,
    RCtrl,
    Mode,
    Left,
    Down,
    Up,
    Right,
}

/// The one or two Spectrum keys that a host key stands for; the second is
/// `NONE` when there is only one (a shifted symbol is the key with Caps or
/// Symbol shift).
pub open spec fn host_key_map(key: HostKey) -> (SpectrumKeycode, SpectrumKeycode) {
    match key {
        HostKey::Escape => (SpectrumKeycode::Num1, SpectrumKeycode::Caps),
        HostKey::Num1 => (SpectrumKeycode::Num1, SpectrumKeycode::NONE),
        HostKey::Num2 => (SpectrumKeycode::Num2, SpectrumKeycode::NONE),
        HostKey::Num3 => (SpectrumKeycode::Num3, SpectrumKeycode::NONE),
        HostKey::Num4 => (SpectrumKeycode::Num4, SpectrumKeycode::NONE),
        HostKey::Num5 => (SpectrumKeycode::Num5, SpectrumKeycode::NONE),
        HostKey::Num6 => (SpectrumKeycode::Num6, SpectrumKeycode::NONE),
        HostKey::Num7 => (SpectrumKeycode::Num7, SpectrumKeycode::NONE),
        HostKey::Num8 => (SpectrumKeycode::Num8, SpectrumKeycode::NONE),
        HostKey::Num9 => (SpectrumKeycode::Num9, SpectrumKeycode::NONE),
        HostKey::Num0 => (SpectrumKeycode::Num0, SpectrumKeycode::NONE),
        HostKey::Minus => (SpectrumKeycode::J, SpectrumKeycode::Symbol),
        HostKey::Equals => (SpectrumKeycode::L, SpectrumKeycode::Symbol),
        HostKey::Backspace => (SpectrumKeycode::Num0, SpectrumKeycode::Caps),
        HostKey::Tab => (SpectrumKeycode::Caps, SpectrumKeycode::Symbol),
        HostKey::Q => (SpectrumKeycode::Q, SpectrumKeycode::NONE),
        HostKey::W => (SpectrumKeycode::W, SpectrumKeycode::NONE),
        HostKey::E => (SpectrumKeycode::E, SpectrumKeycode::NONE),
        HostKey::R => (SpectrumKeycode::R, SpectrumKeycode::NONE),
        HostKey::T => (SpectrumKeycode::T, SpectrumKeycode::NONE),
        HostKey::Y => (SpectrumKeycode::Y, SpectrumKeycode::NONE),
        HostKey::U => (SpectrumKeycode::U, SpectrumKeycode::NONE),
        HostKey::I => (SpectrumKeycode::I, SpectrumKeycode::NONE),
        HostKey::O => (SpectrumKeycode::O, SpectrumKeycode::NONE),
        HostKey::P => (SpectrumKeycode::P, SpectrumKeycode::NONE),
        HostKey::CapsLock => (SpectrumKeycode::Num2, SpectrumKeycode::Caps),
        HostKey::A => (SpectrumKeycode::A, SpectrumKeycode::NONE),
        HostKey::S => (SpectrumKeycode::S, SpectrumKeycode::NONE),
        HostKey::D => (SpectrumKeycode::D, SpectrumKeycode::NONE),
        HostKey::F => (SpectrumKeycode::F, SpectrumKeycode::NONE),
        HostKey::G => (SpectrumKeycode::G, SpectrumKeycode::NONE),
        HostKey::H => (SpectrumKeycode::H, SpectrumKeycode::NONE),
        HostKey::J => (SpectrumKeycode::J, SpectrumKeycode::NONE),
        HostKey::K => (SpectrumKeycode::K, SpectrumKeycode::NONE),
        HostKey::L => (SpectrumKeycode::L, SpectrumKeycode::NONE),
        HostKey::Semicolon => (SpectrumKeycode::O, SpectrumKeycode::Symbol),
        HostKey::Quote => (SpectrumKeycode::Num7, SpectrumKeycode::Symbol),
        HostKey::Hash => (SpectrumKeycode::Num3, SpectrumKeycode::Symbol),
        HostKey::Return => (SpectrumKeycode::Enter, SpectrumKeycode::NONE),
        HostKey::LShift => (SpectrumKeycode::NONE, SpectrumKeycode::Caps),
        HostKey::Z => (SpectrumKeycode::Z, SpectrumKeycode::NONE),
        HostKey::X => (SpectrumKeycode::X, SpectrumKeycode::NONE),
        HostKey::C => (SpectrumKeycode::C, SpectrumKeycode::NONE),
        HostKey::V => (SpectrumKeycode::V, SpectrumKeycode::NONE),
        HostKey::B => (SpectrumKeycode::B, SpectrumKeycode::NONE),
        HostKey::N => (SpectrumKeycode::N, SpectrumKeycode::NONE),
        HostKey::M => (SpectrumKeycode::M, SpectrumKeycode::NONE),
        HostKey::Comma => (SpectrumKeycode::N, SpectrumKeycode::Symbol),
        HostKey::Period => (SpectrumKeycode::M, SpectrumKeycode::Symbol),
        HostKey::Slash => (SpectrumKeycode::V, SpectrumKeycode::Symbol),
        HostKey::RShift => (SpectrumKeycode::NONE, SpectrumKeycode::Caps),
        HostKey::LCtrl => (SpectrumKeycode::NONE, SpectrumKeycode::Symbol),
        HostKey::LAlt => (SpectrumKeycode::NONE, SpectrumKeycode::Symbol),
        HostKey::Space => (SpectrumKeycode::Space, SpectrumKeycode::NONE),
        HostKey::RAlt => (SpectrumKeycode::NONE, SpectrumKeycode::Symbol),
        HostKey::RCtrl => (SpectrumKeycode::NONE, SpectrumKeycode::Symbol),
        HostKey::Mode => (SpectrumKeycode::NONE, SpectrumKeycode::Symbol),
        HostKey::Left => (SpectrumKeycode::Num5, SpectrumKeycode::Caps),
        HostKey::Down => (SpectrumKeycode::Num6, SpectrumKeycode::Caps),
        HostKey::Up => (SpectrumKeycode::Num7, SpectrumKeycode::Caps),
        HostKey::Right => (SpectrumKeycode::Num8, SpectrumKeycode::Caps),
    }
}

/// The Spectrum keys that a host key stands for.
pub fn keyboard_mapping(key: HostKey) -> (keys: (SpectrumKeycode, SpectrumKeycode))
    ensures
        keys == host_key_map(key),
{
    match key {
        HostKey::Escape => (SpectrumKeycode::Num1, SpectrumKeycode::Caps),
        HostKey::Num1 => (SpectrumKeycode::Num1, SpectrumKeycode::NONE),
        HostKey::Num2 => (SpectrumKeycode::Num2, SpectrumKeycode::NONE),
        HostKey::Num3 => (SpectrumKeycode::Num3, SpectrumKeycode::NONE),
        HostKey::Num4 => (SpectrumKeycode::Num4, SpectrumKeycode::NONE),
        HostKey::Num5 => (SpectrumKeycode::Num5, SpectrumKeycode::NONE),
        HostKey::Num6 => (SpectrumKeycode::Num6, SpectrumKeycode::NONE),
        HostKey::Num7 => (SpectrumKeycode::Num7, SpectrumKeycode::NONE),
        HostKey::Num8 => (SpectrumKeycode::Num8, SpectrumKeycode::NONE),
        HostKey::Num9 => (SpectrumKeycode::Num9, SpectrumKeycode::NONE),
        HostKey::Num0 => (SpectrumKeycode::Num0, SpectrumKeycode::NONE),
        HostKey::Minus => (SpectrumKeycode::J, SpectrumKeycode::Symbol),
        HostKey::Equals => (SpectrumKeycode::L, SpectrumKeycode::Symbol),
        HostKey::Backspace => (SpectrumKeycode::Num0, SpectrumKeycode::Caps),
        HostKey::Tab => (SpectrumKeycode::Caps, SpectrumKeycode::Symbol),
        HostKey::Q => (SpectrumKeycode::Q, SpectrumKeycode::NONE),
        HostKey::W => (SpectrumKeycode::W, SpectrumKeycode::NONE),
        HostKey::E => (SpectrumKeycode::E, SpectrumKeycode::NONE),
        HostKey::R => (SpectrumKeycode::R, SpectrumKeycode::NONE),
        HostKey::T => (SpectrumKeycode::T, SpectrumKeycode::NONE),
        HostKey::Y => (SpectrumKeycode::Y, SpectrumKeycode::NONE),
        HostKey::U => (SpectrumKeycode::U, SpectrumKeycode::NONE),
        HostKey::I => (SpectrumKeycode::I, SpectrumKeycode::NONE),
        HostKey::O => (SpectrumKeycode::O, SpectrumKeycode::NONE),
        HostKey::P => (SpectrumKeycode::P, SpectrumKeycode::NONE),
        HostKey::CapsLock => (SpectrumKeycode::Num2, SpectrumKeycode::Caps),
        HostKey::A => (SpectrumKeycode::A, SpectrumKeycode::NONE),
        HostKey::S => (SpectrumKeycode::S, SpectrumKeycode::NONE),
        HostKey::D => (SpectrumKeycode::D, SpectrumKeycode::NONE),
        HostKey::F => (SpectrumKeycode::F, SpectrumKeycode::NONE),
        HostKey::G => (SpectrumKeycode::G, SpectrumKeycode::NONE),
        HostKey::H => (SpectrumKeycode::H, SpectrumKeycode::NONE),
        HostKey::J => (SpectrumKeycode::J, SpectrumKeycode::NONE),
        HostKey::K => (SpectrumKeycode::K, SpectrumKeycode::NONE),
        HostKey::L => (SpectrumKeycode::L, SpectrumKeycode::NONE),
        HostKey::Semicolon => (SpectrumKeycode::O, SpectrumKeycode::Symbol),
        HostKey::Quote => (SpectrumKeycode::Num7, SpectrumKeycode::Symbol),
        HostKey::Hash => (SpectrumKeycode::Num3, SpectrumKeycode::Symbol),
        HostKey::Return => (SpectrumKeycode::Enter, SpectrumKeycode::NONE),
        HostKey::LShift => (SpectrumKeycode::NONE, SpectrumKeycode::Caps),
        HostKey::Z => (SpectrumKeycode::Z, SpectrumKeycode::NONE),
        HostKey::X => (SpectrumKeycode::X, SpectrumKeycode::NONE),
        HostKey::C => (SpectrumKeycode::C, SpectrumKeycode::NONE),
        HostKey::V => (SpectrumKeycode::V, SpectrumKeycode::NONE),
        HostKey::B => (SpectrumKeycode::B, SpectrumKeycode::NONE),
        HostKey::N => (SpectrumKeycode::N, SpectrumKeycode::NONE),
        HostKey::M => (SpectrumKeycode::M, SpectrumKeycode::NONE),
        HostKey::Comma => (SpectrumKeycode::N, SpectrumKeycode::Symbol),
        HostKey::Period => (SpectrumKeycode::M, SpectrumKeycode::Symbol),
        HostKey::Slash => (SpectrumKeycode::V, SpectrumKeycode::Symbol),
        HostKey::RShift => (SpectrumKeycode::NONE, SpectrumKeycode::Caps),
        HostKey::LCtrl => (SpectrumKeycode::NONE, SpectrumKeycode::Symbol),
        HostKey::LAlt => (SpectrumKeycode::NONE, SpectrumKeycode::Symbol),
        HostKey::Space => (SpectrumKeycode::Space, SpectrumKeycode::NONE),
        HostKey::RAlt => (SpectrumKeycode::NONE, SpectrumKeycode::Symbol),
        HostKey::RCtrl => (SpectrumKeycode::NONE, SpectrumKeycode::Symbol),
        HostKey::Mode => (SpectrumKeycode::NONE, SpectrumKeycode::Symbol),
        HostKey::Left => (SpectrumKeycode::Num5, SpectrumKeycode::Caps),
        HostKey::Down => (SpectrumKeycode::Num6, SpectrumKeycode::Caps),
        HostKey::Up => (SpectrumKeycode::Num7, SpectrumKeycode::Caps),
        HostKey::Right => (SpectrumKeycode::Num8, SpectrumKeycode::Caps),
    }
}

/// The bus of a machine just switched on: ROM 0 seen, RAM pages 5, 2 and 0
/// mapped, RAM cleared, no key pressed.
pub open spec fn boot_bus(rom0: Seq<u8>, rom1: Seq<u8>, contention: Seq<u8>, contention_no_mreq: Seq<u8>) -> BusModel {
    BusModel {
        mem: MemModel {
            rom: 0,
            bank_4000: 5,
            bank_8000: 2,
            bank_c000: 0,
            rom0: rom0,
            rom1: rom1,
            ram: Seq::new((NUM_BANKS * BANK_SIZE) as nat, |i: int| 0u8),
            writable_rom: false,
        },
        ula: UlaModel { value: 0, keyboard_ports: Seq::new(8, |i: int| 0xFFu8) },
        ay: 0,
        contention: contention,
        contention_no_mreq: contention_no_mreq,
    }
}

/// The processor with key `k` held down.
pub open spec fn with_key_down(s: CpuModel, k: SpectrumKeycode) -> CpuModel {
    let (row, bit) = key_position(k);
    CpuModel {
        bus: BusModel {
            ula: UlaModel {
                keyboard_ports: s.bus.ula.keyboard_ports.update(row as int, s.bus.ula.keyboard_ports[row as int] & !bit),
                ..s.bus.ula
            },
            ..s.bus
        },
        ..s
    }
}

/// The processor with key `k` released.
pub open spec fn with_key_up(s: CpuModel, k: SpectrumKeycode) -> CpuModel {
    let (row, bit) = key_position(k);
    CpuModel {
        bus: BusModel {
            ula: UlaModel {
                keyboard_ports: s.bus.ula.keyboard_ports.update(row as int, s.bus.ula.keyboard_ports[row as int] | bit),
                ..s.bus.ula
            },
            ..s.bus
        },
        ..s
    }
}

/// The registers that a snapshot's header gives.
pub open spec fn snapshot_regs(h: Z80Header) -> Regs {
    Regs {
        a: h.a,
        f: h.f,
        b: hi8(h.bc),
        c: lo8(h.bc),
        d: hi8(h.de),
        e: lo8(h.de),
        h: hi8(h.hl),
        l: lo8(h.hl),
        a_alt: hi8(h.af_alt),
        f_alt: lo8(h.af_alt),
        b_alt: hi8(h.bc_alt),
        c_alt: lo8(h.bc_alt),
        d_alt: hi8(h.de_alt),
        e_alt: lo8(h.de_alt),
        h_alt: hi8(h.hl_alt),
        l_alt: lo8(h.hl_alt),
        i: h.ir,
        r: h.r,
        ix: h.ix,
        iy: h.iy,
        sp: h.sp,
        pc: h.pc,
        wz: 0,
        iff1: h.iff1,
        iff2: h.iff2,
        im: h.misc2 & 3,
        halted: false,
    }
}

/// The registers that a .z80 file starts a machine with, by the file's byte
/// offsets: A and F from bytes 0 and 1; C, B at 2, 3; L, H at 4, 5; the PC
/// and SP little-endian at 6 and 8; I at 10; R's low seven bits at 11; E, D
/// at 13, 14; C', B' at 15, 16; E', D' at 17, 18; L', H' at 19, 20; A' at 21
/// and F' at 22; IY and IX little-endian at 23 and 25; IFF1 and IFF2 from
/// bytes 27 and 28; the interrupt mode from the low two bits of byte 29.
pub proof fn lemma_snapshot_registers(input: Seq<u8>)
    requires
        input.len() > 30,
    ensures
        ({
            let r = snapshot_regs(snapshot_spec(input)->Ok_0.0);
            &&& r.a == input[0] && r.f == input[1]
            &&& r.c == input[2] && r.b == input[3]
            &&& r.l == input[4] && r.h == input[5]
            &&& r.pc == input[7] * 256 + input[6]
            &&& r.sp == input[9] * 256 + input[8]
            &&& r.i == input[10] && r.r == input[11] % 128
            &&& r.e == input[13] && r.d == input[14]
            &&& r.c_alt == input[15] && r.b_alt == input[16]
            &&& r.e_alt == input[17] && r.d_alt == input[18]
            &&& r.l_alt == input[19] && r.h_alt == input[20]
            &&& r.a_alt == input[21] && r.f_alt == input[22]
            &&& r.iy == input[24] * 256 + input[23]
            &&& r.ix == input[26] * 256 + input[25]
            &&& r.iff1 == (input[27] != 0) && r.iff2 == (input[28] != 0)
            &&& r.im == input[29] & 3
        }),
{
    lemma_header_layout(input);
}

/// The ZX Spectrum 128: the processor, driving memory, ULA and AY.
pub struct Machine {
    cpu: Cpu,
    debug_on: bool,
}

impl Machine {
    pub closed spec fn view(&self) -> CpuModel {
        self.cpu@
    }

    pub closed spec fn wf(&self) -> bool {
        &&& self.cpu.wf()
        &&& self.cpu@.tcycles <= RUN_TCYCLE_BOUND
    }

    /// Whether the machine was started under the debugger.
    pub closed spec fn debugging(&self) -> bool {
        self.debug_on
    }

    /// A machine just switched on, with the two ROM images and the ULA's
    /// two contention tables (delay per T-cycle of the frame).
    pub fn new(start_in_debug: bool, rom0: Vec<u8>, rom1: Vec<u8>, ula_contention: Vec<u8>, ula_contention_no_mreq: Vec<u8>) -> (m: Machine)
        requires
            rom0@.len() >= BANK_SIZE,
            rom1@.len() >= BANK_SIZE,
        ensures
            m.wf(),
            m.debugging() == start_in_debug,
            m@ == (CpuModel {
                regs: power_on_regs(),
                tcycles: 0,
                fault: None,
                bus: boot_bus(rom0@, rom1@, ula_contention@, ula_contention_no_mreq@),
            }),
    {
        let ghost r0 = rom0@;
        let ghost r1 = rom1@;
        let memory = MemoryBuilder::new().rom0(rom0).rom1(rom1).finalize();
        let ula = Ula::new();
        let interconnect = Interconnect::new(memory, Ay::new(), ula, ula_contention, ula_contention_no_mreq);
        let cpu = Cpu::new(interconnect);
        let m = Machine { cpu, debug_on: start_in_debug };
        assert(m@.bus =~= boot_bus(r0, r1, m@.bus.contention, m@.bus.contention_no_mreq));
        m
    }

    /// A machine switched on and then loaded from a snapshot: the registers
    /// from its header (interrupt mode from the low two bits of its last
    /// byte), and the memory image from 0x4000 on, as far as it goes. `None`
    /// when the header gives interrupt mode 3, which does not exist.
    pub fn from_snapshot(
        start_in_debug: bool,
        rom0: Vec<u8>,
        rom1: Vec<u8>,
        ula_contention: Vec<u8>,
        ula_contention_no_mreq: Vec<u8>,
        header: &Z80Header,
        data: &[u8],
    ) -> (m: Option<Machine>)
        requires
            rom0@.len() >= BANK_SIZE,
            rom1@.len() >= BANK_SIZE,
        ensures
            m is Some <==> header.misc2 & 3 != 3,
            match m {
                Some(m) => {
                    &&& m.wf()
                    &&& m.debugging() == start_in_debug
                    &&& m@.regs == snapshot_regs(*header)
                    &&& m@.tcycles == 0
                    &&& m@.bus.mem.bank_4000 == 5 && m@.bus.mem.bank_8000 == 2 && m@.bus.mem.bank_c000 == 0
                    &&& forall|i: int| 0 <= i < data@.len() && i < 0xC000 ==> #[trigger] m@.mem_at((0x4000 + i) as u16) == data@[i]
                },
                None => true,
            },
    {
        let misc2: u8 = header.misc2;
        let im: u8 = misc2 & 3;
        if im == 3 {
            return None;
        }
        assert(im <= 3) by (bit_vector)
            requires
                im == misc2 & 3,
        ;
        let mut m = Machine::new(start_in_debug, rom0, rom1, ula_contention, ula_contention_no_mreq);
        let regs = Regs {
            a: header.a,
            f: header.f,
            b: (header.bc / 256) as u8,
            c: (header.bc % 256) as u8,
            d: (header.de / 256) as u8,
            e: (header.de % 256) as u8,
            h: (header.hl / 256) as u8,
            l: (header.hl % 256) as u8,
            a_alt: (header.af_alt / 256) as u8,
            f_alt: (header.af_alt % 256) as u8,
            b_alt: (header.bc_alt / 256) as u8,
            c_alt: (header.bc_alt % 256) as u8,
            d_alt: (header.de_alt / 256) as u8,
            e_alt: (header.de_alt % 256) as u8,
            h_alt: (header.hl_alt / 256) as u8,
            l_alt: (header.hl_alt % 256) as u8,
            i: header.ir,
            r: header.r,
            ix: header.ix,
            iy: header.iy,
            sp: header.sp,
            pc: header.pc,
            wz: 0,
            iff1: header.iff1,
            iff2: header.iff2,
            im: im,
            halted: false,
        };
        m.cpu.set_registers(regs);
        let n: usize = if data.len() < 0xC000 { data.len() } else { 0xC000 };
        let mut i: usize = 0;
        while i < n
            invariant
                i <= n,
                n <= data@.len(),
                n <= 0xC000,
                m.wf(),
                m.debugging() == start_in_debug,
                m@.regs == snapshot_regs(*header),
                m@.tcycles == 0,
                m@.bus.mem.bank_4000 == 5 && m@.bus.mem.bank_8000 == 2 && m@.bus.mem.bank_c000 == 0,
                forall|j: int| 0 <= j < i ==> #[trigger] m@.mem_at((0x4000 + j) as u16) == data@[j],
            decreases n - i,
        {
            let addr: u16 = (0x4000 + i) as u16;
            let ghost before = m@;
            m.cpu.zero_cycle_write_word(addr, data[i]);
            assert(m@.bus.mem == before.bus.mem.write(addr, data@[i as int]));
            assert forall|j: int| 0 <= j <= i implies #[trigger] m@.mem_at((0x4000 + j) as u16) == data@[j] by {
                let b = (0x4000 + j) as u16;
                assert(b == 0x4000 + j);
                assert(addr == 0x4000 + i);
                crate::memory::lemma_write_then_read(before.bus.mem, addr, data@[i as int], b);
                if j < i {
                    assert(before.bus.mem.ram_index(b) != before.bus.mem.ram_index(addr));
                    assert(before.mem_at(b) == data@[j]);
                }
            }
            i = i + 1;
        }
        proof {
            assert(im == header.misc2 & 3);
        }
        Some(m)
    }

    pub fn debug_on(&self) -> (b: bool)
        ensures
            b == self.debugging(),
    {
        self.debug_on
    }

    /// The processor.
    pub fn cpu(&self) -> (cpu: &Cpu)
        ensures
            cpu@ == self@,
            self.wf() ==> cpu.wf(),
    {
        &self.cpu
    }

    /// T-cycles into the current frame.
    pub fn tcycles(&self) -> (t: u32)
        ensures
            t == self@.tcycles,
    {
        self.cpu.get_tcycles()
    }

    /// Whether a frame is complete, so that the picture is due.
    pub fn frame_ready(&self) -> (b: bool)
        ensures
            b == (self@.tcycles > FRAME_TCYCLES),
    {
        self.cpu.get_tcycles() > FRAME_TCYCLES
    }

    /// The picture, as the ULA draws it from video memory.
    pub fn screen(&self) -> (buf: Vec<u8>)
        requires
            self.wf(),
        ensures
            buf@.len() == SCREEN_HEIGHT * SCREEN_PITCH,
            forall|i: int| 0 <= i < buf@.len() ==> buf@[i] == screen_byte(self@.bus.mem, i),
    {
        let ic = self.cpu.interconnect();
        ic.ula().display(ic.memory())
    }

    /// A host key goes down: the Spectrum keys it stands for are pressed.
    pub fn key_down(&mut self, key: HostKey)
        requires
            old(self).wf(),
        ensures
            final(self).wf(),
            final(self).debugging() == old(self).debugging(),
            final(self)@ == with_key_down(with_key_down(old(self)@, host_key_map(key).0), host_key_map(key).1),
    {
        let (k1, k2) = keyboard_mapping(key);
        self.cpu.key_pressed(&k1);
        self.cpu.key_pressed(&k2);
    }

    /// A host key goes up: the Spectrum keys it stands for are released.
    pub fn key_up(&mut self, key: HostKey)
        requires
            old(self).wf(),
        ensures
            final(self).wf(),
            final(self).debugging() == old(self).debugging(),
            final(self)@ == with_key_up(with_key_up(old(self)@, host_key_map(key).0), host_key_map(key).1),
    {
        let (k1, k2) = keyboard_mapping(key);
        self.cpu.key_released(&k1);
        self.cpu.key_released(&k2);
    }

    /// One step: the end-of-frame interrupt check, then one instruction.
    /// Fails when the interrupt or the instruction writes to read-only
    /// memory, or when no table knows the opcode.
    pub fn step(&mut self) -> (r: Result<(), StepError>)
        requires
            old(self).wf(),
        ensures
            final(self).wf(),
            final(self).debugging() == old(self).debugging(),
            (final(self)@, r) == cpu_step(old(self)@),
    {
        self.cpu.step()
    }
}

/// Whether Spectrum key `k` is up in the processor's keyboard.
pub open spec fn key_is_up(s: CpuModel, k: SpectrumKeycode) -> bool {
    s.bus.ula.keyboard_ports[key_position(k).0 as int] & key_position(k).1 == key_position(k).1
}

/// A host key that goes down and up again, while the Spectrum keys it
/// stands for were up, leaves the keyboard as it was.
pub proof fn lemma_key_down_up(s: CpuModel, key: HostKey)
    requires
        s.bus.ula.keyboard_ports.len() == 8,
        key_is_up(s, host_key_map(key).0),
        key_is_up(s, host_key_map(key).1),
    ensures
        with_key_up(with_key_up(with_key_down(with_key_down(s, host_key_map(key).0), host_key_map(key).1), host_key_map(key).0), host_key_map(key).1) == s,
{
    let (k1, k2) = host_key_map(key);
    let (r1, b1) = key_position(k1);
    let (r2, b2) = key_position(k2);
    let p = s.bus.ula.keyboard_ports;
    let t = with_key_up(with_key_up(with_key_down(with_key_down(s, k1), k2), k1), k2);
    if r1 == r2 {
        let x = p[r1 as int];
        assert((x & b1) == b1 && (x & b2) == b2 ==> ((((x & !b1) & !b2) | b1) | b2) == x) by (bit_vector);
    } else {
        let x = p[r1 as int];
        let y = p[r2 as int];
        assert((x & b1) == b1 ==> ((x & !b1) | b1) == x) by (bit_vector);
        assert((y & b2) == b2 ==> ((y & !b2) | b2) == y) by (bit_vector);
    }
    assert(t.bus.ula.keyboard_ports =~= p);
    assert(t.bus.ula == s.bus.ula);
    assert(t.bus == s.bus);
}

/// Letters, digits, SPACE and ENTER stand for the same Spectrum key alone.
pub proof fn lemma_plain_keys()
    ensures
        host_key_map(HostKey::Num1) == (SpectrumKeycode::Num1, SpectrumKeycode::NONE),
        host_key_map(HostKey::Num2) == (SpectrumKeycode::Num2, SpectrumKeycode::NONE),
        host_key_map(HostKey::Num3) == (SpectrumKeycode::Num3, SpectrumKeycode::NONE),
        host_key_map(HostKey::Num4) == (SpectrumKeycode::Num4, SpectrumKeycode::NONE),
        host_key_map(HostKey::Num5) == (SpectrumKeycode::Num5, SpectrumKeycode::NONE),
        host_key_map(HostKey::Num6) == (SpectrumKeycode::Num6, SpectrumKeycode::NONE),
        host_key_map(HostKey::Num7) == (SpectrumKeycode::Num7, SpectrumKeycode::NONE),
        host_key_map(HostKey::Num8) == (SpectrumKeycode::Num8, SpectrumKeycode::NONE),
        host_key_map(HostKey::Num9) == (SpectrumKeycode::Num9, SpectrumKeycode::NONE),
        host_key_map(HostKey::Num0) == (SpectrumKeycode::Num0, SpectrumKeycode::NONE),
        host_key_map(HostKey::Q) == (SpectrumKeycode::Q, SpectrumKeycode::NONE),
        host_key_map(HostKey::W) == (SpectrumKeycode::W, SpectrumKeycode::NONE),
        host_key_map(HostKey::E) == (SpectrumKeycode::E, SpectrumKeycode::NONE),
        host_key_map(HostKey::R) == (SpectrumKeycode::R, SpectrumKeycode::NONE),
        host_key_map(HostKey::T) == (SpectrumKeycode::T, SpectrumKeycode::NONE),
        host_key_map(HostKey::Y) == (SpectrumKeycode::Y, SpectrumKeycode::NONE),
        host_key_map(HostKey::U) == (SpectrumKeycode::U, SpectrumKeycode::NONE),
        host_key_map(HostKey::I) == (SpectrumKeycode::I, SpectrumKeycode::NONE),
        host_key_map(HostKey::O) == (SpectrumKeycode::O, SpectrumKeycode::NONE),
        host_key_map(HostKey::P) == (SpectrumKeycode::P, SpectrumKeycode::NONE),
        host_key_map(HostKey::A) == (SpectrumKeycode::A, SpectrumKeycode::NONE),
        host_key_map(HostKey::S) == (SpectrumKeycode::S, SpectrumKeycode::NONE),
        host_key_map(HostKey::D) == (SpectrumKeycode::D, SpectrumKeycode::NONE),
        host_key_map(HostKey::F) == (SpectrumKeycode::F, SpectrumKeycode::NONE),
        host_key_map(HostKey::G) == (SpectrumKeycode::G, SpectrumKeycode::NONE),
        host_key_map(HostKey::H) == (SpectrumKeycode::H, SpectrumKeycode::NONE),
        host_key_map(HostKey::J) == (SpectrumKeycode::J, SpectrumKeycode::NONE),
        host_key_map(HostKey::K) == (SpectrumKeycode::K, SpectrumKeycode::NONE),
        host_key_map(HostKey::L) == (SpectrumKeycode::L, SpectrumKeycode::NONE),
        host_key_map(HostKey::Z) == (SpectrumKeycode::Z, SpectrumKeycode::NONE),
        host_key_map(HostKey::X) == (SpectrumKeycode::X, SpectrumKeycode::NONE),
        host_key_map(HostKey::C) == (SpectrumKeycode::C, SpectrumKeycode::NONE),
        host_key_map(HostKey::V) == (SpectrumKeycode::V, SpectrumKeycode::NONE),
        host_key_map(HostKey::B) == (SpectrumKeycode::B, SpectrumKeycode::NONE),
        host_key_map(HostKey::N) == (SpectrumKeycode::N, SpectrumKeycode::NONE),
        host_key_map(HostKey::M) == (SpectrumKeycode::M, SpectrumKeycode::NONE),
        host_key_map(HostKey::Space) == (SpectrumKeycode::Space, SpectrumKeycode::NONE),
{
}

/// The other host keys: the cursor keys are CAPS SHIFT with 5 (left), 6
/// (down), 7 (up) and 8 (right); Backspace is CAPS SHIFT with 0 (DELETE),
/// CapsLock CAPS SHIFT with 2, Escape CAPS SHIFT with 1 (EDIT), Tab both
/// shifts (extended mode); the punctuation keys are SYMBOL SHIFT with the
/// key that carries the symbol (- on J, = on L, ; on O, ' on 7, # on 3,
/// comma on N, full stop on M, / on V); the shift, control and alt keys are
/// the shifts alone.
pub proof fn lemma_shifted_keys()
    ensures
        host_key_map(HostKey::Escape) == (SpectrumKeycode::Num1, SpectrumKeycode::Caps),
        host_key_map(HostKey::Minus) == (SpectrumKeycode::J, SpectrumKeycode::Symbol),
        host_key_map(HostKey::Equals) == (SpectrumKeycode::L, SpectrumKeycode::Symbol),
        host_key_map(HostKey::Backspace) == (SpectrumKeycode::Num0, SpectrumKeycode::Caps),
        host_key_map(HostKey::Tab) == (SpectrumKeycode::Caps, SpectrumKeycode::Symbol),
        host_key_map(HostKey::CapsLock) == (SpectrumKeycode::Num2, SpectrumKeycode::Caps),
        host_key_map(HostKey::Semicolon) == (SpectrumKeycode::O, SpectrumKeycode::Symbol),
        host_key_map(HostKey::Quote) == (SpectrumKeycode::Num7, SpectrumKeycode::Symbol),
        host_key_map(HostKey::Hash) == (SpectrumKeycode::Num3, SpectrumKeycode::Symbol),
        host_key_map(HostKey::Return) == (SpectrumKeycode::Enter, SpectrumKeycode::NONE),
        host_key_map(HostKey::LShift) == (SpectrumKeycode::NONE, SpectrumKeycode::Caps),
        host_key_map(HostKey::Comma) == (SpectrumKeycode::N, SpectrumKeycode::Symbol),
        host_key_map(HostKey::Period) == (SpectrumKeycode::M, SpectrumKeycode::Symbol),
        host_key_map(HostKey::Slash) == (SpectrumKeycode::V, SpectrumKeycode::Symbol),
        host_key_map(HostKey::RShift) == (SpectrumKeycode::NONE, SpectrumKeycode::Caps),
        host_key_map(HostKey::LCtrl) == (SpectrumKeycode::NONE, SpectrumKeycode::Symbol),
        host_key_map(HostKey::LAlt) == (SpectrumKeycode::NONE, SpectrumKeycode::Symbol),
        host_key_map(HostKey::RAlt) == (SpectrumKeycode::NONE, SpectrumKeycode::Symbol),
        host_key_map(HostKey::RCtrl) == (SpectrumKeycode::NONE, SpectrumKeycode::Symbol),
        host_key_map(HostKey::Mode) == (SpectrumKeycode::NONE, SpectrumKeycode::Symbol),
        host_key_map(HostKey::Left) == (SpectrumKeycode::Num5, SpectrumKeycode::Caps),
        host_key_map(HostKey::Down) == (SpectrumKeycode::Num6, SpectrumKeycode::Caps),
        host_key_map(HostKey::Up) == (SpectrumKeycode::Num7, SpectrumKeycode::Caps),
        host_key_map(HostKey::Right) == (SpectrumKeycode::Num8, SpectrumKeycode::Caps),
{
}

/// After a host key goes down, each Spectrum key it stands for reads as
/// pressed (a cleared bit) on every port that selects that key's half-row.
pub proof fn lemma_host_key_reads_pressed(s: CpuModel, key: HostKey, porth: u8)
    requires
        s.bus.ula.keyboard_ports.len() == 8,
    ensures
        ({
            let t = with_key_down(with_key_down(s, host_key_map(key).0), host_key_map(key).1);
            let (r1, b1) = key_position(host_key_map(key).0);
            let (r2, b2) = key_position(host_key_map(key).1);
            &&& (porth >> r1) & 1 == 0 ==> keyboard_scan(t.bus.ula.keyboard_ports, porth, 8) & b1 == 0
            &&& (porth >> r2) & 1 == 0 ==> keyboard_scan(t.bus.ula.keyboard_ports, porth, 8) & b2 == 0
        }),
{
    let (k1, k2) = host_key_map(key);
    let (r1, b1) = key_position(k1);
    let (r2, b2) = key_position(k2);
    let p = s.bus.ula.keyboard_ports;
    let p1 = p.update(r1 as int, p[r1 as int] & !b1);
    let p2 = p1.update(r2 as int, p1[r2 as int] & !b2);
    let x = p[r1 as int];
    let y = p1[r2 as int];
    assert(((x & !b1) & !b2) & b1 == 0) by (bit_vector);
    assert((x & !b1) & b1 == 0) by (bit_vector);
    assert((y & !b2) & b2 == 0) by (bit_vector);
    assert(p2[r1 as int] & b1 == 0);
    assert(p2[r2 as int] & b2 == 0);
    if (porth >> r1) & 1 == 0 {
        lemma_pressed_key_reads_zero(p2, porth, k1, 8);
    }
    if (porth >> r2) & 1 == 0 {
        lemma_pressed_key_reads_zero(p2, porth, k2, 8);
    }
}

} // verus!
