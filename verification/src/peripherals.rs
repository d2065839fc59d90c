use vstd::prelude::*;
use crate::memory::{Memory, MemModel, NUM_BANKS};
use crate::machine::SpectrumKeycode;

pub mod screen;

verus! {

/// A device that answers reads and writes on I/O ports.
pub trait Peripheral {
    /// What the device needs of its own state to answer.
    spec fn inv(&self) -> bool;

    fn read_port(&self, port: u16) -> u8
        requires
            self.inv(),
    ;

    fn write_port(&mut self, port: u16, val: u8)
        requires
            old(self).inv(),
        ensures
            final(self).inv(),
    ;
}

/// The paging register at port 0x7FFD: bits 0-2 pick the RAM page at 0xC000,
/// bit 4 the ROM.
pub open spec fn paging_write(m: MemModel, val: u8) -> MemModel {
    MemModel { bank_c000: (val % 8) as int, rom: ((val / 16) % 2) as u8, ..m }
}

impl Peripheral for Memory {
    open spec fn inv(&self) -> bool {
        self.wf()
    }

    /// The paging register cannot be read back: the bus floats high.
    fn read_port(&self, port: u16) -> (val: u8)
        ensures
            val == 0xFF,
    {
        0xFF
    }

    fn write_port(&mut self, port: u16, val: u8)
        ensures
            final(self)@ == paging_write(old(self)@, val),
    {
        self.change_bank(val % 8);
        self.change_rom_bank((val / 16) % 2);
    }
}

/// The model of the ULA: the border latch and the eight half-rows of the keyboard.
pub struct UlaModel {
    pub value: u8,
    /// One byte per half-row of the keyboard; a cleared bit is a pressed key.
    pub keyboard_ports: Seq<u8>,
}

/// The keyboard byte read on a port whose high byte is `porth`, looking at
/// the first `n` half-rows: each half-row whose bit is clear in `porth` is
/// scanned, and a key pressed in any scanned half-row clears its bit.
pub open spec fn keyboard_scan(ports: Seq<u8>, porth: u8, n: nat) -> u8
    decreases n,
{
    if n == 0 {
        0xFF
    } else {
        let data = keyboard_scan(ports, porth, (n - 1) as nat);
        if (porth >> ((n - 1) as u8)) & 1 == 0 {
            data & ports[n - 1]
        } else {
            data
        }
    }
}

/// The half-row of the keyboard and the bit in it that a key occupies.
pub open spec fn key_position(key: SpectrumKeycode) -> (u8, u8) {
    match key {
        SpectrumKeycode::Num1 => (3, 0x01),
        SpectrumKeycode::Num2 => (3, 0x02),
        SpectrumKeycode::Num3 => (3, 0x04),
        SpectrumKeycode::Num4 => (3, 0x08),
        SpectrumKeycode::Num5 => (3, 0x10),
        SpectrumKeycode::Num6 => (4, 0x10),
        SpectrumKeycode::Num7 => (4, 0x08),
        SpectrumKeycode::Num8 => (4, 0x04),
        SpectrumKeycode::Num9 => (4, 0x02),
        SpectrumKeycode::Num0 => (4, 0x01),
        SpectrumKeycode::Q => (2, 0x01),
        SpectrumKeycode::W => (2, 0x02),
        SpectrumKeycode::E => (2, 0x04),
        SpectrumKeycode::R => (2, 0x08),
        SpectrumKeycode::T => (2, 0x10),
        SpectrumKeycode::Y => (5, 0x10),
        SpectrumKeycode::U => (5, 0x08),
        SpectrumKeycode::I => (5, 0x04),
        SpectrumKeycode::O => (5, 0x02),
        SpectrumKeycode::P => (5, 0x01),
        SpectrumKeycode::A => (1, 0x01),
        SpectrumKeycode::S => (1, 0x02),
        SpectrumKeycode::D => (1, 0x04),
        SpectrumKeycode::F => (1, 0x08),
        SpectrumKeycode::G => (1, 0x10),
        SpectrumKeycode::H => (6, 0x10),
        SpectrumKeycode::J => (6, 0x08),
        SpectrumKeycode::K => (6, 0x04),
        SpectrumKeycode::L => (6, 0x02),
        SpectrumKeycode::Enter => (6, 0x01),
        SpectrumKeycode::Caps => (0, 0x01),
        SpectrumKeycode::Z => (0, 0x02),
        SpectrumKeycode::X => (0, 0x04),
        SpectrumKeycode::C => (0, 0x08),
        SpectrumKeycode::V => (0, 0x10),
        SpectrumKeycode::B => (7, 0x10),
        SpectrumKeycode::N => (7, 0x08),
        SpectrumKeycode::M => (7, 0x04),
        SpectrumKeycode::Symbol => (7, 0x02),
        SpectrumKeycode::Space => (7, 0x01),
        SpectrumKeycode::NONE => (0, 0x00),
    }
}

fn keyboard_position(key: &SpectrumKeycode) -> (pos: (u8, u8))
    ensures
        pos == key_position(*key),
        pos.0 < 8,
{
    match key {
        SpectrumKeycode::Num1 => (3, 0x01),
        SpectrumKeycode::Num2 => (3, 0x02),
        SpectrumKeycode::Num3 => (3, 0x04),
        SpectrumKeycode::Num4 => (3, 0x08),
        SpectrumKeycode::Num5 => (3, 0x10),
        SpectrumKeycode::Num6 => (4, 0x10),
        SpectrumKeycode::Num7 => (4, 0x08),
        SpectrumKeycode::Num8 => (4, 0x04),
        SpectrumKeycode::Num9 => (4, 0x02),
        SpectrumKeycode::Num0 => (4, 0x01),
        SpectrumKeycode::Q => (2, 0x01),
        SpectrumKeycode::W => (2, 0x02),
        SpectrumKeycode::E => (2, 0x04),
        SpectrumKeycode::R => (2, 0x08),
        SpectrumKeycode::T => (2, 0x10),
        SpectrumKeycode::Y => (5, 0x10),
        SpectrumKeycode::U => (5, 0x08),
        SpectrumKeycode::I => (5, 0x04),
        SpectrumKeycode::O => (5, 0x02),
        SpectrumKeycode::P => (5, 0x01),
        SpectrumKeycode::A => (1, 0x01),
        SpectrumKeycode::S => (1, 0x02),
        SpectrumKeycode::D => (1, 0x04),
        SpectrumKeycode::F => (1, 0x08),
        SpectrumKeycode::G => (1, 0x10),
        SpectrumKeycode::H => (6, 0x10),
        SpectrumKeycode::J => (6, 0x08),
        SpectrumKeycode::K => (6, 0x04),
        SpectrumKeycode::L => (6, 0x02),
        SpectrumKeycode::Enter => (6, 0x01),
        SpectrumKeycode::Caps => (0, 0x01),
        SpectrumKeycode::Z => (0, 0x02),
        SpectrumKeycode::X => (0, 0x04),
        SpectrumKeycode::C => (0, 0x08),
        SpectrumKeycode::V => (0, 0x10),
        SpectrumKeycode::B => (7, 0x10),
        SpectrumKeycode::N => (7, 0x08),
        SpectrumKeycode::M => (7, 0x04),
        SpectrumKeycode::Symbol => (7, 0x02),
        SpectrumKeycode::Space => (7, 0x01),
        SpectrumKeycode::NONE => (0, 0x00),
    }
}

/// The ULA: the keyboard and the border/speaker latch.
pub struct Ula {
    value: u8,
    keyboard_ports: Vec<u8>,
}

impl Ula {
    pub closed spec fn view(&self) -> UlaModel {
        UlaModel { value: self.value, keyboard_ports: self.keyboard_ports@ }
    }

    /// A ULA with no key pressed.
    pub fn new() -> (u: Ula)
        ensures
            u@ == (UlaModel { value: 0, keyboard_ports: Seq::new(8, |i: int| 0xFFu8) }),
            u.inv(),
    {
        let u = Ula { value: 0, keyboard_ports: vec![0xFFu8; 8] };
        assert(u.keyboard_ports@ =~= Seq::new(8, |i: int| 0xFFu8));
        u
    }

    /// Marks a key as held down.
    pub fn key_pressed(&mut self, keycode: &SpectrumKeycode)
        requires
            old(self).inv(),
        ensures
            final(self).inv(),
            final(self)@ == (UlaModel {
                keyboard_ports: old(self)@.keyboard_ports.update(
                    key_position(*keycode).0 as int,
                    old(self)@.keyboard_ports[key_position(*keycode).0 as int] & !key_position(*keycode).1,
                ),
                ..old(self)@
            }),
    {
        let (port, value) = keyboard_position(keycode);
        let p = port as usize;
        let cur = self.keyboard_ports[p];
        self.keyboard_ports[p] = cur & !value;
    }

    /// Marks a key as released.
    pub fn key_released(&mut self, keycode: &SpectrumKeycode)
        requires
            old(self).inv(),
        ensures
            final(self).inv(),
            final(self)@ == (UlaModel {
                keyboard_ports: old(self)@.keyboard_ports.update(
                    key_position(*keycode).0 as int,
                    old(self)@.keyboard_ports[key_position(*keycode).0 as int] | key_position(*keycode).1,
                ),
                ..old(self)@
            }),
    {
        let (port, value) = keyboard_position(keycode);
        let p = port as usize;
        let cur = self.keyboard_ports[p];
        self.keyboard_ports[p] = cur | value;
    }
}

impl Peripheral for Ula {
    open spec fn inv(&self) -> bool {
        self@.keyboard_ports.len() == 8
    }

    /// Scans the keyboard half-rows selected by the cleared bits of the
    /// port's high byte.
    fn read_port(&self, port: u16) -> (data: u8)
        ensures
            data == keyboard_scan(self@.keyboard_ports, (port / 256) as u8, 8),
    {
        let porth: u8 = (port / 256) as u8;
        let mut data: u8 = 0xFF;
        let mut i: u8 = 0;
        assert(self.inv());
        while i < 8
            invariant
                i <= 8,
                self.keyboard_ports@.len() == 8,
                data == keyboard_scan(self@.keyboard_ports, porth, i as nat),
            decreases 8 - i,
        {
            if (porth >> i) & 1 == 0 {
                data = data & self.keyboard_ports[i as usize];
            }
            i = i + 1;
        }
        data
    }

    /// Bit 4 of the written byte drives the latch: set gives 0xFF, clear 0xBF.
    fn write_port(&mut self, port: u16, val: u8)
        ensures
            final(self)@ == (UlaModel {
                value: if val & 0x10 != 0 { 0xFFu8 } else { 0xBFu8 },
                ..old(self)@
            }),
    {
        if val & 0x10 != 0 {
            self.value = 0xFF;
        } else {
            self.value = 0xBF;
        }
    }
}

/// The AY sound chip: only its last written register value is kept.
pub struct Ay {
    value: u8,
}

impl Ay {
    pub closed spec fn view(&self) -> u8 {
        self.value
    }

    pub fn new() -> (ay: Ay)
        ensures
            ay@ == 0,
    {
        Ay { value: 0 }
    }
}

impl Peripheral for Ay {
    open spec fn inv(&self) -> bool {
        true
    }

    /// Reads float high.
    fn read_port(&self, port: u16) -> (val: u8)
        ensures
            val == 0xFF,
    {
        0xFF
    }

    fn write_port(&mut self, port: u16, val: u8)
        ensures
            final(self)@ == val,
    {
        self.value = val;
    }
}

/// Pressing a key that was up and releasing it again leaves the keyboard as
/// it was.
pub proof fn lemma_press_release(ports: Seq<u8>, key: SpectrumKeycode)
    requires
        ports.len() == 8,
        ports[key_position(key).0 as int] & key_position(key).1 == key_position(key).1,
    ensures
        ({
            let (row, bit) = key_position(key);
            let pressed = ports.update(row as int, ports[row as int] & !bit);
            pressed.update(row as int, pressed[row as int] | bit) == ports
        }),
{
    let (row, bit) = key_position(key);
    let p = ports[row as int];
    assert((p & bit) == bit ==> ((p & !bit) | bit) == p) by (bit_vector);
    let pressed = ports.update(row as int, p & !bit);
    assert(pressed.update(row as int, pressed[row as int] | bit) =~= ports);
}

/// With no key down, every half-row reads all ones.
pub proof fn lemma_no_key_reads_ff(porth: u8, n: nat)
    requires
        n <= 8,
    ensures
        keyboard_scan(Seq::new(8, |i: int| 0xFFu8), porth, n) == 0xFF,
    decreases n,
{
    if n > 0 {
        lemma_no_key_reads_ff(porth, (n - 1) as nat);
        assert(0xFFu8 & 0xFFu8 == 0xFFu8) by (bit_vector);
    }
}

/// A key held down reads as a cleared bit on every port that selects its
/// half-row (a cleared bit of the port's high byte).
pub proof fn lemma_pressed_key_reads_zero(ports: Seq<u8>, porth: u8, key: SpectrumKeycode, n: nat)
    requires
        ports.len() == 8,
        key_position(key).0 < n <= 8,
        (porth >> key_position(key).0) & 1 == 0,
        ports[key_position(key).0 as int] & key_position(key).1 == 0,
    ensures
        keyboard_scan(ports, porth, n) & key_position(key).1 == 0,
    decreases n,
{
    let (row, bit) = key_position(key);
    let prev = keyboard_scan(ports, porth, (n - 1) as nat);
    let p = ports[n - 1];
    if row < n - 1 {
        lemma_pressed_key_reads_zero(ports, porth, key, (n - 1) as nat);
        assert(prev & bit == 0 ==> (prev & p) & bit == 0) by (bit_vector);
    } else {
        assert(row == n - 1);
        assert(p & bit == 0 ==> (prev & p) & bit == 0) by (bit_vector);
    }
}

/// The Spectrum's key matrix: eight half-rows of five keys, the key nearest
/// the outside of the keyboard on bit 0. Row 0: CAPS SHIFT, Z, X, C, V;
/// row 1: A to G; row 2: Q to T; row 3: 1 to 5; row 4: 0, 9, 8, 7, 6;
/// row 5: P, O, I, U, Y; row 6: ENTER, L, K, J, H; row 7: SPACE,
/// SYMBOL SHIFT, M, N, B. No key has no bit.
pub proof fn lemma_key_matrix()
    ensures
        key_position(SpectrumKeycode::Caps) == (0u8, 0x01u8),
        key_position(SpectrumKeycode::Z) == (0u8, 0x02u8),
        key_position(SpectrumKeycode::X) == (0u8, 0x04u8),
        key_position(SpectrumKeycode::C) == (0u8, 0x08u8),
        key_position(SpectrumKeycode::V) == (0u8, 0x10u8),
        key_position(SpectrumKeycode::A) == (1u8, 0x01u8),
        key_position(SpectrumKeycode::S) == (1u8, 0x02u8),
        key_position(SpectrumKeycode::D) == (1u8, 0x04u8),
        key_position(SpectrumKeycode::F) == (1u8, 0x08u8),
        key_position(SpectrumKeycode::G) == (1u8, 0x10u8),
        key_position(SpectrumKeycode::Q) == (2u8, 0x01u8),
        key_position(SpectrumKeycode::W) == (2u8, 0x02u8),
        key_position(SpectrumKeycode::E) == (2u8, 0x04u8),
        key_position(SpectrumKeycode::R) == (2u8, 0x08u8),
        key_position(SpectrumKeycode::T) == (2u8, 0x10u8),
        key_position(SpectrumKeycode::Num1) == (3u8, 0x01u8),
        key_position(SpectrumKeycode::Num2) == (3u8, 0x02u8),
        key_position(SpectrumKeycode::Num3) == (3u8, 0x04u8),
        key_position(SpectrumKeycode::Num4) == (3u8, 0x08u8),
        key_position(SpectrumKeycode::Num5) == (3u8, 0x10u8),
        key_position(SpectrumKeycode::Num0) == (4u8, 0x01u8),
        key_position(SpectrumKeycode::Num9) == (4u8, 0x02u8),
        key_position(SpectrumKeycode::Num8) == (4u8, 0x04u8),
        key_position(SpectrumKeycode::Num7) == (4u8, 0x08u8),
        key_position(SpectrumKeycode::Num6) == (4u8, 0x10u8),
        key_position(SpectrumKeycode::P) == (5u8, 0x01u8),
        key_position(SpectrumKeycode::O) == (5u8, 0x02u8),
        key_position(SpectrumKeycode::I) == (5u8, 0x04u8),
        key_position(SpectrumKeycode::U) == (5u8, 0x08u8),
        key_position(SpectrumKeycode::Y) == (5u8, 0x10u8),
        key_position(SpectrumKeycode::Enter) == (6u8, 0x01u8),
        key_position(SpectrumKeycode::L) == (6u8, 0x02u8),
        key_position(SpectrumKeycode::K) == (6u8, 0x04u8),
        key_position(SpectrumKeycode::J) == (6u8, 0x08u8),
        key_position(SpectrumKeycode::H) == (6u8, 0x10u8),
        key_position(SpectrumKeycode::Space) == (7u8, 0x01u8),
        key_position(SpectrumKeycode::Symbol) == (7u8, 0x02u8),
        key_position(SpectrumKeycode::M) == (7u8, 0x04u8),
        key_position(SpectrumKeycode::N) == (7u8, 0x08u8),
        key_position(SpectrumKeycode::B) == (7u8, 0x10u8),
        key_position(SpectrumKeycode::NONE) == (0u8, 0u8),
{
}

/// A write to the paging port 0x7FFD maps RAM page `val & 7` at 0xC000 and
/// selects ROM `(val >> 4) & 1`; the pages at 0x4000 and 0x8000 stay.
pub proof fn lemma_paging_port(m: MemModel, val: u8)
    ensures
        paging_write(m, val).bank_c000 == (val & 7) as int,
        paging_write(m, val).rom == (val >> 4) & 1,
        paging_write(m, val).bank_4000 == m.bank_4000,
        paging_write(m, val).bank_8000 == m.bank_8000,
        paging_write(m, val).ram == m.ram,
{
    assert(val % 8 == val & 7 && (val / 16) % 2 == (val >> 4) & 1) by (bit_vector);
}

} // verus!
