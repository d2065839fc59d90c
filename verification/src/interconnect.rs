use vstd::prelude::*;
use crate::memory::{Memory, MemModel};
use crate::peripherals::{Peripheral, Ula, UlaModel, Ay, keyboard_scan, paging_write, key_position};
use crate::machine::SpectrumKeycode;

verus! {

/// The model of everything on the bus: memory, ULA, AY, and the two tables
/// of ULA contention delays, indexed by the T-cycle of the frame.
pub struct BusModel {
    pub mem: MemModel,
    pub ula: UlaModel,
    pub ay: u8,
    /// Delay, per T-cycle, of a contended memory request.
    pub contention: Seq<u8>,
    /// Delay, per T-cycle, of a contended cycle without memory request.
    pub contention_no_mreq: Seq<u8>,
}

/// The delay that a table gives at T-cycle `t`; past its end, no delay.
pub open spec fn table_delay(table: Seq<u8>, t: int) -> int {
    if 0 <= t < table.len() {
        table[t] as int
    } else {
        0
    }
}

impl BusModel {
    pub open spec fn wf(self) -> bool {
        &&& self.mem.wf()
        &&& self.ula.keyboard_ports.len() == 8
    }

    /// Addresses (and ports) that share the bus with the ULA: 0x4000-0x7FFF,
    /// and 0xC000-0xFFFF when an odd page is there.
    pub open spec fn is_contended(self, addr: u16) -> bool {
        (0x4000 <= addr && addr < 0x8000) || (addr >= 0xC000 && self.mem.c000_contended())
    }

    /// T-cycles taken by a memory cycle of `n` T-cycles at `addr` that starts at `t`.
    pub open spec fn read_cost(self, addr: u16, t: int, n: int) -> int {
        (if self.is_contended(addr) { table_delay(self.contention, t) } else { 0 }) + n
    }

    /// T-cycles taken by a one-cycle bus access without memory request.
    pub open spec fn no_mreq_cost(self, addr: u16, t: int) -> int {
        (if self.is_contended(addr) { table_delay(self.contention_no_mreq, t) } else { 0 }) + 1
    }

    /// T-cycles of the first part of an I/O cycle.
    pub open spec fn port_early_cost(self, port: u16, t: int) -> int {
        self.no_mreq_cost(port, t)
    }

    /// T-cycles of the rest of an I/O cycle.
    pub open spec fn port_late_cost(self, port: u16, t: int) -> int {
        if port % 2 == 0 {
            table_delay(self.contention_no_mreq, t) + 3
        } else if self.is_contended(port) {
            let d1 = table_delay(self.contention_no_mreq, t) + 1;
            let d2 = d1 + table_delay(self.contention_no_mreq, t + d1) + 1;
            d2 + table_delay(self.contention_no_mreq, t + d2) + 1
        } else {
            3
        }
    }

    /// The byte read from an I/O port: the ULA answers even ports, the
    /// paging register 0x7FFD and the AY 0xFFFD/0xBFFD float high, others read 0.
    pub open spec fn read_port(self, port: u16) -> u8 {
        if port % 2 == 0 {
            keyboard_scan(self.ula.keyboard_ports, (port / 256) as u8, 8)
        } else if port == 0x7FFD {
            0xFF
        } else if port == 0xFFFD || port == 0xBFFD {
            0xFF
        } else {
            0
        }
    }

    /// The bus after a write to an I/O port.
    pub open spec fn write_port(self, port: u16, val: u8) -> BusModel {
        if port % 2 == 0 {
            BusModel {
                ula: UlaModel { value: if val & 0x10 != 0 { 0xFFu8 } else { 0xBFu8 }, ..self.ula },
                ..self
            }
        } else if port == 0x7FFD {
            BusModel { mem: paging_write(self.mem, val), ..self }
        } else if port == 0xFFFD || port == 0xBFFD {
            BusModel { ay: val, ..self }
        } else {
            self
        }
    }
}

/// Connects the processor to memory and peripherals, and times its bus cycles.
pub struct Interconnect {
    memory: Memory,
    ay: Ay,
    ula: Ula,
    ula_contention: Vec<u8>,
    ula_contention_no_mreq: Vec<u8>,
}

fn table_at(table: &Vec<u8>, t: u32) -> (d: u8)
    ensures
        d == table_delay(table@, t as int),
{
    if (t as usize) < table.len() {
        table[t as usize]
    } else {
        0
    }
}

impl Interconnect {
    pub closed spec fn view(&self) -> BusModel {
        BusModel {
            mem: self.memory@,
            ula: self.ula@,
            ay: self.ay@,
            contention: self.ula_contention@,
            contention_no_mreq: self.ula_contention_no_mreq@,
        }
    }

    pub open spec fn wf(&self) -> bool {
        self@.wf()
    }

    /// Puts memory, AY and ULA on one bus, with the ULA's contention tables.
    pub fn new(memory: Memory, ay: Ay, ula: Ula, ula_contention: Vec<u8>, ula_contention_no_mreq: Vec<u8>) -> (ic: Interconnect)
        requires
            memory.wf(),
            ula.inv(),
        ensures
            ic.wf(),
            ic@ == (BusModel {
                mem: memory@,
                ula: ula@,
                ay: ay@,
                contention: ula_contention@,
                contention_no_mreq: ula_contention_no_mreq@,
            }),
    {
        Interconnect { memory, ay, ula, ula_contention, ula_contention_no_mreq }
    }

    fn is_addr_contended(&self, addr: u16) -> (b: bool)
        requires
            self.wf(),
        ensures
            b == self@.is_contended(addr),
    {
        (addr >= 0x4000 && addr < 0x8000) || (addr >= 0xC000 && self.memory.get_c000_bank() % 2 != 0)
    }

    /// T-cycles taken by a memory cycle of `tcycles` T-cycles at `addr`
    /// starting at `curr_tcycle`, contention included.
    pub fn contend_read(&self, addr: u16, curr_tcycle: u32, tcycles: u32) -> (cost: u32)
        requires
            self.wf(),
            tcycles + 0xFF <= u32::MAX,
        ensures
            cost == self@.read_cost(addr, curr_tcycle as int, tcycles as int),
            cost <= tcycles + 0xFF,
    {
        let delay: u32 = if self.is_addr_contended(addr) {
            table_at(&self.ula_contention, curr_tcycle) as u32
        } else {
            0
        };
        delay + tcycles
    }

    /// T-cycles taken by a cycle without memory request at `addr`.
    pub fn contend_read_no_mreq(&self, addr: u16, curr_tcycle: u32) -> (cost: u32)
        requires
            self.wf(),
        ensures
            cost == self@.no_mreq_cost(addr, curr_tcycle as int),
            1 <= cost <= 0x100,
    {
        let delay: u32 = if self.is_addr_contended(addr) {
            table_at(&self.ula_contention_no_mreq, curr_tcycle) as u32
        } else {
            0
        };
        delay + 1
    }

    /// T-cycles taken by a write cycle without memory request at `addr`.
    pub fn contend_write_no_mreq(&self, addr: u16, curr_tcycle: u32) -> (cost: u32)
        requires
            self.wf(),
        ensures
            cost == self@.no_mreq_cost(addr, curr_tcycle as int),
            1 <= cost <= 0x100,
    {
        let delay: u32 = if self.is_addr_contended(addr) {
            table_at(&self.ula_contention_no_mreq, curr_tcycle) as u32
        } else {
            0
        };
        delay + 1
    }

    /// The byte at `addr`.
    pub fn read_word(&self, addr: u16, curr_tcycle: u32) -> (val: u8)
        requires
            self.wf(),
        ensures
            val == self@.mem.read(addr),
    {
        self.memory.read_word(addr)
    }

    /// Writes `val` at `addr` when memory allows it (RAM, or ROM made
    /// writable); says whether it did. A refused write changes nothing.
    pub fn write_word(&mut self, addr: u16, val: u8, curr_tcycle: u32) -> (accepted: bool)
        requires
            old(self).wf(),
        ensures
            final(self).wf(),
            accepted == old(self)@.mem.writable(addr),
            final(self)@ == (BusModel { mem: old(self)@.mem.write(addr, val), ..old(self)@ }),
    {
        if self.memory.is_writable(addr) {
            self.memory.write_word(addr, val);
            true
        } else {
            false
        }
    }

    /// T-cycles of the first part of an I/O cycle.
    pub fn contend_port_early(&self, port: u16, curr_tcycle: u32) -> (cost: u32)
        requires
            self.wf(),
        ensures
            cost == self@.port_early_cost(port, curr_tcycle as int),
            1 <= cost <= 0x100,
    {
        let delay: u32 = if self.is_addr_contended(port) {
            table_at(&self.ula_contention_no_mreq, curr_tcycle) as u32
        } else {
            0
        };
        delay + 1
    }

    /// T-cycles of the rest of an I/O cycle.
    pub fn contend_port_late(&self, port: u16, curr_tcycle: u32) -> (cost: u32)
        requires
            self.wf(),
            curr_tcycle + 0x400 <= u32::MAX,
        ensures
            cost == self@.port_late_cost(port, curr_tcycle as int),
            3 <= cost <= 0x400,
    {
        let delay: u32 = if port % 2 == 0 {
            (table_at(&self.ula_contention_no_mreq, curr_tcycle) as u32) + 2
        } else {
            if self.is_addr_contended(port) {
                let mut delay: u32 = 0;
                delay = delay + (table_at(&self.ula_contention_no_mreq, curr_tcycle + delay) as u32) + 1;
                delay = delay + (table_at(&self.ula_contention_no_mreq, curr_tcycle + delay) as u32) + 1;
                delay = delay + table_at(&self.ula_contention_no_mreq, curr_tcycle + delay) as u32;
                delay
            } else {
                2
            }
        };
        delay + 1
    }

    /// Reads an I/O port.
    pub fn read_port(&self, port: u16, curr_tcycle: u32) -> (val: u8)
        requires
            self.wf(),
        ensures
            val == self@.read_port(port),
    {
        if port % 2 == 0 {
            self.ula.read_port(port)
        } else if port == 0x7FFD {
            self.memory.read_port(port)
        } else if port == 0xFFFD || port == 0xBFFD {
            self.ay.read_port(port)
        } else {
            0
        }
    }

    /// Writes an I/O port.
    pub fn write_port(&mut self, port: u16, val: u8, curr_tcycle: u32)
        requires
            old(self).wf(),
        ensures
            final(self).wf(),
            final(self)@ == old(self)@.write_port(port, val),
    {
        if port % 2 == 0 {
            self.ula.write_port(port, val);
        } else if port == 0x7FFD {
            self.memory.write_port(port, val);
        } else if port == 0xFFFD || port == 0xBFFD {
            self.ay.write_port(port, val);
        }
    }

    /// Clears the memory.
    pub fn reset(&mut self)
        requires
            old(self).wf(),
        ensures
            final(self).wf(),
            final(self)@.mem == (MemModel {
                rom0: if old(self)@.mem.writable_rom { Seq::new(old(self)@.mem.rom0.len(), |i: int| 0u8) } else { old(self)@.mem.rom0 },
                rom1: if old(self)@.mem.writable_rom { Seq::new(old(self)@.mem.rom1.len(), |i: int| 0u8) } else { old(self)@.mem.rom1 },
                ram: Seq::new(old(self)@.mem.ram.len(), |i: int| 0u8),
                ..old(self)@.mem
            }),
            final(self)@ == (BusModel { mem: final(self)@.mem, ..old(self)@ }),
    {
        self.memory.clear();
    }

    /// The memory on the bus.
    pub fn memory(&self) -> (m: &Memory)
        ensures
            m@ == self@.mem,
            self.wf() ==> m.wf(),
    {
        &self.memory
    }

    /// The ULA on the bus.
    pub fn ula(&self) -> (u: &Ula)
        ensures
            u@ == self@.ula,
    {
        &self.ula
    }

    /// Marks a key as held down.
    pub fn key_pressed(&mut self, keycode: &SpectrumKeycode)
        requires
            old(self).wf(),
        ensures
            final(self).wf(),
            final(self)@ == (BusModel {
                ula: UlaModel {
                    keyboard_ports: old(self)@.ula.keyboard_ports.update(
                        key_position(*keycode).0 as int,
                        old(self)@.ula.keyboard_ports[key_position(*keycode).0 as int] & !key_position(*keycode).1,
                    ),
                    ..old(self)@.ula
                },
                ..old(self)@
            }),
    {
        self.ula.key_pressed(keycode);
    }

    /// Marks a key as released.
    pub fn key_released(&mut self, keycode: &SpectrumKeycode)
        requires
            old(self).wf(),
        ensures
            final(self).wf(),
            final(self)@ == (BusModel {
                ula: UlaModel {
                    keyboard_ports: old(self)@.ula.keyboard_ports.update(
                        key_position(*keycode).0 as int,
                        old(self)@.ula.keyboard_ports[key_position(*keycode).0 as int] | key_position(*keycode).1,
                    ),
                    ..old(self)@.ula
                },
                ..old(self)@
            }),
    {
        self.ula.key_released(keycode);
    }
}

/// An access to an address that does not share the ULA's bus takes exactly
/// its own T-cycles; one that does never takes less.
pub proof fn lemma_access_costs(b: BusModel, addr: u16, t: int, n: int)
    ensures
        !b.is_contended(addr) ==> b.read_cost(addr, t, n) == n && b.no_mreq_cost(addr, t) == 1,
        b.read_cost(addr, t, n) >= n,
        b.no_mreq_cost(addr, t) >= 1,
{
}

/// The lower RAM window 0x4000-0x7FFF always shares the ULA's bus; 0x8000-
/// 0xBFFF never does.
pub proof fn lemma_contended_windows(b: BusModel, addr: u16)
    ensures
        0x4000 <= addr < 0x8000 ==> b.is_contended(addr),
        0x8000 <= addr < 0xC000 ==> !b.is_contended(addr),
{
}

/// Contended cycles wait as long as their table says for the T-cycle they
/// start on: a memory cycle of `n` T-cycles waits `contention[t]`, a cycle
/// without memory request `contention_no_mreq[t]`.
pub proof fn lemma_contended_costs(b: BusModel, addr: u16, t: int, n: int)
    requires
        b.is_contended(addr),
        0 <= t < b.contention.len(),
        t < b.contention_no_mreq.len(),
    ensures
        b.read_cost(addr, t, n) == n + b.contention[t],
        b.no_mreq_cost(addr, t) == 1 + b.contention_no_mreq[t],
{
}

} // verus!
