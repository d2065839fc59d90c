use vstd::prelude::*;

verus! {

/// Size of one ROM or RAM page.
pub const BANK_SIZE: usize = 0x4000;

/// Number of 16 KiB RAM pages of the 128K machine.
pub const NUM_BANKS: usize = 8;

/// The mathematical model of the paged memory: two ROMs, eight RAM pages
/// laid out one after the other, and the paging registers.
pub struct MemModel {
    /// Which ROM is seen at 0x0000-0x3FFF (0 or 1).
    pub rom: u8,
    /// RAM page seen at 0x4000-0x7FFF.
    pub bank_4000: int,
    /// RAM page seen at 0x8000-0xBFFF.
    pub bank_8000: int,
    /// RAM page seen at 0xC000-0xFFFF.
    pub bank_c000: int,
    pub rom0: Seq<u8>,
    pub rom1: Seq<u8>,
    /// All eight RAM pages, page `k` at offsets `k * BANK_SIZE ..`.
    pub ram: Seq<u8>,
    /// Whether writes to the ROM area are accepted (used to run test programs).
    pub writable_rom: bool,
}

impl MemModel {
    pub open spec fn wf(self) -> bool {
        &&& self.rom < 2
        &&& 0 <= self.bank_4000 < NUM_BANKS
        &&& 0 <= self.bank_8000 < NUM_BANKS
        &&& 0 <= self.bank_c000 < NUM_BANKS
        &&& self.rom0.len() >= BANK_SIZE
        &&& self.rom1.len() >= BANK_SIZE
        &&& self.ram.len() == NUM_BANKS * BANK_SIZE
    }

    /// Offset in `ram` of an address of the RAM area (0x4000 and above).
    pub open spec fn ram_index(self, addr: u16) -> int {
        if addr < 0x8000 {
            self.bank_4000 * BANK_SIZE + (addr - 0x4000)
        } else if addr < 0xC000 {
            self.bank_8000 * BANK_SIZE + (addr - 0x8000)
        } else {
            self.bank_c000 * BANK_SIZE + (addr - 0xC000)
        }
    }

    /// The byte that the processor sees at `addr`.
    pub open spec fn read(self, addr: u16) -> u8 {
        if addr < 0x4000 {
            if self.rom == 0 {
                self.rom0[addr as int]
            } else {
                self.rom1[addr as int]
            }
        } else {
            self.ram[self.ram_index(addr)]
        }
    }

    /// Whether a write to `addr` is accepted.
    pub open spec fn writable(self, addr: u16) -> bool {
        addr >= 0x4000 || self.writable_rom
    }

    /// The memory after the processor writes `val` at `addr`; a refused write
    /// leaves it unchanged.
    pub open spec fn write(self, addr: u16, val: u8) -> MemModel {
        if addr >= 0x4000 {
            MemModel { ram: self.ram.update(self.ram_index(addr), val), ..self }
        } else if self.writable_rom {
            if self.rom == 0 {
                MemModel { rom0: self.rom0.update(addr as int, val), ..self }
            } else {
                MemModel { rom1: self.rom1.update(addr as int, val), ..self }
            }
        } else {
            self
        }
    }

    /// Whether addresses `a` and `b` name the same byte through the current
    /// paging: the same ROM address, or the same offset of the same RAM page.
    pub open spec fn same_cell(self, a: u16, b: u16) -> bool {
        if a < 0x4000 || b < 0x4000 {
            a == b
        } else {
            self.ram_index(a) == self.ram_index(b)
        }
    }

    /// Whether the page at 0xC000 is one of the odd pages, which share the
    /// ULA's contended bus.
    pub open spec fn c000_contended(self) -> bool {
        self.bank_c000 % 2 != 0
    }
}

/// The paged memory of the 128K machine.
pub struct Memory {
    rom: u8,
    ram_0x4000_0x7fff: usize,
    ram_0x8000_0xbfff: usize,
    ram_0xc000_0xffff: usize,
    rom0: Vec<u8>,
    rom1: Vec<u8>,
    bank: Vec<u8>,
    writable_rom: bool,
}

impl Memory {
    pub closed spec fn view(&self) -> MemModel {
        MemModel {
            rom: self.rom,
            bank_4000: self.ram_0x4000_0x7fff as int,
            bank_8000: self.ram_0x8000_0xbfff as int,
            bank_c000: self.ram_0xc000_0xffff as int,
            rom0: self.rom0@,
            rom1: self.rom1@,
            ram: self.bank@,
            writable_rom: self.writable_rom,
        }
    }

    pub open spec fn wf(&self) -> bool {
        self@.wf()
    }

    fn ram_offset(&self, addr: u16) -> (off: usize)
        requires
            self.wf(),
            addr >= 0x4000,
        ensures
            off == self@.ram_index(addr),
            off < NUM_BANKS * BANK_SIZE,
    {
        if addr < 0x8000 {
            self.ram_0x4000_0x7fff * BANK_SIZE + (addr - 0x4000) as usize
        } else if addr < 0xC000 {
            self.ram_0x8000_0xbfff * BANK_SIZE + (addr - 0x8000) as usize
        } else {
            self.ram_0xc000_0xffff * BANK_SIZE + (addr - 0xC000) as usize
        }
    }

    /// Reads the byte that the processor sees at `addr`.
    pub fn read_word(&self, addr: u16) -> (val: u8)
        requires
            self.wf(),
        ensures
            val == self@.read(addr),
    {
        if addr < 0x4000 {
            if self.rom == 0 {
                self.rom0[addr as usize]
            } else {
                self.rom1[addr as usize]
            }
        } else {
            let off = self.ram_offset(addr);
            self.bank[off]
        }
    }

    /// Whether a write to `addr` is allowed: the RAM area always, the ROM
    /// area only when the ROM was made writable.
    pub fn is_writable(&self, addr: u16) -> (b: bool)
        ensures
            b == self@.writable(addr),
    {
        addr >= 0x4000 || self.writable_rom
    }

    /// Writes `val` at `addr`, which must be writable: RAM, or ROM made
    /// writable.
    pub fn write_word(&mut self, addr: u16, val: u8)
        requires
            old(self).wf(),
            old(self)@.writable(addr),
        ensures
            final(self).wf(),
            final(self)@ == old(self)@.write(addr, val),
    {
        if addr >= 0x4000 {
            let off = self.ram_offset(addr);
            self.bank[off] = val;
        } else if self.rom == 0 {
            self.rom0[addr as usize] = val;
        } else {
            self.rom1[addr as usize] = val;
        }
    }

    /// Selects the RAM page seen at 0xC000.
    pub fn change_bank(&mut self, val: u8)
        requires
            old(self).wf(),
            val < NUM_BANKS,
        ensures
            final(self).wf(),
            final(self)@ == (MemModel { bank_c000: val as int, ..old(self)@ }),
    {
        self.ram_0xc000_0xffff = val as usize;
    }

    /// Selects the ROM seen at 0x0000.
    pub fn change_rom_bank(&mut self, val: u8)
        requires
            old(self).wf(),
            val < 2,
        ensures
            final(self).wf(),
            final(self)@ == (MemModel { rom: val, ..old(self)@ }),
    {
        self.rom = val;
    }

    /// The ROM seen at 0x0000.
    pub fn get_0000_bank(&self) -> (bank: usize)
        ensures
            bank == self@.rom,
    {
        self.rom as usize
    }

    /// The RAM page seen at 0x4000.
    pub fn get_4000_bank(&self) -> (bank: usize)
        ensures
            bank == self@.bank_4000,
    {
        self.ram_0x4000_0x7fff
    }

    /// The RAM page seen at 0x8000.
    pub fn get_8000_bank(&self) -> (bank: usize)
        ensures
            bank == self@.bank_8000,
    {
        self.ram_0x8000_0xbfff
    }

    /// The RAM page seen at 0xC000.
    pub fn get_c000_bank(&self) -> (bank: usize)
        requires
            self.wf(),
        ensures
            bank == self@.bank_c000,
    {
        self.ram_0xc000_0xffff
    }

    /// Sets every RAM byte to zero, and every ROM byte too when the ROM is writable.
    pub fn clear(&mut self)
        requires
            old(self).wf(),
        ensures
            final(self).wf(),
            final(self)@ == (MemModel {
                rom0: if old(self)@.writable_rom { Seq::new(old(self)@.rom0.len(), |i: int| 0u8) } else { old(self)@.rom0 },
                rom1: if old(self)@.writable_rom { Seq::new(old(self)@.rom1.len(), |i: int| 0u8) } else { old(self)@.rom1 },
                ram: Seq::new(old(self)@.ram.len(), |i: int| 0u8),
                ..old(self)@
            }),
    {
        if self.writable_rom {
            zero_fill(&mut self.rom0);
            zero_fill(&mut self.rom1);
        }
        zero_fill(&mut self.bank);
    }
}

fn zero_fill(v: &mut Vec<u8>)
    ensures
        final(v)@ == Seq::new(old(v)@.len(), |i: int| 0u8),
{
    let n = v.len();
    let mut i: usize = 0;
    while i < n
        invariant
            n == v.len(),
            n == old(v)@.len(),
            i <= n,
            forall|j: int| 0 <= j < i ==> v@[j] == 0u8,
        decreases n - i,
    {
        v[i] = 0;
        i = i + 1;
    }
    assert(v@ =~= Seq::new(old(v)@.len(), |i: int| 0u8));
}

/// Builds a `Memory`: both ROMs and all eight RAM pages zeroed, page 5 at
/// 0x4000, page 2 at 0x8000, page 0 at 0xC000, ROM 0 selected, ROM read-only.
pub struct MemoryBuilder {
    rom: u8,
    ram_0x4000_0x7fff: usize,
    ram_0x8000_0xbfff: usize,
    ram_0xc000_0xffff: usize,
    rom0: Vec<u8>,
    rom1: Vec<u8>,
    bank: Vec<u8>,
    writable_rom: bool,
}

impl MemoryBuilder {
    pub closed spec fn view(&self) -> MemModel {
        MemModel {
            rom: self.rom,
            bank_4000: self.ram_0x4000_0x7fff as int,
            bank_8000: self.ram_0x8000_0xbfff as int,
            bank_c000: self.ram_0xc000_0xffff as int,
            rom0: self.rom0@,
            rom1: self.rom1@,
            ram: self.bank@,
            writable_rom: self.writable_rom,
        }
    }

    pub fn new() -> (b: MemoryBuilder)
        ensures
            b@ == (MemModel {
                rom: 0,
                bank_4000: 5,
                bank_8000: 2,
                bank_c000: 0,
                rom0: Seq::new(BANK_SIZE as nat, |i: int| 0u8),
                rom1: Seq::new(BANK_SIZE as nat, |i: int| 0u8),
                ram: Seq::new((NUM_BANKS * BANK_SIZE) as nat, |i: int| 0u8),
                writable_rom: false,
            }),
            b@.wf(),
    {
        let b = MemoryBuilder {
            rom: 0,
            ram_0x4000_0x7fff: 5,
            ram_0x8000_0xbfff: 2,
            ram_0xc000_0xffff: 0,
            rom0: vec![0u8; BANK_SIZE],
            rom1: vec![0u8; BANK_SIZE],
            bank: vec![0u8; NUM_BANKS * BANK_SIZE],
            writable_rom: false,
        };
        assert(b.rom0@ =~= Seq::new(BANK_SIZE as nat, |i: int| 0u8));
        assert(b.rom1@ =~= Seq::new(BANK_SIZE as nat, |i: int| 0u8));
        assert(b.bank@ =~= Seq::new((NUM_BANKS * BANK_SIZE) as nat, |i: int| 0u8));
        b
    }

    /// Replaces the contents of ROM 0.
    pub fn rom0(self, mem: Vec<u8>) -> (b: MemoryBuilder)
        ensures
            b@ == (MemModel { rom0: mem@, ..self@ }),
    {
        let mut s = self;
        s.rom0 = mem;
        s
    }

    /// Replaces the contents of ROM 1.
    pub fn rom1(self, mem: Vec<u8>) -> (b: MemoryBuilder)
        ensures
            b@ == (MemModel { rom1: mem@, ..self@ }),
    {
        let mut s = self;
        s.rom1 = mem;
        s
    }

    /// Makes writes to the ROM area accepted, or refused.
    pub fn writable_rom(self, val: bool) -> (b: MemoryBuilder)
        ensures
            b@ == (MemModel { writable_rom: val, ..self@ }),
    {
        let mut s = self;
        s.writable_rom = val;
        s
    }

    /// The memory described so far. Each ROM must hold at least a full page.
    pub fn finalize(self) -> (m: Memory)
        requires
            self@.wf(),
        ensures
            m@ == self@,
            m.wf(),
    {
        Memory {
            rom: self.rom,
            ram_0x4000_0x7fff: self.ram_0x4000_0x7fff,
            ram_0x8000_0xbfff: self.ram_0x8000_0xbfff,
            ram_0xc000_0xffff: self.ram_0xc000_0xffff,
            rom0: self.rom0,
            rom1: self.rom1,
            bank: self.bank,
            writable_rom: self.writable_rom,
        }
    }
}

/// A write is seen at every address that names the same byte and nowhere
/// else; a refused write changes nothing. In particular a byte written to
/// writable memory reads back as written.
pub proof fn lemma_write_then_read(m: MemModel, a: u16, v: u8, b: u16)
    requires
        m.wf(),
    ensures
        m.write(a, v).wf(),
        m.write(a, v).read(b) == if m.writable(a) && m.same_cell(a, b) { v } else { m.read(b) },
        m.writable(a) ==> m.write(a, v).read(a) == v,
        !m.writable(a) ==> m.write(a, v) == m,
{
}

/// A write changes neither the paging nor whether the ROM may be written.
pub proof fn lemma_write_keeps_paging(m: MemModel, a: u16, v: u8)
    ensures
        m.write(a, v).rom == m.rom,
        m.write(a, v).bank_4000 == m.bank_4000,
        m.write(a, v).bank_8000 == m.bank_8000,
        m.write(a, v).bank_c000 == m.bank_c000,
        m.write(a, v).writable_rom == m.writable_rom,
{
}

/// Two different addresses of the same 16 KiB quarter never name the same
/// byte.
pub proof fn lemma_quarter_no_alias(m: MemModel, a: u16, b: u16)
    requires
        a != b,
        a / 0x4000 == b / 0x4000,
    ensures
        !m.same_cell(a, b),
{
}

/// With the same page mapped at 0x4000 and at 0xC000 (page 5, the screen,
/// mapped twice), the two windows show the same bytes.
pub proof fn lemma_page_seen_twice(m: MemModel, k: u16)
    requires
        k < 0x4000,
        m.bank_c000 == m.bank_4000,
    ensures
        m.same_cell((0x4000 + k) as u16, (0xC000 + k) as u16),
        m.read((0x4000 + k) as u16) == m.read((0xC000 + k) as u16),
{
}

/// What the processor sees where: the selected ROM below 0x4000; above,
/// each 16K quarter shows one RAM page (0x4000 the page in `bank_4000`,
/// 0x8000 the one in `bank_8000`, 0xC000 the one in `bank_c000`), the
/// address's offset within its quarter being the offset within the page.
pub proof fn lemma_memory_map(m: MemModel, addr: u16)
    requires
        m.wf(),
    ensures
        addr < 0x4000 ==> m.read(addr) == (if m.rom == 1 { m.rom1[addr as int] } else { m.rom0[addr as int] }),
        0x4000 <= addr < 0x8000 ==> m.read(addr) == m.ram[m.bank_4000 * 0x4000 + addr % 0x4000],
        0x8000 <= addr < 0xC000 ==> m.read(addr) == m.ram[m.bank_8000 * 0x4000 + addr % 0x4000],
        0xC000 <= addr ==> m.read(addr) == m.ram[m.bank_c000 * 0x4000 + addr % 0x4000],
{
}

} // verus!
