use z80emulib::memory::{Memory, MemoryBuilder};
use z80emulib::peripherals::Peripheral;

fn memory(writable_rom: bool) -> Memory {
    let mut rom0 = vec![0u8; 0x4000];
    let mut rom1 = vec![0u8; 0x4000];
    rom0[0] = 0xA0;
    rom0[0x3FFF] = 0xA1;
    rom1[0] = 0xB0;
    MemoryBuilder::new().rom0(rom0).rom1(rom1).writable_rom(writable_rom).finalize()
}

#[test]
fn test_boot_paging() {
    let m = memory(false);
    assert_eq!(m.get_0000_bank(), 0);
    assert_eq!(m.get_4000_bank(), 5);
    assert_eq!(m.get_8000_bank(), 2);
    assert_eq!(m.get_c000_bank(), 0);
    assert_eq!(m.read_word(0x0000), 0xA0);
    assert_eq!(m.read_word(0x3FFF), 0xA1);
    assert_eq!(m.read_word(0x4000), 0x00);
}

#[test]
fn test_ram_write_then_read() {
    let mut m = memory(false);
    for addr in [0x4000u16, 0x7FFF, 0x8000, 0xBFFF, 0xC000, 0xFFFF] {
        assert!(m.is_writable(addr));
        m.write_word(addr, (addr % 251) as u8);
        assert_eq!(m.read_word(addr), (addr % 251) as u8);
    }
    // Different addresses of one quarter do not share bytes.
    assert_eq!(m.read_word(0x8000), (0x8000u16 % 251) as u8);
}

#[test]
fn test_rom_write_refused_unless_writable() {
    let m = memory(false);
    assert!(!m.is_writable(0x0000));
    assert!(!m.is_writable(0x3FFF));
    assert!(m.is_writable(0x4000));
    assert_eq!(m.read_word(0x0000), 0xA0);
    let mut w = memory(true);
    assert!(w.is_writable(0x0000));
    w.write_word(0x0000, 0x11);
    assert_eq!(w.read_word(0x0000), 0x11);
    w.change_rom_bank(1);
    assert_eq!(w.read_word(0x0000), 0xB0);
}

#[test]
fn test_rom_bank_switch() {
    let mut m = memory(false);
    m.change_rom_bank(1);
    assert_eq!(m.get_0000_bank(), 1);
    assert_eq!(m.read_word(0x0000), 0xB0);
    m.change_rom_bank(0);
    assert_eq!(m.read_word(0x0000), 0xA0);
}

#[test]
fn test_screen_page_seen_twice() {
    let mut m = memory(false);
    m.change_bank(5);
    m.write_word(0x4123, 0x42);
    assert_eq!(m.read_word(0xC123), 0x42);
    m.write_word(0xC124, 0x43);
    assert_eq!(m.read_word(0x4124), 0x43);
    m.change_bank(7);
    assert_eq!(m.read_word(0xC123), 0x00);
    assert_eq!(m.get_c000_bank(), 7);
}

#[test]
fn test_paging_port() {
    let mut m = memory(false);
    m.write_port(0x7FFD, 0x13);
    assert_eq!(m.get_c000_bank(), 3);
    assert_eq!(m.get_0000_bank(), 1);
    assert_eq!(m.read_port(0x7FFD), 0xFF);
    m.write_port(0x7FFD, 0x07);
    assert_eq!(m.get_c000_bank(), 7);
    assert_eq!(m.get_0000_bank(), 0);
}

#[test]
fn test_clear() {
    let mut m = memory(false);
    m.write_word(0x8000, 1);
    m.clear();
    assert_eq!(m.read_word(0x8000), 0);
    assert_eq!(m.read_word(0x0000), 0xA0);
    let mut w = memory(true);
    w.clear();
    assert_eq!(w.read_word(0x0000), 0x00);
}

#[test]
fn test_fresh_memory() {
    let mut m = MemoryBuilder::new().finalize();
    for a in 0..=0xFFFFu16 {
        assert_eq!(m.read_word(a), 0);
    }
    assert!(!m.is_writable(0x0000));
    m.write_word(0x8000, 7);
    assert_eq!(m.read_word(0x8000), 7);
    assert_eq!(m.read_word(0xC000), 0);
}
