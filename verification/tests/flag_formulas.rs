use z80emulib::cpu::{Cpu, CARRY_FLAG};
use z80emulib::instructions::{
    update_flags_adc8, update_flags_add16, update_flags_add8, update_flags_bit, update_flags_cp8, update_flags_dec8,
    update_flags_inc8, update_flags_logical, update_flags_sbc8, update_flags_sub8, update_xyflags_bit,
};
use z80emulib::interconnect::Interconnect;
use z80emulib::memory::MemoryBuilder;
use z80emulib::peripherals::{Ay, Ula};

fn cpu() -> Cpu {
    let memory = MemoryBuilder::new()
        .rom0(vec![0u8; 0x4000])
        .rom1(vec![0u8; 0x4000])
        .finalize();
    Cpu::new(Interconnect::new(memory, Ay::new(), Ula::new(), Vec::new(), Vec::new()))
}

#[test]
fn test_add8_flags() {
    let mut c = cpu();
    update_flags_add8(&mut c, 0xFF, 0x01, 0x00);
    // Z, H, C
    assert_eq!(c.get_flags(), 0x51);
}

#[test]
fn test_adc8_flags() {
    let mut c = cpu();
    update_flags_adc8(&mut c, 0x0F, 0x00, 1, 0x10);
    // H only
    assert_eq!(c.get_flags(), 0x10);
}

#[test]
fn test_sub8_and_cp8_flags() {
    let mut c = cpu();
    update_flags_sub8(&mut c, 0x80, 0x01, 0x7F);
    // Y, H, X, P/V, N
    assert_eq!(c.get_flags(), 0x3E);
    update_flags_cp8(&mut c, 0x10, 0x28, 0xE8);
    // S, H (0 < 8), N, C; X and Y from the operand 0x28
    assert_eq!(c.get_flags(), 0xBB);
}

#[test]
fn test_sbc8_flags() {
    let mut c = cpu();
    update_flags_sbc8(&mut c, 0x00, 0x00, 1, 0xFF);
    // S, Y, H, X, N, C
    assert_eq!(c.get_flags(), 0xBB);
}

#[test]
fn test_logical_flags() {
    let mut c = cpu();
    c.set_flags(CARRY_FLAG);
    update_flags_logical(&mut c, 0x00);
    // Z, P/V; C cleared
    assert_eq!(c.get_flags(), 0x44);
}

#[test]
fn test_inc_dec_flags() {
    let mut c = cpu();
    c.set_flags(CARRY_FLAG);
    update_flags_inc8(&mut c, 0x7F, 0x80);
    // S, H, P/V, C kept
    assert_eq!(c.get_flags(), 0x95);
    update_flags_dec8(&mut c, 0x80, 0x7F);
    // Y, H, X, P/V, N, C kept
    assert_eq!(c.get_flags(), 0x3F);
}

#[test]
fn test_add16_flags() {
    let mut c = cpu();
    c.set_flags(0);
    update_flags_add16(&mut c, 0x0FFF, 0x0001, 0x1000);
    // H only
    assert_eq!(c.get_flags(), 0x10);
}

#[test]
fn test_bit_flags() {
    let mut c = cpu();
    c.set_flags(0);
    update_flags_bit(&mut c, 7, true);
    // S, H
    assert_eq!(c.get_flags() & 0xD7, 0x90);
    update_flags_bit(&mut c, 3, false);
    // Z, H, P/V
    assert_eq!(c.get_flags() & 0xD7, 0x54);
    c.set_flags(0);
    c.write_reg16(z80emulib::cpu::Reg16::WZ, 0x2800);
    update_xyflags_bit(&mut c);
    assert_eq!(c.get_flags(), 0x28);
}
