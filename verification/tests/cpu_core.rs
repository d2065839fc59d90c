use z80emulib::cpu::{Cpu, Reg8, Reg16, FlagCond, CARRY_FLAG, ZERO_FLAG, SIGN_FLAG, HALF_CARRY_FLAG, ALL_FLAGS};
use z80emulib::interconnect::Interconnect;
use z80emulib::memory::MemoryBuilder;
use z80emulib::peripherals::{Ay, Ula};

fn new_cpu() -> Cpu {
    let memory = MemoryBuilder::new()
        .rom0(vec![0u8; 0x4000])
        .rom1(vec![0u8; 0x4000])
        .finalize();
    let ic = Interconnect::new(memory, Ay::new(), Ula::new(), Vec::new(), Vec::new());
    Cpu::new(ic)
}

#[test]
fn test_power_on_registers() {
    let cpu = new_cpu();
    assert_eq!(cpu.read_reg8(Reg8::A), 0xFF);
    assert_eq!(cpu.get_flags(), ALL_FLAGS);
    assert_eq!(cpu.read_reg8(Reg8::A_ALT), 0xFF);
    assert_eq!(cpu.read_reg8(Reg8::F_ALT), 0xFF);
    assert_eq!(cpu.read_reg16(Reg16::SP), 0xFFFF);
    assert_eq!(cpu.read_reg16(Reg16::BC), 0);
    assert_eq!(cpu.read_reg16(Reg16::IX), 0);
    assert_eq!(cpu.get_pc(), 0);
    assert_eq!(cpu.get_im(), 0);
    assert!(!cpu.get_iff1());
    assert!(!cpu.get_iff2());
    assert!(!cpu.is_halted());
    assert_eq!(cpu.get_tcycles(), 0);
    assert_eq!(cpu.fault(), None);
}

#[test]
fn test_reg8_write_then_read() {
    let mut cpu = new_cpu();
    let regs = [
        Reg8::A, Reg8::B, Reg8::C, Reg8::D, Reg8::E, Reg8::H, Reg8::L, Reg8::I, Reg8::R,
        Reg8::A_ALT, Reg8::B_ALT, Reg8::C_ALT, Reg8::D_ALT, Reg8::E_ALT, Reg8::H_ALT, Reg8::L_ALT,
        Reg8::F_ALT, Reg8::IXH, Reg8::IXL, Reg8::IYH, Reg8::IYL,
    ];
    for (i, r) in regs.iter().enumerate() {
        cpu.write_reg8(*r, 0x40 + i as u8);
    }
    for (i, r) in regs.iter().enumerate() {
        assert_eq!(cpu.read_reg8(*r), 0x40 + i as u8);
    }
}

#[test]
fn test_index_register_halves() {
    let mut cpu = new_cpu();
    cpu.write_reg16(Reg16::IX, 0x1234);
    assert_eq!(cpu.read_reg8(Reg8::IXH), 0x12);
    assert_eq!(cpu.read_reg8(Reg8::IXL), 0x34);
    cpu.write_reg8(Reg8::IXL, 0xCD);
    assert_eq!(cpu.read_reg16(Reg16::IX), 0x12CD);
    cpu.write_reg8(Reg8::IYH, 0xAB);
    assert_eq!(cpu.read_reg16(Reg16::IY), 0xAB00);
}

#[test]
fn test_reg16_pairs_are_halves() {
    let mut cpu = new_cpu();
    cpu.write_reg16(Reg16::BC, 0xBEEF);
    assert_eq!(cpu.read_reg8(Reg8::B), 0xBE);
    assert_eq!(cpu.read_reg8(Reg8::C), 0xEF);
    cpu.write_reg8(Reg8::D, 0x12);
    cpu.write_reg8(Reg8::E, 0x34);
    assert_eq!(cpu.read_reg16(Reg16::DE), 0x1234);
    cpu.write_reg16(Reg16::AF, 0x5601);
    assert_eq!(cpu.read_reg8(Reg8::A), 0x56);
    assert_eq!(cpu.get_flags(), 0x01);
    cpu.write_reg16(Reg16::IR, 0x3F05);
    assert_eq!(cpu.read_reg8(Reg8::I), 0x3F);
    assert_eq!(cpu.read_reg8(Reg8::R), 0x05);
    cpu.write_reg16(Reg16::WZ, 0x7777);
    assert_eq!(cpu.read_reg16(Reg16::WZ), 0x7777);
}

#[test]
fn test_flags_set_clear_cond() {
    let mut cpu = new_cpu();
    cpu.set_flags(0);
    cpu.set_flag(CARRY_FLAG);
    assert!(cpu.get_flag(CARRY_FLAG));
    assert!(!cpu.get_flag(ZERO_FLAG));
    assert!(cpu.check_flags(CARRY_FLAG));
    cpu.cond_flag(ZERO_FLAG, true);
    assert_eq!(cpu.get_flags(), CARRY_FLAG | ZERO_FLAG);
    cpu.clear_flag(CARRY_FLAG);
    assert_eq!(cpu.get_flags(), ZERO_FLAG);
    cpu.cond_flag(ZERO_FLAG, false);
    assert_eq!(cpu.get_flags(), 0);
    assert!(cpu.check_cond(FlagCond::NZ));
    assert!(cpu.check_cond(FlagCond::NC));
    assert!(cpu.check_cond(FlagCond::P));
    assert!(cpu.check_cond(FlagCond::PO));
    cpu.set_flag(SIGN_FLAG | HALF_CARRY_FLAG);
    assert!(cpu.check_cond(FlagCond::M));
    assert!(cpu.get_flag(SIGN_FLAG | HALF_CARRY_FLAG));
    assert!(!cpu.get_flag(SIGN_FLAG | CARRY_FLAG));
}

#[test]
fn test_refresh_keeps_seven_bits() {
    let mut cpu = new_cpu();
    cpu.write_reg8(Reg8::R, 0x7F);
    cpu.inc_r(1);
    assert_eq!(cpu.read_reg8(Reg8::R), 0x00);
    cpu.write_reg8(Reg8::R, 0xFE);
    cpu.inc_r(2);
    assert_eq!(cpu.read_reg8(Reg8::R), 0x00);
    cpu.inc_r(5);
    assert_eq!(cpu.read_reg8(Reg8::R), 0x05);
}

#[test]
fn test_pc_moves_wrap() {
    let mut cpu = new_cpu();
    cpu.set_pc(0xFFFF);
    cpu.inc_pc(2);
    assert_eq!(cpu.get_pc(), 0x0001);
    cpu.dec_pc(3);
    assert_eq!(cpu.get_pc(), 0xFFFE);
}

#[test]
fn test_interrupt_state_setters() {
    let mut cpu = new_cpu();
    cpu.set_iff1();
    cpu.set_iff2();
    cpu.set_im(2);
    cpu.halt();
    assert!(cpu.get_iff1() && cpu.get_iff2());
    assert_eq!(cpu.get_im(), 2);
    assert!(cpu.is_halted());
    cpu.clear_iff1();
    cpu.resume();
    assert!(!cpu.get_iff1() && cpu.get_iff2());
    assert!(!cpu.is_halted());
}

#[test]
fn test_reset_clears_registers_and_ram() {
    let mut cpu = new_cpu();
    cpu.write_reg16(Reg16::HL, 0x1234);
    cpu.set_pc(0x8000);
    cpu.zero_cycle_write_word(0x8000, 0x99);
    cpu.reset();
    assert_eq!(cpu.read_reg16(Reg16::HL), 0);
    assert_eq!(cpu.get_pc(), 0);
    assert_eq!(cpu.read_reg16(Reg16::SP), 0xFFFF);
    assert_eq!(cpu.zero_cycle_read_word(0x8000), 0);
    assert_eq!(cpu.get_tcycles(), 0);
}

#[test]
fn test_memory_access_timing() {
    let mut cpu = new_cpu();
    let v = cpu.read_word(0x8000);
    assert_eq!(v, 0);
    assert_eq!(cpu.get_tcycles(), 3);
    cpu.write_word(0x8001, 7);
    assert_eq!(cpu.get_tcycles(), 6);
    cpu.contend_read_no_mreq(0x8000);
    cpu.contend_write_no_mreq(0x8000);
    assert_eq!(cpu.get_tcycles(), 8);
    cpu.contend_read(0x8000, 4);
    assert_eq!(cpu.get_tcycles(), 12);
    let op = cpu.fetch_op();
    assert_eq!(op, 0);
    assert_eq!(cpu.get_tcycles(), 16);
    assert_eq!(cpu.zero_cycle_read_word(0x8001), 7);
}

#[test]
fn test_contended_access_is_delayed() {
    let memory = MemoryBuilder::new()
        .rom0(vec![0u8; 0x4000])
        .rom1(vec![0u8; 0x4000])
        .finalize();
    let ic = Interconnect::new(memory, Ay::new(), Ula::new(), vec![6u8; 100], vec![2u8; 100]);
    let mut cpu = Cpu::new(ic);
    cpu.read_word(0x4000);
    assert_eq!(cpu.get_tcycles(), 9);
    cpu.read_word(0x8000);
    assert_eq!(cpu.get_tcycles(), 12);
    cpu.contend_read_no_mreq(0x5000);
    assert_eq!(cpu.get_tcycles(), 15);
    // Past the end of the table there is no delay.
    let memory = MemoryBuilder::new()
        .rom0(vec![0u8; 0x4000])
        .rom1(vec![0u8; 0x4000])
        .finalize();
    let ic = Interconnect::new(memory, Ay::new(), Ula::new(), vec![6u8; 2], vec![2u8; 2]);
    let mut cpu = Cpu::new(ic);
    cpu.read_word(0x4000);
    cpu.read_word(0x4000);
    assert_eq!(cpu.get_tcycles(), 9 + 3);
}

#[test]
fn test_rom_write_is_refused() {
    let mut cpu = new_cpu();
    cpu.write_word(0x0010, 0x55);
    assert_eq!(cpu.fault(), Some(0x0010));
    assert_eq!(cpu.zero_cycle_read_word(0x0010), 0);
    cpu.write_word(0x0020, 0x55);
    assert_eq!(cpu.fault(), Some(0x0010));
    cpu.clear_fault();
    assert_eq!(cpu.fault(), None);
}
