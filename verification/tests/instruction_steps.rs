use z80emulib::cpu::step::StepError;
use z80emulib::cpu::{Cpu, Reg8, Reg16, CARRY_FLAG, ZERO_FLAG, PARITY_OVERFLOW_FLAG};
use z80emulib::interconnect::Interconnect;
use z80emulib::memory::MemoryBuilder;
use z80emulib::peripherals::{Ay, Ula};

/// A processor with `program` at 0x8000 and the PC on it.
fn cpu_with(program: &[u8]) -> Cpu {
    let memory = MemoryBuilder::new()
        .rom0(vec![0u8; 0x4000])
        .rom1(vec![0u8; 0x4000])
        .finalize();
    let ic = Interconnect::new(memory, Ay::new(), Ula::new(), Vec::new(), Vec::new());
    let mut cpu = Cpu::new(ic);
    for (i, b) in program.iter().enumerate() {
        cpu.zero_cycle_write_word(0x8000 + i as u16, *b);
    }
    cpu.set_pc(0x8000);
    cpu
}

fn run(cpu: &mut Cpu, n: usize) {
    for _ in 0..n {
        assert_eq!(cpu.run_instruction(), Ok(()));
    }
}

#[test]
fn test_nop_takes_four_cycles() {
    let mut cpu = cpu_with(&[0x00]);
    run(&mut cpu, 1);
    assert_eq!(cpu.get_pc(), 0x8001);
    assert_eq!(cpu.get_tcycles(), 4);
    assert_eq!(cpu.read_reg8(Reg8::R), 1);
}

#[test]
fn test_ld_add_flags() {
    let mut cpu = cpu_with(&[0x3E, 0x12, 0xC6, 0x34]);
    run(&mut cpu, 2);
    assert_eq!(cpu.read_reg8(Reg8::A), 0x46);
    assert_eq!(cpu.get_flags(), 0x00);
    assert_eq!(cpu.get_tcycles(), 14);
    assert_eq!(cpu.get_pc(), 0x8004);
}

#[test]
fn test_add_signed_overflow() {
    let mut cpu = cpu_with(&[0x3E, 0x7F, 0xC6, 0x01]);
    run(&mut cpu, 2);
    assert_eq!(cpu.read_reg8(Reg8::A), 0x80);
    assert_eq!(cpu.get_flags(), 0x94);
}

#[test]
fn test_sub_borrow() {
    let mut cpu = cpu_with(&[0x3E, 0x10, 0xD6, 0x20]);
    run(&mut cpu, 2);
    assert_eq!(cpu.read_reg8(Reg8::A), 0xF0);
    assert_eq!(cpu.get_flags(), 0xA3);
}

#[test]
fn test_daa_after_add() {
    let mut cpu = cpu_with(&[0x3E, 0x15, 0xC6, 0x27, 0x27]);
    run(&mut cpu, 3);
    assert_eq!(cpu.read_reg8(Reg8::A), 0x42);
    assert_eq!(cpu.get_flags(), 0x14);
}

#[test]
fn test_xor_a_sets_zero_and_parity() {
    let mut cpu = cpu_with(&[0xAF]);
    run(&mut cpu, 1);
    assert_eq!(cpu.read_reg8(Reg8::A), 0);
    assert_eq!(cpu.get_flags(), ZERO_FLAG | PARITY_OVERFLOW_FLAG);
}

#[test]
fn test_inc_dec_register() {
    // LD B,0xFF; INC B; DEC B
    let mut cpu = cpu_with(&[0x06, 0xFF, 0x04, 0x05]);
    cpu.set_flags(CARRY_FLAG);
    run(&mut cpu, 2);
    assert_eq!(cpu.read_reg8(Reg8::B), 0x00);
    // Z, H set; carry kept.
    assert_eq!(cpu.get_flags(), 0x51);
    run(&mut cpu, 1);
    assert_eq!(cpu.read_reg8(Reg8::B), 0xFF);
    // S, Y, H, X, N set; carry kept.
    assert_eq!(cpu.get_flags(), 0xBB);
}

#[test]
fn test_ex_de_hl_twice_restores() {
    // LD DE,0x1234; LD HL,0xABCD; EX DE,HL; EX DE,HL
    let mut cpu = cpu_with(&[0x11, 0x34, 0x12, 0x21, 0xCD, 0xAB, 0xEB, 0xEB]);
    run(&mut cpu, 3);
    assert_eq!(cpu.read_reg16(Reg16::DE), 0xABCD);
    assert_eq!(cpu.read_reg16(Reg16::HL), 0x1234);
    run(&mut cpu, 1);
    assert_eq!(cpu.read_reg16(Reg16::DE), 0x1234);
    assert_eq!(cpu.read_reg16(Reg16::HL), 0xABCD);
}

#[test]
fn test_exx_twice_restores() {
    let mut cpu = cpu_with(&[0xD9, 0xD9]);
    cpu.write_reg16(Reg16::BC, 0x0102);
    cpu.write_reg16(Reg16::BC_ALT, 0x0304);
    run(&mut cpu, 1);
    assert_eq!(cpu.read_reg16(Reg16::BC), 0x0304);
    assert_eq!(cpu.read_reg16(Reg16::BC_ALT), 0x0102);
    run(&mut cpu, 1);
    assert_eq!(cpu.read_reg16(Reg16::BC), 0x0102);
    assert_eq!(cpu.read_reg16(Reg16::BC_ALT), 0x0304);
}

#[test]
fn test_ex_af_twice_restores() {
    let mut cpu = cpu_with(&[0x08, 0x08]);
    cpu.write_reg16(Reg16::AF, 0x1122);
    cpu.write_reg16(Reg16::AF_ALT, 0x3344);
    run(&mut cpu, 1);
    assert_eq!(cpu.read_reg16(Reg16::AF), 0x3344);
    run(&mut cpu, 1);
    assert_eq!(cpu.read_reg16(Reg16::AF), 0x1122);
    assert_eq!(cpu.read_reg16(Reg16::AF_ALT), 0x3344);
}

#[test]
fn test_push_pop_restores() {
    // LD SP,0x9000; LD BC,0xBEEF; PUSH BC; LD BC,0; POP BC
    let mut cpu = cpu_with(&[0x31, 0x00, 0x90, 0x01, 0xEF, 0xBE, 0xC5, 0x01, 0x00, 0x00, 0xC1]);
    run(&mut cpu, 3);
    assert_eq!(cpu.read_reg16(Reg16::SP), 0x8FFE);
    assert_eq!(cpu.zero_cycle_read_word(0x8FFF), 0xBE);
    assert_eq!(cpu.zero_cycle_read_word(0x8FFE), 0xEF);
    run(&mut cpu, 2);
    assert_eq!(cpu.read_reg16(Reg16::BC), 0xBEEF);
    assert_eq!(cpu.read_reg16(Reg16::SP), 0x9000);
    // 10 + 10 + 11 + 10 + 10
    assert_eq!(cpu.get_tcycles(), 51);
}

#[test]
fn test_call_ret_returns() {
    // 8000: LD SP,0x9000; CALL 0x8010; NOP ... 8010: RET
    let mut program = vec![0u8; 0x11];
    program[0] = 0x31;
    program[1] = 0x00;
    program[2] = 0x90;
    program[3] = 0xCD;
    program[4] = 0x10;
    program[5] = 0x80;
    program[0x10] = 0xC9;
    let mut cpu = cpu_with(&program);
    run(&mut cpu, 2);
    assert_eq!(cpu.get_pc(), 0x8010);
    assert_eq!(cpu.read_reg16(Reg16::SP), 0x8FFE);
    assert_eq!(cpu.read_reg16(Reg16::WZ), 0x8010);
    run(&mut cpu, 1);
    assert_eq!(cpu.get_pc(), 0x8006);
    assert_eq!(cpu.read_reg16(Reg16::SP), 0x9000);
    // 10 + 17 + 10
    assert_eq!(cpu.get_tcycles(), 37);
}

#[test]
fn test_cpl_and_neg_twice() {
    // LD A,0x5A; CPL; CPL; NEG; NEG
    let mut cpu = cpu_with(&[0x3E, 0x5A, 0x2F, 0x2F, 0xED, 0x44, 0xED, 0x44]);
    run(&mut cpu, 2);
    assert_eq!(cpu.read_reg8(Reg8::A), 0xA5);
    run(&mut cpu, 1);
    assert_eq!(cpu.read_reg8(Reg8::A), 0x5A);
    run(&mut cpu, 1);
    assert_eq!(cpu.read_reg8(Reg8::A), 0xA6);
    run(&mut cpu, 1);
    assert_eq!(cpu.read_reg8(Reg8::A), 0x5A);
}

#[test]
fn test_djnz_loop() {
    // LD B,3; loop: INC A; DJNZ loop
    let mut cpu = cpu_with(&[0x06, 0x03, 0x3C, 0x10, 0xFD]);
    cpu.write_reg8(Reg8::A, 0);
    run(&mut cpu, 7);
    assert_eq!(cpu.read_reg8(Reg8::A), 3);
    assert_eq!(cpu.read_reg8(Reg8::B), 0);
    assert_eq!(cpu.get_pc(), 0x8005);
    // 7 + 3 * 4 + 2 * 13 + 8
    assert_eq!(cpu.get_tcycles(), 53);
}

#[test]
fn test_jr_relative() {
    // JR +2 skips two bytes
    let mut cpu = cpu_with(&[0x18, 0x02, 0x00, 0x00, 0x00]);
    run(&mut cpu, 1);
    assert_eq!(cpu.get_pc(), 0x8004);
    assert_eq!(cpu.get_tcycles(), 12);
}

#[test]
fn test_ldir_copies_block() {
    // LD HL,0x8100; LD DE,0x8200; LD BC,3; LDIR
    let mut cpu = cpu_with(&[0x21, 0x00, 0x81, 0x11, 0x00, 0x82, 0x01, 0x03, 0x00, 0xED, 0xB0]);
    cpu.zero_cycle_write_word(0x8100, 7);
    cpu.zero_cycle_write_word(0x8101, 8);
    cpu.zero_cycle_write_word(0x8102, 9);
    run(&mut cpu, 3);
    run(&mut cpu, 3);
    assert_eq!(cpu.zero_cycle_read_word(0x8200), 7);
    assert_eq!(cpu.zero_cycle_read_word(0x8201), 8);
    assert_eq!(cpu.zero_cycle_read_word(0x8202), 9);
    assert_eq!(cpu.read_reg16(Reg16::BC), 0);
    assert_eq!(cpu.read_reg16(Reg16::HL), 0x8103);
    assert_eq!(cpu.read_reg16(Reg16::DE), 0x8203);
    assert_eq!(cpu.get_pc(), 0x800B);
    // 3 * 10 + 21 + 21 + 16
    assert_eq!(cpu.get_tcycles(), 88);
}

#[test]
fn test_index_load_store() {
    // LD IX,0x8100; LD (IX+5),0x77; LD A,(IX+5); LD (IX-1),A
    let mut cpu = cpu_with(&[0xDD, 0x21, 0x00, 0x81, 0xDD, 0x36, 0x05, 0x77, 0xDD, 0x7E, 0x05, 0xDD, 0x77, 0xFF]);
    run(&mut cpu, 4);
    assert_eq!(cpu.zero_cycle_read_word(0x8105), 0x77);
    assert_eq!(cpu.read_reg8(Reg8::A), 0x77);
    assert_eq!(cpu.zero_cycle_read_word(0x80FF), 0x77);
    assert_eq!(cpu.get_pc(), 0x800E);
    // 14 + 19 + 19 + 19
    assert_eq!(cpu.get_tcycles(), 71);
}

#[test]
fn test_index_bit_instructions() {
    // LD IY,0x8100; SET 3,(IY+2); BIT 3,(IY+2); RES 3,(IY+2)
    let mut cpu = cpu_with(&[0xFD, 0x21, 0x00, 0x81, 0xFD, 0xCB, 0x02, 0xDE, 0xFD, 0xCB, 0x02, 0x5E, 0xFD, 0xCB, 0x02, 0x9E]);
    run(&mut cpu, 2);
    assert_eq!(cpu.zero_cycle_read_word(0x8102), 0x08);
    assert_eq!(cpu.read_reg16(Reg16::WZ), 0x8102);
    run(&mut cpu, 1);
    assert!(!cpu.get_flag(ZERO_FLAG));
    run(&mut cpu, 1);
    assert_eq!(cpu.zero_cycle_read_word(0x8102), 0x00);
    assert_eq!(cpu.get_pc(), 0x8010);
}

#[test]
fn test_cb_rotate() {
    // LD A,0x81; RLC A
    let mut cpu = cpu_with(&[0x3E, 0x81, 0xCB, 0x07]);
    run(&mut cpu, 2);
    assert_eq!(cpu.read_reg8(Reg8::A), 0x03);
    assert!(cpu.get_flag(CARRY_FLAG));
    assert_eq!(cpu.read_reg8(Reg8::R), 3);
}

#[test]
fn test_sbc_hl() {
    // SCF; SBC HL,DE
    let mut cpu = cpu_with(&[0x37, 0xED, 0x52]);
    cpu.write_reg16(Reg16::HL, 0x1000);
    cpu.write_reg16(Reg16::DE, 0x0001);
    run(&mut cpu, 2);
    assert_eq!(cpu.read_reg16(Reg16::HL), 0x0FFE);
    assert!(!cpu.get_flag(CARRY_FLAG));
    assert_eq!(cpu.read_reg16(Reg16::WZ), 0x1001);
}

#[test]
fn test_out_paging_port() {
    // LD BC,0x7FFD; LD A,0x17; OUT (C),A
    let mut cpu = cpu_with(&[0x01, 0xFD, 0x7F, 0x3E, 0x17, 0xED, 0x79]);
    run(&mut cpu, 3);
    assert_eq!(cpu.interconnect().memory().get_c000_bank(), 7);
    assert_eq!(cpu.interconnect().memory().get_0000_bank(), 1);
}

#[test]
fn test_unsupported_opcode() {
    let mut cpu = cpu_with(&[0xED, 0x00]);
    assert_eq!(cpu.run_instruction(), Err(StepError::Unsupported { opcode: 0x00, addr: 0x8001 }));
}

#[test]
fn test_write_to_rom_reported() {
    // LD (0x0100),A
    let mut cpu = cpu_with(&[0x32, 0x00, 0x01]);
    assert_eq!(cpu.run_instruction(), Err(StepError::RomWrite { addr: 0x0100 }));
    assert_eq!(cpu.zero_cycle_read_word(0x0100), 0);
}

#[test]
fn test_halt_stays() {
    let mut cpu = cpu_with(&[0x76]);
    run(&mut cpu, 2);
    assert!(cpu.is_halted());
    assert_eq!(cpu.get_pc(), 0x8000);
    assert_eq!(cpu.get_tcycles(), 8);
}

#[test]
fn test_interrupts() {
    let mut cpu = cpu_with(&[0x00]);
    assert!(!cpu.handle_interrupts());
    cpu.write_reg16(Reg16::SP, 0x9000);
    // Before the end of the frame a step is just the instruction.
    cpu.run(1).unwrap();
    assert_eq!(cpu.get_tcycles(), 4);
    let mut cpu = cpu_with(&[0xFB, 0xED, 0x56]);
    cpu.write_reg16(Reg16::SP, 0x9000);
    run(&mut cpu, 2);
    assert_eq!(cpu.get_im(), 1);
    assert!(cpu.get_iff1());
    for _ in 0..10000 {
        if cpu.get_tcycles() >= 70908 {
            break;
        }
        cpu.contend_read_no_mreq(0x8000);
        cpu.contend_read(0x8000, 4);
        cpu.contend_read(0x8000, 4);
    }
    let before = cpu.get_tcycles();
    let pc = cpu.get_pc();
    assert!(cpu.handle_interrupts());
    assert_eq!(cpu.get_pc(), 0x0038);
    assert_eq!(cpu.read_reg16(Reg16::SP), 0x8FFE);
    assert!(!cpu.get_iff1());
    assert!(!cpu.get_iff2());
    assert_eq!(cpu.zero_cycle_read_word(0x8FFF), (pc >> 8) as u8);
    assert_eq!(cpu.zero_cycle_read_word(0x8FFE), (pc & 0xFF) as u8);
    assert_eq!(cpu.get_tcycles(), before - 70908 + 7 + 6);
}

#[test]
fn test_interrupt_mode_two() {
    // IM 2 through the table at I*256+256
    let mut cpu = cpu_with(&[0x00]);
    cpu.write_reg16(Reg16::SP, 0x9000);
    cpu.write_reg8(Reg8::I, 0x87);
    cpu.zero_cycle_write_word(0x8800, 0x34);
    cpu.zero_cycle_write_word(0x8801, 0x92);
    cpu.set_im(2);
    cpu.set_iff1();
    while cpu.get_tcycles() < 70908 {
        cpu.contend_read(0x8000, 4);
    }
    assert!(cpu.handle_interrupts());
    assert_eq!(cpu.get_pc(), 0x9234);
}

#[test]
fn test_run_many_steps() {
    // JR -2: loops forever
    let mut cpu = cpu_with(&[0x18, 0xFE]);
    assert_eq!(cpu.run(10000), Ok(()));
    assert_eq!(cpu.get_pc(), 0x8000);
    assert!(cpu.get_tcycles() < 70908 + 12);
}

#[test]
fn test_jr_far_forward_and_back() {
    // JR +127 lands 129 bytes on; JR -128 lands 126 bytes back.
    let mut cpu = cpu_with(&[0x18, 0x7F]);
    run(&mut cpu, 1);
    assert_eq!(cpu.get_pc(), 0x8081);
    assert_eq!(cpu.read_reg16(Reg16::WZ), 0x8081);
    let mut cpu = cpu_with(&[0x18, 0x80]);
    run(&mut cpu, 1);
    assert_eq!(cpu.get_pc(), 0x7F82);
    // DJNZ +126
    let mut cpu = cpu_with(&[0x06, 0x02, 0x10, 0x7E]);
    run(&mut cpu, 2);
    assert_eq!(cpu.get_pc(), 0x8082);
}

#[test]
fn test_push_one_pop_another() {
    // LD SP,0x9000; PUSH DE; POP IX
    let mut cpu = cpu_with(&[0x31, 0x00, 0x90, 0xD5, 0xDD, 0xE1]);
    cpu.write_reg16(Reg16::DE, 0x1357);
    run(&mut cpu, 3);
    assert_eq!(cpu.read_reg16(Reg16::IX), 0x1357);
    assert_eq!(cpu.read_reg16(Reg16::SP), 0x9000);
    assert_eq!(cpu.get_pc(), 0x8006);
}

#[test]
fn test_rld_then_rrd() {
    // LD HL,0x8100; RLD; RRD
    let mut cpu = cpu_with(&[0x21, 0x00, 0x81, 0xED, 0x6F, 0xED, 0x67]);
    cpu.write_reg8(Reg8::A, 0x12);
    cpu.zero_cycle_write_word(0x8100, 0x34);
    run(&mut cpu, 2);
    assert_eq!(cpu.read_reg8(Reg8::A), 0x13);
    assert_eq!(cpu.zero_cycle_read_word(0x8100), 0x42);
    run(&mut cpu, 1);
    assert_eq!(cpu.read_reg8(Reg8::A), 0x12);
    assert_eq!(cpu.zero_cycle_read_word(0x8100), 0x34);
    assert_eq!(cpu.read_reg16(Reg16::HL), 0x8100);
    assert_eq!(cpu.get_pc(), 0x8007);
}
