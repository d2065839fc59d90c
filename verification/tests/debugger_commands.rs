use z80emulib::cpu::{Cpu, Reg8, Reg16};
use z80emulib::debugger::command::Command;
use z80emulib::debugger::output_registers::{OA, OB, OC, OF, OH, OL, OIX, OSP, OWZ, ONONE};
use z80emulib::debugger::{DebugAction, Debugger};
use z80emulib::interconnect::Interconnect;
use z80emulib::memory::MemoryBuilder;
use z80emulib::peripherals::{Ay, Ula};

fn cpu_with(program: &[u8]) -> Cpu {
    let memory = MemoryBuilder::new()
        .rom0(vec![0u8; 0x4000])
        .rom1(vec![0u8; 0x4000])
        .finalize();
    let ic = Interconnect::new(memory, Ay::new(), Ula::new(), Vec::new(), Vec::new());
    let mut cpu = Cpu::new(ic);
    for (i, b) in program.iter().enumerate() {
        cpu.zero_cycle_write_word(0x8000 + i as u16, *b);
    }
    cpu.set_pc(0x8000);
    cpu
}

#[test]
fn test_parse_step() {
    assert_eq!(Command::parse(b"s"), Some(Command::Step(1)));
    assert_eq!(Command::parse(b"step"), Some(Command::Step(1)));
    assert_eq!(Command::parse(b"s 5"), Some(Command::Step(5)));
    assert_eq!(Command::parse(b"step\t 65535"), Some(Command::Step(65535)));
    assert_eq!(Command::parse(b"step 007"), Some(Command::Step(7)));
    assert_eq!(Command::parse(b"step 65536"), None);
    assert_eq!(Command::parse(b"s5"), None);
    assert_eq!(Command::parse(b"step 5 "), None);
    assert_eq!(Command::parse(b"stop"), None);
}

#[test]
fn test_parse_mem() {
    assert_eq!(Command::parse(b"m 4000"), Some(Command::Mem(0x4000)));
    assert_eq!(Command::parse(b"mem 0x4000"), Some(Command::Mem(0x4000)));
    assert_eq!(Command::parse(b"m 0xffff"), Some(Command::Mem(0xFFFF)));
    assert_eq!(Command::parse(b"m aB"), Some(Command::Mem(0xAB)));
    assert_eq!(Command::parse(b"m 4000 0x4010"), Some(Command::MemRng(0x4000, 0x4010)));
    assert_eq!(Command::parse(b"m"), None);
    assert_eq!(Command::parse(b"m 10000"), None);
    assert_eq!(Command::parse(b"m 0x"), None);
    assert_eq!(Command::parse(b"m 1 2 3"), None);
    assert_eq!(Command::parse(b"m zz"), None);
}

#[test]
fn test_parse_cont_exit() {
    assert_eq!(Command::parse(b"c"), Some(Command::Cont));
    assert_eq!(Command::parse(b"cont"), Some(Command::Cont));
    assert_eq!(Command::parse(b"e"), Some(Command::Exit));
    assert_eq!(Command::parse(b"exit"), Some(Command::Exit));
    assert_eq!(Command::parse(b"q"), Some(Command::Exit));
    assert_eq!(Command::parse(b"quit"), Some(Command::Exit));
    assert_eq!(Command::parse(b"co"), None);
    assert_eq!(Command::parse(b""), None);
    assert_eq!(Command::parse(b"x"), None);
}

#[test]
fn test_decide() {
    let d = Debugger::new();
    assert_eq!(d.decide(b"q"), DebugAction::Quit);
    assert_eq!(d.decide(b"c"), DebugAction::Continue);
    assert_eq!(d.decide(b"s 3"), DebugAction::Step(3));
    assert_eq!(d.decide(b"s 0"), DebugAction::Unknown);
    assert_eq!(d.decide(b"m 4003"), DebugAction::ShowByte(0x4003));
    assert_eq!(d.decide(b"m 4003 4011"), DebugAction::ShowRange(0x4000, 0x4020));
    assert_eq!(d.decide(b"m 4000 4010"), DebugAction::ShowRange(0x4000, 0x4010));
    assert_eq!(d.decide(b"m fff3 fff9"), DebugAction::ShowRange(0xFFF0, 0x0000));
    assert_eq!(d.decide(b"hello"), DebugAction::Unknown);
}

#[test]
fn test_next_accessed_regs() {
    let d = Debugger::new();
    // LD B,C
    let cpu = cpu_with(&[0x41]);
    assert_eq!(d.next_accessed_regs(&cpu), (OB | OC, OB));
    // ADD A,(HL)
    let cpu = cpu_with(&[0x86]);
    assert_eq!(d.next_accessed_regs(&cpu).1, OA | OF);
    // LD SP,IX
    let cpu = cpu_with(&[0xDD, 0xF9]);
    assert_eq!(d.next_accessed_regs(&cpu), (OSP | OIX, OSP));
    // An opcode the tables lack shows nothing.
    let cpu = cpu_with(&[0xED, 0x00]);
    assert_eq!(d.next_accessed_regs(&cpu), (ONONE, ONONE));
}

#[test]
fn test_output_shows_asked_registers() {
    let d = Debugger::new();
    let mut cpu = cpu_with(&[0x00]);
    cpu.write_reg8(Reg8::A, 0x12);
    cpu.write_reg16(Reg16::HL, 0xABCD);
    cpu.write_reg16(Reg16::IX, 0x4444);
    let v = d.output(&cpu, OA | OH | OIX);
    assert_eq!(v.a, Some(0x12));
    assert_eq!(v.f, None);
    assert_eq!(v.h, Some(0xAB));
    assert_eq!(v.l, None);
    assert_eq!(v.ix, Some(0x4444));
    assert_eq!(v.sp, None);
    assert_eq!(v.pc, 0x8000);
    assert_eq!(v.bank_4000, 5);
    assert_eq!(v.bank_8000, 2);
    assert_eq!(v.bank_c000, 0);
    assert_eq!(v.rom, 0);
    let all = d.output(&cpu, OA | OF | OH | OL | OWZ);
    assert_eq!(all.l, Some(0xCD));
    assert_eq!(all.f, Some(0xFF));
}
