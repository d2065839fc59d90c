use z80emulib::cpu::step::StepError;
use z80emulib::cpu::{Reg8, Reg16};
use z80emulib::snapshot::parse;
use z80emulib::machine::{keyboard_mapping, HostKey, Machine, SpectrumKeycode};
use z80emulib::peripherals::screen::{SCREEN_HEIGHT, SCREEN_PITCH};
use z80emulib::peripherals::{Peripheral, Ula};

fn roms() -> (Vec<u8>, Vec<u8>) {
    (vec![0u8; 0x4000], vec![0u8; 0x4000])
}

#[test]
fn test_keyboard_mapping() {
    assert_eq!(keyboard_mapping(HostKey::A), (SpectrumKeycode::A, SpectrumKeycode::NONE));
    assert_eq!(keyboard_mapping(HostKey::Backspace), (SpectrumKeycode::Num0, SpectrumKeycode::Caps));
    assert_eq!(keyboard_mapping(HostKey::Comma), (SpectrumKeycode::N, SpectrumKeycode::Symbol));
    assert_eq!(keyboard_mapping(HostKey::LShift), (SpectrumKeycode::NONE, SpectrumKeycode::Caps));
    assert_eq!(keyboard_mapping(HostKey::Up), (SpectrumKeycode::Num7, SpectrumKeycode::Caps));
}

#[test]
fn test_ula_keyboard_scan() {
    let mut ula = Ula::new();
    assert_eq!(ula.read_port(0x00FE), 0xFF);
    ula.key_pressed(&SpectrumKeycode::A);
    // Half-row 1 (A-G) is selected by bit 1 of the high byte.
    assert_eq!(ula.read_port(0xFDFE), 0xFE);
    assert_eq!(ula.read_port(0xFEFE), 0xFF);
    assert_eq!(ula.read_port(0x00FE), 0xFE);
    ula.key_pressed(&SpectrumKeycode::Space);
    assert_eq!(ula.read_port(0x7FFE), 0xFE);
    assert_eq!(ula.read_port(0x00FE), 0xFE);
    ula.key_released(&SpectrumKeycode::A);
    ula.key_released(&SpectrumKeycode::Space);
    assert_eq!(ula.read_port(0x00FE), 0xFF);
    ula.key_pressed(&SpectrumKeycode::NONE);
    assert_eq!(ula.read_port(0x00FE), 0xFF);
}

#[test]
fn test_machine_boots() {
    let (r0, r1) = roms();
    let m = Machine::new(true, r0, r1, Vec::new(), Vec::new());
    assert!(m.debug_on());
    assert_eq!(m.tcycles(), 0);
    assert!(!m.frame_ready());
    assert_eq!(m.cpu().get_pc(), 0);
    assert_eq!(m.cpu().read_reg16(Reg16::SP), 0xFFFF);
}

#[test]
fn test_machine_steps_and_frames() {
    // ROM full of NOPs: four T-cycles each. The frame ends at 70908 T-cycles:
    // the interrupt check of the next step takes the frame off the counter.
    let (r0, r1) = roms();
    let mut m = Machine::new(false, r0, r1, Vec::new(), Vec::new());
    for _ in 0..17727 {
        assert_eq!(m.step(), Ok(()));
    }
    assert_eq!(m.tcycles(), 70908);
    assert!(!m.frame_ready());
    assert_eq!(m.step(), Ok(()));
    assert_eq!(m.tcycles(), 4);
    assert_eq!(m.cpu().get_pc(), 17728);
    // LD A,0 first (seven T-cycles), then NOPs: the counter passes the frame.
    let (mut r0, r1) = roms();
    r0[0] = 0x3E;
    let mut m = Machine::new(false, r0, r1, Vec::new(), Vec::new());
    for _ in 0..17727 {
        assert_eq!(m.step(), Ok(()));
    }
    assert_eq!(m.tcycles(), 70911);
    assert!(m.frame_ready());
    assert_eq!(m.step(), Ok(()));
    assert_eq!(m.tcycles(), 7);
    assert_eq!(m.cpu().get_pc(), 17729);
}

#[test]
fn test_machine_reports_rom_write() {
    // LD (0x0000),A at address 0
    let mut r0 = vec![0u8; 0x4000];
    r0[0] = 0x32;
    let r1 = vec![0u8; 0x4000];
    let mut m = Machine::new(false, r0, r1, Vec::new(), Vec::new());
    assert_eq!(m.step(), Err(StepError::RomWrite { addr: 0x0000 }));
}

#[test]
fn test_machine_keys() {
    let (r0, r1) = roms();
    let mut m = Machine::new(false, r0, r1, Vec::new(), Vec::new());
    m.key_down(HostKey::Backspace);
    let ports = m.cpu().interconnect().ula();
    assert_eq!(ports.read_port(0xEFFE), 0xFE);
    assert_eq!(ports.read_port(0xFEFE), 0xFE);
    m.key_up(HostKey::Backspace);
    assert_eq!(m.cpu().interconnect().ula().read_port(0x00FE), 0xFF);
}

#[test]
fn test_screen_pixels() {
    let (r0, r1) = roms();
    let m = Machine::new(false, r0, r1, Vec::new(), Vec::new());
    // Blank screen: paper 0, ink 0.
    let blank = m.screen();
    assert_eq!(blank.len(), SCREEN_HEIGHT * SCREEN_PITCH);
    assert!(blank.iter().all(|b| *b == 0));
    // Leftmost pixel of the top line set; ink blue (1), paper red (2):
    // LD A,0x80; LD (0x4000),A; LD A,0x11; LD (0x5800),A
    let program = [0x3E, 0x80, 0x32, 0x00, 0x40, 0x3E, 0x11, 0x32, 0x00, 0x58];
    let mut r0 = vec![0u8; 0x4000];
    r0[..program.len()].copy_from_slice(&program);
    let mut m = Machine::new(false, r0, vec![0u8; 0x4000], Vec::new(), Vec::new());
    for _ in 0..4 {
        assert_eq!(m.step(), Ok(()));
    }
    let s = m.screen();
    // Pixel (0,0): ink blue at level 192.
    assert_eq!(&s[0..3], &[0, 0, 192]);
    // Pixel (1,0): paper red.
    assert_eq!(&s[3..6], &[192, 0, 0]);
    // Pixel (0,1) lies in another bitmap byte (0x4100), still cleared: paper.
    assert_eq!(&s[SCREEN_PITCH..SCREEN_PITCH + 3], &[192, 0, 0]);
    // Pixel (8,0) lies in the next cell: black.
    assert_eq!(&s[24..27], &[0, 0, 0]);
}

#[test]
fn test_screen_bright_and_layout() {
    // Pixel row 8 starts at 0x4020; bright white ink.
    let program = [0x3E, 0xFF, 0x32, 0x20, 0x40, 0x3E, 0x47, 0x32, 0x20, 0x58];
    let mut r0 = vec![0u8; 0x4000];
    r0[..program.len()].copy_from_slice(&program);
    let mut m = Machine::new(false, r0, vec![0u8; 0x4000], Vec::new(), Vec::new());
    for _ in 0..4 {
        assert_eq!(m.step(), Ok(()));
    }
    let s = m.screen();
    let row8 = 8 * SCREEN_PITCH;
    assert_eq!(&s[row8..row8 + 3], &[255, 255, 255]);
    assert_eq!(&s[row8 + 21..row8 + 24], &[255, 255, 255]);
    assert_eq!(&s[row8 + 24..row8 + 27], &[0, 0, 0]);
    assert_eq!(&s[0..3], &[0, 0, 0]);
}

#[test]
fn test_screen_ignores_other_memory() {
    // Writing outside video memory leaves the picture as it was.
    let program = [0x3E, 0xAA, 0x32, 0x00, 0x80, 0x32, 0x00, 0x5B];
    let mut r0 = vec![0u8; 0x4000];
    r0[..program.len()].copy_from_slice(&program);
    let mut m = Machine::new(false, r0, vec![0u8; 0x4000], Vec::new(), Vec::new());
    let before = m.screen();
    for _ in 0..3 {
        assert_eq!(m.step(), Ok(()));
    }
    assert_eq!(m.screen(), before);
}

#[test]
fn test_machine_from_snapshot() {
    let mut input = vec![0u8; 30];
    input[0] = 0x12; // A
    input[2] = 0xCD; // BC
    input[3] = 0xAB;
    input[6] = 0x34; // PC
    input[7] = 0x82;
    input[8] = 0x00; // SP
    input[9] = 0x90;
    input[27] = 1;
    input[29] = 0x02; // interrupt mode 2
    input.extend_from_slice(&[0xED, 0xED, 0x03, 0x99, 0x07]);
    let (header, data) = parse(&input).unwrap();
    let m = Machine::from_snapshot(false, vec![0u8; 0x4000], vec![0u8; 0x4000], Vec::new(), Vec::new(), &header, &data).unwrap();
    assert_eq!(m.cpu().read_reg8(Reg8::A), 0x12);
    assert_eq!(m.cpu().read_reg16(Reg16::BC), 0xABCD);
    assert_eq!(m.cpu().get_pc(), 0x8234);
    assert_eq!(m.cpu().read_reg16(Reg16::SP), 0x9000);
    assert_eq!(m.cpu().get_im(), 2);
    assert!(m.cpu().get_iff1());
    assert!(!m.cpu().get_iff2());
    assert_eq!(m.cpu().zero_cycle_read_word(0x4000), 0x99);
    assert_eq!(m.cpu().zero_cycle_read_word(0x4002), 0x99);
    assert_eq!(m.cpu().zero_cycle_read_word(0x4003), 0x07);
    assert_eq!(m.cpu().zero_cycle_read_word(0x4004), 0x00);
    let mut bad = input.clone();
    bad[29] = 0x03;
    let (header, data) = parse(&bad).unwrap();
    assert!(Machine::from_snapshot(false, vec![0u8; 0x4000], vec![0u8; 0x4000], Vec::new(), Vec::new(), &header, &data).is_none());
}
