use z80emulib::snapshot::{header, parse, SnapshotError};

fn sample_header() -> Vec<u8> {
    let mut h = vec![0u8; 30];
    h[0] = 0x12; // A
    h[1] = 0x34; // F
    h[2] = 0xCD; // BC low
    h[3] = 0xAB; // BC high
    h[4] = 0x01; // HL
    h[5] = 0x02;
    h[6] = 0x00; // PC
    h[7] = 0x80;
    h[8] = 0xFE; // SP
    h[9] = 0xFF;
    h[10] = 0x3F; // I
    h[11] = 0xFF; // R
    h[12] = 0x21; // misc 1
    h[13] = 0x11; // DE
    h[14] = 0x22;
    h[21] = 0x55; // A'
    h[22] = 0x66; // F'
    h[23] = 0x78; // IY
    h[24] = 0x56;
    h[25] = 0x34; // IX
    h[26] = 0x12;
    h[27] = 1; // IFF1
    h[28] = 0; // IFF2
    h[29] = 0x01; // misc 2
    h
}

#[test]
fn test_header_fields() {
    let mut input = sample_header();
    input.push(0x42);
    let (h, data) = parse(&input).unwrap();
    assert_eq!(h.a, 0x12);
    assert_eq!(h.f, 0x34);
    assert_eq!(h.bc, 0xABCD);
    assert_eq!(h.hl, 0x0201);
    assert_eq!(h.pc, 0x8000);
    assert_eq!(h.sp, 0xFFFE);
    assert_eq!(h.ir, 0x3F);
    assert_eq!(h.r, 0x7F);
    assert_eq!(h.misc1, 0x21);
    assert_eq!(h.de, 0x2211);
    assert_eq!(h.af_alt, 0x5566);
    assert_eq!(h.iy, 0x5678);
    assert_eq!(h.ix, 0x1234);
    assert!(h.iff1);
    assert!(!h.iff2);
    assert_eq!(h.misc2, 0x01);
    assert_eq!(data, vec![0x42]);
}

#[test]
fn test_compressed_run() {
    let mut input = sample_header();
    input.extend_from_slice(&[0x01, 0xED, 0xED, 0x05, 0xAA, 0x02]);
    let (_, data) = parse(&input).unwrap();
    assert_eq!(data, vec![0x01, 0xAA, 0xAA, 0xAA, 0xAA, 0xAA, 0x02]);
}

#[test]
fn test_end_marker_kept() {
    let mut input = sample_header();
    input.extend_from_slice(&[0x00, 0xED, 0xED, 0x00, 0xED, 0xED, 0x02, 0x07]);
    let (_, data) = parse(&input).unwrap();
    assert_eq!(data, vec![0x00, 0xED, 0xED, 0x00, 0x07, 0x07]);
}

#[test]
fn test_short_ed_sequence_is_literal() {
    let mut input = sample_header();
    input.extend_from_slice(&[0xED, 0xED, 0x03]);
    let (_, data) = parse(&input).unwrap();
    assert_eq!(data, vec![0xED, 0xED, 0x03]);
}

#[test]
fn test_plain_image_unchanged() {
    let mut input = sample_header();
    let image: Vec<u8> = (0u8..200).filter(|b| *b != 0xED).collect();
    input.extend_from_slice(&image);
    let (_, data) = parse(&input).unwrap();
    assert_eq!(data, image);
}

#[test]
fn test_too_short() {
    let input = vec![0u8; 29];
    assert_eq!(parse(&input), None);
    assert_eq!(header(&input), Err(SnapshotError::TooShort));
    let input = sample_header();
    assert_eq!(parse(&input), None);
    assert_eq!(header(&input), Err(SnapshotError::NoData));
}
