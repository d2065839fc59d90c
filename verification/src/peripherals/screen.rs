//! The picture the ULA draws from video memory: 256 by 192 pixels, eight
//! pixels per bitmap byte and one colour attribute per 8 by 8 cell.

use vstd::prelude::*;
use vstd::arithmetic::div_mod::lemma_fundamental_div_mod_converse;
use crate::memory::{Memory, MemModel};
use crate::peripherals::Ula;

verus! {

/// Width of the picture, in pixels.
pub const SCREEN_WIDTH: usize = 256;

/// Height of the picture, in pixels.
pub const SCREEN_HEIGHT: usize = 192;

/// Bytes per row of the RGB picture: three per pixel.
pub const SCREEN_PITCH: usize = 768;

/// The red, green and blue of colour `c` (0 to 15): bit 1 red, bit 2 green,
/// bit 0 blue, at level 192, or 255 for the bright colours 8 to 15.
pub open spec fn palette(c: u8) -> (u8, u8, u8) {
    let level: u8 = if c >= 8 { 255 } else { 192 };
    (
        if c & 2 != 0 { level } else { 0 },
        if c & 4 != 0 { level } else { 0 },
        if c & 1 != 0 { level } else { 0 },
    )
}

/// The address of the bitmap byte that holds pixel (`x`, `y`): the thirds of
/// the screen, then the pixel row within a character row, then the
/// character row.
pub open spec fn pixel_addr(x: int, y: int) -> u16 {
    (0x4000 + (y / 64) * 0x800 + (y % 8) * 0x100 + ((y / 8) % 8) * 0x20 + x / 8) as u16
}

/// The address of the attribute of the cell holding pixel (`x`, `y`).
pub open spec fn attr_addr(x: int, y: int) -> u16 {
    (0x5800 + (y / 8) * 32 + x / 8) as u16
}

/// The colour of pixel (`x`, `y`): the ink of its cell where its bit (the
/// leftmost pixel is bit 7) is set, the paper elsewhere, plus 8 when the
/// cell is bright.
pub open spec fn pixel_colour(m: MemModel, x: int, y: int) -> u8 {
    let pixels = m.read(pixel_addr(x, y));
    let attr = m.read(attr_addr(x, y));
    let ink = attr & 0x07;
    let paper = (attr & 0x38) >> 3;
    let bright: u8 = if attr & 0x40 != 0 { 8 } else { 0 };
    let bit = (7 - x % 8) as u8;
    ((if (pixels >> bit) & 1 == 1 { ink } else { paper }) + bright) as u8
}

/// Byte `i` of the RGB picture, row after row, three bytes per pixel.
pub open spec fn screen_byte(m: MemModel, i: int) -> u8 {
    let y = i / 768;
    let x = (i % 768) / 3;
    let rgb = palette(pixel_colour(m, x, y));
    if i % 3 == 0 {
        rgb.0
    } else if i % 3 == 1 {
        rgb.1
    } else {
        rgb.2
    }
}

proof fn lemma_screen_index(y: int, x: int, c: int)
    requires
        0 <= y,
        0 <= x < 256,
        0 <= c < 3,
    ensures
        (y * 768 + x * 3 + c) / 768 == y,
        ((y * 768 + x * 3 + c) % 768) / 3 == x,
        (y * 768 + x * 3 + c) % 3 == c,
{
    lemma_fundamental_div_mod_converse(y * 768 + x * 3 + c, 768, y, x * 3 + c);
    lemma_fundamental_div_mod_converse(x * 3 + c, 3, x, c);
    lemma_fundamental_div_mod_converse(y * 768 + x * 3 + c, 3, y * 256 + x, c);
}

fn rgb_of(c: u8) -> (rgb: (u8, u8, u8))
    ensures
        rgb == palette(c),
{
    let level: u8 = if c >= 8 { 255 } else { 192 };
    (
        if c & 2 != 0 { level } else { 0 },
        if c & 4 != 0 { level } else { 0 },
        if c & 1 != 0 { level } else { 0 },
    )
}

fn colour_at(memory: &Memory, x: u16, y: u16) -> (c: u8)
    requires
        memory.wf(),
        x < 256,
        y < 192,
    ensures
        c == pixel_colour(memory@, x as int, y as int),
{
    let pixels: u8 = memory.read_word(0x4000 + (y / 64) * 0x800 + (y % 8) * 0x100 + ((y / 8) % 8) * 0x20 + x / 8);
    let attr: u8 = memory.read_word(0x5800 + (y / 8) * 32 + x / 8);
    let ink: u8 = attr & 0x07;
    let paper: u8 = (attr & 0x38) >> 3;
    let bright: u8 = if attr & 0x40 != 0 { 8 } else { 0 };
    let bit: u8 = (7 - x % 8) as u8;
    assert(ink < 8 && paper < 8) by (bit_vector)
        requires
            ink == attr & 0x07,
            paper == (attr & 0x38) >> 3,
    ;
    (if (pixels >> bit) & 1 == 1 { ink } else { paper }) + bright
}

impl Ula {
    /// Draws the picture that video memory holds, as seen through the
    /// current paging: 192 rows of 256 pixels, three bytes (red, green,
    /// blue) per pixel.
    pub fn display(&self, memory: &Memory) -> (buf: Vec<u8>)
        requires
            memory.wf(),
        ensures
            buf@.len() == SCREEN_HEIGHT * SCREEN_PITCH,
            forall|i: int| 0 <= i < buf@.len() ==> buf@[i] == screen_byte(memory@, i),
    {
        let mut buf: Vec<u8> = Vec::new();
        let mut y: u16 = 0;
        while y < 192
            invariant
                y <= 192,
                memory.wf(),
                buf@.len() == y * 768,
                forall|i: int| 0 <= i < buf@.len() ==> buf@[i] == screen_byte(memory@, i),
            decreases 192 - y,
        {
            let mut x: u16 = 0;
            while x < 256
                invariant
                    y < 192,
                    x <= 256,
                    memory.wf(),
                    buf@.len() == y * 768 + x * 3,
                    forall|i: int| 0 <= i < buf@.len() ==> buf@[i] == screen_byte(memory@, i),
                decreases 256 - x,
            {
                let c: u8 = colour_at(memory, x, y);
                let rgb: (u8, u8, u8) = rgb_of(c);
                proof {
                    lemma_screen_index(y as int, x as int, 0);
                    lemma_screen_index(y as int, x as int, 1);
                    lemma_screen_index(y as int, x as int, 2);
                }
                buf.push(rgb.0);
                buf.push(rgb.1);
                buf.push(rgb.2);
                x = x + 1;
            }
            y = y + 1;
        }
        buf
    }
}

/// The picture depends on video memory alone: two memories that show the
/// same bytes at 0x4000-0x5AFF (bitmap and attributes) give the same picture.
pub proof fn lemma_screen_from_video_memory(m1: MemModel, m2: MemModel, i: int)
    requires
        0 <= i < SCREEN_HEIGHT * SCREEN_PITCH,
        forall|a: u16| 0x4000 <= a < 0x5B00 ==> #[trigger] m1.read(a) == m2.read(a),
    ensures
        screen_byte(m1, i) == screen_byte(m2, i),
{
    let y = i / 768;
    let x = (i % 768) / 3;
    assert(0 <= y < 192);
    assert(0 <= x < 256);
    assert(0x4000 <= pixel_addr(x, y) < 0x5800);
    assert(0x5800 <= attr_addr(x, y) < 0x5B00);
    assert(m1.read(pixel_addr(x, y)) == m2.read(pixel_addr(x, y)));
    assert(m1.read(attr_addr(x, y)) == m2.read(attr_addr(x, y)));
}

/// The bitmap byte of pixel (`x`, `y`): the row's bits 6-7 pick the third
/// of the screen (0x800 bytes each), bits 0-2 the pixel line within the
/// character row (0x100 apart), bits 3-5 the character row (0x20 apart);
/// then the column of eight pixels.
pub proof fn lemma_bitmap_address(x: u32, y: u32)
    requires
        x < 256,
        y < 192,
    ensures
        pixel_addr(x as int, y as int) == 0x4000 + ((y & 0xC0) << 5) + ((y & 7) << 8) + ((y & 0x38) << 2) + x / 8,
        0x4000 <= pixel_addr(x as int, y as int) < 0x5800,
{
    assert(0x4000 + (y / 64) * 0x800 + (y % 8) * 0x100 + ((y / 8) % 8) * 0x20 + x / 8
        == 0x4000 + ((y & 0xC0) << 5) + ((y & 7) << 8) + ((y & 0x38) << 2) + x / 8) by (bit_vector)
        requires
            x < 256,
            y < 192,
    ;
    assert(0x4000 + ((y & 0xC0) << 5) + ((y & 7) << 8) + ((y & 0x38) << 2) + x / 8 < 0x5800) by (bit_vector)
        requires
            x < 256,
            y < 192,
    ;
}

/// The bitmap address gives back the pixel row and the column of eight:
/// no two (row, column) pairs share a bitmap byte.
pub proof fn lemma_bitmap_address_inverse(x: u32, y: u32)
    requires
        x < 256,
        y < 192,
    ensures
        ({
            let o = (pixel_addr(x as int, y as int) - 0x4000) as u32;
            &&& o & 0x1F == x / 8
            &&& ((o & 0x0700) >> 8) | ((o & 0x00E0) >> 2) | ((o & 0x1800) >> 5) == y
        }),
{
    lemma_bitmap_address(x, y);
    let o: u32 = (((y & 0xC0) << 5) + ((y & 7) << 8) + ((y & 0x38) << 2) + x / 8) as u32;
    assert(o & 0x1F == x / 8 && ((o & 0x0700) >> 8) | ((o & 0x00E0) >> 2) | ((o & 0x1800) >> 5) == y) by (bit_vector)
        requires
            x < 256,
            y < 192,
            o == ((y & 0xC0) << 5) + ((y & 7) << 8) + ((y & 0x38) << 2) + x / 8,
    ;
}

/// Distinct pixel rows, or distinct columns of eight, read distinct bitmap
/// bytes.
pub proof fn lemma_bitmap_address_distinct(x1: u32, y1: u32, x2: u32, y2: u32)
    requires
        x1 < 256,
        y1 < 192,
        x2 < 256,
        y2 < 192,
        y1 != y2 || x1 / 8 != x2 / 8,
    ensures
        pixel_addr(x1 as int, y1 as int) != pixel_addr(x2 as int, y2 as int),
{
    lemma_bitmap_address_inverse(x1, y1);
    lemma_bitmap_address_inverse(x2, y2);
}

/// The attribute of pixel (`x`, `y`) is that of its 8 by 8 cell: 32 cells
/// a row from 0x5800; pixels of one cell share it, pixels of different
/// cells do not.
pub proof fn lemma_attribute_address(x1: u32, y1: u32, x2: u32, y2: u32)
    requires
        x1 < 256,
        y1 < 192,
        x2 < 256,
        y2 < 192,
    ensures
        attr_addr(x1 as int, y1 as int) == 0x5800 + (y1 / 8) * 32 + x1 / 8,
        0x5800 <= attr_addr(x1 as int, y1 as int) < 0x5B00,
        (attr_addr(x1 as int, y1 as int) == attr_addr(x2 as int, y2 as int)) == (y1 / 8 == y2 / 8 && x1 / 8 == x2 / 8),
{
}

/// Each pixel of the picture, with its three colour bytes: the bit for
/// column `x` (the leftmost pixel of a byte is its bit 7) of the bitmap
/// byte picks the ink (attribute bits 0-2) or the paper (bits 3-5); bit 6
/// makes it bright. Colour bits 1, 2 and 0 light red, green and blue, at
/// 192, or 255 when bright.
pub proof fn lemma_screen_pixel(m: MemModel, x: u32, y: u32, c: u32)
    requires
        x < 256,
        y < 192,
        c < 3,
    ensures
        ({
            let pix = m.read((0x4000 + ((y & 0xC0) << 5) + ((y & 7) << 8) + ((y & 0x38) << 2) + x / 8) as u16);
            let attr = m.read((0x5800 + (y / 8) * 32 + x / 8) as u16);
            let on = (pix >> ((7 - x % 8) as u8)) & 1 == 1;
            let k = (if on { attr & 7 } else { (attr >> 3) & 7 }) as int;
            let level: u8 = if attr & 0x40 != 0 { 255 } else { 192 };
            let bit = if c == 0 { 2int } else if c == 1 { 4int } else { 1int };
            let lit = (k / bit) % 2 == 1;
            screen_byte(m, y * 768 + x * 3 + c) == if lit { level } else { 0u8 }
        }),
{
    lemma_screen_index(y as int, x as int, c as int);
    lemma_bitmap_address(x, y);
    let pix = m.read(pixel_addr(x as int, y as int));
    let attr = m.read(attr_addr(x as int, y as int));
    let ink = attr & 0x07;
    let paper = (attr & 0x38) >> 3;
    assert((attr >> 3) & 7 == paper) by (bit_vector)
        requires
            paper == (attr & 0x38) >> 3,
    ;
    let bright: u8 = if attr & 0x40 != 0 { 8 } else { 0 };
    let on = (pix >> ((7 - x % 8) as u8)) & 1 == 1;
    let k: u8 = if on { ink } else { paper };
    assert(ink < 8 && paper < 8) by (bit_vector)
        requires
            ink == attr & 0x07,
            paper == (attr & 0x38) >> 3,
    ;
    let col: u8 = (k + bright) as u8;
    assert(col >= 8 <==> attr & 0x40 != 0);
    assert((col & 2 != 0) == ((k as int / 2) % 2 == 1) && (col & 4 != 0) == ((k as int / 4) % 2 == 1)
        && (col & 1 != 0) == ((k as int) % 2 == 1)) by (bit_vector)
        requires
            k < 8,
            col == k + 8 || col == k,
    ;
    assert(pixel_colour(m, x as int, y as int) == col);
}

} // verus!
