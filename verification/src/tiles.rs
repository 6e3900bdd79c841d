//! What the picture is drawn from: the pixels of the character patterns,
//! the palette cells of the attribute table, the characters of the
//! nametable, and the colours of the system palette, each as plain bytes.

use crate::asc::{AscView, MemoryMapped};
use crate::ppu::Ppu;
use vstd::prelude::*;

verus! {

/// The number of character patterns in the two pattern tables.
pub const NUM_CHARS: u16 = 512;

/// The width and the height of a character in pixels.
pub const CHAR_PIXEL_SIZE: usize = 8;

/// The bytes of one character pattern: two planes of eight rows.
pub const CHAR_BYTES: usize = 16;

/// The width of the picture in characters.
pub const CHARS_WIDTH: u16 = 32;

/// The height of the picture in characters.
pub const CHARS_HEIGHT: u16 = 30;

/// The width and the height of the attribute table in bytes.
pub const ATRTABLE_SIZE: usize = 8;

/// The address of the first background palette in the PPU's address space.
pub const PALETTE_BASE: u16 = 0x3f00;

/// The bit of `byte` at the place `index`, counted from the lowest.
pub open spec fn bit_at(byte: u8, index: int) -> u8 {
    (byte >> (index as u8)) & 1
}

/// The pixels of a character pattern, row by row and in each row from left
/// to right. A pixel is a number from 0 to 3: its low bit comes from the
/// row's byte of the first plane, its high bit from the row's byte of the
/// second plane, the leftmost pixel from bit 7.
pub open spec fn decoded_char(pattern: Seq<u8>) -> Seq<u8> {
    Seq::new(
        64,
        |k: int|
            (2 * bit_at(pattern[8 + k / 8], 7 - k % 8) + bit_at(pattern[k / 8], 7 - k % 8)) as u8,
    )
}

/// Decodes a character pattern into its 64 pixels.
pub fn decode_char(pattern: [u8; 16]) -> (decoded: Vec<u8>)
    ensures
        decoded@ == decoded_char(pattern@),
{
    let mut decoded: Vec<u8> = Vec::new();
    let mut row: usize = 0;
    while row < 8
        invariant
            row <= 8,
            decoded@.len() == row * 8,
            forall|k: int| 0 <= k < row * 8 ==> decoded@[k] == #[trigger] decoded_char(pattern@)[k],
        decreases 8 - row,
    {
        let low_plane = pattern[row];
        let high_plane = pattern[row + 8];
        let mut column: usize = 0;
        while column < 8
            invariant
                row < 8,
                column <= 8,
                low_plane == pattern@[row as int],
                high_plane == pattern@[row + 8],
                decoded@.len() == row * 8 + column,
                forall|k: int|
                    0 <= k < row * 8 + column ==> decoded@[k] == #[trigger] decoded_char(
                        pattern@,
                    )[k],
            decreases 8 - column,
        {
            let i: u8 = (7 - column) as u8;
            let bit0 = (low_plane >> i) & 1;
            let bit1 = (high_plane >> i) & 1;
            let pixel = (bit1 << 1) | bit0;
            proof {
                assert((bit1 << 1) | bit0 == 2 * bit1 + bit0) by (bit_vector)
                    requires
                        bit0 == (low_plane >> i) & 1,
                        bit1 == (high_plane >> i) & 1,
                ;
                let k = row * 8 + column;
                assert(k / 8 == row && k % 8 == column);
            }
            decoded.push(pixel);
            column += 1;
        }
        row += 1;
    }
    assert(decoded@ =~= decoded_char(pattern@));
    decoded
}

/// The 16 bytes of the character pattern with the number `index`.
pub open spec fn char_pattern(memory: AscView<Seq<u8>>, index: int) -> Seq<u8> {
    Seq::new(16, |j: int| Ppu::vram_byte(memory, (16 * index + j) as u16))
}

/// The pixels of all 512 character patterns, pattern after pattern.
pub open spec fn all_char_pixels(memory: AscView<Seq<u8>>) -> Seq<u8> {
    Seq::new(512 * 64, |k: int| decoded_char(char_pattern(memory, k / 64))[k % 64])
}

/// Reads the 512 character patterns from the PPU's pattern tables and
/// decodes them into pixels.
pub fn char_pixels(ppu: &mut Ppu) -> (chars: Vec<u8>)
    requires
        old(ppu).inv(),
    ensures
        final(ppu).inv(),
        final(ppu)@ == old(ppu)@,
        chars@ == all_char_pixels(old(ppu)@.memory),
{
    let mut chars: Vec<u8> = Vec::new();
    let mut i: u16 = 0;
    while i < NUM_CHARS
        invariant
            i <= NUM_CHARS,
            ppu.inv(),
            ppu@ == old(ppu)@,
            chars@.len() == i * 64,
            forall|k: int|
                0 <= k < i * 64 ==> chars@[k] == #[trigger] all_char_pixels(old(ppu)@.memory)[k],
        decreases NUM_CHARS - i,
    {
        let mut pattern: [u8; 16] = [0u8; 16];
        let mut j: u16 = 0;
        while j < 16
            invariant
                i < NUM_CHARS,
                j <= 16,
                ppu.inv(),
                ppu@ == old(ppu)@,
                forall|m: int|
                    0 <= m < j ==> pattern@[m] == #[trigger] char_pattern(
                        old(ppu)@.memory,
                        i as int,
                    )[m],
            decreases 16 - j,
        {
            let value = ppu.vram_read(j + 16 * i);
            pattern[j as usize] = value;
            j += 1;
        }
        assert(pattern@ =~= char_pattern(old(ppu)@.memory, i as int));
        let mut decoded = decode_char(pattern);
        let ghost before = chars@;
        chars.append(&mut decoded);
        assert forall|k: int| 0 <= k < (i + 1) * 64 implies chars@[k] == #[trigger] all_char_pixels(
            old(ppu)@.memory,
        )[k] by {
            if k >= i * 64 {
                assert(k / 64 == i && k % 64 == k - i * 64);
            } else {
                assert(chars@[k] == before[k]);
            }
        }
        i += 1;
    }
    assert(chars@ =~= all_char_pixels(old(ppu)@.memory));
    chars
}

/// The colours that the console can show, each as `0xRRGGBB`.
pub const DEFAULT_SYSTEM_PALLETE: [u32; 64] = [
    0x626262, 0x002391, 0x1810A6, 0x440099, 0x660071, 0x6D002C, 0x680A00, 0x4D2400,
    0x2D3F00, 0x034B00, 0x005100, 0x004B1B, 0x003F62, 0x000000, 0x000000, 0x000000,
    0xABABAB, 0x1E55EA, 0x463BFF, 0x8220F6, 0xAD1CBD, 0xBA2061, 0xB33215, 0x8D5600,
    0x617900, 0x298B00, 0x079300, 0x008B4A, 0x0079A9, 0x000000, 0x000000, 0x000000,
    0xFFFFFF, 0x6CA6FF, 0x968BFF, 0xD46FFF, 0xFF6BFF, 0xFF6FB2, 0xFF8263, 0xE0A70C,
    0xB2CB00, 0x78DE00, 0x55E632, 0x3EDE9A, 0x4ECBFD, 0x4E4E4E, 0x000000, 0x000000,
    0xFFFFFF, 0xC4DBFF, 0xD5D0FF, 0xEEC5FF, 0xFFC6FF, 0xFFC5E0, 0xFFCDC0, 0xF3DC9D,
    0xE3ED96, 0xC9F299, 0xBBF5AD, 0xB2F2D7, 0xBBEDFF, 0xB8B8B8, 0x000000, 0x000000,
];

/// The three low bytes of each colour, the lowest first: blue, green, red.
pub open spec fn colour_bytes(colours: Seq<u32>) -> Seq<u8> {
    Seq::new(
        3 * colours.len(),
        |k: int|
            if k % 3 == 0 {
                (colours[k / 3] % 256) as u8
            } else if k % 3 == 1 {
                ((colours[k / 3] / 256) % 256) as u8
            } else {
                ((colours[k / 3] / 65536) % 256) as u8
            },
    )
}

/// The system palette as bytes: for each of its 64 colours the blue, the
/// green and the red byte.
pub fn system_palette_bytes() -> (bytes: Vec<u8>)
    ensures
        bytes@ == colour_bytes(DEFAULT_SYSTEM_PALLETE@),
{
    let mut bytes: Vec<u8> = Vec::new();
    let mut i: usize = 0;
    while i < 64
        invariant
            i <= 64,
            bytes@.len() == 3 * i,
            forall|k: int|
                0 <= k < 3 * i ==> bytes@[k] == #[trigger] colour_bytes(DEFAULT_SYSTEM_PALLETE@)[k],
        decreases 64 - i,
    {
        let v: u32 = DEFAULT_SYSTEM_PALLETE[i];
        proof {
            assert({
                &&& (v & 0xff) as u8 == v % 256
                &&& ((v >> 8) & 0xff) as u8 == (v / 256) % 256
                &&& ((v >> 16) & 0xff) as u8 == (v / 65536) % 256
            }) by (bit_vector);
            assert((3 * i) / 3 == i && (3 * i) % 3 == 0);
            assert((3 * i + 1) / 3 == i && (3 * i + 1) % 3 == 1);
            assert((3 * i + 2) / 3 == i && (3 * i + 2) % 3 == 2);
        }
        bytes.push((v & 0xff) as u8);
        bytes.push(((v >> 8) & 0xff) as u8);
        bytes.push(((v >> 16) & 0xff) as u8);
        i += 1;
    }
    assert(bytes@ =~= colour_bytes(DEFAULT_SYSTEM_PALLETE@));
    bytes
}

/// The bytes that the PPU's own address space holds from `start` on.
pub open spec fn vram_run(memory: AscView<Seq<u8>>, start: u16, count: nat) -> Seq<u8> {
    Seq::new(count, |i: int| Ppu::vram_byte(memory, (start + i) as u16))
}

/// Reads `count` bytes of the PPU's own address space from `start` on, all
/// below `0x4000`.
fn read_run(ppu: &mut Ppu, start: u16, count: u16) -> (bytes: Vec<u8>)
    requires
        old(ppu).inv(),
        start + count <= 0x4000,
    ensures
        final(ppu).inv(),
        final(ppu)@ == old(ppu)@,
        bytes@ == vram_run(old(ppu)@.memory, start, count as nat),
{
    let mut bytes: Vec<u8> = Vec::new();
    let mut i: u16 = 0;
    while i < count
        invariant
            i <= count,
            start + count <= 0x4000,
            ppu.inv(),
            ppu@ == old(ppu)@,
            bytes@.len() == i,
            forall|k: int|
                0 <= k < i ==> bytes@[k] == #[trigger] vram_run(
                    old(ppu)@.memory,
                    start,
                    count as nat,
                )[k],
        decreases count - i,
    {
        let value = ppu.vram_read(start + i);
        bytes.push(value);
        i += 1;
    }
    assert(bytes@ =~= vram_run(old(ppu)@.memory, start, count as nat));
    bytes
}

/// Reads the sixteen bytes of the four background palettes.
pub fn background_palettes(ppu: &mut Ppu) -> (palettes: Vec<u8>)
    requires
        old(ppu).inv(),
    ensures
        final(ppu).inv(),
        final(ppu)@ == old(ppu)@,
        palettes@ == vram_run(old(ppu)@.memory, PALETTE_BASE, 16),
{
    read_run(ppu, PALETTE_BASE, 16)
}

/// The palette that the attribute table `table` gives the cell in column
/// `cx` and row `cy`, a cell being two characters wide and high. One byte of
/// the table serves a square of four cells, with two bits for each: the
/// lowest two for the upper left cell, then the upper right, the lower left
/// and the lower right.
pub open spec fn attribute_cell(table: Seq<u8>, cx: int, cy: int) -> u8 {
    (table[(cy / 2) * 8 + cx / 2] >> ((2 * ((cy % 2) * 2 + cx % 2)) as u8)) & 3
}

/// The palettes of the 16 by 15 cells of the picture, row by row.
pub open spec fn attribute_cells(table: Seq<u8>) -> Seq<u8> {
    Seq::new(240, |k: int| attribute_cell(table, k % 16, k / 16))
}

/// Spreads the 64 bytes of an attribute table out into the palettes of the
/// 16 by 15 cells of the picture.
pub fn unpack_attributes(table: &Vec<u8>) -> (cells: Vec<u8>)
    requires
        table@.len() == 64,
    ensures
        cells@ == attribute_cells(table@),
{
    let mut buf: Vec<u8> = vec![0u8; 256];
    let mut i: usize = 0;
    while i < 64
        invariant
            i <= 64,
            table@.len() == 64,
            buf@.len() == 256,
            forall|k: int|
                0 <= k < 256 && ((k / 16) / 2) * 8 + (k % 16) / 2 < i ==> #[trigger] buf@[k]
                    == attribute_cell(table@, k % 16, k / 16),
        decreases 64 - i,
    {
        let v = table[i];
        let top_left = v & 0x3;
        let top_right = (v >> 2) & 0x3;
        let bottom_left = (v >> 4) & 0x3;
        let bottom_right = (v >> 6) & 0x3;
        let x = (i % ATRTABLE_SIZE) * 2;
        let y = (i / ATRTABLE_SIZE) * 2;
        let ghost before = buf@;
        proof {
            assert(v >> 0u8 == v) by (bit_vector);
        }
        buf[x + y * 16] = top_left;
        buf[x + 1 + y * 16] = top_right;
        buf[x + 1 + (y + 1) * 16] = bottom_right;
        buf[x + (y + 1) * 16] = bottom_left;
        assert forall|k: int|
            0 <= k < 256 && ((k / 16) / 2) * 8 + (k % 16) / 2 < i + 1 implies #[trigger] buf@[k]
            == attribute_cell(table@, k % 16, k / 16) by {
            let cx = k % 16;
            let cy = k / 16;
            if (cy / 2) * 8 + cx / 2 == i {
                assert(cx / 2 == i % 8 && cy / 2 == i / 8);
                assert(k == cx + cy * 16);
                if cx == x && cy == y {
                    assert(k == x + y * 16);
                } else if cx == x + 1 && cy == y {
                    assert(k == x + 1 + y * 16);
                } else if cx == x && cy == y + 1 {
                    assert(k == x + (y + 1) * 16);
                } else {
                    assert(cx == x + 1 && cy == y + 1);
                    assert(k == x + 1 + (y + 1) * 16);
                }
            } else {
                assert(buf@[k] == before[k]);
            }
        }
        i += 1;
    }
    buf.truncate(240);
    assert(buf@ =~= attribute_cells(table@));
    buf
}

/// The palettes of the cells of the picture, from the attribute table of
/// the nametable that the control register selects.
pub fn attribute_table(ppu: &mut Ppu) -> (cells: Vec<u8>)
    requires
        old(ppu).inv(),
    ensures
        final(ppu).inv(),
        final(ppu)@ == old(ppu)@,
        cells@ == attribute_cells(
            vram_run(old(ppu)@.memory, (old(ppu)@.nametable_base + 960) as u16, 64),
        ),
{
    proof {
        ppu.lemma_nametable_base();
    }
    let atrtable_addr = ppu.nametable_base() + CHARS_WIDTH * CHARS_HEIGHT;
    let table = read_run(ppu, atrtable_addr, 64);
    unpack_attributes(&table)
}

/// The character patterns of the picture, row by row: for each of the 960
/// places of the nametable, the byte found there plus the address of the
/// background pattern table.
pub open spec fn background_chars_spec(
    memory: AscView<Seq<u8>>,
    nametable_base: u16,
    background_table_addr: u16,
) -> Seq<usize> {
    Seq::new(
        960,
        |i: int|
            (Ppu::vram_byte(memory, (nametable_base + i) as u16) + background_table_addr) as usize,
    )
}

/// Reads the nametable that the control register selects and gives the
/// character pattern of each place of the picture.
pub fn background_chars(ppu: &mut Ppu) -> (chars: Vec<usize>)
    requires
        old(ppu).inv(),
    ensures
        final(ppu).inv(),
        final(ppu)@ == old(ppu)@,
        chars@ == background_chars_spec(
            old(ppu)@.memory,
            old(ppu)@.nametable_base,
            old(ppu)@.background_table_addr,
        ),
{
    proof {
        ppu.lemma_nametable_base();
    }
    let base = ppu.nametable_base();
    let table = ppu.background_table_addr();
    let mut chars: Vec<usize> = Vec::new();
    let mut i: u16 = 0;
    while i < CHARS_WIDTH * CHARS_HEIGHT
        invariant
            i <= 960,
            base <= 0x2c00,
            ppu.inv(),
            ppu@ == old(ppu)@,
            base == old(ppu)@.nametable_base,
            table == old(ppu)@.background_table_addr,
            chars@.len() == i,
            forall|k: int|
                0 <= k < i ==> chars@[k] == #[trigger] background_chars_spec(
                    old(ppu)@.memory,
                    base,
                    table,
                )[k],
        decreases 960 - i,
    {
        let value = ppu.vram_read(i + base);
        chars.push(value as usize + table as usize);
        i += 1;
    }
    assert(chars@ =~= background_chars_spec(old(ppu)@.memory, base, table));
    chars
}

} // verus!
