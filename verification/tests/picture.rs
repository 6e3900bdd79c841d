use nes_core::asc::MemoryMapped;
use nes_core::ppu::Ppu;
use nes_core::ram::Ram;
use nes_core::tiles::{
    attribute_table, background_chars, background_palettes, char_pixels, decode_char,
    system_palette_bytes, unpack_attributes, DEFAULT_SYSTEM_PALLETE,
};

#[test]
fn decode_char_combines_the_two_planes() {
    let mut pattern = [0u8; 16];
    pattern[0] = 0b1000_0001;
    pattern[8] = 0b1100_0000;
    pattern[7] = 0xff;
    pattern[15] = 0x0f;
    let pixels = decode_char(pattern);
    assert_eq!(pixels.len(), 64);
    assert_eq!(&pixels[0..8], &[3, 2, 0, 0, 0, 0, 0, 1]);
    assert_eq!(&pixels[8..16], &[0; 8]);
    assert_eq!(&pixels[56..64], &[1, 1, 1, 1, 3, 3, 3, 3]);
}

#[test]
fn char_pixels_decodes_all_patterns() {
    let mut chr = Ram::new();
    chr.write(16 * 3, 0x80);
    chr.write(16 * 511 + 15, 0x01);
    let mut ppu = Ppu::new(chr);
    let pixels = char_pixels(&mut ppu);
    assert_eq!(pixels.len(), 512 * 64);
    assert_eq!(pixels[3 * 64], 1);
    assert_eq!(pixels[3 * 64 + 1], 0);
    assert_eq!(pixels[511 * 64 + 63], 2);
    assert_eq!(pixels.iter().filter(|p| **p != 0).count(), 2);
}

#[test]
fn system_palette_bytes_are_blue_green_red() {
    let bytes = system_palette_bytes();
    assert_eq!(bytes.len(), 192);
    assert_eq!(&bytes[0..3], &[0x62, 0x62, 0x62]);
    assert_eq!(&bytes[3..6], &[0x91, 0x23, 0x00]);
    assert_eq!(&bytes[189..192], &[0x00, 0x00, 0x00]);
    for (i, colour) in DEFAULT_SYSTEM_PALLETE.iter().enumerate() {
        let le = colour.to_le_bytes();
        assert_eq!(&bytes[3 * i..3 * i + 3], &le[0..3]);
    }
}

#[test]
fn unpack_attributes_spreads_quadrants() {
    let mut table = vec![0u8; 64];
    table[0] = 0b11_10_01_00;
    table[9] = 0b00_01_10_11;
    table[63] = 0xff;
    let cells = unpack_attributes(&table);
    assert_eq!(cells.len(), 240);
    assert_eq!(cells[0], 0);
    assert_eq!(cells[1], 1);
    assert_eq!(cells[16], 2);
    assert_eq!(cells[17], 3);
    // byte 9 serves columns 2..3 and rows 2..3
    assert_eq!(cells[2 * 16 + 2], 3);
    assert_eq!(cells[2 * 16 + 3], 2);
    assert_eq!(cells[3 * 16 + 2], 1);
    assert_eq!(cells[3 * 16 + 3], 0);
    // byte 63 serves row 14 only: row 15 is cut off
    assert_eq!(cells[14 * 16 + 14], 3);
    assert_eq!(cells[14 * 16 + 15], 3);
    assert_eq!(cells[2], 0);
}

#[test]
fn attribute_table_follows_the_nametable_base() {
    let mut ppu = Ppu::new(Ram::new());
    ppu.write(0x0, 0x01);
    ppu.write(0x6, 0x27);
    ppu.write(0x6, 0xC0);
    ppu.write(0x7, 0b0000_0110);
    let cells = attribute_table(&mut ppu);
    assert_eq!(cells.len(), 240);
    assert_eq!(cells[0], 2);
    assert_eq!(cells[1], 1);
    assert_eq!(cells[16], 0);
    assert_eq!(ppu.vram_addr(), 0x27C1);
}

#[test]
fn background_chars_add_the_pattern_table_address() {
    let mut ppu = Ppu::new(Ram::new());
    ppu.write(0x0, 0x10);
    ppu.write(0x6, 0x20);
    ppu.write(0x6, 0x00);
    ppu.write(0x7, 0x05);
    ppu.write(0x7, 0xff);
    let chars = background_chars(&mut ppu);
    assert_eq!(chars.len(), 960);
    assert_eq!(chars[0], 0x1005);
    assert_eq!(chars[1], 0x10ff);
    assert_eq!(chars[2], 0x1000);
    assert_eq!(chars[959], 0x1000);
}

#[test]
fn background_palettes_read_sixteen_bytes() {
    let mut ppu = Ppu::new(Ram::new());
    ppu.write(0x0, 0x00);
    ppu.write(0x6, 0x3f);
    ppu.write(0x6, 0x00);
    for i in 0..32u8 {
        ppu.write(0x7, i + 1);
    }
    let palettes = background_palettes(&mut ppu);
    // the sprite palettes' first entries mirror those of the background
    assert_eq!(palettes, vec![17, 2, 3, 4, 21, 6, 7, 8, 25, 10, 11, 12, 29, 14, 15, 16]);
    assert_eq!(ppu.vram_read(0x3f10), 17);
    assert_eq!(ppu.vram_read(0x3f11), 18);
    assert!(ppu.take_misses().is_empty());
}
