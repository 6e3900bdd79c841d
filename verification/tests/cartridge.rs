use nes_core::ines::{INes, INesError};

fn image(program_banks: u8, character_banks: u8, flags_6: u8, body: usize) -> Vec<u8> {
    let mut bytes = vec![0x4E, 0x45, 0x53, 0x1A, program_banks, character_banks, flags_6];
    bytes.resize(16, 0);
    for i in 0..body {
        bytes.push((i % 251) as u8);
    }
    bytes
}

#[test]
fn parses_program_and_character_data() {
    let bytes = image(1, 1, 0, 0x4000 + 0x2000);
    let rom = INes::parse(&bytes).unwrap();
    assert_eq!(rom.program.len(), 0x4000);
    assert_eq!(rom.program[..], bytes[16..16 + 0x4000]);
    let chr = rom.chr_rom.unwrap();
    assert_eq!(chr.len(), 0x2000);
    assert_eq!(chr[..], bytes[16 + 0x4000..16 + 0x6000]);
}

#[test]
fn character_data_may_be_empty() {
    let bytes = image(2, 0, 0, 0x8000);
    let rom = INes::parse(&bytes).unwrap();
    assert_eq!(rom.program.len(), 0x8000);
    assert_eq!(rom.chr_rom, Some(vec![]));
}

#[test]
fn image_without_program_has_no_character_data() {
    let bytes = image(0, 1, 0, 0);
    let rom = INes::parse(&bytes).unwrap();
    assert!(rom.program.is_empty());
    assert_eq!(rom.chr_rom, None);
}

#[test]
fn trainer_flag_moves_data_by_2048_bytes() {
    let bytes = image(1, 0, 0x04, 2048 + 0x4000);
    let rom = INes::parse(&bytes).unwrap();
    assert_eq!(rom.program[..], bytes[16 + 2048..16 + 2048 + 0x4000]);
    let bytes = image(1, 0, 0xFB, 0x4000);
    let rom = INes::parse(&bytes).unwrap();
    assert_eq!(rom.program[..], bytes[16..16 + 0x4000]);
}

#[test]
fn wrong_magic_is_refused() {
    let mut bytes = image(1, 1, 0, 0x6000);
    bytes[0] = 0x4D;
    assert_eq!(INes::parse(&bytes).unwrap_err(), INesError::BadMagic);
    assert_eq!(INes::parse(&[0x4E, 0x45, 0x00]).unwrap_err(), INesError::BadMagic);
    assert_eq!(INes::parse(&[0, 0, 0, 0, 0, 0, 0, 0]).unwrap_err(), INesError::BadMagic);
}

#[test]
fn truncated_image_is_refused() {
    assert_eq!(INes::parse(&[]).unwrap_err(), INesError::Truncated);
    assert_eq!(INes::parse(&[0x4E, 0x45]).unwrap_err(), INesError::Truncated);
    assert_eq!(INes::parse(&[0x4E, 0x45, 0x53, 0x1A]).unwrap_err(), INesError::Truncated);
    assert_eq!(
        INes::parse(&[0x4E, 0x45, 0x53, 0x1A, 0, 0, 0]).unwrap_err(),
        INesError::Truncated
    );
    let bytes = image(1, 1, 0, 0x4000 + 0x2000 - 1);
    assert_eq!(INes::parse(&bytes).unwrap_err(), INesError::Truncated);
    let bytes = image(1, 0, 0, 0x4000 - 1);
    assert_eq!(INes::parse(&bytes).unwrap_err(), INesError::Truncated);
    let bytes = image(1, 0, 0x04, 0x4000);
    assert_eq!(INes::parse(&bytes).unwrap_err(), INesError::Truncated);
}

#[test]
fn header_alone_is_an_image_without_data() {
    let bytes = image(0, 0, 0, 0);
    let rom = INes::parse(&bytes).unwrap();
    assert!(rom.program.is_empty());
    assert_eq!(rom.chr_rom, None);
}
