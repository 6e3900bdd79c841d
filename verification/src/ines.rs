//! Cartridge images: the program data and the character data of an image in
//! the iNES layout.

use vstd::prelude::*;
use vstd::slice::{slice_subrange, slice_to_vec};

verus! {

/// The size of one bank of program data.
pub const PROGRAM_BANK: usize = 0x4000;

/// The size of one bank of character data.
pub const CHARACTER_BANK: usize = 0x2000;

/// The parts of a cartridge image that the console loads.
#[derive(Debug)]
pub struct INes {
    /// The program data.
    pub program: Vec<u8>,
    /// The character data, absent where the image has no program data.
    pub chr_rom: Option<Vec<u8>>,
}

/// Why an image is refused.
#[derive(Clone, Copy, Debug, PartialEq, Eq)]
pub enum INesError {
    /// The image does not start with the bytes `NES`.
    BadMagic,
    /// The image ends before its header or before the data that its header
    /// announces.
    Truncated,
}

/// Whether the image starts with the bytes `NES`.
pub open spec fn has_magic(bytes: Seq<u8>) -> bool {
    bytes.len() >= 3 && bytes[0] == 0x4E && bytes[1] == 0x45 && bytes[2] == 0x53
}

/// Where the program data starts: after the 16 bytes of the header, and
/// 2048 bytes further where bit 2 of the flags in byte 6 is set.
pub open spec fn program_offset(bytes: Seq<u8>) -> int {
    if (bytes[6] / 4) % 2 == 1 {
        16int + 2048
    } else {
        16int
    }
}

/// The size of the program data: byte 4 counts its banks.
pub open spec fn program_size(bytes: Seq<u8>) -> int {
    PROGRAM_BANK * bytes[4]
}

/// The size of the character data: byte 5 counts its banks.
pub open spec fn character_size(bytes: Seq<u8>) -> int {
    CHARACTER_BANK * bytes[5]
}

/// Where the character data starts: right after the program data.
pub open spec fn character_offset(bytes: Seq<u8>) -> int {
    program_offset(bytes) + program_size(bytes)
}

/// Whether the image holds all that its header announces: the header
/// itself, the program data and, where there is program data, the character
/// data.
pub open spec fn is_complete(bytes: Seq<u8>) -> bool {
    &&& bytes.len() >= 7
    &&& character_offset(bytes) <= bytes.len()
    &&& program_size(bytes) != 0 ==> character_offset(bytes) + character_size(bytes) <= bytes.len()
}

impl INes {
    /// Takes a cartridge image apart. An image that does not start with
    /// `NES` or that is shorter than its header announces is refused.
    pub fn parse(bytes: &[u8]) -> (res: Result<INes, INesError>)
        ensures
            match res {
                Ok(rom) => {
                    &&& has_magic(bytes@)
                    &&& is_complete(bytes@)
                    &&& rom.program@ == bytes@.subrange(
                        program_offset(bytes@),
                        character_offset(bytes@),
                    )
                    &&& match rom.chr_rom {
                        Some(chr) => program_size(bytes@) != 0 && chr@ == bytes@.subrange(
                            character_offset(bytes@),
                            character_offset(bytes@) + character_size(bytes@),
                        ),
                        None => program_size(bytes@) == 0,
                    }
                },
                Err(INesError::BadMagic) => bytes@.len() >= 3 && !has_magic(bytes@),
                Err(INesError::Truncated) => bytes@.len() < 3 || (has_magic(bytes@) && !is_complete(
                    bytes@,
                )),
            },
    {
        if bytes.len() < 3 {
            return Err(INesError::Truncated);
        }
        if bytes[0] != 0x4E || bytes[1] != 0x45 || bytes[2] != 0x53 {
            return Err(INesError::BadMagic);
        }
        if bytes.len() < 7 {
            return Err(INesError::Truncated);
        }
        let flags_6 = bytes[6];
        proof {
            assert((flags_6 & 0x04 != 0) == ((flags_6 / 4) % 2 == 1)) by (bit_vector);
        }
        let program_size: usize = PROGRAM_BANK * (bytes[4] as usize);
        let program_rom_offset: usize = if flags_6 & 0x04 != 0 {
            16 + 2048
        } else {
            16
        };
        let chr_rom_size: usize = CHARACTER_BANK * (bytes[5] as usize);
        let chr_rom_offset: usize = program_rom_offset + program_size;
        if chr_rom_offset > bytes.len() {
            return Err(INesError::Truncated);
        }
        if program_size != 0 && chr_rom_size > bytes.len() - chr_rom_offset {
            return Err(INesError::Truncated);
        }
        let program = slice_to_vec(slice_subrange(bytes, program_rom_offset, chr_rom_offset));
        let chr_rom = if program_size != 0 {
            Some(slice_to_vec(slice_subrange(bytes, chr_rom_offset, chr_rom_offset + chr_rom_size)))
        } else {
            None
        };
        Ok(INes { program, chr_rom })
    }
}

} // verus!
