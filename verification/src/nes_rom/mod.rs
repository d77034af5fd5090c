//! The container format of a cartridge image.

use vstd::prelude::*;
use vstd::slice::{slice_subrange, slice_to_vec};
use self::mappers::Mapper;

pub mod mappers;

verus! {

/// A cartridge image: its decoded header and all of its bytes.
pub enum RomFile {
    Ines(Ines, Vec<u8>),
    Ines2(Ines2, Vec<u8>),
}

/// The header of the second version of the format, which is not decoded.
pub struct Ines2 {}

/// The decoded header of an image.
pub struct Ines {
    pub num_prgrom: u8,
    pub num_chrrom: u8,
    pub mirroring: bool,
    pub persistent_memory: bool,
    pub has_trainer: bool,
    pub four_screen_vram: u8,
    pub mapper_lsb: u8,
    pub vs: bool,
    pub playchoice: bool,
    pub mapper_msb: u8,
    pub prgram_size: u8,
    pub tv_system: bool,
    pub tv_system2: u8,
    pub has_prg_ram: bool,
    pub has_bus_conflict: bool,
    pub padding: Vec<u8>,
    pub mapper: Mapper,
}

/// The container formats that are told apart.
#[derive(Debug, PartialEq, Eq, Clone, Copy, Structural)]
#[allow(non_camel_case_types)]
pub enum SupportedFormat {
    ines,
    unsupported,
}

/// Whether `header` starts with the four bytes that mark an image: the
/// letters N, E, S and the end-of-file byte 0x1A.
pub open spec fn has_signature(header: Seq<u8>) -> bool {
    header.len() >= 4 && header[0] == 0x4E && header[1] == 0x45 && header[2] == 0x53 && header[3]
        == 0x1A
}

/// The number of the mapper that the header bytes 6 and 7 name: the high
/// nibble comes from the high nibble of byte 7, the low nibble from the
/// low four bits of byte 6.
pub open spec fn mapper_number(flags6: u8, flags7: u8) -> u8 {
    (((flags7 & 0xF0) >> 4) << 4) | (flags6 & 0x0F)
}

/// Whether `ines` is what the sixteen header bytes at the start of `rom`
/// say.
pub open spec fn header_decoded(ines: Ines, rom: Seq<u8>) -> bool {
    &&& ines.num_prgrom == rom[4]
    &&& ines.num_chrrom == rom[5]
    &&& ines.mirroring == (rom[6] & 0x1 == 0x1)
    &&& ines.persistent_memory == (rom[6] & 0x2 == 0x2)
    &&& ines.has_trainer == (rom[6] & 0x4 == 0x4)
    &&& ines.four_screen_vram == rom[6] & 0x8
    &&& ines.mapper_lsb == rom[6] & 0x0F
    &&& ines.vs == (rom[7] & 0x1 == 0x1)
    &&& ines.playchoice == (rom[7] & 0x2 == 0x2)
    &&& ines.mapper_msb == (rom[7] & 0xF0) >> 4
    &&& ines.prgram_size == if rom[8] == 0 {
        1u8
    } else {
        rom[8]
    }
    &&& ines.tv_system == (rom[9] & 0x1 == 0x1)
    &&& ines.tv_system2 == rom[10] & 0x3
    &&& ines.has_prg_ram == (rom[10] & 0b10000 == 0b10000)
    &&& ines.has_bus_conflict == (rom[10] & 0b100000 == 0b100000)
    &&& ines.padding@ == rom.subrange(11, 16)
    &&& ines.mapper == Mapper::of_number(mapper_number(rom[6], rom[7]))
}

impl RomFile {
    /// Decodes the header of an image and keeps its bytes.
    ///
    /// The image must carry the signature and a full header of sixteen
    /// bytes; `get_file_format` tells.
    pub fn new(rom: &[u8]) -> (file: Self)
        requires
            rom@.len() >= 16,
            has_signature(rom@),
        ensures
            match file {
                RomFile::Ines(ines, data) => data@ == rom@ && header_decoded(ines, rom@),
                RomFile::Ines2(_, _) => false,
            },
    {
        let num_prgrom = rom[4];
        let num_chrrom = rom[5];
        let flags6 = rom[6];
        let flags7 = rom[7];
        let flags9 = rom[9];
        let flags10 = rom[10];
        let mapper_lsb = flags6 & 0x0F;
        let mapper_msb = (flags7 & 0xF0) >> 4;
        let mapper = (mapper_msb << 4) | mapper_lsb;
        let ines = Ines {
            num_prgrom,
            num_chrrom,
            mirroring: flags6 & 0x1 == 0x1,
            persistent_memory: flags6 & 0x2 == 0x2,
            has_trainer: flags6 & 0x4 == 0x4,
            four_screen_vram: flags6 & 0x8,
            mapper_lsb,
            vs: flags7 & 0x1 == 0x1,
            playchoice: flags7 & 0x2 == 0x2,
            mapper_msb,
            prgram_size: if rom[8] == 0 {
                1
            } else {
                rom[8]
            },
            tv_system: flags9 & 0x1 == 0x1,
            tv_system2: flags10 & 0x3,
            has_prg_ram: flags10 & 0b10000 == 0b10000,
            has_bus_conflict: flags10 & 0b100000 == 0b100000,
            padding: slice_to_vec(slice_subrange(rom, 11, 16)),
            mapper: Mapper::from_number(mapper),
        };
        RomFile::Ines(ines, slice_to_vec(rom))
    }

    /// Tells the format of an image by its first four bytes.
    pub fn get_file_format(header: &[u8]) -> (format: SupportedFormat)
        ensures
            format == if has_signature(header@) {
                SupportedFormat::ines
            } else {
                SupportedFormat::unsupported
            },
    {
        if header.len() >= 4 && header[0] == 0x4E && header[1] == 0x45 && header[2] == 0x53
            && header[3] == 0x1A {
            SupportedFormat::ines
        } else {
            SupportedFormat::unsupported
        }
    }
}

} // verus!
