//! Mappers: how the banks of a cartridge reach the address spaces.

use vstd::prelude::*;
use vstd::std_specs::convert::FromSpecImpl;
use super::RomFile;
use crate::cpu;
use crate::ppu;

verus! {

/// The mappers that are told apart: the plain one without bank switching,
/// and all others.
#[derive(Debug, PartialEq, Eq, Clone, Copy, Structural)]
pub enum Mapper {
    Nrom,
    Unknown,
}

impl Mapper {
    /// The mapper with the number `number`: number 0 is the plain one.
    pub open spec fn of_number(number: u8) -> Mapper {
        if number == 0 {
            Mapper::Nrom
        } else {
            Mapper::Unknown
        }
    }

    /// The mapper with the number `number`.
    pub fn from_number(number: u8) -> (mapper: Mapper)
        ensures
            mapper == Mapper::of_number(number),
    {
        match number {
            0 => Mapper::Nrom,
            _ => Mapper::Unknown,
        }
    }
}

impl From<u8> for Mapper {
    fn from(from: u8) -> (mapper: Self) {
        Mapper::from_number(from)
    }
}

impl FromSpecImpl<u8> for Mapper {
    open spec fn obeys_from_spec() -> bool {
        true
    }

    open spec fn from_spec(from: u8) -> Self {
        Mapper::of_number(from)
    }
}

/// The size of one bank of program memory.
pub const PRG_BANK_SIZE: usize = 16384;

/// The size of one bank of character memory.
pub const CHR_BANK_SIZE: usize = 8192;

/// Where the first bank of program memory starts in the image.
pub open spec fn first_bank_offset() -> int {
    16
}

/// Where the last bank of program memory starts in an image with `banks`
/// banks.
pub open spec fn last_bank_offset(banks: u8) -> int {
    16 + 16384 * (banks as int - 1)
}

/// Where the bytes that are copied to the picture processing unit start in
/// an image with `banks` banks of program memory: one byte into the
/// character memory.
pub open spec fn pattern_offset(banks: u8) -> int {
    16 + 16384 * banks as int + 1
}

/// Whether an image can be loaded: it has the first header format and the
/// plain mapper, at least one bank of program memory, exactly one bank of
/// character memory, and holds all the bytes that its header announces.
pub open spec fn loadable(nesfile: &RomFile) -> bool {
    match nesfile {
        RomFile::Ines(header, data) => {
            &&& header.mapper == Mapper::Nrom
            &&& header.num_prgrom >= 1
            &&& header.num_chrrom == 1
            &&& data@.len() >= 16 + 16384 * header.num_prgrom as int + 8192
        },
        RomFile::Ines2(_, _) => false,
    }
}

/// Tests whether an image can be loaded.
pub fn can_load(nesfile: &RomFile) -> (ok: bool)
    ensures
        ok == loadable(nesfile),
{
    match nesfile {
        RomFile::Ines(header, data) => {
            let is_plain = match header.mapper {
                Mapper::Nrom => true,
                Mapper::Unknown => false,
            };
            is_plain && header.num_prgrom >= 1 && header.num_chrrom == 1 && data.len() >= 16
                + PRG_BANK_SIZE * header.num_prgrom as usize + CHR_BANK_SIZE
        },
        RomFile::Ines2(_, _) => false,
    }
}

/// The contents `dest` with `len` bytes replaced, from `at` on, by the
/// bytes of `src` from `from` on.
pub open spec fn overlaid(dest: Seq<u8>, at: int, src: Seq<u8>, from: int, len: int) -> Seq<u8> {
    Seq::new(
        dest.len(),
        |i: int|
            if at <= i < at + len {
                src[from + (i - at)]
            } else {
                dest[i]
            },
    )
}

/// Copies `len` bytes of `src`, from `from` on, over the bytes of `dest`
/// from `at` on.
pub fn copy_bytes(dest: &mut Vec<u8>, at: usize, src: &Vec<u8>, from: usize, len: usize)
    requires
        at + len <= old(dest)@.len(),
        from + len <= src@.len(),
    ensures
        final(dest)@ == overlaid(old(dest)@, at as int, src@, from as int, len as int),
{
    let dest_len = dest.len();
    let src_len = src.len();
    let mut done: usize = 0;
    while done < len
        invariant
            done <= len,
            dest_len == dest@.len(),
            src_len == src@.len(),
            at + len <= dest_len,
            from + len <= src_len,
            dest@ == overlaid(old(dest)@, at as int, src@, from as int, done as int),
        decreases len - done,
    {
        dest.set(at + done, src[from + done]);
        done = done + 1;
        assert(dest@ =~= overlaid(old(dest)@, at as int, src@, from as int, done as int));
    }
    assert(dest@ =~= overlaid(old(dest)@, at as int, src@, from as int, len as int));
}

/// Copies the banks of a cartridge into the memories of the machine.
///
/// With the plain mapper the first bank of program memory appears at
/// 0x8000 and the last one at 0xC000; the first 0x1FFF bytes of the picture
/// processing unit's memory are filled from the character memory. Nothing
/// else changes.
pub fn load_rom(memory: &mut cpu::Memory, ppu_memory: &mut ppu::Memory, nesfile: &RomFile)
    requires
        old(memory).wf(),
        old(ppu_memory).wf(),
        loadable(nesfile),
    ensures
        final(memory).wf(),
        final(ppu_memory).wf(),
        final(memory).stack_pointer == old(memory).stack_pointer,
        final(memory).ppu@ == old(memory).ppu@,
        final(ppu_memory).oam@ == old(ppu_memory).oam@,
        match nesfile {
            RomFile::Ines(header, data) => {
                &&& final(memory).memory@ == overlaid(
                    overlaid(old(memory).memory@, 0x8000, data@, first_bank_offset(), 16384),
                    0xC000,
                    data@,
                    last_bank_offset(header.num_prgrom),
                    16384,
                )
                &&& final(ppu_memory).memory@ == overlaid(
                    old(ppu_memory).memory@,
                    0,
                    data@,
                    pattern_offset(header.num_prgrom),
                    0x1FFF,
                )
            },
            RomFile::Ines2(_, _) => false,
        },
{
    match nesfile {
        RomFile::Ines(header, data) => {
            let banks: usize = header.num_prgrom as usize;
            copy_bytes(&mut memory.memory, 0x8000, data, 16, PRG_BANK_SIZE);
            copy_bytes(
                &mut memory.memory,
                0xC000,
                data,
                16 + PRG_BANK_SIZE * (banks - 1),
                PRG_BANK_SIZE,
            );
            copy_bytes(&mut ppu_memory.memory, 0, data, 16 + PRG_BANK_SIZE * banks + 1, 0x1FFF);
        },
        RomFile::Ines2(_, _) => {},
    }
}

} // verus!
