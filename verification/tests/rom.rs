use nessy::nes_rom::mappers::{can_load, copy_bytes, load_rom, Mapper};
use nessy::nes_rom::{RomFile, SupportedFormat};
use nessy::nessy::Nessy;
use nessy::cpu;
use nessy::ppu;

fn image(banks: u8, flags6: u8) -> Vec<u8> {
    let mut rom = vec![0x4E, 0x45, 0x53, 0x1A, banks, 1, flags6, 0, 0, 0, 0, 1, 2, 3, 4, 5];
    for bank in 0..banks as usize {
        for offset in 0..16384usize {
            rom.push(((bank * 7 + offset) % 251) as u8);
        }
    }
    for offset in 0..8192usize {
        rom.push((offset % 241) as u8);
    }
    rom
}

#[test]
fn format_is_told_by_the_signature() {
    assert_eq!(RomFile::get_file_format(&image(1, 0)), SupportedFormat::ines);
    assert_eq!(RomFile::get_file_format(&[0x4E, 0x45, 0x53, 0x1A]), SupportedFormat::ines);
    assert_eq!(RomFile::get_file_format(&[0x4E, 0x45, 0x53, 0x00]), SupportedFormat::unsupported);
    assert_eq!(RomFile::get_file_format(&[0x4E, 0x45, 0x53]), SupportedFormat::unsupported);
    assert_eq!(RomFile::get_file_format(&[]), SupportedFormat::unsupported);
}

#[test]
fn header_is_decoded() {
    let mut rom = image(2, 0x00);
    rom[6] = 0x03;
    rom[7] = 0x12;
    rom[8] = 0;
    rom[9] = 1;
    rom[10] = 0x32;
    match RomFile::new(&rom) {
        RomFile::Ines(header, data) => {
            assert_eq!(data, rom);
            assert_eq!(header.num_prgrom, 2);
            assert_eq!(header.num_chrrom, 1);
            assert!(header.mirroring);
            assert!(header.persistent_memory);
            assert!(!header.has_trainer);
            assert_eq!(header.four_screen_vram, 0);
            assert_eq!(header.mapper_lsb, 0x03);
            assert!(!header.vs);
            assert!(header.playchoice);
            assert_eq!(header.mapper_msb, 0x01);
            assert_eq!(header.prgram_size, 1);
            assert!(header.tv_system);
            assert_eq!(header.tv_system2, 2);
            assert!(header.has_prg_ram);
            assert!(header.has_bus_conflict);
            assert_eq!(header.padding, vec![1, 2, 3, 4, 5]);
            assert_eq!(header.mapper, Mapper::Unknown);
        }
        RomFile::Ines2(_, _) => panic!("the first header format was expected"),
    }
}

#[test]
fn mapper_numbers() {
    assert_eq!(Mapper::from(0u8), Mapper::Nrom);
    assert_eq!(Mapper::from(1u8), Mapper::Unknown);
    assert_eq!(Mapper::from_number(0), Mapper::Nrom);
    assert_eq!(Mapper::from_number(255), Mapper::Unknown);
}

#[test]
fn what_can_be_loaded() {
    assert!(can_load(&RomFile::new(&image(1, 0))));
    assert!(can_load(&RomFile::new(&image(2, 0))));
    assert!(!can_load(&RomFile::new(&image(1, 1))));
    let mut short = image(1, 0);
    short.pop();
    assert!(!can_load(&RomFile::new(&short)));
    let mut no_banks = image(1, 0);
    no_banks[4] = 0;
    assert!(!can_load(&RomFile::new(&no_banks)));
    let mut two_patterns = image(1, 0);
    two_patterns[5] = 2;
    assert!(!can_load(&RomFile::new(&two_patterns)));
}

#[test]
fn bytes_are_copied_in_place() {
    let mut dest = vec![0u8; 8];
    let src = vec![1u8, 2, 3, 4, 5];
    copy_bytes(&mut dest, 2, &src, 1, 3);
    assert_eq!(dest, vec![0, 0, 2, 3, 4, 0, 0, 0]);
    copy_bytes(&mut dest, 0, &src, 0, 0);
    assert_eq!(dest, vec![0, 0, 2, 3, 4, 0, 0, 0]);
}

#[test]
fn one_bank_appears_twice() {
    let rom = image(1, 0);
    let file = RomFile::new(&rom);
    let mut memory = cpu::Memory::new();
    let mut ppu_memory = ppu::Memory::new();
    memory.memory[0x7FFF] = 0xEE;
    ppu_memory.memory[0x1FFF] = 0xDD;
    load_rom(&mut memory, &mut ppu_memory, &file);
    assert_eq!(memory.memory[0x7FFF], 0xEE);
    assert_eq!(&memory.memory[0x8000..0xC000], &rom[16..16 + 16384]);
    assert_eq!(&memory.memory[0xC000..], &rom[16..16 + 16384]);
    assert_eq!(&ppu_memory.memory[0..0x1FFF], &rom[16 + 16384 + 1..16 + 16384 + 8192]);
    assert_eq!(ppu_memory.memory[0x1FFF], 0xDD);
    assert_eq!(memory.stack_pointer, 0x01FF);
}

#[test]
fn first_and_last_of_two_banks() {
    let rom = image(2, 0);
    let file = RomFile::new(&rom);
    let mut memory = cpu::Memory::new();
    let mut ppu_memory = ppu::Memory::new();
    load_rom(&mut memory, &mut ppu_memory, &file);
    assert_eq!(&memory.memory[0x8000..0xC000], &rom[16..16 + 16384]);
    assert_eq!(&memory.memory[0xC000..], &rom[16 + 16384..16 + 2 * 16384]);
    assert_eq!(&ppu_memory.memory[0..0x1FFF], &rom[16 + 2 * 16384 + 1..16 + 2 * 16384 + 8192]);
}

#[test]
fn start_at_the_reset_vector() {
    let mut rom = image(1, 0);
    rom[16 + 0x3FFC] = 0x34;
    rom[16 + 0x3FFD] = 0x92;
    rom[16 + 0x1234] = 0xEA;
    let file = RomFile::new(&rom);
    let mut nessy = Nessy::new();
    nessy.load(&file);
    assert_eq!(nessy.reset_vector, 0x9234);
    assert_eq!(nessy.registers.pc, 0x9234);
    assert_eq!(nessy.registers.status, 0x34);
    assert_eq!(nessy.memory.stack_pointer, 0xFF);
    assert_eq!(nessy.get_opcode(), 0xEA);
    assert_eq!(nessy.execute(), Ok(()));
    assert_eq!(nessy.registers.pc, 0x9235);
}

#[test]
fn start_of_the_test_image() {
    let mut rom = image(1, 0);
    rom[16] = 0x4C;
    rom[17] = 0xF5;
    rom[18] = 0xC5;
    let file = RomFile::new(&rom);
    let mut nessy = Nessy::new();
    nessy.load_nestest(&file);
    assert_eq!(nessy.registers.pc, 0xC000);
    assert_eq!(nessy.registers.status, 0x24);
    assert_eq!(nessy.memory.stack_pointer, 0xFD);
    assert_eq!(
        nessy.get_nestest_output(),
        "C000  4C F5 C5  JMP $C5F5                       A:00 X:00 Y:00 P:24 SP:FD PPU:  0, 21 CYC:7"
    );
}
