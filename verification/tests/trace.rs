use nessy::nessy::Nessy;
use nessy::text::{align_left, align_right, decimal_text, hex_byte_text, hex_word_text, mnemonic_text, spaces_text};
use nessy::cpu::instructions::InstructionName;

fn machine(at: u16, program: &[u8]) -> Nessy {
    let mut nessy = Nessy::new();
    for (offset, byte) in program.iter().enumerate() {
        nessy.memory.memory[at as usize + offset] = *byte;
    }
    nessy.registers.pc = at;
    nessy.registers.status = 0x24;
    nessy.memory.stack_pointer = 0xFD;
    nessy
}

#[test]
fn numbers_as_text() {
    assert_eq!(hex_byte_text(0x00), "00");
    assert_eq!(hex_byte_text(0x0A), "0A");
    assert_eq!(hex_byte_text(0xAB), "AB");
    assert_eq!(hex_byte_text(0xFF), "FF");
    assert_eq!(hex_word_text(0x0000), "0000");
    assert_eq!(hex_word_text(0xC5F5), "C5F5");
    assert_eq!(hex_word_text(0x00FF), "00FF");
    assert_eq!(decimal_text(0), "0");
    assert_eq!(decimal_text(7), "7");
    assert_eq!(decimal_text(10), "10");
    assert_eq!(decimal_text(26554), "26554");
}

#[test]
fn alignment() {
    assert_eq!(spaces_text(0), "");
    assert_eq!(spaces_text(3), "   ");
    assert_eq!(align_right(String::from("7"), 3), "  7");
    assert_eq!(align_right(String::from("341"), 3), "341");
    assert_eq!(align_right(String::from("1234"), 3), "1234");
    assert_eq!(align_left(String::from("A"), 4), "A   ");
    assert_eq!(align_left(String::from("ABCD"), 4), "ABCD");
    assert_eq!(align_left(String::from("ABCDE"), 4), "ABCDE");
}

#[test]
fn mnemonics() {
    assert_eq!(mnemonic_text(InstructionName::LDA), "LDA");
    assert_eq!(mnemonic_text(InstructionName::ISB), "ISB");
    assert_eq!(mnemonic_text(InstructionName::BRK), "BRK");
    assert_eq!(mnemonic_text(InstructionName::RRA), "RRA");
}

#[test]
fn trace_of_the_first_instructions_of_the_test_image() {
    let mut nessy = machine(0xC000, &[0x4C, 0xF5, 0xC5]);
    let start = [0xA2u8, 0x00, 0x86, 0x00, 0x86, 0x10, 0x86, 0x11, 0x20, 0x2D, 0xC7];
    for (offset, byte) in start.iter().enumerate() {
        nessy.memory.memory[0xC5F5 + offset] = *byte;
    }
    let routine = [0xEAu8, 0x38, 0xB0, 0x04, 0x00, 0x00, 0x00, 0x00, 0xEA];
    for (offset, byte) in routine.iter().enumerate() {
        nessy.memory.memory[0xC72D + offset] = *byte;
    }
    let expected = [
        "C000  4C F5 C5  JMP $C5F5                       A:00 X:00 Y:00 P:24 SP:FD PPU:  0, 21 CYC:7",
        "C5F5  A2 00     LDX #$00                        A:00 X:00 Y:00 P:24 SP:FD PPU:  0, 30 CYC:10",
        "C5F7  86 00     STX $00 = 00                    A:00 X:00 Y:00 P:26 SP:FD PPU:  0, 36 CYC:12",
        "C5F9  86 10     STX $10 = 00                    A:00 X:00 Y:00 P:26 SP:FD PPU:  0, 45 CYC:15",
        "C5FB  86 11     STX $11 = 00                    A:00 X:00 Y:00 P:26 SP:FD PPU:  0, 54 CYC:18",
        "C5FD  20 2D C7  JSR $C72D                       A:00 X:00 Y:00 P:26 SP:FD PPU:  0, 63 CYC:21",
        "C72D  EA        NOP                             A:00 X:00 Y:00 P:26 SP:FB PPU:  0, 81 CYC:27",
        "C72E  38        SEC                             A:00 X:00 Y:00 P:26 SP:FB PPU:  0, 87 CYC:29",
        "C72F  B0 04     BCS $C735                       A:00 X:00 Y:00 P:27 SP:FB PPU:  0, 93 CYC:31",
        "C735  EA        NOP                             A:00 X:00 Y:00 P:27 SP:FB PPU:  0,102 CYC:34",
    ];
    for line in expected {
        assert_eq!(nessy.get_nestest_output(), line);
        assert_eq!(nessy.execute(), Ok(()));
    }
    assert_eq!(nessy.registers.pc, 0xC736);
    assert_eq!(nessy.cycle, 36);
}

#[test]
fn trace_of_indexed_indirect() {
    let mut nessy = machine(0xD003, &[0xA1, 0x80]);
    nessy.memory.memory[0x0080] = 0x00;
    nessy.memory.memory[0x0081] = 0x02;
    nessy.memory.memory[0x0200] = 0x5A;
    nessy.registers.a = 0x5B;
    nessy.registers.y = 0x69;
    nessy.registers.status = 0x27;
    nessy.memory.stack_pointer = 0xFB;
    nessy.frames = 77;
    nessy.ppu_cycle = 254;
    nessy.cycle = 8737;
    assert_eq!(
        nessy.get_nestest_output(),
        "D003  A1 80     LDA ($80,X) @ 80 = 0200 = 5A    A:5B X:00 Y:69 P:27 SP:FB PPU: 77,254 CYC:8737"
    );
}

#[test]
fn trace_of_indirect_indexed() {
    let mut nessy = machine(0xD940, &[0xB1, 0x89]);
    nessy.memory.memory[0x0089] = 0x00;
    nessy.memory.memory[0x008A] = 0x03;
    nessy.memory.memory[0x0300] = 0x89;
    nessy.registers.y = 0x00;
    assert_eq!(
        nessy.get_nestest_output(),
        "D940  B1 89     LDA ($89),Y = 0300 @ 0300 = 89  A:00 X:00 Y:00 P:24 SP:FD PPU:  0, 21 CYC:7"
    );
}

#[test]
fn trace_of_indexed_modes() {
    let mut nessy = machine(0x8000, &[0xBD, 0xFF, 0x20]);
    nessy.registers.x = 0x01;
    nessy.memory.memory[0x2000] = 0x44;
    assert_eq!(
        nessy.get_nestest_output(),
        "8000  BD FF 20  LDA $20FF,X @ 2100 = 44         A:00 X:01 Y:00 P:24 SP:FD PPU:  0, 21 CYC:7"
    );
    let mut nessy = machine(0x8000, &[0xB9, 0x00, 0x03]);
    nessy.registers.y = 0x10;
    nessy.memory.memory[0x0310] = 0x12;
    assert_eq!(
        nessy.get_nestest_output(),
        "8000  B9 00 03  LDA $0300,Y @ 0310 = 12         A:00 X:00 Y:10 P:24 SP:FD PPU:  0, 21 CYC:7"
    );
    let mut nessy = machine(0x8000, &[0xB5, 0xFF]);
    nessy.registers.x = 0x02;
    nessy.memory.memory[0x0001] = 0x34;
    assert_eq!(
        nessy.get_nestest_output(),
        "8000  B5 FF     LDA $FF,X @ 01 = 34             A:00 X:02 Y:00 P:24 SP:FD PPU:  0, 21 CYC:7"
    );
    let mut nessy = machine(0x8000, &[0xB6, 0x10]);
    nessy.registers.y = 0x02;
    nessy.memory.memory[0x0012] = 0x56;
    assert_eq!(
        nessy.get_nestest_output(),
        "8000  B6 10     LDX $10,Y @ 12 = 56             A:00 X:00 Y:02 P:24 SP:FD PPU:  0, 21 CYC:7"
    );
}

#[test]
fn trace_of_other_modes() {
    let mut nessy = machine(0x8000, &[0x6C, 0x00, 0x02]);
    nessy.memory.memory[0x0200] = 0x7E;
    nessy.memory.memory[0x0201] = 0xDB;
    assert_eq!(
        nessy.get_nestest_output(),
        "8000  6C 00 02  JMP ($0200) = DB7E              A:00 X:00 Y:00 P:24 SP:FD PPU:  0, 21 CYC:7"
    );
    let mut nessy = machine(0x8000, &[0x4A]);
    assert_eq!(
        nessy.get_nestest_output(),
        "8000  4A        LSR A                           A:00 X:00 Y:00 P:24 SP:FD PPU:  0, 21 CYC:7"
    );
    let mut nessy = machine(0x8000, &[0xAD, 0x78, 0x06]);
    nessy.memory.memory[0x0678] = 0x55;
    assert_eq!(
        nessy.get_nestest_output(),
        "8000  AD 78 06  LDA $0678 = 55                  A:00 X:00 Y:00 P:24 SP:FD PPU:  0, 21 CYC:7"
    );
    let mut nessy = machine(0x8000, &[0xD0, 0xFC]);
    assert_eq!(
        nessy.get_nestest_output(),
        "8000  D0 FC     BNE $7FFE                       A:00 X:00 Y:00 P:24 SP:FD PPU:  0, 21 CYC:7"
    );
    nessy.memory.stack_pointer = 0x01FD;
    assert_eq!(
        nessy.get_nestest_output(),
        "8000  D0 FC     BNE $7FFE                       A:00 X:00 Y:00 P:24 SP:FD PPU:  0, 21 CYC:7"
    );
}

#[test]
fn trace_marks_undocumented_instructions() {
    let mut nessy = machine(0xC6BD, &[0x04, 0xA9]);
    assert_eq!(
        nessy.get_nestest_output(),
        "C6BD  04 A9    *NOP $A9 = 00                    A:00 X:00 Y:00 P:24 SP:FD PPU:  0, 21 CYC:7"
    );
    let mut nessy = machine(0x8000, &[0xEB, 0x40]);
    nessy.registers.a = 0x40;
    assert_eq!(
        nessy.get_nestest_output(),
        "8000  EB 40    *SBC #$40                        A:40 X:00 Y:00 P:24 SP:FD PPU:  0, 21 CYC:7"
    );
    let mut nessy = machine(0x8000, &[0x1A]);
    assert_eq!(
        nessy.get_nestest_output(),
        "8000  1A       *NOP                             A:00 X:00 Y:00 P:24 SP:FD PPU:  0, 21 CYC:7"
    );
}
