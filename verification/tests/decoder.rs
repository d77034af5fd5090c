use nessy::cpu::instructions::{match_instruction, Instruction, InstructionName};
use nessy::cpu::utils::{get_cycles, lookup_cycles, num_operands_from_addressing};
use nessy::cpu::AddressingMode;

#[test]
fn every_byte_decodes_and_decoding_is_stable() {
    let mut official = 0;
    let mut unofficial = 0;
    let mut unknown = 0;
    for opcode in 0..=255u8 {
        let first = match_instruction(opcode);
        let second = match_instruction(opcode);
        assert_eq!(first, second);
        match first {
            Instruction::Official(_, _) => official += 1,
            Instruction::Unofficial(_, _) => unofficial += 1,
            Instruction::Unknown => unknown += 1,
        }
    }
    assert_eq!(official, 152);
    assert_eq!(unofficial, 76);
    assert_eq!(unknown, 28);
}

#[test]
fn documented_opcodes_decode() {
    assert_eq!(
        match_instruction(0xA9),
        Instruction::Official(InstructionName::LDA, AddressingMode::Immediate)
    );
    assert_eq!(
        match_instruction(0x6C),
        Instruction::Official(InstructionName::JMP, AddressingMode::AbsoluteIndirect)
    );
    assert_eq!(
        match_instruction(0x00),
        Instruction::Official(InstructionName::BRK, AddressingMode::Implied)
    );
    assert_eq!(
        match_instruction(0x91),
        Instruction::Official(InstructionName::STA, AddressingMode::ZeroPageIndirectIndexedWithY)
    );
    assert_eq!(
        match_instruction(0xB6),
        Instruction::Official(InstructionName::LDX, AddressingMode::ZeroPageIndexedWithY)
    );
    assert_eq!(
        match_instruction(0x0A),
        Instruction::Official(InstructionName::ASL, AddressingMode::Accumulator)
    );
    assert_eq!(
        match_instruction(0xF0),
        Instruction::Official(InstructionName::BEQ, AddressingMode::Relative)
    );
    assert_eq!(
        match_instruction(0x58),
        Instruction::Official(InstructionName::CLI, AddressingMode::Implied)
    );
    assert_eq!(
        match_instruction(0x78),
        Instruction::Official(InstructionName::SEI, AddressingMode::Implied)
    );
}

#[test]
fn undocumented_opcodes_decode() {
    assert_eq!(
        match_instruction(0xEB),
        Instruction::Unofficial(InstructionName::SBC, AddressingMode::Immediate)
    );
    assert_eq!(
        match_instruction(0x1A),
        Instruction::Unofficial(InstructionName::NOP, AddressingMode::Implied)
    );
    assert_eq!(
        match_instruction(0x80),
        Instruction::Unofficial(InstructionName::NOP, AddressingMode::Immediate)
    );
    assert_eq!(
        match_instruction(0x04),
        Instruction::Unofficial(InstructionName::NOP, AddressingMode::ZeroPage)
    );
    assert_eq!(
        match_instruction(0x14),
        Instruction::Unofficial(InstructionName::NOP, AddressingMode::ZeroPageIndexedWithX)
    );
    assert_eq!(
        match_instruction(0x0C),
        Instruction::Unofficial(InstructionName::NOP, AddressingMode::Absolute)
    );
    assert_eq!(
        match_instruction(0x1C),
        Instruction::Unofficial(InstructionName::NOP, AddressingMode::AbsoluteIndirectWithX)
    );
    assert_eq!(
        match_instruction(0xBF),
        Instruction::Unofficial(InstructionName::LAX, AddressingMode::AbsoluteIndirectWithY)
    );
    assert_eq!(
        match_instruction(0x97),
        Instruction::Unofficial(InstructionName::SAX, AddressingMode::ZeroPageIndexedWithY)
    );
    assert_eq!(
        match_instruction(0xC3),
        Instruction::Unofficial(InstructionName::DCP, AddressingMode::ZeroPageIndexedIndirect)
    );
    assert_eq!(
        match_instruction(0xFF),
        Instruction::Unofficial(InstructionName::ISB, AddressingMode::AbsoluteIndirectWithX)
    );
    assert_eq!(
        match_instruction(0x1B),
        Instruction::Unofficial(InstructionName::SLO, AddressingMode::AbsoluteIndirectWithY)
    );
    assert_eq!(
        match_instruction(0x33),
        Instruction::Unofficial(InstructionName::RLA, AddressingMode::ZeroPageIndirectIndexedWithY)
    );
    assert_eq!(
        match_instruction(0x47),
        Instruction::Unofficial(InstructionName::SRE, AddressingMode::ZeroPage)
    );
    assert_eq!(
        match_instruction(0x6F),
        Instruction::Unofficial(InstructionName::RRA, AddressingMode::Absolute)
    );
}

#[test]
fn unassigned_opcodes_are_reported() {
    for opcode in [0x02u8, 0x12, 0x22, 0x82, 0x9C, 0x9E, 0x0B, 0x93, 0xBB, 0xF2] {
        assert_eq!(match_instruction(opcode), Instruction::Unknown);
    }
}

#[test]
fn operand_counts() {
    assert_eq!(num_operands_from_addressing(&AddressingMode::Implied), 0);
    assert_eq!(num_operands_from_addressing(&AddressingMode::Accumulator), 0);
    assert_eq!(num_operands_from_addressing(&AddressingMode::Immediate), 1);
    assert_eq!(num_operands_from_addressing(&AddressingMode::Relative), 1);
    assert_eq!(num_operands_from_addressing(&AddressingMode::ZeroPage), 1);
    assert_eq!(num_operands_from_addressing(&AddressingMode::ZeroPageIndexedIndirect), 1);
    assert_eq!(num_operands_from_addressing(&AddressingMode::Absolute), 2);
    assert_eq!(num_operands_from_addressing(&AddressingMode::AbsoluteIndirect), 2);
    assert_eq!(num_operands_from_addressing(&AddressingMode::AbsoluteIndirectWithY), 2);
}

#[test]
fn indexed_load_pays_for_a_page_crossing() {
    let mode = AddressingMode::AbsoluteIndirectWithX;
    assert_eq!(get_cycles(InstructionName::LDA, mode, true, false), 5);
    assert_eq!(get_cycles(InstructionName::LDA, mode, false, false), 4);
}

#[test]
fn stores_and_modifications_have_a_fixed_cost() {
    let mode = AddressingMode::AbsoluteIndirectWithX;
    assert_eq!(get_cycles(InstructionName::STA, mode, true, false), 5);
    assert_eq!(get_cycles(InstructionName::STA, mode, false, false), 5);
    assert_eq!(get_cycles(InstructionName::INC, mode, true, false), 7);
    assert_eq!(get_cycles(InstructionName::DCP, AddressingMode::ZeroPageIndirectIndexedWithY, true, false), 8);
    assert_eq!(get_cycles(InstructionName::ASL, AddressingMode::Accumulator, false, false), 2);
    assert_eq!(get_cycles(InstructionName::LDA, AddressingMode::ZeroPageIndirectIndexedWithY, true, false), 6);
    assert_eq!(get_cycles(InstructionName::LDA, AddressingMode::ZeroPageIndexedIndirect, true, false), 6);
}

#[test]
fn branch_costs() {
    let mode = AddressingMode::Relative;
    assert_eq!(get_cycles(InstructionName::BNE, mode, false, false), 2);
    assert_eq!(get_cycles(InstructionName::BNE, mode, true, false), 2);
    assert_eq!(get_cycles(InstructionName::BNE, mode, false, true), 3);
    assert_eq!(get_cycles(InstructionName::BNE, mode, true, true), 4);
}

#[test]
fn single_byte_costs() {
    let mode = AddressingMode::Implied;
    assert_eq!(get_cycles(InstructionName::BRK, mode, false, false), 7);
    assert_eq!(get_cycles(InstructionName::RTS, mode, false, false), 6);
    assert_eq!(get_cycles(InstructionName::RTI, mode, false, false), 6);
    assert_eq!(get_cycles(InstructionName::PLA, mode, false, false), 4);
    assert_eq!(get_cycles(InstructionName::PHP, mode, false, false), 3);
    assert_eq!(get_cycles(InstructionName::NOP, mode, false, false), 2);
    assert_eq!(get_cycles(InstructionName::JMP, AddressingMode::Absolute, false, false), 3);
    assert_eq!(get_cycles(InstructionName::JMP, AddressingMode::AbsoluteIndirect, false, false), 5);
    assert_eq!(get_cycles(InstructionName::JSR, AddressingMode::Absolute, false, false), 6);
}

#[test]
fn pairs_without_a_cost_are_told() {
    assert_eq!(lookup_cycles(InstructionName::BIT, AddressingMode::Immediate, false, false), None);
    assert_eq!(lookup_cycles(InstructionName::STA, AddressingMode::Immediate, false, false), None);
    assert_eq!(lookup_cycles(InstructionName::LDA, AddressingMode::Relative, false, false), None);
    assert_eq!(lookup_cycles(InstructionName::BIT, AddressingMode::ZeroPage, false, false), Some(3));
}

#[test]
fn every_decoded_instruction_but_one_has_a_cost() {
    for opcode in 0..=255u8 {
        let pair = match match_instruction(opcode) {
            Instruction::Official(name, mode) => Some((name, mode)),
            Instruction::Unofficial(name, mode) => Some((name, mode)),
            Instruction::Unknown => None,
        };
        if let Some((name, mode)) = pair {
            let cost = lookup_cycles(name, mode, false, false);
            if opcode == 0x89 {
                assert_eq!(cost, None);
            } else {
                let cost = cost.unwrap();
                assert!(2 <= cost && cost <= 8);
            }
        }
    }
}
