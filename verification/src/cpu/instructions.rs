//! The instruction set: opcode decoding and one operation per instruction.

use vstd::prelude::*;
use super::utils::{add_index, address_from_bytes, indexed, spec_address_from_bytes};
use super::{
    byte_at, decrement, decremented, flag_is_set, high_byte_of, increment, incremented,
    low_byte_of, popped, pushed, split_address, stack_top, stored,
    subtract_wrapping, with_flag, with_zero_negative, wrapped_difference, AddressingMode,
    CpuState, Memory, MemoryView, Registers, StatusFlag,
};

verus! {

/// The three-letter name of an instruction.
#[derive(Debug, PartialEq, Eq, Hash, Clone, Copy, Structural)]
#[allow(clippy::upper_case_acronyms)]
pub enum InstructionName {
    SEI,
    CLD,
    LDA,
    BRK,
    STA,
    INC,
    LDX,
    TXS,
    AND,
    BEQ,
    CPX,
    DEY,
    BPL,
    PLA,
    TAY,
    CPY,
    BNE,
    RTS,
    JMP,
    STX,
    JSR,
    NOP,
    SEC,
    BCS,
    CLC,
    CLI,
    BCC,
    PHP,
    BIT,
    BVS,
    BVC,
    LDY,
    ASL,
    RTI,
    SBC,
    SED,
    CMP,
    PHA,
    PLP,
    BMI,
    ORA,
    CLV,
    EOR,
    ADC,
    STY,
    INY,
    INX,
    TAX,
    TYA,
    TXA,
    TSX,
    DEX,
    LSR,
    ROR,
    ROL,
    DEC,
    LAX,
    SAX,
    DCP,
    ISB,
    SLO,
    RLA,
    SRE,
    RRA,
}

/// What an opcode stands for: a documented instruction, an undocumented
/// one, or nothing at all.
#[derive(Debug, PartialEq, Eq, Clone, Copy, Structural)]
pub enum Instruction {
    Official(InstructionName, AddressingMode),
    Unofficial(InstructionName, AddressingMode),
    Unknown,
}

/// The instruction of the arithmetic and logic group that the top three
/// bits of an opcode select.
pub open spec fn alu_name(row: int) -> InstructionName {
    if row == 0 {
        InstructionName::ORA
    } else if row == 1 {
        InstructionName::AND
    } else if row == 2 {
        InstructionName::EOR
    } else if row == 3 {
        InstructionName::ADC
    } else if row == 4 {
        InstructionName::STA
    } else if row == 5 {
        InstructionName::LDA
    } else if row == 6 {
        InstructionName::CMP
    } else {
        InstructionName::SBC
    }
}

/// The addressing mode of the arithmetic and logic group that the middle
/// three bits of an opcode select.
pub open spec fn alu_mode(column: int) -> AddressingMode {
    if column == 0 {
        AddressingMode::ZeroPageIndexedIndirect
    } else if column == 1 {
        AddressingMode::ZeroPage
    } else if column == 2 {
        AddressingMode::Immediate
    } else if column == 3 {
        AddressingMode::Absolute
    } else if column == 4 {
        AddressingMode::ZeroPageIndirectIndexedWithY
    } else if column == 5 {
        AddressingMode::ZeroPageIndexedWithX
    } else if column == 6 {
        AddressingMode::AbsoluteIndirectWithY
    } else {
        AddressingMode::AbsoluteIndirectWithX
    }
}

/// Opcodes whose low two bits are 01: the arithmetic and logic group. The
/// slot that would store the accumulator into an immediate holds a bit
/// test instead.
pub open spec fn decode_alu(row: int, column: int) -> Instruction {
    if row == 4 && column == 2 {
        Instruction::Official(InstructionName::BIT, AddressingMode::Immediate)
    } else {
        Instruction::Official(alu_name(row), alu_mode(column))
    }
}

/// The undocumented instruction that the top three bits of an opcode
/// select when its low two bits are 11.
pub open spec fn combined_name(row: int) -> InstructionName {
    if row == 0 {
        InstructionName::SLO
    } else if row == 1 {
        InstructionName::RLA
    } else if row == 2 {
        InstructionName::SRE
    } else if row == 3 {
        InstructionName::RRA
    } else if row == 4 {
        InstructionName::SAX
    } else if row == 5 {
        InstructionName::LAX
    } else if row == 6 {
        InstructionName::DCP
    } else {
        InstructionName::ISB
    }
}

/// Opcodes whose low two bits are 11: the undocumented combinations. They
/// take the modes of the arithmetic group, except that SAX and LAX index
/// with Y where the others index with X; the immediate column is empty but
/// for a second encoding of SBC.
pub open spec fn decode_combined(row: int, column: int) -> Instruction {
    let name = combined_name(row);
    let indexed_by_y = row == 4 || row == 5;
    if column == 2 {
        if row == 7 {
            Instruction::Unofficial(InstructionName::SBC, AddressingMode::Immediate)
        } else {
            Instruction::Unknown
        }
    } else if row == 4 && (column == 4 || column == 6 || column == 7) {
        Instruction::Unknown
    } else if row == 5 && column == 6 {
        Instruction::Unknown
    } else if indexed_by_y && column == 5 {
        Instruction::Unofficial(name, AddressingMode::ZeroPageIndexedWithY)
    } else if indexed_by_y && column == 7 {
        Instruction::Unofficial(name, AddressingMode::AbsoluteIndirectWithY)
    } else {
        Instruction::Unofficial(name, alu_mode(column))
    }
}

/// The instruction of the read-modify-write group that the top three bits
/// of an opcode select.
pub open spec fn rmw_name(row: int) -> InstructionName {
    if row == 0 {
        InstructionName::ASL
    } else if row == 1 {
        InstructionName::ROL
    } else if row == 2 {
        InstructionName::LSR
    } else if row == 3 {
        InstructionName::ROR
    } else if row == 4 {
        InstructionName::STX
    } else if row == 5 {
        InstructionName::LDX
    } else if row == 6 {
        InstructionName::DEC
    } else {
        InstructionName::INC
    }
}

/// Opcodes whose low two bits are 10: shifts, rotates, the X register's
/// loads and stores, increments and decrements, and the single-byte
/// instructions that share their columns.
pub open spec fn decode_rmw(row: int, column: int) -> Instruction {
    let name = rmw_name(row);
    let x_register = row == 4 || row == 5;
    if column == 0 {
        if row == 5 {
            Instruction::Official(InstructionName::LDX, AddressingMode::Immediate)
        } else {
            Instruction::Unknown
        }
    } else if column == 1 {
        Instruction::Official(name, AddressingMode::ZeroPage)
    } else if column == 2 {
        if row < 4 {
            Instruction::Official(name, AddressingMode::Accumulator)
        } else if row == 4 {
            Instruction::Official(InstructionName::TXA, AddressingMode::Implied)
        } else if row == 5 {
            Instruction::Official(InstructionName::TAX, AddressingMode::Implied)
        } else if row == 6 {
            Instruction::Official(InstructionName::DEX, AddressingMode::Implied)
        } else {
            Instruction::Official(InstructionName::NOP, AddressingMode::Implied)
        }
    } else if column == 3 {
        Instruction::Official(name, AddressingMode::Absolute)
    } else if column == 4 {
        Instruction::Unknown
    } else if column == 5 {
        if x_register {
            Instruction::Official(name, AddressingMode::ZeroPageIndexedWithY)
        } else {
            Instruction::Official(name, AddressingMode::ZeroPageIndexedWithX)
        }
    } else if column == 6 {
        if row == 4 {
            Instruction::Official(InstructionName::TXS, AddressingMode::Implied)
        } else if row == 5 {
            Instruction::Official(InstructionName::TSX, AddressingMode::Implied)
        } else {
            Instruction::Unofficial(InstructionName::NOP, AddressingMode::Implied)
        }
    } else {
        if row == 4 {
            Instruction::Unknown
        } else if row == 5 {
            Instruction::Official(InstructionName::LDX, AddressingMode::AbsoluteIndirectWithY)
        } else {
            Instruction::Official(name, AddressingMode::AbsoluteIndirectWithX)
        }
    }
}

/// The instruction that works on the Y register or compares an index
/// register, by the top three bits of an opcode (rows 4 to 7).
pub open spec fn index_name(row: int) -> InstructionName {
    if row == 4 {
        InstructionName::STY
    } else if row == 5 {
        InstructionName::LDY
    } else if row == 6 {
        InstructionName::CPY
    } else {
        InstructionName::CPX
    }
}

/// The single-byte instruction in the stack and register column.
pub open spec fn stack_column_name(row: int) -> InstructionName {
    if row == 0 {
        InstructionName::PHP
    } else if row == 1 {
        InstructionName::PLP
    } else if row == 2 {
        InstructionName::PHA
    } else if row == 3 {
        InstructionName::PLA
    } else if row == 4 {
        InstructionName::DEY
    } else if row == 5 {
        InstructionName::TAY
    } else if row == 6 {
        InstructionName::INY
    } else {
        InstructionName::INX
    }
}

/// The branch that the top three bits of an opcode select.
pub open spec fn branch_name(row: int) -> InstructionName {
    if row == 0 {
        InstructionName::BPL
    } else if row == 1 {
        InstructionName::BMI
    } else if row == 2 {
        InstructionName::BVC
    } else if row == 3 {
        InstructionName::BVS
    } else if row == 4 {
        InstructionName::BCC
    } else if row == 5 {
        InstructionName::BCS
    } else if row == 6 {
        InstructionName::BNE
    } else {
        InstructionName::BEQ
    }
}

/// Opcodes whose low two bits are 00: control flow, the stack, the flags
/// and the Y register.
pub open spec fn decode_control(row: int, column: int) -> Instruction {
    if column == 0 {
        if row == 0 {
            Instruction::Official(InstructionName::BRK, AddressingMode::Implied)
        } else if row == 1 {
            Instruction::Official(InstructionName::JSR, AddressingMode::Absolute)
        } else if row == 2 {
            Instruction::Official(InstructionName::RTI, AddressingMode::Implied)
        } else if row == 3 {
            Instruction::Official(InstructionName::RTS, AddressingMode::Implied)
        } else if row == 4 {
            Instruction::Unofficial(InstructionName::NOP, AddressingMode::Immediate)
        } else {
            Instruction::Official(index_name(row), AddressingMode::Immediate)
        }
    } else if column == 1 {
        if row == 1 {
            Instruction::Official(InstructionName::BIT, AddressingMode::ZeroPage)
        } else if row >= 4 {
            Instruction::Official(index_name(row), AddressingMode::ZeroPage)
        } else {
            Instruction::Unofficial(InstructionName::NOP, AddressingMode::ZeroPage)
        }
    } else if column == 2 {
        Instruction::Official(stack_column_name(row), AddressingMode::Implied)
    } else if column == 3 {
        if row == 0 {
            Instruction::Unofficial(InstructionName::NOP, AddressingMode::Absolute)
        } else if row == 1 {
            Instruction::Official(InstructionName::BIT, AddressingMode::Absolute)
        } else if row == 2 {
            Instruction::Official(InstructionName::JMP, AddressingMode::Absolute)
        } else if row == 3 {
            Instruction::Official(InstructionName::JMP, AddressingMode::AbsoluteIndirect)
        } else {
            Instruction::Official(index_name(row), AddressingMode::Absolute)
        }
    } else if column == 4 {
        Instruction::Official(branch_name(row), AddressingMode::Relative)
    } else if column == 5 {
        if row == 4 || row == 5 {
            Instruction::Official(index_name(row), AddressingMode::ZeroPageIndexedWithX)
        } else {
            Instruction::Unofficial(InstructionName::NOP, AddressingMode::ZeroPageIndexedWithX)
        }
    } else if column == 6 {
        if row == 0 {
            Instruction::Official(InstructionName::CLC, AddressingMode::Implied)
        } else if row == 1 {
            Instruction::Official(InstructionName::SEC, AddressingMode::Implied)
        } else if row == 2 {
            Instruction::Official(InstructionName::CLI, AddressingMode::Implied)
        } else if row == 3 {
            Instruction::Official(InstructionName::SEI, AddressingMode::Implied)
        } else if row == 4 {
            Instruction::Official(InstructionName::TYA, AddressingMode::Implied)
        } else if row == 5 {
            Instruction::Official(InstructionName::CLV, AddressingMode::Implied)
        } else if row == 6 {
            Instruction::Official(InstructionName::CLD, AddressingMode::Implied)
        } else {
            Instruction::Official(InstructionName::SED, AddressingMode::Implied)
        }
    } else {
        if row == 4 {
            Instruction::Unknown
        } else if row == 5 {
            Instruction::Official(InstructionName::LDY, AddressingMode::AbsoluteIndirectWithX)
        } else {
            Instruction::Unofficial(InstructionName::NOP, AddressingMode::AbsoluteIndirectWithX)
        }
    }
}

/// What the opcode `opcode` stands for.
///
/// An opcode has the layout `rrrcccgg`: the low two bits choose one of four
/// groups, the top three bits the row (mostly the instruction) and the
/// middle three bits the column (mostly the addressing mode).
pub open spec fn decode(opcode: u8) -> Instruction {
    let row = opcode as int / 32;
    let column = (opcode as int / 4) % 8;
    let group = opcode as int % 4;
    if group == 0 {
        decode_control(row, column)
    } else if group == 1 {
        decode_alu(row, column)
    } else if group == 2 {
        decode_rmw(row, column)
    } else {
        decode_combined(row, column)
    }
}

/// Decodes an opcode into its instruction and addressing mode, telling
/// documented from undocumented instructions; opcodes that stand for
/// nothing give `Unknown`.
#[must_use]
pub fn match_instruction(opcode: u8) -> (instruction: Instruction)
    ensures
        instruction == decode(opcode),
{
    match opcode {
        0x00 => Instruction::Official(InstructionName::BRK, AddressingMode::Implied),
        0x01 => Instruction::Official(InstructionName::ORA, AddressingMode::ZeroPageIndexedIndirect),
        0x03 => Instruction::Unofficial(InstructionName::SLO, AddressingMode::ZeroPageIndexedIndirect),
        0x04 => Instruction::Unofficial(InstructionName::NOP, AddressingMode::ZeroPage),
        0x05 => Instruction::Official(InstructionName::ORA, AddressingMode::ZeroPage),
        0x06 => Instruction::Official(InstructionName::ASL, AddressingMode::ZeroPage),
        0x07 => Instruction::Unofficial(InstructionName::SLO, AddressingMode::ZeroPage),
        0x08 => Instruction::Official(InstructionName::PHP, AddressingMode::Implied),
        0x09 => Instruction::Official(InstructionName::ORA, AddressingMode::Immediate),
        0x0A => Instruction::Official(InstructionName::ASL, AddressingMode::Accumulator),
        0x0C => Instruction::Unofficial(InstructionName::NOP, AddressingMode::Absolute),
        0x0D => Instruction::Official(InstructionName::ORA, AddressingMode::Absolute),
        0x0E => Instruction::Official(InstructionName::ASL, AddressingMode::Absolute),
        0x0F => Instruction::Unofficial(InstructionName::SLO, AddressingMode::Absolute),
        0x10 => Instruction::Official(InstructionName::BPL, AddressingMode::Relative),
        0x11 => Instruction::Official(InstructionName::ORA, AddressingMode::ZeroPageIndirectIndexedWithY),
        0x13 => Instruction::Unofficial(InstructionName::SLO, AddressingMode::ZeroPageIndirectIndexedWithY),
        0x14 => Instruction::Unofficial(InstructionName::NOP, AddressingMode::ZeroPageIndexedWithX),
        0x15 => Instruction::Official(InstructionName::ORA, AddressingMode::ZeroPageIndexedWithX),
        0x16 => Instruction::Official(InstructionName::ASL, AddressingMode::ZeroPageIndexedWithX),
        0x17 => Instruction::Unofficial(InstructionName::SLO, AddressingMode::ZeroPageIndexedWithX),
        0x18 => Instruction::Official(InstructionName::CLC, AddressingMode::Implied),
        0x19 => Instruction::Official(InstructionName::ORA, AddressingMode::AbsoluteIndirectWithY),
        0x1A => Instruction::Unofficial(InstructionName::NOP, AddressingMode::Implied),
        0x1B => Instruction::Unofficial(InstructionName::SLO, AddressingMode::AbsoluteIndirectWithY),
        0x1C => Instruction::Unofficial(InstructionName::NOP, AddressingMode::AbsoluteIndirectWithX),
        0x1D => Instruction::Official(InstructionName::ORA, AddressingMode::AbsoluteIndirectWithX),
        0x1E => Instruction::Official(InstructionName::ASL, AddressingMode::AbsoluteIndirectWithX),
        0x1F => Instruction::Unofficial(InstructionName::SLO, AddressingMode::AbsoluteIndirectWithX),
        0x20 => Instruction::Official(InstructionName::JSR, AddressingMode::Absolute),
        0x21 => Instruction::Official(InstructionName::AND, AddressingMode::ZeroPageIndexedIndirect),
        0x23 => Instruction::Unofficial(InstructionName::RLA, AddressingMode::ZeroPageIndexedIndirect),
        0x24 => Instruction::Official(InstructionName::BIT, AddressingMode::ZeroPage),
        0x25 => Instruction::Official(InstructionName::AND, AddressingMode::ZeroPage),
        0x26 => Instruction::Official(InstructionName::ROL, AddressingMode::ZeroPage),
        0x27 => Instruction::Unofficial(InstructionName::RLA, AddressingMode::ZeroPage),
        0x28 => Instruction::Official(InstructionName::PLP, AddressingMode::Implied),
        0x29 => Instruction::Official(InstructionName::AND, AddressingMode::Immediate),
        0x2A => Instruction::Official(InstructionName::ROL, AddressingMode::Accumulator),
        0x2C => Instruction::Official(InstructionName::BIT, AddressingMode::Absolute),
        0x2D => Instruction::Official(InstructionName::AND, AddressingMode::Absolute),
        0x2E => Instruction::Official(InstructionName::ROL, AddressingMode::Absolute),
        0x2F => Instruction::Unofficial(InstructionName::RLA, AddressingMode::Absolute),
        0x30 => Instruction::Official(InstructionName::BMI, AddressingMode::Relative),
        0x31 => Instruction::Official(InstructionName::AND, AddressingMode::ZeroPageIndirectIndexedWithY),
        0x33 => Instruction::Unofficial(InstructionName::RLA, AddressingMode::ZeroPageIndirectIndexedWithY),
        0x34 => Instruction::Unofficial(InstructionName::NOP, AddressingMode::ZeroPageIndexedWithX),
        0x35 => Instruction::Official(InstructionName::AND, AddressingMode::ZeroPageIndexedWithX),
        0x36 => Instruction::Official(InstructionName::ROL, AddressingMode::ZeroPageIndexedWithX),
        0x37 => Instruction::Unofficial(InstructionName::RLA, AddressingMode::ZeroPageIndexedWithX),
        0x38 => Instruction::Official(InstructionName::SEC, AddressingMode::Implied),
        0x39 => Instruction::Official(InstructionName::AND, AddressingMode::AbsoluteIndirectWithY),
        0x3A => Instruction::Unofficial(InstructionName::NOP, AddressingMode::Implied),
        0x3B => Instruction::Unofficial(InstructionName::RLA, AddressingMode::AbsoluteIndirectWithY),
        0x3C => Instruction::Unofficial(InstructionName::NOP, AddressingMode::AbsoluteIndirectWithX),
        0x3D => Instruction::Official(InstructionName::AND, AddressingMode::AbsoluteIndirectWithX),
        0x3E => Instruction::Official(InstructionName::ROL, AddressingMode::AbsoluteIndirectWithX),
        0x3F => Instruction::Unofficial(InstructionName::RLA, AddressingMode::AbsoluteIndirectWithX),
        0x40 => Instruction::Official(InstructionName::RTI, AddressingMode::Implied),
        0x41 => Instruction::Official(InstructionName::EOR, AddressingMode::ZeroPageIndexedIndirect),
        0x43 => Instruction::Unofficial(InstructionName::SRE, AddressingMode::ZeroPageIndexedIndirect),
        0x44 => Instruction::Unofficial(InstructionName::NOP, AddressingMode::ZeroPage),
        0x45 => Instruction::Official(InstructionName::EOR, AddressingMode::ZeroPage),
        0x46 => Instruction::Official(InstructionName::LSR, AddressingMode::ZeroPage),
        0x47 => Instruction::Unofficial(InstructionName::SRE, AddressingMode::ZeroPage),
        0x48 => Instruction::Official(InstructionName::PHA, AddressingMode::Implied),
        0x49 => Instruction::Official(InstructionName::EOR, AddressingMode::Immediate),
        0x4A => Instruction::Official(InstructionName::LSR, AddressingMode::Accumulator),
        0x4C => Instruction::Official(InstructionName::JMP, AddressingMode::Absolute),
        0x4D => Instruction::Official(InstructionName::EOR, AddressingMode::Absolute),
        0x4E => Instruction::Official(InstructionName::LSR, AddressingMode::Absolute),
        0x4F => Instruction::Unofficial(InstructionName::SRE, AddressingMode::Absolute),
        0x50 => Instruction::Official(InstructionName::BVC, AddressingMode::Relative),
        0x51 => Instruction::Official(InstructionName::EOR, AddressingMode::ZeroPageIndirectIndexedWithY),
        0x53 => Instruction::Unofficial(InstructionName::SRE, AddressingMode::ZeroPageIndirectIndexedWithY),
        0x54 => Instruction::Unofficial(InstructionName::NOP, AddressingMode::ZeroPageIndexedWithX),
        0x55 => Instruction::Official(InstructionName::EOR, AddressingMode::ZeroPageIndexedWithX),
        0x56 => Instruction::Official(InstructionName::LSR, AddressingMode::ZeroPageIndexedWithX),
        0x57 => Instruction::Unofficial(InstructionName::SRE, AddressingMode::ZeroPageIndexedWithX),
        0x58 => Instruction::Official(InstructionName::CLI, AddressingMode::Implied),
        0x59 => Instruction::Official(InstructionName::EOR, AddressingMode::AbsoluteIndirectWithY),
        0x5A => Instruction::Unofficial(InstructionName::NOP, AddressingMode::Implied),
        0x5B => Instruction::Unofficial(InstructionName::SRE, AddressingMode::AbsoluteIndirectWithY),
        0x5C => Instruction::Unofficial(InstructionName::NOP, AddressingMode::AbsoluteIndirectWithX),
        0x5D => Instruction::Official(InstructionName::EOR, AddressingMode::AbsoluteIndirectWithX),
        0x5E => Instruction::Official(InstructionName::LSR, AddressingMode::AbsoluteIndirectWithX),
        0x5F => Instruction::Unofficial(InstructionName::SRE, AddressingMode::AbsoluteIndirectWithX),
        0x60 => Instruction::Official(InstructionName::RTS, AddressingMode::Implied),
        0x61 => Instruction::Official(InstructionName::ADC, AddressingMode::ZeroPageIndexedIndirect),
        0x63 => Instruction::Unofficial(InstructionName::RRA, AddressingMode::ZeroPageIndexedIndirect),
        0x64 => Instruction::Unofficial(InstructionName::NOP, AddressingMode::ZeroPage),
        0x65 => Instruction::Official(InstructionName::ADC, AddressingMode::ZeroPage),
        0x66 => Instruction::Official(InstructionName::ROR, AddressingMode::ZeroPage),
        0x67 => Instruction::Unofficial(InstructionName::RRA, AddressingMode::ZeroPage),
        0x68 => Instruction::Official(InstructionName::PLA, AddressingMode::Implied),
        0x69 => Instruction::Official(InstructionName::ADC, AddressingMode::Immediate),
        0x6A => Instruction::Official(InstructionName::ROR, AddressingMode::Accumulator),
        0x6C => Instruction::Official(InstructionName::JMP, AddressingMode::AbsoluteIndirect),
        0x6D => Instruction::Official(InstructionName::ADC, AddressingMode::Absolute),
        0x6E => Instruction::Official(InstructionName::ROR, AddressingMode::Absolute),
        0x6F => Instruction::Unofficial(InstructionName::RRA, AddressingMode::Absolute),
        0x70 => Instruction::Official(InstructionName::BVS, AddressingMode::Relative),
        0x71 => Instruction::Official(InstructionName::ADC, AddressingMode::ZeroPageIndirectIndexedWithY),
        0x73 => Instruction::Unofficial(InstructionName::RRA, AddressingMode::ZeroPageIndirectIndexedWithY),
        0x74 => Instruction::Unofficial(InstructionName::NOP, AddressingMode::ZeroPageIndexedWithX),
        0x75 => Instruction::Official(InstructionName::ADC, AddressingMode::ZeroPageIndexedWithX),
        0x76 => Instruction::Official(InstructionName::ROR, AddressingMode::ZeroPageIndexedWithX),
        0x77 => Instruction::Unofficial(InstructionName::RRA, AddressingMode::ZeroPageIndexedWithX),
        0x78 => Instruction::Official(InstructionName::SEI, AddressingMode::Implied),
        0x79 => Instruction::Official(InstructionName::ADC, AddressingMode::AbsoluteIndirectWithY),
        0x7A => Instruction::Unofficial(InstructionName::NOP, AddressingMode::Implied),
        0x7B => Instruction::Unofficial(InstructionName::RRA, AddressingMode::AbsoluteIndirectWithY),
        0x7C => Instruction::Unofficial(InstructionName::NOP, AddressingMode::AbsoluteIndirectWithX),
        0x7D => Instruction::Official(InstructionName::ADC, AddressingMode::AbsoluteIndirectWithX),
        0x7E => Instruction::Official(InstructionName::ROR, AddressingMode::AbsoluteIndirectWithX),
        0x7F => Instruction::Unofficial(InstructionName::RRA, AddressingMode::AbsoluteIndirectWithX),
        0x80 => Instruction::Unofficial(InstructionName::NOP, AddressingMode::Immediate),
        0x81 => Instruction::Official(InstructionName::STA, AddressingMode::ZeroPageIndexedIndirect),
        0x83 => Instruction::Unofficial(InstructionName::SAX, AddressingMode::ZeroPageIndexedIndirect),
        0x84 => Instruction::Official(InstructionName::STY, AddressingMode::ZeroPage),
        0x85 => Instruction::Official(InstructionName::STA, AddressingMode::ZeroPage),
        0x86 => Instruction::Official(InstructionName::STX, AddressingMode::ZeroPage),
        0x87 => Instruction::Unofficial(InstructionName::SAX, AddressingMode::ZeroPage),
        0x88 => Instruction::Official(InstructionName::DEY, AddressingMode::Implied),
        0x89 => Instruction::Official(InstructionName::BIT, AddressingMode::Immediate),
        0x8A => Instruction::Official(InstructionName::TXA, AddressingMode::Implied),
        0x8C => Instruction::Official(InstructionName::STY, AddressingMode::Absolute),
        0x8D => Instruction::Official(InstructionName::STA, AddressingMode::Absolute),
        0x8E => Instruction::Official(InstructionName::STX, AddressingMode::Absolute),
        0x8F => Instruction::Unofficial(InstructionName::SAX, AddressingMode::Absolute),
        0x90 => Instruction::Official(InstructionName::BCC, AddressingMode::Relative),
        0x91 => Instruction::Official(InstructionName::STA, AddressingMode::ZeroPageIndirectIndexedWithY),
        0x94 => Instruction::Official(InstructionName::STY, AddressingMode::ZeroPageIndexedWithX),
        0x95 => Instruction::Official(InstructionName::STA, AddressingMode::ZeroPageIndexedWithX),
        0x96 => Instruction::Official(InstructionName::STX, AddressingMode::ZeroPageIndexedWithY),
        0x97 => Instruction::Unofficial(InstructionName::SAX, AddressingMode::ZeroPageIndexedWithY),
        0x98 => Instruction::Official(InstructionName::TYA, AddressingMode::Implied),
        0x99 => Instruction::Official(InstructionName::STA, AddressingMode::AbsoluteIndirectWithY),
        0x9A => Instruction::Official(InstructionName::TXS, AddressingMode::Implied),
        0x9D => Instruction::Official(InstructionName::STA, AddressingMode::AbsoluteIndirectWithX),
        0xA0 => Instruction::Official(InstructionName::LDY, AddressingMode::Immediate),
        0xA1 => Instruction::Official(InstructionName::LDA, AddressingMode::ZeroPageIndexedIndirect),
        0xA2 => Instruction::Official(InstructionName::LDX, AddressingMode::Immediate),
        0xA3 => Instruction::Unofficial(InstructionName::LAX, AddressingMode::ZeroPageIndexedIndirect),
        0xA4 => Instruction::Official(InstructionName::LDY, AddressingMode::ZeroPage),
        0xA5 => Instruction::Official(InstructionName::LDA, AddressingMode::ZeroPage),
        0xA6 => Instruction::Official(InstructionName::LDX, AddressingMode::ZeroPage),
        0xA7 => Instruction::Unofficial(InstructionName::LAX, AddressingMode::ZeroPage),
        0xA8 => Instruction::Official(InstructionName::TAY, AddressingMode::Implied),
        0xA9 => Instruction::Official(InstructionName::LDA, AddressingMode::Immediate),
        0xAA => Instruction::Official(InstructionName::TAX, AddressingMode::Implied),
        0xAC => Instruction::Official(InstructionName::LDY, AddressingMode::Absolute),
        0xAD => Instruction::Official(InstructionName::LDA, AddressingMode::Absolute),
        0xAE => Instruction::Official(InstructionName::LDX, AddressingMode::Absolute),
        0xAF => Instruction::Unofficial(InstructionName::LAX, AddressingMode::Absolute),
        0xB0 => Instruction::Official(InstructionName::BCS, AddressingMode::Relative),
        0xB1 => Instruction::Official(InstructionName::LDA, AddressingMode::ZeroPageIndirectIndexedWithY),
        0xB3 => Instruction::Unofficial(InstructionName::LAX, AddressingMode::ZeroPageIndirectIndexedWithY),
        0xB4 => Instruction::Official(InstructionName::LDY, AddressingMode::ZeroPageIndexedWithX),
        0xB5 => Instruction::Official(InstructionName::LDA, AddressingMode::ZeroPageIndexedWithX),
        0xB6 => Instruction::Official(InstructionName::LDX, AddressingMode::ZeroPageIndexedWithY),
        0xB7 => Instruction::Unofficial(InstructionName::LAX, AddressingMode::ZeroPageIndexedWithY),
        0xB8 => Instruction::Official(InstructionName::CLV, AddressingMode::Implied),
        0xB9 => Instruction::Official(InstructionName::LDA, AddressingMode::AbsoluteIndirectWithY),
        0xBA => Instruction::Official(InstructionName::TSX, AddressingMode::Implied),
        0xBC => Instruction::Official(InstructionName::LDY, AddressingMode::AbsoluteIndirectWithX),
        0xBD => Instruction::Official(InstructionName::LDA, AddressingMode::AbsoluteIndirectWithX),
        0xBE => Instruction::Official(InstructionName::LDX, AddressingMode::AbsoluteIndirectWithY),
        0xBF => Instruction::Unofficial(InstructionName::LAX, AddressingMode::AbsoluteIndirectWithY),
        0xC0 => Instruction::Official(InstructionName::CPY, AddressingMode::Immediate),
        0xC1 => Instruction::Official(InstructionName::CMP, AddressingMode::ZeroPageIndexedIndirect),
        0xC3 => Instruction::Unofficial(InstructionName::DCP, AddressingMode::ZeroPageIndexedIndirect),
        0xC4 => Instruction::Official(InstructionName::CPY, AddressingMode::ZeroPage),
        0xC5 => Instruction::Official(InstructionName::CMP, AddressingMode::ZeroPage),
        0xC6 => Instruction::Official(InstructionName::DEC, AddressingMode::ZeroPage),
        0xC7 => Instruction::Unofficial(InstructionName::DCP, AddressingMode::ZeroPage),
        0xC8 => Instruction::Official(InstructionName::INY, AddressingMode::Implied),
        0xC9 => Instruction::Official(InstructionName::CMP, AddressingMode::Immediate),
        0xCA => Instruction::Official(InstructionName::DEX, AddressingMode::Implied),
        0xCC => Instruction::Official(InstructionName::CPY, AddressingMode::Absolute),
        0xCD => Instruction::Official(InstructionName::CMP, AddressingMode::Absolute),
        0xCE => Instruction::Official(InstructionName::DEC, AddressingMode::Absolute),
        0xCF => Instruction::Unofficial(InstructionName::DCP, AddressingMode::Absolute),
        0xD0 => Instruction::Official(InstructionName::BNE, AddressingMode::Relative),
        0xD1 => Instruction::Official(InstructionName::CMP, AddressingMode::ZeroPageIndirectIndexedWithY),
        0xD3 => Instruction::Unofficial(InstructionName::DCP, AddressingMode::ZeroPageIndirectIndexedWithY),
        0xD4 => Instruction::Unofficial(InstructionName::NOP, AddressingMode::ZeroPageIndexedWithX),
        0xD5 => Instruction::Official(InstructionName::CMP, AddressingMode::ZeroPageIndexedWithX),
        0xD6 => Instruction::Official(InstructionName::DEC, AddressingMode::ZeroPageIndexedWithX),
        0xD7 => Instruction::Unofficial(InstructionName::DCP, AddressingMode::ZeroPageIndexedWithX),
        0xD8 => Instruction::Official(InstructionName::CLD, AddressingMode::Implied),
        0xD9 => Instruction::Official(InstructionName::CMP, AddressingMode::AbsoluteIndirectWithY),
        0xDA => Instruction::Unofficial(InstructionName::NOP, AddressingMode::Implied),
        0xDB => Instruction::Unofficial(InstructionName::DCP, AddressingMode::AbsoluteIndirectWithY),
        0xDC => Instruction::Unofficial(InstructionName::NOP, AddressingMode::AbsoluteIndirectWithX),
        0xDD => Instruction::Official(InstructionName::CMP, AddressingMode::AbsoluteIndirectWithX),
        0xDE => Instruction::Official(InstructionName::DEC, AddressingMode::AbsoluteIndirectWithX),
        0xDF => Instruction::Unofficial(InstructionName::DCP, AddressingMode::AbsoluteIndirectWithX),
        0xE0 => Instruction::Official(InstructionName::CPX, AddressingMode::Immediate),
        0xE1 => Instruction::Official(InstructionName::SBC, AddressingMode::ZeroPageIndexedIndirect),
        0xE3 => Instruction::Unofficial(InstructionName::ISB, AddressingMode::ZeroPageIndexedIndirect),
        0xE4 => Instruction::Official(InstructionName::CPX, AddressingMode::ZeroPage),
        0xE5 => Instruction::Official(InstructionName::SBC, AddressingMode::ZeroPage),
        0xE6 => Instruction::Official(InstructionName::INC, AddressingMode::ZeroPage),
        0xE7 => Instruction::Unofficial(InstructionName::ISB, AddressingMode::ZeroPage),
        0xE8 => Instruction::Official(InstructionName::INX, AddressingMode::Implied),
        0xE9 => Instruction::Official(InstructionName::SBC, AddressingMode::Immediate),
        0xEA => Instruction::Official(InstructionName::NOP, AddressingMode::Implied),
        0xEB => Instruction::Unofficial(InstructionName::SBC, AddressingMode::Immediate),
        0xEC => Instruction::Official(InstructionName::CPX, AddressingMode::Absolute),
        0xED => Instruction::Official(InstructionName::SBC, AddressingMode::Absolute),
        0xEE => Instruction::Official(InstructionName::INC, AddressingMode::Absolute),
        0xEF => Instruction::Unofficial(InstructionName::ISB, AddressingMode::Absolute),
        0xF0 => Instruction::Official(InstructionName::BEQ, AddressingMode::Relative),
        0xF1 => Instruction::Official(InstructionName::SBC, AddressingMode::ZeroPageIndirectIndexedWithY),
        0xF3 => Instruction::Unofficial(InstructionName::ISB, AddressingMode::ZeroPageIndirectIndexedWithY),
        0xF4 => Instruction::Unofficial(InstructionName::NOP, AddressingMode::ZeroPageIndexedWithX),
        0xF5 => Instruction::Official(InstructionName::SBC, AddressingMode::ZeroPageIndexedWithX),
        0xF6 => Instruction::Official(InstructionName::INC, AddressingMode::ZeroPageIndexedWithX),
        0xF7 => Instruction::Unofficial(InstructionName::ISB, AddressingMode::ZeroPageIndexedWithX),
        0xF8 => Instruction::Official(InstructionName::SED, AddressingMode::Implied),
        0xF9 => Instruction::Official(InstructionName::SBC, AddressingMode::AbsoluteIndirectWithY),
        0xFA => Instruction::Unofficial(InstructionName::NOP, AddressingMode::Implied),
        0xFB => Instruction::Unofficial(InstructionName::ISB, AddressingMode::AbsoluteIndirectWithY),
        0xFC => Instruction::Unofficial(InstructionName::NOP, AddressingMode::AbsoluteIndirectWithX),
        0xFD => Instruction::Official(InstructionName::SBC, AddressingMode::AbsoluteIndirectWithX),
        0xFE => Instruction::Official(InstructionName::INC, AddressingMode::AbsoluteIndirectWithX),
        0xFF => Instruction::Unofficial(InstructionName::ISB, AddressingMode::AbsoluteIndirectWithX),
        _ => Instruction::Unknown,
    }
}

/// The registers after `value` has been loaded into the accumulator.
pub open spec fn loaded_accumulator(r: Registers, value: u8) -> Registers {
    Registers { a: value, status: with_zero_negative(r.status, value), ..r }
}

/// The registers after `value` has been loaded into the X register.
pub open spec fn loaded_x(r: Registers, value: u8) -> Registers {
    Registers { x: value, status: with_zero_negative(r.status, value), ..r }
}

/// The registers after `value` has been loaded into the Y register.
pub open spec fn loaded_y(r: Registers, value: u8) -> Registers {
    Registers { y: value, status: with_zero_negative(r.status, value), ..r }
}

/// The registers with one flag switched.
pub open spec fn flagged(r: Registers, flag: StatusFlag, activated: bool) -> Registers {
    Registers { status: with_flag(r.status, flag, activated), ..r }
}

/// The status after `register` has been compared with `value`: carry says
/// that the register is not below the value, zero that the two are equal,
/// negative is bit 7 of their 8-bit difference.
pub open spec fn compare_status(status: u8, register: u8, value: u8) -> u8 {
    with_flag(
        with_flag(
            with_flag(status, StatusFlag::C, register >= value),
            StatusFlag::Z,
            register == value,
        ),
        StatusFlag::N,
        wrapped_difference(register, value) >= 0x80,
    )
}

/// The registers after `register` has been compared with `value`.
pub open spec fn compared(r: Registers, register: u8, value: u8) -> Registers {
    Registers { status: compare_status(r.status, register, value), ..r }
}

/// The sum of accumulator, operand and carry, before it is cut to 8 bits.
pub open spec fn adc_sum(r: Registers, value: u8) -> int {
    r.a as int + value as int + if flag_is_set(r.status, StatusFlag::C) {
        1int
    } else {
        0int
    }
}

/// Whether adding `value` to `a` with the 8-bit result `result` overflowed
/// as a signed addition: both operands have the same sign and the result
/// has the other.
pub open spec fn adc_overflows(a: u8, value: u8, result: u8) -> bool {
    !(a ^ value) & (a ^ result) & 0x80 == 0x80
}

/// The registers after `value` and the carry have been added to the
/// accumulator.
pub open spec fn after_adc(r: Registers, value: u8) -> Registers {
    let sum = adc_sum(r, value);
    let result = (sum % 256) as u8;
    Registers {
        a: result,
        status: with_zero_negative(
            with_flag(
                with_flag(r.status, StatusFlag::C, sum > 0xFF),
                StatusFlag::V,
                adc_overflows(r.a, value, result),
            ),
            result,
        ),
        ..r
    }
}

/// The registers after `value` and the borrow have been subtracted from
/// the accumulator: an addition of the complemented operand.
pub open spec fn after_sbc(r: Registers, value: u8) -> Registers {
    after_adc(r, !value)
}

/// `value` shifted one bit to the left, with `carry_in` entering at bit 0.
pub open spec fn shifted_left(value: u8, carry_in: bool) -> u8 {
    ((value as int * 2) % 256 + if carry_in {
        1int
    } else {
        0int
    }) as u8
}

/// `value` shifted one bit to the right, with `carry_in` entering at bit 7.
pub open spec fn shifted_right(value: u8, carry_in: bool) -> u8 {
    (value as int / 2 + if carry_in {
        128int
    } else {
        0int
    }) as u8
}

/// The status after a shift or rotate that produced `result` and pushed
/// `carry_out` off the end.
pub open spec fn shift_status(status: u8, result: u8, carry_out: bool) -> u8 {
    with_zero_negative(with_flag(status, StatusFlag::C, carry_out), result)
}

/// The registers after a shift or rotate of the accumulator.
pub open spec fn shifted_accumulator(r: Registers, result: u8, carry_out: bool) -> Registers {
    Registers { a: result, status: shift_status(r.status, result, carry_out), ..r }
}

/// The state after a shift or rotate has stored `result` at `addr`.
pub open spec fn shifted_memory(
    r: Registers,
    m: MemoryView,
    addr: u16,
    result: u8,
    carry_out: bool,
) -> CpuState {
    CpuState {
        registers: Registers { status: shift_status(r.status, result, carry_out), ..r },
        memory: stored(m, addr, result),
    }
}

/// The state after the byte at `addr` has been replaced by `result` and
/// the zero and negative flags derived from it.
pub open spec fn replaced_memory(r: Registers, m: MemoryView, addr: u16, result: u8) -> CpuState {
    CpuState {
        registers: Registers { status: with_zero_negative(r.status, result), ..r },
        memory: stored(m, addr, result),
    }
}

/// The displacement that a branch operand stands for: values from 0x80 up
/// are negative.
pub open spec fn displacement(value: u16) -> int {
    if value >= 0x80 {
        value as int - 256
    } else {
        value as int
    }
}

/// Where a taken branch leads: the program counter, which points at the
/// operand, plus one plus the displacement, wrapped to 16 bits.
pub open spec fn branch_target(pc: u16, value: u16) -> u16 {
    ((pc as int + 1 + displacement(value)) % 0x10000) as u16
}

/// The registers after a branch whose condition is `taken`.
pub open spec fn branched(r: Registers, taken: bool, value: u16) -> Registers {
    if taken {
        Registers { pc: branch_target(r.pc, value), ..r }
    } else {
        r
    }
}

/// The status after a bit test of the accumulator `a` against the memory
/// byte `m`: zero says that they share no bit; bits 6 and 7 of `m` go to
/// the overflow and negative flags.
pub open spec fn bit_status(status: u8, a: u8, m: u8) -> u8 {
    with_flag(
        with_flag(
            with_flag(status, StatusFlag::Z, a & m == 0),
            StatusFlag::V,
            flag_is_set(m, StatusFlag::V),
        ),
        StatusFlag::N,
        flag_is_set(m, StatusFlag::N),
    )
}

/// The status byte as it is pushed on the stack: with the break flag and
/// the unused bit set.
pub open spec fn pushed_status(status: u8) -> u8 {
    with_flag(with_flag(status, StatusFlag::B, true), StatusFlag::Unused, true)
}

/// The status after a byte pulled from the stack has been restored: every
/// flag comes from `pulled`, except the break flag and the unused bit,
/// which stay as they are in `status`.
pub open spec fn pulled_status(status: u8, pulled: u8) -> u8 {
    with_flag(
        with_flag(pulled, StatusFlag::B, flag_is_set(status, StatusFlag::B)),
        StatusFlag::Unused,
        flag_is_set(status, StatusFlag::Unused),
    )
}

/// The state after a software interrupt. The program counter, which points
/// behind the opcode, is advanced by one and pushed high byte first; the
/// status follows with break and unused set; then interrupts are disabled
/// and the program counter is loaded from the vector at 0xFFFE.
pub open spec fn after_brk(r: Registers, m: MemoryView) -> CpuState {
    let return_to = indexed(r.pc, 1);
    let status = pushed_status(r.status);
    CpuState {
        registers: Registers {
            pc: spec_address_from_bytes(m.memory[0xFFFE], m.memory[0xFFFF]),
            status: with_flag(status, StatusFlag::I, true),
            ..r
        },
        memory: pushed(
            pushed(pushed(m, high_byte_of(return_to)), low_byte_of(return_to)),
            status,
        ),
    }
}

/// The state after a jump to the subroutine at `addr`: the address of the
/// last byte of the instruction is pushed, high byte first.
pub open spec fn after_jsr(r: Registers, m: MemoryView, addr: u16) -> CpuState {
    let return_to = indexed(r.pc, 1);
    CpuState {
        registers: Registers { pc: addr, ..r },
        memory: pushed(pushed(m, high_byte_of(return_to)), low_byte_of(return_to)),
    }
}

/// The state after a return from a subroutine: the program counter is
/// pulled, low byte first, and advanced by one.
pub open spec fn after_rts(r: Registers, m: MemoryView) -> CpuState {
    let low = stack_top(m);
    let high = stack_top(popped(m));
    CpuState {
        registers: Registers { pc: indexed(spec_address_from_bytes(low, high), 1), ..r },
        memory: popped(popped(m)),
    }
}

/// The state after a return from an interrupt: the status is pulled, then
/// the program counter, low byte first.
pub open spec fn after_rti(r: Registers, m: MemoryView) -> CpuState {
    let status = stack_top(m);
    let low = stack_top(popped(m));
    let high = stack_top(popped(popped(m)));
    CpuState {
        registers: Registers {
            pc: spec_address_from_bytes(low, high),
            status: pulled_status(r.status, status),
            ..r
        },
        memory: popped(popped(popped(m))),
    }
}

/// The state after the status has been pushed: the byte on the stack has
/// break and unused set; the register keeps unused set and has break
/// cleared.
pub open spec fn after_php(r: Registers, m: MemoryView) -> CpuState {
    CpuState {
        registers: Registers {
            status: with_flag(pushed_status(r.status), StatusFlag::B, false),
            ..r
        },
        memory: pushed(m, pushed_status(r.status)),
    }
}

/// Whatever the status was, the byte that goes on the stack has the
/// unused bit and the break flag set, and agrees with the status on every
/// other flag.
pub proof fn lemma_pushed_status(status: u8)
    ensures
        flag_is_set(pushed_status(status), StatusFlag::Unused),
        flag_is_set(pushed_status(status), StatusFlag::B),
        forall|flag: StatusFlag|
            flag != StatusFlag::Unused && flag != StatusFlag::B ==> flag_is_set(
                #[trigger] pushed_status(status),
                flag,
            ) == flag_is_set(status, flag),
{
    let first = with_flag(status, StatusFlag::B, true);
    super::lemma_with_flag_sets(status, StatusFlag::B, true);
    super::lemma_with_flag_sets(first, StatusFlag::Unused, true);
    super::lemma_with_flag_keeps_others(first, StatusFlag::Unused, true, StatusFlag::B);
    assert forall|flag: StatusFlag|
        flag != StatusFlag::Unused && flag != StatusFlag::B implies flag_is_set(
        pushed_status(status),
        flag,
    ) == flag_is_set(status, flag) by {
        super::lemma_with_flag_keeps_others(status, StatusFlag::B, true, flag);
        super::lemma_with_flag_keeps_others(first, StatusFlag::Unused, true, flag);
    }
}

/// A status pulled from the stack brings every flag with it except the
/// break flag and the unused bit, which keep their values.
pub proof fn lemma_pulled_status(status: u8, pulled: u8)
    ensures
        forall|flag: StatusFlag|
            flag_is_set(#[trigger] pulled_status(status, pulled), flag) == if flag
                == StatusFlag::B || flag == StatusFlag::Unused {
                flag_is_set(status, flag)
            } else {
                flag_is_set(pulled, flag)
            },
{
    let b = flag_is_set(status, StatusFlag::B);
    let u = flag_is_set(status, StatusFlag::Unused);
    let first = with_flag(pulled, StatusFlag::B, b);
    assert forall|flag: StatusFlag|
        flag_is_set(#[trigger] pulled_status(status, pulled), flag) == if flag == StatusFlag::B
            || flag == StatusFlag::Unused {
            flag_is_set(status, flag)
        } else {
            flag_is_set(pulled, flag)
        } by {
        super::lemma_with_flag_sets(pulled, StatusFlag::B, b);
        super::lemma_with_flag_sets(first, StatusFlag::Unused, u);
        if flag != StatusFlag::B {
            super::lemma_with_flag_keeps_others(pulled, StatusFlag::B, b, flag);
        }
        if flag != StatusFlag::Unused {
            super::lemma_with_flag_keeps_others(first, StatusFlag::Unused, u, flag);
        }
    }
}

/// After a comparison the carry flag says that the register is at least
/// the value, and the zero flag that the two are equal.
pub proof fn lemma_compare_flags(status: u8, register: u8, value: u8)
    ensures
        flag_is_set(compare_status(status, register, value), StatusFlag::C) == (register
            >= value),
        flag_is_set(compare_status(status, register, value), StatusFlag::Z) == (register
            == value),
        flag_is_set(compare_status(status, register, value), StatusFlag::N) == (
        wrapped_difference(register, value) >= 0x80),
{
    let first = with_flag(status, StatusFlag::C, register >= value);
    let second = with_flag(first, StatusFlag::Z, register == value);
    let negative = wrapped_difference(register, value) >= 0x80;
    super::lemma_with_flag_sets(status, StatusFlag::C, register >= value);
    super::lemma_with_flag_keeps_others(first, StatusFlag::Z, register == value, StatusFlag::C);
    super::lemma_with_flag_keeps_others(second, StatusFlag::N, negative, StatusFlag::C);
    super::lemma_with_flag_sets(first, StatusFlag::Z, register == value);
    super::lemma_with_flag_keeps_others(second, StatusFlag::N, negative, StatusFlag::Z);
    super::lemma_with_flag_sets(second, StatusFlag::N, negative);
}

/// Set Interrupt Disable (SEI): sets the interrupt flag.
pub fn sei(registers: &mut Registers)
    ensures
        *final(registers) == flagged(*old(registers), StatusFlag::I, true),
{
    registers.set_flag(StatusFlag::I, true);
}

/// Clear Interrupt Disable (CLI): clears the interrupt flag.
pub fn cli(registers: &mut Registers)
    ensures
        *final(registers) == flagged(*old(registers), StatusFlag::I, false),
{
    registers.set_flag(StatusFlag::I, false);
}

/// Clear Decimal Mode (CLD): clears the decimal flag.
pub fn cld(registers: &mut Registers)
    ensures
        *final(registers) == flagged(*old(registers), StatusFlag::D, false),
{
    registers.set_flag(StatusFlag::D, false);
}

/// Load Accumulator (LDA): loads `operand` into the accumulator and
/// derives the zero and negative flags from it.
pub fn lda(registers: &mut Registers, operand: u8)
    ensures
        *final(registers) == loaded_accumulator(*old(registers), operand),
{
    registers.a = operand;
    registers.set_zero_negative(operand);
}

/// Force Interrupt (BRK): pushes the program counter and the status, then
/// loads the program counter from the vector at 0xFFFE and disables
/// interrupts.
pub fn brk(registers: &mut Registers, memory: &mut Memory)
    requires
        old(memory).wf(),
    ensures
        final(memory).wf(),
        *final(registers) == after_brk(*old(registers), old(memory)@).registers,
        final(memory)@ == after_brk(*old(registers), old(memory)@).memory,
{
    registers.pc = add_index(registers.pc, 1);
    let (low, high) = split_address(registers.pc);
    let vector_low = memory.read(0xFFFE);
    let vector_high = memory.read(0xFFFF);
    memory.stack_push(high);
    memory.stack_push(low);
    registers.set_flag(StatusFlag::B, true);
    registers.set_flag(StatusFlag::Unused, true);
    memory.stack_push(registers.status);
    registers.set_flag(StatusFlag::I, true);
    registers.pc = address_from_bytes(vector_low, vector_high);
}

/// Store Accumulator (STA): stores the accumulator at `addr`.
pub fn sta(registers: &mut Registers, memory: &mut Memory, addr: u16)
    requires
        old(memory).wf(),
    ensures
        final(memory).wf(),
        *final(registers) == *old(registers),
        final(memory)@ == stored(old(memory)@, addr, old(registers).a),
{
    memory.write(addr, registers.a);
}

/// Increment Memory (INC): adds one to the byte at `addr`, wrapping at the
/// 8-bit boundary, and derives the zero and negative flags from it.
pub fn inc(registers: &mut Registers, memory: &mut Memory, addr: u16)
    requires
        old(memory).wf(),
    ensures
        final(memory).wf(),
        *final(registers) == replaced_memory(
            *old(registers),
            old(memory)@,
            addr,
            incremented(byte_at(old(memory)@.memory, addr)),
        ).registers,
        final(memory)@ == replaced_memory(
            *old(registers),
            old(memory)@,
            addr,
            incremented(byte_at(old(memory)@.memory, addr)),
        ).memory,
{
    let operand = increment(memory.read(addr));
    memory.write(addr, operand);
    registers.set_zero_negative(operand);
}

/// Load X Register (LDX): loads the low byte of `addr` into the X register
/// and derives the zero and negative flags from it.
pub fn ldx(registers: &mut Registers, addr: u16)
    ensures
        *final(registers) == loaded_x(*old(registers), low_byte_of(addr)),
{
    let (operand, _) = split_address(addr);
    registers.x = operand;
    registers.set_zero_negative(operand);
}

/// Transfer X to Stack Pointer (TXS): the stack pointer takes the value of
/// the X register.
pub fn txs(registers: &mut Registers, memory: &mut Memory)
    ensures
        *final(registers) == *old(registers),
        final(memory)@ == (MemoryView { stack_pointer: old(registers).x as u16, ..old(memory)@ }),
        final(memory).wf() == old(memory).wf(),
{
    memory.stack_pointer = registers.x as u16;
}

/// Logical And (AND): the accumulator is combined bit by bit with `value`.
pub fn and(registers: &mut Registers, value: u8)
    ensures
        *final(registers) == loaded_accumulator(*old(registers), old(registers).a & value),
{
    registers.a = registers.a & value;
    registers.set_zero_negative(registers.a);
}

/// Logical And (AND) of the accumulator with itself: only the flags are
/// derived anew.
pub fn and_acc(registers: &mut Registers)
    ensures
        *final(registers) == loaded_accumulator(*old(registers), old(registers).a),
{
    registers.set_zero_negative(registers.a);
}

/// The address that a taken branch with operand `value` leads to.
pub fn branch_to(pc: u16, value: u16) -> (target: u16)
    ensures
        target == branch_target(pc, value),
{
    let back: u32 = if value >= 0x80 {
        0x10000 - 256
    } else {
        0
    };
    ((pc as u32 + 1 + value as u32 + back) % 0x10000) as u16
}

/// Branch If Equal (BEQ): branches when the zero flag is set.
#[must_use]
pub fn beq(registers: &mut Registers, value: u16) -> (taken: bool)
    ensures
        taken == flag_is_set(old(registers).status, StatusFlag::Z),
        *final(registers) == branched(*old(registers), taken, value),
{
    if registers.is_flag_set(StatusFlag::Z) {
        registers.pc = branch_to(registers.pc, value);
        true
    } else {
        false
    }
}

/// Compare X Register (CPX): compares the X register with `value`.
pub fn cpx(registers: &mut Registers, value: u8)
    ensures
        *final(registers) == compared(*old(registers), old(registers).x, value),
{
    let register = registers.x;
    compare(registers, register, value);
}

/// Decrement Y Register (DEY): subtracts one from the Y register, wrapping
/// at the 8-bit boundary.
pub fn dey(registers: &mut Registers)
    ensures
        *final(registers) == loaded_y(*old(registers), decremented(old(registers).y)),
{
    registers.y = decrement(registers.y);
    registers.set_zero_negative(registers.y);
}

/// Branch if Positive (BPL): branches when the negative flag is clear.
#[must_use]
pub fn bpl(registers: &mut Registers, value: u16) -> (taken: bool)
    ensures
        taken == !flag_is_set(old(registers).status, StatusFlag::N),
        *final(registers) == branched(*old(registers), taken, value),
{
    if !registers.is_flag_set(StatusFlag::N) {
        registers.pc = branch_to(registers.pc, value);
        true
    } else {
        false
    }
}

/// Pull Accumulator (PLA): pulls a byte from the stack into the
/// accumulator and derives the zero and negative flags from it.
pub fn pla(registers: &mut Registers, memory: &mut Memory)
    requires
        old(memory).wf(),
    ensures
        final(memory).wf(),
        *final(registers) == loaded_accumulator(*old(registers), stack_top(old(memory)@)),
        final(memory)@ == popped(old(memory)@),
{
    registers.a = memory.stack_pop();
    registers.set_zero_negative(registers.a);
}

/// Transfer Accumulator to Y (TAY): copies the accumulator into the Y
/// register.
pub fn tay(registers: &mut Registers)
    ensures
        *final(registers) == loaded_y(*old(registers), old(registers).a),
{
    registers.y = registers.a;
    registers.set_zero_negative(registers.a);
}

/// Compare Y Register (CPY): compares the Y register with `value`.
pub fn cpy(registers: &mut Registers, value: u8)
    ensures
        *final(registers) == compared(*old(registers), old(registers).y, value),
{
    let register = registers.y;
    compare(registers, register, value);
}

/// Branch if Not Equal (BNE): branches when the zero flag is clear.
#[must_use]
pub fn bne(registers: &mut Registers, value: u16) -> (taken: bool)
    ensures
        taken == !flag_is_set(old(registers).status, StatusFlag::Z),
        *final(registers) == branched(*old(registers), taken, value),
{
    if !registers.is_flag_set(StatusFlag::Z) {
        registers.pc = branch_to(registers.pc, value);
        true
    } else {
        false
    }
}

/// Return from Subroutine (RTS): pulls the program counter from the stack
/// and advances it by one.
pub fn rts(registers: &mut Registers, memory: &mut Memory)
    requires
        old(memory).wf(),
    ensures
        final(memory).wf(),
        *final(registers) == after_rts(*old(registers), old(memory)@).registers,
        final(memory)@ == after_rts(*old(registers), old(memory)@).memory,
{
    let low = memory.stack_pop();
    let high = memory.stack_pop();
    registers.pc = add_index(address_from_bytes(low, high), 1);
}

/// Jump (JMP): sets the program counter to `addr`.
pub fn jmp(registers: &mut Registers, addr: u16)
    ensures
        *final(registers) == (Registers { pc: addr, ..*old(registers) }),
{
    registers.pc = addr;
}

/// Store X Register (STX): stores the X register at `addr`.
pub fn stx(registers: &mut Registers, memory: &mut Memory, addr: u16)
    requires
        old(memory).wf(),
    ensures
        final(memory).wf(),
        *final(registers) == *old(registers),
        final(memory)@ == stored(old(memory)@, addr, old(registers).x),
{
    memory.write(addr, registers.x);
}

/// Jump to Subroutine (JSR): pushes the address of the last byte of the
/// instruction and sets the program counter to `addr`.
pub fn jsr(registers: &mut Registers, memory: &mut Memory, addr: u16)
    requires
        old(memory).wf(),
    ensures
        final(memory).wf(),
        *final(registers) == after_jsr(*old(registers), old(memory)@, addr).registers,
        final(memory)@ == after_jsr(*old(registers), old(memory)@, addr).memory,
{
    let (low, high) = split_address(add_index(registers.pc, 1));
    memory.stack_push(high);
    memory.stack_push(low);
    registers.pc = addr;
}

/// No Operation (NOP): changes nothing.
pub fn nop() {
}

/// Set Carry Flag (SEC): sets the carry flag.
pub fn sec(registers: &mut Registers)
    ensures
        *final(registers) == flagged(*old(registers), StatusFlag::C, true),
{
    registers.set_flag(StatusFlag::C, true);
}

/// Branch if Carry Set (BCS): branches when the carry flag is set.
#[must_use]
pub fn bcs(registers: &mut Registers, value: u16) -> (taken: bool)
    ensures
        taken == flag_is_set(old(registers).status, StatusFlag::C),
        *final(registers) == branched(*old(registers), taken, value),
{
    if registers.is_flag_set(StatusFlag::C) {
        registers.pc = branch_to(registers.pc, value);
        true
    } else {
        false
    }
}

/// Clear Carry Flag (CLC): clears the carry flag.
pub fn clc(registers: &mut Registers)
    ensures
        *final(registers) == flagged(*old(registers), StatusFlag::C, false),
{
    registers.set_flag(StatusFlag::C, false);
}

/// Branch if Carry Clear (BCC): branches when the carry flag is clear.
#[must_use]
pub fn bcc(registers: &mut Registers, value: u16) -> (taken: bool)
    ensures
        taken == !flag_is_set(old(registers).status, StatusFlag::C),
        *final(registers) == branched(*old(registers), taken, value),
{
    if !registers.is_flag_set(StatusFlag::C) {
        registers.pc = branch_to(registers.pc, value);
        true
    } else {
        false
    }
}

/// Push Processor Status (PHP): pushes the status with the break flag and
/// the unused bit set; the register itself keeps the unused bit.
pub fn php(registers: &mut Registers, memory: &mut Memory)
    requires
        old(memory).wf(),
    ensures
        final(memory).wf(),
        *final(registers) == after_php(*old(registers), old(memory)@).registers,
        final(memory)@ == after_php(*old(registers), old(memory)@).memory,
{
    registers.set_flag(StatusFlag::B, true);
    registers.set_flag(StatusFlag::Unused, true);
    memory.stack_push(registers.status);
    registers.set_flag(StatusFlag::B, false);
}

/// Bit Test (BIT): tests the accumulator against the byte at `addr`
/// without keeping the result; bits 7 and 6 of that byte go to the
/// negative and overflow flags.
pub fn bit(registers: &mut Registers, memory: &mut Memory, addr: u16)
    requires
        old(memory).wf(),
    ensures
        final(memory).wf(),
        final(memory)@ == old(memory)@,
        *final(registers) == (Registers {
            status: bit_status(
                old(registers).status,
                old(registers).a,
                byte_at(old(memory)@.memory, addr),
            ),
            ..*old(registers)
        }),
{
    let m = memory.read(addr);
    let test = registers.a & m;
    registers.set_flag(StatusFlag::Z, test == 0);
    let v = m & 0x40 == 0x40;
    registers.set_flag(StatusFlag::V, v);
    let n = m & 0x80 == 0x80;
    registers.set_flag(StatusFlag::N, n);
}

/// Branch if Overflow Set (BVS): branches when the overflow flag is set.
pub fn bvs(registers: &mut Registers, value: u16) -> (taken: bool)
    ensures
        taken == flag_is_set(old(registers).status, StatusFlag::V),
        *final(registers) == branched(*old(registers), taken, value),
{
    if registers.is_flag_set(StatusFlag::V) {
        registers.pc = branch_to(registers.pc, value);
        true
    } else {
        false
    }
}

/// Branch if Overflow Clear (BVC): branches when the overflow flag is clear.
pub fn bvc(registers: &mut Registers, value: u16) -> (taken: bool)
    ensures
        taken == !flag_is_set(old(registers).status, StatusFlag::V),
        *final(registers) == branched(*old(registers), taken, value),
{
    if !registers.is_flag_set(StatusFlag::V) {
        registers.pc = branch_to(registers.pc, value);
        true
    } else {
        false
    }
}

/// Load Y Register (LDY): loads `operand` into the Y register and derives
/// the zero and negative flags from it.
pub fn ldy(registers: &mut Registers, operand: u8)
    ensures
        *final(registers) == loaded_y(*old(registers), operand),
{
    registers.y = operand;
    registers.set_zero_negative(operand);
}

/// Shifts `value` one bit to the left; `carry_in` enters at bit 0.
pub fn shift_left(value: u8, carry_in: bool) -> (result: u8)
    ensures
        result == shifted_left(value, carry_in),
{
    let low: u16 = if carry_in {
        1
    } else {
        0
    };
    ((value as u16 * 2) % 256 + low) as u8
}

/// Shifts `value` one bit to the right; `carry_in` enters at bit 7.
pub fn shift_right(value: u8, carry_in: bool) -> (result: u8)
    ensures
        result == shifted_right(value, carry_in),
{
    let high: u8 = if carry_in {
        128
    } else {
        0
    };
    value / 2 + high
}

/// Arithmetic Shift Left (ASL) on memory: `val` is shifted one bit to the
/// left and stored at `addr`; bit 7 of `val` goes to the carry flag.
pub fn asl(registers: &mut Registers, memory: &mut Memory, addr: u16, val: u8)
    requires
        old(memory).wf(),
    ensures
        final(memory).wf(),
        *final(registers) == shifted_memory(
            *old(registers),
            old(memory)@,
            addr,
            shifted_left(val, false),
            val >= 0x80,
        ).registers,
        final(memory)@ == shifted_memory(
            *old(registers),
            old(memory)@,
            addr,
            shifted_left(val, false),
            val >= 0x80,
        ).memory,
{
    let m = shift_left(val, false);
    memory.write(addr, m);
    registers.set_flag(StatusFlag::C, val >= 0x80);
    registers.set_zero_negative(m);
}

/// Arithmetic Shift Left (ASL) on the accumulator: bit 7 goes to the carry
/// flag, bit 0 becomes 0.
pub fn asl_acc(registers: &mut Registers)
    ensures
        *final(registers) == shifted_accumulator(
            *old(registers),
            shifted_left(old(registers).a, false),
            old(registers).a >= 0x80,
        ),
{
    let carry = registers.a >= 0x80;
    registers.a = shift_left(registers.a, false);
    registers.set_flag(StatusFlag::C, carry);
    registers.set_zero_negative(registers.a);
}

/// Return from Interrupt (RTI): pulls the status, then the program
/// counter. The break flag and the unused bit keep their values.
pub fn rti(registers: &mut Registers, memory: &mut Memory)
    requires
        old(memory).wf(),
    ensures
        final(memory).wf(),
        *final(registers) == after_rti(*old(registers), old(memory)@).registers,
        final(memory)@ == after_rti(*old(registers), old(memory)@).memory,
{
    let status = memory.stack_pop();
    let pc_lsb = memory.stack_pop();
    let pc_msb = memory.stack_pop();
    let was_break = registers.is_flag_set(StatusFlag::B);
    let was_unused = registers.is_flag_set(StatusFlag::Unused);
    registers.status = status;
    registers.set_flag(StatusFlag::B, was_break);
    registers.set_flag(StatusFlag::Unused, was_unused);
    registers.pc = address_from_bytes(pc_lsb, pc_msb);
}

/// Subtract with Carry (SBC): subtracts `value` and the complement of the
/// carry from the accumulator, as an addition of the complemented operand.
pub fn sbc(registers: &mut Registers, value: u8)
    ensures
        *final(registers) == after_sbc(*old(registers), value),
{
    adc(registers, !value);
}

/// Set Decimal Flag (SED): sets the decimal flag.
pub fn sed(registers: &mut Registers)
    ensures
        *final(registers) == flagged(*old(registers), StatusFlag::D, true),
{
    registers.set_flag(StatusFlag::D, true);
}

/// Compares `register` with `value` and sets carry, zero and negative.
pub fn compare(registers: &mut Registers, register: u8, value: u8)
    ensures
        *final(registers) == compared(*old(registers), register, value),
{
    registers.set_flag(StatusFlag::C, register >= value);
    registers.set_flag(StatusFlag::Z, register == value);
    registers.set_flag(StatusFlag::N, subtract_wrapping(register, value) >= 0x80);
}

/// Compare (CMP): compares the accumulator with `value`.
pub fn cmp(registers: &mut Registers, value: u8)
    ensures
        *final(registers) == compared(*old(registers), old(registers).a, value),
{
    let register = registers.a;
    compare(registers, register, value);
}

/// Push Accumulator (PHA): pushes the accumulator on the stack.
pub fn pha(registers: &mut Registers, memory: &mut Memory)
    requires
        old(memory).wf(),
    ensures
        final(memory).wf(),
        *final(registers) == *old(registers),
        final(memory)@ == pushed(old(memory)@, old(registers).a),
{
    memory.stack_push(registers.a);
}

/// Pull Processor Status (PLP): pulls the status from the stack. The break
/// flag and the unused bit keep their values.
pub fn plp(registers: &mut Registers, memory: &mut Memory)
    requires
        old(memory).wf(),
    ensures
        final(memory).wf(),
        *final(registers) == (Registers {
            status: pulled_status(old(registers).status, stack_top(old(memory)@)),
            ..*old(registers)
        }),
        final(memory)@ == popped(old(memory)@),
{
    let was_break = registers.is_flag_set(StatusFlag::B);
    let was_unused = registers.is_flag_set(StatusFlag::Unused);
    registers.status = memory.stack_pop();
    registers.set_flag(StatusFlag::B, was_break);
    registers.set_flag(StatusFlag::Unused, was_unused);
}

/// Branch if Minus (BMI): branches when the negative flag is set.
#[must_use]
pub fn bmi(registers: &mut Registers, value: u16) -> (taken: bool)
    ensures
        taken == flag_is_set(old(registers).status, StatusFlag::N),
        *final(registers) == branched(*old(registers), taken, value),
{
    if registers.is_flag_set(StatusFlag::N) {
        registers.pc = branch_to(registers.pc, value);
        true
    } else {
        false
    }
}

/// Logical Inclusive OR (ORA): the accumulator is combined bit by bit with
/// `value`.
pub fn ora(registers: &mut Registers, value: u8)
    ensures
        *final(registers) == loaded_accumulator(*old(registers), old(registers).a | value),
{
    registers.a = registers.a | value;
    registers.set_zero_negative(registers.a);
}

/// Clear Overflow Flag (CLV): clears the overflow flag.
pub fn clv(registers: &mut Registers)
    ensures
        *final(registers) == flagged(*old(registers), StatusFlag::V, false),
{
    registers.set_flag(StatusFlag::V, false);
}

/// Exclusive OR (EOR): the accumulator is combined bit by bit with
/// `value`.
pub fn eor(registers: &mut Registers, value: u8)
    ensures
        *final(registers) == loaded_accumulator(*old(registers), old(registers).a ^ value),
{
    registers.a = registers.a ^ value;
    registers.set_zero_negative(registers.a);
}

/// Add with Carry (ADC): adds `value` and the carry to the accumulator.
/// The carry flag receives the ninth bit of the sum, the overflow flag
/// says that the signed sum left the 8-bit range.
pub fn adc(registers: &mut Registers, value: u8)
    ensures
        *final(registers) == after_adc(*old(registers), value),
{
    let carry: u16 = if registers.is_flag_set(StatusFlag::C) {
        1
    } else {
        0
    };
    let a = registers.a;
    let temp: u16 = a as u16 + value as u16 + carry;
    let result: u8 = (temp % 256) as u8;
    registers.a = result;
    registers.set_flag(StatusFlag::C, temp > 0xFF);
    registers.set_flag(StatusFlag::V, !(a ^ value) & (a ^ result) & 0x80 == 0x80);
    registers.set_zero_negative(result);
}

/// Store Y Register (STY): stores the Y register at `addr`.
pub fn sty(registers: &mut Registers, memory: &mut Memory, addr: u16)
    requires
        old(memory).wf(),
    ensures
        final(memory).wf(),
        *final(registers) == *old(registers),
        final(memory)@ == stored(old(memory)@, addr, old(registers).y),
{
    memory.write(addr, registers.y);
}

/// Increment Y Register (INY): adds one to the Y register, wrapping at
/// the 8-bit boundary.
pub fn iny(registers: &mut Registers)
    ensures
        *final(registers) == loaded_y(*old(registers), incremented(old(registers).y)),
{
    registers.y = increment(registers.y);
    registers.set_zero_negative(registers.y);
}

/// Increment X Register (INX): adds one to the X register, wrapping at
/// the 8-bit boundary.
pub fn inx(registers: &mut Registers)
    ensures
        *final(registers) == loaded_x(*old(registers), incremented(old(registers).x)),
{
    registers.x = increment(registers.x);
    registers.set_zero_negative(registers.x);
}

/// Transfer Accumulator to X (TAX): copies the accumulator into the X
/// register.
pub fn tax(registers: &mut Registers)
    ensures
        *final(registers) == loaded_x(*old(registers), old(registers).a),
{
    registers.x = registers.a;
    registers.set_zero_negative(registers.x);
}

/// Transfer Y to Accumulator (TYA): copies the Y register into the
/// accumulator.
pub fn tya(registers: &mut Registers)
    ensures
        *final(registers) == loaded_accumulator(*old(registers), old(registers).y),
{
    registers.a = registers.y;
    registers.set_zero_negative(registers.a);
}

/// Transfer X to Accumulator (TXA): copies the X register into the
/// accumulator.
pub fn txa(registers: &mut Registers)
    ensures
        *final(registers) == loaded_accumulator(*old(registers), old(registers).x),
{
    registers.a = registers.x;
    registers.set_zero_negative(registers.a);
}

/// Transfer Stack Pointer to X (TSX): copies the low byte of the stack
/// pointer into the X register.
pub fn tsx(registers: &mut Registers, memory: &mut Memory)
    ensures
        *final(registers) == loaded_x(*old(registers), low_byte_of(old(memory).stack_pointer)),
        *final(memory) == *old(memory),
{
    let (low, _) = split_address(memory.stack_pointer);
    registers.x = low;
    registers.set_zero_negative(low);
}

/// Decrement X Register (DEX): subtracts one from the X register, wrapping
/// at the 8-bit boundary.
pub fn dex(registers: &mut Registers)
    ensures
        *final(registers) == loaded_x(*old(registers), decremented(old(registers).x)),
{
    registers.x = decrement(registers.x);
    registers.set_zero_negative(registers.x);
}

/// Logical Shift Right (LSR) on memory: the byte at `addr` is shifted one
/// bit to the right; bit 0 goes to the carry flag, bit 7 becomes 0.
pub fn lsr(registers: &mut Registers, memory: &mut Memory, addr: u16)
    requires
        old(memory).wf(),
    ensures
        final(memory).wf(),
        *final(registers) == shifted_memory(
            *old(registers),
            old(memory)@,
            addr,
            shifted_right(byte_at(old(memory)@.memory, addr), false),
            byte_at(old(memory)@.memory, addr) % 2 == 1,
        ).registers,
        final(memory)@ == shifted_memory(
            *old(registers),
            old(memory)@,
            addr,
            shifted_right(byte_at(old(memory)@.memory, addr), false),
            byte_at(old(memory)@.memory, addr) % 2 == 1,
        ).memory,
{
    let m = memory.read(addr);
    let result = shift_right(m, false);
    memory.write(addr, result);
    registers.set_flag(StatusFlag::C, m % 2 == 1);
    registers.set_zero_negative(result);
}

/// Logical Shift Right (LSR) on the accumulator: bit 0 goes to the carry
/// flag, bit 7 becomes 0.
pub fn lsr_acc(registers: &mut Registers)
    ensures
        *final(registers) == shifted_accumulator(
            *old(registers),
            shifted_right(old(registers).a, false),
            old(registers).a % 2 == 1,
        ),
{
    let carry = registers.a % 2 == 1;
    registers.a = shift_right(registers.a, false);
    registers.set_flag(StatusFlag::C, carry);
    registers.set_zero_negative(registers.a);
}

/// Rotate Right (ROR) on memory: the byte at `addr` is shifted one bit to
/// the right; the carry flag enters at bit 7 and receives bit 0.
pub fn ror(registers: &mut Registers, memory: &mut Memory, addr: u16)
    requires
        old(memory).wf(),
    ensures
        final(memory).wf(),
        *final(registers) == shifted_memory(
            *old(registers),
            old(memory)@,
            addr,
            shifted_right(byte_at(old(memory)@.memory, addr), flag_is_set(old(registers).status, StatusFlag::C)),
            byte_at(old(memory)@.memory, addr) % 2 == 1,
        ).registers,
        final(memory)@ == shifted_memory(
            *old(registers),
            old(memory)@,
            addr,
            shifted_right(byte_at(old(memory)@.memory, addr), flag_is_set(old(registers).status, StatusFlag::C)),
            byte_at(old(memory)@.memory, addr) % 2 == 1,
        ).memory,
{
    let m = memory.read(addr);
    let result = shift_right(m, registers.is_flag_set(StatusFlag::C));
    memory.write(addr, result);
    registers.set_flag(StatusFlag::C, m % 2 == 1);
    registers.set_zero_negative(result);
}

/// Rotate Right (ROR) on the accumulator: the carry flag enters at bit 7
/// and receives bit 0.
pub fn ror_acc(registers: &mut Registers)
    ensures
        *final(registers) == shifted_accumulator(
            *old(registers),
            shifted_right(old(registers).a, flag_is_set(old(registers).status, StatusFlag::C)),
            old(registers).a % 2 == 1,
        ),
{
    let carry = registers.a % 2 == 1;
    registers.a = shift_right(registers.a, registers.is_flag_set(StatusFlag::C));
    registers.set_flag(StatusFlag::C, carry);
    registers.set_zero_negative(registers.a);
}

/// Rotate Left (ROL) on memory: `value` is shifted one bit to the left and
/// stored at `addr`; the carry flag enters at bit 0 and receives bit 7.
pub fn rol(registers: &mut Registers, memory: &mut Memory, addr: u16, value: u8)
    requires
        old(memory).wf(),
    ensures
        final(memory).wf(),
        *final(registers) == shifted_memory(
            *old(registers),
            old(memory)@,
            addr,
            shifted_left(value, flag_is_set(old(registers).status, StatusFlag::C)),
            value >= 0x80,
        ).registers,
        final(memory)@ == shifted_memory(
            *old(registers),
            old(memory)@,
            addr,
            shifted_left(value, flag_is_set(old(registers).status, StatusFlag::C)),
            value >= 0x80,
        ).memory,
{
    let result = shift_left(value, registers.is_flag_set(StatusFlag::C));
    memory.write(addr, result);
    registers.set_flag(StatusFlag::C, value >= 0x80);
    registers.set_zero_negative(result);
}

/// Rotate Left (ROL) on the accumulator: the carry flag enters at bit 0
/// and receives bit 7.
pub fn rol_acc(registers: &mut Registers)
    ensures
        *final(registers) == shifted_accumulator(
            *old(registers),
            shifted_left(old(registers).a, flag_is_set(old(registers).status, StatusFlag::C)),
            old(registers).a >= 0x80,
        ),
{
    let carry = registers.a >= 0x80;
    registers.a = shift_left(registers.a, registers.is_flag_set(StatusFlag::C));
    registers.set_flag(StatusFlag::C, carry);
    registers.set_zero_negative(registers.a);
}

/// Decrement Memory (DEC): subtracts one from the byte at `addr`, wrapping
/// at the 8-bit boundary, and derives the zero and negative flags from it.
pub fn dec(registers: &mut Registers, memory: &mut Memory, addr: u16)
    requires
        old(memory).wf(),
    ensures
        final(memory).wf(),
        *final(registers) == replaced_memory(
            *old(registers),
            old(memory)@,
            addr,
            decremented(byte_at(old(memory)@.memory, addr)),
        ).registers,
        final(memory)@ == replaced_memory(
            *old(registers),
            old(memory)@,
            addr,
            decremented(byte_at(old(memory)@.memory, addr)),
        ).memory,
{
    let operand = decrement(memory.read(addr));
    memory.write(addr, operand);
    registers.set_zero_negative(operand);
}

/// The value that a byte stands for as a signed number.
pub open spec fn signed(value: u8) -> int {
    if value >= 0x80 {
        value as int - 256
    } else {
        value as int
    }
}

proof fn lemma_sign_bits(a: u8, m: u8, result: u8)
    by (bit_vector)
    ensures
        (!(a ^ m) & (a ^ result) & 0x80 == 0x80) == (((a >= 0x80) == (m >= 0x80)) && ((a >= 0x80)
            != (result >= 0x80))),
        !m == 255 - m,
{
}

/// Whenever an instruction produces the value `value` by a load, a
/// transfer, an increment or a decrement, the zero flag says that the
/// value is 0 and the negative flag that it is at least 0x80.
pub proof fn lemma_result_flags(r: Registers, m: MemoryView, addr: u16, value: u8)
    ensures
        flag_is_set(loaded_accumulator(r, value).status, StatusFlag::Z) == (value == 0),
        flag_is_set(loaded_accumulator(r, value).status, StatusFlag::N) == (value >= 0x80),
        flag_is_set(loaded_x(r, value).status, StatusFlag::Z) == (value == 0),
        flag_is_set(loaded_x(r, value).status, StatusFlag::N) == (value >= 0x80),
        flag_is_set(loaded_y(r, value).status, StatusFlag::Z) == (value == 0),
        flag_is_set(loaded_y(r, value).status, StatusFlag::N) == (value >= 0x80),
        flag_is_set(replaced_memory(r, m, addr, value).registers.status, StatusFlag::Z) == (value
            == 0),
        flag_is_set(replaced_memory(r, m, addr, value).registers.status, StatusFlag::N) == (value
            >= 0x80),
{
    super::lemma_zero_negative_flags(r.status, value);
}

/// An addition with carry is an addition: the accumulator receives the low
/// eight bits of the sum, the carry flag says that the sum did not fit in
/// eight bits, the overflow flag that the sum of the operands as signed
/// numbers left the range from -128 to 127, and the zero and negative flags
/// describe the new accumulator.
pub proof fn lemma_adc_flags(r: Registers, value: u8)
    ensures
        after_adc(r, value).a as int == adc_sum(r, value) % 256,
        flag_is_set(after_adc(r, value).status, StatusFlag::C) == (adc_sum(r, value) > 0xFF),
        flag_is_set(after_adc(r, value).status, StatusFlag::V) == !(-128 <= signed(r.a) + signed(
            value,
        ) + (adc_sum(r, value) - r.a - value) <= 127),
        flag_is_set(after_adc(r, value).status, StatusFlag::Z) == (after_adc(r, value).a == 0),
        flag_is_set(after_adc(r, value).status, StatusFlag::N) == (after_adc(r, value).a >= 0x80),
{
    let sum = adc_sum(r, value);
    let result = (sum % 256) as u8;
    let carried = with_flag(r.status, StatusFlag::C, sum > 0xFF);
    let overflowed = with_flag(carried, StatusFlag::V, adc_overflows(r.a, value, result));
    lemma_sign_bits(r.a, value, result);
    super::lemma_with_flag_sets(r.status, StatusFlag::C, sum > 0xFF);
    super::lemma_with_flag_keeps_others(
        carried,
        StatusFlag::V,
        adc_overflows(r.a, value, result),
        StatusFlag::C,
    );
    super::lemma_with_flag_sets(carried, StatusFlag::V, adc_overflows(r.a, value, result));
    super::lemma_zero_negative_flags(overflowed, result);
}

/// A subtraction with borrow is a subtraction: the accumulator receives
/// the low eight bits of the difference of accumulator, operand and
/// borrow, where the borrow is the complement of the carry; the carry flag
/// afterwards says that no borrow was needed.
pub proof fn lemma_sbc_subtracts(r: Registers, value: u8)
    ensures
        after_sbc(r, value).a as int == (r.a - value - if flag_is_set(r.status, StatusFlag::C) {
            0int
        } else {
            1int
        }) % 256,
        flag_is_set(after_sbc(r, value).status, StatusFlag::C) == (r.a - value - if flag_is_set(
            r.status,
            StatusFlag::C,
        ) {
            0int
        } else {
            1int
        } >= 0),
{
    lemma_sign_bits(r.a, value, 0);
    lemma_adc_flags(r, !value);
}

/// A branch that is not taken leaves the registers alone; one that is
/// taken changes the program counter only, by its signed displacement
/// from the address behind the operand.
pub proof fn lemma_branch_moves(r: Registers, taken: bool, value: u8)
    ensures
        !taken ==> branched(r, taken, value as u16) == r,
        taken ==> branched(r, taken, value as u16) == (Registers {
            pc: ((r.pc + 1 + signed(value)) % 0x10000) as u16,
            ..r
        }),
{
}

/// A return undoes a call: after a jump to a subroutine and a return from
/// it the program counter stands behind the calling instruction, the stack
/// pointer is where it was, and nothing but the stack has changed.
pub proof fn lemma_call_and_return(r: Registers, m: MemoryView, addr: u16)
    requires
        m.memory.len() == 0x10000,
    ensures
        ({
            let called = after_jsr(r, m, addr);
            let returned = after_rts(called.registers, called.memory);
            &&& called.registers.pc == addr
            &&& returned.registers == (Registers { pc: indexed(r.pc, 2), ..r })
            &&& returned.memory.stack_pointer == m.stack_pointer
            &&& returned.memory.memory == called.memory.memory
        }),
{
    let return_to = indexed(r.pc, 1);
    let first = pushed(m, high_byte_of(return_to));
    super::lemma_pop_after_push(first, low_byte_of(return_to));
    super::lemma_pop_after_push(m, high_byte_of(return_to));
    assert(spec_address_from_bytes(low_byte_of(return_to), high_byte_of(return_to)) == return_to);
}

/// A pull undoes a push: after the accumulator has been pushed and pulled
/// again it holds what it held, and the stack pointer is where it was.
pub proof fn lemma_push_and_pull(r: Registers, m: MemoryView)
    requires
        m.memory.len() == 0x10000,
    ensures
        stack_top(pushed(m, r.a)) == r.a,
        popped(pushed(m, r.a)).stack_pointer == m.stack_pointer,
        loaded_accumulator(r, stack_top(pushed(m, r.a))).a == r.a,
{
}

/// A return from an interrupt undoes a software interrupt: the program
/// counter stands two bytes behind the opcode of the interrupt, the stack
/// pointer is where it was, and every flag but the break flag and the
/// unused bit is as it was before the interrupt.
#[verifier::rlimit(40)]
pub proof fn lemma_interrupt_and_return(r: Registers, m: MemoryView)
    requires
        m.memory.len() == 0x10000,
    ensures
        ({
            let interrupted = after_brk(r, m);
            let returned = after_rti(interrupted.registers, interrupted.memory);
            &&& flag_is_set(interrupted.registers.status, StatusFlag::I)
            &&& returned.registers.pc == indexed(r.pc, 1)
            &&& returned.memory.stack_pointer == m.stack_pointer
            &&& forall|flag: StatusFlag|
                flag != StatusFlag::B && flag != StatusFlag::Unused ==> flag_is_set(
                    returned.registers.status,
                    flag,
                ) == flag_is_set(r.status, flag)
        }),
{
    let return_to = indexed(r.pc, 1);
    let status = pushed_status(r.status);
    let first = pushed(m, high_byte_of(return_to));
    let second = pushed(first, low_byte_of(return_to));
    let third = pushed(second, status);
    super::lemma_pop_after_push(second, status);
    super::lemma_pop_after_push(first, low_byte_of(return_to));
    super::lemma_pop_after_push(m, high_byte_of(return_to));
    assert(stack_top(third) == status);
    assert(popped(third).stack_pointer == second.stack_pointer);
    assert(stack_top(popped(third)) == low_byte_of(return_to));
    assert(stack_top(popped(popped(third))) == high_byte_of(return_to));
    assert(spec_address_from_bytes(low_byte_of(return_to), high_byte_of(return_to)) == return_to);
    super::lemma_with_flag_sets(status, StatusFlag::I, true);
    lemma_pushed_status(r.status);
    lemma_pulled_status(after_brk(r, m).registers.status, status);
}

} // verus!
