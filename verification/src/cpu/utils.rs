//! Address arithmetic, operand fetch, address resolution and cycle costs.

use vstd::prelude::*;
use super::instructions::{decode, Instruction, InstructionName};
use super::{AddressingMode, Memory, Registers};

verus! {

/// The address of the non-maskable interrupt vector.
pub const NMI_VECTOR_ADDRESS: u32 = 0xFFFA;

/// The address of the reset vector.
pub const RESET_VECTOR_ADDRESS: u32 = 0xFFFC;

/// The address of the break vector.
pub const BREAK_VECTOR_ADDDRESS: u32 = 0xFFFE;

/// The 16-bit address whose low byte is `low_byte` and whose high byte is
/// `high_byte`.
pub open spec fn spec_address_from_bytes(low_byte: u8, high_byte: u8) -> u16 {
    (high_byte as int * 256 + low_byte as int) as u16
}

/// Combines a low and a high byte into a 16-bit address.
#[verifier::when_used_as_spec(spec_address_from_bytes)]
pub fn address_from_bytes(low_byte: u8, high_byte: u8) -> (addr: u16)
    ensures
        addr == spec_address_from_bytes(low_byte, high_byte),
        addr as int == high_byte as int * 256 + low_byte as int,
{
    high_byte as u16 * 256 + low_byte as u16
}

/// The two bytes that follow the opcode at `pc`; the addresses wrap at the
/// end of the address space.
pub open spec fn operands_at(memory: Seq<u8>, pc: u16) -> (u8, u8) {
    (memory[(pc as int + 1) % 0x10000], memory[(pc as int + 2) % 0x10000])
}

/// Reads the two bytes that follow the opcode at the program counter,
/// whether or not the instruction uses them.
pub fn get_operands(registers: &Registers, memory: &Memory) -> (operands: (u8, u8))
    requires
        memory.wf(),
    ensures
        operands == operands_at(memory.memory@, registers.pc),
{
    let low = memory.read(add_index(registers.pc, 1));
    let high = memory.read(add_index(registers.pc, 2));
    (low, high)
}

/// Whether two addresses lie on different 256-byte pages.
pub open spec fn spec_is_page_crossed(addr1: u16, addr2: u16) -> bool {
    addr1 as int / 256 != addr2 as int / 256
}

/// Tests whether `addr1` and `addr2` are on different pages.
#[verifier::when_used_as_spec(spec_is_page_crossed)]
pub fn is_page_crossed(addr1: u16, addr2: u16) -> (crossed: bool)
    ensures
        crossed == spec_is_page_crossed(addr1, addr2),
{
    addr1 / 256 != addr2 / 256
}

/// The sum of an address and an index register, wrapped to 16 bits.
pub open spec fn indexed(base: u16, index: u8) -> u16 {
    ((base as int + index as int) % 0x10000) as u16
}

/// The sum of a zero-page address and an index register, wrapped to 8 bits
/// so that it stays inside the zero page.
pub open spec fn zero_page_indexed(base: u8, index: u8) -> u8 {
    ((base as int + index as int) % 256) as u8
}

/// Adds an index register to an address; the sum wraps at 16 bits.
pub fn add_index(base: u16, index: u8) -> (addr: u16)
    ensures
        addr == indexed(base, index),
{
    ((base as u32 + index as u32) % 0x10000) as u16
}

/// Adds an index register to a zero-page address; the sum wraps at 8 bits.
pub fn zero_page_add(base: u8, index: u8) -> (addr: u8)
    ensures
        addr == zero_page_indexed(base, index),
{
    ((base as u16 + index as u16) % 256) as u8
}

/// The 16-bit pointer stored in the zero page at `at` and at the byte after
/// it, where "after" wraps from 0xFF to 0x00.
pub open spec fn zero_page_pointer(memory: Seq<u8>, at: u8) -> u16 {
    spec_address_from_bytes(memory[at as int], memory[zero_page_indexed(at, 1) as int])
}

/// The target of an indirect jump through the pointer at `low_byte`,
/// `high_byte`. The high byte of the target is fetched from the same page
/// as the low byte: after 0x..FF comes 0x..00 of that page, not the next.
pub open spec fn indirect_target(memory: Seq<u8>, low_byte: u8, high_byte: u8) -> u16 {
    spec_address_from_bytes(
        memory[spec_address_from_bytes(low_byte, high_byte) as int],
        memory[spec_address_from_bytes(zero_page_indexed(low_byte, 1), high_byte) as int],
    )
}

/// The operand address that `mode` yields for the operand bytes `low_byte`
/// and `high_byte`, the index registers `x` and `y` and the memory
/// contents `memory`.
///
/// Accumulator and implied instructions have no address. For an immediate
/// or relative operand the result is the operand byte itself.
pub open spec fn resolve(
    memory: Seq<u8>,
    x: u8,
    y: u8,
    mode: AddressingMode,
    low_byte: u8,
    high_byte: u8,
) -> Option<u16> {
    match mode {
        AddressingMode::Accumulator => None,
        AddressingMode::Implied => None,
        AddressingMode::Immediate => Some(low_byte as u16),
        AddressingMode::Absolute => Some(spec_address_from_bytes(low_byte, high_byte)),
        AddressingMode::ZeroPage => Some(low_byte as u16),
        AddressingMode::Relative => Some(low_byte as u16),
        AddressingMode::AbsoluteIndirect => Some(indirect_target(memory, low_byte, high_byte)),
        AddressingMode::AbsoluteIndirectWithX => Some(
            indexed(spec_address_from_bytes(low_byte, high_byte), x),
        ),
        AddressingMode::AbsoluteIndirectWithY => Some(
            indexed(spec_address_from_bytes(low_byte, high_byte), y),
        ),
        AddressingMode::ZeroPageIndexedWithX => Some(zero_page_indexed(low_byte, x) as u16),
        AddressingMode::ZeroPageIndexedWithY => Some(zero_page_indexed(low_byte, y) as u16),
        AddressingMode::ZeroPageIndexedIndirect => Some(
            zero_page_pointer(memory, zero_page_indexed(low_byte, x)),
        ),
        AddressingMode::ZeroPageIndirectIndexedWithY => Some(
            indexed(zero_page_pointer(memory, low_byte), y),
        ),
    }
}

/// Applies the rules of an addressing mode to the operand bytes and gives
/// the 16-bit result, or `None` where the mode has no operand address.
pub fn apply_addressing(
    memory: &Memory,
    registers: &Registers,
    adressing_mode: AddressingMode,
    low_byte: u8,
    high_byte: u8,
) -> (addr: Option<u16>)
    requires
        memory.wf(),
    ensures
        addr == resolve(
            memory.memory@,
            registers.x,
            registers.y,
            adressing_mode,
            low_byte,
            high_byte,
        ),
{
    match adressing_mode {
        AddressingMode::Accumulator => None,
        AddressingMode::Implied => None,
        AddressingMode::Immediate => Some(low_byte as u16),
        AddressingMode::Absolute => Some(address_from_bytes(low_byte, high_byte)),
        AddressingMode::ZeroPage => Some(low_byte as u16),
        AddressingMode::Relative => Some(low_byte as u16),
        AddressingMode::AbsoluteIndirect => {
            let addr = address_from_bytes(low_byte, high_byte);
            let addr2 = address_from_bytes(zero_page_add(low_byte, 1), high_byte);
            Some(address_from_bytes(memory.read(addr), memory.read(addr2)))
        },
        AddressingMode::AbsoluteIndirectWithX => {
            let tmp = address_from_bytes(low_byte, high_byte);
            Some(add_index(tmp, registers.x))
        },
        AddressingMode::AbsoluteIndirectWithY => {
            let tmp = address_from_bytes(low_byte, high_byte);
            Some(add_index(tmp, registers.y))
        },
        AddressingMode::ZeroPageIndexedWithX => Some(zero_page_add(low_byte, registers.x) as u16),
        AddressingMode::ZeroPageIndexedWithY => Some(zero_page_add(low_byte, registers.y) as u16),
        AddressingMode::ZeroPageIndexedIndirect => {
            let base = zero_page_add(low_byte, registers.x);
            let low = memory.read(base as u16);
            let high = memory.read(zero_page_add(base, 1) as u16);
            Some(address_from_bytes(low, high))
        },
        AddressingMode::ZeroPageIndirectIndexedWithY => {
            let low = memory.read(low_byte as u16);
            let high = memory.read(zero_page_add(low_byte, 1) as u16);
            Some(add_index(address_from_bytes(low, high), registers.y))
        },
    }
}

/// An address formed by indexing inside the zero page never leaves it.
pub proof fn lemma_zero_page_wraps(low_byte: u8, index: u8)
    ensures
        zero_page_indexed(low_byte, index) as int <= 0xFF,
        low_byte as int + index as int >= 0x100 ==> zero_page_indexed(low_byte, index) as int
            == low_byte as int + index as int - 0x100,
{
}

/// The number of operand bytes that follow the opcode in `mode`.
pub open spec fn operand_count(mode: AddressingMode) -> u8 {
    match mode {
        AddressingMode::Accumulator | AddressingMode::Implied => 0,
        AddressingMode::Absolute
        | AddressingMode::AbsoluteIndirect
        | AddressingMode::AbsoluteIndirectWithX
        | AddressingMode::AbsoluteIndirectWithY => 2,
        _ => 1,
    }
}

/// The number of operand bytes that follow the opcode in the given mode.
pub fn num_operands_from_addressing(adressing_mode: &AddressingMode) -> (count: u8)
    ensures
        count == operand_count(*adressing_mode),
{
    match adressing_mode {
        AddressingMode::Accumulator => 0,
        AddressingMode::Implied => 0,
        AddressingMode::Immediate => 1,
        AddressingMode::Absolute => 2,
        AddressingMode::ZeroPage => 1,
        AddressingMode::Relative => 1,
        AddressingMode::AbsoluteIndirect => 2,
        AddressingMode::AbsoluteIndirectWithX => 2,
        AddressingMode::AbsoluteIndirectWithY => 2,
        AddressingMode::ZeroPageIndexedWithX => 1,
        AddressingMode::ZeroPageIndexedWithY => 1,
        AddressingMode::ZeroPageIndexedIndirect => 1,
        AddressingMode::ZeroPageIndirectIndexedWithY => 1,
    }
}

/// Instructions that read their operand and keep the result in a register
/// or in the flags. They share one timing.
pub open spec fn reads_operand(name: InstructionName) -> bool {
    match name {
        InstructionName::LDA
        | InstructionName::LDX
        | InstructionName::LDY
        | InstructionName::AND
        | InstructionName::ORA
        | InstructionName::EOR
        | InstructionName::ADC
        | InstructionName::SBC
        | InstructionName::CMP
        | InstructionName::CPX
        | InstructionName::CPY
        | InstructionName::BIT
        | InstructionName::LAX
        | InstructionName::NOP => true,
        _ => false,
    }
}

/// Instructions that store a register into memory.
pub open spec fn stores_register(name: InstructionName) -> bool {
    match name {
        InstructionName::STA
        | InstructionName::STX
        | InstructionName::STY
        | InstructionName::SAX => true,
        _ => false,
    }
}

/// Instructions that read a byte, change it and write it back.
pub open spec fn modifies_operand(name: InstructionName) -> bool {
    match name {
        InstructionName::ASL
        | InstructionName::LSR
        | InstructionName::ROL
        | InstructionName::ROR
        | InstructionName::INC
        | InstructionName::DEC
        | InstructionName::DCP
        | InstructionName::ISB
        | InstructionName::SLO
        | InstructionName::RLA
        | InstructionName::SRE
        | InstructionName::RRA => true,
        _ => false,
    }
}

/// The eight conditional branches.
pub open spec fn is_branch(name: InstructionName) -> bool {
    match name {
        InstructionName::BEQ
        | InstructionName::BNE
        | InstructionName::BCS
        | InstructionName::BCC
        | InstructionName::BPL
        | InstructionName::BMI
        | InstructionName::BVS
        | InstructionName::BVC => true,
        _ => false,
    }
}

/// The modes in which the cost table knows the instruction `name`.
pub open spec fn supports(name: InstructionName, mode: AddressingMode) -> bool {
    match name {
        InstructionName::LDA
        | InstructionName::AND
        | InstructionName::ORA
        | InstructionName::EOR
        | InstructionName::ADC
        | InstructionName::SBC
        | InstructionName::CMP => match mode {
            AddressingMode::Immediate
            | AddressingMode::ZeroPage
            | AddressingMode::ZeroPageIndexedWithX
            | AddressingMode::Absolute
            | AddressingMode::AbsoluteIndirectWithX
            | AddressingMode::AbsoluteIndirectWithY
            | AddressingMode::ZeroPageIndexedIndirect
            | AddressingMode::ZeroPageIndirectIndexedWithY => true,
            _ => false,
        },
        InstructionName::STA => match mode {
            AddressingMode::ZeroPage
            | AddressingMode::ZeroPageIndexedWithX
            | AddressingMode::Absolute
            | AddressingMode::AbsoluteIndirectWithX
            | AddressingMode::AbsoluteIndirectWithY
            | AddressingMode::ZeroPageIndexedIndirect
            | AddressingMode::ZeroPageIndirectIndexedWithY => true,
            _ => false,
        },
        InstructionName::LDX => match mode {
            AddressingMode::Immediate
            | AddressingMode::ZeroPage
            | AddressingMode::ZeroPageIndexedWithY
            | AddressingMode::Absolute
            | AddressingMode::AbsoluteIndirectWithY => true,
            _ => false,
        },
        InstructionName::LDY => match mode {
            AddressingMode::Immediate
            | AddressingMode::ZeroPage
            | AddressingMode::ZeroPageIndexedWithX
            | AddressingMode::Absolute
            | AddressingMode::AbsoluteIndirectWithX => true,
            _ => false,
        },
        InstructionName::STX => match mode {
            AddressingMode::ZeroPage
            | AddressingMode::ZeroPageIndexedWithY
            | AddressingMode::Absolute => true,
            _ => false,
        },
        InstructionName::STY => match mode {
            AddressingMode::ZeroPage
            | AddressingMode::ZeroPageIndexedWithX
            | AddressingMode::Absolute => true,
            _ => false,
        },
        InstructionName::CPX | InstructionName::CPY => match mode {
            AddressingMode::Immediate | AddressingMode::ZeroPage | AddressingMode::Absolute => true,
            _ => false,
        },
        InstructionName::BIT => match mode {
            AddressingMode::ZeroPage | AddressingMode::Absolute => true,
            _ => false,
        },
        InstructionName::ASL
        | InstructionName::LSR
        | InstructionName::ROL
        | InstructionName::ROR => match mode {
            AddressingMode::Accumulator
            | AddressingMode::ZeroPage
            | AddressingMode::ZeroPageIndexedWithX
            | AddressingMode::Absolute
            | AddressingMode::AbsoluteIndirectWithX => true,
            _ => false,
        },
        InstructionName::INC | InstructionName::DEC => match mode {
            AddressingMode::ZeroPage
            | AddressingMode::ZeroPageIndexedWithX
            | AddressingMode::Absolute
            | AddressingMode::AbsoluteIndirectWithX => true,
            _ => false,
        },
        InstructionName::DCP
        | InstructionName::ISB
        | InstructionName::SLO
        | InstructionName::RLA
        | InstructionName::SRE
        | InstructionName::RRA => match mode {
            AddressingMode::ZeroPage
            | AddressingMode::ZeroPageIndexedWithX
            | AddressingMode::Absolute
            | AddressingMode::AbsoluteIndirectWithX
            | AddressingMode::AbsoluteIndirectWithY
            | AddressingMode::ZeroPageIndexedIndirect
            | AddressingMode::ZeroPageIndirectIndexedWithY => true,
            _ => false,
        },
        InstructionName::LAX => match mode {
            AddressingMode::Immediate
            | AddressingMode::ZeroPage
            | AddressingMode::ZeroPageIndexedWithY
            | AddressingMode::Absolute
            | AddressingMode::AbsoluteIndirectWithY
            | AddressingMode::ZeroPageIndexedIndirect
            | AddressingMode::ZeroPageIndirectIndexedWithY => true,
            _ => false,
        },
        InstructionName::SAX => match mode {
            AddressingMode::ZeroPage
            | AddressingMode::ZeroPageIndexedWithY
            | AddressingMode::Absolute
            | AddressingMode::ZeroPageIndexedIndirect
            | AddressingMode::ZeroPageIndirectIndexedWithY => true,
            _ => false,
        },
        InstructionName::NOP => match mode {
            AddressingMode::Implied
            | AddressingMode::Immediate
            | AddressingMode::ZeroPage
            | AddressingMode::ZeroPageIndexedWithX
            | AddressingMode::Absolute
            | AddressingMode::AbsoluteIndirectWithX => true,
            _ => false,
        },
        InstructionName::JMP => match mode {
            AddressingMode::Absolute | AddressingMode::AbsoluteIndirect => true,
            _ => false,
        },
        InstructionName::JSR => mode == AddressingMode::Absolute,
        InstructionName::BEQ
        | InstructionName::BNE
        | InstructionName::BCS
        | InstructionName::BCC
        | InstructionName::BPL
        | InstructionName::BMI
        | InstructionName::BVS
        | InstructionName::BVC => mode == AddressingMode::Relative,
        _ => mode == AddressingMode::Implied,
    }
}

/// The cycles of an instruction that reads its operand, by mode.
pub open spec fn read_cycles(mode: AddressingMode) -> int {
    match mode {
        AddressingMode::Immediate => 2,
        AddressingMode::ZeroPage => 3,
        AddressingMode::ZeroPageIndexedIndirect => 6,
        AddressingMode::ZeroPageIndirectIndexedWithY => 5,
        AddressingMode::Accumulator | AddressingMode::Implied => 2,
        _ => 4,
    }
}

/// The cycles of an instruction that stores a register, by mode.
pub open spec fn store_cycles(mode: AddressingMode) -> int {
    match mode {
        AddressingMode::ZeroPage => 3,
        AddressingMode::ZeroPageIndexedWithX
        | AddressingMode::ZeroPageIndexedWithY
        | AddressingMode::Absolute => 4,
        AddressingMode::AbsoluteIndirectWithX | AddressingMode::AbsoluteIndirectWithY => 5,
        _ => 6,
    }
}

/// The cycles of an instruction that modifies its operand in place, by
/// mode: two more than a store to the same place, and two for the
/// accumulator.
pub open spec fn modify_cycles(mode: AddressingMode) -> int {
    match mode {
        AddressingMode::Accumulator => 2,
        _ => store_cycles(mode) + 2,
    }
}

/// The cycles of an instruction without operand.
pub open spec fn implied_cycles(name: InstructionName) -> int {
    match name {
        InstructionName::BRK => 7,
        InstructionName::RTS | InstructionName::RTI => 6,
        InstructionName::PLA | InstructionName::PLP => 4,
        InstructionName::PHA | InstructionName::PHP => 3,
        _ => 2,
    }
}

/// The cycles that `name` takes in `mode` before any penalty, where the
/// cost table knows the pair.
pub open spec fn base_cycles(name: InstructionName, mode: AddressingMode) -> Option<int> {
    if !supports(name, mode) {
        None
    } else if is_branch(name) {
        Some(2)
    } else if name == InstructionName::JMP {
        Some(
            if mode == AddressingMode::Absolute {
                3
            } else {
                5
            },
        )
    } else if name == InstructionName::JSR {
        Some(6)
    } else if reads_operand(name) {
        Some(read_cycles(mode))
    } else if stores_register(name) {
        Some(store_cycles(mode))
    } else if modifies_operand(name) {
        Some(modify_cycles(mode))
    } else {
        Some(implied_cycles(name))
    }
}

/// Whether `name` in `mode` takes one more cycle when indexing crosses a
/// page: the reading instructions, in the modes that add an index register
/// to a 16-bit address (and the zero-page,X form of NOP).
pub open spec fn pays_for_page_cross(name: InstructionName, mode: AddressingMode) -> bool {
    reads_operand(name) && match mode {
        AddressingMode::AbsoluteIndirectWithX
        | AddressingMode::AbsoluteIndirectWithY
        | AddressingMode::ZeroPageIndirectIndexedWithY => true,
        AddressingMode::ZeroPageIndexedWithX => name == InstructionName::NOP,
        _ => false,
    }
}

/// The cycles that one execution of `name` in `mode` takes, or `None`
/// where the cost table does not know the pair.
///
/// A branch that is not taken takes its base cost, a taken one a cycle
/// more, and a taken one that crosses a page two more.
pub open spec fn cycles(
    name: InstructionName,
    mode: AddressingMode,
    page_crossed: bool,
    branches: bool,
) -> Option<int> {
    match base_cycles(name, mode) {
        None => None,
        Some(base) => Some(
            if is_branch(name) {
                if !branches {
                    base
                } else if page_crossed {
                    base + 2
                } else {
                    base + 1
                }
            } else if page_crossed && pays_for_page_cross(name, mode) {
                base + 1
            } else {
                base
            },
        ),
    }
}

/// Looks the cost of an instruction up, or says that the table has none.
pub fn lookup_cycles(
    instruction: InstructionName,
    addressing_mode: AddressingMode,
    page_crossed: bool,
    branches: bool,
) -> (cost: Option<u8>)
    ensures
        match cost {
            Some(c) => cycles(instruction, addressing_mode, page_crossed, branches) == Some(
                c as int,
            ),
            None => cycles(instruction, addressing_mode, page_crossed, branches).is_none(),
        },
{
    let page_cross: u8 = if page_crossed {
        1
    } else {
        0
    };
    let taken: u8 = if branches {
        if page_crossed {
            2
        } else {
            1
        }
    } else {
        0
    };
    match (instruction, addressing_mode) {
        (InstructionName::SEI, AddressingMode::Implied) => Some(2),
        (InstructionName::CLD, AddressingMode::Implied) => Some(2),
        (InstructionName::LDA, AddressingMode::Immediate) => Some(2),
        (InstructionName::LDA, AddressingMode::Absolute) => Some(4),
        (InstructionName::LDA, AddressingMode::ZeroPage) => Some(3),
        (InstructionName::LDA, AddressingMode::AbsoluteIndirectWithX) => Some(4 + page_cross),
        (InstructionName::LDA, AddressingMode::AbsoluteIndirectWithY) => Some(4 + page_cross),
        (InstructionName::LDA, AddressingMode::ZeroPageIndexedWithX) => Some(4),
        (InstructionName::LDA, AddressingMode::ZeroPageIndexedIndirect) => Some(6),
        (InstructionName::LDA, AddressingMode::ZeroPageIndirectIndexedWithY) => Some(5 + page_cross),
        (InstructionName::BRK, AddressingMode::Implied) => Some(7),
        (InstructionName::STA, AddressingMode::Absolute) => Some(4),
        (InstructionName::STA, AddressingMode::ZeroPage) => Some(3),
        (InstructionName::STA, AddressingMode::AbsoluteIndirectWithX) => Some(5),
        (InstructionName::STA, AddressingMode::AbsoluteIndirectWithY) => Some(5),
        (InstructionName::STA, AddressingMode::ZeroPageIndexedWithX) => Some(4),
        (InstructionName::STA, AddressingMode::ZeroPageIndexedIndirect) => Some(6),
        (InstructionName::STA, AddressingMode::ZeroPageIndirectIndexedWithY) => Some(6),
        (InstructionName::INC, AddressingMode::Absolute) => Some(6),
        (InstructionName::INC, AddressingMode::ZeroPage) => Some(5),
        (InstructionName::INC, AddressingMode::AbsoluteIndirectWithX) => Some(7),
        (InstructionName::INC, AddressingMode::ZeroPageIndexedWithX) => Some(6),
        (InstructionName::LDX, AddressingMode::Immediate) => Some(2),
        (InstructionName::LDX, AddressingMode::Absolute) => Some(4),
        (InstructionName::LDX, AddressingMode::ZeroPage) => Some(3),
        (InstructionName::LDX, AddressingMode::AbsoluteIndirectWithY) => Some(4 + page_cross),
        (InstructionName::LDX, AddressingMode::ZeroPageIndexedWithY) => Some(4),
        (InstructionName::TXS, AddressingMode::Implied) => Some(2),
        (InstructionName::AND, AddressingMode::Immediate) => Some(2),
        (InstructionName::AND, AddressingMode::Absolute) => Some(4),
        (InstructionName::AND, AddressingMode::ZeroPage) => Some(3),
        (InstructionName::AND, AddressingMode::AbsoluteIndirectWithX) => Some(4 + page_cross),
        (InstructionName::AND, AddressingMode::AbsoluteIndirectWithY) => Some(4 + page_cross),
        (InstructionName::AND, AddressingMode::ZeroPageIndexedWithX) => Some(4),
        (InstructionName::AND, AddressingMode::ZeroPageIndexedIndirect) => Some(6),
        (InstructionName::AND, AddressingMode::ZeroPageIndirectIndexedWithY) => Some(5 + page_cross),
        (InstructionName::BEQ, AddressingMode::Relative) => Some(2 + taken),
        (InstructionName::CPX, AddressingMode::Immediate) => Some(2),
        (InstructionName::CPX, AddressingMode::Absolute) => Some(4),
        (InstructionName::CPX, AddressingMode::ZeroPage) => Some(3),
        (InstructionName::DEY, AddressingMode::Implied) => Some(2),
        (InstructionName::BPL, AddressingMode::Relative) => Some(2 + taken),
        (InstructionName::PLA, AddressingMode::Implied) => Some(4),
        (InstructionName::TAY, AddressingMode::Implied) => Some(2),
        (InstructionName::CPY, AddressingMode::Immediate) => Some(2),
        (InstructionName::CPY, AddressingMode::Absolute) => Some(4),
        (InstructionName::CPY, AddressingMode::ZeroPage) => Some(3),
        (InstructionName::BNE, AddressingMode::Relative) => Some(2 + taken),
        (InstructionName::RTS, AddressingMode::Implied) => Some(6),
        (InstructionName::JMP, AddressingMode::Absolute) => Some(3),
        (InstructionName::JMP, AddressingMode::AbsoluteIndirect) => Some(5),
        (InstructionName::STX, AddressingMode::Absolute) => Some(4),
        (InstructionName::STX, AddressingMode::ZeroPage) => Some(3),
        (InstructionName::STX, AddressingMode::ZeroPageIndexedWithY) => Some(4),
        (InstructionName::JSR, AddressingMode::Absolute) => Some(6),
        (InstructionName::NOP, AddressingMode::Implied) => Some(2),
        (InstructionName::NOP, AddressingMode::Immediate) => Some(2),
        (InstructionName::NOP, AddressingMode::Absolute) => Some(4),
        (InstructionName::NOP, AddressingMode::AbsoluteIndirectWithX) => Some(4 + page_cross),
        (InstructionName::NOP, AddressingMode::ZeroPage) => Some(3),
        (InstructionName::NOP, AddressingMode::ZeroPageIndexedWithX) => Some(4 + page_cross),
        (InstructionName::SEC, AddressingMode::Implied) => Some(2),
        (InstructionName::BCS, AddressingMode::Relative) => Some(2 + taken),
        (InstructionName::CLC, AddressingMode::Implied) => Some(2),
        (InstructionName::CLI, AddressingMode::Implied) => Some(2),
        (InstructionName::BCC, AddressingMode::Relative) => Some(2 + taken),
        (InstructionName::PHP, AddressingMode::Implied) => Some(3),
        (InstructionName::BIT, AddressingMode::Absolute) => Some(4),
        (InstructionName::BIT, AddressingMode::ZeroPage) => Some(3),
        (InstructionName::BVS, AddressingMode::Relative) => Some(2 + taken),
        (InstructionName::BVC, AddressingMode::Relative) => Some(2 + taken),
        (InstructionName::LDY, AddressingMode::Immediate) => Some(2),
        (InstructionName::LDY, AddressingMode::Absolute) => Some(4),
        (InstructionName::LDY, AddressingMode::ZeroPage) => Some(3),
        (InstructionName::LDY, AddressingMode::AbsoluteIndirectWithX) => Some(4 + page_cross),
        (InstructionName::LDY, AddressingMode::ZeroPageIndexedWithX) => Some(4),
        (InstructionName::ASL, AddressingMode::Accumulator) => Some(2),
        (InstructionName::ASL, AddressingMode::Absolute) => Some(6),
        (InstructionName::ASL, AddressingMode::ZeroPage) => Some(5),
        (InstructionName::ASL, AddressingMode::AbsoluteIndirectWithX) => Some(7),
        (InstructionName::ASL, AddressingMode::ZeroPageIndexedWithX) => Some(6),
        (InstructionName::RTI, AddressingMode::Implied) => Some(6),
        (InstructionName::SBC, AddressingMode::Immediate) => Some(2),
        (InstructionName::SBC, AddressingMode::Absolute) => Some(4),
        (InstructionName::SBC, AddressingMode::ZeroPage) => Some(3),
        (InstructionName::SBC, AddressingMode::AbsoluteIndirectWithX) => Some(4 + page_cross),
        (InstructionName::SBC, AddressingMode::AbsoluteIndirectWithY) => Some(4 + page_cross),
        (InstructionName::SBC, AddressingMode::ZeroPageIndexedWithX) => Some(4),
        (InstructionName::SBC, AddressingMode::ZeroPageIndexedIndirect) => Some(6),
        (InstructionName::SBC, AddressingMode::ZeroPageIndirectIndexedWithY) => Some(5 + page_cross),
        (InstructionName::SED, AddressingMode::Implied) => Some(2),
        (InstructionName::CMP, AddressingMode::Immediate) => Some(2),
        (InstructionName::CMP, AddressingMode::Absolute) => Some(4),
        (InstructionName::CMP, AddressingMode::ZeroPage) => Some(3),
        (InstructionName::CMP, AddressingMode::AbsoluteIndirectWithX) => Some(4 + page_cross),
        (InstructionName::CMP, AddressingMode::AbsoluteIndirectWithY) => Some(4 + page_cross),
        (InstructionName::CMP, AddressingMode::ZeroPageIndexedWithX) => Some(4),
        (InstructionName::CMP, AddressingMode::ZeroPageIndexedIndirect) => Some(6),
        (InstructionName::CMP, AddressingMode::ZeroPageIndirectIndexedWithY) => Some(5 + page_cross),
        (InstructionName::PHA, AddressingMode::Implied) => Some(3),
        (InstructionName::PLP, AddressingMode::Implied) => Some(4),
        (InstructionName::BMI, AddressingMode::Relative) => Some(2 + taken),
        (InstructionName::ORA, AddressingMode::Immediate) => Some(2),
        (InstructionName::ORA, AddressingMode::Absolute) => Some(4),
        (InstructionName::ORA, AddressingMode::ZeroPage) => Some(3),
        (InstructionName::ORA, AddressingMode::AbsoluteIndirectWithX) => Some(4 + page_cross),
        (InstructionName::ORA, AddressingMode::AbsoluteIndirectWithY) => Some(4 + page_cross),
        (InstructionName::ORA, AddressingMode::ZeroPageIndexedWithX) => Some(4),
        (InstructionName::ORA, AddressingMode::ZeroPageIndexedIndirect) => Some(6),
        (InstructionName::ORA, AddressingMode::ZeroPageIndirectIndexedWithY) => Some(5 + page_cross),
        (InstructionName::CLV, AddressingMode::Implied) => Some(2),
        (InstructionName::EOR, AddressingMode::Immediate) => Some(2),
        (InstructionName::EOR, AddressingMode::Absolute) => Some(4),
        (InstructionName::EOR, AddressingMode::ZeroPage) => Some(3),
        (InstructionName::EOR, AddressingMode::AbsoluteIndirectWithX) => Some(4 + page_cross),
        (InstructionName::EOR, AddressingMode::AbsoluteIndirectWithY) => Some(4 + page_cross),
        (InstructionName::EOR, AddressingMode::ZeroPageIndexedWithX) => Some(4),
        (InstructionName::EOR, AddressingMode::ZeroPageIndexedIndirect) => Some(6),
        (InstructionName::EOR, AddressingMode::ZeroPageIndirectIndexedWithY) => Some(5 + page_cross),
        (InstructionName::ADC, AddressingMode::Immediate) => Some(2),
        (InstructionName::ADC, AddressingMode::Absolute) => Some(4),
        (InstructionName::ADC, AddressingMode::ZeroPage) => Some(3),
        (InstructionName::ADC, AddressingMode::AbsoluteIndirectWithX) => Some(4 + page_cross),
        (InstructionName::ADC, AddressingMode::AbsoluteIndirectWithY) => Some(4 + page_cross),
        (InstructionName::ADC, AddressingMode::ZeroPageIndexedWithX) => Some(4),
        (InstructionName::ADC, AddressingMode::ZeroPageIndexedIndirect) => Some(6),
        (InstructionName::ADC, AddressingMode::ZeroPageIndirectIndexedWithY) => Some(5 + page_cross),
        (InstructionName::STY, AddressingMode::Absolute) => Some(4),
        (InstructionName::STY, AddressingMode::ZeroPage) => Some(3),
        (InstructionName::STY, AddressingMode::ZeroPageIndexedWithX) => Some(4),
        (InstructionName::INY, AddressingMode::Implied) => Some(2),
        (InstructionName::INX, AddressingMode::Implied) => Some(2),
        (InstructionName::TAX, AddressingMode::Implied) => Some(2),
        (InstructionName::TYA, AddressingMode::Implied) => Some(2),
        (InstructionName::TXA, AddressingMode::Implied) => Some(2),
        (InstructionName::TSX, AddressingMode::Implied) => Some(2),
        (InstructionName::DEX, AddressingMode::Implied) => Some(2),
        (InstructionName::LSR, AddressingMode::Accumulator) => Some(2),
        (InstructionName::LSR, AddressingMode::Absolute) => Some(6),
        (InstructionName::LSR, AddressingMode::ZeroPage) => Some(5),
        (InstructionName::LSR, AddressingMode::AbsoluteIndirectWithX) => Some(7),
        (InstructionName::LSR, AddressingMode::ZeroPageIndexedWithX) => Some(6),
        (InstructionName::ROR, AddressingMode::Accumulator) => Some(2),
        (InstructionName::ROR, AddressingMode::Absolute) => Some(6),
        (InstructionName::ROR, AddressingMode::ZeroPage) => Some(5),
        (InstructionName::ROR, AddressingMode::AbsoluteIndirectWithX) => Some(7),
        (InstructionName::ROR, AddressingMode::ZeroPageIndexedWithX) => Some(6),
        (InstructionName::ROL, AddressingMode::Accumulator) => Some(2),
        (InstructionName::ROL, AddressingMode::Absolute) => Some(6),
        (InstructionName::ROL, AddressingMode::ZeroPage) => Some(5),
        (InstructionName::ROL, AddressingMode::AbsoluteIndirectWithX) => Some(7),
        (InstructionName::ROL, AddressingMode::ZeroPageIndexedWithX) => Some(6),
        (InstructionName::DEC, AddressingMode::Absolute) => Some(6),
        (InstructionName::DEC, AddressingMode::ZeroPage) => Some(5),
        (InstructionName::DEC, AddressingMode::AbsoluteIndirectWithX) => Some(7),
        (InstructionName::DEC, AddressingMode::ZeroPageIndexedWithX) => Some(6),
        (InstructionName::LAX, AddressingMode::Immediate) => Some(2),
        (InstructionName::LAX, AddressingMode::Absolute) => Some(4),
        (InstructionName::LAX, AddressingMode::ZeroPage) => Some(3),
        (InstructionName::LAX, AddressingMode::AbsoluteIndirectWithY) => Some(4 + page_cross),
        (InstructionName::LAX, AddressingMode::ZeroPageIndexedWithY) => Some(4),
        (InstructionName::LAX, AddressingMode::ZeroPageIndexedIndirect) => Some(6),
        (InstructionName::LAX, AddressingMode::ZeroPageIndirectIndexedWithY) => Some(5 + page_cross),
        (InstructionName::SAX, AddressingMode::Absolute) => Some(4),
        (InstructionName::SAX, AddressingMode::ZeroPage) => Some(3),
        (InstructionName::SAX, AddressingMode::ZeroPageIndexedWithY) => Some(4),
        (InstructionName::SAX, AddressingMode::ZeroPageIndexedIndirect) => Some(6),
        (InstructionName::SAX, AddressingMode::ZeroPageIndirectIndexedWithY) => Some(6),
        (InstructionName::DCP, AddressingMode::Absolute) => Some(6),
        (InstructionName::DCP, AddressingMode::ZeroPage) => Some(5),
        (InstructionName::DCP, AddressingMode::AbsoluteIndirectWithX) => Some(7),
        (InstructionName::DCP, AddressingMode::AbsoluteIndirectWithY) => Some(7),
        (InstructionName::DCP, AddressingMode::ZeroPageIndexedWithX) => Some(6),
        (InstructionName::DCP, AddressingMode::ZeroPageIndexedIndirect) => Some(8),
        (InstructionName::DCP, AddressingMode::ZeroPageIndirectIndexedWithY) => Some(8),
        (InstructionName::ISB, AddressingMode::Absolute) => Some(6),
        (InstructionName::ISB, AddressingMode::ZeroPage) => Some(5),
        (InstructionName::ISB, AddressingMode::AbsoluteIndirectWithX) => Some(7),
        (InstructionName::ISB, AddressingMode::AbsoluteIndirectWithY) => Some(7),
        (InstructionName::ISB, AddressingMode::ZeroPageIndexedWithX) => Some(6),
        (InstructionName::ISB, AddressingMode::ZeroPageIndexedIndirect) => Some(8),
        (InstructionName::ISB, AddressingMode::ZeroPageIndirectIndexedWithY) => Some(8),
        (InstructionName::SLO, AddressingMode::Absolute) => Some(6),
        (InstructionName::SLO, AddressingMode::ZeroPage) => Some(5),
        (InstructionName::SLO, AddressingMode::AbsoluteIndirectWithX) => Some(7),
        (InstructionName::SLO, AddressingMode::AbsoluteIndirectWithY) => Some(7),
        (InstructionName::SLO, AddressingMode::ZeroPageIndexedWithX) => Some(6),
        (InstructionName::SLO, AddressingMode::ZeroPageIndexedIndirect) => Some(8),
        (InstructionName::SLO, AddressingMode::ZeroPageIndirectIndexedWithY) => Some(8),
        (InstructionName::RLA, AddressingMode::Absolute) => Some(6),
        (InstructionName::RLA, AddressingMode::ZeroPage) => Some(5),
        (InstructionName::RLA, AddressingMode::AbsoluteIndirectWithX) => Some(7),
        (InstructionName::RLA, AddressingMode::AbsoluteIndirectWithY) => Some(7),
        (InstructionName::RLA, AddressingMode::ZeroPageIndexedWithX) => Some(6),
        (InstructionName::RLA, AddressingMode::ZeroPageIndexedIndirect) => Some(8),
        (InstructionName::RLA, AddressingMode::ZeroPageIndirectIndexedWithY) => Some(8),
        (InstructionName::SRE, AddressingMode::Absolute) => Some(6),
        (InstructionName::SRE, AddressingMode::ZeroPage) => Some(5),
        (InstructionName::SRE, AddressingMode::AbsoluteIndirectWithX) => Some(7),
        (InstructionName::SRE, AddressingMode::AbsoluteIndirectWithY) => Some(7),
        (InstructionName::SRE, AddressingMode::ZeroPageIndexedWithX) => Some(6),
        (InstructionName::SRE, AddressingMode::ZeroPageIndexedIndirect) => Some(8),
        (InstructionName::SRE, AddressingMode::ZeroPageIndirectIndexedWithY) => Some(8),
        (InstructionName::RRA, AddressingMode::Absolute) => Some(6),
        (InstructionName::RRA, AddressingMode::ZeroPage) => Some(5),
        (InstructionName::RRA, AddressingMode::AbsoluteIndirectWithX) => Some(7),
        (InstructionName::RRA, AddressingMode::AbsoluteIndirectWithY) => Some(7),
        (InstructionName::RRA, AddressingMode::ZeroPageIndexedWithX) => Some(6),
        (InstructionName::RRA, AddressingMode::ZeroPageIndexedIndirect) => Some(8),
        (InstructionName::RRA, AddressingMode::ZeroPageIndirectIndexedWithY) => Some(8),
        _ => None,
    }
}

/// The number of cycles that one execution of `instruction` in
/// `addressing_mode` takes.
pub fn get_cycles(
    instruction: InstructionName,
    addressing_mode: AddressingMode,
    page_crossed: bool,
    branches: bool,
) -> (cost: u8)
    requires
        supports(instruction, addressing_mode),
    ensures
        cycles(instruction, addressing_mode, page_crossed, branches) == Some(cost as int),
        2 <= cost <= 8,
{
    match lookup_cycles(instruction, addressing_mode, page_crossed, branches) {
        Some(cost) => cost,
        None => 2,
    }
}

/// Every opcode that decodes to an instruction has a cost, except 0x89,
/// the immediate form of BIT.
pub proof fn lemma_decoded_instructions_have_cost(opcode: u8)
    requires
        opcode != 0x89,
    ensures
        match decode(opcode) {
            Instruction::Official(name, mode) => supports(name, mode),
            Instruction::Unofficial(name, mode) => supports(name, mode),
            Instruction::Unknown => true,
        },
{
}

/// A page crossing costs a reading instruction one cycle and no other
/// instruction anything; a branch pays one cycle for being taken and one
/// more for crossing a page then. No instruction takes fewer than two or
/// more than eight cycles.
pub proof fn lemma_cycle_penalties(
    name: InstructionName,
    mode: AddressingMode,
    page_crossed: bool,
    branches: bool,
)
    requires
        supports(name, mode),
    ensures
        ({
            let base = base_cycles(name, mode).unwrap();
            let cost = cycles(name, mode, page_crossed, branches).unwrap();
            &&& 2 <= base <= cost <= 8
            &&& cost <= base + 2
            &&& cost == base + 2 ==> is_branch(name) && branches && page_crossed
            &&& !is_branch(name) && !reads_operand(name) ==> cost == base
            &&& cycles(name, mode, false, false) == Some(base)
        }),
{
}

} // verus!
