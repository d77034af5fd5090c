//! The machine: processor, memories and the loop that executes one
//! instruction at a time.

use vstd::prelude::*;
use crate::cpu::instructions::{
    adc, after_adc, after_brk, after_jsr, after_php, after_rti, after_rts, after_sbc, and,
    and_acc, asl, asl_acc, bcc, bcs, beq, bit, bit_status, bmi, bne, bpl, branch_target,
    branch_to, branched, brk, bvc, bvs, clc, cld, cli, clv, cmp, compared, cpx, cpy, dec, decode,
    dex, dey, eor, flagged, inc, inx, iny, jmp, jsr, lda, ldx, ldy, loaded_accumulator,
    loaded_x, loaded_y, lsr, lsr_acc, match_instruction, nop, ora, pha, php, pla, plp,
    pulled_status, replaced_memory, rol, rol_acc, ror, ror_acc, rti, rts, sbc, sec, sed, sei,
    shifted_accumulator, shifted_left, shifted_memory, shifted_right, sta, stx, sty, tax, tay,
    tsx, txa, txs, tya, Instruction, InstructionName,
};
use crate::cpu::utils::{
    add_index, address_from_bytes, apply_addressing, cycles, get_cycles, get_operands, indexed,
    is_page_crossed, lookup_cycles, zero_page_add, num_operands_from_addressing, operand_count, operands_at,
    resolve, spec_address_from_bytes, spec_is_page_crossed, zero_page_indexed,
    zero_page_pointer,
};
use crate::cpu::{
    byte_at, decremented, flag_is_set, incremented, low_byte_of, popped, pushed, split_address,
    stack_top, stored, AddressingMode, CpuState, Memory, MemoryView, StatusFlag,
};
use crate::cpu;
use crate::nes_rom::mappers::{
    first_bank_offset, last_bank_offset, load_rom, loadable, overlaid, pattern_offset,
};
use crate::nes_rom::RomFile;
use crate::ppu::{self, Ctrl, Mask, Status};
use crate::text::{
    align_left, align_right, decimal, decimal_text, hex_byte, hex_byte_text, hex_word,
    hex_word_text, left_aligned, mnemonic, mnemonic_text, right_aligned,
};
use vstd::string::StringExecFns;

verus! {

/// The whole machine.
pub struct Nessy {
    pub memory: Memory,
    pub registers: cpu::Registers,
    pub ppu_registers: ppu::Registers,
    pub ppu_memory: ppu::Memory,
    pub reset_vector: u16,
    pub cycle: usize,
    pub ppu_cycle: usize,
    pub frames: usize,
}

/// Why an instruction could not be executed. The state of the machine is
/// then as it was.
#[derive(Debug, Clone, Copy, PartialEq, Eq, Structural)]
pub enum ExecuteError {
    /// The byte at the program counter stands for no instruction.
    UnknownOpcode { opcode: u8, pc: u16 },
    /// The byte at the program counter stands for an instruction in a mode
    /// for which no cycle count is known.
    UntimedOpcode { opcode: u8, pc: u16 },
}

/// The address that an access to `addr` reaches. The 2 KiB of system
/// memory repeat up to 0x1FFF, the eight registers of the picture
/// processing unit repeat from 0x2000 up to 0x3FFF.
pub open spec fn mirrored(addr: u16) -> u16 {
    if addr < 0x2000 {
        (addr % 0x0800) as u16
    } else if addr < 0x4000 {
        (0x2000 + addr % 8) as u16
    } else {
        addr
    }
}

/// Applies the mirroring of the address space to `addr`.
pub fn mirror_address(addr: u16) -> (mirror: u16)
    ensures
        mirror == mirrored(addr),
{
    if addr < 0x2000 {
        addr % 0x0800
    } else if addr < 0x4000 {
        0x2000 + addr % 8
    } else {
        addr
    }
}

/// The operand that an instruction works on: in immediate mode the operand
/// byte itself, which `addr` then holds, else the byte at `addr`.
pub open spec fn operand_value(memory: Seq<u8>, mode: AddressingMode, addr: u16) -> u8 {
    if mode == AddressingMode::Immediate {
        low_byte_of(addr)
    } else {
        byte_at(memory, addr)
    }
}

/// Fetches the operand that an instruction works on.
pub fn read_operand(memory: &Memory, mode: AddressingMode, addr: u16) -> (data: u8)
    requires
        memory.wf(),
    ensures
        data == operand_value(memory.memory@, mode, addr),
{
    if mode == AddressingMode::Immediate {
        split_address(addr).0
    } else {
        memory.read(addr)
    }
}

/// Whether the branch `name` is taken under the flags `status`. False for
/// every instruction that is no branch.
pub open spec fn branch_taken(name: InstructionName, status: u8) -> bool {
    match name {
        InstructionName::BEQ => flag_is_set(status, StatusFlag::Z),
        InstructionName::BNE => !flag_is_set(status, StatusFlag::Z),
        InstructionName::BCS => flag_is_set(status, StatusFlag::C),
        InstructionName::BCC => !flag_is_set(status, StatusFlag::C),
        InstructionName::BMI => flag_is_set(status, StatusFlag::N),
        InstructionName::BPL => !flag_is_set(status, StatusFlag::N),
        InstructionName::BVS => flag_is_set(status, StatusFlag::V),
        InstructionName::BVC => !flag_is_set(status, StatusFlag::V),
        _ => false,
    }
}

/// Whether the instruction sets the program counter itself, so that the
/// loop must not move it past the operands.
pub open spec fn sets_program_counter(name: InstructionName, status: u8) -> bool {
    match name {
        InstructionName::BRK
        | InstructionName::RTS
        | InstructionName::JMP
        | InstructionName::JSR => true,
        _ => branch_taken(name, status),
    }
}

/// A state with the registers `r` and the memory `m`.
pub open spec fn state(r: cpu::Registers, m: MemoryView) -> CpuState {
    CpuState { registers: r, memory: m }
}

/// What the instruction `name` does in `mode` to the registers `r` and the
/// memory `m`, before the program counter is moved past the operands.
///
/// `addr` is the operand address after mirroring, `target` the one before;
/// only jumps use the latter. The program counter in `r` points behind the
/// opcode.
pub open spec fn performed(
    name: InstructionName,
    mode: AddressingMode,
    r: cpu::Registers,
    m: MemoryView,
    addr: u16,
    target: u16,
) -> CpuState {
    let data = operand_value(m.memory, mode, addr);
    let at = byte_at(m.memory, addr);
    let carry = flag_is_set(r.status, StatusFlag::C);
    let in_accumulator = mode == AddressingMode::Accumulator;
    match name {
        InstructionName::SEI => state(flagged(r, StatusFlag::I, true), m),
        InstructionName::CLI => state(flagged(r, StatusFlag::I, false), m),
        InstructionName::CLD => state(flagged(r, StatusFlag::D, false), m),
        InstructionName::SED => state(flagged(r, StatusFlag::D, true), m),
        InstructionName::SEC => state(flagged(r, StatusFlag::C, true), m),
        InstructionName::CLC => state(flagged(r, StatusFlag::C, false), m),
        InstructionName::CLV => state(flagged(r, StatusFlag::V, false), m),
        InstructionName::NOP => state(r, m),
        InstructionName::LDA => state(loaded_accumulator(r, data), m),
        InstructionName::LDX => state(loaded_x(r, data), m),
        InstructionName::LDY => state(loaded_y(r, data), m),
        InstructionName::LAX => state(loaded_x(loaded_accumulator(r, data), data), m),
        InstructionName::AND => state(
            loaded_accumulator(
                r,
                if in_accumulator {
                    r.a
                } else {
                    r.a & data
                },
            ),
            m,
        ),
        InstructionName::ORA => state(loaded_accumulator(r, r.a | data), m),
        InstructionName::EOR => state(loaded_accumulator(r, r.a ^ data), m),
        InstructionName::ADC => state(after_adc(r, data), m),
        InstructionName::SBC => state(after_sbc(r, data), m),
        InstructionName::CMP => state(compared(r, r.a, data), m),
        InstructionName::CPX => state(compared(r, r.x, data), m),
        InstructionName::CPY => state(compared(r, r.y, data), m),
        InstructionName::BIT => state(
            cpu::Registers { status: bit_status(r.status, r.a, at), ..r },
            m,
        ),
        InstructionName::TAX => state(loaded_x(r, r.a), m),
        InstructionName::TAY => state(loaded_y(r, r.a), m),
        InstructionName::TXA => state(loaded_accumulator(r, r.x), m),
        InstructionName::TYA => state(loaded_accumulator(r, r.y), m),
        InstructionName::TSX => state(loaded_x(r, low_byte_of(m.stack_pointer)), m),
        InstructionName::TXS => state(r, MemoryView { stack_pointer: r.x as u16, ..m }),
        InstructionName::INX => state(loaded_x(r, incremented(r.x)), m),
        InstructionName::INY => state(loaded_y(r, incremented(r.y)), m),
        InstructionName::DEX => state(loaded_x(r, decremented(r.x)), m),
        InstructionName::DEY => state(loaded_y(r, decremented(r.y)), m),
        InstructionName::INC => replaced_memory(r, m, addr, incremented(at)),
        InstructionName::DEC => replaced_memory(r, m, addr, decremented(at)),
        InstructionName::ASL => if in_accumulator {
            state(shifted_accumulator(r, shifted_left(r.a, false), r.a >= 0x80), m)
        } else {
            shifted_memory(r, m, addr, shifted_left(at, false), at >= 0x80)
        },
        InstructionName::ROL => if in_accumulator {
            state(shifted_accumulator(r, shifted_left(r.a, carry), r.a >= 0x80), m)
        } else {
            shifted_memory(r, m, addr, shifted_left(at, carry), at >= 0x80)
        },
        InstructionName::LSR => if in_accumulator {
            state(shifted_accumulator(r, shifted_right(r.a, false), r.a % 2 == 1), m)
        } else {
            shifted_memory(r, m, addr, shifted_right(at, false), at % 2 == 1)
        },
        InstructionName::ROR => if in_accumulator {
            state(shifted_accumulator(r, shifted_right(r.a, carry), r.a % 2 == 1), m)
        } else {
            shifted_memory(r, m, addr, shifted_right(at, carry), at % 2 == 1)
        },
        InstructionName::STA => state(r, stored(m, addr, r.a)),
        InstructionName::STX => state(r, stored(m, addr, r.x)),
        InstructionName::STY => state(r, stored(m, addr, r.y)),
        InstructionName::SAX => state(r, stored(m, addr, r.a & r.x)),
        InstructionName::PHA => state(r, pushed(m, r.a)),
        InstructionName::PLA => state(loaded_accumulator(r, stack_top(m)), popped(m)),
        InstructionName::PHP => after_php(r, m),
        InstructionName::PLP => state(
            cpu::Registers { status: pulled_status(r.status, stack_top(m)), ..r },
            popped(m),
        ),
        InstructionName::JMP => state(cpu::Registers { pc: target, ..r }, m),
        InstructionName::JSR => after_jsr(r, m, target),
        InstructionName::RTS => after_rts(r, m),
        InstructionName::RTI => after_rti(r, m),
        InstructionName::BRK => after_brk(r, m),
        InstructionName::BEQ
        | InstructionName::BNE
        | InstructionName::BCS
        | InstructionName::BCC
        | InstructionName::BMI
        | InstructionName::BPL
        | InstructionName::BVS
        | InstructionName::BVC => state(branched(r, branch_taken(name, r.status), addr), m),
        InstructionName::DCP => {
            let first = replaced_memory(r, m, addr, decremented(at));
            state(
                compared(first.registers, r.a, byte_at(first.memory.memory, addr)),
                first.memory,
            )
        },
        InstructionName::ISB => {
            let first = replaced_memory(r, m, addr, incremented(at));
            state(after_sbc(first.registers, byte_at(first.memory.memory, addr)), first.memory)
        },
        InstructionName::SLO => {
            let first = shifted_memory(r, m, addr, shifted_left(at, false), at >= 0x80);
            state(
                loaded_accumulator(first.registers, r.a | byte_at(first.memory.memory, addr)),
                first.memory,
            )
        },
        InstructionName::RLA => {
            let first = shifted_memory(r, m, addr, shifted_left(at, carry), at >= 0x80);
            state(
                loaded_accumulator(first.registers, r.a & byte_at(first.memory.memory, addr)),
                first.memory,
            )
        },
        InstructionName::SRE => {
            let first = shifted_memory(r, m, addr, shifted_right(at, false), at % 2 == 1);
            state(
                loaded_accumulator(first.registers, r.a ^ byte_at(first.memory.memory, addr)),
                first.memory,
            )
        },
        InstructionName::RRA => {
            let first = shifted_memory(r, m, addr, shifted_right(at, carry), at % 2 == 1);
            state(after_adc(first.registers, byte_at(first.memory.memory, addr)), first.memory)
        },
    }
}

/// The resolved operand address of the instruction at the program counter
/// in `mode`, or 0 where the mode has none.
pub open spec fn target_address(s: CpuState, mode: AddressingMode) -> u16 {
    let operands = operands_at(s.memory.memory, s.registers.pc);
    match resolve(s.memory.memory, s.registers.x, s.registers.y, mode, operands.0, operands.1) {
        Some(addr) => addr,
        None => 0,
    }
}

/// Whether the instruction at the program counter crosses a page in `mode`.
///
/// For the modes that add an index register to a 16-bit base the pages of
/// the base and of the sum are compared; for a branch the page of the
/// address behind the instruction and the page of the branch target.
pub open spec fn crosses_page(s: CpuState, mode: AddressingMode) -> bool {
    let operands = operands_at(s.memory.memory, s.registers.pc);
    let target = target_address(s, mode);
    match mode {
        AddressingMode::AbsoluteIndirectWithX | AddressingMode::AbsoluteIndirectWithY => {
            spec_is_page_crossed(spec_address_from_bytes(operands.0, operands.1), target)
        },
        AddressingMode::ZeroPageIndirectIndexedWithY => spec_is_page_crossed(
            zero_page_pointer(s.memory.memory, operands.0),
            target,
        ),
        AddressingMode::Relative => spec_is_page_crossed(
            indexed(s.registers.pc, 2),
            branch_target(indexed(s.registers.pc, 1), target),
        ),
        _ => false,
    }
}

/// The state after the instruction `name` in `mode`, which stands at the
/// program counter, has been executed: the program counter moves behind
/// the opcode, the instruction does its work, and unless it set the
/// program counter itself, the program counter moves past the operands.
pub open spec fn executed(s: CpuState, name: InstructionName, mode: AddressingMode) -> CpuState {
    let target = target_address(s, mode);
    let fetched = cpu::Registers { pc: indexed(s.registers.pc, 1), ..s.registers };
    let done = performed(name, mode, fetched, s.memory, mirrored(target), target);
    if sets_program_counter(name, s.registers.status) {
        done
    } else {
        CpuState {
            registers: cpu::Registers {
                pc: indexed(done.registers.pc, operand_count(mode)),
                ..done.registers
            },
            ..done
        }
    }
}

/// The registers of the picture processing unit after an access to the
/// mirrored address `addr`: an access to one of the first three registers
/// decodes the byte that memory holds for it.
pub open spec fn refreshed(registers: ppu::Registers, addr: u16, memory: Seq<u8>) -> ppu::Registers {
    if addr == 0x2000 {
        ppu::Registers { ctrl: Ctrl::decode(memory[0x2000]), ..registers }
    } else if addr == 0x2001 {
        ppu::Registers { mask: Mask::decode(memory[0x2001]), ..registers }
    } else if addr == 0x2002 {
        ppu::Registers { status: Status::decode(memory[0x2002]), ..registers }
    } else {
        registers
    }
}

/// What a `Nessy` holds, as mathematical values.
pub struct NessyView {
    pub cpu: CpuState,
    pub ppu_registers: ppu::Registers,
    pub ppu_memory: Seq<u8>,
    pub oam: Seq<u8>,
    pub reset_vector: u16,
    pub cycle: int,
    pub ppu_cycle: int,
    pub frames: int,
}

/// The machine after one instruction `name` in `mode` that took `cost`
/// cycles: the processor has executed it, the cycle counter has advanced,
/// and the picture processing unit has made three ticks per cycle, 341 of
/// which make a line.
pub open spec fn stepped(
    v: NessyView,
    name: InstructionName,
    mode: AddressingMode,
    cost: int,
) -> NessyView {
    let after = executed(v.cpu, name, mode);
    NessyView {
        cpu: after,
        ppu_registers: refreshed(
            v.ppu_registers,
            mirrored(target_address(v.cpu, mode)),
            after.memory.memory,
        ),
        cycle: v.cycle + cost,
        ppu_cycle: (v.ppu_cycle + 3 * cost) % 341,
        frames: v.frames + (v.ppu_cycle + 3 * cost) / 341,
        ..v
    }
}

/// The cycles that the instruction `name` in `mode` at the program counter
/// of `s` takes, where the cost table knows it.
pub open spec fn step_cost(s: CpuState, name: InstructionName, mode: AddressingMode) -> Option<int> {
    cycles(name, mode, crosses_page(s, mode), branch_taken(name, s.registers.status))
}

/// The result of one step from `v`: the next state, or the reason why
/// there is none.
pub open spec fn step(v: NessyView) -> Result<NessyView, ExecuteError> {
    let pc = v.cpu.registers.pc;
    let opcode = byte_at(v.cpu.memory.memory, pc);
    match decode(opcode) {
        Instruction::Unknown => Err(ExecuteError::UnknownOpcode { opcode, pc }),
        Instruction::Official(name, mode) | Instruction::Unofficial(name, mode) => {
            match step_cost(v.cpu, name, mode) {
                None => Err(ExecuteError::UntimedOpcode { opcode, pc }),
                Some(cost) => Ok(stepped(v, name, mode, cost)),
            }
        },
    }
}

impl View for Nessy {
    type V = NessyView;

    open spec fn view(&self) -> NessyView {
        NessyView {
            cpu: CpuState { registers: self.registers, memory: self.memory@ },
            ppu_registers: self.ppu_registers,
            ppu_memory: self.ppu_memory.memory@,
            oam: self.ppu_memory.oam@,
            reset_vector: self.reset_vector,
            cycle: self.cycle as int,
            ppu_cycle: self.ppu_cycle as int,
            frames: self.frames as int,
        }
    }
}

/// Does the work of one instruction on the registers and the memory and
/// says whether a branch was taken.
#[verifier::rlimit(50)]
pub fn perform(
    registers: &mut cpu::Registers,
    memory: &mut Memory,
    instruction: InstructionName,
    addressing_mode: AddressingMode,
    addr: u16,
    target: u16,
) -> (taken: bool)
    requires
        old(memory).wf(),
    ensures
        final(memory).wf(),
        final(memory).ppu@ == old(memory).ppu@,
        taken == branch_taken(instruction, old(registers).status),
        state(*final(registers), final(memory)@) == performed(
            instruction,
            addressing_mode,
            *old(registers),
            old(memory)@,
            addr,
            target,
        ),
{
    let in_accumulator = addressing_mode == AddressingMode::Accumulator;
    match instruction {
        InstructionName::SEI => {
            sei(registers);
            false
        },
        InstructionName::CLD => {
            cld(registers);
            false
        },
        InstructionName::LDA => {
            let data = read_operand(memory, addressing_mode, addr);
            lda(registers, data);
            false
        },
        InstructionName::BRK => {
            brk(registers, memory);
            false
        },
        InstructionName::STA => {
            sta(registers, memory, addr);
            false
        },
        InstructionName::INC => {
            inc(registers, memory, addr);
            false
        },
        InstructionName::LDX => {
            let data = read_operand(memory, addressing_mode, addr);
            ldx(registers, data.into());
            false
        },
        InstructionName::TXS => {
            txs(registers, memory);
            false
        },
        InstructionName::AND => {
            if in_accumulator {
                and_acc(registers);
            } else {
                let data = read_operand(memory, addressing_mode, addr);
                and(registers, data);
            }
            false
        },
        InstructionName::BEQ => beq(registers, addr),
        InstructionName::CPX => {
            let data = read_operand(memory, addressing_mode, addr);
            cpx(registers, data);
            false
        },
        InstructionName::DEY => {
            dey(registers);
            false
        },
        InstructionName::BPL => bpl(registers, addr),
        InstructionName::PLA => {
            pla(registers, memory);
            false
        },
        InstructionName::TAY => {
            tay(registers);
            false
        },
        InstructionName::CPY => {
            let data = read_operand(memory, addressing_mode, addr);
            cpy(registers, data);
            false
        },
        InstructionName::BNE => bne(registers, addr),
        InstructionName::RTS => {
            rts(registers, memory);
            false
        },
        InstructionName::JMP => {
            jmp(registers, target);
            false
        },
        InstructionName::STX => {
            stx(registers, memory, addr);
            false
        },
        InstructionName::JSR => {
            jsr(registers, memory, target);
            false
        },
        InstructionName::NOP => {
            nop();
            false
        },
        InstructionName::SEC => {
            sec(registers);
            false
        },
        InstructionName::BCS => bcs(registers, addr),
        InstructionName::CLC => {
            clc(registers);
            false
        },
        InstructionName::CLI => {
            cli(registers);
            false
        },
        InstructionName::BCC => bcc(registers, addr),
        InstructionName::PHP => {
            php(registers, memory);
            false
        },
        InstructionName::BIT => {
            bit(registers, memory, addr);
            false
        },
        InstructionName::BVS => bvs(registers, addr),
        InstructionName::BVC => bvc(registers, addr),
        InstructionName::LDY => {
            let data = read_operand(memory, addressing_mode, addr);
            ldy(registers, data);
            false
        },
        InstructionName::ASL => {
            if in_accumulator {
                asl_acc(registers);
            } else {
                let data = memory.read(addr);
                asl(registers, memory, addr, data);
            }
            false
        },
        InstructionName::RTI => {
            rti(registers, memory);
            false
        },
        InstructionName::SBC => {
            let data = read_operand(memory, addressing_mode, addr);
            sbc(registers, data);
            false
        },
        InstructionName::SED => {
            sed(registers);
            false
        },
        InstructionName::CMP => {
            let data = read_operand(memory, addressing_mode, addr);
            cmp(registers, data);
            false
        },
        InstructionName::PHA => {
            pha(registers, memory);
            false
        },
        InstructionName::PLP => {
            plp(registers, memory);
            false
        },
        InstructionName::BMI => bmi(registers, addr),
        InstructionName::ORA => {
            let data = read_operand(memory, addressing_mode, addr);
            ora(registers, data);
            false
        },
        InstructionName::CLV => {
            clv(registers);
            false
        },
        InstructionName::EOR => {
            let data = read_operand(memory, addressing_mode, addr);
            eor(registers, data);
            false
        },
        InstructionName::ADC => {
            let data = read_operand(memory, addressing_mode, addr);
            adc(registers, data);
            false
        },
        InstructionName::STY => {
            sty(registers, memory, addr);
            false
        },
        InstructionName::INY => {
            iny(registers);
            false
        },
        InstructionName::INX => {
            inx(registers);
            false
        },
        InstructionName::TAX => {
            tax(registers);
            false
        },
        InstructionName::TYA => {
            tya(registers);
            false
        },
        InstructionName::TXA => {
            txa(registers);
            false
        },
        InstructionName::TSX => {
            tsx(registers, memory);
            false
        },
        InstructionName::DEX => {
            dex(registers);
            false
        },
        InstructionName::LSR => {
            if in_accumulator {
                lsr_acc(registers);
            } else {
                lsr(registers, memory, addr);
            }
            false
        },
        InstructionName::ROR => {
            if in_accumulator {
                ror_acc(registers);
            } else {
                ror(registers, memory, addr);
            }
            false
        },
        InstructionName::ROL => {
            if in_accumulator {
                rol_acc(registers);
            } else {
                let data = memory.read(addr);
                rol(registers, memory, addr, data);
            }
            false
        },
        InstructionName::DEC => {
            dec(registers, memory, addr);
            false
        },
        InstructionName::LAX => {
            let data = read_operand(memory, addressing_mode, addr);
            lda(registers, data);
            ldx(registers, data.into());
            false
        },
        InstructionName::SAX => {
            memory.write(addr, registers.a & registers.x);
            false
        },
        InstructionName::DCP => {
            dec(registers, memory, addr);
            let data = memory.read(addr);
            cmp(registers, data);
            false
        },
        InstructionName::ISB => {
            inc(registers, memory, addr);
            let data = memory.read(addr);
            sbc(registers, data);
            false
        },
        InstructionName::SLO => {
            let data = memory.read(addr);
            asl(registers, memory, addr, data);
            let data = memory.read(addr);
            ora(registers, data);
            false
        },
        InstructionName::RLA => {
            let data = memory.read(addr);
            rol(registers, memory, addr, data);
            let data = memory.read(addr);
            and(registers, data);
            false
        },
        InstructionName::SRE => {
            lsr(registers, memory, addr);
            let data = memory.read(addr);
            eor(registers, data);
            false
        },
        InstructionName::RRA => {
            ror(registers, memory, addr);
            let data = memory.read(addr);
            adc(registers, data);
            false
        },
    }
}

/// The main memory after the image bytes `data` with `banks` banks of
/// program memory have been loaded: the first bank at 0x8000, the last one
/// at 0xC000.
pub open spec fn program_loaded(memory: Seq<u8>, data: Seq<u8>, banks: u8) -> Seq<u8> {
    overlaid(
        overlaid(memory, 0x8000, data, first_bank_offset(), 16384),
        0xC000,
        data,
        last_bank_offset(banks),
        16384,
    )
}

/// The machine after the image `nesfile` has been loaded, before the
/// registers are set up.
pub open spec fn cartridge_inserted(v: NessyView, nesfile: &RomFile) -> NessyView {
    match nesfile {
        RomFile::Ines(header, data) => NessyView {
            cpu: CpuState {
                memory: MemoryView {
                    memory: program_loaded(v.cpu.memory.memory, data@, header.num_prgrom),
                    ..v.cpu.memory
                },
                ..v.cpu
            },
            ppu_memory: overlaid(
                v.ppu_memory,
                0,
                data@,
                pattern_offset(header.num_prgrom),
                0x1FFF,
            ),
            ..v
        },
        RomFile::Ines2(_, _) => v,
    }
}

/// The machine after a start at the reset vector: the program counter
/// comes from the bytes at 0xFFFC and 0xFFFD, the status is 0x34.
pub open spec fn booted(v: NessyView) -> NessyView {
    let vector = spec_address_from_bytes(
        v.cpu.memory.memory[0xFFFC],
        v.cpu.memory.memory[0xFFFD],
    );
    NessyView {
        cpu: CpuState {
            registers: cpu::Registers { pc: vector, status: 0x34, ..v.cpu.registers },
            ..v.cpu
        },
        reset_vector: vector,
        ..v
    }
}

/// The machine after a start for the processor test image: the program
/// counter is 0xC000, the status 0x24 and the stack pointer 0xFD.
pub open spec fn booted_for_test(v: NessyView) -> NessyView {
    NessyView {
        cpu: CpuState {
            registers: cpu::Registers { pc: 0xC000, status: 0x24, ..v.cpu.registers },
            memory: MemoryView { stack_pointer: 0xFD, ..v.cpu.memory },
        },
        ..v
    }
}

impl Nessy {
    /// The memories are fully backed and the picture processing unit
    /// stands inside a line of 341 ticks.
    pub open spec fn wf(&self) -> bool {
        self.memory.wf() && self.ppu_memory.wf() && self.ppu_cycle < 341
    }

    /// A machine at power-up: zeroed memories and registers, the stack
    /// pointer at 0xFF, seven cycles and twenty-one ticks gone.
    #[must_use]
    pub fn new() -> (nessy: Self)
        ensures
            nessy.wf(),
            nessy.registers == (cpu::Registers { a: 0, x: 0, y: 0, s: 0, pc: 0, status: 0 }),
            nessy.memory.stack_pointer == 0xFF,
            forall|i: int| 0 <= i < 0x10000 ==> nessy.memory.memory@[i] == 0,
            forall|i: int| 0 <= i < 0x4000 ==> nessy.memory.ppu@[i] == 0,
            forall|i: int| 0 <= i < 0x10000 ==> nessy.ppu_memory.memory@[i] == 0,
            forall|i: int| 0 <= i < 256 ==> nessy.ppu_memory.oam@[i] == 0,
            nessy.ppu_registers == (ppu::Registers {
                ctrl: Ctrl::decode(0),
                mask: Mask::decode(0),
                status: Status::decode(0),
            }),
            nessy.reset_vector == 0,
            nessy.cycle == 7,
            nessy.ppu_cycle == 21,
            nessy.frames == 0,
    {
        let mut memory = Memory::new();
        let registers = cpu::Registers::new();
        let ppu_registers = ppu::Registers::new();
        let ppu_memory = ppu::Memory::new();
        let reset_vector = address_from_bytes(memory.read(0xFFFC), memory.read(0xFFFD));
        memory.stack_pointer = 0xFF;
        Self {
            memory,
            registers,
            ppu_registers,
            ppu_memory,
            reset_vector,
            cycle: 7,
            ppu_cycle: 21,
            frames: 0,
        }
    }

    /// Loads a cartridge image and starts at the reset vector that it
    /// brings.
    pub fn load(&mut self, nesfile: &RomFile)
        requires
            old(self).wf(),
            loadable(nesfile),
        ensures
            final(self).wf(),
            final(self).memory.ppu@ == old(self).memory.ppu@,
            final(self)@ == booted(cartridge_inserted(old(self)@, nesfile)),
    {
        load_rom(&mut self.memory, &mut self.ppu_memory, nesfile);
        self.reset_vector = address_from_bytes(self.memory.read(0xFFFC), self.memory.read(0xFFFD));
        self.registers.pc = self.reset_vector;
        self.registers.status = 0x34;
    }

    /// Loads the processor test image and starts it where its automatic
    /// mode begins.
    pub fn load_nestest(&mut self, nesfile: &RomFile)
        requires
            old(self).wf(),
            loadable(nesfile),
        ensures
            final(self).wf(),
            final(self).memory.ppu@ == old(self).memory.ppu@,
            final(self)@ == booted_for_test(cartridge_inserted(old(self)@, nesfile)),
    {
        load_rom(&mut self.memory, &mut self.ppu_memory, nesfile);
        self.registers.pc = 0xC000;
        self.registers.status = 0x24;
        self.memory.stack_pointer = 0xFD;
    }

    /// The byte at the program counter.
    #[must_use]
    pub fn get_opcode(&self) -> (opcode: u8)
        requires
            self.wf(),
        ensures
            opcode == byte_at(self.memory.memory@, self.registers.pc),
    {
        self.memory.read(self.registers.pc)
    }

    /// Lets the picture processing unit make `ticks` ticks: after 341 of
    /// them a line is full and the line counter advances.
    pub fn tick_ppu(&mut self, ticks: u8)
        requires
            old(self).ppu_cycle < 341,
            old(self).frames < usize::MAX,
        ensures
            final(self).ppu_cycle == (old(self).ppu_cycle + ticks) % 341,
            final(self).frames == old(self).frames + (old(self).ppu_cycle + ticks) / 341,
            *final(self) == (Nessy {
                ppu_cycle: final(self).ppu_cycle,
                frames: final(self).frames,
                ..*old(self)
            }),
    {
        let mut done: u8 = 0;
        while done < ticks
            invariant
                done <= ticks,
                self.ppu_cycle == (old(self).ppu_cycle + done) % 341,
                self.frames == old(self).frames + (old(self).ppu_cycle + done) / 341,
                old(self).ppu_cycle < 341,
                old(self).frames < usize::MAX,
                *self == (Nessy { ppu_cycle: self.ppu_cycle, frames: self.frames, ..*old(self) }),
            decreases ticks - done,
        {
            self.ppu_cycle = self.ppu_cycle + 1;
            if self.ppu_cycle > 340 {
                self.frames = self.frames + 1;
            }
            self.ppu_cycle = self.ppu_cycle % 341;
            done = done + 1;
        }
    }

    /// Executes the instruction at the program counter: decodes it,
    /// resolves its operand address, does its work, moves the program
    /// counter and charges the cycles, to the processor and threefold to
    /// the picture processing unit.
    ///
    /// An opcode that stands for no instruction, or for one without a cycle
    /// count, is reported and leaves the machine untouched.
    pub fn execute(&mut self) -> (result: Result<(), ExecuteError>)
        requires
            old(self).wf(),
            old(self).cycle <= usize::MAX - 8,
            old(self).frames < usize::MAX,
        ensures
            final(self).wf(),
            final(self).memory.ppu@ == old(self).memory.ppu@,
            match step(old(self)@) {
                Ok(next) => result == Ok::<(), ExecuteError>(()) && final(self)@ == next,
                Err(error) => result == Err::<(), ExecuteError>(error) && final(self)@ == old(
                    self,
                )@,
            },
    {
        let pc = self.registers.pc;
        let opcode = self.get_opcode();
        let (instruction, addressing_mode) = match match_instruction(opcode) {
            Instruction::Official(instr, mode) => (instr, mode),
            Instruction::Unofficial(instr, mode) => (instr, mode),
            Instruction::Unknown => {
                return Err(ExecuteError::UnknownOpcode { opcode, pc });
            },
        };
        let num_operands = num_operands_from_addressing(&addressing_mode);
        let (low_byte, high_byte) = get_operands(&self.registers, &self.memory);
        let target = match apply_addressing(
            &self.memory,
            &self.registers,
            addressing_mode,
            low_byte,
            high_byte,
        ) {
            Some(addr) => addr,
            None => 0,
        };
        let addr = mirror_address(target);
        let page_crossed = match addressing_mode {
            AddressingMode::AbsoluteIndirectWithX | AddressingMode::AbsoluteIndirectWithY => {
                is_page_crossed(address_from_bytes(low_byte, high_byte), target)
            },
            AddressingMode::ZeroPageIndirectIndexedWithY => {
                let low = self.memory.read(low_byte.into());
                let high = self.memory.read(zero_page_add(low_byte, 1).into());
                is_page_crossed(address_from_bytes(low, high), target)
            },
            AddressingMode::Relative => is_page_crossed(
                add_index(pc, 2),
                branch_to(add_index(pc, 1), target),
            ),
            _ => false,
        };
        if lookup_cycles(instruction, addressing_mode, page_crossed, false).is_none() {
            return Err(ExecuteError::UntimedOpcode { opcode, pc });
        }
        self.registers.pc = add_index(pc, 1);
        let branched = perform(
            &mut self.registers,
            &mut self.memory,
            instruction,
            addressing_mode,
            addr,
            target,
        );
        let jumped = match instruction {
            InstructionName::BRK
            | InstructionName::RTS
            | InstructionName::JMP
            | InstructionName::JSR => true,
            _ => branched,
        };
        if !jumped {
            self.registers.pc = add_index(self.registers.pc, num_operands);
        }
        let new_cycles = get_cycles(instruction, addressing_mode, page_crossed, branched);
        self.cycle = self.cycle + new_cycles as usize;
        if addr == 0x2000 {
            self.ppu_registers.ctrl = Ctrl::new_from(self.memory.read(0x2000));
        } else if addr == 0x2001 {
            self.ppu_registers.mask = Mask::new_from(self.memory.read(0x2001));
        } else if addr == 0x2002 {
            self.ppu_registers.status = Status::new_from(self.memory.read(0x2002));
        }
        self.tick_ppu(new_cycles * 3);
        Ok(())
    }
}

/// How the operand of the instruction at the program counter is written
/// in a trace line: the operand as the assembler would show it, then, for
/// a mode that reaches memory, the address and the byte it holds.
pub open spec fn operand_rendering(
    s: CpuState,
    name: InstructionName,
    mode: AddressingMode,
) -> Seq<char> {
    let memory = s.memory.memory;
    let operands = operands_at(memory, s.registers.pc);
    let base = spec_address_from_bytes(operands.0, operands.1);
    let target = target_address(s, mode);
    let value = hex_byte(byte_at(memory, mirrored(target)));
    match mode {
        AddressingMode::Implied => Seq::<char>::empty(),
        AddressingMode::Accumulator => "A"@,
        AddressingMode::Immediate => "#$"@ + hex_byte(low_byte_of(target)),
        AddressingMode::Relative => "$"@ + hex_word(
            branch_target(indexed(s.registers.pc, 1), target),
        ),
        AddressingMode::Absolute => if name == InstructionName::JMP || name
            == InstructionName::JSR {
            "$"@ + hex_word(target)
        } else {
            "$"@ + hex_word(target) + " = "@ + value
        },
        AddressingMode::AbsoluteIndirect => "($"@ + hex_word(base) + ") = "@ + hex_word(target),
        AddressingMode::AbsoluteIndirectWithX => "$"@ + hex_word(base) + ",X @ "@ + hex_word(
            target,
        ) + " = "@ + value,
        AddressingMode::AbsoluteIndirectWithY => "$"@ + hex_word(base) + ",Y @ "@ + hex_word(
            target,
        ) + " = "@ + value,
        AddressingMode::ZeroPage => "$"@ + hex_byte(low_byte_of(target)) + " = "@ + value,
        AddressingMode::ZeroPageIndexedWithX => "$"@ + hex_byte(operands.0) + ",X @ "@
            + hex_byte(low_byte_of(target)) + " = "@ + value,
        AddressingMode::ZeroPageIndexedWithY => "$"@ + hex_byte(operands.0) + ",Y @ "@
            + hex_byte(low_byte_of(target)) + " = "@ + value,
        AddressingMode::ZeroPageIndexedIndirect => "($"@ + hex_byte(operands.0) + ",X) @ "@
            + hex_byte(zero_page_indexed(operands.0, s.registers.x)) + " = "@ + hex_word(target)
            + " = "@ + value,
        AddressingMode::ZeroPageIndirectIndexedWithY => "($"@ + hex_byte(operands.0)
            + "),Y = "@ + hex_word(zero_page_pointer(memory, operands.0)) + " @ "@ + hex_word(
            target,
        ) + " = "@ + value,
    }
}

/// An operand byte in a trace line: two digits where the instruction has
/// the operand, two spaces where it has not.
pub open spec fn operand_column(present: bool, value: u8) -> Seq<char> {
    if present {
        hex_byte(value)
    } else {
        "  "@
    }
}

/// The trace line for the instruction `name` in `mode` at the program
/// counter, before it is executed: address, opcode and operand bytes, the
/// instruction as text (marked with `*` where it is undocumented) in a
/// column of 27 characters, then the registers, the position of the
/// picture processing unit and the cycle count.
pub open spec fn trace_line(
    v: NessyView,
    name: InstructionName,
    mode: AddressingMode,
    official: bool,
) -> Seq<char> {
    let r = v.cpu.registers;
    let memory = v.cpu.memory.memory;
    let operands = operands_at(memory, r.pc);
    hex_word(r.pc) + "  "@ + hex_byte(byte_at(memory, r.pc)) + " "@ + operand_column(
        operand_count(mode) >= 1,
        operands.0,
    ) + " "@ + operand_column(operand_count(mode) > 1, operands.1) + " "@ + (if official {
        " "@
    } else {
        "*"@
    }) + mnemonic(name) + " "@ + left_aligned(operand_rendering(v.cpu, name, mode), 27)
        + " A:"@ + hex_byte(r.a) + " X:"@ + hex_byte(r.x) + " Y:"@ + hex_byte(r.y) + " P:"@
        + hex_byte(r.status) + " SP:"@ + hex_byte(low_byte_of(v.cpu.memory.stack_pointer))
        + " PPU:"@ + right_aligned(decimal(v.frames as nat), 3) + ","@ + right_aligned(
        decimal(v.ppu_cycle as nat),
        3,
    ) + " CYC:"@ + decimal(v.cycle as nat)
}

/// The trace line of the machine: that of the instruction at its program
/// counter. Where the byte there stands for no instruction, there is none.
pub open spec fn current_trace_line(v: NessyView) -> Option<Seq<char>> {
    match decode(byte_at(v.cpu.memory.memory, v.cpu.registers.pc)) {
        Instruction::Official(name, mode) => Some(trace_line(v, name, mode, true)),
        Instruction::Unofficial(name, mode) => Some(trace_line(v, name, mode, false)),
        Instruction::Unknown => None,
    }
}

/// Renders an operand byte of a trace line.
pub fn operand_column_text(present: bool, value: u8) -> (text: String)
    ensures
        text@ == operand_column(present, value),
{
    if present {
        hex_byte_text(value)
    } else {
        String::from_str("  ")
    }
}

impl Nessy {
    /// Renders the operand of the instruction at the program counter.
    pub fn operand_text(
        &self,
        instruction: InstructionName,
        addressing_mode: AddressingMode,
    ) -> (text: String)
        requires
            self.wf(),
        ensures
            text@ == operand_rendering(self@.cpu, instruction, addressing_mode),
    {
        let (low_byte, high_byte) = get_operands(&self.registers, &self.memory);
        let base = address_from_bytes(low_byte, high_byte);
        let target = match apply_addressing(
            &self.memory,
            &self.registers,
            addressing_mode,
            low_byte,
            high_byte,
        ) {
            Some(addr) => addr,
            None => 0,
        };
        let value = hex_byte_text(self.memory.read(mirror_address(target)));
        let mut text = String::new();
        match addressing_mode {
            AddressingMode::Implied => {},
            AddressingMode::Accumulator => {
                text = String::from_str("A");
            },
            AddressingMode::Immediate => {
                text = String::from_str("#$");
                text.append(hex_byte_text(split_address(target).0).as_str());
            },
            AddressingMode::Relative => {
                text = String::from_str("$");
                let to = branch_to(add_index(self.registers.pc, 1), target);
                text.append(hex_word_text(to).as_str());
            },
            AddressingMode::Absolute => {
                text = String::from_str("$");
                text.append(hex_word_text(target).as_str());
                let jumps = match instruction {
                    InstructionName::JMP | InstructionName::JSR => true,
                    _ => false,
                };
                if !jumps {
                    text.append(" = ");
                    text.append(value.as_str());
                }
            },
            AddressingMode::AbsoluteIndirect => {
                text = String::from_str("($");
                text.append(hex_word_text(base).as_str());
                text.append(") = ");
                text.append(hex_word_text(target).as_str());
            },
            AddressingMode::AbsoluteIndirectWithX => {
                text = String::from_str("$");
                text.append(hex_word_text(base).as_str());
                text.append(",X @ ");
                text.append(hex_word_text(target).as_str());
                text.append(" = ");
                text.append(value.as_str());
            },
            AddressingMode::AbsoluteIndirectWithY => {
                text = String::from_str("$");
                text.append(hex_word_text(base).as_str());
                text.append(",Y @ ");
                text.append(hex_word_text(target).as_str());
                text.append(" = ");
                text.append(value.as_str());
            },
            AddressingMode::ZeroPage => {
                text = String::from_str("$");
                text.append(hex_byte_text(split_address(target).0).as_str());
                text.append(" = ");
                text.append(value.as_str());
            },
            AddressingMode::ZeroPageIndexedWithX => {
                text = String::from_str("$");
                text.append(hex_byte_text(low_byte).as_str());
                text.append(",X @ ");
                text.append(hex_byte_text(split_address(target).0).as_str());
                text.append(" = ");
                text.append(value.as_str());
            },
            AddressingMode::ZeroPageIndexedWithY => {
                text = String::from_str("$");
                text.append(hex_byte_text(low_byte).as_str());
                text.append(",Y @ ");
                text.append(hex_byte_text(split_address(target).0).as_str());
                text.append(" = ");
                text.append(value.as_str());
            },
            AddressingMode::ZeroPageIndexedIndirect => {
                text = String::from_str("($");
                text.append(hex_byte_text(low_byte).as_str());
                text.append(",X) @ ");
                text.append(hex_byte_text(zero_page_add(low_byte, self.registers.x)).as_str());
                text.append(" = ");
                text.append(hex_word_text(target).as_str());
                text.append(" = ");
                text.append(value.as_str());
            },
            AddressingMode::ZeroPageIndirectIndexedWithY => {
                text = String::from_str("($");
                text.append(hex_byte_text(low_byte).as_str());
                text.append("),Y = ");
                let pointer = address_from_bytes(
                    self.memory.read(low_byte.into()),
                    self.memory.read(zero_page_add(low_byte, 1).into()),
                );
                text.append(hex_word_text(pointer).as_str());
                text.append(" @ ");
                text.append(hex_word_text(target).as_str());
                text.append(" = ");
                text.append(value.as_str());
            },
        }
        text
    }

    /// Renders the state of the machine before the instruction at the
    /// program counter is executed, as one line of a trace.
    ///
    /// The byte at the program counter must stand for an instruction.
    pub fn get_nestest_output(&self) -> (line: String)
        requires
            self.wf(),
            decode(byte_at(self.memory.memory@, self.registers.pc)) != Instruction::Unknown,
        ensures
            Some(line@) == current_trace_line(self@),
    {
        let opcode = self.get_opcode();
        let (instruction, addressing_mode, official) = match match_instruction(opcode) {
            Instruction::Official(instr, mode) => (instr, mode, true),
            Instruction::Unofficial(instr, mode) => (instr, mode, false),
            Instruction::Unknown => (InstructionName::NOP, AddressingMode::Implied, false),
        };
        let num_operands = num_operands_from_addressing(&addressing_mode);
        let (low_byte, high_byte) = get_operands(&self.registers, &self.memory);
        let mut line = hex_word_text(self.registers.pc);
        line.append("  ");
        line.append(hex_byte_text(opcode).as_str());
        line.append(" ");
        line.append(operand_column_text(num_operands >= 1, low_byte).as_str());
        line.append(" ");
        line.append(operand_column_text(num_operands > 1, high_byte).as_str());
        line.append(" ");
        line.append(
            if official {
                " "
            } else {
                "*"
            },
        );
        line.append(mnemonic_text(instruction));
        line.append(" ");
        line.append(align_left(self.operand_text(instruction, addressing_mode), 27).as_str());
        line.append(" A:");
        line.append(hex_byte_text(self.registers.a).as_str());
        line.append(" X:");
        line.append(hex_byte_text(self.registers.x).as_str());
        line.append(" Y:");
        line.append(hex_byte_text(self.registers.y).as_str());
        line.append(" P:");
        line.append(hex_byte_text(self.registers.status).as_str());
        line.append(" SP:");
        line.append(hex_byte_text(split_address(self.memory.stack_pointer).0).as_str());
        line.append(" PPU:");
        line.append(align_right(decimal_text(self.frames), 3).as_str());
        line.append(",");
        line.append(align_right(decimal_text(self.ppu_cycle), 3).as_str());
        line.append(" CYC:");
        line.append(decimal_text(self.cycle).as_str());
        line
    }
}

/// System memory repeats every 0x0800 bytes below 0x2000, the registers of
/// the picture processing unit repeat every 8 bytes from 0x2000 up to
/// 0x3FFF, and mirroring an address twice changes nothing more.
pub proof fn lemma_mirroring(addr: u16)
    ensures
        mirrored(mirrored(addr)) == mirrored(addr),
        addr < 0x2000 ==> mirrored(addr) < 0x0800,
        addr < 0x1800 ==> mirrored((addr + 0x0800) as u16) == mirrored(addr),
        0x2000 <= addr < 0x4000 ==> 0x2000 <= mirrored(addr) < 0x2008,
        0x2000 <= addr < 0x3FF8 ==> mirrored((addr + 8) as u16) == mirrored(addr),
        addr >= 0x4000 ==> mirrored(addr) == addr,
{
}

/// An instruction that neither jumps nor branches leaves the program
/// counter behind its operands; a branch that is not taken does the same.
pub proof fn lemma_program_counter_advances(
    s: CpuState,
    name: InstructionName,
    mode: AddressingMode,
)
    requires
        !sets_program_counter(name, s.registers.status),
        name != InstructionName::RTI,
    ensures
        executed(s, name, mode).registers.pc as int == (s.registers.pc + 1 + operand_count(mode))
            % 0x10000,
{
}

/// A branch that is taken leads to its target and is not moved past its
/// operand on top of that.
pub proof fn lemma_taken_branch(s: CpuState, name: InstructionName)
    requires
        branch_taken(name, s.registers.status),
    ensures
        executed(s, name, AddressingMode::Relative).registers.pc == branch_target(
            indexed(s.registers.pc, 1),
            operands_at(s.memory.memory, s.registers.pc).0 as u16,
        ),
        executed(s, name, AddressingMode::Relative).memory == s.memory,
{
}

/// An opcode that stands for no instruction stops the machine: there is
/// no next state, and the error names the opcode and where it stood.
pub proof fn lemma_unknown_opcode_is_fatal(v: NessyView)
    requires
        decode(byte_at(v.cpu.memory.memory, v.cpu.registers.pc)) == Instruction::Unknown,
    ensures
        step(v) == Err::<NessyView, ExecuteError>(
            ExecuteError::UnknownOpcode {
                opcode: byte_at(v.cpu.memory.memory, v.cpu.registers.pc),
                pc: v.cpu.registers.pc,
            },
        ),
{
}

} // verus!
