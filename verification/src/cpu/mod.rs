//! Registers, status flags and memory of the processor.

use vstd::arithmetic::power2::{lemma2_to64, pow2};
use vstd::prelude::*;

pub mod instructions;
pub mod utils;

verus! {

/// The register file of the processor.
///
/// `a` is the accumulator, `x` and `y` are the index registers, `s` is the
/// stack register, `pc` the program counter and `status` holds the seven
/// processor flags.
#[derive(Debug, Clone, Copy)]
pub struct Registers {
    pub a: u8,
    pub x: u8,
    pub y: u8,
    pub s: u8,
    pub pc: u16,
    pub status: u8,
}

/// The flags of the status register, from bit 7 down to bit 0.
#[derive(Debug, Clone, Copy, PartialEq, Eq, Structural)]
pub enum StatusFlag {
    N,
    V,
    Unused,
    B,
    D,
    I,
    Z,
    C,
}

impl StatusFlag {
    /// The position of the flag inside the status byte.
    pub open spec fn bit_index(self) -> nat {
        match self {
            StatusFlag::N => 7,
            StatusFlag::V => 6,
            StatusFlag::Unused => 5,
            StatusFlag::B => 4,
            StatusFlag::D => 3,
            StatusFlag::I => 2,
            StatusFlag::Z => 1,
            StatusFlag::C => 0,
        }
    }

    /// The byte in which only the bit of this flag is set.
    pub open spec fn spec_mask(self) -> u8 {
        match self {
            StatusFlag::N => 0x80,
            StatusFlag::V => 0x40,
            StatusFlag::Unused => 0x20,
            StatusFlag::B => 0x10,
            StatusFlag::D => 0x08,
            StatusFlag::I => 0x04,
            StatusFlag::Z => 0x02,
            StatusFlag::C => 0x01,
        }
    }

    /// The byte in which only the bit of this flag is set.
    #[verifier::when_used_as_spec(spec_mask)]
    pub fn mask(self) -> (m: u8)
        ensures
            m == self.spec_mask(),
    {
        match self {
            StatusFlag::N => 0x80,
            StatusFlag::V => 0x40,
            StatusFlag::Unused => 0x20,
            StatusFlag::B => 0x10,
            StatusFlag::D => 0x08,
            StatusFlag::I => 0x04,
            StatusFlag::Z => 0x02,
            StatusFlag::C => 0x01,
        }
    }
}

/// The mask of a flag is the power of two of its position: bit 7 is the
/// negative flag, bit 6 overflow, bit 5 unused, bit 4 break, bit 3 decimal,
/// bit 2 interrupt disable, bit 1 zero and bit 0 carry.
pub proof fn lemma_mask_is_bit(flag: StatusFlag)
    ensures
        flag.spec_mask() as nat == pow2(flag.bit_index()),
{
    lemma2_to64();
}

/// Whether `flag` is set in the status byte `status`.
pub open spec fn flag_is_set(status: u8, flag: StatusFlag) -> bool {
    status & flag.spec_mask() == flag.spec_mask()
}

/// The status byte `status` with `flag` switched on or off.
pub open spec fn with_flag(status: u8, flag: StatusFlag, activated: bool) -> u8 {
    if activated {
        status | flag.spec_mask()
    } else {
        status & !flag.spec_mask()
    }
}

/// The status byte after the zero and negative flags have been derived from
/// `value`: zero is set exactly for 0, negative exactly for bit 7.
pub open spec fn with_zero_negative(status: u8, value: u8) -> u8 {
    with_flag(with_flag(status, StatusFlag::Z, value == 0), StatusFlag::N, value >= 0x80)
}

proof fn lemma_single_bit(status: u8, m: u8)
    by (bit_vector)
    requires
        m == 0x80 || m == 0x40 || m == 0x20 || m == 0x10 || m == 0x08 || m == 0x04 || m == 0x02
            || m == 0x01,
    ensures
        (status | m) & m == m,
        (status & !m) & m != m,
        (status & !m) & m == 0,
{
}

proof fn lemma_other_bit(status: u8, m: u8, k: u8)
    by (bit_vector)
    requires
        m == 0x80 || m == 0x40 || m == 0x20 || m == 0x10 || m == 0x08 || m == 0x04 || m == 0x02
            || m == 0x01,
        k == 0x80 || k == 0x40 || k == 0x20 || k == 0x10 || k == 0x08 || k == 0x04 || k == 0x02
            || k == 0x01,
        m != k,
    ensures
        (status | m) & k == status & k,
        (status & !m) & k == status & k,
{
}

/// Switching a flag makes exactly that flag read as requested.
pub proof fn lemma_with_flag_sets(status: u8, flag: StatusFlag, activated: bool)
    ensures
        flag_is_set(with_flag(status, flag, activated), flag) == activated,
{
    lemma_single_bit(status, flag.spec_mask());
}

/// Switching a flag leaves every other flag as it was.
pub proof fn lemma_with_flag_keeps_others(
    status: u8,
    flag: StatusFlag,
    activated: bool,
    other: StatusFlag,
)
    requires
        flag != other,
    ensures
        flag_is_set(with_flag(status, flag, activated), other) == flag_is_set(status, other),
{
    lemma_other_bit(status, flag.spec_mask(), other.spec_mask());
}

/// After the zero and negative flags have been derived from a value, the
/// zero flag is set exactly when the value is 0 and the negative flag
/// exactly when the value is at least 0x80; the other flags are untouched.
pub proof fn lemma_zero_negative_flags(status: u8, value: u8)
    ensures
        flag_is_set(with_zero_negative(status, value), StatusFlag::Z) == (value == 0),
        flag_is_set(with_zero_negative(status, value), StatusFlag::N) == (value >= 0x80),
        forall|other: StatusFlag|
            other != StatusFlag::Z && other != StatusFlag::N ==> flag_is_set(
                #[trigger] with_zero_negative(status, value),
                other,
            ) == flag_is_set(status, other),
{
    let first = with_flag(status, StatusFlag::Z, value == 0);
    lemma_with_flag_sets(status, StatusFlag::Z, value == 0);
    lemma_with_flag_keeps_others(first, StatusFlag::N, value >= 0x80, StatusFlag::Z);
    lemma_with_flag_sets(first, StatusFlag::N, value >= 0x80);
    assert forall|other: StatusFlag|
        other != StatusFlag::Z && other != StatusFlag::N implies flag_is_set(
        with_zero_negative(status, value),
        other,
    ) == flag_is_set(status, other) by {
        lemma_with_flag_keeps_others(status, StatusFlag::Z, value == 0, other);
        lemma_with_flag_keeps_others(first, StatusFlag::N, value >= 0x80, other);
    }
}

impl Registers {
    /// The registers at cold boot: everything is zero.
    pub fn new() -> (r: Self)
        ensures
            r == (Registers { a: 0, x: 0, y: 0, s: 0, pc: 0, status: 0 }),
    {
        Self { a: 0, x: 0, y: 0, s: 0, pc: 0, status: 0 }
    }

    /// Switches `flag` on or off and leaves the rest of the registers alone.
    pub fn set_flag(&mut self, flag: StatusFlag, activated: bool)
        ensures
            *final(self) == (Registers {
                status: with_flag(old(self).status, flag, activated),
                ..*old(self)
            }),
    {
        if activated {
            self.status = self.status | flag.mask();
        } else {
            self.status = self.status & !flag.mask();
        }
    }

    /// Whether `flag` is set in the status register.
    pub open spec fn spec_is_flag_set(&self, flag: StatusFlag) -> bool {
        flag_is_set(self.status, flag)
    }

    /// Whether `flag` is set in the status register.
    #[verifier::when_used_as_spec(spec_is_flag_set)]
    pub fn is_flag_set(&self, flag: StatusFlag) -> (set: bool)
        ensures
            set == flag_is_set(self.status, flag),
    {
        let val = flag.mask();
        self.status & val == val
    }

    /// Derives the zero and negative flags from `value`.
    pub fn set_zero_negative(&mut self, value: u8)
        ensures
            *final(self) == (Registers {
                status: with_zero_negative(old(self).status, value),
                ..*old(self)
            }),
    {
        self.set_flag(StatusFlag::Z, value == 0);
        self.set_flag(StatusFlag::N, value >= 0x80);
    }
}

/// What a `Memory` holds, as mathematical values.
pub struct MemoryView {
    pub memory: Seq<u8>,
    pub ppu: Seq<u8>,
    pub stack_pointer: u16,
}

/// The address in page 1 that the stack pointer `sp` designates. Only the
/// low byte of `sp` counts.
pub open spec fn stack_address(sp: u16) -> int {
    0x100 + sp as int % 256
}

/// The stack pointer after a push: the low byte is decremented and wraps
/// from 0x00 to 0xFF, the high byte is kept.
pub open spec fn pointer_after_push(sp: u16) -> u16 {
    if sp as int % 256 == 0 {
        (sp + 255) as u16
    } else {
        (sp - 1) as u16
    }
}

/// The stack pointer after a pop: the low byte is incremented and wraps
/// from 0xFF to 0x00, the high byte is kept.
pub open spec fn pointer_after_pop(sp: u16) -> u16 {
    if sp as int % 256 == 255 {
        (sp - 255) as u16
    } else {
        (sp + 1) as u16
    }
}

/// The memory after `val` has been pushed on the stack.
pub open spec fn pushed(m: MemoryView, val: u8) -> MemoryView {
    MemoryView {
        memory: m.memory.update(stack_address(m.stack_pointer), val),
        ppu: m.ppu,
        stack_pointer: pointer_after_push(m.stack_pointer),
    }
}

/// The memory after the top of the stack has been popped.
pub open spec fn popped(m: MemoryView) -> MemoryView {
    MemoryView { stack_pointer: pointer_after_pop(m.stack_pointer), ..m }
}

/// The byte that a pop returns.
pub open spec fn stack_top(m: MemoryView) -> u8 {
    m.memory[stack_address(pointer_after_pop(m.stack_pointer))]
}

/// The main memory of the machine: 64 KiB of addressable bytes, the video
/// memory and the stack pointer.
///
/// The zero page is 0x0000..=0x00FF, the stack lives in 0x0100..=0x01FF.
pub struct Memory {
    pub memory: Vec<u8>,
    pub ppu: Vec<u8>,
    pub stack_pointer: u16,
}

impl View for Memory {
    type V = MemoryView;

    open spec fn view(&self) -> MemoryView {
        MemoryView { memory: self.memory@, ppu: self.ppu@, stack_pointer: self.stack_pointer }
    }
}

impl Memory {
    /// The whole address space is backed: 64 KiB of main memory and 16 KiB
    /// of video memory.
    pub open spec fn wf(&self) -> bool {
        self.memory@.len() == 0x10000 && self.ppu@.len() == 0x4000
    }

    /// A zeroed memory whose stack pointer designates the top of page 1.
    pub fn new() -> (m: Self)
        ensures
            m.wf(),
            m.stack_pointer == 0x01FF,
            forall|i: int| 0 <= i < 0x10000 ==> m.memory@[i] == 0,
            forall|i: int| 0 <= i < 0x4000 ==> m.ppu@[i] == 0,
    {
        let memory = vec![0u8; 0x10000];
        let ppu = vec![0u8; 0x4000];
        Self { memory, ppu, stack_pointer: 0x01FF }
    }

    /// The byte at `addr`.
    pub fn read(&self, addr: u16) -> (val: u8)
        requires
            self.wf(),
        ensures
            val == byte_at(self.memory@, addr),
    {
        self.memory[addr as usize]
    }

    /// Stores `val` at `addr`.
    pub fn write(&mut self, addr: u16, val: u8)
        requires
            old(self).wf(),
        ensures
            final(self).wf(),
            final(self)@ == stored(old(self)@, addr, val),
    {
        self.memory.set(addr as usize, val);
    }

    /// Stores `val` where the stack pointer designates, then moves the
    /// stack pointer down by one inside page 1.
    pub fn stack_push(&mut self, val: u8)
        requires
            old(self).wf(),
        ensures
            final(self).wf(),
            final(self)@ == pushed(old(self)@, val),
    {
        let low: u16 = self.stack_pointer % 256;
        self.memory.set((0x100 + low) as usize, val);
        if low == 0 {
            self.stack_pointer = self.stack_pointer + 255;
        } else {
            self.stack_pointer = self.stack_pointer - 1;
        }
    }

    /// Moves the stack pointer up by one inside page 1, then returns the
    /// byte that it designates.
    #[must_use]
    pub fn stack_pop(&mut self) -> (val: u8)
        requires
            old(self).wf(),
        ensures
            final(self).wf(),
            final(self)@ == popped(old(self)@),
            val == stack_top(old(self)@),
    {
        let low: u16 = self.stack_pointer % 256;
        if low == 255 {
            self.stack_pointer = self.stack_pointer - 255;
        } else {
            self.stack_pointer = self.stack_pointer + 1;
        }
        let low: u16 = self.stack_pointer % 256;
        self.memory[(0x100 + low) as usize]
    }
}

/// The stack pointer always designates an address of page 1.
pub proof fn lemma_stack_stays_in_page_one(sp: u16)
    ensures
        0x0100 <= stack_address(sp) <= 0x01FF,
        0x0100 <= stack_address(pointer_after_push(sp)) <= 0x01FF,
        0x0100 <= stack_address(pointer_after_pop(sp)) <= 0x01FF,
        pointer_after_push(sp) as int / 256 == sp as int / 256,
        pointer_after_pop(sp) as int / 256 == sp as int / 256,
{
}

/// A pop undoes a push: it returns the pushed byte and restores the stack
/// pointer.
pub proof fn lemma_pop_after_push(m: MemoryView, val: u8)
    requires
        m.memory.len() == 0x10000,
    ensures
        stack_top(pushed(m, val)) == val,
        popped(pushed(m, val)).stack_pointer == m.stack_pointer,
        pointer_after_push(pointer_after_pop(m.stack_pointer)) == m.stack_pointer,
{
}

/// The processor and its memory, as mathematical values.
pub struct CpuState {
    pub registers: Registers,
    pub memory: MemoryView,
}

/// The byte `value` plus one, wrapping from 0xFF to 0x00.
pub open spec fn incremented(value: u8) -> u8 {
    ((value as int + 1) % 256) as u8
}

/// The byte `value` minus one, wrapping from 0x00 to 0xFF.
pub open spec fn decremented(value: u8) -> u8 {
    ((value as int - 1) % 256) as u8
}

/// The difference `left - right`, wrapped to 8 bits.
pub open spec fn wrapped_difference(left: u8, right: u8) -> u8 {
    ((left as int - right as int) % 256) as u8
}

/// The low byte of a 16-bit value.
pub open spec fn low_byte_of(value: u16) -> u8 {
    (value as int % 256) as u8
}

/// The high byte of a 16-bit value.
pub open spec fn high_byte_of(value: u16) -> u8 {
    (value as int / 256) as u8
}

/// The byte of `memory` at the address `addr`.
pub open spec fn byte_at(memory: Seq<u8>, addr: u16) -> u8 {
    memory[addr as int]
}

/// The memory contents `memory` with `value` stored at `addr`.
pub open spec fn stored(m: MemoryView, addr: u16, value: u8) -> MemoryView {
    MemoryView { memory: m.memory.update(addr as int, value), ..m }
}

/// Adds one to a byte, wrapping at the 8-bit boundary.
pub fn increment(value: u8) -> (result: u8)
    ensures
        result == incremented(value),
{
    if value == 0xFF {
        0
    } else {
        value + 1
    }
}

/// Subtracts one from a byte, wrapping at the 8-bit boundary.
pub fn decrement(value: u8) -> (result: u8)
    ensures
        result == decremented(value),
{
    if value == 0 {
        0xFF
    } else {
        value - 1
    }
}

/// Subtracts `right` from `left`, wrapping at the 8-bit boundary.
pub fn subtract_wrapping(left: u8, right: u8) -> (result: u8)
    ensures
        result == wrapped_difference(left, right),
{
    if left >= right {
        left - right
    } else {
        ((left as u16 + 256 - right as u16) % 256) as u8
    }
}

/// Splits a 16-bit value into its low and its high byte.
pub fn split_address(value: u16) -> (bytes: (u8, u8))
    ensures
        bytes.0 == low_byte_of(value),
        bytes.1 == high_byte_of(value),
{
    ((value % 256) as u8, (value / 256) as u8)
}

/// The rule by which an instruction finds its operand.
#[derive(Debug, Clone, Copy, PartialEq, Eq, Structural)]
pub enum AddressingMode {
    Accumulator,
    Implied,
    Immediate,
    Absolute,
    ZeroPage,
    Relative,
    AbsoluteIndirect,
    AbsoluteIndirectWithX,
    AbsoluteIndirectWithY,
    ZeroPageIndexedWithX,
    ZeroPageIndexedWithY,
    ZeroPageIndexedIndirect,
    ZeroPageIndirectIndexedWithY,
}

} // verus!
