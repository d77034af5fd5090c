//! The registers and memory of the picture processing unit, as far as the
//! processor sees them.

use vstd::prelude::*;

verus! {

/// The memory of the picture processing unit: its address space and the
/// object attribute memory.
pub struct Memory {
    pub memory: Vec<u8>,
    pub oam: Vec<u8>,
}

impl Memory {
    /// The address space holds 64 KiB, the object attribute memory 256
    /// bytes.
    pub open spec fn wf(&self) -> bool {
        self.memory@.len() == 0x10000 && self.oam@.len() == 256
    }

    /// A zeroed memory.
    pub fn new() -> (m: Self)
        ensures
            m.wf(),
            forall|i: int| 0 <= i < 0x10000 ==> m.memory@[i] == 0,
            forall|i: int| 0 <= i < 256 ==> m.oam@[i] == 0,
    {
        let memory = vec![0u8; 0x10000];
        let oam = vec![0u8; 256];
        Self { memory, oam }
    }
}

/// The mask register (0x2001), decoded.
#[derive(Debug, Clone, Copy, PartialEq, Eq, Structural)]
pub struct Mask {
    pub color_emphasis: u8,
    pub sprite_enable: bool,
    pub background_enable: bool,
    pub sprite_left_column_enable: bool,
    pub background_left_column_enable: bool,
    pub greyscale: bool,
}

impl Mask {
    /// What the byte `byte` of the mask register means: bits 7 to 5 are the
    /// colour emphasis, bits 4 to 0 switches.
    pub open spec fn decode(byte: u8) -> Mask {
        Mask {
            color_emphasis: (byte & 0b11100000) >> 5,
            sprite_enable: byte & 0b10000 == 0b10000,
            background_enable: byte & 0b1000 == 0b1000,
            sprite_left_column_enable: byte & 0b100 == 0b100,
            background_left_column_enable: byte & 0b10 == 0b10,
            greyscale: byte & 0b1 == 0b1,
        }
    }

    /// The mask register after reset: the decoding of 0.
    pub fn new() -> (mask: Self)
        ensures
            mask == Mask::decode(0),
    {
        Self::new_from(0x0)
    }

    /// Decodes a byte written to the mask register.
    pub fn new_from(byte: u8) -> (mask: Self)
        ensures
            mask == Mask::decode(byte),
    {
        Self {
            color_emphasis: (byte & 0b11100000) >> 5,
            sprite_enable: byte & 0b10000 == 0b10000,
            background_enable: byte & 0b1000 == 0b1000,
            sprite_left_column_enable: byte & 0b100 == 0b100,
            background_left_column_enable: byte & 0b10 == 0b10,
            greyscale: byte & 0b1 == 0b1,
        }
    }
}

/// The control register (0x2000), decoded.
#[derive(Debug, Clone, Copy, PartialEq, Eq, Structural)]
pub struct Ctrl {
    pub nmi_enable: bool,
    pub ppu_master_slave: bool,
    pub sprite_height: u8,
    pub sprite_tile_select: bool,
    pub background_tile_select: bool,
    pub increment_mode: bool,
    pub nametable_select: u8,
}

impl Ctrl {
    /// What the byte `byte` of the control register means. The sprite
    /// height keeps bit 5 in place; the name table is chosen by bits 1
    /// and 0.
    pub open spec fn decode(byte: u8) -> Ctrl {
        Ctrl {
            nmi_enable: byte & 0b10000000 == 0b10000000,
            ppu_master_slave: byte & 0b01000000 == 0b01000000,
            sprite_height: byte & 0b00100000,
            sprite_tile_select: byte & 0b00001000 == 0b00001000,
            background_tile_select: byte & 0b00010000 == 0b00010000,
            increment_mode: byte & 0b00000100 == 0b00000100,
            nametable_select: byte & 0b11,
        }
    }

    /// The control register after reset: the decoding of 0.
    pub fn new() -> (ctrl: Self)
        ensures
            ctrl == Ctrl::decode(0),
    {
        Self::new_from(0x0)
    }

    /// Decodes a byte written to the control register.
    pub fn new_from(byte: u8) -> (ctrl: Self)
        ensures
            ctrl == Ctrl::decode(byte),
    {
        Self {
            nmi_enable: byte & 0b10000000 == 0b10000000,
            ppu_master_slave: byte & 0b01000000 == 0b01000000,
            sprite_height: byte & 0b00100000,
            sprite_tile_select: byte & 0b00001000 == 0b00001000,
            background_tile_select: byte & 0b00010000 == 0b00010000,
            increment_mode: byte & 0b00000100 == 0b00000100,
            nametable_select: byte & 0b11,
        }
    }
}

/// The status register (0x2002), decoded.
#[derive(Debug, Clone, Copy, PartialEq, Eq, Structural)]
pub struct Status {
    pub vblank: bool,
    pub sprite_0_hit: bool,
    pub sprite_overflow: bool,
}

impl Status {
    /// What the byte `byte` of the status register means: bits 7, 6 and 5.
    pub open spec fn decode(byte: u8) -> Status {
        Status {
            vblank: byte & 0b10000000 == 0b10000000,
            sprite_0_hit: byte & 0b1000000 == 0b1000000,
            sprite_overflow: byte & 0b100000 == 0b100000,
        }
    }

    /// The status register after reset: the decoding of 0.
    pub fn new() -> (status: Self)
        ensures
            status == Status::decode(0),
    {
        Self::new_from(0x0)
    }

    /// Decodes a byte read from the status register.
    pub fn new_from(byte: u8) -> (status: Self)
        ensures
            status == Status::decode(byte),
    {
        Self {
            vblank: byte & 0b10000000 == 0b10000000,
            sprite_0_hit: byte & 0b1000000 == 0b1000000,
            sprite_overflow: byte & 0b100000 == 0b100000,
        }
    }
}

/// The three registers of the picture processing unit that the processor
/// can reach.
#[derive(Debug, Clone, Copy, PartialEq, Eq, Structural)]
pub struct Registers {
    pub ctrl: Ctrl,
    pub mask: Mask,
    pub status: Status,
}

impl Registers {
    /// The registers after reset.
    pub fn new() -> (r: Self)
        ensures
            r == (Registers {
                ctrl: Ctrl::decode(0),
                mask: Mask::decode(0),
                status: Status::decode(0),
            }),
    {
        Self { ctrl: Ctrl::new(), mask: Mask::new(), status: Status::new() }
    }
}

} // verus!
