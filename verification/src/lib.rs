//! An emulator core for the MOS 6502 derivative found in the NES.
//!
//! The crate decodes opcodes, resolves operand addresses, executes
//! instructions against a 64 KiB memory image and accounts for the cycles
//! each instruction takes. Every function carries a contract that is checked
//! by Verus.

pub mod cpu;
pub mod nes_rom;
pub mod nessy;
pub mod ppu;
pub mod text;
