//! An emulator core for a 6502-based cartridge console: the processor, the
//! picture unit, and the bus and register mailbox between them.
pub mod instruction;
pub mod ppu;
pub mod ppu_register_bus;
pub mod cassette;
pub mod cpu;
pub mod execute;
pub mod nes;
pub mod memory;
pub mod rom;
pub mod laws;
