//! A cycle-accurate emulator core for the 6502-family processor of a classic
//! home game console: the instruction interpreter (registers, flags,
//! addressing-mode resolution, opcode execution, cycle accounting), the
//! memory-mapped bus it reads and writes through, and the driver that keeps
//! the peripherals lock-stepped with the core clock.

pub mod apu;
pub mod bus;
pub mod cartridge;
pub mod console;
pub mod cpu;
pub mod flags;
pub mod optable;
pub mod ppu;
pub mod trace;
