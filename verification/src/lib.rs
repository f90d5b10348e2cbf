//! An 8-bit CPU core compatible with the Game Boy's processor: register file,
//! flag semantics, addressing-mode polymorphism, instruction decode/execute,
//! stack and interrupt handling, and the 64KB memory bus that routes accesses
//! across ROM, work RAM, memory-mapped I/O, and high RAM.

pub mod addressing;
pub mod cartridge;
pub mod cpu;
pub mod gpu;
pub mod instructions;
pub mod laws;
pub mod memory;
pub mod registers;
