pub mod alu;
pub mod bootrom;
pub mod cartridge;
pub mod cpu;
pub mod error;
pub mod interrupt;
pub mod memory;
pub mod registers;
pub mod utils;
pub mod instructions;
pub mod decode;
pub mod executor;
pub mod ppu;
pub mod semantics;
