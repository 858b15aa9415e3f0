pub mod alu;
pub mod cpu;
pub mod device;
pub mod error;
pub mod event;
pub mod gpu;
pub mod hram;
pub mod isa;
pub mod joypad;
pub mod mem;
pub mod mmu;
pub mod ppu;
pub mod registers;
pub mod rom;
pub mod timer;
pub mod wram;
