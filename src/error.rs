use vstd::prelude::*;

verus! {

/// Any failure the emulator reports.
#[derive(Debug, Clone, Copy, PartialEq, Eq, Structural)]
pub enum EmulatorError {
    Cpu(CpuError),
    Mmu(MmuError),
    Cartridge(CartridgeError),
}

/// Failures of the execution engine.
#[derive(Debug, Clone, Copy, PartialEq, Eq, Structural)]
pub enum CpuError {
    StackUnderflow,
    StackOverflow,
    /// An opcode with no defined behaviour: the opcode byte and the address
    /// it was fetched from.
    UnknownOpcode(u8, u16),
}

/// Failures of the memory bus.
#[derive(Debug, Clone, Copy, PartialEq, Eq, Structural)]
pub enum MmuError {
    StackUnderflow,
}

/// Reasons a cartridge image is refused at load time.
#[derive(Debug, Clone, Copy, PartialEq, Eq, Structural)]
pub enum CartridgeError {
    /// The header names a cartridge type other than plain ROM.
    UnsupportedType(u8),
    /// The image is not exactly 32 KiB.
    InvalidRomSize,
}

} // verus!
