use vstd::prelude::*;

use crate::cpu::CPU;
use crate::error::EmulatorError;
use crate::isa::CpuState;
use crate::ppu::{gradient_pixel, SCREEN_HEIGHT, SCREEN_WIDTH};
use crate::rom::{image_error, Rom, ERAM_SIZE};

verus! {

/// The whole console: the execution engine with its bus and peripherals.
pub struct Device {
    pub cpu: CPU,
    /// Where a snapshot of the state is kept, when one was named.
    pub save_state: Option<String>,
}

impl Device {
    pub open spec fn wf(&self) -> bool {
        self.cpu.wf()
    }

    /// Builds the console around a cartridge image; a malformed image is
    /// refused before the engine exists.
    pub fn new(rom: Vec<u8>, save_state: Option<String>) -> (r: Result<Device, EmulatorError>)
        ensures
            match r {
                Ok(d) => {
                    &&& image_error(rom@) is None
                    &&& d.wf()
                    &&& d.cpu.mmu@.rom.rom == rom@
                    &&& d.cpu.mmu@.rom.eram == Seq::new(ERAM_SIZE as nat, |i: int| 0u8)
                    &&& d.cpu.at_power_on(d.cpu.mmu@.rom)
                    &&& d.save_state == save_state
                },
                Err(e) => image_error(rom@) matches Some(c) && e == EmulatorError::Cartridge(c),
            },
    {
        match Rom::from_bytes(rom) {
            Ok(cart) => Ok(Device { cpu: CPU::new(cart), save_state }),
            Err(e) => Err(EmulatorError::Cartridge(e)),
        }
    }

    /// One engine step with its cycles handed to the peripherals; returns
    /// the clock cycles taken.
    pub fn do_cycle(&mut self) -> (r: Result<u32, EmulatorError>)
        requires
            old(self).wf(),
        ensures
            final(self).wf(),
            final(self).save_state == old(self).save_state,
            match r {
                Ok(t) => {
                    let (s, c) = old(self).cpu@.step();
                    &&& !old(self).cpu@.faults()
                    &&& t == 4 * c
                    &&& final(self).cpu@ == (CpuState { bus: s.bus.ticked(t), ..s })
                },
                Err(e) => old(self).cpu@.faults() && e == EmulatorError::Cpu(
                    crate::error::CpuError::UnknownOpcode(
                        old(self).cpu@.next_opcode(),
                        old(self).cpu.regs.pc,
                    ),
                ),
            },
    {
        match self.cpu.do_cycle() {
            Ok(t) => Ok(t),
            Err(e) => Err(EmulatorError::Cpu(e)),
        }
    }

    /// The frame for the presentation layer.
    pub fn ppu_data(&self) -> (r: Vec<u32>)
        ensures
            r@.len() == SCREEN_WIDTH * SCREEN_HEIGHT,
            forall|i: int|
                0 <= i < r@.len() ==> #[trigger] r@[i] == gradient_pixel(
                    i % SCREEN_WIDTH as int,
                    i / SCREEN_WIDTH as int,
                ),
    {
        self.cpu.mmu.ppu.get_framebuffer()
    }
}

} // verus!
