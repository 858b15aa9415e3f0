use vstd::prelude::*;

use crate::error::CartridgeError;
use crate::mem::zeroed;

verus! {

pub const ROM_SIZE: usize = 0x8000;
pub const ROM_START: u16 = 0x0000;
pub const ROM_BANK_END: u16 = 0x7FFF;

pub const ERAM_SIZE: usize = 0x2000;
pub const ERAM_START: u16 = 0xA000;
pub const ERAM_END: u16 = 0xBFFF;

/// Header offset of the cartridge type byte.
pub const CART_TYPE_OFFSET: usize = 0x147;

/// The cartridge: 32 KiB of fixed ROM and 8 KiB of external RAM.
pub struct Rom {
    bytes: Vec<u8>,
    eram: Vec<u8>,
}

/// What a cartridge holds.
pub struct RomState {
    pub rom: Seq<u8>,
    pub eram: Seq<u8>,
}

impl RomState {
    /// 32 KiB of ROM and 8 KiB of external RAM.
    pub open spec fn wf(self) -> bool {
        self.rom.len() == ROM_SIZE && self.eram.len() == ERAM_SIZE
    }

    /// Byte at an address of the ROM window or of the external RAM window.
    pub open spec fn read(self, a: u16) -> u8 {
        if a <= ROM_BANK_END {
            self.rom[a as int]
        } else {
            self.eram[a - ERAM_START]
        }
    }

    /// Writes land in external RAM; the ROM window ignores them.
    pub open spec fn write(self, a: u16, v: u8) -> RomState {
        if ERAM_START <= a <= ERAM_END {
            RomState { eram: self.eram.update(a - ERAM_START, v), ..self }
        } else {
            self
        }
    }
}

/// Whether an image of these bytes is accepted as a cartridge.
pub open spec fn image_error(bytes: Seq<u8>) -> Option<CartridgeError> {
    if bytes.len() != ROM_SIZE {
        Some(CartridgeError::InvalidRomSize)
    } else if bytes[CART_TYPE_OFFSET as int] != 0 {
        Some(CartridgeError::UnsupportedType(bytes[CART_TYPE_OFFSET as int]))
    } else {
        None
    }
}

impl View for Rom {
    type V = RomState;

    closed spec fn view(&self) -> RomState {
        RomState { rom: self.bytes@, eram: self.eram@ }
    }
}

impl Rom {
    pub open spec fn wf(&self) -> bool {
        self@.wf()
    }

    /// Checks a cartridge image and builds the cartridge with cleared
    /// external RAM.
    pub fn from_bytes(bytes: Vec<u8>) -> (r: Result<Rom, CartridgeError>)
        ensures
            match r {
                Ok(rom) => image_error(bytes@) is None && rom.wf() && rom@.rom == bytes@
                    && rom@.eram == Seq::new(ERAM_SIZE as nat, |i: int| 0u8),
                Err(e) => image_error(bytes@) == Some(e),
            },
    {
        if bytes.len() != ROM_SIZE {
            return Err(CartridgeError::InvalidRomSize);
        }
        let t = bytes[CART_TYPE_OFFSET];
        if t != 0 {
            return Err(CartridgeError::UnsupportedType(t));
        }
        Ok(Rom { bytes, eram: zeroed(ERAM_SIZE) })
    }

    /// Byte of the fixed ROM.
    pub fn read(&self, address: u16) -> (r: u8)
        requires
            self.wf(),
            address <= ROM_BANK_END,
        ensures
            r == self@.rom[address as int],
    {
        self.bytes[address as usize]
    }

    pub fn rb(&self, a: u16) -> (r: u8)
        requires
            self.wf(),
            a <= ROM_BANK_END || ERAM_START <= a <= ERAM_END,
        ensures
            r == self@.read(a),
    {
        if a <= ROM_BANK_END {
            self.read(a)
        } else {
            self.eram[(a - ERAM_START) as usize]
        }
    }

    pub fn wb(&mut self, a: u16, v: u8)
        requires
            old(self).wf(),
        ensures
            final(self).wf(),
            final(self)@ == old(self)@.write(a, v),
    {
        if ERAM_START <= a && a <= ERAM_END {
            self.eram.set((a - ERAM_START) as usize, v);
        }
    }
}

} // verus!
