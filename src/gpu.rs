use vstd::prelude::*;

use crate::mem::zeroed;

verus! {

pub const VRAM_SIZE: usize = 0x2000;
pub const OAM_SIZE: usize = 0xA0;

/// Flat video memory followed by the sprite attribute table, addressed by
/// offset.
pub struct Gpu {
    bytes: Vec<u8>,
}

impl View for Gpu {
    type V = Seq<u8>;

    closed spec fn view(&self) -> Seq<u8> {
        self.bytes@
    }
}

impl Gpu {
    pub open spec fn size() -> nat {
        (VRAM_SIZE + OAM_SIZE) as nat
    }

    pub open spec fn wf(&self) -> bool {
        self@.len() == Self::size()
    }

    pub fn new() -> (r: Gpu)
        ensures
            r.wf(),
            r@ == Seq::new(Self::size(), |i: int| 0u8),
    {
        Gpu { bytes: zeroed(VRAM_SIZE + OAM_SIZE) }
    }

    pub fn read(&self, address: u16) -> (r: u8)
        requires
            self.wf(),
            address < Self::size(),
        ensures
            r == self@[address as int],
    {
        self.bytes[address as usize]
    }
}

} // verus!
