use vstd::prelude::*;

use crate::mem::zeroed;

verus! {

pub const HRAM_SIZE: usize = 0x7F;
pub const HRAM_START: u16 = 0xFF80;
pub const HRAM_END: u16 = 0xFFFE;

/// High RAM: 127 bytes at 0xFF80..=0xFFFE.
pub struct Hram {
    bytes: Vec<u8>,
}

impl View for Hram {
    type V = Seq<u8>;

    closed spec fn view(&self) -> Seq<u8> {
        self.bytes@
    }
}

impl Hram {
    pub open spec fn wf(&self) -> bool {
        self@.len() == HRAM_SIZE
    }

    pub fn new() -> (r: Hram)
        ensures
            r.wf(),
            r@ == Seq::new(HRAM_SIZE as nat, |i: int| 0u8),
    {
        Hram { bytes: zeroed(HRAM_SIZE) }
    }

    pub fn rb(&self, a: u16) -> (r: u8)
        requires
            self.wf(),
            HRAM_START <= a <= HRAM_END,
        ensures
            r == self@[a - HRAM_START],
    {
        self.bytes[(a - HRAM_START) as usize]
    }

    pub fn wb(&mut self, a: u16, v: u8)
        requires
            old(self).wf(),
            HRAM_START <= a <= HRAM_END,
        ensures
            final(self).wf(),
            final(self)@ == old(self)@.update(a - HRAM_START, v),
    {
        self.bytes.set((a - HRAM_START) as usize, v);
    }
}

} // verus!
