use vstd::prelude::*;

use crate::mem::zeroed;

verus! {

pub const WRAM_BANK_SIZE: usize = 0x1000;
pub const WRAM_BANK_COUNT: usize = 8;
pub const WRAM_SIZE: usize = 0x8000;

pub const WRAM_START: u16 = 0xC000;
pub const WRAM_END: u16 = 0xDFFF;

pub const ECHO_START: u16 = 0xE000;
pub const ECHO_END: u16 = 0xFDFF;

/// Banked work RAM: bank 0 at 0xC000..=0xCFFF, the selected bank (1 to 7) at
/// 0xD000..=0xDFFF, and the echo window mirroring both 0x2000 higher.
pub struct Wram {
    data: Vec<u8>,
    wram_bank: usize,
}

/// What work RAM holds: eight banks one after the other, and the selected bank.
pub struct WramState {
    pub data: Seq<u8>,
    pub bank: int,
}

/// The work-RAM address that an address of the work-RAM or echo window
/// stands for.
pub open spec fn unecho(a: u16) -> int {
    if a >= ECHO_START {
        a - 0x2000
    } else {
        a as int
    }
}

impl WramState {
    /// Eight banks of 4 KiB, and bank 1 to 7 selected at 0xD000.
    pub open spec fn wf(self) -> bool {
        self.data.len() == WRAM_SIZE && 1 <= self.bank < WRAM_BANK_COUNT
    }

    /// Position in the bank array of a work-RAM or echo address.
    pub open spec fn offset(self, a: u16) -> int {
        let w = unecho(a);
        if w < 0xD000 {
            w - WRAM_START
        } else {
            self.bank * 0x1000 + (w - 0xD000)
        }
    }

    pub open spec fn read(self, a: u16) -> u8 {
        self.data[self.offset(a)]
    }

    pub open spec fn write(self, a: u16, v: u8) -> WramState {
        WramState { data: self.data.update(self.offset(a), v), ..self }
    }

    /// Selecting bank 0 selects bank 1.
    pub open spec fn select(self, v: u8) -> WramState {
        WramState { bank: if v % 8 == 0 { 1int } else { v as int % 8 }, ..self }
    }
}

impl View for Wram {
    type V = WramState;

    closed spec fn view(&self) -> WramState {
        WramState { data: self.data@, bank: self.wram_bank as int }
    }
}

impl Wram {
    pub open spec fn wf(&self) -> bool {
        self@.wf()
    }

    pub fn new() -> (r: Wram)
        ensures
            r.wf(),
            r@.bank == 1,
            r@.data == Seq::new(WRAM_SIZE as nat, |i: int| 0u8),
    {
        Wram { data: zeroed(WRAM_SIZE), wram_bank: 1 }
    }

    pub fn bank(&self) -> (r: usize)
        requires
            self.wf(),
        ensures
            r == self@.bank,
            1 <= r <= 7,
    {
        self.wram_bank
    }

    /// Selects the bank mapped at 0xD000 from the low three bits of `v`.
    pub fn set_bank(&mut self, v: u8)
        requires
            old(self).wf(),
        ensures
            final(self).wf(),
            final(self)@ == old(self)@.select(v),
    {
        let b = (v % 8) as usize;
        self.wram_bank = if b == 0 { 1 } else { b };
    }

    fn offset(&self, a: u16) -> (r: usize)
        requires
            self.wf(),
            WRAM_START <= a <= ECHO_END,
        ensures
            r == self@.offset(a),
            r < WRAM_SIZE,
    {
        let w = if a >= ECHO_START { a - 0x2000 } else { a };
        if w < 0xD000 {
            (w - WRAM_START) as usize
        } else {
            self.wram_bank * WRAM_BANK_SIZE + (w - 0xD000) as usize
        }
    }

    pub fn rb(&self, address: u16) -> (r: u8)
        requires
            self.wf(),
            WRAM_START <= address <= ECHO_END,
        ensures
            r == self@.read(address),
    {
        let i = self.offset(address);
        self.data[i]
    }

    pub fn wb(&mut self, a: u16, v: u8)
        requires
            old(self).wf(),
            WRAM_START <= a <= ECHO_END,
        ensures
            final(self).wf(),
            final(self)@ == old(self)@.write(a, v),
    {
        let i = self.offset(a);
        self.data.set(i, v);
    }
}

} // verus!
