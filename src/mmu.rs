use vstd::prelude::*;

use crate::hram::{Hram, HRAM_END, HRAM_SIZE, HRAM_START};
use crate::joypad::{Joypad, JOYPAD};
use crate::ppu::{Ppu, PpuState, LCD_END, LCD_START, OAM_END, OAM_START, VBK, VRAM_END, VRAM_START};
use crate::rom::{Rom, RomState, ERAM_END, ERAM_START, ROM_BANK_END};
use crate::timer::{Timer, DIV, TAC};
use crate::wram::{Wram, WramState, ECHO_END, ECHO_START, WRAM_END, WRAM_START};

verus! {

/// Interrupt request register.
pub const IF_ADDR: u16 = 0xFF0F;
/// Work-RAM bank select register.
pub const SVBK: u16 = 0xFF70;
/// Interrupt enable register.
pub const IE_ADDR: u16 = 0xFFFF;

/// The owner of an address of the 16-bit bus.
#[derive(Clone, Copy, Debug, PartialEq, Eq, Structural)]
pub enum Region {
    Rom,
    Vram,
    ExtRam,
    Wram,
    Echo,
    Oam,
    Joypad,
    Timer,
    InterruptFlag,
    Lcd,
    WramBank,
    Hram,
    InterruptEnable,
    Unmapped,
}

/// Whether region `r` claims address `a`; `Unmapped` claims what no device
/// or register does.
pub open spec fn claims(r: Region, a: u16) -> bool {
    match r {
        Region::Rom => a <= ROM_BANK_END,
        Region::Vram => VRAM_START <= a <= VRAM_END,
        Region::ExtRam => ERAM_START <= a <= ERAM_END,
        Region::Wram => WRAM_START <= a <= WRAM_END,
        Region::Echo => ECHO_START <= a <= ECHO_END,
        Region::Oam => OAM_START <= a <= OAM_END,
        Region::Joypad => a == JOYPAD,
        Region::Timer => DIV <= a <= TAC,
        Region::InterruptFlag => a == IF_ADDR,
        Region::Lcd => (LCD_START <= a <= LCD_END) || a == VBK,
        Region::WramBank => a == SVBK,
        Region::Hram => HRAM_START <= a <= HRAM_END,
        Region::InterruptEnable => a == IE_ADDR,
        Region::Unmapped => !(a <= ROM_BANK_END || (VRAM_START <= a <= VRAM_END) || (ERAM_START <= a
            <= ERAM_END) || (WRAM_START <= a <= WRAM_END) || (ECHO_START <= a <= ECHO_END) || (
        OAM_START <= a <= OAM_END) || a == JOYPAD || (DIV <= a <= TAC) || a == IF_ADDR || (LCD_START
            <= a <= LCD_END) || a == VBK || a == SVBK || (HRAM_START <= a <= HRAM_END) || a
            == IE_ADDR),
    }
}

/// The region that routes address `a`.
pub open spec fn region(a: u16) -> Region {
    if a <= ROM_BANK_END {
        Region::Rom
    } else if a <= VRAM_END {
        Region::Vram
    } else if a <= ERAM_END {
        Region::ExtRam
    } else if a <= WRAM_END {
        Region::Wram
    } else if a <= ECHO_END {
        Region::Echo
    } else if OAM_START <= a <= OAM_END {
        Region::Oam
    } else if a == JOYPAD {
        Region::Joypad
    } else if DIV <= a <= TAC {
        Region::Timer
    } else if a == IF_ADDR {
        Region::InterruptFlag
    } else if (LCD_START <= a <= LCD_END) || a == VBK {
        Region::Lcd
    } else if a == SVBK {
        Region::WramBank
    } else if HRAM_START <= a <= HRAM_END {
        Region::Hram
    } else if a == IE_ADDR {
        Region::InterruptEnable
    } else {
        Region::Unmapped
    }
}

/// Every address is claimed by exactly one region: the one that `region`
/// routes it to.
pub proof fn lemma_address_partition(a: u16)
    ensures
        claims(region(a), a),
        forall|r: Region| #[trigger] claims(r, a) ==> r == region(a),
{
}

/// What the whole bus holds.
pub struct BusState {
    pub rom: RomState,
    pub ppu: PpuState,
    pub wram: WramState,
    pub hram: Seq<u8>,
    pub joypad: Joypad,
    pub timer: Timer,
    pub inte: u8,
    pub intf: u8,
}

/// `a + 1`, wrapping at the top of the address space.
pub open spec fn next_addr(a: u16) -> u16 {
    ((a as int + 1) % 0x10000) as u16
}

/// Addresses backed by writable storage: video RAM, external RAM, work RAM
/// and its echo, the attribute table and high RAM.
pub open spec fn is_ram(a: u16) -> bool {
    (VRAM_START <= a <= VRAM_END) || (ERAM_START <= a <= ERAM_END) || (WRAM_START <= a <= ECHO_END)
        || (OAM_START <= a <= OAM_END) || (HRAM_START <= a <= HRAM_END)
}

impl BusState {
    /// Every device holds storage of its full size.
    pub open spec fn wf(self) -> bool {
        &&& self.rom.wf()
        &&& self.ppu.wf()
        &&& self.wram.wf()
        &&& self.hram.len() == HRAM_SIZE
    }

    pub open spec fn read(self, a: u16) -> u8 {
        match region(a) {
            Region::Rom | Region::ExtRam => self.rom.read(a),
            Region::Vram | Region::Oam | Region::Lcd => self.ppu.read(a),
            Region::Wram | Region::Echo => self.wram.read(a),
            Region::Joypad => self.joypad.read(),
            Region::Timer => self.timer.read(a),
            Region::InterruptFlag => self.intf,
            Region::WramBank => (self.wram.bank + 0xF8) as u8,
            Region::Hram => self.hram[a - HRAM_START],
            Region::InterruptEnable => self.inte,
            Region::Unmapped => 0xFF,
        }
    }

    pub open spec fn write(self, a: u16, v: u8) -> BusState {
        match region(a) {
            Region::Rom | Region::ExtRam => BusState { rom: self.rom.write(a, v), ..self },
            Region::Vram | Region::Oam | Region::Lcd => BusState { ppu: self.ppu.write(a, v), ..self },
            Region::Wram | Region::Echo => BusState { wram: self.wram.write(a, v), ..self },
            Region::Joypad => BusState { joypad: self.joypad.write(v), ..self },
            Region::Timer => BusState { timer: self.timer.write(a, v), ..self },
            Region::InterruptFlag => BusState { intf: v, ..self },
            Region::WramBank => BusState { wram: self.wram.select(v), ..self },
            Region::Hram => BusState { hram: self.hram.update(a - HRAM_START, v), ..self },
            Region::InterruptEnable => BusState { inte: v, ..self },
            Region::Unmapped => self,
        }
    }

    /// Little-endian word: low byte at `a`, high byte at `a + 1`.
    pub open spec fn read_word(self, a: u16) -> u16 {
        (self.read(a) as int + self.read(next_addr(a)) as int * 256) as u16
    }

    pub open spec fn write_word(self, a: u16, v: u16) -> BusState {
        self.write(a, (v % 256) as u8).write(next_addr(a), (v / 256) as u8)
    }

    /// The bus after `ticks` clock cycles: the devices advance and their
    /// raised request bits move into IF.
    pub open spec fn ticked(self, ticks: u32) -> BusState {
        let t = self.timer.ticked(ticks);
        BusState {
            timer: Timer { interrupt: 0, ..t },
            joypad: Joypad { interrupt: 0, ..self.joypad },
            ppu: PpuState { interrupt: 0, ..self.ppu },
            intf: ((self.intf | t.interrupt) | self.joypad.interrupt) | self.ppu.interrupt,
            ..self
        }
    }
}

/// Any write keeps the bus well formed.
pub proof fn lemma_write_wf(b: BusState, a: u16, v: u8)
    requires
        b.wf(),
    ensures
        b.write(a, v).wf(),
{
}

/// Any word write keeps the bus well formed.
pub proof fn lemma_write_word_wf(b: BusState, a: u16, v: u16)
    requires
        b.wf(),
    ensures
        b.write_word(a, v).wf(),
{
    lemma_write_wf(b, a, (v % 256) as u8);
    lemma_write_wf(b.write(a, (v % 256) as u8), next_addr(a), (v / 256) as u8);
}

/// A byte written to RAM reads back.
pub proof fn lemma_read_after_write(b: BusState, a: u16, v: u8)
    requires
        b.wf(),
        is_ram(a),
    ensures
        b.write(a, v).read(a) == v,
        b.write(a, v).wf(),
{
}

/// Writing one RAM address leaves every other address that is backed by
/// different storage as it was; in work RAM an address and its echo share
/// storage.
pub proof fn lemma_write_keeps_other(b: BusState, a: u16, c: u16, v: u8)
    requires
        b.wf(),
        is_ram(a),
        is_ram(c),
        unecho_addr(a) != unecho_addr(c),
    ensures
        b.write(a, v).read(c) == b.read(c),
{
}

/// The work-RAM address an echo address mirrors; other addresses are
/// themselves.
pub open spec fn unecho_addr(a: u16) -> u16 {
    if ECHO_START <= a <= ECHO_END {
        (a - 0x2000) as u16
    } else {
        a
    }
}

/// A word written to two RAM addresses reads back.
pub proof fn lemma_word_read_after_write(b: BusState, a: u16, v: u16)
    requires
        b.wf(),
        is_ram(a),
        is_ram(next_addr(a)),
    ensures
        b.write_word(a, v).read_word(a) == v,
        b.write_word(a, v).wf(),
{
    let lo = (v % 256) as u8;
    let hi = (v / 256) as u8;
    let b1 = b.write(a, lo);
    lemma_read_after_write(b, a, lo);
    lemma_read_after_write(b1, next_addr(a), hi);
    lemma_write_keeps_other(b1, next_addr(a), a, hi);
}

/// Routes each address of the 16-bit bus to the device or register that owns
/// it, and holds the interrupt enable and request registers.
pub struct Mmu {
    pub rom: Rom,
    pub ppu: Ppu,
    pub wram: Wram,
    pub hram: Hram,
    pub joypad: Joypad,
    pub timer: Timer,
    pub inte: u8,
    pub intf: u8,
}

impl View for Mmu {
    type V = BusState;

    open spec fn view(&self) -> BusState {
        BusState {
            rom: self.rom@,
            ppu: self.ppu@,
            wram: self.wram@,
            hram: self.hram@,
            joypad: self.joypad,
            timer: self.timer,
            inte: self.inte,
            intf: self.intf,
        }
    }
}

/// The region that routes address `a`.
pub fn region_of(a: u16) -> (r: Region)
    ensures
        r == region(a),
{
    if a <= ROM_BANK_END {
        Region::Rom
    } else if a <= VRAM_END {
        Region::Vram
    } else if a <= ERAM_END {
        Region::ExtRam
    } else if a <= WRAM_END {
        Region::Wram
    } else if a <= ECHO_END {
        Region::Echo
    } else if OAM_START <= a && a <= OAM_END {
        Region::Oam
    } else if a == JOYPAD {
        Region::Joypad
    } else if DIV <= a && a <= TAC {
        Region::Timer
    } else if a == IF_ADDR {
        Region::InterruptFlag
    } else if (LCD_START <= a && a <= LCD_END) || a == VBK {
        Region::Lcd
    } else if a == SVBK {
        Region::WramBank
    } else if HRAM_START <= a && a <= HRAM_END {
        Region::Hram
    } else if a == IE_ADDR {
        Region::InterruptEnable
    } else {
        Region::Unmapped
    }
}

impl Mmu {
    pub open spec fn wf(&self) -> bool {
        self.rom.wf() && self.ppu.wf() && self.wram.wf() && self.hram.wf()
    }

    /// A well-formed bus has a well-formed view.
    pub proof fn lemma_view_wf(&self)
        requires
            self.wf(),
        ensures
            self@.wf(),
    {
    }

    pub fn new(rom: Rom) -> (r: Mmu)
        requires
            rom.wf(),
        ensures
            r.wf(),
            r@.wf(),
            r@.rom == rom@,
            r@.wram.bank == 1,
            r.inte == 0 && r.intf == 0,
            r.timer.interrupt == 0 && r.joypad.interrupt == 0 && r@.ppu.interrupt == 0,
    {
        Mmu {
            rom,
            ppu: Ppu::new(),
            wram: Wram::new(),
            hram: Hram::new(),
            joypad: Joypad::new(),
            timer: Timer::new(),
            inte: 0,
            intf: 0,
        }
    }

    pub fn rb(&self, a: u16) -> (r: u8)
        requires
            self.wf(),
        ensures
            r == self@.read(a),
    {
        match region_of(a) {
            Region::Rom | Region::ExtRam => self.rom.rb(a),
            Region::Vram | Region::Oam | Region::Lcd => self.ppu.rb(a),
            Region::Wram | Region::Echo => self.wram.rb(a),
            Region::Joypad => self.joypad.rb(),
            Region::Timer => {
                let mut t = self.timer;
                t.rb(a)
            },
            Region::InterruptFlag => self.intf,
            Region::WramBank => (self.wram.bank() as u8) + 0xF8,
            Region::Hram => self.hram.rb(a),
            Region::InterruptEnable => self.inte,
            Region::Unmapped => 0xFF,
        }
    }

    pub fn wb(&mut self, a: u16, v: u8)
        requires
            old(self).wf(),
        ensures
            final(self).wf(),
            final(self)@ == old(self)@.write(a, v),
    {
        match region_of(a) {
            Region::Rom | Region::ExtRam => self.rom.wb(a, v),
            Region::Vram | Region::Oam | Region::Lcd => self.ppu.wb(a, v),
            Region::Wram | Region::Echo => self.wram.wb(a, v),
            Region::Joypad => self.joypad.wb(v),
            Region::Timer => self.timer.wb(a, v),
            Region::InterruptFlag => self.intf = v,
            Region::WramBank => self.wram.set_bank(v),
            Region::Hram => self.hram.wb(a, v),
            Region::InterruptEnable => self.inte = v,
            Region::Unmapped => {},
        }
    }

    /// Little-endian word read.
    pub fn rw(&self, address: u16) -> (r: u16)
        requires
            self.wf(),
        ensures
            r == self@.read_word(address),
    {
        (self.rb(address) as u16) + (self.rb(address.wrapping_add(1)) as u16) * 256
    }

    /// Little-endian word write: low byte first.
    pub fn ww(&mut self, a: u16, v: u16)
        requires
            old(self).wf(),
        ensures
            final(self).wf(),
            final(self)@ == old(self)@.write_word(a, v),
    {
        self.wb(a, (v % 256) as u8);
        self.wb(a.wrapping_add(1), (v / 256) as u8);
    }

    /// Hands `ticks` clock cycles to the timer, the joypad and the display
    /// controller, and moves the request bits each raised into IF.
    pub fn do_cycle(&mut self, ticks: u32) -> (r: u32)
        requires
            old(self).wf(),
        ensures
            r == ticks,
            final(self).wf(),
            final(self)@ == old(self)@.ticked(ticks),
    {
        self.timer.do_cycle(ticks);
        self.intf = self.intf | self.timer.interrupt;
        self.timer.interrupt = 0;

        self.intf = self.intf | self.joypad.interrupt;
        self.joypad.interrupt = 0;

        self.ppu.do_cycle(ticks);
        let p = self.ppu.take_interrupt();
        self.intf = self.intf | p;

        ticks
    }
}

} // verus!
