use vstd::prelude::*;

use crate::mem::zeroed;

verus! {

pub const VRAM_BANK_SIZE: usize = 0x2000;
pub const VRAM_START: u16 = 0x8000;
pub const VRAM_END: u16 = 0x9FFF;

pub const OAM_SIZE: usize = 0xA0;
pub const OAM_START: u16 = 0xFE00;
pub const OAM_END: u16 = 0xFE9F;

pub const LCD_START: u16 = 0xFF40;
pub const LY: u16 = 0xFF44;
pub const LCD_END: u16 = 0xFF4B;
pub const VBK: u16 = 0xFF4F;

pub const SCREEN_WIDTH: usize = 160;
pub const SCREEN_HEIGHT: usize = 144;

/// The display controller's plain registers.
#[derive(Clone, Copy)]
pub struct LcdRegs {
    pub lcdc: u8,
    pub stat: u8,
    pub scy: u8,
    pub scx: u8,
    pub ly: u8,
    pub lyc: u8,
    pub dma: u8,
    pub bgp: u8,
    pub obp0: u8,
    pub obp1: u8,
    pub wy: u8,
    pub wx: u8,
    pub vram_bank: u8,
}

/// The display controller: two banks of video RAM, the sprite attribute
/// table and the LCD registers. Picture generation is a placeholder.
pub struct Ppu {
    vram: Vec<u8>,
    oam: Vec<u8>,
    regs: LcdRegs,
    interrupt: u8,
}

pub struct PpuState {
    pub vram: Seq<u8>,
    pub oam: Seq<u8>,
    pub regs: LcdRegs,
    /// Interrupt request bits raised since the bus last collected them.
    pub interrupt: u8,
}

/// Addresses the display controller answers to.
pub open spec fn ppu_claims(a: u16) -> bool {
    (VRAM_START <= a <= VRAM_END) || (OAM_START <= a <= OAM_END) || (LCD_START <= a <= LCD_END)
        || a == VBK
}

impl PpuState {
    /// Two banks of video RAM, the full attribute table, bank 0 or 1 selected.
    pub open spec fn wf(self) -> bool {
        &&& self.vram.len() == 2 * VRAM_BANK_SIZE
        &&& self.oam.len() == OAM_SIZE
        &&& self.regs.vram_bank <= 1
    }

    pub open spec fn read(self, a: u16) -> u8 {
        let r = self.regs;
        if VRAM_START <= a <= VRAM_END {
            self.vram[r.vram_bank * 0x2000 + (a - VRAM_START)]
        } else if OAM_START <= a <= OAM_END {
            self.oam[a - OAM_START]
        } else if a == 0xFF40 {
            r.lcdc
        } else if a == 0xFF41 {
            r.stat
        } else if a == 0xFF42 {
            r.scy
        } else if a == 0xFF43 {
            r.scx
        } else if a == 0xFF44 {
            r.ly
        } else if a == 0xFF45 {
            r.lyc
        } else if a == 0xFF46 {
            r.dma
        } else if a == 0xFF47 {
            r.bgp
        } else if a == 0xFF48 {
            r.obp0
        } else if a == 0xFF49 {
            r.obp1
        } else if a == 0xFF4A {
            r.wy
        } else if a == 0xFF4B {
            r.wx
        } else if a == VBK {
            (r.vram_bank + 0xFE) as u8
        } else {
            0xFF
        }
    }

    /// LY is cleared by any write; VBK keeps bit 0 only.
    pub open spec fn write(self, a: u16, v: u8) -> PpuState {
        let r = self.regs;
        if VRAM_START <= a <= VRAM_END {
            PpuState { vram: self.vram.update(r.vram_bank * 0x2000 + (a - VRAM_START), v), ..self }
        } else if OAM_START <= a <= OAM_END {
            PpuState { oam: self.oam.update(a - OAM_START, v), ..self }
        } else {
            PpuState {
                regs: if a == 0xFF40 {
                    LcdRegs { lcdc: v, ..r }
                } else if a == 0xFF41 {
                    LcdRegs { stat: v, ..r }
                } else if a == 0xFF42 {
                    LcdRegs { scy: v, ..r }
                } else if a == 0xFF43 {
                    LcdRegs { scx: v, ..r }
                } else if a == 0xFF44 {
                    LcdRegs { ly: 0, ..r }
                } else if a == 0xFF45 {
                    LcdRegs { lyc: v, ..r }
                } else if a == 0xFF46 {
                    LcdRegs { dma: v, ..r }
                } else if a == 0xFF47 {
                    LcdRegs { bgp: v, ..r }
                } else if a == 0xFF48 {
                    LcdRegs { obp0: v, ..r }
                } else if a == 0xFF49 {
                    LcdRegs { obp1: v, ..r }
                } else if a == 0xFF4A {
                    LcdRegs { wy: v, ..r }
                } else if a == 0xFF4B {
                    LcdRegs { wx: v, ..r }
                } else if a == VBK {
                    LcdRegs { vram_bank: v % 2, ..r }
                } else {
                    r
                },
                ..self
            }
        }
    }
}

/// The placeholder picture: a gradient over x and y, opaque ARGB.
pub open spec fn gradient_pixel(x: int, y: int) -> u32 {
    (0xFF000000int + (x % 255) * 0x10000 + (y % 255) * 0x100 + (x + y) % 255) as u32
}

impl View for Ppu {
    type V = PpuState;

    closed spec fn view(&self) -> PpuState {
        PpuState { vram: self.vram@, oam: self.oam@, regs: self.regs, interrupt: self.interrupt }
    }
}

impl Ppu {
    pub open spec fn wf(&self) -> bool {
        self@.wf()
    }

    pub fn new() -> (r: Ppu)
        ensures
            r.wf(),
            r@.vram == Seq::new((2 * VRAM_BANK_SIZE) as nat, |i: int| 0u8),
            r@.oam == Seq::new(OAM_SIZE as nat, |i: int| 0u8),
            r@.regs.vram_bank == 1,
            r@.regs.ly == 0,
            r@.interrupt == 0,
    {
        Ppu {
            vram: zeroed(2 * VRAM_BANK_SIZE),
            oam: zeroed(OAM_SIZE),
            regs: LcdRegs {
                lcdc: 0,
                stat: 0,
                scy: 0,
                scx: 0,
                ly: 0,
                lyc: 0,
                dma: 0,
                bgp: 0,
                obp0: 0,
                obp1: 0,
                wy: 0,
                wx: 0,
                vram_bank: 1,
            },
            interrupt: 0,
        }
    }

    /// The frame handed to the presentation layer, row by row.
    pub fn get_framebuffer(&self) -> (r: Vec<u32>)
        ensures
            r@.len() == SCREEN_WIDTH * SCREEN_HEIGHT,
            forall|i: int|
                0 <= i < r@.len() ==> #[trigger] r@[i] == gradient_pixel(
                    i % SCREEN_WIDTH as int,
                    i / SCREEN_WIDTH as int,
                ),
    {
        let mut framebuffer: Vec<u32> = Vec::with_capacity(SCREEN_WIDTH * SCREEN_HEIGHT);
        let mut y: usize = 0;
        while y < SCREEN_HEIGHT
            invariant
                y <= SCREEN_HEIGHT,
                framebuffer@.len() == y * SCREEN_WIDTH,
                forall|i: int|
                    0 <= i < framebuffer@.len() ==> #[trigger] framebuffer@[i] == gradient_pixel(
                        i % SCREEN_WIDTH as int,
                        i / SCREEN_WIDTH as int,
                    ),
            decreases SCREEN_HEIGHT - y,
        {
            let mut x: usize = 0;
            while x < SCREEN_WIDTH
                invariant
                    y < SCREEN_HEIGHT,
                    x <= SCREEN_WIDTH,
                    framebuffer@.len() == y * SCREEN_WIDTH + x,
                    forall|i: int|
                        0 <= i < framebuffer@.len() ==> #[trigger] framebuffer@[i]
                            == gradient_pixel(i % SCREEN_WIDTH as int, i / SCREEN_WIDTH as int),
                decreases SCREEN_WIDTH - x,
            {
                let r = (x % 255) as u32;
                let g = (y % 255) as u32;
                let b = ((x + y) % 255) as u32;
                let pixel: u32 = 0xFF000000u32 + r * 0x10000 + g * 0x100 + b;
                proof {
                    let i = y * SCREEN_WIDTH + x;
                    assert(i % 160 == x && i / 160 == y) by (nonlinear_arith)
                        requires
                            i == y * 160 + x,
                            x < 160,
                    ;
                }
                framebuffer.push(pixel);
                x = x + 1;
            }
            y = y + 1;
        }
        framebuffer
    }

    /// Advances the display controller; picture timing is a placeholder, so
    /// nothing changes and no cycles are consumed.
    pub fn do_cycle(&mut self, ticks: u32) -> (r: u32)
        ensures
            r == 0,
            final(self)@ == old(self)@,
            final(self).wf() == old(self).wf(),
    {
        0
    }

    /// Hands over the raised interrupt request bits and clears them.
    pub fn take_interrupt(&mut self) -> (r: u8)
        requires
            old(self).wf(),
        ensures
            r == old(self)@.interrupt,
            final(self).wf(),
            final(self)@ == (PpuState { interrupt: 0, ..old(self)@ }),
    {
        let r = self.interrupt;
        self.interrupt = 0;
        r
    }

    pub fn rb(&self, a: u16) -> (r: u8)
        requires
            self.wf(),
        ensures
            r == self@.read(a),
    {
        let r = &self.regs;
        if VRAM_START <= a && a <= VRAM_END {
            self.vram[r.vram_bank as usize * VRAM_BANK_SIZE + (a - VRAM_START) as usize]
        } else if OAM_START <= a && a <= OAM_END {
            self.oam[(a - OAM_START) as usize]
        } else {
            match a {
                0xFF40 => r.lcdc,
                0xFF41 => r.stat,
                0xFF42 => r.scy,
                0xFF43 => r.scx,
                0xFF44 => r.ly,
                0xFF45 => r.lyc,
                0xFF46 => r.dma,
                0xFF47 => r.bgp,
                0xFF48 => r.obp0,
                0xFF49 => r.obp1,
                0xFF4A => r.wy,
                0xFF4B => r.wx,
                VBK => r.vram_bank + 0xFE,
                _ => 0xFF,
            }
        }
    }

    pub fn wb(&mut self, a: u16, v: u8)
        requires
            old(self).wf(),
            ppu_claims(a),
        ensures
            final(self).wf(),
            final(self)@ == old(self)@.write(a, v),
    {
        if VRAM_START <= a && a <= VRAM_END {
            let i = self.regs.vram_bank as usize * VRAM_BANK_SIZE + (a - VRAM_START) as usize;
            self.vram.set(i, v);
        } else if OAM_START <= a && a <= OAM_END {
            self.oam.set((a - OAM_START) as usize, v);
        } else {
            match a {
                0xFF40 => self.regs.lcdc = v,
                0xFF41 => self.regs.stat = v,
                0xFF42 => self.regs.scy = v,
                0xFF43 => self.regs.scx = v,
                0xFF44 => self.regs.ly = 0,
                0xFF45 => self.regs.lyc = v,
                0xFF46 => self.regs.dma = v,
                0xFF47 => self.regs.bgp = v,
                0xFF48 => self.regs.obp0 = v,
                0xFF49 => self.regs.obp1 = v,
                0xFF4A => self.regs.wy = v,
                0xFF4B => self.regs.wx = v,
                _ => self.regs.vram_bank = v % 2,
            }
        }
    }
}

} // verus!
