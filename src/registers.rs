use vstd::prelude::*;

verus! {

/// The SM83 register file: eight 8-bit registers plus stack pointer and
/// program counter. The four condition flags live in the high nibble of `f`.
#[derive(Clone, Copy)]
pub struct Registers {
    pub a: u8,
    pub b: u8,
    pub c: u8,
    pub d: u8,
    pub e: u8,
    pub f: u8,
    pub h: u8,
    pub l: u8,
    pub sp: u16,
    pub pc: u16,
}

/// One of the four condition flags held in the high nibble of F.
#[derive(Clone, Copy, PartialEq, Eq, Structural)]
pub enum CpuFlag {
    C,
    H,
    N,
    Z,
}

impl CpuFlag {
    /// Weight of the flag's bit in F (bit 4 for C up to bit 7 for Z).
    pub open spec fn weight(self) -> u8 {
        match self {
            CpuFlag::C => 0x10,
            CpuFlag::H => 0x20,
            CpuFlag::N => 0x40,
            CpuFlag::Z => 0x80,
        }
    }

    #[verifier::when_used_as_spec(weight)]
    pub fn mask(self) -> (r: u8)
        ensures
            r == self.weight(),
    {
        match self {
            CpuFlag::C => 0x10,
            CpuFlag::H => 0x20,
            CpuFlag::N => 0x40,
            CpuFlag::Z => 0x80,
        }
    }
}

/// Whether the bit of weight `w` (a power of two) is set in `x`.
pub open spec fn bit_of(x: u8, w: u8) -> bool {
    (x as int / w as int) % 2 == 1
}

/// The flag byte with Z, N, H and C set as given and the low nibble clear.
pub open spec fn flags_byte(z: bool, n: bool, h: bool, c: bool) -> u8 {
    ((if z { 0x80int } else { 0 }) + (if n { 0x40int } else { 0 }) + (if h { 0x20int } else { 0 }) + (
    if c { 0x10int } else { 0 })) as u8
}

/// Builds a flag byte; the low nibble is always zero.
pub fn pack_flags(z: bool, n: bool, h: bool, c: bool) -> (r: u8)
    ensures
        r == flags_byte(z, n, h, c),
{
    let mut r: u8 = 0;
    if z {
        r = r + 0x80;
    }
    if n {
        r = r + 0x40;
    }
    if h {
        r = r + 0x20;
    }
    if c {
        r = r + 0x10;
    }
    r
}

/// Reading a flag back out of a packed flag byte gives what was packed.
pub proof fn lemma_flags_byte(z: bool, n: bool, h: bool, c: bool)
    ensures
        bit_of(flags_byte(z, n, h, c), 0x80) == z,
        bit_of(flags_byte(z, n, h, c), 0x40) == n,
        bit_of(flags_byte(z, n, h, c), 0x20) == h,
        bit_of(flags_byte(z, n, h, c), 0x10) == c,
        flags_byte(z, n, h, c) % 16 == 0,
{
}

impl Registers {
    /// The register file is well formed when the low nibble of F is zero.
    pub open spec fn wf(&self) -> bool {
        self.f % 16 == 0
    }

    pub open spec fn flag_of(&self, flag: CpuFlag) -> bool {
        bit_of(self.f, flag.weight())
    }

    pub open spec fn spec_af(&self) -> u16 {
        (self.a as int * 256 + (self.f as int / 16) * 16) as u16
    }

    pub open spec fn spec_bc(&self) -> u16 {
        (self.b as int * 256 + self.c as int) as u16
    }

    pub open spec fn spec_de(&self) -> u16 {
        (self.d as int * 256 + self.e as int) as u16
    }

    pub open spec fn spec_hl(&self) -> u16 {
        (self.h as int * 256 + self.l as int) as u16
    }

    pub open spec fn with_af(self, v: u16) -> Registers {
        Registers { a: (v / 256) as u8, f: ((v % 256) / 16 * 16) as u8, ..self }
    }

    pub open spec fn with_bc(self, v: u16) -> Registers {
        Registers { b: (v / 256) as u8, c: (v % 256) as u8, ..self }
    }

    pub open spec fn with_de(self, v: u16) -> Registers {
        Registers { d: (v / 256) as u8, e: (v % 256) as u8, ..self }
    }

    pub open spec fn with_hl(self, v: u16) -> Registers {
        Registers { h: (v / 256) as u8, l: (v % 256) as u8, ..self }
    }

    /// F with `flag` set or cleared and the low nibble cleared.
    pub open spec fn flag_updated(f: u8, flag: CpuFlag, set: bool) -> u8 {
        let high = (f as int / 16) * 16;
        let w = flag.weight() as int;
        (if set && !bit_of(f, flag.weight()) {
            high + w
        } else if !set && bit_of(f, flag.weight()) {
            high - w
        } else {
            high
        }) as u8
    }

    /// The values left by the boot ROM.
    pub fn new() -> (r: Registers)
        ensures
            r.a == 0x01,
            r.f == flags_byte(true, false, true, true),
            r.spec_bc() == 0x0013,
            r.spec_de() == 0x00D8,
            r.spec_hl() == 0x014D,
            r.sp == 0xFFFE,
            r.pc == 0x0100,
            r.wf(),
    {
        Registers {
            a: 0x01,
            b: 0x00,
            c: 0x13,
            d: 0x00,
            e: 0xD8,
            f: pack_flags(true, false, true, true),
            h: 0x01,
            l: 0x4D,
            pc: 0x0100,
            sp: 0xFFFE,
        }
    }

    #[verifier::when_used_as_spec(spec_af)]
    pub fn af(&self) -> (r: u16)
        ensures
            r == self.spec_af(),
    {
        (self.a as u16) * 256 + (self.f / 16 * 16) as u16
    }

    #[verifier::when_used_as_spec(spec_bc)]
    pub fn bc(&self) -> (r: u16)
        ensures
            r == self.spec_bc(),
    {
        (self.b as u16) * 256 + self.c as u16
    }

    #[verifier::when_used_as_spec(spec_de)]
    pub fn de(&self) -> (r: u16)
        ensures
            r == self.spec_de(),
    {
        (self.d as u16) * 256 + self.e as u16
    }

    #[verifier::when_used_as_spec(spec_hl)]
    pub fn hl(&self) -> (r: u16)
        ensures
            r == self.spec_hl(),
    {
        (self.h as u16) * 256 + self.l as u16
    }

    /// Returns HL and then increments it (wrapping).
    pub fn hli(&mut self) -> (r: u16)
        ensures
            r == old(self).spec_hl(),
            *final(self) == old(self).with_hl(((r as int + 1) % 65536) as u16),
    {
        let res = self.hl();
        self.sethl(res.wrapping_add(1));
        res
    }

    /// Returns HL and then decrements it (wrapping).
    pub fn hld(&mut self) -> (r: u16)
        ensures
            r == old(self).spec_hl(),
            *final(self) == old(self).with_hl(((r as int - 1) % 65536) as u16),
    {
        let res = self.hl();
        self.sethl(res.wrapping_sub(1));
        res
    }

    pub fn setaf(&mut self, value: u16)
        ensures
            *final(self) == old(self).with_af(value),
            final(self).wf(),
    {
        self.a = (value / 256) as u8;
        self.f = ((value % 256) / 16 * 16) as u8;
    }

    pub fn setbc(&mut self, value: u16)
        ensures
            *final(self) == old(self).with_bc(value),
    {
        self.b = (value / 256) as u8;
        self.c = (value % 256) as u8;
    }

    pub fn setde(&mut self, value: u16)
        ensures
            *final(self) == old(self).with_de(value),
    {
        self.d = (value / 256) as u8;
        self.e = (value % 256) as u8;
    }

    pub fn sethl(&mut self, value: u16)
        ensures
            *final(self) == old(self).with_hl(value),
    {
        self.h = (value / 256) as u8;
        self.l = (value % 256) as u8;
    }

    /// Sets or clears one flag; the low nibble of F ends up clear.
    pub fn flag(&mut self, flags: CpuFlag, set: bool)
        ensures
            *final(self) == (Registers { f: Registers::flag_updated(old(self).f, flags, set), ..*old(self) }),
            final(self).wf(),
            final(self).flag_of(flags) == set,
    {
        let mask = flags.mask();
        let high = self.f / 16 * 16;
        let is_set = (self.f / mask) % 2 == 1;
        if set && !is_set {
            self.f = high + mask;
        } else if !set && is_set {
            self.f = high - mask;
        } else {
            self.f = high;
        }
    }

    pub fn get_flag(&self, flags: CpuFlag) -> (r: bool)
        ensures
            r == self.flag_of(flags),
    {
        (self.f / flags.mask()) % 2 == 1
    }

    /// Replaces the flags by `flags` with its low nibble cleared.
    pub fn setf(&mut self, flags: u8)
        ensures
            *final(self) == (Registers { f: (flags / 16 * 16) as u8, ..*old(self) }),
            final(self).wf(),
    {
        self.f = flags / 16 * 16;
    }
}

/// Writing a pair and reading it back gives the value written; for AF the
/// low nibble of F is forced to zero.
pub proof fn lemma_pair_round_trip(r: Registers, v: u16)
    ensures
        r.with_bc(v).spec_bc() == v,
        r.with_de(v).spec_de() == v,
        r.with_hl(v).spec_hl() == v,
        r.with_af(v).spec_af() == (v as int / 16) * 16,
        r.with_af(v).wf(),
{
}

} // verus!
