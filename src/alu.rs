use vstd::prelude::*;

use crate::cpu::CPU;
use crate::registers::{bit_of, flags_byte, pack_flags, CpuFlag, Registers};

verus! {

/// 8-bit addition with optional carry in: (result, flags).
pub open spec fn add_spec(a: u8, b: u8, carry: bool) -> (u8, u8) {
    let cin: int = if carry { 1 } else { 0 };
    let sum = a as int + b as int + cin;
    let r = (sum % 256) as u8;
    (r, flags_byte(r == 0, false, (a as int % 16) + (b as int % 16) + cin > 15, sum > 255))
}

/// 8-bit subtraction with optional borrow in: (result, flags).
pub open spec fn sub_spec(a: u8, b: u8, carry: bool) -> (u8, u8) {
    let cin: int = if carry { 1 } else { 0 };
    let diff = a as int - b as int - cin;
    let r = (diff % 256) as u8;
    (r, flags_byte(r == 0, true, (a as int % 16) < (b as int % 16) + cin, (a as int) < b as int + cin))
}

pub open spec fn and_spec(a: u8, b: u8) -> (u8, u8) {
    let r = a & b;
    (r, flags_byte(r == 0, false, true, false))
}

pub open spec fn or_spec(a: u8, b: u8) -> (u8, u8) {
    let r = a | b;
    (r, flags_byte(r == 0, false, false, false))
}

pub open spec fn xor_spec(a: u8, b: u8) -> (u8, u8) {
    let r = a ^ b;
    (r, flags_byte(r == 0, false, false, false))
}

/// Increment: wraps, sets Z/H, clears N and keeps C from the flags `f`.
pub open spec fn inc_spec(a: u8, f: u8) -> (u8, u8) {
    let r = ((a as int + 1) % 256) as u8;
    (r, flags_byte(r == 0, false, a as int % 16 == 15, bit_of(f, 0x10)))
}

/// Decrement: wraps, sets Z/H, sets N and keeps C from the flags `f`.
pub open spec fn dec_spec(a: u8, f: u8) -> (u8, u8) {
    let r = ((a as int - 1) % 256) as u8;
    (r, flags_byte(r == 0, true, a as int % 16 == 0, bit_of(f, 0x10)))
}

/// HL + v: (result, flags); Z is kept from `f`, H from bit 11, C from bit 15.
pub open spec fn add16_spec(hl: u16, v: u16, f: u8) -> (u16, u8) {
    let sum = hl as int + v as int;
    (
        (sum % 65536) as u16,
        flags_byte(
            bit_of(f, 0x80),
            false,
            (hl as int % 4096) + (v as int % 4096) > 4095,
            sum > 65535,
        ),
    )
}

/// The byte `d` read as a signed offset and widened to 16 bits.
pub open spec fn sign_extend(d: u8) -> u16 {
    if d < 128 {
        d as u16
    } else {
        (d as int + 0xFF00) as u16
    }
}

/// v + signed d: (result, flags); Z and N cleared, H and C from the low byte.
pub open spec fn add16imm_spec(v: u16, d: u8) -> (u16, u8) {
    (
        ((v as int + sign_extend(d) as int) % 65536) as u16,
        flags_byte(
            false,
            false,
            (v as int % 16) + (d as int % 16) > 15,
            (v as int % 256) + d as int > 255,
        ),
    )
}

/// Flags left by the rotate and shift family.
pub open spec fn shift_flags(r: u8, carry: bool) -> u8 {
    flags_byte(r == 0, false, false, carry)
}

/// Rotate left; bit 7 goes to carry and to bit 0.
pub open spec fn rlc_spec(a: u8) -> (u8, u8) {
    let r = ((a as int * 2) % 256 + a as int / 128) as u8;
    (r, shift_flags(r, a >= 128))
}

/// Rotate left through carry.
pub open spec fn rl_spec(a: u8, f: u8) -> (u8, u8) {
    let r = ((a as int * 2) % 256 + (if bit_of(f, 0x10) { 1int } else { 0 })) as u8;
    (r, shift_flags(r, a >= 128))
}

/// Rotate right; bit 0 goes to carry and to bit 7.
pub open spec fn rrc_spec(a: u8) -> (u8, u8) {
    let r = (a as int / 2 + (a as int % 2) * 128) as u8;
    (r, shift_flags(r, a % 2 == 1))
}

/// Rotate right through carry.
pub open spec fn rr_spec(a: u8, f: u8) -> (u8, u8) {
    let r = (a as int / 2 + (if bit_of(f, 0x10) { 128int } else { 0 })) as u8;
    (r, shift_flags(r, a % 2 == 1))
}

/// Arithmetic shift left.
pub open spec fn sla_spec(a: u8) -> (u8, u8) {
    let r = ((a as int * 2) % 256) as u8;
    (r, shift_flags(r, a >= 128))
}

/// Arithmetic shift right; bit 7 is kept.
pub open spec fn sra_spec(a: u8) -> (u8, u8) {
    let r = (a as int / 2 + (a as int / 128) * 128) as u8;
    (r, shift_flags(r, a % 2 == 1))
}

/// Logical shift right.
pub open spec fn srl_spec(a: u8) -> (u8, u8) {
    let r = (a / 2) as u8;
    (r, shift_flags(r, a % 2 == 1))
}

/// Swaps the two nibbles; C is cleared.
pub open spec fn swap_spec(a: u8) -> (u8, u8) {
    let r = ((a as int % 16) * 16 + a as int / 16) as u8;
    (r, shift_flags(r, false))
}

/// Weight of bit `n` (0 to 7).
pub open spec fn bit_weight(n: u8) -> u8 {
    if n == 0 {
        1
    } else if n == 1 {
        2
    } else if n == 2 {
        4
    } else if n == 3 {
        8
    } else if n == 4 {
        16
    } else if n == 5 {
        32
    } else if n == 6 {
        64
    } else {
        128
    }
}

/// Flags after testing bit `n` of `v`: Z when the bit is clear, H set, N
/// clear, C kept.
pub open spec fn bit_spec(v: u8, n: u8, f: u8) -> u8 {
    flags_byte(!bit_of(v, bit_weight(n)), false, true, bit_of(f, 0x10))
}

/// `v` with bit `n` set.
pub open spec fn set_bit_spec(v: u8, n: u8) -> u8 {
    if bit_of(v, bit_weight(n)) {
        v
    } else {
        (v + bit_weight(n)) as u8
    }
}

/// `v` with bit `n` cleared.
pub open spec fn res_bit_spec(v: u8, n: u8) -> u8 {
    if bit_of(v, bit_weight(n)) {
        (v - bit_weight(n)) as u8
    } else {
        v
    }
}

/// The 0x06 / 0x60 correction that decimal adjust applies to `a`.
pub open spec fn daa_adjust(a: u8, f: u8) -> int {
    if !bit_of(f, 0x40) {
        (if bit_of(f, 0x10) || a > 0x99 { 0x60int } else { 0 }) + (if bit_of(f, 0x20) || a as int % 16
            > 9 { 0x06int } else { 0 })
    } else {
        (if bit_of(f, 0x10) { 0x60int } else { 0 }) + (if bit_of(f, 0x20) { 0x06int } else { 0 })
    }
}

/// Decimal adjust of `a` after an addition or subtraction that left `f`.
pub open spec fn daa_spec(a: u8, f: u8) -> (u8, u8) {
    let adj = daa_adjust(a, f);
    let r = (if !bit_of(f, 0x40) {
        (a as int + adj) % 256
    } else {
        (a as int - adj) % 256
    }) as u8;
    (r, flags_byte(r == 0, bit_of(f, 0x40), false, adj >= 0x60))
}

/// A byte holding two decimal digits.
pub open spec fn is_bcd(x: u8) -> bool {
    x as int % 16 <= 9 && x as int / 16 <= 9
}

/// The number 0 to 99 that a BCD byte stands for.
pub open spec fn bcd_value(x: u8) -> int {
    (x as int / 16) * 10 + x as int % 16
}

/// The BCD byte for a number 0 to 99.
pub open spec fn to_bcd(n: int) -> u8 {
    ((n / 10) * 16 + n % 10) as u8
}

/// Adding a value and then subtracting it (both without carry) gives back
/// the first operand, and the same holds the other way round.
#[verifier::rlimit(40)]
pub proof fn lemma_add_sub_inverse(a: u8, b: u8)
    ensures
        sub_spec(add_spec(a, b, false).0, b, false).0 == a,
        add_spec(sub_spec(a, b, false).0, b, false).0 == a,
{
}

/// Incrementing and then decrementing a value gives it back, and the carry
/// flag after the pair is the carry flag before it.
pub proof fn lemma_inc_dec_inverse(a: u8, f: u8)
    ensures
        dec_spec(inc_spec(a, f).0, inc_spec(a, f).1).0 == a,
        bit_of(dec_spec(inc_spec(a, f).0, inc_spec(a, f).1).1, 0x10) == bit_of(f, 0x10),
{
    crate::registers::lemma_flags_byte(
        inc_spec(a, f).0 == 0,
        false,
        a as int % 16 == 15,
        bit_of(f, 0x10),
    );
    let r = inc_spec(a, f).0;
    crate::registers::lemma_flags_byte(
        ((r as int - 1) % 256) as u8 == 0,
        true,
        r as int % 16 == 0,
        bit_of(inc_spec(a, f).1, 0x10),
    );
}

/// Decimal adjust on the sum `16 * hs + lo` of two BCD bytes whose low digits
/// add up to `lo` and whose high digits add up to `hs`.
proof fn lemma_daa_digits(lo: u16, hs: u16)
    by (bit_vector)
    requires
        lo <= 18,
        hs <= 18,
    ensures
        ({
            let s = (16 * hs + lo) % 256;
            let adj = (if 16 * hs + lo > 255 || s > 0x99 { 0x60u16 } else { 0u16 }) + (if lo
                > 15 || s % 16 > 9 { 0x06u16 } else { 0u16 });
            let t = (10 * hs + lo) % 100;
            &&& (s + adj) % 256 == (t / 10) * 16 + t % 10
            &&& (adj >= 0x60) == (10 * hs + lo >= 100)
        }),
{
}

/// Adding two BCD bytes and then decimal-adjusting gives the BCD form of the
/// decimal sum modulo 100, with the carry flag set exactly when the sum
/// reaches 100, Z set exactly when the BCD result is zero, and H and N
/// clear.
pub proof fn lemma_daa_after_add(a: u8, b: u8)
    requires
        is_bcd(a),
        is_bcd(b),
    ensures
        daa_spec(add_spec(a, b, false).0, add_spec(a, b, false).1).0 == to_bcd(
            (bcd_value(a) + bcd_value(b)) % 100,
        ),
        bit_of(daa_spec(add_spec(a, b, false).0, add_spec(a, b, false).1).1, 0x10) == (bcd_value(a)
            + bcd_value(b) >= 100),
        bit_of(daa_spec(add_spec(a, b, false).0, add_spec(a, b, false).1).1, 0x80) == ((bcd_value(a)
            + bcd_value(b)) % 100 == 0),
        !bit_of(daa_spec(add_spec(a, b, false).0, add_spec(a, b, false).1).1, 0x20),
        !bit_of(daa_spec(add_spec(a, b, false).0, add_spec(a, b, false).1).1, 0x40),
{
    let lo = a as int % 16 + b as int % 16;
    let hs = a as int / 16 + b as int / 16;
    let sum = a as int + b as int;
    assert(sum == 16 * hs + lo);
    let (s, f) = add_spec(a, b, false);
    crate::registers::lemma_flags_byte(s == 0, false, lo > 15, sum > 255);
    let adj = daa_adjust(s, f);
    let (d, f2) = daa_spec(s, f);
    crate::registers::lemma_flags_byte(d == 0, false, false, adj >= 0x60);
    lemma_daa_digits(lo as u16, hs as u16);
}

/// Weight of bit `n` (0 to 7).
pub fn bit_mask(n: u8) -> (r: u8)
    requires
        n < 8,
    ensures
        r == bit_weight(n),
{
    if n == 0 {
        1
    } else if n == 1 {
        2
    } else if n == 2 {
        4
    } else if n == 3 {
        8
    } else if n == 4 {
        16
    } else if n == 5 {
        32
    } else if n == 6 {
        64
    } else {
        128
    }
}

impl CPU {
    /// A := A + b (+ C when `usec`).
    pub fn alu_add(&mut self, b: u8, usec: bool)
        requires
            old(self).wf(),
        ensures
            final(self).wf(),
            final(self)@ == old(self)@.with_acc(
                add_spec(old(self).regs.a, b, usec && old(self).regs.flag_of(CpuFlag::C)),
            ),
    {
        let c: u8 = if usec && self.regs.get_flag(CpuFlag::C) { 1 } else { 0 };
        let a = self.regs.a;
        let sum: u16 = a as u16 + b as u16 + c as u16;
        let r = (sum % 256) as u8;
        self.regs.f = pack_flags(r == 0, false, (a % 16) + (b % 16) + c > 15, sum > 255);
        self.regs.a = r;
    }

    /// A := A - b (- C when `usec`).
    pub fn alu_sub(&mut self, b: u8, usec: bool)
        requires
            old(self).wf(),
        ensures
            final(self).wf(),
            final(self)@ == old(self)@.with_acc(
                sub_spec(old(self).regs.a, b, usec && old(self).regs.flag_of(CpuFlag::C)),
            ),
    {
        let c: u8 = if usec && self.regs.get_flag(CpuFlag::C) { 1 } else { 0 };
        let a = self.regs.a;
        let r = a.wrapping_sub(b).wrapping_sub(c);
        self.regs.f = pack_flags(r == 0, true, (a % 16) < (b % 16) + c, (a as u16) < (b as u16) + (
        c as u16));
        self.regs.a = r;
    }

    pub fn alu_and(&mut self, b: u8)
        requires
            old(self).wf(),
        ensures
            final(self).wf(),
            final(self)@ == old(self)@.with_acc(and_spec(old(self).regs.a, b)),
    {
        let r = self.regs.a & b;
        self.regs.f = pack_flags(r == 0, false, true, false);
        self.regs.a = r;
    }

    pub fn alu_or(&mut self, b: u8)
        requires
            old(self).wf(),
        ensures
            final(self).wf(),
            final(self)@ == old(self)@.with_acc(or_spec(old(self).regs.a, b)),
    {
        let r = self.regs.a | b;
        self.regs.f = pack_flags(r == 0, false, false, false);
        self.regs.a = r;
    }

    pub fn alu_xor(&mut self, b: u8)
        requires
            old(self).wf(),
        ensures
            final(self).wf(),
            final(self)@ == old(self)@.with_acc(xor_spec(old(self).regs.a, b)),
    {
        let r = self.regs.a ^ b;
        self.regs.f = pack_flags(r == 0, false, false, false);
        self.regs.a = r;
    }

    /// Compare: the flags of A - b, A unchanged.
    pub fn alu_cp(&mut self, b: u8)
        requires
            old(self).wf(),
        ensures
            final(self).wf(),
            final(self)@ == old(self)@.with_acc(
                (old(self).regs.a, sub_spec(old(self).regs.a, b, false).1),
            ),
    {
        let r = self.regs.a;
        self.alu_sub(b, false);
        self.regs.a = r;
    }

    pub fn alu_inc(&mut self, a: u8) -> (r: u8)
        requires
            old(self).wf(),
        ensures
            final(self).wf(),
            r == inc_spec(a, old(self).regs.f).0,
            final(self)@ == old(self)@.with_f(inc_spec(a, old(self).regs.f).1),
    {
        let r = a.wrapping_add(1);
        let c = self.regs.get_flag(CpuFlag::C);
        self.regs.f = pack_flags(r == 0, false, a % 16 == 15, c);
        r
    }

    pub fn alu_dec(&mut self, a: u8) -> (r: u8)
        requires
            old(self).wf(),
        ensures
            final(self).wf(),
            r == dec_spec(a, old(self).regs.f).0,
            final(self)@ == old(self)@.with_f(dec_spec(a, old(self).regs.f).1),
    {
        let r = a.wrapping_sub(1);
        let c = self.regs.get_flag(CpuFlag::C);
        self.regs.f = pack_flags(r == 0, true, a % 16 == 0, c);
        r
    }

    /// HL := HL + b.
    #[verifier::rlimit(40)]
    pub fn alu_add16(&mut self, b: u16)
        requires
            old(self).wf(),
        ensures
            final(self).wf(),
            ({
                let out = add16_spec(old(self).regs.spec_hl(), b, old(self).regs.f);
                final(self)@ == old(self)@.with_regs(
                    Registers { f: out.1, ..old(self).regs.with_hl(out.0) },
                )
            }),
    {
        let a = self.regs.hl();
        let r = a.wrapping_add(b);
        let z = self.regs.get_flag(CpuFlag::Z);
        self.regs.f = pack_flags(z, false, (a % 4096) + (b % 4096) > 4095, (a as u32) + (b as u32)
            > 65535);
        self.regs.sethl(r);
    }

    /// Reads a signed offset at PC and returns `a` plus it; sets H and C
    /// from the low byte and clears Z and N.
    pub fn alu_add16imm(&mut self, a: u16) -> (r: u16)
        requires
            old(self).wf(),
        ensures
            final(self).wf(),
            r == add16imm_spec(a, old(self)@.imm8()).0,
            final(self)@ == old(self)@.advance(1).with_f(add16imm_spec(a, old(self)@.imm8()).1),
    {
        let d = self.fetch_byte();
        let b: u16 = if d < 128 { d as u16 } else { d as u16 + 0xFF00 };
        self.regs.f = pack_flags(false, false, (a % 16) + (d as u16 % 16) > 15, (a % 256) + (d as u16)
            > 255);
        a.wrapping_add(b)
    }

    pub fn alu_swap(&mut self, a: u8) -> (r: u8)
        requires
            old(self).wf(),
        ensures
            final(self).wf(),
            r == swap_spec(a).0,
            final(self)@ == old(self)@.with_f(swap_spec(a).1),
    {
        let r = (a % 16) * 16 + a / 16;
        self.alu_srflag_update(r, false);
        r
    }

    /// Flags of the rotate and shift family.
    pub fn alu_srflag_update(&mut self, r: u8, c: bool)
        requires
            old(self).wf(),
        ensures
            final(self).wf(),
            final(self)@ == old(self)@.with_f(shift_flags(r, c)),
    {
        self.regs.f = pack_flags(r == 0, false, false, c);
    }

    pub fn alu_rlc(&mut self, a: u8) -> (r: u8)
        requires
            old(self).wf(),
        ensures
            final(self).wf(),
            r == rlc_spec(a).0,
            final(self)@ == old(self)@.with_f(rlc_spec(a).1),
    {
        let r = (((a as u16) * 2) % 256 + (a as u16) / 128) as u8;
        self.alu_srflag_update(r, a >= 128);
        r
    }

    pub fn alu_rl(&mut self, a: u8) -> (r: u8)
        requires
            old(self).wf(),
        ensures
            final(self).wf(),
            r == rl_spec(a, old(self).regs.f).0,
            final(self)@ == old(self)@.with_f(rl_spec(a, old(self).regs.f).1),
    {
        let cin: u16 = if self.regs.get_flag(CpuFlag::C) { 1 } else { 0 };
        let r = (((a as u16) * 2) % 256 + cin) as u8;
        self.alu_srflag_update(r, a >= 128);
        r
    }

    pub fn alu_rrc(&mut self, a: u8) -> (r: u8)
        requires
            old(self).wf(),
        ensures
            final(self).wf(),
            r == rrc_spec(a).0,
            final(self)@ == old(self)@.with_f(rrc_spec(a).1),
    {
        let r = a / 2 + (a % 2) * 128;
        self.alu_srflag_update(r, a % 2 == 1);
        r
    }

    pub fn alu_rr(&mut self, a: u8) -> (r: u8)
        requires
            old(self).wf(),
        ensures
            final(self).wf(),
            r == rr_spec(a, old(self).regs.f).0,
            final(self)@ == old(self)@.with_f(rr_spec(a, old(self).regs.f).1),
    {
        let cin: u8 = if self.regs.get_flag(CpuFlag::C) { 128 } else { 0 };
        let r = a / 2 + cin;
        self.alu_srflag_update(r, a % 2 == 1);
        r
    }

    pub fn alu_sla(&mut self, a: u8) -> (r: u8)
        requires
            old(self).wf(),
        ensures
            final(self).wf(),
            r == sla_spec(a).0,
            final(self)@ == old(self)@.with_f(sla_spec(a).1),
    {
        let r = (((a as u16) * 2) % 256) as u8;
        self.alu_srflag_update(r, a >= 128);
        r
    }

    pub fn alu_sra(&mut self, a: u8) -> (r: u8)
        requires
            old(self).wf(),
        ensures
            final(self).wf(),
            r == sra_spec(a).0,
            final(self)@ == old(self)@.with_f(sra_spec(a).1),
    {
        let r = a / 2 + (a / 128) * 128;
        self.alu_srflag_update(r, a % 2 == 1);
        r
    }

    pub fn alu_srl(&mut self, a: u8) -> (r: u8)
        requires
            old(self).wf(),
        ensures
            final(self).wf(),
            r == srl_spec(a).0,
            final(self)@ == old(self)@.with_f(srl_spec(a).1),
    {
        let r = a / 2;
        self.alu_srflag_update(r, a % 2 == 1);
        r
    }

    /// Tests bit `b` of `a`.
    pub fn alu_bit(&mut self, a: u8, b: u8)
        requires
            old(self).wf(),
            b < 8,
        ensures
            final(self).wf(),
            final(self)@ == old(self)@.with_f(bit_spec(a, b, old(self).regs.f)),
    {
        let m = bit_mask(b);
        let c = self.regs.get_flag(CpuFlag::C);
        self.regs.f = pack_flags(!((a / m) % 2 == 1), false, true, c);
    }

    /// Decimal adjust of A after a BCD addition or subtraction.
    #[verifier::rlimit(40)]
    pub fn alu_daa(&mut self)
        requires
            old(self).wf(),
        ensures
            final(self).wf(),
            final(self)@ == old(self)@.with_acc(daa_spec(old(self).regs.a, old(self).regs.f)),
    {
        let a = self.regs.a;
        let n = self.regs.get_flag(CpuFlag::N);
        let h = self.regs.get_flag(CpuFlag::H);
        let c = self.regs.get_flag(CpuFlag::C);
        let r: u8;
        let adjust: u8;
        if !n {
            adjust = (if c || a > 0x99 { 0x60u8 } else { 0u8 }) + (if h || a % 16 > 9 { 0x06u8 } else { 0u8 });
            r = a.wrapping_add(adjust);
        } else {
            adjust = (if c { 0x60u8 } else { 0u8 }) + (if h { 0x06u8 } else { 0u8 });
            r = a.wrapping_sub(adjust);
        }
        self.regs.f = pack_flags(r == 0, n, false, adjust >= 0x60);
        self.regs.a = r;
    }
}

} // verus!
