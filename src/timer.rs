use vstd::arithmetic::div_mod::{
    lemma_add_mod_noop_right, lemma_fundamental_div_mod, lemma_hoist_over_denominator,
    lemma_mod_multiples_vanish,
};
use vstd::prelude::*;

verus! {

pub const DIV: u16 = 0xFF04;
pub const TIMA: u16 = 0xFF05;
pub const TMA: u16 = 0xFF06;
pub const TAC: u16 = 0xFF07;

/// Interrupt request bit of the timer.
pub const TIMER_INTERRUPT: u8 = 0x04;

/// The divider and the programmable counter.
#[derive(Clone, Copy)]
pub struct Timer {
    pub tima: u8,
    pub tma: u8,
    pub tac: u8,
    pub div: u8,
    pub internal_div: u32,
    pub internal_counter: u32,
    /// Interrupt request bits raised since the bus last collected them.
    pub interrupt: u8,
}

/// Cycles per counter increment for the rate that TAC selects.
pub open spec fn period(tac: u8) -> int {
    let sel = tac % 4;
    if sel == 0 {
        1024
    } else if sel == 1 {
        16
    } else if sel == 2 {
        64
    } else {
        256
    }
}

/// Whether TAC enables the counter.
pub open spec fn enabled(tac: u8) -> bool {
    (tac / 4) % 2 == 1
}

/// The counter after `k` increments, reloaded from `tma` on each overflow.
pub open spec fn tima_after(tima: u8, tma: u8, k: nat) -> u8
    decreases k,
{
    if k == 0 {
        tima
    } else {
        let t = tima_after(tima, tma, (k - 1) as nat);
        if t == 255 {
            tma
        } else {
            (t + 1) as u8
        }
    }
}

/// Whether any of the first `k` increments overflowed.
pub open spec fn overflowed(tima: u8, tma: u8, k: nat) -> bool
    decreases k,
{
    if k == 0 {
        false
    } else {
        overflowed(tima, tma, (k - 1) as nat) || tima_after(tima, tma, (k - 1) as nat) == 255
    }
}

impl Timer {
    pub open spec fn read(self, a: u16) -> u8 {
        if a == DIV {
            self.div
        } else if a == TIMA {
            self.tima
        } else if a == TMA {
            self.tma
        } else {
            (self.tac % 8 + 0xF8) as u8
        }
    }

    /// A write to DIV clears it whatever the value.
    pub open spec fn write(self, a: u16, v: u8) -> Timer {
        if a == DIV {
            Timer { div: 0, ..self }
        } else if a == TIMA {
            Timer { tima: v, ..self }
        } else if a == TMA {
            Timer { tma: v, ..self }
        } else {
            Timer { tac: v, ..self }
        }
    }

    /// The timer after `ticks` clock cycles.
    pub open spec fn ticked(self, ticks: u32) -> Timer {
        let total_d = self.internal_div + ticks;
        let after_div = Timer {
            internal_div: (total_d % 256) as u32,
            div: ((self.div + total_d / 256) % 256) as u8,
            ..self
        };
        if enabled(self.tac) {
            let total_c = self.internal_counter + ticks;
            let k = (total_c / period(self.tac)) as nat;
            Timer {
                tima: tima_after(self.tima, self.tma, k),
                internal_counter: (total_c % period(self.tac)) as u32,
                interrupt: if overflowed(self.tima, self.tma, k) {
                    self.interrupt | TIMER_INTERRUPT
                } else {
                    self.interrupt
                },
                ..after_div
            }
        } else {
            after_div
        }
    }

    pub fn new() -> (r: Self)
        ensures
            r.tima == 0 && r.tma == 0 && r.tac == 0 && r.div == 0,
            r.internal_div == 0 && r.internal_counter == 0 && r.interrupt == 0,
    {
        Timer { tima: 0, tma: 0, tac: 0, div: 0, internal_div: 0, internal_counter: 0, interrupt: 0 }
    }

    pub fn rb(&mut self, a: u16) -> (r: u8)
        requires
            DIV <= a <= TAC,
        ensures
            r == old(self).read(a),
            *final(self) == *old(self),
    {
        if a == DIV {
            self.div
        } else if a == TIMA {
            self.tima
        } else if a == TMA {
            self.tma
        } else {
            self.tac % 8 + 0xF8
        }
    }

    pub fn wb(&mut self, a: u16, v: u8)
        requires
            DIV <= a <= TAC,
        ensures
            *final(self) == old(self).write(a, v),
    {
        if a == DIV {
            self.div = 0;
        } else if a == TIMA {
            self.tima = v;
        } else if a == TMA {
            self.tma = v;
        } else {
            self.tac = v;
        }
    }

    /// Advances the divider and, when enabled, the counter by `ticks` clock
    /// cycles, checking for overflow on every increment.
    pub fn do_cycle(&mut self, ticks: u32)
        ensures
            *final(self) == old(self).ticked(ticks),
    {
        let total_d: u64 = self.internal_div as u64 + ticks as u64;
        self.internal_div = (total_d % 256) as u32;
        self.div = ((self.div as u64 + total_d / 256) % 256) as u8;

        if (self.tac / 4) % 2 == 1 {
            let sel = self.tac % 4;
            let step: u64 = if sel == 0 {
                1024
            } else if sel == 1 {
                16
            } else if sel == 2 {
                64
            } else {
                256
            };
            let total_c: u64 = self.internal_counter as u64 + ticks as u64;
            let k: u64 = total_c / step;
            let ghost before = *self;
            let ghost tima0 = self.tima;
            let mut i: u64 = 0;
            let mut over = false;
            while i < k
                invariant
                    i <= k,
                    *self == (Timer { tima: self.tima, ..before }),
                    self.tima == tima_after(tima0, self.tma, i as nat),
                    over == overflowed(tima0, self.tma, i as nat),
                decreases k - i,
            {
                if self.tima == 255 {
                    self.tima = self.tma;
                    over = true;
                } else {
                    self.tima = self.tima + 1;
                }
                i = i + 1;
            }
            if over {
                self.interrupt = self.interrupt | TIMER_INTERRUPT;
            }
            self.internal_counter = (total_c % step) as u32;
        }
    }
}

/// Carrying `n` cycles to `n % p` leftover and then adding `y` counts the
/// same whole periods, and leaves the same remainder, as adding `y` to `n`.
proof fn lemma_split_periods(n: int, y: int, p: int)
    requires
        n >= 0,
        y >= 0,
        p > 0,
    ensures
        n / p + (n % p + y) / p == (n + y) / p,
        (n % p + y) % p == (n + y) % p,
{
    lemma_fundamental_div_mod(n, p);
    let q = n / p;
    let w = n % p + y;
    lemma_hoist_over_denominator(w, q, p as nat);
    lemma_mod_multiples_vanish(q, w, p);
    assert(w + q * p == n + y) by (nonlinear_arith)
        requires
            n == p * q + n % p,
            w == n % p + y,
    ;
    assert(p * q + w == n + y) by (nonlinear_arith)
        requires
            n == p * q + n % p,
            w == n % p + y,
    ;
}

/// `k1` increments and then `k2` more are `k1 + k2` increments, and an
/// overflow happens in the whole run exactly when it happens in one part.
proof fn lemma_increments_compose(tima: u8, tma: u8, k1: nat, k2: nat)
    ensures
        tima_after(tima_after(tima, tma, k1), tma, k2) == tima_after(tima, tma, k1 + k2),
        overflowed(tima, tma, k1 + k2) == (overflowed(tima, tma, k1) || overflowed(
            tima_after(tima, tma, k1),
            tma,
            k2,
        )),
    decreases k2,
{
    if k2 > 0 {
        lemma_increments_compose(tima, tma, k1, (k2 - 1) as nat);
        assert((k1 + k2 - 1) as nat == k1 + (k2 - 1) as nat);
    }
}

/// Ticking `x` cycles and then `y` cycles leaves the timer as ticking
/// `x + y` cycles at once.
pub proof fn lemma_ticks_add(t: Timer, x: u32, y: u32)
    requires
        x + y <= u32::MAX,
    ensures
        t.ticked(x).ticked(y) == t.ticked((x + y) as u32),
{
    let t1 = t.ticked(x);
    let t2 = t1.ticked(y);
    let t3 = t.ticked((x + y) as u32);
    let nd = t.internal_div + x;
    lemma_split_periods(nd, y as int, 256);
    lemma_add_mod_noop_right((nd % 256 + y) / 256, t.div + nd / 256, 256);
    if enabled(t.tac) {
        let p = period(t.tac);
        let nc = t.internal_counter + x;
        lemma_split_periods(nc, y as int, p);
        let k1 = (nc / p) as nat;
        let k2 = ((nc % p + y) / p) as nat;
        lemma_increments_compose(t.tima, t.tma, k1, k2);
        let i = t.interrupt;
        assert((i | TIMER_INTERRUPT) | TIMER_INTERRUPT == i | TIMER_INTERRUPT) by (bit_vector);
    }
}

} // verus!
