use vstd::prelude::*;

use crate::alu::bit_mask;
use crate::error::CpuError;
use crate::isa::{alu8_spec, pending, rot_spec, undefined_opcode, CpuState};
use crate::registers::pack_flags;
use crate::mmu::Mmu;
use crate::registers::{flags_byte, CpuFlag, Registers};
use crate::rom::Rom;

verus! {

/// The SM83 execution engine: registers, the bus it drives, and the state
/// of HALT and of the interrupt controller.
pub struct CPU {
    pub regs: Registers,
    pub mmu: Mmu,
    pub halted: bool,
    /// Set by HALT entered with IME clear and an interrupt pending: the next
    /// opcode fetch does not advance PC.
    pub halt_bug: bool,
    pub ime: bool,
    /// Countdown to IME being cleared (DI).
    pub setdi: u32,
    /// Countdown to IME being set (EI, RETI).
    pub setei: u32,
}

impl View for CPU {
    type V = CpuState;

    open spec fn view(&self) -> CpuState {
        CpuState {
            regs: self.regs,
            bus: self.mmu@,
            halted: self.halted,
            halt_bug: self.halt_bug,
            ime: self.ime,
            setdi: self.setdi,
            setei: self.setei,
        }
    }
}

impl CPU {
    /// The bus is well formed and the low nibble of F is zero.
    pub open spec fn wf(&self) -> bool {
        self.mmu.wf() && self.regs.wf()
    }

    /// The state left by the boot ROM, with cartridge contents `rom` and
    /// all interrupt requests and enables clear.
    pub open spec fn at_power_on(&self, rom: crate::rom::RomState) -> bool {
        &&& self.mmu@.wf()
        &&& self.mmu@.rom == rom
        &&& self.mmu@.wram.bank == 1
        &&& self.mmu.inte == 0 && self.mmu.intf == 0
        &&& self.mmu.timer.interrupt == 0 && self.mmu.joypad.interrupt == 0
        &&& self.mmu@.ppu.interrupt == 0
        &&& self.regs.a == 0x01
        &&& self.regs.f == flags_byte(true, false, true, true)
        &&& self.regs.spec_bc() == 0x0013
        &&& self.regs.spec_de() == 0x00D8
        &&& self.regs.spec_hl() == 0x014D
        &&& self.regs.sp == 0xFFFE
        &&& self.regs.pc == 0x0100
        &&& !self.halted && !self.halt_bug && self.ime && self.setdi == 0 && self.setei == 0
    }

    /// The engine at power-on, after the boot ROM, running the cartridge.
    pub fn new(rom: Rom) -> (r: CPU)
        requires
            rom.wf(),
        ensures
            r.wf(),
            r.at_power_on(rom@),
    {
        CPU {
            regs: Registers::new(),
            mmu: Mmu::new(rom),
            halted: false,
            halt_bug: false,
            ime: true,
            setdi: 0,
            setei: 0,
        }
    }

    /// Reads the byte at PC and moves PC on.
    pub fn fetch_byte(&mut self) -> (r: u8)
        requires
            old(self).wf(),
        ensures
            final(self).wf(),
            r == old(self)@.imm8(),
            final(self)@ == old(self)@.advance(1),
    {
        let byte = self.mmu.rb(self.regs.pc);
        self.regs.pc = self.regs.pc.wrapping_add(1);
        byte
    }

    /// Reads the little-endian word at PC and moves PC on by two.
    pub fn fetchword(&mut self) -> (r: u16)
        requires
            old(self).wf(),
        ensures
            final(self).wf(),
            r == old(self)@.imm16(),
            final(self)@ == old(self)@.advance(2),
    {
        let w = self.mmu.rw(self.regs.pc);
        self.regs.pc = self.regs.pc.wrapping_add(2);
        w
    }

    pub fn pushstack(&mut self, value: u16)
        requires
            old(self).wf(),
        ensures
            final(self).wf(),
            final(self)@ == old(self)@.push(value),
    {
        self.regs.sp = self.regs.sp.wrapping_sub(2);
        self.mmu.ww(self.regs.sp, value);
    }

    pub fn popstack(&mut self) -> (r: u16)
        requires
            old(self).wf(),
        ensures
            final(self).wf(),
            r == old(self)@.top(),
            final(self)@ == old(self)@.drop_top(),
    {
        let res = self.mmu.rw(self.regs.sp);
        self.regs.sp = self.regs.sp.wrapping_add(2);
        res
    }

    /// Register `i` of B, C, D, E, H, L, (HL), A.
    fn get_r8(&self, i: u8) -> (r: u8)
        requires
            self.wf(),
        ensures
            r == self@.get_r8(i),
    {
        match i {
            0 => self.regs.b,
            1 => self.regs.c,
            2 => self.regs.d,
            3 => self.regs.e,
            4 => self.regs.h,
            5 => self.regs.l,
            6 => self.mmu.rb(self.regs.hl()),
            _ => self.regs.a,
        }
    }

    fn set_r8(&mut self, i: u8, v: u8)
        requires
            old(self).wf(),
        ensures
            final(self).wf(),
            final(self)@ == old(self)@.set_r8(i, v),
    {
        match i {
            0 => self.regs.b = v,
            1 => self.regs.c = v,
            2 => self.regs.d = v,
            3 => self.regs.e = v,
            4 => self.regs.h = v,
            5 => self.regs.l = v,
            6 => {
                let hl = self.regs.hl();
                self.mmu.wb(hl, v);
            },
            _ => self.regs.a = v,
        }
    }

    /// Pair `p` of BC, DE, HL, SP.
    fn get_rp(&self, p: u8) -> (r: u16)
        ensures
            r == self@.get_rp(p),
    {
        match p {
            0 => self.regs.bc(),
            1 => self.regs.de(),
            2 => self.regs.hl(),
            _ => self.regs.sp,
        }
    }

    fn set_rp(&mut self, p: u8, v: u16)
        requires
            old(self).wf(),
        ensures
            final(self).wf(),
            final(self)@ == old(self)@.set_rp(p, v),
    {
        match p {
            0 => self.regs.setbc(v),
            1 => self.regs.setde(v),
            2 => self.regs.sethl(v),
            _ => self.regs.sp = v,
        }
    }

    /// Pair `p` of BC, DE, HL, AF.
    fn get_rp2(&self, p: u8) -> (r: u16)
        ensures
            r == self@.get_rp2(p),
    {
        if p == 3 {
            self.regs.af()
        } else {
            self.get_rp(p)
        }
    }

    fn set_rp2(&mut self, p: u8, v: u16)
        requires
            old(self).wf(),
        ensures
            final(self).wf(),
            final(self)@ == old(self)@.set_rp2(p, v),
    {
        if p == 3 {
            self.regs.setaf(v);
        } else {
            self.set_rp(p, v);
        }
    }

    /// Condition `c` of NZ, Z, NC, C.
    fn cond(&self, c: u8) -> (r: bool)
        ensures
            r == self@.cond(c),
    {
        match c {
            0 => !self.regs.get_flag(CpuFlag::Z),
            1 => self.regs.get_flag(CpuFlag::Z),
            2 => !self.regs.get_flag(CpuFlag::C),
            _ => self.regs.get_flag(CpuFlag::C),
        }
    }

    /// Relative jump by the signed byte at PC.
    pub fn cpu_jr(&mut self)
        requires
            old(self).wf(),
        ensures
            final(self).wf(),
            final(self)@ == old(self)@.jr(),
    {
        let d = self.fetch_byte();
        let offset: u16 = if d < 128 { d as u16 } else { d as u16 + 0xFF00 };
        self.regs.pc = self.regs.pc.wrapping_add(offset);
    }

    /// ALU operation `y` (ADD, ADC, SUB, SBC, AND, XOR, OR, CP) on A and `v`.
    fn alu8(&mut self, y: u8, v: u8)
        requires
            old(self).wf(),
        ensures
            final(self).wf(),
            final(self)@ == old(self)@.with_acc(
                alu8_spec(y, old(self).regs.a, v, old(self).regs.f),
            ),
    {
        if y == 0 {
            self.alu_add(v, false);
        } else if y == 1 {
            self.alu_add(v, true);
        } else if y == 2 {
            self.alu_sub(v, false);
        } else if y == 3 {
            self.alu_sub(v, true);
        } else if y == 4 {
            self.alu_and(v);
        } else if y == 5 {
            self.alu_xor(v);
        } else if y == 6 {
            self.alu_or(v);
        } else {
            self.alu_cp(v);
        }
    }

    /// Rotate/shift operation `y` (RLC, RRC, RL, RR, SLA, SRA, SWAP, SRL).
    fn alu_rot(&mut self, y: u8, v: u8) -> (r: u8)
        requires
            old(self).wf(),
        ensures
            final(self).wf(),
            r == rot_spec(y, v, old(self).regs.f).0,
            final(self)@ == old(self)@.with_f(rot_spec(y, v, old(self).regs.f).1),
    {
        if y == 0 {
            self.alu_rlc(v)
        } else if y == 1 {
            self.alu_rrc(v)
        } else if y == 2 {
            self.alu_rl(v)
        } else if y == 3 {
            self.alu_rr(v)
        } else if y == 4 {
            self.alu_sla(v)
        } else if y == 5 {
            self.alu_sra(v)
        } else if y == 6 {
            self.alu_swap(v)
        } else {
            self.alu_srl(v)
        }
    }

    /// Opcodes 0x40 to 0x7F: register loads and HALT.
    fn exec_ld(&mut self, op: u8) -> (r: u32)
        requires
            old(self).wf(),
            0x40 <= op < 0x80,
        ensures
            final(self).wf(),
            (final(self)@, r) == old(self)@.block1(op),
            r <= 6,
    {
        proof {
            reveal(CpuState::block1);
        }
        if op == 0x76 {
            self.halted = true;
            self.halt_bug = !self.ime && (self.mmu.inte & self.mmu.intf & 0x1F) != 0;
            return 1;
        }
        let y = (op / 8) % 8;
        let z = op % 8;
        let v = self.get_r8(z);
        self.set_r8(y, v);
        if y == 6 || z == 6 {
            2
        } else {
            1
        }
    }

    /// Opcodes 0x80 to 0xBF: A op register.
    fn exec_alu(&mut self, op: u8) -> (r: u32)
        requires
            old(self).wf(),
            0x80 <= op < 0xC0,
        ensures
            final(self).wf(),
            (final(self)@, r) == old(self)@.block2(op),
            r <= 6,
    {
        proof {
            reveal(CpuState::block2);
        }
        let y = (op / 8) % 8;
        let z = op % 8;
        let v = self.get_r8(z);
        self.alu8(y, v);
        if z == 6 {
            2
        } else {
            1
        }
    }

    /// The extended table: rotates and shifts, BIT, RES and SET.
    pub fn call_cb(&mut self) -> (r: u32)
        requires
            old(self).wf(),
        ensures
            final(self).wf(),
            (final(self)@, r) == old(self)@.advance(1).cb(old(self)@.imm8()),
            r <= 6,
    {
        proof {
            reveal(CpuState::cb);
        }
        let op = self.fetch_byte();
        let x = op / 64;
        let y = (op / 8) % 8;
        let z = op % 8;
        let v = self.get_r8(z);
        if x == 0 {
            let r = self.alu_rot(y, v);
            self.set_r8(z, r);
            if z == 6 {
                4
            } else {
                2
            }
        } else if x == 1 {
            self.alu_bit(v, y);
            if z == 6 {
                3
            } else {
                2
            }
        } else {
            let m = bit_mask(y);
            let is_set = (v / m) % 2 == 1;
            let r = if x == 2 {
                if is_set {
                    v - m
                } else {
                    v
                }
            } else {
                if is_set {
                    v
                } else {
                    v + m
                }
            };
            self.set_r8(z, r);
            if z == 6 {
                4
            } else {
                2
            }
        }
    }

    /// Opcodes 0x00 to 0x3F: loads of immediates, 16-bit arithmetic,
    /// increments, relative jumps and the accumulator rotates.
    fn exec_block0(&mut self, op: u8) -> (r: u32)
        requires
            old(self).wf(),
            op < 0x40,
        ensures
            final(self).wf(),
            (final(self)@, r) == old(self)@.block0(op),
            r <= 6,
    {
        proof {
            reveal(CpuState::block0);
        }
        let z = op % 8;
        if z == 0 {
            self.exec_jumps(op)
        } else if z == 1 || z == 3 {
            self.exec_pairs(op)
        } else if z == 2 {
            self.exec_indirect(op)
        } else if z == 7 {
            self.exec_acc(op)
        } else {
            self.exec_r8(op)
        }
    }

    /// NOP, LD (nn),SP, STOP, JR and JR cc.
    fn exec_jumps(&mut self, op: u8) -> (r: u32)
        requires
            old(self).wf(),
            op < 0x40,
            op % 8 == 0,
        ensures
            final(self).wf(),
            (final(self)@, r) == old(self)@.jumps(op),
            r <= 6,
    {
        let y = (op / 8) % 8;
        if y == 0 || y == 2 {
            1
        } else if y == 1 {
            let nn = self.fetchword();
            let sp = self.regs.sp;
            self.mmu.ww(nn, sp);
            5
        } else if y == 3 || self.cond(y - 4) {
            self.cpu_jr();
            3
        } else {
            self.regs.pc = self.regs.pc.wrapping_add(1);
            2
        }
    }

    /// LD rr,nn, ADD HL,rr, INC rr and DEC rr.
    #[verifier::rlimit(30)]
    fn exec_pairs(&mut self, op: u8) -> (r: u32)
        requires
            old(self).wf(),
            op < 0x40,
            op % 8 == 1 || op % 8 == 3,
        ensures
            final(self).wf(),
            (final(self)@, r) == old(self)@.pairs(op),
            r <= 6,
    {
        let y = (op / 8) % 8;
        let z = op % 8;
        let p = y / 2;
        let q = y % 2;
        if z == 1 {
            if q == 0 {
                let v = self.fetchword();
                self.set_rp(p, v);
                3
            } else {
                let v = self.get_rp(p);
                self.alu_add16(v);
                2
            }
        } else {
            let v = self.get_rp(p);
            let nv = if q == 0 {
                v.wrapping_add(1)
            } else {
                v.wrapping_sub(1)
            };
            self.set_rp(p, nv);
            2
        }
    }

    /// Loads between A and (BC), (DE), (HL+), (HL-).
    fn exec_indirect(&mut self, op: u8) -> (r: u32)
        requires
            old(self).wf(),
            op < 0x40,
            op % 8 == 2,
        ensures
            final(self).wf(),
            (final(self)@, r) == old(self)@.indirect(op),
            r <= 6,
    {
        let y = (op / 8) % 8;
        let p = y / 2;
        let q = y % 2;
        let addr = if p == 0 {
            self.regs.bc()
        } else if p == 1 {
            self.regs.de()
        } else if p == 2 {
            self.regs.hli()
        } else {
            self.regs.hld()
        };
        if q == 0 {
            let a = self.regs.a;
            self.mmu.wb(addr, a);
        } else {
            self.regs.a = self.mmu.rb(addr);
        }
        2
    }

    /// INC r, DEC r and LD r,n.
    fn exec_r8(&mut self, op: u8) -> (r: u32)
        requires
            old(self).wf(),
            op < 0x40,
            4 <= op % 8 <= 6,
        ensures
            final(self).wf(),
            (final(self)@, r) == old(self)@.r8_ops(op),
            r <= 6,
    {
        let y = (op / 8) % 8;
        let z = op % 8;
        if z == 4 || z == 5 {
            let v = self.get_r8(y);
            let r = if z == 4 {
                self.alu_inc(v)
            } else {
                self.alu_dec(v)
            };
            self.set_r8(y, r);
            if y == 6 {
                3
            } else {
                1
            }
        } else {
            let n = self.fetch_byte();
            self.set_r8(y, n);
            if y == 6 {
                3
            } else {
                2
            }
        }
    }

    /// RLCA, RRCA, RLA, RRA (Z always cleared), DAA, CPL, SCF and CCF.
    fn exec_acc(&mut self, op: u8) -> (r: u32)
        requires
            old(self).wf(),
            op < 0x40,
            op % 8 == 7,
        ensures
            final(self).wf(),
            (final(self)@, r) == old(self)@.acc_ops(op),
            r <= 6,
    {
        let y = (op / 8) % 8;
        let a = self.regs.a;
        let zf = self.regs.get_flag(CpuFlag::Z);
        let cf = self.regs.get_flag(CpuFlag::C);
        if y == 0 {
            self.regs.a = self.alu_rlc(a);
            self.regs.f = pack_flags(false, false, false, a >= 128);
        } else if y == 1 {
            self.regs.a = self.alu_rrc(a);
            self.regs.f = pack_flags(false, false, false, a % 2 == 1);
        } else if y == 2 {
            self.regs.a = self.alu_rl(a);
            self.regs.f = pack_flags(false, false, false, a >= 128);
        } else if y == 3 {
            self.regs.a = self.alu_rr(a);
            self.regs.f = pack_flags(false, false, false, a % 2 == 1);
        } else if y == 4 {
            self.alu_daa();
        } else if y == 5 {
            self.regs.a = 255 - a;
            self.regs.f = pack_flags(zf, true, true, cf);
        } else if y == 6 {
            self.regs.f = pack_flags(zf, false, false, true);
        } else {
            self.regs.f = pack_flags(zf, false, false, !cf);
        }
        1
    }

    /// Opcodes 0xC0 to 0xFF but the prefix and the undefined ones: returns,
    /// pops and pushes, absolute jumps and calls, high-page loads, immediate
    /// ALU operations, restarts, DI and EI.
    fn exec_block3(&mut self, op: u8) -> (r: u32)
        requires
            old(self).wf(),
        ensures
            final(self).wf(),
            (final(self)@, r) == old(self)@.block3(op),
            r <= 6,
    {
        proof {
            reveal(CpuState::block3);
        }
        let y = (op / 8) % 8;
        let z = op % 8;
        if z == 0 {
            self.exec_returns_high(op)
        } else if z == 1 {
            self.exec_pops(op)
        } else if z == 2 {
            self.exec_jumps_high(op)
        } else if z == 4 || (z == 5 && y % 2 == 1) {
            self.exec_calls(op)
        } else {
            self.exec_misc_high(op)
        }
    }

    /// CALL cc,nn and CALL nn.
    fn exec_calls(&mut self, op: u8) -> (r: u32)
        requires
            old(self).wf(),
        ensures
            final(self).wf(),
            (final(self)@, r) == old(self)@.calls(op),
            r <= 6,
    {
        let y = (op / 8) % 8;
        if op % 8 == 5 || self.cond(y) {
            let nn = self.fetchword();
            let pc = self.regs.pc;
            self.pushstack(pc);
            self.regs.pc = nn;
            6
        } else {
            self.regs.pc = self.regs.pc.wrapping_add(2);
            3
        }
    }

    /// JP nn, DI, EI, PUSH rr, ALU A,n and RST.
    fn exec_misc_high(&mut self, op: u8) -> (r: u32)
        requires
            old(self).wf(),
        ensures
            final(self).wf(),
            (final(self)@, r) == old(self)@.misc_high(op),
            r <= 6,
    {
        let y = (op / 8) % 8;
        let z = op % 8;
        if z == 3 {
            if y == 0 {
                self.regs.pc = self.fetchword();
                4
            } else if y == 6 {
                self.setdi = 2;
                1
            } else {
                self.setei = 2;
                1
            }
        } else if z == 5 {
            let v = self.get_rp2(y / 2);
            self.pushstack(v);
            4
        } else if z == 6 {
            let n = self.fetch_byte();
            self.alu8(y, n);
            2
        } else {
            let pc = self.regs.pc;
            self.pushstack(pc);
            self.regs.pc = (y as u16) * 8;
            4
        }
    }

    /// RET cc, LDH (n),A, ADD SP,d, LDH A,(n) and LD HL,SP+d.
    fn exec_returns_high(&mut self, op: u8) -> (r: u32)
        requires
            old(self).wf(),
        ensures
            final(self).wf(),
            (final(self)@, r) == old(self)@.returns_high(op),
            r <= 6,
    {
        let y = (op / 8) % 8;
        if y < 4 {
            if self.cond(y) {
                self.regs.pc = self.popstack();
                5
            } else {
                2
            }
        } else if y == 4 {
            let n = self.fetch_byte();
            let a = self.regs.a;
            self.mmu.wb(0xFF00 + n as u16, a);
            3
        } else if y == 5 {
            let sp = self.regs.sp;
            self.regs.sp = self.alu_add16imm(sp);
            4
        } else if y == 6 {
            let n = self.fetch_byte();
            self.regs.a = self.mmu.rb(0xFF00 + n as u16);
            3
        } else {
            let sp = self.regs.sp;
            let v = self.alu_add16imm(sp);
            self.regs.sethl(v);
            3
        }
    }

    /// POP rr, RET, RETI, JP HL and LD SP,HL.
    fn exec_pops(&mut self, op: u8) -> (r: u32)
        requires
            old(self).wf(),
        ensures
            final(self).wf(),
            (final(self)@, r) == old(self)@.pops(op),
            r <= 6,
    {
        let y = (op / 8) % 8;
        let p = y / 2;
        if y % 2 == 0 {
            let v = self.popstack();
            self.set_rp2(p, v);
            3
        } else if p == 0 {
            self.regs.pc = self.popstack();
            4
        } else if p == 1 {
            self.regs.pc = self.popstack();
            self.setei = 1;
            4
        } else if p == 2 {
            self.regs.pc = self.regs.hl();
            1
        } else {
            self.regs.sp = self.regs.hl();
            2
        }
    }

    /// JP cc,nn, LD (C),A, LD (nn),A, LD A,(C) and LD A,(nn).
    fn exec_jumps_high(&mut self, op: u8) -> (r: u32)
        requires
            old(self).wf(),
        ensures
            final(self).wf(),
            (final(self)@, r) == old(self)@.jumps_high(op),
            r <= 6,
    {
        let y = (op / 8) % 8;
        if y < 4 {
            if self.cond(y) {
                self.regs.pc = self.fetchword();
                4
            } else {
                self.regs.pc = self.regs.pc.wrapping_add(2);
                3
            }
        } else if y == 4 {
            let a = self.regs.a;
            self.mmu.wb(0xFF00 + self.regs.c as u16, a);
            2
        } else if y == 5 {
            let nn = self.fetchword();
            let a = self.regs.a;
            self.mmu.wb(nn, a);
            4
        } else if y == 6 {
            self.regs.a = self.mmu.rb(0xFF00 + self.regs.c as u16);
            2
        } else {
            let nn = self.fetchword();
            self.regs.a = self.mmu.rb(nn);
            4
        }
    }

    /// Fetches the opcode at PC and executes it. An opcode with no defined
    /// behaviour is reported with the address it was fetched from.
    pub fn call(&mut self) -> (r: Result<u32, CpuError>)
        requires
            old(self).wf(),
        ensures
            final(self).wf(),
            match r {
                Ok(c) => !undefined_opcode(old(self)@.next_opcode()) && (final(self)@, c) == old(
                    self,
                )@.fetched().execute(old(self)@.next_opcode()) && c <= 6,
                Err(e) => undefined_opcode(old(self)@.next_opcode()) && e == CpuError::UnknownOpcode(
                    old(self)@.next_opcode(),
                    old(self).regs.pc,
                ) && final(self).regs.f == old(self).regs.f,
            },
    {
        let pc = self.regs.pc;
        let opcode = self.mmu.rb(pc);
        if self.halt_bug {
            self.halt_bug = false;
        } else {
            self.regs.pc = pc.wrapping_add(1);
        }
        if opcode == 0xD3 || opcode == 0xDB || opcode == 0xDD || opcode == 0xE3 || opcode == 0xE4
            || opcode == 0xEB || opcode == 0xEC || opcode == 0xED || opcode == 0xF4 || opcode
            == 0xFC || opcode == 0xFD {
            return Err(CpuError::UnknownOpcode(opcode, pc));
        }
        if opcode == 0xCB {
            Ok(self.call_cb())
        } else if opcode < 0x40 {
            Ok(self.exec_block0(opcode))
        } else if opcode < 0x80 {
            Ok(self.exec_ld(opcode))
        } else if opcode < 0xC0 {
            Ok(self.exec_alu(opcode))
        } else {
            Ok(self.exec_block3(opcode))
        }
    }

    /// Applies the IME changes that DI, EI and RETI scheduled.
    pub fn updateime(&mut self)
        requires
            old(self).wf(),
        ensures
            final(self).wf(),
            final(self)@ == old(self)@.ime_updated(),
    {
        if self.setdi == 2 {
            self.setdi = 1;
        } else if self.setdi == 1 {
            self.ime = false;
            self.setdi = 0;
        } else {
            self.setdi = 0;
        }
        if self.setei == 2 {
            self.setei = 1;
        } else if self.setei == 1 {
            self.ime = true;
            self.setei = 0;
        } else {
            self.setei = 0;
        }
    }

    /// A pending interrupt wakes a halted engine; with IME set it is served
    /// (4 cycles), otherwise 0 is returned.
    pub fn handle_interrupts(&mut self) -> (r: u32)
        requires
            old(self).wf(),
        ensures
            final(self).wf(),
            ({
                let s = old(self)@;
                let woke = pending(s.bus.inte, s.bus.intf) != 0 && (s.ime || s.halted);
                if woke && s.ime {
                    r == 4 && final(self)@ == s.serve()
                } else if woke {
                    r == 0 && final(self)@ == (CpuState { halted: false, ..s })
                } else {
                    r == 0 && final(self)@ == s
                }
            }),
    {
        if !self.ime && !self.halted {
            return 0;
        }
        let triggered = self.mmu.inte & self.mmu.intf & 0x1F;
        if triggered == 0 {
            return 0;
        }
        self.halted = false;
        if !self.ime {
            return 0;
        }
        self.ime = false;
        let n: u8 = if triggered & 1 != 0 {
            0
        } else if triggered & 2 != 0 {
            1
        } else if triggered & 4 != 0 {
            2
        } else if triggered & 8 != 0 {
            3
        } else {
            4
        };
        let m = bit_mask(n);
        self.mmu.intf = self.mmu.intf & !m;
        let pc = self.regs.pc;
        self.pushstack(pc);
        self.regs.pc = 0x40 + 8 * (n as u16);
        4
    }

    /// One step of the engine: IME housekeeping, then either an interrupt is
    /// served, or a halted engine idles for a cycle, or one instruction
    /// runs. Returns the machine cycles taken.
    pub fn step(&mut self) -> (r: Result<u32, CpuError>)
        requires
            old(self).wf(),
        ensures
            final(self).wf(),
            match r {
                Ok(c) => !old(self)@.faults() && (final(self)@, c) == old(self)@.step() && c <= 6,
                Err(e) => old(self)@.faults() && e == CpuError::UnknownOpcode(
                    old(self)@.next_opcode(),
                    old(self).regs.pc,
                ),
            },
    {
        self.updateime();
        let n = self.handle_interrupts();
        if n != 0 {
            return Ok(n);
        }
        if self.halted {
            Ok(1)
        } else {
            self.call()
        }
    }

    /// Runs one step and hands its clock cycles (four per machine cycle) to
    /// the peripherals. Returns the clock cycles.
    pub fn do_cycle(&mut self) -> (r: Result<u32, CpuError>)
        requires
            old(self).wf(),
        ensures
            final(self).wf(),
            match r {
                Ok(t) => {
                    let (s, c) = old(self)@.step();
                    &&& !old(self)@.faults()
                    &&& t == 4 * c
                    &&& final(self)@ == (CpuState { bus: s.bus.ticked(t), ..s })
                },
                Err(e) => old(self)@.faults() && e == CpuError::UnknownOpcode(
                    old(self)@.next_opcode(),
                    old(self).regs.pc,
                ),
            },
    {
        match self.step() {
            Ok(c) => {
                let ticks = c * 4;
                self.mmu.do_cycle(ticks);
                Ok(ticks)
            },
            Err(e) => Err(e),
        }
    }
}

} // verus!
