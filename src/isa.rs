use vstd::prelude::*;

use crate::alu::{
    add16_spec, add16imm_spec, add_spec, and_spec, bit_spec, bit_weight, daa_spec, dec_spec, inc_spec,
    or_spec, res_bit_spec, rl_spec, rlc_spec, rr_spec, rrc_spec, set_bit_spec, sign_extend, sla_spec,
    sra_spec, srl_spec, sub_spec, swap_spec, xor_spec,
};
use crate::mmu::{is_ram, lemma_word_read_after_write, next_addr, BusState};
use crate::registers::{bit_of, flags_byte, Registers};

verus! {

/// Everything the execution engine holds: registers, the bus, the power
/// state and the interrupt-enable pipeline.
pub struct CpuState {
    pub regs: Registers,
    pub bus: BusState,
    pub halted: bool,
    pub halt_bug: bool,
    pub ime: bool,
    pub setdi: u32,
    pub setei: u32,
}

/// `x` reduced to 16 bits.
pub open spec fn wrap16(x: int) -> u16 {
    (x % 0x10000) as u16
}

/// Operation `y` of the 8-bit ALU group on A and `v`: (new A, new F).
pub open spec fn alu8_spec(y: u8, a: u8, v: u8, f: u8) -> (u8, u8) {
    let c = bit_of(f, 0x10);
    if y == 0 {
        add_spec(a, v, false)
    } else if y == 1 {
        add_spec(a, v, c)
    } else if y == 2 {
        sub_spec(a, v, false)
    } else if y == 3 {
        sub_spec(a, v, c)
    } else if y == 4 {
        and_spec(a, v)
    } else if y == 5 {
        xor_spec(a, v)
    } else if y == 6 {
        or_spec(a, v)
    } else {
        (a, sub_spec(a, v, false).1)
    }
}

/// Operation `y` of the extended rotate/shift group: (result, new F).
pub open spec fn rot_spec(y: u8, v: u8, f: u8) -> (u8, u8) {
    if y == 0 {
        rlc_spec(v)
    } else if y == 1 {
        rrc_spec(v)
    } else if y == 2 {
        rl_spec(v, f)
    } else if y == 3 {
        rr_spec(v, f)
    } else if y == 4 {
        sla_spec(v)
    } else if y == 5 {
        sra_spec(v)
    } else if y == 6 {
        swap_spec(v)
    } else {
        srl_spec(v)
    }
}

/// Pending interrupt sources: enabled and requested, bits 0 to 4.
pub open spec fn pending(inte: u8, intf: u8) -> u8 {
    inte & intf & 0x1F
}

/// Index of the lowest set bit of a non-zero 5-bit mask: the source served
/// first.
pub open spec fn lowest_source(p: u8) -> u8 {
    if p & 1 != 0 {
        0
    } else if p & 2 != 0 {
        1
    } else if p & 4 != 0 {
        2
    } else if p & 8 != 0 {
        3
    } else {
        4
    }
}

/// Opcodes of the base table that have no defined behaviour.
pub open spec fn undefined_opcode(op: u8) -> bool {
    op == 0xD3 || op == 0xDB || op == 0xDD || op == 0xE3 || op == 0xE4 || op == 0xEB || op == 0xEC
        || op == 0xED || op == 0xF4 || op == 0xFC || op == 0xFD
}

impl CpuState {
    pub open spec fn with_regs(self, r: Registers) -> CpuState {
        CpuState { regs: r, ..self }
    }

    pub open spec fn with_bus(self, b: BusState) -> CpuState {
        CpuState { bus: b, ..self }
    }

    pub open spec fn with_pc(self, pc: u16) -> CpuState {
        self.with_regs(Registers { pc: pc, ..self.regs })
    }

    pub open spec fn with_sp(self, sp: u16) -> CpuState {
        self.with_regs(Registers { sp: sp, ..self.regs })
    }

    pub open spec fn with_f(self, f: u8) -> CpuState {
        self.with_regs(Registers { f: f, ..self.regs })
    }

    pub open spec fn with_acc(self, out: (u8, u8)) -> CpuState {
        self.with_regs(Registers { a: out.0, f: out.1, ..self.regs })
    }

    /// Moves PC `n` bytes on.
    pub open spec fn advance(self, n: int) -> CpuState {
        self.with_pc(wrap16(self.regs.pc + n))
    }

    pub open spec fn imm8(self) -> u8 {
        self.bus.read(self.regs.pc)
    }

    pub open spec fn imm16(self) -> u16 {
        self.bus.read_word(self.regs.pc)
    }

    /// Register `i` of B, C, D, E, H, L, (HL), A.
    pub open spec fn get_r8(self, i: u8) -> u8 {
        let r = self.regs;
        if i == 0 {
            r.b
        } else if i == 1 {
            r.c
        } else if i == 2 {
            r.d
        } else if i == 3 {
            r.e
        } else if i == 4 {
            r.h
        } else if i == 5 {
            r.l
        } else if i == 6 {
            self.bus.read(r.spec_hl())
        } else {
            r.a
        }
    }

    pub open spec fn set_r8(self, i: u8, v: u8) -> CpuState {
        let r = self.regs;
        if i == 0 {
            self.with_regs(Registers { b: v, ..r })
        } else if i == 1 {
            self.with_regs(Registers { c: v, ..r })
        } else if i == 2 {
            self.with_regs(Registers { d: v, ..r })
        } else if i == 3 {
            self.with_regs(Registers { e: v, ..r })
        } else if i == 4 {
            self.with_regs(Registers { h: v, ..r })
        } else if i == 5 {
            self.with_regs(Registers { l: v, ..r })
        } else if i == 6 {
            self.with_bus(self.bus.write(r.spec_hl(), v))
        } else {
            self.with_regs(Registers { a: v, ..r })
        }
    }

    /// Pair `p` of BC, DE, HL, SP.
    pub open spec fn get_rp(self, p: u8) -> u16 {
        if p == 0 {
            self.regs.spec_bc()
        } else if p == 1 {
            self.regs.spec_de()
        } else if p == 2 {
            self.regs.spec_hl()
        } else {
            self.regs.sp
        }
    }

    pub open spec fn set_rp(self, p: u8, v: u16) -> CpuState {
        if p == 0 {
            self.with_regs(self.regs.with_bc(v))
        } else if p == 1 {
            self.with_regs(self.regs.with_de(v))
        } else if p == 2 {
            self.with_regs(self.regs.with_hl(v))
        } else {
            self.with_sp(v)
        }
    }

    /// Pair `p` of BC, DE, HL, AF (the stack group).
    pub open spec fn get_rp2(self, p: u8) -> u16 {
        if p == 3 {
            self.regs.spec_af()
        } else {
            self.get_rp(p)
        }
    }

    pub open spec fn set_rp2(self, p: u8, v: u16) -> CpuState {
        if p == 3 {
            self.with_regs(self.regs.with_af(v))
        } else {
            self.set_rp(p, v)
        }
    }

    /// Condition `c` of NZ, Z, NC, C.
    pub open spec fn cond(self, c: u8) -> bool {
        if c == 0 {
            !self.regs.flag_of(crate::registers::CpuFlag::Z)
        } else if c == 1 {
            self.regs.flag_of(crate::registers::CpuFlag::Z)
        } else if c == 2 {
            !self.regs.flag_of(crate::registers::CpuFlag::C)
        } else {
            self.regs.flag_of(crate::registers::CpuFlag::C)
        }
    }

    /// Pushes `v`: SP drops by two and `v` is stored there little-endian.
    pub open spec fn push(self, v: u16) -> CpuState {
        let sp = wrap16(self.regs.sp - 2);
        CpuState { regs: Registers { sp: sp, ..self.regs }, bus: self.bus.write_word(sp, v), ..self }
    }

    /// The word on top of the stack.
    pub open spec fn top(self) -> u16 {
        self.bus.read_word(self.regs.sp)
    }

    /// Drops the top word of the stack.
    pub open spec fn drop_top(self) -> CpuState {
        self.with_sp(wrap16(self.regs.sp + 2))
    }

    /// Relative jump by the signed operand at PC.
    pub open spec fn jr(self) -> CpuState {
        self.with_pc(wrap16(self.regs.pc + 1 + sign_extend(self.imm8())))
    }

    /// Opcodes 0x00 to 0x3F; PC is past the opcode.
    #[verifier::opaque]
    pub open spec fn block0(self, op: u8) -> (CpuState, u32) {
        let z = op % 8;
        if z == 0 {
            self.jumps(op)
        } else if z == 1 || z == 3 {
            self.pairs(op)
        } else if z == 2 {
            self.indirect(op)
        } else if z == 7 {
            self.acc_ops(op)
        } else {
            self.r8_ops(op)
        }
    }

    /// NOP, LD (nn),SP, STOP, JR and JR cc.
    pub open spec fn jumps(self, op: u8) -> (CpuState, u32) {
        let y = (op / 8) % 8;
        if y == 0 || y == 2 {
            (self, 1)
        } else if y == 1 {
            (self.advance(2).with_bus(self.bus.write_word(self.imm16(), self.regs.sp)), 5)
        } else if y == 3 || self.cond((y - 4) as u8) {
            (self.jr(), 3)
        } else {
            (self.advance(1), 2)
        }
    }

    /// LD rr,nn, ADD HL,rr, INC rr and DEC rr.
    pub open spec fn pairs(self, op: u8) -> (CpuState, u32) {
        let y = (op / 8) % 8;
        let p = y / 2;
        let r = self.regs;
        if op % 8 == 1 {
            if y % 2 == 0 {
                (self.advance(2).set_rp(p, self.imm16()), 3)
            } else {
                let out = add16_spec(r.spec_hl(), self.get_rp(p), r.f);
                (self.with_regs(Registers { f: out.1, ..r.with_hl(out.0) }), 2)
            }
        } else {
            let v = self.get_rp(p);
            (self.set_rp(p, if y % 2 == 0 { wrap16(v + 1) } else { wrap16(v - 1) }), 2)
        }
    }

    /// Loads between A and (BC), (DE), (HL+), (HL-).
    pub open spec fn indirect(self, op: u8) -> (CpuState, u32) {
        let y = (op / 8) % 8;
        let p = y / 2;
        let r = self.regs;
        let addr = if p == 0 {
            r.spec_bc()
        } else if p == 1 {
            r.spec_de()
        } else {
            r.spec_hl()
        };
        let s = if p == 2 {
            self.with_regs(r.with_hl(wrap16(addr + 1)))
        } else if p == 3 {
            self.with_regs(r.with_hl(wrap16(addr - 1)))
        } else {
            self
        };
        if y % 2 == 0 {
            (s.with_bus(self.bus.write(addr, r.a)), 2)
        } else {
            (s.with_regs(Registers { a: self.bus.read(addr), ..s.regs }), 2)
        }
    }

    /// INC r, DEC r and LD r,n.
    pub open spec fn r8_ops(self, op: u8) -> (CpuState, u32) {
        let y = (op / 8) % 8;
        let z = op % 8;
        if z == 4 || z == 5 {
            let v = self.get_r8(y);
            let out = if z == 4 {
                inc_spec(v, self.regs.f)
            } else {
                dec_spec(v, self.regs.f)
            };
            (self.set_r8(y, out.0).with_f(out.1), if y == 6 { 3 } else { 1 })
        } else {
            (self.advance(1).set_r8(y, self.imm8()), if y == 6 { 3 } else { 2 })
        }
    }

    /// RLCA, RRCA, RLA, RRA (Z always cleared), DAA, CPL, SCF and CCF.
    pub open spec fn acc_ops(self, op: u8) -> (CpuState, u32) {
        let y = (op / 8) % 8;
        let r = self.regs;
        let a = r.a;
        let zf = bit_of(r.f, 0x80);
        let cf = bit_of(r.f, 0x10);
        (
            if y == 0 {
                self.with_acc((rlc_spec(a).0, flags_byte(false, false, false, a >= 128)))
            } else if y == 1 {
                self.with_acc((rrc_spec(a).0, flags_byte(false, false, false, a % 2 == 1)))
            } else if y == 2 {
                self.with_acc((rl_spec(a, r.f).0, flags_byte(false, false, false, a >= 128)))
            } else if y == 3 {
                self.with_acc((rr_spec(a, r.f).0, flags_byte(false, false, false, a % 2 == 1)))
            } else if y == 4 {
                self.with_acc(daa_spec(a, r.f))
            } else if y == 5 {
                self.with_acc(((255 - a) as u8, flags_byte(zf, true, true, cf)))
            } else if y == 6 {
                self.with_f(flags_byte(zf, false, false, true))
            } else {
                self.with_f(flags_byte(zf, false, false, !cf))
            },
            1,
        )
    }

    /// Opcodes 0x40 to 0x7F: register loads, and HALT at 0x76.
    #[verifier::opaque]
    pub open spec fn block1(self, op: u8) -> (CpuState, u32) {
        let y = (op / 8) % 8;
        let z = op % 8;
        if op == 0x76 {
            (
                CpuState {
                    halted: true,
                    halt_bug: !self.ime && pending(self.bus.inte, self.bus.intf) != 0,
                    ..self
                },
                1,
            )
        } else {
            (self.set_r8(y, self.get_r8(z)), if y == 6 || z == 6 { 2 } else { 1 })
        }
    }

    /// Opcodes 0x80 to 0xBF: A op register.
    #[verifier::opaque]
    pub open spec fn block2(self, op: u8) -> (CpuState, u32) {
        let y = (op / 8) % 8;
        let z = op % 8;
        (
            self.with_acc(alu8_spec(y, self.regs.a, self.get_r8(z), self.regs.f)),
            if z == 6 { 2 } else { 1 },
        )
    }

    /// Opcodes 0xC0 to 0xFF except the prefix 0xCB and the undefined ones.
    #[verifier::opaque]
    pub open spec fn block3(self, op: u8) -> (CpuState, u32) {
        let y = (op / 8) % 8;
        let z = op % 8;
        if z == 0 {
            self.returns_high(op)
        } else if z == 1 {
            self.pops(op)
        } else if z == 2 {
            self.jumps_high(op)
        } else if z == 4 || (z == 5 && y % 2 == 1) {
            self.calls(op)
        } else {
            self.misc_high(op)
        }
    }

    /// CALL cc,nn and CALL nn.
    pub open spec fn calls(self, op: u8) -> (CpuState, u32) {
        let y = (op / 8) % 8;
        if op % 8 == 5 || self.cond(y) {
            (self.advance(2).push(wrap16(self.regs.pc + 2)).with_pc(self.imm16()), 6)
        } else {
            (self.advance(2), 3)
        }
    }

    /// JP nn, DI, EI, PUSH rr, ALU A,n and RST.
    pub open spec fn misc_high(self, op: u8) -> (CpuState, u32) {
        let y = (op / 8) % 8;
        let z = op % 8;
        let r = self.regs;
        if z == 3 {
            if y == 0 {
                (self.with_pc(self.imm16()), 4)
            } else if y == 6 {
                (CpuState { setdi: 2, ..self }, 1)
            } else {
                (CpuState { setei: 2, ..self }, 1)
            }
        } else if z == 5 {
            (self.push(self.get_rp2(y / 2)), 4)
        } else if z == 6 {
            (self.advance(1).with_acc(alu8_spec(y, r.a, self.imm8(), r.f)), 2)
        } else {
            (self.push(r.pc).with_pc((y as int * 8) as u16), 4)
        }
    }

    /// RET cc, LDH (n),A, ADD SP,d, LDH A,(n) and LD HL,SP+d.
    pub open spec fn returns_high(self, op: u8) -> (CpuState, u32) {
        let y = (op / 8) % 8;
        let r = self.regs;
        if y < 4 {
            if self.cond(y) {
                (self.drop_top().with_pc(self.top()), 5)
            } else {
                (self, 2)
            }
        } else if y == 4 {
            (self.advance(1).with_bus(self.bus.write((0xFF00 + self.imm8()) as u16, r.a)), 3)
        } else if y == 5 {
            let out = add16imm_spec(r.sp, self.imm8());
            (self.advance(1).with_sp(out.0).with_f(out.1), 4)
        } else if y == 6 {
            let v = self.bus.read((0xFF00 + self.imm8()) as u16);
            (self.advance(1).with_regs(Registers { a: v, pc: wrap16(r.pc + 1), ..r }), 3)
        } else {
            let out = add16imm_spec(r.sp, self.imm8());
            (self.advance(1).set_rp(2, out.0).with_f(out.1), 3)
        }
    }

    /// POP rr, RET, RETI, JP HL and LD SP,HL.
    pub open spec fn pops(self, op: u8) -> (CpuState, u32) {
        let y = (op / 8) % 8;
        let p = y / 2;
        let r = self.regs;
        if y % 2 == 0 {
            (self.drop_top().set_rp2(p, self.top()), 3)
        } else if p == 0 {
            (self.drop_top().with_pc(self.top()), 4)
        } else if p == 1 {
            (CpuState { setei: 1, ..self.drop_top().with_pc(self.top()) }, 4)
        } else if p == 2 {
            (self.with_pc(r.spec_hl()), 1)
        } else {
            (self.with_sp(r.spec_hl()), 2)
        }
    }

    /// JP cc,nn, LD (C),A, LD (nn),A, LD A,(C) and LD A,(nn).
    pub open spec fn jumps_high(self, op: u8) -> (CpuState, u32) {
        let y = (op / 8) % 8;
        let r = self.regs;
        if y < 4 {
            if self.cond(y) {
                (self.with_pc(self.imm16()), 4)
            } else {
                (self.advance(2), 3)
            }
        } else if y == 4 {
            (self.with_bus(self.bus.write((0xFF00 + r.c) as u16, r.a)), 2)
        } else if y == 5 {
            (self.advance(2).with_bus(self.bus.write(self.imm16(), r.a)), 4)
        } else if y == 6 {
            (self.with_regs(Registers { a: self.bus.read((0xFF00 + r.c) as u16), ..r }), 2)
        } else {
            let v = self.bus.read(self.imm16());
            (self.advance(2).with_regs(Registers { a: v, pc: wrap16(r.pc + 2), ..r }), 4)
        }
    }

    /// The extended table; PC is past the prefix and the second byte `op`.
    #[verifier::opaque]
    pub open spec fn cb(self, op: u8) -> (CpuState, u32) {
        let x = op / 64;
        let y = (op / 8) % 8;
        let z = op % 8;
        let v = self.get_r8(z);
        if x == 0 {
            let out = rot_spec(y, v, self.regs.f);
            (self.set_r8(z, out.0).with_f(out.1), if z == 6 { 4 } else { 2 })
        } else if x == 1 {
            (self.with_f(bit_spec(v, y, self.regs.f)), if z == 6 { 3 } else { 2 })
        } else if x == 2 {
            (self.set_r8(z, res_bit_spec(v, y)), if z == 6 { 4 } else { 2 })
        } else {
            (self.set_r8(z, set_bit_spec(v, y)), if z == 6 { 4 } else { 2 })
        }
    }

    /// Executes the defined base opcode `op`; PC is past it.
    pub open spec fn execute(self, op: u8) -> (CpuState, u32) {
        if op == 0xCB {
            self.advance(1).cb(self.imm8())
        } else if op < 0x40 {
            self.block0(op)
        } else if op < 0x80 {
            self.block1(op)
        } else if op < 0xC0 {
            self.block2(op)
        } else {
            self.block3(op)
        }
    }

    /// The opcode the next fetch reads.
    pub open spec fn next_opcode(self) -> u8 {
        self.bus.read(self.regs.pc)
    }

    /// The state after fetching the opcode: PC moves on, except once after
    /// the HALT bug, when the same byte will be fetched again.
    pub open spec fn fetched(self) -> CpuState {
        if self.halt_bug {
            CpuState { halt_bug: false, ..self }
        } else {
            self.advance(1)
        }
    }

    /// Applies the delayed IME changes scheduled by DI, EI and RETI.
    pub open spec fn ime_updated(self) -> CpuState {
        let s1 = if self.setdi == 2 {
            CpuState { setdi: 1, ..self }
        } else if self.setdi == 1 {
            CpuState { setdi: 0, ime: false, ..self }
        } else {
            CpuState { setdi: 0, ..self }
        };
        if s1.setei == 2 {
            CpuState { setei: 1, ..s1 }
        } else if s1.setei == 1 {
            CpuState { setei: 0, ime: true, ..s1 }
        } else {
            CpuState { setei: 0, ..s1 }
        }
    }

    /// Serves the highest-priority pending source: IME off, its request
    /// bit cleared, PC pushed and the source's vector loaded.
    pub open spec fn serve(self) -> CpuState {
        let n = lowest_source(pending(self.bus.inte, self.bus.intf));
        let s = CpuState {
            ime: false,
            halted: false,
            bus: BusState { intf: self.bus.intf & !bit_weight(n), ..self.bus },
            ..self
        };
        s.push(self.regs.pc).with_pc((0x40 + 8 * n as int) as u16)
    }

    /// Whether the step that starts in this state hits an undefined opcode.
    pub open spec fn faults(self) -> bool {
        let s = self.ime_updated();
        let woke = pending(s.bus.inte, s.bus.intf) != 0 && (s.ime || s.halted);
        if woke && s.ime {
            false
        } else if !woke && s.halted {
            false
        } else {
            undefined_opcode(s.next_opcode())
        }
    }

    /// One step of the engine when it does not fault: the new state and the
    /// machine cycles taken.
    pub open spec fn step(self) -> (CpuState, u32) {
        let s = self.ime_updated();
        let woke = pending(s.bus.inte, s.bus.intf) != 0 && (s.ime || s.halted);
        if woke && s.ime {
            (s.serve(), 4)
        } else if !woke && s.halted {
            (s, 1)
        } else {
            let s2 = CpuState { halted: false, ..s };
            s2.fetched().execute(s2.next_opcode())
        }
    }
}

/// A word pushed onto a stack that lies in RAM is the new top of the stack.
pub proof fn lemma_push_top(s: CpuState, v: u16)
    requires
        s.bus.wf(),
        is_ram(wrap16(s.regs.sp - 2)),
        is_ram(next_addr(wrap16(s.regs.sp - 2))),
    ensures
        s.push(v).top() == v,
        s.push(v).regs.sp == wrap16(s.regs.sp - 2),
        s.push(v).bus.wf(),
{
    lemma_word_read_after_write(s.bus, wrap16(s.regs.sp - 2), v);
}

/// Serving an interrupt with the stack in RAM: the old PC is the new top of
/// the stack, PC is the vector of the lowest pending source, that source's
/// request bit alone is cleared, IE is kept, and IME and HALT are cleared.
pub proof fn lemma_serve_pushes_pc(s: CpuState)
    requires
        s.bus.wf(),
        pending(s.bus.inte, s.bus.intf) != 0,
        is_ram(wrap16(s.regs.sp - 2)),
        is_ram(next_addr(wrap16(s.regs.sp - 2))),
    ensures
        s.serve().top() == s.regs.pc,
        s.serve().regs.sp == wrap16(s.regs.sp - 2),
        s.serve().regs.pc == 0x40 + 8 * lowest_source(pending(s.bus.inte, s.bus.intf)),
        s.serve().bus.intf == s.bus.intf & !bit_weight(lowest_source(pending(s.bus.inte, s.bus.intf))),
        s.serve().bus.inte == s.bus.inte,
        !s.serve().ime,
        !s.serve().halted,
        s.serve().bus.wf(),
{
    let n = lowest_source(pending(s.bus.inte, s.bus.intf));
    let t = CpuState {
        ime: false,
        halted: false,
        bus: BusState { intf: s.bus.intf & !bit_weight(n), ..s.bus },
        ..s
    };
    lemma_push_top(t, s.regs.pc);
}

/// The source served first is pending, and no source of higher priority
/// (lower bit) is.
pub proof fn lemma_interrupt_priority(inte: u8, intf: u8, m: u8)
    requires
        pending(inte, intf) != 0,
        m < lowest_source(pending(inte, intf)),
    ensures
        pending(inte, intf) & bit_weight(lowest_source(pending(inte, intf))) != 0,
        lowest_source(pending(inte, intf)) < 5,
        pending(inte, intf) & bit_weight(m) == 0,
{
    let p = pending(inte, intf);
    assert(p & 1 != 0 || p & 2 != 0 || p & 4 != 0 || p & 8 != 0 || p & 16 != 0) by (bit_vector)
        requires
            p == inte & intf & 0x1F,
            p != 0,
    ;
}

proof fn lemma_jumps_wf(s: CpuState, op: u8)
    requires
        s.regs.wf(),
    ensures
        s.jumps(op).0.regs.wf(),
{
}

proof fn lemma_pairs_wf(s: CpuState, op: u8)
    requires
        s.regs.wf(),
    ensures
        s.pairs(op).0.regs.wf(),
{
}

proof fn lemma_indirect_wf(s: CpuState, op: u8)
    requires
        s.regs.wf(),
    ensures
        s.indirect(op).0.regs.wf(),
{
}

proof fn lemma_r8_ops_wf(s: CpuState, op: u8)
    requires
        s.regs.wf(),
    ensures
        s.r8_ops(op).0.regs.wf(),
{
}

proof fn lemma_acc_ops_wf(s: CpuState, op: u8)
    requires
        s.regs.wf(),
    ensures
        s.acc_ops(op).0.regs.wf(),
{
}

proof fn lemma_returns_high_wf(s: CpuState, op: u8)
    requires
        s.regs.wf(),
    ensures
        s.returns_high(op).0.regs.wf(),
{
}

proof fn lemma_pops_wf(s: CpuState, op: u8)
    requires
        s.regs.wf(),
    ensures
        s.pops(op).0.regs.wf(),
{
}

proof fn lemma_jumps_high_wf(s: CpuState, op: u8)
    requires
        s.regs.wf(),
    ensures
        s.jumps_high(op).0.regs.wf(),
{
}

proof fn lemma_calls_wf(s: CpuState, op: u8)
    requires
        s.regs.wf(),
    ensures
        s.calls(op).0.regs.wf(),
{
}

proof fn lemma_misc_high_wf(s: CpuState, op: u8)
    requires
        s.regs.wf(),
    ensures
        s.misc_high(op).0.regs.wf(),
{
}

proof fn lemma_block0_wf(s: CpuState, op: u8)
    requires
        s.regs.wf(),
    ensures
        s.block0(op).0.regs.wf(),
{
    reveal(CpuState::block0);
    lemma_jumps_wf(s, op);
    lemma_pairs_wf(s, op);
    lemma_indirect_wf(s, op);
    lemma_r8_ops_wf(s, op);
    lemma_acc_ops_wf(s, op);
}

proof fn lemma_block3_wf(s: CpuState, op: u8)
    requires
        s.regs.wf(),
    ensures
        s.block3(op).0.regs.wf(),
{
    reveal(CpuState::block3);
    lemma_returns_high_wf(s, op);
    lemma_pops_wf(s, op);
    lemma_jumps_high_wf(s, op);
    lemma_calls_wf(s, op);
    lemma_misc_high_wf(s, op);
}

proof fn lemma_rot_flags_wf(y: u8, v: u8, f: u8)
    ensures
        rot_spec(y, v, f).1 % 16 == 0,
{
}

proof fn lemma_cb_wf(s: CpuState, op: u8)
    requires
        s.regs.wf(),
    ensures
        s.cb(op).0.regs.wf(),
{
    reveal(CpuState::cb);
    let y = (op / 8) % 8;
    let z = op % 8;
    let v = s.get_r8(z);
    lemma_rot_flags_wf(y, v, s.regs.f);
    let out = rot_spec(y, v, s.regs.f);
    assert(s.set_r8(z, out.0).regs.f == s.regs.f);
    assert(s.set_r8(z, res_bit_spec(v, y)).regs.f == s.regs.f);
    assert(s.set_r8(z, set_bit_spec(v, y)).regs.f == s.regs.f);
    assert(bit_spec(v, y, s.regs.f) % 16 == 0);
}

proof fn lemma_block1_wf(s: CpuState, op: u8)
    requires
        s.regs.wf(),
    ensures
        s.block1(op).0.regs.wf(),
{
    reveal(CpuState::block1);
}

proof fn lemma_block2_wf(s: CpuState, op: u8)
    requires
        s.regs.wf(),
    ensures
        s.block2(op).0.regs.wf(),
{
    reveal(CpuState::block2);
}

proof fn lemma_execute_wf(s: CpuState, op: u8)
    requires
        s.regs.wf(),
    ensures
        s.execute(op).0.regs.wf(),
{
    if op == 0xCB {
        lemma_cb_wf(s.advance(1), s.imm8());
    } else if op < 0x40 {
        lemma_block0_wf(s, op);
    } else if op < 0x80 {
        lemma_block1_wf(s, op);
    } else if op < 0xC0 {
        lemma_block2_wf(s, op);
    } else {
        lemma_block3_wf(s, op);
    }
}

/// The low nibble of F is zero before a step exactly as after it: no
/// instruction, interrupt or idle cycle sets those bits.
pub proof fn lemma_step_keeps_flag_nibble(s: CpuState)
    requires
        s.regs.wf(),
    ensures
        s.step().0.regs.wf(),
{
    let t = s.ime_updated();
    let s2 = CpuState { halted: false, ..t };
    lemma_execute_wf(s2.fetched(), s2.next_opcode());
}

} // verus!
