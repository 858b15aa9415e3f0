use rekop_gbc::cpu::CPU;
use rekop_gbc::registers::{pack_flags, CpuFlag, Registers};
use rekop_gbc::rom::Rom;

fn cpu() -> CPU {
    CPU::new(Rom::from_bytes(vec![0u8; 0x8000]).unwrap())
}

#[test]
fn add_then_sub_gives_back_value() {
    let mut cpu = cpu();
    for a in [0u8, 1, 0x0F, 0x7F, 0x80, 0xFF] {
        for b in [0u8, 1, 0x0F, 0x10, 0x81, 0xFF] {
            cpu.regs.a = a;
            cpu.alu_add(b, false);
            cpu.alu_sub(b, false);
            assert_eq!(cpu.regs.a, a);
            cpu.alu_sub(b, false);
            cpu.alu_add(b, false);
            assert_eq!(cpu.regs.a, a);
        }
    }
}

#[test]
fn add_sets_flags() {
    let mut cpu = cpu();
    cpu.regs.a = 0x0F;
    cpu.alu_add(0x01, false);
    assert_eq!(cpu.regs.a, 0x10);
    assert_eq!(cpu.regs.f, pack_flags(false, false, true, false));
    cpu.regs.a = 0xFF;
    cpu.alu_add(0x01, false);
    assert_eq!(cpu.regs.a, 0x00);
    assert_eq!(cpu.regs.f, 0xB0);
    // With carry in.
    cpu.regs.a = 0x0E;
    cpu.regs.flag(CpuFlag::C, true);
    cpu.alu_add(0x01, true);
    assert_eq!(cpu.regs.a, 0x10);
    assert!(cpu.regs.get_flag(CpuFlag::H));
}

#[test]
fn sub_sets_flags() {
    let mut cpu = cpu();
    cpu.regs.a = 0x10;
    cpu.alu_sub(0x01, false);
    assert_eq!(cpu.regs.a, 0x0F);
    assert_eq!(cpu.regs.f, pack_flags(false, true, true, false));
    cpu.regs.a = 0x00;
    cpu.alu_sub(0x01, false);
    assert_eq!(cpu.regs.a, 0xFF);
    assert_eq!(cpu.regs.f, 0x70);
    cpu.regs.a = 0x05;
    cpu.alu_cp(0x05);
    assert_eq!(cpu.regs.a, 0x05);
    assert_eq!(cpu.regs.f, 0xC0);
}

#[test]
fn logic_flags() {
    let mut cpu = cpu();
    cpu.regs.a = 0xF0;
    cpu.alu_and(0x0F);
    assert_eq!(cpu.regs.a, 0x00);
    assert_eq!(cpu.regs.f, 0xA0);
    cpu.regs.a = 0xF0;
    cpu.alu_or(0x0F);
    assert_eq!(cpu.regs.a, 0xFF);
    assert_eq!(cpu.regs.f, 0x00);
    cpu.regs.a = 0xFF;
    cpu.alu_xor(0xFF);
    assert_eq!(cpu.regs.a, 0x00);
    assert_eq!(cpu.regs.f, 0x80);
}

#[test]
fn inc_then_dec_keeps_carry() {
    let mut cpu = cpu();
    for carry in [false, true] {
        for a in [0u8, 0x0F, 0x10, 0x7F, 0xFF] {
            cpu.regs.flag(CpuFlag::C, carry);
            let r = cpu.alu_inc(a);
            let back = cpu.alu_dec(r);
            assert_eq!(back, a);
            assert_eq!(cpu.regs.get_flag(CpuFlag::C), carry);
        }
    }
    let r = cpu.alu_inc(0xFF);
    assert_eq!(r, 0x00);
    assert!(cpu.regs.get_flag(CpuFlag::Z));
    assert!(cpu.regs.get_flag(CpuFlag::H));
    let r = cpu.alu_dec(0x10);
    assert_eq!(r, 0x0F);
    assert!(cpu.regs.get_flag(CpuFlag::H));
    assert!(cpu.regs.get_flag(CpuFlag::N));
}

#[test]
fn daa_after_bcd_addition() {
    let mut cpu = cpu();
    for x in 0..100u32 {
        for y in 0..100u32 {
            let a = ((x / 10) * 16 + x % 10) as u8;
            let b = ((y / 10) * 16 + y % 10) as u8;
            let s = (x + y) % 100;
            cpu.regs.a = a;
            cpu.alu_add(b, false);
            cpu.alu_daa();
            assert_eq!(cpu.regs.a, ((s / 10) * 16 + s % 10) as u8, "{} + {}", x, y);
            assert_eq!(cpu.regs.get_flag(CpuFlag::C), x + y >= 100);
            assert_eq!(cpu.regs.get_flag(CpuFlag::Z), s == 0);
            assert!(!cpu.regs.get_flag(CpuFlag::H));
            assert!(!cpu.regs.get_flag(CpuFlag::N));
        }
    }
}

#[test]
fn daa_after_bcd_subtraction() {
    let mut cpu = cpu();
    cpu.regs.a = 0x42;
    cpu.alu_sub(0x15, false);
    cpu.alu_daa();
    assert_eq!(cpu.regs.a, 0x27);
    cpu.regs.a = 0x10;
    cpu.alu_sub(0x20, false);
    cpu.alu_daa();
    assert_eq!(cpu.regs.a, 0x90);
    assert!(cpu.regs.get_flag(CpuFlag::C));
}

#[test]
fn sixteen_bit_add_flags() {
    let mut cpu = cpu();
    cpu.regs.sethl(0x0FFF);
    cpu.regs.flag(CpuFlag::Z, true);
    cpu.alu_add16(0x0001);
    assert_eq!(cpu.regs.hl(), 0x1000);
    assert_eq!(cpu.regs.f, pack_flags(true, false, true, false));
    cpu.regs.sethl(0xFFFF);
    cpu.alu_add16(0x0001);
    assert_eq!(cpu.regs.hl(), 0x0000);
    assert_eq!(cpu.regs.f, pack_flags(true, false, true, true));
}

#[test]
fn signed_offset_add_uses_low_byte() {
    // ADD SP,-1 with SP = 0x0000: H and C come from the low byte.
    let mut bytes = vec![0u8; 0x8000];
    bytes[0x100] = 0xE8;
    bytes[0x101] = 0xFF;
    bytes[0x102] = 0xF8;
    bytes[0x103] = 0x01;
    let mut cpu = CPU::new(Rom::from_bytes(bytes).unwrap());
    cpu.regs.sp = 0x0000;
    assert_eq!(cpu.step().unwrap(), 4);
    assert_eq!(cpu.regs.sp, 0xFFFF);
    assert_eq!(cpu.regs.f, 0x00);
    cpu.regs.sp = 0x00FF;
    assert_eq!(cpu.step().unwrap(), 3);
    assert_eq!(cpu.regs.hl(), 0x0100);
    assert_eq!(cpu.regs.f, pack_flags(false, false, true, true));
}

#[test]
fn shifts_and_rotates() {
    let mut cpu = cpu();
    cpu.regs.flag(CpuFlag::C, true);
    assert_eq!(cpu.alu_rl(0x80), 0x01);
    assert!(cpu.regs.get_flag(CpuFlag::C));
    assert_eq!(cpu.alu_rr(0x01), 0x80);
    assert!(cpu.regs.get_flag(CpuFlag::C));
    assert_eq!(cpu.alu_rrc(0x01), 0x80);
    assert_eq!(cpu.alu_rlc(0x80), 0x01);
    assert_eq!(cpu.alu_sla(0x81), 0x02);
    assert!(cpu.regs.get_flag(CpuFlag::C));
    assert_eq!(cpu.alu_sra(0x81), 0xC0);
    assert_eq!(cpu.alu_srl(0x81), 0x40);
    assert_eq!(cpu.alu_swap(0xAB), 0xBA);
    assert!(!cpu.regs.get_flag(CpuFlag::C));
    assert_eq!(cpu.alu_srl(0x01), 0x00);
    assert!(cpu.regs.get_flag(CpuFlag::Z));
}

#[test]
fn register_pairs_round_trip() {
    let mut r = Registers::new();
    for v in [0x0000u16, 0x1234, 0xABCD, 0xFFFF, 0x00F0, 0x0F0F] {
        r.setbc(v);
        assert_eq!(r.bc(), v);
        r.setde(v);
        assert_eq!(r.de(), v);
        r.sethl(v);
        assert_eq!(r.hl(), v);
        r.setaf(v);
        assert_eq!(r.af(), v & 0xFFF0);
        assert_eq!(r.f & 0x0F, 0);
    }
}

#[test]
fn registers_after_boot() {
    let r = Registers::new();
    assert_eq!(r.af(), 0x01B0);
    assert_eq!(r.bc(), 0x0013);
    assert_eq!(r.de(), 0x00D8);
    assert_eq!(r.hl(), 0x014D);
    assert_eq!(r.sp, 0xFFFE);
    assert_eq!(r.pc, 0x0100);
}

#[test]
fn flags_are_masked() {
    let mut r = Registers::new();
    r.setf(0xFF);
    assert_eq!(r.f, 0xF0);
    r.flag(CpuFlag::N, false);
    assert_eq!(r.f, 0xB0);
    r.flag(CpuFlag::N, true);
    assert_eq!(r.f, 0xF0);
    assert!(r.get_flag(CpuFlag::N));
    let mut r2 = Registers::new();
    r2.sethl(0xFFFF);
    assert_eq!(r2.hli(), 0xFFFF);
    assert_eq!(r2.hl(), 0x0000);
    assert_eq!(r2.hld(), 0x0000);
    assert_eq!(r2.hl(), 0xFFFF);
}
