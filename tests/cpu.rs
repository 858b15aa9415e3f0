use rekop_gbc::cpu::CPU;
use rekop_gbc::error::CpuError;
use rekop_gbc::registers::CpuFlag;
use rekop_gbc::rom::Rom;

fn cpu_with_program(program: &[u8]) -> CPU {
    let mut bytes = vec![0u8; 0x8000];
    for (i, b) in program.iter().enumerate() {
        bytes[0x100 + i] = *b;
    }
    CPU::new(Rom::from_bytes(bytes).unwrap())
}

#[test]
fn minimal_program_loads_and_halts() {
    let mut cpu = cpu_with_program(&[0x06, 0x05, 0x78, 0x76]);
    let mut total = 0;
    total += cpu.step().unwrap();
    total += cpu.step().unwrap();
    total += cpu.step().unwrap();
    assert_eq!(cpu.regs.a, 0x05);
    assert_eq!(cpu.regs.b, 0x05);
    assert!(cpu.halted);
    assert_eq!(total, 4);
    // A halted engine idles one cycle per step.
    assert_eq!(cpu.step().unwrap(), 1);
    assert_eq!(cpu.regs.pc, 0x0104);
}

#[test]
fn bit_7_of_zero_accumulator() {
    let mut cpu = cpu_with_program(&[0xCB, 0x7F]);
    cpu.regs.a = 0x00;
    cpu.regs.flag(CpuFlag::C, true);
    cpu.regs.flag(CpuFlag::N, true);
    assert_eq!(cpu.step().unwrap(), 2);
    assert!(cpu.regs.get_flag(CpuFlag::Z));
    assert!(cpu.regs.get_flag(CpuFlag::H));
    assert!(!cpu.regs.get_flag(CpuFlag::N));
    assert!(cpu.regs.get_flag(CpuFlag::C));
    assert_eq!(cpu.regs.pc, 0x0102);

    let mut cpu = cpu_with_program(&[0xCB, 0x7F]);
    cpu.regs.a = 0x80;
    cpu.regs.flag(CpuFlag::C, false);
    cpu.step().unwrap();
    assert!(!cpu.regs.get_flag(CpuFlag::Z));
    assert!(!cpu.regs.get_flag(CpuFlag::C));
}

#[test]
fn interrupts_served_in_priority_order() {
    let mut cpu = cpu_with_program(&[0x00; 8]);
    cpu.mmu.inte = 0x1F;
    cpu.mmu.intf = 0x1F;
    let vectors = [0x40u16, 0x48, 0x50, 0x58, 0x60];
    let remaining = [0x1Eu8, 0x1C, 0x18, 0x10, 0x00];
    for i in 0..5 {
        cpu.ime = true;
        assert_eq!(cpu.step().unwrap(), 4);
        assert_eq!(cpu.regs.pc, vectors[i]);
        assert_eq!(cpu.mmu.intf & 0x1F, remaining[i]);
        assert!(!cpu.ime);
    }
}

#[test]
fn interrupt_pushes_return_address() {
    let mut cpu = cpu_with_program(&[0x00, 0x00]);
    cpu.step().unwrap();
    cpu.mmu.inte = 0x04;
    cpu.mmu.intf = 0x04;
    assert_eq!(cpu.step().unwrap(), 4);
    assert_eq!(cpu.regs.pc, 0x50);
    assert_eq!(cpu.regs.sp, 0xFFFC);
    assert_eq!(cpu.mmu.rw(0xFFFC), 0x0101);
    assert_eq!(cpu.mmu.intf, 0x00);
}

#[test]
fn halted_engine_wakes_without_ime() {
    let mut cpu = cpu_with_program(&[0x76, 0x04, 0x00]);
    cpu.ime = false;
    cpu.step().unwrap();
    assert!(cpu.halted);
    assert_eq!(cpu.step().unwrap(), 1);
    cpu.mmu.inte = 0x01;
    cpu.mmu.intf = 0x01;
    // Woken but not served: the next instruction runs in the same step.
    assert_eq!(cpu.step().unwrap(), 1);
    assert!(!cpu.halted);
    assert_eq!(cpu.regs.pc, 0x0102);
    assert_eq!(cpu.mmu.intf, 0x01);
}

#[test]
fn halt_bug_runs_next_instruction_twice() {
    let mut cpu = cpu_with_program(&[0x76, 0x04, 0x00]);
    cpu.ime = false;
    cpu.mmu.inte = 0x01;
    cpu.mmu.intf = 0x01;
    let b = cpu.regs.b;
    cpu.step().unwrap();
    assert!(cpu.halt_bug);
    cpu.step().unwrap();
    assert_eq!(cpu.regs.pc, 0x0101);
    cpu.step().unwrap();
    assert_eq!(cpu.regs.pc, 0x0102);
    assert_eq!(cpu.regs.b, b.wrapping_add(2));
}

#[test]
fn ei_takes_effect_after_next_instruction() {
    let mut cpu = cpu_with_program(&[0xFB, 0x00, 0x00]);
    cpu.ime = false;
    cpu.mmu.inte = 0x01;
    cpu.mmu.intf = 0x01;
    assert_eq!(cpu.step().unwrap(), 1);
    assert_eq!(cpu.step().unwrap(), 1);
    assert_eq!(cpu.regs.pc, 0x0102);
    assert_eq!(cpu.step().unwrap(), 4);
    assert_eq!(cpu.regs.pc, 0x0040);
}

#[test]
fn di_takes_effect_after_next_instruction() {
    let mut cpu = cpu_with_program(&[0xF3, 0x00, 0x00]);
    cpu.step().unwrap();
    assert!(cpu.ime);
    cpu.step().unwrap();
    assert!(cpu.ime);
    cpu.step().unwrap();
    assert!(!cpu.ime);
}

#[test]
fn undefined_opcode_is_reported() {
    let mut cpu = cpu_with_program(&[0x00, 0xD3]);
    cpu.step().unwrap();
    assert_eq!(cpu.step(), Err(CpuError::UnknownOpcode(0xD3, 0x0101)));
    let mut cpu = cpu_with_program(&[0xFD]);
    assert_eq!(cpu.do_cycle(), Err(CpuError::UnknownOpcode(0xFD, 0x0100)));
}

#[test]
fn call_and_return() {
    // CALL 0x0110 ; ... ; at 0x0110: RET
    let mut program = vec![0u8; 0x20];
    program[0] = 0xCD;
    program[1] = 0x10;
    program[2] = 0x01;
    program[0x10] = 0xC9;
    let mut cpu = cpu_with_program(&program);
    assert_eq!(cpu.step().unwrap(), 6);
    assert_eq!(cpu.regs.pc, 0x0110);
    assert_eq!(cpu.regs.sp, 0xFFFC);
    assert_eq!(cpu.mmu.rw(0xFFFC), 0x0103);
    assert_eq!(cpu.step().unwrap(), 4);
    assert_eq!(cpu.regs.pc, 0x0103);
    assert_eq!(cpu.regs.sp, 0xFFFE);
}

#[test]
fn conditional_jump_costs() {
    // JR NZ,+2 taken; then JR Z,+2 not taken.
    let mut cpu = cpu_with_program(&[0x20, 0x02, 0x00, 0x00, 0x28, 0x02]);
    cpu.regs.flag(CpuFlag::Z, false);
    assert_eq!(cpu.step().unwrap(), 3);
    assert_eq!(cpu.regs.pc, 0x0104);
    assert_eq!(cpu.step().unwrap(), 2);
    assert_eq!(cpu.regs.pc, 0x0106);
}

#[test]
fn relative_jump_backwards() {
    let mut cpu = cpu_with_program(&[0x00, 0x18, 0xFD]);
    cpu.step().unwrap();
    assert_eq!(cpu.step().unwrap(), 3);
    assert_eq!(cpu.regs.pc, 0x0100);
}

#[test]
fn push_pop_af_clears_low_nibble() {
    // LD BC,0x12FF ; PUSH BC ; POP AF
    let mut cpu = cpu_with_program(&[0x01, 0xFF, 0x12, 0xC5, 0xF1]);
    assert_eq!(cpu.step().unwrap(), 3);
    assert_eq!(cpu.regs.bc(), 0x12FF);
    assert_eq!(cpu.step().unwrap(), 4);
    assert_eq!(cpu.step().unwrap(), 3);
    assert_eq!(cpu.regs.a, 0x12);
    assert_eq!(cpu.regs.f, 0xF0);
    assert_eq!(cpu.regs.af(), 0x12F0);
}

#[test]
fn load_and_store_through_hl() {
    // LD HL,0xC000 ; LD (HL+),A ; LD A,0x33 ; LD (HL-),A ; LD B,(HL)
    let mut cpu = cpu_with_program(&[0x21, 0x00, 0xC0, 0x22, 0x3E, 0x33, 0x32, 0x46]);
    cpu.regs.a = 0x11;
    cpu.step().unwrap();
    assert_eq!(cpu.step().unwrap(), 2);
    assert_eq!(cpu.regs.hl(), 0xC001);
    cpu.step().unwrap();
    cpu.step().unwrap();
    assert_eq!(cpu.regs.hl(), 0xC000);
    assert_eq!(cpu.mmu.rb(0xC000), 0x11);
    assert_eq!(cpu.mmu.rb(0xC001), 0x33);
    assert_eq!(cpu.step().unwrap(), 2);
    assert_eq!(cpu.regs.b, 0x11);
}

#[test]
fn accumulator_rotate_clears_zero() {
    // RLCA on 0x00 leaves Z clear, unlike RLC A.
    let mut cpu = cpu_with_program(&[0x07, 0xCB, 0x07]);
    cpu.regs.a = 0x00;
    cpu.step().unwrap();
    assert!(!cpu.regs.get_flag(CpuFlag::Z));
    cpu.step().unwrap();
    assert!(cpu.regs.get_flag(CpuFlag::Z));
    let mut cpu = cpu_with_program(&[0x07]);
    cpu.regs.a = 0x85;
    cpu.step().unwrap();
    assert_eq!(cpu.regs.a, 0x0B);
    assert!(cpu.regs.get_flag(CpuFlag::C));
}

#[test]
fn set_and_res_on_memory() {
    // LD HL,0xC010 ; SET 3,(HL) ; RES 3,(HL) ; SET 7,(HL)
    let mut cpu = cpu_with_program(&[0x21, 0x10, 0xC0, 0xCB, 0xDE, 0xCB, 0x9E, 0xCB, 0xFE]);
    cpu.step().unwrap();
    assert_eq!(cpu.step().unwrap(), 4);
    assert_eq!(cpu.mmu.rb(0xC010), 0x08);
    cpu.step().unwrap();
    assert_eq!(cpu.mmu.rb(0xC010), 0x00);
    cpu.step().unwrap();
    assert_eq!(cpu.mmu.rb(0xC010), 0x80);
}

#[test]
fn do_cycle_reports_clock_cycles_and_ticks_timer() {
    let mut cpu = cpu_with_program(&[0x00; 4]);
    let before = cpu.mmu.timer.internal_div;
    assert_eq!(cpu.do_cycle().unwrap(), 4);
    assert_eq!(cpu.mmu.timer.internal_div, before + 4);
}

#[test]
fn restart_jumps_to_fixed_address() {
    let mut cpu = cpu_with_program(&[0xFF]);
    assert_eq!(cpu.step().unwrap(), 4);
    assert_eq!(cpu.regs.pc, 0x0038);
    assert_eq!(cpu.mmu.rw(cpu.regs.sp), 0x0101);
}
