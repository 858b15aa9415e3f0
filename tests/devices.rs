use rekop_gbc::device::Device;
use rekop_gbc::error::{CartridgeError, EmulatorError};
use rekop_gbc::gpu::Gpu;
use rekop_gbc::hram::Hram;
use rekop_gbc::joypad::{Joypad, KeypadKey};
use rekop_gbc::mmu::{region_of, Mmu, Region};
use rekop_gbc::ppu::Ppu;
use rekop_gbc::rom::Rom;
use rekop_gbc::timer::Timer;
use rekop_gbc::wram::Wram;

fn image() -> Vec<u8> {
    let mut bytes = vec![0u8; 0x8000];
    for (i, b) in bytes.iter_mut().enumerate() {
        *b = (i % 251) as u8;
    }
    bytes[0x147] = 0;
    bytes
}

fn mmu() -> Mmu {
    Mmu::new(Rom::from_bytes(image()).unwrap())
}

#[test]
fn every_address_has_one_owner() {
    let mut counts = std::collections::HashMap::new();
    for a in 0..=0xFFFFu32 {
        let r = region_of(a as u16);
        *counts.entry(format!("{:?}", r)).or_insert(0u32) += 1;
    }
    assert_eq!(counts["Rom"], 0x8000);
    assert_eq!(counts["Vram"], 0x2000);
    assert_eq!(counts["ExtRam"], 0x2000);
    assert_eq!(counts["Wram"], 0x2000);
    assert_eq!(counts["Echo"], 0x1E00);
    assert_eq!(counts["Oam"], 0xA0);
    assert_eq!(counts["Hram"], 0x7F);
    assert_eq!(counts["Timer"], 4);
    assert_eq!(counts["Lcd"], 13);
    assert_eq!(region_of(0xFF00), Region::Joypad);
    assert_eq!(region_of(0xFF0F), Region::InterruptFlag);
    assert_eq!(region_of(0xFF70), Region::WramBank);
    assert_eq!(region_of(0xFFFF), Region::InterruptEnable);
    assert_eq!(region_of(0xFEA0), Region::Unmapped);
    assert_eq!(region_of(0xFF7F), Region::Unmapped);
    let total: u32 = counts.values().sum();
    assert_eq!(total, 0x10000);
}

#[test]
fn unmapped_addresses_read_ff_and_ignore_writes() {
    let mut m = mmu();
    for a in [0xFEA0u16, 0xFEFF, 0xFF01, 0xFF10, 0xFF7F] {
        m.wb(a, 0x12);
        assert_eq!(m.rb(a), 0xFF);
    }
}

#[test]
fn rom_reads_and_ignores_writes() {
    let mut m = mmu();
    assert_eq!(m.rb(0x0000), 0);
    assert_eq!(m.rb(0x1234), (0x1234 % 251) as u8);
    m.wb(0x1234, 0xAA);
    assert_eq!(m.rb(0x1234), (0x1234 % 251) as u8);
    m.wb(0xA010, 0x5A);
    assert_eq!(m.rb(0xA010), 0x5A);
}

#[test]
fn echo_mirrors_work_ram() {
    let mut m = mmu();
    m.wb(0xC123, 0x42);
    assert_eq!(m.rb(0xE123), 0x42);
    m.wb(0xFDFF, 0x24);
    assert_eq!(m.rb(0xDDFF), 0x24);
}

#[test]
fn work_ram_banks() {
    let mut m = mmu();
    assert_eq!(m.wram.bank(), 1);
    m.wb(0xD000, 0x11);
    m.wb(0xFF70, 0x02);
    assert_eq!(m.wram.bank(), 2);
    assert_eq!(m.rb(0xD000), 0x00);
    m.wb(0xD000, 0x22);
    m.wb(0xFF70, 0x00);
    assert_eq!(m.wram.bank(), 1);
    assert_eq!(m.rb(0xD000), 0x11);
    assert_eq!(m.rb(0xFF70), 0xF9);
    // Bank 0 stays at 0xC000 whatever the selector.
    m.wb(0xC000, 0x77);
    m.wb(0xFF70, 0x07);
    assert_eq!(m.rb(0xC000), 0x77);
}

#[test]
fn word_access_is_little_endian() {
    let mut m = mmu();
    m.ww(0xC100, 0xBEEF);
    assert_eq!(m.rb(0xC100), 0xEF);
    assert_eq!(m.rb(0xC101), 0xBE);
    assert_eq!(m.rw(0xC100), 0xBEEF);
    m.ww(0xFF80, 0x1234);
    assert_eq!(m.hram.rb(0xFF80), 0x34);
    assert_eq!(m.hram.rb(0xFF81), 0x12);
}

#[test]
fn interrupt_registers() {
    let mut m = mmu();
    m.wb(0xFFFF, 0x1F);
    assert_eq!(m.inte, 0x1F);
    assert_eq!(m.rb(0xFFFF), 0x1F);
    m.wb(0xFF0F, 0x01);
    assert_eq!(m.intf, 0x01);
    assert_eq!(m.rb(0xFF0F), 0x01);
}

#[test]
fn timer_overflow_at_fastest_rate() {
    let mut t = Timer::new();
    t.wb(0xFF07, 0x05);
    t.wb(0xFF06, 0xF0);
    t.wb(0xFF05, 0xF0);
    for _ in 0..15 {
        t.do_cycle(16);
    }
    assert_eq!(t.rb(0xFF05), 0xFF);
    assert_eq!(t.interrupt, 0);
    t.do_cycle(16);
    assert_eq!(t.rb(0xFF05), 0xF0);
    assert_eq!(t.interrupt, 0x04);
    assert_eq!(t.rb(0xFF04), 1);

    let mut t = Timer::new();
    t.wb(0xFF07, 0x05);
    t.wb(0xFF06, 0xF0);
    t.wb(0xFF05, 0xF0);
    t.do_cycle(256);
    assert_eq!(t.rb(0xFF05), 0xF0);
    assert_eq!(t.interrupt, 0x04);
}

#[test]
fn timer_several_overflows_in_one_call() {
    let mut t = Timer::new();
    t.wb(0xFF07, 0x05);
    t.wb(0xFF06, 0xFE);
    t.wb(0xFF05, 0xFE);
    t.do_cycle(16 * 5);
    // FF, reload FE, FF, reload FE, FF
    assert_eq!(t.tima, 0xFF);
    assert_eq!(t.interrupt, 0x04);
}

#[test]
fn timer_rates_and_registers() {
    let mut t = Timer::new();
    assert_eq!(t.rb(0xFF07), 0xF8);
    t.do_cycle(1024);
    assert_eq!(t.rb(0xFF05), 0);
    assert_eq!(t.rb(0xFF04), 4);
    t.wb(0xFF04, 0x99);
    assert_eq!(t.rb(0xFF04), 0);
    for (tac, period) in [(0x04u8, 1024u32), (0x05, 16), (0x06, 64), (0x07, 256)] {
        let mut t = Timer::new();
        t.wb(0xFF07, tac);
        t.do_cycle(period - 1);
        assert_eq!(t.tima, 0);
        t.do_cycle(1);
        assert_eq!(t.tima, 1);
        assert_eq!(t.rb(0xFF07), 0xF8 | tac);
    }
}

#[test]
fn bus_collects_interrupt_requests_once() {
    let mut m = mmu();
    m.timer.wb(0xFF07, 0x05);
    m.timer.wb(0xFF05, 0xFF);
    m.joypad.press_button(KeypadKey::A);
    assert_eq!(m.do_cycle(16), 16);
    assert_eq!(m.intf, 0x14);
    assert_eq!(m.timer.interrupt, 0);
    assert_eq!(m.joypad.interrupt, 0);
    m.intf = 0;
    m.do_cycle(4);
    assert_eq!(m.intf, 0);
}

#[test]
fn joypad_reads_selected_group() {
    let mut j = Joypad::new();
    j.press_button(KeypadKey::Start);
    assert_eq!(j.interrupt, 0x10);
    j.interrupt = 0;
    j.press_button(KeypadKey::Left);
    assert_eq!(j.interrupt, 0);
    // Select the action group (bit 5 low).
    j.wb(0x10);
    assert_eq!(j.rb(), 0xC0 | 0x10 | 0x07);
    // Select the direction group (bit 4 low).
    j.wb(0x20);
    assert_eq!(j.rb(), 0xC0 | 0x20 | 0x0D);
    j.release_button(KeypadKey::Left);
    assert_eq!(j.rb(), 0xEF);
    assert!(j.any_button_pressed());
    j.release_button(KeypadKey::Start);
    assert!(!j.any_button_pressed());
}

#[test]
fn display_registers() {
    let mut m = mmu();
    m.wb(0xFF44, 0x50);
    assert_eq!(m.rb(0xFF44), 0x00);
    m.wb(0xFF42, 0x33);
    assert_eq!(m.rb(0xFF42), 0x33);
    m.wb(0x8000, 0x01);
    m.wb(0xFF4F, 0x00);
    assert_eq!(m.rb(0xFF4F), 0xFE);
    assert_eq!(m.rb(0x8000), 0x00);
    m.wb(0xFF4F, 0x03);
    assert_eq!(m.rb(0xFF4F), 0xFF);
    assert_eq!(m.rb(0x8000), 0x01);
    m.wb(0xFE9F, 0x66);
    assert_eq!(m.rb(0xFE9F), 0x66);
}

#[test]
fn framebuffer_gradient() {
    let p = Ppu::new();
    let fb = p.get_framebuffer();
    assert_eq!(fb.len(), 160 * 144);
    assert_eq!(fb[0], 0xFF000000);
    assert_eq!(fb[1], 0xFF010001);
    assert_eq!(fb[160 * 2 + 3], 0xFF030205);
}

#[test]
fn cartridge_checks() {
    assert_eq!(Rom::from_bytes(vec![0u8; 100]).err(), Some(CartridgeError::InvalidRomSize));
    let mut bytes = vec![0u8; 0x8000];
    bytes[0x147] = 0x01;
    assert_eq!(Rom::from_bytes(bytes).err(), Some(CartridgeError::UnsupportedType(0x01)));
    let rom = Rom::from_bytes(image()).unwrap();
    assert_eq!(rom.read(0x7FFF), (0x7FFF % 251) as u8);
}

#[test]
fn device_builds_and_runs() {
    assert!(matches!(
        Device::new(vec![0u8; 10], None),
        Err(EmulatorError::Cartridge(CartridgeError::InvalidRomSize))
    ));
    let mut bytes = vec![0u8; 0x8000];
    bytes[0x100] = 0xDD;
    let mut d = Device::new(bytes, Some("state".to_string())).unwrap();
    assert_eq!(d.ppu_data().len(), 160 * 144);
    assert!(matches!(d.do_cycle(), Err(EmulatorError::Cpu(_))));
    let mut d = Device::new(vec![0u8; 0x8000], None).unwrap();
    assert_eq!(d.do_cycle().unwrap(), 4);
}

#[test]
fn small_memories() {
    let mut h = Hram::new();
    h.wb(0xFFFE, 9);
    assert_eq!(h.rb(0xFFFE), 9);
    let mut w = Wram::new();
    w.wb(0xC000, 3);
    assert_eq!(w.rb(0xE000), 3);
    let g = Gpu::new();
    assert_eq!(g.read(0x209F), 0);
}

#[test]
fn timer_ticks_add_up() {
    for tac in [0x00u8, 0x04, 0x05, 0x06, 0x07] {
        for (x, y) in [(3u32, 13u32), (100, 1000), (255, 1), (2000, 48)] {
            let mut a = Timer::new();
            a.wb(0xFF07, tac);
            a.wb(0xFF06, 0xF8);
            a.wb(0xFF05, 0xF0);
            let mut b = a;
            a.do_cycle(x);
            a.do_cycle(y);
            b.do_cycle(x + y);
            assert_eq!(a.div, b.div);
            assert_eq!(a.internal_div, b.internal_div);
            assert_eq!(a.tima, b.tima);
            assert_eq!(a.internal_counter, b.internal_counter);
            assert_eq!(a.interrupt, b.interrupt);
        }
    }
}

#[test]
fn device_power_on_state() {
    let d = Device::new(vec![0u8; 0x8000], None).unwrap();
    let cpu = &d.cpu;
    assert_eq!(cpu.regs.af(), 0x01B0);
    assert_eq!(cpu.regs.bc(), 0x0013);
    assert_eq!(cpu.regs.de(), 0x00D8);
    assert_eq!(cpu.regs.hl(), 0x014D);
    assert_eq!(cpu.regs.sp, 0xFFFE);
    assert_eq!(cpu.regs.pc, 0x0100);
    assert!(cpu.ime && !cpu.halted && !cpu.halt_bug);
    assert_eq!((cpu.setdi, cpu.setei), (0, 0));
    assert_eq!((cpu.mmu.inte, cpu.mmu.intf), (0, 0));
}

#[test]
fn ram_writes_read_back() {
    let mut m = mmu();
    for (a, v) in [(0x8123u16, 1u8), (0xA001, 2), (0xC7FF, 3), (0xD800, 4), (0xF000, 5), (0xFE10, 6), (0xFFA0, 7)] {
        m.wb(a, v);
        assert_eq!(m.rb(a), v);
    }
    // A word across the work-RAM / echo boundary.
    m.ww(0xDFFF, 0x1234);
    assert_eq!(m.rw(0xDFFF), 0x1234);
    assert_eq!(m.rb(0xC000), 0x12);
}
