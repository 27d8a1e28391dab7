use rgb::apu::channel1::Channel1;
use rgb::apu::APU;
use rgb::cpu::CPU;
use rgb::cartridge::{Cartridge, CartridgeError, CartridgeKind, MapperKind};
use rgb::gameboy::DMG;
use rgb::input::{Button, Joypad, SELECT_BUTTONS, SELECT_DPAD};
use rgb::memory::{Memory, MemoryBus};
use rgb::mmu::MMU;
use rgb::ppu::PPU;
use rgb::registers::Registers;
use rgb::serial::Serial;
use rgb::timer::{Timer, TIMER_INTERRUPT_BIT};

fn rom_image(title: &str, cartridge_type: u8, rom_size_code: u8, ram_size_code: u8, len: usize) -> Vec<u8> {
    let mut bytes = vec![0; len];
    let title_bytes = title.as_bytes();
    let title_len = title_bytes.len().min(15);
    bytes[0x134..0x134 + title_len].copy_from_slice(&title_bytes[..title_len]);
    bytes[0x147] = cartridge_type;
    bytes[0x148] = rom_size_code;
    bytes[0x149] = ram_size_code;
    bytes
}

#[test]
fn register_pairs_round_trip() {
    let mut r = Registers::new();
    r.set_bc(0x1234);
    assert_eq!(r.get_bc(), 0x1234);
    assert_eq!((r.b, r.c), (0x12, 0x34));
    r.set_de(0xBEEF);
    assert_eq!(r.get_de(), 0xBEEF);
    r.set_hl(0x8001);
    assert_eq!(r.get_hl(), 0x8001);
    r.set_af(0x12FF);
    assert_eq!(r.get_af(), 0x12F0);
}

#[test]
fn joypad_press_then_release_restores_the_read_value() {
    let mut pad = Joypad::new();
    pad.write_select(SELECT_BUTTONS);
    let before = pad.read();
    pad.press(Button::Right);
    assert_eq!(pad.read() & 0x01, 0x00);
    pad.release(Button::Right);
    assert_eq!(pad.read(), before);
}

#[test]
fn joypad_reads_only_the_selected_row() {
    let mut pad = Joypad::new();
    pad.write_select(SELECT_DPAD);
    pad.press(Button::Right);
    assert_eq!(pad.read() & 0x0F, 0x0F);
    pad.press(Button::A);
    assert_eq!(pad.read() & 0x01, 0x00);
}

#[test]
fn timer_overflow_reloads_tma_and_interrupts_two_cycles_later() {
    let mut t = Timer::new();
    t.tma = 0x42;
    t.write_tac(0x05);
    t.write_tima(0xFF);
    let mut flag: u8 = 0;
    let mut guard = 0;
    while !t.tima_overflow_pending {
        t.step_m_cycle(&mut flag);
        guard += 1;
        assert!(guard < 100);
    }
    assert_eq!(flag & TIMER_INTERRUPT_BIT, 0);
    t.step_m_cycle(&mut flag);
    assert!(t.tima_reload_pending);
    assert_eq!(flag & TIMER_INTERRUPT_BIT, 0);
    assert_eq!(t.read_tima(), 0x42);
    t.step_m_cycle(&mut flag);
    assert_eq!(flag & TIMER_INTERRUPT_BIT, TIMER_INTERRUPT_BIT);
    assert!(t.tima == 0x42 || t.tima == 0x43);
}

#[test]
fn timer_divider_advances_every_64_machine_cycles() {
    let mut t = Timer::new();
    let start = t.system_counter;
    let mut flag: u8 = 0;
    for _ in 0..64 {
        t.step_m_cycle(&mut flag);
    }
    assert_eq!(t.system_counter, start.wrapping_add(256));
    t.reset_divider();
    assert_eq!(t.div(), 0);
}

#[test]
fn serial_transfer_appends_the_data_byte() {
    let mut s = Serial::new();
    assert!(s.is_empty());
    s.write_data(b'O');
    assert!(s.write_control(0x81));
    s.write_data(b'K');
    assert!(s.write_control(0x81));
    assert_eq!(s.output_bytes(), b"OK");
    assert_eq!(s.len(), 2);
    assert_eq!(s.read_control() & 0x80, 0);
    assert_eq!(s.output_string(), "OK");
    s.write_data(b'!');
    assert!(!s.write_control(0x01));
    assert_eq!(s.len(), 2);
}

#[test]
fn serial_output_string_replaces_invalid_utf8() {
    let mut s = Serial::new();
    for byte in [b'a', 0xFF, b'b'] {
        s.write_data(byte);
        s.write_control(0x81);
    }
    assert_eq!(s.output_string(), "a\u{FFFD}b");
}

#[test]
fn cartridge_header_is_decoded() {
    let rom = rom_image("POKEMON  ", 0x13, 0x01, 0x03, 0x10000);
    let cart = CartridgeKind::from_bytes(rom).expect("valid MBC3 header");
    let info = cart.info();
    assert_eq!(info.title, "POKEMON");
    assert_eq!(info.mapper, MapperKind::Mbc3);
    assert_eq!(info.rom_banks, 4);
    assert_eq!(info.rom_size, 0x10000);
    assert_eq!(info.ram_banks, 4);
    assert_eq!(info.ram_size, 0x8000);
    assert!(info.battery);
}

#[test]
fn cartridge_errors_come_from_the_header() {
    assert!(matches!(
        CartridgeKind::from_bytes(vec![0; 0x100]),
        Err(CartridgeError::RomTooSmall(0x100))
    ));
    assert!(matches!(
        CartridgeKind::from_bytes(rom_image("X", 0x22, 0x00, 0x00, 0x8000)),
        Err(CartridgeError::UnsupportedCartridgeType(0x22))
    ));
    assert!(matches!(
        CartridgeKind::from_bytes(rom_image("X", 0x00, 0x09, 0x00, 0x8000)),
        Err(CartridgeError::UnsupportedRomSizeCode(0x09))
    ));
    assert!(matches!(
        CartridgeKind::from_bytes(rom_image("X", 0x00, 0x00, 0x06, 0x8000)),
        Err(CartridgeError::UnsupportedRamSizeCode(0x06))
    ));
    assert!(matches!(
        CartridgeKind::from_bytes(rom_image("X", 0x01, 0x01, 0x00, 0x8000)),
        Err(CartridgeError::RomTooSmall(0x8000))
    ));
}

#[test]
fn mbc1_ram_reads_back_only_while_enabled() {
    let rom = rom_image("RAM", 0x03, 0x00, 0x02, 0x8000);
    let mut cart = CartridgeKind::from_bytes(rom).expect("valid MBC1 header");
    cart.write_byte(0xA010, 0x77);
    assert_eq!(cart.read_byte(0xA010), 0xFF);
    cart.write_byte(0x0000, 0x0A);
    cart.write_byte(0xA010, 0x77);
    assert_eq!(cart.read_byte(0xA010), 0x77);
    cart.write_byte(0x0000, 0x00);
    assert_eq!(cart.read_byte(0xA010), 0xFF);
    let saved = cart.save_data().expect("battery RAM").to_vec();
    assert_eq!(saved.len(), 0x2000);
    assert_eq!(saved[0x10], 0x77);
}

#[test]
fn mbc1_switches_the_upper_rom_window() {
    let mut rom = rom_image("BANKS", 0x01, 0x01, 0x00, 0x10000);
    rom[2 * 0x4000] = 0x22;
    rom[3 * 0x4000 + 5] = 0x33;
    let mut cart = CartridgeKind::from_bytes(rom).expect("valid MBC1 header");
    assert_eq!(cart.peek_byte(0x0147), 0x01);
    cart.write_byte(0x2000, 0x02);
    assert_eq!(cart.read_byte(0x4000), 0x22);
    cart.write_byte(0x2000, 0x03);
    assert_eq!(cart.read_byte(0x4005), 0x33);
    cart.write_byte(0x2000, 0x00);
    assert_eq!(cart.read_byte(0x4000), cart.peek_byte(0x4000));
}

#[test]
fn mbc5_selects_banks_above_255_with_the_ninth_bit() {
    let mut rom = rom_image("BIG", 0x19, 0x08, 0x00, 0x80_0000);
    rom[0] = 0x10;
    rom[256 * 0x4000] = 0x5A;
    rom[0x4000] = 0x11;
    let mut cart = CartridgeKind::from_bytes(rom).expect("valid MBC5 header");
    // Bank 0 is a valid selection for the upper window, and the power-on one.
    assert_eq!(cart.read_byte(0x4000), 0x10);
    cart.write_byte(0x2000, 0x01);
    assert_eq!(cart.read_byte(0x4000), 0x11);
    cart.write_byte(0x2000, 0x00);
    cart.write_byte(0x3000, 0x01);
    assert_eq!(cart.read_byte(0x4000), 0x5A);
}

#[test]
fn battery_ram_is_restored_from_a_save_file() {
    let rom = rom_image("SAVE", 0x03, 0x00, 0x02, 0x8000);
    let mut cart = CartridgeKind::from_bytes(rom).expect("valid header");
    let mut save = vec![0u8; 0x2000];
    save[0] = 0x99;
    cart.load_save_data(&save);
    assert_eq!(cart.save_data().expect("battery RAM"), &save[..]);
    cart.write_byte(0x0000, 0x0A);
    assert_eq!(cart.read_byte(0xA000), 0x99);
    let rom_only = CartridgeKind::from_bytes(rom_image("NOSAVE", 0x00, 0x00, 0x00, 0x8000))
        .expect("valid header");
    assert!(rom_only.save_data().is_none());
}

#[test]
fn work_ram_echo_and_high_ram_read_back() {
    let cart = CartridgeKind::from_bytes(rom_image("MMU", 0x00, 0x00, 0x00, 0x8000)).unwrap();
    let mut mmu = MMU::new(cart, None);
    mmu.write_byte(0xC123, 0x5A);
    assert_eq!(mmu.read_byte(0xE123), 0x5A);
    mmu.write_byte(0xE200, 0xA5);
    assert_eq!(mmu.read_byte(0xC200), 0xA5);
    mmu.write_byte(0xFF90, 0x42);
    assert_eq!(mmu.peek_byte(0xFF90), 0x42);
    mmu.write_byte(0xFFFF, 0x1F);
    assert_eq!(mmu.read_byte(0xFFFF), 0x1F);
    mmu.write_byte(0xFF0F, 0x03);
    assert_eq!(mmu.read_byte(0xFF0F), 0x03);
}

#[test]
fn a_machine_cycle_leaves_ram_alone() {
    let cart = CartridgeKind::from_bytes(rom_image("MMU", 0x00, 0x00, 0x00, 0x8000)).unwrap();
    let mut mmu = MMU::new(cart, None);
    mmu.write_byte(0xC000, 0x11);
    mmu.write_byte(0xFFFE, 0x22);
    for _ in 0..1000 {
        mmu.tick_m_cycle();
    }
    assert_eq!(mmu.peek_byte(0xC000), 0x11);
    assert_eq!(mmu.peek_byte(0xFFFE), 0x22);
}

#[test]
fn vram_reads_back_with_the_lcd_off() {
    let mut ppu = PPU::new();
    ppu.write_byte(0xFF40, 0x00);
    let mut flag: u8 = 0;
    ppu.step(4, &mut flag);
    ppu.write_byte(0x8000, 0x12);
    assert_eq!(ppu.read_byte(0x8000), 0x12);
    ppu.write_byte(0xFE00, 0x34);
    assert_eq!(ppu.read_byte(0xFE00), 0x34);
    assert_eq!(ppu.framebuffer().len(), 160 * 144);
}

#[test]
fn wave_ram_reads_back_while_channel_three_is_off() {
    let mut apu = APU::post_boot();
    apu.write_byte(0xFF26, 0x80);
    apu.write_byte(0xFF30, 0xAB);
    apu.write_byte(0xFF3F, 0xCD);
    assert_eq!(apu.read_byte(0xFF30), 0xAB);
    assert_eq!(apu.read_byte(0xFF3F), 0xCD);
}

#[test]
fn nr52_reports_power_and_reads_unused_bits_high() {
    let mut apu = APU::post_boot();
    assert_eq!(apu.read_byte(0xFF26) & 0xF0, 0x70);
    apu.write_byte(0xFF26, 0x80);
    assert_eq!(apu.read_byte(0xFF26) & 0xF0, 0xF0);
    apu.write_byte(0xFF24, 0x77);
    apu.write_byte(0xFF26, 0x00);
    assert_eq!(apu.read_byte(0xFF24), 0x00);
}

#[test]
fn audio_levels_stay_within_full_scale() {
    let cart = CartridgeKind::from_bytes(rom_image("AUDIO", 0x00, 0x00, 0x00, 0x8000)).unwrap();
    let mut dmg = DMG::new(cart);
    dmg.step_frame();
    let levels = dmg.drain_samples();
    assert!(levels.iter().all(|l| (-480..=480).contains(l)));
    assert!(dmg.drain_samples().is_empty());
}

#[test]
fn a_fresh_dmg_starts_after_the_boot_rom() {
    let cart = CartridgeKind::from_bytes(rom_image("FRESH", 0x00, 0x00, 0x00, 0x8000)).unwrap();
    let mut dmg = DMG::new_post_bios(cart);
    assert_eq!(dmg.cpu_pc(), 0x0100);
    assert!(!dmg.mooneye_pass());
    assert_eq!(dmg.serial_output(), "");
    assert!(dmg.save_data().is_none());
    dmg.press(Button::Start);
    dmg.release(Button::Start);
    dmg.step_frame();
    assert_eq!(dmg.framebuffer().len(), 160 * 144);
    assert_eq!(dmg.peek_byte(0x0134), b'F');
}

#[test]
fn a_boot_rom_starts_at_address_zero_and_shadows_the_cartridge() {
    let cart = CartridgeKind::from_bytes(rom_image("BOOT", 0x00, 0x00, 0x00, 0x8000)).unwrap();
    let dmg = DMG::new_with_boot_rom(cart, vec![0x31; 0x100]);
    assert_eq!(dmg.cpu_pc(), 0x0000);
    assert_eq!(dmg.peek_byte(0x0000), 0x31);
    assert_eq!(dmg.peek_byte(0x0134), b'B');
}

#[test]
fn entering_line_144_requests_the_vblank_interrupt() {
    let mut ppu = PPU::new();
    ppu.write_byte(0xFF40, 0x91);
    let mut flag: u8 = 0;
    let mut steps = 0;
    while ppu.ly != 144 {
        ppu.step(4, &mut flag);
        steps += 1;
        assert!(steps < 100_000);
        if ppu.ly < 144 {
            assert_eq!(flag & 0x01, 0);
        }
    }
    assert_eq!(flag & 0x01, 0x01);
    assert_eq!(ppu.read_byte(0xFF41) & 0x03, 1);
    flag = 0xE0;
    ppu.step(4, &mut flag);
    assert_eq!(flag & 0xE0, 0xE0);
}

#[test]
fn serial_output_keeps_every_byte_past_sixty_four_kib() {
    let mut s = Serial::new();
    let total = 70_000usize;
    for i in 0..total {
        s.write_data((i % 251) as u8);
        assert!(s.write_control(0x81));
    }
    assert_eq!(s.len(), total);
    let bytes = s.output_bytes();
    assert_eq!(bytes.len(), total);
    assert!(bytes.iter().enumerate().all(|(i, b)| *b == (i % 251) as u8));
}

#[test]
fn serial_writes_without_a_transfer_send_nothing() {
    let mut s = Serial::new();
    s.write_data(0x42);
    assert_eq!(s.read_data(), 0x42);
    assert!(!s.write_control(0x80));
    assert_eq!(s.read_control(), 0x80);
    assert!(s.is_empty());
}

/// A cartridge whose code at 0x0100 is `program`, on an MMU whose timer
/// counts TIMA every 16 T-cycles from a freshly reset divider.
fn timed_mmu(program: &[u8]) -> MMU {
    let mut rom = rom_image("TIMING", 0x00, 0x00, 0x00, 0x8000);
    rom[0x100..0x100 + program.len()].copy_from_slice(program);
    let cart = CartridgeKind::from_bytes(rom).expect("valid header");
    let mut mmu = MMU::new(cart, None);
    mmu.write_byte(0xFF07, 0x05);
    mmu.write_byte(0xFF04, 0x00);
    mmu.write_byte(0xFF05, 0x00);
    mmu
}

#[test]
fn a_timer_read_sees_the_machine_cycles_earlier_in_its_instruction() {
    // NOP, NOP, LDH A,(0x05): the read of TIMA comes 4 machine cycles after
    // the divider reset, when TIMA has just counted once.
    let mut mmu = timed_mmu(&[0x00, 0x00, 0xF0, 0x05]);
    let mut cpu = CPU::new();
    assert_eq!(cpu.step(&mut mmu), 4);
    assert_eq!(cpu.step(&mut mmu), 4);
    assert_eq!(mmu.peek_byte(0xFF05), 0x00);
    assert_eq!(cpu.step(&mut mmu), 12);
    assert_eq!(cpu.reg.a, 0x01);
}

#[test]
fn a_timer_write_lands_at_its_machine_cycle() {
    // NOP, NOP, LDH (0x05),A with A = 0x80: TIMA counts once during the
    // operand fetch, and the write that follows overwrites that count.
    let mut mmu = timed_mmu(&[0x00, 0x00, 0xE0, 0x05]);
    let mut cpu = CPU::new();
    cpu.reg.a = 0x80;
    cpu.step(&mut mmu);
    cpu.step(&mut mmu);
    assert_eq!(cpu.step(&mut mmu), 12);
    assert_eq!(mmu.peek_byte(0xFF05), 0x80);
}

#[test]
fn steps_advance_the_hardware_by_their_machine_cycles() {
    // CALL 0x0110 (24), RET (16), then three NOPs (12): 52 T-cycles, and
    // TIMA counts every 16.
    let mut program = vec![0xCD, 0x10, 0x01, 0x00, 0x00, 0x00];
    program.resize(0x10, 0x00);
    program.push(0xC9);
    let mut mmu = timed_mmu(&program);
    let mut cpu = CPU::new();
    cpu.reg.sp = 0xDFFE;
    let mut total = 0u32;
    for _ in 0..5 {
        total += cpu.step(&mut mmu) as u32;
    }
    assert_eq!(total, 52);
    assert_eq!(cpu.reg.pc, 0x0106);
    assert_eq!(mmu.peek_byte(0xFF05), 0x03);
}

#[test]
fn an_interrupt_dispatch_advances_the_hardware_by_five_machine_cycles() {
    let mut mmu = timed_mmu(&[]);
    mmu.write_byte(0xFFFF, 0x04);
    mmu.write_byte(0xFF0F, 0x04);
    let mut cpu = CPU::new();
    cpu.reg.sp = 0xDFFE;
    cpu.ime = true;
    assert_eq!(cpu.service_interrupts(&mut mmu), Some(20));
    assert_eq!(cpu.reg.pc, 0x0050);
    assert_eq!(mmu.peek_byte(0xFF05), 0x01);
    assert_eq!((mmu.peek_byte(0xDFFC), mmu.peek_byte(0xDFFD)), (0x00, 0x01));
}

#[test]
fn only_an_internally_clocked_transfer_is_captured() {
    let mut s = Serial::new();
    s.write_data(0x4F);
    s.write_control(0x81);
    s.write_data(0x4B);
    s.write_control(0x80);
    assert_eq!(s.output_string(), "O");
    assert_eq!(s.len(), 1);
    assert!(!s.is_empty());
}

#[test]
fn mbc3_and_mbc5_ram_reads_back_only_while_enabled() {
    // MBC3+RAM+BATTERY and MBC5+RAM+BATTERY, 32 KiB of RAM in 4 banks.
    for cartridge_type in [0x13u8, 0x1B] {
        let rom = rom_image("RAM", cartridge_type, 0x01, 0x03, 0x10000);
        let mut cart = CartridgeKind::from_bytes(rom).expect("valid header");
        cart.write_byte(0xA123, 0x44);
        assert_eq!(cart.read_byte(0xA123), 0xFF);
        cart.write_byte(0x0000, 0x0A);
        cart.write_byte(0x4000, 0x02);
        cart.write_byte(0xA123, 0x44);
        assert_eq!(cart.read_byte(0xA123), 0x44);
        cart.write_byte(0x4000, 0x01);
        assert_eq!(cart.read_byte(0xA123), 0x00);
        cart.write_byte(0x4000, 0x02);
        assert_eq!(cart.read_byte(0xA123), 0x44);
        cart.write_byte(0x0000, 0x00);
        assert_eq!(cart.read_byte(0xA123), 0xFF);
        assert_eq!(cart.save_data().expect("battery RAM")[2 * 0x2000 + 0x123], 0x44);
    }
}

#[test]
fn mbc1_shows_bank_zero_at_the_bottom_in_rom_mode() {
    let mut rom = rom_image("BANK0", 0x01, 0x01, 0x00, 0x10000);
    rom[0x0005] = 0x5E;
    rom[0x4005] = 0x6F;
    let mut cart = CartridgeKind::from_bytes(rom).expect("valid MBC1 header");
    cart.write_byte(0x2000, 0x02);
    assert_eq!(cart.read_byte(0x0005), 0x5E);
    cart.write_byte(0x2000, 0x01);
    assert_eq!(cart.read_byte(0x0005), 0x5E);
    assert_eq!(cart.read_byte(0x4005), 0x6F);
}

#[test]
fn powering_the_apu_off_clears_the_channel_registers() {
    let mut apu = APU::post_boot();
    apu.write_byte(0xFF26, 0x80);
    apu.write_byte(0xFF10, 0x7F);
    apu.write_byte(0xFF12, 0xF3);
    apu.write_byte(0xFF14, 0x80);
    apu.write_byte(0xFF26, 0x00);
    assert_eq!(apu.read_byte(0xFF26), 0x70);
    assert_eq!(apu.read_byte(0xFF10), 0x80);
    assert_eq!(apu.read_byte(0xFF12), 0x00);
    assert_eq!(apu.read_byte(0xFF14), 0xBF);
}

#[test]
fn channel1_registers_read_back_less_their_write_only_bits() {
    for value in [0x00u8, 0x5A, 0xA5, 0xFF] {
        let mut c = Channel1::new();
        c.write(0xFF10, value);
        assert_eq!(c.read(0xFF10), value & 0x7F);
        c.write(0xFF11, value);
        assert_eq!(c.read(0xFF11), value & 0xC0);
        c.write(0xFF12, value);
        assert_eq!(c.read(0xFF12), value);
        c.write(0xFF13, value);
        assert_eq!(c.read(0xFF13), 0);
        c.write(0xFF14, value);
        assert_eq!(c.read(0xFF14), value & 0x40);
    }
}

/// A cartridge that sends 'X' over the serial port in a tight loop.
fn serial_loop_dmg() -> DMG {
    let mut rom = rom_image("LOOP", 0x00, 0x00, 0x00, 0x8000);
    rom[0x100..0x10A].copy_from_slice(&[0x3E, 0x58, 0xE0, 0x01, 0x3E, 0x81, 0xE0, 0x02, 0x18, 0xF6]);
    DMG::new_post_bios(CartridgeKind::from_bytes(rom).expect("valid header"))
}

#[test]
fn run_until_stops_after_the_first_frame_where_the_condition_holds() {
    let mut reference = serial_loop_dmg();
    let mut frame_lengths = Vec::new();
    for _ in 0..4 {
        reference.step_frame();
        frame_lengths.push(reference.serial().len());
    }
    assert!(frame_lengths[0] > 0);

    // Holds already at the start: one frame still runs.
    let mut dmg = serial_loop_dmg();
    dmg.run_until(|_| true, 4);
    assert_eq!(dmg.serial().len(), frame_lengths[0]);

    // First holds after the second frame.
    let mut dmg = serial_loop_dmg();
    let threshold = frame_lengths[0] + 1;
    dmg.run_until(|s: &Serial| s.len() >= threshold, 4);
    assert_eq!(dmg.serial().len(), frame_lengths[1]);

    // Never holds: every allowed frame runs.
    let mut dmg = serial_loop_dmg();
    dmg.run_until(|_| false, 4);
    assert_eq!(dmg.serial().len(), frame_lengths[3]);
}

#[test]
fn vram_and_oam_are_locked_by_the_position_on_the_line() {
    let mut ppu = PPU::new();
    let mut flag: u8 = 0;
    ppu.write_byte(0xFF40, 0x91);
    ppu.step(300, &mut flag);
    ppu.write_byte(0x8000, 0x12);
    ppu.write_byte(0xFE00, 0x34);
    ppu.step(256, &mut flag);
    assert_eq!(ppu.read_byte(0xFF44), 1);
    assert_eq!(ppu.read_byte(0x8000), 0xFF);
    assert_eq!(ppu.read_byte(0xFE00), 0xFF);
    ppu.step(200, &mut flag);
    assert_eq!(ppu.read_byte(0x8000), 0x12);
    assert_eq!(ppu.read_byte(0xFE00), 0x34);
    ppu.step(166, &mut flag);
    assert_eq!(ppu.read_byte(0x8000), 0x12);
    assert_eq!(ppu.read_byte(0xFE00), 0xFF);
}

#[test]
fn mbc3_maps_rom_banks_and_reads_clock_registers_as_ff() {
    let mut rom = rom_image("CLOCK", 0x13, 0x01, 0x03, 0x10000);
    rom[0x0007] = 0x07;
    rom[0x4007] = 0x17;
    rom[3 * 0x4000 + 7] = 0x37;
    let mut cart = CartridgeKind::from_bytes(rom).expect("valid MBC3 header");
    assert_eq!(cart.read_byte(0x4007), 0x17);
    cart.write_byte(0x2000, 0x03);
    assert_eq!(cart.read_byte(0x4007), 0x37);
    assert_eq!(cart.read_byte(0x0007), 0x07);
    cart.write_byte(0x2000, 0x00);
    assert_eq!(cart.read_byte(0x4007), 0x17);
    cart.write_byte(0x0000, 0x0A);
    cart.write_byte(0x4000, 0x00);
    cart.write_byte(0xA000, 0x42);
    assert_eq!(cart.read_byte(0xA000), 0x42);
    cart.write_byte(0x4000, 0x08);
    assert_eq!(cart.read_byte(0xA000), 0xFF);
    cart.write_byte(0xA000, 0x99);
    cart.write_byte(0x4000, 0x00);
    assert_eq!(cart.read_byte(0xA000), 0x42);
}
