use rgb::cpu::{HaltState, CPU};
use rgb::memory::{Clocked, FlatMemory, Memory};
use rgb::registers::Flag::ZERO;

#[test]
fn jr_nz_cycle_count() {
    let mut bus = FlatMemory::new(&[0x20, 0x02]);
    let mut cpu = CPU::new();
    cpu.reg.pc = 0x0000;
    cpu.reg.set_flag(ZERO, false);

    let cycles_taken = cpu.step(&mut bus);
    assert_eq!(cycles_taken, 12);
    assert_eq!(cpu.reg.pc, 0x0004);

    let mut bus = FlatMemory::new(&[0x20, 0x02]);
    let mut cpu = CPU::new();
    cpu.reg.pc = 0x0000;
    cpu.reg.set_flag(ZERO, true);

    let cycles_not_taken = cpu.step(&mut bus);
    assert_eq!(cycles_not_taken, 8);
    assert_eq!(cpu.reg.pc, 0x0002);
}

#[test]
fn ret_nz_cycle_count() {
    let mut bus = FlatMemory::new(&[0xC0]);
    bus.load(0xFFFC, &[0x34, 0x12]);

    let mut cpu = CPU::new();
    cpu.reg.pc = 0x0000;
    cpu.reg.sp = 0xFFFC;
    cpu.reg.set_flag(ZERO, false);

    let cycles_taken = cpu.step(&mut bus);
    assert_eq!(cycles_taken, 20);
    assert_eq!(cpu.reg.pc, 0x1234);
    assert_eq!(cpu.reg.sp, 0xFFFE);

    let mut bus = FlatMemory::new(&[0xC0]);
    let mut cpu = CPU::new();
    cpu.reg.pc = 0x0000;
    cpu.reg.set_flag(ZERO, true);

    let cycles_not_taken = cpu.step(&mut bus);
    assert_eq!(cycles_not_taken, 8);
    assert_eq!(cpu.reg.pc, 0x0001);
}

#[test]
fn cb_prefixed_cycles() {
    let mut bus = FlatMemory::new(&[0xCB, 0x11]); // RL C
    let mut cpu = CPU::new();
    cpu.reg.pc = 0;
    let cycles = cpu.step(&mut bus);
    assert_eq!(cycles, 8);

    let mut bus = FlatMemory::new(&[0xCB, 0x16]); // RL (HL)
    bus.load(0xC000, &[0x01]);
    let mut cpu = CPU::new();
    cpu.reg.pc = 0;
    cpu.reg.set_hl(0xC000);
    let cycles = cpu.step(&mut bus);
    assert_eq!(cycles, 16);
}

#[test]
fn servicing_interrupt_returns_cycles() {
    let mut bus = FlatMemory::new(&[]);
    bus.bytes[0xFFFF] = 0x01; // IE
    bus.bytes[0xFF0F] = 0x01; // IF

    let mut cpu = CPU::new();
    cpu.ime = true;
    cpu.reg.pc = 0x0100;
    cpu.reg.sp = 0xFFFE;

    let cycles = cpu.service_interrupts(&mut bus);
    assert_eq!(cycles, Some(20));
    assert_eq!(cpu.reg.pc, 0x0040);
    assert_eq!(cpu.reg.sp, 0xFFFC);
    assert_eq!(bus.bytes[0xFF0F], 0x00);
    assert!(!cpu.ime);
}

#[test]
fn push_then_pop_copies_a_register_pair() {
    let mut bus = FlatMemory::new(&[0xC5, 0xD1]); // PUSH BC; POP DE
    let mut cpu = CPU::new();
    cpu.reg.pc = 0x0000;
    cpu.reg.sp = 0xD000;
    cpu.reg.set_bc(0xBEEF);
    cpu.reg.set_de(0x0000);
    assert_eq!(cpu.step(&mut bus), 16);
    assert_eq!(cpu.reg.sp, 0xCFFE);
    assert_eq!(cpu.step(&mut bus), 12);
    assert_eq!(cpu.reg.get_de(), 0xBEEF);
    assert_eq!(cpu.reg.sp, 0xD000);
    assert_eq!(cpu.reg.pc, 0x0002);
}

#[test]
fn interrupt_then_reti_returns_to_the_interrupted_instruction() {
    let mut bus = FlatMemory::new(&[]);
    bus.bytes[0x0050] = 0xD9; // RETI at the timer vector
    bus.bytes[0xFFFF] = 0x04;
    bus.bytes[0xFF0F] = 0x04;
    let mut cpu = CPU::new();
    cpu.ime = true;
    cpu.reg.pc = 0x1234;
    cpu.reg.sp = 0xDFF0;
    assert_eq!(cpu.service_interrupts(&mut bus), Some(20));
    assert_eq!(cpu.reg.pc, 0x0050);
    assert!(!cpu.ime);
    assert_eq!(bus.bytes[0xFF0F], 0x00);
    assert_eq!(cpu.step(&mut bus), 16);
    assert_eq!(cpu.reg.pc, 0x1234);
    assert_eq!(cpu.reg.sp, 0xDFF0);
    assert!(cpu.ime);
}

#[test]
fn daa_turns_binary_sums_into_decimal_sums() {
    let mut cpu = CPU::new();
    cpu.reg.a = 0x19;
    cpu.add(0x28);
    cpu.daa();
    assert_eq!(cpu.reg.a, 0x47);
    assert!(!cpu.reg.carry);

    cpu.reg.a = 0x99;
    cpu.add(0x01);
    cpu.daa();
    assert_eq!(cpu.reg.a, 0x00);
    assert!(cpu.reg.carry);
    assert!(cpu.reg.zero);
}

#[test]
fn daa_turns_binary_differences_into_decimal_differences() {
    let mut bus = FlatMemory::new(&[0x90, 0x27, 0x90, 0x27]); // SUB B; DAA; SUB B; DAA
    let mut cpu = CPU::new();
    cpu.reg.pc = 0;
    cpu.reg.a = 0x10;
    cpu.reg.b = 0x01;
    cpu.step(&mut bus);
    cpu.step(&mut bus);
    assert_eq!(cpu.reg.a, 0x09);
    assert!(!cpu.reg.carry);
    cpu.reg.a = 0x00;
    cpu.step(&mut bus);
    cpu.step(&mut bus);
    assert_eq!(cpu.reg.a, 0x99);
    assert!(cpu.reg.carry);
}

#[test]
fn undocumented_opcodes_act_as_nops() {
    for opcode in [0xD3u8, 0xDB, 0xDD, 0xE3, 0xE4, 0xEB, 0xEC, 0xED, 0xF4, 0xFC, 0xFD] {
        let mut bus = FlatMemory::new(&[opcode]);
        let mut cpu = CPU::new();
        cpu.reg.pc = 0;
        let before = cpu.reg;
        assert_eq!(cpu.step(&mut bus), 4);
        assert_eq!(cpu.reg.pc, 0x0001);
        assert_eq!((cpu.reg.a, cpu.reg.b, cpu.reg.c, cpu.reg.sp), (before.a, before.b, before.c, before.sp));
    }
}

#[test]
fn a_clocked_bus_counts_one_machine_cycle_per_access() {
    let mut bus = Clocked { bus: FlatMemory::new(&[0x12, 0x34]), cycles: 0 };
    assert_eq!(bus.read_byte(0x0001), 0x34);
    bus.write_byte(0x0002, 0x56);
    assert_eq!(bus.read_word(0x0001), 0x5634);
    assert_eq!(bus.cycles, 4);
    assert_eq!(bus.bus.bytes[2], 0x56);
}

#[test]
fn bits_five_to_seven_of_ie_and_if_never_interrupt() {
    let mut bus = FlatMemory::new(&[0x00]);
    bus.load(0xFF0F, &[0x20]);
    bus.load(0xFFFF, &[0x20]);
    let mut cpu = CPU::new();
    cpu.reg.pc = 0x1234;
    cpu.ime = true;
    let before = cpu.reg;
    assert_eq!(cpu.service_interrupts(&mut bus), None);
    assert!(cpu.ime);
    assert_eq!(cpu.reg, before);
    assert_eq!(bus.bytes[0xFF0F], 0x20);

    let mut bus = FlatMemory::new(&[0x00]);
    bus.load(0xFF0F, &[0xE0]);
    bus.load(0xFFFF, &[0xE0]);
    let mut cpu = CPU::new();
    cpu.reg.pc = 0;
    cpu.halt_state = HaltState::Halted;
    assert_eq!(cpu.step(&mut bus), 4);
    assert_eq!(cpu.halt_state, HaltState::Halted);
    assert_eq!(cpu.reg.pc, 0);
}
