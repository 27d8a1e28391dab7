//! What one CPU step does, as a function of the CPU state and the bus.
//!
//! Each spec function threads the bus through the accesses in the order the
//! hardware makes them: operand fetches and memory reads first, then writes.
//! The result is the CPU state after the instruction, the bus after its
//! accesses, and whether a conditional branch was taken.  `step_spec` runs
//! them on a [`Clocked`] bus, so that the clocked hardware advances one
//! machine cycle after every access.
use crate::cpu::{HaltState, CPU};
use crate::isa::{
    add_hl16, alu, bit_reset, bit_set, bit_test, cond_met, daa_spec, dec8, hi, inc8, jr_target,
    lemma_pair_hi_lo, lo, r16, r16_stack, r8, set_r16, set_r16_stack, set_r8, shift_op, sp_plus,
};
use crate::memory::{clocked, delay_cycles, settled, ticked_n, Clocked, FlatMemory, Memory, MemoryBus};
use crate::opcode::{cb_cost, lemma_main_cost_at_least_four, main_cost};
use crate::registers::{pair, Registers};
use vstd::prelude::*;

verus! {

pub open spec fn with_reg(s: CPU, r: Registers) -> CPU {
    CPU { reg: r, ..s }
}

pub open spec fn with_pc(r: Registers, pc: u16) -> Registers {
    Registers { pc, ..r }
}

/// The byte at PC and the bus after reading it.
pub open spec fn imm8<B: Memory>(r: Registers, bus: B) -> (u8, B) {
    (bus.peek(r.pc), bus.read_effect(r.pc))
}

/// The little-endian word at PC and the bus after reading both bytes.
pub open spec fn imm16<B: Memory>(r: Registers, bus: B) -> (u16, B) {
    let lo_byte = bus.peek(r.pc);
    let b1 = bus.read_effect(r.pc);
    let p1 = r.pc.wrapping_add(1);
    (pair(b1.peek(p1), lo_byte), b1.read_effect(p1))
}

/// Bus after pushing `value` with SP already decremented to `sp`.
pub open spec fn pushed<B: Memory>(bus: B, sp: u16, value: u16) -> B {
    bus.poke(sp, lo(value)).poke(sp.wrapping_add(1), hi(value))
}

/// The word at SP and the bus after reading it.
pub open spec fn popped<B: Memory>(r: Registers, bus: B) -> (u16, B) {
    let lo_byte = bus.peek(r.sp);
    let b1 = bus.read_effect(r.sp);
    let p1 = r.sp.wrapping_add(1);
    (pair(b1.peek(p1), lo_byte), b1.read_effect(p1))
}

/// Opcodes 0x00..=0x3F.
pub open spec fn exec_block0<B: Memory>(s: CPU, op: u8, bus: B) -> (CPU, B, bool) {
    let r = s.reg;
    let (n8, bus8) = imm8(r, bus);
    let r1 = with_pc(r, r.pc.wrapping_add(1));
    let (n16, bus16) = imm16(r, bus);
    let r2 = with_pc(r, r.pc.wrapping_add(2));
    let hl = r.hl();
    let y = (op / 8) as int;
    let q = (op / 16) as int;
    if op % 8 == 4 {
        if y == 6 {
            let (res, rf) = inc8(r, bus.peek(hl));
            (with_reg(s, rf), bus.read_effect(hl).poke(hl, res), false)
        } else {
            let (res, rf) = inc8(r, r8(r, y));
            (with_reg(s, set_r8(rf, y, res)), bus, false)
        }
    } else if op % 8 == 5 {
        if y == 6 {
            let (res, rf) = dec8(r, bus.peek(hl));
            (with_reg(s, rf), bus.read_effect(hl).poke(hl, res), false)
        } else {
            let (res, rf) = dec8(r, r8(r, y));
            (with_reg(s, set_r8(rf, y, res)), bus, false)
        }
    } else if op % 8 == 6 {
        if y == 6 {
            (with_reg(s, r1), bus8.poke(hl, n8), false)
        } else {
            (with_reg(s, set_r8(r1, y, n8)), bus8, false)
        }
    } else if op % 16 == 1 {
        (with_reg(s, set_r16(r2, q, n16)), bus16, false)
    } else if op % 16 == 3 {
        (with_reg(s, set_r16(r, q, r16(r, q).wrapping_add(1))), bus, false)
    } else if op % 16 == 11 {
        (with_reg(s, set_r16(r, q, r16(r, q).wrapping_sub(1))), bus, false)
    } else if op % 16 == 9 {
        (with_reg(s, add_hl16(r, r16(r, q))), bus, false)
    } else if op % 16 == 2 {
        // LD (BC),A / LD (DE),A / LD (HL+),A / LD (HL-),A
        if q == 0 {
            (s, bus.poke(r.bc(), r.a), false)
        } else if q == 1 {
            (s, bus.poke(r.de(), r.a), false)
        } else if q == 2 {
            (with_reg(s, r.with_hl(hl.wrapping_add(1))), bus.poke(hl, r.a), false)
        } else {
            (with_reg(s, r.with_hl(hl.wrapping_sub(1))), bus.poke(hl, r.a), false)
        }
    } else if op % 16 == 10 {
        // LD A,(BC) / LD A,(DE) / LD A,(HL+) / LD A,(HL-)
        if q == 0 {
            (with_reg(s, Registers { a: bus.peek(r.bc()), ..r }), bus.read_effect(r.bc()), false)
        } else if q == 1 {
            (with_reg(s, Registers { a: bus.peek(r.de()), ..r }), bus.read_effect(r.de()), false)
        } else if q == 2 {
            (
                with_reg(s, Registers { a: bus.peek(hl), ..r.with_hl(hl.wrapping_add(1)) }),
                bus.read_effect(hl),
                false,
            )
        } else {
            (
                with_reg(s, Registers { a: bus.peek(hl), ..r.with_hl(hl.wrapping_sub(1)) }),
                bus.read_effect(hl),
                false,
            )
        }
    } else if op == 0x07 || op == 0x0F || op == 0x17 || op == 0x1F {
        // RLCA / RRCA / RLA / RRA: like the CB forms on A, but Z is always cleared
        let (res, rf) = shift_op(r, y, r.a);
        (with_reg(s, Registers { a: res, zero: false, ..rf }), bus, false)
    } else if op == 0x08 {
        (with_reg(s, r2), bus16.poke(n16, lo(r.sp)).poke(n16.wrapping_add(1), hi(r.sp)), false)
    } else if op == 0x10 {
        (with_reg(s, r1), bus, false)
    } else if op == 0x18 {
        (with_reg(s, with_pc(r, jr_target(r1.pc, n8))), bus8, false)
    } else if op == 0x20 || op == 0x28 || op == 0x30 || op == 0x38 {
        if cond_met(r, y - 4) {
            (with_reg(s, with_pc(r, jr_target(r1.pc, n8))), bus8, true)
        } else {
            (with_reg(s, r1), bus8, false)
        }
    } else if op == 0x27 {
        (with_reg(s, daa_spec(r)), bus, false)
    } else if op == 0x2F {
        (with_reg(s, Registers { a: !r.a, subtract: true, half_carry: true, ..r }), bus, false)
    } else if op == 0x37 {
        (with_reg(s, Registers { subtract: false, half_carry: false, carry: true, ..r }), bus, false)
    } else if op == 0x3F {
        (
            with_reg(s, Registers { subtract: false, half_carry: false, carry: !r.carry, ..r }),
            bus,
            false,
        )
    } else {
        // 0x00: NOP
        (s, bus, false)
    }
}

/// Opcodes 0x40..=0x7F: LD r8,r8 (and HALT at 0x76).
pub open spec fn exec_load_block<B: Memory>(s: CPU, op: u8, bus: B) -> (CPU, B, bool) {
    let r = s.reg;
    let hl = r.hl();
    let dst = ((op - 0x40) / 8) as int;
    let src = (op % 8) as int;
    if op == 0x76 {
        (CPU { halt_state: HaltState::Halted, ..s }, bus, false)
    } else if src == 6 {
        (with_reg(s, set_r8(r, dst, bus.peek(hl))), bus.read_effect(hl), false)
    } else if dst == 6 {
        (s, bus.poke(hl, r8(r, src)), false)
    } else {
        (with_reg(s, set_r8(r, dst, r8(r, src))), bus, false)
    }
}

/// Opcodes 0x80..=0xBF: the ALU on A with an r8 or (HL) operand.
pub open spec fn exec_alu_block<B: Memory>(s: CPU, op: u8, bus: B) -> (CPU, B, bool) {
    let r = s.reg;
    let hl = r.hl();
    let kind = ((op - 0x80) / 8) as int;
    let src = (op % 8) as int;
    if src == 6 {
        (with_reg(s, alu(r, kind, bus.peek(hl))), bus.read_effect(hl), false)
    } else {
        (with_reg(s, alu(r, kind, r8(r, src))), bus, false)
    }
}

/// Opcodes 0xC0..=0xFF except the 0xCB prefix.
pub open spec fn exec_block3<B: Memory>(s: CPU, op: u8, bus: B) -> (CPU, B, bool) {
    let r = s.reg;
    let (n8, bus8) = imm8(r, bus);
    let r1 = with_pc(r, r.pc.wrapping_add(1));
    let (n16, bus16) = imm16(r, bus);
    let r2 = with_pc(r, r.pc.wrapping_add(2));
    let sp2 = r.sp.wrapping_sub(2);
    let (top, bus_pop) = popped(r, bus);
    let r_pop = Registers { sp: r.sp.wrapping_add(2), ..r };
    let cc = ((op - 0xC0) / 8 % 4) as int;
    let q = ((op - 0xC0) / 16) as int;
    if op % 8 == 6 {
        // ALU A, n8
        (with_reg(s, alu(r1, ((op - 0xC0) / 8) as int, n8)), bus8, false)
    } else if op % 8 == 7 {
        // RST n: push PC, jump to the fixed vector
        (
            with_reg(s, Registers { sp: sp2, pc: (op - 0xC7) as u16, ..r }),
            pushed(bus, sp2, r.pc),
            false,
        )
    } else if op % 16 == 1 {
        // POP BC / DE / HL / AF
        (with_reg(s, set_r16_stack(r_pop, q, top)), bus_pop, false)
    } else if op % 16 == 5 {
        // PUSH BC / DE / HL / AF
        (with_reg(s, Registers { sp: sp2, ..r }), pushed(bus, sp2, r16_stack(r, q)), false)
    } else if op == 0xC0 || op == 0xC8 || op == 0xD0 || op == 0xD8 {
        if cond_met(r, cc) {
            (with_reg(s, with_pc(r_pop, top)), bus_pop, true)
        } else {
            (s, bus, false)
        }
    } else if op == 0xC2 || op == 0xCA || op == 0xD2 || op == 0xDA {
        if cond_met(r, cc) {
            (with_reg(s, with_pc(r, n16)), bus16, true)
        } else {
            (with_reg(s, r2), bus16, false)
        }
    } else if op == 0xC4 || op == 0xCC || op == 0xD4 || op == 0xDC {
        if cond_met(r, cc) {
            (
                with_reg(s, Registers { sp: sp2, pc: n16, ..r }),
                pushed(bus16, sp2, r2.pc),
                true,
            )
        } else {
            (with_reg(s, r2), bus16, false)
        }
    } else if op == 0xC9 {
        (with_reg(s, with_pc(r_pop, top)), bus_pop, false)
    } else if op == 0xD9 {
        (
            CPU { reg: with_pc(r_pop, top), ime: true, ime_scheduled: None, ..s },
            bus_pop,
            false,
        )
    } else if op == 0xC3 {
        (with_reg(s, with_pc(r, n16)), bus16, false)
    } else if op == 0xE9 {
        (with_reg(s, with_pc(r, r.hl())), bus, false)
    } else if op == 0xCD {
        (with_reg(s, Registers { sp: sp2, pc: n16, ..r }), pushed(bus16, sp2, r2.pc), false)
    } else if op == 0xE0 {
        (with_reg(s, r1), bus8.poke((0xFF00 + n8) as u16, r.a), false)
    } else if op == 0xE2 {
        (s, bus.poke((0xFF00 + r.c) as u16, r.a), false)
    } else if op == 0xEA {
        (with_reg(s, r2), bus16.poke(n16, r.a), false)
    } else if op == 0xF0 {
        let addr = (0xFF00 + n8) as u16;
        (with_reg(s, Registers { a: bus8.peek(addr), ..r1 }), bus8.read_effect(addr), false)
    } else if op == 0xF2 {
        let addr = (0xFF00 + r.c) as u16;
        (with_reg(s, Registers { a: bus.peek(addr), ..r }), bus.read_effect(addr), false)
    } else if op == 0xFA {
        (with_reg(s, Registers { a: bus16.peek(n16), ..r2 }), bus16.read_effect(n16), false)
    } else if op == 0xE8 {
        let (sum, rf) = sp_plus(r1, n8);
        (with_reg(s, Registers { sp: sum, ..rf }), bus8, false)
    } else if op == 0xF8 {
        let (sum, rf) = sp_plus(r1, n8);
        (with_reg(s, rf.with_hl(sum)), bus8, false)
    } else if op == 0xF9 {
        (with_reg(s, Registers { sp: r.hl(), ..r }), bus, false)
    } else if op == 0xF3 {
        (CPU { ime: false, ime_scheduled: None, ..s }, bus, false)
    } else if op == 0xFB {
        (CPU { ime_scheduled: Some(1u8), ..s }, bus, false)
    } else {
        // undocumented opcodes act as NOPs
        (s, bus, false)
    }
}

/// A CB-prefixed opcode `cb` (PC already past it).
pub open spec fn exec_cb<B: Memory>(s: CPU, cb: u8, bus: B) -> (CPU, B) {
    let r = s.reg;
    let hl = r.hl();
    let t = (cb % 8) as int;
    let group = (cb / 8) as int;
    let v = if t == 6 {
        bus.peek(hl)
    } else {
        r8(r, t)
    };
    let bus_r = if t == 6 {
        bus.read_effect(hl)
    } else {
        bus
    };
    if group < 8 {
        let (res, rf) = shift_op(r, group, v);
        if t == 6 {
            (with_reg(s, rf), bus_r.poke(hl, res))
        } else {
            (with_reg(s, set_r8(rf, t, res)), bus)
        }
    } else if group < 16 {
        (with_reg(s, bit_test(r, (group - 8) as u8, v)), bus_r)
    } else {
        let res = if group < 24 {
            bit_reset((group - 16) as u8, v)
        } else {
            bit_set((group - 24) as u8, v)
        };
        if t == 6 {
            (s, bus_r.poke(hl, res))
        } else {
            (with_reg(s, set_r8(r, t, res)), bus)
        }
    }
}

/// One instruction whose opcode `op` has been fetched (PC already past it):
/// the state after it, the bus after its accesses, and its cycle count.
pub open spec fn exec_instruction<B: Memory>(s: CPU, op: u8, bus: B) -> (CPU, B, u8) {
    if op == 0xCB {
        let (cb, bus1) = imm8(s.reg, bus);
        let (s2, bus2) = exec_cb(with_reg(s, with_pc(s.reg, s.reg.pc.wrapping_add(1))), cb, bus1);
        (s2, bus2, cb_cost(cb).base)
    } else {
        let (s2, bus2, took) = if op < 0x40 {
            exec_block0(s, op, bus)
        } else if op < 0x80 {
            exec_load_block(s, op, bus)
        } else if op < 0xC0 {
            exec_alu_block(s, op, bus)
        } else {
            exec_block3(s, op, bus)
        };
        (s2, bus2, main_cost(op).total_spec(took))
    }
}

/// EI takes effect after the instruction that follows it: the schedule
/// counts down once per step and IME is set when it reaches zero.
pub open spec fn ime_advanced(s: CPU) -> CPU {
    match s.ime_scheduled {
        Some(remaining) => if remaining == 0 {
            CPU { ime: true, ime_scheduled: None, ..s }
        } else {
            CPU { ime_scheduled: Some((remaining - 1) as u8), ..s }
        },
        None => s,
    }
}

pub open spec fn with_last_cycles(s: CPU, cycles: u8) -> CPU {
    CPU { clock: crate::cpu::Clock { last_instruction: cycles }, ..s }
}

/// One `CPU::step`: the CPU state after it, the bus after it, and the
/// T-cycles it took.  The opcode fetch and every access of the instruction
/// are each one machine cycle of the clocked hardware, in order; the
/// instruction's remaining machine cycles follow its last access.  Polling
/// IE and IF while halted is not a bus cycle.
pub open spec fn step_spec<B: MemoryBus>(s: CPU, bus: B) -> (CPU, B, u8) {
    // A halted CPU polls IE (0xFFFF) and IF (0xFF0F); only bits 0-4 have an
    // interrupt source, so only they wake it.
    let ie = bus.peek(0xFFFF);
    let bus_ie = bus.read_effect(0xFFFF);
    let iflag = bus_ie.peek(0xFF0F);
    let bus_polled = bus_ie.read_effect(0xFF0F);
    if s.halt_state == HaltState::Halted && ie & iflag & 0x1F == 0 {
        (ime_advanced(with_last_cycles(s, 4)), ticked_n(bus_polled, 1), 4)
    } else {
        let s0 = if s.halt_state == HaltState::Halted {
            CPU { halt_state: HaltState::Running, ..s }
        } else {
            s
        };
        let bus0 = if s.halt_state == HaltState::Halted {
            bus_polled
        } else {
            bus
        };
        let (op, bus1) = imm8(s0.reg, clocked(bus0, 0));
        let s1 = with_reg(s0, with_pc(s0.reg, s0.reg.pc.wrapping_add(1)));
        let (s2, bus2, cycles) = exec_instruction(s1, op, bus1);
        (ime_advanced(with_last_cycles(s2, cycles)), settled(bus2, (cycles / 4) as nat), cycles)
    }
}

/// Interrupt vector of IF/IE bit `i`.
pub open spec fn interrupt_vector(i: int) -> u16 {
    (0x40 + 8 * i) as u16
}

/// Index of the lowest of bits 0..=4 set in `pending`, or 5 if none is.
pub open spec fn lowest_pending(pending: u8) -> int {
    if pending & 1 != 0 {
        0
    } else if pending & 2 != 0 {
        1
    } else if pending & 4 != 0 {
        2
    } else if pending & 8 != 0 {
        3
    } else if pending & 16 != 0 {
        4
    } else {
        5
    }
}

/// `CPU::service_interrupts`: the state after it, the bus after it, and the
/// cycles it took (`None` when no interrupt was dispatched).  Only bits 0-4
/// of IE & IF are interrupts: with none of them pending nothing changes.  A
/// pending one wakes a halted CPU; with IME set the lowest is dispatched.
/// A dispatch
/// clears the IF bit and takes 5 machine cycles: two wait cycles, one per
/// byte of PC pushed, and one to load the vector.
pub open spec fn service_spec<B: MemoryBus>(s: CPU, bus: B) -> (CPU, B, Option<u8>) {
    let ie = bus.peek(0xFFFF);
    let bus_ie = bus.read_effect(0xFFFF);
    let iflag = bus_ie.peek(0xFF0F);
    let bus_polled = bus_ie.read_effect(0xFF0F);
    // Bits 5-7 of IE and IF have no interrupt source.
    let pending = ie & iflag & 0x1F;
    if pending == 0 {
        (s, bus_polled, None)
    } else if !s.ime {
        (CPU { halt_state: HaltState::Running, ..s }, bus_polled, None)
    } else {
        let s1 = CPU { halt_state: HaltState::Running, ime: false, ime_scheduled: None, ..s };
        let i = lowest_pending(pending);
        if i == 5 {
            (s1, bus_polled, None)
        } else {
            let mask = (1u8 << (i as u8));
            let sp2 = s.reg.sp.wrapping_sub(2);
            let waited = ticked_n(bus_polled.poke(0xFF0F, iflag & !mask), 2);
            let bus_w = pushed(clocked(waited, 0), sp2, s.reg.pc);
            (
                with_reg(s1, Registers { sp: sp2, pc: interrupt_vector(i), ..s.reg }),
                settled(bus_w, 3),
                Some(20u8),
            )
        }
    }
}

proof fn lemma_pending_bits(p: u8)
    by (bit_vector)
    ensures
        (p & 1 != 0) == (p % 2 == 1),
        (p & 2 != 0) == ((p / 2) % 2 == 1),
        (p & 4 != 0) == ((p / 4) % 2 == 1),
        (p & 8 != 0) == ((p / 8) % 2 == 1),
        (p & 16 != 0) == ((p / 16) % 2 == 1),
{
}

/// Interrupt priority: of the pending interrupts (bit 0 VBlank, 1 STAT,
/// 2 timer, 3 serial, 4 joypad) the lowest-numbered is served first, at
/// vector 0x40, 0x48, 0x50, 0x58 or 0x60 respectively.
pub proof fn lemma_interrupt_priority(p: u8)
    ensures
        p % 2 == 1 ==> lowest_pending(p) == 0,
        p % 2 == 0 && (p / 2) % 2 == 1 ==> lowest_pending(p) == 1,
        p % 4 == 0 && (p / 4) % 2 == 1 ==> lowest_pending(p) == 2,
        p % 8 == 0 && (p / 8) % 2 == 1 ==> lowest_pending(p) == 3,
        p % 16 == 0 && (p / 16) % 2 == 1 ==> lowest_pending(p) == 4,
        p % 32 == 0 ==> lowest_pending(p) == 5,
        interrupt_vector(0) == 0x40 && interrupt_vector(1) == 0x48 && interrupt_vector(2) == 0x50
            && interrupt_vector(3) == 0x58 && interrupt_vector(4) == 0x60,
{
    lemma_pending_bits(p);
}

/// Only bits 0-4 of IE and IF are interrupts.  With none of them pending
/// in both, servicing interrupts leaves the CPU as it is (IME included) and
/// only reads the bus, and a halted CPU stays halted.
pub proof fn lemma_unused_bits_never_interrupt<B: MemoryBus>(s: CPU, bus: B)
    requires
        bus.peek(0xFFFF) & bus.read_effect(0xFFFF).peek(0xFF0F) & 0x1F == 0,
    ensures
        service_spec(s, bus) == (s, bus.read_effect(0xFFFF).read_effect(0xFF0F), Option::<u8>::None),
        s.halt_state == HaltState::Halted ==> step_spec(s, bus).0.halt_state == HaltState::Halted,
{
}

/// Flat RAM has no clocked hardware: machine cycles leave it as it is.
proof fn lemma_flat_ticks(bus: FlatMemory, n: nat)
    ensures
        ticked_n(bus, n) == bus,
    decreases n,
{
    if n > 0 {
        lemma_flat_ticks(bus, (n - 1) as nat);
    }
}

/// Flat RAM has no clocked hardware: an instruction's delay cycles leave it
/// as its accesses did.
proof fn lemma_flat_settled(c: Clocked<FlatMemory>, m: nat)
    ensures
        settled(c, m) == c.bus,
{
    lemma_flat_ticks(c.bus, delay_cycles(c.cycles, m));
}

/// On memory that reads back what was written, a word pushed onto the
/// stack pops off unchanged.
pub proof fn lemma_stack_round_trip(r: Registers, bus: FlatMemory, value: u16)
    ensures
        popped(Registers { sp: r.sp.wrapping_sub(2), ..r }, pushed(bus, r.sp.wrapping_sub(2), value)).0
            == value,
{
    broadcast use vstd::array::group_array_axioms;

    let sp2 = r.sp.wrapping_sub(2);
    assert(sp2.wrapping_add(1) as int != sp2 as int);
    lemma_pair_hi_lo(value);
}

/// One step of `PUSH rr` (opcode 0xC5 + 16 × rr) on flat RAM.
#[verifier::rlimit(60)]
proof fn lemma_push_step(s: CPU, bus: FlatMemory, from: int)
    requires
        s.halt_state == HaltState::Running,
        0 <= from < 4,
        bus.peek(s.reg.pc) == 0xC5 + 16 * from,
    ensures
        ({
            let (s1, b1, _) = step_spec(s, bus);
            &&& s1.reg == Registers { sp: s.reg.sp.wrapping_sub(2), pc: s.reg.pc.wrapping_add(1), ..s.reg }
            &&& s1.halt_state == HaltState::Running
            &&& b1 == pushed(bus, s.reg.sp.wrapping_sub(2), r16_stack(s.reg, from))
        }),
{
    let op = (0xC5 + 16 * from) as u8;
    let s0 = with_reg(s, with_pc(s.reg, s.reg.pc.wrapping_add(1)));
    assert(op >= 0xC0 && op != 0xCB && op % 8 == 5 && op % 16 == 5);
    assert((op - 0xC0) / 16 == from);
    let (_, b2, c) = exec_instruction(s0, op, clocked(bus, 1));
    lemma_flat_settled(b2, (c / 4) as nat);
}

/// One step of `POP rr` (opcode 0xC1 + 16 × rr) on flat RAM.
#[verifier::rlimit(60)]
proof fn lemma_pop_step(s: CPU, bus: FlatMemory, to: int)
    requires
        s.halt_state == HaltState::Running,
        0 <= to < 4,
        bus.peek(s.reg.pc) == 0xC1 + 16 * to,
    ensures
        ({
            let (s1, b1, _) = step_spec(s, bus);
            &&& s1.reg == set_r16_stack(
                Registers { sp: s.reg.sp.wrapping_add(2), pc: s.reg.pc.wrapping_add(1), ..s.reg },
                to,
                popped(s.reg, bus).0,
            )
            &&& b1 == bus
        }),
{
    let op = (0xC1 + 16 * to) as u8;
    let s0 = with_reg(s, with_pc(s.reg, s.reg.pc.wrapping_add(1)));
    assert(op >= 0xC0 && op != 0xCB && op % 8 == 1 && op % 16 == 1);
    assert((op - 0xC0) / 16 == to);
    let (_, b2, c) = exec_instruction(s0, op, clocked(bus, 1));
    lemma_flat_settled(b2, (c / 4) as nat);
}

/// `PUSH rr` followed by `POP rr'` (rr' one of BC, DE, HL) copies rr into
/// rr' and leaves SP where it was, when the pushed bytes do not land on the
/// second instruction.
pub proof fn lemma_push_then_pop_copies_a_pair(s: CPU, bus: FlatMemory, from: int, to: int)
    requires
        s.halt_state == HaltState::Running,
        0 <= from < 4,
        0 <= to < 3,
        bus.peek(s.reg.pc) == 0xC5 + 16 * from,
        bus.peek(s.reg.pc.wrapping_add(1)) == 0xC1 + 16 * to,
        s.reg.sp.wrapping_sub(2) != s.reg.pc.wrapping_add(1),
        s.reg.sp.wrapping_sub(1) != s.reg.pc.wrapping_add(1),
    ensures
        ({
            let (s1, b1, c1) = step_spec(s, bus);
            let (s2, b2, c2) = step_spec(s1, b1);
            &&& r16_stack(s2.reg, to) == r16_stack(s.reg, from)
            &&& s2.reg.sp == s.reg.sp
            &&& s2.reg.pc == s.reg.pc.wrapping_add(2)
        }),
{
    broadcast use vstd::array::group_array_axioms;

    let sp2 = s.reg.sp.wrapping_sub(2);
    let value = r16_stack(s.reg, from);
    lemma_push_step(s, bus, from);
    let (s1, b1, _) = step_spec(s, bus);
    assert(sp2.wrapping_add(1) as int != sp2 as int);
    assert(b1.peek(s1.reg.pc) == bus.peek(s.reg.pc.wrapping_add(1)));
    lemma_pop_step(s1, b1, to);
    lemma_stack_round_trip(s.reg, bus, value);
    assert(sp2.wrapping_add(2) == s.reg.sp);
}

/// One step of `RETI` (opcode 0xD9) on flat RAM.
#[verifier::rlimit(60)]
proof fn lemma_reti_step(s: CPU, bus: FlatMemory)
    requires
        s.halt_state == HaltState::Running,
        bus.peek(s.reg.pc) == 0xD9,
    ensures
        ({
            let (s1, b1, _) = step_spec(s, bus);
            &&& s1.reg == Registers { sp: s.reg.sp.wrapping_add(2), pc: popped(s.reg, bus).0, ..s.reg }
            &&& s1.ime
            &&& b1 == bus
        }),
{
    let s0 = with_reg(s, with_pc(s.reg, s.reg.pc.wrapping_add(1)));
    let (_, b2, c) = exec_instruction(s0, 0xD9, clocked(bus, 1));
    lemma_flat_settled(b2, (c / 4) as nat);
}

/// Dispatching an interrupt and then executing `RETI` at its vector
/// returns to the interrupted instruction with SP restored and IME set
/// again, when the pushed return address does not land on the vector.
pub proof fn lemma_interrupt_then_reti_returns(s: CPU, bus: FlatMemory)
    requires
        s.ime,
        lowest_pending(bus.peek(0xFFFF) & bus.peek(0xFF0F)) < 5,
        bus.peek(interrupt_vector(lowest_pending(bus.peek(0xFFFF) & bus.peek(0xFF0F)))) == 0xD9,
        interrupt_vector(lowest_pending(bus.peek(0xFFFF) & bus.peek(0xFF0F))) != s.reg.sp.wrapping_sub(2),
        interrupt_vector(lowest_pending(bus.peek(0xFFFF) & bus.peek(0xFF0F))) != s.reg.sp.wrapping_sub(1),
    ensures
        ({
            let (s1, b1, r1) = service_spec(s, bus);
            let (s2, b2, c2) = step_spec(s1, b1);
            &&& r1 == Some(20u8)
            &&& s1.reg.pc == interrupt_vector(lowest_pending(bus.peek(0xFFFF) & bus.peek(0xFF0F)))
            &&& !s1.ime
            &&& s2.reg.pc == s.reg.pc
            &&& s2.reg.sp == s.reg.sp
            &&& s2.ime
        }),
{
    broadcast use vstd::array::group_array_axioms;

    let ie = bus.peek(0xFFFF);
    let iflag = bus.peek(0xFF0F);
    let i = lowest_pending(ie & iflag);
    let mask = (1u8 << (i as u8));
    let sp2 = s.reg.sp.wrapping_sub(2);
    let cleared = bus.poke(0xFF0F, iflag & !mask);
    lemma_flat_ticks(cleared, 2);
    let bus_w = pushed(clocked(cleared, 0), sp2, s.reg.pc);
    assert(ie & iflag & 0x1F != 0 && (ie & iflag & 0x1F) & 1 == (ie & iflag) & 1 && (ie & iflag
        & 0x1F) & 2 == (ie & iflag) & 2 && (ie & iflag & 0x1F) & 4 == (ie & iflag) & 4 && (ie
        & iflag & 0x1F) & 8 == (ie & iflag) & 8 && (ie & iflag & 0x1F) & 16 == (ie & iflag) & 16)
        by (bit_vector)
        requires
            ie & iflag & 1 != 0 || ie & iflag & 2 != 0 || ie & iflag & 4 != 0 || ie & iflag & 8 != 0 || ie & iflag & 16 != 0;
    assert(lowest_pending(ie & iflag & 0x1F) == i);
    lemma_flat_settled(bus_w, 3);
    let (s1, b1, r1) = service_spec(s, bus);
    assert(b1 == bus_w.bus);
    assert(b1 == pushed(cleared, sp2, s.reg.pc));
    assert(0x40 <= interrupt_vector(i) <= 0x60);
    assert(b1.peek(interrupt_vector(i)) == 0xD9);
    lemma_reti_step(s1, b1);
    lemma_stack_round_trip(s.reg, cleared, s.reg.pc);
    assert(sp2.wrapping_add(2) == s.reg.sp);
}

/// Every step takes at least one machine cycle (4 T-cycles), so a frame
/// always ends.
pub proof fn lemma_step_takes_time<B: MemoryBus>(s: CPU, bus: B)
    ensures
        step_spec(s, bus).2 >= 4,
{
    let ie = bus.peek(0xFFFF);
    let bus_ie = bus.read_effect(0xFFFF);
    let iflag = bus_ie.peek(0xFF0F);
    let bus_polled = bus_ie.read_effect(0xFF0F);
    if !(s.halt_state == HaltState::Halted && ie & iflag & 0x1F == 0) {
        let s0 = if s.halt_state == HaltState::Halted {
            CPU { halt_state: HaltState::Running, ..s }
        } else {
            s
        };
        let bus0 = if s.halt_state == HaltState::Halted {
            bus_polled
        } else {
            bus
        };
        let (op, bus1) = imm8(s0.reg, clocked(bus0, 0));
        lemma_main_cost_at_least_four(op);
    }
}

/// After its opcode fetch, an instruction makes no more bus accesses than it
/// has machine cycles left, so a step advances the clocked hardware by
/// exactly its machine cycles: one after each access and the rest after the
/// last one.
#[verifier::rlimit(100)]
pub proof fn lemma_accesses_fit_in_cycles<B: MemoryBus>(s: CPU, op: u8, bus: B)
    ensures
        ({
            let (_, b, c) = exec_instruction(s, op, clocked(bus, 1));
            b.cycles <= c / 4
        }),
{
}

} // verus!
