//! CPU execution engine for the DMG Game Boy (SM83 core).
//!
//! `step` fetches and executes one instruction.  The clocked hardware on the
//! bus advances one machine cycle after each of the instruction's bus
//! accesses, and by the instruction's remaining (internal) machine cycles
//! after its last access.  Its contract is stated by
//! [`crate::cpu_spec::step_spec`].
use crate::cpu_spec::{
    exec_alu_block, exec_block0, exec_block3, exec_cb, exec_instruction, exec_load_block, imm16,
    imm8, ime_advanced, popped, pushed, service_spec, step_spec, with_last_cycles, with_pc,
    with_reg, lowest_pending, interrupt_vector,
};
use crate::isa::{
    add_hl16, alu, bit_reset, bit_set, bit_test, daa_spec, dec8, inc8, jr_target, shift_op,
    sp_plus,
};
use crate::memory::{
    clocked, settled, tick_n, word_read_value, word_written, Memory, MemoryBus,
};
use crate::opcode::{cb_cost, cb_cycle_cost, cycle_cost, main_cost, CycleCost};
use crate::registers::Flag::{CARRY, HALF_CARRY, SUBTRACT, ZERO};
use crate::registers::Registers;
use vstd::prelude::*;

verus! {

/// Cycle bookkeeping: the cost of the most recent instruction.
#[derive(Clone, Copy, Debug, PartialEq, Eq, Default)]
pub struct Clock {
    pub last_instruction: u8,
}

impl Clock {
    pub fn record(&mut self, cycles: u8)
        ensures
            final(self).last_instruction == cycles,
    {
        self.last_instruction = cycles;
    }

    pub fn last(&self) -> (c: u8)
        ensures
            c == self.last_instruction,
    {
        self.last_instruction
    }
}

#[derive(Copy, Clone, Debug, PartialEq, Eq, Structural)]
pub enum HaltState {
    Running,
    Halted,
}

/// Cost of the instruction being executed, whether its branch was taken,
/// and the machine cycles it has spent on bus accesses so far.
#[derive(Copy, Clone, Debug)]
pub struct CycleResult {
    pub cost: CycleCost,
    pub took_conditional: bool,
    pub bus_cycles: u8,
}

impl CycleResult {
    pub open spec fn total_spec(self) -> u8 {
        self.cost.total_spec(self.took_conditional)
    }

    pub fn new(cost: CycleCost) -> (c: CycleResult)
        ensures
            c.cost == cost,
            !c.took_conditional,
            c.bus_cycles == 0,
    {
        CycleResult { cost, took_conditional: false, bus_cycles: 0 }
    }

    pub fn set_cost(&mut self, cost: CycleCost)
        ensures
            final(self).cost == cost,
            !final(self).took_conditional,
            final(self).bus_cycles == old(self).bus_cycles,
    {
        self.cost = cost;
        self.took_conditional = false;
    }

    pub fn take_conditional(&mut self)
        ensures
            final(self).cost == old(self).cost,
            final(self).took_conditional,
            final(self).bus_cycles == old(self).bus_cycles,
    {
        self.took_conditional = true;
    }

    pub fn total(self) -> (t: u8)
        ensures
            t == self.total_spec(),
    {
        self.cost.total(self.took_conditional)
    }
}

pub struct CPU {
    pub reg: Registers,
    pub clock: Clock,
    pub halt_state: HaltState,
    /// Interrupt master enable.
    pub ime: bool,
    /// Countdown until a pending EI sets IME.
    pub ime_scheduled: Option<u8>,
}

impl Default for CPU {
    fn default() -> (c: Self)
        ensures
            c.reg == Registers::post_boot(),
            c.halt_state == HaltState::Running,
            !c.ime,
            c.ime_scheduled is None,
            c.clock.last_instruction == 0,
    {
        Self::new()
    }
}

impl CPU {
    pub open spec fn initial(reg: Registers) -> CPU {
        CPU {
            reg,
            clock: Clock { last_instruction: 0 },
            halt_state: HaltState::Running,
            ime: false,
            ime_scheduled: None,
        }
    }

    /// A CPU in the state the boot ROM leaves it in (PC = 0x0100).
    pub fn new() -> (c: Self)
        ensures
            c == CPU::initial(Registers::post_boot()),
    {
        Self {
            reg: Registers::new(),
            clock: Clock { last_instruction: 0 },
            halt_state: HaltState::Running,
            ime: false,
            ime_scheduled: None,
        }
    }

    /// Same as [`CPU::new`]: the post-boot-ROM state.
    pub fn new_post_bios() -> (c: Self)
        ensures
            c == CPU::initial(Registers::post_boot()),
    {
        Self::new()
    }

    /// A CPU in the power-on state (PC = 0x0000, all registers zero), for
    /// running a boot ROM.
    pub fn new_cold() -> (c: Self)
        ensures
            c == CPU::initial(Registers::power_on()),
    {
        Self {
            reg: Registers::cold_start(),
            clock: Clock { last_instruction: 0 },
            halt_state: HaltState::Running,
            ime: false,
            ime_scheduled: None,
        }
    }

    pub fn registers(&self) -> (r: &Registers)
        ensures
            *r == self.reg,
    {
        &self.reg
    }

    /// Cycles taken by the most recent `step`.
    pub fn last_cycles(&self) -> (c: u8)
        ensures
            c == self.clock.last_instruction,
    {
        self.clock.last()
    }

    fn fetch_byte<B: MemoryBus>(&mut self, mmu: &mut B, cycles: &mut CycleResult) -> (byte: u8)
        requires
            old(mmu).inv(),
        ensures
            final(mmu).inv(),
            (byte, clocked(*final(mmu), final(cycles).bus_cycles)) == imm8(old(self).reg, clocked(*old(mmu), old(cycles).bus_cycles)),
            final(cycles).cost == old(cycles).cost,
            final(cycles).took_conditional == old(cycles).took_conditional,
            *final(self) == with_reg(*old(self), with_pc(old(self).reg, old(self).reg.pc.wrapping_add(1))),
    {
        let byte = cycle_read(mmu, cycles, self.reg.pc);
        self.reg.pc = self.reg.pc.wrapping_add(1);
        byte
    }

    fn fetch_word<B: MemoryBus>(&mut self, mmu: &mut B, cycles: &mut CycleResult) -> (word: u16)
        requires
            old(mmu).inv(),
        ensures
            final(mmu).inv(),
            (word, clocked(*final(mmu), final(cycles).bus_cycles)) == imm16(old(self).reg, clocked(*old(mmu), old(cycles).bus_cycles)),
            final(cycles).cost == old(cycles).cost,
            final(cycles).took_conditional == old(cycles).took_conditional,
            *final(self) == with_reg(*old(self), with_pc(old(self).reg, old(self).reg.pc.wrapping_add(2))),
    {
        let word = cycle_read_word(mmu, cycles, self.reg.pc);
        self.reg.pc = self.reg.pc.wrapping_add(2);
        word
    }

    fn push<B: MemoryBus>(&mut self, mmu: &mut B, cycles: &mut CycleResult, value: u16)
        requires
            old(mmu).inv(),
        ensures
            final(mmu).inv(),
            clocked(*final(mmu), final(cycles).bus_cycles) == pushed(clocked(*old(mmu), old(cycles).bus_cycles), old(self).reg.sp.wrapping_sub(2), value),
            final(cycles).cost == old(cycles).cost,
            final(cycles).took_conditional == old(cycles).took_conditional,
            *final(self) == with_reg(*old(self), Registers { sp: old(self).reg.sp.wrapping_sub(2), ..old(self).reg }),
    {
        self.reg.sp = self.reg.sp.wrapping_sub(2);
        cycle_write_word(mmu, cycles, self.reg.sp, value);
    }

    fn pop<B: MemoryBus>(&mut self, mmu: &mut B, cycles: &mut CycleResult) -> (value: u16)
        requires
            old(mmu).inv(),
        ensures
            final(mmu).inv(),
            (value, clocked(*final(mmu), final(cycles).bus_cycles)) == popped(old(self).reg, clocked(*old(mmu), old(cycles).bus_cycles)),
            final(cycles).cost == old(cycles).cost,
            final(cycles).took_conditional == old(cycles).took_conditional,
            *final(self) == with_reg(*old(self), Registers { sp: old(self).reg.sp.wrapping_add(2), ..old(self).reg }),
    {
        let value = cycle_read_word(mmu, cycles, self.reg.sp);
        self.reg.sp = self.reg.sp.wrapping_add(2);
        value
    }

    fn call<B: MemoryBus>(&mut self, mmu: &mut B, cycles: &mut CycleResult, address: u16)
        requires
            old(mmu).inv(),
        ensures
            final(mmu).inv(),
            clocked(*final(mmu), final(cycles).bus_cycles) == pushed(clocked(*old(mmu), old(cycles).bus_cycles), old(self).reg.sp.wrapping_sub(2), old(self).reg.pc),
            final(cycles).cost == old(cycles).cost,
            final(cycles).took_conditional == old(cycles).took_conditional,
            *final(self) == with_reg(*old(self), Registers { sp: old(self).reg.sp.wrapping_sub(2), pc: address, ..old(self).reg }),
    {
        self.push(mmu, cycles, self.reg.pc);
        self.reg.pc = address;
    }

    fn rst<B: MemoryBus>(&mut self, mmu: &mut B, cycles: &mut CycleResult, address: u16)
        requires
            old(mmu).inv(),
        ensures
            final(mmu).inv(),
            clocked(*final(mmu), final(cycles).bus_cycles) == pushed(clocked(*old(mmu), old(cycles).bus_cycles), old(self).reg.sp.wrapping_sub(2), old(self).reg.pc),
            final(cycles).cost == old(cycles).cost,
            final(cycles).took_conditional == old(cycles).took_conditional,
            *final(self) == with_reg(*old(self), Registers { sp: old(self).reg.sp.wrapping_sub(2), pc: address, ..old(self).reg }),
    {
        self.call(mmu, cycles, address);
    }
}

impl CPU {
    /// ADD A,n: Z if zero, N reset, H on carry from bit 3, C on carry from bit 7.
    #[verifier::spinoff_prover]
    #[verifier::rlimit(40)]
    pub fn add(&mut self, n: u8)
        ensures
            *final(self) == with_reg(*old(self), alu(old(self).reg, 0, n)),
    {
        reveal(alu);
        let a = self.reg.a;
        let result = a.wrapping_add(n);

        self.reg.set_flag(ZERO, result == 0);
        self.reg.set_flag(SUBTRACT, false);
        self.reg.set_flag(HALF_CARRY, (a % 16) + (n % 16) > 15);
        self.reg.set_flag(CARRY, (a as u16) + (n as u16) > 0xFF);

        self.reg.a = result;
    }

    /// ADC A,n: add n plus the carry flag.
    #[verifier::spinoff_prover]
    #[verifier::rlimit(40)]
    fn adc(&mut self, n: u8)
        ensures
            *final(self) == with_reg(*old(self), alu(old(self).reg, 1, n)),
    {
        reveal(alu);
        let a = self.reg.a;
        let carry: u8 = if self.reg.get_flag(CARRY) { 1 } else { 0 };
        let result = a.wrapping_add(n).wrapping_add(carry);
        assert(result == ((a + n + carry) % 256) as u8);

        self.reg.set_flag(ZERO, result == 0);
        self.reg.set_flag(SUBTRACT, false);
        self.reg.set_flag(HALF_CARRY, (a % 16) + (n % 16) + carry > 15);
        self.reg.set_flag(CARRY, (a as u16) + (n as u16) + carry as u16 > 0xFF);

        self.reg.a = result;
    }

    /// SUB A,n: N set, H on borrow from bit 4, C on borrow.
    #[verifier::spinoff_prover]
    #[verifier::rlimit(40)]
    fn sub(&mut self, n: u8)
        ensures
            *final(self) == with_reg(*old(self), alu(old(self).reg, 2, n)),
    {
        reveal(alu);
        let a = self.reg.a;
        let result = a.wrapping_sub(n);

        self.reg.set_flag(ZERO, result == 0);
        self.reg.set_flag(SUBTRACT, true);
        self.reg.set_flag(HALF_CARRY, (a % 16) < (n % 16));
        self.reg.set_flag(CARRY, (a as u16) < (n as u16));

        self.reg.a = result;
    }

    /// SBC A,n: subtract n plus the carry flag.
    #[verifier::spinoff_prover]
    #[verifier::rlimit(40)]
    fn sbc(&mut self, n: u8)
        ensures
            *final(self) == with_reg(*old(self), alu(old(self).reg, 3, n)),
    {
        reveal(alu);
        let a = self.reg.a;
        let carry: u8 = if self.reg.get_flag(CARRY) { 1 } else { 0 };
        let result = a.wrapping_sub(n).wrapping_sub(carry);

        self.reg.set_flag(ZERO, result == 0);
        self.reg.set_flag(SUBTRACT, true);
        self.reg.set_flag(HALF_CARRY, (a % 16) < (n % 16) + carry);
        self.reg.set_flag(CARRY, (a as u16) < (n as u16) + carry as u16);

        self.reg.a = result;
    }

    /// AND A,n: H set, N and C reset.
    #[verifier::spinoff_prover]
    #[verifier::rlimit(40)]
    fn and(&mut self, n: u8)
        ensures
            *final(self) == with_reg(*old(self), alu(old(self).reg, 4, n)),
    {
        reveal(alu);
        let result = self.reg.a & n;

        self.reg.set_flag(ZERO, result == 0);
        self.reg.set_flag(SUBTRACT, false);
        self.reg.set_flag(HALF_CARRY, true);
        self.reg.set_flag(CARRY, false);

        self.reg.a = result;
    }

    /// XOR A,n: N, H and C reset.
    #[verifier::spinoff_prover]
    #[verifier::rlimit(40)]
    fn xor(&mut self, n: u8)
        ensures
            *final(self) == with_reg(*old(self), alu(old(self).reg, 5, n)),
    {
        reveal(alu);
        let result = self.reg.a ^ n;

        self.reg.set_flag(ZERO, result == 0);
        self.reg.set_flag(SUBTRACT, false);
        self.reg.set_flag(HALF_CARRY, false);
        self.reg.set_flag(CARRY, false);

        self.reg.a = result;
    }

    /// OR A,n: N, H and C reset.
    #[verifier::spinoff_prover]
    #[verifier::rlimit(40)]
    fn or(&mut self, n: u8)
        ensures
            *final(self) == with_reg(*old(self), alu(old(self).reg, 6, n)),
    {
        reveal(alu);
        let result = self.reg.a | n;

        self.reg.set_flag(ZERO, result == 0);
        self.reg.set_flag(SUBTRACT, false);
        self.reg.set_flag(HALF_CARRY, false);
        self.reg.set_flag(CARRY, false);

        self.reg.a = result;
    }

    /// CP A,n: the flags of SUB without storing the result.
    #[verifier::spinoff_prover]
    #[verifier::rlimit(40)]
    fn cp(&mut self, n: u8)
        ensures
            *final(self) == with_reg(*old(self), alu(old(self).reg, 7, n)),
    {
        reveal(alu);
        let a = self.reg.a;
        let result = a.wrapping_sub(n);

        self.reg.set_flag(ZERO, result == 0);
        self.reg.set_flag(SUBTRACT, true);
        self.reg.set_flag(HALF_CARRY, (a % 16) < (n % 16));
        self.reg.set_flag(CARRY, (a as u16) < (n as u16));
    }

    /// INC n: Z, N reset, H on carry from bit 3; C untouched.
    #[verifier::spinoff_prover]
    #[verifier::rlimit(40)]
    fn inc(&mut self, n: u8) -> (result: u8)
        ensures
            (result, final(self).reg) == inc8(old(self).reg, n),
            *final(self) == with_reg(*old(self), final(self).reg),
    {
        let result = n.wrapping_add(1);

        self.reg.set_flag(ZERO, result == 0);
        self.reg.set_flag(SUBTRACT, false);
        self.reg.set_flag(HALF_CARRY, n % 16 == 15);

        result
    }

    /// DEC n: Z, N set, H on borrow from bit 4; C untouched.
    #[verifier::spinoff_prover]
    #[verifier::rlimit(40)]
    fn dec(&mut self, n: u8) -> (result: u8)
        ensures
            (result, final(self).reg) == dec8(old(self).reg, n),
            *final(self) == with_reg(*old(self), final(self).reg),
    {
        let result = n.wrapping_sub(1);

        self.reg.set_flag(ZERO, result == 0);
        self.reg.set_flag(SUBTRACT, true);
        self.reg.set_flag(HALF_CARRY, n % 16 == 0);

        result
    }

    /// ADD HL,n: N reset, H on carry from bit 11, C on carry from bit 15; Z untouched.
    #[verifier::spinoff_prover]
    #[verifier::rlimit(40)]
    fn add_hl(&mut self, n: u16)
        ensures
            *final(self) == with_reg(*old(self), add_hl16(old(self).reg, n)),
    {
        let hl = self.reg.get_hl();
        let result = hl.wrapping_add(n);

        self.reg.set_flag(SUBTRACT, false);
        self.reg.set_flag(HALF_CARRY, (hl % 4096) + (n % 4096) > 4095);
        self.reg.set_flag(CARRY, (hl as u32) + (n as u32) > 0xFFFF);

        self.reg.set_hl(result);
    }

    /// SP + signed n, with H and C from the low byte and Z, N reset.
    #[verifier::spinoff_prover]
    #[verifier::rlimit(40)]
    fn sp_plus_signed(&mut self, n: u8) -> (sum: u16)
        ensures
            (sum, final(self).reg) == sp_plus(old(self).reg, n),
            *final(self) == with_reg(*old(self), final(self).reg),
    {
        let sp = self.reg.sp;
        let offset: u16 = if n < 128 { n as u16 } else { n as u16 + 0xFF00 };
        let result = sp.wrapping_add(offset);

        self.reg.set_flag(ZERO, false);
        self.reg.set_flag(SUBTRACT, false);
        self.reg.set_flag(HALF_CARRY, (sp % 16) + (n as u16 % 16) > 15);
        self.reg.set_flag(CARRY, (sp % 256) + (n as u16) > 255);

        result
    }

    /// ADD SP,e8.
    #[verifier::spinoff_prover]
    #[verifier::rlimit(40)]
    fn add_sp(&mut self, n: u8)
        ensures
            *final(self) == with_reg(*old(self), Registers { sp: sp_plus(old(self).reg, n).0, ..sp_plus(old(self).reg, n).1 }),
    {
        let result = self.sp_plus_signed(n);
        self.reg.sp = result;
    }

    /// SWAP n: exchange the nibbles; Z set if zero, N, H, C reset.
    #[verifier::spinoff_prover]
    #[verifier::rlimit(40)]
    fn swap(&mut self, n: u8) -> (result: u8)
        ensures
            (result, final(self).reg) == shift_op(old(self).reg, 6, n),
            *final(self) == with_reg(*old(self), final(self).reg),
    {
        let upper = n >> 4;
        let lower = n & 0x0F;
        let result = (lower << 4) | upper;

        self.reg.set_flag(ZERO, result == 0);
        self.reg.set_flag(SUBTRACT, false);
        self.reg.set_flag(HALF_CARRY, false);
        self.reg.set_flag(CARRY, false);

        result
    }

    /// DAA: decimal-adjust A after a BCD addition or subtraction.
    #[verifier::spinoff_prover]
    #[verifier::rlimit(40)]
    pub fn daa(&mut self)
        ensures
            *final(self) == with_reg(*old(self), daa_spec(old(self).reg)),
    {
        let mut a = self.reg.a;
        let mut adjust: u8 = 0;
        let mut carry = self.reg.get_flag(CARRY);

        if self.reg.get_flag(SUBTRACT) {
            if self.reg.get_flag(HALF_CARRY) {
                adjust += 0x06;
            }
            if self.reg.get_flag(CARRY) {
                adjust += 0x60;
            }
            a = a.wrapping_sub(adjust);
        } else {
            if self.reg.get_flag(HALF_CARRY) || (a % 16) > 9 {
                adjust += 0x06;
            }
            if self.reg.get_flag(CARRY) || a > 0x99 {
                adjust += 0x60;
                carry = true;
            }
            a = a.wrapping_add(adjust);
        }

        self.reg.set_flag(ZERO, a == 0);
        self.reg.set_flag(HALF_CARRY, false);
        self.reg.set_flag(CARRY, carry);

        self.reg.a = a;
    }

    /// CPL: complement A; N and H set.
    fn cpl(&mut self)
        ensures
            *final(self) == with_reg(*old(self), Registers { a: !old(self).reg.a, subtract: true, half_carry: true, ..old(self).reg }),
    {
        self.reg.a = !self.reg.a;

        self.reg.set_flag(SUBTRACT, true);
        self.reg.set_flag(HALF_CARRY, true);
    }

    /// CCF: complement the carry flag; N and H reset.
    fn ccf(&mut self)
        ensures
            *final(self) == with_reg(*old(self), Registers { subtract: false, half_carry: false, carry: !old(self).reg.carry, ..old(self).reg }),
    {
        self.reg.set_flag(SUBTRACT, false);
        self.reg.set_flag(HALF_CARRY, false);
        let c = self.reg.get_flag(CARRY);
        self.reg.set_flag(CARRY, !c);
    }

    /// SCF: set the carry flag; N and H reset.
    fn scf(&mut self)
        ensures
            *final(self) == with_reg(*old(self), Registers { subtract: false, half_carry: false, carry: true, ..old(self).reg }),
    {
        self.reg.set_flag(SUBTRACT, false);
        self.reg.set_flag(HALF_CARRY, false);
        self.reg.set_flag(CARRY, true);
    }

    /// RLC n: rotate left; C gets bit 7.
    #[verifier::spinoff_prover]
    #[verifier::rlimit(40)]
    fn rlc(&mut self, n: u8) -> (result: u8)
        ensures
            (result, final(self).reg) == shift_op(old(self).reg, 0, n),
            *final(self) == with_reg(*old(self), final(self).reg),
    {
        let result = (n << 1) | (n >> 7);

        self.reg.set_flag(ZERO, result == 0);
        self.reg.set_flag(SUBTRACT, false);
        self.reg.set_flag(HALF_CARRY, false);
        self.reg.set_flag(CARRY, n & 0x80 != 0);

        result
    }

    /// RL n: rotate left through carry; C gets bit 7.
    #[verifier::spinoff_prover]
    #[verifier::rlimit(40)]
    fn rl(&mut self, n: u8) -> (result: u8)
        ensures
            (result, final(self).reg) == shift_op(old(self).reg, 2, n),
            *final(self) == with_reg(*old(self), final(self).reg),
    {
        let carry: u8 = if self.reg.get_flag(CARRY) { 1 } else { 0 };
        let result = (n << 1) | carry;

        self.reg.set_flag(ZERO, result == 0);
        self.reg.set_flag(SUBTRACT, false);
        self.reg.set_flag(HALF_CARRY, false);
        self.reg.set_flag(CARRY, n & 0x80 != 0);

        result
    }

    /// RRC n: rotate right; C gets bit 0.
    #[verifier::spinoff_prover]
    #[verifier::rlimit(40)]
    fn rrc(&mut self, n: u8) -> (result: u8)
        ensures
            (result, final(self).reg) == shift_op(old(self).reg, 1, n),
            *final(self) == with_reg(*old(self), final(self).reg),
    {
        let result = (n >> 1) | (n << 7);

        self.reg.set_flag(ZERO, result == 0);
        self.reg.set_flag(SUBTRACT, false);
        self.reg.set_flag(HALF_CARRY, false);
        self.reg.set_flag(CARRY, n & 0x01 != 0);

        result
    }

    /// RR n: rotate right through carry; C gets bit 0.
    #[verifier::spinoff_prover]
    #[verifier::rlimit(40)]
    fn rr(&mut self, n: u8) -> (result: u8)
        ensures
            (result, final(self).reg) == shift_op(old(self).reg, 3, n),
            *final(self) == with_reg(*old(self), final(self).reg),
    {
        let carry: u8 = if self.reg.get_flag(CARRY) { 1 } else { 0 };
        let result = (n >> 1) | (carry << 7);

        self.reg.set_flag(ZERO, result == 0);
        self.reg.set_flag(SUBTRACT, false);
        self.reg.set_flag(HALF_CARRY, false);
        self.reg.set_flag(CARRY, n & 0x01 != 0);

        result
    }

    /// SLA n: shift left into carry; bit 0 becomes 0.
    #[verifier::spinoff_prover]
    #[verifier::rlimit(40)]
    fn sla(&mut self, n: u8) -> (result: u8)
        ensures
            (result, final(self).reg) == shift_op(old(self).reg, 4, n),
            *final(self) == with_reg(*old(self), final(self).reg),
    {
        let result = n << 1;

        self.reg.set_flag(ZERO, result == 0);
        self.reg.set_flag(SUBTRACT, false);
        self.reg.set_flag(HALF_CARRY, false);
        self.reg.set_flag(CARRY, n & 0x80 != 0);

        result
    }

    /// SRA n: arithmetic shift right into carry; bit 7 is kept.
    #[verifier::spinoff_prover]
    #[verifier::rlimit(40)]
    fn sra(&mut self, n: u8) -> (result: u8)
        ensures
            (result, final(self).reg) == shift_op(old(self).reg, 5, n),
            *final(self) == with_reg(*old(self), final(self).reg),
    {
        let result = (n >> 1) | (n & 0x80);

        self.reg.set_flag(ZERO, result == 0);
        self.reg.set_flag(SUBTRACT, false);
        self.reg.set_flag(HALF_CARRY, false);
        self.reg.set_flag(CARRY, n & 0x01 != 0);

        result
    }

    /// SRL n: logical shift right into carry; bit 7 becomes 0.
    #[verifier::spinoff_prover]
    #[verifier::rlimit(40)]
    fn srl(&mut self, n: u8) -> (result: u8)
        ensures
            (result, final(self).reg) == shift_op(old(self).reg, 7, n),
            *final(self) == with_reg(*old(self), final(self).reg),
    {
        let result = n >> 1;

        self.reg.set_flag(ZERO, result == 0);
        self.reg.set_flag(SUBTRACT, false);
        self.reg.set_flag(HALF_CARRY, false);
        self.reg.set_flag(CARRY, n & 0x01 != 0);

        result
    }

    /// BIT b,n: Z set if bit b of n is 0; N reset, H set; C untouched.
    fn bit(&mut self, b: u8, n: u8)
        requires
            b < 8,
        ensures
            *final(self) == with_reg(*old(self), bit_test(old(self).reg, b, n)),
    {
        self.reg.set_flag(ZERO, n & (1u8 << b) == 0);
        self.reg.set_flag(SUBTRACT, false);
        self.reg.set_flag(HALF_CARRY, true);
    }

    /// RES b,n: n with bit b cleared.
    fn res(&mut self, b: u8, n: u8) -> (result: u8)
        requires
            b < 8,
        ensures
            result == bit_reset(b, n),
            *final(self) == *old(self),
    {
        n & !(1u8 << b)
    }

    /// SET b,n: n with bit b set.
    fn set(&mut self, b: u8, n: u8) -> (result: u8)
        requires
            b < 8,
        ensures
            result == bit_set(b, n),
            *final(self) == *old(self),
    {
        n | (1u8 << b)
    }

    /// JR: add the signed displacement n to PC.
    fn jr(&mut self, n: u8)
        ensures
            *final(self) == with_reg(*old(self), with_pc(old(self).reg, jr_target(old(self).reg.pc, n))),
    {
        if n < 128 {
            self.reg.pc = self.reg.pc.wrapping_add(n as u16);
        } else {
            self.reg.pc = self.reg.pc.wrapping_sub(256 - n as u16);
        }
    }
}

impl CPU {
    #[verifier::spinoff_prover]
    #[verifier::rlimit(100)]
    fn execute_block0<B: MemoryBus>(&mut self, opcode: u8, mmu: &mut B, cycles: &mut CycleResult)
        requires
            old(mmu).inv(),
            opcode < 0x40,
            !old(cycles).took_conditional,
        ensures
            final(mmu).inv(),
            (*final(self), clocked(*final(mmu), final(cycles).bus_cycles), final(cycles).took_conditional) == exec_block0(
                *old(self),
                opcode,
                clocked(*old(mmu), old(cycles).bus_cycles),
            ),
            final(cycles).cost == old(cycles).cost,
    {
        match opcode {
            0x00 => {} // NOP
            0x01 => {
                let word = self.fetch_word(mmu, cycles);
                self.reg.set_bc(word)
            } // LD BC,imm16
            0x02 => cycle_write(mmu, cycles, self.reg.get_bc(), self.reg.a), // LD (BC),A
            0x03 => self.reg.set_bc(self.reg.get_bc().wrapping_add(1)), // INC BC
            0x04 => self.reg.b = self.inc(self.reg.b), // INC B
            0x05 => self.reg.b = self.dec(self.reg.b), // DEC B
            0x06 => self.reg.b = self.fetch_byte(mmu, cycles), // LD B,imm8
            0x07 => {
                self.reg.a = self.rlc(self.reg.a);
                self.reg.set_flag(ZERO, false);
            } // RLCA
            0x08 => {
                let word = self.fetch_word(mmu, cycles);
                cycle_write_word(mmu, cycles, word, self.reg.sp)
            } // LD (imm16),SP
            0x09 => self.add_hl(self.reg.get_bc()), // ADD HL,BC
            0x0A => self.reg.a = cycle_read(mmu, cycles, self.reg.get_bc()), // LD A,(BC)
            0x0B => self.reg.set_bc(self.reg.get_bc().wrapping_sub(1)), // DEC BC
            0x0C => self.reg.c = self.inc(self.reg.c), // INC C
            0x0D => self.reg.c = self.dec(self.reg.c), // DEC C
            0x0E => self.reg.c = self.fetch_byte(mmu, cycles), // LD C,imm8
            0x0F => {
                self.reg.a = self.rrc(self.reg.a);
                self.reg.set_flag(ZERO, false);
            } // RRCA
            0x10 => self.reg.pc = self.reg.pc.wrapping_add(1), // STOP
            0x11 => {
                let word = self.fetch_word(mmu, cycles);
                self.reg.set_de(word)
            } // LD DE,imm16
            0x12 => cycle_write(mmu, cycles, self.reg.get_de(), self.reg.a), // LD (DE),A
            0x13 => self.reg.set_de(self.reg.get_de().wrapping_add(1)), // INC DE
            0x14 => self.reg.d = self.inc(self.reg.d), // INC D
            0x15 => self.reg.d = self.dec(self.reg.d), // DEC D
            0x16 => self.reg.d = self.fetch_byte(mmu, cycles), // LD D,imm8
            0x17 => {
                self.reg.a = self.rl(self.reg.a);
                self.reg.set_flag(ZERO, false);
            } // RLA
            0x18 => {
                let imm8 = self.fetch_byte(mmu, cycles);
                self.jr(imm8)
            } // JR imm8
            0x19 => self.add_hl(self.reg.get_de()), // ADD HL,DE
            0x1A => self.reg.a = cycle_read(mmu, cycles, self.reg.get_de()), // LD A,(DE)
            0x1B => self.reg.set_de(self.reg.get_de().wrapping_sub(1)), // DEC DE
            0x1C => self.reg.e = self.inc(self.reg.e), // INC E
            0x1D => self.reg.e = self.dec(self.reg.e), // DEC E
            0x1E => self.reg.e = self.fetch_byte(mmu, cycles), // LD E,imm8
            0x1F => {
                self.reg.a = self.rr(self.reg.a);
                self.reg.set_flag(ZERO, false);
            } // RRA
            0x20 => {
                let imm8 = self.fetch_byte(mmu, cycles);
                if !self.reg.get_flag(ZERO) {
                    self.jr(imm8);
                    cycles.take_conditional();
                }
            } // JR NZ,imm8
            0x21 => {
                let word = self.fetch_word(mmu, cycles);
                self.reg.set_hl(word)
            } // LD HL,imm16
            0x22 => cycle_write(mmu, cycles, self.reg.get_hli(), self.reg.a), // LD (HL+),A
            0x23 => self.reg.set_hl(self.reg.get_hl().wrapping_add(1)), // INC HL
            0x24 => self.reg.h = self.inc(self.reg.h), // INC H
            0x25 => self.reg.h = self.dec(self.reg.h), // DEC H
            0x26 => self.reg.h = self.fetch_byte(mmu, cycles), // LD H,imm8
            0x27 => self.daa(), // DAA
            0x28 => {
                let imm8 = self.fetch_byte(mmu, cycles);
                if self.reg.get_flag(ZERO) {
                    self.jr(imm8);
                    cycles.take_conditional();
                }
            } // JR Z,imm8
            0x29 => self.add_hl(self.reg.get_hl()), // ADD HL,HL
            0x2A => self.reg.a = cycle_read(mmu, cycles, self.reg.get_hli()), // LD A,(HL+)
            0x2B => self.reg.set_hl(self.reg.get_hl().wrapping_sub(1)), // DEC HL
            0x2C => self.reg.l = self.inc(self.reg.l), // INC L
            0x2D => self.reg.l = self.dec(self.reg.l), // DEC L
            0x2E => self.reg.l = self.fetch_byte(mmu, cycles), // LD L,imm8
            0x2F => self.cpl(), // CPL
            0x30 => {
                let imm8 = self.fetch_byte(mmu, cycles);
                if !self.reg.get_flag(CARRY) {
                    self.jr(imm8);
                    cycles.take_conditional();
                }
            } // JR NC,imm8
            0x31 => self.reg.sp = self.fetch_word(mmu, cycles), // LD SP,imm16
            0x32 => cycle_write(mmu, cycles, self.reg.get_hld(), self.reg.a), // LD (HL-),A
            0x33 => self.reg.sp = self.reg.sp.wrapping_add(1),          // INC SP
            0x34 => {
                let hl = self.reg.get_hl();
                let value = self.inc(cycle_read(mmu, cycles, hl));
                cycle_write(mmu, cycles, hl, value);
            } // INC (HL)
            0x35 => {
                let hl = self.reg.get_hl();
                let value = self.dec(cycle_read(mmu, cycles, hl));
                cycle_write(mmu, cycles, hl, value);
            } // DEC (HL)
            0x36 => {
                // LD (HL),imm8
                let hl = self.reg.get_hl();
                let imm8 = self.fetch_byte(mmu, cycles);
                cycle_write(mmu, cycles, hl, imm8)
            }
            0x37 => self.scf(), // SCF
            0x38 => {
                let imm8 = self.fetch_byte(mmu, cycles);
                if self.reg.get_flag(CARRY) {
                    self.jr(imm8);
                    cycles.take_conditional();
                }
            } // JR C,imm8
            0x39 => self.add_hl(self.reg.sp),       // ADD HL,SP
            0x3A => self.reg.a = cycle_read(mmu, cycles, self.reg.get_hld()), // LD A,(HL-)
            0x3B => self.reg.sp = self.reg.sp.wrapping_sub(1),          // DEC SP
            0x3C => self.reg.a = self.inc(self.reg.a), // INC A
            0x3D => self.reg.a = self.dec(self.reg.a), // DEC A
            0x3E => self.reg.a = self.fetch_byte(mmu, cycles), // LD A,imm8
            0x3F => self.ccf(), // CCF
            _ => {
                // Undocumented opcodes act as NOPs on the DMG.
            }
        }
    }
    #[verifier::spinoff_prover]
    #[verifier::rlimit(100)]
    fn execute_load_block<B: MemoryBus>(&mut self, opcode: u8, mmu: &mut B, cycles: &mut CycleResult)
        requires
            old(mmu).inv(),
            0x40 <= opcode < 0x80,
            !old(cycles).took_conditional,
        ensures
            final(mmu).inv(),
            (*final(self), clocked(*final(mmu), final(cycles).bus_cycles), final(cycles).took_conditional) == exec_load_block(
                *old(self),
                opcode,
                clocked(*old(mmu), old(cycles).bus_cycles),
            ),
            final(cycles).cost == old(cycles).cost,
    {
        match opcode {
            0x40 => self.reg.b = self.reg.b, // LD B,B
            0x41 => self.reg.b = self.reg.c, // LD B,C
            0x42 => self.reg.b = self.reg.d, // LD B,D
            0x43 => self.reg.b = self.reg.e, // LD B,E
            0x44 => self.reg.b = self.reg.h, // LD B,H
            0x45 => self.reg.b = self.reg.l, // LD B,L
            0x46 => self.reg.b = cycle_read(mmu, cycles, self.reg.get_hl()), // LD B,(HL)
            0x47 => self.reg.b = self.reg.a, // LD B,A
            0x48 => self.reg.c = self.reg.b, // LD C,B
            0x49 => self.reg.c = self.reg.c, // LD C,C
            0x4A => self.reg.c = self.reg.d, // LD C,D
            0x4B => self.reg.c = self.reg.e, // LD C,E
            0x4C => self.reg.c = self.reg.h, // LD C,H
            0x4D => self.reg.c = self.reg.l, // LD C,L
            0x4E => self.reg.c = cycle_read(mmu, cycles, self.reg.get_hl()), // LD C,(HL)
            0x4F => self.reg.c = self.reg.a, // LD C,A
            0x50 => self.reg.d = self.reg.b, // LD D,B
            0x51 => self.reg.d = self.reg.c, // LD D,C
            0x52 => self.reg.d = self.reg.d, // LD D,D
            0x53 => self.reg.d = self.reg.e, // LD D,E
            0x54 => self.reg.d = self.reg.h, // LD D,H
            0x55 => self.reg.d = self.reg.l, // LD D,L
            0x56 => self.reg.d = cycle_read(mmu, cycles, self.reg.get_hl()), // LD D,(HL)
            0x57 => self.reg.d = self.reg.a, // LD D,A
            0x58 => self.reg.e = self.reg.b, // LD E,B
            0x59 => self.reg.e = self.reg.c, // LD E,C
            0x5A => self.reg.e = self.reg.d, // LD E,D
            0x5B => self.reg.e = self.reg.e, // LD E,E
            0x5C => self.reg.e = self.reg.h, // LD E,H
            0x5D => self.reg.e = self.reg.l, // LD E,L
            0x5E => self.reg.e = cycle_read(mmu, cycles, self.reg.get_hl()), // LD E,(HL)
            0x5F => self.reg.e = self.reg.a, // LD E,A
            0x60 => self.reg.h = self.reg.b, // LD H,B
            0x61 => self.reg.h = self.reg.c, // LD H,C
            0x62 => self.reg.h = self.reg.d, // LD H,D
            0x63 => self.reg.h = self.reg.e, // LD H,E
            0x64 => self.reg.h = self.reg.h, // LD H,H
            0x65 => self.reg.h = self.reg.l, // LD H,L
            0x66 => self.reg.h = cycle_read(mmu, cycles, self.reg.get_hl()), // LD H,(HL)
            0x67 => self.reg.h = self.reg.a, // LD H,A
            0x68 => self.reg.l = self.reg.b, // LD L,B
            0x69 => self.reg.l = self.reg.c, // LD L,C
            0x6A => self.reg.l = self.reg.d, // LD L,D
            0x6B => self.reg.l = self.reg.e, // LD L,E
            0x6C => self.reg.l = self.reg.h, // LD L,H
            0x6D => self.reg.l = self.reg.l, // LD L,L
            0x6E => self.reg.l = cycle_read(mmu, cycles, self.reg.get_hl()), // LD L,(HL)
            0x6F => self.reg.l = self.reg.a, // LD L,A
            0x70 => cycle_write(mmu, cycles, self.reg.get_hl(), self.reg.b), // LD (HL),B
            0x71 => cycle_write(mmu, cycles, self.reg.get_hl(), self.reg.c), // LD (HL),C
            0x72 => cycle_write(mmu, cycles, self.reg.get_hl(), self.reg.d), // LD (HL),D
            0x73 => cycle_write(mmu, cycles, self.reg.get_hl(), self.reg.e), // LD (HL),E
            0x74 => cycle_write(mmu, cycles, self.reg.get_hl(), self.reg.h), // LD (HL),H
            0x75 => cycle_write(mmu, cycles, self.reg.get_hl(), self.reg.l), // LD (HL),L
            0x76 => self.halt_state = HaltState::Halted, // HALT
            0x77 => cycle_write(mmu, cycles, self.reg.get_hl(), self.reg.a), // LD (HL),A
            0x78 => self.reg.a = self.reg.b, // LD A,B
            0x79 => self.reg.a = self.reg.c, // LD A,C
            0x7A => self.reg.a = self.reg.d, // LD A,D
            0x7B => self.reg.a = self.reg.e, // LD A,E
            0x7C => self.reg.a = self.reg.h, // LD A,H
            0x7D => self.reg.a = self.reg.l, // LD A,L
            0x7E => self.reg.a = cycle_read(mmu, cycles, self.reg.get_hl()), // LD A,(HL)
            0x7F => { /* LD A,A - no effect */ } // LD A,A
            _ => {
                // Undocumented opcodes act as NOPs on the DMG.
            }
        }
    }
    #[verifier::spinoff_prover]
    #[verifier::rlimit(100)]
    fn execute_alu_block<B: MemoryBus>(&mut self, opcode: u8, mmu: &mut B, cycles: &mut CycleResult)
        requires
            old(mmu).inv(),
            0x80 <= opcode < 0xC0,
            !old(cycles).took_conditional,
        ensures
            final(mmu).inv(),
            (*final(self), clocked(*final(mmu), final(cycles).bus_cycles), final(cycles).took_conditional) == exec_alu_block(
                *old(self),
                opcode,
                clocked(*old(mmu), old(cycles).bus_cycles),
            ),
            final(cycles).cost == old(cycles).cost,
    {
        match opcode {
            0x80 => self.add(self.reg.b), // ADD A,B
            0x81 => self.add(self.reg.c), // ADD A,C
            0x82 => self.add(self.reg.d), // ADD A,D
            0x83 => self.add(self.reg.e), // ADD A,E
            0x84 => self.add(self.reg.h), // ADD A,H
            0x85 => self.add(self.reg.l), // ADD A,L
            0x86 => self.add(cycle_read(mmu, cycles, self.reg.get_hl())), // ADD A,(HL)
            0x87 => self.add(self.reg.a), // ADD A,A
            0x88 => self.adc(self.reg.b), // ADC A,B
            0x89 => self.adc(self.reg.c), // ADC A,C
            0x8A => self.adc(self.reg.d), // ADC A,D
            0x8B => self.adc(self.reg.e), // ADC A,E
            0x8C => self.adc(self.reg.h), // ADC A,H
            0x8D => self.adc(self.reg.l), // ADC A,L
            0x8E => self.adc(cycle_read(mmu, cycles, self.reg.get_hl())), // ADC A,(HL)
            0x8F => self.adc(self.reg.a), // ADC A,A
            0x90 => self.sub(self.reg.b),                       // SUB B
            0x91 => self.sub(self.reg.c),                       // SUB C
            0x92 => self.sub(self.reg.d),                       // SUB D
            0x93 => self.sub(self.reg.e),                       // SUB E
            0x94 => self.sub(self.reg.h),                       // SUB H
            0x95 => self.sub(self.reg.l),                       // SUB L
            0x96 => self.sub(cycle_read(mmu, cycles, self.reg.get_hl())), // SUB (HL)
            0x97 => self.sub(self.reg.a),                       // SUB A
            0x98 => self.sbc(self.reg.b), // SBC A,B
            0x99 => self.sbc(self.reg.c), // SBC A,C
            0x9A => self.sbc(self.reg.d), // SBC A,D
            0x9B => self.sbc(self.reg.e), // SBC A,E
            0x9C => self.sbc(self.reg.h), // SBC A,H
            0x9D => self.sbc(self.reg.l), // SBC A,L
            0x9E => self.sbc(cycle_read(mmu, cycles, self.reg.get_hl())), // SBC A,(HL)
            0x9F => self.sbc(self.reg.a), // SBC A,A
            0xA0 => self.and(self.reg.b),                       // AND B
            0xA1 => self.and(self.reg.c),                       // AND C
            0xA2 => self.and(self.reg.d),                       // AND D
            0xA3 => self.and(self.reg.e),                       // AND E
            0xA4 => self.and(self.reg.h),                       // AND H
            0xA5 => self.and(self.reg.l),                       // AND L
            0xA6 => self.and(cycle_read(mmu, cycles, self.reg.get_hl())), // AND (HL)
            0xA7 => self.and(self.reg.a),                       // AND A
            0xA8 => self.xor(self.reg.b),                       // XOR B
            0xA9 => self.xor(self.reg.c),                       // XOR C
            0xAA => self.xor(self.reg.d),                       // XOR D
            0xAB => self.xor(self.reg.e),                       // XOR E
            0xAC => self.xor(self.reg.h),                       // XOR H
            0xAD => self.xor(self.reg.l),                       // XOR L
            0xAE => self.xor(cycle_read(mmu, cycles, self.reg.get_hl())), // XOR (HL)
            0xAF => self.xor(self.reg.a),                       // XOR A
            0xB0 => self.or(self.reg.b),                       // OR B
            0xB1 => self.or(self.reg.c),                       // OR C
            0xB2 => self.or(self.reg.d),                       // OR D
            0xB3 => self.or(self.reg.e),                       // OR E
            0xB4 => self.or(self.reg.h),                       // OR H
            0xB5 => self.or(self.reg.l),                       // OR L
            0xB6 => self.or(cycle_read(mmu, cycles, self.reg.get_hl())), // OR (HL)
            0xB7 => self.or(self.reg.a),                       // OR A
            0xB8 => self.cp(self.reg.b),                       // CP B
            0xB9 => self.cp(self.reg.c),                       // CP C
            0xBA => self.cp(self.reg.d),                       // CP D
            0xBB => self.cp(self.reg.e),                       // CP E
            0xBC => self.cp(self.reg.h),                       // CP H
            0xBD => self.cp(self.reg.l),                       // CP L
            0xBE => self.cp(cycle_read(mmu, cycles, self.reg.get_hl())), // CP (HL)
            0xBF => self.cp(self.reg.a),                       // CP A
            _ => {
                // Undocumented opcodes act as NOPs on the DMG.
            }
        }
    }
    #[verifier::spinoff_prover]
    #[verifier::rlimit(100)]
    fn execute_block3<B: MemoryBus>(&mut self, opcode: u8, mmu: &mut B, cycles: &mut CycleResult)
        requires
            old(mmu).inv(),
            0xC0 <= opcode && opcode != 0xCB,
            !old(cycles).took_conditional,
        ensures
            final(mmu).inv(),
            (*final(self), clocked(*final(mmu), final(cycles).bus_cycles), final(cycles).took_conditional) == exec_block3(
                *old(self),
                opcode,
                clocked(*old(mmu), old(cycles).bus_cycles),
            ),
            final(cycles).cost == old(cycles).cost,
    {
        match opcode {
            0xC0 => {
                if !self.reg.get_flag(ZERO) {
                    self.reg.pc = self.pop(mmu, cycles);
                    cycles.take_conditional();
                }
            } // RET NZ
            0xC1 => {
                let bc = self.pop(mmu, cycles);
                self.reg.set_bc(bc)
            } // POP BC
            0xC2 => {
                let imm16 = self.fetch_word(mmu, cycles);
                if !self.reg.get_flag(ZERO) {
                    self.reg.pc = imm16;
                    cycles.take_conditional();
                }
            } // JP NZ,imm16
            0xC3 => self.reg.pc = self.fetch_word(mmu, cycles), // JP imm16
            0xC4 => {
                let imm16 = self.fetch_word(mmu, cycles);
                if !self.reg.get_flag(ZERO) {
                    self.call(mmu, cycles, imm16);
                    cycles.take_conditional();
                }
            } // CALL NZ,imm16
            0xC5 => self.push(mmu, cycles, self.reg.get_bc()), // PUSH BC
            0xC6 => {
                let imm8 = self.fetch_byte(mmu, cycles);
                self.add(imm8)
            } // ADD A,imm8
            0xC7 => self.rst(mmu, cycles, 0x00), // RST 00H
            0xC8 => {
                if self.reg.get_flag(ZERO) {
                    self.reg.pc = self.pop(mmu, cycles);
                    cycles.take_conditional();
                }
            } // RET Z
            0xC9 => self.reg.pc = self.pop(mmu, cycles), // RET
            0xCA => {
                let imm16 = self.fetch_word(mmu, cycles);
                if self.reg.get_flag(ZERO) {
                    self.reg.pc = imm16;
                    cycles.take_conditional();
                }
            } // JP Z,imm16
            0xCC => {
                let imm16 = self.fetch_word(mmu, cycles);
                if self.reg.get_flag(ZERO) {
                    self.call(mmu, cycles, imm16);
                    cycles.take_conditional();
                }
            } // CALL Z,imm16
            0xCD => {
                let imm16 = self.fetch_word(mmu, cycles);
                self.call(mmu, cycles, imm16)
            } // CALL imm16
            0xCE => {
                let imm8 = self.fetch_byte(mmu, cycles);
                self.adc(imm8)
            } // ADC A,imm8
            0xCF => self.rst(mmu, cycles, 0x08), // RST 08H
            0xD0 => {
                if !self.reg.get_flag(CARRY) {
                    self.reg.pc = self.pop(mmu, cycles);
                    cycles.take_conditional();
                }
            } // RET NC
            0xD1 => {
                let de = self.pop(mmu, cycles);
                self.reg.set_de(de)
            } // POP DE
            0xD2 => {
                let imm16 = self.fetch_word(mmu, cycles);
                if !self.reg.get_flag(CARRY) {
                    self.reg.pc = imm16;
                    cycles.take_conditional();
                }
            } // JP NC,imm16
            0xD4 => {
                let imm16 = self.fetch_word(mmu, cycles);
                if !self.reg.get_flag(CARRY) {
                    self.call(mmu, cycles, imm16);
                    cycles.take_conditional();
                }
            } // CALL NC,imm16
            0xD5 => self.push(mmu, cycles, self.reg.get_de()), // PUSH DE
            0xD6 => {
                let imm8 = self.fetch_byte(mmu, cycles);
                self.sub(imm8)
            } // SUB A,imm8
            0xD7 => self.rst(mmu, cycles, 0x10), // RST 10H
            0xD8 => {
                if self.reg.get_flag(CARRY) {
                    self.reg.pc = self.pop(mmu, cycles);
                    cycles.take_conditional();
                }
            } // RET C
            0xD9 => {
                self.reg.pc = self.pop(mmu, cycles);
                self.ime = true;
                self.ime_scheduled = None;
            } // RETI
            0xDA => {
                let imm16 = self.fetch_word(mmu, cycles);
                if self.reg.get_flag(CARRY) {
                    self.reg.pc = imm16;
                    cycles.take_conditional();
                }
            } // JP C,imm16
            0xDC => {
                let imm16 = self.fetch_word(mmu, cycles);
                if self.reg.get_flag(CARRY) {
                    self.call(mmu, cycles, imm16);
                    cycles.take_conditional();
                }
            } // CALL C,imm16
            0xDE => {
                let imm8 = self.fetch_byte(mmu, cycles);
                self.sbc(imm8)
            } // SBC A,imm8
            0xDF => self.rst(mmu, cycles, 0x18), // RST 18H
            0xE0 => {
                let imm8 = self.fetch_byte(mmu, cycles);
                cycle_write(mmu, cycles, 0xFF00 + imm8 as u16, self.reg.a)
            } // LDH (imm8),A
            0xE1 => {
                let hl = self.pop(mmu, cycles);
                self.reg.set_hl(hl)
            } // POP HL
            0xE2 => cycle_write(mmu, cycles, 0xFF00 + self.reg.c as u16, self.reg.a), // LDH (C),A
            0xE5 => self.push(mmu, cycles, self.reg.get_hl()), // PUSH HL
            0xE6 => {
                let imm8 = self.fetch_byte(mmu, cycles);
                self.and(imm8)
            } // AND A,imm8
            0xE7 => self.rst(mmu, cycles, 0x20), // RST 20H
            0xE8 => {
                let imm8 = self.fetch_byte(mmu, cycles);
                self.add_sp(imm8)
            } // ADD SP,imm8
            0xE9 => self.reg.pc = self.reg.get_hl(), // JP HL
            0xEA => {
                let imm16 = self.fetch_word(mmu, cycles);
                cycle_write(mmu, cycles, imm16, self.reg.a)
            } // LD (imm16),A
            0xEE => {
                let imm8 = self.fetch_byte(mmu, cycles);
                self.xor(imm8)
            } // XOR A,imm8
            0xEF => self.rst(mmu, cycles, 0x28), // RST 28H
            0xF0 => {
                let imm8 = self.fetch_byte(mmu, cycles);
                self.reg.a = cycle_read(mmu, cycles, 0xFF00 + imm8 as u16)
            } // LDH A,(imm8)
            0xF1 => {
                let af = self.pop(mmu, cycles);
                self.reg.set_af(af)
            } // POP AF
            0xF2 => self.reg.a = cycle_read(mmu, cycles, 0xFF00 + self.reg.c as u16), // LDH A,(C)
            0xF3 => {
                self.ime = false;
                self.ime_scheduled = None;
            } // DI
            0xF5 => self.push(mmu, cycles, self.reg.get_af()), // PUSH AF
            0xF6 => {
                let imm8 = self.fetch_byte(mmu, cycles);
                self.or(imm8)
            } // OR A,imm8
            0xF7 => self.rst(mmu, cycles, 0x30), // RST 30H
            0xF8 => {
                let n = self.fetch_byte(mmu, cycles);
                let result = self.sp_plus_signed(n);
                self.reg.set_hl(result);
            } // LD HL,SP+imm8
            0xF9 => self.reg.sp = self.reg.get_hl(), // LD SP,HL
            0xFA => {
                let imm16 = self.fetch_word(mmu, cycles);
                self.reg.a = cycle_read(mmu, cycles, imm16);
            } // LD A,(imm16)
            0xFB => {
                self.ime_scheduled = Some(1);
            } // EI
            0xFE => {
                let imm8 = self.fetch_byte(mmu, cycles);
                self.cp(imm8)
            } // CP A,imm8
            0xFF => self.rst(mmu, cycles, 0x38), // RST 38H
            _ => {
                // Undocumented opcodes act as NOPs on the DMG.
            }
        }
    }
    #[verifier::spinoff_prover]
    #[verifier::rlimit(100)]
    fn execute_cb_opcode<B: MemoryBus>(&mut self, mmu: &mut B, cycles: &mut CycleResult)
        requires
            old(mmu).inv(),
        ensures
            final(mmu).inv(),
            ({
                let (cb, bus1) = imm8(old(self).reg, clocked(*old(mmu), old(cycles).bus_cycles));
                &&& (*final(self), clocked(*final(mmu), final(cycles).bus_cycles)) == exec_cb(
                    with_reg(*old(self), with_pc(old(self).reg, old(self).reg.pc.wrapping_add(1))),
                    cb,
                    bus1,
                )
                &&& final(cycles).cost == cb_cost(cb)
                &&& !final(cycles).took_conditional
            }),
    {
        let opcode = self.fetch_byte(mmu, cycles);
        cycles.set_cost(cb_cycle_cost(opcode));
        match opcode {
                    0x00 => self.reg.b = self.rlc(self.reg.b), // RLC B
                    0x01 => self.reg.c = self.rlc(self.reg.c), // RLC C
                    0x02 => self.reg.d = self.rlc(self.reg.d), // RLC D
                    0x03 => self.reg.e = self.rlc(self.reg.e), // RLC E
                    0x04 => self.reg.h = self.rlc(self.reg.h), // RLC H
                    0x05 => self.reg.l = self.rlc(self.reg.l), // RLC L
                    0x06 => {
                        let hl = self.reg.get_hl();
                        let value = self.rlc(cycle_read(mmu, cycles, hl));
                        cycle_write(mmu, cycles, hl, value);
                    } // RLC (HL)
                    0x07 => self.reg.a = self.rlc(self.reg.a), // RLC A
                    0x08 => self.reg.b = self.rrc(self.reg.b), // RRC B
                    0x09 => self.reg.c = self.rrc(self.reg.c), // RRC C
                    0x0A => self.reg.d = self.rrc(self.reg.d), // RRC D
                    0x0B => self.reg.e = self.rrc(self.reg.e), // RRC E
                    0x0C => self.reg.h = self.rrc(self.reg.h), // RRC H
                    0x0D => self.reg.l = self.rrc(self.reg.l), // RRC L
                    0x0E => {
                        let hl = self.reg.get_hl();
                        let value = self.rrc(cycle_read(mmu, cycles, hl));
                        cycle_write(mmu, cycles, hl, value);
                    } // RRC (HL)
                    0x0F => self.reg.a = self.rrc(self.reg.a), // RRC A
                    0x10 => self.reg.b = self.rl(self.reg.b), // RL B
                    0x11 => self.reg.c = self.rl(self.reg.c), // RL C
                    0x12 => self.reg.d = self.rl(self.reg.d), // RL D
                    0x13 => self.reg.e = self.rl(self.reg.e), // RL E
                    0x14 => self.reg.h = self.rl(self.reg.h), // RL H
                    0x15 => self.reg.l = self.rl(self.reg.l), // RL L
                    0x16 => {
                        let hl = self.reg.get_hl();
                        let value = self.rl(cycle_read(mmu, cycles, hl));
                        cycle_write(mmu, cycles, hl, value);
                    } // RL (HL)
                    0x17 => self.reg.a = self.rl(self.reg.a), // RL A
                    0x18 => self.reg.b = self.rr(self.reg.b), // RR B
                    0x19 => self.reg.c = self.rr(self.reg.c), // RR C
                    0x1A => self.reg.d = self.rr(self.reg.d), // RR D
                    0x1B => self.reg.e = self.rr(self.reg.e), // RR E
                    0x1C => self.reg.h = self.rr(self.reg.h), // RR H
                    0x1D => self.reg.l = self.rr(self.reg.l), // RR L
                    0x1E => {
                        let hl = self.reg.get_hl();
                        let value = self.rr(cycle_read(mmu, cycles, hl));
                        cycle_write(mmu, cycles, hl, value);
                    } // RR (HL)
                    0x1F => self.reg.a = self.rr(self.reg.a), // RR A
                    0x20 => self.reg.b = self.sla(self.reg.b), // SLA B
                    0x21 => self.reg.c = self.sla(self.reg.c), // SLA C
                    0x22 => self.reg.d = self.sla(self.reg.d), // SLA D
                    0x23 => self.reg.e = self.sla(self.reg.e), // SLA E
                    0x24 => self.reg.h = self.sla(self.reg.h), // SLA H
                    0x25 => self.reg.l = self.sla(self.reg.l), // SLA L
                    0x26 => {
                        let hl = self.reg.get_hl();
                        let value = self.sla(cycle_read(mmu, cycles, hl));
                        cycle_write(mmu, cycles, hl, value);
                    } // SLA (HL)
                    0x27 => self.reg.a = self.sla(self.reg.a), // SLA A
                    0x28 => self.reg.b = self.sra(self.reg.b), // SRA B
                    0x29 => self.reg.c = self.sra(self.reg.c), // SRA C
                    0x2A => self.reg.d = self.sra(self.reg.d), // SRA D
                    0x2B => self.reg.e = self.sra(self.reg.e), // SRA E
                    0x2C => self.reg.h = self.sra(self.reg.h), // SRA H
                    0x2D => self.reg.l = self.sra(self.reg.l), // SRA L
                    0x2E => {
                        let hl = self.reg.get_hl();
                        let value = self.sra(cycle_read(mmu, cycles, hl));
                        cycle_write(mmu, cycles, hl, value);
                    } // SRA (HL)
                    0x2F => self.reg.a = self.sra(self.reg.a), // SRA A
                    0x30 => self.reg.b = self.swap(self.reg.b), // SWAP B
                    0x31 => self.reg.c = self.swap(self.reg.c), // SWAP C
                    0x32 => self.reg.d = self.swap(self.reg.d), // SWAP D
                    0x33 => self.reg.e = self.swap(self.reg.e), // SWAP E
                    0x34 => self.reg.h = self.swap(self.reg.h), // SWAP H
                    0x35 => self.reg.l = self.swap(self.reg.l), // SWAP L
                    0x36 => {
                        let hl = self.reg.get_hl();
                        let value = self.swap(cycle_read(mmu, cycles, hl));
                        cycle_write(mmu, cycles, hl, value);
                    } // SWAP (HL)
                    0x37 => self.reg.a = self.swap(self.reg.a), // SWAP A
                    0x38 => self.reg.b = self.srl(self.reg.b), // SRL B
                    0x39 => self.reg.c = self.srl(self.reg.c), // SRL C
                    0x3A => self.reg.d = self.srl(self.reg.d), // SRL D
                    0x3B => self.reg.e = self.srl(self.reg.e), // SRL E
                    0x3C => self.reg.h = self.srl(self.reg.h), // SRL H
                    0x3D => self.reg.l = self.srl(self.reg.l), // SRL L
                    0x3E => {
                        let hl = self.reg.get_hl();
                        let value = self.srl(cycle_read(mmu, cycles, hl));
                        cycle_write(mmu, cycles, hl, value);
                    } // SRL (HL)
                    0x3F => self.reg.a = self.srl(self.reg.a), // SRL A
                    0x40 => self.bit(0, self.reg.b), // BIT 0,B
                    0x41 => self.bit(0, self.reg.c), // BIT 0,C
                    0x42 => self.bit(0, self.reg.d), // BIT 0,D
                    0x43 => self.bit(0, self.reg.e), // BIT 0,E
                    0x44 => self.bit(0, self.reg.h), // BIT 0,H
                    0x45 => self.bit(0, self.reg.l), // BIT 0,L
                    0x46 => self.bit(0, cycle_read(mmu, cycles, self.reg.get_hl())), // BIT 0,(HL)
                    0x47 => self.bit(0, self.reg.a), // BIT 0,A
                    0x48 => self.bit(1, self.reg.b), // BIT 1,B
                    0x49 => self.bit(1, self.reg.c), // BIT 1,C
                    0x4A => self.bit(1, self.reg.d), // BIT 1,D
                    0x4B => self.bit(1, self.reg.e), // BIT 1,E
                    0x4C => self.bit(1, self.reg.h), // BIT 1,H
                    0x4D => self.bit(1, self.reg.l), // BIT 1,L
                    0x4E => self.bit(1, cycle_read(mmu, cycles, self.reg.get_hl())), // BIT 1,(HL)
                    0x4F => self.bit(1, self.reg.a), // BIT 1,A
                    0x50 => self.bit(2, self.reg.b), // BIT 2,B
                    0x51 => self.bit(2, self.reg.c), // BIT 2,C
                    0x52 => self.bit(2, self.reg.d), // BIT 2,D
                    0x53 => self.bit(2, self.reg.e), // BIT 2,E
                    0x54 => self.bit(2, self.reg.h), // BIT 2,H
                    0x55 => self.bit(2, self.reg.l), // BIT 2,L
                    0x56 => self.bit(2, cycle_read(mmu, cycles, self.reg.get_hl())), // BIT 2,(HL)
                    0x57 => self.bit(2, self.reg.a), // BIT 2,A
                    0x58 => self.bit(3, self.reg.b), // BIT 3,B
                    0x59 => self.bit(3, self.reg.c), // BIT 3,C
                    0x5A => self.bit(3, self.reg.d), // BIT 3,D
                    0x5B => self.bit(3, self.reg.e), // BIT 3,E
                    0x5C => self.bit(3, self.reg.h), // BIT 3,H
                    0x5D => self.bit(3, self.reg.l), // BIT 3,L
                    0x5E => self.bit(3, cycle_read(mmu, cycles, self.reg.get_hl())), // BIT 3,(HL)
                    0x5F => self.bit(3, self.reg.a), // BIT 3,A
                    0x60 => self.bit(4, self.reg.b), // BIT 4,B
                    0x61 => self.bit(4, self.reg.c), // BIT 4,C
                    0x62 => self.bit(4, self.reg.d), // BIT 4,D
                    0x63 => self.bit(4, self.reg.e), // BIT 4,E
                    0x64 => self.bit(4, self.reg.h), // BIT 4,H
                    0x65 => self.bit(4, self.reg.l), // BIT 4,L
                    0x66 => self.bit(4, cycle_read(mmu, cycles, self.reg.get_hl())), // BIT 4,(HL)
                    0x67 => self.bit(4, self.reg.a), // BIT 4,A
                    0x68 => self.bit(5, self.reg.b), // BIT 5,B
                    0x69 => self.bit(5, self.reg.c), // BIT 5,C
                    0x6A => self.bit(5, self.reg.d), // BIT 5,D
                    0x6B => self.bit(5, self.reg.e), // BIT 5,E
                    0x6C => self.bit(5, self.reg.h), // BIT 5,H
                    0x6D => self.bit(5, self.reg.l), // BIT 5,L
                    0x6E => self.bit(5, cycle_read(mmu, cycles, self.reg.get_hl())), // BIT 5,(HL)
                    0x6F => self.bit(5, self.reg.a), // BIT 5,A
                    0x70 => self.bit(6, self.reg.b), // BIT 6,B
                    0x71 => self.bit(6, self.reg.c), // BIT 6,C
                    0x72 => self.bit(6, self.reg.d), // BIT 6,D
                    0x73 => self.bit(6, self.reg.e), // BIT 6,E
                    0x74 => self.bit(6, self.reg.h), // BIT 6,H
                    0x75 => self.bit(6, self.reg.l), // BIT 6,L
                    0x76 => self.bit(6, cycle_read(mmu, cycles, self.reg.get_hl())), // BIT 6,(HL)
                    0x77 => self.bit(6, self.reg.a), // BIT 6,A
                    0x78 => self.bit(7, self.reg.b), // BIT 7,B
                    0x79 => self.bit(7, self.reg.c), // BIT 7,C
                    0x7A => self.bit(7, self.reg.d), // BIT 7,D
                    0x7B => self.bit(7, self.reg.e), // BIT 7,E
                    0x7C => self.bit(7, self.reg.h), // BIT 7,H
                    0x7D => self.bit(7, self.reg.l), // BIT 7,L
                    0x7E => self.bit(7, cycle_read(mmu, cycles, self.reg.get_hl())), // BIT 7,(HL)
                    0x7F => self.bit(7, self.reg.a), // BIT 7,A
                    0x80 => self.reg.b = self.res(0, self.reg.b), // RES 0,B
                    0x81 => self.reg.c = self.res(0, self.reg.c), // RES 0,C
                    0x82 => self.reg.d = self.res(0, self.reg.d), // RES 0,D
                    0x83 => self.reg.e = self.res(0, self.reg.e), // RES 0,E
                    0x84 => self.reg.h = self.res(0, self.reg.h), // RES 0,H
                    0x85 => self.reg.l = self.res(0, self.reg.l), // RES 0,L
                    0x86 => {
                        let hl = self.reg.get_hl();
                        let value = self.res(0, cycle_read(mmu, cycles, hl));
                        cycle_write(mmu, cycles, hl, value);
                    } // RES 0,(HL)
                    0x87 => self.reg.a = self.res(0, self.reg.a), // RES 0,A
                    0x88 => self.reg.b = self.res(1, self.reg.b), // RES 1,B
                    0x89 => self.reg.c = self.res(1, self.reg.c), // RES 1,C
                    0x8A => self.reg.d = self.res(1, self.reg.d), // RES 1,D
                    0x8B => self.reg.e = self.res(1, self.reg.e), // RES 1,E
                    0x8C => self.reg.h = self.res(1, self.reg.h), // RES 1,H
                    0x8D => self.reg.l = self.res(1, self.reg.l), // RES 1,L
                    0x8E => {
                        let hl = self.reg.get_hl();
                        let value = self.res(1, cycle_read(mmu, cycles, hl));
                        cycle_write(mmu, cycles, hl, value);
                    } // RES 1,(HL)
                    0x8F => self.reg.a = self.res(1, self.reg.a), // RES 1,A
                    0x90 => self.reg.b = self.res(2, self.reg.b), // RES 2,B
                    0x91 => self.reg.c = self.res(2, self.reg.c), // RES 2,C
                    0x92 => self.reg.d = self.res(2, self.reg.d), // RES 2,D
                    0x93 => self.reg.e = self.res(2, self.reg.e), // RES 2,E
                    0x94 => self.reg.h = self.res(2, self.reg.h), // RES 2,H
                    0x95 => self.reg.l = self.res(2, self.reg.l), // RES 2,L
                    0x96 => {
                        let hl = self.reg.get_hl();
                        let value = self.res(2, cycle_read(mmu, cycles, hl));
                        cycle_write(mmu, cycles, hl, value);
                    } // RES 2,(HL)
                    0x97 => self.reg.a = self.res(2, self.reg.a), // RES 2,A
                    0x98 => self.reg.b = self.res(3, self.reg.b), // RES 3,B
                    0x99 => self.reg.c = self.res(3, self.reg.c), // RES 3,C
                    0x9A => self.reg.d = self.res(3, self.reg.d), // RES 3,D
                    0x9B => self.reg.e = self.res(3, self.reg.e), // RES 3,E
                    0x9C => self.reg.h = self.res(3, self.reg.h), // RES 3,H
                    0x9D => self.reg.l = self.res(3, self.reg.l), // RES 3,L
                    0x9E => {
                        let hl = self.reg.get_hl();
                        let value = self.res(3, cycle_read(mmu, cycles, hl));
                        cycle_write(mmu, cycles, hl, value);
                    } // RES 3,(HL)
                    0x9F => self.reg.a = self.res(3, self.reg.a), // RES 3,A
                    0xA0 => self.reg.b = self.res(4, self.reg.b), // RES 4,B
                    0xA1 => self.reg.c = self.res(4, self.reg.c), // RES 4,C
                    0xA2 => self.reg.d = self.res(4, self.reg.d), // RES 4,D
                    0xA3 => self.reg.e = self.res(4, self.reg.e), // RES 4,E
                    0xA4 => self.reg.h = self.res(4, self.reg.h), // RES 4,H
                    0xA5 => self.reg.l = self.res(4, self.reg.l), // RES 4,L
                    0xA6 => {
                        let hl = self.reg.get_hl();
                        let value = self.res(4, cycle_read(mmu, cycles, hl));
                        cycle_write(mmu, cycles, hl, value);
                    } // RES 4,(HL)
                    0xA7 => self.reg.a = self.res(4, self.reg.a), // RES 4,A
                    0xA8 => self.reg.b = self.res(5, self.reg.b), // RES 5,B
                    0xA9 => self.reg.c = self.res(5, self.reg.c), // RES 5,C
                    0xAA => self.reg.d = self.res(5, self.reg.d), // RES 5,D
                    0xAB => self.reg.e = self.res(5, self.reg.e), // RES 5,E
                    0xAC => self.reg.h = self.res(5, self.reg.h), // RES 5,H
                    0xAD => self.reg.l = self.res(5, self.reg.l), // RES 5,L
                    0xAE => {
                        let hl = self.reg.get_hl();
                        let value = self.res(5, cycle_read(mmu, cycles, hl));
                        cycle_write(mmu, cycles, hl, value);
                    } // RES 5,(HL)
                    0xAF => self.reg.a = self.res(5, self.reg.a), // RES 5,A
                    0xB0 => self.reg.b = self.res(6, self.reg.b), // RES 6,B
                    0xB1 => self.reg.c = self.res(6, self.reg.c), // RES 6,C
                    0xB2 => self.reg.d = self.res(6, self.reg.d), // RES 6,D
                    0xB3 => self.reg.e = self.res(6, self.reg.e), // RES 6,E
                    0xB4 => self.reg.h = self.res(6, self.reg.h), // RES 6,H
                    0xB5 => self.reg.l = self.res(6, self.reg.l), // RES 6,L
                    0xB6 => {
                        let hl = self.reg.get_hl();
                        let value = self.res(6, cycle_read(mmu, cycles, hl));
                        cycle_write(mmu, cycles, hl, value);
                    } // RES 6,(HL)
                    0xB7 => self.reg.a = self.res(6, self.reg.a), // RES 6,A
                    0xB8 => self.reg.b = self.res(7, self.reg.b), // RES 7,B
                    0xB9 => self.reg.c = self.res(7, self.reg.c), // RES 7,C
                    0xBA => self.reg.d = self.res(7, self.reg.d), // RES 7,D
                    0xBB => self.reg.e = self.res(7, self.reg.e), // RES 7,E
                    0xBC => self.reg.h = self.res(7, self.reg.h), // RES 7,H
                    0xBD => self.reg.l = self.res(7, self.reg.l), // RES 7,L
                    0xBE => {
                        let hl = self.reg.get_hl();
                        let value = self.res(7, cycle_read(mmu, cycles, hl));
                        cycle_write(mmu, cycles, hl, value);
                    } // RES 7,(HL)
                    0xBF => self.reg.a = self.res(7, self.reg.a), // RES 7,A
                    0xC0 => self.reg.b = self.set(0, self.reg.b), // SET 0,B
                    0xC1 => self.reg.c = self.set(0, self.reg.c), // SET 0,C
                    0xC2 => self.reg.d = self.set(0, self.reg.d), // SET 0,D
                    0xC3 => self.reg.e = self.set(0, self.reg.e), // SET 0,E
                    0xC4 => self.reg.h = self.set(0, self.reg.h), // SET 0,H
                    0xC5 => self.reg.l = self.set(0, self.reg.l), // SET 0,L
                    0xC6 => {
                        let hl = self.reg.get_hl();
                        let value = self.set(0, cycle_read(mmu, cycles, hl));
                        cycle_write(mmu, cycles, hl, value);
                    } // SET 0,(HL)
                    0xC7 => self.reg.a = self.set(0, self.reg.a), // SET 0,A
                    0xC8 => self.reg.b = self.set(1, self.reg.b), // SET 1,B
                    0xC9 => self.reg.c = self.set(1, self.reg.c), // SET 1,C
                    0xCA => self.reg.d = self.set(1, self.reg.d), // SET 1,D
                    0xCB => self.reg.e = self.set(1, self.reg.e), // SET 1,E
                    0xCC => self.reg.h = self.set(1, self.reg.h), // SET 1,H
                    0xCD => self.reg.l = self.set(1, self.reg.l), // SET 1,L
                    0xCE => {
                        let hl = self.reg.get_hl();
                        let value = self.set(1, cycle_read(mmu, cycles, hl));
                        cycle_write(mmu, cycles, hl, value);
                    } // SET 1,(HL)
                    0xCF => self.reg.a = self.set(1, self.reg.a), // SET 1,A
                    0xD0 => self.reg.b = self.set(2, self.reg.b), // SET 2,B
                    0xD1 => self.reg.c = self.set(2, self.reg.c), // SET 2,C
                    0xD2 => self.reg.d = self.set(2, self.reg.d), // SET 2,D
                    0xD3 => self.reg.e = self.set(2, self.reg.e), // SET 2,E
                    0xD4 => self.reg.h = self.set(2, self.reg.h), // SET 2,H
                    0xD5 => self.reg.l = self.set(2, self.reg.l), // SET 2,L
                    0xD6 => {
                        let hl = self.reg.get_hl();
                        let value = self.set(2, cycle_read(mmu, cycles, hl));
                        cycle_write(mmu, cycles, hl, value);
                    } // SET 2,(HL)
                    0xD7 => self.reg.a = self.set(2, self.reg.a), // SET 2,A
                    0xD8 => self.reg.b = self.set(3, self.reg.b), // SET 3,B
                    0xD9 => self.reg.c = self.set(3, self.reg.c), // SET 3,C
                    0xDA => self.reg.d = self.set(3, self.reg.d), // SET 3,D
                    0xDB => self.reg.e = self.set(3, self.reg.e), // SET 3,E
                    0xDC => self.reg.h = self.set(3, self.reg.h), // SET 3,H
                    0xDD => self.reg.l = self.set(3, self.reg.l), // SET 3,L
                    0xDE => {
                        let hl = self.reg.get_hl();
                        let value = self.set(3, cycle_read(mmu, cycles, hl));
                        cycle_write(mmu, cycles, hl, value);
                    } // SET 3,(HL)
                    0xDF => self.reg.a = self.set(3, self.reg.a), // SET 3,A
                    0xE0 => self.reg.b = self.set(4, self.reg.b), // SET 4,B
                    0xE1 => self.reg.c = self.set(4, self.reg.c), // SET 4,C
                    0xE2 => self.reg.d = self.set(4, self.reg.d), // SET 4,D
                    0xE3 => self.reg.e = self.set(4, self.reg.e), // SET 4,E
                    0xE4 => self.reg.h = self.set(4, self.reg.h), // SET 4,H
                    0xE5 => self.reg.l = self.set(4, self.reg.l), // SET 4,L
                    0xE6 => {
                        let hl = self.reg.get_hl();
                        let value = self.set(4, cycle_read(mmu, cycles, hl));
                        cycle_write(mmu, cycles, hl, value);
                    } // SET 4,(HL)
                    0xE7 => self.reg.a = self.set(4, self.reg.a), // SET 4,A
                    0xE8 => self.reg.b = self.set(5, self.reg.b), // SET 5,B
                    0xE9 => self.reg.c = self.set(5, self.reg.c), // SET 5,C
                    0xEA => self.reg.d = self.set(5, self.reg.d), // SET 5,D
                    0xEB => self.reg.e = self.set(5, self.reg.e), // SET 5,E
                    0xEC => self.reg.h = self.set(5, self.reg.h), // SET 5,H
                    0xED => self.reg.l = self.set(5, self.reg.l), // SET 5,L
                    0xEE => {
                        let hl = self.reg.get_hl();
                        let value = self.set(5, cycle_read(mmu, cycles, hl));
                        cycle_write(mmu, cycles, hl, value);
                    } // SET 5,(HL)
                    0xEF => self.reg.a = self.set(5, self.reg.a), // SET 5,A
                    0xF0 => self.reg.b = self.set(6, self.reg.b), // SET 6,B
                    0xF1 => self.reg.c = self.set(6, self.reg.c), // SET 6,C
                    0xF2 => self.reg.d = self.set(6, self.reg.d), // SET 6,D
                    0xF3 => self.reg.e = self.set(6, self.reg.e), // SET 6,E
                    0xF4 => self.reg.h = self.set(6, self.reg.h), // SET 6,H
                    0xF5 => self.reg.l = self.set(6, self.reg.l), // SET 6,L
                    0xF6 => {
                        let hl = self.reg.get_hl();
                        let value = self.set(6, cycle_read(mmu, cycles, hl));
                        cycle_write(mmu, cycles, hl, value);
                    } // SET 6,(HL)
                    0xF7 => self.reg.a = self.set(6, self.reg.a), // SET 6,A
                    0xF8 => self.reg.b = self.set(7, self.reg.b), // SET 7,B
                    0xF9 => self.reg.c = self.set(7, self.reg.c), // SET 7,C
                    0xFA => self.reg.d = self.set(7, self.reg.d), // SET 7,D
                    0xFB => self.reg.e = self.set(7, self.reg.e), // SET 7,E
                    0xFC => self.reg.h = self.set(7, self.reg.h), // SET 7,H
                    0xFD => self.reg.l = self.set(7, self.reg.l), // SET 7,L
                    0xFE => {
                        let hl = self.reg.get_hl();
                        let value = self.set(7, cycle_read(mmu, cycles, hl));
                        cycle_write(mmu, cycles, hl, value);
                    } // SET 7,(HL)
                    0xFF => self.reg.a = self.set(7, self.reg.a), // SET 7,A
        }
    }
}

impl CPU {
    /// Execute one instruction.  Each bus access of the instruction is one
    /// machine cycle, after which the clocked hardware advances by one
    /// machine cycle; the instruction's remaining machine cycles (internal
    /// delays) follow its last access.  Returns the T-cycles consumed.
    pub fn step<B: MemoryBus>(&mut self, mmu: &mut B) -> (cycles: u8)
        requires
            old(mmu).inv(),
        ensures
            final(mmu).inv(),
            (*final(self), *final(mmu), cycles) == step_spec(*old(self), *old(mmu)),
    {
        if let Some(cycles) = self.step_halt_state(mmu) {
            self.clock.record(cycles);
            self.advance_ime_schedule();
            tick_n(mmu, cycles / 4);
            return cycles;
        }
        let mut cycles = CycleResult::new(CycleCost::fixed(4));
        let opcode = self.fetch_byte(mmu, &mut cycles);
        self.execute_opcode(opcode, mmu, &mut cycles);
        let total = cycles.total();
        self.clock.record(total);
        self.advance_ime_schedule();
        settle(mmu, cycles.bus_cycles, total / 4);
        total
    }

    fn execute_opcode<B: MemoryBus>(&mut self, opcode: u8, mmu: &mut B, cycles: &mut CycleResult)
        requires
            old(mmu).inv(),
            !old(cycles).took_conditional,
        ensures
            final(mmu).inv(),
            (*final(self), clocked(*final(mmu), final(cycles).bus_cycles), final(cycles).total_spec()) == exec_instruction(
                *old(self),
                opcode,
                clocked(*old(mmu), old(cycles).bus_cycles),
            ),
    {
        cycles.set_cost(cycle_cost(opcode));
        self.execute_main_opcode(opcode, mmu, cycles);
    }

    fn execute_main_opcode<B: MemoryBus>(&mut self, opcode: u8, mmu: &mut B, cycles: &mut CycleResult)
        requires
            old(mmu).inv(),
            old(cycles).cost == main_cost(opcode),
            !old(cycles).took_conditional,
        ensures
            final(mmu).inv(),
            (*final(self), clocked(*final(mmu), final(cycles).bus_cycles), final(cycles).total_spec()) == exec_instruction(
                *old(self),
                opcode,
                clocked(*old(mmu), old(cycles).bus_cycles),
            ),
    {
        if opcode == 0xCB {
            self.execute_cb_opcode(mmu, cycles);
        } else if opcode < 0x40 {
            self.execute_block0(opcode, mmu, cycles);
        } else if opcode < 0x80 {
            self.execute_load_block(opcode, mmu, cycles);
        } else if opcode < 0xC0 {
            self.execute_alu_block(opcode, mmu, cycles);
        } else {
            self.execute_block3(opcode, mmu, cycles);
        }
    }

    /// `Some(4)` while halted with no interrupt pending; a pending interrupt
    /// (IE & IF & 0x1F != 0; bits 5-7 have no interrupt source) wakes the CPU.
    fn step_halt_state<B: MemoryBus>(&mut self, mmu: &mut B) -> (r: Option<u8>)
        requires
            old(mmu).inv(),
        ensures
            final(mmu).inv(),
            old(self).halt_state == HaltState::Running ==> r is None && *final(self) == *old(self) && *final(mmu) == *old(mmu),
            old(self).halt_state == HaltState::Halted ==> ({
                let ie = old(mmu).peek(0xFFFF);
                let bus_ie = old(mmu).read_effect(0xFFFF);
                let iflag = bus_ie.peek(0xFF0F);
                &&& *final(mmu) == bus_ie.read_effect(0xFF0F)
                &&& (ie & iflag & 0x1F == 0 ==> r == Some(4u8) && *final(self) == *old(self))
                &&& (ie & iflag & 0x1F != 0 ==> r is None && *final(self) == CPU { halt_state: HaltState::Running, ..*old(self) })
            }),
    {
        if self.halt_state == HaltState::Running {
            return None;
        }

        if self.interrupts_pending(mmu) {
            self.halt_state = HaltState::Running;
            None
        } else {
            Some(4)
        }
    }

    fn interrupts_pending<B: MemoryBus>(&self, mmu: &mut B) -> (p: bool)
        requires
            old(mmu).inv(),
        ensures
            final(mmu).inv(),
            p == (old(mmu).peek(0xFFFF) & old(mmu).read_effect(0xFFFF).peek(0xFF0F) & 0x1F != 0),
            *final(mmu) == old(mmu).read_effect(0xFFFF).read_effect(0xFF0F),
    {
        self.pending_interrupt_mask(mmu) != 0
    }

    fn pending_interrupt_mask<B: MemoryBus>(&self, mmu: &mut B) -> (m: u8)
        requires
            old(mmu).inv(),
        ensures
            final(mmu).inv(),
            m == old(mmu).peek(0xFFFF) & old(mmu).read_effect(0xFFFF).peek(0xFF0F) & 0x1F,
            *final(mmu) == old(mmu).read_effect(0xFFFF).read_effect(0xFF0F),
    {
        let ie = mmu.read_byte(0xFFFF);
        let iflag = mmu.read_byte(0xFF0F);
        ie & iflag & 0x1F
    }

    fn advance_ime_schedule(&mut self)
        ensures
            *final(self) == ime_advanced(*old(self)),
    {
        if let Some(remaining) = self.ime_scheduled {
            if remaining == 0 {
                self.ime = true;
                self.ime_scheduled = None;
            } else {
                self.ime_scheduled = Some(remaining - 1);
            }
        }
    }

    /// Dispatch the highest-priority pending interrupt: clear its IF bit,
    /// wait two machine cycles, push PC (one machine cycle per byte) and
    /// jump to its vector in the fifth.
    /// Returns `Some(20)` when an interrupt was dispatched.
    #[verifier::loop_isolation(false)]
    pub fn service_interrupts<B: MemoryBus>(&mut self, mmu: &mut B) -> (r: Option<u8>)
        requires
            old(mmu).inv(),
        ensures
            final(mmu).inv(),
            (*final(self), *final(mmu), r) == service_spec(*old(self), *old(mmu)),
    {
        let ie = mmu.read_byte(0xFFFF);
        let mut iflag = mmu.read_byte(0xFF0F);
        // Bits 5-7 of IE and IF have no interrupt source.
        let pending = ie & iflag & 0x1F;

        if pending == 0 {
            return None;
        }

        if !self.ime {
            // A pending interrupt wakes HALT even if IME is disabled.
            self.halt_state = HaltState::Running;
            return None;
        }

        self.halt_state = HaltState::Running;
        self.ime = false;
        self.ime_scheduled = None;

        let ghost cpu_before = *self;
        let ghost bus_before = *mmu;
        let ghost iflag_before = iflag;
        let mut i: u8 = 0;
        while i < 5
            invariant
                i <= 5,
                *self == cpu_before,
                *mmu == bus_before,
                iflag == iflag_before,
                pending == ie & old(mmu).read_effect(0xFFFF).peek(0xFF0F) & 0x1F,
                pending != 0,
                i > 0 ==> pending & 1 == 0,
                i > 1 ==> pending & 2 == 0,
                i > 2 ==> pending & 4 == 0,
                i > 3 ==> pending & 8 == 0,
                i > 4 ==> pending & 16 == 0,
            decreases 5 - i,
        {
            let mask: u8 = 1u8 << i;
            proof {
                lemma_interrupt_masks();
                if i == 0 {
                    assert(mask == 1);
                } else if i == 1 {
                    assert(mask == 2);
                } else if i == 2 {
                    assert(mask == 4);
                } else if i == 3 {
                    assert(mask == 8);
                } else {
                    assert(mask == 16);
                }
            }
            if pending & mask != 0 {
                assert(lowest_pending(pending) == i);
                iflag = iflag & !mask;
                mmu.write_byte(0xFF0F, iflag);
                tick_n(mmu, 2);
                let mut dispatch = CycleResult::new(CycleCost::fixed(20));
                self.push(mmu, &mut dispatch, self.reg.pc);
                self.reg.pc = 0x40 + 8 * (i as u16);
                settle(mmu, dispatch.bus_cycles, 3);
                return Some(20);
            }
            i = i + 1;
        }

        None
    }
}

/// Read a byte as one machine cycle of the instruction being executed: the
/// clocked hardware advances one machine cycle after the read.
fn cycle_read<B: MemoryBus>(mmu: &mut B, cycles: &mut CycleResult, address: u16) -> (value: u8)
    requires
        old(mmu).inv(),
    ensures
        final(mmu).inv(),
        value == old(mmu).peek(address),
        clocked(*final(mmu), final(cycles).bus_cycles) == clocked(*old(mmu), old(cycles).bus_cycles).read_effect(address),
        final(cycles).cost == old(cycles).cost,
        final(cycles).took_conditional == old(cycles).took_conditional,
{
    let value = mmu.read_byte(address);
    mmu.tick_m_cycle();
    cycles.bus_cycles = cycles.bus_cycles.wrapping_add(1);
    value
}

/// Write a byte as one machine cycle of the instruction being executed.
fn cycle_write<B: MemoryBus>(mmu: &mut B, cycles: &mut CycleResult, address: u16, value: u8)
    requires
        old(mmu).inv(),
    ensures
        final(mmu).inv(),
        clocked(*final(mmu), final(cycles).bus_cycles) == clocked(*old(mmu), old(cycles).bus_cycles).poke(address, value),
        final(cycles).cost == old(cycles).cost,
        final(cycles).took_conditional == old(cycles).took_conditional,
{
    mmu.write_byte(address, value);
    mmu.tick_m_cycle();
    cycles.bus_cycles = cycles.bus_cycles.wrapping_add(1);
}

/// Little-endian word read as two machine cycles, low byte first.
fn cycle_read_word<B: MemoryBus>(mmu: &mut B, cycles: &mut CycleResult, address: u16) -> (value: u16)
    requires
        old(mmu).inv(),
    ensures
        final(mmu).inv(),
        value == word_read_value(clocked(*old(mmu), old(cycles).bus_cycles), address),
        clocked(*final(mmu), final(cycles).bus_cycles) == clocked(*old(mmu), old(cycles).bus_cycles).read_effect(address).read_effect(address.wrapping_add(1)),
        final(cycles).cost == old(cycles).cost,
        final(cycles).took_conditional == old(cycles).took_conditional,
{
    let lo = cycle_read(mmu, cycles, address);
    let hi = cycle_read(mmu, cycles, address.wrapping_add(1));
    hi as u16 * 256 + lo as u16
}

/// Little-endian word write as two machine cycles, low byte first.
fn cycle_write_word<B: MemoryBus>(mmu: &mut B, cycles: &mut CycleResult, address: u16, value: u16)
    requires
        old(mmu).inv(),
    ensures
        final(mmu).inv(),
        clocked(*final(mmu), final(cycles).bus_cycles) == word_written(clocked(*old(mmu), old(cycles).bus_cycles), address, value),
        final(cycles).cost == old(cycles).cost,
        final(cycles).took_conditional == old(cycles).took_conditional,
{
    cycle_write(mmu, cycles, address, (value % 256) as u8);
    cycle_write(mmu, cycles, address.wrapping_add(1), (value / 256) as u8);
}

/// Finish an instruction of `m` machine cycles that spent `spent` of them
/// on bus accesses: the hardware advances by the remaining ones.
fn settle<B: MemoryBus>(mmu: &mut B, spent: u8, m: u8)
    requires
        old(mmu).inv(),
    ensures
        final(mmu).inv(),
        *final(mmu) == settled(clocked(*old(mmu), spent), m as nat),
{
    if spent < m {
        tick_n(mmu, m - spent);
    }
}

proof fn lemma_interrupt_masks()
    by (bit_vector)
    ensures
        1u8 << 0u8 == 1u8,
        1u8 << 1u8 == 2u8,
        1u8 << 2u8 == 4u8,
        1u8 << 3u8 == 8u8,
        1u8 << 4u8 == 16u8,
{
}

} // verus!
