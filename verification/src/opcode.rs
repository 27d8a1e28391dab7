//! Opcode cycle costs for the SM83 CPU (timings from the gbdev opcode tables).
use vstd::prelude::*;

verus! {

/// Base T-cycle cost of each unprefixed opcode 0x00..=0xFF (the cost when a
/// conditional branch is not taken).  Undocumented opcodes act as NOPs and
/// cost 4, as a NOP does.
pub const MAIN_BASE_CYCLES: [u8; 256] = [
    4, 12, 8, 8, 4, 4, 8, 4, 20, 8, 8, 8, 4, 4, 8, 4,
    4, 12, 8, 8, 4, 4, 8, 4, 12, 8, 8, 8, 4, 4, 8, 4,
    8, 12, 8, 8, 4, 4, 8, 4, 8, 8, 8, 8, 4, 4, 8, 4,
    8, 12, 8, 8, 12, 12, 12, 4, 8, 8, 8, 8, 4, 4, 8, 4,
    4, 4, 4, 4, 4, 4, 8, 4, 4, 4, 4, 4, 4, 4, 8, 4,
    4, 4, 4, 4, 4, 4, 8, 4, 4, 4, 4, 4, 4, 4, 8, 4,
    4, 4, 4, 4, 4, 4, 8, 4, 4, 4, 4, 4, 4, 4, 8, 4,
    8, 8, 8, 8, 8, 8, 4, 8, 4, 4, 4, 4, 4, 4, 8, 4,
    4, 4, 4, 4, 4, 4, 8, 4, 4, 4, 4, 4, 4, 4, 8, 4,
    4, 4, 4, 4, 4, 4, 8, 4, 4, 4, 4, 4, 4, 4, 8, 4,
    4, 4, 4, 4, 4, 4, 8, 4, 4, 4, 4, 4, 4, 4, 8, 4,
    4, 4, 4, 4, 4, 4, 8, 4, 4, 4, 4, 4, 4, 4, 8, 4,
    8, 12, 12, 16, 12, 16, 8, 16, 8, 16, 12, 4, 12, 24, 8, 16,
    8, 12, 12, 4, 12, 16, 8, 16, 8, 16, 12, 4, 12, 4, 8, 16,
    12, 12, 8, 4, 4, 16, 8, 16, 16, 4, 16, 4, 4, 4, 8, 16,
    12, 12, 8, 4, 4, 16, 8, 16, 12, 8, 16, 4, 4, 4, 8, 16,
];

/// Cycle cost of an instruction: `base` cycles, or `taken` cycles when a
/// conditional branch is taken.
#[derive(Clone, Copy, Debug, PartialEq, Eq, Structural)]
pub struct CycleCost {
    pub base: u8,
    pub taken: Option<u8>,
}

impl CycleCost {
    /// An instruction that always consumes the same number of cycles.
    pub fn fixed(cycles: u8) -> (c: CycleCost)
        ensures
            c == (CycleCost { base: cycles, taken: None }),
    {
        CycleCost { base: cycles, taken: None }
    }

    /// An instruction whose duration depends on a branch condition.
    pub fn branch(not_taken: u8, taken: u8) -> (c: CycleCost)
        ensures
            c == (CycleCost { base: not_taken, taken: Some(taken) }),
    {
        CycleCost { base: not_taken, taken: Some(taken) }
    }

    /// An undocumented opcode: it acts as a NOP and takes a NOP's 4 cycles.
    pub fn illegal() -> (c: CycleCost)
        ensures
            c == (CycleCost { base: 4, taken: None }),
    {
        CycleCost { base: 4, taken: None }
    }

    pub open spec fn total_spec(self, took_conditional: bool) -> u8 {
        match (took_conditional, self.taken) {
            (true, Some(taken)) => taken,
            _ => self.base,
        }
    }

    /// Total cycles consumed, accounting for conditional branches.
    pub fn total(self, took_conditional: bool) -> (t: u8)
        ensures
            t == self.total_spec(took_conditional),
    {
        match (took_conditional, self.taken) {
            (true, Some(taken)) => taken,
            _ => self.base,
        }
    }
}

/// Cycles of a conditional branch opcode when its branch is taken.
pub open spec fn taken_cycles(opcode: u8) -> Option<u8> {
    if opcode == 0x20 || opcode == 0x28 || opcode == 0x30 || opcode == 0x38 {
        Some(12u8)
    } else if opcode == 0xC0 || opcode == 0xC8 || opcode == 0xD0 || opcode == 0xD8 {
        Some(20u8)
    } else if opcode == 0xC2 || opcode == 0xCA || opcode == 0xD2 || opcode == 0xDA {
        Some(16u8)
    } else if opcode == 0xC4 || opcode == 0xCC || opcode == 0xD4 || opcode == 0xDC {
        Some(24u8)
    } else {
        None
    }
}

pub open spec fn main_cost(opcode: u8) -> CycleCost {
    CycleCost { base: MAIN_BASE_CYCLES@[opcode as int], taken: taken_cycles(opcode) }
}

/// CB-prefixed opcodes take 8 cycles on a register, 12 for BIT b,(HL) and
/// 16 for the other (HL) forms.
pub open spec fn cb_cost(opcode: u8) -> CycleCost {
    CycleCost {
        base: if opcode % 8 == 6 {
            if 0x40 <= opcode < 0x80 {
                12u8
            } else {
                16u8
            }
        } else {
            8u8
        },
        taken: None,
    }
}

/// The eleven opcodes the SM83 leaves undefined.
pub open spec fn undocumented(opcode: u8) -> bool {
    opcode == 0xD3 || opcode == 0xDB || opcode == 0xDD || opcode == 0xE3 || opcode == 0xE4
        || opcode == 0xEB || opcode == 0xEC || opcode == 0xED || opcode == 0xF4 || opcode == 0xFC
        || opcode == 0xFD
}

pub fn is_undocumented(opcode: u8) -> (u: bool)
    ensures
        u == undocumented(opcode),
{
    opcode == 0xD3 || opcode == 0xDB || opcode == 0xDD || opcode == 0xE3 || opcode == 0xE4
        || opcode == 0xEB || opcode == 0xEC || opcode == 0xED || opcode == 0xF4 || opcode == 0xFC
        || opcode == 0xFD
}

/// Every unprefixed opcode, undocumented ones included, takes at least 4
/// cycles; a taken branch takes more.
pub proof fn lemma_main_cost_at_least_four(opcode: u8)
    ensures
        main_cost(opcode).base >= 4,
        main_cost(opcode).total_spec(true) >= 4,
        main_cost(opcode).total_spec(false) >= 4,
        undocumented(opcode) ==> main_cost(opcode).base == 4 && main_cost(opcode).taken is None,
{
    assert(MAIN_BASE_CYCLES@[opcode as int] >= 4);
}

/// Timing information for an unprefixed opcode.
pub fn cycle_cost(opcode: u8) -> (c: CycleCost)
    ensures
        c == main_cost(opcode),
{
    let base = MAIN_BASE_CYCLES[opcode as usize];
    if opcode == 0x20 || opcode == 0x28 || opcode == 0x30 || opcode == 0x38 {
        CycleCost::branch(base, 12)
    } else if opcode == 0xC0 || opcode == 0xC8 || opcode == 0xD0 || opcode == 0xD8 {
        CycleCost::branch(base, 20)
    } else if opcode == 0xC2 || opcode == 0xCA || opcode == 0xD2 || opcode == 0xDA {
        CycleCost::branch(base, 16)
    } else if opcode == 0xC4 || opcode == 0xCC || opcode == 0xD4 || opcode == 0xDC {
        CycleCost::branch(base, 24)
    } else if is_undocumented(opcode) {
        CycleCost::illegal()
    } else {
        CycleCost::fixed(base)
    }
}

/// Timing information for a CB-prefixed opcode.
pub fn cb_cycle_cost(opcode: u8) -> (c: CycleCost)
    ensures
        c == cb_cost(opcode),
{
    if opcode % 8 == 6 {
        if 0x40 <= opcode && opcode < 0x80 {
            CycleCost::fixed(12)
        } else {
            CycleCost::fixed(16)
        }
    } else {
        CycleCost::fixed(8)
    }
}

} // verus!
