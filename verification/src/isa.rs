//! Instruction-set semantics of the SM83 core on the register file.
//!
//! These are the definitions the CPU's contracts are stated in: the 8-bit
//! ALU, the 16-bit adds, the rotate/shift/bit group of the CB page, the
//! decimal adjust, and the operand encodings (r8, r16, condition codes) used
//! by the opcode map.
use crate::registers::{pair, Registers};
use vstd::prelude::*;

verus! {

pub open spec fn set_flags(r: Registers, z: bool, n: bool, h: bool, c: bool) -> Registers {
    Registers { zero: z, subtract: n, half_carry: h, carry: c, ..r }
}

pub open spec fn carry_bit(r: Registers) -> u8 {
    if r.carry {
        1
    } else {
        0
    }
}

/// 8-bit register operand `i` in opcode order B, C, D, E, H, L, (HL), A.
/// Index 6 stands for memory at HL and is never read from the register file.
pub open spec fn r8(r: Registers, i: int) -> u8 {
    if i == 0 {
        r.b
    } else if i == 1 {
        r.c
    } else if i == 2 {
        r.d
    } else if i == 3 {
        r.e
    } else if i == 4 {
        r.h
    } else if i == 5 {
        r.l
    } else {
        r.a
    }
}

pub open spec fn set_r8(r: Registers, i: int, v: u8) -> Registers {
    if i == 0 {
        Registers { b: v, ..r }
    } else if i == 1 {
        Registers { c: v, ..r }
    } else if i == 2 {
        Registers { d: v, ..r }
    } else if i == 3 {
        Registers { e: v, ..r }
    } else if i == 4 {
        Registers { h: v, ..r }
    } else if i == 5 {
        Registers { l: v, ..r }
    } else {
        Registers { a: v, ..r }
    }
}

/// 16-bit register operand `i` in opcode order BC, DE, HL, SP.
pub open spec fn r16(r: Registers, i: int) -> u16 {
    if i == 0 {
        r.bc()
    } else if i == 1 {
        r.de()
    } else if i == 2 {
        r.hl()
    } else {
        r.sp
    }
}

pub open spec fn set_r16(r: Registers, i: int, v: u16) -> Registers {
    if i == 0 {
        r.with_bc(v)
    } else if i == 1 {
        r.with_de(v)
    } else if i == 2 {
        r.with_hl(v)
    } else {
        Registers { sp: v, ..r }
    }
}

/// 16-bit PUSH/POP operand `i` in opcode order BC, DE, HL, AF.
pub open spec fn r16_stack(r: Registers, i: int) -> u16 {
    if i == 0 {
        r.bc()
    } else if i == 1 {
        r.de()
    } else if i == 2 {
        r.hl()
    } else {
        r.af()
    }
}

pub open spec fn set_r16_stack(r: Registers, i: int, v: u16) -> Registers {
    if i == 0 {
        r.with_bc(v)
    } else if i == 1 {
        r.with_de(v)
    } else if i == 2 {
        r.with_hl(v)
    } else {
        r.with_af(v)
    }
}

/// Condition code `cc` in opcode order NZ, Z, NC, C.
pub open spec fn cond_met(r: Registers, cc: int) -> bool {
    if cc == 0 {
        !r.zero
    } else if cc == 1 {
        r.zero
    } else if cc == 2 {
        !r.carry
    } else {
        r.carry
    }
}

/// The 8-bit ALU on A; `kind` in opcode order ADD, ADC, SUB, SBC, AND, XOR, OR, CP.
#[verifier::opaque]
pub open spec fn alu(r: Registers, kind: int, n: u8) -> Registers {
    let a = r.a;
    let cy = carry_bit(r);
    if kind == 0 {
        let res = ((a + n) % 256) as u8;
        set_flags(Registers { a: res, ..r }, res == 0, false, a % 16 + n % 16 > 15, a + n > 255)
    } else if kind == 1 {
        let res = ((a + n + cy) % 256) as u8;
        set_flags(
            Registers { a: res, ..r },
            res == 0,
            false,
            a % 16 + n % 16 + cy > 15,
            a + n + cy > 255,
        )
    } else if kind == 2 {
        let res = ((a - n + 256) % 256) as u8;
        set_flags(Registers { a: res, ..r }, res == 0, true, a % 16 < n % 16, a < n)
    } else if kind == 3 {
        let res = ((a - n - cy + 512) % 256) as u8;
        set_flags(Registers { a: res, ..r }, res == 0, true, a % 16 < n % 16 + cy, a < n + cy)
    } else if kind == 4 {
        let res = a & n;
        set_flags(Registers { a: res, ..r }, res == 0, false, true, false)
    } else if kind == 5 {
        let res = a ^ n;
        set_flags(Registers { a: res, ..r }, res == 0, false, false, false)
    } else if kind == 6 {
        let res = a | n;
        set_flags(Registers { a: res, ..r }, res == 0, false, false, false)
    } else {
        set_flags(r, (a - n + 256) % 256 == 0, true, a % 16 < n % 16, a < n)
    }
}

/// INC r8: result and flags (carry untouched).
pub open spec fn inc8(r: Registers, v: u8) -> (u8, Registers) {
    let res = ((v + 1) % 256) as u8;
    (res, set_flags(r, res == 0, false, v % 16 == 15, r.carry))
}

/// DEC r8: result and flags (carry untouched).
pub open spec fn dec8(r: Registers, v: u8) -> (u8, Registers) {
    let res = ((v + 255) % 256) as u8;
    (res, set_flags(r, res == 0, true, v % 16 == 0, r.carry))
}

/// ADD HL, v (zero flag untouched).
pub open spec fn add_hl16(r: Registers, v: u16) -> Registers {
    let hl = r.hl();
    set_flags(
        r.with_hl(((hl + v) % 65536) as u16),
        r.zero,
        false,
        hl % 4096 + v % 4096 > 4095,
        hl + v > 65535,
    )
}

/// The signed 8-bit displacement `n` sign-extended to 16 bits.
pub open spec fn sext16(n: u8) -> u16 {
    if n < 128 {
        n as u16
    } else {
        (n + 0xFF00) as u16
    }
}

/// SP + e8 as computed by ADD SP,e8 and LD HL,SP+e8: the sum and the flags
/// (carries out of bits 3 and 7 of the low byte; Z and N cleared).
pub open spec fn sp_plus(r: Registers, n: u8) -> (u16, Registers) {
    let sp = r.sp;
    (
        ((sp + sext16(n)) % 65536) as u16,
        set_flags(r, false, false, sp % 16 + n % 16 > 15, sp % 256 + n > 255),
    )
}

/// Target of a relative jump by the signed displacement `n` from `pc`.
pub open spec fn jr_target(pc: u16, n: u8) -> u16 {
    if n < 128 {
        ((pc + n) % 65536) as u16
    } else {
        ((pc + n + 65280) % 65536) as u16
    }
}

/// Decimal adjust of A after a BCD addition or subtraction.
pub open spec fn daa_spec(r: Registers) -> Registers {
    let a = r.a;
    if r.subtract {
        let adjust = (if r.half_carry { 0x06int } else { 0 }) + (if r.carry { 0x60int } else { 0 });
        let res = ((a - adjust + 256) % 256) as u8;
        Registers { a: res, zero: res == 0, half_carry: false, carry: r.carry, ..r }
    } else {
        let low = r.half_carry || a % 16 > 9;
        let high = r.carry || a > 0x99;
        let adjust = (if low { 0x06int } else { 0 }) + (if high { 0x60int } else { 0 });
        let res = ((a + adjust) % 256) as u8;
        Registers { a: res, zero: res == 0, half_carry: false, carry: r.carry || high, ..r }
    }
}

/// The rotate/shift/swap group of the CB page; `kind` in opcode order
/// RLC, RRC, RL, RR, SLA, SRA, SWAP, SRL.  Returns the result and the flags.
pub open spec fn shift_op(r: Registers, kind: int, v: u8) -> (u8, Registers) {
    let cy = carry_bit(r);
    let res: u8 = if kind == 0 {
        (v << 1u8) | (v >> 7u8)
    } else if kind == 1 {
        (v >> 1u8) | (v << 7u8)
    } else if kind == 2 {
        (v << 1u8) | cy
    } else if kind == 3 {
        (v >> 1u8) | (cy << 7u8)
    } else if kind == 4 {
        v << 1u8
    } else if kind == 5 {
        (v >> 1u8) | (v & 0x80)
    } else if kind == 6 {
        ((v & 0x0F) << 4u8) | (v >> 4u8)
    } else {
        v >> 1u8
    };
    let c = if kind == 0 || kind == 2 || kind == 4 {
        v & 0x80 != 0
    } else if kind == 6 {
        false
    } else {
        v & 0x01 != 0
    };
    (res, set_flags(r, res == 0, false, false, c))
}

/// BIT b, v: Z reports whether bit `b` of `v` is clear.
pub open spec fn bit_test(r: Registers, b: u8, v: u8) -> Registers {
    set_flags(r, v & (1u8 << b) == 0, false, true, r.carry)
}

pub open spec fn bit_reset(b: u8, v: u8) -> u8 {
    v & !(1u8 << b)
}

pub open spec fn bit_set(b: u8, v: u8) -> u8 {
    v | (1u8 << b)
}

/// High byte / low byte of a word.
pub open spec fn hi(w: u16) -> u8 {
    (w / 256) as u8
}

pub open spec fn lo(w: u16) -> u8 {
    (w % 256) as u8
}

pub proof fn lemma_pair_hi_lo(w: u16)
    ensures
        pair(hi(w), lo(w)) == w,
{
}

/// A byte holding two binary-coded decimal digits.
pub open spec fn is_bcd(x: u8) -> bool {
    x % 16 <= 9 && x / 16 <= 9
}

/// The number two BCD digits stand for.
pub open spec fn bcd_value(x: u8) -> int {
    (x / 16) * 10 + x % 16
}

proof fn lemma_daa_add_arith(a: u8, n: u8)
    requires
        a % 16 <= 9,
        a / 16 <= 9,
        n % 16 <= 9,
        n / 16 <= 9,
    ensures
        ({
            let s = (((a as u16 + n as u16) as u16) % 256) as u8;
            let low = (a % 16 + n % 16 > 15) || s % 16 > 9;
            let high = (a as u16 + n as u16 > 255) || s > 0x99;
            let adjust: u16 = ((if low { 0x06u16 } else { 0u16 }) + (if high { 0x60u16 } else { 0u16 })) as u16;
            let res = (((s as u16 + adjust) as u16) % 256) as u8;
            let total: u16 = ((a / 16) as u16 * 10 + (a % 16) as u16 + (n / 16) as u16 * 10 + (n % 16) as u16) as u16;
            &&& res % 16 <= 9
            &&& res / 16 <= 9
            &&& (res / 16) as u16 * 10 + (res % 16) as u16 == total % 100
            &&& ((a as u16 + n as u16 > 255) || high) == (total >= 100)
        }),
{
    assert({
        let s = (((a as u16 + n as u16) as u16) % 256) as u8;
        let low = (a % 16 + n % 16 > 15) || s % 16 > 9;
        let high = (a as u16 + n as u16 > 255) || s > 0x99;
        let adjust: u16 = ((if low { 0x06u16 } else { 0u16 }) + (if high { 0x60u16 } else { 0u16 })) as u16;
        let res = (((s as u16 + adjust) as u16) % 256) as u8;
        let total: u16 = ((a / 16) as u16 * 10 + (a % 16) as u16 + (n / 16) as u16 * 10 + (n % 16) as u16) as u16;
        &&& res % 16 <= 9
        &&& res / 16 <= 9
        &&& (res / 16) as u16 * 10 + (res % 16) as u16 == total % 100
        &&& ((a as u16 + n as u16 > 255) || high) == (total >= 100)
    }) by (bit_vector)
        requires
            a % 16 <= 9,
            a / 16 <= 9,
            n % 16 <= 9,
            n / 16 <= 9,
    ;
}

/// `ADD A,n` on two BCD bytes followed by `DAA` leaves the BCD digits of
/// the decimal sum (mod 100) in A, and sets carry exactly when the decimal
/// sum reaches 100.
pub proof fn lemma_daa_after_add_is_decimal_addition(r: Registers, n: u8)
    requires
        is_bcd(r.a),
        is_bcd(n),
    ensures
        is_bcd(daa_spec(alu(r, 0, n)).a),
        bcd_value(daa_spec(alu(r, 0, n)).a) == (bcd_value(r.a) + bcd_value(n)) % 100,
        daa_spec(alu(r, 0, n)).carry == (bcd_value(r.a) + bcd_value(n) >= 100),
{
    reveal(alu);
    lemma_daa_add_arith(r.a, n);
}

proof fn lemma_daa_sub_arith(a: u8, n: u8)
    requires
        a % 16 <= 9,
        a / 16 <= 9,
        n % 16 <= 9,
        n / 16 <= 9,
    ensures
        ({
            let s = (((a as u16 + 256 - n as u16) as u16) % 256) as u8;
            let adjust: u16 = ((if a % 16 < n % 16 { 0x06u16 } else { 0u16 }) + (if a < n { 0x60u16 } else { 0u16 })) as u16;
            let res = (((s as u16 + 256 - adjust) as u16) % 256) as u8;
            let x: u16 = ((a / 16) as u16 * 10 + (a % 16) as u16) as u16;
            let y: u16 = ((n / 16) as u16 * 10 + (n % 16) as u16) as u16;
            &&& res % 16 <= 9
            &&& res / 16 <= 9
            &&& (res / 16) as u16 * 10 + (res % 16) as u16 == ((x + 100 - y) as u16) % 100
            &&& (a < n) == (x < y)
        }),
{
    assert({
        let s = (((a as u16 + 256 - n as u16) as u16) % 256) as u8;
        let adjust: u16 = ((if a % 16 < n % 16 { 0x06u16 } else { 0u16 }) + (if a < n { 0x60u16 } else { 0u16 })) as u16;
        let res = (((s as u16 + 256 - adjust) as u16) % 256) as u8;
        let x: u16 = ((a / 16) as u16 * 10 + (a % 16) as u16) as u16;
        let y: u16 = ((n / 16) as u16 * 10 + (n % 16) as u16) as u16;
        &&& res % 16 <= 9
        &&& res / 16 <= 9
        &&& (res / 16) as u16 * 10 + (res % 16) as u16 == ((x + 100 - y) as u16) % 100
        &&& (a < n) == (x < y)
    }) by (bit_vector)
        requires
            a % 16 <= 9,
            a / 16 <= 9,
            n % 16 <= 9,
            n / 16 <= 9,
    ;
}

/// `SUB n` on two BCD bytes followed by `DAA` leaves the BCD digits of the
/// decimal difference (mod 100) in A, with carry set exactly when the
/// subtraction borrowed.
pub proof fn lemma_daa_after_sub_is_decimal_subtraction(r: Registers, n: u8)
    requires
        is_bcd(r.a),
        is_bcd(n),
    ensures
        is_bcd(daa_spec(alu(r, 2, n)).a),
        bcd_value(daa_spec(alu(r, 2, n)).a) == (bcd_value(r.a) - bcd_value(n) + 100) % 100,
        daa_spec(alu(r, 2, n)).carry == (bcd_value(r.a) < bcd_value(n)),
{
    reveal(alu);
    lemma_daa_sub_arith(r.a, n);
}

/// ADC adds the operand and the carry flag that was set before it: A
/// becomes (A + n + C) mod 256; carry is set exactly when A + n + C exceeds
/// 255, half carry when the low nibbles with C exceed 15; zero reports the
/// new A; subtract is cleared; no other register changes.  With the carry
/// clear it is ADD, with the carry set it gives one more than ADD.
pub proof fn lemma_adc_adds_the_carry(r: Registers, n: u8)
    ensures
        ({
            let c: int = if r.carry { 1 } else { 0 };
            let out = alu(r, 1, n);
            &&& out.a as int == (r.a + n + c) % 256
            &&& out.carry == (r.a + n + c > 255)
            &&& out.half_carry == (r.a % 16 + n % 16 + c > 15)
            &&& out.zero == (out.a == 0)
            &&& !out.subtract
            &&& out == (Registers {
                a: out.a,
                zero: out.zero,
                subtract: false,
                half_carry: out.half_carry,
                carry: out.carry,
                ..r
            })
            &&& (!r.carry ==> out == alu(r, 0, n))
            &&& (r.carry ==> out.a as int == (alu(r, 0, n).a + 1) % 256)
        }),
{
    reveal(alu);
}

/// SBC subtracts the operand and the carry flag that was set before it: A
/// becomes (A − n − C) mod 256; carry (borrow) is set exactly when n + C
/// exceeds A, half carry when n's low nibble plus C exceeds A's; zero
/// reports the new A; subtract is set; no other register changes.  With
/// the carry clear it is SUB.
pub proof fn lemma_sbc_subtracts_the_carry(r: Registers, n: u8)
    ensures
        ({
            let c: int = if r.carry { 1 } else { 0 };
            let out = alu(r, 3, n);
            &&& out.a as int == (r.a - n - c + 512) % 256
            &&& out.carry == (n + c > r.a)
            &&& out.half_carry == (n % 16 + c > r.a % 16)
            &&& out.zero == (out.a == 0)
            &&& out.subtract
            &&& out == (Registers {
                a: out.a,
                zero: out.zero,
                subtract: true,
                half_carry: out.half_carry,
                carry: out.carry,
                ..r
            })
            &&& (!r.carry ==> out == alu(r, 2, n))
        }),
{
    reveal(alu);
}

/// ADD, SUB, AND, XOR, OR and CP on A, by arithmetic: ADD gives
/// (A + n) mod 256 with carry when the sum exceeds 255; SUB gives
/// (A − n) mod 256 with carry (borrow) when n exceeds A; AND, XOR and OR
/// combine bitwise (AND sets half carry, all three clear carry); CP sets
/// the flags as SUB does and leaves A alone.  Zero always reports the
/// result, subtract is set for SUB and CP only, and no other register
/// changes.
pub proof fn lemma_alu_arithmetic(r: Registers, n: u8)
    ensures
        alu(r, 0, n).a as int == (r.a + n) % 256,
        alu(r, 0, n).carry == (r.a + n > 255),
        alu(r, 0, n).half_carry == (r.a % 16 + n % 16 > 15),
        !alu(r, 0, n).subtract,
        alu(r, 2, n).a as int == (r.a - n + 256) % 256,
        alu(r, 2, n).carry == (n > r.a),
        alu(r, 2, n).half_carry == (n % 16 > r.a % 16),
        alu(r, 2, n).subtract,
        alu(r, 4, n).a == r.a & n && alu(r, 4, n).half_carry && !alu(r, 4, n).carry,
        alu(r, 5, n).a == r.a ^ n && !alu(r, 5, n).half_carry && !alu(r, 5, n).carry,
        alu(r, 6, n).a == r.a | n && !alu(r, 6, n).half_carry && !alu(r, 6, n).carry,
        !alu(r, 4, n).subtract && !alu(r, 5, n).subtract && !alu(r, 6, n).subtract,
        alu(r, 7, n) == (Registers { a: r.a, ..alu(r, 2, n) }),
        forall|k: int|
            0 <= k < 8 ==> (#[trigger] alu(r, k, n)).zero == (alu(r, k, n).a == 0) || k == 7,
        alu(r, 7, n).zero == (r.a == n),
        forall|k: int|
            0 <= k < 8 ==> (Registers {
                a: r.a,
                zero: r.zero,
                subtract: r.subtract,
                half_carry: r.half_carry,
                carry: r.carry,
                ..#[trigger] alu(r, k, n)
            }) == r,
{
    reveal(alu);
}

/// INC and DEC of an 8-bit value: (v ± 1) mod 256; zero reports the
/// result, half carry the carry out of (borrow into) the low nibble, and
/// the carry flag is left as it was.
pub proof fn lemma_inc_dec(r: Registers, v: u8)
    ensures
        inc8(r, v).0 as int == (v + 1) % 256,
        inc8(r, v).1 == (Registers {
            zero: inc8(r, v).0 == 0,
            subtract: false,
            half_carry: v % 16 == 15,
            ..r
        }),
        dec8(r, v).0 as int == (v - 1 + 256) % 256,
        dec8(r, v).1 == (Registers {
            zero: dec8(r, v).0 == 0,
            subtract: true,
            half_carry: v % 16 == 0,
            ..r
        }),
{
}

proof fn lemma_shift_arith(v: u8, cy: u8)
    by (bit_vector)
    requires
        cy <= 1,
    ensures
        ((v << 1u8) | (v >> 7u8)) == ((v * 2 + v / 128) % 256) as u8,
        ((v >> 1u8) | (v << 7u8)) == (v / 2 + (v % 2) * 128) as u8,
        ((v << 1u8) | cy) == ((v * 2 + cy) % 256) as u8,
        ((v >> 1u8) | (cy << 7u8)) == (v / 2 + cy * 128) as u8,
        (v << 1u8) == ((v * 2) % 256) as u8,
        ((v >> 1u8) | (v & 0x80)) == (v / 2 + (v / 128) * 128) as u8,
        (((v & 0x0F) << 4u8) | (v >> 4u8)) == ((v % 16) * 16 + v / 16) as u8,
        (v >> 1u8) == v / 2,
        (v & 0x80 != 0) == (v >= 128),
        (v & 0x01 != 0) == (v % 2 == 1),
{
}

/// The CB rotates and shifts, by arithmetic (C is the carry flag before
/// the instruction): RLC gives (2v + v div 128) mod 256, RRC
/// v div 2 + 128 (v mod 2), RL (2v + C) mod 256, RR v div 2 + 128 C, SLA
/// 2v mod 256, SRA v div 2 keeping bit 7, SWAP exchanges the nibbles, SRL
/// v div 2.  The left moves put the old bit 7 in the carry, the right
/// moves the old bit 0, SWAP clears it; zero reports the result and
/// subtract and half carry are cleared.
pub proof fn lemma_shift_arithmetic(r: Registers, v: u8)
    ensures
        ({
            let c: int = if r.carry { 1 } else { 0 };
            &&& shift_op(r, 0, v).0 as int == (2 * v + v / 128) % 256
            &&& shift_op(r, 1, v).0 as int == v / 2 + 128 * (v % 2)
            &&& shift_op(r, 2, v).0 as int == (2 * v + c) % 256
            &&& shift_op(r, 3, v).0 as int == v / 2 + 128 * c
            &&& shift_op(r, 4, v).0 as int == (2 * v) % 256
            &&& shift_op(r, 5, v).0 as int == v / 2 + (if v >= 128 { 128int } else { 0 })
            &&& shift_op(r, 6, v).0 as int == 16 * (v % 16) + v / 16
            &&& shift_op(r, 7, v).0 as int == v / 2
            &&& forall|k: int|
                0 <= k < 8 ==> {
                    let (res, f) = #[trigger] shift_op(r, k, v);
                    &&& f.carry == (if k == 0 || k == 2 || k == 4 {
                        v >= 128
                    } else if k == 6 {
                        false
                    } else {
                        v % 2 == 1
                    })
                    &&& f == (Registers {
                        zero: res == 0,
                        subtract: false,
                        half_carry: false,
                        carry: f.carry,
                        ..r
                    })
                }
        }),
{
    let cy: u8 = if r.carry { 1 } else { 0 };
    lemma_shift_arith(v, cy);
    assert(carry_bit(r) == cy);
}

/// The condition codes of JR/JP/CALL/RET cc, in opcode order: NZ holds
/// when Z is clear, Z when it is set, NC when C is clear, C when it is set.
pub proof fn lemma_conditions(r: Registers)
    ensures
        cond_met(r, 0) == !r.zero,
        cond_met(r, 1) == r.zero,
        cond_met(r, 2) == !r.carry,
        cond_met(r, 3) == r.carry,
{
}

/// JR's displacement is a signed byte: bytes below 128 jump forward by
/// that many, bytes from 128 jump back by 256 minus the byte; the target
/// wraps around the 64 KiB address space.
pub proof fn lemma_relative_jump(pc: u16, n: u8)
    ensures
        jr_target(pc, n) as int == (pc + (if n < 128 { n as int } else { n - 256 }) + 65536) % 65536,
{
}

proof fn lemma_bit_arith(v: u8)
    by (bit_vector)
    ensures
        (v & (1u8 << 0u8) == 0) == (v % 2 == 0),
        (v | (1u8 << 0u8)) == (v + (1 - v % 2) * 1) as u8,
        (v & !(1u8 << 0u8)) == (v - (v % 2) * 1) as u8,
        (v & (1u8 << 1u8) == 0) == ((v / 2) % 2 == 0),
        (v | (1u8 << 1u8)) == (v + (1 - (v / 2) % 2) * 2) as u8,
        (v & !(1u8 << 1u8)) == (v - ((v / 2) % 2) * 2) as u8,
        (v & (1u8 << 2u8) == 0) == ((v / 4) % 2 == 0),
        (v | (1u8 << 2u8)) == (v + (1 - (v / 4) % 2) * 4) as u8,
        (v & !(1u8 << 2u8)) == (v - ((v / 4) % 2) * 4) as u8,
        (v & (1u8 << 3u8) == 0) == ((v / 8) % 2 == 0),
        (v | (1u8 << 3u8)) == (v + (1 - (v / 8) % 2) * 8) as u8,
        (v & !(1u8 << 3u8)) == (v - ((v / 8) % 2) * 8) as u8,
        (v & (1u8 << 4u8) == 0) == ((v / 16) % 2 == 0),
        (v | (1u8 << 4u8)) == (v + (1 - (v / 16) % 2) * 16) as u8,
        (v & !(1u8 << 4u8)) == (v - ((v / 16) % 2) * 16) as u8,
        (v & (1u8 << 5u8) == 0) == ((v / 32) % 2 == 0),
        (v | (1u8 << 5u8)) == (v + (1 - (v / 32) % 2) * 32) as u8,
        (v & !(1u8 << 5u8)) == (v - ((v / 32) % 2) * 32) as u8,
        (v & (1u8 << 6u8) == 0) == ((v / 64) % 2 == 0),
        (v | (1u8 << 6u8)) == (v + (1 - (v / 64) % 2) * 64) as u8,
        (v & !(1u8 << 6u8)) == (v - ((v / 64) % 2) * 64) as u8,
        (v & (1u8 << 7u8) == 0) == ((v / 128) % 2 == 0),
        (v | (1u8 << 7u8)) == (v + (1 - (v / 128) % 2) * 128) as u8,
        (v & !(1u8 << 7u8)) == (v - ((v / 128) % 2) * 128) as u8,
{
}

/// BIT, SET and RES act on bit k of the operand, worth 2^k (bit 0 the
/// least significant): BIT sets Z exactly when that bit is 0 (and sets
/// half carry, clears subtract, keeps carry); SET adds 2^k when the bit was
/// clear; RES subtracts 2^k when it was set.
pub proof fn lemma_bit_operations(r: Registers, v: u8)
    ensures
        bit_test(r, 0, v).zero == (v % 2 == 0),
        bit_set(0, v) as int == v + (1 - v % 2) * 1,
        bit_reset(0, v) as int == v - (v % 2) * 1,
        bit_test(r, 1, v).zero == ((v / 2) % 2 == 0),
        bit_set(1, v) as int == v + (1 - (v / 2) % 2) * 2,
        bit_reset(1, v) as int == v - ((v / 2) % 2) * 2,
        bit_test(r, 2, v).zero == ((v / 4) % 2 == 0),
        bit_set(2, v) as int == v + (1 - (v / 4) % 2) * 4,
        bit_reset(2, v) as int == v - ((v / 4) % 2) * 4,
        bit_test(r, 3, v).zero == ((v / 8) % 2 == 0),
        bit_set(3, v) as int == v + (1 - (v / 8) % 2) * 8,
        bit_reset(3, v) as int == v - ((v / 8) % 2) * 8,
        bit_test(r, 4, v).zero == ((v / 16) % 2 == 0),
        bit_set(4, v) as int == v + (1 - (v / 16) % 2) * 16,
        bit_reset(4, v) as int == v - ((v / 16) % 2) * 16,
        bit_test(r, 5, v).zero == ((v / 32) % 2 == 0),
        bit_set(5, v) as int == v + (1 - (v / 32) % 2) * 32,
        bit_reset(5, v) as int == v - ((v / 32) % 2) * 32,
        bit_test(r, 6, v).zero == ((v / 64) % 2 == 0),
        bit_set(6, v) as int == v + (1 - (v / 64) % 2) * 64,
        bit_reset(6, v) as int == v - ((v / 64) % 2) * 64,
        bit_test(r, 7, v).zero == ((v / 128) % 2 == 0),
        bit_set(7, v) as int == v + (1 - (v / 128) % 2) * 128,
        bit_reset(7, v) as int == v - ((v / 128) % 2) * 128,
        forall|k: u8| k < 8 ==> (#[trigger] bit_test(r, k, v)) == (Registers {
            zero: bit_test(r, k, v).zero,
            subtract: false,
            half_carry: true,
            ..r
        }),
{
    lemma_bit_arith(v);
}

} // verus!
