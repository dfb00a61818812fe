//! What each arithmetic and logic operation does to a value and the flags.
use vstd::prelude::*;
use crate::register::{bit_set, pow2, pow2_u8, test_bit, Register};

verus! {

/// ADD / ADC: A + v (+ carry); Z on zero, H out of bit 3, C out of bit 7.
pub open spec fn add8(r: Register, v: u8, with_carry: bool) -> Register {
    let c: int = if with_carry && r.cf {
        1
    } else {
        0
    };
    let sum = r.a + v + c;
    Register {
        a: (sum % 256) as u8,
        zf: sum % 256 == 0,
        nf: false,
        hf: r.a % 16 + v % 16 + c > 15,
        cf: sum > 255,
        ..r
    }
}

/// SUB / SBC: A - v (- carry); Z on zero, N set, H on a borrow into bit 4,
/// C on a borrow out of bit 7.
pub open spec fn sub8(r: Register, v: u8, with_carry: bool) -> Register {
    let c: int = if with_carry && r.cf {
        1
    } else {
        0
    };
    let diff = r.a - v - c;
    Register {
        a: ((diff + 256) % 256) as u8,
        zf: (diff + 256) % 256 == 0,
        nf: true,
        hf: r.a % 16 - v % 16 - c < 0,
        cf: diff < 0,
        ..r
    }
}

/// CP: the flags of A - v, with A kept.
pub open spec fn cp8(r: Register, v: u8) -> Register {
    Register { a: r.a, ..sub8(r, v, false) }
}

/// AND: H set, N and C clear.
pub open spec fn and8(r: Register, v: u8) -> Register {
    Register { a: r.a & v, zf: r.a & v == 0, nf: false, hf: true, cf: false, ..r }
}

/// OR: N, H and C clear.
pub open spec fn or8(r: Register, v: u8) -> Register {
    Register { a: r.a | v, zf: r.a | v == 0, nf: false, hf: false, cf: false, ..r }
}

/// XOR: N, H and C clear.
pub open spec fn xor8(r: Register, v: u8) -> Register {
    Register { a: r.a ^ v, zf: r.a ^ v == 0, nf: false, hf: false, cf: false, ..r }
}

/// INC r8: the incremented value.
pub open spec fn inc_value(v: u8) -> u8 {
    ((v + 1) % 256) as u8
}

/// INC r8: Z on zero, N clear, H out of bit 3, C untouched.
pub open spec fn inc_flags(r: Register, v: u8) -> Register {
    r.with_flags(inc_value(v) == 0, false, v % 16 == 15, r.cf)
}

/// DEC r8: the decremented value.
pub open spec fn dec_value(v: u8) -> u8 {
    ((v + 255) % 256) as u8
}

/// DEC r8: Z on zero, N set, H on a borrow into bit 4, C untouched.
pub open spec fn dec_flags(r: Register, v: u8) -> Register {
    r.with_flags(dec_value(v) == 0, true, v % 16 == 0, r.cf)
}

/// ADD HL, r16: H out of bit 11, C out of bit 15, Z untouched.
pub open spec fn add16(r: Register, v: u16) -> Register {
    Register {
        h: ((r.hl() + v) % 65536 / 256) as u8,
        l: ((r.hl() + v) % 256) as u8,
        nf: false,
        hf: r.hl() % 4096 + v % 4096 > 4095,
        cf: r.hl() + v > 65535,
        ..r
    }
}

/// The signed value of a byte.
pub open spec fn signed(e: u8) -> int {
    if e >= 128 {
        e - 256
    } else {
        e as int
    }
}

/// SP plus a signed byte, wrapping.
pub open spec fn sp_offset(sp: u16, e: u8) -> u16 {
    ((sp + signed(e) + 65536) % 65536) as u16
}

/// The flags of SP + e (ADD SP,e and LD HL,SP+e): Z and N clear, H and C
/// from the unsigned low-byte addition.
pub open spec fn sp_offset_flags(r: Register, e: u8) -> Register {
    r.with_flags(false, false, r.sp % 16 + e % 16 > 15, r.sp % 256 + e > 255)
}

/// The target of a relative jump by `e` from `pc`.
pub open spec fn rel_target(pc: u16, e: u8) -> u16 {
    ((pc + signed(e) + 65536) % 65536) as u16
}

/// Rotate left; bit 7 goes to bit 0 and to C.
pub open spec fn rlc_value(v: u8) -> u8 {
    ((v * 2) % 256 + v / 128) as u8
}

/// Rotate right; bit 0 goes to bit 7 and to C.
pub open spec fn rrc_value(v: u8) -> u8 {
    (v / 2 + (v % 2) * 128) as u8
}

/// Rotate left through carry.
pub open spec fn rl_value(v: u8, c: bool) -> u8 {
    ((v * 2) % 256 + (if c { 1int } else { 0 })) as u8
}

/// Rotate right through carry.
pub open spec fn rr_value(v: u8, c: bool) -> u8 {
    (v / 2 + (if c { 128int } else { 0 })) as u8
}

/// Arithmetic shift left.
pub open spec fn sla_value(v: u8) -> u8 {
    ((v * 2) % 256) as u8
}

/// Arithmetic shift right: bit 7 stays.
pub open spec fn sra_value(v: u8) -> u8 {
    (v / 2 + (v / 128) * 128) as u8
}

/// Logical shift right.
pub open spec fn srl_value(v: u8) -> u8 {
    (v / 2) as u8
}

/// Swaps the nibbles.
pub open spec fn swap_value(v: u8) -> u8 {
    ((v % 16) * 16 + v / 16) as u8
}

/// The flags after a shift or rotate of the CB table: Z on zero, C the bit
/// shifted out.
pub open spec fn shift_flags(r: Register, result: u8, carry: bool) -> Register {
    r.with_flags(result == 0, false, false, carry)
}

/// BIT n: Z when bit `n` of `v` is clear, N clear, H set, C untouched.
pub open spec fn bit_flags(r: Register, v: u8, n: int) -> Register {
    r.with_flags(!bit_set(v, n), false, true, r.cf)
}

/// RES n: `v` with bit `n` cleared.
pub open spec fn res_value(v: u8, n: int) -> u8 {
    (v - (if bit_set(v, n) { pow2(n) } else { 0 })) as u8
}

/// SET n: `v` with bit `n` set.
pub open spec fn set_value(v: u8, n: int) -> u8 {
    (v + (if bit_set(v, n) { 0 } else { pow2(n) })) as u8
}

/// DAA: adjusts A to packed decimal after an addition or subtraction.
pub open spec fn decimal_adjust(r: Register) -> Register {
    if !r.nf {
        let hi = r.cf || r.a > 0x99;
        let lo = r.hf || r.a % 16 > 9;
        let corr = (if hi { 0x60int } else { 0 }) + (if lo { 6int } else { 0 });
        let a = ((r.a + corr) % 256) as u8;
        Register { a, zf: a == 0, hf: false, cf: hi, ..r }
    } else {
        let corr = (if r.cf { 0x60int } else { 0 }) + (if r.hf { 6int } else { 0 });
        let a = ((r.a - corr + 256) % 256) as u8;
        Register { a, zf: a == 0, hf: false, ..r }
    }
}

pub fn add8_exec(r: &mut Register, v: u8, with_carry: bool)
    ensures
        *final(r) == add8(*old(r), v, with_carry),
{
    let c: u16 = if with_carry && r.cf {
        1
    } else {
        0
    };
    let sum: u16 = r.a as u16 + v as u16 + c;
    let hf = (r.a % 16) as u16 + (v % 16) as u16 + c > 15;
    r.a = (sum % 256) as u8;
    r.zf = sum % 256 == 0;
    r.nf = false;
    r.hf = hf;
    r.cf = sum > 255;
}

pub fn sub8_exec(r: &mut Register, v: u8, with_carry: bool)
    ensures
        *final(r) == sub8(*old(r), v, with_carry),
{
    let c: i16 = if with_carry && r.cf {
        1
    } else {
        0
    };
    let diff: i16 = r.a as i16 - v as i16 - c;
    let hf = (r.a % 16) as i16 - (v % 16) as i16 - c < 0;
    r.a = ((diff + 256) % 256) as u8;
    r.zf = (diff + 256) % 256 == 0;
    r.nf = true;
    r.hf = hf;
    r.cf = diff < 0;
}

pub fn cp8_exec(r: &mut Register, v: u8)
    ensures
        *final(r) == cp8(*old(r), v),
{
    let a = r.a;
    sub8_exec(r, v, false);
    r.a = a;
}

pub fn and8_exec(r: &mut Register, v: u8)
    ensures
        *final(r) == and8(*old(r), v),
{
    r.a = r.a & v;
    r.zf = r.a == 0;
    r.nf = false;
    r.hf = true;
    r.cf = false;
}

pub fn or8_exec(r: &mut Register, v: u8)
    ensures
        *final(r) == or8(*old(r), v),
{
    r.a = r.a | v;
    r.zf = r.a == 0;
    r.nf = false;
    r.hf = false;
    r.cf = false;
}

pub fn xor8_exec(r: &mut Register, v: u8)
    ensures
        *final(r) == xor8(*old(r), v),
{
    r.a = r.a ^ v;
    r.zf = r.a == 0;
    r.nf = false;
    r.hf = false;
    r.cf = false;
}

/// INC on `v`: returns the result and sets the flags.
pub fn inc8_exec(r: &mut Register, v: u8) -> (res: u8)
    ensures
        res == inc_value(v),
        *final(r) == inc_flags(*old(r), v),
{
    let res = v.wrapping_add(1);
    r.zf = res == 0;
    r.nf = false;
    r.hf = v % 16 == 15;
    res
}

/// DEC on `v`: returns the result and sets the flags.
pub fn dec8_exec(r: &mut Register, v: u8) -> (res: u8)
    ensures
        res == dec_value(v),
        *final(r) == dec_flags(*old(r), v),
{
    let res = v.wrapping_sub(1);
    r.zf = res == 0;
    r.nf = true;
    r.hf = v % 16 == 0;
    res
}

pub fn add16_exec(r: &mut Register, v: u16)
    ensures
        *final(r) == add16(*old(r), v),
{
    let hl = r.get_hl() as u32;
    let sum: u32 = hl + v as u32;
    let hf = hl % 4096 + (v % 4096) as u32 > 4095;
    r.h = (sum % 65536 / 256) as u8;
    r.l = (sum % 256) as u8;
    r.nf = false;
    r.hf = hf;
    r.cf = sum > 65535;
}

/// SP + e with its flags set; returns the sum.
pub fn sp_offset_exec(r: &mut Register, e: u8) -> (res: u16)
    ensures
        res == sp_offset(old(r).sp, e),
        *final(r) == sp_offset_flags(*old(r), e),
{
    let s: i32 = if e >= 128 {
        e as i32 - 256
    } else {
        e as i32
    };
    let res = ((r.sp as i32 + s + 65536) % 65536) as u16;
    r.zf = false;
    r.nf = false;
    r.hf = r.sp % 16 + (e % 16) as u16 > 15;
    r.cf = r.sp % 256 + e as u16 > 255;
    res
}

/// The target of a relative jump by `e` from `pc`.
pub fn rel_target_exec(pc: u16, e: u8) -> (r: u16)
    ensures
        r == rel_target(pc, e),
{
    let s: i32 = if e >= 128 {
        e as i32 - 256
    } else {
        e as i32
    };
    ((pc as i32 + s + 65536) % 65536) as u16
}

/// The shift and rotate operations of the CB table.
#[derive(Clone, Copy, Debug, PartialEq, Eq, Structural)]
pub enum Shift {
    Rlc,
    Rrc,
    Rl,
    Rr,
    Sla,
    Sra,
    Swap,
    Srl,
}

/// The result of shift `op` on `v` with carry `c`.
pub open spec fn shift_value(op: Shift, v: u8, c: bool) -> u8 {
    match op {
        Shift::Rlc => rlc_value(v),
        Shift::Rrc => rrc_value(v),
        Shift::Rl => rl_value(v, c),
        Shift::Rr => rr_value(v, c),
        Shift::Sla => sla_value(v),
        Shift::Sra => sra_value(v),
        Shift::Swap => swap_value(v),
        Shift::Srl => srl_value(v),
    }
}

/// The bit shift `op` moves into C.
pub open spec fn shift_carry(op: Shift, v: u8) -> bool {
    match op {
        Shift::Rlc | Shift::Rl | Shift::Sla => v >= 128,
        Shift::Swap => false,
        _ => v % 2 == 1,
    }
}

/// Shift `op` on `v`: returns the result and sets Z, N, H and C.
pub fn shift_exec(r: &mut Register, op: Shift, v: u8) -> (res: u8)
    ensures
        res == shift_value(op, v, old(r).cf),
        *final(r) == shift_flags(*old(r), res, shift_carry(op, v)),
{
    let c: u8 = if r.cf {
        1
    } else {
        0
    };
    let res: u8 = match op {
        Shift::Rlc => ((v as u16 * 2) % 256) as u8 + v / 128,
        Shift::Rrc => v / 2 + (v % 2) * 128,
        Shift::Rl => ((v as u16 * 2) % 256) as u8 + c,
        Shift::Rr => v / 2 + c * 128,
        Shift::Sla => ((v as u16 * 2) % 256) as u8,
        Shift::Sra => v / 2 + (v / 128) * 128,
        Shift::Swap => (v % 16) * 16 + v / 16,
        Shift::Srl => v / 2,
    };
    let carry = match op {
        Shift::Rlc | Shift::Rl | Shift::Sla => v >= 128,
        Shift::Swap => false,
        _ => v % 2 == 1,
    };
    r.set_flags_znhc(res == 0, false, false, carry);
    res
}

/// BIT n on `v`.
pub fn bit_exec(r: &mut Register, v: u8, n: u8)
    requires
        n < 8,
    ensures
        *final(r) == bit_flags(*old(r), v, n as int),
{
    r.zf = !test_bit(v, n);
    r.nf = false;
    r.hf = true;
}

/// `v` with bit `n` cleared.
pub fn res_exec(v: u8, n: u8) -> (r: u8)
    requires
        n < 8,
    ensures
        r == res_value(v, n as int),
{
    proof {
        reveal_with_fuel(pow2, 8);
    }
    if test_bit(v, n) {
        assert(v as int >= pow2(n as int)) by {
            lemma_bit_bound(v, n as int);
        }
        v - pow2_u8(n)
    } else {
        v
    }
}

/// `v` with bit `n` set.
pub fn set_exec(v: u8, n: u8) -> (r: u8)
    requires
        n < 8,
    ensures
        r == set_value(v, n as int),
{
    if test_bit(v, n) {
        v
    } else {
        proof {
            lemma_clear_bit_room(v, n as int);
        }
        v + pow2_u8(n)
    }
}

/// A set bit `n` is worth at least `2^n`.
pub proof fn lemma_bit_bound(v: u8, n: int)
    requires
        0 <= n < 8,
        bit_set(v, n),
    ensures
        v as int >= pow2(n),
{
    reveal_with_fuel(pow2, 8);
    let p = pow2(n);
    assert(p >= 1);
    assert((v as int / p) >= 1);
    assert(v as int >= p * (v as int / p)) by (nonlinear_arith)
        requires
            p >= 1,
            v >= 0,
    ;
    assert(p * (v as int / p) >= p) by (nonlinear_arith)
        requires
            p >= 1,
            v as int / p >= 1,
    ;
}

/// A clear bit `n` leaves room to add `2^n` within a byte.
pub proof fn lemma_clear_bit_room(v: u8, n: int)
    requires
        0 <= n < 8,
        !bit_set(v, n),
    ensures
        v as int + pow2(n) <= 255,
{
    reveal_with_fuel(pow2, 8);
    let x = v as int;
    if n == 0 {
        assert(pow2(0) == 1);
        assert(x / 1 == x);
        assert(x % 2 == 0);
    } else if n == 1 {
        assert(pow2(1) == 2);
        assert((x / 2) % 2 == 0);
    } else if n == 2 {
        assert(pow2(2) == 4);
        assert((x / 4) % 2 == 0);
    } else if n == 3 {
        assert(pow2(3) == 8);
        assert((x / 8) % 2 == 0);
    } else if n == 4 {
        assert(pow2(4) == 16);
        assert((x / 16) % 2 == 0);
    } else if n == 5 {
        assert(pow2(5) == 32);
        assert((x / 32) % 2 == 0);
    } else if n == 6 {
        assert(pow2(6) == 64);
        assert((x / 64) % 2 == 0);
    } else {
        assert(pow2(7) == 128);
        assert((x / 128) % 2 == 0);
    }
}

pub fn daa_exec(r: &mut Register)
    ensures
        *final(r) == decimal_adjust(*old(r)),
{
    if !r.nf {
        let hi = r.cf || r.a > 0x99;
        let lo = r.hf || r.a % 16 > 9;
        let corr: u16 = (if hi {
            0x60
        } else {
            0
        }) + (if lo {
            6
        } else {
            0
        });
        let a = ((r.a as u16 + corr) % 256) as u8;
        r.a = a;
        r.zf = a == 0;
        r.hf = false;
        r.cf = hi;
    } else {
        let corr: i16 = (if r.cf {
            0x60
        } else {
            0
        }) + (if r.hf {
            6
        } else {
            0
        });
        let a = ((r.a as i16 - corr + 256) % 256) as u8;
        r.a = a;
        r.zf = a == 0;
        r.hf = false;
    }
}

} // verus!
