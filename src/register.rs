//! The processor's register file.
use vstd::prelude::*;

verus! {

/// The eight 8-bit registers, the four flags held in the high nibble of F,
/// and the two 16-bit pointers.
///
/// The flags are kept as booleans; F is composed from them on every read, so
/// its low nibble is always zero.
#[derive(Clone, Copy, Debug, PartialEq, Eq, Structural)]
pub struct Register {
    pub a: u8,
    pub b: u8,
    pub c: u8,
    pub d: u8,
    pub e: u8,
    pub h: u8,
    pub l: u8,
    pub sp: u16,
    pub pc: u16,
    /// Zero flag (bit 7 of F).
    pub zf: bool,
    /// Subtract flag (bit 6 of F).
    pub nf: bool,
    /// Half-carry flag (bit 5 of F).
    pub hf: bool,
    /// Carry flag (bit 4 of F).
    pub cf: bool,
}

/// The 16-bit value whose high byte is `hi` and low byte is `lo`.
pub open spec fn word(hi: u8, lo: u8) -> u16 {
    (hi as int * 256 + lo as int) as u16
}

/// High byte of a 16-bit value.
pub open spec fn hi_byte(v: u16) -> u8 {
    (v as int / 256) as u8
}

/// Low byte of a 16-bit value.
pub open spec fn lo_byte(v: u16) -> u8 {
    (v as int % 256) as u8
}

/// The F register composed from four flags.
pub open spec fn flags_byte(z: bool, n: bool, h: bool, c: bool) -> u8 {
    ((if z { 128int } else { 0 }) + (if n { 64int } else { 0 }) + (if h { 32int } else { 0 }) + (
    if c { 16int } else { 0 })) as u8
}

/// Whether bit `i` (0 = least significant) of `v` is set.
pub open spec fn bit_set(v: u8, i: int) -> bool {
    (v as int / pow2(i)) % 2 == 1
}

/// `2^i` for the bit positions of a byte.
pub open spec fn pow2(i: int) -> int
    decreases i,
{
    if i <= 0 {
        1
    } else {
        2 * pow2(i - 1)
    }
}

/// `2^i` for `i` in 0..=7.
pub fn pow2_u8(i: u8) -> (r: u8)
    requires
        i < 8,
    ensures
        r == pow2(i as int),
        r >= 1,
{
    proof {
        reveal_with_fuel(pow2, 8);
    }
    match i {
        0 => 1,
        1 => 2,
        2 => 4,
        3 => 8,
        4 => 16,
        5 => 32,
        6 => 64,
        _ => 128,
    }
}

/// Whether bit `i` of `v` is set.
pub fn test_bit(v: u8, i: u8) -> (r: bool)
    requires
        i < 8,
    ensures
        r == bit_set(v, i as int),
{
    (v / pow2_u8(i)) % 2 == 1
}

/// Bit `i` of `v` as 0 or 1.
pub open spec fn bit_of(v: u8, i: int) -> int {
    (v as int / pow2(i)) % 2
}

/// Bit `i` of `v` as 0 or 1.
pub fn get_bit(v: u8, i: u8) -> (r: u8)
    requires
        i < 8,
    ensures
        r == bit_of(v, i as int),
        r <= 1,
{
    (v / pow2_u8(i)) % 2
}

/// Composes a word from its bytes.
pub fn make_word(hi: u8, lo: u8) -> (r: u16)
    ensures
        r == word(hi, lo),
{
    (hi as u16) * 256 + (lo as u16)
}

/// Splits a word into (high, low) bytes.
pub fn split_word(v: u16) -> (r: (u8, u8))
    ensures
        r.0 == hi_byte(v),
        r.1 == lo_byte(v),
        word(r.0, r.1) == v,
{
    ((v / 256) as u8, (v % 256) as u8)
}

impl Register {
    /// The register values the boot ROM leaves behind on a DMG.
    pub open spec fn post_boot() -> Register {
        Register {
            a: 0x01,
            b: 0x00,
            c: 0x13,
            d: 0x00,
            e: 0xD8,
            h: 0x01,
            l: 0x4D,
            sp: 0xFFFE,
            pc: 0x0100,
            zf: true,
            nf: false,
            hf: true,
            cf: true,
        }
    }

    pub open spec fn af(self) -> u16 {
        word(self.a, self.f())
    }

    pub open spec fn bc(self) -> u16 {
        word(self.b, self.c)
    }

    pub open spec fn de(self) -> u16 {
        word(self.d, self.e)
    }

    pub open spec fn hl(self) -> u16 {
        word(self.h, self.l)
    }

    pub open spec fn f(self) -> u8 {
        flags_byte(self.zf, self.nf, self.hf, self.cf)
    }

    /// These registers with F replaced by `v` (its low nibble is dropped).
    pub open spec fn with_f(self, v: u8) -> Register {
        Register {
            zf: bit_set(v, 7),
            nf: bit_set(v, 6),
            hf: bit_set(v, 5),
            cf: bit_set(v, 4),
            ..self
        }
    }

    pub open spec fn with_af(self, v: u16) -> Register {
        Register { a: hi_byte(v), ..self.with_f(lo_byte(v)) }
    }

    pub open spec fn with_bc(self, v: u16) -> Register {
        Register { b: hi_byte(v), c: lo_byte(v), ..self }
    }

    pub open spec fn with_de(self, v: u16) -> Register {
        Register { d: hi_byte(v), e: lo_byte(v), ..self }
    }

    pub open spec fn with_hl(self, v: u16) -> Register {
        Register { h: hi_byte(v), l: lo_byte(v), ..self }
    }

    pub open spec fn with_flags(self, z: bool, n: bool, h: bool, c: bool) -> Register {
        Register { zf: z, nf: n, hf: h, cf: c, ..self }
    }

    /// The register file after the boot ROM has run.
    pub fn new() -> (r: Register)
        ensures
            r == Register::post_boot(),
    {
        Register {
            a: 0x01,
            b: 0x00,
            c: 0x13,
            d: 0x00,
            e: 0xD8,
            h: 0x01,
            l: 0x4D,
            sp: 0xFFFE,
            pc: 0x0100,
            zf: true,
            nf: false,
            hf: true,
            cf: true,
        }
    }

    pub fn get_af(&self) -> (r: u16)
        ensures
            r == self.af(),
    {
        make_word(self.a, self.get_f())
    }

    pub fn set_af(&mut self, val: u16)
        ensures
            *final(self) == old(self).with_af(val),
    {
        let (hi, lo) = split_word(val);
        self.a = hi;
        self.set_f(lo);
    }

    pub fn get_bc(&self) -> (r: u16)
        ensures
            r == self.bc(),
    {
        make_word(self.b, self.c)
    }

    pub fn set_bc(&mut self, val: u16)
        ensures
            *final(self) == old(self).with_bc(val),
            final(self).bc() == val,
    {
        let (hi, lo) = split_word(val);
        self.b = hi;
        self.c = lo;
    }

    pub fn get_de(&self) -> (r: u16)
        ensures
            r == self.de(),
    {
        make_word(self.d, self.e)
    }

    pub fn set_de(&mut self, val: u16)
        ensures
            *final(self) == old(self).with_de(val),
            final(self).de() == val,
    {
        let (hi, lo) = split_word(val);
        self.d = hi;
        self.e = lo;
    }

    pub fn get_hl(&self) -> (r: u16)
        ensures
            r == self.hl(),
    {
        make_word(self.h, self.l)
    }

    pub fn set_hl(&mut self, val: u16)
        ensures
            *final(self) == old(self).with_hl(val),
            final(self).hl() == val,
    {
        let (hi, lo) = split_word(val);
        self.h = hi;
        self.l = lo;
    }

    pub fn get_sp(&self) -> (r: u16)
        ensures
            r == self.sp,
    {
        self.sp
    }

    pub fn set_sp(&mut self, val: u16)
        ensures
            *final(self) == (Register { sp: val, ..*old(self) }),
    {
        self.sp = val;
    }

    pub fn get_pc(&self) -> (r: u16)
        ensures
            r == self.pc,
    {
        self.pc
    }

    pub fn set_pc(&mut self, val: u16)
        ensures
            *final(self) == (Register { pc: val, ..*old(self) }),
    {
        self.pc = val;
    }

    /// Advances PC by `val`, wrapping at 16 bits.
    pub fn inc_pc(&mut self, val: u16)
        ensures
            *final(self) == (Register { pc: ((old(self).pc + val) % 0x10000) as u16, ..*old(self) }),
    {
        self.pc = self.pc.wrapping_add(val);
    }

    pub fn get_a(&self) -> (r: u8)
        ensures
            r == self.a,
    {
        self.a
    }

    pub fn set_a(&mut self, val: u8)
        ensures
            *final(self) == (Register { a: val, ..*old(self) }),
    {
        self.a = val;
    }

    pub fn get_f(&self) -> (r: u8)
        ensures
            r == self.f(),
            r % 16 == 0,
    {
        let mut f: u8 = 0;
        if self.zf {
            f = f + 0x80;
        }
        if self.nf {
            f = f + 0x40;
        }
        if self.hf {
            f = f + 0x20;
        }
        if self.cf {
            f = f + 0x10;
        }
        f
    }

    pub fn set_f(&mut self, val: u8)
        ensures
            *final(self) == old(self).with_f(val),
    {
        proof {
            reveal_with_fuel(pow2, 8);
        }
        self.zf = (val / 128) % 2 == 1;
        self.nf = (val / 64) % 2 == 1;
        self.hf = (val / 32) % 2 == 1;
        self.cf = (val / 16) % 2 == 1;
    }

    pub fn get_b(&self) -> (r: u8)
        ensures
            r == self.b,
    {
        self.b
    }

    pub fn set_b(&mut self, val: u8)
        ensures
            *final(self) == (Register { b: val, ..*old(self) }),
    {
        self.b = val;
    }

    pub fn get_c(&self) -> (r: u8)
        ensures
            r == self.c,
    {
        self.c
    }

    pub fn set_c(&mut self, val: u8)
        ensures
            *final(self) == (Register { c: val, ..*old(self) }),
    {
        self.c = val;
    }

    pub fn get_d(&self) -> (r: u8)
        ensures
            r == self.d,
    {
        self.d
    }

    pub fn set_d(&mut self, val: u8)
        ensures
            *final(self) == (Register { d: val, ..*old(self) }),
    {
        self.d = val;
    }

    pub fn get_e(&self) -> (r: u8)
        ensures
            r == self.e,
    {
        self.e
    }

    pub fn set_e(&mut self, val: u8)
        ensures
            *final(self) == (Register { e: val, ..*old(self) }),
    {
        self.e = val;
    }

    pub fn get_h(&self) -> (r: u8)
        ensures
            r == self.h,
    {
        self.h
    }

    pub fn set_h(&mut self, val: u8)
        ensures
            *final(self) == (Register { h: val, ..*old(self) }),
    {
        self.h = val;
    }

    pub fn get_l(&self) -> (r: u8)
        ensures
            r == self.l,
    {
        self.l
    }

    pub fn set_l(&mut self, val: u8)
        ensures
            *final(self) == (Register { l: val, ..*old(self) }),
    {
        self.l = val;
    }

    /// Sets all four flags at once.
    pub fn set_flags_znhc(&mut self, z: bool, n: bool, h: bool, c: bool)
        ensures
            *final(self) == old(self).with_flags(z, n, h, c),
    {
        self.zf = z;
        self.nf = n;
        self.hf = h;
        self.cf = c;
    }

    pub fn get_flags_c(&self) -> (r: bool)
        ensures
            r == self.cf,
    {
        self.cf
    }

    pub fn set_flags_c(&mut self, val: bool)
        ensures
            *final(self) == (Register { cf: val, ..*old(self) }),
    {
        self.cf = val;
    }

    pub fn get_flags_z(&self) -> (r: bool)
        ensures
            r == self.zf,
    {
        self.zf
    }

    pub fn set_flags_z(&mut self, val: bool)
        ensures
            *final(self) == (Register { zf: val, ..*old(self) }),
    {
        self.zf = val;
    }

    pub fn get_flags_n(&self) -> (r: bool)
        ensures
            r == self.nf,
    {
        self.nf
    }

    pub fn set_flags_n(&mut self, val: bool)
        ensures
            *final(self) == (Register { nf: val, ..*old(self) }),
    {
        self.nf = val;
    }

    pub fn get_flags_h(&self) -> (r: bool)
        ensures
            r == self.hf,
    {
        self.hf
    }

    pub fn set_flags_h(&mut self, val: bool)
        ensures
            *final(self) == (Register { hf: val, ..*old(self) }),
    {
        self.hf = val;
    }
}

/// The four flags of F.
#[derive(Clone, Copy, Debug, PartialEq, Eq, Structural)]
pub enum Flags {
    Zero,
    Subtract,
    HalfCarry,
    Carry,
}

/// The 8-bit registers.
#[derive(Clone, Copy, Debug, PartialEq, Eq, Structural)]
pub enum Register8 {
    A,
    F,
    B,
    C,
    D,
    E,
    H,
    L,
}

/// The 16-bit registers and register pairs.
#[derive(Clone, Copy, Debug, PartialEq, Eq, Structural)]
pub enum Register16 {
    AF,
    BC,
    DE,
    HL,
    SP,
    PC,
}

} // verus!
