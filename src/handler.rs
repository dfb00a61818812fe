//! One function per instruction of the base and CB-prefixed tables. Each
//! runs with PC already past its opcode byte (or bytes), and its contract
//! gives the whole state it leaves behind, including the cycles it took.
use vstd::prelude::*;
use crate::alu::{
    Shift,
    add16,
    add16_exec,
    add8,
    add8_exec,
    and8,
    and8_exec,
    bit_exec,
    bit_flags,
    cp8,
    cp8_exec,
    daa_exec,
    dec8_exec,
    dec_flags,
    dec_value,
    decimal_adjust,
    inc8_exec,
    inc_flags,
    inc_value,
    or8,
    or8_exec,
    rel_target,
    rel_target_exec,
    res_exec,
    res_value,
    set_exec,
    set_value,
    shift_carry,
    shift_exec,
    shift_flags,
    shift_value,
    sp_offset,
    sp_offset_exec,
    sp_offset_flags,
    sub8,
    sub8_exec,
    xor8,
    xor8_exec,
};
use crate::cpu::{adv, pushed, wrap16, wrote2, Cpu};
use crate::interrupt::{pending, InterruptFlags};
use crate::register::{hi_byte, lo_byte, split_word, Register};

verus! {

/// An opcode the processor does not define: the processor locks up and runs nothing more; `GameBoy::step` reports this as fatal.
pub open spec fn spec_illegal(o: Cpu, n: Cpu) -> bool {
    n == (Cpu { cycles: 4, locked: true, ..o })
}

/// An opcode the processor does not define: the processor locks up and runs nothing more; `GameBoy::step` reports this as fatal.
pub fn illegal(cpu: &mut Cpu)
    requires
        old(cpu).wf(),
    ensures
        final(cpu).wf(),
        spec_illegal(*old(cpu), *final(cpu)),
{
    cpu.locked = true;
    cpu.cycles = 4;
}

/// NOP.
pub open spec fn spec_nop(o: Cpu, n: Cpu) -> bool {
    n == (Cpu { cycles: 4, ..o })
}

/// NOP.
pub fn nop(cpu: &mut Cpu)
    requires
        old(cpu).wf(),
    ensures
        final(cpu).wf(),
        spec_nop(*old(cpu), *final(cpu)),
{
    cpu.cycles = 4;
}

/// LD BC, u16.
pub open spec fn spec_ld_bc_u16(o: Cpu, n: Cpu) -> bool {
    n == (Cpu { regs: adv(o.regs, 2).with_bc(o.imm16()), cycles: 12, ..o })
}

/// LD BC, u16.
pub fn ld_bc_u16(cpu: &mut Cpu)
    requires
        old(cpu).wf(),
    ensures
        final(cpu).wf(),
        spec_ld_bc_u16(*old(cpu), *final(cpu)),
{
    let v = cpu.fetch_word();
    cpu.regs.set_bc(v);
    cpu.cycles = 12;
}

/// LD (BC), A.
pub open spec fn spec_ld_mbc_a(o: Cpu, n: Cpu) -> bool {
    &&& n == (Cpu { bus: n.bus, cycles: 8, ..o })
    &&& o.bus.written(n.bus, o.regs.bc(), o.regs.a)
}

/// LD (BC), A.
pub fn ld_mbc_a(cpu: &mut Cpu)
    requires
        old(cpu).wf(),
    ensures
        final(cpu).wf(),
        spec_ld_mbc_a(*old(cpu), *final(cpu)),
{
    let addr = cpu.regs.get_bc();
    let v = cpu.regs.a;
    cpu.write(addr, v);
    cpu.cycles = 8;
}

/// INC BC.
pub open spec fn spec_inc_bc(o: Cpu, n: Cpu) -> bool {
    n == (Cpu { regs: o.regs.with_bc(wrap16(o.regs.bc() + 1)), cycles: 8, ..o })
}

/// INC BC.
pub fn inc_bc(cpu: &mut Cpu)
    requires
        old(cpu).wf(),
    ensures
        final(cpu).wf(),
        spec_inc_bc(*old(cpu), *final(cpu)),
{
    let v = cpu.regs.get_bc();
    cpu.regs.set_bc(v.wrapping_add(1));
    cpu.cycles = 8;
}

/// INC B.
pub open spec fn spec_inc_b(o: Cpu, n: Cpu) -> bool {
    n == (Cpu { regs: Register { b: inc_value(o.regs.b), ..inc_flags(o.regs, o.regs.b) }, cycles: 4, ..o })
}

/// INC B.
pub fn inc_b(cpu: &mut Cpu)
    requires
        old(cpu).wf(),
    ensures
        final(cpu).wf(),
        spec_inc_b(*old(cpu), *final(cpu)),
{
    let v = cpu.regs.b;
    let res = inc8_exec(&mut cpu.regs, v);
    cpu.regs.b = res;
    cpu.cycles = 4;
}

/// DEC B.
pub open spec fn spec_dec_b(o: Cpu, n: Cpu) -> bool {
    n == (Cpu { regs: Register { b: dec_value(o.regs.b), ..dec_flags(o.regs, o.regs.b) }, cycles: 4, ..o })
}

/// DEC B.
pub fn dec_b(cpu: &mut Cpu)
    requires
        old(cpu).wf(),
    ensures
        final(cpu).wf(),
        spec_dec_b(*old(cpu), *final(cpu)),
{
    let v = cpu.regs.b;
    let res = dec8_exec(&mut cpu.regs, v);
    cpu.regs.b = res;
    cpu.cycles = 4;
}

/// LD B, u8.
pub open spec fn spec_ld_b_u8(o: Cpu, n: Cpu) -> bool {
    n == (Cpu { regs: Register { b: o.imm8(), ..adv(o.regs, 1) }, cycles: 8, ..o })
}

/// LD B, u8.
pub fn ld_b_u8(cpu: &mut Cpu)
    requires
        old(cpu).wf(),
    ensures
        final(cpu).wf(),
        spec_ld_b_u8(*old(cpu), *final(cpu)),
{
    let v = cpu.fetch_byte();
    cpu.regs.b = v;
    cpu.cycles = 8;
}

/// RLCA: rotates A; Z is cleared.
pub open spec fn spec_rlca(o: Cpu, n: Cpu) -> bool {
    n == (Cpu { regs: Register { a: shift_value(Shift::Rlc, o.regs.a, o.regs.cf), ..o.regs.with_flags(false, false, false, shift_carry(Shift::Rlc, o.regs.a)) }, cycles: 4, ..o })
}

/// RLCA: rotates A; Z is cleared.
pub fn rlca(cpu: &mut Cpu)
    requires
        old(cpu).wf(),
    ensures
        final(cpu).wf(),
        spec_rlca(*old(cpu), *final(cpu)),
{
    let a = cpu.regs.a;
    let res = shift_exec(&mut cpu.regs, Shift::Rlc, a);
    cpu.regs.a = res;
    cpu.regs.zf = false;
    cpu.cycles = 4;
}

/// LD (u16), SP: low byte of SP at the address, high byte after it.
pub open spec fn spec_ld_mu16_sp(o: Cpu, n: Cpu) -> bool {
    &&& n == (Cpu { regs: adv(o.regs, 2), bus: n.bus, cycles: 20, ..o })
    &&& wrote2(o.bus, n.bus, o.imm16(), lo_byte(o.regs.sp), wrap16(o.imm16() + 1), hi_byte(o.regs.sp))
}

/// LD (u16), SP: low byte of SP at the address, high byte after it.
pub fn ld_mu16_sp(cpu: &mut Cpu)
    requires
        old(cpu).wf(),
    ensures
        final(cpu).wf(),
        spec_ld_mu16_sp(*old(cpu), *final(cpu)),
{
    let addr = cpu.fetch_word();
    let (hi, lo) = split_word(cpu.regs.sp);
    let ghost b0 = cpu.bus;
    cpu.write(addr, lo);
    let ghost b1 = cpu.bus;
    cpu.write(addr.wrapping_add(1), hi);
    cpu.cycles = 20;
    assert(b0.written(b1, addr, lo) && b1.written(cpu.bus, wrap16(addr + 1), hi));
}

/// ADD HL, BC.
pub open spec fn spec_add_hl_bc(o: Cpu, n: Cpu) -> bool {
    n == (Cpu { regs: add16(o.regs, o.regs.bc()), cycles: 8, ..o })
}

/// ADD HL, BC.
pub fn add_hl_bc(cpu: &mut Cpu)
    requires
        old(cpu).wf(),
    ensures
        final(cpu).wf(),
        spec_add_hl_bc(*old(cpu), *final(cpu)),
{
    let v = cpu.regs.get_bc();
    add16_exec(&mut cpu.regs, v);
    cpu.cycles = 8;
}

/// LD A, (BC).
pub open spec fn spec_ld_a_mbc(o: Cpu, n: Cpu) -> bool {
    n == (Cpu { regs: Register { a: o.peek(o.regs.bc()), ..o.regs }, cycles: 8, ..o })
}

/// LD A, (BC).
pub fn ld_a_mbc(cpu: &mut Cpu)
    requires
        old(cpu).wf(),
    ensures
        final(cpu).wf(),
        spec_ld_a_mbc(*old(cpu), *final(cpu)),
{
    let addr = cpu.regs.get_bc();
    let v = cpu.read(addr);
    cpu.regs.a = v;
    cpu.cycles = 8;
}

/// DEC BC.
pub open spec fn spec_dec_bc(o: Cpu, n: Cpu) -> bool {
    n == (Cpu { regs: o.regs.with_bc(wrap16(o.regs.bc() + 65535)), cycles: 8, ..o })
}

/// DEC BC.
pub fn dec_bc(cpu: &mut Cpu)
    requires
        old(cpu).wf(),
    ensures
        final(cpu).wf(),
        spec_dec_bc(*old(cpu), *final(cpu)),
{
    let v = cpu.regs.get_bc();
    cpu.regs.set_bc(v.wrapping_sub(1));
    cpu.cycles = 8;
}

/// INC C.
pub open spec fn spec_inc_c(o: Cpu, n: Cpu) -> bool {
    n == (Cpu { regs: Register { c: inc_value(o.regs.c), ..inc_flags(o.regs, o.regs.c) }, cycles: 4, ..o })
}

/// INC C.
pub fn inc_c(cpu: &mut Cpu)
    requires
        old(cpu).wf(),
    ensures
        final(cpu).wf(),
        spec_inc_c(*old(cpu), *final(cpu)),
{
    let v = cpu.regs.c;
    let res = inc8_exec(&mut cpu.regs, v);
    cpu.regs.c = res;
    cpu.cycles = 4;
}

/// DEC C.
pub open spec fn spec_dec_c(o: Cpu, n: Cpu) -> bool {
    n == (Cpu { regs: Register { c: dec_value(o.regs.c), ..dec_flags(o.regs, o.regs.c) }, cycles: 4, ..o })
}

/// DEC C.
pub fn dec_c(cpu: &mut Cpu)
    requires
        old(cpu).wf(),
    ensures
        final(cpu).wf(),
        spec_dec_c(*old(cpu), *final(cpu)),
{
    let v = cpu.regs.c;
    let res = dec8_exec(&mut cpu.regs, v);
    cpu.regs.c = res;
    cpu.cycles = 4;
}

/// LD C, u8.
pub open spec fn spec_ld_c_u8(o: Cpu, n: Cpu) -> bool {
    n == (Cpu { regs: Register { c: o.imm8(), ..adv(o.regs, 1) }, cycles: 8, ..o })
}

/// LD C, u8.
pub fn ld_c_u8(cpu: &mut Cpu)
    requires
        old(cpu).wf(),
    ensures
        final(cpu).wf(),
        spec_ld_c_u8(*old(cpu), *final(cpu)),
{
    let v = cpu.fetch_byte();
    cpu.regs.c = v;
    cpu.cycles = 8;
}

/// RRCA: rotates A; Z is cleared.
pub open spec fn spec_rrca(o: Cpu, n: Cpu) -> bool {
    n == (Cpu { regs: Register { a: shift_value(Shift::Rrc, o.regs.a, o.regs.cf), ..o.regs.with_flags(false, false, false, shift_carry(Shift::Rrc, o.regs.a)) }, cycles: 4, ..o })
}

/// RRCA: rotates A; Z is cleared.
pub fn rrca(cpu: &mut Cpu)
    requires
        old(cpu).wf(),
    ensures
        final(cpu).wf(),
        spec_rrca(*old(cpu), *final(cpu)),
{
    let a = cpu.regs.a;
    let res = shift_exec(&mut cpu.regs, Shift::Rrc, a);
    cpu.regs.a = res;
    cpu.regs.zf = false;
    cpu.cycles = 4;
}

/// STOP: skips the byte after the opcode and waits, like HALT, for an interrupt.
pub open spec fn spec_stop_u8(o: Cpu, n: Cpu) -> bool {
    n == (Cpu { regs: adv(o.regs, 1), cycles: 4, halted: true, ..o })
}

/// STOP: skips the byte after the opcode and waits, like HALT, for an interrupt.
pub fn stop_u8(cpu: &mut Cpu)
    requires
        old(cpu).wf(),
    ensures
        final(cpu).wf(),
        spec_stop_u8(*old(cpu), *final(cpu)),
{
    let _ = cpu.fetch_byte();
    cpu.halted = true;
    cpu.cycles = 4;
}

/// LD DE, u16.
pub open spec fn spec_ld_de_u16(o: Cpu, n: Cpu) -> bool {
    n == (Cpu { regs: adv(o.regs, 2).with_de(o.imm16()), cycles: 12, ..o })
}

/// LD DE, u16.
pub fn ld_de_u16(cpu: &mut Cpu)
    requires
        old(cpu).wf(),
    ensures
        final(cpu).wf(),
        spec_ld_de_u16(*old(cpu), *final(cpu)),
{
    let v = cpu.fetch_word();
    cpu.regs.set_de(v);
    cpu.cycles = 12;
}

/// LD (DE), A.
pub open spec fn spec_ld_mde_a(o: Cpu, n: Cpu) -> bool {
    &&& n == (Cpu { bus: n.bus, cycles: 8, ..o })
    &&& o.bus.written(n.bus, o.regs.de(), o.regs.a)
}

/// LD (DE), A.
pub fn ld_mde_a(cpu: &mut Cpu)
    requires
        old(cpu).wf(),
    ensures
        final(cpu).wf(),
        spec_ld_mde_a(*old(cpu), *final(cpu)),
{
    let addr = cpu.regs.get_de();
    let v = cpu.regs.a;
    cpu.write(addr, v);
    cpu.cycles = 8;
}

/// INC DE.
pub open spec fn spec_inc_de(o: Cpu, n: Cpu) -> bool {
    n == (Cpu { regs: o.regs.with_de(wrap16(o.regs.de() + 1)), cycles: 8, ..o })
}

/// INC DE.
pub fn inc_de(cpu: &mut Cpu)
    requires
        old(cpu).wf(),
    ensures
        final(cpu).wf(),
        spec_inc_de(*old(cpu), *final(cpu)),
{
    let v = cpu.regs.get_de();
    cpu.regs.set_de(v.wrapping_add(1));
    cpu.cycles = 8;
}

/// INC D.
pub open spec fn spec_inc_d(o: Cpu, n: Cpu) -> bool {
    n == (Cpu { regs: Register { d: inc_value(o.regs.d), ..inc_flags(o.regs, o.regs.d) }, cycles: 4, ..o })
}

/// INC D.
pub fn inc_d(cpu: &mut Cpu)
    requires
        old(cpu).wf(),
    ensures
        final(cpu).wf(),
        spec_inc_d(*old(cpu), *final(cpu)),
{
    let v = cpu.regs.d;
    let res = inc8_exec(&mut cpu.regs, v);
    cpu.regs.d = res;
    cpu.cycles = 4;
}

/// DEC D.
pub open spec fn spec_dec_d(o: Cpu, n: Cpu) -> bool {
    n == (Cpu { regs: Register { d: dec_value(o.regs.d), ..dec_flags(o.regs, o.regs.d) }, cycles: 4, ..o })
}

/// DEC D.
pub fn dec_d(cpu: &mut Cpu)
    requires
        old(cpu).wf(),
    ensures
        final(cpu).wf(),
        spec_dec_d(*old(cpu), *final(cpu)),
{
    let v = cpu.regs.d;
    let res = dec8_exec(&mut cpu.regs, v);
    cpu.regs.d = res;
    cpu.cycles = 4;
}

/// LD D, u8.
pub open spec fn spec_ld_d_u8(o: Cpu, n: Cpu) -> bool {
    n == (Cpu { regs: Register { d: o.imm8(), ..adv(o.regs, 1) }, cycles: 8, ..o })
}

/// LD D, u8.
pub fn ld_d_u8(cpu: &mut Cpu)
    requires
        old(cpu).wf(),
    ensures
        final(cpu).wf(),
        spec_ld_d_u8(*old(cpu), *final(cpu)),
{
    let v = cpu.fetch_byte();
    cpu.regs.d = v;
    cpu.cycles = 8;
}

/// RLA: rotates A; Z is cleared.
pub open spec fn spec_rla(o: Cpu, n: Cpu) -> bool {
    n == (Cpu { regs: Register { a: shift_value(Shift::Rl, o.regs.a, o.regs.cf), ..o.regs.with_flags(false, false, false, shift_carry(Shift::Rl, o.regs.a)) }, cycles: 4, ..o })
}

/// RLA: rotates A; Z is cleared.
pub fn rla(cpu: &mut Cpu)
    requires
        old(cpu).wf(),
    ensures
        final(cpu).wf(),
        spec_rla(*old(cpu), *final(cpu)),
{
    let a = cpu.regs.a;
    let res = shift_exec(&mut cpu.regs, Shift::Rl, a);
    cpu.regs.a = res;
    cpu.regs.zf = false;
    cpu.cycles = 4;
}

/// JR i8: jumps by a signed offset from the next instruction.
pub open spec fn spec_jr_i8(o: Cpu, n: Cpu) -> bool {
    n == (Cpu { regs: Register { pc: rel_target(wrap16(o.regs.pc + 1), o.imm8()), ..o.regs }, cycles: 12, ..o })
}

/// JR i8: jumps by a signed offset from the next instruction.
pub fn jr_i8(cpu: &mut Cpu)
    requires
        old(cpu).wf(),
    ensures
        final(cpu).wf(),
        spec_jr_i8(*old(cpu), *final(cpu)),
{
    let e = cpu.fetch_byte();
    cpu.regs.pc = rel_target_exec(cpu.regs.pc, e);
    cpu.cycles = 12;
}

/// ADD HL, DE.
pub open spec fn spec_add_hl_de(o: Cpu, n: Cpu) -> bool {
    n == (Cpu { regs: add16(o.regs, o.regs.de()), cycles: 8, ..o })
}

/// ADD HL, DE.
pub fn add_hl_de(cpu: &mut Cpu)
    requires
        old(cpu).wf(),
    ensures
        final(cpu).wf(),
        spec_add_hl_de(*old(cpu), *final(cpu)),
{
    let v = cpu.regs.get_de();
    add16_exec(&mut cpu.regs, v);
    cpu.cycles = 8;
}

/// LD A, (DE).
pub open spec fn spec_ld_a_mde(o: Cpu, n: Cpu) -> bool {
    n == (Cpu { regs: Register { a: o.peek(o.regs.de()), ..o.regs }, cycles: 8, ..o })
}

/// LD A, (DE).
pub fn ld_a_mde(cpu: &mut Cpu)
    requires
        old(cpu).wf(),
    ensures
        final(cpu).wf(),
        spec_ld_a_mde(*old(cpu), *final(cpu)),
{
    let addr = cpu.regs.get_de();
    let v = cpu.read(addr);
    cpu.regs.a = v;
    cpu.cycles = 8;
}

/// DEC DE.
pub open spec fn spec_dec_de(o: Cpu, n: Cpu) -> bool {
    n == (Cpu { regs: o.regs.with_de(wrap16(o.regs.de() + 65535)), cycles: 8, ..o })
}

/// DEC DE.
pub fn dec_de(cpu: &mut Cpu)
    requires
        old(cpu).wf(),
    ensures
        final(cpu).wf(),
        spec_dec_de(*old(cpu), *final(cpu)),
{
    let v = cpu.regs.get_de();
    cpu.regs.set_de(v.wrapping_sub(1));
    cpu.cycles = 8;
}

/// INC E.
pub open spec fn spec_inc_e(o: Cpu, n: Cpu) -> bool {
    n == (Cpu { regs: Register { e: inc_value(o.regs.e), ..inc_flags(o.regs, o.regs.e) }, cycles: 4, ..o })
}

/// INC E.
pub fn inc_e(cpu: &mut Cpu)
    requires
        old(cpu).wf(),
    ensures
        final(cpu).wf(),
        spec_inc_e(*old(cpu), *final(cpu)),
{
    let v = cpu.regs.e;
    let res = inc8_exec(&mut cpu.regs, v);
    cpu.regs.e = res;
    cpu.cycles = 4;
}

/// DEC E.
pub open spec fn spec_dec_e(o: Cpu, n: Cpu) -> bool {
    n == (Cpu { regs: Register { e: dec_value(o.regs.e), ..dec_flags(o.regs, o.regs.e) }, cycles: 4, ..o })
}

/// DEC E.
pub fn dec_e(cpu: &mut Cpu)
    requires
        old(cpu).wf(),
    ensures
        final(cpu).wf(),
        spec_dec_e(*old(cpu), *final(cpu)),
{
    let v = cpu.regs.e;
    let res = dec8_exec(&mut cpu.regs, v);
    cpu.regs.e = res;
    cpu.cycles = 4;
}

/// LD E, u8.
pub open spec fn spec_ld_e_u8(o: Cpu, n: Cpu) -> bool {
    n == (Cpu { regs: Register { e: o.imm8(), ..adv(o.regs, 1) }, cycles: 8, ..o })
}

/// LD E, u8.
pub fn ld_e_u8(cpu: &mut Cpu)
    requires
        old(cpu).wf(),
    ensures
        final(cpu).wf(),
        spec_ld_e_u8(*old(cpu), *final(cpu)),
{
    let v = cpu.fetch_byte();
    cpu.regs.e = v;
    cpu.cycles = 8;
}

/// RRA: rotates A; Z is cleared.
pub open spec fn spec_rra(o: Cpu, n: Cpu) -> bool {
    n == (Cpu { regs: Register { a: shift_value(Shift::Rr, o.regs.a, o.regs.cf), ..o.regs.with_flags(false, false, false, shift_carry(Shift::Rr, o.regs.a)) }, cycles: 4, ..o })
}

/// RRA: rotates A; Z is cleared.
pub fn rra(cpu: &mut Cpu)
    requires
        old(cpu).wf(),
    ensures
        final(cpu).wf(),
        spec_rra(*old(cpu), *final(cpu)),
{
    let a = cpu.regs.a;
    let res = shift_exec(&mut cpu.regs, Shift::Rr, a);
    cpu.regs.a = res;
    cpu.regs.zf = false;
    cpu.cycles = 4;
}

/// JR NZ, i8: 12 cycles when taken, 8 when not.
pub open spec fn spec_jr_nz_i8(o: Cpu, n: Cpu) -> bool {
    if !o.regs.zf {
        n == (Cpu { regs: Register { pc: rel_target(wrap16(o.regs.pc + 1), o.imm8()), ..o.regs }, cycles: 12, ..o })
    } else {
        n == (Cpu { regs: adv(o.regs, 1), cycles: 8, ..o })
    }
}

/// JR NZ, i8: 12 cycles when taken, 8 when not.
pub fn jr_nz_i8(cpu: &mut Cpu)
    requires
        old(cpu).wf(),
    ensures
        final(cpu).wf(),
        spec_jr_nz_i8(*old(cpu), *final(cpu)),
{
    let e = cpu.fetch_byte();
    if !cpu.regs.zf {
        cpu.regs.pc = rel_target_exec(cpu.regs.pc, e);
        cpu.cycles = 12;
    } else {
        cpu.cycles = 8;
    }
}

/// LD HL, u16.
pub open spec fn spec_ld_hl_u16(o: Cpu, n: Cpu) -> bool {
    n == (Cpu { regs: adv(o.regs, 2).with_hl(o.imm16()), cycles: 12, ..o })
}

/// LD HL, u16.
pub fn ld_hl_u16(cpu: &mut Cpu)
    requires
        old(cpu).wf(),
    ensures
        final(cpu).wf(),
        spec_ld_hl_u16(*old(cpu), *final(cpu)),
{
    let v = cpu.fetch_word();
    cpu.regs.set_hl(v);
    cpu.cycles = 12;
}

/// LD (HL+), A.
pub open spec fn spec_ld_mhli_a(o: Cpu, n: Cpu) -> bool {
    &&& n == (Cpu { regs: o.regs.with_hl(wrap16(o.regs.hl() + 1)), bus: n.bus, cycles: 8, ..o })
    &&& o.bus.written(n.bus, o.regs.hl(), o.regs.a)
}

/// LD (HL+), A.
pub fn ld_mhli_a(cpu: &mut Cpu)
    requires
        old(cpu).wf(),
    ensures
        final(cpu).wf(),
        spec_ld_mhli_a(*old(cpu), *final(cpu)),
{
    let hl = cpu.regs.get_hl();
    let v = cpu.regs.a;
    cpu.write(hl, v);
    cpu.regs.set_hl(hl.wrapping_add(1));
    cpu.cycles = 8;
}

/// INC HL.
pub open spec fn spec_inc_hl(o: Cpu, n: Cpu) -> bool {
    n == (Cpu { regs: o.regs.with_hl(wrap16(o.regs.hl() + 1)), cycles: 8, ..o })
}

/// INC HL.
pub fn inc_hl(cpu: &mut Cpu)
    requires
        old(cpu).wf(),
    ensures
        final(cpu).wf(),
        spec_inc_hl(*old(cpu), *final(cpu)),
{
    let v = cpu.regs.get_hl();
    cpu.regs.set_hl(v.wrapping_add(1));
    cpu.cycles = 8;
}

/// INC H.
pub open spec fn spec_inc_h(o: Cpu, n: Cpu) -> bool {
    n == (Cpu { regs: Register { h: inc_value(o.regs.h), ..inc_flags(o.regs, o.regs.h) }, cycles: 4, ..o })
}

/// INC H.
pub fn inc_h(cpu: &mut Cpu)
    requires
        old(cpu).wf(),
    ensures
        final(cpu).wf(),
        spec_inc_h(*old(cpu), *final(cpu)),
{
    let v = cpu.regs.h;
    let res = inc8_exec(&mut cpu.regs, v);
    cpu.regs.h = res;
    cpu.cycles = 4;
}

/// DEC H.
pub open spec fn spec_dec_h(o: Cpu, n: Cpu) -> bool {
    n == (Cpu { regs: Register { h: dec_value(o.regs.h), ..dec_flags(o.regs, o.regs.h) }, cycles: 4, ..o })
}

/// DEC H.
pub fn dec_h(cpu: &mut Cpu)
    requires
        old(cpu).wf(),
    ensures
        final(cpu).wf(),
        spec_dec_h(*old(cpu), *final(cpu)),
{
    let v = cpu.regs.h;
    let res = dec8_exec(&mut cpu.regs, v);
    cpu.regs.h = res;
    cpu.cycles = 4;
}

/// LD H, u8.
pub open spec fn spec_ld_h_u8(o: Cpu, n: Cpu) -> bool {
    n == (Cpu { regs: Register { h: o.imm8(), ..adv(o.regs, 1) }, cycles: 8, ..o })
}

/// LD H, u8.
pub fn ld_h_u8(cpu: &mut Cpu)
    requires
        old(cpu).wf(),
    ensures
        final(cpu).wf(),
        spec_ld_h_u8(*old(cpu), *final(cpu)),
{
    let v = cpu.fetch_byte();
    cpu.regs.h = v;
    cpu.cycles = 8;
}

/// DAA.
pub open spec fn spec_daa(o: Cpu, n: Cpu) -> bool {
    n == (Cpu { regs: decimal_adjust(o.regs), cycles: 4, ..o })
}

/// DAA.
pub fn daa(cpu: &mut Cpu)
    requires
        old(cpu).wf(),
    ensures
        final(cpu).wf(),
        spec_daa(*old(cpu), *final(cpu)),
{
    daa_exec(&mut cpu.regs);
    cpu.cycles = 4;
}

/// JR Z, i8: 12 cycles when taken, 8 when not.
pub open spec fn spec_jr_z_i8(o: Cpu, n: Cpu) -> bool {
    if o.regs.zf {
        n == (Cpu { regs: Register { pc: rel_target(wrap16(o.regs.pc + 1), o.imm8()), ..o.regs }, cycles: 12, ..o })
    } else {
        n == (Cpu { regs: adv(o.regs, 1), cycles: 8, ..o })
    }
}

/// JR Z, i8: 12 cycles when taken, 8 when not.
pub fn jr_z_i8(cpu: &mut Cpu)
    requires
        old(cpu).wf(),
    ensures
        final(cpu).wf(),
        spec_jr_z_i8(*old(cpu), *final(cpu)),
{
    let e = cpu.fetch_byte();
    if cpu.regs.zf {
        cpu.regs.pc = rel_target_exec(cpu.regs.pc, e);
        cpu.cycles = 12;
    } else {
        cpu.cycles = 8;
    }
}

/// ADD HL, HL.
pub open spec fn spec_add_hl_hl(o: Cpu, n: Cpu) -> bool {
    n == (Cpu { regs: add16(o.regs, o.regs.hl()), cycles: 8, ..o })
}

/// ADD HL, HL.
pub fn add_hl_hl(cpu: &mut Cpu)
    requires
        old(cpu).wf(),
    ensures
        final(cpu).wf(),
        spec_add_hl_hl(*old(cpu), *final(cpu)),
{
    let v = cpu.regs.get_hl();
    add16_exec(&mut cpu.regs, v);
    cpu.cycles = 8;
}

/// LD A, (HL+).
pub open spec fn spec_ld_a_mhli(o: Cpu, n: Cpu) -> bool {
    n == (Cpu { regs: Register { a: o.peek(o.regs.hl()), ..o.regs }.with_hl(wrap16(o.regs.hl() + 1)), cycles: 8, ..o })
}

/// LD A, (HL+).
pub fn ld_a_mhli(cpu: &mut Cpu)
    requires
        old(cpu).wf(),
    ensures
        final(cpu).wf(),
        spec_ld_a_mhli(*old(cpu), *final(cpu)),
{
    let hl = cpu.regs.get_hl();
    let v = cpu.read(hl);
    cpu.regs.a = v;
    cpu.regs.set_hl(hl.wrapping_add(1));
    cpu.cycles = 8;
}

/// DEC HL.
pub open spec fn spec_dec_hl(o: Cpu, n: Cpu) -> bool {
    n == (Cpu { regs: o.regs.with_hl(wrap16(o.regs.hl() + 65535)), cycles: 8, ..o })
}

/// DEC HL.
pub fn dec_hl(cpu: &mut Cpu)
    requires
        old(cpu).wf(),
    ensures
        final(cpu).wf(),
        spec_dec_hl(*old(cpu), *final(cpu)),
{
    let v = cpu.regs.get_hl();
    cpu.regs.set_hl(v.wrapping_sub(1));
    cpu.cycles = 8;
}

/// INC L.
pub open spec fn spec_inc_l(o: Cpu, n: Cpu) -> bool {
    n == (Cpu { regs: Register { l: inc_value(o.regs.l), ..inc_flags(o.regs, o.regs.l) }, cycles: 4, ..o })
}

/// INC L.
pub fn inc_l(cpu: &mut Cpu)
    requires
        old(cpu).wf(),
    ensures
        final(cpu).wf(),
        spec_inc_l(*old(cpu), *final(cpu)),
{
    let v = cpu.regs.l;
    let res = inc8_exec(&mut cpu.regs, v);
    cpu.regs.l = res;
    cpu.cycles = 4;
}

/// DEC L.
pub open spec fn spec_dec_l(o: Cpu, n: Cpu) -> bool {
    n == (Cpu { regs: Register { l: dec_value(o.regs.l), ..dec_flags(o.regs, o.regs.l) }, cycles: 4, ..o })
}

/// DEC L.
pub fn dec_l(cpu: &mut Cpu)
    requires
        old(cpu).wf(),
    ensures
        final(cpu).wf(),
        spec_dec_l(*old(cpu), *final(cpu)),
{
    let v = cpu.regs.l;
    let res = dec8_exec(&mut cpu.regs, v);
    cpu.regs.l = res;
    cpu.cycles = 4;
}

/// LD L, u8.
pub open spec fn spec_ld_l_u8(o: Cpu, n: Cpu) -> bool {
    n == (Cpu { regs: Register { l: o.imm8(), ..adv(o.regs, 1) }, cycles: 8, ..o })
}

/// LD L, u8.
pub fn ld_l_u8(cpu: &mut Cpu)
    requires
        old(cpu).wf(),
    ensures
        final(cpu).wf(),
        spec_ld_l_u8(*old(cpu), *final(cpu)),
{
    let v = cpu.fetch_byte();
    cpu.regs.l = v;
    cpu.cycles = 8;
}

/// CPL: complements A; N and H set.
pub open spec fn spec_cpl(o: Cpu, n: Cpu) -> bool {
    n == (Cpu { regs: Register { a: (255 - o.regs.a) as u8, nf: true, hf: true, ..o.regs }, cycles: 4, ..o })
}

/// CPL: complements A; N and H set.
pub fn cpl(cpu: &mut Cpu)
    requires
        old(cpu).wf(),
    ensures
        final(cpu).wf(),
        spec_cpl(*old(cpu), *final(cpu)),
{
    cpu.regs.a = 255 - cpu.regs.a;
    cpu.regs.nf = true;
    cpu.regs.hf = true;
    cpu.cycles = 4;
}

/// JR NC, i8: 12 cycles when taken, 8 when not.
pub open spec fn spec_jr_nc_i8(o: Cpu, n: Cpu) -> bool {
    if !o.regs.cf {
        n == (Cpu { regs: Register { pc: rel_target(wrap16(o.regs.pc + 1), o.imm8()), ..o.regs }, cycles: 12, ..o })
    } else {
        n == (Cpu { regs: adv(o.regs, 1), cycles: 8, ..o })
    }
}

/// JR NC, i8: 12 cycles when taken, 8 when not.
pub fn jr_nc_i8(cpu: &mut Cpu)
    requires
        old(cpu).wf(),
    ensures
        final(cpu).wf(),
        spec_jr_nc_i8(*old(cpu), *final(cpu)),
{
    let e = cpu.fetch_byte();
    if !cpu.regs.cf {
        cpu.regs.pc = rel_target_exec(cpu.regs.pc, e);
        cpu.cycles = 12;
    } else {
        cpu.cycles = 8;
    }
}

/// LD SP, u16.
pub open spec fn spec_ld_sp_u16(o: Cpu, n: Cpu) -> bool {
    n == (Cpu { regs: Register { sp: o.imm16(), ..adv(o.regs, 2) }, cycles: 12, ..o })
}

/// LD SP, u16.
pub fn ld_sp_u16(cpu: &mut Cpu)
    requires
        old(cpu).wf(),
    ensures
        final(cpu).wf(),
        spec_ld_sp_u16(*old(cpu), *final(cpu)),
{
    let v = cpu.fetch_word();
    cpu.regs.sp = v;
    cpu.cycles = 12;
}

/// LD (HL-), A.
pub open spec fn spec_ld_mhld_a(o: Cpu, n: Cpu) -> bool {
    &&& n == (Cpu { regs: o.regs.with_hl(wrap16(o.regs.hl() + 65535)), bus: n.bus, cycles: 8, ..o })
    &&& o.bus.written(n.bus, o.regs.hl(), o.regs.a)
}

/// LD (HL-), A.
pub fn ld_mhld_a(cpu: &mut Cpu)
    requires
        old(cpu).wf(),
    ensures
        final(cpu).wf(),
        spec_ld_mhld_a(*old(cpu), *final(cpu)),
{
    let hl = cpu.regs.get_hl();
    let v = cpu.regs.a;
    cpu.write(hl, v);
    cpu.regs.set_hl(hl.wrapping_sub(1));
    cpu.cycles = 8;
}

/// INC SP.
pub open spec fn spec_inc_sp(o: Cpu, n: Cpu) -> bool {
    n == (Cpu { regs: Register { sp: wrap16(o.regs.sp + 1), ..o.regs }, cycles: 8, ..o })
}

/// INC SP.
pub fn inc_sp(cpu: &mut Cpu)
    requires
        old(cpu).wf(),
    ensures
        final(cpu).wf(),
        spec_inc_sp(*old(cpu), *final(cpu)),
{
    cpu.regs.sp = cpu.regs.sp.wrapping_add(1);
    cpu.cycles = 8;
}

/// INC (HL).
pub open spec fn spec_inc_mhl(o: Cpu, n: Cpu) -> bool {
    &&& n == (Cpu { regs: inc_flags(o.regs, o.peek(o.regs.hl())), bus: n.bus, cycles: 12, ..o })
    &&& o.bus.written(n.bus, o.regs.hl(), inc_value(o.peek(o.regs.hl())))
}

/// INC (HL).
pub fn inc_mhl(cpu: &mut Cpu)
    requires
        old(cpu).wf(),
    ensures
        final(cpu).wf(),
        spec_inc_mhl(*old(cpu), *final(cpu)),
{
    let hl = cpu.regs.get_hl();
    let v = cpu.read(hl);
    let res = inc8_exec(&mut cpu.regs, v);
    cpu.write(hl, res);
    cpu.cycles = 12;
}

/// DEC (HL).
pub open spec fn spec_dec_mhl(o: Cpu, n: Cpu) -> bool {
    &&& n == (Cpu { regs: dec_flags(o.regs, o.peek(o.regs.hl())), bus: n.bus, cycles: 12, ..o })
    &&& o.bus.written(n.bus, o.regs.hl(), dec_value(o.peek(o.regs.hl())))
}

/// DEC (HL).
pub fn dec_mhl(cpu: &mut Cpu)
    requires
        old(cpu).wf(),
    ensures
        final(cpu).wf(),
        spec_dec_mhl(*old(cpu), *final(cpu)),
{
    let hl = cpu.regs.get_hl();
    let v = cpu.read(hl);
    let res = dec8_exec(&mut cpu.regs, v);
    cpu.write(hl, res);
    cpu.cycles = 12;
}

/// LD (HL), u8.
pub open spec fn spec_ld_mhl_u8(o: Cpu, n: Cpu) -> bool {
    &&& n == (Cpu { regs: adv(o.regs, 1), bus: n.bus, cycles: 12, ..o })
    &&& o.bus.written(n.bus, o.regs.hl(), o.imm8())
}

/// LD (HL), u8.
pub fn ld_mhl_u8(cpu: &mut Cpu)
    requires
        old(cpu).wf(),
    ensures
        final(cpu).wf(),
        spec_ld_mhl_u8(*old(cpu), *final(cpu)),
{
    let v = cpu.fetch_byte();
    let hl = cpu.regs.get_hl();
    cpu.write(hl, v);
    cpu.cycles = 12;
}

/// SCF: sets C; N and H cleared.
pub open spec fn spec_scf(o: Cpu, n: Cpu) -> bool {
    n == (Cpu { regs: Register { nf: false, hf: false, cf: true, ..o.regs }, cycles: 4, ..o })
}

/// SCF: sets C; N and H cleared.
pub fn scf(cpu: &mut Cpu)
    requires
        old(cpu).wf(),
    ensures
        final(cpu).wf(),
        spec_scf(*old(cpu), *final(cpu)),
{
    cpu.regs.nf = false;
    cpu.regs.hf = false;
    cpu.regs.cf = true;
    cpu.cycles = 4;
}

/// JR C, i8: 12 cycles when taken, 8 when not.
pub open spec fn spec_jr_c_i8(o: Cpu, n: Cpu) -> bool {
    if o.regs.cf {
        n == (Cpu { regs: Register { pc: rel_target(wrap16(o.regs.pc + 1), o.imm8()), ..o.regs }, cycles: 12, ..o })
    } else {
        n == (Cpu { regs: adv(o.regs, 1), cycles: 8, ..o })
    }
}

/// JR C, i8: 12 cycles when taken, 8 when not.
pub fn jr_c_i8(cpu: &mut Cpu)
    requires
        old(cpu).wf(),
    ensures
        final(cpu).wf(),
        spec_jr_c_i8(*old(cpu), *final(cpu)),
{
    let e = cpu.fetch_byte();
    if cpu.regs.cf {
        cpu.regs.pc = rel_target_exec(cpu.regs.pc, e);
        cpu.cycles = 12;
    } else {
        cpu.cycles = 8;
    }
}

/// ADD HL, SP.
pub open spec fn spec_add_hl_sp(o: Cpu, n: Cpu) -> bool {
    n == (Cpu { regs: add16(o.regs, o.regs.sp), cycles: 8, ..o })
}

/// ADD HL, SP.
pub fn add_hl_sp(cpu: &mut Cpu)
    requires
        old(cpu).wf(),
    ensures
        final(cpu).wf(),
        spec_add_hl_sp(*old(cpu), *final(cpu)),
{
    let v = cpu.regs.sp;
    add16_exec(&mut cpu.regs, v);
    cpu.cycles = 8;
}

/// LD A, (HL-).
pub open spec fn spec_ld_a_mhld(o: Cpu, n: Cpu) -> bool {
    n == (Cpu { regs: Register { a: o.peek(o.regs.hl()), ..o.regs }.with_hl(wrap16(o.regs.hl() + 65535)), cycles: 8, ..o })
}

/// LD A, (HL-).
pub fn ld_a_mhld(cpu: &mut Cpu)
    requires
        old(cpu).wf(),
    ensures
        final(cpu).wf(),
        spec_ld_a_mhld(*old(cpu), *final(cpu)),
{
    let hl = cpu.regs.get_hl();
    let v = cpu.read(hl);
    cpu.regs.a = v;
    cpu.regs.set_hl(hl.wrapping_sub(1));
    cpu.cycles = 8;
}

/// DEC SP.
pub open spec fn spec_dec_sp(o: Cpu, n: Cpu) -> bool {
    n == (Cpu { regs: Register { sp: wrap16(o.regs.sp + 65535), ..o.regs }, cycles: 8, ..o })
}

/// DEC SP.
pub fn dec_sp(cpu: &mut Cpu)
    requires
        old(cpu).wf(),
    ensures
        final(cpu).wf(),
        spec_dec_sp(*old(cpu), *final(cpu)),
{
    cpu.regs.sp = cpu.regs.sp.wrapping_sub(1);
    cpu.cycles = 8;
}

/// INC A.
pub open spec fn spec_inc_a(o: Cpu, n: Cpu) -> bool {
    n == (Cpu { regs: Register { a: inc_value(o.regs.a), ..inc_flags(o.regs, o.regs.a) }, cycles: 4, ..o })
}

/// INC A.
pub fn inc_a(cpu: &mut Cpu)
    requires
        old(cpu).wf(),
    ensures
        final(cpu).wf(),
        spec_inc_a(*old(cpu), *final(cpu)),
{
    let v = cpu.regs.a;
    let res = inc8_exec(&mut cpu.regs, v);
    cpu.regs.a = res;
    cpu.cycles = 4;
}

/// DEC A.
pub open spec fn spec_dec_a(o: Cpu, n: Cpu) -> bool {
    n == (Cpu { regs: Register { a: dec_value(o.regs.a), ..dec_flags(o.regs, o.regs.a) }, cycles: 4, ..o })
}

/// DEC A.
pub fn dec_a(cpu: &mut Cpu)
    requires
        old(cpu).wf(),
    ensures
        final(cpu).wf(),
        spec_dec_a(*old(cpu), *final(cpu)),
{
    let v = cpu.regs.a;
    let res = dec8_exec(&mut cpu.regs, v);
    cpu.regs.a = res;
    cpu.cycles = 4;
}

/// LD A, u8.
pub open spec fn spec_ld_a_u8(o: Cpu, n: Cpu) -> bool {
    n == (Cpu { regs: Register { a: o.imm8(), ..adv(o.regs, 1) }, cycles: 8, ..o })
}

/// LD A, u8.
pub fn ld_a_u8(cpu: &mut Cpu)
    requires
        old(cpu).wf(),
    ensures
        final(cpu).wf(),
        spec_ld_a_u8(*old(cpu), *final(cpu)),
{
    let v = cpu.fetch_byte();
    cpu.regs.a = v;
    cpu.cycles = 8;
}

/// CCF: complements C; N and H cleared.
pub open spec fn spec_ccf(o: Cpu, n: Cpu) -> bool {
    n == (Cpu { regs: Register { nf: false, hf: false, cf: !o.regs.cf, ..o.regs }, cycles: 4, ..o })
}

/// CCF: complements C; N and H cleared.
pub fn ccf(cpu: &mut Cpu)
    requires
        old(cpu).wf(),
    ensures
        final(cpu).wf(),
        spec_ccf(*old(cpu), *final(cpu)),
{
    cpu.regs.nf = false;
    cpu.regs.hf = false;
    cpu.regs.cf = !cpu.regs.cf;
    cpu.cycles = 4;
}

/// LD B, B.
pub open spec fn spec_ld_b_b(o: Cpu, n: Cpu) -> bool {
    n == (Cpu { regs: Register { b: o.regs.b, ..o.regs }, cycles: 4, ..o })
}

/// LD B, B.
pub fn ld_b_b(cpu: &mut Cpu)
    requires
        old(cpu).wf(),
    ensures
        final(cpu).wf(),
        spec_ld_b_b(*old(cpu), *final(cpu)),
{
    cpu.regs.b = cpu.regs.b;
    cpu.cycles = 4;
}

/// LD B, C.
pub open spec fn spec_ld_b_c(o: Cpu, n: Cpu) -> bool {
    n == (Cpu { regs: Register { b: o.regs.c, ..o.regs }, cycles: 4, ..o })
}

/// LD B, C.
pub fn ld_b_c(cpu: &mut Cpu)
    requires
        old(cpu).wf(),
    ensures
        final(cpu).wf(),
        spec_ld_b_c(*old(cpu), *final(cpu)),
{
    cpu.regs.b = cpu.regs.c;
    cpu.cycles = 4;
}

/// LD B, D.
pub open spec fn spec_ld_b_d(o: Cpu, n: Cpu) -> bool {
    n == (Cpu { regs: Register { b: o.regs.d, ..o.regs }, cycles: 4, ..o })
}

/// LD B, D.
pub fn ld_b_d(cpu: &mut Cpu)
    requires
        old(cpu).wf(),
    ensures
        final(cpu).wf(),
        spec_ld_b_d(*old(cpu), *final(cpu)),
{
    cpu.regs.b = cpu.regs.d;
    cpu.cycles = 4;
}

/// LD B, E.
pub open spec fn spec_ld_b_e(o: Cpu, n: Cpu) -> bool {
    n == (Cpu { regs: Register { b: o.regs.e, ..o.regs }, cycles: 4, ..o })
}

/// LD B, E.
pub fn ld_b_e(cpu: &mut Cpu)
    requires
        old(cpu).wf(),
    ensures
        final(cpu).wf(),
        spec_ld_b_e(*old(cpu), *final(cpu)),
{
    cpu.regs.b = cpu.regs.e;
    cpu.cycles = 4;
}

/// LD B, H.
pub open spec fn spec_ld_b_h(o: Cpu, n: Cpu) -> bool {
    n == (Cpu { regs: Register { b: o.regs.h, ..o.regs }, cycles: 4, ..o })
}

/// LD B, H.
pub fn ld_b_h(cpu: &mut Cpu)
    requires
        old(cpu).wf(),
    ensures
        final(cpu).wf(),
        spec_ld_b_h(*old(cpu), *final(cpu)),
{
    cpu.regs.b = cpu.regs.h;
    cpu.cycles = 4;
}

/// LD B, L.
pub open spec fn spec_ld_b_l(o: Cpu, n: Cpu) -> bool {
    n == (Cpu { regs: Register { b: o.regs.l, ..o.regs }, cycles: 4, ..o })
}

/// LD B, L.
pub fn ld_b_l(cpu: &mut Cpu)
    requires
        old(cpu).wf(),
    ensures
        final(cpu).wf(),
        spec_ld_b_l(*old(cpu), *final(cpu)),
{
    cpu.regs.b = cpu.regs.l;
    cpu.cycles = 4;
}

/// LD B, (HL).
pub open spec fn spec_ld_b_mhl(o: Cpu, n: Cpu) -> bool {
    n == (Cpu { regs: Register { b: o.peek(o.regs.hl()), ..o.regs }, cycles: 8, ..o })
}

/// LD B, (HL).
pub fn ld_b_mhl(cpu: &mut Cpu)
    requires
        old(cpu).wf(),
    ensures
        final(cpu).wf(),
        spec_ld_b_mhl(*old(cpu), *final(cpu)),
{
    let hl = cpu.regs.get_hl();
    let v = cpu.read(hl);
    cpu.regs.b = v;
    cpu.cycles = 8;
}

/// LD B, A.
pub open spec fn spec_ld_b_a(o: Cpu, n: Cpu) -> bool {
    n == (Cpu { regs: Register { b: o.regs.a, ..o.regs }, cycles: 4, ..o })
}

/// LD B, A.
pub fn ld_b_a(cpu: &mut Cpu)
    requires
        old(cpu).wf(),
    ensures
        final(cpu).wf(),
        spec_ld_b_a(*old(cpu), *final(cpu)),
{
    cpu.regs.b = cpu.regs.a;
    cpu.cycles = 4;
}

/// LD C, B.
pub open spec fn spec_ld_c_b(o: Cpu, n: Cpu) -> bool {
    n == (Cpu { regs: Register { c: o.regs.b, ..o.regs }, cycles: 4, ..o })
}

/// LD C, B.
pub fn ld_c_b(cpu: &mut Cpu)
    requires
        old(cpu).wf(),
    ensures
        final(cpu).wf(),
        spec_ld_c_b(*old(cpu), *final(cpu)),
{
    cpu.regs.c = cpu.regs.b;
    cpu.cycles = 4;
}

/// LD C, C.
pub open spec fn spec_ld_c_c(o: Cpu, n: Cpu) -> bool {
    n == (Cpu { regs: Register { c: o.regs.c, ..o.regs }, cycles: 4, ..o })
}

/// LD C, C.
pub fn ld_c_c(cpu: &mut Cpu)
    requires
        old(cpu).wf(),
    ensures
        final(cpu).wf(),
        spec_ld_c_c(*old(cpu), *final(cpu)),
{
    cpu.regs.c = cpu.regs.c;
    cpu.cycles = 4;
}

/// LD C, D.
pub open spec fn spec_ld_c_d(o: Cpu, n: Cpu) -> bool {
    n == (Cpu { regs: Register { c: o.regs.d, ..o.regs }, cycles: 4, ..o })
}

/// LD C, D.
pub fn ld_c_d(cpu: &mut Cpu)
    requires
        old(cpu).wf(),
    ensures
        final(cpu).wf(),
        spec_ld_c_d(*old(cpu), *final(cpu)),
{
    cpu.regs.c = cpu.regs.d;
    cpu.cycles = 4;
}

/// LD C, E.
pub open spec fn spec_ld_c_e(o: Cpu, n: Cpu) -> bool {
    n == (Cpu { regs: Register { c: o.regs.e, ..o.regs }, cycles: 4, ..o })
}

/// LD C, E.
pub fn ld_c_e(cpu: &mut Cpu)
    requires
        old(cpu).wf(),
    ensures
        final(cpu).wf(),
        spec_ld_c_e(*old(cpu), *final(cpu)),
{
    cpu.regs.c = cpu.regs.e;
    cpu.cycles = 4;
}

/// LD C, H.
pub open spec fn spec_ld_c_h(o: Cpu, n: Cpu) -> bool {
    n == (Cpu { regs: Register { c: o.regs.h, ..o.regs }, cycles: 4, ..o })
}

/// LD C, H.
pub fn ld_c_h(cpu: &mut Cpu)
    requires
        old(cpu).wf(),
    ensures
        final(cpu).wf(),
        spec_ld_c_h(*old(cpu), *final(cpu)),
{
    cpu.regs.c = cpu.regs.h;
    cpu.cycles = 4;
}

/// LD C, L.
pub open spec fn spec_ld_c_l(o: Cpu, n: Cpu) -> bool {
    n == (Cpu { regs: Register { c: o.regs.l, ..o.regs }, cycles: 4, ..o })
}

/// LD C, L.
pub fn ld_c_l(cpu: &mut Cpu)
    requires
        old(cpu).wf(),
    ensures
        final(cpu).wf(),
        spec_ld_c_l(*old(cpu), *final(cpu)),
{
    cpu.regs.c = cpu.regs.l;
    cpu.cycles = 4;
}

/// LD C, (HL).
pub open spec fn spec_ld_c_mhl(o: Cpu, n: Cpu) -> bool {
    n == (Cpu { regs: Register { c: o.peek(o.regs.hl()), ..o.regs }, cycles: 8, ..o })
}

/// LD C, (HL).
pub fn ld_c_mhl(cpu: &mut Cpu)
    requires
        old(cpu).wf(),
    ensures
        final(cpu).wf(),
        spec_ld_c_mhl(*old(cpu), *final(cpu)),
{
    let hl = cpu.regs.get_hl();
    let v = cpu.read(hl);
    cpu.regs.c = v;
    cpu.cycles = 8;
}

/// LD C, A.
pub open spec fn spec_ld_c_a(o: Cpu, n: Cpu) -> bool {
    n == (Cpu { regs: Register { c: o.regs.a, ..o.regs }, cycles: 4, ..o })
}

/// LD C, A.
pub fn ld_c_a(cpu: &mut Cpu)
    requires
        old(cpu).wf(),
    ensures
        final(cpu).wf(),
        spec_ld_c_a(*old(cpu), *final(cpu)),
{
    cpu.regs.c = cpu.regs.a;
    cpu.cycles = 4;
}

/// LD D, B.
pub open spec fn spec_ld_d_b(o: Cpu, n: Cpu) -> bool {
    n == (Cpu { regs: Register { d: o.regs.b, ..o.regs }, cycles: 4, ..o })
}

/// LD D, B.
pub fn ld_d_b(cpu: &mut Cpu)
    requires
        old(cpu).wf(),
    ensures
        final(cpu).wf(),
        spec_ld_d_b(*old(cpu), *final(cpu)),
{
    cpu.regs.d = cpu.regs.b;
    cpu.cycles = 4;
}

/// LD D, C.
pub open spec fn spec_ld_d_c(o: Cpu, n: Cpu) -> bool {
    n == (Cpu { regs: Register { d: o.regs.c, ..o.regs }, cycles: 4, ..o })
}

/// LD D, C.
pub fn ld_d_c(cpu: &mut Cpu)
    requires
        old(cpu).wf(),
    ensures
        final(cpu).wf(),
        spec_ld_d_c(*old(cpu), *final(cpu)),
{
    cpu.regs.d = cpu.regs.c;
    cpu.cycles = 4;
}

/// LD D, D.
pub open spec fn spec_ld_d_d(o: Cpu, n: Cpu) -> bool {
    n == (Cpu { regs: Register { d: o.regs.d, ..o.regs }, cycles: 4, ..o })
}

/// LD D, D.
pub fn ld_d_d(cpu: &mut Cpu)
    requires
        old(cpu).wf(),
    ensures
        final(cpu).wf(),
        spec_ld_d_d(*old(cpu), *final(cpu)),
{
    cpu.regs.d = cpu.regs.d;
    cpu.cycles = 4;
}

/// LD D, E.
pub open spec fn spec_ld_d_e(o: Cpu, n: Cpu) -> bool {
    n == (Cpu { regs: Register { d: o.regs.e, ..o.regs }, cycles: 4, ..o })
}

/// LD D, E.
pub fn ld_d_e(cpu: &mut Cpu)
    requires
        old(cpu).wf(),
    ensures
        final(cpu).wf(),
        spec_ld_d_e(*old(cpu), *final(cpu)),
{
    cpu.regs.d = cpu.regs.e;
    cpu.cycles = 4;
}

/// LD D, H.
pub open spec fn spec_ld_d_h(o: Cpu, n: Cpu) -> bool {
    n == (Cpu { regs: Register { d: o.regs.h, ..o.regs }, cycles: 4, ..o })
}

/// LD D, H.
pub fn ld_d_h(cpu: &mut Cpu)
    requires
        old(cpu).wf(),
    ensures
        final(cpu).wf(),
        spec_ld_d_h(*old(cpu), *final(cpu)),
{
    cpu.regs.d = cpu.regs.h;
    cpu.cycles = 4;
}

/// LD D, L.
pub open spec fn spec_ld_d_l(o: Cpu, n: Cpu) -> bool {
    n == (Cpu { regs: Register { d: o.regs.l, ..o.regs }, cycles: 4, ..o })
}

/// LD D, L.
pub fn ld_d_l(cpu: &mut Cpu)
    requires
        old(cpu).wf(),
    ensures
        final(cpu).wf(),
        spec_ld_d_l(*old(cpu), *final(cpu)),
{
    cpu.regs.d = cpu.regs.l;
    cpu.cycles = 4;
}

/// LD D, (HL).
pub open spec fn spec_ld_d_mhl(o: Cpu, n: Cpu) -> bool {
    n == (Cpu { regs: Register { d: o.peek(o.regs.hl()), ..o.regs }, cycles: 8, ..o })
}

/// LD D, (HL).
pub fn ld_d_mhl(cpu: &mut Cpu)
    requires
        old(cpu).wf(),
    ensures
        final(cpu).wf(),
        spec_ld_d_mhl(*old(cpu), *final(cpu)),
{
    let hl = cpu.regs.get_hl();
    let v = cpu.read(hl);
    cpu.regs.d = v;
    cpu.cycles = 8;
}

/// LD D, A.
pub open spec fn spec_ld_d_a(o: Cpu, n: Cpu) -> bool {
    n == (Cpu { regs: Register { d: o.regs.a, ..o.regs }, cycles: 4, ..o })
}

/// LD D, A.
pub fn ld_d_a(cpu: &mut Cpu)
    requires
        old(cpu).wf(),
    ensures
        final(cpu).wf(),
        spec_ld_d_a(*old(cpu), *final(cpu)),
{
    cpu.regs.d = cpu.regs.a;
    cpu.cycles = 4;
}

/// LD E, B.
pub open spec fn spec_ld_e_b(o: Cpu, n: Cpu) -> bool {
    n == (Cpu { regs: Register { e: o.regs.b, ..o.regs }, cycles: 4, ..o })
}

/// LD E, B.
pub fn ld_e_b(cpu: &mut Cpu)
    requires
        old(cpu).wf(),
    ensures
        final(cpu).wf(),
        spec_ld_e_b(*old(cpu), *final(cpu)),
{
    cpu.regs.e = cpu.regs.b;
    cpu.cycles = 4;
}

/// LD E, C.
pub open spec fn spec_ld_e_c(o: Cpu, n: Cpu) -> bool {
    n == (Cpu { regs: Register { e: o.regs.c, ..o.regs }, cycles: 4, ..o })
}

/// LD E, C.
pub fn ld_e_c(cpu: &mut Cpu)
    requires
        old(cpu).wf(),
    ensures
        final(cpu).wf(),
        spec_ld_e_c(*old(cpu), *final(cpu)),
{
    cpu.regs.e = cpu.regs.c;
    cpu.cycles = 4;
}

/// LD E, D.
pub open spec fn spec_ld_e_d(o: Cpu, n: Cpu) -> bool {
    n == (Cpu { regs: Register { e: o.regs.d, ..o.regs }, cycles: 4, ..o })
}

/// LD E, D.
pub fn ld_e_d(cpu: &mut Cpu)
    requires
        old(cpu).wf(),
    ensures
        final(cpu).wf(),
        spec_ld_e_d(*old(cpu), *final(cpu)),
{
    cpu.regs.e = cpu.regs.d;
    cpu.cycles = 4;
}

/// LD E, E.
pub open spec fn spec_ld_e_e(o: Cpu, n: Cpu) -> bool {
    n == (Cpu { regs: Register { e: o.regs.e, ..o.regs }, cycles: 4, ..o })
}

/// LD E, E.
pub fn ld_e_e(cpu: &mut Cpu)
    requires
        old(cpu).wf(),
    ensures
        final(cpu).wf(),
        spec_ld_e_e(*old(cpu), *final(cpu)),
{
    cpu.regs.e = cpu.regs.e;
    cpu.cycles = 4;
}

/// LD E, H.
pub open spec fn spec_ld_e_h(o: Cpu, n: Cpu) -> bool {
    n == (Cpu { regs: Register { e: o.regs.h, ..o.regs }, cycles: 4, ..o })
}

/// LD E, H.
pub fn ld_e_h(cpu: &mut Cpu)
    requires
        old(cpu).wf(),
    ensures
        final(cpu).wf(),
        spec_ld_e_h(*old(cpu), *final(cpu)),
{
    cpu.regs.e = cpu.regs.h;
    cpu.cycles = 4;
}

/// LD E, L.
pub open spec fn spec_ld_e_l(o: Cpu, n: Cpu) -> bool {
    n == (Cpu { regs: Register { e: o.regs.l, ..o.regs }, cycles: 4, ..o })
}

/// LD E, L.
pub fn ld_e_l(cpu: &mut Cpu)
    requires
        old(cpu).wf(),
    ensures
        final(cpu).wf(),
        spec_ld_e_l(*old(cpu), *final(cpu)),
{
    cpu.regs.e = cpu.regs.l;
    cpu.cycles = 4;
}

/// LD E, (HL).
pub open spec fn spec_ld_e_mhl(o: Cpu, n: Cpu) -> bool {
    n == (Cpu { regs: Register { e: o.peek(o.regs.hl()), ..o.regs }, cycles: 8, ..o })
}

/// LD E, (HL).
pub fn ld_e_mhl(cpu: &mut Cpu)
    requires
        old(cpu).wf(),
    ensures
        final(cpu).wf(),
        spec_ld_e_mhl(*old(cpu), *final(cpu)),
{
    let hl = cpu.regs.get_hl();
    let v = cpu.read(hl);
    cpu.regs.e = v;
    cpu.cycles = 8;
}

/// LD E, A.
pub open spec fn spec_ld_e_a(o: Cpu, n: Cpu) -> bool {
    n == (Cpu { regs: Register { e: o.regs.a, ..o.regs }, cycles: 4, ..o })
}

/// LD E, A.
pub fn ld_e_a(cpu: &mut Cpu)
    requires
        old(cpu).wf(),
    ensures
        final(cpu).wf(),
        spec_ld_e_a(*old(cpu), *final(cpu)),
{
    cpu.regs.e = cpu.regs.a;
    cpu.cycles = 4;
}

/// LD H, B.
pub open spec fn spec_ld_h_b(o: Cpu, n: Cpu) -> bool {
    n == (Cpu { regs: Register { h: o.regs.b, ..o.regs }, cycles: 4, ..o })
}

/// LD H, B.
pub fn ld_h_b(cpu: &mut Cpu)
    requires
        old(cpu).wf(),
    ensures
        final(cpu).wf(),
        spec_ld_h_b(*old(cpu), *final(cpu)),
{
    cpu.regs.h = cpu.regs.b;
    cpu.cycles = 4;
}

/// LD H, C.
pub open spec fn spec_ld_h_c(o: Cpu, n: Cpu) -> bool {
    n == (Cpu { regs: Register { h: o.regs.c, ..o.regs }, cycles: 4, ..o })
}

/// LD H, C.
pub fn ld_h_c(cpu: &mut Cpu)
    requires
        old(cpu).wf(),
    ensures
        final(cpu).wf(),
        spec_ld_h_c(*old(cpu), *final(cpu)),
{
    cpu.regs.h = cpu.regs.c;
    cpu.cycles = 4;
}

/// LD H, D.
pub open spec fn spec_ld_h_d(o: Cpu, n: Cpu) -> bool {
    n == (Cpu { regs: Register { h: o.regs.d, ..o.regs }, cycles: 4, ..o })
}

/// LD H, D.
pub fn ld_h_d(cpu: &mut Cpu)
    requires
        old(cpu).wf(),
    ensures
        final(cpu).wf(),
        spec_ld_h_d(*old(cpu), *final(cpu)),
{
    cpu.regs.h = cpu.regs.d;
    cpu.cycles = 4;
}

/// LD H, E.
pub open spec fn spec_ld_h_e(o: Cpu, n: Cpu) -> bool {
    n == (Cpu { regs: Register { h: o.regs.e, ..o.regs }, cycles: 4, ..o })
}

/// LD H, E.
pub fn ld_h_e(cpu: &mut Cpu)
    requires
        old(cpu).wf(),
    ensures
        final(cpu).wf(),
        spec_ld_h_e(*old(cpu), *final(cpu)),
{
    cpu.regs.h = cpu.regs.e;
    cpu.cycles = 4;
}

/// LD H, H.
pub open spec fn spec_ld_h_h(o: Cpu, n: Cpu) -> bool {
    n == (Cpu { regs: Register { h: o.regs.h, ..o.regs }, cycles: 4, ..o })
}

/// LD H, H.
pub fn ld_h_h(cpu: &mut Cpu)
    requires
        old(cpu).wf(),
    ensures
        final(cpu).wf(),
        spec_ld_h_h(*old(cpu), *final(cpu)),
{
    cpu.regs.h = cpu.regs.h;
    cpu.cycles = 4;
}

/// LD H, L.
pub open spec fn spec_ld_h_l(o: Cpu, n: Cpu) -> bool {
    n == (Cpu { regs: Register { h: o.regs.l, ..o.regs }, cycles: 4, ..o })
}

/// LD H, L.
pub fn ld_h_l(cpu: &mut Cpu)
    requires
        old(cpu).wf(),
    ensures
        final(cpu).wf(),
        spec_ld_h_l(*old(cpu), *final(cpu)),
{
    cpu.regs.h = cpu.regs.l;
    cpu.cycles = 4;
}

/// LD H, (HL).
pub open spec fn spec_ld_h_mhl(o: Cpu, n: Cpu) -> bool {
    n == (Cpu { regs: Register { h: o.peek(o.regs.hl()), ..o.regs }, cycles: 8, ..o })
}

/// LD H, (HL).
pub fn ld_h_mhl(cpu: &mut Cpu)
    requires
        old(cpu).wf(),
    ensures
        final(cpu).wf(),
        spec_ld_h_mhl(*old(cpu), *final(cpu)),
{
    let hl = cpu.regs.get_hl();
    let v = cpu.read(hl);
    cpu.regs.h = v;
    cpu.cycles = 8;
}

/// LD H, A.
pub open spec fn spec_ld_h_a(o: Cpu, n: Cpu) -> bool {
    n == (Cpu { regs: Register { h: o.regs.a, ..o.regs }, cycles: 4, ..o })
}

/// LD H, A.
pub fn ld_h_a(cpu: &mut Cpu)
    requires
        old(cpu).wf(),
    ensures
        final(cpu).wf(),
        spec_ld_h_a(*old(cpu), *final(cpu)),
{
    cpu.regs.h = cpu.regs.a;
    cpu.cycles = 4;
}

/// LD L, B.
pub open spec fn spec_ld_l_b(o: Cpu, n: Cpu) -> bool {
    n == (Cpu { regs: Register { l: o.regs.b, ..o.regs }, cycles: 4, ..o })
}

/// LD L, B.
pub fn ld_l_b(cpu: &mut Cpu)
    requires
        old(cpu).wf(),
    ensures
        final(cpu).wf(),
        spec_ld_l_b(*old(cpu), *final(cpu)),
{
    cpu.regs.l = cpu.regs.b;
    cpu.cycles = 4;
}

/// LD L, C.
pub open spec fn spec_ld_l_c(o: Cpu, n: Cpu) -> bool {
    n == (Cpu { regs: Register { l: o.regs.c, ..o.regs }, cycles: 4, ..o })
}

/// LD L, C.
pub fn ld_l_c(cpu: &mut Cpu)
    requires
        old(cpu).wf(),
    ensures
        final(cpu).wf(),
        spec_ld_l_c(*old(cpu), *final(cpu)),
{
    cpu.regs.l = cpu.regs.c;
    cpu.cycles = 4;
}

/// LD L, D.
pub open spec fn spec_ld_l_d(o: Cpu, n: Cpu) -> bool {
    n == (Cpu { regs: Register { l: o.regs.d, ..o.regs }, cycles: 4, ..o })
}

/// LD L, D.
pub fn ld_l_d(cpu: &mut Cpu)
    requires
        old(cpu).wf(),
    ensures
        final(cpu).wf(),
        spec_ld_l_d(*old(cpu), *final(cpu)),
{
    cpu.regs.l = cpu.regs.d;
    cpu.cycles = 4;
}

/// LD L, E.
pub open spec fn spec_ld_l_e(o: Cpu, n: Cpu) -> bool {
    n == (Cpu { regs: Register { l: o.regs.e, ..o.regs }, cycles: 4, ..o })
}

/// LD L, E.
pub fn ld_l_e(cpu: &mut Cpu)
    requires
        old(cpu).wf(),
    ensures
        final(cpu).wf(),
        spec_ld_l_e(*old(cpu), *final(cpu)),
{
    cpu.regs.l = cpu.regs.e;
    cpu.cycles = 4;
}

/// LD L, H.
pub open spec fn spec_ld_l_h(o: Cpu, n: Cpu) -> bool {
    n == (Cpu { regs: Register { l: o.regs.h, ..o.regs }, cycles: 4, ..o })
}

/// LD L, H.
pub fn ld_l_h(cpu: &mut Cpu)
    requires
        old(cpu).wf(),
    ensures
        final(cpu).wf(),
        spec_ld_l_h(*old(cpu), *final(cpu)),
{
    cpu.regs.l = cpu.regs.h;
    cpu.cycles = 4;
}

/// LD L, L.
pub open spec fn spec_ld_l_l(o: Cpu, n: Cpu) -> bool {
    n == (Cpu { regs: Register { l: o.regs.l, ..o.regs }, cycles: 4, ..o })
}

/// LD L, L.
pub fn ld_l_l(cpu: &mut Cpu)
    requires
        old(cpu).wf(),
    ensures
        final(cpu).wf(),
        spec_ld_l_l(*old(cpu), *final(cpu)),
{
    cpu.regs.l = cpu.regs.l;
    cpu.cycles = 4;
}

/// LD L, (HL).
pub open spec fn spec_ld_l_mhl(o: Cpu, n: Cpu) -> bool {
    n == (Cpu { regs: Register { l: o.peek(o.regs.hl()), ..o.regs }, cycles: 8, ..o })
}

/// LD L, (HL).
pub fn ld_l_mhl(cpu: &mut Cpu)
    requires
        old(cpu).wf(),
    ensures
        final(cpu).wf(),
        spec_ld_l_mhl(*old(cpu), *final(cpu)),
{
    let hl = cpu.regs.get_hl();
    let v = cpu.read(hl);
    cpu.regs.l = v;
    cpu.cycles = 8;
}

/// LD L, A.
pub open spec fn spec_ld_l_a(o: Cpu, n: Cpu) -> bool {
    n == (Cpu { regs: Register { l: o.regs.a, ..o.regs }, cycles: 4, ..o })
}

/// LD L, A.
pub fn ld_l_a(cpu: &mut Cpu)
    requires
        old(cpu).wf(),
    ensures
        final(cpu).wf(),
        spec_ld_l_a(*old(cpu), *final(cpu)),
{
    cpu.regs.l = cpu.regs.a;
    cpu.cycles = 4;
}

/// LD (HL), B.
pub open spec fn spec_ld_mhl_b(o: Cpu, n: Cpu) -> bool {
    &&& n == (Cpu { bus: n.bus, cycles: 8, ..o })
    &&& o.bus.written(n.bus, o.regs.hl(), o.regs.b)
}

/// LD (HL), B.
pub fn ld_mhl_b(cpu: &mut Cpu)
    requires
        old(cpu).wf(),
    ensures
        final(cpu).wf(),
        spec_ld_mhl_b(*old(cpu), *final(cpu)),
{
    let hl = cpu.regs.get_hl();
    let v = cpu.regs.b;
    cpu.write(hl, v);
    cpu.cycles = 8;
}

/// LD (HL), C.
pub open spec fn spec_ld_mhl_c(o: Cpu, n: Cpu) -> bool {
    &&& n == (Cpu { bus: n.bus, cycles: 8, ..o })
    &&& o.bus.written(n.bus, o.regs.hl(), o.regs.c)
}

/// LD (HL), C.
pub fn ld_mhl_c(cpu: &mut Cpu)
    requires
        old(cpu).wf(),
    ensures
        final(cpu).wf(),
        spec_ld_mhl_c(*old(cpu), *final(cpu)),
{
    let hl = cpu.regs.get_hl();
    let v = cpu.regs.c;
    cpu.write(hl, v);
    cpu.cycles = 8;
}

/// LD (HL), D.
pub open spec fn spec_ld_mhl_d(o: Cpu, n: Cpu) -> bool {
    &&& n == (Cpu { bus: n.bus, cycles: 8, ..o })
    &&& o.bus.written(n.bus, o.regs.hl(), o.regs.d)
}

/// LD (HL), D.
pub fn ld_mhl_d(cpu: &mut Cpu)
    requires
        old(cpu).wf(),
    ensures
        final(cpu).wf(),
        spec_ld_mhl_d(*old(cpu), *final(cpu)),
{
    let hl = cpu.regs.get_hl();
    let v = cpu.regs.d;
    cpu.write(hl, v);
    cpu.cycles = 8;
}

/// LD (HL), E.
pub open spec fn spec_ld_mhl_e(o: Cpu, n: Cpu) -> bool {
    &&& n == (Cpu { bus: n.bus, cycles: 8, ..o })
    &&& o.bus.written(n.bus, o.regs.hl(), o.regs.e)
}

/// LD (HL), E.
pub fn ld_mhl_e(cpu: &mut Cpu)
    requires
        old(cpu).wf(),
    ensures
        final(cpu).wf(),
        spec_ld_mhl_e(*old(cpu), *final(cpu)),
{
    let hl = cpu.regs.get_hl();
    let v = cpu.regs.e;
    cpu.write(hl, v);
    cpu.cycles = 8;
}

/// LD (HL), H.
pub open spec fn spec_ld_mhl_h(o: Cpu, n: Cpu) -> bool {
    &&& n == (Cpu { bus: n.bus, cycles: 8, ..o })
    &&& o.bus.written(n.bus, o.regs.hl(), o.regs.h)
}

/// LD (HL), H.
pub fn ld_mhl_h(cpu: &mut Cpu)
    requires
        old(cpu).wf(),
    ensures
        final(cpu).wf(),
        spec_ld_mhl_h(*old(cpu), *final(cpu)),
{
    let hl = cpu.regs.get_hl();
    let v = cpu.regs.h;
    cpu.write(hl, v);
    cpu.cycles = 8;
}

/// LD (HL), L.
pub open spec fn spec_ld_mhl_l(o: Cpu, n: Cpu) -> bool {
    &&& n == (Cpu { bus: n.bus, cycles: 8, ..o })
    &&& o.bus.written(n.bus, o.regs.hl(), o.regs.l)
}

/// LD (HL), L.
pub fn ld_mhl_l(cpu: &mut Cpu)
    requires
        old(cpu).wf(),
    ensures
        final(cpu).wf(),
        spec_ld_mhl_l(*old(cpu), *final(cpu)),
{
    let hl = cpu.regs.get_hl();
    let v = cpu.regs.l;
    cpu.write(hl, v);
    cpu.cycles = 8;
}

/// HALT: waits for an interrupt. With IME clear and an interrupt already pending the processor does not halt, and the next opcode byte is read twice.
pub open spec fn spec_halt(o: Cpu, n: Cpu) -> bool {
    if !o.ime && o.pending_interrupt() is Some {
        n == (Cpu { cycles: 4, halt_bug: true, ..o })
    } else {
        n == (Cpu { cycles: 4, halted: true, ..o })
    }
}

/// HALT: waits for an interrupt. With IME clear and an interrupt already pending the processor does not halt, and the next opcode byte is read twice.
pub fn halt(cpu: &mut Cpu)
    requires
        old(cpu).wf(),
    ensures
        final(cpu).wf(),
        spec_halt(*old(cpu), *final(cpu)),
{
    let enabled = InterruptFlags::from_byte(cpu.bus.int_enable);
    let p = pending(&cpu.bus.int_flags, &enabled);
    if !cpu.ime && p.is_some() {
        cpu.halt_bug = true;
    } else {
        cpu.halted = true;
    }
    cpu.cycles = 4;
}

/// LD (HL), A.
pub open spec fn spec_ld_mhl_a(o: Cpu, n: Cpu) -> bool {
    &&& n == (Cpu { bus: n.bus, cycles: 8, ..o })
    &&& o.bus.written(n.bus, o.regs.hl(), o.regs.a)
}

/// LD (HL), A.
pub fn ld_mhl_a(cpu: &mut Cpu)
    requires
        old(cpu).wf(),
    ensures
        final(cpu).wf(),
        spec_ld_mhl_a(*old(cpu), *final(cpu)),
{
    let hl = cpu.regs.get_hl();
    let v = cpu.regs.a;
    cpu.write(hl, v);
    cpu.cycles = 8;
}

/// LD A, B.
pub open spec fn spec_ld_a_b(o: Cpu, n: Cpu) -> bool {
    n == (Cpu { regs: Register { a: o.regs.b, ..o.regs }, cycles: 4, ..o })
}

/// LD A, B.
pub fn ld_a_b(cpu: &mut Cpu)
    requires
        old(cpu).wf(),
    ensures
        final(cpu).wf(),
        spec_ld_a_b(*old(cpu), *final(cpu)),
{
    cpu.regs.a = cpu.regs.b;
    cpu.cycles = 4;
}

/// LD A, C.
pub open spec fn spec_ld_a_c(o: Cpu, n: Cpu) -> bool {
    n == (Cpu { regs: Register { a: o.regs.c, ..o.regs }, cycles: 4, ..o })
}

/// LD A, C.
pub fn ld_a_c(cpu: &mut Cpu)
    requires
        old(cpu).wf(),
    ensures
        final(cpu).wf(),
        spec_ld_a_c(*old(cpu), *final(cpu)),
{
    cpu.regs.a = cpu.regs.c;
    cpu.cycles = 4;
}

/// LD A, D.
pub open spec fn spec_ld_a_d(o: Cpu, n: Cpu) -> bool {
    n == (Cpu { regs: Register { a: o.regs.d, ..o.regs }, cycles: 4, ..o })
}

/// LD A, D.
pub fn ld_a_d(cpu: &mut Cpu)
    requires
        old(cpu).wf(),
    ensures
        final(cpu).wf(),
        spec_ld_a_d(*old(cpu), *final(cpu)),
{
    cpu.regs.a = cpu.regs.d;
    cpu.cycles = 4;
}

/// LD A, E.
pub open spec fn spec_ld_a_e(o: Cpu, n: Cpu) -> bool {
    n == (Cpu { regs: Register { a: o.regs.e, ..o.regs }, cycles: 4, ..o })
}

/// LD A, E.
pub fn ld_a_e(cpu: &mut Cpu)
    requires
        old(cpu).wf(),
    ensures
        final(cpu).wf(),
        spec_ld_a_e(*old(cpu), *final(cpu)),
{
    cpu.regs.a = cpu.regs.e;
    cpu.cycles = 4;
}

/// LD A, H.
pub open spec fn spec_ld_a_h(o: Cpu, n: Cpu) -> bool {
    n == (Cpu { regs: Register { a: o.regs.h, ..o.regs }, cycles: 4, ..o })
}

/// LD A, H.
pub fn ld_a_h(cpu: &mut Cpu)
    requires
        old(cpu).wf(),
    ensures
        final(cpu).wf(),
        spec_ld_a_h(*old(cpu), *final(cpu)),
{
    cpu.regs.a = cpu.regs.h;
    cpu.cycles = 4;
}

/// LD A, L.
pub open spec fn spec_ld_a_l(o: Cpu, n: Cpu) -> bool {
    n == (Cpu { regs: Register { a: o.regs.l, ..o.regs }, cycles: 4, ..o })
}

/// LD A, L.
pub fn ld_a_l(cpu: &mut Cpu)
    requires
        old(cpu).wf(),
    ensures
        final(cpu).wf(),
        spec_ld_a_l(*old(cpu), *final(cpu)),
{
    cpu.regs.a = cpu.regs.l;
    cpu.cycles = 4;
}

/// LD A, (HL).
pub open spec fn spec_ld_a_mhl(o: Cpu, n: Cpu) -> bool {
    n == (Cpu { regs: Register { a: o.peek(o.regs.hl()), ..o.regs }, cycles: 8, ..o })
}

/// LD A, (HL).
pub fn ld_a_mhl(cpu: &mut Cpu)
    requires
        old(cpu).wf(),
    ensures
        final(cpu).wf(),
        spec_ld_a_mhl(*old(cpu), *final(cpu)),
{
    let hl = cpu.regs.get_hl();
    let v = cpu.read(hl);
    cpu.regs.a = v;
    cpu.cycles = 8;
}

/// LD A, A.
pub open spec fn spec_ld_a_a(o: Cpu, n: Cpu) -> bool {
    n == (Cpu { regs: Register { a: o.regs.a, ..o.regs }, cycles: 4, ..o })
}

/// LD A, A.
pub fn ld_a_a(cpu: &mut Cpu)
    requires
        old(cpu).wf(),
    ensures
        final(cpu).wf(),
        spec_ld_a_a(*old(cpu), *final(cpu)),
{
    cpu.regs.a = cpu.regs.a;
    cpu.cycles = 4;
}

/// ADD A, B.
pub open spec fn spec_add_a_b(o: Cpu, n: Cpu) -> bool {
    n == (Cpu { regs: add8(o.regs, o.regs.b, false), cycles: 4, ..o })
}

/// ADD A, B.
pub fn add_a_b(cpu: &mut Cpu)
    requires
        old(cpu).wf(),
    ensures
        final(cpu).wf(),
        spec_add_a_b(*old(cpu), *final(cpu)),
{
    let v = cpu.regs.b;
    add8_exec(&mut cpu.regs, v, false);
    cpu.cycles = 4;
}

/// ADD A, C.
pub open spec fn spec_add_a_c(o: Cpu, n: Cpu) -> bool {
    n == (Cpu { regs: add8(o.regs, o.regs.c, false), cycles: 4, ..o })
}

/// ADD A, C.
pub fn add_a_c(cpu: &mut Cpu)
    requires
        old(cpu).wf(),
    ensures
        final(cpu).wf(),
        spec_add_a_c(*old(cpu), *final(cpu)),
{
    let v = cpu.regs.c;
    add8_exec(&mut cpu.regs, v, false);
    cpu.cycles = 4;
}

/// ADD A, D.
pub open spec fn spec_add_a_d(o: Cpu, n: Cpu) -> bool {
    n == (Cpu { regs: add8(o.regs, o.regs.d, false), cycles: 4, ..o })
}

/// ADD A, D.
pub fn add_a_d(cpu: &mut Cpu)
    requires
        old(cpu).wf(),
    ensures
        final(cpu).wf(),
        spec_add_a_d(*old(cpu), *final(cpu)),
{
    let v = cpu.regs.d;
    add8_exec(&mut cpu.regs, v, false);
    cpu.cycles = 4;
}

/// ADD A, E.
pub open spec fn spec_add_a_e(o: Cpu, n: Cpu) -> bool {
    n == (Cpu { regs: add8(o.regs, o.regs.e, false), cycles: 4, ..o })
}

/// ADD A, E.
pub fn add_a_e(cpu: &mut Cpu)
    requires
        old(cpu).wf(),
    ensures
        final(cpu).wf(),
        spec_add_a_e(*old(cpu), *final(cpu)),
{
    let v = cpu.regs.e;
    add8_exec(&mut cpu.regs, v, false);
    cpu.cycles = 4;
}

/// ADD A, H.
pub open spec fn spec_add_a_h(o: Cpu, n: Cpu) -> bool {
    n == (Cpu { regs: add8(o.regs, o.regs.h, false), cycles: 4, ..o })
}

/// ADD A, H.
pub fn add_a_h(cpu: &mut Cpu)
    requires
        old(cpu).wf(),
    ensures
        final(cpu).wf(),
        spec_add_a_h(*old(cpu), *final(cpu)),
{
    let v = cpu.regs.h;
    add8_exec(&mut cpu.regs, v, false);
    cpu.cycles = 4;
}

/// ADD A, L.
pub open spec fn spec_add_a_l(o: Cpu, n: Cpu) -> bool {
    n == (Cpu { regs: add8(o.regs, o.regs.l, false), cycles: 4, ..o })
}

/// ADD A, L.
pub fn add_a_l(cpu: &mut Cpu)
    requires
        old(cpu).wf(),
    ensures
        final(cpu).wf(),
        spec_add_a_l(*old(cpu), *final(cpu)),
{
    let v = cpu.regs.l;
    add8_exec(&mut cpu.regs, v, false);
    cpu.cycles = 4;
}

/// ADD A, (HL).
pub open spec fn spec_add_a_mhl(o: Cpu, n: Cpu) -> bool {
    n == (Cpu { regs: add8(o.regs, o.peek(o.regs.hl()), false), cycles: 8, ..o })
}

/// ADD A, (HL).
pub fn add_a_mhl(cpu: &mut Cpu)
    requires
        old(cpu).wf(),
    ensures
        final(cpu).wf(),
        spec_add_a_mhl(*old(cpu), *final(cpu)),
{
    let hl = cpu.regs.get_hl();
    let v = cpu.read(hl);
    add8_exec(&mut cpu.regs, v, false);
    cpu.cycles = 8;
}

/// ADD A, A.
pub open spec fn spec_add_a_a(o: Cpu, n: Cpu) -> bool {
    n == (Cpu { regs: add8(o.regs, o.regs.a, false), cycles: 4, ..o })
}

/// ADD A, A.
pub fn add_a_a(cpu: &mut Cpu)
    requires
        old(cpu).wf(),
    ensures
        final(cpu).wf(),
        spec_add_a_a(*old(cpu), *final(cpu)),
{
    let v = cpu.regs.a;
    add8_exec(&mut cpu.regs, v, false);
    cpu.cycles = 4;
}

/// ADC A, B.
pub open spec fn spec_adc_a_b(o: Cpu, n: Cpu) -> bool {
    n == (Cpu { regs: add8(o.regs, o.regs.b, true), cycles: 4, ..o })
}

/// ADC A, B.
pub fn adc_a_b(cpu: &mut Cpu)
    requires
        old(cpu).wf(),
    ensures
        final(cpu).wf(),
        spec_adc_a_b(*old(cpu), *final(cpu)),
{
    let v = cpu.regs.b;
    add8_exec(&mut cpu.regs, v, true);
    cpu.cycles = 4;
}

/// ADC A, C.
pub open spec fn spec_adc_a_c(o: Cpu, n: Cpu) -> bool {
    n == (Cpu { regs: add8(o.regs, o.regs.c, true), cycles: 4, ..o })
}

/// ADC A, C.
pub fn adc_a_c(cpu: &mut Cpu)
    requires
        old(cpu).wf(),
    ensures
        final(cpu).wf(),
        spec_adc_a_c(*old(cpu), *final(cpu)),
{
    let v = cpu.regs.c;
    add8_exec(&mut cpu.regs, v, true);
    cpu.cycles = 4;
}

/// ADC A, D.
pub open spec fn spec_adc_a_d(o: Cpu, n: Cpu) -> bool {
    n == (Cpu { regs: add8(o.regs, o.regs.d, true), cycles: 4, ..o })
}

/// ADC A, D.
pub fn adc_a_d(cpu: &mut Cpu)
    requires
        old(cpu).wf(),
    ensures
        final(cpu).wf(),
        spec_adc_a_d(*old(cpu), *final(cpu)),
{
    let v = cpu.regs.d;
    add8_exec(&mut cpu.regs, v, true);
    cpu.cycles = 4;
}

/// ADC A, E.
pub open spec fn spec_adc_a_e(o: Cpu, n: Cpu) -> bool {
    n == (Cpu { regs: add8(o.regs, o.regs.e, true), cycles: 4, ..o })
}

/// ADC A, E.
pub fn adc_a_e(cpu: &mut Cpu)
    requires
        old(cpu).wf(),
    ensures
        final(cpu).wf(),
        spec_adc_a_e(*old(cpu), *final(cpu)),
{
    let v = cpu.regs.e;
    add8_exec(&mut cpu.regs, v, true);
    cpu.cycles = 4;
}

/// ADC A, H.
pub open spec fn spec_adc_a_h(o: Cpu, n: Cpu) -> bool {
    n == (Cpu { regs: add8(o.regs, o.regs.h, true), cycles: 4, ..o })
}

/// ADC A, H.
pub fn adc_a_h(cpu: &mut Cpu)
    requires
        old(cpu).wf(),
    ensures
        final(cpu).wf(),
        spec_adc_a_h(*old(cpu), *final(cpu)),
{
    let v = cpu.regs.h;
    add8_exec(&mut cpu.regs, v, true);
    cpu.cycles = 4;
}

/// ADC A, L.
pub open spec fn spec_adc_a_l(o: Cpu, n: Cpu) -> bool {
    n == (Cpu { regs: add8(o.regs, o.regs.l, true), cycles: 4, ..o })
}

/// ADC A, L.
pub fn adc_a_l(cpu: &mut Cpu)
    requires
        old(cpu).wf(),
    ensures
        final(cpu).wf(),
        spec_adc_a_l(*old(cpu), *final(cpu)),
{
    let v = cpu.regs.l;
    add8_exec(&mut cpu.regs, v, true);
    cpu.cycles = 4;
}

/// ADC A, (HL).
pub open spec fn spec_adc_a_mhl(o: Cpu, n: Cpu) -> bool {
    n == (Cpu { regs: add8(o.regs, o.peek(o.regs.hl()), true), cycles: 8, ..o })
}

/// ADC A, (HL).
pub fn adc_a_mhl(cpu: &mut Cpu)
    requires
        old(cpu).wf(),
    ensures
        final(cpu).wf(),
        spec_adc_a_mhl(*old(cpu), *final(cpu)),
{
    let hl = cpu.regs.get_hl();
    let v = cpu.read(hl);
    add8_exec(&mut cpu.regs, v, true);
    cpu.cycles = 8;
}

/// ADC A, A.
pub open spec fn spec_adc_a_a(o: Cpu, n: Cpu) -> bool {
    n == (Cpu { regs: add8(o.regs, o.regs.a, true), cycles: 4, ..o })
}

/// ADC A, A.
pub fn adc_a_a(cpu: &mut Cpu)
    requires
        old(cpu).wf(),
    ensures
        final(cpu).wf(),
        spec_adc_a_a(*old(cpu), *final(cpu)),
{
    let v = cpu.regs.a;
    add8_exec(&mut cpu.regs, v, true);
    cpu.cycles = 4;
}

/// SUB A, B.
pub open spec fn spec_sub_a_b(o: Cpu, n: Cpu) -> bool {
    n == (Cpu { regs: sub8(o.regs, o.regs.b, false), cycles: 4, ..o })
}

/// SUB A, B.
pub fn sub_a_b(cpu: &mut Cpu)
    requires
        old(cpu).wf(),
    ensures
        final(cpu).wf(),
        spec_sub_a_b(*old(cpu), *final(cpu)),
{
    let v = cpu.regs.b;
    sub8_exec(&mut cpu.regs, v, false);
    cpu.cycles = 4;
}

/// SUB A, C.
pub open spec fn spec_sub_a_c(o: Cpu, n: Cpu) -> bool {
    n == (Cpu { regs: sub8(o.regs, o.regs.c, false), cycles: 4, ..o })
}

/// SUB A, C.
pub fn sub_a_c(cpu: &mut Cpu)
    requires
        old(cpu).wf(),
    ensures
        final(cpu).wf(),
        spec_sub_a_c(*old(cpu), *final(cpu)),
{
    let v = cpu.regs.c;
    sub8_exec(&mut cpu.regs, v, false);
    cpu.cycles = 4;
}

/// SUB A, D.
pub open spec fn spec_sub_a_d(o: Cpu, n: Cpu) -> bool {
    n == (Cpu { regs: sub8(o.regs, o.regs.d, false), cycles: 4, ..o })
}

/// SUB A, D.
pub fn sub_a_d(cpu: &mut Cpu)
    requires
        old(cpu).wf(),
    ensures
        final(cpu).wf(),
        spec_sub_a_d(*old(cpu), *final(cpu)),
{
    let v = cpu.regs.d;
    sub8_exec(&mut cpu.regs, v, false);
    cpu.cycles = 4;
}

/// SUB A, E.
pub open spec fn spec_sub_a_e(o: Cpu, n: Cpu) -> bool {
    n == (Cpu { regs: sub8(o.regs, o.regs.e, false), cycles: 4, ..o })
}

/// SUB A, E.
pub fn sub_a_e(cpu: &mut Cpu)
    requires
        old(cpu).wf(),
    ensures
        final(cpu).wf(),
        spec_sub_a_e(*old(cpu), *final(cpu)),
{
    let v = cpu.regs.e;
    sub8_exec(&mut cpu.regs, v, false);
    cpu.cycles = 4;
}

/// SUB A, H.
pub open spec fn spec_sub_a_h(o: Cpu, n: Cpu) -> bool {
    n == (Cpu { regs: sub8(o.regs, o.regs.h, false), cycles: 4, ..o })
}

/// SUB A, H.
pub fn sub_a_h(cpu: &mut Cpu)
    requires
        old(cpu).wf(),
    ensures
        final(cpu).wf(),
        spec_sub_a_h(*old(cpu), *final(cpu)),
{
    let v = cpu.regs.h;
    sub8_exec(&mut cpu.regs, v, false);
    cpu.cycles = 4;
}

/// SUB A, L.
pub open spec fn spec_sub_a_l(o: Cpu, n: Cpu) -> bool {
    n == (Cpu { regs: sub8(o.regs, o.regs.l, false), cycles: 4, ..o })
}

/// SUB A, L.
pub fn sub_a_l(cpu: &mut Cpu)
    requires
        old(cpu).wf(),
    ensures
        final(cpu).wf(),
        spec_sub_a_l(*old(cpu), *final(cpu)),
{
    let v = cpu.regs.l;
    sub8_exec(&mut cpu.regs, v, false);
    cpu.cycles = 4;
}

/// SUB A, (HL).
pub open spec fn spec_sub_a_mhl(o: Cpu, n: Cpu) -> bool {
    n == (Cpu { regs: sub8(o.regs, o.peek(o.regs.hl()), false), cycles: 8, ..o })
}

/// SUB A, (HL).
pub fn sub_a_mhl(cpu: &mut Cpu)
    requires
        old(cpu).wf(),
    ensures
        final(cpu).wf(),
        spec_sub_a_mhl(*old(cpu), *final(cpu)),
{
    let hl = cpu.regs.get_hl();
    let v = cpu.read(hl);
    sub8_exec(&mut cpu.regs, v, false);
    cpu.cycles = 8;
}

/// SUB A, A.
pub open spec fn spec_sub_a_a(o: Cpu, n: Cpu) -> bool {
    n == (Cpu { regs: sub8(o.regs, o.regs.a, false), cycles: 4, ..o })
}

/// SUB A, A.
pub fn sub_a_a(cpu: &mut Cpu)
    requires
        old(cpu).wf(),
    ensures
        final(cpu).wf(),
        spec_sub_a_a(*old(cpu), *final(cpu)),
{
    let v = cpu.regs.a;
    sub8_exec(&mut cpu.regs, v, false);
    cpu.cycles = 4;
}

/// SBC A, B.
pub open spec fn spec_sbc_a_b(o: Cpu, n: Cpu) -> bool {
    n == (Cpu { regs: sub8(o.regs, o.regs.b, true), cycles: 4, ..o })
}

/// SBC A, B.
pub fn sbc_a_b(cpu: &mut Cpu)
    requires
        old(cpu).wf(),
    ensures
        final(cpu).wf(),
        spec_sbc_a_b(*old(cpu), *final(cpu)),
{
    let v = cpu.regs.b;
    sub8_exec(&mut cpu.regs, v, true);
    cpu.cycles = 4;
}

/// SBC A, C.
pub open spec fn spec_sbc_a_c(o: Cpu, n: Cpu) -> bool {
    n == (Cpu { regs: sub8(o.regs, o.regs.c, true), cycles: 4, ..o })
}

/// SBC A, C.
pub fn sbc_a_c(cpu: &mut Cpu)
    requires
        old(cpu).wf(),
    ensures
        final(cpu).wf(),
        spec_sbc_a_c(*old(cpu), *final(cpu)),
{
    let v = cpu.regs.c;
    sub8_exec(&mut cpu.regs, v, true);
    cpu.cycles = 4;
}

/// SBC A, D.
pub open spec fn spec_sbc_a_d(o: Cpu, n: Cpu) -> bool {
    n == (Cpu { regs: sub8(o.regs, o.regs.d, true), cycles: 4, ..o })
}

/// SBC A, D.
pub fn sbc_a_d(cpu: &mut Cpu)
    requires
        old(cpu).wf(),
    ensures
        final(cpu).wf(),
        spec_sbc_a_d(*old(cpu), *final(cpu)),
{
    let v = cpu.regs.d;
    sub8_exec(&mut cpu.regs, v, true);
    cpu.cycles = 4;
}

/// SBC A, E.
pub open spec fn spec_sbc_a_e(o: Cpu, n: Cpu) -> bool {
    n == (Cpu { regs: sub8(o.regs, o.regs.e, true), cycles: 4, ..o })
}

/// SBC A, E.
pub fn sbc_a_e(cpu: &mut Cpu)
    requires
        old(cpu).wf(),
    ensures
        final(cpu).wf(),
        spec_sbc_a_e(*old(cpu), *final(cpu)),
{
    let v = cpu.regs.e;
    sub8_exec(&mut cpu.regs, v, true);
    cpu.cycles = 4;
}

/// SBC A, H.
pub open spec fn spec_sbc_a_h(o: Cpu, n: Cpu) -> bool {
    n == (Cpu { regs: sub8(o.regs, o.regs.h, true), cycles: 4, ..o })
}

/// SBC A, H.
pub fn sbc_a_h(cpu: &mut Cpu)
    requires
        old(cpu).wf(),
    ensures
        final(cpu).wf(),
        spec_sbc_a_h(*old(cpu), *final(cpu)),
{
    let v = cpu.regs.h;
    sub8_exec(&mut cpu.regs, v, true);
    cpu.cycles = 4;
}

/// SBC A, L.
pub open spec fn spec_sbc_a_l(o: Cpu, n: Cpu) -> bool {
    n == (Cpu { regs: sub8(o.regs, o.regs.l, true), cycles: 4, ..o })
}

/// SBC A, L.
pub fn sbc_a_l(cpu: &mut Cpu)
    requires
        old(cpu).wf(),
    ensures
        final(cpu).wf(),
        spec_sbc_a_l(*old(cpu), *final(cpu)),
{
    let v = cpu.regs.l;
    sub8_exec(&mut cpu.regs, v, true);
    cpu.cycles = 4;
}

/// SBC A, (HL).
pub open spec fn spec_sbc_a_mhl(o: Cpu, n: Cpu) -> bool {
    n == (Cpu { regs: sub8(o.regs, o.peek(o.regs.hl()), true), cycles: 8, ..o })
}

/// SBC A, (HL).
pub fn sbc_a_mhl(cpu: &mut Cpu)
    requires
        old(cpu).wf(),
    ensures
        final(cpu).wf(),
        spec_sbc_a_mhl(*old(cpu), *final(cpu)),
{
    let hl = cpu.regs.get_hl();
    let v = cpu.read(hl);
    sub8_exec(&mut cpu.regs, v, true);
    cpu.cycles = 8;
}

/// SBC A, A.
pub open spec fn spec_sbc_a_a(o: Cpu, n: Cpu) -> bool {
    n == (Cpu { regs: sub8(o.regs, o.regs.a, true), cycles: 4, ..o })
}

/// SBC A, A.
pub fn sbc_a_a(cpu: &mut Cpu)
    requires
        old(cpu).wf(),
    ensures
        final(cpu).wf(),
        spec_sbc_a_a(*old(cpu), *final(cpu)),
{
    let v = cpu.regs.a;
    sub8_exec(&mut cpu.regs, v, true);
    cpu.cycles = 4;
}

/// AND A, B.
pub open spec fn spec_and_a_b(o: Cpu, n: Cpu) -> bool {
    n == (Cpu { regs: and8(o.regs, o.regs.b), cycles: 4, ..o })
}

/// AND A, B.
pub fn and_a_b(cpu: &mut Cpu)
    requires
        old(cpu).wf(),
    ensures
        final(cpu).wf(),
        spec_and_a_b(*old(cpu), *final(cpu)),
{
    let v = cpu.regs.b;
    and8_exec(&mut cpu.regs, v);
    cpu.cycles = 4;
}

/// AND A, C.
pub open spec fn spec_and_a_c(o: Cpu, n: Cpu) -> bool {
    n == (Cpu { regs: and8(o.regs, o.regs.c), cycles: 4, ..o })
}

/// AND A, C.
pub fn and_a_c(cpu: &mut Cpu)
    requires
        old(cpu).wf(),
    ensures
        final(cpu).wf(),
        spec_and_a_c(*old(cpu), *final(cpu)),
{
    let v = cpu.regs.c;
    and8_exec(&mut cpu.regs, v);
    cpu.cycles = 4;
}

/// AND A, D.
pub open spec fn spec_and_a_d(o: Cpu, n: Cpu) -> bool {
    n == (Cpu { regs: and8(o.regs, o.regs.d), cycles: 4, ..o })
}

/// AND A, D.
pub fn and_a_d(cpu: &mut Cpu)
    requires
        old(cpu).wf(),
    ensures
        final(cpu).wf(),
        spec_and_a_d(*old(cpu), *final(cpu)),
{
    let v = cpu.regs.d;
    and8_exec(&mut cpu.regs, v);
    cpu.cycles = 4;
}

/// AND A, E.
pub open spec fn spec_and_a_e(o: Cpu, n: Cpu) -> bool {
    n == (Cpu { regs: and8(o.regs, o.regs.e), cycles: 4, ..o })
}

/// AND A, E.
pub fn and_a_e(cpu: &mut Cpu)
    requires
        old(cpu).wf(),
    ensures
        final(cpu).wf(),
        spec_and_a_e(*old(cpu), *final(cpu)),
{
    let v = cpu.regs.e;
    and8_exec(&mut cpu.regs, v);
    cpu.cycles = 4;
}

/// AND A, H.
pub open spec fn spec_and_a_h(o: Cpu, n: Cpu) -> bool {
    n == (Cpu { regs: and8(o.regs, o.regs.h), cycles: 4, ..o })
}

/// AND A, H.
pub fn and_a_h(cpu: &mut Cpu)
    requires
        old(cpu).wf(),
    ensures
        final(cpu).wf(),
        spec_and_a_h(*old(cpu), *final(cpu)),
{
    let v = cpu.regs.h;
    and8_exec(&mut cpu.regs, v);
    cpu.cycles = 4;
}

/// AND A, L.
pub open spec fn spec_and_a_l(o: Cpu, n: Cpu) -> bool {
    n == (Cpu { regs: and8(o.regs, o.regs.l), cycles: 4, ..o })
}

/// AND A, L.
pub fn and_a_l(cpu: &mut Cpu)
    requires
        old(cpu).wf(),
    ensures
        final(cpu).wf(),
        spec_and_a_l(*old(cpu), *final(cpu)),
{
    let v = cpu.regs.l;
    and8_exec(&mut cpu.regs, v);
    cpu.cycles = 4;
}

/// AND A, (HL).
pub open spec fn spec_and_a_mhl(o: Cpu, n: Cpu) -> bool {
    n == (Cpu { regs: and8(o.regs, o.peek(o.regs.hl())), cycles: 8, ..o })
}

/// AND A, (HL).
pub fn and_a_mhl(cpu: &mut Cpu)
    requires
        old(cpu).wf(),
    ensures
        final(cpu).wf(),
        spec_and_a_mhl(*old(cpu), *final(cpu)),
{
    let hl = cpu.regs.get_hl();
    let v = cpu.read(hl);
    and8_exec(&mut cpu.regs, v);
    cpu.cycles = 8;
}

/// AND A, A.
pub open spec fn spec_and_a_a(o: Cpu, n: Cpu) -> bool {
    n == (Cpu { regs: and8(o.regs, o.regs.a), cycles: 4, ..o })
}

/// AND A, A.
pub fn and_a_a(cpu: &mut Cpu)
    requires
        old(cpu).wf(),
    ensures
        final(cpu).wf(),
        spec_and_a_a(*old(cpu), *final(cpu)),
{
    let v = cpu.regs.a;
    and8_exec(&mut cpu.regs, v);
    cpu.cycles = 4;
}

/// XOR A, B.
pub open spec fn spec_xor_a_b(o: Cpu, n: Cpu) -> bool {
    n == (Cpu { regs: xor8(o.regs, o.regs.b), cycles: 4, ..o })
}

/// XOR A, B.
pub fn xor_a_b(cpu: &mut Cpu)
    requires
        old(cpu).wf(),
    ensures
        final(cpu).wf(),
        spec_xor_a_b(*old(cpu), *final(cpu)),
{
    let v = cpu.regs.b;
    xor8_exec(&mut cpu.regs, v);
    cpu.cycles = 4;
}

/// XOR A, C.
pub open spec fn spec_xor_a_c(o: Cpu, n: Cpu) -> bool {
    n == (Cpu { regs: xor8(o.regs, o.regs.c), cycles: 4, ..o })
}

/// XOR A, C.
pub fn xor_a_c(cpu: &mut Cpu)
    requires
        old(cpu).wf(),
    ensures
        final(cpu).wf(),
        spec_xor_a_c(*old(cpu), *final(cpu)),
{
    let v = cpu.regs.c;
    xor8_exec(&mut cpu.regs, v);
    cpu.cycles = 4;
}

/// XOR A, D.
pub open spec fn spec_xor_a_d(o: Cpu, n: Cpu) -> bool {
    n == (Cpu { regs: xor8(o.regs, o.regs.d), cycles: 4, ..o })
}

/// XOR A, D.
pub fn xor_a_d(cpu: &mut Cpu)
    requires
        old(cpu).wf(),
    ensures
        final(cpu).wf(),
        spec_xor_a_d(*old(cpu), *final(cpu)),
{
    let v = cpu.regs.d;
    xor8_exec(&mut cpu.regs, v);
    cpu.cycles = 4;
}

/// XOR A, E.
pub open spec fn spec_xor_a_e(o: Cpu, n: Cpu) -> bool {
    n == (Cpu { regs: xor8(o.regs, o.regs.e), cycles: 4, ..o })
}

/// XOR A, E.
pub fn xor_a_e(cpu: &mut Cpu)
    requires
        old(cpu).wf(),
    ensures
        final(cpu).wf(),
        spec_xor_a_e(*old(cpu), *final(cpu)),
{
    let v = cpu.regs.e;
    xor8_exec(&mut cpu.regs, v);
    cpu.cycles = 4;
}

/// XOR A, H.
pub open spec fn spec_xor_a_h(o: Cpu, n: Cpu) -> bool {
    n == (Cpu { regs: xor8(o.regs, o.regs.h), cycles: 4, ..o })
}

/// XOR A, H.
pub fn xor_a_h(cpu: &mut Cpu)
    requires
        old(cpu).wf(),
    ensures
        final(cpu).wf(),
        spec_xor_a_h(*old(cpu), *final(cpu)),
{
    let v = cpu.regs.h;
    xor8_exec(&mut cpu.regs, v);
    cpu.cycles = 4;
}

/// XOR A, L.
pub open spec fn spec_xor_a_l(o: Cpu, n: Cpu) -> bool {
    n == (Cpu { regs: xor8(o.regs, o.regs.l), cycles: 4, ..o })
}

/// XOR A, L.
pub fn xor_a_l(cpu: &mut Cpu)
    requires
        old(cpu).wf(),
    ensures
        final(cpu).wf(),
        spec_xor_a_l(*old(cpu), *final(cpu)),
{
    let v = cpu.regs.l;
    xor8_exec(&mut cpu.regs, v);
    cpu.cycles = 4;
}

/// XOR A, (HL).
pub open spec fn spec_xor_a_mhl(o: Cpu, n: Cpu) -> bool {
    n == (Cpu { regs: xor8(o.regs, o.peek(o.regs.hl())), cycles: 8, ..o })
}

/// XOR A, (HL).
pub fn xor_a_mhl(cpu: &mut Cpu)
    requires
        old(cpu).wf(),
    ensures
        final(cpu).wf(),
        spec_xor_a_mhl(*old(cpu), *final(cpu)),
{
    let hl = cpu.regs.get_hl();
    let v = cpu.read(hl);
    xor8_exec(&mut cpu.regs, v);
    cpu.cycles = 8;
}

/// XOR A, A.
pub open spec fn spec_xor_a_a(o: Cpu, n: Cpu) -> bool {
    n == (Cpu { regs: xor8(o.regs, o.regs.a), cycles: 4, ..o })
}

/// XOR A, A.
pub fn xor_a_a(cpu: &mut Cpu)
    requires
        old(cpu).wf(),
    ensures
        final(cpu).wf(),
        spec_xor_a_a(*old(cpu), *final(cpu)),
{
    let v = cpu.regs.a;
    xor8_exec(&mut cpu.regs, v);
    cpu.cycles = 4;
}

/// OR A, B.
pub open spec fn spec_or_a_b(o: Cpu, n: Cpu) -> bool {
    n == (Cpu { regs: or8(o.regs, o.regs.b), cycles: 4, ..o })
}

/// OR A, B.
pub fn or_a_b(cpu: &mut Cpu)
    requires
        old(cpu).wf(),
    ensures
        final(cpu).wf(),
        spec_or_a_b(*old(cpu), *final(cpu)),
{
    let v = cpu.regs.b;
    or8_exec(&mut cpu.regs, v);
    cpu.cycles = 4;
}

/// OR A, C.
pub open spec fn spec_or_a_c(o: Cpu, n: Cpu) -> bool {
    n == (Cpu { regs: or8(o.regs, o.regs.c), cycles: 4, ..o })
}

/// OR A, C.
pub fn or_a_c(cpu: &mut Cpu)
    requires
        old(cpu).wf(),
    ensures
        final(cpu).wf(),
        spec_or_a_c(*old(cpu), *final(cpu)),
{
    let v = cpu.regs.c;
    or8_exec(&mut cpu.regs, v);
    cpu.cycles = 4;
}

/// OR A, D.
pub open spec fn spec_or_a_d(o: Cpu, n: Cpu) -> bool {
    n == (Cpu { regs: or8(o.regs, o.regs.d), cycles: 4, ..o })
}

/// OR A, D.
pub fn or_a_d(cpu: &mut Cpu)
    requires
        old(cpu).wf(),
    ensures
        final(cpu).wf(),
        spec_or_a_d(*old(cpu), *final(cpu)),
{
    let v = cpu.regs.d;
    or8_exec(&mut cpu.regs, v);
    cpu.cycles = 4;
}

/// OR A, E.
pub open spec fn spec_or_a_e(o: Cpu, n: Cpu) -> bool {
    n == (Cpu { regs: or8(o.regs, o.regs.e), cycles: 4, ..o })
}

/// OR A, E.
pub fn or_a_e(cpu: &mut Cpu)
    requires
        old(cpu).wf(),
    ensures
        final(cpu).wf(),
        spec_or_a_e(*old(cpu), *final(cpu)),
{
    let v = cpu.regs.e;
    or8_exec(&mut cpu.regs, v);
    cpu.cycles = 4;
}

/// OR A, H.
pub open spec fn spec_or_a_h(o: Cpu, n: Cpu) -> bool {
    n == (Cpu { regs: or8(o.regs, o.regs.h), cycles: 4, ..o })
}

/// OR A, H.
pub fn or_a_h(cpu: &mut Cpu)
    requires
        old(cpu).wf(),
    ensures
        final(cpu).wf(),
        spec_or_a_h(*old(cpu), *final(cpu)),
{
    let v = cpu.regs.h;
    or8_exec(&mut cpu.regs, v);
    cpu.cycles = 4;
}

/// OR A, L.
pub open spec fn spec_or_a_l(o: Cpu, n: Cpu) -> bool {
    n == (Cpu { regs: or8(o.regs, o.regs.l), cycles: 4, ..o })
}

/// OR A, L.
pub fn or_a_l(cpu: &mut Cpu)
    requires
        old(cpu).wf(),
    ensures
        final(cpu).wf(),
        spec_or_a_l(*old(cpu), *final(cpu)),
{
    let v = cpu.regs.l;
    or8_exec(&mut cpu.regs, v);
    cpu.cycles = 4;
}

/// OR A, (HL).
pub open spec fn spec_or_a_mhl(o: Cpu, n: Cpu) -> bool {
    n == (Cpu { regs: or8(o.regs, o.peek(o.regs.hl())), cycles: 8, ..o })
}

/// OR A, (HL).
pub fn or_a_mhl(cpu: &mut Cpu)
    requires
        old(cpu).wf(),
    ensures
        final(cpu).wf(),
        spec_or_a_mhl(*old(cpu), *final(cpu)),
{
    let hl = cpu.regs.get_hl();
    let v = cpu.read(hl);
    or8_exec(&mut cpu.regs, v);
    cpu.cycles = 8;
}

/// OR A, A.
pub open spec fn spec_or_a_a(o: Cpu, n: Cpu) -> bool {
    n == (Cpu { regs: or8(o.regs, o.regs.a), cycles: 4, ..o })
}

/// OR A, A.
pub fn or_a_a(cpu: &mut Cpu)
    requires
        old(cpu).wf(),
    ensures
        final(cpu).wf(),
        spec_or_a_a(*old(cpu), *final(cpu)),
{
    let v = cpu.regs.a;
    or8_exec(&mut cpu.regs, v);
    cpu.cycles = 4;
}

/// CP A, B.
pub open spec fn spec_cp_a_b(o: Cpu, n: Cpu) -> bool {
    n == (Cpu { regs: cp8(o.regs, o.regs.b), cycles: 4, ..o })
}

/// CP A, B.
pub fn cp_a_b(cpu: &mut Cpu)
    requires
        old(cpu).wf(),
    ensures
        final(cpu).wf(),
        spec_cp_a_b(*old(cpu), *final(cpu)),
{
    let v = cpu.regs.b;
    cp8_exec(&mut cpu.regs, v);
    cpu.cycles = 4;
}

/// CP A, C.
pub open spec fn spec_cp_a_c(o: Cpu, n: Cpu) -> bool {
    n == (Cpu { regs: cp8(o.regs, o.regs.c), cycles: 4, ..o })
}

/// CP A, C.
pub fn cp_a_c(cpu: &mut Cpu)
    requires
        old(cpu).wf(),
    ensures
        final(cpu).wf(),
        spec_cp_a_c(*old(cpu), *final(cpu)),
{
    let v = cpu.regs.c;
    cp8_exec(&mut cpu.regs, v);
    cpu.cycles = 4;
}

/// CP A, D.
pub open spec fn spec_cp_a_d(o: Cpu, n: Cpu) -> bool {
    n == (Cpu { regs: cp8(o.regs, o.regs.d), cycles: 4, ..o })
}

/// CP A, D.
pub fn cp_a_d(cpu: &mut Cpu)
    requires
        old(cpu).wf(),
    ensures
        final(cpu).wf(),
        spec_cp_a_d(*old(cpu), *final(cpu)),
{
    let v = cpu.regs.d;
    cp8_exec(&mut cpu.regs, v);
    cpu.cycles = 4;
}

/// CP A, E.
pub open spec fn spec_cp_a_e(o: Cpu, n: Cpu) -> bool {
    n == (Cpu { regs: cp8(o.regs, o.regs.e), cycles: 4, ..o })
}

/// CP A, E.
pub fn cp_a_e(cpu: &mut Cpu)
    requires
        old(cpu).wf(),
    ensures
        final(cpu).wf(),
        spec_cp_a_e(*old(cpu), *final(cpu)),
{
    let v = cpu.regs.e;
    cp8_exec(&mut cpu.regs, v);
    cpu.cycles = 4;
}

/// CP A, H.
pub open spec fn spec_cp_a_h(o: Cpu, n: Cpu) -> bool {
    n == (Cpu { regs: cp8(o.regs, o.regs.h), cycles: 4, ..o })
}

/// CP A, H.
pub fn cp_a_h(cpu: &mut Cpu)
    requires
        old(cpu).wf(),
    ensures
        final(cpu).wf(),
        spec_cp_a_h(*old(cpu), *final(cpu)),
{
    let v = cpu.regs.h;
    cp8_exec(&mut cpu.regs, v);
    cpu.cycles = 4;
}

/// CP A, L.
pub open spec fn spec_cp_a_l(o: Cpu, n: Cpu) -> bool {
    n == (Cpu { regs: cp8(o.regs, o.regs.l), cycles: 4, ..o })
}

/// CP A, L.
pub fn cp_a_l(cpu: &mut Cpu)
    requires
        old(cpu).wf(),
    ensures
        final(cpu).wf(),
        spec_cp_a_l(*old(cpu), *final(cpu)),
{
    let v = cpu.regs.l;
    cp8_exec(&mut cpu.regs, v);
    cpu.cycles = 4;
}

/// CP A, (HL).
pub open spec fn spec_cp_a_mhl(o: Cpu, n: Cpu) -> bool {
    n == (Cpu { regs: cp8(o.regs, o.peek(o.regs.hl())), cycles: 8, ..o })
}

/// CP A, (HL).
pub fn cp_a_mhl(cpu: &mut Cpu)
    requires
        old(cpu).wf(),
    ensures
        final(cpu).wf(),
        spec_cp_a_mhl(*old(cpu), *final(cpu)),
{
    let hl = cpu.regs.get_hl();
    let v = cpu.read(hl);
    cp8_exec(&mut cpu.regs, v);
    cpu.cycles = 8;
}

/// CP A, A.
pub open spec fn spec_cp_a_a(o: Cpu, n: Cpu) -> bool {
    n == (Cpu { regs: cp8(o.regs, o.regs.a), cycles: 4, ..o })
}

/// CP A, A.
pub fn cp_a_a(cpu: &mut Cpu)
    requires
        old(cpu).wf(),
    ensures
        final(cpu).wf(),
        spec_cp_a_a(*old(cpu), *final(cpu)),
{
    let v = cpu.regs.a;
    cp8_exec(&mut cpu.regs, v);
    cpu.cycles = 4;
}

/// RET NZ: 20 cycles when taken, 8 when not.
pub open spec fn spec_ret_nz(o: Cpu, n: Cpu) -> bool {
    if !o.regs.zf {
        n == (Cpu { regs: Register { pc: o.top(), sp: wrap16(o.regs.sp + 2), ..o.regs }, cycles: 20, ..o })
    } else {
        n == (Cpu { cycles: 8, ..o })
    }
}

/// RET NZ: 20 cycles when taken, 8 when not.
pub fn ret_nz(cpu: &mut Cpu)
    requires
        old(cpu).wf(),
    ensures
        final(cpu).wf(),
        spec_ret_nz(*old(cpu), *final(cpu)),
{
    if !cpu.regs.zf {
        let pc = cpu.pop_word();
        cpu.regs.pc = pc;
        cpu.cycles = 20;
    } else {
        cpu.cycles = 8;
    }
}

/// POP BC.
pub open spec fn spec_pop_bc(o: Cpu, n: Cpu) -> bool {
    n == (Cpu { regs: Register { sp: wrap16(o.regs.sp + 2), ..o.regs }.with_bc(o.top()), cycles: 12, ..o })
}

/// POP BC.
pub fn pop_bc(cpu: &mut Cpu)
    requires
        old(cpu).wf(),
    ensures
        final(cpu).wf(),
        spec_pop_bc(*old(cpu), *final(cpu)),
{
    let v = cpu.pop_word();
    cpu.regs.set_bc(v);
    cpu.cycles = 12;
}

/// JP NZ, u16: 16 cycles when taken, 12 when not.
pub open spec fn spec_jp_nz_u16(o: Cpu, n: Cpu) -> bool {
    if !o.regs.zf {
        n == (Cpu { regs: Register { pc: o.imm16(), ..o.regs }, cycles: 16, ..o })
    } else {
        n == (Cpu { regs: adv(o.regs, 2), cycles: 12, ..o })
    }
}

/// JP NZ, u16: 16 cycles when taken, 12 when not.
pub fn jp_nz_u16(cpu: &mut Cpu)
    requires
        old(cpu).wf(),
    ensures
        final(cpu).wf(),
        spec_jp_nz_u16(*old(cpu), *final(cpu)),
{
    let a = cpu.fetch_word();
    if !cpu.regs.zf {
        cpu.regs.pc = a;
        cpu.cycles = 16;
    } else {
        cpu.cycles = 12;
    }
}

/// JP u16.
pub open spec fn spec_jp_u16(o: Cpu, n: Cpu) -> bool {
    n == (Cpu { regs: Register { pc: o.imm16(), ..o.regs }, cycles: 16, ..o })
}

/// JP u16.
pub fn jp_u16(cpu: &mut Cpu)
    requires
        old(cpu).wf(),
    ensures
        final(cpu).wf(),
        spec_jp_u16(*old(cpu), *final(cpu)),
{
    let a = cpu.fetch_word();
    cpu.regs.pc = a;
    cpu.cycles = 16;
}

/// CALL NZ, u16: 24 cycles when taken, 12 when not.
pub open spec fn spec_call_nz_u16(o: Cpu, n: Cpu) -> bool {
    if !o.regs.zf {
        &&& n == (Cpu { regs: Register { sp: wrap16(o.regs.sp + 65534), pc: o.imm16(), ..o.regs }, bus: n.bus, cycles: 24, ..o })
        &&& pushed(o.bus, n.bus, o.regs.sp, wrap16(o.regs.pc + 2))
    } else {
        n == (Cpu { regs: adv(o.regs, 2), cycles: 12, ..o })
    }
}

/// CALL NZ, u16: 24 cycles when taken, 12 when not.
pub fn call_nz_u16(cpu: &mut Cpu)
    requires
        old(cpu).wf(),
    ensures
        final(cpu).wf(),
        spec_call_nz_u16(*old(cpu), *final(cpu)),
{
    let a = cpu.fetch_word();
    if !cpu.regs.zf {
        let ret = cpu.regs.pc;
        cpu.push_word(ret);
        cpu.regs.pc = a;
        cpu.cycles = 24;
    } else {
        cpu.cycles = 12;
    }
}

/// PUSH BC.
pub open spec fn spec_push_bc(o: Cpu, n: Cpu) -> bool {
    &&& n == (Cpu { regs: Register { sp: wrap16(o.regs.sp + 65534), ..o.regs }, bus: n.bus, cycles: 16, ..o })
    &&& pushed(o.bus, n.bus, o.regs.sp, o.regs.bc())
}

/// PUSH BC.
pub fn push_bc(cpu: &mut Cpu)
    requires
        old(cpu).wf(),
    ensures
        final(cpu).wf(),
        spec_push_bc(*old(cpu), *final(cpu)),
{
    let v = cpu.regs.get_bc();
    cpu.push_word(v);
    cpu.cycles = 16;
}

/// ADD A, u8.
pub open spec fn spec_add_a_u8(o: Cpu, n: Cpu) -> bool {
    n == (Cpu { regs: add8(adv(o.regs, 1), o.imm8(), false), cycles: 8, ..o })
}

/// ADD A, u8.
pub fn add_a_u8(cpu: &mut Cpu)
    requires
        old(cpu).wf(),
    ensures
        final(cpu).wf(),
        spec_add_a_u8(*old(cpu), *final(cpu)),
{
    let v = cpu.fetch_byte();
    add8_exec(&mut cpu.regs, v, false);
    cpu.cycles = 8;
}

/// RST 00h: pushes PC and jumps to 0x0000.
pub open spec fn spec_rst_00h(o: Cpu, n: Cpu) -> bool {
    &&& n == (Cpu { regs: Register { sp: wrap16(o.regs.sp + 65534), pc: 0x0000, ..o.regs }, bus: n.bus, cycles: 16, ..o })
    &&& pushed(o.bus, n.bus, o.regs.sp, o.regs.pc)
}

/// RST 00h: pushes PC and jumps to 0x0000.
pub fn rst_00h(cpu: &mut Cpu)
    requires
        old(cpu).wf(),
    ensures
        final(cpu).wf(),
        spec_rst_00h(*old(cpu), *final(cpu)),
{
    let ret = cpu.regs.pc;
    cpu.push_word(ret);
    cpu.regs.pc = 0x0000;
    cpu.cycles = 16;
}

/// RET Z: 20 cycles when taken, 8 when not.
pub open spec fn spec_ret_z(o: Cpu, n: Cpu) -> bool {
    if o.regs.zf {
        n == (Cpu { regs: Register { pc: o.top(), sp: wrap16(o.regs.sp + 2), ..o.regs }, cycles: 20, ..o })
    } else {
        n == (Cpu { cycles: 8, ..o })
    }
}

/// RET Z: 20 cycles when taken, 8 when not.
pub fn ret_z(cpu: &mut Cpu)
    requires
        old(cpu).wf(),
    ensures
        final(cpu).wf(),
        spec_ret_z(*old(cpu), *final(cpu)),
{
    if cpu.regs.zf {
        let pc = cpu.pop_word();
        cpu.regs.pc = pc;
        cpu.cycles = 20;
    } else {
        cpu.cycles = 8;
    }
}

/// RET.
pub open spec fn spec_ret(o: Cpu, n: Cpu) -> bool {
    n == (Cpu { regs: Register { pc: o.top(), sp: wrap16(o.regs.sp + 2), ..o.regs }, cycles: 16, ..o })
}

/// RET.
pub fn ret(cpu: &mut Cpu)
    requires
        old(cpu).wf(),
    ensures
        final(cpu).wf(),
        spec_ret(*old(cpu), *final(cpu)),
{
    let pc = cpu.pop_word();
    cpu.regs.pc = pc;
    cpu.cycles = 16;
}

/// JP Z, u16: 16 cycles when taken, 12 when not.
pub open spec fn spec_jp_z_u16(o: Cpu, n: Cpu) -> bool {
    if o.regs.zf {
        n == (Cpu { regs: Register { pc: o.imm16(), ..o.regs }, cycles: 16, ..o })
    } else {
        n == (Cpu { regs: adv(o.regs, 2), cycles: 12, ..o })
    }
}

/// JP Z, u16: 16 cycles when taken, 12 when not.
pub fn jp_z_u16(cpu: &mut Cpu)
    requires
        old(cpu).wf(),
    ensures
        final(cpu).wf(),
        spec_jp_z_u16(*old(cpu), *final(cpu)),
{
    let a = cpu.fetch_word();
    if cpu.regs.zf {
        cpu.regs.pc = a;
        cpu.cycles = 16;
    } else {
        cpu.cycles = 12;
    }
}

/// CB prefix: fetches the second opcode byte and runs it from the CB table.
pub open spec fn spec_prefix_cb(o: Cpu, n: Cpu) -> bool {
    executed_cb(o.imm8(), Cpu { regs: adv(o.regs, 1), ..o }, n)
}

/// CB prefix: fetches the second opcode byte and runs it from the CB table.
pub fn prefix_cb(cpu: &mut Cpu)
    requires
        old(cpu).wf(),
    ensures
        final(cpu).wf(),
        spec_prefix_cb(*old(cpu), *final(cpu)),
{
    let op = cpu.fetch_byte();
    execute_cb(cpu, op);
}

/// CALL Z, u16: 24 cycles when taken, 12 when not.
pub open spec fn spec_call_z_u16(o: Cpu, n: Cpu) -> bool {
    if o.regs.zf {
        &&& n == (Cpu { regs: Register { sp: wrap16(o.regs.sp + 65534), pc: o.imm16(), ..o.regs }, bus: n.bus, cycles: 24, ..o })
        &&& pushed(o.bus, n.bus, o.regs.sp, wrap16(o.regs.pc + 2))
    } else {
        n == (Cpu { regs: adv(o.regs, 2), cycles: 12, ..o })
    }
}

/// CALL Z, u16: 24 cycles when taken, 12 when not.
pub fn call_z_u16(cpu: &mut Cpu)
    requires
        old(cpu).wf(),
    ensures
        final(cpu).wf(),
        spec_call_z_u16(*old(cpu), *final(cpu)),
{
    let a = cpu.fetch_word();
    if cpu.regs.zf {
        let ret = cpu.regs.pc;
        cpu.push_word(ret);
        cpu.regs.pc = a;
        cpu.cycles = 24;
    } else {
        cpu.cycles = 12;
    }
}

/// CALL u16: pushes the address of the next instruction and jumps.
pub open spec fn spec_call_u16(o: Cpu, n: Cpu) -> bool {
    &&& n == (Cpu { regs: Register { sp: wrap16(o.regs.sp + 65534), pc: o.imm16(), ..o.regs }, bus: n.bus, cycles: 24, ..o })
    &&& pushed(o.bus, n.bus, o.regs.sp, wrap16(o.regs.pc + 2))
}

/// CALL u16: pushes the address of the next instruction and jumps.
pub fn call_u16(cpu: &mut Cpu)
    requires
        old(cpu).wf(),
    ensures
        final(cpu).wf(),
        spec_call_u16(*old(cpu), *final(cpu)),
{
    let a = cpu.fetch_word();
    let ret = cpu.regs.pc;
    cpu.push_word(ret);
    cpu.regs.pc = a;
    cpu.cycles = 24;
}

/// ADC A, u8.
pub open spec fn spec_adc_a_u8(o: Cpu, n: Cpu) -> bool {
    n == (Cpu { regs: add8(adv(o.regs, 1), o.imm8(), true), cycles: 8, ..o })
}

/// ADC A, u8.
pub fn adc_a_u8(cpu: &mut Cpu)
    requires
        old(cpu).wf(),
    ensures
        final(cpu).wf(),
        spec_adc_a_u8(*old(cpu), *final(cpu)),
{
    let v = cpu.fetch_byte();
    add8_exec(&mut cpu.regs, v, true);
    cpu.cycles = 8;
}

/// RST 08h: pushes PC and jumps to 0x0008.
pub open spec fn spec_rst_08h(o: Cpu, n: Cpu) -> bool {
    &&& n == (Cpu { regs: Register { sp: wrap16(o.regs.sp + 65534), pc: 0x0008, ..o.regs }, bus: n.bus, cycles: 16, ..o })
    &&& pushed(o.bus, n.bus, o.regs.sp, o.regs.pc)
}

/// RST 08h: pushes PC and jumps to 0x0008.
pub fn rst_08h(cpu: &mut Cpu)
    requires
        old(cpu).wf(),
    ensures
        final(cpu).wf(),
        spec_rst_08h(*old(cpu), *final(cpu)),
{
    let ret = cpu.regs.pc;
    cpu.push_word(ret);
    cpu.regs.pc = 0x0008;
    cpu.cycles = 16;
}

/// RET NC: 20 cycles when taken, 8 when not.
pub open spec fn spec_ret_nc(o: Cpu, n: Cpu) -> bool {
    if !o.regs.cf {
        n == (Cpu { regs: Register { pc: o.top(), sp: wrap16(o.regs.sp + 2), ..o.regs }, cycles: 20, ..o })
    } else {
        n == (Cpu { cycles: 8, ..o })
    }
}

/// RET NC: 20 cycles when taken, 8 when not.
pub fn ret_nc(cpu: &mut Cpu)
    requires
        old(cpu).wf(),
    ensures
        final(cpu).wf(),
        spec_ret_nc(*old(cpu), *final(cpu)),
{
    if !cpu.regs.cf {
        let pc = cpu.pop_word();
        cpu.regs.pc = pc;
        cpu.cycles = 20;
    } else {
        cpu.cycles = 8;
    }
}

/// POP DE.
pub open spec fn spec_pop_de(o: Cpu, n: Cpu) -> bool {
    n == (Cpu { regs: Register { sp: wrap16(o.regs.sp + 2), ..o.regs }.with_de(o.top()), cycles: 12, ..o })
}

/// POP DE.
pub fn pop_de(cpu: &mut Cpu)
    requires
        old(cpu).wf(),
    ensures
        final(cpu).wf(),
        spec_pop_de(*old(cpu), *final(cpu)),
{
    let v = cpu.pop_word();
    cpu.regs.set_de(v);
    cpu.cycles = 12;
}

/// JP NC, u16: 16 cycles when taken, 12 when not.
pub open spec fn spec_jp_nc_u16(o: Cpu, n: Cpu) -> bool {
    if !o.regs.cf {
        n == (Cpu { regs: Register { pc: o.imm16(), ..o.regs }, cycles: 16, ..o })
    } else {
        n == (Cpu { regs: adv(o.regs, 2), cycles: 12, ..o })
    }
}

/// JP NC, u16: 16 cycles when taken, 12 when not.
pub fn jp_nc_u16(cpu: &mut Cpu)
    requires
        old(cpu).wf(),
    ensures
        final(cpu).wf(),
        spec_jp_nc_u16(*old(cpu), *final(cpu)),
{
    let a = cpu.fetch_word();
    if !cpu.regs.cf {
        cpu.regs.pc = a;
        cpu.cycles = 16;
    } else {
        cpu.cycles = 12;
    }
}

/// CALL NC, u16: 24 cycles when taken, 12 when not.
pub open spec fn spec_call_nc_u16(o: Cpu, n: Cpu) -> bool {
    if !o.regs.cf {
        &&& n == (Cpu { regs: Register { sp: wrap16(o.regs.sp + 65534), pc: o.imm16(), ..o.regs }, bus: n.bus, cycles: 24, ..o })
        &&& pushed(o.bus, n.bus, o.regs.sp, wrap16(o.regs.pc + 2))
    } else {
        n == (Cpu { regs: adv(o.regs, 2), cycles: 12, ..o })
    }
}

/// CALL NC, u16: 24 cycles when taken, 12 when not.
pub fn call_nc_u16(cpu: &mut Cpu)
    requires
        old(cpu).wf(),
    ensures
        final(cpu).wf(),
        spec_call_nc_u16(*old(cpu), *final(cpu)),
{
    let a = cpu.fetch_word();
    if !cpu.regs.cf {
        let ret = cpu.regs.pc;
        cpu.push_word(ret);
        cpu.regs.pc = a;
        cpu.cycles = 24;
    } else {
        cpu.cycles = 12;
    }
}

/// PUSH DE.
pub open spec fn spec_push_de(o: Cpu, n: Cpu) -> bool {
    &&& n == (Cpu { regs: Register { sp: wrap16(o.regs.sp + 65534), ..o.regs }, bus: n.bus, cycles: 16, ..o })
    &&& pushed(o.bus, n.bus, o.regs.sp, o.regs.de())
}

/// PUSH DE.
pub fn push_de(cpu: &mut Cpu)
    requires
        old(cpu).wf(),
    ensures
        final(cpu).wf(),
        spec_push_de(*old(cpu), *final(cpu)),
{
    let v = cpu.regs.get_de();
    cpu.push_word(v);
    cpu.cycles = 16;
}

/// SUB A, u8.
pub open spec fn spec_sub_a_u8(o: Cpu, n: Cpu) -> bool {
    n == (Cpu { regs: sub8(adv(o.regs, 1), o.imm8(), false), cycles: 8, ..o })
}

/// SUB A, u8.
pub fn sub_a_u8(cpu: &mut Cpu)
    requires
        old(cpu).wf(),
    ensures
        final(cpu).wf(),
        spec_sub_a_u8(*old(cpu), *final(cpu)),
{
    let v = cpu.fetch_byte();
    sub8_exec(&mut cpu.regs, v, false);
    cpu.cycles = 8;
}

/// RST 10h: pushes PC and jumps to 0x0010.
pub open spec fn spec_rst_10h(o: Cpu, n: Cpu) -> bool {
    &&& n == (Cpu { regs: Register { sp: wrap16(o.regs.sp + 65534), pc: 0x0010, ..o.regs }, bus: n.bus, cycles: 16, ..o })
    &&& pushed(o.bus, n.bus, o.regs.sp, o.regs.pc)
}

/// RST 10h: pushes PC and jumps to 0x0010.
pub fn rst_10h(cpu: &mut Cpu)
    requires
        old(cpu).wf(),
    ensures
        final(cpu).wf(),
        spec_rst_10h(*old(cpu), *final(cpu)),
{
    let ret = cpu.regs.pc;
    cpu.push_word(ret);
    cpu.regs.pc = 0x0010;
    cpu.cycles = 16;
}

/// RET C: 20 cycles when taken, 8 when not.
pub open spec fn spec_ret_c(o: Cpu, n: Cpu) -> bool {
    if o.regs.cf {
        n == (Cpu { regs: Register { pc: o.top(), sp: wrap16(o.regs.sp + 2), ..o.regs }, cycles: 20, ..o })
    } else {
        n == (Cpu { cycles: 8, ..o })
    }
}

/// RET C: 20 cycles when taken, 8 when not.
pub fn ret_c(cpu: &mut Cpu)
    requires
        old(cpu).wf(),
    ensures
        final(cpu).wf(),
        spec_ret_c(*old(cpu), *final(cpu)),
{
    if cpu.regs.cf {
        let pc = cpu.pop_word();
        cpu.regs.pc = pc;
        cpu.cycles = 20;
    } else {
        cpu.cycles = 8;
    }
}

/// RETI: returns and sets IME.
pub open spec fn spec_reti(o: Cpu, n: Cpu) -> bool {
    n == (Cpu { regs: Register { pc: o.top(), sp: wrap16(o.regs.sp + 2), ..o.regs }, cycles: 16, ime: true, ..o })
}

/// RETI: returns and sets IME.
pub fn reti(cpu: &mut Cpu)
    requires
        old(cpu).wf(),
    ensures
        final(cpu).wf(),
        spec_reti(*old(cpu), *final(cpu)),
{
    let pc = cpu.pop_word();
    cpu.regs.pc = pc;
    cpu.ime = true;
    cpu.cycles = 16;
}

/// JP C, u16: 16 cycles when taken, 12 when not.
pub open spec fn spec_jp_c_u16(o: Cpu, n: Cpu) -> bool {
    if o.regs.cf {
        n == (Cpu { regs: Register { pc: o.imm16(), ..o.regs }, cycles: 16, ..o })
    } else {
        n == (Cpu { regs: adv(o.regs, 2), cycles: 12, ..o })
    }
}

/// JP C, u16: 16 cycles when taken, 12 when not.
pub fn jp_c_u16(cpu: &mut Cpu)
    requires
        old(cpu).wf(),
    ensures
        final(cpu).wf(),
        spec_jp_c_u16(*old(cpu), *final(cpu)),
{
    let a = cpu.fetch_word();
    if cpu.regs.cf {
        cpu.regs.pc = a;
        cpu.cycles = 16;
    } else {
        cpu.cycles = 12;
    }
}

/// CALL C, u16: 24 cycles when taken, 12 when not.
pub open spec fn spec_call_c_u16(o: Cpu, n: Cpu) -> bool {
    if o.regs.cf {
        &&& n == (Cpu { regs: Register { sp: wrap16(o.regs.sp + 65534), pc: o.imm16(), ..o.regs }, bus: n.bus, cycles: 24, ..o })
        &&& pushed(o.bus, n.bus, o.regs.sp, wrap16(o.regs.pc + 2))
    } else {
        n == (Cpu { regs: adv(o.regs, 2), cycles: 12, ..o })
    }
}

/// CALL C, u16: 24 cycles when taken, 12 when not.
pub fn call_c_u16(cpu: &mut Cpu)
    requires
        old(cpu).wf(),
    ensures
        final(cpu).wf(),
        spec_call_c_u16(*old(cpu), *final(cpu)),
{
    let a = cpu.fetch_word();
    if cpu.regs.cf {
        let ret = cpu.regs.pc;
        cpu.push_word(ret);
        cpu.regs.pc = a;
        cpu.cycles = 24;
    } else {
        cpu.cycles = 12;
    }
}

/// SBC A, u8.
pub open spec fn spec_sbc_a_u8(o: Cpu, n: Cpu) -> bool {
    n == (Cpu { regs: sub8(adv(o.regs, 1), o.imm8(), true), cycles: 8, ..o })
}

/// SBC A, u8.
pub fn sbc_a_u8(cpu: &mut Cpu)
    requires
        old(cpu).wf(),
    ensures
        final(cpu).wf(),
        spec_sbc_a_u8(*old(cpu), *final(cpu)),
{
    let v = cpu.fetch_byte();
    sub8_exec(&mut cpu.regs, v, true);
    cpu.cycles = 8;
}

/// RST 18h: pushes PC and jumps to 0x0018.
pub open spec fn spec_rst_18h(o: Cpu, n: Cpu) -> bool {
    &&& n == (Cpu { regs: Register { sp: wrap16(o.regs.sp + 65534), pc: 0x0018, ..o.regs }, bus: n.bus, cycles: 16, ..o })
    &&& pushed(o.bus, n.bus, o.regs.sp, o.regs.pc)
}

/// RST 18h: pushes PC and jumps to 0x0018.
pub fn rst_18h(cpu: &mut Cpu)
    requires
        old(cpu).wf(),
    ensures
        final(cpu).wf(),
        spec_rst_18h(*old(cpu), *final(cpu)),
{
    let ret = cpu.regs.pc;
    cpu.push_word(ret);
    cpu.regs.pc = 0x0018;
    cpu.cycles = 16;
}

/// LDH (u8), A: writes A to 0xFF00 + u8.
pub open spec fn spec_ld_mff00_u8_a(o: Cpu, n: Cpu) -> bool {
    &&& n == (Cpu { regs: adv(o.regs, 1), bus: n.bus, cycles: 12, ..o })
    &&& o.bus.written(n.bus, (0xFF00 + o.imm8()) as u16, o.regs.a)
}

/// LDH (u8), A: writes A to 0xFF00 + u8.
pub fn ld_mff00_u8_a(cpu: &mut Cpu)
    requires
        old(cpu).wf(),
    ensures
        final(cpu).wf(),
        spec_ld_mff00_u8_a(*old(cpu), *final(cpu)),
{
    let e = cpu.fetch_byte();
    let v = cpu.regs.a;
    cpu.write(0xFF00 + e as u16, v);
    cpu.cycles = 12;
}

/// POP HL.
pub open spec fn spec_pop_hl(o: Cpu, n: Cpu) -> bool {
    n == (Cpu { regs: Register { sp: wrap16(o.regs.sp + 2), ..o.regs }.with_hl(o.top()), cycles: 12, ..o })
}

/// POP HL.
pub fn pop_hl(cpu: &mut Cpu)
    requires
        old(cpu).wf(),
    ensures
        final(cpu).wf(),
        spec_pop_hl(*old(cpu), *final(cpu)),
{
    let v = cpu.pop_word();
    cpu.regs.set_hl(v);
    cpu.cycles = 12;
}

/// LD (C), A: writes A to 0xFF00 + C.
pub open spec fn spec_ld_mff00_c_a(o: Cpu, n: Cpu) -> bool {
    &&& n == (Cpu { bus: n.bus, cycles: 8, ..o })
    &&& o.bus.written(n.bus, (0xFF00 + o.regs.c) as u16, o.regs.a)
}

/// LD (C), A: writes A to 0xFF00 + C.
pub fn ld_mff00_c_a(cpu: &mut Cpu)
    requires
        old(cpu).wf(),
    ensures
        final(cpu).wf(),
        spec_ld_mff00_c_a(*old(cpu), *final(cpu)),
{
    let c = cpu.regs.c;
    let v = cpu.regs.a;
    cpu.write(0xFF00 + c as u16, v);
    cpu.cycles = 8;
}

/// PUSH HL.
pub open spec fn spec_push_hl(o: Cpu, n: Cpu) -> bool {
    &&& n == (Cpu { regs: Register { sp: wrap16(o.regs.sp + 65534), ..o.regs }, bus: n.bus, cycles: 16, ..o })
    &&& pushed(o.bus, n.bus, o.regs.sp, o.regs.hl())
}

/// PUSH HL.
pub fn push_hl(cpu: &mut Cpu)
    requires
        old(cpu).wf(),
    ensures
        final(cpu).wf(),
        spec_push_hl(*old(cpu), *final(cpu)),
{
    let v = cpu.regs.get_hl();
    cpu.push_word(v);
    cpu.cycles = 16;
}

/// AND A, u8.
pub open spec fn spec_and_a_u8(o: Cpu, n: Cpu) -> bool {
    n == (Cpu { regs: and8(adv(o.regs, 1), o.imm8()), cycles: 8, ..o })
}

/// AND A, u8.
pub fn and_a_u8(cpu: &mut Cpu)
    requires
        old(cpu).wf(),
    ensures
        final(cpu).wf(),
        spec_and_a_u8(*old(cpu), *final(cpu)),
{
    let v = cpu.fetch_byte();
    and8_exec(&mut cpu.regs, v);
    cpu.cycles = 8;
}

/// RST 20h: pushes PC and jumps to 0x0020.
pub open spec fn spec_rst_20h(o: Cpu, n: Cpu) -> bool {
    &&& n == (Cpu { regs: Register { sp: wrap16(o.regs.sp + 65534), pc: 0x0020, ..o.regs }, bus: n.bus, cycles: 16, ..o })
    &&& pushed(o.bus, n.bus, o.regs.sp, o.regs.pc)
}

/// RST 20h: pushes PC and jumps to 0x0020.
pub fn rst_20h(cpu: &mut Cpu)
    requires
        old(cpu).wf(),
    ensures
        final(cpu).wf(),
        spec_rst_20h(*old(cpu), *final(cpu)),
{
    let ret = cpu.regs.pc;
    cpu.push_word(ret);
    cpu.regs.pc = 0x0020;
    cpu.cycles = 16;
}

/// ADD SP, i8.
pub open spec fn spec_add_sp_i8(o: Cpu, n: Cpu) -> bool {
    n == (Cpu { regs: Register { sp: sp_offset(o.regs.sp, o.imm8()), ..sp_offset_flags(adv(o.regs, 1), o.imm8()) }, cycles: 16, ..o })
}

/// ADD SP, i8.
pub fn add_sp_i8(cpu: &mut Cpu)
    requires
        old(cpu).wf(),
    ensures
        final(cpu).wf(),
        spec_add_sp_i8(*old(cpu), *final(cpu)),
{
    let e = cpu.fetch_byte();
    let v = sp_offset_exec(&mut cpu.regs, e);
    cpu.regs.sp = v;
    cpu.cycles = 16;
}

/// JP HL.
pub open spec fn spec_jp_hl(o: Cpu, n: Cpu) -> bool {
    n == (Cpu { regs: Register { pc: o.regs.hl(), ..o.regs }, cycles: 4, ..o })
}

/// JP HL.
pub fn jp_hl(cpu: &mut Cpu)
    requires
        old(cpu).wf(),
    ensures
        final(cpu).wf(),
        spec_jp_hl(*old(cpu), *final(cpu)),
{
    cpu.regs.pc = cpu.regs.get_hl();
    cpu.cycles = 4;
}

/// LD (u16), A.
pub open spec fn spec_ld_mu16_a(o: Cpu, n: Cpu) -> bool {
    &&& n == (Cpu { regs: adv(o.regs, 2), bus: n.bus, cycles: 16, ..o })
    &&& o.bus.written(n.bus, o.imm16(), o.regs.a)
}

/// LD (u16), A.
pub fn ld_mu16_a(cpu: &mut Cpu)
    requires
        old(cpu).wf(),
    ensures
        final(cpu).wf(),
        spec_ld_mu16_a(*old(cpu), *final(cpu)),
{
    let a = cpu.fetch_word();
    let v = cpu.regs.a;
    cpu.write(a, v);
    cpu.cycles = 16;
}

/// XOR A, u8.
pub open spec fn spec_xor_a_u8(o: Cpu, n: Cpu) -> bool {
    n == (Cpu { regs: xor8(adv(o.regs, 1), o.imm8()), cycles: 8, ..o })
}

/// XOR A, u8.
pub fn xor_a_u8(cpu: &mut Cpu)
    requires
        old(cpu).wf(),
    ensures
        final(cpu).wf(),
        spec_xor_a_u8(*old(cpu), *final(cpu)),
{
    let v = cpu.fetch_byte();
    xor8_exec(&mut cpu.regs, v);
    cpu.cycles = 8;
}

/// RST 28h: pushes PC and jumps to 0x0028.
pub open spec fn spec_rst_28h(o: Cpu, n: Cpu) -> bool {
    &&& n == (Cpu { regs: Register { sp: wrap16(o.regs.sp + 65534), pc: 0x0028, ..o.regs }, bus: n.bus, cycles: 16, ..o })
    &&& pushed(o.bus, n.bus, o.regs.sp, o.regs.pc)
}

/// RST 28h: pushes PC and jumps to 0x0028.
pub fn rst_28h(cpu: &mut Cpu)
    requires
        old(cpu).wf(),
    ensures
        final(cpu).wf(),
        spec_rst_28h(*old(cpu), *final(cpu)),
{
    let ret = cpu.regs.pc;
    cpu.push_word(ret);
    cpu.regs.pc = 0x0028;
    cpu.cycles = 16;
}

/// LDH A, (u8): reads A from 0xFF00 + u8.
pub open spec fn spec_ld_a_mff00u8(o: Cpu, n: Cpu) -> bool {
    n == (Cpu { regs: Register { a: o.peek((0xFF00 + o.imm8()) as u16), ..adv(o.regs, 1) }, cycles: 12, ..o })
}

/// LDH A, (u8): reads A from 0xFF00 + u8.
pub fn ld_a_mff00u8(cpu: &mut Cpu)
    requires
        old(cpu).wf(),
    ensures
        final(cpu).wf(),
        spec_ld_a_mff00u8(*old(cpu), *final(cpu)),
{
    let e = cpu.fetch_byte();
    let v = cpu.read(0xFF00 + e as u16);
    cpu.regs.a = v;
    cpu.cycles = 12;
}

/// POP AF. The low nibble of F reads as zero.
pub open spec fn spec_pop_af(o: Cpu, n: Cpu) -> bool {
    n == (Cpu { regs: Register { sp: wrap16(o.regs.sp + 2), ..o.regs }.with_af(o.top()), cycles: 12, ..o })
}

/// POP AF. The low nibble of F reads as zero.
pub fn pop_af(cpu: &mut Cpu)
    requires
        old(cpu).wf(),
    ensures
        final(cpu).wf(),
        spec_pop_af(*old(cpu), *final(cpu)),
{
    let v = cpu.pop_word();
    cpu.regs.set_af(v);
    cpu.cycles = 12;
}

/// LD A, (C): reads A from 0xFF00 + C.
pub open spec fn spec_ld_a_mff00_c(o: Cpu, n: Cpu) -> bool {
    n == (Cpu { regs: Register { a: o.peek((0xFF00 + o.regs.c) as u16), ..o.regs }, cycles: 8, ..o })
}

/// LD A, (C): reads A from 0xFF00 + C.
pub fn ld_a_mff00_c(cpu: &mut Cpu)
    requires
        old(cpu).wf(),
    ensures
        final(cpu).wf(),
        spec_ld_a_mff00_c(*old(cpu), *final(cpu)),
{
    let c = cpu.regs.c;
    let v = cpu.read(0xFF00 + c as u16);
    cpu.regs.a = v;
    cpu.cycles = 8;
}

/// DI: clears IME.
pub open spec fn spec_di(o: Cpu, n: Cpu) -> bool {
    n == (Cpu { cycles: 4, ime: false, ..o })
}

/// DI: clears IME.
pub fn di(cpu: &mut Cpu)
    requires
        old(cpu).wf(),
    ensures
        final(cpu).wf(),
        spec_di(*old(cpu), *final(cpu)),
{
    cpu.ime = false;
    cpu.cycles = 4;
}

/// PUSH AF.
pub open spec fn spec_push_af(o: Cpu, n: Cpu) -> bool {
    &&& n == (Cpu { regs: Register { sp: wrap16(o.regs.sp + 65534), ..o.regs }, bus: n.bus, cycles: 16, ..o })
    &&& pushed(o.bus, n.bus, o.regs.sp, o.regs.af())
}

/// PUSH AF.
pub fn push_af(cpu: &mut Cpu)
    requires
        old(cpu).wf(),
    ensures
        final(cpu).wf(),
        spec_push_af(*old(cpu), *final(cpu)),
{
    let v = cpu.regs.get_af();
    cpu.push_word(v);
    cpu.cycles = 16;
}

/// OR A, u8.
pub open spec fn spec_or_a_u8(o: Cpu, n: Cpu) -> bool {
    n == (Cpu { regs: or8(adv(o.regs, 1), o.imm8()), cycles: 8, ..o })
}

/// OR A, u8.
pub fn or_a_u8(cpu: &mut Cpu)
    requires
        old(cpu).wf(),
    ensures
        final(cpu).wf(),
        spec_or_a_u8(*old(cpu), *final(cpu)),
{
    let v = cpu.fetch_byte();
    or8_exec(&mut cpu.regs, v);
    cpu.cycles = 8;
}

/// RST 30h: pushes PC and jumps to 0x0030.
pub open spec fn spec_rst_30h(o: Cpu, n: Cpu) -> bool {
    &&& n == (Cpu { regs: Register { sp: wrap16(o.regs.sp + 65534), pc: 0x0030, ..o.regs }, bus: n.bus, cycles: 16, ..o })
    &&& pushed(o.bus, n.bus, o.regs.sp, o.regs.pc)
}

/// RST 30h: pushes PC and jumps to 0x0030.
pub fn rst_30h(cpu: &mut Cpu)
    requires
        old(cpu).wf(),
    ensures
        final(cpu).wf(),
        spec_rst_30h(*old(cpu), *final(cpu)),
{
    let ret = cpu.regs.pc;
    cpu.push_word(ret);
    cpu.regs.pc = 0x0030;
    cpu.cycles = 16;
}

/// LD HL, SP + i8.
pub open spec fn spec_ld_hl_sp_i8(o: Cpu, n: Cpu) -> bool {
    n == (Cpu { regs: sp_offset_flags(adv(o.regs, 1), o.imm8()).with_hl(sp_offset(o.regs.sp, o.imm8())), cycles: 12, ..o })
}

/// LD HL, SP + i8.
pub fn ld_hl_sp_i8(cpu: &mut Cpu)
    requires
        old(cpu).wf(),
    ensures
        final(cpu).wf(),
        spec_ld_hl_sp_i8(*old(cpu), *final(cpu)),
{
    let e = cpu.fetch_byte();
    let v = sp_offset_exec(&mut cpu.regs, e);
    cpu.regs.set_hl(v);
    cpu.cycles = 12;
}

/// LD SP, HL.
pub open spec fn spec_ld_sp_hl(o: Cpu, n: Cpu) -> bool {
    n == (Cpu { regs: Register { sp: o.regs.hl(), ..o.regs }, cycles: 8, ..o })
}

/// LD SP, HL.
pub fn ld_sp_hl(cpu: &mut Cpu)
    requires
        old(cpu).wf(),
    ensures
        final(cpu).wf(),
        spec_ld_sp_hl(*old(cpu), *final(cpu)),
{
    cpu.regs.sp = cpu.regs.get_hl();
    cpu.cycles = 8;
}

/// LD A, (u16).
pub open spec fn spec_ld_a_mu16(o: Cpu, n: Cpu) -> bool {
    n == (Cpu { regs: Register { a: o.peek(o.imm16()), ..adv(o.regs, 2) }, cycles: 16, ..o })
}

/// LD A, (u16).
pub fn ld_a_mu16(cpu: &mut Cpu)
    requires
        old(cpu).wf(),
    ensures
        final(cpu).wf(),
        spec_ld_a_mu16(*old(cpu), *final(cpu)),
{
    let a = cpu.fetch_word();
    let v = cpu.read(a);
    cpu.regs.a = v;
    cpu.cycles = 16;
}

/// EI: sets IME.
pub open spec fn spec_ei(o: Cpu, n: Cpu) -> bool {
    n == (Cpu { cycles: 4, ime: true, ..o })
}

/// EI: sets IME.
pub fn ei(cpu: &mut Cpu)
    requires
        old(cpu).wf(),
    ensures
        final(cpu).wf(),
        spec_ei(*old(cpu), *final(cpu)),
{
    cpu.ime = true;
    cpu.cycles = 4;
}

/// CP A, u8.
pub open spec fn spec_cp_a_u8(o: Cpu, n: Cpu) -> bool {
    n == (Cpu { regs: cp8(adv(o.regs, 1), o.imm8()), cycles: 8, ..o })
}

/// CP A, u8.
pub fn cp_a_u8(cpu: &mut Cpu)
    requires
        old(cpu).wf(),
    ensures
        final(cpu).wf(),
        spec_cp_a_u8(*old(cpu), *final(cpu)),
{
    let v = cpu.fetch_byte();
    cp8_exec(&mut cpu.regs, v);
    cpu.cycles = 8;
}

/// RST 38h: pushes PC and jumps to 0x0038.
pub open spec fn spec_rst_38h(o: Cpu, n: Cpu) -> bool {
    &&& n == (Cpu { regs: Register { sp: wrap16(o.regs.sp + 65534), pc: 0x0038, ..o.regs }, bus: n.bus, cycles: 16, ..o })
    &&& pushed(o.bus, n.bus, o.regs.sp, o.regs.pc)
}

/// RST 38h: pushes PC and jumps to 0x0038.
pub fn rst_38h(cpu: &mut Cpu)
    requires
        old(cpu).wf(),
    ensures
        final(cpu).wf(),
        spec_rst_38h(*old(cpu), *final(cpu)),
{
    let ret = cpu.regs.pc;
    cpu.push_word(ret);
    cpu.regs.pc = 0x0038;
    cpu.cycles = 16;
}

/// RLC B.
pub open spec fn spec_rlc_b(o: Cpu, n: Cpu) -> bool {
    n == (Cpu { regs: Register { b: shift_value(Shift::Rlc, o.regs.b, o.regs.cf), ..shift_flags(o.regs, shift_value(Shift::Rlc, o.regs.b, o.regs.cf), shift_carry(Shift::Rlc, o.regs.b)) }, cycles: 8, ..o })
}

/// RLC B.
pub fn rlc_b(cpu: &mut Cpu)
    requires
        old(cpu).wf(),
    ensures
        final(cpu).wf(),
        spec_rlc_b(*old(cpu), *final(cpu)),
{
    let v = cpu.regs.b;
    let res = shift_exec(&mut cpu.regs, Shift::Rlc, v);
    cpu.regs.b = res;
    cpu.cycles = 8;
}

/// RLC C.
pub open spec fn spec_rlc_c(o: Cpu, n: Cpu) -> bool {
    n == (Cpu { regs: Register { c: shift_value(Shift::Rlc, o.regs.c, o.regs.cf), ..shift_flags(o.regs, shift_value(Shift::Rlc, o.regs.c, o.regs.cf), shift_carry(Shift::Rlc, o.regs.c)) }, cycles: 8, ..o })
}

/// RLC C.
pub fn rlc_c(cpu: &mut Cpu)
    requires
        old(cpu).wf(),
    ensures
        final(cpu).wf(),
        spec_rlc_c(*old(cpu), *final(cpu)),
{
    let v = cpu.regs.c;
    let res = shift_exec(&mut cpu.regs, Shift::Rlc, v);
    cpu.regs.c = res;
    cpu.cycles = 8;
}

/// RLC D.
pub open spec fn spec_rlc_d(o: Cpu, n: Cpu) -> bool {
    n == (Cpu { regs: Register { d: shift_value(Shift::Rlc, o.regs.d, o.regs.cf), ..shift_flags(o.regs, shift_value(Shift::Rlc, o.regs.d, o.regs.cf), shift_carry(Shift::Rlc, o.regs.d)) }, cycles: 8, ..o })
}

/// RLC D.
pub fn rlc_d(cpu: &mut Cpu)
    requires
        old(cpu).wf(),
    ensures
        final(cpu).wf(),
        spec_rlc_d(*old(cpu), *final(cpu)),
{
    let v = cpu.regs.d;
    let res = shift_exec(&mut cpu.regs, Shift::Rlc, v);
    cpu.regs.d = res;
    cpu.cycles = 8;
}

/// RLC E.
pub open spec fn spec_rlc_e(o: Cpu, n: Cpu) -> bool {
    n == (Cpu { regs: Register { e: shift_value(Shift::Rlc, o.regs.e, o.regs.cf), ..shift_flags(o.regs, shift_value(Shift::Rlc, o.regs.e, o.regs.cf), shift_carry(Shift::Rlc, o.regs.e)) }, cycles: 8, ..o })
}

/// RLC E.
pub fn rlc_e(cpu: &mut Cpu)
    requires
        old(cpu).wf(),
    ensures
        final(cpu).wf(),
        spec_rlc_e(*old(cpu), *final(cpu)),
{
    let v = cpu.regs.e;
    let res = shift_exec(&mut cpu.regs, Shift::Rlc, v);
    cpu.regs.e = res;
    cpu.cycles = 8;
}

/// RLC H.
pub open spec fn spec_rlc_h(o: Cpu, n: Cpu) -> bool {
    n == (Cpu { regs: Register { h: shift_value(Shift::Rlc, o.regs.h, o.regs.cf), ..shift_flags(o.regs, shift_value(Shift::Rlc, o.regs.h, o.regs.cf), shift_carry(Shift::Rlc, o.regs.h)) }, cycles: 8, ..o })
}

/// RLC H.
pub fn rlc_h(cpu: &mut Cpu)
    requires
        old(cpu).wf(),
    ensures
        final(cpu).wf(),
        spec_rlc_h(*old(cpu), *final(cpu)),
{
    let v = cpu.regs.h;
    let res = shift_exec(&mut cpu.regs, Shift::Rlc, v);
    cpu.regs.h = res;
    cpu.cycles = 8;
}

/// RLC L.
pub open spec fn spec_rlc_l(o: Cpu, n: Cpu) -> bool {
    n == (Cpu { regs: Register { l: shift_value(Shift::Rlc, o.regs.l, o.regs.cf), ..shift_flags(o.regs, shift_value(Shift::Rlc, o.regs.l, o.regs.cf), shift_carry(Shift::Rlc, o.regs.l)) }, cycles: 8, ..o })
}

/// RLC L.
pub fn rlc_l(cpu: &mut Cpu)
    requires
        old(cpu).wf(),
    ensures
        final(cpu).wf(),
        spec_rlc_l(*old(cpu), *final(cpu)),
{
    let v = cpu.regs.l;
    let res = shift_exec(&mut cpu.regs, Shift::Rlc, v);
    cpu.regs.l = res;
    cpu.cycles = 8;
}

/// RLC (HL).
pub open spec fn spec_rlc_mhl(o: Cpu, n: Cpu) -> bool {
    &&& n == (Cpu { regs: shift_flags(o.regs, shift_value(Shift::Rlc, o.peek(o.regs.hl()), o.regs.cf), shift_carry(Shift::Rlc, o.peek(o.regs.hl()))), bus: n.bus, cycles: 16, ..o })
    &&& o.bus.written(n.bus, o.regs.hl(), shift_value(Shift::Rlc, o.peek(o.regs.hl()), o.regs.cf))
}

/// RLC (HL).
pub fn rlc_mhl(cpu: &mut Cpu)
    requires
        old(cpu).wf(),
    ensures
        final(cpu).wf(),
        spec_rlc_mhl(*old(cpu), *final(cpu)),
{
    let hl = cpu.regs.get_hl();
    let v = cpu.read(hl);
    let res = shift_exec(&mut cpu.regs, Shift::Rlc, v);
    cpu.write(hl, res);
    cpu.cycles = 16;
}

/// RLC A.
pub open spec fn spec_rlc_a(o: Cpu, n: Cpu) -> bool {
    n == (Cpu { regs: Register { a: shift_value(Shift::Rlc, o.regs.a, o.regs.cf), ..shift_flags(o.regs, shift_value(Shift::Rlc, o.regs.a, o.regs.cf), shift_carry(Shift::Rlc, o.regs.a)) }, cycles: 8, ..o })
}

/// RLC A.
pub fn rlc_a(cpu: &mut Cpu)
    requires
        old(cpu).wf(),
    ensures
        final(cpu).wf(),
        spec_rlc_a(*old(cpu), *final(cpu)),
{
    let v = cpu.regs.a;
    let res = shift_exec(&mut cpu.regs, Shift::Rlc, v);
    cpu.regs.a = res;
    cpu.cycles = 8;
}

/// RRC B.
pub open spec fn spec_rrc_b(o: Cpu, n: Cpu) -> bool {
    n == (Cpu { regs: Register { b: shift_value(Shift::Rrc, o.regs.b, o.regs.cf), ..shift_flags(o.regs, shift_value(Shift::Rrc, o.regs.b, o.regs.cf), shift_carry(Shift::Rrc, o.regs.b)) }, cycles: 8, ..o })
}

/// RRC B.
pub fn rrc_b(cpu: &mut Cpu)
    requires
        old(cpu).wf(),
    ensures
        final(cpu).wf(),
        spec_rrc_b(*old(cpu), *final(cpu)),
{
    let v = cpu.regs.b;
    let res = shift_exec(&mut cpu.regs, Shift::Rrc, v);
    cpu.regs.b = res;
    cpu.cycles = 8;
}

/// RRC C.
pub open spec fn spec_rrc_c(o: Cpu, n: Cpu) -> bool {
    n == (Cpu { regs: Register { c: shift_value(Shift::Rrc, o.regs.c, o.regs.cf), ..shift_flags(o.regs, shift_value(Shift::Rrc, o.regs.c, o.regs.cf), shift_carry(Shift::Rrc, o.regs.c)) }, cycles: 8, ..o })
}

/// RRC C.
pub fn rrc_c(cpu: &mut Cpu)
    requires
        old(cpu).wf(),
    ensures
        final(cpu).wf(),
        spec_rrc_c(*old(cpu), *final(cpu)),
{
    let v = cpu.regs.c;
    let res = shift_exec(&mut cpu.regs, Shift::Rrc, v);
    cpu.regs.c = res;
    cpu.cycles = 8;
}

/// RRC D.
pub open spec fn spec_rrc_d(o: Cpu, n: Cpu) -> bool {
    n == (Cpu { regs: Register { d: shift_value(Shift::Rrc, o.regs.d, o.regs.cf), ..shift_flags(o.regs, shift_value(Shift::Rrc, o.regs.d, o.regs.cf), shift_carry(Shift::Rrc, o.regs.d)) }, cycles: 8, ..o })
}

/// RRC D.
pub fn rrc_d(cpu: &mut Cpu)
    requires
        old(cpu).wf(),
    ensures
        final(cpu).wf(),
        spec_rrc_d(*old(cpu), *final(cpu)),
{
    let v = cpu.regs.d;
    let res = shift_exec(&mut cpu.regs, Shift::Rrc, v);
    cpu.regs.d = res;
    cpu.cycles = 8;
}

/// RRC E.
pub open spec fn spec_rrc_e(o: Cpu, n: Cpu) -> bool {
    n == (Cpu { regs: Register { e: shift_value(Shift::Rrc, o.regs.e, o.regs.cf), ..shift_flags(o.regs, shift_value(Shift::Rrc, o.regs.e, o.regs.cf), shift_carry(Shift::Rrc, o.regs.e)) }, cycles: 8, ..o })
}

/// RRC E.
pub fn rrc_e(cpu: &mut Cpu)
    requires
        old(cpu).wf(),
    ensures
        final(cpu).wf(),
        spec_rrc_e(*old(cpu), *final(cpu)),
{
    let v = cpu.regs.e;
    let res = shift_exec(&mut cpu.regs, Shift::Rrc, v);
    cpu.regs.e = res;
    cpu.cycles = 8;
}

/// RRC H.
pub open spec fn spec_rrc_h(o: Cpu, n: Cpu) -> bool {
    n == (Cpu { regs: Register { h: shift_value(Shift::Rrc, o.regs.h, o.regs.cf), ..shift_flags(o.regs, shift_value(Shift::Rrc, o.regs.h, o.regs.cf), shift_carry(Shift::Rrc, o.regs.h)) }, cycles: 8, ..o })
}

/// RRC H.
pub fn rrc_h(cpu: &mut Cpu)
    requires
        old(cpu).wf(),
    ensures
        final(cpu).wf(),
        spec_rrc_h(*old(cpu), *final(cpu)),
{
    let v = cpu.regs.h;
    let res = shift_exec(&mut cpu.regs, Shift::Rrc, v);
    cpu.regs.h = res;
    cpu.cycles = 8;
}

/// RRC L.
pub open spec fn spec_rrc_l(o: Cpu, n: Cpu) -> bool {
    n == (Cpu { regs: Register { l: shift_value(Shift::Rrc, o.regs.l, o.regs.cf), ..shift_flags(o.regs, shift_value(Shift::Rrc, o.regs.l, o.regs.cf), shift_carry(Shift::Rrc, o.regs.l)) }, cycles: 8, ..o })
}

/// RRC L.
pub fn rrc_l(cpu: &mut Cpu)
    requires
        old(cpu).wf(),
    ensures
        final(cpu).wf(),
        spec_rrc_l(*old(cpu), *final(cpu)),
{
    let v = cpu.regs.l;
    let res = shift_exec(&mut cpu.regs, Shift::Rrc, v);
    cpu.regs.l = res;
    cpu.cycles = 8;
}

/// RRC (HL).
pub open spec fn spec_rrc_mhl(o: Cpu, n: Cpu) -> bool {
    &&& n == (Cpu { regs: shift_flags(o.regs, shift_value(Shift::Rrc, o.peek(o.regs.hl()), o.regs.cf), shift_carry(Shift::Rrc, o.peek(o.regs.hl()))), bus: n.bus, cycles: 16, ..o })
    &&& o.bus.written(n.bus, o.regs.hl(), shift_value(Shift::Rrc, o.peek(o.regs.hl()), o.regs.cf))
}

/// RRC (HL).
pub fn rrc_mhl(cpu: &mut Cpu)
    requires
        old(cpu).wf(),
    ensures
        final(cpu).wf(),
        spec_rrc_mhl(*old(cpu), *final(cpu)),
{
    let hl = cpu.regs.get_hl();
    let v = cpu.read(hl);
    let res = shift_exec(&mut cpu.regs, Shift::Rrc, v);
    cpu.write(hl, res);
    cpu.cycles = 16;
}

/// RRC A.
pub open spec fn spec_rrc_a(o: Cpu, n: Cpu) -> bool {
    n == (Cpu { regs: Register { a: shift_value(Shift::Rrc, o.regs.a, o.regs.cf), ..shift_flags(o.regs, shift_value(Shift::Rrc, o.regs.a, o.regs.cf), shift_carry(Shift::Rrc, o.regs.a)) }, cycles: 8, ..o })
}

/// RRC A.
pub fn rrc_a(cpu: &mut Cpu)
    requires
        old(cpu).wf(),
    ensures
        final(cpu).wf(),
        spec_rrc_a(*old(cpu), *final(cpu)),
{
    let v = cpu.regs.a;
    let res = shift_exec(&mut cpu.regs, Shift::Rrc, v);
    cpu.regs.a = res;
    cpu.cycles = 8;
}

/// RL B.
pub open spec fn spec_rl_b(o: Cpu, n: Cpu) -> bool {
    n == (Cpu { regs: Register { b: shift_value(Shift::Rl, o.regs.b, o.regs.cf), ..shift_flags(o.regs, shift_value(Shift::Rl, o.regs.b, o.regs.cf), shift_carry(Shift::Rl, o.regs.b)) }, cycles: 8, ..o })
}

/// RL B.
pub fn rl_b(cpu: &mut Cpu)
    requires
        old(cpu).wf(),
    ensures
        final(cpu).wf(),
        spec_rl_b(*old(cpu), *final(cpu)),
{
    let v = cpu.regs.b;
    let res = shift_exec(&mut cpu.regs, Shift::Rl, v);
    cpu.regs.b = res;
    cpu.cycles = 8;
}

/// RL C.
pub open spec fn spec_rl_c(o: Cpu, n: Cpu) -> bool {
    n == (Cpu { regs: Register { c: shift_value(Shift::Rl, o.regs.c, o.regs.cf), ..shift_flags(o.regs, shift_value(Shift::Rl, o.regs.c, o.regs.cf), shift_carry(Shift::Rl, o.regs.c)) }, cycles: 8, ..o })
}

/// RL C.
pub fn rl_c(cpu: &mut Cpu)
    requires
        old(cpu).wf(),
    ensures
        final(cpu).wf(),
        spec_rl_c(*old(cpu), *final(cpu)),
{
    let v = cpu.regs.c;
    let res = shift_exec(&mut cpu.regs, Shift::Rl, v);
    cpu.regs.c = res;
    cpu.cycles = 8;
}

/// RL D.
pub open spec fn spec_rl_d(o: Cpu, n: Cpu) -> bool {
    n == (Cpu { regs: Register { d: shift_value(Shift::Rl, o.regs.d, o.regs.cf), ..shift_flags(o.regs, shift_value(Shift::Rl, o.regs.d, o.regs.cf), shift_carry(Shift::Rl, o.regs.d)) }, cycles: 8, ..o })
}

/// RL D.
pub fn rl_d(cpu: &mut Cpu)
    requires
        old(cpu).wf(),
    ensures
        final(cpu).wf(),
        spec_rl_d(*old(cpu), *final(cpu)),
{
    let v = cpu.regs.d;
    let res = shift_exec(&mut cpu.regs, Shift::Rl, v);
    cpu.regs.d = res;
    cpu.cycles = 8;
}

/// RL E.
pub open spec fn spec_rl_e(o: Cpu, n: Cpu) -> bool {
    n == (Cpu { regs: Register { e: shift_value(Shift::Rl, o.regs.e, o.regs.cf), ..shift_flags(o.regs, shift_value(Shift::Rl, o.regs.e, o.regs.cf), shift_carry(Shift::Rl, o.regs.e)) }, cycles: 8, ..o })
}

/// RL E.
pub fn rl_e(cpu: &mut Cpu)
    requires
        old(cpu).wf(),
    ensures
        final(cpu).wf(),
        spec_rl_e(*old(cpu), *final(cpu)),
{
    let v = cpu.regs.e;
    let res = shift_exec(&mut cpu.regs, Shift::Rl, v);
    cpu.regs.e = res;
    cpu.cycles = 8;
}

/// RL H.
pub open spec fn spec_rl_h(o: Cpu, n: Cpu) -> bool {
    n == (Cpu { regs: Register { h: shift_value(Shift::Rl, o.regs.h, o.regs.cf), ..shift_flags(o.regs, shift_value(Shift::Rl, o.regs.h, o.regs.cf), shift_carry(Shift::Rl, o.regs.h)) }, cycles: 8, ..o })
}

/// RL H.
pub fn rl_h(cpu: &mut Cpu)
    requires
        old(cpu).wf(),
    ensures
        final(cpu).wf(),
        spec_rl_h(*old(cpu), *final(cpu)),
{
    let v = cpu.regs.h;
    let res = shift_exec(&mut cpu.regs, Shift::Rl, v);
    cpu.regs.h = res;
    cpu.cycles = 8;
}

/// RL L.
pub open spec fn spec_rl_l(o: Cpu, n: Cpu) -> bool {
    n == (Cpu { regs: Register { l: shift_value(Shift::Rl, o.regs.l, o.regs.cf), ..shift_flags(o.regs, shift_value(Shift::Rl, o.regs.l, o.regs.cf), shift_carry(Shift::Rl, o.regs.l)) }, cycles: 8, ..o })
}

/// RL L.
pub fn rl_l(cpu: &mut Cpu)
    requires
        old(cpu).wf(),
    ensures
        final(cpu).wf(),
        spec_rl_l(*old(cpu), *final(cpu)),
{
    let v = cpu.regs.l;
    let res = shift_exec(&mut cpu.regs, Shift::Rl, v);
    cpu.regs.l = res;
    cpu.cycles = 8;
}

/// RL (HL).
pub open spec fn spec_rl_mhl(o: Cpu, n: Cpu) -> bool {
    &&& n == (Cpu { regs: shift_flags(o.regs, shift_value(Shift::Rl, o.peek(o.regs.hl()), o.regs.cf), shift_carry(Shift::Rl, o.peek(o.regs.hl()))), bus: n.bus, cycles: 16, ..o })
    &&& o.bus.written(n.bus, o.regs.hl(), shift_value(Shift::Rl, o.peek(o.regs.hl()), o.regs.cf))
}

/// RL (HL).
pub fn rl_mhl(cpu: &mut Cpu)
    requires
        old(cpu).wf(),
    ensures
        final(cpu).wf(),
        spec_rl_mhl(*old(cpu), *final(cpu)),
{
    let hl = cpu.regs.get_hl();
    let v = cpu.read(hl);
    let res = shift_exec(&mut cpu.regs, Shift::Rl, v);
    cpu.write(hl, res);
    cpu.cycles = 16;
}

/// RL A.
pub open spec fn spec_rl_a(o: Cpu, n: Cpu) -> bool {
    n == (Cpu { regs: Register { a: shift_value(Shift::Rl, o.regs.a, o.regs.cf), ..shift_flags(o.regs, shift_value(Shift::Rl, o.regs.a, o.regs.cf), shift_carry(Shift::Rl, o.regs.a)) }, cycles: 8, ..o })
}

/// RL A.
pub fn rl_a(cpu: &mut Cpu)
    requires
        old(cpu).wf(),
    ensures
        final(cpu).wf(),
        spec_rl_a(*old(cpu), *final(cpu)),
{
    let v = cpu.regs.a;
    let res = shift_exec(&mut cpu.regs, Shift::Rl, v);
    cpu.regs.a = res;
    cpu.cycles = 8;
}

/// RR B.
pub open spec fn spec_rr_b(o: Cpu, n: Cpu) -> bool {
    n == (Cpu { regs: Register { b: shift_value(Shift::Rr, o.regs.b, o.regs.cf), ..shift_flags(o.regs, shift_value(Shift::Rr, o.regs.b, o.regs.cf), shift_carry(Shift::Rr, o.regs.b)) }, cycles: 8, ..o })
}

/// RR B.
pub fn rr_b(cpu: &mut Cpu)
    requires
        old(cpu).wf(),
    ensures
        final(cpu).wf(),
        spec_rr_b(*old(cpu), *final(cpu)),
{
    let v = cpu.regs.b;
    let res = shift_exec(&mut cpu.regs, Shift::Rr, v);
    cpu.regs.b = res;
    cpu.cycles = 8;
}

/// RR C.
pub open spec fn spec_rr_c(o: Cpu, n: Cpu) -> bool {
    n == (Cpu { regs: Register { c: shift_value(Shift::Rr, o.regs.c, o.regs.cf), ..shift_flags(o.regs, shift_value(Shift::Rr, o.regs.c, o.regs.cf), shift_carry(Shift::Rr, o.regs.c)) }, cycles: 8, ..o })
}

/// RR C.
pub fn rr_c(cpu: &mut Cpu)
    requires
        old(cpu).wf(),
    ensures
        final(cpu).wf(),
        spec_rr_c(*old(cpu), *final(cpu)),
{
    let v = cpu.regs.c;
    let res = shift_exec(&mut cpu.regs, Shift::Rr, v);
    cpu.regs.c = res;
    cpu.cycles = 8;
}

/// RR D.
pub open spec fn spec_rr_d(o: Cpu, n: Cpu) -> bool {
    n == (Cpu { regs: Register { d: shift_value(Shift::Rr, o.regs.d, o.regs.cf), ..shift_flags(o.regs, shift_value(Shift::Rr, o.regs.d, o.regs.cf), shift_carry(Shift::Rr, o.regs.d)) }, cycles: 8, ..o })
}

/// RR D.
pub fn rr_d(cpu: &mut Cpu)
    requires
        old(cpu).wf(),
    ensures
        final(cpu).wf(),
        spec_rr_d(*old(cpu), *final(cpu)),
{
    let v = cpu.regs.d;
    let res = shift_exec(&mut cpu.regs, Shift::Rr, v);
    cpu.regs.d = res;
    cpu.cycles = 8;
}

/// RR E.
pub open spec fn spec_rr_e(o: Cpu, n: Cpu) -> bool {
    n == (Cpu { regs: Register { e: shift_value(Shift::Rr, o.regs.e, o.regs.cf), ..shift_flags(o.regs, shift_value(Shift::Rr, o.regs.e, o.regs.cf), shift_carry(Shift::Rr, o.regs.e)) }, cycles: 8, ..o })
}

/// RR E.
pub fn rr_e(cpu: &mut Cpu)
    requires
        old(cpu).wf(),
    ensures
        final(cpu).wf(),
        spec_rr_e(*old(cpu), *final(cpu)),
{
    let v = cpu.regs.e;
    let res = shift_exec(&mut cpu.regs, Shift::Rr, v);
    cpu.regs.e = res;
    cpu.cycles = 8;
}

/// RR H.
pub open spec fn spec_rr_h(o: Cpu, n: Cpu) -> bool {
    n == (Cpu { regs: Register { h: shift_value(Shift::Rr, o.regs.h, o.regs.cf), ..shift_flags(o.regs, shift_value(Shift::Rr, o.regs.h, o.regs.cf), shift_carry(Shift::Rr, o.regs.h)) }, cycles: 8, ..o })
}

/// RR H.
pub fn rr_h(cpu: &mut Cpu)
    requires
        old(cpu).wf(),
    ensures
        final(cpu).wf(),
        spec_rr_h(*old(cpu), *final(cpu)),
{
    let v = cpu.regs.h;
    let res = shift_exec(&mut cpu.regs, Shift::Rr, v);
    cpu.regs.h = res;
    cpu.cycles = 8;
}

/// RR L.
pub open spec fn spec_rr_l(o: Cpu, n: Cpu) -> bool {
    n == (Cpu { regs: Register { l: shift_value(Shift::Rr, o.regs.l, o.regs.cf), ..shift_flags(o.regs, shift_value(Shift::Rr, o.regs.l, o.regs.cf), shift_carry(Shift::Rr, o.regs.l)) }, cycles: 8, ..o })
}

/// RR L.
pub fn rr_l(cpu: &mut Cpu)
    requires
        old(cpu).wf(),
    ensures
        final(cpu).wf(),
        spec_rr_l(*old(cpu), *final(cpu)),
{
    let v = cpu.regs.l;
    let res = shift_exec(&mut cpu.regs, Shift::Rr, v);
    cpu.regs.l = res;
    cpu.cycles = 8;
}

/// RR (HL).
pub open spec fn spec_rr_mhl(o: Cpu, n: Cpu) -> bool {
    &&& n == (Cpu { regs: shift_flags(o.regs, shift_value(Shift::Rr, o.peek(o.regs.hl()), o.regs.cf), shift_carry(Shift::Rr, o.peek(o.regs.hl()))), bus: n.bus, cycles: 16, ..o })
    &&& o.bus.written(n.bus, o.regs.hl(), shift_value(Shift::Rr, o.peek(o.regs.hl()), o.regs.cf))
}

/// RR (HL).
pub fn rr_mhl(cpu: &mut Cpu)
    requires
        old(cpu).wf(),
    ensures
        final(cpu).wf(),
        spec_rr_mhl(*old(cpu), *final(cpu)),
{
    let hl = cpu.regs.get_hl();
    let v = cpu.read(hl);
    let res = shift_exec(&mut cpu.regs, Shift::Rr, v);
    cpu.write(hl, res);
    cpu.cycles = 16;
}

/// RR A.
pub open spec fn spec_rr_a(o: Cpu, n: Cpu) -> bool {
    n == (Cpu { regs: Register { a: shift_value(Shift::Rr, o.regs.a, o.regs.cf), ..shift_flags(o.regs, shift_value(Shift::Rr, o.regs.a, o.regs.cf), shift_carry(Shift::Rr, o.regs.a)) }, cycles: 8, ..o })
}

/// RR A.
pub fn rr_a(cpu: &mut Cpu)
    requires
        old(cpu).wf(),
    ensures
        final(cpu).wf(),
        spec_rr_a(*old(cpu), *final(cpu)),
{
    let v = cpu.regs.a;
    let res = shift_exec(&mut cpu.regs, Shift::Rr, v);
    cpu.regs.a = res;
    cpu.cycles = 8;
}

/// SLA B.
pub open spec fn spec_sla_b(o: Cpu, n: Cpu) -> bool {
    n == (Cpu { regs: Register { b: shift_value(Shift::Sla, o.regs.b, o.regs.cf), ..shift_flags(o.regs, shift_value(Shift::Sla, o.regs.b, o.regs.cf), shift_carry(Shift::Sla, o.regs.b)) }, cycles: 8, ..o })
}

/// SLA B.
pub fn sla_b(cpu: &mut Cpu)
    requires
        old(cpu).wf(),
    ensures
        final(cpu).wf(),
        spec_sla_b(*old(cpu), *final(cpu)),
{
    let v = cpu.regs.b;
    let res = shift_exec(&mut cpu.regs, Shift::Sla, v);
    cpu.regs.b = res;
    cpu.cycles = 8;
}

/// SLA C.
pub open spec fn spec_sla_c(o: Cpu, n: Cpu) -> bool {
    n == (Cpu { regs: Register { c: shift_value(Shift::Sla, o.regs.c, o.regs.cf), ..shift_flags(o.regs, shift_value(Shift::Sla, o.regs.c, o.regs.cf), shift_carry(Shift::Sla, o.regs.c)) }, cycles: 8, ..o })
}

/// SLA C.
pub fn sla_c(cpu: &mut Cpu)
    requires
        old(cpu).wf(),
    ensures
        final(cpu).wf(),
        spec_sla_c(*old(cpu), *final(cpu)),
{
    let v = cpu.regs.c;
    let res = shift_exec(&mut cpu.regs, Shift::Sla, v);
    cpu.regs.c = res;
    cpu.cycles = 8;
}

/// SLA D.
pub open spec fn spec_sla_d(o: Cpu, n: Cpu) -> bool {
    n == (Cpu { regs: Register { d: shift_value(Shift::Sla, o.regs.d, o.regs.cf), ..shift_flags(o.regs, shift_value(Shift::Sla, o.regs.d, o.regs.cf), shift_carry(Shift::Sla, o.regs.d)) }, cycles: 8, ..o })
}

/// SLA D.
pub fn sla_d(cpu: &mut Cpu)
    requires
        old(cpu).wf(),
    ensures
        final(cpu).wf(),
        spec_sla_d(*old(cpu), *final(cpu)),
{
    let v = cpu.regs.d;
    let res = shift_exec(&mut cpu.regs, Shift::Sla, v);
    cpu.regs.d = res;
    cpu.cycles = 8;
}

/// SLA E.
pub open spec fn spec_sla_e(o: Cpu, n: Cpu) -> bool {
    n == (Cpu { regs: Register { e: shift_value(Shift::Sla, o.regs.e, o.regs.cf), ..shift_flags(o.regs, shift_value(Shift::Sla, o.regs.e, o.regs.cf), shift_carry(Shift::Sla, o.regs.e)) }, cycles: 8, ..o })
}

/// SLA E.
pub fn sla_e(cpu: &mut Cpu)
    requires
        old(cpu).wf(),
    ensures
        final(cpu).wf(),
        spec_sla_e(*old(cpu), *final(cpu)),
{
    let v = cpu.regs.e;
    let res = shift_exec(&mut cpu.regs, Shift::Sla, v);
    cpu.regs.e = res;
    cpu.cycles = 8;
}

/// SLA H.
pub open spec fn spec_sla_h(o: Cpu, n: Cpu) -> bool {
    n == (Cpu { regs: Register { h: shift_value(Shift::Sla, o.regs.h, o.regs.cf), ..shift_flags(o.regs, shift_value(Shift::Sla, o.regs.h, o.regs.cf), shift_carry(Shift::Sla, o.regs.h)) }, cycles: 8, ..o })
}

/// SLA H.
pub fn sla_h(cpu: &mut Cpu)
    requires
        old(cpu).wf(),
    ensures
        final(cpu).wf(),
        spec_sla_h(*old(cpu), *final(cpu)),
{
    let v = cpu.regs.h;
    let res = shift_exec(&mut cpu.regs, Shift::Sla, v);
    cpu.regs.h = res;
    cpu.cycles = 8;
}

/// SLA L.
pub open spec fn spec_sla_l(o: Cpu, n: Cpu) -> bool {
    n == (Cpu { regs: Register { l: shift_value(Shift::Sla, o.regs.l, o.regs.cf), ..shift_flags(o.regs, shift_value(Shift::Sla, o.regs.l, o.regs.cf), shift_carry(Shift::Sla, o.regs.l)) }, cycles: 8, ..o })
}

/// SLA L.
pub fn sla_l(cpu: &mut Cpu)
    requires
        old(cpu).wf(),
    ensures
        final(cpu).wf(),
        spec_sla_l(*old(cpu), *final(cpu)),
{
    let v = cpu.regs.l;
    let res = shift_exec(&mut cpu.regs, Shift::Sla, v);
    cpu.regs.l = res;
    cpu.cycles = 8;
}

/// SLA (HL).
pub open spec fn spec_sla_mhl(o: Cpu, n: Cpu) -> bool {
    &&& n == (Cpu { regs: shift_flags(o.regs, shift_value(Shift::Sla, o.peek(o.regs.hl()), o.regs.cf), shift_carry(Shift::Sla, o.peek(o.regs.hl()))), bus: n.bus, cycles: 16, ..o })
    &&& o.bus.written(n.bus, o.regs.hl(), shift_value(Shift::Sla, o.peek(o.regs.hl()), o.regs.cf))
}

/// SLA (HL).
pub fn sla_mhl(cpu: &mut Cpu)
    requires
        old(cpu).wf(),
    ensures
        final(cpu).wf(),
        spec_sla_mhl(*old(cpu), *final(cpu)),
{
    let hl = cpu.regs.get_hl();
    let v = cpu.read(hl);
    let res = shift_exec(&mut cpu.regs, Shift::Sla, v);
    cpu.write(hl, res);
    cpu.cycles = 16;
}

/// SLA A.
pub open spec fn spec_sla_a(o: Cpu, n: Cpu) -> bool {
    n == (Cpu { regs: Register { a: shift_value(Shift::Sla, o.regs.a, o.regs.cf), ..shift_flags(o.regs, shift_value(Shift::Sla, o.regs.a, o.regs.cf), shift_carry(Shift::Sla, o.regs.a)) }, cycles: 8, ..o })
}

/// SLA A.
pub fn sla_a(cpu: &mut Cpu)
    requires
        old(cpu).wf(),
    ensures
        final(cpu).wf(),
        spec_sla_a(*old(cpu), *final(cpu)),
{
    let v = cpu.regs.a;
    let res = shift_exec(&mut cpu.regs, Shift::Sla, v);
    cpu.regs.a = res;
    cpu.cycles = 8;
}

/// SRA B.
pub open spec fn spec_sra_b(o: Cpu, n: Cpu) -> bool {
    n == (Cpu { regs: Register { b: shift_value(Shift::Sra, o.regs.b, o.regs.cf), ..shift_flags(o.regs, shift_value(Shift::Sra, o.regs.b, o.regs.cf), shift_carry(Shift::Sra, o.regs.b)) }, cycles: 8, ..o })
}

/// SRA B.
pub fn sra_b(cpu: &mut Cpu)
    requires
        old(cpu).wf(),
    ensures
        final(cpu).wf(),
        spec_sra_b(*old(cpu), *final(cpu)),
{
    let v = cpu.regs.b;
    let res = shift_exec(&mut cpu.regs, Shift::Sra, v);
    cpu.regs.b = res;
    cpu.cycles = 8;
}

/// SRA C.
pub open spec fn spec_sra_c(o: Cpu, n: Cpu) -> bool {
    n == (Cpu { regs: Register { c: shift_value(Shift::Sra, o.regs.c, o.regs.cf), ..shift_flags(o.regs, shift_value(Shift::Sra, o.regs.c, o.regs.cf), shift_carry(Shift::Sra, o.regs.c)) }, cycles: 8, ..o })
}

/// SRA C.
pub fn sra_c(cpu: &mut Cpu)
    requires
        old(cpu).wf(),
    ensures
        final(cpu).wf(),
        spec_sra_c(*old(cpu), *final(cpu)),
{
    let v = cpu.regs.c;
    let res = shift_exec(&mut cpu.regs, Shift::Sra, v);
    cpu.regs.c = res;
    cpu.cycles = 8;
}

/// SRA D.
pub open spec fn spec_sra_d(o: Cpu, n: Cpu) -> bool {
    n == (Cpu { regs: Register { d: shift_value(Shift::Sra, o.regs.d, o.regs.cf), ..shift_flags(o.regs, shift_value(Shift::Sra, o.regs.d, o.regs.cf), shift_carry(Shift::Sra, o.regs.d)) }, cycles: 8, ..o })
}

/// SRA D.
pub fn sra_d(cpu: &mut Cpu)
    requires
        old(cpu).wf(),
    ensures
        final(cpu).wf(),
        spec_sra_d(*old(cpu), *final(cpu)),
{
    let v = cpu.regs.d;
    let res = shift_exec(&mut cpu.regs, Shift::Sra, v);
    cpu.regs.d = res;
    cpu.cycles = 8;
}

/// SRA E.
pub open spec fn spec_sra_e(o: Cpu, n: Cpu) -> bool {
    n == (Cpu { regs: Register { e: shift_value(Shift::Sra, o.regs.e, o.regs.cf), ..shift_flags(o.regs, shift_value(Shift::Sra, o.regs.e, o.regs.cf), shift_carry(Shift::Sra, o.regs.e)) }, cycles: 8, ..o })
}

/// SRA E.
pub fn sra_e(cpu: &mut Cpu)
    requires
        old(cpu).wf(),
    ensures
        final(cpu).wf(),
        spec_sra_e(*old(cpu), *final(cpu)),
{
    let v = cpu.regs.e;
    let res = shift_exec(&mut cpu.regs, Shift::Sra, v);
    cpu.regs.e = res;
    cpu.cycles = 8;
}

/// SRA H.
pub open spec fn spec_sra_h(o: Cpu, n: Cpu) -> bool {
    n == (Cpu { regs: Register { h: shift_value(Shift::Sra, o.regs.h, o.regs.cf), ..shift_flags(o.regs, shift_value(Shift::Sra, o.regs.h, o.regs.cf), shift_carry(Shift::Sra, o.regs.h)) }, cycles: 8, ..o })
}

/// SRA H.
pub fn sra_h(cpu: &mut Cpu)
    requires
        old(cpu).wf(),
    ensures
        final(cpu).wf(),
        spec_sra_h(*old(cpu), *final(cpu)),
{
    let v = cpu.regs.h;
    let res = shift_exec(&mut cpu.regs, Shift::Sra, v);
    cpu.regs.h = res;
    cpu.cycles = 8;
}

/// SRA L.
pub open spec fn spec_sra_l(o: Cpu, n: Cpu) -> bool {
    n == (Cpu { regs: Register { l: shift_value(Shift::Sra, o.regs.l, o.regs.cf), ..shift_flags(o.regs, shift_value(Shift::Sra, o.regs.l, o.regs.cf), shift_carry(Shift::Sra, o.regs.l)) }, cycles: 8, ..o })
}

/// SRA L.
pub fn sra_l(cpu: &mut Cpu)
    requires
        old(cpu).wf(),
    ensures
        final(cpu).wf(),
        spec_sra_l(*old(cpu), *final(cpu)),
{
    let v = cpu.regs.l;
    let res = shift_exec(&mut cpu.regs, Shift::Sra, v);
    cpu.regs.l = res;
    cpu.cycles = 8;
}

/// SRA (HL).
pub open spec fn spec_sra_mhl(o: Cpu, n: Cpu) -> bool {
    &&& n == (Cpu { regs: shift_flags(o.regs, shift_value(Shift::Sra, o.peek(o.regs.hl()), o.regs.cf), shift_carry(Shift::Sra, o.peek(o.regs.hl()))), bus: n.bus, cycles: 16, ..o })
    &&& o.bus.written(n.bus, o.regs.hl(), shift_value(Shift::Sra, o.peek(o.regs.hl()), o.regs.cf))
}

/// SRA (HL).
pub fn sra_mhl(cpu: &mut Cpu)
    requires
        old(cpu).wf(),
    ensures
        final(cpu).wf(),
        spec_sra_mhl(*old(cpu), *final(cpu)),
{
    let hl = cpu.regs.get_hl();
    let v = cpu.read(hl);
    let res = shift_exec(&mut cpu.regs, Shift::Sra, v);
    cpu.write(hl, res);
    cpu.cycles = 16;
}

/// SRA A.
pub open spec fn spec_sra_a(o: Cpu, n: Cpu) -> bool {
    n == (Cpu { regs: Register { a: shift_value(Shift::Sra, o.regs.a, o.regs.cf), ..shift_flags(o.regs, shift_value(Shift::Sra, o.regs.a, o.regs.cf), shift_carry(Shift::Sra, o.regs.a)) }, cycles: 8, ..o })
}

/// SRA A.
pub fn sra_a(cpu: &mut Cpu)
    requires
        old(cpu).wf(),
    ensures
        final(cpu).wf(),
        spec_sra_a(*old(cpu), *final(cpu)),
{
    let v = cpu.regs.a;
    let res = shift_exec(&mut cpu.regs, Shift::Sra, v);
    cpu.regs.a = res;
    cpu.cycles = 8;
}

/// SWAP B.
pub open spec fn spec_swap_b(o: Cpu, n: Cpu) -> bool {
    n == (Cpu { regs: Register { b: shift_value(Shift::Swap, o.regs.b, o.regs.cf), ..shift_flags(o.regs, shift_value(Shift::Swap, o.regs.b, o.regs.cf), shift_carry(Shift::Swap, o.regs.b)) }, cycles: 8, ..o })
}

/// SWAP B.
pub fn swap_b(cpu: &mut Cpu)
    requires
        old(cpu).wf(),
    ensures
        final(cpu).wf(),
        spec_swap_b(*old(cpu), *final(cpu)),
{
    let v = cpu.regs.b;
    let res = shift_exec(&mut cpu.regs, Shift::Swap, v);
    cpu.regs.b = res;
    cpu.cycles = 8;
}

/// SWAP C.
pub open spec fn spec_swap_c(o: Cpu, n: Cpu) -> bool {
    n == (Cpu { regs: Register { c: shift_value(Shift::Swap, o.regs.c, o.regs.cf), ..shift_flags(o.regs, shift_value(Shift::Swap, o.regs.c, o.regs.cf), shift_carry(Shift::Swap, o.regs.c)) }, cycles: 8, ..o })
}

/// SWAP C.
pub fn swap_c(cpu: &mut Cpu)
    requires
        old(cpu).wf(),
    ensures
        final(cpu).wf(),
        spec_swap_c(*old(cpu), *final(cpu)),
{
    let v = cpu.regs.c;
    let res = shift_exec(&mut cpu.regs, Shift::Swap, v);
    cpu.regs.c = res;
    cpu.cycles = 8;
}

/// SWAP D.
pub open spec fn spec_swap_d(o: Cpu, n: Cpu) -> bool {
    n == (Cpu { regs: Register { d: shift_value(Shift::Swap, o.regs.d, o.regs.cf), ..shift_flags(o.regs, shift_value(Shift::Swap, o.regs.d, o.regs.cf), shift_carry(Shift::Swap, o.regs.d)) }, cycles: 8, ..o })
}

/// SWAP D.
pub fn swap_d(cpu: &mut Cpu)
    requires
        old(cpu).wf(),
    ensures
        final(cpu).wf(),
        spec_swap_d(*old(cpu), *final(cpu)),
{
    let v = cpu.regs.d;
    let res = shift_exec(&mut cpu.regs, Shift::Swap, v);
    cpu.regs.d = res;
    cpu.cycles = 8;
}

/// SWAP E.
pub open spec fn spec_swap_e(o: Cpu, n: Cpu) -> bool {
    n == (Cpu { regs: Register { e: shift_value(Shift::Swap, o.regs.e, o.regs.cf), ..shift_flags(o.regs, shift_value(Shift::Swap, o.regs.e, o.regs.cf), shift_carry(Shift::Swap, o.regs.e)) }, cycles: 8, ..o })
}

/// SWAP E.
pub fn swap_e(cpu: &mut Cpu)
    requires
        old(cpu).wf(),
    ensures
        final(cpu).wf(),
        spec_swap_e(*old(cpu), *final(cpu)),
{
    let v = cpu.regs.e;
    let res = shift_exec(&mut cpu.regs, Shift::Swap, v);
    cpu.regs.e = res;
    cpu.cycles = 8;
}

/// SWAP H.
pub open spec fn spec_swap_h(o: Cpu, n: Cpu) -> bool {
    n == (Cpu { regs: Register { h: shift_value(Shift::Swap, o.regs.h, o.regs.cf), ..shift_flags(o.regs, shift_value(Shift::Swap, o.regs.h, o.regs.cf), shift_carry(Shift::Swap, o.regs.h)) }, cycles: 8, ..o })
}

/// SWAP H.
pub fn swap_h(cpu: &mut Cpu)
    requires
        old(cpu).wf(),
    ensures
        final(cpu).wf(),
        spec_swap_h(*old(cpu), *final(cpu)),
{
    let v = cpu.regs.h;
    let res = shift_exec(&mut cpu.regs, Shift::Swap, v);
    cpu.regs.h = res;
    cpu.cycles = 8;
}

/// SWAP L.
pub open spec fn spec_swap_l(o: Cpu, n: Cpu) -> bool {
    n == (Cpu { regs: Register { l: shift_value(Shift::Swap, o.regs.l, o.regs.cf), ..shift_flags(o.regs, shift_value(Shift::Swap, o.regs.l, o.regs.cf), shift_carry(Shift::Swap, o.regs.l)) }, cycles: 8, ..o })
}

/// SWAP L.
pub fn swap_l(cpu: &mut Cpu)
    requires
        old(cpu).wf(),
    ensures
        final(cpu).wf(),
        spec_swap_l(*old(cpu), *final(cpu)),
{
    let v = cpu.regs.l;
    let res = shift_exec(&mut cpu.regs, Shift::Swap, v);
    cpu.regs.l = res;
    cpu.cycles = 8;
}

/// SWAP (HL).
pub open spec fn spec_swap_mhl(o: Cpu, n: Cpu) -> bool {
    &&& n == (Cpu { regs: shift_flags(o.regs, shift_value(Shift::Swap, o.peek(o.regs.hl()), o.regs.cf), shift_carry(Shift::Swap, o.peek(o.regs.hl()))), bus: n.bus, cycles: 16, ..o })
    &&& o.bus.written(n.bus, o.regs.hl(), shift_value(Shift::Swap, o.peek(o.regs.hl()), o.regs.cf))
}

/// SWAP (HL).
pub fn swap_mhl(cpu: &mut Cpu)
    requires
        old(cpu).wf(),
    ensures
        final(cpu).wf(),
        spec_swap_mhl(*old(cpu), *final(cpu)),
{
    let hl = cpu.regs.get_hl();
    let v = cpu.read(hl);
    let res = shift_exec(&mut cpu.regs, Shift::Swap, v);
    cpu.write(hl, res);
    cpu.cycles = 16;
}

/// SWAP A.
pub open spec fn spec_swap_a(o: Cpu, n: Cpu) -> bool {
    n == (Cpu { regs: Register { a: shift_value(Shift::Swap, o.regs.a, o.regs.cf), ..shift_flags(o.regs, shift_value(Shift::Swap, o.regs.a, o.regs.cf), shift_carry(Shift::Swap, o.regs.a)) }, cycles: 8, ..o })
}

/// SWAP A.
pub fn swap_a(cpu: &mut Cpu)
    requires
        old(cpu).wf(),
    ensures
        final(cpu).wf(),
        spec_swap_a(*old(cpu), *final(cpu)),
{
    let v = cpu.regs.a;
    let res = shift_exec(&mut cpu.regs, Shift::Swap, v);
    cpu.regs.a = res;
    cpu.cycles = 8;
}

/// SRL B.
pub open spec fn spec_srl_b(o: Cpu, n: Cpu) -> bool {
    n == (Cpu { regs: Register { b: shift_value(Shift::Srl, o.regs.b, o.regs.cf), ..shift_flags(o.regs, shift_value(Shift::Srl, o.regs.b, o.regs.cf), shift_carry(Shift::Srl, o.regs.b)) }, cycles: 8, ..o })
}

/// SRL B.
pub fn srl_b(cpu: &mut Cpu)
    requires
        old(cpu).wf(),
    ensures
        final(cpu).wf(),
        spec_srl_b(*old(cpu), *final(cpu)),
{
    let v = cpu.regs.b;
    let res = shift_exec(&mut cpu.regs, Shift::Srl, v);
    cpu.regs.b = res;
    cpu.cycles = 8;
}

/// SRL C.
pub open spec fn spec_srl_c(o: Cpu, n: Cpu) -> bool {
    n == (Cpu { regs: Register { c: shift_value(Shift::Srl, o.regs.c, o.regs.cf), ..shift_flags(o.regs, shift_value(Shift::Srl, o.regs.c, o.regs.cf), shift_carry(Shift::Srl, o.regs.c)) }, cycles: 8, ..o })
}

/// SRL C.
pub fn srl_c(cpu: &mut Cpu)
    requires
        old(cpu).wf(),
    ensures
        final(cpu).wf(),
        spec_srl_c(*old(cpu), *final(cpu)),
{
    let v = cpu.regs.c;
    let res = shift_exec(&mut cpu.regs, Shift::Srl, v);
    cpu.regs.c = res;
    cpu.cycles = 8;
}

/// SRL D.
pub open spec fn spec_srl_d(o: Cpu, n: Cpu) -> bool {
    n == (Cpu { regs: Register { d: shift_value(Shift::Srl, o.regs.d, o.regs.cf), ..shift_flags(o.regs, shift_value(Shift::Srl, o.regs.d, o.regs.cf), shift_carry(Shift::Srl, o.regs.d)) }, cycles: 8, ..o })
}

/// SRL D.
pub fn srl_d(cpu: &mut Cpu)
    requires
        old(cpu).wf(),
    ensures
        final(cpu).wf(),
        spec_srl_d(*old(cpu), *final(cpu)),
{
    let v = cpu.regs.d;
    let res = shift_exec(&mut cpu.regs, Shift::Srl, v);
    cpu.regs.d = res;
    cpu.cycles = 8;
}

/// SRL E.
pub open spec fn spec_srl_e(o: Cpu, n: Cpu) -> bool {
    n == (Cpu { regs: Register { e: shift_value(Shift::Srl, o.regs.e, o.regs.cf), ..shift_flags(o.regs, shift_value(Shift::Srl, o.regs.e, o.regs.cf), shift_carry(Shift::Srl, o.regs.e)) }, cycles: 8, ..o })
}

/// SRL E.
pub fn srl_e(cpu: &mut Cpu)
    requires
        old(cpu).wf(),
    ensures
        final(cpu).wf(),
        spec_srl_e(*old(cpu), *final(cpu)),
{
    let v = cpu.regs.e;
    let res = shift_exec(&mut cpu.regs, Shift::Srl, v);
    cpu.regs.e = res;
    cpu.cycles = 8;
}

/// SRL H.
pub open spec fn spec_srl_h(o: Cpu, n: Cpu) -> bool {
    n == (Cpu { regs: Register { h: shift_value(Shift::Srl, o.regs.h, o.regs.cf), ..shift_flags(o.regs, shift_value(Shift::Srl, o.regs.h, o.regs.cf), shift_carry(Shift::Srl, o.regs.h)) }, cycles: 8, ..o })
}

/// SRL H.
pub fn srl_h(cpu: &mut Cpu)
    requires
        old(cpu).wf(),
    ensures
        final(cpu).wf(),
        spec_srl_h(*old(cpu), *final(cpu)),
{
    let v = cpu.regs.h;
    let res = shift_exec(&mut cpu.regs, Shift::Srl, v);
    cpu.regs.h = res;
    cpu.cycles = 8;
}

/// SRL L.
pub open spec fn spec_srl_l(o: Cpu, n: Cpu) -> bool {
    n == (Cpu { regs: Register { l: shift_value(Shift::Srl, o.regs.l, o.regs.cf), ..shift_flags(o.regs, shift_value(Shift::Srl, o.regs.l, o.regs.cf), shift_carry(Shift::Srl, o.regs.l)) }, cycles: 8, ..o })
}

/// SRL L.
pub fn srl_l(cpu: &mut Cpu)
    requires
        old(cpu).wf(),
    ensures
        final(cpu).wf(),
        spec_srl_l(*old(cpu), *final(cpu)),
{
    let v = cpu.regs.l;
    let res = shift_exec(&mut cpu.regs, Shift::Srl, v);
    cpu.regs.l = res;
    cpu.cycles = 8;
}

/// SRL (HL).
pub open spec fn spec_srl_mhl(o: Cpu, n: Cpu) -> bool {
    &&& n == (Cpu { regs: shift_flags(o.regs, shift_value(Shift::Srl, o.peek(o.regs.hl()), o.regs.cf), shift_carry(Shift::Srl, o.peek(o.regs.hl()))), bus: n.bus, cycles: 16, ..o })
    &&& o.bus.written(n.bus, o.regs.hl(), shift_value(Shift::Srl, o.peek(o.regs.hl()), o.regs.cf))
}

/// SRL (HL).
pub fn srl_mhl(cpu: &mut Cpu)
    requires
        old(cpu).wf(),
    ensures
        final(cpu).wf(),
        spec_srl_mhl(*old(cpu), *final(cpu)),
{
    let hl = cpu.regs.get_hl();
    let v = cpu.read(hl);
    let res = shift_exec(&mut cpu.regs, Shift::Srl, v);
    cpu.write(hl, res);
    cpu.cycles = 16;
}

/// SRL A.
pub open spec fn spec_srl_a(o: Cpu, n: Cpu) -> bool {
    n == (Cpu { regs: Register { a: shift_value(Shift::Srl, o.regs.a, o.regs.cf), ..shift_flags(o.regs, shift_value(Shift::Srl, o.regs.a, o.regs.cf), shift_carry(Shift::Srl, o.regs.a)) }, cycles: 8, ..o })
}

/// SRL A.
pub fn srl_a(cpu: &mut Cpu)
    requires
        old(cpu).wf(),
    ensures
        final(cpu).wf(),
        spec_srl_a(*old(cpu), *final(cpu)),
{
    let v = cpu.regs.a;
    let res = shift_exec(&mut cpu.regs, Shift::Srl, v);
    cpu.regs.a = res;
    cpu.cycles = 8;
}

/// BIT 0, B.
pub open spec fn spec_bit_0_b(o: Cpu, n: Cpu) -> bool {
    n == (Cpu { regs: bit_flags(o.regs, o.regs.b, 0), cycles: 8, ..o })
}

/// BIT 0, B.
pub fn bit_0_b(cpu: &mut Cpu)
    requires
        old(cpu).wf(),
    ensures
        final(cpu).wf(),
        spec_bit_0_b(*old(cpu), *final(cpu)),
{
    let v = cpu.regs.b;
    bit_exec(&mut cpu.regs, v, 0);
    cpu.cycles = 8;
}

/// BIT 0, C.
pub open spec fn spec_bit_0_c(o: Cpu, n: Cpu) -> bool {
    n == (Cpu { regs: bit_flags(o.regs, o.regs.c, 0), cycles: 8, ..o })
}

/// BIT 0, C.
pub fn bit_0_c(cpu: &mut Cpu)
    requires
        old(cpu).wf(),
    ensures
        final(cpu).wf(),
        spec_bit_0_c(*old(cpu), *final(cpu)),
{
    let v = cpu.regs.c;
    bit_exec(&mut cpu.regs, v, 0);
    cpu.cycles = 8;
}

/// BIT 0, D.
pub open spec fn spec_bit_0_d(o: Cpu, n: Cpu) -> bool {
    n == (Cpu { regs: bit_flags(o.regs, o.regs.d, 0), cycles: 8, ..o })
}

/// BIT 0, D.
pub fn bit_0_d(cpu: &mut Cpu)
    requires
        old(cpu).wf(),
    ensures
        final(cpu).wf(),
        spec_bit_0_d(*old(cpu), *final(cpu)),
{
    let v = cpu.regs.d;
    bit_exec(&mut cpu.regs, v, 0);
    cpu.cycles = 8;
}

/// BIT 0, E.
pub open spec fn spec_bit_0_e(o: Cpu, n: Cpu) -> bool {
    n == (Cpu { regs: bit_flags(o.regs, o.regs.e, 0), cycles: 8, ..o })
}

/// BIT 0, E.
pub fn bit_0_e(cpu: &mut Cpu)
    requires
        old(cpu).wf(),
    ensures
        final(cpu).wf(),
        spec_bit_0_e(*old(cpu), *final(cpu)),
{
    let v = cpu.regs.e;
    bit_exec(&mut cpu.regs, v, 0);
    cpu.cycles = 8;
}

/// BIT 0, H.
pub open spec fn spec_bit_0_h(o: Cpu, n: Cpu) -> bool {
    n == (Cpu { regs: bit_flags(o.regs, o.regs.h, 0), cycles: 8, ..o })
}

/// BIT 0, H.
pub fn bit_0_h(cpu: &mut Cpu)
    requires
        old(cpu).wf(),
    ensures
        final(cpu).wf(),
        spec_bit_0_h(*old(cpu), *final(cpu)),
{
    let v = cpu.regs.h;
    bit_exec(&mut cpu.regs, v, 0);
    cpu.cycles = 8;
}

/// BIT 0, L.
pub open spec fn spec_bit_0_l(o: Cpu, n: Cpu) -> bool {
    n == (Cpu { regs: bit_flags(o.regs, o.regs.l, 0), cycles: 8, ..o })
}

/// BIT 0, L.
pub fn bit_0_l(cpu: &mut Cpu)
    requires
        old(cpu).wf(),
    ensures
        final(cpu).wf(),
        spec_bit_0_l(*old(cpu), *final(cpu)),
{
    let v = cpu.regs.l;
    bit_exec(&mut cpu.regs, v, 0);
    cpu.cycles = 8;
}

/// BIT 0, (HL).
pub open spec fn spec_bit_0_mhl(o: Cpu, n: Cpu) -> bool {
    n == (Cpu { regs: bit_flags(o.regs, o.peek(o.regs.hl()), 0), cycles: 12, ..o })
}

/// BIT 0, (HL).
pub fn bit_0_mhl(cpu: &mut Cpu)
    requires
        old(cpu).wf(),
    ensures
        final(cpu).wf(),
        spec_bit_0_mhl(*old(cpu), *final(cpu)),
{
    let hl = cpu.regs.get_hl();
    let v = cpu.read(hl);
    bit_exec(&mut cpu.regs, v, 0);
    cpu.cycles = 12;
}

/// BIT 0, A.
pub open spec fn spec_bit_0_a(o: Cpu, n: Cpu) -> bool {
    n == (Cpu { regs: bit_flags(o.regs, o.regs.a, 0), cycles: 8, ..o })
}

/// BIT 0, A.
pub fn bit_0_a(cpu: &mut Cpu)
    requires
        old(cpu).wf(),
    ensures
        final(cpu).wf(),
        spec_bit_0_a(*old(cpu), *final(cpu)),
{
    let v = cpu.regs.a;
    bit_exec(&mut cpu.regs, v, 0);
    cpu.cycles = 8;
}

/// BIT 1, B.
pub open spec fn spec_bit_1_b(o: Cpu, n: Cpu) -> bool {
    n == (Cpu { regs: bit_flags(o.regs, o.regs.b, 1), cycles: 8, ..o })
}

/// BIT 1, B.
pub fn bit_1_b(cpu: &mut Cpu)
    requires
        old(cpu).wf(),
    ensures
        final(cpu).wf(),
        spec_bit_1_b(*old(cpu), *final(cpu)),
{
    let v = cpu.regs.b;
    bit_exec(&mut cpu.regs, v, 1);
    cpu.cycles = 8;
}

/// BIT 1, C.
pub open spec fn spec_bit_1_c(o: Cpu, n: Cpu) -> bool {
    n == (Cpu { regs: bit_flags(o.regs, o.regs.c, 1), cycles: 8, ..o })
}

/// BIT 1, C.
pub fn bit_1_c(cpu: &mut Cpu)
    requires
        old(cpu).wf(),
    ensures
        final(cpu).wf(),
        spec_bit_1_c(*old(cpu), *final(cpu)),
{
    let v = cpu.regs.c;
    bit_exec(&mut cpu.regs, v, 1);
    cpu.cycles = 8;
}

/// BIT 1, D.
pub open spec fn spec_bit_1_d(o: Cpu, n: Cpu) -> bool {
    n == (Cpu { regs: bit_flags(o.regs, o.regs.d, 1), cycles: 8, ..o })
}

/// BIT 1, D.
pub fn bit_1_d(cpu: &mut Cpu)
    requires
        old(cpu).wf(),
    ensures
        final(cpu).wf(),
        spec_bit_1_d(*old(cpu), *final(cpu)),
{
    let v = cpu.regs.d;
    bit_exec(&mut cpu.regs, v, 1);
    cpu.cycles = 8;
}

/// BIT 1, E.
pub open spec fn spec_bit_1_e(o: Cpu, n: Cpu) -> bool {
    n == (Cpu { regs: bit_flags(o.regs, o.regs.e, 1), cycles: 8, ..o })
}

/// BIT 1, E.
pub fn bit_1_e(cpu: &mut Cpu)
    requires
        old(cpu).wf(),
    ensures
        final(cpu).wf(),
        spec_bit_1_e(*old(cpu), *final(cpu)),
{
    let v = cpu.regs.e;
    bit_exec(&mut cpu.regs, v, 1);
    cpu.cycles = 8;
}

/// BIT 1, H.
pub open spec fn spec_bit_1_h(o: Cpu, n: Cpu) -> bool {
    n == (Cpu { regs: bit_flags(o.regs, o.regs.h, 1), cycles: 8, ..o })
}

/// BIT 1, H.
pub fn bit_1_h(cpu: &mut Cpu)
    requires
        old(cpu).wf(),
    ensures
        final(cpu).wf(),
        spec_bit_1_h(*old(cpu), *final(cpu)),
{
    let v = cpu.regs.h;
    bit_exec(&mut cpu.regs, v, 1);
    cpu.cycles = 8;
}

/// BIT 1, L.
pub open spec fn spec_bit_1_l(o: Cpu, n: Cpu) -> bool {
    n == (Cpu { regs: bit_flags(o.regs, o.regs.l, 1), cycles: 8, ..o })
}

/// BIT 1, L.
pub fn bit_1_l(cpu: &mut Cpu)
    requires
        old(cpu).wf(),
    ensures
        final(cpu).wf(),
        spec_bit_1_l(*old(cpu), *final(cpu)),
{
    let v = cpu.regs.l;
    bit_exec(&mut cpu.regs, v, 1);
    cpu.cycles = 8;
}

/// BIT 1, (HL).
pub open spec fn spec_bit_1_mhl(o: Cpu, n: Cpu) -> bool {
    n == (Cpu { regs: bit_flags(o.regs, o.peek(o.regs.hl()), 1), cycles: 12, ..o })
}

/// BIT 1, (HL).
pub fn bit_1_mhl(cpu: &mut Cpu)
    requires
        old(cpu).wf(),
    ensures
        final(cpu).wf(),
        spec_bit_1_mhl(*old(cpu), *final(cpu)),
{
    let hl = cpu.regs.get_hl();
    let v = cpu.read(hl);
    bit_exec(&mut cpu.regs, v, 1);
    cpu.cycles = 12;
}

/// BIT 1, A.
pub open spec fn spec_bit_1_a(o: Cpu, n: Cpu) -> bool {
    n == (Cpu { regs: bit_flags(o.regs, o.regs.a, 1), cycles: 8, ..o })
}

/// BIT 1, A.
pub fn bit_1_a(cpu: &mut Cpu)
    requires
        old(cpu).wf(),
    ensures
        final(cpu).wf(),
        spec_bit_1_a(*old(cpu), *final(cpu)),
{
    let v = cpu.regs.a;
    bit_exec(&mut cpu.regs, v, 1);
    cpu.cycles = 8;
}

/// BIT 2, B.
pub open spec fn spec_bit_2_b(o: Cpu, n: Cpu) -> bool {
    n == (Cpu { regs: bit_flags(o.regs, o.regs.b, 2), cycles: 8, ..o })
}

/// BIT 2, B.
pub fn bit_2_b(cpu: &mut Cpu)
    requires
        old(cpu).wf(),
    ensures
        final(cpu).wf(),
        spec_bit_2_b(*old(cpu), *final(cpu)),
{
    let v = cpu.regs.b;
    bit_exec(&mut cpu.regs, v, 2);
    cpu.cycles = 8;
}

/// BIT 2, C.
pub open spec fn spec_bit_2_c(o: Cpu, n: Cpu) -> bool {
    n == (Cpu { regs: bit_flags(o.regs, o.regs.c, 2), cycles: 8, ..o })
}

/// BIT 2, C.
pub fn bit_2_c(cpu: &mut Cpu)
    requires
        old(cpu).wf(),
    ensures
        final(cpu).wf(),
        spec_bit_2_c(*old(cpu), *final(cpu)),
{
    let v = cpu.regs.c;
    bit_exec(&mut cpu.regs, v, 2);
    cpu.cycles = 8;
}

/// BIT 2, D.
pub open spec fn spec_bit_2_d(o: Cpu, n: Cpu) -> bool {
    n == (Cpu { regs: bit_flags(o.regs, o.regs.d, 2), cycles: 8, ..o })
}

/// BIT 2, D.
pub fn bit_2_d(cpu: &mut Cpu)
    requires
        old(cpu).wf(),
    ensures
        final(cpu).wf(),
        spec_bit_2_d(*old(cpu), *final(cpu)),
{
    let v = cpu.regs.d;
    bit_exec(&mut cpu.regs, v, 2);
    cpu.cycles = 8;
}

/// BIT 2, E.
pub open spec fn spec_bit_2_e(o: Cpu, n: Cpu) -> bool {
    n == (Cpu { regs: bit_flags(o.regs, o.regs.e, 2), cycles: 8, ..o })
}

/// BIT 2, E.
pub fn bit_2_e(cpu: &mut Cpu)
    requires
        old(cpu).wf(),
    ensures
        final(cpu).wf(),
        spec_bit_2_e(*old(cpu), *final(cpu)),
{
    let v = cpu.regs.e;
    bit_exec(&mut cpu.regs, v, 2);
    cpu.cycles = 8;
}

/// BIT 2, H.
pub open spec fn spec_bit_2_h(o: Cpu, n: Cpu) -> bool {
    n == (Cpu { regs: bit_flags(o.regs, o.regs.h, 2), cycles: 8, ..o })
}

/// BIT 2, H.
pub fn bit_2_h(cpu: &mut Cpu)
    requires
        old(cpu).wf(),
    ensures
        final(cpu).wf(),
        spec_bit_2_h(*old(cpu), *final(cpu)),
{
    let v = cpu.regs.h;
    bit_exec(&mut cpu.regs, v, 2);
    cpu.cycles = 8;
}

/// BIT 2, L.
pub open spec fn spec_bit_2_l(o: Cpu, n: Cpu) -> bool {
    n == (Cpu { regs: bit_flags(o.regs, o.regs.l, 2), cycles: 8, ..o })
}

/// BIT 2, L.
pub fn bit_2_l(cpu: &mut Cpu)
    requires
        old(cpu).wf(),
    ensures
        final(cpu).wf(),
        spec_bit_2_l(*old(cpu), *final(cpu)),
{
    let v = cpu.regs.l;
    bit_exec(&mut cpu.regs, v, 2);
    cpu.cycles = 8;
}

/// BIT 2, (HL).
pub open spec fn spec_bit_2_mhl(o: Cpu, n: Cpu) -> bool {
    n == (Cpu { regs: bit_flags(o.regs, o.peek(o.regs.hl()), 2), cycles: 12, ..o })
}

/// BIT 2, (HL).
pub fn bit_2_mhl(cpu: &mut Cpu)
    requires
        old(cpu).wf(),
    ensures
        final(cpu).wf(),
        spec_bit_2_mhl(*old(cpu), *final(cpu)),
{
    let hl = cpu.regs.get_hl();
    let v = cpu.read(hl);
    bit_exec(&mut cpu.regs, v, 2);
    cpu.cycles = 12;
}

/// BIT 2, A.
pub open spec fn spec_bit_2_a(o: Cpu, n: Cpu) -> bool {
    n == (Cpu { regs: bit_flags(o.regs, o.regs.a, 2), cycles: 8, ..o })
}

/// BIT 2, A.
pub fn bit_2_a(cpu: &mut Cpu)
    requires
        old(cpu).wf(),
    ensures
        final(cpu).wf(),
        spec_bit_2_a(*old(cpu), *final(cpu)),
{
    let v = cpu.regs.a;
    bit_exec(&mut cpu.regs, v, 2);
    cpu.cycles = 8;
}

/// BIT 3, B.
pub open spec fn spec_bit_3_b(o: Cpu, n: Cpu) -> bool {
    n == (Cpu { regs: bit_flags(o.regs, o.regs.b, 3), cycles: 8, ..o })
}

/// BIT 3, B.
pub fn bit_3_b(cpu: &mut Cpu)
    requires
        old(cpu).wf(),
    ensures
        final(cpu).wf(),
        spec_bit_3_b(*old(cpu), *final(cpu)),
{
    let v = cpu.regs.b;
    bit_exec(&mut cpu.regs, v, 3);
    cpu.cycles = 8;
}

/// BIT 3, C.
pub open spec fn spec_bit_3_c(o: Cpu, n: Cpu) -> bool {
    n == (Cpu { regs: bit_flags(o.regs, o.regs.c, 3), cycles: 8, ..o })
}

/// BIT 3, C.
pub fn bit_3_c(cpu: &mut Cpu)
    requires
        old(cpu).wf(),
    ensures
        final(cpu).wf(),
        spec_bit_3_c(*old(cpu), *final(cpu)),
{
    let v = cpu.regs.c;
    bit_exec(&mut cpu.regs, v, 3);
    cpu.cycles = 8;
}

/// BIT 3, D.
pub open spec fn spec_bit_3_d(o: Cpu, n: Cpu) -> bool {
    n == (Cpu { regs: bit_flags(o.regs, o.regs.d, 3), cycles: 8, ..o })
}

/// BIT 3, D.
pub fn bit_3_d(cpu: &mut Cpu)
    requires
        old(cpu).wf(),
    ensures
        final(cpu).wf(),
        spec_bit_3_d(*old(cpu), *final(cpu)),
{
    let v = cpu.regs.d;
    bit_exec(&mut cpu.regs, v, 3);
    cpu.cycles = 8;
}

/// BIT 3, E.
pub open spec fn spec_bit_3_e(o: Cpu, n: Cpu) -> bool {
    n == (Cpu { regs: bit_flags(o.regs, o.regs.e, 3), cycles: 8, ..o })
}

/// BIT 3, E.
pub fn bit_3_e(cpu: &mut Cpu)
    requires
        old(cpu).wf(),
    ensures
        final(cpu).wf(),
        spec_bit_3_e(*old(cpu), *final(cpu)),
{
    let v = cpu.regs.e;
    bit_exec(&mut cpu.regs, v, 3);
    cpu.cycles = 8;
}

/// BIT 3, H.
pub open spec fn spec_bit_3_h(o: Cpu, n: Cpu) -> bool {
    n == (Cpu { regs: bit_flags(o.regs, o.regs.h, 3), cycles: 8, ..o })
}

/// BIT 3, H.
pub fn bit_3_h(cpu: &mut Cpu)
    requires
        old(cpu).wf(),
    ensures
        final(cpu).wf(),
        spec_bit_3_h(*old(cpu), *final(cpu)),
{
    let v = cpu.regs.h;
    bit_exec(&mut cpu.regs, v, 3);
    cpu.cycles = 8;
}

/// BIT 3, L.
pub open spec fn spec_bit_3_l(o: Cpu, n: Cpu) -> bool {
    n == (Cpu { regs: bit_flags(o.regs, o.regs.l, 3), cycles: 8, ..o })
}

/// BIT 3, L.
pub fn bit_3_l(cpu: &mut Cpu)
    requires
        old(cpu).wf(),
    ensures
        final(cpu).wf(),
        spec_bit_3_l(*old(cpu), *final(cpu)),
{
    let v = cpu.regs.l;
    bit_exec(&mut cpu.regs, v, 3);
    cpu.cycles = 8;
}

/// BIT 3, (HL).
pub open spec fn spec_bit_3_mhl(o: Cpu, n: Cpu) -> bool {
    n == (Cpu { regs: bit_flags(o.regs, o.peek(o.regs.hl()), 3), cycles: 12, ..o })
}

/// BIT 3, (HL).
pub fn bit_3_mhl(cpu: &mut Cpu)
    requires
        old(cpu).wf(),
    ensures
        final(cpu).wf(),
        spec_bit_3_mhl(*old(cpu), *final(cpu)),
{
    let hl = cpu.regs.get_hl();
    let v = cpu.read(hl);
    bit_exec(&mut cpu.regs, v, 3);
    cpu.cycles = 12;
}

/// BIT 3, A.
pub open spec fn spec_bit_3_a(o: Cpu, n: Cpu) -> bool {
    n == (Cpu { regs: bit_flags(o.regs, o.regs.a, 3), cycles: 8, ..o })
}

/// BIT 3, A.
pub fn bit_3_a(cpu: &mut Cpu)
    requires
        old(cpu).wf(),
    ensures
        final(cpu).wf(),
        spec_bit_3_a(*old(cpu), *final(cpu)),
{
    let v = cpu.regs.a;
    bit_exec(&mut cpu.regs, v, 3);
    cpu.cycles = 8;
}

/// BIT 4, B.
pub open spec fn spec_bit_4_b(o: Cpu, n: Cpu) -> bool {
    n == (Cpu { regs: bit_flags(o.regs, o.regs.b, 4), cycles: 8, ..o })
}

/// BIT 4, B.
pub fn bit_4_b(cpu: &mut Cpu)
    requires
        old(cpu).wf(),
    ensures
        final(cpu).wf(),
        spec_bit_4_b(*old(cpu), *final(cpu)),
{
    let v = cpu.regs.b;
    bit_exec(&mut cpu.regs, v, 4);
    cpu.cycles = 8;
}

/// BIT 4, C.
pub open spec fn spec_bit_4_c(o: Cpu, n: Cpu) -> bool {
    n == (Cpu { regs: bit_flags(o.regs, o.regs.c, 4), cycles: 8, ..o })
}

/// BIT 4, C.
pub fn bit_4_c(cpu: &mut Cpu)
    requires
        old(cpu).wf(),
    ensures
        final(cpu).wf(),
        spec_bit_4_c(*old(cpu), *final(cpu)),
{
    let v = cpu.regs.c;
    bit_exec(&mut cpu.regs, v, 4);
    cpu.cycles = 8;
}

/// BIT 4, D.
pub open spec fn spec_bit_4_d(o: Cpu, n: Cpu) -> bool {
    n == (Cpu { regs: bit_flags(o.regs, o.regs.d, 4), cycles: 8, ..o })
}

/// BIT 4, D.
pub fn bit_4_d(cpu: &mut Cpu)
    requires
        old(cpu).wf(),
    ensures
        final(cpu).wf(),
        spec_bit_4_d(*old(cpu), *final(cpu)),
{
    let v = cpu.regs.d;
    bit_exec(&mut cpu.regs, v, 4);
    cpu.cycles = 8;
}

/// BIT 4, E.
pub open spec fn spec_bit_4_e(o: Cpu, n: Cpu) -> bool {
    n == (Cpu { regs: bit_flags(o.regs, o.regs.e, 4), cycles: 8, ..o })
}

/// BIT 4, E.
pub fn bit_4_e(cpu: &mut Cpu)
    requires
        old(cpu).wf(),
    ensures
        final(cpu).wf(),
        spec_bit_4_e(*old(cpu), *final(cpu)),
{
    let v = cpu.regs.e;
    bit_exec(&mut cpu.regs, v, 4);
    cpu.cycles = 8;
}

/// BIT 4, H.
pub open spec fn spec_bit_4_h(o: Cpu, n: Cpu) -> bool {
    n == (Cpu { regs: bit_flags(o.regs, o.regs.h, 4), cycles: 8, ..o })
}

/// BIT 4, H.
pub fn bit_4_h(cpu: &mut Cpu)
    requires
        old(cpu).wf(),
    ensures
        final(cpu).wf(),
        spec_bit_4_h(*old(cpu), *final(cpu)),
{
    let v = cpu.regs.h;
    bit_exec(&mut cpu.regs, v, 4);
    cpu.cycles = 8;
}

/// BIT 4, L.
pub open spec fn spec_bit_4_l(o: Cpu, n: Cpu) -> bool {
    n == (Cpu { regs: bit_flags(o.regs, o.regs.l, 4), cycles: 8, ..o })
}

/// BIT 4, L.
pub fn bit_4_l(cpu: &mut Cpu)
    requires
        old(cpu).wf(),
    ensures
        final(cpu).wf(),
        spec_bit_4_l(*old(cpu), *final(cpu)),
{
    let v = cpu.regs.l;
    bit_exec(&mut cpu.regs, v, 4);
    cpu.cycles = 8;
}

/// BIT 4, (HL).
pub open spec fn spec_bit_4_mhl(o: Cpu, n: Cpu) -> bool {
    n == (Cpu { regs: bit_flags(o.regs, o.peek(o.regs.hl()), 4), cycles: 12, ..o })
}

/// BIT 4, (HL).
pub fn bit_4_mhl(cpu: &mut Cpu)
    requires
        old(cpu).wf(),
    ensures
        final(cpu).wf(),
        spec_bit_4_mhl(*old(cpu), *final(cpu)),
{
    let hl = cpu.regs.get_hl();
    let v = cpu.read(hl);
    bit_exec(&mut cpu.regs, v, 4);
    cpu.cycles = 12;
}

/// BIT 4, A.
pub open spec fn spec_bit_4_a(o: Cpu, n: Cpu) -> bool {
    n == (Cpu { regs: bit_flags(o.regs, o.regs.a, 4), cycles: 8, ..o })
}

/// BIT 4, A.
pub fn bit_4_a(cpu: &mut Cpu)
    requires
        old(cpu).wf(),
    ensures
        final(cpu).wf(),
        spec_bit_4_a(*old(cpu), *final(cpu)),
{
    let v = cpu.regs.a;
    bit_exec(&mut cpu.regs, v, 4);
    cpu.cycles = 8;
}

/// BIT 5, B.
pub open spec fn spec_bit_5_b(o: Cpu, n: Cpu) -> bool {
    n == (Cpu { regs: bit_flags(o.regs, o.regs.b, 5), cycles: 8, ..o })
}

/// BIT 5, B.
pub fn bit_5_b(cpu: &mut Cpu)
    requires
        old(cpu).wf(),
    ensures
        final(cpu).wf(),
        spec_bit_5_b(*old(cpu), *final(cpu)),
{
    let v = cpu.regs.b;
    bit_exec(&mut cpu.regs, v, 5);
    cpu.cycles = 8;
}

/// BIT 5, C.
pub open spec fn spec_bit_5_c(o: Cpu, n: Cpu) -> bool {
    n == (Cpu { regs: bit_flags(o.regs, o.regs.c, 5), cycles: 8, ..o })
}

/// BIT 5, C.
pub fn bit_5_c(cpu: &mut Cpu)
    requires
        old(cpu).wf(),
    ensures
        final(cpu).wf(),
        spec_bit_5_c(*old(cpu), *final(cpu)),
{
    let v = cpu.regs.c;
    bit_exec(&mut cpu.regs, v, 5);
    cpu.cycles = 8;
}

/// BIT 5, D.
pub open spec fn spec_bit_5_d(o: Cpu, n: Cpu) -> bool {
    n == (Cpu { regs: bit_flags(o.regs, o.regs.d, 5), cycles: 8, ..o })
}

/// BIT 5, D.
pub fn bit_5_d(cpu: &mut Cpu)
    requires
        old(cpu).wf(),
    ensures
        final(cpu).wf(),
        spec_bit_5_d(*old(cpu), *final(cpu)),
{
    let v = cpu.regs.d;
    bit_exec(&mut cpu.regs, v, 5);
    cpu.cycles = 8;
}

/// BIT 5, E.
pub open spec fn spec_bit_5_e(o: Cpu, n: Cpu) -> bool {
    n == (Cpu { regs: bit_flags(o.regs, o.regs.e, 5), cycles: 8, ..o })
}

/// BIT 5, E.
pub fn bit_5_e(cpu: &mut Cpu)
    requires
        old(cpu).wf(),
    ensures
        final(cpu).wf(),
        spec_bit_5_e(*old(cpu), *final(cpu)),
{
    let v = cpu.regs.e;
    bit_exec(&mut cpu.regs, v, 5);
    cpu.cycles = 8;
}

/// BIT 5, H.
pub open spec fn spec_bit_5_h(o: Cpu, n: Cpu) -> bool {
    n == (Cpu { regs: bit_flags(o.regs, o.regs.h, 5), cycles: 8, ..o })
}

/// BIT 5, H.
pub fn bit_5_h(cpu: &mut Cpu)
    requires
        old(cpu).wf(),
    ensures
        final(cpu).wf(),
        spec_bit_5_h(*old(cpu), *final(cpu)),
{
    let v = cpu.regs.h;
    bit_exec(&mut cpu.regs, v, 5);
    cpu.cycles = 8;
}

/// BIT 5, L.
pub open spec fn spec_bit_5_l(o: Cpu, n: Cpu) -> bool {
    n == (Cpu { regs: bit_flags(o.regs, o.regs.l, 5), cycles: 8, ..o })
}

/// BIT 5, L.
pub fn bit_5_l(cpu: &mut Cpu)
    requires
        old(cpu).wf(),
    ensures
        final(cpu).wf(),
        spec_bit_5_l(*old(cpu), *final(cpu)),
{
    let v = cpu.regs.l;
    bit_exec(&mut cpu.regs, v, 5);
    cpu.cycles = 8;
}

/// BIT 5, (HL).
pub open spec fn spec_bit_5_mhl(o: Cpu, n: Cpu) -> bool {
    n == (Cpu { regs: bit_flags(o.regs, o.peek(o.regs.hl()), 5), cycles: 12, ..o })
}

/// BIT 5, (HL).
pub fn bit_5_mhl(cpu: &mut Cpu)
    requires
        old(cpu).wf(),
    ensures
        final(cpu).wf(),
        spec_bit_5_mhl(*old(cpu), *final(cpu)),
{
    let hl = cpu.regs.get_hl();
    let v = cpu.read(hl);
    bit_exec(&mut cpu.regs, v, 5);
    cpu.cycles = 12;
}

/// BIT 5, A.
pub open spec fn spec_bit_5_a(o: Cpu, n: Cpu) -> bool {
    n == (Cpu { regs: bit_flags(o.regs, o.regs.a, 5), cycles: 8, ..o })
}

/// BIT 5, A.
pub fn bit_5_a(cpu: &mut Cpu)
    requires
        old(cpu).wf(),
    ensures
        final(cpu).wf(),
        spec_bit_5_a(*old(cpu), *final(cpu)),
{
    let v = cpu.regs.a;
    bit_exec(&mut cpu.regs, v, 5);
    cpu.cycles = 8;
}

/// BIT 6, B.
pub open spec fn spec_bit_6_b(o: Cpu, n: Cpu) -> bool {
    n == (Cpu { regs: bit_flags(o.regs, o.regs.b, 6), cycles: 8, ..o })
}

/// BIT 6, B.
pub fn bit_6_b(cpu: &mut Cpu)
    requires
        old(cpu).wf(),
    ensures
        final(cpu).wf(),
        spec_bit_6_b(*old(cpu), *final(cpu)),
{
    let v = cpu.regs.b;
    bit_exec(&mut cpu.regs, v, 6);
    cpu.cycles = 8;
}

/// BIT 6, C.
pub open spec fn spec_bit_6_c(o: Cpu, n: Cpu) -> bool {
    n == (Cpu { regs: bit_flags(o.regs, o.regs.c, 6), cycles: 8, ..o })
}

/// BIT 6, C.
pub fn bit_6_c(cpu: &mut Cpu)
    requires
        old(cpu).wf(),
    ensures
        final(cpu).wf(),
        spec_bit_6_c(*old(cpu), *final(cpu)),
{
    let v = cpu.regs.c;
    bit_exec(&mut cpu.regs, v, 6);
    cpu.cycles = 8;
}

/// BIT 6, D.
pub open spec fn spec_bit_6_d(o: Cpu, n: Cpu) -> bool {
    n == (Cpu { regs: bit_flags(o.regs, o.regs.d, 6), cycles: 8, ..o })
}

/// BIT 6, D.
pub fn bit_6_d(cpu: &mut Cpu)
    requires
        old(cpu).wf(),
    ensures
        final(cpu).wf(),
        spec_bit_6_d(*old(cpu), *final(cpu)),
{
    let v = cpu.regs.d;
    bit_exec(&mut cpu.regs, v, 6);
    cpu.cycles = 8;
}

/// BIT 6, E.
pub open spec fn spec_bit_6_e(o: Cpu, n: Cpu) -> bool {
    n == (Cpu { regs: bit_flags(o.regs, o.regs.e, 6), cycles: 8, ..o })
}

/// BIT 6, E.
pub fn bit_6_e(cpu: &mut Cpu)
    requires
        old(cpu).wf(),
    ensures
        final(cpu).wf(),
        spec_bit_6_e(*old(cpu), *final(cpu)),
{
    let v = cpu.regs.e;
    bit_exec(&mut cpu.regs, v, 6);
    cpu.cycles = 8;
}

/// BIT 6, H.
pub open spec fn spec_bit_6_h(o: Cpu, n: Cpu) -> bool {
    n == (Cpu { regs: bit_flags(o.regs, o.regs.h, 6), cycles: 8, ..o })
}

/// BIT 6, H.
pub fn bit_6_h(cpu: &mut Cpu)
    requires
        old(cpu).wf(),
    ensures
        final(cpu).wf(),
        spec_bit_6_h(*old(cpu), *final(cpu)),
{
    let v = cpu.regs.h;
    bit_exec(&mut cpu.regs, v, 6);
    cpu.cycles = 8;
}

/// BIT 6, L.
pub open spec fn spec_bit_6_l(o: Cpu, n: Cpu) -> bool {
    n == (Cpu { regs: bit_flags(o.regs, o.regs.l, 6), cycles: 8, ..o })
}

/// BIT 6, L.
pub fn bit_6_l(cpu: &mut Cpu)
    requires
        old(cpu).wf(),
    ensures
        final(cpu).wf(),
        spec_bit_6_l(*old(cpu), *final(cpu)),
{
    let v = cpu.regs.l;
    bit_exec(&mut cpu.regs, v, 6);
    cpu.cycles = 8;
}

/// BIT 6, (HL).
pub open spec fn spec_bit_6_mhl(o: Cpu, n: Cpu) -> bool {
    n == (Cpu { regs: bit_flags(o.regs, o.peek(o.regs.hl()), 6), cycles: 12, ..o })
}

/// BIT 6, (HL).
pub fn bit_6_mhl(cpu: &mut Cpu)
    requires
        old(cpu).wf(),
    ensures
        final(cpu).wf(),
        spec_bit_6_mhl(*old(cpu), *final(cpu)),
{
    let hl = cpu.regs.get_hl();
    let v = cpu.read(hl);
    bit_exec(&mut cpu.regs, v, 6);
    cpu.cycles = 12;
}

/// BIT 6, A.
pub open spec fn spec_bit_6_a(o: Cpu, n: Cpu) -> bool {
    n == (Cpu { regs: bit_flags(o.regs, o.regs.a, 6), cycles: 8, ..o })
}

/// BIT 6, A.
pub fn bit_6_a(cpu: &mut Cpu)
    requires
        old(cpu).wf(),
    ensures
        final(cpu).wf(),
        spec_bit_6_a(*old(cpu), *final(cpu)),
{
    let v = cpu.regs.a;
    bit_exec(&mut cpu.regs, v, 6);
    cpu.cycles = 8;
}

/// BIT 7, B.
pub open spec fn spec_bit_7_b(o: Cpu, n: Cpu) -> bool {
    n == (Cpu { regs: bit_flags(o.regs, o.regs.b, 7), cycles: 8, ..o })
}

/// BIT 7, B.
pub fn bit_7_b(cpu: &mut Cpu)
    requires
        old(cpu).wf(),
    ensures
        final(cpu).wf(),
        spec_bit_7_b(*old(cpu), *final(cpu)),
{
    let v = cpu.regs.b;
    bit_exec(&mut cpu.regs, v, 7);
    cpu.cycles = 8;
}

/// BIT 7, C.
pub open spec fn spec_bit_7_c(o: Cpu, n: Cpu) -> bool {
    n == (Cpu { regs: bit_flags(o.regs, o.regs.c, 7), cycles: 8, ..o })
}

/// BIT 7, C.
pub fn bit_7_c(cpu: &mut Cpu)
    requires
        old(cpu).wf(),
    ensures
        final(cpu).wf(),
        spec_bit_7_c(*old(cpu), *final(cpu)),
{
    let v = cpu.regs.c;
    bit_exec(&mut cpu.regs, v, 7);
    cpu.cycles = 8;
}

/// BIT 7, D.
pub open spec fn spec_bit_7_d(o: Cpu, n: Cpu) -> bool {
    n == (Cpu { regs: bit_flags(o.regs, o.regs.d, 7), cycles: 8, ..o })
}

/// BIT 7, D.
pub fn bit_7_d(cpu: &mut Cpu)
    requires
        old(cpu).wf(),
    ensures
        final(cpu).wf(),
        spec_bit_7_d(*old(cpu), *final(cpu)),
{
    let v = cpu.regs.d;
    bit_exec(&mut cpu.regs, v, 7);
    cpu.cycles = 8;
}

/// BIT 7, E.
pub open spec fn spec_bit_7_e(o: Cpu, n: Cpu) -> bool {
    n == (Cpu { regs: bit_flags(o.regs, o.regs.e, 7), cycles: 8, ..o })
}

/// BIT 7, E.
pub fn bit_7_e(cpu: &mut Cpu)
    requires
        old(cpu).wf(),
    ensures
        final(cpu).wf(),
        spec_bit_7_e(*old(cpu), *final(cpu)),
{
    let v = cpu.regs.e;
    bit_exec(&mut cpu.regs, v, 7);
    cpu.cycles = 8;
}

/// BIT 7, H.
pub open spec fn spec_bit_7_h(o: Cpu, n: Cpu) -> bool {
    n == (Cpu { regs: bit_flags(o.regs, o.regs.h, 7), cycles: 8, ..o })
}

/// BIT 7, H.
pub fn bit_7_h(cpu: &mut Cpu)
    requires
        old(cpu).wf(),
    ensures
        final(cpu).wf(),
        spec_bit_7_h(*old(cpu), *final(cpu)),
{
    let v = cpu.regs.h;
    bit_exec(&mut cpu.regs, v, 7);
    cpu.cycles = 8;
}

/// BIT 7, L.
pub open spec fn spec_bit_7_l(o: Cpu, n: Cpu) -> bool {
    n == (Cpu { regs: bit_flags(o.regs, o.regs.l, 7), cycles: 8, ..o })
}

/// BIT 7, L.
pub fn bit_7_l(cpu: &mut Cpu)
    requires
        old(cpu).wf(),
    ensures
        final(cpu).wf(),
        spec_bit_7_l(*old(cpu), *final(cpu)),
{
    let v = cpu.regs.l;
    bit_exec(&mut cpu.regs, v, 7);
    cpu.cycles = 8;
}

/// BIT 7, (HL).
pub open spec fn spec_bit_7_mhl(o: Cpu, n: Cpu) -> bool {
    n == (Cpu { regs: bit_flags(o.regs, o.peek(o.regs.hl()), 7), cycles: 12, ..o })
}

/// BIT 7, (HL).
pub fn bit_7_mhl(cpu: &mut Cpu)
    requires
        old(cpu).wf(),
    ensures
        final(cpu).wf(),
        spec_bit_7_mhl(*old(cpu), *final(cpu)),
{
    let hl = cpu.regs.get_hl();
    let v = cpu.read(hl);
    bit_exec(&mut cpu.regs, v, 7);
    cpu.cycles = 12;
}

/// BIT 7, A.
pub open spec fn spec_bit_7_a(o: Cpu, n: Cpu) -> bool {
    n == (Cpu { regs: bit_flags(o.regs, o.regs.a, 7), cycles: 8, ..o })
}

/// BIT 7, A.
pub fn bit_7_a(cpu: &mut Cpu)
    requires
        old(cpu).wf(),
    ensures
        final(cpu).wf(),
        spec_bit_7_a(*old(cpu), *final(cpu)),
{
    let v = cpu.regs.a;
    bit_exec(&mut cpu.regs, v, 7);
    cpu.cycles = 8;
}

/// RES 0, B.
pub open spec fn spec_res_0_b(o: Cpu, n: Cpu) -> bool {
    n == (Cpu { regs: Register { b: res_value(o.regs.b, 0), ..o.regs }, cycles: 8, ..o })
}

/// RES 0, B.
pub fn res_0_b(cpu: &mut Cpu)
    requires
        old(cpu).wf(),
    ensures
        final(cpu).wf(),
        spec_res_0_b(*old(cpu), *final(cpu)),
{
    cpu.regs.b = res_exec(cpu.regs.b, 0);
    cpu.cycles = 8;
}

/// RES 0, C.
pub open spec fn spec_res_0_c(o: Cpu, n: Cpu) -> bool {
    n == (Cpu { regs: Register { c: res_value(o.regs.c, 0), ..o.regs }, cycles: 8, ..o })
}

/// RES 0, C.
pub fn res_0_c(cpu: &mut Cpu)
    requires
        old(cpu).wf(),
    ensures
        final(cpu).wf(),
        spec_res_0_c(*old(cpu), *final(cpu)),
{
    cpu.regs.c = res_exec(cpu.regs.c, 0);
    cpu.cycles = 8;
}

/// RES 0, D.
pub open spec fn spec_res_0_d(o: Cpu, n: Cpu) -> bool {
    n == (Cpu { regs: Register { d: res_value(o.regs.d, 0), ..o.regs }, cycles: 8, ..o })
}

/// RES 0, D.
pub fn res_0_d(cpu: &mut Cpu)
    requires
        old(cpu).wf(),
    ensures
        final(cpu).wf(),
        spec_res_0_d(*old(cpu), *final(cpu)),
{
    cpu.regs.d = res_exec(cpu.regs.d, 0);
    cpu.cycles = 8;
}

/// RES 0, E.
pub open spec fn spec_res_0_e(o: Cpu, n: Cpu) -> bool {
    n == (Cpu { regs: Register { e: res_value(o.regs.e, 0), ..o.regs }, cycles: 8, ..o })
}

/// RES 0, E.
pub fn res_0_e(cpu: &mut Cpu)
    requires
        old(cpu).wf(),
    ensures
        final(cpu).wf(),
        spec_res_0_e(*old(cpu), *final(cpu)),
{
    cpu.regs.e = res_exec(cpu.regs.e, 0);
    cpu.cycles = 8;
}

/// RES 0, H.
pub open spec fn spec_res_0_h(o: Cpu, n: Cpu) -> bool {
    n == (Cpu { regs: Register { h: res_value(o.regs.h, 0), ..o.regs }, cycles: 8, ..o })
}

/// RES 0, H.
pub fn res_0_h(cpu: &mut Cpu)
    requires
        old(cpu).wf(),
    ensures
        final(cpu).wf(),
        spec_res_0_h(*old(cpu), *final(cpu)),
{
    cpu.regs.h = res_exec(cpu.regs.h, 0);
    cpu.cycles = 8;
}

/// RES 0, L.
pub open spec fn spec_res_0_l(o: Cpu, n: Cpu) -> bool {
    n == (Cpu { regs: Register { l: res_value(o.regs.l, 0), ..o.regs }, cycles: 8, ..o })
}

/// RES 0, L.
pub fn res_0_l(cpu: &mut Cpu)
    requires
        old(cpu).wf(),
    ensures
        final(cpu).wf(),
        spec_res_0_l(*old(cpu), *final(cpu)),
{
    cpu.regs.l = res_exec(cpu.regs.l, 0);
    cpu.cycles = 8;
}

/// RES 0, (HL).
pub open spec fn spec_res_0_mhl(o: Cpu, n: Cpu) -> bool {
    &&& n == (Cpu { bus: n.bus, cycles: 16, ..o })
    &&& o.bus.written(n.bus, o.regs.hl(), res_value(o.peek(o.regs.hl()), 0))
}

/// RES 0, (HL).
pub fn res_0_mhl(cpu: &mut Cpu)
    requires
        old(cpu).wf(),
    ensures
        final(cpu).wf(),
        spec_res_0_mhl(*old(cpu), *final(cpu)),
{
    let hl = cpu.regs.get_hl();
    let v = cpu.read(hl);
    let res = res_exec(v, 0);
    cpu.write(hl, res);
    cpu.cycles = 16;
}

/// RES 0, A.
pub open spec fn spec_res_0_a(o: Cpu, n: Cpu) -> bool {
    n == (Cpu { regs: Register { a: res_value(o.regs.a, 0), ..o.regs }, cycles: 8, ..o })
}

/// RES 0, A.
pub fn res_0_a(cpu: &mut Cpu)
    requires
        old(cpu).wf(),
    ensures
        final(cpu).wf(),
        spec_res_0_a(*old(cpu), *final(cpu)),
{
    cpu.regs.a = res_exec(cpu.regs.a, 0);
    cpu.cycles = 8;
}

/// RES 1, B.
pub open spec fn spec_res_1_b(o: Cpu, n: Cpu) -> bool {
    n == (Cpu { regs: Register { b: res_value(o.regs.b, 1), ..o.regs }, cycles: 8, ..o })
}

/// RES 1, B.
pub fn res_1_b(cpu: &mut Cpu)
    requires
        old(cpu).wf(),
    ensures
        final(cpu).wf(),
        spec_res_1_b(*old(cpu), *final(cpu)),
{
    cpu.regs.b = res_exec(cpu.regs.b, 1);
    cpu.cycles = 8;
}

/// RES 1, C.
pub open spec fn spec_res_1_c(o: Cpu, n: Cpu) -> bool {
    n == (Cpu { regs: Register { c: res_value(o.regs.c, 1), ..o.regs }, cycles: 8, ..o })
}

/// RES 1, C.
pub fn res_1_c(cpu: &mut Cpu)
    requires
        old(cpu).wf(),
    ensures
        final(cpu).wf(),
        spec_res_1_c(*old(cpu), *final(cpu)),
{
    cpu.regs.c = res_exec(cpu.regs.c, 1);
    cpu.cycles = 8;
}

/// RES 1, D.
pub open spec fn spec_res_1_d(o: Cpu, n: Cpu) -> bool {
    n == (Cpu { regs: Register { d: res_value(o.regs.d, 1), ..o.regs }, cycles: 8, ..o })
}

/// RES 1, D.
pub fn res_1_d(cpu: &mut Cpu)
    requires
        old(cpu).wf(),
    ensures
        final(cpu).wf(),
        spec_res_1_d(*old(cpu), *final(cpu)),
{
    cpu.regs.d = res_exec(cpu.regs.d, 1);
    cpu.cycles = 8;
}

/// RES 1, E.
pub open spec fn spec_res_1_e(o: Cpu, n: Cpu) -> bool {
    n == (Cpu { regs: Register { e: res_value(o.regs.e, 1), ..o.regs }, cycles: 8, ..o })
}

/// RES 1, E.
pub fn res_1_e(cpu: &mut Cpu)
    requires
        old(cpu).wf(),
    ensures
        final(cpu).wf(),
        spec_res_1_e(*old(cpu), *final(cpu)),
{
    cpu.regs.e = res_exec(cpu.regs.e, 1);
    cpu.cycles = 8;
}

/// RES 1, H.
pub open spec fn spec_res_1_h(o: Cpu, n: Cpu) -> bool {
    n == (Cpu { regs: Register { h: res_value(o.regs.h, 1), ..o.regs }, cycles: 8, ..o })
}

/// RES 1, H.
pub fn res_1_h(cpu: &mut Cpu)
    requires
        old(cpu).wf(),
    ensures
        final(cpu).wf(),
        spec_res_1_h(*old(cpu), *final(cpu)),
{
    cpu.regs.h = res_exec(cpu.regs.h, 1);
    cpu.cycles = 8;
}

/// RES 1, L.
pub open spec fn spec_res_1_l(o: Cpu, n: Cpu) -> bool {
    n == (Cpu { regs: Register { l: res_value(o.regs.l, 1), ..o.regs }, cycles: 8, ..o })
}

/// RES 1, L.
pub fn res_1_l(cpu: &mut Cpu)
    requires
        old(cpu).wf(),
    ensures
        final(cpu).wf(),
        spec_res_1_l(*old(cpu), *final(cpu)),
{
    cpu.regs.l = res_exec(cpu.regs.l, 1);
    cpu.cycles = 8;
}

/// RES 1, (HL).
pub open spec fn spec_res_1_mhl(o: Cpu, n: Cpu) -> bool {
    &&& n == (Cpu { bus: n.bus, cycles: 16, ..o })
    &&& o.bus.written(n.bus, o.regs.hl(), res_value(o.peek(o.regs.hl()), 1))
}

/// RES 1, (HL).
pub fn res_1_mhl(cpu: &mut Cpu)
    requires
        old(cpu).wf(),
    ensures
        final(cpu).wf(),
        spec_res_1_mhl(*old(cpu), *final(cpu)),
{
    let hl = cpu.regs.get_hl();
    let v = cpu.read(hl);
    let res = res_exec(v, 1);
    cpu.write(hl, res);
    cpu.cycles = 16;
}

/// RES 1, A.
pub open spec fn spec_res_1_a(o: Cpu, n: Cpu) -> bool {
    n == (Cpu { regs: Register { a: res_value(o.regs.a, 1), ..o.regs }, cycles: 8, ..o })
}

/// RES 1, A.
pub fn res_1_a(cpu: &mut Cpu)
    requires
        old(cpu).wf(),
    ensures
        final(cpu).wf(),
        spec_res_1_a(*old(cpu), *final(cpu)),
{
    cpu.regs.a = res_exec(cpu.regs.a, 1);
    cpu.cycles = 8;
}

/// RES 2, B.
pub open spec fn spec_res_2_b(o: Cpu, n: Cpu) -> bool {
    n == (Cpu { regs: Register { b: res_value(o.regs.b, 2), ..o.regs }, cycles: 8, ..o })
}

/// RES 2, B.
pub fn res_2_b(cpu: &mut Cpu)
    requires
        old(cpu).wf(),
    ensures
        final(cpu).wf(),
        spec_res_2_b(*old(cpu), *final(cpu)),
{
    cpu.regs.b = res_exec(cpu.regs.b, 2);
    cpu.cycles = 8;
}

/// RES 2, C.
pub open spec fn spec_res_2_c(o: Cpu, n: Cpu) -> bool {
    n == (Cpu { regs: Register { c: res_value(o.regs.c, 2), ..o.regs }, cycles: 8, ..o })
}

/// RES 2, C.
pub fn res_2_c(cpu: &mut Cpu)
    requires
        old(cpu).wf(),
    ensures
        final(cpu).wf(),
        spec_res_2_c(*old(cpu), *final(cpu)),
{
    cpu.regs.c = res_exec(cpu.regs.c, 2);
    cpu.cycles = 8;
}

/// RES 2, D.
pub open spec fn spec_res_2_d(o: Cpu, n: Cpu) -> bool {
    n == (Cpu { regs: Register { d: res_value(o.regs.d, 2), ..o.regs }, cycles: 8, ..o })
}

/// RES 2, D.
pub fn res_2_d(cpu: &mut Cpu)
    requires
        old(cpu).wf(),
    ensures
        final(cpu).wf(),
        spec_res_2_d(*old(cpu), *final(cpu)),
{
    cpu.regs.d = res_exec(cpu.regs.d, 2);
    cpu.cycles = 8;
}

/// RES 2, E.
pub open spec fn spec_res_2_e(o: Cpu, n: Cpu) -> bool {
    n == (Cpu { regs: Register { e: res_value(o.regs.e, 2), ..o.regs }, cycles: 8, ..o })
}

/// RES 2, E.
pub fn res_2_e(cpu: &mut Cpu)
    requires
        old(cpu).wf(),
    ensures
        final(cpu).wf(),
        spec_res_2_e(*old(cpu), *final(cpu)),
{
    cpu.regs.e = res_exec(cpu.regs.e, 2);
    cpu.cycles = 8;
}

/// RES 2, H.
pub open spec fn spec_res_2_h(o: Cpu, n: Cpu) -> bool {
    n == (Cpu { regs: Register { h: res_value(o.regs.h, 2), ..o.regs }, cycles: 8, ..o })
}

/// RES 2, H.
pub fn res_2_h(cpu: &mut Cpu)
    requires
        old(cpu).wf(),
    ensures
        final(cpu).wf(),
        spec_res_2_h(*old(cpu), *final(cpu)),
{
    cpu.regs.h = res_exec(cpu.regs.h, 2);
    cpu.cycles = 8;
}

/// RES 2, L.
pub open spec fn spec_res_2_l(o: Cpu, n: Cpu) -> bool {
    n == (Cpu { regs: Register { l: res_value(o.regs.l, 2), ..o.regs }, cycles: 8, ..o })
}

/// RES 2, L.
pub fn res_2_l(cpu: &mut Cpu)
    requires
        old(cpu).wf(),
    ensures
        final(cpu).wf(),
        spec_res_2_l(*old(cpu), *final(cpu)),
{
    cpu.regs.l = res_exec(cpu.regs.l, 2);
    cpu.cycles = 8;
}

/// RES 2, (HL).
pub open spec fn spec_res_2_mhl(o: Cpu, n: Cpu) -> bool {
    &&& n == (Cpu { bus: n.bus, cycles: 16, ..o })
    &&& o.bus.written(n.bus, o.regs.hl(), res_value(o.peek(o.regs.hl()), 2))
}

/// RES 2, (HL).
pub fn res_2_mhl(cpu: &mut Cpu)
    requires
        old(cpu).wf(),
    ensures
        final(cpu).wf(),
        spec_res_2_mhl(*old(cpu), *final(cpu)),
{
    let hl = cpu.regs.get_hl();
    let v = cpu.read(hl);
    let res = res_exec(v, 2);
    cpu.write(hl, res);
    cpu.cycles = 16;
}

/// RES 2, A.
pub open spec fn spec_res_2_a(o: Cpu, n: Cpu) -> bool {
    n == (Cpu { regs: Register { a: res_value(o.regs.a, 2), ..o.regs }, cycles: 8, ..o })
}

/// RES 2, A.
pub fn res_2_a(cpu: &mut Cpu)
    requires
        old(cpu).wf(),
    ensures
        final(cpu).wf(),
        spec_res_2_a(*old(cpu), *final(cpu)),
{
    cpu.regs.a = res_exec(cpu.regs.a, 2);
    cpu.cycles = 8;
}

/// RES 3, B.
pub open spec fn spec_res_3_b(o: Cpu, n: Cpu) -> bool {
    n == (Cpu { regs: Register { b: res_value(o.regs.b, 3), ..o.regs }, cycles: 8, ..o })
}

/// RES 3, B.
pub fn res_3_b(cpu: &mut Cpu)
    requires
        old(cpu).wf(),
    ensures
        final(cpu).wf(),
        spec_res_3_b(*old(cpu), *final(cpu)),
{
    cpu.regs.b = res_exec(cpu.regs.b, 3);
    cpu.cycles = 8;
}

/// RES 3, C.
pub open spec fn spec_res_3_c(o: Cpu, n: Cpu) -> bool {
    n == (Cpu { regs: Register { c: res_value(o.regs.c, 3), ..o.regs }, cycles: 8, ..o })
}

/// RES 3, C.
pub fn res_3_c(cpu: &mut Cpu)
    requires
        old(cpu).wf(),
    ensures
        final(cpu).wf(),
        spec_res_3_c(*old(cpu), *final(cpu)),
{
    cpu.regs.c = res_exec(cpu.regs.c, 3);
    cpu.cycles = 8;
}

/// RES 3, D.
pub open spec fn spec_res_3_d(o: Cpu, n: Cpu) -> bool {
    n == (Cpu { regs: Register { d: res_value(o.regs.d, 3), ..o.regs }, cycles: 8, ..o })
}

/// RES 3, D.
pub fn res_3_d(cpu: &mut Cpu)
    requires
        old(cpu).wf(),
    ensures
        final(cpu).wf(),
        spec_res_3_d(*old(cpu), *final(cpu)),
{
    cpu.regs.d = res_exec(cpu.regs.d, 3);
    cpu.cycles = 8;
}

/// RES 3, E.
pub open spec fn spec_res_3_e(o: Cpu, n: Cpu) -> bool {
    n == (Cpu { regs: Register { e: res_value(o.regs.e, 3), ..o.regs }, cycles: 8, ..o })
}

/// RES 3, E.
pub fn res_3_e(cpu: &mut Cpu)
    requires
        old(cpu).wf(),
    ensures
        final(cpu).wf(),
        spec_res_3_e(*old(cpu), *final(cpu)),
{
    cpu.regs.e = res_exec(cpu.regs.e, 3);
    cpu.cycles = 8;
}

/// RES 3, H.
pub open spec fn spec_res_3_h(o: Cpu, n: Cpu) -> bool {
    n == (Cpu { regs: Register { h: res_value(o.regs.h, 3), ..o.regs }, cycles: 8, ..o })
}

/// RES 3, H.
pub fn res_3_h(cpu: &mut Cpu)
    requires
        old(cpu).wf(),
    ensures
        final(cpu).wf(),
        spec_res_3_h(*old(cpu), *final(cpu)),
{
    cpu.regs.h = res_exec(cpu.regs.h, 3);
    cpu.cycles = 8;
}

/// RES 3, L.
pub open spec fn spec_res_3_l(o: Cpu, n: Cpu) -> bool {
    n == (Cpu { regs: Register { l: res_value(o.regs.l, 3), ..o.regs }, cycles: 8, ..o })
}

/// RES 3, L.
pub fn res_3_l(cpu: &mut Cpu)
    requires
        old(cpu).wf(),
    ensures
        final(cpu).wf(),
        spec_res_3_l(*old(cpu), *final(cpu)),
{
    cpu.regs.l = res_exec(cpu.regs.l, 3);
    cpu.cycles = 8;
}

/// RES 3, (HL).
pub open spec fn spec_res_3_mhl(o: Cpu, n: Cpu) -> bool {
    &&& n == (Cpu { bus: n.bus, cycles: 16, ..o })
    &&& o.bus.written(n.bus, o.regs.hl(), res_value(o.peek(o.regs.hl()), 3))
}

/// RES 3, (HL).
pub fn res_3_mhl(cpu: &mut Cpu)
    requires
        old(cpu).wf(),
    ensures
        final(cpu).wf(),
        spec_res_3_mhl(*old(cpu), *final(cpu)),
{
    let hl = cpu.regs.get_hl();
    let v = cpu.read(hl);
    let res = res_exec(v, 3);
    cpu.write(hl, res);
    cpu.cycles = 16;
}

/// RES 3, A.
pub open spec fn spec_res_3_a(o: Cpu, n: Cpu) -> bool {
    n == (Cpu { regs: Register { a: res_value(o.regs.a, 3), ..o.regs }, cycles: 8, ..o })
}

/// RES 3, A.
pub fn res_3_a(cpu: &mut Cpu)
    requires
        old(cpu).wf(),
    ensures
        final(cpu).wf(),
        spec_res_3_a(*old(cpu), *final(cpu)),
{
    cpu.regs.a = res_exec(cpu.regs.a, 3);
    cpu.cycles = 8;
}

/// RES 4, B.
pub open spec fn spec_res_4_b(o: Cpu, n: Cpu) -> bool {
    n == (Cpu { regs: Register { b: res_value(o.regs.b, 4), ..o.regs }, cycles: 8, ..o })
}

/// RES 4, B.
pub fn res_4_b(cpu: &mut Cpu)
    requires
        old(cpu).wf(),
    ensures
        final(cpu).wf(),
        spec_res_4_b(*old(cpu), *final(cpu)),
{
    cpu.regs.b = res_exec(cpu.regs.b, 4);
    cpu.cycles = 8;
}

/// RES 4, C.
pub open spec fn spec_res_4_c(o: Cpu, n: Cpu) -> bool {
    n == (Cpu { regs: Register { c: res_value(o.regs.c, 4), ..o.regs }, cycles: 8, ..o })
}

/// RES 4, C.
pub fn res_4_c(cpu: &mut Cpu)
    requires
        old(cpu).wf(),
    ensures
        final(cpu).wf(),
        spec_res_4_c(*old(cpu), *final(cpu)),
{
    cpu.regs.c = res_exec(cpu.regs.c, 4);
    cpu.cycles = 8;
}

/// RES 4, D.
pub open spec fn spec_res_4_d(o: Cpu, n: Cpu) -> bool {
    n == (Cpu { regs: Register { d: res_value(o.regs.d, 4), ..o.regs }, cycles: 8, ..o })
}

/// RES 4, D.
pub fn res_4_d(cpu: &mut Cpu)
    requires
        old(cpu).wf(),
    ensures
        final(cpu).wf(),
        spec_res_4_d(*old(cpu), *final(cpu)),
{
    cpu.regs.d = res_exec(cpu.regs.d, 4);
    cpu.cycles = 8;
}

/// RES 4, E.
pub open spec fn spec_res_4_e(o: Cpu, n: Cpu) -> bool {
    n == (Cpu { regs: Register { e: res_value(o.regs.e, 4), ..o.regs }, cycles: 8, ..o })
}

/// RES 4, E.
pub fn res_4_e(cpu: &mut Cpu)
    requires
        old(cpu).wf(),
    ensures
        final(cpu).wf(),
        spec_res_4_e(*old(cpu), *final(cpu)),
{
    cpu.regs.e = res_exec(cpu.regs.e, 4);
    cpu.cycles = 8;
}

/// RES 4, H.
pub open spec fn spec_res_4_h(o: Cpu, n: Cpu) -> bool {
    n == (Cpu { regs: Register { h: res_value(o.regs.h, 4), ..o.regs }, cycles: 8, ..o })
}

/// RES 4, H.
pub fn res_4_h(cpu: &mut Cpu)
    requires
        old(cpu).wf(),
    ensures
        final(cpu).wf(),
        spec_res_4_h(*old(cpu), *final(cpu)),
{
    cpu.regs.h = res_exec(cpu.regs.h, 4);
    cpu.cycles = 8;
}

/// RES 4, L.
pub open spec fn spec_res_4_l(o: Cpu, n: Cpu) -> bool {
    n == (Cpu { regs: Register { l: res_value(o.regs.l, 4), ..o.regs }, cycles: 8, ..o })
}

/// RES 4, L.
pub fn res_4_l(cpu: &mut Cpu)
    requires
        old(cpu).wf(),
    ensures
        final(cpu).wf(),
        spec_res_4_l(*old(cpu), *final(cpu)),
{
    cpu.regs.l = res_exec(cpu.regs.l, 4);
    cpu.cycles = 8;
}

/// RES 4, (HL).
pub open spec fn spec_res_4_mhl(o: Cpu, n: Cpu) -> bool {
    &&& n == (Cpu { bus: n.bus, cycles: 16, ..o })
    &&& o.bus.written(n.bus, o.regs.hl(), res_value(o.peek(o.regs.hl()), 4))
}

/// RES 4, (HL).
pub fn res_4_mhl(cpu: &mut Cpu)
    requires
        old(cpu).wf(),
    ensures
        final(cpu).wf(),
        spec_res_4_mhl(*old(cpu), *final(cpu)),
{
    let hl = cpu.regs.get_hl();
    let v = cpu.read(hl);
    let res = res_exec(v, 4);
    cpu.write(hl, res);
    cpu.cycles = 16;
}

/// RES 4, A.
pub open spec fn spec_res_4_a(o: Cpu, n: Cpu) -> bool {
    n == (Cpu { regs: Register { a: res_value(o.regs.a, 4), ..o.regs }, cycles: 8, ..o })
}

/// RES 4, A.
pub fn res_4_a(cpu: &mut Cpu)
    requires
        old(cpu).wf(),
    ensures
        final(cpu).wf(),
        spec_res_4_a(*old(cpu), *final(cpu)),
{
    cpu.regs.a = res_exec(cpu.regs.a, 4);
    cpu.cycles = 8;
}

/// RES 5, B.
pub open spec fn spec_res_5_b(o: Cpu, n: Cpu) -> bool {
    n == (Cpu { regs: Register { b: res_value(o.regs.b, 5), ..o.regs }, cycles: 8, ..o })
}

/// RES 5, B.
pub fn res_5_b(cpu: &mut Cpu)
    requires
        old(cpu).wf(),
    ensures
        final(cpu).wf(),
        spec_res_5_b(*old(cpu), *final(cpu)),
{
    cpu.regs.b = res_exec(cpu.regs.b, 5);
    cpu.cycles = 8;
}

/// RES 5, C.
pub open spec fn spec_res_5_c(o: Cpu, n: Cpu) -> bool {
    n == (Cpu { regs: Register { c: res_value(o.regs.c, 5), ..o.regs }, cycles: 8, ..o })
}

/// RES 5, C.
pub fn res_5_c(cpu: &mut Cpu)
    requires
        old(cpu).wf(),
    ensures
        final(cpu).wf(),
        spec_res_5_c(*old(cpu), *final(cpu)),
{
    cpu.regs.c = res_exec(cpu.regs.c, 5);
    cpu.cycles = 8;
}

/// RES 5, D.
pub open spec fn spec_res_5_d(o: Cpu, n: Cpu) -> bool {
    n == (Cpu { regs: Register { d: res_value(o.regs.d, 5), ..o.regs }, cycles: 8, ..o })
}

/// RES 5, D.
pub fn res_5_d(cpu: &mut Cpu)
    requires
        old(cpu).wf(),
    ensures
        final(cpu).wf(),
        spec_res_5_d(*old(cpu), *final(cpu)),
{
    cpu.regs.d = res_exec(cpu.regs.d, 5);
    cpu.cycles = 8;
}

/// RES 5, E.
pub open spec fn spec_res_5_e(o: Cpu, n: Cpu) -> bool {
    n == (Cpu { regs: Register { e: res_value(o.regs.e, 5), ..o.regs }, cycles: 8, ..o })
}

/// RES 5, E.
pub fn res_5_e(cpu: &mut Cpu)
    requires
        old(cpu).wf(),
    ensures
        final(cpu).wf(),
        spec_res_5_e(*old(cpu), *final(cpu)),
{
    cpu.regs.e = res_exec(cpu.regs.e, 5);
    cpu.cycles = 8;
}

/// RES 5, H.
pub open spec fn spec_res_5_h(o: Cpu, n: Cpu) -> bool {
    n == (Cpu { regs: Register { h: res_value(o.regs.h, 5), ..o.regs }, cycles: 8, ..o })
}

/// RES 5, H.
pub fn res_5_h(cpu: &mut Cpu)
    requires
        old(cpu).wf(),
    ensures
        final(cpu).wf(),
        spec_res_5_h(*old(cpu), *final(cpu)),
{
    cpu.regs.h = res_exec(cpu.regs.h, 5);
    cpu.cycles = 8;
}

/// RES 5, L.
pub open spec fn spec_res_5_l(o: Cpu, n: Cpu) -> bool {
    n == (Cpu { regs: Register { l: res_value(o.regs.l, 5), ..o.regs }, cycles: 8, ..o })
}

/// RES 5, L.
pub fn res_5_l(cpu: &mut Cpu)
    requires
        old(cpu).wf(),
    ensures
        final(cpu).wf(),
        spec_res_5_l(*old(cpu), *final(cpu)),
{
    cpu.regs.l = res_exec(cpu.regs.l, 5);
    cpu.cycles = 8;
}

/// RES 5, (HL).
pub open spec fn spec_res_5_mhl(o: Cpu, n: Cpu) -> bool {
    &&& n == (Cpu { bus: n.bus, cycles: 16, ..o })
    &&& o.bus.written(n.bus, o.regs.hl(), res_value(o.peek(o.regs.hl()), 5))
}

/// RES 5, (HL).
pub fn res_5_mhl(cpu: &mut Cpu)
    requires
        old(cpu).wf(),
    ensures
        final(cpu).wf(),
        spec_res_5_mhl(*old(cpu), *final(cpu)),
{
    let hl = cpu.regs.get_hl();
    let v = cpu.read(hl);
    let res = res_exec(v, 5);
    cpu.write(hl, res);
    cpu.cycles = 16;
}

/// RES 5, A.
pub open spec fn spec_res_5_a(o: Cpu, n: Cpu) -> bool {
    n == (Cpu { regs: Register { a: res_value(o.regs.a, 5), ..o.regs }, cycles: 8, ..o })
}

/// RES 5, A.
pub fn res_5_a(cpu: &mut Cpu)
    requires
        old(cpu).wf(),
    ensures
        final(cpu).wf(),
        spec_res_5_a(*old(cpu), *final(cpu)),
{
    cpu.regs.a = res_exec(cpu.regs.a, 5);
    cpu.cycles = 8;
}

/// RES 6, B.
pub open spec fn spec_res_6_b(o: Cpu, n: Cpu) -> bool {
    n == (Cpu { regs: Register { b: res_value(o.regs.b, 6), ..o.regs }, cycles: 8, ..o })
}

/// RES 6, B.
pub fn res_6_b(cpu: &mut Cpu)
    requires
        old(cpu).wf(),
    ensures
        final(cpu).wf(),
        spec_res_6_b(*old(cpu), *final(cpu)),
{
    cpu.regs.b = res_exec(cpu.regs.b, 6);
    cpu.cycles = 8;
}

/// RES 6, C.
pub open spec fn spec_res_6_c(o: Cpu, n: Cpu) -> bool {
    n == (Cpu { regs: Register { c: res_value(o.regs.c, 6), ..o.regs }, cycles: 8, ..o })
}

/// RES 6, C.
pub fn res_6_c(cpu: &mut Cpu)
    requires
        old(cpu).wf(),
    ensures
        final(cpu).wf(),
        spec_res_6_c(*old(cpu), *final(cpu)),
{
    cpu.regs.c = res_exec(cpu.regs.c, 6);
    cpu.cycles = 8;
}

/// RES 6, D.
pub open spec fn spec_res_6_d(o: Cpu, n: Cpu) -> bool {
    n == (Cpu { regs: Register { d: res_value(o.regs.d, 6), ..o.regs }, cycles: 8, ..o })
}

/// RES 6, D.
pub fn res_6_d(cpu: &mut Cpu)
    requires
        old(cpu).wf(),
    ensures
        final(cpu).wf(),
        spec_res_6_d(*old(cpu), *final(cpu)),
{
    cpu.regs.d = res_exec(cpu.regs.d, 6);
    cpu.cycles = 8;
}

/// RES 6, E.
pub open spec fn spec_res_6_e(o: Cpu, n: Cpu) -> bool {
    n == (Cpu { regs: Register { e: res_value(o.regs.e, 6), ..o.regs }, cycles: 8, ..o })
}

/// RES 6, E.
pub fn res_6_e(cpu: &mut Cpu)
    requires
        old(cpu).wf(),
    ensures
        final(cpu).wf(),
        spec_res_6_e(*old(cpu), *final(cpu)),
{
    cpu.regs.e = res_exec(cpu.regs.e, 6);
    cpu.cycles = 8;
}

/// RES 6, H.
pub open spec fn spec_res_6_h(o: Cpu, n: Cpu) -> bool {
    n == (Cpu { regs: Register { h: res_value(o.regs.h, 6), ..o.regs }, cycles: 8, ..o })
}

/// RES 6, H.
pub fn res_6_h(cpu: &mut Cpu)
    requires
        old(cpu).wf(),
    ensures
        final(cpu).wf(),
        spec_res_6_h(*old(cpu), *final(cpu)),
{
    cpu.regs.h = res_exec(cpu.regs.h, 6);
    cpu.cycles = 8;
}

/// RES 6, L.
pub open spec fn spec_res_6_l(o: Cpu, n: Cpu) -> bool {
    n == (Cpu { regs: Register { l: res_value(o.regs.l, 6), ..o.regs }, cycles: 8, ..o })
}

/// RES 6, L.
pub fn res_6_l(cpu: &mut Cpu)
    requires
        old(cpu).wf(),
    ensures
        final(cpu).wf(),
        spec_res_6_l(*old(cpu), *final(cpu)),
{
    cpu.regs.l = res_exec(cpu.regs.l, 6);
    cpu.cycles = 8;
}

/// RES 6, (HL).
pub open spec fn spec_res_6_mhl(o: Cpu, n: Cpu) -> bool {
    &&& n == (Cpu { bus: n.bus, cycles: 16, ..o })
    &&& o.bus.written(n.bus, o.regs.hl(), res_value(o.peek(o.regs.hl()), 6))
}

/// RES 6, (HL).
pub fn res_6_mhl(cpu: &mut Cpu)
    requires
        old(cpu).wf(),
    ensures
        final(cpu).wf(),
        spec_res_6_mhl(*old(cpu), *final(cpu)),
{
    let hl = cpu.regs.get_hl();
    let v = cpu.read(hl);
    let res = res_exec(v, 6);
    cpu.write(hl, res);
    cpu.cycles = 16;
}

/// RES 6, A.
pub open spec fn spec_res_6_a(o: Cpu, n: Cpu) -> bool {
    n == (Cpu { regs: Register { a: res_value(o.regs.a, 6), ..o.regs }, cycles: 8, ..o })
}

/// RES 6, A.
pub fn res_6_a(cpu: &mut Cpu)
    requires
        old(cpu).wf(),
    ensures
        final(cpu).wf(),
        spec_res_6_a(*old(cpu), *final(cpu)),
{
    cpu.regs.a = res_exec(cpu.regs.a, 6);
    cpu.cycles = 8;
}

/// RES 7, B.
pub open spec fn spec_res_7_b(o: Cpu, n: Cpu) -> bool {
    n == (Cpu { regs: Register { b: res_value(o.regs.b, 7), ..o.regs }, cycles: 8, ..o })
}

/// RES 7, B.
pub fn res_7_b(cpu: &mut Cpu)
    requires
        old(cpu).wf(),
    ensures
        final(cpu).wf(),
        spec_res_7_b(*old(cpu), *final(cpu)),
{
    cpu.regs.b = res_exec(cpu.regs.b, 7);
    cpu.cycles = 8;
}

/// RES 7, C.
pub open spec fn spec_res_7_c(o: Cpu, n: Cpu) -> bool {
    n == (Cpu { regs: Register { c: res_value(o.regs.c, 7), ..o.regs }, cycles: 8, ..o })
}

/// RES 7, C.
pub fn res_7_c(cpu: &mut Cpu)
    requires
        old(cpu).wf(),
    ensures
        final(cpu).wf(),
        spec_res_7_c(*old(cpu), *final(cpu)),
{
    cpu.regs.c = res_exec(cpu.regs.c, 7);
    cpu.cycles = 8;
}

/// RES 7, D.
pub open spec fn spec_res_7_d(o: Cpu, n: Cpu) -> bool {
    n == (Cpu { regs: Register { d: res_value(o.regs.d, 7), ..o.regs }, cycles: 8, ..o })
}

/// RES 7, D.
pub fn res_7_d(cpu: &mut Cpu)
    requires
        old(cpu).wf(),
    ensures
        final(cpu).wf(),
        spec_res_7_d(*old(cpu), *final(cpu)),
{
    cpu.regs.d = res_exec(cpu.regs.d, 7);
    cpu.cycles = 8;
}

/// RES 7, E.
pub open spec fn spec_res_7_e(o: Cpu, n: Cpu) -> bool {
    n == (Cpu { regs: Register { e: res_value(o.regs.e, 7), ..o.regs }, cycles: 8, ..o })
}

/// RES 7, E.
pub fn res_7_e(cpu: &mut Cpu)
    requires
        old(cpu).wf(),
    ensures
        final(cpu).wf(),
        spec_res_7_e(*old(cpu), *final(cpu)),
{
    cpu.regs.e = res_exec(cpu.regs.e, 7);
    cpu.cycles = 8;
}

/// RES 7, H.
pub open spec fn spec_res_7_h(o: Cpu, n: Cpu) -> bool {
    n == (Cpu { regs: Register { h: res_value(o.regs.h, 7), ..o.regs }, cycles: 8, ..o })
}

/// RES 7, H.
pub fn res_7_h(cpu: &mut Cpu)
    requires
        old(cpu).wf(),
    ensures
        final(cpu).wf(),
        spec_res_7_h(*old(cpu), *final(cpu)),
{
    cpu.regs.h = res_exec(cpu.regs.h, 7);
    cpu.cycles = 8;
}

/// RES 7, L.
pub open spec fn spec_res_7_l(o: Cpu, n: Cpu) -> bool {
    n == (Cpu { regs: Register { l: res_value(o.regs.l, 7), ..o.regs }, cycles: 8, ..o })
}

/// RES 7, L.
pub fn res_7_l(cpu: &mut Cpu)
    requires
        old(cpu).wf(),
    ensures
        final(cpu).wf(),
        spec_res_7_l(*old(cpu), *final(cpu)),
{
    cpu.regs.l = res_exec(cpu.regs.l, 7);
    cpu.cycles = 8;
}

/// RES 7, (HL).
pub open spec fn spec_res_7_mhl(o: Cpu, n: Cpu) -> bool {
    &&& n == (Cpu { bus: n.bus, cycles: 16, ..o })
    &&& o.bus.written(n.bus, o.regs.hl(), res_value(o.peek(o.regs.hl()), 7))
}

/// RES 7, (HL).
pub fn res_7_mhl(cpu: &mut Cpu)
    requires
        old(cpu).wf(),
    ensures
        final(cpu).wf(),
        spec_res_7_mhl(*old(cpu), *final(cpu)),
{
    let hl = cpu.regs.get_hl();
    let v = cpu.read(hl);
    let res = res_exec(v, 7);
    cpu.write(hl, res);
    cpu.cycles = 16;
}

/// RES 7, A.
pub open spec fn spec_res_7_a(o: Cpu, n: Cpu) -> bool {
    n == (Cpu { regs: Register { a: res_value(o.regs.a, 7), ..o.regs }, cycles: 8, ..o })
}

/// RES 7, A.
pub fn res_7_a(cpu: &mut Cpu)
    requires
        old(cpu).wf(),
    ensures
        final(cpu).wf(),
        spec_res_7_a(*old(cpu), *final(cpu)),
{
    cpu.regs.a = res_exec(cpu.regs.a, 7);
    cpu.cycles = 8;
}

/// SET 0, B.
pub open spec fn spec_set_0_b(o: Cpu, n: Cpu) -> bool {
    n == (Cpu { regs: Register { b: set_value(o.regs.b, 0), ..o.regs }, cycles: 8, ..o })
}

/// SET 0, B.
pub fn set_0_b(cpu: &mut Cpu)
    requires
        old(cpu).wf(),
    ensures
        final(cpu).wf(),
        spec_set_0_b(*old(cpu), *final(cpu)),
{
    cpu.regs.b = set_exec(cpu.regs.b, 0);
    cpu.cycles = 8;
}

/// SET 0, C.
pub open spec fn spec_set_0_c(o: Cpu, n: Cpu) -> bool {
    n == (Cpu { regs: Register { c: set_value(o.regs.c, 0), ..o.regs }, cycles: 8, ..o })
}

/// SET 0, C.
pub fn set_0_c(cpu: &mut Cpu)
    requires
        old(cpu).wf(),
    ensures
        final(cpu).wf(),
        spec_set_0_c(*old(cpu), *final(cpu)),
{
    cpu.regs.c = set_exec(cpu.regs.c, 0);
    cpu.cycles = 8;
}

/// SET 0, D.
pub open spec fn spec_set_0_d(o: Cpu, n: Cpu) -> bool {
    n == (Cpu { regs: Register { d: set_value(o.regs.d, 0), ..o.regs }, cycles: 8, ..o })
}

/// SET 0, D.
pub fn set_0_d(cpu: &mut Cpu)
    requires
        old(cpu).wf(),
    ensures
        final(cpu).wf(),
        spec_set_0_d(*old(cpu), *final(cpu)),
{
    cpu.regs.d = set_exec(cpu.regs.d, 0);
    cpu.cycles = 8;
}

/// SET 0, E.
pub open spec fn spec_set_0_e(o: Cpu, n: Cpu) -> bool {
    n == (Cpu { regs: Register { e: set_value(o.regs.e, 0), ..o.regs }, cycles: 8, ..o })
}

/// SET 0, E.
pub fn set_0_e(cpu: &mut Cpu)
    requires
        old(cpu).wf(),
    ensures
        final(cpu).wf(),
        spec_set_0_e(*old(cpu), *final(cpu)),
{
    cpu.regs.e = set_exec(cpu.regs.e, 0);
    cpu.cycles = 8;
}

/// SET 0, H.
pub open spec fn spec_set_0_h(o: Cpu, n: Cpu) -> bool {
    n == (Cpu { regs: Register { h: set_value(o.regs.h, 0), ..o.regs }, cycles: 8, ..o })
}

/// SET 0, H.
pub fn set_0_h(cpu: &mut Cpu)
    requires
        old(cpu).wf(),
    ensures
        final(cpu).wf(),
        spec_set_0_h(*old(cpu), *final(cpu)),
{
    cpu.regs.h = set_exec(cpu.regs.h, 0);
    cpu.cycles = 8;
}

/// SET 0, L.
pub open spec fn spec_set_0_l(o: Cpu, n: Cpu) -> bool {
    n == (Cpu { regs: Register { l: set_value(o.regs.l, 0), ..o.regs }, cycles: 8, ..o })
}

/// SET 0, L.
pub fn set_0_l(cpu: &mut Cpu)
    requires
        old(cpu).wf(),
    ensures
        final(cpu).wf(),
        spec_set_0_l(*old(cpu), *final(cpu)),
{
    cpu.regs.l = set_exec(cpu.regs.l, 0);
    cpu.cycles = 8;
}

/// SET 0, (HL).
pub open spec fn spec_set_0_mhl(o: Cpu, n: Cpu) -> bool {
    &&& n == (Cpu { bus: n.bus, cycles: 16, ..o })
    &&& o.bus.written(n.bus, o.regs.hl(), set_value(o.peek(o.regs.hl()), 0))
}

/// SET 0, (HL).
pub fn set_0_mhl(cpu: &mut Cpu)
    requires
        old(cpu).wf(),
    ensures
        final(cpu).wf(),
        spec_set_0_mhl(*old(cpu), *final(cpu)),
{
    let hl = cpu.regs.get_hl();
    let v = cpu.read(hl);
    let res = set_exec(v, 0);
    cpu.write(hl, res);
    cpu.cycles = 16;
}

/// SET 0, A.
pub open spec fn spec_set_0_a(o: Cpu, n: Cpu) -> bool {
    n == (Cpu { regs: Register { a: set_value(o.regs.a, 0), ..o.regs }, cycles: 8, ..o })
}

/// SET 0, A.
pub fn set_0_a(cpu: &mut Cpu)
    requires
        old(cpu).wf(),
    ensures
        final(cpu).wf(),
        spec_set_0_a(*old(cpu), *final(cpu)),
{
    cpu.regs.a = set_exec(cpu.regs.a, 0);
    cpu.cycles = 8;
}

/// SET 1, B.
pub open spec fn spec_set_1_b(o: Cpu, n: Cpu) -> bool {
    n == (Cpu { regs: Register { b: set_value(o.regs.b, 1), ..o.regs }, cycles: 8, ..o })
}

/// SET 1, B.
pub fn set_1_b(cpu: &mut Cpu)
    requires
        old(cpu).wf(),
    ensures
        final(cpu).wf(),
        spec_set_1_b(*old(cpu), *final(cpu)),
{
    cpu.regs.b = set_exec(cpu.regs.b, 1);
    cpu.cycles = 8;
}

/// SET 1, C.
pub open spec fn spec_set_1_c(o: Cpu, n: Cpu) -> bool {
    n == (Cpu { regs: Register { c: set_value(o.regs.c, 1), ..o.regs }, cycles: 8, ..o })
}

/// SET 1, C.
pub fn set_1_c(cpu: &mut Cpu)
    requires
        old(cpu).wf(),
    ensures
        final(cpu).wf(),
        spec_set_1_c(*old(cpu), *final(cpu)),
{
    cpu.regs.c = set_exec(cpu.regs.c, 1);
    cpu.cycles = 8;
}

/// SET 1, D.
pub open spec fn spec_set_1_d(o: Cpu, n: Cpu) -> bool {
    n == (Cpu { regs: Register { d: set_value(o.regs.d, 1), ..o.regs }, cycles: 8, ..o })
}

/// SET 1, D.
pub fn set_1_d(cpu: &mut Cpu)
    requires
        old(cpu).wf(),
    ensures
        final(cpu).wf(),
        spec_set_1_d(*old(cpu), *final(cpu)),
{
    cpu.regs.d = set_exec(cpu.regs.d, 1);
    cpu.cycles = 8;
}

/// SET 1, E.
pub open spec fn spec_set_1_e(o: Cpu, n: Cpu) -> bool {
    n == (Cpu { regs: Register { e: set_value(o.regs.e, 1), ..o.regs }, cycles: 8, ..o })
}

/// SET 1, E.
pub fn set_1_e(cpu: &mut Cpu)
    requires
        old(cpu).wf(),
    ensures
        final(cpu).wf(),
        spec_set_1_e(*old(cpu), *final(cpu)),
{
    cpu.regs.e = set_exec(cpu.regs.e, 1);
    cpu.cycles = 8;
}

/// SET 1, H.
pub open spec fn spec_set_1_h(o: Cpu, n: Cpu) -> bool {
    n == (Cpu { regs: Register { h: set_value(o.regs.h, 1), ..o.regs }, cycles: 8, ..o })
}

/// SET 1, H.
pub fn set_1_h(cpu: &mut Cpu)
    requires
        old(cpu).wf(),
    ensures
        final(cpu).wf(),
        spec_set_1_h(*old(cpu), *final(cpu)),
{
    cpu.regs.h = set_exec(cpu.regs.h, 1);
    cpu.cycles = 8;
}

/// SET 1, L.
pub open spec fn spec_set_1_l(o: Cpu, n: Cpu) -> bool {
    n == (Cpu { regs: Register { l: set_value(o.regs.l, 1), ..o.regs }, cycles: 8, ..o })
}

/// SET 1, L.
pub fn set_1_l(cpu: &mut Cpu)
    requires
        old(cpu).wf(),
    ensures
        final(cpu).wf(),
        spec_set_1_l(*old(cpu), *final(cpu)),
{
    cpu.regs.l = set_exec(cpu.regs.l, 1);
    cpu.cycles = 8;
}

/// SET 1, (HL).
pub open spec fn spec_set_1_mhl(o: Cpu, n: Cpu) -> bool {
    &&& n == (Cpu { bus: n.bus, cycles: 16, ..o })
    &&& o.bus.written(n.bus, o.regs.hl(), set_value(o.peek(o.regs.hl()), 1))
}

/// SET 1, (HL).
pub fn set_1_mhl(cpu: &mut Cpu)
    requires
        old(cpu).wf(),
    ensures
        final(cpu).wf(),
        spec_set_1_mhl(*old(cpu), *final(cpu)),
{
    let hl = cpu.regs.get_hl();
    let v = cpu.read(hl);
    let res = set_exec(v, 1);
    cpu.write(hl, res);
    cpu.cycles = 16;
}

/// SET 1, A.
pub open spec fn spec_set_1_a(o: Cpu, n: Cpu) -> bool {
    n == (Cpu { regs: Register { a: set_value(o.regs.a, 1), ..o.regs }, cycles: 8, ..o })
}

/// SET 1, A.
pub fn set_1_a(cpu: &mut Cpu)
    requires
        old(cpu).wf(),
    ensures
        final(cpu).wf(),
        spec_set_1_a(*old(cpu), *final(cpu)),
{
    cpu.regs.a = set_exec(cpu.regs.a, 1);
    cpu.cycles = 8;
}

/// SET 2, B.
pub open spec fn spec_set_2_b(o: Cpu, n: Cpu) -> bool {
    n == (Cpu { regs: Register { b: set_value(o.regs.b, 2), ..o.regs }, cycles: 8, ..o })
}

/// SET 2, B.
pub fn set_2_b(cpu: &mut Cpu)
    requires
        old(cpu).wf(),
    ensures
        final(cpu).wf(),
        spec_set_2_b(*old(cpu), *final(cpu)),
{
    cpu.regs.b = set_exec(cpu.regs.b, 2);
    cpu.cycles = 8;
}

/// SET 2, C.
pub open spec fn spec_set_2_c(o: Cpu, n: Cpu) -> bool {
    n == (Cpu { regs: Register { c: set_value(o.regs.c, 2), ..o.regs }, cycles: 8, ..o })
}

/// SET 2, C.
pub fn set_2_c(cpu: &mut Cpu)
    requires
        old(cpu).wf(),
    ensures
        final(cpu).wf(),
        spec_set_2_c(*old(cpu), *final(cpu)),
{
    cpu.regs.c = set_exec(cpu.regs.c, 2);
    cpu.cycles = 8;
}

/// SET 2, D.
pub open spec fn spec_set_2_d(o: Cpu, n: Cpu) -> bool {
    n == (Cpu { regs: Register { d: set_value(o.regs.d, 2), ..o.regs }, cycles: 8, ..o })
}

/// SET 2, D.
pub fn set_2_d(cpu: &mut Cpu)
    requires
        old(cpu).wf(),
    ensures
        final(cpu).wf(),
        spec_set_2_d(*old(cpu), *final(cpu)),
{
    cpu.regs.d = set_exec(cpu.regs.d, 2);
    cpu.cycles = 8;
}

/// SET 2, E.
pub open spec fn spec_set_2_e(o: Cpu, n: Cpu) -> bool {
    n == (Cpu { regs: Register { e: set_value(o.regs.e, 2), ..o.regs }, cycles: 8, ..o })
}

/// SET 2, E.
pub fn set_2_e(cpu: &mut Cpu)
    requires
        old(cpu).wf(),
    ensures
        final(cpu).wf(),
        spec_set_2_e(*old(cpu), *final(cpu)),
{
    cpu.regs.e = set_exec(cpu.regs.e, 2);
    cpu.cycles = 8;
}

/// SET 2, H.
pub open spec fn spec_set_2_h(o: Cpu, n: Cpu) -> bool {
    n == (Cpu { regs: Register { h: set_value(o.regs.h, 2), ..o.regs }, cycles: 8, ..o })
}

/// SET 2, H.
pub fn set_2_h(cpu: &mut Cpu)
    requires
        old(cpu).wf(),
    ensures
        final(cpu).wf(),
        spec_set_2_h(*old(cpu), *final(cpu)),
{
    cpu.regs.h = set_exec(cpu.regs.h, 2);
    cpu.cycles = 8;
}

/// SET 2, L.
pub open spec fn spec_set_2_l(o: Cpu, n: Cpu) -> bool {
    n == (Cpu { regs: Register { l: set_value(o.regs.l, 2), ..o.regs }, cycles: 8, ..o })
}

/// SET 2, L.
pub fn set_2_l(cpu: &mut Cpu)
    requires
        old(cpu).wf(),
    ensures
        final(cpu).wf(),
        spec_set_2_l(*old(cpu), *final(cpu)),
{
    cpu.regs.l = set_exec(cpu.regs.l, 2);
    cpu.cycles = 8;
}

/// SET 2, (HL).
pub open spec fn spec_set_2_mhl(o: Cpu, n: Cpu) -> bool {
    &&& n == (Cpu { bus: n.bus, cycles: 16, ..o })
    &&& o.bus.written(n.bus, o.regs.hl(), set_value(o.peek(o.regs.hl()), 2))
}

/// SET 2, (HL).
pub fn set_2_mhl(cpu: &mut Cpu)
    requires
        old(cpu).wf(),
    ensures
        final(cpu).wf(),
        spec_set_2_mhl(*old(cpu), *final(cpu)),
{
    let hl = cpu.regs.get_hl();
    let v = cpu.read(hl);
    let res = set_exec(v, 2);
    cpu.write(hl, res);
    cpu.cycles = 16;
}

/// SET 2, A.
pub open spec fn spec_set_2_a(o: Cpu, n: Cpu) -> bool {
    n == (Cpu { regs: Register { a: set_value(o.regs.a, 2), ..o.regs }, cycles: 8, ..o })
}

/// SET 2, A.
pub fn set_2_a(cpu: &mut Cpu)
    requires
        old(cpu).wf(),
    ensures
        final(cpu).wf(),
        spec_set_2_a(*old(cpu), *final(cpu)),
{
    cpu.regs.a = set_exec(cpu.regs.a, 2);
    cpu.cycles = 8;
}

/// SET 3, B.
pub open spec fn spec_set_3_b(o: Cpu, n: Cpu) -> bool {
    n == (Cpu { regs: Register { b: set_value(o.regs.b, 3), ..o.regs }, cycles: 8, ..o })
}

/// SET 3, B.
pub fn set_3_b(cpu: &mut Cpu)
    requires
        old(cpu).wf(),
    ensures
        final(cpu).wf(),
        spec_set_3_b(*old(cpu), *final(cpu)),
{
    cpu.regs.b = set_exec(cpu.regs.b, 3);
    cpu.cycles = 8;
}

/// SET 3, C.
pub open spec fn spec_set_3_c(o: Cpu, n: Cpu) -> bool {
    n == (Cpu { regs: Register { c: set_value(o.regs.c, 3), ..o.regs }, cycles: 8, ..o })
}

/// SET 3, C.
pub fn set_3_c(cpu: &mut Cpu)
    requires
        old(cpu).wf(),
    ensures
        final(cpu).wf(),
        spec_set_3_c(*old(cpu), *final(cpu)),
{
    cpu.regs.c = set_exec(cpu.regs.c, 3);
    cpu.cycles = 8;
}

/// SET 3, D.
pub open spec fn spec_set_3_d(o: Cpu, n: Cpu) -> bool {
    n == (Cpu { regs: Register { d: set_value(o.regs.d, 3), ..o.regs }, cycles: 8, ..o })
}

/// SET 3, D.
pub fn set_3_d(cpu: &mut Cpu)
    requires
        old(cpu).wf(),
    ensures
        final(cpu).wf(),
        spec_set_3_d(*old(cpu), *final(cpu)),
{
    cpu.regs.d = set_exec(cpu.regs.d, 3);
    cpu.cycles = 8;
}

/// SET 3, E.
pub open spec fn spec_set_3_e(o: Cpu, n: Cpu) -> bool {
    n == (Cpu { regs: Register { e: set_value(o.regs.e, 3), ..o.regs }, cycles: 8, ..o })
}

/// SET 3, E.
pub fn set_3_e(cpu: &mut Cpu)
    requires
        old(cpu).wf(),
    ensures
        final(cpu).wf(),
        spec_set_3_e(*old(cpu), *final(cpu)),
{
    cpu.regs.e = set_exec(cpu.regs.e, 3);
    cpu.cycles = 8;
}

/// SET 3, H.
pub open spec fn spec_set_3_h(o: Cpu, n: Cpu) -> bool {
    n == (Cpu { regs: Register { h: set_value(o.regs.h, 3), ..o.regs }, cycles: 8, ..o })
}

/// SET 3, H.
pub fn set_3_h(cpu: &mut Cpu)
    requires
        old(cpu).wf(),
    ensures
        final(cpu).wf(),
        spec_set_3_h(*old(cpu), *final(cpu)),
{
    cpu.regs.h = set_exec(cpu.regs.h, 3);
    cpu.cycles = 8;
}

/// SET 3, L.
pub open spec fn spec_set_3_l(o: Cpu, n: Cpu) -> bool {
    n == (Cpu { regs: Register { l: set_value(o.regs.l, 3), ..o.regs }, cycles: 8, ..o })
}

/// SET 3, L.
pub fn set_3_l(cpu: &mut Cpu)
    requires
        old(cpu).wf(),
    ensures
        final(cpu).wf(),
        spec_set_3_l(*old(cpu), *final(cpu)),
{
    cpu.regs.l = set_exec(cpu.regs.l, 3);
    cpu.cycles = 8;
}

/// SET 3, (HL).
pub open spec fn spec_set_3_mhl(o: Cpu, n: Cpu) -> bool {
    &&& n == (Cpu { bus: n.bus, cycles: 16, ..o })
    &&& o.bus.written(n.bus, o.regs.hl(), set_value(o.peek(o.regs.hl()), 3))
}

/// SET 3, (HL).
pub fn set_3_mhl(cpu: &mut Cpu)
    requires
        old(cpu).wf(),
    ensures
        final(cpu).wf(),
        spec_set_3_mhl(*old(cpu), *final(cpu)),
{
    let hl = cpu.regs.get_hl();
    let v = cpu.read(hl);
    let res = set_exec(v, 3);
    cpu.write(hl, res);
    cpu.cycles = 16;
}

/// SET 3, A.
pub open spec fn spec_set_3_a(o: Cpu, n: Cpu) -> bool {
    n == (Cpu { regs: Register { a: set_value(o.regs.a, 3), ..o.regs }, cycles: 8, ..o })
}

/// SET 3, A.
pub fn set_3_a(cpu: &mut Cpu)
    requires
        old(cpu).wf(),
    ensures
        final(cpu).wf(),
        spec_set_3_a(*old(cpu), *final(cpu)),
{
    cpu.regs.a = set_exec(cpu.regs.a, 3);
    cpu.cycles = 8;
}

/// SET 4, B.
pub open spec fn spec_set_4_b(o: Cpu, n: Cpu) -> bool {
    n == (Cpu { regs: Register { b: set_value(o.regs.b, 4), ..o.regs }, cycles: 8, ..o })
}

/// SET 4, B.
pub fn set_4_b(cpu: &mut Cpu)
    requires
        old(cpu).wf(),
    ensures
        final(cpu).wf(),
        spec_set_4_b(*old(cpu), *final(cpu)),
{
    cpu.regs.b = set_exec(cpu.regs.b, 4);
    cpu.cycles = 8;
}

/// SET 4, C.
pub open spec fn spec_set_4_c(o: Cpu, n: Cpu) -> bool {
    n == (Cpu { regs: Register { c: set_value(o.regs.c, 4), ..o.regs }, cycles: 8, ..o })
}

/// SET 4, C.
pub fn set_4_c(cpu: &mut Cpu)
    requires
        old(cpu).wf(),
    ensures
        final(cpu).wf(),
        spec_set_4_c(*old(cpu), *final(cpu)),
{
    cpu.regs.c = set_exec(cpu.regs.c, 4);
    cpu.cycles = 8;
}

/// SET 4, D.
pub open spec fn spec_set_4_d(o: Cpu, n: Cpu) -> bool {
    n == (Cpu { regs: Register { d: set_value(o.regs.d, 4), ..o.regs }, cycles: 8, ..o })
}

/// SET 4, D.
pub fn set_4_d(cpu: &mut Cpu)
    requires
        old(cpu).wf(),
    ensures
        final(cpu).wf(),
        spec_set_4_d(*old(cpu), *final(cpu)),
{
    cpu.regs.d = set_exec(cpu.regs.d, 4);
    cpu.cycles = 8;
}

/// SET 4, E.
pub open spec fn spec_set_4_e(o: Cpu, n: Cpu) -> bool {
    n == (Cpu { regs: Register { e: set_value(o.regs.e, 4), ..o.regs }, cycles: 8, ..o })
}

/// SET 4, E.
pub fn set_4_e(cpu: &mut Cpu)
    requires
        old(cpu).wf(),
    ensures
        final(cpu).wf(),
        spec_set_4_e(*old(cpu), *final(cpu)),
{
    cpu.regs.e = set_exec(cpu.regs.e, 4);
    cpu.cycles = 8;
}

/// SET 4, H.
pub open spec fn spec_set_4_h(o: Cpu, n: Cpu) -> bool {
    n == (Cpu { regs: Register { h: set_value(o.regs.h, 4), ..o.regs }, cycles: 8, ..o })
}

/// SET 4, H.
pub fn set_4_h(cpu: &mut Cpu)
    requires
        old(cpu).wf(),
    ensures
        final(cpu).wf(),
        spec_set_4_h(*old(cpu), *final(cpu)),
{
    cpu.regs.h = set_exec(cpu.regs.h, 4);
    cpu.cycles = 8;
}

/// SET 4, L.
pub open spec fn spec_set_4_l(o: Cpu, n: Cpu) -> bool {
    n == (Cpu { regs: Register { l: set_value(o.regs.l, 4), ..o.regs }, cycles: 8, ..o })
}

/// SET 4, L.
pub fn set_4_l(cpu: &mut Cpu)
    requires
        old(cpu).wf(),
    ensures
        final(cpu).wf(),
        spec_set_4_l(*old(cpu), *final(cpu)),
{
    cpu.regs.l = set_exec(cpu.regs.l, 4);
    cpu.cycles = 8;
}

/// SET 4, (HL).
pub open spec fn spec_set_4_mhl(o: Cpu, n: Cpu) -> bool {
    &&& n == (Cpu { bus: n.bus, cycles: 16, ..o })
    &&& o.bus.written(n.bus, o.regs.hl(), set_value(o.peek(o.regs.hl()), 4))
}

/// SET 4, (HL).
pub fn set_4_mhl(cpu: &mut Cpu)
    requires
        old(cpu).wf(),
    ensures
        final(cpu).wf(),
        spec_set_4_mhl(*old(cpu), *final(cpu)),
{
    let hl = cpu.regs.get_hl();
    let v = cpu.read(hl);
    let res = set_exec(v, 4);
    cpu.write(hl, res);
    cpu.cycles = 16;
}

/// SET 4, A.
pub open spec fn spec_set_4_a(o: Cpu, n: Cpu) -> bool {
    n == (Cpu { regs: Register { a: set_value(o.regs.a, 4), ..o.regs }, cycles: 8, ..o })
}

/// SET 4, A.
pub fn set_4_a(cpu: &mut Cpu)
    requires
        old(cpu).wf(),
    ensures
        final(cpu).wf(),
        spec_set_4_a(*old(cpu), *final(cpu)),
{
    cpu.regs.a = set_exec(cpu.regs.a, 4);
    cpu.cycles = 8;
}

/// SET 5, B.
pub open spec fn spec_set_5_b(o: Cpu, n: Cpu) -> bool {
    n == (Cpu { regs: Register { b: set_value(o.regs.b, 5), ..o.regs }, cycles: 8, ..o })
}

/// SET 5, B.
pub fn set_5_b(cpu: &mut Cpu)
    requires
        old(cpu).wf(),
    ensures
        final(cpu).wf(),
        spec_set_5_b(*old(cpu), *final(cpu)),
{
    cpu.regs.b = set_exec(cpu.regs.b, 5);
    cpu.cycles = 8;
}

/// SET 5, C.
pub open spec fn spec_set_5_c(o: Cpu, n: Cpu) -> bool {
    n == (Cpu { regs: Register { c: set_value(o.regs.c, 5), ..o.regs }, cycles: 8, ..o })
}

/// SET 5, C.
pub fn set_5_c(cpu: &mut Cpu)
    requires
        old(cpu).wf(),
    ensures
        final(cpu).wf(),
        spec_set_5_c(*old(cpu), *final(cpu)),
{
    cpu.regs.c = set_exec(cpu.regs.c, 5);
    cpu.cycles = 8;
}

/// SET 5, D.
pub open spec fn spec_set_5_d(o: Cpu, n: Cpu) -> bool {
    n == (Cpu { regs: Register { d: set_value(o.regs.d, 5), ..o.regs }, cycles: 8, ..o })
}

/// SET 5, D.
pub fn set_5_d(cpu: &mut Cpu)
    requires
        old(cpu).wf(),
    ensures
        final(cpu).wf(),
        spec_set_5_d(*old(cpu), *final(cpu)),
{
    cpu.regs.d = set_exec(cpu.regs.d, 5);
    cpu.cycles = 8;
}

/// SET 5, E.
pub open spec fn spec_set_5_e(o: Cpu, n: Cpu) -> bool {
    n == (Cpu { regs: Register { e: set_value(o.regs.e, 5), ..o.regs }, cycles: 8, ..o })
}

/// SET 5, E.
pub fn set_5_e(cpu: &mut Cpu)
    requires
        old(cpu).wf(),
    ensures
        final(cpu).wf(),
        spec_set_5_e(*old(cpu), *final(cpu)),
{
    cpu.regs.e = set_exec(cpu.regs.e, 5);
    cpu.cycles = 8;
}

/// SET 5, H.
pub open spec fn spec_set_5_h(o: Cpu, n: Cpu) -> bool {
    n == (Cpu { regs: Register { h: set_value(o.regs.h, 5), ..o.regs }, cycles: 8, ..o })
}

/// SET 5, H.
pub fn set_5_h(cpu: &mut Cpu)
    requires
        old(cpu).wf(),
    ensures
        final(cpu).wf(),
        spec_set_5_h(*old(cpu), *final(cpu)),
{
    cpu.regs.h = set_exec(cpu.regs.h, 5);
    cpu.cycles = 8;
}

/// SET 5, L.
pub open spec fn spec_set_5_l(o: Cpu, n: Cpu) -> bool {
    n == (Cpu { regs: Register { l: set_value(o.regs.l, 5), ..o.regs }, cycles: 8, ..o })
}

/// SET 5, L.
pub fn set_5_l(cpu: &mut Cpu)
    requires
        old(cpu).wf(),
    ensures
        final(cpu).wf(),
        spec_set_5_l(*old(cpu), *final(cpu)),
{
    cpu.regs.l = set_exec(cpu.regs.l, 5);
    cpu.cycles = 8;
}

/// SET 5, (HL).
pub open spec fn spec_set_5_mhl(o: Cpu, n: Cpu) -> bool {
    &&& n == (Cpu { bus: n.bus, cycles: 16, ..o })
    &&& o.bus.written(n.bus, o.regs.hl(), set_value(o.peek(o.regs.hl()), 5))
}

/// SET 5, (HL).
pub fn set_5_mhl(cpu: &mut Cpu)
    requires
        old(cpu).wf(),
    ensures
        final(cpu).wf(),
        spec_set_5_mhl(*old(cpu), *final(cpu)),
{
    let hl = cpu.regs.get_hl();
    let v = cpu.read(hl);
    let res = set_exec(v, 5);
    cpu.write(hl, res);
    cpu.cycles = 16;
}

/// SET 5, A.
pub open spec fn spec_set_5_a(o: Cpu, n: Cpu) -> bool {
    n == (Cpu { regs: Register { a: set_value(o.regs.a, 5), ..o.regs }, cycles: 8, ..o })
}

/// SET 5, A.
pub fn set_5_a(cpu: &mut Cpu)
    requires
        old(cpu).wf(),
    ensures
        final(cpu).wf(),
        spec_set_5_a(*old(cpu), *final(cpu)),
{
    cpu.regs.a = set_exec(cpu.regs.a, 5);
    cpu.cycles = 8;
}

/// SET 6, B.
pub open spec fn spec_set_6_b(o: Cpu, n: Cpu) -> bool {
    n == (Cpu { regs: Register { b: set_value(o.regs.b, 6), ..o.regs }, cycles: 8, ..o })
}

/// SET 6, B.
pub fn set_6_b(cpu: &mut Cpu)
    requires
        old(cpu).wf(),
    ensures
        final(cpu).wf(),
        spec_set_6_b(*old(cpu), *final(cpu)),
{
    cpu.regs.b = set_exec(cpu.regs.b, 6);
    cpu.cycles = 8;
}

/// SET 6, C.
pub open spec fn spec_set_6_c(o: Cpu, n: Cpu) -> bool {
    n == (Cpu { regs: Register { c: set_value(o.regs.c, 6), ..o.regs }, cycles: 8, ..o })
}

/// SET 6, C.
pub fn set_6_c(cpu: &mut Cpu)
    requires
        old(cpu).wf(),
    ensures
        final(cpu).wf(),
        spec_set_6_c(*old(cpu), *final(cpu)),
{
    cpu.regs.c = set_exec(cpu.regs.c, 6);
    cpu.cycles = 8;
}

/// SET 6, D.
pub open spec fn spec_set_6_d(o: Cpu, n: Cpu) -> bool {
    n == (Cpu { regs: Register { d: set_value(o.regs.d, 6), ..o.regs }, cycles: 8, ..o })
}

/// SET 6, D.
pub fn set_6_d(cpu: &mut Cpu)
    requires
        old(cpu).wf(),
    ensures
        final(cpu).wf(),
        spec_set_6_d(*old(cpu), *final(cpu)),
{
    cpu.regs.d = set_exec(cpu.regs.d, 6);
    cpu.cycles = 8;
}

/// SET 6, E.
pub open spec fn spec_set_6_e(o: Cpu, n: Cpu) -> bool {
    n == (Cpu { regs: Register { e: set_value(o.regs.e, 6), ..o.regs }, cycles: 8, ..o })
}

/// SET 6, E.
pub fn set_6_e(cpu: &mut Cpu)
    requires
        old(cpu).wf(),
    ensures
        final(cpu).wf(),
        spec_set_6_e(*old(cpu), *final(cpu)),
{
    cpu.regs.e = set_exec(cpu.regs.e, 6);
    cpu.cycles = 8;
}

/// SET 6, H.
pub open spec fn spec_set_6_h(o: Cpu, n: Cpu) -> bool {
    n == (Cpu { regs: Register { h: set_value(o.regs.h, 6), ..o.regs }, cycles: 8, ..o })
}

/// SET 6, H.
pub fn set_6_h(cpu: &mut Cpu)
    requires
        old(cpu).wf(),
    ensures
        final(cpu).wf(),
        spec_set_6_h(*old(cpu), *final(cpu)),
{
    cpu.regs.h = set_exec(cpu.regs.h, 6);
    cpu.cycles = 8;
}

/// SET 6, L.
pub open spec fn spec_set_6_l(o: Cpu, n: Cpu) -> bool {
    n == (Cpu { regs: Register { l: set_value(o.regs.l, 6), ..o.regs }, cycles: 8, ..o })
}

/// SET 6, L.
pub fn set_6_l(cpu: &mut Cpu)
    requires
        old(cpu).wf(),
    ensures
        final(cpu).wf(),
        spec_set_6_l(*old(cpu), *final(cpu)),
{
    cpu.regs.l = set_exec(cpu.regs.l, 6);
    cpu.cycles = 8;
}

/// SET 6, (HL).
pub open spec fn spec_set_6_mhl(o: Cpu, n: Cpu) -> bool {
    &&& n == (Cpu { bus: n.bus, cycles: 16, ..o })
    &&& o.bus.written(n.bus, o.regs.hl(), set_value(o.peek(o.regs.hl()), 6))
}

/// SET 6, (HL).
pub fn set_6_mhl(cpu: &mut Cpu)
    requires
        old(cpu).wf(),
    ensures
        final(cpu).wf(),
        spec_set_6_mhl(*old(cpu), *final(cpu)),
{
    let hl = cpu.regs.get_hl();
    let v = cpu.read(hl);
    let res = set_exec(v, 6);
    cpu.write(hl, res);
    cpu.cycles = 16;
}

/// SET 6, A.
pub open spec fn spec_set_6_a(o: Cpu, n: Cpu) -> bool {
    n == (Cpu { regs: Register { a: set_value(o.regs.a, 6), ..o.regs }, cycles: 8, ..o })
}

/// SET 6, A.
pub fn set_6_a(cpu: &mut Cpu)
    requires
        old(cpu).wf(),
    ensures
        final(cpu).wf(),
        spec_set_6_a(*old(cpu), *final(cpu)),
{
    cpu.regs.a = set_exec(cpu.regs.a, 6);
    cpu.cycles = 8;
}

/// SET 7, B.
pub open spec fn spec_set_7_b(o: Cpu, n: Cpu) -> bool {
    n == (Cpu { regs: Register { b: set_value(o.regs.b, 7), ..o.regs }, cycles: 8, ..o })
}

/// SET 7, B.
pub fn set_7_b(cpu: &mut Cpu)
    requires
        old(cpu).wf(),
    ensures
        final(cpu).wf(),
        spec_set_7_b(*old(cpu), *final(cpu)),
{
    cpu.regs.b = set_exec(cpu.regs.b, 7);
    cpu.cycles = 8;
}

/// SET 7, C.
pub open spec fn spec_set_7_c(o: Cpu, n: Cpu) -> bool {
    n == (Cpu { regs: Register { c: set_value(o.regs.c, 7), ..o.regs }, cycles: 8, ..o })
}

/// SET 7, C.
pub fn set_7_c(cpu: &mut Cpu)
    requires
        old(cpu).wf(),
    ensures
        final(cpu).wf(),
        spec_set_7_c(*old(cpu), *final(cpu)),
{
    cpu.regs.c = set_exec(cpu.regs.c, 7);
    cpu.cycles = 8;
}

/// SET 7, D.
pub open spec fn spec_set_7_d(o: Cpu, n: Cpu) -> bool {
    n == (Cpu { regs: Register { d: set_value(o.regs.d, 7), ..o.regs }, cycles: 8, ..o })
}

/// SET 7, D.
pub fn set_7_d(cpu: &mut Cpu)
    requires
        old(cpu).wf(),
    ensures
        final(cpu).wf(),
        spec_set_7_d(*old(cpu), *final(cpu)),
{
    cpu.regs.d = set_exec(cpu.regs.d, 7);
    cpu.cycles = 8;
}

/// SET 7, E.
pub open spec fn spec_set_7_e(o: Cpu, n: Cpu) -> bool {
    n == (Cpu { regs: Register { e: set_value(o.regs.e, 7), ..o.regs }, cycles: 8, ..o })
}

/// SET 7, E.
pub fn set_7_e(cpu: &mut Cpu)
    requires
        old(cpu).wf(),
    ensures
        final(cpu).wf(),
        spec_set_7_e(*old(cpu), *final(cpu)),
{
    cpu.regs.e = set_exec(cpu.regs.e, 7);
    cpu.cycles = 8;
}

/// SET 7, H.
pub open spec fn spec_set_7_h(o: Cpu, n: Cpu) -> bool {
    n == (Cpu { regs: Register { h: set_value(o.regs.h, 7), ..o.regs }, cycles: 8, ..o })
}

/// SET 7, H.
pub fn set_7_h(cpu: &mut Cpu)
    requires
        old(cpu).wf(),
    ensures
        final(cpu).wf(),
        spec_set_7_h(*old(cpu), *final(cpu)),
{
    cpu.regs.h = set_exec(cpu.regs.h, 7);
    cpu.cycles = 8;
}

/// SET 7, L.
pub open spec fn spec_set_7_l(o: Cpu, n: Cpu) -> bool {
    n == (Cpu { regs: Register { l: set_value(o.regs.l, 7), ..o.regs }, cycles: 8, ..o })
}

/// SET 7, L.
pub fn set_7_l(cpu: &mut Cpu)
    requires
        old(cpu).wf(),
    ensures
        final(cpu).wf(),
        spec_set_7_l(*old(cpu), *final(cpu)),
{
    cpu.regs.l = set_exec(cpu.regs.l, 7);
    cpu.cycles = 8;
}

/// SET 7, (HL).
pub open spec fn spec_set_7_mhl(o: Cpu, n: Cpu) -> bool {
    &&& n == (Cpu { bus: n.bus, cycles: 16, ..o })
    &&& o.bus.written(n.bus, o.regs.hl(), set_value(o.peek(o.regs.hl()), 7))
}

/// SET 7, (HL).
pub fn set_7_mhl(cpu: &mut Cpu)
    requires
        old(cpu).wf(),
    ensures
        final(cpu).wf(),
        spec_set_7_mhl(*old(cpu), *final(cpu)),
{
    let hl = cpu.regs.get_hl();
    let v = cpu.read(hl);
    let res = set_exec(v, 7);
    cpu.write(hl, res);
    cpu.cycles = 16;
}

/// SET 7, A.
pub open spec fn spec_set_7_a(o: Cpu, n: Cpu) -> bool {
    n == (Cpu { regs: Register { a: set_value(o.regs.a, 7), ..o.regs }, cycles: 8, ..o })
}

/// SET 7, A.
pub fn set_7_a(cpu: &mut Cpu)
    requires
        old(cpu).wf(),
    ensures
        final(cpu).wf(),
        spec_set_7_a(*old(cpu), *final(cpu)),
{
    cpu.regs.a = set_exec(cpu.regs.a, 7);
    cpu.cycles = 8;
}

/// The effect of running opcode `op` of the base table from state `o`.
pub open spec fn executed(op: u8, o: Cpu, n: Cpu) -> bool {
    match op {
        0x00 => spec_nop(o, n),
        0x01 => spec_ld_bc_u16(o, n),
        0x02 => spec_ld_mbc_a(o, n),
        0x03 => spec_inc_bc(o, n),
        0x04 => spec_inc_b(o, n),
        0x05 => spec_dec_b(o, n),
        0x06 => spec_ld_b_u8(o, n),
        0x07 => spec_rlca(o, n),
        0x08 => spec_ld_mu16_sp(o, n),
        0x09 => spec_add_hl_bc(o, n),
        0x0A => spec_ld_a_mbc(o, n),
        0x0B => spec_dec_bc(o, n),
        0x0C => spec_inc_c(o, n),
        0x0D => spec_dec_c(o, n),
        0x0E => spec_ld_c_u8(o, n),
        0x0F => spec_rrca(o, n),
        0x10 => spec_stop_u8(o, n),
        0x11 => spec_ld_de_u16(o, n),
        0x12 => spec_ld_mde_a(o, n),
        0x13 => spec_inc_de(o, n),
        0x14 => spec_inc_d(o, n),
        0x15 => spec_dec_d(o, n),
        0x16 => spec_ld_d_u8(o, n),
        0x17 => spec_rla(o, n),
        0x18 => spec_jr_i8(o, n),
        0x19 => spec_add_hl_de(o, n),
        0x1A => spec_ld_a_mde(o, n),
        0x1B => spec_dec_de(o, n),
        0x1C => spec_inc_e(o, n),
        0x1D => spec_dec_e(o, n),
        0x1E => spec_ld_e_u8(o, n),
        0x1F => spec_rra(o, n),
        0x20 => spec_jr_nz_i8(o, n),
        0x21 => spec_ld_hl_u16(o, n),
        0x22 => spec_ld_mhli_a(o, n),
        0x23 => spec_inc_hl(o, n),
        0x24 => spec_inc_h(o, n),
        0x25 => spec_dec_h(o, n),
        0x26 => spec_ld_h_u8(o, n),
        0x27 => spec_daa(o, n),
        0x28 => spec_jr_z_i8(o, n),
        0x29 => spec_add_hl_hl(o, n),
        0x2A => spec_ld_a_mhli(o, n),
        0x2B => spec_dec_hl(o, n),
        0x2C => spec_inc_l(o, n),
        0x2D => spec_dec_l(o, n),
        0x2E => spec_ld_l_u8(o, n),
        0x2F => spec_cpl(o, n),
        0x30 => spec_jr_nc_i8(o, n),
        0x31 => spec_ld_sp_u16(o, n),
        0x32 => spec_ld_mhld_a(o, n),
        0x33 => spec_inc_sp(o, n),
        0x34 => spec_inc_mhl(o, n),
        0x35 => spec_dec_mhl(o, n),
        0x36 => spec_ld_mhl_u8(o, n),
        0x37 => spec_scf(o, n),
        0x38 => spec_jr_c_i8(o, n),
        0x39 => spec_add_hl_sp(o, n),
        0x3A => spec_ld_a_mhld(o, n),
        0x3B => spec_dec_sp(o, n),
        0x3C => spec_inc_a(o, n),
        0x3D => spec_dec_a(o, n),
        0x3E => spec_ld_a_u8(o, n),
        0x3F => spec_ccf(o, n),
        0x40 => spec_ld_b_b(o, n),
        0x41 => spec_ld_b_c(o, n),
        0x42 => spec_ld_b_d(o, n),
        0x43 => spec_ld_b_e(o, n),
        0x44 => spec_ld_b_h(o, n),
        0x45 => spec_ld_b_l(o, n),
        0x46 => spec_ld_b_mhl(o, n),
        0x47 => spec_ld_b_a(o, n),
        0x48 => spec_ld_c_b(o, n),
        0x49 => spec_ld_c_c(o, n),
        0x4A => spec_ld_c_d(o, n),
        0x4B => spec_ld_c_e(o, n),
        0x4C => spec_ld_c_h(o, n),
        0x4D => spec_ld_c_l(o, n),
        0x4E => spec_ld_c_mhl(o, n),
        0x4F => spec_ld_c_a(o, n),
        0x50 => spec_ld_d_b(o, n),
        0x51 => spec_ld_d_c(o, n),
        0x52 => spec_ld_d_d(o, n),
        0x53 => spec_ld_d_e(o, n),
        0x54 => spec_ld_d_h(o, n),
        0x55 => spec_ld_d_l(o, n),
        0x56 => spec_ld_d_mhl(o, n),
        0x57 => spec_ld_d_a(o, n),
        0x58 => spec_ld_e_b(o, n),
        0x59 => spec_ld_e_c(o, n),
        0x5A => spec_ld_e_d(o, n),
        0x5B => spec_ld_e_e(o, n),
        0x5C => spec_ld_e_h(o, n),
        0x5D => spec_ld_e_l(o, n),
        0x5E => spec_ld_e_mhl(o, n),
        0x5F => spec_ld_e_a(o, n),
        0x60 => spec_ld_h_b(o, n),
        0x61 => spec_ld_h_c(o, n),
        0x62 => spec_ld_h_d(o, n),
        0x63 => spec_ld_h_e(o, n),
        0x64 => spec_ld_h_h(o, n),
        0x65 => spec_ld_h_l(o, n),
        0x66 => spec_ld_h_mhl(o, n),
        0x67 => spec_ld_h_a(o, n),
        0x68 => spec_ld_l_b(o, n),
        0x69 => spec_ld_l_c(o, n),
        0x6A => spec_ld_l_d(o, n),
        0x6B => spec_ld_l_e(o, n),
        0x6C => spec_ld_l_h(o, n),
        0x6D => spec_ld_l_l(o, n),
        0x6E => spec_ld_l_mhl(o, n),
        0x6F => spec_ld_l_a(o, n),
        0x70 => spec_ld_mhl_b(o, n),
        0x71 => spec_ld_mhl_c(o, n),
        0x72 => spec_ld_mhl_d(o, n),
        0x73 => spec_ld_mhl_e(o, n),
        0x74 => spec_ld_mhl_h(o, n),
        0x75 => spec_ld_mhl_l(o, n),
        0x76 => spec_halt(o, n),
        0x77 => spec_ld_mhl_a(o, n),
        0x78 => spec_ld_a_b(o, n),
        0x79 => spec_ld_a_c(o, n),
        0x7A => spec_ld_a_d(o, n),
        0x7B => spec_ld_a_e(o, n),
        0x7C => spec_ld_a_h(o, n),
        0x7D => spec_ld_a_l(o, n),
        0x7E => spec_ld_a_mhl(o, n),
        0x7F => spec_ld_a_a(o, n),
        0x80 => spec_add_a_b(o, n),
        0x81 => spec_add_a_c(o, n),
        0x82 => spec_add_a_d(o, n),
        0x83 => spec_add_a_e(o, n),
        0x84 => spec_add_a_h(o, n),
        0x85 => spec_add_a_l(o, n),
        0x86 => spec_add_a_mhl(o, n),
        0x87 => spec_add_a_a(o, n),
        0x88 => spec_adc_a_b(o, n),
        0x89 => spec_adc_a_c(o, n),
        0x8A => spec_adc_a_d(o, n),
        0x8B => spec_adc_a_e(o, n),
        0x8C => spec_adc_a_h(o, n),
        0x8D => spec_adc_a_l(o, n),
        0x8E => spec_adc_a_mhl(o, n),
        0x8F => spec_adc_a_a(o, n),
        0x90 => spec_sub_a_b(o, n),
        0x91 => spec_sub_a_c(o, n),
        0x92 => spec_sub_a_d(o, n),
        0x93 => spec_sub_a_e(o, n),
        0x94 => spec_sub_a_h(o, n),
        0x95 => spec_sub_a_l(o, n),
        0x96 => spec_sub_a_mhl(o, n),
        0x97 => spec_sub_a_a(o, n),
        0x98 => spec_sbc_a_b(o, n),
        0x99 => spec_sbc_a_c(o, n),
        0x9A => spec_sbc_a_d(o, n),
        0x9B => spec_sbc_a_e(o, n),
        0x9C => spec_sbc_a_h(o, n),
        0x9D => spec_sbc_a_l(o, n),
        0x9E => spec_sbc_a_mhl(o, n),
        0x9F => spec_sbc_a_a(o, n),
        0xA0 => spec_and_a_b(o, n),
        0xA1 => spec_and_a_c(o, n),
        0xA2 => spec_and_a_d(o, n),
        0xA3 => spec_and_a_e(o, n),
        0xA4 => spec_and_a_h(o, n),
        0xA5 => spec_and_a_l(o, n),
        0xA6 => spec_and_a_mhl(o, n),
        0xA7 => spec_and_a_a(o, n),
        0xA8 => spec_xor_a_b(o, n),
        0xA9 => spec_xor_a_c(o, n),
        0xAA => spec_xor_a_d(o, n),
        0xAB => spec_xor_a_e(o, n),
        0xAC => spec_xor_a_h(o, n),
        0xAD => spec_xor_a_l(o, n),
        0xAE => spec_xor_a_mhl(o, n),
        0xAF => spec_xor_a_a(o, n),
        0xB0 => spec_or_a_b(o, n),
        0xB1 => spec_or_a_c(o, n),
        0xB2 => spec_or_a_d(o, n),
        0xB3 => spec_or_a_e(o, n),
        0xB4 => spec_or_a_h(o, n),
        0xB5 => spec_or_a_l(o, n),
        0xB6 => spec_or_a_mhl(o, n),
        0xB7 => spec_or_a_a(o, n),
        0xB8 => spec_cp_a_b(o, n),
        0xB9 => spec_cp_a_c(o, n),
        0xBA => spec_cp_a_d(o, n),
        0xBB => spec_cp_a_e(o, n),
        0xBC => spec_cp_a_h(o, n),
        0xBD => spec_cp_a_l(o, n),
        0xBE => spec_cp_a_mhl(o, n),
        0xBF => spec_cp_a_a(o, n),
        0xC0 => spec_ret_nz(o, n),
        0xC1 => spec_pop_bc(o, n),
        0xC2 => spec_jp_nz_u16(o, n),
        0xC3 => spec_jp_u16(o, n),
        0xC4 => spec_call_nz_u16(o, n),
        0xC5 => spec_push_bc(o, n),
        0xC6 => spec_add_a_u8(o, n),
        0xC7 => spec_rst_00h(o, n),
        0xC8 => spec_ret_z(o, n),
        0xC9 => spec_ret(o, n),
        0xCA => spec_jp_z_u16(o, n),
        0xCB => spec_prefix_cb(o, n),
        0xCC => spec_call_z_u16(o, n),
        0xCD => spec_call_u16(o, n),
        0xCE => spec_adc_a_u8(o, n),
        0xCF => spec_rst_08h(o, n),
        0xD0 => spec_ret_nc(o, n),
        0xD1 => spec_pop_de(o, n),
        0xD2 => spec_jp_nc_u16(o, n),
        0xD3 => spec_illegal(o, n),
        0xD4 => spec_call_nc_u16(o, n),
        0xD5 => spec_push_de(o, n),
        0xD6 => spec_sub_a_u8(o, n),
        0xD7 => spec_rst_10h(o, n),
        0xD8 => spec_ret_c(o, n),
        0xD9 => spec_reti(o, n),
        0xDA => spec_jp_c_u16(o, n),
        0xDB => spec_illegal(o, n),
        0xDC => spec_call_c_u16(o, n),
        0xDD => spec_illegal(o, n),
        0xDE => spec_sbc_a_u8(o, n),
        0xDF => spec_rst_18h(o, n),
        0xE0 => spec_ld_mff00_u8_a(o, n),
        0xE1 => spec_pop_hl(o, n),
        0xE2 => spec_ld_mff00_c_a(o, n),
        0xE3 => spec_illegal(o, n),
        0xE4 => spec_illegal(o, n),
        0xE5 => spec_push_hl(o, n),
        0xE6 => spec_and_a_u8(o, n),
        0xE7 => spec_rst_20h(o, n),
        0xE8 => spec_add_sp_i8(o, n),
        0xE9 => spec_jp_hl(o, n),
        0xEA => spec_ld_mu16_a(o, n),
        0xEB => spec_illegal(o, n),
        0xEC => spec_illegal(o, n),
        0xED => spec_illegal(o, n),
        0xEE => spec_xor_a_u8(o, n),
        0xEF => spec_rst_28h(o, n),
        0xF0 => spec_ld_a_mff00u8(o, n),
        0xF1 => spec_pop_af(o, n),
        0xF2 => spec_ld_a_mff00_c(o, n),
        0xF3 => spec_di(o, n),
        0xF4 => spec_illegal(o, n),
        0xF5 => spec_push_af(o, n),
        0xF6 => spec_or_a_u8(o, n),
        0xF7 => spec_rst_30h(o, n),
        0xF8 => spec_ld_hl_sp_i8(o, n),
        0xF9 => spec_ld_sp_hl(o, n),
        0xFA => spec_ld_a_mu16(o, n),
        0xFB => spec_ei(o, n),
        0xFC => spec_illegal(o, n),
        0xFD => spec_illegal(o, n),
        0xFE => spec_cp_a_u8(o, n),
        0xFF => spec_rst_38h(o, n),
    }
}

/// The effect of running opcode `op` of the CB table from state `o`.
pub open spec fn executed_cb(op: u8, o: Cpu, n: Cpu) -> bool {
    match op {
        0x00 => spec_rlc_b(o, n),
        0x01 => spec_rlc_c(o, n),
        0x02 => spec_rlc_d(o, n),
        0x03 => spec_rlc_e(o, n),
        0x04 => spec_rlc_h(o, n),
        0x05 => spec_rlc_l(o, n),
        0x06 => spec_rlc_mhl(o, n),
        0x07 => spec_rlc_a(o, n),
        0x08 => spec_rrc_b(o, n),
        0x09 => spec_rrc_c(o, n),
        0x0A => spec_rrc_d(o, n),
        0x0B => spec_rrc_e(o, n),
        0x0C => spec_rrc_h(o, n),
        0x0D => spec_rrc_l(o, n),
        0x0E => spec_rrc_mhl(o, n),
        0x0F => spec_rrc_a(o, n),
        0x10 => spec_rl_b(o, n),
        0x11 => spec_rl_c(o, n),
        0x12 => spec_rl_d(o, n),
        0x13 => spec_rl_e(o, n),
        0x14 => spec_rl_h(o, n),
        0x15 => spec_rl_l(o, n),
        0x16 => spec_rl_mhl(o, n),
        0x17 => spec_rl_a(o, n),
        0x18 => spec_rr_b(o, n),
        0x19 => spec_rr_c(o, n),
        0x1A => spec_rr_d(o, n),
        0x1B => spec_rr_e(o, n),
        0x1C => spec_rr_h(o, n),
        0x1D => spec_rr_l(o, n),
        0x1E => spec_rr_mhl(o, n),
        0x1F => spec_rr_a(o, n),
        0x20 => spec_sla_b(o, n),
        0x21 => spec_sla_c(o, n),
        0x22 => spec_sla_d(o, n),
        0x23 => spec_sla_e(o, n),
        0x24 => spec_sla_h(o, n),
        0x25 => spec_sla_l(o, n),
        0x26 => spec_sla_mhl(o, n),
        0x27 => spec_sla_a(o, n),
        0x28 => spec_sra_b(o, n),
        0x29 => spec_sra_c(o, n),
        0x2A => spec_sra_d(o, n),
        0x2B => spec_sra_e(o, n),
        0x2C => spec_sra_h(o, n),
        0x2D => spec_sra_l(o, n),
        0x2E => spec_sra_mhl(o, n),
        0x2F => spec_sra_a(o, n),
        0x30 => spec_swap_b(o, n),
        0x31 => spec_swap_c(o, n),
        0x32 => spec_swap_d(o, n),
        0x33 => spec_swap_e(o, n),
        0x34 => spec_swap_h(o, n),
        0x35 => spec_swap_l(o, n),
        0x36 => spec_swap_mhl(o, n),
        0x37 => spec_swap_a(o, n),
        0x38 => spec_srl_b(o, n),
        0x39 => spec_srl_c(o, n),
        0x3A => spec_srl_d(o, n),
        0x3B => spec_srl_e(o, n),
        0x3C => spec_srl_h(o, n),
        0x3D => spec_srl_l(o, n),
        0x3E => spec_srl_mhl(o, n),
        0x3F => spec_srl_a(o, n),
        0x40 => spec_bit_0_b(o, n),
        0x41 => spec_bit_0_c(o, n),
        0x42 => spec_bit_0_d(o, n),
        0x43 => spec_bit_0_e(o, n),
        0x44 => spec_bit_0_h(o, n),
        0x45 => spec_bit_0_l(o, n),
        0x46 => spec_bit_0_mhl(o, n),
        0x47 => spec_bit_0_a(o, n),
        0x48 => spec_bit_1_b(o, n),
        0x49 => spec_bit_1_c(o, n),
        0x4A => spec_bit_1_d(o, n),
        0x4B => spec_bit_1_e(o, n),
        0x4C => spec_bit_1_h(o, n),
        0x4D => spec_bit_1_l(o, n),
        0x4E => spec_bit_1_mhl(o, n),
        0x4F => spec_bit_1_a(o, n),
        0x50 => spec_bit_2_b(o, n),
        0x51 => spec_bit_2_c(o, n),
        0x52 => spec_bit_2_d(o, n),
        0x53 => spec_bit_2_e(o, n),
        0x54 => spec_bit_2_h(o, n),
        0x55 => spec_bit_2_l(o, n),
        0x56 => spec_bit_2_mhl(o, n),
        0x57 => spec_bit_2_a(o, n),
        0x58 => spec_bit_3_b(o, n),
        0x59 => spec_bit_3_c(o, n),
        0x5A => spec_bit_3_d(o, n),
        0x5B => spec_bit_3_e(o, n),
        0x5C => spec_bit_3_h(o, n),
        0x5D => spec_bit_3_l(o, n),
        0x5E => spec_bit_3_mhl(o, n),
        0x5F => spec_bit_3_a(o, n),
        0x60 => spec_bit_4_b(o, n),
        0x61 => spec_bit_4_c(o, n),
        0x62 => spec_bit_4_d(o, n),
        0x63 => spec_bit_4_e(o, n),
        0x64 => spec_bit_4_h(o, n),
        0x65 => spec_bit_4_l(o, n),
        0x66 => spec_bit_4_mhl(o, n),
        0x67 => spec_bit_4_a(o, n),
        0x68 => spec_bit_5_b(o, n),
        0x69 => spec_bit_5_c(o, n),
        0x6A => spec_bit_5_d(o, n),
        0x6B => spec_bit_5_e(o, n),
        0x6C => spec_bit_5_h(o, n),
        0x6D => spec_bit_5_l(o, n),
        0x6E => spec_bit_5_mhl(o, n),
        0x6F => spec_bit_5_a(o, n),
        0x70 => spec_bit_6_b(o, n),
        0x71 => spec_bit_6_c(o, n),
        0x72 => spec_bit_6_d(o, n),
        0x73 => spec_bit_6_e(o, n),
        0x74 => spec_bit_6_h(o, n),
        0x75 => spec_bit_6_l(o, n),
        0x76 => spec_bit_6_mhl(o, n),
        0x77 => spec_bit_6_a(o, n),
        0x78 => spec_bit_7_b(o, n),
        0x79 => spec_bit_7_c(o, n),
        0x7A => spec_bit_7_d(o, n),
        0x7B => spec_bit_7_e(o, n),
        0x7C => spec_bit_7_h(o, n),
        0x7D => spec_bit_7_l(o, n),
        0x7E => spec_bit_7_mhl(o, n),
        0x7F => spec_bit_7_a(o, n),
        0x80 => spec_res_0_b(o, n),
        0x81 => spec_res_0_c(o, n),
        0x82 => spec_res_0_d(o, n),
        0x83 => spec_res_0_e(o, n),
        0x84 => spec_res_0_h(o, n),
        0x85 => spec_res_0_l(o, n),
        0x86 => spec_res_0_mhl(o, n),
        0x87 => spec_res_0_a(o, n),
        0x88 => spec_res_1_b(o, n),
        0x89 => spec_res_1_c(o, n),
        0x8A => spec_res_1_d(o, n),
        0x8B => spec_res_1_e(o, n),
        0x8C => spec_res_1_h(o, n),
        0x8D => spec_res_1_l(o, n),
        0x8E => spec_res_1_mhl(o, n),
        0x8F => spec_res_1_a(o, n),
        0x90 => spec_res_2_b(o, n),
        0x91 => spec_res_2_c(o, n),
        0x92 => spec_res_2_d(o, n),
        0x93 => spec_res_2_e(o, n),
        0x94 => spec_res_2_h(o, n),
        0x95 => spec_res_2_l(o, n),
        0x96 => spec_res_2_mhl(o, n),
        0x97 => spec_res_2_a(o, n),
        0x98 => spec_res_3_b(o, n),
        0x99 => spec_res_3_c(o, n),
        0x9A => spec_res_3_d(o, n),
        0x9B => spec_res_3_e(o, n),
        0x9C => spec_res_3_h(o, n),
        0x9D => spec_res_3_l(o, n),
        0x9E => spec_res_3_mhl(o, n),
        0x9F => spec_res_3_a(o, n),
        0xA0 => spec_res_4_b(o, n),
        0xA1 => spec_res_4_c(o, n),
        0xA2 => spec_res_4_d(o, n),
        0xA3 => spec_res_4_e(o, n),
        0xA4 => spec_res_4_h(o, n),
        0xA5 => spec_res_4_l(o, n),
        0xA6 => spec_res_4_mhl(o, n),
        0xA7 => spec_res_4_a(o, n),
        0xA8 => spec_res_5_b(o, n),
        0xA9 => spec_res_5_c(o, n),
        0xAA => spec_res_5_d(o, n),
        0xAB => spec_res_5_e(o, n),
        0xAC => spec_res_5_h(o, n),
        0xAD => spec_res_5_l(o, n),
        0xAE => spec_res_5_mhl(o, n),
        0xAF => spec_res_5_a(o, n),
        0xB0 => spec_res_6_b(o, n),
        0xB1 => spec_res_6_c(o, n),
        0xB2 => spec_res_6_d(o, n),
        0xB3 => spec_res_6_e(o, n),
        0xB4 => spec_res_6_h(o, n),
        0xB5 => spec_res_6_l(o, n),
        0xB6 => spec_res_6_mhl(o, n),
        0xB7 => spec_res_6_a(o, n),
        0xB8 => spec_res_7_b(o, n),
        0xB9 => spec_res_7_c(o, n),
        0xBA => spec_res_7_d(o, n),
        0xBB => spec_res_7_e(o, n),
        0xBC => spec_res_7_h(o, n),
        0xBD => spec_res_7_l(o, n),
        0xBE => spec_res_7_mhl(o, n),
        0xBF => spec_res_7_a(o, n),
        0xC0 => spec_set_0_b(o, n),
        0xC1 => spec_set_0_c(o, n),
        0xC2 => spec_set_0_d(o, n),
        0xC3 => spec_set_0_e(o, n),
        0xC4 => spec_set_0_h(o, n),
        0xC5 => spec_set_0_l(o, n),
        0xC6 => spec_set_0_mhl(o, n),
        0xC7 => spec_set_0_a(o, n),
        0xC8 => spec_set_1_b(o, n),
        0xC9 => spec_set_1_c(o, n),
        0xCA => spec_set_1_d(o, n),
        0xCB => spec_set_1_e(o, n),
        0xCC => spec_set_1_h(o, n),
        0xCD => spec_set_1_l(o, n),
        0xCE => spec_set_1_mhl(o, n),
        0xCF => spec_set_1_a(o, n),
        0xD0 => spec_set_2_b(o, n),
        0xD1 => spec_set_2_c(o, n),
        0xD2 => spec_set_2_d(o, n),
        0xD3 => spec_set_2_e(o, n),
        0xD4 => spec_set_2_h(o, n),
        0xD5 => spec_set_2_l(o, n),
        0xD6 => spec_set_2_mhl(o, n),
        0xD7 => spec_set_2_a(o, n),
        0xD8 => spec_set_3_b(o, n),
        0xD9 => spec_set_3_c(o, n),
        0xDA => spec_set_3_d(o, n),
        0xDB => spec_set_3_e(o, n),
        0xDC => spec_set_3_h(o, n),
        0xDD => spec_set_3_l(o, n),
        0xDE => spec_set_3_mhl(o, n),
        0xDF => spec_set_3_a(o, n),
        0xE0 => spec_set_4_b(o, n),
        0xE1 => spec_set_4_c(o, n),
        0xE2 => spec_set_4_d(o, n),
        0xE3 => spec_set_4_e(o, n),
        0xE4 => spec_set_4_h(o, n),
        0xE5 => spec_set_4_l(o, n),
        0xE6 => spec_set_4_mhl(o, n),
        0xE7 => spec_set_4_a(o, n),
        0xE8 => spec_set_5_b(o, n),
        0xE9 => spec_set_5_c(o, n),
        0xEA => spec_set_5_d(o, n),
        0xEB => spec_set_5_e(o, n),
        0xEC => spec_set_5_h(o, n),
        0xED => spec_set_5_l(o, n),
        0xEE => spec_set_5_mhl(o, n),
        0xEF => spec_set_5_a(o, n),
        0xF0 => spec_set_6_b(o, n),
        0xF1 => spec_set_6_c(o, n),
        0xF2 => spec_set_6_d(o, n),
        0xF3 => spec_set_6_e(o, n),
        0xF4 => spec_set_6_h(o, n),
        0xF5 => spec_set_6_l(o, n),
        0xF6 => spec_set_6_mhl(o, n),
        0xF7 => spec_set_6_a(o, n),
        0xF8 => spec_set_7_b(o, n),
        0xF9 => spec_set_7_c(o, n),
        0xFA => spec_set_7_d(o, n),
        0xFB => spec_set_7_e(o, n),
        0xFC => spec_set_7_h(o, n),
        0xFD => spec_set_7_l(o, n),
        0xFE => spec_set_7_mhl(o, n),
        0xFF => spec_set_7_a(o, n),
    }
}

/// Runs opcode `op` of the base table.
pub fn execute(cpu: &mut Cpu, op: u8)
    requires
        old(cpu).wf(),
    ensures
        final(cpu).wf(),
        executed(op, *old(cpu), *final(cpu)),
{
    match op {
        0x00 => nop(cpu),
        0x01 => ld_bc_u16(cpu),
        0x02 => ld_mbc_a(cpu),
        0x03 => inc_bc(cpu),
        0x04 => inc_b(cpu),
        0x05 => dec_b(cpu),
        0x06 => ld_b_u8(cpu),
        0x07 => rlca(cpu),
        0x08 => ld_mu16_sp(cpu),
        0x09 => add_hl_bc(cpu),
        0x0A => ld_a_mbc(cpu),
        0x0B => dec_bc(cpu),
        0x0C => inc_c(cpu),
        0x0D => dec_c(cpu),
        0x0E => ld_c_u8(cpu),
        0x0F => rrca(cpu),
        0x10 => stop_u8(cpu),
        0x11 => ld_de_u16(cpu),
        0x12 => ld_mde_a(cpu),
        0x13 => inc_de(cpu),
        0x14 => inc_d(cpu),
        0x15 => dec_d(cpu),
        0x16 => ld_d_u8(cpu),
        0x17 => rla(cpu),
        0x18 => jr_i8(cpu),
        0x19 => add_hl_de(cpu),
        0x1A => ld_a_mde(cpu),
        0x1B => dec_de(cpu),
        0x1C => inc_e(cpu),
        0x1D => dec_e(cpu),
        0x1E => ld_e_u8(cpu),
        0x1F => rra(cpu),
        0x20 => jr_nz_i8(cpu),
        0x21 => ld_hl_u16(cpu),
        0x22 => ld_mhli_a(cpu),
        0x23 => inc_hl(cpu),
        0x24 => inc_h(cpu),
        0x25 => dec_h(cpu),
        0x26 => ld_h_u8(cpu),
        0x27 => daa(cpu),
        0x28 => jr_z_i8(cpu),
        0x29 => add_hl_hl(cpu),
        0x2A => ld_a_mhli(cpu),
        0x2B => dec_hl(cpu),
        0x2C => inc_l(cpu),
        0x2D => dec_l(cpu),
        0x2E => ld_l_u8(cpu),
        0x2F => cpl(cpu),
        0x30 => jr_nc_i8(cpu),
        0x31 => ld_sp_u16(cpu),
        0x32 => ld_mhld_a(cpu),
        0x33 => inc_sp(cpu),
        0x34 => inc_mhl(cpu),
        0x35 => dec_mhl(cpu),
        0x36 => ld_mhl_u8(cpu),
        0x37 => scf(cpu),
        0x38 => jr_c_i8(cpu),
        0x39 => add_hl_sp(cpu),
        0x3A => ld_a_mhld(cpu),
        0x3B => dec_sp(cpu),
        0x3C => inc_a(cpu),
        0x3D => dec_a(cpu),
        0x3E => ld_a_u8(cpu),
        0x3F => ccf(cpu),
        0x40 => ld_b_b(cpu),
        0x41 => ld_b_c(cpu),
        0x42 => ld_b_d(cpu),
        0x43 => ld_b_e(cpu),
        0x44 => ld_b_h(cpu),
        0x45 => ld_b_l(cpu),
        0x46 => ld_b_mhl(cpu),
        0x47 => ld_b_a(cpu),
        0x48 => ld_c_b(cpu),
        0x49 => ld_c_c(cpu),
        0x4A => ld_c_d(cpu),
        0x4B => ld_c_e(cpu),
        0x4C => ld_c_h(cpu),
        0x4D => ld_c_l(cpu),
        0x4E => ld_c_mhl(cpu),
        0x4F => ld_c_a(cpu),
        0x50 => ld_d_b(cpu),
        0x51 => ld_d_c(cpu),
        0x52 => ld_d_d(cpu),
        0x53 => ld_d_e(cpu),
        0x54 => ld_d_h(cpu),
        0x55 => ld_d_l(cpu),
        0x56 => ld_d_mhl(cpu),
        0x57 => ld_d_a(cpu),
        0x58 => ld_e_b(cpu),
        0x59 => ld_e_c(cpu),
        0x5A => ld_e_d(cpu),
        0x5B => ld_e_e(cpu),
        0x5C => ld_e_h(cpu),
        0x5D => ld_e_l(cpu),
        0x5E => ld_e_mhl(cpu),
        0x5F => ld_e_a(cpu),
        0x60 => ld_h_b(cpu),
        0x61 => ld_h_c(cpu),
        0x62 => ld_h_d(cpu),
        0x63 => ld_h_e(cpu),
        0x64 => ld_h_h(cpu),
        0x65 => ld_h_l(cpu),
        0x66 => ld_h_mhl(cpu),
        0x67 => ld_h_a(cpu),
        0x68 => ld_l_b(cpu),
        0x69 => ld_l_c(cpu),
        0x6A => ld_l_d(cpu),
        0x6B => ld_l_e(cpu),
        0x6C => ld_l_h(cpu),
        0x6D => ld_l_l(cpu),
        0x6E => ld_l_mhl(cpu),
        0x6F => ld_l_a(cpu),
        0x70 => ld_mhl_b(cpu),
        0x71 => ld_mhl_c(cpu),
        0x72 => ld_mhl_d(cpu),
        0x73 => ld_mhl_e(cpu),
        0x74 => ld_mhl_h(cpu),
        0x75 => ld_mhl_l(cpu),
        0x76 => halt(cpu),
        0x77 => ld_mhl_a(cpu),
        0x78 => ld_a_b(cpu),
        0x79 => ld_a_c(cpu),
        0x7A => ld_a_d(cpu),
        0x7B => ld_a_e(cpu),
        0x7C => ld_a_h(cpu),
        0x7D => ld_a_l(cpu),
        0x7E => ld_a_mhl(cpu),
        0x7F => ld_a_a(cpu),
        0x80 => add_a_b(cpu),
        0x81 => add_a_c(cpu),
        0x82 => add_a_d(cpu),
        0x83 => add_a_e(cpu),
        0x84 => add_a_h(cpu),
        0x85 => add_a_l(cpu),
        0x86 => add_a_mhl(cpu),
        0x87 => add_a_a(cpu),
        0x88 => adc_a_b(cpu),
        0x89 => adc_a_c(cpu),
        0x8A => adc_a_d(cpu),
        0x8B => adc_a_e(cpu),
        0x8C => adc_a_h(cpu),
        0x8D => adc_a_l(cpu),
        0x8E => adc_a_mhl(cpu),
        0x8F => adc_a_a(cpu),
        0x90 => sub_a_b(cpu),
        0x91 => sub_a_c(cpu),
        0x92 => sub_a_d(cpu),
        0x93 => sub_a_e(cpu),
        0x94 => sub_a_h(cpu),
        0x95 => sub_a_l(cpu),
        0x96 => sub_a_mhl(cpu),
        0x97 => sub_a_a(cpu),
        0x98 => sbc_a_b(cpu),
        0x99 => sbc_a_c(cpu),
        0x9A => sbc_a_d(cpu),
        0x9B => sbc_a_e(cpu),
        0x9C => sbc_a_h(cpu),
        0x9D => sbc_a_l(cpu),
        0x9E => sbc_a_mhl(cpu),
        0x9F => sbc_a_a(cpu),
        0xA0 => and_a_b(cpu),
        0xA1 => and_a_c(cpu),
        0xA2 => and_a_d(cpu),
        0xA3 => and_a_e(cpu),
        0xA4 => and_a_h(cpu),
        0xA5 => and_a_l(cpu),
        0xA6 => and_a_mhl(cpu),
        0xA7 => and_a_a(cpu),
        0xA8 => xor_a_b(cpu),
        0xA9 => xor_a_c(cpu),
        0xAA => xor_a_d(cpu),
        0xAB => xor_a_e(cpu),
        0xAC => xor_a_h(cpu),
        0xAD => xor_a_l(cpu),
        0xAE => xor_a_mhl(cpu),
        0xAF => xor_a_a(cpu),
        0xB0 => or_a_b(cpu),
        0xB1 => or_a_c(cpu),
        0xB2 => or_a_d(cpu),
        0xB3 => or_a_e(cpu),
        0xB4 => or_a_h(cpu),
        0xB5 => or_a_l(cpu),
        0xB6 => or_a_mhl(cpu),
        0xB7 => or_a_a(cpu),
        0xB8 => cp_a_b(cpu),
        0xB9 => cp_a_c(cpu),
        0xBA => cp_a_d(cpu),
        0xBB => cp_a_e(cpu),
        0xBC => cp_a_h(cpu),
        0xBD => cp_a_l(cpu),
        0xBE => cp_a_mhl(cpu),
        0xBF => cp_a_a(cpu),
        0xC0 => ret_nz(cpu),
        0xC1 => pop_bc(cpu),
        0xC2 => jp_nz_u16(cpu),
        0xC3 => jp_u16(cpu),
        0xC4 => call_nz_u16(cpu),
        0xC5 => push_bc(cpu),
        0xC6 => add_a_u8(cpu),
        0xC7 => rst_00h(cpu),
        0xC8 => ret_z(cpu),
        0xC9 => ret(cpu),
        0xCA => jp_z_u16(cpu),
        0xCB => prefix_cb(cpu),
        0xCC => call_z_u16(cpu),
        0xCD => call_u16(cpu),
        0xCE => adc_a_u8(cpu),
        0xCF => rst_08h(cpu),
        0xD0 => ret_nc(cpu),
        0xD1 => pop_de(cpu),
        0xD2 => jp_nc_u16(cpu),
        0xD3 => illegal(cpu),
        0xD4 => call_nc_u16(cpu),
        0xD5 => push_de(cpu),
        0xD6 => sub_a_u8(cpu),
        0xD7 => rst_10h(cpu),
        0xD8 => ret_c(cpu),
        0xD9 => reti(cpu),
        0xDA => jp_c_u16(cpu),
        0xDB => illegal(cpu),
        0xDC => call_c_u16(cpu),
        0xDD => illegal(cpu),
        0xDE => sbc_a_u8(cpu),
        0xDF => rst_18h(cpu),
        0xE0 => ld_mff00_u8_a(cpu),
        0xE1 => pop_hl(cpu),
        0xE2 => ld_mff00_c_a(cpu),
        0xE3 => illegal(cpu),
        0xE4 => illegal(cpu),
        0xE5 => push_hl(cpu),
        0xE6 => and_a_u8(cpu),
        0xE7 => rst_20h(cpu),
        0xE8 => add_sp_i8(cpu),
        0xE9 => jp_hl(cpu),
        0xEA => ld_mu16_a(cpu),
        0xEB => illegal(cpu),
        0xEC => illegal(cpu),
        0xED => illegal(cpu),
        0xEE => xor_a_u8(cpu),
        0xEF => rst_28h(cpu),
        0xF0 => ld_a_mff00u8(cpu),
        0xF1 => pop_af(cpu),
        0xF2 => ld_a_mff00_c(cpu),
        0xF3 => di(cpu),
        0xF4 => illegal(cpu),
        0xF5 => push_af(cpu),
        0xF6 => or_a_u8(cpu),
        0xF7 => rst_30h(cpu),
        0xF8 => ld_hl_sp_i8(cpu),
        0xF9 => ld_sp_hl(cpu),
        0xFA => ld_a_mu16(cpu),
        0xFB => ei(cpu),
        0xFC => illegal(cpu),
        0xFD => illegal(cpu),
        0xFE => cp_a_u8(cpu),
        0xFF => rst_38h(cpu),
    }
}

/// Runs opcode `op` of the CB table.
pub fn execute_cb(cpu: &mut Cpu, op: u8)
    requires
        old(cpu).wf(),
    ensures
        final(cpu).wf(),
        executed_cb(op, *old(cpu), *final(cpu)),
{
    match op {
        0x00 => rlc_b(cpu),
        0x01 => rlc_c(cpu),
        0x02 => rlc_d(cpu),
        0x03 => rlc_e(cpu),
        0x04 => rlc_h(cpu),
        0x05 => rlc_l(cpu),
        0x06 => rlc_mhl(cpu),
        0x07 => rlc_a(cpu),
        0x08 => rrc_b(cpu),
        0x09 => rrc_c(cpu),
        0x0A => rrc_d(cpu),
        0x0B => rrc_e(cpu),
        0x0C => rrc_h(cpu),
        0x0D => rrc_l(cpu),
        0x0E => rrc_mhl(cpu),
        0x0F => rrc_a(cpu),
        0x10 => rl_b(cpu),
        0x11 => rl_c(cpu),
        0x12 => rl_d(cpu),
        0x13 => rl_e(cpu),
        0x14 => rl_h(cpu),
        0x15 => rl_l(cpu),
        0x16 => rl_mhl(cpu),
        0x17 => rl_a(cpu),
        0x18 => rr_b(cpu),
        0x19 => rr_c(cpu),
        0x1A => rr_d(cpu),
        0x1B => rr_e(cpu),
        0x1C => rr_h(cpu),
        0x1D => rr_l(cpu),
        0x1E => rr_mhl(cpu),
        0x1F => rr_a(cpu),
        0x20 => sla_b(cpu),
        0x21 => sla_c(cpu),
        0x22 => sla_d(cpu),
        0x23 => sla_e(cpu),
        0x24 => sla_h(cpu),
        0x25 => sla_l(cpu),
        0x26 => sla_mhl(cpu),
        0x27 => sla_a(cpu),
        0x28 => sra_b(cpu),
        0x29 => sra_c(cpu),
        0x2A => sra_d(cpu),
        0x2B => sra_e(cpu),
        0x2C => sra_h(cpu),
        0x2D => sra_l(cpu),
        0x2E => sra_mhl(cpu),
        0x2F => sra_a(cpu),
        0x30 => swap_b(cpu),
        0x31 => swap_c(cpu),
        0x32 => swap_d(cpu),
        0x33 => swap_e(cpu),
        0x34 => swap_h(cpu),
        0x35 => swap_l(cpu),
        0x36 => swap_mhl(cpu),
        0x37 => swap_a(cpu),
        0x38 => srl_b(cpu),
        0x39 => srl_c(cpu),
        0x3A => srl_d(cpu),
        0x3B => srl_e(cpu),
        0x3C => srl_h(cpu),
        0x3D => srl_l(cpu),
        0x3E => srl_mhl(cpu),
        0x3F => srl_a(cpu),
        0x40 => bit_0_b(cpu),
        0x41 => bit_0_c(cpu),
        0x42 => bit_0_d(cpu),
        0x43 => bit_0_e(cpu),
        0x44 => bit_0_h(cpu),
        0x45 => bit_0_l(cpu),
        0x46 => bit_0_mhl(cpu),
        0x47 => bit_0_a(cpu),
        0x48 => bit_1_b(cpu),
        0x49 => bit_1_c(cpu),
        0x4A => bit_1_d(cpu),
        0x4B => bit_1_e(cpu),
        0x4C => bit_1_h(cpu),
        0x4D => bit_1_l(cpu),
        0x4E => bit_1_mhl(cpu),
        0x4F => bit_1_a(cpu),
        0x50 => bit_2_b(cpu),
        0x51 => bit_2_c(cpu),
        0x52 => bit_2_d(cpu),
        0x53 => bit_2_e(cpu),
        0x54 => bit_2_h(cpu),
        0x55 => bit_2_l(cpu),
        0x56 => bit_2_mhl(cpu),
        0x57 => bit_2_a(cpu),
        0x58 => bit_3_b(cpu),
        0x59 => bit_3_c(cpu),
        0x5A => bit_3_d(cpu),
        0x5B => bit_3_e(cpu),
        0x5C => bit_3_h(cpu),
        0x5D => bit_3_l(cpu),
        0x5E => bit_3_mhl(cpu),
        0x5F => bit_3_a(cpu),
        0x60 => bit_4_b(cpu),
        0x61 => bit_4_c(cpu),
        0x62 => bit_4_d(cpu),
        0x63 => bit_4_e(cpu),
        0x64 => bit_4_h(cpu),
        0x65 => bit_4_l(cpu),
        0x66 => bit_4_mhl(cpu),
        0x67 => bit_4_a(cpu),
        0x68 => bit_5_b(cpu),
        0x69 => bit_5_c(cpu),
        0x6A => bit_5_d(cpu),
        0x6B => bit_5_e(cpu),
        0x6C => bit_5_h(cpu),
        0x6D => bit_5_l(cpu),
        0x6E => bit_5_mhl(cpu),
        0x6F => bit_5_a(cpu),
        0x70 => bit_6_b(cpu),
        0x71 => bit_6_c(cpu),
        0x72 => bit_6_d(cpu),
        0x73 => bit_6_e(cpu),
        0x74 => bit_6_h(cpu),
        0x75 => bit_6_l(cpu),
        0x76 => bit_6_mhl(cpu),
        0x77 => bit_6_a(cpu),
        0x78 => bit_7_b(cpu),
        0x79 => bit_7_c(cpu),
        0x7A => bit_7_d(cpu),
        0x7B => bit_7_e(cpu),
        0x7C => bit_7_h(cpu),
        0x7D => bit_7_l(cpu),
        0x7E => bit_7_mhl(cpu),
        0x7F => bit_7_a(cpu),
        0x80 => res_0_b(cpu),
        0x81 => res_0_c(cpu),
        0x82 => res_0_d(cpu),
        0x83 => res_0_e(cpu),
        0x84 => res_0_h(cpu),
        0x85 => res_0_l(cpu),
        0x86 => res_0_mhl(cpu),
        0x87 => res_0_a(cpu),
        0x88 => res_1_b(cpu),
        0x89 => res_1_c(cpu),
        0x8A => res_1_d(cpu),
        0x8B => res_1_e(cpu),
        0x8C => res_1_h(cpu),
        0x8D => res_1_l(cpu),
        0x8E => res_1_mhl(cpu),
        0x8F => res_1_a(cpu),
        0x90 => res_2_b(cpu),
        0x91 => res_2_c(cpu),
        0x92 => res_2_d(cpu),
        0x93 => res_2_e(cpu),
        0x94 => res_2_h(cpu),
        0x95 => res_2_l(cpu),
        0x96 => res_2_mhl(cpu),
        0x97 => res_2_a(cpu),
        0x98 => res_3_b(cpu),
        0x99 => res_3_c(cpu),
        0x9A => res_3_d(cpu),
        0x9B => res_3_e(cpu),
        0x9C => res_3_h(cpu),
        0x9D => res_3_l(cpu),
        0x9E => res_3_mhl(cpu),
        0x9F => res_3_a(cpu),
        0xA0 => res_4_b(cpu),
        0xA1 => res_4_c(cpu),
        0xA2 => res_4_d(cpu),
        0xA3 => res_4_e(cpu),
        0xA4 => res_4_h(cpu),
        0xA5 => res_4_l(cpu),
        0xA6 => res_4_mhl(cpu),
        0xA7 => res_4_a(cpu),
        0xA8 => res_5_b(cpu),
        0xA9 => res_5_c(cpu),
        0xAA => res_5_d(cpu),
        0xAB => res_5_e(cpu),
        0xAC => res_5_h(cpu),
        0xAD => res_5_l(cpu),
        0xAE => res_5_mhl(cpu),
        0xAF => res_5_a(cpu),
        0xB0 => res_6_b(cpu),
        0xB1 => res_6_c(cpu),
        0xB2 => res_6_d(cpu),
        0xB3 => res_6_e(cpu),
        0xB4 => res_6_h(cpu),
        0xB5 => res_6_l(cpu),
        0xB6 => res_6_mhl(cpu),
        0xB7 => res_6_a(cpu),
        0xB8 => res_7_b(cpu),
        0xB9 => res_7_c(cpu),
        0xBA => res_7_d(cpu),
        0xBB => res_7_e(cpu),
        0xBC => res_7_h(cpu),
        0xBD => res_7_l(cpu),
        0xBE => res_7_mhl(cpu),
        0xBF => res_7_a(cpu),
        0xC0 => set_0_b(cpu),
        0xC1 => set_0_c(cpu),
        0xC2 => set_0_d(cpu),
        0xC3 => set_0_e(cpu),
        0xC4 => set_0_h(cpu),
        0xC5 => set_0_l(cpu),
        0xC6 => set_0_mhl(cpu),
        0xC7 => set_0_a(cpu),
        0xC8 => set_1_b(cpu),
        0xC9 => set_1_c(cpu),
        0xCA => set_1_d(cpu),
        0xCB => set_1_e(cpu),
        0xCC => set_1_h(cpu),
        0xCD => set_1_l(cpu),
        0xCE => set_1_mhl(cpu),
        0xCF => set_1_a(cpu),
        0xD0 => set_2_b(cpu),
        0xD1 => set_2_c(cpu),
        0xD2 => set_2_d(cpu),
        0xD3 => set_2_e(cpu),
        0xD4 => set_2_h(cpu),
        0xD5 => set_2_l(cpu),
        0xD6 => set_2_mhl(cpu),
        0xD7 => set_2_a(cpu),
        0xD8 => set_3_b(cpu),
        0xD9 => set_3_c(cpu),
        0xDA => set_3_d(cpu),
        0xDB => set_3_e(cpu),
        0xDC => set_3_h(cpu),
        0xDD => set_3_l(cpu),
        0xDE => set_3_mhl(cpu),
        0xDF => set_3_a(cpu),
        0xE0 => set_4_b(cpu),
        0xE1 => set_4_c(cpu),
        0xE2 => set_4_d(cpu),
        0xE3 => set_4_e(cpu),
        0xE4 => set_4_h(cpu),
        0xE5 => set_4_l(cpu),
        0xE6 => set_4_mhl(cpu),
        0xE7 => set_4_a(cpu),
        0xE8 => set_5_b(cpu),
        0xE9 => set_5_c(cpu),
        0xEA => set_5_d(cpu),
        0xEB => set_5_e(cpu),
        0xEC => set_5_h(cpu),
        0xED => set_5_l(cpu),
        0xEE => set_5_mhl(cpu),
        0xEF => set_5_a(cpu),
        0xF0 => set_6_b(cpu),
        0xF1 => set_6_c(cpu),
        0xF2 => set_6_d(cpu),
        0xF3 => set_6_e(cpu),
        0xF4 => set_6_h(cpu),
        0xF5 => set_6_l(cpu),
        0xF6 => set_6_mhl(cpu),
        0xF7 => set_6_a(cpu),
        0xF8 => set_7_b(cpu),
        0xF9 => set_7_c(cpu),
        0xFA => set_7_d(cpu),
        0xFB => set_7_e(cpu),
        0xFC => set_7_h(cpu),
        0xFD => set_7_l(cpu),
        0xFE => set_7_mhl(cpu),
        0xFF => set_7_a(cpu),
    }
}

} // verus!
