//! Laws that tie instructions together: what one leaves on the stack or in
//! memory, the next one reads back.
use vstd::prelude::*;
use crate::alu::rel_target;
use crate::bus::{Bus, WRAM_SIZE};
use crate::cpu::{adv, clocked, pushed, wrap16, wrote2, Cpu};
use crate::handler::{spec_call_u16, spec_ld_mu16_sp, spec_pop_bc, spec_push_bc, spec_ret};
use crate::register::{hi_byte, lo_byte, word};

verus! {

/// In work RAM (0xC000..=0xDFFF) a write of `v` to `a` is read back at `a`
/// and leaves every other work-RAM address as it was.
pub proof fn lemma_wram_write_read(b0: Bus, b1: Bus, a: u16, v: u8, x: u16)
    requires
        b0.written(b1, a, v),
        b0.wram@.len() == WRAM_SIZE,
        0xC000 <= a < 0xE000,
        0xC000 <= x < 0xE000,
    ensures
        b1.wram@.len() == WRAM_SIZE,
        b1.read_spec(x) == if x == a {
            v
        } else {
            b0.read_spec(x)
        },
{
    reveal(Bus::written);
}

/// Pushing a word with SP in work RAM puts its high byte at SP - 1 and its
/// low byte at SP - 2.
pub proof fn lemma_push_in_wram(b0: Bus, b2: Bus, sp: u16, v: u16)
    requires
        pushed(b0, b2, sp, v),
        b0.wf(),
        0xC002 <= sp <= 0xE000,
    ensures
        b2.read_spec((sp - 1) as u16) == hi_byte(v),
        b2.read_spec((sp - 2) as u16) == lo_byte(v),
{
    let b1 = choose|b1: Bus|
        #[trigger] b0.written(b1, wrap16(sp + 65535), hi_byte(v)) && b1.written(
            b2,
            wrap16(sp + 65534),
            lo_byte(v),
        );
    assert(wrap16(sp + 65535) == (sp - 1) as u16);
    assert(wrap16(sp + 65534) == (sp - 2) as u16);
    lemma_wram_write_read(b0, b1, (sp - 1) as u16, hi_byte(v), (sp - 1) as u16);
    lemma_wram_write_read(b1, b2, (sp - 2) as u16, lo_byte(v), (sp - 1) as u16);
    lemma_wram_write_read(b1, b2, (sp - 2) as u16, lo_byte(v), (sp - 2) as u16);
}

/// CALL u16 pushes the address of the byte after its operand and jumps to
/// the operand; a RET right after returns there with SP restored (stack in
/// work RAM).
pub proof fn lemma_call_then_ret(o: Cpu, m: Cpu, n: Cpu)
    requires
        o.wf(),
        spec_call_u16(o, m),
        spec_ret(m, n),
        0xC002 <= o.regs.sp <= 0xE000,
    ensures
        m.regs.pc == o.imm16(),
        m.regs.sp == o.regs.sp - 2,
        m.peek((o.regs.sp - 1) as u16) == hi_byte(wrap16(o.regs.pc + 2)),
        m.peek((o.regs.sp - 2) as u16) == lo_byte(wrap16(o.regs.pc + 2)),
        n.regs.pc == wrap16(o.regs.pc + 2),
        n.regs.sp == o.regs.sp,
{
    lemma_push_in_wram(o.bus, m.bus, o.regs.sp, wrap16(o.regs.pc + 2));
    assert(wrap16(o.regs.sp + 65534) == (o.regs.sp - 2) as u16);
    assert(wrap16(m.regs.sp + 1) == (o.regs.sp - 1) as u16);
}

/// PUSH BC then POP BC gives back BC and SP and leaves the flags alone
/// (stack in work RAM).
pub proof fn lemma_push_then_pop(o: Cpu, m: Cpu, n: Cpu)
    requires
        o.wf(),
        spec_push_bc(o, m),
        spec_pop_bc(m, n),
        0xC002 <= o.regs.sp <= 0xE000,
    ensures
        n.regs.bc() == o.regs.bc(),
        n.regs.b == o.regs.b && n.regs.c == o.regs.c,
        n.regs.sp == o.regs.sp,
        n.regs.zf == o.regs.zf && n.regs.nf == o.regs.nf && n.regs.hf == o.regs.hf && n.regs.cf
            == o.regs.cf,
{
    lemma_push_in_wram(o.bus, m.bus, o.regs.sp, o.regs.bc());
    assert(wrap16(o.regs.sp + 65534) == (o.regs.sp - 2) as u16);
    assert(wrap16(m.regs.sp + 1) == (o.regs.sp - 1) as u16);
}

/// LD (u16), SP stores SP's low byte at the operand address and its high
/// byte after it, and moves PC past the operand (target in work RAM).
pub proof fn lemma_store_sp(o: Cpu, n: Cpu)
    requires
        o.wf(),
        spec_ld_mu16_sp(o, n),
        0xC000 <= o.imm16() < 0xDFFF,
    ensures
        n.peek(o.imm16()) == lo_byte(o.regs.sp),
        n.peek((o.imm16() + 1) as u16) == hi_byte(o.regs.sp),
        n.regs.pc == wrap16(o.regs.pc + 2),
        n.regs.sp == o.regs.sp,
{
    let a = o.imm16();
    let b1 = choose|b1: Bus|
        #[trigger] o.bus.written(b1, a, lo_byte(o.regs.sp)) && b1.written(
            n.bus,
            wrap16(a + 1),
            hi_byte(o.regs.sp),
        );
    assert(wrap16(a + 1) == (a + 1) as u16);
    lemma_wram_write_read(o.bus, b1, a, lo_byte(o.regs.sp), a);
    lemma_wram_write_read(b1, n.bus, (a + 1) as u16, hi_byte(o.regs.sp), a);
    lemma_wram_write_read(b1, n.bus, (a + 1) as u16, hi_byte(o.regs.sp), (a + 1) as u16);
}

/// One instruction slot on JR NZ, i8 (opcode 0x20), with nothing pending or
/// IME clear: taken when Z is clear, to the next instruction plus the signed
/// offset, in 12 cycles; else on to the next instruction in 8.
pub proof fn lemma_clock_jr_nz(o: Cpu, n: Cpu)
    requires
        clocked(o, n),
        !o.locked && !o.halted && !o.halt_bug,
        !o.ime || o.pending_interrupt() is None,
        o.peek(o.regs.pc) == 0x20,
    ensures
        n.cycles == (if !o.regs.zf { 12u8 } else { 8u8 }),
        n.regs.pc == (if !o.regs.zf {
            rel_target(wrap16(o.regs.pc + 2), o.peek(wrap16(o.regs.pc + 1)))
        } else {
            wrap16(o.regs.pc + 2)
        }),
{
    reveal(clocked);
    let s = Cpu { regs: adv(o.regs, 1), ..o };
    assert(s.imm8() == o.peek(wrap16(o.regs.pc + 1)));
    assert(wrap16(s.regs.pc + 1) == wrap16(o.regs.pc + 2));
}

} // verus!
