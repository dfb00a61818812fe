//! The processor: its state, memory access through the bus, and the
//! per-instruction-slot clock.
use vstd::prelude::*;
use crate::bus::Bus;
use crate::handler::{execute, executed};
use crate::interrupt::{pending, pending_spec, vector_of, Interrupt, InterruptFlags};
use crate::register::{hi_byte, lo_byte, make_word, split_word, word, Register};

verus! {

/// The byte that selects the second instruction table.
pub const PREFIX: u8 = 0xCB;

/// Cycles taken to serve an interrupt.
pub const INTERRUPT_CYCLES: u8 = 20;

/// `x` reduced to 16 bits.
pub open spec fn wrap16(x: int) -> u16 {
    (x % 65536) as u16
}

/// `r` with PC moved `n` bytes on.
pub open spec fn adv(r: Register, n: int) -> Register {
    Register { pc: wrap16(r.pc + n), ..r }
}

/// `b2` is `b0` after writing `v1` to `a1` and then `v2` to `a2`.
pub open spec fn wrote2(b0: Bus, b2: Bus, a1: u16, v1: u8, a2: u16, v2: u8) -> bool {
    exists|b1: Bus| #[trigger] b0.written(b1, a1, v1) && b1.written(b2, a2, v2)
}

/// `b2` is `b0` after pushing `v` on a stack whose pointer was `sp`: high
/// byte at `sp - 1`, low byte at `sp - 2`.
pub open spec fn pushed(b0: Bus, b2: Bus, sp: u16, v: u16) -> bool {
    wrote2(b0, b2, wrap16(sp + 65535), hi_byte(v), wrap16(sp + 65534), lo_byte(v))
}

/// `n` is `o` after serving interrupt `i`: PC pushed, IME off, the request
/// bit of `i` cleared, PC at the vector, 20 cycles.
pub open spec fn dispatched(o: Cpu, n: Cpu, i: Interrupt) -> bool {
    &&& exists|mid: Bus|
        pushed(o.bus, mid, o.regs.sp, o.regs.pc) && #[trigger] n.bus == (Bus {
            int_flags: mid.int_flags.with(i, false),
            ..mid
        })
    &&& n == (Cpu {
        regs: Register { sp: wrap16(o.regs.sp + 65534), pc: vector_of(i), ..o.regs },
        bus: n.bus,
        ime: false,
        halted: false,
        cycles: INTERRUPT_CYCLES,
        ..o
    })
}

/// What one instruction slot does, as far as its starting state decides it.
#[verifier::opaque]
pub open spec fn clocked(o: Cpu, n: Cpu) -> bool {
    &&& n.wf()
    &&& (o.locked ==> n == (Cpu { cycles: 4, ..o }))
    &&& (!o.locked && o.ime && o.pending_interrupt() is Some ==> dispatched(
        o,
        n,
        o.pending_interrupt().unwrap(),
    ))
    &&& (!o.locked && o.halted && o.pending_interrupt() is None ==> n == (Cpu { cycles: 4, ..o }))
    &&& (!o.locked && !o.halted && o.pending_interrupt() is None && !o.halt_bug ==> executed(
        o.imm8(),
        Cpu { regs: adv(o.regs, 1), ..o },
        n,
    ))
    &&& (!o.locked && !o.halted && !o.ime && !o.halt_bug ==> executed(
        o.imm8(),
        Cpu { regs: adv(o.regs, 1), ..o },
        n,
    ))
    &&& (!o.locked && o.halted && !o.ime && !o.halt_bug && o.pending_interrupt() is Some
        ==> executed(o.imm8(), Cpu { regs: adv(o.regs, 1), halted: false, ..o }, n))
    &&& (!o.locked && !o.halted && o.halt_bug && !(o.ime && o.pending_interrupt() is Some)
        ==> executed(o.imm8(), Cpu { halt_bug: false, ..o }, n))
}

/// The processor and everything it reaches through its bus.
pub struct Cpu {
    pub regs: Register,
    pub bus: Bus,
    /// Interrupt master enable.
    pub ime: bool,
    /// Waiting for an interrupt after HALT or STOP.
    pub halted: bool,
    /// HALT ran with IME clear and an interrupt pending: the next opcode
    /// byte is read without moving PC, so it runs twice.
    pub halt_bug: bool,
    /// An illegal opcode ran; the processor no longer executes anything.
    pub locked: bool,
    /// Cycles taken by the last instruction.
    pub cycles: u8,
}

impl Cpu {
    pub open spec fn wf(&self) -> bool {
        self.bus.wf()
    }

    /// The byte at `addr`, as the bus reads it.
    pub open spec fn peek(&self, addr: u16) -> u8 {
        self.bus.read_spec(addr)
    }

    /// The byte after the opcode.
    pub open spec fn imm8(&self) -> u8 {
        self.peek(self.regs.pc)
    }

    /// The little-endian word after the opcode.
    pub open spec fn imm16(&self) -> u16 {
        word(self.peek(wrap16(self.regs.pc + 1)), self.peek(self.regs.pc))
    }

    /// The word on top of the stack.
    pub open spec fn top(&self) -> u16 {
        word(self.peek(wrap16(self.regs.sp + 1)), self.peek(self.regs.sp))
    }

    /// The interrupt that would be served now, if IME allowed it.
    pub open spec fn pending_interrupt(&self) -> Option<Interrupt> {
        pending_spec(self.bus.int_flags, self.bus.enabled())
    }

    /// A processor with the register values the boot ROM leaves behind.
    pub fn new(bus: Bus) -> (r: Cpu)
        requires
            bus.wf(),
        ensures
            r.wf(),
            r.bus == bus,
            r.regs == Register::post_boot(),
            !r.ime && !r.halted && !r.halt_bug && !r.locked,
    {
        Cpu {
            regs: Register::new(),
            bus,
            ime: false,
            halted: false,
            halt_bug: false,
            locked: false,
            cycles: 0,
        }
    }

    /// Puts the registers and flags back to their post-boot values.
    pub fn reset(&mut self)
        ensures
            *final(self) == (Cpu {
                regs: Register::post_boot(),
                ime: false,
                halted: false,
                halt_bug: false,
                locked: false,
                cycles: 0,
                ..*old(self)
            }),
    {
        self.regs = Register::new();
        self.ime = false;
        self.halted = false;
        self.halt_bug = false;
        self.locked = false;
        self.cycles = 0;
    }

    /// Program counter.
    pub fn pc(&self) -> (r: u16)
        ensures
            r == self.regs.pc,
    {
        self.regs.pc
    }
    /// Sets the program counter.
    pub fn set_pc(&mut self, value: u16)
        ensures
            *final(self) == (Cpu { regs: Register { pc: value, ..old(self).regs }, ..*old(self) }),
    {
        self.regs.pc = value;
    }
    /// Stack pointer.
    pub fn sp(&self) -> (r: u16)
        ensures
            r == self.regs.sp,
    {
        self.regs.sp
    }
    /// Sets the stack pointer.
    pub fn set_sp(&mut self, value: u16)
        ensures
            *final(self) == (Cpu { regs: Register { sp: value, ..old(self).regs }, ..*old(self) }),
    {
        self.regs.sp = value;
    }
    /// The AF pair.
    pub fn af(&self) -> (r: u16)
        ensures
            r == self.regs.af(),
    {
        self.regs.get_af()
    }
    /// The BC pair.
    pub fn bc(&self) -> (r: u16)
        ensures
            r == self.regs.bc(),
    {
        self.regs.get_bc()
    }
    /// The DE pair.
    pub fn de(&self) -> (r: u16)
        ensures
            r == self.regs.de(),
    {
        self.regs.get_de()
    }
    /// The HL pair.
    pub fn hl(&self) -> (r: u16)
        ensures
            r == self.regs.hl(),
    {
        self.regs.get_hl()
    }
    /// The flags register.
    pub fn f(&self) -> (r: u8)
        ensures
            r == self.regs.f(),
    {
        self.regs.get_f()
    }
    /// Sets the flags from the high nibble of `value`.
    pub fn set_f(&mut self, value: u8)
        ensures
            *final(self) == (Cpu { regs: old(self).regs.with_f(value), ..*old(self) }),
    {
        self.regs.set_f(value);
    }
    /// Sets the AF pair.
    pub fn set_af(&mut self, value: u16)
        ensures
            *final(self) == (Cpu { regs: old(self).regs.with_af(value), ..*old(self) }),
    {
        self.regs.set_af(value);
    }
    /// Sets the BC pair.
    pub fn set_bc(&mut self, value: u16)
        ensures
            *final(self) == (Cpu { regs: old(self).regs.with_bc(value), ..*old(self) }),
    {
        self.regs.set_bc(value);
    }
    /// Sets the DE pair.
    pub fn set_de(&mut self, value: u16)
        ensures
            *final(self) == (Cpu { regs: old(self).regs.with_de(value), ..*old(self) }),
    {
        self.regs.set_de(value);
    }
    /// Sets the HL pair.
    pub fn set_hl(&mut self, value: u16)
        ensures
            *final(self) == (Cpu { regs: old(self).regs.with_hl(value), ..*old(self) }),
    {
        self.regs.set_hl(value);
    }
    /// Interrupt master enable.
    pub fn ime(&self) -> (r: bool)
        ensures
            r == self.ime,
    {
        self.ime
    }
    /// Sets the interrupt master enable.
    pub fn set_ime(&mut self, value: bool)
        ensures
            *final(self) == (Cpu { ime: value, ..*old(self) }),
    {
        self.ime = value;
    }
    /// Zero flag.
    pub fn zero(&self) -> (r: bool)
        ensures
            r == self.regs.zf,
    {
        self.regs.zf
    }
    /// Sets the zero flag.
    pub fn set_zero(&mut self, value: bool)
        ensures
            *final(self) == (Cpu { regs: Register { zf: value, ..old(self).regs }, ..*old(self) }),
    {
        self.regs.zf = value;
    }
    /// Subtract flag.
    pub fn sub(&self) -> (r: bool)
        ensures
            r == self.regs.nf,
    {
        self.regs.nf
    }
    /// Sets the subtract flag.
    pub fn set_sub(&mut self, value: bool)
        ensures
            *final(self) == (Cpu { regs: Register { nf: value, ..old(self).regs }, ..*old(self) }),
    {
        self.regs.nf = value;
    }
    /// Half-carry flag.
    pub fn half_carry(&self) -> (r: bool)
        ensures
            r == self.regs.hf,
    {
        self.regs.hf
    }
    /// Sets the half-carry flag.
    pub fn set_half_carry(&mut self, value: bool)
        ensures
            *final(self) == (Cpu { regs: Register { hf: value, ..old(self).regs }, ..*old(self) }),
    {
        self.regs.hf = value;
    }
    /// Carry flag.
    pub fn carry(&self) -> (r: bool)
        ensures
            r == self.regs.cf,
    {
        self.regs.cf
    }
    /// Sets the carry flag.
    pub fn set_carry(&mut self, value: bool)
        ensures
            *final(self) == (Cpu { regs: Register { cf: value, ..old(self).regs }, ..*old(self) }),
    {
        self.regs.cf = value;
    }
    /// Reads the byte after the opcode and moves PC on.
    pub fn read_u8(&mut self) -> (r: u8)
        requires
            old(self).wf(),
        ensures
            r == old(self).imm8(),
            *final(self) == (Cpu { regs: adv(old(self).regs, 1), ..*old(self) }),
    {
        self.fetch_byte()
    }

    /// Reads the little-endian word after the opcode and moves PC on by two.
    pub fn read_u16(&mut self) -> (r: u16)
        requires
            old(self).wf(),
        ensures
            r == old(self).imm16(),
            *final(self) == (Cpu { regs: adv(old(self).regs, 2), ..*old(self) }),
    {
        self.fetch_word()
    }

    /// Pushes one byte: SP drops by one and the byte lands there.
    pub fn push_byte(&mut self, v: u8)
        requires
            old(self).wf(),
        ensures
            final(self).wf(),
            *final(self) == (Cpu {
                regs: Register { sp: wrap16(old(self).regs.sp + 65535), ..old(self).regs },
                bus: final(self).bus,
                ..*old(self)
            }),
            old(self).bus.written(final(self).bus, wrap16(old(self).regs.sp + 65535), v),
    {
        let sp = self.regs.sp.wrapping_sub(1);
        self.bus.write(sp, v);
        self.regs.sp = sp;
    }

    /// Pops one byte: reads at SP, then SP rises by one.
    pub fn pop_byte(&mut self) -> (r: u8)
        requires
            old(self).wf(),
        ensures
            r == old(self).peek(old(self).regs.sp),
            *final(self) == (Cpu {
                regs: Register { sp: wrap16(old(self).regs.sp + 1), ..old(self).regs },
                ..*old(self)
            }),
    {
        let v = self.bus.read(self.regs.sp);
        self.regs.sp = self.regs.sp.wrapping_add(1);
        v
    }

    /// Stops executing until an interrupt is pending.
    pub fn halt(&mut self)
        ensures
            *final(self) == (Cpu { halted: true, ..*old(self) }),
    {
        self.halted = true;
    }

    /// Enters the low-power wait; like `halt`, an interrupt ends it.
    pub fn stop(&mut self)
        ensures
            *final(self) == (Cpu { halted: true, ..*old(self) }),
    {
        self.halted = true;
    }

    pub fn enable_int(&mut self)
        ensures
            *final(self) == (Cpu { ime: true, ..*old(self) }),
    {
        self.ime = true;
    }

    pub fn disable_int(&mut self)
        ensures
            *final(self) == (Cpu { ime: false, ..*old(self) }),
    {
        self.ime = false;
    }

    pub fn bus(&self) -> (r: &Bus)
        ensures
            *r == self.bus,
    {
        &self.bus
    }

    /// Reads `addr` through the bus.
    pub fn read(&self, addr: u16) -> (r: u8)
        requires
            self.wf(),
        ensures
            r == self.peek(addr),
    {
        self.bus.read(addr)
    }

    /// Writes `v` to `addr` through the bus.
    pub fn write(&mut self, addr: u16, v: u8)
        requires
            old(self).wf(),
        ensures
            final(self).wf(),
            *final(self) == (Cpu { bus: final(self).bus, ..*old(self) }),
            old(self).bus.written(final(self).bus, addr, v),
    {
        self.bus.write(addr, v);
    }

    /// Reads the byte at PC and moves PC on.
    pub fn fetch_byte(&mut self) -> (r: u8)
        requires
            old(self).wf(),
        ensures
            r == old(self).imm8(),
            *final(self) == (Cpu { regs: adv(old(self).regs, 1), ..*old(self) }),
    {
        let b = self.bus.read(self.regs.pc);
        self.regs.pc = self.regs.pc.wrapping_add(1);
        b
    }

    /// Reads the little-endian word at PC and moves PC on by two.
    pub fn fetch_word(&mut self) -> (r: u16)
        requires
            old(self).wf(),
        ensures
            r == old(self).imm16(),
            *final(self) == (Cpu { regs: adv(old(self).regs, 2), ..*old(self) }),
    {
        let lo = self.fetch_byte();
        let hi = self.fetch_byte();
        make_word(hi, lo)
    }

    /// Pushes `v`: high byte at SP - 1, low byte at SP - 2; SP drops by two.
    pub fn push_word(&mut self, v: u16)
        requires
            old(self).wf(),
        ensures
            final(self).wf(),
            *final(self) == (Cpu {
                regs: Register { sp: wrap16(old(self).regs.sp + 65534), ..old(self).regs },
                bus: final(self).bus,
                ..*old(self)
            }),
            pushed(old(self).bus, final(self).bus, old(self).regs.sp, v),
    {
        let ghost b0 = self.bus;
        let (hi, lo) = split_word(v);
        let sp1 = self.regs.sp.wrapping_sub(1);
        self.bus.write(sp1, hi);
        let ghost b1 = self.bus;
        let sp2 = sp1.wrapping_sub(1);
        self.bus.write(sp2, lo);
        self.regs.sp = sp2;
        assert(b0.written(b1, wrap16(old(self).regs.sp + 65535), hi_byte(v)) && b1.written(
            self.bus,
            wrap16(old(self).regs.sp + 65534),
            lo_byte(v),
        ));
    }

    /// Pops the word on top of the stack; SP rises by two.
    pub fn pop_word(&mut self) -> (r: u16)
        requires
            old(self).wf(),
        ensures
            r == old(self).top(),
            *final(self) == (Cpu {
                regs: Register { sp: wrap16(old(self).regs.sp + 2), ..old(self).regs },
                ..*old(self)
            }),
    {
        let lo = self.bus.read(self.regs.sp);
        let sp1 = self.regs.sp.wrapping_add(1);
        let hi = self.bus.read(sp1);
        self.regs.sp = sp1.wrapping_add(1);
        make_word(hi, lo)
    }

    /// Serves interrupt `i`: IME off, PC pushed, jump to the vector, the
    /// request bit cleared, the processor woken.
    pub fn dispatch(&mut self, i: Interrupt)
        requires
            old(self).wf(),
        ensures
            final(self).wf(),
            dispatched(*old(self), *final(self), i),
    {
        self.ime = false;
        let pc = self.regs.pc;
        self.push_word(pc);
        let ghost mid = self.bus;
        self.bus.int_flags.set(i, false);
        self.regs.pc = i.vector();
        self.halted = false;
        self.cycles = INTERRUPT_CYCLES;
        assert(self.bus == (Bus { int_flags: mid.int_flags.with(i, false), ..mid }));
    }

    /// Runs one instruction slot and returns the cycles it took: serves the
    /// highest-priority pending interrupt when IME is set (20 cycles), idles
    /// while halted (4 cycles), or fetches and runs one instruction.
    pub fn clock(&mut self) -> (r: u8)
        requires
            old(self).wf(),
        ensures
            final(self).wf(),
            r == final(self).cycles,
            clocked(*old(self), *final(self)),
    {
        reveal(clocked);
        let ghost start = *self;
        if self.locked {
            self.cycles = 4;
            return 4;
        }
        let enabled = InterruptFlags::from_byte(self.bus.int_enable);
        let next = pending(&self.bus.int_flags, &enabled);
        if let Some(i) = next {
            if self.halted {
                self.halted = false;
            }
            if self.ime {
                self.dispatch(i);
                return INTERRUPT_CYCLES;
            }
        }
        if self.halted {
            self.cycles = 4;
            return 4;
        }
        let op = if self.halt_bug {
            self.halt_bug = false;
            self.read(self.regs.pc)
        } else {
            self.fetch_byte()
        };
        proof {
            if !start.halt_bug && !start.halted {
                assert(*self == (Cpu { regs: adv(start.regs, 1), ..start }));
            }
            if !start.halt_bug && start.halted {
                assert(*self == (Cpu { regs: adv(start.regs, 1), halted: false, ..start }));
            }
            if start.halt_bug && !start.halted {
                assert(*self == (Cpu { halt_bug: false, ..start }));
            }
        }
        execute(self, op);
        self.cycles
    }
}

} // verus!

verus! {

/// A write anywhere but 0xFF0F leaves IF as it was.
pub proof fn lemma_write_keeps_requests(b0: Bus, b1: Bus, addr: u16, v: u8)
    requires
        b0.written(b1, addr, v),
        addr != 0xFF0F,
    ensures
        b1.int_flags == b0.int_flags,
{
    reveal(Bus::written);
}

/// With v-blank and joypad both requested and enabled and IME set, the
/// v-blank interrupt is served first: PC goes to 0x40, and only the v-blank
/// request is cleared, so the joypad request waits for the next dispatch.
/// (The pushed return address must not land on IF itself.)
pub proof fn lemma_vblank_before_joypad(o: Cpu, n: Cpu)
    requires
        o.bus.int_flags.vblank && o.bus.int_flags.joypad,
        o.bus.enabled().vblank && o.bus.enabled().joypad,
        o.ime,
        dispatched(o, n, o.pending_interrupt().unwrap()),
        wrap16(o.regs.sp + 65535) != 0xFF0F,
        wrap16(o.regs.sp + 65534) != 0xFF0F,
    ensures
        o.pending_interrupt() == Some(Interrupt::VBlank),
        n.regs.pc == 0x40,
        !n.ime,
        !n.bus.int_flags.vblank,
        n.bus.int_flags.joypad,
        n.bus.int_flags == (InterruptFlags { vblank: false, ..o.bus.int_flags }),
{
    let mid = choose|mid: Bus|
        pushed(o.bus, mid, o.regs.sp, o.regs.pc) && #[trigger] n.bus == (Bus {
            int_flags: mid.int_flags.with(Interrupt::VBlank, false),
            ..mid
        });
    let b1 = choose|b1: Bus|
        #[trigger] o.bus.written(b1, wrap16(o.regs.sp + 65535), hi_byte(o.regs.pc)) && b1.written(
            mid,
            wrap16(o.regs.sp + 65534),
            lo_byte(o.regs.pc),
        );
    lemma_write_keeps_requests(o.bus, b1, wrap16(o.regs.sp + 65535), hi_byte(o.regs.pc));
    lemma_write_keeps_requests(b1, mid, wrap16(o.regs.sp + 65534), lo_byte(o.regs.pc));
}

/// Serving interrupt `i` clears its request bit and no other, and jumps to
/// its vector (the pushed return address must not land on IF itself).
pub proof fn lemma_dispatch_clears_only(o: Cpu, n: Cpu, i: Interrupt)
    requires
        dispatched(o, n, i),
        wrap16(o.regs.sp + 65535) != 0xFF0F,
        wrap16(o.regs.sp + 65534) != 0xFF0F,
    ensures
        n.regs.pc == vector_of(i),
        !n.ime,
        n.bus.int_flags == o.bus.int_flags.with(i, false),
{
    let mid = choose|mid: Bus|
        pushed(o.bus, mid, o.regs.sp, o.regs.pc) && #[trigger] n.bus == (Bus {
            int_flags: mid.int_flags.with(i, false),
            ..mid
        });
    let b1 = choose|b1: Bus|
        #[trigger] o.bus.written(b1, wrap16(o.regs.sp + 65535), hi_byte(o.regs.pc)) && b1.written(
            mid,
            wrap16(o.regs.sp + 65534),
            lo_byte(o.regs.pc),
        );
    lemma_write_keeps_requests(o.bus, b1, wrap16(o.regs.sp + 65535), hi_byte(o.regs.pc));
    lemma_write_keeps_requests(b1, mid, wrap16(o.regs.sp + 65534), lo_byte(o.regs.pc));
}

/// Once v-blank has been served and only the joypad request is left (and
/// enabled), the next dispatch goes to 0x60 and clears it.
pub proof fn lemma_joypad_after_vblank(o: Cpu, n: Cpu)
    requires
        o.bus.int_flags == (InterruptFlags {
            vblank: false,
            stat: false,
            timer: false,
            serial: false,
            joypad: true,
        }),
        o.bus.enabled().joypad,
        o.ime,
        dispatched(o, n, o.pending_interrupt().unwrap()),
        wrap16(o.regs.sp + 65535) != 0xFF0F,
        wrap16(o.regs.sp + 65534) != 0xFF0F,
    ensures
        o.pending_interrupt() == Some(Interrupt::Joypad),
        n.regs.pc == 0x60,
        !n.ime,
        n.bus.int_flags == InterruptFlags::none(),
{
    lemma_dispatch_clears_only(o, n, Interrupt::Joypad);
}

} // verus!
