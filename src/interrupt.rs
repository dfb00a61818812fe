//! The interrupt request (IF) and enable (IE) registers.
use vstd::prelude::*;
use crate::register::{bit_set, pow2};

verus! {

/// The five interrupt sources, highest priority first.
#[derive(Clone, Copy, Debug, PartialEq, Eq, Structural)]
pub enum Interrupt {
    VBlank,
    Stat,
    Timer,
    Serial,
    Joypad,
}

/// The address the processor jumps to when it serves `i`.
pub open spec fn vector_of(i: Interrupt) -> u16 {
    match i {
        Interrupt::VBlank => 0x40,
        Interrupt::Stat => 0x48,
        Interrupt::Timer => 0x50,
        Interrupt::Serial => 0x58,
        Interrupt::Joypad => 0x60,
    }
}

impl Interrupt {
    /// The address the processor jumps to when it serves this interrupt.
    pub fn vector(&self) -> (r: u16)
        ensures
            r == vector_of(*self),
    {
        match self {
            Interrupt::VBlank => 0x40,
            Interrupt::Stat => 0x48,
            Interrupt::Timer => 0x50,
            Interrupt::Serial => 0x58,
            Interrupt::Joypad => 0x60,
        }
    }
}

/// One bit per interrupt source: IF when it holds requests, IE when it holds
/// enables.
#[derive(Clone, Copy, Debug, PartialEq, Eq, Structural)]
pub struct InterruptFlags {
    pub vblank: bool,
    pub stat: bool,
    pub timer: bool,
    pub serial: bool,
    pub joypad: bool,
}

impl InterruptFlags {
    pub open spec fn none() -> InterruptFlags {
        InterruptFlags { vblank: false, stat: false, timer: false, serial: false, joypad: false }
    }

    /// The flags as the five low bits of a byte.
    pub open spec fn bits(self) -> u8 {
        ((if self.vblank { 1int } else { 0 }) + (if self.stat { 2int } else { 0 }) + (if self.timer {
            4int
        } else {
            0
        }) + (if self.serial { 8int } else { 0 }) + (if self.joypad { 16int } else { 0 })) as u8
    }

    /// The flags that the five low bits of `v` give.
    pub open spec fn from_bits(v: u8) -> InterruptFlags {
        InterruptFlags {
            vblank: bit_set(v, 0),
            stat: bit_set(v, 1),
            timer: bit_set(v, 2),
            serial: bit_set(v, 3),
            joypad: bit_set(v, 4),
        }
    }

    pub open spec fn get(self, i: Interrupt) -> bool {
        match i {
            Interrupt::VBlank => self.vblank,
            Interrupt::Stat => self.stat,
            Interrupt::Timer => self.timer,
            Interrupt::Serial => self.serial,
            Interrupt::Joypad => self.joypad,
        }
    }

    /// These flags with the flag of `i` set to `v`.
    pub open spec fn with(self, i: Interrupt, v: bool) -> InterruptFlags {
        match i {
            Interrupt::VBlank => InterruptFlags { vblank: v, ..self },
            Interrupt::Stat => InterruptFlags { stat: v, ..self },
            Interrupt::Timer => InterruptFlags { timer: v, ..self },
            Interrupt::Serial => InterruptFlags { serial: v, ..self },
            Interrupt::Joypad => InterruptFlags { joypad: v, ..self },
        }
    }

    /// No flag set.
    pub fn new() -> (r: InterruptFlags)
        ensures
            r == InterruptFlags::none(),
    {
        InterruptFlags { vblank: false, stat: false, timer: false, serial: false, joypad: false }
    }

    /// The flags as a byte, bit 0 for v-blank up to bit 4 for the joypad.
    pub fn to_byte(&self) -> (r: u8)
        ensures
            r == self.bits(),
            r < 32,
    {
        let mut r: u8 = 0;
        if self.vblank {
            r = r + 1;
        }
        if self.stat {
            r = r + 2;
        }
        if self.timer {
            r = r + 4;
        }
        if self.serial {
            r = r + 8;
        }
        if self.joypad {
            r = r + 16;
        }
        r
    }

    /// Flags from the five low bits of a byte; the upper bits are ignored.
    pub fn from_byte(v: u8) -> (r: InterruptFlags)
        ensures
            r == InterruptFlags::from_bits(v),
    {
        proof {
            reveal_with_fuel(pow2, 5);
        }
        InterruptFlags {
            vblank: v % 2 == 1,
            stat: (v / 2) % 2 == 1,
            timer: (v / 4) % 2 == 1,
            serial: (v / 8) % 2 == 1,
            joypad: (v / 16) % 2 == 1,
        }
    }

    /// Sets or clears the flag of `i`.
    pub fn set(&mut self, i: Interrupt, v: bool)
        ensures
            *final(self) == old(self).with(i, v),
    {
        match i {
            Interrupt::VBlank => self.vblank = v,
            Interrupt::Stat => self.stat = v,
            Interrupt::Timer => self.timer = v,
            Interrupt::Serial => self.serial = v,
            Interrupt::Joypad => self.joypad = v,
        }
    }
}

/// The interrupt to serve: the highest-priority one that is both requested
/// and enabled.
pub open spec fn pending_spec(requested: InterruptFlags, enabled: InterruptFlags) -> Option<
    Interrupt,
> {
    if requested.vblank && enabled.vblank {
        Some(Interrupt::VBlank)
    } else if requested.stat && enabled.stat {
        Some(Interrupt::Stat)
    } else if requested.timer && enabled.timer {
        Some(Interrupt::Timer)
    } else if requested.serial && enabled.serial {
        Some(Interrupt::Serial)
    } else if requested.joypad && enabled.joypad {
        Some(Interrupt::Joypad)
    } else {
        None
    }
}

/// The highest-priority interrupt that is both requested and enabled, if any.
pub fn pending(requested: &InterruptFlags, enabled: &InterruptFlags) -> (r: Option<Interrupt>)
    ensures
        r == pending_spec(*requested, *enabled),
        r matches Some(i) ==> requested.get(i) && enabled.get(i),
        r is None ==> forall|i: Interrupt| !(requested.get(i) && enabled.get(i)),
{
    if requested.vblank && enabled.vblank {
        Some(Interrupt::VBlank)
    } else if requested.stat && enabled.stat {
        Some(Interrupt::Stat)
    } else if requested.timer && enabled.timer {
        Some(Interrupt::Timer)
    } else if requested.serial && enabled.serial {
        Some(Interrupt::Serial)
    } else if requested.joypad && enabled.joypad {
        Some(Interrupt::Joypad)
    } else {
        None
    }
}

} // verus!
