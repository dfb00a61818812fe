//! The whole console: processor, bus and devices, stepped together.
use vstd::prelude::*;
use crate::bus::{dma_clocked, Bus, BOOT_SIZE, HRAM_SIZE, IO_SIZE, WRAM_SIZE};
use crate::dma::Dma;
use crate::interrupt::InterruptFlags;
use crate::pad::Pad;
use crate::cartridge::{cart_accepts, load_error, Cartridge, Header};
use crate::cpu::{clocked, Cpu};
use crate::error::Error;
use crate::pad::PadKey;
use crate::ppu::{default_palette, Ppu, DISPLAY_HEIGHT, DISPLAY_WIDTH, FRAME_BUFFER_SIZE, VRAM_SIZE};
use crate::register::{pow2, Register};

verus! {

/// Cycles per second of the DMG clock.
pub const CPU_FREQ: u32 = 4194304;

/// A Game Boy.
pub struct GameBoy {
    pub cpu: Cpu,
}

/// `n` is bus `m` after the devices were advanced by `cycles`: first the
/// DMA countdown by that many cycles, then the PPU by that many dots, one
/// `dot_step` each (drawing lines, counting frames, requesting v-blank and
/// STAT), when its LCD is on.
pub open spec fn devices_advanced(m: Bus, n: Bus, cycles: u16) -> bool {
    exists|d: Bus|
        #[trigger] dma_clocked(m, d, cycles) && n == (Bus {
            ppu: n.ppu,
            int_flags: n.int_flags,
            ..d
        }) && (d.ppu.lcd_on() ==> Ppu::dots_run(d.ppu, d.int_flags, n.ppu, n.int_flags, cycles as nat))
            && (!d.ppu.lcd_on() ==> n == d)
}

/// `n` is processor state `o` after one console cycle that took `cycles`:
/// one instruction slot, then the devices advanced by its cycles.
pub open spec fn console_step(o: Cpu, n: Cpu, cycles: u16) -> bool {
    exists|mid: Cpu|
        clocked(o, mid) && #[trigger] mid.cycles == cycles && devices_advanced(mid.bus, n.bus, cycles)
            && n == (Cpu { bus: n.bus, ..mid })
}

/// A processor locked up on an illegal opcode stays locked: nothing it is
/// clocked through runs again.
pub proof fn lemma_lock_is_permanent(o: Cpu, n: Cpu, cycles: u16)
    requires
        o.locked,
        console_step(o, n, cycles),
    ensures
        n.locked,
        n.regs == o.regs,
        cycles == 4,
{
    reveal(clocked);
}

impl GameBoy {
    pub open spec fn wf(&self) -> bool {
        self.cpu.wf()
    }

    /// The state the boot ROM leaves, whatever cartridge is inserted:
    /// registers at their post-boot values, IME off, not halted or locked, no
    /// interrupt requested or enabled, DMA idle, no key held, all RAM and I/O
    /// cleared, the boot ROM unmapped, and the PPU at the start of line 0 with
    /// the LCD on (LCDC 0x91, BGP 0xFC, OBP0 and OBP1 0xFF).
    pub open spec fn post_boot(&self) -> bool {
        let c = self.cpu;
        let b = c.bus;
        &&& self.wf()
        &&& c.regs == Register::post_boot()
        &&& !c.ime && !c.halted && !c.halt_bug && !c.locked
        &&& !b.boot_active
        &&& b.int_flags == InterruptFlags::none()
        &&& b.int_enable == 0
        &&& b.dma == Dma::idle()
        &&& b.pad == Pad::initial()
        &&& (forall|i: int| 0 <= i < WRAM_SIZE ==> #[trigger] b.wram@[i] == 0)
        &&& (forall|i: int| 0 <= i < HRAM_SIZE ==> #[trigger] b.hram@[i] == 0)
        &&& (forall|i: int| 0 <= i < IO_SIZE ==> #[trigger] b.io@[i] == 0)
        &&& b.ppu.powered_on()
        &&& b.ppu.lcdc == 0x91 && b.ppu.bgp == 0xFC && b.ppu.obp0 == 0xFF && b.ppu.obp1 == 0xFF
    }

    /// A console in the state its boot ROM leaves, with no cartridge.
    pub fn new() -> (r: GameBoy)
        ensures
            r.post_boot(),
            r.cpu.bus.cart is None,
            r.cpu.bus.ppu.palette@ == default_palette(),
    {
        proof {
            reveal_with_fuel(pow2, 8);
        }
        let mut bus = Bus::new();
        bus.ppu.write_reg(0xFF40, 0x91);
        bus.ppu.write_reg(0xFF47, 0xFC);
        bus.ppu.write_reg(0xFF48, 0xFF);
        bus.ppu.write_reg(0xFF49, 0xFF);
        GameBoy { cpu: Cpu::new(bus) }
    }

    /// Back to the post-boot state; the cartridge stays inserted with its
    /// bank controller reset.
    pub fn reset(&mut self)
        requires
            old(self).wf(),
        ensures
            final(self).post_boot(),
            final(self).cpu.bus.ppu.palette@ == default_palette(),
            old(self).cpu.bus.cart is None ==> final(self).cpu.bus.cart is None,
            old(self).cpu.bus.cart is Some ==> final(self).cpu.bus.cart is Some
                && final(self).cpu.bus.cart.unwrap().rom@ == old(self).cpu.bus.cart.unwrap().rom@
                && final(self).cpu.bus.cart.unwrap() == (Cartridge {
                    rom_bank: 1,
                    ram_bank: 0,
                    ram_enabled: false,
                    banking_mode: false,
                    ..old(self).cpu.bus.cart.unwrap()
                }),
    {
        let cart = self.cpu.bus.cart.take();
        let mut fresh = GameBoy::new();
        match cart {
            Some(mut c) => {
                c.reset();
                fresh.cpu.bus.set_cart(c);
            },
            None => {},
        }
        *self = fresh;
    }

    /// Loads a 256-byte boot ROM and maps it at 0x0000, starting execution there.
    pub fn load_boot(&mut self, boot: &Vec<u8>)
        requires
            old(self).wf(),
            boot@.len() == BOOT_SIZE,
        ensures
            final(self).wf(),
            final(self).cpu.bus.boot@ == boot@,
            final(self).cpu == (Cpu {
                regs: Register { pc: 0, ..old(self).cpu.regs },
                bus: Bus { boot: final(self).cpu.bus.boot, boot_active: true, ..old(self).cpu.bus },
                ..old(self).cpu
            }),
    {
        self.cpu.bus.set_boot(boot);
        self.cpu.regs.pc = 0;
    }

    /// Inserts the cartridge in `rom`, with the saved contents of its RAM if
    /// any, and returns its header. A ROM that `Cartridge::new` refuses leaves
    /// the console as it was and gives the same error.
    pub fn load_cart(&mut self, rom: Vec<u8>, ram: Option<Vec<u8>>) -> (r: Result<Header, Error>)
        requires
            old(self).wf(),
        ensures
            final(self).wf(),
            r is Ok <==> cart_accepts(rom@),
            !cart_accepts(rom@) ==> r == Err::<Header, Error>(load_error(rom@)) && *final(self)
                == *old(self),
            r matches Ok(h) ==> {
                &&& h.parsed_from(rom@)
                &&& final(self).cpu.bus.cart is Some
                &&& final(self).cpu.bus.cart.unwrap().loaded_from(rom@, ram)
                &&& final(self).cpu == (Cpu {
                    bus: Bus { cart: final(self).cpu.bus.cart, ..old(self).cpu.bus },
                    ..old(self).cpu
                })
            },
    {
        match Cartridge::new(rom, ram) {
            Ok(c) => {
                let h = c.header.duplicate();
                self.cpu.bus.set_cart(c);
                Ok(h)
            },
            Err(e) => Err(e),
        }
    }

    /// Runs one instruction slot, then advances the DMA and the PPU by the
    /// cycles it took, which it returns.
    pub fn clock(&mut self) -> (r: u16)
        requires
            old(self).wf(),
        ensures
            final(self).wf(),
            console_step(old(self).cpu, final(self).cpu, r),
    {
        let c = self.cpu.clock();
        let ghost mid = self.cpu;
        self.cpu.bus.clock_dma(c as u16);
        let ghost d = self.cpu.bus;
        self.cpu.bus.clock_ppu(c as u16);
        assert(dma_clocked(mid.bus, d, c as u16));
        assert(clocked(old(self).cpu, mid) && mid.cycles == c as u16);
        c as u16
    }

    /// The same as `clock`.
    pub fn cycle(&mut self) -> (r: u16)
        requires
            old(self).wf(),
        ensures
            final(self).wf(),
            console_step(old(self).cpu, final(self).cpu, r),
    {
        self.clock()
    }

    /// Runs one instruction slot as `clock` does, unless the processor has
    /// locked up on an illegal opcode: that is fatal, so once it happens this
    /// and every later call return `IllegalOpcode` and nothing runs any more.
    pub fn step(&mut self) -> (r: Result<u16, Error>)
        requires
            old(self).wf(),
        ensures
            final(self).wf(),
            old(self).cpu.locked ==> r == Err::<u16, Error>(Error::IllegalOpcode) && *final(self)
                == *old(self),
            !old(self).cpu.locked ==> exists|c: u16| #[trigger]
                console_step(old(self).cpu, final(self).cpu, c) && (if final(self).cpu.locked {
                    r == Err::<u16, Error>(Error::IllegalOpcode)
                } else {
                    r == Ok::<u16, Error>(c)
                }),
    {
        if self.cpu.locked {
            return Err(Error::IllegalOpcode);
        }
        let c = self.clock();
        if self.cpu.locked {
            Err(Error::IllegalOpcode)
        } else {
            Ok(c)
        }
    }

    /// Holds `key` down; requests the joypad interrupt.
    pub fn key_press(&mut self, key: PadKey)
        ensures
            final(self).cpu.bus.pad == old(self).cpu.bus.pad.with_key(key, true),
            final(self).cpu.bus.int_flags.joypad,
            final(self).cpu == (Cpu { bus: final(self).cpu.bus, ..old(self).cpu }),
    {
        self.cpu.bus.key_press(key);
    }

    /// Releases `key`.
    pub fn key_lift(&mut self, key: PadKey)
        ensures
            final(self).cpu.bus.pad == old(self).cpu.bus.pad.with_key(key, false),
            final(self).cpu == (Cpu { bus: final(self).cpu.bus, ..old(self).cpu }),
    {
        self.cpu.bus.key_lift(key);
    }

    /// Frames completed so far.
    pub fn ppu_frame(&self) -> (r: u16)
        ensures
            r == self.cpu.bus.ppu.timing.frame,
    {
        self.cpu.bus.ppu.frame_index()
    }

    /// The RGB frame buffer, 160 x 144 pixels of three bytes.
    pub fn frame_buffer(&mut self) -> (r: &Vec<u8>)
        requires
            old(self).wf(),
        ensures
            final(self).wf(),
            r@.len() == FRAME_BUFFER_SIZE,
            r@ == final(self).cpu.bus.ppu.frame_buffer@,
            !old(self).cpu.bus.ppu.fb_valid || old(self).cpu.bus.ppu.fb_frame != old(
                self,
            ).cpu.bus.ppu.timing.frame ==> r@ == Ppu::rgb_of(
                old(self).cpu.bus.ppu.shades@,
                old(self).cpu.bus.ppu.palette@,
            ),
            old(self).cpu.bus.ppu.fb_valid && old(self).cpu.bus.ppu.fb_frame == old(
                self,
            ).cpu.bus.ppu.timing.frame ==> r@ == old(self).cpu.bus.ppu.frame_buffer@,
            final(self).cpu == (Cpu {
                bus: Bus {
                    ppu: Ppu {
                        frame_buffer: final(self).cpu.bus.ppu.frame_buffer,
                        fb_frame: old(self).cpu.bus.ppu.timing.frame,
                        fb_valid: true,
                        ..old(self).cpu.bus.ppu
                    },
                    ..old(self).cpu.bus
                },
                ..old(self).cpu
            }),
    {
        self.cpu.bus.ppu.frame_buffer()
    }

    pub fn display_width(&self) -> (r: usize)
        ensures
            r == DISPLAY_WIDTH,
    {
        DISPLAY_WIDTH
    }

    pub fn display_height(&self) -> (r: usize)
        ensures
            r == DISPLAY_HEIGHT,
    {
        DISPLAY_HEIGHT
    }

    pub fn ppu(&self) -> (r: &Ppu)
        ensures
            *r == self.cpu.bus.ppu,
    {
        &self.cpu.bus.ppu
    }

    pub fn wram(&self) -> (r: &Vec<u8>)
        ensures
            r@ == self.cpu.bus.wram@,
    {
        &self.cpu.bus.wram
    }

    pub fn cart(&self) -> (r: &Option<Cartridge>)
        ensures
            *r == self.cpu.bus.cart,
    {
        &self.cpu.bus.cart
    }

    /// Bytes of work RAM.
    pub fn ram_size(&self) -> (r: usize)
        ensures
            r == WRAM_SIZE,
    {
        WRAM_SIZE
    }

    /// Bytes of video RAM.
    pub fn vram_size(&self) -> (r: usize)
        ensures
            r == VRAM_SIZE,
    {
        VRAM_SIZE
    }

    /// Whether an illegal opcode has locked the processor up.
    pub fn locked(&self) -> (r: bool)
        ensures
            r == self.cpu.locked,
    {
        self.cpu.locked
    }

    /// Replaces the four RGB colours of the display's shades.
    pub fn set_palette_colors(&mut self, colors: &Vec<u8>)
        requires
            old(self).wf(),
            colors@.len() == 12,
        ensures
            final(self).wf(),
            final(self).cpu.bus.ppu.palette@ == colors@,
    {
        self.cpu.bus.ppu.set_palette_colors(colors);
    }
}

} // verus!
