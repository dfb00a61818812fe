//! The address decoder: every read and write of the processor goes through
//! here to the device that owns the address.
use vstd::prelude::*;
use crate::cartridge::Cartridge;
use crate::dma::Dma;
use crate::interrupt::InterruptFlags;
use crate::pad::{Pad, PadKey};
use crate::ppu::{default_palette, Ppu, OAM_SIZE, VRAM_SIZE};

verus! {

pub const BOOT_SIZE: usize = 0x100;
pub const WRAM_SIZE: usize = 0x2000;
pub const HRAM_SIZE: usize = 0x7F;
/// The I/O page 0xFF00..=0xFF7F; registers no device claims are kept here.
pub const IO_SIZE: usize = 0x80;

/// `n` is bus `o` after the DMA countdown was advanced by `cycles`.
pub open spec fn dma_clocked(o: Bus, n: Bus, cycles: u16) -> bool {
    &&& (!o.dma.active_dma ==> n == o)
    &&& (o.dma.active_dma && cycles >= o.dma.cycles_dma ==> n == (Bus {
        ppu: Ppu { oam: n.ppu.oam, ..o.ppu },
        dma: Dma { cycles_dma: 0, active_dma: false, ..o.dma },
        ..o
    }) && n.ppu.oam@ == o.dma_source(o.dma.value_dma))
    &&& (o.dma.active_dma && cycles < o.dma.cycles_dma ==> n == (Bus {
        dma: Dma { cycles_dma: (o.dma.cycles_dma - cycles) as u16, ..o.dma },
        ..o
    }))
}

/// Arming a DMA by writing page `p` to 0xFF46 and then advancing 640 cycles
/// fills OAM with the 160 bytes at 0x`p`00; advancing fewer leaves OAM as it
/// was and the transfer still armed.
pub proof fn lemma_dma_after_arming(b0: Bus, b1: Bus, b2: Bus, p: u8, cycles: u16)
    requires
        b0.written(b1, 0xFF46, p),
        dma_clocked(b1, b2, cycles),
    ensures
        cycles >= 640 ==> b2.ppu.oam@ == b1.dma_source(p) && !b2.dma.active_dma,
        cycles < 640 ==> b2.ppu.oam == b0.ppu.oam && b2.dma.active_dma && b2.dma.value_dma == p
            && b2.dma.cycles_dma == 640 - cycles,
{
    reveal(Bus::written);
    assert(b1.dma == Dma::armed(p));
}

/// `b` is `b0` after writing the bytes of `data` one by one from `addr` on,
/// wrapping at the top of memory.
pub open spec fn wrote_all(b0: Bus, b: Bus, addr: u16, data: Seq<u8>) -> bool
    decreases data.len(),
{
    if data.len() == 0 {
        b == b0
    } else {
        exists|m: Bus|
            wrote_all(b0, m, addr, data.drop_last()) && #[trigger] m.written(
                b,
                ((addr + data.len() - 1) % 0x10000) as u16,
                data.last(),
            )
    }
}

/// Every device the processor can reach, owned in one place.
pub struct Bus {
    pub boot: Vec<u8>,
    /// Whether the boot ROM still shadows 0x0000..=0x00FF.
    pub boot_active: bool,
    pub cart: Option<Cartridge>,
    pub ppu: Ppu,
    pub wram: Vec<u8>,
    pub hram: Vec<u8>,
    pub io: Vec<u8>,
    pub pad: Pad,
    pub dma: Dma,
    /// IF: requested interrupts.
    pub int_flags: InterruptFlags,
    /// IE: enabled interrupts (all eight bits are kept).
    pub int_enable: u8,
}

impl Bus {
    pub open spec fn wf(&self) -> bool {
        &&& self.boot@.len() == BOOT_SIZE
        &&& self.wram@.len() == WRAM_SIZE
        &&& self.hram@.len() == HRAM_SIZE
        &&& self.io@.len() == IO_SIZE
        &&& self.ppu.wf()
        &&& (self.cart matches Some(c) ==> c.wf())
    }

    /// What a read of `addr` returns.
    pub open spec fn read_spec(&self, addr: u16) -> u8 {
        if addr < 0x100 && self.boot_active {
            self.boot@[addr as int]
        } else if addr < 0x8000 || (0xA000 <= addr < 0xC000) {
            match self.cart {
                Some(c) => c.read_spec(addr),
                None => 0xFF,
            }
        } else if addr < 0xA000 {
            self.ppu.vram@[addr - 0x8000]
        } else if addr < 0xE000 {
            self.wram@[addr - 0xC000]
        } else if addr < 0xFE00 {
            self.wram@[addr - 0xE000]
        } else if addr < 0xFEA0 {
            self.ppu.oam@[addr - 0xFE00]
        } else if addr < 0xFF00 {
            0xFF
        } else if addr == 0xFF00 {
            self.pad.read_spec()
        } else if addr == 0xFF0F {
            (0xE0 + self.int_flags.bits()) as u8
        } else if addr == 0xFF46 {
            self.dma.value_dma
        } else if 0xFF40 <= addr <= 0xFF4B {
            self.ppu.reg_spec(addr)
        } else if addr == 0xFF50 {
            if self.boot_active {
                0
            } else {
                1
            }
        } else if addr < 0xFF80 {
            self.io@[addr - 0xFF00]
        } else if addr < 0xFFFF {
            self.hram@[addr - 0xFF80]
        } else {
            self.int_enable
        }
    }

    /// `new` is this bus after `v` was written to `addr`.
    #[verifier::opaque]
    pub open spec fn written(&self, new: Bus, addr: u16, v: u8) -> bool {
        if addr < 0x8000 || (0xA000 <= addr < 0xC000) {
            match self.cart {
                Some(c) => new == (Bus { cart: new.cart, ..*self }) && new.cart is Some
                    && c.written(new.cart.unwrap(), addr, v),
                None => new == *self,
            }
        } else if addr < 0xA000 {
            new == (Bus { ppu: new.ppu, ..*self }) && new.ppu == (Ppu {
                vram: new.ppu.vram,
                ..self.ppu
            }) && new.ppu.vram@ == self.ppu.vram@.update(addr - 0x8000, v)
        } else if addr < 0xFE00 {
            new == (Bus { wram: new.wram, ..*self }) && new.wram@ == self.wram@.update(
                (addr - 0xC000) % 0x2000,
                v,
            )
        } else if addr < 0xFEA0 {
            new == (Bus { ppu: new.ppu, ..*self }) && new.ppu == (Ppu {
                oam: new.ppu.oam,
                ..self.ppu
            }) && new.ppu.oam@ == self.ppu.oam@.update(addr - 0xFE00, v)
        } else if addr < 0xFF00 {
            new == *self
        } else if addr == 0xFF00 {
            new == (Bus { pad: Pad { selection: Pad::selection_of(v), ..self.pad }, ..*self })
        } else if addr == 0xFF0F {
            new == (Bus { int_flags: InterruptFlags::from_bits(v), ..*self })
        } else if addr == 0xFF46 {
            new == (Bus { dma: Dma::armed(v), ..*self })
        } else if 0xFF40 <= addr <= 0xFF4B {
            new == (Bus { ppu: self.ppu.reg_written(addr, v), ..*self })
        } else if addr == 0xFF50 {
            new == (Bus { boot_active: self.boot_active && v == 0, ..*self })
        } else if addr < 0xFF80 {
            new == (Bus { io: new.io, ..*self }) && new.io@ == self.io@.update(addr - 0xFF00, v)
        } else if addr < 0xFFFF {
            new == (Bus { hram: new.hram, ..*self }) && new.hram@ == self.hram@.update(
                addr - 0xFF80,
                v,
            )
        } else {
            new == (Bus { int_enable: v, ..*self })
        }
    }

    /// The interrupts that are both requested and enabled.
    pub open spec fn enabled(&self) -> InterruptFlags {
        InterruptFlags::from_bits(self.int_enable)
    }

    /// A bus with every memory cleared, no cartridge and the boot ROM unmapped.
    pub fn new() -> (r: Bus)
        ensures
            r.wf(),
            r.cart is None,
            !r.boot_active,
            r.int_flags == InterruptFlags::none(),
            r.int_enable == 0,
            r.dma == Dma::idle(),
            r.pad == Pad::initial(),
            r.ppu.powered_on(),
            r.ppu.palette@ == default_palette(),
            r.ppu.lcdc == 0,
            r.ppu.bgp == 0 && r.ppu.obp0 == 0 && r.ppu.obp1 == 0,
            forall|i: int| 0 <= i < WRAM_SIZE ==> #[trigger] r.wram@[i] == 0,
            forall|i: int| 0 <= i < HRAM_SIZE ==> #[trigger] r.hram@[i] == 0,
            forall|i: int| 0 <= i < IO_SIZE ==> #[trigger] r.io@[i] == 0,
    {
        Bus {
            boot: vec![0u8; BOOT_SIZE],
            boot_active: false,
            cart: None,
            ppu: Ppu::new(),
            wram: vec![0u8; WRAM_SIZE],
            hram: vec![0u8; HRAM_SIZE],
            io: vec![0u8; IO_SIZE],
            pad: Pad::new(),
            dma: Dma::new(),
            int_flags: InterruptFlags::new(),
            int_enable: 0,
        }
    }

    /// Reads `addr`.
    pub fn read(&self, addr: u16) -> (r: u8)
        requires
            self.wf(),
        ensures
            r == self.read_spec(addr),
    {
        if addr < 0x100 && self.boot_active {
            self.boot[addr as usize]
        } else if addr < 0x8000 || (0xA000 <= addr && addr < 0xC000) {
            match &self.cart {
                Some(c) => c.read(addr),
                None => 0xFF,
            }
        } else if addr < 0xA000 {
            self.ppu.read_vram(addr as usize - 0x8000)
        } else if addr < 0xE000 {
            self.wram[addr as usize - 0xC000]
        } else if addr < 0xFE00 {
            self.wram[addr as usize - 0xE000]
        } else if addr < 0xFEA0 {
            self.ppu.read_oam(addr as usize - 0xFE00)
        } else if addr < 0xFF00 {
            0xFF
        } else if addr == 0xFF00 {
            self.pad.read()
        } else if addr == 0xFF0F {
            0xE0 + self.int_flags.to_byte()
        } else if addr == 0xFF46 {
            self.dma.value_dma
        } else if 0xFF40 <= addr && addr <= 0xFF4B {
            self.ppu.read_reg(addr)
        } else if addr == 0xFF50 {
            if self.boot_active {
                0
            } else {
                1
            }
        } else if addr < 0xFF80 {
            self.io[addr as usize - 0xFF00]
        } else if addr < 0xFFFF {
            self.hram[addr as usize - 0xFF80]
        } else {
            self.int_enable
        }
    }

    fn write_cart(&mut self, addr: u16, v: u8)
        requires
            old(self).wf(),
            addr < 0x8000 || (0xA000 <= addr < 0xC000),
        ensures
            final(self).wf(),
            old(self).written(*final(self), addr, v),
    {
        reveal(Bus::written);
        match &mut self.cart {
            Some(c) => c.write(addr, v),
            None => {},
        }
    }

    fn write_ppu(&mut self, addr: u16, v: u8)
        requires
            old(self).wf(),
            0x8000 <= addr < 0xA000 || 0xFE00 <= addr < 0xFEA0 || (0xFF40 <= addr <= 0xFF4B
                && addr != 0xFF46),
        ensures
            final(self).wf(),
            old(self).written(*final(self), addr, v),
    {
        reveal(Bus::written);
        if addr < 0xA000 {
            self.ppu.write_vram(addr as usize - 0x8000, v);
        } else if addr < 0xFEA0 {
            self.ppu.write_oam(addr as usize - 0xFE00, v);
        } else {
            self.ppu.write_reg(addr, v);
        }
    }

    fn write_ram(&mut self, addr: u16, v: u8)
        requires
            old(self).wf(),
            0xC000 <= addr < 0xFE00 || (0xFF01 <= addr < 0xFFFF && addr != 0xFF0F && addr != 0xFF46
                && addr != 0xFF50 && !(0xFF40 <= addr <= 0xFF4B)),
        ensures
            final(self).wf(),
            old(self).written(*final(self), addr, v),
    {
        reveal(Bus::written);
        if addr < 0xFE00 {
            self.wram.set((addr as usize - 0xC000) % 0x2000, v);
        } else if addr < 0xFF80 {
            self.io.set(addr as usize - 0xFF00, v);
        } else {
            self.hram.set(addr as usize - 0xFF80, v);
        }
    }

    /// Writes `v` to `addr`.
    pub fn write(&mut self, addr: u16, v: u8)
        requires
            old(self).wf(),
        ensures
            final(self).wf(),
            old(self).written(*final(self), addr, v),
    {
        reveal(Bus::written);
        if addr < 0x8000 || (0xA000 <= addr && addr < 0xC000) {
            self.write_cart(addr, v);
        } else if addr < 0xA000 || (0xFE00 <= addr && addr < 0xFEA0) || (0xFF40 <= addr && addr
            <= 0xFF4B && addr != 0xFF46) {
            self.write_ppu(addr, v);
        } else if addr < 0xFE00 {
            self.write_ram(addr, v);
        } else if addr < 0xFF00 {
        } else if addr == 0xFF00 {
            self.pad.write(v);
        } else if addr == 0xFF0F {
            self.int_flags = InterruptFlags::from_byte(v);
        } else if addr == 0xFF46 {
            self.dma.start(v);
        } else if addr == 0xFF50 {
            if v != 0 {
                self.boot_active = false;
            }
        } else if addr < 0xFFFF {
            self.write_ram(addr, v);
        } else {
            self.int_enable = v;
        }
    }

    /// The 160 bytes an OAM DMA from page `page` copies, as the bus reads them.
    pub open spec fn dma_source(&self, page: u8) -> Seq<u8> {
        Seq::new(OAM_SIZE as nat, |i: int| self.read_spec((page as int * 256 + i) as u16))
    }

    /// Copies the 160 bytes at the latched source page into OAM.
    pub fn dma_transfer(&mut self)
        requires
            old(self).wf(),
        ensures
            final(self).wf(),
            *final(self) == (Bus {
                ppu: Ppu { oam: final(self).ppu.oam, ..old(self).ppu },
                ..*old(self)
            }),
            final(self).ppu.oam@ == old(self).dma_source(old(self).dma.value_dma),
    {
        let ghost start = *self;
        let base: u16 = self.dma.value_dma as u16 * 256;
        let mut i: usize = 0;
        while i < OAM_SIZE
            invariant
                self.wf(),
                start.wf(),
                i <= OAM_SIZE,
                base == start.dma.value_dma as int * 256,
                *self == (Bus { ppu: Ppu { oam: self.ppu.oam, ..start.ppu }, ..start }),
                forall|k: int|
                    0 <= k < i ==> #[trigger] self.ppu.oam@[k] == start.read_spec((base + k) as u16),
                forall|k: int|
                    i <= k < OAM_SIZE ==> #[trigger] self.ppu.oam@[k] == start.ppu.oam@[k],
            decreases OAM_SIZE - i,
        {
            let addr = base + i as u16;
            let v = self.read(addr);
            assert(v == start.read_spec(addr)) by {
                if 0xFE00 <= addr < 0xFEA0 {
                    assert(addr - 0xFE00 == i);
                }
            }
            self.ppu.write_oam(i, v);
            i = i + 1;
        }
        assert(self.ppu.oam@ =~= start.dma_source(start.dma.value_dma));
    }

    /// Advances the DMA countdown by `cycles`; when it runs out the copy into
    /// OAM happens at once and the controller goes idle.
    pub fn clock_dma(&mut self, cycles: u16)
        requires
            old(self).wf(),
        ensures
            final(self).wf(),
            dma_clocked(*old(self), *final(self), cycles),
    {
        if self.dma.active_dma {
            if cycles >= self.dma.cycles_dma {
                self.dma_transfer();
                self.dma.cycles_dma = 0;
                self.dma.active_dma = false;
            } else {
                self.dma.cycles_dma = self.dma.cycles_dma - cycles;
            }
        }
    }

    /// Advances the PPU by `cycles` dots; its interrupt requests land in IF.
    pub fn clock_ppu(&mut self, cycles: u16)
        requires
            old(self).wf(),
        ensures
            final(self).wf(),
            old(self).ppu.lcd_on() ==> Ppu::dots_run(
                old(self).ppu,
                old(self).int_flags,
                final(self).ppu,
                final(self).int_flags,
                cycles as nat,
            ),
            old(self).ppu.lcd_on() ==> final(self).ppu.timing == old(self).ppu.timing.run(cycles as nat),
            !old(self).ppu.lcd_on() ==> *final(self) == *old(self),
            *final(self) == (Bus { ppu: final(self).ppu, int_flags: final(self).int_flags, ..*old(self) }),
    {
        self.ppu.clock(cycles, &mut self.int_flags);
    }

    /// Holds `key` down and requests the joypad interrupt.
    pub fn key_press(&mut self, key: PadKey)
        ensures
            *final(self) == (Bus {
                pad: old(self).pad.with_key(key, true),
                int_flags: InterruptFlags { joypad: true, ..old(self).int_flags },
                ..*old(self)
            }),
    {
        self.pad.key_press(key);
        self.int_flags.joypad = true;
    }

    /// Releases `key`.
    pub fn key_lift(&mut self, key: PadKey)
        ensures
            *final(self) == (Bus { pad: old(self).pad.with_key(key, false), ..*old(self) }),
    {
        self.pad.key_lift(key);
    }

    /// Inserts a cartridge.
    pub fn set_cart(&mut self, cart: Cartridge)
        requires
            old(self).wf(),
            cart.wf(),
        ensures
            final(self).wf(),
            *final(self) == (Bus { cart: Some(cart), ..*old(self) }),
    {
        self.cart = Some(cart);
    }

    /// Loads a 256-byte boot ROM and maps it over 0x0000..=0x00FF.
    pub fn set_boot(&mut self, boot: &Vec<u8>)
        requires
            old(self).wf(),
            boot@.len() == BOOT_SIZE,
        ensures
            final(self).wf(),
            *final(self) == (Bus { boot: final(self).boot, boot_active: true, ..*old(self) }),
            final(self).boot@ == boot@,
    {
        self.boot = boot.clone();
        self.boot_active = true;
    }

    /// Reads `count` bytes from `addr` on, wrapping at the top of memory.
    pub fn read_many(&self, addr: u16, count: u16) -> (r: Vec<u8>)
        requires
            self.wf(),
        ensures
            r@ == Seq::new(count as nat, |i: int| self.read_spec(((addr + i) % 0x10000) as u16)),
    {
        let mut r: Vec<u8> = Vec::new();
        let mut i: u16 = 0;
        while i < count
            invariant
                self.wf(),
                i <= count,
                r@ == Seq::new(i as nat, |k: int| self.read_spec(((addr + k) % 0x10000) as u16)),
            decreases count - i,
        {
            r.push(self.read(addr.wrapping_add(i)));
            i = i + 1;
            assert(r@ =~= Seq::new(i as nat, |k: int| self.read_spec(((addr + k) % 0x10000) as u16)));
        }
        r
    }

    /// Writes the bytes of `data` one by one from `addr` on, wrapping at the
    /// top of memory.
    pub fn write_many(&mut self, addr: u16, data: &Vec<u8>)
        requires
            old(self).wf(),
            data@.len() <= 0x10000,
        ensures
            final(self).wf(),
            wrote_all(*old(self), *final(self), addr, data@),
    {
        let ghost start = *self;
        let mut i: usize = 0;
        assert(data@.subrange(0, 0) =~= Seq::<u8>::empty());
        while i < data.len()
            invariant
                self.wf(),
                i <= data@.len() <= 0x10000,
                wrote_all(start, *self, addr, data@.subrange(0, i as int)),
            decreases data@.len() - i,
        {
            let ghost before = *self;
            self.write(addr.wrapping_add(i as u16), data[i]);
            proof {
                let d = data@.subrange(0, i + 1);
                assert(d.drop_last() =~= data@.subrange(0, i as int));
                assert(((addr + d.len() - 1) % 0x10000) as u16 == addr.wrapping_add(i as u16));
                assert(before.written(*self, ((addr + d.len() - 1) % 0x10000) as u16, d.last()));
            }
            i = i + 1;
        }
        assert(data@.subrange(0, data@.len() as int) =~= data@);
    }

    pub fn ppu(&self) -> (r: &Ppu)
        ensures
            *r == self.ppu,
    {
        &self.ppu
    }

    pub fn pad(&self) -> (r: &Pad)
        ensures
            *r == self.pad,
    {
        &self.pad
    }
}

} // verus!
