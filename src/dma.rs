//! The OAM DMA controller. Writing a page number to 0xFF46 arms a 640-cycle
//! countdown; when it runs out the 160 bytes of that page are copied into OAM
//! in one step. The processor keeps full use of the bus meanwhile: the
//! contention of the real hardware is not modelled.
use vstd::prelude::*;

verus! {

/// Cycles between arming a transfer and the copy into OAM.
pub const DMA_CYCLES: u16 = 640;

/// State of an OAM DMA transfer: the latched source page, the cycles left,
/// and whether a transfer is armed.
#[derive(Clone, Copy, Debug, PartialEq, Eq, Structural)]
pub struct Dma {
    pub value_dma: u8,
    pub cycles_dma: u16,
    pub active_dma: bool,
}

impl Dma {
    pub open spec fn idle() -> Dma {
        Dma { value_dma: 0, cycles_dma: 0, active_dma: false }
    }

    /// The state after a write of `page` to 0xFF46.
    pub open spec fn armed(page: u8) -> Dma {
        Dma { value_dma: page, cycles_dma: DMA_CYCLES, active_dma: true }
    }

    pub fn new() -> (r: Dma)
        ensures
            r == Dma::idle(),
    {
        Dma { value_dma: 0, cycles_dma: 0, active_dma: false }
    }

    pub fn reset(&mut self)
        ensures
            *final(self) == Dma::idle(),
    {
        self.value_dma = 0;
        self.cycles_dma = 0;
        self.active_dma = false;
    }

    /// Latches `page` as the source and arms the countdown.
    pub fn start(&mut self, page: u8)
        ensures
            *final(self) == Dma::armed(page),
    {
        self.value_dma = page;
        self.cycles_dma = DMA_CYCLES;
        self.active_dma = true;
    }

    pub fn value_dma(&self) -> (r: u8)
        ensures
            r == self.value_dma,
    {
        self.value_dma
    }

    pub fn set_value_dma(&mut self, value: u8)
        ensures
            *final(self) == (Dma { value_dma: value, ..*old(self) }),
    {
        self.value_dma = value;
    }

    pub fn cycles_dma(&self) -> (r: u16)
        ensures
            r == self.cycles_dma,
    {
        self.cycles_dma
    }

    pub fn set_cycles_dma(&mut self, value: u16)
        ensures
            *final(self) == (Dma { cycles_dma: value, ..*old(self) }),
    {
        self.cycles_dma = value;
    }

    pub fn active_dma(&self) -> (r: bool)
        ensures
            r == self.active_dma,
    {
        self.active_dma
    }

    pub fn set_active_dma(&mut self, value: bool)
        ensures
            *final(self) == (Dma { active_dma: value, ..*old(self) }),
    {
        self.active_dma = value;
    }

    pub fn active(&self) -> (r: bool)
        ensures
            r == self.active_dma,
    {
        self.active_dma
    }
}

} // verus!
