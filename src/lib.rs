//! A Game Boy (DMG) emulator core: the processor and its two instruction
//! tables, the address decoder, the picture-processing unit, cartridges with
//! their bank controllers, interrupts, OAM DMA and the joypad.

pub mod alu;
pub mod bus;
pub mod cartridge;
pub mod cpu;
pub mod dma;
pub mod error;
pub mod gb;
pub mod handler;
pub mod interrupt;
pub mod licensee;
pub mod pad;
pub mod ppu;
pub mod register;
pub mod semantics;
