use gbemu::cartridge::LOGO;
use gbemu::error::Error;
use gbemu::gb::GameBoy;

/// A 32 KiB ROM-only cartridge whose code gives the top half of tile 0 colour 3 and
/// then loops forever.
fn demo_rom() -> Vec<u8> {
    let mut r = vec![0u8; 0x8000];
    // entry point: NOP; JP 0x0150
    r[0x100..0x104].copy_from_slice(&[0x00, 0xC3, 0x50, 0x01]);
    r[0x104..0x134].copy_from_slice(&LOGO);
    r[0x134..0x138].copy_from_slice(b"DEMO");
    r[0x14A] = 1;
    let mut chk: u8 = 0;
    for i in 0x134..0x14D {
        chk = chk.wrapping_sub(r[i]).wrapping_sub(1);
    }
    r[0x14D] = chk;
    let code: [u8; 12] = [
        0x21, 0x00, 0x80, // LD HL, 0x8000
        0x3E, 0xFF, // LD A, 0xFF
        0x0E, 0x08, // LD C, 8: the top four rows of tile 0
        0x22, // loop: LD (HL+), A
        0x0D, // DEC C
        0x20, 0xFC, // JR NZ, loop
        0x18, // JR -2 (with the next byte)
    ];
    r[0x150..0x15C].copy_from_slice(&code);
    r[0x15C] = 0xFE;
    r
}

#[test]
fn rom_only_cartridge_renders_a_frame() {
    let mut gb = GameBoy::new();
    let header = gb.load_cart(demo_rom(), None).unwrap();
    // the demo leaves the global checksum bytes at zero, which does not match
    assert_eq!(header.gchk, 0);
    assert!(!header.gchk_ok);
    let start = gb.ppu_frame();
    let mut steps = 0;
    while gb.ppu_frame() == start {
        let c = gb.cycle();
        assert!(c > 0);
        steps += 1;
        assert!(steps < 100_000);
    }
    assert_eq!(gb.ppu_frame(), start + 1);
    let w = gb.display_width();
    let h = gb.display_height();
    let fb = gb.frame_buffer().clone();
    assert_eq!(fb.len(), w * h * 3);
    assert!(fb.iter().any(|&b| b != 0));
    // the top rows of tile 0 now have colour 3, which palette 0xFC maps to black
    assert!(fb.iter().any(|&b| b == 0));
    assert_eq!(gb.wram().len(), gb.ram_size());
    assert_eq!(gb.vram_size(), 0x2000);
}

#[test]
fn load_cart_refuses_bad_rom() {
    let mut gb = GameBoy::new();
    let mut rom = demo_rom();
    rom[0x104] = 0;
    assert_eq!(gb.load_cart(rom, None).unwrap_err(), Error::InvalidLogo);
    assert!(gb.cart().is_none());
}

#[test]
fn reset_restores_post_boot_registers() {
    let mut gb = GameBoy::new();
    gb.load_cart(demo_rom(), None).unwrap();
    for _ in 0..100 {
        gb.clock();
    }
    gb.cpu.ime = true;
    gb.cpu.bus.write(0xFFFF, 0x1F);
    gb.cpu.bus.write(0xC000, 0x77);
    gb.reset();
    assert!(!gb.cpu.ime);
    assert_eq!(gb.cpu.bus.read(0xFFFF), 0);
    assert_eq!(gb.cpu.bus.read(0xC000), 0);
    assert_eq!(gb.ppu_frame(), 0);
    assert_eq!(gb.cpu.regs.pc, 0x100);
    assert_eq!(gb.cpu.regs.sp, 0xFFFE);
    assert_eq!(gb.cpu.regs.get_af(), 0x01B0);
    assert!(gb.cart().is_some());
}

#[test]
fn boot_rom_is_mapped_until_disabled() {
    let mut gb = GameBoy::new();
    gb.load_cart(demo_rom(), None).unwrap();
    let mut boot = vec![0u8; 256];
    boot[0] = 0x31;
    gb.load_boot(&boot);
    assert_eq!(gb.cpu.bus.read(0x0000), 0x31);
    assert_eq!(gb.cpu.regs.pc, 0);
    assert_eq!(gb.cpu.bus.read(0xFF50), 0);
    gb.cpu.bus.write(0xFF50, 1);
    assert_eq!(gb.cpu.bus.read(0x0000), 0x00);
    assert_eq!(gb.cpu.bus.read(0xFF50), 1);
    gb.cpu.bus.write(0xFF50, 0);
    assert_eq!(gb.cpu.bus.read(0xFF50), 1);
    assert_eq!(gb.cpu.bus.read(0x0000), 0x00);
    assert_eq!(gb.cpu.bus.read(0x0101), 0xC3);
}

#[test]
fn every_address_decodes() {
    let mut gb = GameBoy::new();
    gb.load_cart(demo_rom(), None).unwrap();
    for addr in 0..=0xFFFFu16 {
        let v = gb.cpu.bus.read(addr);
        gb.cpu.bus.write(addr, v);
    }
    assert_eq!(gb.cpu.bus.read(0xFEA0), 0xFF);
    gb.cpu.bus.write(0xE000, 0x5A);
    assert_eq!(gb.cpu.bus.read(0xC000), 0x5A);
    gb.cpu.bus.write(0xFF80, 0x11);
    assert_eq!(gb.cpu.bus.read(0xFF80), 0x11);
}

#[test]
fn load_cart_refuses_partial_bank() {
    let mut gb = GameBoy::new();
    let mut rom = demo_rom();
    rom.push(0);
    assert_eq!(gb.load_cart(rom, None).unwrap_err(), Error::RomSize);
    assert_eq!(gb.load_cart(vec![0u8; 0x4000], None).unwrap_err(), Error::RomSize);
    assert!(gb.cart().is_none());
}

#[test]
fn illegal_opcode_is_fatal_for_step() {
    let mut gb = GameBoy::new();
    gb.cpu.bus.write(0xC000, 0xDD);
    gb.cpu.regs.pc = 0xC000;
    assert_eq!(gb.step(), Err(Error::IllegalOpcode));
    assert!(gb.locked());
    assert_eq!(gb.step(), Err(Error::IllegalOpcode));
    assert_eq!(Error::IllegalOpcode.description(), "Illegal instruction");
}

#[test]
fn step_runs_like_clock() {
    let mut gb = GameBoy::new();
    gb.load_cart(demo_rom(), None).unwrap();
    assert_eq!(gb.step(), Ok(4));
    assert_eq!(gb.cpu.regs.pc, 0x101);
}

#[test]
fn frame_buffer_leaves_console_alone() {
    let mut gb = GameBoy::new();
    gb.load_cart(demo_rom(), None).unwrap();
    for _ in 0..10 {
        gb.clock();
    }
    let pc = gb.cpu.regs.pc;
    let first = gb.frame_buffer().clone();
    let second = gb.frame_buffer().clone();
    assert_eq!(first, second);
    assert_eq!(gb.cpu.regs.pc, pc);
}
