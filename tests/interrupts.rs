use gbemu::gb::GameBoy;
use gbemu::interrupt::{pending, Interrupt, InterruptFlags};
use gbemu::pad::PadKey;

#[test]
fn vblank_served_before_joypad() {
    let mut gb = GameBoy::new();
    gb.cpu.regs.pc = 0xC000;
    gb.cpu.regs.sp = 0xDFFE;
    gb.cpu.ime = true;
    gb.cpu.bus.write(0xFFFF, 0x11);
    gb.cpu.bus.write(0xFF0F, 0x11);
    assert_eq!(gb.cpu.clock(), 20);
    assert_eq!(gb.cpu.regs.pc, 0x40);
    assert!(!gb.cpu.ime);
    assert_eq!(gb.cpu.bus.read(0xFF0F) & 0x1F, 0x10);
    assert_eq!(gb.cpu.bus.read(0xDFFD), 0xC0);
    assert_eq!(gb.cpu.bus.read(0xDFFC), 0x00);
    gb.cpu.ime = true;
    assert_eq!(gb.cpu.clock(), 20);
    assert_eq!(gb.cpu.regs.pc, 0x60);
    assert_eq!(gb.cpu.bus.read(0xFF0F) & 0x1F, 0x00);
}

#[test]
fn pending_follows_priority() {
    let r = InterruptFlags::from_byte(0x1F);
    let e = InterruptFlags::from_byte(0x1C);
    assert_eq!(pending(&r, &e), Some(Interrupt::Timer));
    assert_eq!(pending(&r, &InterruptFlags::new()), None);
    assert_eq!(Interrupt::Serial.vector(), 0x58);
    assert_eq!(r.to_byte(), 0x1F);
}

#[test]
fn halt_wakes_on_interrupt_without_ime() {
    let mut gb = GameBoy::new();
    gb.cpu.bus.write(0xC000, 0x76);
    gb.cpu.bus.write(0xC001, 0x00);
    gb.cpu.regs.pc = 0xC000;
    gb.cpu.bus.write(0xFFFF, 0x10);
    gb.cpu.clock();
    assert!(gb.cpu.halted);
    assert_eq!(gb.cpu.clock(), 4);
    assert_eq!(gb.cpu.regs.pc, 0xC001);
    gb.key_press(PadKey::Start);
    gb.cpu.clock();
    assert!(!gb.cpu.halted);
    assert_eq!(gb.cpu.regs.pc, 0xC002);
}

#[test]
fn halt_bug_reads_next_byte_twice() {
    let mut gb = GameBoy::new();
    // HALT; INC A; then NOPs
    gb.cpu.bus.write(0xC000, 0x76);
    gb.cpu.bus.write(0xC001, 0x3C);
    gb.cpu.bus.write(0xC002, 0x00);
    gb.cpu.regs.pc = 0xC000;
    gb.cpu.regs.a = 0;
    gb.cpu.bus.write(0xFFFF, 0x01);
    gb.cpu.bus.write(0xFF0F, 0x01);
    gb.cpu.clock();
    assert!(!gb.cpu.halted);
    gb.cpu.clock();
    gb.cpu.clock();
    assert_eq!(gb.cpu.regs.a, 2);
    assert_eq!(gb.cpu.regs.pc, 0xC002);
}

#[test]
fn pad_column_select() {
    let mut gb = GameBoy::new();
    gb.key_press(PadKey::A);
    gb.key_press(PadKey::Down);
    gb.cpu.bus.write(0xFF00, 0x10);
    assert_eq!(gb.cpu.bus.read(0xFF00), 0x1E);
    gb.cpu.bus.write(0xFF00, 0x20);
    assert_eq!(gb.cpu.bus.read(0xFF00), 0x27);
    gb.cpu.bus.write(0xFF00, 0x30);
    assert_eq!(gb.cpu.bus.read(0xFF00), 0x3F);
    gb.key_lift(PadKey::A);
    gb.cpu.bus.write(0xFF00, 0x10);
    assert_eq!(gb.cpu.bus.read(0xFF00), 0x1F);
}
