use gbemu::interrupt::InterruptFlags;
use gbemu::ppu::{Ppu, PpuMode, Timing};

#[test]
fn visible_line_takes_456_dots() {
    let mut t = Timing { mode: PpuMode::OamScan, dots: 0, ly: 5, frame: 0 };
    let mut modes = vec![];
    for _ in 0..456 {
        t.step();
        if t.dots == 0 {
            modes.push(t.mode);
        }
    }
    assert_eq!(t, Timing { mode: PpuMode::OamScan, dots: 0, ly: 6, frame: 0 });
    assert_eq!(modes, vec![PpuMode::Transfer, PpuMode::HBlank, PpuMode::OamScan]);
}

#[test]
fn frame_takes_154_lines() {
    let mut t = Timing { mode: PpuMode::OamScan, dots: 0, ly: 0, frame: 0 };
    for _ in 0..144 * 456 {
        t.step();
    }
    assert_eq!(t, Timing { mode: PpuMode::VBlank, dots: 0, ly: 144, frame: 0 });
    for _ in 0..10 * 456 {
        t.step();
    }
    assert_eq!(t, Timing { mode: PpuMode::OamScan, dots: 0, ly: 0, frame: 1 });
}

#[test]
fn vblank_requests_interrupt_and_counts_frame() {
    let mut p = Ppu::new();
    p.write_reg(0xFF40, 0x91);
    let mut f = InterruptFlags::new();
    for _ in 0..143 {
        p.clock(456, &mut f);
    }
    p.clock(455, &mut f);
    assert!(!f.vblank);
    assert_eq!(p.frame_index(), 0);
    p.clock(1, &mut f);
    assert!(f.vblank);
    assert_eq!(p.ly(), 144);
    assert_eq!(p.read_reg(0xFF41) & 0x03, 1);
    for _ in 0..9 {
        p.clock(456, &mut f);
    }
    p.clock(455, &mut f);
    assert_eq!(p.frame_index(), 0);
    assert_eq!(p.mode(), PpuMode::VBlank);
    p.clock(1, &mut f);
    assert_eq!(p.frame_index(), 1);
    assert_eq!(p.ly(), 0);
    assert_eq!(p.mode(), PpuMode::OamScan);
}

#[test]
fn stat_interrupt_on_lyc_match() {
    let mut p = Ppu::new();
    p.write_reg(0xFF40, 0x91);
    p.write_reg(0xFF45, 2);
    p.write_reg(0xFF41, 0x40);
    let mut f = InterruptFlags::new();
    p.clock(456, &mut f);
    assert!(!f.stat);
    p.clock(456, &mut f);
    assert!(f.stat);
    assert_eq!(p.read_reg(0xFF41) & 0x04, 0x04);
}

#[test]
fn lcd_off_stops_the_clock() {
    let mut p = Ppu::new();
    let mut f = InterruptFlags::new();
    p.clock(1000, &mut f);
    assert_eq!(p.ly(), 0);
    assert_eq!(p.mode(), PpuMode::OamScan);
}

#[test]
fn background_line_uses_tile_data() {
    let mut p = Ppu::new();
    p.write_reg(0xFF40, 0x91);
    p.write_reg(0xFF47, 0xE4);
    // tile 0, row 0: colour 3 in the leftmost pixel, colour 1 in the next
    p.write_vram(0, 0xC0);
    p.write_vram(1, 0x80);
    let mut f = InterruptFlags::new();
    p.clock(80 + 172, &mut f);
    assert_eq!(p.mode(), PpuMode::HBlank);
    assert_eq!(p.shades[0], 3);
    assert_eq!(p.shades[1], 1);
    assert_eq!(p.shades[2], 0);
    let fb = p.frame_buffer().clone();
    assert_eq!(fb.len(), 160 * 144 * 3);
    assert_eq!(&fb[0..3], &[0, 0, 0]);
    assert_eq!(&fb[6..9], &[0xff, 0xff, 0xff]);
}

fn ppu_on(lcdc: u8) -> Ppu {
    let mut p = Ppu::new();
    p.write_reg(0xFF40, lcdc);
    p.write_reg(0xFF47, 0xE4);
    p.write_reg(0xFF48, 0xE4);
    p.write_reg(0xFF49, 0x1B);
    p
}

fn draw_first_line(p: &mut Ppu) {
    let mut f = InterruptFlags::new();
    p.clock(80 + 172, &mut f);
}

#[test]
fn sprite_drawn_over_background() {
    let mut p = ppu_on(0x93);
    // tile 1, row 0: colour 2 in all eight pixels
    p.write_vram(16, 0x00);
    p.write_vram(17, 0xFF);
    // sprite 0 at the top-left corner using tile 1
    p.write_oam(0, 16);
    p.write_oam(1, 8);
    p.write_oam(2, 1);
    p.write_oam(3, 0);
    draw_first_line(&mut p);
    for x in 0..8 {
        assert_eq!(p.shades[x], 2);
    }
    assert_eq!(p.shades[8], 0);
}

#[test]
fn sprite_palette_and_priority() {
    let mut p = ppu_on(0x93);
    p.write_vram(16, 0x00);
    p.write_vram(17, 0xFF);
    // background tile 0 has colour 1 in its first two pixels
    p.write_vram(0, 0xC0);
    p.write_oam(0, 16);
    p.write_oam(1, 8);
    p.write_oam(2, 1);
    // behind the background, second object palette
    p.write_oam(3, 0x90);
    draw_first_line(&mut p);
    assert_eq!(p.shades[0], 1);
    assert_eq!(p.shades[1], 1);
    // OBP1 = 0x1B maps colour 2 to shade 1
    assert_eq!(p.shades[2], 1);
}

#[test]
fn lower_x_sprite_wins() {
    let mut p = ppu_on(0x93);
    p.write_vram(16, 0x00);
    p.write_vram(17, 0xFF);
    p.write_vram(32, 0xFF);
    p.write_vram(33, 0xFF);
    // sprite 0 at x = 4 with tile 1 (colour 2), sprite 1 at x = 0 with tile 2 (colour 3)
    p.write_oam(0, 16);
    p.write_oam(1, 12);
    p.write_oam(2, 1);
    p.write_oam(4, 16);
    p.write_oam(5, 8);
    p.write_oam(6, 2);
    draw_first_line(&mut p);
    assert_eq!(p.shades[5], 3);
    assert_eq!(p.shades[9], 2);
}

#[test]
fn at_most_ten_sprites_per_line() {
    let mut p = ppu_on(0x93);
    p.write_vram(16, 0xFF);
    p.write_vram(17, 0x00);
    for s in 0..11usize {
        p.write_oam(4 * s, 16);
        p.write_oam(4 * s + 1, 8 + 8 * s as u8);
        p.write_oam(4 * s + 2, 1);
    }
    draw_first_line(&mut p);
    assert_eq!(p.shades[8 * 9], 1);
    assert_eq!(p.shades[8 * 10], 0);
}

#[test]
fn window_covers_background() {
    let mut p = ppu_on(0xB1);
    p.write_reg(0xFF4A, 0);
    p.write_reg(0xFF4B, 7 + 80);
    // tile 1 all colour 3; the window map (0x9800 here) points at it from column 0
    p.write_vram(16, 0xFF);
    p.write_vram(17, 0xFF);
    p.write_vram(0x1800, 1);
    draw_first_line(&mut p);
    // the background uses the same map, so column 0 shows tile 1 too;
    // at x = 80 the window starts again from its first tile
    assert_eq!(p.shades[0], 3);
    assert_eq!(p.shades[8], 0);
    assert_eq!(p.shades[80], 3);
    assert_eq!(p.shades[88], 0);
}
