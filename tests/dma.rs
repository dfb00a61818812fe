use gbemu::bus::Bus;

fn bus_with_source() -> Bus {
    let mut b = Bus::new();
    for i in 0..160u16 {
        b.write(0xC100 + i, (i as u8).wrapping_mul(3).wrapping_add(1));
    }
    b
}

#[test]
fn dma_copies_after_640_cycles() {
    let mut b = bus_with_source();
    b.write(0xFF46, 0xC1);
    assert!(b.dma.active());
    b.clock_dma(640);
    assert!(!b.dma.active());
    for i in 0..160u16 {
        assert_eq!(b.read(0xFE00 + i), (i as u8).wrapping_mul(3).wrapping_add(1));
    }
}

#[test]
fn dma_before_640_cycles_leaves_oam() {
    let mut b = bus_with_source();
    b.write(0xFF46, 0xC1);
    b.clock_dma(639);
    assert!(b.dma.active());
    assert_eq!(b.dma.cycles_dma(), 1);
    for i in 0..160u16 {
        assert_eq!(b.read(0xFE00 + i), 0);
    }
    b.clock_dma(4);
    assert_eq!(b.read(0xFE01), 4);
}

#[test]
fn dma_register_reads_back_page() {
    let mut b = Bus::new();
    b.write(0xFF46, 0xC1);
    assert_eq!(b.read(0xFF46), 0xC1);
}

#[test]
fn write_many_then_read_many() {
    let mut b = Bus::new();
    b.write_many(0xC010, &vec![1u8, 2, 3, 4]);
    assert_eq!(b.read_many(0xC010, 4), vec![1u8, 2, 3, 4]);
    b.write_many(0xFFFF, &vec![0x1F, 0x55]);
    assert_eq!(b.read(0xFFFF), 0x1F);
    assert_eq!(b.read(0x0000), 0xFF);
}
