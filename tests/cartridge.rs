use gbemu::cartridge::{
    compute_header_checksum, select_rom_bank, CartType, Cartridge, Header, MbcType, RamSize,
    RomSize, LOGO,
};
use gbemu::error::Error;
use gbemu::licensee::{Licensee, NewLicensee, OldLicensee};

/// A ROM image of `banks` 16 KiB banks with a valid header of kind `kind`;
/// each bank's first byte holds the bank number.
fn rom(kind: u8, rom_code: u8, ram_code: u8) -> Vec<u8> {
    let banks = 2usize << rom_code;
    let mut r = vec![0u8; banks * 0x4000];
    for b in 0..banks {
        r[b * 0x4000] = b as u8;
    }
    r[0x104..0x134].copy_from_slice(&LOGO);
    r[0x134..0x13A].copy_from_slice(b"TESTER");
    r[0x147] = kind;
    r[0x148] = rom_code;
    r[0x149] = ram_code;
    r[0x14A] = 1;
    let mut chk: u8 = 0;
    for i in 0x134..0x14D {
        chk = chk.wrapping_sub(r[i]).wrapping_sub(1);
    }
    r[0x14D] = chk;
    r
}

#[test]
fn header_parses_fields() {
    let data = rom(0x03, 2, 3);
    let h = Header::parse(&data).unwrap();
    assert_eq!(h.cart, CartType::Mbc1RamBattery);
    assert_eq!(h.romsz, 0x20000);
    assert_eq!(h.ramsz, 0x8000);
    assert!(!h.jpn);
    assert!(h.dmg && !h.cgb);
    assert_eq!(h.title(), b"TESTER".to_vec());
}

#[test]
fn header_checksum_round_trip() {
    let data = rom(0x00, 0, 0);
    let h = Header::parse(&data).unwrap();
    let bytes = h.serialize_checked();
    assert_eq!(bytes.len(), 25);
    assert_eq!(&bytes[..], &data[0x134..0x14D]);
    let mut padded = vec![0u8; 0x134];
    padded.extend_from_slice(&bytes);
    assert_eq!(compute_header_checksum(&padded), h.hchk);
    assert_eq!(compute_header_checksum(&data), data[0x14D]);
}

#[test]
fn header_rejects_bad_logo() {
    let mut data = rom(0x00, 0, 0);
    data[0x110] ^= 0xFF;
    assert_eq!(Header::parse(&data).unwrap_err(), Error::InvalidLogo);
}

#[test]
fn header_rejects_bad_checksum() {
    let mut data = rom(0x00, 0, 0);
    let good = data[0x14D];
    data[0x14D] = good.wrapping_add(1);
    assert_eq!(
        Header::parse(&data).unwrap_err(),
        Error::HeaderChecksum { expected: good.wrapping_add(1), found: good }
    );
}

#[test]
fn header_rejects_short_image() {
    assert_eq!(Header::parse(&vec![0u8; 0x100]).unwrap_err(), Error::RomSize);
}

#[test]
fn header_rejects_codes() {
    let mut data = rom(0x00, 0, 0);
    data[0x147] = 0x04;
    let chk = compute_header_checksum(&data);
    data[0x14D] = chk;
    assert_eq!(Header::parse(&data).unwrap_err(), Error::CartType(0x04));
    let mut data = rom(0x00, 0, 0);
    data[0x149] = 0x07;
    data[0x14D] = compute_header_checksum(&data);
    assert_eq!(Header::parse(&data).unwrap_err(), Error::RamSizeCode(0x07));
    let mut data = rom(0x00, 0, 0);
    data[0x148] = 0x09;
    data[0x14D] = compute_header_checksum(&data);
    assert_eq!(Header::parse(&data).unwrap_err(), Error::RomSizeCode(0x09));
    let mut data = rom(0x00, 0, 0);
    data[0x14A] = 0x02;
    data[0x14D] = compute_header_checksum(&data);
    assert_eq!(Header::parse(&data).unwrap_err(), Error::Region(0x02));
}

#[test]
fn cartridge_rejects_unsupported_and_short() {
    let data = rom(0x11, 0, 0);
    assert_eq!(Cartridge::new(data, None).unwrap_err(), Error::UnsupportedMbc(0x11));
    let mut data = rom(0x00, 1, 0);
    data.truncate(0x8000);
    assert_eq!(Cartridge::new(data, None).unwrap_err(), Error::RomSize);
}

#[test]
fn mbc1_zero_and_multiples_select_bank_one() {
    let mut c = Cartridge::new(rom(0x01, 2, 0), None).unwrap();
    assert_eq!(c.mbc(), MbcType::Mbc1);
    for v in [0u8, 8, 16, 24, 32, 0x40, 0xE0] {
        c.write(0x2000, v);
        assert_eq!(c.rom_bank(), 1);
        assert_eq!(c.read(0x4000), 1);
    }
    c.write(0x2000, 3);
    assert_eq!(c.read(0x4000), 3);
    c.write(0x2000, 11);
    assert_eq!(c.rom_bank(), 3);
    assert_eq!(select_rom_bank(0, 2), 1);
    assert_eq!(select_rom_bank(64, 128), 1);
}

#[test]
fn mbc1_ram_enable_protocol() {
    let mut c = Cartridge::new(rom(0x03, 0, 2), None).unwrap();
    c.write(0xA000, 0x12);
    assert_eq!(c.read(0xA000), 0xFF);
    c.write(0x0000, 0x1A);
    c.write(0xA000, 0x12);
    assert_eq!(c.read(0xA000), 0x12);
    c.write(0x0000, 0x00);
    assert_eq!(c.read(0xA000), 0xFF);
    assert!(c.has_battery());
}

#[test]
fn rom_only_ignores_writes() {
    let mut c = Cartridge::new(rom(0x00, 0, 0), None).unwrap();
    c.write(0x2000, 5);
    assert_eq!(c.read(0x4000), 1);
    assert_eq!(c.read(0xA000), 0xFF);
    assert_eq!(c.cart_type().description(), "ROM Only");
}

#[test]
fn saved_ram_is_loaded() {
    let mut saved = vec![0u8; 0x2000];
    saved[5] = 0x77;
    let mut c = Cartridge::new(rom(0x03, 0, 2), Some(saved)).unwrap();
    c.write(0x0000, 0x0A);
    assert_eq!(c.read(0xA005), 0x77);
}

#[test]
fn licensee_old_and_new_codes() {
    let mut data = rom(0x00, 0, 0);
    data[0x14B] = 0x01;
    data[0x14D] = compute_header_checksum(&data);
    let h = Header::parse(&data).unwrap();
    assert_eq!(h.licensee(), Some(Licensee::Old(OldLicensee::Nintendo)));
    assert_eq!(h.licensee().unwrap().name(), "Nintendo");
    let mut data = rom(0x00, 0, 0);
    data[0x14B] = 0x33;
    data[0x144] = b'0';
    data[0x145] = b'1';
    data[0x14D] = compute_header_checksum(&data);
    let h = Header::parse(&data).unwrap();
    assert_eq!(h.licensee(), Some(Licensee::New(NewLicensee::NintendoRD1)));
}

#[test]
fn declared_sizes() {
    let c = Cartridge::new(rom(0x03, 2, 3), None).unwrap();
    assert_eq!(c.rom_size(), RomSize::Size128K);
    assert_eq!(c.rom_size().rom_banks(), 8);
    assert_eq!(c.ram_size(), RamSize::Size32K);
    assert_eq!(c.ram_size().ram_banks(), 4);
    assert_eq!(c.ram().len(), 0x8000);
    assert_eq!(RomSize::from_code(9), RomSize::SizeUnknown);
    assert_eq!(RamSize::from_code(5).description(), "64 KB");
    assert_eq!(c.title(), b"TESTER".to_vec());
}

#[test]
fn test_header() {
    let data = rom(0x01, 1, 0);
    match Header::parse(&data) {
        Ok(header) => {
            assert_eq!(header.cart, CartType::Mbc1);
            assert_eq!(header.hchk, data[0x14D]);
        },
        Err(e) => panic!("Error parsing header: {:?}", e),
    }
}

#[test]
fn saved_ram_of_other_length_is_kept() {
    let saved = vec![0x42u8; 0x800];
    let mut c = Cartridge::new(rom(0x03, 0, 2), Some(saved.clone())).unwrap();
    assert_eq!(c.ram(), &saved);
    c.write(0x0000, 0x0A);
    assert_eq!(c.read(0xA7FF), 0x42);
    assert_eq!(c.read(0xA800), 0xFF);
    c.set_ram_data(&vec![1u8, 2, 3]);
    assert_eq!(c.ram(), &vec![1u8, 2, 3]);
}

#[test]
fn mbc5_header_parses_but_does_not_load() {
    let data = rom(0x1B, 1, 2);
    let h = Header::parse(&data).unwrap();
    assert_eq!(h.cart, CartType::Mbc5RamBattery);
    assert_eq!(h.cart.mbc_type(), MbcType::Mbc5);
    assert!(h.cart.has_battery());
    assert_eq!(Cartridge::new(data, None).unwrap_err(), Error::UnsupportedMbc(0x1B));
    assert_eq!(CartType::from_code(0xFF), Some(CartType::HuC1RamBattery));
    assert_eq!(CartType::HuC3.code(), 0xFE);
}

#[test]
fn cart_type_can_be_changed() {
    let mut c = Cartridge::new(rom(0x00, 1, 0), None).unwrap();
    assert_eq!(c.set_cart_type(CartType::Mbc1), Ok(()));
    assert_eq!(c.rom()[0x147], 0x01);
    assert_eq!(c.mbc(), MbcType::Mbc1);
    c.write(0x2000, 2);
    assert_eq!(c.read(0x4000), 2);
    assert_eq!(c.set_cart_type(CartType::Mbc3), Err(Error::UnsupportedMbc(0x11)));
    assert_eq!(c.cart_type(), CartType::Mbc1);
}
