//! Cartridges: header parsing and the bank controllers.
use vstd::prelude::*;
use crate::error::Error;
use crate::licensee::{new_licensee_of, old_licensee_of, Licensee, NewLicensee, OldLicensee};
use crate::register::pow2;

verus! {

/// The logo every cartridge must carry at 0x104..=0x133.
pub const LOGO: [u8; 48] = [
    0xce, 0xed, 0x66, 0x66, 0xcc, 0x0d, 0x00, 0x0b, 0x03, 0x73, 0x00, 0x83, 0x00, 0x0c, 0x00, 0x0d,
    0x00, 0x08, 0x11, 0x1f, 0x88, 0x89, 0x00, 0x0e, 0xdc, 0xcc, 0x6e, 0xe6, 0xdd, 0xdd, 0xd9, 0x99,
    0xbb, 0xbb, 0x67, 0x63, 0x6e, 0x0e, 0xec, 0xcc, 0xdd, 0xdc, 0x99, 0x9f, 0xbb, 0xb9, 0x33, 0x3e,
];

/// Size of one switchable ROM bank.
pub const ROM_BANK_SIZE: usize = 0x4000;

/// Size of one cartridge RAM bank.
pub const RAM_BANK_SIZE: usize = 0x2000;

/// The header checksum over `bytes`: start at 0 and, for each byte `b`,
/// subtract `b + 1`, all modulo 256.
pub open spec fn header_checksum(bytes: Seq<u8>) -> u8
    decreases bytes.len(),
{
    if bytes.len() == 0 {
        0
    } else {
        header_checksum(bytes.drop_last()).wrapping_sub(bytes.last()).wrapping_sub(1)
    }
}

/// Sum of `bytes`, modulo 2^16.
pub open spec fn byte_sum(bytes: Seq<u8>) -> u16
    decreases bytes.len(),
{
    if bytes.len() == 0 {
        0
    } else {
        byte_sum(bytes.drop_last()).wrapping_add(bytes.last() as u16)
    }
}

/// The global checksum of a ROM: the sum of every byte but the two that hold it.
pub open spec fn global_checksum(rom: Seq<u8>) -> u16 {
    byte_sum(rom).wrapping_sub(rom[0x14E] as u16).wrapping_sub(rom[0x14F] as u16)
}

/// Number of 16 KiB ROM banks that ROM-size code `code` (0..=8) declares.
pub open spec fn rom_banks_of(code: u8) -> int {
    2 * pow2(code as int)
}

/// Bytes of cartridge RAM that RAM-size code `code` declares (codes 0..=5).
pub open spec fn ram_bytes_of(code: u8) -> int {
    if code == 0 {
        0
    } else if code == 1 {
        0x800
    } else if code == 2 {
        0x2000
    } else if code == 3 {
        0x8000
    } else if code == 4 {
        0x20000
    } else {
        0x10000
    }
}

/// The bank controller families this library knows of.
#[derive(Clone, Copy, Debug, PartialEq, Eq, Structural)]
pub enum MbcType {
    NoMbc,
    Mbc1,
    Mbc2,
    Mbc3,
    Mbc5,
    Mbc6,
    Mbc7,
    Unknown,
}

impl MbcType {
    /// Mask applied to RAM bank numbers by this controller.
    pub fn ram_bank_mask(&self) -> (r: u8)
        ensures
            *self == MbcType::NoMbc ==> r == 0,
            *self == MbcType::Mbc1 ==> r == 3,
    {
        match self {
            MbcType::NoMbc => 0x00,
            MbcType::Mbc1 => 0x03,
            MbcType::Mbc2 => 0x00,
            MbcType::Mbc3 => 0x03,
            MbcType::Mbc5 => 0x0f,
            _ => 0x00,
        }
    }
}

/// The cartridge kinds named by the byte at 0x147.
#[derive(Clone, Copy, Debug, PartialEq, Eq, Structural)]
pub enum CartType {
    RomOnly,
    Mbc1,
    Mbc1Ram,
    Mbc1RamBattery,
    Mbc2,
    Mbc2Battery,
    RomRam,
    RomRamBattery,
    Mmm01,
    Mmm01Ram,
    Mmm01RamBattery,
    Mbc3TimerBattery,
    Mbc3TimerRamBattery,
    Mbc3,
    Mbc3Ram,
    Mbc3RamBattery,
    Mbc5,
    Mbc5Ram,
    Mbc5RamBattery,
    Mbc5Rumble,
    Mbc5RumbleRam,
    Mbc5RumbleRamBattery,
    Mbc6,
    Mbc7SensorRumbleRamBattery,
    PocketCamera,
    HuC3,
    HuC1RamBattery,
}

/// The kind that byte `code` at 0x147 names, if any.
pub open spec fn cart_type_of(code: u8) -> Option<CartType> {
    match code {
        0x00 => Some(CartType::RomOnly),
        0x01 => Some(CartType::Mbc1),
        0x02 => Some(CartType::Mbc1Ram),
        0x03 => Some(CartType::Mbc1RamBattery),
        0x05 => Some(CartType::Mbc2),
        0x06 => Some(CartType::Mbc2Battery),
        0x08 => Some(CartType::RomRam),
        0x09 => Some(CartType::RomRamBattery),
        0x0b => Some(CartType::Mmm01),
        0x0c => Some(CartType::Mmm01Ram),
        0x0d => Some(CartType::Mmm01RamBattery),
        0x0f => Some(CartType::Mbc3TimerBattery),
        0x10 => Some(CartType::Mbc3TimerRamBattery),
        0x11 => Some(CartType::Mbc3),
        0x12 => Some(CartType::Mbc3Ram),
        0x13 => Some(CartType::Mbc3RamBattery),
        0x19 => Some(CartType::Mbc5),
        0x1a => Some(CartType::Mbc5Ram),
        0x1b => Some(CartType::Mbc5RamBattery),
        0x1c => Some(CartType::Mbc5Rumble),
        0x1d => Some(CartType::Mbc5RumbleRam),
        0x1e => Some(CartType::Mbc5RumbleRamBattery),
        0x20 => Some(CartType::Mbc6),
        0x22 => Some(CartType::Mbc7SensorRumbleRamBattery),
        0xfc => Some(CartType::PocketCamera),
        0xfe => Some(CartType::HuC3),
        0xff => Some(CartType::HuC1RamBattery),
        _ => None,
    }
}

impl CartType {
    /// Decodes the byte at 0x147.
    pub fn from_code(code: u8) -> (r: Option<CartType>)
        ensures
            r == cart_type_of(code),
    {
        match code {
            0x00 => Some(CartType::RomOnly),
            0x01 => Some(CartType::Mbc1),
            0x02 => Some(CartType::Mbc1Ram),
            0x03 => Some(CartType::Mbc1RamBattery),
            0x05 => Some(CartType::Mbc2),
            0x06 => Some(CartType::Mbc2Battery),
            0x08 => Some(CartType::RomRam),
            0x09 => Some(CartType::RomRamBattery),
            0x0b => Some(CartType::Mmm01),
            0x0c => Some(CartType::Mmm01Ram),
            0x0d => Some(CartType::Mmm01RamBattery),
            0x0f => Some(CartType::Mbc3TimerBattery),
            0x10 => Some(CartType::Mbc3TimerRamBattery),
            0x11 => Some(CartType::Mbc3),
            0x12 => Some(CartType::Mbc3Ram),
            0x13 => Some(CartType::Mbc3RamBattery),
            0x19 => Some(CartType::Mbc5),
            0x1a => Some(CartType::Mbc5Ram),
            0x1b => Some(CartType::Mbc5RamBattery),
            0x1c => Some(CartType::Mbc5Rumble),
            0x1d => Some(CartType::Mbc5RumbleRam),
            0x1e => Some(CartType::Mbc5RumbleRamBattery),
            0x20 => Some(CartType::Mbc6),
            0x22 => Some(CartType::Mbc7SensorRumbleRamBattery),
            0xfc => Some(CartType::PocketCamera),
            0xfe => Some(CartType::HuC3),
            0xff => Some(CartType::HuC1RamBattery),
            _ => None,
        }
    }

    pub open spec fn mbc_of(self) -> MbcType {
        match self {
            CartType::RomOnly | CartType::RomRam | CartType::RomRamBattery => MbcType::NoMbc,
            CartType::Mbc1 | CartType::Mbc1Ram | CartType::Mbc1RamBattery => MbcType::Mbc1,
            CartType::Mbc2 | CartType::Mbc2Battery => MbcType::Mbc2,
            CartType::Mbc3TimerBattery
            | CartType::Mbc3TimerRamBattery
            | CartType::Mbc3
            | CartType::Mbc3Ram
            | CartType::Mbc3RamBattery => MbcType::Mbc3,
            CartType::Mbc5
            | CartType::Mbc5Ram
            | CartType::Mbc5RamBattery
            | CartType::Mbc5Rumble
            | CartType::Mbc5RumbleRam
            | CartType::Mbc5RumbleRamBattery => MbcType::Mbc5,
            CartType::Mbc6 => MbcType::Mbc6,
            CartType::Mbc7SensorRumbleRamBattery => MbcType::Mbc7,
            _ => MbcType::Unknown,
        }
    }

    pub open spec fn battery_of(self) -> bool {
        match self {
            CartType::Mbc1RamBattery
            | CartType::Mbc2Battery
            | CartType::RomRamBattery
            | CartType::Mmm01RamBattery
            | CartType::Mbc3TimerBattery
            | CartType::Mbc3TimerRamBattery
            | CartType::Mbc3RamBattery
            | CartType::Mbc5RamBattery
            | CartType::Mbc5RumbleRamBattery
            | CartType::Mbc7SensorRumbleRamBattery
            | CartType::HuC1RamBattery => true,
            _ => false,
        }
    }

    /// The byte at 0x147 that names this kind.
    pub fn code(&self) -> (r: u8)
        ensures
            cart_type_of(r) == Some(*self),
    {
        match self {
            CartType::RomOnly => 0x00,
            CartType::Mbc1 => 0x01,
            CartType::Mbc1Ram => 0x02,
            CartType::Mbc1RamBattery => 0x03,
            CartType::Mbc2 => 0x05,
            CartType::Mbc2Battery => 0x06,
            CartType::RomRam => 0x08,
            CartType::RomRamBattery => 0x09,
            CartType::Mmm01 => 0x0b,
            CartType::Mmm01Ram => 0x0c,
            CartType::Mmm01RamBattery => 0x0d,
            CartType::Mbc3TimerBattery => 0x0f,
            CartType::Mbc3TimerRamBattery => 0x10,
            CartType::Mbc3 => 0x11,
            CartType::Mbc3Ram => 0x12,
            CartType::Mbc3RamBattery => 0x13,
            CartType::Mbc5 => 0x19,
            CartType::Mbc5Ram => 0x1a,
            CartType::Mbc5RamBattery => 0x1b,
            CartType::Mbc5Rumble => 0x1c,
            CartType::Mbc5RumbleRam => 0x1d,
            CartType::Mbc5RumbleRamBattery => 0x1e,
            CartType::Mbc6 => 0x20,
            CartType::Mbc7SensorRumbleRamBattery => 0x22,
            CartType::PocketCamera => 0xfc,
            CartType::HuC3 => 0xfe,
            CartType::HuC1RamBattery => 0xff,
        }
    }

    /// The bank controller family of this kind.
    pub fn mbc_type(&self) -> (r: MbcType)
        ensures
            r == self.mbc_of(),
    {
        match self {
            CartType::RomOnly | CartType::RomRam | CartType::RomRamBattery => MbcType::NoMbc,
            CartType::Mbc1 | CartType::Mbc1Ram | CartType::Mbc1RamBattery => MbcType::Mbc1,
            CartType::Mbc2 | CartType::Mbc2Battery => MbcType::Mbc2,
            CartType::Mbc3TimerBattery
            | CartType::Mbc3TimerRamBattery
            | CartType::Mbc3
            | CartType::Mbc3Ram
            | CartType::Mbc3RamBattery => MbcType::Mbc3,
            CartType::Mbc5
            | CartType::Mbc5Ram
            | CartType::Mbc5RamBattery
            | CartType::Mbc5Rumble
            | CartType::Mbc5RumbleRam
            | CartType::Mbc5RumbleRamBattery => MbcType::Mbc5,
            CartType::Mbc6 => MbcType::Mbc6,
            CartType::Mbc7SensorRumbleRamBattery => MbcType::Mbc7,
            _ => MbcType::Unknown,
        }
    }

    /// Whether this kind keeps its RAM powered by a battery.
    pub fn has_battery(&self) -> (r: bool)
        ensures
            r == self.battery_of(),
    {
        match self {
            CartType::Mbc1RamBattery
            | CartType::Mbc2Battery
            | CartType::RomRamBattery
            | CartType::Mmm01RamBattery
            | CartType::Mbc3TimerBattery
            | CartType::Mbc3TimerRamBattery
            | CartType::Mbc3RamBattery
            | CartType::Mbc5RamBattery
            | CartType::Mbc5RumbleRamBattery
            | CartType::Mbc7SensorRumbleRamBattery
            | CartType::HuC1RamBattery => true,
            _ => false,
        }
    }

    /// A short name for the kind.
    pub fn description(&self) -> &'static str {
        match self {
            CartType::RomOnly => "ROM Only",
            CartType::Mbc1 => "MBC1",
            CartType::Mbc1Ram => "MBC1 + RAM",
            CartType::Mbc1RamBattery => "MBC1 + RAM + Battery",
            CartType::Mbc2 => "MBC2",
            CartType::Mbc2Battery => "MBC2 + RAM",
            CartType::RomRam => "ROM + RAM",
            CartType::RomRamBattery => "ROM + RAM + BATTERY",
            CartType::Mmm01 => "MMM01",
            CartType::Mmm01Ram => "MMM01 + RAM",
            CartType::Mmm01RamBattery => "MMM01 + RAM + BATTERY",
            CartType::Mbc3TimerBattery => "MBC3 + TIMER + BATTERY",
            CartType::Mbc3TimerRamBattery => "MBC3 + TIMER + RAM + BATTERY",
            CartType::Mbc3 => "MBC3",
            CartType::Mbc3Ram => "MBC3 + RAM",
            CartType::Mbc3RamBattery => "MBC3 + RAM + BATTERY",
            CartType::Mbc5 => "MBC5",
            CartType::Mbc5Ram => "MBC5 + RAM",
            CartType::Mbc5RamBattery => "MBC5 + RAM + BATTERY",
            CartType::Mbc5Rumble => "MBC5 + RUMBLE",
            CartType::Mbc5RumbleRam => "MBC5 + RUMBLE + RAM",
            CartType::Mbc5RumbleRamBattery => "MBC5 + RUMBLE + RAM + BATTERY",
            CartType::Mbc6 => "MBC6",
            CartType::Mbc7SensorRumbleRamBattery => "MBC7 + SENSOR + RUMBLE + RAM + BATTERY",
            CartType::PocketCamera => "POCKET CAMERA",
            CartType::HuC3 => "HuC3",
            CartType::HuC1RamBattery => "HuC1 + RAM + BATTERY",
        }
    }
}

/// ROM sizes that byte 0x148 declares.
#[derive(Clone, Copy, Debug, PartialEq, Eq, Structural)]
pub enum RomSize {
    Size32K,
    Size64K,
    Size128K,
    Size256K,
    Size512K,
    Size1M,
    Size2M,
    Size4M,
    Size8M,
    SizeUnknown,
}

impl RomSize {
    /// The size that ROM-size code `code` declares.
    pub fn from_code(code: u8) -> (r: RomSize)
        ensures
            code <= 8 ==> r.rom_banks_spec() == rom_banks_of(code),
            code > 8 <==> r == RomSize::SizeUnknown,
    {
        proof {
            reveal_with_fuel(pow2, 9);
        }
        match code {
            0 => RomSize::Size32K,
            1 => RomSize::Size64K,
            2 => RomSize::Size128K,
            3 => RomSize::Size256K,
            4 => RomSize::Size512K,
            5 => RomSize::Size1M,
            6 => RomSize::Size2M,
            7 => RomSize::Size4M,
            8 => RomSize::Size8M,
            _ => RomSize::SizeUnknown,
        }
    }

    pub open spec fn rom_banks_spec(self) -> int {
        match self {
            RomSize::Size32K => 2,
            RomSize::Size64K => 4,
            RomSize::Size128K => 8,
            RomSize::Size256K => 16,
            RomSize::Size512K => 32,
            RomSize::Size1M => 64,
            RomSize::Size2M => 128,
            RomSize::Size4M => 256,
            RomSize::Size8M => 512,
            RomSize::SizeUnknown => 0,
        }
    }

    /// Number of 16 KiB banks; 0 for an unknown size.
    pub fn rom_banks(&self) -> (r: u16)
        ensures
            r == self.rom_banks_spec(),
    {
        match self {
            RomSize::Size32K => 2,
            RomSize::Size64K => 4,
            RomSize::Size128K => 8,
            RomSize::Size256K => 16,
            RomSize::Size512K => 32,
            RomSize::Size1M => 64,
            RomSize::Size2M => 128,
            RomSize::Size4M => 256,
            RomSize::Size8M => 512,
            RomSize::SizeUnknown => 0,
        }
    }

    pub fn description(&self) -> &'static str {
        match self {
            RomSize::Size32K => "32 KB",
            RomSize::Size64K => "64 KB",
            RomSize::Size128K => "128 KB",
            RomSize::Size256K => "256 KB",
            RomSize::Size512K => "512 KB",
            RomSize::Size1M => "1 MB",
            RomSize::Size2M => "2 MB",
            RomSize::Size4M => "4 MB",
            RomSize::Size8M => "8 MB",
            RomSize::SizeUnknown => "Unknown",
        }
    }
}

/// RAM sizes that byte 0x149 declares.
#[derive(Clone, Copy, Debug, PartialEq, Eq, Structural)]
pub enum RamSize {
    NoRam,
    Unused,
    Size8K,
    Size32K,
    Size128K,
    Size64K,
    SizeUnknown,
}

impl RamSize {
    /// The size that RAM-size code `code` declares.
    pub fn from_code(code: u8) -> (r: RamSize)
        ensures
            code <= 5 ==> r.ram_bytes_spec() == ram_bytes_of(code),
            code > 5 <==> r == RamSize::SizeUnknown,
    {
        match code {
            0 => RamSize::NoRam,
            1 => RamSize::Unused,
            2 => RamSize::Size8K,
            3 => RamSize::Size32K,
            4 => RamSize::Size128K,
            5 => RamSize::Size64K,
            _ => RamSize::SizeUnknown,
        }
    }

    pub open spec fn ram_bytes_spec(self) -> int {
        match self {
            RamSize::NoRam => 0,
            RamSize::Unused => 0x800,
            RamSize::Size8K => 0x2000,
            RamSize::Size32K => 0x8000,
            RamSize::Size128K => 0x20000,
            RamSize::Size64K => 0x10000,
            RamSize::SizeUnknown => 0,
        }
    }

    /// Number of 8 KiB banks (the 2 KiB size counts as none).
    pub fn ram_banks(&self) -> (r: u16)
        ensures
            r == self.ram_bytes_spec() / 0x2000,
    {
        match self {
            RamSize::NoRam => 0,
            RamSize::Unused => 0,
            RamSize::Size8K => 1,
            RamSize::Size32K => 4,
            RamSize::Size128K => 16,
            RamSize::Size64K => 8,
            RamSize::SizeUnknown => 0,
        }
    }

    pub fn description(&self) -> &'static str {
        match self {
            RamSize::NoRam => "No RAM",
            RamSize::Unused => "2 KB",
            RamSize::Size8K => "8 KB",
            RamSize::Size32K => "32 KB",
            RamSize::Size128K => "128 KB",
            RamSize::Size64K => "64 KB",
            RamSize::SizeUnknown => "Unknown",
        }
    }
}

/// The fields of a cartridge header (0x100..=0x14F).
#[derive(Debug)]
pub struct Header {
    /// Bytes 0x134..=0x143: the title, whose last byte doubles as the CGB flag.
    pub title_raw: Vec<u8>,
    /// Byte 0x144, first half of the new licensee code.
    pub new_licensee_hi: u8,
    /// Byte 0x145, second half of the new licensee code.
    pub new_licensee_lo: u8,
    /// Byte 0x146.
    pub sgb_flag: u8,
    /// Byte 0x147.
    pub cart_code: u8,
    /// Byte 0x148.
    pub rom_code: u8,
    /// Byte 0x149.
    pub ram_code: u8,
    /// Byte 0x14A.
    pub region_code: u8,
    /// Byte 0x14B.
    pub old_licensee: u8,
    /// Byte 0x14C.
    pub version: u8,
    /// Byte 0x14D.
    pub hchk: u8,
    /// Bytes 0x14E..=0x14F, big-endian.
    pub gchk: u16,
    pub cart: CartType,
    pub dmg: bool,
    pub cgb: bool,
    pub sgb: bool,
    pub jpn: bool,
    /// ROM size in bytes.
    pub romsz: usize,
    /// RAM size in bytes.
    pub ramsz: usize,
    /// Whether the global checksum matched (hardware never checks it).
    pub gchk_ok: bool,
}

impl Header {
    /// The 25 bytes 0x134..=0x14C that the header checksum covers, as this
    /// header holds them.
    pub open spec fn checksum_bytes(self) -> Seq<u8> {
        self.title_raw@ + seq![
            self.new_licensee_hi,
            self.new_licensee_lo,
            self.sgb_flag,
            self.cart_code,
            self.rom_code,
            self.ram_code,
            self.region_code,
            self.old_licensee,
            self.version,
        ]
    }

    /// `h` is what a successful parse of `rom` gives.
    pub open spec fn parsed_from(self, rom: Seq<u8>) -> bool {
        &&& rom.len() >= 0x150
        &&& self.checksum_bytes() == rom.subrange(0x134, 0x14D)
        &&& self.title_raw@ == rom.subrange(0x134, 0x144)
        &&& self.cart_code == rom[0x147]
        &&& self.rom_code == rom[0x148]
        &&& self.ram_code == rom[0x149]
        &&& self.region_code == rom[0x14A]
        &&& self.hchk == rom[0x14D]
        &&& self.gchk == rom[0x14E] as int * 256 + rom[0x14F] as int
        &&& self.gchk_ok == (global_checksum(rom) == self.gchk)
        &&& cart_type_of(self.cart_code) == Some(self.cart)
        &&& self.rom_code <= 8 && self.romsz == 0x4000 * rom_banks_of(self.rom_code)
        &&& self.ram_code <= 5 && self.ramsz == ram_bytes_of(self.ram_code)
        &&& self.jpn == (self.region_code == 0)
        &&& self.sgb == (self.sgb_flag == 3)
        &&& self.dmg == (rom[0x143] < 0x80)
        &&& self.cgb == (rom[0x143] >= 0x80)
    }

    /// Parses and checks the header of `rom`.
    pub fn parse(rom: &Vec<u8>) -> (r: Result<Header, Error>)
        ensures
            rom@.len() < 0x150 ==> r == Err::<Header, Error>(Error::RomSize),
            r is Ok <==> header_valid(rom@),
            r matches Ok(h) ==> h.parsed_from(rom@),
            rom@.len() >= 0x150 && rom@.subrange(0x104, 0x134) != LOGO@ ==> r == Err::<Header, Error>(
                Error::InvalidLogo,
            ),
            rom@.len() >= 0x150 && rom@.subrange(0x104, 0x134) == LOGO@ && header_checksum(
                rom@.subrange(0x134, 0x14D),
            ) != rom@[0x14D] ==> r == Err::<Header, Error>(
                Error::HeaderChecksum {
                    expected: rom@[0x14D],
                    found: header_checksum(rom@.subrange(0x134, 0x14D)),
                },
            ),
            header_sound(rom@) && !cgb_flag_ok(rom@[0x143]) ==> r == Err::<Header, Error>(
                Error::CgbFlag(rom@[0x143]),
            ),
            header_sound(rom@) && cgb_flag_ok(rom@[0x143]) && cart_type_of(rom@[0x147]) is None
                ==> r == Err::<Header, Error>(Error::CartType(rom@[0x147])),
            header_sound(rom@) && cgb_flag_ok(rom@[0x143]) && cart_type_of(rom@[0x147]) is Some
                && rom@[0x148] > 8 ==> r == Err::<Header, Error>(Error::RomSizeCode(rom@[0x148])),
            header_sound(rom@) && cgb_flag_ok(rom@[0x143]) && cart_type_of(rom@[0x147]) is Some
                && rom@[0x148] <= 8 && rom@[0x149] > 5 ==> r == Err::<Header, Error>(
                Error::RamSizeCode(rom@[0x149]),
            ),
            header_sound(rom@) && cgb_flag_ok(rom@[0x143]) && cart_type_of(rom@[0x147]) is Some
                && rom@[0x148] <= 8 && rom@[0x149] <= 5 && rom@[0x14A] > 1 ==> r == Err::<
                Header,
                Error,
            >(Error::Region(rom@[0x14A])),
    {
        if rom.len() < 0x150 {
            return Err(Error::RomSize);
        }
        let mut i: usize = 0;
        while i < 48
            invariant
                rom@.len() >= 0x150,
                0 <= i <= 48,
                forall|j: int| 0 <= j < i ==> rom@[0x104 + j] == LOGO@[j],
            decreases 48 - i,
        {
            if rom[0x104 + i] != LOGO[i] {
                assert(rom@.subrange(0x104, 0x134)[i as int] != LOGO@[i as int]);
                return Err(Error::InvalidLogo);
            }
            i = i + 1;
        }
        assert(rom@.subrange(0x104, 0x134) =~= LOGO@);
        let found = compute_header_checksum(rom);
        let expected = rom[0x14D];
        if found != expected {
            return Err(Error::HeaderChecksum { expected, found });
        }
        let cgb_byte = rom[0x143];
        if cgb_byte % 0x40 != 0 {
            return Err(Error::CgbFlag(cgb_byte));
        }
        let cart_code = rom[0x147];
        let cart = match CartType::from_code(cart_code) {
            Some(c) => c,
            None => return Err(Error::CartType(cart_code)),
        };
        let rom_code = rom[0x148];
        if rom_code > 8 {
            return Err(Error::RomSizeCode(rom_code));
        }
        let ram_code = rom[0x149];
        if ram_code > 5 {
            return Err(Error::RamSizeCode(ram_code));
        }
        let region_code = rom[0x14A];
        if region_code > 1 {
            return Err(Error::Region(region_code));
        }
        let banks = rom_bank_count(rom_code);
        let gchk = (rom[0x14E] as u16) * 256 + (rom[0x14F] as u16);
        let sum = compute_global_checksum(rom);
        let mut title_raw: Vec<u8> = Vec::new();
        let mut k: usize = 0x134;
        while k < 0x144
            invariant
                rom@.len() >= 0x150,
                0x134 <= k <= 0x144,
                title_raw@ == rom@.subrange(0x134, k as int),
            decreases 0x144 - k,
        {
            title_raw.push(rom[k]);
            assert(title_raw@ =~= rom@.subrange(0x134, k + 1));
            k = k + 1;
        }
        let h = Header {
            title_raw,
            new_licensee_hi: rom[0x144],
            new_licensee_lo: rom[0x145],
            sgb_flag: rom[0x146],
            cart_code,
            rom_code,
            ram_code,
            region_code,
            old_licensee: rom[0x14B],
            version: rom[0x14C],
            hchk: expected,
            gchk,
            cart,
            dmg: cgb_byte < 0x80,
            cgb: cgb_byte >= 0x80,
            sgb: rom[0x146] == 3,
            jpn: region_code == 0,
            romsz: banks * ROM_BANK_SIZE,
            ramsz: ram_byte_count(ram_code),
            gchk_ok: sum == gchk,
        };
        assert(h.checksum_bytes() =~= rom@.subrange(0x134, 0x14D));
        Ok(h)
    }

    /// The title: the bytes from 0x134 up to the first zero byte, at most 15
    /// on CGB cartridges (whose 16th byte is the CGB flag) and 16 otherwise.
    pub fn title(&self) -> (r: Vec<u8>)
        ensures
            r@.len() <= self.title_raw@.len(),
            r@.len() <= (if self.cgb { 15int } else { 16int }),
            forall|i: int| 0 <= i < r@.len() ==> r@[i] == self.title_raw@[i] && r@[i] != 0,
            r@.len() < self.title_raw@.len() && r@.len() < (if self.cgb { 15int } else { 16int })
                ==> self.title_raw@[r@.len() as int] == 0,
    {
        let limit: usize = if self.cgb {
            15
        } else {
            16
        };
        let mut r: Vec<u8> = Vec::new();
        let mut i: usize = 0;
        while i < limit && i < self.title_raw.len()
            invariant
                limit == (if self.cgb { 15usize } else { 16usize }),
                i <= limit,
                i <= self.title_raw@.len(),
                r@.len() == i,
                forall|j: int| 0 <= j < i ==> r@[j] == self.title_raw@[j] && r@[j] != 0,
            decreases limit - i,
        {
            let b = self.title_raw[i];
            if b == 0 {
                return r;
            }
            r.push(b);
            i = i + 1;
        }
        r
    }

    /// The licensee: the new two-byte code when the old code is 0x33, the
    /// old code otherwise; `None` for a code no publisher is known under.
    pub fn licensee(&self) -> (r: Option<Licensee>)
        ensures
            self.old_licensee == 0x33 ==> r == match new_licensee_of(
                (self.new_licensee_lo as int * 256 + self.new_licensee_hi as int) as u16,
            ) {
                Some(l) => Some(Licensee::New(l)),
                None => None,
            },
            self.old_licensee != 0x33 ==> r == match old_licensee_of(self.old_licensee) {
                Some(l) => Some(Licensee::Old(l)),
                None => None,
            },
    {
        if self.old_licensee == 0x33 {
            let code = self.new_licensee_lo as u16 * 256 + self.new_licensee_hi as u16;
            match NewLicensee::from_code(code) {
                Some(l) => Some(Licensee::New(l)),
                None => None,
            }
        } else {
            match OldLicensee::from_code(self.old_licensee) {
                Some(l) => Some(Licensee::Old(l)),
                None => None,
            }
        }
    }

    /// A copy of this header.
    pub fn duplicate(&self) -> (r: Header)
        ensures
            r.title_raw@ == self.title_raw@,
            r == (Header { title_raw: r.title_raw, ..*self }),
    {
        let title_raw = self.title_raw.clone();
        Header {
            title_raw,
            new_licensee_hi: self.new_licensee_hi,
            new_licensee_lo: self.new_licensee_lo,
            sgb_flag: self.sgb_flag,
            cart_code: self.cart_code,
            rom_code: self.rom_code,
            ram_code: self.ram_code,
            region_code: self.region_code,
            old_licensee: self.old_licensee,
            version: self.version,
            hchk: self.hchk,
            gchk: self.gchk,
            cart: self.cart,
            dmg: self.dmg,
            cgb: self.cgb,
            sgb: self.sgb,
            jpn: self.jpn,
            romsz: self.romsz,
            ramsz: self.ramsz,
            gchk_ok: self.gchk_ok,
        }
    }

    /// The 25 bytes the header checksum covers, in ROM order.
    pub fn serialize_checked(&self) -> (r: Vec<u8>)
        ensures
            r@ == self.checksum_bytes(),
    {
        let mut r = self.title_raw.clone();
        assert(r@ == self.title_raw@);
        r.push(self.new_licensee_hi);
        r.push(self.new_licensee_lo);
        r.push(self.sgb_flag);
        r.push(self.cart_code);
        r.push(self.rom_code);
        r.push(self.ram_code);
        r.push(self.region_code);
        r.push(self.old_licensee);
        r.push(self.version);
        assert(r@ =~= self.checksum_bytes());
        r
    }
}

/// A ROM long enough for a header, with the logo and a matching header checksum.
pub open spec fn header_sound(rom: Seq<u8>) -> bool {
    &&& rom.len() >= 0x150
    &&& rom.subrange(0x104, 0x134) == LOGO@
    &&& header_checksum(rom.subrange(0x134, 0x14D)) == rom[0x14D]
}

/// The CGB byte may only set bits 6 and 7.
pub open spec fn cgb_flag_ok(b: u8) -> bool {
    b % 0x40 == 0
}

/// A ROM image that `Cartridge::new` accepts: whole 16 KiB banks, at
/// least two, a valid header, at least the declared size, and a bank
/// controller this library emulates.
pub open spec fn cart_accepts(rom: Seq<u8>) -> bool {
    &&& rom.len() >= 0x8000
    &&& rom.len() % 0x4000 == 0
    &&& header_valid(rom)
    &&& rom.len() >= 0x4000 * rom_banks_of(rom[0x148])
    &&& (cart_type_of(rom[0x147]).unwrap().mbc_of() == MbcType::NoMbc || cart_type_of(
        rom[0x147],
    ).unwrap().mbc_of() == MbcType::Mbc1)
}

/// The error `Cartridge::new` reports for a ROM image it refuses: the first
/// check that fails, in the order size, logo, header checksum, CGB flag,
/// cartridge type, ROM-size code, RAM-size code, region, declared size,
/// bank controller.
pub open spec fn load_error(rom: Seq<u8>) -> Error {
    if rom.len() < 0x8000 || rom.len() % 0x4000 != 0 {
        Error::RomSize
    } else if rom.subrange(0x104, 0x134) != LOGO@ {
        Error::InvalidLogo
    } else if header_checksum(rom.subrange(0x134, 0x14D)) != rom[0x14D] {
        Error::HeaderChecksum {
            expected: rom[0x14D],
            found: header_checksum(rom.subrange(0x134, 0x14D)),
        }
    } else if !cgb_flag_ok(rom[0x143]) {
        Error::CgbFlag(rom[0x143])
    } else if cart_type_of(rom[0x147]) is None {
        Error::CartType(rom[0x147])
    } else if rom[0x148] > 8 {
        Error::RomSizeCode(rom[0x148])
    } else if rom[0x149] > 5 {
        Error::RamSizeCode(rom[0x149])
    } else if rom[0x14A] > 1 {
        Error::Region(rom[0x14A])
    } else if rom.len() < 0x4000 * rom_banks_of(rom[0x148]) {
        Error::RomSize
    } else {
        Error::UnsupportedMbc(rom[0x147])
    }
}

/// A ROM whose header passes every check of `Header::parse`.
pub open spec fn header_valid(rom: Seq<u8>) -> bool {
    &&& header_sound(rom)
    &&& cgb_flag_ok(rom[0x143])
    &&& cart_type_of(rom[0x147]) is Some
    &&& rom[0x148] <= 8
    &&& rom[0x149] <= 5
    &&& rom[0x14A] <= 1
}

/// The header checksum over bytes 0x134..=0x14C of `rom`.
pub fn compute_header_checksum(rom: &Vec<u8>) -> (r: u8)
    requires
        rom@.len() >= 0x14D,
    ensures
        r == header_checksum(rom@.subrange(0x134, 0x14D)),
{
    checksum_of_range(rom, 0x134, 0x14D)
}

/// The header checksum over `bytes[lo..hi]`.
pub fn checksum_of_range(bytes: &Vec<u8>, lo: usize, hi: usize) -> (r: u8)
    requires
        lo <= hi <= bytes@.len(),
    ensures
        r == header_checksum(bytes@.subrange(lo as int, hi as int)),
{
    let mut chk: u8 = 0;
    let mut i: usize = lo;
    assert(bytes@.subrange(lo as int, lo as int).len() == 0);
    while i < hi
        invariant
            lo <= i <= hi <= bytes@.len(),
            chk == header_checksum(bytes@.subrange(lo as int, i as int)),
        decreases hi - i,
    {
        assert(bytes@.subrange(lo as int, i + 1).drop_last() =~= bytes@.subrange(lo as int, i as int));
        chk = chk.wrapping_sub(bytes[i]).wrapping_sub(1);
        i = i + 1;
    }
    chk
}

/// The global checksum of `rom`.
pub fn compute_global_checksum(rom: &Vec<u8>) -> (r: u16)
    requires
        rom@.len() >= 0x150,
    ensures
        r == global_checksum(rom@),
{
    let mut sum: u16 = 0;
    let mut i: usize = 0;
    while i < rom.len()
        invariant
            i <= rom@.len(),
            sum == byte_sum(rom@.subrange(0, i as int)),
        decreases rom@.len() - i,
    {
        assert(rom@.subrange(0, i + 1).drop_last() =~= rom@.subrange(0, i as int));
        sum = sum.wrapping_add(rom[i] as u16);
        i = i + 1;
    }
    assert(rom@.subrange(0, rom@.len() as int) =~= rom@);
    sum.wrapping_sub(rom[0x14E] as u16).wrapping_sub(rom[0x14F] as u16)
}

/// Number of 16 KiB banks for a ROM-size code.
pub fn rom_bank_count(code: u8) -> (r: usize)
    requires
        code <= 8,
    ensures
        r == rom_banks_of(code),
        2 <= r <= 512,
{
    proof {
        reveal_with_fuel(pow2, 9);
    }
    match code {
        0 => 2,
        1 => 4,
        2 => 8,
        3 => 16,
        4 => 32,
        5 => 64,
        6 => 128,
        7 => 256,
        _ => 512,
    }
}

/// Bytes of RAM for a RAM-size code.
pub fn ram_byte_count(code: u8) -> (r: usize)
    requires
        code <= 5,
    ensures
        r == ram_bytes_of(code),
{
    match code {
        0 => 0,
        1 => 0x800,
        2 => 0x2000,
        3 => 0x8000,
        4 => 0x20000,
        _ => 0x10000,
    }
}


/// The switchable-bank number MBC1 selects for a write of `v` to
/// 0x2000..=0x3FFF: five bits, reduced to the banks present, and never 0.
pub open spec fn mbc1_bank(v: u8, banks: int) -> int {
    if (v as int % 32) % banks == 0 {
        1
    } else {
        (v as int % 32) % banks
    }
}

/// A loaded cartridge: its ROM and RAM and the state of its bank controller.
#[derive(Debug)]
pub struct Cartridge {
    pub rom: Vec<u8>,
    pub ram: Vec<u8>,
    pub header: Header,
    pub mbc: MbcType,
    /// Number of 16 KiB ROM banks.
    pub rom_banks: usize,
    /// Bank mapped at 0x4000..=0x7FFF.
    pub rom_bank: usize,
    /// RAM bank register (two bits).
    pub ram_bank: usize,
    pub ram_enabled: bool,
    /// MBC1 banking mode: when set, the RAM bank register selects the RAM bank.
    pub banking_mode: bool,
}

impl Cartridge {
    pub open spec fn wf(&self) -> bool {
        &&& 2 <= self.rom_banks <= 512
        &&& self.rom@.len() >= self.rom_banks * ROM_BANK_SIZE
        &&& 1 <= self.rom_bank < self.rom_banks
        &&& self.ram_bank < 4
        &&& (self.mbc == MbcType::NoMbc || self.mbc == MbcType::Mbc1)
        &&& self.mbc == self.header.cart.mbc_of()
        &&& self.header.rom_code <= 8
        &&& self.rom_banks == rom_banks_of(self.header.rom_code)
    }

    /// This cartridge is what `Cartridge::new(rom, ram)` builds: the image as
    /// given, its parsed header, the controller in its power-on state, and the
    /// RAM holding the saved bytes of `ram` as given, or, with no save, the
    /// declared size of zeros.
    pub open spec fn loaded_from(&self, rom: Seq<u8>, ram: Option<Vec<u8>>) -> bool {
        &&& self.wf()
        &&& self.rom@ == rom
        &&& self.header.parsed_from(rom)
        &&& self.rom_bank == 1
        &&& self.ram_bank == 0
        &&& !self.ram_enabled
        &&& !self.banking_mode
        &&& (ram is Some ==> self.ram@ == ram.unwrap()@)
        &&& (ram is None ==> self.ram@.len() == self.header.ramsz && forall|i: int|
            0 <= i < self.ram@.len() ==> #[trigger] self.ram@[i] == 0)
    }

    /// Whether cartridge RAM answers at all.
    pub open spec fn ram_open(&self) -> bool {
        self.mbc == MbcType::NoMbc || self.ram_enabled
    }

    /// Offset into cartridge RAM that address `addr` (0xA000..=0xBFFF) reaches.
    pub open spec fn ram_offset(&self, addr: u16) -> int {
        if self.mbc == MbcType::Mbc1 && self.banking_mode {
            self.ram_bank * RAM_BANK_SIZE + (addr - 0xA000)
        } else {
            addr - 0xA000
        }
    }

    /// What a read of `addr` returns: ROM below 0x8000, RAM in 0xA000..=0xBFFF.
    pub open spec fn read_spec(&self, addr: u16) -> u8 {
        if addr < 0x4000 {
            self.rom@[addr as int]
        } else if addr < 0x8000 {
            self.rom@[self.rom_bank * ROM_BANK_SIZE + (addr - 0x4000)]
        } else if 0xA000 <= addr < 0xC000 && self.ram_open() && self.ram_offset(addr) < self.ram@.len() {
            self.ram@[self.ram_offset(addr)]
        } else {
            0xFF
        }
    }

    /// `new` is this cartridge after `v` was written to `addr`.
    pub open spec fn written(&self, new: Cartridge, addr: u16, v: u8) -> bool {
        if addr < 0x8000 {
            if self.mbc == MbcType::Mbc1 {
                if addr < 0x2000 {
                    new == (Cartridge { ram_enabled: v as int % 16 == 0xA, ..*self })
                } else if addr < 0x4000 {
                    new == (Cartridge { rom_bank: mbc1_bank(v, self.rom_banks as int) as usize, ..*self })
                } else if addr < 0x6000 {
                    new == (Cartridge { ram_bank: (v as int % 4) as usize, ..*self })
                } else {
                    new == (Cartridge { banking_mode: v as int % 2 == 1, ..*self })
                }
            } else {
                new == *self
            }
        } else if 0xA000 <= addr < 0xC000 && self.ram_open() && self.ram_offset(addr) < self.ram@.len() {
            new == (Cartridge { ram: new.ram, ..*self }) && new.ram@ == self.ram@.update(
                self.ram_offset(addr),
                v,
            )
        } else {
            new == *self
        }
    }

    /// Builds a cartridge from a ROM image and, optionally, the saved contents
    /// of its RAM.
    pub fn new(rom: Vec<u8>, ram: Option<Vec<u8>>) -> (r: Result<Cartridge, Error>)
        ensures
            r is Ok <==> cart_accepts(rom@),
            r matches Ok(c) ==> c.loaded_from(rom@, ram),
            !cart_accepts(rom@) ==> r == Err::<Cartridge, Error>(load_error(rom@)),
    {
        if rom.len() < 0x8000 || rom.len() % ROM_BANK_SIZE != 0 {
            return Err(Error::RomSize);
        }
        let header = match Header::parse(&rom) {
            Ok(h) => h,
            Err(e) => return Err(e),
        };
        let banks = rom_bank_count(header.rom_code);
        if rom.len() < banks * ROM_BANK_SIZE {
            return Err(Error::RomSize);
        }
        let mbc = header.cart.mbc_type();
        if mbc != MbcType::NoMbc && mbc != MbcType::Mbc1 {
            return Err(Error::UnsupportedMbc(header.cart_code));
        }
        let ramsz = header.ramsz;
        let ram_data = match ram {
            Some(d) => d,
            None => vec![0u8; ramsz],
        };
        proof {
            if ram is None {
                assert(forall|i: int| 0 <= i < ram_data@.len() ==> #[trigger] ram_data@[i] == 0);
            }
        }
        Ok(Cartridge {
            rom,
            ram: ram_data,
            header,
            mbc,
            rom_banks: banks,
            rom_bank: 1,
            ram_bank: 0,
            ram_enabled: false,
            banking_mode: false,
        })
    }

    /// Reads `addr` (ROM or cartridge RAM).
    pub fn read(&self, addr: u16) -> (r: u8)
        requires
            self.wf(),
        ensures
            r == self.read_spec(addr),
    {
        if addr < 0x4000 {
            self.rom[addr as usize]
        } else if addr < 0x8000 {
            self.rom[self.rom_bank * ROM_BANK_SIZE + (addr as usize - 0x4000)]
        } else if 0xA000 <= addr && addr < 0xC000 {
            self.read_ram(addr)
        } else {
            0xFF
        }
    }

    fn ram_index(&self, addr: u16) -> (r: usize)
        requires
            self.wf(),
            0xA000 <= addr < 0xC000,
        ensures
            r == self.ram_offset(addr),
    {
        if self.mbc == MbcType::Mbc1 && self.banking_mode {
            self.ram_bank * RAM_BANK_SIZE + (addr as usize - 0xA000)
        } else {
            addr as usize - 0xA000
        }
    }

    /// Reads cartridge RAM; 0xFF while it is disabled or absent.
    pub fn read_ram(&self, addr: u16) -> (r: u8)
        requires
            self.wf(),
            0xA000 <= addr < 0xC000,
        ensures
            r == self.read_spec(addr),
    {
        let open = self.mbc == MbcType::NoMbc || self.ram_enabled;
        let off = self.ram_index(addr);
        if open && off < self.ram.len() {
            self.ram[off]
        } else {
            0xFF
        }
    }

    /// Writes `v` to `addr`: a bank-controller register below 0x8000,
    /// cartridge RAM in 0xA000..=0xBFFF.
    pub fn write(&mut self, addr: u16, v: u8)
        requires
            old(self).wf(),
        ensures
            final(self).wf(),
            old(self).written(*final(self), addr, v),
    {
        if addr < 0x8000 {
            if self.mbc == MbcType::Mbc1 {
                if addr < 0x2000 {
                    self.ram_enabled = v % 16 == 0xA;
                } else if addr < 0x4000 {
                    self.rom_bank = select_rom_bank(v, self.rom_banks);
                } else if addr < 0x6000 {
                    self.ram_bank = (v % 4) as usize;
                } else {
                    self.banking_mode = v % 2 == 1;
                }
            }
        } else if 0xA000 <= addr && addr < 0xC000 {
            let open = self.mbc == MbcType::NoMbc || self.ram_enabled;
            let off = self.ram_index(addr);
            if open && off < self.ram.len() {
                self.ram.set(off, v);
            }
        }
    }

    /// Returns the bank controller to its power-on state.
    pub fn reset(&mut self)
        requires
            old(self).wf(),
        ensures
            final(self).wf(),
            *final(self) == (Cartridge {
                rom_bank: 1,
                ram_bank: 0,
                ram_enabled: false,
                banking_mode: false,
                ..*old(self)
            }),
    {
        self.rom_bank = 1;
        self.ram_bank = 0;
        self.ram_enabled = false;
        self.banking_mode = false;
    }

    pub fn mbc(&self) -> (r: MbcType)
        ensures
            r == self.mbc,
    {
        self.mbc
    }

    pub fn ram_enabled(&self) -> (r: bool)
        ensures
            r == self.ram_enabled,
    {
        self.ram_enabled
    }

    pub fn set_ram_enabled(&mut self, ram_enabled: bool)
        ensures
            *final(self) == (Cartridge { ram_enabled, ..*old(self) }),
    {
        self.ram_enabled = ram_enabled;
    }

    pub fn rom_bank(&self) -> (r: usize)
        ensures
            r == self.rom_bank,
    {
        self.rom_bank
    }

    /// Maps bank `rom_bank` at 0x4000; bank numbers are reduced to the banks
    /// present and 0 stands for 1, as an MBC1 select does.
    pub fn set_rom_bank(&mut self, rom_bank: u8)
        requires
            old(self).wf(),
        ensures
            final(self).wf(),
            *final(self) == (Cartridge {
                rom_bank: mbc1_bank(rom_bank, old(self).rom_banks as int) as usize,
                ..*old(self)
            }),
    {
        self.rom_bank = select_rom_bank(rom_bank, self.rom_banks);
    }

    pub fn header(&self) -> (r: &Header)
        ensures
            *r == self.header,
    {
        &self.header
    }

    /// The ROM size the header declares.
    pub fn rom_size(&self) -> (r: RomSize)
        ensures
            self.header.rom_code <= 8 ==> r.rom_banks_spec() == rom_banks_of(self.header.rom_code),
    {
        RomSize::from_code(self.header.rom_code)
    }

    /// The RAM size the header declares.
    pub fn ram_size(&self) -> (r: RamSize)
        ensures
            self.header.ram_code <= 5 ==> r.ram_bytes_spec() == ram_bytes_of(self.header.ram_code),
    {
        RamSize::from_code(self.header.ram_code)
    }

    /// The title from the header.
    pub fn title(&self) -> (r: Vec<u8>)
        ensures
            r@.len() <= self.header.title_raw@.len(),
            forall|i: int| 0 <= i < r@.len() ==> r@[i] == self.header.title_raw@[i] && r@[i] != 0,
    {
        self.header.title()
    }

    /// Changes the cartridge kind, rewriting byte 0x147 of the ROM to match;
    /// a kind whose bank controller this library does not emulate is refused
    /// and changes nothing.
    pub fn set_cart_type(&mut self, cart: CartType) -> (r: Result<(), Error>)
        requires
            old(self).wf(),
        ensures
            final(self).wf(),
            r is Ok <==> (cart.mbc_of() == MbcType::NoMbc || cart.mbc_of() == MbcType::Mbc1),
            r is Err ==> *final(self) == *old(self),
            r matches Err(e) ==> exists|c: u8| cart_type_of(c) == Some(cart) && e
                == Error::UnsupportedMbc(c),
            r is Ok ==> exists|c: u8|
                cart_type_of(c) == Some(cart) && #[trigger] final(self).rom@ == old(self).rom@.update(
                    0x147,
                    c,
                ) && *final(self) == (Cartridge {
                    rom: final(self).rom,
                    header: Header { cart, cart_code: c, ..old(self).header },
                    mbc: cart.mbc_of(),
                    ..*old(self)
                }),
    {
        let code = cart.code();
        let mbc = cart.mbc_type();
        if mbc != MbcType::NoMbc && mbc != MbcType::Mbc1 {
            return Err(Error::UnsupportedMbc(code));
        }
        self.rom.set(0x147, code);
        self.header.cart = cart;
        self.header.cart_code = code;
        self.mbc = mbc;
        Ok(())
    }

    pub fn cart_type(&self) -> (r: CartType)
        ensures
            r == self.header.cart,
    {
        self.header.cart
    }

    pub fn has_battery(&self) -> (r: bool)
        ensures
            r == self.header.cart.battery_of(),
    {
        self.header.cart.has_battery()
    }

    /// Replaces the RAM contents with `data`, as given.
    pub fn set_ram_data(&mut self, data: &Vec<u8>)
        requires
            old(self).wf(),
        ensures
            final(self).wf(),
            *final(self) == (Cartridge { ram: final(self).ram, ..*old(self) }),
            final(self).ram@ == data@,
    {
        self.ram = data.clone();
    }

    pub fn rom(&self) -> (r: &Vec<u8>)
        ensures
            r@ == self.rom@,
    {
        &self.rom
    }

    pub fn ram(&self) -> (r: &Vec<u8>)
        ensures
            r@ == self.ram@,
    {
        &self.ram
    }
}

/// The bank MBC1 maps for a select write of `v` with `banks` banks present.
pub fn select_rom_bank(v: u8, banks: usize) -> (r: usize)
    requires
        2 <= banks <= 512,
    ensures
        r == mbc1_bank(v, banks as int),
        1 <= r < banks,
{
    let b = (v % 32) as usize % banks;
    if b == 0 {
        1
    } else {
        b
    }
}

/// Writing 0, or any multiple of the number of banks, to the MBC1 bank
/// select always maps bank 1, never bank 0.
pub proof fn lemma_mbc1_never_selects_zero(v: u8, code: u8)
    requires
        code <= 8,
        v as int % rom_banks_of(code) == 0,
    ensures
        mbc1_bank(v, rom_banks_of(code)) == 1,
{
    reveal_with_fuel(pow2, 9);
    if code == 0 {
        assert(rom_banks_of(code) == 2);
        assert((v % 32) % 2 == v % 2) by (bit_vector);
        assert(mbc1_bank(v, 2) == 1);
    } else if code == 1 {
        assert(rom_banks_of(code) == 4);
        assert((v % 32) % 4 == v % 4) by (bit_vector);
        assert(mbc1_bank(v, 4) == 1);
    } else if code == 2 {
        assert(rom_banks_of(code) == 8);
        assert((v % 32) % 8 == v % 8) by (bit_vector);
        assert(mbc1_bank(v, 8) == 1);
    } else if code == 3 {
        assert(rom_banks_of(code) == 16);
        assert((v % 32) % 16 == v % 16) by (bit_vector);
        assert(mbc1_bank(v, 16) == 1);
    } else if code == 4 {
        assert(rom_banks_of(code) == 32);
        assert((v % 32) % 32 == v % 32) by (bit_vector);
        assert(mbc1_bank(v, 32) == 1);
    } else if code == 5 {
        assert(rom_banks_of(code) == 64);
        assert(v as int % 64 == 0);
        assert(v % 64 == 0 ==> v % 32 == 0) by (bit_vector);
        assert(v as int % 32 == 0);
        assert((v as int % 32) % 64 == 0);
    } else if code == 6 {
        assert(rom_banks_of(code) == 128);
        assert(v as int % 128 == 0);
        assert(v % 128 == 0 ==> v % 32 == 0) by (bit_vector);
        assert(v as int % 32 == 0);
        assert((v as int % 32) % 128 == 0);
    } else if code == 7 {
        assert(rom_banks_of(code) == 256);
        assert(v as int % 256 == v as int);
        assert(v == 0);
    } else {
        assert(rom_banks_of(code) == 512);
        assert(v as int % 512 == v as int);
        assert(v == 0);
        assert(mbc1_bank(v, 512) == 1);
    }
}

/// Where the header checksum of a parsed header comes from: recomputing it
/// over the header's own checksum-relevant bytes gives back the stored byte.
pub proof fn lemma_header_checksum_round_trip(rom: Seq<u8>, h: Header)
    requires
        header_valid(rom),
        h.parsed_from(rom),
    ensures
        header_checksum(h.checksum_bytes()) == h.hchk,
{
}

} // verus!
