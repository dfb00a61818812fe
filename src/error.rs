//! Errors reported while loading a cartridge.
use vstd::prelude::*;

verus! {

/// Why a ROM image was refused.
#[derive(Clone, Copy, Debug, PartialEq, Eq, Structural)]
pub enum Error {
    /// The image is shorter than its header, or than the size the header declares.
    RomSize,
    /// Bytes 0x104..=0x133 differ from the boot ROM's logo.
    InvalidLogo,
    /// The header checksum at 0x14D does not match the header bytes.
    HeaderChecksum { expected: u8, found: u8 },
    /// The cartridge-type byte at 0x147 is not a known kind.
    CartType(u8),
    /// The cartridge kind is known but its bank controller is not emulated.
    UnsupportedMbc(u8),
    /// The ROM-size byte at 0x148 is out of range.
    RomSizeCode(u8),
    /// The RAM-size byte at 0x149 is out of range.
    RamSizeCode(u8),
    /// The destination byte at 0x14A is neither 0 nor 1.
    Region(u8),
    /// The CGB byte at 0x143 has bits set that no model defines.
    CgbFlag(u8),
    /// The processor ran an opcode it does not define and has locked up.
    IllegalOpcode,
}

impl Error {
    /// A short text for the error.
    pub fn description(&self) -> &'static str {
        match self {
            Error::RomSize => "Invalid ROM size",
            Error::InvalidLogo => "Invalid logo",
            Error::HeaderChecksum { .. } => "Header checksum mismatch",
            Error::CartType(_) => "Invalid cartridge type",
            Error::UnsupportedMbc(_) => "Unsupported memory bank controller",
            Error::RomSizeCode(_) => "Invalid ROM size code",
            Error::RamSizeCode(_) => "Invalid RAM size code",
            Error::Region(_) => "Invalid region",
            Error::CgbFlag(_) => "Invalid CGB flag",
            Error::IllegalOpcode => "Illegal instruction",
        }
    }
}

} // verus!
