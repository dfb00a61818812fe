//! Licensee codes of the cartridge header.
use vstd::prelude::*;

verus! {

/// Publishers named by the two ASCII bytes at 0x144..=0x145 (read as a little-endian word).
#[derive(Clone, Copy, Debug, PartialEq, Eq, Structural)]
pub enum NewLicensee {
    NoLicensee,
    NintendoRD1,
    Capcom,
    ElectronicArts,
    HudsonSoft,
    Bai,
    Kss,
    Pow,
    PCMComplete,
    Sanx,
    KemcoJapan,
    Seta,
    Viacom,
    Nintendo,
    Bandai,
    OceanAcclaim,
    Konami,
    Hector,
    Taito,
    Hudson,
    Banpresto,
    UbiSoft,
    Atlus,
    Malibu,
    Angel,
    BulletProof,
    Irem,
    Absolute,
    Acclaim,
    Activision,
    Americansammy,
    HiTechEntertainment,
    Ljn,
    Matchbox,
    Mattel,
    MiltonBradley,
    Titus,
    Virgin,
    Lucasarts,
    Ocean,
    Infogrames,
    Interplay,
    Broderbund,
    Sculptured,
    Sci,
    Thq,
    Accolade,
    Misawa,
    Lozc,
    TokumaShoteni,
    TsukudaOri,
    Chunsoft,
    Videosystem,
    Varie,
    Yonezawaspal,
    Kaneko,
    PackInSoft,
    KonamiYuGiOh,
}

/// The publisher that code `code` names, if any.
pub open spec fn new_licensee_of(code: u16) -> Option<NewLicensee> {
    match code {
        0x3030 => Some(NewLicensee::NoLicensee),
        0x3130 => Some(NewLicensee::NintendoRD1),
        0x3830 => Some(NewLicensee::Capcom),
        0x3331 | 0x3936 => Some(NewLicensee::ElectronicArts),
        0x3831 => Some(NewLicensee::HudsonSoft),
        0x3931 => Some(NewLicensee::Bai),
        0x3032 => Some(NewLicensee::Kss),
        0x3232 => Some(NewLicensee::Pow),
        0x3432 => Some(NewLicensee::PCMComplete),
        0x3532 => Some(NewLicensee::Sanx),
        0x3832 => Some(NewLicensee::KemcoJapan),
        0x3932 => Some(NewLicensee::Seta),
        0x3033 => Some(NewLicensee::Viacom),
        0x3133 => Some(NewLicensee::Nintendo),
        0x3233 => Some(NewLicensee::Bandai),
        0x3333 | 0x3339 => Some(NewLicensee::OceanAcclaim),
        0x3433 | 0x3435 => Some(NewLicensee::Konami),
        0x3533 => Some(NewLicensee::Hector),
        0x3733 => Some(NewLicensee::Taito),
        0x3833 => Some(NewLicensee::Hudson),
        0x3933 => Some(NewLicensee::Banpresto),
        0x3134 => Some(NewLicensee::UbiSoft),
        0x3234 => Some(NewLicensee::Atlus),
        0x3434 => Some(NewLicensee::Malibu),
        0x3634 => Some(NewLicensee::Angel),
        0x3734 => Some(NewLicensee::BulletProof),
        0x3934 => Some(NewLicensee::Irem),
        0x3035 => Some(NewLicensee::Absolute),
        0x3135 => Some(NewLicensee::Acclaim),
        0x3235 => Some(NewLicensee::Activision),
        0x3335 => Some(NewLicensee::Americansammy),
        0x3535 => Some(NewLicensee::HiTechEntertainment),
        0x3635 => Some(NewLicensee::Ljn),
        0x3735 => Some(NewLicensee::Matchbox),
        0x3835 => Some(NewLicensee::Mattel),
        0x3935 => Some(NewLicensee::MiltonBradley),
        0x3036 => Some(NewLicensee::Titus),
        0x3136 => Some(NewLicensee::Virgin),
        0x3436 => Some(NewLicensee::Lucasarts),
        0x3736 => Some(NewLicensee::Ocean),
        0x3037 => Some(NewLicensee::Infogrames),
        0x3137 => Some(NewLicensee::Interplay),
        0x3237 => Some(NewLicensee::Broderbund),
        0x3337 => Some(NewLicensee::Sculptured),
        0x3537 => Some(NewLicensee::Sci),
        0x3837 => Some(NewLicensee::Thq),
        0x3937 => Some(NewLicensee::Accolade),
        0x3038 => Some(NewLicensee::Misawa),
        0x3338 => Some(NewLicensee::Lozc),
        0x3638 => Some(NewLicensee::TokumaShoteni),
        0x3738 => Some(NewLicensee::TsukudaOri),
        0x3139 => Some(NewLicensee::Chunsoft),
        0x3239 => Some(NewLicensee::Videosystem),
        0x3539 => Some(NewLicensee::Varie),
        0x3639 => Some(NewLicensee::Yonezawaspal),
        0x3739 => Some(NewLicensee::Kaneko),
        0x3939 => Some(NewLicensee::PackInSoft),
        0x3441 => Some(NewLicensee::KonamiYuGiOh),
        _ => None,
    }
}

impl NewLicensee {
    /// Decodes a licensee code.
    pub fn from_code(code: u16) -> (r: Option<NewLicensee>)
        ensures
            r == new_licensee_of(code),
    {
        match code {
            0x3030 => Some(NewLicensee::NoLicensee),
            0x3130 => Some(NewLicensee::NintendoRD1),
            0x3830 => Some(NewLicensee::Capcom),
            0x3331 | 0x3936 => Some(NewLicensee::ElectronicArts),
            0x3831 => Some(NewLicensee::HudsonSoft),
            0x3931 => Some(NewLicensee::Bai),
            0x3032 => Some(NewLicensee::Kss),
            0x3232 => Some(NewLicensee::Pow),
            0x3432 => Some(NewLicensee::PCMComplete),
            0x3532 => Some(NewLicensee::Sanx),
            0x3832 => Some(NewLicensee::KemcoJapan),
            0x3932 => Some(NewLicensee::Seta),
            0x3033 => Some(NewLicensee::Viacom),
            0x3133 => Some(NewLicensee::Nintendo),
            0x3233 => Some(NewLicensee::Bandai),
            0x3333 | 0x3339 => Some(NewLicensee::OceanAcclaim),
            0x3433 | 0x3435 => Some(NewLicensee::Konami),
            0x3533 => Some(NewLicensee::Hector),
            0x3733 => Some(NewLicensee::Taito),
            0x3833 => Some(NewLicensee::Hudson),
            0x3933 => Some(NewLicensee::Banpresto),
            0x3134 => Some(NewLicensee::UbiSoft),
            0x3234 => Some(NewLicensee::Atlus),
            0x3434 => Some(NewLicensee::Malibu),
            0x3634 => Some(NewLicensee::Angel),
            0x3734 => Some(NewLicensee::BulletProof),
            0x3934 => Some(NewLicensee::Irem),
            0x3035 => Some(NewLicensee::Absolute),
            0x3135 => Some(NewLicensee::Acclaim),
            0x3235 => Some(NewLicensee::Activision),
            0x3335 => Some(NewLicensee::Americansammy),
            0x3535 => Some(NewLicensee::HiTechEntertainment),
            0x3635 => Some(NewLicensee::Ljn),
            0x3735 => Some(NewLicensee::Matchbox),
            0x3835 => Some(NewLicensee::Mattel),
            0x3935 => Some(NewLicensee::MiltonBradley),
            0x3036 => Some(NewLicensee::Titus),
            0x3136 => Some(NewLicensee::Virgin),
            0x3436 => Some(NewLicensee::Lucasarts),
            0x3736 => Some(NewLicensee::Ocean),
            0x3037 => Some(NewLicensee::Infogrames),
            0x3137 => Some(NewLicensee::Interplay),
            0x3237 => Some(NewLicensee::Broderbund),
            0x3337 => Some(NewLicensee::Sculptured),
            0x3537 => Some(NewLicensee::Sci),
            0x3837 => Some(NewLicensee::Thq),
            0x3937 => Some(NewLicensee::Accolade),
            0x3038 => Some(NewLicensee::Misawa),
            0x3338 => Some(NewLicensee::Lozc),
            0x3638 => Some(NewLicensee::TokumaShoteni),
            0x3738 => Some(NewLicensee::TsukudaOri),
            0x3139 => Some(NewLicensee::Chunsoft),
            0x3239 => Some(NewLicensee::Videosystem),
            0x3539 => Some(NewLicensee::Varie),
            0x3639 => Some(NewLicensee::Yonezawaspal),
            0x3739 => Some(NewLicensee::Kaneko),
            0x3939 => Some(NewLicensee::PackInSoft),
            0x3441 => Some(NewLicensee::KonamiYuGiOh),
            _ => None,
        }
    }

    /// The publisher's name.
    pub fn name(&self) -> &'static str {
        match self {
            NewLicensee::NoLicensee => "None",
            NewLicensee::NintendoRD1 => "Nintendo RD1",
            NewLicensee::Capcom => "Capcom",
            NewLicensee::ElectronicArts => "Electronic Arts",
            NewLicensee::HudsonSoft => "Hudson Soft",
            NewLicensee::Bai => "Bai",
            NewLicensee::Kss => "Kss",
            NewLicensee::Pow => "Pow",
            NewLicensee::PCMComplete => "PCM Complete",
            NewLicensee::Sanx => "Sanx",
            NewLicensee::KemcoJapan => "Kemco Japan",
            NewLicensee::Seta => "Seta",
            NewLicensee::Viacom => "Viacom",
            NewLicensee::Nintendo => "Nintendo",
            NewLicensee::Bandai => "Bandai",
            NewLicensee::OceanAcclaim => "Ocean Acclaim",
            NewLicensee::Konami => "Konami",
            NewLicensee::Hector => "Hector",
            NewLicensee::Taito => "Taito",
            NewLicensee::Hudson => "Hudson",
            NewLicensee::Banpresto => "Banpresto",
            NewLicensee::UbiSoft => "Ubi Soft",
            NewLicensee::Atlus => "Atlus",
            NewLicensee::Malibu => "Malibu",
            NewLicensee::Angel => "Angel",
            NewLicensee::BulletProof => "Bullet Proof",
            NewLicensee::Irem => "Irem",
            NewLicensee::Absolute => "Absolute",
            NewLicensee::Acclaim => "Acclaim",
            NewLicensee::Activision => "Activision",
            NewLicensee::Americansammy => "American Sammy",
            NewLicensee::HiTechEntertainment => "Hi Tech Entertainment",
            NewLicensee::Ljn => "LJN",
            NewLicensee::Matchbox => "Matchbox",
            NewLicensee::Mattel => "Mattel",
            NewLicensee::MiltonBradley => "Milton Bradley",
            NewLicensee::Titus => "Titus",
            NewLicensee::Virgin => "Virgin",
            NewLicensee::Lucasarts => "Lucasarts",
            NewLicensee::Ocean => "Ocean",
            NewLicensee::Infogrames => "Infogrames",
            NewLicensee::Interplay => "Interplay",
            NewLicensee::Broderbund => "Broderbund",
            NewLicensee::Sculptured => "Sculptured",
            NewLicensee::Sci => "Sci",
            NewLicensee::Thq => "THQ",
            NewLicensee::Accolade => "Accolade",
            NewLicensee::Misawa => "Misawa",
            NewLicensee::Lozc => "Lozc",
            NewLicensee::TokumaShoteni => "Tokuma Shoteni",
            NewLicensee::TsukudaOri => "Tsukuda Ori",
            NewLicensee::Chunsoft => "Chunsoft",
            NewLicensee::Videosystem => "Videosystem",
            NewLicensee::Varie => "Varie",
            NewLicensee::Yonezawaspal => "Yonezawa Spal",
            NewLicensee::Kaneko => "Kaneko",
            NewLicensee::PackInSoft => "Pack In Soft",
            NewLicensee::KonamiYuGiOh => "Konami Yu-Gi-Oh",
        }
    }
}

/// Publishers named by the byte at 0x14B.
#[derive(Clone, Copy, Debug, PartialEq, Eq, Structural)]
pub enum OldLicensee {
    NoLicensee,
    Nintendo,
    Capcom,
    HotB,
    Jaleco,
    Coconuts,
    EliteSystems,
    ElectronicArts,
    Hudsonsoft,
    ITCEntertainment,
    Yanoman,
    Clary,
    Virgin,
    Kss,
    PCMComplete,
    SanX,
    KotobukiSystems,
    Seta,
    Infogrames,
    Bandai,
    Konami,
    Hector,
    Banpresto,
    Entertainmenti,
    Gremlin,
    Ubisoft,
    Atlus,
    Malibu,
    Angel,
    SpectrumHoloby,
    Irem,
    USGold,
    Absolute,
    Acclaim,
    Activision,
    AmericanSammy,
    GameTek,
    ParkPlace,
    Ljn,
    Matchbox,
    MiltonBradley,
    Mindscape,
    Romstar,
    NaxatSoft,
    Tradewest,
    Titus,
    Ocean,
    ElectroBrain,
    Interplay,
    Broderbund,
    SculpteredSoft,
    TheSalesCurve,
    Thq,
    Accolade,
    TriffixEntertainment,
    Microprose,
    Kemco,
    MisawaEntertainment,
    Lozc,
    TokumaShotenIntermedia,
    BulletProofSoftware,
    VicTokai,
    Ape,
    IMax,
    Chunsoft,
    VideoSystem,
    Tsubaraya,
    Varie,
    YonezawaSPal,
    Kaneko,
    Arc,
    NihonBussan,
    Tecmo,
    Imagineer,
    Nova,
    HoriElectric,
    Kawada,
    Takara,
    TechnosJapan,
    ToeiAnimation,
    Toho,
    Namco,
    ASCIIorNexsoft,
    Enix,
    Hal,
    Snk,
    PonyCanyon,
    CultureBrainO,
    Sunsoft,
    SonyImagesoft,
    Sammy,
    Taito,
    Squaresoft,
    DataEast,
    Tonkinhouse,
    Koei,
    Ufl,
    Ultra,
    Vap,
    Use,
    Meldac,
    PonyCanyonor,
    Sofel,
    Quest,
    SigmaEnterprises,
    ASKKodansha,
    CopyaSystem,
    Tomy,
    Ncs,
    Human,
    Altron,
    TowaChiki,
    Yutaka,
    Epcoh,
    Athena,
    Asmik,
    Natsume,
    KingRecords,
    EpicSonyRecords,
    Igs,
    AWave,
    ExtremeEntertainment,
}

/// The publisher that code `code` names, if any.
pub open spec fn old_licensee_of(code: u8) -> Option<OldLicensee> {
    match code {
        0x00 => Some(OldLicensee::NoLicensee),
        0x01 | 0x31 => Some(OldLicensee::Nintendo),
        0x08 | 0x38 => Some(OldLicensee::Capcom),
        0x09 => Some(OldLicensee::HotB),
        0x0A | 0xE0 => Some(OldLicensee::Jaleco),
        0x0B => Some(OldLicensee::Coconuts),
        0x0C | 0x6E => Some(OldLicensee::EliteSystems),
        0x13 | 0x69 => Some(OldLicensee::ElectronicArts),
        0x18 => Some(OldLicensee::Hudsonsoft),
        0x19 => Some(OldLicensee::ITCEntertainment),
        0x1A => Some(OldLicensee::Yanoman),
        0x1D => Some(OldLicensee::Clary),
        0x1F | 0x4A | 0x61 => Some(OldLicensee::Virgin),
        0x20 => Some(OldLicensee::Kss),
        0x24 => Some(OldLicensee::PCMComplete),
        0x25 => Some(OldLicensee::SanX),
        0x28 => Some(OldLicensee::KotobukiSystems),
        0x29 => Some(OldLicensee::Seta),
        0x30 | 0x70 => Some(OldLicensee::Infogrames),
        0x32 | 0xA2 | 0xB2 => Some(OldLicensee::Bandai),
        0x34 | 0xA4 => Some(OldLicensee::Konami),
        0x35 => Some(OldLicensee::Hector),
        0x39 | 0x9D | 0xD9 => Some(OldLicensee::Banpresto),
        0x3C => Some(OldLicensee::Entertainmenti),
        0x3E => Some(OldLicensee::Gremlin),
        0x41 => Some(OldLicensee::Ubisoft),
        0x42 | 0xEB => Some(OldLicensee::Atlus),
        0x44 | 0x4D => Some(OldLicensee::Malibu),
        0x46 | 0xCF => Some(OldLicensee::Angel),
        0x47 => Some(OldLicensee::SpectrumHoloby),
        0x49 => Some(OldLicensee::Irem),
        0x4F => Some(OldLicensee::USGold),
        0x50 => Some(OldLicensee::Absolute),
        0x51 | 0xB0 => Some(OldLicensee::Acclaim),
        0x52 => Some(OldLicensee::Activision),
        0x53 => Some(OldLicensee::AmericanSammy),
        0x54 => Some(OldLicensee::GameTek),
        0x55 => Some(OldLicensee::ParkPlace),
        0x56 | 0xDB => Some(OldLicensee::Ljn),
        0x57 => Some(OldLicensee::Matchbox),
        0x59 => Some(OldLicensee::MiltonBradley),
        0x5A => Some(OldLicensee::Mindscape),
        0x5B => Some(OldLicensee::Romstar),
        0x5C | 0xD6 => Some(OldLicensee::NaxatSoft),
        0x5D => Some(OldLicensee::Tradewest),
        0x60 => Some(OldLicensee::Titus),
        0x67 => Some(OldLicensee::Ocean),
        0x6F => Some(OldLicensee::ElectroBrain),
        0x71 => Some(OldLicensee::Interplay),
        0x72 | 0xAA => Some(OldLicensee::Broderbund),
        0x73 => Some(OldLicensee::SculpteredSoft),
        0x75 => Some(OldLicensee::TheSalesCurve),
        0x78 => Some(OldLicensee::Thq),
        0x79 => Some(OldLicensee::Accolade),
        0x7A => Some(OldLicensee::TriffixEntertainment),
        0x7C => Some(OldLicensee::Microprose),
        0x7F | 0xC2 => Some(OldLicensee::Kemco),
        0x80 => Some(OldLicensee::MisawaEntertainment),
        0x83 => Some(OldLicensee::Lozc),
        0x86 | 0xC4 => Some(OldLicensee::TokumaShotenIntermedia),
        0x8B => Some(OldLicensee::BulletProofSoftware),
        0x8C => Some(OldLicensee::VicTokai),
        0x8E => Some(OldLicensee::Ape),
        0x8F => Some(OldLicensee::IMax),
        0x91 => Some(OldLicensee::Chunsoft),
        0x92 => Some(OldLicensee::VideoSystem),
        0x93 => Some(OldLicensee::Tsubaraya),
        0x95 | 0xE3 => Some(OldLicensee::Varie),
        0x96 => Some(OldLicensee::YonezawaSPal),
        0x97 => Some(OldLicensee::Kaneko),
        0x99 => Some(OldLicensee::Arc),
        0x9A => Some(OldLicensee::NihonBussan),
        0x9B => Some(OldLicensee::Tecmo),
        0x9C => Some(OldLicensee::Imagineer),
        0x9F => Some(OldLicensee::Nova),
        0xA1 => Some(OldLicensee::HoriElectric),
        0xA6 => Some(OldLicensee::Kawada),
        0xA7 => Some(OldLicensee::Takara),
        0xA9 => Some(OldLicensee::TechnosJapan),
        0xAC => Some(OldLicensee::ToeiAnimation),
        0xAD => Some(OldLicensee::Toho),
        0xAF => Some(OldLicensee::Namco),
        0xB1 => Some(OldLicensee::ASCIIorNexsoft),
        0xB4 => Some(OldLicensee::Enix),
        0xB6 => Some(OldLicensee::Hal),
        0xB7 => Some(OldLicensee::Snk),
        0xB9 => Some(OldLicensee::PonyCanyon),
        0xBA => Some(OldLicensee::CultureBrainO),
        0xBB => Some(OldLicensee::Sunsoft),
        0xBD => Some(OldLicensee::SonyImagesoft),
        0xBF => Some(OldLicensee::Sammy),
        0xC0 | 0xD0 => Some(OldLicensee::Taito),
        0xC3 => Some(OldLicensee::Squaresoft),
        0xC5 => Some(OldLicensee::DataEast),
        0xC6 => Some(OldLicensee::Tonkinhouse),
        0xC8 => Some(OldLicensee::Koei),
        0xC9 => Some(OldLicensee::Ufl),
        0xCA => Some(OldLicensee::Ultra),
        0xCB => Some(OldLicensee::Vap),
        0xCC => Some(OldLicensee::Use),
        0xCD => Some(OldLicensee::Meldac),
        0xCE => Some(OldLicensee::PonyCanyonor),
        0xD1 => Some(OldLicensee::Sofel),
        0xD2 => Some(OldLicensee::Quest),
        0xD3 => Some(OldLicensee::SigmaEnterprises),
        0xD4 => Some(OldLicensee::ASKKodansha),
        0xD7 => Some(OldLicensee::CopyaSystem),
        0xDA => Some(OldLicensee::Tomy),
        0xDD => Some(OldLicensee::Ncs),
        0xDE => Some(OldLicensee::Human),
        0xDF => Some(OldLicensee::Altron),
        0xE1 => Some(OldLicensee::TowaChiki),
        0xE2 => Some(OldLicensee::Yutaka),
        0xE5 => Some(OldLicensee::Epcoh),
        0xE7 => Some(OldLicensee::Athena),
        0xE8 => Some(OldLicensee::Asmik),
        0xE9 => Some(OldLicensee::Natsume),
        0xEA => Some(OldLicensee::KingRecords),
        0xEC => Some(OldLicensee::EpicSonyRecords),
        0xEE => Some(OldLicensee::Igs),
        0xF0 => Some(OldLicensee::AWave),
        0xF3 => Some(OldLicensee::ExtremeEntertainment),
        _ => None,
    }
}

impl OldLicensee {
    /// Decodes a licensee code.
    pub fn from_code(code: u8) -> (r: Option<OldLicensee>)
        ensures
            r == old_licensee_of(code),
    {
        match code {
            0x00 => Some(OldLicensee::NoLicensee),
            0x01 | 0x31 => Some(OldLicensee::Nintendo),
            0x08 | 0x38 => Some(OldLicensee::Capcom),
            0x09 => Some(OldLicensee::HotB),
            0x0A | 0xE0 => Some(OldLicensee::Jaleco),
            0x0B => Some(OldLicensee::Coconuts),
            0x0C | 0x6E => Some(OldLicensee::EliteSystems),
            0x13 | 0x69 => Some(OldLicensee::ElectronicArts),
            0x18 => Some(OldLicensee::Hudsonsoft),
            0x19 => Some(OldLicensee::ITCEntertainment),
            0x1A => Some(OldLicensee::Yanoman),
            0x1D => Some(OldLicensee::Clary),
            0x1F | 0x4A | 0x61 => Some(OldLicensee::Virgin),
            0x20 => Some(OldLicensee::Kss),
            0x24 => Some(OldLicensee::PCMComplete),
            0x25 => Some(OldLicensee::SanX),
            0x28 => Some(OldLicensee::KotobukiSystems),
            0x29 => Some(OldLicensee::Seta),
            0x30 | 0x70 => Some(OldLicensee::Infogrames),
            0x32 | 0xA2 | 0xB2 => Some(OldLicensee::Bandai),
            0x34 | 0xA4 => Some(OldLicensee::Konami),
            0x35 => Some(OldLicensee::Hector),
            0x39 | 0x9D | 0xD9 => Some(OldLicensee::Banpresto),
            0x3C => Some(OldLicensee::Entertainmenti),
            0x3E => Some(OldLicensee::Gremlin),
            0x41 => Some(OldLicensee::Ubisoft),
            0x42 | 0xEB => Some(OldLicensee::Atlus),
            0x44 | 0x4D => Some(OldLicensee::Malibu),
            0x46 | 0xCF => Some(OldLicensee::Angel),
            0x47 => Some(OldLicensee::SpectrumHoloby),
            0x49 => Some(OldLicensee::Irem),
            0x4F => Some(OldLicensee::USGold),
            0x50 => Some(OldLicensee::Absolute),
            0x51 | 0xB0 => Some(OldLicensee::Acclaim),
            0x52 => Some(OldLicensee::Activision),
            0x53 => Some(OldLicensee::AmericanSammy),
            0x54 => Some(OldLicensee::GameTek),
            0x55 => Some(OldLicensee::ParkPlace),
            0x56 | 0xDB => Some(OldLicensee::Ljn),
            0x57 => Some(OldLicensee::Matchbox),
            0x59 => Some(OldLicensee::MiltonBradley),
            0x5A => Some(OldLicensee::Mindscape),
            0x5B => Some(OldLicensee::Romstar),
            0x5C | 0xD6 => Some(OldLicensee::NaxatSoft),
            0x5D => Some(OldLicensee::Tradewest),
            0x60 => Some(OldLicensee::Titus),
            0x67 => Some(OldLicensee::Ocean),
            0x6F => Some(OldLicensee::ElectroBrain),
            0x71 => Some(OldLicensee::Interplay),
            0x72 | 0xAA => Some(OldLicensee::Broderbund),
            0x73 => Some(OldLicensee::SculpteredSoft),
            0x75 => Some(OldLicensee::TheSalesCurve),
            0x78 => Some(OldLicensee::Thq),
            0x79 => Some(OldLicensee::Accolade),
            0x7A => Some(OldLicensee::TriffixEntertainment),
            0x7C => Some(OldLicensee::Microprose),
            0x7F | 0xC2 => Some(OldLicensee::Kemco),
            0x80 => Some(OldLicensee::MisawaEntertainment),
            0x83 => Some(OldLicensee::Lozc),
            0x86 | 0xC4 => Some(OldLicensee::TokumaShotenIntermedia),
            0x8B => Some(OldLicensee::BulletProofSoftware),
            0x8C => Some(OldLicensee::VicTokai),
            0x8E => Some(OldLicensee::Ape),
            0x8F => Some(OldLicensee::IMax),
            0x91 => Some(OldLicensee::Chunsoft),
            0x92 => Some(OldLicensee::VideoSystem),
            0x93 => Some(OldLicensee::Tsubaraya),
            0x95 | 0xE3 => Some(OldLicensee::Varie),
            0x96 => Some(OldLicensee::YonezawaSPal),
            0x97 => Some(OldLicensee::Kaneko),
            0x99 => Some(OldLicensee::Arc),
            0x9A => Some(OldLicensee::NihonBussan),
            0x9B => Some(OldLicensee::Tecmo),
            0x9C => Some(OldLicensee::Imagineer),
            0x9F => Some(OldLicensee::Nova),
            0xA1 => Some(OldLicensee::HoriElectric),
            0xA6 => Some(OldLicensee::Kawada),
            0xA7 => Some(OldLicensee::Takara),
            0xA9 => Some(OldLicensee::TechnosJapan),
            0xAC => Some(OldLicensee::ToeiAnimation),
            0xAD => Some(OldLicensee::Toho),
            0xAF => Some(OldLicensee::Namco),
            0xB1 => Some(OldLicensee::ASCIIorNexsoft),
            0xB4 => Some(OldLicensee::Enix),
            0xB6 => Some(OldLicensee::Hal),
            0xB7 => Some(OldLicensee::Snk),
            0xB9 => Some(OldLicensee::PonyCanyon),
            0xBA => Some(OldLicensee::CultureBrainO),
            0xBB => Some(OldLicensee::Sunsoft),
            0xBD => Some(OldLicensee::SonyImagesoft),
            0xBF => Some(OldLicensee::Sammy),
            0xC0 | 0xD0 => Some(OldLicensee::Taito),
            0xC3 => Some(OldLicensee::Squaresoft),
            0xC5 => Some(OldLicensee::DataEast),
            0xC6 => Some(OldLicensee::Tonkinhouse),
            0xC8 => Some(OldLicensee::Koei),
            0xC9 => Some(OldLicensee::Ufl),
            0xCA => Some(OldLicensee::Ultra),
            0xCB => Some(OldLicensee::Vap),
            0xCC => Some(OldLicensee::Use),
            0xCD => Some(OldLicensee::Meldac),
            0xCE => Some(OldLicensee::PonyCanyonor),
            0xD1 => Some(OldLicensee::Sofel),
            0xD2 => Some(OldLicensee::Quest),
            0xD3 => Some(OldLicensee::SigmaEnterprises),
            0xD4 => Some(OldLicensee::ASKKodansha),
            0xD7 => Some(OldLicensee::CopyaSystem),
            0xDA => Some(OldLicensee::Tomy),
            0xDD => Some(OldLicensee::Ncs),
            0xDE => Some(OldLicensee::Human),
            0xDF => Some(OldLicensee::Altron),
            0xE1 => Some(OldLicensee::TowaChiki),
            0xE2 => Some(OldLicensee::Yutaka),
            0xE5 => Some(OldLicensee::Epcoh),
            0xE7 => Some(OldLicensee::Athena),
            0xE8 => Some(OldLicensee::Asmik),
            0xE9 => Some(OldLicensee::Natsume),
            0xEA => Some(OldLicensee::KingRecords),
            0xEC => Some(OldLicensee::EpicSonyRecords),
            0xEE => Some(OldLicensee::Igs),
            0xF0 => Some(OldLicensee::AWave),
            0xF3 => Some(OldLicensee::ExtremeEntertainment),
            _ => None,
        }
    }

    /// The publisher's name.
    pub fn name(&self) -> &'static str {
        match self {
            OldLicensee::NoLicensee => "None",
            OldLicensee::Nintendo => "Nintendo",
            OldLicensee::Capcom => "Capcom",
            OldLicensee::HotB => "Hot B",
            OldLicensee::Jaleco => "Jaleco",
            OldLicensee::Coconuts => "Coconuts",
            OldLicensee::EliteSystems => "Elite Systems",
            OldLicensee::ElectronicArts => "Electronic Arts",
            OldLicensee::Hudsonsoft => "Hudsonsoft",
            OldLicensee::ITCEntertainment => "ITC Entertainment",
            OldLicensee::Yanoman => "Yanoman",
            OldLicensee::Clary => "Clary",
            OldLicensee::Virgin => "Virgin",
            OldLicensee::Kss => "KSS",
            OldLicensee::PCMComplete => "PCM Complete",
            OldLicensee::SanX => "San X",
            OldLicensee::KotobukiSystems => "Kotobuki Systems",
            OldLicensee::Seta => "Seta",
            OldLicensee::Infogrames => "Infogrames",
            OldLicensee::Bandai => "Bandai",
            OldLicensee::Konami => "Konami",
            OldLicensee::Hector => "Hector",
            OldLicensee::Banpresto => "Banpresto",
            OldLicensee::Entertainmenti => "Entertainmenti",
            OldLicensee::Gremlin => "Gremlin",
            OldLicensee::Ubisoft => "Ubisoft",
            OldLicensee::Atlus => "Atlus",
            OldLicensee::Malibu => "Malibu",
            OldLicensee::Angel => "Angel",
            OldLicensee::SpectrumHoloby => "Spectrum Holoby",
            OldLicensee::Irem => "Irem",
            OldLicensee::USGold => "US Gold",
            OldLicensee::Absolute => "Absolute",
            OldLicensee::Acclaim => "Acclaim",
            OldLicensee::Activision => "Activision",
            OldLicensee::AmericanSammy => "American Sammy",
            OldLicensee::GameTek => "Game Tek",
            OldLicensee::ParkPlace => "Park Place",
            OldLicensee::Ljn => "LJN",
            OldLicensee::Matchbox => "Matchbox",
            OldLicensee::MiltonBradley => "Milton Bradley",
            OldLicensee::Mindscape => "Mindscape",
            OldLicensee::Romstar => "Romstar",
            OldLicensee::NaxatSoft => "Naxat Soft",
            OldLicensee::Tradewest => "Tradewest",
            OldLicensee::Titus => "Titus",
            OldLicensee::Ocean => "Ocean",
            OldLicensee::ElectroBrain => "Electro Brain",
            OldLicensee::Interplay => "Interplay",
            OldLicensee::Broderbund => "Broderbund",
            OldLicensee::SculpteredSoft => "Sculptered Soft",
            OldLicensee::TheSalesCurve => "The Sales Curve",
            OldLicensee::Thq => "THQ",
            OldLicensee::Accolade => "Accolade",
            OldLicensee::TriffixEntertainment => "Triffix Entertainment",
            OldLicensee::Microprose => "Microprose",
            OldLicensee::Kemco => "Kemco",
            OldLicensee::MisawaEntertainment => "Misawa Entertainment",
            OldLicensee::Lozc => "Lozc",
            OldLicensee::TokumaShotenIntermedia => "Tokuma Shoten Intermedia",
            OldLicensee::BulletProofSoftware => "Bullet Proof Software",
            OldLicensee::VicTokai => "Vic Tokai",
            OldLicensee::Ape => "Ape",
            OldLicensee::IMax => "IMax",
            OldLicensee::Chunsoft => "Chunsoft",
            OldLicensee::VideoSystem => "Video System",
            OldLicensee::Tsubaraya => "Tsubaraya",
            OldLicensee::Varie => "Varie",
            OldLicensee::YonezawaSPal => "Yonezawa SPal",
            OldLicensee::Kaneko => "Kaneko",
            OldLicensee::Arc => "Arc",
            OldLicensee::NihonBussan => "Nihon Bussan",
            OldLicensee::Tecmo => "Tecmo",
            OldLicensee::Imagineer => "Imagineer",
            OldLicensee::Nova => "Nova",
            OldLicensee::HoriElectric => "Hori Electric",
            OldLicensee::Kawada => "Kawada",
            OldLicensee::Takara => "Takara",
            OldLicensee::TechnosJapan => "Technos Japan",
            OldLicensee::ToeiAnimation => "Toei Animation",
            OldLicensee::Toho => "Toho",
            OldLicensee::Namco => "Namco",
            OldLicensee::ASCIIorNexsoft => "ASCII or Nexsoft",
            OldLicensee::Enix => "Enix",
            OldLicensee::Hal => "HAL",
            OldLicensee::Snk => "SNK",
            OldLicensee::PonyCanyon => "Pony Canyon",
            OldLicensee::CultureBrainO => "Culture Brain O",
            OldLicensee::Sunsoft => "Sunsoft",
            OldLicensee::SonyImagesoft => "Sony Imagesoft",
            OldLicensee::Sammy => "Sammy",
            OldLicensee::Taito => "Taito",
            OldLicensee::Squaresoft => "Squaresoft",
            OldLicensee::DataEast => "Data East",
            OldLicensee::Tonkinhouse => "Tonkinhouse",
            OldLicensee::Koei => "Koei",
            OldLicensee::Ufl => "UFL",
            OldLicensee::Ultra => "Ultra",
            OldLicensee::Vap => "Vap",
            OldLicensee::Use => "Use",
            OldLicensee::Meldac => "Meldac",
            OldLicensee::PonyCanyonor => "Pony Canyon or",
            OldLicensee::Sofel => "Sofel",
            OldLicensee::Quest => "Quest",
            OldLicensee::SigmaEnterprises => "Sigma Enterprises",
            OldLicensee::ASKKodansha => "ASK Kodansha",
            OldLicensee::CopyaSystem => "Copya System",
            OldLicensee::Tomy => "Tomy",
            OldLicensee::Ncs => "NCS",
            OldLicensee::Human => "Human",
            OldLicensee::Altron => "Altron",
            OldLicensee::TowaChiki => "Towa Chiki",
            OldLicensee::Yutaka => "Yutaka",
            OldLicensee::Epcoh => "Epcoh",
            OldLicensee::Athena => "Athena",
            OldLicensee::Asmik => "Asmik",
            OldLicensee::Natsume => "Natsume",
            OldLicensee::KingRecords => "King Records",
            OldLicensee::EpicSonyRecords => "Epic Sony Records",
            OldLicensee::Igs => "IGS",
            OldLicensee::AWave => "A Wave",
            OldLicensee::ExtremeEntertainment => "Extreme Entertainment",
        }
    }
}

/// The licensee of a cartridge: a two-byte code when the old code is 0x33,
/// else the old one-byte code.
#[derive(Clone, Copy, Debug, PartialEq, Eq, Structural)]
pub enum Licensee {
    New(NewLicensee),
    Old(OldLicensee),
}

impl Licensee {
    /// The publisher's name.
    pub fn name(&self) -> &'static str {
        match self {
            Licensee::New(l) => l.name(),
            Licensee::Old(l) => l.name(),
        }
    }
}

} // verus!
