//! Lookup tables and the raw Info/Status response record.
//!
//! Each table is a total function from a code byte (or, for the new
//! licensee scheme, a two-ASCII-digit code) to a named entry, with an
//! explicit `Unknown` fallback: an unmapped code is not an error.

use vstd::prelude::*;

use crate::frame::Frame;

verus! {

/// Flash chip manufacturer, identified by a single JEDEC-style byte.
/// Some codes are shared by several vendors; one canonical name is kept
/// per code, an ambiguity inherent to the identification scheme.
#[allow(non_camel_case_types)]
#[derive(Debug, Clone, Copy, PartialEq, Eq, Structural)]
pub enum FlashManufacturer {
    Alliance,
    AMD,
    AMIC,
    Atmel,
    Bright_Hyundai,
    Catalyst,
    ESMT,
    Eon,
    Excel,
    Fidelix,
    Fujitsu,
    Gigadevice,
    Intel,
    Macronix,
    Issi_Nantronics,
    PMC,
    Sanyo,
    Sharp,
    SST,
    ST,
    SM,
    TenX,
    TI,
    Nexcom,
    Winbond,
    ZettaDevice,
    Unknown,
}

/// The FlashManufacturer mapped to by `code`, `Unknown` for an unmapped code.
pub open spec fn spec_flash_manufacturer_from_code(code: u8) -> FlashManufacturer {
    if code == 0x52 { FlashManufacturer::Alliance }
    else if code == 0x01 { FlashManufacturer::AMD }
    else if code == 0x37 { FlashManufacturer::AMIC }
    else if code == 0x1F { FlashManufacturer::Atmel }
    else if code == 0xAD { FlashManufacturer::Bright_Hyundai }
    else if code == 0x31 { FlashManufacturer::Catalyst }
    else if code == 0x8C { FlashManufacturer::ESMT }
    else if code == 0x1C { FlashManufacturer::Eon }
    else if code == 0x4A { FlashManufacturer::Excel }
    else if code == 0xF8 { FlashManufacturer::Fidelix }
    else if code == 0x04 { FlashManufacturer::Fujitsu }
    else if code == 0xC8 { FlashManufacturer::Gigadevice }
    else if code == 0x89 { FlashManufacturer::Intel }
    else if code == 0xC2 { FlashManufacturer::Macronix }
    else if code == 0xD5 { FlashManufacturer::Issi_Nantronics }
    else if code == 0x9D { FlashManufacturer::PMC }
    else if code == 0x62 { FlashManufacturer::Sanyo }
    else if code == 0xB0 { FlashManufacturer::Sharp }
    else if code == 0xBF { FlashManufacturer::SST }
    else if code == 0x20 { FlashManufacturer::ST }
    else if code == 0x40 { FlashManufacturer::SM }
    else if code == 0x5E { FlashManufacturer::TenX }
    else if code == 0x97 { FlashManufacturer::TI }
    else if code == 0xEF { FlashManufacturer::Nexcom }
    else if code == 0xDA { FlashManufacturer::Winbond }
    else if code == 0xBA { FlashManufacturer::ZettaDevice }
    else if code == 0xFF { FlashManufacturer::Unknown }
    else { FlashManufacturer::Unknown }
}

impl FlashManufacturer {
    /// Total lookup: every code resolves, unmapped ones to `Unknown`.
    pub fn from_code(code: u8) -> (r: FlashManufacturer)
        ensures
            r == spec_flash_manufacturer_from_code(code),
    {
        match code {
            0x52 => FlashManufacturer::Alliance,
            0x01 => FlashManufacturer::AMD,
            0x37 => FlashManufacturer::AMIC,
            0x1F => FlashManufacturer::Atmel,
            0xAD => FlashManufacturer::Bright_Hyundai,
            0x31 => FlashManufacturer::Catalyst,
            0x8C => FlashManufacturer::ESMT,
            0x1C => FlashManufacturer::Eon,
            0x4A => FlashManufacturer::Excel,
            0xF8 => FlashManufacturer::Fidelix,
            0x04 => FlashManufacturer::Fujitsu,
            0xC8 => FlashManufacturer::Gigadevice,
            0x89 => FlashManufacturer::Intel,
            0xC2 => FlashManufacturer::Macronix,
            0xD5 => FlashManufacturer::Issi_Nantronics,
            0x9D => FlashManufacturer::PMC,
            0x62 => FlashManufacturer::Sanyo,
            0xB0 => FlashManufacturer::Sharp,
            0xBF => FlashManufacturer::SST,
            0x20 => FlashManufacturer::ST,
            0x40 => FlashManufacturer::SM,
            0x5E => FlashManufacturer::TenX,
            0x97 => FlashManufacturer::TI,
            0xEF => FlashManufacturer::Nexcom,
            0xDA => FlashManufacturer::Winbond,
            0xBA => FlashManufacturer::ZettaDevice,
            0xFF => FlashManufacturer::Unknown,
            _ => FlashManufacturer::Unknown,
        }
    }
}

/// Publisher under the old single-byte licensee scheme. Several
/// publishers appear under more than one code; each code keeps its own
/// canonical entry.
#[allow(non_camel_case_types)]
#[derive(Debug, Clone, Copy, PartialEq, Eq, Structural)]
pub enum OldLicensee {
    Unlicensed,
    nintendo,
    Unknown,
    capcom,
    Hot_B,
    Jaleco,
    Coconuts,
    Elite_Systems,
    EA,
    HudsonSoft,
    ITC,
    Yanoman,
    Clary,
    virgin,
    KSS,
    PCM_Complete,
    San_X,
    Kotobuki_Systems,
    Seta,
    infogrames,
    Nintendo,
    Bandai,
    konami,
    Hector,
    Capcom,
    Banpresto,
    EntertainmentI,
    Gremlin,
    Ubisoft,
    Atlus,
    malibu,
    angel,
    Spectrum_Holoby,
    Irem,
    Virgin,
    Malibu,
    US_Gold,
    Absolute,
    Acclaim,
    Activision,
    American_Sammy,
    Gametek,
    Park_Place,
    LJN,
    Matchbox,
    Milton_Bradley,
    Mindscape,
    Romstar,
    Naxat_Soft,
    Tradewest,
    Titus,
    Virgin_,
    Ocean,
    Electronic_Arts,
    elite_systems,
    Electro_Brain,
    Infogrames,
    Interplay,
    Broderbund,
    Sculptered_Soft,
    The_Sales_Curve,
    THQ,
    Accolade,
    Triffix_Entertainment,
    Microprose,
    Kemco,
    Misawa_Entertainment,
    Lozc,
    Tokuma_Shoten_Intermedia,
    Bullet_Proof_Software,
    Vic_Tokai,
    Ape,
    Imax,
    Chun_Soft,
    Video_System,
    Tsuburava,
    Varie,
    Yonezawa,
    Kaneko,
    Arc,
    Nihon_Bussan,
    Tecmo,
    Imagineer,
    banpresto,
    Nova,
    Hori_Electric,
    bandai,
    Konami,
    Kawada,
    Takara,
    Technos_Japan,
    broderbund,
    Toei_Animation,
    Toho,
    Namco,
    acclaim,
    Ascii_or_Nexoft,
    Bandai_,
    Enix,
    HAL,
    SNK,
    Pony_Canyon,
    Culture_Brain,
    Sunsoft,
    Sony_Imagesoft,
    Sammy,
    Taito,
    kemco,
    Squaresoft,
    tokuma_shoten_intermedia,
    Data_East,
    Tonkin_House,
    Koei,
    UFL,
    Ultra,
    Vap,
    Use,
    Meidac,
    pony_canyon,
    Angel,
    taito,
    Sofel,
    Quest,
    Sigma_Enterprised,
    Ask_Kodansha,
    naxat_soft,
    Copya_Systems,
    Banpresto_,
    Tomy,
    ljn,
    NCS,
    Human,
    Altron,
    jaleco,
    Towachiki,
    Uutaka,
    varie,
    Epoch,
    Athena,
    Asmik,
    Natsume,
    King_Records,
    atlus,
    Epic_Sony_records,
    IGS,
    A_Wave,
    Extreme_Entertainment,
    LJN_,
}

/// The OldLicensee mapped to by `code`, `Unknown` for an unmapped code.
pub open spec fn spec_old_licensee_from_code(code: u8) -> OldLicensee {
    if code == 0x00 { OldLicensee::Unlicensed }
    else if code == 0x01 { OldLicensee::nintendo }
    else if code == 0x02 { OldLicensee::Unknown }
    else if code == 0x08 { OldLicensee::capcom }
    else if code == 0x09 { OldLicensee::Hot_B }
    else if code == 0x0A { OldLicensee::Jaleco }
    else if code == 0x0B { OldLicensee::Coconuts }
    else if code == 0x0C { OldLicensee::Elite_Systems }
    else if code == 0x13 { OldLicensee::EA }
    else if code == 0x18 { OldLicensee::HudsonSoft }
    else if code == 0x19 { OldLicensee::ITC }
    else if code == 0x1A { OldLicensee::Yanoman }
    else if code == 0x1D { OldLicensee::Clary }
    else if code == 0x1F { OldLicensee::virgin }
    else if code == 0x20 { OldLicensee::KSS }
    else if code == 0x24 { OldLicensee::PCM_Complete }
    else if code == 0x25 { OldLicensee::San_X }
    else if code == 0x28 { OldLicensee::Kotobuki_Systems }
    else if code == 0x29 { OldLicensee::Seta }
    else if code == 0x30 { OldLicensee::infogrames }
    else if code == 0x31 { OldLicensee::Nintendo }
    else if code == 0x32 { OldLicensee::Bandai }
    else if code == 0x34 { OldLicensee::konami }
    else if code == 0x35 { OldLicensee::Hector }
    else if code == 0x38 { OldLicensee::Capcom }
    else if code == 0x39 { OldLicensee::Banpresto }
    else if code == 0x3C { OldLicensee::EntertainmentI }
    else if code == 0x3E { OldLicensee::Gremlin }
    else if code == 0x41 { OldLicensee::Ubisoft }
    else if code == 0x42 { OldLicensee::Atlus }
    else if code == 0x44 { OldLicensee::malibu }
    else if code == 0x46 { OldLicensee::angel }
    else if code == 0x47 { OldLicensee::Spectrum_Holoby }
    else if code == 0x49 { OldLicensee::Irem }
    else if code == 0x4A { OldLicensee::Virgin }
    else if code == 0x4D { OldLicensee::Malibu }
    else if code == 0x4F { OldLicensee::US_Gold }
    else if code == 0x50 { OldLicensee::Absolute }
    else if code == 0x51 { OldLicensee::Acclaim }
    else if code == 0x52 { OldLicensee::Activision }
    else if code == 0x53 { OldLicensee::American_Sammy }
    else if code == 0x54 { OldLicensee::Gametek }
    else if code == 0x55 { OldLicensee::Park_Place }
    else if code == 0x56 { OldLicensee::LJN }
    else if code == 0x57 { OldLicensee::Matchbox }
    else if code == 0x59 { OldLicensee::Milton_Bradley }
    else if code == 0x5A { OldLicensee::Mindscape }
    else if code == 0x5B { OldLicensee::Romstar }
    else if code == 0x5C { OldLicensee::Naxat_Soft }
    else if code == 0x5D { OldLicensee::Tradewest }
    else if code == 0x60 { OldLicensee::Titus }
    else if code == 0x61 { OldLicensee::Virgin_ }
    else if code == 0x67 { OldLicensee::Ocean }
    else if code == 0x69 { OldLicensee::Electronic_Arts }
    else if code == 0x6E { OldLicensee::elite_systems }
    else if code == 0x6F { OldLicensee::Electro_Brain }
    else if code == 0x70 { OldLicensee::Infogrames }
    else if code == 0x71 { OldLicensee::Interplay }
    else if code == 0x72 { OldLicensee::Broderbund }
    else if code == 0x73 { OldLicensee::Sculptered_Soft }
    else if code == 0x75 { OldLicensee::The_Sales_Curve }
    else if code == 0x78 { OldLicensee::THQ }
    else if code == 0x79 { OldLicensee::Accolade }
    else if code == 0x7A { OldLicensee::Triffix_Entertainment }
    else if code == 0x7C { OldLicensee::Microprose }
    else if code == 0x7F { OldLicensee::Kemco }
    else if code == 0x80 { OldLicensee::Misawa_Entertainment }
    else if code == 0x83 { OldLicensee::Lozc }
    else if code == 0x86 { OldLicensee::Tokuma_Shoten_Intermedia }
    else if code == 0x8B { OldLicensee::Bullet_Proof_Software }
    else if code == 0x8C { OldLicensee::Vic_Tokai }
    else if code == 0x8E { OldLicensee::Ape }
    else if code == 0x8F { OldLicensee::Imax }
    else if code == 0x91 { OldLicensee::Chun_Soft }
    else if code == 0x92 { OldLicensee::Video_System }
    else if code == 0x93 { OldLicensee::Tsuburava }
    else if code == 0x95 { OldLicensee::Varie }
    else if code == 0x96 { OldLicensee::Yonezawa }
    else if code == 0x97 { OldLicensee::Kaneko }
    else if code == 0x99 { OldLicensee::Arc }
    else if code == 0x9A { OldLicensee::Nihon_Bussan }
    else if code == 0x9B { OldLicensee::Tecmo }
    else if code == 0x9C { OldLicensee::Imagineer }
    else if code == 0x9D { OldLicensee::banpresto }
    else if code == 0x9F { OldLicensee::Nova }
    else if code == 0xA1 { OldLicensee::Hori_Electric }
    else if code == 0xA2 { OldLicensee::bandai }
    else if code == 0xA4 { OldLicensee::Konami }
    else if code == 0xA6 { OldLicensee::Kawada }
    else if code == 0xA7 { OldLicensee::Takara }
    else if code == 0xA9 { OldLicensee::Technos_Japan }
    else if code == 0xAA { OldLicensee::broderbund }
    else if code == 0xAC { OldLicensee::Toei_Animation }
    else if code == 0xAD { OldLicensee::Toho }
    else if code == 0xAF { OldLicensee::Namco }
    else if code == 0xB0 { OldLicensee::acclaim }
    else if code == 0xB1 { OldLicensee::Ascii_or_Nexoft }
    else if code == 0xB2 { OldLicensee::Bandai_ }
    else if code == 0xB4 { OldLicensee::Enix }
    else if code == 0xB6 { OldLicensee::HAL }
    else if code == 0xB7 { OldLicensee::SNK }
    else if code == 0xB9 { OldLicensee::Pony_Canyon }
    else if code == 0xBA { OldLicensee::Culture_Brain }
    else if code == 0xBB { OldLicensee::Sunsoft }
    else if code == 0xBD { OldLicensee::Sony_Imagesoft }
    else if code == 0xBF { OldLicensee::Sammy }
    else if code == 0xC0 { OldLicensee::Taito }
    else if code == 0xC2 { OldLicensee::kemco }
    else if code == 0xC3 { OldLicensee::Squaresoft }
    else if code == 0xC4 { OldLicensee::tokuma_shoten_intermedia }
    else if code == 0xC5 { OldLicensee::Data_East }
    else if code == 0xC6 { OldLicensee::Tonkin_House }
    else if code == 0xC8 { OldLicensee::Koei }
    else if code == 0xC9 { OldLicensee::UFL }
    else if code == 0xCA { OldLicensee::Ultra }
    else if code == 0xCB { OldLicensee::Vap }
    else if code == 0xCC { OldLicensee::Use }
    else if code == 0xCD { OldLicensee::Meidac }
    else if code == 0xCE { OldLicensee::pony_canyon }
    else if code == 0xCF { OldLicensee::Angel }
    else if code == 0xD0 { OldLicensee::taito }
    else if code == 0xD1 { OldLicensee::Sofel }
    else if code == 0xD2 { OldLicensee::Quest }
    else if code == 0xD3 { OldLicensee::Sigma_Enterprised }
    else if code == 0xD4 { OldLicensee::Ask_Kodansha }
    else if code == 0xD6 { OldLicensee::naxat_soft }
    else if code == 0xD7 { OldLicensee::Copya_Systems }
    else if code == 0xD9 { OldLicensee::Banpresto_ }
    else if code == 0xDA { OldLicensee::Tomy }
    else if code == 0xD8 { OldLicensee::ljn }
    else if code == 0xDD { OldLicensee::NCS }
    else if code == 0xDE { OldLicensee::Human }
    else if code == 0xDF { OldLicensee::Altron }
    else if code == 0xE0 { OldLicensee::jaleco }
    else if code == 0xE1 { OldLicensee::Towachiki }
    else if code == 0xE2 { OldLicensee::Uutaka }
    else if code == 0xE3 { OldLicensee::varie }
    else if code == 0xE5 { OldLicensee::Epoch }
    else if code == 0xE7 { OldLicensee::Athena }
    else if code == 0xE8 { OldLicensee::Asmik }
    else if code == 0xE9 { OldLicensee::Natsume }
    else if code == 0xEA { OldLicensee::King_Records }
    else if code == 0xEB { OldLicensee::atlus }
    else if code == 0xEC { OldLicensee::Epic_Sony_records }
    else if code == 0xEE { OldLicensee::IGS }
    else if code == 0xF0 { OldLicensee::A_Wave }
    else if code == 0xF3 { OldLicensee::Extreme_Entertainment }
    else if code == 0xF4 { OldLicensee::LJN_ }
    else { OldLicensee::Unknown }
}

impl OldLicensee {
    /// Total lookup: every code resolves, unmapped ones to `Unknown`.
    pub fn from_code(code: u8) -> (r: OldLicensee)
        ensures
            r == spec_old_licensee_from_code(code),
    {
        match code {
            0x00 => OldLicensee::Unlicensed,
            0x01 => OldLicensee::nintendo,
            0x02 => OldLicensee::Unknown,
            0x08 => OldLicensee::capcom,
            0x09 => OldLicensee::Hot_B,
            0x0A => OldLicensee::Jaleco,
            0x0B => OldLicensee::Coconuts,
            0x0C => OldLicensee::Elite_Systems,
            0x13 => OldLicensee::EA,
            0x18 => OldLicensee::HudsonSoft,
            0x19 => OldLicensee::ITC,
            0x1A => OldLicensee::Yanoman,
            0x1D => OldLicensee::Clary,
            0x1F => OldLicensee::virgin,
            0x20 => OldLicensee::KSS,
            0x24 => OldLicensee::PCM_Complete,
            0x25 => OldLicensee::San_X,
            0x28 => OldLicensee::Kotobuki_Systems,
            0x29 => OldLicensee::Seta,
            0x30 => OldLicensee::infogrames,
            0x31 => OldLicensee::Nintendo,
            0x32 => OldLicensee::Bandai,
            0x34 => OldLicensee::konami,
            0x35 => OldLicensee::Hector,
            0x38 => OldLicensee::Capcom,
            0x39 => OldLicensee::Banpresto,
            0x3C => OldLicensee::EntertainmentI,
            0x3E => OldLicensee::Gremlin,
            0x41 => OldLicensee::Ubisoft,
            0x42 => OldLicensee::Atlus,
            0x44 => OldLicensee::malibu,
            0x46 => OldLicensee::angel,
            0x47 => OldLicensee::Spectrum_Holoby,
            0x49 => OldLicensee::Irem,
            0x4A => OldLicensee::Virgin,
            0x4D => OldLicensee::Malibu,
            0x4F => OldLicensee::US_Gold,
            0x50 => OldLicensee::Absolute,
            0x51 => OldLicensee::Acclaim,
            0x52 => OldLicensee::Activision,
            0x53 => OldLicensee::American_Sammy,
            0x54 => OldLicensee::Gametek,
            0x55 => OldLicensee::Park_Place,
            0x56 => OldLicensee::LJN,
            0x57 => OldLicensee::Matchbox,
            0x59 => OldLicensee::Milton_Bradley,
            0x5A => OldLicensee::Mindscape,
            0x5B => OldLicensee::Romstar,
            0x5C => OldLicensee::Naxat_Soft,
            0x5D => OldLicensee::Tradewest,
            0x60 => OldLicensee::Titus,
            0x61 => OldLicensee::Virgin_,
            0x67 => OldLicensee::Ocean,
            0x69 => OldLicensee::Electronic_Arts,
            0x6E => OldLicensee::elite_systems,
            0x6F => OldLicensee::Electro_Brain,
            0x70 => OldLicensee::Infogrames,
            0x71 => OldLicensee::Interplay,
            0x72 => OldLicensee::Broderbund,
            0x73 => OldLicensee::Sculptered_Soft,
            0x75 => OldLicensee::The_Sales_Curve,
            0x78 => OldLicensee::THQ,
            0x79 => OldLicensee::Accolade,
            0x7A => OldLicensee::Triffix_Entertainment,
            0x7C => OldLicensee::Microprose,
            0x7F => OldLicensee::Kemco,
            0x80 => OldLicensee::Misawa_Entertainment,
            0x83 => OldLicensee::Lozc,
            0x86 => OldLicensee::Tokuma_Shoten_Intermedia,
            0x8B => OldLicensee::Bullet_Proof_Software,
            0x8C => OldLicensee::Vic_Tokai,
            0x8E => OldLicensee::Ape,
            0x8F => OldLicensee::Imax,
            0x91 => OldLicensee::Chun_Soft,
            0x92 => OldLicensee::Video_System,
            0x93 => OldLicensee::Tsuburava,
            0x95 => OldLicensee::Varie,
            0x96 => OldLicensee::Yonezawa,
            0x97 => OldLicensee::Kaneko,
            0x99 => OldLicensee::Arc,
            0x9A => OldLicensee::Nihon_Bussan,
            0x9B => OldLicensee::Tecmo,
            0x9C => OldLicensee::Imagineer,
            0x9D => OldLicensee::banpresto,
            0x9F => OldLicensee::Nova,
            0xA1 => OldLicensee::Hori_Electric,
            0xA2 => OldLicensee::bandai,
            0xA4 => OldLicensee::Konami,
            0xA6 => OldLicensee::Kawada,
            0xA7 => OldLicensee::Takara,
            0xA9 => OldLicensee::Technos_Japan,
            0xAA => OldLicensee::broderbund,
            0xAC => OldLicensee::Toei_Animation,
            0xAD => OldLicensee::Toho,
            0xAF => OldLicensee::Namco,
            0xB0 => OldLicensee::acclaim,
            0xB1 => OldLicensee::Ascii_or_Nexoft,
            0xB2 => OldLicensee::Bandai_,
            0xB4 => OldLicensee::Enix,
            0xB6 => OldLicensee::HAL,
            0xB7 => OldLicensee::SNK,
            0xB9 => OldLicensee::Pony_Canyon,
            0xBA => OldLicensee::Culture_Brain,
            0xBB => OldLicensee::Sunsoft,
            0xBD => OldLicensee::Sony_Imagesoft,
            0xBF => OldLicensee::Sammy,
            0xC0 => OldLicensee::Taito,
            0xC2 => OldLicensee::kemco,
            0xC3 => OldLicensee::Squaresoft,
            0xC4 => OldLicensee::tokuma_shoten_intermedia,
            0xC5 => OldLicensee::Data_East,
            0xC6 => OldLicensee::Tonkin_House,
            0xC8 => OldLicensee::Koei,
            0xC9 => OldLicensee::UFL,
            0xCA => OldLicensee::Ultra,
            0xCB => OldLicensee::Vap,
            0xCC => OldLicensee::Use,
            0xCD => OldLicensee::Meidac,
            0xCE => OldLicensee::pony_canyon,
            0xCF => OldLicensee::Angel,
            0xD0 => OldLicensee::taito,
            0xD1 => OldLicensee::Sofel,
            0xD2 => OldLicensee::Quest,
            0xD3 => OldLicensee::Sigma_Enterprised,
            0xD4 => OldLicensee::Ask_Kodansha,
            0xD6 => OldLicensee::naxat_soft,
            0xD7 => OldLicensee::Copya_Systems,
            0xD9 => OldLicensee::Banpresto_,
            0xDA => OldLicensee::Tomy,
            0xD8 => OldLicensee::ljn,
            0xDD => OldLicensee::NCS,
            0xDE => OldLicensee::Human,
            0xDF => OldLicensee::Altron,
            0xE0 => OldLicensee::jaleco,
            0xE1 => OldLicensee::Towachiki,
            0xE2 => OldLicensee::Uutaka,
            0xE3 => OldLicensee::varie,
            0xE5 => OldLicensee::Epoch,
            0xE7 => OldLicensee::Athena,
            0xE8 => OldLicensee::Asmik,
            0xE9 => OldLicensee::Natsume,
            0xEA => OldLicensee::King_Records,
            0xEB => OldLicensee::atlus,
            0xEC => OldLicensee::Epic_Sony_records,
            0xEE => OldLicensee::IGS,
            0xF0 => OldLicensee::A_Wave,
            0xF3 => OldLicensee::Extreme_Entertainment,
            0xF4 => OldLicensee::LJN_,
            _ => OldLicensee::Unknown,
        }
    }
}

/// Publisher under the new licensee scheme: two ASCII digit characters,
/// read big-endian as a `u16`, so code `0x13` is stored as `0x3133`
/// (the characters `"13"`).
#[allow(non_camel_case_types)]
#[derive(Debug, Clone, Copy, PartialEq, Eq, Structural)]
pub enum NewLicensee {
    Unlicensed,
    Nintendo,
    Unknown,
    Capcom,
    EA,
    HudsonSoft,
    b_ai,
    KSS,
    Pow,
    PCM_Complete,
    San_X,
    Kemco_Japan,
    Seta,
    Viacom,
    nintendo,
    Bandai,
    ocean_acclaim,
    konami,
    Hector,
    Taito,
    Hudson,
    Banpresto,
    Ubisoft,
    Atlus,
    Malibu,
    Angel,
    Bullet_Proof,
    Irem,
    Absolute,
    Acclaim,
    Activision,
    American_Sammy,
    Konami,
    Hi_Tech_Entertainment,
    LJN,
    Matchbox,
    Mattel,
    Milton_Bradley,
    Titus,
    Virgin,
    LucasArts,
    Ocean,
    Electronic_Arts,
    Infogrames,
    Interplay,
    Broderbund,
    Sculptered_Soft,
    SCI,
    THQ,
    Accolade,
    Misawa,
    Lozc,
    Tokuma_Shoten_Intermedia,
    Tsukada_Original,
    Chun_Soft,
    Video_System,
    Ocean_Acclaim,
    Varie,
    Yonezawa,
    Kaneko,
    Pack_In_Soft,
}

/// The NewLicensee mapped to by `code`, `Unknown` for an unmapped code.
pub open spec fn spec_new_licensee_from_code(code: u16) -> NewLicensee {
    if code == 0x3030 { NewLicensee::Unlicensed }
    else if code == 0x3031 { NewLicensee::Nintendo }
    else if code == 0x3032 { NewLicensee::Unknown }
    else if code == 0x3038 { NewLicensee::Capcom }
    else if code == 0x3133 { NewLicensee::EA }
    else if code == 0x3138 { NewLicensee::HudsonSoft }
    else if code == 0x3139 { NewLicensee::b_ai }
    else if code == 0x3230 { NewLicensee::KSS }
    else if code == 0x3232 { NewLicensee::Pow }
    else if code == 0x3234 { NewLicensee::PCM_Complete }
    else if code == 0x3235 { NewLicensee::San_X }
    else if code == 0x3238 { NewLicensee::Kemco_Japan }
    else if code == 0x3239 { NewLicensee::Seta }
    else if code == 0x3330 { NewLicensee::Viacom }
    else if code == 0x3331 { NewLicensee::nintendo }
    else if code == 0x3332 { NewLicensee::Bandai }
    else if code == 0x3333 { NewLicensee::ocean_acclaim }
    else if code == 0x3334 { NewLicensee::konami }
    else if code == 0x3335 { NewLicensee::Hector }
    else if code == 0x3337 { NewLicensee::Taito }
    else if code == 0x3338 { NewLicensee::Hudson }
    else if code == 0x3339 { NewLicensee::Banpresto }
    else if code == 0x3431 { NewLicensee::Ubisoft }
    else if code == 0x3432 { NewLicensee::Atlus }
    else if code == 0x3434 { NewLicensee::Malibu }
    else if code == 0x3436 { NewLicensee::Angel }
    else if code == 0x3437 { NewLicensee::Bullet_Proof }
    else if code == 0x3439 { NewLicensee::Irem }
    else if code == 0x3530 { NewLicensee::Absolute }
    else if code == 0x3531 { NewLicensee::Acclaim }
    else if code == 0x3532 { NewLicensee::Activision }
    else if code == 0x3533 { NewLicensee::American_Sammy }
    else if code == 0x3534 { NewLicensee::Konami }
    else if code == 0x3535 { NewLicensee::Hi_Tech_Entertainment }
    else if code == 0x3536 { NewLicensee::LJN }
    else if code == 0x3537 { NewLicensee::Matchbox }
    else if code == 0x3538 { NewLicensee::Mattel }
    else if code == 0x3539 { NewLicensee::Milton_Bradley }
    else if code == 0x3630 { NewLicensee::Titus }
    else if code == 0x3631 { NewLicensee::Virgin }
    else if code == 0x3634 { NewLicensee::LucasArts }
    else if code == 0x3637 { NewLicensee::Ocean }
    else if code == 0x3639 { NewLicensee::Electronic_Arts }
    else if code == 0x3730 { NewLicensee::Infogrames }
    else if code == 0x3731 { NewLicensee::Interplay }
    else if code == 0x3732 { NewLicensee::Broderbund }
    else if code == 0x3733 { NewLicensee::Sculptered_Soft }
    else if code == 0x3735 { NewLicensee::SCI }
    else if code == 0x3738 { NewLicensee::THQ }
    else if code == 0x3739 { NewLicensee::Accolade }
    else if code == 0x3830 { NewLicensee::Misawa }
    else if code == 0x3833 { NewLicensee::Lozc }
    else if code == 0x3836 { NewLicensee::Tokuma_Shoten_Intermedia }
    else if code == 0x3837 { NewLicensee::Tsukada_Original }
    else if code == 0x3931 { NewLicensee::Chun_Soft }
    else if code == 0x3932 { NewLicensee::Video_System }
    else if code == 0x3933 { NewLicensee::Ocean_Acclaim }
    else if code == 0x3935 { NewLicensee::Varie }
    else if code == 0x3936 { NewLicensee::Yonezawa }
    else if code == 0x3937 { NewLicensee::Kaneko }
    else if code == 0x3939 { NewLicensee::Pack_In_Soft }
    else { NewLicensee::Unknown }
}

impl NewLicensee {
    /// Total lookup: every code resolves, unmapped ones to `Unknown`.
    pub fn from_code(code: u16) -> (r: NewLicensee)
        ensures
            r == spec_new_licensee_from_code(code),
    {
        match code {
            0x3030 => NewLicensee::Unlicensed,
            0x3031 => NewLicensee::Nintendo,
            0x3032 => NewLicensee::Unknown,
            0x3038 => NewLicensee::Capcom,
            0x3133 => NewLicensee::EA,
            0x3138 => NewLicensee::HudsonSoft,
            0x3139 => NewLicensee::b_ai,
            0x3230 => NewLicensee::KSS,
            0x3232 => NewLicensee::Pow,
            0x3234 => NewLicensee::PCM_Complete,
            0x3235 => NewLicensee::San_X,
            0x3238 => NewLicensee::Kemco_Japan,
            0x3239 => NewLicensee::Seta,
            0x3330 => NewLicensee::Viacom,
            0x3331 => NewLicensee::nintendo,
            0x3332 => NewLicensee::Bandai,
            0x3333 => NewLicensee::ocean_acclaim,
            0x3334 => NewLicensee::konami,
            0x3335 => NewLicensee::Hector,
            0x3337 => NewLicensee::Taito,
            0x3338 => NewLicensee::Hudson,
            0x3339 => NewLicensee::Banpresto,
            0x3431 => NewLicensee::Ubisoft,
            0x3432 => NewLicensee::Atlus,
            0x3434 => NewLicensee::Malibu,
            0x3436 => NewLicensee::Angel,
            0x3437 => NewLicensee::Bullet_Proof,
            0x3439 => NewLicensee::Irem,
            0x3530 => NewLicensee::Absolute,
            0x3531 => NewLicensee::Acclaim,
            0x3532 => NewLicensee::Activision,
            0x3533 => NewLicensee::American_Sammy,
            0x3534 => NewLicensee::Konami,
            0x3535 => NewLicensee::Hi_Tech_Entertainment,
            0x3536 => NewLicensee::LJN,
            0x3537 => NewLicensee::Matchbox,
            0x3538 => NewLicensee::Mattel,
            0x3539 => NewLicensee::Milton_Bradley,
            0x3630 => NewLicensee::Titus,
            0x3631 => NewLicensee::Virgin,
            0x3634 => NewLicensee::LucasArts,
            0x3637 => NewLicensee::Ocean,
            0x3639 => NewLicensee::Electronic_Arts,
            0x3730 => NewLicensee::Infogrames,
            0x3731 => NewLicensee::Interplay,
            0x3732 => NewLicensee::Broderbund,
            0x3733 => NewLicensee::Sculptered_Soft,
            0x3735 => NewLicensee::SCI,
            0x3738 => NewLicensee::THQ,
            0x3739 => NewLicensee::Accolade,
            0x3830 => NewLicensee::Misawa,
            0x3833 => NewLicensee::Lozc,
            0x3836 => NewLicensee::Tokuma_Shoten_Intermedia,
            0x3837 => NewLicensee::Tsukada_Original,
            0x3931 => NewLicensee::Chun_Soft,
            0x3932 => NewLicensee::Video_System,
            0x3933 => NewLicensee::Ocean_Acclaim,
            0x3935 => NewLicensee::Varie,
            0x3936 => NewLicensee::Yonezawa,
            0x3937 => NewLicensee::Kaneko,
            0x3939 => NewLicensee::Pack_In_Soft,
            _ => NewLicensee::Unknown,
        }
    }
}

/// Cartridge hardware type (mapper, RAM, battery, extras) from the
/// header type byte.
#[allow(non_camel_case_types)]
#[derive(Debug, Clone, Copy, PartialEq, Eq, Structural)]
pub enum CartType {
    ROM,
    MBC1,
    MBC1_RAM,
    MBC1_RAM_BATTERY,
    MBC2,
    MBC2_BATTERY,
    ROM_RAM,
    ROM_RAM_BATTERY,
    MMM01,
    MMM01_RAM,
    MMM01_RAM_BATTERY,
    MBC3_TIMER_BATTERY,
    MBC3_TIMER_RAM_BATTERY,
    MBC3,
    MBC3_RAM,
    MBC3_RAM_BATTERY,
    MBC5,
    MBC5_RAM,
    MBC5_RAM_BATTERY,
    MBC5_RUMBLE,
    MBC5_RUMBLE_RAM,
    MBC5_RUMBLE_RAM_BATTERY,
    MBC6,
    MBC7_SENSOR_RUMBLE_RAM_BATTERY,
    Unknown,
    POCKET_CAMERA,
    BANDAI_TAMA5,
    HuC3,
    HuC1_RAM_BATTERY,
}

/// The CartType mapped to by `code`, `Unknown` for an unmapped code.
pub open spec fn spec_cart_type_from_code(code: u8) -> CartType {
    if code == 0x00 { CartType::ROM }
    else if code == 0x01 { CartType::MBC1 }
    else if code == 0x02 { CartType::MBC1_RAM }
    else if code == 0x03 { CartType::MBC1_RAM_BATTERY }
    else if code == 0x05 { CartType::MBC2 }
    else if code == 0x06 { CartType::MBC2_BATTERY }
    else if code == 0x08 { CartType::ROM_RAM }
    else if code == 0x09 { CartType::ROM_RAM_BATTERY }
    else if code == 0x0B { CartType::MMM01 }
    else if code == 0x0C { CartType::MMM01_RAM }
    else if code == 0x0D { CartType::MMM01_RAM_BATTERY }
    else if code == 0x0F { CartType::MBC3_TIMER_BATTERY }
    else if code == 0x10 { CartType::MBC3_TIMER_RAM_BATTERY }
    else if code == 0x11 { CartType::MBC3 }
    else if code == 0x12 { CartType::MBC3_RAM }
    else if code == 0x13 { CartType::MBC3_RAM_BATTERY }
    else if code == 0x19 { CartType::MBC5 }
    else if code == 0x1A { CartType::MBC5_RAM }
    else if code == 0x1B { CartType::MBC5_RAM_BATTERY }
    else if code == 0x1C { CartType::MBC5_RUMBLE }
    else if code == 0x1D { CartType::MBC5_RUMBLE_RAM }
    else if code == 0x1E { CartType::MBC5_RUMBLE_RAM_BATTERY }
    else if code == 0x20 { CartType::MBC6 }
    else if code == 0x22 { CartType::MBC7_SENSOR_RUMBLE_RAM_BATTERY }
    else if code == 0x23 { CartType::Unknown }
    else if code == 0xFC { CartType::POCKET_CAMERA }
    else if code == 0xFD { CartType::BANDAI_TAMA5 }
    else if code == 0xFE { CartType::HuC3 }
    else if code == 0xFF { CartType::HuC1_RAM_BATTERY }
    else { CartType::Unknown }
}

impl CartType {
    /// Total lookup: every code resolves, unmapped ones to `Unknown`.
    pub fn from_code(code: u8) -> (r: CartType)
        ensures
            r == spec_cart_type_from_code(code),
    {
        match code {
            0x00 => CartType::ROM,
            0x01 => CartType::MBC1,
            0x02 => CartType::MBC1_RAM,
            0x03 => CartType::MBC1_RAM_BATTERY,
            0x05 => CartType::MBC2,
            0x06 => CartType::MBC2_BATTERY,
            0x08 => CartType::ROM_RAM,
            0x09 => CartType::ROM_RAM_BATTERY,
            0x0B => CartType::MMM01,
            0x0C => CartType::MMM01_RAM,
            0x0D => CartType::MMM01_RAM_BATTERY,
            0x0F => CartType::MBC3_TIMER_BATTERY,
            0x10 => CartType::MBC3_TIMER_RAM_BATTERY,
            0x11 => CartType::MBC3,
            0x12 => CartType::MBC3_RAM,
            0x13 => CartType::MBC3_RAM_BATTERY,
            0x19 => CartType::MBC5,
            0x1A => CartType::MBC5_RAM,
            0x1B => CartType::MBC5_RAM_BATTERY,
            0x1C => CartType::MBC5_RUMBLE,
            0x1D => CartType::MBC5_RUMBLE_RAM,
            0x1E => CartType::MBC5_RUMBLE_RAM_BATTERY,
            0x20 => CartType::MBC6,
            0x22 => CartType::MBC7_SENSOR_RUMBLE_RAM_BATTERY,
            0x23 => CartType::Unknown,
            0xFC => CartType::POCKET_CAMERA,
            0xFD => CartType::BANDAI_TAMA5,
            0xFE => CartType::HuC3,
            0xFF => CartType::HuC1_RAM_BATTERY,
            _ => CartType::Unknown,
        }
    }
}
/// The new-licensee wire encoding of a code byte: each hex nibble becomes
/// the ASCII digit character with that value, read big-endian, so `0x13`
/// becomes `0x3133`, the bytes of the string `"13"`.
pub open spec fn spec_to_ascii_u16(value: u8) -> u16 {
    (((((value as u16) & 0xf0) << 4) + 0x3000) + (((value as u16) & 0x0f) + 0x30)) as u16
}

/// Encode a code byte the way the new-licensee header field stores it.
pub fn to_ascii_u16(value: u8) -> (r: u16)
    ensures
        r == spec_to_ascii_u16(value),
{
    assert((((value as u16) & 0xf0) << 4) <= 0xf00 && ((value as u16) & 0x0f) <= 0x0f)
        by (bit_vector);
    ((((value as u16) & 0xf0) << 4) + 0x3000) + (((value as u16) & 0x0f) + 0x30)
}

/// The raw layout of an Info/Status reply, read field by field from a
/// checksum-valid frame by bounds-checked offset extraction.
pub struct InfoResponse {
    pub command: u8,
    pub cart_cgb: u8,
    pub ver_maj: u8,
    pub ver_min: u8,
    pub flash_manufacturer: u8,
    pub flash_device_id: u8,
    pub flash_sector_group_protect: u8,
    pub byte7: u8,
    pub cart_logo_correct: u8,
    pub cart_name: Vec<u8>,
    pub cart_new_licensee_hi: u8,
    pub cart_new_licensee_lo: u8,
    pub cart_sgb: u8,
    pub cart_type: u8,
    pub cart_rom_size: u8,
    pub cart_ram_size: u8,
    pub cart_dst_code: u8,
    pub cart_old_licensee: u8,
    pub cart_mask_rom_version: u8,
    pub cart_complement: u8,
    pub cart_checksum_hi: u8,
    pub cart_checksum_lo: u8,
}

impl InfoResponse {
    /// The title field always holds its sixteen raw bytes.
    pub open spec fn wf(self) -> bool {
        self.cart_name@.len() == 16
    }

    /// Extract every field of an Info/Status reply from its frame.
    pub fn parse(f: &Frame) -> (r: InfoResponse)
        requires
            f.wf(),
        ensures
            r.wf(),
            r.command == f@[0],
            r.cart_cgb == f@[1],
            r.ver_maj == f@[2],
            r.ver_min == f@[3],
            r.flash_manufacturer == f@[4],
            r.flash_device_id == f@[5],
            r.flash_sector_group_protect == f@[6],
            r.byte7 == f@[7],
            r.cart_logo_correct == f@[8],
            r.cart_name@ == f@.subrange(9, 25),
            r.cart_new_licensee_hi == f@[25],
            r.cart_new_licensee_lo == f@[26],
            r.cart_sgb == f@[27],
            r.cart_type == f@[28],
            r.cart_rom_size == f@[29],
            r.cart_ram_size == f@[30],
            r.cart_dst_code == f@[31],
            r.cart_old_licensee == f@[32],
            r.cart_mask_rom_version == f@[33],
            r.cart_complement == f@[34],
            r.cart_checksum_hi == f@[35],
            r.cart_checksum_lo == f@[36],
    {
        let mut cart_name: Vec<u8> = Vec::new();
        let mut i: usize = 9;
        while i < 25
            invariant
                9 <= i <= 25,
                f.wf(),
                cart_name@ == f@.subrange(9, i as int),
            decreases 25 - i,
        {
            cart_name.push(f.byte_at(i));
            proof {
                assert(f@.subrange(9, i + 1) =~= f@.subrange(9, i as int).push(f@[i as int]));
            }
            i = i + 1;
        }
        InfoResponse {
            command: f.byte_at(0),
            cart_cgb: f.byte_at(1),
            ver_maj: f.byte_at(2),
            ver_min: f.byte_at(3),
            flash_manufacturer: f.byte_at(4),
            flash_device_id: f.byte_at(5),
            flash_sector_group_protect: f.byte_at(6),
            byte7: f.byte_at(7),
            cart_logo_correct: f.byte_at(8),
            cart_name,
            cart_new_licensee_hi: f.byte_at(25),
            cart_new_licensee_lo: f.byte_at(26),
            cart_sgb: f.byte_at(27),
            cart_type: f.byte_at(28),
            cart_rom_size: f.byte_at(29),
            cart_ram_size: f.byte_at(30),
            cart_dst_code: f.byte_at(31),
            cart_old_licensee: f.byte_at(32),
            cart_mask_rom_version: f.byte_at(33),
            cart_complement: f.byte_at(34),
            cart_checksum_hi: f.byte_at(35),
            cart_checksum_lo: f.byte_at(36),
        }
    }
}

} // verus!
