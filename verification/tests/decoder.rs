use gbcart::decode::{bcd_nibbles, ram_size_kb, resolve_licensee, rom_size_kb, Licensee};
use gbcart::{
    crc16_xmodem, decode_and_validate, decode_cartridge, to_ascii_u16, CartType, CartridgeReport,
    FlashManufacturer, InfoResponse, NewLicensee, OldLicensee,
};

/// Build a checksum-valid 72-byte reply frame from a 70-byte body.
fn reply_frame(mut body: Vec<u8>) -> gbcart::Frame {
    assert_eq!(body.len(), 70);
    let c = crc16_xmodem(&body);
    body.push((c >> 8) as u8);
    body.push((c & 0xff) as u8);
    decode_and_validate(body).expect("constructed frame must validate")
}

/// Old-licensee byte `0x33` escapes to the new scheme: ASCII `"13"`
/// resolves to the new-table entry for code `0x13`.
#[test]
fn licensee_new_scheme_ea() {
    assert_eq!(
        resolve_licensee(0x33, 0x31, 0x33),
        Licensee::New(NewLicensee::EA)
    );
}

/// Any other old-licensee byte resolves directly via the old table.
#[test]
fn licensee_old_scheme_nintendo() {
    assert_eq!(
        resolve_licensee(0x01, 0x31, 0x33),
        Licensee::Old(OldLicensee::nintendo)
    );
}

#[test]
fn new_licensee_table_is_keyed_by_ascii_codes() {
    assert_eq!(NewLicensee::from_code(to_ascii_u16(0x13)), NewLicensee::EA);
    assert_eq!(
        NewLicensee::from_code(to_ascii_u16(0x01)),
        NewLicensee::Nintendo
    );
    assert_eq!(
        NewLicensee::from_code(to_ascii_u16(0x64)),
        NewLicensee::LucasArts
    );
}

/// An unmapped manufacturer code resolves to `Unknown` rather than failing.
#[test]
fn unmapped_manufacturer_is_unknown() {
    assert_eq!(
        FlashManufacturer::from_code(0x00),
        FlashManufacturer::Unknown
    );
    assert_eq!(FlashManufacturer::from_code(0x05), FlashManufacturer::Unknown);
}

#[test]
fn mapped_manufacturer_codes() {
    assert_eq!(FlashManufacturer::from_code(0x01), FlashManufacturer::AMD);
    assert_eq!(FlashManufacturer::from_code(0xC2), FlashManufacturer::Macronix);
    assert_eq!(FlashManufacturer::from_code(0xBF), FlashManufacturer::SST);
}

#[test]
fn unmapped_codes_fall_back_to_unknown_in_every_table() {
    assert_eq!(OldLicensee::from_code(0x03), OldLicensee::Unknown);
    assert_eq!(NewLicensee::from_code(0x0000), NewLicensee::Unknown);
    assert_eq!(NewLicensee::from_code(to_ascii_u16(0x77)), NewLicensee::Unknown);
    assert_eq!(CartType::from_code(0x42), CartType::Unknown);
}

#[test]
fn old_licensee_samples() {
    assert_eq!(OldLicensee::from_code(0x00), OldLicensee::Unlicensed);
    assert_eq!(OldLicensee::from_code(0x13), OldLicensee::EA);
    assert_eq!(OldLicensee::from_code(0xF4), OldLicensee::LJN_);
    // The escape value itself has no entry in the old table: a frame
    // carrying it always resolves through the new scheme instead.
    assert_eq!(OldLicensee::from_code(0x33), OldLicensee::Unknown);
}

#[test]
fn cart_type_samples() {
    assert_eq!(CartType::from_code(0x00), CartType::ROM);
    assert_eq!(CartType::from_code(0x03), CartType::MBC1_RAM_BATTERY);
    assert_eq!(CartType::from_code(0x19), CartType::MBC5);
    assert_eq!(CartType::from_code(0xFF), CartType::HuC1_RAM_BATTERY);
}

/// A reply whose logo flag is clear short-circuits to the blank/damaged
/// report: no cartridge field is decoded.
#[test]
fn logo_invalid_reply_reports_blank() {
    let mut body = vec![0u8; 70];
    body[4] = 0x01; // flash manufacturer: AMD
    body[5] = 0x22; // flash device id
    body[8] = 0x00; // logo flag clear
    // Cartridge fields deliberately filled with values that would decode.
    body[28] = 0x19;
    body[32] = 0x01;
    let frame = reply_frame(body);
    let resp = InfoResponse::parse(&frame);
    assert_eq!(resp.flash_manufacturer, 0x01);
    assert_eq!(resp.flash_device_id, 0x22);
    assert!(matches!(decode_cartridge(&resp), CartridgeReport::Blank));
}

#[test]
fn logo_valid_reply_decodes_every_field() {
    let mut body = vec![0u8; 70];
    body[0] = 0x01; // command echo
    body[1] = 0xC0; // CGB-only
    body[2] = 0x12; // firmware 1.2 (BCD)
    body[3] = 0x34;
    body[4] = 0xC2; // Macronix
    body[5] = 0x55;
    body[8] = 0x01; // logo valid
    let title = b"POKEMON RED\0\0\0\0\0";
    body[9..25].copy_from_slice(title);
    body[25] = 0x31; // new licensee "13" = EA
    body[26] = 0x33;
    body[27] = 0x03; // SGB enhanced (nonzero)
    body[28] = 0x1B; // MBC5+RAM+BATTERY
    body[29] = 0x05; // 1024 KB ROM
    body[30] = 0x03; // 32 KB RAM
    body[31] = 0x01; // non-Japanese
    body[32] = 0x33; // old licensee escapes to the new scheme
    body[33] = 0x01;
    body[34] = 0x20;
    body[35] = 0x91; // cartridge checksum 0x91B7
    body[36] = 0xB7;
    let frame = reply_frame(body);
    let resp = InfoResponse::parse(&frame);
    assert_eq!(resp.ver_maj, 0x12);
    assert_eq!(bcd_nibbles(resp.ver_maj), (1, 2));
    assert_eq!(bcd_nibbles(resp.ver_min), (3, 4));
    assert_eq!(
        FlashManufacturer::from_code(resp.flash_manufacturer),
        FlashManufacturer::Macronix
    );
    match decode_cartridge(&resp) {
        CartridgeReport::Header(h) => {
            assert_eq!(&h.title[..], title);
            assert!(h.cgb_only);
            assert_eq!(h.licensee, Licensee::New(NewLicensee::EA));
            assert!(h.sgb_enhanced);
            assert_eq!(h.cart_type, CartType::MBC5_RAM_BATTERY);
            assert_eq!(rom_size_kb(h.rom_size_code), Some(1024));
            assert_eq!(ram_size_kb(h.ram_size_code), Some(32));
            assert!(!h.japanese);
            assert_eq!(h.mask_rom_version, 0x01);
            assert_eq!(h.header_checksum, 0x20);
            assert_eq!(h.cartridge_checksum, 0x91B7);
        }
        CartridgeReport::Blank => panic!("logo-valid reply decoded as blank"),
    }
}

#[test]
fn rom_size_table() {
    assert_eq!(rom_size_kb(0x00), Some(32));
    assert_eq!(rom_size_kb(0x08), Some(8192));
    assert_eq!(rom_size_kb(0x09), None);
}

#[test]
fn ram_size_table() {
    assert_eq!(ram_size_kb(0x00), Some(0));
    assert_eq!(ram_size_kb(0x01), Some(2));
    assert_eq!(ram_size_kb(0x05), Some(64));
    assert_eq!(ram_size_kb(0x06), None);
}
