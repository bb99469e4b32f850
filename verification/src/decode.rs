//! Response decoder: turns a checksum-valid Info/Status reply into a typed
//! cartridge report. Decoding is pure and total — an unmapped code falls
//! back to `Unknown`, and the only gate is the logo-valid flag: when the
//! boot logo failed validation, only the flash manufacturer and device id
//! are meaningful and no cartridge field is decoded.

use vstd::prelude::*;

use crate::types::{
    CartType, InfoResponse, NewLicensee, OldLicensee, spec_cart_type_from_code,
    spec_new_licensee_from_code, spec_old_licensee_from_code,
};

verus! {

/// Escape value in the old-licensee byte that defers to the new scheme.
pub const NEW_LICENSEE_ESCAPE: u8 = 0x33;

/// The publisher of a cartridge, under whichever of the two encodings the
/// header selected.
#[derive(Debug, Clone, Copy, PartialEq, Eq, Structural)]
pub enum Licensee {
    /// Resolved directly from the old single-byte code.
    Old(OldLicensee),
    /// Resolved from the two ASCII-digit new-licensee field.
    New(NewLicensee),
}

/// Licensee resolution: the old-licensee byte `0x33` is an escape meaning
/// "use the two new-licensee bytes, read big-endian"; any other value is
/// looked up directly in the old table.
pub open spec fn spec_resolve_licensee(old_code: u8, new_hi: u8, new_lo: u8) -> Licensee {
    if old_code == 0x33 {
        Licensee::New(spec_new_licensee_from_code(((new_hi as u16) << 8) | (new_lo as u16)))
    } else {
        Licensee::Old(spec_old_licensee_from_code(old_code))
    }
}

/// Resolve the publisher from the three licensee header bytes.
pub fn resolve_licensee(old_code: u8, new_hi: u8, new_lo: u8) -> (r: Licensee)
    ensures
        r == spec_resolve_licensee(old_code, new_hi, new_lo),
{
    if old_code == NEW_LICENSEE_ESCAPE {
        Licensee::New(NewLicensee::from_code(((new_hi as u16) << 8) | (new_lo as u16)))
    } else {
        Licensee::Old(OldLicensee::from_code(old_code))
    }
}

/// The cartridge-specific header fields, meaningful only when the boot
/// logo passed validation.
pub struct CartridgeHeader {
    /// The raw sixteen title bytes.
    pub title: Vec<u8>,
    /// The CGB byte equals `0xC0`: the game runs on Game Boy Color only.
    pub cgb_only: bool,
    /// Publisher, resolved by the dual-scheme rule.
    pub licensee: Licensee,
    /// The SGB byte is nonzero: Super Game Boy enhancements present.
    pub sgb_enhanced: bool,
    /// Mapper and extras, from the cartridge type byte.
    pub cart_type: CartType,
    /// Raw ROM size code.
    pub rom_size_code: u8,
    /// Raw RAM size code.
    pub ram_size_code: u8,
    /// The destination byte equals `0x00`: sold in Japan.
    pub japanese: bool,
    /// Mask ROM revision.
    pub mask_rom_version: u8,
    /// Header checksum complement byte.
    pub header_checksum: u8,
    /// Big-endian 16-bit cartridge checksum.
    pub cartridge_checksum: u16,
}

/// What an Info/Status reply says about the attached cartridge.
pub enum CartridgeReport {
    /// The boot logo failed validation: the cartridge is blank, damaged,
    /// unlicensed, or disconnected, and no header field is decoded.
    Blank,
    /// The boot logo validated and every header field was decoded.
    Header(CartridgeHeader),
}

/// Decode the cartridge-specific part of a reply. Short-circuits to
/// `Blank` whenever the logo-valid flag is not set; otherwise decodes
/// every field, with unmapped codes falling back to `Unknown`.
pub fn decode_cartridge(r: &InfoResponse) -> (rep: CartridgeReport)
    requires
        r.wf(),
    ensures
        r.cart_logo_correct != 1 ==> rep is Blank,
        r.cart_logo_correct == 1 ==> (rep matches CartridgeReport::Header(h)
            && h.title@ == r.cart_name@
            && h.cgb_only == (r.cart_cgb == 0xC0)
            && h.licensee == spec_resolve_licensee(
                r.cart_old_licensee,
                r.cart_new_licensee_hi,
                r.cart_new_licensee_lo,
            )
            && h.sgb_enhanced == (r.cart_sgb != 0)
            && h.cart_type == spec_cart_type_from_code(r.cart_type)
            && h.rom_size_code == r.cart_rom_size
            && h.ram_size_code == r.cart_ram_size
            && h.japanese == (r.cart_dst_code == 0)
            && h.mask_rom_version == r.cart_mask_rom_version
            && h.header_checksum == r.cart_complement
            && h.cartridge_checksum
                == ((r.cart_checksum_hi as u16) << 8) | (r.cart_checksum_lo as u16)),
{
    if r.cart_logo_correct != 1 {
        return CartridgeReport::Blank;
    }
    let mut title: Vec<u8> = Vec::new();
    let mut i: usize = 0;
    while i < r.cart_name.len()
        invariant
            i <= r.cart_name@.len(),
            title@ == r.cart_name@.subrange(0, i as int),
        decreases r.cart_name@.len() - i,
    {
        title.push(r.cart_name[i]);
        proof {
            assert(r.cart_name@.subrange(0, i + 1)
                =~= r.cart_name@.subrange(0, i as int).push(r.cart_name@[i as int]));
        }
        i = i + 1;
    }
    proof {
        assert(r.cart_name@.subrange(0, r.cart_name@.len() as int) =~= r.cart_name@);
    }
    CartridgeReport::Header(CartridgeHeader {
        title,
        cgb_only: r.cart_cgb == 0xC0,
        licensee: resolve_licensee(
            r.cart_old_licensee,
            r.cart_new_licensee_hi,
            r.cart_new_licensee_lo,
        ),
        sgb_enhanced: r.cart_sgb != 0,
        cart_type: CartType::from_code(r.cart_type),
        rom_size_code: r.cart_rom_size,
        ram_size_code: r.cart_ram_size,
        japanese: r.cart_dst_code == 0,
        mask_rom_version: r.cart_mask_rom_version,
        header_checksum: r.cart_complement,
        cartridge_checksum: ((r.cart_checksum_hi as u16) << 8) | (r.cart_checksum_lo as u16),
    })
}

/// ROM size in kilobytes for a header ROM-size code: code `n` means
/// `32 << n` KB, with codes past the largest defined bank count unmapped.
pub fn rom_size_kb(code: u8) -> (r: Option<u64>)
    ensures
        code <= 8 ==> r == Some((32u64 << code) as u64),
        code > 8 ==> r is None,
{
    if code <= 8 {
        Some(32u64 << code)
    } else {
        None
    }
}

/// RAM size in kilobytes for a header RAM-size code; unmapped codes have
/// no defined size.
pub fn ram_size_kb(code: u8) -> (r: Option<u16>)
    ensures
        code == 0x00 ==> r == Some(0u16),
        code == 0x01 ==> r == Some(2u16),
        code == 0x02 ==> r == Some(8u16),
        code == 0x03 ==> r == Some(32u16),
        code == 0x04 ==> r == Some(128u16),
        code == 0x05 ==> r == Some(64u16),
        code > 0x05 ==> r is None,
{
    match code {
        0x00 => Some(0),
        0x01 => Some(2),
        0x02 => Some(8),
        0x03 => Some(32),
        0x04 => Some(128),
        0x05 => Some(64),
        _ => None,
    }
}

/// The two packed BCD nibbles of a firmware version byte, high then low.
pub fn bcd_nibbles(b: u8) -> (r: (u8, u8))
    ensures
        r.0 == b >> 4,
        r.1 == b & 0x0f,
{
    (b >> 4, b & 0x0f)
}

} // verus!
