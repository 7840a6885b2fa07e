//! The fixed file-info record of a version resource: a fixed-layout block of
//! thirteen little-endian 32-bit words. Instead of reinterpreting the raw
//! resource pointer, the record is parsed from the byte buffer with an
//! explicit minimum-length check, and the displayed version components are
//! read out of the two date words as 16-bit halves, high half first, the
//! way the packed words are conventionally written out.

use vstd::prelude::*;

verus! {

/// Byte length of the fixed file-info record.
pub const FIXED_FILE_INFO_LEN: usize = 52;

/// The fixed file-info record, each field one 32-bit word of the resource
/// block, in layout order.
#[derive(Clone, Copy, Debug, PartialEq, Eq, Structural)]
pub struct FixedFileInfo {
    pub signature: u32,
    pub struct_version: u32,
    pub file_version_ms: u32,
    pub file_version_ls: u32,
    pub product_version_ms: u32,
    pub product_version_ls: u32,
    pub file_flags_mask: u32,
    pub file_flags: u32,
    pub file_os: u32,
    pub file_type: u32,
    pub file_subtype: u32,
    pub file_date_ms: u32,
    pub file_date_ls: u32,
}

/// The little-endian 32-bit word held in `bytes` at offset `i`.
pub open spec fn le_u32_at(bytes: Seq<u8>, i: int) -> u32 {
    (bytes[i] + bytes[i + 1] * 0x100 + bytes[i + 2] * 0x10000 + bytes[i + 3] * 0x1000000) as u32
}

/// Reads the little-endian 32-bit word at offset `i`.
pub fn read_le_u32(bytes: &Vec<u8>, i: usize) -> (r: u32)
    requires
        i + 4 <= bytes.len(),
    ensures
        r == le_u32_at(bytes@, i as int),
{
    bytes[i] as u32 + (bytes[i + 1] as u32) * 0x100 + (bytes[i + 2] as u32) * 0x10000
        + (bytes[i + 3] as u32) * 0x1000000
}

/// The record a resource block holds: present exactly when the block is long
/// enough, with every field equal to the corresponding little-endian word.
pub open spec fn spec_parse(bytes: Seq<u8>) -> Option<FixedFileInfo> {
    if bytes.len() >= FIXED_FILE_INFO_LEN {
        Some(
            FixedFileInfo {
                signature: le_u32_at(bytes, 0),
                struct_version: le_u32_at(bytes, 4),
                file_version_ms: le_u32_at(bytes, 8),
                file_version_ls: le_u32_at(bytes, 12),
                product_version_ms: le_u32_at(bytes, 16),
                product_version_ls: le_u32_at(bytes, 20),
                file_flags_mask: le_u32_at(bytes, 24),
                file_flags: le_u32_at(bytes, 28),
                file_os: le_u32_at(bytes, 32),
                file_type: le_u32_at(bytes, 36),
                file_subtype: le_u32_at(bytes, 40),
                file_date_ms: le_u32_at(bytes, 44),
                file_date_ls: le_u32_at(bytes, 48),
            },
        )
    } else {
        None
    }
}

/// Bounds-checked parse of the fixed file-info record from a raw resource
/// block. Returns `None` when the block is shorter than the record.
pub fn parse_fixed_file_info(bytes: &Vec<u8>) -> (r: Option<FixedFileInfo>)
    ensures
        r == spec_parse(bytes@),
{
    if bytes.len() >= FIXED_FILE_INFO_LEN {
        Some(
            FixedFileInfo {
                signature: read_le_u32(bytes, 0),
                struct_version: read_le_u32(bytes, 4),
                file_version_ms: read_le_u32(bytes, 8),
                file_version_ls: read_le_u32(bytes, 12),
                product_version_ms: read_le_u32(bytes, 16),
                product_version_ls: read_le_u32(bytes, 20),
                file_flags_mask: read_le_u32(bytes, 24),
                file_flags: read_le_u32(bytes, 28),
                file_os: read_le_u32(bytes, 32),
                file_type: read_le_u32(bytes, 36),
                file_subtype: read_le_u32(bytes, 40),
                file_date_ms: read_le_u32(bytes, 44),
                file_date_ls: read_le_u32(bytes, 48),
            },
        )
    } else {
        None
    }
}

/// The low 16-bit half of a 32-bit word.
pub open spec fn spec_low_half(w: u32) -> u32 {
    w & 0xffff
}

/// The high 16-bit half of a 32-bit word.
pub open spec fn spec_high_half(w: u32) -> u32 {
    (w >> 16) & 0xffff
}

/// Extracts the low 16-bit half of `w`.
pub fn low_half(w: u32) -> (r: u32)
    ensures
        r == spec_low_half(w),
{
    w & 0xffff
}

/// Extracts the high 16-bit half of `w`.
pub fn high_half(w: u32) -> (r: u32)
    ensures
        r == spec_high_half(w),
{
    (w >> 16) & 0xffff
}

/// The three version components surfaced to the user, read as an external
/// reference tool reads the packed words — high half first: high then low
/// half of the date-MS word, then high half of the date-LS word, a
/// major.minor.patch-like triple. The fourth packed component, the low half
/// of the date-LS word, is dropped by design.
pub fn version_components(info: &FixedFileInfo) -> (r: (u32, u32, u32))
    ensures
        r.0 == spec_high_half(info.file_date_ms),
        r.1 == spec_low_half(info.file_date_ms),
        r.2 == spec_high_half(info.file_date_ls),
{
    (high_half(info.file_date_ms), low_half(info.file_date_ms), high_half(info.file_date_ls))
}

} // verus!
