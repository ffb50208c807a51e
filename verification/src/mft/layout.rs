//! Little-endian field access and the fixed layout of an MFT record header.

use vstd::prelude::*;

verus! {

/// Signature `"FILE"` read as a little-endian 32-bit integer.
pub const SIGNATURE_FILE: u32 = 0x454C_4946;

/// Signature `"BAAD"` read as a little-endian 32-bit integer.
pub const SIGNATURE_BAAD: u32 = 0x4441_4142;

/// Number of bytes of a complete record header.
pub const HEADER_LEN: usize = 42;

/// Record size assumed when the first record does not state one.
pub const DEFAULT_RECORD_SIZE: u32 = 1024;

/// Distance between two protected sector tails.
pub const SECTOR_STRIDE: usize = 512;

/// Type code that ends an attribute table.
pub const ATTRIBUTE_END: u32 = 0xFFFF_FFFF;

/// Type code of a standard information attribute.
pub const ATTRIBUTE_STANDARD_INFO: u32 = 0x10;

/// Type code of a file name attribute.
pub const ATTRIBUTE_FILE_NAME: u32 = 0x30;

/// Smallest length an attribute may declare: its common header.
pub const ATTRIBUTE_MIN_LEN: u32 = 16;

pub open spec fn le_u16(b: Seq<u8>, off: int) -> int {
    b[off] as int + 256 * (b[off + 1] as int)
}

pub open spec fn le_u32(b: Seq<u8>, off: int) -> int {
    le_u16(b, off) + 65536 * le_u16(b, off + 2)
}

pub open spec fn le_u48(b: Seq<u8>, off: int) -> int {
    le_u32(b, off) + 0x1_0000_0000 * le_u16(b, off + 4)
}

pub open spec fn le_u64(b: Seq<u8>, off: int) -> int {
    le_u32(b, off) + 0x1_0000_0000 * le_u32(b, off + 4)
}

pub fn read_u16(b: &[u8], off: usize) -> (v: u16)
    requires
        off + 2 <= b.len(),
    ensures
        v == le_u16(b@, off as int),
{
    b[off] as u16 + 256 * (b[off + 1] as u16)
}

pub fn read_u32(b: &[u8], off: usize) -> (v: u32)
    requires
        off + 4 <= b.len(),
    ensures
        v == le_u32(b@, off as int),
{
    read_u16(b, off) as u32 + 65536 * (read_u16(b, off + 2) as u32)
}

/// The header of one MFT record, as plain values.
#[derive(Clone, Copy, Debug, PartialEq, Eq, Structural)]
pub struct RecordHeader {
    /// The four signature bytes, little-endian.
    pub signature: u32,
    pub usa_offset: u16,
    pub usa_size: u16,
    pub log_sequence_number: u64,
    pub sequence: u16,
    pub hard_link_count: u16,
    pub first_attribute_offset: u16,
    /// Bit 0: in use; bit 1: directory.
    pub flags: u16,
    pub used_size: u32,
    pub total_size: u32,
    pub base_record: u64,
    pub base_sequence: u16,
    pub next_attribute_id: u16,
    pub record_number: u64,
}

impl RecordHeader {
    pub open spec fn is_file(self) -> bool {
        self.signature == SIGNATURE_FILE
    }

    pub fn has_file_signature(&self) -> (b: bool)
        ensures
            b == self.is_file(),
    {
        self.signature == SIGNATURE_FILE
    }

    pub fn in_use(&self) -> (b: bool)
        ensures
            b == (self.flags & 1 != 0),
    {
        self.flags & 1 != 0
    }

    pub fn is_directory(&self) -> (b: bool)
        ensures
            b == (self.flags & 2 != 0),
    {
        self.flags & 2 != 0
    }
}

/// Whether a header can be read from `b`: a known signature, and, unless the
/// record is blank, all 42 header bytes.
pub open spec fn header_readable(b: Seq<u8>) -> bool {
    &&& b.len() >= 4
    &&& (le_u32(b, 0) == SIGNATURE_FILE || le_u32(b, 0) == SIGNATURE_BAAD || le_u32(b, 0) == 0)
    &&& (le_u32(b, 0) == 0 || b.len() >= HEADER_LEN)
}

/// The header that `b` holds. A blank record (signature zero) has a blank
/// header, whatever follows the signature and whatever its position.
pub open spec fn header_fields(b: Seq<u8>, record_number: u64) -> RecordHeader {
    if le_u32(b, 0) == 0 {
        RecordHeader {
            signature: 0,
            usa_offset: 0,
            usa_size: 0,
            log_sequence_number: 0,
            sequence: 0,
            hard_link_count: 0,
            first_attribute_offset: 0,
            flags: 0,
            used_size: 0,
            total_size: 0,
            base_record: 0,
            base_sequence: 0,
            next_attribute_id: 0,
            record_number: 0,
        }
    } else {
        RecordHeader {
            signature: le_u32(b, 0) as u32,
            usa_offset: le_u16(b, 4) as u16,
            usa_size: le_u16(b, 6) as u16,
            log_sequence_number: le_u64(b, 8) as u64,
            sequence: le_u16(b, 16) as u16,
            hard_link_count: le_u16(b, 18) as u16,
            first_attribute_offset: le_u16(b, 20) as u16,
            flags: (le_u16(b, 22) as u16) & 0x000F,
            used_size: le_u32(b, 24) as u32,
            total_size: le_u32(b, 28) as u32,
            base_record: le_u48(b, 32) as u64,
            base_sequence: le_u16(b, 38) as u16,
            next_attribute_id: le_u16(b, 40) as u16,
            record_number,
        }
    }
}

} // verus!
