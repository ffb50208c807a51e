//! What the `mft` crate decodes for this library: record headers and file
//! name attributes. Nothing here is proved; the contracts say what the
//! crate's source shows.

use mft::attribute::MftAttributeContent;
use mft::attribute::MftAttributeType;
use mft::EntryHeader;
use mft::MftEntry;
use std::io::Cursor;
use vstd::prelude::*;
use crate::mft::attributes::table_ok;
use crate::mft::layout::header_fields;
use crate::mft::layout::header_readable;
use crate::mft::layout::le_u16;
use crate::mft::layout::le_u32;
use crate::mft::layout::RecordHeader;
use crate::mft::layout::SIGNATURE_FILE;

verus! {

/// One file name attribute of a record.
#[derive(Clone, Debug)]
pub struct NameAttribute {
    pub name: String,
    /// Record number of the parent directory.
    pub parent_entry: u64,
    /// Sequence number of the parent reference.
    pub parent_sequence: u16,
    /// Creation time, seconds since the Unix epoch.
    pub created: i64,
    /// Modification time, seconds since the Unix epoch.
    pub modified: i64,
    /// Access time, seconds since the Unix epoch.
    pub accessed: i64,
}

/// The mathematical value of a [`NameAttribute`].
pub struct NameAttributeView {
    pub name: Seq<char>,
    pub parent_entry: u64,
    pub parent_sequence: u16,
    pub created: i64,
    pub modified: i64,
    pub accessed: i64,
}

impl View for NameAttribute {
    type V = NameAttributeView;

    open spec fn view(&self) -> NameAttributeView {
        NameAttributeView {
            name: self.name@,
            parent_entry: self.parent_entry,
            parent_sequence: self.parent_sequence,
            created: self.created,
            modified: self.modified,
            accessed: self.accessed,
        }
    }
}

/// What decoding one attribute gave.
#[derive(Clone, Debug)]
pub enum AttributeInfo {
    /// A file name attribute.
    FileName(NameAttribute),
    /// An attribute that could not be decoded.
    Unreadable,
    /// A decoded attribute of another kind.
    Other,
}

/// The mathematical value of an [`AttributeInfo`].
pub enum AttributeInfoView {
    FileName(NameAttributeView),
    Unreadable,
    Other,
}

impl View for AttributeInfo {
    type V = AttributeInfoView;

    open spec fn view(&self) -> AttributeInfoView {
        match self {
            AttributeInfo::FileName(n) => AttributeInfoView::FileName(n@),
            AttributeInfo::Unreadable => AttributeInfoView::Unreadable,
            AttributeInfo::Other => AttributeInfoView::Other,
        }
    }
}

/// The values of a sequence of decoded attributes.
pub open spec fn attribute_views(items: Seq<AttributeInfo>) -> Seq<AttributeInfoView> {
    items.map_values(|a: AttributeInfo| a@)
}

/// What the `mft` crate yields when it iterates the file name attributes of
/// the record `data` (fixups already undone) with number `record_number`.
pub uninterp spec fn mft_file_names(data: Seq<u8>, record_number: u64) -> Seq<AttributeInfoView>;

/// Reads a record header with `mft::EntryHeader::from_reader`.
///
/// The reader accepts the signatures `FILE`, `BAAD` and zero. A blank record
/// gives a blank header after four bytes; the others need all 42 bytes, which
/// are read as little-endian fields at fixed offsets. Of the flags only the
/// four known bits are kept.
#[verifier::external_body]
pub(crate) fn read_entry_header(bytes: &[u8], record_number: u64) -> (r: Option<RecordHeader>)
    ensures
        r is Some <==> header_readable(bytes@),
        r is Some ==> r->0 == header_fields(bytes@, record_number),
{
    let h = EntryHeader::from_reader(&mut Cursor::new(bytes), record_number).ok()?;
    Some(RecordHeader {
        signature: u32::from_le_bytes(h.signature),
        usa_offset: h.usa_offset, usa_size: h.usa_size,
        log_sequence_number: h.metadata_transaction_journal,
        sequence: h.sequence, hard_link_count: h.hard_link_count,
        first_attribute_offset: h.first_attribute_record_offset,
        flags: h.flags.bits(), used_size: h.used_entry_size, total_size: h.total_entry_size,
        base_record: h.base_reference.entry, base_sequence: h.base_reference.sequence,
        next_attribute_id: h.first_attribute_id, record_number: h.record_number,
    })
}

/// Decodes the file name attributes of a record with
/// `mft::MftEntry::iter_attributes_matching`, in table order.
///
/// The crate walks the attribute table by the declared lengths and decodes
/// the content of file name attributes only. An attribute it cannot read
/// comes out as `Unreadable`. The walk ends at the end marker, so the table
/// must be well formed for it to end at all.
#[verifier::external_body]
pub(crate) fn decode_file_names(data: &[u8], record_number: u64) -> (out: Vec<AttributeInfo>)
    requires
        header_readable(data@),
        le_u32(data@, 0) == SIGNATURE_FILE,
        table_ok(data@, le_u16(data@, 20)),
    ensures
        attribute_views(out@) == mft_file_names(data@, record_number),
{
    let Ok(entry) = MftEntry::from_buffer_skip_fixup(data.to_vec(), record_number) else { return Vec::new() };
    entry.iter_attributes_matching(Some(vec![MftAttributeType::FileName])).map(|item| match item {
        Ok(a) => match a.data {
            MftAttributeContent::AttrX30(f) => AttributeInfo::FileName(NameAttribute {
                name: f.name, parent_entry: f.parent.entry, parent_sequence: f.parent.sequence,
                created: f.created.as_second(), modified: f.modified.as_second(), accessed: f.accessed.as_second(),
            }),
            _ => AttributeInfo::Other,
        },
        Err(_) => AttributeInfo::Unreadable,
    }).collect()
}

} // verus!
